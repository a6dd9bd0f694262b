use kv::{Kvpair, MemTable, Storage, Value};

fn sorted(mut ps: Vec<Kvpair>) -> Vec<Kvpair> {
    ps.sort_by(|a, b| a.key.cmp(&b.key));
    ps
}

#[test]
fn set_returns_prior_value() {
    let mut store = MemTable::new();
    assert_eq!(store.set("t", "k".to_string(), 1.into()).unwrap(), None);
    assert_eq!(store.set("t", "k".to_string(), 2.into()).unwrap(), Some(1.into()));
    assert_eq!(store.get("t", "k").unwrap(), Some(2.into()));
}

#[test]
fn del_twice_returns_none_the_second_time() {
    let mut store = MemTable::new();
    store.set("t", "k".to_string(), "v".into()).unwrap();
    assert_eq!(store.del("t", "k").unwrap(), Some("v".into()));
    assert_eq!(store.del("t", "k").unwrap(), None);
    assert_eq!(store.get("t", "k").unwrap(), None);
}

#[test]
fn distinct_sets_all_land() {
    let mut store = MemTable::new();
    let n: i64 = 50;
    for i in (0..n).rev() {
        assert_eq!(store.set("t", format!("k{i}"), i.into()).unwrap(), None);
    }
    let all = sorted(store.get_all("t").unwrap());
    assert_eq!(all.len(), n as usize);
    for i in 0..n {
        assert!(all.contains(&Kvpair::new(&format!("k{i}"), i.into())));
    }
}

#[test]
fn missing_table_reads_as_empty() {
    let store = MemTable::new();
    assert_eq!(store.get("nope", "k").unwrap(), None);
    assert_eq!(store.contains("nope", "k").unwrap(), false);
    assert!(store.get_all("nope").unwrap().is_empty());
    let mut it = store.get_iter("nope").unwrap();
    assert_eq!(it.next(), None);
}

#[test]
fn tables_are_independent() {
    let mut store = MemTable::new();
    store.set("a", "k".to_string(), 1.into()).unwrap();
    store.set("b", "k".to_string(), 2.into()).unwrap();
    assert_eq!(store.get("a", "k").unwrap(), Some(1.into()));
    assert_eq!(store.get("b", "k").unwrap(), Some(2.into()));
    assert_eq!(store.get_all("a").unwrap(), vec![Kvpair::new("k", 1.into())]);
    store.del("a", "k").unwrap();
    assert_eq!(store.get("b", "k").unwrap(), Some(2.into()));
}

#[test]
fn empty_key_table_and_value_are_legal() {
    let mut store = MemTable::new();
    assert_eq!(store.set("", "".to_string(), Value::default()).unwrap(), None);
    assert_eq!(store.get("", "").unwrap(), Some(Value::default()));
    assert_eq!(store.contains("", "").unwrap(), true);
    assert_eq!(store.get("", "x").unwrap(), None);
}

#[test]
fn get_iter_yields_every_pair_once() {
    let mut store = MemTable::new();
    store.set("t", "a".to_string(), 1.into()).unwrap();
    store.set("t", "b".to_string(), 2.into()).unwrap();
    store.set("u", "c".to_string(), 3.into()).unwrap();
    let mut it = store.get_iter("t").unwrap();
    let mut seen = Vec::new();
    while let Some(p) = it.next() {
        seen.push(p);
    }
    assert_eq!(sorted(seen), vec![Kvpair::new("a", 1.into()), Kvpair::new("b", 2.into())]);
    assert_eq!(it.next(), None);
}

#[test]
fn storage_iter_hands_out_its_pairs_in_order() {
    let mut it = kv::StorageIter::new(vec![
        Kvpair::new("x", true.into()),
        Kvpair::new("y", 2.into()),
        Kvpair::new("z", "s".into()),
    ]);
    assert_eq!(it.next(), Some(Kvpair::new("x", true.into())));
    assert_eq!(it.next(), Some(Kvpair::new("y", 2.into())));
    assert_eq!(it.next(), Some(Kvpair::new("z", "s".into())));
    assert_eq!(it.next(), None);
    assert_eq!(it.next(), None);
}

#[test]
fn pair_from_tuple() {
    let p: Kvpair = ("k".to_string(), Value::from(7i64)).into();
    assert_eq!(p, Kvpair::new("k", 7.into()));
}
