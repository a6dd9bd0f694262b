use vstd::prelude::*;
use vstd::string::*;

use crate::error::KvError;
use crate::pb::{pairs_view, Kvpair, Value, ValueModel};
use crate::storage::{Storage, StorageIter, StoreModel};

verus! {

struct Entry {
    table: String,
    key: String,
    value: Value,
}

spec fn entry_key(e: Entry) -> (Seq<char>, Seq<char>) {
    (e.table@, e.key@)
}

/// The in-memory backend: one entry per (table, key), never two.
pub struct MemTable {
    entries: Vec<Entry>,
    contents: Ghost<StoreModel>,
}

impl MemTable {
    pub closed spec fn wf(&self) -> bool {
        &&& forall|i: int, j: int|
            0 <= i < j < self.entries@.len() ==> entry_key(self.entries@[i]) != entry_key(
                self.entries@[j],
            )
        &&& forall|i: int|
            0 <= i < self.entries@.len() ==> self.contents@.contains_key(
                #[trigger] entry_key(self.entries@[i]),
            ) && self.contents@[entry_key(self.entries@[i])] == self.entries@[i].value@
        &&& forall|k|
            #[trigger] self.contents@.contains_key(k) ==> exists|i: int|
                0 <= i < self.entries@.len() && entry_key(self.entries@[i]) == k
    }

    pub closed spec fn contents_view(&self) -> StoreModel {
        self.contents@
    }

    /// An empty store.
    pub fn new() -> (r: Self)
        ensures
            r.wf(),
            r.contents_view() == Map::<(Seq<char>, Seq<char>), ValueModel>::empty(),
    {
        MemTable { entries: Vec::new(), contents: Ghost(Map::empty()) }
    }

    /// The index of the entry for (`table`, `key`), if there is one.
    fn find(&self, table: &String, key: &String) -> (r: Option<usize>)
        requires
            self.wf(),
        ensures
            match r {
                Some(i) => i < self.entries@.len() && entry_key(self.entries@[i as int]) == (
                    table@,
                    key@,
                ),
                None => !self.contents@.contains_key((table@, key@)),
            },
    {
        let mut i: usize = 0;
        while i < self.entries.len()
            invariant
                self.wf(),
                i <= self.entries@.len(),
                forall|j: int| 0 <= j < i ==> entry_key(self.entries@[j]) != (table@, key@),
            decreases self.entries@.len() - i,
        {
            let e = &self.entries[i];
            if e.table == *table && e.key == *key {
                return Some(i);
            }
            i = i + 1;
        }
        None
    }
}

impl Storage for MemTable {
    open spec fn inv(&self) -> bool {
        self.wf()
    }

    open spec fn model(&self) -> StoreModel {
        self.contents_view()
    }

    open spec fn infallible(&self) -> bool {
        true
    }

    fn get(&self, table: &str, key: &str) -> (r: Result<Option<Value>, KvError>) {
        let t = String::from_str(table);
        let k = String::from_str(key);
        match self.find(&t, &k) {
            Some(i) => Ok(Some(self.entries[i].value.clone())),
            None => Ok(None),
        }
    }

    fn contains(&self, table: &str, key: &str) -> (r: Result<bool, KvError>) {
        let t = String::from_str(table);
        let k = String::from_str(key);
        Ok(self.find(&t, &k).is_some())
    }

    fn set(&mut self, table: &str, key: String, value: Value) -> (r: Result<Option<Value>, KvError>) {
        let t = String::from_str(table);
        let ghost k = (table@, key@);
        let ghost v = value@;
        match self.find(&t, &key) {
            Some(i) => {
                let mut e = Entry { table: t, key, value };
                self.entries.set_and_swap(i, &mut e);
                self.contents = Ghost(self.contents@.insert(k, v));
                proof {
                    assert forall|k2| #[trigger] self.contents@.contains_key(k2) implies exists|j: int|
                        0 <= j < self.entries@.len() && entry_key(self.entries@[j]) == k2 by {
                        if k2 != k {
                            let j = choose|j: int|
                                0 <= j < old(self).entries@.len() && entry_key(old(self).entries@[j])
                                    == k2;
                            assert(entry_key(self.entries@[j]) == k2);
                        } else {
                            assert(entry_key(self.entries@[i as int]) == k2);
                        }
                    }
                }
                Ok(Some(e.value))
            },
            None => {
                self.entries.push(Entry { table: t, key, value });
                self.contents = Ghost(self.contents@.insert(k, v));
                proof {
                    let n = self.entries@.len() - 1;
                    assert(entry_key(self.entries@[n]) == k);
                    assert forall|k2| #[trigger] self.contents@.contains_key(k2) implies exists|j: int|
                        0 <= j < self.entries@.len() && entry_key(self.entries@[j]) == k2 by {
                        if k2 != k {
                            let j = choose|j: int|
                                0 <= j < old(self).entries@.len() && entry_key(old(self).entries@[j])
                                    == k2;
                            assert(entry_key(self.entries@[j]) == k2);
                        } else {
                            assert(entry_key(self.entries@[n]) == k2);
                        }
                    }
                }
                Ok(None)
            },
        }
    }

    fn del(&mut self, table: &str, key: &str) -> (r: Result<Option<Value>, KvError>) {
        let t = String::from_str(table);
        let k = String::from_str(key);
        let ghost kk = (table@, key@);
        match self.find(&t, &k) {
            Some(i) => {
                let e = self.entries.remove(i);
                self.contents = Ghost(self.contents@.remove(kk));
                proof {
                    let old_entries = old(self).entries@;
                    assert forall|a: int, b: int|
                        0 <= a < b < self.entries@.len() implies entry_key(self.entries@[a])
                        != entry_key(self.entries@[b]) by {
                        let a0 = if a < i { a } else { a + 1 };
                        let b0 = if b < i { b } else { b + 1 };
                        assert(self.entries@[a] == old_entries[a0]);
                        assert(self.entries@[b] == old_entries[b0]);
                    }
                    assert forall|a: int| 0 <= a < self.entries@.len() implies self.contents@.contains_key(
                        #[trigger] entry_key(self.entries@[a]),
                    ) && self.contents@[entry_key(self.entries@[a])] == self.entries@[a].value@ by {
                        let a0 = if a < i { a } else { a + 1 };
                        assert(self.entries@[a] == old_entries[a0]);
                        assert(entry_key(old_entries[a0]) != entry_key(old_entries[i as int]));
                    }
                    assert forall|k2| #[trigger] self.contents@.contains_key(k2) implies exists|j: int|
                        0 <= j < self.entries@.len() && entry_key(self.entries@[j]) == k2 by {
                        let j0 = choose|j: int|
                            0 <= j < old_entries.len() && entry_key(old_entries[j]) == k2;
                        assert(j0 != i);
                        let j = if j0 < i { j0 } else { j0 - 1 };
                        assert(self.entries@[j] == old_entries[j0]);
                    }
                }
                Ok(Some(e.value))
            },
            None => {
                proof {
                    assert(self.contents@.remove(kk) =~= self.contents@);
                }
                Ok(None)
            },
        }
    }

    fn get_all(&self, table: &str) -> (r: Result<Vec<Kvpair>, KvError>) {
        let t = String::from_str(table);
        let mut out: Vec<Kvpair> = Vec::new();
        let ghost mut src: Seq<int> = Seq::empty();
        let mut i: usize = 0;
        while i < self.entries.len()
            invariant
                self.wf(),
                i <= self.entries@.len(),
                t@ == table@,
                src.len() == out@.len(),
                forall|m: int|
                    0 <= m < out@.len() ==> 0 <= #[trigger] src[m] < i && self.entries@[src[m]].table@
                        == table@ && out@[m]@ == (
                        self.entries@[src[m]].key@,
                        Some(self.entries@[src[m]].value@),
                    ),
                forall|m: int, n: int| 0 <= m < n < out@.len() ==> src[m] < src[n],
                forall|j: int|
                    0 <= j < i && #[trigger] self.entries@[j].table@ == table@ ==> exists|m: int|
                        0 <= m < out@.len() && src[m] == j,
            decreases self.entries@.len() - i,
        {
            let e = &self.entries[i];
            let ghost old_src = src;
            let ghost old_len = out@.len();
            if e.table == t {
                let p = Kvpair { key: e.key.clone(), value: Some(e.value.clone()) };
                out.push(p);
                proof {
                    src = src.push(i as int);
                    assert(src[old_len as int] == i);
                }
            }
            proof {
                assert forall|j: int|
                    0 <= j < i + 1 && #[trigger] self.entries@[j].table@ == table@ implies exists|m: int|
                    0 <= m < out@.len() && src[m] == j by {
                    if j < i {
                        let m = choose|m: int| 0 <= m < old_len && old_src[m] == j;
                        assert(src[m] == j);
                    } else {
                        assert(src[old_len as int] == j);
                    }
                }
            }
            i = i + 1;
        }
        proof {
            let ps = pairs_view(out@);
            let m = self.contents@;
            assert forall|a: int| 0 <= a < ps.len() implies #[trigger] ps[a].1 == Some(
                m[(table@, ps[a].0)],
            ) && m.contains_key((table@, ps[a].0)) by {
                assert(entry_key(self.entries@[src[a]]) == (table@, ps[a].0));
            }
            assert forall|a: int, b: int| 0 <= a < b < ps.len() implies ps[a].0 != ps[b].0 by {
                assert(src[a] < src[b]);
                if ps[a].0 == ps[b].0 {
                    assert(entry_key(self.entries@[src[a]]) == entry_key(self.entries@[src[b]]));
                }
            }
            assert forall|k: Seq<char>| #[trigger] m.contains_key((table@, k)) implies exists|a: int|
                0 <= a < ps.len() && ps[a].0 == k by {
                let j = choose|j: int|
                    0 <= j < self.entries@.len() && entry_key(self.entries@[j]) == (table@, k);
                assert(self.entries@[j].table@ == table@);
                let a = choose|a: int| 0 <= a < out@.len() && src[a] == j;
                assert(ps[a].0 == k);
            }
        }
        Ok(out)
    }

    fn get_iter(&self, table: &str) -> (r: Result<StorageIter, KvError>) {
        match self.get_all(table) {
            Ok(pairs) => Ok(StorageIter::new(pairs)),
            Err(e) => Err(e),
        }
    }
}

} // verus!
