use kv::{
    dispatch, exists_or_empty, exists_response, get_response, pairs_response,
    prior_value_response, value_or_empty, CommandRequest, CommandResponse, KvError, Kvpair,
    MemTable, Storage, Value,
};

fn run(cmd: CommandRequest, store: &mut MemTable) -> CommandResponse {
    dispatch(cmd, store)
}

fn set_key_pairs(table: &str, pairs: Vec<(&str, Value)>, store: &mut MemTable) {
    for (k, v) in pairs {
        run(CommandRequest::new_hset(table, k, v), store);
    }
}

fn assert_res_ok(mut res: CommandResponse, values: &[Value], pairs: &[Kvpair]) {
    res.pairs.sort_by(|a, b| a.key.cmp(&b.key));
    assert_eq!(res.status, 200);
    assert_eq!(res.message, "");
    assert_eq!(res.values, values);
    assert_eq!(res.pairs, pairs);
}

fn assert_res_error(res: CommandResponse, code: u32, msg: &str) {
    assert_eq!(res.status, code);
    assert!(res.message.contains(msg));
    assert_eq!(res.values, &[]);
    assert_eq!(res.pairs, &[]);
}

#[test]
fn hset_should_work() {
    let mut store = MemTable::new();
    let cmd = CommandRequest::new_hset("t1", "hello", "world".into());
    let res = run(cmd.clone(), &mut store);
    assert_res_ok(res, &[Value::default()], &[]);

    let res = run(cmd, &mut store);
    assert_res_ok(res, &["world".into()], &[]);
}

#[test]
fn hget_should_work() {
    let mut store = MemTable::new();
    let cmd = CommandRequest::new_hset("score", "u1", 10.into());
    run(cmd, &mut store);
    let cmd = CommandRequest::new_hget("score", "u1");
    let res = run(cmd, &mut store);
    assert_res_ok(res, &[10.into()], &[]);
}

#[test]
fn hget_with_non_exist_key_should_return_404() {
    let mut store = MemTable::new();
    let cmd = CommandRequest::new_hget("score", "u1");
    let res = run(cmd, &mut store);
    assert_res_error(res, 404, "Not found");
}

#[test]
fn hgetall_should_work() {
    let mut store = MemTable::new();
    let cmds = vec![
        CommandRequest::new_hset("score", "u1", 10.into()),
        CommandRequest::new_hset("score", "u2", 8.into()),
        CommandRequest::new_hset("score", "u3", 11.into()),
        CommandRequest::new_hset("score", "u1", 6.into()),
    ];
    for cmd in cmds {
        run(cmd, &mut store);
    }

    let cmd = CommandRequest::new_hgetall("score");
    let res = run(cmd, &mut store);
    let pairs = &[
        Kvpair::new("u1", 6.into()),
        Kvpair::new("u2", 8.into()),
        Kvpair::new("u3", 11.into()),
    ];
    assert_res_ok(res, &[], pairs);
}

#[test]
fn hmset_should_work() {
    let mut store = MemTable::new();
    set_key_pairs("t1", vec![("u1", "world".into())], &mut store);
    let pairs = vec![
        Kvpair::new("u1", Value::from_float_bits(10.1f64.to_bits())),
        Kvpair::new("u2", Value::from_float_bits(8.1f64.to_bits())),
    ];
    let cmd = CommandRequest::new_hmset("t1", pairs);
    let res = run(cmd, &mut store);
    assert_res_ok(res, &["world".into(), Value::default()], &[]);
}

#[test]
fn hdel_should_work() {
    let mut store = MemTable::new();
    set_key_pairs("t1", vec![("u1", "v1".into())], &mut store);
    let cmd = CommandRequest::new_hdel("t1", "u2");
    let res = run(cmd, &mut store);
    assert_res_ok(res, &[Value::default()], &[]);

    let cmd = CommandRequest::new_hdel("t1", "u1");
    let res = run(cmd, &mut store);
    assert_res_ok(res, &["v1".into()], &[]);
}

#[test]
fn hmdel_should_work() {
    let mut store = MemTable::new();
    set_key_pairs("t1", vec![("u1", "v1".into()), ("u2", "v2".into())], &mut store);

    let cmd = CommandRequest::new_hmdel("t1", vec!["u1".into(), "u3".into()]);
    let res = run(cmd, &mut store);
    assert_res_ok(res, &["v1".into(), Value::default()], &[]);
}

#[test]
fn hexist_should_work() {
    let mut store = MemTable::new();
    set_key_pairs("t1", vec![("u1", "v1".into())], &mut store);
    let cmd = CommandRequest::new_hexist("t1", "u2");
    let res = run(cmd, &mut store);
    assert_res_ok(res, &[false.into()], &[]);

    let cmd = CommandRequest::new_hexist("t1", "u1");
    let res = run(cmd, &mut store);
    assert_res_ok(res, &[true.into()], &[]);
}

#[test]
fn hmexist_should_work() {
    let mut store = MemTable::new();
    set_key_pairs("t1", vec![("u1", "v1".into()), ("u2", "v2".into())], &mut store);

    let cmd = CommandRequest::new_hmexist("t1", vec!["u1".into(), "u3".into()]);
    let res = run(cmd, &mut store);
    assert_res_ok(res, &[true.into(), false.into()], &[]);
}

#[test]
fn hmget_keeps_request_order() {
    let mut store = MemTable::new();
    set_key_pairs("t1", vec![("a", 1.into()), ("b", 2.into())], &mut store);
    let cmd = CommandRequest::new_hmget("t1", vec!["b".into(), "x".into(), "a".into()]);
    let res = run(cmd, &mut store);
    assert_res_ok(res, &[2.into(), Value::default(), 1.into()], &[]);
}

#[test]
fn hset_without_pair_answers_empty_value() {
    let mut store = MemTable::new();
    let cmd = CommandRequest {
        request_data: Some(kv::RequestData::Hset(kv::Hset { table: "t".to_string(), pair: None })),
    };
    let res = run(cmd, &mut store);
    assert_res_ok(res, &[Value::default()], &[]);
    assert_eq!(store.get_all("t").unwrap(), vec![]);
}

#[test]
fn hset_with_missing_value_stores_empty_value() {
    let mut store = MemTable::new();
    let pair = Kvpair { key: "k".to_string(), value: None };
    let cmd = CommandRequest {
        request_data: Some(kv::RequestData::Hset(kv::Hset { table: "t".to_string(), pair: Some(pair) })),
    };
    run(cmd, &mut store);
    assert_eq!(store.get("t", "k").unwrap(), Some(Value::default()));
    assert_eq!(store.contains("t", "k").unwrap(), true);
}

#[test]
fn hmset_with_repeated_key_reports_earlier_value() {
    let mut store = MemTable::new();
    let pairs = vec![Kvpair::new("k", 1.into()), Kvpair::new("k", 2.into())];
    let res = run(CommandRequest::new_hmset("t", pairs), &mut store);
    assert_res_ok(res, &[Value::default(), 1.into()], &[]);
    assert_eq!(store.get("t", "k").unwrap(), Some(2.into()));
}

#[test]
fn empty_request_is_rejected_with_400() {
    let mut store = MemTable::new();
    let res = run(CommandRequest { request_data: None }, &mut store);
    assert_eq!(res.status, 400);
    assert_eq!(res.message, "invalid command");
    assert!(res.values.is_empty());
    assert!(res.pairs.is_empty());
}

#[test]
fn scenario_set_then_get() {
    let mut store = MemTable::new();
    let res = run(CommandRequest::new_hset("t1", "k1", "v1".into()), &mut store);
    assert_res_ok(res, &[Value::default()], &[]);
    let res = run(CommandRequest::new_hget("t1", "k1"), &mut store);
    assert_res_ok(res, &["v1".into()], &[]);
}

#[test]
fn scenario_get_on_empty_store() {
    let mut store = MemTable::new();
    let res = run(CommandRequest::new_hget("score", "u1"), &mut store);
    assert_eq!(res.status, 404);
    assert!(res.message.to_lowercase().contains("not found"));
    assert_eq!(res.message, "Not found for table: score, key: u1");
}

#[test]
fn scenario_overwrite_reports_prior() {
    let mut store = MemTable::new();
    let res = run(CommandRequest::new_hset("t1", "k1", "v1".into()), &mut store);
    assert_res_ok(res, &[Value::default()], &[]);
    let res = run(CommandRequest::new_hset("t1", "k1", "v2".into()), &mut store);
    assert_res_ok(res, &["v1".into()], &[]);
    let res = run(CommandRequest::new_hget("t1", "k1"), &mut store);
    assert_res_ok(res, &["v2".into()], &[]);
}

#[test]
fn scenario_large_blob_round_trips_through_store() {
    let mut store = MemTable::new();
    let blob: Value = vec![0u8; 16384].into();
    let res = run(CommandRequest::new_hset("t2", "k2", blob.clone()), &mut store);
    assert_res_ok(res, &[Value::default()], &[]);
    let res = run(CommandRequest::new_hget("t2", "k2"), &mut store);
    assert_res_ok(res, &[blob], &[]);
}

#[test]
fn scenario_hmset_after_hset() {
    let mut store = MemTable::new();
    run(CommandRequest::new_hset("t1", "u1", "world".into()), &mut store);
    let pairs = vec![
        Kvpair::new("u1", Value::from_float_bits(10.1f64.to_bits())),
        Kvpair::new("u2", Value::from_float_bits(8.1f64.to_bits())),
    ];
    let res = run(CommandRequest::new_hmset("t1", pairs), &mut store);
    assert_res_ok(res, &["world".into(), Value::default()], &[]);
}

#[test]
fn scenario_hmexist_one_present() {
    let mut store = MemTable::new();
    run(CommandRequest::new_hset("t1", "u1", "x".into()), &mut store);
    let res = run(CommandRequest::new_hmexist("t1", vec!["u1".into(), "u3".into()]), &mut store);
    assert_res_ok(res, &[true.into(), false.into()], &[]);
}

#[test]
fn service_executes_against_its_store() {
    let mut svc = kv::Service::new(MemTable::new());
    let res = svc.execute(CommandRequest::new_hset("t", "k", 3.into()));
    assert_res_ok(res, &[Value::default()], &[]);
    assert_eq!(svc.store().get("t", "k").unwrap(), Some(3.into()));
}

#[test]
fn storage_failures_map_to_responses() {
    let err = || KvError::StorageError("disk".to_string());
    let res = prior_value_response(Err(err()));
    assert_eq!(res.status, 500);
    assert_eq!(res.message, "Storage error: disk");
    assert!(res.values.is_empty());
    assert_res_ok(prior_value_response(Ok(None)), &[Value::default()], &[]);
    assert_res_ok(prior_value_response(Ok(Some(5.into()))), &[5.into()], &[]);
    assert_eq!(value_or_empty(Err(err())), Value::default());
    assert_eq!(value_or_empty(Ok(None)), Value::default());
    assert_eq!(value_or_empty(Ok(Some("x".into()))), Value::from("x"));
    assert_eq!(exists_or_empty(Err(err())), Value::default());
    assert_eq!(exists_or_empty(Ok(true)), Value::from(true));
}

#[test]
fn single_key_results_map_to_responses() {
    let (t, k) = ("score".to_string(), "u1".to_string());
    let res = get_response(&t, &k, Ok(None));
    assert_res_error(res, 404, "Not found for table: score, key: u1");
    assert_res_ok(get_response(&t, &k, Ok(Some(3.into()))), &[3.into()], &[]);
    let res = get_response(&t, &k, Err(KvError::StorageError("io".to_string())));
    assert_res_error(res, 500, "Storage error: io");
    assert_res_ok(exists_response(Ok(false)), &[false.into()], &[]);
    assert_res_error(exists_response(Err(KvError::FrameError)), 500, "Frame");
    let pairs = vec![Kvpair::new("a", 1.into())];
    assert_res_ok(pairs_response(Ok(pairs.clone())), &[], &pairs);
    assert_res_error(pairs_response(Err(KvError::Internal("x".to_string()))), 500, "internal: x");
}
