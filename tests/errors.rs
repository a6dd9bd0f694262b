use kv::{CommandResponse, ConvertTarget, KvError, Value};

#[test]
fn error_statuses_and_messages() {
    let e = KvError::NotFound("t".to_string(), "k".to_string());
    assert_eq!(e.status(), 404);
    assert_eq!(e.message(), "Not found for table: t, key: k");
    let e = KvError::InvalidCommand(String::new());
    assert_eq!(e.status(), 400);
    assert_eq!(e.message(), "invalid command");
    let e = KvError::InvalidCommand("bad".to_string());
    assert_eq!(e.message(), "invalid command: bad");
    let e = KvError::ConvertError(Value::from(1i64), ConvertTarget::Boolean);
    assert_eq!(e.status(), 500);
    assert_eq!(e.message(), "Cannot convert value to Boolean");
    assert_eq!(KvError::StorageError("disk".to_string()).message(), "Storage error: disk");
    assert_eq!(KvError::StorageError("disk".to_string()).status(), 500);
    assert_eq!(KvError::FrameError.status(), 500);
    assert_eq!(KvError::FrameError.message(), "Frame is malformed or larger than max size");
    assert_eq!(KvError::IoError("eof".to_string()).message(), "I/O error: eof");
    assert_eq!(
        KvError::EncodeError("x".to_string()).message(),
        "Failed to encode protobuf message: x"
    );
    assert_eq!(
        KvError::DecodeError("y".to_string()).message(),
        "Failed to decode protobuf message: y"
    );
    assert_eq!(KvError::Internal("no response".to_string()).message(), "internal: no response");
}

#[test]
fn error_becomes_response() {
    let res = CommandResponse::from_error(KvError::NotFound("a".to_string(), "b".to_string()));
    assert_eq!(res.status, 404);
    assert_eq!(res.message, "Not found for table: a, key: b");
    assert!(res.values.is_empty() && res.pairs.is_empty());
}

#[test]
fn value_responses() {
    let res = CommandResponse::from_value(3.into());
    assert_eq!((res.status, res.message.as_str()), (200, ""));
    assert_eq!(res.values, vec![Value::from(3i64)]);
    let res = CommandResponse::from_values(vec![true.into(), Value::default()]);
    assert_eq!(res.values, vec![Value::from(true), Value::default()]);
    let res = CommandResponse::from_pairs(vec![kv::Kvpair::new("k", "v".into())]);
    assert_eq!(res.status, 200);
    assert!(res.values.is_empty());
    assert_eq!(res.pairs.len(), 1);
}

#[test]
fn downcasts() {
    assert_eq!(Value::from(4i64).into_integer(), Ok(4));
    assert_eq!(
        Value::from("s").into_integer(),
        Err(KvError::ConvertError(Value::from("s"), ConvertTarget::Integer))
    );
    assert_eq!(Value::from(true).into_bool(), Ok(true));
    assert_eq!(
        Value::default().into_bool(),
        Err(KvError::ConvertError(Value::default(), ConvertTarget::Boolean))
    );
    assert_eq!(Value::from(vec![1u8, 2]).into_binary(), Ok(vec![1u8, 2]));
    assert_eq!(
        Value::from(1i64).into_binary(),
        Err(KvError::ConvertError(Value::from(1i64), ConvertTarget::Binary))
    );
    let bits = 2.5f64.to_bits();
    assert_eq!(Value::from_float_bits(bits).into_float_bits(), Ok(bits));
    assert_eq!(
        Value::from(false).into_float_bits(),
        Err(KvError::ConvertError(Value::from(false), ConvertTarget::Float))
    );
}
