use kv::{
    client_outcome, serve_event, CommandRequest, CommandResponse, Inbound, KvError, MemTable,
    ProstClientStream, ProstServerStream, ProstStream, Service, SessionAction, Storage, Value,
};

#[test]
fn server_answers_requests_in_order() {
    let mut svc = Service::new(MemTable::new());
    let events = vec![
        Inbound::Request(CommandRequest::new_hset("t", "k", 1.into())),
        Inbound::Request(CommandRequest::new_hset("t", "k", 2.into())),
        Inbound::Request(CommandRequest::new_hget("t", "k")),
        Inbound::Closed,
    ];
    let mut answers = Vec::new();
    for ev in events {
        match serve_event(&mut svc, ev) {
            SessionAction::Respond(r) => answers.push(r.values),
            SessionAction::Close(e) => {
                assert_eq!(e, None);
                break;
            }
        }
    }
    assert_eq!(answers, vec![vec![Value::default()], vec![1.into()], vec![2.into()]]);
}

#[test]
fn server_closes_on_failure() {
    let mut svc = Service::new(MemTable::new());
    match serve_event(&mut svc, Inbound::Failed(KvError::FrameError)) {
        SessionAction::Close(e) => assert_eq!(e, Some(KvError::FrameError)),
        SessionAction::Respond(_) => panic!("a failure must close the session"),
    }
}

#[test]
fn client_without_reply_fails_internally() {
    let r = client_outcome(None);
    let e = r.unwrap_err();
    assert_eq!(e, KvError::Internal("no response".to_string()));
    assert_eq!(e.message(), "internal: no response");
    let res = CommandResponse::from_value(1.into());
    assert_eq!(client_outcome(Some(Ok(res.clone()))), Ok(res));
}

#[test]
fn stream_holders_keep_their_parts() {
    let s = ProstServerStream::new(1u8, "svc");
    assert_eq!((s.inner, s.service), (1u8, "svc"));
    let c = ProstClientStream::new(2u8);
    assert_eq!(c.inner, 2u8);
}

#[test]
fn partial_writes_resume_where_they_stopped() {
    let mut s = ProstStream::new(());
    s.start_send(b"abc").unwrap();
    assert_eq!(s.unwritten(), &[0, 0, 0, 3, b'a', b'b', b'c']);
    assert!(!s.record_written(2));
    assert_eq!(s.unwritten(), &[0, 3, b'a', b'b', b'c']);
    assert!(!s.record_written(4));
    assert_eq!(s.unwritten(), &[b'c']);
    assert!(s.record_written(1));
    assert!(s.unwritten().is_empty());
}

#[test]
fn stream_decodes_one_inbound_frame() {
    let mut s = ProstStream::new(());
    let mut frame = Vec::new();
    kv::encode_frame(&vec![5u8; 2000], &mut frame).unwrap();
    assert_eq!(s.accept_frame(frame).unwrap(), vec![5u8; 2000]);
    assert!(s.accept_frame(vec![0, 0, 0, 9]).is_err());
    assert_eq!(s.accept_frame(vec![0, 0, 0, 1, 42]).unwrap(), vec![42]);
}

#[test]
fn reads_are_answered_from_a_shared_view() {
    let mut svc = Service::new(MemTable::new());
    svc.execute(CommandRequest::new_hset("t", "k", 9.into()));
    let res = svc.query(&CommandRequest::new_hget("t", "k")).unwrap();
    assert_eq!(res.values, vec![Value::from(9i64)]);
    let res = svc.query(&CommandRequest::new_hmexist("t", vec!["k".into(), "z".into()])).unwrap();
    assert_eq!(res.values, vec![Value::from(true), Value::from(false)]);
    assert!(svc.query(&CommandRequest::new_hdel("t", "k")).is_none());
    assert!(svc.query(&CommandRequest { request_data: None }).is_none());
    assert_eq!(svc.store().get("t", "k").unwrap(), Some(9.into()));
}

#[test]
fn stream_hands_out_its_byte_stream() {
    let mut s = ProstStream::new(vec![1u8]);
    s.get_mut().push(2);
    s.start_send(b"z").unwrap();
    assert_eq!(s.get_mut(), &vec![1u8, 2]);
    assert_eq!(s.unwritten(), &[0, 0, 0, 1, b'z']);
}
