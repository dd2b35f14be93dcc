use bytes::Bytes;
use radiant::client::{get_outcome, set_outcome};
use radiant::connection::ReadStep;
use radiant::messages::{
    Data, DelRequest, Error, GetRequest, GetResponse, GetResult, MaybeData, PingRequest, SetRequest,
    SetResponse,
};
use radiant::{
    Connection, ConnectionHandler, Db, Frame, RadiantError, Request, Response, Service, HEADER_SIZE,
    MAX_MESSAGE_LENGTH, RS,
};

#[test]
fn db_get_set_del() {
    let mut db = Db::new();
    assert_eq!(db.get("foo"), None);
    db.set("foo".to_string(), Bytes::from(vec![1, 2]));
    db.set("bar".to_string(), Bytes::from(vec![3]));
    assert_eq!(db.get("foo"), Some(Bytes::from(vec![1, 2])));
    db.set("foo".to_string(), Bytes::from(vec![9]));
    assert_eq!(db.get("foo"), Some(Bytes::from(vec![9])));
    assert_eq!(db.get("bar"), Some(Bytes::from(vec![3])));
    assert_eq!(db.del("foo".to_string()), Some(()));
    assert_eq!(db.get("foo"), None);
    assert_eq!(db.del("foo".to_string()), None);
    assert_eq!(db.get("bar"), Some(Bytes::from(vec![3])));
}

#[test]
fn process_command_set_then_get() {
    let mut db = Db::new();
    assert_eq!(Connection::process_command(&mut db, Request::Ping), Response::Pong);
    assert_eq!(
        Connection::process_command(&mut db, Request::Get("foo".to_string())),
        Response::Get("foo".to_string(), vec![])
    );
    assert_eq!(
        Connection::process_command(&mut db, Request::SetValue("foo".to_string(), b"bar".to_vec())),
        Response::Okay
    );
    assert_eq!(
        Connection::process_command(&mut db, Request::Get("foo".to_string())),
        Response::Get("foo".to_string(), b"bar".to_vec())
    );
    assert_eq!(
        Connection::process_command(&mut db, Request::Get("baz".to_string())),
        Response::Get("baz".to_string(), vec![])
    );
}

#[test]
fn connection_waits_for_whole_frame() {
    let mut c = Connection::new();
    c.receive(&[0, 0, 0, 5, b'h', b'e']);
    assert!(c.parse_frame().unwrap().is_none());
    c.receive(b"llo");
    c.receive(&[0, 0]);
    let f = c.parse_frame().unwrap().unwrap();
    assert_eq!(f.into(), "hello");
    assert!(c.parse_frame().unwrap().is_none());
    assert_eq!(
        c.end_of_stream().unwrap_err(),
        RadiantError::NetworkError("connection reset by peer".to_string())
    );
}

#[test]
fn connection_end_of_stream_when_empty() {
    let c = Connection::new();
    assert!(c.end_of_stream().unwrap().is_none());
}

#[test]
fn next_step_decisions() {
    let mut c = Connection::new();
    c.receive(&[0, 0, 0, 1, b'x']);
    let f = c.parse_frame().unwrap().unwrap();
    match Connection::next_step(Ok(Some(f))) {
        ReadStep::Handle(g) => assert_eq!(g.into(), "x"),
        _ => panic!("expected a frame to handle"),
    }
    assert!(matches!(Connection::next_step(Ok(None)), ReadStep::Disconnected));
    assert!(matches!(
        Connection::next_step(Err(RadiantError::NetworkError("x".to_string()))),
        ReadStep::Reset
    ));
    match Connection::next_step(Err(RadiantError::MessageLimit)) {
        ReadStep::Skip(e) => assert_eq!(e, RadiantError::MessageLimit),
        _ => panic!("expected the error to be skipped"),
    }
}

#[test]
fn handler_reads_over_zeroed_buffer() {
    let mut h = ConnectionHandler::new();
    assert_eq!(h.buffer_len(), HEADER_SIZE + MAX_MESSAGE_LENGTH);
    assert!(h.end_of_stream().unwrap().is_none());
    h.fill(&[0, 0, 0, 5, b'h', b'e', b'l', b'l', b'o']);
    let f: Frame = h.parse_frame().unwrap().unwrap();
    assert_eq!(f.into(), "hello");
    assert_eq!(h.buffer_len(), HEADER_SIZE + MAX_MESSAGE_LENGTH - 9);
    // What remains is zero, so it reads as an empty frame.
    let empty = h.parse_frame().unwrap().unwrap();
    assert_eq!(empty.into(), "");
}

#[test]
fn handler_end_of_stream_after_data_is_reset() {
    let mut h = ConnectionHandler::new();
    h.fill(&[0, 0, 1]);
    assert_eq!(
        h.end_of_stream().unwrap_err(),
        RadiantError::NetworkError("connection reset by peer".to_string())
    );
}

#[test]
fn handler_send_message() {
    let h = ConnectionHandler::new();
    let b = h.send_message("world").unwrap();
    assert_eq!(&b[..], &[0u8, 0, 0, 5, b'w', b'o', b'r', b'l', b'd'][..]);
    let long = "x".repeat(MAX_MESSAGE_LENGTH + 1);
    assert_eq!(h.send_message(&long).unwrap_err(), RadiantError::MessageLimit);
}

#[test]
fn service_calls() {
    let mut s = Service::default();
    assert_eq!(s.ping(PingRequest {}).error, None);
    let r = s.get(GetRequest { key: "k".to_string() });
    assert_eq!(r.result, Some(GetResult::MaybeData(MaybeData { data: None })));
    assert_eq!(s.set(SetRequest { key: "k".to_string(), data: vec![4, 5] }).error, None);
    let r = s.get(GetRequest { key: "k".to_string() });
    assert_eq!(
        r.result,
        Some(GetResult::MaybeData(MaybeData {
            data: Some(Data { key: "k".to_string(), data: vec![4, 5] })
        }))
    );
    assert_eq!(s.del(DelRequest { key: "k".to_string() }).error, None);
    assert_eq!(
        s.del(DelRequest { key: "k".to_string() }).error,
        Some(Error { reason: "Key does not exist".to_string() })
    );
    let r = s.get(GetRequest { key: "k".to_string() });
    assert_eq!(r.result, Some(GetResult::MaybeData(MaybeData { data: None })));
}

#[test]
fn stub_server_pings() {
    let rs = RS::default();
    assert_eq!(rs.ping(PingRequest {}).error, None);
    let s = Service::new();
    assert_eq!(s.ping(PingRequest {}).error, None);
}

#[test]
fn client_outcomes() {
    let found = GetResponse {
        result: Some(GetResult::MaybeData(MaybeData {
            data: Some(Data { key: "k".to_string(), data: vec![7] }),
        })),
    };
    assert_eq!(get_outcome(found), Ok(Some(vec![7])));
    let missing = GetResponse { result: Some(GetResult::MaybeData(MaybeData { data: None })) };
    assert_eq!(get_outcome(missing), Ok(None));
    let failed = GetResponse {
        result: Some(GetResult::Error(Error { reason: "boom".to_string() })),
    };
    assert_eq!(get_outcome(failed), Err(Error { reason: "boom".to_string() }));
    assert_eq!(set_outcome(SetResponse { error: None }), Ok(()));
    assert_eq!(
        set_outcome(SetResponse { error: Some(Error { reason: "no".to_string() }) }),
        Err(Error { reason: "no".to_string() })
    );
}

fn read_all(chunks: &[&[u8]]) -> (Vec<String>, Result<Option<Frame>, RadiantError>) {
    let mut c = Connection::new();
    let mut texts = Vec::new();
    let mut next = 0;
    loop {
        match c.parse_frame() {
            Ok(Some(f)) => {
                texts.push(f.into());
                continue;
            }
            Ok(None) => {}
            Err(e) => return (texts, Err(e)),
        }
        if next == chunks.len() {
            return (texts, c.end_of_stream());
        }
        c.receive(chunks[next]);
        next += 1;
    }
}

#[test]
fn reading_does_not_depend_on_chunking() {
    let mut all = radiant::frame::frame_message("one").to_vec();
    all.extend_from_slice(&radiant::frame::frame_message("two").to_vec());
    all.extend_from_slice(&radiant::frame::frame_message("").to_vec());
    let whole = read_all(&[&all]);
    assert_eq!(whole.0, vec!["one".to_string(), "two".to_string(), String::new()]);
    assert!(whole.1.unwrap().is_none());
    for split in 0..=all.len() {
        let pieces = read_all(&[&all[..split], &all[split..]]);
        assert_eq!(pieces.0, whole.0);
        assert!(pieces.1.unwrap().is_none());
    }
    let bytes: Vec<&[u8]> = all.chunks(1).collect();
    let singles = read_all(&bytes);
    assert_eq!(singles.0, whole.0);
    // Cut short in the middle of a frame: the same frames, then a reset.
    let cut = read_all(&[&all[..5], &all[5..9]]);
    assert_eq!(cut.0, vec!["one".to_string()]);
    assert_eq!(cut.1.unwrap_err(), RadiantError::NetworkError("connection reset by peer".to_string()));
}

fn convert(e: radiant::FrameError) -> Result<(), RadiantError> {
    Err(e)?;
    Ok(())
}

#[test]
fn frame_errors_convert_through_question_mark() {
    assert_eq!(convert(radiant::FrameError::TooLarge), Err(RadiantError::MessageLimit));
    assert_eq!(convert(radiant::FrameError::Incomplete), Err(RadiantError::Other));
    assert_eq!(
        convert(radiant::FrameError::Parse),
        Err(RadiantError::ParseError("cannot parse frame".to_string()))
    );
}
