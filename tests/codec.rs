use nicolive_comments::json::{DecodeError, Json};
use nicolive_comments::message_server::{self, PingData, MAX_TIMESTAMP, MIN_TIMESTAMP};
use nicolive_comments::relive::{self, DisconnectReason, StartWatchingData};

fn obj(entries: Vec<(&str, Json)>) -> Json {
    Json::Object(entries.into_iter().map(|(k, v)| (k.to_string(), v)).collect())
}

fn s(v: &str) -> Json {
    Json::Str(v.to_string())
}

#[test]
fn control_tx_round_trip() {
    let all = vec![
        relive::TxMessage::StartWatching { data: StartWatchingData { reconnect: false } },
        relive::TxMessage::StartWatching { data: StartWatchingData { reconnect: true } },
        relive::TxMessage::Pong,
        relive::TxMessage::KeepSeat,
    ];
    for m in all {
        let j = m.to_json();
        assert_eq!(relive::TxMessage::from_json(&j), Ok(m));
    }
}

#[test]
fn control_tx_wire_shape() {
    match relive::TxMessage::Pong.to_json() {
        Json::Object(f) => {
            assert_eq!(f.len(), 1);
            assert_eq!(f[0].0, "type");
            assert!(matches!(&f[0].1, Json::Str(t) if t == "pong"));
        }
        _ => panic!("not an object"),
    }
}

#[test]
fn control_tx_unknown_tag() {
    let j = obj(vec![("type", s("hello"))]);
    assert_eq!(relive::TxMessage::from_json(&j), Err(DecodeError::UnknownTag));
}

#[test]
fn chat_tx_round_trip() {
    let m = message_server::TxMessage::Thread {
        thread: "12345".to_string(),
        version: "20061206".to_string(),
        user_id: "guest".to_string(),
        res_from: -150,
        with_global: 1,
        scores: 1,
        nicoru: 0,
    };
    let j = m.to_json();
    match message_server::TxMessage::from_json(&j) {
        Ok(message_server::TxMessage::Thread { thread, version, user_id, res_from, with_global, scores, nicoru }) => {
            assert_eq!(thread, "12345");
            assert_eq!(version, "20061206");
            assert_eq!(user_id, "guest");
            assert_eq!((res_from, with_global, scores, nicoru), (-150, 1, 1, 0));
        }
        _ => panic!("round trip failed"),
    }
    let p = message_server::TxMessage::Ping(PingData::Rf0).to_json();
    assert!(matches!(
        message_server::TxMessage::from_json(&p),
        Ok(message_server::TxMessage::Ping(PingData::Rf0))
    ));
}

#[test]
fn control_rx_room() {
    let j = obj(vec![
        ("type", s("room")),
        ("data", obj(vec![
            ("messageServer", obj(vec![("uri", s("wss://msg.example.jp/websocket"))])),
            ("threadId", s("12345")),
        ])),
    ]);
    match relive::RxMessage::from_json(&j) {
        Ok(relive::RxMessage::Room { data }) => {
            assert_eq!(data.thread_id, "12345");
            assert_eq!(data.message_server.uri.as_str(), "wss://msg.example.jp/websocket");
        }
        _ => panic!("not a room"),
    }
}

#[test]
fn control_rx_room_bad_uri() {
    let j = obj(vec![
        ("type", s("room")),
        ("data", obj(vec![
            ("messageServer", obj(vec![("uri", s("not a url"))])),
            ("threadId", s("12345")),
        ])),
    ]);
    assert!(matches!(relive::RxMessage::from_json(&j), Err(DecodeError::BadField)));
}

#[test]
fn control_rx_disconnect() {
    let j = obj(vec![("type", s("disconnect")), ("data", obj(vec![("reason", s("TAKEOVER"))]))]);
    match relive::RxMessage::from_json(&j) {
        Ok(relive::RxMessage::Disconnect { data }) => {
            assert_eq!(data.reason, DisconnectReason::Takeover);
            assert_eq!(data.reason.name(), "TAKEOVER");
        }
        _ => panic!("not a disconnect"),
    }
    let bad = obj(vec![("type", s("disconnect")), ("data", obj(vec![("reason", s("LUNCH"))]))]);
    assert!(matches!(relive::RxMessage::from_json(&bad), Err(DecodeError::BadField)));
}

#[test]
fn control_rx_reason_names() {
    let all = [
        DisconnectReason::Takeover,
        DisconnectReason::NoPermission,
        DisconnectReason::EndProgram,
        DisconnectReason::PingTimeout,
        DisconnectReason::TooManyConnections,
        DisconnectReason::TooManyWatchings,
        DisconnectReason::Crowded,
        DisconnectReason::MaintenanceIn,
        DisconnectReason::ServiceTemporarilyUnavailable,
    ];
    for r in all {
        assert_eq!(DisconnectReason::from_name(&r.name().to_string()), Some(r));
    }
    assert_eq!(DisconnectReason::PingTimeout.name(), "PING_TIMEOUT");
}

#[test]
fn control_rx_plain_and_unknown() {
    assert!(matches!(relive::RxMessage::from_json(&obj(vec![("type", s("ping"))])), Ok(relive::RxMessage::Ping)));
    assert!(matches!(relive::RxMessage::from_json(&obj(vec![("type", s("seat"))])), Ok(relive::RxMessage::Seat)));
    assert!(matches!(
        relive::RxMessage::from_json(&obj(vec![("type", s("streamQualities"))])),
        Ok(relive::RxMessage::StreamQualities)
    ));
    assert!(matches!(
        relive::RxMessage::from_json(&obj(vec![("type", s("somethingNew"))])),
        Ok(relive::RxMessage::Unknown)
    ));
    assert!(matches!(relive::RxMessage::from_json(&obj(vec![])), Err(DecodeError::MissingTag)));
    assert!(matches!(relive::RxMessage::from_json(&Json::Int(3)), Err(DecodeError::MissingTag)));
}

#[test]
fn chat_rx_decode() {
    let chat = obj(vec![(
        "chat",
        obj(vec![
            ("no", Json::Int(7)),
            ("date", Json::Int(1600000000)),
            ("user_id", s("abc")),
            ("premium", Json::Null),
            ("content", s("hello")),
        ]),
    )]);
    match message_server::RxMessage::from_json(&chat) {
        Ok(message_server::RxMessage::Chat { no, date, mail, user_id, premium, anonymity, content }) => {
            assert_eq!(no, Some(7));
            assert_eq!(date, 1600000000);
            assert_eq!(mail, None);
            assert_eq!(user_id, "abc");
            assert_eq!(premium, None);
            assert_eq!(anonymity, None);
            assert_eq!(content, "hello");
        }
        _ => panic!("not a chat"),
    }
    let no_content = obj(vec![("chat", obj(vec![("date", Json::Int(1)), ("user_id", s("abc"))]))]);
    assert!(matches!(message_server::RxMessage::from_json(&no_content), Err(DecodeError::BadField)));
}

#[test]
fn chat_rx_thread_and_ping() {
    let t = obj(vec![("thread", obj(vec![("resultcode", Json::Int(0))]))]);
    assert!(matches!(
        message_server::RxMessage::from_json(&t),
        Ok(message_server::RxMessage::Thread { result_code: 0 })
    ));
    let t2 = obj(vec![("thread", obj(vec![("result_code", Json::Int(2))]))]);
    assert!(matches!(
        message_server::RxMessage::from_json(&t2),
        Ok(message_server::RxMessage::Thread { result_code: 2 })
    ));
    let p = obj(vec![("ping", obj(vec![("content", s("rf:0"))]))]);
    assert!(matches!(
        message_server::RxMessage::from_json(&p),
        Ok(message_server::RxMessage::Ping(PingData::Rf0))
    ));
    let other = obj(vec![("ping", obj(vec![("content", s("rs:0"))]))]);
    assert!(matches!(message_server::RxMessage::from_json(&other), Ok(message_server::RxMessage::Unknown)));
    let unknown = obj(vec![("leave_thread", obj(vec![]))]);
    assert!(matches!(message_server::RxMessage::from_json(&unknown), Ok(message_server::RxMessage::Unknown)));
    let two = obj(vec![("ping", obj(vec![])), ("chat", obj(vec![]))]);
    assert!(matches!(message_server::RxMessage::from_json(&two), Err(DecodeError::MissingTag)));
}

fn chat_dated(date: Json) -> Json {
    obj(vec![(
        "chat",
        obj(vec![("date", date), ("user_id", s("abc")), ("content", s("hi"))]),
    )])
}

#[test]
fn chat_rx_date_range() {
    for d in [MIN_TIMESTAMP, 0, 1600000000, MAX_TIMESTAMP] {
        assert!(matches!(
            message_server::RxMessage::from_json(&chat_dated(Json::Int(d))),
            Ok(message_server::RxMessage::Chat { date, .. }) if date == d
        ));
    }
    for d in [MIN_TIMESTAMP - 1, MAX_TIMESTAMP + 1, i64::MAX, i64::MIN] {
        assert!(matches!(
            message_server::RxMessage::from_json(&chat_dated(Json::Int(d))),
            Err(DecodeError::BadField)
        ));
    }
    assert!(matches!(
        message_server::RxMessage::from_json(&chat_dated(Json::Number("1.5".to_string()))),
        Err(DecodeError::BadField)
    ));
    assert!(matches!(
        message_server::RxMessage::from_json(&chat_dated(s("abc"))),
        Err(DecodeError::BadField)
    ));
}

#[test]
fn chat_rx_server_keys() {
    let chat = obj(vec![(
        "chat",
        obj(vec![
            ("thread", s("12345")),
            ("no", Json::Int(42)),
            ("vpos", Json::Int(100)),
            ("date", Json::Int(1600000000)),
            ("date_usec", Json::Int(123456)),
            ("mail", s("184")),
            ("user_id", s("xyz")),
            ("premium", Json::Int(1)),
            ("anonymity", Json::Int(1)),
            ("content", s("hello")),
        ]),
    )]);
    match message_server::RxMessage::from_json(&chat) {
        Ok(message_server::RxMessage::Chat { no, mail, user_id, premium, anonymity, content, .. }) => {
            assert_eq!(no, Some(42));
            assert_eq!(mail, Some("184".to_string()));
            assert_eq!(user_id, "xyz");
            assert_eq!((premium, anonymity), (Some(1), Some(1)));
            assert_eq!(content, "hello");
        }
        _ => panic!("not a chat"),
    }
    let camel = obj(vec![("chat", obj(vec![("date", Json::Int(1)), ("userId", s("xyz")), ("content", s("x"))]))]);
    assert!(matches!(message_server::RxMessage::from_json(&camel), Err(DecodeError::BadField)));
    let ack = obj(vec![("thread", obj(vec![("result_code", Json::Int(0)), ("ticket", s("0x1"))]))]);
    assert!(matches!(
        message_server::RxMessage::from_json(&ack),
        Ok(message_server::RxMessage::Thread { result_code: 0 })
    ));
}

#[test]
fn control_rx_ignores_other_numbers() {
    let j = obj(vec![("type", s("statistics")), ("data", obj(vec![("ratio", Json::Number("0.5".to_string()))]))]);
    assert!(matches!(relive::RxMessage::from_json(&j), Ok(relive::RxMessage::Statistics)));
}
