use nicolive_comments::chat::{batch_to_json, ChatAction, ChatPhase, ChatSession};
use nicolive_comments::control::{ControlAction, ControlSession, EndpointInfo};
use nicolive_comments::coordinator::{
    chat_outcome, connection_failed, control_outcome, setup_outcome, Outcome,
};
use nicolive_comments::json::Json;
use nicolive_comments::message_server::{self, PingData};
use nicolive_comments::relive::{
    self, DisconnectData, DisconnectReason, MessageServer, RoomData, StartWatchingData,
};

fn endpoint(thread: &str) -> EndpointInfo {
    EndpointInfo {
        uri: url::Url::parse("wss://msg.example.jp/websocket").unwrap(),
        thread_id: thread.to_string(),
    }
}

fn room(thread: &str) -> relive::RxMessage {
    relive::RxMessage::Room {
        data: RoomData {
            message_server: MessageServer { uri: url::Url::parse("wss://msg.example.jp/websocket").unwrap() },
            thread_id: thread.to_string(),
        },
    }
}

fn chat(content: &str) -> message_server::RxMessage {
    message_server::RxMessage::Chat {
        no: Some(1),
        date: 1600000000,
        mail: None,
        user_id: "guest".to_string(),
        premium: None,
        anonymity: None,
        content: content.to_string(),
    }
}

fn run_chat(session: &mut ChatSession, stream: Vec<message_server::RxMessage>) -> (Vec<String>, Vec<Outcome>) {
    let mut emitted = Vec::new();
    let mut outcomes = Vec::new();
    for m in stream {
        let a = session.on_message(m);
        outcomes.push(chat_outcome(&a));
        if let ChatAction::Emit(message_server::RxMessage::Chat { content, .. }) = a {
            emitted.push(content);
        }
        if session.phase == ChatPhase::Done {
            break;
        }
    }
    (emitted, outcomes)
}

#[test]
fn handshake_is_start_watching() {
    let s = ControlSession::new();
    assert_eq!(
        s.handshake(),
        relive::TxMessage::StartWatching { data: StartWatchingData { reconnect: false } }
    );
}

#[test]
fn ping_gets_pong_then_keep_seat() {
    let mut s = ControlSession::new();
    let msgs = vec![relive::RxMessage::Seat, relive::RxMessage::Ping, relive::RxMessage::Statistics];
    let mut writes = Vec::new();
    for m in msgs {
        if let ControlAction::Send(v) = s.on_message(m) {
            writes.extend(v);
        }
    }
    assert_eq!(writes, vec![relive::TxMessage::Pong, relive::TxMessage::KeepSeat]);
}

#[test]
fn only_one_handoff() {
    let mut s = ControlSession::new();
    let first = s.on_message(room("12345"));
    assert!(matches!(first, ControlAction::Handoff(ref e) if e.thread_id == "12345"));
    let second = s.on_message(room("67890"));
    assert!(matches!(second, ControlAction::Ignore));
    assert!(s.handed_off);
}

#[test]
fn disconnect_ends_with_success() {
    let mut s = ControlSession::new();
    let a = s.on_message(relive::RxMessage::Disconnect { data: DisconnectData { reason: DisconnectReason::Takeover } });
    assert!(matches!(a, ControlAction::Exit(DisconnectReason::Takeover)));
    assert_eq!(control_outcome(&a), Outcome::Finished { code: 0 });
    if let ControlAction::Exit(r) = a {
        let report = format!("Disconnected from server. reason: {}", r.name());
        assert!(report.contains("TAKEOVER"));
    }
    assert!(s.terminated);
    assert_eq!(control_outcome(&ControlAction::Ignore), Outcome::Continue);
}

#[test]
fn subscription_with_default_backlog() {
    let r = ChatSession::subscription(&endpoint("12345"), 150);
    assert_eq!(r.len(), 2);
    match &r[0] {
        message_server::TxMessage::Thread { thread, version, user_id, res_from, with_global, scores, nicoru } => {
            assert_eq!(thread, "12345");
            assert_eq!(version, "20061206");
            assert_eq!(user_id, "guest");
            assert_eq!(*res_from, -150);
            assert_eq!((*with_global, *scores, *nicoru), (1, 1, 0));
        }
        _ => panic!("first message is not the thread request"),
    }
    assert!(matches!(r[1], message_server::TxMessage::Ping(PingData::Rf0)));
    match batch_to_json(&r) {
        Json::Array(items) => {
            assert_eq!(items.len(), 2);
            match &items[0] {
                Json::Object(f) => match &f[0].1 {
                    Json::Object(g) => {
                        assert_eq!(g[3].0, "resFrom");
                        assert!(matches!(g[3].1, Json::Int(-150)));
                    }
                    _ => panic!("thread body is not an object"),
                },
                _ => panic!("not an object"),
            }
        }
        _ => panic!("not an array"),
    }
}

#[test]
fn subscription_without_backlog() {
    let r = ChatSession::subscription(&endpoint("12345"), 0);
    assert!(matches!(r[0], message_server::TxMessage::Thread { res_from: 0, .. }));
    assert!(matches!(r[1], message_server::TxMessage::Ping(PingData::Rf0)));
}

#[test]
fn backlog_then_exit_without_follow() {
    let mut s = ChatSession::new(false);
    let stream = vec![
        message_server::RxMessage::Thread { result_code: 0 },
        chat("hello"),
        message_server::RxMessage::Ping(PingData::Rf0),
    ];
    let (emitted, outcomes) = run_chat(&mut s, stream);
    assert_eq!(emitted, vec!["hello".to_string()]);
    assert_eq!(outcomes, vec![Outcome::Continue, Outcome::Continue, Outcome::Finished { code: 0 }]);
    assert_eq!(s.phase, ChatPhase::Done);
}

#[test]
fn backlog_then_follow() {
    let mut s = ChatSession::new(true);
    let stream = vec![
        message_server::RxMessage::Thread { result_code: 0 },
        chat("hello"),
        message_server::RxMessage::Ping(PingData::Rf0),
        chat("world"),
    ];
    let (emitted, outcomes) = run_chat(&mut s, stream);
    assert_eq!(emitted, vec!["hello".to_string(), "world".to_string()]);
    assert!(outcomes.iter().all(|o| *o == Outcome::Continue));
    assert_eq!(s.phase, ChatPhase::Following);
}

#[test]
fn backlog_range_is_checked() {
    assert_eq!(setup_outcome(150), Outcome::Continue);
    assert_eq!(setup_outcome(0), Outcome::Continue);
    assert_eq!(setup_outcome(200), Outcome::Continue);
    assert_eq!(setup_outcome(201), Outcome::Finished { code: 1 });
    assert_eq!(setup_outcome(-1), Outcome::Finished { code: 1 });
    assert_eq!(connection_failed(), Outcome::Finished { code: 1 });
}
