use vstd::prelude::*;

use crate::json::{
    as_string, entry, find_field, get, get_field, get_in, is_bool, is_str, lookup, str_is,
    string_field, text, DecodeError, Json,
};

verus! {

/// The chat endpoint is carried as a `url::Url`, opaque here.
#[verifier::external_type_specification]
#[verifier::external_body]
pub struct ExUrl(url::Url);

/// The error of `url::Url::parse`, only told apart from success here.
#[verifier::external_type_specification]
#[verifier::external_body]
pub struct ExParseError(url::ParseError);

/// Whether `url::Url::parse` accepts the text as an absolute URL.
pub uninterp spec fn url_accepts(s: Seq<char>) -> bool;

/// Relies on url::Url::parse: whether a text is accepted depends on the text alone.
#[verifier::external_body]
fn parse_url(s: &str) -> (r: Result<url::Url, url::ParseError>)
    ensures
        r is Ok == url_accepts(s@),
{
    url::Url::parse(s)
}

/// Payload of the handshake message.
#[derive(PartialEq, Eq, Structural, Debug, Clone, Copy)]
pub struct StartWatchingData {
    pub reconnect: bool,
}

/// A message this client sends on the control channel.
#[derive(PartialEq, Eq, Structural, Debug, Clone, Copy)]
pub enum TxMessage {
    StartWatching { data: StartWatchingData },
    Pong,
    KeepSeat,
}

/// `j` is the object `{"type": tag}`.
pub open spec fn is_bare_tag(j: Json, tag: Seq<char>) -> bool {
    match j {
        Json::Object(f) => f@.len() == 1 && f@[0].0@ == "type"@ && is_str(f@[0].1, tag),
        _ => false,
    }
}

impl TxMessage {
    /// `j` is the wire form of this message.
    pub open spec fn encodes(self, j: Json) -> bool {
        match self {
            TxMessage::StartWatching { data } => match j {
                Json::Object(f) => {
                    &&& f@.len() == 2
                    &&& f@[0].0@ == "type"@
                    &&& is_str(f@[0].1, "startWatching"@)
                    &&& f@[1].0@ == "data"@
                    &&& match f@[1].1 {
                        Json::Object(g) => g@.len() == 1 && g@[0].0@ == "reconnect"@ && is_bool(
                            g@[0].1,
                            data.reconnect,
                        ),
                        _ => false,
                    }
                },
                _ => false,
            },
            TxMessage::Pong => is_bare_tag(j, "pong"@),
            TxMessage::KeepSeat => is_bare_tag(j, "keepSeat"@),
        }
    }

    /// The message that `j` is the wire form of, if any.
    pub open spec fn decoded(j: Json) -> Result<TxMessage, DecodeError> {
        match j {
            Json::Object(f) => match lookup(f@, "type"@) {
                Some(Json::Str(t)) => if t@ == "pong"@ {
                    Ok(TxMessage::Pong)
                } else if t@ == "keepSeat"@ {
                    Ok(TxMessage::KeepSeat)
                } else if t@ == "startWatching"@ {
                    match lookup(f@, "data"@) {
                        Some(Json::Object(g)) => match lookup(g@, "reconnect"@) {
                            Some(Json::Bool(b)) => Ok(
                                TxMessage::StartWatching { data: StartWatchingData { reconnect: b } },
                            ),
                            _ => Err(DecodeError::BadField),
                        },
                        _ => Err(DecodeError::BadField),
                    }
                } else {
                    Err(DecodeError::UnknownTag)
                },
                _ => Err(DecodeError::MissingTag),
            },
            _ => Err(DecodeError::MissingTag),
        }
    }

    /// The wire form of the message.
    pub fn to_json(&self) -> (r: Json)
        ensures
            self.encodes(r),
    {
        match self {
            TxMessage::StartWatching { data } => {
                let inner = vec![entry("reconnect", Json::Bool(data.reconnect))];
                Json::Object(vec![entry("type", text("startWatching")), entry("data", Json::Object(inner))])
            },
            TxMessage::Pong => Json::Object(vec![entry("type", text("pong"))]),
            TxMessage::KeepSeat => Json::Object(vec![entry("type", text("keepSeat"))]),
        }
    }

    /// Reads a control-channel message of the sending side back from its wire form.
    pub fn from_json(j: &Json) -> (r: Result<TxMessage, DecodeError>)
        ensures
            r == Self::decoded(*j),
    {
        match j {
            Json::Object(f) => match find_field(f, "type") {
                Some(Json::Str(t)) => if str_is(t, "pong") {
                    Ok(TxMessage::Pong)
                } else if str_is(t, "keepSeat") {
                    Ok(TxMessage::KeepSeat)
                } else if str_is(t, "startWatching") {
                    match find_field(f, "data") {
                        Some(Json::Object(g)) => match find_field(g, "reconnect") {
                            Some(Json::Bool(b)) => Ok(
                                TxMessage::StartWatching { data: StartWatchingData { reconnect: *b } },
                            ),
                            _ => Err(DecodeError::BadField),
                        },
                        _ => Err(DecodeError::BadField),
                    }
                } else {
                    Err(DecodeError::UnknownTag)
                },
                _ => Err(DecodeError::MissingTag),
            },
            _ => Err(DecodeError::MissingTag),
        }
    }
}

/// Where the chat channel of the broadcast is served.
pub struct MessageServer {
    pub uri: url::Url,
}

/// Payload of the endpoint-discovery message.
pub struct RoomData {
    pub message_server: MessageServer,
    pub thread_id: String,
}

/// Why the server ended the control session.
#[derive(PartialEq, Eq, Structural, Debug, Clone, Copy)]
pub enum DisconnectReason {
    Takeover,
    NoPermission,
    EndProgram,
    PingTimeout,
    TooManyConnections,
    TooManyWatchings,
    Crowded,
    MaintenanceIn,
    ServiceTemporarilyUnavailable,
}

/// Payload of the disconnect notification.
#[derive(PartialEq, Eq, Structural, Debug, Clone, Copy)]
pub struct DisconnectData {
    pub reason: DisconnectReason,
}

/// A message this client receives on the control channel.
pub enum RxMessage {
    Room { data: RoomData },
    Ping,
    Disconnect { data: DisconnectData },
    Reconnect,
    Seat,
    Akashic,
    Stream,
    ServerTime,
    Statistics,
    Schedule,
    PostCommentResult,
    TagUpdated,
    Taxonomy,
    StreamQualities,
    /// A message type this client does not know.
    Unknown,
}

impl DisconnectReason {
    /// The wire name of the reason.
    pub open spec fn spec_name(self) -> Seq<char> {
        match self {
            DisconnectReason::Takeover => "TAKEOVER"@,
            DisconnectReason::NoPermission => "NO_PERMISSION"@,
            DisconnectReason::EndProgram => "END_PROGRAM"@,
            DisconnectReason::PingTimeout => "PING_TIMEOUT"@,
            DisconnectReason::TooManyConnections => "TOO_MANY_CONNECTIONS"@,
            DisconnectReason::TooManyWatchings => "TOO_MANY_WATCHINGS"@,
            DisconnectReason::Crowded => "CROWDED"@,
            DisconnectReason::MaintenanceIn => "MAINTENANCE_IN"@,
            DisconnectReason::ServiceTemporarilyUnavailable => "SERVICE_TEMPORARILY_UNAVAILABLE"@,
        }
    }

    /// The reason whose wire name is `s`.
    pub open spec fn named(s: Seq<char>) -> Option<DisconnectReason> {
        if s == "TAKEOVER"@ {
            Some(DisconnectReason::Takeover)
        } else if s == "NO_PERMISSION"@ {
            Some(DisconnectReason::NoPermission)
        } else if s == "END_PROGRAM"@ {
            Some(DisconnectReason::EndProgram)
        } else if s == "PING_TIMEOUT"@ {
            Some(DisconnectReason::PingTimeout)
        } else if s == "TOO_MANY_CONNECTIONS"@ {
            Some(DisconnectReason::TooManyConnections)
        } else if s == "TOO_MANY_WATCHINGS"@ {
            Some(DisconnectReason::TooManyWatchings)
        } else if s == "CROWDED"@ {
            Some(DisconnectReason::Crowded)
        } else if s == "MAINTENANCE_IN"@ {
            Some(DisconnectReason::MaintenanceIn)
        } else if s == "SERVICE_TEMPORARILY_UNAVAILABLE"@ {
            Some(DisconnectReason::ServiceTemporarilyUnavailable)
        } else {
            None
        }
    }

    /// The wire name of the reason.
    pub fn name(&self) -> (r: &'static str)
        ensures
            r@ == self.spec_name(),
    {
        match self {
            DisconnectReason::Takeover => "TAKEOVER",
            DisconnectReason::NoPermission => "NO_PERMISSION",
            DisconnectReason::EndProgram => "END_PROGRAM",
            DisconnectReason::PingTimeout => "PING_TIMEOUT",
            DisconnectReason::TooManyConnections => "TOO_MANY_CONNECTIONS",
            DisconnectReason::TooManyWatchings => "TOO_MANY_WATCHINGS",
            DisconnectReason::Crowded => "CROWDED",
            DisconnectReason::MaintenanceIn => "MAINTENANCE_IN",
            DisconnectReason::ServiceTemporarilyUnavailable => "SERVICE_TEMPORARILY_UNAVAILABLE",
        }
    }

    /// The reason whose wire name is `s`.
    pub fn from_name(s: &String) -> (r: Option<DisconnectReason>)
        ensures
            r == Self::named(s@),
    {
        if str_is(s, "TAKEOVER") {
            Some(DisconnectReason::Takeover)
        } else if str_is(s, "NO_PERMISSION") {
            Some(DisconnectReason::NoPermission)
        } else if str_is(s, "END_PROGRAM") {
            Some(DisconnectReason::EndProgram)
        } else if str_is(s, "PING_TIMEOUT") {
            Some(DisconnectReason::PingTimeout)
        } else if str_is(s, "TOO_MANY_CONNECTIONS") {
            Some(DisconnectReason::TooManyConnections)
        } else if str_is(s, "TOO_MANY_WATCHINGS") {
            Some(DisconnectReason::TooManyWatchings)
        } else if str_is(s, "CROWDED") {
            Some(DisconnectReason::Crowded)
        } else if str_is(s, "MAINTENANCE_IN") {
            Some(DisconnectReason::MaintenanceIn)
        } else if str_is(s, "SERVICE_TEMPORARILY_UNAVAILABLE") {
            Some(DisconnectReason::ServiceTemporarilyUnavailable)
        } else {
            None
        }
    }
}

/// The discriminant of a control-channel document.
pub open spec fn type_tag(j: Json) -> Option<String> {
    as_string(get(j, "type"@))
}

/// The text of the chat endpoint in an endpoint-discovery document.
pub open spec fn room_uri(j: Json) -> Option<String> {
    as_string(get_in(get_in(get(j, "data"@), "messageServer"@), "uri"@))
}

/// The thread id in an endpoint-discovery document.
pub open spec fn room_thread(j: Json) -> Option<String> {
    as_string(get_in(get(j, "data"@), "threadId"@))
}

/// The reason in a disconnect document.
pub open spec fn disconnect_reason(j: Json) -> Option<DisconnectReason> {
    match as_string(get_in(get(j, "data"@), "reason"@)) {
        Some(s) => DisconnectReason::named(s@),
        None => None,
    }
}

/// The payload-free message named by `t`; `Unknown` for a name this client does not know.
pub open spec fn plain_rx(t: Seq<char>) -> RxMessage {
    if t == "ping"@ {
        RxMessage::Ping
    } else if t == "reconnect"@ {
        RxMessage::Reconnect
    } else if t == "seat"@ {
        RxMessage::Seat
    } else if t == "akashic"@ {
        RxMessage::Akashic
    } else if t == "stream"@ {
        RxMessage::Stream
    } else if t == "serverTime"@ {
        RxMessage::ServerTime
    } else if t == "statistics"@ {
        RxMessage::Statistics
    } else if t == "schedule"@ {
        RxMessage::Schedule
    } else if t == "postCommentResult"@ {
        RxMessage::PostCommentResult
    } else if t == "tagUpdated"@ {
        RxMessage::TagUpdated
    } else if t == "taxonomy"@ {
        RxMessage::Taxonomy
    } else if t == "streamQualities"@ {
        RxMessage::StreamQualities
    } else {
        RxMessage::Unknown
    }
}

fn plain_rx_of(t: &String) -> (r: RxMessage)
    ensures
        r == plain_rx(t@),
{
    if str_is(t, "ping") {
        RxMessage::Ping
    } else if str_is(t, "reconnect") {
        RxMessage::Reconnect
    } else if str_is(t, "seat") {
        RxMessage::Seat
    } else if str_is(t, "akashic") {
        RxMessage::Akashic
    } else if str_is(t, "stream") {
        RxMessage::Stream
    } else if str_is(t, "serverTime") {
        RxMessage::ServerTime
    } else if str_is(t, "statistics") {
        RxMessage::Statistics
    } else if str_is(t, "schedule") {
        RxMessage::Schedule
    } else if str_is(t, "postCommentResult") {
        RxMessage::PostCommentResult
    } else if str_is(t, "tagUpdated") {
        RxMessage::TagUpdated
    } else if str_is(t, "taxonomy") {
        RxMessage::Taxonomy
    } else if str_is(t, "streamQualities") {
        RxMessage::StreamQualities
    } else {
        RxMessage::Unknown
    }
}

impl RxMessage {
    /// Reads a received control-channel message. A document without a string `type` is
    /// refused; a `type` this client does not know gives `Unknown`.
    pub fn from_json(j: &Json) -> (r: Result<RxMessage, DecodeError>)
        ensures
            match type_tag(*j) {
                None => r == Err::<RxMessage, DecodeError>(DecodeError::MissingTag),
                Some(t) => if t@ == "room"@ {
                    match (room_uri(*j), room_thread(*j)) {
                        (Some(u), Some(id)) => if url_accepts(u@) {
                            r matches Ok(RxMessage::Room { data }) && data.thread_id == id
                        } else {
                            r == Err::<RxMessage, DecodeError>(DecodeError::BadField)
                        },
                        _ => r == Err::<RxMessage, DecodeError>(DecodeError::BadField),
                    }
                } else if t@ == "disconnect"@ {
                    match disconnect_reason(*j) {
                        Some(reason) => r == Ok::<RxMessage, DecodeError>(
                            RxMessage::Disconnect { data: DisconnectData { reason } },
                        ),
                        None => r == Err::<RxMessage, DecodeError>(DecodeError::BadField),
                    }
                } else {
                    r == Ok::<RxMessage, DecodeError>(plain_rx(t@))
                },
            },
    {
        let t = match string_field(j, "type") {
            Some(t) => t,
            None => return Err(DecodeError::MissingTag),
        };
        let data = get_field(j, "data");
        if str_is(&t, "room") {
            let (server, id) = match data {
                Some(d) => (get_field(d, "messageServer"), string_field(d, "threadId")),
                None => (None, None),
            };
            let uri = match server {
                Some(s) => string_field(s, "uri"),
                None => None,
            };
            match (uri, id) {
                (Some(u), Some(thread_id)) => match parse_url(u.as_str()) {
                    Ok(uri) => Ok(RxMessage::Room { data: RoomData { message_server: MessageServer { uri }, thread_id } }),
                    Err(_) => Err(DecodeError::BadField),
                },
                _ => Err(DecodeError::BadField),
            }
        } else if str_is(&t, "disconnect") {
            let reason = match data {
                Some(d) => match string_field(d, "reason") {
                    Some(s) => DisconnectReason::from_name(&s),
                    None => None,
                },
                None => None,
            };
            match reason {
                Some(reason) => Ok(RxMessage::Disconnect { data: DisconnectData { reason } }),
                None => Err(DecodeError::BadField),
            }
        } else {
            Ok(plain_rx_of(&t))
        }
    }
}

/// Decoding the wire form of a sent control-channel message gives that message back.
pub proof fn lemma_tx_round_trip(m: TxMessage, j: Json)
    requires
        m.encodes(j),
    ensures
        TxMessage::decoded(j) == Ok::<TxMessage, DecodeError>(m),
{
    reveal_strlit("type");
    reveal_strlit("data");
    reveal_strlit("reconnect");
    reveal_strlit("pong");
    reveal_strlit("keepSeat");
    reveal_strlit("startWatching");
    assert("type"@[0] != "data"@[0]);
    assert("startWatching"@[0] != "pong"@[0]);
    assert("startWatching"@[0] != "keepSeat"@[0]);
    assert("keepSeat"@[0] != "pong"@[0]);
    if let Json::Object(f) = j {
        assert(lookup(f@, "type"@) == Some(f@[0].1));
        if let TxMessage::StartWatching { data } = m {
            assert(f@.drop_first()[0] == f@[1]);
            assert(lookup(f@.drop_first(), "data"@) == Some(f@[1].1));
            assert(lookup(f@, "data"@) == Some(f@[1].1));
            if let Json::Object(g) = f@[1].1 {
                assert(lookup(g@, "reconnect"@) == Some(g@[0].1));
            }
        }
    }
}

} // verus!
