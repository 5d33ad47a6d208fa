use vstd::prelude::*;

use crate::json::{
    as_i32, as_i64, as_opt_i32, as_opt_string, as_string, entry, get, i32_field, i64_field, lookup,
    opt_i32_field, opt_string_field, str_is, string_field, text, DecodeError, Json,
};

verus! {

/// The marker of the sentinel that closes the backlog.
#[derive(PartialEq, Eq, Structural, Debug, Clone, Copy)]
pub enum PingData {
    Rf0,
}

/// A message this client sends on the chat channel.
pub enum TxMessage {
    Ping(PingData),
    Thread {
        thread: String,
        version: String,
        user_id: String,
        res_from: i32,
        with_global: i32,
        scores: i32,
        nicoru: i32,
    },
}

/// `j` is `{"content": "rf:0"}`.
pub open spec fn is_rf0(j: Json) -> bool {
    match j {
        Json::Object(f) => f@.len() == 1 && f@[0].0@ == "content"@ && (f@[0].1 matches Json::Str(
            c,
        ) && c@ == "rf:0"@),
        _ => false,
    }
}

/// The sentinel marker that `j` carries, if it is the known one.
pub open spec fn ping_data(j: Json) -> Result<PingData, DecodeError> {
    match as_string(get(j, "content"@)) {
        Some(c) => if c@ == "rf:0"@ {
            Ok(PingData::Rf0)
        } else {
            Err(DecodeError::BadField)
        },
        None => Err(DecodeError::BadField),
    }
}

/// `j` is a one-entry object whose key is `tag`; `body` is the value under it.
pub open spec fn tagged(j: Json, tag: Seq<char>, body: Json) -> bool {
    match j {
        Json::Object(f) => f@.len() == 1 && f@[0].0@ == tag && f@[0].1 == body,
        _ => false,
    }
}

/// The key and value of a one-entry object.
pub open spec fn single_entry(j: Json) -> Option<(String, Json)> {
    match j {
        Json::Object(f) => if f@.len() == 1 {
            Some(f@[0])
        } else {
            None
        },
        _ => None,
    }
}

impl TxMessage {
    /// `j` is the wire form of this message.
    pub open spec fn encodes(self, j: Json) -> bool {
        match self {
            TxMessage::Ping(_) => match single_entry(j) {
                Some(e) => e.0@ == "ping"@ && is_rf0(e.1),
                None => false,
            },
            TxMessage::Thread { thread, version, user_id, res_from, with_global, scores, nicoru } => {
                match single_entry(j) {
                    Some(e) => e.0@ == "thread"@ && match e.1 {
                        Json::Object(g) => {
                            &&& g@.len() == 7
                            &&& g@[0].0@ == "thread"@ && g@[0].1 == Json::Str(thread)
                            &&& g@[1].0@ == "version"@ && g@[1].1 == Json::Str(version)
                            &&& g@[2].0@ == "userId"@ && g@[2].1 == Json::Str(user_id)
                            &&& g@[3].0@ == "resFrom"@ && g@[3].1 == Json::Int(res_from as i64)
                            &&& g@[4].0@ == "withGlobal"@ && g@[4].1 == Json::Int(with_global as i64)
                            &&& g@[5].0@ == "scores"@ && g@[5].1 == Json::Int(scores as i64)
                            &&& g@[6].0@ == "nicoru"@ && g@[6].1 == Json::Int(nicoru as i64)
                        },
                        _ => false,
                    },
                    None => false,
                }
            },
        }
    }

    /// The message that `j` is the wire form of, if any.
    pub open spec fn decoded(j: Json) -> Result<TxMessage, DecodeError> {
        match single_entry(j) {
            Some(e) => if e.0@ == "ping"@ {
                match ping_data(e.1) {
                    Ok(p) => Ok(TxMessage::Ping(p)),
                    Err(err) => Err(err),
                }
            } else if e.0@ == "thread"@ {
                let v = e.1;
                match (
                    as_string(get(v, "thread"@)),
                    as_string(get(v, "version"@)),
                    as_string(get(v, "userId"@)),
                    as_i32(get(v, "resFrom"@)),
                    as_i32(get(v, "withGlobal"@)),
                    as_i32(get(v, "scores"@)),
                    as_i32(get(v, "nicoru"@)),
                ) {
                    (
                        Some(thread),
                        Some(version),
                        Some(user_id),
                        Some(res_from),
                        Some(with_global),
                        Some(scores),
                        Some(nicoru),
                    ) => Ok(
                        TxMessage::Thread {
                            thread,
                            version,
                            user_id,
                            res_from,
                            with_global,
                            scores,
                            nicoru,
                        },
                    ),
                    _ => Err(DecodeError::BadField),
                }
            } else {
                Err(DecodeError::UnknownTag)
            },
            None => Err(DecodeError::MissingTag),
        }
    }

    /// The wire form of the message.
    pub fn to_json(&self) -> (r: Json)
        ensures
            self.encodes(r),
    {
        match self {
            TxMessage::Ping(_) => {
                let body = Json::Object(vec![entry("content", text("rf:0"))]);
                Json::Object(vec![entry("ping", body)])
            },
            TxMessage::Thread { thread, version, user_id, res_from, with_global, scores, nicoru } => {
                let body = Json::Object(
                    vec![
                        entry("thread", Json::Str(thread.clone())),
                        entry("version", Json::Str(version.clone())),
                        entry("userId", Json::Str(user_id.clone())),
                        entry("resFrom", Json::Int(*res_from as i64)),
                        entry("withGlobal", Json::Int(*with_global as i64)),
                        entry("scores", Json::Int(*scores as i64)),
                        entry("nicoru", Json::Int(*nicoru as i64)),
                    ],
                );
                Json::Object(vec![entry("thread", body)])
            },
        }
    }

    /// Reads a chat-channel message of the sending side back from its wire form.
    pub fn from_json(j: &Json) -> (r: Result<TxMessage, DecodeError>)
        ensures
            r == Self::decoded(*j),
    {
        match j {
            Json::Object(f) => {
                if f.len() != 1 {
                    return Err(DecodeError::MissingTag);
                }
                let key = &f[0].0;
                let v = &f[0].1;
                if str_is(key, "ping") {
                    match ping_from_json(v) {
                        Ok(p) => Ok(TxMessage::Ping(p)),
                        Err(err) => Err(err),
                    }
                } else if str_is(key, "thread") {
                    match (
                        string_field(v, "thread"),
                        string_field(v, "version"),
                        string_field(v, "userId"),
                        i32_field(v, "resFrom"),
                        i32_field(v, "withGlobal"),
                        i32_field(v, "scores"),
                        i32_field(v, "nicoru"),
                    ) {
                        (
                            Some(thread),
                            Some(version),
                            Some(user_id),
                            Some(res_from),
                            Some(with_global),
                            Some(scores),
                            Some(nicoru),
                        ) => Ok(
                            TxMessage::Thread {
                                thread,
                                version,
                                user_id,
                                res_from,
                                with_global,
                                scores,
                                nicoru,
                            },
                        ),
                        _ => Err(DecodeError::BadField),
                    }
                } else {
                    Err(DecodeError::UnknownTag)
                }
            },
            _ => Err(DecodeError::MissingTag),
        }
    }
}

/// Reads the sentinel marker.
pub fn ping_from_json(j: &Json) -> (r: Result<PingData, DecodeError>)
    ensures
        r == ping_data(*j),
{
    match string_field(j, "content") {
        Some(c) => if str_is(&c, "rf:0") {
            Ok(PingData::Rf0)
        } else {
            Err(DecodeError::BadField)
        },
        None => Err(DecodeError::BadField),
    }
}

/// The earliest second that a chat entry's date may hold: January 1 of year -262143, UTC.
pub const MIN_TIMESTAMP: i64 = -8334601228800;

/// The latest second that a chat entry's date may hold: December 31 of year 262142,
/// 23:59:59 UTC.
pub const MAX_TIMESTAMP: i64 = 8210266876799;

/// Relies on chrono::DateTime::from_timestamp_secs: it gives a date exactly when the day of
/// the timestamp lies in chrono's years -262143 to 262142.
#[verifier::external_body]
fn timestamp_in_range(secs: i64) -> (r: bool)
    ensures
        r == (MIN_TIMESTAMP <= secs <= MAX_TIMESTAMP),
{
    chrono::DateTime::<chrono::Utc>::from_timestamp_secs(secs).is_some()
}

/// A date in seconds since the Unix epoch, within the range that chrono can represent.
pub open spec fn as_timestamp(o: Option<Json>) -> Option<i64> {
    match as_i64(o) {
        Some(d) => if MIN_TIMESTAMP <= d <= MAX_TIMESTAMP {
            Some(d)
        } else {
            None
        },
        None => None,
    }
}

/// The date under `key`, when it is an integer in the representable range.
fn timestamp_field(j: &Json, key: &str) -> (r: Option<i64>)
    ensures
        r == as_timestamp(get(*j, key@)),
{
    match i64_field(j, key) {
        Some(d) => if timestamp_in_range(d) {
            Some(d)
        } else {
            None
        },
        None => None,
    }
}

/// A message this client receives on the chat channel.
pub enum RxMessage {
    Ping(PingData),
    /// Acknowledgement of the subscription.
    Thread { result_code: i32 },
    /// One chat entry; `date` is in seconds since the Unix epoch, between `MIN_TIMESTAMP` and
    /// `MAX_TIMESTAMP`.
    Chat {
        no: Option<i32>,
        date: i64,
        mail: Option<String>,
        user_id: String,
        premium: Option<i32>,
        anonymity: Option<i32>,
        content: String,
    },
    /// A message type this client does not act on.
    Unknown,
}

/// The result code of a subscription acknowledgement, under either spelling of its key.
pub open spec fn result_code(v: Json) -> Option<i32> {
    match as_i32(get(v, "result_code"@)) {
        Some(n) => Some(n),
        None => as_i32(get(v, "resultcode"@)),
    }
}

impl RxMessage {
    /// The message that `j` is the wire form of.
    pub open spec fn decoded(j: Json) -> Result<RxMessage, DecodeError> {
        match single_entry(j) {
            Some(e) => {
                let v = e.1;
                if e.0@ == "ping"@ {
                    match ping_data(v) {
                        Ok(p) => Ok(RxMessage::Ping(p)),
                        Err(_) => Ok(RxMessage::Unknown),
                    }
                } else if e.0@ == "thread"@ {
                    match result_code(v) {
                        Some(n) => Ok(RxMessage::Thread { result_code: n }),
                        None => Err(DecodeError::BadField),
                    }
                } else if e.0@ == "chat"@ {
                    match (
                        as_opt_i32(get(v, "no"@)),
                        as_timestamp(get(v, "date"@)),
                        as_opt_string(get(v, "mail"@)),
                        as_string(get(v, "user_id"@)),
                        as_opt_i32(get(v, "premium"@)),
                        as_opt_i32(get(v, "anonymity"@)),
                        as_string(get(v, "content"@)),
                    ) {
                        (
                            Some(no),
                            Some(date),
                            Some(mail),
                            Some(user_id),
                            Some(premium),
                            Some(anonymity),
                            Some(content),
                        ) => Ok(
                            RxMessage::Chat { no, date, mail, user_id, premium, anonymity, content },
                        ),
                        _ => Err(DecodeError::BadField),
                    }
                } else {
                    Ok(RxMessage::Unknown)
                }
            },
            None => Err(DecodeError::MissingTag),
        }
    }

    /// Reads a received chat-channel message. A message type this client does not know, and a
    /// ping that carries another marker than the sentinel's, are `Unknown`.
    pub fn from_json(j: &Json) -> (r: Result<RxMessage, DecodeError>)
        ensures
            r == Self::decoded(*j),
    {
        match j {
            Json::Object(f) => {
                if f.len() != 1 {
                    return Err(DecodeError::MissingTag);
                }
                let key = &f[0].0;
                let v = &f[0].1;
                if str_is(key, "ping") {
                    match ping_from_json(v) {
                        Ok(p) => Ok(RxMessage::Ping(p)),
                        Err(_) => Ok(RxMessage::Unknown),
                    }
                } else if str_is(key, "thread") {
                    match i32_field(v, "result_code") {
                        Some(n) => Ok(RxMessage::Thread { result_code: n }),
                        None => match i32_field(v, "resultcode") {
                            Some(n) => Ok(RxMessage::Thread { result_code: n }),
                            None => Err(DecodeError::BadField),
                        },
                    }
                } else if str_is(key, "chat") {
                    match (
                        opt_i32_field(v, "no"),
                        timestamp_field(v, "date"),
                        opt_string_field(v, "mail"),
                        string_field(v, "user_id"),
                        opt_i32_field(v, "premium"),
                        opt_i32_field(v, "anonymity"),
                        string_field(v, "content"),
                    ) {
                        (
                            Some(no),
                            Some(date),
                            Some(mail),
                            Some(user_id),
                            Some(premium),
                            Some(anonymity),
                            Some(content),
                        ) => Ok(
                            RxMessage::Chat { no, date, mail, user_id, premium, anonymity, content },
                        ),
                        _ => Err(DecodeError::BadField),
                    }
                } else {
                    Ok(RxMessage::Unknown)
                }
            },
            _ => Err(DecodeError::MissingTag),
        }
    }
}

/// Decoding the wire form of a sent chat-channel message gives that message back.
pub proof fn lemma_tx_round_trip(m: TxMessage, j: Json)
    requires
        m.encodes(j),
    ensures
        TxMessage::decoded(j) == Ok::<TxMessage, DecodeError>(m),
{
    reveal_strlit("ping");
    reveal_strlit("thread");
    reveal_strlit("content");
    reveal_strlit("rf:0");
    reveal_strlit("version");
    reveal_strlit("userId");
    reveal_strlit("resFrom");
    reveal_strlit("withGlobal");
    reveal_strlit("scores");
    reveal_strlit("nicoru");
    reveal_with_fuel(lookup, 8);
    assert("ping"@[0] != "thread"@[0]);
    let e = single_entry(j)->Some_0;
    match m {
        TxMessage::Ping(_) => {
            assert(get(e.1, "content"@) == Some(e.1->Object_0@[0].1));
        },
        TxMessage::Thread { .. } => {
            let g = e.1->Object_0@;
            assert("thread"@[0] != "version"@[0]);
            assert("thread"@[0] != "userId"@[0] && "version"@[0] != "userId"@[0]);
            assert("thread"@[0] != "resFrom"@[0] && "version"@[0] != "resFrom"@[0]
                && "userId"@[0] != "resFrom"@[0]);
            assert("thread"@[0] != "withGlobal"@[0] && "version"@[0] != "withGlobal"@[0]
                && "userId"@[0] != "withGlobal"@[0] && "resFrom"@[0] != "withGlobal"@[0]);
            assert("thread"@[0] != "scores"@[0] && "version"@[0] != "scores"@[0]
                && "userId"@[0] != "scores"@[0] && "resFrom"@[0] != "scores"@[0]
                && "withGlobal"@[0] != "scores"@[0]);
            assert("thread"@[0] != "nicoru"@[0] && "version"@[0] != "nicoru"@[0]
                && "userId"@[0] != "nicoru"@[0] && "resFrom"@[0] != "nicoru"@[0]
                && "withGlobal"@[0] != "nicoru"@[0] && "scores"@[0] != "nicoru"@[0]);
            assert(lookup(g, "thread"@) == Some(g[0].1));
            assert(lookup(g, "version"@) == Some(g[1].1));
            assert(lookup(g, "userId"@) == Some(g[2].1));
            assert(lookup(g, "resFrom"@) == Some(g[3].1));
            assert(lookup(g, "withGlobal"@) == Some(g[4].1));
            assert(lookup(g, "scores"@) == Some(g[5].1));
            assert(lookup(g, "nicoru"@) == Some(g[6].1));
        },
    }
}

} // verus!
