use vstd::prelude::*;

use crate::control::EndpointInfo;
use crate::json::Json;
use crate::message_server::{PingData, RxMessage, TxMessage};

verus! {

/// The largest backlog a subscription may ask for.
pub const MAX_BACKLOG: i32 = 200;

/// Whether `n` is a backlog size that a subscription may ask for.
pub open spec fn valid_backlog(n: int) -> bool {
    0 <= n <= MAX_BACKLOG
}

/// Checks a requested backlog size.
pub fn is_valid_backlog(n: i32) -> (r: bool)
    ensures
        r == valid_backlog(n as int),
{
    0 <= n && n <= MAX_BACKLOG
}

/// Where the chat session stands after the subscription has been sent.
#[derive(PartialEq, Eq, Structural, Debug, Clone, Copy)]
pub enum ChatPhase {
    /// Before the sentinel: the backlog is being replayed.
    Replaying,
    /// After the sentinel, in follow mode: live entries keep coming.
    Following,
    /// After the sentinel, without follow mode: the program ends.
    Done,
}

/// What the chat loop must do after reading one message.
pub enum ChatAction {
    /// Hand this chat entry to the output.
    Emit(RxMessage),
    /// The backlog is complete and nothing is followed: end the program successfully.
    Finish,
    /// Nothing to do.
    Ignore,
}

/// State of the chat session.
pub struct ChatSession {
    pub follow: bool,
    pub phase: ChatPhase,
}

/// `r` is the subscription request for thread `thread` with a backlog of `n` entries:
/// the thread record, then the sentinel ping.
pub open spec fn is_subscription(r: Seq<TxMessage>, thread: Seq<char>, n: int) -> bool {
    &&& r.len() == 2
    &&& match r[0] {
        TxMessage::Thread { thread: t, version, user_id, res_from, with_global, scores, nicoru } => {
            &&& t@ == thread
            &&& version@ == "20061206"@
            &&& user_id@ == "guest"@
            &&& res_from == -n
            &&& with_global == 1
            &&& scores == 1
            &&& nicoru == 0
        },
        _ => false,
    }
    &&& r[1] == TxMessage::Ping(PingData::Rf0)
}

impl ChatSession {
    /// The state after reading `m`.
    pub open spec fn next(self, m: RxMessage) -> ChatSession {
        match m {
            RxMessage::Ping(_) => if self.phase == ChatPhase::Replaying {
                ChatSession {
                    phase: if self.follow {
                        ChatPhase::Following
                    } else {
                        ChatPhase::Done
                    },
                    ..self
                }
            } else {
                self
            },
            _ => self,
        }
    }

    /// `a` is the action owed for `m` in this state.
    pub open spec fn answers(self, m: RxMessage, a: ChatAction) -> bool {
        match m {
            RxMessage::Chat { .. } => a == ChatAction::Emit(m),
            RxMessage::Ping(_) => if self.phase == ChatPhase::Replaying && !self.follow {
                a is Finish
            } else {
                a is Ignore
            },
            _ => a is Ignore,
        }
    }

    /// A session that replays the backlog, then follows live entries if `follow` is set.
    pub fn new(follow: bool) -> (r: ChatSession)
        ensures
            r.follow == follow,
            r.phase == ChatPhase::Replaying,
    {
        ChatSession { follow, phase: ChatPhase::Replaying }
    }

    /// The two messages written once on a fresh chat connection: the subscription to the
    /// endpoint's thread asking for `backlog_size` past entries, then the sentinel.
    pub fn subscription(info: &EndpointInfo, backlog_size: i32) -> (r: Vec<TxMessage>)
        requires
            valid_backlog(backlog_size as int),
        ensures
            is_subscription(r@, info.thread_id@, backlog_size as int),
    {
        let thread = TxMessage::Thread {
            thread: info.thread_id.clone(),
            version: "20061206".to_owned(),
            user_id: "guest".to_owned(),
            res_from: -backlog_size,
            with_global: 1,
            scores: 1,
            nicoru: 0,
        };
        vec![thread, TxMessage::Ping(PingData::Rf0)]
    }

    /// Handles one received message.
    pub fn on_message(&mut self, m: RxMessage) -> (a: ChatAction)
        requires
            old(self).phase != ChatPhase::Done,
        ensures
            *final(self) == old(self).next(m),
            old(self).answers(m, a),
    {
        match m {
            RxMessage::Chat { .. } => ChatAction::Emit(m),
            RxMessage::Ping(_) => {
                if self.phase == ChatPhase::Replaying {
                    if self.follow {
                        self.phase = ChatPhase::Following;
                        ChatAction::Ignore
                    } else {
                        self.phase = ChatPhase::Done;
                        ChatAction::Finish
                    }
                } else {
                    ChatAction::Ignore
                }
            },
            _ => ChatAction::Ignore,
        }
    }
}

/// `acts` are the actions of a session in state `s` that reads `msgs` one at a time.
pub open spec fn valid_run(s: ChatSession, msgs: Seq<RxMessage>, acts: Seq<ChatAction>) -> bool
    decreases msgs.len(),
{
    &&& msgs.len() == acts.len()
    &&& msgs.len() > 0 ==> {
        &&& s.phase != ChatPhase::Done
        &&& s.answers(msgs[0], acts[0])
        &&& valid_run(s.next(msgs[0]), msgs.drop_first(), acts.drop_first())
    }
}

/// The entries handed to the output, in order.
pub open spec fn emitted(acts: Seq<ChatAction>) -> Seq<RxMessage>
    decreases acts.len(),
{
    if acts.len() == 0 {
        seq![]
    } else {
        let here = match acts[0] {
            ChatAction::Emit(m) => seq![m],
            _ => seq![],
        };
        here + emitted(acts.drop_first())
    }
}

/// The chat entries among the messages, in order.
pub open spec fn chats(msgs: Seq<RxMessage>) -> Seq<RxMessage>
    decreases msgs.len(),
{
    if msgs.len() == 0 {
        seq![]
    } else {
        let here = if msgs[0] is Chat {
            seq![msgs[0]]
        } else {
            seq![]
        };
        here + chats(msgs.drop_first())
    }
}

/// Every chat entry read is handed to the output, in the order it arrived, and nothing
/// else is: in backlog replay and in follow mode alike.
pub proof fn lemma_emits_every_chat(s: ChatSession, msgs: Seq<RxMessage>, acts: Seq<ChatAction>)
    requires
        valid_run(s, msgs, acts),
    ensures
        emitted(acts) == chats(msgs),
    decreases msgs.len(),
{
    if msgs.len() > 0 {
        lemma_emits_every_chat(s.next(msgs[0]), msgs.drop_first(), acts.drop_first());
        if !(msgs[0] is Chat) {
            assert(seq![] + chats(msgs.drop_first()) =~= chats(msgs.drop_first()));
            assert(seq![] + emitted(acts.drop_first()) =~= emitted(acts.drop_first()));
        }
    }
}

/// Without follow mode, the first sentinel of the replay finishes the session: the action
/// owed for it is `Finish`, and no message is read after it.
pub proof fn lemma_sentinel_finishes(s: ChatSession, msgs: Seq<RxMessage>, acts: Seq<ChatAction>, k: int)
    requires
        valid_run(s, msgs, acts),
        !s.follow,
        s.phase == ChatPhase::Replaying,
        0 <= k < msgs.len(),
        msgs[k] is Ping,
        forall|i: int| 0 <= i < k ==> !(#[trigger] msgs[i] is Ping),
    ensures
        acts[k] is Finish,
        msgs.len() == k + 1,
    decreases k,
{
    if k > 0 {
        assert(!(msgs[0] is Ping));
        let rest = msgs.drop_first();
        assert forall|i: int| 0 <= i < k - 1 implies !(#[trigger] rest[i] is Ping) by {
            assert(rest[i] == msgs[i + 1]);
        }
        lemma_sentinel_finishes(s.next(msgs[0]), rest, acts.drop_first(), k - 1);
        assert(acts.drop_first()[k - 1] == acts[k]);
    } else {
        let after = s.next(msgs[0]);
        assert(after.phase == ChatPhase::Done);
        assert(valid_run(after, msgs.drop_first(), acts.drop_first()));
    }
}

/// In follow mode the session never finishes: whatever it reads, it is never owed a
/// `Finish`, and after the sentinel it stays in `Following`.
pub proof fn lemma_follow_never_finishes(s: ChatSession, msgs: Seq<RxMessage>, acts: Seq<ChatAction>)
    requires
        valid_run(s, msgs, acts),
        s.follow,
        s.phase != ChatPhase::Done,
    ensures
        forall|i: int| 0 <= i < acts.len() ==> !(#[trigger] acts[i] is Finish),
    decreases msgs.len(),
{
    if msgs.len() > 0 {
        let rest = acts.drop_first();
        lemma_follow_never_finishes(s.next(msgs[0]), msgs.drop_first(), rest);
        assert forall|i: int| 0 <= i < acts.len() implies !(#[trigger] acts[i] is Finish) by {
            if i > 0 {
                assert(acts[i] == rest[i - 1]);
            }
        }
    }
}

/// The wire form of a batch of messages written together: an array of their wire forms.
pub fn batch_to_json(msgs: &Vec<TxMessage>) -> (r: Json)
    ensures
        r matches Json::Array(items) && items@.len() == msgs@.len() && forall|i: int|
            0 <= i < msgs@.len() ==> #[trigger] msgs@[i].encodes(items@[i]),
{
    let mut items: Vec<Json> = Vec::new();
    let mut i: usize = 0;
    while i < msgs.len()
        invariant
            i <= msgs@.len(),
            items@.len() == i,
            forall|k: int| 0 <= k < i ==> #[trigger] msgs@[k].encodes(items@[k]),
        decreases msgs.len() - i,
    {
        items.push(msgs[i].to_json());
        i = i + 1;
    }
    Json::Array(items)
}

} // verus!
