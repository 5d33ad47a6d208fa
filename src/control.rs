use vstd::prelude::*;

use crate::relive::{DisconnectReason, RxMessage, StartWatchingData, TxMessage};

verus! {

/// The chat endpoint discovered on the control channel, handed to the chat session once.
pub struct EndpointInfo {
    pub uri: url::Url,
    pub thread_id: String,
}

/// What the control loop must do after reading one message.
pub enum ControlAction {
    /// Write these messages on the control channel, in this order.
    Send(Vec<TxMessage>),
    /// Place the endpoint on the handoff channel.
    Handoff(EndpointInfo),
    /// The server ended the session: report the reason and end the program.
    Exit(DisconnectReason),
    /// Nothing to do.
    Ignore,
}

/// State of the control session once the handshake has been sent.
pub struct ControlSession {
    /// An endpoint has already been handed off.
    pub handed_off: bool,
    /// A disconnect was received; no further message is read.
    pub terminated: bool,
}

impl ControlSession {
    /// The state after reading `m`.
    pub open spec fn next(self, m: RxMessage) -> ControlSession {
        match m {
            RxMessage::Room { .. } => ControlSession { handed_off: true, ..self },
            RxMessage::Disconnect { .. } => ControlSession { terminated: true, ..self },
            _ => self,
        }
    }

    /// `a` is the action owed for `m` in this state.
    pub open spec fn answers(self, m: RxMessage, a: ControlAction) -> bool {
        match m {
            RxMessage::Ping => a matches ControlAction::Send(v) && v@ == seq![
                TxMessage::Pong,
                TxMessage::KeepSeat,
            ],
            RxMessage::Room { data } => if self.handed_off {
                a is Ignore
            } else {
                a == ControlAction::Handoff(
                    EndpointInfo { uri: data.message_server.uri, thread_id: data.thread_id },
                )
            },
            RxMessage::Disconnect { data } => a == ControlAction::Exit(data.reason),
            _ => a is Ignore,
        }
    }

    /// A session that has handed nothing off and is still running.
    pub fn new() -> (r: ControlSession)
        ensures
            !r.handed_off,
            !r.terminated,
    {
        ControlSession { handed_off: false, terminated: false }
    }

    /// The first message written on a fresh connection.
    pub fn handshake(&self) -> (r: TxMessage)
        ensures
            r == (TxMessage::StartWatching { data: StartWatchingData { reconnect: false } }),
    {
        TxMessage::StartWatching { data: StartWatchingData { reconnect: false } }
    }

    /// Handles one received message.
    pub fn on_message(&mut self, m: RxMessage) -> (a: ControlAction)
        requires
            !old(self).terminated,
        ensures
            *final(self) == old(self).next(m),
            old(self).answers(m, a),
    {
        match m {
            RxMessage::Ping => ControlAction::Send(vec![TxMessage::Pong, TxMessage::KeepSeat]),
            RxMessage::Room { data } => {
                if self.handed_off {
                    ControlAction::Ignore
                } else {
                    self.handed_off = true;
                    ControlAction::Handoff(
                        EndpointInfo { uri: data.message_server.uri, thread_id: data.thread_id },
                    )
                }
            },
            RxMessage::Disconnect { data } => {
                self.terminated = true;
                ControlAction::Exit(data.reason)
            },
            _ => ControlAction::Ignore,
        }
    }
}

/// `acts` are the actions of a session in state `s` that reads `msgs` one at a time.
pub open spec fn valid_run(s: ControlSession, msgs: Seq<RxMessage>, acts: Seq<ControlAction>) -> bool
    decreases msgs.len(),
{
    &&& msgs.len() == acts.len()
    &&& msgs.len() > 0 ==> {
        &&& !s.terminated
        &&& s.answers(msgs[0], acts[0])
        &&& valid_run(s.next(msgs[0]), msgs.drop_first(), acts.drop_first())
    }
}

/// How many actions hand an endpoint off.
pub open spec fn handoffs(acts: Seq<ControlAction>) -> nat
    decreases acts.len(),
{
    if acts.len() == 0 {
        0
    } else {
        (if acts[0] is Handoff { 1nat } else { 0nat }) + handoffs(acts.drop_first())
    }
}

/// Every message written by the actions, in order.
pub open spec fn writes(acts: Seq<ControlAction>) -> Seq<TxMessage>
    decreases acts.len(),
{
    if acts.len() == 0 {
        seq![]
    } else {
        let here = match acts[0] {
            ControlAction::Send(v) => v@,
            _ => seq![],
        };
        here + writes(acts.drop_first())
    }
}

/// How many keepalive pings the messages hold.
pub open spec fn pings(msgs: Seq<RxMessage>) -> nat
    decreases msgs.len(),
{
    if msgs.len() == 0 {
        0
    } else {
        (if msgs[0] is Ping { 1nat } else { 0nat }) + pings(msgs.drop_first())
    }
}

/// The replies owed to the messages: `Pong` then `KeepSeat` for each ping.
pub open spec fn replies(msgs: Seq<RxMessage>) -> Seq<TxMessage>
    decreases msgs.len(),
{
    if msgs.len() == 0 {
        seq![]
    } else {
        let here = if msgs[0] is Ping {
            seq![TxMessage::Pong, TxMessage::KeepSeat]
        } else {
            seq![]
        };
        here + replies(msgs.drop_first())
    }
}

proof fn lemma_handoffs_bounded(s: ControlSession, msgs: Seq<RxMessage>, acts: Seq<ControlAction>)
    requires
        valid_run(s, msgs, acts),
    ensures
        handoffs(acts) + (if s.handed_off { 1nat } else { 0nat }) <= 1,
    decreases msgs.len(),
{
    if msgs.len() > 0 {
        lemma_handoffs_bounded(s.next(msgs[0]), msgs.drop_first(), acts.drop_first());
    }
}

/// However many endpoint-discovery messages arrive, a session started by `new` hands off
/// at most one endpoint.
pub proof fn lemma_single_handoff(msgs: Seq<RxMessage>, acts: Seq<ControlAction>)
    requires
        valid_run(ControlSession { handed_off: false, terminated: false }, msgs, acts),
    ensures
        handoffs(acts) <= 1,
{
    lemma_handoffs_bounded(ControlSession { handed_off: false, terminated: false }, msgs, acts);
}

/// The messages written are exactly a `Pong` then a `KeepSeat` for each ping, in the
/// order the pings arrived.
pub proof fn lemma_writes_are_replies(
    s: ControlSession,
    msgs: Seq<RxMessage>,
    acts: Seq<ControlAction>,
)
    requires
        valid_run(s, msgs, acts),
    ensures
        writes(acts) == replies(msgs),
    decreases msgs.len(),
{
    if msgs.len() > 0 {
        lemma_writes_are_replies(s.next(msgs[0]), msgs.drop_first(), acts.drop_first());
        if !(msgs[0] is Ping) {
            assert(seq![] + replies(msgs.drop_first()) =~= replies(msgs.drop_first()));
            assert(seq![] + writes(acts.drop_first()) =~= writes(acts.drop_first()));
        }
    }
}

proof fn lemma_no_pings_no_replies(msgs: Seq<RxMessage>)
    requires
        pings(msgs) == 0,
    ensures
        replies(msgs) == Seq::<TxMessage>::empty(),
    decreases msgs.len(),
{
    if msgs.len() > 0 {
        lemma_no_pings_no_replies(msgs.drop_first());
        assert(replies(msgs) =~= Seq::<TxMessage>::empty());
    }
}

proof fn lemma_one_ping_replies(msgs: Seq<RxMessage>)
    requires
        pings(msgs) == 1,
    ensures
        replies(msgs) == seq![TxMessage::Pong, TxMessage::KeepSeat],
    decreases msgs.len(),
{
    if msgs[0] is Ping {
        lemma_no_pings_no_replies(msgs.drop_first());
        assert(replies(msgs) =~= seq![TxMessage::Pong, TxMessage::KeepSeat]);
    } else {
        lemma_one_ping_replies(msgs.drop_first());
        assert(replies(msgs) =~= seq![TxMessage::Pong, TxMessage::KeepSeat]);
    }
}

/// A run over messages that hold exactly one ping writes exactly one `Pong` and then one
/// `KeepSeat`, and nothing else.
pub proof fn lemma_one_ping_one_reply(
    s: ControlSession,
    msgs: Seq<RxMessage>,
    acts: Seq<ControlAction>,
)
    requires
        valid_run(s, msgs, acts),
        pings(msgs) == 1,
    ensures
        writes(acts) == seq![TxMessage::Pong, TxMessage::KeepSeat],
{
    lemma_writes_are_replies(s, msgs, acts);
    lemma_one_ping_replies(msgs);
}

} // verus!
