//! The supervisor's two-phase state machine.
//!
//! The supervisor first runs the joining phase: it tracks the connection
//! handshake and the per-room join outcomes until presence in every still
//! required room is established. It then runs the relaying phase until a
//! fatal event, the end of the input stream, or a termination signal, and
//! finally issues a single disconnect notice.
//!
//! The blocking waits themselves (signal delivery, the rendezvous event
//! channels) are outside work; this module holds the decision logic, as a
//! step function per phase together with a specification-level fold over a
//! whole sequence of inputs.

use vstd::prelude::*;

use crate::event::Event;

verus! {

/// Join accounting, local to the supervisor's joining phase.
///
/// `required_count` starts as the size of the target room list and shrinks by
/// one for every room that turns out to be unjoinable; `joined_count` grows by
/// one for every join notification; `connected` records whether the handshake
/// has completed.
#[derive(Debug, Clone, Copy, PartialEq, Eq, Structural)]
pub struct JoinProgress {
    pub joined_count: usize,
    pub required_count: usize,
    pub connected: bool,
}

/// What a worker's channel offered the supervisor during the joining phase.
#[derive(Debug, Clone, PartialEq, Eq)]
pub enum JoiningInput {
    /// A termination signal was delivered.
    Signal,
    /// The connection reader's event channel closed.
    ReaderClosed,
    /// The connection reader reported an event.
    ReaderEvent(Event),
}

/// The supervisor's reaction to one joining-phase input.
#[derive(Debug, Clone, Copy, PartialEq, Eq, Structural)]
pub enum JoiningDecision {
    /// Keep waiting for further events.
    Continue,
    /// Send the single disconnect notice and end the process.
    Disconnect,
}

impl JoinProgress {
    /// The accounting at the start of the joining phase: nothing joined,
    /// handshake not yet complete, `required` rooms to enter.
    pub fn new(required: usize) -> (p: JoinProgress)
        ensures
            p == (JoinProgress { joined_count: 0, required_count: required, connected: false }),
    {
        JoinProgress { joined_count: 0, required_count: required, connected: false }
    }

    /// The joining phase may be left only in such a state: handshake complete
    /// and presence established in every still required room.
    pub open spec fn ready(self) -> bool {
        self.connected && self.joined_count >= self.required_count
    }

    /// Whether the joining phase is complete.
    pub fn is_ready(&self) -> (b: bool)
        ensures
            b == self.ready(),
    {
        self.connected && self.joined_count >= self.required_count
    }
}

/// How one joining-phase input changes the join accounting.
///
/// A join failure makes the room no longer required, so that one bad room
/// cannot hang the phase; the counters saturate at the machine limits, which
/// no real event sequence reaches.
pub open spec fn joining_update(p: JoinProgress, input: JoiningInput) -> JoinProgress {
    match input {
        JoiningInput::ReaderEvent(Event::Connected) => JoinProgress { connected: true, ..p },
        JoiningInput::ReaderEvent(Event::ChannelJoined) => JoinProgress {
            joined_count: if p.joined_count < usize::MAX { (p.joined_count + 1) as usize } else { usize::MAX },
            ..p
        },
        JoiningInput::ReaderEvent(Event::ChannelJoinFailed(_)) => JoinProgress {
            required_count: if p.required_count > 0 { (p.required_count - 1) as usize } else { 0 },
            ..p
        },
        _ => p,
    }
}

/// Which joining-phase inputs end the process: a termination signal, the
/// peer quitting, or an input/output fault — the connection cannot be
/// relayed over in any of these cases.
pub open spec fn joining_decision(input: JoiningInput) -> JoiningDecision {
    match input {
        JoiningInput::Signal => JoiningDecision::Disconnect,
        JoiningInput::ReaderEvent(Event::PeerQuit) => JoiningDecision::Disconnect,
        JoiningInput::ReaderEvent(Event::IoFailure(_)) => JoiningDecision::Disconnect,
        _ => JoiningDecision::Continue,
    }
}

/// One turn of the joining phase: updates the join accounting and says
/// whether to keep waiting or to disconnect and exit.
pub fn joining_step(p: &mut JoinProgress, input: &JoiningInput) -> (d: JoiningDecision)
    ensures
        *final(p) == joining_update(*old(p), *input),
        d == joining_decision(*input),
{
    match input {
        JoiningInput::Signal => JoiningDecision::Disconnect,
        JoiningInput::ReaderClosed => JoiningDecision::Continue,
        JoiningInput::ReaderEvent(ev) => match ev {
            Event::Connected => {
                p.connected = true;
                JoiningDecision::Continue
            },
            Event::ChannelJoined => {
                if p.joined_count < usize::MAX {
                    p.joined_count = p.joined_count + 1;
                }
                JoiningDecision::Continue
            },
            Event::ChannelJoinFailed(_) => {
                if p.required_count > 0 {
                    p.required_count = p.required_count - 1;
                }
                JoiningDecision::Continue
            },
            Event::PeerQuit => JoiningDecision::Disconnect,
            Event::IoFailure(_) => JoiningDecision::Disconnect,
            Event::ProtocolFailure(_) => JoiningDecision::Continue,
            Event::ParseFailure(_) => JoiningDecision::Continue,
        },
    }
}

/// What a channel offered the supervisor during the relaying phase.
#[derive(Debug, Clone, PartialEq, Eq)]
pub enum RelayingInput {
    /// A termination signal was delivered.
    Signal,
    /// The input relay's event channel closed: the input stream ended and
    /// piping is complete.
    RelayClosed,
    /// The input relay reported an event.
    RelayEvent(Event),
    /// The connection reader's event channel closed.
    ReaderClosed,
    /// The connection reader reported an event.
    ReaderEvent(Event),
}

/// The supervisor's reaction to one relaying-phase input.
#[derive(Debug, Clone, Copy, PartialEq, Eq, Structural)]
pub enum RelayingDecision {
    /// Keep relaying.
    Continue,
    /// Leave the loop and send the single disconnect notice.
    Shutdown,
}

/// Which relaying-phase inputs end the phase: a termination signal, the end
/// of the input stream, an input/output fault on either worker, or the peer
/// quitting. Parse failures and per-destination send failures are recovered
/// locally and keep the phase running.
pub open spec fn relaying_decision(input: RelayingInput) -> RelayingDecision {
    match input {
        RelayingInput::Signal => RelayingDecision::Shutdown,
        RelayingInput::RelayClosed => RelayingDecision::Shutdown,
        RelayingInput::RelayEvent(Event::IoFailure(_)) => RelayingDecision::Shutdown,
        RelayingInput::ReaderEvent(Event::PeerQuit) => RelayingDecision::Shutdown,
        RelayingInput::ReaderEvent(Event::IoFailure(_)) => RelayingDecision::Shutdown,
        _ => RelayingDecision::Continue,
    }
}

/// One turn of the relaying phase.
pub fn relaying_step(input: &RelayingInput) -> (d: RelayingDecision)
    ensures
        d == relaying_decision(*input),
{
    match input {
        RelayingInput::Signal => RelayingDecision::Shutdown,
        RelayingInput::RelayClosed => RelayingDecision::Shutdown,
        RelayingInput::RelayEvent(ev) => match ev {
            Event::IoFailure(_) => RelayingDecision::Shutdown,
            _ => RelayingDecision::Continue,
        },
        RelayingInput::ReaderClosed => RelayingDecision::Continue,
        RelayingInput::ReaderEvent(ev) => match ev {
            Event::PeerQuit => RelayingDecision::Shutdown,
            Event::IoFailure(_) => RelayingDecision::Shutdown,
            _ => RelayingDecision::Continue,
        },
    }
}

/// How a run of the joining phase over a whole input sequence ends.
#[derive(Debug, Clone, Copy, PartialEq, Eq, Structural)]
pub enum JoiningEnd {
    /// Presence is established in every still required room: the supervisor
    /// proceeds to the relaying phase with this accounting.
    Ready(JoinProgress),
    /// A fatal input arrived: the supervisor sends the disconnect notice and
    /// ends the process in this state.
    DisconnectExit(JoinProgress),
    /// The input sequence ran out first; the real loop would still be
    /// blocked waiting in this state.
    Starved(JoinProgress),
}

/// The joining phase over a whole input sequence: from `p`, consume inputs
/// until the accounting is ready, a fatal input arrives, or the sequence
/// runs out.
pub open spec fn joining_run(p: JoinProgress, inputs: Seq<JoiningInput>) -> JoiningEnd
    decreases inputs.len(),
{
    if p.ready() {
        JoiningEnd::Ready(p)
    } else if inputs.len() == 0 {
        JoiningEnd::Starved(p)
    } else if joining_decision(inputs[0]) is Disconnect {
        JoiningEnd::DisconnectExit(p)
    } else {
        joining_run(joining_update(p, inputs[0]), inputs.drop_first())
    }
}

/// Runs the joining phase over a sequence of inputs already at hand.
pub fn run_joining(start: JoinProgress, inputs: &Vec<JoiningInput>) -> (r: JoiningEnd)
    ensures
        r == joining_run(start, inputs@),
{
    let mut p = start;
    let mut i: usize = 0;
    proof {
        assert(inputs@.skip(0) =~= inputs@);
    }
    while i < inputs.len()
        invariant
            i <= inputs.len(),
            joining_run(start, inputs@) == joining_run(p, inputs@.skip(i as int)),
        decreases inputs.len() - i,
    {
        if p.is_ready() {
            return JoiningEnd::Ready(p);
        }
        proof {
            assert(inputs@.skip(i as int)[0] == inputs@[i as int]);
            assert(inputs@.skip(i as int).drop_first() =~= inputs@.skip(i as int + 1));
        }
        let ghost before = p;
        let d = joining_step(&mut p, &inputs[i]);
        if matches!(d, JoiningDecision::Disconnect) {
            proof {
                assert(joining_update(before, inputs@[i as int]) == before);
            }
            return JoiningEnd::DisconnectExit(p);
        }
        i = i + 1;
    }
    proof {
        assert(inputs@.skip(i as int) =~= Seq::<JoiningInput>::empty());
    }
    if p.is_ready() {
        JoiningEnd::Ready(p)
    } else {
        JoiningEnd::Starved(p)
    }
}

/// How a run of the relaying phase over a whole input sequence ends.
#[derive(Debug, Clone, Copy, PartialEq, Eq, Structural)]
pub enum RelayingEnd {
    /// A terminating input arrived: the supervisor leaves the loop and sends
    /// the disconnect notice.
    Shutdown,
    /// The input sequence ran out first; the real loop would still be
    /// blocked waiting.
    Starved,
}

/// The relaying phase over a whole input sequence: consume inputs until one
/// of them decides the shutdown, or the sequence runs out.
pub open spec fn relaying_run(inputs: Seq<RelayingInput>) -> RelayingEnd
    decreases inputs.len(),
{
    if inputs.len() == 0 {
        RelayingEnd::Starved
    } else if relaying_decision(inputs[0]) is Shutdown {
        RelayingEnd::Shutdown
    } else {
        relaying_run(inputs.drop_first())
    }
}

/// Runs the relaying phase over a sequence of inputs already at hand.
pub fn run_relaying(inputs: &Vec<RelayingInput>) -> (r: RelayingEnd)
    ensures
        r == relaying_run(inputs@),
{
    let mut i: usize = 0;
    proof {
        assert(inputs@.skip(0) =~= inputs@);
    }
    while i < inputs.len()
        invariant
            i <= inputs.len(),
            relaying_run(inputs@) == relaying_run(inputs@.skip(i as int)),
        decreases inputs.len() - i,
    {
        proof {
            assert(inputs@.skip(i as int)[0] == inputs@[i as int]);
            assert(inputs@.skip(i as int).drop_first() =~= inputs@.skip(i as int + 1));
        }
        let d = relaying_step(&inputs[i]);
        if matches!(d, RelayingDecision::Shutdown) {
            return RelayingEnd::Shutdown;
        }
        i = i + 1;
    }
    proof {
        assert(inputs@.skip(i as int) =~= Seq::<RelayingInput>::empty());
    }
    RelayingEnd::Starved
}

/// How many disconnect notices the whole supervisor sends for the given
/// phase inputs: one on a fatal joining-phase exit, one after the relaying
/// loop ends, none while a phase is still blocked waiting. Every exit path
/// of the supervisor passes through exactly one of these sends.
pub open spec fn supervisor_disconnects(
    required: usize,
    joining_inputs: Seq<JoiningInput>,
    relaying_inputs: Seq<RelayingInput>,
) -> Option<int> {
    let start = JoinProgress { joined_count: 0, required_count: required, connected: false };
    match joining_run(start, joining_inputs) {
        JoiningEnd::DisconnectExit(_) => Some(1),
        JoiningEnd::Starved(_) => None,
        JoiningEnd::Ready(_) => match relaying_run(relaying_inputs) {
            RelayingEnd::Shutdown => Some(1),
            RelayingEnd::Starved => None,
        },
    }
}

/// The joining phase, over any input sequence, is left for the relaying
/// phase only once the handshake has completed and the join count has
/// reached the (possibly reduced) required count — never earlier.
pub proof fn lemma_joining_leaves_only_when_ready(p: JoinProgress, inputs: Seq<JoiningInput>)
    ensures
        joining_run(p, inputs) matches JoiningEnd::Ready(q) ==> q.connected
            && q.joined_count >= q.required_count,
    decreases inputs.len(),
{
    if p.ready() {
    } else if inputs.len() == 0 {
    } else if joining_decision(inputs[0]) is Disconnect {
    } else {
        lemma_joining_leaves_only_when_ready(joining_update(p, inputs[0]), inputs.drop_first());
    }
}

/// From any connected state that has not over-counted joins, the joining
/// phase is left with the join count exactly equal to the (possibly reduced)
/// required count — the phase never runs past its goal. (Join notifications
/// arriving before the handshake completes can push the count past the goal;
/// only `lemma_joining_leaves_only_when_ready` holds then.)
pub proof fn lemma_joining_exits_exactly(p: JoinProgress, inputs: Seq<JoiningInput>)
    requires
        p.connected,
        p.joined_count <= p.required_count,
    ensures
        joining_run(p, inputs) matches JoiningEnd::Ready(q)
            ==> q.joined_count == q.required_count,
    decreases inputs.len(),
{
    if p.ready() {
    } else if inputs.len() == 0 {
    } else if joining_decision(inputs[0]) is Disconnect {
    } else {
        let q = joining_update(p, inputs[0]);
        assert(q.connected && q.joined_count <= q.required_count);
        lemma_joining_exits_exactly(q, inputs.drop_first());
    }
}

/// A single room join failure reduces the required count by exactly one and
/// leaves the join count, the handshake flag and the decision to keep
/// waiting unchanged.
pub proof fn lemma_join_failure_decrements(p: JoinProgress, reason: String)
    requires
        p.required_count >= 1,
    ensures
        joining_update(p, JoiningInput::ReaderEvent(Event::ChannelJoinFailed(reason)))
            == (JoinProgress { required_count: (p.required_count - 1) as usize, ..p }),
        joining_decision(JoiningInput::ReaderEvent(Event::ChannelJoinFailed(reason)))
            is Continue,
{
}

/// Once connected, `n` further join notifications complete the joining phase
/// whenever they cover what is still missing.
pub proof fn lemma_joins_reach_ready(p: JoinProgress, n: nat)
    requires
        p.connected,
        p.joined_count + n >= p.required_count,
    ensures
        joining_run(p, Seq::new(n, |i: int| JoiningInput::ReaderEvent(Event::ChannelJoined)))
            matches JoiningEnd::Ready(_),
    decreases n,
{
    let inputs = Seq::new(n, |i: int| JoiningInput::ReaderEvent(Event::ChannelJoined));
    if p.ready() {
    } else {
        assert(n >= 1);
        let q = joining_update(p, inputs[0]);
        assert(inputs.drop_first()
            =~= Seq::new((n - 1) as nat, |i: int| JoiningInput::ReaderEvent(Event::ChannelJoined)));
        lemma_joins_reach_ready(q, (n - 1) as nat);
    }
}

/// After one room join failure, successful joins of the remaining rooms
/// still complete the joining phase: a single bad room does not hang the
/// process.
pub proof fn lemma_join_failure_no_hang(p: JoinProgress, reason: String, n: nat)
    requires
        p.connected,
        p.required_count >= 1,
        p.joined_count + n + 1 >= p.required_count,
    ensures
        joining_run(
            p,
            seq![JoiningInput::ReaderEvent(Event::ChannelJoinFailed(reason))]
                + Seq::new(n, |i: int| JoiningInput::ReaderEvent(Event::ChannelJoined)),
        ) matches JoiningEnd::Ready(_),
{
    let joins = Seq::new(n, |i: int| JoiningInput::ReaderEvent(Event::ChannelJoined));
    let inputs = seq![JoiningInput::ReaderEvent(Event::ChannelJoinFailed(reason))] + joins;
    if p.ready() {
    } else {
        assert(inputs[0] == JoiningInput::ReaderEvent(Event::ChannelJoinFailed(reason)));
        let q = joining_update(p, inputs[0]);
        assert(inputs.drop_first() =~= joins);
        lemma_joins_reach_ready(q, n);
    }
}

/// A termination signal, arriving in either phase, drives that phase to its
/// disconnecting exit at once, whatever inputs would have followed.
pub proof fn lemma_signal_exits(
    p: JoinProgress,
    joining_rest: Seq<JoiningInput>,
    relaying_rest: Seq<RelayingInput>,
)
    ensures
        !p.ready() ==> joining_run(p, seq![JoiningInput::Signal] + joining_rest)
            == JoiningEnd::DisconnectExit(p),
        relaying_run(seq![RelayingInput::Signal] + relaying_rest) is Shutdown,
{
    assert((seq![JoiningInput::Signal] + joining_rest)[0] == JoiningInput::Signal);
    assert((seq![RelayingInput::Signal] + relaying_rest)[0] == RelayingInput::Signal);
}

/// However the supervisor's two phases end, the process sends exactly one
/// disconnect notice on its way out — never none, never two.
pub proof fn lemma_exactly_one_disconnect(
    required: usize,
    joining_inputs: Seq<JoiningInput>,
    relaying_inputs: Seq<RelayingInput>,
)
    ensures
        supervisor_disconnects(required, joining_inputs, relaying_inputs)
            matches Some(n) ==> n == 1,
{
}

/// With no required rooms (raw-input mode with an empty room list), the
/// joining phase completes as soon as the handshake-complete event is
/// observed, independent of any join count and of whatever else follows.
pub proof fn lemma_no_rooms_ready_on_connected(p: JoinProgress, rest: Seq<JoiningInput>)
    requires
        p.required_count == 0,
    ensures
        joining_run(p, seq![JoiningInput::ReaderEvent(Event::Connected)] + rest)
            matches JoiningEnd::Ready(q) && q.connected,
{
    let inputs = seq![JoiningInput::ReaderEvent(Event::Connected)] + rest;
    if p.ready() {
    } else {
        assert(inputs[0] == JoiningInput::ReaderEvent(Event::Connected));
        let q = joining_update(p, inputs[0]);
        assert(q.ready());
        assert(joining_run(p, inputs) == joining_run(q, inputs.drop_first()));
        assert(joining_run(q, inputs.drop_first()) == JoiningEnd::Ready(q));
    }
}

/// Locally recovered failures — a parse failure, or a per-destination send
/// failure surfaced by the connection collaborator — keep the supervisor
/// relaying.
pub proof fn lemma_recovered_failures_keep_relaying(reason: String)
    ensures
        relaying_decision(RelayingInput::RelayEvent(Event::ProtocolFailure(reason)))
            is Continue,
        relaying_decision(RelayingInput::RelayEvent(Event::ParseFailure(reason)))
            is Continue,
{
}

} // verus!
