//! The decisions of the handshake driver. The driver runs engine I/O
//! rounds against the transport, waits for read readiness between them and
//! watches a deadline; what it does after each event is decided here.
use vstd::prelude::*;

verus! {

/// Why a handshake failed.
#[derive(PartialEq, Eq, Clone, Copy, Debug, Structural)]
pub enum FailKind {
    /// The peer sent bytes that are no valid handshake message.
    Malformed,
    /// Another I/O error of the round.
    Io,
    /// The transport closed while the handshake was in progress.
    Disconnected,
}

/// The state of one connection's handshake.
#[derive(PartialEq, Eq, Clone, Copy, Debug, Structural)]
pub enum HandshakeState {
    InProgress,
    Complete,
    Failed(FailKind),
    TimedOut,
}

/// How one round of engine I/O against the transport ended.
#[derive(PartialEq, Eq, Clone, Copy, Debug, Structural)]
pub enum RoundResult {
    /// The round ran without blocking.
    Done,
    /// The round stopped on a would-block condition.
    WouldBlock,
    /// The round failed.
    Failed(FailKind),
}

/// What the transport reported while the driver waited for readable bytes.
#[derive(PartialEq, Eq, Clone, Copy, Debug, Structural)]
pub enum Readiness {
    Readable,
    Disconnected,
}

/// What happened since the driver's last decision.
#[derive(PartialEq, Eq, Clone, Copy, Debug, Structural)]
pub enum HandshakeEvent {
    /// A round ended; `wants_read` and `handshaking` are the engine's state
    /// right after it.
    Round { result: RoundResult, wants_read: bool, handshaking: bool },
    /// The wait for readable bytes ended.
    Ready(Readiness),
    /// The deadline passed.
    DeadlinePassed,
}

/// What the driver does next.
#[derive(PartialEq, Eq, Clone, Copy, Debug, Structural)]
pub enum HandshakeAction {
    /// Run another round at once.
    RunRound,
    /// Suspend until the transport has readable bytes or closes.
    WaitReadable,
    /// Hand the ready connection to its user.
    Finish,
    /// Give the connection up with the state's error.
    Abort,
}

pub open spec fn is_terminal(s: HandshakeState) -> bool {
    s != HandshakeState::InProgress
}

/// The action that belongs to a state once it is final.
pub open spec fn final_action(s: HandshakeState) -> HandshakeAction {
    if s == HandshakeState::Complete {
        HandshakeAction::Finish
    } else {
        HandshakeAction::Abort
    }
}

/// The next state of the handshake after `e`.
pub open spec fn next_state(s: HandshakeState, e: HandshakeEvent) -> HandshakeState {
    if is_terminal(s) {
        s
    } else {
        match e {
            HandshakeEvent::DeadlinePassed => HandshakeState::TimedOut,
            HandshakeEvent::Ready(Readiness::Readable) => HandshakeState::InProgress,
            HandshakeEvent::Ready(Readiness::Disconnected) => HandshakeState::Failed(
                FailKind::Disconnected,
            ),
            HandshakeEvent::Round { result, wants_read, handshaking } => match result {
                RoundResult::Done => HandshakeState::Complete,
                RoundResult::Failed(k) => HandshakeState::Failed(k),
                RoundResult::WouldBlock => if handshaking {
                    HandshakeState::InProgress
                } else {
                    HandshakeState::Complete
                },
            },
        }
    }
}

/// The driver's action after `e`.
pub open spec fn next_action(s: HandshakeState, e: HandshakeEvent) -> HandshakeAction {
    let n = next_state(s, e);
    if is_terminal(n) {
        final_action(n)
    } else {
        match e {
            HandshakeEvent::Round { wants_read, .. } => if wants_read {
                HandshakeAction::WaitReadable
            } else {
                HandshakeAction::RunRound
            },
            _ => HandshakeAction::RunRound,
        }
    }
}

/// The state after a sequence of events.
pub open spec fn run(s: HandshakeState, events: Seq<HandshakeEvent>) -> HandshakeState
    decreases events.len(),
{
    if events.len() == 0 {
        s
    } else {
        run(next_state(s, events[0]), events.drop_first())
    }
}

/// Decides the next state and action of the handshake driver.
pub fn handshake_step(s: HandshakeState, e: HandshakeEvent) -> (r: (HandshakeState, HandshakeAction))
    ensures
        r.0 == next_state(s, e),
        r.1 == next_action(s, e),
{
    let n: HandshakeState = match s {
        HandshakeState::InProgress => match e {
            HandshakeEvent::DeadlinePassed => HandshakeState::TimedOut,
            HandshakeEvent::Ready(Readiness::Readable) => HandshakeState::InProgress,
            HandshakeEvent::Ready(Readiness::Disconnected) => HandshakeState::Failed(
                FailKind::Disconnected,
            ),
            HandshakeEvent::Round { result, handshaking, .. } => match result {
                RoundResult::Done => HandshakeState::Complete,
                RoundResult::Failed(k) => HandshakeState::Failed(k),
                RoundResult::WouldBlock => if handshaking {
                    HandshakeState::InProgress
                } else {
                    HandshakeState::Complete
                },
            },
        },
        _ => s,
    };
    let a: HandshakeAction = match n {
        HandshakeState::Complete => HandshakeAction::Finish,
        HandshakeState::Failed(_) | HandshakeState::TimedOut => HandshakeAction::Abort,
        HandshakeState::InProgress => match e {
            HandshakeEvent::Round { wants_read, .. } => if wants_read {
                HandshakeAction::WaitReadable
            } else {
                HandshakeAction::RunRound
            },
            _ => HandshakeAction::RunRound,
        },
    };
    (n, a)
}

/// Whether the handshake ended with a connection ready for use.
pub fn is_complete(s: HandshakeState) -> (r: bool)
    ensures
        r == (s == HandshakeState::Complete),
{
    s == HandshakeState::Complete
}

/// A final state stays as it is whatever events follow.
pub proof fn lemma_final_state_stays(s: HandshakeState, events: Seq<HandshakeEvent>)
    requires
        is_terminal(s),
    ensures
        run(s, events) == s,
    decreases events.len(),
{
    if events.len() > 0 {
        lemma_final_state_stays(next_state(s, events[0]), events.drop_first());
    }
}

/// A handshake in progress completes on a round that runs through, times
/// out when the deadline passes first, and fails as malformed on a round
/// that the engine rejected; the three outcomes are distinct.
pub proof fn lemma_handshake_outcomes(wants_read: bool, handshaking: bool)
    ensures
        next_state(
            HandshakeState::InProgress,
            HandshakeEvent::Round { result: RoundResult::Done, wants_read, handshaking },
        ) == HandshakeState::Complete,
        next_state(HandshakeState::InProgress, HandshakeEvent::DeadlinePassed)
            == HandshakeState::TimedOut,
        next_state(
            HandshakeState::InProgress,
            HandshakeEvent::Round {
                result: RoundResult::Failed(FailKind::Malformed),
                wants_read,
                handshaking,
            },
        ) == HandshakeState::Failed(FailKind::Malformed),
        HandshakeState::Complete != HandshakeState::TimedOut,
        HandshakeState::TimedOut != HandshakeState::Failed(FailKind::Malformed),
{
}

/// A peer that never makes the transport readable: however many rounds
/// block waiting for input and however many readiness wake-ups come, the
/// handshake stays in progress, and the deadline then ends it as timed out.
pub proof fn lemma_silent_peer_times_out(events: Seq<HandshakeEvent>)
    requires
        forall|i: int| 0 <= i < events.len() ==> (#[trigger] events[i] == HandshakeEvent::Round {
            result: RoundResult::WouldBlock,
            wants_read: true,
            handshaking: true,
        } || events[i] == HandshakeEvent::Ready(Readiness::Readable)),
    ensures
        run(HandshakeState::InProgress, events) == HandshakeState::InProgress,
        run(HandshakeState::InProgress, events.push(HandshakeEvent::DeadlinePassed))
            == HandshakeState::TimedOut,
    decreases events.len(),
{
    if events.len() > 0 {
        let rest = events.drop_first();
        assert forall|i: int| 0 <= i < rest.len() implies (#[trigger] rest[i] == HandshakeEvent::Round {
            result: RoundResult::WouldBlock,
            wants_read: true,
            handshaking: true,
        } || rest[i] == HandshakeEvent::Ready(Readiness::Readable)) by {
            assert(rest[i] == events[i + 1]);
        }
        lemma_silent_peer_times_out(rest);
        let longer = events.push(HandshakeEvent::DeadlinePassed);
        assert(longer.drop_first() =~= rest.push(HandshakeEvent::DeadlinePassed));
        assert(longer[0] == events[0]);
        assert(next_state(HandshakeState::InProgress, events[0]) == HandshakeState::InProgress);
    } else {
        let one = events.push(HandshakeEvent::DeadlinePassed);
        assert(one.drop_first() =~= Seq::<HandshakeEvent>::empty());
        assert(one[0] == HandshakeEvent::DeadlinePassed);
        assert(run(HandshakeState::TimedOut, one.drop_first()) == HandshakeState::TimedOut);
    }
}

/// A disconnection reported while the handshake waits for input is fatal,
/// and is neither a timeout nor a malformed-record failure.
pub proof fn lemma_disconnect_is_distinct()
    ensures
        next_state(HandshakeState::InProgress, HandshakeEvent::Ready(Readiness::Disconnected))
            == HandshakeState::Failed(FailKind::Disconnected),
        next_action(HandshakeState::InProgress, HandshakeEvent::Ready(Readiness::Disconnected))
            == HandshakeAction::Abort,
        HandshakeState::Failed(FailKind::Disconnected) != HandshakeState::TimedOut,
        HandshakeState::Failed(FailKind::Disconnected) != HandshakeState::Failed(
            FailKind::Malformed,
        ),
{
}

} // verus!
