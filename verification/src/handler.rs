//! The per-connection handler: a state machine stepped once for every
//! event the surrounding connection task observes, deciding the next
//! action to perform on the transport.

use vstd::prelude::*;

use crate::message::DecodeOutcome;
use crate::message::Message;
use crate::message::reply_of;

verus! {

/// The lifecycle phase of one connection.
#[derive(Clone, Copy, Debug, PartialEq, Eq, Structural)]
pub enum Phase {
    /// A raw stream was accepted; the peer address is being resolved.
    Accepted,
    /// The protocol upgrade (handshake) is in progress.
    Handshaking,
    /// The duplex channel is up; the receive/echo loop runs here.
    Established,
    /// The loop has ended; the transport is being released.
    Draining,
    /// Terminal: the transport is gone and the task is over.
    Closed,
}

/// Which write, if any, the handler is waiting on. The handler issues at
/// most one write at a time, so a single slot suffices.
#[derive(Clone, Copy, Debug, PartialEq, Eq, Structural)]
pub enum PendingWrite {
    Idle,
    /// The fixed greeting, sent on entering `Established`.
    Welcome,
    /// An echo of a text message; failure ends the loop.
    TextEcho,
    /// An echo of a binary message; failure is logged and ignored.
    BinaryEcho,
    /// A pong answering a ping; failure is ignored.
    PongReply,
    /// The bare close acknowledgment; the loop ends either way.
    CloseAck,
}

/// One observation the connection task reports to the handler.
#[derive(Clone, Debug, PartialEq, Eq)]
pub enum Event {
    /// The peer address was resolved.
    AddrResolved,
    /// The peer address could not be obtained.
    AddrFailed,
    /// The protocol upgrade succeeded.
    UpgradeOk,
    /// The protocol upgrade failed.
    UpgradeFailed,
    /// The pending write completed.
    WriteOk,
    /// The pending write failed.
    WriteFailed,
    /// One inbound unit was decoded (or failed to decode).
    Inbound(DecodeOutcome),
    /// The inbound stream ended: the peer is gone.
    InboundEnded,
    /// The transport has been released.
    Released,
}

/// What the connection task must do next.
#[derive(Clone, Debug, PartialEq, Eq)]
pub enum Action {
    /// Nothing to perform; await the next event.
    Wait,
    /// Perform the protocol upgrade on the raw stream.
    Upgrade,
    /// Write the fixed welcome message to the peer.
    SendWelcome,
    /// Write this message to the peer.
    Send(Message),
    /// Release the transport; no further reads or writes.
    Release,
}

/// The state of one connection's handler.
#[derive(Clone, Debug, PartialEq, Eq)]
pub struct Handler {
    pub phase: Phase,
    pub pending: PendingWrite,
}

/// The complete transition relation of the connection handler. Every
/// transition the design calls for is one arm here; an event that cannot
/// occur in the current phase leaves the handler unchanged.
pub open spec fn spec_step(h: Handler, ev: Event) -> (Handler, Action) {
    match (h.phase, h.pending, ev) {
        // Accepted: resolve the peer address; without one the connection
        // is unusable and is abandoned outright.
        (Phase::Accepted, PendingWrite::Idle, Event::AddrResolved) => (
            Handler { phase: Phase::Handshaking, pending: PendingWrite::Idle },
            Action::Upgrade,
        ),
        (Phase::Accepted, PendingWrite::Idle, Event::AddrFailed) => (
            Handler { phase: Phase::Closed, pending: PendingWrite::Idle },
            Action::Release,
        ),
        // Handshaking: on success the channel is up and the greeting goes
        // out before any application traffic; on failure, abandon.
        (Phase::Handshaking, PendingWrite::Idle, Event::UpgradeOk) => (
            Handler { phase: Phase::Established, pending: PendingWrite::Welcome },
            Action::SendWelcome,
        ),
        (Phase::Handshaking, PendingWrite::Idle, Event::UpgradeFailed) => (
            Handler { phase: Phase::Closed, pending: PendingWrite::Idle },
            Action::Release,
        ),
        // A failed welcome send closes the connection before any
        // application traffic is accepted.
        (Phase::Established, PendingWrite::Welcome, Event::WriteOk) => (
            Handler { phase: Phase::Established, pending: PendingWrite::Idle },
            Action::Wait,
        ),
        (Phase::Established, PendingWrite::Welcome, Event::WriteFailed) => (
            Handler { phase: Phase::Closed, pending: PendingWrite::Idle },
            Action::Release,
        ),
        // The receive/echo cycle: one inbound unit at a time, each owed
        // the reply `reply_of` states.
        (Phase::Established, PendingWrite::Idle, Event::Inbound(o)) => match o {
            DecodeOutcome::Decoded(m) => match m {
                Message::Text(t) => (
                    Handler { phase: Phase::Established, pending: PendingWrite::TextEcho },
                    Action::Send(Message::Text(t)),
                ),
                Message::Binary(b) => (
                    Handler { phase: Phase::Established, pending: PendingWrite::BinaryEcho },
                    Action::Send(Message::Binary(b)),
                ),
                Message::Ping(p) => (
                    Handler { phase: Phase::Established, pending: PendingWrite::PongReply },
                    Action::Send(Message::Pong(p)),
                ),
                Message::Pong(_) => (
                    Handler { phase: Phase::Established, pending: PendingWrite::Idle },
                    Action::Wait,
                ),
                Message::Close(_) => (
                    Handler { phase: Phase::Established, pending: PendingWrite::CloseAck },
                    Action::Send(Message::Close(None)),
                ),
                Message::Unrecognized => (
                    Handler { phase: Phase::Established, pending: PendingWrite::Idle },
                    Action::Wait,
                ),
            },
            DecodeOutcome::TolerableError => (
                Handler { phase: Phase::Established, pending: PendingWrite::Idle },
                Action::Wait,
            ),
            DecodeOutcome::FatalError => (
                Handler { phase: Phase::Draining, pending: PendingWrite::Idle },
                Action::Release,
            ),
        },
        (Phase::Established, PendingWrite::Idle, Event::InboundEnded) => (
            Handler { phase: Phase::Draining, pending: PendingWrite::Idle },
            Action::Release,
        ),
        // Write completions. Only the text echo is strict: its failure
        // ends the loop. Binary echo and pong reply failures are ignored;
        // after the close acknowledgment the loop ends either way.
        (Phase::Established, PendingWrite::TextEcho, Event::WriteOk) => (
            Handler { phase: Phase::Established, pending: PendingWrite::Idle },
            Action::Wait,
        ),
        (Phase::Established, PendingWrite::TextEcho, Event::WriteFailed) => (
            Handler { phase: Phase::Draining, pending: PendingWrite::Idle },
            Action::Release,
        ),
        (Phase::Established, PendingWrite::BinaryEcho, Event::WriteOk) => (
            Handler { phase: Phase::Established, pending: PendingWrite::Idle },
            Action::Wait,
        ),
        (Phase::Established, PendingWrite::BinaryEcho, Event::WriteFailed) => (
            Handler { phase: Phase::Established, pending: PendingWrite::Idle },
            Action::Wait,
        ),
        (Phase::Established, PendingWrite::PongReply, Event::WriteOk) => (
            Handler { phase: Phase::Established, pending: PendingWrite::Idle },
            Action::Wait,
        ),
        (Phase::Established, PendingWrite::PongReply, Event::WriteFailed) => (
            Handler { phase: Phase::Established, pending: PendingWrite::Idle },
            Action::Wait,
        ),
        (Phase::Established, PendingWrite::CloseAck, Event::WriteOk) => (
            Handler { phase: Phase::Draining, pending: PendingWrite::Idle },
            Action::Release,
        ),
        (Phase::Established, PendingWrite::CloseAck, Event::WriteFailed) => (
            Handler { phase: Phase::Draining, pending: PendingWrite::Idle },
            Action::Release,
        ),
        // Draining ends once the transport is released.
        (Phase::Draining, PendingWrite::Idle, Event::Released) => (
            Handler { phase: Phase::Closed, pending: PendingWrite::Idle },
            Action::Wait,
        ),
        // Closed is terminal; everything else cannot occur and is ignored.
        _ => (h, Action::Wait),
    }
}

impl Handler {
    /// A write can only be outstanding while the channel is established.
    pub open spec fn wf(self) -> bool {
        self.pending != PendingWrite::Idle ==> self.phase == Phase::Established
    }

    /// The state a handler starts in when a raw stream is accepted.
    pub open spec fn spec_init() -> Handler {
        Handler { phase: Phase::Accepted, pending: PendingWrite::Idle }
    }

    /// Creates the handler for a freshly accepted connection.
    pub fn new() -> (h: Handler)
        ensures
            h == Handler::spec_init(),
            h.wf(),
    {
        Handler { phase: Phase::Accepted, pending: PendingWrite::Idle }
    }

    /// Advances the machine by one event and returns the action owed,
    /// exactly as `spec_step` states it.
    pub fn step(&mut self, ev: Event) -> (a: Action)
        ensures
            *final(self) == spec_step(*old(self), ev).0,
            a == spec_step(*old(self), ev).1,
            old(self).wf() ==> final(self).wf(),
    {
        let cur = Handler { phase: self.phase, pending: self.pending };
        let (next, a) = transition(cur, ev);
        self.phase = next.phase;
        self.pending = next.pending;
        a
    }
}

/// Computes one transition, exactly as `spec_step` states it.
fn transition(h: Handler, ev: Event) -> (r: (Handler, Action))
    ensures
        r == spec_step(h, ev),
{
    match (h.phase, h.pending, ev) {
        (Phase::Accepted, PendingWrite::Idle, Event::AddrResolved) => (
            Handler { phase: Phase::Handshaking, pending: PendingWrite::Idle },
            Action::Upgrade,
        ),
        (Phase::Accepted, PendingWrite::Idle, Event::AddrFailed) => (
            Handler { phase: Phase::Closed, pending: PendingWrite::Idle },
            Action::Release,
        ),
        (Phase::Handshaking, PendingWrite::Idle, Event::UpgradeOk) => (
            Handler { phase: Phase::Established, pending: PendingWrite::Welcome },
            Action::SendWelcome,
        ),
        (Phase::Handshaking, PendingWrite::Idle, Event::UpgradeFailed) => (
            Handler { phase: Phase::Closed, pending: PendingWrite::Idle },
            Action::Release,
        ),
        (Phase::Established, PendingWrite::Welcome, Event::WriteOk) => (
            Handler { phase: Phase::Established, pending: PendingWrite::Idle },
            Action::Wait,
        ),
        (Phase::Established, PendingWrite::Welcome, Event::WriteFailed) => (
            Handler { phase: Phase::Closed, pending: PendingWrite::Idle },
            Action::Release,
        ),
        (Phase::Established, PendingWrite::Idle, Event::Inbound(o)) => match o {
            DecodeOutcome::Decoded(m) => match m {
                Message::Text(t) => (
                    Handler { phase: Phase::Established, pending: PendingWrite::TextEcho },
                    Action::Send(Message::Text(t)),
                ),
                Message::Binary(b) => (
                    Handler { phase: Phase::Established, pending: PendingWrite::BinaryEcho },
                    Action::Send(Message::Binary(b)),
                ),
                Message::Ping(p) => (
                    Handler { phase: Phase::Established, pending: PendingWrite::PongReply },
                    Action::Send(Message::Pong(p)),
                ),
                Message::Pong(_) => (
                    Handler { phase: Phase::Established, pending: PendingWrite::Idle },
                    Action::Wait,
                ),
                Message::Close(_) => (
                    Handler { phase: Phase::Established, pending: PendingWrite::CloseAck },
                    Action::Send(Message::Close(None)),
                ),
                Message::Unrecognized => (
                    Handler { phase: Phase::Established, pending: PendingWrite::Idle },
                    Action::Wait,
                ),
            },
            DecodeOutcome::TolerableError => (
                Handler { phase: Phase::Established, pending: PendingWrite::Idle },
                Action::Wait,
            ),
            DecodeOutcome::FatalError => (
                Handler { phase: Phase::Draining, pending: PendingWrite::Idle },
                Action::Release,
            ),
        },
        (Phase::Established, PendingWrite::Idle, Event::InboundEnded) => (
            Handler { phase: Phase::Draining, pending: PendingWrite::Idle },
            Action::Release,
        ),
        (Phase::Established, PendingWrite::TextEcho, Event::WriteOk) => (
            Handler { phase: Phase::Established, pending: PendingWrite::Idle },
            Action::Wait,
        ),
        (Phase::Established, PendingWrite::TextEcho, Event::WriteFailed) => (
            Handler { phase: Phase::Draining, pending: PendingWrite::Idle },
            Action::Release,
        ),
        (Phase::Established, PendingWrite::BinaryEcho, Event::WriteOk) => (
            Handler { phase: Phase::Established, pending: PendingWrite::Idle },
            Action::Wait,
        ),
        (Phase::Established, PendingWrite::BinaryEcho, Event::WriteFailed) => (
            Handler { phase: Phase::Established, pending: PendingWrite::Idle },
            Action::Wait,
        ),
        (Phase::Established, PendingWrite::PongReply, Event::WriteOk) => (
            Handler { phase: Phase::Established, pending: PendingWrite::Idle },
            Action::Wait,
        ),
        (Phase::Established, PendingWrite::PongReply, Event::WriteFailed) => (
            Handler { phase: Phase::Established, pending: PendingWrite::Idle },
            Action::Wait,
        ),
        (Phase::Established, PendingWrite::CloseAck, Event::WriteOk) => (
            Handler { phase: Phase::Draining, pending: PendingWrite::Idle },
            Action::Release,
        ),
        (Phase::Established, PendingWrite::CloseAck, Event::WriteFailed) => (
            Handler { phase: Phase::Draining, pending: PendingWrite::Idle },
            Action::Release,
        ),
        (Phase::Draining, PendingWrite::Idle, Event::Released) => (
            Handler { phase: Phase::Closed, pending: PendingWrite::Idle },
            Action::Wait,
        ),
        _ => (h, Action::Wait),
    }
}

/// The actions a handler performs when driven from `h` through the events
/// of `evs`, in order.
pub open spec fn actions_of(h: Handler, evs: Seq<Event>) -> Seq<Action>
    decreases evs.len(),
{
    if evs.len() == 0 {
        Seq::empty()
    } else {
        seq![spec_step(h, evs[0]).1] + actions_of(spec_step(h, evs[0]).0, evs.drop_first())
    }
}

/// A closed handler is inert: no event moves it and no event makes it act.
pub proof fn lemma_closed_is_terminal(h: Handler, ev: Event)
    requires
        h.phase == Phase::Closed,
    ensures
        spec_step(h, ev).0 == h,
        spec_step(h, ev).1 == Action::Wait,
{
}

/// Welcome-first: however a handler that has not yet reached the
/// established phase is driven, every message it ever asks to send is
/// preceded by the fixed welcome message.
pub proof fn lemma_welcome_first(h: Handler, evs: Seq<Event>)
    requires
        h.phase != Phase::Established,
    ensures
        forall|i: int|
            0 <= i < actions_of(h, evs).len() && actions_of(h, evs)[i] is Send ==> exists|j: int|
                0 <= j < i && actions_of(h, evs)[j] == Action::SendWelcome,
    decreases evs.len(),
{
    let acts = actions_of(h, evs);
    if evs.len() > 0 {
        let a0 = spec_step(h, evs[0]).1;
        let h1 = spec_step(h, evs[0]).0;
        let rest = actions_of(h1, evs.drop_first());
        assert(acts == seq![a0] + rest);
        assert(!(a0 is Send));
        if h1.phase == Phase::Established {
            // The only way in is a successful upgrade, which greets first.
            assert(a0 == Action::SendWelcome);
            assert forall|i: int| 0 <= i < acts.len() && acts[i] is Send implies exists|j: int|
                0 <= j < i && acts[j] == Action::SendWelcome by {
                assert(acts[0] == a0);
                assert(i != 0);
                assert(0 <= 0 < i && acts[0] == Action::SendWelcome);
            }
        } else {
            lemma_welcome_first(h1, evs.drop_first());
            assert forall|i: int| 0 <= i < acts.len() && acts[i] is Send implies exists|j: int|
                0 <= j < i && acts[j] == Action::SendWelcome by {
                assert(acts[0] == a0);
                assert(i != 0);
                assert(acts[i] == rest[i - 1]);
                let j0 = choose|j0: int| 0 <= j0 < i - 1 && rest[j0] == Action::SendWelcome;
                assert(acts[j0 + 1] == rest[j0]);
                assert(0 <= j0 + 1 < i && acts[j0 + 1] == Action::SendWelcome);
            }
        }
    }
}

/// While the channel is established and no write is outstanding, a decoded
/// message draws exactly the reply `reply_of` owes it — one `Send` when a
/// reply is owed, and silence otherwise.
pub proof fn lemma_step_sends_reply(h: Handler, m: Message)
    requires
        h.phase == Phase::Established,
        h.pending == PendingWrite::Idle,
    ensures
        reply_of(m) matches Some(r) ==> spec_step(
            h,
            Event::Inbound(DecodeOutcome::Decoded(m)),
        ).1 == Action::Send(r),
        reply_of(m) is None ==> spec_step(h, Event::Inbound(DecodeOutcome::Decoded(m))).1
            == Action::Wait,
{
}

} // verus!
