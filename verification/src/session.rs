//! A pure model of one connection's session: given the sequence of decoded
//! inbound units, it predicts the exact stream of replies the peer receives,
//! and `run_session` replays a whole session through the handler machine.

use vstd::prelude::*;

use crate::handler::Action;
use crate::handler::Event;
use crate::handler::Handler;
use crate::handler::PendingWrite;
use crate::handler::Phase;
use crate::message::CloseReason;
use crate::message::DecodeOutcome;
use crate::message::Message;
use crate::message::is_welcome;
use crate::message::reply_of;
use crate::message::welcome_message;

verus! {

/// Whether this inbound unit ends the receive loop: a close request ends it
/// after the acknowledgment, a fatal decode or transport error ends it
/// outright.
pub open spec fn is_terminal(o: DecodeOutcome) -> bool {
    match o {
        DecodeOutcome::Decoded(m) => m is Close,
        DecodeOutcome::TolerableError => false,
        DecodeOutcome::FatalError => true,
    }
}

/// The replies one inbound unit draws: at most one message.
pub open spec fn replies_owed(o: DecodeOutcome) -> Seq<Message> {
    match o {
        DecodeOutcome::Decoded(m) => match reply_of(m) {
            Some(r) => seq![r],
            None => Seq::empty(),
        },
        DecodeOutcome::TolerableError => Seq::empty(),
        DecodeOutcome::FatalError => Seq::empty(),
    }
}

/// The full reply stream of one session, given its decoded inbound units in
/// order: each unit draws its reply until the first terminal unit, whose
/// reply (the bare close acknowledgment, or nothing after a fatal error)
/// ends the stream. Units after the terminal one draw nothing.
pub open spec fn session_replies(s: Seq<DecodeOutcome>) -> Seq<Message>
    decreases s.len(),
{
    if s.len() == 0 {
        Seq::empty()
    } else if is_terminal(s[0]) {
        replies_owed(s[0])
    } else {
        replies_owed(s[0]) + session_replies(s.drop_first())
    }
}

/// As long as no unit of `prefix` ends the loop, replies accumulate one
/// inbound unit at a time: the stream for `prefix + tail` is the stream for
/// `prefix` followed by the stream for `tail`.
pub proof fn lemma_replies_concat(prefix: Seq<DecodeOutcome>, tail: Seq<DecodeOutcome>)
    requires
        forall|i: int| 0 <= i < prefix.len() ==> !is_terminal(#[trigger] prefix[i]),
    ensures
        session_replies(prefix + tail) == session_replies(prefix) + session_replies(tail),
    decreases prefix.len(),
{
    if prefix.len() == 0 {
        assert(prefix + tail =~= tail);
        assert(session_replies(prefix) + session_replies(tail) =~= session_replies(tail));
    } else {
        let s = prefix + tail;
        assert(s[0] == prefix[0]);
        assert(s.drop_first() =~= prefix.drop_first() + tail);
        assert forall|i: int| 0 <= i < prefix.drop_first().len() implies !is_terminal(
            #[trigger] prefix.drop_first()[i],
        ) by {
            assert(prefix.drop_first()[i] == prefix[i + 1]);
        }
        lemma_replies_concat(prefix.drop_first(), tail);
        assert(replies_owed(prefix[0]) + (session_replies(prefix.drop_first()) + session_replies(
            tail,
        )) =~= (replies_owed(prefix[0]) + session_replies(prefix.drop_first())) + session_replies(
            tail,
        ));
    }
}

/// Whether this unit is a decoded text or binary message, the two kinds the
/// service echoes verbatim.
pub open spec fn is_echo_unit(o: DecodeOutcome) -> bool {
    o matches DecodeOutcome::Decoded(m) && (m is Text || m is Binary)
}

/// The message carried by a decoded unit.
pub open spec fn decoded_message(o: DecodeOutcome) -> Message {
    match o {
        DecodeOutcome::Decoded(m) => m,
        _ => Message::Unrecognized,
    }
}

/// Echo identity and ordering: a session of text and binary messages draws
/// exactly one reply per message, each the identical message, in the order
/// the messages were received.
pub proof fn lemma_echo_order(s: Seq<DecodeOutcome>)
    requires
        forall|i: int| 0 <= i < s.len() ==> is_echo_unit(#[trigger] s[i]),
    ensures
        session_replies(s).len() == s.len(),
        forall|i: int| 0 <= i < s.len() ==> session_replies(s)[i] == decoded_message(s[i]),
    decreases s.len(),
{
    if s.len() > 0 {
        let m = decoded_message(s[0]);
        assert(replies_owed(s[0]) == seq![m]);
        assert forall|i: int| 0 <= i < s.drop_first().len() implies is_echo_unit(
            #[trigger] s.drop_first()[i],
        ) by {
            assert(s.drop_first()[i] == s[i + 1]);
        }
        lemma_echo_order(s.drop_first());
        assert forall|i: int| 0 <= i < s.len() implies session_replies(s)[i] == decoded_message(
            s[i],
        ) by {
            if i > 0 {
                assert(session_replies(s)[i] == session_replies(s.drop_first())[i - 1]);
                assert(s.drop_first()[i - 1] == s[i]);
            }
        }
    }
}

/// The ping/pong contract: a ping with payload `p` draws exactly one pong
/// carrying `p`, and nothing else; the rest of the session is unaffected.
pub proof fn lemma_ping_pong(p: Vec<u8>, rest: Seq<DecodeOutcome>)
    ensures
        session_replies(seq![DecodeOutcome::Decoded(Message::Ping(p))] + rest) == seq![
            Message::Pong(p),
        ] + session_replies(rest),
{
    let o = DecodeOutcome::Decoded(Message::Ping(p));
    assert((seq![o] + rest)[0] == o);
    assert((seq![o] + rest).drop_first() =~= rest);
}

/// A pong is purely observational: it draws no reply at all.
pub proof fn lemma_pong_silent(p: Vec<u8>, rest: Seq<DecodeOutcome>)
    ensures
        session_replies(seq![DecodeOutcome::Decoded(Message::Pong(p))] + rest) == session_replies(
            rest,
        ),
{
    let o = DecodeOutcome::Decoded(Message::Pong(p));
    assert((seq![o] + rest)[0] == o);
    assert((seq![o] + rest).drop_first() =~= rest);
    assert(replies_owed(o) + session_replies(rest) =~= session_replies(rest));
}

/// The close handshake: whatever reason the peer attaches, a close request
/// draws exactly one bare close acknowledgment, and nothing follows it, no
/// matter what the peer sends afterwards.
pub proof fn lemma_close_handshake(
    prefix: Seq<DecodeOutcome>,
    reason: Option<CloseReason>,
    suffix: Seq<DecodeOutcome>,
)
    requires
        forall|i: int| 0 <= i < prefix.len() ==> !is_terminal(#[trigger] prefix[i]),
    ensures
        session_replies(prefix + seq![DecodeOutcome::Decoded(Message::Close(reason))] + suffix)
            == session_replies(prefix) + seq![Message::Close(None)],
{
    let o = DecodeOutcome::Decoded(Message::Close(reason));
    let tail = seq![o] + suffix;
    assert(prefix + seq![o] + suffix =~= prefix + tail);
    lemma_replies_concat(prefix, tail);
    assert(tail[0] == o);
    assert(session_replies(tail) == seq![Message::Close(None)]);
}

/// Tolerant decoding: one tolerable decode failure is discarded without a
/// trace — the reply stream is exactly what it would have been had the
/// malformed unit never arrived.
pub proof fn lemma_tolerable_transparent(prefix: Seq<DecodeOutcome>, suffix: Seq<DecodeOutcome>)
    requires
        forall|i: int| 0 <= i < prefix.len() ==> !is_terminal(#[trigger] prefix[i]),
    ensures
        session_replies(prefix + seq![DecodeOutcome::TolerableError] + suffix) == session_replies(
            prefix + suffix,
        ),
{
    let o = DecodeOutcome::TolerableError;
    let tail = seq![o] + suffix;
    assert(prefix + seq![o] + suffix =~= prefix + tail);
    lemma_replies_concat(prefix, tail);
    assert(tail[0] == o);
    assert(tail.drop_first() =~= suffix);
    assert(replies_owed(o) + session_replies(suffix) =~= session_replies(suffix));
    lemma_replies_concat(prefix, suffix);
}

/// Replays one whole session through the handler machine, for a peer whose
/// address resolves, whose upgrade succeeds, and whose writes all complete.
/// The peer receives the fixed welcome message first, then exactly the
/// replies `session_replies` predicts; the handler ends closed exactly when
/// some inbound unit ended the receive loop.
pub fn run_session(inbound: Vec<DecodeOutcome>) -> (r: (Vec<Message>, Handler))
    ensures
        r.0@.len() >= 1,
        is_welcome(r.0@[0]),
        r.0@.drop_first() == session_replies(inbound@),
        r.1.phase == Phase::Closed <==> exists|i: int|
            0 <= i < inbound@.len() && is_terminal(#[trigger] inbound@[i]),
        r.1.wf(),
{
    let mut rest = inbound;
    let mut out: Vec<Message> = Vec::new();
    let mut h = Handler::new();
    let _ = h.step(Event::AddrResolved);
    let _ = h.step(Event::UpgradeOk);
    out.push(welcome_message());
    let _ = h.step(Event::WriteOk);
    let mut live = true;
    let ghost mut seen: int = 0;
    while live && rest.len() > 0
        invariant
            out@.len() >= 1,
            is_welcome(out@[0]),
            0 <= seen <= inbound@.len(),
            rest@ == inbound@.skip(seen),
            live ==> h.phase == Phase::Established && h.pending == PendingWrite::Idle,
            !live ==> h.phase == Phase::Closed && h.pending == PendingWrite::Idle,
            live ==> forall|i: int| 0 <= i < seen ==> !is_terminal(#[trigger] inbound@[i]),
            !live ==> exists|i: int| 0 <= i < seen && is_terminal(#[trigger] inbound@[i]),
            live ==> out@.drop_first() + session_replies(rest@) == session_replies(inbound@),
            !live ==> out@.drop_first() == session_replies(inbound@),
        decreases rest@.len(),
    {
        let ghost rest0 = rest@;
        let o = rest.remove(0);
        proof {
            assert(rest0.remove(0) =~= rest0.drop_first());
            assert(rest0[0] == inbound@[seen]);
            assert(rest0.drop_first() =~= inbound@.skip(seen + 1));
        }
        let ghost out0 = out@;
        let act = h.step(Event::Inbound(o));
        match act {
            Action::Send(m) => {
                out.push(m);
                proof {
                    assert(out@.drop_first() =~= out0.drop_first() + seq![m]);
                }
                let ack = h.step(Event::WriteOk);
                if let Action::Release = ack {
                    // The close acknowledgment went out; the loop is over.
                    let _ = h.step(Event::Released);
                    live = false;
                    proof {
                        assert(is_terminal(rest0[0]));
                        assert(session_replies(rest0) == seq![m]);
                        assert(out@.drop_first() =~= out0.drop_first() + session_replies(rest0));
                    }
                } else {
                    proof {
                        assert(!is_terminal(rest0[0]));
                        assert(session_replies(rest0) == seq![m] + session_replies(
                            rest0.drop_first(),
                        ));
                        assert(out0.drop_first() + session_replies(rest0) =~= out@.drop_first()
                            + session_replies(rest@));
                    }
                }
            },
            Action::Release => {
                // A fatal decode or transport failure; nothing more goes out.
                let _ = h.step(Event::Released);
                live = false;
                proof {
                    assert(is_terminal(rest0[0]));
                    assert(session_replies(rest0) =~= Seq::<Message>::empty());
                    assert(out@.drop_first() + session_replies(rest0) =~= out@.drop_first());
                }
            },
            _ => {
                proof {
                    assert(!is_terminal(rest0[0]));
                    assert(replies_owed(rest0[0]) =~= Seq::<Message>::empty());
                    assert(session_replies(rest0) =~= session_replies(rest0.drop_first()));
                }
            },
        }
        proof {
            seen = seen + 1;
        }
    }
    proof {
        if live {
            assert(rest@.len() == 0);
            assert(seen == inbound@.len());
            assert(session_replies(rest@) =~= Seq::<Message>::empty());
            assert(out@.drop_first() + session_replies(rest@) =~= out@.drop_first());
        }
    }
    (out, h)
}

} // verus!
