//! Isolation across connections: two peers, each with its own handler and
//! no shared state, are driven under an arbitrary interleaving, and each
//! still receives exactly its own session's replies, in its own order.

use vstd::prelude::*;

use crate::message::DecodeOutcome;
use crate::message::Message;
use crate::session::is_terminal;
use crate::session::replies_owed;
use crate::session::session_replies;

verus! {

/// One scheduling turn for a peer: its next inbound unit is consumed and
/// the replies it draws are emitted. A terminal unit ends the session, so
/// the rest of that peer's input is discarded; an exhausted input changes
/// nothing.
pub open spec fn consume_one(s: Seq<DecodeOutcome>) -> (Seq<DecodeOutcome>, Seq<Message>) {
    if s.len() == 0 {
        (s, Seq::empty())
    } else if is_terminal(s[0]) {
        (Seq::empty(), replies_owed(s[0]))
    } else {
        (s.drop_first(), replies_owed(s[0]))
    }
}

/// One scheduling turn accounts for exactly the replies the session model
/// owes for the consumed unit.
pub proof fn lemma_consume_one(s: Seq<DecodeOutcome>)
    ensures
        session_replies(s) == consume_one(s).1 + session_replies(consume_one(s).0),
{
    if s.len() == 0 {
        assert(consume_one(s).1 + session_replies(s) =~= session_replies(s));
    } else if is_terminal(s[0]) {
        assert(session_replies(consume_one(s).0) =~= Seq::<Message>::empty());
        assert(consume_one(s).1 + Seq::<Message>::empty() =~= consume_one(s).1);
    }
}

/// Messages stamped with the connection they are delivered on: `true` for
/// the first peer, `false` for the second.
pub open spec fn tag_all(tag: bool, msgs: Seq<Message>) -> Seq<(bool, Message)>
    decreases msgs.len(),
{
    if msgs.len() == 0 {
        Seq::empty()
    } else {
        seq![(tag, msgs[0])] + tag_all(tag, msgs.drop_first())
    }
}

/// The combined delivery trace of two independently scheduled handlers:
/// `sched` names, turn by turn, which peer's handler runs next; each turn
/// consumes that peer's next inbound unit and emits its replies, stamped
/// with that peer's connection.
pub open spec fn interleaved_trace(
    a: Seq<DecodeOutcome>,
    b: Seq<DecodeOutcome>,
    sched: Seq<bool>,
) -> Seq<(bool, Message)>
    decreases sched.len(),
{
    if sched.len() == 0 {
        Seq::empty()
    } else if sched[0] {
        tag_all(true, consume_one(a).1) + interleaved_trace(consume_one(a).0, b, sched.drop_first())
    } else {
        tag_all(false, consume_one(b).1) + interleaved_trace(
            a,
            consume_one(b).0,
            sched.drop_first(),
        )
    }
}

/// What one peer receives: the messages of the trace stamped with its
/// connection, in trace order.
pub open spec fn delivered_to(tag: bool, trace: Seq<(bool, Message)>) -> Seq<Message>
    decreases trace.len(),
{
    if trace.len() == 0 {
        Seq::empty()
    } else if trace[0].0 == tag {
        seq![trace[0].1] + delivered_to(tag, trace.drop_first())
    } else {
        delivered_to(tag, trace.drop_first())
    }
}

/// How many turns a schedule grants one peer.
pub open spec fn turns_for(sched: Seq<bool>, tag: bool) -> nat
    decreases sched.len(),
{
    if sched.len() == 0 {
        0
    } else {
        (if sched[0] == tag {
            1nat
        } else {
            0nat
        }) + turns_for(sched.drop_first(), tag)
    }
}

/// A burst of messages stamped for one peer is delivered whole to that
/// peer, and is invisible to the other.
pub proof fn lemma_delivered_burst(tag: bool, msgs: Seq<Message>, rest: Seq<(bool, Message)>)
    ensures
        delivered_to(tag, tag_all(tag, msgs) + rest) == msgs + delivered_to(tag, rest),
        delivered_to(!tag, tag_all(tag, msgs) + rest) == delivered_to(!tag, rest),
    decreases msgs.len(),
{
    if msgs.len() == 0 {
        assert(tag_all(tag, msgs) + rest =~= rest);
        assert(msgs + delivered_to(tag, rest) =~= delivered_to(tag, rest));
    } else {
        let whole = tag_all(tag, msgs) + rest;
        assert(whole[0] == (tag, msgs[0]));
        assert(whole.drop_first() =~= tag_all(tag, msgs.drop_first()) + rest);
        lemma_delivered_burst(tag, msgs.drop_first(), rest);
        assert(seq![msgs[0]] + (msgs.drop_first() + delivered_to(tag, rest)) =~= msgs
            + delivered_to(tag, rest));
    }
}

/// Isolation: under any schedule long enough to drive both handlers
/// through their inputs, each peer receives exactly its own session's
/// replies, in its own sent order — never the other peer's traffic, and
/// never a reordering of its own.
pub proof fn lemma_peer_isolation(
    a: Seq<DecodeOutcome>,
    b: Seq<DecodeOutcome>,
    sched: Seq<bool>,
)
    requires
        turns_for(sched, true) >= a.len(),
        turns_for(sched, false) >= b.len(),
    ensures
        delivered_to(true, interleaved_trace(a, b, sched)) == session_replies(a),
        delivered_to(false, interleaved_trace(a, b, sched)) == session_replies(b),
    decreases sched.len(),
{
    if sched.len() == 0 {
        assert(a.len() == 0);
        assert(b.len() == 0);
    } else if sched[0] {
        let a2 = consume_one(a).0;
        let out = consume_one(a).1;
        lemma_peer_isolation(a2, b, sched.drop_first());
        lemma_delivered_burst(true, out, interleaved_trace(a2, b, sched.drop_first()));
        lemma_consume_one(a);
    } else {
        let b2 = consume_one(b).0;
        let out = consume_one(b).1;
        lemma_peer_isolation(a, b2, sched.drop_first());
        lemma_delivered_burst(false, out, interleaved_trace(a, b2, sched.drop_first()));
        lemma_consume_one(b);
    }
}

} // verus!
