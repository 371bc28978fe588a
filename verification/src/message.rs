//! The taxonomy of units exchanged over an upgraded connection, and the
//! canned reply each one calls for.

use vstd::prelude::*;
use vstd::string::StringExecFns;

verus! {

/// The optional reason a peer attaches to a close request.
#[derive(Clone, Debug, PartialEq, Eq)]
pub struct CloseReason {
    pub code: u16,
    pub phrase: String,
}

/// One decoded, application-visible unit received from (or sent to) a peer.
#[derive(Clone, Debug, PartialEq, Eq)]
pub enum Message {
    Text(String),
    Binary(Vec<u8>),
    Ping(Vec<u8>),
    Pong(Vec<u8>),
    Close(Option<CloseReason>),
    Unrecognized,
}

/// The outcome of decoding one inbound unit. A tolerable error (an
/// unsupported opcode) is discarded without ending the session; any other
/// decode or transport error ends it.
#[derive(Clone, Debug, PartialEq, Eq)]
pub enum DecodeOutcome {
    Decoded(Message),
    TolerableError,
    FatalError,
}

/// The reply the service owes for one decoded message: text and binary are
/// echoed verbatim, a ping earns a pong with the same payload, a close earns
/// a bare close acknowledgment, and pongs and unrecognized frames earn
/// nothing.
pub open spec fn reply_of(m: Message) -> Option<Message> {
    match m {
        Message::Text(t) => Some(Message::Text(t)),
        Message::Binary(b) => Some(Message::Binary(b)),
        Message::Ping(p) => Some(Message::Pong(p)),
        Message::Pong(_) => None,
        Message::Close(_) => Some(Message::Close(None)),
        Message::Unrecognized => None,
    }
}

/// Computes the reply owed for `m`, exactly as `reply_of` states it.
pub fn reply_to(m: Message) -> (r: Option<Message>)
    ensures
        r == reply_of(m),
{
    match m {
        Message::Text(t) => Some(Message::Text(t)),
        Message::Binary(b) => Some(Message::Binary(b)),
        Message::Ping(p) => Some(Message::Pong(p)),
        Message::Pong(_) => None,
        Message::Close(_) => Some(Message::Close(None)),
        Message::Unrecognized => None,
    }
}

/// The fixed greeting sent to every peer right after a successful upgrade.
pub open spec fn welcome_text() -> Seq<char> {
    "Welcome to the Echo Server!"@
}

/// Whether `m` is the fixed welcome message.
pub open spec fn is_welcome(m: Message) -> bool {
    m matches Message::Text(t) && t@ == welcome_text()
}

/// Builds the fixed welcome message.
pub fn welcome_message() -> (m: Message)
    ensures
        is_welcome(m),
{
    Message::Text(String::from_str("Welcome to the Echo Server!"))
}

} // verus!
