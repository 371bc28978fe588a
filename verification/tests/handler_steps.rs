use echo_server::handler::Action;
use echo_server::handler::Event;
use echo_server::handler::Handler;
use echo_server::handler::PendingWrite;
use echo_server::handler::Phase;
use echo_server::message::CloseReason;
use echo_server::message::DecodeOutcome;
use echo_server::message::Message;
use echo_server::message::reply_to;
use echo_server::message::welcome_message;

#[test]
fn welcome_is_the_fixed_text() {
    assert_eq!(
        welcome_message(),
        Message::Text("Welcome to the Echo Server!".to_string())
    );
}

#[test]
fn reply_echoes_text_verbatim() {
    let r = reply_to(Message::Text("hello".to_string()));
    assert_eq!(r, Some(Message::Text("hello".to_string())));
}

#[test]
fn reply_echoes_binary_verbatim() {
    let r = reply_to(Message::Binary(vec![0, 127, 255]));
    assert_eq!(r, Some(Message::Binary(vec![0, 127, 255])));
}

#[test]
fn reply_to_ping_is_pong_with_same_payload() {
    let r = reply_to(Message::Ping(vec![1, 2]));
    assert_eq!(r, Some(Message::Pong(vec![1, 2])));
}

#[test]
fn reply_to_pong_is_nothing() {
    assert_eq!(reply_to(Message::Pong(vec![9])), None);
}

#[test]
fn reply_to_close_is_bare_close() {
    let reason = CloseReason {
        code: 1000,
        phrase: "bye".to_string(),
    };
    let r = reply_to(Message::Close(Some(reason)));
    assert_eq!(r, Some(Message::Close(None)));
}

#[test]
fn reply_to_unrecognized_is_nothing() {
    assert_eq!(reply_to(Message::Unrecognized), None);
}

#[test]
fn happy_path_reaches_established_and_greets() {
    let mut h = Handler::new();
    assert_eq!(h.phase, Phase::Accepted);
    assert_eq!(h.step(Event::AddrResolved), Action::Upgrade);
    assert_eq!(h.phase, Phase::Handshaking);
    assert_eq!(h.step(Event::UpgradeOk), Action::SendWelcome);
    assert_eq!(h.phase, Phase::Established);
    assert_eq!(h.pending, PendingWrite::Welcome);
    assert_eq!(h.step(Event::WriteOk), Action::Wait);
    assert_eq!(h.pending, PendingWrite::Idle);
}

#[test]
fn address_failure_abandons_the_connection() {
    let mut h = Handler::new();
    assert_eq!(h.step(Event::AddrFailed), Action::Release);
    assert_eq!(h.phase, Phase::Closed);
}

#[test]
fn handshake_failure_abandons_the_connection() {
    let mut h = Handler::new();
    let _ = h.step(Event::AddrResolved);
    assert_eq!(h.step(Event::UpgradeFailed), Action::Release);
    assert_eq!(h.phase, Phase::Closed);
}

#[test]
fn welcome_send_failure_closes_the_connection() {
    let mut h = Handler::new();
    let _ = h.step(Event::AddrResolved);
    let _ = h.step(Event::UpgradeOk);
    assert_eq!(h.step(Event::WriteFailed), Action::Release);
    assert_eq!(h.phase, Phase::Closed);
}

fn established() -> Handler {
    let mut h = Handler::new();
    let _ = h.step(Event::AddrResolved);
    let _ = h.step(Event::UpgradeOk);
    let _ = h.step(Event::WriteOk);
    h
}

#[test]
fn text_echo_failure_ends_the_loop() {
    let mut h = established();
    let act = h.step(Event::Inbound(DecodeOutcome::Decoded(Message::Text(
        "hi".to_string(),
    ))));
    assert_eq!(act, Action::Send(Message::Text("hi".to_string())));
    assert_eq!(h.step(Event::WriteFailed), Action::Release);
    assert_eq!(h.phase, Phase::Draining);
    assert_eq!(h.step(Event::Released), Action::Wait);
    assert_eq!(h.phase, Phase::Closed);
}

#[test]
fn binary_echo_failure_is_tolerated() {
    let mut h = established();
    let act = h.step(Event::Inbound(DecodeOutcome::Decoded(Message::Binary(
        vec![7],
    ))));
    assert_eq!(act, Action::Send(Message::Binary(vec![7])));
    assert_eq!(h.step(Event::WriteFailed), Action::Wait);
    assert_eq!(h.phase, Phase::Established);
    assert_eq!(h.pending, PendingWrite::Idle);
}

#[test]
fn pong_reply_failure_is_tolerated() {
    let mut h = established();
    let act = h.step(Event::Inbound(DecodeOutcome::Decoded(Message::Ping(
        vec![1],
    ))));
    assert_eq!(act, Action::Send(Message::Pong(vec![1])));
    assert_eq!(h.step(Event::WriteFailed), Action::Wait);
    assert_eq!(h.phase, Phase::Established);
}

#[test]
fn tolerable_decode_failure_keeps_the_loop_running() {
    let mut h = established();
    assert_eq!(
        h.step(Event::Inbound(DecodeOutcome::TolerableError)),
        Action::Wait
    );
    assert_eq!(h.phase, Phase::Established);
}

#[test]
fn fatal_decode_failure_ends_the_loop() {
    let mut h = established();
    assert_eq!(
        h.step(Event::Inbound(DecodeOutcome::FatalError)),
        Action::Release
    );
    assert_eq!(h.phase, Phase::Draining);
    assert_eq!(h.step(Event::Released), Action::Wait);
    assert_eq!(h.phase, Phase::Closed);
}

#[test]
fn inbound_stream_end_releases_the_transport() {
    let mut h = established();
    assert_eq!(h.step(Event::InboundEnded), Action::Release);
    assert_eq!(h.phase, Phase::Draining);
}

#[test]
fn close_request_draws_ack_then_ends() {
    let mut h = established();
    let reason = CloseReason {
        code: 1001,
        phrase: "going away".to_string(),
    };
    let act = h.step(Event::Inbound(DecodeOutcome::Decoded(Message::Close(
        Some(reason),
    ))));
    assert_eq!(act, Action::Send(Message::Close(None)));
    assert_eq!(h.step(Event::WriteOk), Action::Release);
    assert_eq!(h.phase, Phase::Draining);
    assert_eq!(h.step(Event::Released), Action::Wait);
    assert_eq!(h.phase, Phase::Closed);
}

#[test]
fn unrecognized_frame_is_discarded_silently() {
    let mut h = established();
    assert_eq!(
        h.step(Event::Inbound(DecodeOutcome::Decoded(Message::Unrecognized))),
        Action::Wait
    );
    assert_eq!(h.phase, Phase::Established);
}
