use echo_server::handler::Phase;
use echo_server::message::CloseReason;
use echo_server::message::DecodeOutcome;
use echo_server::message::Message;
use echo_server::session::run_session;

fn welcome() -> Message {
    Message::Text("Welcome to the Echo Server!".to_string())
}

fn text(s: &str) -> DecodeOutcome {
    DecodeOutcome::Decoded(Message::Text(s.to_string()))
}

#[test]
fn end_to_end_scenario() {
    // Connect, expect the welcome; echo a text message; ping draws a pong
    // with the same payload; close with reason 1000 draws a bare close
    // acknowledgment and the connection reports closed.
    let inbound = vec![
        text("ping-test"),
        DecodeOutcome::Decoded(Message::Ping(vec![0x01, 0x02])),
        DecodeOutcome::Decoded(Message::Close(Some(CloseReason {
            code: 1000,
            phrase: String::new(),
        }))),
    ];
    let (out, h) = run_session(inbound);
    assert_eq!(
        out,
        vec![
            welcome(),
            Message::Text("ping-test".to_string()),
            Message::Pong(vec![0x01, 0x02]),
            Message::Close(None),
        ]
    );
    assert_eq!(h.phase, Phase::Closed);
}

#[test]
fn welcome_comes_before_any_echo() {
    let (out, _) = run_session(vec![text("first")]);
    assert_eq!(out[0], welcome());
    assert_eq!(out[1], Message::Text("first".to_string()));
}

#[test]
fn welcome_comes_even_to_a_silent_peer() {
    let (out, h) = run_session(vec![]);
    assert_eq!(out, vec![welcome()]);
    assert_eq!(h.phase, Phase::Established);
}

#[test]
fn text_messages_echo_in_sent_order() {
    let (out, _) = run_session(vec![text("a"), text("b"), text("c")]);
    assert_eq!(
        out,
        vec![
            welcome(),
            Message::Text("a".to_string()),
            Message::Text("b".to_string()),
            Message::Text("c".to_string()),
        ]
    );
}

#[test]
fn binary_payload_echoes_verbatim() {
    let (out, _) = run_session(vec![DecodeOutcome::Decoded(Message::Binary(vec![
        0, 1, 254, 255,
    ]))]);
    assert_eq!(out, vec![welcome(), Message::Binary(vec![0, 1, 254, 255])]);
}

#[test]
fn pong_draws_no_reply() {
    let (out, h) = run_session(vec![DecodeOutcome::Decoded(Message::Pong(vec![9]))]);
    assert_eq!(out, vec![welcome()]);
    assert_eq!(h.phase, Phase::Established);
}

#[test]
fn tolerable_failure_then_text_still_echoes() {
    let (out, h) = run_session(vec![DecodeOutcome::TolerableError, text("still here")]);
    assert_eq!(out, vec![welcome(), Message::Text("still here".to_string())]);
    assert_eq!(h.phase, Phase::Established);
}

#[test]
fn fatal_failure_ends_the_session() {
    let (out, h) = run_session(vec![text("kept"), DecodeOutcome::FatalError, text("lost")]);
    assert_eq!(out, vec![welcome(), Message::Text("kept".to_string())]);
    assert_eq!(h.phase, Phase::Closed);
}

#[test]
fn close_without_reason_draws_bare_ack() {
    let (out, h) = run_session(vec![DecodeOutcome::Decoded(Message::Close(None))]);
    assert_eq!(out, vec![welcome(), Message::Close(None)]);
    assert_eq!(h.phase, Phase::Closed);
}

#[test]
fn nothing_follows_the_close_ack() {
    let (out, h) = run_session(vec![
        DecodeOutcome::Decoded(Message::Close(None)),
        text("after"),
        DecodeOutcome::Decoded(Message::Ping(vec![3])),
    ]);
    assert_eq!(out, vec![welcome(), Message::Close(None)]);
    assert_eq!(h.phase, Phase::Closed);
}

#[test]
fn unrecognized_frame_is_skipped() {
    let (out, _) = run_session(vec![
        DecodeOutcome::Decoded(Message::Unrecognized),
        text("x"),
    ]);
    assert_eq!(out, vec![welcome(), Message::Text("x".to_string())]);
}

#[test]
fn two_peers_each_get_only_their_own_echoes() {
    let (out_a, _) = run_session(vec![text("from a"), text("a again")]);
    let (out_b, _) = run_session(vec![
        text("from b"),
        DecodeOutcome::Decoded(Message::Ping(vec![0xbb])),
    ]);
    assert_eq!(
        out_a,
        vec![
            welcome(),
            Message::Text("from a".to_string()),
            Message::Text("a again".to_string()),
        ]
    );
    assert_eq!(
        out_b,
        vec![
            welcome(),
            Message::Text("from b".to_string()),
            Message::Pong(vec![0xbb]),
        ]
    );
}
