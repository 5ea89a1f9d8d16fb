use tinychat::envelope::{unknown_command, ClientMessage, ProtocolError};
use tinychat::events::Disconnect;
use tinychat::socket_session::{Frame, Reaction, SocketSession, CLIENT_TIMEOUT, HEARTBEAT_INTERVAL};

const ALICE: u128 = 0x936da01f_9abd_4d9d_80c7_02af85c822a8;
const BOB: u128 = 2;

fn registered(id: usize, now: u64) -> SocketSession {
    let mut session = SocketSession::new(now);
    assert!(matches!(session.started(Some(id)), Reaction::Idle));
    session
}

fn notice_of(reaction: Reaction) -> Option<(usize, Option<u128>)> {
    match reaction {
        Reaction::Stop { notice, .. } => notice.map(|n: Disconnect| (n.id, n.user_id)),
        _ => panic!("the session did not stop"),
    }
}

#[test]
fn timing_constants_are_five_and_ten_seconds() {
    assert_eq!(HEARTBEAT_INTERVAL, 5_000);
    assert_eq!(CLIENT_TIMEOUT, 10_000);
}

#[test]
fn a_new_session_is_unregistered_and_anonymous() {
    let session = SocketSession::new(77);
    assert_eq!(session.id, 0);
    assert_eq!(session.hb, 77);
    assert_eq!(session.user_id, None);
    assert!(!session.registered);
    assert!(!session.closed);
}

#[test]
fn registration_stores_the_identifier() {
    let session = registered(41, 0);
    assert_eq!(session.id, 41);
    assert!(session.registered);
}

#[test]
fn failed_registration_stops_without_notice() {
    let mut session = SocketSession::new(0);
    let reaction = session.started(None);
    assert_eq!(notice_of(reaction), None);
    assert!(session.closed);
    assert!(session.stopping().is_none());
}

#[test]
fn heartbeat_pings_until_the_timeout_has_passed() {
    let mut session = registered(3, 1_000);
    assert!(matches!(session.hb(1_000), Reaction::Ping));
    assert!(matches!(session.hb(11_000), Reaction::Ping));
    assert!(matches!(session.hb(500), Reaction::Ping));
    assert!(!session.closed);
}

#[test]
fn silent_session_is_disconnected_exactly_once() {
    let mut session = registered(3, 1_000);
    session.authenticated(Some(ALICE));
    let reaction = session.hb(11_001);
    assert_eq!(notice_of(reaction), Some((3, Some(ALICE))));
    assert!(session.closed);
    assert!(matches!(session.hb(20_000), Reaction::Idle));
    assert!(matches!(session.hb(30_000), Reaction::Idle));
    assert!(session.stopping().is_none());
    assert!(matches!(session.handle(Frame::Close, 30_000), Reaction::Idle));
}

#[test]
fn ping_and_pong_refresh_the_heartbeat() {
    let mut session = registered(3, 0);
    match session.handle(Frame::Ping(vec![1, 2, 3]), 9_000) {
        Reaction::Pong(payload) => assert_eq!(payload, vec![1, 2, 3]),
        _ => panic!("a ping is answered with a pong"),
    }
    assert_eq!(session.hb, 9_000);
    assert!(matches!(session.hb(19_000), Reaction::Ping));
    assert!(matches!(session.handle(Frame::Pong, 19_500), Reaction::Idle));
    assert_eq!(session.hb, 19_500);
    assert!(matches!(session.hb(29_500), Reaction::Ping));
    assert!(matches!(session.hb(29_501), Reaction::Stop { .. }));
}

#[test]
fn text_frames_do_not_refresh_the_heartbeat() {
    let mut session = registered(3, 0);
    session.handle(Frame::Text("{\"op\":\"hello\",\"d\":1}".to_string()), 9_000);
    assert_eq!(session.hb, 0);
}

#[test]
fn auth_frame_asks_the_hub() {
    let mut session = registered(12, 0);
    match session.handle(Frame::Text("{\"op\":\"auth\",\"d\":\"validtoken123\"}".to_string()), 5) {
        Reaction::Authenticate(auth) => {
            assert_eq!(auth.access_token, "validtoken123");
            assert_eq!(auth.id, 12);
        }
        _ => panic!("an auth frame is forwarded"),
    }
    assert!(!session.closed);
}

#[test]
fn auth_frame_is_trimmed_before_it_is_read() {
    let mut session = registered(12, 0);
    let frame = Frame::Text("  \n{\"op\":\"auth\",\"d\":\"t\"}\t ".to_string());
    assert!(matches!(session.handle(frame, 5), Reaction::Authenticate(_)));
}

#[test]
fn white_space_that_json_does_not_know_is_trimmed_too() {
    let mut session = registered(12, 0);
    let frame = Frame::Text("\u{a0}\u{2003}{\"op\":\"auth\",\"d\":\"t\"}\u{3000}".to_string());
    assert!(matches!(session.handle(frame, 5), Reaction::Authenticate(_)));
    assert!(ClientMessage::parse("\u{a0}{\"op\":\"x\"}").is_ok());
}

#[test]
fn auth_reply_binds_the_user_and_tells_the_client() {
    let mut session = registered(12, 0);
    match session.authenticated(Some(ALICE)) {
        Reaction::Text(frame) => assert_eq!(
            frame,
            "{\"op\":\"auth-good\",\"d\":\"936da01f-9abd-4d9d-80c7-02af85c822a8\"}"
        ),
        _ => panic!("the client is told"),
    }
    assert_eq!(session.user_id, Some(ALICE));
    match session.authenticated(Some(BOB)) {
        Reaction::Text(frame) => assert_eq!(
            frame,
            "{\"op\":\"auth-good\",\"d\":\"00000000-0000-0000-0000-000000000002\"}"
        ),
        _ => panic!("the client is told"),
    }
    assert_eq!(session.user_id, Some(BOB));
}

#[test]
fn refused_auth_keeps_the_previous_binding() {
    let mut session = registered(12, 0);
    session.authenticated(Some(ALICE));
    match session.authenticated(None) {
        Reaction::Text(frame) => assert_eq!(frame, "{\"op\":\"auth-good\",\"d\":null}"),
        _ => panic!("the client is told"),
    }
    assert_eq!(session.user_id, Some(ALICE));
}

#[test]
fn unknown_operation_is_echoed_and_the_session_stays_open() {
    let mut session = registered(12, 0);
    match session.handle(Frame::Text("{\"op\":\"hello\",\"d\":null}".to_string()), 5) {
        Reaction::Text(reply) => assert_eq!(reply, "!!! unknown command: \"hello\""),
        _ => panic!("an unknown operation is echoed"),
    }
    match session.handle(Frame::Text("{\"op\":\"dance\"}".to_string()), 5) {
        Reaction::Text(reply) => assert_eq!(reply, "!!! unknown command: \"dance\""),
        _ => panic!("an unknown operation is echoed"),
    }
    assert!(!session.closed);
    assert_eq!(unknown_command("a\"b"), "!!! unknown command: \"a\\\"b\"");
}

#[test]
fn malformed_text_ends_the_session() {
    for text in ["not json", "[1,2]", "{\"d\":1}", "{\"op\":5}", "{\"op\":\"auth\"}", "{\"op\":\"auth\",\"d\":7}"] {
        let mut session = registered(12, 0);
        let reaction = session.handle(Frame::Text(text.to_string()), 5);
        assert_eq!(notice_of(reaction), Some((12, None)), "{}", text);
        assert!(session.closed);
    }
}

#[test]
fn binary_and_nop_frames_are_ignored() {
    let mut session = registered(12, 0);
    assert!(matches!(session.handle(Frame::Binary, 5), Reaction::Idle));
    assert!(matches!(session.handle(Frame::Nop, 5), Reaction::Idle));
    assert!(!session.closed);
    assert_eq!(session.hb, 0);
}

#[test]
fn close_continuation_and_error_end_the_session() {
    let mut a = registered(1, 0);
    match a.handle(Frame::Close, 5) {
        Reaction::Stop { notice, close } => {
            assert!(close);
            assert_eq!(notice.map(|n| n.id), Some(1));
        }
        _ => panic!("a close frame ends the session"),
    }
    let mut b = registered(2, 0);
    match b.handle(Frame::Continuation, 5) {
        Reaction::Stop { notice, close } => {
            assert!(!close);
            assert_eq!(notice.map(|n| n.id), Some(2));
        }
        _ => panic!("a continuation frame ends the session"),
    }
    let mut c = registered(3, 0);
    assert_eq!(notice_of(c.handle(Frame::Error, 5)), Some((3, None)));
    assert!(c.stopping().is_none());
}

#[test]
fn teardown_notifies_once() {
    let mut session = registered(8, 0);
    session.authenticated(Some(ALICE));
    let notice = session.stopping().expect("the hub is told");
    assert_eq!(notice.id, 8);
    assert_eq!(notice.user_id, Some(ALICE));
    assert!(session.stopping().is_none());
    assert!(matches!(session.hb(1_000_000), Reaction::Idle));
}

#[test]
fn unregistered_session_takes_no_input() {
    let mut session = SocketSession::new(0);
    let frame = Frame::Text("{\"op\":\"auth\",\"d\":\"t\"}".to_string());
    assert!(matches!(session.handle(frame, 5), Reaction::Idle));
    assert!(matches!(session.authenticated(Some(ALICE)), Reaction::Idle));
    assert_eq!(session.user_id, None);
    assert!(session.stopping().is_none());
}

#[test]
fn envelope_parses_op_and_payload() {
    let message = ClientMessage::parse("{\"op\":\"auth\",\"d\":\"tok\",\"extra\":true}").unwrap();
    assert_eq!(message.op, "auth");
    assert_eq!(message.d, Some(serde_json::Value::from("tok")));
    let bare = ClientMessage::parse("{\"op\":\"x\"}").unwrap();
    assert_eq!(bare.d, None);
    let null = ClientMessage::parse("{\"op\":\"x\",\"d\":null}").unwrap();
    assert_eq!(null.d, Some(serde_json::Value::Null));
}

#[test]
fn envelope_rejects_what_is_no_message() {
    assert!(matches!(ClientMessage::parse("{"), Err(ProtocolError::NotJson)));
    assert!(matches!(ClientMessage::parse(""), Err(ProtocolError::NotJson)));
    assert!(matches!(ClientMessage::parse("7"), Err(ProtocolError::NoOp)));
    assert!(matches!(ClientMessage::parse("{\"d\":1}"), Err(ProtocolError::NoOp)));
    assert!(matches!(ClientMessage::parse("{\"op\":null}"), Err(ProtocolError::NoOp)));
}

#[test]
fn envelope_writes_op_before_payload_and_escapes_both() {
    let message = ClientMessage { op: "a\"b\n".to_string(), d: Some(serde_json::Value::from("x\\y")) };
    assert_eq!(message.to_frame(), "{\"op\":\"a\\\"b\\n\",\"d\":\"x\\\\y\"}");
    let empty = ClientMessage { op: "ping".to_string(), d: None };
    assert_eq!(empty.to_frame(), "{\"op\":\"ping\",\"d\":null}");
    let back = ClientMessage::parse(&message.to_frame()).unwrap();
    assert_eq!(back.op, message.op);
    assert_eq!(back.d, message.d);
}

#[test]
fn envelope_greeting_counts_in_decimal() {
    assert_eq!(ClientMessage::hi(0).to_frame(), "{\"op\":\"hi\",\"d\":0}");
    assert_eq!(ClientMessage::hi(1234567890).to_frame(), "{\"op\":\"hi\",\"d\":1234567890}");
    assert_eq!(
        ClientMessage::hi(usize::MAX).to_frame(),
        format!("{{\"op\":\"hi\",\"d\":{}}}", usize::MAX)
    );
}

#[test]
fn envelope_describes_itself_for_the_log() {
    let full = ClientMessage { op: "hi".to_string(), d: Some(serde_json::Value::from(3u64)) };
    assert_eq!(full.display(), "ClientMessage { op: hi, d: 3 }");
    let bare = ClientMessage { op: "hi".to_string(), d: None };
    assert_eq!(bare.display(), "Client Message { op: hi, d: None }");
}
