use tinychat::delivery::Delivery;
use tinychat::events::{Disconnect, NewMessage};
use tinychat::socket_session::{Frame, Reaction, SocketSession};
use tinychat::ws_server::WsServer;

const UID: u128 = 0x11111111_2222_3333_4444_555555555555;
const OTHER: u128 = 0xaaaaaaaa_bbbb_cccc_dddd_eeeeeeeeeeee;
const STRANGER: u128 = 0x99999999_0000_0000_0000_000000000000;

/// Stands for the token verifier: one token is good.
fn verify(token: &str) -> Option<u128> {
    if token == "validtoken123" {
        Some(UID)
    } else if token == "othertoken456" {
        Some(OTHER)
    } else {
        None
    }
}

fn open(hub: &mut WsServer, candidate: usize) -> SocketSession {
    let mut session = SocketSession::new(0);
    let connected = hub.connect_with(candidate);
    session.started(Some(connected.id));
    session
}

/// Feeds a text frame to a session and carries out an authentication
/// request at the hub. Returns what the client got and what the hub sent.
fn say(hub: &mut WsServer, session: &mut SocketSession, text: &str) -> (Option<String>, Vec<Delivery>) {
    match session.handle(Frame::Text(text.to_string()), 0) {
        Reaction::Authenticate(auth) => {
            let outcome = hub.authenticate(verify(&auth.access_token), auth.id);
            match session.authenticated(outcome.user_id) {
                Reaction::Text(reply) => (Some(reply), outcome.deliveries),
                _ => (None, outcome.deliveries),
            }
        }
        Reaction::Text(reply) => (Some(reply), Vec::new()),
        _ => (None, Vec::new()),
    }
}

fn frames_for(sent: &[Delivery], session: usize) -> Vec<String> {
    sent.iter().filter(|d| d.session == session).map(|d| d.frame.clone()).collect()
}

#[test]
fn scenario_valid_token_is_confirmed_and_announced() {
    let mut hub = WsServer::new(0);
    let mut me = open(&mut hub, 100);
    let bystander = open(&mut hub, 200);
    let (reply, sent) = say(&mut hub, &mut me, "{\"op\":\"auth\",\"d\":\"validtoken123\"}");
    assert_eq!(
        reply.unwrap(),
        "{\"op\":\"auth-good\",\"d\":\"11111111-2222-3333-4444-555555555555\"}"
    );
    let online = "{\"op\":\"user_online\",\"d\":\"11111111-2222-3333-4444-555555555555\"}".to_string();
    assert_eq!(sent.len(), 2);
    assert_eq!(frames_for(&sent, me.id), vec![online.clone()]);
    assert_eq!(frames_for(&sent, bystander.id), vec![online]);
    assert_eq!(me.user_id, Some(UID));
}

#[test]
fn scenario_invalid_token_is_answered_with_null_and_nothing_else() {
    let mut hub = WsServer::new(0);
    let mut me = open(&mut hub, 100);
    let (reply, sent) = say(&mut hub, &mut me, "{\"op\":\"auth\",\"d\":\"bogus\"}");
    assert_eq!(reply.unwrap(), "{\"op\":\"auth-good\",\"d\":null}");
    assert!(sent.is_empty());
    assert_eq!(me.user_id, None);
    assert!(!hub.is_online(UID));
}

#[test]
fn scenario_two_devices_both_get_the_message_and_a_stranger_none() {
    let mut hub = WsServer::new(0);
    let mut phone = open(&mut hub, 1);
    let mut laptop = open(&mut hub, 2);
    let mut stranger = open(&mut hub, 3);
    say(&mut hub, &mut phone, "{\"op\":\"auth\",\"d\":\"validtoken123\"}");
    say(&mut hub, &mut laptop, "{\"op\":\"auth\",\"d\":\"validtoken123\"}");
    hub.authenticate(Some(STRANGER), stranger.id);
    stranger.authenticated(Some(STRANGER));
    let event = NewMessage {
        author_id: OTHER,
        conversation_id: 7,
        payload: serde_json::Value::from("hello"),
    };
    let sent = hub.handle_new_message(&event, &Some(vec![UID, OTHER]));
    assert_eq!(sent.len(), 2);
    assert_eq!(frames_for(&sent, phone.id).len(), 1);
    assert_eq!(frames_for(&sent, laptop.id).len(), 1);
    assert_eq!(frames_for(&sent, stranger.id).len(), 0);
}

#[test]
fn scenario_anonymous_session_leaves_without_a_trace() {
    let mut hub = WsServer::new(0);
    let mut known = open(&mut hub, 1);
    let mut anonymous = open(&mut hub, 2);
    say(&mut hub, &mut known, "{\"op\":\"auth\",\"d\":\"validtoken123\"}");
    let notice = anonymous.stopping().unwrap();
    assert_eq!(notice.user_id, None);
    let outcome = hub.disconnect(&notice);
    assert!(outcome.removed);
    assert!(outcome.deliveries.is_empty());
    assert_eq!(outcome.went_offline, None);
    assert_eq!(hub.presence_count(UID), 1);
    assert_eq!(hub.session_count(), 1);
}

#[test]
fn scenario_second_token_moves_the_session_to_the_other_user() {
    let mut hub = WsServer::new(0);
    let mut me = open(&mut hub, 1);
    let watcher = open(&mut hub, 2);
    say(&mut hub, &mut me, "{\"op\":\"auth\",\"d\":\"validtoken123\"}");
    let (reply, sent) = say(&mut hub, &mut me, "{\"op\":\"auth\",\"d\":\"othertoken456\"}");
    assert_eq!(
        reply.unwrap(),
        "{\"op\":\"auth-good\",\"d\":\"aaaaaaaa-bbbb-cccc-dddd-eeeeeeeeeeee\"}"
    );
    assert_eq!(
        frames_for(&sent, watcher.id),
        vec![
            "{\"op\":\"user_offline\",\"d\":\"11111111-2222-3333-4444-555555555555\"}".to_string(),
            "{\"op\":\"user_online\",\"d\":\"aaaaaaaa-bbbb-cccc-dddd-eeeeeeeeeeee\"}".to_string(),
        ]
    );
    assert_eq!(hub.presence_count(UID), 0);
    assert_eq!(hub.presence_count(OTHER), 1);
    assert!(!hub.is_online(UID));
    assert_eq!(me.user_id, Some(OTHER));
}

#[test]
fn scenario_timeout_and_teardown_reach_the_hub_as_one_disconnect() {
    let mut hub = WsServer::new(0);
    let mut me = open(&mut hub, 1);
    let watcher = open(&mut hub, 2);
    say(&mut hub, &mut me, "{\"op\":\"auth\",\"d\":\"validtoken123\"}");
    let mut notices: Vec<Disconnect> = Vec::new();
    for now in [5_000u64, 10_000, 15_000, 20_000, 25_000] {
        if let Reaction::Stop { notice: Some(notice), .. } = me.hb(now) {
            notices.push(notice);
        }
    }
    if let Some(notice) = me.stopping() {
        notices.push(notice);
    }
    assert_eq!(notices.len(), 1);
    let outcome = hub.disconnect(&notices[0]);
    assert_eq!(outcome.went_offline, Some(UID));
    assert_eq!(
        frames_for(&outcome.deliveries, watcher.id),
        vec!["{\"op\":\"user_offline\",\"d\":\"11111111-2222-3333-4444-555555555555\"}".to_string()]
    );
    assert_eq!(outcome.deliveries.len(), 1);
    assert_eq!(hub.session_count(), 1);
}

#[test]
fn scenario_directory_counts_connects_minus_disconnects() {
    let mut hub = WsServer::new(0);
    let mut open_now = 0usize;
    let mut ids = Vec::new();
    for round in 0..20usize {
        ids.push(hub.connect_with(round % 3).id);
        open_now += 1;
        assert_eq!(hub.session_count(), open_now);
        if round % 4 == 3 {
            let id = ids.remove(0);
            assert!(hub.disconnect(&Disconnect { id, user_id: None }).removed);
            open_now -= 1;
            assert!(!hub.disconnect(&Disconnect { id, user_id: None }).removed);
            assert_eq!(hub.session_count(), open_now);
        }
    }
    assert_eq!(hub.visitor_count(), 20);
}
