use tinychat::delivery::Delivery;
use tinychat::events::{Disconnect, MessageDeleted, NewMessage, NewUser, ReactionUpdateType, ReactionUpdated};
use tinychat::envelope::ClientMessage;
use tinychat::ws_server::WsServer;

const ALICE: u128 = 0x936da01f_9abd_4d9d_80c7_02af85c822a8;
const BOB: u128 = 0x00000000_0000_0000_0000_000000000001;
const CAROL: u128 = 0xffffffff_ffff_ffff_ffff_ffffffffffff;

fn targets(sent: &[Delivery]) -> Vec<usize> {
    let mut ids: Vec<usize> = sent.iter().map(|d| d.session).collect();
    ids.sort();
    ids
}

#[test]
fn connect_greets_every_open_session_with_the_previous_count() {
    let mut hub = WsServer::new(0);
    let first = hub.connect_with(7);
    assert_eq!(first.id, 7);
    assert_eq!(targets(&first.deliveries), vec![7]);
    assert_eq!(first.deliveries[0].frame, "{\"op\":\"hi\",\"d\":0}");
    let second = hub.connect_with(9);
    assert_eq!(second.id, 9);
    assert_eq!(targets(&second.deliveries), vec![7, 9]);
    for d in &second.deliveries {
        assert_eq!(d.frame, "{\"op\":\"hi\",\"d\":1}");
    }
    assert_eq!(hub.session_count(), 2);
    assert_eq!(hub.visitor_count(), 2);
}

#[test]
fn connect_never_reuses_a_live_identifier() {
    let mut hub = WsServer::new(0);
    assert_eq!(hub.connect_with(5).id, 5);
    assert_eq!(hub.connect_with(5).id, 6);
    assert_eq!(hub.connect_with(5).id, 7);
    assert_eq!(hub.connect_with(usize::MAX).id, usize::MAX);
    assert_eq!(hub.connect_with(usize::MAX).id, 0);
    assert_eq!(hub.session_count(), 5);
}

#[test]
fn authentication_announces_the_user_to_all_sessions() {
    let mut hub = WsServer::new(0);
    let a = hub.connect_with(1).id;
    let b = hub.connect_with(2).id;
    let outcome = hub.authenticate(Some(ALICE), a);
    assert_eq!(outcome.user_id, Some(ALICE));
    assert_eq!(outcome.went_offline, None);
    assert_eq!(targets(&outcome.deliveries), vec![a, b]);
    for d in &outcome.deliveries {
        assert_eq!(
            d.frame,
            "{\"op\":\"user_online\",\"d\":\"936da01f-9abd-4d9d-80c7-02af85c822a8\"}"
        );
    }
    assert!(hub.is_online(ALICE));
    assert_eq!(hub.bound_user(a), Some(ALICE));
    assert_eq!(hub.bound_user(b), None);
}

#[test]
fn failed_authentication_changes_nothing() {
    let mut hub = WsServer::new(0);
    let a = hub.connect_with(1).id;
    let outcome = hub.authenticate(None, a);
    assert_eq!(outcome.user_id, None);
    assert!(outcome.deliveries.is_empty());
    assert_eq!(hub.bound_user(a), None);
    let gone = hub.authenticate(Some(ALICE), 99);
    assert_eq!(gone.user_id, None);
    assert!(gone.deliveries.is_empty());
    assert!(!hub.is_online(ALICE));
}

#[test]
fn unicast_reaches_each_session_of_the_user_once() {
    let mut hub = WsServer::new(0);
    let ids: Vec<usize> = (0..4).map(|i| hub.connect_with(10 + i).id).collect();
    for id in &ids[..3] {
        hub.authenticate(Some(ALICE), *id);
    }
    hub.authenticate(Some(BOB), ids[3]);
    let msg = ClientMessage { op: "note".to_string(), d: Some(serde_json::Value::from(5u64)) };
    let sent = hub.send_message(&ALICE, &msg);
    assert_eq!(targets(&sent), vec![10, 11, 12]);
    for d in &sent {
        assert_eq!(d.frame, "{\"op\":\"note\",\"d\":5}");
    }
    assert_eq!(hub.presence_count(ALICE), 3);
    assert!(hub.send_message(&CAROL, &msg).is_empty());
}

#[test]
fn last_disconnect_sends_the_user_offline_once() {
    let mut hub = WsServer::new(0);
    let a = hub.connect_with(1).id;
    let b = hub.connect_with(2).id;
    let c = hub.connect_with(3).id;
    hub.authenticate(Some(ALICE), a);
    hub.authenticate(Some(ALICE), b);
    let first = hub.disconnect(&Disconnect { id: a, user_id: Some(ALICE) });
    assert!(first.removed);
    assert_eq!(first.went_offline, None);
    assert!(first.deliveries.is_empty());
    assert!(hub.is_online(ALICE));
    let last = hub.disconnect(&Disconnect { id: b, user_id: Some(ALICE) });
    assert_eq!(last.went_offline, Some(ALICE));
    assert_eq!(targets(&last.deliveries), vec![c]);
    assert_eq!(
        last.deliveries[0].frame,
        "{\"op\":\"user_offline\",\"d\":\"936da01f-9abd-4d9d-80c7-02af85c822a8\"}"
    );
    assert!(!hub.is_online(ALICE));
    let again = hub.disconnect(&Disconnect { id: b, user_id: Some(ALICE) });
    assert!(!again.removed);
    assert_eq!(again.went_offline, None);
    assert!(again.deliveries.is_empty());
    assert_eq!(hub.session_count(), 1);
}

#[test]
fn anonymous_disconnect_touches_no_presence() {
    let mut hub = WsServer::new(0);
    let a = hub.connect_with(1).id;
    let b = hub.connect_with(2).id;
    hub.authenticate(Some(ALICE), a);
    let outcome = hub.disconnect(&Disconnect { id: b, user_id: None });
    assert!(outcome.removed);
    assert_eq!(outcome.went_offline, None);
    assert!(outcome.deliveries.is_empty());
    assert!(hub.is_online(ALICE));
    assert_eq!(hub.presence_count(ALICE), 1);
}

#[test]
fn reauthentication_moves_the_session_to_the_new_user() {
    let mut hub = WsServer::new(0);
    let a = hub.connect_with(1).id;
    let b = hub.connect_with(2).id;
    hub.authenticate(Some(ALICE), a);
    let outcome = hub.authenticate(Some(BOB), a);
    assert_eq!(outcome.user_id, Some(BOB));
    assert_eq!(outcome.went_offline, Some(ALICE));
    assert_eq!(outcome.deliveries.len(), 4);
    assert_eq!(targets(&outcome.deliveries[..2]), vec![a, b]);
    assert_eq!(targets(&outcome.deliveries[2..]), vec![a, b]);
    for d in &outcome.deliveries[..2] {
        assert_eq!(
            d.frame,
            "{\"op\":\"user_offline\",\"d\":\"936da01f-9abd-4d9d-80c7-02af85c822a8\"}"
        );
    }
    for d in &outcome.deliveries[2..] {
        assert_eq!(
            d.frame,
            "{\"op\":\"user_online\",\"d\":\"00000000-0000-0000-0000-000000000001\"}"
        );
    }
    assert!(!hub.is_online(ALICE));
    assert_eq!(hub.presence_count(ALICE), 0);
    assert_eq!(hub.presence_count(BOB), 1);
    assert_eq!(hub.bound_user(a), Some(BOB));
}

#[test]
fn reauthentication_keeps_a_user_with_other_sessions_online() {
    let mut hub = WsServer::new(0);
    let a = hub.connect_with(1).id;
    let b = hub.connect_with(2).id;
    hub.authenticate(Some(ALICE), a);
    hub.authenticate(Some(ALICE), b);
    let outcome = hub.authenticate(Some(BOB), a);
    assert_eq!(outcome.went_offline, None);
    assert_eq!(outcome.deliveries.len(), 2);
    assert!(hub.is_online(ALICE));
    assert!(hub.is_online(BOB));
}

#[test]
fn new_message_goes_to_the_sessions_of_the_other_members_only() {
    let mut hub = WsServer::new(0);
    let a1 = hub.connect_with(1).id;
    let a2 = hub.connect_with(2).id;
    let outsider = hub.connect_with(3).id;
    let author = hub.connect_with(4).id;
    hub.authenticate(Some(ALICE), a1);
    hub.authenticate(Some(ALICE), a2);
    hub.authenticate(Some(CAROL), outsider);
    hub.authenticate(Some(BOB), author);
    let payload: serde_json::Value = serde_json::from_str("{\"message\":{\"content\":\"hey\"}}").unwrap();
    let event = NewMessage { author_id: BOB, conversation_id: 42, payload };
    let sent = hub.handle_new_message(&event, &Some(vec![ALICE, BOB]));
    assert_eq!(targets(&sent), vec![a1, a2]);
    for d in &sent {
        assert_eq!(d.frame, "{\"op\":\"new_message\",\"d\":{\"message\":{\"content\":\"hey\"}}}");
    }
    assert!(hub.handle_new_message(&event, &None).is_empty());
}

#[test]
fn deletion_and_reaction_events_carry_their_identifiers() {
    let mut hub = WsServer::new(0);
    let a = hub.connect_with(1).id;
    hub.authenticate(Some(ALICE), a);
    let deleted = MessageDeleted { message_id: 1, conversation_id: 2, author_id: BOB };
    let sent = hub.handle_message_deleted(&deleted, &Some(vec![ALICE]));
    assert_eq!(sent.len(), 1);
    let frame: serde_json::Value = serde_json::from_str(&sent[0].frame).unwrap();
    assert_eq!(frame["op"], "message_deleted");
    assert_eq!(frame["d"]["messageId"], "00000000-0000-0000-0000-000000000001");
    assert_eq!(frame["d"]["conversationId"], "00000000-0000-0000-0000-000000000002");
    assert_eq!(frame["d"]["authorId"], "00000000-0000-0000-0000-000000000001");
    let reaction = ReactionUpdated {
        user_id: BOB,
        emoji_name: "thumbs\"up".to_string(),
        message_id: 1,
        conversation_id: 2,
        update_type: ReactionUpdateType::CREATED,
    };
    let sent = hub.handle_reaction_updated(&reaction, &Some(vec![BOB, ALICE]));
    assert_eq!(sent.len(), 1);
    let frame: serde_json::Value = serde_json::from_str(&sent[0].frame).unwrap();
    assert_eq!(frame["op"], "reaction_updated");
    assert_eq!(frame["d"]["emojiName"], "thumbs\"up");
    assert_eq!(frame["d"]["updateType"], "CREATED");
    assert_eq!(frame["d"]["userId"], "00000000-0000-0000-0000-000000000001");
}

#[test]
fn new_user_is_broadcast_to_everyone() {
    let mut hub = WsServer::new(0);
    hub.connect_with(1);
    hub.connect_with(2);
    let event = NewUser { payload: serde_json::Value::from("u") };
    let sent = hub.handle_new_user(&event);
    assert_eq!(targets(&sent), vec![1, 2]);
    assert_eq!(sent[0].frame, "{\"op\":\"new_user\",\"d\":\"u\"}");
}

#[test]
fn random_connect_yields_distinct_identifiers() {
    let mut hub = WsServer::new(0);
    let mut seen = Vec::new();
    for _ in 0..50 {
        let id = hub.connect().id;
        assert!(!seen.contains(&id));
        seen.push(id);
    }
    assert_eq!(hub.session_count(), 50);
}

#[test]
fn user_is_in_the_presence_map_exactly_while_it_has_sessions() {
    let mut hub = WsServer::new(0);
    let a = hub.connect_with(1).id;
    let b = hub.connect_with(2).id;
    assert!(!hub.is_online(ALICE));
    assert_eq!(hub.presence_count(ALICE), 0);
    hub.authenticate(Some(ALICE), a);
    assert!(hub.is_online(ALICE));
    assert_eq!(hub.presence_count(ALICE), 1);
    hub.authenticate(Some(ALICE), b);
    assert_eq!(hub.presence_count(ALICE), 2);
    hub.authenticate(Some(ALICE), b);
    assert_eq!(hub.presence_count(ALICE), 2);
    hub.disconnect(&Disconnect { id: a, user_id: Some(ALICE) });
    assert!(hub.is_online(ALICE));
    assert_eq!(hub.presence_count(ALICE), 1);
    hub.disconnect(&Disconnect { id: b, user_id: None });
    assert!(!hub.is_online(ALICE));
    assert_eq!(hub.presence_count(ALICE), 0);
    assert!(!hub.is_connected(a));
    assert!(!hub.is_connected(b));
}
