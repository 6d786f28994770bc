use chat_hub::control::{login_status, register_status, CredentialCheck};
use chat_hub::hub::{BroadcastHub, Envelope};
use chat_hub::presence::PresenceRegistry;
use chat_hub::session::{Session, SessionState};
use chat_hub::wire::{
    chat_line, history_lines, joined_line, left_line, presence_payload, render, sent_at_text,
};

fn s(x: &str) -> String {
    x.to_string()
}

fn drain(hub: &mut BroadcastHub, id: usize) -> Vec<String> {
    let mut out = Vec::new();
    while let Some(e) = hub.receive(id) {
        out.push(render(&e));
    }
    out
}

#[test]
fn registry_keeps_insertion_order_and_rejects_duplicates() {
    let mut reg = PresenceRegistry::new();
    assert!(reg.add(&s("alice")));
    assert!(reg.add(&s("bob")));
    assert!(!reg.add(&s("alice")));
    assert_eq!(reg.snapshot(), vec![s("alice"), s("bob")]);
    assert_eq!(reg.len(), 2);
    assert!(reg.contains(&s("bob")));
}

#[test]
fn registry_remove_absent_is_noop() {
    let mut reg = PresenceRegistry::new();
    reg.add(&s("alice"));
    reg.remove(&s("carol"));
    assert_eq!(reg.snapshot(), vec![s("alice")]);
    reg.remove(&s("alice"));
    assert!(reg.snapshot().is_empty());
    assert!(!reg.contains(&s("alice")));
}

#[test]
fn publish_with_no_subscriber_is_noop() {
    let mut hub = BroadcastHub::new(4);
    hub.publish(&Envelope::ChatLine(s("x")));
    assert_eq!(hub.handle_count(), 0);
    let id = hub.subscribe();
    assert!(hub.receive(id).is_none());
}

#[test]
fn late_subscriber_gets_no_replay() {
    let mut hub = BroadcastHub::new(4);
    let a = hub.subscribe();
    hub.publish(&Envelope::ChatLine(s("one")));
    let b = hub.subscribe();
    hub.publish(&Envelope::ChatLine(s("two")));
    assert_eq!(drain(&mut hub, a), vec![s("one"), s("two")]);
    assert_eq!(drain(&mut hub, b), vec![s("two")]);
}

#[test]
fn full_subscriber_drops_only_its_own_copy() {
    let mut hub = BroadcastHub::new(2);
    let slow = hub.subscribe();
    let fast = hub.subscribe();
    hub.publish(&Envelope::ChatLine(s("m1")));
    hub.publish(&Envelope::ChatLine(s("m2")));
    assert_eq!(drain(&mut hub, fast), vec![s("m1"), s("m2")]);
    hub.publish(&Envelope::ChatLine(s("m3")));
    assert_eq!(drain(&mut hub, fast), vec![s("m3")]);
    assert_eq!(drain(&mut hub, slow), vec![s("m1"), s("m2")]);
}

#[test]
fn per_sender_order_is_kept() {
    let mut hub = BroadcastHub::new(100);
    let r1 = hub.subscribe();
    let r2 = hub.subscribe();
    for body in ["m1", "m2", "m3"] {
        hub.publish(&Envelope::ChatLine(s(body)));
    }
    let want = vec![s("m1"), s("m2"), s("m3")];
    assert_eq!(drain(&mut hub, r1), want);
    assert_eq!(drain(&mut hub, r2), want);
}

#[test]
fn unsubscribed_handle_receives_nothing() {
    let mut hub = BroadcastHub::new(3);
    let a = hub.subscribe();
    hub.publish(&Envelope::ChatLine(s("x")));
    hub.unsubscribe(a);
    hub.publish(&Envelope::ChatLine(s("y")));
    assert!(hub.receive(a).is_none());
    hub.unsubscribe(99);
    assert_eq!(hub.handle_count(), 1);
}

#[test]
fn wire_formats() {
    assert_eq!(chat_line("alice", "12:00:00 01.02.2024", "hi"), "alice (12:00:00 01.02.2024): hi");
    assert_eq!(joined_line("bob"), "bob joined the chat");
    assert_eq!(left_line("bob"), "bob left the chat");
    assert_eq!(presence_payload(&vec![s("alice"), s("bob")]), "ACTIVE_USERS: [\"alice\",\"bob\"]");
    assert_eq!(presence_payload(&vec![]), "ACTIVE_USERS: []");
    assert_eq!(render(&Envelope::PresenceSnapshot(vec![s("a\"b")])), "ACTIVE_USERS: [\"a\\\"b\"]");
}

#[test]
fn roster_json_escapes() {
    assert_eq!(
        presence_payload(&vec![s("a\\b"), s("t\tn\nr\r"), s("\u{1}\u{1f}\u{8}\u{c}"), s("żółw")]),
        "ACTIVE_USERS: [\"a\\\\b\",\"t\\tn\\nr\\r\",\"\\u0001\\u001f\\b\\f\",\"żółw\"]"
    );
}

#[test]
fn sent_at_is_formatted_in_utc() {
    assert_eq!(sent_at_text(0).unwrap(), "00:00:00 01.01.1970");
    assert_eq!(sent_at_text(1_700_000_000).unwrap(), "22:13:20 14.11.2023");
    assert_eq!(sent_at_text(253402300799).unwrap(), "23:59:59 31.12.9999");
    assert!(sent_at_text(i64::MAX).is_none());
}

#[test]
fn history_lines_keep_order() {
    let recs = vec![
        (s("alice"), s("hi"), s("10:00:00 01.01.2024")),
        (s("bob"), s("yo"), s("10:00:05 01.01.2024")),
    ];
    assert_eq!(
        history_lines(&recs),
        vec![s("alice (10:00:00 01.01.2024): hi"), s("bob (10:00:05 01.01.2024): yo")]
    );
    assert!(history_lines(&vec![]).is_empty());
}

#[test]
fn http_statuses() {
    assert_eq!(login_status(CredentialCheck::Match), 200);
    assert_eq!(login_status(CredentialCheck::NoMatch), 401);
    assert_eq!(login_status(CredentialCheck::StoreError), 500);
    assert_eq!(register_status(true), 201);
    assert_eq!(register_status(false), 409);
}

#[test]
fn failed_credentials_close_without_effect() {
    let mut reg = PresenceRegistry::new();
    let mut hub = BroadcastHub::new(10);
    let watcher = hub.subscribe();
    let mut eve = Session::new(s("eve"));
    eve.authenticate(false, &mut reg, &mut hub);
    assert_eq!(eve.state(), SessionState::Closed);
    assert!(reg.snapshot().is_empty());
    assert!(hub.receive(watcher).is_none());
    eve.teardown(&mut reg, &mut hub);
    assert!(hub.receive(watcher).is_none());
}

fn connect(name: &str, reg: &mut PresenceRegistry, hub: &mut BroadcastHub) -> (Session, usize, Vec<String>) {
    let id = hub.subscribe();
    let mut sess = Session::new(s(name));
    sess.authenticate(true, reg, hub);
    assert_eq!(sess.state(), SessionState::Authenticated);
    let empty: Vec<(String, String, String)> = Vec::new();
    let mut direct = sess.replay(Some(&empty));
    let own = sess.start_streaming(reg, hub);
    direct.push(render(&own));
    assert_eq!(sess.state(), SessionState::Streaming);
    (sess, id, direct)
}

#[test]
fn scenario_two_users_join() {
    let mut reg = PresenceRegistry::new();
    let mut hub = BroadcastHub::new(100);
    let (_alice, a, alice_direct) = connect("alice", &mut reg, &mut hub);
    assert_eq!(alice_direct, vec![s("ACTIVE_USERS: [\"alice\"]")]);
    assert_eq!(drain(&mut hub, a), vec![s("alice joined the chat"), s("ACTIVE_USERS: [\"alice\"]")]);
    let (_bob, b, bob_direct) = connect("bob", &mut reg, &mut hub);
    assert_eq!(bob_direct, vec![s("ACTIVE_USERS: [\"alice\",\"bob\"]")]);
    assert_eq!(
        drain(&mut hub, a),
        vec![s("bob joined the chat"), s("ACTIVE_USERS: [\"alice\",\"bob\"]")]
    );
    assert_eq!(
        drain(&mut hub, b),
        vec![s("bob joined the chat"), s("ACTIVE_USERS: [\"alice\",\"bob\"]")]
    );
}

#[test]
fn scenario_message_reaches_everyone_and_is_stored() {
    let mut reg = PresenceRegistry::new();
    let mut hub = BroadcastHub::new(100);
    let (mut alice, a, _) = connect("alice", &mut reg, &mut hub);
    let (_bob, b, _) = connect("bob", &mut reg, &mut hub);
    drain(&mut hub, a);
    drain(&mut hub, b);
    let t = sent_at_text(1_700_000_000).unwrap();
    let msg = alice.compose(s("hi"), t.clone());
    let mut store: Vec<(String, String, String)> = Vec::new();
    store.push((msg.username.clone(), msg.body.clone(), msg.sent_at.clone()));
    assert_eq!(store, vec![(s("alice"), s("hi"), t.clone())]);
    alice.announce(true, &mut hub);
    let line = format!("alice ({}): hi", t);
    assert_eq!(drain(&mut hub, a), vec![line.clone()]);
    assert_eq!(drain(&mut hub, b), vec![line.clone()]);
    assert_eq!(history_lines(&store), vec![line.clone()]);
    let (mut carol, _c, _) = {
        let id = hub.subscribe();
        let mut sess = Session::new(s("carol"));
        sess.authenticate(true, &mut reg, &mut hub);
        (sess, id, ())
    };
    assert_eq!(carol.replay(Some(&store)), vec![line]);
    carol.start_streaming(&reg, &mut hub);
    assert_eq!(carol.state(), SessionState::Streaming);
}

#[test]
fn message_is_announced_even_when_not_stored() {
    let mut reg = PresenceRegistry::new();
    let mut hub = BroadcastHub::new(100);
    let (mut alice, a, _) = connect("alice", &mut reg, &mut hub);
    drain(&mut hub, a);
    let msg = alice.compose(s("first"), s("T1"));
    assert_eq!(msg.line(), "alice (T1): first");
    alice.announce(false, &mut hub);
    alice.compose(s("second"), s("T2"));
    alice.announce(true, &mut hub);
    assert_eq!(drain(&mut hub, a), vec![s("alice (T1): first"), s("alice (T2): second")]);
}

#[test]
fn failed_history_read_replays_nothing() {
    let mut reg = PresenceRegistry::new();
    let mut hub = BroadcastHub::new(100);
    let mut sess = Session::new(s("alice"));
    sess.authenticate(true, &mut reg, &mut hub);
    assert!(sess.replay(None).is_empty());
    let own = sess.start_streaming(&reg, &mut hub);
    assert_eq!(render(&own), "ACTIVE_USERS: [\"alice\"]");
}

#[test]
fn second_session_with_a_present_name_is_closed() {
    let mut reg = PresenceRegistry::new();
    let mut hub = BroadcastHub::new(100);
    let (mut first, _a, _) = connect("alice", &mut reg, &mut hub);
    let watcher = hub.subscribe();
    let mut second = Session::new(s("alice"));
    second.authenticate(true, &mut reg, &mut hub);
    assert_eq!(second.state(), SessionState::Closed);
    assert!(hub.receive(watcher).is_none());
    second.teardown(&mut reg, &mut hub);
    assert_eq!(reg.snapshot(), vec![s("alice")]);
    first.teardown(&mut reg, &mut hub);
    assert!(reg.snapshot().is_empty());
}

#[test]
fn publish_order_kept_with_other_senders_between() {
    let mut hub = BroadcastHub::new(3);
    let r = hub.subscribe();
    hub.publish(&Envelope::ChatLine(s("a: m1")));
    hub.publish(&Envelope::ChatLine(s("b: x")));
    hub.publish(&Envelope::ChatLine(s("a: m2")));
    hub.publish(&Envelope::ChatLine(s("a: m3")));
    assert_eq!(drain(&mut hub, r), vec![s("a: m1"), s("b: x"), s("a: m2")]);
}

#[test]
fn scenario_user_leaves() {
    let mut reg = PresenceRegistry::new();
    let mut hub = BroadcastHub::new(100);
    let (mut alice, a, _) = connect("alice", &mut reg, &mut hub);
    let (_bob, b, _) = connect("bob", &mut reg, &mut hub);
    drain(&mut hub, b);
    hub.unsubscribe(a);
    alice.teardown(&mut reg, &mut hub);
    assert_eq!(alice.state(), SessionState::Closed);
    assert_eq!(reg.snapshot(), vec![s("bob")]);
    assert_eq!(drain(&mut hub, b), vec![s("alice left the chat"), s("ACTIVE_USERS: [\"bob\"]")]);
}

#[test]
fn teardown_twice_is_same_as_once() {
    let mut reg = PresenceRegistry::new();
    let mut hub = BroadcastHub::new(100);
    let (mut alice, _a, _) = connect("alice", &mut reg, &mut hub);
    let (_bob, b, _) = connect("bob", &mut reg, &mut hub);
    drain(&mut hub, b);
    alice.teardown(&mut reg, &mut hub);
    alice.teardown(&mut reg, &mut hub);
    assert_eq!(reg.snapshot(), vec![s("bob")]);
    assert_eq!(drain(&mut hub, b), vec![s("alice left the chat"), s("ACTIVE_USERS: [\"bob\"]")]);
}

#[test]
fn registry_tracks_live_sessions() {
    let mut reg = PresenceRegistry::new();
    let mut hub = BroadcastHub::new(100);
    let (mut a, _, _) = connect("alice", &mut reg, &mut hub);
    let (mut b, _, _) = connect("bob", &mut reg, &mut hub);
    let (_c, _, _) = connect("carol", &mut reg, &mut hub);
    b.teardown(&mut reg, &mut hub);
    assert_eq!(reg.snapshot(), vec![s("alice"), s("carol")]);
    a.teardown(&mut reg, &mut hub);
    let (_d, _, _) = connect("alice", &mut reg, &mut hub);
    assert_eq!(reg.snapshot(), vec![s("carol"), s("alice")]);
    assert_eq!(b.username(), "bob");
}
