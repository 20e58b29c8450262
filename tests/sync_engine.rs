use rust_backend::fanout::broadcast_comment;
use rust_backend::models::Comment;
use rust_backend::registry::ConnectionRegistry;
use rust_backend::relay::{get_video_channel, Relay};
use rust_backend::session::{Action, Event, Inbound, Session, SessionState};
use rust_backend::wire::{make_source_id, ControlMessage, WatchPartyMessage};

const NOW: u64 = 1700000000123;

fn control(action: &str, time: Option<&str>) -> Event {
    Event::Text {
        raw: String::from("{}"),
        inbound: Inbound::Control(
            ControlMessage::new(action.to_string(), time.map(|t| t.to_string())).unwrap(),
        ),
    }
}

fn authenticated(conn: u64, video_id: i32, user_id: i32, relay: &Relay) -> Session {
    let mut s = Session::new(conn, video_id, true);
    let acts = s.handle(
        Event::Text { raw: String::from("{\"type\":\"auth\"}"), inbound: Inbound::Auth(user_id) },
        NOW,
        relay,
    );
    assert!(acts.is_empty());
    s
}

fn relayed(user_id: i32) -> WatchPartyMessage {
    let msg = ControlMessage::new(String::from("pause"), Some(String::from("4"))).unwrap();
    WatchPartyMessage::enriched(&msg, user_id, 42, 5)
}

fn reply_text(a: &Action) -> String {
    match a {
        Action::Reply(t) => t.clone(),
        _ => panic!("expected a reply"),
    }
}

#[test]
fn channel_name_is_prefixed_video_id() {
    assert_eq!(get_video_channel(42), "watchparty:video:42");
    assert_eq!(get_video_channel(0), "watchparty:video:0");
    assert_eq!(get_video_channel(-17), "watchparty:video:-17");
    assert_eq!(get_video_channel(i32::MIN), "watchparty:video:-2147483648");
}

#[test]
fn source_id_names_user_and_time() {
    assert_eq!(make_source_id(10, 1700000000123), "user_10_time_1700000000123");
    assert_eq!(make_source_id(-1, 0), "user_-1_time_0");
    assert_eq!(make_source_id(7, u64::MAX), "user_7_time_18446744073709551615");
}

#[test]
fn watch_party_scenario_two_viewers() {
    let relay = Relay::new(1);
    let mut reg = ConnectionRegistry::new();
    reg.register(42, 100);
    reg.register(42, 200);
    let mut x = authenticated(100, 42, 10, &relay);
    let _y = authenticated(200, 42, 11, &relay);
    let acts = x.handle(control("play", Some("30.5")), NOW, &relay);
    let expected = "{\"type\":\"watchPartyControl\",\"action\":\"play\",\"time\":30.5,\"user_id\":10,\"video_id\":42,\"source_id\":\"user_10_time_1700000000123\"}";
    assert_eq!(acts.len(), 3);
    assert_eq!(reply_text(&acts[0]), expected);
    match &acts[1] {
        Action::Broadcast { video_id, payload, origin } => {
            assert_eq!(*video_id, 42);
            assert_eq!(payload, expected);
            assert_eq!(*origin, 100);
            assert_eq!(reg.broadcast_targets(*video_id, *origin), vec![200]);
        }
        _ => panic!("expected a broadcast"),
    }
    match &acts[2] {
        Action::Publish { channel, frame } => {
            assert_eq!(channel, "watchparty:video:42");
            assert_eq!(frame, &format!("1 {}", expected));
        }
        _ => panic!("expected a publication"),
    }
}

#[test]
fn control_without_time_sends_null() {
    let relay = Relay::new(1);
    let mut s = authenticated(5, 3, 8, &relay);
    let acts = s.handle(control("pause", None), 12, &relay);
    assert_eq!(
        reply_text(&acts[0]),
        "{\"type\":\"watchPartyControl\",\"action\":\"pause\",\"time\":null,\"user_id\":8,\"video_id\":3,\"source_id\":\"user_8_time_12\"}"
    );
}

#[test]
fn action_text_is_escaped() {
    let relay = Relay::new(1);
    let mut s = authenticated(5, 3, 8, &relay);
    let acts = s.handle(control("pl\"ay\\", None), 12, &relay);
    let text = reply_text(&acts[0]);
    assert!(text.contains("\"action\":\"pl\\\"ay\\\\\""));
}

#[test]
fn every_peer_receives_one_copy() {
    let relay = Relay::new(9);
    let mut reg = ConnectionRegistry::new();
    for c in 1..=4u64 {
        reg.register(8, c);
    }
    reg.register(9, 50);
    let mut sender = authenticated(3, 8, 77, &relay);
    let acts = sender.handle(control("seek", Some("12")), NOW, &relay);
    let replies = acts.iter().filter(|a| matches!(a, Action::Reply(_))).count();
    assert_eq!(replies, 1);
    let targets = match &acts[1] {
        Action::Broadcast { video_id, origin, .. } => reg.broadcast_targets(*video_id, *origin),
        _ => panic!("expected a broadcast"),
    };
    assert_eq!(targets, vec![1, 2, 4]);
}

#[test]
fn deregistration_is_idempotent_and_drops_empty_keys() {
    let mut reg = ConnectionRegistry::new();
    reg.register(5, 1);
    reg.register(5, 2);
    reg.deregister(5, 1);
    assert_eq!(reg.snapshot(5), vec![2]);
    reg.deregister(5, 1);
    assert_eq!(reg.snapshot(5), vec![2]);
    reg.deregister(5, 2);
    assert!(!reg.contains_resource(5));
    assert_eq!(reg.count(5), 0);
    reg.deregister(5, 2);
    assert!(!reg.contains_resource(5));
}

#[test]
fn deregistration_leaves_other_resources() {
    let mut reg = ConnectionRegistry::new();
    reg.register(5, 1);
    reg.register(6, 1);
    assert!(reg.is_registered(5, 1));
    assert!(!reg.is_registered(5, 2));
    reg.deregister(5, 1);
    assert!(!reg.contains_resource(5));
    assert!(!reg.is_registered(5, 1));
    assert_eq!(reg.snapshot(6), vec![1]);
}

#[test]
fn unauthenticated_control_is_dropped() {
    let relay = Relay::new(1);
    let mut s = Session::new(4, 42, true);
    assert!(s.handle(control("play", Some("1.0")), NOW, &relay).is_empty());
    let opaque = Event::Text { raw: String::from("hello"), inbound: Inbound::Opaque };
    assert!(s.handle(opaque, NOW, &relay).is_empty());
    assert!(!s.is_authenticated());
}

#[test]
fn failed_authentication_keeps_session_unauthenticated() {
    let relay = Relay::new(1);
    let mut s = Session::new(4, 42, true);
    let inbound = Inbound::decode(None, None);
    let acts = s.handle(
        Event::Text { raw: String::from("{\"type\":\"auth\",\"token\":\"bad\"}"), inbound },
        NOW,
        &relay,
    );
    assert!(acts.is_empty());
    assert!(s.state == SessionState::Unauthenticated);
}

#[test]
fn authenticated_opaque_frame_is_echoed() {
    let relay = Relay::new(1);
    let mut s = authenticated(4, 42, 3, &relay);
    let acts = s.handle(Event::Text { raw: String::from("hello"), inbound: Inbound::Opaque }, NOW, &relay);
    assert_eq!(acts.len(), 1);
    assert_eq!(reply_text(&acts[0]), "hello");
}

#[test]
fn ping_is_answered_in_any_open_state() {
    let relay = Relay::new(1);
    let mut s = Session::new(4, 42, false);
    let acts = s.handle(Event::Ping(vec![1, 2, 3]), NOW, &relay);
    match &acts[0] {
        Action::Pong(p) => assert_eq!(p, &vec![1, 2, 3]),
        _ => panic!("expected a pong"),
    }
}

#[test]
fn closed_session_ignores_everything() {
    let relay = Relay::new(1);
    let mut s = authenticated(4, 42, 3, &relay);
    let acts = s.handle(Event::Close, NOW, &relay);
    assert!(matches!(acts[0], Action::Close));
    assert!(s.state == SessionState::Closed);
    assert!(s.handle(control("play", None), NOW, &relay).is_empty());
    assert!(s.handle(Event::Ping(vec![]), NOW, &relay).is_empty());
    let frame = String::from("2 {}");
    assert!(s.handle(Event::Relay { frame, message: Some(relayed(9)) }, NOW, &relay).is_empty());
}

#[test]
fn decode_tries_auth_first() {
    let both = Inbound::decode(Some(5), Some(ControlMessage::new(String::from("play"), None).unwrap()));
    assert!(matches!(both, Inbound::Auth(5)));
    let ctl = Inbound::decode(None, Some(ControlMessage::new(String::from("play"), None).unwrap()));
    assert!(matches!(ctl, Inbound::Control(_)));
    assert!(matches!(Inbound::decode(None, None), Inbound::Opaque));
}

#[test]
fn relay_frames_from_own_process_are_dropped() {
    let here = Relay::new(17);
    let there = Relay::new(4);
    let frame = here.frame("{\"a\": 1}");
    assert_eq!(frame, "17 {\"a\": 1}");
    assert_eq!(here.accept(&frame), None);
    assert_eq!(there.accept(&frame), Some(String::from("{\"a\": 1}")));
    assert_eq!(Relay::new(1).accept(&frame), Some(String::from("{\"a\": 1}")));
    assert_eq!(there.accept("no-space"), None);
    assert_eq!(Relay::new(7).accept("017 x"), Some(String::from("x")));
}

#[test]
fn relay_messages_reach_unauthenticated_viewers() {
    let relay = Relay::new(2);
    let mut s = Session::new(4, 42, true);
    let m = relayed(9);
    let frame = format!("3 {}", m.to_json());
    let acts = s.handle(Event::Relay { frame, message: Some(relayed(9)) }, NOW, &relay);
    assert_eq!(acts.len(), 1);
    assert_eq!(reply_text(&acts[0]), m.to_json());
    let own = format!("2 {}", m.to_json());
    assert!(s.handle(Event::Relay { frame: own, message: Some(relayed(9)) }, NOW, &relay).is_empty());
}

#[test]
fn relay_payload_that_is_not_a_message_is_dropped() {
    let relay = Relay::new(1);
    let mut s = Session::new(4, 42, true);
    let garbage = Event::Relay { frame: String::from("2 garbage"), message: None };
    assert!(s.handle(garbage, NOW, &relay).is_empty());
    let mut wrong_type = relayed(3);
    wrong_type.type_field = String::from("chat");
    let ev = Event::Relay { frame: String::from("2 {}"), message: Some(wrong_type) };
    assert!(s.handle(ev, NOW, &relay).is_empty());
    let mut bad_time = relayed(3);
    bad_time.time = Some(String::from("soon"));
    let ev = Event::Relay { frame: String::from("2 {}"), message: Some(bad_time) };
    assert!(s.handle(ev, NOW, &relay).is_empty());
    let ev = Event::Relay { frame: String::from("abc x"), message: Some(relayed(3)) };
    assert!(s.handle(ev, NOW, &relay).is_empty());
    let ok = Event::Relay { frame: String::from("2 x"), message: Some(relayed(3)) };
    assert_eq!(s.handle(ok, NOW, &relay).len(), 1);
}

#[test]
fn relay_frame_needs_a_numeric_sender() {
    let relay = Relay::new(1);
    assert_eq!(relay.accept("abc x"), None);
    assert_eq!(relay.accept(" x"), None);
    assert_eq!(relay.accept("1a x"), None);
    assert_eq!(relay.accept("22 x y"), Some(String::from("x y")));
}

#[test]
fn control_time_must_be_a_json_number() {
    assert!(ControlMessage::new(String::from("play"), Some(String::from("30.5"))).is_some());
    assert!(ControlMessage::new(String::from("play"), Some(String::from("-0.25e+3"))).is_some());
    assert!(ControlMessage::new(String::from("play"), Some(String::from("07"))).is_none());
    assert!(ControlMessage::new(String::from("play"), Some(String::from("1."))).is_none());
    assert!(ControlMessage::new(String::from("play"), Some(String::from("1e"))).is_none());
    assert!(ControlMessage::new(String::from("play"), Some(String::from("\"1\""))).is_none());
    assert!(ControlMessage::new(String::from("play"), Some(String::new())).is_none());
}

#[test]
fn malformed_control_is_echoed_not_broadcast() {
    let relay = Relay::new(1);
    let mut s = authenticated(4, 42, 3, &relay);
    let msg = ControlMessage { action: String::from("play"), time: Some(String::from("NaN")) };
    let raw = String::from("{\"action\":\"play\"}");
    let acts = s.handle(Event::Text { raw, inbound: Inbound::Control(msg) }, NOW, &relay);
    assert_eq!(acts.len(), 1);
    assert_eq!(reply_text(&acts[0]), "{\"action\":\"play\"}");
}

#[test]
fn broker_outage_keeps_local_sync() {
    let relay = Relay::new(1);
    let mut reg = ConnectionRegistry::new();
    reg.register(42, 1);
    reg.register(42, 2);
    let mut s = authenticated(1, 42, 10, &relay);
    assert!(s.handle(Event::RelayDown, NOW, &relay).is_empty());
    assert!(s.is_authenticated());
    assert!(!s.relay_enabled);
    let acts = s.handle(control("play", Some("1.5")), NOW, &relay);
    assert_eq!(acts.len(), 2);
    match &acts[1] {
        Action::Broadcast { video_id, origin, .. } => {
            assert_eq!(reg.broadcast_targets(*video_id, *origin), vec![2]);
        }
        _ => panic!("expected a broadcast"),
    }
}

#[test]
fn session_without_relay_never_publishes() {
    let relay = Relay::new(1);
    let mut s = Session::new(1, 42, false);
    s.handle(Event::Text { raw: String::new(), inbound: Inbound::Auth(3) }, NOW, &relay);
    let acts = s.handle(control("play", None), NOW, &relay);
    assert!(!acts.iter().any(|a| matches!(a, Action::Publish { .. })));
}

#[test]
fn comment_reaches_unauthenticated_viewer() {
    let mut reg = ConnectionRegistry::new();
    reg.register(7, 30);
    let comment = Comment {
        id: 99,
        video_id: 7,
        user_id: 3,
        content: String::from("Great scene"),
        video_time: 125,
        created_at: String::from("2024-05-01T10:00:00"),
    };
    let out = broadcast_comment(7, &comment, &reg);
    assert_eq!(out.targets, vec![30]);
    assert_eq!(
        out.payload,
        "{\"id\":99,\"video_id\":7,\"user_id\":3,\"content\":\"Great scene\",\"video_time\":125,\"created_at\":\"2024-05-01T10:00:00\"}"
    );
}

#[test]
fn comment_fanout_is_a_snapshot() {
    let mut reg = ConnectionRegistry::new();
    reg.register(7, 1);
    reg.register(7, 2);
    let comment = Comment {
        id: 1,
        video_id: 7,
        user_id: 3,
        content: String::from("line\nbreak"),
        video_time: 0,
        created_at: String::from("2024-05-01T10:00:00.5"),
    };
    let out = broadcast_comment(7, &comment, &reg);
    reg.register(7, 3);
    assert_eq!(out.targets, vec![1, 2]);
    assert!(out.payload.contains("\"content\":\"line\\nbreak\""));
    assert!(broadcast_comment(8, &comment, &reg).targets.is_empty());
}

#[test]
fn hundred_and_one_connections_broadcast_to_hundred() {
    let mut reg = ConnectionRegistry::new();
    for c in 0..101u64 {
        reg.register(11, c);
    }
    let targets = reg.broadcast_targets(11, 50);
    assert_eq!(targets.len(), 100);
    assert!(!targets.contains(&50));
    assert_eq!(reg.count(11), 101);
}

#[test]
fn enriched_message_keeps_fields() {
    let msg = ControlMessage::new(String::from("seek"), Some(String::from("2.25"))).unwrap();
    let m = WatchPartyMessage::enriched(&msg, 4, 6, 99);
    assert_eq!(m.type_field, "watchPartyControl");
    assert_eq!(m.source_id, "user_4_time_99");
    assert_eq!(
        m.to_json(),
        "{\"type\":\"watchPartyControl\",\"action\":\"seek\",\"time\":2.25,\"user_id\":4,\"video_id\":6,\"source_id\":\"user_4_time_99\"}"
    );
}

#[test]
fn control_characters_are_escaped_in_hex() {
    let msg = ControlMessage::new(String::from("a\u{7}b\tc"), None).unwrap();
    let m = WatchPartyMessage::enriched(&msg, 1, 2, 3);
    assert!(m.to_json().contains("\"action\":\"a\\u0007b\\tc\""));
}
