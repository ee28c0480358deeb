use neurobox_api::gateway::{
    gateway_text, heartbeat_payload, heartbeat_text, identify_payload, identify_text, next_reconnect_delay, plan_dispatch, registration_for,
    DispatchPlan, GatewayAction, GatewayInput, GatewayPhase, GatewaySession, INITIAL_RECONNECT_DELAY_SECS,
};
use neurobox_api::json::{JsonNumber, JsonValue};
use neurobox_api::models::{DiscordUser, Presence};
use neurobox_api::socket::{
    hello_message, hello_text, init_state, init_state_text, presence_update_text, subscription_matches, ClientAction, InitState, SocketSession,
    SocketSubscribe, SocketSubscribeData, Subscription,
};
use neurobox_api::state::{AppData, RegistrationLatch};
use neurobox_api::strmap::StrMap;

fn s(v: &str) -> JsonValue {
    JsonValue::Str(v.to_string())
}

fn n(v: u64) -> JsonValue {
    JsonValue::Number(JsonNumber::PosInt(v))
}

fn obj(members: Vec<(&str, JsonValue)>) -> JsonValue {
    JsonValue::Object(members.into_iter().map(|(k, v)| (k.to_string(), v)).collect())
}

fn data(all: Option<bool>, id: Option<&str>, ids: Option<Vec<&str>>) -> SocketSubscribeData {
    SocketSubscribeData {
        user_id: id.map(|s| s.to_string()),
        user_ids: ids.map(|v| v.into_iter().map(|s| s.to_string()).collect()),
        all,
        subscribe_to_id: None,
        subscribe_to_ids: None,
        subscribe_to_all: None,
    }
}

#[test]
fn reconnect_delays_double_up_to_a_minute() {
    let mut d = INITIAL_RECONNECT_DELAY_SECS;
    let mut seen = vec![d];
    for _ in 0..7 {
        d = next_reconnect_delay(d);
        seen.push(d);
    }
    assert_eq!(seen, vec![2, 4, 8, 16, 32, 60, 60, 60]);
    assert_eq!(next_reconnect_delay(29), 58);
    assert_eq!(next_reconnect_delay(30), 60);
}

#[test]
fn gateway_session_identifies_on_hello() {
    let mut g = GatewaySession::new();
    assert_eq!(g.step(GatewayInput::Text(obj(vec![("op", n(11))]))), GatewayAction::Ignore);
    assert_eq!(g.phase, GatewayPhase::AwaitingHello);
    let hello = obj(vec![("op", n(10)), ("d", obj(vec![("heartbeat_interval", n(41250))]))]);
    assert_eq!(g.step(GatewayInput::Text(hello)), GatewayAction::Identify { heartbeat_interval_ms: 41250 });
    assert_eq!(g.phase, GatewayPhase::Dispatching);
    let event = obj(vec![("op", n(0)), ("t", s("READY"))]);
    assert_eq!(
        g.step(GatewayInput::Text(obj(vec![("op", n(0)), ("t", s("READY"))]))),
        GatewayAction::Dispatch(event)
    );
    assert_eq!(g.step(GatewayInput::Text(obj(vec![("op", n(11))]))), GatewayAction::Ignore);
    assert_eq!(g.step(GatewayInput::Other), GatewayAction::Ignore);
    assert_eq!(g.step(GatewayInput::Text(obj(vec![("op", n(7))]))), GatewayAction::Reconnect);
    assert_eq!(g.step(GatewayInput::Text(obj(vec![("op", n(9))]))), GatewayAction::Invalidated);
    assert_eq!(g.step(GatewayInput::Close), GatewayAction::Finish);
}

#[test]
fn hello_without_interval_uses_default() {
    let mut g = GatewaySession::new();
    assert_eq!(
        g.step(GatewayInput::Text(obj(vec![("op", n(10))]))),
        GatewayAction::Identify { heartbeat_interval_ms: 45000 }
    );
}

#[test]
fn close_before_hello_skips_identify() {
    let mut g = GatewaySession::new();
    assert_eq!(g.step(GatewayInput::Text(obj(vec![("op", n(0))]))), GatewayAction::Ignore);
    assert_eq!(g.step(GatewayInput::Close), GatewayAction::Ignore);
    assert_eq!(g.phase, GatewayPhase::Dispatching);
    assert_eq!(g.step(GatewayInput::End), GatewayAction::Finish);
}

#[test]
fn identify_and_heartbeat_payloads() {
    let expected = obj(vec![
        ("op", n(2)),
        (
            "d",
            obj(vec![
                ("token", s("TOKEN")),
                ("intents", n(259)),
                ("properties", obj(vec![("os", s("linux")), ("browser", s("neurobox-api")), ("device", s("neurobox-api"))])),
            ]),
        ),
    ]);
    assert_eq!(identify_payload("TOKEN", "linux"), expected);
    assert_eq!(heartbeat_payload(), obj(vec![("op", n(1)), ("d", JsonValue::Null)]));
}

#[test]
fn dispatch_plans() {
    let p = obj(vec![("user", obj(vec![("id", s("1"))]))]);
    let ready = obj(vec![
        ("t", s("READY")),
        ("d", obj(vec![("application", obj(vec![("id", s("app"))])), ("presences", JsonValue::Array(vec![p.copy(), JsonValue::Null]))])),
    ]);
    match plan_dispatch(&ready) {
        DispatchPlan::Ready { application_id, presences } => {
            assert_eq!(application_id.as_deref(), Some("app"));
            assert_eq!(presences.len(), 1);
        }
        other => panic!("{other:?}"),
    }
    match plan_dispatch(&obj(vec![("t", s("PRESENCE_UPDATE")), ("d", p.copy())])) {
        DispatchPlan::CachePresences(ps) => assert_eq!(ps.len(), 1),
        other => panic!("{other:?}"),
    }
    match plan_dispatch(&obj(vec![("t", s("PRESENCE_UPDATE")), ("d", JsonValue::Null)])) {
        DispatchPlan::CachePresences(ps) => assert!(ps.is_empty()),
        other => panic!("{other:?}"),
    }
    match plan_dispatch(&obj(vec![("t", s("GUILD_CREATE")), ("d", obj(vec![("presences", JsonValue::Array(vec![p.copy(), p.copy()]))]))])) {
        DispatchPlan::CachePresences(ps) => assert_eq!(ps.len(), 2),
        other => panic!("{other:?}"),
    }
    assert!(matches!(plan_dispatch(&obj(vec![("t", s("INTERACTION_CREATE")), ("d", obj(vec![]))])), DispatchPlan::Interaction(None)));
    assert!(matches!(plan_dispatch(&obj(vec![("t", s("TYPING_START"))])), DispatchPlan::Ignore));
    assert!(matches!(plan_dispatch(&JsonValue::Null), DispatchPlan::Ignore));
}

#[test]
fn subscriptions_from_payload() {
    assert_eq!(Subscription::from_payload(data(Some(true), Some("x"), None)), Some(Subscription::All));
    assert_eq!(Subscription::from_payload(data(Some(false), Some("x"), None)), Some(Subscription::One("x".into())));
    assert_eq!(
        Subscription::from_payload(data(None, None, Some(vec!["a", "b"]))),
        Some(Subscription::Many(vec!["a".into(), "b".into()]))
    );
    assert_eq!(Subscription::from_payload(data(None, None, None)), None);
    let mut legacy = data(None, None, None);
    legacy.subscribe_to_all = Some(true);
    assert_eq!(Subscription::from_payload(legacy), Some(Subscription::All));
    let mut legacy = data(None, None, None);
    legacy.subscribe_to_id = Some("z".into());
    assert_eq!(Subscription::from_payload(legacy), Some(Subscription::One("z".into())));
    let mut both = data(Some(false), None, None);
    both.subscribe_to_all = Some(true);
    // `all: false` takes precedence over the older `subscribe_to_all: true`.
    assert_eq!(Subscription::from_payload(both), None);
}

#[test]
fn subscription_matching() {
    let one = Subscription::One("a".into());
    let many = Subscription::Many(vec!["a".into(), "b".into()]);
    assert!(subscription_matches(Some(&one), "a"));
    assert!(!subscription_matches(Some(&one), "b"));
    assert!(subscription_matches(Some(&many), "b"));
    assert!(!subscription_matches(Some(&many), "c"));
    assert!(subscription_matches(Some(&Subscription::All), "anyone"));
    assert!(!subscription_matches(None, "a"));
}

#[test]
fn socket_session_sequence_numbers() {
    let mut sess = SocketSession::new();
    assert_eq!(sess.on_presence_event("a"), None);
    let heartbeat = SocketSubscribe { op: Some(3), d: None };
    assert_eq!(sess.on_client_message(heartbeat), ClientAction::Ignore);
    let sub = SocketSubscribe { op: Some(2), d: Some(data(None, Some("a"), None)) };
    assert_eq!(sess.on_client_message(sub), ClientAction::SendInitState { seq: 1 });
    assert_eq!(sess.on_presence_event("b"), None);
    assert_eq!(sess.on_presence_event("a"), Some(2));
    assert_eq!(sess.on_presence_event("a"), Some(3));
    let unsub = SocketSubscribe { op: Some(2), d: None };
    assert_eq!(sess.on_client_message(unsub), ClientAction::SendInitState { seq: 4 });
    assert_eq!(sess.on_presence_event("a"), None);
}

#[test]
fn init_state_for_subscriptions() {
    let mut d = AppData::new(StrMap::new());
    for id in ["a", "b"] {
        d.cache_presence(Presence::offline(DiscordUser {
            id: id.into(),
            username: None,
            discriminator: None,
            avatar: None,
            display_name: None,
        }));
    }
    assert!(matches!(init_state(&d, None), InitState::Nothing));
    assert!(matches!(init_state(&d, Some(&Subscription::One("zz".into()))), InitState::Nothing));
    match init_state(&d, Some(&Subscription::One("a".into()))) {
        InitState::One(p) => assert_eq!(p.user_id, "a"),
        other => panic!("{other:?}"),
    }
    match init_state(&d, Some(&Subscription::Many(vec!["b".into(), "c".into(), "b".into()]))) {
        InitState::Many(m) => {
            assert_eq!(m.len(), 1);
            assert!(m.contains_key("b"));
        }
        other => panic!("{other:?}"),
    }
    match init_state(&d, Some(&Subscription::All)) {
        InitState::Many(m) => assert_eq!(m.len(), 2),
        other => panic!("{other:?}"),
    }
}

#[test]
fn hello_message_shape() {
    assert_eq!(
        hello_message(),
        obj(vec![("op", n(1)), ("t", s("HELLO")), ("d", obj(vec![("heartbeat_interval", n(30000))]))])
    );
}

#[test]
fn unreadable_message_aborts_in_either_phase() {
    let mut g = GatewaySession::new();
    assert_eq!(g.step(GatewayInput::Unreadable), GatewayAction::Abort);
    assert_eq!(g.phase, GatewayPhase::AwaitingHello);
    g.step(GatewayInput::Text(obj(vec![("op", n(10))])));
    assert_eq!(g.step(GatewayInput::Unreadable), GatewayAction::Abort);
    assert_eq!(g.phase, GatewayPhase::Dispatching);
}

#[test]
fn command_registered_once_for_ready() {
    let ready = |id: Option<&str>| {
        let mut d = vec![("presences", JsonValue::Array(vec![]))];
        if let Some(id) = id {
            d.push(("application", obj(vec![("id", s(id))])));
        }
        plan_dispatch(&obj(vec![("t", s("READY")), ("d", obj(d))]))
    };
    let other = plan_dispatch(&obj(vec![("t", s("TYPING_START"))]));
    let mut latch = RegistrationLatch::new();
    assert_eq!(registration_for(&mut latch, &other), None);
    assert_eq!(registration_for(&mut latch, &ready(Some("app1"))), Some("app1".to_string()));
    assert_eq!(registration_for(&mut latch, &ready(Some("app1"))), None);
    assert_eq!(registration_for(&mut latch, &ready(Some("app2"))), None);
    let mut fresh = RegistrationLatch::new();
    // A READY without an application id still uses up the claim.
    assert_eq!(registration_for(&mut fresh, &ready(None)), None);
    assert_eq!(registration_for(&mut fresh, &ready(Some("app1"))), None);
}

#[test]
fn socket_messages_numbered_over_a_connection() {
    let mut sess = SocketSession::new();
    let mut sent = Vec::new();
    let sub = |id: &str| SocketSubscribe { op: Some(2), d: Some(data(None, Some(id), None)) };
    if let ClientAction::SendInitState { seq } = sess.on_client_message(sub("a")) {
        sent.push(seq);
    }
    for user in ["a", "b", "a"] {
        if let Some(seq) = sess.on_presence_event(user) {
            sent.push(seq);
        }
    }
    sess.on_client_message(SocketSubscribe { op: Some(3), d: None });
    if let ClientAction::SendInitState { seq } = sess.on_client_message(sub("b")) {
        sent.push(seq);
    }
    for user in ["a", "b"] {
        if let Some(seq) = sess.on_presence_event(user) {
            sent.push(seq);
        }
    }
    assert_eq!(sent, vec![1, 2, 3, 4, 5]);
}

#[test]
fn gateway_text_reads_json_frames() {
    assert_eq!(
        gateway_text(r#"{"op":10,"d":{"heartbeat_interval":41250}}"#),
        GatewayInput::Text(obj(vec![("d", obj(vec![("heartbeat_interval", n(41250))])), ("op", n(10))]))
    );
    assert_eq!(
        gateway_text(r#"[-5, 1.5, "x", null, true]"#),
        GatewayInput::Text(JsonValue::Array(vec![
            JsonValue::Number(JsonNumber::NegInt(-5)),
            JsonValue::Number(JsonNumber::Float("1.5".to_string())),
            s("x"),
            JsonValue::Null,
            JsonValue::Bool(true),
        ]))
    );
    assert_eq!(gateway_text("not json"), GatewayInput::Unreadable);
    assert_eq!(gateway_text(r#"{"op":"#), GatewayInput::Unreadable);
    let mut g = GatewaySession::new();
    assert_eq!(
        g.step(gateway_text(r#"{"op":10}"#)),
        GatewayAction::Identify { heartbeat_interval_ms: 45000 }
    );
}

#[test]
fn outgoing_texts() {
    assert_eq!(hello_text(), r#"{"d":{"heartbeat_interval":30000},"op":1,"t":"HELLO"}"#);
    assert_eq!(heartbeat_text(), r#"{"d":null,"op":1}"#);
    assert_eq!(
        identify_text("tok", "linux"),
        r#"{"d":{"intents":259,"properties":{"browser":"neurobox-api","device":"neurobox-api","os":"linux"},"token":"tok"},"op":2}"#
    );
    assert_eq!(init_state_text(1, JsonValue::Null), r#"{"d":null,"op":0,"seq":1,"t":"INIT_STATE"}"#);
    assert_eq!(
        presence_update_text(7, obj(vec![("user_id", s("a"))])),
        r#"{"d":{"user_id":"a"},"op":0,"seq":7,"t":"PRESENCE_UPDATE"}"#
    );
}
