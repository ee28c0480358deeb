use neurobox_api::commands::{
    delete_reply, kv_command, list_reply, option_value, plan_interaction, set_reply, usage_reply,
    KvCommand,
};
use neurobox_api::json::{JsonNumber, JsonValue};
use neurobox_api::strmap::StrMap;

fn s(v: &str) -> JsonValue {
    JsonValue::Str(v.to_string())
}

fn n(v: u64) -> JsonValue {
    JsonValue::Number(JsonNumber::PosInt(v))
}

fn obj(members: Vec<(&str, JsonValue)>) -> JsonValue {
    JsonValue::Object(members.into_iter().map(|(k, v)| (k.to_string(), v)).collect())
}

fn option(name: &str, value: JsonValue) -> JsonValue {
    obj(vec![("name", s(name)), ("type", n(3)), ("value", value)])
}

fn subcommand(name: &str, options: Vec<JsonValue>) -> JsonValue {
    obj(vec![("name", s(name)), ("type", n(1)), ("options", JsonValue::Array(options))])
}

fn interaction(sub: Option<JsonValue>) -> JsonValue {
    let mut data = vec![("name", s("kv"))];
    if let Some(sub) = sub {
        data.push(("options", JsonValue::Array(vec![sub])));
    }
    obj(vec![
        ("type", n(2)),
        ("id", s("int1")),
        ("token", s("tok1")),
        ("member", obj(vec![("user", obj(vec![("id", s("u1"))]))])),
        ("data", obj(data)),
    ])
}

#[test]
fn option_value_finds_first_named_option() {
    let cmd = subcommand("set", vec![option("key", s("site")), option("value", s("yaw.cx")), option("key", s("other"))]);
    assert_eq!(option_value(&cmd, "key"), Some("site".to_string()));
    assert_eq!(option_value(&cmd, "value"), Some("yaw.cx".to_string()));
    assert_eq!(option_value(&cmd, "missing"), None);
    let cmd = subcommand("set", vec![option("key", n(5)), option("key", s("later"))]);
    assert_eq!(option_value(&cmd, "key"), None);
    assert_eq!(option_value(&obj(vec![]), "key"), None);
}

#[test]
fn set_interaction_is_planned() {
    let i = interaction(Some(subcommand("set", vec![option("key", s("site")), option("value", s("yaw.cx"))])));
    let req = plan_interaction(Some(&i)).unwrap();
    assert_eq!(req.interaction_id, "int1");
    assert_eq!(req.interaction_token, "tok1");
    assert_eq!(req.user_id, "u1");
    assert_eq!(req.command, KvCommand::SetValue { key: "site".into(), value: "yaw.cx".into() });
}

#[test]
fn interaction_commands() {
    let cases = vec![
        (subcommand("set", vec![option("key", s("k"))]), KvCommand::SetUsage),
        (subcommand("delete", vec![option("key", s("k"))]), KvCommand::DeleteKey { key: "k".into() }),
        (subcommand("delete", vec![]), KvCommand::DeleteUsage),
        (subcommand("list", vec![]), KvCommand::List),
        (subcommand("other", vec![]), KvCommand::Usage),
    ];
    for (sub, expected) in cases {
        let req = plan_interaction(Some(&interaction(Some(sub)))).unwrap();
        assert_eq!(req.command, expected);
    }
    let req = plan_interaction(Some(&interaction(None))).unwrap();
    assert_eq!(req.command, KvCommand::Usage);
    assert_eq!(kv_command(None), KvCommand::Usage);
    assert_eq!(kv_command(Some(&JsonValue::Array(vec![]))), KvCommand::Usage);
}

#[test]
fn interaction_user_from_direct_message() {
    let i = obj(vec![
        ("type", n(2)),
        ("id", s("i")),
        ("token", s("t")),
        ("user", obj(vec![("id", s("dm-user"))])),
        ("data", obj(vec![("name", s("kv"))])),
    ]);
    assert_eq!(plan_interaction(Some(&i)).unwrap().user_id, "dm-user");
}

#[test]
fn interactions_that_are_not_answered() {
    let mut wrong_type = interaction(None);
    if let JsonValue::Object(m) = &mut wrong_type {
        m[0].1 = n(3);
    }
    assert!(plan_interaction(Some(&wrong_type)).is_none());
    let other_command = obj(vec![
        ("type", n(2)),
        ("id", s("i")),
        ("token", s("t")),
        ("user", obj(vec![("id", s("u"))])),
        ("data", obj(vec![("name", s("ping"))])),
    ]);
    assert!(plan_interaction(Some(&other_command)).is_none());
    let no_user = obj(vec![("type", n(2)), ("id", s("i")), ("token", s("t")), ("data", obj(vec![("name", s("kv"))]))]);
    assert!(plan_interaction(Some(&no_user)).is_none());
    let no_token = obj(vec![("type", n(2)), ("id", s("i")), ("user", obj(vec![("id", s("u"))])), ("data", obj(vec![("name", s("kv"))]))]);
    assert!(plan_interaction(Some(&no_token)).is_none());
    assert!(plan_interaction(None).is_none());
}

#[test]
fn replies() {
    assert_eq!(set_reply("site", true), "Saved `site`.");
    assert_eq!(set_reply("site", false), "I couldn't save that value.");
    assert_eq!(delete_reply("site", Some(true)), "Deleted `site`.");
    assert_eq!(delete_reply("site", Some(false)), "`site` was not set.");
    assert_eq!(delete_reply("site", None), "I couldn't delete that value.");
    assert_eq!(usage_reply(&KvCommand::SetUsage).as_deref(), Some("Use `/kv set key:<name> value:<value>`."));
    assert_eq!(usage_reply(&KvCommand::DeleteUsage).as_deref(), Some("Use `/kv delete key:<name>`."));
    assert_eq!(usage_reply(&KvCommand::Usage).as_deref(), Some("Use `/kv set`, `/kv delete`, or `/kv list`."));
    assert_eq!(usage_reply(&KvCommand::List), None);
}

#[test]
fn list_reply_sorted_by_key() {
    let mut kv = StrMap::new();
    assert_eq!(list_reply(&kv), "You do not have any saved values yet.");
    kv.insert("site".to_string(), "yaw.cx".to_string());
    kv.insert("bio".to_string(), "hello".to_string());
    kv.insert("Zed".to_string(), "z".to_string());
    kv.insert("bio".to_string(), "hi".to_string());
    assert_eq!(list_reply(&kv), "`Zed` = z\n`bio` = hi\n`site` = yaw.cx");
    let mut one = StrMap::new();
    one.insert("k".to_string(), "v".to_string());
    assert_eq!(list_reply(&one), "`k` = v");
}
