use neurobox_api::config::{config_from_values, ConfigError};
use neurobox_api::json::{JsonNumber, JsonValue};
use neurobox_api::requests::{
    bot_authorization, command_registration_url, interaction_callback_body,
    interaction_callback_url, kv_command_definition, user_profile_url,
};
use neurobox_api::routes::{health_body, not_found_body, root_body, user_not_found_body};

fn some(s: &str) -> Option<String> {
    Some(s.to_string())
}

fn s(v: &str) -> JsonValue {
    JsonValue::Str(v.to_string())
}

fn n(v: u64) -> JsonValue {
    JsonValue::Number(JsonNumber::PosInt(v))
}

fn obj(members: Vec<(&str, JsonValue)>) -> JsonValue {
    JsonValue::Object(members.into_iter().map(|(k, v)| (k.to_string(), v)).collect())
}

#[test]
fn config_defaults() {
    let c = config_from_values(some("tok"), None, None, None, None).unwrap();
    assert_eq!(c.token, "tok");
    assert_eq!(c.host, "127.0.0.1");
    assert_eq!(c.port, 3000);
    assert_eq!(c.kv_path, "storage/kv.json");
    assert_eq!(c.guild_id, None);
}

#[test]
fn config_given_values() {
    let c = config_from_values(some("tok"), some("0.0.0.0"), some("8080"), some("/data/kv.json"), some("123")).unwrap();
    assert_eq!(c.host, "0.0.0.0");
    assert_eq!(c.port, 8080);
    assert_eq!(c.kv_path, "/data/kv.json");
    assert_eq!(c.guild_id.as_deref(), Some("123"));
}

#[test]
fn config_blank_guild_is_none() {
    let c = config_from_values(some("tok"), None, None, None, some("  \t")).unwrap();
    assert_eq!(c.guild_id, None);
    let c = config_from_values(some("tok"), None, None, None, some("")).unwrap();
    assert_eq!(c.guild_id, None);
    let c = config_from_values(some("tok"), None, None, None, some(" 5 ")).unwrap();
    assert_eq!(c.guild_id.as_deref(), Some(" 5 "));
}

#[test]
fn config_errors() {
    assert_eq!(config_from_values(None, None, some("nope"), None, None), Err(ConfigError::MissingToken));
    assert_eq!(config_from_values(some("t"), None, some("70000"), None, None), Err(ConfigError::InvalidPort));
    assert_eq!(config_from_values(some("t"), None, some("abc"), None, None), Err(ConfigError::InvalidPort));
}

#[test]
fn request_urls_and_headers() {
    assert_eq!(bot_authorization("abc"), "Bot abc");
    assert_eq!(
        command_registration_url("app", Some("guild")),
        "https://discord.com/api/v10/applications/app/guilds/guild/commands"
    );
    assert_eq!(command_registration_url("app", None), "https://discord.com/api/v10/applications/app/commands");
    assert_eq!(user_profile_url("42"), "https://discord.com/api/v10/users/42");
    assert_eq!(
        interaction_callback_url("i1", "tok"),
        "https://discord.com/api/v10/interactions/i1/tok/callback"
    );
    assert_eq!(
        interaction_callback_body("Saved `site`."),
        obj(vec![("type", n(4)), ("data", obj(vec![("content", s("Saved `site`.")), ("flags", n(64))]))])
    );
}

#[test]
fn kv_command_definition_shape() {
    let def = kv_command_definition();
    let opt = |name: &str, desc: &str| {
        obj(vec![("type", n(3)), ("name", s(name)), ("description", s(desc)), ("required", JsonValue::Bool(true))])
    };
    let expected = obj(vec![
        ("name", s("kv")),
        ("description", s("Manage your Neurobox profile metadata")),
        (
            "options",
            JsonValue::Array(vec![
                obj(vec![
                    ("type", n(1)),
                    ("name", s("set")),
                    ("description", s("Set one profile value")),
                    ("options", JsonValue::Array(vec![opt("key", "The field name, like site or bio"), opt("value", "The value to save")])),
                ]),
                obj(vec![
                    ("type", n(1)),
                    ("name", s("delete")),
                    ("description", s("Delete one profile value")),
                    ("options", JsonValue::Array(vec![opt("key", "The field name to delete")])),
                ]),
                obj(vec![("type", n(1)), ("name", s("list")), ("description", s("Show your saved profile values"))]),
            ]),
        ),
    ]);
    assert_eq!(def, expected);
}

#[test]
fn route_bodies() {
    assert_eq!(health_body(3), obj(vec![("ok", JsonValue::Bool(true)), ("cached_users", n(3))]));
    assert_eq!(
        user_not_found_body(),
        obj(vec![("success", JsonValue::Bool(false)), ("error", s("user_not_found_or_not_cached"))])
    );
    match root_body() {
        JsonValue::Object(m) => {
            assert_eq!(m[0], ("service".to_string(), s("neurobox-api")));
        }
        _ => panic!(),
    }
    match not_found_body() {
        JsonValue::Object(m) => {
            assert_eq!(m[1], ("error".to_string(), s("route_not_found")));
            assert_eq!(m.len(), 3);
        }
        _ => panic!(),
    }
}

#[test]
fn bind_address_text() {
    let c = config_from_values(some("t"), some("0.0.0.0"), some("+0080"), None, None).unwrap();
    assert_eq!(c.bind_address(), "0.0.0.0:80");
    let c = config_from_values(some("t"), None, None, None, None).unwrap();
    assert_eq!(c.bind_address(), "127.0.0.1:3000");
    let c = config_from_values(some("t"), some("::1"), some("0"), None, None).unwrap();
    assert_eq!(c.bind_address(), "::1:0");
    let c = config_from_values(some("t"), some("h"), some("65535"), None, None).unwrap();
    assert_eq!(c.bind_address(), "h:65535");
}
