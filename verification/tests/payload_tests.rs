use neurobox_api::json::{JsonNumber, JsonValue};
use neurobox_api::models::ActivityTimestamps;
use neurobox_api::payload::{
    decode_assets_exec, decode_client_status_exec, decode_timestamps_exec, parse_activity,
    parse_discord_user, parse_presence,
};

fn s(v: &str) -> JsonValue {
    JsonValue::Str(v.to_string())
}

fn n(v: u64) -> JsonValue {
    JsonValue::Number(JsonNumber::PosInt(v))
}

fn obj(members: Vec<(&str, JsonValue)>) -> JsonValue {
    JsonValue::Object(members.into_iter().map(|(k, v)| (k.to_string(), v)).collect())
}

fn sample_presence() -> JsonValue {
    obj(vec![
        (
            "user",
            obj(vec![
                ("id", s("719186341878825000")),
                ("username", s("0yaw")),
                ("discriminator", s("0")),
                ("avatar", s("5813076fc1d91d3063d05440efcb3f3a")),
                ("global_name", s("Matthew")),
            ]),
        ),
        ("status", s("dnd")),
        ("client_status", obj(vec![("desktop", s("dnd"))])),
        (
            "activities",
            JsonValue::Array(vec![
                obj(vec![
                    ("name", s("Custom Status")),
                    ("type", n(4)),
                    ("state", s("This is my regular status! Hello!")),
                    ("timestamps", obj(vec![("end", n(1779918857138))])),
                    ("emoji", obj(vec![("name", s("✅"))])),
                ]),
                obj(vec![
                    ("name", s("Spotify")),
                    ("type", n(2)),
                    ("state", s("Artist")),
                    ("details", s("Song")),
                    ("sync_id", s("track123")),
                    ("timestamps", obj(vec![("start", n(10)), ("end", n(20))])),
                    (
                        "assets",
                        obj(vec![("large_image", s("spotify:img1")), ("large_text", s("Album"))]),
                    ),
                ]),
                obj(vec![("type", n(0))]),
            ]),
        ),
    ])
}

#[test]
fn parse_presence_of_gateway_object() {
    let p = parse_presence(&sample_presence()).expect("presence");
    assert_eq!(p.user_id, "719186341878825000");
    assert_eq!(p.discord_user.username.as_deref(), Some("0yaw"));
    assert_eq!(p.discord_user.display_name.as_deref(), Some("Matthew"));
    assert_eq!(
        p.discord_user.avatar.as_deref(),
        Some("https://cdn.discordapp.com/avatars/719186341878825000/5813076fc1d91d3063d05440efcb3f3a.png?size=1024")
    );
    assert_eq!(p.discord_status, "dnd");
    assert!(p.active_on_discord_desktop);
    assert!(!p.active_on_discord_mobile);
    assert!(!p.active_on_discord_web);
    // The activity without a name is skipped.
    assert_eq!(p.activities.len(), 2);
    assert_eq!(p.activities[0].name, "Custom Status");
    assert_eq!(p.activities[0].kind, 4);
    assert_eq!(p.activities[0].timestamps, Some(ActivityTimestamps { start: None, end: Some(1779918857138) }));
    assert_eq!(p.activities[0].emoji, Some(obj(vec![("name", s("✅"))])));
    assert_eq!(p.activities[0].party, None);
    assert!(p.listening_to_spotify);
    let spotify = p.spotify.expect("spotify");
    assert_eq!(spotify.track_id.as_deref(), Some("track123"));
    assert_eq!(spotify.album.as_deref(), Some("Album"));
    assert_eq!(spotify.album_art_url.as_deref(), Some("https://i.scdn.co/image/img1"));
    assert_eq!(spotify.artist.as_deref(), Some("Artist"));
    assert_eq!(spotify.song.as_deref(), Some("Song"));
    assert_eq!(spotify.timestamps, Some(ActivityTimestamps { start: Some(10), end: Some(20) }));
    assert!(p.kv.is_empty());
}

#[test]
fn parse_presence_defaults() {
    let v = obj(vec![("user", obj(vec![("id", s("1"))]))]);
    let p = parse_presence(&v).expect("presence");
    assert_eq!(p.discord_status, "offline");
    assert!(p.activities.is_empty());
    assert!(!p.listening_to_spotify && p.spotify.is_none());
    assert!(p.discord_user.needs_profile());
}

#[test]
fn parse_presence_needs_user_id() {
    assert!(parse_presence(&obj(vec![("status", s("online"))])).is_none());
    assert!(parse_presence(&obj(vec![("user", obj(vec![("id", n(1))]))])).is_none());
    assert!(parse_presence(&JsonValue::Null).is_none());
}

#[test]
fn client_status_that_does_not_decode_counts_as_no_client() {
    let v = obj(vec![
        ("user", obj(vec![("id", s("1"))])),
        ("client_status", obj(vec![("desktop", s("online")), ("web", n(3))])),
    ]);
    let p = parse_presence(&v).unwrap();
    assert!(!p.active_on_discord_desktop && !p.active_on_discord_web);
}

#[test]
fn decode_client_status_forms() {
    let c = decode_client_status_exec(&obj(vec![("mobile", s("idle")), ("other", n(1))])).unwrap();
    assert_eq!(c.mobile.as_deref(), Some("idle"));
    assert_eq!(c.desktop, None);
    let c = decode_client_status_exec(&JsonValue::Array(vec![s("a"), JsonValue::Null, s("c")])).unwrap();
    assert_eq!(c.desktop.as_deref(), Some("a"));
    assert_eq!(c.mobile, None);
    assert_eq!(c.web.as_deref(), Some("c"));
    assert!(decode_client_status_exec(&JsonValue::Array(vec![s("a"), s("b")])).is_none());
    assert!(decode_client_status_exec(&JsonValue::Null).is_none());
    assert!(decode_client_status_exec(&s("desktop")).is_none());
}

#[test]
fn decode_timestamps_forms() {
    assert_eq!(
        decode_timestamps_exec(&obj(vec![("start", n(5))])),
        Some(ActivityTimestamps { start: Some(5), end: None })
    );
    assert_eq!(
        decode_timestamps_exec(&JsonValue::Array(vec![n(1), n(2)])),
        Some(ActivityTimestamps { start: Some(1), end: Some(2) })
    );
    assert_eq!(decode_timestamps_exec(&obj(vec![("start", JsonValue::Number(JsonNumber::NegInt(-1)))])), None);
    assert_eq!(decode_timestamps_exec(&obj(vec![("start", JsonValue::Number(JsonNumber::Float("1.5".into())))])), None);
    assert_eq!(decode_timestamps_exec(&obj(vec![("end", s("1"))])), None);
    assert_eq!(decode_timestamps_exec(&JsonValue::Array(vec![n(1), n(2), n(3)])), None);
}

#[test]
fn decode_assets_forms() {
    let a = decode_assets_exec(&obj(vec![("small_text", s("t"))])).unwrap();
    assert_eq!(a.small_text.as_deref(), Some("t"));
    assert_eq!(a.large_image, None);
    assert!(decode_assets_exec(&JsonValue::Bool(true)).is_none());
}

#[test]
fn activity_type_keeps_low_byte() {
    let a = parse_activity(&obj(vec![("name", s("x")), ("type", n(258)), ("flags", n(48))])).unwrap();
    assert_eq!(a.kind, 2);
    assert_eq!(a.flags, Some(48));
    assert!(parse_activity(&obj(vec![("name", s("x")), ("type", JsonValue::Number(JsonNumber::NegInt(-1)))])).is_none());
    assert!(parse_activity(&obj(vec![("name", s("x"))])).is_none());
}

#[test]
fn non_spotify_listening_is_not_spotify() {
    let v = obj(vec![
        ("user", obj(vec![("id", s("1"))])),
        ("activities", JsonValue::Array(vec![obj(vec![("name", s("Apple Music")), ("type", n(2))])])),
    ]);
    let p = parse_presence(&v).unwrap();
    assert!(!p.listening_to_spotify);
}

#[test]
fn discord_user_from_missing_value() {
    assert!(parse_discord_user(None).is_none());
    let u = obj(vec![("id", s("9")), ("avatar", s("a_1"))]);
    let d = parse_discord_user(Some(&u)).unwrap();
    assert_eq!(d.avatar.as_deref(), Some("https://cdn.discordapp.com/avatars/9/a_1.gif?size=1024"));
}
