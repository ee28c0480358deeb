use neurobox_api::json::{JsonNumber, JsonValue};
use neurobox_api::models::{
    avatar_url, spotify_album_art_url, DiscordUser, DiscordUserApi, Presence,
};

fn user(id: &str, username: Option<&str>, avatar: Option<&str>, display: Option<&str>) -> DiscordUser {
    DiscordUser {
        id: id.to_string(),
        username: username.map(|s| s.to_string()),
        discriminator: None,
        avatar: avatar.map(|s| s.to_string()),
        display_name: display.map(|s| s.to_string()),
    }
}

#[test]
fn avatar_url_png_for_plain_hash() {
    assert_eq!(
        avatar_url("719186341878825000", "5813076fc1d91d3063d05440efcb3f3a"),
        "https://cdn.discordapp.com/avatars/719186341878825000/5813076fc1d91d3063d05440efcb3f3a.png?size=1024"
    );
}

#[test]
fn avatar_url_gif_for_animated_hash() {
    assert_eq!(
        avatar_url("42", "a_deadbeef"),
        "https://cdn.discordapp.com/avatars/42/a_deadbeef.gif?size=1024"
    );
    // Only a leading "a_" makes an animated avatar.
    assert_eq!(avatar_url("42", "ba_x"), "https://cdn.discordapp.com/avatars/42/ba_x.png?size=1024");
    assert_eq!(avatar_url("42", "a"), "https://cdn.discordapp.com/avatars/42/a.png?size=1024");
}

#[test]
fn spotify_art_url_from_spotify_asset() {
    assert_eq!(
        spotify_album_art_url("spotify:ab67616d0000b273"),
        Some("https://i.scdn.co/image/ab67616d0000b273".to_string())
    );
    assert_eq!(spotify_album_art_url("spotify:"), Some("https://i.scdn.co/image/".to_string()));
    assert_eq!(spotify_album_art_url("mp:external/abc"), None);
    assert_eq!(spotify_album_art_url("Spotify:abc"), None);
}

#[test]
fn needs_profile_when_any_shown_field_is_missing() {
    assert!(!user("1", Some("u"), Some("a"), Some("d")).needs_profile());
    assert!(user("1", None, Some("a"), Some("d")).needs_profile());
    assert!(user("1", Some("u"), None, Some("d")).needs_profile());
    assert!(user("1", Some("u"), Some("a"), None).needs_profile());
}

#[test]
fn merge_fills_only_missing_fields() {
    let partial = user("1", Some("mine"), None, None);
    let mut profile = user("2", Some("theirs"), Some("img"), Some("Display"));
    profile.discriminator = Some("0".to_string());
    let merged = partial.merge(profile);
    assert_eq!(merged.id, "1");
    assert_eq!(merged.username.as_deref(), Some("mine"));
    assert_eq!(merged.avatar.as_deref(), Some("img"));
    assert_eq!(merged.display_name.as_deref(), Some("Display"));
    assert_eq!(merged.discriminator.as_deref(), Some("0"));
    assert!(!merged.needs_profile());
}

#[test]
fn merge_of_complete_user_changes_nothing() {
    let mut complete = user("1", Some("u"), Some("a"), Some("d"));
    complete.discriminator = Some("7".to_string());
    let merged = complete.clone().merge(user("9", Some("x"), Some("y"), Some("z")));
    assert_eq!(merged, complete);
}

#[test]
fn from_api_builds_avatar_url_and_display_name() {
    let api = DiscordUserApi {
        id: "719186341878825000".to_string(),
        username: Some("0yaw".to_string()),
        discriminator: Some("0".to_string()),
        avatar: Some("5813076fc1d91d3063d05440efcb3f3a".to_string()),
        global_name: Some("Matthew".to_string()),
    };
    let u = DiscordUser::from_api(api);
    assert_eq!(u.id, "719186341878825000");
    assert_eq!(u.username.as_deref(), Some("0yaw"));
    assert_eq!(u.discriminator.as_deref(), Some("0"));
    assert_eq!(
        u.avatar.as_deref(),
        Some("https://cdn.discordapp.com/avatars/719186341878825000/5813076fc1d91d3063d05440efcb3f3a.png?size=1024")
    );
    assert_eq!(u.display_name.as_deref(), Some("Matthew"));
}

#[test]
fn from_api_without_avatar() {
    let api = DiscordUserApi {
        id: "5".to_string(),
        username: None,
        discriminator: None,
        avatar: None,
        global_name: None,
    };
    let u = DiscordUser::from_api(api);
    assert_eq!(u.avatar, None);
    assert!(u.needs_profile());
}

#[test]
fn offline_presence_is_empty() {
    let p = Presence::offline(user("77", Some("u"), None, None));
    assert_eq!(p.user_id, "77");
    assert_eq!(p.discord_status, "offline");
    assert!(p.activities.is_empty());
    assert!(!p.active_on_discord_desktop && !p.active_on_discord_mobile && !p.active_on_discord_web);
    assert!(!p.listening_to_spotify);
    assert!(p.spotify.is_none());
    assert!(p.kv.is_empty());
    assert_eq!(p.discord_user.username.as_deref(), Some("u"));
}

#[test]
fn json_copy_is_equal() {
    let v = JsonValue::Object(vec![
        ("a".to_string(), JsonValue::Array(vec![JsonValue::Null, JsonValue::Bool(true)])),
        ("b".to_string(), JsonValue::Number(JsonNumber::Float("1.5".to_string()))),
        ("c".to_string(), JsonValue::Number(JsonNumber::NegInt(-3))),
    ]);
    assert_eq!(v.copy(), v);
}
