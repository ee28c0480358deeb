use neurobox_api::models::{DiscordUser, Presence};
use neurobox_api::state::{AppData, RegistrationLatch};
use neurobox_api::strmap::StrMap;

fn user(id: &str, complete: bool) -> DiscordUser {
    DiscordUser {
        id: id.to_string(),
        username: Some(format!("{id}-name")),
        discriminator: Some("0".to_string()),
        avatar: if complete { Some("img".to_string()) } else { None },
        display_name: Some("Display".to_string()),
    }
}

fn presence(id: &str, complete: bool) -> Presence {
    let mut p = Presence::offline(user(id, complete));
    p.discord_status = "online".to_string();
    p
}

fn empty() -> AppData {
    AppData::new(StrMap::new())
}

#[test]
fn set_then_read_kv() {
    let mut d = empty();
    d.set_kv("u1", "site".to_string(), "yaw.cx".to_string());
    d.set_kv("u1", "bio".to_string(), "hi".to_string());
    d.set_kv("u1", "site".to_string(), "new.site".to_string());
    let kv = d.user_kv("u1");
    assert_eq!(kv.get("site").map(|s| s.as_str()), Some("new.site"));
    assert_eq!(kv.get("bio").map(|s| s.as_str()), Some("hi"));
    assert_eq!(kv.len(), 2);
    assert!(d.user_kv("u2").is_empty());
}

#[test]
fn delete_kv_reports_and_drops_empty_users() {
    let mut d = empty();
    d.set_kv("u1", "site".to_string(), "x".to_string());
    assert!(!d.delete_kv("u1", "missing"));
    assert!(d.kv().contains_key("u1"));
    assert!(d.delete_kv("u1", "site"));
    assert!(!d.kv().contains_key("u1"));
    assert!(!d.delete_kv("u1", "site"));
    assert!(!d.delete_kv("nobody", "site"));
}

#[test]
fn delete_kv_drops_user_loaded_with_no_pairs() {
    let mut kv = StrMap::new();
    kv.insert("u1".to_string(), StrMap::new());
    let mut d = AppData::new(kv);
    assert!(!d.delete_kv("u1", "anything"));
    assert!(!d.kv().contains_key("u1"));
}

#[test]
fn cache_presence_attaches_kv_and_remembers_complete_users() {
    let mut d = empty();
    d.set_kv("u1", "site".to_string(), "yaw.cx".to_string());
    let event = d.cache_presence(presence("u1", true));
    assert_eq!(event.user_id, "u1");
    assert_eq!(event.presence.kv.get("site").map(|s| s.as_str()), Some("yaw.cx"));
    let cached = d.presence_of("u1").unwrap();
    assert_eq!(cached, event.presence);
    assert!(d.cached_user("u1").is_some());
    d.cache_presence(presence("u2", false));
    assert!(d.cached_user("u2").is_none());
    assert_eq!(d.cached_users(), 2);
    d.cache_presence(presence("u2", false));
    assert_eq!(d.cached_users(), 2);
}

#[test]
fn publish_refreshes_cached_presence() {
    let mut d = empty();
    assert!(d.publish_presence_update("u1").is_none());
    d.cache_presence(presence("u1", true));
    d.set_kv("u1", "k".to_string(), "v".to_string());
    let event = d.publish_presence_update("u1").unwrap();
    assert_eq!(event.presence.kv.get("k").map(|s| s.as_str()), Some("v"));
    assert_eq!(d.presence_of("u1").unwrap().kv.get("k").map(|s| s.as_str()), Some("v"));
}

#[test]
fn serve_cached_merges_profile_when_needed() {
    let mut d = empty();
    d.set_kv("u1", "k".to_string(), "v".to_string());
    let partial = presence("u1", false);
    let served = d.serve_cached(partial.duplicate_presence(), Some(user("u1", true)));
    assert_eq!(served.discord_user.avatar.as_deref(), Some("img"));
    assert_eq!(served.kv.get("k").map(|s| s.as_str()), Some("v"));
    let served = d.serve_cached(partial.duplicate_presence(), None);
    assert_eq!(served.discord_user.avatar, None);
    let complete = presence("u1", true);
    let mut other = user("u1", true);
    other.avatar = Some("other".to_string());
    let served = d.serve_cached(complete, Some(other));
    assert_eq!(served.discord_user.avatar.as_deref(), Some("img"));
    d.remember_user("u9", user("u9", true));
    assert_eq!(d.cached_user("u9"), Some(user("u9", true)));
}

#[test]
fn serve_offline_has_kv() {
    let mut d = empty();
    d.set_kv("u3", "a".to_string(), "b".to_string());
    let p = d.serve_offline(user("u3", true));
    assert_eq!(p.discord_status, "offline");
    assert_eq!(p.kv.get("a").map(|s| s.as_str()), Some("b"));
}

#[test]
fn batch_keeps_cached_requested_users() {
    let mut d = empty();
    d.cache_presence(presence("a", true));
    d.cache_presence(presence("b", true));
    d.set_kv("a", "x".to_string(), "1".to_string());
    let ids = vec!["a".to_string(), "c".to_string(), "a".to_string()];
    let out = d.batch_presences(&ids);
    assert_eq!(out.len(), 1);
    let a = out.get("a").unwrap();
    assert_eq!(a.kv.get("x").map(|s| s.as_str()), Some("1"));
    assert!(out.get("b").is_none());
}

#[test]
fn latch_claims_once() {
    let mut latch = RegistrationLatch::new();
    assert!(latch.claim());
    assert!(!latch.claim());
    assert!(!latch.claim());
}

#[test]
fn cached_presences_stay_under_their_user_id() {
    let mut d = empty();
    d.cache_presence(presence("a", true));
    d.cache_presence(presence("b", false));
    d.set_kv("a", "k".to_string(), "v".to_string());
    d.publish_presence_update("a");
    for (id, p) in d.presences().entries().iter() {
        assert_eq!(&p.user_id, id);
    }
}

#[test]
fn no_user_is_left_with_empty_pairs() {
    let mut d = empty();
    d.set_kv("u", "a".to_string(), "1".to_string());
    d.set_kv("u", "b".to_string(), "2".to_string());
    d.delete_kv("u", "a");
    d.delete_kv("u", "b");
    d.set_kv("w", "c".to_string(), "3".to_string());
    for (_, pairs) in d.kv().entries().iter() {
        assert!(!pairs.is_empty());
    }
    assert!(!d.kv().contains_key("u"));
}

#[test]
fn delete_undoes_set_of_fresh_key() {
    let mut d = empty();
    d.set_kv("u", "a".to_string(), "1".to_string());
    let before = d.user_kv("u");
    d.set_kv("u", "b".to_string(), "2".to_string());
    assert!(d.delete_kv("u", "b"));
    assert_eq!(d.user_kv("u"), before);
    d.set_kv("fresh", "x".to_string(), "y".to_string());
    assert!(d.delete_kv("fresh", "x"));
    assert!(!d.kv().contains_key("fresh"));
    assert_eq!(d.kv().len(), 1);
}

#[test]
fn setting_twice_is_setting_once() {
    let mut once = empty();
    once.set_kv("u", "a".to_string(), "1".to_string());
    let mut twice = empty();
    twice.set_kv("u", "a".to_string(), "1".to_string());
    twice.set_kv("u", "a".to_string(), "1".to_string());
    assert_eq!(once.user_kv("u"), twice.user_kv("u"));
    assert_eq!(twice.kv().len(), 1);
}

#[test]
fn only_first_of_many_claims_succeeds() {
    let mut latch = RegistrationLatch::new();
    let results: Vec<bool> = (0..5).map(|_| latch.claim()).collect();
    assert_eq!(results, vec![true, false, false, false, false]);
}
