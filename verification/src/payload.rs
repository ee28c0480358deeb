//! Reading presences out of gateway payloads.
//!
//! A few nested records (client status, timestamps, assets) are decoded the
//! way a derived serde `Deserialize` decodes them from a JSON document: an
//! object whose members are matched by name (missing optional members are
//! absent, unknown members are ignored), or an array holding exactly one
//! element per field, in declaration order. Anything else fails.

use vstd::prelude::*;

use crate::json::{opt_view, views, Json, JsonNumber, JsonValue, NumberModel};
use crate::models::{
    activity_views, avatar_url, copy_opt_string, opt_assets, opt_avatar_url, opt_json, opt_spotify,
    opt_str, spotify_album_art_url, spotify_album_art_url_spec, Activity, ActivityAssets,
    ActivityAssetsView, ActivityTimestamps, ActivityView, ClientStatus, ClientStatusView,
    DiscordUser, DiscordUserView, Presence, PresenceView, Spotify, SpotifyView,
};
use crate::strmap::StrMap;
use crate::text::{owned, str_equal};

verus! {

/// A member that may be missing stands for null.
pub open spec fn or_null(o: Option<Json>) -> Json {
    match o {
        Some(v) => v,
        None => Json::Null,
    }
}

/// `v[key]` where `v` may itself be missing.
pub open spec fn at_opt(v: Option<Json>, key: Seq<char>) -> Json {
    or_null(v).at(key)
}

/// The member `key` of `v`, where `v` may itself be missing.
pub fn lookup<'a>(v: Option<&'a JsonValue>, key: &str) -> (r: Option<&'a JsonValue>)
    ensures
        or_null(opt_view(r)) == at_opt(opt_view(v), key@),
{
    match v {
        Some(x) => x.member(key),
        None => None,
    }
}

/// The string at `v[key]`, if that member is a string.
pub fn optional_string(v: Option<&JsonValue>, key: &str) -> (r: Option<String>)
    ensures
        opt_str(r) == at_opt(opt_view(v), key@).as_str(),
{
    match lookup(v, key) {
        Some(x) => match x.as_str() {
            Some(s) => Some(s.clone()),
            None => None,
        },
        None => None,
    }
}

/// A document that is not null.
pub open spec fn optional_value_spec(v: Json) -> Option<Json> {
    if v.is_null() {
        None
    } else {
        Some(v)
    }
}

/// A copy of `v[key]`, unless it is null or missing.
pub fn optional_value(v: Option<&JsonValue>, key: &str) -> (r: Option<JsonValue>)
    ensures
        opt_json(r) == optional_value_spec(at_opt(opt_view(v), key@)),
{
    match lookup(v, key) {
        Some(x) => if x.is_null() {
            None
        } else {
            Some(x.copy())
        },
        None => None,
    }
}

/// The non-negative integer at `v[key]`.
pub fn optional_u64(v: Option<&JsonValue>, key: &str) -> (r: Option<u64>)
    ensures
        r == at_opt(opt_view(v), key@).as_u64(),
{
    match lookup(v, key) {
        Some(x) => x.as_u64(),
        None => None,
    }
}

/// An optional string field: null is absent, a string is present, anything
/// else fails (the outer `None`).
pub open spec fn decode_opt_str(v: Json) -> Option<Option<Seq<char>>> {
    match v {
        Json::Null => Some(None),
        Json::Str(s) => Some(Some(s)),
        _ => None,
    }
}

/// An optional `u64` field: null is absent, an integer in range is present,
/// anything else fails.
pub open spec fn decode_opt_u64(v: Json) -> Option<Option<u64>> {
    match v {
        Json::Null => Some(None),
        Json::Number(NumberModel::PosInt(n)) => Some(Some(n)),
        Json::Number(NumberModel::NegInt(n)) => if n >= 0 {
            Some(Some(n as u64))
        } else {
            None
        },
        _ => None,
    }
}

/// Whether `v` has the shape of a record with `n` fields.
pub open spec fn record_shape(v: Json, n: nat) -> bool {
    match v {
        Json::Object(_) => true,
        Json::Array(items) => items.len() == n,
        _ => false,
    }
}

/// The field named `name`, declared at position `pos`, of the record `v`;
/// `None` for a missing member of an object.
pub open spec fn record_field(v: Json, name: Seq<char>, pos: int) -> Option<Json> {
    match v {
        Json::Object(_) => v.member(name),
        Json::Array(items) => if 0 <= pos < items.len() {
            Some(items[pos])
        } else {
            None
        },
        _ => None,
    }
}

pub open spec fn decode_str_field(v: Json, name: Seq<char>, pos: int) -> Option<Option<Seq<char>>> {
    match record_field(v, name, pos) {
        Some(x) => decode_opt_str(x),
        None => Some(None),
    }
}

pub open spec fn decode_u64_field(v: Json, name: Seq<char>, pos: int) -> Option<Option<u64>> {
    match record_field(v, name, pos) {
        Some(x) => decode_opt_u64(x),
        None => Some(None),
    }
}

/// The record field `name` at position `pos`, or `None` where it is missing.
fn record_field_exec<'a>(v: &'a JsonValue, name: &str, pos: usize) -> (r: Option<&'a JsonValue>)
    requires
        v@ is Object || v@ is Array,
    ensures
        opt_view(r) == record_field(v@, name@, pos as int),
{
    match v.as_array() {
        Some(items) => if pos < items.len() {
            Some(&items[pos])
        } else {
            None
        },
        None => v.member(name),
    }
}

fn decode_str_field_exec(v: &JsonValue, name: &str, pos: usize) -> (r: Option<Option<String>>)
    requires
        v@ is Object || v@ is Array,
    ensures
        match r {
            Some(o) => decode_str_field(v@, name@, pos as int) == Some(opt_str(o)),
            None => decode_str_field(v@, name@, pos as int) is None,
        },
{
    match record_field_exec(v, name, pos) {
        Some(x) => match x {
            JsonValue::Null => Some(None),
            JsonValue::Str(s) => Some(Some(s.clone())),
            _ => None,
        },
        None => Some(None),
    }
}

fn decode_u64_field_exec(v: &JsonValue, name: &str, pos: usize) -> (r: Option<Option<u64>>)
    requires
        v@ is Object || v@ is Array,
    ensures
        r == decode_u64_field(v@, name@, pos as int),
{
    match record_field_exec(v, name, pos) {
        Some(x) => match x {
            JsonValue::Null => Some(None),
            JsonValue::Number(JsonNumber::PosInt(n)) => Some(Some(*n)),
            JsonValue::Number(JsonNumber::NegInt(n)) => if *n >= 0 {
                Some(Some(*n as u64))
            } else {
                None
            },
            _ => None,
        },
        None => Some(None),
    }
}

fn record_shape_exec(v: &JsonValue, n: usize) -> (r: bool)
    ensures
        r == record_shape(v@, n as nat),
{
    match v {
        JsonValue::Object(members) => {
            proof {
                crate::json::lemma_object_view(*members);
            }
            true
        },
        JsonValue::Array(items) => {
            proof {
                crate::json::lemma_array_view(*items);
            }
            items.len() == n
        },
        _ => false,
    }
}

/// The client status that `v` decodes to.
pub open spec fn decode_client_status(v: Json) -> Option<ClientStatusView> {
    let desktop = decode_str_field(v, "desktop"@, 0);
    let mobile = decode_str_field(v, "mobile"@, 1);
    let web = decode_str_field(v, "web"@, 2);
    if record_shape(v, 3) && desktop is Some && mobile is Some && web is Some {
        Some(ClientStatusView { desktop: desktop->0, mobile: mobile->0, web: web->0 })
    } else {
        None
    }
}

/// The client status, or no client at all where `v` does not decode.
pub open spec fn client_status_or_default(v: Json) -> ClientStatusView {
    match decode_client_status(v) {
        Some(c) => c,
        None => ClientStatusView { desktop: None, mobile: None, web: None },
    }
}

/// Decodes a client status record; `None` where `v` is not one.
pub fn decode_client_status_exec(v: &JsonValue) -> (r: Option<ClientStatus>)
    ensures
        match r {
            Some(c) => decode_client_status(v@) == Some(c@),
            None => decode_client_status(v@) is None,
        },
{
    if !record_shape_exec(v, 3) {
        return None;
    }
    let desktop = decode_str_field_exec(v, "desktop", 0);
    let mobile = decode_str_field_exec(v, "mobile", 1);
    let web = decode_str_field_exec(v, "web", 2);
    match (desktop, mobile, web) {
        (Some(desktop), Some(mobile), Some(web)) => Some(ClientStatus { desktop, mobile, web }),
        _ => None,
    }
}

/// The timestamps that `v` decodes to.
pub open spec fn decode_timestamps(v: Json) -> Option<ActivityTimestamps> {
    let start = decode_u64_field(v, "start"@, 0);
    let end = decode_u64_field(v, "end"@, 1);
    if record_shape(v, 2) && start is Some && end is Some {
        Some(ActivityTimestamps { start: start->0, end: end->0 })
    } else {
        None
    }
}

/// Decodes an activity's timestamps; `None` where `v` is not such a record.
pub fn decode_timestamps_exec(v: &JsonValue) -> (r: Option<ActivityTimestamps>)
    ensures
        r == decode_timestamps(v@),
{
    if !record_shape_exec(v, 2) {
        return None;
    }
    let start = decode_u64_field_exec(v, "start", 0);
    let end = decode_u64_field_exec(v, "end", 1);
    match (start, end) {
        (Some(start), Some(end)) => Some(ActivityTimestamps { start, end }),
        _ => None,
    }
}

/// The assets that `v` decodes to.
pub open spec fn decode_assets(v: Json) -> Option<ActivityAssetsView> {
    let large_image = decode_str_field(v, "large_image"@, 0);
    let large_text = decode_str_field(v, "large_text"@, 1);
    let small_image = decode_str_field(v, "small_image"@, 2);
    let small_text = decode_str_field(v, "small_text"@, 3);
    if record_shape(v, 4) && large_image is Some && large_text is Some && small_image is Some
        && small_text is Some {
        Some(
            ActivityAssetsView {
                large_image: large_image->0,
                large_text: large_text->0,
                small_image: small_image->0,
                small_text: small_text->0,
            },
        )
    } else {
        None
    }
}

/// Decodes an activity's assets; `None` where `v` is not such a record.
pub fn decode_assets_exec(v: &JsonValue) -> (r: Option<ActivityAssets>)
    ensures
        opt_assets(r) == decode_assets(v@),
{
    if !record_shape_exec(v, 4) {
        return None;
    }
    let large_image = decode_str_field_exec(v, "large_image", 0);
    let large_text = decode_str_field_exec(v, "large_text", 1);
    let small_image = decode_str_field_exec(v, "small_image", 2);
    let small_text = decode_str_field_exec(v, "small_text", 3);
    match (large_image, large_text, small_image, small_text) {
        (Some(large_image), Some(large_text), Some(small_image), Some(small_text)) => Some(
            ActivityAssets { large_image, large_text, small_image, small_text },
        ),
        _ => None,
    }
}


/// The user that a gateway `user` object describes; it needs an `id`.
pub open spec fn parse_discord_user_spec(v: Json) -> Option<DiscordUserView> {
    match v.at("id"@).as_str() {
        Some(id) => Some(
            DiscordUserView {
                id,
                username: v.at("username"@).as_str(),
                discriminator: v.at("discriminator"@).as_str(),
                avatar: opt_avatar_url(id, v.at("avatar"@).as_str()),
                display_name: v.at("global_name"@).as_str(),
            },
        ),
        None => None,
    }
}

/// Reads a gateway `user` object.
pub fn parse_discord_user(v: Option<&JsonValue>) -> (r: Option<DiscordUser>)
    ensures
        match r {
            Some(u) => parse_discord_user_spec(or_null(opt_view(v))) == Some(u@),
            None => parse_discord_user_spec(or_null(opt_view(v))) is None,
        },
{
    let id = match optional_string(v, "id") {
        Some(id) => id,
        None => return None,
    };
    let avatar = match optional_string(v, "avatar") {
        Some(a) => Some(avatar_url(id.as_str(), a.as_str())),
        None => None,
    };
    Some(
        DiscordUser {
            id: id.clone(),
            username: optional_string(v, "username"),
            discriminator: optional_string(v, "discriminator"),
            avatar,
            display_name: optional_string(v, "global_name"),
        },
    )
}

/// The activity that a gateway activity object describes; it needs a `name`
/// and a non-negative integer `type`, of which the low eight bits are kept.
pub open spec fn parse_activity_spec(v: Json) -> Option<ActivityView> {
    match (v.at("name"@).as_str(), v.at("type"@).as_u64()) {
        (Some(name), Some(kind)) => Some(
            ActivityView {
                name,
                kind: (kind % 256) as u8,
                state: v.at("state"@).as_str(),
                details: v.at("details"@).as_str(),
                application_id: v.at("application_id"@).as_str(),
                sync_id: v.at("sync_id"@).as_str(),
                timestamps: decode_timestamps(v.at("timestamps"@)),
                assets: decode_assets(v.at("assets"@)),
                emoji: optional_value_spec(v.at("emoji"@)),
                party: optional_value_spec(v.at("party"@)),
                flags: v.at("flags"@).as_u64(),
                buttons: optional_value_spec(v.at("buttons"@)),
            },
        ),
        _ => None,
    }
}

/// Reads a gateway activity object.
pub fn parse_activity(v: &JsonValue) -> (r: Option<Activity>)
    ensures
        match r {
            Some(a) => parse_activity_spec(v@) == Some(a@),
            None => parse_activity_spec(v@) is None,
        },
{
    let o = Some(v);
    let name = match optional_string(o, "name") {
        Some(n) => n,
        None => return None,
    };
    let kind = match optional_u64(o, "type") {
        Some(k) => k,
        None => return None,
    };
    let timestamps = match lookup(o, "timestamps") {
        Some(t) => decode_timestamps_exec(t),
        None => None,
    };
    let assets = match lookup(o, "assets") {
        Some(a) => decode_assets_exec(a),
        None => None,
    };
    Some(
        Activity {
            name,
            kind: (kind % 256) as u8,
            state: optional_string(o, "state"),
            details: optional_string(o, "details"),
            application_id: optional_string(o, "application_id"),
            sync_id: optional_string(o, "sync_id"),
            timestamps,
            assets,
            emoji: optional_value(o, "emoji"),
            party: optional_value(o, "party"),
            flags: optional_u64(o, "flags"),
            buttons: optional_value(o, "buttons"),
        },
    )
}

/// What a Spotify listening activity says about the track: activities of
/// another kind or name say nothing.
pub open spec fn parse_spotify_spec(a: ActivityView) -> Option<SpotifyView> {
    if a.kind != 2 || a.name != "Spotify"@ {
        None
    } else {
        Some(
            SpotifyView {
                track_id: a.sync_id,
                timestamps: a.timestamps,
                album: match a.assets {
                    Some(assets) => assets.large_text,
                    None => None,
                },
                album_art_url: match a.assets {
                    Some(assets) => match assets.large_image {
                        Some(image) => spotify_album_art_url_spec(image),
                        None => None,
                    },
                    None => None,
                },
                artist: a.state,
                song: a.details,
            },
        )
    }
}

/// Reads the Spotify session out of an activity.
pub fn parse_spotify(activity: &Activity) -> (r: Option<Spotify>)
    ensures
        opt_spotify(r) == parse_spotify_spec(activity@),
{
    if activity.kind != 2 || !str_equal(activity.name.as_str(), "Spotify") {
        return None;
    }
    let (album, album_art_url) = match &activity.assets {
        Some(assets) => (
            copy_opt_string(&assets.large_text),
            match &assets.large_image {
                Some(image) => spotify_album_art_url(image.as_str()),
                None => None,
            },
        ),
        None => (None, None),
    };
    Some(
        Spotify {
            track_id: activity.sync_id(),
            timestamps: activity.timestamps,
            album,
            album_art_url,
            artist: copy_opt_string(&activity.state),
            song: copy_opt_string(&activity.details),
        },
    )
}

/// The activities that the elements of `items` describe, in order; elements
/// that describe none are skipped.
pub open spec fn parse_activities_spec(items: Seq<Json>) -> Seq<ActivityView>
    decreases items.len(),
{
    if items.len() == 0 {
        Seq::empty()
    } else {
        let rest = parse_activities_spec(items.drop_last());
        match parse_activity_spec(items.last()) {
            Some(a) => rest.push(a),
            None => rest,
        }
    }
}

/// The first Spotify session among `acts`.
pub open spec fn first_spotify(acts: Seq<ActivityView>) -> Option<SpotifyView>
    decreases acts.len(),
{
    if acts.len() == 0 {
        None
    } else {
        match parse_spotify_spec(acts[0]) {
            Some(s) => Some(s),
            None => first_spotify(acts.drop_first()),
        }
    }
}

/// The activities of a presence object.
pub open spec fn presence_activities(v: Json) -> Seq<ActivityView> {
    match v.at("activities"@).as_array() {
        Some(items) => parse_activities_spec(items),
        None => Seq::empty(),
    }
}

/// The presence that a gateway presence object describes: it needs a user
/// with an id; a missing status reads as offline; a client counts as active
/// where the client status names it; the first Spotify activity gives the
/// Spotify session. The key/value pairs start empty.
pub open spec fn parse_presence_spec(v: Json) -> Option<PresenceView> {
    match parse_discord_user_spec(v.at("user"@)) {
        Some(user) => {
            let cs = client_status_or_default(v.at("client_status"@));
            let acts = presence_activities(v);
            let spotify = first_spotify(acts);
            Some(
                PresenceView {
                    user_id: user.id,
                    discord_user: user,
                    discord_status: match v.at("status"@).as_str() {
                        Some(s) => s,
                        None => "offline"@,
                    },
                    activities: acts,
                    active_on_discord_desktop: cs.desktop is Some,
                    active_on_discord_mobile: cs.mobile is Some,
                    active_on_discord_web: cs.web is Some,
                    listening_to_spotify: spotify is Some,
                    spotify,
                    kv: Map::empty(),
                },
            )
        },
        None => None,
    }
}

fn parse_activities(items: &Vec<JsonValue>) -> (r: Vec<Activity>)
    ensures
        activity_views(r@) == parse_activities_spec(views(items@)),
{
    let mut out: Vec<Activity> = Vec::new();
    let mut i: usize = 0;
    while i < items.len()
        invariant
            i <= items@.len(),
            activity_views(out@) == parse_activities_spec(views(items@).subrange(0, i as int)),
        decreases items@.len() - i,
    {
        let ghost prev = out@;
        proof {
            assert(views(items@).subrange(0, i + 1).drop_last() =~= views(items@).subrange(0, i as int));
            assert(views(items@).subrange(0, i + 1).last() == items@[i as int]@);
        }
        match parse_activity(&items[i]) {
            Some(a) => {
                out.push(a);
                proof {
                    assert(activity_views(out@) =~= activity_views(prev).push(a@));
                }
            },
            None => {},
        }
        i = i + 1;
    }
    proof {
        assert(views(items@).subrange(0, items@.len() as int) =~= views(items@));
    }
    out
}

fn find_spotify(acts: &Vec<Activity>) -> (r: Option<Spotify>)
    ensures
        opt_spotify(r) == first_spotify(activity_views(acts@)),
{
    let mut i: usize = 0;
    proof {
        assert(activity_views(acts@).skip(0) =~= activity_views(acts@));
    }
    while i < acts.len()
        invariant
            i <= acts@.len(),
            first_spotify(activity_views(acts@)) == first_spotify(
                activity_views(acts@).skip(i as int),
            ),
        decreases acts@.len() - i,
    {
        proof {
            assert(activity_views(acts@).skip(i as int)[0] == acts@[i as int]@);
            assert(activity_views(acts@).skip(i as int).drop_first() =~= activity_views(acts@).skip(
                i + 1,
            ));
        }
        match parse_spotify(&acts[i]) {
            Some(s) => return Some(s),
            None => {},
        }
        i = i + 1;
    }
    None
}

/// Reads a gateway presence object.
pub fn parse_presence(v: &JsonValue) -> (r: Option<Presence>)
    ensures
        match r {
            Some(p) => parse_presence_spec(v@) == Some(p@),
            None => parse_presence_spec(v@) is None,
        },
{
    let o = Some(v);
    let discord_user = match parse_discord_user(lookup(o, "user")) {
        Some(u) => u,
        None => return None,
    };
    let user_id = discord_user.id.clone();
    let discord_status = match optional_string(o, "status") {
        Some(s) => s,
        None => owned("offline"),
    };
    let client_status = match lookup(o, "client_status") {
        Some(c) => match decode_client_status_exec(c) {
            Some(c) => c,
            None => ClientStatus { desktop: None, mobile: None, web: None },
        },
        None => ClientStatus { desktop: None, mobile: None, web: None },
    };
    let activities = match lookup(o, "activities") {
        Some(a) => match a.as_array() {
            Some(items) => parse_activities(items),
            None => Vec::new(),
        },
        None => Vec::new(),
    };
    proof {
        if activities@.len() == 0 {
            assert(activity_views(activities@) =~= Seq::<ActivityView>::empty());
        }
    }
    let spotify = find_spotify(&activities);
    let listening_to_spotify = spotify.is_some();
    Some(
        Presence {
            user_id,
            discord_user,
            discord_status,
            active_on_discord_desktop: client_status.desktop.is_some(),
            active_on_discord_mobile: client_status.mobile.is_some(),
            active_on_discord_web: client_status.web.is_some(),
            listening_to_spotify,
            spotify,
            activities,
            kv: StrMap::new(),
        },
    )
}

} // verus!
