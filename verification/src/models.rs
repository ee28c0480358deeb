//! The presence model: Discord users, their activities, Spotify sessions and
//! the presence record that the API serves.

use vstd::prelude::*;

use crate::json::{Json, JsonValue};
use crate::strmap::{Duplicate, StrMap};
use crate::text::{owned, starts_with, strip_prefix};

verus! {

/// The view of an optional string.
pub open spec fn opt_str(o: Option<String>) -> Option<Seq<char>> {
    match o {
        Some(s) => Some(s@),
        None => None,
    }
}

/// The view of an optional JSON document.
pub open spec fn opt_json(o: Option<JsonValue>) -> Option<Json> {
    match o {
        Some(v) => Some(v@),
        None => None,
    }
}

/// `a`, or `b` where `a` is absent (std's `Option::or`).
pub open spec fn or_else<T>(a: Option<T>, b: Option<T>) -> Option<T> {
    match a {
        Some(x) => Some(x),
        None => b,
    }
}

/// `a`, or `b` where `a` is absent.
pub fn first_present<T>(a: Option<T>, b: Option<T>) -> (r: Option<T>)
    ensures
        r == or_else(a, b),
{
    match a {
        Some(x) => Some(x),
        None => b,
    }
}

pub fn copy_opt_string(o: &Option<String>) -> (r: Option<String>)
    ensures
        opt_str(r) == opt_str(*o),
{
    match o {
        Some(s) => Some(s.clone()),
        None => None,
    }
}

pub fn copy_opt_json(o: &Option<JsonValue>) -> (r: Option<JsonValue>)
    ensures
        opt_json(r) == opt_json(*o),
{
    match o {
        Some(v) => Some(v.copy()),
        None => None,
    }
}

/// A Discord user as the API shows it.
#[derive(Debug, Clone, PartialEq, Eq)]
pub struct DiscordUser {
    pub id: String,
    pub username: Option<String>,
    pub discriminator: Option<String>,
    /// The URL of the avatar image.
    pub avatar: Option<String>,
    pub display_name: Option<String>,
}

pub struct DiscordUserView {
    pub id: Seq<char>,
    pub username: Option<Seq<char>>,
    pub discriminator: Option<Seq<char>>,
    pub avatar: Option<Seq<char>>,
    pub display_name: Option<Seq<char>>,
}

impl View for DiscordUser {
    type V = DiscordUserView;

    open spec fn view(&self) -> DiscordUserView {
        DiscordUserView {
            id: self.id@,
            username: opt_str(self.username),
            discriminator: opt_str(self.discriminator),
            avatar: opt_str(self.avatar),
            display_name: opt_str(self.display_name),
        }
    }
}

/// A Discord user as Discord's user endpoint returns it.
#[derive(Debug, Clone, PartialEq, Eq)]
pub struct DiscordUserApi {
    pub id: String,
    pub username: Option<String>,
    pub discriminator: Option<String>,
    /// The avatar hash.
    pub avatar: Option<String>,
    pub global_name: Option<String>,
}

/// The start and end of an activity, in milliseconds since the epoch.
#[derive(Debug, Clone, Copy, PartialEq, Eq)]
pub struct ActivityTimestamps {
    pub start: Option<u64>,
    pub end: Option<u64>,
}

impl View for ActivityTimestamps {
    type V = ActivityTimestamps;

    open spec fn view(&self) -> ActivityTimestamps {
        *self
    }
}

/// The images and their captions that an activity shows.
#[derive(Debug, Clone, PartialEq, Eq)]
pub struct ActivityAssets {
    pub large_image: Option<String>,
    pub large_text: Option<String>,
    pub small_image: Option<String>,
    pub small_text: Option<String>,
}

pub struct ActivityAssetsView {
    pub large_image: Option<Seq<char>>,
    pub large_text: Option<Seq<char>>,
    pub small_image: Option<Seq<char>>,
    pub small_text: Option<Seq<char>>,
}

impl View for ActivityAssets {
    type V = ActivityAssetsView;

    open spec fn view(&self) -> ActivityAssetsView {
        ActivityAssetsView {
            large_image: opt_str(self.large_image),
            large_text: opt_str(self.large_text),
            small_image: opt_str(self.small_image),
            small_text: opt_str(self.small_text),
        }
    }
}

pub open spec fn opt_assets(o: Option<ActivityAssets>) -> Option<ActivityAssetsView> {
    match o {
        Some(a) => Some(a@),
        None => None,
    }
}

/// On which clients a user is online; each present entry names a status.
#[derive(Debug, Clone, PartialEq, Eq)]
pub struct ClientStatus {
    pub desktop: Option<String>,
    pub mobile: Option<String>,
    pub web: Option<String>,
}

pub struct ClientStatusView {
    pub desktop: Option<Seq<char>>,
    pub mobile: Option<Seq<char>>,
    pub web: Option<Seq<char>>,
}

impl View for ClientStatus {
    type V = ClientStatusView;

    open spec fn view(&self) -> ClientStatusView {
        ClientStatusView {
            desktop: opt_str(self.desktop),
            mobile: opt_str(self.mobile),
            web: opt_str(self.web),
        }
    }
}

/// One activity of a user.
#[derive(Debug, PartialEq, Eq)]
pub struct Activity {
    pub name: String,
    /// The activity type (2 is listening).
    pub kind: u8,
    pub state: Option<String>,
    pub details: Option<String>,
    pub application_id: Option<String>,
    pub sync_id: Option<String>,
    pub timestamps: Option<ActivityTimestamps>,
    pub assets: Option<ActivityAssets>,
    pub emoji: Option<JsonValue>,
    pub party: Option<JsonValue>,
    pub flags: Option<u64>,
    pub buttons: Option<JsonValue>,
}

pub struct ActivityView {
    pub name: Seq<char>,
    pub kind: u8,
    pub state: Option<Seq<char>>,
    pub details: Option<Seq<char>>,
    pub application_id: Option<Seq<char>>,
    pub sync_id: Option<Seq<char>>,
    pub timestamps: Option<ActivityTimestamps>,
    pub assets: Option<ActivityAssetsView>,
    pub emoji: Option<Json>,
    pub party: Option<Json>,
    pub flags: Option<u64>,
    pub buttons: Option<Json>,
}

impl View for Activity {
    type V = ActivityView;

    open spec fn view(&self) -> ActivityView {
        ActivityView {
            name: self.name@,
            kind: self.kind,
            state: opt_str(self.state),
            details: opt_str(self.details),
            application_id: opt_str(self.application_id),
            sync_id: opt_str(self.sync_id),
            timestamps: self.timestamps,
            assets: opt_assets(self.assets),
            emoji: opt_json(self.emoji),
            party: opt_json(self.party),
            flags: self.flags,
            buttons: opt_json(self.buttons),
        }
    }
}

/// What a user is listening to on Spotify.
#[derive(Debug, Clone, PartialEq, Eq)]
pub struct Spotify {
    pub track_id: Option<String>,
    pub timestamps: Option<ActivityTimestamps>,
    pub album: Option<String>,
    pub album_art_url: Option<String>,
    pub artist: Option<String>,
    pub song: Option<String>,
}

pub struct SpotifyView {
    pub track_id: Option<Seq<char>>,
    pub timestamps: Option<ActivityTimestamps>,
    pub album: Option<Seq<char>>,
    pub album_art_url: Option<Seq<char>>,
    pub artist: Option<Seq<char>>,
    pub song: Option<Seq<char>>,
}

impl View for Spotify {
    type V = SpotifyView;

    open spec fn view(&self) -> SpotifyView {
        SpotifyView {
            track_id: opt_str(self.track_id),
            timestamps: self.timestamps,
            album: opt_str(self.album),
            album_art_url: opt_str(self.album_art_url),
            artist: opt_str(self.artist),
            song: opt_str(self.song),
        }
    }
}

pub open spec fn opt_spotify(o: Option<Spotify>) -> Option<SpotifyView> {
    match o {
        Some(s) => Some(s@),
        None => None,
    }
}

/// The presence of one user, as the API serves it.
#[derive(Debug, PartialEq, Eq)]
pub struct Presence {
    pub user_id: String,
    pub discord_user: DiscordUser,
    pub discord_status: String,
    pub activities: Vec<Activity>,
    pub active_on_discord_desktop: bool,
    pub active_on_discord_mobile: bool,
    pub active_on_discord_web: bool,
    pub listening_to_spotify: bool,
    pub spotify: Option<Spotify>,
    /// The user's saved key/value pairs.
    pub kv: StrMap<String>,
}

pub struct PresenceView {
    pub user_id: Seq<char>,
    pub discord_user: DiscordUserView,
    pub discord_status: Seq<char>,
    pub activities: Seq<ActivityView>,
    pub active_on_discord_desktop: bool,
    pub active_on_discord_mobile: bool,
    pub active_on_discord_web: bool,
    pub listening_to_spotify: bool,
    pub spotify: Option<SpotifyView>,
    pub kv: Map<Seq<char>, Seq<char>>,
}

/// The views of a sequence of activities.
pub open spec fn activity_views(s: Seq<Activity>) -> Seq<ActivityView> {
    Seq::new(s.len(), |i: int| s[i]@)
}

impl View for Presence {
    type V = PresenceView;

    open spec fn view(&self) -> PresenceView {
        PresenceView {
            user_id: self.user_id@,
            discord_user: self.discord_user@,
            discord_status: self.discord_status@,
            activities: activity_views(self.activities@),
            active_on_discord_desktop: self.active_on_discord_desktop,
            active_on_discord_mobile: self.active_on_discord_mobile,
            active_on_discord_web: self.active_on_discord_web,
            listening_to_spotify: self.listening_to_spotify,
            spotify: opt_spotify(self.spotify),
            kv: self.kv@,
        }
    }
}

impl PresenceView {
    /// The same presence with other key/value pairs.
    pub open spec fn with_kv(self, kv: Map<Seq<char>, Seq<char>>) -> PresenceView {
        PresenceView { kv, ..self }
    }

    /// The same presence with another user record.
    pub open spec fn with_user(self, user: DiscordUserView) -> PresenceView {
        PresenceView { discord_user: user, ..self }
    }
}

/// A presence that was just stored, for the subscribers of `user_id`.
#[derive(Debug, PartialEq, Eq)]
pub struct PresenceEvent {
    pub user_id: String,
    pub presence: Presence,
}

/// The presence shown for a user whom the gateway has not reported.
pub open spec fn offline_view(user: DiscordUserView) -> PresenceView {
    PresenceView {
        user_id: user.id,
        discord_user: user,
        discord_status: "offline"@,
        activities: Seq::empty(),
        active_on_discord_desktop: false,
        active_on_discord_mobile: false,
        active_on_discord_web: false,
        listening_to_spotify: false,
        spotify: None,
        kv: Map::empty(),
    }
}

impl Presence {
    /// An offline presence with no activities and no key/value pairs.
    pub fn offline(discord_user: DiscordUser) -> (r: Presence)
        ensures
            r@ == offline_view(discord_user@),
    {
        let user_id = discord_user.id.clone();
        let r = Presence {
            user_id,
            discord_user,
            discord_status: owned("offline"),
            active_on_discord_desktop: false,
            active_on_discord_mobile: false,
            active_on_discord_web: false,
            listening_to_spotify: false,
            spotify: None,
            activities: Vec::new(),
            kv: StrMap::new(),
        };
        assert(activity_views(r.activities@) =~= Seq::<ActivityView>::empty());
        r
    }
}

impl DiscordUserView {
    /// Some of the profile fields that the API shows are missing.
    pub open spec fn needs_profile(self) -> bool {
        self.username is None || self.avatar is None || self.display_name is None
    }

    /// This user, with each missing field taken from `profile`; the id stays.
    pub open spec fn merge(self, profile: DiscordUserView) -> DiscordUserView {
        DiscordUserView {
            id: self.id,
            username: or_else(self.username, profile.username),
            discriminator: or_else(self.discriminator, profile.discriminator),
            avatar: or_else(self.avatar, profile.avatar),
            display_name: or_else(self.display_name, profile.display_name),
        }
    }
}

/// The URL of an avatar image: animated hashes (those that begin with `a_`)
/// are served as GIF, the others as PNG.
pub open spec fn avatar_url_spec(user_id: Seq<char>, avatar: Seq<char>) -> Seq<char> {
    let ext = if crate::text::has_prefix(avatar, "a_"@) {
        "gif"@
    } else {
        "png"@
    };
    "https://cdn.discordapp.com/avatars/"@ + user_id + "/"@ + avatar + "."@ + ext + "?size=1024"@
}

pub open spec fn opt_avatar_url(user_id: Seq<char>, avatar: Option<Seq<char>>) -> Option<Seq<char>> {
    match avatar {
        Some(a) => Some(avatar_url_spec(user_id, a)),
        None => None,
    }
}

impl DiscordUser {
    pub fn needs_profile(&self) -> (r: bool)
        ensures
            r == self@.needs_profile(),
    {
        self.username.is_none() || self.avatar.is_none() || self.display_name.is_none()
    }

    /// Fills the missing fields of this user from `profile`.
    pub fn merge(self, profile: DiscordUser) -> (r: DiscordUser)
        ensures
            r@ == self@.merge(profile@),
    {
        DiscordUser {
            id: self.id,
            username: first_present(self.username, profile.username),
            discriminator: first_present(self.discriminator, profile.discriminator),
            avatar: first_present(self.avatar, profile.avatar),
            display_name: first_present(self.display_name, profile.display_name),
        }
    }

    /// The user that Discord's user endpoint describes, with the avatar hash
    /// turned into an image URL and the global name shown as display name.
    pub fn from_api(value: DiscordUserApi) -> (r: DiscordUser)
        ensures
            r@ == (DiscordUserView {
                id: value.id@,
                username: opt_str(value.username),
                discriminator: opt_str(value.discriminator),
                avatar: opt_avatar_url(value.id@, opt_str(value.avatar)),
                display_name: opt_str(value.global_name),
            }),
    {
        let avatar = match &value.avatar {
            Some(a) => Some(avatar_url(value.id.as_str(), a.as_str())),
            None => None,
        };
        DiscordUser {
            avatar,
            display_name: value.global_name,
            id: value.id,
            username: value.username,
            discriminator: value.discriminator,
        }
    }

    pub fn duplicate_user(&self) -> (r: DiscordUser)
        ensures
            r@ == self@,
    {
        DiscordUser {
            id: self.id.clone(),
            username: copy_opt_string(&self.username),
            discriminator: copy_opt_string(&self.discriminator),
            avatar: copy_opt_string(&self.avatar),
            display_name: copy_opt_string(&self.display_name),
        }
    }
}

impl Duplicate for DiscordUser {
    fn duplicate(&self) -> (r: DiscordUser) {
        self.duplicate_user()
    }
}

impl ActivityAssets {
    pub fn duplicate_assets(&self) -> (r: ActivityAssets)
        ensures
            r@ == self@,
    {
        ActivityAssets {
            large_image: copy_opt_string(&self.large_image),
            large_text: copy_opt_string(&self.large_text),
            small_image: copy_opt_string(&self.small_image),
            small_text: copy_opt_string(&self.small_text),
        }
    }
}

impl Activity {
    /// The Spotify track id of this activity.
    pub fn sync_id(&self) -> (r: Option<String>)
        ensures
            opt_str(r) == opt_str(self.sync_id),
    {
        copy_opt_string(&self.sync_id)
    }

    pub fn duplicate_activity(&self) -> (r: Activity)
        ensures
            r@ == self@,
    {
        Activity {
            name: self.name.clone(),
            kind: self.kind,
            state: copy_opt_string(&self.state),
            details: copy_opt_string(&self.details),
            application_id: copy_opt_string(&self.application_id),
            sync_id: copy_opt_string(&self.sync_id),
            timestamps: self.timestamps,
            assets: match &self.assets {
                Some(a) => Some(a.duplicate_assets()),
                None => None,
            },
            emoji: copy_opt_json(&self.emoji),
            party: copy_opt_json(&self.party),
            flags: self.flags,
            buttons: copy_opt_json(&self.buttons),
        }
    }
}

impl Spotify {
    pub fn duplicate_spotify(&self) -> (r: Spotify)
        ensures
            r@ == self@,
    {
        Spotify {
            track_id: copy_opt_string(&self.track_id),
            timestamps: self.timestamps,
            album: copy_opt_string(&self.album),
            album_art_url: copy_opt_string(&self.album_art_url),
            artist: copy_opt_string(&self.artist),
            song: copy_opt_string(&self.song),
        }
    }
}

impl Presence {
    pub fn duplicate_presence(&self) -> (r: Presence)
        ensures
            r@ == self@,
    {
        let mut activities: Vec<Activity> = Vec::new();
        let mut i: usize = 0;
        while i < self.activities.len()
            invariant
                i <= self.activities@.len(),
                activities@.len() == i,
                forall|j: int| 0 <= j < i ==> (#[trigger] activities@[j])@ == self.activities@[j]@,
            decreases self.activities@.len() - i,
        {
            activities.push(self.activities[i].duplicate_activity());
            i = i + 1;
        }
        let r = Presence {
            user_id: self.user_id.clone(),
            discord_user: self.discord_user.duplicate_user(),
            discord_status: self.discord_status.clone(),
            activities,
            active_on_discord_desktop: self.active_on_discord_desktop,
            active_on_discord_mobile: self.active_on_discord_mobile,
            active_on_discord_web: self.active_on_discord_web,
            listening_to_spotify: self.listening_to_spotify,
            spotify: match &self.spotify {
                Some(s) => Some(s.duplicate_spotify()),
                None => None,
            },
            kv: self.kv.duplicate_map(),
        };
        assert(activity_views(r.activities@) =~= activity_views(self.activities@));
        r
    }
}

impl Duplicate for Presence {
    fn duplicate(&self) -> (r: Presence) {
        self.duplicate_presence()
    }
}

/// The URL of an avatar image.
pub fn avatar_url(user_id: &str, avatar: &str) -> (r: String)
    ensures
        r@ == avatar_url_spec(user_id@, avatar@),
{
    let ext = if starts_with(avatar, "a_") {
        "gif"
    } else {
        "png"
    };
    let mut r = owned("https://cdn.discordapp.com/avatars/");
    r.append(user_id);
    r.append("/");
    r.append(avatar);
    r.append(".");
    r.append(ext);
    r.append("?size=1024");
    r
}

/// The cover image of a Spotify album: assets named `spotify:<image>` are
/// served from Spotify's image host; other assets have no cover.
pub open spec fn spotify_album_art_url_spec(asset: Seq<char>) -> Option<Seq<char>> {
    if crate::text::has_prefix(asset, "spotify:"@) {
        Some("https://i.scdn.co/image/"@ + asset.subrange(("spotify:"@).len() as int, asset.len() as int))
    } else {
        None
    }
}

/// The cover image URL of a Spotify album asset.
pub fn spotify_album_art_url(asset: &str) -> (r: Option<String>)
    ensures
        opt_str(r) == spotify_album_art_url_spec(asset@),
{
    match strip_prefix(asset, "spotify:") {
        Some(image) => {
            let mut r = owned("https://i.scdn.co/image/");
            r.append(image);
            Some(r)
        },
        None => None,
    }
}

} // verus!
