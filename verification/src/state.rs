//! The in-memory state of the service: the presences the gateway reported,
//! the user profiles seen so far, and each user's key/value pairs.

use vstd::prelude::*;

use crate::models::{DiscordUser, DiscordUserView, Presence, PresenceEvent, PresenceView, offline_view};
use crate::strmap::StrMap;
use crate::text::owned;

verus! {

/// `k` is one of the first `n` requested ids.
pub open spec fn requested(ids: Seq<String>, n: int, k: Seq<char>) -> bool {
    exists|j: int| 0 <= j < n && ids[j]@ == k
}

/// Each cached presence is stored under its own user's id.
pub open spec fn presences_keyed(presences: Map<Seq<char>, PresenceView>) -> bool {
    forall|k: Seq<char>| #[trigger] presences.contains_key(k) ==> presences[k].user_id == k
}

/// The presences, user profiles and key/value pairs that the service holds.
#[derive(Debug, PartialEq, Eq)]
pub struct AppData {
    /// The last presence the gateway reported for each user.
    presences: StrMap<Presence>,
    /// The user profiles seen so far, by user id.
    users: StrMap<DiscordUser>,
    /// Each user's key/value pairs, by user id.
    kv: StrMap<StrMap<String>>,
}

pub struct AppDataView {
    pub presences: Map<Seq<char>, PresenceView>,
    pub users: Map<Seq<char>, DiscordUserView>,
    pub kv: Map<Seq<char>, Map<Seq<char>, Seq<char>>>,
}

impl View for AppData {
    type V = AppDataView;

    closed spec fn view(&self) -> AppDataView {
        AppDataView { presences: self.presences@, users: self.users@, kv: self.kv@ }
    }
}

impl AppDataView {
    /// A user's key/value pairs; none where the user has saved none.
    pub open spec fn kv_of(self, user_id: Seq<char>) -> Map<Seq<char>, Seq<char>> {
        if self.kv.contains_key(user_id) {
            self.kv[user_id]
        } else {
            Map::empty()
        }
    }

    /// The store after `key` is set to `value` for `user_id`.
    pub open spec fn kv_after_set(self, user_id: Seq<char>, key: Seq<char>, value: Seq<char>) -> Map<Seq<char>, Map<Seq<char>, Seq<char>>> {
        self.kv.insert(user_id, self.kv_of(user_id).insert(key, value))
    }

    /// The store after `key` is deleted for `user_id`: a user left with no
    /// pairs is dropped from the store.
    pub open spec fn kv_after_delete(self, user_id: Seq<char>, key: Seq<char>) -> Map<Seq<char>, Map<Seq<char>, Seq<char>>> {
        if self.kv.contains_key(user_id) {
            let rest = self.kv[user_id].remove(key);
            if rest.is_empty() {
                self.kv.remove(user_id)
            } else {
                self.kv.insert(user_id, rest)
            }
        } else {
            self.kv
        }
    }

    /// A presence as it is served and cached: with the user's current pairs.
    pub open spec fn with_current_kv(self, p: PresenceView) -> PresenceView {
        p.with_kv(self.kv_of(p.user_id))
    }
}

impl AppData {
    /// Each cached presence is stored under its own user's id.
    #[verifier::type_invariant]
    spec fn presences_stored_by_id(self) -> bool {
        presences_keyed(self.presences@)
    }

    /// A service with no presences or profiles and the given key/value pairs.
    pub fn new(kv: StrMap<StrMap<String>>) -> (r: AppData)
        ensures
            r@.presences == Map::<Seq<char>, PresenceView>::empty(),
            r@.users == Map::<Seq<char>, DiscordUserView>::empty(),
            r@.kv == kv@,
    {
        AppData { presences: StrMap::new(), users: StrMap::new(), kv }
    }

    /// The cached presences, by user id.
    pub fn presences(&self) -> (r: &StrMap<Presence>)
        ensures
            r@ == self@.presences,
    {
        &self.presences
    }

    /// The key/value store: each user's pairs, by user id.
    pub fn kv(&self) -> (r: &StrMap<StrMap<String>>)
        ensures
            r@ == self@.kv,
    {
        &self.kv
    }

    /// A copy of a user's key/value pairs.
    pub fn user_kv(&self, user_id: &str) -> (r: StrMap<String>)
        ensures
            r@ == self@.kv_of(user_id@),
    {
        match self.kv.get(user_id) {
            Some(m) => m.duplicate_map(),
            None => StrMap::new(),
        }
    }

    /// Replaces a presence's key/value pairs with its user's current ones.
    pub fn attach_kv(&self, presence: &mut Presence)
        ensures
            final(presence)@ == self@.with_current_kv(old(presence)@),
    {
        let kv = self.user_kv(presence.user_id.as_str());
        presence.kv = kv;
    }

    /// Sets one key/value pair of a user (in memory).
    pub fn set_kv(&mut self, user_id: &str, key: String, value: String)
        ensures
            final(self)@ == (AppDataView {
                kv: old(self)@.kv_after_set(user_id@, key@, value@),
                ..old(self)@
            }),
    {
        proof {
            use_type_invariant(&*self);
        }
        let mut kv = StrMap::new();
        std::mem::swap(&mut kv, &mut self.kv);
        let ghost before = kv;
        let removed = kv.remove(user_id);
        let mut m = match removed {
            Some(m) => m,
            None => StrMap::new(),
        };
        m.insert(key, value);
        let uid = owned(user_id);
        kv.insert(uid, m);
        proof {
            assert(kv@ =~= before@.insert(user_id@, old(self)@.kv_of(user_id@).insert(key@, value@)));
        }
        self.kv = kv;
    }

    /// Deletes one key of a user (in memory); says whether it was set.
    pub fn delete_kv(&mut self, user_id: &str, key: &str) -> (r: bool)
        ensures
            r == old(self)@.kv_of(user_id@).contains_key(key@),
            final(self)@ == (AppDataView {
                kv: old(self)@.kv_after_delete(user_id@, key@),
                ..old(self)@
            }),
    {
        proof {
            use_type_invariant(&*self);
        }
        let mut kv = StrMap::new();
        std::mem::swap(&mut kv, &mut self.kv);
        let ghost before = kv;
        let removed = kv.remove(user_id);
        let was_set = match removed {
            Some(mut m) => {
                let was_set = m.remove(key).is_some();
                if !m.is_empty() {
                    let uid = owned(user_id);
                    kv.insert(uid, m);
                    proof {
                        assert(kv@ =~= before@.insert(user_id@, before@[user_id@].remove(key@)));
                    }
                }
                was_set
            },
            None => {
                proof {
                    assert(before@.remove(user_id@) =~= before@);
                }
                false
            },
        };
        self.kv = kv;
        was_set
    }

    /// Stores a presence reported by the gateway, with its user's pairs;
    /// remembers the user's profile where it is complete. Hands back the
    /// event for the presence's subscribers.
    pub fn cache_presence(&mut self, presence: Presence) -> (r: PresenceEvent)
        ensures
            final(self)@.kv == old(self)@.kv,
            final(self)@.users == if presence.discord_user@.needs_profile() {
                old(self)@.users
            } else {
                old(self)@.users.insert(presence.user_id@, presence.discord_user@)
            },
            final(self)@.presences == old(self)@.presences.insert(
                presence.user_id@,
                old(self)@.with_current_kv(presence@),
            ),
            r.user_id@ == presence.user_id@,
            r.presence@ == old(self)@.with_current_kv(presence@),
    {
        proof {
            use_type_invariant(&*self);
        }
        let mut presence = presence;
        if !presence.discord_user.needs_profile() {
            let mut users = StrMap::new();
            std::mem::swap(&mut users, &mut self.users);
            users.insert(presence.user_id.clone(), presence.discord_user.duplicate_user());
            self.users = users;
        }
        self.attach_kv(&mut presence);
        let event = PresenceEvent {
            user_id: presence.user_id.clone(),
            presence: presence.duplicate_presence(),
        };
        let mut presences = StrMap::new();
        std::mem::swap(&mut presences, &mut self.presences);
        presences.insert(presence.user_id.clone(), presence);
        self.presences = presences;
        event
    }

    /// Refreshes the cached presence of a user with the user's current pairs,
    /// where there is one; hands back the event for its subscribers.
    pub fn publish_presence_update(&mut self, user_id: &str) -> (r: Option<PresenceEvent>)
        ensures
            final(self)@.kv == old(self)@.kv,
            final(self)@.users == old(self)@.users,
            old(self)@.presences.contains_key(user_id@) ==> {
                let p = old(self)@.with_current_kv(old(self)@.presences[user_id@]);
                &&& final(self)@.presences == old(self)@.presences.insert(user_id@, p)
                &&& r matches Some(e) && e.user_id@ == user_id@ && e.presence@ == p
                &&& r matches Some(e) && e.presence@.user_id == user_id@ && e.presence@.kv == old(self)@.kv_of(user_id@)
            },
            !old(self)@.presences.contains_key(user_id@) ==> final(self)@ == old(self)@ && r is None,
    {
        proof {
            use_type_invariant(&*self);
        }
        let mut presence = match self.presences.get(user_id) {
            Some(p) => p.duplicate_presence(),
            None => return None,
        };
        self.attach_kv(&mut presence);
        let event = PresenceEvent { user_id: owned(user_id), presence: presence.duplicate_presence() };
        let mut presences = StrMap::new();
        std::mem::swap(&mut presences, &mut self.presences);
        presences.insert(owned(user_id), presence);
        self.presences = presences;
        Some(event)
    }

    /// The cached presence of a user.
    pub fn presence_of(&self, user_id: &str) -> (r: Option<Presence>)
        ensures
            match r {
                Some(p) => self@.presences.contains_key(user_id@) && p@ == self@.presences[user_id@]
                    && p.user_id@ == user_id@,
                None => !self@.presences.contains_key(user_id@),
            },
    {
        proof {
            use_type_invariant(self);
        }
        match self.presences.get(user_id) {
            Some(p) => Some(p.duplicate_presence()),
            None => None,
        }
    }

    /// How many users have a cached presence.
    pub fn cached_users(&self) -> (r: usize)
        ensures
            r == self@.presences.len(),
    {
        self.presences.len()
    }

    /// The remembered profile of a user.
    pub fn cached_user(&self, user_id: &str) -> (r: Option<DiscordUser>)
        ensures
            match r {
                Some(u) => self@.users.contains_key(user_id@) && u@ == self@.users[user_id@],
                None => !self@.users.contains_key(user_id@),
            },
    {
        match self.users.get(user_id) {
            Some(u) => Some(u.duplicate_user()),
            None => None,
        }
    }

    /// Remembers the profile fetched for a user.
    pub fn remember_user(&mut self, user_id: &str, user: DiscordUser)
        ensures
            final(self)@ == (AppDataView {
                users: old(self)@.users.insert(user_id@, user@),
                ..old(self)@
            }),
    {
        proof {
            use_type_invariant(&*self);
        }
        let mut users = StrMap::new();
        std::mem::swap(&mut users, &mut self.users);
        users.insert(owned(user_id), user);
        self.users = users;
    }

    /// A cached presence as the API serves it: where its user record lacks
    /// profile fields and a profile was found, the missing fields come from
    /// the profile; the pairs are the user's current ones.
    pub fn serve_cached(&self, presence: Presence, profile: Option<DiscordUser>) -> (r: Presence)
        ensures
            r@ == self@.with_current_kv(
                match profile {
                    Some(p) => if presence.discord_user@.needs_profile() {
                        presence@.with_user(presence.discord_user@.merge(p@))
                    } else {
                        presence@
                    },
                    None => presence@,
                },
            ),
    {
        let mut presence = presence;
        match profile {
            Some(p) => {
                if presence.discord_user.needs_profile() {
                    let user = presence.discord_user.duplicate_user();
                    presence.discord_user = user.merge(p);
                }
            },
            None => {},
        }
        self.attach_kv(&mut presence);
        presence
    }

    /// The presence served for a user the gateway has not reported: offline,
    /// with the user's profile and current pairs.
    pub fn serve_offline(&self, user: DiscordUser) -> (r: Presence)
        ensures
            r@ == self@.with_current_kv(offline_view(user@)),
    {
        let mut presence = Presence::offline(user);
        self.attach_kv(&mut presence);
        presence
    }

    /// The cached presences of the requested users, each with the user's
    /// current pairs; users without a cached presence are left out, and a
    /// user requested twice appears once.
    pub fn batch_presences(&self, user_ids: &Vec<String>) -> (r: StrMap<Presence>)
        ensures
            r@ == Map::new(
                |k: Seq<char>| self@.presences.contains_key(k) && requested(user_ids@, user_ids@.len() as int, k),
                |k: Seq<char>| self@.presences[k].with_kv(self@.kv_of(k)),
            ),
    {
        let mut out: StrMap<Presence> = StrMap::new();
        let mut i: usize = 0;
        while i < user_ids.len()
            invariant
                i <= user_ids@.len(),
                out@ == Map::new(
                    |k: Seq<char>| self@.presences.contains_key(k) && requested(user_ids@, i as int, k),
                    |k: Seq<char>| self@.presences[k].with_kv(self@.kv_of(k)),
                ),
            decreases user_ids@.len() - i,
        {
            let id = user_ids[i].as_str();
            let ghost before = out@;
            match self.presences.get(id) {
                Some(p) => {
                    let mut presence = p.duplicate_presence();
                    presence.kv = self.user_kv(id);
                    out.insert(user_ids[i].clone(), presence);
                },
                None => {},
            }
            proof {
                assert forall|k: Seq<char>| #[trigger] requested(user_ids@, i + 1, k) == (requested(user_ids@, i as int, k) || k == user_ids@[i as int]@) by {
                    if requested(user_ids@, i + 1, k) {
                        let j = choose|j: int| 0 <= j < i + 1 && user_ids@[j]@ == k;
                        if j < i {
                            assert(requested(user_ids@, i as int, k));
                        }
                    }
                    if requested(user_ids@, i as int, k) {
                        let j = choose|j: int| 0 <= j < i && user_ids@[j]@ == k;
                        assert(0 <= j < i + 1 && user_ids@[j]@ == k);
                    }
                    if k == user_ids@[i as int]@ {
                        assert(0 <= i < i + 1 && user_ids@[i as int]@ == k);
                    }
                }
                assert(out@ =~= Map::new(
                    |k: Seq<char>| self@.presences.contains_key(k) && requested(user_ids@, i + 1, k),
                    |k: Seq<char>| self@.presences[k].with_kv(self@.kv_of(k)),
                ));
            }
            i = i + 1;
        }
        out
    }
}

/// A claim on a latch that is `claimed` or not: the latch is claimed
/// afterwards, and the claim succeeds only where it was not claimed before.
pub open spec fn claim_spec(claimed: bool) -> (bool, bool) {
    (true, !claimed)
}

/// Makes sure that the `/kv` command is registered once per process: only
/// the first claim succeeds.
#[derive(Debug, Clone, PartialEq, Eq)]
pub struct RegistrationLatch {
    claimed: bool,
}

impl View for RegistrationLatch {
    type V = bool;

    /// Whether the latch has been claimed.
    closed spec fn view(&self) -> bool {
        self.claimed
    }
}

impl RegistrationLatch {
    /// A latch that nobody has claimed.
    pub fn new() -> (r: RegistrationLatch)
        ensures
            !r@,
    {
        RegistrationLatch { claimed: false }
    }

    /// Claims the registration; true only for the first claim.
    pub fn claim(&mut self) -> (r: bool)
        ensures
            (final(self)@, r) == claim_spec(old(self)@),
    {
        if self.claimed {
            false
        } else {
            self.claimed = true;
            true
        }
    }
}

} // verus!
