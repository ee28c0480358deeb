//! Properties of the library that span several calls or hold of every input.

use vstd::prelude::*;

use crate::commands::{kv_lines, lists, strictly_sorted};
use crate::gateway::{
    dispatch_spec, gateway_step, next_reconnect_delay_spec, registration_step, DispatchPlanView, GatewayActionView,
    GatewayInputView, GatewayPhase,
};
use crate::json::{Json, NumberModel};
use crate::models::{avatar_url_spec, opt_str, ActivityView, DiscordUserView, PresenceView};
use crate::payload::{
    client_status_or_default, first_spotify, parse_activity_spec, parse_discord_user_spec, parse_presence_spec,
    parse_spotify_spec,
};
use crate::socket::{
    init_state_spec, session_step, subscription_matches_spec, subscription_spec, InitStateView, SessionModel,
    SocketInput, SocketSubscribeData, SubscriptionView, id_set, opt_ids,
};
use crate::state::{claim_spec, presences_keyed, AppDataView};
use crate::text::{chars_lt, has_prefix, lemma_chars_lt_asymmetric, lemma_chars_lt_irreflexive, lemma_chars_lt_transitive};

verus! {

/// A value saved with `/kv set` is what the user's pairs then hold for that
/// key; the user's other keys and the other users' pairs stay as they were.
pub proof fn law_set_then_read(d: AppDataView, user_id: Seq<char>, key: Seq<char>, value: Seq<char>)
    ensures
        ({
            let after = AppDataView { kv: d.kv_after_set(user_id, key, value), ..d };
            &&& after.kv_of(user_id).contains_key(key)
            &&& after.kv_of(user_id)[key] == value
            &&& forall|k: Seq<char>| k != key ==> #[trigger] after.kv_of(user_id).contains_key(k) == d.kv_of(user_id).contains_key(k)
            &&& forall|k: Seq<char>| k != key && d.kv_of(user_id).contains_key(k) ==> #[trigger] after.kv_of(user_id)[k] == d.kv_of(user_id)[k]
            &&& forall|u: Seq<char>| u != user_id ==> #[trigger] after.kv_of(u) == d.kv_of(u)
        }),
{
}

/// After `/kv delete`, the key is no longer set for the user; the user's
/// other keys and the other users' pairs stay as they were.
pub proof fn law_delete_then_read(d: AppDataView, user_id: Seq<char>, key: Seq<char>)
    ensures
        ({
            let after = AppDataView { kv: d.kv_after_delete(user_id, key), ..d };
            &&& !after.kv_of(user_id).contains_key(key)
            &&& forall|k: Seq<char>| k != key ==> #[trigger] after.kv_of(user_id).contains_key(k) == d.kv_of(user_id).contains_key(k)
            &&& forall|k: Seq<char>| k != key && d.kv_of(user_id).contains_key(k) ==> #[trigger] after.kv_of(user_id)[k] == d.kv_of(user_id)[k]
            &&& forall|u: Seq<char>| u != user_id ==> #[trigger] after.kv_of(u) == d.kv_of(u)
        }),
{
    let after = AppDataView { kv: d.kv_after_delete(user_id, key), ..d };
    if d.kv.contains_key(user_id) {
        let rest = d.kv[user_id].remove(key);
        if rest.is_empty() {
            assert forall|k: Seq<char>| k != key implies #[trigger] after.kv_of(user_id).contains_key(k) == d.kv_of(user_id).contains_key(k) by {
                if d.kv[user_id].contains_key(k) {
                    assert(rest.contains_key(k));
                    assert(rest.dom().contains(k));
                }
            }
        }
        assert(!after.kv_of(user_id).contains_key(key));
        assert forall|k: Seq<char>| k != key && d.kv_of(user_id).contains_key(k) implies #[trigger] after.kv_of(user_id)[k] == d.kv_of(user_id)[k] by {
            assert(rest.contains_key(k));
            assert(rest.dom().contains(k));
        }
        assert forall|u: Seq<char>| u != user_id implies #[trigger] after.kv_of(u) == d.kv_of(u) by {
        }
    } else {
        assert(after.kv == d.kv);
    }
}

/// Deleting a key that is not set changes nothing; so a second delete of the
/// same key finds nothing to delete.
pub proof fn law_delete_twice(d: AppDataView, user_id: Seq<char>, key: Seq<char>)
    ensures
        ({
            let once = AppDataView { kv: d.kv_after_delete(user_id, key), ..d };
            &&& !once.kv_of(user_id).contains_key(key)
            &&& once.kv_after_delete(user_id, key) == once.kv
        }),
{
    let once = AppDataView { kv: d.kv_after_delete(user_id, key), ..d };
    law_delete_then_read(d, user_id, key);
    if once.kv.contains_key(user_id) {
        let m = once.kv[user_id];
        assert(m.remove(key) =~= m);
        if d.kv.contains_key(user_id) {
            let rest = d.kv[user_id].remove(key);
            if !rest.is_empty() {
                assert(m == rest);
            }
        }
        assert(!m.is_empty() ==> once.kv.insert(user_id, m) =~= once.kv);
        if m.is_empty() {
            assert(d.kv.contains_key(user_id));
            let rest = d.kv[user_id].remove(key);
            assert(!rest.is_empty());
            assert(m == rest);
        }
    }
}

/// A delete never leaves a user holding an empty set of pairs.
pub proof fn law_delete_leaves_no_empty_user(d: AppDataView, user_id: Seq<char>, key: Seq<char>)
    ensures
        ({
            let after = d.kv_after_delete(user_id, key);
            after.contains_key(user_id) && d.kv.contains_key(user_id) ==> !after[user_id].is_empty()
        }),
{
}

/// What `/kv set` saved is what the API then shows: any presence of the
/// user that is served (cached or offline), published or batched afterwards
/// carries the new value for the key.
pub proof fn law_served_presence_has_set_value(d: AppDataView, presence: PresenceView, key: Seq<char>, value: Seq<char>)
    ensures
        ({
            let after = AppDataView { kv: d.kv_after_set(presence.user_id, key, value), ..d };
            let served = after.with_current_kv(presence);
            &&& served.kv.contains_key(key)
            &&& served.kv[key] == value
            &&& served.with_kv(presence.kv) == presence
        }),
{
}

/// Caching a presence and publishing a user's presence both keep every
/// cached presence under its own user's id.
pub proof fn law_presences_stay_keyed(d: AppDataView, presence: PresenceView, user_id: Seq<char>)
    requires
        presences_keyed(d.presences),
    ensures
        presences_keyed(d.presences.insert(presence.user_id, d.with_current_kv(presence))),
        d.presences.contains_key(user_id) ==> presences_keyed(
            d.presences.insert(user_id, d.with_current_kv(d.presences[user_id])),
        ),
{
}

/// No user holds an empty set of pairs in the store.
pub open spec fn no_empty_users(kv: Map<Seq<char>, Map<Seq<char>, Seq<char>>>) -> bool {
    forall|u: Seq<char>| #[trigger] kv.contains_key(u) ==> !kv[u].is_empty()
}

/// Setting and deleting pairs never leaves a user holding an empty set of
/// pairs, where none did before.
pub proof fn law_no_empty_users_kept(d: AppDataView, user_id: Seq<char>, key: Seq<char>, value: Seq<char>)
    requires
        no_empty_users(d.kv),
    ensures
        no_empty_users(d.kv_after_set(user_id, key, value)),
        no_empty_users(d.kv_after_delete(user_id, key)),
{
    let set = d.kv_after_set(user_id, key, value);
    assert(set[user_id].contains_key(key));
    assert(set[user_id].dom().contains(key));
}

/// Deleting a key that was just set, where it was not set before, gives the
/// store back as it was (a user that held no pairs is dropped again); the
/// user must not hold an empty set of pairs to begin with.
pub proof fn law_delete_undoes_set(d: AppDataView, user_id: Seq<char>, key: Seq<char>, value: Seq<char>)
    requires
        d.kv.contains_key(user_id) ==> !d.kv[user_id].is_empty(),
        !d.kv_of(user_id).contains_key(key),
    ensures
        (AppDataView { kv: d.kv_after_set(user_id, key, value), ..d }).kv_after_delete(user_id, key) == d.kv,
{
    let set = AppDataView { kv: d.kv_after_set(user_id, key, value), ..d };
    let rest = set.kv[user_id].remove(key);
    assert(rest =~= d.kv_of(user_id));
    if d.kv.contains_key(user_id) {
        assert(!rest.is_empty());
        assert(set.kv.insert(user_id, rest) =~= d.kv);
    } else {
        assert(rest =~= Map::<Seq<char>, Seq<char>>::empty());
        assert(set.kv.remove(user_id) =~= d.kv);
    }
}

/// Setting the same value twice leaves the store as setting it once.
pub proof fn law_set_idempotent(d: AppDataView, user_id: Seq<char>, key: Seq<char>, value: Seq<char>)
    ensures
        (AppDataView { kv: d.kv_after_set(user_id, key, value), ..d }).kv_after_set(user_id, key, value)
            == d.kv_after_set(user_id, key, value),
{
    let once = AppDataView { kv: d.kv_after_set(user_id, key, value), ..d };
    assert(once.kv_of(user_id).insert(key, value) =~= once.kv_of(user_id));
    assert(once.kv.insert(user_id, once.kv_of(user_id)) =~= once.kv);
}

/// Merging a profile never changes the id, keeps every field the user
/// already had, and leaves a complete user as it was.
pub proof fn law_merge_keeps_known_fields(user: DiscordUserView, profile: DiscordUserView)
    ensures
        user.merge(profile).id == user.id,
        user.username is Some ==> user.merge(profile).username == user.username,
        user.discriminator is Some ==> user.merge(profile).discriminator == user.discriminator,
        user.avatar is Some ==> user.merge(profile).avatar == user.avatar,
        user.display_name is Some ==> user.merge(profile).display_name == user.display_name,
        !user.needs_profile() && user.discriminator is Some ==> user.merge(profile) == user,
{
}

/// Merging a complete profile completes the user.
pub proof fn law_merge_with_complete_profile(user: DiscordUserView, profile: DiscordUserView)
    requires
        !profile.needs_profile(),
    ensures
        !user.merge(profile).needs_profile(),
{
}

/// Animated avatars (hashes that begin with `a_`) are GIF images, the
/// others PNG.
pub proof fn law_avatar_format(user_id: Seq<char>, avatar: Seq<char>)
    ensures
        has_prefix(avatar, "a_"@) ==> avatar_url_spec(user_id, avatar) == "https://cdn.discordapp.com/avatars/"@ + user_id + "/"@ + avatar + ".gif?size=1024"@,
        !has_prefix(avatar, "a_"@) ==> avatar_url_spec(user_id, avatar) == "https://cdn.discordapp.com/avatars/"@ + user_id + "/"@ + avatar + ".png?size=1024"@,
{
    reveal_strlit(".gif?size=1024");
    reveal_strlit(".png?size=1024");
    reveal_strlit(".");
    reveal_strlit("gif");
    reveal_strlit("png");
    reveal_strlit("?size=1024");
    let pre = "https://cdn.discordapp.com/avatars/"@ + user_id + "/"@ + avatar;
    assert(pre + "."@ + "gif"@ + "?size=1024"@ =~= pre + ".gif?size=1024"@);
    assert(pre + "."@ + "png"@ + "?size=1024"@ =~= pre + ".png?size=1024"@);
}

/// A parsed presence belongs to the user it describes, says it is listening
/// to Spotify exactly when it has a Spotify session, and starts with no
/// key/value pairs.
pub proof fn law_parsed_presence_shape(v: crate::json::Json)
    ensures
        parse_presence_spec(v) matches Some(p) ==> {
            &&& p.user_id == p.discord_user.id
            &&& p.listening_to_spotify == (p.spotify is Some)
            &&& p.spotify == first_spotify(p.activities)
            &&& p.kv == Map::<Seq<char>, Seq<char>>::empty()
        },
{
}

/// A client that asked for everyone hears about every user; one that asked
/// for one user hears about that user only; one without a subscription
/// hears about nobody.
pub proof fn law_subscription_scope(data: SocketSubscribeData, user_id: Seq<char>, other: Seq<char>)
    ensures
        crate::models::or_else(data.all, data.subscribe_to_all) == Some(true) ==> subscription_matches_spec(subscription_spec(data), user_id),
        subscription_spec(data) == Some(SubscriptionView::One(user_id)) ==> (subscription_matches_spec(subscription_spec(data), other) <==> other == user_id),
        !subscription_matches_spec(None, user_id),
{
}

/// The state sent on subscribing covers exactly the cached presences that
/// the subscription matches.
pub proof fn law_init_state_matches_subscription(presences: Map<Seq<char>, PresenceView>, subscription: Option<SubscriptionView>, user_id: Seq<char>)
    ensures
        init_state_spec(presences, subscription) matches InitStateView::Many(m) ==> (m.contains_key(user_id) <==> presences.contains_key(user_id) && subscription_matches_spec(subscription, user_id)),
        init_state_spec(presences, subscription) matches InitStateView::Many(m) ==> (m.contains_key(user_id) ==> m[user_id] == presences[user_id]),
        init_state_spec(presences, subscription) matches InitStateView::One(p) ==> exists|id: Seq<char>| subscription == Some(SubscriptionView::One(id)) && presences.contains_key(id) && presences[id] == p,
{
}

/// The session after a run of inputs, and the sequence numbers of the
/// numbered messages it sent for them, in the order they were sent.
pub open spec fn session_run(m: SessionModel, inputs: Seq<SocketInput>) -> (SessionModel, Seq<int>)
    decreases inputs.len(),
{
    if inputs.len() == 0 {
        (m, Seq::empty())
    } else {
        let before = session_run(m, inputs.drop_last());
        let step = session_step(before.0, inputs.last());
        (
            step.0,
            match step.1 {
                Some(n) => before.1.push(n),
                None => before.1,
            },
        )
    }
}

/// Over any run of client messages and presence events, the numbered
/// messages of a session (initial states and presence updates) carry the
/// numbers that follow the last one it had sent, each one more than the one
/// before, none skipped or repeated; a new subscribe does not reset the
/// count. A new session numbers its messages 1, 2, 3, ...
pub proof fn law_session_numbering(m: SessionModel, inputs: Seq<SocketInput>)
    ensures
        session_run(m, inputs).0.seq == m.seq + session_run(m, inputs).1.len(),
        forall|i: int| 0 <= i < session_run(m, inputs).1.len() ==> #[trigger] session_run(m, inputs).1[i] == m.seq + i + 1,
        m.seq == 0 ==> forall|i: int| 0 <= i < session_run(m, inputs).1.len() ==> #[trigger] session_run(m, inputs).1[i] == i + 1,
    decreases inputs.len(),
{
    if inputs.len() > 0 {
        law_session_numbering(m, inputs.drop_last());
    }
}

/// The latch after `k` claims, and what each claim returned, in order.
pub open spec fn claim_run(claimed: bool, k: nat) -> (bool, Seq<bool>)
    decreases k,
{
    if k == 0 {
        (claimed, Seq::empty())
    } else {
        let before = claim_run(claimed, (k - 1) as nat);
        let claim = claim_spec(before.0);
        (claim.0, before.1.push(claim.1))
    }
}

/// Of any number of claims on a latch that nobody has claimed, exactly the
/// first succeeds; on a claimed latch none does.
pub proof fn law_first_claim_only(claimed: bool, k: nat)
    ensures
        claim_run(claimed, k).1.len() == k,
        k > 0 ==> claim_run(claimed, k).0,
        forall|i: int| 0 <= i < k ==> #[trigger] claim_run(claimed, k).1[i] == (i == 0 && !claimed),
    decreases k,
{
    if k > 0 {
        law_first_claim_only(claimed, (k - 1) as nat);
    }
}

/// The latch after a run of dispatch payloads, and the applications that the
/// `/kv` command was registered for, in order.
pub open spec fn registration_run(claimed: bool, payloads: Seq<Json>) -> (bool, Seq<Seq<char>>)
    decreases payloads.len(),
{
    if payloads.len() == 0 {
        (claimed, Seq::empty())
    } else {
        let before = registration_run(claimed, payloads.drop_last());
        let step = registration_step(before.0, dispatch_spec(payloads.last()));
        (
            step.0,
            match step.1 {
                Some(id) => before.1.push(id),
                None => before.1,
            },
        )
    }
}

/// A READY event that names the application `id`.
pub open spec fn ready_for(plan: DispatchPlanView, id: Seq<char>) -> bool {
    match plan {
        DispatchPlanView::Ready { application_id, .. } => application_id == Some(id),
        _ => false,
    }
}

/// Whatever the gateway dispatches, the `/kv` command is registered at most
/// once per process, never once the latch is claimed, and only for the
/// application that a READY event names.
pub proof fn law_registration_at_most_once(claimed: bool, payloads: Seq<Json>)
    ensures
        registration_run(claimed, payloads).1.len() <= 1,
        claimed ==> registration_run(claimed, payloads).1.len() == 0,
        registration_run(claimed, payloads).1.len() == 1 ==> registration_run(claimed, payloads).0,
        forall|j: int| #![trigger registration_run(claimed, payloads).1[j]] 0 <= j < registration_run(claimed, payloads).1.len() ==> exists|i: int|
            0 <= i < payloads.len() && ready_for(#[trigger] dispatch_spec(payloads[i]), registration_run(claimed, payloads).1[j]),
        claimed ==> registration_run(claimed, payloads).0,
    decreases payloads.len(),
{
    if payloads.len() > 0 {
        let rest = payloads.drop_last();
        law_registration_at_most_once(claimed, rest);
        let before = registration_run(claimed, rest);
        let last = payloads.len() - 1;
        assert(payloads.last() == payloads[last]);
        let after = registration_run(claimed, payloads);
        assert forall|j: int| #![trigger after.1[j]] 0 <= j < after.1.len() implies exists|i: int|
            0 <= i < payloads.len() && ready_for(#[trigger] dispatch_spec(payloads[i]), after.1[j]) by {
            if j < before.1.len() {
                let i = choose|i: int|
                    0 <= i < rest.len() && ready_for(#[trigger] dispatch_spec(rest[i]), before.1[j]);
                assert(rest[i] == payloads[i]);
                assert(after.1[j] == before.1[j]);
            } else {
                assert(dispatch_spec(payloads[last]) is Ready);
            }
        }
    }
}

/// A dispatch whose event name is none of READY, PRESENCE_UPDATE,
/// GUILD_CREATE and INTERACTION_CREATE is ignored, and leaves the
/// registration latch as it was.
pub proof fn law_unknown_events_ignored(payload: Json, claimed: bool)
    requires
        payload.at("t"@).as_str() != Some("READY"@),
        payload.at("t"@).as_str() != Some("PRESENCE_UPDATE"@),
        payload.at("t"@).as_str() != Some("GUILD_CREATE"@),
        payload.at("t"@).as_str() != Some("INTERACTION_CREATE"@),
    ensures
        dispatch_spec(payload) is Ignore,
        registration_step(claimed, dispatch_spec(payload)) == (claimed, None::<Seq<char>>),
{
}

/// Reconnect waits double up to a minute and never shrink below the wait
/// before them while under a minute; starting from two seconds they never
/// exceed a minute.
pub proof fn law_reconnect_backoff(delay_secs: u64)
    requires
        delay_secs <= 60,
    ensures
        next_reconnect_delay_spec(delay_secs) <= 60,
        next_reconnect_delay_spec(delay_secs) >= delay_secs,
        delay_secs < 30 ==> next_reconnect_delay_spec(delay_secs) == 2 * delay_secs,
{
}

/// Once identified, a session never waits for a hello again, and it handles
/// events only once identified.
pub proof fn law_gateway_identifies_first(phase: GatewayPhase, input: GatewayInputView)
    ensures
        phase == GatewayPhase::Dispatching ==> gateway_step(phase, input).0 == GatewayPhase::Dispatching,
        gateway_step(phase, input).1 is Dispatch ==> phase == GatewayPhase::Dispatching,
        gateway_step(phase, input).1 is Identify ==> phase == GatewayPhase::AwaitingHello,
{
}

/// Two listings sorted by key that list the same pairs are the same; so the
/// reply to `/kv list` is determined by the user's pairs.
pub proof fn law_sorted_listing_unique(m: Map<Seq<char>, Seq<char>>, s: Seq<(Seq<char>, Seq<char>)>, t: Seq<(Seq<char>, Seq<char>)>)
    requires
        strictly_sorted(s),
        strictly_sorted(t),
        lists(m, s),
        lists(m, t),
    ensures
        s == t,
        kv_lines(s) == kv_lines(t),
    decreases s.len(),
{
    if s.len() == 0 {
        if t.len() > 0 {
            assert(m.contains_key(t[0].0));
            let i = choose|i: int| 0 <= i < s.len() && s[i].0 == t[0].0;
        }
        assert(s =~= t);
    } else if t.len() == 0 {
        assert(m.contains_key(s[0].0));
        let i = choose|i: int| 0 <= i < t.len() && t[i].0 == s[0].0;
    } else {
        // Both start with the smallest key of `m`.
        assert(m.contains_key(s[0].0));
        let j = choose|j: int| 0 <= j < t.len() && t[j].0 == s[0].0;
        assert(m.contains_key(t[0].0));
        let i = choose|i: int| 0 <= i < s.len() && s[i].0 == t[0].0;
        if i > 0 && j > 0 {
            assert(chars_lt(s[0].0, s[i].0));
            assert(chars_lt(t[0].0, t[j].0));
            lemma_chars_lt_asymmetric(s[0].0, t[0].0);
        } else if i > 0 {
            assert(chars_lt(s[0].0, s[i].0));
            lemma_chars_lt_irreflexive(s[0].0);
        } else if j > 0 {
            assert(chars_lt(t[0].0, t[j].0));
            lemma_chars_lt_irreflexive(t[0].0);
        }
        assert(s[0].0 == t[0].0);
        assert(s[0].1 == m[s[0].0] && t[0].1 == m[t[0].0]);
        let k = s[0].0;
        let m2 = m.remove(k);
        let s2 = s.drop_first();
        let t2 = t.drop_first();
        assert(strictly_sorted(s2));
        assert(strictly_sorted(t2));
        assert(lists(m2, s2)) by {
            assert forall|a: int| 0 <= a < s2.len() implies m2.contains_key(#[trigger] s2[a].0) && m2[s2[a].0] == s2[a].1 by {
                assert(s2[a] == s[a + 1]);
                assert(chars_lt(s[0].0, s[a + 1].0));
                lemma_chars_lt_irreflexive(k);
            }
            assert forall|q: Seq<char>| #[trigger] m2.contains_key(q) implies exists|a: int| 0 <= a < s2.len() && s2[a].0 == q by {
                let a = choose|a: int| 0 <= a < s.len() && s[a].0 == q;
                assert(a > 0);
                assert(s2[a - 1].0 == q);
            }
        }
        assert(lists(m2, t2)) by {
            assert forall|a: int| 0 <= a < t2.len() implies m2.contains_key(#[trigger] t2[a].0) && m2[t2[a].0] == t2[a].1 by {
                assert(t2[a] == t[a + 1]);
                assert(chars_lt(t[0].0, t[a + 1].0));
                lemma_chars_lt_irreflexive(k);
            }
            assert forall|q: Seq<char>| #[trigger] m2.contains_key(q) implies exists|a: int| 0 <= a < t2.len() && t2[a].0 == q by {
                let a = choose|a: int| 0 <= a < t.len() && t[a].0 == q;
                assert(a > 0);
                assert(t2[a - 1].0 == q);
            }
        }
        law_sorted_listing_unique(m2, s2, t2);
        assert(s =~= seq![s[0]] + s2);
        assert(t =~= seq![t[0]] + t2);
    }
}

/// The member `key` of a client status object is a string.
pub open spec fn names_client(c: Json, key: Seq<char>) -> bool {
    c.member(key) matches Some(Json::Str(_))
}

/// The member `key` of an object is missing, null or a string: the forms a
/// client entry can take.
pub open spec fn plain_client_entry(c: Json, key: Seq<char>) -> bool {
    match c.member(key) {
        None => true,
        Some(Json::Null) => true,
        Some(Json::Str(_)) => true,
        _ => false,
    }
}

/// A presence is active on a client exactly when its client status names
/// that client: desktop by the `desktop` entry, mobile by the `mobile` entry,
/// web by the `web` entry. For a client status object whose entries are
/// missing, null or strings, a client counts as active exactly when its own
/// entry is a string; a client status that is no record at all makes no
/// client active.
pub proof fn law_presence_clients(v: Json)
    ensures
        parse_presence_spec(v) matches Some(p) ==> {
            let cs = client_status_or_default(v.at("client_status"@));
            &&& p.active_on_discord_desktop == (cs.desktop is Some)
            &&& p.active_on_discord_mobile == (cs.mobile is Some)
            &&& p.active_on_discord_web == (cs.web is Some)
        },
        ({
            let c = v.at("client_status"@);
            let p = parse_presence_spec(v)->0;
            parse_presence_spec(v) is Some && c is Object && plain_client_entry(c, "desktop"@)
                && plain_client_entry(c, "mobile"@) && plain_client_entry(c, "web"@) ==> {
                &&& p.active_on_discord_desktop == names_client(c, "desktop"@)
                &&& p.active_on_discord_mobile == names_client(c, "mobile"@)
                &&& p.active_on_discord_web == names_client(c, "web"@)
            }
        }),
        ({
            let c = v.at("client_status"@);
            let p = parse_presence_spec(v)->0;
            parse_presence_spec(v) is Some && !(c is Object) && !(c is Array) ==> {
                &&& !p.active_on_discord_desktop
                &&& !p.active_on_discord_mobile
                &&& !p.active_on_discord_web
            }
        }),
{
}

/// A presence exists exactly when its `user` object has a string `id`; it
/// belongs to that id; its status is the `status` string, or offline where
/// there is none; its user's names come from the `user` object.
pub proof fn law_presence_user_and_status(v: Json)
    ensures
        parse_presence_spec(v) is Some <==> v.at("user"@).at("id"@).as_str() is Some,
        parse_presence_spec(v) matches Some(p) ==> {
            let u = v.at("user"@);
            &&& Some(p.user_id) == u.at("id"@).as_str()
            &&& p.discord_user.id == p.user_id
            &&& p.discord_user.username == u.at("username"@).as_str()
            &&& p.discord_user.discriminator == u.at("discriminator"@).as_str()
            &&& p.discord_user.display_name == u.at("global_name"@).as_str()
            &&& (u.at("avatar"@).as_str() is None <==> p.discord_user.avatar is None)
            &&& v.at("status"@).as_str() matches Some(st) ==> p.discord_status == st
            &&& v.at("status"@).as_str() is None ==> p.discord_status == "offline"@
            &&& p.kv.is_empty()
        },
{
    if let Some(p) = parse_presence_spec(v) {
        assert(p.kv =~= Map::<Seq<char>, Seq<char>>::empty());
    }
}

/// A gateway user object gives a user exactly when it has a string `id`;
/// each name is the string of the member of the same name (the display name
/// is the global name), and an avatar exactly when there is an avatar hash.
pub proof fn law_discord_user_fields(v: Json)
    ensures
        parse_discord_user_spec(v) is Some <==> v.at("id"@).as_str() is Some,
        parse_discord_user_spec(v) matches Some(u) ==> {
            &&& Some(u.id) == v.at("id"@).as_str()
            &&& u.username == v.at("username"@).as_str()
            &&& u.discriminator == v.at("discriminator"@).as_str()
            &&& u.display_name == v.at("global_name"@).as_str()
            &&& v.at("avatar"@).as_str() matches Some(h) ==> u.avatar == Some(avatar_url_spec(u.id, h))
            &&& v.at("avatar"@).as_str() is None ==> u.avatar is None
        },
{
}

/// An activity object gives an activity exactly when it has a string `name`
/// and a non-negative integer `type`; each field of the activity is read
/// from the member of the same name (the kind from `type`, keeping its low
/// eight bits), and the optional documents are absent where null.
pub proof fn law_activity_fields(v: Json)
    ensures
        parse_activity_spec(v) is Some <==> (v.at("name"@).as_str() is Some && v.at("type"@).as_u64() is Some),
        parse_activity_spec(v) matches Some(a) ==> {
            &&& Some(a.name) == v.at("name"@).as_str()
            &&& a.kind as int == v.at("type"@).as_u64()->0 as int % 256
            &&& a.state == v.at("state"@).as_str()
            &&& a.details == v.at("details"@).as_str()
            &&& a.application_id == v.at("application_id"@).as_str()
            &&& a.sync_id == v.at("sync_id"@).as_str()
            &&& a.flags == v.at("flags"@).as_u64()
            &&& (a.emoji is None <==> v.at("emoji"@) is Null)
            &&& (a.emoji matches Some(e) ==> e == v.at("emoji"@))
            &&& (a.party is None <==> v.at("party"@) is Null)
            &&& (a.party matches Some(e) ==> e == v.at("party"@))
            &&& (a.buttons is None <==> v.at("buttons"@) is Null)
            &&& (a.buttons matches Some(e) ==> e == v.at("buttons"@))
        },
{
}

/// An activity is a Spotify session exactly when it is a listening activity
/// (type 2) named `Spotify`; the track is its sync id, the artist its state,
/// the song its details, the album its large image's caption, and the cover
/// the Spotify image that its large image names.
pub proof fn law_spotify_fields(a: ActivityView)
    ensures
        parse_spotify_spec(a) is Some <==> (a.kind == 2 && a.name == "Spotify"@),
        parse_spotify_spec(a) matches Some(s) ==> {
            &&& s.track_id == a.sync_id
            &&& s.artist == a.state
            &&& s.song == a.details
            &&& s.timestamps == a.timestamps
            &&& a.assets is None ==> s.album is None && s.album_art_url is None
            &&& a.assets matches Some(assets) ==> s.album == assets.large_text
            &&& a.assets is Some && a.assets->0.large_image is Some && has_prefix(a.assets->0.large_image->0, "spotify:"@)
                ==> s.album_art_url == Some("https://i.scdn.co/image/"@ + a.assets->0.large_image->0.subrange(
                    8,
                    a.assets->0.large_image->0.len() as int,
                ))
            &&& a.assets is Some && a.assets->0.large_image is None ==> s.album_art_url is None
            &&& a.assets is Some && a.assets->0.large_image is Some && !has_prefix(a.assets->0.large_image->0, "spotify:"@)
                ==> s.album_art_url is None
        },
{
    reveal_strlit("spotify:");
}

/// The Spotify session of a list of activities is that of the first
/// activity that is a Spotify session, wherever it stands: where the first
/// activity is one, it gives the session; where any activity is one, there
/// is a session; and a session always comes from an activity with none
/// before it.
pub proof fn law_first_spotify(acts: Seq<ActivityView>)
    ensures
        acts.len() > 0 && parse_spotify_spec(acts[0]) is Some ==> first_spotify(acts) == parse_spotify_spec(acts[0]),
        (exists|i: int| 0 <= i < acts.len() && (#[trigger] parse_spotify_spec(acts[i])) is Some) ==> first_spotify(acts) is Some,
        first_spotify(acts) matches Some(s) ==> exists|i: int|
            0 <= i < acts.len() && #[trigger] parse_spotify_spec(acts[i]) == Some(s)
                && forall|j: int| 0 <= j < i ==> (#[trigger] parse_spotify_spec(acts[j])) is None,
        (forall|i: int| 0 <= i < acts.len() ==> (#[trigger] parse_spotify_spec(acts[i])) is None) ==> first_spotify(acts) is None,
    decreases acts.len(),
{
    if acts.len() > 0 {
        let rest = acts.drop_first();
        law_first_spotify(rest);
        assert forall|i: int| 0 <= i < rest.len() implies rest[i] == acts[i + 1] by {}
        if parse_spotify_spec(acts[0]) is None {
            if exists|i: int| 0 <= i < acts.len() && (#[trigger] parse_spotify_spec(acts[i])) is Some {
                let i = choose|i: int| 0 <= i < acts.len() && (#[trigger] parse_spotify_spec(acts[i])) is Some;
                assert(i > 0);
                assert(parse_spotify_spec(rest[i - 1]) is Some);
            }
            if let Some(s) = first_spotify(acts) {
                let i = choose|i: int|
                    0 <= i < rest.len() && #[trigger] parse_spotify_spec(rest[i]) == Some(s)
                        && forall|j: int| 0 <= j < i ==> (#[trigger] parse_spotify_spec(rest[j])) is None;
                assert(parse_spotify_spec(acts[i + 1]) == Some(s));
                assert forall|j: int| 0 <= j < i + 1 implies (#[trigger] parse_spotify_spec(acts[j])) is None by {
                    if j > 0 {
                        assert(acts[j] == rest[j - 1]);
                    }
                }
            }
            if forall|i: int| 0 <= i < acts.len() ==> (#[trigger] parse_spotify_spec(acts[i])) is None {
                assert forall|i: int| 0 <= i < rest.len() implies (#[trigger] parse_spotify_spec(rest[i])) is None by {
                    assert(parse_spotify_spec(acts[i + 1]) is None);
                }
            }
        } else {
            let s = parse_spotify_spec(acts[0])->0;
            assert(0 <= 0 < acts.len() && parse_spotify_spec(acts[0]) == Some(s));
        }
    }
}

/// Merging fills each missing field of a user from the same field of the
/// profile, and only missing ones.
pub proof fn law_merge_fills_from_same_field(user: DiscordUserView, profile: DiscordUserView)
    ensures
        user.username is None ==> user.merge(profile).username == profile.username,
        user.discriminator is None ==> user.merge(profile).discriminator == profile.discriminator,
        user.avatar is None ==> user.merge(profile).avatar == profile.avatar,
        user.display_name is None ==> user.merge(profile).display_name == profile.display_name,
        user.username is Some ==> user.merge(profile).username == user.username,
        user.discriminator is Some ==> user.merge(profile).discriminator == user.discriminator,
        user.avatar is Some ==> user.merge(profile).avatar == user.avatar,
        user.display_name is Some ==> user.merge(profile).display_name == user.display_name,
        user.merge(profile).id == user.id,
{
}

/// What a subscribe payload watches, field by field: everyone where `all` is
/// true, or `all` is absent and `subscribe_to_all` is true; otherwise the one
/// user of `user_id`, or else of `subscribe_to_id`; otherwise exactly the
/// ids listed under `user_ids`, or else under `subscribe_to_ids`; otherwise
/// nothing. A client watching a list hears about exactly the listed ids.
pub proof fn law_subscription_payload(d: SocketSubscribeData, user: Seq<char>)
    ensures
        ({
            let all = d.all == Some(true) || (d.all is None && d.subscribe_to_all == Some(true));
            &&& all ==> subscription_spec(d) == Some(SubscriptionView::All)
            &&& !all && d.user_id is Some ==> subscription_spec(d) == Some(SubscriptionView::One(d.user_id->0@))
            &&& !all && d.user_id is None && d.subscribe_to_id is Some
                ==> subscription_spec(d) == Some(SubscriptionView::One(d.subscribe_to_id->0@))
            &&& !all && d.user_id is None && d.subscribe_to_id is None && d.user_ids is Some
                ==> subscription_spec(d) == Some(SubscriptionView::Many(id_set(d.user_ids->0@)))
            &&& !all && d.user_id is None && d.subscribe_to_id is None && d.user_ids is None && d.subscribe_to_ids is Some
                ==> subscription_spec(d) == Some(SubscriptionView::Many(id_set(d.subscribe_to_ids->0@)))
            &&& !all && d.user_id is None && d.subscribe_to_id is None && d.user_ids is None && d.subscribe_to_ids is None
                ==> subscription_spec(d) is None
            &&& d.subscribe_to_ids is Some ==> subscription_spec(d) is Some
        }),
        d.user_ids matches Some(ids) ==> (subscription_matches_spec(Some(SubscriptionView::Many(id_set(ids@))), user)
            <==> exists|i: int| 0 <= i < ids@.len() && (#[trigger] ids@[i])@ == user),
{
}

} // verus!
