//! The `/kv` slash command: reading an interaction, and the replies.

use vstd::prelude::*;

use crate::json::{opt_view, views, Json, JsonValue};
use crate::models::opt_str;
use crate::payload::{at_opt, lookup, optional_string, optional_u64, or_null};
use crate::strmap::{distinct_keys, has_key_at, lemma_map_of_at, map_of, StrMap};
use crate::text::{
    chars_lt, concat, lemma_chars_lt_total, lemma_chars_lt_transitive, owned, str_equal, str_less,
};

verus! {

/// The first element of `options` whose `name` is `name`.
pub open spec fn first_named(options: Seq<Json>, name: Seq<char>) -> Option<Json>
    decreases options.len(),
{
    if options.len() == 0 {
        None
    } else if options[0].at("name"@).as_str() == Some(name) {
        Some(options[0])
    } else {
        first_named(options.drop_first(), name)
    }
}

/// The string value of the option called `name` of a command: the first
/// option with that name gives it, if its value is a string.
pub open spec fn option_value_spec(command: Json, name: Seq<char>) -> Option<Seq<char>> {
    match command.at("options"@).as_array() {
        Some(options) => match first_named(options, name) {
            Some(option) => option.at("value"@).as_str(),
            None => None,
        },
        None => None,
    }
}

/// The string value of the option called `name` of a command.
pub fn option_value(command: &JsonValue, name: &str) -> (r: Option<String>)
    ensures
        opt_str(r) == option_value_spec(command@, name@),
{
    let options = match lookup(Some(command), "options") {
        Some(o) => match o.as_array() {
            Some(items) => items,
            None => return None,
        },
        None => return None,
    };
    let ghost all = views(options@);
    let mut i: usize = 0;
    proof {
        assert(all.skip(0) =~= all);
    }
    while i < options.len()
        invariant
            i <= options@.len(),
            all == views(options@),
            command@.at("options"@).as_array() == Some(all),
            first_named(all, name@) == first_named(all.skip(i as int), name@),
        decreases options@.len() - i,
    {
        proof {
            assert(all.skip(i as int)[0] == options@[i as int]@);
            assert(all.skip(i as int).drop_first() =~= all.skip(i + 1));
        }
        let option = &options[i];
        let matches = match optional_string(Some(option), "name") {
            Some(n) => str_equal(n.as_str(), name),
            None => false,
        };
        if matches {
            return optional_string(Some(option), "value");
        }
        i = i + 1;
    }
    None
}

/// A `/kv` subcommand, as the user gave it.
#[derive(Debug, Clone, PartialEq, Eq)]
pub enum KvCommand {
    /// `/kv set` with both a key and a value.
    SetValue { key: String, value: String },
    /// `/kv set` without its key or value.
    SetUsage,
    /// `/kv delete` with a key.
    DeleteKey { key: String },
    /// `/kv delete` without a key.
    DeleteUsage,
    /// `/kv list`.
    List,
    /// Anything else.
    Usage,
}

pub enum KvCommandView {
    SetValue { key: Seq<char>, value: Seq<char> },
    SetUsage,
    DeleteKey { key: Seq<char> },
    DeleteUsage,
    List,
    Usage,
}

impl View for KvCommand {
    type V = KvCommandView;

    open spec fn view(&self) -> KvCommandView {
        match self {
            KvCommand::SetValue { key, value } => KvCommandView::SetValue { key: key@, value: value@ },
            KvCommand::SetUsage => KvCommandView::SetUsage,
            KvCommand::DeleteKey { key } => KvCommandView::DeleteKey { key: key@ },
            KvCommand::DeleteUsage => KvCommandView::DeleteUsage,
            KvCommand::List => KvCommandView::List,
            KvCommand::Usage => KvCommandView::Usage,
        }
    }
}

/// The subcommand that the first element of the `options` of a `/kv`
/// interaction names.
pub open spec fn kv_command_spec(options: Json) -> KvCommandView {
    match options.as_array() {
        Some(items) => if items.len() == 0 {
            KvCommandView::Usage
        } else {
            let command = items[0];
            let name = command.at("name"@).as_str();
            if name == Some("set"@) {
                match (option_value_spec(command, "key"@), option_value_spec(command, "value"@)) {
                    (Some(key), Some(value)) => KvCommandView::SetValue { key, value },
                    _ => KvCommandView::SetUsage,
                }
            } else if name == Some("delete"@) {
                match option_value_spec(command, "key"@) {
                    Some(key) => KvCommandView::DeleteKey { key },
                    None => KvCommandView::DeleteUsage,
                }
            } else if name == Some("list"@) {
                KvCommandView::List
            } else {
                KvCommandView::Usage
            }
        },
        None => KvCommandView::Usage,
    }
}

fn name_is(v: &JsonValue, name: &str) -> (r: bool)
    ensures
        r == (v@.at("name"@).as_str() == Some(name@)),
{
    match optional_string(Some(v), "name") {
        Some(n) => str_equal(n.as_str(), name),
        None => false,
    }
}

/// Reads the subcommand out of the `options` of a `/kv` interaction.
pub fn kv_command(options: Option<&JsonValue>) -> (r: KvCommand)
    ensures
        r@ == kv_command_spec(or_null(opt_view(options))),
{
    let items = match options {
        Some(o) => match o.as_array() {
            Some(items) => items,
            None => return KvCommand::Usage,
        },
        None => return KvCommand::Usage,
    };
    if items.len() == 0 {
        return KvCommand::Usage;
    }
    let command = &items[0];
    if name_is(command, "set") {
        match (option_value(command, "key"), option_value(command, "value")) {
            (Some(key), Some(value)) => KvCommand::SetValue { key, value },
            _ => KvCommand::SetUsage,
        }
    } else if name_is(command, "delete") {
        match option_value(command, "key") {
            Some(key) => KvCommand::DeleteKey { key },
            None => KvCommand::DeleteUsage,
        }
    } else if name_is(command, "list") {
        KvCommand::List
    } else {
        KvCommand::Usage
    }
}

/// A `/kv` interaction to answer.
#[derive(Debug, Clone, PartialEq, Eq)]
pub struct InteractionRequest {
    pub interaction_id: String,
    pub interaction_token: String,
    /// The user who ran the command.
    pub user_id: String,
    pub command: KvCommand,
}

pub struct InteractionRequestView {
    pub interaction_id: Seq<char>,
    pub interaction_token: Seq<char>,
    pub user_id: Seq<char>,
    pub command: KvCommandView,
}

impl View for InteractionRequest {
    type V = InteractionRequestView;

    open spec fn view(&self) -> InteractionRequestView {
        InteractionRequestView {
            interaction_id: self.interaction_id@,
            interaction_token: self.interaction_token@,
            user_id: self.user_id@,
            command: self.command@,
        }
    }
}

/// The `/kv` request that an interaction makes: only application commands
/// (type 2) named `kv` with an id and a token are answered; the user is the
/// guild member's user, or else the interaction's user.
pub open spec fn interaction_spec(i: Json) -> Option<InteractionRequestView> {
    if i.at("type"@).as_u64() != Some(2u64) || i.at("data"@).at("name"@).as_str() != Some("kv"@) {
        None
    } else {
        match (
            i.at("id"@).as_str(),
            i.at("token"@).as_str(),
            crate::models::or_else(
                i.at("member"@).at("user"@).at("id"@).as_str(),
                i.at("user"@).at("id"@).as_str(),
            ),
        ) {
            (Some(interaction_id), Some(interaction_token), Some(user_id)) => Some(
                InteractionRequestView {
                    interaction_id,
                    interaction_token,
                    user_id,
                    command: kv_command_spec(i.at("data"@).at("options"@)),
                },
            ),
            _ => None,
        }
    }
}

/// Reads the `/kv` request out of an interaction; `None` for interactions
/// that are not answered.
pub fn plan_interaction(interaction: Option<&JsonValue>) -> (r: Option<InteractionRequest>)
    ensures
        match r {
            Some(req) => interaction_spec(or_null(opt_view(interaction))) == Some(req@),
            None => interaction_spec(or_null(opt_view(interaction))) is None,
        },
{
    let data = lookup(interaction, "data");
    if optional_u64(interaction, "type") != Some(2u64) {
        return None;
    }
    let is_kv = match optional_string(data, "name") {
        Some(n) => str_equal(n.as_str(), "kv"),
        None => false,
    };
    if !is_kv {
        return None;
    }
    let interaction_id = match optional_string(interaction, "id") {
        Some(id) => id,
        None => return None,
    };
    let interaction_token = match optional_string(interaction, "token") {
        Some(t) => t,
        None => return None,
    };
    let member_user = lookup(lookup(interaction, "member"), "user");
    let user_id = match optional_string(member_user, "id") {
        Some(id) => id,
        None => match optional_string(lookup(interaction, "user"), "id") {
            Some(id) => id,
            None => return None,
        },
    };
    let command = kv_command(lookup(data, "options"));
    Some(InteractionRequest { interaction_id, interaction_token, user_id, command })
}


/// The views of a list of key/value pairs.
pub open spec fn pair_views(s: Seq<(String, String)>) -> Seq<(Seq<char>, Seq<char>)> {
    Seq::new(s.len(), |i: int| (s[i].0@, s[i].1@))
}

/// Keys strictly increase along `s`.
pub open spec fn strictly_sorted(s: Seq<(Seq<char>, Seq<char>)>) -> bool {
    forall|i: int, j: int| 0 <= i < j < s.len() ==> chars_lt(#[trigger] s[i].0, #[trigger] s[j].0)
}

/// `s` lists exactly the pairs of `m`.
pub open spec fn lists(m: Map<Seq<char>, Seq<char>>, s: Seq<(Seq<char>, Seq<char>)>) -> bool {
    &&& forall|i: int| 0 <= i < s.len() ==> m.contains_key(#[trigger] s[i].0) && m[s[i].0] == s[i].1
    &&& forall|k: Seq<char>| #[trigger] m.contains_key(k) ==> exists|i: int| 0 <= i < s.len() && s[i].0 == k
}

/// One line of the listing.
pub open spec fn kv_line(p: (Seq<char>, Seq<char>)) -> Seq<char> {
    "`"@ + p.0 + "` = "@ + p.1
}

/// The lines of the listing, one per pair, separated by newlines.
pub open spec fn kv_lines(s: Seq<(Seq<char>, Seq<char>)>) -> Seq<char>
    decreases s.len(),
{
    if s.len() == 0 {
        Seq::empty()
    } else if s.len() == 1 {
        kv_line(s[0])
    } else {
        kv_lines(s.drop_last()) + "\n"@ + kv_line(s.last())
    }
}

/// Whether `text` answers `/kv list` for the pairs `m`: a notice where there
/// are none, else one line per pair in increasing key order.
pub open spec fn is_list_reply(m: Map<Seq<char>, Seq<char>>, text: Seq<char>) -> bool {
    if m.is_empty() {
        text == "You do not have any saved values yet."@
    } else {
        exists|s: Seq<(Seq<char>, Seq<char>)>| strictly_sorted(s) && lists(m, s) && text == kv_lines(s)
    }
}

/// Every pair of `s` is one of the first `i` pairs of `ev`.
#[verifier::opaque]
pub open spec fn drawn_from(ev: Seq<(Seq<char>, Seq<char>)>, i: int, s: Seq<(Seq<char>, Seq<char>)>) -> bool {
    forall|j: int| 0 <= j < s.len() ==> exists|k: int| 0 <= k < i && ev[k] == #[trigger] s[j]
}

/// Each of the first `i` pairs of `ev` is in `s`.
#[verifier::opaque]
pub open spec fn holds_all(ev: Seq<(Seq<char>, Seq<char>)>, i: int, s: Seq<(Seq<char>, Seq<char>)>) -> bool {
    forall|k: int| 0 <= k < i ==> exists|j: int| 0 <= j < s.len() && #[trigger] ev[k] == s[j]
}

/// Keys that are distinct in the pairs.
pub open spec fn distinct_pair_keys(ev: Seq<(Seq<char>, Seq<char>)>) -> bool {
    forall|a: int, b: int| 0 <= a < ev.len() && 0 <= b < ev.len() && a != b ==> ev[a].0 != ev[b].0
}

/// Inserting the next pair at the first position whose key is not smaller
/// keeps the list sorted.
proof fn lemma_insert_sorted(
    ev: Seq<(Seq<char>, Seq<char>)>,
    i: int,
    s: Seq<(Seq<char>, Seq<char>)>,
    p: int,
)
    requires
        0 <= i < ev.len(),
        distinct_pair_keys(ev),
        strictly_sorted(s),
        drawn_from(ev, i, s),
        0 <= p <= s.len(),
        forall|q: int| 0 <= q < p ==> chars_lt(#[trigger] s[q].0, ev[i].0),
        p < s.len() ==> !chars_lt(s[p].0, ev[i].0),
    ensures
        strictly_sorted(s.insert(p, ev[i])),
{
    let key = ev[i].0;
    let nv = s.insert(p, ev[i]);
    if p < s.len() {
        reveal(drawn_from);
        let k = choose|k: int| 0 <= k < i && ev[k] == #[trigger] s[p];
        assert(s[p].0 != key);
        lemma_chars_lt_total(s[p].0, key);
    }
    assert forall|a: int, b: int| 0 <= a < b < nv.len() implies chars_lt(#[trigger] nv[a].0, #[trigger] nv[b].0) by {
        if b < p {
            assert(nv[a] == s[a] && nv[b] == s[b]);
        } else if b == p {
            assert(nv[a] == s[a]);
        } else if a < p {
            assert(nv[a] == s[a] && nv[b] == s[b - 1]);
            if b - 1 > p {
                lemma_chars_lt_transitive(key, s[p].0, s[b - 1].0);
            }
            lemma_chars_lt_transitive(nv[a].0, key, nv[b].0);
        } else if a == p {
            assert(nv[b] == s[b - 1]);
            if b - 1 > p {
                lemma_chars_lt_transitive(key, s[p].0, s[b - 1].0);
            }
        } else {
            assert(nv[a] == s[a - 1] && nv[b] == s[b - 1]);
        }
    }
}

/// Inserting the next pair keeps the list drawn from the pairs seen so far.
proof fn lemma_insert_drawn(
    ev: Seq<(Seq<char>, Seq<char>)>,
    i: int,
    s: Seq<(Seq<char>, Seq<char>)>,
    p: int,
)
    requires
        0 <= i < ev.len(),
        drawn_from(ev, i, s),
        0 <= p <= s.len(),
    ensures
        drawn_from(ev, i + 1, s.insert(p, ev[i])),
{
    reveal(drawn_from);
    let nv = s.insert(p, ev[i]);
    assert forall|j: int| 0 <= j < nv.len() implies exists|k: int| 0 <= k < i + 1 && ev[k] == #[trigger] nv[j] by {
        if j < p {
            let k = choose|k: int| 0 <= k < i && ev[k] == #[trigger] s[j];
            assert(ev[k] == nv[j]);
        } else if j == p {
            assert(ev[i] == nv[j]);
        } else {
            let k = choose|k: int| 0 <= k < i && ev[k] == #[trigger] s[j - 1];
            assert(ev[k] == nv[j]);
        }
    }
}

/// Inserting the next pair keeps all the pairs seen so far in the list.
proof fn lemma_insert_holds(
    ev: Seq<(Seq<char>, Seq<char>)>,
    i: int,
    s: Seq<(Seq<char>, Seq<char>)>,
    p: int,
)
    requires
        0 <= i < ev.len(),
        holds_all(ev, i, s),
        0 <= p <= s.len(),
    ensures
        holds_all(ev, i + 1, s.insert(p, ev[i])),
{
    reveal(holds_all);
    let nv = s.insert(p, ev[i]);
    assert forall|k: int| 0 <= k < i + 1 implies exists|j: int| 0 <= j < nv.len() && #[trigger] ev[k] == nv[j] by {
        if k == i {
            assert(ev[k] == nv[p]);
        } else {
            let j = choose|j: int| 0 <= j < s.len() && #[trigger] ev[k] == s[j];
            if j < p {
                assert(ev[k] == nv[j]);
            } else {
                assert(ev[k] == nv[j + 1]);
            }
        }
    }
}

/// Sorted pairs drawn from, and holding, all the entries list their map.
proof fn lemma_sorted_lists(entries: Seq<(String, String)>, s: Seq<(Seq<char>, Seq<char>)>)
    requires
        distinct_keys(entries),
        drawn_from(pair_views(entries), entries.len() as int, s),
        holds_all(pair_views(entries), entries.len() as int, s),
    ensures
        lists(map_of(entries), s),
{
    reveal(drawn_from);
    reveal(holds_all);
    let ev = pair_views(entries);
    let m = map_of(entries);
    assert forall|j: int| 0 <= j < s.len() implies m.contains_key(#[trigger] s[j].0) && m[s[j].0] == s[j].1 by {
        let k = choose|k: int| 0 <= k < entries.len() && ev[k] == #[trigger] s[j];
        lemma_map_of_at(entries, k);
    }
    assert forall|key: Seq<char>| #[trigger] m.contains_key(key) implies exists|j: int| 0 <= j < s.len() && s[j].0 == key by {
        let k = choose|k: int| has_key_at(entries, key, k);
        assert(ev[k].0 == key);
        let j = choose|j: int| 0 <= j < s.len() && #[trigger] ev[k] == s[j];
        assert(s[j].0 == key);
    }
}

/// The pairs of `entries`, sorted by key.
fn sorted_pairs(entries: &Vec<(String, String)>) -> (r: Vec<(String, String)>)
    requires
        distinct_keys(entries@),
    ensures
        strictly_sorted(pair_views(r@)),
        lists(map_of(entries@), pair_views(r@)),
{
    let ghost ev = pair_views(entries@);
    proof {
        assert(distinct_pair_keys(ev)) by {
            assert forall|a: int, b: int| 0 <= a < ev.len() && 0 <= b < ev.len() && a != b implies ev[a].0 != ev[b].0 by {
                assert(entries@[a].0@ != entries@[b].0@);
            }
        }
        reveal(drawn_from);
        reveal(holds_all);
    }
    let mut out: Vec<(String, String)> = Vec::new();
    let mut i: usize = 0;
    while i < entries.len()
        invariant
            i <= entries@.len(),
            ev == pair_views(entries@),
            distinct_pair_keys(ev),
            strictly_sorted(pair_views(out@)),
            drawn_from(ev, i as int, pair_views(out@)),
            holds_all(ev, i as int, pair_views(out@)),
        decreases entries@.len() - i,
    {
        let key = entries[i].0.as_str();
        let mut p: usize = 0;
        while p < out.len() && str_less(out[p].0.as_str(), key)
            invariant
                p <= out@.len(),
                forall|q: int| 0 <= q < p ==> chars_lt(#[trigger] out@[q].0@, key@),
            decreases out@.len() - p,
        {
            p = p + 1;
        }
        let ghost old_out = pair_views(out@);
        proof {
            assert(ev[i as int].0 == key@);
            assert forall|q: int| 0 <= q < p implies chars_lt(#[trigger] old_out[q].0, ev[i as int].0) by {
                assert(old_out[q].0 == out@[q].0@);
            }
            lemma_insert_sorted(ev, i as int, old_out, p as int);
            lemma_insert_drawn(ev, i as int, old_out, p as int);
            lemma_insert_holds(ev, i as int, old_out, p as int);
        }
        out.insert(p, (entries[i].0.clone(), entries[i].1.clone()));
        proof {
            assert(pair_views(out@) =~= old_out.insert(p as int, ev[i as int]));
        }
        i = i + 1;
    }
    proof {
        lemma_sorted_lists(entries@, pair_views(out@));
    }
    out
}

/// The reply to `/kv list` for the pairs `kv`.
pub fn list_reply(kv: &StrMap<String>) -> (r: String)
    ensures
        is_list_reply(kv@, r@),
{
    if kv.is_empty() {
        return owned("You do not have any saved values yet.");
    }
    let sorted = sorted_pairs(kv.entries());
    let ghost s = pair_views(sorted@);
    let mut text = String::new();
    let mut i: usize = 0;
    while i < sorted.len()
        invariant
            i <= sorted@.len(),
            s == pair_views(sorted@),
            text@ == kv_lines(s.subrange(0, i as int)),
        decreases sorted@.len() - i,
    {
        proof {
            assert(s.subrange(0, i + 1).drop_last() =~= s.subrange(0, i as int));
        }
        if i > 0 {
            text.append("\n");
        }
        text.append("`");
        text.append(sorted[i].0.as_str());
        text.append("` = ");
        text.append(sorted[i].1.as_str());
        proof {
            if i == 0 {
                assert(text@ =~= kv_line(s[0]));
            } else {
                assert(text@ =~= kv_lines(s.subrange(0, i as int)) + "\n"@ + kv_line(s[i as int]));
            }
        }
        i = i + 1;
    }
    proof {
        assert(s.subrange(0, s.len() as int) =~= s);
        assert(strictly_sorted(s) && lists(kv@, s) && text@ == kv_lines(s));
    }
    text
}

/// The reply to `/kv set` with a key: whether the value was saved.
pub open spec fn set_reply_spec(key: Seq<char>, saved: bool) -> Seq<char> {
    if saved {
        "Saved `"@ + key + "`."@
    } else {
        "I couldn't save that value."@
    }
}

/// The reply to `/kv set` with a key.
pub fn set_reply(key: &str, saved: bool) -> (r: String)
    ensures
        r@ == set_reply_spec(key@, saved),
{
    if saved {
        let mut r = owned("Saved `");
        r.append(key);
        r.append("`.");
        r
    } else {
        owned("I couldn't save that value.")
    }
}

/// The reply to `/kv delete` with a key: `Some(removed)` where the store
/// answered, `None` where saving failed.
pub open spec fn delete_reply_spec(key: Seq<char>, outcome: Option<bool>) -> Seq<char> {
    match outcome {
        Some(true) => "Deleted `"@ + key + "`."@,
        Some(false) => "`"@ + key + "` was not set."@,
        None => "I couldn't delete that value."@,
    }
}

/// The reply to `/kv delete` with a key.
pub fn delete_reply(key: &str, outcome: Option<bool>) -> (r: String)
    ensures
        r@ == delete_reply_spec(key@, outcome),
{
    match outcome {
        Some(true) => {
            let mut r = owned("Deleted `");
            r.append(key);
            r.append("`.");
            r
        },
        Some(false) => {
            let mut r = owned("`");
            r.append(key);
            r.append("` was not set.");
            r
        },
        None => owned("I couldn't delete that value."),
    }
}

/// The help text for a subcommand given without what it needs; nothing for
/// the subcommands that do work.
pub open spec fn usage_reply_spec(command: KvCommandView) -> Option<Seq<char>> {
    match command {
        KvCommandView::SetUsage => Some("Use `/kv set key:<name> value:<value>`."@),
        KvCommandView::DeleteUsage => Some("Use `/kv delete key:<name>`."@),
        KvCommandView::Usage => Some("Use `/kv set`, `/kv delete`, or `/kv list`."@),
        _ => None,
    }
}

/// The help text for a subcommand given without what it needs.
pub fn usage_reply(command: &KvCommand) -> (r: Option<String>)
    ensures
        opt_str(r) == usage_reply_spec(command@),
{
    match command {
        KvCommand::SetUsage => Some(owned("Use `/kv set key:<name> value:<value>`.")),
        KvCommand::DeleteUsage => Some(owned("Use `/kv delete key:<name>`.")),
        KvCommand::Usage => Some(owned("Use `/kv set`, `/kv delete`, or `/kv list`.")),
        _ => None,
    }
}

} // verus!
