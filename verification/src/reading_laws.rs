//! How what the library reads depends on its raw input: the JSON members a
//! parsed value comes from, the order of parsed lists, and the decisions
//! that gateway events, `/kv` commands and websocket messages lead to.

use vstd::prelude::*;

use crate::commands::{first_named, interaction_spec, kv_command_spec, option_value_spec, KvCommandView};
use crate::gateway::{
    dispatch_spec, gateway_step, parse_presences_spec, presence_list_spec, DispatchPlanView, GatewayActionView,
    GatewayInputView, GatewayPhase,
};
use crate::json::{Json, NumberModel};
use crate::models::{ActivityAssetsView, ActivityTimestamps, DiscordUserView};
use crate::payload::{parse_activities_spec, parse_activity_spec, parse_presence_spec};
use crate::config::{decimal_text, digit_char};
use crate::text::{all_digits, chars_lt, digits_value, parse_u16_spec};
use crate::socket::{session_step, subscription_matches_spec, subscription_spec, SessionModel, SocketInput, SocketSubscribe};

verus! {

/// The string that the member `key` of `c` is, if it is one.
pub open spec fn str_member(c: Json, key: Seq<char>) -> Option<Seq<char>> {
    match c.member(key) {
        Some(Json::Str(s)) => Some(s),
        _ => None,
    }
}

/// The non-negative integer that the member `key` of `c` is, if it is one.
pub open spec fn uint_member(c: Json, key: Seq<char>) -> Option<u64> {
    match c.member(key) {
        Some(Json::Number(NumberModel::PosInt(n))) => Some(n),
        _ => None,
    }
}

/// The member `key` is missing, null or a string.
pub open spec fn plain_str_entry(c: Json, key: Seq<char>) -> bool {
    match c.member(key) {
        None => true,
        Some(Json::Null) => true,
        Some(Json::Str(_)) => true,
        _ => false,
    }
}

/// The member `key` is missing, null or a non-negative integer.
pub open spec fn plain_uint_entry(c: Json, key: Seq<char>) -> bool {
    match c.member(key) {
        None => true,
        Some(Json::Null) => true,
        Some(Json::Number(NumberModel::PosInt(_))) => true,
        _ => false,
    }
}

/// An activity's timestamps and assets come from its `timestamps` and
/// `assets` objects: each field is the member of the same name (start and
/// end are the integers, the images and captions the strings); a missing or
/// null `timestamps` or `assets`, or one that is not a record, gives none.
pub proof fn law_activity_records(v: Json)
    ensures
        ({
            let a = parse_activity_spec(v)->0;
            let t = v.at("timestamps"@);
            parse_activity_spec(v) is Some && t is Object && plain_uint_entry(t, "start"@) && plain_uint_entry(t, "end"@)
                ==> a.timestamps == Some(ActivityTimestamps { start: uint_member(t, "start"@), end: uint_member(t, "end"@) })
        }),
        ({
            let a = parse_activity_spec(v)->0;
            let t = v.at("timestamps"@);
            parse_activity_spec(v) is Some && !(t is Object) && !(t is Array) ==> a.timestamps is None
        }),
        ({
            let a = parse_activity_spec(v)->0;
            let s = v.at("assets"@);
            parse_activity_spec(v) is Some && s is Object && plain_str_entry(s, "large_image"@)
                && plain_str_entry(s, "large_text"@) && plain_str_entry(s, "small_image"@)
                && plain_str_entry(s, "small_text"@) ==> a.assets == Some(
                ActivityAssetsView {
                    large_image: str_member(s, "large_image"@),
                    large_text: str_member(s, "large_text"@),
                    small_image: str_member(s, "small_image"@),
                    small_text: str_member(s, "small_text"@),
                },
            )
        }),
        ({
            let a = parse_activity_spec(v)->0;
            let s = v.at("assets"@);
            parse_activity_spec(v) is Some && !(s is Object) && !(s is Array) ==> a.assets is None
        }),
{
}

/// Parsing a list of presences, or of activities, goes element by element:
/// the list of `a` followed by `b` gives the presences of `a` followed by
/// those of `b`; one element gives its presence, or none where it describes
/// none; and anything but an array gives no presences.
pub proof fn law_parsed_lists_in_order(a: Seq<Json>, b: Seq<Json>, x: Json)
    ensures
        parse_presences_spec(a + b) == parse_presences_spec(a) + parse_presences_spec(b),
        parse_presences_spec(seq![x]) == match parse_presence_spec(x) {
            Some(p) => seq![p],
            None => Seq::empty(),
        },
        !(x is Array) ==> presence_list_spec(x) == Seq::<crate::models::PresenceView>::empty(),
        parse_activities_spec(a + b) == parse_activities_spec(a) + parse_activities_spec(b),
        parse_activities_spec(seq![x]) == match parse_activity_spec(x) {
            Some(p) => seq![p],
            None => Seq::empty(),
        },
    decreases b.len(),
{
    assert(seq![x].drop_last() =~= Seq::<Json>::empty());
    assert(seq![x].last() == x);
    assert(parse_presences_spec(seq![x].drop_last()) == Seq::<crate::models::PresenceView>::empty());
    assert(parse_activities_spec(seq![x].drop_last()) == Seq::<crate::models::ActivityView>::empty());
    if let Some(p) = parse_presence_spec(x) {
        assert(Seq::<crate::models::PresenceView>::empty().push(p) =~= seq![p]);
    }
    if let Some(p) = parse_activity_spec(x) {
        assert(Seq::<crate::models::ActivityView>::empty().push(p) =~= seq![p]);
    }
    if b.len() == 0 {
        assert(a + b =~= a);
        assert(parse_presences_spec(a) + parse_presences_spec(b) =~= parse_presences_spec(a));
        assert(parse_activities_spec(a) + parse_activities_spec(b) =~= parse_activities_spec(a));
    } else {
        law_parsed_lists_in_order(a, b.drop_last(), x);
        assert((a + b).drop_last() =~= a + b.drop_last());
        assert((a + b).last() == b.last());
        assert(parse_presences_spec(a) + parse_presences_spec(b.drop_last()).push(parse_presence_spec(b.last())->0)
            =~= (parse_presences_spec(a) + parse_presences_spec(b.drop_last())).push(parse_presence_spec(b.last())->0));
        assert(parse_activities_spec(a) + parse_activities_spec(b.drop_last()).push(parse_activity_spec(b.last())->0)
            =~= (parse_activities_spec(a) + parse_activities_spec(b.drop_last())).push(parse_activity_spec(b.last())->0));
    }
}

/// The option named `name` of a command: the first element of its
/// `options` array with that name gives it, where that element's `value` is
/// a string; there is none where no element has that name.
pub proof fn law_option_value(command: Json, name: Seq<char>)
    ensures
        !(command.at("options"@) is Array) ==> option_value_spec(command, name) is None,
        ({
            let opts = command.at("options"@)->Array_0;
            command.at("options"@) is Array ==> {
                &&& (forall|i: int| 0 <= i < opts.len() ==> (#[trigger] opts[i]).at("name"@).as_str() != Some(name))
                    ==> option_value_spec(command, name) is None
                &&& forall|i: int|
                    0 <= i < opts.len() && (#[trigger] opts[i]).at("name"@).as_str() == Some(name)
                        && (forall|j: int| 0 <= j < i ==> (#[trigger] opts[j]).at("name"@).as_str() != Some(name))
                        ==> option_value_spec(command, name) == opts[i].at("value"@).as_str()
            }
        }),
{
    if command.at("options"@) is Array {
        lemma_first_named(command.at("options"@)->Array_0, name);
    }
}

/// `first_named` is the first element with the name.
proof fn lemma_first_named(opts: Seq<Json>, name: Seq<char>)
    ensures
        (forall|i: int| 0 <= i < opts.len() ==> (#[trigger] opts[i]).at("name"@).as_str() != Some(name))
            ==> first_named(opts, name) is None,
        forall|i: int|
            0 <= i < opts.len() && (#[trigger] opts[i]).at("name"@).as_str() == Some(name)
                && (forall|j: int| 0 <= j < i ==> (#[trigger] opts[j]).at("name"@).as_str() != Some(name))
                ==> first_named(opts, name) == Some(opts[i]),
    decreases opts.len(),
{
    if opts.len() > 0 {
        let rest = opts.drop_first();
        lemma_first_named(rest, name);
        assert forall|i: int| 0 <= i < rest.len() implies rest[i] == opts[i + 1] by {}
        if forall|i: int| 0 <= i < opts.len() ==> (#[trigger] opts[i]).at("name"@).as_str() != Some(name) {
            assert forall|i: int| 0 <= i < rest.len() implies (#[trigger] rest[i]).at("name"@).as_str() != Some(name) by {
                assert(opts[i + 1].at("name"@).as_str() != Some(name));
            }
        }
        assert forall|i: int|
            0 <= i < opts.len() && (#[trigger] opts[i]).at("name"@).as_str() == Some(name)
                && (forall|j: int| 0 <= j < i ==> (#[trigger] opts[j]).at("name"@).as_str() != Some(name))
            implies first_named(opts, name) == Some(opts[i]) by {
            if i > 0 {
                assert(opts[0].at("name"@).as_str() != Some(name));
                assert(rest[i - 1] == opts[i]);
                assert forall|j: int| 0 <= j < i - 1 implies (#[trigger] rest[j]).at("name"@).as_str() != Some(name) by {
                    assert(opts[j + 1].at("name"@).as_str() != Some(name));
                }
            }
        }
    }
}

/// The `/kv` subcommand is the first element of the options: `set` with
/// both its `key` and `value` options sets the key to the value, and is
/// answered with its usage otherwise; `delete` with its `key` option deletes
/// that key, and is answered with its usage otherwise; `list` lists; no
/// subcommand, or any other name, is answered with the general usage.
pub proof fn law_kv_command(options: Json)
    ensures
        !(options is Array) ==> kv_command_spec(options) == KvCommandView::Usage,
        ({
            let items = options->Array_0;
            let c = items[0];
            let name = c.at("name"@).as_str();
            options is Array ==> {
                &&& items.len() == 0 ==> kv_command_spec(options) == KvCommandView::Usage
                &&& items.len() > 0 && name == Some("set"@) && option_value_spec(c, "key"@) is Some
                    && option_value_spec(c, "value"@) is Some ==> kv_command_spec(options) == (KvCommandView::SetValue {
                    key: option_value_spec(c, "key"@)->0,
                    value: option_value_spec(c, "value"@)->0,
                })
                &&& items.len() > 0 && name == Some("set"@) && (option_value_spec(c, "key"@) is None
                    || option_value_spec(c, "value"@) is None) ==> kv_command_spec(options) == KvCommandView::SetUsage
                &&& items.len() > 0 && name == Some("delete"@) && option_value_spec(c, "key"@) is Some
                    ==> kv_command_spec(options) == (KvCommandView::DeleteKey { key: option_value_spec(c, "key"@)->0 })
                &&& items.len() > 0 && name == Some("delete"@) && option_value_spec(c, "key"@) is None
                    ==> kv_command_spec(options) == KvCommandView::DeleteUsage
                &&& items.len() > 0 && name == Some("list"@) ==> kv_command_spec(options) == KvCommandView::List
                &&& items.len() > 0 && name != Some("set"@) && name != Some("delete"@) && name != Some("list"@)
                    ==> kv_command_spec(options) == KvCommandView::Usage
            }
        }),
{
    reveal_strlit("set");
    reveal_strlit("delete");
    reveal_strlit("list");
    assert("set"@.len() != "delete"@.len() && "set"@.len() != "list"@.len() && "delete"@.len() != "list"@.len());
    assert("set"@ != "delete"@ && "set"@ != "list"@ && "delete"@ != "list"@);
}

/// An interaction is answered exactly when it is an application command
/// (type 2) named `kv` with a string id and token and a user: the guild
/// member's user where there is one, else the interaction's own user. The
/// request carries that id, token and user, and the subcommand of the
/// command's options.
pub proof fn law_interaction(i: Json)
    ensures
        interaction_spec(i) is Some <==> (
            i.at("type"@).as_u64() == Some(2u64)
            && i.at("data"@).at("name"@).as_str() == Some("kv"@)
            && i.at("id"@).as_str() is Some
            && i.at("token"@).as_str() is Some
            && (i.at("member"@).at("user"@).at("id"@).as_str() is Some || i.at("user"@).at("id"@).as_str() is Some)
        ),
        ({
            let r = interaction_spec(i)->0;
            interaction_spec(i) is Some ==> {
                &&& Some(r.interaction_id) == i.at("id"@).as_str()
                &&& Some(r.interaction_token) == i.at("token"@).as_str()
                &&& i.at("member"@).at("user"@).at("id"@).as_str() is Some
                    ==> Some(r.user_id) == i.at("member"@).at("user"@).at("id"@).as_str()
                &&& i.at("member"@).at("user"@).at("id"@).as_str() is None
                    ==> Some(r.user_id) == i.at("user"@).at("id"@).as_str()
                &&& r.command == kv_command_spec(i.at("data"@).at("options"@))
            }
        }),
{
}

/// A dispatch is read by its event name: READY gives the application id of
/// `d.application.id` and the presences of `d.presences`; PRESENCE_UPDATE
/// gives the one presence that `d` describes, if any; GUILD_CREATE gives the
/// presences of `d.presences`; INTERACTION_CREATE gives the interaction of
/// `d`.
pub proof fn law_dispatch_events(payload: Json)
    ensures
        ({
            let t = payload.at("t"@).as_str();
            let d = payload.at("d"@);
            &&& t == Some("READY"@) ==> dispatch_spec(payload) == (DispatchPlanView::Ready {
                application_id: d.at("application"@).at("id"@).as_str(),
                presences: presence_list_spec(d.at("presences"@)),
            })
            &&& t == Some("PRESENCE_UPDATE"@) && parse_presence_spec(d) is Some
                ==> dispatch_spec(payload) == DispatchPlanView::CachePresences(seq![parse_presence_spec(d)->0])
            &&& t == Some("PRESENCE_UPDATE"@) && parse_presence_spec(d) is None
                ==> dispatch_spec(payload) == DispatchPlanView::CachePresences(Seq::empty())
            &&& t == Some("GUILD_CREATE"@)
                ==> dispatch_spec(payload) == DispatchPlanView::CachePresences(presence_list_spec(d.at("presences"@)))
            &&& t == Some("INTERACTION_CREATE"@)
                ==> dispatch_spec(payload) == DispatchPlanView::Interaction(interaction_spec(d))
        }),
{
    reveal_strlit("READY");
    reveal_strlit("PRESENCE_UPDATE");
    reveal_strlit("GUILD_CREATE");
    reveal_strlit("INTERACTION_CREATE");
    assert("READY"@.len() == 5 && "PRESENCE_UPDATE"@.len() == 15 && "GUILD_CREATE"@.len() == 12
        && "INTERACTION_CREATE"@.len() == 18);
    assert("READY"@ != "PRESENCE_UPDATE"@ && "READY"@ != "GUILD_CREATE"@ && "READY"@ != "INTERACTION_CREATE"@
        && "PRESENCE_UPDATE"@ != "GUILD_CREATE"@ && "PRESENCE_UPDATE"@ != "INTERACTION_CREATE"@
        && "GUILD_CREATE"@ != "INTERACTION_CREATE"@);
}

/// Gateway messages by opcode: while awaiting the hello, opcode 10 makes the
/// session identify, with the hello's `d.heartbeat_interval` (45 seconds
/// where it has none), and any other text is ignored; once dispatching,
/// opcode 0 is handed on as an event, 7 and 9 end the session with an error,
/// other text is ignored, and a close or the end of the connection finishes.
/// Text that is not JSON ends the session with an error in either phase.
pub proof fn law_gateway_opcodes(p: Json, input: GatewayInputView)
    ensures
        ({
            let op = p.at("op"@).as_u64();
            let ms = p.at("d"@).at("heartbeat_interval"@).as_u64();
            &&& op == Some(10u64) && ms is Some ==> gateway_step(GatewayPhase::AwaitingHello, GatewayInputView::Text(p))
                == (GatewayPhase::Dispatching, GatewayActionView::Identify { heartbeat_interval_ms: ms->0 })
            &&& op == Some(10u64) && ms is None ==> gateway_step(GatewayPhase::AwaitingHello, GatewayInputView::Text(p))
                == (GatewayPhase::Dispatching, GatewayActionView::Identify { heartbeat_interval_ms: 45000 })
            &&& op != Some(10u64) ==> gateway_step(GatewayPhase::AwaitingHello, GatewayInputView::Text(p))
                == (GatewayPhase::AwaitingHello, GatewayActionView::Ignore)
            &&& op == Some(0u64) ==> gateway_step(GatewayPhase::Dispatching, GatewayInputView::Text(p))
                == (GatewayPhase::Dispatching, GatewayActionView::Dispatch(p))
            &&& op == Some(7u64) ==> gateway_step(GatewayPhase::Dispatching, GatewayInputView::Text(p)).1
                == GatewayActionView::Reconnect
            &&& op == Some(9u64) ==> gateway_step(GatewayPhase::Dispatching, GatewayInputView::Text(p)).1
                == GatewayActionView::Invalidated
            &&& op != Some(0u64) && op != Some(7u64) && op != Some(9u64)
                ==> gateway_step(GatewayPhase::Dispatching, GatewayInputView::Text(p))
                == (GatewayPhase::Dispatching, GatewayActionView::Ignore)
        }),
        (input is Close || input is End) ==> gateway_step(GatewayPhase::Dispatching, input).1 == GatewayActionView::Finish,
        (input is Close || input is End) ==> gateway_step(GatewayPhase::AwaitingHello, input).1 == GatewayActionView::Ignore,
        input is Other ==> gateway_step(GatewayPhase::AwaitingHello, input) == (GatewayPhase::AwaitingHello, GatewayActionView::Ignore),
        input is Other ==> gateway_step(GatewayPhase::Dispatching, input) == (GatewayPhase::Dispatching, GatewayActionView::Ignore),
        gateway_step(GatewayPhase::AwaitingHello, GatewayInputView::Unreadable).1 == GatewayActionView::Abort,
        gateway_step(GatewayPhase::Dispatching, GatewayInputView::Unreadable).1 == GatewayActionView::Abort,
{
}

/// A subscribe message (opcode 2) makes the session watch what its payload
/// asks for (nobody where it has none); any other client message changes
/// nothing and is not answered; a presence event never changes whom the
/// session watches, and is sent exactly when the session watches its user.
pub proof fn law_session_subscription(m: SessionModel, message: SocketSubscribe, user: Seq<char>)
    ensures
        message.op == Some(2u8) && message.d is Some
            ==> session_step(m, SocketInput::Client(message)).0.subscription == subscription_spec(message.d->0),
        message.op == Some(2u8) && message.d is None
            ==> session_step(m, SocketInput::Client(message)).0.subscription is None,
        message.op == Some(2u8) ==> session_step(m, SocketInput::Client(message)).1 is Some,
        message.op != Some(2u8) ==> session_step(m, SocketInput::Client(message)) == (m, None::<int>),
        session_step(m, SocketInput::Presence(user)).0.subscription == m.subscription,
        session_step(m, SocketInput::Presence(user)).1 is Some <==> subscription_matches_spec(m.subscription, user),
{
}

/// A user lacks its profile exactly when its username, avatar or display
/// name is missing; the discriminator does not count.
pub proof fn law_needs_profile(u: DiscordUserView)
    ensures
        u.needs_profile() <==> (u.username is None || u.avatar is None || u.display_name is None),
        (DiscordUserView { discriminator: None, ..u }).needs_profile() == u.needs_profile(),
{
}

/// Keys are listed in the order of their characters: a key comes before
/// every longer key it begins, and before any key whose first differing
/// character is greater; no key comes before one it begins.
pub proof fn law_key_order(a: Seq<char>, b: Seq<char>, i: int)
    requires
        0 <= i <= a.len(),
        i <= b.len(),
        a.subrange(0, i) == b.subrange(0, i),
    ensures
        i == a.len() && i < b.len() ==> chars_lt(a, b),
        i < a.len() && i < b.len() && (a[i] as int) < (b[i] as int) ==> chars_lt(a, b),
        i == b.len() ==> !chars_lt(a, b),
    decreases i,
{
    if i > 0 {
        assert(a[0] == a.subrange(0, i)[0]);
        assert(b[0] == b.subrange(0, i)[0]);
        assert(a.drop_first().subrange(0, i - 1) =~= a.subrange(0, i).drop_first());
        assert(b.drop_first().subrange(0, i - 1) =~= b.subrange(0, i).drop_first());
        law_key_order(a.drop_first(), b.drop_first(), i - 1);
    }
}

proof fn lemma_decimal_digits(n: nat)
    ensures
        decimal_text(n).len() > 0,
        all_digits(decimal_text(n)),
        digits_value(decimal_text(n)) == n,
        decimal_text(n)[0] != '+',
    decreases n,
{
    if n >= 10 {
        lemma_decimal_digits(n / 10);
        let s = decimal_text(n / 10);
        let d = n % 10;
        assert(decimal_text(n).drop_last() =~= s);
        assert(decimal_text(n)[0] == s[0]);
        assert(digit_char(d) as int - '0' as int == d);
        vstd::arithmetic::div_mod::lemma_fundamental_div_mod(n as int, 10);
        assert(decimal_text(n).last() == digit_char(d));
        assert(digits_value(decimal_text(n)) == digits_value(s) * 10 + (digit_char(d) as int - '0' as int));
        assert(digits_value(s) == n / 10);
        assert(n as int == 10 * (n as int / 10) + n as int % 10);
    } else {
        assert(decimal_text(n).drop_last() =~= Seq::<char>::empty());
        assert(digit_char(n) as int - '0' as int == n);
        assert(digits_value(decimal_text(n).drop_last()) == 0);
        assert(decimal_text(n).last() == digit_char(n));
    }
}

/// The port text of the listen address reads back as the port: the decimal
/// text of every port number is one that `str::parse::<u16>` takes to that
/// same number.
pub proof fn law_port_text_round_trip(port: u16)
    ensures
        parse_u16_spec(decimal_text(port as nat)) == Some(port),
{
    lemma_decimal_digits(port as nat);
}

/// A port number is read as `str::parse::<u16>` reads it: a leading `+` is
/// allowed and changes nothing, a leading `-` or any other non-digit is
/// refused, and the value is that of the digits where it fits in 16 bits.
pub proof fn law_port_sign(digits: Seq<char>, s: Seq<char>)
    ensures
        all_digits(digits) && digits.len() > 0 ==> parse_u16_spec(seq!['+'] + digits) == parse_u16_spec(digits),
        all_digits(digits) && digits.len() > 0 && digits_value(digits) <= u16::MAX
            ==> parse_u16_spec(digits) == Some(digits_value(digits) as u16),
        all_digits(digits) && digits.len() > 0 && digits_value(digits) > u16::MAX ==> parse_u16_spec(digits) is None,
        s.len() > 0 && s[0] == '-' ==> parse_u16_spec(s) is None,
        s.len() == 0 ==> parse_u16_spec(s) is None,
{
    assert((seq!['+'] + digits).drop_first() =~= digits);
    if s.len() > 0 && s[0] == '-' {
        assert(!crate::text::is_digit(s[0]));
    }
}

} // verus!
