//! The gateway session: what each incoming gateway message leads to, what an
//! event payload asks of the cache, and the messages the bot sends.

use vstd::prelude::*;

use crate::commands::{interaction_spec, plan_interaction, InteractionRequest, InteractionRequestView};
use crate::json::{
    json_member, json_object, json_of_text, json_str, json_text, json_uint, member_views, opt_view,
    parse_json, text_of_json, views, Json, JsonValue, NumberModel,
};
use crate::models::{opt_str, Presence, PresenceView};
use crate::payload::{
    at_opt, lookup, optional_string, or_null, parse_presence, parse_presence_spec,
};
use crate::state::{claim_spec, RegistrationLatch};
use crate::text::str_equal;

verus! {

/// The gateway intents the bot asks for: guilds, guild members and presences.
pub const INTENT_GUILDS: u64 = 1;
pub const INTENT_GUILD_MEMBERS: u64 = 2;
pub const INTENT_GUILD_PRESENCES: u64 = 256;

/// How long to wait for the first reconnect, in seconds.
pub const INITIAL_RECONNECT_DELAY_SECS: u64 = 2;

/// The longest wait between reconnects, in seconds.
pub const MAX_RECONNECT_DELAY_SECS: u64 = 60;

/// The wait before the reconnect after one that waited `delay_secs`: twice as
/// long, but never more than a minute.
pub open spec fn next_reconnect_delay_spec(delay_secs: u64) -> u64 {
    if 2 * delay_secs < 60 {
        (2 * delay_secs) as u64
    } else {
        60
    }
}

/// The wait before the next reconnect.
pub fn next_reconnect_delay(delay_secs: u64) -> (r: u64)
    requires
        delay_secs <= u64::MAX / 2,
    ensures
        r == next_reconnect_delay_spec(delay_secs),
{
    let doubled = delay_secs * 2;
    if doubled < MAX_RECONNECT_DELAY_SECS {
        doubled
    } else {
        MAX_RECONNECT_DELAY_SECS
    }
}

/// The presences that the elements of `items` describe, in order; elements
/// that describe none are skipped.
pub open spec fn parse_presences_spec(items: Seq<Json>) -> Seq<PresenceView>
    decreases items.len(),
{
    if items.len() == 0 {
        Seq::empty()
    } else {
        let rest = parse_presences_spec(items.drop_last());
        match parse_presence_spec(items.last()) {
            Some(p) => rest.push(p),
            None => rest,
        }
    }
}

/// The presences of a list of presence objects; anything but an array has none.
pub open spec fn presence_list_spec(v: Json) -> Seq<PresenceView> {
    match v.as_array() {
        Some(items) => parse_presences_spec(items),
        None => Seq::empty(),
    }
}

pub open spec fn presence_views(s: Seq<Presence>) -> Seq<PresenceView> {
    Seq::new(s.len(), |i: int| s[i]@)
}

/// The presences of a list of presence objects.
pub fn presence_list(v: Option<&JsonValue>) -> (r: Vec<Presence>)
    ensures
        presence_views(r@) == presence_list_spec(or_null(opt_view(v))),
{
    let items = match v {
        Some(x) => match x.as_array() {
            Some(items) => items,
            None => {
                let r: Vec<Presence> = Vec::new();
                assert(presence_views(r@) =~= Seq::<PresenceView>::empty());
                return r;
            },
        },
        None => {
            let r: Vec<Presence> = Vec::new();
            assert(presence_views(r@) =~= Seq::<PresenceView>::empty());
            return r;
        },
    };
    let mut out: Vec<Presence> = Vec::new();
    let mut i: usize = 0;
    while i < items.len()
        invariant
            i <= items@.len(),
            presence_views(out@) == parse_presences_spec(views(items@).subrange(0, i as int)),
        decreases items@.len() - i,
    {
        let ghost prev = out@;
        proof {
            assert(views(items@).subrange(0, i + 1).drop_last() =~= views(items@).subrange(0, i as int));
            assert(views(items@).subrange(0, i + 1).last() == items@[i as int]@);
        }
        match parse_presence(&items[i]) {
            Some(p) => {
                out.push(p);
                proof {
                    assert(presence_views(out@) =~= presence_views(prev).push(p@));
                }
            },
            None => {
                assert(presence_views(out@) =~= presence_views(prev));
            },
        }
        i = i + 1;
    }
    proof {
        assert(views(items@).subrange(0, items@.len() as int) =~= views(items@));
    }
    out
}

/// What a dispatch event asks for.
#[derive(Debug, PartialEq, Eq)]
pub enum DispatchPlan {
    /// The session is ready: register the `/kv` command for the application
    /// (once per process), then cache the presences.
    Ready { application_id: Option<String>, presences: Vec<Presence> },
    /// Cache these presences.
    CachePresences(Vec<Presence>),
    /// Answer this interaction, where it is a `/kv` command.
    Interaction(Option<InteractionRequest>),
    /// Nothing to do.
    Ignore,
}

pub enum DispatchPlanView {
    Ready { application_id: Option<Seq<char>>, presences: Seq<PresenceView> },
    CachePresences(Seq<PresenceView>),
    Interaction(Option<InteractionRequestView>),
    Ignore,
}

pub open spec fn opt_request(o: Option<InteractionRequest>) -> Option<InteractionRequestView> {
    match o {
        Some(r) => Some(r@),
        None => None,
    }
}

impl View for DispatchPlan {
    type V = DispatchPlanView;

    open spec fn view(&self) -> DispatchPlanView {
        match self {
            DispatchPlan::Ready { application_id, presences } => DispatchPlanView::Ready {
                application_id: opt_str(*application_id),
                presences: presence_views(presences@),
            },
            DispatchPlan::CachePresences(p) => DispatchPlanView::CachePresences(presence_views(p@)),
            DispatchPlan::Interaction(r) => DispatchPlanView::Interaction(opt_request(*r)),
            DispatchPlan::Ignore => DispatchPlanView::Ignore,
        }
    }
}

/// What a dispatch payload (opcode 0) asks for, by its event name `t`.
pub open spec fn dispatch_spec(payload: Json) -> DispatchPlanView {
    let t = payload.at("t"@).as_str();
    let d = payload.at("d"@);
    if t == Some("READY"@) {
        DispatchPlanView::Ready {
            application_id: d.at("application"@).at("id"@).as_str(),
            presences: presence_list_spec(d.at("presences"@)),
        }
    } else if t == Some("PRESENCE_UPDATE"@) {
        DispatchPlanView::CachePresences(
            match parse_presence_spec(d) {
                Some(p) => seq![p],
                None => Seq::empty(),
            },
        )
    } else if t == Some("GUILD_CREATE"@) {
        DispatchPlanView::CachePresences(presence_list_spec(d.at("presences"@)))
    } else if t == Some("INTERACTION_CREATE"@) {
        DispatchPlanView::Interaction(interaction_spec(d))
    } else {
        DispatchPlanView::Ignore
    }
}

fn event_is(t: &Option<String>, name: &str) -> (r: bool)
    ensures
        r == (opt_str(*t) == Some(name@)),
{
    match t {
        Some(s) => str_equal(s.as_str(), name),
        None => false,
    }
}

/// Reads what a dispatch payload asks for.
pub fn plan_dispatch(payload: &JsonValue) -> (r: DispatchPlan)
    ensures
        r@ == dispatch_spec(payload@),
{
    let p = Some(payload);
    let t = optional_string(p, "t");
    let d = lookup(p, "d");
    if event_is(&t, "READY") {
        let application_id = optional_string(lookup(d, "application"), "id");
        let presences = presence_list(lookup(d, "presences"));
        DispatchPlan::Ready { application_id, presences }
    } else if event_is(&t, "PRESENCE_UPDATE") {
        let mut presences: Vec<Presence> = Vec::new();
        let parsed = match d {
            Some(x) => parse_presence(x),
            None => None,
        };
        proof {
            if d is None {
                assert(parse_presence_spec(Json::Null) is None);
            }
        }
        match parsed {
            Some(presence) => {
                presences.push(presence);
            },
            None => {},
        }
        proof {
            assert(presence_views(presences@) =~= match parse_presence_spec(or_null(opt_view(d))) {
                Some(p) => seq![p],
                None => Seq::empty(),
            });
        }
        DispatchPlan::CachePresences(presences)
    } else if event_is(&t, "GUILD_CREATE") {
        DispatchPlan::CachePresences(presence_list(lookup(d, "presences")))
    } else if event_is(&t, "INTERACTION_CREATE") {
        DispatchPlan::Interaction(plan_interaction(d))
    } else {
        DispatchPlan::Ignore
    }
}


/// What a dispatch does to the registration latch, and the application to
/// register the `/kv` command for: a READY event claims the registration,
/// and the command is registered where the claim succeeds and the event
/// names the application; other events leave the latch alone.
pub open spec fn registration_step(claimed: bool, plan: DispatchPlanView) -> (bool, Option<Seq<char>>) {
    match plan {
        DispatchPlanView::Ready { application_id, .. } => {
            let claim = claim_spec(claimed);
            (claim.0, if claim.1 { application_id } else { None })
        },
        _ => (claimed, None),
    }
}

/// Claims the registration for a READY event; hands back the application to
/// register the `/kv` command for, if this dispatch is to register it.
pub fn registration_for(latch: &mut RegistrationLatch, plan: &DispatchPlan) -> (r: Option<String>)
    ensures
        (final(latch)@, opt_str(r)) == registration_step(old(latch)@, plan@),
{
    match plan {
        DispatchPlan::Ready { application_id, .. } => {
            if latch.claim() {
                match application_id {
                    Some(id) => Some(id.clone()),
                    None => None,
                }
            } else {
                None
            }
        },
        _ => None,
    }
}

/// Where a gateway session stands.
#[derive(Debug, Clone, Copy, PartialEq, Eq, Structural)]
pub enum GatewayPhase {
    /// Waiting for Discord's hello (opcode 10).
    AwaitingHello,
    /// Identified; handling events.
    Dispatching,
}

/// What the gateway connection delivered.
#[derive(Debug, PartialEq, Eq)]
pub enum GatewayInput {
    /// A text message, read as JSON.
    Text(JsonValue),
    /// A close frame.
    Close,
    /// Any other frame.
    Other,
    /// A text message that is not JSON.
    Unreadable,
    /// The connection has no more messages.
    End,
}

pub enum GatewayInputView {
    Text(Json),
    Close,
    Other,
    Unreadable,
    End,
}

impl View for GatewayInput {
    type V = GatewayInputView;

    open spec fn view(&self) -> GatewayInputView {
        match self {
            GatewayInput::Text(v) => GatewayInputView::Text(v@),
            GatewayInput::Close => GatewayInputView::Close,
            GatewayInput::Other => GatewayInputView::Other,
            GatewayInput::Unreadable => GatewayInputView::Unreadable,
            GatewayInput::End => GatewayInputView::End,
        }
    }
}

/// What the session does next.
#[derive(Debug, PartialEq, Eq)]
pub enum GatewayAction {
    /// Nothing; read the next message.
    Ignore,
    /// Send the identify payload, then send a heartbeat every
    /// `heartbeat_interval_ms` milliseconds.
    Identify { heartbeat_interval_ms: u64 },
    /// Handle this dispatch payload.
    Dispatch(JsonValue),
    /// Discord asked for a reconnect: end the session with an error.
    Reconnect,
    /// Discord invalidated the session: end it with an error.
    Invalidated,
    /// A message could not be read: end the session with an error.
    Abort,
    /// The connection ended: end the session.
    Finish,
}

pub enum GatewayActionView {
    Ignore,
    Identify { heartbeat_interval_ms: u64 },
    Dispatch(Json),
    Reconnect,
    Invalidated,
    Abort,
    Finish,
}

impl View for GatewayAction {
    type V = GatewayActionView;

    open spec fn view(&self) -> GatewayActionView {
        match self {
            GatewayAction::Ignore => GatewayActionView::Ignore,
            GatewayAction::Identify { heartbeat_interval_ms } => GatewayActionView::Identify {
                heartbeat_interval_ms: *heartbeat_interval_ms,
            },
            GatewayAction::Dispatch(v) => GatewayActionView::Dispatch(v@),
            GatewayAction::Reconnect => GatewayActionView::Reconnect,
            GatewayAction::Invalidated => GatewayActionView::Invalidated,
            GatewayAction::Abort => GatewayActionView::Abort,
            GatewayAction::Finish => GatewayActionView::Finish,
        }
    }
}

/// The heartbeat interval that Discord's hello gives, or 45 seconds.
pub open spec fn hello_interval(payload: Json) -> u64 {
    match payload.at("d"@).at("heartbeat_interval"@).as_u64() {
        Some(ms) => ms,
        None => 45_000,
    }
}

/// The next phase and action for an input.
///
/// Before the hello, only the hello matters: it leads to identifying; a close
/// or the end of the connection ends the wait without identifying. Once
/// dispatching, opcode 0 is an event, 7 and 9 end the session with an error,
/// anything else is ignored, and a close or the end of the connection finishes.
/// In either phase, a text message that is not JSON ends the session with an
/// error.
pub open spec fn gateway_step(phase: GatewayPhase, input: GatewayInputView) -> (GatewayPhase, GatewayActionView) {
    match phase {
        GatewayPhase::AwaitingHello => match input {
            GatewayInputView::Text(p) => if p.at("op"@).as_u64() == Some(10u64) {
                (
                    GatewayPhase::Dispatching,
                    GatewayActionView::Identify { heartbeat_interval_ms: hello_interval(p) },
                )
            } else {
                (GatewayPhase::AwaitingHello, GatewayActionView::Ignore)
            },
            GatewayInputView::Other => (GatewayPhase::AwaitingHello, GatewayActionView::Ignore),
            GatewayInputView::Unreadable => (GatewayPhase::AwaitingHello, GatewayActionView::Abort),
            _ => (GatewayPhase::Dispatching, GatewayActionView::Ignore),
        },
        GatewayPhase::Dispatching => match input {
            GatewayInputView::Text(p) => {
                let op = p.at("op"@).as_u64();
                if op == Some(0u64) {
                    (GatewayPhase::Dispatching, GatewayActionView::Dispatch(p))
                } else if op == Some(7u64) {
                    (GatewayPhase::Dispatching, GatewayActionView::Reconnect)
                } else if op == Some(9u64) {
                    (GatewayPhase::Dispatching, GatewayActionView::Invalidated)
                } else {
                    (GatewayPhase::Dispatching, GatewayActionView::Ignore)
                }
            },
            GatewayInputView::Other => (GatewayPhase::Dispatching, GatewayActionView::Ignore),
            GatewayInputView::Unreadable => (GatewayPhase::Dispatching, GatewayActionView::Abort),
            _ => (GatewayPhase::Dispatching, GatewayActionView::Finish),
        },
    }
}

/// One gateway connection.
#[derive(Debug, Clone, PartialEq, Eq)]
pub struct GatewaySession {
    pub phase: GatewayPhase,
}

impl GatewaySession {
    /// A session that waits for the hello.
    pub fn new() -> (r: GatewaySession)
        ensures
            r.phase == GatewayPhase::AwaitingHello,
    {
        GatewaySession { phase: GatewayPhase::AwaitingHello }
    }

    /// Takes one input and says what to do.
    pub fn step(&mut self, input: GatewayInput) -> (r: GatewayAction)
        ensures
            (final(self).phase, r@) == gateway_step(old(self).phase, input@),
    {
        match input {
            GatewayInput::Text(payload) => {
                let op = payload.as_u64_at("op");
                match self.phase {
                    GatewayPhase::AwaitingHello => {
                        if op == Some(10u64) {
                            let interval = match lookup(lookup(Some(&payload), "d"), "heartbeat_interval") {
                                Some(v) => match v.as_u64() {
                                    Some(ms) => ms,
                                    None => 45_000,
                                },
                                None => 45_000,
                            };
                            self.phase = GatewayPhase::Dispatching;
                            GatewayAction::Identify { heartbeat_interval_ms: interval }
                        } else {
                            GatewayAction::Ignore
                        }
                    },
                    GatewayPhase::Dispatching => {
                        if op == Some(0u64) {
                            GatewayAction::Dispatch(payload)
                        } else if op == Some(7u64) {
                            GatewayAction::Reconnect
                        } else if op == Some(9u64) {
                            GatewayAction::Invalidated
                        } else {
                            GatewayAction::Ignore
                        }
                    },
                }
            },
            GatewayInput::Other => GatewayAction::Ignore,
            GatewayInput::Unreadable => GatewayAction::Abort,
            _ => match self.phase {
                GatewayPhase::AwaitingHello => {
                    self.phase = GatewayPhase::Dispatching;
                    GatewayAction::Ignore
                },
                GatewayPhase::Dispatching => GatewayAction::Finish,
            },
        }
    }
}

/// The session input for one text frame of the gateway: the JSON document
/// it holds, or an unreadable message where the text is not JSON.
pub fn gateway_text(text: &str) -> (r: GatewayInput)
    ensures
        r@ == match json_of_text(text@) {
            Some(v) => GatewayInputView::Text(v),
            None => GatewayInputView::Unreadable,
        },
{
    match parse_json(text) {
        Some(v) => GatewayInput::Text(v),
        None => GatewayInput::Unreadable,
    }
}

/// The identify payload (opcode 2): the bot token, the intents, and the
/// connection properties.
pub open spec fn identify_spec(token: Seq<char>, os: Seq<char>) -> Json {
    Json::Object(
        seq![
            ("op"@, Json::Number(NumberModel::PosInt(2))),
            (
                "d"@,
                Json::Object(
                    seq![
                        ("token"@, Json::Str(token)),
                        ("intents"@, Json::Number(NumberModel::PosInt(259))),
                        (
                            "properties"@,
                            Json::Object(
                                seq![
                                    ("os"@, Json::Str(os)),
                                    ("browser"@, Json::Str("neurobox-api"@)),
                                    ("device"@, Json::Str("neurobox-api"@)),
                                ],
                            ),
                        ),
                    ],
                ),
            ),
        ],
    )
}

/// The identify payload for a bot token, on the operating system `os`.
pub fn identify_payload(token: &str, os: &str) -> (r: JsonValue)
    ensures
        r@ == identify_spec(token@, os@),
{
    let intents = INTENT_GUILDS | INTENT_GUILD_MEMBERS | INTENT_GUILD_PRESENCES;
    assert(1u64 | 2u64 | 256u64 == 259u64) by (bit_vector);
    let properties = vec![
        json_member("os", json_str(os)),
        json_member("browser", json_str("neurobox-api")),
        json_member("device", json_str("neurobox-api")),
    ];
    let ghost pm = properties@;
    let properties = json_object(properties);
    proof {
        assert(member_views(pm) =~= seq![
            ("os"@, Json::Str(os@)),
            ("browser"@, Json::Str("neurobox-api"@)),
            ("device"@, Json::Str("neurobox-api"@)),
        ]);
    }
    let d = vec![
        json_member("token", json_str(token)),
        json_member("intents", json_uint(intents)),
        json_member("properties", properties),
    ];
    let ghost ddm = d@;
    let d = json_object(d);
    proof {
        assert(member_views(ddm) =~= seq![
            ("token"@, Json::Str(token@)),
            ("intents"@, Json::Number(NumberModel::PosInt(259))),
            ("properties"@, properties@),
        ]);
    }
    let members = vec![json_member("op", json_uint(2)), json_member("d", d)];
    let ghost dm = members@;
    let r = json_object(members);
    proof {
        assert(member_views(dm) =~= match identify_spec(token@, os@) {
            Json::Object(m) => m,
            _ => Seq::empty(),
        });
    }
    r
}

/// The heartbeat payload (opcode 1).
pub open spec fn heartbeat_spec() -> Json {
    Json::Object(seq![("op"@, Json::Number(NumberModel::PosInt(1))), ("d"@, Json::Null)])
}

/// The heartbeat payload.
pub fn heartbeat_payload() -> (r: JsonValue)
    ensures
        r@ == heartbeat_spec(),
{
    let members = vec![json_member("op", json_uint(1)), json_member("d", JsonValue::Null)];
    let ghost m = members@;
    let r = json_object(members);
    proof {
        assert(member_views(m) =~= seq![("op"@, Json::Number(NumberModel::PosInt(1))), ("d"@, Json::Null)]);
    }
    r
}

/// The text of the identify message for a bot token, on the operating
/// system `os`.
pub fn identify_text(token: &str, os: &str) -> (r: String)
    ensures
        r@ == text_of_json(identify_spec(token@, os@)),
{
    json_text(&identify_payload(token, os))
}

/// The text of the heartbeat message.
pub fn heartbeat_text() -> (r: String)
    ensures
        r@ == text_of_json(heartbeat_spec()),
{
    json_text(&heartbeat_payload())
}

} // verus!
