//! Websocket subscriptions: which users a client watches, the sequence
//! numbers of the messages it gets, and the state it is sent on subscribing.

use vstd::prelude::*;

use crate::json::{
    json_member, json_object, json_str, json_text, json_uint, member_views, text_of_json, Json, JsonValue,
    NumberModel,
};
use crate::models::{opt_str, or_else, Presence, PresenceView};
use crate::state::AppData;
use crate::strmap::StrMap;
use crate::text::str_equal;

verus! {

/// The `d` part of a client's subscribe message; each field has an older
/// alias that counts where the newer one is absent.
#[derive(Debug, Clone, PartialEq, Eq)]
pub struct SocketSubscribeData {
    pub user_id: Option<String>,
    pub user_ids: Option<Vec<String>>,
    pub all: Option<bool>,
    pub subscribe_to_id: Option<String>,
    pub subscribe_to_ids: Option<Vec<String>>,
    pub subscribe_to_all: Option<bool>,
}

/// A message from a websocket client.
#[derive(Debug, Clone, PartialEq, Eq)]
pub struct SocketSubscribe {
    pub op: Option<u8>,
    pub d: Option<SocketSubscribeData>,
}

/// The users a client watches.
#[derive(Debug, Clone, PartialEq, Eq)]
pub enum Subscription {
    One(String),
    Many(Vec<String>),
    All,
}

pub enum SubscriptionView {
    One(Seq<char>),
    Many(Set<Seq<char>>),
    All,
}

/// The set of the views of some strings.
pub open spec fn id_set(ids: Seq<String>) -> Set<Seq<char>> {
    Set::new(|k: Seq<char>| exists|i: int| 0 <= i < ids.len() && (#[trigger] ids[i])@ == k)
}

impl View for Subscription {
    type V = SubscriptionView;

    open spec fn view(&self) -> SubscriptionView {
        match self {
            Subscription::One(id) => SubscriptionView::One(id@),
            Subscription::Many(ids) => SubscriptionView::Many(id_set(ids@)),
            Subscription::All => SubscriptionView::All,
        }
    }
}

pub open spec fn opt_subscription(o: Option<Subscription>) -> Option<SubscriptionView> {
    match o {
        Some(s) => Some(s@),
        None => None,
    }
}

pub open spec fn opt_ids(o: Option<Vec<String>>) -> Option<Set<Seq<char>>> {
    match o {
        Some(v) => Some(id_set(v@)),
        None => None,
    }
}

/// What a subscribe payload asks to watch: everyone where `all` is true;
/// else one user where an id is given; else the listed users; else nothing.
pub open spec fn subscription_spec(data: SocketSubscribeData) -> Option<SubscriptionView> {
    if or_else(data.all, data.subscribe_to_all) == Some(true) {
        Some(SubscriptionView::All)
    } else {
        match or_else(opt_str(data.user_id), opt_str(data.subscribe_to_id)) {
            Some(id) => Some(SubscriptionView::One(id)),
            None => match or_else(opt_ids(data.user_ids), opt_ids(data.subscribe_to_ids)) {
                Some(ids) => Some(SubscriptionView::Many(ids)),
                None => None,
            },
        }
    }
}

impl Subscription {
    /// The subscription that a subscribe payload asks for.
    pub fn from_payload(data: SocketSubscribeData) -> (r: Option<Subscription>)
        ensures
            opt_subscription(r) == subscription_spec(data),
    {
        let all = match data.all {
            Some(a) => a,
            None => match data.subscribe_to_all {
                Some(a) => a,
                None => false,
            },
        };
        if all {
            return Some(Subscription::All);
        }
        match data.user_id {
            Some(id) => return Some(Subscription::One(id)),
            None => {},
        }
        match data.subscribe_to_id {
            Some(id) => return Some(Subscription::One(id)),
            None => {},
        }
        match data.user_ids {
            Some(ids) => return Some(Subscription::Many(ids)),
            None => {},
        }
        match data.subscribe_to_ids {
            Some(ids) => Some(Subscription::Many(ids)),
            None => None,
        }
    }
}

/// Whether a client with this subscription hears about `user_id`.
pub open spec fn subscription_matches_spec(subscription: Option<SubscriptionView>, user_id: Seq<char>) -> bool {
    match subscription {
        Some(SubscriptionView::One(id)) => id == user_id,
        Some(SubscriptionView::Many(ids)) => ids.contains(user_id),
        Some(SubscriptionView::All) => true,
        None => false,
    }
}

/// Whether a client with this subscription hears about `user_id`.
pub fn subscription_matches(subscription: Option<&Subscription>, user_id: &str) -> (r: bool)
    ensures
        r == subscription_matches_spec(
            match subscription {
                Some(s) => Some(s@),
                None => None,
            },
            user_id@,
        ),
{
    match subscription {
        Some(Subscription::One(id)) => str_equal(id.as_str(), user_id),
        Some(Subscription::Many(ids)) => {
            let mut i: usize = 0;
            while i < ids.len()
                invariant
                    i <= ids@.len(),
                    subscription == Some(&Subscription::Many(*ids)),
                    forall|j: int| 0 <= j < i ==> ids@[j]@ != user_id@,
                decreases ids@.len() - i,
            {
                if str_equal(ids[i].as_str(), user_id) {
                    proof {
                        assert(ids@[i as int]@ == user_id@);
                        assert(id_set(ids@).contains(user_id@));
                    }
                    return true;
                }
                i = i + 1;
            }
            false
        },
        Some(Subscription::All) => true,
        None => false,
    }
}

/// What to do after a client message.
#[derive(Debug, Clone, PartialEq, Eq)]
pub enum ClientAction {
    /// Send the state the new subscription covers, with this sequence number.
    SendInitState { seq: u64 },
    /// Nothing.
    Ignore,
}

/// One websocket client.
#[derive(Debug, Clone, PartialEq, Eq)]
pub struct SocketSession {
    pub subscription: Option<Subscription>,
    /// The sequence number of the last message sent.
    pub seq: u64,
}

/// What a websocket client's session consists of: whom it watches, and the
/// sequence number of the last numbered message it was sent.
pub struct SessionModel {
    pub subscription: Option<SubscriptionView>,
    pub seq: int,
}

impl View for SocketSession {
    type V = SessionModel;

    open spec fn view(&self) -> SessionModel {
        SessionModel { subscription: opt_subscription(self.subscription), seq: self.seq as int }
    }
}

/// What reaches a websocket session: a message from its client, or the
/// presence event of a user.
pub enum SocketInput {
    Client(SocketSubscribe),
    Presence(Seq<char>),
}

/// The session after one input, and the sequence number of the message it
/// sends for that input, if it sends a numbered one: a subscribe (opcode 2)
/// replaces the subscription and is answered with the next number; an event
/// of a watched user goes out with the next number; anything else changes
/// nothing and sends nothing.
pub open spec fn session_step(m: SessionModel, input: SocketInput) -> (SessionModel, Option<int>) {
    match input {
        SocketInput::Client(message) => if message.op == Some(2u8) {
            (
                SessionModel {
                    subscription: match message.d {
                        Some(d) => subscription_spec(d),
                        None => None,
                    },
                    seq: m.seq + 1,
                },
                Some(m.seq + 1),
            )
        } else {
            (m, None)
        },
        SocketInput::Presence(user_id) => if subscription_matches_spec(m.subscription, user_id) {
            (SessionModel { seq: m.seq + 1, ..m }, Some(m.seq + 1))
        } else {
            (m, None)
        },
    }
}

impl SocketSession {
    /// A client that watches nobody yet.
    pub fn new() -> (r: SocketSession)
        ensures
            r.subscription is None,
            r.seq == 0,
            r@ == (SessionModel { subscription: None, seq: 0 }),
    {
        SocketSession { subscription: None, seq: 0 }
    }

    /// Handles a client message: a subscribe (opcode 2) replaces the
    /// subscription and is answered with the state it covers; anything else
    /// (heartbeats, opcode 3, among them) changes nothing.
    pub fn on_client_message(&mut self, message: SocketSubscribe) -> (r: ClientAction)
        requires
            old(self).seq < u64::MAX,
        ensures
            message.op == Some(2u8) ==> {
                &&& opt_subscription(final(self).subscription) == match message.d {
                    Some(d) => subscription_spec(d),
                    None => None,
                }
                &&& final(self).seq == old(self).seq + 1
                &&& r == ClientAction::SendInitState { seq: final(self).seq }
            },
            message.op != Some(2u8) ==> {
                &&& opt_subscription(final(self).subscription) == opt_subscription(old(self).subscription)
                &&& final(self).seq == old(self).seq
                &&& r == ClientAction::Ignore
            },
            final(self)@ == session_step(old(self)@, SocketInput::Client(message)).0,
            session_step(old(self)@, SocketInput::Client(message)).1 == match r {
                ClientAction::SendInitState { seq } => Some(seq as int),
                ClientAction::Ignore => None,
            },
    {
        if message.op == Some(2u8) {
            self.subscription = match message.d {
                Some(d) => Subscription::from_payload(d),
                None => None,
            };
            self.seq = self.seq + 1;
            ClientAction::SendInitState { seq: self.seq }
        } else {
            ClientAction::Ignore
        }
    }

    /// Handles a presence event: a client that watches its user gets it with
    /// the next sequence number; other clients skip it.
    pub fn on_presence_event(&mut self, user_id: &str) -> (r: Option<u64>)
        requires
            old(self).seq < u64::MAX,
        ensures
            opt_subscription(final(self).subscription) == opt_subscription(old(self).subscription),
            subscription_matches_spec(opt_subscription(old(self).subscription), user_id@) ==> {
                &&& final(self).seq == old(self).seq + 1
                &&& r == Some(final(self).seq)
            },
            !subscription_matches_spec(opt_subscription(old(self).subscription), user_id@) ==> {
                &&& final(self).seq == old(self).seq
                &&& r is None
            },
            final(self)@ == session_step(old(self)@, SocketInput::Presence(user_id@)).0,
            session_step(old(self)@, SocketInput::Presence(user_id@)).1 == match r {
                Some(n) => Some(n as int),
                None => None,
            },
    {
        let matched = match &self.subscription {
            Some(s) => subscription_matches(Some(s), user_id),
            None => subscription_matches(None, user_id),
        };
        if matched {
            self.seq = self.seq + 1;
            Some(self.seq)
        } else {
            None
        }
    }
}

/// The state sent to a client on subscribing.
#[derive(Debug, PartialEq, Eq)]
pub enum InitState {
    /// Nothing (JSON null).
    Nothing,
    /// The presence of the one watched user.
    One(Presence),
    /// The presences of the watched users, by user id.
    Many(StrMap<Presence>),
}

pub enum InitStateView {
    Nothing,
    One(PresenceView),
    Many(Map<Seq<char>, PresenceView>),
}

impl View for InitState {
    type V = InitStateView;

    open spec fn view(&self) -> InitStateView {
        match self {
            InitState::Nothing => InitStateView::Nothing,
            InitState::One(p) => InitStateView::One(p@),
            InitState::Many(m) => InitStateView::Many(m@),
        }
    }
}

/// The cached presences that a subscription covers: the watched user's, if
/// cached; those of the watched users that are cached; or all of them.
pub open spec fn init_state_spec(presences: Map<Seq<char>, PresenceView>, subscription: Option<SubscriptionView>) -> InitStateView {
    match subscription {
        Some(SubscriptionView::One(id)) => if presences.contains_key(id) {
            InitStateView::One(presences[id])
        } else {
            InitStateView::Nothing
        },
        Some(SubscriptionView::Many(ids)) => InitStateView::Many(presences.restrict(ids)),
        Some(SubscriptionView::All) => InitStateView::Many(presences),
        None => InitStateView::Nothing,
    }
}

/// The state sent to a client on subscribing.
pub fn init_state(data: &AppData, subscription: Option<&Subscription>) -> (r: InitState)
    ensures
        r@ == init_state_spec(
            data@.presences,
            match subscription {
                Some(s) => Some(s@),
                None => None,
            },
        ),
{
    match subscription {
        Some(Subscription::One(id)) => match data.presences().get(id.as_str()) {
            Some(p) => InitState::One(p.duplicate_presence()),
            None => InitState::Nothing,
        },
        Some(Subscription::Many(ids)) => {
            let mut out: StrMap<Presence> = StrMap::new();
            let mut i: usize = 0;
            while i < ids.len()
                invariant
                    i <= ids@.len(),
                    out@ == data@.presences.restrict(id_set(ids@.subrange(0, i as int))),
                decreases ids@.len() - i,
            {
                match data.presences().get(ids[i].as_str()) {
                    Some(p) => {
                        out.insert(ids[i].clone(), p.duplicate_presence());
                    },
                    None => {},
                }
                proof {
                    assert(id_set(ids@.subrange(0, i + 1)) =~= id_set(ids@.subrange(0, i as int)).insert(ids@[i as int]@)) by {
                        assert forall|k: Seq<char>| id_set(ids@.subrange(0, i + 1)).contains(k) implies id_set(ids@.subrange(0, i as int)).insert(ids@[i as int]@).contains(k) by {
                            let j = choose|j: int| 0 <= j < i + 1 && (#[trigger] ids@.subrange(0, i + 1)[j])@ == k;
                            if j < i {
                                assert(ids@.subrange(0, i as int)[j] == ids@.subrange(0, i + 1)[j]);
                            }
                        }
                        assert forall|k: Seq<char>| id_set(ids@.subrange(0, i as int)).insert(ids@[i as int]@).contains(k) implies id_set(ids@.subrange(0, i + 1)).contains(k) by {
                            if k == ids@[i as int]@ {
                                assert(ids@.subrange(0, i + 1)[i as int] == ids@[i as int]);
                            } else {
                                let j = choose|j: int| 0 <= j < i && (#[trigger] ids@.subrange(0, i as int)[j])@ == k;
                                assert(ids@.subrange(0, i + 1)[j] == ids@.subrange(0, i as int)[j]);
                            }
                        }
                    }
                    assert(out@ =~= data@.presences.restrict(id_set(ids@.subrange(0, i + 1))));
                }
                i = i + 1;
            }
            proof {
                assert(ids@.subrange(0, ids@.len() as int) =~= ids@);
            }
            InitState::Many(out)
        },
        Some(Subscription::All) => InitState::Many(data.presences().duplicate_map()),
        None => InitState::Nothing,
    }
}

/// The greeting sent to each new client: opcode 1, with the heartbeat
/// interval the client should keep (30 seconds).
pub open spec fn hello_spec() -> Json {
    Json::Object(
        seq![
            ("op"@, Json::Number(NumberModel::PosInt(1))),
            ("t"@, Json::Str("HELLO"@)),
            ("d"@, Json::Object(seq![("heartbeat_interval"@, Json::Number(NumberModel::PosInt(30000)))])),
        ],
    )
}

/// The greeting sent to each new client.
pub fn hello_message() -> (r: JsonValue)
    ensures
        r@ == hello_spec(),
{
    let d = vec![json_member("heartbeat_interval", json_uint(30000))];
    let ghost dm = d@;
    let d = json_object(d);
    proof {
        assert(member_views(dm) =~= seq![("heartbeat_interval"@, Json::Number(NumberModel::PosInt(30000)))]);
    }
    let members = vec![json_member("op", json_uint(1)), json_member("t", json_str("HELLO")), json_member("d", d)];
    let ghost m = members@;
    let r = json_object(members);
    proof {
        assert(member_views(m) =~= seq![
            ("op"@, Json::Number(NumberModel::PosInt(1))),
            ("t"@, Json::Str("HELLO"@)),
            ("d"@, d@),
        ]);
    }
    r
}

/// The text of the greeting.
pub fn hello_text() -> (r: String)
    ensures
        r@ == text_of_json(hello_spec()),
{
    json_text(&hello_message())
}

/// A numbered message (opcode 0) of the event `t`, with the data `d`.
pub open spec fn frame_spec(seq: u64, t: Seq<char>, d: Json) -> Json {
    Json::Object(
        seq![
            ("op"@, Json::Number(NumberModel::PosInt(0))),
            ("seq"@, Json::Number(NumberModel::PosInt(seq))),
            ("t"@, Json::Str(t)),
            ("d"@, d),
        ],
    )
}

fn frame_text(seq: u64, t: &str, d: JsonValue) -> (r: String)
    ensures
        r@ == text_of_json(frame_spec(seq, t@, d@)),
{
    let members = vec![
        json_member("op", json_uint(0)),
        json_member("seq", json_uint(seq)),
        json_member("t", json_str(t)),
        json_member("d", d),
    ];
    let ghost m = members@;
    let frame = json_object(members);
    proof {
        assert(member_views(m) =~= seq![
            ("op"@, Json::Number(NumberModel::PosInt(0))),
            ("seq"@, Json::Number(NumberModel::PosInt(seq))),
            ("t"@, Json::Str(t@)),
            ("d"@, m[3].1@),
        ]);
    }
    json_text(&frame)
}

/// The text of the `INIT_STATE` message numbered `seq`, carrying the state
/// the subscription covers as the document `d`.
pub fn init_state_text(seq: u64, d: JsonValue) -> (r: String)
    ensures
        r@ == text_of_json(frame_spec(seq, "INIT_STATE"@, d@)),
{
    frame_text(seq, "INIT_STATE", d)
}

/// The text of the `PRESENCE_UPDATE` message numbered `seq`, carrying the
/// presence document `d`.
pub fn presence_update_text(seq: u64, d: JsonValue) -> (r: String)
    ensures
        r@ == text_of_json(frame_spec(seq, "PRESENCE_UPDATE"@, d@)),
{
    frame_text(seq, "PRESENCE_UPDATE", d)
}

} // verus!
