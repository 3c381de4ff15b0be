//! Notifications of event subscriptions: the registry of payload shapes, the
//! envelope that a notification is parsed into, and the parser.

use vstd::prelude::*;
use crate::document::{Json, Value, entries_view, field, find, member};
use crate::error::{Details, Failure, Offence, ParseError, Section};
use crate::eventsub::automod::message::hold::{
    AutomodMessageHoldV1, AutomodMessageHoldV1Payload, HoldCondition, HoldPayload, condition_members,
    payload_members, spec_condition, spec_payload,
};
use crate::fields::{
    names_view, number, object, optional_text, policy, spec_number, spec_object, spec_optional_text,
    spec_policy, spec_text, text,
};

pub mod automod;
pub mod laws;

verus! {

/// The kinds of event for which a payload shape is registered.
#[derive(Clone, Copy, Debug, PartialEq, Eq, Structural)]
pub enum EventType {
    /// A message was caught by automod and is held.
    AutomodMessageHold,
}

impl EventType {
    /// The name that the subscription gives this kind of event.
    pub open spec fn spec_name(self) -> Seq<char> {
        match self {
            EventType::AutomodMessageHold => "automod.message.hold"@,
        }
    }

    /// The version of the payload shape that is registered for this kind of event.
    pub open spec fn spec_version(self) -> Seq<char> {
        match self {
            EventType::AutomodMessageHold => "1"@,
        }
    }

    /// The name that the subscription gives this kind of event.
    pub fn name(&self) -> (name: &'static str)
        ensures
            name@ == self.spec_name(),
    {
        match self {
            EventType::AutomodMessageHold => "automod.message.hold",
        }
    }

    /// The version of the payload shape that is registered for this kind of event.
    pub fn version(&self) -> (version: &'static str)
        ensures
            version@ == self.spec_version(),
    {
        match self {
            EventType::AutomodMessageHold => "1",
        }
    }
}

/// The registry: the kind of event that a name and a version select, if any.
pub open spec fn registered(event_type: Seq<char>, version: Seq<char>) -> Option<EventType> {
    if event_type == EventType::AutomodMessageHold.spec_name() && version
        == EventType::AutomodMessageHold.spec_version() {
        Some(EventType::AutomodMessageHold)
    } else {
        None
    }
}

/// Looks a name and a version up in the registry.
pub fn lookup(event_type: &str, version: &str) -> (found: Option<EventType>)
    ensures
        found == registered(event_type@, version@),
{
    let given_type: String = event_type.to_owned();
    let given_version: String = version.to_owned();
    let known_type: String = EventType::AutomodMessageHold.name().to_owned();
    let known_version: String = EventType::AutomodMessageHold.version().to_owned();
    if given_type == known_type && given_version == known_version {
        Some(EventType::AutomodMessageHold)
    } else {
        None
    }
}

/// The model of [`Transport`].
pub ghost struct TransportView {
    pub method: Seq<char>,
    pub callback: Option<Seq<char>>,
    pub session_id: Option<Seq<char>>,
}

/// How the notifications of a subscription are delivered.
#[derive(Clone, Debug, PartialEq, Eq)]
pub struct Transport {
    /// The method of delivery, such as `webhook`.
    pub method: String,
    /// The address that webhook notifications are sent to.
    pub callback: Option<String>,
    /// The session that websocket notifications are sent to.
    pub session_id: Option<String>,
}

/// The model of a text that may be absent.
pub open spec fn optional_view(text: Option<String>) -> Option<Seq<char>> {
    match text {
        Some(content) => Some(content@),
        None => None,
    }
}

impl View for Transport {
    type V = TransportView;

    open spec fn view(&self) -> TransportView {
        TransportView {
            method: self.method@,
            callback: optional_view(self.callback),
            session_id: optional_view(self.session_id),
        }
    }
}

/// The names of the fields of a transport.
pub open spec fn transport_fields() -> Seq<Seq<char>> {
    seq!["method"@, "callback"@, "session_id"@]
}

/// The transport that the members of an object hold.
pub open spec fn spec_transport(members: Seq<(Seq<char>, Json)>, strict: bool) -> Result<TransportView, Offence> {
    if let Some(o) = spec_policy(members, Section::Transport, transport_fields(), strict) {
        Err(o)
    } else if let Err(o) = spec_text(members, Section::Transport, "method"@) {
        Err(o)
    } else if let Err(o) = spec_optional_text(members, Section::Transport, "callback"@) {
        Err(o)
    } else if let Err(o) = spec_optional_text(members, Section::Transport, "session_id"@) {
        Err(o)
    } else {
        Ok(
            TransportView {
                method: spec_text(members, Section::Transport, "method"@)->Ok_0,
                callback: spec_optional_text(members, Section::Transport, "callback"@)->Ok_0,
                session_id: spec_optional_text(members, Section::Transport, "session_id"@)->Ok_0,
            },
        )
    }
}

/// The document that a text that may be absent is written as: null where it is absent.
pub open spec fn optional_json(text: Option<Seq<char>>) -> Json {
    match text {
        Some(content) => Json::Text(content),
        None => Json::Null,
    }
}

/// The members that a transport is written as.
pub open spec fn transport_members(it: TransportView) -> Seq<(Seq<char>, Json)> {
    seq![
        ("method"@, Json::Text(it.method)),
        ("callback"@, optional_json(it.callback)),
        ("session_id"@, optional_json(it.session_id)),
    ]
}

/// The names of the fields of a transport.
pub fn transport_field_names() -> (names: Vec<&'static str>)
    ensures
        names_view(names@) == transport_fields(),
{
    let names: Vec<&'static str> = vec!["method", "callback", "session_id"];
    assert(names_view(names@) =~= transport_fields());
    names
}

/// Writes a text that may be absent: null where it is absent.
pub fn optional_value(text: &Option<String>) -> (doc: Value)
    ensures
        doc@ == optional_json(optional_view(*text)),
{
    match text {
        Some(content) => Value::Text(content.clone()),
        None => Value::Null,
    }
}

impl Transport {
    /// Reads a transport from the members of an object.
    pub fn from_members(entries: &Vec<(String, Value)>, strict: bool) -> (r: Result<Transport, Details>)
        ensures
            match r {
                Ok(it) => spec_transport(entries_view(entries@), strict) == Ok::<TransportView, Offence>(it@),
                Err(details) => spec_transport(entries_view(entries@), strict) == Err::<TransportView, Offence>(
                    details@,
                ),
            },
    {
        let known = transport_field_names();
        policy(entries, Section::Transport, &known, strict)?;
        let method = text(entries, Section::Transport, "method")?;
        let callback = optional_text(entries, Section::Transport, "callback")?;
        let session_id = optional_text(entries, Section::Transport, "session_id")?;
        Ok(Transport { method, callback, session_id })
    }

    /// Writes this transport as the members of an object.
    pub fn to_members(&self) -> (entries: Vec<(String, Value)>)
        ensures
            entries_view(entries@) == transport_members(self@),
    {
        let mut entries: Vec<(String, Value)> = Vec::new();
        entries.push(("method".to_owned(), Value::Text(self.method.clone())));
        entries.push(("callback".to_owned(), optional_value(&self.callback)));
        entries.push(("session_id".to_owned(), optional_value(&self.session_id)));
        assert(entries_view(entries@) =~= transport_members(self@));
        entries
    }
}

/// The model of [`Subscription`].
pub ghost struct SubscriptionView {
    pub id: Seq<char>,
    pub status: Seq<char>,
    pub cost: u64,
    pub condition: HoldCondition,
    pub transport: TransportView,
    pub created_at: Seq<char>,
}

/// What a notification says of the subscription that it was sent for.
#[derive(Clone, Debug, PartialEq, Eq)]
pub struct Subscription {
    /// The ID of the subscription.
    pub id: String,
    /// The status of the subscription.
    pub status: String,
    /// How much the subscription counts against the subscription limit.
    pub cost: u64,
    /// The condition under which events are sent.
    pub condition: AutomodMessageHoldV1,
    /// How the notifications are delivered.
    pub transport: Transport,
    /// The time at which the subscription was created.
    pub created_at: String,
}

impl View for Subscription {
    type V = SubscriptionView;

    open spec fn view(&self) -> SubscriptionView {
        SubscriptionView {
            id: self.id@,
            status: self.status@,
            cost: self.cost,
            condition: self.condition@,
            transport: self.transport@,
            created_at: self.created_at@,
        }
    }
}

/// The names of the fields of a subscription.
pub open spec fn subscription_fields() -> Seq<Seq<char>> {
    seq![
        "id"@,
        "type"@,
        "version"@,
        "status"@,
        "cost"@,
        "condition"@,
        "transport"@,
        "created_at"@,
    ]
}

/// The subscription that the members of an object hold: the unknown-field
/// policy comes first, then the fields in their order, the condition and the
/// transport each read as a whole where their field stands.
pub open spec fn spec_subscription(members: Seq<(Seq<char>, Json)>, strict: bool) -> Result<SubscriptionView, Offence> {
    if let Some(o) = spec_policy(members, Section::Subscription, subscription_fields(), strict) {
        Err(o)
    } else if let Err(o) = spec_text(members, Section::Subscription, "id"@) {
        Err(o)
    } else if let Err(o) = spec_text(members, Section::Subscription, "status"@) {
        Err(o)
    } else if let Err(o) = spec_number(members, Section::Subscription, "cost"@) {
        Err(o)
    } else if let Err(o) = spec_object(members, Section::Subscription, "condition"@) {
        Err(o)
    } else if let Err(o) = spec_condition(spec_object(members, Section::Subscription, "condition"@)->Ok_0, strict) {
        Err(o)
    } else if let Err(o) = spec_object(members, Section::Subscription, "transport"@) {
        Err(o)
    } else if let Err(o) = spec_transport(spec_object(members, Section::Subscription, "transport"@)->Ok_0, strict) {
        Err(o)
    } else if let Err(o) = spec_text(members, Section::Subscription, "created_at"@) {
        Err(o)
    } else {
        Ok(
            SubscriptionView {
                id: spec_text(members, Section::Subscription, "id"@)->Ok_0,
                status: spec_text(members, Section::Subscription, "status"@)->Ok_0,
                cost: spec_number(members, Section::Subscription, "cost"@)->Ok_0,
                condition: spec_condition(
                    spec_object(members, Section::Subscription, "condition"@)->Ok_0,
                    strict,
                )->Ok_0,
                transport: spec_transport(
                    spec_object(members, Section::Subscription, "transport"@)->Ok_0,
                    strict,
                )->Ok_0,
                created_at: spec_text(members, Section::Subscription, "created_at"@)->Ok_0,
            },
        )
    }
}

/// The members that the subscription of an event of kind `kind` is written as.
pub open spec fn subscription_members(kind: EventType, it: SubscriptionView) -> Seq<(Seq<char>, Json)> {
    seq![
        ("id"@, Json::Text(it.id)),
        ("type"@, Json::Text(kind.spec_name())),
        ("version"@, Json::Text(kind.spec_version())),
        ("status"@, Json::Text(it.status)),
        ("cost"@, Json::Number(it.cost)),
        ("condition"@, Json::Object(condition_members(it.condition))),
        ("transport"@, Json::Object(transport_members(it.transport))),
        ("created_at"@, Json::Text(it.created_at)),
    ]
}

/// The names of the fields of a subscription.
pub fn subscription_field_names() -> (names: Vec<&'static str>)
    ensures
        names_view(names@) == subscription_fields(),
{
    let names: Vec<&'static str> = vec![
        "id",
        "type",
        "version",
        "status",
        "cost",
        "condition",
        "transport",
        "created_at",
    ];
    assert(names_view(names@) =~= subscription_fields());
    names
}

impl Subscription {
    /// Reads a subscription from the members of an object.
    pub fn from_members(entries: &Vec<(String, Value)>, strict: bool) -> (r: Result<Subscription, Details>)
        ensures
            match r {
                Ok(it) => spec_subscription(entries_view(entries@), strict) == Ok::<SubscriptionView, Offence>(
                    it@,
                ),
                Err(details) => spec_subscription(entries_view(entries@), strict) == Err::<
                    SubscriptionView,
                    Offence,
                >(details@),
            },
    {
        let known = subscription_field_names();
        policy(entries, Section::Subscription, &known, strict)?;
        let id = text(entries, Section::Subscription, "id")?;
        let status = text(entries, Section::Subscription, "status")?;
        let cost = number(entries, Section::Subscription, "cost")?;
        let condition_entries = object(entries, Section::Subscription, "condition")?;
        let condition = AutomodMessageHoldV1::from_members(condition_entries, strict)?;
        let transport_entries = object(entries, Section::Subscription, "transport")?;
        let transport = Transport::from_members(transport_entries, strict)?;
        let created_at = text(entries, Section::Subscription, "created_at")?;
        Ok(Subscription { id, status, cost, condition, transport, created_at })
    }

    /// Writes this subscription, for an event of kind `kind`, as the members of an object.
    pub fn to_members(&self, kind: EventType) -> (entries: Vec<(String, Value)>)
        ensures
            entries_view(entries@) == subscription_members(kind, self@),
    {
        let mut entries: Vec<(String, Value)> = Vec::new();
        entries.push(("id".to_owned(), Value::Text(self.id.clone())));
        entries.push(("type".to_owned(), Value::text(kind.name())));
        entries.push(("version".to_owned(), Value::text(kind.version())));
        entries.push(("status".to_owned(), Value::Text(self.status.clone())));
        entries.push(("cost".to_owned(), Value::Number(self.cost)));
        entries.push(("condition".to_owned(), Value::object(self.condition.to_members())));
        entries.push(("transport".to_owned(), Value::object(self.transport.to_members())));
        entries.push(("created_at".to_owned(), Value::Text(self.created_at.clone())));
        assert(entries_view(entries@) =~= subscription_members(kind, self@));
        entries
    }
}

/// The model of [`Envelope`].
pub ghost struct EnvelopeView {
    pub subscription: SubscriptionView,
    pub event: HoldPayload,
}

/// A notification: the subscription that it was sent for, and the typed payload.
#[derive(Clone, Debug, PartialEq, Eq)]
pub struct Envelope {
    pub subscription: Subscription,
    pub event: AutomodMessageHoldV1Payload,
}

impl View for Envelope {
    type V = EnvelopeView;

    open spec fn view(&self) -> EnvelopeView {
        EnvelopeView { subscription: self.subscription@, event: self.event@ }
    }
}

/// The model of [`Event`].
pub ghost enum EventView {
    AutomodMessageHoldV1(EnvelopeView),
}

impl EventView {
    /// The kind of the event.
    pub open spec fn kind(self) -> EventType {
        match self {
            EventView::AutomodMessageHoldV1(_) => EventType::AutomodMessageHold,
        }
    }
}

/// A parsed notification, one variant for each registered event type and version.
#[derive(Clone, Debug, PartialEq, Eq)]
pub enum Event {
    /// Automod Message Hold V1 Event
    AutomodMessageHoldV1(Envelope),
}

impl View for Event {
    type V = EventView;

    open spec fn view(&self) -> EventView {
        match self {
            Event::AutomodMessageHoldV1(envelope) => EventView::AutomodMessageHoldV1(envelope@),
        }
    }
}

/// The event type and the version that a notification names: both must be
/// texts, members of a `subscription` member that is an object.
pub open spec fn discriminant(doc: Json) -> Option<(Seq<char>, Seq<char>)> {
    match field(doc, "subscription"@) {
        Some(Json::Object(subscription)) => match (
            member(subscription, "type"@),
            member(subscription, "version"@),
        ) {
            (Some(Json::Text(event_type)), Some(Json::Text(version))) => Some((event_type, version)),
            _ => None,
        },
        _ => None,
    }
}

/// The member `key` of the `subscription` member of a notification.
pub open spec fn subscription_member(doc: Json, key: Seq<char>) -> Option<Json> {
    match field(doc, "subscription"@) {
        Some(subscription) => field(subscription, key),
        None => None,
    }
}

/// The members of the `subscription` member of a notification that names a discriminant.
pub open spec fn subscription_of(doc: Json) -> Seq<(Seq<char>, Json)> {
    field(doc, "subscription"@)->Some_0->Object_0
}

/// The envelope that a notification of a registered kind holds, given the
/// members of the notification and those of its subscription: the payload is
/// read first, from the `event` member, then the subscription.
pub open spec fn spec_envelope(
    root: Seq<(Seq<char>, Json)>,
    subscription: Seq<(Seq<char>, Json)>,
    strict: bool,
) -> Result<EnvelopeView, Offence> {
    if let Err(o) = spec_object(root, Section::Root, "event"@) {
        Err(o)
    } else if let Err(o) = spec_payload(spec_object(root, Section::Root, "event"@)->Ok_0, strict) {
        Err(o)
    } else if let Err(o) = spec_subscription(subscription, strict) {
        Err(o)
    } else {
        Ok(
            EnvelopeView {
                subscription: spec_subscription(subscription, strict)->Ok_0,
                event: spec_payload(spec_object(root, Section::Root, "event"@)->Ok_0, strict)->Ok_0,
            },
        )
    }
}

/// What parsing a notification gives. `strict` is the unknown-field policy:
/// where it holds, a member that no shape knows makes the payload malformed;
/// where it does not, such members are ignored. The policy applies to the
/// event, the subscription, its condition and its transport; what the
/// notification holds beside `subscription` and `event` is ignored under either.
pub open spec fn spec_parse(doc: Json, strict: bool) -> Result<EventView, Failure> {
    match discriminant(doc) {
        None => Err(Failure::MissingDiscriminant),
        Some((event_type, version)) => match registered(event_type, version) {
            None => Err(Failure::UnknownEventType { event_type, version }),
            Some(EventType::AutomodMessageHold) => match spec_envelope(doc->Object_0, subscription_of(doc), strict) {
                Err(o) => Err(Failure::MalformedPayload(o)),
                Ok(envelope) => Ok(EventView::AutomodMessageHoldV1(envelope)),
            },
        },
    }
}

/// The document that a notification is written as.
pub open spec fn spec_document(event: EventView) -> Json {
    match event {
        EventView::AutomodMessageHoldV1(envelope) => Json::Object(
            seq![
                (
                    "subscription"@,
                    Json::Object(subscription_members(EventType::AutomodMessageHold, envelope.subscription)),
                ),
                ("event"@, Json::Object(payload_members(envelope.event))),
            ],
        ),
    }
}

/// The model of what a parse returned.
pub open spec fn outcome(r: Result<Event, ParseError>) -> Result<EventView, Failure> {
    match r {
        Ok(event) => Ok(event@),
        Err(error) => Err(error@),
    }
}

impl Envelope {
    /// Reads the envelope of an automod-message-hold notification from the
    /// members of the notification and those of its subscription.
    pub fn from_members(root: &Vec<(String, Value)>, subscription: &Vec<(String, Value)>, strict: bool) -> (r:
        Result<Envelope, Details>)
        ensures
            match r {
                Ok(it) => spec_envelope(entries_view(root@), entries_view(subscription@), strict) == Ok::<
                    EnvelopeView,
                    Offence,
                >(it@),
                Err(details) => spec_envelope(entries_view(root@), entries_view(subscription@), strict) == Err::<
                    EnvelopeView,
                    Offence,
                >(details@),
            },
    {
        let event_entries = object(root, Section::Root, "event")?;
        let event = AutomodMessageHoldV1Payload::from_members(event_entries, strict)?;
        let subscription = Subscription::from_members(subscription, strict)?;
        Ok(Envelope { subscription, event })
    }
}

impl Event {
    /// Parses a notification, ignoring the members that no shape knows.
    pub fn parse(doc: &Value) -> (r: Result<Event, ParseError>)
        ensures
            outcome(r) == spec_parse(doc@, false),
    {
        Event::parse_with(doc, false)
    }

    /// Parses a notification, refusing the members that no shape knows.
    pub fn parse_strict(doc: &Value) -> (r: Result<Event, ParseError>)
        ensures
            outcome(r) == spec_parse(doc@, true),
    {
        Event::parse_with(doc, true)
    }

    /// Parses a notification under the given unknown-field policy.
    pub fn parse_with(doc: &Value, strict: bool) -> (r: Result<Event, ParseError>)
        ensures
            outcome(r) == spec_parse(doc@, strict),
    {
        let root = match doc.as_object() {
            Some(root) => root,
            None => {
                return Err(ParseError::MissingDiscriminant);
            },
        };
        let subscription = match find(root, "subscription") {
            Some(Value::Object(subscription)) => subscription,
            _ => {
                return Err(ParseError::MissingDiscriminant);
            },
        };
        let event_type = match find(subscription, "type") {
            Some(Value::Text(event_type)) => event_type,
            _ => {
                return Err(ParseError::MissingDiscriminant);
            },
        };
        let version = match find(subscription, "version") {
            Some(Value::Text(version)) => version,
            _ => {
                return Err(ParseError::MissingDiscriminant);
            },
        };
        match lookup(event_type.as_str(), version.as_str()) {
            None => Err(
                ParseError::UnknownEventType { event_type: event_type.clone(), version: version.clone() },
            ),
            Some(EventType::AutomodMessageHold) => match Envelope::from_members(root, subscription, strict) {
                Err(details) => Err(ParseError::MalformedPayload(details)),
                Ok(envelope) => Ok(Event::AutomodMessageHoldV1(envelope)),
            },
        }
    }

    /// The kind of this event.
    pub fn event_type(&self) -> (kind: EventType)
        ensures
            kind == self@.kind(),
    {
        match self {
            Event::AutomodMessageHoldV1(_) => EventType::AutomodMessageHold,
        }
    }

    /// Writes this notification as a document.
    pub fn to_document(&self) -> (doc: Value)
        ensures
            doc@ == spec_document(self@),
    {
        match self {
            Event::AutomodMessageHoldV1(envelope) => {
                let mut entries: Vec<(String, Value)> = Vec::new();
                entries.push(
                    (
                        "subscription".to_owned(),
                        Value::object(envelope.subscription.to_members(EventType::AutomodMessageHold)),
                    ),
                );
                entries.push(("event".to_owned(), Value::object(envelope.event.to_members())));
                let doc = Value::object(entries);
                assert(entries_view(entries@) =~= spec_document(self@)->Object_0);
                doc
            },
        }
    }
}

} // verus!
