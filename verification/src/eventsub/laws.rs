//! What holds of parsing and writing notifications, whatever the document.

use vstd::prelude::*;
use crate::document::{Json, field, member, member_from};
use crate::error::{Failure, Fault, Offence, Section};
use crate::eventsub::automod::message::hold::{
    condition_round_trip, payload_fields, payload_fields_distinct, payload_round_trip, spec_payload,
};
use crate::eventsub::{
    EventType, EventView, SubscriptionView, TransportView, discriminant, registered, spec_document,
    spec_parse, spec_subscription, spec_transport, subscription_fields, subscription_member,
    subscription_members, transport_fields, transport_members,
};
use crate::fields::{
    member_found_at, none_unexpected, offence, some_unexpected, spec_number, spec_text, unexpected_from,
};

verus! {

/// No two fields of a transport share a name.
pub proof fn transport_fields_distinct()
    ensures
        transport_fields().len() == 3,
        forall|i: int, j: int| 0 <= i < j < 3 ==> transport_fields()[i] != transport_fields()[j],
{
    reveal_strlit("method");
    reveal_strlit("callback");
    reveal_strlit("session_id");
    assert("method"@.len() == 6);
    assert("callback"@.len() == 8);
    assert("session_id"@.len() == 10);
}

/// No two fields of a subscription share a name.
pub proof fn subscription_fields_distinct()
    ensures
        subscription_fields().len() == 8,
        forall|i: int, j: int| 0 <= i < j < 8 ==> subscription_fields()[i] != subscription_fields()[j],
{
    reveal_strlit("id");
    reveal_strlit("type");
    reveal_strlit("version");
    reveal_strlit("status");
    reveal_strlit("cost");
    reveal_strlit("condition");
    reveal_strlit("transport");
    reveal_strlit("created_at");
    assert("id"@.len() == 2 && "id"@[0] == 'i');
    assert("type"@.len() == 4 && "type"@[0] == 't');
    assert("version"@.len() == 7 && "version"@[0] == 'v');
    assert("status"@.len() == 6 && "status"@[0] == 's');
    assert("cost"@.len() == 4 && "cost"@[0] == 'c');
    assert("condition"@.len() == 9 && "condition"@[0] == 'c');
    assert("transport"@.len() == 9 && "transport"@[0] == 't');
    assert("created_at"@.len() == 10 && "created_at"@[0] == 'c');
}

/// Reading the members that a transport is written as gives the transport
/// back, whatever the unknown-field policy.
pub proof fn transport_round_trip(it: TransportView, strict: bool)
    ensures
        spec_transport(transport_members(it), strict) == Ok::<TransportView, Offence>(it),
{
    let members = transport_members(it);
    let names = transport_fields();
    transport_fields_distinct();
    assert forall|i: int| 0 <= i < members.len() implies names.contains((#[trigger] members[i]).0) by {
        assert(names[i] == members[i].0);
    }
    none_unexpected(members, names, 0);
    assert(names[0] == "method"@ && members[0].0 == names[0]);
    assert(names[1] == "callback"@ && members[1].0 == names[1]);
    assert(names[2] == "session_id"@ && members[2].0 == names[2]);
    assert forall|i: int, j: int| 0 <= j < i < 3 implies (#[trigger] members[j]).0 != (#[trigger] members[i]).0 by {
        assert(names[j] != names[i]);
    }
    member_found_at(members, "method"@, 0, 0);
    member_found_at(members, "callback"@, 0, 1);
    member_found_at(members, "session_id"@, 0, 2);
}

/// Reading the members that a subscription is written as gives the
/// subscription back, whatever the unknown-field policy, and the event type
/// and version that it was written with.
pub proof fn subscription_round_trip(kind: EventType, it: SubscriptionView, strict: bool)
    ensures
        spec_subscription(subscription_members(kind, it), strict) == Ok::<SubscriptionView, Offence>(it),
        member(subscription_members(kind, it), "type"@) == Some(Json::Text(kind.spec_name())),
        member(subscription_members(kind, it), "version"@) == Some(Json::Text(kind.spec_version())),
{
    let members = subscription_members(kind, it);
    let names = subscription_fields();
    subscription_fields_distinct();
    condition_round_trip(it.condition, strict);
    transport_round_trip(it.transport, strict);
    assert forall|i: int| 0 <= i < members.len() implies names.contains((#[trigger] members[i]).0) by {
        assert(names[i] == members[i].0);
    }
    none_unexpected(members, names, 0);
    assert(names[0] == "id"@ && members[0].0 == names[0]);
    assert(names[1] == "type"@ && members[1].0 == names[1]);
    assert(names[2] == "version"@ && members[2].0 == names[2]);
    assert(names[3] == "status"@ && members[3].0 == names[3]);
    assert(names[4] == "cost"@ && members[4].0 == names[4]);
    assert(names[5] == "condition"@ && members[5].0 == names[5]);
    assert(names[6] == "transport"@ && members[6].0 == names[6]);
    assert(names[7] == "created_at"@ && members[7].0 == names[7]);
    assert forall|i: int, j: int| 0 <= j < i < 8 implies (#[trigger] members[j]).0 != (#[trigger] members[i]).0 by {
        assert(names[j] != names[i]);
    }
    member_found_at(members, "id"@, 0, 0);
    member_found_at(members, "type"@, 0, 1);
    member_found_at(members, "version"@, 0, 2);
    member_found_at(members, "status"@, 0, 3);
    member_found_at(members, "cost"@, 0, 4);
    member_found_at(members, "condition"@, 0, 5);
    member_found_at(members, "transport"@, 0, 6);
    member_found_at(members, "created_at"@, 0, 7);
}

/// Round trip: parsing the document that a notification is written as gives
/// the notification back, for every registered event type and under either
/// unknown-field policy.
pub proof fn round_trip(event: EventView, strict: bool)
    ensures
        spec_parse(spec_document(event), strict) == Ok::<EventView, Failure>(event),
{
    let doc = spec_document(event);
    let root = doc->Object_0;
    match event {
        EventView::AutomodMessageHoldV1(envelope) => {
            reveal_strlit("subscription");
            reveal_strlit("event");
            assert("subscription"@.len() == 12);
            assert("event"@.len() == 5);
            assert(root[0].0 == "subscription"@ && root[1].0 == "event"@);
            member_found_at(root, "subscription"@, 0, 0);
            member_found_at(root, "event"@, 0, 1);
            subscription_round_trip(event.kind(), envelope.subscription, strict);
            payload_round_trip(envelope.event, strict);
        },
    }
}

/// A notification whose subscription has no `type` member, or that has no
/// subscription at all, fails with `MissingDiscriminant`.
pub proof fn missing_type_fails(doc: Json, strict: bool)
    requires
        subscription_member(doc, "type"@).is_none(),
    ensures
        spec_parse(doc, strict) == Err::<EventView, Failure>(Failure::MissingDiscriminant),
{
}

/// A notification whose subscription has no `version` member fails with `MissingDiscriminant`.
pub proof fn missing_version_fails(doc: Json, strict: bool)
    requires
        subscription_member(doc, "version"@).is_none(),
    ensures
        spec_parse(doc, strict) == Err::<EventView, Failure>(Failure::MissingDiscriminant),
{
}

/// `MissingDiscriminant` is the failure of exactly the notifications that name no discriminant.
pub proof fn missing_discriminant_exactly(doc: Json, strict: bool)
    ensures
        discriminant(doc).is_none() <==> spec_parse(doc, strict) == Err::<EventView, Failure>(
            Failure::MissingDiscriminant,
        ),
{
}

/// A notification whose event type and version are not in the registry fails
/// with `UnknownEventType`, which carries both, whatever else it holds.
pub proof fn unknown_pair_fails(doc: Json, strict: bool, event_type: Seq<char>, version: Seq<char>)
    requires
        discriminant(doc) == Some((event_type, version)),
        registered(event_type, version).is_none(),
    ensures
        spec_parse(doc, strict) == Err::<EventView, Failure>(Failure::UnknownEventType { event_type, version }),
{
}

/// A payload is found malformed only where the event type and version are registered.
pub proof fn malformed_only_where_registered(doc: Json, strict: bool)
    requires
        spec_parse(doc, strict) matches Err(Failure::MalformedPayload(_)),
    ensures
        discriminant(doc) matches Some(pair) && registered(pair.0, pair.1).is_some(),
{
}

/// Every registered pair selects one kind of event, and that kind bears the pair.
pub proof fn registry_is_exact(event_type: Seq<char>, version: Seq<char>, kind: EventType)
    ensures
        registered(event_type, version) == Some(kind) <==> (event_type == kind.spec_name() && version
            == kind.spec_version()),
{
}

/// What is wrong with the field `name` of a payload, taken by itself.
pub open spec fn payload_field_fault(members: Seq<(Seq<char>, Json)>, name: Seq<char>) -> Option<Offence> {
    if name == "level"@ {
        match spec_number(members, Section::Event, name) {
            Err(o) => Some(o),
            Ok(_) => None,
        }
    } else {
        match spec_text(members, Section::Event, name) {
            Err(o) => Some(o),
            Ok(_) => None,
        }
    }
}

/// A notification of a registered kind whose `event` lacks a required field
/// fails with `MalformedPayload`, at a field of the event. Where no unknown
/// member is refused and the fields before the missing one are sound, the
/// failure names the missing field.
pub proof fn missing_field_is_malformed(doc: Json, strict: bool, members: Seq<(Seq<char>, Json)>, k: int)
    requires
        discriminant(doc) matches Some(pair) && registered(pair.0, pair.1).is_some(),
        field(doc, "event"@) == Some(Json::Object(members)),
        0 <= k < payload_fields().len(),
        member(members, payload_fields()[k]).is_none(),
    ensures
        spec_parse(doc, strict) matches Err(Failure::MalformedPayload(o)) && o.section == Section::Event,
        (!strict || unexpected_from(members, payload_fields(), 0).is_none()) && (forall|j: int|
            0 <= j < k ==> payload_field_fault(members, #[trigger] payload_fields()[j]).is_none())
            ==> spec_parse(doc, strict) == Err::<EventView, Failure>(
            Failure::MalformedPayload(offence(Section::Event, payload_fields()[k], Fault::Missing)),
        ),
{
    let names = payload_fields();
    payload_fields_distinct();
    assert(names[0] == "broadcaster_user_id"@);
    assert(names[1] == "broadcaster_user_name"@);
    assert(names[2] == "broadcaster_user_login"@);
    assert(names[3] == "user_id"@);
    assert(names[4] == "user_name"@);
    assert(names[5] == "user_login"@);
    assert(names[6] == "message_id"@);
    assert(names[7] == "message"@);
    assert(names[8] == "level"@);
    assert(names[9] == "category"@);
    assert(names[10] == "held_at"@);
    assert(forall|j: int| 0 <= j < 11 && j != 8 ==> #[trigger] names[j] != "level"@);
}

/// Under the strict policy, a notification of a registered kind whose `event`
/// holds a member that the payload does not know fails with
/// `MalformedPayload`, at a member of the event that is not a field of the payload.
pub proof fn unexpected_field_is_malformed(doc: Json, members: Seq<(Seq<char>, Json)>, at: int)
    requires
        discriminant(doc) matches Some(pair) && registered(pair.0, pair.1).is_some(),
        field(doc, "event"@) == Some(Json::Object(members)),
        0 <= at < members.len(),
        !payload_fields().contains(members[at].0),
    ensures
        spec_parse(doc, true) matches Err(Failure::MalformedPayload(o)) && o.section == Section::Event
            && o.fault == Fault::Unexpected && !payload_fields().contains(o.field),
{
    some_unexpected(members, payload_fields(), 0, at);
    first_unexpected_is_unknown(members, payload_fields(), 0);
}

/// The first unexpected member, where there is one, is not among the known names.
pub proof fn first_unexpected_is_unknown(members: Seq<(Seq<char>, Json)>, known: Seq<Seq<char>>, from: int)
    requires
        0 <= from,
    ensures
        unexpected_from(members, known, from) matches Some(key) ==> !known.contains(key),
    decreases members.len() - from,
{
    if from < members.len() && known.contains(members[from].0) {
        first_unexpected_is_unknown(members, known, from + 1);
    }
}

/// A member put into an object at any place does not change what is found under another key.
pub proof fn other_members_stay(members: Seq<(Seq<char>, Json)>, at: int, extra: (Seq<char>, Json), key: Seq<char>, from: int)
    requires
        0 <= at <= members.len(),
        0 <= from <= members.len(),
        extra.0 != key,
    ensures
        from <= at ==> member_from(members.insert(at, extra), key, from) == member_from(members, key, from),
        from >= at ==> member_from(members.insert(at, extra), key, from + 1) == member_from(members, key, from),
    decreases members.len() - from,
{
    let longer = members.insert(at, extra);
    if from < members.len() {
        other_members_stay(members, at, extra, key, from + 1);
    }
    if from <= at {
        if from < at {
            assert(longer[from] == members[from]);
        } else {
            assert(longer[from] == extra);
        }
    }
    if from >= at && from < members.len() {
        assert(longer[from + 1] == members[from]);
    }
}

/// Under the permissive policy a payload is read from its own fields alone:
/// two objects that hold the same under each field of the payload give the same.
pub proof fn permissive_reads_fields_only(a: Seq<(Seq<char>, Json)>, b: Seq<(Seq<char>, Json)>)
    requires
        forall|j: int| 0 <= j < payload_fields().len() ==> member(a, #[trigger] payload_fields()[j]) == member(b, payload_fields()[j]),
    ensures
        spec_payload(a, false) == spec_payload(b, false),
{
    let names = payload_fields();
    assert(names[0] == "broadcaster_user_id"@);
    assert(names[1] == "broadcaster_user_name"@);
    assert(names[2] == "broadcaster_user_login"@);
    assert(names[3] == "user_id"@);
    assert(names[4] == "user_name"@);
    assert(names[5] == "user_login"@);
    assert(names[6] == "message_id"@);
    assert(names[7] == "message"@);
    assert(names[8] == "level"@);
    assert(names[9] == "category"@);
    assert(names[10] == "held_at"@);
}

/// Under the permissive policy a member that the payload does not know is
/// discarded: put into the `event` object at any place, it changes nothing of
/// what is read.
pub proof fn permissive_discards_extra(members: Seq<(Seq<char>, Json)>, at: int, extra: (Seq<char>, Json))
    requires
        0 <= at <= members.len(),
        !payload_fields().contains(extra.0),
    ensures
        spec_payload(members.insert(at, extra), false) == spec_payload(members, false),
        spec_payload(members.insert(at, extra), true) matches Err(o) && o.fault == Fault::Unexpected,
{
    let longer = members.insert(at, extra);
    assert forall|j: int| 0 <= j < payload_fields().len() implies member(longer, #[trigger] payload_fields()[j])
        == member(members, payload_fields()[j]) by {
        other_members_stay(members, at, extra, payload_fields()[j], 0);
    }
    permissive_reads_fields_only(longer, members);
    assert(longer[at] == extra);
    some_unexpected(longer, payload_fields(), 0, at);
}

/// The same at the level of the notification: of two notifications that
/// differ only in that the `event` of the second holds one more member, which
/// the payload does not know, the permissive policy makes no difference, and
/// the strict policy refuses the second where its kind is registered.
pub proof fn extra_event_member(
    plain: Json,
    padded: Json,
    members: Seq<(Seq<char>, Json)>,
    at: int,
    extra: (Seq<char>, Json),
)
    requires
        field(plain, "subscription"@) == field(padded, "subscription"@),
        field(plain, "event"@) == Some(Json::Object(members)),
        0 <= at <= members.len(),
        !payload_fields().contains(extra.0),
        field(padded, "event"@) == Some(Json::Object(members.insert(at, extra))),
    ensures
        spec_parse(padded, false) == spec_parse(plain, false),
        (discriminant(padded) matches Some(pair) && registered(pair.0, pair.1).is_some()) ==> (spec_parse(
            padded,
            true,
        ) matches Err(Failure::MalformedPayload(o)) && o.section == Section::Event && o.fault
            == Fault::Unexpected),
{
    permissive_discards_extra(members, at, extra);
}

/// The level of a payload is the number that the document holds, whatever
/// its size: no bound is checked.
pub proof fn level_is_read_as_written(members: Seq<(Seq<char>, Json)>, strict: bool)
    ensures
        spec_payload(members, strict) matches Ok(payload) ==> member(members, "level"@) == Some(
            Json::Number(payload.level),
        ),
{
}

/// The two unknown-field policies part only where the strict one refuses a
/// member: wherever strict parsing does not fail at an unexpected field, it
/// gives what permissive parsing gives.
pub proof fn policies_part_on_unexpected_only(doc: Json)
    ensures
        spec_parse(doc, true) == spec_parse(doc, false) || (spec_parse(doc, true) matches Err(
            Failure::MalformedPayload(o),
        ) && o.fault == Fault::Unexpected),
{
}

} // verus!
