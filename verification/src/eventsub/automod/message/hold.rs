//! A moderator is notified when a message is caught by automod and held.

use vstd::prelude::*;
use crate::document::{Json, Value, entries_view};
use crate::error::{Details, Offence, Section};
use crate::eventsub::EventType;
use crate::fields::{
    member_found_at, names_view, none_unexpected, number, policy, spec_number, spec_policy, spec_text, text,
};

verus! {

/// The model of [`AutomodMessageHoldV1`].
pub ghost struct HoldCondition {
    pub broadcaster_user_id: Seq<char>,
    pub moderator_user_id: Seq<char>,
}

/// The condition of an `automod.message.hold` subscription.
#[derive(Clone, Debug, PartialEq, Eq)]
pub struct AutomodMessageHoldV1 {
    /// User ID of the broadcaster (channel).
    pub broadcaster_user_id: String,
    /// User ID of the moderator.
    pub moderator_user_id: String,
}

impl View for AutomodMessageHoldV1 {
    type V = HoldCondition;

    open spec fn view(&self) -> HoldCondition {
        HoldCondition {
            broadcaster_user_id: self.broadcaster_user_id@,
            moderator_user_id: self.moderator_user_id@,
        }
    }
}

/// The names of the fields of the condition.
pub open spec fn condition_fields() -> Seq<Seq<char>> {
    seq![
        "broadcaster_user_id"@,
        "moderator_user_id"@,
    ]
}

/// The condition that the members of an object hold: the unknown-field policy
/// comes first, then the fields in their order.
pub open spec fn spec_condition(members: Seq<(Seq<char>, Json)>, strict: bool) -> Result<HoldCondition, Offence> {
    if let Some(o) = spec_policy(members, Section::Condition, condition_fields(), strict) {
        Err(o)
    } else if let Err(o) = spec_text(members, Section::Condition, "broadcaster_user_id"@) {
        Err(o)
    } else if let Err(o) = spec_text(members, Section::Condition, "moderator_user_id"@) {
        Err(o)
    } else {
        Ok(
            HoldCondition {
                broadcaster_user_id: spec_text(members, Section::Condition, "broadcaster_user_id"@)->Ok_0,
                moderator_user_id: spec_text(members, Section::Condition, "moderator_user_id"@)->Ok_0,
            },
        )
    }
}

/// The members that a condition is written as.
pub open spec fn condition_members(it: HoldCondition) -> Seq<(Seq<char>, Json)> {
    seq![
        ("broadcaster_user_id"@, Json::Text(it.broadcaster_user_id)),
        ("moderator_user_id"@, Json::Text(it.moderator_user_id)),
    ]
}

/// The names of the fields of the condition.
pub fn condition_field_names() -> (names: Vec<&'static str>)
    ensures
        names_view(names@) == condition_fields(),
{
    let names: Vec<&'static str> = vec![
        "broadcaster_user_id",
        "moderator_user_id",
    ];
    assert(names_view(names@) =~= condition_fields());
    names
}

impl AutomodMessageHoldV1 {
    /// Get automod message hold events for this channel as moderator.
    pub fn new(broadcaster_user_id: &str, moderator_user_id: &str) -> (condition: AutomodMessageHoldV1)
        ensures
            condition@ == (HoldCondition {
                broadcaster_user_id: broadcaster_user_id@,
                moderator_user_id: moderator_user_id@,
            }),
    {
        AutomodMessageHoldV1 {
            broadcaster_user_id: broadcaster_user_id.to_owned(),
            moderator_user_id: moderator_user_id.to_owned(),
        }
    }

    /// The kind of event that this condition subscribes to.
    pub fn event_type() -> (kind: EventType)
        ensures
            kind == EventType::AutomodMessageHold,
    {
        EventType::AutomodMessageHold
    }

    /// The version of the payload shape that this condition subscribes to.
    pub fn version() -> (version: &'static str)
        ensures
            version@ == EventType::AutomodMessageHold.spec_version(),
    {
        EventType::AutomodMessageHold.version()
    }

    /// Reads a condition from the members of an object.
    pub fn from_members(entries: &Vec<(String, Value)>, strict: bool) -> (r: Result<
        AutomodMessageHoldV1,
        Details,
    >)
        ensures
            match r {
                Ok(it) => spec_condition(entries_view(entries@), strict) == Ok::<HoldCondition, Offence>(it@),
                Err(details) => spec_condition(entries_view(entries@), strict) == Err::<HoldCondition, Offence>(details@),
            },
    {
        let known = condition_field_names();
        policy(entries, Section::Condition, &known, strict)?;
        let broadcaster_user_id = text(entries, Section::Condition, "broadcaster_user_id")?;
        let moderator_user_id = text(entries, Section::Condition, "moderator_user_id")?;
        Ok(AutomodMessageHoldV1 { broadcaster_user_id, moderator_user_id })
    }

    /// Writes this condition as the members of an object.
    pub fn to_members(&self) -> (entries: Vec<(String, Value)>)
        ensures
            entries_view(entries@) == condition_members(self@),
    {
        let mut entries: Vec<(String, Value)> = Vec::new();
        entries.push(("broadcaster_user_id".to_owned(), Value::Text(self.broadcaster_user_id.clone())));
        entries.push(("moderator_user_id".to_owned(), Value::Text(self.moderator_user_id.clone())));
        assert(entries_view(entries@) =~= condition_members(self@));
        entries
    }
}

/// The model of [`AutomodMessageHoldV1Payload`].
pub ghost struct HoldPayload {
    pub broadcaster_user_id: Seq<char>,
    pub broadcaster_user_name: Seq<char>,
    pub broadcaster_user_login: Seq<char>,
    pub user_id: Seq<char>,
    pub user_name: Seq<char>,
    pub user_login: Seq<char>,
    pub message_id: Seq<char>,
    pub message: Seq<char>,
    pub level: u64,
    pub category: Seq<char>,
    pub held_at: Seq<char>,
}

/// [`automod.message.hold`](AutomodMessageHoldV1) response payload.
#[derive(Clone, Debug, PartialEq, Eq)]
pub struct AutomodMessageHoldV1Payload {
    /// The broadcaster user ID.
    pub broadcaster_user_id: String,
    /// The broadcaster display name.
    pub broadcaster_user_name: String,
    /// The broadcaster login.
    pub broadcaster_user_login: String,
    /// The user ID of the user that sent the message.
    pub user_id: String,
    /// The user name of the user that sent the message.
    pub user_name: String,
    /// The user login of the user that sent the message.
    pub user_login: String,
    /// A UUID that identifies the message.
    pub message_id: String,
    /// The content of the message.
    pub message: String,
    /// The level of severity. The service documents it as between 1 and 4; no
    /// bound is enforced here.
    pub level: u64,
    /// The category of the message.
    pub category: String,
    /// The timestamp of when automod saved the message.
    pub held_at: String,
}

impl View for AutomodMessageHoldV1Payload {
    type V = HoldPayload;

    open spec fn view(&self) -> HoldPayload {
        HoldPayload {
            broadcaster_user_id: self.broadcaster_user_id@,
            broadcaster_user_name: self.broadcaster_user_name@,
            broadcaster_user_login: self.broadcaster_user_login@,
            user_id: self.user_id@,
            user_name: self.user_name@,
            user_login: self.user_login@,
            message_id: self.message_id@,
            message: self.message@,
            level: self.level,
            category: self.category@,
            held_at: self.held_at@,
        }
    }
}

/// The names of the fields of the payload, all of them required.
pub open spec fn payload_fields() -> Seq<Seq<char>> {
    seq![
        "broadcaster_user_id"@,
        "broadcaster_user_name"@,
        "broadcaster_user_login"@,
        "user_id"@,
        "user_name"@,
        "user_login"@,
        "message_id"@,
        "message"@,
        "level"@,
        "category"@,
        "held_at"@,
    ]
}

/// The payload that the members of an object hold: the unknown-field policy
/// comes first, then the fields in their order. The first fault found is the
/// one reported.
pub open spec fn spec_payload(members: Seq<(Seq<char>, Json)>, strict: bool) -> Result<HoldPayload, Offence> {
    if let Some(o) = spec_policy(members, Section::Event, payload_fields(), strict) {
        Err(o)
    } else if let Err(o) = spec_text(members, Section::Event, "broadcaster_user_id"@) {
        Err(o)
    } else if let Err(o) = spec_text(members, Section::Event, "broadcaster_user_name"@) {
        Err(o)
    } else if let Err(o) = spec_text(members, Section::Event, "broadcaster_user_login"@) {
        Err(o)
    } else if let Err(o) = spec_text(members, Section::Event, "user_id"@) {
        Err(o)
    } else if let Err(o) = spec_text(members, Section::Event, "user_name"@) {
        Err(o)
    } else if let Err(o) = spec_text(members, Section::Event, "user_login"@) {
        Err(o)
    } else if let Err(o) = spec_text(members, Section::Event, "message_id"@) {
        Err(o)
    } else if let Err(o) = spec_text(members, Section::Event, "message"@) {
        Err(o)
    } else if let Err(o) = spec_number(members, Section::Event, "level"@) {
        Err(o)
    } else if let Err(o) = spec_text(members, Section::Event, "category"@) {
        Err(o)
    } else if let Err(o) = spec_text(members, Section::Event, "held_at"@) {
        Err(o)
    } else {
        Ok(
            HoldPayload {
                broadcaster_user_id: spec_text(members, Section::Event, "broadcaster_user_id"@)->Ok_0,
                broadcaster_user_name: spec_text(members, Section::Event, "broadcaster_user_name"@)->Ok_0,
                broadcaster_user_login: spec_text(members, Section::Event, "broadcaster_user_login"@)->Ok_0,
                user_id: spec_text(members, Section::Event, "user_id"@)->Ok_0,
                user_name: spec_text(members, Section::Event, "user_name"@)->Ok_0,
                user_login: spec_text(members, Section::Event, "user_login"@)->Ok_0,
                message_id: spec_text(members, Section::Event, "message_id"@)->Ok_0,
                message: spec_text(members, Section::Event, "message"@)->Ok_0,
                level: spec_number(members, Section::Event, "level"@)->Ok_0,
                category: spec_text(members, Section::Event, "category"@)->Ok_0,
                held_at: spec_text(members, Section::Event, "held_at"@)->Ok_0,
            },
        )
    }
}

/// The members that a payload is written as.
pub open spec fn payload_members(it: HoldPayload) -> Seq<(Seq<char>, Json)> {
    seq![
        ("broadcaster_user_id"@, Json::Text(it.broadcaster_user_id)),
        ("broadcaster_user_name"@, Json::Text(it.broadcaster_user_name)),
        ("broadcaster_user_login"@, Json::Text(it.broadcaster_user_login)),
        ("user_id"@, Json::Text(it.user_id)),
        ("user_name"@, Json::Text(it.user_name)),
        ("user_login"@, Json::Text(it.user_login)),
        ("message_id"@, Json::Text(it.message_id)),
        ("message"@, Json::Text(it.message)),
        ("level"@, Json::Number(it.level)),
        ("category"@, Json::Text(it.category)),
        ("held_at"@, Json::Text(it.held_at)),
    ]
}

/// The names of the fields of the payload.
pub fn payload_field_names() -> (names: Vec<&'static str>)
    ensures
        names_view(names@) == payload_fields(),
{
    let names: Vec<&'static str> = vec![
        "broadcaster_user_id",
        "broadcaster_user_name",
        "broadcaster_user_login",
        "user_id",
        "user_name",
        "user_login",
        "message_id",
        "message",
        "level",
        "category",
        "held_at",
    ];
    assert(names_view(names@) =~= payload_fields());
    names
}

impl AutomodMessageHoldV1Payload {
    /// Reads a payload from the members of an object.
    pub fn from_members(entries: &Vec<(String, Value)>, strict: bool) -> (r: Result<
        AutomodMessageHoldV1Payload,
        Details,
    >)
        ensures
            match r {
                Ok(it) => spec_payload(entries_view(entries@), strict) == Ok::<HoldPayload, Offence>(it@),
                Err(details) => spec_payload(entries_view(entries@), strict) == Err::<HoldPayload, Offence>(details@),
            },
    {
        let known = payload_field_names();
        policy(entries, Section::Event, &known, strict)?;
        let broadcaster_user_id = text(entries, Section::Event, "broadcaster_user_id")?;
        let broadcaster_user_name = text(entries, Section::Event, "broadcaster_user_name")?;
        let broadcaster_user_login = text(entries, Section::Event, "broadcaster_user_login")?;
        let user_id = text(entries, Section::Event, "user_id")?;
        let user_name = text(entries, Section::Event, "user_name")?;
        let user_login = text(entries, Section::Event, "user_login")?;
        let message_id = text(entries, Section::Event, "message_id")?;
        let message = text(entries, Section::Event, "message")?;
        let level = number(entries, Section::Event, "level")?;
        let category = text(entries, Section::Event, "category")?;
        let held_at = text(entries, Section::Event, "held_at")?;
        Ok(
            AutomodMessageHoldV1Payload {
                broadcaster_user_id,
                broadcaster_user_name,
                broadcaster_user_login,
                user_id,
                user_name,
                user_login,
                message_id,
                message,
                level,
                category,
                held_at,
            },
        )
    }

    /// Writes this payload as the members of an object.
    pub fn to_members(&self) -> (entries: Vec<(String, Value)>)
        ensures
            entries_view(entries@) == payload_members(self@),
    {
        let mut entries: Vec<(String, Value)> = Vec::new();
        entries.push(("broadcaster_user_id".to_owned(), Value::Text(self.broadcaster_user_id.clone())));
        entries.push(("broadcaster_user_name".to_owned(), Value::Text(self.broadcaster_user_name.clone())));
        entries.push(("broadcaster_user_login".to_owned(), Value::Text(self.broadcaster_user_login.clone())));
        entries.push(("user_id".to_owned(), Value::Text(self.user_id.clone())));
        entries.push(("user_name".to_owned(), Value::Text(self.user_name.clone())));
        entries.push(("user_login".to_owned(), Value::Text(self.user_login.clone())));
        entries.push(("message_id".to_owned(), Value::Text(self.message_id.clone())));
        entries.push(("message".to_owned(), Value::Text(self.message.clone())));
        entries.push(("level".to_owned(), Value::Number(self.level)));
        entries.push(("category".to_owned(), Value::Text(self.category.clone())));
        entries.push(("held_at".to_owned(), Value::Text(self.held_at.clone())));
        assert(entries_view(entries@) =~= payload_members(self@));
        entries
    }
}

/// No two fields of the condition share a name.
pub proof fn condition_fields_distinct()
    ensures
        condition_fields().len() == 2,
        forall|i: int, j: int| 0 <= i < j < 2 ==> condition_fields()[i] != condition_fields()[j],
{
    reveal_strlit("broadcaster_user_id");
    reveal_strlit("moderator_user_id");
    assert("broadcaster_user_id"@.len() == 19 && "broadcaster_user_id"@[0] == 'b');
    assert("moderator_user_id"@.len() == 17 && "moderator_user_id"@[0] == 'm');
}

/// No two fields of the payload share a name.
pub proof fn payload_fields_distinct()
    ensures
        payload_fields().len() == 11,
        forall|i: int, j: int| 0 <= i < j < 11 ==> payload_fields()[i] != payload_fields()[j],
{
    reveal_strlit("broadcaster_user_id");
    reveal_strlit("broadcaster_user_name");
    reveal_strlit("broadcaster_user_login");
    reveal_strlit("user_id");
    reveal_strlit("user_name");
    reveal_strlit("user_login");
    reveal_strlit("message_id");
    reveal_strlit("message");
    reveal_strlit("level");
    reveal_strlit("category");
    reveal_strlit("held_at");
    assert("broadcaster_user_id"@.len() == 19 && "broadcaster_user_id"@[0] == 'b');
    assert("broadcaster_user_name"@.len() == 21 && "broadcaster_user_name"@[0] == 'b');
    assert("broadcaster_user_login"@.len() == 22 && "broadcaster_user_login"@[0] == 'b');
    assert("user_id"@.len() == 7 && "user_id"@[0] == 'u');
    assert("user_name"@.len() == 9 && "user_name"@[0] == 'u');
    assert("user_login"@.len() == 10 && "user_login"@[0] == 'u');
    assert("message_id"@.len() == 10 && "message_id"@[0] == 'm');
    assert("message"@.len() == 7 && "message"@[0] == 'm');
    assert("level"@.len() == 5 && "level"@[0] == 'l');
    assert("category"@.len() == 8 && "category"@[0] == 'c');
    assert("held_at"@.len() == 7 && "held_at"@[0] == 'h');
}

/// Reading the members that a condition is written as gives the condition
/// back, whatever the unknown-field policy.
pub proof fn condition_round_trip(it: HoldCondition, strict: bool)
    ensures
        spec_condition(condition_members(it), strict) == Ok::<HoldCondition, Offence>(it),
{
    let members = condition_members(it);
    let names = condition_fields();
    condition_fields_distinct();
    assert(members.len() == 2);
    assert forall|i: int| 0 <= i < members.len() implies names.contains((#[trigger] members[i]).0) by {
        assert(names[i] == members[i].0);
    }
    none_unexpected(members, names, 0);
    assert(names[0] == "broadcaster_user_id"@ && members[0].0 == names[0]);
    assert(names[1] == "moderator_user_id"@ && members[1].0 == names[1]);
    assert forall|i: int, j: int| 0 <= j < i < 2 implies (#[trigger] members[j]).0 != (#[trigger] members[i]).0 by {
        assert(names[j] != names[i]);
    }
    member_found_at(members, "broadcaster_user_id"@, 0, 0);
    member_found_at(members, "moderator_user_id"@, 0, 1);
}

/// Reading the members that a payload is written as gives the payload back,
/// whatever the unknown-field policy.
pub proof fn payload_round_trip(it: HoldPayload, strict: bool)
    ensures
        spec_payload(payload_members(it), strict) == Ok::<HoldPayload, Offence>(it),
{
    let members = payload_members(it);
    let names = payload_fields();
    payload_fields_distinct();
    assert(members.len() == 11);
    assert forall|i: int| 0 <= i < members.len() implies names.contains((#[trigger] members[i]).0) by {
        assert(names[i] == members[i].0);
    }
    none_unexpected(members, names, 0);
    assert(names[0] == "broadcaster_user_id"@ && members[0].0 == names[0]);
    assert(names[1] == "broadcaster_user_name"@ && members[1].0 == names[1]);
    assert(names[2] == "broadcaster_user_login"@ && members[2].0 == names[2]);
    assert(names[3] == "user_id"@ && members[3].0 == names[3]);
    assert(names[4] == "user_name"@ && members[4].0 == names[4]);
    assert(names[5] == "user_login"@ && members[5].0 == names[5]);
    assert(names[6] == "message_id"@ && members[6].0 == names[6]);
    assert(names[7] == "message"@ && members[7].0 == names[7]);
    assert(names[8] == "level"@ && members[8].0 == names[8]);
    assert(names[9] == "category"@ && members[9].0 == names[9]);
    assert(names[10] == "held_at"@ && members[10].0 == names[10]);
    assert forall|i: int, j: int| 0 <= j < i < 11 implies (#[trigger] members[j]).0 != (#[trigger] members[i]).0 by {
        assert(names[j] != names[i]);
    }
    member_found_at(members, "broadcaster_user_id"@, 0, 0);
    member_found_at(members, "broadcaster_user_name"@, 0, 1);
    member_found_at(members, "broadcaster_user_login"@, 0, 2);
    member_found_at(members, "user_id"@, 0, 3);
    member_found_at(members, "user_name"@, 0, 4);
    member_found_at(members, "user_login"@, 0, 5);
    member_found_at(members, "message_id"@, 0, 6);
    member_found_at(members, "message"@, 0, 7);
    member_found_at(members, "level"@, 0, 8);
    member_found_at(members, "category"@, 0, 9);
    member_found_at(members, "held_at"@, 0, 10);
}

} // verus!
