//! The ways in which parsing a notification fails.

use vstd::prelude::*;
use vstd::string::StringExecFns;

verus! {

/// The part of a notification in which a field stands.
#[derive(Clone, Copy, Debug, PartialEq, Eq, Structural)]
pub enum Section {
    /// The notification itself.
    Root,
    /// Its `subscription` member.
    Subscription,
    /// The `condition` member of the subscription.
    Condition,
    /// The `transport` member of the subscription.
    Transport,
    /// Its `event` member.
    Event,
}

/// What is wrong with a field.
#[derive(Clone, Copy, Debug, PartialEq, Eq, Structural)]
pub enum Fault {
    /// A required field is absent.
    Missing,
    /// The field holds a value of another kind than its shape asks for.
    Mistyped,
    /// The field belongs to no shape, and unknown fields are refused.
    Unexpected,
}

/// The model of [`Details`].
pub ghost struct Offence {
    pub section: Section,
    pub field: Seq<char>,
    pub fault: Fault,
}

/// The field at which a payload was found malformed.
#[derive(Clone, Debug, PartialEq, Eq)]
pub struct Details {
    pub section: Section,
    pub field: String,
    pub fault: Fault,
}

impl View for Details {
    type V = Offence;

    open spec fn view(&self) -> Offence {
        Offence { section: self.section, field: self.field@, fault: self.fault }
    }
}

/// The model of [`ParseError`].
pub ghost enum Failure {
    MissingDiscriminant,
    UnknownEventType { event_type: Seq<char>, version: Seq<char> },
    MalformedPayload(Offence),
}

/// Why a notification could not be parsed.
#[derive(Clone, Debug, PartialEq, Eq)]
pub enum ParseError {
    /// The subscription names no event type or no version.
    MissingDiscriminant,
    /// No payload shape is registered for the event type and version.
    UnknownEventType { event_type: String, version: String },
    /// The event type is known, and a field is missing, mistyped or unexpected.
    MalformedPayload(Details),
}

impl View for ParseError {
    type V = Failure;

    open spec fn view(&self) -> Failure {
        match self {
            ParseError::MissingDiscriminant => Failure::MissingDiscriminant,
            ParseError::UnknownEventType { event_type, version } => Failure::UnknownEventType {
                event_type: event_type@,
                version: version@,
            },
            ParseError::MalformedPayload(details) => Failure::MalformedPayload(details@),
        }
    }
}

/// The path from the notification down to a section, with the dot that a field's name follows.
pub open spec fn section_prefix(section: Section) -> Seq<char> {
    match section {
        Section::Root => ""@,
        Section::Subscription => "subscription."@,
        Section::Condition => "subscription.condition."@,
        Section::Transport => "subscription.transport."@,
        Section::Event => "event."@,
    }
}

/// The path from the notification down to a field.
pub open spec fn path_of(offence: Offence) -> Seq<char> {
    section_prefix(offence.section) + offence.field
}

impl Details {
    /// The field `field` of `section`, with what is wrong with it.
    pub fn new(section: Section, field: &str, fault: Fault) -> (details: Details)
        ensures
            details@ == (Offence { section, field: field@, fault }),
    {
        Details { section, field: field.to_owned(), fault }
    }

    /// The path of the offending field, such as `event.level`.
    pub fn path(&self) -> (path: String)
        ensures
            path@ == path_of(self@),
    {
        let prefix: &str = match self.section {
            Section::Root => "",
            Section::Subscription => "subscription.",
            Section::Condition => "subscription.condition.",
            Section::Transport => "subscription.transport.",
            Section::Event => "event.",
        };
        prefix.to_owned().concat(self.field.as_str())
    }
}

/// The words for what is wrong with a field.
pub open spec fn fault_words(fault: Fault) -> Seq<char> {
    match fault {
        Fault::Missing => "missing field "@,
        Fault::Mistyped => "mistyped field "@,
        Fault::Unexpected => "unexpected field "@,
    }
}

/// The sentence that describes a failure.
pub open spec fn description(failure: Failure) -> Seq<char> {
    match failure {
        Failure::MissingDiscriminant => "missing event type or version"@,
        Failure::UnknownEventType { event_type, version } => "unknown event type "@ + event_type + " version "@
            + version,
        Failure::MalformedPayload(offence) => "malformed payload: "@ + fault_words(offence.fault) + path_of(
            offence,
        ),
    }
}

impl ParseError {
    /// A sentence that describes this failure, with the path of the offending field where there is one.
    pub fn describe(&self) -> (sentence: String)
        ensures
            sentence@ == description(self@),
    {
        match self {
            ParseError::MissingDiscriminant => "missing event type or version".to_owned(),
            ParseError::UnknownEventType { event_type, version } => {
                "unknown event type ".to_owned().concat(event_type.as_str()).concat(" version ").concat(
                    version.as_str(),
                )
            },
            ParseError::MalformedPayload(details) => {
                let words: &str = match details.fault {
                    Fault::Missing => "missing field ",
                    Fault::Mistyped => "mistyped field ",
                    Fault::Unexpected => "unexpected field ",
                };
                let path = details.path();
                let sentence = "malformed payload: ".to_owned().concat(words).concat(path.as_str());
                assert(sentence@ =~= description(self@));
                sentence
            },
        }
    }
}

} // verus!
