//! Reading the members of an object by name and by kind.

use vstd::prelude::*;
use crate::document::{Json, Value, entries_view, find, member, member_from};
use crate::error::{Details, Fault, Offence, Section};

verus! {

/// What is wrong with the member `key` of `section`.
pub open spec fn offence(section: Section, key: Seq<char>, fault: Fault) -> Offence {
    Offence { section, field: key, fault }
}

/// The member `key`, which must be present and a text.
pub open spec fn spec_text(
    members: Seq<(Seq<char>, Json)>,
    section: Section,
    key: Seq<char>,
) -> Result<Seq<char>, Offence> {
    match member(members, key) {
        None => Err(offence(section, key, Fault::Missing)),
        Some(Json::Text(content)) => Ok(content),
        Some(_) => Err(offence(section, key, Fault::Mistyped)),
    }
}

/// The member `key`, which must be present and an unsigned integer. No range is asked of it.
pub open spec fn spec_number(
    members: Seq<(Seq<char>, Json)>,
    section: Section,
    key: Seq<char>,
) -> Result<u64, Offence> {
    match member(members, key) {
        None => Err(offence(section, key, Fault::Missing)),
        Some(Json::Number(n)) => Ok(n),
        Some(_) => Err(offence(section, key, Fault::Mistyped)),
    }
}

/// The member `key`, which may be absent or null, and is a text otherwise.
pub open spec fn spec_optional_text(
    members: Seq<(Seq<char>, Json)>,
    section: Section,
    key: Seq<char>,
) -> Result<Option<Seq<char>>, Offence> {
    match member(members, key) {
        None => Ok(None),
        Some(Json::Null) => Ok(None),
        Some(Json::Text(content)) => Ok(Some(content)),
        Some(_) => Err(offence(section, key, Fault::Mistyped)),
    }
}

/// The members of the member `key`, which must be present and an object.
pub open spec fn spec_object(
    members: Seq<(Seq<char>, Json)>,
    section: Section,
    key: Seq<char>,
) -> Result<Seq<(Seq<char>, Json)>, Offence> {
    match member(members, key) {
        None => Err(offence(section, key, Fault::Missing)),
        Some(Json::Object(inner)) => Ok(inner),
        Some(_) => Err(offence(section, key, Fault::Mistyped)),
    }
}

/// The key of the first member from position `from` on that is not among `known`.
pub open spec fn unexpected_from(
    members: Seq<(Seq<char>, Json)>,
    known: Seq<Seq<char>>,
    from: int,
) -> Option<Seq<char>>
    decreases members.len() - from,
{
    if from < 0 || from >= members.len() {
        None
    } else if !known.contains(members[from].0) {
        Some(members[from].0)
    } else {
        unexpected_from(members, known, from + 1)
    }
}

/// What the unknown-field policy finds in an object: nothing where unknown
/// fields are ignored, and the first member that is not among `known` where
/// they are refused.
pub open spec fn spec_policy(
    members: Seq<(Seq<char>, Json)>,
    section: Section,
    known: Seq<Seq<char>>,
    strict: bool,
) -> Option<Offence> {
    if strict {
        match unexpected_from(members, known, 0) {
            Some(key) => Some(offence(section, key, Fault::Unexpected)),
            None => None,
        }
    } else {
        None
    }
}

/// Reads the member `key`, which must be present and a text.
pub fn text(entries: &Vec<(String, Value)>, section: Section, key: &str) -> (r: Result<String, Details>)
    ensures
        match r {
            Ok(content) => spec_text(entries_view(entries@), section, key@) == Ok::<Seq<char>, Offence>(
                content@,
            ),
            Err(details) => spec_text(entries_view(entries@), section, key@) == Err::<Seq<char>, Offence>(
                details@,
            ),
        },
{
    match find(entries, key) {
        None => Err(Details::new(section, key, Fault::Missing)),
        Some(Value::Text(content)) => Ok(content.clone()),
        Some(_) => Err(Details::new(section, key, Fault::Mistyped)),
    }
}

/// Reads the member `key`, which must be present and an unsigned integer.
pub fn number(entries: &Vec<(String, Value)>, section: Section, key: &str) -> (r: Result<u64, Details>)
    ensures
        match r {
            Ok(n) => spec_number(entries_view(entries@), section, key@) == Ok::<u64, Offence>(n),
            Err(details) => spec_number(entries_view(entries@), section, key@) == Err::<u64, Offence>(
                details@,
            ),
        },
{
    match find(entries, key) {
        None => Err(Details::new(section, key, Fault::Missing)),
        Some(Value::Number(n)) => Ok(*n),
        Some(_) => Err(Details::new(section, key, Fault::Mistyped)),
    }
}

/// Reads the member `key`, which may be absent or null, and is a text otherwise.
pub fn optional_text(entries: &Vec<(String, Value)>, section: Section, key: &str) -> (r: Result<
    Option<String>,
    Details,
>)
    ensures
        match r {
            Ok(Some(content)) => spec_optional_text(entries_view(entries@), section, key@) == Ok::<
                Option<Seq<char>>,
                Offence,
            >(Some(content@)),
            Ok(None) => spec_optional_text(entries_view(entries@), section, key@) == Ok::<
                Option<Seq<char>>,
                Offence,
            >(None),
            Err(details) => spec_optional_text(entries_view(entries@), section, key@) == Err::<
                Option<Seq<char>>,
                Offence,
            >(details@),
        },
{
    match find(entries, key) {
        None => Ok(None),
        Some(Value::Null) => Ok(None),
        Some(Value::Text(content)) => Ok(Some(content.clone())),
        Some(_) => Err(Details::new(section, key, Fault::Mistyped)),
    }
}

/// Reads the member `key`, which must be present and an object.
pub fn object<'a>(entries: &'a Vec<(String, Value)>, section: Section, key: &str) -> (r: Result<
    &'a Vec<(String, Value)>,
    Details,
>)
    ensures
        match r {
            Ok(inner) => spec_object(entries_view(entries@), section, key@) == Ok::<
                Seq<(Seq<char>, Json)>,
                Offence,
            >(entries_view(inner@)),
            Err(details) => spec_object(entries_view(entries@), section, key@) == Err::<
                Seq<(Seq<char>, Json)>,
                Offence,
            >(details@),
        },
{
    match find(entries, key) {
        None => Err(Details::new(section, key, Fault::Missing)),
        Some(Value::Object(inner)) => Ok(inner),
        Some(_) => Err(Details::new(section, key, Fault::Mistyped)),
    }
}

/// The names that a list of field names stands for.
pub open spec fn names_view(names: Seq<&'static str>) -> Seq<Seq<char>> {
    Seq::new(names.len(), |i: int| names[i]@)
}

/// Whether `key` is one of `known`.
pub fn is_known(key: &String, known: &Vec<&'static str>) -> (yes: bool)
    ensures
        yes == names_view(known@).contains(key@),
{
    let mut j: usize = 0;
    while j < known.len()
        invariant
            j <= known.len(),
            forall|k: int| 0 <= k < j ==> names_view(known@)[k] != key@,
        decreases known.len() - j,
    {
        let name: String = known[j].to_owned();
        if *key == name {
            assert(names_view(known@)[j as int] == key@);
            return true;
        }
        j += 1;
    }
    false
}

/// Applies the unknown-field policy to an object.
pub fn policy(
    entries: &Vec<(String, Value)>,
    section: Section,
    known: &Vec<&'static str>,
    strict: bool,
) -> (r: Result<(), Details>)
    ensures
        r is Ok ==> spec_policy(entries_view(entries@), section, names_view(known@), strict).is_none(),
        r matches Err(details) ==> spec_policy(entries_view(entries@), section, names_view(known@), strict)
            == Some(details@),
{
    if !strict {
        return Ok(());
    }
    let mut i: usize = 0;
    while i < entries.len()
        invariant
            i <= entries.len(),
            strict,
            unexpected_from(entries_view(entries@), names_view(known@), 0) == unexpected_from(
                entries_view(entries@),
                names_view(known@),
                i as int,
            ),
        decreases entries.len() - i,
    {
        if !is_known(&entries[i].0, known) {
            assert(entries_view(entries@)[i as int].0 == entries[i as int].0@);
            return Err(Details::new(section, entries[i].0.as_str(), Fault::Unexpected));
        }
        i += 1;
    }
    Ok(())
}

/// The member at position `at` is the one found under its key where no earlier member bears that key.
pub proof fn member_found_at(members: Seq<(Seq<char>, Json)>, key: Seq<char>, from: int, at: int)
    requires
        0 <= from <= at < members.len(),
        members[at].0 == key,
        forall|i: int| from <= i < at ==> (#[trigger] members[i]).0 != key,
    ensures
        member_from(members, key, from) == Some(members[at].1),
    decreases at - from,
{
    if from < at {
        member_found_at(members, key, from + 1, at);
    }
}

/// Where every member is among `known`, none is unexpected.
pub proof fn none_unexpected(members: Seq<(Seq<char>, Json)>, known: Seq<Seq<char>>, from: int)
    requires
        0 <= from,
        forall|i: int| from <= i < members.len() ==> known.contains((#[trigger] members[i]).0),
    ensures
        unexpected_from(members, known, from).is_none(),
    decreases members.len() - from,
{
    if from < members.len() {
        none_unexpected(members, known, from + 1);
    }
}

/// A member that is not among `known` makes the first unexpected one exist.
pub proof fn some_unexpected(members: Seq<(Seq<char>, Json)>, known: Seq<Seq<char>>, from: int, at: int)
    requires
        0 <= from <= at < members.len(),
        !known.contains(members[at].0),
    ensures
        unexpected_from(members, known, from).is_some(),
    decreases at - from,
{
    if from < at && known.contains(members[from].0) {
        some_unexpected(members, known, from + 1, at);
    }
}

} // verus!
