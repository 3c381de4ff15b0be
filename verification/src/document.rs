//! The structured document that a notification arrives as, and its mathematical model.

use vstd::prelude::*;

verus! {

/// The mathematical model of a document.
pub ghost enum Json {
    Null,
    Bool(bool),
    Number(u64),
    Raw(Seq<char>),
    Text(Seq<char>),
    List(Seq<Json>),
    Object(Seq<(Seq<char>, Json)>),
}

/// A structured document. An object keeps its members in the order in which
/// they were written; a member is found under the first entry that bears its key.
#[derive(Debug, PartialEq, Eq)]
pub enum Value {
    Null,
    Bool(bool),
    /// A number that is an unsigned integer.
    Number(u64),
    /// Any other number, kept as the text it was written as.
    Raw(String),
    Text(String),
    List(Vec<Value>),
    Object(Vec<(String, Value)>),
}

/// The model of a list of documents.
pub open spec fn items_view(items: Seq<Value>) -> Seq<Json>
    decreases items,
{
    Seq::new(items.len(), |i: int| if 0 <= i < items.len() { items[i]@ } else { Json::Null })
}

/// The model of the members of an object.
pub open spec fn entries_view(entries: Seq<(String, Value)>) -> Seq<(Seq<char>, Json)>
    decreases entries,
{
    Seq::new(
        entries.len(),
        |i: int| if 0 <= i < entries.len() { (entries[i].0@, entries[i].1@) } else { (Seq::empty(), Json::Null) },
    )
}

impl View for Value {
    type V = Json;

    open spec fn view(&self) -> Json
        decreases self,
    {
        match self {
            Value::Null => Json::Null,
            Value::Bool(b) => Json::Bool(*b),
            Value::Number(n) => Json::Number(*n),
            Value::Raw(s) => Json::Raw(s@),
            Value::Text(s) => Json::Text(s@),
            Value::List(items) => Json::List(items_view(items@)),
            Value::Object(entries) => Json::Object(entries_view(entries@)),
        }
    }
}

/// The value of the first member from position `from` on that bears `key`.
pub open spec fn member_from(members: Seq<(Seq<char>, Json)>, key: Seq<char>, from: int) -> Option<Json>
    decreases members.len() - from,
{
    if from < 0 || from >= members.len() {
        None
    } else if members[from].0 == key {
        Some(members[from].1)
    } else {
        member_from(members, key, from + 1)
    }
}

/// The value of the first member that bears `key`.
pub open spec fn member(members: Seq<(Seq<char>, Json)>, key: Seq<char>) -> Option<Json> {
    member_from(members, key, 0)
}

/// The member `key` of a document: absent where the document is no object.
pub open spec fn field(doc: Json, key: Seq<char>) -> Option<Json> {
    match doc {
        Json::Object(members) => member(members, key),
        _ => None,
    }
}

/// Finds the first entry that bears `key`.
pub fn find<'a>(entries: &'a Vec<(String, Value)>, key: &str) -> (found: Option<&'a Value>)
    ensures
        match found {
            Some(v) => member(entries_view(entries@), key@) == Some(v@),
            None => member(entries_view(entries@), key@).is_none(),
        },
{
    let wanted: String = key.to_owned();
    let mut i: usize = 0;
    while i < entries.len()
        invariant
            i <= entries.len(),
            wanted@ == key@,
            member(entries_view(entries@), key@) == member_from(entries_view(entries@), key@, i as int),
        decreases entries.len() - i,
    {
        if entries[i].0 == wanted {
            return Some(&entries[i].1);
        }
        i += 1;
    }
    None
}

impl Clone for Value {
    /// A copy that stands for the same document.
    fn clone(&self) -> (copy: Value)
        ensures
            copy@ == self@,
        decreases self,
    {
        match self {
            Value::Null => Value::Null,
            Value::Bool(b) => Value::Bool(*b),
            Value::Number(n) => Value::Number(*n),
            Value::Raw(s) => Value::Raw(s.clone()),
            Value::Text(s) => Value::Text(s.clone()),
            Value::List(items) => {
                let mut copies: Vec<Value> = Vec::new();
                let mut i: usize = 0;
                while i < items.len()
                    invariant
                        i <= items.len(),
                        copies@.len() == i,
                        *self == Value::List(*items),
                        forall|j: int| 0 <= j < i ==> copies@[j]@ == items@[j]@,
                    decreases items.len() - i,
                {
                    assert(decreases_to!(*self => self->List_0));
                    assert(decreases_to!(self->List_0 => items@));
                    assert(decreases_to!(items@ => items@[i as int]));
                    copies.push(items[i].clone());
                    i += 1;
                }
                assert(items_view(copies@) =~= items_view(items@));
                Value::List(copies)
            },
            Value::Object(entries) => {
                let mut copies: Vec<(String, Value)> = Vec::new();
                let mut i: usize = 0;
                while i < entries.len()
                    invariant
                        i <= entries.len(),
                        copies@.len() == i,
                        *self == Value::Object(*entries),
                        forall|j: int|
                            0 <= j < i ==> copies@[j].0@ == entries@[j].0@ && copies@[j].1@ == entries@[j].1@,
                    decreases entries.len() - i,
                {
                    assert(decreases_to!(*self => self->Object_0));
                    assert(decreases_to!(self->Object_0 => entries@));
                    assert(decreases_to!(entries@ => entries@[i as int]));
                    assert(decreases_to!(entries@[i as int] => entries@[i as int].1));
                    copies.push((entries[i].0.clone(), entries[i].1.clone()));
                    i += 1;
                }
                assert(entries_view(copies@) =~= entries_view(entries@));
                Value::Object(copies)
            },
        }
    }
}

impl Value {
    /// The member `key` of this document, if it is an object that has one.
    pub fn get(&self, key: &str) -> (found: Option<&Value>)
        ensures
            match found {
                Some(v) => field(self@, key@) == Some(v@),
                None => field(self@, key@).is_none(),
            },
    {
        match self {
            Value::Object(entries) => find(entries, key),
            _ => None,
        }
    }

    /// The members of this document, if it is an object.
    pub fn as_object(&self) -> (found: Option<&Vec<(String, Value)>>)
        ensures
            match found {
                Some(entries) => self@ == Json::Object(entries_view(entries@)),
                None => !(self@ is Object),
            },
    {
        match self {
            Value::Object(entries) => Some(entries),
            _ => None,
        }
    }

    /// An object with the given members.
    pub fn object(entries: Vec<(String, Value)>) -> (doc: Value)
        ensures
            doc@ == Json::Object(entries_view(entries@)),
    {
        Value::Object(entries)
    }

    /// A text with the given content.
    pub fn text(content: &str) -> (doc: Value)
        ensures
            doc@ == Json::Text(content@),
    {
        Value::Text(content.to_owned())
    }
}

} // verus!
