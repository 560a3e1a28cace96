//! A JSON document as plain data, and the reading of one from text.

use vstd::prelude::*;
use vstd::string::*;

verus! {

/// A JSON value. An object keeps its members as a list of key and value;
/// a number carries nothing, since no rule here reads one.
#[derive(Debug, PartialEq)]
pub enum Json {
    Null,
    Bool(bool),
    Number,
    Text(String),
    Array(Vec<Json>),
    Object(Vec<(String, Json)>),
}

/// The value of the first member of `members` whose key is `key`.
pub open spec fn lookup(members: Seq<(String, Json)>, key: Seq<char>) -> Option<Json>
    decreases members.len(),
{
    if members.len() == 0 {
        None
    } else if members[0].0@ == key {
        Some(members[0].1)
    } else {
        lookup(members.skip(1), key)
    }
}

impl Json {
    /// The member `key` of an object; `None` for what is no object or has
    /// no such member.
    pub open spec fn member_spec(self, key: Seq<char>) -> Option<Json> {
        match self {
            Json::Object(members) => lookup(members@, key),
            _ => None,
        }
    }

    /// The elements of an array; `None` for what is no array.
    pub open spec fn elements_spec(self) -> Option<Seq<Json>> {
        match self {
            Json::Array(elements) => Some(elements@),
            _ => None,
        }
    }

    /// The characters of a string value; `None` for what is no string.
    pub open spec fn text_spec(self) -> Option<Seq<char>> {
        match self {
            Json::Text(s) => Some(s@),
            _ => None,
        }
    }

    /// Looks a member of an object up by its key.
    pub fn member(&self, key: &str) -> (found: Option<&Json>)
        ensures
            (found is Some) == (self.member_spec(key@) is Some),
            found is Some ==> *found.unwrap() == self.member_spec(key@).unwrap(),
    {
        match self {
            Json::Object(members) => {
                let wanted: String = String::from_str(key);
                let mut i: usize = 0;
                assert(members@.skip(0) =~= members@);
                while i < members.len()
                    invariant
                        i <= members.len(),
                        wanted@ == key@,
                        self.member_spec(key@) == lookup(members@, key@),
                        lookup(members@, key@) == lookup(members@.skip(i as int), key@),
                    decreases members.len() - i,
                {
                    let rest = Ghost(members@.skip(i as int));
                    let entry: &(String, Json) = &members[i];
                    if entry.0 == wanted {
                        assert(rest@[0] == *entry);
                        assert(lookup(rest@, key@) == Some(rest@[0].1));
                        return Some(&entry.1);
                    }
                    assert(rest@[0] == members@[i as int]);
                    assert(rest@.skip(1) =~= members@.skip(i + 1));
                    i += 1;
                }
                None
            },
            _ => None,
        }
    }

    /// The elements of an array.
    pub fn elements(&self) -> (found: Option<&Vec<Json>>)
        ensures
            (found is Some) == (self.elements_spec() is Some),
            found is Some ==> found.unwrap()@ == self.elements_spec().unwrap(),
    {
        match self {
            Json::Array(elements) => Some(elements),
            _ => None,
        }
    }

    /// The characters of a string value.
    pub fn text(&self) -> (found: Option<&String>)
        ensures
            (found is Some) == (self.text_spec() is Some),
            found is Some ==> found.unwrap()@ == self.text_spec().unwrap(),
    {
        match self {
            Json::Text(s) => Some(s),
            _ => None,
        }
    }
}

#[verifier::external_type_specification]
#[verifier::external_body]
pub struct ExValue(serde_json::Value);

/// The value that the JSON reader makes of a text, if it accepts the text.
pub uninterp spec fn value_of_text(text: Seq<char>) -> Option<serde_json::Value>;

/// What a value of the JSON reader holds, as plain data.
pub uninterp spec fn json_of_value(value: serde_json::Value) -> Json;

/// Trusted: `serde_json::from_str` at the type `serde_json::Value`. What it
/// returns depends on the text alone; the contract gives the accepted value
/// its name and says nothing of which texts are accepted.
#[verifier::external_body]
fn value_from_text(text: &str) -> (value: Option<serde_json::Value>)
    ensures
        value == value_of_text(text@),
{
    match serde_json::from_str::<serde_json::Value>(text) {
        Ok(v) => Some(v),
        Err(_) => None,
    }
}

/// Trusted: the variants of `serde_json::Value`, carried over one for one.
/// An array keeps its elements in order; an object hands its members out as
/// `serde_json::Map`'s `into_iter` yields them, each key once; a number's
/// payload is left behind.
#[verifier::external_body]
fn json_from_value(value: serde_json::Value) -> (json: Json)
    ensures
        json == json_of_value(value),
{
    match value {
        serde_json::Value::Null => Json::Null,
        serde_json::Value::Bool(b) => Json::Bool(b),
        serde_json::Value::Number(_) => Json::Number,
        serde_json::Value::String(s) => Json::Text(s),
        serde_json::Value::Array(a) => Json::Array(a.into_iter().map(json_from_value).collect()),
        serde_json::Value::Object(m) => Json::Object(
            m.into_iter().map(|(k, v)| (k, json_from_value(v))).collect(),
        ),
    }
}

/// The document that a text denotes; `None` where the text is not JSON.
pub open spec fn json_of_text(text: Seq<char>) -> Option<Json> {
    match value_of_text(text) {
        Some(value) => Some(json_of_value(value)),
        None => None,
    }
}

/// Reads a text as a JSON document.
pub fn parse_json(text: &str) -> (doc: Option<Json>)
    ensures
        doc == json_of_text(text@),
{
    match value_from_text(text) {
        Some(value) => Some(json_from_value(value)),
        None => None,
    }
}

} // verus!
