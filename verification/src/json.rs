//! JSON documents, as far as the catalog fetcher reads them.
//!
//! `serde_json` does the parsing. What it hands back is copied into [`Json`],
//! a plain tree, so that the code which looks for the application list works
//! on data it can reason about.

use vstd::prelude::*;

verus! {

/// A JSON value.
#[derive(Debug, PartialEq, Eq)]
pub enum Json {
    Null,
    Bool(bool),
    /// A number. The payload is its value where the number is a non-negative
    /// integer that fits 64 bits, and `None` for every other number.
    Number(Option<u64>),
    Text(String),
    Array(Vec<Json>),
    /// An object: its members, each a name and a value.
    Object(Vec<(String, Json)>),
}

/// The value of the first member called `name`, if there is one.
pub open spec fn first_member(members: Seq<(String, Json)>, name: Seq<char>) -> Option<Json>
    decreases members.len(),
{
    if members.len() == 0 {
        None
    } else if members[0].0@ == name {
        Some(members[0].1)
    } else {
        first_member(members.drop_first(), name)
    }
}

impl Json {
    /// The member `name` of an object; `None` for a missing member and for
    /// anything that is not an object.
    pub open spec fn member(self, name: Seq<char>) -> Option<Json> {
        match self {
            Json::Object(members) => first_member(members@, name),
            _ => None,
        }
    }

    /// The items of an array; `None` for anything else.
    pub open spec fn items(self) -> Option<Seq<Json>> {
        match self {
            Json::Array(items) => Some(items@),
            _ => None,
        }
    }

    /// The value of a number that is a non-negative integer below 2^64;
    /// `None` for anything else.
    pub open spec fn unsigned(self) -> Option<u64> {
        match self {
            Json::Number(value) => value,
            _ => None,
        }
    }

    /// The characters of a string; `None` for anything else.
    pub open spec fn text(self) -> Option<Seq<char>> {
        match self {
            Json::Text(text) => Some(text@),
            _ => None,
        }
    }

    /// Looks up the member `name` of an object.
    pub fn get(&self, name: &str) -> (r: Option<&Json>)
        ensures
            match r {
                Some(value) => self.member(name@) == Some(*value),
                None => self.member(name@) is None,
            },
    {
        match self {
            Json::Object(members) => {
                let key = name.to_owned();
                let mut i: usize = 0;
                assert(members@.subrange(0, members.len() as int) == members@);
                while i < members.len()
                    invariant
                        i <= members.len(),
                        key@ == name@,
                        self.member(name@) == first_member(members@, name@),
                        first_member(members@, name@) == first_member(
                            members@.subrange(i as int, members.len() as int),
                            name@,
                        ),
                    decreases members.len() - i,
                {
                    let ghost rest = members@.subrange(i as int, members.len() as int);
                    assert(rest[0] == members@[i as int]);
                    assert(rest.drop_first() == members@.subrange(
                        i as int + 1,
                        members.len() as int,
                    ));
                    if members[i].0 == key {
                        assert(first_member(rest, name@) == Some(members@[i as int].1));
                        return Some(&members[i].1);
                    }
                    assert(first_member(rest, name@) == first_member(rest.drop_first(), name@));
                    i += 1;
                }
                None
            },
            _ => None,
        }
    }

    /// The items of an array.
    pub fn as_array(&self) -> (r: Option<&Vec<Json>>)
        ensures
            match r {
                Some(items) => self.items() == Some(items@),
                None => self.items() is None,
            },
    {
        match self {
            Json::Array(items) => Some(items),
            _ => None,
        }
    }

    /// The value of a number that is a non-negative integer below 2^64.
    pub fn as_u64(&self) -> (r: Option<u64>)
        ensures
            r == self.unsigned(),
    {
        match self {
            Json::Number(value) => *value,
            _ => None,
        }
    }

    /// The characters of a string.
    pub fn as_str(&self) -> (r: Option<&str>)
        ensures
            match r {
                Some(text) => self.text() == Some(text@),
                None => self.text() is None,
            },
    {
        match self {
            Json::Text(text) => Some(text.as_str()),
            _ => None,
        }
    }

    /// Parses a JSON document. The result is `None` exactly where the bytes
    /// are no JSON document.
    pub fn parse(bytes: &[u8]) -> (r: Option<Json>)
        ensures
            r == json_document(bytes@),
    {
        match parse_document(bytes) {
            Ok(document) => Some(document),
            Err(_) => None,
        }
    }
}

/// The document that `serde_json` reads from `bytes`, and `None` where it
/// rejects them.
pub uninterp spec fn json_document(bytes: Seq<u8>) -> Option<Json>;

/// `serde_json::Error`: why `serde_json` gave up. It is handed on and never
/// looked into.
#[verifier::external_type_specification]
#[verifier::external_body]
pub struct ExJsonError(serde_json::Error);

/// `serde_json::Value`: a JSON value as `serde_json` holds it. Nothing is
/// known of it here; [`Json`] is what the library reads.
#[verifier::external_type_specification]
#[verifier::external_body]
pub struct ExJsonValue(serde_json::Value);

/// Calls `serde_json::from_slice` for a `serde_json::Value` and copies the
/// value into a [`Json`].
///
/// Trusted: that the outcome depends on the bytes alone, which is all that
/// [`json_document`] stands for. Nothing is claimed about which bytes are
/// accepted or what they mean.
#[verifier::external_body]
fn parse_document(bytes: &[u8]) -> (r: Result<Json, serde_json::Error>)
    ensures
        match r {
            Ok(document) => json_document(bytes@) == Some(document),
            Err(_) => json_document(bytes@) is None,
        },
{
    serde_json::from_slice::<serde_json::Value>(bytes).map(json_of_value)
}

/// Copies a `serde_json::Value` into a [`Json`], variant by variant. Of a
/// number it keeps what `serde_json::Number::as_u64` returns.
///
/// Trusted as a whole; it has no contract.
#[verifier::external_body]
fn json_of_value(value: serde_json::Value) -> Json {
    match value {
        serde_json::Value::Null => Json::Null,
        serde_json::Value::Bool(flag) => Json::Bool(flag),
        serde_json::Value::Number(number) => Json::Number(number.as_u64()),
        serde_json::Value::String(text) => Json::Text(text),
        serde_json::Value::Array(items) => Json::Array(
            items.into_iter().map(json_of_value).collect(),
        ),
        serde_json::Value::Object(members) => Json::Object(
            members.into_iter().map(|(name, member)| (name, json_of_value(member))).collect(),
        ),
    }
}

} // verus!
