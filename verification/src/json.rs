//! JSON documents as plain data.

use crate::text::text_eq;
use vstd::prelude::*;

verus! {

/// Trusted: `serde_json::Value`, a parsed JSON document, which is turned
/// into a [`Json`] at once and never looked into here.
#[verifier::external_type_specification]
#[verifier::external_body]
pub struct ExValue(serde_json::Value);

/// A JSON value.
#[derive(Debug)]
pub enum Json {
    Null,
    Bool(bool),
    /// A number, as it is written.
    Number(String),
    Text(String),
    List(Vec<Json>),
    /// An object: its members by name, each name once.
    Object(Vec<Member>),
}

/// One member of a JSON object.
#[derive(Debug)]
pub struct Member {
    pub name: String,
    pub value: Json,
}

/// The document that a text holds, where it is well-formed JSON.
pub uninterp spec fn json_of(text: Seq<char>) -> Option<Json>;

/// Trusted: turns a `serde_json::Value` into a [`Json`], variant by variant;
/// the members of an object come in the order in which the value holds them.
#[verifier::external_body]
fn json_from(value: serde_json::Value) -> (r: Json) {
    match value {
        serde_json::Value::Null => Json::Null,
        serde_json::Value::Bool(b) => Json::Bool(b),
        serde_json::Value::Number(n) => Json::Number(n.to_string()),
        serde_json::Value::String(s) => Json::Text(s),
        serde_json::Value::Array(items) => Json::List(items.into_iter().map(json_from).collect()),
        serde_json::Value::Object(map) => Json::Object(
            map.into_iter().map(|(name, item)| Member { name, value: json_from(item) }).collect(),
        ),
    }
}

/// Trusted: calls `serde_json::from_str` for a `Value`, which parses the
/// text as one JSON document and fails on anything else.  What document a
/// text holds is only named here.
#[verifier::external_body]
pub(crate) fn read_json(text: &str) -> (r: Option<Json>)
    ensures
        r == json_of(text@),
{
    serde_json::from_str::<serde_json::Value>(text).ok().map(json_from)
}

/// The member `key` among `members`, from index `from` on: the first of
/// that name.
pub open spec fn member_from(members: Seq<Member>, key: Seq<char>, from: int) -> Option<Json>
    decreases members.len() - from,
{
    if from < 0 || from >= members.len() {
        None
    } else if members[from].name@ == key {
        Some(members[from].value)
    } else {
        member_from(members, key, from + 1)
    }
}

impl Json {
    /// The member `key` of an object; nothing of any other value.
    pub open spec fn member(self, key: Seq<char>) -> Option<Json> {
        match self {
            Json::Object(members) => member_from(members@, key, 0),
            _ => None,
        }
    }

    /// The text of a string; nothing of any other value.
    pub open spec fn text(self) -> Option<Seq<char>> {
        match self {
            Json::Text(s) => Some(s@),
            _ => None,
        }
    }

    /// The items of an array; nothing of any other value.
    pub open spec fn items(self) -> Option<Seq<Json>> {
        match self {
            Json::List(items) => Some(items@),
            _ => None,
        }
    }

    /// The text of the member `key`, or `default` where the value has no
    /// such member or it is no string.
    pub open spec fn text_of(self, key: Seq<char>, default: Seq<char>) -> Seq<char> {
        match self.member(key) {
            Some(Json::Text(s)) => s@,
            _ => default,
        }
    }

    /// Looks up the member `key` of an object.
    #[verifier::loop_isolation(false)]
    pub fn get(&self, key: &str) -> (r: Option<&Json>)
        ensures
            match r {
                Some(value) => self.member(key@) == Some(*value),
                None => self.member(key@) is None,
            },
    {
        match self {
            Json::Object(members) => {
                let mut i: usize = 0;
                while i < members.len()
                    invariant
                        i <= members@.len(),
                        member_from(members@, key@, i as int) == member_from(members@, key@, 0),
                    decreases members@.len() - i,
                {
                    if text_eq(members[i].name.as_str(), key) {
                        return Some(&members[i].value);
                    }
                    i = i + 1;
                }
                None
            },
            _ => None,
        }
    }

    /// The text of a string.
    pub fn as_str(&self) -> (r: Option<&str>)
        ensures
            match r {
                Some(s) => self.text() == Some(s@),
                None => self.text() is None,
            },
    {
        match self {
            Json::Text(s) => Some(s.as_str()),
            _ => None,
        }
    }

    /// The items of an array.
    pub fn as_array(&self) -> (r: Option<&Vec<Json>>)
        ensures
            match r {
                Some(items) => self.items() == Some(items@),
                None => self.items() is None,
            },
    {
        match self {
            Json::List(items) => Some(items),
            _ => None,
        }
    }

    /// The text of the member `key`, or `default`.
    pub fn text_or<'a>(&'a self, key: &str, default: &'a str) -> (r: &'a str)
        ensures
            r@ == self.text_of(key@, default@),
    {
        match self.get(key) {
            Some(value) => match value.as_str() {
                Some(s) => s,
                None => default,
            },
            None => default,
        }
    }
}

} // verus!
