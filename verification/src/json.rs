//! Decoded JSON documents.
//!
//! `serde_json` does the decoding and owns the decoded value. What such a value
//! holds is described here by [`Json`], a mathematical tree, and every accessor
//! of `serde_json` that the library calls is given a contract over that tree.
//! Those contracts are believed, not proved; everything built on them is
//! proved.

use crate::message::opt_text;
use crate::text::same;
use serde_json::Value;
use vstd::prelude::*;

verus! {

/// A number of a JSON document.
pub struct Numeral {
    /// Its value where it was written as an integer between `i64::MIN` and
    /// `u64::MAX`; `None` for every other number.
    pub integer: Option<int>,
    /// The number as a float, printed with its sign in front.
    pub signed: Seq<char>,
}

/// What a decoded JSON value holds.
pub enum Json {
    Null,
    Bool(bool),
    Number(Numeral),
    Text(Seq<char>),
    Array(Seq<Json>),
    Object(Map<Seq<char>, Json>),
}

impl Json {
    /// The member `key` of an object; `Null` where `self` is no object or has
    /// no such member.
    pub open spec fn at(self, key: Seq<char>) -> Json {
        match self {
            Json::Object(members) => if members.contains_key(key) {
                members[key]
            } else {
                Json::Null
            },
            _ => Json::Null,
        }
    }

    /// The elements of an array, `None` for anything else.
    pub open spec fn as_array(self) -> Option<Seq<Json>> {
        match self {
            Json::Array(items) => Some(items),
            _ => None,
        }
    }

    /// The characters of a string, `None` for anything else.
    pub open spec fn as_str(self) -> Option<Seq<char>> {
        match self {
            Json::Text(t) => Some(t),
            _ => None,
        }
    }

    /// A boolean's value, `None` for anything else.
    pub open spec fn as_bool(self) -> Option<bool> {
        match self {
            Json::Bool(b) => Some(b),
            _ => None,
        }
    }

    /// An integer that fits `i64`, `None` for anything else.
    pub open spec fn as_i64(self) -> Option<i64> {
        match self {
            Json::Number(Numeral { integer: Some(n), .. }) => if i64::MIN <= n <= i64::MAX {
                Some(n as i64)
            } else {
                None
            },
            _ => None,
        }
    }

    /// An integer that fits `u64`, `None` for anything else.
    pub open spec fn as_u64(self) -> Option<u64> {
        match self {
            Json::Number(Numeral { integer: Some(n), .. }) => if 0 <= n <= u64::MAX {
                Some(n as u64)
            } else {
                None
            },
            _ => None,
        }
    }

    /// A number as a float printed with its sign, `None` for anything else.
    pub open spec fn as_signed(self) -> Option<Seq<char>> {
        match self {
            Json::Number(n) => Some(n.signed),
            _ => None,
        }
    }
}

/// `serde_json::Value`, a decoded JSON value. Nothing inside it is seen here;
/// it is read through the accessors below.
#[verifier::external_type_specification]
#[verifier::external_body]
pub struct ExValue(serde_json::Value);

/// `serde_json::Error`, why a text was rejected. It is handed through and
/// never read.
#[verifier::external_type_specification]
#[verifier::external_body]
pub struct ExError(serde_json::Error);

/// What the decoded value `v` holds.
pub uninterp spec fn json_of(v: Value) -> Json;

/// What `serde_json::from_str` makes of `text`: the decoded document, or
/// `None` where it rejects the text.
pub uninterp spec fn decoded(text: Seq<char>) -> Option<Json>;

/// `serde_json::from_str`, asked for a `Value`. Believed: the outcome is a
/// function of the text alone, and the value it returns holds what
/// [`decoded`] names.
#[verifier::external_body]
pub(crate) fn from_str(text: &str) -> (r: Result<Value, serde_json::Error>)
    ensures
        r is Ok <==> decoded(text@) is Some,
        r is Ok ==> Some(json_of(r->Ok_0)) == decoded(text@),
{
    serde_json::from_str::<Value>(text)
}

/// `Value::get` with a string key. Believed: it finds the member of that name
/// in an object, and nothing in any other value.
#[verifier::external_body]
pub(crate) fn get<'a>(v: &'a Value, key: &str) -> (r: Option<&'a Value>)
    ensures
        r is Some <==> (json_of(*v) is Object && json_of(*v)->Object_0.contains_key(key@)),
        r is Some ==> json_of(*r->Some_0) == json_of(*v)->Object_0[key@],
{
    v.get(key)
}

/// `Value::as_array`. Believed: an array hands out its elements, in order,
/// and no other value hands out anything.
#[verifier::external_body]
pub(crate) fn as_array<'a>(v: &'a Value) -> (r: Option<&'a Vec<Value>>)
    ensures
        r is Some <==> json_of(*v) is Array,
        r is Some ==> r->Some_0@.len() == json_of(*v)->Array_0.len(),
        r is Some ==> forall|i: int|
            0 <= i < r->Some_0@.len() ==> json_of(#[trigger] r->Some_0@[i]) == json_of(
                *v,
            )->Array_0[i],
{
    v.as_array()
}

/// `Value::as_str`. Believed: a string hands out its characters, and no other
/// value hands out anything.
#[verifier::external_body]
pub(crate) fn as_str<'a>(v: &'a Value) -> (r: Option<&'a str>)
    ensures
        r is Some <==> json_of(*v) is Text,
        r is Some ==> r->Some_0@ == json_of(*v)->Text_0,
{
    v.as_str()
}

/// `Value::as_bool`. Believed: a boolean hands out its value, and no other
/// value hands out anything.
#[verifier::external_body]
pub(crate) fn as_bool(v: &Value) -> (r: Option<bool>)
    ensures
        r == json_of(*v).as_bool(),
{
    v.as_bool()
}

/// `Value::as_i64`. Believed: a number written as an integer that fits `i64`
/// hands out that integer, and no other value hands out anything.
#[verifier::external_body]
pub(crate) fn as_i64(v: &Value) -> (r: Option<i64>)
    ensures
        r == json_of(*v).as_i64(),
{
    v.as_i64()
}

/// `Value::as_u64`. Believed: a number written as an integer that fits `u64`
/// hands out that integer, and no other value hands out anything.
#[verifier::external_body]
pub(crate) fn as_u64(v: &Value) -> (r: Option<u64>)
    ensures
        r == json_of(*v).as_u64(),
{
    v.as_u64()
}

/// `Value::as_f64`, with the float printed at once, sign in front. Believed:
/// every number, and nothing else, has such a float; the text starts with `+`
/// or `-` and at least one character follows.
#[verifier::external_body]
pub(crate) fn as_signed(v: &Value) -> (r: Option<String>)
    ensures
        r is Some <==> json_of(*v) is Number,
        r is Some ==> r->Some_0@ == json_of(*v)->Number_0.signed,
        r is Some ==> r->Some_0@.len() >= 2 && (r->Some_0@[0] == '+' || r->Some_0@[0] == '-'),
{
    v.as_f64().map(|x| format!("{:+}", x))
}

/// What stands at a place of a document that may be missing: a missing place
/// reads as `Null`.
pub open spec fn model(place: Option<&Value>) -> Json {
    match place {
        Some(v) => json_of(*v),
        None => Json::Null,
    }
}

/// Why the text of a response could not be used.
#[derive(Clone, Copy, PartialEq, Eq, Structural, Debug)]
pub enum DecodeError {
    /// The text is no JSON document.
    Malformed,
}

impl DecodeError {
    /// The error in words.
    pub open spec fn text(self) -> Seq<char> {
        match self {
            DecodeError::Malformed => "Could not decode the response"@,
        }
    }

    /// The error in words, for a log.
    pub fn message(&self) -> (r: &'static str)
        ensures
            r@ == self.text(),
    {
        match self {
            DecodeError::Malformed => "Could not decode the response",
        }
    }
}

/// A decoded response.
#[derive(Debug, PartialEq, Eq)]
pub struct Document {
    value: Value,
}

impl View for Document {
    type V = Json;

    closed spec fn view(&self) -> Json {
        json_of(self.value)
    }
}

impl Document {
    /// Decodes the text of a response. It succeeds exactly on the texts that
    /// `serde_json` accepts.
    pub fn decode(text: &str) -> (r: Result<Document, DecodeError>)
        ensures
            r is Ok <==> decoded(text@) is Some,
            r is Ok ==> Some(r->Ok_0@) == decoded(text@),
            r is Err ==> r->Err_0 == DecodeError::Malformed,
    {
        match from_str(text) {
            Ok(value) => Ok(Document { value }),
            Err(_) => Err(DecodeError::Malformed),
        }
    }

    /// The top of the document.
    pub fn root(&self) -> (r: Option<&Value>)
        ensures
            model(r) == self@,
    {
        Some(&self.value)
    }
}

/// The member `key` of the object at `place`.
pub fn member<'a>(place: Option<&'a Value>, key: &str) -> (r: Option<&'a Value>)
    ensures
        model(r) == model(place).at(key@),
{
    match place {
        Some(v) => get(v, key),
        None => None,
    }
}

/// The elements of the array at `place`.
pub fn items_of<'a>(place: Option<&'a Value>) -> (r: Option<&'a Vec<Value>>)
    ensures
        r is Some <==> model(place).as_array() is Some,
        r is Some ==> r->Some_0@.len() == model(place).as_array()->Some_0.len(),
        r is Some ==> forall|i: int|
            0 <= i < r->Some_0@.len() ==> json_of(#[trigger] r->Some_0@[i]) == model(
                place,
            ).as_array()->Some_0[i],
{
    match place {
        Some(v) => as_array(v),
        None => None,
    }
}

/// The string at `place`.
pub fn text_of(place: Option<&Value>) -> (r: Option<String>)
    ensures
        opt_text(r) == model(place).as_str(),
{
    match place {
        Some(v) => match as_str(v) {
            Some(t) => Some(t.to_owned()),
            None => None,
        },
        None => None,
    }
}

/// Whether the string `expected` stands at `place`.
pub fn text_is(place: Option<&Value>, expected: &str) -> (r: bool)
    ensures
        r == (model(place).as_str() == Some(expected@)),
{
    match place {
        Some(v) => match as_str(v) {
            Some(t) => same(t, expected),
            None => false,
        },
        None => false,
    }
}

/// The integer at `place`, where it fits `i64`.
pub fn int_of(place: Option<&Value>) -> (r: Option<i64>)
    ensures
        r == model(place).as_i64(),
{
    match place {
        Some(v) => as_i64(v),
        None => None,
    }
}

/// The integer at `place`, where it fits `u64`.
pub fn uint_of(place: Option<&Value>) -> (r: Option<u64>)
    ensures
        r == model(place).as_u64(),
{
    match place {
        Some(v) => as_u64(v),
        None => None,
    }
}

/// The boolean at `place`.
pub fn bool_of(place: Option<&Value>) -> (r: Option<bool>)
    ensures
        r == model(place).as_bool(),
{
    match place {
        Some(v) => as_bool(v),
        None => None,
    }
}

/// The number at `place` as a float, printed with its sign in front.
pub fn signed_of(place: Option<&Value>) -> (r: Option<String>)
    ensures
        opt_text(r) == model(place).as_signed(),
        r is Some ==> r->Some_0@.len() >= 2 && (r->Some_0@[0] == '+' || r->Some_0@[0] == '-'),
{
    match place {
        Some(v) => as_signed(v),
        None => None,
    }
}

} // verus!
