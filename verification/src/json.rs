//! JSON documents as `serde_json` holds them, and the mathematical model
//! over which the rest of the library states its contracts.

use vstd::prelude::*;

verus! {

/// A JSON number: an integer, or a finite double given by its IEEE-754 bits.
pub enum NumberModel {
    Integer(int),
    Float(u64),
}

/// The mathematical content of a JSON document.
pub enum JsonModel {
    Null,
    Bool(bool),
    Number(NumberModel),
    Str(Seq<char>),
    Array(Seq<JsonModel>),
    Object(Map<Seq<char>, JsonModel>),
}

/// `serde_json::Value`, carried through as it is.
#[verifier::external_type_specification]
#[verifier::external_body]
pub struct ExValue(serde_json::Value);

/// `serde_json::Error`, carried through as it is.
#[verifier::external_type_specification]
#[verifier::external_body]
pub struct ExJsonError(serde_json::Error);

/// `serde_json::Map`, carried through as it is.
#[verifier::external_type_specification]
#[verifier::external_body]
#[verifier::reject_recursive_types(K)]
#[verifier::reject_recursive_types(V)]
pub struct ExJsonMap<K, V>(serde_json::Map<K, V>);

/// What a `serde_json::Value` holds.
pub uninterp spec fn json_model(v: serde_json::Value) -> JsonModel;

/// The members that a `serde_json::Map` holds, by key.
pub uninterp spec fn object_model(m: serde_json::Map<String, serde_json::Value>) -> Map<Seq<char>, JsonModel>;

/// The document that `serde_json::from_str` reads from a text, or `None`
/// where it reports an error.
pub uninterp spec fn parsed_json(text: Seq<char>) -> Option<JsonModel>;

impl JsonModel {
    /// The member stored under `key`; `Null` when `self` is no object or
    /// has no such member.
    pub open spec fn member(self, key: Seq<char>) -> JsonModel {
        match self {
            JsonModel::Object(m) => if m.contains_key(key) { m[key] } else { JsonModel::Null },
            _ => JsonModel::Null,
        }
    }

    /// Whether `self` is the string `s`.
    pub open spec fn is_string(self, s: Seq<char>) -> bool {
        self == JsonModel::Str(s)
    }
}

/// `serde_json::from_str`, reading a whole `Value`: the outcome depends on
/// the text alone, and a returned value holds the document read.
#[verifier::external_body]
pub(crate) fn parse_document(text: &str) -> (r: Result<serde_json::Value, serde_json::Error>)
    ensures
        match r {
            Ok(v) => parsed_json(text@) == Some(json_model(v)),
            Err(_) => parsed_json(text@) is None,
        },
{
    serde_json::from_str::<serde_json::Value>(text)
}

/// `serde_json::Value::get` with a string index: the member of an object
/// under that key, `None` for a missing key and for anything but an object.
#[verifier::external_body]
pub(crate) fn member<'a>(v: &'a serde_json::Value, key: &str) -> (r: Option<&'a serde_json::Value>)
    ensures
        match r {
            Some(x) => json_model(*v) matches JsonModel::Object(m) && m.contains_key(key@) && m[key@] == json_model(*x),
            None => !(json_model(*v) matches JsonModel::Object(m) && m.contains_key(key@)),
        },
{
    v.get(key)
}

/// `serde_json::Value::as_str`: the text of a string value, `None` for any
/// other value.
#[verifier::external_body]
pub(crate) fn string_of<'a>(v: &'a serde_json::Value) -> (r: Option<&'a str>)
    ensures
        match r {
            Some(s) => json_model(*v) == JsonModel::Str(s@),
            None => !(json_model(*v) is Str),
        },
{
    v.as_str()
}

/// `serde_json::Value::as_array`: the elements of an array value, `None`
/// for any other value.
#[verifier::external_body]
pub(crate) fn elements_of<'a>(v: &'a serde_json::Value) -> (r: Option<&'a Vec<serde_json::Value>>)
    ensures
        match r {
            Some(a) => json_model(*v) == JsonModel::Array(Seq::new(a@.len(), |i: int| json_model(a@[i]))),
            None => !(json_model(*v) is Array),
        },
{
    v.as_array()
}

/// `serde_json::Value::as_object`: the members of an object value, `None`
/// for any other value.
#[verifier::external_body]
pub(crate) fn members_of<'a>(v: &'a serde_json::Value) -> (r: Option<&'a serde_json::Map<String, serde_json::Value>>)
    ensures
        match r {
            Some(m) => json_model(*v) == JsonModel::Object(object_model(*m)),
            None => !(json_model(*v) is Object),
        },
{
    v.as_object()
}

/// The members of an empty object.
pub open spec fn no_fields() -> Map<Seq<char>, JsonModel> {
    Map::empty()
}

/// `serde_json::Map::new`: a map without members.
#[verifier::external_body]
pub(crate) fn no_members() -> (r: serde_json::Map<String, serde_json::Value>)
    ensures
        object_model(r) == no_fields(),
{
    serde_json::Map::new()
}

/// `Clone` for `serde_json::Map`: the copy holds the same members.
#[verifier::external_body]
pub(crate) fn clone_members(m: &serde_json::Map<String, serde_json::Value>) -> (r: serde_json::Map<String, serde_json::Value>)
    ensures
        object_model(r) == object_model(*m),
{
    m.clone()
}

/// `serde_json::Map::insert`: the member under `key` becomes `value`,
/// whether or not the key was present; the other members stay.
#[verifier::external_body]
pub(crate) fn insert_member(m: &mut serde_json::Map<String, serde_json::Value>, key: String, value: serde_json::Value)
    ensures
        object_model(*final(m)) == object_model(*old(m)).insert(key@, json_model(value)),
{
    m.insert(key, value);
}

/// `From<i64>` for `serde_json::Value`: the integer as a JSON number.
#[verifier::external_body]
pub(crate) fn integer_value(n: i64) -> (r: serde_json::Value)
    ensures
        json_model(r) == JsonModel::Number(NumberModel::Integer(n as int)),
{
    serde_json::Value::from(n)
}

} // verus!
