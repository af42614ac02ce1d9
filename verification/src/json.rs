//! The decoded tree: `serde_json::Value` as Verus sees it.
//!
//! The value is opaque to the verifier. Its mathematical content is the
//! [`Json`] tree named by [`json_shape`]; the accessors at the end of this
//! file are believed to read that tree as their contracts say.

use vstd::prelude::*;

verus! {

/// What the three numeric accessors of a JSON number return.
pub struct Numeric {
    /// The number as a signed 64-bit integer, where it is one.
    pub signed: Option<i64>,
    /// The number as an unsigned 64-bit integer, where it is one.
    pub unsigned: Option<u64>,
    /// The IEEE 754 bit pattern of the number as a 64-bit float.
    pub float_bits: Option<u64>,
}

/// The mathematical content of a decoded value.
pub enum Json {
    Null,
    Bool(bool),
    Number(Numeric),
    Text(Seq<char>),
    Array(Seq<Json>),
    /// The keys of an object and, index by index, their values, in the order
    /// in which the object is walked.
    Object(Seq<Seq<char>>, Seq<Json>),
}

/// The variant of a decoded value.
#[derive(Clone, Copy, PartialEq, Eq, Structural, Debug)]
pub enum JsonKind {
    Null,
    Bool,
    Number,
    Text,
    Array,
    Object,
}

#[verifier::external_type_specification]
#[verifier::external_body]
pub struct ExJsonValue(serde_json::Value);

/// The tree that a `serde_json::Value` holds.
pub uninterp spec fn json_shape(value: serde_json::Value) -> Json;

/// The variant of a tree.
pub open spec fn kind_of(shape: Json) -> JsonKind {
    match shape {
        Json::Null => JsonKind::Null,
        Json::Bool(_) => JsonKind::Bool,
        Json::Number(_) => JsonKind::Number,
        Json::Text(_) => JsonKind::Text,
        Json::Array(_) => JsonKind::Array,
        Json::Object(_, _) => JsonKind::Object,
    }
}

/// The trees of a sequence of values.
pub open spec fn shapes(items: Seq<serde_json::Value>) -> Seq<Json> {
    Seq::new(items.len(), |i: int| json_shape(items[i]))
}

/// The trees of a sequence of borrowed values.
pub open spec fn shapes_of_refs(items: Seq<&serde_json::Value>) -> Seq<Json> {
    Seq::new(items.len(), |i: int| json_shape(*items[i]))
}

/// The character sequences of a sequence of strings.
pub open spec fn texts(keys: Seq<String>) -> Seq<Seq<char>> {
    Seq::new(keys.len(), |i: int| keys[i]@)
}

/// `serde_json::Value::is_object`: true exactly for an object.
#[verifier::external_body]
pub(crate) fn json_is_object(value: &serde_json::Value) -> (r: bool)
    ensures
        r == (json_shape(*value) is Object),
{
    value.is_object()
}

/// Tells the six variants of `serde_json::Value` apart.
#[verifier::external_body]
pub(crate) fn json_kind(value: &serde_json::Value) -> (kind: JsonKind)
    ensures
        kind == kind_of(json_shape(*value)),
{
    match value {
        serde_json::Value::Null => JsonKind::Null,
        serde_json::Value::Bool(_) => JsonKind::Bool,
        serde_json::Value::Number(_) => JsonKind::Number,
        serde_json::Value::String(_) => JsonKind::Text,
        serde_json::Value::Array(_) => JsonKind::Array,
        serde_json::Value::Object(_) => JsonKind::Object,
    }
}

/// `serde_json::Value::as_bool`: the boolean of a `Bool`, nothing otherwise.
#[verifier::external_body]
pub(crate) fn json_as_bool(value: &serde_json::Value) -> (r: Option<bool>)
    ensures
        r == (match json_shape(*value) {
            Json::Bool(b) => Some(b),
            _ => None,
        }),
{
    value.as_bool()
}

/// `serde_json::Value::is_i64`: true exactly for a number that `as_i64`
/// returns as an integer.
#[verifier::external_body]
pub(crate) fn json_is_i64(value: &serde_json::Value) -> (r: bool)
    ensures
        r == (json_shape(*value) matches Json::Number(n) && n.signed is Some),
{
    value.is_i64()
}

/// `serde_json::Value::as_i64`: the signed reading of a number, nothing for
/// any other value.
#[verifier::external_body]
pub(crate) fn json_as_i64(value: &serde_json::Value) -> (r: Option<i64>)
    ensures
        r == (match json_shape(*value) {
            Json::Number(n) => n.signed,
            _ => None,
        }),
{
    value.as_i64()
}

/// `serde_json::Value::is_u64`: true exactly for a number that `as_u64`
/// returns as an integer.
#[verifier::external_body]
pub(crate) fn json_is_u64(value: &serde_json::Value) -> (r: bool)
    ensures
        r == (json_shape(*value) matches Json::Number(n) && n.unsigned is Some),
{
    value.is_u64()
}

/// `serde_json::Value::as_u64`: the unsigned reading of a number, nothing for
/// any other value.
#[verifier::external_body]
pub(crate) fn json_as_u64(value: &serde_json::Value) -> (r: Option<u64>)
    ensures
        r == (match json_shape(*value) {
            Json::Number(n) => n.unsigned,
            _ => None,
        }),
{
    value.as_u64()
}

/// `serde_json::Value::as_f64`, handed out as the float's bit pattern: the
/// float reading of a number, nothing for any other value.
#[verifier::external_body]
pub(crate) fn json_as_f64_bits(value: &serde_json::Value) -> (r: Option<u64>)
    ensures
        r == (match json_shape(*value) {
            Json::Number(n) => n.float_bits,
            _ => None,
        }),
{
    match value.as_f64() {
        Some(x) => Some(x.to_bits()),
        None => None,
    }
}

/// `serde_json::Value::as_str`: the text of a `String`, nothing otherwise.
#[verifier::external_body]
pub(crate) fn json_as_str(value: &serde_json::Value) -> (r: Option<&str>)
    ensures
        match r {
            Some(s) => json_shape(*value) == Json::Text(s@),
            None => !(json_shape(*value) is Text),
        },
{
    value.as_str()
}

/// `serde_json::Value::as_array`: the items of an `Array` in their order,
/// nothing otherwise.
#[verifier::external_body]
pub(crate) fn json_as_array(value: &serde_json::Value) -> (r: Option<&Vec<serde_json::Value>>)
    ensures
        match r {
            Some(items) => json_shape(*value) == Json::Array(shapes(items@)),
            None => !(json_shape(*value) is Array),
        },
{
    value.as_array()
}

/// `serde_json::Map::keys` on the map of an `Object`: the keys in the order in
/// which the map is walked, each of them once, as many as there are values.
#[verifier::external_body]
pub(crate) fn json_object_keys(value: &serde_json::Value) -> (r: Option<Vec<String>>)
    ensures
        match r {
            Some(keys) => {
                &&& json_shape(*value) is Object
                &&& json_shape(*value)->Object_0 == texts(keys@)
                &&& json_shape(*value)->Object_0.no_duplicates()
                &&& json_shape(*value)->Object_0.len() == json_shape(*value)->Object_1.len()
            },
            None => !(json_shape(*value) is Object),
        },
{
    match value.as_object() {
        Some(map) => Some(map.keys().cloned().collect()),
        None => None,
    }
}

/// `serde_json::Map::values` on the map of an `Object`: the values in the
/// order in which the map is walked.
#[verifier::external_body]
pub(crate) fn json_object_values(value: &serde_json::Value) -> (r: Option<Vec<&serde_json::Value>>)
    ensures
        match r {
            Some(members) => {
                &&& json_shape(*value) is Object
                &&& json_shape(*value)->Object_1 == shapes_of_refs(members@)
            },
            None => !(json_shape(*value) is Object),
        },
{
    match value.as_object() {
        Some(map) => Some(map.values().collect()),
        None => None,
    }
}

} // verus!
