//! The boundary to `serde_json`: parsing a text into a JSON value and looking
//! one level into such a value. Nothing in this module is proved; every
//! contract here restates what `serde_json` documents.

use vstd::prelude::*;

verus! {

/// `serde_json::Value`, a JSON value. Nothing of its inside is declared: what
/// a value holds is told by `json_shape`.
#[verifier::external_type_specification]
#[verifier::external_body]
pub struct ExJsonValue(serde_json::Value);

/// `serde_json::Error`, why a text was not read. Nothing is said of it.
#[verifier::external_type_specification]
#[verifier::external_body]
pub struct ExJsonError(serde_json::Error);

/// What a JSON value holds, one level deep.
pub enum JsonShape {
    Null,
    Bool(bool),
    /// A number that was read as an integer, from the least `i64` to the
    /// greatest `u64`, with the bits of the double nearest to it.
    Integer { value: int, bits: u64 },
    /// A number that was read as a double, as the bits of that double.
    Float { bits: u64 },
    Text(Seq<char>),
    /// The elements of an array, in their order.
    Array(Seq<serde_json::Value>),
    /// The members of an object, by their keys.
    Object(Map<Seq<char>, serde_json::Value>),
}

/// The value that `serde_json::from_str` reads from a text, where the text is
/// one JSON document and nothing else.
pub uninterp spec fn json_document(text: Seq<char>) -> Option<serde_json::Value>;

/// What a value holds: the variant of `serde_json::Value` that it is, and
/// what that variant carries.
pub uninterp spec fn json_shape(value: serde_json::Value) -> JsonShape;

/// The compact JSON text that `serde_json` writes for a value.
pub uninterp spec fn json_rendering(value: serde_json::Value) -> Seq<char>;

/// `serde_json::from_str` at type `Value`: the text is either a JSON document,
/// and the result is that document, or it is not, and the result is an error.
#[verifier::external_body]
pub(crate) fn parse(text: &str) -> (r: Result<serde_json::Value, serde_json::Error>)
    ensures
        match r {
            Ok(value) => json_document(text@) == Some(value),
            Err(_) => json_document(text@) is None,
        },
{
    serde_json::from_str::<serde_json::Value>(text)
}

/// `Value::as_array`: the elements of an array, and nothing for any other value.
#[verifier::external_body]
pub(crate) fn elements(value: &serde_json::Value) -> (r: Option<&Vec<serde_json::Value>>)
    ensures
        match json_shape(*value) {
            JsonShape::Array(items) => r matches Some(found) && found@ == items,
            _ => r is None,
        },
{
    value.as_array()
}

/// `Value::is_object`.
#[verifier::external_body]
pub(crate) fn is_object(value: &serde_json::Value) -> (r: bool)
    ensures
        r == (json_shape(*value) is Object),
{
    value.is_object()
}

/// `Value::get` with a string key: the member of an object under that key, and
/// nothing where the key is absent or the value is no object.
#[verifier::external_body]
pub(crate) fn member<'a>(value: &'a serde_json::Value, key: &str) -> (r: Option<
    &'a serde_json::Value,
>)
    ensures
        match json_shape(*value) {
            JsonShape::Object(members) => if members.dom().contains(key@) {
                r matches Some(found) && *found == members[key@]
            } else {
                r is None
            },
            _ => r is None,
        },
{
    value.get(key)
}

/// `Value::is_null`.
#[verifier::external_body]
pub(crate) fn is_null(value: &serde_json::Value) -> (r: bool)
    ensures
        r == (json_shape(*value) is Null),
{
    value.is_null()
}

/// `Value::as_i64`: the value of a number that was read as an integer and
/// fits in an `i64`, and nothing for any other value.
#[verifier::external_body]
pub(crate) fn as_integer(value: &serde_json::Value) -> (r: Option<i64>)
    ensures
        match json_shape(*value) {
            JsonShape::Integer { value: n, .. } => if i64::MIN <= n <= i64::MAX {
                r matches Some(found) && found == n
            } else {
                r is None
            },
            _ => r is None,
        },
{
    value.as_i64()
}

/// `Value::as_u64`: the value of a number that was read as an integer and
/// fits in a `u64`, and nothing for any other value.
#[verifier::external_body]
pub(crate) fn as_unsigned(value: &serde_json::Value) -> (r: Option<u64>)
    ensures
        match json_shape(*value) {
            JsonShape::Integer { value: n, .. } => if 0 <= n <= u64::MAX {
                r matches Some(found) && found == n
            } else {
                r is None
            },
            _ => r is None,
        },
{
    value.as_u64()
}

/// `Value::as_f64`, handed on as the bits of the double: every number has one,
/// no other value has.
#[verifier::external_body]
pub(crate) fn as_float_bits(value: &serde_json::Value) -> (r: Option<u64>)
    ensures
        r == match json_shape(*value) {
            JsonShape::Integer { bits, .. } => Some(bits),
            JsonShape::Float { bits } => Some(bits),
            _ => None,
        },
{
    match value.as_f64() {
        Some(number) => Some(number.to_bits()),
        None => None,
    }
}

/// `Value::as_str`: the characters of a string, and nothing for any other value.
#[verifier::external_body]
pub(crate) fn as_text(value: &serde_json::Value) -> (r: Option<&str>)
    ensures
        match json_shape(*value) {
            JsonShape::Text(chars) => r matches Some(found) && found@ == chars,
            _ => r is None,
        },
{
    value.as_str()
}

/// `Value`'s `Display`, which writes the value as compact JSON.
#[verifier::external_body]
pub(crate) fn render(value: &serde_json::Value) -> (r: String)
    ensures
        r@ == json_rendering(*value),
{
    value.to_string()
}

} // verus!
