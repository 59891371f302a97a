//! JSON objects, as `serde_json` holds, prints and reads them.
//!
//! Objects are made with `serde_json::Map` and printed by `serde_json::Value`.
//! The contracts speak of what an object holds under each key.

use vstd::prelude::*;

verus! {

/// What a JSON object holds under one key.
pub enum Json {
    /// `true` or `false`.
    Bool(bool),
    /// A whole number from 0 to `u64::MAX`, written without a fraction or an
    /// exponent.
    Number(u64),
    /// A string.
    Text(Seq<char>),
    /// Anything else: null, a negative or fractional number, an array, an object.
    Other,
}

/// The members of a JSON object by key.
pub type Members = Map<Seq<char>, Json>;

/// None of the members is `Json::Other`, so the members say all there is to
/// print.
pub open spec fn printable(members: Members) -> bool {
    forall|key: Seq<char>| #[trigger] members.contains_key(key) ==> members[key] !is Other
}

/// `serde_json::Value`, any JSON value.
#[verifier::external_type_specification]
#[verifier::external_body]
pub struct ExValue(serde_json::Value);

/// `serde_json::Map`, the members of a JSON object.
#[verifier::external_type_specification]
#[verifier::external_body]
#[verifier::reject_recursive_types(K)]
#[verifier::reject_recursive_types(V)]
pub struct ExMap<K, V>(serde_json::Map<K, V>);

/// What a `serde_json::Map` holds.
pub uninterp spec fn object_members(object: serde_json::Map<String, serde_json::Value>) -> Members;

/// What a `serde_json::Value` holds under each key: the members of an object,
/// nothing in any other value.
pub uninterp spec fn value_members(value: serde_json::Value) -> Members;

/// The text that `serde_json` prints for an object with these members.
pub uninterp spec fn json_text(members: Members) -> Seq<char>;

/// `serde_json::Map::new`: an object without members.
#[verifier::external_body]
pub(crate) fn new_object() -> (object: serde_json::Map<String, serde_json::Value>)
    ensures
        object_members(object) == Members::empty(),
{
    serde_json::Map::new()
}

/// `serde_json::Map::insert` with a number: the key then holds the number,
/// whatever it held before, and the other members stay.
#[verifier::external_body]
pub(crate) fn put_number(
    object: &mut serde_json::Map<String, serde_json::Value>,
    key: &str,
    number: u64,
)
    ensures
        object_members(*final(object)) == object_members(*old(object)).insert(
            key@,
            Json::Number(number),
        ),
{
    object.insert(key.to_string(), serde_json::Value::from(number));
}

/// `serde_json::Map::insert` with a truth value: the key then holds it,
/// whatever it held before, and the other members stay.
#[verifier::external_body]
pub(crate) fn put_bool(
    object: &mut serde_json::Map<String, serde_json::Value>,
    key: &str,
    value: bool,
)
    ensures
        object_members(*final(object)) == object_members(*old(object)).insert(
            key@,
            Json::Bool(value),
        ),
{
    object.insert(key.to_string(), serde_json::Value::from(value));
}

/// `serde_json::Map::insert` with a string: the key then holds the string,
/// whatever it held before, and the other members stay.
#[verifier::external_body]
pub(crate) fn put_text(
    object: &mut serde_json::Map<String, serde_json::Value>,
    key: &str,
    text: &str,
)
    ensures
        object_members(*final(object)) == object_members(*old(object)).insert(
            key@,
            Json::Text(text@),
        ),
{
    object.insert(key.to_string(), serde_json::Value::from(text));
}

/// The `Display` of a `serde_json::Value` that is an object. The text depends
/// on the members alone, which come in the order of their keys. It opens with a
/// brace, and it is one line: the compact format writes no line break, and a
/// line feed within a string is escaped.
#[verifier::external_body]
pub(crate) fn print_object(object: serde_json::Map<String, serde_json::Value>) -> (text: String)
    requires
        printable(object_members(object)),
    ensures
        text@ == json_text(object_members(object)),
        text@.len() > 0 && text@[0] == '{',
        !text@.contains('\n'),
{
    serde_json::Value::Object(object).to_string()
}

/// Indexing a `serde_json::Value` by key, then `Value::as_str`: the string
/// under the key, if the value is an object that has one there.
#[verifier::external_body]
pub(crate) fn text_under(value: &serde_json::Value, key: &str) -> (text: Option<String>)
    ensures
        match text {
            Some(found) => value_members(*value).contains_key(key@)
                && value_members(*value)[key@] == Json::Text(found@),
            None => !value_members(*value).contains_key(key@)
                || value_members(*value)[key@] !is Text,
        },
{
    value[key].as_str().map(String::from)
}

/// Indexing a `serde_json::Value` by key, then `Value::as_u64`: the whole
/// number under the key, if the value is an object that has one there.
#[verifier::external_body]
pub(crate) fn number_under(value: &serde_json::Value, key: &str) -> (number: Option<u64>)
    ensures
        match number {
            Some(found) => value_members(*value).contains_key(key@)
                && value_members(*value)[key@] == Json::Number(found),
            None => !value_members(*value).contains_key(key@)
                || value_members(*value)[key@] !is Number,
        },
{
    value[key].as_u64()
}

} // verus!
