//! JSON documents, as far as the backends read and write them.
use vstd::prelude::*;

verus! {

#[verifier::external_type_specification]
#[verifier::external_body]
pub struct ExValue(serde_json::Value);

#[verifier::external_type_specification]
#[verifier::external_body]
#[verifier::reject_recursive_types(K)]
#[verifier::reject_recursive_types(V)]
pub struct ExMap<K, V>(serde_json::Map<K, V>);

/// What a backend can see of a JSON value: a string with its characters, an
/// object with its members, or something else.
pub enum Json {
    Text(Seq<char>),
    Object(Map<Seq<char>, Json>),
    Other,
}

/// What a `serde_json::Value` holds.
pub uninterp spec fn contents(value: serde_json::Value) -> Json;

/// The members that a `serde_json::Map` holds.
pub uninterp spec fn members(object: serde_json::Map<String, serde_json::Value>) -> Map<
    Seq<char>,
    Json,
>;

/// What `serde_json::from_slice` makes of the bytes, read as a
/// `serde_json::Value`: the value, or the text of the error.
pub uninterp spec fn parsed(bytes: Seq<u8>) -> Result<Json, Seq<char>>;

/// `serde_json::from_slice::<serde_json::Value>` reads one JSON document; the
/// outcome depends on the bytes alone. An error is handed on as the text that
/// its `Display` writes.
#[verifier::external_body]
pub(crate) fn parse(bytes: &[u8]) -> (outcome: Result<serde_json::Value, String>)
    ensures
        match parsed(bytes@) {
            Ok(json) => outcome matches Ok(value) && contents(value) == json,
            Err(error) => outcome matches Err(text) && text@ == error,
        },
{
    serde_json::from_slice(bytes).map_err(|error| error.to_string())
}

/// `serde_json::Value::get` with a string looks a member up: it finds one
/// exactly where the value is an object that has a member of that name.
#[verifier::external_body]
pub(crate) fn member<'a>(value: &'a serde_json::Value, key: &str) -> (found: Option<
    &'a serde_json::Value,
>)
    ensures
        match contents(*value) {
            Json::Object(object) if object.contains_key(key@) => found matches Some(inner)
                && contents(*inner) == object[key@],
            _ => found is None,
        },
{
    value.get(key)
}

/// `serde_json::Value::as_str` gives the characters of a string value, and
/// nothing for any other value.
#[verifier::external_body]
pub(crate) fn as_text(value: &serde_json::Value) -> (found: Option<&str>)
    ensures
        match contents(*value) {
            Json::Text(text) => found matches Some(inner) && inner@ == text,
            _ => found is None,
        },
{
    value.as_str()
}

/// The object without members.
pub open spec fn no_members() -> Map<Seq<char>, Json> {
    Map::empty()
}

/// `serde_json::Map::new` makes an object without members.
#[verifier::external_body]
pub(crate) fn empty_object() -> (object: serde_json::Map<String, serde_json::Value>)
    ensures
        members(object) == no_members(),
{
    serde_json::Map::new()
}

/// `serde_json::Map::insert` gives the object a member of that name with that
/// value, in place of the one that it may have had; the other members stay.
/// The value handed over is a `serde_json::Value::String` of the text.
#[verifier::external_body]
pub(crate) fn insert_text(
    object: &mut serde_json::Map<String, serde_json::Value>,
    key: &str,
    text: &str,
)
    ensures
        members(*final(object)) == members(*old(object)).insert(key@, Json::Text(text@)),
{
    object.insert(key.to_string(), serde_json::Value::String(text.to_string()));
}

/// `Clone` of `serde_json::Map` makes an object with the same members.
#[verifier::external_body]
pub(crate) fn copy_object(object: &serde_json::Map<String, serde_json::Value>) -> (copy:
    serde_json::Map<String, serde_json::Value>)
    ensures
        members(copy) == members(*object),
{
    object.clone()
}

/// The text of the member `key`, where there is one and it is a string.
pub open spec fn text_member(json: Json, key: Seq<char>) -> Option<Seq<char>> {
    match json {
        Json::Object(object) if object.contains_key(key) => match object[key] {
            Json::Text(text) => Some(text),
            _ => None,
        },
        _ => None,
    }
}

/// The text of the member `key` of `value`.
pub fn member_text(value: &serde_json::Value, key: &str) -> (found: Option<String>)
    ensures
        match text_member(contents(*value), key@) {
            Some(text) => found matches Some(inner) && inner@ == text,
            None => found is None,
        },
{
    match member(value, key) {
        Some(inner) => match as_text(inner) {
            Some(text) => Some(text.to_owned()),
            None => None,
        },
        None => None,
    }
}

} // verus!
