//! JSON as the protocol needs it. The values themselves are serde_json's;
//! this module says what they hold and gives contracts to the calls that
//! read and build them.

use vstd::prelude::*;

verus! {

/// `serde_json::Value`, a JSON value, taken as it is: what one holds is
/// known through [`json_of`] alone.
#[verifier::external_type_specification]
#[verifier::external_body]
pub struct ExValue(serde_json::Value);

/// `serde_json::Map`, the members of a JSON object, taken as it is: what
/// one holds is known through [`members`] alone.
#[verifier::external_type_specification]
#[verifier::external_body]
#[verifier::reject_recursive_types(K)]
#[verifier::reject_recursive_types(V)]
pub struct ExObject<K, V>(serde_json::Map<K, V>);

/// A JSON object as serde_json holds it.
pub type Object = serde_json::Map<String, serde_json::Value>;

/// A JSON value. A number is known by its text.
pub enum Json {
    Null,
    Bool(bool),
    Number(Seq<char>),
    Text(Seq<char>),
    List(Seq<Json>),
    Object(Map<Seq<char>, Json>),
}

/// The members of a JSON object: the value under each key.
pub type Members = Map<Seq<char>, Json>;

/// The JSON value that a `serde_json::Value` holds.
pub uninterp spec fn json_of(value: serde_json::Value) -> Json;

/// The members that a `serde_json::Map` holds.
pub uninterp spec fn members(object: serde_json::Map<String, serde_json::Value>) -> Members;

/// The compact text of a JSON value, as serde_json writes it: no white
/// space, and the members of an object in the order of their keys.
pub uninterp spec fn json_text(value: Json) -> Seq<char>;

/// What reading `text` as one JSON object gives: the members of the object,
/// or, where `text` is no such object, what serde_json says is wrong with it.
pub uninterp spec fn json_object(text: Seq<char>) -> Result<Members, Seq<char>>;

/// Calls `serde_json::from_str` for an object, and `to_string` on the error
/// where it fails: `Ok` with the object that `text` is, `Err` with the
/// error's message where it is none.
#[verifier::external_body]
pub(crate) fn parse_object(text: &str) -> (result: Result<Object, String>)
    ensures
        match result {
            Ok(object) => json_object(text@) == Ok::<Members, Seq<char>>(members(object)),
            Err(message) => json_object(text@) == Err::<Members, Seq<char>>(message@),
        },
{
    match serde_json::from_str(text) {
        Ok(object) => Ok(object),
        Err(error) => Err(error.to_string()),
    }
}

/// Calls `serde_json::Map::new`: an object without members.
#[verifier::external_body]
pub(crate) fn new_object() -> (made: Object)
    ensures
        members(made) == Members::empty(),
{
    serde_json::Map::new()
}

/// Calls `serde_json::Map::insert`: afterwards `key` holds `value`, in place
/// of what it may have held, and every other key holds what it did.
#[verifier::external_body]
pub(crate) fn insert(object: &mut Object, key: String, value: serde_json::Value)
    ensures
        members(*final(object)) == members(*old(object)).insert(key@, json_of(value)),
{
    object.insert(key, value);
}

/// Calls `serde_json::Map::get`: the value under `key`, if there is one.
#[verifier::external_body]
pub(crate) fn get<'a>(object: &'a Object, key: &str) -> (value: Option<&'a serde_json::Value>)
    ensures
        match value {
            Some(value) => members(*object).contains_key(key@) && members(*object)[key@]
                == json_of(*value),
            None => !members(*object).contains_key(key@),
        },
{
    object.get(key)
}

/// Calls `serde_json::Value::as_str`: the text of a value that is a string,
/// `None` for any other value.
#[verifier::external_body]
pub(crate) fn as_str(value: &serde_json::Value) -> (text: Option<&str>)
    ensures
        match text {
            Some(text) => json_of(*value) == Json::Text(text@),
            None => !(json_of(*value) is Text),
        },
{
    value.as_str()
}

/// Calls `to_string` on a `serde_json::Value`: its compact text, which is
/// one line, since the compact form has no white space between its parts and
/// writes every control character inside a string as an escape.
#[verifier::external_body]
pub(crate) fn to_text(value: &serde_json::Value) -> (text: String)
    ensures
        text@ == json_text(json_of(*value)),
        !text@.contains('\n'),
{
    value.to_string()
}

/// Calls `serde_json::Value::from` on a `String`: the string with that text.
#[verifier::external_body]
pub(crate) fn text_value(text: String) -> (value: serde_json::Value)
    ensures
        json_of(value) == Json::Text(text@),
{
    serde_json::Value::from(text)
}

/// Calls `serde_json::Value::from` on a `bool`: that truth value.
#[verifier::external_body]
pub(crate) fn bool_value(flag: bool) -> (value: serde_json::Value)
    ensures
        json_of(value) == Json::Bool(flag),
{
    serde_json::Value::from(flag)
}

/// Calls `serde_json::Value::from` on an object: the object with those
/// members.
#[verifier::external_body]
pub(crate) fn object_value(object: Object) -> (value: serde_json::Value)
    ensures
        json_of(value) == Json::Object(members(object)),
{
    serde_json::Value::from(object)
}

} // verus!
