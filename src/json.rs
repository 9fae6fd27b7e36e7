//! What this library takes from serde_json: JSON values and objects, the
//! parser, the pretty printer and the conversions to and from Rust values.
//! Each item below names the serde_json function it relies on.
use vstd::prelude::*;

verus! {

#[verifier::external_type_specification]
#[verifier::external_body]
pub struct ExJsonValue(serde_json::Value);

#[verifier::external_type_specification]
#[verifier::external_body]
#[verifier::reject_recursive_types(K)]
#[verifier::reject_recursive_types(V)]
pub struct ExJsonMap<K, V>(serde_json::Map<K, V>);

#[verifier::external_type_specification]
#[verifier::external_body]
pub struct ExJsonError(serde_json::Error);

/// The members of a JSON object, by key.
pub uninterp spec fn object_entries(
    m: serde_json::Map<String, serde_json::Value>,
) -> Map<Seq<char>, serde_json::Value>;

/// Whether a JSON value is `null`.
pub uninterp spec fn json_is_null(v: serde_json::Value) -> bool;

/// The members of the JSON object that a text holds; `None` where the text
/// is not a JSON object.
pub uninterp spec fn parsed_object(text: Seq<char>) -> Option<Map<Seq<char>, serde_json::Value>>;

/// The two-space indented text of a JSON object, members in insertion order.
pub uninterp spec fn pretty_text(m: serde_json::Map<String, serde_json::Value>) -> Seq<char>;

/// The string a JSON value deserializes to; `None` where it is no string.
pub uninterp spec fn json_string_of(v: serde_json::Value) -> Option<Seq<char>>;

/// The `i32` a JSON value deserializes to; `None` where it is no integer in range.
pub uninterp spec fn json_i32_of(v: serde_json::Value) -> Option<i32>;

/// The JSON string value holding `s`.
pub uninterp spec fn json_from_string(s: Seq<char>) -> serde_json::Value;

/// The JSON number value holding `x`.
pub uninterp spec fn json_from_i32(x: i32) -> serde_json::Value;

/// Relies on serde_json::Map::new: a new object has no members.
pub assume_specification[ serde_json::Map::<String, serde_json::Value>::new ]() -> (r: serde_json::Map<String, serde_json::Value>)
    ensures
        object_entries(r).dom() == Set::<Seq<char>>::empty(),
;

/// Relies on serde_json::Map::insert: the member under `k` becomes `v`, the
/// others stay.
pub assume_specification[ serde_json::Map::<String, serde_json::Value>::insert ](
    m: &mut serde_json::Map<String, serde_json::Value>,
    k: String,
    v: serde_json::Value,
) -> (r: Option<serde_json::Value>)
    ensures
        object_entries(*final(m)) == object_entries(*old(m)).insert(k@, v),
;

/// Relies on serde_json::Value::is_null.
pub assume_specification[ serde_json::Value::is_null ](v: &serde_json::Value) -> (r: bool)
    ensures
        r == json_is_null(*v),
;

/// Relies on the derived `Clone` of serde_json::Value: the copy equals its source.
pub assume_specification[ <serde_json::Value as Clone>::clone ](v: &serde_json::Value) -> (r: serde_json::Value)
    ensures
        r == *v,
;

/// Relies on serde_json::Map::get: the member stored under `key`.
#[verifier::external_body]
pub(crate) fn object_get<'a>(
    m: &'a serde_json::Map<String, serde_json::Value>,
    key: &str,
) -> (r: Option<&'a serde_json::Value>)
    ensures
        match r {
            Some(v) => object_entries(*m).contains_key(key@) && object_entries(*m)[key@] == *v,
            None => !object_entries(*m).contains_key(key@),
        },
{
    m.get(key)
}

/// Relies on serde_json::from_str, reading the text as a JSON object.
#[verifier::external_body]
pub(crate) fn parse_object(text: &str) -> (r: Result<serde_json::Map<String, serde_json::Value>, serde_json::Error>)
    ensures
        match r {
            Ok(m) => parsed_object(text@) == Some(object_entries(m)),
            Err(_) => parsed_object(text@) is None,
        },
{
    serde_json::from_str(text)
}

/// Relies on serde_json::to_string_pretty, whose only failures (a failing
/// `Serialize`, a key that is no string) cannot occur for an object of
/// string keys and JSON values.
#[verifier::external_body]
pub(crate) fn pretty_print(m: &serde_json::Map<String, serde_json::Value>) -> (r: Result<String, serde_json::Error>)
    ensures
        r is Ok,
        r matches Ok(s) ==> s@ == pretty_text(*m),
{
    serde_json::to_string_pretty(m)
}

/// Relies on serde_json::from_value::<String>: a JSON string gives its text.
#[verifier::external_body]
pub(crate) fn string_from_json(v: serde_json::Value) -> (r: Option<String>)
    ensures
        match r {
            Some(s) => json_string_of(v) == Some(s@),
            None => json_string_of(v) is None,
        },
{
    serde_json::from_value::<String>(v).ok()
}

/// Relies on serde_json::from_value::<i32>.
#[verifier::external_body]
pub(crate) fn i32_from_json(v: serde_json::Value) -> (r: Option<i32>)
    ensures
        r == json_i32_of(v),
{
    serde_json::from_value::<i32>(v).ok()
}

/// Relies on `From<String>` for serde_json::Value: a string value, which
/// deserializes back to the same text and is not `null`.
#[verifier::external_body]
pub(crate) fn json_string(s: String) -> (r: serde_json::Value)
    ensures
        r == json_from_string(s@),
        json_string_of(r) == Some(s@),
        !json_is_null(r),
{
    serde_json::Value::from(s)
}

/// Relies on `From<i32>` for serde_json::Value: a number value, which
/// deserializes back to the same integer and is not `null`.
#[verifier::external_body]
pub(crate) fn json_i32(x: i32) -> (r: serde_json::Value)
    ensures
        r == json_from_i32(x),
        json_i32_of(r) == Some(x),
        !json_is_null(r),
{
    serde_json::Value::from(x)
}

} // verus!
