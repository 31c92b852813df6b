use vstd::prelude::*;

use serde_json::{Number, Value};

verus! {

#[verifier::external_type_specification]
#[verifier::external_body]
pub struct ExValue(serde_json::Value);

#[verifier::external_type_specification]
#[verifier::external_body]
pub struct ExNumber(serde_json::Number);

#[verifier::external_type_specification]
#[verifier::external_body]
#[verifier::reject_recursive_types(K)]
#[verifier::reject_recursive_types(V)]
pub struct ExJsonObject<K, V>(serde_json::Map<K, V>);

#[verifier::external_type_specification]
#[verifier::external_body]
pub struct ExJsonError(serde_json::Error);

/// The JSON value that a text holds, if it is valid JSON.
pub uninterp spec fn parsed_json(text: Seq<char>) -> Option<Value>;

/// The object a value is, if it is one.
pub uninterp spec fn object_of(v: Value) -> Option<serde_json::Map<String, Value>>;

/// The members of a JSON object, by name.
pub uninterp spec fn members_of(m: serde_json::Map<String, Value>) -> Map<Seq<char>, Value>;

/// The items of a value, if it is an array.
pub uninterp spec fn array_of(v: Value) -> Option<Seq<Value>>;

/// The characters of a value, if it is a string.
pub uninterp spec fn text_of(v: Value) -> Option<Seq<char>>;

/// The number a value is, if it is one.
pub uninterp spec fn number_of(v: Value) -> Option<Number>;

/// Whether a value is `null`.
pub uninterp spec fn is_json_null(v: Value) -> bool;

/// Relies on serde_json::from_str: parses a text into a JSON value, or fails
/// when the text is not valid JSON.
#[verifier::external_body]
pub(crate) fn parse_json(text: &str) -> (r: Result<Value, serde_json::Error>)
    ensures
        match r {
            Ok(v) => parsed_json(text@) == Some(v),
            Err(_) => parsed_json(text@) is None,
        },
{
    serde_json::from_str(text)
}

/// Relies on serde_json::Value::as_object: the map of an object, None for
/// any other value.
pub assume_specification[ serde_json::Value::as_object ](v: &Value) -> (r: Option<
    &serde_json::Map<String, Value>,
>)
    ensures
        match r {
            Some(m) => object_of(*v) == Some(*m),
            None => object_of(*v) is None,
        },
;

/// Relies on serde_json::Value::as_array: the items of an array, None for
/// any other value.
pub assume_specification[ serde_json::Value::as_array ](v: &Value) -> (r: Option<&Vec<Value>>)
    ensures
        match r {
            Some(a) => array_of(*v) == Some(a@),
            None => array_of(*v) is None,
        },
;

/// Relies on serde_json::Value::as_str: the text of a string, None for any
/// other value.
pub assume_specification[ serde_json::Value::as_str ](v: &Value) -> (r: Option<&str>)
    ensures
        match r {
            Some(s) => text_of(*v) == Some(s@),
            None => text_of(*v) is None,
        },
;

/// Relies on serde_json::Value::as_number: the number of a number value,
/// None for any other value.
pub assume_specification[ serde_json::Value::as_number ](v: &Value) -> (r: Option<&Number>)
    ensures
        match r {
            Some(n) => number_of(*v) == Some(*n),
            None => number_of(*v) is None,
        },
;

/// Relies on serde_json::Value::is_null: true exactly for `null`.
pub assume_specification[ serde_json::Value::is_null ](v: &Value) -> (r: bool)
    ensures
        r == is_json_null(*v),
;

/// Relies on the derived Clone of serde_json::Number: the copy is equal.
pub assume_specification[ <serde_json::Number as Clone>::clone ](n: &Number) -> (r: Number)
    ensures
        r == *n,
;

/// Relies on serde_json::Map::get: the member of that name, if any.
#[verifier::external_body]
pub(crate) fn object_member<'a>(m: &'a serde_json::Map<String, Value>, name: &str) -> (r: Option<
    &'a Value,
>)
    ensures
        match r {
            Some(v) => members_of(*m).contains_key(name@) && members_of(*m)[name@] == *v,
            None => !members_of(*m).contains_key(name@),
        },
{
    m.get(name)
}

/// Relies on serde_json::Map::iter: each member once, as a name and a copy
/// of its value (the derived Clone of serde_json::Value keeps it equal).
#[verifier::external_body]
pub(crate) fn object_members(m: &serde_json::Map<String, Value>) -> (r: Vec<(String, Value)>)
    ensures
        forall|i: int|
            0 <= i < r@.len() ==> members_of(*m).contains_key(#[trigger] r@[i].0@) && members_of(
                *m,
            )[r@[i].0@] == r@[i].1,
        forall|i: int, j: int| 0 <= i < j < r@.len() ==> r@[i].0@ != r@[j].0@,
        forall|name: Seq<char>|
            #[trigger] members_of(*m).contains_key(name) ==> exists|i: int|
                0 <= i < r@.len() && r@[i].0@ == name,
{
    m.iter().map(|(k, v)| (k.clone(), v.clone())).collect()
}

} // verus!
