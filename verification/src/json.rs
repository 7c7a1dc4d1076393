//! The JSON layer: what this library relies on from `serde_json`.
//!
//! Nothing in this file is proved. Each item states, over plain values, what
//! the corresponding `serde_json` function is taken to do; the codec in
//! `protocol` is verified against these statements.

use vstd::prelude::*;

verus! {

/// `serde_json::Value`, a parsed JSON value. Opaque here: it is read through
/// `as_str`, `as_i64` and `is_null` only.
#[verifier::external_type_specification]
#[verifier::external_body]
pub struct ExValue(serde_json::Value);

/// `serde_json::Map`, the members of a parsed JSON object. Opaque here: it
/// is read through `get` only.
#[verifier::external_type_specification]
#[verifier::external_body]
#[verifier::reject_recursive_types(K)]
#[verifier::reject_recursive_types(V)]
pub struct ExObject<K, V>(serde_json::Map<K, V>);

/// `serde_json::Error`, what the JSON reader and writer fail with. Opaque
/// here: only its description is taken from it.
#[verifier::external_type_specification]
#[verifier::external_body]
pub struct ExError(serde_json::Error);

/// What the codec reads from one JSON value.
pub enum Shape {
    /// The literal `null`.
    Null,
    /// A string, with its characters.
    Text(Seq<char>),
    /// A number that is an integer within the range of `i64`.
    Integer(i64),
    /// Anything else: a boolean, an array, an object, or a number that is
    /// fractional or outside the range of `i64`.
    Other,
}

/// The shape of a parsed JSON value.
pub uninterp spec fn shape_of(value: serde_json::Value) -> Shape;

/// The members of a parsed JSON object: each member name with the shape of
/// the value it is bound to.
pub uninterp spec fn members_of(object: serde_json::Map<String, serde_json::Value>) -> Map<
    Seq<char>,
    Shape,
>;

/// The description that `serde_json` gives of one of its errors.
pub uninterp spec fn error_text(error: serde_json::Error) -> Seq<char>;

/// The outcome of reading a text as one JSON object: its members, or the
/// description of the error that `serde_json` reports.
pub uninterp spec fn parsed_object(text: Seq<char>) -> Result<Map<Seq<char>, Shape>, Seq<char>>;

/// The compact JSON text of the object whose members are the given
/// name and string pairs.
pub uninterp spec fn object_text(members: Seq<(Seq<char>, Seq<char>)>) -> Seq<char>;

/// The name and string pairs of a member list, as sequences of characters.
pub open spec fn pairs_of(members: Seq<(String, String)>) -> Seq<(Seq<char>, Seq<char>)> {
    Seq::new(members.len(), |i: int| (members[i].0@, members[i].1@))
}

/// `serde_json::from_str` at the type `serde_json::Map<String, Value>`.
///
/// The outcome depends on the text alone. On success the members of the
/// returned object are those that `parsed_object` names for the text; on
/// failure the error is the one whose description `parsed_object` names.
#[verifier::external_body]
pub(crate) fn parse_object(line: &str) -> (parsed: Result<
    serde_json::Map<String, serde_json::Value>,
    serde_json::Error,
>)
    ensures
        match parsed {
            Ok(object) => parsed_object(line@) == Ok::<Map<Seq<char>, Shape>, Seq<char>>(
                members_of(object),
            ),
            Err(error) => parsed_object(line@) == Err::<Map<Seq<char>, Shape>, Seq<char>>(
                error_text(error),
            ),
        },
{
    serde_json::from_str::<serde_json::Map<String, serde_json::Value>>(line)
}

/// `serde_json::Map::get` with a string key.
///
/// Returns the value bound to `name` when the object has such a member, and
/// `None` when it has not.
#[verifier::external_body]
pub(crate) fn member<'a>(
    object: &'a serde_json::Map<String, serde_json::Value>,
    name: &str,
) -> (found: Option<&'a serde_json::Value>)
    ensures
        match found {
            Some(value) => members_of(*object).contains_key(name@) && members_of(*object)[name@]
                == shape_of(*value),
            None => !members_of(*object).contains_key(name@),
        },
{
    object.get(name)
}

/// `serde_json::Value::as_str`: the characters of a string value, and `None`
/// for every other value.
pub assume_specification[ serde_json::Value::as_str ](value: &serde_json::Value) -> (text: Option<
    &str,
>)
    ensures
        match text {
            Some(s) => shape_of(*value) == Shape::Text(s@),
            None => !(shape_of(*value) is Text),
        },
;

/// `serde_json::Value::as_i64`: the number of an integer value that fits in
/// `i64`, and `None` for every other value.
pub assume_specification[ serde_json::Value::as_i64 ](value: &serde_json::Value) -> (number:
    Option<i64>)
    ensures
        match number {
            Some(i) => shape_of(*value) == Shape::Integer(i),
            None => !(shape_of(*value) is Integer),
        },
;

/// `serde_json::Value::is_null`: whether the value is the literal `null`.
pub assume_specification[ serde_json::Value::is_null ](value: &serde_json::Value) -> (null: bool)
    ensures
        null == (shape_of(*value) is Null),
;

/// `to_string` on a `serde_json::Error`, which goes through its `Display`.
///
/// The text is the description of the error.
#[verifier::external_body]
pub(crate) fn describe(error: &serde_json::Error) -> (text: String)
    ensures
        text@ == error_text(*error),
{
    error.to_string()
}

/// `serde_json::to_string` on a map from names to strings.
///
/// A map whose keys and values are strings always serialises, and the text
/// depends on the pairs alone: the members come out ordered by name, in
/// compact form. Compact output holds no line break, since the serialiser
/// writes no white space and escapes every control character in a string.
#[verifier::external_body]
pub(crate) fn write_object(members: &Vec<(String, String)>) -> (written: Result<
    String,
    serde_json::Error,
>)
    ensures
        written is Ok,
        written matches Ok(text) ==> text@ == object_text(pairs_of(members@)),
        written matches Ok(text) ==> !text@.contains('\n'),
{
    let object: std::collections::BTreeMap<&str, &str> = members.iter().map(
        |pair| (pair.0.as_str(), pair.1.as_str()),
    ).collect();
    serde_json::to_string(&object)
}

} // verus!
