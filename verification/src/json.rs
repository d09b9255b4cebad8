//! The library's one window onto raw JSON. The parsed value type of
//! `serde_json` is declared for the verifier, and each read the decoders
//! make goes through one small trusted wrapper here. The result of each
//! wrapped call is a function of its arguments alone, so each carries a
//! name; the wrappers' contracts equate their results with those names,
//! and everything below the wrappers is ordinary verified code whose
//! contracts are stated over the names.

use vstd::prelude::*;

verus! {

/// `serde_json::Value`: a parsed JSON document. Opaque to the verifier;
/// the decoders carry it through and read it only via the wrappers below.
#[verifier::external_type_specification]
#[verifier::external_body]
pub struct ExValue(serde_json::Value);

/// The document a JSON text parses to, when it is well-formed JSON.
pub uninterp spec fn json_doc_of(s: Seq<char>) -> Option<serde_json::Value>;

/// The field of a JSON object under a key, when the value is an object
/// holding that key.
pub uninterp spec fn json_field_of(v: serde_json::Value, key: Seq<char>) -> Option<
    serde_json::Value,
>;

/// The number a JSON value carries, when it is an integer representable
/// as `u64`.
pub uninterp spec fn json_u64_of(v: serde_json::Value) -> Option<u64>;

/// The number a JSON value carries, when it is an integer representable
/// as `i64`.
pub uninterp spec fn json_i64_of(v: serde_json::Value) -> Option<i64>;

/// The boolean a JSON value carries, when it is a JSON boolean.
pub uninterp spec fn json_bool_of(v: serde_json::Value) -> Option<bool>;

/// The text a JSON value carries, when it is a JSON string.
pub uninterp spec fn json_str_of(v: serde_json::Value) -> Option<Seq<char>>;

/// The elements a JSON value carries, in order, when it is a JSON array.
pub uninterp spec fn json_array_of(v: serde_json::Value) -> Option<Seq<serde_json::Value>>;

/// Relies on `serde_json::from_str::<Value>`: parses a JSON text and
/// returns the parsed document, or nothing when the text is not
/// well-formed JSON. The result depends on the text alone.
#[verifier::external_body]
pub(crate) fn json_from_str(s: &str) -> (r: Option<serde_json::Value>)
    ensures
        r == json_doc_of(s@),
{
    serde_json::from_str(s).ok()
}

/// Relies on `serde_json::Value::get` with a string index: the field of a
/// JSON object under `key`, or nothing when `v` is not an object or has
/// no such field. The result depends on the value and the key alone.
#[verifier::external_body]
pub(crate) fn json_get<'v>(v: &'v serde_json::Value, key: &str) -> (r: Option<
    &'v serde_json::Value,
>)
    ensures
        match r {
            Some(f) => json_field_of(*v, key@) == Some(*f),
            None => json_field_of(*v, key@) is None,
        },
{
    v.get(key)
}

/// Relies on `serde_json::Value::as_u64`: the numeric value when `v` is
/// an integer representable as `u64`, and nothing otherwise. The result
/// depends on the value alone.
#[verifier::external_body]
pub(crate) fn json_as_u64(v: &serde_json::Value) -> (r: Option<u64>)
    ensures
        r == json_u64_of(*v),
{
    v.as_u64()
}

/// Relies on `serde_json::Value::as_i64`: the numeric value when `v` is
/// an integer representable as `i64`, and nothing otherwise. The result
/// depends on the value alone.
#[verifier::external_body]
pub(crate) fn json_as_i64(v: &serde_json::Value) -> (r: Option<i64>)
    ensures
        r == json_i64_of(*v),
{
    v.as_i64()
}

/// Relies on `serde_json::Value::as_bool`: the boolean when `v` is a JSON
/// boolean, and nothing otherwise. The result depends on the value alone.
#[verifier::external_body]
pub(crate) fn json_as_bool(v: &serde_json::Value) -> (r: Option<bool>)
    ensures
        r == json_bool_of(*v),
{
    v.as_bool()
}

/// Relies on `serde_json::Value::as_str`: the text when `v` is a JSON
/// string, and nothing otherwise. The result depends on the value alone.
#[verifier::external_body]
pub(crate) fn json_as_str(v: &serde_json::Value) -> (r: Option<&str>)
    ensures
        match r {
            Some(s) => json_str_of(*v) == Some(s@),
            None => json_str_of(*v) is None,
        },
{
    v.as_str()
}

/// Relies on `serde_json::Value::as_array`: the elements when `v` is a
/// JSON array, and nothing otherwise. The result depends on the value
/// alone.
#[verifier::external_body]
pub(crate) fn json_as_array(v: &serde_json::Value) -> (r: Option<&Vec<serde_json::Value>>)
    ensures
        match r {
            Some(items) => json_array_of(*v) == Some(items@),
            None => json_array_of(*v) is None,
        },
{
    v.as_array()
}

/// The text a JSON document renders to.
pub uninterp spec fn json_text_of(v: serde_json::Value) -> Seq<char>;

/// Relies on `serde_json::Value::String`: a JSON string value carrying
/// exactly the given text (`as_str` hands the same text back).
#[verifier::external_body]
pub(crate) fn json_string_value(s: String) -> (v: serde_json::Value)
    ensures
        json_str_of(v) == Some(s@),
{
    serde_json::Value::String(s)
}

/// Relies on `serde_json::Number::from` for `u64`: a JSON number value
/// carrying exactly the given integer (`as_u64` hands it back).
#[verifier::external_body]
pub(crate) fn json_u64_value(n: u64) -> (v: serde_json::Value)
    ensures
        json_u64_of(v) == Some(n),
{
    serde_json::Value::Number(serde_json::Number::from(n))
}

/// Relies on `serde_json::Number::from` for `i64`: a JSON number value
/// carrying exactly the given integer (`as_i64` hands it back).
#[verifier::external_body]
pub(crate) fn json_i64_value(n: i64) -> (v: serde_json::Value)
    ensures
        json_i64_of(v) == Some(n),
{
    serde_json::Value::Number(serde_json::Number::from(n))
}

/// Relies on `serde_json::Value::Bool`: a JSON boolean value carrying
/// exactly the given boolean (`as_bool` hands it back).
#[verifier::external_body]
pub(crate) fn json_bool_value(b: bool) -> (v: serde_json::Value)
    ensures
        json_bool_of(v) == Some(b),
{
    serde_json::Value::Bool(b)
}

/// Relies on `serde_json::Value::Array`: a JSON array value carrying
/// exactly the given elements in order (`as_array` hands them back).
#[verifier::external_body]
pub(crate) fn json_array_value(items: Vec<serde_json::Value>) -> (v: serde_json::Value)
    ensures
        json_array_of(v) == Some(items@),
{
    serde_json::Value::Array(items)
}

/// Relies on `serde_json::Value::Object` over a map collected from the
/// pairs: an object holding exactly the given fields. With distinct keys,
/// `get` returns each pair's value under its key and nothing under any
/// other key.
#[verifier::external_body]
pub(crate) fn json_object_from_pairs(pairs: Vec<(String, serde_json::Value)>) -> (v:
    serde_json::Value)
    requires
        forall|i: int, j: int|
            0 <= i < j < pairs@.len() ==> pairs@[i].0@ != pairs@[j].0@,
    ensures
        forall|i: int|
            0 <= i < pairs@.len() ==> json_field_of(v, #[trigger] pairs@[i].0@) == Some(
                pairs@[i].1,
            ),
        forall|k: Seq<char>|
            (forall|i: int| 0 <= i < pairs@.len() ==> pairs@[i].0@ != k) ==> #[trigger] json_field_of(
                v,
                k,
            ) is None,
{
    serde_json::Value::Object(pairs.into_iter().collect())
}

/// Relies on `serde_json::to_string` on a `Value`, which cannot fail:
/// renders the document as JSON text. The result depends on the document
/// alone.
#[verifier::external_body]
pub(crate) fn json_to_text(v: &serde_json::Value) -> (r: String)
    ensures
        r@ == json_text_of(*v),
{
    serde_json::to_string(v).unwrap_or_default()
}

/// Two texts that differ at one position are different; mentioning the
/// position lets the solver see it for revealed literals.
pub(crate) proof fn lemma_texts_differ_at(s1: Seq<char>, s2: Seq<char>, i: int)
    requires
        0 <= i < s1.len(),
        0 <= i < s2.len(),
        s1[i] != s2[i],
    ensures
        s1 != s2,
{
}

/// Two texts of different lengths are different.
pub(crate) proof fn lemma_texts_differ_in_len(s1: Seq<char>, s2: Seq<char>)
    requires
        s1.len() != s2.len(),
    ensures
        s1 != s2,
{
}

/// The text of the string field of `v` under `key`, when `v` holds that
/// field as a JSON string.
pub open spec fn spec_str_field(v: serde_json::Value, key: Seq<char>) -> Option<Seq<char>> {
    match json_field_of(v, key) {
        Some(f) => json_str_of(f),
        None => None,
    }
}

/// The number of the field of `v` under `key`, when `v` holds that field
/// as an integer fitting in a `u32`.
pub open spec fn spec_u32_field(v: serde_json::Value, key: Seq<char>) -> Option<u32> {
    match json_field_of(v, key) {
        Some(f) => match json_u64_of(f) {
            Some(n) => if n <= u32::MAX as u64 {
                Some(n as u32)
            } else {
                None
            },
            None => None,
        },
        None => None,
    }
}

/// The number of the field of `v` under `key`, when `v` holds that field
/// as an integer fitting in an `i32`.
pub open spec fn spec_i32_field(v: serde_json::Value, key: Seq<char>) -> Option<i32> {
    match json_field_of(v, key) {
        Some(f) => match json_i64_of(f) {
            Some(n) => if i32::MIN as i64 <= n && n <= i32::MAX as i64 {
                Some(n as i32)
            } else {
                None
            },
            None => None,
        },
        None => None,
    }
}

/// The boolean of the field of `v` under `key`, when `v` holds that
/// field as a JSON boolean.
pub open spec fn spec_bool_field(v: serde_json::Value, key: Seq<char>) -> Option<bool> {
    match json_field_of(v, key) {
        Some(f) => json_bool_of(f),
        None => None,
    }
}

/// The string field of `v` under `key`, as an owned `String`.
pub(crate) fn get_str_field(v: &serde_json::Value, key: &str) -> (r: Option<String>)
    ensures
        r is Some <==> spec_str_field(*v, key@) is Some,
        r matches Some(s) ==> spec_str_field(*v, key@) == Some(s@),
{
    match json_get(v, key) {
        Some(f) => match json_as_str(f) {
            Some(s) => Some(s.to_owned()),
            None => None,
        },
        None => None,
    }
}

/// The numeric field of `v` under `key`, when it fits in a `u32`.
pub(crate) fn get_u32_field(v: &serde_json::Value, key: &str) -> (r: Option<u32>)
    ensures
        r == spec_u32_field(*v, key@),
{
    match json_get(v, key) {
        Some(f) => match json_as_u64(f) {
            Some(n) => if n <= u32::MAX as u64 {
                Some(n as u32)
            } else {
                None
            },
            None => None,
        },
        None => None,
    }
}

/// The numeric field of `v` under `key`, when it fits in an `i32`.
pub(crate) fn get_i32_field(v: &serde_json::Value, key: &str) -> (r: Option<i32>)
    ensures
        r == spec_i32_field(*v, key@),
{
    match json_get(v, key) {
        Some(f) => match json_as_i64(f) {
            Some(n) => if i32::MIN as i64 <= n && n <= i32::MAX as i64 {
                Some(n as i32)
            } else {
                None
            },
            None => None,
        },
        None => None,
    }
}

/// The boolean field of `v` under `key`.
pub(crate) fn get_bool_field(v: &serde_json::Value, key: &str) -> (r: Option<bool>)
    ensures
        r == spec_bool_field(*v, key@),
{
    match json_get(v, key) {
        Some(f) => json_as_bool(f),
        None => None,
    }
}

} // verus!
