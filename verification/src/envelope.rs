//! The response envelope: every API response is either a success carrying
//! a typed payload or a failure carrying structured errors, and the
//! variant is inferred from which fields the response holds, never from
//! an explicit tag. The selection rule lives in [`envelope_from_parts`],
//! whose contract pins it down exactly.

use vstd::prelude::*;
use vstd::string::StringExecFns;
use crate::json::get_str_field;
use crate::json::get_u32_field;
use crate::json::json_array_of;
use crate::json::json_as_array;
use crate::json::json_field_of;
use crate::json::json_get;
use crate::json::json_object_from_pairs;
use crate::json::json_string_value;
use crate::json::json_u64_value;
use crate::json::lemma_texts_differ_at;
use crate::json::spec_str_field;
use crate::json::spec_u32_field;

verus! {

/// Marker for the payload types the API can return.
pub trait ValorantAPIData {

}

/// One structured error reported by the API. The `details` text may be
/// the literal text `null`, which is not the same as an absent field.
#[derive(Debug)]
pub struct ApiError {
    pub message: String,
    pub code: u32,
    pub details: String,
}

/// The outcome of one API call: a success with a typed payload, or a
/// failure with the errors the API reported. Exactly one variant is
/// populated; the status code is carried through unchanged either way.
#[derive(Debug)]
pub enum ApiResponse<T: ValorantAPIData> {
    Success { status: u32, data: T },
    Failure { status: u32, errors: Vec<ApiError> },
}

/// Why a response body could not be decoded into an envelope.
#[derive(Debug, PartialEq, Eq, Structural)]
pub enum DecodeError {
    /// The body parses as JSON but matches neither the success shape nor
    /// the failure shape.
    MalformedEnvelope,
}

/// Select the envelope variant from what the response body carried.
///
/// `data` is the payload when the body held a well-formed `data` field,
/// and `errors` the error list when it held a well-formed `errors` field.
/// A payload without errors is a success; otherwise a present error list
/// is a failure; a body with neither is malformed.
pub fn envelope_from_parts<T: ValorantAPIData>(
    status: u32,
    data: Option<T>,
    errors: Option<Vec<ApiError>>,
) -> (r: Result<ApiResponse<T>, DecodeError>)
    ensures
        (data is Some && errors is None) <==> (r matches Ok(env) && env is Success),
        errors is Some <==> (r matches Ok(env) && env is Failure),
        (data is None && errors is None) <==> r == Err::<ApiResponse<T>, DecodeError>(
            DecodeError::MalformedEnvelope,
        ),
        r matches Ok(ApiResponse::Success { status: st, data: d }) ==> st == status && data
            == Some(d),
        r matches Ok(ApiResponse::Failure { status: st, errors: es }) ==> st == status && errors
            == Some(es),
{
    match (data, errors) {
        (Some(d), None) => Ok(ApiResponse::Success { status, data: d }),
        (_, Some(es)) => Ok(ApiResponse::Failure { status, errors: es }),
        (None, None) => Err(DecodeError::MalformedEnvelope),
    }
}

/// The `status` a response document carries: its `status` field, when
/// present and numeric and fitting in a `u32`.
pub open spec fn spec_status_of(doc: serde_json::Value) -> Option<u32> {
    spec_u32_field(doc, "status"@)
}

/// An errors-array element is well-formed when it holds a string
/// `message`, a numeric `code` and a string `details`.
pub open spec fn api_error_wf(v: serde_json::Value) -> bool {
    &&& spec_str_field(v, "message"@) is Some
    &&& spec_u32_field(v, "code"@) is Some
    &&& spec_str_field(v, "details"@) is Some
}

/// `e` is the error record read from the errors-array element `v`.
pub open spec fn api_error_of(v: serde_json::Value, e: ApiError) -> bool {
    &&& spec_str_field(v, "message"@) == Some(e.message@)
    &&& spec_u32_field(v, "code"@) == Some(e.code)
    &&& spec_str_field(v, "details"@) == Some(e.details@)
}

/// Every element of an errors array is a well-formed error record.
pub open spec fn errors_array_wf(items: Seq<serde_json::Value>) -> bool {
    forall|i: int| 0 <= i < items.len() ==> #[trigger] api_error_wf(items[i])
}

/// `es` is the error list read from the errors array `items`: the same
/// length, element by element in order.
pub open spec fn errors_array_of(items: Seq<serde_json::Value>, es: Seq<ApiError>) -> bool {
    &&& es.len() == items.len()
    &&& forall|i: int| 0 <= i < items.len() ==> #[trigger] api_error_of(items[i], es[i])
}

/// A response document holds a well-formed `errors` field: an array
/// whose every element is a well-formed error record.
pub open spec fn errors_field_wf(doc: serde_json::Value) -> bool {
    match json_field_of(doc, "errors"@) {
        Some(f) => match json_array_of(f) {
            Some(items) => errors_array_wf(items),
            None => false,
        },
        None => false,
    }
}

/// `es` is the error list read from the `errors` field of `doc`.
pub open spec fn errors_field_of(doc: serde_json::Value, es: Seq<ApiError>) -> bool {
    &&& json_field_of(doc, "errors"@) matches Some(f) && json_array_of(f) matches Some(items)
        && errors_array_of(items, es)
}

/// The `status` field of a response body, when present and numeric.
pub(crate) fn decode_status(v: &serde_json::Value) -> (r: Option<u32>)
    ensures
        r == spec_status_of(*v),
{
    get_u32_field(v, "status")
}

/// One element of an `errors` array: its message, code and details.
fn decode_api_error(v: &serde_json::Value) -> (r: Option<ApiError>)
    ensures
        r is Some <==> api_error_wf(*v),
        r matches Some(e) ==> api_error_of(*v, e),
{
    let message = match get_str_field(v, "message") {
        Some(s) => s,
        None => {
            return None;
        },
    };
    let code = match get_u32_field(v, "code") {
        Some(n) => n,
        None => {
            return None;
        },
    };
    let details = match get_str_field(v, "details") {
        Some(s) => s,
        None => {
            return None;
        },
    };
    Some(ApiError { message, code, details })
}

/// Every element of an `errors` array, in order; nothing when any
/// element is ill-formed.
fn decode_api_errors(items: &Vec<serde_json::Value>) -> (r: Option<Vec<ApiError>>)
    ensures
        r is Some <==> errors_array_wf(items@),
        r matches Some(es) ==> errors_array_of(items@, es@),
{
    let mut out: Vec<ApiError> = Vec::new();
    let mut i: usize = 0;
    while i < items.len()
        invariant
            i <= items@.len(),
            out@.len() == i,
            forall|j: int| 0 <= j < i ==> #[trigger] api_error_wf(items@[j]),
            forall|j: int| 0 <= j < i ==> #[trigger] api_error_of(items@[j], out@[j]),
        decreases items@.len() - i,
    {
        match decode_api_error(&items[i]) {
            Some(e) => out.push(e),
            None => {
                proof {
                    assert(!api_error_wf(items@[i as int]));
                }
                return None;
            },
        }
        i = i + 1;
    }
    Some(out)
}

/// The `errors` field of a response body, when present and well-formed:
/// an array whose every element is a well-formed error record.
pub(crate) fn decode_errors(v: &serde_json::Value) -> (r: Option<Vec<ApiError>>)
    ensures
        r is Some <==> errors_field_wf(*v),
        r matches Some(es) ==> errors_field_of(*v, es@),
{
    match json_get(v, "errors") {
        Some(f) => match json_as_array(f) {
            Some(items) => decode_api_errors(items),
            None => None,
        },
        None => None,
    }
}


/// Render one error record as a JSON object: the mirror of
/// [`decode_api_errors`]'s element reader.
fn encode_api_error(e: &ApiError) -> (v: serde_json::Value)
    ensures
        api_error_wf(v),
        api_error_of(v, *e),
{
    proof {
        reveal_strlit("message");
        reveal_strlit("code");
        reveal_strlit("details");
        lemma_texts_differ_at("message"@, "code"@, 0);
        lemma_texts_differ_at("message"@, "details"@, 0);
        lemma_texts_differ_at("code"@, "details"@, 0);
    }
    let mut pairs: Vec<(String, serde_json::Value)> = Vec::new();
    pairs.push((String::from_str("message"), json_string_value(e.message.clone())));
    pairs.push((String::from_str("code"), json_u64_value(e.code as u64)));
    pairs.push((String::from_str("details"), json_string_value(e.details.clone())));
    proof {
        assert(pairs@[0].0@ == "message"@);
        assert(pairs@[1].0@ == "code"@);
        assert(pairs@[2].0@ == "details"@);
    }
    json_object_from_pairs(pairs)
}

/// Render an error list as JSON array elements, in order: the mirror of
/// [`decode_api_errors`].
pub(crate) fn encode_api_errors(errors: &Vec<ApiError>) -> (vals: Vec<serde_json::Value>)
    ensures
        errors_array_wf(vals@),
        errors_array_of(vals@, errors@),
{
    let mut vals: Vec<serde_json::Value> = Vec::new();
    let mut i: usize = 0;
    while i < errors.len()
        invariant
            i <= errors@.len(),
            vals@.len() == i,
            forall|j: int| 0 <= j < i ==> #[trigger] api_error_wf(vals@[j]),
            forall|j: int| 0 <= j < i ==> #[trigger] api_error_of(vals@[j], errors@[j]),
        decreases errors@.len() - i,
    {
        let v = encode_api_error(&errors[i]);
        vals.push(v);
        i = i + 1;
    }
    vals
}

} // verus!
