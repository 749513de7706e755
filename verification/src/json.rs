//! Recovering a JSON-RPC document from a decrypted payload.
//!
//! The payload is random padding around one JSON document. The extractor
//! scans for brace-delimited regions that parse as JSON, preferring the
//! region that ends latest and, among those, the widest one — matching the
//! convention that documents are placed toward the end of the payload.
//! Whether bytes parse is decided by serde_json behind trusted items; the
//! scan itself is verified.

use vstd::prelude::*;
use vstd::slice::{slice_subrange, slice_to_vec};

verus! {

/// Whether serde_json accepts the bytes as one JSON value.
pub uninterp spec fn json_accepted(s: Seq<u8>) -> bool;

/// Relies on serde_json's `from_slice::<Value>`: acceptance is a function
/// of the bytes alone.
#[verifier::external_body]
fn is_json_value(bytes: &[u8]) -> (r: bool)
    ensures
        r == json_accepted(bytes@),
{
    serde_json::from_slice::<serde_json::Value>(bytes).is_ok()
}

/// The string value of the `"jsonrpc"` field of a top-level JSON object,
/// if the bytes parse to an object with such a string field.
pub uninterp spec fn jsonrpc_field_of(s: Seq<u8>) -> Option<Seq<char>>;

/// Relies on serde_json's `from_slice::<Value>`, `Value::get` and
/// `Value::as_str`: the field value is a function of the bytes alone.
#[verifier::external_body]
pub(crate) fn json_jsonrpc_field(bytes: &[u8]) -> (r: Option<String>)
    ensures
        r matches Some(v) ==> jsonrpc_field_of(bytes@) == Some(v@),
        r is None ==> jsonrpc_field_of(bytes@) is None,
{
    serde_json::from_slice::<serde_json::Value>(bytes)
        .ok()
        .and_then(|v| v.get("jsonrpc").and_then(|f| f.as_str()).map(|s| s.to_owned()))
}

/// The string value of the `"method"` field of a top-level JSON object,
/// if the bytes parse to an object with such a string field.
pub uninterp spec fn method_field_of(s: Seq<u8>) -> Option<Seq<char>>;

/// Relies on serde_json's `from_slice::<Value>`, `Value::get` and
/// `Value::as_str`: the field value is a function of the bytes alone.
#[verifier::external_body]
pub(crate) fn json_method_field(bytes: &[u8]) -> (r: Option<String>)
    ensures
        r matches Some(v) ==> method_field_of(bytes@) == Some(v@),
        r is None ==> method_field_of(bytes@) is None,
{
    serde_json::from_slice::<serde_json::Value>(bytes)
        .ok()
        .and_then(|v| v.get("method").and_then(|f| f.as_str()).map(|s| s.to_owned()))
}

/// Whether the bytes parse to an object whose `"params"` field is an array.
pub uninterp spec fn params_is_array_of(s: Seq<u8>) -> bool;

/// Relies on serde_json's `from_slice::<Value>`, `Value::get` and
/// `Value::is_array`: the answer is a function of the bytes alone.
#[verifier::external_body]
pub(crate) fn json_params_is_array(bytes: &[u8]) -> (r: bool)
    ensures
        r == params_is_array_of(bytes@),
{
    serde_json::from_slice::<serde_json::Value>(bytes)
        .ok()
        .and_then(|v| v.get("params").map(|p| p.is_array()))
        .unwrap_or(false)
}

/// The first element of the `"params"` array, if it is a string.
pub uninterp spec fn first_param_of(s: Seq<u8>) -> Option<Seq<char>>;

/// Relies on serde_json's `from_slice::<Value>`, `Value::get` and
/// `Value::as_str`: the element is a function of the bytes alone.
#[verifier::external_body]
pub(crate) fn json_first_param(bytes: &[u8]) -> (r: Option<String>)
    ensures
        r matches Some(v) ==> first_param_of(bytes@) == Some(v@),
        r is None ==> first_param_of(bytes@) is None,
{
    serde_json::from_slice::<serde_json::Value>(bytes)
        .ok()
        .and_then(|v| v.get("params").and_then(|p| p.get(0)).and_then(|f| f.as_str()).map(|s| s.to_owned()))
}

/// Whether the second element of the `"params"` array is an object holding
/// any of the fields `privacy`, `mevBlocker` or `flashbots`.
pub uninterp spec fn privacy_intent_of(s: Seq<u8>) -> bool;

/// Relies on serde_json's `from_slice::<Value>` and `Value::get`: the
/// answer is a function of the bytes alone (`get` on a non-object returns
/// nothing).
#[verifier::external_body]
pub(crate) fn json_privacy_intent(bytes: &[u8]) -> (r: bool)
    ensures
        r == privacy_intent_of(bytes@),
{
    serde_json::from_slice::<serde_json::Value>(bytes)
        .ok()
        .and_then(|v| v.get("params").and_then(|p| p.get(1)).map(|p1|
            p1.get("privacy").is_some() || p1.get("mevBlocker").is_some()
                || p1.get("flashbots").is_some()))
        .unwrap_or(false)
}

/// Whether the bytes parse to a JSON object holding at least one of the
/// fields `jsonrpc`, `result` or `error` — the shape of a JSON-RPC
/// response.
pub uninterp spec fn rpc_response_shaped(s: Seq<u8>) -> bool;

/// Relies on serde_json's `from_slice::<Value>` and `Value::get`: the
/// answer is a function of the bytes alone.
#[verifier::external_body]
pub(crate) fn json_rpc_response_shaped(bytes: &[u8]) -> (r: bool)
    ensures
        r == rpc_response_shaped(bytes@),
{
    serde_json::from_slice::<serde_json::Value>(bytes)
        .ok()
        .map(|v| v.is_object() && (v.get("jsonrpc").is_some() || v.get("result").is_some()
            || v.get("error").is_some()))
        .unwrap_or(false)
}

/// `p[start..end]` is brace-delimited and parses as a JSON value.
pub open spec fn is_candidate(p: Seq<u8>, start: int, end: int) -> bool {
    &&& 0 <= start < end <= p.len()
    &&& p[start] == 0x7bu8
    &&& p[end - 1] == 0x7du8
    &&& json_accepted(p.subrange(start, end))
}

/// The region the extraction policy picks: an accepted region that no
/// accepted region outlasts, and the widest among those ending with it.
pub open spec fn is_chosen(p: Seq<u8>, start: int, end: int) -> bool {
    &&& is_candidate(p, start, end)
    &&& forall|s2: int, e2: int| e2 > end ==> !is_candidate(p, s2, e2)
    &&& forall|s2: int| s2 < start ==> !is_candidate(p, s2, end)
}

/// Scan a decrypted payload for the JSON document placed in it: the
/// accepted brace-delimited region ending latest, widest first among those
/// sharing that end. Returns nothing when no region of the payload parses.
pub fn extract_json(payload: &Vec<u8>) -> (r: Option<Vec<u8>>)
    ensures
        r matches Some(v) ==> exists|s: int, e: int|
            is_chosen(payload@, s, e) && v@ == payload@.subrange(s, e),
        r is None ==> forall|s: int, e: int| !is_candidate(payload@, s, e),
{
    let n = payload.len();
    let mut end: usize = n;
    while end >= 1
        invariant
            end <= n,
            n == payload@.len(),
            forall|s2: int, e2: int| e2 > end ==> !is_candidate(payload@, s2, e2),
        decreases end,
    {
        if payload[end - 1] == 0x7du8 {
            let mut start: usize = 0;
            while start < end
                invariant
                    start <= end <= n,
                    n == payload@.len(),
                    payload@[end - 1] == 0x7du8,
                    forall|s2: int, e2: int| e2 > end ==> !is_candidate(payload@, s2, e2),
                    forall|s2: int| s2 < start ==> !is_candidate(payload@, s2, end as int),
                decreases end - start,
            {
                if payload[start] == 0x7bu8 {
                    let cand = slice_subrange(payload.as_slice(), start, end);
                    if is_json_value(cand) {
                        assert(is_candidate(payload@, start as int, end as int));
                        return Some(slice_to_vec(cand));
                    }
                }
                start += 1;
            }
        }
        assert(forall|s2: int| !is_candidate(payload@, s2, end as int));
        end -= 1;
    }
    None
}

/// The extraction policy never picks two regions: the chosen region is
/// unique.
pub proof fn lemma_chosen_unique(p: Seq<u8>, s1: int, e1: int, s2: int, e2: int)
    requires
        is_chosen(p, s1, e1),
        is_chosen(p, s2, e2),
    ensures
        s1 == s2,
        e1 == e2,
{
    assert(!(e2 > e1));
    assert(!(e1 > e2));
    assert(!(s2 < s1));
    assert(!(s1 < s2));
}

/// Round trip of placement and extraction: when the document placed in the
/// padding is the policy's chosen region — no accepted brace-delimited
/// region of the payload ends after it, and none wider ends with it — then
/// whatever satisfies the extractor's contract is exactly that document.
pub proof fn lemma_extraction_round_trip(p: Seq<u8>, s: int, e: int, v: Seq<u8>)
    requires
        is_chosen(p, s, e),
        exists|s2: int, e2: int| is_chosen(p, s2, e2) && v == p.subrange(s2, e2),
    ensures
        v == p.subrange(s, e),
{
    let (s2, e2) = choose|s2: int, e2: int| is_chosen(p, s2, e2) && v == p.subrange(s2, e2);
    lemma_chosen_unique(p, s, e, s2, e2);
}

} // verus!
