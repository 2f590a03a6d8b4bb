//! Interpretation of JSON-RPC responses.
//!
//! A response body is parsed as JSON by `serde_json` behind trusted
//! wrappers; everything decided about the parsed value — error replies,
//! the two-tier failure policy, field defaults, hexadecimal decoding — is
//! verified code. Each wrapped call computes a function of its arguments
//! alone, so its result bears a name (`parsed_of`, `get_of`, `str_of`,
//! `render_of`), and the public contracts pin every outcome in terms of
//! those names. The policy is asymmetric by design: the pool-status call
//! may fail in any way and the pending count falls back to zero, while a
//! failed gas-price or block call is an error the caller must treat as
//! fatal.

use crate::hex::{hex_or_zero, hex_to_u128, hex_to_u64};
use serde_json::Value;
use vstd::prelude::*;

verus! {

/// The outside JSON value type, carried opaquely through verified code.
#[verifier::external_type_specification]
#[verifier::external_body]
pub struct ExValue(Value);

/// Whether `serde_json` accepts a string as a JSON document; a function of
/// the text alone.
pub uninterp spec fn json_parses(s: Seq<char>) -> bool;

/// The value a well-formed JSON document denotes: what
/// `serde_json::from_str` returns on it, a function of the text alone.
pub uninterp spec fn parsed_of(s: Seq<char>) -> Value;

/// The member a JSON value holds under a key: what `serde_json::Value::get`
/// returns for a string key — `None` on a non-object and on a missing key.
pub uninterp spec fn get_of(v: Value, key: Seq<char>) -> Option<Value>;

/// The text of a JSON string value: what `serde_json::Value::as_str`
/// returns — `None` on every other kind of value.
pub uninterp spec fn str_of(v: Value) -> Option<Seq<char>>;

/// The compact JSON text a value renders to: what the `Display`
/// implementation of `serde_json::Value` writes.
pub uninterp spec fn render_of(v: Value) -> Seq<char>;

/// Relies on `serde_json::from_str::<Value>`: it returns `Ok` exactly on
/// well-formed JSON text, and which value it returns depends on the text
/// alone.
#[verifier::external_body]
fn parse_json(s: &str) -> (r: Option<Value>)
    ensures
        r is Some <==> json_parses(s@),
        r matches Some(v) ==> v == parsed_of(s@),
{
    serde_json::from_str(s).ok()
}

/// Relies on `serde_json::Value::get`: looks a key up when the value is an
/// object, and returns `None` on any other value or a missing key; which
/// member comes back depends on the value and the key alone.
#[verifier::external_body]
fn json_get(v: &Value, key: &str) -> (r: Option<Value>)
    ensures
        r == get_of(*v, key@),
{
    v.get(key).cloned()
}

/// Relies on `serde_json::Value::as_str`: returns the text of a JSON
/// string value, and `None` for every other kind of value.
#[verifier::external_body]
fn json_as_string(v: &Value) -> (r: Option<String>)
    ensures
        (r is Some) == (str_of(*v) is Some),
        r matches Some(s) ==> (str_of(*v) matches Some(t) && s@ == t),
{
    v.as_str().map(|s| s.to_string())
}

/// Relies on the `Display` implementation of `serde_json::Value`: renders
/// the value as compact JSON text, used to surface an error payload.
#[verifier::external_body]
fn json_render(v: &Value) -> (r: String)
    ensures
        r@ == render_of(*v),
{
    v.to_string()
}

/// Why an RPC call yielded no result.
#[derive(Debug, PartialEq, Eq)]
pub enum RpcError {
    /// The request never produced a response body.
    Transport,
    /// The response body was not well-formed JSON.
    MalformedBody,
    /// The response carried an `error` member; the text renders its payload.
    ErrorReply(String),
}

/// True when a parsed reply carries an `error` member.
pub open spec fn reply_has_error(b: Seq<char>) -> bool {
    get_of(parsed_of(b), "error"@) is Some
}

/// The rendered text of the `error` member of a parsed reply that has one.
pub open spec fn reply_error_text(b: Seq<char>) -> Seq<char> {
    match get_of(parsed_of(b), "error"@) {
        Some(e) => render_of(e),
        None => Seq::empty(),
    }
}

/// The `result` member of a parsed reply, `None` where the reply has none.
pub open spec fn reply_result(b: Seq<char>) -> Option<Value> {
    get_of(parsed_of(b), "result"@)
}

/// Reads one JSON-RPC response body: a body that is not JSON is malformed;
/// a reply with an `error` member fails with that payload's rendered text;
/// otherwise the `result` member is handed back, `None` when the reply has
/// none.
pub fn rpc_result(body: &str) -> (r: Result<Option<Value>, RpcError>)
    ensures
        r matches Err(RpcError::MalformedBody) <==> !json_parses(body@),
        !(r matches Err(RpcError::Transport)),
        (json_parses(body@) && reply_has_error(body@)) ==> (r matches Err(
            RpcError::ErrorReply(t),
        ) && t@ == reply_error_text(body@)),
        (json_parses(body@) && !reply_has_error(body@)) ==> (r matches Ok(res) && res
            == reply_result(body@)),
{
    match parse_json(body) {
        None => Err(RpcError::MalformedBody),
        Some(v) => match json_get(&v, "error") {
            Some(e) => Err(RpcError::ErrorReply(json_render(&e))),
            None => Ok(json_get(&v, "result")),
        },
    }
}

/// The pending count a `pending` field decodes to: the field's hexadecimal
/// value where it is present, well formed and fits, and zero otherwise.
pub fn pending_from_field(field: Option<&str>) -> (r: u64)
    ensures
        r as nat == match field {
            Some(s) => hex_or_zero(s@, u64::MAX as nat),
            None => 0nat,
        },
{
    match field {
        Some(s) => hex_to_u64(s),
        None => 0,
    }
}

/// The wei amount a quantity field decodes to, a missing field read as
/// `"0x0"`: the hexadecimal value where well formed and fitting, and zero
/// otherwise.
pub fn quantity_from_field(field: Option<&str>) -> (r: u128)
    ensures
        r as nat == match field {
            Some(s) => hex_or_zero(s@, u128::MAX as nat),
            None => 0nat,
        },
{
    match field {
        Some(s) => hex_to_u128(s),
        None => {
            let z = hex_to_u128("0x0");
            proof {
                crate::hex::lemma_hex_0x0(u128::MAX as nat);
            }
            z
        },
    }
}

/// The view of an optional response body.
pub open spec fn body_view(response: Option<&str>) -> Option<Seq<char>> {
    match response {
        Some(b) => Some(b@),
        None => None,
    }
}

/// The pending count the pool-status call resolves to: the hexadecimal
/// value of the string `pending` field of the `result` member, and zero on
/// every failure — no response, a body that is not JSON, an error reply, a
/// missing `result` or `pending` member, a non-string field, malformed
/// hex.
pub open spec fn spec_pending_count(response: Option<Seq<char>>) -> nat {
    match response {
        None => 0,
        Some(b) => if !json_parses(b) || reply_has_error(b) {
            0
        } else {
            match reply_result(b) {
                None => 0,
                Some(res) => match get_of(res, "pending"@) {
                    None => 0,
                    Some(p) => match str_of(p) {
                        None => 0,
                        Some(s) => hex_or_zero(s, u64::MAX as nat),
                    },
                },
            }
        },
    }
}

/// The pending-transaction count taken from the pool-status call.
/// `response` is the response body, or `None` where the call produced
/// none. This call's failure never aborts the probe: the count is a total
/// function of the response that resolves to zero on every failure.
pub fn pending_count(response: Option<&str>) -> (r: u64)
    ensures
        r as nat == spec_pending_count(body_view(response)),
{
    match response {
        None => 0,
        Some(body) => match rpc_result(body) {
            Err(_) => 0,
            Ok(None) => 0,
            Ok(Some(result)) => {
                let field = match json_get(&result, "pending") {
                    Some(p) => json_as_string(&p),
                    None => None,
                };
                pending_from_field(match &field {
                    Some(s) => Some(s.as_str()),
                    None => None,
                })
            },
        },
    }
}

/// The wei amount the `result` member of a parsed reply decodes to, with a
/// missing or non-string result read as `"0x0"`.
pub open spec fn spec_result_quantity(b: Seq<char>) -> nat {
    match reply_result(b) {
        None => 0,
        Some(res) => match str_of(res) {
            None => 0,
            Some(s) => hex_or_zero(s, u128::MAX as nat),
        },
    }
}

/// The wei amount the `baseFeePerGas` member of a parsed reply's `result`
/// block decodes to, with a missing or non-string field read as `"0x0"`.
pub open spec fn spec_base_fee(b: Seq<char>) -> nat {
    match reply_result(b) {
        None => 0,
        Some(block) => match get_of(block, "baseFeePerGas"@) {
            None => 0,
            Some(f) => match str_of(f) {
                None => 0,
                Some(s) => hex_or_zero(s, u128::MAX as nat),
            },
        },
    }
}

/// The gas price taken from the gas-price call. Unlike the pool-status
/// call, a failed call is an error the caller must treat as fatal: no
/// response is a transport failure, a body that is not JSON is malformed,
/// and an error reply carries its payload's rendered text. Success is owed
/// exactly on a parsed reply without an `error` member, and the value is
/// the decoded `result` string, read as `"0x0"` where it is no string.
pub fn gas_price_wei(response: Option<&str>) -> (r: Result<u128, RpcError>)
    ensures
        response is None ==> r matches Err(RpcError::Transport),
        (response matches Some(b) && !json_parses(b@)) ==> r matches Err(RpcError::MalformedBody),
        response matches Some(b) ==> ((json_parses(b@) && reply_has_error(b@)) ==> (r matches Err(
            RpcError::ErrorReply(t),
        ) && t@ == reply_error_text(b@))),
        response matches Some(b) ==> ((json_parses(b@) && !reply_has_error(b@)) ==> (r matches Ok(
            v,
        ) && v as nat == spec_result_quantity(b@))),
{
    match response {
        None => Err(RpcError::Transport),
        Some(body) => match rpc_result(body) {
            Err(e) => Err(e),
            Ok(result) => {
                let field = match &result {
                    Some(v) => json_as_string(v),
                    None => None,
                };
                Ok(quantity_from_field(match &field {
                    Some(s) => Some(s.as_str()),
                    None => None,
                }))
            },
        },
    }
}

/// The base fee taken from the latest-block call. The call's failure is an
/// error the caller must treat as fatal, exactly as for the gas price; but
/// a block without a `baseFeePerGas` field is no error — the field reads
/// as `"0x0"`, and success is owed exactly on a parsed reply without an
/// `error` member.
pub fn base_fee_wei(response: Option<&str>) -> (r: Result<u128, RpcError>)
    ensures
        response is None ==> r matches Err(RpcError::Transport),
        (response matches Some(b) && !json_parses(b@)) ==> r matches Err(RpcError::MalformedBody),
        response matches Some(b) ==> ((json_parses(b@) && reply_has_error(b@)) ==> (r matches Err(
            RpcError::ErrorReply(t),
        ) && t@ == reply_error_text(b@))),
        response matches Some(b) ==> ((json_parses(b@) && !reply_has_error(b@)) ==> (r matches Ok(
            v,
        ) && v as nat == spec_base_fee(b@))),
{
    match response {
        None => Err(RpcError::Transport),
        Some(body) => match rpc_result(body) {
            Err(e) => Err(e),
            Ok(result) => {
                let field = match &result {
                    Some(block) => match json_get(block, "baseFeePerGas") {
                        Some(f) => json_as_string(&f),
                        None => None,
                    },
                    None => None,
                };
                Ok(quantity_from_field(match &field {
                    Some(s) => Some(s.as_str()),
                    None => None,
                }))
            },
        },
    }
}

/// What a quantity field decodes to over its view, a missing field read as
/// zero.
pub open spec fn spec_quantity(field: Option<Seq<char>>) -> nat {
    match field {
        Some(s) => hex_or_zero(s, u128::MAX as nat),
        None => 0nat,
    }
}

/// A block without a `baseFeePerGas` field reads exactly as one whose
/// field holds `"0x0"`.
pub proof fn lemma_missing_field_reads_as_zero()
    ensures
        spec_quantity(None) == spec_quantity(Some("0x0"@)),
{
    crate::hex::lemma_hex_0x0(u128::MAX as nat);
}

} // verus!
