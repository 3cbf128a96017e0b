//! Reading the verdict of the e-mail checking service from its JSON reply.

use vstd::prelude::*;
use serde_json::Value;

verus! {

#[verifier::external_type_specification]
#[verifier::external_body]
pub struct ExValue(serde_json::Value);

/// Whether the bytes are one JSON text, as serde_json reads it.
pub uninterp spec fn is_json(body: Seq<u8>) -> bool;

/// Relies on `serde_json::from_slice`: the bytes read as one JSON value,
/// `None` where they are not JSON.
#[verifier::external_body]
fn parse_json(body: &[u8]) -> (r: Option<Value>)
    ensures
        r is Some <==> is_json(body@),
{
    serde_json::from_slice::<Value>(body).ok()
}

/// Relies on `serde_json::Value::get`: the member of an object with this key,
/// `None` for a missing key or a value that is not an object.
#[verifier::external_body]
fn json_member<'a>(v: &'a Value, key: &str) -> (r: Option<&'a Value>) {
    v.get(key)
}

/// Relies on `serde_json::Value::as_bool`: the boolean, `None` for any other value.
pub assume_specification[ serde_json::Value::as_bool ](v: &Value) -> (r: Option<bool>);

/// Why a reply of the e-mail checking service gave no verdict.
#[derive(Debug, Clone, Copy, PartialEq, Eq, Structural)]
pub enum VerdictError {
    /// The reply is not JSON.
    NotJson,
    /// The reply has no `block` member.
    NoVerdict,
}

/// The verdict that a reply's `block` member gives: `None` where the reply
/// has no such member, else what `as_bool` read from it.
pub open spec fn verdict(block: Option<Option<bool>>) -> Result<bool, VerdictError> {
    match block {
        None => Err(VerdictError::NoVerdict),
        Some(b) => Ok(b == Some(true)),
    }
}

/// The verdict from the `block` member of the reply: blocked only when it is
/// the boolean `true`; a member that is not a boolean blocks nothing.
pub fn block_verdict(block: Option<Option<bool>>) -> (r: Result<bool, VerdictError>)
    ensures
        r == verdict(block),
{
    match block {
        None => Err(VerdictError::NoVerdict),
        Some(Some(true)) => Ok(true),
        Some(_) => Ok(false),
    }
}

/// Whether the service blocks the address, read from its reply: not JSON,
/// or the verdict of its `block` member.
pub fn email_blocked(body: &[u8]) -> (r: Result<bool, VerdictError>)
    ensures
        !is_json(body@) ==> r == Err::<bool, VerdictError>(VerdictError::NotJson),
        is_json(body@) ==> exists|block: Option<Option<bool>>| r == verdict(block),
{
    match parse_json(body) {
        None => Err(VerdictError::NotJson),
        Some(v) => {
            let block = match json_member(&v, "block") {
                None => None,
                Some(b) => Some(b.as_bool()),
            };
            block_verdict(block)
        },
    }
}

} // verus!
