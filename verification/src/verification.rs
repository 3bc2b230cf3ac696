//! Interpreting the human-verification service's answer.
//!
//! The verification service is asked over HTTPS with the shared secret and
//! the submitted token, and answers with a JSON object that carries at
//! least a boolean `success` member. The transport itself happens outside
//! this crate; what stands here is the reading of the answer — status code
//! and body text to a verification outcome — and the policy gate: the
//! pipeline dispatches only on a positive, confirmed outcome, and treats
//! every failure to confirm as "not verified".

use vstd::prelude::*;

verus! {

/// The `success` member of the JSON document `s`: `Some(b)` when `s`
/// parses as JSON and its `success` member is the boolean `b`, `None`
/// otherwise. A function of the text alone.
pub uninterp spec fn success_field_of(s: Seq<char>) -> Option<bool>;

/// Relies on serde_json::from_str, serde_json::Value::get and
/// serde_json::Value::as_bool: whether a text parses as JSON, and what its
/// `success` member holds, is a function of the text alone.
#[verifier::external_body]
fn json_success_field(body: &str) -> (r: Option<bool>)
    ensures
        r == success_field_of(body@),
{
    match serde_json::from_str::<serde_json::Value>(body) {
        Ok(doc) => match doc.get("success") {
            Some(member) => member.as_bool(),
            None => None,
        },
        Err(_) => None,
    }
}

/// Why a verification outcome could not be confirmed.
#[derive(Debug, PartialEq, Eq)]
pub enum VerificationError {
    /// The verification service could not be reached (DNS, connect,
    /// timeout); the diagnostic text comes from the transport.
    Transport(String),
    /// The service answered with a non-2xx status.
    Status(u16),
    /// The response body was not a JSON object with a boolean `success`
    /// member.
    Malformed,
}

/// A 2xx status code.
pub open spec fn is_success_status(status: u16) -> bool {
    200 <= status < 300
}

/// Read the verification service's HTTP answer: `Ok(b)` exactly when the
/// status is 2xx and the body is a JSON document whose `success` member is
/// the boolean `b`; `Err(Status)` on a non-2xx status; `Err(Malformed)` on
/// a 2xx answer without a boolean `success` member.
pub fn interpret_verification_response(status: u16, body: &str) -> (r: Result<
    bool,
    VerificationError,
>)
    ensures
        !is_success_status(status) ==> r == Result::<bool, VerificationError>::Err(
            VerificationError::Status(status),
        ),
        is_success_status(status) ==> match success_field_of(body@) {
            Some(b) => r == Result::<bool, VerificationError>::Ok(b),
            None => r == Result::<bool, VerificationError>::Err(VerificationError::Malformed),
        },
{
    if status < 200 || status >= 300 {
        return Err(VerificationError::Status(status));
    }
    match json_success_field(body) {
        Some(b) => Ok(b),
        None => Err(VerificationError::Malformed),
    }
}

/// The policy gate: dispatch goes ahead only on a confirmed positive
/// outcome; a negative answer and every transport or parse failure abort
/// the pipeline.
pub fn verification_passed(outcome: &Result<bool, VerificationError>) -> (r: bool)
    ensures
        r == (*outcome == Result::<bool, VerificationError>::Ok(true)),
{
    match outcome {
        Ok(b) => *b,
        Err(_) => false,
    }
}

} // verus!
