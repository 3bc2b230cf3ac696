//! The submission pipeline: parse, verify, render, dispatch.
//!
//! One invocation is one run of a four-stage sequential pipeline. Parsing
//! rejects a payload with a missing or empty field before any outside call
//! is made. The verification gate aborts the run unless the verification
//! outcome is a confirmed positive. Rendering cannot fail once parsing
//! succeeded. A dispatch failure is absorbed: the run still counts as
//! handled, so the invoking host does not retry a permanently rejected
//! message; only the message identifier is then missing.
//!
//! The two outside calls themselves — the verification request and the
//! mail submission — are suspension points of the invoking program; their
//! outcomes enter the pipeline here as plain values, and the pipeline's
//! contract states for every such outcome what the run returns and which
//! calls it made.

use crate::render::body_from_fields;
use crate::render::body_of;
use crate::render::render_body;
use crate::render::subject_line;
use crate::render::subject_of;
use crate::submission::field_of;
use crate::submission::missing_field;
use crate::submission::parse_submission;
use crate::submission::Submission;
use crate::verification::verification_passed;
use crate::verification::VerificationError;
use vstd::prelude::*;

verus! {

/// Process-lifetime configuration, loaded once at startup; every field is
/// required and non-empty.
#[derive(Debug, PartialEq, Eq)]
pub struct PipelineConfig {
    /// Shared secret of the verification service.
    pub captcha_secret: String,
    /// Sender mailbox of the notification.
    pub source_address: String,
    /// Destination mailbox of the notification.
    pub forward_address: String,
}

/// The fully built notification, as handed to the mail-sending service.
#[derive(Debug, PartialEq, Eq)]
pub struct NotificationMessage {
    pub subject: String,
    pub body_html: String,
    pub source_address: String,
    pub destination_address: String,
}

/// A rejection by the mail-sending service, with its human-readable
/// diagnostic.
#[derive(Debug, PartialEq, Eq)]
pub struct DispatchError {
    pub diagnostic: String,
}

/// The terminal outcome of one pipeline run.
#[derive(Debug, PartialEq, Eq)]
pub enum PipelineResult {
    /// The run is handled; the message identifier is present when the
    /// dispatch succeeded and absent when the dispatch failed and was
    /// absorbed.
    Done(Option<String>),
    /// A required field was missing or empty; its name is the reason.
    RejectedInput(String),
    /// The verification outcome was not a confirmed positive.
    RejectedVerification,
    /// A stage that must not fail did; carries the diagnostic.
    InternalError(String),
}

/// One finished pipeline run: its result, which outside calls it made,
/// and the message it built for dispatch, if it reached that stage.
#[derive(Debug, PartialEq, Eq)]
pub struct PipelineRun {
    pub result: PipelineResult,
    pub verify_called: bool,
    pub dispatch_called: bool,
    pub message: Option<NotificationMessage>,
}

/// Build the notification for a submission: fixed subject, rendered body,
/// addresses from the configuration.
pub fn build_message(s: &Submission, cfg: &PipelineConfig) -> (m: NotificationMessage)
    ensures
        m.subject@ == subject_of(),
        m.body_html@ == body_of(*s),
        m.source_address@ == cfg.source_address@,
        m.destination_address@ == cfg.forward_address@,
{
    NotificationMessage {
        subject: subject_line(),
        body_html: render_body(s),
        source_address: cfg.source_address.clone(),
        destination_address: cfg.forward_address.clone(),
    }
}

/// The terminal result that the dispatch stage's outcome determines: a
/// successful dispatch carries its message identifier; a rejection is
/// absorbed and the run is still `Done`, without an identifier.
pub open spec fn dispatch_result_of(outcome: Result<String, DispatchError>) -> PipelineResult {
    match outcome {
        Ok(id) => PipelineResult::Done(Some(id)),
        Err(_) => PipelineResult::Done(None),
    }
}

/// Close the run after the dispatch stage.
pub fn finish_dispatch(outcome: Result<String, DispatchError>) -> (r: PipelineResult)
    ensures
        r == dispatch_result_of(outcome),
{
    match outcome {
        Ok(id) => PipelineResult::Done(Some(id)),
        Err(_) => PipelineResult::Done(None),
    }
}

/// One whole pipeline run, with the outcomes of the two outside calls
/// handed in as values.
///
/// The contract is the pipeline's policy:
/// - a payload with a missing or empty required field is rejected with
///   that field's name before either outside call;
/// - a well-formed payload always reaches the verification call;
/// - unless verification confirmed a positive outcome, the dispatcher is
///   never invoked and the run ends in `RejectedVerification`;
/// - on a confirmed positive outcome the notification is built from
///   exactly the submitted fields and dispatched, and the run is `Done` —
///   with the dispatcher's message identifier, or without one when the
///   dispatch failed and was absorbed.
pub fn run_pipeline(
    pairs: &Vec<(String, String)>,
    cfg: &PipelineConfig,
    verify_outcome: Result<bool, VerificationError>,
    dispatch_outcome: Result<String, DispatchError>,
) -> (run: PipelineRun)
    ensures
        missing_field(pairs@) matches Some(f) ==> {
            &&& !run.verify_called
            &&& !run.dispatch_called
            &&& run.message is None
            &&& run.result matches PipelineResult::RejectedInput(reason) && reason@ == f
        },
        missing_field(pairs@) is None ==> run.verify_called,
        missing_field(pairs@) is None && verify_outcome != Result::<bool, VerificationError>::Ok(
            true,
        ) ==> !run.dispatch_called && run.message is None && run.result
            is RejectedVerification,
        missing_field(pairs@) is None && verify_outcome == Result::<bool, VerificationError>::Ok(
            true,
        ) ==> {
            &&& run.dispatch_called
            &&& run.message matches Some(m) && m.subject@ == subject_of() && m.body_html@
                == body_from_fields(
                field_of(pairs@, "name"@),
                field_of(pairs@, "email"@),
                field_of(pairs@, "telephone"@),
                field_of(pairs@, "detail"@),
            ) && m.source_address@ == cfg.source_address@ && m.destination_address@
                == cfg.forward_address@
            &&& run.result == dispatch_result_of(dispatch_outcome)
        },
{
    let submission = match parse_submission(pairs) {
        Ok(s) => s,
        Err(e) => {
            return PipelineRun {
                result: PipelineResult::RejectedInput(e.field),
                verify_called: false,
                dispatch_called: false,
                message: None,
            };
        },
    };
    if !verification_passed(&verify_outcome) {
        return PipelineRun {
            result: PipelineResult::RejectedVerification,
            verify_called: true,
            dispatch_called: false,
            message: None,
        };
    }
    let message = build_message(&submission, cfg);
    let result = finish_dispatch(dispatch_outcome);
    PipelineRun { result, verify_called: true, dispatch_called: true, message: Some(message) }
}

/// Law: the relay deduplicates nothing. Dispatching the same submission
/// twice yields two runs whose terminal results each carry their own
/// message identifier; where the mail-sending service minted distinct
/// identifiers, the two results are distinct.
pub proof fn lemma_dispatch_is_not_idempotent(id1: String, id2: String)
    requires
        id1@ != id2@,
    ensures
        dispatch_result_of(Ok(id1)) == PipelineResult::Done(Some(id1)),
        dispatch_result_of(Ok(id2)) == PipelineResult::Done(Some(id2)),
        dispatch_result_of(Ok(id1)) != dispatch_result_of(Ok(id2)),
{
}

/// What one finished run signals to the invoking host.
#[derive(Debug, PartialEq, Eq)]
pub enum HostResponse {
    /// The invocation is handled: answer with a "see other" redirect to
    /// the fixed success page, and do not let the host redeliver.
    Redirect(String),
    /// The invocation failed on a precondition the caller or the program
    /// broke: signal a failure to the host, with the reason.
    Failure(String),
}

/// Translate a pipeline result into the signal for the invoking host.
///
/// A `Done` run — with or without a message identifier, since a dispatch
/// rejection is absorbed — and a rejected verification both count as
/// handled, so the host does not retry them; the answer is the redirect to
/// the fixed success page. Only a rejected payload and an internal error
/// signal a failure, carrying the field name or the diagnostic as reason.
pub fn host_response(result: &PipelineResult) -> (r: HostResponse)
    ensures
        match *result {
            PipelineResult::Done(_) => r matches HostResponse::Redirect(l) && l@
                == "/index.html"@,
            PipelineResult::RejectedVerification => r matches HostResponse::Redirect(l) && l@
                == "/index.html"@,
            PipelineResult::RejectedInput(ref f) => r matches HostResponse::Failure(reason)
                && reason@ == f@,
            PipelineResult::InternalError(ref d) => r matches HostResponse::Failure(reason)
                && reason@ == d@,
        },
{
    match result {
        PipelineResult::Done(_) => HostResponse::Redirect(String::from_str("/index.html")),
        PipelineResult::RejectedVerification => HostResponse::Redirect(
            String::from_str("/index.html"),
        ),
        PipelineResult::RejectedInput(f) => HostResponse::Failure(f.clone()),
        PipelineResult::InternalError(d) => HostResponse::Failure(d.clone()),
    }
}

} // verus!
