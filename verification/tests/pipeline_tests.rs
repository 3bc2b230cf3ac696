use contact_relay::pipeline::build_message;
use contact_relay::pipeline::finish_dispatch;
use contact_relay::pipeline::host_response;
use contact_relay::pipeline::run_pipeline;
use contact_relay::pipeline::DispatchError;
use contact_relay::pipeline::HostResponse;
use contact_relay::pipeline::PipelineConfig;
use contact_relay::pipeline::PipelineResult;
use contact_relay::submission::parse_submission;
use contact_relay::verification::VerificationError;

fn pairs_of(entries: &[(&str, &str)]) -> Vec<(String, String)> {
    entries.iter().map(|(k, v)| (k.to_string(), v.to_string())).collect()
}

fn full_pairs() -> Vec<(String, String)> {
    pairs_of(&[
        ("name", "Jane"),
        ("email", "jane@x.com"),
        ("telephone", "555"),
        ("detail", "hello"),
        ("captcha", "tok1"),
    ])
}

fn config() -> PipelineConfig {
    PipelineConfig {
        captcha_secret: "test-secret".to_string(),
        source_address: "noreply@christopherkolbe.de".to_string(),
        forward_address: "inbox@christopherkolbe.de".to_string(),
    }
}

#[test]
fn message_is_built_from_submission_and_configuration() {
    let s = parse_submission(&full_pairs()).unwrap();
    let m = build_message(&s, &config());
    assert_eq!(m.subject, "[christopherkolbe.de] Kontakt");
    assert_eq!(
        m.body_html,
        "<h1>Jane</h1><p>E Mail: jane@x.com</p><p>Telefon: 555</p><p>Detail:</p><p>hello</p>"
    );
    assert_eq!(m.source_address, "noreply@christopherkolbe.de");
    assert_eq!(m.destination_address, "inbox@christopherkolbe.de");
}

#[test]
fn successful_dispatch_carries_the_message_identifier() {
    let r = finish_dispatch(Ok("m-1".to_string()));
    assert_eq!(r, PipelineResult::Done(Some("m-1".to_string())));
}

#[test]
fn failed_dispatch_is_absorbed_into_done_without_identifier() {
    let r = finish_dispatch(Err(DispatchError { diagnostic: "MessageRejected".to_string() }));
    assert_eq!(r, PipelineResult::Done(None));
}

#[test]
fn full_run_succeeds_with_the_dispatchers_identifier() {
    let run = run_pipeline(&full_pairs(), &config(), Ok(true), Ok("m-1".to_string()));
    assert_eq!(run.result, PipelineResult::Done(Some("m-1".to_string())));
    assert!(run.verify_called);
    assert!(run.dispatch_called);
    let m = run.message.unwrap();
    assert_eq!(m.subject, "[christopherkolbe.de] Kontakt");
    assert_eq!(
        m.body_html,
        "<h1>Jane</h1><p>E Mail: jane@x.com</p><p>Telefon: 555</p><p>Detail:</p><p>hello</p>"
    );
}

#[test]
fn missing_telephone_rejects_before_any_outside_call() {
    let pairs = pairs_of(&[
        ("name", "Jane"),
        ("email", "jane@x.com"),
        ("detail", "hello"),
        ("captcha", "tok1"),
    ]);
    let run = run_pipeline(&pairs, &config(), Ok(true), Ok("m-1".to_string()));
    assert_eq!(run.result, PipelineResult::RejectedInput("telephone".to_string()));
    assert!(!run.verify_called);
    assert!(!run.dispatch_called);
    assert!(run.message.is_none());
}

#[test]
fn negative_verification_skips_the_dispatcher() {
    let run = run_pipeline(&full_pairs(), &config(), Ok(false), Ok("m-1".to_string()));
    assert_eq!(run.result, PipelineResult::RejectedVerification);
    assert!(run.verify_called);
    assert!(!run.dispatch_called);
    assert!(run.message.is_none());
}

#[test]
fn unconfirmed_verification_counts_as_not_verified() {
    let outcome = Err(VerificationError::Transport("connect timed out".to_string()));
    let run = run_pipeline(&full_pairs(), &config(), outcome, Ok("m-1".to_string()));
    assert_eq!(run.result, PipelineResult::RejectedVerification);
    assert!(!run.dispatch_called);
}

#[test]
fn dispatch_failure_still_ends_the_run_as_handled() {
    let outcome = Err(DispatchError { diagnostic: "Email address is not verified".to_string() });
    let run = run_pipeline(&full_pairs(), &config(), Ok(true), outcome);
    assert_eq!(run.result, PipelineResult::Done(None));
    assert!(run.dispatch_called);
}

#[test]
fn handled_runs_answer_with_the_redirect_to_the_success_page() {
    let done = PipelineResult::Done(Some("m-1".to_string()));
    assert_eq!(host_response(&done), HostResponse::Redirect("/index.html".to_string()));
    let absorbed = PipelineResult::Done(None);
    assert_eq!(host_response(&absorbed), HostResponse::Redirect("/index.html".to_string()));
    let unverified = PipelineResult::RejectedVerification;
    assert_eq!(host_response(&unverified), HostResponse::Redirect("/index.html".to_string()));
}

#[test]
fn rejected_input_and_internal_error_signal_failure_with_their_reason() {
    let rejected = PipelineResult::RejectedInput("telephone".to_string());
    assert_eq!(host_response(&rejected), HostResponse::Failure("telephone".to_string()));
    let internal = PipelineResult::InternalError("render failed".to_string());
    assert_eq!(host_response(&internal), HostResponse::Failure("render failed".to_string()));
}

#[test]
fn full_run_answers_the_host_with_the_redirect() {
    let run = run_pipeline(&full_pairs(), &config(), Ok(true), Ok("m-1".to_string()));
    assert_eq!(host_response(&run.result), HostResponse::Redirect("/index.html".to_string()));
}

#[test]
fn rejected_run_answers_the_host_with_the_field_name() {
    let pairs = pairs_of(&[("name", "Jane")]);
    let run = run_pipeline(&pairs, &config(), Ok(true), Ok("m-1".to_string()));
    assert_eq!(host_response(&run.result), HostResponse::Failure("email".to_string()));
}

#[test]
fn dispatching_twice_is_not_idempotent() {
    // The relay deduplicates nothing: the same submission dispatched twice
    // yields two runs, each carrying whatever distinct identifier the
    // mail-sending service minted for it.
    let first = run_pipeline(&full_pairs(), &config(), Ok(true), Ok("m-1".to_string()));
    let second = run_pipeline(&full_pairs(), &config(), Ok(true), Ok("m-2".to_string()));
    assert_eq!(first.result, PipelineResult::Done(Some("m-1".to_string())));
    assert_eq!(second.result, PipelineResult::Done(Some("m-2".to_string())));
    assert_ne!(first.result, second.result);
}
