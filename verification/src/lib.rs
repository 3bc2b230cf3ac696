//! A single-shot contact-form notification relay.
//!
//! One invocation carries a contact-form submission through four stages:
//! the raw key/value payload is parsed into a [`submission::Submission`],
//! the human-verification token is checked against the verification
//! service, a fixed HTML notification body is rendered with the submitted
//! fields escaped, and the resulting message is handed to the mail-sending
//! service. The pipeline is at-most-once: nothing is retried, queued or
//! persisted.

pub mod escape;
pub mod pipeline;
pub mod render;
pub mod submission;
pub mod verification;
