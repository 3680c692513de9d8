//! Request-lifecycle orchestration for an email-triggered, blockchain-backed
//! authentication protocol.
//!
//! A user sends a command by email; the system verifies the message's origin,
//! turns the parsed command into an authenticity proof, submits that proof to a
//! blockchain network, and notifies the user of the outcome at each lifecycle
//! stage. This crate holds the orchestration logic: what must happen, in what
//! order, exactly once, and how failures propagate. The collaborators it
//! sequences (mail transport, domain-key verifier, proof generator, chain
//! client, persistence engine) are reached from the surrounding application,
//! which hands their results in as plain values.

mod auth;
mod error;
mod kv;
mod ledger;
mod mail;
mod orchestrator;
mod render;
mod store;
mod text;

pub use auth::get_email_auth_msg;
pub use auth::EmailAuthMsg;
pub use auth::EmailProof;
pub use error::is_stage_failure;
pub use error::spec_cause;
pub use error::EmailError;
pub use ledger::accept_reply;
pub use ledger::check_is_valid_request;
pub use ledger::lemma_reply_accepted_at_most_once;
pub use ledger::spec_reply_valid;
pub use ledger::ReplyLedger;
pub use mail::EmailAttachment;
pub use mail::EmailEvent;
pub use mail::EmailMessage;
pub use mail::ExpectsReply;
pub use mail::ParsedEmail;
pub use orchestrator::handle_email;
pub use orchestrator::handle_email_event;
pub use orchestrator::lemma_command_registers_one_expectation;
pub use orchestrator::notification_prepared;
pub use orchestrator::record_delivery;
pub use orchestrator::PreparedNotification;
pub use render::render_html;
pub use render::rendered_of;
pub use render::string_views;
pub use render::TemplateStore;
pub use store::advances;
pub use store::is_terminal;
pub use store::lemma_status_history_is_prefix;
pub use store::status_advances;
pub use store::LifecycleStore;
pub use store::Request;
pub use store::RequestStatus;
pub use store::RequestView;
pub use text::augmented_command;
pub use text::lemma_completion_body_contains_request_id;
