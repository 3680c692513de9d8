use vstd::prelude::*;

verus! {

/// The view of an optional string: its character sequence, when present.
pub open spec fn opt_string_view(o: Option<String>) -> Option<Seq<char>> {
    match o {
        Some(s) => Some(s@),
        None => None,
    }
}

/// Clones an optional string, preserving its view.
pub fn clone_opt_string(o: &Option<String>) -> (r: Option<String>)
    ensures
        opt_string_view(r) == opt_string_view(*o),
{
    match o {
        Some(s) => Some(s.clone()),
        None => None,
    }
}

/// An email message ready to be handed to the outbound mail channel.
#[derive(Debug)]
pub struct EmailMessage {
    pub to: String,
    pub subject: String,
    /// `References` threading field; the first message of a thread has none.
    pub reference: Option<String>,
    /// `In-Reply-To` threading field; the first message of a thread has none.
    pub reply_to: Option<String>,
    pub body_plain: String,
    pub body_html: String,
    pub body_attachments: Option<Vec<EmailAttachment>>,
}

/// An attachment carried inline in an email message.
#[derive(Debug)]
pub struct EmailAttachment {
    pub inline_id: String,
    pub content_type: String,
    pub contents: Vec<u8>,
}

/// The fields of an inbound email that the orchestrator consumes. The raw
/// message is decoded by an external parser; only these derived values reach
/// the logic here.
#[derive(Debug)]
pub struct ParsedEmail {
    /// Sender address.
    pub from_addr: String,
    /// Subject line.
    pub subject: String,
    /// The transport-assigned identifier of this message, when present.
    pub message_id: Option<String>,
    /// The `In-Reply-To` header, when present: the identifier of the message
    /// this one replies to. Absent on a fresh command.
    pub in_reply_to: Option<String>,
    /// Decoded body text.
    pub body: String,
}

/// What happened, and which notification must be emitted for it.
///
/// Produced and consumed within a single processing pass; never persisted.
/// A closed sum: the orchestrator matches it exhaustively, so a new event
/// kind forces the handling code to be extended.
#[derive(Debug)]
pub enum EmailEvent {
    /// A new command email was accepted and a request record created.
    Command {
        request_id: String,
        email_address: String,
        command: String,
        account_code: Option<String>,
        subject: String,
        body: String,
    },
    /// A lightweight receipt acknowledgement, sent without expecting a reply.
    Ack {
        email_addr: String,
        command: String,
        original_message_id: Option<String>,
        original_subject: String,
    },
    /// The verification, proof and chain-submission pipeline succeeded.
    Completion {
        email_addr: String,
        request_id: String,
        original_subject: String,
        original_message_id: Option<String>,
    },
    /// A pipeline stage failed; carries the failure's human-readable cause.
    Error {
        email_addr: String,
        error: String,
        original_subject: String,
        original_message_id: Option<String>,
    },
}

/// A registered "this outbound message expects exactly one reply", optionally
/// tied to the request that the reply should resume.
pub struct ExpectsReply {
    request_id: Option<String>,
}

impl ExpectsReply {
    /// The request identifier this expectation is tied to, if any.
    pub closed spec fn spec_request_id(self) -> Option<Seq<char>> {
        match self.request_id {
            Some(id) => Some(id@),
            None => None,
        }
    }

    /// An expectation tied to the given request: a reply to the message it
    /// accompanies resumes that request.
    pub fn new(request_id: &String) -> (r: Self)
        ensures
            r.spec_request_id() == Some(request_id@),
    {
        Self { request_id: Some(request_id.clone()) }
    }

    /// An expectation tied to no request: a reply is awaited but resumes
    /// nothing.
    pub fn new_no_request_id() -> (r: Self)
        ensures
            r.spec_request_id() is None,
    {
        Self { request_id: None }
    }

    /// The request identifier this expectation is tied to, if any.
    pub fn request_id(&self) -> (r: &Option<String>)
        ensures
            match r {
                Some(id) => self.spec_request_id() == Some(id@),
                None => self.spec_request_id() is None,
            },
    {
        &self.request_id
    }
}

} // verus!
