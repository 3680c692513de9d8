use vstd::prelude::*;

verus! {

/// Everything that can go wrong while a request is orchestrated.
///
/// The first three variants are raised before any side effect and leave the
/// request in its prior state. `Verification`, `Proof` and `Chain` are the
/// pipeline stages' own failures; the orchestrator converts them into a
/// user-facing error notification rather than propagating them. `NotFound` and
/// `Conflict` are the persistence layer's errors and are surfaced to the
/// caller for operational handling, never converted into a notification.
#[derive(Debug)]
pub enum EmailError {
    /// A reply was malformed or replayed; rejected before any side effect.
    Validation,
    /// A template identifier resolved to no stored template.
    TemplateNotFound(String),
    /// Template substitution failed; carries the renderer's diagnostic.
    Render(String),
    /// The outbound mail channel reported non-success; carries its diagnostic.
    Delivery(String),
    /// Domain-key verification of the inbound message failed.
    Verification(String),
    /// Authenticity-proof generation failed.
    Proof(String),
    /// Chain submission failed.
    Chain(String),
    /// The named request does not exist in the lifecycle store.
    NotFound,
    /// A record with the same key already exists, or a status update would
    /// not advance the request's lifecycle.
    Conflict,
}

/// True of the errors a pipeline stage (verification, proof generation,
/// chain submission) can fail with.
pub open spec fn is_stage_failure(e: EmailError) -> bool {
    ||| e is Verification
    ||| e is Proof
    ||| e is Chain
}

/// The human-readable cause a stage failure carries.
pub open spec fn spec_cause(e: EmailError) -> Seq<char> {
    match e {
        EmailError::Verification(s) => s@,
        EmailError::Proof(s) => s@,
        EmailError::Chain(s) => s@,
        _ => Seq::empty(),
    }
}

impl EmailError {
    /// The diagnostic text of a pipeline-stage failure, as handed to the user.
    pub fn cause(&self) -> (r: String)
        requires
            is_stage_failure(*self),
        ensures
            r@ == spec_cause(*self),
    {
        match self {
            EmailError::Verification(s) => s.clone(),
            EmailError::Proof(s) => s.clone(),
            EmailError::Chain(s) => s.clone(),
            _ => String::new(),
        }
    }
}

} // verus!
