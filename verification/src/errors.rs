//! Error values surfaced by payload construction.

use vstd::prelude::*;

verus! {

/// The kind of a signing error.
#[derive(Debug, Clone, Copy, PartialEq, Eq)]
pub enum SigningErrorType {
    /// A caller-supplied parameter broke a protocol rule.
    InvalidParams,
    /// A payload was larger than an inscription can carry.
    OversizedPayload,
}

/// An error carrying its kind and a human-readable context message.
#[derive(Debug, Clone, PartialEq, Eq)]
pub struct SigningError {
    pub error_type: SigningErrorType,
    pub context: String,
}

impl SigningError {
    /// Builds an error of the given kind with the given context message.
    pub fn new(error_type: SigningErrorType, context: &str) -> (r: SigningError)
        ensures
            r.error_type == error_type,
            r.context@ == context@,
    {
        SigningError { error_type, context: context.to_owned() }
    }
}

} // verus!
