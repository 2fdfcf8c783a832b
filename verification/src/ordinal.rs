//! Inscription construction.
//!
//! An inscription wraps an arbitrary byte payload, tagged with a MIME type,
//! into a spendable on-chain construct addressed to a recipient public key.
//! Here it is modelled by the data it encapsulates; envelope encoding,
//! signing and broadcast are outside this crate.

use vstd::prelude::*;
use vstd::slice::slice_to_vec;
use crate::errors::{SigningError, SigningErrorType};
use crate::hash::H264;

verus! {

/// The largest payload an inscription can carry, in bytes.
///
/// Payloads travel in the witness of a taproot spend, and a standard
/// transaction is capped at 400,000 weight units, so a payload beyond this
/// ceiling could never be relayed; construction refuses it outright.
pub const MAX_INSCRIPTION_PAYLOAD: usize = 400000;

/// Whether an inscription can be constructed around the given payload:
/// it must be non-empty and fit under the witness ceiling.
pub open spec fn payload_accepted(payload: Seq<u8>) -> bool {
    1 <= payload.len() <= MAX_INSCRIPTION_PAYLOAD
}

/// The exact error that inscription construction returns for a payload it
/// refuses: empty payloads are invalid parameters, anything else that is
/// refused is oversized.
pub open spec fn is_payload_rejection(e: SigningError, payload: Seq<u8>) -> bool {
    if payload.len() == 0 {
        &&& e.error_type == SigningErrorType::InvalidParams
        &&& e.context@ == "inscription payload must not be empty"@
    } else {
        &&& e.error_type == SigningErrorType::OversizedPayload
        &&& e.context@ == "inscription payload exceeds the witness size ceiling"@
    }
}

/// The rejection of a given payload is one exact value: two errors that are
/// each the rejection of the same payload agree in kind and in context. A
/// caller that sees a payload builder fail therefore holds inscription
/// construction's own failure, unaltered.
pub proof fn lemma_rejection_is_determined(e1: SigningError, e2: SigningError, payload: Seq<u8>)
    requires
        is_payload_rejection(e1, payload),
        is_payload_rejection(e2, payload),
    ensures
        e1.error_type == e2.error_type,
        e1.context@ == e2.context@,
{
}

/// An inscription: a MIME type tag, a byte payload, and the recipient public
/// key the spendable construct is addressed to.
#[derive(Debug)]
pub struct OrdinalsInscription {
    mime: Vec<u8>,
    payload: Vec<u8>,
    recipient: H264,
}

impl OrdinalsInscription {
    /// The MIME type tag of the inscription.
    pub closed spec fn spec_mime(&self) -> Seq<u8> {
        self.mime@
    }

    /// The byte payload the inscription carries.
    pub closed spec fn spec_payload(&self) -> Seq<u8> {
        self.payload@
    }

    /// The public key the inscription is addressed to.
    pub closed spec fn spec_recipient(&self) -> Seq<u8> {
        self.recipient@
    }

    /// Wraps `payload`, tagged with `mime`, into an inscription addressed to
    /// `recipient`. Fails exactly when the payload is empty or oversized; on
    /// success the inscription encapsulates the three arguments verbatim.
    pub fn new(mime: &[u8], payload: &[u8], recipient: &H264) -> (r: Result<
        OrdinalsInscription,
        SigningError,
    >)
        ensures
            payload_accepted(payload@) ==> (r matches Ok(i) && i.spec_mime() == mime@
                && i.spec_payload() == payload@ && i.spec_recipient() == recipient@),
            !payload_accepted(payload@) ==> (r matches Err(e) && is_payload_rejection(
                e,
                payload@,
            )),
    {
        if payload.len() == 0 {
            return Err(
                SigningError::new(
                    SigningErrorType::InvalidParams,
                    "inscription payload must not be empty",
                ),
            );
        }
        if payload.len() > MAX_INSCRIPTION_PAYLOAD {
            return Err(
                SigningError::new(
                    SigningErrorType::OversizedPayload,
                    "inscription payload exceeds the witness size ceiling",
                ),
            );
        }
        Ok(
            OrdinalsInscription {
                mime: slice_to_vec(mime),
                payload: slice_to_vec(payload),
                recipient: *recipient,
            },
        )
    }

    /// The MIME type tag.
    pub fn mime(&self) -> (r: &[u8])
        ensures
            r@ == self.spec_mime(),
    {
        self.mime.as_slice()
    }

    /// The byte payload.
    pub fn payload(&self) -> (r: &[u8])
        ensures
            r@ == self.spec_payload(),
    {
        self.payload.as_slice()
    }

    /// The recipient public key.
    pub fn recipient(&self) -> (r: &H264)
        ensures
            r@ == self.spec_recipient(),
    {
        &self.recipient
    }
}

} // verus!
