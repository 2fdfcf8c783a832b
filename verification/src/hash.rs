//! Fixed-width byte values.

use vstd::prelude::*;

verus! {

/// A 264-bit value: the width of a compressed public key (33 bytes).
///
/// Inscriptions are addressed to a recipient identified by such a key.
#[derive(Debug, Clone, Copy, PartialEq, Eq)]
pub struct H264 {
    bytes: [u8; 33],
}

impl View for H264 {
    type V = Seq<u8>;

    closed spec fn view(&self) -> Seq<u8> {
        self.bytes@
    }
}

impl H264 {
    /// Wraps 33 bytes as a 264-bit value.
    pub fn new(bytes: [u8; 33]) -> (r: H264)
        ensures
            r@ == bytes@,
    {
        H264 { bytes }
    }

    /// The bytes of the value, in the order given to [`H264::new`].
    pub fn as_slice(&self) -> (r: &[u8])
        ensures
            r@ == self@,
    {
        self.bytes.as_slice()
    }
}

} // verus!
