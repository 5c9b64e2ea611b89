//! What can go wrong while flash contents are read or checked.

use vstd::prelude::*;

verus! {

/// A failed flash operation.
#[derive(Debug, PartialEq, Eq)]
pub enum FlashError {
    /// The device answered with an empty frame.
    IncorrectResponse,
    /// The device sent fewer bytes than announced: expected and received count.
    CorruptData(usize, usize),
    /// The device sent more bytes than were asked for.
    ReadMoreThanExpected,
    /// The digest frame has this length instead of that of an MD5 digest.
    IncorrectDigestLength(usize),
    /// The digest of the device and the digest of the received bytes differ.
    DigestMismatch(Vec<u8>, Vec<u8>),
    /// The flash does not hold what was written.
    VerifyFailed,
}

} // verus!
