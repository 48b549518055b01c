//! The error taxonomy of the protocol.
use vstd::prelude::*;

verus! {

/// A fatal protocol error. Authentication failures during decryption are not
/// errors: they are reported per index as an absent result.
#[derive(Clone, Copy, Debug, PartialEq, Eq, Structural)]
pub enum OtError {
    /// The chosen index is not below the message count of the session.
    InvalidIndex,
    /// A draw from the system's secure random source failed.
    RandomGenerationFailure,
    /// Key material of the wrong length was handed to the cipher.
    KeyConstructionFailure,
    /// Key, message and ciphertext counts disagree between phases.
    LengthMismatch,
}

} // verus!
