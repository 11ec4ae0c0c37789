//! The failures that the channel primitives report.

use vstd::prelude::*;

verus! {

/// Why an operation of this crate did not produce a value.
///
/// Every failure is handed to the caller as a value; nothing is retried here.
#[derive(Clone, Copy, Debug, PartialEq, Eq, Structural)]
pub enum ChannelError {
    /// The operating system's random source could not supply key material.
    EntropyUnavailable,
    /// The private key of this pair has already been spent on an agreement.
    KeyAlreadyConsumed,
    /// The session key is too short to yield a cipher key.
    InvalidKeyLength,
    /// The ciphertext is shorter than a tag, or its tag does not verify.
    AuthenticationFailure,
    /// The cipher refused to seal the plaintext.
    EncryptionFailure,
}

} // verus!
