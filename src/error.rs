//! Errors of the signing core.
use vstd::prelude::*;

verus! {

/// What can go wrong when building key values or producing and checking
/// signatures. None of the variants carries secret material.
#[derive(Clone, Copy, Debug, PartialEq, Eq, Structural)]
pub enum Error {
    /// Raw bytes do not decode to a valid key, point or signature encoding.
    MalformedKey,
    /// A public key handed in with a secret is not that secret's counterpart.
    KeyMismatch,
    /// The backend could not produce a signature.
    SigningFailure,
    /// A signature does not verify against the given key and message.
    VerificationFailure,
}

} // verus!
