//! Ed25519 key and signature values: fixed-size bytes, validated when built.
use vstd::prelude::*;
use crate::bytes::{bytes_equal, copy_bytes};
use crate::dalek::{
    decodes_public, decodes_signature, derive_public, expand_seed, expanded_of_seed,
    point_decodes, public_of_expanded, signature_encoding_ok, signed_by, verifies,
    verify_signature,
};
use crate::error::Error;

verus! {

/// Length of a secret seed in bytes.
pub const SECRET_KEY_LENGTH: usize = 32;

/// Length of an expanded secret in bytes.
pub const EXPANDED_SECRET_KEY_LENGTH: usize = 64;

/// Length of a compressed public key in bytes.
pub const PUBLIC_KEY_LENGTH: usize = 32;

/// Length of a signature in bytes.
pub const SIGNATURE_LENGTH: usize = 64;

/// A 32-byte Ed25519 secret seed. It has no accessor for its bytes and no
/// `Debug`, so it cannot end up in a log.
pub struct SecretKey {
    bytes: Vec<u8>,
}

impl View for SecretKey {
    type V = Seq<u8>;

    closed spec fn view(&self) -> Seq<u8> {
        self.bytes@
    }
}

impl SecretKey {
    #[verifier::type_invariant]
    pub open spec fn wf(&self) -> bool {
        self@.len() == SECRET_KEY_LENGTH
    }

    /// Takes exactly 32 bytes as a seed; any other length is `MalformedKey`.
    pub fn from_bytes(bytes: &[u8]) -> (r: Result<SecretKey, Error>)
        ensures
            r is Ok <==> bytes@.len() == SECRET_KEY_LENGTH,
            r matches Ok(k) ==> k@ == bytes@ && k.wf(),
            r matches Err(e) ==> e == Error::MalformedKey,
    {
        if bytes.len() != SECRET_KEY_LENGTH {
            return Err(Error::MalformedKey);
        }
        Ok(SecretKey { bytes: copy_bytes(bytes) })
    }
}

/// The expanded form of a seed (scalar and nonce prefix), computed once so
/// that signing does not hash the seed again. Never cloned, never shown.
pub struct ExpandedSecretKey {
    bytes: Vec<u8>,
    seed: Ghost<Seq<u8>>,
}

impl View for ExpandedSecretKey {
    type V = Seq<u8>;

    closed spec fn view(&self) -> Seq<u8> {
        self.bytes@
    }
}

impl ExpandedSecretKey {
    #[verifier::type_invariant]
    pub open spec fn wf(&self) -> bool {
        &&& self.seed().len() == SECRET_KEY_LENGTH
        &&& self@ == expanded_of_seed(self.seed())
        &&& self@.len() == EXPANDED_SECRET_KEY_LENGTH
    }

    /// The seed this secret was expanded from.
    pub closed spec fn seed(&self) -> Seq<u8> {
        self.seed@
    }

    /// The 64 expanded bytes.
    pub(crate) fn as_bytes(&self) -> (r: &[u8])
        ensures
            r@ == self@,
    {
        self.bytes.as_slice()
    }

    /// Expands a seed.
    pub fn from_secret(secret: &SecretKey) -> (r: ExpandedSecretKey)
        ensures
            r.seed() == secret@,
            r@ == expanded_of_seed(secret@),
            r.wf(),
    {
        proof {
            use_type_invariant(secret);
        }
        let bytes = expand_seed(secret.bytes.as_slice()).unwrap();
        ExpandedSecretKey { bytes, seed: Ghost(secret@) }
    }
}

/// A 32-byte compressed Edwards point that decompresses. Equality is
/// byte-exact.
pub struct PublicKey {
    bytes: Vec<u8>,
}

impl View for PublicKey {
    type V = Seq<u8>;

    closed spec fn view(&self) -> Seq<u8> {
        self.bytes@
    }
}

impl PublicKey {
    #[verifier::type_invariant]
    pub open spec fn wf(&self) -> bool {
        self@.len() == PUBLIC_KEY_LENGTH && point_decodes(self@)
    }

    /// Takes 32 bytes that decode to a curve point; anything else is
    /// `MalformedKey`.
    pub fn from_bytes(bytes: &[u8]) -> (r: Result<PublicKey, Error>)
        ensures
            r is Ok <==> (bytes@.len() == PUBLIC_KEY_LENGTH && point_decodes(bytes@)),
            r matches Ok(k) ==> k@ == bytes@ && k.wf(),
            r matches Err(e) ==> e == Error::MalformedKey,
    {
        if !decodes_public(bytes) {
            return Err(Error::MalformedKey);
        }
        Ok(PublicKey { bytes: copy_bytes(bytes) })
    }

    /// The public counterpart of an expanded secret.
    pub fn from_expanded(secret: &ExpandedSecretKey) -> (r: PublicKey)
        ensures
            r@ == public_of_expanded(secret@),
            r.wf(),
    {
        proof {
            use_type_invariant(secret);
        }
        let bytes = derive_public(secret.bytes.as_slice()).unwrap();
        PublicKey { bytes }
    }

    /// The 32 key bytes.
    pub fn as_bytes(&self) -> (r: &[u8])
        ensures
            r@ == self@,
    {
        self.bytes.as_slice()
    }

    /// Checks `sig` on `msg` against this key. It accepts every signature
    /// that a signer holding this key's secret made of `msg`.
    pub fn verify(&self, msg: &[u8], sig: &Signature) -> (r: Result<(), Error>)
        ensures
            r is Ok <==> verifies(self@, msg@, sig@),
            signed_by(self@, msg@, sig@) ==> r is Ok,
            r matches Err(e) ==> e == Error::VerificationFailure,
    {
        proof {
            use_type_invariant(self);
            use_type_invariant(sig);
        }
        if verify_signature(self.bytes.as_slice(), msg, sig.bytes.as_slice()) {
            Ok(())
        } else {
            Err(Error::VerificationFailure)
        }
    }
}

impl Clone for PublicKey {
    fn clone(&self) -> (r: PublicKey)
        ensures
            r@ == self@,
    {
        proof {
            use_type_invariant(self);
        }
        PublicKey { bytes: copy_bytes(self.bytes.as_slice()) }
    }
}

impl PartialEq for PublicKey {
    fn eq(&self, other: &PublicKey) -> (r: bool) {
        bytes_equal(self.bytes.as_slice(), other.bytes.as_slice())
    }
}

impl vstd::std_specs::cmp::PartialEqSpecImpl for PublicKey {
    open spec fn obeys_eq_spec() -> bool {
        true
    }

    open spec fn eq_spec(&self, other: &PublicKey) -> bool {
        self@ == other@
    }
}

/// A 64-byte Ed25519 signature in the encoding that `from_bytes` accepts.
pub struct Signature {
    bytes: Vec<u8>,
}

impl View for Signature {
    type V = Seq<u8>;

    closed spec fn view(&self) -> Seq<u8> {
        self.bytes@
    }
}

impl Signature {
    #[verifier::type_invariant]
    pub open spec fn wf(&self) -> bool {
        signature_encoding_ok(self@)
    }

    /// Takes 64 bytes whose last byte has its three high bits clear; anything
    /// else is `MalformedKey`.
    pub fn from_bytes(bytes: &[u8]) -> (r: Result<Signature, Error>)
        ensures
            r is Ok <==> signature_encoding_ok(bytes@),
            r matches Ok(s) ==> s@ == bytes@ && s.wf(),
            r matches Err(e) ==> e == Error::MalformedKey,
    {
        if !decodes_signature(bytes) {
            return Err(Error::MalformedKey);
        }
        Ok(Signature { bytes: copy_bytes(bytes) })
    }

    /// Wraps bytes known to be a well-encoded signature.
    pub(crate) fn from_encoded(bytes: Vec<u8>) -> (r: Signature)
        requires
            signature_encoding_ok(bytes@),
        ensures
            r@ == bytes@,
    {
        Signature { bytes }
    }

    /// The 64 signature bytes.
    pub fn as_bytes(&self) -> (r: &[u8])
        ensures
            r@ == self@,
    {
        self.bytes.as_slice()
    }
}

impl PartialEq for Signature {
    fn eq(&self, other: &Signature) -> (r: bool) {
        bytes_equal(self.bytes.as_slice(), other.bytes.as_slice())
    }
}

impl vstd::std_specs::cmp::PartialEqSpecImpl for Signature {
    open spec fn obeys_eq_spec() -> bool {
        true
    }

    open spec fn eq_spec(&self, other: &Signature) -> bool {
        self@ == other@
    }
}

} // verus!
