//! The signer: a provider tag, a public key, and a shared handle to the
//! expanded secret that it signs with.
use vstd::prelude::*;
use std::sync::Arc;
use crate::dalek::{
    expanded_of_seed, point_decodes, public_of_expanded, sign_expanded, signature_of, signed_by,
};
use crate::error::Error;
use crate::keys::{
    ExpandedSecretKey, PublicKey, Signature, EXPANDED_SECRET_KEY_LENGTH, PUBLIC_KEY_LENGTH,
    SECRET_KEY_LENGTH,
};
use crate::provider::SigningProvider;

verus! {

/// A public key together with the role it identifies.
pub enum PublicIdentity {
    /// Key of a validator's consensus votes and proposals.
    ConsensusKey(PublicKey),
    /// Key of an account.
    AccountKey(PublicKey),
}

/// Ed25519 signer. Clones share one expanded secret: cloning copies the
/// handle, never the secret bytes, and the secret lives until the last clone
/// is dropped.
pub struct Signer {
    /// Provider for this signer
    provider: SigningProvider,
    /// Public key paired with the secret
    public_key: PublicKey,
    /// Expanded secret, shared between clones
    signer: Arc<Box<ExpandedSecretKey>>,
}

impl Signer {
    /// The public key is the counterpart of the held secret, and both are
    /// well formed.
    #[verifier::type_invariant]
    pub open spec fn wf(&self) -> bool {
        &&& self.seed().len() == SECRET_KEY_LENGTH
        &&& self.expanded_secret() == expanded_of_seed(self.seed())
        &&& self.expanded_secret().len() == EXPANDED_SECRET_KEY_LENGTH
        &&& self.public_view().len() == PUBLIC_KEY_LENGTH
        &&& point_decodes(self.public_view())
        &&& self.public_view() == public_of_expanded(self.expanded_secret())
    }

    /// Provider tag fixed at construction.
    pub closed spec fn provider_tag(&self) -> SigningProvider {
        self.provider
    }

    /// Bytes of the public key.
    pub closed spec fn public_view(&self) -> Seq<u8> {
        self.public_key@
    }

    /// Bytes of the expanded secret.
    pub closed spec fn expanded_secret(&self) -> Seq<u8> {
        (**self.signer)@
    }

    /// Seed the secret was expanded from.
    pub closed spec fn seed(&self) -> Seq<u8> {
        self.signer.seed()
    }

    /// What `sign` returns for the message `msg`.
    pub open spec fn signature_for(&self, msg: Seq<u8>) -> Seq<u8> {
        signature_of(self.expanded_secret(), self.public_view(), msg)
    }

    /// Create a new signer. The caller vouches that `public_key` belongs to
    /// `signer`; `try_new` checks it instead.
    pub fn new(
        provider: SigningProvider,
        public_key: PublicKey,
        signer: Box<ExpandedSecretKey>,
    ) -> (r: Self)
        requires
            public_key@ == public_of_expanded((*signer)@),
        ensures
            r.provider_tag() == provider,
            r.public_view() == public_key@,
            r.expanded_secret() == (*signer)@,
            r.seed() == signer.seed(),
            r.wf(),
    {
        proof {
            use_type_invariant(&*signer);
            use_type_invariant(&public_key);
        }
        Self { provider, public_key, signer: Arc::new(signer) }
    }

    /// Create a new signer after checking that `public_key` is the
    /// counterpart of `signer`; a different key is `KeyMismatch`.
    pub fn try_new(
        provider: SigningProvider,
        public_key: PublicKey,
        signer: Box<ExpandedSecretKey>,
    ) -> (r: Result<Self, Error>)
        ensures
            r is Ok <==> public_key@ == public_of_expanded((*signer)@),
            r matches Ok(s) ==> s.provider_tag() == provider && s.public_view() == public_key@
                && s.expanded_secret() == (*signer)@ && s.seed() == signer.seed() && s.wf(),
            r matches Err(e) ==> e == Error::KeyMismatch,
    {
        let derived = PublicKey::from_expanded(&signer);
        if derived == public_key {
            Ok(Self::new(provider, public_key, signer))
        } else {
            Err(Error::KeyMismatch)
        }
    }

    /// Get the consensus public key for this signer
    pub fn public_key(&self) -> (r: PublicIdentity)
        ensures
            r matches PublicIdentity::ConsensusKey(k) && k@ == self.public_view(),
    {
        PublicIdentity::ConsensusKey(self.public_key.clone())
    }

    /// Get the provider for this signer
    pub fn provider(&self) -> (r: SigningProvider)
        ensures
            r == self.provider_tag(),
    {
        self.provider
    }

    /// Sign the given message using this signer. The signature is a function
    /// of the key pair and the exact message bytes.
    pub fn sign(&self, msg: &[u8]) -> (r: Result<Signature, Error>)
        ensures
            r matches Ok(s) && s@ == self.signature_for(msg@),
            r matches Ok(s) && signed_by(self.public_view(), msg@, s@),
    {
        proof {
            use_type_invariant(self);
            lemma_signature_signed_by(*self, msg@);
        }
        let sig = sign_expanded(self.signer.as_bytes(), self.public_key.as_bytes(), msg).unwrap();
        Ok(Signature::from_encoded(sig))
    }
}

impl Clone for Signer {
    /// Another handle to the same secret.
    fn clone(&self) -> (r: Signer)
        ensures
            r.provider_tag() == self.provider_tag(),
            r.public_view() == self.public_view(),
            r.expanded_secret() == self.expanded_secret(),
            r.seed() == self.seed(),
            r.wf(),
    {
        proof {
            use_type_invariant(self);
        }
        Signer {
            provider: self.provider,
            public_key: self.public_key.clone(),
            signer: Arc::clone(&self.signer),
        }
    }
}

/// Signing is a function of the key pair and the message alone: a signer and
/// any clone of it (which shares its secret) give byte-identical signatures
/// for equal messages, however many times `sign` is called.
pub proof fn lemma_signing_is_deterministic(a: Signer, b: Signer, m1: Seq<u8>, m2: Seq<u8>)
    requires
        a.expanded_secret() == b.expanded_secret(),
        a.public_view() == b.public_view(),
        m1 == m2,
    ensures
        a.signature_for(m1) == b.signature_for(m2),
{
}

/// Every signature a valid signer makes of `m` is a signature of `m` by the
/// secret behind the signer's public key, which `PublicKey::verify` accepts.
pub proof fn lemma_signature_signed_by(s: Signer, m: Seq<u8>)
    requires
        s.wf(),
    ensures
        signed_by(s.public_view(), m, s.signature_for(m)),
{
    let seed = s.seed();
    assert(seed.len() == SECRET_KEY_LENGTH && s.public_view() == public_of_expanded(expanded_of_seed(seed))
        && s.signature_for(m) == signature_of(expanded_of_seed(seed), s.public_view(), m));
}

} // verus!
