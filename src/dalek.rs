//! The Ed25519 primitives of `ed25519_dalek`, seen from verified code.
//!
//! Every value crosses this boundary as plain bytes. What the curve arithmetic
//! and SHA-512 compute is not restated here: each such result gets a name, and
//! the wrappers below say which call produces it.
use vstd::prelude::*;
use ed25519_dalek::Verifier;

verus! {

/// The 64-byte expanded secret (clamped scalar, then nonce prefix) that
/// `ExpandedSecretKey::from(&SecretKey)` derives from a 32-byte seed.
pub uninterp spec fn expanded_of_seed(seed: Seq<u8>) -> Seq<u8>;

/// The compressed public point that `PublicKey::from(&ExpandedSecretKey)`
/// derives from 64 expanded secret bytes.
pub uninterp spec fn public_of_expanded(expanded: Seq<u8>) -> Seq<u8>;

/// Whether `PublicKey::from_bytes` decompresses 32 bytes to a curve point.
pub uninterp spec fn point_decodes(bytes: Seq<u8>) -> bool;

/// The 64 signature bytes that `ExpandedSecretKey::sign` computes from the
/// expanded secret, the public key bytes and the message.
pub uninterp spec fn signature_of(expanded: Seq<u8>, public: Seq<u8>, msg: Seq<u8>) -> Seq<u8>;

/// Whether `PublicKey::verify` accepts `sig` as a signature of `msg` under
/// the 32 key bytes `public`.
pub uninterp spec fn verifies(public: Seq<u8>, msg: Seq<u8>, sig: Seq<u8>) -> bool;

/// The encoding check of `ed25519::Signature::from_bytes`: 64 bytes whose
/// last byte has its three high bits clear.
pub open spec fn signature_encoding_ok(bytes: Seq<u8>) -> bool {
    bytes.len() == 64 && bytes[63] & 0xe0u8 == 0
}

/// `sig` is the signature of `msg` made by the key that some seed expands to,
/// where `public` is that key's public counterpart.
pub open spec fn signed_by(public: Seq<u8>, msg: Seq<u8>, sig: Seq<u8>) -> bool {
    exists|seed: Seq<u8>|
        seed.len() == 32 && public == public_of_expanded(#[trigger] expanded_of_seed(seed))
            && sig == signature_of(expanded_of_seed(seed), public, msg)
}

/// Relies on `SecretKey::from_bytes`, which accepts exactly 32 bytes, and on
/// `ExpandedSecretKey::from(&SecretKey)` with `to_bytes`, which hash and clamp
/// the seed into 64 bytes.
#[verifier::external_body]
pub(crate) fn expand_seed(seed: &[u8]) -> (r: Option<Vec<u8>>)
    ensures
        r.is_some() <==> seed@.len() == 32,
        r matches Some(e) ==> e@ == expanded_of_seed(seed@) && e@.len() == 64,
{
    match ed25519_dalek::SecretKey::from_bytes(seed) {
        Ok(k) => Some(ed25519_dalek::ExpandedSecretKey::from(&k).to_bytes().to_vec()),
        Err(_) => None,
    }
}

/// Relies on `ExpandedSecretKey::from_bytes`, which accepts exactly 64 bytes,
/// and on `PublicKey::from(&ExpandedSecretKey)`, which multiplies the base
/// point by the clamped scalar and compresses the result: 32 bytes that
/// `PublicKey::from_bytes` decompresses again.
#[verifier::external_body]
pub(crate) fn derive_public(expanded: &[u8]) -> (r: Option<Vec<u8>>)
    ensures
        r.is_some() <==> expanded@.len() == 64,
        r matches Some(p) ==> p@ == public_of_expanded(expanded@) && p@.len() == 32
            && point_decodes(p@),
{
    match ed25519_dalek::ExpandedSecretKey::from_bytes(expanded) {
        Ok(k) => Some(ed25519_dalek::PublicKey::from(&k).to_bytes().to_vec()),
        Err(_) => None,
    }
}

/// Relies on `PublicKey::from_bytes`: exactly 32 bytes that decompress to a
/// point of the curve.
#[verifier::external_body]
pub(crate) fn decodes_public(bytes: &[u8]) -> (r: bool)
    ensures
        r == (bytes@.len() == 32 && point_decodes(bytes@)),
{
    ed25519_dalek::PublicKey::from_bytes(bytes).is_ok()
}

/// Relies on `ed25519::Signature::from_bytes`: 64 bytes, three high bits of
/// the last byte clear.
#[verifier::external_body]
pub(crate) fn decodes_signature(bytes: &[u8]) -> (r: bool)
    ensures
        r == signature_encoding_ok(bytes@),
{
    ed25519_dalek::Signature::from_bytes(bytes).is_ok()
}

/// Relies on `ExpandedSecretKey::sign`, deterministic in the expanded secret,
/// the public key bytes and the message. Its result passes through
/// `ed25519::Signature::from_bytes(..).unwrap()`, so it meets that check.
/// The secret and the public key are rebuilt from their bytes by
/// `ExpandedSecretKey::from_bytes` and `PublicKey::from_bytes`.
#[verifier::external_body]
pub(crate) fn sign_expanded(expanded: &[u8], public: &[u8], msg: &[u8]) -> (r: Option<Vec<u8>>)
    ensures
        r.is_some() <==> (expanded@.len() == 64 && public@.len() == 32 && point_decodes(public@)),
        r matches Some(s) ==> s@ == signature_of(expanded@, public@, msg@)
            && signature_encoding_ok(s@),
{
    match (
        ed25519_dalek::ExpandedSecretKey::from_bytes(expanded),
        ed25519_dalek::PublicKey::from_bytes(public),
    ) {
        (Ok(k), Ok(p)) => Some(k.sign(msg, &p).to_bytes().to_vec()),
        _ => None,
    }
}

/// Relies on `PublicKey::verify` (with `PublicKey::from_bytes` and
/// `Signature::from_bytes` on the inputs): it accepts only well-encoded
/// inputs, and it accepts every signature that `ExpandedSecretKey::sign`
/// made with a seed-derived secret and that secret's own public key.
#[verifier::external_body]
pub(crate) fn verify_signature(public: &[u8], msg: &[u8], sig: &[u8]) -> (r: bool)
    ensures
        r == verifies(public@, msg@, sig@),
        r ==> public@.len() == 32 && point_decodes(public@) && signature_encoding_ok(sig@),
        (point_decodes(public@) && public@.len() == 32 && signature_encoding_ok(sig@)
            && signed_by(public@, msg@, sig@)) ==> r,
{
    match (ed25519_dalek::PublicKey::from_bytes(public), ed25519_dalek::Signature::from_bytes(sig)) {
        (Ok(p), Ok(s)) => p.verify(msg, &s).is_ok(),
        _ => false,
    }
}

} // verus!
