use tmkms::error::Error;
use tmkms::keys::{ExpandedSecretKey, PublicKey, SecretKey, Signature};
use tmkms::provider::SigningProvider;
use tmkms::signer::{PublicIdentity, Signer};

fn hex(s: &str) -> Vec<u8> {
    (0..s.len())
        .step_by(2)
        .map(|i| u8::from_str_radix(&s[i..i + 2], 16).unwrap())
        .collect()
}

const RFC_SEED: &str = "9d61b19deffd5a60ba844af492ec2cc44449c5697b326919703bac031cae7f60";
const RFC_SIGNATURE: &str = "e5564300c360ac729086e2cc806e828a84877f1eb8e5d974d873e065\
                             224901555fb8821590a33bacc61e39701cf9b46bd25bf5f0595bbe24\
                             655141438e7a100b";

fn signer_from_seed(seed: &[u8]) -> Signer {
    let secret = SecretKey::from_bytes(seed).unwrap();
    let expanded = ExpandedSecretKey::from_secret(&secret);
    let public = PublicKey::from_expanded(&expanded);
    Signer::try_new(SigningProvider::SoftSign, public, Box::new(expanded)).unwrap()
}

fn consensus_key(signer: &Signer) -> PublicKey {
    match signer.public_key() {
        PublicIdentity::ConsensusKey(k) => k,
        PublicIdentity::AccountKey(_) => panic!("expected a consensus key"),
    }
}

#[test]
fn sign_matches_rfc8032_vector() {
    let signer = signer_from_seed(&hex(RFC_SEED));
    let sig = signer.sign(b"").unwrap();
    assert_eq!(sig.as_bytes(), hex(RFC_SIGNATURE).as_slice());
}

#[test]
fn sign_is_deterministic() {
    let signer = signer_from_seed(&[42u8; 32]);
    let a = signer.sign(b"vote:height=1,round=0").unwrap();
    let b = signer.sign(b"vote:height=1,round=0").unwrap();
    assert!(a == b);
    let c = signer.clone().sign(b"vote:height=1,round=0").unwrap();
    assert!(a == c);
}

#[test]
fn signature_verifies_against_public_key() {
    let signer = signer_from_seed(&[1u8; 32]);
    let key = consensus_key(&signer);
    for msg in [&b""[..], b"a", b"proposal:height=7", &[0u8; 1000][..]] {
        let sig = signer.sign(msg).unwrap();
        assert!(key.verify(msg, &sig).is_ok());
    }
}

#[test]
fn tampered_message_fails_verification() {
    let signer = signer_from_seed(&[3u8; 32]);
    let key = consensus_key(&signer);
    let sig = signer.sign(b"message one").unwrap();
    assert!(matches!(key.verify(b"message two", &sig), Err(Error::VerificationFailure)));
    assert!(matches!(key.verify(b"message on", &sig), Err(Error::VerificationFailure)));
}

#[test]
fn tampered_signature_fails_verification() {
    let signer = signer_from_seed(&[4u8; 32]);
    let key = consensus_key(&signer);
    let sig = signer.sign(b"msg").unwrap();
    let mut bytes = sig.as_bytes().to_vec();
    bytes[0] ^= 1;
    let bad = Signature::from_bytes(&bytes).unwrap();
    assert!(matches!(key.verify(b"msg", &bad), Err(Error::VerificationFailure)));
}

#[test]
fn other_key_fails_verification() {
    let signer = signer_from_seed(&[5u8; 32]);
    let other = signer_from_seed(&[6u8; 32]);
    let sig = signer.sign(b"msg").unwrap();
    assert!(consensus_key(&other).verify(b"msg", &sig).is_err());
    assert!(!(consensus_key(&signer) == consensus_key(&other)));
}

#[test]
fn try_new_rejects_mismatched_public_key() {
    let secret = SecretKey::from_bytes(&[8u8; 32]).unwrap();
    let expanded = ExpandedSecretKey::from_secret(&secret);
    let other_secret = SecretKey::from_bytes(&[9u8; 32]).unwrap();
    let other_public = PublicKey::from_expanded(&ExpandedSecretKey::from_secret(&other_secret));
    let r = Signer::try_new(SigningProvider::YubiHsm, other_public, Box::new(expanded));
    assert!(matches!(r, Err(Error::KeyMismatch)));
}

#[test]
fn new_keeps_provider_and_public_key() {
    let secret = SecretKey::from_bytes(&[10u8; 32]).unwrap();
    let expanded = ExpandedSecretKey::from_secret(&secret);
    let public = PublicKey::from_expanded(&expanded);
    let signer = Signer::new(SigningProvider::LedgerTm, public.clone(), Box::new(expanded));
    assert_eq!(signer.provider(), SigningProvider::LedgerTm);
    assert!(consensus_key(&signer) == public);
    assert_eq!(signer.clone().provider(), SigningProvider::LedgerTm);
}

#[test]
fn last_clone_keeps_signing() {
    let original = signer_from_seed(&[11u8; 32]);
    let expected = original.sign(b"m").unwrap();
    let mut clones: Vec<Signer> = (0..10).map(|_| original.clone()).collect();
    drop(original);
    let last = clones.pop().unwrap();
    drop(clones);
    let sig = last.sign(b"m").unwrap();
    assert!(sig == expected);
    assert!(consensus_key(&last).verify(b"m", &sig).is_ok());
}

fn shareable_across_threads<T: Send + Sync>(_: &T) {}

#[test]
fn concurrent_signing_on_clones() {
    let signer = signer_from_seed(&[12u8; 32]);
    shareable_across_threads(&signer);
    let key = consensus_key(&signer);
    let clones: Vec<Signer> = (0..100).map(|_| signer.clone()).collect();
    let signed: Vec<(Vec<u8>, Signature)> = clones
        .iter()
        .enumerate()
        .map(|(i, s)| {
            let msg = format!("vote:height={},round=0", i).into_bytes();
            let sig = s.sign(&msg).unwrap();
            (msg, sig)
        })
        .collect();
    assert_eq!(signed.len(), 100);
    for (msg, sig) in &signed {
        assert!(key.verify(msg, sig).is_ok());
    }
}

#[test]
fn end_to_end_vote_signing() {
    let seed: Vec<u8> = (0u8..32).collect();
    let signer = signer_from_seed(&seed);
    let identity = signer.public_key();
    let key = match identity {
        PublicIdentity::ConsensusKey(k) => k,
        PublicIdentity::AccountKey(_) => panic!("expected a consensus key"),
    };
    let sig = signer.sign(b"vote:height=10,round=0").unwrap();
    assert!(key.verify(b"vote:height=10,round=0", &sig).is_ok());
    assert!(matches!(
        key.verify(b"vote:height=10,round=1", &sig),
        Err(Error::VerificationFailure)
    ));
}
