//! The Ed25519 primitives of `ring` that the wallet relies on, with the
//! contracts that the rest of the library is proved against.
use vstd::prelude::*;

verus! {

#[verifier::external_type_specification]
#[verifier::external_body]
pub struct ExUnspecified(ring::error::Unspecified);

#[verifier::external_type_specification]
#[verifier::external_body]
pub struct ExKeyRejected(ring::error::KeyRejected);

/// The Ed25519 public key that belongs to a 32-byte private key seed.
pub uninterp spec fn ed25519_public_key_of(seed: Seq<u8>) -> Seq<u8>;

/// The Ed25519 signature of a message under a 32-byte private key seed
/// (Ed25519 signing is deterministic).
pub uninterp spec fn ed25519_signature_of(seed: Seq<u8>, msg: Seq<u8>) -> Seq<u8>;

/// Whether Ed25519 verification accepts `sig` as a signature of `msg` under
/// `public_key`.
pub uninterp spec fn ed25519_accepts(public_key: Seq<u8>, msg: Seq<u8>, sig: Seq<u8>) -> bool;

/// Relies on ring::rand::generate over ring::rand::SystemRandom: 32 bytes from
/// the operating system's secure random source, or an error where that source
/// fails.
#[verifier::external_body]
pub(crate) fn random_seed() -> (r: Result<Vec<u8>, ring::error::Unspecified>)
    ensures
        match r {
            Ok(seed) => seed@.len() == 32,
            Err(_) => true,
        },
{
    let rng = ring::rand::SystemRandom::new();
    match ring::rand::generate::<[u8; 32]>(&rng) {
        Ok(seed) => Ok(seed.expose().to_vec()),
        Err(e) => Err(e),
    }
}

/// Relies on ring::signature::Ed25519KeyPair::from_seed_unchecked and its
/// public key: it accepts exactly the seeds of 32 bytes, and the public key
/// has 32 bytes.
#[verifier::external_body]
pub(crate) fn public_key_of_seed(seed: &[u8]) -> (r: Result<Vec<u8>, ring::error::KeyRejected>)
    ensures
        r is Ok <==> seed@.len() == 32,
        match r {
            Ok(pk) => pk@ == ed25519_public_key_of(seed@) && pk@.len() == 32,
            Err(_) => true,
        },
{
    match ring::signature::Ed25519KeyPair::from_seed_unchecked(seed) {
        Ok(pair) => Ok(ring::signature::KeyPair::public_key(&pair).as_ref().to_vec()),
        Err(e) => Err(e),
    }
}

/// Relies on ring::signature::Ed25519KeyPair::from_seed_and_public_key, which
/// accepts a 32-byte seed together with exactly the public key derived from
/// it, and on Ed25519KeyPair::sign, whose signature has 64 bytes.
#[verifier::external_body]
pub(crate) fn sign_with_seed(seed: &[u8], public_key: &[u8], msg: &[u8]) -> (r: Result<
    Vec<u8>,
    ring::error::KeyRejected,
>)
    ensures
        r is Ok <==> (seed@.len() == 32 && public_key@ == ed25519_public_key_of(seed@)),
        match r {
            Ok(sig) => sig@ == ed25519_signature_of(seed@, msg@) && sig@.len() == 64,
            Err(_) => true,
        },
{
    match ring::signature::Ed25519KeyPair::from_seed_and_public_key(seed, public_key) {
        Ok(pair) => Ok(pair.sign(msg).as_ref().to_vec()),
        Err(e) => Err(e),
    }
}

/// Relies on ring's Ed25519 `VerificationAlgorithm::verify`: it accepts only a
/// 32-byte public key and a 64-byte signature, and it accepts every signature
/// that Ed25519 signing produced for the same message under the seed of that
/// public key.
#[verifier::external_body]
pub(crate) fn verify_ed25519(public_key: &[u8], msg: &[u8], sig: &[u8]) -> (r: Result<
    (),
    ring::error::Unspecified,
>)
    ensures
        r is Ok <==> ed25519_accepts(public_key@, msg@, sig@),
        r is Ok ==> public_key@.len() == 32 && sig@.len() == 64,
        forall|seed: Seq<u8>|
            seed.len() == 32 && public_key@ == ed25519_public_key_of(seed) && sig@
                == #[trigger] ed25519_signature_of(seed, msg@) ==> r is Ok,
{
    ring::signature::VerificationAlgorithm::verify(
        &ring::signature::ED25519,
        untrusted::Input::from(public_key),
        untrusted::Input::from(msg),
        untrusted::Input::from(sig),
    )
}

} // verus!
