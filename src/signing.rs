use crate::ed25519::{
    ed25519_accepts, ed25519_public_key_of, ed25519_signature_of, sign_with_seed, verify_ed25519,
};
use crate::error::WalletError;
use crate::keystore::{KeyPair, KeyPairView, PRIVATE_KEY_LEN, PUBLIC_KEY_LEN};
use vstd::prelude::*;

verus! {

/// Length in bytes of an Ed25519 signature.
pub const SIGNATURE_LEN: usize = 64;

/// `sig` is the signature of `msg` under some private key seed whose public
/// key is `public_key`.
pub open spec fn signed_by(public_key: Seq<u8>, msg: Seq<u8>, sig: Seq<u8>) -> bool {
    exists|seed: Seq<u8>|
        seed.len() == PRIVATE_KEY_LEN && public_key == ed25519_public_key_of(seed) && sig
            == #[trigger] ed25519_signature_of(seed, msg)
}

/// Signs the exact bytes of `bytes` with the identity `keys`. The signing
/// primitive rejects a keypair whose public key does not belong to its
/// private key, which is a `SigningError`. The signature it makes is one
/// that `verify` accepts under the keypair's public key.
pub fn signature(bytes: &[u8], keys: &KeyPair) -> (r: Result<Vec<u8>, WalletError>)
    ensures
        r is Ok <==> (keys@.private_key.len() == PRIVATE_KEY_LEN && keys@.consistent()),
        match r {
            Ok(sig) => sig@ == ed25519_signature_of(keys@.private_key, bytes@) && sig@.len()
                == SIGNATURE_LEN && signed_by(keys@.public_key, bytes@, sig@),
            Err(e) => e == WalletError::SigningError,
        },
{
    match sign_with_seed(keys.private_key.as_slice(), keys.public_key.as_slice(), bytes) {
        Ok(sig) => {
            proof {
                lemma_round_trip(keys@, bytes@);
            }
            Ok(sig)
        },
        Err(_) => Err(WalletError::SigningError),
    }
}

/// Checks `sig` as a signature of `bytes` under `public_key`, which may be
/// any party's key. A signature or key of the wrong length is a
/// `LengthError`; otherwise the answer is whether the signature is valid,
/// and a signature made with the public key's own seed always is.
pub fn verify(bytes: &[u8], sig: &[u8], public_key: &[u8]) -> (r: Result<bool, WalletError>)
    ensures
        r == (if sig@.len() != SIGNATURE_LEN || public_key@.len() != PUBLIC_KEY_LEN {
            Err::<bool, WalletError>(WalletError::LengthError)
        } else {
            Ok::<bool, WalletError>(ed25519_accepts(public_key@, bytes@, sig@))
        }),
        signed_by(public_key@, bytes@, sig@) && sig@.len() == SIGNATURE_LEN && public_key@.len()
            == PUBLIC_KEY_LEN ==> r == Ok::<bool, WalletError>(true),
{
    if sig.len() != SIGNATURE_LEN || public_key.len() != PUBLIC_KEY_LEN {
        return Err(WalletError::LengthError);
    }
    let checked = verify_ed25519(public_key, bytes, sig);
    proof {
        if signed_by(public_key@, bytes@, sig@) {
            let seed = choose|seed: Seq<u8>|
                seed.len() == PRIVATE_KEY_LEN && public_key@ == ed25519_public_key_of(seed)
                    && sig@ == #[trigger] ed25519_signature_of(seed, bytes@);
            assert(sig@ == ed25519_signature_of(seed, bytes@));
        }
    }
    match checked {
        Ok(()) => Ok(true),
        Err(_) => Ok(false),
    }
}

/// A signature that `signature` makes with a consistent keypair is one that
/// `verify` accepts under that keypair's public key, for every message.
pub proof fn lemma_round_trip(keys: KeyPairView, msg: Seq<u8>)
    requires
        keys.private_key.len() == PRIVATE_KEY_LEN,
        keys.consistent(),
    ensures
        signed_by(keys.public_key, msg, ed25519_signature_of(keys.private_key, msg)),
{
    assert(keys.public_key == ed25519_public_key_of(keys.private_key));
}

} // verus!
