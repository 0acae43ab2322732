use wallet::{
    gen_keypair, get_or_gen_wallet, init_wallet, keypair_from_seed, load_wallet, signature, verify, KeyPair,
    StoreContents, WalletError,
};

fn from_hex(s: &str) -> Vec<u8> {
    (0..s.len() / 2)
        .map(|i| u8::from_str_radix(&s[2 * i..2 * i + 2], 16).unwrap())
        .collect()
}

// RFC 8032, section 7.1, first test vector (empty message).
fn rfc_keys() -> KeyPair {
    KeyPair {
        public_key: from_hex("d75a980182b10ab7d54bfed3c964073a0ee172f3daa62325af021a68f707511a"),
        private_key: from_hex("9d61b19deffd5a60ba844af492ec2cc44449c5697b326919703bac031cae7f60"),
    }
}

const RFC_SIGNATURE: &str = "e5564300c360ac729086e2cc806e828a84877f1eb8e5d974d873e065224901555fb8821590a33bacc61e39701cf9b46bd25bf5f0595bbe24655141438e7a100b";

fn fresh_keys() -> KeyPair {
    gen_keypair().expect("the system random source is available")
}

#[test]
fn signature_matches_known_vector() {
    let sig = signature(&[], &rfc_keys()).unwrap();
    assert_eq!(sig, from_hex(RFC_SIGNATURE));
}

#[test]
fn known_vector_verifies() {
    let keys = rfc_keys();
    assert_eq!(verify(&[], &from_hex(RFC_SIGNATURE), &keys.public_key), Ok(true));
}

#[test]
fn sign_then_verify_round_trip() {
    let keys = fresh_keys();
    for msg in [vec![], vec![0u8], b"transfer 55555555 to [1; 32]".to_vec(), vec![7u8; 9000]] {
        let sig = signature(&msg, &keys).unwrap();
        assert_eq!(sig.len(), 64);
        assert_eq!(verify(&msg, &sig, &keys.public_key), Ok(true));
    }
}

#[test]
fn signing_is_deterministic() {
    let keys = fresh_keys();
    let msg = b"block 9000".to_vec();
    assert_eq!(signature(&msg, &keys).unwrap(), signature(&msg, &keys).unwrap());
}

#[test]
fn tampered_message_is_rejected() {
    let keys = fresh_keys();
    let msg = b"pay 55555555".to_vec();
    let sig = signature(&msg, &keys).unwrap();
    for i in 0..msg.len() {
        let mut altered = msg.clone();
        altered[i] ^= 0x01;
        assert_eq!(verify(&altered, &sig, &keys.public_key), Ok(false));
    }
}

#[test]
fn tampered_signature_is_rejected() {
    let keys = rfc_keys();
    let sig = from_hex(RFC_SIGNATURE);
    for i in 0..sig.len() {
        let mut altered = sig.clone();
        altered[i] ^= 0x80;
        assert_eq!(verify(&[], &altered, &keys.public_key), Ok(false));
    }
}

#[test]
fn signature_fails_under_other_key() {
    let a = fresh_keys();
    let b = fresh_keys();
    assert_ne!(a.public_key, b.public_key);
    let msg = b"same message".to_vec();
    let sig = signature(&msg, &a).unwrap();
    assert_eq!(verify(&msg, &sig, &a.public_key), Ok(true));
    assert_eq!(verify(&msg, &sig, &b.public_key), Ok(false));
}

#[test]
fn verify_rejects_wrong_lengths() {
    let keys = rfc_keys();
    let sig = from_hex(RFC_SIGNATURE);
    assert_eq!(verify(&[], &sig[..63], &keys.public_key), Err(WalletError::LengthError));
    let mut long_sig = sig.clone();
    long_sig.push(0);
    assert_eq!(verify(&[], &long_sig, &keys.public_key), Err(WalletError::LengthError));
    assert_eq!(verify(&[], &sig, &keys.public_key[..31]), Err(WalletError::LengthError));
    assert_eq!(verify(&[], &[], &[]), Err(WalletError::LengthError));
}

#[test]
fn mismatched_keypair_is_a_signing_error() {
    let a = fresh_keys();
    let b = fresh_keys();
    let mixed = KeyPair { public_key: b.public_key.clone(), private_key: a.private_key.clone() };
    assert_eq!(signature(b"m", &mixed), Err(WalletError::SigningError));
    let short = KeyPair { public_key: a.public_key.clone(), private_key: vec![0u8; 16] };
    assert_eq!(signature(b"m", &short), Err(WalletError::SigningError));
}

#[test]
fn generated_keys_have_fixed_sizes_and_belong_together() {
    let keys = fresh_keys();
    assert_eq!(keys.public_key.len(), 32);
    assert_eq!(keys.private_key.len(), 32);
    // The signing primitive accepts only a public key derived from the seed.
    assert!(signature(b"x", &keys).is_ok());
}

#[test]
fn first_run_generates_identity() {
    let w = get_or_gen_wallet(StoreContents::Absent).unwrap();
    assert!(w.generated);
    assert_eq!(w.keys.public_key.len(), 32);
    assert_eq!(w.keys.private_key.len(), 32);
}

#[test]
fn second_call_returns_same_identity() {
    let first = get_or_gen_wallet(StoreContents::Absent).unwrap();
    let stored = StoreContents::Present {
        public_key: Some(first.keys.public_key.clone()),
        private_key: Some(first.keys.private_key.clone()),
    };
    let second = get_or_gen_wallet(stored.clone()).unwrap();
    let third = get_or_gen_wallet(stored).unwrap();
    assert!(!second.generated);
    assert_eq!(second.keys, first.keys);
    assert_eq!(third.keys, first.keys);
}

#[test]
fn truncated_private_key_is_a_load_error() {
    let keys = fresh_keys();
    let truncated = keys.private_key[..31].to_vec();
    assert_eq!(
        load_wallet(Some(keys.public_key.clone()), Some(truncated.clone())),
        Err(WalletError::KeyLoadError)
    );
    let stored = StoreContents::Present {
        public_key: Some(keys.public_key.clone()),
        private_key: Some(truncated),
    };
    assert_eq!(get_or_gen_wallet(stored), Err(WalletError::KeyLoadError));
    assert_eq!(
        load_wallet(Some(keys.public_key.clone()), Some(vec![])),
        Err(WalletError::KeyLoadError)
    );
}

#[test]
fn wrong_sized_or_missing_files_are_load_errors() {
    let keys = fresh_keys();
    let mut long_public = keys.public_key.clone();
    long_public.push(0);
    assert_eq!(
        load_wallet(Some(long_public), Some(keys.private_key.clone())),
        Err(WalletError::KeyLoadError)
    );
    assert_eq!(load_wallet(None, Some(keys.private_key.clone())), Err(WalletError::KeyLoadError));
    assert_eq!(load_wallet(Some(keys.public_key.clone()), None), Err(WalletError::KeyLoadError));
    assert_eq!(load_wallet(None, None), Err(WalletError::KeyLoadError));
}

#[test]
fn load_returns_stored_bytes() {
    let keys = rfc_keys();
    let loaded = load_wallet(Some(keys.public_key.clone()), Some(keys.private_key.clone()));
    assert_eq!(loaded, Ok(keys));
}

#[test]
fn init_wallet_reports_what_to_persist() {
    let fresh = init_wallet(StoreContents::Absent).unwrap().expect("a fresh keypair to write");
    assert_eq!(fresh.public_key.len(), 32);
    assert_eq!(fresh.private_key.len(), 32);
    let stored = StoreContents::Present {
        public_key: Some(fresh.public_key.clone()),
        private_key: Some(fresh.private_key.clone()),
    };
    assert_eq!(init_wallet(stored), Ok(None));
    let broken = StoreContents::Present { public_key: Some(fresh.public_key), private_key: None };
    assert_eq!(init_wallet(broken), Err(WalletError::KeyLoadError));
}

#[test]
fn keypair_from_seed_derives_public_key() {
    let expected = rfc_keys();
    let keys = keypair_from_seed(Some(expected.private_key.clone())).unwrap();
    assert_eq!(keys, expected);
}

#[test]
fn failed_or_malformed_draw_is_a_keygen_error() {
    assert_eq!(keypair_from_seed(None), Err(WalletError::KeyGenError));
    assert_eq!(keypair_from_seed(Some(vec![0u8; 31])), Err(WalletError::KeyGenError));
    assert_eq!(keypair_from_seed(Some(vec![0u8; 33])), Err(WalletError::KeyGenError));
    assert_eq!(keypair_from_seed(Some(vec![])), Err(WalletError::KeyGenError));
}
