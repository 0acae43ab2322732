use crate::ed25519::{ed25519_public_key_of, public_key_of_seed, random_seed};
use crate::error::WalletError;
use vstd::prelude::*;

verus! {

/// Length in bytes of an Ed25519 public key.
pub const PUBLIC_KEY_LEN: usize = 32;

/// Length in bytes of an Ed25519 private key seed.
pub const PRIVATE_KEY_LEN: usize = 32;

/// The identity keypair, as the raw bytes kept in the two key files.
#[derive(Debug, Clone, PartialEq, Eq)]
pub struct KeyPair {
    pub public_key: Vec<u8>,
    pub private_key: Vec<u8>,
}

/// The bytes of a keypair, as mathematical sequences.
pub struct KeyPairView {
    pub public_key: Seq<u8>,
    pub private_key: Seq<u8>,
}

impl View for KeyPair {
    type V = KeyPairView;

    open spec fn view(&self) -> KeyPairView {
        KeyPairView { public_key: self.public_key@, private_key: self.private_key@ }
    }
}

impl KeyPairView {
    /// Both keys have the sizes that the key files must have.
    pub open spec fn well_sized(self) -> bool {
        self.public_key.len() == PUBLIC_KEY_LEN && self.private_key.len() == PRIVATE_KEY_LEN
    }

    /// The public key is the one that belongs to the private key seed, that is,
    /// the two were generated together.
    pub open spec fn consistent(self) -> bool {
        self.public_key == ed25519_public_key_of(self.private_key)
    }
}

/// The identity that `get_or_gen_wallet` hands back, and whether it was freshly
/// generated (and so still has to be written to the store).
#[derive(Debug, Clone, PartialEq, Eq)]
pub struct Wallet {
    pub keys: KeyPair,
    pub generated: bool,
}

/// What was found at the keystore location.
#[derive(Debug, Clone, PartialEq, Eq)]
pub enum StoreContents {
    /// The keystore directory does not exist yet.
    Absent,
    /// The directory exists; each key file's bytes, or `None` where that file
    /// could not be read.
    Present { public_key: Option<Vec<u8>>, private_key: Option<Vec<u8>> },
}

/// The view of a file's bytes, if they were read.
pub open spec fn file_view(f: Option<Vec<u8>>) -> Option<Seq<u8>> {
    match f {
        Some(v) => Some(v@),
        None => None,
    }
}

/// The outcome of loading a keypair from the two key files of an existing
/// store: both must have been read and each must hold exactly the bytes of
/// one key.
pub open spec fn load_spec(public_file: Option<Seq<u8>>, private_file: Option<Seq<u8>>) -> Result<
    KeyPairView,
    WalletError,
> {
    match (public_file, private_file) {
        (Some(p), Some(s)) => {
            let k = KeyPairView { public_key: p, private_key: s };
            if k.well_sized() {
                Ok(k)
            } else {
                Err(WalletError::KeyLoadError)
            }
        },
        _ => Err(WalletError::KeyLoadError),
    }
}

/// Loads the keypair from the contents of the two key files. A missing file,
/// or one that is not exactly the size of its key, is a `KeyLoadError`: a
/// short file is never padded out.
pub fn load_wallet(public_file: Option<Vec<u8>>, private_file: Option<Vec<u8>>) -> (r: Result<
    KeyPair,
    WalletError,
>)
    ensures
        match r {
            Ok(k) => load_spec(file_view(public_file), file_view(private_file)) == Ok::<
                KeyPairView,
                WalletError,
            >(k@),
            Err(e) => load_spec(file_view(public_file), file_view(private_file)) == Err::<
                KeyPairView,
                WalletError,
            >(e),
        },
{
    match (public_file, private_file) {
        (Some(p), Some(s)) => {
            if p.len() == PUBLIC_KEY_LEN && s.len() == PRIVATE_KEY_LEN {
                Ok(KeyPair { public_key: p, private_key: s })
            } else {
                Err(WalletError::KeyLoadError)
            }
        },
        _ => Err(WalletError::KeyLoadError),
    }
}

/// Builds the keypair for a seed drawn from the random source: the seed is
/// the private key and the public key is derived from it. A failed draw
/// (`None`), or one that is not a 32-byte seed, is a `KeyGenError`; no key
/// is ever made up in its place.
pub fn keypair_from_seed(draw: Option<Vec<u8>>) -> (r: Result<KeyPair, WalletError>)
    ensures
        match draw {
            Some(seed) => if seed@.len() == PRIVATE_KEY_LEN {
                match r {
                    Ok(k) => k@.private_key == seed@ && k@.public_key == ed25519_public_key_of(
                        seed@,
                    ) && k@.well_sized(),
                    Err(_) => false,
                }
            } else {
                r == Err::<KeyPair, WalletError>(WalletError::KeyGenError)
            },
            None => r == Err::<KeyPair, WalletError>(WalletError::KeyGenError),
        },
{
    match draw {
        Some(seed) => match public_key_of_seed(seed.as_slice()) {
            Ok(public_key) => Ok(KeyPair { public_key, private_key: seed }),
            Err(_) => Err(WalletError::KeyGenError),
        },
        None => Err(WalletError::KeyGenError),
    }
}

/// Generates a fresh keypair from a seed drawn from the system's secure random
/// source, through `keypair_from_seed`; whatever the source returned, the
/// result is a well-sized consistent keypair or a `KeyGenError`.
pub fn gen_keypair() -> (r: Result<KeyPair, WalletError>)
    ensures
        match r {
            Ok(k) => k@.well_sized() && k@.consistent(),
            Err(e) => e == WalletError::KeyGenError,
        },
{
    let draw = match random_seed() {
        Ok(seed) => Some(seed),
        Err(_) => None,
    };
    keypair_from_seed(draw)
}

/// Ensures that an identity exists: loads the keypair from an existing store,
/// or generates a fresh one where the store is absent. A fresh keypair is
/// marked `generated`, and its two keys are the bytes to write to the store.
pub fn get_or_gen_wallet(store: StoreContents) -> (r: Result<Wallet, WalletError>)
    ensures
        match store {
            StoreContents::Absent => match r {
                Ok(w) => w.generated && w.keys@.well_sized() && w.keys@.consistent(),
                Err(e) => e == WalletError::KeyGenError,
            },
            StoreContents::Present { public_key, private_key } => match r {
                Ok(w) => !w.generated && load_spec(file_view(public_key), file_view(private_key))
                    == Ok::<KeyPairView, WalletError>(w.keys@),
                Err(e) => load_spec(file_view(public_key), file_view(private_key)) == Err::<
                    KeyPairView,
                    WalletError,
                >(e),
            },
        },
{
    match store {
        StoreContents::Absent => match gen_keypair() {
            Ok(keys) => Ok(Wallet { keys, generated: true }),
            Err(e) => Err(e),
        },
        StoreContents::Present { public_key, private_key } => match load_wallet(
            public_key,
            private_key,
        ) {
            Ok(keys) => Ok(Wallet { keys, generated: false }),
            Err(e) => Err(e),
        },
    }
}

/// Makes sure an identity exists, discarding the keys themselves: the result
/// holds only the freshly generated keypair that has to be written to the
/// store, or `None` where the store already holds a valid one.
pub fn init_wallet(store: StoreContents) -> (r: Result<Option<KeyPair>, WalletError>)
    ensures
        match store {
            StoreContents::Absent => match r {
                Ok(Some(k)) => k@.well_sized() && k@.consistent(),
                Ok(None) => false,
                Err(e) => e == WalletError::KeyGenError,
            },
            StoreContents::Present { public_key, private_key } => match r {
                Ok(Some(_)) => false,
                Ok(None) => load_spec(file_view(public_key), file_view(private_key)) is Ok,
                Err(e) => load_spec(file_view(public_key), file_view(private_key)) == Err::<
                    KeyPairView,
                    WalletError,
                >(e),
            },
        },
{
    match get_or_gen_wallet(store) {
        Ok(w) => if w.generated {
            Ok(Some(w.keys))
        } else {
            Ok(None)
        },
        Err(e) => Err(e),
    }
}

/// Keys that were written to the store are loaded back unchanged: once the
/// two files hold a well-sized keypair, `get_or_gen_wallet` returns exactly those
/// bytes, on every later call, without generating again.
pub proof fn lemma_reload_returns_same_keys(k: KeyPairView)
    requires
        k.well_sized(),
    ensures
        load_spec(Some(k.public_key), Some(k.private_key)) == Ok::<KeyPairView, WalletError>(k),
{
}

} // verus!
