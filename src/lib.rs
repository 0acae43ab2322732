//! A single-identity Ed25519 keystore: loading or creating the keypair,
//! signing messages with it, and checking signatures from any party.

pub mod ed25519;
pub mod error;
pub mod keystore;
pub mod signing;

pub use error::WalletError;
pub use keystore::{
    gen_keypair, get_or_gen_wallet, init_wallet, keypair_from_seed, load_wallet, KeyPair, KeyPairView,
    StoreContents, Wallet,
};
pub use signing::{signature, verify};
