use vstd::prelude::*;

verus! {

/// Why an operation of the wallet failed.
#[derive(Debug, Clone, Copy, PartialEq, Eq, Structural)]
pub enum WalletError {
    /// The stored key files are missing, unreadable or not of the expected size.
    KeyLoadError,
    /// The system's source of randomness could not produce a seed.
    KeyGenError,
    /// Creating the keystore directory or writing a key file failed.
    PersistError,
    /// The signing primitive rejected the key material.
    SigningError,
    /// A signature or public key handed to verification has the wrong length.
    LengthError,
}

} // verus!
