use vstd::prelude::*;

verus! {

/// What can go wrong while loading a key, reading an address, or building and
/// signing a transaction.
#[derive(Clone, Copy, Debug, PartialEq, Eq, Structural)]
pub enum WalletError {
    /// Reading or writing the key file failed.
    Io,
    /// The stored bytes are not a valid secp256k1 secret.
    InvalidKey,
    /// The address text could not be decoded.
    AddressDecode,
    /// The address belongs to another namespace.
    AddressPrefix,
    /// The redeem script is empty.
    ScriptConstruction,
    /// The transaction could not be digested.
    Sighash,
    /// A digest that is not 32 bytes long was handed to the signer.
    InvalidDigestLength,
    /// The network client reported a failure.
    Network,
}

} // verus!
