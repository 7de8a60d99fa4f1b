//! Key custody, address derivation and transaction signing for a wallet that
//! holds one secp256k1 secret.

pub mod error;
pub mod keys;
pub mod address;
pub mod transaction;
pub mod wallet;
pub mod laws;
