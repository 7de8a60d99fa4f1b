use crate::address::deposit_address_text;
use crate::keys::{is_valid_secret, secp_public_key};
use crate::transaction::{is_unsigned_transfer, TransferTransaction};
use crate::wallet::Wallet;
use vstd::prelude::*;

verus! {

/// The deposit address is a function of the wallet and the redeem script: the
/// same key and the same script always give the same address, or the same
/// error.
pub proof fn lemma_deposit_address_deterministic(
    w1: Wallet,
    w2: Wallet,
    script1: Seq<u8>,
    script2: Seq<u8>,
)
    requires
        w1@ == w2@,
        script1 == script2,
    ensures
        deposit_address_text(script1) == deposit_address_text(script2),
{
}

/// Loading a wallet twice from the same stored bytes gives the same public key
/// both times, and the secret is the stored bytes unchanged.
pub proof fn lemma_reload_same_public_key(stored: Seq<u8>, w1: Wallet, w2: Wallet)
    requires
        is_valid_secret(stored),
        w1@ == stored,
        w2@ == stored,
    ensures
        w1.public_key_view() == w2.public_key_view(),
        w1.public_key_view() == secp_public_key(stored),
{
}

/// Transfers built after successive account fetches carry the nonces read,
/// `n` and then `n + 1`, so they never share a nonce.
pub proof fn lemma_successive_nonces_differ(
    first: TransferTransaction,
    second: TransferTransaction,
    from: Seq<u8>,
    to: Seq<u8>,
    amount: u64,
    n: u64,
)
    requires
        n < u64::MAX,
        is_unsigned_transfer(first, from, to, amount, n),
        is_unsigned_transfer(second, from, to, amount, (n + 1) as u64),
    ensures
        first.nonce == n,
        second.nonce == n + 1,
        first.nonce != second.nonce,
        first != second,
{
}

} // verus!
