use crate::address::{
    decode_address, decoded_address, deposit_address_text, native_address, native_address_text,
    p2wsh_address, parse_bitcoin_address, withdrawal_script, ADDRESS_PREFIX,
};
use crate::error::WalletError;
use crate::keys::{
    ecdsa_compact_signature, is_valid_secret, public_key_of, random_secret_bytes,
    secp_public_key, secret_key_accepts, sign_digest,
};
use crate::transaction::{
    is_unsigned_transfer, is_unsigned_withdrawal, Transaction, TransferTransaction,
    WithdrawalTransaction, TRANSFER_FEE,
};
use vstd::prelude::*;

verus! {

/// A public key with the flag that fixes its serialized form.
#[derive(Clone, Debug, PartialEq, Eq)]
pub struct PublicKey {
    pub compressed: bool,
    pub bytes: Vec<u8>,
}

impl PublicKey {
    /// The serialized key.
    pub fn to_bytes(&self) -> (r: Vec<u8>)
        ensures
            r@ == self.bytes@,
    {
        self.bytes.clone()
    }
}

/// A payment whose destination has been read and checked, waiting for the
/// sender's account nonce.
#[derive(Clone, Debug, PartialEq, Eq)]
pub enum PendingTransaction {
    /// A transfer to native public key bytes.
    Transfer { to: Vec<u8>, amount: u64 },
    /// A withdrawal to a Bitcoin output script.
    Withdrawal { to: Vec<u8>, amount: u64 },
}

impl PendingTransaction {
    /// `tx` is the unsigned transaction that this payment becomes when sent
    /// from `from` at `nonce`.
    pub open spec fn is_built(&self, tx: Transaction, from: Seq<u8>, nonce: u64) -> bool {
        match (self, tx) {
            (PendingTransaction::Transfer { to, amount }, Transaction::Transfer(t)) => {
                is_unsigned_transfer(t, from, to@, *amount, nonce)
            },
            (PendingTransaction::Withdrawal { to, amount }, Transaction::Withdrawal(w)) => {
                is_unsigned_withdrawal(w, from, to@, *amount, nonce)
            },
            _ => false,
        }
    }
}

/// A wallet holding one secp256k1 secret. It can sign, and derives every
/// address and transaction from the secret's public key.
pub struct Wallet {
    secret: Vec<u8>,
}

impl View for Wallet {
    type V = Seq<u8>;

    /// The secret's 32 bytes.
    closed spec fn view(&self) -> Seq<u8> {
        self.secret@
    }
}

impl Wallet {
    #[verifier::type_invariant]
    spec fn inv(&self) -> bool {
        is_valid_secret(self.secret@)
    }

    /// The compressed public key of the wallet's secret.
    pub open spec fn public_key_view(&self) -> Seq<u8> {
        secp_public_key(self@)
    }

    /// Makes a wallet from stored secret bytes; fails unless they are a valid
    /// secret.
    pub fn from_secret_bytes(bytes: &[u8]) -> (r: Result<Wallet, WalletError>)
        ensures
            r is Ok <==> is_valid_secret(bytes@),
            r matches Ok(w) ==> w@ == bytes@,
            r matches Err(e) ==> e == WalletError::InvalidKey,
    {
        if secret_key_accepts(bytes) {
            let mut secret: Vec<u8> = Vec::new();
            let mut i: usize = 0;
            while i < bytes.len()
                invariant
                    i <= bytes@.len(),
                    secret@ == bytes@.subrange(0, i as int),
                decreases bytes@.len() - i,
            {
                secret.push(bytes[i]);
                i = i + 1;
            }
            assert(secret@ == bytes@);
            Ok(Wallet { secret })
        } else {
            Err(WalletError::InvalidKey)
        }
    }

    /// Draws 32 fresh random bytes to be stored as a new secret.
    pub fn generate_secret() -> (r: Vec<u8>)
        ensures
            r@.len() == 32,
    {
        random_secret_bytes()
    }

    /// The wallet's public key, always in compressed form.
    pub fn pubkey(&self) -> (r: PublicKey)
        ensures
            r.compressed,
            r.bytes@ == self.public_key_view(),
            r.bytes@.len() == 33,
    {
        proof {
            use_type_invariant(self);
        }
        PublicKey { compressed: true, bytes: public_key_of(self.secret.as_slice()) }
    }

    /// The 33 bytes of the wallet's compressed public key.
    pub fn pubkey_bytes(&self) -> (r: Vec<u8>)
        ensures
            r@ == self.public_key_view(),
            r@.len() == 33,
    {
        self.pubkey().bytes
    }

    /// The native chain address that pays to this wallet.
    pub fn receive_address(&self) -> (r: String)
        ensures
            r@ == native_address_text(self.public_key_view()),
            r@.len() > ADDRESS_PREFIX@.len(),
            r@.subrange(0, ADDRESS_PREFIX@.len() as int) == ADDRESS_PREFIX@,
            r@[ADDRESS_PREFIX@.len() as int] == '1',
    {
        let bytes = self.pubkey_bytes();
        native_address(bytes.as_slice())
    }

    /// The deposit address for the redeem script that the peg's signatory set
    /// yields for this wallet's public key.
    pub fn deposit_address(&self, redeem_script: &[u8]) -> (r: Result<String, WalletError>)
        ensures
            match r {
                Ok(s) => deposit_address_text(redeem_script@) == Ok::<Seq<char>, WalletError>(s@),
                Err(e) => deposit_address_text(redeem_script@) == Err::<Seq<char>, WalletError>(e),
            },
    {
        if redeem_script.len() == 0 {
            Err(WalletError::ScriptConstruction)
        } else {
            Ok(p2wsh_address(redeem_script))
        }
    }

    /// The unsigned transfer of `amount` to the key bytes `to` at `nonce`,
    /// with the fixed fee.
    pub fn build_transfer(&self, to: Vec<u8>, amount: u64, nonce: u64) -> (r: TransferTransaction)
        ensures
            is_unsigned_transfer(r, self.public_key_view(), to@, amount, nonce),
    {
        TransferTransaction {
            from: self.pubkey_bytes(),
            to,
            amount,
            fee_amount: TRANSFER_FEE,
            nonce,
            signature: Vec::new(),
        }
    }

    /// The unsigned withdrawal of `amount` to the output script `to` at
    /// `nonce`.
    pub fn build_withdrawal(&self, to: Vec<u8>, amount: u64, nonce: u64) -> (r:
        WithdrawalTransaction)
        ensures
            is_unsigned_withdrawal(r, self.public_key_view(), to@, amount, nonce),
    {
        WithdrawalTransaction {
            from: self.pubkey_bytes(),
            to,
            amount,
            nonce,
            signature: Vec::new(),
        }
    }

    /// Signs a 32-byte digest, giving the 64-byte compact signature.
    pub fn sign(&self, digest: &[u8]) -> (r: Result<Vec<u8>, WalletError>)
        ensures
            r is Ok <==> digest@.len() == 32,
            r matches Ok(s) ==> s@ == ecdsa_compact_signature(self@, digest@) && s@.len() == 64,
            r matches Err(e) ==> e == WalletError::InvalidDigestLength,
    {
        proof {
            use_type_invariant(self);
        }
        if digest.len() != 32 {
            Err(WalletError::InvalidDigestLength)
        } else {
            Ok(sign_digest(self.secret.as_slice(), digest))
        }
    }

    /// Reads and checks the native recipient address of a transfer of
    /// `amount`. Nothing has been asked of the network when this fails.
    pub fn send(&self, address: &str, amount: u64) -> (r: Result<PendingTransaction, WalletError>)
        ensures
            match r {
                Ok(p) => p matches PendingTransaction::Transfer { to, amount: a } && a == amount
                    && decoded_address(address@) == Ok::<Seq<u8>, WalletError>(to@),
                Err(e) => decoded_address(address@) == Err::<Seq<u8>, WalletError>(e),
            },
    {
        match decode_address(address) {
            Ok(to) => Ok(PendingTransaction::Transfer { to, amount }),
            Err(e) => Err(e),
        }
    }

    /// Parses the Bitcoin address of a withdrawal of `amount`. Nothing has been
    /// asked of the network when this fails.
    pub fn withdraw(&self, bitcoin_address: &str, amount: u64) -> (r: Result<
        PendingTransaction,
        WalletError,
    >)
        ensures
            match r {
                Ok(p) => p matches PendingTransaction::Withdrawal { to, amount: a } && a == amount
                    && withdrawal_script(bitcoin_address@) == Ok::<Seq<u8>, WalletError>(to@),
                Err(e) => withdrawal_script(bitcoin_address@) == Err::<Seq<u8>, WalletError>(e),
            },
    {
        match parse_bitcoin_address(bitcoin_address) {
            Some(to) => Ok(PendingTransaction::Withdrawal { to, amount }),
            None => Err(WalletError::AddressDecode),
        }
    }

    /// The unsigned transaction of a pending payment at the account's current
    /// `nonce`.
    pub fn build(&self, pending: PendingTransaction, nonce: u64) -> (r: Transaction)
        ensures
            pending.is_built(r, self.public_key_view(), nonce),
    {
        match pending {
            PendingTransaction::Transfer { to, amount } => Transaction::Transfer(
                self.build_transfer(to, amount, nonce),
            ),
            PendingTransaction::Withdrawal { to, amount } => Transaction::Withdrawal(
                self.build_withdrawal(to, amount, nonce),
            ),
        }
    }

    /// Signs `tx` over its `digest` and attaches the signature; every other
    /// field is kept.
    pub fn sign_transaction(&self, tx: Transaction, digest: &[u8]) -> (r: Result<
        Transaction,
        WalletError,
    >)
        ensures
            r is Ok <==> digest@.len() == 32,
            r matches Ok(t) ==> t.same_payload(tx) && t.signature_view()
                == ecdsa_compact_signature(self@, digest@),
            r matches Err(e) ==> e == WalletError::InvalidDigestLength,
    {
        match self.sign(digest) {
            Ok(signature) => {
                let mut signed = tx;
                signed.attach(signature);
                Ok(signed)
            },
            Err(e) => Err(e),
        }
    }
}

} // verus!
