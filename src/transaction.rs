use vstd::prelude::*;

verus! {

/// The fee carried by every transfer.
pub const TRANSFER_FEE: u64 = 1000;

/// A transfer of native coins from one public key to another.
#[derive(Clone, Debug, PartialEq, Eq)]
pub struct TransferTransaction {
    pub from: Vec<u8>,
    pub to: Vec<u8>,
    pub amount: u64,
    pub fee_amount: u64,
    pub nonce: u64,
    pub signature: Vec<u8>,
}

/// A withdrawal to a Bitcoin output script.
#[derive(Clone, Debug, PartialEq, Eq)]
pub struct WithdrawalTransaction {
    pub from: Vec<u8>,
    pub to: Vec<u8>,
    pub amount: u64,
    pub nonce: u64,
    pub signature: Vec<u8>,
}

/// A transaction handed to the ledger.
#[derive(Clone, Debug, PartialEq, Eq)]
pub enum Transaction {
    Transfer(TransferTransaction),
    Withdrawal(WithdrawalTransaction),
}

/// `tx` is the unsigned transfer of `amount` from `from` to `to` at `nonce`.
pub open spec fn is_unsigned_transfer(
    tx: TransferTransaction,
    from: Seq<u8>,
    to: Seq<u8>,
    amount: u64,
    nonce: u64,
) -> bool {
    &&& tx.from@ == from
    &&& tx.to@ == to
    &&& tx.amount == amount
    &&& tx.fee_amount == TRANSFER_FEE
    &&& tx.nonce == nonce
    &&& tx.signature@.len() == 0
}

/// `tx` is the unsigned withdrawal of `amount` from `from` to the output
/// script `to` at `nonce`.
pub open spec fn is_unsigned_withdrawal(
    tx: WithdrawalTransaction,
    from: Seq<u8>,
    to: Seq<u8>,
    amount: u64,
    nonce: u64,
) -> bool {
    &&& tx.from@ == from
    &&& tx.to@ == to
    &&& tx.amount == amount
    &&& tx.nonce == nonce
    &&& tx.signature@.len() == 0
}

impl Transaction {
    pub open spec fn signature_view(&self) -> Seq<u8> {
        match self {
            Transaction::Transfer(t) => t.signature@,
            Transaction::Withdrawal(w) => w.signature@,
        }
    }

    pub open spec fn nonce_view(&self) -> u64 {
        match self {
            Transaction::Transfer(t) => t.nonce,
            Transaction::Withdrawal(w) => w.nonce,
        }
    }

    /// `self` and `other` agree on every field but the signature.
    pub open spec fn same_payload(&self, other: Transaction) -> bool {
        match (self, other) {
            (Transaction::Transfer(a), Transaction::Transfer(b)) => {
                &&& a.from@ == b.from@
                &&& a.to@ == b.to@
                &&& a.amount == b.amount
                &&& a.fee_amount == b.fee_amount
                &&& a.nonce == b.nonce
            },
            (Transaction::Withdrawal(a), Transaction::Withdrawal(b)) => {
                &&& a.from@ == b.from@
                &&& a.to@ == b.to@
                &&& a.amount == b.amount
                &&& a.nonce == b.nonce
            },
            _ => false,
        }
    }

    /// The nonce the transaction was built with.
    pub fn nonce(&self) -> (r: u64)
        ensures
            r == self.nonce_view(),
    {
        match self {
            Transaction::Transfer(t) => t.nonce,
            Transaction::Withdrawal(w) => w.nonce,
        }
    }

    /// Puts `signature` in the signature field; every other field is kept.
    pub fn attach(&mut self, signature: Vec<u8>)
        ensures
            final(self).same_payload(*old(self)),
            final(self).signature_view() == signature@,
    {
        match self {
            Transaction::Transfer(t) => {
                t.signature = signature;
            },
            Transaction::Withdrawal(w) => {
                w.signature = signature;
            },
        }
    }
}

} // verus!
