use secp256k1::{Message, PublicKey, Secp256k1, SecretKey};
use vstd::prelude::*;

verus! {

/// The order of the secp256k1 group.
pub open spec fn curve_order() -> nat {
    0xFFFF_FFFF_FFFF_FFFF_FFFF_FFFF_FFFF_FFFE_BAAE_DCE6_AF48_A03B_BFD2_5E8C_D036_4141nat
}

/// The value of a byte string read most significant byte first.
pub open spec fn be_value(b: Seq<u8>) -> nat
    decreases b.len(),
{
    if b.len() == 0 {
        0
    } else {
        be_value(b.drop_last()) * 256 + b.last() as nat
    }
}

/// A secret key: 32 bytes whose big-endian value is non-zero and below the
/// group order.
pub open spec fn is_valid_secret(b: Seq<u8>) -> bool {
    &&& b.len() == 32
    &&& 0 < be_value(b)
    &&& be_value(b) < curve_order()
}

/// The compressed serialization of the public key of a secret.
pub uninterp spec fn secp_public_key(secret: Seq<u8>) -> Seq<u8>;

/// The compact ECDSA signature of a 32-byte digest under a secret.
pub uninterp spec fn ecdsa_compact_signature(secret: Seq<u8>, digest: Seq<u8>) -> Seq<u8>;

/// Relies on `secp256k1::SecretKey::from_slice`, which accepts exactly 32 bytes
/// whose big-endian value is neither zero nor at least the group order.
#[verifier::external_body]
pub(crate) fn secret_key_accepts(bytes: &[u8]) -> (r: bool)
    ensures
        r == is_valid_secret(bytes@),
{
    SecretKey::from_slice(bytes).is_ok()
}

/// Relies on `secp256k1::PublicKey::from_secret_key` and its 33-byte
/// compressed `serialize`: the result depends on the secret alone.
#[verifier::external_body]
pub(crate) fn public_key_of(secret: &[u8]) -> (r: Vec<u8>)
    requires
        is_valid_secret(secret@),
    ensures
        r@ == secp_public_key(secret@),
        r@.len() == 33,
{
    let secp = Secp256k1::signing_only();
    let key = SecretKey::from_slice(secret).expect("checked secret");
    PublicKey::from_secret_key(&secp, &key).serialize().to_vec()
}

/// Relies on `secp256k1::Secp256k1::sign_ecdsa` and the 64-byte
/// `serialize_compact`: nonces follow RFC 6979, so the signature depends on
/// the secret and the digest alone.
#[verifier::external_body]
pub(crate) fn sign_digest(secret: &[u8], digest: &[u8]) -> (r: Vec<u8>)
    requires
        is_valid_secret(secret@),
        digest@.len() == 32,
    ensures
        r@ == ecdsa_compact_signature(secret@, digest@),
        r@.len() == 64,
{
    let secp = Secp256k1::signing_only();
    let key = SecretKey::from_slice(secret).expect("checked secret");
    let message = Message::from_slice(digest).expect("32-byte digest");
    secp.sign_ecdsa(&message, &key).serialize_compact().to_vec()
}

/// Relies on `rand::random` for 32 bytes from the thread-local generator.
#[verifier::external_body]
pub(crate) fn random_secret_bytes() -> (r: Vec<u8>)
    ensures
        r@.len() == 32,
{
    rand::random::<[u8; 32]>().to_vec()
}

} // verus!
