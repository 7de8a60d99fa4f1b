use crate::error::WalletError;
use bech32::{FromBase32, ToBase32, Variant};
use vstd::prelude::*;

verus! {

/// The human-readable prefix of native chain addresses.
pub const ADDRESS_PREFIX: &'static str = "nomic";

/// A character that may stand in a lowercase bech32 prefix.
pub open spec fn is_lower_hrp_char(c: char) -> bool {
    &&& 33 <= c as u32 <= 126
    &&& !(65 <= c as u32 <= 90)
}

/// A bech32 human-readable prefix written in lower case.
pub open spec fn is_lower_hrp(h: Seq<char>) -> bool {
    &&& 1 <= h.len() <= 83
    &&& forall|i: int| 0 <= i < h.len() ==> is_lower_hrp_char(#[trigger] h[i])
}

/// The bech32 text (Bech32 checksum) of a prefix and the bytes regrouped in
/// 5-bit groups.
pub uninterp spec fn bech32_text(hrp: Seq<char>, data: Seq<u8>) -> Seq<char>;

/// What reading a bech32 text gives: its prefix in lower case, the payload
/// regrouped into bytes, and whether the checksum is the Bech32m one.
pub uninterp spec fn bech32_read(text: Seq<char>) -> Option<(Seq<char>, Seq<u8>, bool)>;

/// The segwit v0 testnet address that pays to the hash of a witness script.
pub uninterp spec fn p2wsh_testnet_address(script: Seq<u8>) -> Seq<char>;

/// The output script that a Bitcoin address text stands for, if it parses.
pub uninterp spec fn bitcoin_output_script(text: Seq<char>) -> Option<Seq<u8>>;

/// The plain values of what `bech32_decode` hands back.
pub open spec fn read_view(r: Option<(String, Vec<u8>, bool)>) -> Option<(Seq<char>, Seq<u8>, bool)> {
    match r {
        Some(p) => Some((p.0@, p.1@, p.2)),
        None => None,
    }
}

/// The bytes of an optional byte vector.
pub open spec fn bytes_view(r: Option<Vec<u8>>) -> Option<Seq<u8>> {
    match r {
        Some(v) => Some(v@),
        None => None,
    }
}

/// The bytes of a byte vector or the error.
pub open spec fn result_view(r: Result<Vec<u8>, WalletError>) -> Result<Seq<u8>, WalletError> {
    match r {
        Ok(v) => Ok(v@),
        Err(e) => Err(e),
    }
}

/// Relies on `bech32::encode` with `Variant::Bech32` over `ToBase32` of the
/// bytes. It fails only on a bad prefix, and writes the prefix in lower case,
/// then the separator `1`, then the data and checksum characters.
#[verifier::external_body]
fn bech32_encode(hrp: &str, data: &[u8]) -> (r: String)
    requires
        is_lower_hrp(hrp@),
    ensures
        r@ == bech32_text(hrp@, data@),
        r@.len() > hrp@.len(),
        r@.subrange(0, hrp@.len() as int) == hrp@,
        r@[hrp@.len() as int] == '1',
{
    bech32::encode(hrp, data.to_base32(), Variant::Bech32).expect("lowercase prefix")
}

/// Relies on `bech32::decode` followed by `FromBase32` for bytes. Decoding
/// splits at the last `1` (no data character is a `1`), lowers the prefix,
/// and checks the checksum, so a text that `bech32::encode` wrote with a
/// lowercase prefix and the Bech32 checksum gives back that prefix and the 5-bit
/// groups of the bytes; those regroup into the same bytes, since `ToBase32`
/// pads with fewer than five zero bits.
#[verifier::external_body]
fn bech32_decode(text: &str) -> (r: Option<(String, Vec<u8>, bool)>)
    ensures
        read_view(r) == bech32_read(text@),
        forall|h: Seq<char>, d: Seq<u8>|
            is_lower_hrp(h) && text@ == #[trigger] bech32_text(h, d) ==> read_view(r) == Some(
                (h, d, false),
            ),
{
    match bech32::decode(text) {
        Ok((hrp, groups, variant)) => match Vec::<u8>::from_base32(&groups) {
            Ok(bytes) => Some((hrp, bytes, variant == Variant::Bech32m)),
            Err(_) => None,
        },
        Err(_) => None,
    }
}

/// Relies on `bitcoin::Address::p2wsh` on `Network::Testnet` and its
/// `Display`: the text depends on the script alone.
#[verifier::external_body]
pub(crate) fn p2wsh_address(script: &[u8]) -> (r: String)
    ensures
        r@ == p2wsh_testnet_address(script@),
{
    bitcoin::Address::p2wsh(bitcoin::Script::from_bytes(script), bitcoin::Network::Testnet).to_string()
}

/// Relies on `bitcoin::Address`'s `FromStr` (any network accepted) and
/// `script_pubkey`: the output script depends on the text alone.
#[verifier::external_body]
pub(crate) fn parse_bitcoin_address(text: &str) -> (r: Option<Vec<u8>>)
    ensures
        bytes_view(r) == bitcoin_output_script(text@),
{
    match text.parse::<bitcoin::Address<bitcoin::address::NetworkUnchecked>>() {
        Ok(address) => Some(address.assume_checked().script_pubkey().into_bytes()),
        Err(_) => None,
    }
}

/// The native address of public key bytes.
pub open spec fn native_address_text(pubkey: Seq<u8>) -> Seq<char> {
    bech32_text(ADDRESS_PREFIX@, pubkey)
}

/// What decoding a native address gives: the key bytes when the text is a
/// Bech32 text with the native prefix.
pub open spec fn decoded_address(text: Seq<char>) -> Result<Seq<u8>, WalletError> {
    match bech32_read(text) {
        None => Err(WalletError::AddressDecode),
        Some((hrp, data, bech32m)) => if bech32m {
            Err(WalletError::AddressDecode)
        } else if hrp != ADDRESS_PREFIX@ {
            Err(WalletError::AddressPrefix)
        } else {
            Ok(data)
        },
    }
}

/// What a deposit address is for a redeem script.
pub open spec fn deposit_address_text(script: Seq<u8>) -> Result<Seq<char>, WalletError> {
    if script.len() == 0 {
        Err(WalletError::ScriptConstruction)
    } else {
        Ok(p2wsh_testnet_address(script))
    }
}

/// What parsing a withdrawal destination gives.
pub open spec fn withdrawal_script(text: Seq<char>) -> Result<Seq<u8>, WalletError> {
    match bitcoin_output_script(text) {
        Some(script) => Ok(script),
        None => Err(WalletError::AddressDecode),
    }
}

/// The native prefix is a valid lowercase bech32 prefix.
proof fn lemma_prefix_is_lower_hrp()
    ensures
        is_lower_hrp(ADDRESS_PREFIX@),
{
    reveal_strlit("nomic");
}

/// Encodes public key bytes as a native chain address.
pub fn native_address(pubkey: &[u8]) -> (r: String)
    ensures
        r@ == native_address_text(pubkey@),
        r@.len() > ADDRESS_PREFIX@.len(),
        r@.subrange(0, ADDRESS_PREFIX@.len() as int) == ADDRESS_PREFIX@,
        r@[ADDRESS_PREFIX@.len() as int] == '1',
{
    proof {
        lemma_prefix_is_lower_hrp();
    }
    bech32_encode(ADDRESS_PREFIX, pubkey)
}

/// Decodes a native chain address into the bytes it carries. Whatever
/// `native_address` wrote reads back as the same bytes.
pub fn decode_address(address: &str) -> (r: Result<Vec<u8>, WalletError>)
    ensures
        result_view(r) == decoded_address(address@),
        forall|pubkey: Seq<u8>|
            address@ == #[trigger] native_address_text(pubkey) ==> result_view(r) == Ok::<
                Seq<u8>,
                WalletError,
            >(pubkey),
{
    proof {
        lemma_prefix_is_lower_hrp();
    }
    match bech32_decode(address) {
        None => Err(WalletError::AddressDecode),
        Some((hrp, data, bech32m)) => {
            if bech32m {
                Err(WalletError::AddressDecode)
            } else if hrp != ADDRESS_PREFIX.to_owned() {
                Err(WalletError::AddressPrefix)
            } else {
                Ok(data)
            }
        },
    }
}

} // verus!
