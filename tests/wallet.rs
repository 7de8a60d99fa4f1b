use bech32::{ToBase32, Variant};
use nomic_wallet::address::{decode_address, native_address, ADDRESS_PREFIX};
use nomic_wallet::error::WalletError;
use nomic_wallet::transaction::{Transaction, TRANSFER_FEE};
use nomic_wallet::wallet::{PendingTransaction, Wallet};
use secp256k1::ecdsa::Signature;
use secp256k1::{Message, PublicKey, Secp256k1};

const GENERATOR: &str = "0279be667ef9dcbbac55a06295ce870b07029bfcdb2dce28d959f2815b16f81798";
const GENERATOR_ADDRESS: &str = "nomic1qfumuen7l8wthtz45p3ftn58pvrs9xlumvkuu2xet8egzkcklqtes0w4drq";

fn hex(s: &str) -> Vec<u8> {
    (0..s.len())
        .step_by(2)
        .map(|i| u8::from_str_radix(&s[i..i + 2], 16).unwrap())
        .collect()
}

fn secret_one() -> Vec<u8> {
    let mut bytes = vec![0u8; 32];
    bytes[31] = 1;
    bytes
}

fn wallet_one() -> Wallet {
    Wallet::from_secret_bytes(&secret_one()).unwrap()
}

fn verifies(pubkey: &[u8], digest: &[u8], signature: &[u8]) -> bool {
    let secp = Secp256k1::verification_only();
    let key = PublicKey::from_slice(pubkey).unwrap();
    let message = Message::from_slice(digest).unwrap();
    let signature = Signature::from_compact(signature).unwrap();
    secp.verify_ecdsa(&message, &signature, &key).is_ok()
}

#[test]
fn public_key_of_secret_one_is_the_generator() {
    let wallet = wallet_one();
    assert_eq!(wallet.pubkey_bytes(), hex(GENERATOR));
    let pubkey = wallet.pubkey();
    assert!(pubkey.compressed);
    assert_eq!(pubkey.to_bytes(), hex(GENERATOR));
}

#[test]
fn receive_address_of_secret_one() {
    let wallet = wallet_one();
    assert_eq!(wallet.receive_address(), GENERATOR_ADDRESS);
    assert_eq!(native_address(&hex(GENERATOR)), GENERATOR_ADDRESS);
}

#[test]
fn native_address_round_trip() {
    let key = hex(GENERATOR);
    assert_eq!(decode_address(&native_address(&key)), Ok(key));
    for len in [0usize, 1, 20, 32, 33, 65] {
        let bytes: Vec<u8> = (0..len).map(|i| (i * 37 + 11) as u8).collect();
        assert_eq!(decode_address(&native_address(&bytes)), Ok(bytes));
    }
}

#[test]
fn decode_known_address() {
    assert_eq!(decode_address(GENERATOR_ADDRESS), Ok(hex(GENERATOR)));
    let upper = GENERATOR_ADDRESS.to_uppercase();
    assert_eq!(decode_address(&upper), Ok(hex(GENERATOR)));
}

#[test]
fn decode_rejects_other_prefix() {
    let other = bech32::encode("othernet", hex(GENERATOR).to_base32(), Variant::Bech32).unwrap();
    assert_eq!(
        other,
        "othernet1qfumuen7l8wthtz45p3ftn58pvrs9xlumvkuu2xet8egzkcklqtes0ufm4f"
    );
    assert_eq!(decode_address(&other), Err(WalletError::AddressPrefix));
}

#[test]
fn decode_rejects_bad_text() {
    assert_eq!(decode_address("not an address"), Err(WalletError::AddressDecode));
    assert_eq!(decode_address(""), Err(WalletError::AddressDecode));
    let mut broken = GENERATOR_ADDRESS.to_string();
    broken.pop();
    broken.push('p');
    assert_eq!(decode_address(&broken), Err(WalletError::AddressDecode));
}

#[test]
fn decode_rejects_bech32m_checksum() {
    let text = "nomic1qfumuen7l8wthtz45p3ftn58pvrs9xlumvkuu2xet8egzkcklqtes6j9pxz";
    assert_eq!(decode_address(text), Err(WalletError::AddressDecode));
}

#[test]
fn invalid_secrets_are_refused() {
    assert!(matches!(Wallet::from_secret_bytes(&[0u8; 32]), Err(WalletError::InvalidKey)));
    assert!(matches!(Wallet::from_secret_bytes(&[1u8; 31]), Err(WalletError::InvalidKey)));
    assert!(matches!(Wallet::from_secret_bytes(&[1u8; 33]), Err(WalletError::InvalidKey)));
    assert!(matches!(Wallet::from_secret_bytes(&[]), Err(WalletError::InvalidKey)));
    let order = hex("fffffffffffffffffffffffffffffffebaaedce6af48a03bbfd25e8cd0364141");
    assert!(matches!(Wallet::from_secret_bytes(&order), Err(WalletError::InvalidKey)));
    let mut below = order.clone();
    below[31] = 0x40;
    assert!(Wallet::from_secret_bytes(&below).is_ok());
    assert!(matches!(Wallet::from_secret_bytes(&[0xffu8; 32]), Err(WalletError::InvalidKey)));
}

#[test]
fn reloading_the_same_bytes_gives_the_same_key() {
    let stored = Wallet::generate_secret();
    let before = stored.clone();
    let first = Wallet::from_secret_bytes(&stored).unwrap();
    let second = Wallet::from_secret_bytes(&stored).unwrap();
    assert_eq!(first.pubkey_bytes(), second.pubkey_bytes());
    assert_eq!(first.receive_address(), second.receive_address());
    assert_eq!(stored, before);
}

#[test]
fn generated_secrets_differ() {
    let a = Wallet::generate_secret();
    let b = Wallet::generate_secret();
    assert_eq!(a.len(), 32);
    assert_eq!(b.len(), 32);
    assert_ne!(a, b);
    let wa = Wallet::from_secret_bytes(&a).unwrap();
    let wb = Wallet::from_secret_bytes(&b).unwrap();
    assert_ne!(wa.pubkey_bytes(), wb.pubkey_bytes());
}

#[test]
fn deposit_address_is_p2wsh_on_testnet() {
    let wallet = wallet_one();
    let mut script = vec![0x21u8];
    script.extend(hex(GENERATOR));
    script.push(0xac);
    let expected = "tb1qrp33g0q5c5txsp9arysrx4k6zdkfs4nce4xj0gdcccefvpysxf3q0sl5k7";
    assert_eq!(wallet.deposit_address(&script), Ok(expected.to_string()));
    assert_eq!(wallet.deposit_address(&script), wallet.deposit_address(&script));
    let other = "tb1qft5p2uhsdcdc3l2ua4ap5qqfg4pjaqlp250x7us7a8qqhrxrxfsqaqh7jw";
    assert_eq!(wallet.deposit_address(&[0x51]), Ok(other.to_string()));
}

#[test]
fn deposit_address_refuses_empty_script() {
    let wallet = wallet_one();
    assert_eq!(wallet.deposit_address(&[]), Err(WalletError::ScriptConstruction));
}

#[test]
fn sign_requires_32_byte_digest() {
    let wallet = wallet_one();
    assert_eq!(wallet.sign(&[7u8; 31]), Err(WalletError::InvalidDigestLength));
    assert_eq!(wallet.sign(&[7u8; 33]), Err(WalletError::InvalidDigestLength));
    assert_eq!(wallet.sign(&[]), Err(WalletError::InvalidDigestLength));
}

#[test]
fn signature_verifies_and_is_deterministic() {
    let wallet = Wallet::from_secret_bytes(&Wallet::generate_secret()).unwrap();
    let digest = [42u8; 32];
    let signature = wallet.sign(&digest).unwrap();
    assert_eq!(signature.len(), 64);
    assert_eq!(wallet.sign(&digest).unwrap(), signature);
    assert!(verifies(&wallet.pubkey_bytes(), &digest, &signature));
    assert!(!verifies(&wallet.pubkey_bytes(), &[43u8; 32], &signature));
}

#[test]
fn signed_transfer_verifies() {
    let wallet = wallet_one();
    let pending = wallet.send(GENERATOR_ADDRESS, 5).unwrap();
    let tx = wallet.build(pending, 9);
    let digest = [3u8; 32];
    let signed = wallet.sign_transaction(tx.clone(), &digest).unwrap();
    match (&tx, &signed) {
        (Transaction::Transfer(unsigned), Transaction::Transfer(t)) => {
            assert!(unsigned.signature.is_empty());
            assert_eq!(t.signature.len(), 64);
            assert!(verifies(&t.from, &digest, &t.signature));
            assert_eq!((t.amount, t.nonce, t.fee_amount), (5, 9, TRANSFER_FEE));
        }
        _ => panic!("expected a transfer"),
    }
    assert_eq!(
        wallet.sign_transaction(tx, &[1u8; 5]),
        Err(WalletError::InvalidDigestLength)
    );
}

#[test]
fn send_rejects_other_prefix_before_any_network_step() {
    let wallet = wallet_one();
    let other = bech32::encode("othernet", vec![1u8; 33].to_base32(), Variant::Bech32).unwrap();
    assert_eq!(wallet.send(&other, 10), Err(WalletError::AddressPrefix));
    assert_eq!(wallet.send("garbage", 10), Err(WalletError::AddressDecode));
}

#[test]
fn successive_nonces_are_carried() {
    let wallet = wallet_one();
    let n = 41u64;
    let first = wallet.build(wallet.send(GENERATOR_ADDRESS, 7).unwrap(), n);
    let second = wallet.build(wallet.send(GENERATOR_ADDRESS, 7).unwrap(), n + 1);
    assert_eq!(first.nonce(), n);
    assert_eq!(second.nonce(), n + 1);
    assert_ne!(first, second);
}

#[test]
fn attach_keeps_the_payload() {
    let wallet = wallet_one();
    let mut tx = Transaction::Transfer(wallet.build_transfer(vec![1, 2], 3, 4));
    tx.attach(vec![9; 64]);
    match tx {
        Transaction::Transfer(t) => {
            assert_eq!(t.to, vec![1, 2]);
            assert_eq!((t.amount, t.fee_amount, t.nonce), (3, 1000, 4));
            assert_eq!(t.signature, vec![9; 64]);
            assert_eq!(t.from, hex(GENERATOR));
        }
        _ => panic!("expected a transfer"),
    }
}

#[test]
fn withdraw_parses_bitcoin_address() {
    let wallet = wallet_one();
    let pending = wallet
        .withdraw("bc1qw508d6qejxtdg4y5r3zarvary0c5xw7kv8f3t4", 2500)
        .unwrap();
    let script = hex("0014751e76e8199196d454941c45d1b3a323f1433bd6");
    assert_eq!(
        pending,
        PendingTransaction::Withdrawal { to: script.clone(), amount: 2500 }
    );
    match wallet.build(pending, 3) {
        Transaction::Withdrawal(w) => {
            assert_eq!(w.to, script);
            assert_eq!((w.amount, w.nonce), (2500, 3));
            assert_eq!(w.from, hex(GENERATOR));
            assert!(w.signature.is_empty());
        }
        _ => panic!("expected a withdrawal"),
    }
}

#[test]
fn withdraw_rejects_malformed_address() {
    let wallet = wallet_one();
    assert_eq!(wallet.withdraw("not-bitcoin", 1), Err(WalletError::AddressDecode));
    assert_eq!(wallet.withdraw(GENERATOR_ADDRESS, 1), Err(WalletError::AddressDecode));
}

#[test]
fn fresh_wallet_end_to_end() {
    let wallet = Wallet::from_secret_bytes(&Wallet::generate_secret()).unwrap();
    let address = wallet.receive_address();
    assert!(address.starts_with(&format!("{}1", ADDRESS_PREFIX)));
    assert_eq!(decode_address(&address), Ok(wallet.pubkey_bytes()));

    let recipient = wallet_one().receive_address();
    let account_nonce = 17u64;
    let mut submitted = Vec::new();
    let pending = wallet.send(&recipient, 500).unwrap();
    let tx = wallet.build(pending, account_nonce);
    let digest = [5u8; 32];
    submitted.push(wallet.sign_transaction(tx, &digest).unwrap());
    assert_eq!(submitted.len(), 1);
    match &submitted[0] {
        Transaction::Transfer(t) => {
            assert_eq!(t.amount, 500);
            assert_eq!(t.fee_amount, 1000);
            assert_eq!(t.nonce, account_nonce);
            assert_eq!(t.to, hex(GENERATOR));
            assert_eq!(t.from, wallet.pubkey_bytes());
            assert_eq!(t.signature.len(), 64);
            assert!(verifies(&t.from, &digest, &t.signature));
        }
        _ => panic!("expected a transfer"),
    }
}
