use moonbeam_bridge::account::AccountId20;
use moonbeam_bridge::chains::{Moonbeam, SignParam, Stagenet, UnsignedTransaction};
use moonbeam_bridge::ecdsa::KeyPair;
use moonbeam_bridge::scale::push_u32_le;
use moonbeam_bridge::signature::Signature;
use moonbeam_bridge::storage::{storage_map_final_key, AccountInfoStorageMapKeyProvider};
use moonbeam_bridge::transaction::{
    encode_signed_payload, sign_transaction, signing_digest_of_payload, TransactionEra,
    TransactionExtension,
};

fn keccak_256(data: &[u8]) -> [u8; 32] {
    <sha3::Keccak256 as sha3::Digest>::digest(data).into()
}

fn hex(s: &str) -> Vec<u8> {
    let s = s.strip_prefix("0x").unwrap_or(s);
    (0..s.len() / 2).map(|i| u8::from_str_radix(&s[2 * i..2 * i + 2], 16).unwrap()).collect()
}

fn key_pair() -> KeyPair {
    let mut seed = [0u8; 32];
    seed[31] = 1;
    KeyPair::from_seed(seed).unwrap()
}

fn golden_extension() -> TransactionExtension {
    TransactionExtension {
        spec_version: 3700,
        transaction_version: 3,
        era: TransactionEra::Immortal,
        genesis_hash: [0u8; 32],
        nonce: 5,
        tip: 0,
        metadata_hash: None,
    }
}

/// The payload of the call `[0x0a, 0x03, 0x01]` with the golden extension.
fn golden_payload() -> Vec<u8> {
    let mut expected = vec![0x0a, 0x03, 0x01];
    // era (immortal), nonce 5, tip 0, metadata hash check disabled
    expected.extend_from_slice(&[0x00, 0x14, 0x00, 0x00]);
    // spec version 3700, transaction version 3
    expected.extend_from_slice(&[0x74, 0x0e, 0x00, 0x00, 0x03, 0x00, 0x00, 0x00]);
    // genesis hash, then the era's block hash (the genesis hash again)
    expected.extend_from_slice(&[0u8; 64]);
    // no metadata hash
    expected.push(0x00);
    expected
}

/// The carried extension bytes of an immortal transaction with this nonce and tip.
fn explicit_bytes(nonce: u32, tip: u128) -> Vec<u8> {
    TransactionExtension { nonce, tip, ..golden_extension() }.encode_explicit()
}

#[test]
fn compact_encoding_of_each_mode() {
    let compact_nonce = |nonce: u32| explicit_bytes(nonce, 0)[1..].to_vec();
    assert_eq!(compact_nonce(0), vec![0x00, 0x00, 0x00]);
    assert_eq!(compact_nonce(5), vec![0x14, 0x00, 0x00]);
    assert_eq!(compact_nonce(63), vec![0xfc, 0x00, 0x00]);
    assert_eq!(compact_nonce(64), vec![0x01, 0x01, 0x00, 0x00]);
    assert_eq!(compact_nonce(16383), vec![0xfd, 0xff, 0x00, 0x00]);
    assert_eq!(compact_nonce(16384), vec![0x02, 0x00, 0x01, 0x00, 0x00, 0x00]);
    assert_eq!(compact_nonce(1 << 30), vec![0x03, 0x00, 0x00, 0x00, 0x40, 0x00, 0x00]);
    assert_eq!(compact_nonce(u32::MAX), vec![0x03, 0xff, 0xff, 0xff, 0xff, 0x00, 0x00]);
    let compact_tip = |tip: u128| {
        let bytes = explicit_bytes(0, tip);
        bytes[2..bytes.len() - 1].to_vec()
    };
    assert_eq!(compact_tip(0), vec![0x00]);
    assert_eq!(compact_tip(1 << 32), vec![0x07, 0x00, 0x00, 0x00, 0x00, 0x01]);
    assert_eq!(compact_tip(u128::MAX), [vec![0x33], vec![0xff; 16]].concat());
}

#[test]
fn u32_is_little_endian() {
    let mut out = vec![0xaa];
    push_u32_le(&mut out, 3700);
    assert_eq!(out, vec![0xaa, 0x74, 0x0e, 0x00, 0x00]);
}

#[test]
fn immortal_extension_bytes() {
    let extension = golden_extension();
    assert_eq!(extension.encode_explicit(), vec![0x00, 0x14, 0x00, 0x00]);
    assert_eq!(extension.encode_implicit(), golden_payload()[7..].to_vec());
}

#[test]
fn mortal_extension_bytes() {
    let extension = TransactionExtension {
        era: TransactionEra::Mortal { block_number: 10, block_hash: [7u8; 32], period: 64 },
        tip: 1000,
        metadata_hash: Some([9u8; 32]),
        ..golden_extension()
    };
    // period 64: low bits log2(64) - 1 = 5; phase 10 above them.
    assert_eq!(extension.encode_explicit(), vec![0xa5, 0x00, 0x14, 0xa1, 0x0f, 0x01]);
    let mut implicit = vec![0x74, 0x0e, 0x00, 0x00, 0x03, 0x00, 0x00, 0x00];
    implicit.extend_from_slice(&[0u8; 32]);
    implicit.extend_from_slice(&[7u8; 32]);
    implicit.push(0x01);
    implicit.extend_from_slice(&[9u8; 32]);
    assert_eq!(extension.encode_implicit(), implicit);
}

#[test]
fn mortal_era_encoding() {
    let era_bytes = |period: u32, block_number: u32| {
        let era = TransactionEra::Mortal { block_number, block_hash: [0u8; 32], period };
        TransactionExtension { era, ..golden_extension() }.encode_explicit()[..2].to_vec()
    };
    // Period raised to the minimum of 4: phase 7 % 4 = 3.
    assert_eq!(era_bytes(0, 7), vec![0x31, 0x00]);
    // Period 10000 rounded up to 16384; phase 12345 counted in units of 4.
    assert_eq!(era_bytes(10000, 12345), vec![0xed, 0xc0]);
    // Period capped at 65536; phase 70000 % 65536 = 4464 in units of 16.
    assert_eq!(era_bytes(1 << 20, 70000), vec![0x7f, 0x11]);
}

#[test]
fn golden_signed_payload() {
    let call = [0x0a, 0x03, 0x01];
    assert_eq!(encode_signed_payload(&call, &golden_extension()), golden_payload());
}

#[test]
fn short_payload_is_hashed_once() {
    let payload = golden_payload();
    assert_eq!(signing_digest_of_payload(&payload), keccak_256(&payload));
}

#[test]
fn long_payload_is_blake2_hashed_first() {
    let payload = vec![0x42u8; 300];
    let expected = keccak_256(&sp_io::hashing::blake2_256(&payload));
    assert_eq!(signing_digest_of_payload(&payload), expected);
    assert_ne!(signing_digest_of_payload(&payload), keccak_256(&payload));
    let at_limit = vec![0x42u8; 256];
    assert_eq!(signing_digest_of_payload(&at_limit), keccak_256(&at_limit));
}

#[test]
fn golden_signed_extrinsic() {
    let pair = key_pair();
    let call = vec![0x0a, 0x03, 0x01];
    let tx = sign_transaction(&pair, call.clone(), golden_extension()).unwrap();
    let account = AccountId20::derive_from_public_key(&pair.public());
    assert_eq!(tx.signer, account);
    assert_eq!(tx.call, call);
    let signature = tx.signature.to_raw();
    // 1 + 20 + 65 + 4 + 3 = 93 bytes: compact length 4 * 93 + 1, two bytes.
    let mut expected = vec![0x75, 0x01, 0x84];
    expected.extend_from_slice(&hex("7e5f4552091a69125d5dfcb7b8c2659029395bdf"));
    expected.extend_from_slice(&signature);
    expected.extend_from_slice(&[0x00, 0x14, 0x00, 0x00]);
    expected.extend_from_slice(&call);
    assert_eq!(tx.encode(), expected);
    // The signature is the key's over the Keccak-256 digest of the payload.
    assert_eq!(signature, pair.sign_prehashed(&keccak_256(&golden_payload())));
    assert!(tx.signature.verify(&golden_payload(), &account));
}

#[test]
fn golden_signed_extrinsic_bytes() {
    let tx = sign_transaction(&key_pair(), vec![0x0a, 0x03, 0x01], golden_extension()).unwrap();
    let golden = [
        "7501",
        "84",
        "7e5f4552091a69125d5dfcb7b8c2659029395bdf",
        "d13c382c2d15106a6b528db249f32966615d00e930395ead316d9066e2270bba",
        "14d1586e50e280a4ff3c7b759f002d82d05bde6ee3621acb5d9767e62fd5a71b",
        "00",
        "00140000",
        "0a0301",
    ]
    .concat();
    let golden = hex(&golden);
    assert_eq!(tx.encode(), golden);
}

#[test]
fn long_call_signature_verifies_over_payload_digest() {
    let pair = key_pair();
    let call = vec![0x33u8; 400];
    let tx = sign_transaction(&pair, call.clone(), golden_extension()).unwrap();
    let payload = encode_signed_payload(&call, &golden_extension());
    let message = sp_io::hashing::blake2_256(&payload);
    assert!(tx.signature.verify(&message, &tx.signer));
    let encoded = tx.encode();
    // 1 + 20 + 65 + 4 + 400 bytes: a two-byte compact length.
    assert_eq!(encoded[..2].to_vec(), vec![0xa9, 0x07]);
    assert_eq!(encoded.len(), 2 + 490);
}

fn sign_param() -> SignParam {
    SignParam { spec_version: 3700, transaction_version: 3, genesis_hash: [0u8; 32], signer: key_pair() }
}

fn unsigned() -> UnsignedTransaction {
    UnsignedTransaction { call: vec![0x0a, 0x03, 0x01], nonce: 5, tip: 0, era: TransactionEra::Immortal }
}

#[test]
fn chains_sign_with_common_extension() {
    let expected = sign_transaction(&key_pair(), vec![0x0a, 0x03, 0x01], golden_extension()).unwrap();
    let stagenet = Stagenet::sign_transaction(sign_param(), unsigned()).unwrap();
    let moonbeam = Moonbeam::sign_transaction(sign_param(), unsigned()).unwrap();
    assert_eq!(stagenet.encode(), expected.encode());
    assert_eq!(moonbeam.encode(), expected.encode());
}

#[test]
fn chains_names() {
    assert_eq!(Stagenet::name(), "Stagenet");
    assert_eq!(Moonbeam::name(), "Moonbeam");
}

#[test]
fn chains_runtime_version() {
    let version = Stagenet::runtime_version();
    assert_eq!((version.spec_version, version.transaction_version), (3700, 3));
    assert_eq!(Moonbeam::runtime_version(), version);
}

#[test]
fn account_info_storage_key() {
    let account = AccountId20::from_raw_bytes([0x11u8; 20]);
    let mut expected = hex("26aa394eea5630e07c48ae0c9558cef7b99d880ec681799c0cf30e8886371da9");
    expected.extend_from_slice(&sp_io::hashing::blake2_128(&[0x11u8; 20]));
    expected.extend_from_slice(&[0x11u8; 20]);
    assert_eq!(AccountInfoStorageMapKeyProvider::final_key(&account), expected);
    assert_eq!(Stagenet::account_info_storage_key(&account), expected);
    assert_eq!(Moonbeam::account_info_storage_key(&account), expected);
    assert_eq!(storage_map_final_key(b"System", b"Account", &[0x11u8; 20]), expected);
}

#[test]
fn signed_extrinsic_signature_is_recoverable() {
    let tx = sign_transaction(&key_pair(), vec![1, 2, 3], golden_extension()).unwrap();
    let signature = Signature::from_raw(tx.signature.to_raw());
    let payload = encode_signed_payload(&[1, 2, 3], &golden_extension());
    assert!(signature.verify(&payload, &tx.signer));
}
