use moonbeam_bridge::account::AccountId20;
use moonbeam_bridge::ecdsa::KeyPair;
use moonbeam_bridge::signature::{MultiSignature, Signature};

fn keccak_256(data: &[u8]) -> [u8; 32] {
    <sha3::Keccak256 as sha3::Digest>::digest(data).into()
}

fn pair(last: u8) -> KeyPair {
    let mut seed = [0x11u8; 32];
    seed[31] = last;
    KeyPair::from_seed(seed).unwrap()
}

fn account_of(pair: &KeyPair) -> AccountId20 {
    AccountId20::derive_from_public_key(&pair.public())
}

fn sign(pair: &KeyPair, message: &[u8]) -> Signature {
    pair.sign(message)
}

#[test]
fn sign_hashes_with_keccak_first() {
    let signer = pair(1);
    assert_eq!(signer.sign(b"abc").to_raw(), signer.sign_prehashed(&keccak_256(b"abc")));
}

#[test]
fn signature_verifies_for_its_signer() {
    for (last, message) in [(1u8, &b"hello"[..]), (2, &b""[..]), (3, &[0u8; 300][..])] {
        let signer = pair(last);
        assert!(sign(&signer, message).verify(message, &account_of(&signer)));
    }
}

#[test]
fn tampered_message_does_not_verify() {
    let signer = pair(1);
    let signature = sign(&signer, b"transfer 10");
    assert!(!signature.verify(b"transfer 11", &account_of(&signer)));
}

#[test]
fn other_signer_does_not_verify() {
    let alice = pair(1);
    let bob = pair(2);
    let signature = sign(&bob, b"message");
    assert!(!signature.verify(b"message", &account_of(&alice)));
    assert!(signature.verify(b"message", &account_of(&bob)));
}

#[test]
fn out_of_range_recovery_id_is_refused() {
    let signer = pair(1);
    let account = account_of(&signer);
    let mut bytes = sign(&signer, b"message").to_raw();
    for v in [4u8, 5, 26, 31, 0x80, 0xff] {
        bytes[64] = v;
        assert!(!Signature::from_raw(bytes).verify(b"message", &account));
    }
}

#[test]
fn ethereum_recovery_ids_are_accepted() {
    let signer = pair(1);
    let account = account_of(&signer);
    let mut bytes = sign(&signer, b"message").to_raw();
    assert!(bytes[64] < 2);
    bytes[64] += 27;
    assert!(Signature::from_raw(bytes).verify(b"message", &account));
}

#[test]
fn flipped_bit_of_s_does_not_verify() {
    let signer = pair(1);
    let account = account_of(&signer);
    let signature = sign(&signer, b"message");
    assert!(signature.verify(b"message", &account));
    let mut bytes = signature.to_raw();
    bytes[40] ^= 0x01;
    assert!(!Signature::from_raw(bytes).verify(b"message", &account));
}

#[test]
fn malformed_signatures_do_not_verify() {
    let account = account_of(&pair(1));
    assert!(!Signature::from_raw([0u8; 65]).verify(b"message", &account));
    assert!(!Signature::from_raw([0xffu8; 65]).verify(b"message", &account));
}

#[test]
fn ecdsa_multi_signature_is_taken_as_is() {
    let signature = sign(&pair(1), b"message");
    let taken = Signature::from_multi_signature(MultiSignature::Ecdsa(signature.to_raw()));
    assert_eq!(taken.to_raw(), signature.to_raw());
    let taken = Signature::from_multi_signature(MultiSignature::Eth(signature.to_raw()));
    assert_eq!(taken.to_raw(), signature.to_raw());
}

fn hex(s: &str) -> Vec<u8> {
    (0..s.len() / 2).map(|i| u8::from_str_radix(&s[2 * i..2 * i + 2], 16).unwrap()).collect()
}

/// A signature by the secret 1 over the Keccak-256 digest of `hello`.
const HELLO_SIGNATURE: &str = "433ec3d37e4f1253df15e2dea412fed8e915737730f74b3dfb1353268f932ef5\
                               557c9158e0b34bce39de28d11797b42e9b1acb2749230885fe075aedc3e491a4\
                               00";

#[test]
fn known_triple_verifies() {
    let signature = Signature::from_raw(hex(HELLO_SIGNATURE).try_into().unwrap());
    let account = AccountId20::from_raw_bytes(hex("7e5f4552091a69125d5dfcb7b8c2659029395bdf").try_into().unwrap());
    assert!(signature.verify(b"hello", &account));
    for bit in [0u8, 3, 7] {
        let mut flipped = signature.to_raw();
        flipped[63] ^= 1 << bit;
        assert!(!Signature::from_raw(flipped).verify(b"hello", &account));
    }
}
