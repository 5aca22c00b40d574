//! Recoverable secp256k1 signatures, checked against an account by recovering the
//! signer's key.
use vstd::prelude::*;
use crate::account::{address_of, address_of_compressed, AccountId20};
use crate::ecdsa::{
    ecdsa_sign_prehashed_of, recovery_id, secp256k1_decompress_of, secp256k1_ecdsa_recover,
    secp256k1_recover_of, KeyPair,
};
use crate::hashing::{keccak_256, keccak_256_of};

verus! {

/// Whether `signature` is a signature by the account `signer` (20 bytes) over `message`:
/// the key recovered from it over the Keccak-256 digest of the message has that account.
pub open spec fn verifies(signature: Seq<u8>, message: Seq<u8>, signer: Seq<u8>) -> bool {
    match secp256k1_recover_of(signature, keccak_256_of(message)) {
        Some(coordinates) => address_of(coordinates) == signer,
        None => false,
    }
}

/// A signature of one of the schemes that a multi-scheme chain accepts.
pub enum MultiSignature {
    Ed25519([u8; 64]),
    Sr25519([u8; 64]),
    Ecdsa([u8; 65]),
    /// ECDSA over Keccak-256 digests, with Ethereum's derivation of accounts.
    Eth([u8; 65]),
}

/// A recoverable secp256k1 ECDSA signature `r ‖ s ‖ v` (65 bytes). It carries no public
/// key: the signer's key is recovered from the signature and the message.
#[derive(Clone, Copy, Debug, Hash)]
pub struct Signature([u8; 65]);

impl View for Signature {
    type V = Seq<u8>;

    closed spec fn view(&self) -> Seq<u8> {
        self.0@
    }
}

impl Signature {
    /// The signature with the given 65 bytes.
    pub fn from_raw(bytes: [u8; 65]) -> (r: Signature)
        ensures
            r@ == bytes@,
    {
        Signature(bytes)
    }

    /// The 65 bytes of the signature.
    pub fn to_raw(&self) -> (r: [u8; 65])
        ensures
            r@ == self@,
    {
        self.0
    }

    /// The signature inside a multi-scheme signature, which must be an ECDSA one: a
    /// signature of another scheme here is the caller's error, not a bad signature.
    pub fn from_multi_signature(signature: MultiSignature) -> (r: Signature)
        requires
            signature is Ecdsa || signature is Eth,
        ensures
            signature is Ecdsa ==> r@ == signature->Ecdsa_0@,
            signature is Eth ==> r@ == signature->Eth_0@,
    {
        match signature {
            MultiSignature::Ecdsa(bytes) => Signature(bytes),
            MultiSignature::Eth(bytes) => Signature(bytes),
            MultiSignature::Ed25519(_) => Signature([0u8; 65]),
            MultiSignature::Sr25519(_) => Signature([0u8; 65]),
        }
    }

    /// Whether this is a signature by `signer` over `message`. A signature from which no
    /// key can be recovered (bad `r` or `s`, a recovery id out of range) is no signature
    /// of anyone: the answer is `false`.
    pub fn verify(&self, message: &[u8], signer: &AccountId20) -> (r: bool)
        ensures
            r == verifies(self@, message@, signer.0@),
            recovery_id(self@[64]) >= 4 ==> !r,
    {
        let digest = keccak_256(message);
        match secp256k1_ecdsa_recover(&self.0, &digest) {
            Some(coordinates) => AccountId20::from_key_coordinates(&coordinates) == *signer,
            None => false,
        }
    }
}

/// A signature that a key pair makes over a message verifies for the account of the
/// pair's public key, whenever the key recovered from it over the message's digest is
/// that public key. That recovery gives back the signing key is a property of ECDSA that
/// the law takes as its premise; it is not proved here.
pub proof fn lemma_signature_verifies_for_signer(pair: KeyPair, message: Seq<u8>)
    requires
        pair.wf(),
        secp256k1_recover_of(
            ecdsa_sign_prehashed_of(pair.seed(), keccak_256_of(message)),
            keccak_256_of(message),
        ) == Some(secp256k1_decompress_of(pair.public_key())->0.subrange(1, 65)),
    ensures
        verifies(
            ecdsa_sign_prehashed_of(pair.seed(), keccak_256_of(message)),
            message,
            address_of_compressed(pair.public_key()),
        ),
{
}

} // verus!
