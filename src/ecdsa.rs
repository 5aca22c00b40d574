//! secp256k1 ECDSA key material: key decompression, public-key recovery and signing,
//! taken from outside crates, and the key pair that signs transactions.
use vstd::prelude::*;
use crate::hashing::{keccak_256, keccak_256_of};
use crate::signature::Signature;

verus! {

/// The 65-byte uncompressed form (`0x04 ‖ X ‖ Y`) of a 33-byte compressed secp256k1
/// public key, or `None` when the bytes are not a compressed point of the curve.
pub uninterp spec fn secp256k1_decompress_of(key: Seq<u8>) -> Option<Seq<u8>>;

/// The 64-byte public key `X ‖ Y` recovered from a 65-byte `r ‖ s ‖ v` signature over a
/// 32-byte digest, or `None` when recovery fails.
pub uninterp spec fn secp256k1_recover_of(signature: Seq<u8>, digest: Seq<u8>) -> Option<Seq<u8>>;

/// The 33-byte compressed public key of the secp256k1 secret `seed`, or `None` when the
/// seed is not a valid secret scalar.
pub uninterp spec fn ecdsa_public_of(seed: Seq<u8>) -> Option<Seq<u8>>;

/// The 65-byte recoverable signature `r ‖ s ‖ v` that the secret `seed` makes over the
/// 32-byte `digest`, signed as it stands (not hashed again).
pub uninterp spec fn ecdsa_sign_prehashed_of(seed: Seq<u8>, digest: Seq<u8>) -> Seq<u8>;

/// The recovery id that a signature's last byte denotes: `0..=3`, or `27..=30` for the
/// same ids in Ethereum's convention.
pub open spec fn recovery_id(v: u8) -> int {
    if v > 26 {
        v - 27
    } else {
        v as int
    }
}

/// Relies on `libsecp256k1::PublicKey::parse_slice` (compressed format) followed by
/// `PublicKey::serialize`: the uncompressed form of a valid compressed key.
#[verifier::external_body]
pub(crate) fn secp256k1_decompress(key: &[u8; 33]) -> (r: Option<[u8; 65]>)
    ensures
        match r {
            Some(full) => secp256k1_decompress_of(key@) == Some(full@),
            None => secp256k1_decompress_of(key@) is None,
        },
{
    let format = Some(libsecp256k1::PublicKeyFormat::Compressed);
    match libsecp256k1::PublicKey::parse_slice(key, format) {
        Ok(public) => Some(public.serialize()),
        Err(_) => None,
    }
}

/// Relies on `sp_io::crypto::secp256k1_ecdsa_recover`: the signer's key recovered from the
/// signature and digest; it fails with a bad `v` whenever the recovery id is not `0..=3`.
#[verifier::external_body]
pub(crate) fn secp256k1_ecdsa_recover(signature: &[u8; 65], digest: &[u8; 32]) -> (r: Option<
    [u8; 64],
>)
    ensures
        match r {
            Some(key) => secp256k1_recover_of(signature@, digest@) == Some(key@),
            None => secp256k1_recover_of(signature@, digest@) is None,
        },
        recovery_id(signature[64]) >= 4 ==> r is None,
{
    sp_io::crypto::secp256k1_ecdsa_recover(signature, digest).ok()
}

/// Relies on `sp_core::Pair::from_seed_slice` for `sp_core::ecdsa::Pair` and its `public`:
/// the compressed public key of a valid secret.
#[verifier::external_body]
fn ecdsa_public(seed: &[u8; 32]) -> (r: Option<[u8; 33]>)
    ensures
        match r {
            Some(public) => ecdsa_public_of(seed@) == Some(public@),
            None => ecdsa_public_of(seed@) is None,
        },
{
    match <sp_core::ecdsa::Pair as sp_core::Pair>::from_seed_slice(seed) {
        Ok(pair) => Some(sp_core::Pair::public(&pair).0),
        Err(_) => None,
    }
}

/// Relies on `sp_core::ecdsa::Pair::sign_prehashed` for the pair made by
/// `sp_core::Pair::from_seed`, which panics on an invalid secret.
#[verifier::external_body]
fn ecdsa_sign_prehashed(seed: &[u8; 32], digest: &[u8; 32]) -> (r: [u8; 65])
    requires
        ecdsa_public_of(seed@) is Some,
    ensures
        r@ == ecdsa_sign_prehashed_of(seed@, digest@),
{
    <sp_core::ecdsa::Pair as sp_core::Pair>::from_seed(seed).sign_prehashed(digest).0
}

/// A secp256k1 key pair: a secret seed and its compressed public key.
pub struct KeyPair {
    seed: [u8; 32],
    public: [u8; 33],
}

impl KeyPair {
    /// The secret seed.
    pub closed spec fn seed(&self) -> Seq<u8> {
        self.seed@
    }

    /// The compressed public key.
    pub closed spec fn public_key(&self) -> Seq<u8> {
        self.public@
    }

    /// The public key belongs to the seed, and decompresses to a point of the curve.
    pub open spec fn wf(&self) -> bool {
        &&& ecdsa_public_of(self.seed()) == Some(self.public_key())
        &&& secp256k1_decompress_of(self.public_key()) is Some
    }

    /// The key pair of a secret seed; `None` when the seed is not a valid secret, or its
    /// public key does not decompress.
    pub fn from_seed(seed: [u8; 32]) -> (r: Option<KeyPair>)
        ensures
            match r {
                Some(pair) => pair.wf() && pair.seed() == seed@,
                None => ecdsa_public_of(seed@) is None || secp256k1_decompress_of(
                    ecdsa_public_of(seed@)->0,
                ) is None,
            },
    {
        match ecdsa_public(&seed) {
            Some(public) => match secp256k1_decompress(&public) {
                Some(_) => Some(KeyPair { seed, public }),
                None => None,
            },
            None => None,
        }
    }

    /// The compressed public key.
    pub fn public(&self) -> (r: [u8; 33])
        ensures
            r@ == self.public_key(),
    {
        self.public
    }

    /// Signs a 32-byte digest as it stands, returning `r ‖ s ‖ v`.
    pub fn sign_prehashed(&self, digest: &[u8; 32]) -> (r: [u8; 65])
        requires
            self.wf(),
        ensures
            r@ == ecdsa_sign_prehashed_of(self.seed(), digest@),
    {
        ecdsa_sign_prehashed(&self.seed, digest)
    }

    /// Signs a message the Ethereum way: the signature is over its Keccak-256 digest.
    pub fn sign(&self, message: &[u8]) -> (r: Signature)
        requires
            self.wf(),
        ensures
            r@ == ecdsa_sign_prehashed_of(self.seed(), keccak_256_of(message@)),
    {
        let digest = keccak_256(message);
        Signature::from_raw(self.sign_prehashed(&digest))
    }
}

} // verus!
