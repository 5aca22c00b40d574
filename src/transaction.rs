//! Signing transactions for chains with 20-byte accounts: the transaction extension and
//! its encoding, the payload that is signed, and the signed extrinsic.
use vstd::prelude::*;
use crate::account::{address_of_compressed, AccountId20};
use crate::ecdsa::{
    ecdsa_sign_prehashed_of, secp256k1_decompress_of, secp256k1_recover_of, KeyPair,
};
use crate::hashing::{blake2_256, blake2_256_of, keccak_256, keccak_256_of};
use crate::scale::{compact_of, compact_u128, compact_u32, le_bytes, push_u32_le};
use crate::signature::{verifies, Signature};

verus! {

/// The least power of two that is at least `n` (1 for 0).
pub open spec fn next_power_of_two(n: nat) -> nat
    decreases n,
{
    if n <= 1 {
        1
    } else {
        2 * next_power_of_two(((n + 1) / 2) as nat)
    }
}

/// The base-two logarithm of a power of two.
pub open spec fn log2(n: nat) -> nat
    decreases n,
{
    if n <= 1 {
        0
    } else {
        1 + log2(n / 2)
    }
}

/// The period of a mortal era asked to last `period` blocks: the next power of two,
/// between 4 and 65536.
pub open spec fn era_period(period: nat) -> nat {
    if period <= 4 {
        4
    } else if period >= 65536 {
        65536
    } else {
        next_power_of_two(period)
    }
}

/// The encoding of the mortal era of `period` blocks around block `current`: a
/// little-endian `u16` with `log2(period) - 1` in the low four bits and the phase of
/// `current` above them, counted in units of `period / 4096` (at least 1).
pub open spec fn mortal_era_bytes(period: nat, current: nat) -> Seq<u8> {
    let period = era_period(period);
    let quantize_factor = if period >= 4096 {
        period / 4096
    } else {
        1
    };
    le_bytes(((log2(period) - 1) + 16 * ((current % period) / quantize_factor)) as nat, 2)
}

/// Relies on `sp_runtime::generic::Era::mortal` and `Era`'s `Encode`.
#[verifier::external_body]
fn encode_mortal_era(period: u64, current: u64) -> (r: Vec<u8>)
    ensures
        r@ == mortal_era_bytes(period as nat, current as nat),
{
    parity_scale_codec::Encode::encode(&sp_runtime::generic::Era::mortal(period, current))
}

/// How long a transaction stays valid.
#[derive(Clone, Copy, Debug, PartialEq, Eq)]
pub enum TransactionEra {
    /// Valid forever.
    Immortal,
    /// Valid for `period` blocks from the block `block_number` with hash `block_hash`.
    Mortal { block_number: u32, block_hash: [u8; 32], period: u32 },
}

/// The encoding of an era: one zero byte for an immortal one.
pub open spec fn era_bytes(era: TransactionEra) -> Seq<u8> {
    match era {
        TransactionEra::Immortal => seq![0u8],
        TransactionEra::Mortal { block_number, period, .. } => mortal_era_bytes(
            period as nat,
            block_number as nat,
        ),
    }
}

/// The block hash that an era binds the signature to: the genesis hash for an immortal
/// era, the hash of its first block for a mortal one.
pub open spec fn era_block_hash(era: TransactionEra, genesis_hash: Seq<u8>) -> Seq<u8> {
    match era {
        TransactionEra::Immortal => genesis_hash,
        TransactionEra::Mortal { block_hash, .. } => block_hash@,
    }
}

/// The encoding of an optional 32-byte hash: `0`, or `1` followed by the hash.
pub open spec fn optional_hash_bytes(hash: Option<[u8; 32]>) -> Seq<u8> {
    match hash {
        None => seq![0u8],
        Some(h) => seq![1u8] + h@,
    }
}

/// The transaction extension of the chain: its fields, in the order that the runtime
/// fixes. Non-zero sender, spec version, transaction version, genesis, era, nonce,
/// weight, payment (tip), obsolete-bridge-transaction rejection, relayer refund and
/// metadata hash check; those with nothing to carry add no bytes.
#[derive(Clone, Copy, Debug)]
pub struct TransactionExtension {
    pub spec_version: u32,
    pub transaction_version: u32,
    pub era: TransactionEra,
    pub genesis_hash: [u8; 32],
    pub nonce: u32,
    pub tip: u128,
    /// The metadata hash, when the check is enabled.
    pub metadata_hash: Option<[u8; 32]>,
}

impl TransactionExtension {
    /// The bytes that the extrinsic carries: era, compact nonce, compact tip and the
    /// mode of the metadata hash check.
    pub open spec fn explicit_bytes(self) -> Seq<u8> {
        era_bytes(self.era) + compact_of(self.nonce as nat) + compact_of(self.tip as nat)
            + seq![if self.metadata_hash is Some { 1u8 } else { 0u8 }]
    }

    /// The bytes that are signed but not carried: spec and transaction versions, the
    /// genesis hash, the era's block hash and the optional metadata hash.
    pub open spec fn implicit_bytes(self) -> Seq<u8> {
        le_bytes(self.spec_version as nat, 4) + le_bytes(self.transaction_version as nat, 4)
            + self.genesis_hash@ + era_block_hash(self.era, self.genesis_hash@)
            + optional_hash_bytes(self.metadata_hash)
    }

    /// Encodes the bytes that the extrinsic carries.
    pub fn encode_explicit(&self) -> (r: Vec<u8>)
        ensures
            r@ == self.explicit_bytes(),
    {
        let mut out: Vec<u8> = Vec::new();
        match self.era {
            TransactionEra::Immortal => out.push(0u8),
            TransactionEra::Mortal { block_number, period, .. } => {
                let era = encode_mortal_era(period as u64, block_number as u64);
                out.extend_from_slice(era.as_slice());
            },
        }
        let nonce = compact_u32(self.nonce);
        out.extend_from_slice(nonce.as_slice());
        let tip = compact_u128(self.tip);
        out.extend_from_slice(tip.as_slice());
        match self.metadata_hash {
            Some(_) => out.push(1u8),
            None => out.push(0u8),
        }
        assert(out@ =~= self.explicit_bytes());
        out
    }

    /// Encodes the bytes that are signed but not carried.
    pub fn encode_implicit(&self) -> (r: Vec<u8>)
        ensures
            r@ == self.implicit_bytes(),
    {
        let mut out: Vec<u8> = Vec::new();
        push_u32_le(&mut out, self.spec_version);
        push_u32_le(&mut out, self.transaction_version);
        out.extend_from_slice(self.genesis_hash.as_slice());
        match self.era {
            TransactionEra::Immortal => out.extend_from_slice(self.genesis_hash.as_slice()),
            TransactionEra::Mortal { block_hash, .. } => out.extend_from_slice(
                block_hash.as_slice(),
            ),
        }
        match self.metadata_hash {
            Some(hash) => {
                out.push(1u8);
                out.extend_from_slice(hash.as_slice());
            },
            None => out.push(0u8),
        }
        assert(out@ =~= self.implicit_bytes());
        out
    }
}

/// The payload of a transaction: the encoded call, then the extension's carried and
/// implicit bytes.
pub open spec fn signed_payload(call: Seq<u8>, extension: TransactionExtension) -> Seq<u8> {
    call + extension.explicit_bytes() + extension.implicit_bytes()
}

/// What stands for a payload when it is hashed for signing: the payload itself, or its
/// BLAKE2b-256 digest when it is longer than 256 bytes.
pub open spec fn signing_message(payload: Seq<u8>) -> Seq<u8> {
    if payload.len() > 256 {
        blake2_256_of(payload)
    } else {
        payload
    }
}

/// The digest that the key signs: Keccak-256 of the signing message of the payload.
pub open spec fn signing_digest(call: Seq<u8>, extension: TransactionExtension) -> Seq<u8> {
    keccak_256_of(signing_message(signed_payload(call, extension)))
}

/// Encodes the payload of a transaction.
pub fn encode_signed_payload(call: &[u8], extension: &TransactionExtension) -> (r: Vec<u8>)
    ensures
        r@ == signed_payload(call@, *extension),
{
    let mut out: Vec<u8> = Vec::new();
    out.extend_from_slice(call);
    let explicit = extension.encode_explicit();
    out.extend_from_slice(explicit.as_slice());
    let implicit = extension.encode_implicit();
    out.extend_from_slice(implicit.as_slice());
    assert(out@ =~= signed_payload(call@, *extension));
    out
}

/// The digest to sign for an encoded payload.
pub fn signing_digest_of_payload(payload: &[u8]) -> (r: [u8; 32])
    ensures
        r@ == keccak_256_of(signing_message(payload@)),
{
    if payload.len() > 256 {
        let hashed = blake2_256(payload);
        keccak_256(&hashed)
    } else {
        keccak_256(payload)
    }
}

/// Why a transaction could not be signed.
#[derive(Clone, Copy, Debug, PartialEq, Eq, Structural)]
pub enum SigningError {
    /// The signed extrinsic would be longer than its `u32` length prefix can state.
    ExtrinsicTooLarge,
}

/// The byte that opens a signed extrinsic: format version 4 with the signed bit set.
pub const SIGNED_EXTRINSIC_VERSION: u8 = 0x84;

/// The length of the signed extrinsic of a call of `call_len` bytes: version byte,
/// account (20), signature (65), carried extension bytes, call.
pub open spec fn extrinsic_body_len(call_len: nat, extension: TransactionExtension) -> nat {
    86 + extension.explicit_bytes().len() + call_len
}

/// The bytes of a signed extrinsic, before its length prefix.
pub open spec fn extrinsic_body(
    call: Seq<u8>,
    signer: Seq<u8>,
    signature: Seq<u8>,
    extension: TransactionExtension,
) -> Seq<u8> {
    seq![SIGNED_EXTRINSIC_VERSION] + signer + signature + extension.explicit_bytes() + call
}

/// A signed transaction: the encoded call, the sender, its signature and the extension.
pub struct SignedTransaction {
    pub call: Vec<u8>,
    pub signer: AccountId20,
    pub signature: Signature,
    pub extension: TransactionExtension,
}

impl SignedTransaction {
    /// The bytes of the extrinsic, before its length prefix.
    pub open spec fn body(&self) -> Seq<u8> {
        extrinsic_body(self.call@, self.signer.0@, self.signature@, self.extension)
    }

    /// Encodes the extrinsic: the compact length of its body, then the body.
    pub fn encode(&self) -> (r: Vec<u8>)
        requires
            self.body().len() <= u32::MAX,
        ensures
            r@ == compact_of(self.body().len()) + self.body(),
    {
        let mut body: Vec<u8> = Vec::new();
        body.push(SIGNED_EXTRINSIC_VERSION);
        body.extend_from_slice(self.signer.0.as_slice());
        let signature = self.signature.to_raw();
        body.extend_from_slice(signature.as_slice());
        let explicit = self.extension.encode_explicit();
        body.extend_from_slice(explicit.as_slice());
        body.extend_from_slice(self.call.as_slice());
        assert(body@ =~= self.body());
        let mut out = compact_u32(body.len() as u32);
        out.extend_from_slice(body.as_slice());
        out
    }
}

/// Whether `r` is the outcome of signing `call` with `extension` by `signer`: the
/// transaction carries the call and extension, its sender is the account of the
/// signer's public key, and its signature is the key's over the Keccak-256 digest of the
/// payload's signing message; or, when the extrinsic could not be length-prefixed,
/// the error saying so.
pub open spec fn signing_outcome(
    r: Result<SignedTransaction, SigningError>,
    signer: KeyPair,
    call: Seq<u8>,
    extension: TransactionExtension,
) -> bool {
    match r {
        Ok(tx) => {
            &&& tx.call@ == call
            &&& tx.extension == extension
            &&& tx.signer.0@ == address_of_compressed(signer.public_key())
            &&& tx.signature@ == ecdsa_sign_prehashed_of(
                signer.seed(),
                signing_digest(call, extension),
            )
            &&& tx.body().len() <= u32::MAX
            &&& extrinsic_body_len(call.len(), extension) <= u32::MAX
        },
        Err(e) => e == SigningError::ExtrinsicTooLarge && extrinsic_body_len(call.len(), extension)
            > u32::MAX,
    }
}

/// Signs a call with its extension. Fails only when the extrinsic could not be
/// length-prefixed.
pub fn sign_transaction(signer: &KeyPair, call: Vec<u8>, extension: TransactionExtension) -> (r:
    Result<SignedTransaction, SigningError>)
    requires
        signer.wf(),
    ensures
        signing_outcome(r, *signer, call@, extension),
{
    let explicit = extension.encode_explicit();
    let body_len: u128 = 86 + explicit.len() as u128 + call.len() as u128;
    if body_len > u32::MAX as u128 {
        return Err(SigningError::ExtrinsicTooLarge);
    }
    let payload = encode_signed_payload(call.as_slice(), &extension);
    let digest = signing_digest_of_payload(payload.as_slice());
    let signature = Signature::from_raw(signer.sign_prehashed(&digest));
    let account = AccountId20::derive_from_public_key(&signer.public());
    Ok(SignedTransaction { call, signer: account, signature, extension })
}

/// Signing and verification agree on the digest and on the account of a key: the
/// signature of a signed transaction verifies for its sender over the signing message of
/// its payload whenever the key recovered from the signature over the signed digest is
/// the signer's public key. That recovery gives back the signing key is a property of
/// ECDSA that the law takes as its premise; it is not proved here.
pub proof fn lemma_signed_transaction_verifies(
    signer: KeyPair,
    call: Seq<u8>,
    extension: TransactionExtension,
    tx: SignedTransaction,
)
    requires
        signer.wf(),
        signing_outcome(Ok(tx), signer, call, extension),
        secp256k1_recover_of(tx.signature@, signing_digest(call, extension)) == Some(
            secp256k1_decompress_of(signer.public_key())->0.subrange(1, 65),
        ),
    ensures
        verifies(tx.signature@, signing_message(signed_payload(call, extension)), tx.signer.0@),
{
}

} // verus!
