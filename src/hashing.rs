//! Hash functions, taken from outside crates.
use vstd::prelude::*;

verus! {

/// Keccak-256 digest of `data`.
pub uninterp spec fn keccak_256_of(data: Seq<u8>) -> Seq<u8>;

/// BLAKE2b-256 digest of `data`.
pub uninterp spec fn blake2_256_of(data: Seq<u8>) -> Seq<u8>;

/// BLAKE2b-128 digest of `data`.
pub uninterp spec fn blake2_128_of(data: Seq<u8>) -> Seq<u8>;

/// 128-bit xxHash (two 64-bit xxHash64 with seeds 0 and 1) of `data`.
pub uninterp spec fn twox_128_of(data: Seq<u8>) -> Seq<u8>;

/// Relies on `sha3::Keccak256::digest`: the 32-byte Keccak-256 digest of the input.
#[verifier::external_body]
pub(crate) fn keccak_256(data: &[u8]) -> (r: [u8; 32])
    ensures
        r@ == keccak_256_of(data@),
{
    <sha3::Keccak256 as sha3::Digest>::digest(data).into()
}

/// Relies on `sp_io::hashing::blake2_256`: the 32-byte BLAKE2b digest of the input.
#[verifier::external_body]
pub(crate) fn blake2_256(data: &[u8]) -> (r: [u8; 32])
    ensures
        r@ == blake2_256_of(data@),
{
    sp_io::hashing::blake2_256(data)
}

/// Relies on `sp_io::hashing::blake2_128`: the 16-byte BLAKE2b digest of the input.
#[verifier::external_body]
pub(crate) fn blake2_128(data: &[u8]) -> (r: [u8; 16])
    ensures
        r@ == blake2_128_of(data@),
{
    sp_io::hashing::blake2_128(data)
}

/// Relies on `sp_io::hashing::twox_128`: the 16-byte xxHash of the input.
#[verifier::external_body]
pub(crate) fn twox_128(data: &[u8]) -> (r: [u8; 16])
    ensures
        r@ == twox_128_of(data@),
{
    sp_io::hashing::twox_128(data)
}

} // verus!
