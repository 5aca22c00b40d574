//! The pieces of the SCALE binary encoding that transactions use.
use vstd::prelude::*;

verus! {

/// The `n` lowest bytes of `v`, least significant first.
pub open spec fn le_bytes(v: nat, n: nat) -> Seq<u8>
    decreases n,
{
    if n == 0 {
        Seq::empty()
    } else {
        seq![(v % 256) as u8] + le_bytes(v / 256, (n - 1) as nat)
    }
}

/// The number of bytes that `v` needs (0 for 0).
pub open spec fn byte_len(v: nat) -> nat
    decreases v,
{
    if v == 0 {
        0
    } else {
        1 + byte_len(v / 256)
    }
}

/// SCALE's compact encoding of an unsigned integer: one, two or four little-endian
/// bytes holding `4 * v` plus a mode of 0, 1 or 2 in the low two bits, or, from 2^30
/// on, a byte `4 * (n - 4) + 3` followed by the `n` bytes that `v` needs.
pub open spec fn compact_of(v: nat) -> Seq<u8> {
    if v < 0x40 {
        seq![(v * 4) as u8]
    } else if v < 0x4000 {
        le_bytes(v * 4 + 1, 2)
    } else if v < 0x4000_0000 {
        le_bytes(v * 4 + 2, 4)
    } else {
        seq![((byte_len(v) - 4) * 4 + 3) as u8] + le_bytes(v, byte_len(v))
    }
}

/// Relies on `parity_scale_codec::Encode` for `Compact<u32>`: SCALE's compact encoding.
#[verifier::external_body]
pub(crate) fn compact_u32(v: u32) -> (r: Vec<u8>)
    ensures
        r@ == compact_of(v as nat),
{
    parity_scale_codec::Encode::encode(&parity_scale_codec::Compact(v))
}

/// Relies on `parity_scale_codec::Encode` for `Compact<u128>`: SCALE's compact encoding.
#[verifier::external_body]
pub(crate) fn compact_u128(v: u128) -> (r: Vec<u8>)
    ensures
        r@ == compact_of(v as nat),
{
    parity_scale_codec::Encode::encode(&parity_scale_codec::Compact(v))
}

/// Appends the four little-endian bytes of `v` (SCALE's encoding of a `u32`).
pub fn push_u32_le(out: &mut Vec<u8>, v: u32)
    ensures
        final(out)@ == old(out)@ + le_bytes(v as nat, 4),
{
    proof {
        reveal_with_fuel(le_bytes, 5);
    }
    out.push((v % 256) as u8);
    out.push(((v / 256) % 256) as u8);
    out.push(((v / 65536) % 256) as u8);
    out.push(((v / 16777216) % 256) as u8);
    assert(v as nat / 256 / 256 == v as nat / 65536) by (nonlinear_arith);
    assert(v as nat / 256 / 256 / 256 == v as nat / 16777216) by (nonlinear_arith);
    assert(final(out)@ =~= old(out)@ + le_bytes(v as nat, 4));
}

} // verus!
