//! Storage keys of account data.
use vstd::prelude::*;
use crate::account::AccountId20;
use crate::hashing::{blake2_128, blake2_128_of, twox_128, twox_128_of};

verus! {

/// The key of a value in a storage map: xxHash-128 of the pallet name, xxHash-128 of the
/// map name, then the map key hashed as `Blake2_128Concat` (its BLAKE2b-128 digest
/// followed by the key itself).
pub open spec fn map_final_key(pallet: Seq<u8>, map: Seq<u8>, key: Seq<u8>) -> Seq<u8> {
    twox_128_of(pallet) + twox_128_of(map) + blake2_128_of(key) + key
}

/// The storage key of the value under the encoded `key` in the map `map` of the pallet
/// `pallet`, for a map that hashes its keys with `Blake2_128Concat`.
pub fn storage_map_final_key(pallet: &[u8], map: &[u8], key: &[u8]) -> (r: Vec<u8>)
    ensures
        r@ == map_final_key(pallet@, map@, key@),
{
    let mut out: Vec<u8> = Vec::new();
    out.extend_from_slice(twox_128(pallet).as_slice());
    out.extend_from_slice(twox_128(map).as_slice());
    out.extend_from_slice(blake2_128(key).as_slice());
    out.extend_from_slice(key);
    assert(out@ =~= map_final_key(pallet@, map@, key@));
    out
}

/// Locates the account data of an account in the `Account` map of the `System` pallet,
/// without the runtime at hand.
pub struct AccountInfoStorageMapKeyProvider;

impl AccountInfoStorageMapKeyProvider {
    /// The name of the system pallet, `System`.
    pub open spec fn pallet_name() -> Seq<u8> {
        seq![0x53u8, 0x79, 0x73, 0x74, 0x65, 0x6d]
    }

    /// The name of the map of account data, `Account`.
    pub open spec fn map_name() -> Seq<u8> {
        seq![0x41u8, 0x63, 0x63, 0x6f, 0x75, 0x6e, 0x74]
    }

    /// The storage key of the account data of `id`, keyed by its encoding.
    pub fn final_key(id: &AccountId20) -> (r: Vec<u8>)
        ensures
            r@ == map_final_key(Self::pallet_name(), Self::map_name(), id.0@),
    {
        let pallet: [u8; 6] = [0x53, 0x79, 0x73, 0x74, 0x65, 0x6d];
        let map: [u8; 7] = [0x41, 0x63, 0x63, 0x6f, 0x75, 0x6e, 0x74];
        assert(pallet@ =~= Self::pallet_name());
        assert(map@ =~= Self::map_name());
        let key = id.encode();
        storage_map_final_key(&pallet, &map, key.as_slice())
    }
}

} // verus!
