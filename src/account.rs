//! The 20-byte account identifier and the signer that stands for it.
use vstd::prelude::*;
use crate::ecdsa::{secp256k1_decompress, secp256k1_decompress_of};
use crate::hashing::{keccak_256, keccak_256_of};

verus! {

/// The account of a public key given by its 64 coordinate bytes `X ‖ Y`: the last 20
/// bytes of their Keccak-256 digest.
pub open spec fn address_of(coordinates: Seq<u8>) -> Seq<u8> {
    keccak_256_of(coordinates).subrange(12, 32)
}

/// The account of a compressed public key that is a point of the curve: the address of
/// the coordinates of its uncompressed form.
pub open spec fn address_of_compressed(key: Seq<u8>) -> Seq<u8>
    recommends
        secp256k1_decompress_of(key) is Some,
{
    address_of(secp256k1_decompress_of(key)->0.subrange(1, 65))
}

/// An Ethereum-compatible account identifier: 20 bytes, ordered lexicographically.
#[derive(Eq, Clone, Copy, Debug, PartialOrd, Ord, Hash)]
pub struct AccountId20(pub [u8; 20]);

/// Whether two 20-byte values are equal, byte by byte.
pub(crate) fn bytes_20_equal(a: &[u8; 20], b: &[u8; 20]) -> (r: bool)
    ensures
        r == (a@ == b@),
{
    let mut i: usize = 0;
    while i < 20
        invariant
            i <= 20,
            forall|j: int| 0 <= j < i ==> a@[j] == b@[j],
        decreases 20 - i,
    {
        if a[i] != b[i] {
            return false;
        }
        i = i + 1;
    }
    assert(a@ =~= b@);
    true
}

impl PartialEq for AccountId20 {
    fn eq(&self, other: &AccountId20) -> (r: bool) {
        bytes_20_equal(&self.0, &other.0)
    }
}

impl vstd::std_specs::cmp::PartialEqSpecImpl for AccountId20 {
    open spec fn obeys_eq_spec() -> bool {
        true
    }

    open spec fn eq_spec(&self, other: &AccountId20) -> bool {
        self.0@ == other.0@
    }
}

/// Copies `src[start..start + 20]`.
fn copy_20(src: &[u8], start: usize) -> (r: [u8; 20])
    requires
        start + 20 <= src@.len(),
    ensures
        r@ == src@.subrange(start as int, start + 20),
{
    let n = src.len();
    let mut out = [0u8; 20];
    let mut i: usize = 0;
    while i < 20
        invariant
            i <= 20,
            n == src@.len(),
            start + 20 <= n,
            forall|j: int| 0 <= j < i ==> out@[j] == src@[start + j],
        decreases 20 - i,
    {
        out[i] = src[start + i];
        i = i + 1;
    }
    assert(out@ =~= src@.subrange(start as int, start + 20));
    out
}

/// Copies `src[start..start + 64]`.
fn copy_64(src: &[u8], start: usize) -> (r: [u8; 64])
    requires
        start + 64 <= src@.len(),
    ensures
        r@ == src@.subrange(start as int, start + 64),
{
    let n = src.len();
    let mut out = [0u8; 64];
    let mut i: usize = 0;
    while i < 64
        invariant
            i <= 64,
            n == src@.len(),
            start + 64 <= n,
            forall|j: int| 0 <= j < i ==> out@[j] == src@[start + j],
        decreases 64 - i,
    {
        out[i] = src[start + i];
        i = i + 1;
    }
    assert(out@ =~= src@.subrange(start as int, start + 64));
    out
}

/// Converting an account to its raw bytes and back loses nothing, in both directions:
/// an account is its 20 bytes.
pub proof fn lemma_raw_bytes_round_trip(account: AccountId20, bytes: [u8; 20])
    ensures
        AccountId20(account.0) == account,
        AccountId20(bytes).0 == bytes,
{
}

/// An account's encoding is its 20 bytes, and decoding them gives the account back: an
/// account is determined by its encoding.
pub proof fn lemma_encode_decode_round_trip(account: AccountId20, encoded: Seq<u8>)
    requires
        encoded == account.0@,
    ensures
        encoded.len() == 20,
        forall|other: AccountId20| other.0@ == encoded ==> other == account,
{
    assert forall|other: AccountId20| other.0@ == encoded implies other == account by {
        assert(other.0 =~= account.0);
    }
}

impl AccountId20 {
    /// The account with the given 20 bytes.
    pub fn from_raw_bytes(bytes: [u8; 20]) -> (r: AccountId20)
        ensures
            r.0 == bytes,
    {
        AccountId20(bytes)
    }

    /// The 20 bytes of the account.
    pub fn to_raw_bytes(&self) -> (r: [u8; 20])
        ensures
            r == self.0,
    {
        self.0
    }

    /// The SCALE encoding of the account: its 20 bytes, as they are.
    pub fn encode(&self) -> (r: Vec<u8>)
        ensures
            r@ == self.0@,
    {
        let mut out: Vec<u8> = Vec::new();
        out.extend_from_slice(self.0.as_slice());
        out
    }

    /// The account that `bytes` encode, when they are exactly 20 bytes.
    pub fn decode(bytes: &[u8]) -> (r: Option<AccountId20>)
        ensures
            match r {
                Some(account) => bytes@.len() == 20 && account.0@ == bytes@,
                None => bytes@.len() != 20,
            },
    {
        if bytes.len() != 20 {
            return None;
        }
        let account = AccountId20(copy_20(bytes, 0));
        assert(account.0@ =~= bytes@);
        Some(account)
    }

    /// The account that a 32-byte account of another address space is mapped to: its
    /// first 20 bytes. The mapping loses the last 12 bytes and has no inverse; it is no
    /// statement that the two accounts belong to one key.
    pub fn from_generic_account(bytes: [u8; 32]) -> (r: AccountId20)
        ensures
            r.0@ == bytes@.subrange(0, 20),
    {
        AccountId20(copy_20(&bytes, 0))
    }

    /// The account of a public key given by its 64 coordinate bytes `X ‖ Y`.
    pub fn from_key_coordinates(coordinates: &[u8; 64]) -> (r: AccountId20)
        ensures
            r.0@ == address_of(coordinates@),
    {
        let digest = keccak_256(coordinates);
        AccountId20(copy_20(&digest, 12))
    }

    /// The account of a full (65-byte, `0x04 ‖ X ‖ Y`) secp256k1 public key.
    pub fn from_full_public_key(key: &[u8; 65]) -> (r: AccountId20)
        ensures
            r.0@ == address_of(key@.subrange(1, 65)),
    {
        let coordinates = copy_64(key, 1);
        AccountId20::from_key_coordinates(&coordinates)
    }

    /// The account of a compressed secp256k1 public key, which must be a point of the
    /// curve (see `try_derive_from_public_key` for keys that are not known to be).
    pub fn derive_from_public_key(key: &[u8; 33]) -> (r: AccountId20)
        requires
            secp256k1_decompress_of(key@) is Some,
        ensures
            r.0@ == address_of_compressed(key@),
    {
        match secp256k1_decompress(key) {
            Some(full) => AccountId20::from_full_public_key(&full),
            None => AccountId20([0u8; 20]),
        }
    }

    /// The account of a compressed secp256k1 public key, or `None` when the bytes are not
    /// a point of the curve.
    pub fn try_derive_from_public_key(key: &[u8; 33]) -> (r: Option<AccountId20>)
        ensures
            match r {
                Some(account) => secp256k1_decompress_of(key@) is Some
                    && account.0@ == address_of_compressed(key@),
                None => secp256k1_decompress_of(key@) is None,
            },
    {
        match secp256k1_decompress(key) {
            Some(_) => Some(AccountId20::derive_from_public_key(key)),
            None => None,
        }
    }
}

impl Default for AccountId20 {
    fn default() -> (r: AccountId20)
        ensures
            r.0@ == Seq::new(20, |i: int| 0u8),
    {
        let r = AccountId20([0u8; 20]);
        assert(r.0@ =~= Seq::new(20, |i: int| 0u8));
        r
    }
}

impl From<[u8; 20]> for AccountId20 {
    fn from(bytes: [u8; 20]) -> (r: AccountId20) {
        AccountId20(bytes)
    }
}

impl vstd::std_specs::convert::FromSpecImpl<[u8; 20]> for AccountId20 {
    open spec fn obeys_from_spec() -> bool {
        true
    }

    open spec fn from_spec(bytes: [u8; 20]) -> AccountId20 {
        AccountId20(bytes)
    }
}

/// The signer of a transaction on a chain with 20-byte accounts: the account derived
/// from its public key.
#[derive(Eq, Clone, Copy, Debug, PartialOrd, Ord, Hash)]
pub struct EthereumSigner([u8; 20]);

impl View for EthereumSigner {
    type V = Seq<u8>;

    closed spec fn view(&self) -> Seq<u8> {
        self.0@
    }
}

impl PartialEq for EthereumSigner {
    fn eq(&self, other: &EthereumSigner) -> (r: bool) {
        bytes_20_equal(&self.0, &other.0)
    }
}

impl vstd::std_specs::cmp::PartialEqSpecImpl for EthereumSigner {
    open spec fn obeys_eq_spec() -> bool {
        true
    }

    open spec fn eq_spec(&self, other: &EthereumSigner) -> bool {
        self@ == other@
    }
}

impl EthereumSigner {
    /// The signer with the given 20-byte account.
    pub fn from_raw_bytes(bytes: [u8; 20]) -> (r: EthereumSigner)
        ensures
            r@ == bytes@,
    {
        EthereumSigner(bytes)
    }

    /// The signer of a compressed secp256k1 public key, which must be a point of the
    /// curve.
    pub fn derive_from_public_key(key: &[u8; 33]) -> (r: EthereumSigner)
        requires
            secp256k1_decompress_of(key@) is Some,
        ensures
            r@ == address_of_compressed(key@),
    {
        EthereumSigner(AccountId20::derive_from_public_key(key).0)
    }

    /// The signer of a full (65-byte, `0x04 ‖ X ‖ Y`) secp256k1 public key.
    pub fn from_full_public_key(key: &[u8; 65]) -> (r: EthereumSigner)
        ensures
            r@ == address_of(key@.subrange(1, 65)),
    {
        EthereumSigner(AccountId20::from_full_public_key(key).0)
    }

    /// The account of the signer.
    pub fn into_account(self) -> (r: AccountId20)
        ensures
            r.0@ == self@,
    {
        AccountId20(self.0)
    }
}

impl From<[u8; 20]> for EthereumSigner {
    fn from(bytes: [u8; 20]) -> (r: EthereumSigner) {
        EthereumSigner(bytes)
    }
}

impl vstd::std_specs::convert::FromSpecImpl<[u8; 20]> for EthereumSigner {
    open spec fn obeys_from_spec() -> bool {
        true
    }

    closed spec fn from_spec(bytes: [u8; 20]) -> EthereumSigner {
        EthereumSigner(bytes)
    }
}

} // verus!
