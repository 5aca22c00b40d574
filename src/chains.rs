//! The chains with 20-byte accounts that the relays sign transactions for.
use vstd::prelude::*;
use crate::account::AccountId20;
use crate::ecdsa::KeyPair;
use crate::storage::{map_final_key, AccountInfoStorageMapKeyProvider};
use crate::transaction::{
    sign_transaction, signing_outcome, SignedTransaction, SigningError, TransactionEra,
    TransactionExtension,
};

verus! {

/// A runtime version: the versions of the runtime's logic and of its transaction format.
#[derive(Clone, Copy, Debug, PartialEq, Eq, Structural)]
pub struct SimpleRuntimeVersion {
    pub spec_version: u32,
    pub transaction_version: u32,
}

/// What a chain's signer is given besides the transaction: the runtime versions, the
/// genesis hash and the key pair.
pub struct SignParam {
    pub spec_version: u32,
    pub transaction_version: u32,
    pub genesis_hash: [u8; 32],
    pub signer: KeyPair,
}

/// A transaction to sign: the encoded call, the sender's nonce, the tip and the era.
pub struct UnsignedTransaction {
    pub call: Vec<u8>,
    pub nonce: u32,
    pub tip: u128,
    pub era: TransactionEra,
}

/// The extension that the chains sign with: the given parameters, and the metadata hash
/// check disabled.
pub open spec fn extension_of(
    param: SignParam,
    unsigned: UnsignedTransaction,
) -> TransactionExtension {
    TransactionExtension {
        spec_version: param.spec_version,
        transaction_version: param.transaction_version,
        era: unsigned.era,
        genesis_hash: param.genesis_hash,
        nonce: unsigned.nonce,
        tip: unsigned.tip,
        metadata_hash: None,
    }
}

/// Signs a transaction for a chain with 20-byte accounts and the common extension.
fn sign_with_common_extension(param: SignParam, unsigned: UnsignedTransaction) -> (r: Result<
    SignedTransaction,
    SigningError,
>)
    requires
        param.signer.wf(),
    ensures
        signing_outcome(r, param.signer, unsigned.call@, extension_of(param, unsigned)),
{
    let extension = TransactionExtension {
        spec_version: param.spec_version,
        transaction_version: param.transaction_version,
        era: unsigned.era,
        genesis_hash: param.genesis_hash,
        nonce: unsigned.nonce,
        tip: unsigned.tip,
        metadata_hash: None,
    };
    sign_transaction(&param.signer, unsigned.call, extension)
}

/// The Stagenet parachain.
#[derive(Clone, Copy, Debug, PartialEq, Eq, Structural)]
pub struct Stagenet;

impl Stagenet {
    /// The chain's name.
    pub fn name() -> (r: &'static str)
        ensures
            r@ == "Stagenet"@,
    {
        "Stagenet"
    }

    /// The runtime version that transactions are signed for.
    pub fn runtime_version() -> (r: SimpleRuntimeVersion)
        ensures
            r == (SimpleRuntimeVersion { spec_version: 3700, transaction_version: 3 }),
    {
        SimpleRuntimeVersion { spec_version: 3700, transaction_version: 3 }
    }

    /// The storage key of an account's data.
    pub fn account_info_storage_key(account_id: &AccountId20) -> (r: Vec<u8>)
        ensures
            r@ == map_final_key(
                AccountInfoStorageMapKeyProvider::pallet_name(),
                AccountInfoStorageMapKeyProvider::map_name(),
                account_id.0@,
            ),
    {
        AccountInfoStorageMapKeyProvider::final_key(account_id)
    }

    /// Signs a transaction for the chain.
    pub fn sign_transaction(param: SignParam, unsigned: UnsignedTransaction) -> (r: Result<
        SignedTransaction,
        SigningError,
    >)
        requires
            param.signer.wf(),
        ensures
            signing_outcome(r, param.signer, unsigned.call@, extension_of(param, unsigned)),
    {
        sign_with_common_extension(param, unsigned)
    }
}

/// The Moonbeam parachain.
#[derive(Clone, Copy, Debug, PartialEq, Eq, Structural)]
pub struct Moonbeam;

impl Moonbeam {
    /// The chain's name.
    pub fn name() -> (r: &'static str)
        ensures
            r@ == "Moonbeam"@,
    {
        "Moonbeam"
    }

    /// The runtime version that transactions are signed for.
    pub fn runtime_version() -> (r: SimpleRuntimeVersion)
        ensures
            r == (SimpleRuntimeVersion { spec_version: 3700, transaction_version: 3 }),
    {
        SimpleRuntimeVersion { spec_version: 3700, transaction_version: 3 }
    }

    /// The storage key of an account's data.
    pub fn account_info_storage_key(account_id: &AccountId20) -> (r: Vec<u8>)
        ensures
            r@ == map_final_key(
                AccountInfoStorageMapKeyProvider::pallet_name(),
                AccountInfoStorageMapKeyProvider::map_name(),
                account_id.0@,
            ),
    {
        AccountInfoStorageMapKeyProvider::final_key(account_id)
    }

    /// Signs a transaction for the chain.
    pub fn sign_transaction(param: SignParam, unsigned: UnsignedTransaction) -> (r: Result<
        SignedTransaction,
        SigningError,
    >)
        requires
            param.signer.wf(),
        ensures
            signing_outcome(r, param.signer, unsigned.call@, extension_of(param, unsigned)),
    {
        sign_with_common_extension(param, unsigned)
    }
}

} // verus!
