//! The runtime calls that the relays submit to chains with 20-byte accounts.
use vstd::prelude::*;

verus! {

/// A header of a relay chain: its number and hash.
pub type HeaderId = (u32, [u8; 32]);

/// A parachain's id and the hash of its head.
pub type ParachainHead = (u32, [u8; 32]);

/// Proof of parachain heads: the relay chain's storage trie nodes that hold them.
#[derive(Debug, PartialEq, Eq)]
pub struct ParaHeadsProof {
    pub storage_proof: Vec<Vec<u8>>,
}

/// A call of a bridge parachains pallet.
#[derive(Debug, PartialEq, Eq)]
pub enum BridgeParachainCall {
    /// Import the heads of parachains, proved at a relay chain block.
    SubmitParachainHeads {
        at_relay_block: HeaderId,
        parachains: Vec<ParachainHead>,
        parachain_heads_proof: ParaHeadsProof,
    },
}

/// A call of the utility pallet.
#[derive(Debug, PartialEq, Eq)]
pub enum UtilityCall {
    /// Dispatch all the calls, or none of them if one fails.
    BatchAll { calls: Vec<RuntimeCall> },
}

/// The utility call that the relays build before they know the runtime's call type.
#[derive(Debug, PartialEq, Eq)]
pub enum MockUtilityCall {
    BatchAll(Vec<RuntimeCall>),
}

/// A call of the runtime of a chain with 20-byte accounts. Each runtime names its bridge
/// parachains pallet after the relay chain that it follows.
#[derive(Debug, PartialEq, Eq)]
pub enum RuntimeCall {
    Utility(UtilityCall),
    /// The parachains pallet of the Moonbase runtimes.
    BridgeParachains(BridgeParachainCall),
    /// The parachains pallet of the Moonbeam runtime, which follows Kusama.
    BridgeKusamaParachains(BridgeParachainCall),
    /// The parachains pallet of the Moonriver runtime, which follows Polkadot.
    BridgePolkadotParachains(BridgeParachainCall),
}

impl RuntimeCall {
    /// The runtime's utility call for a mock utility call.
    pub fn from_mock_utility_call(value: MockUtilityCall) -> (r: RuntimeCall)
        ensures
            r == match value {
                MockUtilityCall::BatchAll(calls) => RuntimeCall::Utility(
                    UtilityCall::BatchAll { calls },
                ),
            },
    {
        match value {
            MockUtilityCall::BatchAll(calls) => {
                RuntimeCall::Utility(UtilityCall::BatchAll { calls })
            },
        }
    }
}

/// The call that submits parachain heads.
pub open spec fn submit_parachain_heads(
    at_relay_block: HeaderId,
    parachains: Vec<ParachainHead>,
    parachain_heads_proof: ParaHeadsProof,
) -> BridgeParachainCall {
    BridgeParachainCall::SubmitParachainHeads { at_relay_block, parachains, parachain_heads_proof }
}

} // verus!
