//! Moonbeam heads, proved by Polkadot, relayed to Moonriver.
use vstd::prelude::*;
use crate::bridges::{BridgedChain, CliBridgeRoute, ParachainsPipeline};
use crate::calls::{
    submit_parachain_heads, BridgeParachainCall, HeaderId, ParaHeadsProof, ParachainHead,
    RuntimeCall,
};

verus! {

/// Moonbeam heads relayed to Moonriver.
#[derive(Clone, Copy, Debug, PartialEq, Eq, Structural)]
pub struct MoonbeamToMoonriver;

impl MoonbeamToMoonriver {
    /// The chains that the pipeline connects.
    pub fn pipeline() -> (r: ParachainsPipeline)
        ensures
            r == (ParachainsPipeline {
                source_parachain: BridgedChain::Moonbeam,
                source_relay_chain: BridgedChain::Polkadot,
                target: BridgedChain::Moonriver,
            }),
    {
        ParachainsPipeline {
            source_parachain: BridgedChain::Moonbeam,
            source_relay_chain: BridgedChain::Polkadot,
            target: BridgedChain::Moonriver,
        }
    }
}

/// Builds the Moonriver call that imports Moonbeam heads.
#[derive(Clone, Copy, Debug, PartialEq, Eq, Structural)]
pub struct MoonbeamToMoonriverCallBuilder;

impl MoonbeamToMoonriverCallBuilder {
    /// The call that submits the heads of `parachains`, proved at `at_relay_block`.
    pub fn build_submit_parachain_heads_call(
        at_relay_block: HeaderId,
        parachains: Vec<ParachainHead>,
        parachain_heads_proof: ParaHeadsProof,
        _is_free_execution_expected: bool,
    ) -> (r: RuntimeCall)
        ensures
            r == RuntimeCall::BridgePolkadotParachains(
                submit_parachain_heads(at_relay_block, parachains, parachain_heads_proof),
            ),
    {
        RuntimeCall::BridgePolkadotParachains(
            BridgeParachainCall::SubmitParachainHeads {
                at_relay_block,
                parachains,
                parachain_heads_proof,
            },
        )
    }
}

/// The command-line bridge from Moonbeam to Moonriver.
#[derive(Clone, Copy, Debug, PartialEq, Eq, Structural)]
pub struct MoonbeamToMoonriverCliBridge;

impl MoonbeamToMoonriverCliBridge {
    /// The chains that the bridge connects.
    pub fn route() -> (r: CliBridgeRoute)
        ensures
            r == (CliBridgeRoute {
                source: BridgedChain::Moonbeam,
                target: BridgedChain::Moonriver,
            }),
    {
        CliBridgeRoute { source: BridgedChain::Moonbeam, target: BridgedChain::Moonriver }
    }
}

} // verus!
