//! Moonriver heads, proved by Kusama, relayed to Moonbeam.
use vstd::prelude::*;
use crate::bridges::{BridgedChain, CliBridgeRoute, ParachainsPipeline};
use crate::calls::{
    submit_parachain_heads, BridgeParachainCall, HeaderId, ParaHeadsProof, ParachainHead,
    RuntimeCall,
};

verus! {

/// Moonriver heads relayed to Moonbeam.
#[derive(Clone, Copy, Debug, PartialEq, Eq, Structural)]
pub struct MoonriverToMoonbeam;

impl MoonriverToMoonbeam {
    /// The chains that the pipeline connects.
    pub fn pipeline() -> (r: ParachainsPipeline)
        ensures
            r == (ParachainsPipeline {
                source_parachain: BridgedChain::Moonriver,
                source_relay_chain: BridgedChain::Kusama,
                target: BridgedChain::Moonbeam,
            }),
    {
        ParachainsPipeline {
            source_parachain: BridgedChain::Moonriver,
            source_relay_chain: BridgedChain::Kusama,
            target: BridgedChain::Moonbeam,
        }
    }
}

/// Builds the Moonbeam call that imports Moonriver heads.
#[derive(Clone, Copy, Debug, PartialEq, Eq, Structural)]
pub struct MoonriverToMoonbeamCallBuilder;

impl MoonriverToMoonbeamCallBuilder {
    /// The call that submits the heads of `parachains`, proved at `at_relay_block`.
    pub fn build_submit_parachain_heads_call(
        at_relay_block: HeaderId,
        parachains: Vec<ParachainHead>,
        parachain_heads_proof: ParaHeadsProof,
        _is_free_execution_expected: bool,
    ) -> (r: RuntimeCall)
        ensures
            r == RuntimeCall::BridgeKusamaParachains(
                submit_parachain_heads(at_relay_block, parachains, parachain_heads_proof),
            ),
    {
        RuntimeCall::BridgeKusamaParachains(
            BridgeParachainCall::SubmitParachainHeads {
                at_relay_block,
                parachains,
                parachain_heads_proof,
            },
        )
    }
}

/// The command-line bridge from Moonriver to Moonbeam.
#[derive(Clone, Copy, Debug, PartialEq, Eq, Structural)]
pub struct MoonriverToMoonbeamCliBridge;

impl MoonriverToMoonbeamCliBridge {
    /// The chains that the bridge connects.
    pub fn route() -> (r: CliBridgeRoute)
        ensures
            r == (CliBridgeRoute {
                source: BridgedChain::Moonriver,
                target: BridgedChain::Moonbeam,
            }),
    {
        CliBridgeRoute { source: BridgedChain::Moonriver, target: BridgedChain::Moonbeam }
    }
}

} // verus!
