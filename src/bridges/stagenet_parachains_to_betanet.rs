//! Stagenet heads, proved by Westend, relayed to Betanet.
use vstd::prelude::*;
use crate::bridges::{BridgedChain, CliBridgeRoute, ParachainsPipeline};
use crate::calls::{
    submit_parachain_heads, BridgeParachainCall, HeaderId, ParaHeadsProof, ParachainHead,
    RuntimeCall,
};

verus! {

/// Stagenet heads relayed to Betanet.
#[derive(Clone, Copy, Debug, PartialEq, Eq, Structural)]
pub struct StagenetToBetanet;

impl StagenetToBetanet {
    /// The chains that the pipeline connects.
    pub fn pipeline() -> (r: ParachainsPipeline)
        ensures
            r == (ParachainsPipeline {
                source_parachain: BridgedChain::Stagenet,
                source_relay_chain: BridgedChain::Westend,
                target: BridgedChain::Betanet,
            }),
    {
        ParachainsPipeline {
            source_parachain: BridgedChain::Stagenet,
            source_relay_chain: BridgedChain::Westend,
            target: BridgedChain::Betanet,
        }
    }
}

/// Builds the Betanet call that imports Stagenet heads.
#[derive(Clone, Copy, Debug, PartialEq, Eq, Structural)]
pub struct MoonriverToMoonbeamCallBuilder;

impl MoonriverToMoonbeamCallBuilder {
    /// The call that submits the heads of `parachains`, proved at `at_relay_block`.
    pub fn build_submit_parachain_heads_call(
        at_relay_block: HeaderId,
        parachains: Vec<ParachainHead>,
        parachain_heads_proof: ParaHeadsProof,
        _is_free_execution_expected: bool,
    ) -> (r: RuntimeCall)
        ensures
            r == RuntimeCall::BridgeParachains(
                submit_parachain_heads(at_relay_block, parachains, parachain_heads_proof),
            ),
    {
        RuntimeCall::BridgeParachains(
            BridgeParachainCall::SubmitParachainHeads {
                at_relay_block,
                parachains,
                parachain_heads_proof,
            },
        )
    }
}

/// The command-line bridge from Stagenet to Betanet.
#[derive(Clone, Copy, Debug, PartialEq, Eq, Structural)]
pub struct CliBridge;

impl CliBridge {
    /// The chains that the bridge connects.
    pub fn route() -> (r: CliBridgeRoute)
        ensures
            r == (CliBridgeRoute {
                source: BridgedChain::Stagenet,
                target: BridgedChain::Betanet,
            }),
    {
        CliBridgeRoute { source: BridgedChain::Stagenet, target: BridgedChain::Betanet }
    }
}

} // verus!
