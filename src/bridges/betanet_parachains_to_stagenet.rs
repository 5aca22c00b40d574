//! Betanet heads, proved by Westend, relayed to Stagenet.
use vstd::prelude::*;
use crate::bridges::{BridgedChain, CliBridgeRoute, ParachainsPipeline};
use crate::calls::{
    submit_parachain_heads, BridgeParachainCall, HeaderId, ParaHeadsProof, ParachainHead,
    RuntimeCall,
};

verus! {

/// Betanet heads relayed to Stagenet.
#[derive(Clone, Copy, Debug, PartialEq, Eq, Structural)]
pub struct BetanetToStagenet;

impl BetanetToStagenet {
    /// The chains that the pipeline connects.
    pub fn pipeline() -> (r: ParachainsPipeline)
        ensures
            r == (ParachainsPipeline {
                source_parachain: BridgedChain::Betanet,
                source_relay_chain: BridgedChain::Westend,
                target: BridgedChain::Stagenet,
            }),
    {
        ParachainsPipeline {
            source_parachain: BridgedChain::Betanet,
            source_relay_chain: BridgedChain::Westend,
            target: BridgedChain::Stagenet,
        }
    }
}

/// Builds the Stagenet call that imports Betanet heads.
#[derive(Clone, Copy, Debug, PartialEq, Eq, Structural)]
pub struct CallBuilder;

impl CallBuilder {
    /// The call that submits the heads of `parachains`, proved at `at_relay_block`.
    pub fn build_submit_parachain_heads_call(
        at_relay_block: HeaderId,
        parachains: Vec<ParachainHead>,
        parachain_heads_proof: ParaHeadsProof,
        _is_free_execution_expected: bool,
    ) -> (r: RuntimeCall)
        ensures
            r == RuntimeCall::BridgeParachains(
                submit_parachain_heads(at_relay_block, parachains, parachain_heads_proof),
            ),
    {
        RuntimeCall::BridgeParachains(
            BridgeParachainCall::SubmitParachainHeads {
                at_relay_block,
                parachains,
                parachain_heads_proof,
            },
        )
    }
}

/// The command-line bridge from Betanet to Stagenet.
#[derive(Clone, Copy, Debug, PartialEq, Eq, Structural)]
pub struct CliBridge;

impl CliBridge {
    /// The chains that the bridge connects.
    pub fn route() -> (r: CliBridgeRoute)
        ensures
            r == (CliBridgeRoute {
                source: BridgedChain::Betanet,
                target: BridgedChain::Stagenet,
            }),
    {
        CliBridgeRoute { source: BridgedChain::Betanet, target: BridgedChain::Stagenet }
    }
}

} // verus!
