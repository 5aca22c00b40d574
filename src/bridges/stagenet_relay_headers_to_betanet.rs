//! Westend headers relayed to Betanet.
use vstd::prelude::*;
use crate::bridges::{BridgedChain, CliBridgeRoute, FinalityPipeline};

verus! {

/// Westend finality relayed to Betanet.
#[derive(Clone, Copy, Debug, PartialEq, Eq, Structural)]
pub struct StagenetFinality;

impl StagenetFinality {
    /// The chains that the pipeline connects.
    pub fn pipeline() -> (r: FinalityPipeline)
        ensures
            r == (FinalityPipeline {
                source: BridgedChain::Westend,
                target: BridgedChain::Betanet,
            }),
    {
        FinalityPipeline { source: BridgedChain::Westend, target: BridgedChain::Betanet }
    }
}

/// The command-line bridge that relays Westend headers to Betanet.
#[derive(Clone, Copy, Debug, PartialEq, Eq, Structural)]
pub struct CliBridge;

impl CliBridge {
    /// The chains that the bridge connects.
    pub fn route() -> (r: CliBridgeRoute)
        ensures
            r == (CliBridgeRoute {
                source: BridgedChain::Westend,
                target: BridgedChain::Betanet,
            }),
    {
        CliBridgeRoute { source: BridgedChain::Westend, target: BridgedChain::Betanet }
    }
}

} // verus!
