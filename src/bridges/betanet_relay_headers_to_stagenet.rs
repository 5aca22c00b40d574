//! Westend headers relayed to Stagenet.
use vstd::prelude::*;
use crate::bridges::{BridgedChain, CliBridgeRoute, FinalityPipeline};

verus! {

/// Westend finality relayed to Stagenet.
#[derive(Clone, Copy, Debug, PartialEq, Eq, Structural)]
pub struct MoonbaseRelayFinality;

impl MoonbaseRelayFinality {
    /// The chains that the pipeline connects.
    pub fn pipeline() -> (r: FinalityPipeline)
        ensures
            r == (FinalityPipeline {
                source: BridgedChain::Westend,
                target: BridgedChain::Stagenet,
            }),
    {
        FinalityPipeline { source: BridgedChain::Westend, target: BridgedChain::Stagenet }
    }
}

/// The command-line bridge that relays Westend headers to Stagenet.
#[derive(Clone, Copy, Debug, PartialEq, Eq, Structural)]
pub struct CliBridge;

impl CliBridge {
    /// The chains that the bridge connects.
    pub fn route() -> (r: CliBridgeRoute)
        ensures
            r == (CliBridgeRoute {
                source: BridgedChain::Westend,
                target: BridgedChain::Stagenet,
            }),
    {
        CliBridgeRoute { source: BridgedChain::Westend, target: BridgedChain::Stagenet }
    }
}

} // verus!
