//! Kusama headers relayed to Moonbeam.
use vstd::prelude::*;
use crate::bridges::{BridgedChain, CliBridgeRoute, FinalityPipeline};

verus! {

/// Kusama finality relayed to Moonbeam.
#[derive(Clone, Copy, Debug, PartialEq, Eq, Structural)]
pub struct KusamaFinalityToMoonbeam;

impl KusamaFinalityToMoonbeam {
    /// The chains that the pipeline connects.
    pub fn pipeline() -> (r: FinalityPipeline)
        ensures
            r == (FinalityPipeline {
                source: BridgedChain::Kusama,
                target: BridgedChain::Moonbeam,
            }),
    {
        FinalityPipeline { source: BridgedChain::Kusama, target: BridgedChain::Moonbeam }
    }
}

/// The command-line bridge that relays Kusama headers to Moonbeam.
#[derive(Clone, Copy, Debug, PartialEq, Eq, Structural)]
pub struct KusamaToMoonbeamCliBridge;

impl KusamaToMoonbeamCliBridge {
    /// The chains that the bridge connects.
    pub fn route() -> (r: CliBridgeRoute)
        ensures
            r == (CliBridgeRoute {
                source: BridgedChain::Kusama,
                target: BridgedChain::Moonbeam,
            }),
    {
        CliBridgeRoute { source: BridgedChain::Kusama, target: BridgedChain::Moonbeam }
    }
}

} // verus!
