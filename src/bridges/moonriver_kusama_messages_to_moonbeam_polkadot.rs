//! Messages from Moonriver to Moonbeam.
use vstd::prelude::*;
use crate::bridges::{BridgedChain, CliBridgeRoute, MessageLanePipeline};

verus! {

/// The command-line bridge that delivers Moonriver messages to Moonbeam.
#[derive(Clone, Copy, Debug, PartialEq, Eq, Structural)]
pub struct MoonriverToMoonbeamMessagesCliBridge;

impl MoonriverToMoonbeamMessagesCliBridge {
    /// The chains that the bridge connects.
    pub fn route() -> (r: CliBridgeRoute)
        ensures
            r == (CliBridgeRoute {
                source: BridgedChain::Moonriver,
                target: BridgedChain::Moonbeam,
            }),
    {
        CliBridgeRoute { source: BridgedChain::Moonriver, target: BridgedChain::Moonbeam }
    }
}

/// The message lane from Moonriver to Moonbeam.
#[derive(Clone, Copy, Debug, PartialEq, Eq, Structural)]
pub struct MoonriverMessagesToMoonbeamMessageLane;

impl MoonriverMessagesToMoonbeamMessageLane {
    /// The chains that the lane connects.
    pub fn pipeline() -> (r: MessageLanePipeline)
        ensures
            r == (MessageLanePipeline {
                source: BridgedChain::Moonriver,
                target: BridgedChain::Moonbeam,
            }),
    {
        MessageLanePipeline { source: BridgedChain::Moonriver, target: BridgedChain::Moonbeam }
    }
}

} // verus!
