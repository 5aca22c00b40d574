//! Messages from Moonbeam to Moonriver.
use vstd::prelude::*;
use crate::bridges::{BridgedChain, CliBridgeRoute, MessageLanePipeline};

verus! {

/// The command-line bridge that delivers Moonbeam messages to Moonriver.
#[derive(Clone, Copy, Debug, PartialEq, Eq, Structural)]
pub struct MoonbeamToMoonriverMessagesCliBridge;

impl MoonbeamToMoonriverMessagesCliBridge {
    /// The chains that the bridge connects.
    pub fn route() -> (r: CliBridgeRoute)
        ensures
            r == (CliBridgeRoute {
                source: BridgedChain::Moonbeam,
                target: BridgedChain::Moonriver,
            }),
    {
        CliBridgeRoute { source: BridgedChain::Moonbeam, target: BridgedChain::Moonriver }
    }
}

/// The message lane from Moonbeam to Moonriver.
#[derive(Clone, Copy, Debug, PartialEq, Eq, Structural)]
pub struct MoonbeamMessagesToMoonriverMessageLane;

impl MoonbeamMessagesToMoonriverMessageLane {
    /// The chains that the lane connects.
    pub fn pipeline() -> (r: MessageLanePipeline)
        ensures
            r == (MessageLanePipeline {
                source: BridgedChain::Moonbeam,
                target: BridgedChain::Moonriver,
            }),
    {
        MessageLanePipeline { source: BridgedChain::Moonbeam, target: BridgedChain::Moonriver }
    }
}

} // verus!
