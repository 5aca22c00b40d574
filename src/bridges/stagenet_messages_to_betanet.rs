//! Messages from Stagenet to Betanet.
use vstd::prelude::*;
use crate::bridges::{BridgedChain, MessageLanePipeline};

verus! {

/// The message lane from Stagenet to Betanet.
#[derive(Clone, Copy, Debug, PartialEq, Eq, Structural)]
pub struct MessageLane;

impl MessageLane {
    /// The chains that the lane connects.
    pub fn pipeline() -> (r: MessageLanePipeline)
        ensures
            r == (MessageLanePipeline {
                source: BridgedChain::Stagenet,
                target: BridgedChain::Betanet,
            }),
    {
        MessageLanePipeline { source: BridgedChain::Stagenet, target: BridgedChain::Betanet }
    }
}

} // verus!
