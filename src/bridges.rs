//! The bridges that the relays run between Kusama, Polkadot and Westend and the chains
//! with 20-byte accounts: which chain each pipeline reads and which it writes to.
use vstd::prelude::*;

pub mod betanet_parachains_to_stagenet;
pub mod betanet_relay_headers_to_stagenet;
pub mod kusama_headers_to_moonbeam;
pub mod kusama_parachains_to_moonbeam_polkadot;
pub mod moonbeam_polkadot_messages_to_moonriver_kusama;
pub mod moonriver_kusama_messages_to_moonbeam_polkadot;
pub mod polkadot_parachains_to_moonriver_kusama;
pub mod stagenet_messages_to_betanet;
pub mod stagenet_parachains_to_betanet;
pub mod stagenet_relay_headers_to_betanet;

verus! {

/// A chain that a bridge connects.
#[derive(Clone, Copy, Debug, PartialEq, Eq, Structural)]
pub enum BridgedChain {
    Kusama,
    Polkadot,
    Westend,
    Moonbeam,
    Moonriver,
    Stagenet,
    Betanet,
}

/// A finality pipeline: GRANDPA-finalized headers of a relay chain, submitted to the
/// light client on the target; the same pair is watched for equivocations.
#[derive(Clone, Copy, Debug, PartialEq, Eq, Structural)]
pub struct FinalityPipeline {
    pub source: BridgedChain,
    pub target: BridgedChain,
}

/// A parachains pipeline: heads of a parachain, proved by its relay chain's storage,
/// submitted to the target.
#[derive(Clone, Copy, Debug, PartialEq, Eq, Structural)]
pub struct ParachainsPipeline {
    pub source_parachain: BridgedChain,
    pub source_relay_chain: BridgedChain,
    pub target: BridgedChain,
}

/// A message lane: messages sent on the source, delivered to the target, and the
/// confirmations of delivery carried back.
#[derive(Clone, Copy, Debug, PartialEq, Eq, Structural)]
pub struct MessageLanePipeline {
    pub source: BridgedChain,
    pub target: BridgedChain,
}

/// The two chains that a command-line bridge connects.
#[derive(Clone, Copy, Debug, PartialEq, Eq, Structural)]
pub struct CliBridgeRoute {
    pub source: BridgedChain,
    pub target: BridgedChain,
}

} // verus!
