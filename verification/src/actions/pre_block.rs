//! What happens to the state before the first transaction of a block.

use vstd::prelude::*;

use crate::components::payload_context::OpPayloadBuilderCtx;
use crate::errors::{InternalError, OpPayloadBuilderError, OtherError, PayloadBuilderError};
use crate::primitives::B256;

verus! {

/// Which of the pre-block actions is under way.
#[derive(Debug, PartialEq, Eq)]
pub enum PreBlock {
    /// The eip-4788 pre block contract call.
    BeaconRoot,
    /// The forced deployment of the create2 deployer.
    Create2Deployer,
    /// None: all went well, or one failed.
    Ended { outcome: Result<(), PayloadBuilderError> },
}

/// What the node is asked to do before the first transaction.
#[derive(Clone, Copy, Debug, PartialEq, Eq)]
pub enum PreBlockAction {
    /// Call the beacon root contract with the root of the parent beacon block.
    BeaconRootCall { parent_beacon_block_root: Option<B256> },
    /// Deploy the create2 deployer, if the hardfork at this timestamp asks for it.
    EnsureCreate2Deployer { timestamp: u64 },
    /// Nothing more.
    Done,
}

/// The error where the beacon root contract call failed.
pub open spec fn beacon_root_failed(err: String) -> PayloadBuilderError {
    PayloadBuilderError::Internal(InternalError::Execution(err))
}

/// The error where the create2 deployer could not be deployed.
pub open spec fn create2_deployer_missing() -> PayloadBuilderError {
    PayloadBuilderError::Other(OtherError::Op(OpPayloadBuilderError::ForceCreate2DeployerFail))
}

/// Ensures that the CREATE2 deployer exists in the state: without it no block is built, whatever
/// the node says of the reason.
///
/// This is a pre-block action that must be performed before building a block.
pub fn ensure_create2_deployer_exists(
    ctx: &OpPayloadBuilderCtx,
    deployed: Result<(), String>,
) -> (r: Result<(), PayloadBuilderError>)
    ensures
        r == match deployed {
            Ok(()) => Ok::<(), PayloadBuilderError>(()),
            Err(_) => Err(create2_deployer_missing()),
        },
{
    ctx.ensure_create2_deployer(deployed)
}

impl PreBlock {
    /// The stage after the beacon root contract call.
    pub open spec fn after_beacon_root(called: Result<(), String>) -> PreBlock {
        match called {
            Ok(()) => PreBlock::Create2Deployer,
            Err(err) => PreBlock::Ended { outcome: Err(beacon_root_failed(err)) },
        }
    }

    /// The stage after the forced deployment of the create2 deployer.
    pub open spec fn after_create2_deployer(deployed: Result<(), String>) -> PreBlock {
        PreBlock::Ended {
            outcome: match deployed {
                Ok(()) => Ok(()),
                Err(_) => Err(create2_deployer_missing()),
            },
        }
    }

    /// What the node is asked to do next.
    pub fn next(&self, ctx: &OpPayloadBuilderCtx) -> (r: PreBlockAction)
        ensures
            r == match *self {
                PreBlock::BeaconRoot => PreBlockAction::BeaconRootCall {
                    parent_beacon_block_root: ctx.config.attributes@.parent_beacon_block_root,
                },
                PreBlock::Create2Deployer => PreBlockAction::EnsureCreate2Deployer {
                    timestamp: ctx.timestamp(),
                },
                PreBlock::Ended { .. } => PreBlockAction::Done,
            },
    {
        let attributes = &ctx.attributes().payload_attributes;
        match self {
            PreBlock::BeaconRoot => PreBlockAction::BeaconRootCall {
                parent_beacon_block_root: attributes.parent_beacon_block_root,
            },
            PreBlock::Create2Deployer => PreBlockAction::EnsureCreate2Deployer {
                timestamp: attributes.timestamp,
            },
            PreBlock::Ended { .. } => PreBlockAction::Done,
        }
    }

    /// Takes up the outcome of the beacon root contract call.
    pub fn on_beacon_root(&mut self, ctx: &OpPayloadBuilderCtx, called: Result<(), String>)
        requires
            *old(self) is BeaconRoot,
        ensures
            *final(self) == PreBlock::after_beacon_root(called),
    {
        *self = match ctx.apply_pre_beacon_root_contract_call(called) {
            Ok(()) => PreBlock::Create2Deployer,
            Err(err) => PreBlock::Ended { outcome: Err(err) },
        };
    }

    /// Takes up the outcome of the forced deployment of the create2 deployer.
    pub fn on_create2_deployer(&mut self, ctx: &OpPayloadBuilderCtx, deployed: Result<(), String>)
        requires
            *old(self) is Create2Deployer,
        ensures
            *final(self) == PreBlock::after_create2_deployer(deployed),
    {
        *self = PreBlock::Ended { outcome: ensure_create2_deployer_exists(ctx, deployed) };
    }
}

} // verus!
