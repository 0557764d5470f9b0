//! What is known about a payload before any transaction is executed.

use vstd::prelude::*;

use crate::chain::{
    active_at, bytes_view, holocene_extra_data, BaseFeeParams, BestTransactionsAttributes,
    BlockEnv, ChainSpec, OpPayloadBuilderAttributes, PayloadConfig, PayloadId, SealedHeader,
    Signer, Withdrawal,
};
use crate::errors::{
    EIP1559ParamError, InternalError, OpPayloadBuilderError, OtherError, PayloadBuilderError,
};

verus! {

/// Container type that holds all necessities to build a new payload.
#[derive(Debug, PartialEq, Eq)]
pub struct OpPayloadBuilderCtx {
    /// The chain.
    pub chain_spec: ChainSpec,
    /// How to build the payload.
    pub config: PayloadConfig,
    /// Block config.
    pub initialized_block_env: BlockEnv,
    /// The chain's base fee parameters at the timestamp of the payload.
    pub base_fee_params: BaseFeeParams,
    /// The builder signer.
    pub builder_signer: Option<Signer>,
}

impl OpPayloadBuilderCtx {
    /// The number and the base fee of the block fit 64 bits.
    pub open spec fn wf(&self) -> bool {
        &&& self.initialized_block_env.number@ <= u64::MAX
        &&& self.initialized_block_env.basefee@ <= u64::MAX
    }

    /// The timestamp of the payload.
    pub open spec fn timestamp(&self) -> u64 {
        self.config.attributes.payload_attributes.timestamp
    }

    /// The block gas limit to target: that of the attributes, or else that of the block
    /// environment, cut down to 64 bits.
    pub open spec fn spec_block_gas_limit(&self) -> u64 {
        match self.config.attributes.gas_limit {
            Some(limit) => limit,
            None => if self.initialized_block_env.gas_limit@ <= u64::MAX {
                self.initialized_block_env.gas_limit@ as u64
            } else {
                u64::MAX
            },
        }
    }

    /// The block number.
    pub open spec fn spec_block_number(&self) -> u64 {
        self.initialized_block_env.number@ as u64
    }

    /// The base fee.
    pub open spec fn spec_base_fee(&self) -> u64 {
        self.initialized_block_env.basefee@ as u64
    }

    /// The extra data of the block: none before Holocene, then what the payload's EIP-1559
    /// parameters give.
    pub open spec fn spec_extra_data(&self) -> Result<Seq<u8>, PayloadBuilderError> {
        if active_at(self.chain_spec.holocene, self.timestamp()) {
            match self.config.attributes.eip_1559_params {
                None => Err(
                    PayloadBuilderError::Other(
                        OtherError::ExtraData(EIP1559ParamError::NoEIP1559Params),
                    ),
                ),
                Some(params) => match holocene_extra_data(params, self.base_fee_params) {
                    Ok(bytes) => Ok(bytes),
                    Err(err) => Err(PayloadBuilderError::Other(OtherError::ExtraData(err))),
                },
            }
        } else {
            Ok(Seq::empty())
        }
    }

    /// `attributes` are the fees of the payload: its base fee, and the low 64 bits of the price
    /// of blob gas where there is one.
    pub open spec fn spec_best_transaction_attributes(
        &self,
        attributes: BestTransactionsAttributes,
    ) -> bool {
        &&& attributes.basefee == self.initialized_block_env.basefee@
        &&& match self.initialized_block_env.blob_gasprice {
            Some(price) => attributes.blob_fee is Some && attributes.blob_fee->0 == price as int
                % 0x1_0000_0000_0000_0000,
            None => attributes.blob_fee is None,
        }
    }

    /// Whether the number and the base fee of the block fit 64 bits.
    pub fn is_wf(&self) -> (r: bool)
        ensures
            r == self.wf(),
    {
        self.initialized_block_env.number.fits_u64() && self.initialized_block_env.basefee.fits_u64()
    }

    /// Returns the parent block the payload will be build on.
    pub fn parent(&self) -> (r: &SealedHeader)
        ensures
            r == self.config.parent_header,
    {
        &self.config.parent_header
    }

    /// Returns the builder attributes.
    pub fn attributes(&self) -> (r: &OpPayloadBuilderAttributes)
        ensures
            r == self.config.attributes,
    {
        &self.config.attributes
    }

    /// Returns the withdrawals if shanghai is active.
    pub fn withdrawals(&self) -> (r: Option<&Vec<Withdrawal>>)
        ensures
            r == if active_at(self.chain_spec.shanghai, self.timestamp()) {
                Some(&self.config.attributes.payload_attributes.withdrawals)
            } else {
                None
            },
    {
        if self.chain_spec.is_shanghai_active_at_timestamp(
            self.attributes().payload_attributes.timestamp,
        ) {
            Some(&self.attributes().payload_attributes.withdrawals)
        } else {
            None
        }
    }

    /// Returns the block gas limit to target.
    pub fn block_gas_limit(&self) -> (r: u64)
        ensures
            r == self.spec_block_gas_limit(),
    {
        match self.attributes().gas_limit {
            Some(limit) => limit,
            None => self.initialized_block_env.gas_limit.saturating_to_u64(),
        }
    }

    /// Returns the block number for the block.
    pub fn block_number(&self) -> (r: u64)
        requires
            self.initialized_block_env.number@ <= u64::MAX,
        ensures
            r == self.initialized_block_env.number@,
            r == self.spec_block_number(),
    {
        self.initialized_block_env.number.to_u64()
    }

    /// Returns the current base fee.
    pub fn base_fee(&self) -> (r: u64)
        requires
            self.initialized_block_env.basefee@ <= u64::MAX,
        ensures
            r == self.initialized_block_env.basefee@,
            r == self.spec_base_fee(),
    {
        self.initialized_block_env.basefee.to_u64()
    }

    /// Returns the current blob gas price, cut down to its low 64 bits.
    pub fn get_blob_gasprice(&self) -> (r: Option<u64>)
        ensures
            match self.initialized_block_env.blob_gasprice {
                Some(price) => r is Some && r->0 == price as int % 0x1_0000_0000_0000_0000,
                None => r is None,
            },
    {
        match self.initialized_block_env.get_blob_gasprice() {
            Some(price) => Some((price % 0x1_0000_0000_0000_0000) as u64),
            None => None,
        }
    }

    /// Returns the blob fields for the header.
    ///
    /// This will always return `Some(0)` after ecotone.
    pub fn blob_fields(&self) -> (r: (Option<u64>, Option<u64>))
        ensures
            r == if active_at(self.chain_spec.ecotone, self.timestamp()) {
                (Some(0u64), Some(0u64))
            } else {
                (None, None)
            },
    {
        // Blob transactions have no place on Optimism. The fields must be there or not, by
        // hardfork, for the block hash to match.
        if self.is_ecotone_active() {
            (Some(0), Some(0))
        } else {
            (None, None)
        }
    }

    /// Returns the extra data for the block.
    ///
    /// After holocene this extracts the extra data from the payload.
    pub fn extra_data(&self) -> (r: Result<Vec<u8>, PayloadBuilderError>)
        ensures
            bytes_view(r) == self.spec_extra_data(),
    {
        if self.is_holocene_active() {
            match self.attributes().get_holocene_extra_data(self.base_fee_params) {
                Ok(bytes) => Ok(bytes),
                Err(err) => Err(PayloadBuilderError::Other(OtherError::ExtraData(err))),
            }
        } else {
            let none: Vec<u8> = Vec::new();
            assert(none@ =~= Seq::empty());
            Ok(none)
        }
    }

    /// Returns the current fee settings for transactions from the mempool.
    pub fn best_transaction_attributes(&self) -> (r: BestTransactionsAttributes)
        requires
            self.initialized_block_env.basefee@ <= u64::MAX,
        ensures
            self.spec_best_transaction_attributes(r),
    {
        BestTransactionsAttributes { basefee: self.base_fee(), blob_fee: self.get_blob_gasprice() }
    }

    /// Returns the unique id for this payload job.
    pub fn payload_id(&self) -> (r: PayloadId)
        ensures
            r == self.config.attributes.payload_attributes.id,
    {
        self.attributes().payload_attributes.id
    }

    /// Returns true if regolith is active for the payload.
    pub fn is_regolith_active(&self) -> (r: bool)
        ensures
            r == active_at(self.chain_spec.regolith, self.timestamp()),
    {
        self.chain_spec.is_regolith_active_at_timestamp(
            self.attributes().payload_attributes.timestamp,
        )
    }

    /// Returns true if ecotone is active for the payload.
    pub fn is_ecotone_active(&self) -> (r: bool)
        ensures
            r == active_at(self.chain_spec.ecotone, self.timestamp()),
    {
        self.chain_spec.is_ecotone_active_at_timestamp(
            self.attributes().payload_attributes.timestamp,
        )
    }

    /// Returns true if canyon is active for the payload.
    pub fn is_canyon_active(&self) -> (r: bool)
        ensures
            r == active_at(self.chain_spec.canyon, self.timestamp()),
    {
        self.chain_spec.is_canyon_active_at_timestamp(
            self.attributes().payload_attributes.timestamp,
        )
    }

    /// Returns true if holocene is active for the payload.
    pub fn is_holocene_active(&self) -> (r: bool)
        ensures
            r == active_at(self.chain_spec.holocene, self.timestamp()),
    {
        self.chain_spec.is_holocene_active_at_timestamp(
            self.attributes().payload_attributes.timestamp,
        )
    }

    /// Returns the chain id.
    pub fn chain_id(&self) -> (r: u64)
        ensures
            r == self.chain_spec.chain_id,
    {
        self.chain_spec.chain_id
    }

    /// Returns the builder signer.
    pub fn builder_signer(&self) -> (r: Option<Signer>)
        ensures
            r == self.builder_signer,
    {
        self.builder_signer
    }

    /// What the commit of the payload's withdrawals comes to: the root that the state reports
    /// for them, or a failure of the node.
    pub fn commit_withdrawals(
        &self,
        committed: Result<Option<crate::primitives::B256>, String>,
    ) -> (r: Result<Option<crate::primitives::B256>, PayloadBuilderError>)
        ensures
            r == match committed {
                Ok(root) => Ok::<Option<crate::primitives::B256>, PayloadBuilderError>(root),
                Err(err) => Err(PayloadBuilderError::Internal(InternalError::Provider(err))),
            },
    {
        match committed {
            Ok(root) => Ok(root),
            Err(err) => Err(PayloadBuilderError::Internal(InternalError::Provider(err))),
        }
    }

    /// What the forced deployment of the create2 deployer comes to. Without the deployer no
    /// block is built, whatever the node says of the reason.
    pub fn ensure_create2_deployer(&self, deployed: Result<(), String>) -> (r: Result<
        (),
        PayloadBuilderError,
    >)
        ensures
            r == match deployed {
                Ok(()) => Ok::<(), PayloadBuilderError>(()),
                Err(_) => Err(
                    PayloadBuilderError::Other(
                        OtherError::Op(OpPayloadBuilderError::ForceCreate2DeployerFail),
                    ),
                ),
            },
    {
        match deployed {
            Ok(()) => Ok(()),
            Err(_) => Err(
                PayloadBuilderError::other(OpPayloadBuilderError::ForceCreate2DeployerFail),
            ),
        }
    }

    /// What the eip-4788 pre block contract call comes to.
    pub fn apply_pre_beacon_root_contract_call(&self, called: Result<(), String>) -> (r: Result<
        (),
        PayloadBuilderError,
    >)
        ensures
            r == match called {
                Ok(()) => Ok::<(), PayloadBuilderError>(()),
                Err(err) => Err(PayloadBuilderError::Internal(InternalError::Execution(err))),
            },
    {
        match called {
            Ok(()) => Ok(()),
            Err(err) => Err(PayloadBuilderError::Internal(InternalError::Execution(err))),
        }
    }
}

} // verus!
