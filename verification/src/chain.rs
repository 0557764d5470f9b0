//! The chain, the block under construction, and what the consensus layer asks of it.

use vstd::prelude::*;

use crate::errors::EIP1559ParamError;
use crate::primitives::{
    clone_transactions, tx_views, Address, Bloom, OpTransactionSigned, TxView, B256, B64,
};
use crate::u256::U256;

verus! {

/// A chain: its id, and the timestamp from which each hardfork is in force. A hardfork without
/// a timestamp is never in force.
#[derive(Clone, Copy, Debug, PartialEq, Eq)]
pub struct ChainSpec {
    pub chain_id: u64,
    pub shanghai: Option<u64>,
    pub regolith: Option<u64>,
    pub canyon: Option<u64>,
    pub ecotone: Option<u64>,
    pub holocene: Option<u64>,
}

/// Whether a hardfork that is in force from `activation` on is in force at `timestamp`.
pub open spec fn active_at(activation: Option<u64>, timestamp: u64) -> bool {
    activation matches Some(from) && from <= timestamp
}

/// Whether a hardfork that is in force from `activation` on is in force at `timestamp`.
fn is_active_at(activation: Option<u64>, timestamp: u64) -> (r: bool)
    ensures
        r == active_at(activation, timestamp),
{
    match activation {
        Some(from) => from <= timestamp,
        None => false,
    }
}

impl ChainSpec {
    /// Whether Shanghai is in force.
    pub fn is_shanghai_active_at_timestamp(&self, timestamp: u64) -> (r: bool)
        ensures
            r == active_at(self.shanghai, timestamp),
    {
        is_active_at(self.shanghai, timestamp)
    }

    /// Whether Regolith is in force.
    pub fn is_regolith_active_at_timestamp(&self, timestamp: u64) -> (r: bool)
        ensures
            r == active_at(self.regolith, timestamp),
    {
        is_active_at(self.regolith, timestamp)
    }

    /// Whether Canyon is in force.
    pub fn is_canyon_active_at_timestamp(&self, timestamp: u64) -> (r: bool)
        ensures
            r == active_at(self.canyon, timestamp),
    {
        is_active_at(self.canyon, timestamp)
    }

    /// Whether Ecotone is in force.
    pub fn is_ecotone_active_at_timestamp(&self, timestamp: u64) -> (r: bool)
        ensures
            r == active_at(self.ecotone, timestamp),
    {
        is_active_at(self.ecotone, timestamp)
    }

    /// Whether Holocene is in force.
    pub fn is_holocene_active_at_timestamp(&self, timestamp: u64) -> (r: bool)
        ensures
            r == active_at(self.holocene, timestamp),
    {
        is_active_at(self.holocene, timestamp)
    }
}

/// A hardfork that is in force at some time is in force at any later time.
pub proof fn law_hardfork_stays_active(activation: Option<u64>, timestamp: u64, later: u64)
    requires
        active_at(activation, timestamp),
        timestamp <= later,
    ensures
        active_at(activation, later),
{
}

/// How the base fee moves from block to block.
#[derive(Clone, Copy, Debug, PartialEq, Eq)]
pub struct BaseFeeParams {
    pub max_change_denominator: u128,
    pub elasticity_multiplier: u128,
}

/// A withdrawal that the block credits.
#[derive(Clone, Copy, Debug, PartialEq, Eq)]
pub struct Withdrawal {
    pub index: u64,
    pub validator_index: u64,
    pub address: Address,
    pub amount: u64,
}

/// The id of a payload job.
#[derive(Clone, Copy, Debug, PartialEq, Eq)]
pub struct PayloadId {
    pub id: B64,
}

/// The attributes that every payload job has.
#[derive(Debug, PartialEq, Eq)]
pub struct PayloadAttributes {
    pub id: PayloadId,
    pub parent: B256,
    pub timestamp: u64,
    pub suggested_fee_recipient: Address,
    pub prev_randao: B256,
    pub withdrawals: Vec<Withdrawal>,
    pub parent_beacon_block_root: Option<B256>,
}

/// What an Optimism sequencer asks of a payload job.
#[derive(Debug, PartialEq, Eq)]
pub struct OpPayloadBuilderAttributes {
    pub payload_attributes: PayloadAttributes,
    /// Whether the transaction pool must be left alone.
    pub no_tx_pool: bool,
    /// The transactions that the sequencer wants in the block.
    pub transactions: Vec<OpTransactionSigned>,
    /// The gas limit of the block, where the sequencer sets it.
    pub gas_limit: Option<u64>,
    /// The EIP-1559 parameters of the block, which Holocene asks for.
    pub eip_1559_params: Option<B64>,
}

/// What [`OpPayloadBuilderAttributes`] hold.
pub ghost struct AttributesView {
    pub id: PayloadId,
    pub parent: B256,
    pub timestamp: u64,
    pub suggested_fee_recipient: Address,
    pub prev_randao: B256,
    pub withdrawals: Seq<Withdrawal>,
    pub parent_beacon_block_root: Option<B256>,
    pub no_tx_pool: bool,
    pub transactions: Seq<TxView>,
    pub gas_limit: Option<u64>,
    pub eip_1559_params: Option<B64>,
}

impl View for OpPayloadBuilderAttributes {
    type V = AttributesView;

    open spec fn view(&self) -> AttributesView {
        AttributesView {
            id: self.payload_attributes.id,
            parent: self.payload_attributes.parent,
            timestamp: self.payload_attributes.timestamp,
            suggested_fee_recipient: self.payload_attributes.suggested_fee_recipient,
            prev_randao: self.payload_attributes.prev_randao,
            withdrawals: self.payload_attributes.withdrawals@,
            parent_beacon_block_root: self.payload_attributes.parent_beacon_block_root,
            no_tx_pool: self.no_tx_pool,
            transactions: tx_views(self.transactions@),
            gas_limit: self.gas_limit,
            eip_1559_params: self.eip_1559_params,
        }
    }
}

impl Clone for OpPayloadBuilderAttributes {
    fn clone(&self) -> (r: Self)
        ensures
            r@ == self@,
    {
        let attributes = &self.payload_attributes;
        OpPayloadBuilderAttributes {
            payload_attributes: PayloadAttributes {
                id: attributes.id,
                parent: attributes.parent,
                timestamp: attributes.timestamp,
                suggested_fee_recipient: attributes.suggested_fee_recipient,
                prev_randao: attributes.prev_randao,
                withdrawals: clone_withdrawals(&attributes.withdrawals),
                parent_beacon_block_root: attributes.parent_beacon_block_root,
            },
            no_tx_pool: self.no_tx_pool,
            transactions: clone_transactions(&self.transactions),
            gas_limit: self.gas_limit,
            eip_1559_params: self.eip_1559_params,
        }
    }
}

/// Copies a list of withdrawals.
pub fn clone_withdrawals(withdrawals: &Vec<Withdrawal>) -> (r: Vec<Withdrawal>)
    ensures
        r@ == withdrawals@,
{
    let out = withdrawals.clone();
    assert(out@ =~= withdrawals@);
    out
}

/// The four bytes of `x`, most significant first.
pub open spec fn be_bytes(x: u32) -> Seq<u8> {
    seq![
        (x / 0x100_0000) as u8,
        (x / 0x1_0000 % 0x100) as u8,
        (x / 0x100 % 0x100) as u8,
        (x % 0x100) as u8,
    ]
}

/// The extra data of a Holocene block: a version byte, the denominator and the elasticity. The
/// parameters of the payload give them; where these are all zero, the chain's defaults do, if
/// they fit four bytes each.
pub open spec fn holocene_extra_data(params: B64, defaults: BaseFeeParams) -> Result<
    Seq<u8>,
    EIP1559ParamError,
> {
    if forall|i: int| 0 <= i < 8 ==> params.bytes@[i] == 0 {
        if defaults.max_change_denominator > u32::MAX {
            Err(EIP1559ParamError::DenominatorOverflow)
        } else if defaults.elasticity_multiplier > u32::MAX {
            Err(EIP1559ParamError::ElasticityOverflow)
        } else {
            Ok(
                seq![0u8] + be_bytes(defaults.max_change_denominator as u32) + be_bytes(
                    defaults.elasticity_multiplier as u32,
                ),
            )
        }
    } else {
        Ok(seq![0u8] + params.bytes@)
    }
}

/// What a result holds, with a byte string taken by its bytes.
pub open spec fn bytes_view<E>(r: Result<Vec<u8>, E>) -> Result<Seq<u8>, E> {
    match r {
        Ok(bytes) => Ok(bytes@),
        Err(err) => Err(err),
    }
}

/// `op_alloy_consensus::encode_holocene_extra_data`: nine bytes, the version zero and then the
/// EIP-1559 parameters as they stand, or the defaults in their place where all eight bytes are
/// zero. A default that does not fit four bytes is an error, the denominator's first.
#[verifier::external_body]
fn encode_holocene_extra_data(params: B64, defaults: BaseFeeParams) -> (r: Result<
    Vec<u8>,
    EIP1559ParamError,
>)
    ensures
        bytes_view(r) == holocene_extra_data(params, defaults),
{
    let defaults = alloy_eips::eip1559::BaseFeeParams::new(
        defaults.max_change_denominator,
        defaults.elasticity_multiplier,
    );
    match op_alloy_consensus::encode_holocene_extra_data(params.bytes.into(), defaults) {
        Ok(bytes) => Ok(bytes.to_vec()),
        Err(err) => Err(match err {
            op_alloy_consensus::EIP1559ParamError::InvalidVersion(v) => EIP1559ParamError::InvalidVersion(v),
            op_alloy_consensus::EIP1559ParamError::NoEIP1559Params => EIP1559ParamError::NoEIP1559Params,
            op_alloy_consensus::EIP1559ParamError::DenominatorOverflow => EIP1559ParamError::DenominatorOverflow,
            op_alloy_consensus::EIP1559ParamError::ElasticityOverflow => EIP1559ParamError::ElasticityOverflow,
        }),
    }
}

impl OpPayloadBuilderAttributes {
    /// The extra data of a Holocene block, from the EIP-1559 parameters of the payload and the
    /// chain's defaults. A payload without such parameters is an error.
    pub fn get_holocene_extra_data(&self, defaults: BaseFeeParams) -> (r: Result<
        Vec<u8>,
        EIP1559ParamError,
    >)
        ensures
            bytes_view(r) == match self.eip_1559_params {
                Some(params) => holocene_extra_data(params, defaults),
                None => Err(EIP1559ParamError::NoEIP1559Params),
            },
    {
        match self.eip_1559_params {
            Some(params) => encode_holocene_extra_data(params, defaults),
            None => Err(EIP1559ParamError::NoEIP1559Params),
        }
    }
}

/// The header of a block.
#[derive(Debug, PartialEq, Eq)]
pub struct Header {
    pub parent_hash: B256,
    pub ommers_hash: B256,
    pub beneficiary: Address,
    pub state_root: B256,
    pub transactions_root: B256,
    pub receipts_root: B256,
    pub logs_bloom: Bloom,
    pub difficulty: U256,
    pub number: u64,
    pub gas_limit: u64,
    pub gas_used: u64,
    pub timestamp: u64,
    pub extra_data: Vec<u8>,
    pub mix_hash: B256,
    pub nonce: u64,
    pub base_fee_per_gas: Option<u64>,
    pub withdrawals_root: Option<B256>,
    pub blob_gas_used: Option<u64>,
    pub excess_blob_gas: Option<u64>,
    pub parent_beacon_block_root: Option<B256>,
    pub requests_hash: Option<B256>,
}

/// What a [`Header`] holds.
pub ghost struct HeaderView {
    pub parent_hash: B256,
    pub ommers_hash: B256,
    pub beneficiary: Address,
    pub state_root: B256,
    pub transactions_root: B256,
    pub receipts_root: B256,
    pub logs_bloom: Bloom,
    pub difficulty: nat,
    pub number: u64,
    pub gas_limit: u64,
    pub gas_used: u64,
    pub timestamp: u64,
    pub extra_data: Seq<u8>,
    pub mix_hash: B256,
    pub nonce: u64,
    pub base_fee_per_gas: Option<u64>,
    pub withdrawals_root: Option<B256>,
    pub blob_gas_used: Option<u64>,
    pub excess_blob_gas: Option<u64>,
    pub parent_beacon_block_root: Option<B256>,
    pub requests_hash: Option<B256>,
}

impl View for Header {
    type V = HeaderView;

    open spec fn view(&self) -> HeaderView {
        HeaderView {
            parent_hash: self.parent_hash,
            ommers_hash: self.ommers_hash,
            beneficiary: self.beneficiary,
            state_root: self.state_root,
            transactions_root: self.transactions_root,
            receipts_root: self.receipts_root,
            logs_bloom: self.logs_bloom,
            difficulty: self.difficulty@,
            number: self.number,
            gas_limit: self.gas_limit,
            gas_used: self.gas_used,
            timestamp: self.timestamp,
            extra_data: self.extra_data@,
            mix_hash: self.mix_hash,
            nonce: self.nonce,
            base_fee_per_gas: self.base_fee_per_gas,
            withdrawals_root: self.withdrawals_root,
            blob_gas_used: self.blob_gas_used,
            excess_blob_gas: self.excess_blob_gas,
            parent_beacon_block_root: self.parent_beacon_block_root,
            requests_hash: self.requests_hash,
        }
    }
}

impl Clone for Header {
    fn clone(&self) -> (r: Self)
        ensures
            r@ == self@,
    {
        let extra_data = self.extra_data.clone();
        assert(extra_data@ =~= self.extra_data@);
        Header {
            parent_hash: self.parent_hash,
            ommers_hash: self.ommers_hash,
            beneficiary: self.beneficiary,
            state_root: self.state_root,
            transactions_root: self.transactions_root,
            receipts_root: self.receipts_root,
            logs_bloom: self.logs_bloom,
            difficulty: self.difficulty,
            number: self.number,
            gas_limit: self.gas_limit,
            gas_used: self.gas_used,
            timestamp: self.timestamp,
            extra_data,
            mix_hash: self.mix_hash,
            nonce: self.nonce,
            base_fee_per_gas: self.base_fee_per_gas,
            withdrawals_root: self.withdrawals_root,
            blob_gas_used: self.blob_gas_used,
            excess_blob_gas: self.excess_blob_gas,
            parent_beacon_block_root: self.parent_beacon_block_root,
            requests_hash: self.requests_hash,
        }
    }
}

/// A header together with its hash.
#[derive(Debug, PartialEq, Eq)]
pub struct SealedHeader {
    pub header: Header,
    pub hash: B256,
}

/// What a payload job starts from: the parent block and the attributes.
#[derive(Debug, PartialEq, Eq)]
pub struct PayloadConfig {
    pub parent_header: SealedHeader,
    pub attributes: OpPayloadBuilderAttributes,
}

/// The environment that transactions of the block run in.
#[derive(Clone, Copy, Debug, PartialEq, Eq)]
pub struct BlockEnv {
    pub number: U256,
    pub coinbase: Address,
    pub gas_limit: U256,
    pub basefee: U256,
    /// The price of a unit of blob gas, where the block has one.
    pub blob_gasprice: Option<u128>,
}

impl BlockEnv {
    /// The price of a unit of blob gas, where the block has one.
    pub fn get_blob_gasprice(&self) -> (r: Option<u128>)
        ensures
            r == self.blob_gasprice,
    {
        self.blob_gasprice
    }
}

/// What the environment of the next block is derived from, besides its parent.
#[derive(Clone, Copy, Debug, PartialEq, Eq)]
pub struct NextBlockEnvAttributes {
    pub timestamp: u64,
    pub suggested_fee_recipient: Address,
    pub prev_randao: B256,
    pub gas_limit: u64,
}

/// The fees that the transaction pool orders its transactions by.
#[derive(Clone, Copy, Debug, PartialEq, Eq)]
pub struct BestTransactionsAttributes {
    pub basefee: u64,
    pub blob_fee: Option<u64>,
}

/// The account that signs the builder's own transaction.
#[derive(Clone, Copy, Debug, PartialEq, Eq)]
pub struct Signer {
    pub address: Address,
}

} // verus!
