//! The block that comes of the executed transactions, sealed with its header.

use vstd::prelude::*;

use alloy_consensus::Header as ConsensusHeader;

use crate::chain::{
    active_at, clone_withdrawals, ChainSpec, Header, HeaderView, OpPayloadBuilderAttributes,
    PayloadId, SealedHeader, Withdrawal,
};
use crate::components::execution_info::{ExecutionInfo, InfoView};
use crate::components::payload_context::OpPayloadBuilderCtx;
use crate::errors::PayloadBuilderError;
use crate::primitives::{
    block_logs, clone_transactions, collect_logs, log_views, receipt_views, tx_views, Address,
    Bloom, Log, LogView, OpReceipt, OpTransactionSigned, TxView, B256,
};
use crate::u256::U256;

verus! {

/// The roots that the node computes after the last transaction: that of the state, and that of
/// the receipts of the block.
#[derive(Clone, Copy, Debug, PartialEq, Eq)]
pub struct StateRoots {
    pub state_root: B256,
    pub receipts_root: B256,
}

/// What a block holds besides its header.
#[derive(Debug, PartialEq, Eq)]
pub struct BlockBody {
    pub transactions: Vec<OpTransactionSigned>,
    pub ommers: Vec<Header>,
    pub withdrawals: Option<Vec<Withdrawal>>,
}

/// A block whose header has its hash.
#[derive(Debug, PartialEq, Eq)]
pub struct SealedBlock {
    pub header: SealedHeader,
    pub body: BlockBody,
}

/// What a [`SealedBlock`] holds.
pub ghost struct SealedBlockView {
    pub header: HeaderView,
    pub hash: B256,
    pub transactions: Seq<TxView>,
    pub ommers: Seq<HeaderView>,
    pub withdrawals: Option<Seq<Withdrawal>>,
}

impl View for SealedBlock {
    type V = SealedBlockView;

    open spec fn view(&self) -> SealedBlockView {
        SealedBlockView {
            header: self.header.header@,
            hash: self.header.hash,
            transactions: tx_views(self.body.transactions@),
            ommers: self.body.ommers@.map_values(|ommer: Header| ommer@),
            withdrawals: withdrawals_view(self.body.withdrawals),
        }
    }
}

impl Clone for SealedBlock {
    fn clone(&self) -> (r: Self)
        ensures
            r@ == self@,
    {
        let mut ommers: Vec<Header> = Vec::new();
        let mut i: usize = 0;
        while i < self.body.ommers.len()
            invariant
                i <= self.body.ommers.len(),
                ommers.len() == i,
                forall|j: int| 0 <= j < i ==> (#[trigger] ommers@[j])@ == self.body.ommers@[j]@,
            decreases self.body.ommers.len() - i,
        {
            let ommer = self.body.ommers[i].clone();
            ommers.push(ommer);
            i += 1;
        }
        let r = SealedBlock {
            header: SealedHeader { header: self.header.header.clone(), hash: self.header.hash },
            body: BlockBody {
                transactions: clone_transactions(&self.body.transactions),
                ommers,
                withdrawals: match &self.body.withdrawals {
                    Some(withdrawals) => Some(clone_withdrawals(withdrawals)),
                    None => None,
                },
            },
        };
        assert(r@.ommers =~= self@.ommers);
        r
    }
}

/// What the node may keep of the execution of a block, so as not to execute it again.
#[derive(Debug, PartialEq, Eq)]
pub struct ExecutedBlock {
    pub block: SealedBlock,
    pub number: u64,
    pub senders: Vec<Address>,
    pub receipts: Vec<OpReceipt>,
}

/// A payload that is ready for the consensus layer.
#[derive(Debug, PartialEq, Eq)]
pub struct OpBuiltPayload {
    pub id: PayloadId,
    pub block: SealedBlock,
    pub fees: U256,
    pub chain_spec: ChainSpec,
    pub attributes: OpPayloadBuilderAttributes,
    pub executed_block: Option<ExecutedBlock>,
}

/// The encodings of a list of transactions.
pub open spec fn encodings(txs: Seq<TxView>) -> Seq<Seq<u8>> {
    txs.map_values(|tx: TxView| tx.encoded)
}

/// What a bloom filter takes in of a list of logs: the address and the topics of each.
pub open spec fn bloom_inputs(logs: Seq<LogView>) -> Seq<(Address, Seq<B256>)> {
    logs.map_values(|log: LogView| (log.address, log.topics))
}

/// The root of the trie that has each encoding under its place in the list.
pub uninterp spec fn ordered_trie_root(encodings: Seq<Seq<u8>>) -> B256;

/// The bloom filter of logs with these addresses and topics.
pub uninterp spec fn logs_bloom_of(logs: Seq<(Address, Seq<B256>)>) -> Bloom;

/// The Keccak-256 hash of the RLP encoding of a header.
pub uninterp spec fn header_hash(header: HeaderView) -> B256;

/// `alloy_consensus::proofs::ordered_trie_root_with_encoder`, with an encoder that writes each
/// transaction's EIP-2718 encoding: what `alloy_consensus::proofs::calculate_transaction_root`
/// computes of transactions that encode so. The root depends on the encodings and their order
/// alone.
#[verifier::external_body]
fn calculate_transaction_root(txs: &Vec<OpTransactionSigned>) -> (r: B256)
    ensures
        r == ordered_trie_root(encodings(tx_views(txs@))),
{
    let root = alloy_consensus::proofs::ordered_trie_root_with_encoder(
        txs,
        |tx: &OpTransactionSigned, buf| buf.extend_from_slice(&tx.encoded),
    );
    B256 { bytes: root.0 }
}

/// `alloy_primitives::logs_bloom`: the filter takes in the address and the topics of each log,
/// and nothing else.
#[verifier::external_body]
fn logs_bloom(logs: &Vec<Log>) -> (r: Bloom)
    ensures
        r == logs_bloom_of(bloom_inputs(log_views(logs@))),
{
    let logs: Vec<alloy_primitives::Log> = logs.iter().map(|log| {
        let topics = log.topics.iter().map(|topic| topic.bytes.into()).collect();
        alloy_primitives::Log::new_unchecked(
            log.address.bytes.into(),
            topics,
            log.data.clone().into(),
        )
    }).collect();
    Bloom { bytes: alloy_primitives::logs_bloom(&logs).0.0 }
}

/// The bytes of the hash of an empty list of ommers.
pub open spec fn no_ommers_hash() -> Seq<u8> {
    seq![
        0x1du8, 0xcc, 0x4d, 0xe8, 0xde, 0xc7, 0x5d, 0x7a, 0xab, 0x85, 0xb5, 0x67, 0xb6, 0xcc, 0xd4,
        0x1a, 0xd3, 0x12, 0x45, 0x1b, 0x94, 0x8a, 0x74, 0x13, 0xf0, 0xa1, 0x42, 0xfd, 0x40, 0xd4,
        0x93, 0x47,
    ]
}

/// `alloy_consensus::EMPTY_OMMER_ROOT_HASH`: the hash of an empty list of ommers.
#[verifier::external_body]
fn empty_ommer_root_hash() -> (r: B256)
    ensures
        r.bytes@ == no_ommers_hash(),
{
    B256 { bytes: alloy_consensus::EMPTY_OMMER_ROOT_HASH.0 }
}

/// `alloy_eips::merge::BEACON_NONCE`: the nonce of every block since the merge, zero.
#[verifier::external_body]
fn beacon_nonce() -> (r: u64)
    ensures
        r == 0,
{
    alloy_eips::merge::BEACON_NONCE
}

/// `alloy_consensus::Header::hash_slow`: the hash depends on the fields of the header alone. The
/// header has no ommers, no difficulty, no nonce and no requests, which are the defaults of
/// `alloy_consensus::Header`.
#[verifier::external_body]
fn hash_slow(h: &Header) -> (r: B256)
    requires
        h.ommers_hash.bytes@ == no_ommers_hash(),
        h.difficulty@ == 0,
        h.nonce == 0,
        h.requests_hash is None,
    ensures
        r == header_hash(h@),
{
    B256 { bytes: *ConsensusHeader {
        parent_hash: h.parent_hash.bytes.into(), beneficiary: h.beneficiary.bytes.into(),
        state_root: h.state_root.bytes.into(), receipts_root: h.receipts_root.bytes.into(),
        transactions_root: h.transactions_root.bytes.into(), number: h.number,
        logs_bloom: h.logs_bloom.bytes.into(), mix_hash: h.mix_hash.bytes.into(),
        gas_limit: h.gas_limit, gas_used: h.gas_used, timestamp: h.timestamp,
        extra_data: h.extra_data.clone().into(), base_fee_per_gas: h.base_fee_per_gas,
        withdrawals_root: h.withdrawals_root.map(|root| root.bytes.into()),
        blob_gas_used: h.blob_gas_used, excess_blob_gas: h.excess_blob_gas,
        parent_beacon_block_root: h.parent_beacon_block_root.map(|root| root.bytes.into()),
        ..Default::default()
    }.hash_slow() }
}

/// What an optional list of withdrawals holds.
pub open spec fn withdrawals_view(withdrawals: Option<Vec<Withdrawal>>) -> Option<Seq<Withdrawal>> {
    match withdrawals {
        Some(withdrawals) => Some(withdrawals@),
        None => None,
    }
}

/// What is computed of the transactions of a block, their receipts and the state after them.
#[derive(Clone, Copy, Debug, PartialEq, Eq)]
pub struct BlockRoots {
    pub state_root: B256,
    pub transactions_root: B256,
    pub receipts_root: B256,
    pub withdrawals_root: Option<B256>,
    pub logs_bloom: Bloom,
}

/// `header` is that of the block that `ctx` describes, whose transactions used `gas_used`, with
/// the given roots.
pub open spec fn is_header(
    header: HeaderView,
    ctx: OpPayloadBuilderCtx,
    gas_used: u64,
    roots: BlockRoots,
) -> bool {
    let attributes = ctx.config.attributes@;
    let blob_field = if active_at(ctx.chain_spec.ecotone, ctx.timestamp()) {
        Some(0u64)
    } else {
        None
    };
    &&& header.ommers_hash.bytes@ == no_ommers_hash()
    &&& ctx.spec_extra_data() matches Ok(extra_data) && header == HeaderView {
        parent_hash: ctx.config.parent_header.hash,
        ommers_hash: header.ommers_hash,
        beneficiary: ctx.initialized_block_env.coinbase,
        state_root: roots.state_root,
        transactions_root: roots.transactions_root,
        receipts_root: roots.receipts_root,
        logs_bloom: roots.logs_bloom,
        difficulty: 0,
        number: (ctx.config.parent_header.header.number + 1) as u64,
        gas_limit: ctx.spec_block_gas_limit(),
        gas_used,
        timestamp: attributes.timestamp,
        extra_data,
        mix_hash: attributes.prev_randao,
        nonce: 0,
        base_fee_per_gas: Some(ctx.spec_base_fee()),
        withdrawals_root: roots.withdrawals_root,
        blob_gas_used: blob_field,
        excess_blob_gas: blob_field,
        parent_beacon_block_root: attributes.parent_beacon_block_root,
        requests_hash: None,
    }
}

/// Creates the header of the block that the context describes. Fails where the block's extra data
/// cannot be had.
pub fn block_header(ctx: &OpPayloadBuilderCtx, gas_used: u64, roots: BlockRoots) -> (r: Result<
    Header,
    PayloadBuilderError,
>)
    requires
        ctx.wf(),
        ctx.config.parent_header.header.number < u64::MAX,
    ensures
        match ctx.spec_extra_data() {
            Err(err) => r == Err::<Header, PayloadBuilderError>(err),
            Ok(_) => r matches Ok(header) && is_header(header@, *ctx, gas_used, roots),
        },
{
    // Blob transactions have no place on Optimism. The fields must be there or not, by hardfork,
    // for the block hash to match.
    let (excess_blob_gas, blob_gas_used) = ctx.blob_fields();
    let extra_data = match ctx.extra_data() {
        Ok(extra_data) => extra_data,
        Err(err) => {
            return Err(err);
        },
    };
    Ok(
        Header {
            parent_hash: ctx.parent().hash,
            ommers_hash: empty_ommer_root_hash(),
            beneficiary: ctx.initialized_block_env.coinbase,
            state_root: roots.state_root,
            transactions_root: roots.transactions_root,
            receipts_root: roots.receipts_root,
            logs_bloom: roots.logs_bloom,
            difficulty: U256::zero(),
            number: ctx.parent().header.number + 1,
            gas_limit: ctx.block_gas_limit(),
            gas_used,
            timestamp: ctx.attributes().payload_attributes.timestamp,
            extra_data,
            mix_hash: ctx.attributes().payload_attributes.prev_randao,
            nonce: beacon_nonce(),
            base_fee_per_gas: Some(ctx.base_fee()),
            withdrawals_root: roots.withdrawals_root,
            blob_gas_used,
            excess_blob_gas,
            parent_beacon_block_root: ctx.attributes().payload_attributes.parent_beacon_block_root,
            requests_hash: None,
        },
    )
}

/// The roots of a block with the given transactions and receipts: those that the node computed,
/// and those of the transactions and their logs.
pub open spec fn block_roots(
    info: InfoView,
    withdrawals_root: Option<B256>,
    roots: StateRoots,
) -> BlockRoots {
    BlockRoots {
        state_root: roots.state_root,
        transactions_root: ordered_trie_root(encodings(info.transactions)),
        receipts_root: roots.receipts_root,
        withdrawals_root,
        logs_bloom: logs_bloom_of(bloom_inputs(block_logs(info.receipts))),
    }
}

/// `block` is the sealed block that `ctx` describes: its header is that of the transactions,
/// receipts and roots given, and its hash is that of the header; its body has these transactions,
/// no ommers, and the withdrawals given.
pub open spec fn is_sealed_block(
    block: SealedBlock,
    ctx: OpPayloadBuilderCtx,
    info: InfoView,
    withdrawals_root: Option<B256>,
    roots: StateRoots,
    withdrawals: Option<Seq<Withdrawal>>,
) -> bool {
    &&& is_header(
        block.header.header@,
        ctx,
        info.cumulative_gas_used,
        block_roots(info, withdrawals_root, roots),
    )
    &&& block.header.hash == header_hash(block.header.header@)
    &&& tx_views(block.body.transactions@) == info.transactions
    &&& block.body.ommers@.len() == 0
    &&& withdrawals_view(block.body.withdrawals) == withdrawals
}

/// Seals the block that the context describes with the given transactions, receipts and roots.
/// Fails where the block's extra data cannot be had.
pub fn seal_block(
    ctx: &OpPayloadBuilderCtx,
    transactions: Vec<OpTransactionSigned>,
    receipts: &Vec<OpReceipt>,
    gas_used: u64,
    withdrawals_root: Option<B256>,
    roots: StateRoots,
    withdrawals: Option<Vec<Withdrawal>>,
) -> (r: Result<SealedBlock, PayloadBuilderError>)
    requires
        ctx.wf(),
        ctx.config.parent_header.header.number < u64::MAX,
    ensures
        match ctx.spec_extra_data() {
            Err(err) => r == Err::<SealedBlock, PayloadBuilderError>(err),
            Ok(_) => r matches Ok(block) && forall|info: InfoView|
                info.transactions == tx_views(transactions@) && info.receipts == receipt_views(
                    receipts@,
                ) && info.cumulative_gas_used == gas_used ==> #[trigger] is_sealed_block(
                    block,
                    *ctx,
                    info,
                    withdrawals_root,
                    roots,
                    withdrawals_view(withdrawals),
                ),
        },
{
    let roots = BlockRoots {
        state_root: roots.state_root,
        transactions_root: calculate_transaction_root(&transactions),
        receipts_root: roots.receipts_root,
        withdrawals_root,
        logs_bloom: logs_bloom(&collect_logs(receipts)),
    };
    let header = match block_header(ctx, gas_used, roots) {
        Ok(header) => header,
        Err(err) => {
            return Err(err);
        },
    };
    let hash = hash_slow(&header);
    Ok(
        SealedBlock {
            header: SealedHeader { header, hash },
            body: BlockBody { transactions, ommers: Vec::new(), withdrawals },
        },
    )
}

/// `payload` answers the job of `ctx` with the sealed block of the given transactions, receipts
/// and roots, and reports their fees.
pub open spec fn is_payload(
    payload: OpBuiltPayload,
    ctx: OpPayloadBuilderCtx,
    info: InfoView,
    withdrawals_root: Option<B256>,
    roots: StateRoots,
    withdrawals: Option<Seq<Withdrawal>>,
) -> bool {
    &&& payload.id == ctx.config.attributes.payload_attributes.id
    &&& is_sealed_block(payload.block, ctx, info, withdrawals_root, roots, withdrawals)
    &&& payload.fees@ == info.total_fees
    &&& payload.chain_spec == ctx.chain_spec
    &&& payload.attributes@ == ctx.config.attributes@
}

/// Builds a payload of the given transactions, receipts, gas and fees, which may grow further. The
/// withdrawals of the payload attributes are in the block in any case, and nothing of the execution
/// goes with the payload.
pub(crate) fn build_growing_payload(
    ctx: &OpPayloadBuilderCtx,
    transactions: &Vec<OpTransactionSigned>,
    receipts: &Vec<OpReceipt>,
    gas_used: u64,
    fees: U256,
    withdrawals_root: Option<B256>,
    roots: StateRoots,
) -> (r: Result<OpBuiltPayload, PayloadBuilderError>)
    requires
        ctx.wf(),
        ctx.config.parent_header.header.number < u64::MAX,
    ensures
        match ctx.spec_extra_data() {
            Err(err) => r == Err::<OpBuiltPayload, PayloadBuilderError>(err),
            Ok(_) => {
                &&& r matches Ok(payload)
                &&& forall|info: InfoView|
                    info.transactions == tx_views(transactions@) && info.receipts == receipt_views(
                        receipts@,
                    ) && info.cumulative_gas_used == gas_used && info.total_fees == fees@
                        ==> #[trigger] is_payload(
                        payload,
                        *ctx,
                        info,
                        withdrawals_root,
                        roots,
                        Some(ctx.config.attributes.payload_attributes.withdrawals@),
                    )
                &&& payload.executed_block is None
            },
        },
{
    let withdrawals = Some(clone_withdrawals(&ctx.attributes().payload_attributes.withdrawals));
    match seal_block(
        ctx,
        clone_transactions(transactions),
        receipts,
        gas_used,
        withdrawals_root,
        roots,
        withdrawals,
    ) {
        Ok(block) => Ok(
            OpBuiltPayload {
                id: ctx.payload_id(),
                block,
                fees,
                chain_spec: ctx.chain_spec,
                attributes: ctx.attributes().clone(),
                executed_block: None,
            },
        ),
        Err(err) => Err(err),
    }
}

/// The withdrawals of the payload attributes, once Shanghai is in force.
pub open spec fn shanghai_withdrawals(ctx: OpPayloadBuilderCtx) -> Option<Seq<Withdrawal>> {
    if active_at(ctx.chain_spec.shanghai, ctx.timestamp()) {
        Some(ctx.config.attributes.payload_attributes.withdrawals@)
    } else {
        None
    }
}

/// Builds the payload on top of the state, whose roots the node has computed. What the node may
/// keep of the execution goes with it: the block and its number, the senders and the receipts.
pub fn create_payload(
    ctx: &OpPayloadBuilderCtx,
    info: ExecutionInfo,
    withdrawals_root: Option<B256>,
    roots: StateRoots,
) -> (r: Result<OpBuiltPayload, PayloadBuilderError>)
    requires
        ctx.wf(),
        ctx.config.parent_header.header.number < u64::MAX,
    ensures
        match ctx.spec_extra_data() {
            Err(err) => r == Err::<OpBuiltPayload, PayloadBuilderError>(err),
            Ok(_) => {
                &&& r matches Ok(payload)
                &&& is_payload(
                    payload,
                    *ctx,
                    info@,
                    withdrawals_root,
                    roots,
                    shanghai_withdrawals(*ctx),
                )
                &&& payload.executed_block matches Some(executed) && {
                    &&& executed.block@ == payload.block@
                    &&& executed.number == ctx.spec_block_number()
                    &&& executed.senders == info.executed_senders
                    &&& executed.receipts == info.receipts
                }
            },
        },
{
    let ghost view = info@;
    let withdrawals = match ctx.withdrawals() {
        Some(withdrawals) => Some(clone_withdrawals(withdrawals)),
        None => None,
    };
    let ghost given = withdrawals_view(withdrawals);
    let block = match seal_block(
        ctx,
        info.executed_transactions,
        &info.receipts,
        info.cumulative_gas_used,
        withdrawals_root,
        roots,
        withdrawals,
    ) {
        Ok(block) => block,
        Err(err) => {
            return Err(err);
        },
    };
    assert(is_sealed_block(block, *ctx, view, withdrawals_root, roots, given));
    let sealed = block.clone();
    Ok(
        OpBuiltPayload {
            id: ctx.payload_id(),
            block,
            fees: info.total_fees,
            chain_spec: ctx.chain_spec,
            attributes: ctx.attributes().clone(),
            executed_block: Some(
                ExecutedBlock {
                    block: sealed,
                    number: ctx.block_number(),
                    senders: info.executed_senders,
                    receipts: info.receipts,
                },
            ),
        },
    )
}

} // verus!
