//! What a payload holds: the block of the transactions that were executed, sealed.

use vstd::prelude::*;

use crate::actions::payload::{
    bloom_inputs, create_payload, encodings, header_hash, logs_bloom_of, no_ommers_hash,
    ordered_trie_root, OpBuiltPayload, StateRoots,
};
use crate::builder_flashblocks;
use crate::components::execution_info::ExecutionInfo;
use crate::components::payload_context::OpPayloadBuilderCtx;
use crate::errors::PayloadBuilderError;
use crate::laws::receipts::in_force;
use crate::payload_builder;
use crate::primitives::{
    block_logs, receipt_views, tx_views, OpReceipt, OpTransactionSigned, B256,
};

verus! {

/// The payload answers the job of `ctx` with the block of these transactions and receipts: each
/// field of the header is what it is named for, the hash is that of the header, and the body has
/// the transactions, each in its place, and no ommers.
pub open spec fn holds_block(
    payload: OpBuiltPayload,
    ctx: OpPayloadBuilderCtx,
    transactions: Seq<OpTransactionSigned>,
    receipts: Seq<OpReceipt>,
    gas_used: u64,
    withdrawals_root: Option<B256>,
    roots: StateRoots,
) -> bool {
    let header = payload.block.header.header;
    let body = payload.block.body;
    let attributes = ctx.config.attributes.payload_attributes;
    let ecotone = in_force(ctx.chain_spec.ecotone, attributes.timestamp);
    &&& payload.id == attributes.id
    &&& payload.chain_spec == ctx.chain_spec
    &&& payload.attributes@ == ctx.config.attributes@
    &&& header.parent_hash == ctx.config.parent_header.hash
    &&& header.number == ctx.config.parent_header.header.number + 1
    &&& header.beneficiary == ctx.initialized_block_env.coinbase
    &&& header.timestamp == attributes.timestamp
    &&& header.mix_hash == attributes.prev_randao
    &&& header.parent_beacon_block_root == attributes.parent_beacon_block_root
    &&& header.base_fee_per_gas is Some
    &&& header.base_fee_per_gas->0 == ctx.initialized_block_env.basefee@
    &&& header.gas_used == gas_used
    &&& match ctx.config.attributes.gas_limit {
        Some(limit) => header.gas_limit == limit,
        None => {
            let env = ctx.initialized_block_env.gas_limit@;
            header.gas_limit == env || (header.gas_limit == u64::MAX && header.gas_limit < env)
        },
    }
    &&& header.ommers_hash.bytes@ == no_ommers_hash()
    &&& header.difficulty@ == 0
    &&& header.nonce == 0
    &&& header.requests_hash is None
    &&& header.state_root == roots.state_root
    &&& header.receipts_root == roots.receipts_root
    &&& header.withdrawals_root == withdrawals_root
    &&& header.transactions_root == ordered_trie_root(encodings(tx_views(transactions)))
    &&& header.logs_bloom == logs_bloom_of(bloom_inputs(block_logs(receipt_views(receipts))))
    &&& header.blob_gas_used == header.excess_blob_gas
    &&& header.blob_gas_used is Some <==> ecotone
    &&& header.blob_gas_used matches Some(used) ==> used == 0
    &&& !in_force(ctx.chain_spec.holocene, attributes.timestamp) ==> header.extra_data@.len() == 0
    &&& ctx.spec_extra_data() matches Ok(extra_data) && header.extra_data@ == extra_data
    &&& payload.block.header.hash == header_hash(header@)
    &&& body.ommers@.len() == 0
    &&& body.transactions@.len() == transactions.len()
    &&& forall|i: int|
        0 <= i < transactions.len() ==> (#[trigger] body.transactions@[i])@ == transactions[i]@
}

/// The transactions of a body are the given ones, one for one, where their views are.
pub(crate) proof fn lemma_same_transactions(
    body: Seq<OpTransactionSigned>,
    transactions: Seq<OpTransactionSigned>,
)
    requires
        tx_views(body) == tx_views(transactions),
    ensures
        body.len() == transactions.len(),
        forall|i: int| 0 <= i < transactions.len() ==> (#[trigger] body[i])@ == transactions[i]@,
{
    assert(tx_views(body).len() == body.len());
    assert(tx_views(transactions).len() == transactions.len());
    assert forall|i: int| 0 <= i < transactions.len() implies (#[trigger] body[i])@
        == transactions[i]@ by {
        assert(tx_views(body)[i] == body[i]@);
        assert(tx_views(transactions)[i] == transactions[i]@);
    }
}

/// A payload that is final, or replaced by a better one as a whole, holds the block of all
/// transactions that were executed, and reports their fees. The withdrawals of the attributes are
/// in the block once Shanghai is in force. What the node may keep goes with it: the same block
/// under its number, and the senders and receipts of the transactions. Only for want of the extra
/// data is there none, and then that is the error.
pub proof fn law_payload_holds_block(
    ctx: OpPayloadBuilderCtx,
    info: ExecutionInfo,
    withdrawals_root: Option<B256>,
    roots: StateRoots,
    r: Result<OpBuiltPayload, PayloadBuilderError>,
)
    requires
        ctx.wf(),
        ctx.config.parent_header.header.number < u64::MAX,
        call_ensures(create_payload, (&ctx, info, withdrawals_root, roots), r),
    ensures
        r is Ok <==> ctx.spec_extra_data() is Ok,
        match r {
            Ok(payload) => {
                &&& holds_block(
                    payload,
                    ctx,
                    info.executed_transactions@,
                    info.receipts@,
                    info.cumulative_gas_used,
                    withdrawals_root,
                    roots,
                )
                &&& payload.fees@ == info.total_fees@
                &&& match payload.block.body.withdrawals {
                    Some(withdrawals) => {
                        &&& in_force(
                            ctx.chain_spec.shanghai,
                            ctx.config.attributes.payload_attributes.timestamp,
                        )
                        &&& withdrawals@ == ctx.config.attributes.payload_attributes.withdrawals@
                    },
                    None => !in_force(
                        ctx.chain_spec.shanghai,
                        ctx.config.attributes.payload_attributes.timestamp,
                    ),
                }
                &&& payload.executed_block matches Some(executed)
                &&& executed.block@ == payload.block@
                &&& executed.number == ctx.initialized_block_env.number@
                &&& executed.senders@ == info.executed_senders@
                &&& executed.receipts@ == info.receipts@
            },
            Err(err) => ctx.spec_extra_data() == Err::<Seq<u8>, PayloadBuilderError>(err),
        },
{
    if let Ok(payload) = r {
        lemma_same_transactions(
            payload.block.body.transactions@,
            info.executed_transactions@,
        );
    }
}

/// A payload that may grow further holds the block of all transactions so far, and reports their
/// fees. The withdrawals of the attributes are in the block, and nothing of the execution goes with
/// it.
pub open spec fn holds_growing_block(
    r: Result<OpBuiltPayload, PayloadBuilderError>,
    ctx: OpPayloadBuilderCtx,
    transactions: Seq<OpTransactionSigned>,
    receipts: Seq<OpReceipt>,
    gas_used: u64,
    fees: nat,
    withdrawals_root: Option<B256>,
    roots: StateRoots,
) -> bool {
    &&& r is Ok <==> ctx.spec_extra_data() is Ok
    &&& match r {
        Ok(payload) => {
            &&& holds_block(
                payload,
                ctx,
                transactions,
                receipts,
                gas_used,
                withdrawals_root,
                roots,
            )
            &&& payload.fees@ == fees
            &&& payload.block.body.withdrawals matches Some(withdrawals) && withdrawals@
                == ctx.config.attributes.payload_attributes.withdrawals@
            &&& payload.executed_block is None
        },
        Err(err) => ctx.spec_extra_data() == Err::<Seq<u8>, PayloadBuilderError>(err),
    }
}

/// So it is with flashblocks.
pub proof fn law_flashblock_holds_block(
    ctx: OpPayloadBuilderCtx,
    info: ExecutionInfo,
    withdrawals_root: Option<B256>,
    roots: StateRoots,
    r: Result<OpBuiltPayload, PayloadBuilderError>,
)
    requires
        ctx.wf(),
        ctx.config.parent_header.header.number < u64::MAX,
        call_ensures(
            builder_flashblocks::build_block,
            (&ctx, &info, withdrawals_root, roots),
            r,
        ),
    ensures
        holds_growing_block(
            r,
            ctx,
            info.executed_transactions@,
            info.receipts@,
            info.cumulative_gas_used,
            info.total_fees@,
            withdrawals_root,
            roots,
        ),
{
    if let Ok(payload) = r {
        lemma_same_transactions(
            payload.block.body.transactions@,
            info.executed_transactions@,
        );
    }
}

/// And with a block that is filled batch by batch.
pub proof fn law_batch_block_holds_block(
    ctx: OpPayloadBuilderCtx,
    info: payload_builder::ExecutionInfo,
    withdrawals_root: Option<B256>,
    roots: StateRoots,
    r: Result<OpBuiltPayload, PayloadBuilderError>,
)
    requires
        ctx.wf(),
        ctx.config.parent_header.header.number < u64::MAX,
        call_ensures(payload_builder::build_block, (&ctx, &info, withdrawals_root, roots), r),
    ensures
        holds_growing_block(
            r,
            ctx,
            info.executed_transactions@,
            info.receipts@,
            info.cumulative_gas_used,
            info.total_fees@,
            withdrawals_root,
            roots,
        ),
{
    if let Ok(payload) = r {
        lemma_same_transactions(
            payload.block.body.transactions@,
            info.executed_transactions@,
        );
    }
}

} // verus!
