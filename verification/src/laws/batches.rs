//! What becomes of each transaction of a block that is filled batch by batch.

use vstd::prelude::*;

use crate::actions::tx_executor::{Origin, RunAction, RunEvent};
use crate::components::execution_info::lemma_fees_add_up;
use crate::components::payload_context::OpPayloadBuilderCtx;
use crate::components::tx_executor::ExecutionResult;
use crate::errors::{OpPayloadBuilderError, OtherError, PayloadBuilderError};
use crate::laws::receipts::{appends, inner, is_tip, lemma_has_logs, records, used};
use crate::laws::runs::{can_be_taken, is_new, lemma_is_new};
use crate::payload_builder::{BatchRun, BatchStage};
use crate::primitives::{receipt_views, tx_views, Address, Recovered};

verus! {

/// Where the transactions of the payload attributes stand at place `at`: past the last of them all
/// is well; a blob transaction ends the attempt; any other comes next.
pub open spec fn batch_stands_at(run: BatchRun, at: int) -> bool {
    let txs = run.ctx.config.attributes.transactions@;
    &&& at == txs.len() ==> run.stage == (BatchStage::Ended { outcome: Ok(None) })
    &&& at < txs.len() && txs[at].tx_type is Eip4844 ==> run.stage == (BatchStage::Ended {
        outcome: Err(
            PayloadBuilderError::Other(
                OtherError::Op(OpPayloadBuilderError::BlobTransactionRejected),
            ),
        ),
    })
    &&& at < txs.len() && !(txs[at].tx_type is Eip4844) ==> run.stage is Sequencer
}

/// Nothing changed but what the run waits for.
pub open spec fn only_batch_stage(before: BatchRun, after: BatchRun) -> bool {
    after == BatchRun { stage: after.stage, ..before }
}

/// A run begins at the first transaction of the payload attributes, with an empty block and an
/// executor that has counted nothing.
pub proof fn law_batch_run_begins(ctx: OpPayloadBuilderCtx, run: BatchRun)
    requires
        call_ensures(BatchRun::execute_sequencer_transactions, (ctx,), run),
    ensures
        run.ctx == ctx,
        run.next_sequencer == 0,
        !run.past_sequencer,
        batch_stands_at(run, 0),
        run.info.executed_transactions@.len() == 0,
        run.info.executed_senders@.len() == 0,
        run.info.receipts@.len() == 0,
        run.info.cumulative_gas_used == 0,
        run.info.total_fees@ == 0,
        run.executor.total_gas_used == 0,
        run.executor.base_fee == 0,
{
    assert(tx_views(run.info.executed_transactions@).len()
        == run.info.executed_transactions@.len());
    assert(receipt_views(run.info.receipts@).len() == run.info.receipts@.len());
    let txs = run.ctx.config.attributes.transactions@;
    assert(tx_views(txs).len() == txs.len());
    if txs.len() > 0 {
        assert(tx_views(txs)[0] == txs[0]@);
    }
}

/// A batch of the pool begins with the gas limit given and the block as it is, and with an executor
/// that has counted nothing and reckons tips over the base fee of the block.
pub proof fn law_batch_begins(run: &mut BatchRun, gas_limit: u64)
    requires
        call_ensures(BatchRun::execute_best_transactions, (run, gas_limit), ()),
        old(run).ctx.wf(),
    ensures
        final(run).info == old(run).info,
        final(run).ctx == old(run).ctx,
        final(run).next_sequencer == old(run).next_sequencer,
        final(run).stage == (BatchStage::PoolOpen { gas_limit }),
        final(run).past_sequencer,
        final(run).executor.total_gas_used == 0,
        final(run).executor.base_fee == old(run).ctx.initialized_block_env.basefee@,
{
}

/// With its sender known, the transaction in turn is executed next; for a deposit the nonce of the
/// sender is read first. Without its sender the attempt ends.
pub proof fn law_batch_sender_comes_in(run: &mut BatchRun, sender: Result<Address, ()>)
    requires
        call_ensures(BatchRun::step, (run, RunEvent::Sender(sender)), ()),
        old(run).wf(),
        old(run).stage is Sequencer,
    ensures
        only_batch_stage(*old(run), *final(run)),
        ({
            let tx = old(run).ctx.config.attributes.transactions@[old(run).next_sequencer as int];
            match (sender, final(run).stage) {
                (Ok(signer), BatchStage::Account { tx: taken }) => tx.tx_type is Deposit
                    && taken.tx@ == tx@ && taken.signer == signer,
                (Ok(signer), BatchStage::Execute { origin, tx: taken, account }) => {
                    &&& !(tx.tx_type is Deposit)
                    &&& taken.tx@ == tx@
                    &&& taken.signer == signer
                    &&& origin is Sequencer
                    &&& account is None
                },
                (Ok(_), _) => false,
                (Err(_), stage) => stage == (BatchStage::Ended {
                    outcome: Err(
                        PayloadBuilderError::Other(
                            OtherError::Op(OpPayloadBuilderError::TransactionEcRecoverFailed),
                        ),
                    ),
                }),
            }
        }),
{
    let txs = old(run).ctx.config.attributes.transactions@;
    let at = old(run).next_sequencer as int;
    assert(tx_views(txs)[at] == txs[at]@);
}

/// With the nonce of its sender, a deposit is executed next.
pub proof fn law_batch_account_comes_in(run: &mut BatchRun, tx: Recovered, nonce: u64)
    requires
        call_ensures(BatchRun::step, (run, RunEvent::Nonce(Ok(nonce))), ()),
        old(run).stage == (BatchStage::Account { tx }),
    ensures
        only_batch_stage(*old(run), *final(run)),
        final(run).stage == (BatchStage::Execute {
            origin: Origin::Sequencer,
            tx,
            account: Some(nonce),
        }),
{
}

/// A batch executes each transaction of the pool that the block can take, whatever its kind and its
/// other fields, and no other. One that the block has is passed over; any other is marked invalid
/// in the pool. A cancelled job ends the batch first of all.
pub proof fn law_batch_takes_what_fits(run: &mut BatchRun, tx: Recovered, cancelled: bool)
    requires
        call_ensures(
            BatchRun::step,
            (run, RunEvent::PoolTransaction { tx: Some(tx), cancelled }),
            (),
        ),
        old(run).stage is Pool,
    ensures
        ({
            let limit = old(run).stage->Pool_gas_limit;
            let info = old(run).info;
            let known = !is_new(info.executed_transactions@, tx.tx);
            let fits = can_be_taken(
                info.executed_transactions@,
                info.cumulative_gas_used,
                tx.tx,
                limit,
            );
            &&& only_batch_stage(*old(run), *final(run))
            &&& final(run).stage == if cancelled {
                BatchStage::Ended { outcome: Ok(Some(())) }
            } else if known {
                old(run).stage
            } else if fits {
                BatchStage::Execute {
                    origin: Origin::Pool { gas_limit: limit },
                    tx,
                    account: None,
                }
            } else {
                BatchStage::Invalid { gas_limit: limit, signer: tx.signer, nonce: tx.tx.nonce }
            }
        }),
{
    lemma_is_new(old(run).info.executed_transactions@, tx.tx);
}

/// A pool that offers nothing more is done; where the job is cancelled it ends as such. After a
/// transaction was marked invalid, and after the pool was opened, the pool is asked for the next
/// one.
pub proof fn law_batch_pool_goes_on(run: &mut BatchRun, event: RunEvent)
    requires
        call_ensures(BatchRun::step, (run, event), ()),
        match old(run).stage {
            BatchStage::Pool { .. } => event matches RunEvent::PoolTransaction { tx: None, .. },
            BatchStage::PoolOpen { .. } => event is PoolOpened,
            BatchStage::Invalid { .. } => event is MarkedInvalid,
            _ => false,
        },
    ensures
        only_batch_stage(*old(run), *final(run)),
        final(run).stage == match (old(run).stage, event) {
            (BatchStage::PoolOpen { gas_limit }, _) => BatchStage::Pool { gas_limit },
            (BatchStage::Invalid { gas_limit, .. }, _) => BatchStage::Pool { gas_limit },
            (_, RunEvent::PoolTransaction { cancelled: true, .. }) => BatchStage::Ended {
                outcome: Ok(Some(())),
            },
            _ => BatchStage::Ended { outcome: Ok(None) },
        },
{
}

/// What the EVM executed, and what was committed then, is in the block: the transaction with its
/// sender at the end, and a receipt whose status says whether the transaction succeeded, that has
/// the logs that were reported, and that counts the gas on top of what this batch has used. The gas
/// of the block grows by what was used; its fees grow by the tip for that gas where the transaction
/// came from the pool, and not at all else. Then the next transaction comes.
pub proof fn law_batch_execution_is_recorded(
    run: &mut BatchRun,
    then: &mut BatchRun,
    origin: Origin,
    tx: Recovered,
    account: Option<u64>,
    result: ExecutionResult,
    gas: u64,
    tip: int,
)
    requires
        old(run).wf(),
        old(run).stage == (BatchStage::Execute { origin, tx, account }),
        used(result, gas),
        old(run).info.cumulative_gas_used + gas <= u64::MAX,
        old(run).executor.total_gas_used + gas <= u64::MAX,
        origin is Pool ==> old(run).ctx.initialized_block_env.basefee@ <= tx.tx.max_fee_per_gas,
        origin is Pool ==> is_tip(
            tx.tx@,
            old(run).ctx.initialized_block_env.basefee@ as u64,
            tip,
        ),
        call_ensures(BatchRun::step, (run, RunEvent::Transacted(Ok(result))), ()),
        *old(then) == *final(run),
        call_ensures(BatchRun::step, (then, RunEvent::Committed), ()),
    ensures
        final(run).info == old(run).info,
        final(run).next_sequencer == old(run).next_sequencer,
        appends(old(run).info@.transactions, final(then).info@.transactions),
        final(then).info@.transactions.last() == tx.tx@,
        appends(old(run).info.executed_senders@, final(then).info.executed_senders@),
        final(then).info.executed_senders@.last() == tx.signer,
        appends(old(run).info@.receipts, final(then).info@.receipts),
        records(
            final(then).info.receipts@.last(),
            tx.tx.tx_type,
            result,
            old(run).executor.total_gas_used + gas,
            account,
            None,
        ),
        final(then).ctx == old(run).ctx,
        final(then).past_sequencer == old(run).past_sequencer,
        final(then).executor.base_fee == old(run).executor.base_fee,
        final(then).info.cumulative_gas_used == old(run).info.cumulative_gas_used + gas,
        final(then).executor.total_gas_used == old(run).executor.total_gas_used + gas,
        final(then).info.total_fees@ == old(run).info.total_fees@ + if origin is Pool {
            tip * gas
        } else {
            0
        },
        match origin {
            Origin::Pool { gas_limit } => {
                &&& final(then).next_sequencer == old(run).next_sequencer
                &&& final(then).stage == (BatchStage::Pool { gas_limit })
            },
            _ => {
                &&& final(then).next_sequencer == old(run).next_sequencer + 1
                &&& batch_stands_at(*final(then), old(run).next_sequencer + 1)
            },
        },
{
    let base_fee = old(run).ctx.initialized_block_env.basefee@ as u64;
    let executed = old(run).executor.executed(tx@, account, result);
    let last = final(then).info.receipts@.last();
    assert(final(then).info@.receipts.last() == last@);
    assert(last@ == executed.info().receipt);
    lemma_has_logs(inner(last).logs@, result);
    assert(final(then).info@.transactions.len() == final(then).info.executed_transactions.len());
    let txs = old(run).ctx.config.attributes.transactions@;
    assert(tx_views(txs).len() == old(run).ctx.config.attributes.transactions.len());
    let at = old(run).next_sequencer + 1;
    if at < txs.len() {
        assert(tx_views(txs)[at] == txs[at]@);
    }
    if origin is Pool {
        let paid = tx.tx@.effective_tip_per_gas(base_fee)->0;
        assert(paid == tip);
        lemma_fees_add_up(old(run).info@, paid, gas);
    }
    lemma_fees_add_up(old(run).info@, 0, 0);
}

/// What the node is asked for is what the run waits for.
pub proof fn law_batch_asks(run: BatchRun, action: RunAction)
    requires
        run.wf(),
        call_ensures(BatchRun::next, (&run,), action),
    ensures
        match run.stage {
            BatchStage::Sequencer => action matches RunAction::RecoverSender { tx } && *tx
                == run.ctx.config.attributes.transactions@[run.next_sequencer as int],
            BatchStage::Account { tx } => action matches RunAction::LoadNonce { address } && address
                == tx.signer,
            BatchStage::Execute { tx, .. } => action matches RunAction::Transact { tx: asked }
                && *asked == tx,
            BatchStage::Commit { .. } => action is Commit,
            BatchStage::PoolOpen { .. } => {
                &&& action matches RunAction::OpenPool { attributes }
                &&& attributes.basefee == run.ctx.initialized_block_env.basefee@
                &&& attributes.blob_fee is Some <==> run.ctx.initialized_block_env.blob_gasprice
                    is Some
                &&& attributes.blob_fee matches Some(fee) ==> (
                run.ctx.initialized_block_env.blob_gasprice->0 - fee) % 0x1_0000_0000_0000_0000
                    == 0
            },
            BatchStage::Pool { .. } => action is NextPoolTransaction,
            BatchStage::Invalid { signer, nonce, .. } => action == (RunAction::MarkInvalid {
                signer,
                nonce,
            }),
            BatchStage::Ended { .. } => action is Done,
        },
{
}

/// A report is taken up exactly where the run waits for it, and only what went well: the nonce of
/// an account; an execution where the gas of the block still fits 64 bits and the sender pays the
/// base fee; a transaction of the pool unless its gas limit cannot even be added to the gas of the
/// block.
pub proof fn law_batch_takes_reports(run: BatchRun, event: RunEvent, accepted: bool, gas: u64)
    requires
        run.wf(),
        event matches RunEvent::Transacted(Ok(result)) ==> used(result, gas),
        call_ensures(BatchRun::can_accept, (&run, &event), accepted),
    ensures
        accepted <==> match event {
            RunEvent::Sender(_) => run.stage is Sequencer,
            RunEvent::Nonce(nonce) => run.stage is Account && nonce is Ok,
            RunEvent::Transacted(Err(_)) => false,
            RunEvent::Transacted(Ok(_)) => {
                &&& run.stage matches BatchStage::Execute { tx, .. }
                &&& run.info.cumulative_gas_used + gas <= u64::MAX
                &&& run.past_sequencer ==> run.ctx.initialized_block_env.basefee@
                    <= tx.tx.max_fee_per_gas
            },
            RunEvent::Committed => run.stage is Commit,
            RunEvent::PoolOpened => run.stage is PoolOpen,
            RunEvent::PoolTransaction { tx: None, .. } => run.stage is Pool,
            RunEvent::PoolTransaction { tx: Some(tx), cancelled } => {
                &&& run.stage is Pool
                &&& cancelled || !is_new(run.info.executed_transactions@, tx.tx)
                    || run.info.cumulative_gas_used + tx.tx.gas_limit <= u64::MAX
            },
            RunEvent::MarkedInvalid => run.stage is Invalid,
            RunEvent::Signed(_) => false,
        },
{
    if let RunEvent::PoolTransaction { tx: Some(tx), .. } = event {
        lemma_is_new(run.info.executed_transactions@, tx.tx);
    }
}

} // verus!
