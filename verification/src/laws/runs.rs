//! What becomes of each transaction of a block, and of each report of the node.

use vstd::prelude::*;

use crate::actions::tx_executor::{
    screen_pool_transaction, screen_sequencer_transaction, settle_pool_failure,
    settle_sequencer_failure, OpTransactionsActions, Origin, PoolDecision, RunAction, RunEvent,
    Stage, TransactionsRun,
};
use crate::builder_flashblocks::DefaultFlashblocksBuilder;
use crate::components::execution_info::{lemma_fees_add_up, ExecutionInfo};
use crate::components::payload_context::OpPayloadBuilderCtx;
use crate::components::tx_executor::ExecutionResult;
use crate::errors::{
    EVMError, InvalidTransaction, OpPayloadBuilderError, OpTxExecutorError, OtherError,
    PayloadBuilderError,
};
use crate::laws::receipts::{
    appends, in_force, is_tip, lemma_records_executed, records, used,
};
use crate::payload_builder;
use crate::payload_builder::screen_batch_transaction;
use crate::payload_builder_vanilla::VanillaOpBuilderStrategy;
use crate::primitives::{receipt_views, tx_views, Address, OpTransactionSigned, Recovered};

verus! {

/// A transaction that a block which has taken up `info` can take from the pool: it is new to the
/// block, fits into the gas that is left, and is neither a blob transaction nor a deposit. Nothing
/// else is asked of it.
pub open spec fn can_be_taken(
    transactions: Seq<OpTransactionSigned>,
    gas_used: u64,
    tx: OpTransactionSigned,
    gas_limit: u64,
) -> bool {
    &&& is_new(transactions, tx)
    &&& gas_used + tx.gas_limit <= gas_limit
    &&& tx.tx_type is Legacy || tx.tx_type is Eip2930 || tx.tx_type is Eip1559
        || tx.tx_type is Eip7702
}

/// No transaction of the block is `tx`.
pub open spec fn is_new(transactions: Seq<OpTransactionSigned>, tx: OpTransactionSigned) -> bool {
    forall|i: int| 0 <= i < transactions.len() ==> (#[trigger] transactions[i])@ != tx@
}

/// A transaction is new to a block exactly where the views of the block's do not contain its own.
pub(crate) proof fn lemma_is_new(transactions: Seq<OpTransactionSigned>, tx: OpTransactionSigned)
    ensures
        is_new(transactions, tx) <==> !tx_views(transactions).contains(tx@),
{
    let views = tx_views(transactions);
    if views.contains(tx@) {
        let i = choose|i: int| 0 <= i < views.len() && views[i] == tx@;
        assert(transactions[i]@ == tx@);
    }
    assert forall|i: int| 0 <= i < transactions.len() && !views.contains(tx@) implies (
    #[trigger] transactions[i])@ != tx@ by {
        assert(views[i] == transactions[i]@);
    }
}

/// The decision on a transaction that the pool offers. It is executed exactly where the job goes on
/// and the block can take it; passed over where the block has it; rejected where it does not fit,
/// or is a blob transaction or a deposit; and a job that is cancelled is ended first of all.
pub open spec fn decides(
    transactions: Seq<OpTransactionSigned>,
    gas_used: u64,
    tx: OpTransactionSigned,
    cancelled: bool,
    gas_limit: u64,
    decision: PoolDecision,
) -> bool {
    &&& decision is Cancelled <==> cancelled
    &&& decision is AlreadyExecuted <==> !cancelled && !is_new(transactions, tx)
    &&& decision is Execute <==> !cancelled && can_be_taken(transactions, gas_used, tx, gas_limit)
}

/// The pool is screened alike for every builder: each transaction that the block can take is
/// executed, whatever its kind and its other fields, and no other is.
pub proof fn law_pool_is_screened(
    info: ExecutionInfo,
    batch_info: payload_builder::ExecutionInfo,
    vanilla: VanillaOpBuilderStrategy,
    flashblocks: DefaultFlashblocksBuilder,
    tx: OpTransactionSigned,
    cancelled: bool,
    gas_limit: u64,
    decision: PoolDecision,
)
    ensures
        call_ensures(screen_pool_transaction, (&info, &tx, cancelled, gas_limit), decision)
            ==> decides(
            info.executed_transactions@,
            info.cumulative_gas_used,
            tx,
            cancelled,
            gas_limit,
            decision,
        ),
        call_ensures(
            <VanillaOpBuilderStrategy as OpTransactionsActions>::screen_pool_transaction,
            (&vanilla, &info, &tx, cancelled, gas_limit),
            decision,
        ) ==> decides(
            info.executed_transactions@,
            info.cumulative_gas_used,
            tx,
            cancelled,
            gas_limit,
            decision,
        ),
        call_ensures(
            <DefaultFlashblocksBuilder as OpTransactionsActions>::screen_pool_transaction,
            (&flashblocks, &info, &tx, cancelled, gas_limit),
            decision,
        ) ==> decides(
            info.executed_transactions@,
            info.cumulative_gas_used,
            tx,
            cancelled,
            gas_limit,
            decision,
        ),
        call_ensures(screen_batch_transaction, (&batch_info, &tx, cancelled, gas_limit), decision)
            ==> decides(
            batch_info.executed_transactions@,
            batch_info.cumulative_gas_used,
            tx,
            cancelled,
            gas_limit,
            decision,
        ),
{
    lemma_is_new(info.executed_transactions@, tx);
    lemma_is_new(batch_info.executed_transactions@, tx);
}

/// Nothing changed but what the run waits for.
pub open spec fn only_stage<Actions>(
    before: TransactionsRun<Actions>,
    after: TransactionsRun<Actions>,
) -> bool {
    after == TransactionsRun { stage: after.stage, ..before }
}

/// Nothing changed but what the run waits for, and the count of transactions.
pub open spec fn only_stage_and_counts<Actions>(
    before: TransactionsRun<Actions>,
    after: TransactionsRun<Actions>,
) -> bool {
    after == TransactionsRun { stage: after.stage, counts: after.counts, ..before }
}

/// A strategy of its own may reject what the block could take. Else it decides alike.
pub proof fn law_strategies_may_only_reject<Actions: OpTransactionsActions>(
    run: &mut TransactionsRun<Actions>,
    tx: Recovered,
    cancelled: bool,
)
    requires
        call_ensures(
            TransactionsRun::<Actions>::on_pool_transaction,
            (run, Some(tx), cancelled),
            (),
        ),
        old(run).stage is Pool,
    ensures
        ({
            let limit = old(run).stage->Pool_gas_limit;
            let info = old(run).info;
            let gas_used = info.cumulative_gas_used;
            let takes = can_be_taken(info.executed_transactions@, gas_used, tx.tx, limit);
            &&& only_stage_and_counts(*old(run), *final(run))
            &&& cancelled ==> final(run).stage == (Stage::Ended { outcome: Ok(Some(())) })
            &&& !cancelled && !is_new(info.executed_transactions@, tx.tx) ==> {
                *final(run) == *old(run)
            }
            &&& !cancelled && is_new(info.executed_transactions@, tx.tx) ==> {
                ||| final(run).stage == (Stage::Invalid {
                    gas_limit: limit,
                    signer: tx.signer,
                    nonce: tx.tx.nonce,
                })
                ||| takes && final(run).stage == (Stage::Transact {
                    origin: Origin::Pool { gas_limit: limit },
                    tx,
                    nonce: None,
                })
            }
        }),
{
    lemma_is_new(old(run).info.executed_transactions@, tx.tx);
}

/// The vanilla strategy executes each transaction of the pool that the block can take, and no
/// other. One that the block has is passed over; any other is marked invalid in the pool.
pub proof fn law_vanilla_takes_what_fits(
    run: &mut TransactionsRun<VanillaOpBuilderStrategy>,
    tx: Recovered,
    cancelled: bool,
)
    requires
        call_ensures(
            TransactionsRun::<VanillaOpBuilderStrategy>::on_pool_transaction,
            (run, Some(tx), cancelled),
            (),
        ),
        old(run).stage is Pool,
        old(run).counts.considered < u64::MAX,
    ensures
        ({
            let limit = old(run).stage->Pool_gas_limit;
            let info = old(run).info;
            let known = !is_new(info.executed_transactions@, tx.tx);
            let fits = can_be_taken(
                info.executed_transactions@,
                info.cumulative_gas_used,
                tx.tx,
                limit,
            );
            &&& only_stage_and_counts(*old(run), *final(run))
            &&& final(run).counts.simulated == old(run).counts.simulated
            &&& final(run).counts.success == old(run).counts.success
            &&& final(run).counts.fail == old(run).counts.fail
            &&& final(run).counts.considered == old(run).counts.considered + if cancelled || known {
                0int
            } else {
                1
            }
            &&& final(run).stage == if cancelled {
                Stage::Ended { outcome: Ok(Some(())) }
            } else if known {
                old(run).stage
            } else if fits {
                Stage::Transact { origin: Origin::Pool { gas_limit: limit }, tx, nonce: None }
            } else {
                Stage::Invalid { gas_limit: limit, signer: tx.signer, nonce: tx.tx.nonce }
            }
        }),
{
    lemma_is_new(old(run).info.executed_transactions@, tx.tx);
}

/// So does the flashblocks strategy.
pub proof fn law_flashblocks_take_what_fits(
    run: &mut TransactionsRun<DefaultFlashblocksBuilder>,
    tx: Recovered,
    cancelled: bool,
)
    requires
        call_ensures(
            TransactionsRun::<DefaultFlashblocksBuilder>::on_pool_transaction,
            (run, Some(tx), cancelled),
            (),
        ),
        old(run).stage is Pool,
        old(run).counts.considered < u64::MAX,
    ensures
        ({
            let limit = old(run).stage->Pool_gas_limit;
            let info = old(run).info;
            let known = !is_new(info.executed_transactions@, tx.tx);
            let fits = can_be_taken(
                info.executed_transactions@,
                info.cumulative_gas_used,
                tx.tx,
                limit,
            );
            &&& only_stage_and_counts(*old(run), *final(run))
            &&& final(run).counts.simulated == old(run).counts.simulated
            &&& final(run).counts.success == old(run).counts.success
            &&& final(run).counts.fail == old(run).counts.fail
            &&& final(run).counts.considered == old(run).counts.considered + if cancelled || known {
                0int
            } else {
                1
            }
            &&& final(run).stage == if cancelled {
                Stage::Ended { outcome: Ok(Some(())) }
            } else if known {
                old(run).stage
            } else if fits {
                Stage::Transact { origin: Origin::Pool { gas_limit: limit }, tx, nonce: None }
            } else {
                Stage::Invalid { gas_limit: limit, signer: tx.signer, nonce: tx.tx.nonce }
            }
        }),
{
    lemma_is_new(old(run).info.executed_transactions@, tx.tx);
}

/// A pool that offers nothing more is done. Where the job is cancelled it ends as such.
pub proof fn law_pool_runs_dry<Actions: OpTransactionsActions>(
    run: &mut TransactionsRun<Actions>,
    cancelled: bool,
)
    requires
        call_ensures(
            TransactionsRun::<Actions>::on_pool_transaction,
            (run, None, cancelled),
            (),
        ),
        old(run).stage is Pool,
    ensures
        only_stage(*old(run), *final(run)),
        cancelled ==> final(run).stage == (Stage::Ended { outcome: Ok(Some(())) }),
        !cancelled ==> final(run).stage == (Stage::Ended { outcome: Ok(None) }),
{
}

/// After a transaction was marked invalid, and after the pool was opened, the pool is asked for the
/// next one, with the same gas limit, and nothing else changed.
pub proof fn law_pool_goes_on<Actions: OpTransactionsActions>(
    run: &mut TransactionsRun<Actions>,
    marked: bool,
)
    requires
        marked ==> old(run).stage is Invalid && call_ensures(
            TransactionsRun::<Actions>::on_marked_invalid,
            (run,),
            (),
        ),
        !marked ==> old(run).stage is PoolOpen && call_ensures(
            TransactionsRun::<Actions>::on_pool_opened,
            (run,),
            (),
        ),
    ensures
        only_stage(*old(run), *final(run)),
        final(run).stage == (Stage::Pool {
            gas_limit: if marked {
                old(run).stage->Invalid_gas_limit
            } else {
                old(run).stage->PoolOpen_gas_limit
            },
        }),
{
}

/// A transaction of the payload attributes is refused exactly where it is a blob transaction.
pub proof fn law_sequencer_is_screened(
    tx: OpTransactionSigned,
    r: Result<(), PayloadBuilderError>,
)
    requires
        call_ensures(screen_sequencer_transaction, (&tx,), r),
    ensures
        r is Err <==> tx.tx_type is Eip4844,
        r matches Err(err) ==> err == PayloadBuilderError::Other(
            OtherError::Op(OpPayloadBuilderError::BlobTransactionRejected),
        ),
{
}

/// What an execution failure leads to. An invalid transaction never ends the attempt; one of the
/// pool is rejected with those that depend on it unless its nonce was too low. Any other failure
/// ends the attempt, and is passed on: that of the EVM as such, that of an account as one of the
/// executor.
pub proof fn law_failures_are_settled(
    err: OpTxExecutorError,
    sequencer: Result<(), PayloadBuilderError>,
    pool: Result<bool, PayloadBuilderError>,
)
    requires
        call_ensures(settle_sequencer_failure, (err,), sequencer),
        call_ensures(settle_pool_failure, (err,), pool),
    ensures
        match err {
            OpTxExecutorError::EVMError(EVMError::Transaction(invalid)) => {
                &&& sequencer is Ok
                &&& pool is Ok
                &&& pool->Ok_0 <==> !(invalid is NonceTooLow)
            },
            OpTxExecutorError::EVMError(err) => {
                &&& sequencer == Err::<(), PayloadBuilderError>(
                    PayloadBuilderError::EvmExecutionError(err),
                )
                &&& pool == Err::<bool, PayloadBuilderError>(
                    PayloadBuilderError::EvmExecutionError(err),
                )
            },
            OpTxExecutorError::AccountLoad(address) => {
                let failed = PayloadBuilderError::Other(
                    OtherError::Executor(OpTxExecutorError::AccountLoad(address)),
                );
                &&& sequencer == Err::<(), PayloadBuilderError>(failed)
                &&& pool == Err::<bool, PayloadBuilderError>(failed)
            },
        },
{
}

/// Where the transactions of the payload attributes stand at place `at`: past the last of them all
/// is well; a blob transaction ends the attempt; any other comes next.
pub open spec fn stands_at<Actions>(run: TransactionsRun<Actions>, at: int) -> bool {
    let txs = run.ctx.config.attributes.transactions@;
    &&& at == txs.len() ==> run.stage == (Stage::Ended { outcome: Ok(None) })
    &&& at < txs.len() && txs[at].tx_type is Eip4844 ==> run.stage == (Stage::Ended {
        outcome: Err(
            PayloadBuilderError::Other(
                OtherError::Op(OpPayloadBuilderError::BlobTransactionRejected),
            ),
        ),
    })
    &&& at < txs.len() && !(txs[at].tx_type is Eip4844) ==> run.stage is Sequencer
}

/// A run begins at the first transaction of the payload attributes, with an empty block.
pub proof fn law_run_begins<Actions: OpTransactionsActions>(
    actions: Actions,
    ctx: OpPayloadBuilderCtx,
    run: TransactionsRun<Actions>,
)
    requires
        call_ensures(
            TransactionsRun::<Actions>::execute_sequencer_transactions,
            (actions, ctx),
            run,
        ),
    ensures
        run.ctx == ctx,
        run.actions == actions,
        run.next_sequencer == 0,
        !run.past_sequencer,
        stands_at(run, 0),
        run.info.executed_transactions@.len() == 0,
        run.info.executed_senders@.len() == 0,
        run.info.receipts@.len() == 0,
        run.info.cumulative_gas_used == 0,
        run.info.total_fees@ == 0,
        run.executor.cumulative_gas_used == 0,
        run.executor.chain_spec == ctx.chain_spec,
        run.executor.payload_timestamp == ctx.config.attributes.payload_attributes.timestamp,
        run.counts.considered == 0,
        run.counts.simulated == 0,
        run.counts.success == 0,
        run.counts.fail == 0,
{
    assert(tx_views(run.info.executed_transactions@).len()
        == run.info.executed_transactions@.len());
    assert(receipt_views(run.info.receipts@).len() == run.info.receipts@.len());
    let txs = run.ctx.config.attributes.transactions@;
    assert(tx_views(txs).len() == txs.len());
    if txs.len() > 0 {
        assert(tx_views(txs)[0] == txs[0]@);
    }
}

/// With its sender known, the transaction in turn is executed next. For a deposit the nonce of the
/// sender is read first, once Regolith is in force. Without its sender the attempt ends.
pub proof fn law_sender_comes_in<Actions: OpTransactionsActions>(
    run: &mut TransactionsRun<Actions>,
    sender: Result<Address, ()>,
)
    requires
        call_ensures(TransactionsRun::<Actions>::on_sender, (run, sender), ()),
        old(run).wf(),
        old(run).stage is Sequencer,
    ensures
        only_stage(*old(run), *final(run)),
        ({
            let tx = old(run).ctx.config.attributes.transactions@[old(run).next_sequencer as int];
            let reads = tx.tx_type is Deposit && in_force(
                old(run).ctx.chain_spec.regolith,
                old(run).ctx.config.attributes.payload_attributes.timestamp,
            );
            match (sender, final(run).stage) {
                (Ok(signer), Stage::Depositor { tx: taken }) => reads && taken.tx@ == tx@
                    && taken.signer == signer,
                (Ok(signer), Stage::Transact { origin, tx: taken, nonce }) => {
                    &&& !reads
                    &&& taken.tx@ == tx@
                    &&& taken.signer == signer
                    &&& origin is Sequencer
                    &&& nonce is None
                },
                (Ok(_), _) => false,
                (Err(_), stage) => stage == (Stage::Ended {
                    outcome: Err(
                        PayloadBuilderError::Other(
                            OtherError::Op(OpPayloadBuilderError::TransactionEcRecoverFailed),
                        ),
                    ),
                }),
            }
        }),
{
    let txs = old(run).ctx.config.attributes.transactions@;
    let at = old(run).next_sequencer as int;
    assert(tx_views(txs)[at] == txs[at]@);
}

/// With the nonce of its sender, a deposit is executed next. Without it the attempt ends.
pub proof fn law_depositor_comes_in<Actions: OpTransactionsActions>(
    run: &mut TransactionsRun<Actions>,
    tx: Recovered,
    nonce: Result<u64, ()>,
)
    requires
        call_ensures(TransactionsRun::<Actions>::on_depositor, (run, nonce), ()),
        old(run).stage == (Stage::Depositor { tx }),
    ensures
        only_stage(*old(run), *final(run)),
        match nonce {
            Ok(nonce) => final(run).stage == (Stage::Transact {
                origin: Origin::Sequencer,
                tx,
                nonce: Some(nonce),
            }),
            Err(_) => final(run).stage == (Stage::Ended {
                outcome: Err(
                    PayloadBuilderError::Other(
                        OtherError::Executor(OpTxExecutorError::AccountLoad(tx.signer)),
                    ),
                ),
            }),
        },
{
}

/// What the EVM executed, and what was committed then, is in the block: the transaction with its
/// sender at the end, and a receipt that records what was reported and counts the gas on top of all
/// before. The gas of the block grows by what was used; its fees grow by the tip for that gas where
/// the transaction came from the pool, and not at all else. Then the next transaction comes: that
/// of the sequencer that is next in turn, or another one of the pool; the builder's is the last.
pub proof fn law_execution_is_recorded<Actions: OpTransactionsActions>(
    run: &mut TransactionsRun<Actions>,
    then: &mut TransactionsRun<Actions>,
    origin: Origin,
    tx: Recovered,
    nonce: Option<u64>,
    result: ExecutionResult,
    gas: u64,
    tip: int,
)
    requires
        old(run).wf(),
        old(run).stage == (Stage::Transact { origin, tx, nonce }),
        used(result, gas),
        old(run).info.cumulative_gas_used + gas <= u64::MAX,
        origin is Pool ==> old(run).ctx.initialized_block_env.basefee@ <= tx.tx.max_fee_per_gas,
        origin is Pool ==> is_tip(
            tx.tx@,
            old(run).ctx.initialized_block_env.basefee@ as u64,
            tip,
        ),
        call_ensures(TransactionsRun::<Actions>::on_transacted, (run, Ok(result)), ()),
        *old(then) == *final(run),
        call_ensures(TransactionsRun::<Actions>::on_committed, (then,), ()),
    ensures
        final(run).info == old(run).info,
        final(run).next_sequencer == old(run).next_sequencer,
        appends(old(run).info@.transactions, final(then).info@.transactions),
        final(then).info@.transactions.last() == tx.tx@,
        appends(old(run).info.executed_senders@, final(then).info.executed_senders@),
        final(then).info.executed_senders@.last() == tx.signer,
        appends(old(run).info@.receipts, final(then).info@.receipts),
        records(
            final(then).info.receipts@.last(),
            tx.tx.tx_type,
            result,
            old(run).info.cumulative_gas_used + gas,
            nonce,
            if in_force(
                old(run).ctx.chain_spec.canyon,
                old(run).ctx.config.attributes.payload_attributes.timestamp,
            ) {
                Some(1u64)
            } else {
                None
            },
        ),
        final(then).info.cumulative_gas_used == old(run).info.cumulative_gas_used + gas,
        final(then).executor.cumulative_gas_used == final(then).info.cumulative_gas_used,
        final(then).info.total_fees@ == old(run).info.total_fees@ + if origin is Pool {
            tip * gas
        } else {
            0
        },
        match origin {
            Origin::Sequencer => {
                &&& final(then).next_sequencer == old(run).next_sequencer + 1
                &&& stands_at(*final(then), old(run).next_sequencer + 1)
            },
            Origin::Pool { gas_limit } => {
                &&& final(then).next_sequencer == old(run).next_sequencer
                &&& final(then).stage == (Stage::Pool { gas_limit })
            },
            Origin::Builder => {
                &&& final(then).next_sequencer == old(run).next_sequencer
                &&& final(then).stage == (Stage::BuilderDone { added: true })
            },
        },
        final(then).sequencer_len == old(run).sequencer_len + if origin is Sequencer {
            1int
        } else {
            0
        },
        final(then).past_sequencer == old(run).past_sequencer,
        final(then).ctx == old(run).ctx,
        final(then).actions == old(run).actions,
        final(then).executor.chain_spec == old(run).executor.chain_spec,
        final(then).executor.payload_timestamp == old(run).executor.payload_timestamp,
        final(then).counts.considered == old(run).counts.considered,
        final(then).counts.simulated == old(run).counts.simulated + if origin is Pool {
            1int
        } else {
            0
        },
        final(then).counts.success == old(run).counts.success + if origin is Pool
            && result is Success {
            1int
        } else {
            0
        },
        final(then).counts.fail == old(run).counts.fail + if origin is Pool
            && !(result is Success) {
            1int
        } else {
            0
        },
{
    let base_fee = old(run).ctx.initialized_block_env.basefee@ as u64;
    let executed = old(run).executor.spec_executed(tx@, nonce, result);
    assert(final(then).info@.receipts.last() == final(then).info.receipts@.last()@);
    lemma_records_executed(final(then).info.receipts@.last(), executed);
    assert(final(then).info@.transactions.len() == final(then).info.executed_transactions.len());
    let txs = old(run).ctx.config.attributes.transactions@;
    assert(tx_views(txs).len()
        == old(run).ctx.config.attributes.transactions.len());
    let at = old(run).next_sequencer + 1;
    if at < txs.len() {
        assert(tx_views(txs)[at] == txs[at]@);
    }
    if origin is Pool {
        let paid = tx.tx@.effective_tip_per_gas(base_fee)->0;
        assert(paid == tip);
        lemma_fees_add_up(old(run).info@, paid, gas);
    }
    lemma_fees_add_up(old(run).info@, 0, 0);
}

/// What the EVM refused is not in the block. An invalid transaction of the sequencer is passed over
/// for the next one in turn; one of the pool is passed over where its nonce was too low, and marked
/// invalid else; the builder's own is given up, whatever the reason. Any other failure of the
/// sequencer's or the pool's ends the attempt with what the EVM said.
pub proof fn law_refusal_is_settled<Actions: OpTransactionsActions>(
    run: &mut TransactionsRun<Actions>,
    origin: Origin,
    tx: Recovered,
    nonce: Option<u64>,
    err: EVMError,
)
    requires
        old(run).wf(),
        old(run).stage == (Stage::Transact { origin, tx, nonce }),
        call_ensures(TransactionsRun::<Actions>::on_transacted, (run, Err(err)), ()),
    ensures
        *final(run) == (TransactionsRun {
            stage: final(run).stage,
            next_sequencer: final(run).next_sequencer,
            ..*old(run)
        }),
        match (origin, err) {
            (Origin::Builder, _) => {
                &&& final(run).stage == (Stage::BuilderDone { added: false })
                &&& final(run).next_sequencer == old(run).next_sequencer
            },
            (Origin::Sequencer, EVMError::Transaction(_)) => {
                &&& final(run).next_sequencer == old(run).next_sequencer + 1
                &&& stands_at(*final(run), old(run).next_sequencer + 1)
            },
            (
                Origin::Pool { gas_limit },
                EVMError::Transaction(InvalidTransaction::NonceTooLow { .. }),
            ) => {
                &&& final(run).stage == (Stage::Pool { gas_limit })
                &&& final(run).next_sequencer == old(run).next_sequencer
            },
            (Origin::Pool { gas_limit }, EVMError::Transaction(_)) => {
                &&& final(run).stage == (Stage::Invalid {
                    gas_limit,
                    signer: tx.signer,
                    nonce: tx.tx.nonce,
                })
                &&& final(run).next_sequencer == old(run).next_sequencer
            },
            (_, err) => {
                &&& final(run).stage == (Stage::Ended {
                    outcome: Err(PayloadBuilderError::EvmExecutionError(err)),
                })
                &&& final(run).next_sequencer == old(run).next_sequencer
            },
        },
{
    let txs = old(run).ctx.config.attributes.transactions@;
    assert(tx_views(txs).len()
        == old(run).ctx.config.attributes.transactions.len());
    let at = old(run).next_sequencer + 1;
    if at < txs.len() {
        assert(tx_views(txs)[at] == txs[at]@);
    }
}

/// The pool is opened with the gas limit given, for the block as it is, and the transactions of the
/// pool are counted anew.
pub proof fn law_pool_begins<Actions: OpTransactionsActions>(
    run: &mut TransactionsRun<Actions>,
    gas_limit: u64,
)
    requires
        call_ensures(TransactionsRun::<Actions>::execute_best_transactions, (run, gas_limit), ()),
    ensures
        *final(run) == (TransactionsRun {
            stage: final(run).stage,
            past_sequencer: true,
            counts: final(run).counts,
            ..*old(run)
        }),
        final(run).stage == (Stage::PoolOpen { gas_limit }),
        final(run).past_sequencer,
        final(run).counts.considered == 0,
        final(run).counts.simulated == 0,
        final(run).counts.success == 0,
        final(run).counts.fail == 0,
{
}

/// What the node is asked for is what the run waits for: the sender of the transaction in turn, the
/// nonce of the account in question, the execution of the transaction in hand, its commit, the pool
/// with the fees of the payload, its next transaction, the removal of the invalid one, or the
/// builder's signature.
pub proof fn law_run_asks<Actions: OpTransactionsActions>(
    run: TransactionsRun<Actions>,
    action: RunAction,
)
    requires
        run.wf(),
        call_ensures(TransactionsRun::<Actions>::next, (&run,), action),
    ensures
        match run.stage {
            Stage::Sequencer => action matches RunAction::RecoverSender { tx } && *tx
                == run.ctx.config.attributes.transactions@[run.next_sequencer as int],
            Stage::Depositor { tx } => action matches RunAction::LoadNonce { address } && address
                == tx.signer,
            Stage::Transact { tx, .. } => action matches RunAction::Transact { tx: asked } && *asked
                == tx,
            Stage::Commit { .. } => action is Commit,
            Stage::PoolOpen { .. } => {
                &&& action matches RunAction::OpenPool { attributes }
                &&& attributes.basefee == run.ctx.initialized_block_env.basefee@
                &&& attributes.blob_fee is Some <==> run.ctx.initialized_block_env.blob_gasprice
                    is Some
                &&& attributes.blob_fee matches Some(fee) ==> (
                run.ctx.initialized_block_env.blob_gasprice->0 - fee) % 0x1_0000_0000_0000_0000
                    == 0
            },
            Stage::Pool { .. } => action is NextPoolTransaction,
            Stage::Invalid { signer, nonce, .. } => action == (RunAction::MarkInvalid {
                signer,
                nonce,
            }),
            Stage::BuilderNonce { address, .. } => action == (RunAction::LoadNonce { address }),
            Stage::BuilderSign { tx } => action matches RunAction::SignBuilderTx { tx: asked }
                && *asked == tx,
            Stage::BuilderDone { .. } => action is Done,
            Stage::Ended { .. } => action is Done,
        },
{
}

/// A report is taken up exactly where the run waits for it. An execution can be taken up where the
/// gas of the block still fits 64 bits and the sender of a pool transaction pays the base fee; a
/// transaction of the pool unless its gas limit cannot even be added to the gas of the block.
pub proof fn law_run_takes_reports<Actions: OpTransactionsActions>(
    run: TransactionsRun<Actions>,
    event: RunEvent,
    accepted: bool,
    gas: u64,
)
    requires
        run.wf(),
        event matches RunEvent::Transacted(Ok(result)) ==> used(result, gas),
        call_ensures(TransactionsRun::<Actions>::can_accept, (&run, &event), accepted),
    ensures
        accepted <==> match event {
            RunEvent::Sender(_) => run.stage is Sequencer,
            RunEvent::Nonce(_) => run.stage is Depositor || run.stage is BuilderNonce,
            RunEvent::Transacted(Err(_)) => run.stage is Transact,
            RunEvent::Transacted(Ok(_)) => {
                &&& run.stage matches Stage::Transact { origin, tx, .. }
                &&& run.info.cumulative_gas_used + gas <= u64::MAX
                &&& origin is Pool ==> run.ctx.initialized_block_env.basefee@
                    <= tx.tx.max_fee_per_gas
            },
            RunEvent::Committed => run.stage is Commit,
            RunEvent::PoolOpened => run.stage is PoolOpen,
            RunEvent::PoolTransaction { tx: None, .. } => run.stage is Pool,
            RunEvent::PoolTransaction { tx: Some(tx), cancelled } => {
                &&& run.stage is Pool
                &&& cancelled || !is_new(run.info.executed_transactions@, tx.tx) || {
                    &&& run.counts.considered < u64::MAX
                    &&& run.info.cumulative_gas_used + tx.tx.gas_limit <= u64::MAX
                }
            },
            RunEvent::MarkedInvalid => run.stage is Invalid,
            RunEvent::Signed(Err(_)) => run.stage is BuilderSign,
            RunEvent::Signed(Ok(signed)) => {
                &&& run.stage matches Stage::BuilderSign { tx }
                &&& signed.tx.tx_type is Eip1559
                &&& signed.tx.nonce == tx.nonce
                &&& signed.tx.gas_limit == tx.gas_limit
                &&& signed.tx.max_fee_per_gas == tx.max_fee_per_gas
                &&& signed.tx.max_priority_fee_per_gas == Some(tx.max_priority_fee_per_gas)
                &&& run.ctx.builder_signer is Some
                &&& signed.signer.bytes@ == run.ctx.builder_signer->0.address.bytes@
            },
        },
{
    if let RunEvent::PoolTransaction { tx: Some(tx), .. } = event {
        lemma_is_new(run.info.executed_transactions@, tx.tx);
    }
}

/// A report is handed to the step that it is meant for.
pub proof fn law_reports_reach_their_step<Actions: OpTransactionsActions>(
    run: TransactionsRun<Actions>,
    event: RunEvent,
    next: TransactionsRun<Actions>,
)
    requires
        run.wf(),
        run.accepts(event),
        exists|at: &mut TransactionsRun<Actions>|
            *at == run && *final(at) == next && #[trigger] call_ensures(
                TransactionsRun::<Actions>::step,
                (at, event),
                (),
            ),
    ensures
        match event {
            RunEvent::Sender(sender) => run.sender_step(sender, next),
            RunEvent::Nonce(nonce) => {
                &&& run.stage is Depositor ==> run.depositor_step(nonce, next)
                &&& run.stage is BuilderNonce ==> run.builder_nonce_step(nonce, next)
            },
            RunEvent::Transacted(outcome) => run.transacted_step(outcome, next),
            RunEvent::Committed => run.committed_step(next),
            RunEvent::PoolOpened => run.pool_opened_step(next),
            RunEvent::PoolTransaction { tx, cancelled } => run.pool_transaction_step(
                tx,
                cancelled,
                next,
            ),
            RunEvent::MarkedInvalid => run.marked_invalid_step(next),
            RunEvent::Signed(signed) => run.builder_signed_step(signed, next),
        },
{
}

} // verus!
