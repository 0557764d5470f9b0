//! A builder of flashblocks that keeps its own books: each batch has an executor that settles the
//! receipts and the fees of its transactions.

use vstd::prelude::*;

use crate::actions::payload::{build_growing_payload, is_payload, OpBuiltPayload, StateRoots};
use crate::actions::pre_block::{PreBlock, PreBlockAction};
use crate::actions::tx_executor::{
    blob_rejected, pool_decision, recover_failed, screen_sequencer_transaction, screen_transaction,
    Origin, PoolDecision, RunAction, RunEvent,
};
use crate::builder_flashblocks::{
    answers, extends, grows, lemma_block_grows, payload_txs, FlashblocksAction, FlashblocksFlow,
    FlashblocksPhase, FlashblocksSchedule, Progress, FLASHBLOCK_PAUSE_MILLIS,
};
use crate::chain::{
    BaseFeeParams, BlockEnv, ChainSpec, Header, NextBlockEnvAttributes,
    OpPayloadBuilderAttributes, PayloadConfig,
};
use crate::components::execution_info::{
    fees_bounded, lemma_fees_add_up, lemma_total_gas_split, total_gas, InfoView,
};
use crate::components::payload_context::OpPayloadBuilderCtx;
use crate::components::payload_transactions::BestPoolTransactions;
use crate::errors::{InternalError, OpPayloadBuilderError, OtherError, PayloadBuilderError};
use crate::payload_builder_vanilla::{payload_context, provider_failed};
use crate::primitives::{
    contains_transaction, receipt_views, tx_views, Address, OpReceipt, OpReceiptView,
    OpTransactionSigned, Recovered, RecoveredView, TxView, B256,
};
use crate::subsequence::lemma_all;
use crate::tx_executor::{ExecutedTx, ExecutedView, Executor, TxExecutionInfo, TxInfoView};
use crate::u256::U256;

verus! {

/// This acts as the container for executed transactions and its byproducts (receipts, gas used)
#[derive(Debug, PartialEq, Eq)]
pub struct ExecutionInfo {
    /// All executed transactions (unrecovered).
    pub executed_transactions: Vec<OpTransactionSigned>,
    /// The recovered senders for the executed transactions.
    pub executed_senders: Vec<Address>,
    /// The transaction receipts
    pub receipts: Vec<OpReceipt>,
    /// All gas used so far
    pub cumulative_gas_used: u64,
    /// Tracks fees from executed mempool transactions
    pub total_fees: U256,
}

impl View for ExecutionInfo {
    type V = InfoView;

    open spec fn view(&self) -> InfoView {
        InfoView {
            transactions: tx_views(self.executed_transactions@),
            senders: self.executed_senders@,
            receipts: receipt_views(self.receipts@),
            cumulative_gas_used: self.cumulative_gas_used,
            total_fees: self.total_fees@,
        }
    }
}

/// What the block takes up of an executed transaction: its fee is tracked only if it comes from the
/// pool.
pub open spec fn tracked_info(origin: Origin, executed: ExecutedView) -> TxInfoView {
    if origin is Pool {
        executed.info()
    } else {
        TxInfoView { fee: 0, ..executed.info() }
    }
}

/// What is held after the block took up one more transaction.
pub open spec fn info_with(info: InfoView, tx: TxInfoView) -> InfoView {
    info.push(RecoveredView { tx: tx.tx, signer: tx.sender }, tx.receipt, tx.gas_used, tx.fee)
}

impl ExecutionInfo {
    /// Create a new instance with allocated slots.
    pub fn with_capacity(capacity: usize) -> (r: ExecutionInfo)
        ensures
            r@ == InfoView::empty(),
            r@.wf(),
    {
        let r = ExecutionInfo {
            executed_transactions: Vec::with_capacity(capacity),
            executed_senders: Vec::with_capacity(capacity),
            receipts: Vec::with_capacity(capacity),
            cumulative_gas_used: 0,
            total_fees: U256::zero(),
        };
        assert(r@.transactions =~= Seq::empty());
        assert(r@.senders =~= Seq::empty());
        assert(r@.receipts =~= Seq::empty());
        r
    }

    /// Takes up an executed transaction.
    pub fn add(&mut self, info: TxExecutionInfo)
        requires
            old(self).cumulative_gas_used + info.gas_used <= u64::MAX,
        ensures
            final(self)@ == info_with(old(self)@, info@),
            old(self)@.wf() ==> final(self)@.wf(),
    {
        let ghost before = *self;
        let ghost taken = info@;
        self.executed_transactions.push(info.tx);
        self.executed_senders.push(info.sender);
        self.receipts.push(info.receipt);
        self.cumulative_gas_used = self.cumulative_gas_used + info.gas_used;
        self.total_fees = self.total_fees.wrapping_add(info.fee);
        assert(self@.transactions =~= before@.transactions.push(taken.tx));
        assert(self@.receipts =~= before@.receipts.push(taken.receipt));
    }

    /// Whether a transaction has been executed already.
    pub fn contains(&self, tx: &OpTransactionSigned) -> (r: bool)
        ensures
            r == self@.transactions.contains(tx@),
    {
        contains_transaction(&self.executed_transactions, tx)
    }
}

/// What is done with a transaction that the pool offers: nothing once the job is cancelled; one
/// that the block already has is passed over; one that does not fit into the gas that is left is
/// rejected, as are blob and deposit transactions, which a block never takes from the pool.
pub fn screen_batch_transaction(
    info: &ExecutionInfo,
    tx: &OpTransactionSigned,
    cancelled: bool,
    gas_limit: u64,
) -> (r: PoolDecision)
    requires
        cancelled || info@.transactions.contains(tx@) || info.cumulative_gas_used + tx.gas_limit
            <= u64::MAX,
    ensures
        r == pool_decision(info@, tx@, cancelled, gas_limit),
{
    screen_transaction(
        &info.executed_transactions,
        info.cumulative_gas_used,
        tx,
        cancelled,
        gas_limit,
    )
}

/// What a run waits for.
#[allow(inconsistent_fields)]
#[derive(Debug, PartialEq, Eq)]
pub enum BatchStage {
    /// The sender of the next sequencer transaction.
    Sequencer,
    /// The nonce of the account that `tx`, a deposit of the sequencer, comes from.
    Account { tx: Recovered },
    /// The execution of `tx`, with the nonce of its depositor where there is one.
    Execute { origin: Origin, tx: Recovered, account: Option<u64> },
    /// The commit of the state changes of a transaction.
    Commit { origin: Origin, executed: ExecutedTx },
    /// Access to the pool.
    PoolOpen { gas_limit: u64 },
    /// The next transaction of the pool.
    Pool { gas_limit: u64 },
    /// The removal of a transaction, and of those that depend on it, from what the pool offers.
    Invalid { gas_limit: u64, signer: Address, nonce: u64 },
    /// Nothing: the transactions are done, or the job was cancelled (`Some(())`), or it failed.
    Ended { outcome: Result<Option<()>, PayloadBuilderError> },
}

/// The execution of the transactions of one block, batch by batch.
pub struct BatchRun {
    pub ctx: OpPayloadBuilderCtx,
    pub executor: Executor,
    pub info: ExecutionInfo,
    pub stage: BatchStage,
    /// Which sequencer transaction comes next, or is being executed.
    pub next_sequencer: usize,
    /// Whether transactions of the pool may have been taken up.
    pub past_sequencer: bool,
    /// The gas that each transaction of the block used.
    pub gas: Ghost<Seq<u64>>,
    /// The place in the block at which the batch of each transaction began.
    pub from: Ghost<Seq<int>>,
    /// The place in the block at which the batch under way began.
    pub batch: Ghost<int>,
}

/// The transactions behind the receipts used the given gas, and each receipt counts the gas of all
/// transactions up to and with its own, from the beginning of its batch on.
pub open spec fn receipts_count_batches(
    receipts: Seq<OpReceiptView>,
    gas: Seq<u64>,
    from: Seq<int>,
) -> bool {
    &&& gas.len() == receipts.len()
    &&& from.len() == receipts.len()
    &&& forall|i: int| 0 <= i < from.len() ==> 0 <= #[trigger] from[i] <= i
    &&& forall|i: int|
        0 <= i < receipts.len() ==> (#[trigger] receipts[i]).cumulative_gas_used == total_gas(
            gas.subrange(from[i], i + 1),
        )
}

/// One more receipt counts the gas of its batch so far and that of its own transaction.
proof fn lemma_receipts_count_batches_push(
    receipts: Seq<OpReceiptView>,
    gas: Seq<u64>,
    from: Seq<int>,
    batch: int,
    receipt: OpReceiptView,
    gas_used: u64,
)
    requires
        receipts_count_batches(receipts, gas, from),
        0 <= batch <= gas.len(),
        receipt.cumulative_gas_used == total_gas(gas.skip(batch)) + gas_used,
    ensures
        receipts_count_batches(receipts.push(receipt), gas.push(gas_used), from.push(batch)),
        total_gas(gas.push(gas_used)) == total_gas(gas) + gas_used,
        total_gas(gas.push(gas_used).skip(batch)) == total_gas(gas.skip(batch)) + gas_used,
{
    let more = gas.push(gas_used);
    let places = from.push(batch);
    assert(more.drop_last() =~= gas);
    assert(more.skip(batch).drop_last() =~= gas.skip(batch));
    assert forall|i: int| 0 <= i < receipts.push(receipt).len() implies (
    #[trigger] receipts.push(receipt)[i]).cumulative_gas_used == total_gas(
        more.subrange(places[i], i + 1),
    ) by {
        if i < receipts.len() {
            assert(0 <= from[i] <= i);
            assert(more.subrange(places[i], i + 1) =~= gas.subrange(from[i], i + 1));
            assert(receipts[i].cumulative_gas_used == total_gas(gas.subrange(from[i], i + 1)));
        } else {
            assert(more.subrange(batch, i + 1) =~= more.skip(batch));
        }
    }
}

impl BatchRun {
    /// The transactions of the payload attributes.
    pub open spec fn sequencer_txs(&self) -> Seq<TxView> {
        tx_views(self.ctx.config.attributes.transactions@)
    }

    /// The base fee that tips are reckoned over: zero for the sequencer's transactions, and that
    /// of the block for those of the pool.
    pub open spec fn tip_base_fee(&self) -> u64 {
        if self.past_sequencer {
            self.ctx.spec_base_fee()
        } else {
            0
        }
    }

    /// `tx` may be executed: it is the sequencer transaction in turn, or a new pool transaction
    /// that fits into the gas limit.
    pub open spec fn admits(&self, origin: Origin, tx: RecoveredView) -> bool {
        &&& tx.tx.tx_type !is Eip4844
        &&& match origin {
            Origin::Sequencer => {
                &&& !self.past_sequencer
                &&& self.next_sequencer < self.sequencer_txs().len()
                &&& tx.tx == self.sequencer_txs()[self.next_sequencer as int]
            },
            Origin::Pool { gas_limit } => {
                &&& self.past_sequencer
                &&& tx.tx.tx_type !is Deposit
                &&& !self.info@.transactions.contains(tx.tx)
                &&& self.info.cumulative_gas_used + tx.tx.gas_limit <= gas_limit
            },
            Origin::Builder => false,
        }
    }

    /// Gas that the executor has counted and the block has not, as the transaction is not
    /// committed yet.
    pub open spec fn pending_gas(&self) -> int {
        match self.stage {
            BatchStage::Commit { executed, .. } => executed@.result.spec_gas_used() as int,
            _ => 0,
        }
    }

    /// The stage fits the rest of the run.
    pub open spec fn stage_wf(&self) -> bool {
        match self.stage {
            BatchStage::Sequencer => {
                &&& !self.past_sequencer
                &&& self.next_sequencer < self.sequencer_txs().len()
                &&& self.sequencer_txs()[self.next_sequencer as int].tx_type !is Eip4844
            },
            BatchStage::Account { tx } => {
                &&& self.admits(Origin::Sequencer, tx@)
                &&& tx@.tx.tx_type is Deposit
            },
            BatchStage::Execute { origin, tx, account } => {
                &&& self.admits(origin, tx@)
                &&& account is Some <==> Executor::spec_depositor(tx@) is Some
            },
            BatchStage::Commit { origin, executed } => {
                &&& self.admits(origin, executed@.tx)
                &&& executed@.cumulative_gas_used == self.executor.total_gas_used
                &&& executed@.base_fee == self.tip_base_fee()
                &&& self.info.cumulative_gas_used + executed@.result.spec_gas_used() <= u64::MAX
            },
            BatchStage::PoolOpen { .. }
            | BatchStage::Pool { .. }
            | BatchStage::Invalid { .. } => self.past_sequencer,
            BatchStage::Ended { outcome } => outcome is Ok && !self.past_sequencer ==> {
                &&& outcome == Ok::<Option<()>, PayloadBuilderError>(None)
                &&& self.next_sequencer == self.sequencer_txs().len()
            },
        }
    }

    /// What holds between any two steps of a run:
    ///
    /// - the sequencer's transactions come first, all of them, in the order of the attributes;
    /// - no block holds a blob transaction, and none but the sequencer brings in deposits;
    /// - each receipt counts the gas of all transactions up to and with its own, from the beginning
    ///   of its batch on, and the block that of all its transactions; the sequencer's are the first
    ///   batch;
    /// - the fees are those of the pool, and never wrap around.
    pub open spec fn wf(&self) -> bool {
        let info = self.info@;
        &&& self.ctx.wf()
        &&& info.wf()
        &&& self.executor.base_fee == self.tip_base_fee()
        &&& self.next_sequencer <= self.sequencer_txs().len()
        &&& self.next_sequencer <= info.transactions.len()
        &&& if self.past_sequencer {
            self.next_sequencer == self.sequencer_txs().len()
        } else {
            self.next_sequencer == info.transactions.len()
        }
        &&& self.sequencer_txs().take(self.next_sequencer as int).is_prefix_of(info.transactions)
        &&& forall|i: int|
            0 <= i < info.transactions.len() ==> (
            #[trigger] info.transactions[i]).tx_type !is Eip4844
        &&& forall|i: int|
            self.next_sequencer <= i < info.transactions.len() ==> (
            #[trigger] info.transactions[i]).tx_type !is Deposit
        &&& 0 <= self.batch@ <= info.transactions.len()
        &&& self.past_sequencer ==> self.next_sequencer <= self.batch@
        &&& !self.past_sequencer ==> self.batch@ == 0
        &&& self.executor.total_gas_used == total_gas(self.gas@.skip(self.batch@))
            + self.pending_gas()
        &&& receipts_count_batches(info.receipts, self.gas@, self.from@)
        &&& forall|i: int|
            0 <= i < info.transactions.len() ==> if i < self.next_sequencer {
                #[trigger] self.from@[i] == 0
            } else {
                self.next_sequencer <= self.from@[i]
            }
        &&& info.cumulative_gas_used == total_gas(self.gas@)
        &&& fees_bounded(info)
        &&& !self.past_sequencer ==> info.total_fees == 0
        &&& self.stage_wf()
    }

    /// Where the sequencer's transactions stand at place `at`: at the next one, or at one that
    /// the block cannot take, or at the end of the list.
    pub open spec fn sequencer_stage(&self, at: int) -> BatchStage {
        if at >= self.sequencer_txs().len() {
            BatchStage::Ended { outcome: Ok(None) }
        } else if self.sequencer_txs()[at].tx_type is Eip4844 {
            BatchStage::Ended { outcome: Err(blob_rejected()) }
        } else {
            BatchStage::Sequencer
        }
    }

    /// Finds where the sequencer's transactions stand.
    fn find_sequencer_stage(&self) -> (r: BatchStage)
        requires
            self.next_sequencer <= self.sequencer_txs().len(),
        ensures
            r == self.sequencer_stage(self.next_sequencer as int),
    {
        let txs = &self.ctx.config.attributes.transactions;
        if self.next_sequencer >= txs.len() {
            BatchStage::Ended { outcome: Ok(None) }
        } else {
            match screen_sequencer_transaction(&txs[self.next_sequencer]) {
                Ok(()) => BatchStage::Sequencer,
                Err(err) => BatchStage::Ended { outcome: Err(err) },
            }
        }
    }

    /// Begins to execute all sequencer transactions that are in the payload attributes.
    pub fn execute_sequencer_transactions(ctx: OpPayloadBuilderCtx) -> (r: BatchRun)
        requires
            ctx.wf(),
        ensures
            r.wf(),
            r.ctx == ctx,
            r.executor == (Executor { total_gas_used: 0, base_fee: 0 }),
            r.info@ == InfoView::empty(),
            r.stage == r.sequencer_stage(0),
            r.next_sequencer == 0,
            !r.past_sequencer,
            r.gas@ == Seq::<u64>::empty(),
            r.from@ == Seq::<int>::empty(),
            r.batch@ == 0,
    {
        let info = ExecutionInfo::with_capacity(ctx.attributes().transactions.len());
        let mut run = BatchRun {
            ctx,
            executor: Executor::new(0),
            info,
            stage: BatchStage::Ended { outcome: Ok(None) },
            next_sequencer: 0,
            past_sequencer: false,
            gas: Ghost(Seq::empty()),
            from: Ghost(Seq::empty()),
            batch: Ghost(0),
        };
        run.stage = run.find_sequencer_stage();
        assert(run.sequencer_txs().take(0) =~= run.info@.transactions);
        assert(run.gas@.skip(0) =~= Seq::empty());
        run
    }

    /// The run is done, and nothing failed.
    pub open spec fn ended_well(&self) -> bool {
        self.stage matches BatchStage::Ended { outcome } && outcome is Ok
    }

    /// The run takes transactions from the pool, up to `limit`.
    pub open spec fn in_pool(&self, limit: int) -> bool {
        match self.stage {
            BatchStage::PoolOpen { gas_limit } => gas_limit == limit,
            BatchStage::Pool { gas_limit } => gas_limit == limit,
            BatchStage::Invalid { gas_limit, .. } => gas_limit == limit,
            BatchStage::Execute { origin: Origin::Pool { gas_limit }, .. } => gas_limit == limit,
            BatchStage::Commit { origin: Origin::Pool { gas_limit }, .. } => gas_limit == limit,
            _ => false,
        }
    }

    /// Begins to execute the best transactions of the pool, once the transactions before are done,
    /// and takes them up to `batch_gas_limit`. A new executor does so, whose count of gas begins
    /// with this batch, and which reckons tips over the base fee of the block.
    pub fn execute_best_transactions(&mut self, batch_gas_limit: u64)
        requires
            old(self).wf(),
            old(self).ended_well(),
        ensures
            final(self).wf(),
            *final(self) == (BatchRun {
                executor: Executor { total_gas_used: 0, base_fee: old(self).ctx.spec_base_fee() },
                stage: BatchStage::PoolOpen { gas_limit: batch_gas_limit },
                past_sequencer: true,
                batch: Ghost(old(self).info@.transactions.len() as int),
                ..*old(self)
            }),
    {
        self.executor = Executor::new(self.ctx.base_fee());
        self.batch = Ghost(self.info@.transactions.len() as int);
        assert(self.gas@.skip(self.batch@) =~= Seq::empty());
        self.past_sequencer = true;
        self.stage = BatchStage::PoolOpen { gas_limit: batch_gas_limit };
    }

    /// `action` is what the node is asked to do next.
    pub open spec fn asks(&self, action: RunAction) -> bool {
        match self.stage {
            BatchStage::Sequencer => action == (RunAction::RecoverSender {
                tx: &self.ctx.config.attributes.transactions@[self.next_sequencer as int],
            }),
            BatchStage::Account { tx } => action == (RunAction::LoadNonce { address: tx.signer }),
            BatchStage::Execute { tx, .. } => action == (RunAction::Transact { tx: &tx }),
            BatchStage::Commit { .. } => action is Commit,
            BatchStage::PoolOpen { .. } => action matches RunAction::OpenPool { attributes }
                && self.ctx.spec_best_transaction_attributes(attributes),
            BatchStage::Pool { .. } => action is NextPoolTransaction,
            BatchStage::Invalid { signer, nonce, .. } => action == (RunAction::MarkInvalid {
                signer,
                nonce,
            }),
            BatchStage::Ended { .. } => action is Done,
        }
    }

    /// What the node is asked to do next.
    pub fn next(&self) -> (r: RunAction<'_>)
        requires
            self.wf(),
        ensures
            self.asks(r),
    {
        match &self.stage {
            BatchStage::Sequencer => RunAction::RecoverSender {
                tx: &self.ctx.config.attributes.transactions[self.next_sequencer],
            },
            BatchStage::Account { tx } => RunAction::LoadNonce { address: tx.signer },
            BatchStage::Execute { tx, .. } => RunAction::Transact { tx },
            BatchStage::Commit { .. } => RunAction::Commit,
            BatchStage::PoolOpen { .. } => RunAction::OpenPool {
                attributes: BestPoolTransactions.best_transactions(
                    self.ctx.best_transaction_attributes(),
                ),
            },
            BatchStage::Pool { .. } => RunAction::NextPoolTransaction,
            BatchStage::Invalid { signer, nonce, .. } => RunAction::MarkInvalid {
                signer: *signer,
                nonce: *nonce,
            },
            BatchStage::Ended { .. } => RunAction::Done,
        }
    }

    /// `event` is the outcome of what the run waits for, and the run can take it up: an account
    /// could be loaded; the EVM executed the transaction, whose gas the block can count and whose
    /// sender pays at least the base fee; or the gas limit of a new transaction of the pool can be
    /// added to the gas of the block.
    pub open spec fn accepts(&self, event: RunEvent) -> bool {
        match (self.stage, event) {
            (BatchStage::Sequencer, RunEvent::Sender(_)) => true,
            (BatchStage::Account { .. }, RunEvent::Nonce(nonce)) => nonce is Ok,
            (BatchStage::Execute { tx, .. }, RunEvent::Transacted(Ok(result))) => {
                &&& self.info.cumulative_gas_used + result.spec_gas_used() <= u64::MAX
                &&& tx@.tx.effective_tip_per_gas(self.tip_base_fee()) is Some
            },
            (BatchStage::Commit { .. }, RunEvent::Committed) => true,
            (BatchStage::PoolOpen { .. }, RunEvent::PoolOpened) => true,
            (BatchStage::Pool { .. }, RunEvent::PoolTransaction { tx: Some(tx), cancelled }) =>
                cancelled || self.info@.transactions.contains(tx@.tx)
                    || self.info.cumulative_gas_used + tx.tx.gas_limit <= u64::MAX,
            (BatchStage::Pool { .. }, RunEvent::PoolTransaction { tx: None, .. }) => true,
            (BatchStage::Invalid { .. }, RunEvent::MarkedInvalid) => true,
            _ => false,
        }
    }

    /// Whether `event` is the outcome of what the run waits for, and the run can take it up.
    pub fn can_accept(&self, event: &RunEvent) -> (r: bool)
        requires
            self.wf(),
        ensures
            r == self.accepts(*event),
    {
        match (&self.stage, event) {
            (BatchStage::Sequencer, RunEvent::Sender(_)) => true,
            (BatchStage::Account { .. }, RunEvent::Nonce(nonce)) => nonce.is_ok(),
            (BatchStage::Execute { tx, .. }, RunEvent::Transacted(Ok(result))) => result.gas_used()
                <= u64::MAX - self.info.cumulative_gas_used && tx.tx.effective_tip_per_gas(
                self.executor.base_fee,
            ).is_some(),
            (BatchStage::Commit { .. }, RunEvent::Committed) => true,
            (BatchStage::PoolOpen { .. }, RunEvent::PoolOpened) => true,
            (BatchStage::Pool { .. }, RunEvent::PoolTransaction { tx: Some(tx), cancelled }) =>
                *cancelled || self.info.contains(&tx.tx) || tx.tx.gas_limit <= u64::MAX
                    - self.info.cumulative_gas_used,
            (BatchStage::Pool { .. }, RunEvent::PoolTransaction { tx: None, .. }) => true,
            (BatchStage::Invalid { .. }, RunEvent::MarkedInvalid) => true,
            _ => false,
        }
    }

    /// The run after `event`.
    pub open spec fn steps_to(&self, event: RunEvent, next: BatchRun) -> bool {
        match (self.stage, event) {
            (BatchStage::Sequencer, RunEvent::Sender(Err(_))) => next == (BatchRun {
                stage: BatchStage::Ended { outcome: Err(recover_failed()) },
                ..*self
            }),
            (BatchStage::Sequencer, RunEvent::Sender(Ok(signer))) => {
                let tx = RecoveredView {
                    tx: self.sequencer_txs()[self.next_sequencer as int],
                    signer,
                };
                &&& next == (BatchRun { stage: next.stage, ..*self })
                &&& match next.stage {
                    BatchStage::Account { tx: taken } => {
                        &&& tx.tx.tx_type is Deposit
                        &&& taken@ == tx
                    },
                    BatchStage::Execute { origin, tx: taken, account } => {
                        &&& tx.tx.tx_type !is Deposit
                        &&& origin is Sequencer
                        &&& taken@ == tx
                        &&& account is None
                    },
                    _ => false,
                }
            },
            (BatchStage::Account { tx }, RunEvent::Nonce(Ok(nonce))) => next == (BatchRun {
                stage: BatchStage::Execute {
                    origin: Origin::Sequencer,
                    tx,
                    account: Some(nonce),
                },
                ..*self
            }),
            (BatchStage::Execute { origin, tx, account }, RunEvent::Transacted(Ok(result))) => {
                &&& next == (BatchRun {
                    executor: Executor {
                        total_gas_used: (self.executor.total_gas_used + result.spec_gas_used())
                            as u64,
                        ..self.executor
                    },
                    stage: next.stage,
                    ..*self
                })
                &&& next.stage matches BatchStage::Commit { origin: from, executed }
                &&& from == origin
                &&& executed@ == self.executor.executed(tx@, account, result)
            },
            (BatchStage::Commit { origin, executed }, RunEvent::Committed) => {
                &&& next.info@ == info_with(self.info@, tracked_info(origin, executed@))
                &&& next.gas@ == self.gas@.push(executed@.result.spec_gas_used())
                &&& next.from@ == self.from@.push(self.batch@)
                &&& next == (BatchRun {
                    info: next.info,
                    gas: next.gas,
                    from: next.from,
                    stage: match origin {
                        Origin::Pool { gas_limit } => BatchStage::Pool { gas_limit },
                        _ => self.sequencer_stage(self.next_sequencer + 1),
                    },
                    next_sequencer: if origin is Pool {
                        self.next_sequencer
                    } else {
                        (self.next_sequencer + 1) as usize
                    },
                    ..*self
                })
            },
            (BatchStage::PoolOpen { gas_limit }, RunEvent::PoolOpened) => next == (BatchRun {
                stage: BatchStage::Pool { gas_limit },
                ..*self
            }),
            (BatchStage::Pool { .. }, RunEvent::PoolTransaction { tx: None, cancelled }) => next
                == (BatchRun {
                stage: BatchStage::Ended { outcome: Ok(if cancelled { Some(()) } else { None }) },
                ..*self
            }),
            (
                BatchStage::Pool { gas_limit },
                RunEvent::PoolTransaction { tx: Some(tx), cancelled },
            ) => next == (BatchRun {
                stage: match pool_decision(self.info@, tx@.tx, cancelled, gas_limit) {
                    PoolDecision::Cancelled => BatchStage::Ended { outcome: Ok(Some(())) },
                    PoolDecision::AlreadyExecuted => BatchStage::Pool { gas_limit },
                    PoolDecision::Reject => BatchStage::Invalid {
                        gas_limit,
                        signer: tx.signer,
                        nonce: tx.tx.nonce,
                    },
                    PoolDecision::Execute => BatchStage::Execute {
                        origin: Origin::Pool { gas_limit },
                        tx,
                        account: None,
                    },
                },
                ..*self
            }),
            (BatchStage::Invalid { gas_limit, .. }, RunEvent::MarkedInvalid) => next == (BatchRun {
                stage: BatchStage::Pool { gas_limit },
                ..*self
            }),
            _ => false,
        }
    }

    /// Takes the stage out, to be replaced.
    fn take_stage(&mut self) -> (r: BatchStage)
        ensures
            r == old(self).stage,
            *final(self) == (BatchRun { stage: final(self).stage, ..*old(self) }),
    {
        let mut stage = BatchStage::Ended { outcome: Ok(None) };
        core::mem::swap(&mut self.stage, &mut stage);
        stage
    }

    /// Takes up that the state changes of a transaction were committed: the block now has the
    /// transaction.
    fn on_committed(&mut self, origin: Origin, executed: ExecutedTx)
        requires
            (BatchRun { stage: BatchStage::Commit { origin, executed }, ..*old(self) }).wf(),
        ensures
            final(self).wf(),
            (BatchRun { stage: BatchStage::Commit { origin, executed }, ..*old(self) }).steps_to(
                RunEvent::Committed,
                *final(self),
            ),
    {
        let ghost before = BatchRun { stage: BatchStage::Commit { origin, executed }, ..*self };
        let ghost view = executed@;
        let ghost gas_used = view.result.spec_gas_used();
        let ghost tip = view.tx.tx.effective_tip_per_gas(view.base_fee)->0;
        let mut taken = TxExecutionInfo::from(executed);
        match origin {
            Origin::Pool { .. } => {},
            _ => {
                taken.fee = U256::zero();
            },
        }
        self.info.add(taken);
        self.gas = Ghost(before.gas@.push(gas_used));
        self.from = Ghost(before.from@.push(before.batch@));
        proof {
            lemma_receipts_count_batches_push(
                before.info@.receipts,
                before.gas@,
                before.from@,
                before.batch@,
                view.info().receipt,
                gas_used,
            );
            assert(self.info.executed_transactions.len() == before.info@.transactions.len() + 1);
            lemma_fees_add_up(before.info@, tip, gas_used);
            lemma_fees_add_up(before.info@, 0, 0);
            let txs = before.info@.transactions;
            let places = before.sequencer_txs();
            let n = before.next_sequencer as int;
            assert(self.info@.transactions == txs.push(view.tx.tx));
            if origin is Sequencer {
                assert(places.take(n) =~= txs);
                assert(places.take(n + 1) =~= txs.push(places[n]));
            } else {
                assert(places.take(n).is_prefix_of(self.info@.transactions));
            }
        }
        match origin {
            Origin::Pool { gas_limit } => {
                self.stage = BatchStage::Pool { gas_limit };
            },
            _ => {
                assert(self.next_sequencer < self.ctx.config.attributes.transactions.len());
                self.next_sequencer = self.next_sequencer + 1;
                self.stage = self.find_sequencer_stage();
            },
        }
    }

    /// Takes up the outcome of what the run waited for.
    pub fn step(&mut self, event: RunEvent)
        requires
            old(self).wf(),
            old(self).accepts(event),
        ensures
            final(self).wf(),
            old(self).steps_to(event, *final(self)),
    {
        match (self.take_stage(), event) {
            (BatchStage::Sequencer, RunEvent::Sender(Ok(signer))) => {
                let tx = Recovered {
                    tx: self.ctx.config.attributes.transactions[self.next_sequencer].clone(),
                    signer,
                };
                self.stage = match Executor::depositor(&tx) {
                    Some(_) => BatchStage::Account { tx },
                    None => BatchStage::Execute { origin: Origin::Sequencer, tx, account: None },
                };
            },
            (BatchStage::Sequencer, RunEvent::Sender(Err(_))) => {
                self.stage = BatchStage::Ended {
                    outcome: Err(
                        PayloadBuilderError::other(
                            OpPayloadBuilderError::TransactionEcRecoverFailed,
                        ),
                    ),
                };
            },
            (BatchStage::Account { tx }, RunEvent::Nonce(Ok(nonce))) => {
                self.stage = BatchStage::Execute {
                    origin: Origin::Sequencer,
                    tx,
                    account: Some(nonce),
                };
            },
            (BatchStage::Execute { origin, tx, account }, RunEvent::Transacted(Ok(result))) => {
                proof {
                    lemma_total_gas_split(self.gas@, self.batch@);
                }
                if let Ok(executed) = self.executor.execute(tx, account, Ok(result)) {
                    self.stage = BatchStage::Commit { origin, executed };
                }
            },
            (BatchStage::Commit { origin, executed }, RunEvent::Committed) => {
                self.on_committed(origin, executed);
            },
            (BatchStage::PoolOpen { gas_limit }, RunEvent::PoolOpened) => {
                self.stage = BatchStage::Pool { gas_limit };
            },
            (
                BatchStage::Pool { gas_limit },
                RunEvent::PoolTransaction { tx: Some(tx), cancelled },
            ) => {
                self.stage = match screen_batch_transaction(
                    &self.info,
                    &tx.tx,
                    cancelled,
                    gas_limit,
                ) {
                    PoolDecision::Cancelled => BatchStage::Ended { outcome: Ok(Some(())) },
                    PoolDecision::AlreadyExecuted => BatchStage::Pool { gas_limit },
                    PoolDecision::Reject => BatchStage::Invalid {
                        gas_limit,
                        signer: tx.signer,
                        nonce: tx.tx.nonce,
                    },
                    PoolDecision::Execute => BatchStage::Execute {
                        origin: Origin::Pool { gas_limit },
                        tx,
                        account: None,
                    },
                };
            },
            (BatchStage::Pool { .. }, RunEvent::PoolTransaction { tx: None, cancelled }) => {
                self.stage = BatchStage::Ended {
                    outcome: Ok(if cancelled { Some(()) } else { None }),
                };
            },
            (BatchStage::Invalid { gas_limit, .. }, RunEvent::MarkedInvalid) => {
                self.stage = BatchStage::Pool { gas_limit };
            },
            (stage, _) => {
                self.stage = stage;
            },
        }
    }
}

/// A step adds at most one transaction to the block, at its end and with its sender and receipt,
/// and takes none away. Only a commit adds one.
pub proof fn law_batch_step_appends(run: BatchRun, event: RunEvent, next: BatchRun)
    requires
        run.wf(),
        run.accepts(event),
        run.steps_to(event, next),
    ensures
        next.ctx == run.ctx,
        run.info@.cumulative_gas_used <= next.info@.cumulative_gas_used,
        run.info@.total_fees <= next.info@.total_fees,
        if event is Committed {
            &&& next.info@.transactions.drop_last() == run.info@.transactions
            &&& next.info@.senders.drop_last() == run.info@.senders
            &&& next.info@.receipts.drop_last() == run.info@.receipts
            &&& next.info@.transactions.len() == run.info@.transactions.len() + 1
        } else {
            next.info == run.info && next.gas == run.gas
        },
{
    if event is Committed {
        law_batch_fees_of_the_pool(run, next);
        assert(next.info@.transactions.drop_last() =~= run.info@.transactions);
        assert(next.info@.senders.drop_last() =~= run.info@.senders);
        assert(next.info@.receipts.drop_last() =~= run.info@.receipts);
    }
}

/// The fees of a block are those of the pool. A transaction of the pool adds the tip that it pays
/// over the base fee of the block, for each unit of gas that it used, and nothing wraps around.
/// Those of the sequencer add nothing, whatever they pay: as long as there are no others, there are
/// no fees.
pub proof fn law_batch_fees_of_the_pool(run: BatchRun, next: BatchRun)
    requires
        run.wf(),
        run.accepts(RunEvent::Committed),
        run.steps_to(RunEvent::Committed, next),
    ensures
        run.stage matches BatchStage::Commit { origin, executed } ==> next.info@.total_fees
            == run.info@.total_fees + if origin is Pool {
            executed@.tx.tx.effective_tip_per_gas(run.ctx.spec_base_fee())->0
                * executed@.result.spec_gas_used()
        } else {
            0
        },
        !run.past_sequencer ==> run.info@.total_fees == 0 && next.info@.total_fees == 0,
{
    if let BatchStage::Commit { origin, executed } = run.stage {
        let tip = executed@.tx.tx.effective_tip_per_gas(run.ctx.spec_base_fee())->0;
        assert(next.info@.transactions.len() == run.info@.transactions.len() + 1);
        assert(next.info.executed_transactions.len() == next.info@.transactions.len());
        lemma_fees_add_up(run.info@, tip, executed@.result.spec_gas_used());
        lemma_fees_add_up(run.info@, 0, 0);
    }
}

/// A pool whose job is cancelled changes nothing: it ends as cancelled whatever it offers, and no
/// transaction is executed, taken up or marked invalid. It ends so for no other reason.
pub proof fn law_cancelled_batch_changes_nothing(
    run: BatchRun,
    tx: Option<Recovered>,
    cancelled: bool,
    next: BatchRun,
)
    requires
        run.wf(),
        run.stage is Pool,
        run.steps_to(RunEvent::PoolTransaction { tx, cancelled }, next),
    ensures
        cancelled ==> next == (BatchRun {
            stage: BatchStage::Ended { outcome: Ok(Some(())) },
            ..run
        }),
        next.stage == (BatchStage::Ended { outcome: Ok(Some(())) }) ==> cancelled,
{
}

/// Each receipt of a block counts the exact sum of the gas of all transactions up to and with its
/// own, from the beginning of its batch on. The sequencer's transactions are the first batch. The
/// block counts the gas of all transactions.
pub proof fn law_batch_receipts_count_gas(run: BatchRun)
    requires
        run.wf(),
    ensures
        run.gas@.len() == run.info@.transactions.len(),
        forall|i: int|
            0 <= i < run.info@.receipts.len() ==> (
            #[trigger] run.info@.receipts[i]).cumulative_gas_used == total_gas(
                run.gas@.subrange(run.from@[i], i + 1),
            ),
        forall|i: int|
            0 <= i < run.next_sequencer ==> (
            #[trigger] run.info@.receipts[i]).cumulative_gas_used == total_gas(
                run.gas@.take(i + 1),
            ),
        run.info@.cumulative_gas_used == total_gas(run.gas@),
{
    assert forall|i: int| 0 <= i < run.next_sequencer implies (
    #[trigger] run.info@.receipts[i]).cumulative_gas_used == total_gas(run.gas@.take(i + 1)) by {
        assert(run.from@[i] == 0);
        assert(run.gas@.subrange(0, i + 1) =~= run.gas@.take(i + 1));
    }
}

/// A transaction of the pool is new to the block, and leaves it within the gas limit of the batch
/// where it used no more gas than its own limit.
pub proof fn law_batch_takes_new_transactions(run: BatchRun, next: BatchRun)
    requires
        run.wf(),
        run.accepts(RunEvent::Committed),
        run.steps_to(RunEvent::Committed, next),
    ensures
        run.stage matches BatchStage::Commit { origin: Origin::Pool { gas_limit }, executed } ==> {
            &&& run.info@.transactions.no_duplicates() ==> next.info@.transactions.no_duplicates()
            &&& executed@.result.spec_gas_used() <= executed@.tx.tx.gas_limit
                ==> next.info@.cumulative_gas_used <= gas_limit
        },
{
}

/// Once the sequencer's transactions are done the block begins with all of them, in the order of
/// the attributes. After them no deposit comes, and no blob transaction is in the block at all.
pub proof fn law_block_begins_with_attributes(run: BatchRun)
    requires
        run.wf(),
    ensures
        run.past_sequencer || run.ended_well() ==> run.sequencer_txs().is_prefix_of(
            run.info@.transactions,
        ),
        forall|i: int|
            run.sequencer_txs().len() <= i < run.info@.transactions.len() ==> (
            #[trigger] run.info@.transactions[i]).tx_type !is Deposit,
        forall|i: int|
            0 <= i < run.info@.transactions.len() ==> (
            #[trigger] run.info@.transactions[i]).tx_type !is Eip4844,
{
    if run.past_sequencer || run.ended_well() {
        assert(run.sequencer_txs().take(run.next_sequencer as int) =~= run.sequencer_txs());
    }
}

/// Builds a payload of the transactions so far, which may grow further. The withdrawals of the
/// payload attributes are in the block in any case, and nothing of the execution goes with the
/// payload: transitions are merged for each such block, where the node expects them merged once.
pub fn build_block(
    ctx: &OpPayloadBuilderCtx,
    info: &ExecutionInfo,
    withdrawals_root: Option<B256>,
    roots: StateRoots,
) -> (r: Result<OpBuiltPayload, PayloadBuilderError>)
    requires
        ctx.wf(),
        ctx.spec_block_number() == ctx.config.parent_header.header.number + 1,
    ensures
        match ctx.spec_extra_data() {
            Err(err) => r == Err::<OpBuiltPayload, PayloadBuilderError>(err),
            Ok(_) => {
                &&& r matches Ok(payload)
                &&& is_payload(
                    payload,
                    *ctx,
                    info@,
                    withdrawals_root,
                    roots,
                    Some(ctx.config.attributes.payload_attributes.withdrawals@),
                )
                &&& payload.executed_block is None
            },
        },
{
    build_growing_payload(
        ctx,
        &info.executed_transactions,
        &info.receipts,
        info.cumulative_gas_used,
        info.total_fees,
        withdrawals_root,
        roots,
    )
}

/// The build of a block that is published while it grows.
pub struct PayloadBuild {
    pub run: BatchRun,
    pub flow: FlashblocksFlow,
}

/// How the transactions of a run stand.
pub open spec fn run_progress(run: BatchRun) -> Progress {
    match run.stage {
        BatchStage::Ended { outcome: Ok(_) } => Progress::Done,
        BatchStage::Ended { outcome: Err(_) } => Progress::Failed,
        _ => Progress::Going,
    }
}

/// How the transactions of a run stand. That the job was cancelled is not a failure.
fn find_progress(run: &BatchRun) -> (r: Progress)
    ensures
        r == run_progress(*run),
{
    match &run.stage {
        BatchStage::Ended { outcome: Ok(_) } => Progress::Done,
        BatchStage::Ended { outcome: Err(_) } => Progress::Failed,
        _ => Progress::Going,
    }
}

impl PayloadBuild {
    /// What holds between any two steps of a build: the run is at what the phase says, and the
    /// pool comes in only after the fallback block, where the attributes allow for it.
    pub open spec fn wf(&self) -> bool {
        let run = self.run;
        &&& run.wf()
        &&& self.flow.wf(run.ctx, run.info@)
        &&& run.ctx.config.attributes.no_tx_pool ==> !run.past_sequencer
        &&& !self.flow.fallback_built ==> !run.past_sequencer
        &&& self.flow.published@.len() > 0 ==> payload_txs(self.flow.published@[0])
            == run.sequencer_txs()
        &&& match self.flow.phase {
            FlashblocksPhase::PreBlock { .. } => {
                &&& run.info@ == InfoView::empty()
                &&& run.next_sequencer == 0
                &&& run.stage == run.sequencer_stage(0)
            },
            FlashblocksPhase::Sequencer => run.stage !is Ended,
            FlashblocksPhase::Pool => run.in_pool(self.flow.schedule.total_gas_per_batch as int),
            FlashblocksPhase::Stopped => run.stage matches BatchStage::Ended { outcome }
                && outcome is Err,
            FlashblocksPhase::Failed { .. } => true,
            _ => run.ended_well(),
        }
    }

    /// A build that has done nothing yet.
    pub fn new(ctx: OpPayloadBuilderCtx) -> (r: PayloadBuild)
        requires
            ctx.wf(),
        ensures
            r.wf(),
            r.run.ctx == ctx,
            r.flow.phase == (FlashblocksPhase::PreBlock { stage: PreBlock::BeaconRoot }),
            r.flow.schedule == FlashblocksSchedule::first(ctx.spec_block_gas_limit()),
            !r.flow.fallback_built,
            r.flow.published@.len() == 0,
    {
        let flow = FlashblocksFlow::new(&ctx);
        let run = BatchRun::execute_sequencer_transactions(ctx);
        assert(flow.wf(ctx, run.info@));
        PayloadBuild { run, flow }
    }

    /// What the node is asked to do next.
    pub fn next(&self) -> (r: FlashblocksAction<'_>)
        requires
            self.wf(),
        ensures
            match self.flow.phase {
                FlashblocksPhase::PreBlock { stage } => r == FlashblocksAction::PreBlock(
                    match stage {
                        PreBlock::BeaconRoot => PreBlockAction::BeaconRootCall {
                            parent_beacon_block_root: self.run.ctx.config.attributes@
                                .parent_beacon_block_root,
                        },
                        _ => PreBlockAction::EnsureCreate2Deployer {
                            timestamp: self.run.ctx.timestamp(),
                        },
                    },
                ),
                FlashblocksPhase::Sequencer | FlashblocksPhase::Pool => {
                    &&& r matches FlashblocksAction::Run(action)
                    &&& self.run.asks(action)
                    &&& action !is Done
                },
                FlashblocksPhase::Withdrawals => r == (FlashblocksAction::CommitWithdrawals {
                    timestamp: self.run.ctx.timestamp(),
                    withdrawals: &self.run.ctx.config.attributes.payload_attributes.withdrawals,
                }),
                FlashblocksPhase::Roots { .. } => r == (FlashblocksAction::ComputeRoots {
                    number: self.run.ctx.spec_block_number(),
                    timestamp: self.run.ctx.timestamp(),
                    receipts: &self.run.info.receipts,
                }),
                FlashblocksPhase::Publish => r is Publish,
                FlashblocksPhase::BeforeBatch | FlashblocksPhase::AfterBatch => r is CheckCancelled,
                FlashblocksPhase::Pause => r == (FlashblocksAction::Pause {
                    millis: FLASHBLOCK_PAUSE_MILLIS,
                }),
                _ => r is Done,
            },
    {
        match &self.flow.phase {
            FlashblocksPhase::PreBlock { stage } => FlashblocksAction::PreBlock(
                stage.next(&self.run.ctx),
            ),
            FlashblocksPhase::Sequencer | FlashblocksPhase::Pool => FlashblocksAction::Run(
                self.run.next(),
            ),
            FlashblocksPhase::Withdrawals => FlashblocksAction::CommitWithdrawals {
                timestamp: self.run.ctx.attributes().payload_attributes.timestamp,
                withdrawals: &self.run.ctx.attributes().payload_attributes.withdrawals,
            },
            FlashblocksPhase::Roots { .. } => FlashblocksAction::ComputeRoots {
                number: self.run.ctx.block_number(),
                timestamp: self.run.ctx.attributes().payload_attributes.timestamp,
                receipts: &self.run.info.receipts,
            },
            FlashblocksPhase::Publish => FlashblocksAction::Publish,
            FlashblocksPhase::BeforeBatch | FlashblocksPhase::AfterBatch =>
                FlashblocksAction::CheckCancelled,
            FlashblocksPhase::Pause => FlashblocksAction::Pause { millis: FLASHBLOCK_PAUSE_MILLIS },
            _ => FlashblocksAction::Done,
        }
    }

    /// Takes up the outcome of the eip-4788 pre block contract call.
    pub fn on_beacon_root(&mut self, called: Result<(), String>)
        requires
            old(self).wf(),
            old(self).flow.phase == (FlashblocksPhase::PreBlock { stage: PreBlock::BeaconRoot }),
        ensures
            final(self).wf(),
            *final(self) == (PayloadBuild {
                flow: FlashblocksFlow {
                    phase: match PreBlock::after_beacon_root(called) {
                        PreBlock::Ended { outcome: Err(err) } => FlashblocksPhase::Failed { err },
                        stage => FlashblocksPhase::PreBlock { stage },
                    },
                    ..old(self).flow
                },
                ..*old(self)
            }),
    {
        self.flow.on_beacon_root(&self.run.ctx, called);
    }

    /// Takes up the outcome of the forced deployment of the create2 deployer, and turns to the
    /// sequencer's transactions: the build is at the first of them, or past them where there are
    /// none, or at an end where the first of them cannot be in a block.
    pub fn on_create2_deployer(&mut self, deployed: Result<(), String>)
        requires
            old(self).wf(),
            old(self).flow.phase == (FlashblocksPhase::PreBlock {
                stage: PreBlock::Create2Deployer,
            }),
        ensures
            final(self).wf(),
            *final(self) == (PayloadBuild {
                flow: FlashblocksFlow {
                    phase: match PreBlock::after_create2_deployer(deployed) {
                        PreBlock::Ended { outcome: Err(err) } => FlashblocksPhase::Failed { err },
                        _ => (FlashblocksFlow {
                            phase: FlashblocksPhase::Sequencer,
                            ..old(self).flow
                        }).transactions_phase(run_progress(old(self).run)),
                    },
                    ..old(self).flow
                },
                ..*old(self)
            }),
    {
        self.flow.on_create2_deployer(&self.run.ctx, deployed);
        if let FlashblocksPhase::Sequencer = &self.flow.phase {
            self.flow.on_transactions(find_progress(&self.run));
        }
    }

    /// The build after the run took up `event`: it moves on where the run is done.
    pub open spec fn run_step(&self, event: RunEvent, next: PayloadBuild) -> bool {
        &&& self.run.steps_to(event, next.run)
        &&& next.flow == FlashblocksFlow {
            phase: self.flow.transactions_phase(run_progress(next.run)),
            ..self.flow
        }
    }

    /// Takes up the outcome of what the run asked for.
    pub fn on_run(&mut self, event: RunEvent)
        requires
            old(self).wf(),
            old(self).flow.phase is Sequencer || old(self).flow.phase is Pool,
            old(self).run.accepts(event),
        ensures
            final(self).wf(),
            old(self).run_step(event, *final(self)),
    {
        let ghost before = *self;
        self.run.step(event);
        proof {
            law_batch_step_appends(before.run, event, self.run);
            assert(before.run.info@.transactions.is_prefix_of(self.run.info@.transactions));
            lemma_block_grows(self.flow, self.run.ctx, before.run.info@, self.run.info@);
        }
        self.flow.on_transactions(find_progress(&self.run));
    }

    /// Takes up the root of the withdrawals, once they are committed.
    pub fn on_withdrawals(&mut self, committed: Result<Option<B256>, String>)
        requires
            old(self).wf(),
            old(self).flow.phase is Withdrawals,
        ensures
            final(self).wf(),
            *final(self) == (PayloadBuild {
                flow: FlashblocksFlow {
                    phase: match committed {
                        Ok(withdrawals_root) => FlashblocksPhase::Roots { withdrawals_root },
                        Err(err) => FlashblocksPhase::Failed { err: provider_failed(err) },
                    },
                    ..old(self).flow
                },
                ..*old(self)
            }),
    {
        self.flow.on_withdrawals(&self.run.ctx, committed);
    }

    /// `payload` is that of the transactions so far, with the roots that the node computed.
    pub open spec fn is_result(&self, roots: StateRoots, payload: OpBuiltPayload) -> bool {
        let ctx = self.run.ctx;
        &&& self.flow.phase matches FlashblocksPhase::Roots { withdrawals_root } && is_payload(
            payload,
            ctx,
            self.run.info@,
            withdrawals_root,
            roots,
            Some(ctx.config.attributes@.withdrawals),
        )
        &&& payload.executed_block is None
    }

    /// Builds a payload of the transactions so far, once the node has computed the roots. It is
    /// to be published next.
    pub fn on_roots(&mut self, roots: Result<StateRoots, String>) -> (r: Option<OpBuiltPayload>)
        requires
            old(self).wf(),
            old(self).flow.phase is Roots,
            old(self).run.ctx.spec_block_number()
                == old(self).run.ctx.config.parent_header.header.number + 1,
        ensures
            final(self).wf(),
            match (roots, old(self).run.ctx.spec_extra_data()) {
                (Ok(roots), Ok(_)) => {
                    &&& r matches Some(payload)
                    &&& old(self).is_result(roots, payload)
                    &&& *final(self) == (PayloadBuild {
                        flow: FlashblocksFlow {
                            phase: FlashblocksPhase::Publish,
                            published: Ghost(old(self).flow.published@.push(payload)),
                            ..old(self).flow
                        },
                        ..*old(self)
                    })
                },
                (Ok(_), Err(err)) => {
                    &&& r is None
                    &&& *final(self) == (PayloadBuild {
                        flow: FlashblocksFlow {
                            phase: FlashblocksPhase::Failed { err },
                            ..old(self).flow
                        },
                        ..*old(self)
                    })
                },
                (Err(err), _) => {
                    &&& r is None
                    &&& *final(self) == (PayloadBuild {
                        flow: FlashblocksFlow {
                            phase: FlashblocksPhase::Failed { err: provider_failed(err) },
                            ..old(self).flow
                        },
                        ..*old(self)
                    })
                },
            },
    {
        let roots = match roots {
            Ok(roots) => roots,
            Err(err) => {
                self.flow.on_failure(PayloadBuilderError::Internal(InternalError::Provider(err)));
                return None;
            },
        };
        let withdrawals_root = match &self.flow.phase {
            FlashblocksPhase::Roots { withdrawals_root } => *withdrawals_root,
            _ => None,
        };
        match build_block(&self.run.ctx, &self.run.info, withdrawals_root, roots) {
            Ok(payload) => {
                proof {
                    law_block_begins_with_attributes(self.run);
                    lemma_all(self.run.sequencer_txs());
                    if !self.flow.fallback_built {
                        assert(self.run.info@.transactions =~= self.run.sequencer_txs());
                    }
                }
                self.flow.on_payload(Ghost(payload));
                Some(payload)
            },
            Err(err) => {
                self.flow.on_failure(err);
                None
            },
        }
    }

    /// Another flashblock can be counted.
    pub open spec fn has_room(&self) -> bool {
        self.flow.fallback_built ==> self.flow.schedule.has_room()
    }

    /// Whether another flashblock can be counted.
    pub fn can_publish(&self) -> (r: bool)
        ensures
            r == self.has_room(),
    {
        !self.flow.fallback_built || self.flow.schedule.can_advance()
    }

    /// The build after the payload was set and handed to the subscribers, whatever the
    /// sending came to.
    pub open spec fn published_step(&self, _sent: Result<(), String>, next: PayloadBuild) -> bool {
        next == (PayloadBuild {
            flow: self.flow.after_publication(self.run.ctx.config.attributes.no_tx_pool),
            ..*self
        })
    }

    /// Takes up that the payload was set and handed to the subscribers. Whether it could be sent
    /// is of no account to the build.
    pub fn on_published(&mut self, _sent: Result<(), String>)
        requires
            old(self).wf(),
            old(self).flow.phase is Publish,
            old(self).has_room(),
        ensures
            final(self).wf(),
            old(self).published_step(_sent, *final(self)),
    {
        self.flow.on_published(&self.run.ctx);
    }

    /// Takes up whether the job is cancelled, before a batch or after it. Unless it is, a batch
    /// begins: a new executor, whose count of gas begins with it, takes transactions from the
    /// pool up to the gas limit of this batch; or the block of the batch is built.
    pub fn on_cancel_check(&mut self, cancelled: bool)
        requires
            old(self).wf(),
            old(self).flow.phase is BeforeBatch || old(self).flow.phase is AfterBatch,
        ensures
            final(self).wf(),
            final(self).flow == (FlashblocksFlow {
                phase: if cancelled {
                    FlashblocksPhase::Finished
                } else if old(self).flow.phase is BeforeBatch {
                    FlashblocksPhase::Pool
                } else {
                    FlashblocksPhase::Withdrawals
                },
                ..old(self).flow
            }),
            final(self).run == if !cancelled && old(self).flow.phase is BeforeBatch {
                BatchRun {
                    executor: Executor {
                        total_gas_used: 0,
                        base_fee: old(self).run.ctx.spec_base_fee(),
                    },
                    stage: BatchStage::PoolOpen {
                        gas_limit: old(self).flow.schedule.total_gas_per_batch,
                    },
                    past_sequencer: true,
                    batch: Ghost(old(self).run.info@.transactions.len() as int),
                    ..old(self).run
                }
            } else {
                old(self).run
            },
    {
        self.flow.on_cancel_check(cancelled);
        if let FlashblocksPhase::Pool = &self.flow.phase {
            self.run.execute_best_transactions(self.flow.schedule.total_gas_per_batch);
        }
    }

    /// Takes up that the pause is over.
    pub fn on_paused(&mut self)
        requires
            old(self).wf(),
            old(self).flow.phase is Pause,
        ensures
            final(self).wf(),
            *final(self) == (PayloadBuild {
                flow: FlashblocksFlow { phase: FlashblocksPhase::BeforeBatch, ..old(self).flow },
                ..*old(self)
            }),
    {
        self.flow.on_paused();
    }

    /// What the build came to: an error, or that the job is done or was cancelled.
    pub fn into_outcome(self) -> (r: Result<(), PayloadBuilderError>)
        requires
            self.wf(),
            self.flow.phase is Finished || self.flow.phase is Failed || self.flow.phase is Stopped,
        ensures
            r == match (self.flow.phase, self.run.stage) {
                (FlashblocksPhase::Failed { err }, _) => Err::<(), PayloadBuilderError>(err),
                (_, BatchStage::Ended { outcome: Err(err) }) => Err(err),
                _ => Ok(()),
            },
            r is Ok <==> self.flow.phase is Finished,
    {
        match (self.flow.phase, self.run.stage) {
            (FlashblocksPhase::Failed { err }, _) => Err(err),
            (_, BatchStage::Ended { outcome: Err(err) }) => Err(err),
            _ => Ok(()),
        }
    }
}

/// A publication that fails never changes the build: whatever the sending came to, the build goes
/// on from the same state, with the transactions and the payloads that it had, and it has not
/// failed.
pub proof fn law_failed_publication_changes_nothing(
    build: PayloadBuild,
    sent: Result<(), String>,
    after: PayloadBuild,
    failed: Result<(), String>,
    after_failed: PayloadBuild,
)
    requires
        build.wf(),
        build.flow.phase is Publish,
        build.published_step(sent, after),
        build.published_step(failed, after_failed),
    ensures
        after_failed == after,
        after.run == build.run,
        after.flow.published == build.flow.published,
        after.flow.fallback_built,
        after.flow.phase == if build.flow.fallback_built {
            FlashblocksPhase::Pause
        } else if build.run.ctx.config.attributes.no_tx_pool {
            FlashblocksPhase::Finished
        } else {
            FlashblocksPhase::BeforeBatch
        },
{
}

/// Each payload of a job begins with all transactions of those before it, in the same order, and
/// uses at least their gas and earns at least their fees. All have the same id, number, parent and
/// gas limit.
pub proof fn law_payloads_extend(build: PayloadBuild, earlier: int, later: int)
    requires
        build.wf(),
        0 <= earlier <= later < build.flow.published@.len(),
    ensures
        ({
            let first = build.flow.published@[earlier];
            let second = build.flow.published@[later];
            let header = first.block.header.header;
            let next = second.block.header.header;
            &&& tx_views(first.block.body.transactions@).is_prefix_of(
                tx_views(second.block.body.transactions@),
            )
            &&& header.gas_used <= next.gas_used
            &&& first.fees@ <= second.fees@
            &&& first.id == second.id
            &&& header.number == next.number
            &&& header.parent_hash == next.parent_hash
            &&& header.gas_limit == next.gas_limit
        }),
        payload_txs(build.flow.published@[later]).is_prefix_of(build.run.info@.transactions),
{
    let first = build.flow.published@[earlier];
    let second = build.flow.published@[later];
    assert(answers(first, build.run.ctx) && answers(second, build.run.ctx));
    assert(grows(first, second));
    assert(extends(build.run.info@, second));
}

/// The fallback block has the transactions of the payload attributes, all of them and no other, and
/// no fees. With `no_tx_pool` in the attributes there is no other block: a build that is finished
/// has published exactly this one.
pub proof fn law_fallback_is_attributes(build: PayloadBuild)
    requires
        build.wf(),
    ensures
        build.flow.published@.len() > 0 ==> build.flow.published@[0].fees@ == 0 && payload_txs(
            build.flow.published@[0],
        ) == tx_views(build.run.ctx.config.attributes.transactions@),
        build.run.ctx.config.attributes.no_tx_pool ==> build.flow.published@.len() <= 1,
        build.run.ctx.config.attributes.no_tx_pool && build.flow.phase is Finished
            ==> build.flow.published@.len() == 1,
{
}

/// The header of a payload says the exact sum of the gas of its transactions. The receipts that go
/// with it count theirs from the beginning of their batch on.
pub proof fn law_payload_receipts_count_gas(
    build: PayloadBuild,
    roots: StateRoots,
    payload: OpBuiltPayload,
)
    requires
        build.wf(),
        build.is_result(roots, payload),
    ensures
        build.run.info@.receipts.len() == payload_txs(payload).len(),
        build.run.gas@.len() == payload_txs(payload).len(),
        forall|i: int|
            0 <= i < build.run.info@.receipts.len() ==> (
            #[trigger] build.run.info@.receipts[i]).cumulative_gas_used == total_gas(
                build.run.gas@.subrange(build.run.from@[i], i + 1),
            ),
        payload.block.header.header.gas_used == total_gas(build.run.gas@),
{
    law_batch_receipts_count_gas(build.run);
}

/// Holds the state after execution
#[derive(Debug, PartialEq, Eq)]
pub struct ExecutedPayload {
    /// Tracked execution info
    pub info: ExecutionInfo,
    /// Withdrawal hash.
    pub withdrawals_root: Option<B256>,
}

/// Optimism's payload builder
#[derive(Clone, Copy, Debug, PartialEq, Eq)]
pub struct OpPayloadBuilder {
    /// The type responsible for yielding the best transactions for the payload if mempool
    /// transactions are allowed.
    pub best_transactions: BestPoolTransactions,
}

impl OpPayloadBuilder {
    /// `OpPayloadBuilder` constructor.
    pub fn new() -> (r: OpPayloadBuilder)
        ensures
            r == (OpPayloadBuilder { best_transactions: BestPoolTransactions }),
    {
        OpPayloadBuilder { best_transactions: BestPoolTransactions }
    }

    /// What the environment of the targeted payload (that has the `parent` as its parent) is
    /// derived from. Its gas limit is that of the parent.
    pub fn cfg_and_block_env(&self, attributes: &OpPayloadBuilderAttributes, parent: &Header) -> (r:
        NextBlockEnvAttributes)
        ensures
            r == (NextBlockEnvAttributes {
                timestamp: attributes@.timestamp,
                suggested_fee_recipient: attributes@.suggested_fee_recipient,
                prev_randao: attributes@.prev_randao,
                gas_limit: parent.gas_limit,
            }),
    {
        NextBlockEnvAttributes {
            timestamp: attributes.payload_attributes.timestamp,
            suggested_fee_recipient: attributes.payload_attributes.suggested_fee_recipient,
            prev_randao: attributes.payload_attributes.prev_randao,
            gas_limit: parent.gas_limit,
        }
    }

    /// Begins to construct an Optimism payload from the transactions sent via the
    /// Payload attributes by the sequencer. If the `no_tx_pool` argument is passed in
    /// the payload attributes, the transaction pool will be ignored and the only transactions
    /// in the payload will be those sent through the attributes.
    ///
    /// Fails where the environment of the block or the state of its parent cannot be had.
    pub fn build_payload(
        &self,
        chain_spec: ChainSpec,
        base_fee_params: BaseFeeParams,
        config: PayloadConfig,
        block_env: Result<BlockEnv, String>,
        state: Result<(), String>,
    ) -> (r: Result<PayloadBuild, PayloadBuilderError>)
        requires
            block_env matches Ok(block_env) ==> state is Ok ==> block_env.number@ <= u64::MAX
                && block_env.basefee@ <= u64::MAX,
        ensures
            match (block_env, state) {
                (Err(err), _) => r == Err::<PayloadBuild, PayloadBuilderError>(
                    PayloadBuilderError::Other(OtherError::EvmConfig(err)),
                ),
                (_, Err(err)) => r == Err::<PayloadBuild, PayloadBuilderError>(
                    provider_failed(err),
                ),
                (Ok(initialized_block_env), Ok(())) => {
                    &&& r matches Ok(build)
                    &&& build.wf()
                    &&& build.flow.phase == (FlashblocksPhase::PreBlock {
                        stage: PreBlock::BeaconRoot,
                    })
                    &&& build.flow.schedule == FlashblocksSchedule::first(
                        build.run.ctx.spec_block_gas_limit(),
                    )
                    &&& !build.flow.fallback_built
                    &&& build.flow.published@.len() == 0
                    &&& build.run.ctx == (OpPayloadBuilderCtx {
                        chain_spec,
                        config,
                        initialized_block_env,
                        base_fee_params,
                        builder_signer: None,
                    })
                },
            },
    {
        match payload_context(chain_spec, base_fee_params, config, None, block_env, state) {
            Ok(ctx) => Ok(PayloadBuild::new(ctx)),
            Err(err) => Err(err),
        }
    }
}

} // verus!
