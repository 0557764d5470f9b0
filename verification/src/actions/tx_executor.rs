//! Execution of the transactions of a block: which of them are executed, in what order, and what
//! the block keeps of each.

use vstd::prelude::*;

use crate::actions::builder_tx::{builder_tx, is_builder_tx, TxEip1559};
use crate::chain::BestTransactionsAttributes;
use crate::components::execution_info::{
    fees_bounded, lemma_fees_add_up, lemma_receipts_count_push, receipts_count, total_gas,
    ExecutionInfo, InfoView,
};
use crate::components::payload_context::OpPayloadBuilderCtx;
use crate::components::payload_transactions::BestPoolTransactions;
use crate::components::tx_executor::{ExecutionResult, OpExecutionResult, OpTxExecutor};
use crate::errors::{
    payload_error, EVMError, InvalidTransaction, OpPayloadBuilderError, OpTxExecutorError,
    OtherError, PayloadBuilderError,
};
use crate::primitives::{
    contains_transaction, op_tx_type_of, tx_views, Address, OpTransactionSigned, Recovered,
    RecoveredView, TxType, TxView,
};
use crate::subsequence::{is_subsequence, lemma_empty, lemma_skip, lemma_take, lemma_widen};

verus! {

/// What is done with a transaction that the pool offers.
#[derive(Clone, Copy, Debug, PartialEq, Eq, Structural)]
pub enum PoolDecision {
    /// The job was cancelled: nothing more is executed.
    Cancelled,
    /// The block already has the transaction.
    AlreadyExecuted,
    /// The transaction, and with it those that depend on it, cannot go into the block.
    Reject,
    /// The transaction is executed.
    Execute,
}

/// Which decision a transaction that the pool offers calls for.
pub open spec fn pool_decision(
    info: InfoView,
    tx: TxView,
    cancelled: bool,
    gas_limit: u64,
) -> PoolDecision {
    if cancelled {
        PoolDecision::Cancelled
    } else if info.transactions.contains(tx) {
        PoolDecision::AlreadyExecuted
    } else if info.cumulative_gas_used + tx.gas_limit > gas_limit {
        PoolDecision::Reject
    } else if tx.tx_type is Eip4844 || tx.tx_type is Deposit {
        PoolDecision::Reject
    } else {
        PoolDecision::Execute
    }
}

/// What follows when a transaction of the pool was not executed: an invalid transaction is
/// passed over, and rejected with all that depend on it unless only its nonce was used before;
/// any other failure ends the attempt.
pub open spec fn pool_failure(err: OpTxExecutorError) -> Result<bool, PayloadBuilderError> {
    match err {
        OpTxExecutorError::EVMError(EVMError::Transaction(invalid)) => Ok(
            invalid !is NonceTooLow,
        ),
        _ => Err(payload_error(err)),
    }
}

/// What follows when a transaction of the sequencer was not executed: an invalid transaction is
/// passed over, any other failure ends the attempt.
pub open spec fn sequencer_failure(err: OpTxExecutorError) -> Result<(), PayloadBuilderError> {
    match err {
        OpTxExecutorError::EVMError(EVMError::Transaction(_)) => Ok(()),
        _ => Err(payload_error(err)),
    }
}

/// The error for a blob transaction in the payload attributes.
pub open spec fn blob_rejected() -> PayloadBuilderError {
    PayloadBuilderError::Other(OtherError::Op(OpPayloadBuilderError::BlobTransactionRejected))
}

/// The error for a transaction in the payload attributes whose sender cannot be recovered.
pub open spec fn recover_failed() -> PayloadBuilderError {
    PayloadBuilderError::Other(OtherError::Op(OpPayloadBuilderError::TransactionEcRecoverFailed))
}

/// A sequencer's block should never contain blob transactions.
pub fn screen_sequencer_transaction(tx: &OpTransactionSigned) -> (r: Result<
    (),
    PayloadBuilderError,
>)
    ensures
        r == if tx.tx_type is Eip4844 {
            Err::<(), PayloadBuilderError>(blob_rejected())
        } else {
            Ok(())
        },
{
    if tx.is_eip4844() {
        Err(PayloadBuilderError::other(OpPayloadBuilderError::BlobTransactionRejected))
    } else {
        Ok(())
    }
}

/// What an execution failure of a sequencer transaction leads to: nothing for an invalid
/// transaction, which is passed over; any other failure is fatal for this attempt.
pub fn settle_sequencer_failure(err: OpTxExecutorError) -> (r: Result<
    (),
    PayloadBuilderError,
>)
    ensures
        r == sequencer_failure(err),
{
    match err {
        OpTxExecutorError::EVMError(EVMError::Transaction(_)) => Ok(()),
        err => Err(PayloadBuilderError::from(err)),
    }
}

/// What is done with a transaction that the pool offers to a block that has the given transactions
/// and has used the given gas.
pub(crate) fn screen_transaction(
    executed: &Vec<OpTransactionSigned>,
    gas_used: u64,
    tx: &OpTransactionSigned,
    cancelled: bool,
    gas_limit: u64,
) -> (r: PoolDecision)
    requires
        cancelled || tx_views(executed@).contains(tx@) || gas_used + tx.gas_limit <= u64::MAX,
    ensures
        forall|info: InfoView|
            info.transactions == tx_views(executed@) && info.cumulative_gas_used == gas_used ==> r
                == #[trigger] pool_decision(info, tx@, cancelled, gas_limit),
{
    if cancelled {
        PoolDecision::Cancelled
    } else if contains_transaction(executed, tx) {
        PoolDecision::AlreadyExecuted
    } else if gas_used + tx.gas_limit > gas_limit {
        PoolDecision::Reject
    } else if tx.is_eip4844() || tx.is_deposit() {
        PoolDecision::Reject
    } else {
        PoolDecision::Execute
    }
}

/// `decision` is the one that a transaction of the pool calls for; or the transaction, which could
/// be executed, is rejected all the same.
pub open spec fn may_decide(called_for: PoolDecision, decision: PoolDecision) -> bool {
    decision == called_for || (called_for is Execute && decision is Reject)
}

/// The part of a strategy that has to do with the transactions of the pool. A strategy of its own
/// may be choosier than [`screen_pool_transaction`].
pub trait OpTransactionsActions {
    /// What is done with a transaction that the pool offers. A strategy may reject transactions
    /// that could be executed. It executes none that a block cannot take, and notices at once that
    /// the job is cancelled.
    fn screen_pool_transaction(
        &self,
        info: &ExecutionInfo,
        tx: &OpTransactionSigned,
        cancelled: bool,
        gas_limit: u64,
    ) -> (r: PoolDecision)
        requires
            cancelled || info@.transactions.contains(tx@) || info.cumulative_gas_used
                + tx.gas_limit <= u64::MAX,
        ensures
            may_decide(pool_decision(info@, tx@, cancelled, gas_limit), r),
    ;
}

/// What is done with a transaction that the pool offers: nothing once the job is cancelled;
/// a transaction that the block already has is passed over; one that does not fit into the
/// gas that is left is rejected, as are blob and deposit transactions, which a block never
/// takes from the pool.
pub fn screen_pool_transaction(
    info: &ExecutionInfo,
    tx: &OpTransactionSigned,
    cancelled: bool,
    gas_limit: u64,
) -> (r: PoolDecision)
    requires
        cancelled || info@.transactions.contains(tx@) || info.cumulative_gas_used
            + tx.gas_limit <= u64::MAX,
    ensures
        r == pool_decision(info@, tx@, cancelled, gas_limit),
{
    screen_transaction(
        &info.executed_transactions,
        info.cumulative_gas_used,
        tx,
        cancelled,
        gas_limit,
    )
}

/// What an execution failure of a pool transaction leads to. An invalid transaction is
/// passed over: `true` where its descendants are rejected with it, `false` where its nonce
/// was too low. Any other failure is fatal for this attempt.
pub fn settle_pool_failure(err: OpTxExecutorError) -> (r: Result<
    bool,
    PayloadBuilderError,
>)
    ensures
        r == pool_failure(err),
{
    match err {
        OpTxExecutorError::EVMError(EVMError::Transaction(invalid)) => match invalid {
            InvalidTransaction::NonceTooLow { .. } => Ok(false),
            _ => Ok(true),
        },
        err => Err(PayloadBuilderError::from(err)),
    }
}

/// Where a transaction comes from.
#[derive(Clone, Copy, Debug, PartialEq, Eq, Structural)]
pub enum Origin {
    /// The payload attributes.
    Sequencer,
    /// The transaction pool, from which transactions are taken up to `gas_limit`.
    Pool { gas_limit: u64 },
    /// The builder itself.
    Builder,
}

/// What a run waits for.
#[allow(inconsistent_fields)]
#[derive(Debug, PartialEq, Eq)]
pub enum Stage {
    /// The sender of the next sequencer transaction.
    Sequencer,
    /// The nonce of the account that `tx`, a deposit of the sequencer, comes from.
    Depositor { tx: Recovered },
    /// The execution of `tx`, with the nonce of its depositor where there is one.
    Transact { origin: Origin, tx: Recovered, nonce: Option<u64> },
    /// The commit of the state changes of `tx`.
    Commit { origin: Origin, tx: Recovered, result: OpExecutionResult },
    /// Access to the pool.
    PoolOpen { gas_limit: u64 },
    /// The next transaction of the pool.
    Pool { gas_limit: u64 },
    /// The removal of a transaction, and of those that depend on it, from what the pool offers.
    Invalid { gas_limit: u64, signer: Address, nonce: u64 },
    /// The nonce of the builder's account.
    BuilderNonce { address: Address, gas_limit: u64, message: Vec<u8> },
    /// The signature of the builder's transaction.
    BuilderSign { tx: TxEip1559 },
    /// Nothing: the builder's transaction was added, or could not be.
    BuilderDone { added: bool },
    /// Nothing: the transactions are done, or the job was cancelled (`Some(())`), or it failed.
    Ended { outcome: Result<Option<()>, PayloadBuilderError> },
}

/// How many transactions of the pool were looked at, and how their execution went.
#[derive(Clone, Copy, Debug, PartialEq, Eq)]
pub struct SimulationCounts {
    pub considered: u64,
    pub simulated: u64,
    pub success: u64,
    pub fail: u64,
}

/// The execution of the transactions of one block, step by step. Between the steps the node
/// does what [`TransactionsRun::next`] asks for and reports the outcome.
pub struct TransactionsRun<Actions> {
    /// What the transactions of the pool are screened by.
    pub actions: Actions,
    pub ctx: OpPayloadBuilderCtx,
    pub executor: OpTxExecutor,
    pub info: ExecutionInfo,
    pub stage: Stage,
    /// Which sequencer transaction comes next, or is being executed.
    pub next_sequencer: usize,
    /// How many transactions of the block come from the sequencer.
    pub sequencer_len: usize,
    /// Whether transactions from elsewhere may have been taken up.
    pub past_sequencer: bool,
    pub counts: SimulationCounts,
    /// The gas that each transaction of the block used.
    pub gas: Ghost<Seq<u64>>,
}

/// What the node is asked to do next.
#[allow(inconsistent_fields)]
#[derive(Debug, PartialEq, Eq)]
pub enum RunAction<'a> {
    /// Recover the sender of this sequencer transaction.
    RecoverSender { tx: &'a OpTransactionSigned },
    /// Read the nonce of an account.
    LoadNonce { address: Address },
    /// Execute this transaction.
    Transact { tx: &'a Recovered },
    /// Commit the state changes of the transaction that was executed last.
    Commit,
    /// Ask the pool for its best transactions.
    OpenPool { attributes: BestTransactionsAttributes },
    /// Fetch the next transaction of the pool.
    NextPoolTransaction,
    /// Drop a transaction, and those that depend on it, from what the pool offers.
    MarkInvalid { signer: Address, nonce: u64 },
    /// Sign this transaction of the builder.
    SignBuilderTx { tx: &'a TxEip1559 },
    /// Nothing more.
    Done,
}

/// What the node reports back.
#[derive(Debug, PartialEq, Eq)]
pub enum RunEvent {
    /// The sender of a sequencer transaction, where it could be recovered.
    Sender(Result<Address, ()>),
    /// The nonce of an account, where it could be loaded.
    Nonce(Result<u64, ()>),
    /// What the EVM made of the transaction in hand.
    Transacted(Result<ExecutionResult, EVMError>),
    /// The state changes of the transaction in hand are committed.
    Committed,
    /// The pool is open.
    PoolOpened,
    /// The next transaction of the pool, where there is one, and whether the job is cancelled.
    PoolTransaction { tx: Option<Recovered>, cancelled: bool },
    /// The pool no longer offers the invalid transaction.
    MarkedInvalid,
    /// The builder's transaction, where it could be signed.
    Signed(Result<Recovered, ()>),
}

impl<Actions: OpTransactionsActions> TransactionsRun<Actions> {
    /// The fee that the block tracks of a transaction: for each unit of gas, the tip over the base
    /// fee of the block, if the transaction comes from the pool; nothing for any other.
    pub open spec fn tracked_fee(&self, origin: Origin, tx: TxView, gas_used: u64) -> nat {
        if origin is Pool {
            (tx.effective_tip_per_gas(self.ctx.spec_base_fee())->0 * gas_used) as nat
        } else {
            0
        }
    }

    /// A transaction that leaves the block a tip to track, or that has none to track.
    pub open spec fn pays(&self, origin: Origin, tx: TxView) -> bool {
        origin is Pool ==> tx.effective_tip_per_gas(self.ctx.spec_base_fee()) is Some
    }
}

impl<Actions: OpTransactionsActions> TransactionsRun<Actions> {
    /// The transactions of the payload attributes.
    pub open spec fn sequencer_txs(&self) -> Seq<TxView> {
        tx_views(self.ctx.config.attributes.transactions@)
    }

    /// `tx` may be executed: it is the sequencer transaction in turn; or it is a new pool
    /// transaction that fits into the gas limit; or it is the builder's.
    pub open spec fn admits(&self, origin: Origin, tx: RecoveredView) -> bool {
        &&& tx.tx.tx_type !is Eip4844
        &&& match origin {
            Origin::Sequencer => {
                &&& !self.past_sequencer
                &&& self.next_sequencer < self.sequencer_txs().len()
                &&& tx.tx == self.sequencer_txs()[self.next_sequencer as int]
            },
            Origin::Pool { gas_limit } => {
                &&& self.past_sequencer
                &&& tx.tx.tx_type !is Deposit
                &&& !self.info@.transactions.contains(tx.tx)
                &&& self.info.cumulative_gas_used + tx.tx.gas_limit <= gas_limit
            },
            Origin::Builder => {
                &&& self.past_sequencer
                &&& tx.tx.tx_type is Eip1559
            },
        }
    }

    /// Gas that the executor has counted and the block has not, as the transaction is not
    /// committed yet.
    pub open spec fn pending_gas(&self) -> int {
        match self.stage {
            Stage::Commit { result, .. } => result.result.spec_gas_used() as int,
            _ => 0,
        }
    }

    /// The stage fits the rest of the run.
    pub open spec fn stage_wf(&self) -> bool {
        match self.stage {
            Stage::Sequencer => {
                &&& !self.past_sequencer
                &&& self.next_sequencer < self.sequencer_txs().len()
                &&& self.sequencer_txs()[self.next_sequencer as int].tx_type !is Eip4844
            },
            Stage::Depositor { tx } => {
                &&& self.admits(Origin::Sequencer, tx@)
                &&& self.executor.spec_depositor(tx@) is Some
            },
            Stage::Transact { origin, tx, nonce } => {
                &&& self.admits(origin, tx@)
                &&& nonce is Some <==> self.executor.spec_depositor(tx@) is Some
            },
            Stage::Commit { origin, tx, result } => {
                &&& self.admits(origin, tx@)
                &&& result.cumulative_gas_used == self.executor.cumulative_gas_used
                &&& result.tx_type == op_tx_type_of(tx@.tx.tx_type)
                &&& self.info.cumulative_gas_used + result.result.spec_gas_used() <= u64::MAX
                &&& self.pays(origin, tx@.tx)
            },
            Stage::PoolOpen { .. }
            | Stage::Pool { .. }
            | Stage::Invalid { .. }
            | Stage::BuilderDone { .. } => self.past_sequencer,
            Stage::BuilderNonce { address, .. } => {
                &&& self.past_sequencer
                &&& self.ctx.builder_signer matches Some(signer) && signer.address == address
            },
            Stage::BuilderSign { .. } => self.past_sequencer && self.ctx.builder_signer is Some,
            Stage::Ended { outcome } => outcome is Ok && !self.past_sequencer ==> {
                &&& outcome == Ok::<Option<()>, PayloadBuilderError>(None)
                &&& self.next_sequencer == self.sequencer_txs().len()
            },
        }
    }

    /// Every simulated transaction was considered before, and either succeeded or failed.
    pub open spec fn counts_wf(&self) -> bool {
        &&& self.counts.success + self.counts.fail == self.counts.simulated
        &&& self.counts.simulated <= self.counts.considered
        &&& self.stage matches Stage::Transact { origin: Origin::Pool { .. }, .. }
            ==> self.counts.simulated < self.counts.considered
    }

    /// What holds between any two steps of a run:
    ///
    /// - the sequencer's transactions come first, in the order of the attributes;
    /// - no block holds a blob transaction, and none but the sequencer brings in deposits;
    /// - each receipt counts the gas of all transactions up to and with its own, and the block that
    ///   of all its transactions;
    /// - the fees are those of the pool, and never wrap around.
    pub open spec fn wf(&self) -> bool {
        let info = self.info@;
        &&& self.ctx.wf()
        &&& info.wf()
        &&& self.executor.chain_spec == self.ctx.chain_spec
        &&& self.executor.payload_timestamp == self.ctx.timestamp()
        &&& self.next_sequencer <= self.sequencer_txs().len()
        &&& self.sequencer_len <= info.transactions.len()
        &&& !self.past_sequencer ==> self.sequencer_len == info.transactions.len()
        &&& is_subsequence(
            info.transactions.take(self.sequencer_len as int),
            self.sequencer_txs().take(self.next_sequencer as int),
        )
        &&& forall|i: int|
            0 <= i < info.transactions.len() ==> (
            #[trigger] info.transactions[i]).tx_type !is Eip4844
        &&& forall|i: int|
            self.sequencer_len <= i < info.transactions.len() ==> (
            #[trigger] info.transactions[i]).tx_type !is Deposit
        &&& self.executor.cumulative_gas_used == info.cumulative_gas_used + self.pending_gas()
        &&& receipts_count(info.receipts, self.gas@)
        &&& info.cumulative_gas_used == total_gas(self.gas@)
        &&& fees_bounded(info)
        &&& !self.past_sequencer ==> info.total_fees == 0
        &&& self.stage_wf()
        &&& self.counts_wf()
    }

    /// Where the sequencer's transactions stand at place `at`: at the next one, or at one that
    /// the block cannot take, or at the end of the list.
    pub open spec fn sequencer_stage(&self, at: int) -> Stage {
        if at >= self.sequencer_txs().len() {
            Stage::Ended { outcome: Ok(None) }
        } else if self.sequencer_txs()[at].tx_type is Eip4844 {
            Stage::Ended { outcome: Err(blob_rejected()) }
        } else {
            Stage::Sequencer
        }
    }

    /// Finds where the sequencer's transactions stand.
    fn find_sequencer_stage(&self, at: usize) -> (r: Stage)
        requires
            at <= self.sequencer_txs().len(),
        ensures
            r == self.sequencer_stage(at as int),
    {
        let txs = &self.ctx.config.attributes.transactions;
        if at >= txs.len() {
            Stage::Ended { outcome: Ok(None) }
        } else {
            match screen_sequencer_transaction(&txs[at]) {
                Ok(()) => Stage::Sequencer,
                Err(err) => Stage::Ended { outcome: Err(err) },
            }
        }
    }

    /// Begins to execute all sequencer transactions that are in the payload attributes: a run that
    /// has executed nothing yet, about to look at the first of them.
    pub fn execute_sequencer_transactions(actions: Actions, ctx: OpPayloadBuilderCtx) -> (r:
        TransactionsRun<Actions>)
        requires
            ctx.wf(),
        ensures
            r.wf(),
            r.actions == actions,
            r.ctx == ctx,
            r.executor == (OpTxExecutor {
                chain_spec: ctx.chain_spec,
                cumulative_gas_used: 0,
                payload_timestamp: ctx.timestamp(),
            }),
            r.info@ == InfoView::empty(),
            r.stage == r.sequencer_stage(0),
            r.next_sequencer == 0,
            r.sequencer_len == 0,
            !r.past_sequencer,
            r.counts == (SimulationCounts { considered: 0, simulated: 0, success: 0, fail: 0 }),
            r.gas@ == Seq::<u64>::empty(),
    {
        let executor = OpTxExecutor::new(
            ctx.chain_spec,
            ctx.attributes().payload_attributes.timestamp,
        );
        let info = ExecutionInfo::with_capacity(ctx.attributes().transactions.len());
        let mut run = TransactionsRun {
            actions,
            ctx,
            executor,
            info,
            stage: Stage::Ended { outcome: Ok(None) },
            next_sequencer: 0,
            sequencer_len: 0,
            past_sequencer: false,
            counts: SimulationCounts { considered: 0, simulated: 0, success: 0, fail: 0 },
            gas: Ghost(Seq::empty()),
        };
        run.stage = run.find_sequencer_stage(0);
        proof {
            lemma_empty(run.sequencer_txs().take(0));
            assert(run.info@.transactions.take(0) =~= Seq::empty());
        }
        run
    }

    /// `action` is what the node is asked to do next.
    pub open spec fn asks(&self, action: RunAction) -> bool {
        match self.stage {
            Stage::Sequencer => action == (RunAction::RecoverSender {
                tx: &self.ctx.config.attributes.transactions@[self.next_sequencer as int],
            }),
            Stage::Depositor { tx } => action == (RunAction::LoadNonce { address: tx.signer }),
            Stage::Transact { tx, .. } => action == (RunAction::Transact { tx: &tx }),
            Stage::Commit { .. } => action is Commit,
            Stage::PoolOpen { .. } => action matches RunAction::OpenPool { attributes }
                && self.ctx.spec_best_transaction_attributes(attributes),
            Stage::Pool { .. } => action is NextPoolTransaction,
            Stage::Invalid { signer, nonce, .. } => action == (RunAction::MarkInvalid {
                signer,
                nonce,
            }),
            Stage::BuilderNonce { address, .. } => action == (RunAction::LoadNonce { address }),
            Stage::BuilderSign { tx } => action == (RunAction::SignBuilderTx { tx: &tx }),
            Stage::BuilderDone { .. } | Stage::Ended { .. } => action is Done,
        }
    }

    /// What the node is asked to do next.
    pub fn next(&self) -> (r: RunAction<'_>)
        requires
            self.wf(),
        ensures
            self.asks(r),
    {
        match &self.stage {
            Stage::Sequencer => RunAction::RecoverSender {
                tx: &self.ctx.config.attributes.transactions[self.next_sequencer],
            },
            Stage::Depositor { tx } => RunAction::LoadNonce { address: tx.signer },
            Stage::Transact { tx, .. } => RunAction::Transact { tx },
            Stage::Commit { .. } => RunAction::Commit,
            Stage::PoolOpen { .. } => RunAction::OpenPool {
                attributes: BestPoolTransactions.best_transactions(
                    self.ctx.best_transaction_attributes(),
                ),
            },
            Stage::Pool { .. } => RunAction::NextPoolTransaction,
            Stage::Invalid { signer, nonce, .. } => RunAction::MarkInvalid {
                signer: *signer,
                nonce: *nonce,
            },
            Stage::BuilderNonce { address, .. } => RunAction::LoadNonce { address: *address },
            Stage::BuilderSign { tx } => RunAction::SignBuilderTx { tx },
            Stage::BuilderDone { .. } | Stage::Ended { .. } => RunAction::Done,
        }
    }

    /// Takes the stage out, to be replaced.
    fn take_stage(&mut self) -> (r: Stage)
        ensures
            r == old(self).stage,
            *final(self) == (TransactionsRun { stage: final(self).stage, ..*old(self) }),
    {
        let mut stage = Stage::Ended { outcome: Ok(None) };
        core::mem::swap(&mut self.stage, &mut stage);
        stage
    }

    /// The run after the sender of the next sequencer transaction came in.
    pub open spec fn sender_step(
        &self,
        sender: Result<Address, ()>,
        next: TransactionsRun<Actions>,
    ) -> bool {
        &&& next == (TransactionsRun { stage: next.stage, ..*self })
        &&& match sender {
            Err(_) => next.stage == (Stage::Ended { outcome: Err(recover_failed()) }),
            Ok(signer) => {
                let tx = RecoveredView {
                    tx: self.sequencer_txs()[self.next_sequencer as int],
                    signer,
                };
                match next.stage {
                    Stage::Depositor { tx: taken } => {
                        &&& self.executor.spec_depositor(tx) is Some
                        &&& taken@ == tx
                    },
                    Stage::Transact { origin, tx: taken, nonce } => {
                        &&& self.executor.spec_depositor(tx) is None
                        &&& origin is Sequencer
                        &&& taken@ == tx
                        &&& nonce is None
                    },
                    _ => false,
                }
            },
        }
    }

    /// Takes up the sender of the next sequencer transaction. Without one the attempt fails.
    /// Deposit transactions do not have signatures; their sender is their `from` address.
    pub fn on_sender(&mut self, sender: Result<Address, ()>)
        requires
            old(self).wf(),
            old(self).stage is Sequencer,
        ensures
            final(self).wf(),
            old(self).sender_step(sender, *final(self)),
    {
        match sender {
            Ok(signer) => {
                let tx = Recovered {
                    tx: self.ctx.config.attributes.transactions[self.next_sequencer].clone(),
                    signer,
                };
                self.stage = match self.executor.depositor(&tx) {
                    Some(_) => Stage::Depositor { tx },
                    None => Stage::Transact { origin: Origin::Sequencer, tx, nonce: None },
                };
            },
            Err(_) => {
                self.stage = Stage::Ended {
                    outcome: Err(
                        PayloadBuilderError::other(
                            OpPayloadBuilderError::TransactionEcRecoverFailed,
                        ),
                    ),
                };
            },
        }
    }

    /// The run after the nonce of a depositor came in.
    pub open spec fn depositor_step(
        &self,
        nonce: Result<u64, ()>,
        next: TransactionsRun<Actions>,
    ) -> bool {
        next == (TransactionsRun {
            stage: match (self.stage, nonce) {
                (Stage::Depositor { tx }, Ok(nonce)) => Stage::Transact {
                    origin: Origin::Sequencer,
                    tx,
                    nonce: Some(nonce),
                },
                (Stage::Depositor { tx }, Err(_)) => Stage::Ended {
                    outcome: Err(payload_error(OpTxExecutorError::AccountLoad(tx.signer))),
                },
                (stage, _) => stage,
            },
            ..*self
        })
    }

    /// Takes up the nonce of the account that a deposit comes from. Without one the attempt
    /// fails.
    pub fn on_depositor(&mut self, nonce: Result<u64, ()>)
        requires
            old(self).wf(),
            old(self).stage is Depositor,
        ensures
            final(self).wf(),
            old(self).depositor_step(nonce, *final(self)),
    {
        match self.take_stage() {
            Stage::Depositor { tx } => match nonce {
                Ok(nonce) => {
                    self.stage = Stage::Transact {
                        origin: Origin::Sequencer,
                        tx,
                        nonce: Some(nonce),
                    };
                },
                Err(_) => {
                    let err = OpTxExecutorError::AccountLoad(tx.signer);
                    self.stage = Stage::Ended { outcome: Err(PayloadBuilderError::from(err)) };
                },
            },
            stage => {
                self.stage = stage;
            },
        }
    }

    /// Whether a transaction that was executed with `result` can be taken up: the gas of the block
    /// still fits 64 bits, and the sender of a pool transaction pays at least the base fee.
    pub open spec fn takes(&self, result: ExecutionResult) -> bool {
        self.stage matches Stage::Transact { origin, tx, .. } ==> {
            &&& self.info.cumulative_gas_used + result.spec_gas_used() <= u64::MAX
            &&& self.pays(origin, tx@.tx)
        }
    }

    /// Whether a transaction that was executed with `result` can be taken up.
    pub fn can_take(&self, result: &ExecutionResult) -> (r: bool)
        requires
            self.wf(),
        ensures
            r == self.takes(*result),
    {
        match &self.stage {
            Stage::Transact { origin, tx, .. } => {
                let pays = match origin {
                    Origin::Pool { .. } => tx.tx.effective_tip_per_gas(
                        self.ctx.base_fee(),
                    ).is_some(),
                    _ => true,
                };
                pays && result.gas_used() <= u64::MAX - self.info.cumulative_gas_used
            },
            _ => true,
        }
    }

    /// The counts after the execution of a transaction from `origin`.
    pub open spec fn counted(&self, origin: Origin, result: ExecutionResult) -> SimulationCounts {
        if origin is Pool {
            SimulationCounts {
                simulated: (self.counts.simulated + 1) as u64,
                success: (self.counts.success + if result is Success { 1int } else { 0 }) as u64,
                fail: (self.counts.fail + if result is Success { 0int } else { 1 }) as u64,
                ..self.counts
            }
        } else {
            self.counts
        }
    }

    /// The run after the EVM refused the transaction in hand, and what it waits for then.
    pub open spec fn after_refusal(&self, origin: Origin, tx: Recovered, err: EVMError) -> (
        Stage,
        int,
    ) {
        let err = OpTxExecutorError::EVMError(err);
        match origin {
            Origin::Sequencer => match sequencer_failure(err) {
                Ok(()) => (
                    self.sequencer_stage(self.next_sequencer + 1),
                    self.next_sequencer + 1,
                ),
                Err(err) => (Stage::Ended { outcome: Err(err) }, self.next_sequencer as int),
            },
            Origin::Pool { gas_limit } => match pool_failure(err) {
                Ok(false) => (Stage::Pool { gas_limit }, self.next_sequencer as int),
                Ok(true) => (
                    Stage::Invalid { gas_limit, signer: tx.signer, nonce: tx.tx.nonce },
                    self.next_sequencer as int,
                ),
                Err(err) => (Stage::Ended { outcome: Err(err) }, self.next_sequencer as int),
            },
            Origin::Builder => (Stage::BuilderDone { added: false }, self.next_sequencer as int),
        }
    }

    /// The run after the EVM was done with the transaction in hand.
    pub open spec fn transacted_step(
        &self,
        outcome: Result<ExecutionResult, EVMError>,
        next: TransactionsRun<Actions>,
    ) -> bool {
        match (self.stage, outcome) {
            (Stage::Transact { origin, tx, nonce }, Ok(result)) => next
                == (TransactionsRun {
                executor: OpTxExecutor {
                    cumulative_gas_used: (self.executor.cumulative_gas_used
                        + result.spec_gas_used()) as u64,
                    ..self.executor
                },
                stage: Stage::Commit {
                    origin,
                    tx,
                    result: self.executor.spec_executed(tx@, nonce, result),
                },
                counts: self.counted(origin, result),
                ..*self
            }),
            (Stage::Transact { origin, tx, .. }, Err(err)) => next
                == (TransactionsRun {
                stage: self.after_refusal(origin, tx, err).0,
                next_sequencer: self.after_refusal(origin, tx, err).1 as usize,
                ..*self
            }),
            _ => false,
        }
    }

    /// Takes up what the EVM made of the transaction in hand. One that was executed waits to be
    /// committed. One that was not leaves the block as it is: an invalid transaction of the
    /// sequencer is passed over; one of the pool is passed over too, and marked invalid there
    /// unless its nonce was too low; the builder's own is given up. Any other failure with a
    /// transaction of the sequencer or the pool ends the attempt.
    pub fn on_transacted(&mut self, outcome: Result<ExecutionResult, EVMError>)
        requires
            old(self).wf(),
            old(self).stage is Transact,
            outcome matches Ok(result) ==> old(self).takes(result),
        ensures
            final(self).wf(),
            old(self).transacted_step(outcome, *final(self)),
    {
        match self.take_stage() {
            Stage::Transact { origin, tx, nonce } => {
                match self.executor.transact(&tx, nonce, outcome) {
                    Ok(result) => {
                        if let Origin::Pool { .. } = origin {
                            self.counts.simulated = self.counts.simulated + 1;
                            if result.is_success() {
                                self.counts.success = self.counts.success + 1;
                            } else {
                                self.counts.fail = self.counts.fail + 1;
                            }
                        }
                        self.stage = Stage::Commit { origin, tx, result };
                    },
                    Err(err) => match origin {
                        Origin::Sequencer => match settle_sequencer_failure(err) {
                            Ok(()) => {
                                proof {
                                    lemma_skip(
                                        self.info@.transactions.take(self.sequencer_len as int),
                                        self.sequencer_txs(),
                                        self.next_sequencer as int,
                                    );
                                }
                                assert(self.next_sequencer
                                    < self.ctx.config.attributes.transactions.len());
                                self.next_sequencer = self.next_sequencer + 1;
                                self.stage = self.find_sequencer_stage(self.next_sequencer);
                            },
                            Err(err) => {
                                self.stage = Stage::Ended { outcome: Err(err) };
                            },
                        },
                        Origin::Pool { gas_limit } => match settle_pool_failure(err) {
                            Ok(true) => {
                                self.stage = Stage::Invalid {
                                    gas_limit,
                                    signer: tx.signer,
                                    nonce: tx.tx.nonce,
                                };
                            },
                            Ok(false) => {
                                self.stage = Stage::Pool { gas_limit };
                            },
                            Err(err) => {
                                self.stage = Stage::Ended { outcome: Err(err) };
                            },
                        },
                        Origin::Builder => {
                            self.stage = Stage::BuilderDone { added: false };
                        },
                    },
                }
            },
            stage => {
                self.stage = stage;
            },
        }
    }

    /// The run after the transaction in hand was committed.
    pub open spec fn committed_step(&self, next: TransactionsRun<Actions>) -> bool {
        match self.stage {
            Stage::Commit { origin, tx, result } => {
                &&& next.info@ == self.info@.push(
                    tx@,
                    result.spec_receipt(),
                    result.result.spec_gas_used(),
                    self.tracked_fee(origin, tx@.tx, result.result.spec_gas_used()),
                )
                &&& next.gas@ == self.gas@.push(result.result.spec_gas_used())
                &&& next == (TransactionsRun {
                    info: next.info,
                    gas: next.gas,
                    stage: match origin {
                        Origin::Sequencer => self.sequencer_stage(
                            self.next_sequencer + 1,
                        ),
                        Origin::Pool { gas_limit } => Stage::Pool { gas_limit },
                        Origin::Builder => Stage::BuilderDone { added: true },
                    },
                    next_sequencer: if origin is Sequencer {
                        (self.next_sequencer + 1) as usize
                    } else {
                        self.next_sequencer
                    },
                    sequencer_len: if origin is Sequencer {
                        (self.sequencer_len + 1) as usize
                    } else {
                        self.sequencer_len
                    },
                    ..*self
                })
            },
            _ => false,
        }
    }

    /// Takes up that the state changes of the transaction in hand were committed: the block now
    /// has the transaction.
    pub fn on_committed(&mut self)
        requires
            old(self).wf(),
            old(self).stage is Commit,
        ensures
            final(self).wf(),
            old(self).committed_step(*final(self)),
    {
        let ghost before = *self;
        match self.take_stage() {
            Stage::Commit { origin, tx, result } => {
                let ghost taken = tx@;
                let ghost receipt = result.spec_receipt();
                let ghost gas_used = result.result.spec_gas_used();
                match origin {
                    Origin::Pool { .. } => {
                        let base_fee: u64 = self.ctx.base_fee();
                        self.info.add(tx, result, base_fee);
                    },
                    _ => {
                        self.info.add_untracked(tx, result);
                    },
                }
                self.gas = Ghost(before.gas@.push(gas_used));
                proof {
                    let tip = taken.tx.effective_tip_per_gas(before.ctx.spec_base_fee())->0;
                    lemma_receipts_count_push(
                        before.info@.receipts,
                        before.gas@,
                        receipt,
                        gas_used,
                    );
                    assert(self.info.executed_transactions.len() == before.info@.transactions.len()
                        + 1);
                    lemma_fees_add_up(before.info@, tip, gas_used);
                    let txs = before.info@.transactions;
                    let places = before.sequencer_txs();
                    assert(self.info@.transactions == txs.push(taken.tx));
                    assert(self.info@.receipts == before.info@.receipts.push(receipt));
                    if origin is Sequencer {
                        lemma_take(txs.take(txs.len() as int), places, before.next_sequencer as int);
                        assert(txs.take(txs.len() as int) =~= txs);
                        assert(self.info@.transactions.take(before.sequencer_len + 1) =~= txs.push(
                            taken.tx,
                        ));
                    } else {
                        assert(self.info@.transactions.take(before.sequencer_len as int)
                            =~= txs.take(before.sequencer_len as int));
                    }
                }
                match origin {
                    Origin::Sequencer => {
                        assert(self.next_sequencer < self.ctx.config.attributes.transactions.len());
                        self.next_sequencer = self.next_sequencer + 1;
                        self.sequencer_len = self.info.executed_transactions.len();
                        self.stage = self.find_sequencer_stage(self.next_sequencer);
                    },
                    Origin::Pool { gas_limit } => {
                        self.stage = Stage::Pool { gas_limit };
                    },
                    Origin::Builder => {
                        self.stage = Stage::BuilderDone { added: true };
                    },
                }
            },
            stage => {
                self.stage = stage;
            },
        }
    }

    /// Begins to execute the best transactions of the pool, once the transactions before are done,
    /// and takes them up to `gas_limit`. The count of transactions starts anew.
    pub fn execute_best_transactions(&mut self, gas_limit: u64)
        requires
            old(self).wf(),
            old(self).ended_well(),
        ensures
            final(self).wf(),
            *final(self) == (TransactionsRun {
                stage: Stage::PoolOpen { gas_limit },
                past_sequencer: true,
                counts: SimulationCounts { considered: 0, simulated: 0, success: 0, fail: 0 },
                ..*old(self)
            }),
    {
        self.stage = Stage::PoolOpen { gas_limit };
        self.past_sequencer = true;
        self.counts = SimulationCounts { considered: 0, simulated: 0, success: 0, fail: 0 };
    }

    /// The run after the pool was opened.
    pub open spec fn pool_opened_step(&self, next: TransactionsRun<Actions>) -> bool {
        next == (TransactionsRun {
            stage: match self.stage {
                Stage::PoolOpen { gas_limit } => Stage::Pool { gas_limit },
                stage => stage,
            },
            ..*self
        })
    }

    /// Takes up that the pool is open.
    pub fn on_pool_opened(&mut self)
        requires
            old(self).wf(),
            old(self).stage is PoolOpen,
        ensures
            final(self).wf(),
            old(self).pool_opened_step(*final(self)),
    {
        match self.take_stage() {
            Stage::PoolOpen { gas_limit } => {
                self.stage = Stage::Pool { gas_limit };
            },
            stage => {
                self.stage = stage;
            },
        }
    }

    /// Whether a transaction that the pool offers can be looked at: unless it is passed over at
    /// once, it can be counted, and the gas of the block and its gas limit together fit 64 bits.
    pub open spec fn weighs(&self, tx: TxView, cancelled: bool) -> bool {
        cancelled || self.info@.transactions.contains(tx) || {
            &&& self.counts.considered < u64::MAX
            &&& self.info.cumulative_gas_used + tx.gas_limit <= u64::MAX
        }
    }

    /// Whether a transaction that the pool offers can be looked at.
    pub fn can_weigh(&self, tx: &OpTransactionSigned, cancelled: bool) -> (r: bool)
        ensures
            r == self.weighs(tx@, cancelled),
    {
        cancelled || self.info.contains(tx) || (self.counts.considered < u64::MAX && tx.gas_limit
            <= u64::MAX - self.info.cumulative_gas_used)
    }

    /// The strategy may decide so on a transaction that the pool offers.
    pub open spec fn screens(
        &self,
        tx: OpTransactionSigned,
        cancelled: bool,
        gas_limit: u64,
        decision: PoolDecision,
    ) -> bool {
        &&& may_decide(pool_decision(self.info@, tx@, cancelled, gas_limit), decision)
        &&& call_ensures(
            Actions::screen_pool_transaction,
            (&self.actions, &self.info, &tx, cancelled, gas_limit),
            decision,
        )
    }

    /// The run after the pool offered `tx` and `decision` was taken.
    pub open spec fn after_decision(
        &self,
        gas_limit: u64,
        tx: Recovered,
        decision: PoolDecision,
    ) -> TransactionsRun<Actions> {
        let counts = SimulationCounts {
            considered: (self.counts.considered + 1) as u64,
            ..self.counts
        };
        match decision {
            PoolDecision::Cancelled => TransactionsRun {
                stage: Stage::Ended { outcome: Ok(Some(())) },
                ..*self
            },
            PoolDecision::AlreadyExecuted => *self,
            PoolDecision::Reject => TransactionsRun {
                stage: Stage::Invalid { gas_limit, signer: tx.signer, nonce: tx.tx.nonce },
                counts,
                ..*self
            },
            PoolDecision::Execute => TransactionsRun {
                stage: Stage::Transact { origin: Origin::Pool { gas_limit }, tx, nonce: None },
                counts,
                ..*self
            },
        }
    }

    /// The run after the pool offered a transaction, or none.
    pub open spec fn pool_transaction_step(
        &self,
        tx: Option<Recovered>,
        cancelled: bool,
        next: TransactionsRun<Actions>,
    ) -> bool {
        match (self.stage, tx) {
            (Stage::Pool { .. }, None) => next == (TransactionsRun {
                stage: Stage::Ended { outcome: Ok(if cancelled { Some(()) } else { None }) },
                ..*self
            }),
            (Stage::Pool { gas_limit }, Some(tx)) => exists|decision: PoolDecision| #[trigger]
                self.screens(tx.tx, cancelled, gas_limit, decision) && next == self.after_decision(
                    gas_limit,
                    tx,
                    decision,
                ),
            _ => false,
        }
    }

    /// Takes up the next transaction that the pool offers, where there is one. Once the job is
    /// cancelled nothing more is done, whatever the pool offers; without a transaction the pool is
    /// done.
    pub fn on_pool_transaction(&mut self, tx: Option<Recovered>, cancelled: bool)
        requires
            old(self).wf(),
            old(self).stage is Pool,
            tx matches Some(tx) ==> old(self).weighs(tx@.tx, cancelled),
        ensures
            final(self).wf(),
            old(self).pool_transaction_step(tx, cancelled, *final(self)),
    {
        let ghost before = *self;
        match (self.take_stage(), tx) {
            (Stage::Pool { gas_limit }, Some(tx)) => {
                let decision = self.actions.screen_pool_transaction(
                    &self.info,
                    &tx.tx,
                    cancelled,
                    gas_limit,
                );
                assert(before.screens(tx.tx, cancelled, gas_limit, decision));
                match decision {
                    PoolDecision::Cancelled => {
                        self.stage = Stage::Ended { outcome: Ok(Some(())) };
                    },
                    PoolDecision::AlreadyExecuted => {
                        self.stage = Stage::Pool { gas_limit };
                    },
                    PoolDecision::Reject => {
                        self.counts.considered = self.counts.considered + 1;
                        self.stage = Stage::Invalid {
                            gas_limit,
                            signer: tx.signer,
                            nonce: tx.tx.nonce,
                        };
                    },
                    PoolDecision::Execute => {
                        self.counts.considered = self.counts.considered + 1;
                        self.stage = Stage::Transact {
                            origin: Origin::Pool { gas_limit },
                            tx,
                            nonce: None,
                        };
                    },
                }
            },
            (Stage::Pool { .. }, None) => {
                self.stage = Stage::Ended { outcome: Ok(if cancelled { Some(()) } else { None }) };
            },
            (stage, _) => {
                self.stage = stage;
            },
        }
    }

    /// The run after a transaction was marked invalid.
    pub open spec fn marked_invalid_step(&self, next: TransactionsRun<Actions>) -> bool {
        next == (TransactionsRun {
            stage: match self.stage {
                Stage::Invalid { gas_limit, .. } => Stage::Pool { gas_limit },
                stage => stage,
            },
            ..*self
        })
    }

    /// Takes up that the pool no longer offers an invalid transaction, nor those that depend on
    /// it.
    pub fn on_marked_invalid(&mut self)
        requires
            old(self).wf(),
            old(self).stage is Invalid,
        ensures
            final(self).wf(),
            old(self).marked_invalid_step(*final(self)),
    {
        match self.take_stage() {
            Stage::Invalid { gas_limit, .. } => {
                self.stage = Stage::Pool { gas_limit };
            },
            stage => {
                self.stage = stage;
            },
        }
    }

    /// Begins to add the builder's own transaction, once the transactions before are done, if a
    /// signer is configured.
    pub fn add_builder_tx(&mut self, gas_limit: u64, message: Vec<u8>)
        requires
            old(self).wf(),
            old(self).ended_well(),
        ensures
            final(self).wf(),
            *final(self) == (TransactionsRun {
                stage: match old(self).ctx.builder_signer {
                    Some(signer) => Stage::BuilderNonce {
                        address: signer.address,
                        gas_limit,
                        message,
                    },
                    None => Stage::BuilderDone { added: false },
                },
                past_sequencer: true,
                ..*old(self)
            }),
    {
        self.past_sequencer = true;
        self.stage = match self.ctx.builder_signer() {
            Some(signer) => Stage::BuilderNonce { address: signer.address, gas_limit, message },
            None => Stage::BuilderDone { added: false },
        };
    }

    /// The run after the nonce of the builder came in.
    pub open spec fn builder_nonce_step(
        &self,
        nonce: Result<u64, ()>,
        next: TransactionsRun<Actions>,
    ) -> bool {
        &&& next == (TransactionsRun { stage: next.stage, ..*self })
        &&& match (self.stage, nonce) {
            (Stage::BuilderNonce { gas_limit, message, .. }, Ok(nonce)) => {
                &&& next.stage is BuilderSign
                &&& is_builder_tx(
                    next.stage->BuilderSign_tx,
                    self.ctx,
                    nonce,
                    gas_limit,
                    message@,
                )
            },
            (_, Ok(_)) => false,
            (_, Err(_)) => next.stage == (Stage::BuilderDone { added: false }),
        }
    }

    /// Takes up the nonce of the builder's account. Without one the builder's transaction is
    /// given up.
    pub fn on_builder_nonce(&mut self, nonce: Result<u64, ()>)
        requires
            old(self).wf(),
            old(self).stage is BuilderNonce,
        ensures
            final(self).wf(),
            old(self).builder_nonce_step(nonce, *final(self)),
    {
        match (self.take_stage(), nonce) {
            (Stage::BuilderNonce { gas_limit, message, .. }, Ok(nonce)) => {
                self.stage = Stage::BuilderSign {
                    tx: builder_tx(&self.ctx, nonce, gas_limit, message),
                };
            },
            _ => {
                self.stage = Stage::BuilderDone { added: false };
            },
        }
    }

    /// `signed` is the builder's transaction `unsigned`, and comes from the builder's account. What
    /// `unsigned` says besides, such as its recipient and input, a signed transaction has in its
    /// encoding alone, which is left to the signer.
    pub open spec fn is_signed(&self, unsigned: TxEip1559, signed: RecoveredView) -> bool {
        &&& signed.tx.tx_type is Eip1559
        &&& signed.tx.nonce == unsigned.nonce
        &&& signed.tx.gas_limit == unsigned.gas_limit
        &&& signed.tx.max_fee_per_gas == unsigned.max_fee_per_gas
        &&& signed.tx.max_priority_fee_per_gas == Some(unsigned.max_priority_fee_per_gas)
        &&& self.ctx.builder_signer matches Some(signer) && signed.signer.bytes@
            == signer.address.bytes@
    }

    /// Whether `signed` is the builder's transaction `unsigned`, from the builder's account.
    fn has_signed(&self, unsigned: &TxEip1559, signed: &Recovered) -> (r: bool)
        ensures
            r == self.is_signed(*unsigned, signed@),
    {
        let from_builder = match self.ctx.builder_signer() {
            Some(signer) => signed.signer.same_as(&signer.address),
            None => false,
        };
        let tip = match signed.tx.max_priority_fee_per_gas {
            Some(tip) => tip == unsigned.max_priority_fee_per_gas,
            None => false,
        };
        from_builder && tip && matches!(signed.tx.tx_type, TxType::Eip1559) && signed.tx.nonce
            == unsigned.nonce && signed.tx.gas_limit == unsigned.gas_limit
            && signed.tx.max_fee_per_gas == unsigned.max_fee_per_gas
    }

    /// The run after the builder's transaction was signed.
    pub open spec fn builder_signed_step(
        &self,
        signed: Result<Recovered, ()>,
        next: TransactionsRun<Actions>,
    ) -> bool {
        next == (TransactionsRun {
            stage: match signed {
                Ok(tx) => Stage::Transact { origin: Origin::Builder, tx, nonce: None },
                Err(_) => Stage::BuilderDone { added: false },
            },
            ..*self
        })
    }

    /// Takes up the signed transaction of the builder. Without it the transaction is given up.
    pub fn on_builder_signed(&mut self, signed: Result<Recovered, ()>)
        requires
            old(self).wf(),
            old(self).stage is BuilderSign,
            signed matches Ok(tx) ==> old(self).is_signed(old(self).stage->BuilderSign_tx, tx@),
        ensures
            final(self).wf(),
            old(self).builder_signed_step(signed, *final(self)),
    {
        self.stage = match signed {
            Ok(tx) => Stage::Transact { origin: Origin::Builder, tx, nonce: None },
            Err(_) => Stage::BuilderDone { added: false },
        };
    }

    /// `event` is the outcome of what the run waits for, and the run can take it up.
    pub open spec fn accepts(&self, event: RunEvent) -> bool {
        match (self.stage, event) {
            (Stage::Sequencer, RunEvent::Sender(_)) => true,
            (Stage::Depositor { .. }, RunEvent::Nonce(_)) => true,
            (Stage::Transact { .. }, RunEvent::Transacted(Ok(result))) => self.takes(result),
            (Stage::Transact { .. }, RunEvent::Transacted(Err(_))) => true,
            (Stage::Commit { .. }, RunEvent::Committed) => true,
            (Stage::PoolOpen { .. }, RunEvent::PoolOpened) => true,
            (Stage::Pool { .. }, RunEvent::PoolTransaction { tx: Some(tx), cancelled }) =>
                self.weighs(tx@.tx, cancelled),
            (Stage::Pool { .. }, RunEvent::PoolTransaction { tx: None, .. }) => true,
            (Stage::Invalid { .. }, RunEvent::MarkedInvalid) => true,
            (Stage::BuilderNonce { .. }, RunEvent::Nonce(_)) => true,
            (Stage::BuilderSign { tx: unsigned }, RunEvent::Signed(Ok(tx))) => self.is_signed(
                unsigned,
                tx@,
            ),
            (Stage::BuilderSign { .. }, RunEvent::Signed(Err(_))) => true,
            _ => false,
        }
    }

    /// Whether `event` is the outcome of what the run waits for, and the run can take it up.
    pub fn can_accept(&self, event: &RunEvent) -> (r: bool)
        requires
            self.wf(),
        ensures
            r == self.accepts(*event),
    {
        match (&self.stage, event) {
            (Stage::Sequencer, RunEvent::Sender(_)) => true,
            (Stage::Depositor { .. }, RunEvent::Nonce(_)) => true,
            (Stage::Transact { .. }, RunEvent::Transacted(Ok(result))) => self.can_take(result),
            (Stage::Transact { .. }, RunEvent::Transacted(Err(_))) => true,
            (Stage::Commit { .. }, RunEvent::Committed) => true,
            (Stage::PoolOpen { .. }, RunEvent::PoolOpened) => true,
            (Stage::Pool { .. }, RunEvent::PoolTransaction { tx: Some(tx), cancelled }) =>
                self.can_weigh(&tx.tx, *cancelled),
            (Stage::Pool { .. }, RunEvent::PoolTransaction { tx: None, .. }) => true,
            (Stage::Invalid { .. }, RunEvent::MarkedInvalid) => true,
            (Stage::BuilderNonce { .. }, RunEvent::Nonce(_)) => true,
            (Stage::BuilderSign { tx: unsigned }, RunEvent::Signed(Ok(tx))) =>
                self.has_signed(unsigned, tx),
            (Stage::BuilderSign { .. }, RunEvent::Signed(Err(_))) => true,
            _ => false,
        }
    }

    /// The run after `event`.
    pub open spec fn steps_to(&self, event: RunEvent, next: TransactionsRun<Actions>) -> bool {
        match event {
            RunEvent::Sender(sender) => self.sender_step(sender, next),
            RunEvent::Nonce(nonce) => if self.stage is Depositor {
                self.depositor_step(nonce, next)
            } else {
                self.builder_nonce_step(nonce, next)
            },
            RunEvent::Transacted(outcome) => self.transacted_step(outcome, next),
            RunEvent::Committed => self.committed_step(next),
            RunEvent::PoolOpened => self.pool_opened_step(next),
            RunEvent::PoolTransaction { tx, cancelled } => self.pool_transaction_step(
                tx,
                cancelled,
                next,
            ),
            RunEvent::MarkedInvalid => self.marked_invalid_step(next),
            RunEvent::Signed(signed) => self.builder_signed_step(signed, next),
        }
    }

    /// Takes up the outcome of what the run waited for.
    pub fn step(&mut self, event: RunEvent)
        requires
            old(self).wf(),
            old(self).accepts(event),
        ensures
            final(self).wf(),
            old(self).steps_to(event, *final(self)),
    {
        match event {
            RunEvent::Sender(sender) => self.on_sender(sender),
            RunEvent::Nonce(nonce) => match self.stage {
                Stage::Depositor { .. } => self.on_depositor(nonce),
                _ => self.on_builder_nonce(nonce),
            },
            RunEvent::Transacted(outcome) => self.on_transacted(outcome),
            RunEvent::Committed => self.on_committed(),
            RunEvent::PoolOpened => self.on_pool_opened(),
            RunEvent::PoolTransaction { tx, cancelled } => self.on_pool_transaction(tx, cancelled),
            RunEvent::MarkedInvalid => self.on_marked_invalid(),
            RunEvent::Signed(signed) => self.on_builder_signed(signed),
        }
    }

    /// The run takes transactions from the pool, up to `limit`.
    pub open spec fn in_pool(&self, limit: int) -> bool {
        match self.stage {
            Stage::PoolOpen { gas_limit } => gas_limit == limit,
            Stage::Pool { gas_limit } => gas_limit == limit,
            Stage::Invalid { gas_limit, .. } => gas_limit == limit,
            Stage::Transact { origin: Origin::Pool { gas_limit }, .. } => gas_limit == limit,
            Stage::Commit { origin: Origin::Pool { gas_limit }, .. } => gas_limit == limit,
            _ => false,
        }
    }

    /// The run is done, and nothing failed.
    pub open spec fn ended_well(&self) -> bool {
        self.stage matches Stage::Ended { outcome } && outcome is Ok
    }
}

/// A step adds at most one transaction to the block, at its end and with its sender and receipt,
/// and takes none away. Only a commit adds one.
pub proof fn law_step_appends<Actions: OpTransactionsActions>(
    run: TransactionsRun<Actions>,
    event: RunEvent,
    next: TransactionsRun<Actions>,
)
    requires
        run.wf(),
        run.accepts(event),
        run.steps_to(event, next),
    ensures
        next.ctx == run.ctx,
        run.info@.cumulative_gas_used <= next.info@.cumulative_gas_used,
        run.info@.total_fees <= next.info@.total_fees,
        if event is Committed {
            &&& next.info@.transactions.drop_last() == run.info@.transactions
            &&& next.info@.senders.drop_last() == run.info@.senders
            &&& next.info@.receipts.drop_last() == run.info@.receipts
            &&& next.info@.transactions.len() == run.info@.transactions.len() + 1
        } else {
            next.info == run.info && next.gas == run.gas
        },
{
    if event is Committed {
        law_fees_of_the_pool(run, next);
        assert(next.info@.transactions.drop_last() =~= run.info@.transactions);
        assert(next.info@.senders.drop_last() =~= run.info@.senders);
        assert(next.info@.receipts.drop_last() =~= run.info@.receipts);
    }
}

/// A block without duplicates has none after a transaction of the pool was added to it.
pub proof fn law_pool_adds_no_duplicate<Actions: OpTransactionsActions>(
    run: TransactionsRun<Actions>,
    next: TransactionsRun<Actions>,
)
    requires
        run.wf(),
        run.stage matches Stage::Commit { origin, .. } && origin is Pool,
        run.committed_step(next),
        run.info@.transactions.no_duplicates(),
    ensures
        next.info@.transactions.no_duplicates(),
{
}

/// A transaction of the pool that used no more gas than its limit leaves the block within the gas
/// limit that transactions are taken up to.
pub proof fn law_pool_keeps_gas_limit<Actions: OpTransactionsActions>(
    run: TransactionsRun<Actions>,
    next: TransactionsRun<Actions>,
)
    requires
        run.wf(),
        run.committed_step(next),
    ensures
        run.stage matches Stage::Commit { origin: Origin::Pool { gas_limit }, tx, result }
            ==> result.result.spec_gas_used() <= tx.tx.gas_limit
            ==> next.info@.cumulative_gas_used <= gas_limit,
{
}

/// The fees of a block are those of the pool. A transaction of the pool adds the tip that it pays
/// over the base fee of the block, for each unit of gas that it used, and nothing wraps around. The
/// builder's transaction and those of the sequencer add nothing, whatever they pay.
pub proof fn law_fees_of_the_pool<Actions: OpTransactionsActions>(
    run: TransactionsRun<Actions>,
    next: TransactionsRun<Actions>,
)
    requires
        run.wf(),
        run.committed_step(next),
    ensures
        run.stage matches Stage::Commit { origin, tx, result } ==> next.info@.total_fees
            == run.info@.total_fees + if origin is Pool {
            tx@.tx.effective_tip_per_gas(run.ctx.spec_base_fee())->0
                * result.result.spec_gas_used()
        } else {
            0
        },
{
    if let Stage::Commit { origin, tx, result } = run.stage {
        let tip = tx@.tx.effective_tip_per_gas(run.ctx.spec_base_fee())->0;
        assert(next.info@.transactions.len() == run.info@.transactions.len() + 1);
        assert(next.info.executed_transactions.len() == next.info@.transactions.len());
        lemma_fees_add_up(run.info@, tip, result.result.spec_gas_used());
        lemma_fees_add_up(run.info@, 0, 0);
    }
}

/// As long as only transactions of the sequencer were executed, there are no fees.
pub proof fn law_no_fees_of_the_sequencer<Actions: OpTransactionsActions>(
    run: TransactionsRun<Actions>,
)
    requires
        run.wf(),
        !run.past_sequencer,
    ensures
        run.info@.total_fees == 0,
{
}

/// A pool whose job is cancelled changes nothing: it ends as cancelled whatever it offers, and no
/// transaction is executed, taken up or marked invalid. It ends so for no other reason.
pub proof fn law_cancelled_pool_changes_nothing<Actions: OpTransactionsActions>(
    run: TransactionsRun<Actions>,
    tx: Option<Recovered>,
    cancelled: bool,
    next: TransactionsRun<Actions>,
)
    requires
        run.wf(),
        run.stage is Pool,
        run.pool_transaction_step(tx, cancelled, next),
    ensures
        cancelled ==> next == (TransactionsRun {
            stage: Stage::Ended { outcome: Ok(Some(())) },
            ..run
        }),
        next.stage == (Stage::Ended { outcome: Ok(Some(())) }) ==> cancelled,
{
}

/// Every transaction of the pool that was executed was looked at before, and either succeeded or
/// failed.
pub proof fn law_simulation_counts<Actions: OpTransactionsActions>(run: TransactionsRun<Actions>)
    requires
        run.wf(),
    ensures
        run.counts.success + run.counts.fail == run.counts.simulated,
        run.counts.simulated <= run.counts.considered,
{
}

/// Each receipt of a block counts the exact sum of the gas of all transactions up to and with its
/// own, and the last one all the gas that the block used.
pub proof fn law_receipts_count_block_gas<Actions: OpTransactionsActions>(
    run: TransactionsRun<Actions>,
)
    requires
        run.wf(),
    ensures
        run.gas@.len() == run.info@.transactions.len(),
        forall|i: int|
            0 <= i < run.info@.receipts.len() ==> (
            #[trigger] run.info@.receipts[i]).cumulative_gas_used == total_gas(
                run.gas@.take(i + 1),
            ),
        run.info@.cumulative_gas_used == total_gas(run.gas@),
        run.info@.receipts.len() > 0 ==> run.info@.receipts.last().cumulative_gas_used
            == run.info@.cumulative_gas_used,
{
    if run.info@.receipts.len() > 0 {
        let last = run.info@.receipts.len() - 1;
        assert(run.gas@.take(last + 1) =~= run.gas@);
        assert(run.info@.receipts[last].cumulative_gas_used == total_gas(run.gas@.take(last + 1)));
    }
}

/// The transactions of the payload attributes come first in the block, in their order; after them
/// no deposit comes. No blob transaction is in the block at all.
pub proof fn law_block_order<Actions: OpTransactionsActions>(run: TransactionsRun<Actions>)
    requires
        run.wf(),
    ensures
        is_subsequence(
            run.info@.transactions.take(run.sequencer_len as int),
            run.sequencer_txs(),
        ),
        forall|i: int|
            run.sequencer_len <= i < run.info@.transactions.len() ==> (
            #[trigger] run.info@.transactions[i]).tx_type !is Deposit,
        forall|i: int|
            0 <= i < run.info@.transactions.len() ==> (
            #[trigger] run.info@.transactions[i]).tx_type !is Eip4844,
        !run.past_sequencer ==> is_subsequence(run.info@.transactions, run.sequencer_txs()),
{
    lemma_widen(
        run.info@.transactions.take(run.sequencer_len as int),
        run.sequencer_txs(),
        run.next_sequencer as int,
    );
    if !run.past_sequencer {
        assert(run.info@.transactions.take(run.sequencer_len as int) =~= run.info@.transactions);
    }
}

} // verus!
