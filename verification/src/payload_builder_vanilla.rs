//! The vanilla strategy: one block, built once, with the best transactions of the pool.

use vstd::prelude::*;

use crate::actions::builder_tx::{
    block_message, builder_tx_gas, decimal, estimate_gas_for_builder_tx, law_block_message_gas,
    message_for, DefaultBuilderTxActions,
};
use crate::actions::payload::{
    create_payload, is_payload, shanghai_withdrawals, OpBuiltPayload, StateRoots,
};
use crate::actions::pre_block::{PreBlock, PreBlockAction};
use crate::actions::tx_executor::{
    law_block_order, law_receipts_count_block_gas, pool_decision, screen_pool_transaction,
    OpTransactionsActions, PoolDecision, RunAction, RunEvent, SimulationCounts, Stage,
    TransactionsRun,
};
use crate::chain::{
    BaseFeeParams, BlockEnv, ChainSpec, Header, NextBlockEnvAttributes, OpPayloadBuilderAttributes,
    PayloadConfig, Signer, Withdrawal,
};
use crate::components::execution_info::{total_gas, ExecutionInfo, InfoView};
use crate::components::payload_context::OpPayloadBuilderCtx;
use crate::components::payload_transactions::BestPoolTransactions;
use crate::errors::{InternalError, OtherError, PayloadBuilderError};
use crate::primitives::{tx_views, OpReceipt, OpTransactionSigned, Recovered, B256};
use crate::subsequence::is_subsequence;
use crate::u256::U256;

verus! {

/// How a build ended that did not fail.
#[derive(Debug, PartialEq, Eq)]
pub enum BuildOutcomeKind {
    /// A payload that may be replaced by a better one.
    Better { payload: OpBuiltPayload },
    /// No better payload: this one would have earned `fees`.
    Aborted { fees: U256 },
    /// The job was cancelled.
    Cancelled,
    /// A payload that no other replaces.
    Freeze(OpBuiltPayload),
}

/// How a build ended, with the state reads that the next build of the job may start from.
#[derive(Debug, PartialEq, Eq)]
pub enum BuildOutcome<Reads> {
    /// A payload that may be replaced by a better one.
    Better { payload: OpBuiltPayload, cached_reads: Reads },
    /// No better payload: this one would have earned `fees`.
    Aborted { fees: U256, cached_reads: Reads },
    /// The job was cancelled.
    Cancelled,
    /// A payload that no other replaces.
    Freeze(OpBuiltPayload),
}

impl BuildOutcomeKind {
    /// Hands the state reads of the build on to the next one, where there can be one.
    pub fn with_cached_reads<Reads>(self, cached_reads: Reads) -> (r: BuildOutcome<Reads>)
        ensures
            r == match self {
                BuildOutcomeKind::Better { payload } => BuildOutcome::Better {
                    payload,
                    cached_reads,
                },
                BuildOutcomeKind::Aborted { fees } => BuildOutcome::Aborted { fees, cached_reads },
                BuildOutcomeKind::Cancelled => BuildOutcome::Cancelled,
                BuildOutcomeKind::Freeze(payload) => BuildOutcome::Freeze(payload),
            },
    {
        match self {
            BuildOutcomeKind::Better { payload } => BuildOutcome::Better { payload, cached_reads },
            BuildOutcomeKind::Aborted { fees } => BuildOutcome::Aborted { fees, cached_reads },
            BuildOutcomeKind::Cancelled => BuildOutcome::Cancelled,
            BuildOutcomeKind::Freeze(payload) => BuildOutcome::Freeze(payload),
        }
    }
}

/// Where a vanilla build stands.
#[derive(Debug, PartialEq, Eq)]
pub enum VanillaPhase {
    /// The actions before the first transaction.
    PreBlock { stage: PreBlock },
    /// The sequencer's transactions.
    Sequencer,
    /// The gas of the builder's transaction is about to be set aside.
    Reserve,
    /// The transactions of the pool. `message` is what the builder's transaction will carry.
    Pool { message: Vec<u8> },
    /// The builder's transaction.
    BuilderTx,
    /// The withdrawals are about to be committed.
    Withdrawals,
    /// The roots of the state and the receipts are about to be computed.
    Roots { withdrawals_root: Option<B256> },
    /// Nothing: the build failed before the transactions, or after them.
    Failed { err: PayloadBuilderError },
    /// Nothing: a transaction ended the attempt, or the job was cancelled.
    Stopped,
}

/// What the node is asked to do next.
#[derive(Debug, PartialEq, Eq)]
pub enum VanillaAction<'a> {
    /// Prepare the state for the first transaction.
    PreBlock(PreBlockAction),
    /// Go on with the transactions.
    Run(RunAction<'a>),
    /// Set the gas of the builder's transaction aside.
    ReserveGas,
    /// Commit these withdrawals.
    CommitWithdrawals { timestamp: u64, withdrawals: &'a Vec<Withdrawal> },
    /// Compute the root of the state and that of these receipts, those of the block of this number.
    ComputeRoots { number: u64, timestamp: u64, receipts: &'a Vec<OpReceipt> },
    /// Nothing more.
    Done,
}

/// The build of one payload.
///
/// Payload building for optimism is composed of several steps.
/// The first steps are mandatory and defined by the protocol.
///
/// 1. first all System calls are applied.
/// 2. After canyon the forced deployed `create2deployer` must be loaded
/// 3. all sequencer transactions are executed (part of the payload attributes)
///
/// Depending on whether the node acts as a sequencer and is allowed to add further
/// transactions (`no_tx_pool == false`):
/// 4. the best transactions of the pool are executed, and then the builder's own
///
/// And finally
/// 5. the block is built: all roots are computed (txs, state)
pub struct VanillaBuild<Strategy> {
    pub run: TransactionsRun<Strategy>,
    pub phase: VanillaPhase,
}

/// The gas that is set aside for the builder's transaction: what it costs to carry `message`, or
/// nothing without a signer.
pub open spec fn reserved_gas(ctx: OpPayloadBuilderCtx, message: Seq<u8>) -> int {
    if ctx.builder_signer is Some {
        builder_tx_gas(message)
    } else {
        0
    }
}

/// The gas that is set aside for the builder's transaction.
pub fn reserve_builder_gas(ctx: &OpPayloadBuilderCtx, message: &Vec<u8>) -> (r: u64)
    requires
        21_000 + 16 * message.len() <= u64::MAX,
    ensures
        r == reserved_gas(*ctx, message@),
{
    match ctx.builder_signer() {
        Some(_) => estimate_gas_for_builder_tx(message),
        None => 0,
    }
}

/// The error where the state cannot be read or written.
pub open spec fn provider_failed(err: String) -> PayloadBuilderError {
    PayloadBuilderError::Internal(InternalError::Provider(err))
}

impl<Strategy: DefaultBuilderTxActions + OpTransactionsActions> VanillaBuild<Strategy> {
    /// The pool must be left alone.
    pub open spec fn no_tx_pool(&self) -> bool {
        self.run.ctx.config.attributes.no_tx_pool
    }

    /// How much gas the block may have used after a transaction of the pool, with a builder's
    /// transaction that carries `message`.
    pub open spec fn pool_gas_limit(&self, message: Seq<u8>) -> int {
        self.run.ctx.spec_block_gas_limit() - reserved_gas(self.run.ctx, message)
    }

    /// `message` is one that the strategy may give.
    pub open spec fn is_message(&self, message: Vec<u8>) -> bool {
        call_ensures(Strategy::block_message, (&self.run.actions, &self.run.ctx), message)
    }

    /// The run is at the builder's transaction.
    pub open spec fn at_builder_tx(&self) -> bool {
        match self.run.stage {
            Stage::BuilderNonce { .. } | Stage::BuilderSign { .. } => true,
            Stage::Transact { origin, .. } => origin is Builder,
            Stage::Commit { origin, .. } => origin is Builder,
            _ => false,
        }
    }

    /// What holds between any two steps of a build: the run is at what the phase says, and the
    /// pool and the builder's transaction come in only where the attributes allow for them.
    pub open spec fn wf(&self) -> bool {
        &&& self.run.wf()
        &&& self.no_tx_pool() ==> !self.run.past_sequencer
        &&& match self.phase {
            VanillaPhase::PreBlock { stage } => {
                &&& stage !is Ended
                &&& !self.run.past_sequencer
                &&& self.run.info@ == InfoView::empty()
                &&& self.run.next_sequencer == 0
                &&& self.run.stage == self.run.sequencer_stage(0)
            },
            VanillaPhase::Sequencer => !self.run.past_sequencer && self.run.stage !is Ended,
            VanillaPhase::Reserve => {
                &&& !self.no_tx_pool()
                &&& !self.run.past_sequencer
                &&& self.run.ended_well()
            },
            VanillaPhase::Pool { message } => {
                &&& self.is_message(message)
                &&& 21_000 + 16 * message@.len() <= u64::MAX
                &&& self.run.in_pool(self.pool_gas_limit(message@))
            },
            VanillaPhase::BuilderTx => self.at_builder_tx(),
            VanillaPhase::Withdrawals | VanillaPhase::Roots { .. } => if self.no_tx_pool() {
                self.run.ended_well()
            } else {
                self.run.stage is BuilderDone
            },
            VanillaPhase::Failed { .. } => true,
            VanillaPhase::Stopped => self.run.stage matches Stage::Ended { outcome }
                && outcome != Ok::<Option<()>, PayloadBuilderError>(None),
        }
    }

    /// A build that has done nothing yet.
    pub fn new(strategy: Strategy, ctx: OpPayloadBuilderCtx) -> (r: VanillaBuild<Strategy>)
        requires
            ctx.wf(),
        ensures
            r.wf(),
            r.run.actions == strategy,
            r.run.ctx == ctx,
            r.phase == (VanillaPhase::PreBlock { stage: PreBlock::BeaconRoot }),
    {
        VanillaBuild {
            run: TransactionsRun::execute_sequencer_transactions(strategy, ctx),
            phase: VanillaPhase::PreBlock { stage: PreBlock::BeaconRoot },
        }
    }

    /// What the node is asked to do next.
    pub fn next(&self) -> (r: VanillaAction<'_>)
        requires
            self.wf(),
        ensures
            match self.phase {
                VanillaPhase::PreBlock { stage } => r == VanillaAction::PreBlock(
                    match stage {
                        PreBlock::BeaconRoot => PreBlockAction::BeaconRootCall {
                            parent_beacon_block_root: self.run.ctx.config.attributes@
                                .parent_beacon_block_root,
                        },
                        _ => PreBlockAction::EnsureCreate2Deployer {
                            timestamp: self.run.ctx.timestamp(),
                        },
                    },
                ),
                VanillaPhase::Sequencer | VanillaPhase::Pool { .. } | VanillaPhase::BuilderTx => {
                    &&& r matches VanillaAction::Run(action)
                    &&& self.run.asks(action)
                    &&& action !is Done
                },
                VanillaPhase::Reserve => r is ReserveGas,
                VanillaPhase::Withdrawals => r == (VanillaAction::CommitWithdrawals {
                    timestamp: self.run.ctx.timestamp(),
                    withdrawals: &self.run.ctx.config.attributes.payload_attributes.withdrawals,
                }),
                VanillaPhase::Roots { .. } => r == (VanillaAction::ComputeRoots {
                    number: self.run.ctx.spec_block_number(),
                    timestamp: self.run.ctx.timestamp(),
                    receipts: &self.run.info.receipts,
                }),
                VanillaPhase::Failed { .. } | VanillaPhase::Stopped => r is Done,
            },
    {
        match &self.phase {
            VanillaPhase::PreBlock { stage } => VanillaAction::PreBlock(
                stage.next(&self.run.ctx),
            ),
            VanillaPhase::Sequencer | VanillaPhase::Pool { .. } | VanillaPhase::BuilderTx =>
                VanillaAction::Run(self.run.next()),
            VanillaPhase::Reserve => VanillaAction::ReserveGas,
            VanillaPhase::Withdrawals => VanillaAction::CommitWithdrawals {
                timestamp: self.run.ctx.attributes().payload_attributes.timestamp,
                withdrawals: &self.run.ctx.attributes().payload_attributes.withdrawals,
            },
            VanillaPhase::Roots { .. } => VanillaAction::ComputeRoots {
                number: self.run.ctx.block_number(),
                timestamp: self.run.ctx.attributes().payload_attributes.timestamp,
                receipts: &self.run.info.receipts,
            },
            VanillaPhase::Failed { .. } | VanillaPhase::Stopped => VanillaAction::Done,
        }
    }

    /// The phase with the sequencer's transactions under way or done: they go on; or one of them
    /// ended the attempt; or it is the pool's turn, unless it must be left alone.
    pub open spec fn sequencer_phase(&self) -> VanillaPhase {
        match self.run.stage {
            Stage::Ended { outcome: Err(_) } => VanillaPhase::Stopped,
            Stage::Ended { outcome: Ok(_) } => if self.no_tx_pool() {
                VanillaPhase::Withdrawals
            } else {
                VanillaPhase::Reserve
            },
            _ => VanillaPhase::Sequencer,
        }
    }

    /// Finds the phase with the sequencer's transactions under way or done.
    fn find_sequencer_phase(&self) -> (r: VanillaPhase)
        ensures
            r == self.sequencer_phase(),
    {
        match &self.run.stage {
            Stage::Ended { outcome: Err(_) } => VanillaPhase::Stopped,
            Stage::Ended { outcome: Ok(_) } => if self.run.ctx.attributes().no_tx_pool {
                VanillaPhase::Withdrawals
            } else {
                VanillaPhase::Reserve
            },
            _ => VanillaPhase::Sequencer,
        }
    }

    /// Takes up the outcome of the eip-4788 pre block contract call.
    pub fn on_beacon_root(&mut self, called: Result<(), String>)
        requires
            old(self).wf(),
            old(self).phase == (VanillaPhase::PreBlock { stage: PreBlock::BeaconRoot }),
        ensures
            final(self).wf(),
            *final(self) == (VanillaBuild {
                phase: match PreBlock::after_beacon_root(called) {
                    PreBlock::Ended { outcome: Err(err) } => VanillaPhase::Failed { err },
                    stage => VanillaPhase::PreBlock { stage },
                },
                ..*old(self)
            }),
    {
        let mut stage = PreBlock::BeaconRoot;
        stage.on_beacon_root(&self.run.ctx, called);
        self.phase = match stage {
            PreBlock::Ended { outcome: Err(err) } => VanillaPhase::Failed { err },
            stage => VanillaPhase::PreBlock { stage },
        };
    }

    /// Takes up the outcome of the forced deployment of the create2 deployer, and turns to the
    /// sequencer's transactions.
    pub fn on_create2_deployer(&mut self, deployed: Result<(), String>)
        requires
            old(self).wf(),
            old(self).phase == (VanillaPhase::PreBlock { stage: PreBlock::Create2Deployer }),
        ensures
            final(self).wf(),
            *final(self) == (VanillaBuild {
                phase: match PreBlock::after_create2_deployer(deployed) {
                    PreBlock::Ended { outcome: Err(err) } => VanillaPhase::Failed { err },
                    _ => old(self).sequencer_phase(),
                },
                ..*old(self)
            }),
    {
        let mut stage = PreBlock::Create2Deployer;
        stage.on_create2_deployer(&self.run.ctx, deployed);
        self.phase = match stage {
            PreBlock::Ended { outcome: Err(err) } => VanillaPhase::Failed { err },
            _ => self.find_sequencer_phase(),
        };
    }

    /// The build after gas was to be set aside for a transaction that carries `message`: where it
    /// fits into the block, it is the pool's turn, which gets what is left; else nothing changed.
    pub open spec fn reserve_step(
        &self,
        message: Vec<u8>,
        fits: bool,
        next: VanillaBuild<Strategy>,
    ) -> bool {
        &&& fits == (reserved_gas(self.run.ctx, message@) <= self.run.ctx.spec_block_gas_limit())
        &&& next == if fits {
            VanillaBuild {
                phase: VanillaPhase::Pool { message },
                run: TransactionsRun {
                    stage: Stage::PoolOpen { gas_limit: self.pool_gas_limit(message@) as u64 },
                    past_sequencer: true,
                    counts: SimulationCounts { considered: 0, simulated: 0, success: 0, fail: 0 },
                    ..self.run
                },
            }
        } else {
            *self
        }
    }

    /// Asks the strategy for the message of the builder's transaction, sets the gas of the
    /// transaction aside and turns to the pool, which gets what is left. Where not even the
    /// builder's transaction fits into the block, nothing is done, and the result is `false`.
    pub fn reserve_gas(&mut self) -> (r: bool)
        requires
            old(self).wf(),
            old(self).phase is Reserve,
        ensures
            final(self).wf(),
            exists|message: Vec<u8>| #[trigger]
                old(self).is_message(message) && old(self).reserve_step(message, r, *final(self)),
    {
        let ghost before = *self;
        let message = self.run.actions.block_message(&self.run.ctx);
        assert(before.is_message(message));
        let reserved: u64 = reserve_builder_gas(&self.run.ctx, &message);
        let limit: u64 = self.run.ctx.block_gas_limit();
        if reserved > limit {
            assert(before.reserve_step(message, false, *self));
            return false;
        }
        self.run.execute_best_transactions(limit - reserved);
        self.phase = VanillaPhase::Pool { message };
        assert(before.reserve_step(message, true, *self));
        true
    }

    /// `next` is this build with the run at `run`, moved on to the next phase where the run is
    /// done with this one: after the pool comes the builder's transaction, which carries the block
    /// message and uses the gas that was set aside; after that, or without a signer, the payload.
    pub open spec fn moves_on(
        &self,
        run: TransactionsRun<Strategy>,
        next: VanillaBuild<Strategy>,
    ) -> bool {
        let stays = VanillaBuild { run, ..*self };
        match (self.phase, run.stage) {
            (VanillaPhase::Sequencer, _) => next == VanillaBuild {
                phase: stays.sequencer_phase(),
                ..stays
            },
            (VanillaPhase::Pool { message: reserved }, Stage::Ended { outcome: Ok(None) }) => {
                &&& next.run == TransactionsRun {
                    stage: next.run.stage,
                    past_sequencer: true,
                    ..run
                }
                &&& match run.ctx.builder_signer {
                    Some(signer) => {
                        &&& next.phase is BuilderTx
                        &&& next.run.stage matches Stage::BuilderNonce {
                            address,
                            gas_limit,
                            message,
                        }
                        &&& address == signer.address
                        &&& gas_limit == reserved_gas(run.ctx, reserved@)
                        &&& message == reserved
                    },
                    None => {
                        &&& next.phase is Withdrawals
                        &&& next.run.stage == Stage::BuilderDone { added: false }
                    },
                }
            },
            (VanillaPhase::Pool { .. }, Stage::Ended { .. }) => next == VanillaBuild {
                phase: VanillaPhase::Stopped,
                ..stays
            },
            (VanillaPhase::BuilderTx, Stage::BuilderDone { .. }) => next == VanillaBuild {
                phase: VanillaPhase::Withdrawals,
                ..stays
            },
            _ => next == stays,
        }
    }

    /// The build after the run took up `event`.
    pub open spec fn run_step(&self, event: RunEvent, next: VanillaBuild<Strategy>) -> bool {
        exists|run: TransactionsRun<Strategy>| #[trigger]
            self.run.steps_to(event, run) && self.moves_on(run, next)
    }

    /// Takes up the outcome of what the run asked for, and moves on to the next phase where the
    /// run is done with this one.
    pub fn on_run(&mut self, event: RunEvent)
        requires
            old(self).wf(),
            old(self).phase is Sequencer || old(self).phase is Pool || old(self).phase is BuilderTx,
            old(self).run.accepts(event),
        ensures
            final(self).wf(),
            old(self).run_step(event, *final(self)),
    {
        let ghost before = *self;
        self.run.step(event);
        let ghost run = self.run;
        assert(before.run.steps_to(event, run));
        let mut phase = VanillaPhase::Stopped;
        core::mem::swap(&mut self.phase, &mut phase);
        self.phase = match phase {
            VanillaPhase::Sequencer => self.find_sequencer_phase(),
            VanillaPhase::Pool { message } => match &self.run.stage {
                Stage::Ended { outcome: Ok(None) } => {
                    let gas_limit: u64 = reserve_builder_gas(&self.run.ctx, &message);
                    self.run.add_builder_tx(gas_limit, message);
                    match self.run.stage {
                        Stage::BuilderDone { .. } => VanillaPhase::Withdrawals,
                        _ => VanillaPhase::BuilderTx,
                    }
                },
                Stage::Ended { .. } => VanillaPhase::Stopped,
                _ => VanillaPhase::Pool { message },
            },
            phase => match &self.run.stage {
                Stage::BuilderDone { .. } => VanillaPhase::Withdrawals,
                _ => phase,
            },
        };
        assert(before.moves_on(run, *self));
    }

    /// Takes up the root of the withdrawals, once they are committed.
    pub fn on_withdrawals(&mut self, committed: Result<Option<B256>, String>)
        requires
            old(self).wf(),
            old(self).phase is Withdrawals,
        ensures
            final(self).wf(),
            *final(self) == (VanillaBuild {
                phase: match committed {
                    Ok(withdrawals_root) => VanillaPhase::Roots { withdrawals_root },
                    Err(err) => VanillaPhase::Failed { err: provider_failed(err) },
                },
                ..*old(self)
            }),
    {
        self.phase = match self.run.ctx.commit_withdrawals(committed) {
            Ok(withdrawals_root) => VanillaPhase::Roots { withdrawals_root },
            Err(err) => VanillaPhase::Failed { err },
        };
    }

    /// The outcome of the build with the roots that the node computed: a payload of the
    /// transactions of the run, which is final where the pool was left alone.
    pub open spec fn payload_outcome(
        &self,
        roots: StateRoots,
        outcome: Result<BuildOutcomeKind, PayloadBuilderError>,
    ) -> bool {
        let ctx = self.run.ctx;
        match ctx.spec_extra_data() {
            Err(err) => outcome == Err::<BuildOutcomeKind, PayloadBuilderError>(err),
            Ok(_) => match outcome {
                Ok(BuildOutcomeKind::Freeze(payload)) => self.no_tx_pool() && self.is_result(
                    roots,
                    payload,
                ),
                Ok(BuildOutcomeKind::Better { payload }) => !self.no_tx_pool() && self.is_result(
                    roots,
                    payload,
                ),
                _ => false,
            },
        }
    }

    /// `payload` is that of the transactions of the run, with the roots that the node computed.
    pub open spec fn is_result(&self, roots: StateRoots, payload: OpBuiltPayload) -> bool {
        let ctx = self.run.ctx;
        &&& self.phase matches VanillaPhase::Roots { withdrawals_root } && is_payload(
            payload,
            ctx,
            self.run.info@,
            withdrawals_root,
            roots,
            shanghai_withdrawals(ctx),
        )
        &&& payload.executed_block matches Some(executed) && {
            &&& executed.block@ == payload.block@
            &&& executed.number == ctx.spec_block_number()
            &&& executed.senders == self.run.info.executed_senders
            &&& executed.receipts == self.run.info.receipts
        }
    }

    /// Builds the payload, once the node has computed the roots.
    pub fn on_roots(self, roots: Result<StateRoots, String>) -> (r: Result<
        BuildOutcomeKind,
        PayloadBuilderError,
    >)
        requires
            self.wf(),
            self.phase is Roots,
            self.run.ctx.config.parent_header.header.number < u64::MAX,
        ensures
            match roots {
                Ok(roots) => self.payload_outcome(roots, r),
                Err(err) => r == Err::<BuildOutcomeKind, PayloadBuilderError>(
                    provider_failed(err),
                ),
            },
    {
        let roots = match roots {
            Ok(roots) => roots,
            Err(err) => {
                return Err(PayloadBuilderError::Internal(InternalError::Provider(err)));
            },
        };
        let withdrawals_root = match self.phase {
            VanillaPhase::Roots { withdrawals_root } => withdrawals_root,
            _ => None,
        };
        let ctx = self.run.ctx;
        match create_payload(&ctx, self.run.info, withdrawals_root, roots) {
            Ok(payload) => if ctx.attributes().no_tx_pool {
                Ok(BuildOutcomeKind::Freeze(payload))
            } else {
                Ok(BuildOutcomeKind::Better { payload })
            },
            Err(err) => Err(err),
        }
    }

    /// The outcome of a build that came to no payload: an error, or that the job was cancelled.
    pub fn into_outcome(self) -> (r: Result<BuildOutcomeKind, PayloadBuilderError>)
        requires
            self.wf(),
            self.phase is Failed || self.phase is Stopped,
        ensures
            r == match (self.phase, self.run.stage) {
                (VanillaPhase::Failed { err }, _) => Err::<BuildOutcomeKind, PayloadBuilderError>(
                    err,
                ),
                (_, Stage::Ended { outcome: Err(err) }) => Err(err),
                _ => Ok(BuildOutcomeKind::Cancelled),
            },
    {
        match (self.phase, self.run.stage) {
            (VanillaPhase::Failed { err }, _) => Err(err),
            (_, Stage::Ended { outcome: Err(err) }) => Err(err),
            _ => Ok(BuildOutcomeKind::Cancelled),
        }
    }
}

/// With `no_tx_pool` in the payload attributes, the only transactions of the payload are those
/// sent through the attributes, in their order; and no fees are tracked.
pub proof fn law_no_tx_pool_only_attributes<
    Strategy: DefaultBuilderTxActions + OpTransactionsActions,
>(
    build: VanillaBuild<Strategy>,
    roots: StateRoots,
    payload: OpBuiltPayload,
)
    requires
        build.wf(),
        build.is_result(roots, payload),
        build.run.ctx.config.attributes.no_tx_pool,
    ensures
        is_subsequence(
            tx_views(payload.block.body.transactions@),
            tx_views(build.run.ctx.config.attributes.transactions@),
        ),
        payload.fees@ == 0,
{
    law_block_order(build.run);
}

/// The payload begins with transactions of the attributes, in their order; it holds no blob
/// transaction, and no deposit but those of the attributes. Each of its transactions has one
/// sender and one receipt; each receipt counts the gas of all transactions up to and with its own,
/// and the last one the gas that the header says was used.
pub proof fn law_payload_of_build<Strategy: DefaultBuilderTxActions + OpTransactionsActions>(
    build: VanillaBuild<Strategy>,
    roots: StateRoots,
    payload: OpBuiltPayload,
)
    requires
        build.wf(),
        build.is_result(roots, payload),
    ensures
        ({
            let txs = tx_views(payload.block.body.transactions@);
            let executed = payload.executed_block->0;
            &&& build.run.sequencer_len <= txs.len()
            &&& is_subsequence(
                txs.take(build.run.sequencer_len as int),
                tx_views(build.run.ctx.config.attributes.transactions@),
            )
            &&& forall|i: int|
                0 <= i < txs.len() ==> (#[trigger] txs[i]).tx_type !is Eip4844
            &&& forall|i: int|
                build.run.sequencer_len <= i < txs.len() ==> (
                #[trigger] txs[i]).tx_type !is Deposit
            &&& executed.senders@.len() == txs.len()
            &&& executed.receipts@.len() == txs.len()
            &&& forall|i: int|
                0 <= i < txs.len() ==> (#[trigger] executed.receipts@[i])@.cumulative_gas_used
                    == total_gas(build.run.gas@.take(i + 1))
            &&& txs.len() > 0 ==> executed.receipts@.last()@.cumulative_gas_used
                == payload.block.header.header.gas_used
        }),
{
    law_block_order(build.run);
    law_receipts_count_block_gas(build.run);
    assert forall|i: int| 0 <= i < build.run.info@.receipts.len() implies (
    #[trigger] build.run.info.receipts@[i])@.cumulative_gas_used == total_gas(
        build.run.gas@.take(i + 1),
    ) by {
        assert(build.run.info@.receipts[i] == build.run.info.receipts@[i]@);
    }
}

/// The strategy that builds one payload, and adds the builder's transaction to it.
#[derive(Clone, Copy, Debug, PartialEq, Eq)]
pub struct VanillaOpBuilderStrategy;

impl VanillaOpBuilderStrategy {
    /// Begins to execute the payload. The outcome is that of the build.
    pub fn execute(&self, ctx: OpPayloadBuilderCtx) -> (r: VanillaBuild<VanillaOpBuilderStrategy>)
        requires
            ctx.wf(),
        ensures
            r.wf(),
            r.run.actions == *self,
            r.run.ctx == ctx,
            r.phase == (VanillaPhase::PreBlock { stage: PreBlock::BeaconRoot }),
    {
        VanillaBuild::new(*self, ctx)
    }
}

impl DefaultBuilderTxActions for VanillaOpBuilderStrategy {
    fn block_message(&self, ctx: &OpPayloadBuilderCtx) -> (r: Vec<u8>)
        ensures
            r@ == message_for(ctx.spec_block_number()),
    {
        proof {
            law_block_message_gas(ctx.spec_block_number());
        }
        block_message(ctx)
    }
}

impl OpTransactionsActions for VanillaOpBuilderStrategy {
    fn screen_pool_transaction(
        &self,
        info: &ExecutionInfo,
        tx: &OpTransactionSigned,
        cancelled: bool,
        gas_limit: u64,
    ) -> (r: PoolDecision)
        ensures
            r == pool_decision(info@, tx@, cancelled, gas_limit),
    {
        screen_pool_transaction(info, tx, cancelled, gas_limit)
    }
}

/// The vanilla strategy decides on a transaction of the pool exactly as it calls for.
pub proof fn law_vanilla_screening(
    run: TransactionsRun<VanillaOpBuilderStrategy>,
    tx: Recovered,
    cancelled: bool,
    next: TransactionsRun<VanillaOpBuilderStrategy>,
)
    requires
        run.wf(),
        run.pool_transaction_step(Some(tx), cancelled, next),
    ensures
        run.stage matches Stage::Pool { gas_limit } && next == run.after_decision(
            gas_limit,
            tx,
            pool_decision(run.info@, tx@.tx, cancelled, gas_limit),
        ),
{
}

/// The builder's transaction of the vanilla strategy carries the block number, in words; what it
/// costs to carry them is set aside, if there is a signer.
pub proof fn law_vanilla_message(build: VanillaBuild<VanillaOpBuilderStrategy>)
    requires
        build.wf(),
    ensures
        build.phase matches VanillaPhase::Pool { message } ==> {
            &&& message@ == message_for(build.run.ctx.spec_block_number())
            &&& build.run.in_pool(
                build.run.ctx.spec_block_gas_limit() - if build.run.ctx.builder_signer is Some {
                    21_000 + 16 * (14 + decimal(build.run.ctx.spec_block_number() as nat).len())
                } else {
                    0
                },
            )
        },
{
    law_block_message_gas(build.run.ctx.spec_block_number());
}

/// Optimism's payload builder
#[derive(Clone, Copy, Debug, PartialEq, Eq)]
pub struct OpPayloadBuilderVanilla<Strategy> {
    /// The builder's signer key to use for an end of block tx
    pub builder_signer: Option<Signer>,
    /// The type responsible for yielding the best transactions for the payload if mempool
    /// transactions are allowed.
    pub best_transactions: BestPoolTransactions,
    /// Strategy to use for building payload.
    pub strategy: Strategy,
}

/// What the job gets of a build: a payload, whether it counts as a block built, and what is
/// reported to the caller.
#[derive(Debug, PartialEq, Eq)]
pub struct BuildReport {
    pub best_payload: Option<OpBuiltPayload>,
    pub block_built: bool,
    pub result: Result<(), PayloadBuilderError>,
}

/// What the environment of the next block is derived from: the attributes of the payload, with
/// the gas limit of the parent block where they set none.
pub fn cfg_and_block_env(attributes: &OpPayloadBuilderAttributes, parent: &Header) -> (r:
    NextBlockEnvAttributes)
    ensures
        r == (NextBlockEnvAttributes {
            timestamp: attributes@.timestamp,
            suggested_fee_recipient: attributes@.suggested_fee_recipient,
            prev_randao: attributes@.prev_randao,
            gas_limit: match attributes.gas_limit {
                Some(gas_limit) => gas_limit,
                None => parent.gas_limit,
            },
        }),
{
    NextBlockEnvAttributes {
        timestamp: attributes.payload_attributes.timestamp,
        suggested_fee_recipient: attributes.payload_attributes.suggested_fee_recipient,
        prev_randao: attributes.payload_attributes.prev_randao,
        gas_limit: match attributes.gas_limit {
            Some(gas_limit) => gas_limit,
            None => parent.gas_limit,
        },
    }
}

/// The context of a payload job, once the environment of the block and the state of its parent
/// are there: without either the attempt fails, for want of the environment first.
pub fn payload_context(
    chain_spec: ChainSpec,
    base_fee_params: BaseFeeParams,
    config: PayloadConfig,
    builder_signer: Option<Signer>,
    block_env: Result<BlockEnv, String>,
    state: Result<(), String>,
) -> (r: Result<OpPayloadBuilderCtx, PayloadBuilderError>)
    ensures
        r == match (block_env, state) {
            (Err(err), _) => Err::<OpPayloadBuilderCtx, PayloadBuilderError>(
                PayloadBuilderError::Other(OtherError::EvmConfig(err)),
            ),
            (_, Err(err)) => Err(provider_failed(err)),
            (Ok(initialized_block_env), Ok(())) => Ok(
                OpPayloadBuilderCtx {
                    chain_spec,
                    config,
                    initialized_block_env,
                    base_fee_params,
                    builder_signer,
                },
            ),
        },
{
    let initialized_block_env = match block_env {
        Ok(block_env) => block_env,
        Err(err) => {
            return Err(PayloadBuilderError::Other(OtherError::EvmConfig(err)));
        },
    };
    match state {
        Ok(()) => Ok(
            OpPayloadBuilderCtx {
                chain_spec,
                config,
                initialized_block_env,
                base_fee_params,
                builder_signer,
            },
        ),
        Err(err) => Err(PayloadBuilderError::Internal(InternalError::Provider(err))),
    }
}

impl<
    Strategy: DefaultBuilderTxActions + OpTransactionsActions + Copy,
> OpPayloadBuilderVanilla<Strategy> {
    /// `OpPayloadBuilder` constructor.
    pub fn new(builder_signer: Option<Signer>, strategy: Strategy) -> (r: OpPayloadBuilderVanilla<
        Strategy,
    >)
        ensures
            r == (OpPayloadBuilderVanilla {
                builder_signer,
                best_transactions: BestPoolTransactions,
                strategy,
            }),
    {
        OpPayloadBuilderVanilla {
            builder_signer,
            best_transactions: BestPoolTransactions,
            strategy,
        }
    }

    /// What the environment of the targeted payload (that has the `parent` as its parent) is
    /// derived from.
    pub fn cfg_and_block_env(&self, attributes: &OpPayloadBuilderAttributes, parent: &Header) -> (r:
        NextBlockEnvAttributes)
        ensures
            r == (NextBlockEnvAttributes {
                timestamp: attributes@.timestamp,
                suggested_fee_recipient: attributes@.suggested_fee_recipient,
                prev_randao: attributes@.prev_randao,
                gas_limit: match attributes.gas_limit {
                    Some(gas_limit) => gas_limit,
                    None => parent.gas_limit,
                },
            }),
    {
        cfg_and_block_env(attributes, parent)
    }

    /// Begins to construct an Optimism payload from the transactions sent via the
    /// Payload attributes by the sequencer. If the `no_tx_pool` argument is passed in
    /// the payload attributes, the transaction pool will be ignored and the only transactions
    /// in the payload will be those sent through the attributes.
    ///
    /// Fails where the environment of the block or the state of its parent cannot be had.
    pub fn build_payload(
        &self,
        chain_spec: ChainSpec,
        base_fee_params: BaseFeeParams,
        config: PayloadConfig,
        block_env: Result<BlockEnv, String>,
        state: Result<(), String>,
    ) -> (r: Result<VanillaBuild<Strategy>, PayloadBuilderError>)
        requires
            block_env matches Ok(block_env) ==> state is Ok ==> block_env.number@ <= u64::MAX
                && block_env.basefee@ <= u64::MAX,
        ensures
            match (block_env, state) {
                (Err(err), _) => r == Err::<VanillaBuild<Strategy>, PayloadBuilderError>(
                    PayloadBuilderError::Other(OtherError::EvmConfig(err)),
                ),
                (_, Err(err)) => r == Err::<VanillaBuild<Strategy>, PayloadBuilderError>(
                    provider_failed(err),
                ),
                (Ok(initialized_block_env), Ok(())) => {
                    &&& r matches Ok(build)
                    &&& build.wf()
                    &&& build.run.actions == self.strategy
                    &&& build.phase == (VanillaPhase::PreBlock { stage: PreBlock::BeaconRoot })
                    &&& build.run.ctx == (OpPayloadBuilderCtx {
                        chain_spec,
                        config,
                        initialized_block_env,
                        base_fee_params,
                        builder_signer: self.builder_signer,
                    })
                },
            },
    {
        match payload_context(
            chain_spec,
            base_fee_params,
            config,
            self.builder_signer,
            block_env,
            state,
        ) {
            Ok(ctx) => Ok(VanillaBuild::new(self.strategy, ctx)),
            Err(err) => Err(err),
        }
    }

    /// Whether the build reads the state through what earlier builds of the job have read:
    /// only a sequencer, which may take transactions from the pool, builds more than once.
    pub fn reuses_cached_reads(&self, attributes: &OpPayloadBuilderAttributes) -> (r: bool)
        ensures
            r == !attributes.no_tx_pool,
    {
        !attributes.no_tx_pool
    }

    /// What the job gets of a build. A payload is set, and a better one counts as a block built;
    /// without a payload the job reports that there is none; an error is passed on.
    pub fn try_build<Reads>(
        &self,
        outcome: Result<BuildOutcome<Reads>, PayloadBuilderError>,
    ) -> (r: BuildReport)
        ensures
            r == match outcome {
                Ok(BuildOutcome::Better { payload, .. }) => BuildReport {
                    best_payload: Some(payload),
                    block_built: true,
                    result: Ok(()),
                },
                Ok(BuildOutcome::Freeze(payload)) => BuildReport {
                    best_payload: Some(payload),
                    block_built: false,
                    result: Ok(()),
                },
                Ok(_) => BuildReport {
                    best_payload: None,
                    block_built: false,
                    result: Err(PayloadBuilderError::MissingPayload),
                },
                Err(err) => BuildReport {
                    best_payload: None,
                    block_built: false,
                    result: Err(err),
                },
            },
    {
        match outcome {
            Ok(BuildOutcome::Better { payload, .. }) => BuildReport {
                best_payload: Some(payload),
                block_built: true,
                result: Ok(()),
            },
            Ok(BuildOutcome::Freeze(payload)) => BuildReport {
                best_payload: Some(payload),
                block_built: false,
                result: Ok(()),
            },
            Ok(_) => BuildReport {
                best_payload: None,
                block_built: false,
                result: Err(PayloadBuilderError::MissingPayload),
            },
            Err(err) => BuildReport { best_payload: None, block_built: false, result: Err(err) },
        }
    }
}

} // verus!
