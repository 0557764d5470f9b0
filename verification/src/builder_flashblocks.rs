//! The flashblocks strategy: a block that is published again and again while it grows.

use vstd::prelude::*;

use crate::actions::payload::{build_growing_payload, is_payload, OpBuiltPayload, StateRoots};
use crate::actions::pre_block::{PreBlock, PreBlockAction};
use crate::actions::tx_executor::{
    law_block_order, law_receipts_count_block_gas, law_step_appends, pool_decision,
    screen_pool_transaction, OpTransactionsActions, PoolDecision, RunAction, RunEvent,
    SimulationCounts, Stage, TransactionsRun,
};
use crate::chain::{BaseFeeParams, BlockEnv, ChainSpec, PayloadConfig, Withdrawal};
use crate::components::execution_info::{total_gas, ExecutionInfo, InfoView};
use crate::components::payload_context::OpPayloadBuilderCtx;
use crate::errors::{InternalError, OtherError, PayloadBuilderError};
use crate::payload_builder_vanilla::{payload_context, provider_failed};
use crate::primitives::{tx_views, OpReceipt, OpTransactionSigned, Recovered, TxView, B256};
use crate::subsequence::is_subsequence;

verus! {

/// How long to wait between two flashblocks, in milliseconds.
pub const FLASHBLOCK_PAUSE_MILLIS: u64 = 250;

/// Into how many batches the gas of a block is divided.
pub const BATCHES_PER_BLOCK: u64 = 4;

/// How much gas the block may have used after each batch.
#[derive(Clone, Copy, Debug, PartialEq, Eq)]
pub struct FlashblocksSchedule {
    pub gas_per_batch: u64,
    /// The gas limit of the batch under way and all before it.
    pub total_gas_per_batch: u64,
    /// How many batches are done.
    pub flashblock_count: u64,
}

impl FlashblocksSchedule {
    /// The share of a batch is a quarter of the block; each batch adds its share to what those
    /// before it may use.
    pub open spec fn wf(&self, block_gas_limit: u64) -> bool {
        &&& self.gas_per_batch == block_gas_limit / BATCHES_PER_BLOCK
        &&& self.total_gas_per_batch == (self.flashblock_count + 1) * self.gas_per_batch
    }

    /// The schedule of a block before its first batch.
    pub open spec fn first(block_gas_limit: u64) -> FlashblocksSchedule {
        FlashblocksSchedule {
            gas_per_batch: block_gas_limit / BATCHES_PER_BLOCK,
            total_gas_per_batch: block_gas_limit / BATCHES_PER_BLOCK,
            flashblock_count: 0,
        }
    }

    /// The schedule of a block before its first batch.
    pub fn new(block_gas_limit: u64) -> (r: FlashblocksSchedule)
        ensures
            r == FlashblocksSchedule::first(block_gas_limit),
            r.wf(block_gas_limit),
    {
        let gas_per_batch: u64 = block_gas_limit / BATCHES_PER_BLOCK;
        assert((0 + 1) * gas_per_batch == gas_per_batch) by (nonlinear_arith);
        FlashblocksSchedule {
            gas_per_batch,
            total_gas_per_batch: gas_per_batch,
            flashblock_count: 0,
        }
    }

    /// Another batch can be counted.
    pub open spec fn has_room(&self) -> bool {
        &&& self.total_gas_per_batch + self.gas_per_batch <= u64::MAX
        &&& self.flashblock_count < u64::MAX
    }

    /// Whether another batch can be counted.
    pub fn can_advance(&self) -> (r: bool)
        ensures
            r == self.has_room(),
    {
        self.gas_per_batch <= u64::MAX - self.total_gas_per_batch && self.flashblock_count
            < u64::MAX
    }

    /// The schedule after one more batch.
    pub open spec fn advanced(&self) -> FlashblocksSchedule {
        FlashblocksSchedule {
            gas_per_batch: self.gas_per_batch,
            total_gas_per_batch: (self.total_gas_per_batch + self.gas_per_batch) as u64,
            flashblock_count: (self.flashblock_count + 1) as u64,
        }
    }

    /// Counts a batch.
    pub fn advance(&mut self)
        requires
            old(self).has_room(),
        ensures
            *final(self) == old(self).advanced(),
            forall|limit: u64| #[trigger] old(self).wf(limit) ==> final(self).wf(limit),
    {
        let ghost count = self.flashblock_count;
        let ghost share = self.gas_per_batch;
        self.total_gas_per_batch = self.total_gas_per_batch + self.gas_per_batch;
        self.flashblock_count = self.flashblock_count + 1;
        assert((count + 2) * share == (count + 1) * share + share) by (nonlinear_arith);
    }
}

/// The first four batches stay within the gas limit of the block, and the fourth leaves less than
/// four units of it unused.
pub proof fn law_four_batches_fill_block(schedule: FlashblocksSchedule, block_gas_limit: u64)
    requires
        schedule.wf(block_gas_limit),
    ensures
        schedule.flashblock_count < BATCHES_PER_BLOCK ==> schedule.total_gas_per_batch
            <= block_gas_limit,
        schedule.flashblock_count == BATCHES_PER_BLOCK - 1 ==> block_gas_limit
            - schedule.total_gas_per_batch < BATCHES_PER_BLOCK,
{
    let count = schedule.flashblock_count;
    let share = schedule.gas_per_batch;
    if count < BATCHES_PER_BLOCK {
        assert((count + 1) * share <= 4 * share) by (nonlinear_arith)
            requires
                count < 4,
        ;
    }
}

/// Where a build of flashblocks stands.
#[derive(Debug, PartialEq, Eq)]
pub enum FlashblocksPhase {
    /// The actions before the first transaction.
    PreBlock { stage: PreBlock },
    /// The sequencer's transactions.
    Sequencer,
    /// The withdrawals are about to be committed.
    Withdrawals,
    /// The roots of the state and the receipts are about to be computed.
    Roots { withdrawals_root: Option<B256> },
    /// The payload is about to be published.
    Publish,
    /// Before a batch: is the job cancelled?
    BeforeBatch,
    /// The transactions of the pool.
    Pool,
    /// After a batch: is the job cancelled?
    AfterBatch,
    /// The pause between two flashblocks.
    Pause,
    /// Nothing: the job is done, or was cancelled.
    Finished,
    /// Nothing: the build failed before the transactions, or after them.
    Failed { err: PayloadBuilderError },
    /// Nothing: a transaction ended the attempt.
    Stopped,
}

/// How the transactions under way stand.
#[derive(Clone, Copy, Debug, PartialEq, Eq, Structural)]
pub enum Progress {
    /// There is more to do.
    Going,
    /// They are done.
    Done,
    /// One of them ended the attempt.
    Failed,
}

/// The order of events of a block that is published while it grows: first a fallback block with
/// the sequencer's transactions alone, then, unless the pool must be left alone, one flashblock
/// after the other until the job is cancelled.
pub struct FlashblocksFlow {
    pub schedule: FlashblocksSchedule,
    pub phase: FlashblocksPhase,
    /// Whether the fallback block is published.
    pub fallback_built: bool,
    /// The payloads so far.
    pub published: Ghost<Seq<OpBuiltPayload>>,
}

/// The transactions of a payload.
pub open spec fn payload_txs(payload: OpBuiltPayload) -> Seq<TxView> {
    tx_views(payload.block.body.transactions@)
}

/// `payload` answers the job of `ctx`: it has the id of the job, and is a block after the parent
/// with the gas limit that the job targets.
pub open spec fn answers(payload: OpBuiltPayload, ctx: OpPayloadBuilderCtx) -> bool {
    let header = payload.block.header.header;
    &&& payload.id == ctx.config.attributes.payload_attributes.id
    &&& header.number == (ctx.config.parent_header.header.number + 1) as u64
    &&& header.parent_hash == ctx.config.parent_header.hash
    &&& header.gas_limit == ctx.spec_block_gas_limit()
}

/// A block that has taken up `info` begins with all transactions of `payload`, and has used at
/// least its gas and earned at least its fees.
pub open spec fn extends(info: InfoView, payload: OpBuiltPayload) -> bool {
    &&& payload_txs(payload).is_prefix_of(info.transactions)
    &&& payload.block.header.header.gas_used <= info.cumulative_gas_used
    &&& payload.fees@ <= info.total_fees
}

/// `later` begins with all transactions of `earlier`, and uses at least its gas and earns at least
/// its fees.
pub open spec fn grows(earlier: OpBuiltPayload, later: OpBuiltPayload) -> bool {
    &&& payload_txs(earlier).is_prefix_of(payload_txs(later))
    &&& earlier.block.header.header.gas_used <= later.block.header.header.gas_used
    &&& earlier.fees@ <= later.fees@
}

impl FlashblocksFlow {
    /// How many payloads there were when the phase began.
    pub open spec fn payloads(&self) -> int {
        match self.phase {
            FlashblocksPhase::PreBlock { .. } | FlashblocksPhase::Sequencer => 0,
            FlashblocksPhase::Withdrawals | FlashblocksPhase::Roots { .. } =>
                if self.fallback_built {
                    self.schedule.flashblock_count + 1
                } else {
                    0
                },
            FlashblocksPhase::Publish => if self.fallback_built {
                self.schedule.flashblock_count + 2
            } else {
                1
            },
            FlashblocksPhase::BeforeBatch
            | FlashblocksPhase::Pool
            | FlashblocksPhase::AfterBatch
            | FlashblocksPhase::Pause => self.schedule.flashblock_count + 1,
            _ => self.published@.len() as int,
        }
    }

    /// What holds between any two steps, for a block that has taken up `info` so far:
    ///
    /// - each payload begins with all transactions of the one before it, and uses at least its gas
    ///   and earns at least its fees; so does the block, measured by the last payload;
    /// - all payloads answer the same job;
    /// - the first payload has transactions of the attributes alone and no fees, and it is the only
    ///   one where the pool must be left alone.
    pub open spec fn wf(&self, ctx: OpPayloadBuilderCtx, info: InfoView) -> bool {
        let no_tx_pool = ctx.config.attributes.no_tx_pool;
        &&& self.schedule.wf(ctx.spec_block_gas_limit())
        &&& self.published@.len() == self.payloads()
        &&& forall|i: int|
            0 <= i < self.published@.len() ==> extends(info, #[trigger] self.published@[i])
        &&& forall|i: int|
            0 <= i < self.published@.len() ==> answers(#[trigger] self.published@[i], ctx)
        &&& forall|i: int, j: int|
            0 <= i <= j < self.published@.len() ==> grows(
                #[trigger] self.published@[i],
                #[trigger] self.published@[j],
            )
        &&& self.published@.len() > 0 ==> self.published@[0].fees@ == 0 && is_subsequence(
            payload_txs(self.published@[0]),
            tx_views(ctx.config.attributes.transactions@),
        )
        &&& no_tx_pool ==> self.published@.len() <= 1
        &&& !self.fallback_built ==> self.schedule.flashblock_count == 0
        &&& match self.phase {
            FlashblocksPhase::PreBlock { stage } => stage !is Ended && !self.fallback_built,
            FlashblocksPhase::Sequencer => !self.fallback_built,
            FlashblocksPhase::Withdrawals
            | FlashblocksPhase::Roots { .. }
            | FlashblocksPhase::Publish => self.fallback_built ==> !no_tx_pool,
            FlashblocksPhase::BeforeBatch
            | FlashblocksPhase::Pool
            | FlashblocksPhase::AfterBatch
            | FlashblocksPhase::Pause => self.fallback_built && !no_tx_pool,
            FlashblocksPhase::Finished => self.published@.len() >= 1,
            _ => true,
        }
    }

    /// The order of events of a block before anything has happened.
    pub fn new(ctx: &OpPayloadBuilderCtx) -> (r: FlashblocksFlow)
        ensures
            forall|info: InfoView| r.wf(*ctx, info),
            r.phase == (FlashblocksPhase::PreBlock { stage: PreBlock::BeaconRoot }),
            r.schedule == FlashblocksSchedule::first(ctx.spec_block_gas_limit()),
            !r.fallback_built,
            r.published@ == Seq::<OpBuiltPayload>::empty(),
    {
        FlashblocksFlow {
            schedule: FlashblocksSchedule::new(ctx.block_gas_limit()),
            phase: FlashblocksPhase::PreBlock { stage: PreBlock::BeaconRoot },
            fallback_built: false,
            published: Ghost(Seq::empty()),
        }
    }

    /// Takes up the outcome of the eip-4788 pre block contract call.
    pub fn on_beacon_root(&mut self, ctx: &OpPayloadBuilderCtx, called: Result<(), String>)
        requires
            old(self).phase == (FlashblocksPhase::PreBlock { stage: PreBlock::BeaconRoot }),
        ensures
            forall|info: InfoView| #[trigger]
                old(self).wf(*ctx, info) ==> final(self).wf(*ctx, info),
            *final(self) == (FlashblocksFlow {
                phase: match PreBlock::after_beacon_root(called) {
                    PreBlock::Ended { outcome: Err(err) } => FlashblocksPhase::Failed { err },
                    stage => FlashblocksPhase::PreBlock { stage },
                },
                ..*old(self)
            }),
    {
        let mut stage = PreBlock::BeaconRoot;
        stage.on_beacon_root(ctx, called);
        self.phase = match stage {
            PreBlock::Ended { outcome: Err(err) } => FlashblocksPhase::Failed { err },
            stage => FlashblocksPhase::PreBlock { stage },
        };
    }

    /// Takes up the outcome of the forced deployment of the create2 deployer, and turns to the
    /// sequencer's transactions.
    pub fn on_create2_deployer(&mut self, ctx: &OpPayloadBuilderCtx, deployed: Result<(), String>)
        requires
            old(self).phase == (FlashblocksPhase::PreBlock { stage: PreBlock::Create2Deployer }),
        ensures
            forall|info: InfoView| #[trigger]
                old(self).wf(*ctx, info) ==> final(self).wf(*ctx, info),
            *final(self) == (FlashblocksFlow {
                phase: match PreBlock::after_create2_deployer(deployed) {
                    PreBlock::Ended { outcome: Err(err) } => FlashblocksPhase::Failed { err },
                    _ => FlashblocksPhase::Sequencer,
                },
                ..*old(self)
            }),
    {
        let mut stage = PreBlock::Create2Deployer;
        stage.on_create2_deployer(ctx, deployed);
        self.phase = match stage {
            PreBlock::Ended { outcome: Err(err) } => FlashblocksPhase::Failed { err },
            _ => FlashblocksPhase::Sequencer,
        };
    }

    /// The phase with transactions under way that stand as `progress` says: a block is built of
    /// the sequencer's once they are done; after those of the pool, the job may be cancelled.
    pub open spec fn transactions_phase(&self, progress: Progress) -> FlashblocksPhase {
        match (progress, self.phase) {
            (Progress::Failed, _) => FlashblocksPhase::Stopped,
            (Progress::Done, FlashblocksPhase::Sequencer) => FlashblocksPhase::Withdrawals,
            (Progress::Done, _) => FlashblocksPhase::AfterBatch,
            (Progress::Going, phase) => phase,
        }
    }

    /// Takes up how the transactions under way stand.
    pub fn on_transactions(&mut self, progress: Progress)
        requires
            old(self).phase is Sequencer || old(self).phase is Pool,
        ensures
            forall|ctx: OpPayloadBuilderCtx, info: InfoView| #[trigger]
                old(self).wf(ctx, info) ==> final(self).wf(ctx, info),
            *final(self) == (FlashblocksFlow {
                phase: old(self).transactions_phase(progress),
                ..*old(self)
            }),
    {
        match progress {
            Progress::Failed => {
                self.phase = FlashblocksPhase::Stopped;
            },
            Progress::Done => {
                self.phase = match self.phase {
                    FlashblocksPhase::Sequencer => FlashblocksPhase::Withdrawals,
                    _ => FlashblocksPhase::AfterBatch,
                };
            },
            Progress::Going => {},
        }
    }

    /// Takes up the root of the withdrawals, once they are committed.
    pub fn on_withdrawals(
        &mut self,
        ctx: &OpPayloadBuilderCtx,
        committed: Result<Option<B256>, String>,
    )
        requires
            old(self).phase is Withdrawals,
        ensures
            forall|info: InfoView| #[trigger]
                old(self).wf(*ctx, info) ==> final(self).wf(*ctx, info),
            *final(self) == (FlashblocksFlow {
                phase: match committed {
                    Ok(withdrawals_root) => FlashblocksPhase::Roots { withdrawals_root },
                    Err(err) => FlashblocksPhase::Failed { err: provider_failed(err) },
                },
                ..*old(self)
            }),
    {
        self.phase = match ctx.commit_withdrawals(committed) {
            Ok(withdrawals_root) => FlashblocksPhase::Roots { withdrawals_root },
            Err(err) => FlashblocksPhase::Failed { err },
        };
    }

    /// Takes up that a payload was built.
    pub(crate) fn on_payload(&mut self, Ghost(payload): Ghost<OpBuiltPayload>)
        requires
            old(self).phase is Roots,
        ensures
            forall|ctx: OpPayloadBuilderCtx, info: InfoView| #[trigger]
                old(self).wf(ctx, info) && {
                    &&& payload_txs(payload) == info.transactions
                    &&& payload.block.header.header.gas_used == info.cumulative_gas_used
                    &&& payload.fees@ == info.total_fees
                    &&& answers(payload, ctx)
                    &&& old(self).fallback_built || (info.total_fees == 0 && is_subsequence(
                        info.transactions,
                        tx_views(ctx.config.attributes.transactions@),
                    ))
                } ==> final(self).wf(ctx, info),
            *final(self) == (FlashblocksFlow {
                phase: FlashblocksPhase::Publish,
                published: Ghost(old(self).published@.push(payload)),
                ..*old(self)
            }),
    {
        self.phase = FlashblocksPhase::Publish;
        self.published = Ghost(self.published@.push(payload));
    }

    /// Takes up that no payload could be built.
    pub fn on_failure(&mut self, err: PayloadBuilderError)
        requires
            old(self).phase is Roots,
        ensures
            forall|ctx: OpPayloadBuilderCtx, info: InfoView| #[trigger]
                old(self).wf(ctx, info) ==> final(self).wf(ctx, info),
            *final(self) == (FlashblocksFlow {
                phase: FlashblocksPhase::Failed { err },
                ..*old(self)
            }),
    {
        self.phase = FlashblocksPhase::Failed { err };
    }

    /// The order of events after the payload is published. The fallback block is the last one
    /// where the pool must be left alone.
    pub open spec fn after_publication(&self, no_tx_pool: bool) -> FlashblocksFlow {
        if self.fallback_built {
            FlashblocksFlow {
                schedule: self.schedule.advanced(),
                phase: FlashblocksPhase::Pause,
                ..*self
            }
        } else {
            FlashblocksFlow {
                phase: if no_tx_pool {
                    FlashblocksPhase::Finished
                } else {
                    FlashblocksPhase::BeforeBatch
                },
                fallback_built: true,
                ..*self
            }
        }
    }

    /// Takes up that the payload is published.
    pub fn on_published(&mut self, ctx: &OpPayloadBuilderCtx)
        requires
            old(self).phase is Publish,
            old(self).fallback_built ==> old(self).schedule.has_room(),
        ensures
            forall|info: InfoView| #[trigger]
                old(self).wf(*ctx, info) ==> final(self).wf(*ctx, info),
            *final(self) == old(self).after_publication(ctx.config.attributes.no_tx_pool),
    {
        if self.fallback_built {
            self.schedule.advance();
            self.phase = FlashblocksPhase::Pause;
        } else {
            self.fallback_built = true;
            self.phase = if ctx.attributes().no_tx_pool {
                // no block with transactions from the pool is needed
                FlashblocksPhase::Finished
            } else {
                FlashblocksPhase::BeforeBatch
            };
        }
    }

    /// Takes up whether the job is cancelled, before a batch or after it. A cancelled job is done;
    /// else a batch begins, or its block is built.
    pub fn on_cancel_check(&mut self, cancelled: bool)
        requires
            old(self).phase is BeforeBatch || old(self).phase is AfterBatch,
        ensures
            forall|ctx: OpPayloadBuilderCtx, info: InfoView| #[trigger]
                old(self).wf(ctx, info) ==> final(self).wf(ctx, info),
            *final(self) == (FlashblocksFlow {
                phase: if cancelled {
                    FlashblocksPhase::Finished
                } else if old(self).phase is BeforeBatch {
                    FlashblocksPhase::Pool
                } else {
                    FlashblocksPhase::Withdrawals
                },
                ..*old(self)
            }),
    {
        self.phase = if cancelled {
            FlashblocksPhase::Finished
        } else {
            match self.phase {
                FlashblocksPhase::BeforeBatch => FlashblocksPhase::Pool,
                _ => FlashblocksPhase::Withdrawals,
            }
        };
    }

    /// Takes up that the pause is over.
    pub fn on_paused(&mut self)
        requires
            old(self).phase is Pause,
        ensures
            forall|ctx: OpPayloadBuilderCtx, info: InfoView| #[trigger]
                old(self).wf(ctx, info) ==> final(self).wf(ctx, info),
            *final(self) == (FlashblocksFlow {
                phase: FlashblocksPhase::BeforeBatch,
                ..*old(self)
            }),
    {
        self.phase = FlashblocksPhase::BeforeBatch;
    }
}

/// Builds a payload of the transactions so far, which may grow further. The withdrawals of the
/// payload attributes are in the block in any case, and nothing of the execution goes with the
/// payload: transitions are merged for each such block, where the node expects them merged once.
pub fn build_block(
    ctx: &OpPayloadBuilderCtx,
    info: &ExecutionInfo,
    withdrawals_root: Option<B256>,
    roots: StateRoots,
) -> (r: Result<OpBuiltPayload, PayloadBuilderError>)
    requires
        ctx.wf(),
        ctx.spec_block_number() == ctx.config.parent_header.header.number + 1,
    ensures
        match ctx.spec_extra_data() {
            Err(err) => r == Err::<OpBuiltPayload, PayloadBuilderError>(err),
            Ok(_) => {
                &&& r matches Ok(payload)
                &&& is_payload(
                    payload,
                    *ctx,
                    info@,
                    withdrawals_root,
                    roots,
                    Some(ctx.config.attributes.payload_attributes.withdrawals@),
                )
                &&& payload.executed_block is None
            },
        },
{
    build_growing_payload(
        ctx,
        &info.executed_transactions,
        &info.receipts,
        info.cumulative_gas_used,
        info.total_fees,
        withdrawals_root,
        roots,
    )
}

/// A block that grows still extends each payload.
pub(crate) proof fn lemma_block_grows(
    flow: FlashblocksFlow,
    ctx: OpPayloadBuilderCtx,
    info: InfoView,
    more: InfoView,
)
    requires
        flow.wf(ctx, info),
        info.transactions.is_prefix_of(more.transactions),
        info.cumulative_gas_used <= more.cumulative_gas_used,
        info.total_fees <= more.total_fees,
    ensures
        flow.wf(ctx, more),
{
    assert forall|i: int| 0 <= i < flow.published@.len() implies extends(
        more,
        #[trigger] flow.published@[i],
    ) by {
        let part = payload_txs(flow.published@[i]);
        assert(extends(info, flow.published@[i]));
        assert(part =~= more.transactions.subrange(0, part.len() as int));
    }
}

/// What the node is asked to do next.
#[derive(Debug, PartialEq, Eq)]
pub enum FlashblocksAction<'a> {
    /// Prepare the state for the first transaction.
    PreBlock(PreBlockAction),
    /// Go on with the transactions.
    Run(RunAction<'a>),
    /// Commit these withdrawals.
    CommitWithdrawals { timestamp: u64, withdrawals: &'a Vec<Withdrawal> },
    /// Compute the root of the state and that of these receipts, those of the block of this number.
    ComputeRoots { number: u64, timestamp: u64, receipts: &'a Vec<OpReceipt> },
    /// Set the payload as the best one of the job and send it to the subscribers.
    Publish,
    /// Report whether the job is cancelled.
    CheckCancelled,
    /// Wait for this long.
    Pause { millis: u64 },
    /// Nothing more.
    Done,
}

/// The build of a block that is published while it grows.
pub struct FlashblocksBuild<Strategy> {
    pub run: TransactionsRun<Strategy>,
    pub flow: FlashblocksFlow,
}

/// How the transactions of a run stand.
pub open spec fn run_progress<Strategy>(run: TransactionsRun<Strategy>) -> Progress {
    match run.stage {
        Stage::Ended { outcome: Ok(_) } => Progress::Done,
        Stage::Ended { outcome: Err(_) } => Progress::Failed,
        _ => Progress::Going,
    }
}

/// How the transactions of a run stand. That the job was cancelled is not a failure.
fn find_progress<Strategy>(run: &TransactionsRun<Strategy>) -> (r: Progress)
    ensures
        r == run_progress(*run),
{
    match &run.stage {
        Stage::Ended { outcome: Ok(_) } => Progress::Done,
        Stage::Ended { outcome: Err(_) } => Progress::Failed,
        _ => Progress::Going,
    }
}

impl<Strategy: OpTransactionsActions> FlashblocksBuild<Strategy> {
    /// What holds between any two steps of a build: the run is at what the phase says, and the
    /// pool comes in only after the fallback block, where the attributes allow for it.
    pub open spec fn wf(&self) -> bool {
        let run = self.run;
        &&& run.wf()
        &&& self.flow.wf(run.ctx, run.info@)
        &&& run.ctx.config.attributes.no_tx_pool ==> !run.past_sequencer
        &&& !self.flow.fallback_built ==> !run.past_sequencer
        &&& match self.flow.phase {
            FlashblocksPhase::PreBlock { .. } => {
                &&& run.info@ == InfoView::empty()
                &&& run.next_sequencer == 0
                &&& run.stage == run.sequencer_stage(0)
            },
            FlashblocksPhase::Sequencer => run.stage !is Ended,
            FlashblocksPhase::Pool => run.in_pool(self.flow.schedule.total_gas_per_batch as int),
            FlashblocksPhase::Stopped => run.stage matches Stage::Ended { outcome }
                && outcome is Err,
            FlashblocksPhase::Failed { .. } => true,
            _ => run.ended_well(),
        }
    }

    /// A build that has done nothing yet.
    pub fn new(strategy: Strategy, ctx: OpPayloadBuilderCtx) -> (r: FlashblocksBuild<Strategy>)
        requires
            ctx.wf(),
        ensures
            r.wf(),
            r.run.actions == strategy,
            r.run.ctx == ctx,
            r.flow.phase == (FlashblocksPhase::PreBlock { stage: PreBlock::BeaconRoot }),
            r.flow.schedule == FlashblocksSchedule::first(ctx.spec_block_gas_limit()),
            !r.flow.fallback_built,
            r.flow.published@.len() == 0,
    {
        let flow = FlashblocksFlow::new(&ctx);
        let run = TransactionsRun::execute_sequencer_transactions(strategy, ctx);
        assert(flow.wf(ctx, run.info@));
        FlashblocksBuild { run, flow }
    }

    /// What the node is asked to do next.
    pub fn next(&self) -> (r: FlashblocksAction<'_>)
        requires
            self.wf(),
        ensures
            match self.flow.phase {
                FlashblocksPhase::PreBlock { stage } => r == FlashblocksAction::PreBlock(
                    match stage {
                        PreBlock::BeaconRoot => PreBlockAction::BeaconRootCall {
                            parent_beacon_block_root: self.run.ctx.config.attributes@
                                .parent_beacon_block_root,
                        },
                        _ => PreBlockAction::EnsureCreate2Deployer {
                            timestamp: self.run.ctx.timestamp(),
                        },
                    },
                ),
                FlashblocksPhase::Sequencer | FlashblocksPhase::Pool => {
                    &&& r matches FlashblocksAction::Run(action)
                    &&& self.run.asks(action)
                    &&& action !is Done
                },
                FlashblocksPhase::Withdrawals => r == (FlashblocksAction::CommitWithdrawals {
                    timestamp: self.run.ctx.timestamp(),
                    withdrawals: &self.run.ctx.config.attributes.payload_attributes.withdrawals,
                }),
                FlashblocksPhase::Roots { .. } => r == (FlashblocksAction::ComputeRoots {
                    number: self.run.ctx.spec_block_number(),
                    timestamp: self.run.ctx.timestamp(),
                    receipts: &self.run.info.receipts,
                }),
                FlashblocksPhase::Publish => r is Publish,
                FlashblocksPhase::BeforeBatch | FlashblocksPhase::AfterBatch => r is CheckCancelled,
                FlashblocksPhase::Pause => r == (FlashblocksAction::Pause {
                    millis: FLASHBLOCK_PAUSE_MILLIS,
                }),
                _ => r is Done,
            },
    {
        match &self.flow.phase {
            FlashblocksPhase::PreBlock { stage } => FlashblocksAction::PreBlock(
                stage.next(&self.run.ctx),
            ),
            FlashblocksPhase::Sequencer | FlashblocksPhase::Pool => FlashblocksAction::Run(
                self.run.next(),
            ),
            FlashblocksPhase::Withdrawals => FlashblocksAction::CommitWithdrawals {
                timestamp: self.run.ctx.attributes().payload_attributes.timestamp,
                withdrawals: &self.run.ctx.attributes().payload_attributes.withdrawals,
            },
            FlashblocksPhase::Roots { .. } => FlashblocksAction::ComputeRoots {
                number: self.run.ctx.block_number(),
                timestamp: self.run.ctx.attributes().payload_attributes.timestamp,
                receipts: &self.run.info.receipts,
            },
            FlashblocksPhase::Publish => FlashblocksAction::Publish,
            FlashblocksPhase::BeforeBatch | FlashblocksPhase::AfterBatch =>
                FlashblocksAction::CheckCancelled,
            FlashblocksPhase::Pause => FlashblocksAction::Pause { millis: FLASHBLOCK_PAUSE_MILLIS },
            _ => FlashblocksAction::Done,
        }
    }

    /// Takes up the outcome of the eip-4788 pre block contract call.
    pub fn on_beacon_root(&mut self, called: Result<(), String>)
        requires
            old(self).wf(),
            old(self).flow.phase == (FlashblocksPhase::PreBlock { stage: PreBlock::BeaconRoot }),
        ensures
            final(self).wf(),
            *final(self) == (FlashblocksBuild {
                flow: FlashblocksFlow {
                    phase: match PreBlock::after_beacon_root(called) {
                        PreBlock::Ended { outcome: Err(err) } => FlashblocksPhase::Failed { err },
                        stage => FlashblocksPhase::PreBlock { stage },
                    },
                    ..old(self).flow
                },
                ..*old(self)
            }),
    {
        self.flow.on_beacon_root(&self.run.ctx, called);
    }

    /// Takes up the outcome of the forced deployment of the create2 deployer, and turns to the
    /// sequencer's transactions: the build is at the first of them, or past them where there are
    /// none, or at an end where the first of them cannot be in a block.
    pub fn on_create2_deployer(&mut self, deployed: Result<(), String>)
        requires
            old(self).wf(),
            old(self).flow.phase == (FlashblocksPhase::PreBlock {
                stage: PreBlock::Create2Deployer,
            }),
        ensures
            final(self).wf(),
            *final(self) == (FlashblocksBuild {
                flow: FlashblocksFlow {
                    phase: match PreBlock::after_create2_deployer(deployed) {
                        PreBlock::Ended { outcome: Err(err) } => FlashblocksPhase::Failed { err },
                        _ => (FlashblocksFlow {
                            phase: FlashblocksPhase::Sequencer,
                            ..old(self).flow
                        }).transactions_phase(run_progress(old(self).run)),
                    },
                    ..old(self).flow
                },
                ..*old(self)
            }),
    {
        self.flow.on_create2_deployer(&self.run.ctx, deployed);
        if let FlashblocksPhase::Sequencer = &self.flow.phase {
            self.flow.on_transactions(find_progress(&self.run));
        }
    }

    /// The build after the run took up `event`: it moves on where the run is done.
    pub open spec fn run_step(&self, event: RunEvent, next: FlashblocksBuild<Strategy>) -> bool {
        &&& self.run.steps_to(event, next.run)
        &&& next.flow == FlashblocksFlow {
            phase: self.flow.transactions_phase(run_progress(next.run)),
            ..self.flow
        }
    }

    /// Takes up the outcome of what the run asked for.
    pub fn on_run(&mut self, event: RunEvent)
        requires
            old(self).wf(),
            old(self).flow.phase is Sequencer || old(self).flow.phase is Pool,
            old(self).run.accepts(event),
        ensures
            final(self).wf(),
            old(self).run_step(event, *final(self)),
    {
        let ghost before = *self;
        self.run.step(event);
        proof {
            law_step_appends(before.run, event, self.run);
            assert(before.run.info@.transactions.is_prefix_of(self.run.info@.transactions));
            lemma_block_grows(self.flow, self.run.ctx, before.run.info@, self.run.info@);
        }
        self.flow.on_transactions(find_progress(&self.run));
    }

    /// Takes up the root of the withdrawals, once they are committed.
    pub fn on_withdrawals(&mut self, committed: Result<Option<B256>, String>)
        requires
            old(self).wf(),
            old(self).flow.phase is Withdrawals,
        ensures
            final(self).wf(),
            *final(self) == (FlashblocksBuild {
                flow: FlashblocksFlow {
                    phase: match committed {
                        Ok(withdrawals_root) => FlashblocksPhase::Roots { withdrawals_root },
                        Err(err) => FlashblocksPhase::Failed { err: provider_failed(err) },
                    },
                    ..old(self).flow
                },
                ..*old(self)
            }),
    {
        self.flow.on_withdrawals(&self.run.ctx, committed);
    }

    /// `payload` is that of the transactions so far, with the roots that the node computed.
    pub open spec fn is_result(&self, roots: StateRoots, payload: OpBuiltPayload) -> bool {
        let ctx = self.run.ctx;
        &&& self.flow.phase matches FlashblocksPhase::Roots { withdrawals_root } && is_payload(
            payload,
            ctx,
            self.run.info@,
            withdrawals_root,
            roots,
            Some(ctx.config.attributes@.withdrawals),
        )
        &&& payload.executed_block is None
    }

    /// Builds a payload of the transactions so far, once the node has computed the roots. It is
    /// to be published next.
    pub fn on_roots(&mut self, roots: Result<StateRoots, String>) -> (r: Option<OpBuiltPayload>)
        requires
            old(self).wf(),
            old(self).flow.phase is Roots,
            old(self).run.ctx.spec_block_number()
                == old(self).run.ctx.config.parent_header.header.number + 1,
        ensures
            final(self).wf(),
            match (roots, old(self).run.ctx.spec_extra_data()) {
                (Ok(roots), Ok(_)) => {
                    &&& r matches Some(payload)
                    &&& old(self).is_result(roots, payload)
                    &&& *final(self) == (FlashblocksBuild {
                        flow: FlashblocksFlow {
                            phase: FlashblocksPhase::Publish,
                            published: Ghost(old(self).flow.published@.push(payload)),
                            ..old(self).flow
                        },
                        ..*old(self)
                    })
                },
                (Ok(_), Err(err)) => {
                    &&& r is None
                    &&& *final(self) == (FlashblocksBuild {
                        flow: FlashblocksFlow {
                            phase: FlashblocksPhase::Failed { err },
                            ..old(self).flow
                        },
                        ..*old(self)
                    })
                },
                (Err(err), _) => {
                    &&& r is None
                    &&& *final(self) == (FlashblocksBuild {
                        flow: FlashblocksFlow {
                            phase: FlashblocksPhase::Failed { err: provider_failed(err) },
                            ..old(self).flow
                        },
                        ..*old(self)
                    })
                },
            },
    {
        let roots = match roots {
            Ok(roots) => roots,
            Err(err) => {
                self.flow.on_failure(PayloadBuilderError::Internal(InternalError::Provider(err)));
                return None;
            },
        };
        let withdrawals_root = match &self.flow.phase {
            FlashblocksPhase::Roots { withdrawals_root } => *withdrawals_root,
            _ => None,
        };
        match build_block(&self.run.ctx, &self.run.info, withdrawals_root, roots) {
            Ok(payload) => {
                proof {
                    law_block_order(self.run);
                }
                self.flow.on_payload(Ghost(payload));
                Some(payload)
            },
            Err(err) => {
                self.flow.on_failure(err);
                None
            },
        }
    }

    /// Another flashblock can be counted.
    pub open spec fn has_room(&self) -> bool {
        self.flow.fallback_built ==> self.flow.schedule.has_room()
    }

    /// Whether another flashblock can be counted.
    pub fn can_publish(&self) -> (r: bool)
        ensures
            r == self.has_room(),
    {
        !self.flow.fallback_built || self.flow.schedule.can_advance()
    }

    /// Takes up that the payload was set and sent to the subscribers. The sending must not fail.
    pub fn on_published(&mut self, _sent: Result<(), String>)
        requires
            old(self).wf(),
            old(self).flow.phase is Publish,
            old(self).has_room(),
            _sent is Ok,
        ensures
            final(self).wf(),
            *final(self) == (FlashblocksBuild {
                flow: old(self).flow.after_publication(
                    old(self).run.ctx.config.attributes.no_tx_pool,
                ),
                ..*old(self)
            }),
    {
        self.flow.on_published(&self.run.ctx);
    }

    /// Takes up whether the job is cancelled, before a batch or after it. Unless it is, a batch
    /// begins, in which transactions are taken from the pool up to the gas limit of this batch, and
    /// the gas counted on top of that of the batches before; or the block of the batch is built.
    pub fn on_cancel_check(&mut self, cancelled: bool)
        requires
            old(self).wf(),
            old(self).flow.phase is BeforeBatch || old(self).flow.phase is AfterBatch,
        ensures
            final(self).wf(),
            final(self).flow == (FlashblocksFlow {
                phase: if cancelled {
                    FlashblocksPhase::Finished
                } else if old(self).flow.phase is BeforeBatch {
                    FlashblocksPhase::Pool
                } else {
                    FlashblocksPhase::Withdrawals
                },
                ..old(self).flow
            }),
            final(self).run == if !cancelled && old(self).flow.phase is BeforeBatch {
                TransactionsRun {
                    stage: Stage::PoolOpen {
                        gas_limit: old(self).flow.schedule.total_gas_per_batch,
                    },
                    past_sequencer: true,
                    counts: SimulationCounts { considered: 0, simulated: 0, success: 0, fail: 0 },
                    ..old(self).run
                }
            } else {
                old(self).run
            },
    {
        self.flow.on_cancel_check(cancelled);
        if let FlashblocksPhase::Pool = &self.flow.phase {
            self.run.execute_best_transactions(self.flow.schedule.total_gas_per_batch);
        }
    }

    /// Takes up that the pause is over.
    pub fn on_paused(&mut self)
        requires
            old(self).wf(),
            old(self).flow.phase is Pause,
        ensures
            final(self).wf(),
            *final(self) == (FlashblocksBuild {
                flow: FlashblocksFlow { phase: FlashblocksPhase::BeforeBatch, ..old(self).flow },
                ..*old(self)
            }),
    {
        self.flow.on_paused();
    }

    /// What the build came to: an error, or that the job is done or was cancelled.
    pub fn into_outcome(self) -> (r: Result<(), PayloadBuilderError>)
        requires
            self.wf(),
            self.flow.phase is Finished || self.flow.phase is Failed || self.flow.phase is Stopped,
        ensures
            r == match (self.flow.phase, self.run.stage) {
                (FlashblocksPhase::Failed { err }, _) => Err::<(), PayloadBuilderError>(err),
                (_, Stage::Ended { outcome: Err(err) }) => Err(err),
                _ => Ok(()),
            },
            r is Ok <==> self.flow.phase is Finished,
    {
        match (self.flow.phase, self.run.stage) {
            (FlashblocksPhase::Failed { err }, _) => Err(err),
            (_, Stage::Ended { outcome: Err(err) }) => Err(err),
            _ => Ok(()),
        }
    }
}

/// Each payload of a job begins with all transactions of those before it, in the same order, and
/// uses at least their gas and earns at least their fees. All have the same id, number, parent and
/// gas limit.
pub proof fn law_flashblocks_extend<Strategy: OpTransactionsActions>(
    build: FlashblocksBuild<Strategy>,
    earlier: int,
    later: int,
)
    requires
        build.wf(),
        0 <= earlier <= later < build.flow.published@.len(),
    ensures
        ({
            let first = build.flow.published@[earlier];
            let second = build.flow.published@[later];
            let header = first.block.header.header;
            let next = second.block.header.header;
            &&& tx_views(first.block.body.transactions@).is_prefix_of(
                tx_views(second.block.body.transactions@),
            )
            &&& header.gas_used <= next.gas_used
            &&& first.fees@ <= second.fees@
            &&& first.id == second.id
            &&& header.number == next.number
            &&& header.parent_hash == next.parent_hash
            &&& header.gas_limit == next.gas_limit
        }),
        payload_txs(build.flow.published@[later]).is_prefix_of(build.run.info@.transactions),
{
    let first = build.flow.published@[earlier];
    let second = build.flow.published@[later];
    assert(answers(first, build.run.ctx) && answers(second, build.run.ctx));
    assert(grows(first, second));
    assert(extends(build.run.info@, second));
}

/// The fallback block has transactions of the payload attributes alone, in their order, and no
/// fees. With `no_tx_pool` in the attributes there is no other block: a build that is finished has
/// published exactly this one.
pub proof fn law_fallback_only_attributes<Strategy: OpTransactionsActions>(
    build: FlashblocksBuild<Strategy>,
)
    requires
        build.wf(),
    ensures
        build.flow.published@.len() > 0 ==> build.flow.published@[0].fees@ == 0 && is_subsequence(
            payload_txs(build.flow.published@[0]),
            tx_views(build.run.ctx.config.attributes.transactions@),
        ),
        build.run.ctx.config.attributes.no_tx_pool ==> build.flow.published@.len() <= 1,
        build.run.ctx.config.attributes.no_tx_pool && build.flow.phase is Finished
            ==> build.flow.published@.len() == 1,
{
}

/// The receipts of a payload that is built of a run, in whichever round, count the exact sum of the
/// gas of all transactions up to and with their own; the last one counts what the header says.
pub proof fn law_flashblock_receipts_count_gas<Strategy: OpTransactionsActions>(
    build: FlashblocksBuild<Strategy>,
    roots: StateRoots,
    payload: OpBuiltPayload,
)
    requires
        build.wf(),
        build.is_result(roots, payload),
    ensures
        build.run.info@.receipts.len() == payload_txs(payload).len(),
        build.run.gas@.len() == payload_txs(payload).len(),
        forall|i: int|
            0 <= i < build.run.info@.receipts.len() ==> (
            #[trigger] build.run.info@.receipts[i]).cumulative_gas_used == total_gas(
                build.run.gas@.take(i + 1),
            ),
        payload.block.header.header.gas_used == total_gas(build.run.gas@),
        build.run.info@.receipts.len() > 0
            ==> build.run.info@.receipts.last().cumulative_gas_used
            == payload.block.header.header.gas_used,
{
    law_receipts_count_block_gas(build.run);
}

/// The strategy that builds flashblocks.
#[derive(Clone, Copy, Debug, PartialEq, Eq)]
pub struct DefaultFlashblocksBuilder {}

impl DefaultFlashblocksBuilder {
    /// Begins to construct an Optimism payload from the transactions sent via the
    /// Payload attributes by the sequencer. If the `no_tx_pool` argument is passed in
    /// the payload attributes, the transaction pool will be ignored and the only transactions
    /// in the payload will be those sent through the attributes.
    ///
    /// Fails where the environment of the block or the state of its parent cannot be had.
    pub fn build(
        &self,
        chain_spec: ChainSpec,
        base_fee_params: BaseFeeParams,
        config: PayloadConfig,
        block_env: Result<BlockEnv, String>,
        state: Result<(), String>,
    ) -> (r: Result<FlashblocksBuild<Self>, PayloadBuilderError>)
        requires
            block_env matches Ok(block_env) ==> state is Ok ==> block_env.number@ <= u64::MAX
                && block_env.basefee@ <= u64::MAX,
        ensures
            match (block_env, state) {
                (Err(err), _) => r == Err::<FlashblocksBuild<Self>, PayloadBuilderError>(
                    PayloadBuilderError::Other(OtherError::EvmConfig(err)),
                ),
                (_, Err(err)) => r == Err::<FlashblocksBuild<Self>, PayloadBuilderError>(
                    provider_failed(err),
                ),
                (Ok(initialized_block_env), Ok(())) => {
                    &&& r matches Ok(build)
                    &&& build.wf()
                    &&& build.run.actions == *self
                    &&& build.flow.phase == (FlashblocksPhase::PreBlock {
                        stage: PreBlock::BeaconRoot,
                    })
                    &&& build.flow.schedule == FlashblocksSchedule::first(
                        build.run.ctx.spec_block_gas_limit(),
                    )
                    &&& !build.flow.fallback_built
                    &&& build.flow.published@.len() == 0
                    &&& build.run.ctx == (OpPayloadBuilderCtx {
                        chain_spec,
                        config,
                        initialized_block_env,
                        base_fee_params,
                        builder_signer: None,
                    })
                },
            },
    {
        match payload_context(chain_spec, base_fee_params, config, None, block_env, state) {
            Ok(ctx) => Ok(FlashblocksBuild::new(*self, ctx)),
            Err(err) => Err(err),
        }
    }
}

impl OpTransactionsActions for DefaultFlashblocksBuilder {
    fn screen_pool_transaction(
        &self,
        info: &ExecutionInfo,
        tx: &OpTransactionSigned,
        cancelled: bool,
        gas_limit: u64,
    ) -> (r: PoolDecision)
        ensures
            r == pool_decision(info@, tx@, cancelled, gas_limit),
    {
        screen_pool_transaction(info, tx, cancelled, gas_limit)
    }
}

/// The flashblocks strategy decides on a transaction of the pool exactly as it calls for.
pub proof fn law_flashblocks_screening(
    run: TransactionsRun<DefaultFlashblocksBuilder>,
    tx: Recovered,
    cancelled: bool,
    next: TransactionsRun<DefaultFlashblocksBuilder>,
)
    requires
        run.wf(),
        run.pool_transaction_step(Some(tx), cancelled, next),
    ensures
        run.stage matches Stage::Pool { gas_limit } && next == run.after_decision(
            gas_limit,
            tx,
            pool_decision(run.info@, tx@.tx, cancelled, gas_limit),
        ),
{
}

/// Holds the state after execution
#[derive(Debug, PartialEq, Eq)]
pub struct ExecutedPayload {
    /// Tracked execution info
    pub info: ExecutionInfo,
    /// Withdrawal hash.
    pub withdrawals_root: Option<B256>,
}

} // verus!
