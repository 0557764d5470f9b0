//! In what order a build goes on, and what comes of it.

use vstd::prelude::*;

use crate::actions::builder_tx::{builder_tx_gas, DefaultBuilderTxActions};
use crate::actions::payload::{OpBuiltPayload, StateRoots};
use crate::actions::pre_block::{ensure_create2_deployer_exists, PreBlock, PreBlockAction};
use crate::actions::tx_executor::{
    OpTransactionsActions, RunEvent, Stage, TransactionsRun,
};
use crate::builder_flashblocks::{
    DefaultFlashblocksBuilder, FlashblocksAction, FlashblocksBuild, FlashblocksFlow,
    FlashblocksPhase, FlashblocksSchedule, Progress,
};
use crate::chain::{
    BaseFeeParams, BlockEnv, ChainSpec, Header, NextBlockEnvAttributes, OpPayloadBuilderAttributes,
    PayloadConfig, Signer,
};
use crate::components::payload_context::OpPayloadBuilderCtx;
use crate::errors::{
    InternalError, OpPayloadBuilderError, OtherError, PayloadBuilderError,
};
use crate::laws::builder_tx::lemma_cost_is_positive;
use crate::laws::payloads::{holds_block, lemma_same_transactions};
use crate::laws::receipts::in_force;
use crate::payload_builder::{BatchStage, OpPayloadBuilder, PayloadBuild};
use crate::payload_builder_vanilla::{
    cfg_and_block_env, payload_context, BuildOutcome, BuildOutcomeKind, BuildReport,
    OpPayloadBuilderVanilla, VanillaAction, VanillaBuild, VanillaOpBuilderStrategy, VanillaPhase,
};
use crate::primitives::{OpReceipt, B256};
use crate::publish::delivered_to;

verus! {

/// The failure of a system call, as the payload reports it.
pub open spec fn system_call_failed(err: String) -> PayloadBuilderError {
    PayloadBuilderError::Internal(InternalError::Execution(err))
}

/// The failure of the state, as the payload reports it.
pub open spec fn state_failed(err: String) -> PayloadBuilderError {
    PayloadBuilderError::Internal(InternalError::Provider(err))
}

/// The lack of the create2 deployer, as the payload reports it.
pub open spec fn no_deployer() -> PayloadBuilderError {
    PayloadBuilderError::Other(OtherError::Op(OpPayloadBuilderError::ForceCreate2DeployerFail))
}

/// Before the first transaction come the call with the root of the parent beacon block and then the
/// deployment at the timestamp of the payload; the failure of either ends the attempt.
pub proof fn law_before_the_first_transaction(
    ctx: OpPayloadBuilderCtx,
    stage: PreBlock,
    action: PreBlockAction,
    called: Result<(), String>,
    first: &mut PreBlock,
    deployed: Result<(), String>,
    second: &mut PreBlock,
    deployer: Result<(), PayloadBuilderError>,
)
    requires
        call_ensures(PreBlock::next, (&stage, &ctx), action),
        call_ensures(PreBlock::on_beacon_root, (first, &ctx, called), ()),
        call_ensures(PreBlock::on_create2_deployer, (second, &ctx, deployed), ()),
        call_ensures(ensure_create2_deployer_exists, (&ctx, deployed), deployer),
    ensures
        match stage {
            PreBlock::BeaconRoot => action == (PreBlockAction::BeaconRootCall {
                parent_beacon_block_root:
                    ctx.config.attributes.payload_attributes.parent_beacon_block_root,
            }),
            PreBlock::Create2Deployer => action == (PreBlockAction::EnsureCreate2Deployer {
                timestamp: ctx.config.attributes.payload_attributes.timestamp,
            }),
            PreBlock::Ended { .. } => action is Done,
        },
        match called {
            Ok(()) => *final(first) is Create2Deployer,
            Err(err) => *final(first) == (PreBlock::Ended {
                outcome: Err(system_call_failed(err)),
            }),
        },
        *final(second) == (PreBlock::Ended { outcome: deployer }),
        deployer is Ok <==> deployed is Ok,
        deployer matches Err(err) ==> err == no_deployer(),
{
}

/// The environment of the next block is derived from the attributes, with the gas limit that they
/// set, or else that of the parent; where the gas limit of the attributes is not asked for, with
/// that of the parent in any case.
pub proof fn law_next_environment<Strategy: DefaultBuilderTxActions + OpTransactionsActions + Copy>(
    vanilla: OpPayloadBuilderVanilla<Strategy>,
    batches: OpPayloadBuilder,
    attributes: OpPayloadBuilderAttributes,
    parent: Header,
    next: NextBlockEnvAttributes,
    of_vanilla: NextBlockEnvAttributes,
    of_batches: NextBlockEnvAttributes,
)
    requires
        call_ensures(cfg_and_block_env, (&attributes, &parent), next),
        call_ensures(
            OpPayloadBuilderVanilla::<Strategy>::cfg_and_block_env,
            (&vanilla, &attributes, &parent),
            of_vanilla,
        ),
        call_ensures(
            OpPayloadBuilder::cfg_and_block_env,
            (&batches, &attributes, &parent),
            of_batches,
        ),
    ensures
        next.timestamp == attributes.payload_attributes.timestamp,
        next.suggested_fee_recipient == attributes.payload_attributes.suggested_fee_recipient,
        next.prev_randao == attributes.payload_attributes.prev_randao,
        attributes.gas_limit matches Some(limit) ==> next.gas_limit == limit,
        attributes.gas_limit is None ==> next.gas_limit == parent.gas_limit,
        of_vanilla == next,
        of_batches == (NextBlockEnvAttributes { gas_limit: parent.gas_limit, ..next }),
{
}

/// A job has its context once the environment and the state are there; the want of the environment
/// is reported before that of the state.
pub proof fn law_context_of_a_job(
    chain_spec: ChainSpec,
    base_fee_params: BaseFeeParams,
    config: PayloadConfig,
    builder_signer: Option<Signer>,
    block_env: Result<BlockEnv, String>,
    state: Result<(), String>,
    r: Result<OpPayloadBuilderCtx, PayloadBuilderError>,
)
    requires
        call_ensures(
            payload_context,
            (chain_spec, base_fee_params, config, builder_signer, block_env, state),
            r,
        ),
    ensures
        r is Ok <==> block_env is Ok && state is Ok,
        r matches Ok(ctx) ==> {
            &&& ctx.chain_spec == chain_spec
            &&& ctx.base_fee_params == base_fee_params
            &&& ctx.config == config
            &&& ctx.builder_signer == builder_signer
            &&& ctx.initialized_block_env == block_env->Ok_0
        },
        block_env matches Err(err) ==> r == Err::<OpPayloadBuilderCtx, PayloadBuilderError>(
            PayloadBuilderError::Other(OtherError::EvmConfig(err)),
        ),
        block_env is Ok ==> (state matches Err(err) ==> r == Err::<
            OpPayloadBuilderCtx,
            PayloadBuilderError,
        >(state_failed(err))),
{
}

/// The first batch may use a quarter of the gas of the block, and each batch a quarter more than
/// the one before it. Batches are counted one by one.
pub proof fn law_schedule_of_batches(
    block_gas_limit: u64,
    first: FlashblocksSchedule,
    schedule: &mut FlashblocksSchedule,
    can_advance: bool,
)
    requires
        call_ensures(FlashblocksSchedule::new, (block_gas_limit,), first),
        call_ensures(FlashblocksSchedule::advance, (schedule,), ()),
        call_ensures(FlashblocksSchedule::can_advance, (&*old(schedule),), can_advance),
        can_advance,
    ensures
        4 * first.gas_per_batch <= block_gas_limit < 4 * first.gas_per_batch + 4,
        first.total_gas_per_batch == first.gas_per_batch,
        first.flashblock_count == 0,
        final(schedule).gas_per_batch == old(schedule).gas_per_batch,
        final(schedule).total_gas_per_batch == old(schedule).total_gas_per_batch + old(
            schedule,
        ).gas_per_batch,
        final(schedule).flashblock_count == old(schedule).flashblock_count + 1,
{
}

/// Another batch can be counted exactly where its gas limit and its number still fit 64 bits.
pub proof fn law_room_for_batches(schedule: FlashblocksSchedule, can_advance: bool)
    requires
        call_ensures(FlashblocksSchedule::can_advance, (&schedule,), can_advance),
    ensures
        can_advance <==> schedule.total_gas_per_batch + schedule.gas_per_batch <= u64::MAX
            && schedule.flashblock_count + 1 <= u64::MAX,
{
}

/// A build of flashblocks begins with the pre-block actions, with nothing published and the first
/// batch to come.
pub proof fn law_flow_begins(ctx: OpPayloadBuilderCtx, flow: FlashblocksFlow, limit: u64)
    requires
        call_ensures(FlashblocksFlow::new, (&ctx,), flow),
        call_ensures(OpPayloadBuilderCtx::block_gas_limit, (&ctx,), limit),
    ensures
        flow.phase == (FlashblocksPhase::PreBlock { stage: PreBlock::BeaconRoot }),
        !flow.fallback_built,
        flow.published@.len() == 0,
        flow.schedule.flashblock_count == 0,
        4 * flow.schedule.gas_per_batch <= limit < 4 * flow.schedule.gas_per_batch + 4,
        flow.schedule.total_gas_per_batch == flow.schedule.gas_per_batch,
{
}

/// Everything but the phase stays as it was.
pub open spec fn only_phase(before: FlashblocksFlow, after: FlashblocksFlow) -> bool {
    &&& after.schedule == before.schedule
    &&& after.fallback_built == before.fallback_built
    &&& after.published@ == before.published@
}

/// Before the first transaction the build goes on to the deployment and then to the sequencer's
/// transactions; a failure ends it.
pub proof fn law_flow_before_transactions(
    ctx: OpPayloadBuilderCtx,
    first: &mut FlashblocksFlow,
    called: Result<(), String>,
    second: &mut FlashblocksFlow,
    deployed: Result<(), String>,
)
    requires
        call_ensures(FlashblocksFlow::on_beacon_root, (first, &ctx, called), ()),
        call_ensures(FlashblocksFlow::on_create2_deployer, (second, &ctx, deployed), ()),
    ensures
        only_phase(*old(first), *final(first)),
        match called {
            Ok(()) => final(first).phase == (FlashblocksPhase::PreBlock {
                stage: PreBlock::Create2Deployer,
            }),
            Err(err) => final(first).phase == (FlashblocksPhase::Failed {
                err: system_call_failed(err),
            }),
        },
        only_phase(*old(second), *final(second)),
        match deployed {
            Ok(()) => final(second).phase is Sequencer,
            Err(_) => final(second).phase == (FlashblocksPhase::Failed { err: no_deployer() }),
        },
{
}

/// While transactions go on the phase stays; once those of the sequencer are done the block is
/// built; once those of the pool are, the job may have been cancelled; a failure stops the build.
pub proof fn law_flow_of_transactions(flow: &mut FlashblocksFlow, progress: Progress)
    requires
        old(flow).phase is Sequencer || old(flow).phase is Pool,
        call_ensures(FlashblocksFlow::on_transactions, (flow, progress), ()),
    ensures
        only_phase(*old(flow), *final(flow)),
        progress is Going ==> final(flow).phase == old(flow).phase,
        progress is Failed ==> final(flow).phase is Stopped,
        progress is Done && old(flow).phase is Sequencer ==> final(flow).phase is Withdrawals,
        progress is Done && old(flow).phase is Pool ==> final(flow).phase is AfterBatch,
{
}

/// After the withdrawals come the roots, which keep the root that was reported; a failure of the
/// state ends the build.
pub proof fn law_flow_of_withdrawals(
    ctx: OpPayloadBuilderCtx,
    flow: &mut FlashblocksFlow,
    committed: Result<Option<B256>, String>,
)
    requires
        call_ensures(FlashblocksFlow::on_withdrawals, (flow, &ctx, committed), ()),
    ensures
        only_phase(*old(flow), *final(flow)),
        match committed {
            Ok(root) => final(flow).phase == (FlashblocksPhase::Roots { withdrawals_root: root }),
            Err(err) => final(flow).phase == (FlashblocksPhase::Failed { err: state_failed(err) }),
        },
{
}

/// After the fallback block is published the build is finished where the pool must be left alone;
/// else the batches begin. After any other block there is a pause, and the next batch may use more.
pub proof fn law_flow_of_publication(ctx: OpPayloadBuilderCtx, flow: &mut FlashblocksFlow)
    requires
        old(flow).phase is Publish,
        old(flow).schedule.total_gas_per_batch + old(flow).schedule.gas_per_batch <= u64::MAX,
        old(flow).schedule.flashblock_count < u64::MAX,
        call_ensures(FlashblocksFlow::on_published, (flow, &ctx), ()),
    ensures
        final(flow).published@ == old(flow).published@,
        final(flow).fallback_built,
        !old(flow).fallback_built ==> {
            &&& final(flow).schedule == old(flow).schedule
            &&& ctx.config.attributes.no_tx_pool ==> final(flow).phase is Finished
            &&& !ctx.config.attributes.no_tx_pool ==> final(flow).phase is BeforeBatch
        },
        old(flow).fallback_built ==> {
            &&& final(flow).phase is Pause
            &&& final(flow).schedule.gas_per_batch == old(flow).schedule.gas_per_batch
            &&& final(flow).schedule.total_gas_per_batch == old(flow).schedule.total_gas_per_batch
                + old(flow).schedule.gas_per_batch
            &&& final(flow).schedule.flashblock_count == old(flow).schedule.flashblock_count + 1
        },
{
}

/// A cancelled job is finished, before a batch and after it. Else the batch begins, or its block is
/// built. After a pause comes the next batch.
pub proof fn law_flow_of_batches(
    flow: &mut FlashblocksFlow,
    cancelled: bool,
    paused: &mut FlashblocksFlow,
)
    requires
        old(flow).phase is BeforeBatch || old(flow).phase is AfterBatch,
        call_ensures(FlashblocksFlow::on_cancel_check, (flow, cancelled), ()),
        call_ensures(FlashblocksFlow::on_paused, (paused,), ()),
    ensures
        only_phase(*old(flow), *final(flow)),
        cancelled ==> final(flow).phase is Finished,
        !cancelled && old(flow).phase is BeforeBatch ==> final(flow).phase is Pool,
        !cancelled && old(flow).phase is AfterBatch ==> final(flow).phase is Withdrawals,
        only_phase(*old(paused), *final(paused)),
        final(paused).phase is BeforeBatch,
{
}

/// What the node is asked for while a flashblocks build goes on: the withdrawals and the timestamp
/// are those of the attributes, and the receipts those of the block so far.
pub proof fn law_flashblocks_ask<Strategy: OpTransactionsActions>(
    build: FlashblocksBuild<Strategy>,
    action: FlashblocksAction,
)
    requires
        build.wf(),
        call_ensures(FlashblocksBuild::<Strategy>::next, (&build,), action),
    ensures
        asks_as_phase(
            build.flow.phase,
            build.run.ctx,
            build.run.info.receipts,
            action,
        ),
        action matches FlashblocksAction::Run(asked) ==> build.run.asks(asked) && !(asked is Done),
{
}

/// `action` is what the phase of a build of flashblocks calls for.
pub open spec fn asks_as_phase(
    phase: FlashblocksPhase,
    ctx: OpPayloadBuilderCtx,
    receipts: Vec<OpReceipt>,
    action: FlashblocksAction,
) -> bool {
    let attributes = ctx.config.attributes.payload_attributes;
    match phase {
        FlashblocksPhase::PreBlock { stage: PreBlock::BeaconRoot } => action
            == FlashblocksAction::PreBlock(
            PreBlockAction::BeaconRootCall {
                parent_beacon_block_root: attributes.parent_beacon_block_root,
            },
        ),
        FlashblocksPhase::PreBlock { .. } => action == FlashblocksAction::PreBlock(
            PreBlockAction::EnsureCreate2Deployer { timestamp: attributes.timestamp },
        ),
        FlashblocksPhase::Sequencer | FlashblocksPhase::Pool => action is Run,
        FlashblocksPhase::Withdrawals => {
            &&& action matches FlashblocksAction::CommitWithdrawals { timestamp, withdrawals }
            &&& timestamp == attributes.timestamp
            &&& *withdrawals == attributes.withdrawals
        },
        FlashblocksPhase::Roots { .. } => {
            &&& action matches FlashblocksAction::ComputeRoots { number, timestamp, receipts: of }
            &&& number == ctx.initialized_block_env.number@
            &&& timestamp == attributes.timestamp
            &&& *of == receipts
        },
        FlashblocksPhase::Publish => action is Publish,
        FlashblocksPhase::BeforeBatch | FlashblocksPhase::AfterBatch => action is CheckCancelled,
        FlashblocksPhase::Pause => action == (FlashblocksAction::Pause { millis: 250 }),
        FlashblocksPhase::Finished
        | FlashblocksPhase::Failed { .. }
        | FlashblocksPhase::Stopped => action is Done,
    }
}

/// The same of a build that goes batch by batch.
pub proof fn law_payload_build_asks(build: PayloadBuild, action: FlashblocksAction)
    requires
        build.wf(),
        call_ensures(PayloadBuild::next, (&build,), action),
    ensures
        asks_as_phase(build.flow.phase, build.run.ctx, build.run.info.receipts, action),
        action matches FlashblocksAction::Run(asked) ==> build.run.asks(asked) && !(asked is Done),
{
}

/// The outcome of a build of flashblocks that came to its end: all is well where it is finished;
/// else the error is the one that it failed with, or the one that a transaction ended it with.
pub proof fn law_outcomes_of_flashblocks<Strategy: OpTransactionsActions>(
    build: FlashblocksBuild<Strategy>,
    outcome: Result<(), PayloadBuilderError>,
    batches: PayloadBuild,
    batches_outcome: Result<(), PayloadBuilderError>,
)
    requires
        build.wf(),
        build.flow.phase is Finished || build.flow.phase is Failed || build.flow.phase is Stopped,
        call_ensures(FlashblocksBuild::<Strategy>::into_outcome, (build,), outcome),
        batches.wf(),
        batches.flow.phase is Finished || batches.flow.phase is Failed
            || batches.flow.phase is Stopped,
        call_ensures(PayloadBuild::into_outcome, (batches,), batches_outcome),
    ensures
        match build.flow.phase {
            FlashblocksPhase::Failed { err } => outcome == Err::<(), PayloadBuilderError>(err),
            FlashblocksPhase::Stopped => build.run.stage matches Stage::Ended { outcome: of }
                && of is Err && outcome == Err::<(), PayloadBuilderError>(of->Err_0),
            _ => outcome is Ok,
        },
        match batches.flow.phase {
            FlashblocksPhase::Failed { err } => batches_outcome == Err::<(), PayloadBuilderError>(
                err,
            ),
            FlashblocksPhase::Stopped => batches.run.stage matches BatchStage::Ended { outcome: of }
                && of is Err && batches_outcome == Err::<(), PayloadBuilderError>(of->Err_0),
            _ => batches_outcome is Ok,
        },
{
}

/// A batch begins unless the job is cancelled: it takes from the pool up to the limit of this
/// batch, for the block as it is.
pub proof fn law_batches_begin<Strategy: OpTransactionsActions>(
    build: &mut FlashblocksBuild<Strategy>,
    batches: &mut PayloadBuild,
    cancelled: bool,
)
    requires
        old(build).flow.phase is BeforeBatch || old(build).flow.phase is AfterBatch,
        call_ensures(FlashblocksBuild::<Strategy>::on_cancel_check, (build, cancelled), ()),
        old(batches).flow.phase is BeforeBatch || old(batches).flow.phase is AfterBatch,
        call_ensures(PayloadBuild::on_cancel_check, (batches, cancelled), ()),
    ensures
        cancelled ==> final(build).flow.phase is Finished && final(batches).flow.phase is Finished,
        final(build).run.info == old(build).run.info,
        final(build).run.executor == old(build).run.executor,
        !cancelled && old(build).flow.phase is BeforeBatch ==> {
            &&& final(build).flow.phase is Pool
            &&& final(build).run.stage == (Stage::PoolOpen {
                gas_limit: old(build).flow.schedule.total_gas_per_batch,
            })
        },
        !cancelled && old(build).flow.phase is AfterBatch ==> {
            &&& final(build).flow.phase is Withdrawals
            &&& final(build).run == old(build).run
        },
        final(batches).run.info == old(batches).run.info,
        !cancelled && old(batches).flow.phase is BeforeBatch ==> {
            &&& final(batches).flow.phase is Pool
            &&& final(batches).run.stage == (BatchStage::PoolOpen {
                gas_limit: old(batches).flow.schedule.total_gas_per_batch,
            })
            &&& final(batches).run.executor.total_gas_used == 0
        },
        !cancelled && old(batches).flow.phase is AfterBatch ==> {
            &&& final(batches).flow.phase is Withdrawals
            &&& final(batches).run == old(batches).run
        },
{
}

/// A vanilla build begins with the pre-block actions and an empty block.
pub proof fn law_vanilla_begins<Strategy: DefaultBuilderTxActions + OpTransactionsActions>(
    strategy: Strategy,
    ctx: OpPayloadBuilderCtx,
    build: VanillaBuild<Strategy>,
)
    requires
        call_ensures(VanillaBuild::<Strategy>::new, (strategy, ctx), build),
    ensures
        build.run.ctx == ctx,
        build.run.actions == strategy,
        build.phase == (VanillaPhase::PreBlock { stage: PreBlock::BeaconRoot }),
        build.run.info@.transactions.len() == 0,
        build.run.info.cumulative_gas_used == 0,
        build.run.info.total_fees@ == 0,
        build.run.next_sequencer == 0,
{
}

/// Where a vanilla build stands with the sequencer's transactions: they go on; or one of them ended
/// the attempt; or they are done, and then the pool has its turn unless it must be left alone.
pub open spec fn after_sequencer<Strategy>(
    run: TransactionsRun<Strategy>,
    phase: VanillaPhase,
) -> bool {
    match run.stage {
        Stage::Ended { outcome: Err(_) } => phase is Stopped,
        Stage::Ended { outcome: Ok(_) } => {
            &&& run.ctx.config.attributes.no_tx_pool ==> phase is Withdrawals
            &&& !run.ctx.config.attributes.no_tx_pool ==> phase is Reserve
        },
        _ => phase is Sequencer,
    }
}

/// Before the first transaction of a vanilla build.
pub proof fn law_vanilla_before_transactions<
    Strategy: DefaultBuilderTxActions + OpTransactionsActions,
>(
    first: &mut VanillaBuild<Strategy>,
    called: Result<(), String>,
    second: &mut VanillaBuild<Strategy>,
    deployed: Result<(), String>,
)
    requires
        call_ensures(VanillaBuild::<Strategy>::on_beacon_root, (first, called), ()),
        call_ensures(VanillaBuild::<Strategy>::on_create2_deployer, (second, deployed), ()),
    ensures
        final(first).run == old(first).run,
        match called {
            Ok(()) => final(first).phase == (VanillaPhase::PreBlock {
                stage: PreBlock::Create2Deployer,
            }),
            Err(err) => final(first).phase == (VanillaPhase::Failed {
                err: system_call_failed(err),
            }),
        },
        final(second).run == old(second).run,
        match deployed {
            Ok(()) => after_sequencer(final(second).run, final(second).phase),
            Err(_) => final(second).phase == (VanillaPhase::Failed { err: no_deployer() }),
        },
{
}

/// The gas of the builder's transaction is set aside where there is a signer: what its message
/// costs. The pool gets the rest of the gas limit to target. Where the block cannot hold even that
/// transaction, nothing changes.
pub proof fn law_vanilla_sets_gas_aside<Strategy: DefaultBuilderTxActions + OpTransactionsActions>(
    build: &mut VanillaBuild<Strategy>,
    fits: bool,
    limit: u64,
)
    requires
        call_ensures(VanillaBuild::<Strategy>::reserve_gas, (build,), fits),
        call_ensures(OpPayloadBuilderCtx::block_gas_limit, (&old(build).run.ctx,), limit),
    ensures
        fits ==> {
            &&& final(build).run == (TransactionsRun {
                stage: final(build).run.stage,
                past_sequencer: true,
                counts: final(build).run.counts,
                ..old(build).run
            })
            &&& final(build).phase matches VanillaPhase::Pool { message }
            &&& call_ensures(
                Strategy::block_message,
                (&old(build).run.actions, &old(build).run.ctx),
                message,
            )
            &&& final(build).run.stage matches Stage::PoolOpen { gas_limit }
            &&& old(build).run.ctx.builder_signer is None ==> gas_limit == limit
            &&& old(build).run.ctx.builder_signer is Some ==> gas_limit == limit - builder_tx_gas(
                message@,
            )
        },
        !fits ==> {
            &&& *final(build) == *old(build)
            &&& old(build).run.ctx.builder_signer is Some
            &&& exists|message: Vec<u8>| #[trigger]
                call_ensures(
                    Strategy::block_message,
                    (&old(build).run.actions, &old(build).run.ctx),
                    message,
                ) && builder_tx_gas(message@) > limit
        },
{
    let message = choose|message: Vec<u8>| #[trigger]
        old(build).is_message(message) && old(build).reserve_step(message, fits, *final(build));
    lemma_cost_is_positive(message@);
}

/// A report to the run of a vanilla build is taken up by the run, and the build moves on with it:
/// after the sequencer's transactions; after the pool to the builder's transaction, with the gas
/// and the message that were set aside, or past it without a signer; and after that to the
/// withdrawals. A pool that failed or was cancelled stops the build.
pub proof fn law_vanilla_moves_on<Strategy: DefaultBuilderTxActions + OpTransactionsActions>(
    build: &mut VanillaBuild<Strategy>,
    event: RunEvent,
)
    requires
        old(build).phase is Sequencer || old(build).phase is Pool || old(build).phase is BuilderTx,
        call_ensures(VanillaBuild::<Strategy>::on_run, (build, event), ()),
    ensures
        exists|run: TransactionsRun<Strategy>|
            #![trigger old(build).run.steps_to(event, run)]
            {
                &&& old(build).run.steps_to(event, run)
                &&& final(build).run == (TransactionsRun {
                    stage: final(build).run.stage,
                    past_sequencer: final(build).run.past_sequencer,
                    ..run
                })
                &&& match (old(build).phase, run.stage) {
                    (VanillaPhase::Sequencer, _) => {
                        &&& final(build).run == run
                        &&& after_sequencer(run, final(build).phase)
                    },
                    (
                        VanillaPhase::Pool { message },
                        Stage::Ended { outcome: Ok(None) },
                    ) => match run.ctx.builder_signer {
                        Some(signer) => {
                            &&& final(build).phase is BuilderTx
                            &&& final(build).run.stage matches Stage::BuilderNonce {
                                address,
                                gas_limit,
                                message: carried,
                            }
                            &&& address == signer.address
                            &&& gas_limit == builder_tx_gas(message@)
                            &&& carried == message
                        },
                        None => {
                            &&& final(build).phase is Withdrawals
                            &&& final(build).run.stage == (Stage::BuilderDone { added: false })
                        },
                    },
                    (VanillaPhase::Pool { .. }, Stage::Ended { .. }) => {
                        &&& final(build).run == run
                        &&& final(build).phase is Stopped
                    },
                    (VanillaPhase::BuilderTx, Stage::BuilderDone { .. }) => {
                        &&& final(build).run == run
                        &&& final(build).phase is Withdrawals
                    },
                    _ => {
                        &&& final(build).run == run
                        &&& final(build).phase == old(build).phase
                    },
                }
            },
{
    let run = choose|run: TransactionsRun<Strategy>| #[trigger]
        old(build).run.steps_to(event, run) && old(build).moves_on(run, *final(build));
    assert(old(build).run.steps_to(event, run));
}

/// After the withdrawals of a vanilla build come the roots; a failure of the state ends it.
pub proof fn law_vanilla_withdrawals<Strategy: DefaultBuilderTxActions + OpTransactionsActions>(
    build: &mut VanillaBuild<Strategy>,
    committed: Result<Option<B256>, String>,
)
    requires
        call_ensures(VanillaBuild::<Strategy>::on_withdrawals, (build, committed), ()),
    ensures
        final(build).run == old(build).run,
        match committed {
            Ok(root) => final(build).phase == (VanillaPhase::Roots { withdrawals_root: root }),
            Err(err) => final(build).phase == (VanillaPhase::Failed { err: state_failed(err) }),
        },
{
}

/// The payload of a vanilla build has the withdrawals of the attributes once Shanghai is in force,
/// and what the node may keep of the execution.
pub open spec fn keeps_execution<Strategy>(
    payload: OpBuiltPayload,
    run: TransactionsRun<Strategy>,
) -> bool {
    let attributes = run.ctx.config.attributes.payload_attributes;
    &&& payload.block.body.withdrawals is Some <==> in_force(
        run.ctx.chain_spec.shanghai,
        attributes.timestamp,
    )
    &&& payload.block.body.withdrawals matches Some(withdrawals) ==> withdrawals@
        == attributes.withdrawals@
    &&& payload.executed_block matches Some(executed)
    &&& executed.block@ == payload.block@
    &&& executed.number == run.ctx.initialized_block_env.number@
    &&& executed.senders@ == run.info.executed_senders@
    &&& executed.receipts@ == run.info.receipts@
}

/// The payload holds the block of all transactions that the run has executed, and reports their
/// fees.
pub open spec fn holds_run<Strategy>(
    payload: OpBuiltPayload,
    run: TransactionsRun<Strategy>,
    withdrawals_root: Option<B256>,
    roots: StateRoots,
) -> bool {
    &&& holds_block(
        payload,
        run.ctx,
        run.info.executed_transactions@,
        run.info.receipts@,
        run.info.cumulative_gas_used,
        withdrawals_root,
        roots,
    )
    &&& payload.fees@ == run.info.total_fees@
}

/// With the roots that the node computed, a build of flashblocks has a payload of all transactions
/// so far, which is published next. A failure of the state ends the build, as does the lack of
/// extra data.
pub proof fn law_flashblock_is_built<Strategy: OpTransactionsActions>(
    build: &mut FlashblocksBuild<Strategy>,
    roots: Result<StateRoots, String>,
    built: Option<OpBuiltPayload>,
)
    requires
        old(build).wf(),
        old(build).flow.phase is Roots,
        old(build).run.ctx.config.parent_header.header.number < u64::MAX,
        call_ensures(FlashblocksBuild::<Strategy>::on_roots, (build, roots), built),
    ensures
        final(build).run == old(build).run,
        built is Some <==> roots is Ok && old(build).run.ctx.spec_extra_data() is Ok,
        match built {
            Some(payload) => {
                &&& holds_run(
                    payload,
                    old(build).run,
                    old(build).flow.phase->Roots_withdrawals_root,
                    roots->Ok_0,
                )
                &&& payload.executed_block is None
                &&& payload.block.body.withdrawals matches Some(withdrawals) && withdrawals@
                    == old(build).run.ctx.config.attributes.payload_attributes.withdrawals@
                &&& final(build).flow.phase is Publish
                &&& final(build).flow.published@ == old(build).flow.published@.push(payload)
            },
            None => final(build).flow.phase == (FlashblocksPhase::Failed {
                err: match roots {
                    Err(err) => state_failed(err),
                    Ok(_) => old(build).run.ctx.spec_extra_data()->Err_0,
                },
            }),
        },
{
    if let Some(payload) = built {
        lemma_same_transactions(
            payload.block.body.transactions@,
            old(build).run.info.executed_transactions@,
        );
    }
}

/// The same of a build that goes batch by batch.
pub proof fn law_batch_block_is_built(
    build: &mut PayloadBuild,
    roots: Result<StateRoots, String>,
    built: Option<OpBuiltPayload>,
)
    requires
        old(build).wf(),
        old(build).flow.phase is Roots,
        old(build).run.ctx.config.parent_header.header.number < u64::MAX,
        call_ensures(PayloadBuild::on_roots, (build, roots), built),
    ensures
        final(build).run == old(build).run,
        built is Some <==> roots is Ok && old(build).run.ctx.spec_extra_data() is Ok,
        match built {
            Some(payload) => {
                &&& holds_block(
                    payload,
                    old(build).run.ctx,
                    old(build).run.info.executed_transactions@,
                    old(build).run.info.receipts@,
                    old(build).run.info.cumulative_gas_used,
                    old(build).flow.phase->Roots_withdrawals_root,
                    roots->Ok_0,
                )
                &&& payload.fees@ == old(build).run.info.total_fees@
                &&& payload.executed_block is None
                &&& payload.block.body.withdrawals matches Some(withdrawals) && withdrawals@
                    == old(build).run.ctx.config.attributes.payload_attributes.withdrawals@
                &&& final(build).flow.phase is Publish
                &&& final(build).flow.published@ == old(build).flow.published@.push(payload)
            },
            None => final(build).flow.phase == (FlashblocksPhase::Failed {
                err: match roots {
                    Err(err) => state_failed(err),
                    Ok(_) => old(build).run.ctx.spec_extra_data()->Err_0,
                },
            }),
        },
{
    if let Some(payload) = built {
        lemma_same_transactions(
            payload.block.body.transactions@,
            old(build).run.info.executed_transactions@,
        );
    }
}

/// A report to the run of a build is taken up by the run, and the phase goes by how the run stands
/// then.
pub proof fn law_flashblocks_move_on<Strategy: OpTransactionsActions>(
    build: &mut FlashblocksBuild<Strategy>,
    batches: &mut PayloadBuild,
    event: RunEvent,
)
    requires
        old(build).flow.phase is Sequencer || old(build).flow.phase is Pool,
        call_ensures(FlashblocksBuild::<Strategy>::on_run, (build, event), ()),
        old(batches).flow.phase is Sequencer || old(batches).flow.phase is Pool,
        call_ensures(PayloadBuild::on_run, (batches, event), ()),
    ensures
        old(build).run.steps_to(event, final(build).run),
        only_phase(old(build).flow, final(build).flow),
        match final(build).run.stage {
            Stage::Ended { outcome: Err(_) } => final(build).flow.phase is Stopped,
            Stage::Ended { outcome: Ok(_) } => {
                &&& old(build).flow.phase is Sequencer ==> final(build).flow.phase is Withdrawals
                &&& old(build).flow.phase is Pool ==> final(build).flow.phase is AfterBatch
            },
            _ => final(build).flow.phase == old(build).flow.phase,
        },
        old(batches).run.steps_to(event, final(batches).run),
        only_phase(old(batches).flow, final(batches).flow),
        match final(batches).run.stage {
            BatchStage::Ended { outcome: Err(_) } => final(batches).flow.phase is Stopped,
            BatchStage::Ended { outcome: Ok(_) } => {
                &&& old(batches).flow.phase is Sequencer ==> final(batches).flow.phase
                    is Withdrawals
                &&& old(batches).flow.phase is Pool ==> final(batches).flow.phase is AfterBatch
            },
            _ => final(batches).flow.phase == old(batches).flow.phase,
        },
{
}

/// The steps of a build of flashblocks outside of its transactions touch nothing but the order of
/// events, and go as it says.
pub proof fn law_flashblocks_steps<Strategy: OpTransactionsActions>(
    called: Result<(), String>,
    first: &mut FlashblocksBuild<Strategy>,
    deployed: Result<(), String>,
    second: &mut FlashblocksBuild<Strategy>,
    committed: Result<Option<B256>, String>,
    third: &mut FlashblocksBuild<Strategy>,
    paused: &mut FlashblocksBuild<Strategy>,
)
    requires
        call_ensures(FlashblocksBuild::<Strategy>::on_beacon_root, (first, called), ()),
        call_ensures(FlashblocksBuild::<Strategy>::on_create2_deployer, (second, deployed), ()),
        call_ensures(FlashblocksBuild::<Strategy>::on_withdrawals, (third, committed), ()),
        call_ensures(FlashblocksBuild::<Strategy>::on_paused, (paused,), ()),
    ensures
        final(first).run == old(first).run,
        only_phase(old(first).flow, final(first).flow),
        match called {
            Ok(()) => final(first).flow.phase == (FlashblocksPhase::PreBlock {
                stage: PreBlock::Create2Deployer,
            }),
            Err(err) => final(first).flow.phase == (FlashblocksPhase::Failed {
                err: system_call_failed(err),
            }),
        },
        final(second).run == old(second).run,
        only_phase(old(second).flow, final(second).flow),
        match (deployed, old(second).run.stage) {
            (Err(_), _) => final(second).flow.phase == (FlashblocksPhase::Failed {
                err: no_deployer(),
            }),
            (Ok(()), Stage::Ended { outcome: Ok(_) }) => final(second).flow.phase is Withdrawals,
            (Ok(()), Stage::Ended { outcome: Err(_) }) => final(second).flow.phase is Stopped,
            (Ok(()), _) => final(second).flow.phase is Sequencer,
        },
        final(third).run == old(third).run,
        only_phase(old(third).flow, final(third).flow),
        match committed {
            Ok(root) => final(third).flow.phase == (FlashblocksPhase::Roots {
                withdrawals_root: root,
            }),
            Err(err) => final(third).flow.phase == (FlashblocksPhase::Failed {
                err: state_failed(err),
            }),
        },
        final(paused).run == old(paused).run,
        only_phase(old(paused).flow, final(paused).flow),
        final(paused).flow.phase is BeforeBatch,
{
}

/// The same of a build that goes batch by batch.
pub proof fn law_payload_build_steps(
    called: Result<(), String>,
    first: &mut PayloadBuild,
    deployed: Result<(), String>,
    second: &mut PayloadBuild,
    committed: Result<Option<B256>, String>,
    third: &mut PayloadBuild,
    paused: &mut PayloadBuild,
)
    requires
        call_ensures(PayloadBuild::on_beacon_root, (first, called), ()),
        call_ensures(PayloadBuild::on_create2_deployer, (second, deployed), ()),
        call_ensures(PayloadBuild::on_withdrawals, (third, committed), ()),
        call_ensures(PayloadBuild::on_paused, (paused,), ()),
    ensures
        final(first).run == old(first).run,
        only_phase(old(first).flow, final(first).flow),
        match called {
            Ok(()) => final(first).flow.phase == (FlashblocksPhase::PreBlock {
                stage: PreBlock::Create2Deployer,
            }),
            Err(err) => final(first).flow.phase == (FlashblocksPhase::Failed {
                err: system_call_failed(err),
            }),
        },
        final(second).run == old(second).run,
        only_phase(old(second).flow, final(second).flow),
        match (deployed, old(second).run.stage) {
            (Err(_), _) => final(second).flow.phase == (FlashblocksPhase::Failed {
                err: no_deployer(),
            }),
            (Ok(()), BatchStage::Ended { outcome: Ok(_) }) => final(second).flow.phase
                is Withdrawals,
            (Ok(()), BatchStage::Ended { outcome: Err(_) }) => final(second).flow.phase is Stopped,
            (Ok(()), _) => final(second).flow.phase is Sequencer,
        },
        final(third).run == old(third).run,
        only_phase(old(third).flow, final(third).flow),
        match committed {
            Ok(root) => final(third).flow.phase == (FlashblocksPhase::Roots {
                withdrawals_root: root,
            }),
            Err(err) => final(third).flow.phase == (FlashblocksPhase::Failed {
                err: state_failed(err),
            }),
        },
        final(paused).run == old(paused).run,
        only_phase(old(paused).flow, final(paused).flow),
        final(paused).flow.phase is BeforeBatch,
{
}

/// Publication touches nothing but the order of events. After the fallback block the build is
/// finished where the pool must be left alone, and else its batches begin; after any other block
/// there is a pause, and the next batch may use a quarter more. It can go on exactly where the next
/// batch can be counted.
pub proof fn law_builds_publish<Strategy: OpTransactionsActions>(
    build: &mut FlashblocksBuild<Strategy>,
    sent: Result<(), String>,
    batches: &mut PayloadBuild,
    batches_sent: Result<(), String>,
    room: bool,
    batches_room: bool,
)
    requires
        call_ensures(FlashblocksBuild::<Strategy>::can_publish, (&*old(build),), room),
        call_ensures(FlashblocksBuild::<Strategy>::on_published, (build, sent), ()),
        call_ensures(PayloadBuild::can_publish, (&*old(batches),), batches_room),
        call_ensures(PayloadBuild::on_published, (batches, batches_sent), ()),
    ensures
        room <==> (old(build).flow.fallback_built ==> old(build).flow.schedule.total_gas_per_batch
            + old(build).flow.schedule.gas_per_batch <= u64::MAX && old(
            build,
        ).flow.schedule.flashblock_count < u64::MAX),
        batches_room <==> (old(batches).flow.fallback_built ==> old(
            batches,
        ).flow.schedule.total_gas_per_batch + old(batches).flow.schedule.gas_per_batch <= u64::MAX
            && old(batches).flow.schedule.flashblock_count < u64::MAX),
        final(build).run == old(build).run,
        room ==> goes_on_after_publication(
            old(build).flow,
            old(build).run.ctx.config.attributes.no_tx_pool,
            final(build).flow,
        ),
        final(batches).run == old(batches).run,
        batches_room ==> goes_on_after_publication(
            old(batches).flow,
            old(batches).run.ctx.config.attributes.no_tx_pool,
            final(batches).flow,
        ),
{
}

/// How a build goes on after its payload is published.
pub open spec fn goes_on_after_publication(
    before: FlashblocksFlow,
    no_tx_pool: bool,
    after: FlashblocksFlow,
) -> bool {
    &&& after.published@ == before.published@
    &&& after.fallback_built
    &&& after.schedule.gas_per_batch == before.schedule.gas_per_batch
    &&& !before.fallback_built ==> {
        &&& after.schedule == before.schedule
        &&& no_tx_pool ==> after.phase is Finished
        &&& !no_tx_pool ==> after.phase is BeforeBatch
    }
    &&& before.fallback_built ==> {
        &&& after.phase is Pause
        &&& after.schedule.total_gas_per_batch == before.schedule.total_gas_per_batch
            + before.schedule.gas_per_batch
        &&& after.schedule.flashblock_count == before.schedule.flashblock_count + 1
    }
}

/// The builders begin a build of the job given to them, once the environment and the state are
/// there, and with the signer only where the builder has one.
pub proof fn law_builders_begin(
    vanilla: OpPayloadBuilderVanilla<VanillaOpBuilderStrategy>,
    flashblocks: DefaultFlashblocksBuilder,
    batches: OpPayloadBuilder,
    chain_spec: ChainSpec,
    base_fee_params: BaseFeeParams,
    config: PayloadConfig,
    block_env: Result<BlockEnv, String>,
    state: Result<(), String>,
    of_vanilla: Result<VanillaBuild<VanillaOpBuilderStrategy>, PayloadBuilderError>,
    of_flashblocks: Result<FlashblocksBuild<DefaultFlashblocksBuilder>, PayloadBuilderError>,
    of_batches: Result<PayloadBuild, PayloadBuilderError>,
    limit: u64,
)
    requires
        of_flashblocks matches Ok(build) ==> call_ensures(
            OpPayloadBuilderCtx::block_gas_limit,
            (&build.run.ctx,),
            limit,
        ),
        call_ensures(
            OpPayloadBuilderVanilla::<VanillaOpBuilderStrategy>::build_payload,
            (&vanilla, chain_spec, base_fee_params, config, block_env, state),
            of_vanilla,
        ),
        call_ensures(
            DefaultFlashblocksBuilder::build,
            (&flashblocks, chain_spec, base_fee_params, config, block_env, state),
            of_flashblocks,
        ),
        call_ensures(
            OpPayloadBuilder::build_payload,
            (&batches, chain_spec, base_fee_params, config, block_env, state),
            of_batches,
        ),
    ensures
        of_vanilla is Ok <==> block_env is Ok && state is Ok,
        of_flashblocks is Ok <==> block_env is Ok && state is Ok,
        of_batches is Ok <==> block_env is Ok && state is Ok,
        of_vanilla matches Ok(build) ==> {
            &&& is_context_of(build.run.ctx, chain_spec, base_fee_params, config, block_env->Ok_0)
            &&& build.run.ctx.builder_signer == vanilla.builder_signer
            &&& build.phase == (VanillaPhase::PreBlock { stage: PreBlock::BeaconRoot })
            &&& build.run.info@.transactions.len() == 0
            &&& build.run.next_sequencer == 0
        },
        of_flashblocks matches Ok(build) ==> {
            &&& is_context_of(build.run.ctx, chain_spec, base_fee_params, config, block_env->Ok_0)
            &&& build.run.ctx.builder_signer is None
            &&& build.flow.phase == (FlashblocksPhase::PreBlock { stage: PreBlock::BeaconRoot })
            &&& !build.flow.fallback_built
            &&& build.flow.published@.len() == 0
            &&& build.flow.schedule.flashblock_count == 0
            &&& build.flow.schedule.total_gas_per_batch == build.flow.schedule.gas_per_batch
            &&& 4 * build.flow.schedule.gas_per_batch <= limit < 4
                * build.flow.schedule.gas_per_batch + 4
            &&& build.run.info@.transactions.len() == 0
            &&& build.run.next_sequencer == 0
        },
        of_batches matches Ok(build) ==> {
            &&& is_context_of(build.run.ctx, chain_spec, base_fee_params, config, block_env->Ok_0)
            &&& build.run.ctx.builder_signer is None
            &&& build.flow.phase == (FlashblocksPhase::PreBlock { stage: PreBlock::BeaconRoot })
            &&& !build.flow.fallback_built
            &&& build.flow.published@.len() == 0
            &&& build.flow.schedule.flashblock_count == 0
            &&& build.flow.schedule.total_gas_per_batch == build.flow.schedule.gas_per_batch
            &&& 4 * build.flow.schedule.gas_per_batch <= limit < 4
                * build.flow.schedule.gas_per_batch + 4
            &&& build.run.info@.transactions.len() == 0
            &&& build.run.next_sequencer == 0
        },
        of_vanilla matches Err(err) ==> {
            &&& of_flashblocks == Err::<
                FlashblocksBuild<DefaultFlashblocksBuilder>,
                PayloadBuilderError,
            >(err)
            &&& of_batches == Err::<PayloadBuild, PayloadBuilderError>(err)
            &&& err == match block_env {
                Err(env) => PayloadBuilderError::Other(OtherError::EvmConfig(env)),
                Ok(_) => state_failed(state->Err_0),
            }
        },
{
}

/// A builder keeps its signer and its strategy, and a strategy executes the job of its context.
pub proof fn law_builders_are_made(
    signer: Option<Signer>,
    strategy: VanillaOpBuilderStrategy,
    builder: OpPayloadBuilderVanilla<VanillaOpBuilderStrategy>,
    ctx: OpPayloadBuilderCtx,
    build: VanillaBuild<VanillaOpBuilderStrategy>,
)
    requires
        call_ensures(
            OpPayloadBuilderVanilla::<VanillaOpBuilderStrategy>::new,
            (signer, strategy),
            builder,
        ),
        call_ensures(VanillaOpBuilderStrategy::execute, (&strategy, ctx), build),
    ensures
        builder.builder_signer == signer,
        builder.strategy == strategy,
        build.run.ctx == ctx,
        build.run.actions == strategy,
        build.phase == (VanillaPhase::PreBlock { stage: PreBlock::BeaconRoot }),
        build.run.info@.transactions.len() == 0,
{
}

/// `ctx` is the context of this job.
pub open spec fn is_context_of(
    ctx: OpPayloadBuilderCtx,
    chain_spec: ChainSpec,
    base_fee_params: BaseFeeParams,
    config: PayloadConfig,
    block_env: BlockEnv,
) -> bool {
    &&& ctx.chain_spec == chain_spec
    &&& ctx.base_fee_params == base_fee_params
    &&& ctx.config == config
    &&& ctx.initialized_block_env == block_env
}

/// The payload of a vanilla build is final where the pool was left alone, and may be replaced by a
/// better one else. A build without a payload reports its error, or that the job was cancelled.
pub proof fn law_vanilla_outcome<Strategy: DefaultBuilderTxActions + OpTransactionsActions>(
    build: VanillaBuild<Strategy>,
    roots: Result<StateRoots, String>,
    outcome: Result<BuildOutcomeKind, PayloadBuilderError>,
    other: VanillaBuild<Strategy>,
    without: Result<BuildOutcomeKind, PayloadBuilderError>,
)
    requires
        build.wf(),
        build.phase is Roots,
        build.run.ctx.config.parent_header.header.number < u64::MAX,
        call_ensures(VanillaBuild::<Strategy>::on_roots, (build, roots), outcome),
        other.wf(),
        other.phase is Failed || other.phase is Stopped,
        call_ensures(VanillaBuild::<Strategy>::into_outcome, (other,), without),
    ensures
        match (roots, build.run.ctx.spec_extra_data()) {
            (Ok(roots), Ok(_)) => {
                let no_tx_pool = build.run.ctx.config.attributes.no_tx_pool;
                match outcome {
                    Ok(BuildOutcomeKind::Freeze(payload)) => no_tx_pool && keeps_execution(
                        payload,
                        build.run,
                    ) && holds_run(
                        payload,
                        build.run,
                        build.phase->Roots_withdrawals_root,
                        roots,
                    ),
                    Ok(BuildOutcomeKind::Better { payload }) => !no_tx_pool && keeps_execution(
                        payload,
                        build.run,
                    ) && holds_run(
                        payload,
                        build.run,
                        build.phase->Roots_withdrawals_root,
                        roots,
                    ),
                    _ => false,
                }
            },
            (Ok(_), Err(err)) => outcome == Err::<BuildOutcomeKind, PayloadBuilderError>(err),
            (Err(err), _) => outcome == Err::<BuildOutcomeKind, PayloadBuilderError>(
                state_failed(err),
            ),
        },
        match (other.phase, other.run.stage) {
            (VanillaPhase::Failed { err }, _) => without == Err::<
                BuildOutcomeKind,
                PayloadBuilderError,
            >(err),
            (_, Stage::Ended { outcome: Err(err) }) => without == Err::<
                BuildOutcomeKind,
                PayloadBuilderError,
            >(err),
            _ => without == Ok::<BuildOutcomeKind, PayloadBuilderError>(
                BuildOutcomeKind::Cancelled,
            ),
        },
{
    if let Ok(BuildOutcomeKind::Freeze(payload)) = outcome {
        lemma_same_transactions(
            payload.block.body.transactions@,
            build.run.info.executed_transactions@,
        );
    }
    if let Ok(BuildOutcomeKind::Better { payload }) = outcome {
        lemma_same_transactions(
            payload.block.body.transactions@,
            build.run.info.executed_transactions@,
        );
    }
}

/// What the node is asked for while a vanilla build goes on.
pub proof fn law_vanilla_asks<Strategy: DefaultBuilderTxActions + OpTransactionsActions>(
    build: VanillaBuild<Strategy>,
    action: VanillaAction,
)
    requires
        build.wf(),
        call_ensures(VanillaBuild::<Strategy>::next, (&build,), action),
    ensures
        ({
            let attributes = build.run.ctx.config.attributes.payload_attributes;
            match build.phase {
                VanillaPhase::PreBlock { stage: PreBlock::BeaconRoot } => action
                    == VanillaAction::PreBlock(
                    PreBlockAction::BeaconRootCall {
                        parent_beacon_block_root: attributes.parent_beacon_block_root,
                    },
                ),
                VanillaPhase::PreBlock { .. } => action == VanillaAction::PreBlock(
                    PreBlockAction::EnsureCreate2Deployer { timestamp: attributes.timestamp },
                ),
                VanillaPhase::Sequencer | VanillaPhase::Pool { .. } | VanillaPhase::BuilderTx =>
                    action is Run,
                VanillaPhase::Reserve => action is ReserveGas,
                VanillaPhase::Withdrawals => {
                    &&& action matches VanillaAction::CommitWithdrawals { timestamp, withdrawals }
                    &&& timestamp == attributes.timestamp
                    &&& *withdrawals == attributes.withdrawals
                },
                VanillaPhase::Roots { .. } => {
                    &&& action matches VanillaAction::ComputeRoots { number, timestamp, receipts }
                    &&& number == build.run.ctx.initialized_block_env.number@
                    &&& timestamp == attributes.timestamp
                    &&& *receipts == build.run.info.receipts
                },
                VanillaPhase::Failed { .. } | VanillaPhase::Stopped => action is Done,
            }
        }),
        action matches VanillaAction::Run(asked) ==> build.run.asks(asked) && !(asked is Done),
{
}

/// The job gets a payload where there is one. Only one that may be replaced counts as a block
/// built. Without a payload the job reports that it is missing, and an error is passed on. The
/// state reads are handed on with an outcome after which the job may build again.
pub proof fn law_job_gets_payload<Strategy, Reads>(
    builder: OpPayloadBuilderVanilla<Strategy>,
    kind: BuildOutcomeKind,
    reads: Reads,
    outcome: BuildOutcome<Reads>,
    result: Result<BuildOutcome<Reads>, PayloadBuilderError>,
    report: BuildReport,
    attributes: OpPayloadBuilderAttributes,
    reuses: bool,
) where Strategy: DefaultBuilderTxActions + OpTransactionsActions + Copy
    requires
        call_ensures(BuildOutcomeKind::with_cached_reads::<Reads>, (kind, reads), outcome),
        call_ensures(
            OpPayloadBuilderVanilla::<Strategy>::try_build::<Reads>,
            (&builder, result),
            report,
        ),
        call_ensures(
            OpPayloadBuilderVanilla::<Strategy>::reuses_cached_reads,
            (&builder, &attributes),
            reuses,
        ),
    ensures
        match (kind, outcome) {
            (
                BuildOutcomeKind::Better { payload },
                BuildOutcome::Better { payload: same, cached_reads },
            ) => same == payload && cached_reads == reads,
            (
                BuildOutcomeKind::Aborted { fees },
                BuildOutcome::Aborted { fees: same, cached_reads },
            ) => same == fees && cached_reads == reads,
            (BuildOutcomeKind::Cancelled, BuildOutcome::Cancelled) => true,
            (BuildOutcomeKind::Freeze(payload), BuildOutcome::Freeze(same)) => same == payload,
            _ => false,
        },
        match result {
            Ok(BuildOutcome::Better { payload, .. }) => report.best_payload == Some(payload)
                && report.block_built && report.result is Ok,
            Ok(BuildOutcome::Freeze(payload)) => report.best_payload == Some(payload)
                && !report.block_built && report.result is Ok,
            Ok(_) => {
                &&& report.best_payload is None
                &&& !report.block_built
                &&& report.result == Err::<(), PayloadBuilderError>(
                    PayloadBuilderError::MissingPayload,
                )
            },
            Err(err) => {
                &&& report.best_payload is None
                &&& !report.block_built
                &&& report.result == Err::<(), PayloadBuilderError>(err)
            },
        },
        reuses <==> !attributes.no_tx_pool,
{
}

/// Those who stay subscribed are those of the first part who got the message and then those of the
/// rest; a single one stays exactly where the message was delivered at once.
pub proof fn law_subscribers_in_order<T>(
    first: Seq<T>,
    first_outcomes: Seq<Option<bool>>,
    rest: Seq<T>,
    rest_outcomes: Seq<Option<bool>>,
    one: T,
    outcome: Option<bool>,
)
    requires
        first.len() == first_outcomes.len(),
        rest.len() == rest_outcomes.len(),
    ensures
        delivered_to(first + rest, first_outcomes + rest_outcomes) == delivered_to(
            first,
            first_outcomes,
        ) + delivered_to(rest, rest_outcomes),
        outcome == Some(true) ==> delivered_to(seq![one], seq![outcome]) == seq![one],
        outcome != Some(true) ==> delivered_to(seq![one], seq![outcome]).len() == 0,
    decreases rest.len(),
{
    assert(seq![one].drop_last() =~= Seq::empty());
    assert(delivered_to(Seq::<T>::empty(), seq![outcome].drop_last()) =~= Seq::empty());
    assert(Seq::<T>::empty().push(one) =~= seq![one]);
    if rest.len() == 0 {
        assert(first + rest =~= first);
        assert(first_outcomes + rest_outcomes =~= first_outcomes);
        assert(delivered_to(first, first_outcomes) + delivered_to(rest, rest_outcomes)
            =~= delivered_to(first, first_outcomes));
    } else {
        law_subscribers_in_order(
            first,
            first_outcomes,
            rest.drop_last(),
            rest_outcomes.drop_last(),
            one,
            outcome,
        );
        assert((first + rest).drop_last() =~= first + rest.drop_last());
        assert((first_outcomes + rest_outcomes).drop_last() =~= first_outcomes
            + rest_outcomes.drop_last());
        assert(delivered_to(first + rest, first_outcomes + rest_outcomes) =~= delivered_to(
            first,
            first_outcomes,
        ) + delivered_to(rest, rest_outcomes));
    }
}

} // verus!
