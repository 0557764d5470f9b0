#![allow(dead_code)]

use op_rbuilder::actions::builder_tx::DefaultBuilderTxActions;
use op_rbuilder::actions::payload::{OpBuiltPayload, StateRoots};
use op_rbuilder::actions::pre_block::PreBlockAction;
use op_rbuilder::actions::tx_executor::{
    screen_pool_transaction, OpTransactionsActions, PoolDecision, RunAction, RunEvent, Stage,
};
use op_rbuilder::chain::{
    BaseFeeParams, BlockEnv, ChainSpec, Header, OpPayloadBuilderAttributes, PayloadAttributes,
    PayloadConfig, PayloadId, SealedHeader,
};
use op_rbuilder::components::payload_context::OpPayloadBuilderCtx;
use op_rbuilder::components::tx_executor::ExecutionResult;
use op_rbuilder::chain::{NextBlockEnvAttributes, Signer, Withdrawal};
use op_rbuilder::components::execution_info::ExecutionInfo;
use op_rbuilder::components::payload_transactions::BestPoolTransactions;
use op_rbuilder::errors::{
    EVMError, InternalError, OpPayloadBuilderError, OtherError, PayloadBuilderError,
};
use op_rbuilder::payload_builder_vanilla::{
    cfg_and_block_env, reserve_builder_gas, BuildOutcome, BuildOutcomeKind,
    OpPayloadBuilderVanilla, VanillaAction, VanillaBuild, VanillaOpBuilderStrategy, VanillaPhase,
};
use op_rbuilder::primitives::{Address, Bloom, Log, OpTransactionSigned, Recovered, TxType, B256, B64};
use op_rbuilder::u256::U256;

fn address(byte: u8) -> Address {
    Address { bytes: [byte; 20] }
}

fn hash(byte: u8) -> B256 {
    B256 { bytes: [byte; 32] }
}

fn transaction(tx_type: TxType, nonce: u64, gas_limit: u64) -> OpTransactionSigned {
    OpTransactionSigned {
        tx_type,
        nonce,
        gas_limit,
        max_fee_per_gas: if matches!(tx_type, TxType::Deposit) { 0 } else { 100 },
        max_priority_fee_per_gas: match tx_type {
            TxType::Legacy | TxType::Eip2930 | TxType::Deposit => None,
            _ => Some(2),
        },
        encoded: vec![nonce as u8, gas_limit as u8, 1],
    }
}

fn context(transactions: Vec<OpTransactionSigned>, no_tx_pool: bool) -> OpPayloadBuilderCtx {
    OpPayloadBuilderCtx {
        chain_spec: ChainSpec {
            chain_id: 10,
            shanghai: Some(0),
            regolith: Some(0),
            canyon: Some(0),
            ecotone: Some(0),
            holocene: None,
        },
        config: PayloadConfig {
            parent_header: SealedHeader {
                header: Header {
                    parent_hash: hash(1),
                    ommers_hash: hash(2),
                    beneficiary: address(3),
                    state_root: hash(4),
                    transactions_root: hash(5),
                    receipts_root: hash(6),
                    logs_bloom: Bloom { bytes: [0; 256] },
                    difficulty: U256::zero(),
                    number: 41,
                    gas_limit: 30_000_000,
                    gas_used: 0,
                    timestamp: 1_000,
                    extra_data: vec![],
                    mix_hash: hash(7),
                    nonce: 0,
                    base_fee_per_gas: Some(7),
                    withdrawals_root: None,
                    blob_gas_used: None,
                    excess_blob_gas: None,
                    parent_beacon_block_root: None,
                    requests_hash: None,
                },
                hash: hash(9),
            },
            attributes: OpPayloadBuilderAttributes {
                payload_attributes: PayloadAttributes {
                    id: PayloadId { id: B64 { bytes: [8; 8] } },
                    parent: hash(9),
                    timestamp: 1_002,
                    suggested_fee_recipient: address(10),
                    prev_randao: hash(11),
                    withdrawals: vec![],
                    parent_beacon_block_root: Some(hash(13)),
                },
                no_tx_pool,
                transactions,
                gas_limit: Some(1_000_000),
                eip_1559_params: None,
            },
        },
        initialized_block_env: BlockEnv {
            number: U256::from_u64(42),
            coinbase: address(14),
            gas_limit: U256::from_u64(20_000_000),
            basefee: U256::from_u64(50),
            blob_gasprice: None,
        },
        base_fee_params: BaseFeeParams { max_change_denominator: 250, elasticity_multiplier: 6 },
        builder_signer: None,
    }
}

fn success(gas_used: u64) -> Result<ExecutionResult, EVMError> {
    Ok(ExecutionResult::Success {
        gas_used,
        logs: vec![Log { address: address(1), topics: vec![hash(2)], data: vec![3] }],
    })
}

const ROOTS: StateRoots = StateRoots {
    state_root: B256 { bytes: [0xaa; 32] },
    receipts_root: B256 { bytes: [0xbb; 32] },
};

fn offer(tx: OpTransactionSigned, cancelled: bool) -> RunEvent {
    RunEvent::PoolTransaction { tx: Some(Recovered { tx, signer: address(20) }), cancelled }
}

fn feed(build: &mut VanillaBuild<VanillaOpBuilderStrategy>, events: Vec<RunEvent>) {
    for event in events {
        assert!(build.run.can_accept(&event));
        build.on_run(event);
    }
}

/// A build that is past the pre-block actions.
fn prepared(ctx: OpPayloadBuilderCtx) -> VanillaBuild<VanillaOpBuilderStrategy> {
    let mut build = VanillaOpBuilderStrategy.execute(ctx);
    build.on_beacon_root(Ok(()));
    build.on_create2_deployer(Ok(()));
    build
}

fn with_signer(mut ctx: OpPayloadBuilderCtx) -> OpPayloadBuilderCtx {
    ctx.builder_signer = Some(Signer { address: address(30) });
    ctx
}

fn payload_nonces(payload: &OpBuiltPayload) -> Vec<u64> {
    payload.block.body.transactions.iter().map(|tx| tx.nonce).collect()
}

fn signed() -> RunEvent {
    let mut tx = transaction(TxType::Eip1559, 77, 21_256);
    tx.max_fee_per_gas = 50;
    tx.max_priority_fee_per_gas = Some(0);
    RunEvent::Signed(Ok(Recovered { tx, signer: address(30) }))
}

#[test]
fn whole_vanilla_build() {
    let txs = vec![transaction(TxType::Deposit, 1, 90_000)];
    let mut ctx = with_signer(context(txs, false));
    let withdrawals =
        vec![Withdrawal { index: 1, validator_index: 2, address: address(3), amount: 4 }];
    ctx.config.attributes.payload_attributes.withdrawals = withdrawals.clone();
    let mut build = VanillaBuild::new(VanillaOpBuilderStrategy, ctx);
    assert_eq!(
        build.next(),
        VanillaAction::PreBlock(PreBlockAction::BeaconRootCall {
            parent_beacon_block_root: Some(hash(13)),
        }),
    );
    build.on_beacon_root(Ok(()));
    assert_eq!(
        build.next(),
        VanillaAction::PreBlock(PreBlockAction::EnsureCreate2Deployer { timestamp: 1_002 }),
    );
    build.on_create2_deployer(Ok(()));
    assert_eq!(
        build.next(),
        VanillaAction::Run(RunAction::RecoverSender {
            tx: &transaction(TxType::Deposit, 1, 90_000),
        }),
    );
    feed(&mut build, vec![
        RunEvent::Sender(Ok(address(1))),
        RunEvent::Nonce(Ok(0)),
        RunEvent::Transacted(success(40_000)),
        RunEvent::Committed,
    ]);
    assert_eq!(build.next(), VanillaAction::ReserveGas);
    assert!(build.reserve_gas());
    feed(&mut build, vec![
        RunEvent::PoolOpened,
        // one unit more than the block has left besides the builder's transaction
        offer(transaction(TxType::Legacy, 5, 938_745), false),
        RunEvent::MarkedInvalid,
        offer(transaction(TxType::Legacy, 6, 938_744), false),
        RunEvent::Transacted(success(60_000)),
        RunEvent::Committed,
        RunEvent::PoolTransaction { tx: None, cancelled: false },
    ]);
    assert_eq!(build.next(), VanillaAction::Run(RunAction::LoadNonce { address: address(30) }));
    feed(&mut build, vec![RunEvent::Nonce(Ok(77)), signed()]);
    feed(&mut build, vec![RunEvent::Transacted(success(21_256)), RunEvent::Committed]);
    assert_eq!(
        build.next(),
        VanillaAction::CommitWithdrawals { timestamp: 1_002, withdrawals: &withdrawals },
    );
    build.on_withdrawals(Ok(Some(hash(0xcc))));
    match build.next() {
        VanillaAction::ComputeRoots { number, timestamp, receipts } => {
            assert_eq!((number, timestamp), (42, 1_002));
            assert_eq!(receipts, &build.run.info.receipts);
            assert_eq!(receipts.len(), 3);
        }
        _ => panic!("the roots are computed next"),
    }
    match build.on_roots(Ok(ROOTS)) {
        Ok(BuildOutcomeKind::Better { payload }) => {
            assert_eq!(payload_nonces(&payload), vec![1, 6, 77]);
            assert_eq!(payload.fees, U256::from_u64(3_000_000));
            let header = &payload.block.header.header;
            assert_eq!(header.gas_used, 121_256);
            assert_eq!(header.withdrawals_root, Some(hash(0xcc)));
            let executed = payload.executed_block.unwrap();
            assert_eq!(executed.block, payload.block);
            assert_eq!(executed.senders, vec![address(1), address(20), address(30)]);
            assert_eq!(executed.receipts[2].as_receipt().cumulative_gas_used, 121_256);
        }
        _ => panic!("a better payload"),
    }
}

#[test]
fn no_tx_pool_leaves_only_the_attributes() {
    let txs = vec![
        transaction(TxType::Deposit, 1, 90_000),
        transaction(TxType::Legacy, 2, 90_000),
        transaction(TxType::Legacy, 3, 90_000),
    ];
    let mut build = prepared(with_signer(context(txs, true)));
    feed(&mut build, vec![
        RunEvent::Sender(Ok(address(1))),
        RunEvent::Nonce(Ok(0)),
        RunEvent::Transacted(success(40_000)),
        RunEvent::Committed,
        RunEvent::Sender(Ok(address(2))),
        RunEvent::Transacted(Err(EVMError::Transaction(
            op_rbuilder::errors::InvalidTransaction::NonceTooLow { tx: 2, state: 3 },
        ))),
        RunEvent::Sender(Ok(address(2))),
        RunEvent::Transacted(success(30_000)),
        RunEvent::Committed,
    ]);
    assert!(matches!(build.next(), VanillaAction::CommitWithdrawals { .. }));
    build.on_withdrawals(Ok(None));
    match build.on_roots(Ok(ROOTS)) {
        Ok(BuildOutcomeKind::Freeze(payload)) => {
            assert_eq!(payload_nonces(&payload), vec![1, 3]);
            assert_eq!(payload.block.header.header.gas_used, 70_000);
            assert_eq!(payload.fees, U256::zero());
        }
        _ => panic!("a frozen payload"),
    }
}

#[test]
fn builder_gas_is_set_aside_only_with_a_signer() {
    let message = VanillaOpBuilderStrategy.block_message(&context(vec![], false));
    assert_eq!(message, b"Block Number: 42".to_vec());
    assert_eq!(reserve_builder_gas(&context(vec![], false), &message), 0);
    let ctx = with_signer(context(vec![], false));
    assert_eq!(reserve_builder_gas(&ctx, &message), 21_256);
    let mut ctx = with_signer(context(vec![], false));
    ctx.config.attributes.gas_limit = Some(21_255);
    let mut small = prepared(ctx);
    assert!(!small.reserve_gas());
    assert_eq!(small.phase, VanillaPhase::Reserve);
    let mut ctx = with_signer(context(vec![], false));
    ctx.config.attributes.gas_limit = Some(21_256);
    assert!(prepared(ctx).reserve_gas());
}

#[test]
fn build_without_signer_or_transactions() {
    let mut build = prepared(context(vec![], false));
    assert!(build.reserve_gas());
    feed(&mut build, vec![
        RunEvent::PoolOpened,
        RunEvent::PoolTransaction { tx: None, cancelled: false },
    ]);
    assert!(matches!(build.next(), VanillaAction::CommitWithdrawals { .. }));
    build.on_withdrawals(Ok(None));
    match build.on_roots(Ok(ROOTS)) {
        Ok(BuildOutcomeKind::Better { payload }) => {
            assert_eq!(payload_nonces(&payload), Vec::<u64>::new());
            assert_eq!(payload.block.header.header.gas_used, 0);
        }
        _ => panic!("a better payload"),
    }
}

/// A strategy whose builder transaction carries three bytes.
#[derive(Clone, Copy)]
struct ShortMessage;

impl OpTransactionsActions for ShortMessage {
    fn screen_pool_transaction(
        &self,
        info: &ExecutionInfo,
        tx: &OpTransactionSigned,
        cancelled: bool,
        gas_limit: u64,
    ) -> PoolDecision {
        screen_pool_transaction(info, tx, cancelled, gas_limit)
    }
}

impl DefaultBuilderTxActions for ShortMessage {
    fn block_message(&self, _ctx: &OpPayloadBuilderCtx) -> Vec<u8> {
        vec![1, 0, 2]
    }
}

#[test]
fn strategy_may_carry_its_own_message() {
    let ctx = with_signer(context(vec![], false));
    let builder = OpPayloadBuilderVanilla::new(ctx.builder_signer, ShortMessage);
    let begun = builder.build_payload(
        ctx.chain_spec,
        ctx.base_fee_params,
        ctx.config,
        Ok(ctx.initialized_block_env),
        Ok(()),
    );
    let mut build = begun.ok().unwrap();
    build.on_beacon_root(Ok(()));
    build.on_create2_deployer(Ok(()));
    assert!(build.reserve_gas());
    for event in [
        RunEvent::PoolOpened,
        RunEvent::PoolTransaction { tx: None, cancelled: false },
        RunEvent::Nonce(Ok(3)),
    ] {
        assert!(build.run.can_accept(&event));
        build.on_run(event);
    }
    match &build.run.stage {
        Stage::BuilderSign { tx } => {
            assert_eq!(tx.input, vec![1, 0, 2]);
            assert_eq!(tx.gas_limit, 21_036);
        }
        _ => panic!("waits for the signature"),
    }
}

#[test]
fn cancelled_vanilla_build_with_an_empty_pool() {
    let mut build = prepared(with_signer(context(vec![], false)));
    assert!(build.reserve_gas());
    feed(&mut build, vec![
        RunEvent::PoolOpened,
        RunEvent::PoolTransaction { tx: None, cancelled: true },
    ]);
    assert_eq!(build.phase, VanillaPhase::Stopped);
    assert_eq!(build.into_outcome(), Ok(BuildOutcomeKind::Cancelled));
}

#[test]
fn cancelled_vanilla_build() {
    let mut build = prepared(context(vec![], false));
    assert!(build.reserve_gas());
    feed(&mut build, vec![RunEvent::PoolOpened, offer(transaction(TxType::Legacy, 5, 1), true)]);
    assert_eq!(build.phase, VanillaPhase::Stopped);
    assert_eq!(build.next(), VanillaAction::Done);
    assert_eq!(build.into_outcome(), Ok(BuildOutcomeKind::Cancelled));
}

#[test]
fn vanilla_build_that_fails() {
    let provider = |err: &str| {
        PayloadBuilderError::Internal(InternalError::Provider(String::from(err)))
    };

    let mut build = VanillaBuild::new(VanillaOpBuilderStrategy, context(vec![], false));
    build.on_beacon_root(Err(String::from("call")));
    assert_eq!(build.next(), VanillaAction::Done);
    assert_eq!(
        build.into_outcome(),
        Err(PayloadBuilderError::Internal(InternalError::Execution(String::from("call")))),
    );

    let mut build = VanillaBuild::new(VanillaOpBuilderStrategy, context(vec![], false));
    build.on_beacon_root(Ok(()));
    build.on_create2_deployer(Err(String::from("db")));
    assert_eq!(
        build.into_outcome(),
        Err(PayloadBuilderError::Other(OtherError::Op(
            OpPayloadBuilderError::ForceCreate2DeployerFail,
        ))),
    );

    let build = prepared(context(vec![transaction(TxType::Eip4844, 1, 1)], true));
    assert_eq!(
        build.into_outcome(),
        Err(PayloadBuilderError::Other(OtherError::Op(
            OpPayloadBuilderError::BlobTransactionRejected,
        ))),
    );

    let mut build = prepared(context(vec![], true));
    build.on_withdrawals(Err(String::from("disk")));
    assert_eq!(build.into_outcome(), Err(provider("disk")));

    let mut build = prepared(context(vec![], true));
    build.on_withdrawals(Ok(None));
    assert_eq!(build.on_roots(Err(String::from("trie"))), Err(provider("trie")));

    let mut build = prepared(context(vec![], false));
    assert!(build.reserve_gas());
    feed(&mut build, vec![
        RunEvent::PoolOpened,
        offer(transaction(TxType::Legacy, 5, 1), false),
        RunEvent::Transacted(Err(EVMError::Header(String::from("h")))),
    ]);
    assert_eq!(
        build.into_outcome(),
        Err(PayloadBuilderError::EvmExecutionError(EVMError::Header(String::from("h")))),
    );
}

#[test]
fn next_block_environment_of_the_vanilla_builder() {
    let ctx = context(vec![], false);
    let builder = OpPayloadBuilderVanilla::new(None, VanillaOpBuilderStrategy);
    assert_eq!(builder.best_transactions, BestPoolTransactions);
    let expected = NextBlockEnvAttributes {
        timestamp: 1_002,
        suggested_fee_recipient: address(10),
        prev_randao: hash(11),
        gas_limit: 1_000_000,
    };
    let parent = &ctx.config.parent_header.header;
    assert_eq!(builder.cfg_and_block_env(&ctx.config.attributes, parent), expected);
    let mut attributes = ctx.config.attributes.clone();
    attributes.gas_limit = None;
    assert_eq!(
        cfg_and_block_env(&attributes, parent),
        NextBlockEnvAttributes { gas_limit: 30_000_000, ..expected },
    );
}

#[test]
fn vanilla_builder_begins_with_its_signer() {
    let signer = Some(Signer { address: address(30) });
    let builder = OpPayloadBuilderVanilla::new(signer, VanillaOpBuilderStrategy);
    let ctx = context(vec![], false);
    let params = ctx.base_fee_params;
    let block_env = ctx.initialized_block_env;
    let begin = |block_env, state| {
        let config = context(vec![], false).config;
        builder.build_payload(ctx.chain_spec, params, config, block_env, state)
    };
    let build = begin(Ok(block_env), Ok(())).unwrap();
    assert_eq!(build.run.ctx, with_signer(context(vec![], false)));
    let err = begin(Err(String::from("cfg")), Err(String::from("state"))).err();
    assert_eq!(err, Some(PayloadBuilderError::Other(OtherError::EvmConfig(String::from("cfg")))));
    let err = begin(Ok(block_env), Err(String::from("state"))).err();
    assert_eq!(
        err,
        Some(PayloadBuilderError::Internal(InternalError::Provider(String::from("state")))),
    );
}

#[test]
fn job_gets_the_payload_of_a_build() {
    let builder = OpPayloadBuilderVanilla::new(None, VanillaOpBuilderStrategy);
    let frozen = || {
        let mut build = prepared(context(vec![], true));
        build.on_withdrawals(Ok(None));
        build.on_roots(Ok(ROOTS)).unwrap()
    };
    let report = builder.try_build(Ok(frozen().with_cached_reads(5u8)));
    assert!(report.best_payload.is_some());
    assert!(!report.block_built);
    assert_eq!(report.result, Ok(()));

    let payload = match frozen() {
        BuildOutcomeKind::Freeze(payload) => payload,
        _ => panic!("frozen"),
    };
    let better = BuildOutcomeKind::Better { payload }.with_cached_reads(5u8);
    match &better {
        BuildOutcome::Better { cached_reads, .. } => assert_eq!(*cached_reads, 5),
        _ => panic!("better"),
    }
    let report = builder.try_build(Ok(better));
    assert!(report.best_payload.is_some());
    assert!(report.block_built);
    assert_eq!(report.result, Ok(()));
}

#[test]
fn job_without_a_payload_reports_so() {
    let builder = OpPayloadBuilderVanilla::new(None, VanillaOpBuilderStrategy);
    let cancelled = BuildOutcomeKind::Cancelled.with_cached_reads(());
    let aborted = BuildOutcomeKind::Aborted { fees: U256::from_u64(1) }.with_cached_reads(());
    for outcome in [cancelled, aborted] {
        let report = builder.try_build(Ok(outcome));
        assert_eq!(report.best_payload, None);
        assert!(!report.block_built);
        assert_eq!(report.result, Err(PayloadBuilderError::MissingPayload));
    }
    let err = || PayloadBuilderError::EvmExecutionError(EVMError::Custom(String::new()));
    let report = builder.try_build::<()>(Err(err()));
    assert_eq!(report.best_payload, None);
    assert_eq!(report.result, Err(err()));
}

#[test]
fn cached_reads_are_for_sequencers() {
    let builder = OpPayloadBuilderVanilla::new(None, VanillaOpBuilderStrategy);
    assert!(builder.reuses_cached_reads(&context(vec![], false).config.attributes));
    assert!(!builder.reuses_cached_reads(&context(vec![], true).config.attributes));
}
