#![allow(dead_code)]

use op_rbuilder::actions::payload::{OpBuiltPayload, StateRoots};
use op_rbuilder::actions::pre_block::PreBlockAction;
use op_rbuilder::actions::tx_executor::{RunAction, RunEvent};
use op_rbuilder::builder_flashblocks::{
    DefaultFlashblocksBuilder, ExecutedPayload, FlashblocksAction, FlashblocksBuild,
    FlashblocksPhase, FlashblocksSchedule,
};
use op_rbuilder::chain::{
    BaseFeeParams, BlockEnv, ChainSpec, Header, OpPayloadBuilderAttributes, PayloadAttributes,
    PayloadConfig, PayloadId, SealedHeader,
};
use op_rbuilder::components::payload_context::OpPayloadBuilderCtx;
use op_rbuilder::components::tx_executor::ExecutionResult;
use op_rbuilder::components::execution_info::ExecutionInfo;
use op_rbuilder::errors::{EVMError, InternalError, OtherError, PayloadBuilderError};
use op_rbuilder::primitives::{Address, Bloom, Log, OpTransactionSigned, Recovered, TxType, B256, B64};
use op_rbuilder::publish::retain_delivered;
use op_rbuilder::u256::U256;

fn address(byte: u8) -> Address {
    Address { bytes: [byte; 20] }
}

fn hash(byte: u8) -> B256 {
    B256 { bytes: [byte; 32] }
}

fn transaction(tx_type: TxType, nonce: u64, gas_limit: u64) -> OpTransactionSigned {
    OpTransactionSigned {
        tx_type,
        nonce,
        gas_limit,
        max_fee_per_gas: if matches!(tx_type, TxType::Deposit) { 0 } else { 100 },
        max_priority_fee_per_gas: match tx_type {
            TxType::Legacy | TxType::Eip2930 | TxType::Deposit => None,
            _ => Some(2),
        },
        encoded: vec![nonce as u8, gas_limit as u8, 1],
    }
}

fn context(transactions: Vec<OpTransactionSigned>, no_tx_pool: bool) -> OpPayloadBuilderCtx {
    OpPayloadBuilderCtx {
        chain_spec: ChainSpec {
            chain_id: 10,
            shanghai: Some(0),
            regolith: Some(0),
            canyon: Some(0),
            ecotone: Some(0),
            holocene: None,
        },
        config: PayloadConfig {
            parent_header: SealedHeader {
                header: Header {
                    parent_hash: hash(1),
                    ommers_hash: hash(2),
                    beneficiary: address(3),
                    state_root: hash(4),
                    transactions_root: hash(5),
                    receipts_root: hash(6),
                    logs_bloom: Bloom { bytes: [0; 256] },
                    difficulty: U256::zero(),
                    number: 41,
                    gas_limit: 30_000_000,
                    gas_used: 0,
                    timestamp: 1_000,
                    extra_data: vec![],
                    mix_hash: hash(7),
                    nonce: 0,
                    base_fee_per_gas: Some(7),
                    withdrawals_root: None,
                    blob_gas_used: None,
                    excess_blob_gas: None,
                    parent_beacon_block_root: None,
                    requests_hash: None,
                },
                hash: hash(9),
            },
            attributes: OpPayloadBuilderAttributes {
                payload_attributes: PayloadAttributes {
                    id: PayloadId { id: B64 { bytes: [8; 8] } },
                    parent: hash(9),
                    timestamp: 1_002,
                    suggested_fee_recipient: address(10),
                    prev_randao: hash(11),
                    withdrawals: vec![],
                    parent_beacon_block_root: Some(hash(13)),
                },
                no_tx_pool,
                transactions,
                gas_limit: Some(1_000_000),
                eip_1559_params: None,
            },
        },
        initialized_block_env: BlockEnv {
            number: U256::from_u64(42),
            coinbase: address(14),
            gas_limit: U256::from_u64(20_000_000),
            basefee: U256::from_u64(50),
            blob_gasprice: None,
        },
        base_fee_params: BaseFeeParams { max_change_denominator: 250, elasticity_multiplier: 6 },
        builder_signer: None,
    }
}

fn success(gas_used: u64) -> Result<ExecutionResult, EVMError> {
    Ok(ExecutionResult::Success {
        gas_used,
        logs: vec![Log { address: address(1), topics: vec![hash(2)], data: vec![3] }],
    })
}

const ROOTS: StateRoots = StateRoots {
    state_root: B256 { bytes: [0xaa; 32] },
    receipts_root: B256 { bytes: [0xbb; 32] },
};

fn offer(tx: OpTransactionSigned, cancelled: bool) -> RunEvent {
    RunEvent::PoolTransaction { tx: Some(Recovered { tx, signer: address(20) }), cancelled }
}

/// A build of the library's own strategy.
type Build = FlashblocksBuild<DefaultFlashblocksBuilder>;

fn feed(build: &mut Build, events: Vec<RunEvent>) {
    for event in events {
        assert!(build.run.can_accept(&event));
        build.on_run(event);
    }
}

fn payload_nonces(payload: &OpBuiltPayload) -> Vec<u64> {
    payload.block.body.transactions.iter().map(|tx| tx.nonce).collect()
}

fn prepared(ctx: OpPayloadBuilderCtx) -> Build {
    let mut build = FlashblocksBuild::new(DefaultFlashblocksBuilder {}, ctx);
    build.on_beacon_root(Ok(()));
    build.on_create2_deployer(Ok(()));
    build
}

/// Builds and publishes the block of the transactions so far.
fn publish(build: &mut Build) -> OpBuiltPayload {
    let withdrawals = build.run.ctx.config.attributes.payload_attributes.withdrawals.clone();
    assert_eq!(
        build.next(),
        FlashblocksAction::CommitWithdrawals { timestamp: 1_002, withdrawals: &withdrawals },
    );
    build.on_withdrawals(Ok(None));
    match build.next() {
        FlashblocksAction::ComputeRoots { number, timestamp, receipts } => {
            assert_eq!((number, timestamp), (42, 1_002));
            assert_eq!(receipts, &build.run.info.receipts);
        }
        _ => panic!("the roots are computed next"),
    }
    let payload = build.on_roots(Ok(ROOTS)).unwrap();
    assert_eq!(build.next(), FlashblocksAction::Publish);
    assert!(build.can_publish());
    build.on_published(Ok(()));
    payload
}

#[test]
fn schedule_adds_a_quarter_for_each_batch() {
    let mut schedule = FlashblocksSchedule::new(1_000_003);
    let mut budgets = vec![];
    for count in 0..5 {
        assert_eq!(schedule.flashblock_count, count);
        budgets.push(schedule.total_gas_per_batch);
        assert!(schedule.can_advance());
        schedule.advance();
    }
    assert_eq!(budgets, vec![250_000, 500_000, 750_000, 1_000_000, 1_250_000]);
}

#[test]
fn schedule_ends_where_the_gas_no_longer_fits() {
    let mut schedule = FlashblocksSchedule::new(u64::MAX);
    for _ in 0..3 {
        assert!(schedule.can_advance());
        schedule.advance();
    }
    assert_eq!(schedule.total_gas_per_batch, u64::MAX - 3);
    assert!(!schedule.can_advance());
    assert_eq!(FlashblocksSchedule::new(3).total_gas_per_batch, 0);
}

#[test]
fn whole_flashblocks_build() {
    let txs = vec![transaction(TxType::Deposit, 1, 90_000)];
    let mut build = FlashblocksBuild::new(DefaultFlashblocksBuilder {}, context(txs, false));
    assert_eq!(
        build.next(),
        FlashblocksAction::PreBlock(PreBlockAction::BeaconRootCall {
            parent_beacon_block_root: Some(hash(13)),
        }),
    );
    build.on_beacon_root(Ok(()));
    build.on_create2_deployer(Ok(()));
    assert_eq!(
        build.next(),
        FlashblocksAction::Run(RunAction::RecoverSender {
            tx: &transaction(TxType::Deposit, 1, 90_000),
        }),
    );
    feed(&mut build, vec![
        RunEvent::Sender(Ok(address(1))),
        RunEvent::Nonce(Ok(0)),
        RunEvent::Transacted(success(40_000)),
        RunEvent::Committed,
    ]);
    let fallback = publish(&mut build);
    assert_eq!(payload_nonces(&fallback), vec![1]);
    assert_eq!(fallback.executed_block, None);

    // the first batch: a quarter of the block
    assert_eq!(build.next(), FlashblocksAction::CheckCancelled);
    build.on_cancel_check(false);
    feed(&mut build, vec![
        RunEvent::PoolOpened,
        offer(transaction(TxType::Legacy, 5, 210_001), false),
        RunEvent::MarkedInvalid,
        offer(transaction(TxType::Legacy, 6, 210_000), false),
        RunEvent::Transacted(success(200_000)),
        RunEvent::Committed,
        RunEvent::PoolTransaction { tx: None, cancelled: false },
    ]);
    assert_eq!(build.next(), FlashblocksAction::CheckCancelled);
    build.on_cancel_check(false);
    let first = publish(&mut build);
    assert_eq!(payload_nonces(&first), vec![1, 6]);
    assert_eq!(first.block.header.header.gas_used, 240_000);
    assert_eq!(build.next(), FlashblocksAction::Pause { millis: 250 });
    build.on_paused();

    // the second batch: what did not fit before may fit now
    build.on_cancel_check(false);
    feed(&mut build, vec![
        RunEvent::PoolOpened,
        offer(transaction(TxType::Legacy, 5, 210_001), false),
        RunEvent::Transacted(success(100_000)),
        RunEvent::Committed,
        RunEvent::PoolTransaction { tx: None, cancelled: false },
    ]);
    build.on_cancel_check(false);
    let second = publish(&mut build);
    assert_eq!(payload_nonces(&second), vec![1, 6, 5]);
    assert_eq!(second.fees, U256::from_u64(15_000_000));
    // the receipts count the gas of the block, over all batches
    assert_eq!(build.run.info.receipts[2].as_receipt().cumulative_gas_used, 340_000);
    assert_eq!(second.block.header.header.gas_used, 340_000);
    for payload in [&first, &second] {
        let header = &payload.block.header.header;
        assert_eq!(payload.id, fallback.id);
        assert_eq!(header.number, fallback.block.header.header.number);
        assert_eq!(header.parent_hash, fallback.block.header.header.parent_hash);
        assert_eq!(header.gas_limit, fallback.block.header.header.gas_limit);
    }
    assert_eq!((fallback.fees, first.fees), (U256::zero(), U256::from_u64(10_000_000)));
    build.on_paused();

    build.on_cancel_check(true);
    assert_eq!(build.next(), FlashblocksAction::Done);
    assert_eq!(build.into_outcome(), Ok(()));
}

#[test]
fn no_tx_pool_ends_with_the_fallback_block() {
    let txs = vec![transaction(TxType::Legacy, 1, 90_000)];
    let mut build = prepared(context(txs, true));
    feed(&mut build, vec![
        RunEvent::Sender(Ok(address(1))),
        RunEvent::Transacted(success(40_000)),
        RunEvent::Committed,
    ]);
    assert_eq!(payload_nonces(&publish(&mut build)), vec![1]);
    assert_eq!(build.next(), FlashblocksAction::Done);
    assert_eq!(build.into_outcome(), Ok(()));
}

#[test]
fn batch_that_is_cancelled_is_not_published() {
    let mut build = prepared(context(vec![], false));
    publish(&mut build);
    build.on_cancel_check(false);
    feed(&mut build, vec![
        RunEvent::PoolOpened,
        offer(transaction(TxType::Legacy, 5, 1), true),
    ]);
    assert_eq!(build.next(), FlashblocksAction::CheckCancelled);
    build.on_cancel_check(true);
    assert_eq!(build.next(), FlashblocksAction::Done);
    assert_eq!(build.into_outcome(), Ok(()));
}

#[test]
fn flashblocks_build_that_fails() {
    let provider = |err: &str| {
        PayloadBuilderError::Internal(InternalError::Provider(String::from(err)))
    };

    let mut build = prepared(context(vec![], false));
    build.on_withdrawals(Err(String::from("disk")));
    assert_eq!(build.into_outcome(), Err(provider("disk")));

    let mut build = prepared(context(vec![], false));
    build.on_withdrawals(Ok(None));
    assert_eq!(build.on_roots(Err(String::from("trie"))), None);
    assert_eq!(build.into_outcome(), Err(provider("trie")));

    let mut ctx = context(vec![], false);
    ctx.chain_spec.holocene = Some(0);
    let mut build = prepared(ctx);
    build.on_withdrawals(Ok(None));
    assert_eq!(build.on_roots(Ok(ROOTS)), None);
    match build.into_outcome() {
        Err(PayloadBuilderError::Other(OtherError::ExtraData(_))) => {}
        _ => panic!("no extra data"),
    }

    let mut build = prepared(context(vec![], false));
    publish(&mut build);
    build.on_cancel_check(false);
    feed(&mut build, vec![
        RunEvent::PoolOpened,
        offer(transaction(TxType::Legacy, 5, 1), false),
        RunEvent::Transacted(Err(EVMError::Custom(String::from("bug")))),
    ]);
    assert_eq!(build.flow.phase, FlashblocksPhase::Stopped);
    assert_eq!(
        build.into_outcome(),
        Err(PayloadBuilderError::EvmExecutionError(EVMError::Custom(String::from("bug")))),
    );

    let mut build = FlashblocksBuild::new(DefaultFlashblocksBuilder {}, context(vec![], false));
    build.on_beacon_root(Err(String::from("call")));
    assert_eq!(
        build.into_outcome(),
        Err(PayloadBuilderError::Internal(InternalError::Execution(String::from("call")))),
    );
}

#[test]
fn flashblocks_strategy_begins_without_a_signer() {
    let ctx = context(vec![], false);
    let build = DefaultFlashblocksBuilder {}
        .build(
            ctx.chain_spec,
            ctx.base_fee_params,
            context(vec![], false).config,
            Ok(ctx.initialized_block_env),
            Ok(()),
        );
    let build = build.ok().unwrap();
    assert_eq!(build.run.ctx, context(vec![], false));
    let failed = DefaultFlashblocksBuilder {}
        .build(
            ctx.chain_spec,
            ctx.base_fee_params,
            context(vec![], false).config,
            Err(String::from("cfg")),
            Ok(()),
        );
    assert_eq!(
        failed.err(),
        Some(PayloadBuilderError::Other(OtherError::EvmConfig(String::from("cfg")))),
    );
}

#[test]
fn executed_payload_holds_what_was_executed() {
    let payload = ExecutedPayload {
        info: ExecutionInfo::with_capacity(0),
        withdrawals_root: Some(hash(1)),
    };
    assert_eq!(payload.info.executed_transactions.len(), 0);
    assert_eq!(payload.withdrawals_root, Some(hash(1)));
}

#[test]
fn subscribers_without_the_message_are_removed() {
    let mut subscribers = vec!["a", "b", "c", "d"];
    retain_delivered(&mut subscribers, &vec![Some(true), Some(false), None, Some(true)]);
    assert_eq!(subscribers, vec!["a", "d"]);
    retain_delivered(&mut subscribers, &vec![Some(true), Some(true)]);
    assert_eq!(subscribers, vec!["a", "d"]);
    retain_delivered(&mut subscribers, &vec![None, Some(false)]);
    assert_eq!(subscribers, Vec::<&str>::new());
}
