#![allow(dead_code)]

use op_rbuilder::actions::payload::{OpBuiltPayload, StateRoots};
use op_rbuilder::actions::tx_executor::{PoolDecision, RunAction, RunEvent};
use op_rbuilder::builder_flashblocks::FlashblocksAction;
use op_rbuilder::chain::{
    BaseFeeParams, BlockEnv, ChainSpec, Header, OpPayloadBuilderAttributes, PayloadAttributes,
    PayloadConfig, PayloadId, SealedHeader,
};
use op_rbuilder::components::payload_context::OpPayloadBuilderCtx;
use op_rbuilder::components::tx_executor::ExecutionResult;
use op_rbuilder::chain::NextBlockEnvAttributes;
use op_rbuilder::errors::{
    EVMError, InternalError, OpPayloadBuilderError, OtherError, PayloadBuilderError,
};
use op_rbuilder::payload_builder::{
    build_block, screen_batch_transaction, BatchRun, BatchStage, ExecutedPayload, ExecutionInfo,
    OpPayloadBuilder, PayloadBuild,
};
use op_rbuilder::primitives::{
    Address, Bloom, Log, OpReceipt, OpTransactionSigned, Recovered, TxType, B256, B64,
};
use op_rbuilder::tx_executor::{Executor, TxExecutionInfo};
use op_rbuilder::u256::U256;

fn address(byte: u8) -> Address {
    Address { bytes: [byte; 20] }
}

fn hash(byte: u8) -> B256 {
    B256 { bytes: [byte; 32] }
}

fn transaction(tx_type: TxType, nonce: u64, gas_limit: u64) -> OpTransactionSigned {
    OpTransactionSigned {
        tx_type,
        nonce,
        gas_limit,
        max_fee_per_gas: if matches!(tx_type, TxType::Deposit) { 0 } else { 100 },
        max_priority_fee_per_gas: match tx_type {
            TxType::Legacy | TxType::Eip2930 | TxType::Deposit => None,
            _ => Some(2),
        },
        encoded: vec![nonce as u8, gas_limit as u8, 1],
    }
}

fn context(transactions: Vec<OpTransactionSigned>, no_tx_pool: bool) -> OpPayloadBuilderCtx {
    OpPayloadBuilderCtx {
        chain_spec: ChainSpec {
            chain_id: 10,
            shanghai: Some(0),
            regolith: Some(0),
            canyon: Some(0),
            ecotone: Some(0),
            holocene: None,
        },
        config: PayloadConfig {
            parent_header: SealedHeader {
                header: Header {
                    parent_hash: hash(1),
                    ommers_hash: hash(2),
                    beneficiary: address(3),
                    state_root: hash(4),
                    transactions_root: hash(5),
                    receipts_root: hash(6),
                    logs_bloom: Bloom { bytes: [0; 256] },
                    difficulty: U256::zero(),
                    number: 41,
                    gas_limit: 30_000_000,
                    gas_used: 0,
                    timestamp: 1_000,
                    extra_data: vec![],
                    mix_hash: hash(7),
                    nonce: 0,
                    base_fee_per_gas: Some(7),
                    withdrawals_root: None,
                    blob_gas_used: None,
                    excess_blob_gas: None,
                    parent_beacon_block_root: None,
                    requests_hash: None,
                },
                hash: hash(9),
            },
            attributes: OpPayloadBuilderAttributes {
                payload_attributes: PayloadAttributes {
                    id: PayloadId { id: B64 { bytes: [8; 8] } },
                    parent: hash(9),
                    timestamp: 1_002,
                    suggested_fee_recipient: address(10),
                    prev_randao: hash(11),
                    withdrawals: vec![],
                    parent_beacon_block_root: Some(hash(13)),
                },
                no_tx_pool,
                transactions,
                gas_limit: Some(1_000_000),
                eip_1559_params: None,
            },
        },
        initialized_block_env: BlockEnv {
            number: U256::from_u64(42),
            coinbase: address(14),
            gas_limit: U256::from_u64(20_000_000),
            basefee: U256::from_u64(50),
            blob_gasprice: None,
        },
        base_fee_params: BaseFeeParams { max_change_denominator: 250, elasticity_multiplier: 6 },
        builder_signer: None,
    }
}

fn success(gas_used: u64) -> Result<ExecutionResult, EVMError> {
    Ok(ExecutionResult::Success {
        gas_used,
        logs: vec![Log { address: address(1), topics: vec![hash(2)], data: vec![3] }],
    })
}

const ROOTS: StateRoots = StateRoots {
    state_root: B256 { bytes: [0xaa; 32] },
    receipts_root: B256 { bytes: [0xbb; 32] },
};

fn offer(tx: OpTransactionSigned, cancelled: bool) -> RunEvent {
    RunEvent::PoolTransaction { tx: Some(Recovered { tx, signer: address(20) }), cancelled }
}

fn step_all(run: &mut BatchRun, events: Vec<RunEvent>) {
    for event in events {
        assert!(run.can_accept(&event));
        run.step(event);
    }
}

fn feed(build: &mut PayloadBuild, events: Vec<RunEvent>) {
    for event in events {
        assert!(build.run.can_accept(&event));
        build.on_run(event);
    }
}

fn payload_nonces(payload: &OpBuiltPayload) -> Vec<u64> {
    payload.block.body.transactions.iter().map(|tx| tx.nonce).collect()
}

/// Builds and publishes the block of the transactions so far, and reports how the sending went.
fn publish_with(build: &mut PayloadBuild, sent: Result<(), String>) -> OpBuiltPayload {
    let withdrawals = build.run.ctx.config.attributes.payload_attributes.withdrawals.clone();
    assert_eq!(
        build.next(),
        FlashblocksAction::CommitWithdrawals { timestamp: 1_002, withdrawals: &withdrawals },
    );
    build.on_withdrawals(Ok(None));
    match build.next() {
        FlashblocksAction::ComputeRoots { number, timestamp, receipts } => {
            assert_eq!((number, timestamp), (42, 1_002));
            assert_eq!(receipts, &build.run.info.receipts);
        }
        _ => panic!("the roots are computed next"),
    }
    let payload = build.on_roots(Ok(ROOTS)).unwrap();
    assert_eq!(build.next(), FlashblocksAction::Publish);
    assert!(build.can_publish());
    build.on_published(sent);
    payload
}

fn publish(build: &mut PayloadBuild) -> OpBuiltPayload {
    publish_with(build, Ok(()))
}

#[test]
fn executed_transaction_settles_receipt_and_fee() {
    let mut executor = Executor::new(98);
    let tx = Recovered { tx: transaction(TxType::Eip1559, 1, 90_000), signer: address(3) };
    assert_eq!(Executor::depositor(&tx), None);
    let executed = executor.execute(tx, None, success(1_000)).unwrap();
    assert_eq!(executed.gas_used(), 1_000);
    assert!(executed.is_success());
    assert_eq!(executed.tx().signer, address(3));
    let info = executed.info();
    assert_eq!(info.fee, U256::from_u64(2_000));
    assert_eq!(info.gas_used, 1_000);
    assert_eq!(info.sender, address(3));
    assert_eq!(info.tx, transaction(TxType::Eip1559, 1, 90_000));
    match &info.receipt {
        OpReceipt::Eip1559(receipt) => {
            assert!(receipt.status);
            assert_eq!(receipt.cumulative_gas_used, 1_000);
            assert_eq!(receipt.logs.len(), 1);
        }
        _ => panic!("wrong tag"),
    }
    assert_eq!(executor.total_gas_used, 1_000);
}

#[test]
fn executed_deposit_has_no_receipt_version() {
    let mut executor = Executor::new(0);
    let tx = Recovered { tx: transaction(TxType::Deposit, 1, 90_000), signer: address(3) };
    assert_eq!(Executor::depositor(&tx), Some(address(3)));
    let halted = Ok(ExecutionResult::Halt { gas_used: 90_000 });
    let executed = executor.execute(tx, Some(12), halted).unwrap();
    assert!(!executed.is_success());
    let info = TxExecutionInfo::from(executed);
    assert_eq!(info.fee, U256::zero());
    match &info.receipt {
        OpReceipt::Deposit(deposit) => {
            assert_eq!(deposit.deposit_nonce, Some(12));
            assert_eq!(deposit.deposit_receipt_version, None);
            assert_eq!(deposit.inner.logs, vec![]);
        }
        _ => panic!("wrong tag"),
    }
}

#[test]
fn refused_transaction_leaves_the_executor_as_it_was() {
    let mut executor = Executor::new(0);
    let tx = Recovered { tx: transaction(TxType::Legacy, 1, 90_000), signer: address(3) };
    let refused = executor.execute(tx, None, Err(EVMError::Custom(String::from("x"))));
    assert_eq!(refused.err(), Some(EVMError::Custom(String::from("x"))));
    assert_eq!(executor, Executor::new(0));
}

#[test]
fn batch_info_adds_up() {
    let mut info = ExecutionInfo::with_capacity(1);
    let mut executor = Executor::new(0);
    for nonce in [1, 2] {
        let tx = Recovered { tx: transaction(TxType::Legacy, nonce, 1), signer: address(3) };
        let executed = executor.execute(tx, None, success(10)).unwrap();
        info.add(executed.info());
    }
    assert_eq!(info.cumulative_gas_used, 20);
    assert_eq!(info.total_fees, U256::from_u64(2_000));
    assert_eq!(info.executed_senders.len(), 2);
    assert_eq!(info.receipts[1].as_receipt().cumulative_gas_used, 20);
    assert!(info.contains(&transaction(TxType::Legacy, 2, 1)));
    assert!(!info.contains(&transaction(TxType::Legacy, 3, 1)));
    let payload = ExecutedPayload { info, withdrawals_root: None };
    assert_eq!(payload.withdrawals_root, None);
}

#[test]
fn batch_decisions_and_their_order() {
    let mut info = ExecutionInfo::with_capacity(1);
    let tx = Recovered { tx: transaction(TxType::Legacy, 1, 100), signer: address(3) };
    info.add(Executor::new(0).execute(tx, None, success(10)).unwrap().info());
    let screen = |tx: &OpTransactionSigned, cancelled: bool| {
        screen_batch_transaction(&info, tx, cancelled, 50)
    };
    for tx in [
        transaction(TxType::Legacy, 1, 100),
        transaction(TxType::Legacy, 2, 41),
        transaction(TxType::Eip4844, 2, 40),
        transaction(TxType::Legacy, 2, u64::MAX),
    ] {
        assert_eq!(screen(&tx, true), PoolDecision::Cancelled);
    }
    assert_eq!(screen(&transaction(TxType::Legacy, 1, 100), false), PoolDecision::AlreadyExecuted);
    assert_eq!(screen(&transaction(TxType::Legacy, 2, 41), false), PoolDecision::Reject);
    assert_eq!(screen(&transaction(TxType::Eip4844, 2, 40), false), PoolDecision::Reject);
    assert_eq!(screen(&transaction(TxType::Deposit, 2, 40), false), PoolDecision::Reject);
    assert_eq!(screen(&transaction(TxType::Legacy, 2, 40), false), PoolDecision::Execute);
}

#[test]
fn cancelled_batch_ends_as_such_whatever_the_pool_offers() {
    for event in [
        RunEvent::PoolTransaction { tx: None, cancelled: true },
        offer(transaction(TxType::Eip4844, 10, 1), true),
        offer(transaction(TxType::Legacy, 10, u64::MAX), true),
    ] {
        let mut run = BatchRun::execute_sequencer_transactions(context(vec![], false));
        run.execute_best_transactions(100);
        step_all(&mut run, vec![RunEvent::PoolOpened, event]);
        assert_eq!(run.stage, BatchStage::Ended { outcome: Ok(Some(())) });
        assert_eq!(run.info.executed_transactions.len(), 0);
    }
}

#[test]
fn executor_counts_what_was_executed() {
    let mut executor = Executor::new(50);
    let tx = || Recovered { tx: transaction(TxType::Legacy, 1, 90_000), signer: address(3) };
    let _ = executor.execute(tx(), None, success(10));
    let _ = executor.execute(tx(), None, Err(EVMError::Custom(String::new())));
    let _ = executor.execute(tx(), None, Ok(ExecutionResult::Halt { gas_used: 20 }));
    let info = executor.execute(tx(), None, success(5)).unwrap().info();
    assert_eq!(info.receipt.as_receipt().cumulative_gas_used, 35);
    assert_eq!(info.fee, U256::from_u64(250));
}

#[test]
fn batch_run_takes_all_sequencer_transactions() {
    let txs = vec![transaction(TxType::Deposit, 1, 90_000), transaction(TxType::Legacy, 2, 60_000)];
    let mut run = BatchRun::execute_sequencer_transactions(context(txs, false));
    assert_eq!(
        run.next(),
        RunAction::RecoverSender { tx: &transaction(TxType::Deposit, 1, 90_000) },
    );
    run.step(RunEvent::Sender(Ok(address(1))));
    assert_eq!(run.next(), RunAction::LoadNonce { address: address(1) });
    assert!(!run.can_accept(&RunEvent::Nonce(Err(()))));
    run.step(RunEvent::Nonce(Ok(7)));
    let tx = Recovered { tx: transaction(TxType::Deposit, 1, 90_000), signer: address(1) };
    assert_eq!(run.next(), RunAction::Transact { tx: &tx });
    assert!(!run.can_accept(&RunEvent::Transacted(Err(EVMError::Custom(String::new())))));
    step_all(&mut run, vec![RunEvent::Transacted(success(50_000))]);
    assert_eq!(run.next(), RunAction::Commit);
    step_all(&mut run, vec![
        RunEvent::Committed,
        RunEvent::Sender(Ok(address(2))),
        RunEvent::Transacted(success(30_000)),
        RunEvent::Committed,
    ]);
    assert_eq!(run.next(), RunAction::Done);
    assert_eq!(run.stage, BatchStage::Ended { outcome: Ok(None) });
    let nonces: Vec<u64> = run.info.executed_transactions.iter().map(|tx| tx.nonce).collect();
    assert_eq!(nonces, vec![1, 2]);
    // fees are those of the pool
    assert_eq!(run.info.total_fees, U256::zero());
    assert_eq!(run.info.receipts[1].as_receipt().cumulative_gas_used, 80_000);
}

#[test]
fn batch_run_refuses_bad_sequencer_transactions() {
    let other = |err| BatchStage::Ended {
        outcome: Err(PayloadBuilderError::Other(OtherError::Op(err))),
    };
    let blob = vec![transaction(TxType::Eip4844, 1, 1)];
    let run = BatchRun::execute_sequencer_transactions(context(blob, false));
    assert_eq!(run.stage, other(OpPayloadBuilderError::BlobTransactionRejected));
    let txs = vec![transaction(TxType::Legacy, 1, 1)];
    let mut run = BatchRun::execute_sequencer_transactions(context(txs, false));
    run.step(RunEvent::Sender(Err(())));
    assert_eq!(run.stage, other(OpPayloadBuilderError::TransactionEcRecoverFailed));
}

#[test]
fn whole_payload_build() {
    let txs = vec![transaction(TxType::Legacy, 1, 90_000)];
    let mut build = PayloadBuild::new(context(txs, false));
    build.on_beacon_root(Ok(()));
    build.on_create2_deployer(Ok(()));
    feed(&mut build, vec![
        RunEvent::Sender(Ok(address(1))),
        RunEvent::Transacted(success(40_000)),
        RunEvent::Committed,
    ]);
    assert_eq!(payload_nonces(&publish(&mut build)), vec![1]);

    build.on_cancel_check(false);
    feed(&mut build, vec![
        RunEvent::PoolOpened,
        offer(transaction(TxType::Legacy, 1, 90_000), false),
        offer(transaction(TxType::Legacy, 5, 210_001), false),
        RunEvent::MarkedInvalid,
        offer(transaction(TxType::Legacy, 6, 210_000), false),
        RunEvent::Transacted(success(200_000)),
        RunEvent::Committed,
        RunEvent::PoolTransaction { tx: None, cancelled: false },
    ]);
    build.on_cancel_check(false);
    let first = publish(&mut build);
    assert_eq!(payload_nonces(&first), vec![1, 6]);
    assert_eq!(first.block.header.header.gas_used, 240_000);
    // 50 * 200000 over the base fee of the block; nothing of the sequencer's
    assert_eq!(first.fees, U256::from_u64(10_000_000));
    // the count of gas begins anew with the batch
    assert_eq!(build.run.info.receipts[0].as_receipt().cumulative_gas_used, 40_000);
    assert_eq!(build.run.info.receipts[1].as_receipt().cumulative_gas_used, 200_000);
    assert_eq!(build.next(), FlashblocksAction::Pause { millis: 250 });
    build.on_paused();
    build.on_cancel_check(true);
    assert_eq!(build.next(), FlashblocksAction::Done);
    assert_eq!(build.into_outcome(), Ok(()));
}

#[test]
fn receipts_count_gas_from_the_beginning_of_their_batch() {
    let txs = vec![transaction(TxType::Legacy, 1, 10_000), transaction(TxType::Legacy, 2, 10_000)];
    let mut run = BatchRun::execute_sequencer_transactions(context(txs, false));
    step_all(&mut run, vec![
        RunEvent::Sender(Ok(address(1))),
        RunEvent::Transacted(success(1_000)),
        RunEvent::Committed,
        RunEvent::Sender(Ok(address(2))),
        RunEvent::Transacted(success(2_000)),
        RunEvent::Committed,
    ]);
    for (nonce, limit) in [(5, 100_000), (7, 200_000)] {
        run.execute_best_transactions(limit);
        step_all(&mut run, vec![
            RunEvent::PoolOpened,
            offer(transaction(TxType::Legacy, nonce, 10_000), false),
            RunEvent::Transacted(success(300)),
            RunEvent::Committed,
            offer(transaction(TxType::Legacy, nonce + 1, 10_000), false),
            RunEvent::Transacted(success(40)),
            RunEvent::Committed,
            RunEvent::PoolTransaction { tx: None, cancelled: false },
        ]);
    }
    let counts: Vec<u64> =
        run.info.receipts.iter().map(|receipt| receipt.as_receipt().cumulative_gas_used).collect();
    assert_eq!(counts, vec![1_000, 3_000, 300, 340, 300, 340]);
    assert_eq!(run.info.cumulative_gas_used, 3_680);
}

#[test]
fn failed_publication_changes_nothing() {
    let payloads = |sent: Result<(), String>| {
        let txs = vec![transaction(TxType::Legacy, 1, 90_000)];
        let mut build = PayloadBuild::new(context(txs, false));
        build.on_beacon_root(Ok(()));
        build.on_create2_deployer(Ok(()));
        feed(&mut build, vec![
            RunEvent::Sender(Ok(address(1))),
            RunEvent::Transacted(success(40_000)),
            RunEvent::Committed,
        ]);
        let fallback = publish_with(&mut build, sent.clone());
        build.on_cancel_check(false);
        feed(&mut build, vec![
            RunEvent::PoolOpened,
            offer(transaction(TxType::Legacy, 6, 210_000), false),
            RunEvent::Transacted(success(200_000)),
            RunEvent::Committed,
            RunEvent::PoolTransaction { tx: None, cancelled: false },
        ]);
        build.on_cancel_check(false);
        let first = publish_with(&mut build, sent);
        assert_eq!(build.flow.schedule.flashblock_count, 1);
        build.on_paused();
        build.on_cancel_check(true);
        (fallback, first, build.into_outcome())
    };
    let sent = payloads(Ok(()));
    assert_eq!(sent.2, Ok(()));
    assert_eq!(payloads(Err(String::from("channel closed"))), sent);
}

#[test]
fn payload_build_without_the_pool() {
    let mut build = PayloadBuild::new(context(vec![], true));
    build.on_beacon_root(Ok(()));
    build.on_create2_deployer(Ok(()));
    assert_eq!(payload_nonces(&publish(&mut build)), Vec::<u64>::new());
    assert_eq!(build.next(), FlashblocksAction::Done);
    assert_eq!(build.into_outcome(), Ok(()));
}

#[test]
fn payload_build_that_is_cancelled_or_fails() {
    let mut build = PayloadBuild::new(context(vec![], false));
    build.on_beacon_root(Ok(()));
    build.on_create2_deployer(Ok(()));
    publish(&mut build);
    build.on_cancel_check(false);
    feed(&mut build, vec![RunEvent::PoolOpened, offer(transaction(TxType::Legacy, 5, 1), true)]);
    build.on_cancel_check(true);
    assert_eq!(build.into_outcome(), Ok(()));

    let mut build = PayloadBuild::new(context(vec![], false));
    build.on_beacon_root(Ok(()));
    build.on_create2_deployer(Ok(()));
    build.on_withdrawals(Ok(None));
    assert_eq!(build.on_roots(Err(String::from("trie"))), None);
    assert_eq!(
        build.into_outcome(),
        Err(PayloadBuilderError::Internal(InternalError::Provider(String::from("trie")))),
    );

    let mut build = PayloadBuild::new(context(vec![transaction(TxType::Eip4844, 1, 1)], false));
    build.on_beacon_root(Ok(()));
    build.on_create2_deployer(Ok(()));
    assert!(build.into_outcome().is_err());
}

#[test]
fn block_of_a_batch_is_sealed_like_any_other() {
    let ctx = context(vec![], false);
    let mut info = ExecutionInfo::with_capacity(1);
    let tx = Recovered { tx: transaction(TxType::Legacy, 1, 100), signer: address(3) };
    info.add(Executor::new(0).execute(tx, None, success(10)).unwrap().info());
    let payload = build_block(&ctx, &info, Some(hash(1)), ROOTS).unwrap();
    assert_eq!(payload_nonces(&payload), vec![1]);
    assert_eq!(payload.block.header.header.gas_used, 10);
    assert_eq!(payload.block.header.header.withdrawals_root, Some(hash(1)));
    assert_eq!(payload.executed_block, None);
}

#[test]
fn next_block_environment_of_the_payload_builder() {
    let ctx = context(vec![], false);
    let builder = OpPayloadBuilder::new();
    assert_eq!(
        builder.cfg_and_block_env(&ctx.config.attributes, &ctx.config.parent_header.header),
        NextBlockEnvAttributes {
            timestamp: 1_002,
            suggested_fee_recipient: address(10),
            prev_randao: hash(11),
            gas_limit: 30_000_000,
        },
    );
    let build = builder.build_payload(
        ctx.chain_spec,
        ctx.base_fee_params,
        context(vec![], false).config,
        Ok(ctx.initialized_block_env),
        Err(String::from("state")),
    );
    assert_eq!(
        build.err(),
        Some(PayloadBuilderError::Internal(InternalError::Provider(String::from("state")))),
    );
}
