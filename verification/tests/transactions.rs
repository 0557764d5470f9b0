#![allow(dead_code)]

use op_rbuilder::actions::tx_executor::{
    screen_pool_transaction, screen_sequencer_transaction, settle_pool_failure,
    settle_sequencer_failure, OpTransactionsActions, Origin, PoolDecision, RunAction, RunEvent,
    SimulationCounts, Stage, TransactionsRun,
};
use op_rbuilder::chain::{
    BaseFeeParams, BlockEnv, ChainSpec, Header, OpPayloadBuilderAttributes, PayloadAttributes,
    PayloadConfig, PayloadId, SealedHeader,
};
use op_rbuilder::components::payload_context::OpPayloadBuilderCtx;
use op_rbuilder::components::tx_executor::ExecutionResult;
use op_rbuilder::chain::{BestTransactionsAttributes, Signer};
use op_rbuilder::components::execution_info::ExecutionInfo;
use op_rbuilder::components::tx_executor::{OpExecutionResult, OpTxExecutor};
use op_rbuilder::errors::{
    EVMError, InvalidTransaction, OpPayloadBuilderError, OpTxExecutorError, OtherError,
    PayloadBuilderError,
};
use op_rbuilder::payload_builder_vanilla::VanillaOpBuilderStrategy;
use op_rbuilder::primitives::{
    collect_logs, Address, Bloom, Log, OpReceipt, OpTransactionSigned, OpTxType, Recovered, TxType,
    B256, B64,
};
use op_rbuilder::u256::U256;

fn address(byte: u8) -> Address {
    Address { bytes: [byte; 20] }
}

fn hash(byte: u8) -> B256 {
    B256 { bytes: [byte; 32] }
}

fn transaction(tx_type: TxType, nonce: u64, gas_limit: u64) -> OpTransactionSigned {
    OpTransactionSigned {
        tx_type,
        nonce,
        gas_limit,
        max_fee_per_gas: if matches!(tx_type, TxType::Deposit) { 0 } else { 100 },
        max_priority_fee_per_gas: match tx_type {
            TxType::Legacy | TxType::Eip2930 | TxType::Deposit => None,
            _ => Some(2),
        },
        encoded: vec![nonce as u8, gas_limit as u8, 1],
    }
}

fn context(transactions: Vec<OpTransactionSigned>, no_tx_pool: bool) -> OpPayloadBuilderCtx {
    OpPayloadBuilderCtx {
        chain_spec: ChainSpec {
            chain_id: 10,
            shanghai: Some(0),
            regolith: Some(0),
            canyon: Some(0),
            ecotone: Some(0),
            holocene: None,
        },
        config: PayloadConfig {
            parent_header: SealedHeader {
                header: Header {
                    parent_hash: hash(1),
                    ommers_hash: hash(2),
                    beneficiary: address(3),
                    state_root: hash(4),
                    transactions_root: hash(5),
                    receipts_root: hash(6),
                    logs_bloom: Bloom { bytes: [0; 256] },
                    difficulty: U256::zero(),
                    number: 41,
                    gas_limit: 30_000_000,
                    gas_used: 0,
                    timestamp: 1_000,
                    extra_data: vec![],
                    mix_hash: hash(7),
                    nonce: 0,
                    base_fee_per_gas: Some(7),
                    withdrawals_root: None,
                    blob_gas_used: None,
                    excess_blob_gas: None,
                    parent_beacon_block_root: None,
                    requests_hash: None,
                },
                hash: hash(9),
            },
            attributes: OpPayloadBuilderAttributes {
                payload_attributes: PayloadAttributes {
                    id: PayloadId { id: B64 { bytes: [8; 8] } },
                    parent: hash(9),
                    timestamp: 1_002,
                    suggested_fee_recipient: address(10),
                    prev_randao: hash(11),
                    withdrawals: vec![],
                    parent_beacon_block_root: Some(hash(13)),
                },
                no_tx_pool,
                transactions,
                gas_limit: Some(1_000_000),
                eip_1559_params: None,
            },
        },
        initialized_block_env: BlockEnv {
            number: U256::from_u64(42),
            coinbase: address(14),
            gas_limit: U256::from_u64(20_000_000),
            basefee: U256::from_u64(50),
            blob_gasprice: None,
        },
        base_fee_params: BaseFeeParams { max_change_denominator: 250, elasticity_multiplier: 6 },
        builder_signer: None,
    }
}

fn success(gas_used: u64) -> Result<ExecutionResult, EVMError> {
    Ok(ExecutionResult::Success {
        gas_used,
        logs: vec![Log { address: address(1), topics: vec![hash(2)], data: vec![3] }],
    })
}

fn offer(tx: OpTransactionSigned, cancelled: bool) -> RunEvent {
    RunEvent::PoolTransaction { tx: Some(Recovered { tx, signer: address(20) }), cancelled }
}

fn invalid(invalid: InvalidTransaction) -> RunEvent {
    RunEvent::Transacted(Err(EVMError::Transaction(invalid)))
}

/// Feeds events to a run and checks that it can take each of them up.
/// A run of the strategy that takes what it can.
type Run = TransactionsRun<VanillaOpBuilderStrategy>;

fn begin(ctx: OpPayloadBuilderCtx) -> Run {
    TransactionsRun::execute_sequencer_transactions(VanillaOpBuilderStrategy, ctx)
}

fn feed<Actions: OpTransactionsActions>(
    run: &mut TransactionsRun<Actions>,
    events: Vec<RunEvent>,
) {
    for event in events {
        assert!(run.can_accept(&event));
        run.step(event);
    }
}

fn nonces<Actions>(run: &TransactionsRun<Actions>) -> Vec<u64> {
    run.info.executed_transactions.iter().map(|tx| tx.nonce).collect()
}

/// A run of one deposit and one other transaction of the sequencer, both executed.
fn after_sequencer() -> Run {
    let txs = vec![transaction(TxType::Deposit, 1, 90_000), transaction(TxType::Eip1559, 2, 60_000)];
    let mut run = begin(context(txs, false));
    feed(&mut run, vec![
        RunEvent::Sender(Ok(address(1))),
        RunEvent::Nonce(Ok(7)),
        RunEvent::Transacted(success(50_000)),
        RunEvent::Committed,
        RunEvent::Sender(Ok(address(2))),
        RunEvent::Transacted(Ok(ExecutionResult::Revert { gas_used: 30_000 })),
        RunEvent::Committed,
    ]);
    run
}

#[test]
fn tip_is_what_is_paid_above_the_base_fee() {
    let legacy = transaction(TxType::Legacy, 0, 0);
    assert_eq!(legacy.effective_tip_per_gas(100), Some(0));
    assert_eq!(legacy.effective_tip_per_gas(40), Some(60));
    assert_eq!(legacy.effective_tip_per_gas(101), None);
    let capped = transaction(TxType::Eip1559, 0, 0);
    assert_eq!(capped.effective_tip_per_gas(40), Some(2));
    assert_eq!(capped.effective_tip_per_gas(99), Some(1));
    assert_eq!(capped.effective_tip_per_gas(98), Some(2));
    assert_eq!(capped.effective_tip_per_gas(101), None);
    assert_eq!(transaction(TxType::Deposit, 0, 0).effective_tip_per_gas(0), Some(0));
}

#[test]
fn same_transactions_agree_in_every_field() {
    let tx = transaction(TxType::Eip1559, 5, 6);
    assert!(tx.same_as(&tx.clone()));
    assert!(!tx.same_as(&transaction(TxType::Eip7702, 5, 6)));
    assert!(!tx.same_as(&transaction(TxType::Eip1559, 4, 6)));
    assert!(!tx.same_as(&transaction(TxType::Eip1559, 5, 7)));
    let mut other = tx.clone();
    other.max_priority_fee_per_gas = None;
    assert!(!tx.same_as(&other));
    other = tx.clone();
    other.encoded[2] = 9;
    assert!(!tx.same_as(&other));
    other = tx.clone();
    other.encoded.push(0);
    assert!(!tx.same_as(&other));
}

#[test]
fn receipts_are_tagged_with_the_kind_of_transaction() {
    for (tx_type, expected) in [
        (TxType::Legacy, OpTxType::Legacy),
        (TxType::Eip2930, OpTxType::Eip2930),
        (TxType::Eip1559, OpTxType::Eip1559),
        (TxType::Eip7702, OpTxType::Eip7702),
        (TxType::Deposit, OpTxType::Deposit),
    ] {
        assert_eq!(transaction(tx_type, 0, 0).op_tx_type(), expected);
        let receipt = OpExecutionResult {
            nonce: Some(3),
            cumulative_gas_used: 11,
            tx_type: expected,
            canyon_active: true,
            result: ExecutionResult::Halt { gas_used: 5 },
        }.receipt();
        assert_eq!(receipt.as_receipt().cumulative_gas_used, 11);
        assert!(!receipt.as_receipt().status);
        assert_eq!(receipt.as_receipt().logs, vec![]);
        match (expected, receipt) {
            (OpTxType::Legacy, OpReceipt::Legacy(_)) => {}
            (OpTxType::Eip2930, OpReceipt::Eip2930(_)) => {}
            (OpTxType::Eip1559, OpReceipt::Eip1559(_)) => {}
            (OpTxType::Eip7702, OpReceipt::Eip7702(_)) => {}
            (OpTxType::Deposit, OpReceipt::Deposit(deposit)) => {
                assert_eq!(deposit.deposit_nonce, Some(3));
                assert_eq!(deposit.deposit_receipt_version, Some(1));
            }
            _ => panic!("wrong tag"),
        }
    }
}

#[test]
fn deposit_receipts_have_a_version_from_canyon_on() {
    let result = OpExecutionResult {
        nonce: None,
        cumulative_gas_used: 1,
        tx_type: OpTxType::Deposit,
        canyon_active: false,
        result: ExecutionResult::Success { gas_used: 1, logs: vec![] },
    };
    assert!(result.is_success());
    assert_eq!(result.gas_used(), 1);
    match result.receipt() {
        OpReceipt::Deposit(deposit) => {
            assert_eq!(deposit.deposit_nonce, None);
            assert_eq!(deposit.deposit_receipt_version, None);
            assert!(deposit.inner.status);
        }
        _ => panic!("wrong tag"),
    }
}

#[test]
fn executor_reads_the_nonce_of_deposits_after_regolith() {
    let mut chain_spec = context(vec![], false).chain_spec;
    chain_spec.regolith = Some(100);
    let deposit = Recovered { tx: transaction(TxType::Deposit, 0, 0), signer: address(4) };
    let plain = Recovered { tx: transaction(TxType::Legacy, 0, 0), signer: address(4) };
    assert_eq!(OpTxExecutor::new(chain_spec, 99).depositor(&deposit), None);
    assert_eq!(OpTxExecutor::new(chain_spec, 100).depositor(&deposit), Some(address(4)));
    assert_eq!(OpTxExecutor::new(chain_spec, 100).depositor(&plain), None);
}

#[test]
fn executor_counts_gas_of_executed_transactions_only() {
    let mut executor = OpTxExecutor::new(context(vec![], false).chain_spec, 1_002);
    let tx = Recovered { tx: transaction(TxType::Legacy, 0, 0), signer: address(4) };
    let first = executor.transact(&tx, None, success(10)).unwrap();
    assert_eq!(first.cumulative_gas_used, 10);
    assert_eq!(first.nonce, None);
    let refused = executor.transact(&tx, None, Err(EVMError::Custom(String::from("x"))));
    assert_eq!(
        refused,
        Err(OpTxExecutorError::EVMError(EVMError::Custom(String::from("x")))),
    );
    let second = executor.transact(&tx, None, Ok(ExecutionResult::Halt { gas_used: 5 })).unwrap();
    assert_eq!(second.cumulative_gas_used, 15);
    assert!(!second.is_success());
}

#[test]
fn info_takes_up_sender_receipt_gas_and_fee() {
    let mut info = ExecutionInfo::with_capacity(2);
    let tx = Recovered { tx: transaction(TxType::Eip1559, 3, 70_000), signer: address(6) };
    let result = OpExecutionResult {
        nonce: None,
        cumulative_gas_used: 21_000,
        tx_type: OpTxType::Eip1559,
        canyon_active: true,
        result: ExecutionResult::Success { gas_used: 21_000, logs: vec![] },
    };
    assert!(!info.contains(&tx.tx));
    info.add(tx, result, 99);
    assert!(info.contains(&transaction(TxType::Eip1559, 3, 70_000)));
    assert_eq!(info.executed_senders, vec![address(6)]);
    assert_eq!(info.cumulative_gas_used, 21_000);
    assert_eq!(info.total_fees, U256::from_u64(21_000));
    assert_eq!(info.receipts.len(), 1);
}

#[test]
fn sequencer_transactions_come_first_and_in_order() {
    let run = after_sequencer();
    assert_eq!(nonces(&run), vec![1, 2]);
    assert_eq!(run.info.executed_senders, vec![address(1), address(2)]);
    assert_eq!(run.info.cumulative_gas_used, 80_000);
    // fees are those of the pool
    assert_eq!(run.info.total_fees, U256::zero());
    assert_eq!(run.info.receipts[0].as_receipt().cumulative_gas_used, 50_000);
    assert_eq!(run.info.receipts[1].as_receipt().cumulative_gas_used, 80_000);
    match &run.info.receipts[0] {
        OpReceipt::Deposit(deposit) => {
            assert_eq!(deposit.deposit_nonce, Some(7));
            assert_eq!(deposit.deposit_receipt_version, Some(1));
        }
        _ => panic!("the first transaction is a deposit"),
    }
    assert_eq!(run.stage, Stage::Ended { outcome: Ok(None) });
    assert_eq!(collect_logs(&run.info.receipts).len(), 1);
}

#[test]
fn run_asks_for_what_it_waits_for() {
    let txs = vec![transaction(TxType::Deposit, 1, 90_000)];
    let mut run = begin(context(txs, false));
    assert_eq!(
        run.next(),
        RunAction::RecoverSender { tx: &transaction(TxType::Deposit, 1, 90_000) },
    );
    run.step(RunEvent::Sender(Ok(address(1))));
    assert_eq!(run.next(), RunAction::LoadNonce { address: address(1) });
    run.step(RunEvent::Nonce(Ok(7)));
    let tx = Recovered { tx: transaction(TxType::Deposit, 1, 90_000), signer: address(1) };
    assert_eq!(run.next(), RunAction::Transact { tx: &tx });
    run.step(RunEvent::Transacted(success(50_000)));
    assert_eq!(run.next(), RunAction::Commit);
    assert_eq!(run.info.executed_transactions.len(), 0);
    run.step(RunEvent::Committed);
    assert_eq!(run.next(), RunAction::Done);
    run.execute_best_transactions(500_000);
    assert_eq!(
        run.next(),
        RunAction::OpenPool {
            attributes: BestTransactionsAttributes { basefee: 50, blob_fee: None },
        },
    );
    run.step(RunEvent::PoolOpened);
    assert_eq!(run.next(), RunAction::NextPoolTransaction);
    run.step(offer(transaction(TxType::Eip4844, 3, 1), false));
    assert_eq!(run.next(), RunAction::MarkInvalid { signer: address(20), nonce: 3 });
    run.step(RunEvent::MarkedInvalid);
    run.step(RunEvent::PoolTransaction { tx: None, cancelled: false });
    assert_eq!(run.stage, Stage::Ended { outcome: Ok(None) });
}

#[test]
fn blob_transaction_of_the_sequencer_ends_the_attempt() {
    let txs = vec![transaction(TxType::Legacy, 1, 1), transaction(TxType::Eip4844, 2, 1)];
    assert!(screen_sequencer_transaction(&txs[0]).is_ok());
    let rejected = PayloadBuilderError::Other(OtherError::Op(
        OpPayloadBuilderError::BlobTransactionRejected,
    ));
    assert_eq!(screen_sequencer_transaction(&txs[1]).as_ref(), Err(&rejected));
    let mut run = begin(context(txs, false));
    feed(&mut run, vec![
        RunEvent::Sender(Ok(address(1))),
        RunEvent::Transacted(success(1)),
        RunEvent::Committed,
    ]);
    assert_eq!(run.stage, Stage::Ended { outcome: Err(rejected) });
}

#[test]
fn sender_that_cannot_be_recovered_ends_the_attempt() {
    let txs = vec![transaction(TxType::Legacy, 1, 1)];
    let mut run = begin(context(txs, false));
    run.step(RunEvent::Sender(Err(())));
    assert_eq!(
        run.stage,
        Stage::Ended {
            outcome: Err(PayloadBuilderError::Other(OtherError::Op(
                OpPayloadBuilderError::TransactionEcRecoverFailed,
            ))),
        },
    );
}

#[test]
fn depositor_that_cannot_be_loaded_ends_the_attempt() {
    let txs = vec![transaction(TxType::Deposit, 1, 1)];
    let mut run = begin(context(txs, false));
    feed(&mut run, vec![RunEvent::Sender(Ok(address(1))), RunEvent::Nonce(Err(()))]);
    assert_eq!(
        run.stage,
        Stage::Ended {
            outcome: Err(PayloadBuilderError::Other(OtherError::Executor(
                OpTxExecutorError::AccountLoad(address(1)),
            ))),
        },
    );
}

#[test]
fn invalid_sequencer_transaction_is_passed_over() {
    let txs = vec![
        transaction(TxType::Legacy, 1, 1),
        transaction(TxType::Legacy, 2, 1),
        transaction(TxType::Legacy, 3, 1),
    ];
    let mut run = begin(context(txs, false));
    feed(&mut run, vec![
        RunEvent::Sender(Ok(address(1))),
        RunEvent::Transacted(success(10)),
        RunEvent::Committed,
        RunEvent::Sender(Ok(address(1))),
        invalid(InvalidTransaction::Other(String::from("balance"))),
        RunEvent::Sender(Ok(address(1))),
        RunEvent::Transacted(success(20)),
        RunEvent::Committed,
    ]);
    assert_eq!(nonces(&run), vec![1, 3]);
    assert_eq!(run.info.receipts[1].as_receipt().cumulative_gas_used, 30);
    assert_eq!(run.stage, Stage::Ended { outcome: Ok(None) });
}

#[test]
fn other_failures_of_the_sequencer_end_the_attempt() {
    let txs = vec![transaction(TxType::Legacy, 1, 1)];
    let mut run = begin(context(txs, false));
    feed(&mut run, vec![
        RunEvent::Sender(Ok(address(1))),
        RunEvent::Transacted(Err(EVMError::Database(String::from("disk")))),
    ]);
    assert_eq!(
        run.stage,
        Stage::Ended {
            outcome: Err(PayloadBuilderError::EvmExecutionError(EVMError::Database(
                String::from("disk"),
            ))),
        },
    );
}

#[test]
fn failures_are_settled_by_their_kind() {
    let too_low = || {
        OpTxExecutorError::EVMError(EVMError::Transaction(InvalidTransaction::NonceTooLow {
            tx: 1,
            state: 2,
        }))
    };
    let other = || {
        OpTxExecutorError::EVMError(EVMError::Transaction(InvalidTransaction::Other(
            String::from("gas"),
        )))
    };
    assert_eq!(settle_sequencer_failure(too_low()), Ok(()));
    assert_eq!(settle_sequencer_failure(other()), Ok(()));
    assert_eq!(settle_pool_failure(too_low()), Ok(false));
    assert_eq!(settle_pool_failure(other()), Ok(true));
    for err in [EVMError::Header(String::new()), EVMError::Precompile(String::new())] {
        assert!(settle_pool_failure(OpTxExecutorError::EVMError(err)).is_err());
    }
    assert_eq!(
        settle_pool_failure(OpTxExecutorError::AccountLoad(address(1))),
        Err(PayloadBuilderError::Other(OtherError::Executor(OpTxExecutorError::AccountLoad(
            address(1),
        )))),
    );
}

#[test]
fn pool_decisions_and_their_order() {
    let run = after_sequencer();
    let known = run.info.executed_transactions[1].clone();
    let screen = |tx: &OpTransactionSigned, cancelled: bool, gas_limit: u64| {
        screen_pool_transaction(&run.info, tx, cancelled, gas_limit)
    };
    let fresh = transaction(TxType::Eip1559, 9, 20_000);
    assert_eq!(screen(&fresh, true, 100_000), PoolDecision::Cancelled);
    assert_eq!(screen(&known, true, 100_000), PoolDecision::Cancelled);
    assert_eq!(screen(&known, false, 0), PoolDecision::AlreadyExecuted);
    assert_eq!(screen(&fresh, false, 99_999), PoolDecision::Reject);
    assert_eq!(screen(&fresh, false, 100_000), PoolDecision::Execute);
    assert_eq!(screen(&transaction(TxType::Eip4844, 9, 1), false, 100_000), PoolDecision::Reject);
    assert_eq!(screen(&transaction(TxType::Deposit, 9, 1), false, 100_000), PoolDecision::Reject);
    assert_eq!(screen(&transaction(TxType::Eip7702, 9, 1), false, 100_000), PoolDecision::Execute);
}

/// Takes none but legacy transactions from the pool.
struct LegacyOnly;

impl OpTransactionsActions for LegacyOnly {
    fn screen_pool_transaction(
        &self,
        info: &ExecutionInfo,
        tx: &OpTransactionSigned,
        cancelled: bool,
        gas_limit: u64,
    ) -> PoolDecision {
        match screen_pool_transaction(info, tx, cancelled, gas_limit) {
            PoolDecision::Execute if tx.tx_type != TxType::Legacy => PoolDecision::Reject,
            decision => decision,
        }
    }
}

#[test]
fn strategy_may_be_choosier_with_the_pool() {
    let ctx = context(vec![transaction(TxType::Eip1559, 1, 90_000)], false);
    let mut run = TransactionsRun::execute_sequencer_transactions(LegacyOnly, ctx);
    feed(&mut run, vec![
        RunEvent::Sender(Ok(address(1))),
        RunEvent::Transacted(success(10)),
        RunEvent::Committed,
    ]);
    run.execute_best_transactions(100_000);
    feed(&mut run, vec![RunEvent::PoolOpened, offer(transaction(TxType::Eip1559, 5, 100), false)]);
    assert_eq!(run.next(), RunAction::MarkInvalid { signer: address(20), nonce: 5 });
    feed(&mut run, vec![
        RunEvent::MarkedInvalid,
        offer(transaction(TxType::Legacy, 6, 100), false),
        RunEvent::Transacted(success(20)),
        RunEvent::Committed,
        RunEvent::PoolTransaction { tx: None, cancelled: false },
    ]);
    assert_eq!(nonces(&run), vec![1, 6]);
    assert_eq!(run.counts.considered, 2);
}

#[test]
fn executions_and_commits_alternate() {
    let mut run = after_sequencer();
    run.execute_best_transactions(1_000_000);
    feed(&mut run, vec![
        RunEvent::PoolOpened,
        offer(transaction(TxType::Legacy, 10, 100), false),
        RunEvent::Transacted(success(10)),
    ]);
    // nothing but the commit can follow, and it cannot follow twice
    assert!(!run.can_accept(&RunEvent::Transacted(success(10))));
    assert!(!run.can_accept(&offer(transaction(TxType::Legacy, 11, 100), false)));
    feed(&mut run, vec![RunEvent::Committed]);
    assert!(!run.can_accept(&RunEvent::Committed));
    feed(&mut run, vec![
        offer(transaction(TxType::Legacy, 11, 100), false),
        invalid(InvalidTransaction::NonceTooLow { tx: 11, state: 12 }),
    ]);
    // what failed is not committed
    assert!(!run.can_accept(&RunEvent::Committed));
    assert_eq!(nonces(&run), vec![1, 2, 10]);
}

#[test]
fn pool_transactions_follow_those_of_the_sequencer() {
    let mut run = after_sequencer();
    run.execute_best_transactions(150_000);
    feed(&mut run, vec![
        RunEvent::PoolOpened,
        // executed; pays the tip over the base fee of the block
        offer(transaction(TxType::Eip1559, 10, 40_000), false),
        RunEvent::Transacted(success(25_000)),
        RunEvent::Committed,
        // offered again: passed over, and not looked at
        offer(transaction(TxType::Eip1559, 10, 40_000), false),
        // does not fit into what is left
        offer(transaction(TxType::Legacy, 11, 45_001), false),
        RunEvent::MarkedInvalid,
        // fits exactly, but its nonce was used
        offer(transaction(TxType::Legacy, 12, 45_000), false),
        invalid(InvalidTransaction::NonceTooLow { tx: 12, state: 13 }),
        // invalid for another reason
        offer(transaction(TxType::Legacy, 13, 45_000), false),
        invalid(InvalidTransaction::Other(String::from("balance"))),
        RunEvent::MarkedInvalid,
        // reverts, and is taken up all the same
        offer(transaction(TxType::Legacy, 14, 45_000), false),
        RunEvent::Transacted(Ok(ExecutionResult::Revert { gas_used: 45_000 })),
        RunEvent::Committed,
        RunEvent::PoolTransaction { tx: None, cancelled: false },
    ]);
    assert_eq!(nonces(&run), vec![1, 2, 10, 14]);
    assert_eq!(run.info.cumulative_gas_used, 150_000);
    assert_eq!(run.info.receipts[3].as_receipt().cumulative_gas_used, 150_000);
    assert!(!run.info.receipts[3].as_receipt().status);
    // 2 * 25000, and (100 - 50) * 45000
    assert_eq!(run.info.total_fees, U256::from_u64(2_300_000));
    assert_eq!(
        run.counts,
        SimulationCounts { considered: 5, simulated: 2, success: 1, fail: 1 },
    );
    assert_eq!(run.stage, Stage::Ended { outcome: Ok(None) });
}

#[test]
fn cancelled_pool_leaves_the_block_as_it_is() {
    let mut run = after_sequencer();
    run.execute_best_transactions(150_000);
    feed(&mut run, vec![
        RunEvent::PoolOpened,
        offer(transaction(TxType::Legacy, 10, 1), true),
    ]);
    assert_eq!(run.stage, Stage::Ended { outcome: Ok(Some(())) });
    assert_eq!(nonces(&run), vec![1, 2]);
    assert_eq!(run.counts.considered, 0);
}

#[test]
fn fatal_failure_in_the_pool_ends_the_attempt() {
    let mut run = after_sequencer();
    run.execute_best_transactions(150_000);
    feed(&mut run, vec![
        RunEvent::PoolOpened,
        offer(transaction(TxType::Legacy, 10, 1), false),
        RunEvent::Transacted(Err(EVMError::Custom(String::from("bug")))),
    ]);
    assert_eq!(
        run.stage,
        Stage::Ended {
            outcome: Err(PayloadBuilderError::EvmExecutionError(EVMError::Custom(String::from(
                "bug",
            )))),
        },
    );
}

#[test]
fn events_out_of_place_are_not_accepted() {
    let run = after_sequencer();
    assert!(!run.can_accept(&RunEvent::Committed));
    assert!(!run.can_accept(&RunEvent::Sender(Ok(address(1)))));
    let txs = vec![transaction(TxType::Legacy, 1, 1)];
    let mut run = begin(context(txs, false));
    assert!(!run.can_accept(&RunEvent::Nonce(Ok(0))));
    run.step(RunEvent::Sender(Ok(address(1))));
    assert!(run.can_accept(&RunEvent::Transacted(success(u64::MAX))));
    assert!(run.can_take(&ExecutionResult::Halt { gas_used: u64::MAX }));
}

#[test]
fn overflow_and_underpayment_are_not_accepted() {
    let mut run = after_sequencer();
    run.execute_best_transactions(u64::MAX);
    run.step(RunEvent::PoolOpened);
    let limit = u64::MAX - 80_000;
    assert!(run.can_accept(&offer(transaction(TxType::Legacy, 10, limit), false)));
    assert!(!run.can_accept(&offer(transaction(TxType::Legacy, 10, limit + 1), false)));
    assert!(run.can_accept(&offer(transaction(TxType::Legacy, 10, limit + 1), true)));
    let mut poor = transaction(TxType::Legacy, 10, 1);
    poor.max_fee_per_gas = 49;
    run.step(offer(poor, false));
    assert!(!run.can_accept(&RunEvent::Transacted(success(1))));
    assert!(run.can_accept(&invalid(InvalidTransaction::Other(String::new()))));
}

/// The builder's transaction, signed by the account `signer`.
fn signed(nonce: u64, signer: u8) -> Recovered {
    let mut tx = transaction(TxType::Eip1559, nonce, 21_256);
    tx.max_fee_per_gas = 50;
    tx.max_priority_fee_per_gas = Some(0);
    Recovered { tx, signer: address(signer) }
}

#[test]
fn builder_transaction_is_added_last() {
    let mut run = after_sequencer();
    run.ctx.builder_signer = Some(Signer { address: address(30) });
    run.add_builder_tx(21_256, vec![1, 2]);
    assert_eq!(run.next(), RunAction::LoadNonce { address: address(30) });
    run.step(RunEvent::Nonce(Ok(4)));
    match run.next() {
        RunAction::SignBuilderTx { tx } => {
            assert_eq!((tx.chain_id, tx.nonce, tx.gas_limit), (10, 4, 21_256));
            assert_eq!(tx.max_fee_per_gas, 50);
            assert_eq!(tx.max_priority_fee_per_gas, 0);
            assert_eq!(tx.input, vec![1, 2]);
        }
        _ => panic!("waits for the signature"),
    }
    feed(&mut run, vec![RunEvent::Signed(Ok(signed(4, 30)))]);
    match &run.stage {
        Stage::Transact { origin, .. } => assert_eq!(*origin, Origin::Builder),
        _ => panic!("waits for the execution"),
    }
    feed(&mut run, vec![RunEvent::Transacted(success(21_256)), RunEvent::Committed]);
    assert_eq!(run.stage, Stage::BuilderDone { added: true });
    assert_eq!(run.next(), RunAction::Done);
    assert_eq!(nonces(&run), vec![1, 2, 4]);
    assert_eq!(run.info.total_fees, U256::zero());
    assert_eq!(run.info.cumulative_gas_used, 101_256);
}

#[test]
fn builder_transaction_is_given_up_on_any_failure() {
    let ready = || {
        let mut run = after_sequencer();
        run.ctx.builder_signer = Some(Signer { address: address(30) });
        run.add_builder_tx(21_256, vec![]);
        run
    };
    let given_up = Stage::BuilderDone { added: false };

    let mut run = after_sequencer();
    run.add_builder_tx(0, vec![]);
    assert_eq!(run.stage, given_up);

    let mut run = ready();
    run.step(RunEvent::Nonce(Err(())));
    assert_eq!(run.stage, given_up);

    let mut run = ready();
    feed(&mut run, vec![RunEvent::Nonce(Ok(0)), RunEvent::Signed(Err(()))]);
    assert_eq!(run.stage, given_up);

    let mut run = ready();
    feed(&mut run, vec![
        RunEvent::Nonce(Ok(0)),
        RunEvent::Signed(Ok(signed(0, 30))),
        RunEvent::Transacted(Err(EVMError::Database(String::from("disk")))),
    ]);
    assert_eq!(run.stage, given_up);
    assert_eq!(nonces(&run), vec![1, 2]);
}

#[test]
fn builder_transaction_must_be_the_one_that_was_to_be_signed() {
    let mut run = after_sequencer();
    run.ctx.builder_signer = Some(Signer { address: address(30) });
    run.add_builder_tx(21_256, vec![]);
    run.step(RunEvent::Nonce(Ok(0)));
    assert!(run.can_accept(&RunEvent::Signed(Ok(signed(0, 30)))));
    assert!(!run.can_accept(&RunEvent::Signed(Ok(signed(1, 30)))));
    assert!(!run.can_accept(&RunEvent::Signed(Ok(signed(0, 31)))));
    let mut other = signed(0, 30);
    other.tx.tx_type = TxType::Legacy;
    assert!(!run.can_accept(&RunEvent::Signed(Ok(other))));
    let mut other = signed(0, 30);
    other.tx.gas_limit += 1;
    assert!(!run.can_accept(&RunEvent::Signed(Ok(other))));
    let mut other = signed(0, 30);
    other.tx.max_fee_per_gas += 1;
    assert!(!run.can_accept(&RunEvent::Signed(Ok(other))));
    let mut other = signed(0, 30);
    other.tx.max_priority_fee_per_gas = Some(1);
    assert!(!run.can_accept(&RunEvent::Signed(Ok(other))));
    let mut other = signed(0, 30);
    other.tx.max_priority_fee_per_gas = None;
    assert!(!run.can_accept(&RunEvent::Signed(Ok(other))));
}

#[test]
fn next_batch_goes_on_with_the_count_of_gas() {
    let mut run = after_sequencer();
    for (nonce, gas_limit) in [(10, 120_000), (11, 160_000)] {
        run.execute_best_transactions(gas_limit);
        feed(&mut run, vec![
            RunEvent::PoolOpened,
            offer(transaction(TxType::Legacy, nonce, 40_000), false),
            RunEvent::Transacted(success(25_000)),
            RunEvent::Committed,
            RunEvent::PoolTransaction { tx: None, cancelled: false },
        ]);
        assert_eq!(run.counts.considered, 1);
    }
    let counted: Vec<u64> =
        run.info.receipts.iter().map(|receipt| receipt.as_receipt().cumulative_gas_used).collect();
    assert_eq!(counted, vec![50_000, 80_000, 105_000, 130_000]);
    assert_eq!(run.info.cumulative_gas_used, 130_000);
}

#[test]
fn cancelled_job_ends_as_such_whatever_the_pool_offers() {
    let offers = vec![
        RunEvent::PoolTransaction { tx: None, cancelled: true },
        offer(transaction(TxType::Legacy, 10, 1), true),
        offer(transaction(TxType::Eip4844, 10, 1), true),
        offer(transaction(TxType::Legacy, 10, u64::MAX), true),
        offer(transaction(TxType::Eip1559, 2, 60_000), true),
    ];
    for event in offers {
        let mut run = after_sequencer();
        run.execute_best_transactions(150_000);
        feed(&mut run, vec![RunEvent::PoolOpened, event]);
        assert_eq!(run.stage, Stage::Ended { outcome: Ok(Some(())) });
        assert_eq!(nonces(&run), vec![1, 2]);
    }
}

#[test]
fn fees_of_the_sequencer_are_not_tracked() {
    let mut tipping = transaction(TxType::Eip1559, 1, 21_000);
    tipping.max_priority_fee_per_gas = Some(5);
    let mut run = begin(context(vec![tipping], false));
    feed(&mut run, vec![
        RunEvent::Sender(Ok(address(1))),
        RunEvent::Transacted(success(21_000)),
        RunEvent::Committed,
    ]);
    assert_eq!(run.info.total_fees, U256::zero());
    assert_eq!(run.info.cumulative_gas_used, 21_000);
}

#[test]
fn untracked_transaction_is_taken_up_like_any_other() {
    let mut info = ExecutionInfo::with_capacity(1);
    let tx = Recovered { tx: transaction(TxType::Eip1559, 3, 70_000), signer: address(6) };
    let result = OpExecutionResult {
        nonce: None,
        cumulative_gas_used: 21_000,
        tx_type: OpTxType::Eip1559,
        canyon_active: true,
        result: ExecutionResult::Revert { gas_used: 21_000 },
    };
    info.add_untracked(tx, result);
    assert_eq!(info.executed_transactions, vec![transaction(TxType::Eip1559, 3, 70_000)]);
    assert_eq!(info.executed_senders, vec![address(6)]);
    assert_eq!(info.receipts.len(), 1);
    assert_eq!(info.cumulative_gas_used, 21_000);
    assert_eq!(info.total_fees, U256::zero());
}

#[test]
fn payload_errors_of_failed_executions() {
    assert_eq!(
        PayloadBuilderError::from(OpTxExecutorError::EVMError(EVMError::Custom(String::new()))),
        PayloadBuilderError::EvmExecutionError(EVMError::Custom(String::new())),
    );
    assert_eq!(
        PayloadBuilderError::other(OpPayloadBuilderError::AccountLoadFailed(address(1))),
        PayloadBuilderError::Other(OtherError::Op(OpPayloadBuilderError::AccountLoadFailed(
            address(1),
        ))),
    );
}
