//! What the block records of an executed transaction.

use vstd::prelude::*;

use crate::components::execution_info::ExecutionInfo;
use crate::components::tx_executor::{
    gas_of, ExecutionResult, OpExecutionResult, OpTxExecutor,
};
use crate::errors::{EVMError, OpTxExecutorError};
use crate::payload_builder;
use crate::primitives::{
    log_views, receipt_views, tx_views, Address, Log, OpReceipt, OpTransactionSigned, OpTxType,
    Receipt, Recovered, TxType, TxView,
};
use crate::tx_executor::{ExecutedTx, Executor, TxExecutionInfo};
use crate::u256::modulus;

verus! {

/// The logs that the EVM reported of a transaction, if it succeeded, are there, each in its place;
/// else there are none.
pub open spec fn has_logs_of(logs: Seq<Log>, result: ExecutionResult) -> bool {
    match result {
        ExecutionResult::Success { logs: reported, .. } => {
            &&& logs.len() == reported@.len()
            &&& forall|i: int|
                0 <= i < logs.len() ==> {
                    &&& (#[trigger] logs[i]).address == reported@[i].address
                    &&& logs[i].topics@ == reported@[i].topics@
                    &&& logs[i].data@ == reported@[i].data@
                }
        },
        _ => logs.len() == 0,
    }
}

/// The gas that the EVM reported, however the transaction ended.
pub open spec fn used(result: ExecutionResult, gas: u64) -> bool {
    ||| result matches ExecutionResult::Success { gas_used, .. } && gas == gas_used
    ||| result matches ExecutionResult::Revert { gas_used } && gas == gas_used
    ||| result matches ExecutionResult::Halt { gas_used } && gas == gas_used
}

/// Logs with the same views as those that stay of `result` are those that the EVM reported.
pub(crate) proof fn lemma_has_logs(logs: Seq<Log>, result: ExecutionResult)
    requires
        log_views(logs) == result.spec_logs(),
    ensures
        has_logs_of(logs, result),
{
    assert(log_views(logs).len() == logs.len());
    if let ExecutionResult::Success { logs: reported, .. } = result {
        assert(log_views(reported@).len() == reported@.len());
        assert forall|i: int| 0 <= i < logs.len() implies {
            &&& (#[trigger] logs[i]).address == reported@[i].address
            &&& logs[i].topics@ == reported@[i].topics@
            &&& logs[i].data@ == reported@[i].data@
        } by {
            assert(log_views(logs)[i] == logs[i]@);
            assert(log_views(reported@)[i] == reported@[i]@);
        }
    }
}

/// The logs of a transaction that succeeded are all those that the EVM reported, each in its place.
/// Any other transaction leaves no logs.
pub proof fn law_logs_are_those_reported(result: ExecutionResult, kept: Vec<Log>)
    requires
        call_ensures(ExecutionResult::into_logs, (result,), kept),
    ensures
        has_logs_of(kept@, result),
{
    lemma_has_logs(kept@, result);
}

/// The gas that a transaction used is what the EVM reported, and it succeeded exactly where the EVM
/// says so.
pub proof fn law_result_is_what_was_reported(result: ExecutionResult, gas: u64, success: bool)
    requires
        call_ensures(ExecutionResult::gas_used, (&result,), gas),
        call_ensures(ExecutionResult::is_success, (&result,), success),
    ensures
        used(result, gas),
        success <==> result is Success,
{
}

/// The tip for a unit of gas exceeds neither what the sender pays over the base fee nor the
/// priority fee that the transaction names, and it is one of the two. There is none where the
/// sender pays less than the base fee.
pub proof fn law_tip(tx: OpTransactionSigned, base_fee: u64, tip: Option<u128>)
    requires
        call_ensures(OpTransactionSigned::effective_tip_per_gas, (&tx, base_fee), tip),
    ensures
        tip is Some <==> base_fee <= tx.max_fee_per_gas,
        tip matches Some(tip) ==> is_tip(tx@, base_fee, tip as int),
{
}

/// `tip` is the lower of what the sender of `tx` pays over the base fee and of the priority fee
/// that it names, where it names one.
pub open spec fn is_tip(tx: TxView, base_fee: u64, tip: int) -> bool {
    &&& 0 <= tip <= tx.max_fee_per_gas - base_fee
    &&& tx.max_priority_fee_per_gas matches Some(most) ==> tip <= most
    &&& tip == tx.max_fee_per_gas - base_fee || (tx.max_priority_fee_per_gas matches Some(most)
        && tip == most)
}

/// A higher base fee never leaves a higher tip, and a transaction that names a lower priority fee
/// never pays a higher one.
pub proof fn law_tips_compare(
    tx: OpTransactionSigned,
    base_fee: u64,
    tip: u128,
    other: OpTransactionSigned,
    higher: u64,
    less: u128,
)
    requires
        base_fee <= higher,
        tx.max_fee_per_gas == other.max_fee_per_gas,
        other.max_priority_fee_per_gas == tx.max_priority_fee_per_gas
            || other.max_priority_fee_per_gas is Some && (
        tx.max_priority_fee_per_gas matches Some(most) ==> other.max_priority_fee_per_gas->0
            <= most),
        call_ensures(OpTransactionSigned::effective_tip_per_gas, (&tx, base_fee), Some(tip)),
        call_ensures(OpTransactionSigned::effective_tip_per_gas, (&other, higher), Some(less)),
    ensures
        less <= tip,
{
}

/// The kind of a receipt: the variant has the name of the kind.
pub open spec fn is_tagged(receipt: OpReceipt, kind: TxType) -> bool {
    &&& receipt is Legacy <==> kind is Legacy
    &&& receipt is Eip2930 <==> kind is Eip2930
    &&& receipt is Eip1559 <==> kind is Eip1559
    &&& receipt is Eip7702 <==> kind is Eip7702
    &&& receipt is Deposit <==> kind is Deposit
}

/// What a receipt holds besides its tag.
pub open spec fn inner(receipt: OpReceipt) -> Receipt {
    match receipt {
        OpReceipt::Legacy(inner) => inner,
        OpReceipt::Eip2930(inner) => inner,
        OpReceipt::Eip1559(inner) => inner,
        OpReceipt::Eip7702(inner) => inner,
        OpReceipt::Deposit(deposit) => deposit.inner,
    }
}

/// `receipt` is that of a transaction of this kind that the EVM executed with `result`: its status
/// says whether the transaction succeeded, it has the logs that were reported, and only where it is
/// that of a deposit has it a nonce and a version.
pub open spec fn records(
    receipt: OpReceipt,
    kind: TxType,
    result: ExecutionResult,
    counted: int,
    nonce: Option<u64>,
    version: Option<u64>,
) -> bool {
    &&& is_tagged(receipt, kind)
    &&& inner(receipt).status <==> result is Success
    &&& has_logs_of(inner(receipt).logs@, result)
    &&& inner(receipt).cumulative_gas_used == counted
    &&& receipt matches OpReceipt::Deposit(deposit) ==> deposit.deposit_nonce == nonce
        && deposit.deposit_receipt_version == version
}

/// A receipt is tagged with the kind of its transaction and keeps what it had; a deposit records a
/// nonce and a version besides.
pub proof fn law_receipt_is_tagged(
    kind: OpTxType,
    receipt: Receipt,
    nonce: Option<u64>,
    version: Option<u64>,
    tagged: OpReceipt,
)
    requires
        call_ensures(OpReceipt::new, (kind, receipt, nonce, version), tagged),
    ensures
        tagged is Legacy <==> kind is Legacy,
        tagged is Eip2930 <==> kind is Eip2930,
        tagged is Eip1559 <==> kind is Eip1559,
        tagged is Eip7702 <==> kind is Eip7702,
        tagged is Deposit <==> kind is Deposit,
        inner(tagged).status == receipt.status,
        inner(tagged).cumulative_gas_used == receipt.cumulative_gas_used,
        log_views(inner(tagged).logs@) == log_views(receipt.logs@),
        tagged matches OpReceipt::Deposit(deposit) ==> deposit.deposit_nonce == nonce
            && deposit.deposit_receipt_version == version,
{
}

/// `receipt` records what the EVM reported of an executed transaction. That of a deposit has the
/// nonce of the depositor, and the first version from Canyon on.
pub open spec fn records_executed(receipt: OpReceipt, executed: OpExecutionResult) -> bool {
    &&& receipt is Legacy <==> executed.tx_type is Legacy
    &&& receipt is Eip2930 <==> executed.tx_type is Eip2930
    &&& receipt is Eip1559 <==> executed.tx_type is Eip1559
    &&& receipt is Eip7702 <==> executed.tx_type is Eip7702
    &&& receipt is Deposit <==> executed.tx_type is Deposit
    &&& inner(receipt).status <==> executed.result is Success
    &&& inner(receipt).cumulative_gas_used == executed.cumulative_gas_used
    &&& has_logs_of(inner(receipt).logs@, executed.result)
    &&& receipt matches OpReceipt::Deposit(deposit) ==> {
        &&& deposit.deposit_nonce == executed.nonce
        &&& deposit.deposit_receipt_version is Some <==> executed.canyon_active
        &&& deposit.deposit_receipt_version matches Some(version) ==> version == 1
    }
}

/// A receipt with the view of that of an executed transaction records it.
pub(crate) proof fn lemma_records_executed(receipt: OpReceipt, executed: OpExecutionResult)
    requires
        receipt@ == executed.spec_receipt(),
    ensures
        records_executed(receipt, executed),
{
    lemma_has_logs(inner(receipt).logs@, executed.result);
}

/// The receipt of an executed transaction records what the EVM reported. That of a deposit has the
/// nonce of the depositor, and the first version from Canyon on.
pub proof fn law_receipt_records_result(executed: OpExecutionResult, receipt: OpReceipt)
    requires
        call_ensures(OpExecutionResult::receipt, (executed,), receipt),
    ensures
        records_executed(receipt, executed),
{
    lemma_records_executed(receipt, executed);
}

/// The hardfork is in force at this time.
pub open spec fn in_force(activation: Option<u64>, timestamp: u64) -> bool {
    activation is Some && activation->0 <= timestamp
}

/// The nonce of an account is needed exactly for deposits, once Regolith is in force: that of the
/// sender.
pub proof fn law_nonce_is_needed_for_deposits(
    executor: OpTxExecutor,
    tx: Recovered,
    needed: Option<Address>,
)
    requires
        call_ensures(OpTxExecutor::depositor, (&executor, &tx), needed),
    ensures
        needed is Some <==> tx.tx.tx_type is Deposit && in_force(
            executor.chain_spec.regolith,
            executor.payload_timestamp,
        ),
        needed matches Some(address) ==> address == tx.signer,
{
}

/// An executor adds the gas of a transaction that was executed to its count, and hands on the
/// result as it is, with the new count. A transaction that was not executed is not counted, and the
/// error is handed on.
pub proof fn law_executor_counts_each(
    executor: &mut OpTxExecutor,
    tx: Recovered,
    nonce: Option<u64>,
    outcome: Result<ExecutionResult, EVMError>,
    r: Result<OpExecutionResult, OpTxExecutorError>,
    gas: u64,
)
    requires
        call_ensures(OpTxExecutor::transact, (executor, &tx, nonce, outcome), r),
        tx.tx.tx_type !is Eip4844,
        outcome matches Ok(result) ==> used(result, gas) && old(executor).cumulative_gas_used + gas
            <= u64::MAX,
    ensures
        final(executor).chain_spec == old(executor).chain_spec,
        final(executor).payload_timestamp == old(executor).payload_timestamp,
        match outcome {
            Ok(result) => {
                &&& final(executor).cumulative_gas_used == old(executor).cumulative_gas_used + gas
                &&& r matches Ok(executed)
                &&& executed.result == result
                &&& executed.nonce == nonce
                &&& executed.cumulative_gas_used == final(executor).cumulative_gas_used
                &&& executed.canyon_active <==> in_force(
                    old(executor).chain_spec.canyon,
                    old(executor).payload_timestamp,
                )
                &&& executed.tx_type is Legacy <==> tx.tx.tx_type is Legacy
                &&& executed.tx_type is Eip2930 <==> tx.tx.tx_type is Eip2930
                &&& executed.tx_type is Eip1559 <==> tx.tx.tx_type is Eip1559
                &&& executed.tx_type is Eip7702 <==> tx.tx.tx_type is Eip7702
                &&& executed.tx_type is Deposit <==> tx.tx.tx_type is Deposit
            },
            Err(err) => {
                &&& final(executor).cumulative_gas_used == old(executor).cumulative_gas_used
                &&& r == Err::<OpExecutionResult, OpTxExecutorError>(
                    OpTxExecutorError::EVMError(err),
                )
            },
        },
{
}

/// The gas of some outcomes is that of the first part and that of the rest; that of a single one is
/// what the EVM reported, or nothing where the transaction was not executed.
pub proof fn law_gas_of_outcomes(
    first: Seq<Result<ExecutionResult, EVMError>>,
    rest: Seq<Result<ExecutionResult, EVMError>>,
    result: ExecutionResult,
    gas: u64,
    err: EVMError,
)
    requires
        used(result, gas),
    ensures
        gas_of(first + rest) == gas_of(first) + gas_of(rest),
        gas_of(seq![Ok(result)]) == gas,
        gas_of(seq![Err(err)]) == 0,
    decreases rest.len(),
{
    let one = seq![Ok::<ExecutionResult, EVMError>(result)];
    let none = seq![Err::<ExecutionResult, EVMError>(err)];
    assert(one.drop_last() =~= Seq::empty());
    assert(none.drop_last() =~= Seq::empty());
    assert(gas_of(Seq::empty()) == 0);
    if rest.len() == 0 {
        assert(first + rest =~= first);
    } else {
        law_gas_of_outcomes(first, rest.drop_last(), result, gas, err);
        assert((first + rest).drop_last() =~= first + rest.drop_last());
    }
}

/// Where `more` has all of `some` and one item besides, at the end.
pub open spec fn appends<T>(some: Seq<T>, more: Seq<T>) -> bool {
    &&& more.len() == some.len() + 1
    &&& forall|i: int| 0 <= i < some.len() ==> more[i] == #[trigger] some[i]
}

/// A block that takes up an executed transaction has it at its end, with its sender and its
/// receipt, and keeps all that it had. Its gas grows by what the transaction used, and its fees by
/// the tip for each unit of that gas.
pub proof fn law_block_takes_up_transaction(
    info: &mut ExecutionInfo,
    tx: Recovered,
    executed: OpExecutionResult,
    base_fee: u64,
    gas: u64,
    tip: int,
)
    requires
        call_ensures(ExecutionInfo::add, (info, tx, executed, base_fee), ()),
        base_fee <= tx.tx.max_fee_per_gas,
        used(executed.result, gas),
        old(info).cumulative_gas_used + gas <= u64::MAX,
        is_tip(tx.tx@, base_fee, tip),
        old(info).total_fees@ + tip * gas < modulus(),
    ensures
        appends(old(info)@.transactions, final(info)@.transactions),
        final(info)@.transactions.last() == tx.tx@,
        appends(old(info).executed_senders@, final(info).executed_senders@),
        final(info).executed_senders@.last() == tx.signer,
        appends(old(info)@.receipts, final(info)@.receipts),
        records_executed(final(info).receipts@.last(), executed),
        final(info).cumulative_gas_used == old(info).cumulative_gas_used + gas,
        final(info).total_fees@ == old(info).total_fees@ + tip * gas,
{
    assert(tx.tx@.effective_tip_per_gas(base_fee)->0 == tip);
    assert(final(info)@.receipts.last() == final(info).receipts@.last()@);
    lemma_records_executed(final(info).receipts@.last(), executed);
    assert(0 <= tip * gas) by (nonlinear_arith)
        requires
            0 <= tip,
            0 <= gas,
    ;
}

/// A transaction that did not come from the pool is taken up alike, but for its fee: the fees stay
/// as they were.
pub proof fn law_block_takes_up_untracked(
    info: &mut ExecutionInfo,
    tx: Recovered,
    executed: OpExecutionResult,
    gas: u64,
)
    requires
        call_ensures(ExecutionInfo::add_untracked, (info, tx, executed), ()),
        used(executed.result, gas),
        old(info).cumulative_gas_used + gas <= u64::MAX,
    ensures
        appends(old(info)@.transactions, final(info)@.transactions),
        final(info)@.transactions.last() == tx.tx@,
        appends(old(info).executed_senders@, final(info).executed_senders@),
        final(info).executed_senders@.last() == tx.signer,
        appends(old(info)@.receipts, final(info)@.receipts),
        records_executed(final(info).receipts@.last(), executed),
        final(info).cumulative_gas_used == old(info).cumulative_gas_used + gas,
        final(info).total_fees@ == old(info).total_fees@,
{
    assert(final(info)@.receipts.last() == final(info).receipts@.last()@);
    lemma_records_executed(final(info).receipts@.last(), executed);
}

/// Nothing is taken up at first.
pub proof fn law_block_begins_empty(
    capacity: usize,
    info: ExecutionInfo,
    batch_info: payload_builder::ExecutionInfo,
)
    requires
        call_ensures(ExecutionInfo::with_capacity, (capacity,), info),
        call_ensures(payload_builder::ExecutionInfo::with_capacity, (capacity,), batch_info),
    ensures
        info.executed_transactions@.len() == 0,
        info.executed_senders@.len() == 0,
        info.receipts@.len() == 0,
        info.cumulative_gas_used == 0,
        info.total_fees@ == 0,
        batch_info.executed_transactions@.len() == 0,
        batch_info.executed_senders@.len() == 0,
        batch_info.receipts@.len() == 0,
        batch_info.cumulative_gas_used == 0,
        batch_info.total_fees@ == 0,
{
    assert(tx_views(info.executed_transactions@).len() == info.executed_transactions@.len());
    assert(receipt_views(info.receipts@).len() == info.receipts@.len());
    assert(tx_views(batch_info.executed_transactions@).len()
        == batch_info.executed_transactions@.len());
    assert(receipt_views(batch_info.receipts@).len() == batch_info.receipts@.len());
}

/// What is settled of an executed transaction is that transaction, with its sender; a receipt that
/// records what the EVM reported and counts its gas on top of that before; the gas that it used;
/// and the tip over the base fee of the executor for each unit of that gas. A transaction that was
/// not executed changes nothing, and the error is handed on.
pub proof fn law_executor_settles(
    executor: &mut Executor,
    tx: Recovered,
    account: Option<u64>,
    outcome: Result<ExecutionResult, EVMError>,
    r: Result<ExecutedTx, EVMError>,
    taken: TxExecutionInfo,
    gas: u64,
    tip: int,
)
    requires
        call_ensures(Executor::execute, (executor, tx, account, outcome), r),
        outcome matches Ok(result) ==> {
            &&& used(result, gas)
            &&& old(executor).total_gas_used + gas <= u64::MAX
            &&& tx.tx.tx_type !is Eip4844
            &&& old(executor).base_fee <= tx.tx.max_fee_per_gas
            &&& is_tip(tx.tx@, old(executor).base_fee, tip)
        },
        r matches Ok(executed) ==> call_ensures(ExecutedTx::info, (executed,), taken),
    ensures
        final(executor).base_fee == old(executor).base_fee,
        match outcome {
            Ok(result) => {
                &&& r is Ok
                &&& final(executor).total_gas_used == old(executor).total_gas_used + gas
                &&& taken.tx@ == tx.tx@
                &&& taken.sender == tx.signer
                &&& taken.gas_used == gas
                &&& taken.fee@ == tip * gas
                &&& records(
                    taken.receipt,
                    tx.tx.tx_type,
                    result,
                    final(executor).total_gas_used as int,
                    account,
                    None,
                )
            },
            Err(err) => {
                &&& r == Err::<ExecutedTx, EVMError>(err)
                &&& final(executor).total_gas_used == old(executor).total_gas_used
            },
        },
{
    if let Ok(result) = outcome {
        let executed = r->Ok_0;
        assert(taken@ == executed@.info());
        lemma_has_logs(inner(taken.receipt).logs@, result);
        assert(tx.tx@.effective_tip_per_gas(old(executor).base_fee)->0 == tip);
        assert(0 <= tip * gas) by (nonlinear_arith)
            requires
                0 <= tip,
                0 <= gas,
        ;
    }
}

/// An executed transaction tells what the EVM reported of it.
pub proof fn law_executed_transaction_tells(
    executed: ExecutedTx,
    gas: u64,
    success: bool,
    tx: &Recovered,
    taken: TxExecutionInfo,
)
    requires
        call_ensures(ExecutedTx::gas_used, (&executed,), gas),
        call_ensures(ExecutedTx::is_success, (&executed,), success),
        call_ensures(ExecutedTx::tx, (&executed,), tx),
        call_ensures(ExecutedTx::info, (executed,), taken),
    ensures
        taken.gas_used == gas,
        inner(taken.receipt).status == success,
        taken.tx@ == tx.tx@,
        taken.sender == tx.signer,
{
    assert(taken@ == executed@.info());
}

/// An executor begins its count at nothing, and a deposit needs the nonce of its sender.
pub proof fn law_executor_begins(
    base_fee: u64,
    executor: Executor,
    tx: Recovered,
    needed: Option<Address>,
)
    requires
        call_ensures(Executor::new, (base_fee,), executor),
        call_ensures(Executor::depositor, (&tx,), needed),
    ensures
        executor.total_gas_used == 0,
        executor.base_fee == base_fee,
        needed is Some <==> tx.tx.tx_type is Deposit,
        needed matches Some(address) ==> address == tx.signer,
{
}

/// The books of batches take up a transaction at their end, with all that was settled of it, and
/// keep what they had.
pub proof fn law_batch_takes_up_transaction(
    info: &mut payload_builder::ExecutionInfo,
    taken: TxExecutionInfo,
)
    requires
        call_ensures(payload_builder::ExecutionInfo::add, (info, taken), ()),
        old(info).cumulative_gas_used + taken.gas_used <= u64::MAX,
        old(info).total_fees@ + taken.fee@ < modulus(),
    ensures
        appends(old(info)@.transactions, final(info)@.transactions),
        final(info)@.transactions.last() == taken.tx@,
        appends(old(info).executed_senders@, final(info).executed_senders@),
        final(info).executed_senders@.last() == taken.sender,
        appends(old(info)@.receipts, final(info)@.receipts),
        final(info)@.receipts.last() == taken.receipt@,
        final(info).cumulative_gas_used == old(info).cumulative_gas_used + taken.gas_used,
        final(info).total_fees@ == old(info).total_fees@ + taken.fee@,
{
}

} // verus!
