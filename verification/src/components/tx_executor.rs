//! Execution of single transactions: what the EVM reports, and what the block makes of it.

use vstd::prelude::*;

use crate::chain::{active_at, ChainSpec};
use crate::errors::{EVMError, OpTxExecutorError};
use crate::primitives::{
    log_views, op_tx_type_of, Address, Log, LogView, OpReceipt, OpReceiptView, OpTxType, Receipt,
    Recovered, RecoveredView,
};

verus! {

/// What the EVM reports of a transaction that it executed.
#[derive(Debug, PartialEq, Eq)]
pub enum ExecutionResult {
    Success { gas_used: u64, logs: Vec<Log> },
    Revert { gas_used: u64 },
    Halt { gas_used: u64 },
}

impl ExecutionResult {
    /// Gas that the transaction used.
    pub open spec fn spec_gas_used(self) -> u64 {
        match self {
            ExecutionResult::Success { gas_used, .. } => gas_used,
            ExecutionResult::Revert { gas_used } => gas_used,
            ExecutionResult::Halt { gas_used } => gas_used,
        }
    }

    /// The logs that stay: those of a successful transaction, none of any other.
    pub open spec fn spec_logs(self) -> Seq<LogView> {
        match self {
            ExecutionResult::Success { logs, .. } => log_views(logs@),
            _ => Seq::empty(),
        }
    }

    /// Gas that the transaction used.
    pub fn gas_used(&self) -> (r: u64)
        ensures
            r == self.spec_gas_used(),
    {
        match self {
            ExecutionResult::Success { gas_used, .. } => *gas_used,
            ExecutionResult::Revert { gas_used } => *gas_used,
            ExecutionResult::Halt { gas_used } => *gas_used,
        }
    }

    /// Whether the transaction succeeded.
    pub fn is_success(&self) -> (r: bool)
        ensures
            r == (self is Success),
    {
        matches!(self, ExecutionResult::Success { .. })
    }

    /// The logs that stay: those of a successful transaction, none of any other.
    pub fn into_logs(self) -> (r: Vec<Log>)
        ensures
            log_views(r@) == self.spec_logs(),
    {
        match self {
            ExecutionResult::Success { logs, .. } => logs,
            _ => {
                let none: Vec<Log> = Vec::new();
                assert(log_views(none@) =~= Seq::empty());
                none
            },
        }
    }
}

/// Keeps the books of the transactions that are executed one after the other.
#[derive(Clone, Copy, Debug, PartialEq, Eq)]
pub struct OpTxExecutor {
    pub chain_spec: ChainSpec,
    /// Gas used by all transactions that this executor has seen.
    pub cumulative_gas_used: u64,
    pub payload_timestamp: u64,
}

/// A transaction that was executed, with what its receipt depends on.
#[derive(Debug, PartialEq, Eq)]
pub struct OpExecutionResult {
    /// The nonce that the sender of a deposit had; `None` for any other transaction.
    pub nonce: Option<u64>,
    pub cumulative_gas_used: u64,
    pub tx_type: OpTxType,
    pub canyon_active: bool,
    pub result: ExecutionResult,
}

impl OpTxExecutor {
    /// An executor that has seen no transaction yet.
    pub fn new(chain_spec: ChainSpec, payload_timestamp: u64) -> (r: OpTxExecutor)
        ensures
            r == (OpTxExecutor { chain_spec, cumulative_gas_used: 0, payload_timestamp }),
    {
        OpTxExecutor { chain_spec, cumulative_gas_used: 0, payload_timestamp }
    }

    /// Whether Regolith is in force for the payload.
    pub fn is_regolith_active(&self) -> (r: bool)
        ensures
            r == active_at(self.chain_spec.regolith, self.payload_timestamp),
    {
        self.chain_spec.is_regolith_active_at_timestamp(self.payload_timestamp)
    }

    /// Whether Canyon is in force for the payload.
    pub fn is_canyon_active(&self) -> (r: bool)
        ensures
            r == active_at(self.chain_spec.canyon, self.payload_timestamp),
    {
        self.chain_spec.is_canyon_active_at_timestamp(self.payload_timestamp)
    }

    /// The account whose nonce must be read before `tx` is executed: the sender of a deposit,
    /// once Regolith is in force.
    pub open spec fn spec_depositor(self, tx: RecoveredView) -> Option<Address> {
        if active_at(self.chain_spec.regolith, self.payload_timestamp) && tx.tx.tx_type is Deposit {
            Some(tx.signer)
        } else {
            None
        }
    }

    /// The account whose nonce must be read before `tx` is executed: the sender of a deposit,
    /// once Regolith is in force. Deposit nonces were not introduced before, and regular
    /// transactions do not have any.
    pub fn depositor(&self, tx: &Recovered) -> (r: Option<Address>)
        ensures
            r == self.spec_depositor(tx@),
    {
        if self.is_regolith_active() && tx.tx.is_deposit() {
            Some(tx.signer)
        } else {
            None
        }
    }

    /// What comes of a transaction that the EVM executed with the given result.
    pub open spec fn spec_executed(
        self,
        tx: RecoveredView,
        depositor_nonce: Option<u64>,
        result: ExecutionResult,
    ) -> OpExecutionResult {
        OpExecutionResult {
            nonce: depositor_nonce,
            cumulative_gas_used: (self.cumulative_gas_used + result.spec_gas_used()) as u64,
            tx_type: op_tx_type_of(tx.tx.tx_type),
            canyon_active: active_at(self.chain_spec.canyon, self.payload_timestamp),
            result,
        }
    }

    /// The executor after the EVM was done with a transaction: it counts the gas of one that was
    /// executed, and nothing for one that was not.
    pub open spec fn after(self, outcome: Result<ExecutionResult, EVMError>) -> OpTxExecutor {
        match outcome {
            Ok(result) => OpTxExecutor {
                cumulative_gas_used: (self.cumulative_gas_used + result.spec_gas_used()) as u64,
                ..self
            },
            Err(_) => self,
        }
    }

    /// The executor after the EVM was done with one transaction after the other.
    pub open spec fn after_all(
        self,
        outcomes: Seq<Result<ExecutionResult, EVMError>>,
    ) -> OpTxExecutor
        decreases outcomes.len(),
    {
        if outcomes.len() == 0 {
            self
        } else {
            self.after_all(outcomes.drop_last()).after(outcomes.last())
        }
    }

    /// Takes up what the EVM made of `tx`, given the nonce of its depositor where one had to be
    /// read. An executed transaction adds its gas to that of the executor; one that was not
    /// leaves the executor as it was.
    pub fn transact(
        &mut self,
        tx: &Recovered,
        depositor_nonce: Option<u64>,
        outcome: Result<ExecutionResult, EVMError>,
    ) -> (r: Result<OpExecutionResult, OpTxExecutorError>)
        requires
            tx.tx.tx_type !is Eip4844,
            depositor_nonce is Some <==> old(self).spec_depositor(tx@) is Some,
            outcome matches Ok(result) ==> old(self).cumulative_gas_used + result.spec_gas_used()
                <= u64::MAX,
        ensures
            r == match outcome {
                Ok(result) => Ok::<OpExecutionResult, OpTxExecutorError>(
                    old(self).spec_executed(tx@, depositor_nonce, result),
                ),
                Err(err) => Err(OpTxExecutorError::EVMError(err)),
            },
            *final(self) == old(self).after(outcome),
    {
        match outcome {
            Ok(result) => {
                self.cumulative_gas_used = self.cumulative_gas_used + result.gas_used();
                Ok(
                    OpExecutionResult {
                        nonce: depositor_nonce,
                        cumulative_gas_used: self.cumulative_gas_used,
                        tx_type: tx.tx.op_tx_type(),
                        canyon_active: self.is_canyon_active(),
                        result,
                    },
                )
            },
            Err(err) => Err(OpTxExecutorError::EVMError(err)),
        }
    }
}

impl OpExecutionResult {
    /// Gas that the transaction used.
    pub fn gas_used(&self) -> (r: u64)
        ensures
            r == self.result.spec_gas_used(),
    {
        self.result.gas_used()
    }

    /// Whether the transaction succeeded.
    pub fn is_success(&self) -> (r: bool)
        ensures
            r == (self.result is Success),
    {
        self.result.is_success()
    }

    /// What the receipt holds. That of a deposit has the nonce of the depositor and, from Canyon
    /// on, version 1.
    pub open spec fn spec_receipt(self) -> OpReceiptView {
        let deposit = self.tx_type is Deposit;
        OpReceiptView {
            tx_type: self.tx_type,
            status: self.result is Success,
            cumulative_gas_used: self.cumulative_gas_used,
            logs: self.result.spec_logs(),
            deposit_nonce: if deposit { self.nonce } else { None },
            deposit_receipt_version: if deposit && self.canyon_active { Some(1u64) } else { None },
        }
    }

    /// The receipt of the transaction.
    pub fn receipt(self) -> (r: OpReceipt)
        ensures
            r@ == self.spec_receipt(),
    {
        let receipt = Receipt {
            status: self.result.is_success(),
            cumulative_gas_used: self.cumulative_gas_used,
            logs: self.result.into_logs(),
        };
        let version = if self.canyon_active {
            Some(1u64)
        } else {
            None
        };
        OpReceipt::new(self.tx_type, receipt, self.nonce, version)
    }
}

/// The gas that the transactions used that were executed.
pub open spec fn gas_of(outcomes: Seq<Result<ExecutionResult, EVMError>>) -> int
    decreases outcomes.len(),
{
    if outcomes.len() == 0 {
        0
    } else {
        gas_of(outcomes.drop_last()) + match outcomes.last() {
            Ok(result) => result.spec_gas_used() as int,
            Err(_) => 0,
        }
    }
}

/// However many transactions an executor has seen, it has counted the gas of those that were
/// executed, and of no other; and the receipt of the next one counts its gas on top of theirs.
pub proof fn law_executor_counts_gas(
    executor: OpTxExecutor,
    outcomes: Seq<Result<ExecutionResult, EVMError>>,
    tx: RecoveredView,
    depositor_nonce: Option<u64>,
    result: ExecutionResult,
)
    requires
        executor.cumulative_gas_used + gas_of(outcomes) + result.spec_gas_used() <= u64::MAX,
    ensures
        executor.after_all(outcomes).cumulative_gas_used == executor.cumulative_gas_used + gas_of(
            outcomes,
        ),
        executor.after_all(outcomes).spec_executed(
            tx,
            depositor_nonce,
            result,
        ).spec_receipt().cumulative_gas_used == executor.cumulative_gas_used + gas_of(outcomes)
            + result.spec_gas_used(),
    decreases outcomes.len(),
{
    if outcomes.len() > 0 {
        law_executor_counts_gas(executor, outcomes.drop_last(), tx, depositor_nonce, result);
    }
}

/// A nonce is recorded for deposits only: the executor reads no account for any other
/// transaction.
pub proof fn law_nonce_only_for_deposits(
    executor: OpTxExecutor,
    tx: RecoveredView,
    depositor_nonce: Option<u64>,
    result: ExecutionResult,
)
    requires
        tx.tx.tx_type !is Eip4844,
        depositor_nonce is Some <==> executor.spec_depositor(tx) is Some,
    ensures
        executor.spec_executed(tx, depositor_nonce, result).nonce is Some ==> executor.spec_executed(
            tx,
            depositor_nonce,
            result,
        ).tx_type is Deposit,
        executor.spec_executed(tx, depositor_nonce, result).spec_receipt().deposit_nonce
            == depositor_nonce,
{
}

} // verus!
