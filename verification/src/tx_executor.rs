//! Execution of single transactions whose effect on the block is settled by the executor itself:
//! the receipt, and the fee over the base fee that the executor was made with.

use vstd::prelude::*;

use crate::components::tx_executor::{gas_of, ExecutionResult};
use crate::errors::EVMError;
use crate::primitives::{
    op_tx_type_of, Address, OpReceipt, OpReceiptView, OpTransactionSigned, Receipt,
    Recovered, RecoveredView, TxView,
};
use crate::u256::{lemma_fee_fits, U256};

verus! {

/// Keeps the books of the transactions that are executed one after the other.
#[derive(Clone, Copy, Debug, PartialEq, Eq)]
pub struct Executor {
    /// Gas used by all transactions that this executor has seen.
    pub total_gas_used: u64,
    /// The base fee that tips are reckoned over.
    pub base_fee: u64,
}

/// A transaction that was executed. Its sender pays at least the base fee.
#[derive(Debug, PartialEq, Eq)]
pub struct ExecutedTx {
    cumulative_gas_used: u64,
    base_fee: u64,
    tx: Recovered,
    /// The nonce of the account that a deposit comes from.
    account: Option<u64>,
    result: ExecutionResult,
}

/// What an [`ExecutedTx`] holds.
pub ghost struct ExecutedView {
    pub cumulative_gas_used: u64,
    pub base_fee: u64,
    pub tx: RecoveredView,
    pub account: Option<u64>,
    pub result: ExecutionResult,
}

impl View for ExecutedTx {
    type V = ExecutedView;

    closed spec fn view(&self) -> ExecutedView {
        ExecutedView {
            cumulative_gas_used: self.cumulative_gas_used,
            base_fee: self.base_fee,
            tx: self.tx@,
            account: self.account,
            result: self.result,
        }
    }
}

/// What the block takes up of an executed transaction.
#[derive(Debug, PartialEq, Eq)]
pub struct TxExecutionInfo {
    /// The transaction that was executed.
    pub tx: OpTransactionSigned,
    /// The sender of the transaction.
    pub sender: Address,
    /// The receipt of the transaction.
    pub receipt: OpReceipt,
    /// The gas used by the transaction.
    pub gas_used: u64,
    /// The fee paid by the transaction.
    pub fee: U256,
}

/// What a [`TxExecutionInfo`] holds.
pub ghost struct TxInfoView {
    pub tx: TxView,
    pub sender: Address,
    pub receipt: OpReceiptView,
    pub gas_used: u64,
    pub fee: nat,
}

impl View for TxExecutionInfo {
    type V = TxInfoView;

    open spec fn view(&self) -> TxInfoView {
        TxInfoView {
            tx: self.tx@,
            sender: self.sender,
            receipt: self.receipt@,
            gas_used: self.gas_used,
            fee: self.fee@,
        }
    }
}

impl ExecutedView {
    /// What the block takes up: the receipt of a deposit has the nonce of the depositor and no
    /// version; the fee is the tip over the base fee for each unit of gas.
    pub open spec fn info(self) -> TxInfoView {
        let tx_type = op_tx_type_of(self.tx.tx.tx_type);
        let gas_used = self.result.spec_gas_used();
        TxInfoView {
            tx: self.tx.tx,
            sender: self.tx.signer,
            receipt: OpReceiptView {
                tx_type,
                status: self.result is Success,
                cumulative_gas_used: self.cumulative_gas_used,
                logs: self.result.spec_logs(),
                deposit_nonce: if tx_type is Deposit { self.account } else { None },
                deposit_receipt_version: None,
            },
            gas_used,
            fee: (self.tx.tx.effective_tip_per_gas(self.base_fee)->0 * gas_used) as nat,
        }
    }
}

impl Executor {
    /// An executor that has seen no transaction yet.
    pub fn new(base_fee: u64) -> (r: Executor)
        ensures
            r == (Executor { total_gas_used: 0, base_fee }),
    {
        Executor { total_gas_used: 0, base_fee }
    }

    /// The account whose nonce must be read before `tx` is executed: the sender of a deposit.
    pub open spec fn spec_depositor(tx: RecoveredView) -> Option<Address> {
        if tx.tx.tx_type is Deposit {
            Some(tx.signer)
        } else {
            None
        }
    }

    /// The account whose nonce must be read before `tx` is executed: the sender of a deposit.
    pub fn depositor(tx: &Recovered) -> (r: Option<Address>)
        ensures
            r == Executor::spec_depositor(tx@),
    {
        if tx.tx.is_deposit() {
            Some(tx.signer)
        } else {
            None
        }
    }

    /// What comes of a transaction that the EVM executed with the given result.
    pub open spec fn executed(
        self,
        tx: RecoveredView,
        account: Option<u64>,
        result: ExecutionResult,
    ) -> ExecutedView {
        ExecutedView {
            cumulative_gas_used: (self.total_gas_used + result.spec_gas_used()) as u64,
            base_fee: self.base_fee,
            tx,
            account,
            result,
        }
    }

    /// The executor after the EVM was done with a transaction: it counts the gas of one that was
    /// executed, and nothing for one that was not.
    pub open spec fn after(self, outcome: Result<ExecutionResult, EVMError>) -> Executor {
        match outcome {
            Ok(result) => Executor {
                total_gas_used: (self.total_gas_used + result.spec_gas_used()) as u64,
                ..self
            },
            Err(_) => self,
        }
    }

    /// The executor after the EVM was done with one transaction after the other.
    pub open spec fn after_all(self, outcomes: Seq<Result<ExecutionResult, EVMError>>) -> Executor
        decreases outcomes.len(),
    {
        if outcomes.len() == 0 {
            self
        } else {
            self.after_all(outcomes.drop_last()).after(outcomes.last())
        }
    }

    /// Takes up what the EVM made of `tx`, given the nonce of its depositor where one had to be
    /// read. An executed transaction adds its gas to that of the executor; one that was not
    /// leaves the executor as it was.
    pub fn execute(
        &mut self,
        tx: Recovered,
        account: Option<u64>,
        outcome: Result<ExecutionResult, EVMError>,
    ) -> (r: Result<ExecutedTx, EVMError>)
        requires
            account is Some <==> Executor::spec_depositor(tx@) is Some,
            outcome matches Ok(result) ==> {
                &&& old(self).total_gas_used + result.spec_gas_used() <= u64::MAX
                &&& tx.tx.tx_type !is Eip4844
                &&& tx@.tx.effective_tip_per_gas(old(self).base_fee) is Some
            },
        ensures
            match outcome {
                Ok(result) => r matches Ok(executed) && executed@ == old(self).executed(
                    tx@,
                    account,
                    result,
                ),
                Err(err) => r == Err::<ExecutedTx, EVMError>(err),
            },
            *final(self) == old(self).after(outcome),
    {
        match outcome {
            Ok(result) => {
                self.total_gas_used = self.total_gas_used + result.gas_used();
                Ok(
                    ExecutedTx {
                        cumulative_gas_used: self.total_gas_used,
                        base_fee: self.base_fee,
                        tx,
                        account,
                        result,
                    },
                )
            },
            Err(err) => Err(err),
        }
    }
}

impl ExecutedTx {
    /// The sender pays at least the base fee, and the transaction is no blob transaction.
    #[verifier::type_invariant]
    closed spec fn is_valid(&self) -> bool {
        &&& self.tx.tx.tx_type !is Eip4844
        &&& self.tx@.tx.effective_tip_per_gas(self.base_fee) is Some
    }

    /// Gas that the transaction used.
    pub fn gas_used(&self) -> (r: u64)
        ensures
            r == self@.result.spec_gas_used(),
    {
        self.result.gas_used()
    }

    /// Whether the transaction succeeded.
    pub fn is_success(&self) -> (r: bool)
        ensures
            r == (self@.result is Success),
    {
        self.result.is_success()
    }

    /// The transaction.
    pub fn tx(&self) -> (r: &Recovered)
        ensures
            r@ == self@.tx,
    {
        &self.tx
    }

    /// What the block takes up of the transaction.
    pub fn info(self) -> (r: TxExecutionInfo)
        ensures
            r@ == self@.info(),
    {
        proof {
            use_type_invariant(&self);
        }
        let gas_used: u64 = self.gas_used();
        let status: bool = self.is_success();
        let tx_type = self.tx.tx.op_tx_type();
        let fee: u128 = self.tx.tx.effective_tip_per_gas(self.base_fee).unwrap();
        proof {
            lemma_fee_fits(fee, gas_used);
        }
        let receipt = Receipt {
            status,
            cumulative_gas_used: self.cumulative_gas_used,
            logs: self.result.into_logs(),
        };
        TxExecutionInfo {
            sender: self.tx.signer,
            tx: self.tx.tx,
            receipt: OpReceipt::new(tx_type, receipt, self.account, None),
            gas_used,
            fee: U256::from_u128(fee).wrapping_mul(U256::from_u64(gas_used)),
        }
    }
}

impl vstd::std_specs::convert::FromSpecImpl<ExecutedTx> for TxExecutionInfo {
    open spec fn obeys_from_spec() -> bool {
        false
    }

    open spec fn from_spec(executed: ExecutedTx) -> TxExecutionInfo {
        arbitrary()
    }
}

impl From<ExecutedTx> for TxExecutionInfo {
    fn from(executed: ExecutedTx) -> (r: TxExecutionInfo)
        ensures
            r@ == executed@.info(),
    {
        executed.info()
    }
}

/// However many transactions an executor has seen, it has counted the gas of those that were
/// executed, and of no other. What the block takes up of the next one is that transaction itself,
/// with a receipt that counts its gas on top of theirs and, for a deposit, has the nonce of the
/// depositor.
pub proof fn law_receipts_count_gas(
    executor: Executor,
    outcomes: Seq<Result<ExecutionResult, EVMError>>,
    tx: RecoveredView,
    account: Option<u64>,
    result: ExecutionResult,
)
    requires
        executor.total_gas_used + gas_of(outcomes) + result.spec_gas_used() <= u64::MAX,
        tx.tx.tx_type !is Eip4844,
    ensures
        executor.after_all(outcomes).total_gas_used == executor.total_gas_used + gas_of(outcomes),
        ({
            let executed = executor.after_all(outcomes).executed(tx, account, result);
            &&& executed.tx == tx
            &&& executed.info().tx == tx.tx
            &&& executed.info().receipt.cumulative_gas_used == executor.total_gas_used + gas_of(
                outcomes,
            ) + result.spec_gas_used()
            &&& tx.tx.tx_type is Deposit ==> executed.info().receipt.deposit_nonce == account
        }),
    decreases outcomes.len(),
{
    if outcomes.len() > 0 {
        law_receipts_count_gas(executor, outcomes.drop_last(), tx, account, result);
    }
}

} // verus!
