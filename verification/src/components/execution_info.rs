//! The transactions that a block has taken up so far.

use vstd::prelude::*;

use crate::components::tx_executor::OpExecutionResult;
use crate::primitives::{
    contains_transaction, receipt_views, tx_views, Address, OpReceipt, OpReceiptView,
    OpTransactionSigned, Recovered, RecoveredView, TxView,
};
use crate::u256::{lemma_fee_fits, modulus, U256};

verus! {

/// This acts as the container for executed transactions and its byproducts (receipts, gas used).
#[derive(Debug, PartialEq, Eq)]
pub struct ExecutionInfo {
    /// All executed transactions (unrecovered).
    pub executed_transactions: Vec<OpTransactionSigned>,
    /// The recovered senders for the executed transactions.
    pub executed_senders: Vec<Address>,
    /// The transaction receipts.
    pub receipts: Vec<OpReceipt>,
    /// All gas used so far.
    pub cumulative_gas_used: u64,
    /// Tracks fees from executed mempool transactions.
    pub total_fees: U256,
}

/// What an [`ExecutionInfo`] holds.
pub ghost struct InfoView {
    pub transactions: Seq<TxView>,
    pub senders: Seq<Address>,
    pub receipts: Seq<OpReceiptView>,
    pub cumulative_gas_used: u64,
    pub total_fees: nat,
}

impl View for ExecutionInfo {
    type V = InfoView;

    open spec fn view(&self) -> InfoView {
        InfoView {
            transactions: tx_views(self.executed_transactions@),
            senders: self.executed_senders@,
            receipts: receipt_views(self.receipts@),
            cumulative_gas_used: self.cumulative_gas_used,
            total_fees: self.total_fees@,
        }
    }
}

impl InfoView {
    /// Nothing executed.
    pub open spec fn empty() -> InfoView {
        InfoView {
            transactions: Seq::empty(),
            senders: Seq::empty(),
            receipts: Seq::empty(),
            cumulative_gas_used: 0,
            total_fees: 0,
        }
    }

    /// Each executed transaction has one sender and one receipt.
    pub open spec fn wf(self) -> bool {
        &&& self.senders.len() == self.transactions.len()
        &&& self.receipts.len() == self.transactions.len()
    }

    /// What is held after one more transaction with the given receipt, gas and fee.
    pub open spec fn push(
        self,
        tx: RecoveredView,
        receipt: OpReceiptView,
        gas_used: u64,
        fee: nat,
    ) -> InfoView {
        InfoView {
            transactions: self.transactions.push(tx.tx),
            senders: self.senders.push(tx.signer),
            receipts: self.receipts.push(receipt),
            cumulative_gas_used: (self.cumulative_gas_used + gas_used) as u64,
            total_fees: (self.total_fees + fee) % modulus(),
        }
    }

    /// What is held after `tx` was executed with `result` and paid its tip over `base_fee`.
    pub open spec fn add(
        self,
        tx: RecoveredView,
        result: OpExecutionResult,
        base_fee: u64,
    ) -> InfoView {
        let gas_used = result.result.spec_gas_used();
        let tip = tx.tx.effective_tip_per_gas(base_fee)->0;
        self.push(tx, result.spec_receipt(), gas_used, (tip * gas_used) as nat)
    }
}

/// The sum of the gas that some transactions used.
pub open spec fn total_gas(gas: Seq<u64>) -> int
    decreases gas.len(),
{
    if gas.len() == 0 {
        0
    } else {
        total_gas(gas.drop_last()) + gas.last()
    }
}

/// What some transactions used is what the first few of them used and what the rest did.
pub proof fn lemma_total_gas_split(gas: Seq<u64>, n: int)
    requires
        0 <= n <= gas.len(),
    ensures
        total_gas(gas) == total_gas(gas.take(n)) + total_gas(gas.skip(n)),
        0 <= total_gas(gas.take(n)),
        0 <= total_gas(gas.skip(n)),
    decreases gas.len(),
{
    if n == gas.len() {
        assert(gas.take(n) =~= gas);
        assert(gas.skip(n) =~= Seq::empty());
        if n > 0 {
            lemma_total_gas_split(gas.drop_last(), n - 1);
        }
    } else {
        lemma_total_gas_split(gas.drop_last(), n);
        assert(gas.drop_last().take(n) =~= gas.take(n));
        assert(gas.drop_last().skip(n) =~= gas.skip(n).drop_last());
    }
}

/// The transactions behind the receipts used the given gas, and each receipt counts the gas of all
/// transactions up to and with its own.
pub open spec fn receipts_count(receipts: Seq<OpReceiptView>, gas: Seq<u64>) -> bool {
    &&& gas.len() == receipts.len()
    &&& forall|i: int|
        0 <= i < receipts.len() ==> (#[trigger] receipts[i]).cumulative_gas_used == total_gas(
            gas.take(i + 1),
        )
}

/// One more receipt counts the gas of all transactions before and that of its own.
pub proof fn lemma_receipts_count_push(
    receipts: Seq<OpReceiptView>,
    gas: Seq<u64>,
    receipt: OpReceiptView,
    gas_used: u64,
)
    requires
        receipts_count(receipts, gas),
        receipt.cumulative_gas_used == total_gas(gas) + gas_used,
    ensures
        receipts_count(receipts.push(receipt), gas.push(gas_used)),
        total_gas(gas.push(gas_used)) == total_gas(gas) + gas_used,
{
    let more = gas.push(gas_used);
    assert(more.drop_last() =~= gas);
    assert forall|i: int| 0 <= i < receipts.push(receipt).len() implies (
    #[trigger] receipts.push(receipt)[i]).cumulative_gas_used == total_gas(more.take(i + 1)) by {
        if i < receipts.len() {
            assert(more.take(i + 1) =~= gas.take(i + 1));
            assert(receipts[i].cumulative_gas_used == total_gas(gas.take(i + 1)));
        } else {
            assert(more.take(i + 1) =~= more);
        }
    }
}

/// More than the fee of any one transaction can be: the price of a unit of gas has 128 bits, and
/// the gas 64.
pub open spec fn fee_bound() -> nat {
    0x1_0000_0000_0000_0000_0000_0000_0000_0000_0000_0000_0000_0000nat
}

/// The fees are no more than so many transactions can pay. As a list holds fewer than two to the
/// 64th of them, the fees never wrap around.
pub open spec fn fees_bounded(info: InfoView) -> bool {
    info.total_fees <= info.transactions.len() * fee_bound()
}

/// The fee of one more transaction adds to the fees without wrapping around.
pub proof fn lemma_fees_add_up(info: InfoView, tip: u128, gas_used: u64)
    requires
        fees_bounded(info),
        info.transactions.len() < 0xffff_ffff_ffff_ffff,
    ensures
        0 <= tip * gas_used < fee_bound(),
        (info.total_fees + (tip * gas_used) as nat) % modulus() == info.total_fees + tip * gas_used,
        info.total_fees + tip * gas_used <= (info.transactions.len() + 1) * fee_bound(),
{
    assert(0 <= tip * gas_used <= 0xffff_ffff_ffff_ffff_ffff_ffff_ffff_ffff
        * 0xffff_ffff_ffff_ffff) by (nonlinear_arith)
        requires
            0 <= tip <= 0xffff_ffff_ffff_ffff_ffff_ffff_ffff_ffff,
            0 <= gas_used <= 0xffff_ffff_ffff_ffff,
    ;
}

impl ExecutionInfo {
    /// Create a new instance with allocated slots.
    pub fn with_capacity(capacity: usize) -> (r: ExecutionInfo)
        ensures
            r@ == InfoView::empty(),
            r@.wf(),
    {
        let r = ExecutionInfo {
            executed_transactions: Vec::with_capacity(capacity),
            executed_senders: Vec::with_capacity(capacity),
            receipts: Vec::with_capacity(capacity),
            cumulative_gas_used: 0,
            total_fees: U256::zero(),
        };
        assert(r@.transactions =~= Seq::empty());
        assert(r@.senders =~= Seq::empty());
        assert(r@.receipts =~= Seq::empty());
        r
    }

    /// Whether a transaction has been executed already.
    pub fn contains(&self, tx: &OpTransactionSigned) -> (r: bool)
        ensures
            r == self@.transactions.contains(tx@),
    {
        contains_transaction(&self.executed_transactions, tx)
    }

    /// Takes up an executed transaction: the transaction itself, its sender and its receipt, the
    /// gas that it used and the tip that it paid for that gas.
    pub fn add(&mut self, tx: Recovered, result: OpExecutionResult, base_fee: u64)
        requires
            old(self).cumulative_gas_used + result.result.spec_gas_used() <= u64::MAX,
            tx@.tx.effective_tip_per_gas(base_fee) is Some,
        ensures
            final(self)@ == old(self)@.add(tx@, result, base_fee),
            old(self)@.wf() ==> final(self)@.wf(),
    {
        let ghost before = *self;
        let gas_used: u64 = result.gas_used();
        let miner_fee: u128 = tx.tx.effective_tip_per_gas(base_fee).unwrap();
        self.executed_senders.push(tx.signer);
        self.cumulative_gas_used = self.cumulative_gas_used + gas_used;
        let fee = U256::from_u128(miner_fee).wrapping_mul(U256::from_u64(gas_used));
        proof {
            lemma_fee_fits(miner_fee, gas_used);
        }
        self.total_fees = self.total_fees.wrapping_add(fee);
        self.executed_transactions.push(tx.tx);
        self.receipts.push(result.receipt());
        assert(self@.transactions =~= before@.transactions.push(tx@.tx));
        assert(self@.receipts =~= before@.receipts.push(result.spec_receipt()));
    }

    /// Takes up an executed transaction that did not come from the pool: like any other, but for
    /// its fee, which is not tracked.
    pub fn add_untracked(&mut self, tx: Recovered, result: OpExecutionResult)
        requires
            old(self).cumulative_gas_used + result.result.spec_gas_used() <= u64::MAX,
        ensures
            final(self)@ == old(self)@.push(
                tx@,
                result.spec_receipt(),
                result.result.spec_gas_used(),
                0,
            ),
            final(self)@.total_fees == old(self)@.total_fees,
            old(self)@.wf() ==> final(self)@.wf(),
    {
        let ghost before = *self;
        self.executed_senders.push(tx.signer);
        self.cumulative_gas_used = self.cumulative_gas_used + result.gas_used();
        self.executed_transactions.push(tx.tx);
        self.receipts.push(result.receipt());
        assert(self.total_fees@ < modulus());
        assert(self@.transactions =~= before@.transactions.push(tx@.tx));
        assert(self@.receipts =~= before@.receipts.push(result.spec_receipt()));
    }
}

} // verus!
