//! Transactions, logs and receipts, as far as building a block depends on them.

use vstd::prelude::*;

verus! {

/// The address of an account.
#[derive(Clone, Copy, Debug, PartialEq, Eq)]
pub struct Address {
    pub bytes: [u8; 20],
}

impl Address {
    /// Whether `other` is the same address.
    pub fn same_as(&self, other: &Address) -> (r: bool)
        ensures
            r == (self.bytes@ == other.bytes@),
    {
        let mut i: usize = 0;
        while i < 20
            invariant
                i <= 20,
                forall|j: int| 0 <= j < i ==> self.bytes@[j] == other.bytes@[j],
            decreases 20 - i,
        {
            if self.bytes[i] != other.bytes[i] {
                return false;
            }
            i += 1;
        }
        assert(self.bytes@ =~= other.bytes@);
        true
    }
}

/// A 32-byte hash or root.
#[derive(Clone, Copy, Debug, PartialEq, Eq)]
pub struct B256 {
    pub bytes: [u8; 32],
}

/// Eight bytes.
#[derive(Clone, Copy, Debug, PartialEq, Eq)]
pub struct B64 {
    pub bytes: [u8; 8],
}

/// A bloom filter over the logs of a block.
#[derive(Clone, Copy, Debug, PartialEq, Eq)]
pub struct Bloom {
    pub bytes: [u8; 256],
}

/// The kinds of transaction that a node may hand over.
#[derive(Clone, Copy, Debug, PartialEq, Eq, Structural)]
pub enum TxType {
    Legacy,
    Eip2930,
    Eip1559,
    Eip4844,
    Eip7702,
    Deposit,
}

/// The kinds of transaction that an Optimism block may hold: all but blob transactions.
#[derive(Clone, Copy, Debug, PartialEq, Eq, Structural)]
pub enum OpTxType {
    Legacy,
    Eip2930,
    Eip1559,
    Eip7702,
    Deposit,
}

/// The kind of a transaction that is not a blob transaction.
pub open spec fn op_tx_type_of(tx_type: TxType) -> OpTxType
    recommends
        tx_type !is Eip4844,
{
    match tx_type {
        TxType::Legacy => OpTxType::Legacy,
        TxType::Eip2930 => OpTxType::Eip2930,
        TxType::Eip1559 => OpTxType::Eip1559,
        TxType::Eip4844 => arbitrary(),
        TxType::Eip7702 => OpTxType::Eip7702,
        TxType::Deposit => OpTxType::Deposit,
    }
}

/// A signed transaction.
#[derive(Debug, PartialEq, Eq)]
pub struct OpTransactionSigned {
    pub tx_type: TxType,
    pub nonce: u64,
    pub gas_limit: u64,
    /// The most that the sender pays for a unit of gas; zero for a deposit.
    pub max_fee_per_gas: u128,
    /// The most that goes to the builder for a unit of gas, where the transaction says so.
    pub max_priority_fee_per_gas: Option<u128>,
    /// The EIP-2718 encoding of the whole transaction, with its signature.
    pub encoded: Vec<u8>,
}

/// What an [`OpTransactionSigned`] holds.
pub ghost struct TxView {
    pub tx_type: TxType,
    pub nonce: u64,
    pub gas_limit: u64,
    pub max_fee_per_gas: u128,
    pub max_priority_fee_per_gas: Option<u128>,
    pub encoded: Seq<u8>,
}

impl View for OpTransactionSigned {
    type V = TxView;

    open spec fn view(&self) -> TxView {
        TxView {
            tx_type: self.tx_type,
            nonce: self.nonce,
            gas_limit: self.gas_limit,
            max_fee_per_gas: self.max_fee_per_gas,
            max_priority_fee_per_gas: self.max_priority_fee_per_gas,
            encoded: self.encoded@,
        }
    }
}

/// What each transaction of a list holds.
pub open spec fn tx_views(txs: Seq<OpTransactionSigned>) -> Seq<TxView> {
    txs.map_values(|tx: OpTransactionSigned| tx@)
}

impl TxView {
    /// What the builder earns for a unit of gas over `base_fee`; nothing can be said where the
    /// sender does not even pay the base fee.
    pub open spec fn effective_tip_per_gas(self, base_fee: u64) -> Option<u128> {
        if self.max_fee_per_gas < base_fee {
            None
        } else {
            let over: u128 = (self.max_fee_per_gas - base_fee) as u128;
            match self.max_priority_fee_per_gas {
                Some(tip) if tip < over => Some(tip),
                _ => Some(over),
            }
        }
    }
}

/// Whether two byte strings are equal.
fn same_bytes(a: &Vec<u8>, b: &Vec<u8>) -> (r: bool)
    ensures
        r == (a@ == b@),
{
    if a.len() != b.len() {
        return false;
    }
    let mut i: usize = 0;
    while i < a.len()
        invariant
            a.len() == b.len(),
            i <= a.len(),
            forall|j: int| 0 <= j < i ==> a@[j] == b@[j],
        decreases a.len() - i,
    {
        if a[i] != b[i] {
            return false;
        }
        i += 1;
    }
    assert(a@ =~= b@);
    true
}

/// Whether two optional prices are equal.
fn same_price(a: Option<u128>, b: Option<u128>) -> (r: bool)
    ensures
        r == (a == b),
{
    match (a, b) {
        (Some(x), Some(y)) => x == y,
        (None, None) => true,
        _ => false,
    }
}

impl Clone for OpTransactionSigned {
    fn clone(&self) -> (r: Self)
        ensures
            r@ == self@,
    {
        let encoded = self.encoded.clone();
        assert(encoded@ =~= self.encoded@);
        OpTransactionSigned {
            tx_type: self.tx_type,
            nonce: self.nonce,
            gas_limit: self.gas_limit,
            max_fee_per_gas: self.max_fee_per_gas,
            max_priority_fee_per_gas: self.max_priority_fee_per_gas,
            encoded,
        }
    }
}

impl OpTransactionSigned {
    /// Whether `other` is the same transaction.
    pub fn same_as(&self, other: &OpTransactionSigned) -> (r: bool)
        ensures
            r == (self@ == other@),
    {
        self.tx_type == other.tx_type && self.nonce == other.nonce && self.gas_limit
            == other.gas_limit && self.max_fee_per_gas == other.max_fee_per_gas && same_price(
            self.max_priority_fee_per_gas,
            other.max_priority_fee_per_gas,
        ) && same_bytes(&self.encoded, &other.encoded)
    }

    /// Whether this is a blob transaction.
    pub fn is_eip4844(&self) -> (r: bool)
        ensures
            r == (self.tx_type is Eip4844),
    {
        matches!(self.tx_type, TxType::Eip4844)
    }

    /// Whether this is a deposit from L1.
    pub fn is_deposit(&self) -> (r: bool)
        ensures
            r == (self.tx_type is Deposit),
    {
        matches!(self.tx_type, TxType::Deposit)
    }

    /// The kind of this transaction.
    pub fn op_tx_type(&self) -> (r: OpTxType)
        requires
            self.tx_type !is Eip4844,
        ensures
            r == op_tx_type_of(self.tx_type),
    {
        match self.tx_type {
            TxType::Legacy => OpTxType::Legacy,
            TxType::Eip2930 => OpTxType::Eip2930,
            TxType::Eip1559 => OpTxType::Eip1559,
            TxType::Eip7702 => OpTxType::Eip7702,
            _ => OpTxType::Deposit,
        }
    }

    /// What the builder earns for a unit of gas over `base_fee`: what the sender pays above the
    /// base fee, up to the priority fee where there is one. `None` where the sender pays less
    /// than the base fee.
    pub fn effective_tip_per_gas(&self, base_fee: u64) -> (r: Option<u128>)
        ensures
            r == self@.effective_tip_per_gas(base_fee),
    {
        let base_fee: u128 = base_fee as u128;
        if self.max_fee_per_gas < base_fee {
            return None;
        }
        let over: u128 = self.max_fee_per_gas - base_fee;
        match self.max_priority_fee_per_gas {
            Some(tip) => if tip < over {
                Some(tip)
            } else {
                Some(over)
            },
            None => Some(over),
        }
    }
}

/// Copies a list of transactions.
pub fn clone_transactions(txs: &Vec<OpTransactionSigned>) -> (r: Vec<OpTransactionSigned>)
    ensures
        tx_views(r@) == tx_views(txs@),
{
    let mut out: Vec<OpTransactionSigned> = Vec::new();
    let mut i: usize = 0;
    while i < txs.len()
        invariant
            i <= txs.len(),
            out.len() == i,
            forall|j: int| 0 <= j < i ==> (#[trigger] out@[j])@ == txs@[j]@,
        decreases txs.len() - i,
    {
        let tx = txs[i].clone();
        out.push(tx);
        i += 1;
    }
    assert(tx_views(out@) =~= tx_views(txs@));
    out
}

/// Whether `tx` is one of `txs`.
pub fn contains_transaction(txs: &Vec<OpTransactionSigned>, tx: &OpTransactionSigned) -> (r: bool)
    ensures
        r == tx_views(txs@).contains(tx@),
{
    let mut i: usize = 0;
    while i < txs.len()
        invariant
            i <= txs.len(),
            forall|j: int| 0 <= j < i ==> #[trigger] tx_views(txs@)[j] != tx@,
        decreases txs.len() - i,
    {
        if txs[i].same_as(tx) {
            assert(tx_views(txs@)[i as int] == tx@);
            return true;
        }
        i += 1;
    }
    false
}

/// A transaction whose sender is known.
#[derive(Debug, PartialEq, Eq)]
pub struct Recovered {
    pub tx: OpTransactionSigned,
    pub signer: Address,
}

/// What a [`Recovered`] holds.
pub ghost struct RecoveredView {
    pub tx: TxView,
    pub signer: Address,
}

impl View for Recovered {
    type V = RecoveredView;

    open spec fn view(&self) -> RecoveredView {
        RecoveredView { tx: self.tx@, signer: self.signer }
    }
}

/// An event that a contract emitted.
#[derive(Debug, PartialEq, Eq)]
pub struct Log {
    pub address: Address,
    pub topics: Vec<B256>,
    pub data: Vec<u8>,
}

/// What a [`Log`] holds.
pub ghost struct LogView {
    pub address: Address,
    pub topics: Seq<B256>,
    pub data: Seq<u8>,
}

impl View for Log {
    type V = LogView;

    open spec fn view(&self) -> LogView {
        LogView { address: self.address, topics: self.topics@, data: self.data@ }
    }
}

/// What each log of a list holds.
pub open spec fn log_views(logs: Seq<Log>) -> Seq<LogView> {
    logs.map_values(|log: Log| log@)
}

impl Clone for Log {
    fn clone(&self) -> (r: Self)
        ensures
            r@ == self@,
    {
        let topics = self.topics.clone();
        let data = self.data.clone();
        assert(topics@ =~= self.topics@);
        assert(data@ =~= self.data@);
        Log { address: self.address, topics, data }
    }
}

/// The outcome of a transaction, as the block records it.
#[derive(Debug, PartialEq, Eq)]
pub struct Receipt {
    pub status: bool,
    /// Gas used in the block up to and with this transaction.
    pub cumulative_gas_used: u64,
    pub logs: Vec<Log>,
}

/// The receipt of a deposit.
#[derive(Debug, PartialEq, Eq)]
pub struct OpDepositReceipt {
    pub inner: Receipt,
    pub deposit_nonce: Option<u64>,
    pub deposit_receipt_version: Option<u64>,
}

/// A receipt, tagged with the kind of its transaction.
#[derive(Debug, PartialEq, Eq)]
pub enum OpReceipt {
    Legacy(Receipt),
    Eip2930(Receipt),
    Eip1559(Receipt),
    Eip7702(Receipt),
    Deposit(OpDepositReceipt),
}

/// What an [`OpReceipt`] holds. The last two fields are `None` for all but deposits.
pub ghost struct OpReceiptView {
    pub tx_type: OpTxType,
    pub status: bool,
    pub cumulative_gas_used: u64,
    pub logs: Seq<LogView>,
    pub deposit_nonce: Option<u64>,
    pub deposit_receipt_version: Option<u64>,
}

/// What the receipt of a transaction of kind `tx_type` other than a deposit holds.
pub open spec fn plain_receipt(tx_type: OpTxType, receipt: Receipt) -> OpReceiptView {
    OpReceiptView {
        tx_type,
        status: receipt.status,
        cumulative_gas_used: receipt.cumulative_gas_used,
        logs: log_views(receipt.logs@),
        deposit_nonce: None,
        deposit_receipt_version: None,
    }
}

impl View for OpReceipt {
    type V = OpReceiptView;

    open spec fn view(&self) -> OpReceiptView {
        match *self {
            OpReceipt::Legacy(receipt) => plain_receipt(OpTxType::Legacy, receipt),
            OpReceipt::Eip2930(receipt) => plain_receipt(OpTxType::Eip2930, receipt),
            OpReceipt::Eip1559(receipt) => plain_receipt(OpTxType::Eip1559, receipt),
            OpReceipt::Eip7702(receipt) => plain_receipt(OpTxType::Eip7702, receipt),
            OpReceipt::Deposit(deposit) => OpReceiptView {
                deposit_nonce: deposit.deposit_nonce,
                deposit_receipt_version: deposit.deposit_receipt_version,
                ..plain_receipt(OpTxType::Deposit, deposit.inner)
            },
        }
    }
}

/// What each receipt of a list holds.
pub open spec fn receipt_views(receipts: Seq<OpReceipt>) -> Seq<OpReceiptView> {
    receipts.map_values(|receipt: OpReceipt| receipt@)
}

/// The logs of a block: those of its receipts, one receipt after the other.
pub open spec fn block_logs(receipts: Seq<OpReceiptView>) -> Seq<LogView>
    decreases receipts.len(),
{
    if receipts.len() == 0 {
        Seq::empty()
    } else {
        block_logs(receipts.drop_last()) + receipts.last().logs
    }
}

impl OpReceipt {
    /// Tags a receipt with the kind of its transaction. A deposit also records the nonce that
    /// its sender had, and the receipt version.
    pub fn new(
        tx_type: OpTxType,
        receipt: Receipt,
        deposit_nonce: Option<u64>,
        deposit_receipt_version: Option<u64>,
    ) -> (r: OpReceipt)
        ensures
            r@ == (OpReceiptView {
                tx_type,
                status: receipt.status,
                cumulative_gas_used: receipt.cumulative_gas_used,
                logs: log_views(receipt.logs@),
                deposit_nonce: if tx_type is Deposit { deposit_nonce } else { None },
                deposit_receipt_version: if tx_type is Deposit {
                    deposit_receipt_version
                } else {
                    None
                },
            }),
    {
        match tx_type {
            OpTxType::Legacy => OpReceipt::Legacy(receipt),
            OpTxType::Eip2930 => OpReceipt::Eip2930(receipt),
            OpTxType::Eip1559 => OpReceipt::Eip1559(receipt),
            OpTxType::Eip7702 => OpReceipt::Eip7702(receipt),
            OpTxType::Deposit => OpReceipt::Deposit(
                OpDepositReceipt { inner: receipt, deposit_nonce, deposit_receipt_version },
            ),
        }
    }

    /// The receipt without its tag.
    pub fn as_receipt(&self) -> (r: &Receipt)
        ensures
            r.status == self@.status,
            r.cumulative_gas_used == self@.cumulative_gas_used,
            log_views(r.logs@) == self@.logs,
    {
        match self {
            OpReceipt::Legacy(receipt) => receipt,
            OpReceipt::Eip2930(receipt) => receipt,
            OpReceipt::Eip1559(receipt) => receipt,
            OpReceipt::Eip7702(receipt) => receipt,
            OpReceipt::Deposit(deposit) => &deposit.inner,
        }
    }
}

/// The logs of a block: those of its receipts, one receipt after the other.
pub fn collect_logs(receipts: &Vec<OpReceipt>) -> (r: Vec<Log>)
    ensures
        log_views(r@) == block_logs(receipt_views(receipts@)),
{
    let mut out: Vec<Log> = Vec::new();
    let mut i: usize = 0;
    let ghost views = receipt_views(receipts@);
    assert(log_views(out@) =~= block_logs(views.take(0)));
    while i < receipts.len()
        invariant
            i <= receipts.len(),
            views == receipt_views(receipts@),
            log_views(out@) == block_logs(views.take(i as int)),
        decreases receipts.len() - i,
    {
        let logs = &receipts[i].as_receipt().logs;
        let ghost before = log_views(out@);
        let mut j: usize = 0;
        assert(log_views(out@) =~= before + log_views(logs@).take(0));
        while j < logs.len()
            invariant
                j <= logs.len(),
                log_views(out@) == before + log_views(logs@).take(j as int),
            decreases logs.len() - j,
        {
            let log = logs[j].clone();
            let ghost prior = out@;
            out.push(log);
            assert(log_views(out@) =~= log_views(prior).push(log@));
            assert(log_views(logs@).take(j + 1) =~= log_views(logs@).take(j as int).push(
                log_views(logs@)[j as int],
            ));
            assert(log_views(out@) =~= before + log_views(logs@).take(j + 1));
            j += 1;
        }
        assert(log_views(logs@).take(logs.len() as int) =~= log_views(logs@));
        assert(views.take(i + 1).drop_last() =~= views.take(i as int));
        assert(views.take(i + 1).last() == receipts@[i as int]@);
        i += 1;
    }
    assert(views.take(receipts.len() as int) =~= views);
    out
}

} // verus!
