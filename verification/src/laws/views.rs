//! Views leave nothing out: two values with the same view hold the same.

use vstd::prelude::*;

use crate::actions::payload::{bloom_inputs, encodings, SealedBlock};
use crate::chain::{clone_withdrawals, Header, OpPayloadBuilderAttributes, Withdrawal};
use crate::components::execution_info::{total_gas, ExecutionInfo};
use crate::payload_builder;
use crate::primitives::{
    block_logs, clone_transactions, collect_logs, contains_transaction, log_views, receipt_views,
    tx_views, Address, Log, LogView, OpReceipt, OpReceiptView, OpTransactionSigned, OpTxType,
    Receipt, Recovered, TxView,
};
use crate::tx_executor::TxExecutionInfo;
use crate::u256::{limb_weight, modulus, U256};

verus! {

/// Two transactions are the same exactly where all their fields are, the whole encoding among them.
pub proof fn law_transactions_are_told_apart(
    a: OpTransactionSigned,
    b: OpTransactionSigned,
    same: bool,
)
    requires
        call_ensures(OpTransactionSigned::same_as, (&a, &b), same),
    ensures
        same <==> {
            &&& a.tx_type == b.tx_type
            &&& a.nonce == b.nonce
            &&& a.gas_limit == b.gas_limit
            &&& a.max_fee_per_gas == b.max_fee_per_gas
            &&& a.max_priority_fee_per_gas == b.max_priority_fee_per_gas
            &&& a.encoded@ == b.encoded@
        },
        same <==> a@ == b@,
{
}

/// Two addresses are the same exactly where all their bytes are.
pub proof fn law_addresses_are_told_apart(a: Address, b: Address, same: bool)
    requires
        call_ensures(Address::same_as, (&a, &b), same),
    ensures
        same <==> forall|i: int| 0 <= i < 20 ==> a.bytes@[i] == b.bytes@[i],
{
    if forall|i: int| 0 <= i < 20 ==> a.bytes@[i] == b.bytes@[i] {
        assert(a.bytes@ =~= b.bytes@);
    }
}

/// A transaction is among others exactly where one of them has the same fields.
pub proof fn law_transaction_is_found(
    txs: Vec<OpTransactionSigned>,
    tx: OpTransactionSigned,
    found: bool,
)
    requires
        call_ensures(contains_transaction, (&txs, &tx), found),
    ensures
        found <==> exists|i: int|
            0 <= i < txs@.len() && {
                &&& (#[trigger] txs@[i]).tx_type == tx.tx_type
                &&& txs@[i].nonce == tx.nonce
                &&& txs@[i].gas_limit == tx.gas_limit
                &&& txs@[i].max_fee_per_gas == tx.max_fee_per_gas
                &&& txs@[i].max_priority_fee_per_gas == tx.max_priority_fee_per_gas
                &&& txs@[i].encoded@ == tx.encoded@
            },
{
    if found {
        let i = choose|i: int| 0 <= i < tx_views(txs@).len() && tx_views(txs@)[i] == tx@;
        assert(txs@[i]@ == tx@);
    }
    assert forall|i: int|
        0 <= i < txs@.len() && {
            &&& (#[trigger] txs@[i]).tx_type == tx.tx_type
            &&& txs@[i].nonce == tx.nonce
            &&& txs@[i].gas_limit == tx.gas_limit
            &&& txs@[i].max_fee_per_gas == tx.max_fee_per_gas
            &&& txs@[i].max_priority_fee_per_gas == tx.max_priority_fee_per_gas
            &&& txs@[i].encoded@ == tx.encoded@
        } implies found by {
        assert(tx_views(txs@)[i] == tx@);
    }
}

/// What a block has taken up is found there, and nothing else is.
pub proof fn law_taken_up_is_found(
    info: ExecutionInfo,
    found: bool,
    batch_info: payload_builder::ExecutionInfo,
    batch_found: bool,
    tx: OpTransactionSigned,
)
    requires
        call_ensures(ExecutionInfo::contains, (&info, &tx), found),
        call_ensures(payload_builder::ExecutionInfo::contains, (&batch_info, &tx), batch_found),
    ensures
        found <==> exists|i: int|
            0 <= i < info.executed_transactions@.len() && (
            #[trigger] info.executed_transactions@[i])@ == tx@,
        batch_found <==> exists|i: int|
            0 <= i < batch_info.executed_transactions@.len() && (
            #[trigger] batch_info.executed_transactions@[i])@ == tx@,
{
    lemma_found(info.executed_transactions@, tx);
    lemma_found(batch_info.executed_transactions@, tx);
}

/// The views of some transactions contain that of `tx` exactly where one of them has it.
proof fn lemma_found(txs: Seq<OpTransactionSigned>, tx: OpTransactionSigned)
    ensures
        tx_views(txs).contains(tx@) <==> exists|i: int|
            0 <= i < txs.len() && (#[trigger] txs[i])@ == tx@,
{
    if tx_views(txs).contains(tx@) {
        let i = choose|i: int| 0 <= i < tx_views(txs).len() && tx_views(txs)[i] == tx@;
        assert(txs[i]@ == tx@);
    }
    assert forall|i: int| 0 <= i < txs.len() && (#[trigger] txs[i])@ == tx@ implies tx_views(
        txs,
    ).contains(tx@) by {
        assert(tx_views(txs)[i] == tx@);
    }
}

/// Copies hold the same, and a receipt without its tag keeps what it had.
pub proof fn law_copies(
    txs: Vec<OpTransactionSigned>,
    copied: Vec<OpTransactionSigned>,
    withdrawals: Vec<Withdrawal>,
    copied_withdrawals: Vec<Withdrawal>,
    receipt: OpReceipt,
    untagged: &Receipt,
)
    requires
        call_ensures(clone_transactions, (&txs,), copied),
        call_ensures(clone_withdrawals, (&withdrawals,), copied_withdrawals),
        call_ensures(OpReceipt::as_receipt, (&receipt,), untagged),
    ensures
        copied@.len() == txs@.len(),
        forall|i: int| 0 <= i < txs@.len() ==> (#[trigger] copied@[i])@ == txs@[i]@,
        copied_withdrawals@ == withdrawals@,
        untagged.status == receipt@.status,
        untagged.cumulative_gas_used == receipt@.cumulative_gas_used,
        untagged.logs@.len() == receipt@.logs.len(),
{
    assert(tx_views(txs@).len() == txs@.len());
    assert(tx_views(copied@).len() == copied@.len());
    assert forall|i: int| 0 <= i < txs@.len() implies (#[trigger] copied@[i])@ == txs@[i]@ by {
        assert(tx_views(copied@)[i] == copied@[i]@);
        assert(tx_views(txs@)[i] == txs@[i]@);
    }
    assert(log_views(untagged.logs@).len() == untagged.logs@.len());
}

/// The view of a list of transactions has the view of each, in its place.
pub proof fn law_transaction_list(txs: Seq<OpTransactionSigned>)
    ensures
        tx_views(txs).len() == txs.len(),
        forall|i: int| 0 <= i < txs.len() ==> #[trigger] tx_views(txs)[i] == txs[i]@,
{
}

/// Two recovered transactions with the same view are the same transaction of the same sender.
pub proof fn law_recovered_view(a: Recovered, b: Recovered)
    ensures
        a@ == b@ <==> a.tx@ == b.tx@ && a.signer == b.signer,
        a@.tx == a.tx@,
        a@.signer == a.signer,
{
}

/// The view of a log has its address, its topics and its data; that of a list has each, in its
/// place.
pub proof fn law_log_view(log: Log, logs: Seq<Log>)
    ensures
        log@.address == log.address,
        log@.topics == log.topics@,
        log@.data == log.data@,
        log_views(logs).len() == logs.len(),
        forall|i: int| 0 <= i < logs.len() ==> #[trigger] log_views(logs)[i] == logs[i]@,
{
}

/// The view of a receipt has the tag of its variant and all its fields; only that of a deposit has
/// a nonce and a version.
pub proof fn law_receipt_view(receipt: OpReceipt, receipts: Seq<OpReceipt>)
    ensures
        ({
            let inner: Receipt = match receipt {
                OpReceipt::Legacy(inner) => inner,
                OpReceipt::Eip2930(inner) => inner,
                OpReceipt::Eip1559(inner) => inner,
                OpReceipt::Eip7702(inner) => inner,
                OpReceipt::Deposit(deposit) => deposit.inner,
            };
            &&& receipt@.status == inner.status
            &&& receipt@.cumulative_gas_used == inner.cumulative_gas_used
            &&& receipt@.logs.len() == inner.logs@.len()
            &&& forall|i: int|
                0 <= i < inner.logs@.len() ==> #[trigger] receipt@.logs[i] == inner.logs@[i]@
        }),
        receipt@.tx_type is Legacy <==> receipt is Legacy,
        receipt@.tx_type is Eip2930 <==> receipt is Eip2930,
        receipt@.tx_type is Eip1559 <==> receipt is Eip1559,
        receipt@.tx_type is Eip7702 <==> receipt is Eip7702,
        receipt@.tx_type is Deposit <==> receipt is Deposit,
        match receipt {
            OpReceipt::Deposit(deposit) => {
                &&& receipt@.deposit_nonce == deposit.deposit_nonce
                &&& receipt@.deposit_receipt_version == deposit.deposit_receipt_version
            },
            _ => receipt@.deposit_nonce is None && receipt@.deposit_receipt_version is None,
        },
        receipt_views(receipts).len() == receipts.len(),
        forall|i: int|
            0 <= i < receipts.len() ==> #[trigger] receipt_views(receipts)[i] == receipts[i]@,
{
}

/// The view of the payload attributes has all of them.
pub proof fn law_attributes_view(attributes: OpPayloadBuilderAttributes)
    ensures
        attributes@.id == attributes.payload_attributes.id,
        attributes@.parent == attributes.payload_attributes.parent,
        attributes@.timestamp == attributes.payload_attributes.timestamp,
        attributes@.suggested_fee_recipient
            == attributes.payload_attributes.suggested_fee_recipient,
        attributes@.prev_randao == attributes.payload_attributes.prev_randao,
        attributes@.withdrawals == attributes.payload_attributes.withdrawals@,
        attributes@.parent_beacon_block_root
            == attributes.payload_attributes.parent_beacon_block_root,
        attributes@.no_tx_pool == attributes.no_tx_pool,
        attributes@.transactions.len() == attributes.transactions@.len(),
        forall|i: int|
            0 <= i < attributes.transactions@.len() ==> #[trigger] attributes@.transactions[i]
                == attributes.transactions@[i]@,
        attributes@.gas_limit == attributes.gas_limit,
        attributes@.eip_1559_params == attributes.eip_1559_params,
{
}

/// Two headers with the same view have the same fields, all of them.
pub proof fn law_header_view(a: Header, b: Header)
    ensures
        a@ == b@ <==> {
            &&& a.parent_hash == b.parent_hash
            &&& a.ommers_hash == b.ommers_hash
            &&& a.beneficiary == b.beneficiary
            &&& a.state_root == b.state_root
            &&& a.transactions_root == b.transactions_root
            &&& a.receipts_root == b.receipts_root
            &&& a.logs_bloom == b.logs_bloom
            &&& a.difficulty@ == b.difficulty@
            &&& a.number == b.number
            &&& a.gas_limit == b.gas_limit
            &&& a.gas_used == b.gas_used
            &&& a.timestamp == b.timestamp
            &&& a.extra_data@ == b.extra_data@
            &&& a.mix_hash == b.mix_hash
            &&& a.nonce == b.nonce
            &&& a.base_fee_per_gas == b.base_fee_per_gas
            &&& a.withdrawals_root == b.withdrawals_root
            &&& a.blob_gas_used == b.blob_gas_used
            &&& a.excess_blob_gas == b.excess_blob_gas
            &&& a.parent_beacon_block_root == b.parent_beacon_block_root
            &&& a.requests_hash == b.requests_hash
        },
{
}

/// The view of a sealed block has its header, its hash and its whole body.
pub proof fn law_sealed_block_view(block: SealedBlock)
    ensures
        block@.header == block.header.header@,
        block@.hash == block.header.hash,
        block@.transactions.len() == block.body.transactions@.len(),
        forall|i: int|
            0 <= i < block.body.transactions@.len() ==> #[trigger] block@.transactions[i]
                == block.body.transactions@[i]@,
        block@.ommers.len() == block.body.ommers@.len(),
        forall|i: int|
            0 <= i < block.body.ommers@.len() ==> #[trigger] block@.ommers[i]
                == block.body.ommers@[i]@,
        match block.body.withdrawals {
            Some(withdrawals) => block@.withdrawals == Some(withdrawals@),
            None => block@.withdrawals is None,
        },
{
}

/// The view of what a block has taken up has all transactions, senders and receipts, each in its
/// place, and the gas and the fees.
pub proof fn law_info_view(info: ExecutionInfo)
    ensures
        info@.transactions.len() == info.executed_transactions@.len(),
        forall|i: int|
            0 <= i < info.executed_transactions@.len() ==> #[trigger] info@.transactions[i]
                == info.executed_transactions@[i]@,
        info@.senders == info.executed_senders@,
        info@.receipts.len() == info.receipts@.len(),
        forall|i: int|
            0 <= i < info.receipts@.len() ==> #[trigger] info@.receipts[i] == info.receipts@[i]@,
        info@.cumulative_gas_used == info.cumulative_gas_used,
        info@.total_fees == info.total_fees@,
{
}

/// The same of the books that are kept batch by batch.
pub proof fn law_batch_info_view(info: payload_builder::ExecutionInfo)
    ensures
        info@.transactions.len() == info.executed_transactions@.len(),
        forall|i: int|
            0 <= i < info.executed_transactions@.len() ==> #[trigger] info@.transactions[i]
                == info.executed_transactions@[i]@,
        info@.senders == info.executed_senders@,
        info@.receipts.len() == info.receipts@.len(),
        forall|i: int|
            0 <= i < info.receipts@.len() ==> #[trigger] info@.receipts[i] == info.receipts@[i]@,
        info@.cumulative_gas_used == info.cumulative_gas_used,
        info@.total_fees == info.total_fees@,
{
}

/// The view of what a block takes up of a transaction has all of it.
pub proof fn law_taken_view(taken: TxExecutionInfo)
    ensures
        taken@.tx == taken.tx@,
        taken@.sender == taken.sender,
        taken@.receipt == taken.receipt@,
        taken@.gas_used == taken.gas_used,
        taken@.fee == taken.fee@,
{
}

/// A 256-bit number is what its limbs stand for, each worth one more than the largest 64-bit number
/// times the one below it; arithmetic wraps around at the fourth power of that.
pub proof fn law_u256_value(a: U256, b: U256)
    ensures
        limb_weight() == u64::MAX + 1,
        modulus() == limb_weight() * limb_weight() * limb_weight() * limb_weight(),
        a@ < modulus(),
        a@ <= u64::MAX <==> a.l1 == 0 && a.l2 == 0 && a.l3 == 0,
        a@ % limb_weight() == a.l0,
        a@ / limb_weight() % limb_weight() == a.l1,
        a@ == b@ <==> a == b,
{
    assert(limb_weight() * limb_weight() * limb_weight() * limb_weight() == modulus()) by (
    nonlinear_arith)
        requires
            limb_weight() == 0x1_0000_0000_0000_0000nat,
            modulus()
                == 0x1_0000_0000_0000_0000_0000_0000_0000_0000_0000_0000_0000_0000_0000_0000_0000_0000nat,
    ;
}

/// Arithmetic on 256-bit numbers: widening keeps the value; sums and products are exact where they
/// fit; narrowing keeps a value that fits, and gives the largest number for one that does not.
pub proof fn law_u256_arithmetic(
    a: U256,
    b: U256,
    sum: U256,
    product: U256,
    small: u64,
    widened: U256,
    large: u128,
    widened_large: U256,
    narrowed: u64,
    fits: bool,
    zero: U256,
)
    requires
        call_ensures(U256::wrapping_add, (a, b), sum),
        call_ensures(U256::wrapping_mul, (a, b), product),
        call_ensures(U256::from_u64, (small,), widened),
        call_ensures(U256::from_u128, (large,), widened_large),
        call_ensures(U256::saturating_to_u64, (a,), narrowed),
        call_ensures(U256::fits_u64, (a,), fits),
        call_ensures(U256::zero, (), zero),
    ensures
        a@ + b@ < modulus() ==> sum@ == a@ + b@,
        a@ + b@ >= modulus() ==> sum@ == a@ + b@ - modulus(),
        a@ * b@ < modulus() ==> product@ == a@ * b@,
        widened@ == small,
        widened_large@ == large,
        narrowed <= a@,
        narrowed < a@ ==> narrowed == u64::MAX,
        fits <==> a@ <= u64::MAX,
        zero@ == 0,
{
    law_u256_value(a, b);
    law_u256_value(b, a);
    assert(0 <= a@ * b@) by (nonlinear_arith);
}

/// The logs of a block are those of all its receipts, one receipt after the other: those of a list
/// of receipts are those of its first part and then those of the rest, and those of a single
/// receipt are its own.
pub proof fn law_block_logs(
    first: Seq<OpReceiptView>,
    rest: Seq<OpReceiptView>,
    receipt: OpReceiptView,
)
    ensures
        block_logs(first + rest) == block_logs(first) + block_logs(rest),
        block_logs(seq![receipt]) == receipt.logs,
        block_logs(first.push(receipt)).len() == block_logs(first).len() + receipt.logs.len(),
        block_logs(Seq::empty()).len() == 0,
    decreases rest.len(),
{
    assert(seq![receipt].drop_last() =~= Seq::<OpReceiptView>::empty());
    assert(block_logs(Seq::empty()) =~= Seq::<LogView>::empty());
    assert(block_logs(seq![receipt]) =~= receipt.logs);
    assert(first.push(receipt).drop_last() =~= first);
    if rest.len() == 0 {
        assert(first + rest =~= first);
        assert(block_logs(first) + block_logs(rest) =~= block_logs(first));
    } else {
        law_block_logs(first, rest.drop_last(), receipt);
        assert((first + rest).drop_last() =~= first + rest.drop_last());
        assert(block_logs(first + rest) =~= block_logs(first) + block_logs(rest));
    }
}

/// Every log of every receipt is collected, and nothing else is: log `j` of receipt `i` stands
/// after all logs of the receipts before it, in its own place.
pub proof fn law_every_log_is_collected(
    receipts: Vec<OpReceipt>,
    logs: Vec<Log>,
    i: int,
    j: int,
)
    requires
        call_ensures(collect_logs, (&receipts,), logs),
        0 <= i < receipts@.len(),
        0 <= j < receipts@[i]@.logs.len(),
    ensures
        ({
            let before = block_logs(receipt_views(receipts@).take(i)).len();
            &&& before + j < logs@.len()
            &&& logs@[before + j]@ == receipts@[i]@.logs[j]
            &&& before + receipts@[i]@.logs.len() <= logs@.len()
            &&& i == 0 ==> before == 0
            &&& i + 1 == receipts@.len() ==> before + receipts@[i]@.logs.len() == logs@.len()
            &&& block_logs(receipt_views(receipts@).take(i + 1)).len() == before
                + receipts@[i]@.logs.len()
        }),
{
    let views = receipt_views(receipts@);
    let receipt = receipts@[i]@;
    assert(views[i] == receipt);
    law_block_logs(views.take(i), views.skip(i), receipt);
    law_block_logs(seq![receipt], views.skip(i + 1), receipt);
    assert(views.take(i) + views.skip(i) =~= views);
    assert(seq![receipt] + views.skip(i + 1) =~= views.skip(i));
    assert(views.take(i).push(receipt) =~= views.take(i + 1));
    assert(log_views(logs@).len() == logs@.len());
    let before = block_logs(views.take(i)).len();
    assert(block_logs(views) == block_logs(views.take(i)) + (receipt.logs + block_logs(
        views.skip(i + 1),
    )));
    assert(log_views(logs@)[before + j] == receipt.logs[j]);
    if i + 1 == receipts@.len() {
        assert(views.skip(i + 1) =~= Seq::empty());
    }
    if i == 0 {
        assert(views.take(i) =~= Seq::empty());
    }
}

/// What goes into a bloom filter is the address and the topics of each log, and what a transaction
/// root is computed of is the encoding of each transaction, each in its place.
pub proof fn law_root_inputs(logs: Seq<LogView>, txs: Seq<TxView>)
    ensures
        bloom_inputs(logs).len() == logs.len(),
        forall|i: int|
            0 <= i < logs.len() ==> (#[trigger] bloom_inputs(logs)[i]).0 == logs[i].address
                && bloom_inputs(logs)[i].1 == logs[i].topics,
        encodings(txs).len() == txs.len(),
        forall|i: int| 0 <= i < txs.len() ==> #[trigger] encodings(txs)[i] == txs[i].encoded,
{
}

/// The gas of a list of transactions is that of its first part and that of the rest, and the gas of
/// a single one is its own.
pub proof fn law_total_gas(first: Seq<u64>, rest: Seq<u64>, gas: u64)
    ensures
        total_gas(first + rest) == total_gas(first) + total_gas(rest),
        total_gas(seq![gas]) == gas,
        total_gas(Seq::empty()) == 0,
    decreases rest.len(),
{
    assert(seq![gas].drop_last() =~= Seq::<u64>::empty());
    assert(total_gas(Seq::empty()) == 0);
    if rest.len() == 0 {
        assert(first + rest =~= first);
    } else {
        law_total_gas(first, rest.drop_last(), gas);
        assert((first + rest).drop_last() =~= first + rest.drop_last());
    }
}

/// The kind of a receipt is that of its transaction, name for name.
pub proof fn law_transaction_kind(tx: OpTransactionSigned, kind: OpTxType)
    requires
        tx.tx_type !is Eip4844,
        call_ensures(OpTransactionSigned::op_tx_type, (&tx,), kind),
    ensures
        kind is Legacy <==> tx.tx_type is Legacy,
        kind is Eip2930 <==> tx.tx_type is Eip2930,
        kind is Eip1559 <==> tx.tx_type is Eip1559,
        kind is Eip7702 <==> tx.tx_type is Eip7702,
        kind is Deposit <==> tx.tx_type is Deposit,
{
}

} // verus!
