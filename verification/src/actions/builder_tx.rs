//! The transaction that the builder itself adds at the end of a block.

use vstd::prelude::*;

use crate::components::payload_context::OpPayloadBuilderCtx;
use crate::primitives::Address;
use crate::u256::U256;

verus! {

/// Where a transaction goes.
#[derive(Clone, Copy, Debug, PartialEq, Eq)]
pub enum TxKind {
    Create,
    Call(Address),
}

/// An unsigned EIP-1559 transaction with an empty access list.
#[derive(Debug, PartialEq, Eq)]
pub struct TxEip1559 {
    pub chain_id: u64,
    pub nonce: u64,
    pub gas_limit: u64,
    pub max_fee_per_gas: u128,
    pub max_priority_fee_per_gas: u128,
    pub to: TxKind,
    pub value: U256,
    pub input: Vec<u8>,
}

/// The decimal digits of `n`, in ASCII, most significant first.
pub open spec fn decimal(n: nat) -> Seq<u8>
    decreases n,
{
    if n < 10 {
        seq![(48 + n) as u8]
    } else {
        decimal(n / 10).push((48 + n % 10) as u8)
    }
}

/// `Block Number: ` in ASCII.
pub open spec fn message_prefix() -> Seq<u8> {
    seq![66u8, 108, 111, 99, 107, 32, 78, 117, 109, 98, 101, 114, 58, 32]
}

/// Appends the decimal digits of `n`.
fn push_decimal(out: &mut Vec<u8>, n: u64)
    ensures
        final(out)@ == old(out)@ + decimal(n as nat),
    decreases n,
{
    let ghost before = out@;
    if n >= 10 {
        push_decimal(out, n / 10);
    }
    out.push(48 + (n % 10) as u8);
    assert(out@ =~= before + decimal(n as nat));
}

/// How many bytes of `input` are zero.
pub open spec fn zero_bytes(input: Seq<u8>) -> nat {
    input.filter(|byte: u8| byte == 0).len()
}

/// The cost of a transaction that carries `input`: 4 gas for a zero byte, 16 for any other, and
/// 21000 for the transaction itself.
pub open spec fn builder_tx_gas(input: Seq<u8>) -> int {
    21_000 + 4 * zero_bytes(input) + 16 * (input.len() - zero_bytes(input))
}

/// One more byte adds to the zero bytes if it is zero itself.
pub(crate) proof fn lemma_zero_bytes_push(input: Seq<u8>, byte: u8)
    ensures
        zero_bytes(input.push(byte)) == zero_bytes(input) + if byte == 0 {
            1nat
        } else {
            0nat
        },
{
    reveal(Seq::filter);
    assert(input.push(byte).drop_last() =~= input);
}

/// The gas that the builder's transaction needs to carry `input`: 4 for a zero byte, 16 for any
/// other, and 21000 for the transaction itself.
pub fn estimate_gas_for_builder_tx(input: &Vec<u8>) -> (r: u64)
    requires
        21_000 + 16 * input.len() <= u64::MAX,
    ensures
        r == builder_tx_gas(input@),
{
    let mut zeros: u64 = 0;
    let mut nonzeros: u64 = 0;
    let mut i: usize = 0;
    proof {
        reveal(Seq::filter);
        assert(input@.take(0) =~= Seq::empty());
    }
    while i < input.len()
        invariant
            i <= input.len(),
            21_000 + 16 * input.len() <= u64::MAX,
            zeros == zero_bytes(input@.take(i as int)),
            zeros + nonzeros == i,
        decreases input.len() - i,
    {
        proof {
            assert(input@.take(i + 1) =~= input@.take(i as int).push(input@[i as int]));
            lemma_zero_bytes_push(input@.take(i as int), input@[i as int]);
        }
        if input[i] == 0 {
            zeros = zeros + 1;
        } else {
            nonzeros = nonzeros + 1;
        }
        i += 1;
    }
    assert(input@.take(input.len() as int) =~= input@);
    zeros * 4 + nonzeros * 16 + 21_000
}

/// Ten to the `k`th.
spec fn ten_to(k: nat) -> nat
    decreases k,
{
    if k == 0 {
        1
    } else {
        10 * ten_to((k - 1) as nat)
    }
}

/// A number below ten to the `k`th has at most `k` decimal digits, and none is the zero byte.
proof fn lemma_decimal_below(n: nat, k: nat)
    requires
        k >= 1,
        n < ten_to(k),
    ensures
        1 <= decimal(n).len() <= k,
        forall|i: int| 0 <= i < decimal(n).len() ==> 48 <= #[trigger] decimal(n)[i] <= 57,
    decreases k,
{
    reveal_with_fuel(ten_to, 2);
    if n >= 10 {
        lemma_decimal_below(n / 10, (k - 1) as nat);
    }
}

/// A 64-bit number has at most 20 decimal digits.
proof fn lemma_decimal(n: u64)
    ensures
        1 <= decimal(n as nat).len() <= 20,
        forall|i: int| 0 <= i < decimal(n as nat).len() ==> 48 <= #[trigger] decimal(n as nat)[i]
            <= 57,
{
    reveal_with_fuel(ten_to, 21);
    lemma_decimal_below(n as nat, 20);
}

/// No byte of `input` is zero where all are above it.
proof fn lemma_no_zero_bytes(input: Seq<u8>)
    requires
        forall|i: int| 0 <= i < input.len() ==> #[trigger] input[i] != 0,
    ensures
        zero_bytes(input) == 0,
    decreases input.len(),
{
    reveal(Seq::filter);
    if input.len() > 0 {
        lemma_no_zero_bytes(input.drop_last());
    }
}

/// A block message is short, and its transaction costs 16 gas for each of its bytes above the
/// base cost: one for each character of the words, and one for each digit of the number.
pub proof fn law_block_message_gas(block_number: u64)
    ensures
        15 <= message_for(block_number).len() <= 34,
        builder_tx_gas(message_for(block_number)) == 21_000 + 16 * (14 + decimal(
            block_number as nat,
        ).len()),
{
    let message = message_for(block_number);
    lemma_decimal(block_number);
    assert forall|i: int| 0 <= i < message.len() implies #[trigger] message[i] != 0 by {
        if i >= 14 {
            assert(message[i] == decimal(block_number as nat)[i - 14]);
        }
    }
    lemma_no_zero_bytes(message);
}

/// The message that the builder's transaction carries.
pub open spec fn message_for(block_number: u64) -> Seq<u8> {
    message_prefix() + decimal(block_number as nat)
}

/// Creates the message that the builder transaction carries: the block number, in words.
pub fn block_message(ctx: &OpPayloadBuilderCtx) -> (r: Vec<u8>)
    requires
        ctx.initialized_block_env.number@ <= u64::MAX,
    ensures
        r@ == message_for(ctx.spec_block_number()),
{
    let mut out: Vec<u8> = vec![66, 108, 111, 99, 107, 32, 78, 117, 109, 98, 101, 114, 58, 32];
    assert(out@ =~= message_prefix());
    push_decimal(&mut out, ctx.block_number());
    out
}

/// The part of a strategy that has to do with the builder's transaction. A strategy of its own may
/// carry another message.
pub trait DefaultBuilderTxActions {
    /// Creates the message to carry in the builder transaction. The gas that it costs fits 64 bits.
    fn block_message(&self, ctx: &OpPayloadBuilderCtx) -> (r: Vec<u8>)
        requires
            ctx.wf(),
        ensures
            21_000 + 16 * r@.len() <= u64::MAX,
    ;
}

/// `tx` calls the zero address, carries `message` and pays the base fee, and no more than that.
pub open spec fn is_builder_tx(
    tx: TxEip1559,
    ctx: OpPayloadBuilderCtx,
    nonce: u64,
    gas_limit: u64,
    message: Seq<u8>,
) -> bool {
    &&& tx.chain_id == ctx.chain_spec.chain_id
    &&& tx.nonce == nonce
    &&& tx.gas_limit == gas_limit
    &&& tx.max_fee_per_gas == ctx.spec_base_fee()
    &&& tx.max_priority_fee_per_gas == 0
    &&& tx.to matches TxKind::Call(to) && to.bytes@ == Seq::new(20, |i: int| 0u8)
    &&& tx.value@ == 0
    &&& tx.input@ == message
}

/// The transaction that the builder signs: a call of the zero address that carries `message`
/// and pays the base fee, and no more than that.
pub fn builder_tx(ctx: &OpPayloadBuilderCtx, nonce: u64, gas_limit: u64, message: Vec<u8>) -> (r:
    TxEip1559)
    requires
        ctx.initialized_block_env.basefee@ <= u64::MAX,
    ensures
        is_builder_tx(r, *ctx, nonce, gas_limit, message@),
{
    let zero = Address { bytes: [0u8; 20] };
    assert(zero.bytes@ =~= Seq::new(20, |i: int| 0u8));
    TxEip1559 {
        chain_id: ctx.chain_id(),
        nonce,
        gas_limit,
        max_fee_per_gas: ctx.base_fee() as u128,
        max_priority_fee_per_gas: 0,
        to: TxKind::Call(zero),
        value: U256::zero(),
        input: message,
    }
}

} // verus!
