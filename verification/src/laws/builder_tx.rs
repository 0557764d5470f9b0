//! What the builder's own transaction carries, costs and says.

use vstd::prelude::*;

use crate::actions::builder_tx::{
    block_message, builder_tx, builder_tx_gas, decimal, estimate_gas_for_builder_tx,
    lemma_zero_bytes_push, message_prefix, zero_bytes, DefaultBuilderTxActions, TxEip1559, TxKind,
};
use crate::actions::tx_executor::{OpTransactionsActions, Origin, Stage, TransactionsRun};
use crate::components::payload_context::OpPayloadBuilderCtx;
use crate::laws::runs::only_stage;
use crate::payload_builder_vanilla::{reserve_builder_gas, VanillaOpBuilderStrategy};
use crate::primitives::Recovered;

verus! {

/// The number that some ASCII digits stand for.
pub open spec fn read_decimal(digits: Seq<u8>) -> int
    decreases digits.len(),
{
    if digits.len() == 0 {
        0
    } else {
        10 * read_decimal(digits.drop_last()) + (digits.last() - 48)
    }
}

/// The digits of a number stand for it. All are digits, there is at least one, and the first is not
/// zero unless the number is.
pub proof fn law_digits_stand_for_number(n: nat)
    ensures
        read_decimal(decimal(n)) == n,
        decimal(n).len() > 0,
        forall|i: int| 0 <= i < decimal(n).len() ==> 48 <= #[trigger] decimal(n)[i] <= 57,
        n > 0 ==> decimal(n)[0] != 48,
        n == 0 ==> decimal(n).len() == 1,
    decreases n,
{
    if n < 10 {
        assert(decimal(n).drop_last() =~= Seq::empty());
        assert(read_decimal(Seq::empty()) == 0);
    } else {
        law_digits_stand_for_number(n / 10);
        assert(decimal(n).drop_last() =~= decimal(n / 10));
    }
}

/// The message says `Block Number: ` and then the number of the block.
pub open spec fn says_block_number(message: Seq<u8>, number: int) -> bool {
    let words = "Block Number: "@;
    &&& message.len() > words.len()
    &&& forall|i: int| 0 <= i < words.len() ==> #[trigger] message[i] == words[i] as u8
    &&& read_decimal(message.skip(words.len() as int)) == number
    &&& forall|i: int| words.len() <= i < message.len() ==> 48 <= #[trigger] message[i] <= 57
    &&& number > 0 ==> message[words.len() as int] != 48
    &&& number == 0 ==> message.len() == words.len() + 1
}

/// The message of the builder's transaction says the number of the block, in words.
pub proof fn law_message_says_block_number(
    strategy: VanillaOpBuilderStrategy,
    ctx: OpPayloadBuilderCtx,
    message: Vec<u8>,
)
    requires
        ctx.wf(),
        call_ensures(block_message, (&ctx,), message) || call_ensures(
            <VanillaOpBuilderStrategy as DefaultBuilderTxActions>::block_message,
            (&strategy, &ctx),
            message,
        ),
    ensures
        says_block_number(message@, ctx.initialized_block_env.number@ as int),
{
    reveal_strlit("Block Number: ");
    let number = ctx.initialized_block_env.number@;
    law_digits_stand_for_number(number);
    assert(message@ == message_prefix() + decimal(number));
    assert(message@.skip(14) =~= decimal(number));
    assert forall|i: int| 14 <= i < message@.len() implies 48 <= #[trigger] message@[i] <= 57 by {
        assert(message@[i] == decimal(number)[i - 14]);
    }
    assert(message@[14] == decimal(number)[0]);
}

/// Zero bytes count up over a longer input.
proof fn lemma_zero_bytes_join(first: Seq<u8>, rest: Seq<u8>)
    ensures
        zero_bytes(first + rest) == zero_bytes(first) + zero_bytes(rest),
    decreases rest.len(),
{
    reveal(Seq::filter);
    if rest.len() == 0 {
        assert(first + rest =~= first);
    } else {
        lemma_zero_bytes_join(first, rest.drop_last());
        assert((first + rest.drop_last()).push(rest.last()) =~= first + rest);
        assert(rest.drop_last().push(rest.last()) =~= rest);
        lemma_zero_bytes_push(first + rest.drop_last(), rest.last());
        lemma_zero_bytes_push(rest.drop_last(), rest.last());
    }
}

/// A transaction costs 21000 gas without input. Each byte of input adds to that, 4 where it is zero
/// and 16 else, wherever it stands and whatever stands around it.
pub proof fn law_cost_of_input(first: Seq<u8>, byte: u8, rest: Seq<u8>)
    ensures
        builder_tx_gas(Seq::empty()) == 21_000,
        builder_tx_gas(first.push(byte) + rest) == builder_tx_gas(first + rest) + if byte == 0 {
            4int
        } else {
            16
        },
{
    reveal(Seq::filter);
    lemma_zero_bytes_join(first.push(byte), rest);
    lemma_zero_bytes_join(first, rest);
    lemma_zero_bytes_push(first, byte);
}

/// A transaction costs no less than one without input.
pub(crate) proof fn lemma_cost_is_positive(input: Seq<u8>)
    ensures
        builder_tx_gas(input) >= 21_000,
    decreases input.len(),
{
    if input.len() == 0 {
        law_cost_of_input(input, 0, input);
        assert(input =~= Seq::empty());
    } else {
        lemma_cost_is_positive(input.drop_last());
        law_cost_of_input(input.drop_last(), input.last(), Seq::empty());
        assert(input.drop_last().push(input.last()) + Seq::<u8>::empty() =~= input);
        assert(input.drop_last() + Seq::<u8>::empty() =~= input.drop_last());
    }
}

/// The estimate is that cost, and what is set aside for the builder's transaction is the estimate
/// where there is a signer, and nothing where there is none.
pub proof fn law_gas_is_set_aside(
    ctx: OpPayloadBuilderCtx,
    message: Vec<u8>,
    estimate: u64,
    reserved: u64,
)
    requires
        call_ensures(estimate_gas_for_builder_tx, (&message,), estimate),
        call_ensures(reserve_builder_gas, (&ctx, &message), reserved),
    ensures
        estimate == builder_tx_gas(message@),
        ctx.builder_signer is Some ==> reserved == estimate,
        ctx.builder_signer is None ==> reserved == 0,
{
}

/// The builder's transaction is on the chain of the payload, has the nonce and the gas limit given,
/// pays the base fee and no tip, sends nothing to the zero address, and carries the message.
pub proof fn law_builder_transaction(
    ctx: OpPayloadBuilderCtx,
    nonce: u64,
    gas_limit: u64,
    message: Vec<u8>,
    tx: TxEip1559,
)
    requires
        ctx.wf(),
        call_ensures(builder_tx, (&ctx, nonce, gas_limit, message), tx),
    ensures
        tx.chain_id == ctx.chain_spec.chain_id,
        tx.nonce == nonce,
        tx.gas_limit == gas_limit,
        tx.max_fee_per_gas == ctx.initialized_block_env.basefee@,
        tx.max_priority_fee_per_gas == 0,
        tx.value@ == 0,
        tx.to matches TxKind::Call(to) && forall|i: int| 0 <= i < 20 ==> to.bytes@[i] == 0,
        tx.input@ == message@,
{
}

/// The builder's transaction is begun where there is a signer, with the nonce of that signer's
/// account; without a signer none is added.
pub proof fn law_builder_transaction_begins<Actions: OpTransactionsActions>(
    run: &mut TransactionsRun<Actions>,
    gas_limit: u64,
    message: Vec<u8>,
)
    requires
        call_ensures(TransactionsRun::<Actions>::add_builder_tx, (run, gas_limit, message), ()),
    ensures
        *final(run) == (TransactionsRun {
            stage: final(run).stage,
            past_sequencer: true,
            ..*old(run)
        }),
        match old(run).ctx.builder_signer {
            Some(signer) => final(run).stage == (Stage::BuilderNonce {
                address: signer.address,
                gas_limit,
                message,
            }),
            None => final(run).stage == (Stage::BuilderDone { added: false }),
        },
{
}

/// With the nonce of its account the builder's transaction waits for its signature: it has that
/// nonce, the gas limit that was set aside, and the message. Without a nonce it is given up.
pub proof fn law_builder_nonce_comes_in<Actions: OpTransactionsActions>(
    run: &mut TransactionsRun<Actions>,
    nonce: Result<u64, ()>,
)
    requires
        old(run).wf(),
        old(run).stage is BuilderNonce,
        call_ensures(TransactionsRun::<Actions>::on_builder_nonce, (run, nonce), ()),
    ensures
        only_stage(*old(run), *final(run)),
        match nonce {
            Ok(nonce) => {
                &&& final(run).stage matches Stage::BuilderSign { tx }
                &&& tx.chain_id == old(run).ctx.chain_spec.chain_id
                &&& tx.nonce == nonce
                &&& tx.gas_limit == old(run).stage->BuilderNonce_gas_limit
                &&& tx.max_fee_per_gas == old(run).ctx.initialized_block_env.basefee@
                &&& tx.max_priority_fee_per_gas == 0
                &&& tx.value@ == 0
                &&& tx.input@ == old(run).stage->BuilderNonce_message@
                &&& tx.to matches TxKind::Call(to) && forall|i: int|
                    0 <= i < 20 ==> to.bytes@[i] == 0
            },
            Err(_) => final(run).stage == (Stage::BuilderDone { added: false }),
        },
{
}

/// The signed transaction is executed next. Without it the builder's transaction is given up.
pub proof fn law_signature_comes_in<Actions: OpTransactionsActions>(
    run: &mut TransactionsRun<Actions>,
    signed: Result<Recovered, ()>,
)
    requires
        call_ensures(TransactionsRun::<Actions>::on_builder_signed, (run, signed), ()),
    ensures
        only_stage(*old(run), *final(run)),
        match signed {
            Ok(tx) => final(run).stage == (Stage::Transact {
                origin: Origin::Builder,
                tx,
                nonce: None,
            }),
            Err(_) => final(run).stage == (Stage::BuilderDone { added: false }),
        },
{
}

} // verus!
