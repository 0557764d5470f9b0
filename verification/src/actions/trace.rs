//! What holds of the execution of transactions as a whole, however many steps it takes.

use vstd::prelude::*;

use crate::actions::tx_executor::{
    law_fees_of_the_pool, law_pool_adds_no_duplicate, law_pool_keeps_gas_limit, law_step_appends,
    OpTransactionsActions, Origin, RunEvent, Stage, TransactionsRun,
};
use crate::primitives::TxView;

verus! {

/// `states` are those of a run that took up `events`, one after the other.
pub open spec fn is_trace<Actions: OpTransactionsActions>(
    states: Seq<TransactionsRun<Actions>>,
    events: Seq<RunEvent>,
) -> bool {
    &&& states.len() == events.len() + 1
    &&& forall|i: int| 0 <= i < states.len() ==> (#[trigger] states[i]).wf()
    &&& forall|i: int|
        0 <= i < events.len() ==> states[i].accepts(#[trigger] events[i]) && states[i].steps_to(
            events[i],
            states[i + 1],
        )
}

/// A trace without its last step is one too.
proof fn lemma_trace_before<Actions: OpTransactionsActions>(
    states: Seq<TransactionsRun<Actions>>,
    events: Seq<RunEvent>,
)
    requires
        is_trace(states, events),
        events.len() > 0,
    ensures
        is_trace(states.drop_last(), events.drop_last()),
        states.drop_last()[0] == states[0],
        states.drop_last().last() == states[events.len() - 1],
        states[events.len() - 1].wf(),
        states[events.len() - 1].accepts(events.last()),
        states[events.len() - 1].steps_to(events.last(), states.last()),
{
    let earlier = events.drop_last();
    let shorter = states.drop_last();
    assert forall|i: int| 0 <= i < earlier.len() implies shorter[i].accepts(#[trigger] earlier[i])
        && shorter[i].steps_to(earlier[i], shorter[i + 1]) by {
        assert(earlier[i] == events[i]);
    }
    assert(events[events.len() - 1] == events.last());
}

/// The transactions that were committed on the way, in their order.
pub open spec fn committed<Actions: OpTransactionsActions>(
    states: Seq<TransactionsRun<Actions>>,
    events: Seq<RunEvent>,
) -> Seq<TxView>
    decreases events.len(),
{
    if events.len() == 0 {
        Seq::empty()
    } else {
        let before = committed(states.drop_last(), events.drop_last());
        match (states[events.len() - 1].stage, events.last()) {
            (Stage::Commit { tx, .. }, RunEvent::Committed) => before.push(tx@.tx),
            _ => before,
        }
    }
}

/// The gas that each transaction used that was committed on the way.
pub open spec fn committed_gas<Actions: OpTransactionsActions>(
    states: Seq<TransactionsRun<Actions>>,
    events: Seq<RunEvent>,
) -> Seq<u64>
    decreases events.len(),
{
    if events.len() == 0 {
        Seq::empty()
    } else {
        let before = committed_gas(states.drop_last(), events.drop_last());
        match (states[events.len() - 1].stage, events.last()) {
            (Stage::Commit { result, .. }, RunEvent::Committed) => before.push(
                result.result.spec_gas_used(),
            ),
            _ => before,
        }
    }
}

/// The fees of the pool's transactions that were committed on the way: for each unit of gas that
/// one used, the tip that it pays over the base fee of the block.
pub open spec fn committed_fees<Actions: OpTransactionsActions>(
    states: Seq<TransactionsRun<Actions>>,
    events: Seq<RunEvent>,
) -> int
    decreases events.len(),
{
    if events.len() == 0 {
        0
    } else {
        let run = states[events.len() - 1];
        committed_fees(states.drop_last(), events.drop_last()) + match (run.stage, events.last()) {
            (
                Stage::Commit { origin: Origin::Pool { .. }, tx, result },
                RunEvent::Committed,
            ) => tx@.tx.effective_tip_per_gas(run.ctx.spec_base_fee())->0
                * result.result.spec_gas_used(),
            _ => 0,
        }
    }
}

/// However a run goes, the block has at its end what it had at its beginning and then the
/// transactions that were committed on the way, in their order; and what each of them used is what
/// the receipts and the gas of the block are reckoned from.
pub proof fn law_block_is_what_was_committed<Actions: OpTransactionsActions>(
    states: Seq<TransactionsRun<Actions>>,
    events: Seq<RunEvent>,
)
    requires
        is_trace(states, events),
    ensures
        states.last().ctx == states[0].ctx,
        states.last().info@.transactions == states[0].info@.transactions + committed(
            states,
            events,
        ),
        states.last().gas@ == states[0].gas@ + committed_gas(states, events),
    decreases events.len(),
{
    let first = states[0].info@.transactions;
    if events.len() == 0 {
        assert(states.last() == states[0]);
        assert(first + committed(states, events) =~= first);
        assert(states[0].gas@ + committed_gas(states, events) =~= states[0].gas@);
    } else {
        lemma_trace_before(states, events);
        law_block_is_what_was_committed(states.drop_last(), events.drop_last());
        law_step_appends(states[events.len() - 1], events.last(), states.last());
        assert(states.last().info@.transactions =~= first + committed(states, events));
        assert(states.last().gas@ =~= states[0].gas@ + committed_gas(states, events));
    }
}

/// However a run goes, the fees of the block grow by exactly those of the pool's transactions that
/// were committed on the way, and nothing wraps around. No other transaction adds to them.
pub proof fn law_fees_of_the_run<Actions: OpTransactionsActions>(
    states: Seq<TransactionsRun<Actions>>,
    events: Seq<RunEvent>,
)
    requires
        is_trace(states, events),
    ensures
        states.last().info@.total_fees == states[0].info@.total_fees + committed_fees(
            states,
            events,
        ),
    decreases events.len(),
{
    if events.len() == 0 {
        assert(states.last() == states[0]);
    } else {
        lemma_trace_before(states, events);
        law_fees_of_the_run(states.drop_last(), events.drop_last());
        let run = states[events.len() - 1];
        law_step_appends(run, events.last(), states.last());
        if events.last() is Committed {
            law_fees_of_the_pool(run, states.last());
        }
    }
}

/// A run that takes transactions from the pool does so until it is done.
proof fn lemma_pool_until_done<Actions: OpTransactionsActions>(
    states: Seq<TransactionsRun<Actions>>,
    events: Seq<RunEvent>,
    limit: int,
)
    requires
        is_trace(states, events),
        states[0].in_pool(limit),
    ensures
        states.last().in_pool(limit) || states.last().stage is Ended,
        events.len() > 0 ==> states[events.len() - 1].in_pool(limit),
    decreases events.len(),
{
    if events.len() > 0 {
        lemma_trace_before(states, events);
        lemma_pool_until_done(states.drop_last(), events.drop_last(), limit);
    }
}

/// However many transactions of the pool are taken up, a block without duplicates has none after
/// them.
pub proof fn law_pool_run_adds_no_duplicate<Actions: OpTransactionsActions>(
    states: Seq<TransactionsRun<Actions>>,
    events: Seq<RunEvent>,
    limit: int,
)
    requires
        is_trace(states, events),
        states[0].in_pool(limit),
        states[0].info@.transactions.no_duplicates(),
    ensures
        states.last().info@.transactions.no_duplicates(),
    decreases events.len(),
{
    if events.len() > 0 {
        lemma_trace_before(states, events);
        lemma_pool_until_done(states, events, limit);
        law_pool_run_adds_no_duplicate(states.drop_last(), events.drop_last(), limit);
        let run = states[events.len() - 1];
        law_step_appends(run, events.last(), states.last());
        if events.last() is Committed {
            law_pool_adds_no_duplicate(run, states.last());
        }
    }
}

/// No transaction that was committed on the way used more gas than its own limit.
pub open spec fn within_own_limits<Actions: OpTransactionsActions>(
    states: Seq<TransactionsRun<Actions>>,
    events: Seq<RunEvent>,
) -> bool {
    forall|i: int|
        0 <= i < events.len() ==> ((#[trigger] states[i]).stage matches Stage::Commit {
            tx,
            result,
            ..
        } ==> result.result.spec_gas_used() <= tx.tx.gas_limit)
}

/// However many transactions of the pool are taken up, none of which used more gas than its own
/// limit, the block stays within the gas limit that they are taken up to. One that was beyond it
/// before stays as it was.
pub proof fn law_pool_run_keeps_gas_limit<Actions: OpTransactionsActions>(
    states: Seq<TransactionsRun<Actions>>,
    events: Seq<RunEvent>,
    limit: int,
)
    requires
        is_trace(states, events),
        states[0].in_pool(limit),
        within_own_limits(states, events),
    ensures
        states.last().info@.cumulative_gas_used <= limit || states.last().info == states[0].info,
    decreases events.len(),
{
    if events.len() > 0 {
        let n = events.len() - 1;
        lemma_trace_before(states, events);
        lemma_pool_until_done(states, events, limit);
        assert forall|i: int| 0 <= i < n implies (
        (#[trigger] states.drop_last()[i]).stage matches Stage::Commit { tx, result, .. }
            ==> result.result.spec_gas_used() <= tx.tx.gas_limit) by {
            assert(states.drop_last()[i] == states[i]);
        }
        law_pool_run_keeps_gas_limit(states.drop_last(), events.drop_last(), limit);
        law_step_appends(states[n], events.last(), states.last());
        if events.last() is Committed {
            law_pool_keeps_gas_limit(states[n], states.last());
        }
    }
}

/// How many commits there are among some events.
pub open spec fn commits(events: Seq<RunEvent>) -> nat
    decreases events.len(),
{
    if events.len() == 0 {
        0
    } else {
        commits(events.drop_last()) + if events.last() is Committed {
            1nat
        } else {
            0
        }
    }
}

/// Where at most the first of some events is a commit, there is as many of them as that.
pub(crate) proof fn lemma_commits(events: Seq<RunEvent>)
    requires
        forall|i: int| 0 < i < events.len() ==> (#[trigger] events[i]) !is Committed,
    ensures
        commits(events) == if events.len() > 0 && events[0] is Committed {
            1nat
        } else {
            0
        },
    decreases events.len(),
{
    if events.len() > 0 {
        let before = events.drop_last();
        assert forall|i: int| 0 < i < before.len() implies (#[trigger] before[i]) !is Committed by {
            assert(before[i] == events[i]);
        }
        lemma_commits(before);
    }
}

/// What the EVM executed with success is committed next, and the block takes up that very
/// transaction with that very result. What it refused leaves the block as it was, and is not
/// committed. Nothing else is ever committed.
pub proof fn law_commit_follows_success<Actions: OpTransactionsActions>(
    states: Seq<TransactionsRun<Actions>>,
    events: Seq<RunEvent>,
    at: int,
)
    requires
        is_trace(states, events),
        0 <= at < events.len(),
    ensures
        events[at] matches RunEvent::Transacted(Ok(result)) ==> {
            let run = states[at];
            &&& run.stage matches Stage::Transact { origin, tx, nonce }
            &&& states[at + 1].info == run.info
            &&& states[at + 1].stage == Stage::Commit {
                origin,
                tx,
                result: run.executor.spec_executed(tx@, nonce, result),
            }
            &&& at + 1 < events.len() ==> {
                &&& events[at + 1] is Committed
                &&& states[at + 2].info@ == run.info@.push(
                    tx@,
                    run.executor.spec_executed(tx@, nonce, result).spec_receipt(),
                    result.spec_gas_used(),
                    run.tracked_fee(origin, tx@.tx, result.spec_gas_used()),
                )
            }
        },
        events[at] matches RunEvent::Transacted(Err(_)) ==> {
            &&& states[at].stage is Transact
            &&& states[at + 1].info == states[at].info
            &&& states[at + 1].stage !is Commit
            &&& at + 1 < events.len() ==> events[at + 1] !is Committed
        },
        events[at] is Committed && at > 0 ==> (events[at - 1] matches RunEvent::Transacted(outcome)
            && outcome is Ok),
        states[at + 1].stage is Commit ==> events[at] is Transacted,
{
    assert(states[at].accepts(events[at]) && states[at].steps_to(events[at], states[at + 1]));
    assert(states[at].wf() && states[at + 1].wf());
    if at + 1 < events.len() {
        assert(states[at + 1].accepts(events[at + 1]) && states[at + 1].steps_to(
            events[at + 1],
            states[at + 1 + 1],
        ));
    }
    if at > 0 {
        assert(states[at - 1].accepts(events[at - 1]) && states[at - 1].steps_to(
            events[at - 1],
            states[at - 1 + 1],
        ));
    }
}

/// From one execution to the next, and from the last one to the end of the run, there is exactly
/// one commit if the EVM executed the transaction with success, and none if it refused it. Only a
/// run that still waits for the commit has none yet.
pub proof fn law_committed_exactly_once<Actions: OpTransactionsActions>(
    states: Seq<TransactionsRun<Actions>>,
    events: Seq<RunEvent>,
    from: int,
    to: int,
)
    requires
        is_trace(states, events),
        0 <= from < to <= events.len(),
        events[from] is Transacted,
        forall|i: int| from < i < to ==> (#[trigger] events[i]) !is Transacted,
    ensures
        ({
            let count = commits(events.subrange(from + 1, to));
            match events[from] {
                RunEvent::Transacted(Ok(_)) => if states[to].stage is Commit {
                    count == 0 && to == from + 1
                } else {
                    count == 1
                },
                _ => count == 0,
            }
        }),
        to < events.len() && events[to] is Transacted ==> states[to].stage !is Commit,
{
    let between = events.subrange(from + 1, to);
    law_commit_follows_success(states, events, from);
    assert forall|i: int| 0 < i < between.len() implies (#[trigger] between[i]) !is Committed by {
        law_commit_follows_success(states, events, from + 1 + i);
        assert(events[from + i] !is Transacted);
    }
    lemma_commits(between);
    if to < events.len() && events[to] is Transacted {
        law_commit_follows_success(states, events, to);
    }
    if to > from + 1 {
        assert(between[0] == events[from + 1]);
        assert(events[to - 1] !is Transacted);
        law_commit_follows_success(states, events, to - 1);
    }
}

} // verus!
