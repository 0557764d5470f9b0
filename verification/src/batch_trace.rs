//! What holds of the execution of a batch as a whole, however many steps it takes.

use vstd::prelude::*;

use crate::actions::trace::{commits, lemma_commits};
use crate::actions::tx_executor::{Origin, RunEvent};
use crate::payload_builder::{
    info_with, law_batch_fees_of_the_pool, law_batch_step_appends,
    law_batch_takes_new_transactions, tracked_info, BatchRun, BatchStage,
};
use crate::primitives::TxView;

verus! {

/// `states` are those of a run that took up `events`, one after the other.
pub open spec fn is_batch_trace(states: Seq<BatchRun>, events: Seq<RunEvent>) -> bool {
    &&& states.len() == events.len() + 1
    &&& forall|i: int| 0 <= i < states.len() ==> (#[trigger] states[i]).wf()
    &&& forall|i: int|
        0 <= i < events.len() ==> states[i].accepts(#[trigger] events[i]) && states[i].steps_to(
            events[i],
            states[i + 1],
        )
}

/// A trace without its last step is one too.
proof fn lemma_batch_trace_before(states: Seq<BatchRun>, events: Seq<RunEvent>)
    requires
        is_batch_trace(states, events),
        events.len() > 0,
    ensures
        is_batch_trace(states.drop_last(), events.drop_last()),
        states.drop_last()[0] == states[0],
        states.drop_last().last() == states[events.len() - 1],
        states[events.len() - 1].wf(),
        states[events.len() - 1].accepts(events.last()),
        states[events.len() - 1].steps_to(events.last(), states.last()),
{
    let earlier = events.drop_last();
    let shorter = states.drop_last();
    assert forall|i: int| 0 <= i < earlier.len() implies shorter[i].accepts(#[trigger] earlier[i])
        && shorter[i].steps_to(earlier[i], shorter[i + 1]) by {
        assert(earlier[i] == events[i]);
    }
    assert(events[events.len() - 1] == events.last());
}

/// The transactions that were committed on the way, in their order.
pub open spec fn batch_committed(states: Seq<BatchRun>, events: Seq<RunEvent>) -> Seq<TxView>
    decreases events.len(),
{
    if events.len() == 0 {
        Seq::empty()
    } else {
        let before = batch_committed(states.drop_last(), events.drop_last());
        match (states[events.len() - 1].stage, events.last()) {
            (BatchStage::Commit { executed, .. }, RunEvent::Committed) => before.push(
                executed@.tx.tx,
            ),
            _ => before,
        }
    }
}

/// The fees of the pool's transactions that were committed on the way: for each unit of gas that
/// one used, the tip that it pays over the base fee of the block.
pub open spec fn batch_committed_fees(states: Seq<BatchRun>, events: Seq<RunEvent>) -> int
    decreases events.len(),
{
    if events.len() == 0 {
        0
    } else {
        let run = states[events.len() - 1];
        batch_committed_fees(states.drop_last(), events.drop_last()) + match (
            run.stage,
            events.last(),
        ) {
            (
                BatchStage::Commit { origin: Origin::Pool { .. }, executed },
                RunEvent::Committed,
            ) => executed@.tx.tx.effective_tip_per_gas(run.ctx.spec_base_fee())->0
                * executed@.result.spec_gas_used(),
            _ => 0,
        }
    }
}

/// However a run goes, the block has at its end what it had at its beginning and then the
/// transactions that were committed on the way, in their order.
pub proof fn law_batch_is_what_was_committed(states: Seq<BatchRun>, events: Seq<RunEvent>)
    requires
        is_batch_trace(states, events),
    ensures
        states.last().ctx == states[0].ctx,
        states.last().info@.transactions == states[0].info@.transactions + batch_committed(
            states,
            events,
        ),
    decreases events.len(),
{
    let first = states[0].info@.transactions;
    if events.len() == 0 {
        assert(states.last() == states[0]);
        assert(first + batch_committed(states, events) =~= first);
    } else {
        lemma_batch_trace_before(states, events);
        law_batch_is_what_was_committed(states.drop_last(), events.drop_last());
        law_batch_step_appends(states[events.len() - 1], events.last(), states.last());
        assert(states.last().info@.transactions =~= first + batch_committed(states, events));
    }
}

/// However a run goes, the fees of the block grow by exactly those of the pool's transactions that
/// were committed on the way, and nothing wraps around. No other transaction adds to them.
pub proof fn law_fees_of_the_batch(states: Seq<BatchRun>, events: Seq<RunEvent>)
    requires
        is_batch_trace(states, events),
    ensures
        states.last().info@.total_fees == states[0].info@.total_fees + batch_committed_fees(
            states,
            events,
        ),
    decreases events.len(),
{
    if events.len() == 0 {
        assert(states.last() == states[0]);
    } else {
        lemma_batch_trace_before(states, events);
        law_fees_of_the_batch(states.drop_last(), events.drop_last());
        let run = states[events.len() - 1];
        law_batch_step_appends(run, events.last(), states.last());
        if events.last() is Committed {
            law_batch_fees_of_the_pool(run, states.last());
        }
    }
}

/// A run that takes transactions from the pool does so until it is done.
proof fn lemma_batch_until_done(states: Seq<BatchRun>, events: Seq<RunEvent>, limit: int)
    requires
        is_batch_trace(states, events),
        states[0].in_pool(limit),
    ensures
        states.last().in_pool(limit) || states.last().stage is Ended,
        events.len() > 0 ==> states[events.len() - 1].in_pool(limit),
    decreases events.len(),
{
    if events.len() > 0 {
        lemma_batch_trace_before(states, events);
        lemma_batch_until_done(states.drop_last(), events.drop_last(), limit);
    }
}

/// However many transactions of the pool a batch takes up, a block without duplicates has none
/// after them.
pub proof fn law_batch_adds_no_duplicate(
    states: Seq<BatchRun>,
    events: Seq<RunEvent>,
    limit: int,
)
    requires
        is_batch_trace(states, events),
        states[0].in_pool(limit),
        states[0].info@.transactions.no_duplicates(),
    ensures
        states.last().info@.transactions.no_duplicates(),
    decreases events.len(),
{
    if events.len() > 0 {
        lemma_batch_trace_before(states, events);
        lemma_batch_until_done(states, events, limit);
        law_batch_adds_no_duplicate(states.drop_last(), events.drop_last(), limit);
        let run = states[events.len() - 1];
        law_batch_step_appends(run, events.last(), states.last());
        if events.last() is Committed {
            law_batch_takes_new_transactions(run, states.last());
        }
    }
}

/// No transaction that was committed on the way used more gas than its own limit.
pub open spec fn batch_within_own_limits(states: Seq<BatchRun>, events: Seq<RunEvent>) -> bool {
    forall|i: int|
        0 <= i < events.len() ==> ((#[trigger] states[i]).stage matches BatchStage::Commit {
            executed,
            ..
        } ==> executed@.result.spec_gas_used() <= executed@.tx.tx.gas_limit)
}

/// However many transactions of the pool a batch takes up, none of which used more gas than its own
/// limit, the block stays within the gas limit of the batch. One that was beyond it before stays as
/// it was.
pub proof fn law_batch_keeps_gas_limit(states: Seq<BatchRun>, events: Seq<RunEvent>, limit: int)
    requires
        is_batch_trace(states, events),
        states[0].in_pool(limit),
        batch_within_own_limits(states, events),
    ensures
        states.last().info@.cumulative_gas_used <= limit || states.last().info == states[0].info,
    decreases events.len(),
{
    if events.len() > 0 {
        let n = events.len() - 1;
        lemma_batch_trace_before(states, events);
        lemma_batch_until_done(states, events, limit);
        assert forall|i: int| 0 <= i < n implies (
        (#[trigger] states.drop_last()[i]).stage matches BatchStage::Commit { executed, .. }
            ==> executed@.result.spec_gas_used() <= executed@.tx.tx.gas_limit) by {
            assert(states.drop_last()[i] == states[i]);
        }
        law_batch_keeps_gas_limit(states.drop_last(), events.drop_last(), limit);
        law_batch_step_appends(states[n], events.last(), states.last());
        if events.last() is Committed {
            law_batch_takes_new_transactions(states[n], states.last());
        }
    }
}

/// What the EVM executed is committed next, and the block takes up that very transaction with that
/// very result. Nothing else is ever committed.
pub proof fn law_batch_commit_follows_execution(
    states: Seq<BatchRun>,
    events: Seq<RunEvent>,
    at: int,
)
    requires
        is_batch_trace(states, events),
        0 <= at < events.len(),
    ensures
        events[at] matches RunEvent::Transacted(outcome) ==> {
            let run = states[at];
            &&& outcome matches Ok(result)
            &&& run.stage matches BatchStage::Execute { origin, tx, account }
            &&& states[at + 1].info == run.info
            &&& states[at + 1].stage is Commit
            &&& at + 1 < events.len() ==> {
                &&& events[at + 1] is Committed
                &&& states[at + 2].info@ == info_with(
                    run.info@,
                    tracked_info(origin, run.executor.executed(tx@, account, result)),
                )
            }
        },
        events[at] is Committed && at > 0 ==> events[at - 1] is Transacted,
        states[at + 1].stage is Commit ==> events[at] is Transacted,
{
    assert(states[at].accepts(events[at]) && states[at].steps_to(events[at], states[at + 1]));
    assert(states[at].wf() && states[at + 1].wf());
    if at + 1 < events.len() {
        assert(states[at + 1].accepts(events[at + 1]) && states[at + 1].steps_to(
            events[at + 1],
            states[at + 1 + 1],
        ));
    }
    if at > 0 {
        assert(states[at - 1].accepts(events[at - 1]) && states[at - 1].steps_to(
            events[at - 1],
            states[at - 1 + 1],
        ));
    }
}

/// From one execution to the next, and from the last one to the end of the run, there is exactly
/// one commit. Only a run that still waits for the commit has none yet.
pub proof fn law_batch_committed_exactly_once(
    states: Seq<BatchRun>,
    events: Seq<RunEvent>,
    from: int,
    to: int,
)
    requires
        is_batch_trace(states, events),
        0 <= from < to <= events.len(),
        events[from] is Transacted,
        forall|i: int| from < i < to ==> (#[trigger] events[i]) !is Transacted,
    ensures
        ({
            let count = commits(events.subrange(from + 1, to));
            if states[to].stage is Commit {
                count == 0 && to == from + 1
            } else {
                count == 1
            }
        }),
        to < events.len() && events[to] is Transacted ==> states[to].stage !is Commit,
{
    let between = events.subrange(from + 1, to);
    law_batch_commit_follows_execution(states, events, from);
    assert forall|i: int| 0 < i < between.len() implies (#[trigger] between[i]) !is Committed by {
        law_batch_commit_follows_execution(states, events, from + 1 + i);
        assert(events[from + i] !is Transacted);
    }
    lemma_commits(between);
    if to < events.len() && events[to] is Transacted {
        law_batch_commit_follows_execution(states, events, to);
    }
    if to > from + 1 {
        assert(between[0] == events[from + 1]);
        assert(events[to - 1] !is Transacted);
        law_batch_commit_follows_execution(states, events, to - 1);
    }
}

} // verus!
