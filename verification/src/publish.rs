//! Who stays subscribed to the payloads that are published.

use vstd::prelude::*;

verus! {

/// A message was delivered at once and without an error. One that is still under way was not.
pub open spec fn is_delivered(outcome: Option<bool>) -> bool {
    outcome == Some(true)
}

/// Those of `subscribers` whose message was delivered, in their order.
pub open spec fn delivered_to<T>(subscribers: Seq<T>, outcomes: Seq<Option<bool>>) -> Seq<T>
    recommends
        subscribers.len() == outcomes.len(),
    decreases subscribers.len(),
{
    if subscribers.len() == 0 {
        Seq::empty()
    } else {
        let before = delivered_to(subscribers.drop_last(), outcomes.drop_last());
        if is_delivered(outcomes.last()) {
            before.push(subscribers.last())
        } else {
            before
        }
    }
}

/// Removes the subscribers that a message could not be delivered to. `outcomes` says of each
/// whether the message was sent, or `None` where that was not known at once.
pub fn retain_delivered<T>(subscribers: &mut Vec<T>, outcomes: &Vec<Option<bool>>)
    requires
        old(subscribers).len() == outcomes.len(),
    ensures
        final(subscribers)@ == delivered_to(old(subscribers)@, outcomes@),
{
    let ghost all = subscribers@;
    let mut seen: usize = 0;
    let mut kept: usize = 0;
    assert(subscribers@ =~= delivered_to(all.take(0), outcomes@.take(0)) + all.skip(0));
    while seen < outcomes.len()
        invariant
            all.len() == outcomes.len(),
            seen <= outcomes.len(),
            kept <= seen,
            delivered_to(all.take(seen as int), outcomes@.take(seen as int)).len() == kept,
            subscribers@ == delivered_to(all.take(seen as int), outcomes@.take(seen as int))
                + all.skip(seen as int),
        decreases outcomes.len() - seen,
    {
        proof {
            assert(all.take(seen + 1).drop_last() =~= all.take(seen as int));
            assert(outcomes@.take(seen + 1).drop_last() =~= outcomes@.take(seen as int));
            assert(subscribers@[kept as int] == all[seen as int]);
        }
        let ghost before = subscribers@;
        let delivered = match outcomes[seen] {
            Some(sent) => sent,
            None => false,
        };
        if delivered {
            assert(before =~= delivered_to(all.take(seen + 1), outcomes@.take(seen + 1)) + all.skip(
                seen + 1,
            ));
            kept += 1;
        } else {
            let _ = subscribers.remove(kept);
            assert(subscribers@ =~= delivered_to(all.take(seen + 1), outcomes@.take(seen + 1))
                + all.skip(seen + 1));
        }
        seen += 1;
    }
    assert(all.take(all.len() as int) =~= all);
    assert(outcomes@.take(all.len() as int) =~= outcomes@);
    assert(subscribers@ =~= delivered_to(all, outcomes@));
}

/// Nobody who got the message is removed, and all who did not are gone.
pub proof fn law_subscribers_stay_iff_delivered<T>(
    subscribers: Seq<T>,
    outcomes: Seq<Option<bool>>,
    subscriber: T,
)
    requires
        subscribers.len() == outcomes.len(),
    ensures
        delivered_to(subscribers, outcomes).contains(subscriber) <==> exists|i: int|
            0 <= i < subscribers.len() && #[trigger] subscribers[i] == subscriber && is_delivered(
                outcomes[i],
            ),
    decreases subscribers.len(),
{
    if subscribers.len() > 0 {
        let shorter = subscribers.drop_last();
        let before = delivered_to(shorter, outcomes.drop_last());
        let last = subscribers.len() - 1;
        law_subscribers_stay_iff_delivered(shorter, outcomes.drop_last(), subscriber);
        if before.contains(subscriber) {
            let i = choose|i: int|
                0 <= i < shorter.len() && #[trigger] shorter[i] == subscriber && is_delivered(
                    outcomes.drop_last()[i],
                );
            assert(subscribers[i] == subscriber);
            if is_delivered(outcomes.last()) {
                let at = choose|at: int| 0 <= at < before.len() && before[at] == subscriber;
                assert(before.push(subscribers.last())[at] == subscriber);
            }
        }
        if is_delivered(outcomes.last()) && subscribers.last() == subscriber {
            assert(before.push(subscribers.last())[before.len() as int] == subscriber);
            assert(subscribers[last] == subscriber);
        }
        if exists|i: int|
            0 <= i < subscribers.len() && #[trigger] subscribers[i] == subscriber && is_delivered(
                outcomes[i],
            ) {
            let i = choose|i: int|
                0 <= i < subscribers.len() && #[trigger] subscribers[i] == subscriber
                    && is_delivered(outcomes[i]);
            if i < last {
                assert(shorter[i] == subscriber);
            }
        }
    }
}

} // verus!
