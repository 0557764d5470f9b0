//! Sequences that leave out some items of another and keep the order of the rest.

use vstd::prelude::*;

verus! {

/// `at` names, in order, the places in `full` where the items of `sub` stand.
pub open spec fn embeds<A>(sub: Seq<A>, full: Seq<A>, at: Seq<int>) -> bool {
    &&& at.len() == sub.len()
    &&& forall|i: int| 0 <= i < at.len() ==> 0 <= #[trigger] at[i] < full.len()
    &&& forall|i: int| 0 <= i < at.len() ==> sub[i] == full[#[trigger] at[i]]
    &&& forall|i: int, j: int| 0 <= i < j < at.len() ==> #[trigger] at[i] < #[trigger] at[j]
}

/// `sub` leaves out some items of `full` and keeps the order of the rest.
pub open spec fn is_subsequence<A>(sub: Seq<A>, full: Seq<A>) -> bool {
    exists|at: Seq<int>| embeds(sub, full, at)
}

/// The empty sequence leaves out everything.
pub proof fn lemma_empty<A>(full: Seq<A>)
    ensures
        is_subsequence(Seq::empty(), full),
{
    assert(embeds(Seq::<A>::empty(), full, Seq::empty()));
}

/// A sequence may leave out nothing.
pub proof fn lemma_all<A>(full: Seq<A>)
    ensures
        is_subsequence(full, full),
{
    assert(embeds(full, full, Seq::new(full.len(), |i: int| i)));
}

/// The next item of the full sequence may be left out.
pub proof fn lemma_skip<A>(sub: Seq<A>, full: Seq<A>, n: int)
    requires
        0 <= n < full.len(),
        is_subsequence(sub, full.take(n)),
    ensures
        is_subsequence(sub, full.take(n + 1)),
{
    let at = choose|at: Seq<int>| embeds(sub, full.take(n), at);
    assert(embeds(sub, full.take(n + 1), at));
}

/// The next item of the full sequence may be taken up.
pub proof fn lemma_take<A>(sub: Seq<A>, full: Seq<A>, n: int)
    requires
        0 <= n < full.len(),
        is_subsequence(sub, full.take(n)),
    ensures
        is_subsequence(sub.push(full[n]), full.take(n + 1)),
{
    let at = choose|at: Seq<int>| embeds(sub, full.take(n), at);
    assert(embeds(sub.push(full[n]), full.take(n + 1), at.push(n)));
}

/// What is taken from a part of the full sequence is taken from all of it.
pub proof fn lemma_widen<A>(sub: Seq<A>, full: Seq<A>, n: int)
    requires
        0 <= n <= full.len(),
        is_subsequence(sub, full.take(n)),
    ensures
        is_subsequence(sub, full),
{
    let at = choose|at: Seq<int>| embeds(sub, full.take(n), at);
    assert(embeds(sub, full, at));
}

} // verus!
