//! Where the transactions beyond those of the sequencer come from.

use vstd::prelude::*;

use crate::chain::BestTransactionsAttributes;

verus! {

/// `BestPoolTransactions` yields the best transactions of the pool.
#[derive(Clone, Copy, Debug, PartialEq, Eq)]
pub struct BestPoolTransactions;

impl BestPoolTransactions {
    /// The fees that the pool is asked to order its transactions by: those of the payload.
    pub fn best_transactions(&self, attributes: BestTransactionsAttributes) -> (r:
        BestTransactionsAttributes)
        ensures
            r == attributes,
    {
        attributes
    }
}

} // verus!
