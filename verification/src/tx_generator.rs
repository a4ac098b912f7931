//! The work item source: an unbounded, lazily evaluated sequence of
//! transactions built from a fixed configuration. It never terminates on
//! its own; the consumer stops pulling when it sees a terminal outcome.

use vstd::prelude::*;
use std::sync::Arc;

use crate::env_utils::EnvParams;
use crate::tx::SomeTransaction;
use crate::tx::Transaction;

verus! {

/// A generator that creates an infinite stream of transactions using the
/// specified parameters.
pub struct TransactionGenerator {
    /// Parameters with the wallet, the token, and the cost fields.
    pub params: Arc<EnvParams>,
}

impl TransactionGenerator {
    /// Creates a generator over the given configuration.
    pub fn new(params: Arc<EnvParams>) -> (r: Self)
        ensures
            r.params == params,
    {
        TransactionGenerator { params }
    }

    /// Returns the next transaction in the sequence. The source never
    /// exhausts: every pull yields an item, with a cost inside the
    /// configuration's jitter band.
    pub fn next(&mut self) -> (r: Option<SomeTransaction>)
        requires
            old(self).params.wf(),
        ensures
            *final(self) == *old(self),
            r is Some,
            r matches Some(tx) ==> {
                &&& tx.wf()
                &&& old(self).params.min_item_amount() <= tx.spec_amount()
                    <= old(self).params.max_item_amount()
                &&& tx.wallet == old(self).params.wallet
                &&& tx.token == old(self).params.token
            },
    {
        let tx = SomeTransaction::new(&self.params);
        Some(tx)
    }
}

} // verus!
