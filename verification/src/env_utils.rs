//! Configuration shared by every worker: budget ceilings and the fixed
//! parameters from which work items are built. Read once at startup and
//! immutable afterwards.

use vstd::prelude::*;

verus! {

/// Parameters for the transaction process.
///
/// * `wallet` - the wallet address from which transactions are initiated.
/// * `token` - the token to be purchased in transactions.
/// * `total_amount` - the ceiling on the cumulative amount spent.
/// * `max_transactions` - the ceiling on the number of committed transactions.
/// * `commission` - base commission; each item varies it by at most
///   `commission_change` in either direction.
/// * `commission_change` - bound on the per-item commission jitter.
/// * `price` - base price of one item.
/// * `max_threads` - the number of concurrent workers.
#[derive(Debug, Clone)]
pub struct EnvParams {
    pub wallet: String,
    pub token: String,
    pub total_amount: i64,
    pub max_transactions: usize,
    pub commission: i64,
    pub commission_change: i64,
    pub price: i64,
    pub max_threads: usize,
}

impl EnvParams {
    /// The configuration is well formed when the jitter bound is
    /// non-negative and every possible item amount (price plus a commission
    /// within the jitter band) is non-negative and fits in an `i64`.
    pub open spec fn wf(&self) -> bool {
        &&& 0 <= self.commission_change
        &&& i64::MIN <= self.commission - self.commission_change
        &&& self.commission + self.commission_change <= i64::MAX
        &&& 0 <= self.commission - self.commission_change + self.price
        &&& self.commission + self.commission_change + self.price <= i64::MAX
    }

    /// The smallest amount an item built from this configuration can carry.
    pub open spec fn min_item_amount(&self) -> int {
        self.commission - self.commission_change + self.price
    }

    /// The largest amount an item built from this configuration can carry.
    pub open spec fn max_item_amount(&self) -> int {
        self.commission + self.commission_change + self.price
    }

    /// Copies the configuration field by field.
    pub fn duplicate(&self) -> (r: EnvParams)
        ensures
            r == *self,
    {
        EnvParams {
            wallet: self.wallet.clone(),
            token: self.token.clone(),
            total_amount: self.total_amount,
            max_transactions: self.max_transactions,
            commission: self.commission,
            commission_change: self.commission_change,
            price: self.price,
            max_threads: self.max_threads,
        }
    }
}

} // verus!
