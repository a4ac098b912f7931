//! The admission controller: validates a proposed item's cost against the
//! remaining capacity of two shared budgets, reserves capacity, invokes the
//! item's execution, and commits or rolls back the reservation according to
//! the outcome.

use vstd::prelude::*;

use crate::env_utils::EnvParams;
use crate::tx::Transaction;

verus! {

/// The possible states of a transaction process.
#[derive(Debug, PartialEq, Eq, PartialOrd, Ord)]
pub enum States {
    /// The transaction process has finished: no further capacity remains.
    Finish,
    /// The transaction is in progress, with a message (signature or error).
    InProgres(String),
}

/// Checks transaction limits and manages the transaction count and the
/// cumulative amount.
#[derive(Debug)]
pub struct LimitChecker {
    /// The number of committed transactions.
    pub transactions_count: usize,
    /// The cumulative amount committed so far.
    pub current_amount: i64,
    /// The budget configuration for the transaction process.
    pub params: EnvParams,
}

/// A controller freshly constructed from `params`: both counters are zero.
pub open spec fn spec_fresh(params: EnvParams) -> LimitChecker {
    LimitChecker { transactions_count: 0, current_amount: 0, params }
}

/// The item fits the configured ceiling at all: an item whose cost alone
/// exceeds `total_amount` can never be admitted, whatever the counters hold.
pub open spec fn affordable(s: LimitChecker, amount: int) -> bool {
    amount <= s.params.total_amount
}

/// The item fits the remaining capacity of both budgets in the present
/// state: one more transaction is allowed and the cumulative amount stays
/// within the ceiling.
pub open spec fn admissible(s: LimitChecker, amount: int) -> bool {
    &&& s.transactions_count < s.params.max_transactions
    &&& s.current_amount + amount <= s.params.total_amount
}

/// The state after reserving capacity for an item of the given amount.
pub open spec fn spec_reserved(s: LimitChecker, amount: int) -> LimitChecker {
    LimitChecker {
        transactions_count: (s.transactions_count + 1) as usize,
        current_amount: (s.current_amount + amount) as i64,
        params: s.params,
    }
}

/// The state after rolling a reservation of the given amount back.
pub open spec fn spec_rolled_back(s: LimitChecker, amount: int) -> LimitChecker {
    LimitChecker {
        transactions_count: (s.transactions_count - 1) as usize,
        current_amount: (s.current_amount - amount) as i64,
        params: s.params,
    }
}

/// One admission attempt on an item of the given amount, whose execution
/// succeeds iff `exec_ok`: the state is unchanged unless the item was
/// admissible, and a failed execution undoes the reservation it made.
pub open spec fn spec_step(s: LimitChecker, amount: int, exec_ok: bool) -> LimitChecker {
    if !affordable(s, amount) {
        s
    } else if !admissible(s, amount) {
        s
    } else if exec_ok {
        spec_reserved(s, amount)
    } else {
        spec_rolled_back(spec_reserved(s, amount), amount)
    }
}

/// The state after a sequence of admission attempts, each given as the
/// item's amount paired with whether its execution succeeded.
pub open spec fn spec_run(s: LimitChecker, steps: Seq<(int, bool)>) -> LimitChecker
    decreases steps.len(),
{
    if steps.len() == 0 {
        s
    } else {
        spec_run(spec_step(s, steps[0].0, steps[0].1), steps.drop_first())
    }
}

/// One attempt on an item of non-negative amount keeps the controller's
/// invariant and never changes the configuration.
pub proof fn lemma_step_preserves_wf(s: LimitChecker, amount: int, exec_ok: bool)
    requires
        s.wf(),
        0 <= amount,
    ensures
        spec_step(s, amount, exec_ok).wf(),
        spec_step(s, amount, exec_ok).params == s.params,
{
}

/// Rollback idempotence: rolling a reservation back restores both counters
/// to exactly their pre-reservation values, so a commit-then-rollback round
/// trip is a no-op on the controller.
pub proof fn lemma_rollback_restores(s: LimitChecker, amount: int)
    requires
        0 <= amount,
        s.transactions_count + 1 <= usize::MAX,
        s.current_amount + amount <= i64::MAX,
    ensures
        spec_rolled_back(spec_reserved(s, amount), amount) == s,
{
}

/// An item whose amount alone exceeds the configured ceiling is terminal
/// whatever the counters hold, even on the very first attempt against an
/// empty budget: the attempt changes nothing.
pub proof fn lemma_unaffordable_is_terminal(s: LimitChecker, amount: int, exec_ok: bool)
    requires
        s.params.total_amount < amount,
    ensures
        spec_step(s, amount, exec_ok) == s,
{
}

/// An attempt whose execution fails is a no-op on the controller: the
/// compensating rollback restores exactly what the reservation added.
pub proof fn lemma_failed_execution_is_noop(s: LimitChecker, amount: int)
    requires
        s.wf(),
        0 <= amount,
    ensures
        spec_step(s, amount, false) == s,
{
    if affordable(s, amount) && admissible(s, amount) {
        lemma_rollback_restores(s, amount);
    }
}

/// Saturation is terminal: once the cumulative amount is within one item's
/// amount of the ceiling, an attempt on that item changes nothing, and the
/// worker that made it stops pulling further items.
pub proof fn lemma_saturation_is_terminal(s: LimitChecker, amount: int, exec_ok: bool)
    requires
        s.params.total_amount < s.current_amount + amount,
    ensures
        spec_step(s, amount, exec_ok) == s,
{
}

/// A saturated controller is stationary: once the cumulative amount is
/// within one item's amount of the ceiling, a run over any sequence of
/// items at least that expensive changes nothing, so a worker stops at its
/// very next pull.
pub proof fn lemma_saturated_run_is_stationary(
    s: LimitChecker,
    steps: Seq<(int, bool)>,
    min_amount: int,
)
    requires
        s.params.total_amount < s.current_amount + min_amount,
        forall|i: int| 0 <= i < steps.len() ==> min_amount <= #[trigger] steps[i].0,
    ensures
        spec_run(s, steps) == s,
    decreases steps.len(),
{
    if steps.len() > 0 {
        lemma_saturation_is_terminal(s, steps[0].0, steps[0].1);
        lemma_saturated_run_is_stationary(s, steps.drop_first(), min_amount);
    }
}

/// For all sequences of non-negative item amounts, a run from a well-formed
/// state keeps the invariant: the transaction count never exceeds its
/// ceiling after any prefix, and under single-worker execution the
/// cumulative amount never exceeds a non-negative `total_amount`.
pub proof fn lemma_run_within_limits(s: LimitChecker, steps: Seq<(int, bool)>)
    requires
        s.wf(),
        forall|i: int| 0 <= i < steps.len() ==> 0 <= #[trigger] steps[i].0,
    ensures
        spec_run(s, steps).wf(),
        spec_run(s, steps).params == s.params,
        spec_run(s, steps).transactions_count <= s.params.max_transactions,
        s.params.total_amount >= 0 ==> spec_run(s, steps).current_amount
            <= s.params.total_amount,
    decreases steps.len(),
{
    if steps.len() > 0 {
        lemma_step_preserves_wf(s, steps[0].0, steps[0].1);
        lemma_run_within_limits(spec_step(s, steps[0].0, steps[0].1), steps.drop_first());
    }
}

/// The final counters depend only on the two budget ceilings and on the
/// sequence of attempts, never on the identity fields of the configuration.
pub proof fn lemma_run_depends_on_budgets_only(
    s1: LimitChecker,
    s2: LimitChecker,
    steps: Seq<(int, bool)>,
)
    requires
        s1.transactions_count == s2.transactions_count,
        s1.current_amount == s2.current_amount,
        s1.params.total_amount == s2.params.total_amount,
        s1.params.max_transactions == s2.params.max_transactions,
    ensures
        spec_run(s1, steps).transactions_count == spec_run(s2, steps).transactions_count,
        spec_run(s1, steps).current_amount == spec_run(s2, steps).current_amount,
    decreases steps.len(),
{
    if steps.len() > 0 {
        lemma_run_depends_on_budgets_only(
            spec_step(s1, steps[0].0, steps[0].1),
            spec_step(s2, steps[0].0, steps[0].1),
            steps.drop_first(),
        );
    }
}

/// Idempotent re-run: two controllers freshly constructed from
/// configurations with the same budget ceilings - in particular, from the
/// same configuration - and run over the same sequence of item amounts and
/// execution outcomes end with identical final counter values.
pub proof fn lemma_rerun_identical(p: EnvParams, q: EnvParams, steps: Seq<(int, bool)>)
    requires
        p.total_amount == q.total_amount,
        p.max_transactions == q.max_transactions,
    ensures
        spec_run(spec_fresh(p), steps).transactions_count == spec_run(
            spec_fresh(q),
            steps,
        ).transactions_count,
        spec_run(spec_fresh(p), steps).current_amount == spec_run(
            spec_fresh(q),
            steps,
        ).current_amount,
{
    lemma_run_depends_on_budgets_only(spec_fresh(p), spec_fresh(q), steps);
}

impl LimitChecker {
    /// The controller's invariant: the transaction count never exceeds its
    /// ceiling, and the cumulative amount is non-negative and within the
    /// amount ceiling whenever anything has been committed at all.
    pub open spec fn wf(&self) -> bool {
        &&& self.transactions_count <= self.params.max_transactions
        &&& 0 <= self.current_amount
        &&& self.current_amount == 0 || self.current_amount <= self.params.total_amount
    }

    /// Creates a new `LimitChecker` with both counters at zero.
    pub fn new(params: &EnvParams) -> (r: Self)
        ensures
            r == spec_fresh(*params),
            r.wf(),
    {
        LimitChecker {
            transactions_count: 0,
            current_amount: 0,
            params: params.duplicate(),
        }
    }

    /// Checks whether the transaction can be processed without exceeding
    /// either limit in the present state.
    pub fn check<T: Transaction>(&self, tx: &T) -> (r: bool)
        requires
            self.wf(),
            tx.wf(),
        ensures
            r == admissible(*self, tx.spec_amount()),
    {
        let tx_amount = tx.amount();
        let remaining = self.params.total_amount - self.current_amount;
        self.transactions_count < self.params.max_transactions && tx_amount <= remaining
    }

    /// Reserves capacity for an admissible item: increments the transaction
    /// count by one and the cumulative amount by the item's amount.
    fn reserve(&mut self, tx_amount: i64)
        requires
            old(self).wf(),
            0 <= tx_amount,
            affordable(*old(self), tx_amount as int),
            admissible(*old(self), tx_amount as int),
        ensures
            *final(self) == spec_reserved(*old(self), tx_amount as int),
            final(self).wf(),
            1 <= final(self).transactions_count,
            tx_amount <= final(self).current_amount,
    {
        self.transactions_count = self.transactions_count + 1;
        self.current_amount = self.current_amount + tx_amount;
    }

    /// Finalizes a reservation from the execution's result: a success leaves
    /// the reservation committed; a failure rolls both counters back by
    /// exactly what the reservation added.
    fn reconcile(&mut self, tx_amount: i64, exec_result: Result<String, String>) -> (r: States)
        requires
            old(self).wf(),
            0 <= tx_amount <= old(self).current_amount,
            1 <= old(self).transactions_count,
        ensures
            exec_result matches Ok(m) ==> *final(self) == *old(self) && r == States::InProgres(m),
            exec_result matches Err(e) ==> *final(self) == spec_rolled_back(
                *old(self),
                tx_amount as int,
            ) && r == States::InProgres(e),
            final(self).wf(),
            final(self).params == old(self).params,
    {
        match exec_result {
            Err(err_mess) => {
                self.transactions_count = self.transactions_count - 1;
                self.current_amount = self.current_amount - tx_amount;
                States::InProgres(err_mess)
            },
            Ok(mess) => States::InProgres(mess),
        }
    }

    /// Processes a transaction: an item whose cost alone exceeds the
    /// configured ceiling, or that does not fit the remaining capacity,
    /// yields `Finish` and leaves the counters untouched; an admissible item
    /// is reserved, executed, and committed or rolled back according to the
    /// execution's outcome. The call never returns `Err` and never panics.
    pub fn process_transaction<T: Transaction>(&mut self, tx: &T) -> (result: Result<States, ()>)
        requires
            old(self).wf(),
            tx.wf(),
        ensures
            final(self).wf(),
            final(self).params == old(self).params,
            result is Ok,
            *final(self) == spec_step(*old(self), tx.spec_amount(), true)
                || *final(self) == spec_step(*old(self), tx.spec_amount(), false),
            !affordable(*old(self), tx.spec_amount())
                ==> result == Ok::<States, ()>(States::Finish) && *final(self) == *old(self),
            affordable(*old(self), tx.spec_amount()) && !admissible(*old(self), tx.spec_amount())
                ==> result == Ok::<States, ()>(States::Finish) && *final(self) == *old(self),
            affordable(*old(self), tx.spec_amount()) && admissible(*old(self), tx.spec_amount())
                ==> (result matches Ok(s) && s is InProgres),
            affordable(*old(self), tx.spec_amount()) && admissible(*old(self), tx.spec_amount())
                ==> (exists|er: Result<String, String>|
                {
                    &&& #[trigger] tx.execute_post(er)
                    &&& *final(self) == spec_step(*old(self), tx.spec_amount(), er is Ok)
                    &&& match er {
                        Ok(m) => result == Ok::<States, ()>(States::InProgres(m)),
                        Err(e) => result == Ok::<States, ()>(States::InProgres(e)),
                    }
                }),
            final(self).transactions_count <= final(self).params.max_transactions,
            final(self).params.total_amount >= 0
                ==> final(self).current_amount <= final(self).params.total_amount,
    {
        let tx_amount = tx.amount();

        // An item whose cost alone exceeds the ceiling can never succeed.
        if self.params.total_amount < tx_amount {
            return Ok(States::Finish);
        }

        if self.check(tx) {
            self.reserve(tx_amount);
            let exec_result = tx.execute();
            let ghost er = exec_result;
            let state = self.reconcile(tx_amount, exec_result);
            proof {
                if er is Ok {
                    assert(*self =~= spec_step(*old(self), tx.spec_amount(), true));
                } else {
                    assert(*self =~= spec_step(*old(self), tx.spec_amount(), false));
                }
            }
            Ok(state)
        } else {
            Ok(States::Finish)
        }
    }
}

} // verus!
