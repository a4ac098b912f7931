//! Work items: the capability contract a unit of work must satisfy, and the
//! concrete transaction type built from the shared configuration.

use vstd::prelude::*;
use std::sync::Arc;
use rand::Rng;
use rand::SeedableRng;

use crate::env_utils::EnvParams;

verus! {

/// Contract satisfied by any unit of work. An implementation reports its
/// fixed cost, executes itself, and describes itself.
pub trait Transaction {
    /// Well-formedness of the item; established at construction. An
    /// implementation whose cost needs a bound to fit in an `i64` restates
    /// that bound here; by default every item is well formed.
    open spec fn wf(&self) -> bool {
        true
    }

    /// The item's cost as a mathematical integer.
    open spec fn spec_amount(&self) -> int {
        0
    }

    /// What the implementation promises of every execution result: which
    /// messages a success and a failure can carry. Whether a given call
    /// succeeds stays open - failure is exogenous - so this speaks of both
    /// cases; by default nothing is promised.
    open spec fn execute_post(&self, r: Result<String, String>) -> bool {
        true
    }

    /// What the implementation promises of its description; by default
    /// nothing.
    open spec fn info_post(&self, text: Seq<char>) -> bool {
        true
    }

    /// Returns the total amount of the transaction. The cost is fixed at
    /// construction time and is never negative.
    fn amount(&self) -> (r: i64)
        requires
            self.wf(),
        ensures
            r as int == self.spec_amount(),
            0 <= r,
    ;

    /// Executes the transaction. Returns the transaction signature as
    /// `Ok(String)` if successful, or an error message as `Err(String)` if
    /// the transaction fails. Whether it fails is exogenous: it is not a
    /// function of the item's cost or of any budget state.
    fn execute(&self) -> (r: Result<String, String>)
        requires
            self.wf(),
        ensures
            self.execute_post(r),
    ;

    /// Returns information about the transaction in the form of a string.
    fn info(&self) -> (r: String)
        requires
            self.wf(),
        ensures
            self.info_post(r@),
    ;
}

/// A transaction with specific parameters such as wallet, token, adjusted
/// commission, and price. The commission jitter is applied once, at
/// construction; the amount never changes afterwards.
#[derive(Debug)]
pub struct SomeTransaction {
    pub wallet: String,
    pub token: String,
    pub adjusted_commission: i64,
    pub price: i64,
}

/// The random state used to draw the per-item commission jitter.
#[verifier::external_type_specification]
#[verifier::external_body]
pub struct ExStdRng(rand::rngs::StdRng);

/// Relies on `rand::SeedableRng::from_entropy`: seeds a generator from the
/// operating system's entropy source. Nothing is promised of the state.
#[verifier::external_body]
fn fresh_rng() -> rand::rngs::StdRng {
    rand::rngs::StdRng::from_entropy()
}

/// Relies on `rand::Rng::gen_range` over the inclusive range
/// `-bound..=bound`: the sample always lies within the range, and the range
/// is non-empty because `bound` is non-negative.
#[verifier::external_body]
fn gen_jitter(rng: &mut rand::rngs::StdRng, bound: i64) -> (r: i64)
    requires
        0 <= bound,
    ensures
        -bound <= r <= bound,
{
    rng.gen_range(-bound..=bound)
}

impl SomeTransaction {
    /// Creates a new transaction, adjusting the commission by a random
    /// jitter of at most `commission_change` in either direction.
    pub fn new(params: &Arc<EnvParams>) -> (r: Self)
        requires
            params.wf(),
        ensures
            r.wf(),
            r.wallet == params.wallet,
            r.token == params.token,
            r.price == params.price,
            params.min_item_amount() <= r.spec_amount() <= params.max_item_amount(),
    {
        let mut rng = fresh_rng();
        let jitter = gen_jitter(&mut rng, params.commission_change);
        let adjusted_commission = params.commission + jitter;

        SomeTransaction {
            wallet: params.wallet.clone(),
            token: params.token.clone(),
            adjusted_commission,
            price: params.price,
        }
    }
}

impl Transaction for SomeTransaction {
    /// The item is well formed when its total amount is non-negative and
    /// fits in an `i64`.
    open spec fn wf(&self) -> bool {
        &&& 0 <= self.adjusted_commission + self.price
        &&& self.adjusted_commission + self.price <= i64::MAX
    }

    open spec fn spec_amount(&self) -> int {
        self.adjusted_commission + self.price
    }

    /// A success carries the transaction's rendered description; a failure
    /// carries the fixed failure text.
    open spec fn execute_post(&self, r: Result<String, String>) -> bool {
        match r {
            Ok(m) => self.info_post(m@),
            Err(e) => e@ == "failed tx"@,
        }
    }

    /// The description is the formatter's output over exactly the wallet,
    /// the token, the adjusted commission, the price, and the total amount.
    open spec fn info_post(&self, text: Seq<char>) -> bool {
        text == rendered_info(
            self.wallet@,
            self.token@,
            self.adjusted_commission as int,
            self.price as int,
            self.spec_amount(),
        )
    }

    /// The total amount: the sum of the price and the adjusted commission.
    fn amount(&self) -> (r: i64)
    {
        self.adjusted_commission + self.price
    }

    /// Executes the transaction. A small exogenous failure probability is
    /// drawn from the current time; on failure an error message is returned,
    /// otherwise the transaction's description.
    fn execute(&self) -> (r: Result<String, String>)
    {
        if exogenous_failure() {
            Err("failed tx".to_string())
        } else {
            Ok(self.info())
        }
    }

    /// A formatted string with the wallet, token, commission, price, and
    /// total amount of the transaction.
    fn info(&self) -> (r: String)
    {
        render_info(
            &self.wallet,
            &self.token,
            self.adjusted_commission,
            self.price,
            self.amount(),
        )
    }
}

/// Relies on `std::time::SystemTime::now`: the decision depends on the
/// sub-second part of the clock, so nothing holds of any one outcome.
#[verifier::external_body]
fn exogenous_failure() -> bool {
    std::time::SystemTime::now()
        .duration_since(std::time::UNIX_EPOCH)
        .map(|d| d.subsec_nanos() % 10 == 0)
        .unwrap_or(false)
}

/// The text that the formatter produces for one transaction's fields.
pub uninterp spec fn rendered_info(
    wallet: Seq<char>,
    token: Seq<char>,
    commission: int,
    price: int,
    amount: int,
) -> Seq<char>;

/// Relies on the `format` macro of std: the output is a function of the
/// formatted fields alone.
#[verifier::external_body]
fn render_info(wallet: &str, token: &str, commission: i64, price: i64, amount: i64) -> (r: String)
    ensures
        r@ == rendered_info(wallet@, token@, commission as int, price as int, amount as int),
{
    format!(
        "Wallet: {}, Token: {}, Commission: {}, Price: {}, Amount: {}",
        wallet, token, commission, price, amount,
    )
}

} // verus!
