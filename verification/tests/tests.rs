use std::sync::Arc;
use std::sync::Mutex;

use test_bot::env_utils::EnvParams;
use test_bot::limits::LimitChecker;
use test_bot::limits::States;
use test_bot::results::numbered_signatures;
use test_bot::results::record_outcome;
use test_bot::results::unwrap_results;
use test_bot::tx::SomeTransaction;
use test_bot::tx::Transaction;
use test_bot::tx_generator::TransactionGenerator;

#[derive(Debug)]
pub struct TestTransaction {
    pub wallet: String,
    pub token: String,
    pub adjusted_commission: i64,
    pub price: i64,
}

impl TestTransaction {
    pub fn new_stable_min(params: &Arc<EnvParams>) -> Self {
        let adjusted_commission = params.commission - params.commission_change;
        Self {
            wallet: params.wallet.clone(),
            token: params.token.clone(),
            adjusted_commission,
            price: params.price,
        }
    }
}

impl Transaction for TestTransaction {
    fn amount(&self) -> i64 {
        self.adjusted_commission + self.price
    }

    fn execute(&self) -> Result<String, String> {
        Ok(self.info().to_string())
    }

    fn info(&self) -> String {
        format!(
            "\nWallet: {}, Token: {}, Commission: {}, Price: {}, Amount: {}",
            self.wallet,
            self.token,
            self.adjusted_commission,
            self.price,
            self.amount()
        )
    }
}

fn test_params(total_amount: i64) -> Arc<EnvParams> {
    Arc::new(EnvParams {
        wallet: "test_wallet".to_string(),
        token: "test_token".to_string(),
        total_amount,
        commission: 100,
        commission_change: 10,
        max_transactions: 100,
        max_threads: 1,
        price: 100,
    })
}

#[test]
fn test_transaction_exceeds_limit_and_finishes() {
    let params = test_params(189);

    let tx = TestTransaction::new_stable_min(&params);

    let mut limiter = LimitChecker::new(&params);
    let result = limiter.process_transaction(&tx);

    assert!(matches!(result, Ok(States::Finish)));
    assert_eq!(limiter.transactions_count, 0);
    assert_eq!(limiter.current_amount, 0);
}

#[test]
fn test_successful_transaction() {
    let params = test_params(211);

    let tx = TestTransaction::new_stable_min(&params);
    let mut limiter = LimitChecker::new(&params);

    let result = limiter.process_transaction(&tx);
    assert!(matches!(result, Ok(States::InProgres(_))));
}

#[test]
fn test_commit_updates_both_counters() {
    let params = test_params(211);

    let tx = TestTransaction::new_stable_min(&params);
    let mut limiter = LimitChecker::new(&params);

    let result = limiter.process_transaction(&tx);
    assert!(matches!(result, Ok(States::InProgres(_))));
    assert_eq!(limiter.transactions_count, 1);
    assert_eq!(limiter.current_amount, 190);
}

pub struct FailingTransaction {
    pub amount: i64,
}

impl Transaction for FailingTransaction {
    fn amount(&self) -> i64 {
        self.amount
    }

    fn execute(&self) -> Result<String, String> {
        Err("failed tx".to_string())
    }

    fn info(&self) -> String {
        format!("Amount: {}", self.amount)
    }
}

#[test]
fn test_rollback_restores_counters() {
    let params = test_params(1000);
    let mut limiter = LimitChecker::new(&params);

    let good = TestTransaction::new_stable_min(&params);
    let result = limiter.process_transaction(&good);
    assert!(matches!(result, Ok(States::InProgres(_))));
    assert_eq!(limiter.transactions_count, 1);
    assert_eq!(limiter.current_amount, 190);

    let failing = FailingTransaction { amount: 250 };
    let result = limiter.process_transaction(&failing);
    match result {
        Ok(States::InProgres(message)) => assert_eq!(message, "failed tx"),
        other => panic!("expected an in-progress outcome, got {:?}", other),
    }
    assert_eq!(limiter.transactions_count, 1);
    assert_eq!(limiter.current_amount, 190);
}

#[test]
fn test_unaffordable_item_is_terminal_whatever_the_counters_hold() {
    let params = test_params(1000);
    let mut limiter = LimitChecker::new(&params);

    let good = TestTransaction::new_stable_min(&params);
    assert!(matches!(limiter.process_transaction(&good), Ok(States::InProgres(_))));
    assert_eq!(limiter.transactions_count, 1);
    assert_eq!(limiter.current_amount, 190);

    let huge = FailingTransaction { amount: 1001 };
    let result = limiter.process_transaction(&huge);
    assert!(matches!(result, Ok(States::Finish)));
    assert_eq!(limiter.transactions_count, 1);
    assert_eq!(limiter.current_amount, 190);
}

#[test]
fn test_single_worker_never_exceeds_either_budget() {
    let params = test_params(1000);
    let mut limiter = LimitChecker::new(&params);

    let mut results: Vec<States> = Vec::new();
    loop {
        let tx = TestTransaction::new_stable_min(&params);
        match limiter.process_transaction(&tx) {
            Ok(States::Finish) => break,
            Ok(state) => results.push(state),
            Err(()) => panic!("process_transaction never fails"),
        }
        assert!(limiter.transactions_count <= 100);
        assert!(limiter.current_amount <= 1000);
    }

    assert_eq!(limiter.transactions_count, 5);
    assert_eq!(limiter.current_amount, 950);
    assert_eq!(results.len(), 5);
}

#[test]
fn test_rerun_from_same_configuration_is_identical() {
    let mut finals: Vec<(usize, i64)> = Vec::new();
    for _ in 0..2 {
        let params = test_params(777);
        let mut limiter = LimitChecker::new(&params);
        loop {
            let tx = TestTransaction::new_stable_min(&params);
            match limiter.process_transaction(&tx) {
                Ok(States::Finish) => break,
                Ok(_) => {}
                Err(()) => panic!("process_transaction never fails"),
            }
        }
        finals.push((limiter.transactions_count, limiter.current_amount));
    }
    assert_eq!(finals[0], finals[1]);
    assert_eq!(finals[0], (4, 760));
}

#[test]
fn test_generated_amount_stays_in_jitter_band() {
    let params = test_params(1000);
    for _ in 0..50 {
        let tx = SomeTransaction::new(&params);
        let amount = tx.amount();
        assert!((190..=210).contains(&amount));
    }
}

#[test]
fn test_generator_never_exhausts() {
    let params = test_params(1000);
    let mut generator = TransactionGenerator::new(params);
    for _ in 0..100 {
        let tx = generator.next();
        assert!(tx.is_some());
    }
}

#[test]
fn test_info_renders_every_field() {
    let params = test_params(1000);
    let tx = SomeTransaction::new(&params);
    let amount = tx.amount();
    let commission = amount - 100;
    let expected = format!(
        "Wallet: test_wallet, Token: test_token, Commission: {}, Price: 100, Amount: {}",
        commission, amount,
    );
    assert_eq!(tx.info(), expected);
}

#[test]
fn test_execute_returns_info_or_fixed_error() {
    let params = test_params(1000);
    let tx = SomeTransaction::new(&params);
    match tx.execute() {
        Ok(message) => assert_eq!(message, tx.info()),
        Err(message) => assert_eq!(message, "failed tx"),
    }
}

#[test]
fn test_numbered_signatures_keeps_positions_and_skips_terminal_entries() {
    let results = vec![
        States::InProgres("alpha".to_string()),
        States::Finish,
        States::InProgres("beta".to_string()),
    ];
    let lines = numbered_signatures(&results);
    assert_eq!(lines.len(), 2);
    assert_eq!(lines[0], (1, "alpha".to_string()));
    assert_eq!(lines[1], (3, "beta".to_string()));
}

#[test]
fn test_record_outcome_keeps_only_in_progress_states() {
    let mut local: Vec<States> = Vec::new();
    let stop = record_outcome(States::InProgres("sig".to_string()), &mut local);
    assert!(!stop);
    assert!(matches!(&local[0], States::InProgres(m) if m.as_str() == "sig"));

    let stop = record_outcome(States::Finish, &mut local);
    assert!(stop);
    assert_eq!(local.len(), 1);
}

#[test]
fn test_unwrap_results_returns_the_collected_states() {
    let shared = Arc::new(Mutex::new(vec![
        States::InProgres("first".to_string()),
        States::InProgres("second".to_string()),
    ]));
    let drained = unwrap_results(shared);
    assert_eq!(drained.len(), 2);
    assert!(matches!(&drained[0], States::InProgres(m) if m.as_str() == "first"));
    assert!(matches!(&drained[1], States::InProgres(m) if m.as_str() == "second"));
}

#[test]
fn test_unwrap_results_with_second_owner_is_empty() {
    let shared = Arc::new(Mutex::new(vec![States::InProgres("kept".to_string())]));
    let second_owner = shared.clone();
    let drained = unwrap_results(shared);
    assert!(drained.is_empty());
    assert_eq!(second_owner.lock().unwrap().len(), 1);
}

#[test]
fn test_saturated_budget_finishes_every_following_attempt() {
    let params = test_params(190);
    let mut limiter = LimitChecker::new(&params);

    let tx = TestTransaction::new_stable_min(&params);
    assert!(matches!(limiter.process_transaction(&tx), Ok(States::InProgres(_))));
    assert_eq!(limiter.current_amount, 190);

    for _ in 0..3 {
        let tx = TestTransaction::new_stable_min(&params);
        assert!(matches!(limiter.process_transaction(&tx), Ok(States::Finish)));
        assert_eq!(limiter.transactions_count, 1);
        assert_eq!(limiter.current_amount, 190);
    }
}

#[test]
fn test_transaction_count_ceiling_is_enforced() {
    let params = Arc::new(EnvParams {
        wallet: "test_wallet".to_string(),
        token: "test_token".to_string(),
        total_amount: 1_000_000,
        commission: 100,
        commission_change: 10,
        max_transactions: 3,
        max_threads: 1,
        price: 100,
    });
    let mut limiter = LimitChecker::new(&params);

    for _ in 0..3 {
        let tx = TestTransaction::new_stable_min(&params);
        assert!(matches!(limiter.process_transaction(&tx), Ok(States::InProgres(_))));
    }
    let tx = TestTransaction::new_stable_min(&params);
    assert!(matches!(limiter.process_transaction(&tx), Ok(States::Finish)));
    assert_eq!(limiter.transactions_count, 3);
    assert_eq!(limiter.current_amount, 570);
}
