use simmons::decimal::Dec;
use simmons::exec::cod3x_exec::{Cod3xExecutor, LendingOperation, LendingRequest, LendingStrategy, UnhealthyPosition};

fn d(s: &str) -> Dec {
    Dec::parse(s).unwrap()
}

#[test]
fn test_calculate_safe_borrow() {
    let executor = Cod3xExecutor::with_defaults();
    let safe_borrow = executor.calculate_safe_borrow(d("10000"), d("0"), d("0.75"), Some(d("1.5")));
    assert!(safe_borrow.eq_value(&d("5000")));
}

#[test]
fn test_calculate_safe_borrow_with_existing_debt() {
    let executor = Cod3xExecutor::with_defaults();
    let safe_borrow = executor.calculate_safe_borrow(d("10000"), d("2000"), d("0.75"), Some(d("1.5")));
    assert!(safe_borrow.eq_value(&d("3000")));
}

#[test]
fn test_calculate_required_repayment() {
    let executor = Cod3xExecutor::with_defaults();
    let repayment = executor.calculate_required_repayment(d("10000"), d("6000"), d("0.75"), d("1.25"), Some(d("1.5")));
    assert!(repayment.eq_value(&d("1000")));
}

#[test]
fn test_no_repayment_needed() {
    let executor = Cod3xExecutor::with_defaults();
    let repayment = executor.calculate_required_repayment(d("10000"), d("3000"), d("0.75"), d("2.5"), Some(d("1.5")));
    assert!(repayment.eq_value(&Dec::zero()));
}

#[test]
fn test_validate_request() {
    let executor = Cod3xExecutor::with_defaults();
    let request = LendingRequest {
        operation: LendingOperation::Deposit,
        asset: "USDT".to_string(),
        amount: d("1000"),
        interest_rate_mode: None,
        on_behalf_of: None,
        max_slippage_bps: d("50"),
        deadline_secs: 300,
    };
    assert!(executor.validate_request(&request, d("1.5"), d("2000")).is_ok());
    assert!(executor.validate_request(&request, d("1.5"), d("500")).is_err());
}

#[test]
fn validate_request_error_texts() {
    let executor = Cod3xExecutor::with_defaults();
    let mut request = LendingRequest {
        operation: LendingOperation::Deposit,
        asset: "USDT".to_string(),
        amount: d("1000"),
        interest_rate_mode: None,
        on_behalf_of: None,
        max_slippage_bps: d("50"),
        deadline_secs: 300,
    };
    assert_eq!(executor.validate_request(&request, d("1.5"), d("500")), Err("Insufficient balance: 1000 > 500".to_string()));
    request.amount = d("0");
    assert_eq!(executor.validate_request(&request, d("1.5"), d("500")), Err("Amount must be positive".to_string()));
    request.amount = d("10");
    request.deadline_secs = 0;
    assert_eq!(executor.validate_request(&request, d("1.5"), d("500")), Err("Deadline must be set".to_string()));
}

#[test]
fn test_find_liquidation_targets() {
    let executor = Cod3xExecutor::with_defaults();
    let unhealthy = vec![
        UnhealthyPosition {
            user: "0x123".to_string(),
            collateral_asset: "ETH".to_string(),
            debt_asset: "USDT".to_string(),
            total_collateral_usd: d("10000"),
            total_debt_usd: d("8000"),
            health_factor: d("0.9"),
            liquidation_bonus_bps: 500,
        },
        UnhealthyPosition {
            user: "0x456".to_string(),
            collateral_asset: "ETH".to_string(),
            debt_asset: "USDT".to_string(),
            total_collateral_usd: d("1000"),
            total_debt_usd: d("900"),
            health_factor: d("0.95"),
            liquidation_bonus_bps: 500,
        },
    ];
    let targets = executor.find_liquidation_targets(&unhealthy, Some(d("100")));
    assert_eq!(targets.len(), 1);
    assert_eq!(targets[0].user, "0x123");
}

#[test]
fn test_should_auto_repay() {
    let executor = Cod3xExecutor::with_defaults();
    assert!(!executor.should_auto_repay(d("1.5")));
    assert!(executor.should_auto_repay(d("1.1")));
}

#[test]
fn test_build_strategy_plan_leveraged() {
    let executor = Cod3xExecutor::with_defaults();
    let strategy = LendingStrategy::LeveragedLong {
        collateral_asset: "ETH".to_string(),
        borrow_asset: "USDT".to_string(),
        target_leverage: d("2"),
    };
    let requests = executor.build_strategy_plan(strategy, d("1000"), None);
    assert_eq!(requests.len(), 2);
    assert_eq!(requests[0].operation, LendingOperation::Deposit);
    assert!(requests[0].amount.eq_value(&d("1000")));
    assert_eq!(requests[1].operation, LendingOperation::Borrow);
    assert!(requests[1].amount.eq_value(&d("1000")));
}

#[test]
fn test_withdraw_threshold_is_min_plus_margin() {
    let executor = Cod3xExecutor::with_defaults();
    let request = LendingRequest {
        operation: LendingOperation::Withdraw,
        asset: "USDT".to_string(),
        amount: d("10"),
        interest_rate_mode: None,
        on_behalf_of: None,
        max_slippage_bps: d("50"),
        deadline_secs: 300,
    };
    assert_eq!(
        executor.validate_request(&request, d("1.39"), d("0")),
        Err("Health factor too low for withdrawal: 1.39".to_string())
    );
    assert!(executor.validate_request(&request, d("1.4"), d("0")).is_ok());
}
