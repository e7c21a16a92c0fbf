use simmons::config::ExecutionConfig;
use simmons::decimal::Dec;
use simmons::exec::engine::{ExecutionEngine, ExecutionPath};
use simmons::exec::gas::{GasOptimizer, GasTrend, Priority, WaitDecision};
use simmons::exec::live::{self, LiveExecutor, LiveExecutorConfig};
use simmons::exec::mev::{LegacyMevShield, MevContext, MevRisk, MevShield, SearcherActivity};
use simmons::exec::paper::PaperTrader;
use simmons::exec::router::{LegacyRouter, SmartOrderRouter, Venue, VenueQuote};
use simmons::market::{Order, OrderType, Side, TradingMode};

fn d(s: &str) -> Dec {
    Dec::parse(s).unwrap()
}

fn zero() -> Dec {
    Dec::zero()
}

fn test_order(size: Dec, order_type: OrderType) -> Order {
    Order {
        symbol: "BTC-USDT".to_string(),
        side: Side::Long,
        size,
        order_type,
        limit_price: Some(d("67000")),
        stop_loss: None,
        take_profit: None,
    }
}

fn quote(venue: Venue, price: &str, liquidity: &str, fee: &str, slippage: &str, latency: u64) -> VenueQuote {
    VenueQuote {
        venue,
        price: d(price),
        available_liquidity: d(liquidity),
        fee_bps: d(fee),
        estimated_slippage_bps: d(slippage),
        latency_ms: latency,
        timestamp: 0,
    }
}

#[test]
fn test_optimal_gas_by_priority() {
    let optimizer = GasOptimizer::with_defaults();
    let current = d("30");
    let urgent = optimizer.optimal_gas(Priority::Urgent, current);
    let normal = optimizer.optimal_gas(Priority::Normal, current);
    let low = optimizer.optimal_gas(Priority::Low, current);
    assert!(urgent.gt(&normal));
    assert!(normal.gt(&low));
    assert!(urgent.le(&d("60")));
    assert!(normal.le(&d("39")));
}

#[test]
fn test_should_wait_urgent() {
    let optimizer = GasOptimizer::with_defaults();
    let decision = optimizer.should_wait(Priority::Urgent, d("50"));
    assert!(matches!(decision, WaitDecision::ExecuteNow { .. }));
}

#[test]
fn test_gas_too_high() {
    let optimizer = GasOptimizer::with_defaults();
    let decision = optimizer.should_wait(Priority::Normal, d("200"));
    match decision {
        WaitDecision::Skip { reason } => assert_eq!(reason, "Gas 200 gwei exceeds max 100 gwei"),
        _ => panic!("expected a skip"),
    }
}

#[test]
fn test_estimate_cost() {
    let optimizer = GasOptimizer::with_defaults();
    let estimate = optimizer.estimate_cost(100_000, d("30"));
    assert!(estimate.cost_eth.eq_value(&d("0.003")));
    assert!(estimate.cost_usd.eq_value(&d("9")));
}

#[test]
fn test_batch_analysis() {
    let optimizer = GasOptimizer::with_defaults();
    let analysis = optimizer.batch_transactions(&[50000, 50000, 50000]);
    assert_eq!(analysis.transaction_count, 3);
    assert!(analysis.gas_savings > 40000);
    assert!(analysis.recommend_batch);
    assert_eq!(analysis.unbatched_gas, 213000);
    assert_eq!(analysis.batched_gas, 171000);
    assert_eq!(analysis.gas_savings, 42000);
}

#[test]
fn test_predictions() {
    let mut optimizer = GasOptimizer::with_defaults();
    for i in 0..20 {
        optimizer.record_gas_price(d("50").sub(Dec::from_i64(i)), i as u64);
    }
    let pred = optimizer.predictions().unwrap();
    assert_eq!(pred.trend, GasTrend::Falling);
    assert!(pred.predicted_5min.lt(&pred.current));
}

#[test]
fn test_history_stats() {
    let mut optimizer = GasOptimizer::with_defaults();
    for gas in [20, 25, 30, 35, 40, 45, 50] {
        optimizer.record_gas_price(Dec::from_i64(gas), 0);
    }
    let stats = optimizer.history_stats();
    assert_eq!(stats.count, 7);
    assert!(stats.min.eq_value(&d("20")));
    assert!(stats.max.eq_value(&d("50")));
    assert!(stats.mean.gt(&d("30")) && stats.mean.lt(&d("40")));
    assert!(stats.p50.eq_value(&d("35")));
}

#[test]
fn gas_history_keeps_its_window() {
    let mut config = simmons::exec::gas::GasOptimizerConfig::default();
    config.history_window = 3;
    let mut optimizer = GasOptimizer::new(config);
    for gas in [10, 20, 30, 40, 50] {
        optimizer.record_gas_price(Dec::from_i64(gas), 0);
    }
    let stats = optimizer.history_stats();
    assert_eq!(stats.count, 3);
    assert!(stats.min.eq_value(&d("30")));
    assert!(optimizer.predictions().is_none());
}

#[test]
fn test_venue_from_symbol() {
    assert_eq!(live::Venue::from_symbol("BTC-USDT"), live::Venue::OkxCex);
    assert_eq!(live::Venue::from_symbol("ETH-USDC"), live::Venue::OkxCex);
    assert_eq!(live::Venue::from_symbol("0x1234-0x5678"), live::Venue::XLayerDex);
}

#[test]
fn live_test_config_defaults() {
    let config = LiveExecutorConfig::default();
    assert_eq!(config.max_slippage_bps, 100);
    assert!(config.okx_enabled);
    assert!(config.dex_enabled);
}

#[test]
fn test_parse_dex_pair() {
    let (from, to) = live::parse_dex_pair("ETH-USDT", Side::Long).unwrap();
    assert!(from.contains("1E4a"));
    assert!(to.contains("5A77"));
    let (from, to) = live::parse_dex_pair("ETH-USDT", Side::Short).unwrap();
    assert!(from.contains("5A77"));
    assert!(to.contains("1E4a"));
}

#[test]
fn dex_pair_errors() {
    assert_eq!(live::parse_dex_pair("ETHUSDT", Side::Long), Err("Invalid symbol format: ETHUSDT".to_string()));
    assert_eq!(live::parse_dex_pair("FOO-USDT", Side::Long), Err("Unknown token: FOO".to_string()));
    assert_eq!(live::parse_dex_pair("ETH-DAI", Side::Long), Err("Unknown quote token: DAI".to_string()));
    let (from, to) = live::parse_dex_pair("0xabc-USDC", Side::Short).unwrap();
    assert_eq!(from, "0xabc");
    assert_eq!(to, "0x74b7F16337b8972027F6196A17a631aC6dE26d22");
}

#[test]
fn validate_order_limits() {
    let config = LiveExecutorConfig::default();
    let mut order = test_order(d("0"), OrderType::Market);
    assert_eq!(live::validate_order(&config, &order, d("100")), Err("Order size must be positive".to_string()));
    order.size = d("0.001");
    assert_eq!(live::validate_order(&config, &order, d("100")), Err("Order too small: $0.100 < $1".to_string()));
    order.size = d("200");
    assert_eq!(live::validate_order(&config, &order, d("100")), Err("Order too large: $20000 > $10000".to_string()));
    order.size = d("1");
    assert_eq!(live::validate_order(&config, &order, d("100")), Ok(()));
}

#[test]
fn pending_orders_tracked_by_symbol() {
    let mut executor = LiveExecutor::new(LiveExecutorConfig::default());
    assert!(!executor.is_ready());
    executor.track_pending("BTC-USDT", "42", live::Venue::OkxCex, 0);
    assert!(executor.has_pending_order("BTC-USDT"));
    executor.track_pending("BTC-USDT", "43", live::Venue::OkxCex, 1);
    assert_eq!(executor.pending_order("BTC-USDT"), Some(("43".to_string(), live::Venue::OkxCex)));
    executor.clear_pending("BTC-USDT");
    assert!(!executor.has_pending_order("BTC-USDT"));
}

#[test]
fn test_live_mode_needs_executor() {
    let engine = ExecutionEngine::new(TradingMode::Live, ExecutionConfig::default());
    assert!(!engine.is_live_ready());
    assert_eq!(engine.execution_path(), ExecutionPath::PaperFallback);
}

#[test]
fn live_executor_not_ready_refused() {
    let engine = ExecutionEngine::new(TradingMode::Live, ExecutionConfig::default());
    let executor = LiveExecutor::new(LiveExecutorConfig::default());
    assert!(engine.with_live_executor(executor).is_err());
}

#[test]
fn test_analyze_small_limit_order() {
    let shield = MevShield::with_defaults();
    let order = test_order(d("0.01"), OrderType::Limit);
    let context = MevContext {
        mempool_tx_count: 1000,
        gas_price: d("20"),
        recent_sandwiches: 0,
        block_utilization: d("0.5"),
        searcher_activity: SearcherActivity::Low,
    };
    let analysis = shield.analyze_risk(&order, Some(&context));
    assert_eq!(analysis.overall, MevRisk::Low);
    assert!(analysis.recommendations.is_empty());
}

#[test]
fn test_analyze_large_market_order() {
    let shield = MevShield::with_defaults();
    let order = test_order(d("2.0"), OrderType::Market);
    let analysis = shield.analyze_risk(&order, None);
    assert_eq!(analysis.overall, MevRisk::High);
    assert!(!analysis.recommendations.is_empty());
}

#[test]
fn test_mev_loss_estimate() {
    let shield = MevShield::with_defaults();
    let order = test_order(d("1.0"), OrderType::Market);
    let analysis = shield.analyze_risk(&order, None);
    assert!(analysis.estimated_mev_loss.gt(&zero()));
    // 1.0 * 67000 * 0.5% = 335
    assert!(analysis.estimated_mev_loss.eq_value(&d("335")));
}

#[test]
fn test_protect_selects_private_pool() {
    let shield = MevShield::with_defaults();
    let order = test_order(d("2.0"), OrderType::Market);
    let protected = shield.protect(&order);
    assert!(protected.use_private_pool);
    assert_eq!(protected.private_pool_name, Some("flashbots".to_string()));
}

#[test]
fn test_bundle_creation() {
    let shield = MevShield::with_defaults();
    let order1 = test_order(d("1.0"), OrderType::Market);
    let order2 = test_order(d("0.5"), OrderType::Limit);
    let bundle = shield.create_bundle(vec![&order1, &order2]);
    assert_eq!(bundle.transactions.len(), 2);
    assert!(bundle.atomic);
    assert!(bundle.total_value.eq_value(&d("100500")));
    assert!(shield.submit_private(&bundle).is_ok());
}

#[test]
fn test_sandwich_detection() {
    let shield = MevShield::with_defaults();
    let order = test_order(d("1.0"), OrderType::Market);
    let context = MevContext { mempool_tx_count: 15000, gas_price: d("100"), recent_sandwiches: 5, ..MevContext::default() };
    let analysis = shield.analyze_risk(&order, Some(&context));
    assert_eq!(analysis.sandwich_risk, MevRisk::High);
}

#[test]
fn test_legacy_mev_analysis() {
    let shield = LegacyMevShield::default();
    let order = test_order(d("0.01"), OrderType::Limit);
    let analysis = shield.analyze_risk(&order);
    assert_eq!(analysis.overall, MevRisk::Low);
}

#[test]
fn test_legacy_protect() {
    let shield = LegacyMevShield::new(true);
    let order = test_order(d("2.0"), OrderType::Market);
    let protected = shield.protect(&order);
    assert!(protected.use_private_pool);
}

#[test]
fn mempool_keeps_last_hundred() {
    let mut shield = MevShield::with_defaults();
    for _ in 0..120 {
        shield.update_mempool_context(MevContext::default());
    }
    let bundle = shield.create_bundle(vec![]);
    assert_eq!(bundle.overall_risk, MevRisk::Low);
    assert!(bundle.total_value.eq_value(&zero()));
}

#[test]
fn test_route_no_quotes() {
    let router = SmartOrderRouter::with_defaults();
    let order = test_order(d("0.1"), OrderType::Market);
    let routed = router.route(&order);
    assert_eq!(routed.routes.len(), 1);
    assert_eq!(routed.routes[0].venue, Venue::Primary);
    assert!(routed.total_cost_bps.eq_value(&d("25")));
}

#[test]
fn test_route_with_quotes() {
    let mut router = SmartOrderRouter::with_defaults();
    router.update_quote("BTC-USDT", quote(Venue::Okx, "67000", "1000000", "10", "5", 50));
    router.update_quote("BTC-USDT", quote(Venue::XLayerDex, "67100", "500000", "30", "15", 2000));
    let order = test_order(d("0.1"), OrderType::Market);
    let routed = router.route(&order);
    assert_eq!(routed.routes[0].venue, Venue::Okx);
    assert_eq!(router.best_venue("BTC-USDT", true), Some(Venue::Okx));
    assert_eq!(router.best_venue("ETH-USDT", true), None);
}

#[test]
fn test_split_large_order() {
    let mut router = SmartOrderRouter::with_defaults();
    router.update_quote("BTC-USDT", quote(Venue::Okx, "67000", "8000", "10", "5", 50));
    router.update_quote("BTC-USDT", quote(Venue::XLayerDex, "67050", "8000", "30", "10", 2000));
    let mut order = test_order(d("0.1"), OrderType::Market);
    order.size = d("1.0");
    order.limit_price = Some(d("67000"));
    let routed = router.route(&order);
    assert!(routed.split);
    assert!(routed.routes.len() >= 2);
}

#[test]
fn split_with_zero_price_is_refused() {
    let mut router = SmartOrderRouter::with_defaults();
    router.update_quote("BTC-USDT", quote(Venue::Okx, "0", "8000", "10", "5", 50));
    let order = test_order(d("1.0"), OrderType::Market);
    assert!(router.try_route(&order).is_none());
    assert!(router.try_estimate_cost(&order).is_none());
}

#[test]
fn test_compare_venues() {
    let mut router = SmartOrderRouter::with_defaults();
    router.update_quote("BTC-USDT", quote(Venue::Okx, "67000", "1000000", "10", "5", 50));
    router.update_quote("BTC-USDT", quote(Venue::XLayerDex, "66900", "500000", "30", "15", 2000));
    let order = test_order(d("0.1"), OrderType::Market);
    let comparisons = router.compare_venues(&order);
    assert_eq!(comparisons.len(), 2);
    assert!(comparisons[0].total_cost_bps.le(&comparisons[1].total_cost_bps));
}

#[test]
fn feasibility_reports_liquidity() {
    let mut router = SmartOrderRouter::with_defaults();
    router.update_quote("BTC-USDT", quote(Venue::Okx, "67000", "1000", "10", "5", 50));
    let order = test_order(d("0.1"), OrderType::Market);
    let check = router.is_feasible(&order);
    assert!(!check.feasible);
    assert_eq!(check.reason, Some("Insufficient liquidity: 1000 / 6700.0 USD".to_string()));
}

#[test]
fn test_legacy_no_split() {
    let router = LegacyRouter::default();
    let order = Order {
        symbol: "BTC-USDT".to_string(),
        side: Side::Long,
        size: d("0.01"),
        order_type: OrderType::Market,
        limit_price: Some(d("67000")),
        stop_loss: None,
        take_profit: None,
    };
    let plan = router.create_execution_plan(&order, None);
    assert!(!plan.split);
    assert_eq!(plan.parts.len(), 1);
}

#[test]
fn test_legacy_split() {
    let router = LegacyRouter::new(d("100"), d("50"));
    let mut order = test_order(d("0.1"), OrderType::Market);
    order.size = d("1.0");
    let plan = router.create_execution_plan(&order, None);
    assert!(plan.split);
    assert!(plan.parts.len() > 1);
    assert_eq!(plan.parts.len(), 670);
    assert_eq!(plan.parts[2].delay_ms, 200);
}

#[test]
fn test_paper_execute() {
    let mut trader = PaperTrader::new();
    let order = Order {
        symbol: "BTC-USDT".to_string(),
        side: Side::Long,
        size: d("0.1"),
        order_type: OrderType::Market,
        limit_price: None,
        stop_loss: Some(d("65000")),
        take_profit: Some(d("70000")),
    };
    let result = trader.execute(&order, d("67000"), Ok(())).unwrap();
    assert_eq!(result.symbol, "BTC-USDT");
    assert!(result.price.gt(&d("67000")));
    assert!(result.fee.gt(&zero()));
    assert_eq!(result.order_id, "paper-1");
    assert_eq!(result.venue, "paper");
    let second = trader.execute(&order, d("67000"), Ok(())).unwrap();
    assert_eq!(second.order_id, "paper-2");
    assert!(trader.execute(&order, d("67000"), Err("Max positions reached".to_string())).is_err());
}

#[test]
fn test_paper_close() {
    let trader = PaperTrader::new();
    let exit = trader.close_price("BTC-USDT", Some(Side::Long), d("68000")).unwrap();
    // Closing a long sells: 5 bps below the market price.
    assert!(exit.eq_value(&d("67966")));
    let (pnl, outcome) = live::close_result(
        &simmons::market::Position {
            id: "1".to_string(),
            symbol: "BTC-USDT".to_string(),
            side: Side::Long,
            size: d("0.1"),
            entry_price: d("67033.5"),
            current_price: d("67033.5"),
            stop_loss: None,
            take_profit: None,
            opened_at: 0,
            unrealized_pnl: zero(),
        },
        exit,
    );
    assert!(pnl.gt(&zero()));
    assert_eq!(outcome, simmons::market::TradeOutcome::Win);
    assert_eq!(trader.close_price("ETH-USDT", None, d("1")).err(), Some("Position not found: ETH-USDT".to_string()));
}

#[test]
fn test_close_result_short_profit() {
    let position = simmons::market::Position {
        id: "2".to_string(),
        symbol: "ETH-USDT".to_string(),
        side: Side::Short,
        size: d("2"),
        entry_price: d("3000"),
        current_price: d("3000"),
        stop_loss: None,
        take_profit: None,
        opened_at: 0,
        unrealized_pnl: zero(),
    };
    // (exit - entry) * size * -1 = (2900 - 3000) * 2 * -1 = 200
    let (pnl, outcome) = live::close_result(&position, d("2900"));
    assert!(pnl.eq_value(&d("200")));
    assert_eq!(outcome, simmons::market::TradeOutcome::Win);
    let (loss, lost) = live::close_result(&position, d("3050.5"));
    assert!(loss.eq_value(&d("-101")));
    assert_eq!(lost, simmons::market::TradeOutcome::Loss);
}

#[test]
fn test_split_sizes_add_up_to_order() {
    let mut router = SmartOrderRouter::with_defaults();
    router.update_quote("BTC-USDT", quote(Venue::Okx, "67000", "8000", "10", "5", 50));
    router.update_quote("BTC-USDT", quote(Venue::XLayerDex, "67050", "8000", "30", "10", 2000));
    let mut order = test_order(d("1.0"), OrderType::Market);
    order.limit_price = Some(d("67000"));
    let routed = router.route(&order);
    let mut total = Dec::zero();
    for r in &routed.routes {
        total = total.add(r.size);
    }
    assert!(total.eq_value(&d("1.0")));
    assert_eq!(routed.split, routed.routes.len() > 1);
}
