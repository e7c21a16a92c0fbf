use simmons::alpha::autoresearch::{AutoresearchAgent, HypothesisStatus};
use simmons::alpha::patterns::{
    Pattern, PatternDatabase, PatternMiner, PatternSignal, PatternState, PatternStats, PatternType,
};
use simmons::decimal::Dec;
use simmons::market::{MarketState, Regime, Side, Trade, TradeOutcome};

fn d(s: &str) -> Dec {
    Dec::parse(s).unwrap()
}

fn make_trade(pnl: Dec, outcome: TradeOutcome, opened_at: i64) -> Trade {
    Trade {
        id: "t".to_string(),
        symbol: "BTC-USDT".to_string(),
        side: Side::Long,
        size: d("0.1"),
        entry_price: d("67000"),
        exit_price: d("67000").add(pnl.mul(d("100"))),
        pnl,
        outcome,
        reason: "test".to_string(),
        opened_at,
        closed_at: opened_at,
    }
}

fn make_market_state() -> MarketState {
    MarketState {
        symbol: "BTC-USDT".to_string(),
        price: d("67000"),
        spread_bps: d("15"),
        volatility_1h: d("0.025"),
        regime: Regime::TrendingUp,
        cex_price: Some(d("67000")),
        dex_price: Some(d("67050")),
    }
}

fn test_pattern(id: &str, stats: PatternStats, state: PatternState) -> Pattern {
    Pattern {
        id: id.to_string(),
        name: "Test Pattern".to_string(),
        pattern_type: PatternType::TimeOfDay,
        conditions: vec![],
        signal: PatternSignal { side: Side::Long, confidence: d("0.8"), expected_return_bps: d("50"), hold_time_secs: 300 },
        statistics: stats,
        state,
        created_at: 0,
        last_seen_at: 0,
    }
}

#[test]
fn test_pattern_is_profitable() {
    let stats = PatternStats {
        sample_size: 100,
        win_rate: d("0.65"),
        avg_win: d("50"),
        avg_loss: d("30"),
        profit_factor: d("1.8"),
        max_drawdown: d("0.05"),
        sharpe_ratio: d("1.5"),
        confidence: d("0.8"),
    };
    let pattern = test_pattern("test", stats, PatternState::Active);
    assert!(pattern.is_profitable());
    assert!(pattern.is_validated());
}

#[test]
fn test_calculate_stats() {
    let miner = PatternMiner::with_defaults();
    let trades: Vec<Trade> = (0..50)
        .map(|i| {
            if i % 3 == 0 {
                make_trade(d("-10"), TradeOutcome::Loss, 36000)
            } else {
                make_trade(d("20"), TradeOutcome::Win, 36000)
            }
        })
        .collect();
    let trade_refs: Vec<&Trade> = trades.iter().collect();
    let stats = miner.calculate_stats(&trade_refs);
    assert!(stats.win_rate.gt(&d("0.6")));
    assert!(stats.profit_factor.gt(&d("1.5")));
}

#[test]
fn test_pattern_database() {
    let mut db = PatternDatabase::new();
    let stats = PatternStats {
        sample_size: 100,
        win_rate: d("0.65"),
        profit_factor: d("1.8"),
        ..PatternStats::default()
    };
    db.upsert(test_pattern("p1", stats, PatternState::Active));
    assert_eq!(db.active_patterns().len(), 1);
    assert!(db.get("p1").is_some());
}

#[test]
fn test_score_alpha_no_patterns() {
    let agent = AutoresearchAgent::with_defaults();
    let state = make_market_state();
    let score = agent.score_alpha(&state);
    assert!(score.score.eq_value(&Dec::zero()));
    assert!(score.contributing_patterns.is_empty());
}

#[test]
fn test_generate_hypotheses() {
    let mut agent = AutoresearchAgent::with_defaults();
    let state = make_market_state();
    let hypotheses = agent.generate_hypotheses(&state);
    assert!(!hypotheses.is_empty());
    assert_eq!(hypotheses[0].status, HypothesisStatus::Pending);
}

#[test]
fn test_accuracy_report_empty() {
    let agent = AutoresearchAgent::with_defaults();
    let report = agent.analyze_accuracy();
    assert_eq!(report.sample_size, 0);
}

#[test]
fn patterns_mined_by_hour_and_move() {
    let mut miner = PatternMiner::new(5, d("0"));
    // Five winning trades opened at 10:00 UTC, price up 2%.
    let trades: Vec<Trade> = (0..5).map(|_| make_trade(d("13.4"), TradeOutcome::Win, 36000)).collect();
    let found = miner.mine_patterns(&trades);
    let ids: Vec<&str> = found.iter().map(|p| p.id.as_str()).collect();
    assert_eq!(ids, vec!["tod_hour_10", "price_move_0"]);
    assert_eq!(found[0].name, "Hour 10 Edge");
    assert_eq!(found[1].name, "0% Move Pattern");
    assert_eq!(miner.discovered().len(), 2);
    // Without losses the profit factor is 10.
    assert!(found[0].statistics.profit_factor.eq_value(&d("10")));
    assert!(found[0].statistics.win_rate.eq_value(&d("1")));
}

#[test]
fn pattern_miner_refuses_zero_entry_price() {
    let mut miner = PatternMiner::with_defaults();
    let mut t = make_trade(d("1"), TradeOutcome::Win, 0);
    t.entry_price = Dec::zero();
    assert!(miner.try_mine_patterns(&[t]).is_none());
    assert!(miner.discovered().is_empty());
}

#[test]
fn upsert_replaces_by_id_and_deprecation_settles() {
    let mut db = PatternDatabase::new();
    let weak = PatternStats { sample_size: 60, win_rate: d("0.4"), profit_factor: d("0.9"), ..PatternStats::default() };
    db.upsert(test_pattern("p1", weak, PatternState::Active));
    db.upsert(test_pattern("p1", weak, PatternState::Active));
    assert_eq!(db.active_patterns().len(), 1);
    db.deprecate_underperforming(d("0.5"), d("1.0"));
    assert_eq!(db.get("p1").unwrap().state, PatternState::Deprecated);
    assert!(db.active_patterns().is_empty());
    db.deprecate_underperforming(d("0.5"), d("1.0"));
    assert_eq!(db.get("p1").unwrap().state, PatternState::Deprecated);
}

#[test]
fn top_features_most_important_first() {
    let mut db = PatternDatabase::new();
    db.update_feature_importance("rsi", d("0.2"));
    db.update_feature_importance("volume", d("0.7"));
    db.update_feature_importance("spread", d("0.5"));
    db.update_feature_importance("rsi", d("0.9"));
    let top: Vec<&str> = db.top_features(2).iter().map(|(n, _)| n.as_str()).collect();
    assert_eq!(top, vec!["rsi", "volume"]);
}

#[test]
fn hypothesis_validated_after_minimum_sample() {
    let mut agent = AutoresearchAgent::with_defaults();
    let mut state = make_market_state();
    state.spread_bps = d("40");
    let hs = agent.generate_hypotheses(&state);
    assert_eq!(hs.len(), 2);
    assert!(hs[0].id.starts_with("regime_trending_up_"));
    assert!(hs[1].id.starts_with("wide_spread_"));
    let id = hs[0].id.clone();
    let win = make_trade(d("5"), TradeOutcome::Win, 0);
    for _ in 0..29 {
        agent.test_hypothesis(&id, &win);
    }
    assert_eq!(agent.pending_hypotheses().len(), 2);
    agent.test_hypothesis(&id, &win);
    assert_eq!(agent.validated_hypotheses().len(), 1);
    let promoted = agent.promote_hypotheses();
    assert_eq!(promoted.len(), 1);
    assert_eq!(promoted[0].id, format!("from_hypo_{}", id));
    assert_eq!(promoted[0].state, PatternState::Active);
    assert!(promoted[0].statistics.confidence.eq_value(&d("0.95")));
    assert!(agent.validated_hypotheses().is_empty());
    assert!(agent.patterns().get(&promoted[0].id).is_some());
}

#[test]
fn accuracy_counts_direction() {
    let mut agent = AutoresearchAgent::with_defaults();
    let state = make_market_state();
    let score = agent.score_alpha(&state);
    agent.record_outcome(score.clone(), d("-1"));
    agent.record_outcome(score, d("2"));
    let report = agent.analyze_accuracy();
    assert_eq!(report.sample_size, 2);
    // A zero score predicts "not up": right for -1, wrong for 2.
    assert!(report.direction_accuracy.eq_value(&d("0.5")));
    assert!(report.average_actual_return.eq_value(&d("0.5")));
    // |0 - 1| / max(|0|, 1) = 1.
    assert!(report.prediction_error.eq_value(&d("1")));
}
