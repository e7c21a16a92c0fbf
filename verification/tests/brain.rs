use simmons::brain::consensus::{ConsensusAction, ConsensusConfig, ConsensusEngine, MergedContext};
use simmons::brain::feedback::{FeedbackConfig, FeedbackLoop};
use simmons::brain::fund_brain::{
    FundAction, FundBrain, FundBrainOutput, FundRecommendation, SecurityAssessment, TwitterSentiment, WhaleAction,
    WhaleSignal,
};
use simmons::brain::learning::{LearningEngine, MarketConditions};
use simmons::brain::reflect::{MistakeType, ReflectSystem, TradeRecord, TradeSide};
use simmons::brain::ta_brain::{
    GuardConfig, GuardState, PulseDirection, PulseSignal, RadarScore, RadarTier, TAAction, TABrain, TABrainOutput,
    TARecommendation,
};
use simmons::brain::types::{BrainDecision, BrainState};
use simmons::decimal::Dec;
use simmons::market::{Action, Regime, Side, Trade, TradeOutcome};

fn d(s: &str) -> Dec {
    Dec::parse(s).unwrap()
}

fn zero() -> Dec {
    Dec::zero()
}

fn make_ta_output(sentiment: Dec, confidence: Dec, action: TAAction) -> TABrainOutput {
    TABrainOutput {
        symbol: "BTC".to_string(),
        radar_score: RadarScore {
            score: 200,
            market_structure: 70,
            technicals: 80,
            funding: 50,
            tier: RadarTier::Solid,
            recommended_strategy: Some("momentum".to_string()),
            symbol: "BTC".to_string(),
            timestamp: 0,
        },
        pulse_signal: PulseSignal {
            tier: 4,
            immediate_mover: 70,
            volume_surge: 60,
            direction: PulseDirection::Up,
            strength: d("0.65"),
            symbol: "BTC".to_string(),
            timestamp: 0,
        },
        regime: Regime::TrendingUp,
        strategy_signals: vec![],
        guard_states: vec![],
        overall_sentiment: sentiment,
        overall_confidence: confidence,
        recommended_action: TARecommendation {
            action,
            strategy: None,
            size_factor: d("0.8"),
            confidence,
            reasoning: "Test".to_string(),
        },
        timestamp: 0,
    }
}

fn make_fund_output(sentiment: Dec, confidence: Dec, action: FundAction) -> FundBrainOutput {
    FundBrainOutput {
        symbol: "BTC".to_string(),
        chain: "ethereum".to_string(),
        whale_sentiment: sentiment,
        whale_signals: vec![],
        twitter_sentiment: sentiment,
        twitter_data: None,
        news_sentiment: sentiment,
        news_data: None,
        security: None,
        overall_sentiment: sentiment,
        overall_confidence: confidence,
        recommendation: FundRecommendation {
            action,
            confidence,
            size_modifier: d("0.9"),
            reasoning: "Test".to_string(),
            security_warnings: vec![],
        },
        timestamp: 0,
    }
}

fn make_trade(pnl: Dec, outcome: TradeOutcome) -> Trade {
    Trade {
        id: "t".to_string(),
        symbol: "BTC-USDT".to_string(),
        side: Side::Long,
        size: d("0.1"),
        entry_price: d("67000"),
        exit_price: d("67000").add(pnl.mul(d("10"))),
        pnl,
        outcome,
        reason: "test".to_string(),
        opened_at: 1_700_000_000,
        closed_at: 1_700_000_000,
    }
}

fn make_whale_signal(action: WhaleAction, value: Dec, smart_money: bool) -> WhaleSignal {
    WhaleSignal {
        address: "0x123".to_string(),
        action,
        token: "BTC".to_string(),
        chain: "ethereum".to_string(),
        value_usd: value,
        is_smart_money: smart_money,
        timestamp: chrono::Utc::now().timestamp(),
    }
}

fn weight_of(v: &Vec<(String, Dec)>, name: &str) -> Dec {
    v.iter().find(|(n, _)| n == name).unwrap().1
}

#[test]
fn test_merge_aligned_bullish() {
    let engine = ConsensusEngine::with_defaults();
    let ta = make_ta_output(d("0.7"), d("0.8"), TAAction::Long);
    let fund = make_fund_output(d("0.6"), d("0.75"), FundAction::Bullish);
    let merged = engine.merge(&ta, &fund);
    assert_eq!(merged.consensus_action, ConsensusAction::Long);
    assert!(!merged.is_conflict);
    assert!(merged.merged_sentiment.gt(&d("0.5")));
}

#[test]
fn test_merge_conflict() {
    let engine = ConsensusEngine::with_defaults();
    let ta = make_ta_output(d("0.7"), d("0.8"), TAAction::Long);
    let fund = make_fund_output(d("-0.5"), d("0.75"), FundAction::Bearish);
    let merged = engine.merge(&ta, &fund);
    assert!(merged.is_conflict);
    assert!(merged.conflict_reason.is_some());
    assert!(merged.size_factor.lt(&d("0.5")));
}

#[test]
fn consensus_test_security_block() {
    let engine = ConsensusEngine::with_defaults();
    let ta = make_ta_output(d("0.7"), d("0.8"), TAAction::Long);
    let mut fund = make_fund_output(d("0.6"), d("0.75"), FundAction::Bullish);
    fund.security = Some(SecurityAssessment {
        token: "BTC".to_string(),
        chain: "ethereum".to_string(),
        is_honeypot: true,
        buy_tax: Some(d("50")),
        sell_tax: Some(d("90")),
        can_take_ownership: true,
        can_change_balance: false,
        is_mintable: false,
        liquidity_usd: Some(d("1000")),
        risk_score: 95,
        red_flags: vec!["Honeypot".to_string()],
        timestamp: 0,
    });
    let merged = engine.merge(&ta, &fund);
    assert_eq!(merged.consensus_action, ConsensusAction::Blocked);
    assert!(merged.size_factor.eq_value(&zero()));
}

#[test]
fn test_adaptive_weights() {
    let mut engine = ConsensusEngine::with_defaults();
    for _ in 0..8 {
        engine.record_outcome(true, false, true);
    }
    for _ in 0..2 {
        engine.record_outcome(false, true, false);
    }
    let (ta_weight, fund_weight) = engine.get_weights();
    assert!(ta_weight.gt(&d("0.5")));
    assert!(fund_weight.lt(&d("0.5")));
}

#[test]
fn test_on_trade_complete() {
    let mut feedback = FeedbackLoop::with_defaults();
    feedback.mark_synced();
    feedback.on_trade_complete(
        make_trade(d("100"), TradeOutcome::Win),
        "Test trade",
        vec!["momentum".to_string()],
        vec![],
        MarketConditions::default(),
    );
    assert_eq!(feedback.pending_trades(), 1);
    assert_eq!(feedback.learning().history().len(), 1);
}

#[test]
fn test_sync_triggers() {
    let mut feedback = FeedbackLoop::with_defaults();
    feedback.mark_synced();
    for _ in 0..FeedbackConfig::default().min_trades_before_sync {
        feedback.on_trade_complete(
            make_trade(d("50"), TradeOutcome::Win),
            "Test",
            vec!["momentum".to_string()],
            vec![],
            MarketConditions::default(),
        );
    }
    assert_eq!(feedback.pending_trades(), 0);
}

#[test]
fn test_performance_report() {
    let mut feedback = FeedbackLoop::with_defaults();
    for i in 0..20 {
        let (pnl, outcome) = if i % 3 != 0 { (d("50"), TradeOutcome::Win) } else { (d("-30"), TradeOutcome::Loss) };
        feedback.on_trade_complete(make_trade(pnl, outcome), "Test", vec!["momentum".to_string()], vec![], MarketConditions::default());
    }
    let report = feedback.performance_report();
    assert_eq!(report.total_trades, 20);
    assert!(report.win_rate.gt(&d("0.5")));
}

#[test]
fn test_strategy_health() {
    let mut feedback = FeedbackLoop::with_defaults();
    for _ in 0..15 {
        feedback.on_trade_complete(make_trade(d("40"), TradeOutcome::Win), "Test", vec!["momentum".to_string()], vec![], MarketConditions::default());
    }
    for _ in 0..12 {
        feedback.on_trade_complete(make_trade(d("-35"), TradeOutcome::Loss), "Test", vec!["mean_rev".to_string()], vec![], MarketConditions::default());
    }
    let health = feedback.evaluate_strategy_health();
    assert!(health.healthy.iter().any(|s| s.name == "momentum"));
    assert!(health.critical.iter().any(|s| s.name == "mean_rev"));
}

#[test]
fn test_weight_adjustment() {
    let mut feedback = FeedbackLoop::with_defaults();
    let initial_momentum = weight_of(feedback.weights(), "momentum");
    for _ in 0..20 {
        feedback.on_trade_complete(make_trade(d("50"), TradeOutcome::Win), "Test", vec!["momentum".to_string()], vec![], MarketConditions::default());
    }
    feedback.sync_learnings();
    let new_momentum = weight_of(feedback.weights(), "momentum");
    assert!(new_momentum.ge(&initial_momentum));
}

#[test]
fn test_whale_sentiment_bullish() {
    let mut brain = FundBrain::with_defaults();
    let signals = vec![
        make_whale_signal(WhaleAction::Buy, d("500000"), true),
        make_whale_signal(WhaleAction::Buy, d("200000"), false),
    ];
    brain.update_whale_signals("BTC", signals);
    let (sentiment, _) = brain.calculate_whale_sentiment("BTC");
    assert!(sentiment.gt(&zero()));
}

#[test]
fn test_whale_sentiment_bearish() {
    let mut brain = FundBrain::with_defaults();
    let signals = vec![
        make_whale_signal(WhaleAction::Sell, d("500000"), true),
        make_whale_signal(WhaleAction::RemoveLiquidity, d("200000"), false),
    ];
    brain.update_whale_signals("BTC", signals);
    let (sentiment, _) = brain.calculate_whale_sentiment("BTC");
    assert!(sentiment.lt(&zero()));
}

#[test]
fn fund_brain_test_security_block() {
    let assessment = SecurityAssessment {
        token: "SCAM".to_string(),
        chain: "ethereum".to_string(),
        is_honeypot: true,
        buy_tax: Some(d("50")),
        sell_tax: Some(d("90")),
        can_take_ownership: true,
        can_change_balance: true,
        is_mintable: true,
        liquidity_usd: Some(d("1000")),
        risk_score: 95,
        red_flags: vec!["Honeypot detected".to_string(), "High tax".to_string()],
        timestamp: 0,
    };
    assert!(assessment.should_block());
    assert!(!assessment.is_safe());
}

#[test]
fn test_security_safe() {
    let assessment = SecurityAssessment {
        token: "SAFE".to_string(),
        chain: "ethereum".to_string(),
        is_honeypot: false,
        buy_tax: Some(d("1")),
        sell_tax: Some(d("1")),
        can_take_ownership: false,
        can_change_balance: false,
        is_mintable: false,
        liquidity_usd: Some(d("1000000")),
        risk_score: 10,
        red_flags: vec![],
        timestamp: 0,
    };
    assert!(assessment.is_safe());
    assert!(!assessment.should_block());
    assert!(!assessment.should_warn());
}

#[test]
fn test_overall_sentiment() {
    let brain = FundBrain::with_defaults();
    let s = brain.calculate_overall_sentiment(d("0.8"), d("0.6"), d("0.4"));
    assert!(s.gt(&d("0.5")));
    let s = brain.calculate_overall_sentiment(d("-0.8"), d("-0.6"), d("-0.4"));
    assert!(s.lt(&d("-0.5")));
    let s = brain.calculate_overall_sentiment(d("0.5"), d("-0.3"), d("0.1"));
    assert!(s.gt(&d("-0.1")) && s.lt(&d("0.3")));
}

#[test]
fn test_analyze_with_data() {
    let brain = FundBrain::with_defaults();
    let whale_signals = vec![make_whale_signal(WhaleAction::Buy, d("500000"), true)];
    let twitter = Some(TwitterSentiment {
        token: "BTC".to_string(),
        sentiment_score: d("0.6"),
        mention_count: 1000,
        kol_mentions: vec![],
        trending_score: 75,
        window_hours: 4,
        timestamp: 0,
    });
    let output = brain.analyze_with_data("BTC", "ethereum", whale_signals, twitter, None, None);
    assert!(output.overall_sentiment.gt(&zero()));
    assert!(output.overall_confidence.gt(&d("0.4")));
    assert_eq!(output.recommendation.action, FundAction::Bullish);
}

#[test]
fn test_record_outcome() {
    let mut engine = LearningEngine::with_defaults();
    engine.record_outcome(
        make_trade(d("100"), TradeOutcome::Win),
        "Test trade",
        vec!["momentum".to_string()],
        vec!["pattern1".to_string()],
        MarketConditions::default(),
    );
    assert_eq!(engine.history().len(), 1);
    assert!(engine.pattern_effectiveness().iter().any(|(k, _)| k == "pattern1"));
    assert!(engine.strategy_performance().iter().any(|(k, _)| k == "momentum"));
}

#[test]
fn test_pattern_stats() {
    let mut engine = LearningEngine::with_defaults();
    for i in 0..20 {
        let (pnl, outcome) = if i < 15 { (d("50"), TradeOutcome::Win) } else { (d("-30"), TradeOutcome::Loss) };
        engine.record_outcome(make_trade(pnl, outcome), "Test", vec![], vec!["test_pattern".to_string()], MarketConditions::default());
    }
    let stats = &engine.pattern_effectiveness().iter().find(|(k, _)| k == "test_pattern").unwrap().1;
    assert_eq!(stats.total_trades, 20);
    assert_eq!(stats.wins, 15);
    assert_eq!(stats.losses, 5);
    assert!(stats.win_rate.gt(&d("0.7")));
    assert!(stats.is_effective);
}

#[test]
fn test_generate_insights() {
    let mut engine = LearningEngine::with_defaults();
    for i in 0..30 {
        let (pnl, outcome) = if i % 3 != 0 { (d("40"), TradeOutcome::Win) } else { (d("-25"), TradeOutcome::Loss) };
        engine.record_outcome(make_trade(pnl, outcome), "Test", vec!["momentum".to_string()], vec!["pattern1".to_string()], MarketConditions::default());
    }
    let insights = engine.generate_insights();
    assert!(insights.period_trades > 0);
    assert!(insights.period_win_rate.gt(&d("0.5")));
}

#[test]
fn test_weight_adjustments() {
    let mut engine = LearningEngine::with_defaults();
    for _ in 0..20 {
        engine.record_outcome(make_trade(d("50"), TradeOutcome::Win), "Test", vec!["momentum".to_string()], vec![], MarketConditions::default());
    }
    for _ in 0..15 {
        engine.record_outcome(make_trade(d("-30"), TradeOutcome::Loss), "Test", vec!["mean_rev".to_string()], vec![], MarketConditions::default());
    }
    let current = vec![("momentum".to_string(), d("0.25")), ("mean_rev".to_string(), d("0.25"))];
    let adjusted = engine.adjust_weights(&current);
    assert!(weight_of(&adjusted, "momentum").gt(&d("0.25")));
    assert!(weight_of(&adjusted, "mean_rev").lt(&d("0.25")));
}

fn make_test_context(sentiment: Dec, is_conflict: bool) -> MergedContext {
    let mut ta = make_ta_output(sentiment, d("0.75"), TAAction::Long);
    ta.radar_score.recommended_strategy = None;
    let fund = make_fund_output(sentiment, d("0.7"), FundAction::Bullish);
    MergedContext {
        symbol: "BTC".to_string(),
        chain: "ethereum".to_string(),
        ta,
        fund,
        merged_sentiment: sentiment,
        merged_confidence: d("0.72"),
        consensus_action: ConsensusAction::Long,
        is_conflict,
        conflict_reason: if is_conflict { Some("Test conflict".to_string()) } else { None },
        size_factor: d("0.7"),
        regime: Regime::TrendingUp,
        timestamp: 0,
    }
}

fn open_trade(id: &str, context: MergedContext, fund_agreed: bool) -> TradeRecord {
    TradeRecord {
        id: id.to_string(),
        symbol: "BTC-USDT".to_string(),
        entry_time: 1_700_000_000,
        exit_time: None,
        entry_price: d("65000"),
        exit_price: None,
        side: TradeSide::Long,
        size_pct: d("0.1"),
        pnl_usd: None,
        pnl_pct: None,
        outcome: None,
        entry_context: context,
        ta_agreed: true,
        fund_agreed,
        reflection: None,
    }
}

#[test]
fn test_record_and_reflect() {
    let mut reflect = ReflectSystem::new("data");
    reflect.record_entry(open_trade("test_1", make_test_context(d("0.7"), false), true));
    let reflection = reflect.record_exit("test_1", d("66000"), d("10"), d("1.54"));
    assert!(reflection.is_some());
    let stats = reflect.get_stats();
    assert_eq!(stats.total_trades, 1);
    assert_eq!(stats.wins, 1);
}

#[test]
fn test_mistake_detection() {
    let mut reflect = ReflectSystem::new("data");
    reflect.record_entry(open_trade("test_2", make_test_context(d("0.5"), true), false));
    reflect.record_exit("test_2", d("64000"), d("-10"), d("-1.54"));
    assert!(!reflect.get_mistakes().is_empty());
    assert_eq!(reflect.get_mistakes()[0].mistake_type, MistakeType::IgnoredConflict);
}

fn sample_prices() -> Vec<Dec> {
    (0..100).map(|i| d("65000").add(Dec::from_i64(i * 100))).collect()
}

fn sample_volumes() -> Vec<Dec> {
    (0..100).map(|_| d("1000000")).collect()
}

#[test]
fn test_radar_score() {
    let brain = TABrain::with_defaults();
    let radar = brain.calculate_radar("BTC-USDT", &sample_prices(), d("50000000"), Some(d("100000000")), Some(d("0.001")), Regime::TrendingUp);
    assert!(radar.score > 0);
    assert!(radar.score <= 400);
    assert!(radar.market_structure <= 140);
    assert!(radar.technicals <= 160);
    assert!(radar.funding <= 100);
}

#[test]
fn test_pulse_signal() {
    let brain = TABrain::with_defaults();
    let pulse = brain.calculate_pulse("BTC-USDT", &sample_prices(), &sample_volumes());
    assert!(pulse.tier >= 1 && pulse.tier <= 6);
    assert!(pulse.strength.le(&Dec::one()));
}

#[test]
fn test_guard_state() {
    let mut guard = GuardState::new("test".to_string(), "BTC-USDT".to_string(), d("65000"));
    let config = GuardConfig::default();
    guard.update(d("67000"), &config);
    assert!(!guard.is_triggered(d("67000")));
    assert!(guard.roe_pct.gt(&zero()));
    guard.update(d("63000"), &config);
    assert!(guard.is_triggered(d("63000")));
}

#[test]
fn test_ta_brain_analyze() {
    let mut brain = TABrain::with_defaults();
    let output = brain.analyze("BTC-USDT", &sample_prices(), &sample_volumes(), Regime::TrendingUp, d("50000000"), Some(d("100000000")), Some(d("0.001")));
    assert_eq!(output.symbol, "BTC-USDT");
    assert!(!output.strategy_signals.is_empty());
}

#[test]
fn test_brain_decision_parse() {
    let decision = BrainDecision {
        action: "trade".to_string(),
        symbol: Some("BTC-USDT".to_string()),
        side: Some("long".to_string()),
        size_pct: Some(d("0.12")),
        confidence: d("0.85"),
        reasoning: "Strong momentum signal".to_string(),
        stop_loss_pct: Some(d("0.03")),
        take_profit_pct: Some(d("0.08")),
    };
    assert_eq!(decision.action(), Action::Trade);
    assert_eq!(decision.side(), Some(Side::Long));
    assert!(decision.size_pct.unwrap().eq_value(&d("0.12")));
}

#[test]
fn test_brain_state() {
    let mut state = BrainState::default();
    state.record_trade(TradeOutcome::Win, d("10"));
    state.record_trade(TradeOutcome::Win, d("5"));
    state.record_trade(TradeOutcome::Loss, d("-8"));
    assert_eq!(state.total_trades, 3);
    assert_eq!(state.wins, 2);
    assert_eq!(state.losses, 1);
    assert!(state.total_pnl.eq_value(&d("7")));
}

#[test]
fn test_learning_mut_records_in_place() {
    let mut feedback = FeedbackLoop::with_defaults();
    feedback.learning_mut().record_outcome(
        make_trade(d("25"), TradeOutcome::Win),
        "Direct",
        vec!["momentum".to_string()],
        vec![],
        MarketConditions::default(),
    );
    assert_eq!(feedback.learning().history().len(), 1);
    assert_eq!(feedback.pending_trades(), 0);
}

#[test]
fn test_analyze_with_data_recommendation() {
    let brain = FundBrain::with_defaults();
    let whales = vec![make_whale_signal(WhaleAction::Buy, d("500000"), true)];
    let out = brain.analyze_with_data("BTC", "ethereum", whales, None, None, None);
    // whale data only: confidence 0.30 + 0.25, which also sizes the trade
    assert!(out.overall_confidence.eq_value(&d("0.55")));
    assert!(out.recommendation.size_modifier.eq_value(&d("0.55")));
    assert!(out.recommendation.confidence.eq_value(&d("0.55")));
    assert!(out.recommendation.security_warnings.is_empty());
}

#[test]
fn test_analyze_with_data_sizes_by_confidence() {
    let brain = FundBrain::with_defaults();
    let whales = vec![make_whale_signal(WhaleAction::Buy, d("500000"), true)];
    let twitter = Some(TwitterSentiment {
        token: "BTC".to_string(),
        sentiment_score: d("0.6"),
        mention_count: 1000,
        kol_mentions: vec![],
        trending_score: 75,
        window_hours: 4,
        timestamp: 0,
    });
    let o = brain.analyze_with_data("BTC", "ethereum", whales, twitter, None, None);
    assert!(o.whale_sentiment.eq_value(&d("1")));
    assert!(o.twitter_sentiment.eq_value(&d("0.6")));
    assert!(o.overall_sentiment.eq_value(&d("0.68")));
    assert!(o.overall_confidence.eq_value(&d("0.75")));
    assert_eq!(o.recommendation.action, FundAction::Bullish);
    assert!(o.recommendation.size_modifier.eq_value(&d("0.75")));
    assert_eq!(o.whale_signals.len(), 1);
    assert!(o.news_data.is_none());
}

#[test]
fn test_analyze_reads_caches() {
    let mut brain = FundBrain::with_defaults();
    brain.update_whale_signals("BTC", vec![make_whale_signal(WhaleAction::Buy, d("500000"), true)]);
    brain.update_twitter_sentiment(
        "btc",
        TwitterSentiment {
            token: "BTC".to_string(),
            sentiment_score: d("0.6"),
            mention_count: 10,
            kol_mentions: vec![],
            trending_score: 5,
            window_hours: 4,
            timestamp: 0,
        },
    );
    let o = brain.analyze("BTC", "ethereum");
    assert_eq!(o.whale_signals.len(), 1);
    assert!(o.twitter_data.is_some());
    assert!(o.security.is_none());
    assert!(o.overall_confidence.eq_value(&d("0.75")));
    assert!(o.recommendation.size_modifier.eq_value(&d("0.75")));
}

#[test]
fn test_merge_weighted_sum_default_weights() {
    let engine = ConsensusEngine::with_defaults();
    let ta = make_ta_output(d("0.5"), d("0.8"), TAAction::Long);
    let fund = make_fund_output(d("0.25"), d("0.75"), FundAction::Bullish);
    let merged = engine.merge(&ta, &fund);
    // 0.6 * 0.5 + 0.4 * 0.25
    assert!(merged.merged_sentiment.eq_value(&d("0.4")));
    let strong = engine.merge(&make_ta_output(d("1"), d("0.8"), TAAction::Long), &make_fund_output(d("1"), d("0.8"), FundAction::Bullish));
    assert!(strong.merged_sentiment.eq_value(&d("1")));
}

#[test]
fn test_default_engine_halves_size_on_conflict() {
    let engine = ConsensusEngine::with_defaults();
    let mut config = ConsensusConfig::default();
    config.conflict_reduces_size = false;
    let unreduced = ConsensusEngine::new(config);
    let ta = make_ta_output(d("0.7"), d("0.8"), TAAction::Long);
    let fund = make_fund_output(d("-0.5"), d("0.75"), FundAction::Bearish);
    let halved = engine.merge(&ta, &fund);
    let full = unreduced.merge(&ta, &fund);
    assert!(halved.is_conflict);
    assert!(halved.size_factor.mul(d("2")).eq_value(&full.size_factor));
    assert!(!halved.size_factor.eq_value(&full.size_factor));
}

#[test]
fn test_default_consensus_config_values() {
    let c = ConsensusConfig::default();
    assert!(c.ta_weight.eq_value(&d("0.6")));
    assert!(c.fund_weight.eq_value(&d("0.4")));
    assert!(c.min_confidence.eq_value(&d("0.5")));
    assert!(c.conflict_threshold.eq_value(&d("0.5")));
    assert!(c.conflict_reduces_size);
    assert!(c.conflict_size_multiplier.eq_value(&d("0.5")));
    assert!(c.adaptive_weights);
}

#[test]
fn test_default_fund_config_values() {
    let c = simmons::brain::fund_brain::FundBrainConfig::default();
    assert!(c.weights.whale.eq_value(&d("0.5")));
    assert!(c.weights.twitter.eq_value(&d("0.3")));
    assert!(c.weights.news.eq_value(&d("0.2")));
    assert!(c.min_whale_trade_usd.eq_value(&d("100000")));
    assert_eq!(c.tracked_accounts, vec!["@solana", "@base", "@coinbase", "@binance", "@ethereum"]);
    assert_eq!(c.news_feeds.len(), 3);
    assert!(c.max_tax_pct.eq_value(&d("10")));
    assert!(c.block_honeypot);
    assert!(c.min_liquidity_usd.eq_value(&d("50000")));
}

#[test]
fn test_default_ta_config_values() {
    let c = simmons::brain::ta_brain::TABrainConfig::default();
    assert_eq!((c.radar_elite_threshold, c.radar_solid_threshold, c.radar_marginal_threshold), (250, 170, 140));
    assert_eq!((c.pulse_immediate_threshold, c.pulse_volume_threshold), (80, 70));
    assert_eq!(c.guard_config.phase1_max_breaches, 3);
    assert!(c.guard_config.phase2_retrace.eq_value(&d("0.015")));
    assert_eq!(c.enabled_strategies.len(), 7);
    assert_eq!((c.max_positions, c.leverage), (3, 10));
}

#[test]
fn test_stats_count_closed_trades() {
    let mut reflect = ReflectSystem::new("data");
    reflect.record_entry(open_trade("w", make_test_context(d("0.7"), false), true));
    reflect.record_entry(open_trade("l", make_test_context(d("0.7"), false), false));
    reflect.record_entry(open_trade("open", make_test_context(d("0.7"), false), true));
    reflect.record_exit("w", d("66000"), d("10"), d("1.54"));
    reflect.record_exit("l", d("64000"), d("-10"), d("-1.54"));
    let stats = reflect.get_stats();
    assert_eq!(stats.total_trades, 2);
    assert_eq!(stats.wins, 1);
    assert_eq!(stats.losses, 1);
    assert!(stats.win_rate.eq_value(&d("0.5")));
    assert!(stats.ta_accuracy.eq_value(&d("0.5")));
    assert!(stats.fund_accuracy.eq_value(&d("1")));
    assert!(stats.total_pnl.eq_value(&zero()));
}

#[test]
fn test_breakeven_reflection_shape() {
    let mut reflect = ReflectSystem::new("data");
    reflect.record_entry(open_trade("b", make_test_context(d("0.7"), false), true));
    let r = reflect.record_exit("b", d("65100"), d("1"), d("0.15")).unwrap();
    assert_eq!(r.outcome, simmons::brain::reflect::TradeOutcome::Breakeven);
    assert!(r.what_worked.is_empty());
    assert!(r.what_failed.is_empty());
    assert!(r.adjustments.is_empty());
    assert_eq!(r.lessons, vec!["Consider tighter profit targets".to_string()]);
    assert!(r.confidence.eq_value(&d("0.5")));
}
