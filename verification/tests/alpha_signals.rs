use simmons::alpha::arbitrage::ArbitrageEngine;
use simmons::alpha::engine::AlphaEngine;
use simmons::alpha::forecaster::{Direction, ForecastHorizon, Forecaster, VolatilityRegime};
use simmons::alpha::mean_reversion::MeanReversionEngine;
use simmons::alpha::momentum::MomentumEngine;
use simmons::alpha::regime::RegimeDetector;
use simmons::decimal::Dec;
use simmons::market::{Regime, Signal, StrategySignal};

fn d(s: &str) -> Dec {
    Dec::parse(s).unwrap()
}

fn whole(i: i64) -> Dec {
    Dec::from_i64(i)
}

fn range(lo: i64, hi: i64) -> Vec<Dec> {
    (lo..hi).map(whole).collect()
}

fn zero() -> Dec {
    Dec::zero()
}

#[test]
fn test_cedefi_arb_profitable() {
    let engine = ArbitrageEngine::new(d("10"));
    let arb = engine.check_cedefi_arb("BTC-USDT", d("67000"), d("67670"), d("1000"));
    assert!(arb.is_some());
    let arb = arb.unwrap();
    assert_eq!(arb.buy_venue, "cex");
    assert_eq!(arb.sell_venue, "dex");
    assert!(arb.net_profit_usd.gt(&zero()));
}

#[test]
fn test_cedefi_arb_too_small() {
    let engine = ArbitrageEngine::new(d("30"));
    let arb = engine.check_cedefi_arb("BTC-USDT", d("67000"), d("67010"), d("1000"));
    assert!(arb.is_none());
}

#[test]
fn test_execution_profit_estimate() {
    let engine = ArbitrageEngine::default();
    let profit = engine.estimate_execution_profit(d("50"), d("100"), d("100000"));
    assert!(profit.gt(&zero()));
    let profit = engine.estimate_execution_profit(d("50"), d("10000"), d("10000"));
    assert!(profit.le(&zero()));
}

#[test]
fn test_generate_signals() {
    let engine = AlphaEngine::default();
    let prices = range(100, 130);
    let signals = engine.generate_signals("BTC-USDT", &prices);
    assert!(!signals.is_empty());
    let regime_sig = signals.iter().find(|s| s.strategy == "regime");
    assert!(regime_sig.is_some());
}

#[test]
fn test_combine_signals() {
    let engine = AlphaEngine::default();
    let signals = vec![
        StrategySignal { strategy: "momentum".to_string(), signal: Signal::Buy, confidence: d("0.8"), reason: "test".to_string() },
        StrategySignal { strategy: "mean_reversion".to_string(), signal: Signal::Buy, confidence: d("0.8"), reason: "test".to_string() },
    ];
    let (combined, confidence) = engine.combine_signals(&signals);
    assert!(combined.is_bullish());
    assert!(confidence.gt(&d("0.3")));
}

#[test]
fn test_regime_adjustment() {
    let engine = AlphaEngine::default();
    let boosted = engine.adjust_for_regime(d("0.7"), &Signal::Buy, Regime::TrendingUp);
    assert!(boosted.gt(&d("0.7")));
    let reduced = engine.adjust_for_regime(d("0.7"), &Signal::Buy, Regime::Choppy);
    assert!(reduced.lt(&d("0.7")));
}

#[test]
fn test_rsi_calculation() {
    let engine = MomentumEngine::default();
    let prices = range(100, 120);
    let rsi = engine.calculate_rsi(&prices).unwrap();
    assert!(rsi.gt(&d("50")));
    let prices: Vec<Dec> = (100..120).rev().map(whole).collect();
    let rsi = engine.calculate_rsi(&prices).unwrap();
    assert!(rsi.lt(&d("50")));
}

#[test]
fn test_roc_calculation() {
    let engine = MomentumEngine::new(5, 14);
    let prices: Vec<Dec> = vec![100, 102, 104, 106, 108, 110].into_iter().map(whole).collect();
    let roc = engine.calculate_roc(&prices).unwrap();
    assert!(roc.eq_value(&d("10")));
}

#[test]
fn test_signal_generation() {
    let engine = MomentumEngine::default();
    let prices = range(100, 130);
    let signal = engine.generate_signal(&prices).unwrap();
    assert!(signal.signal.is_bullish() || signal.signal == Signal::Hold);
}

#[test]
fn test_sma_calculation() {
    let engine = MeanReversionEngine::new(5, d("2"));
    let prices: Vec<Dec> = vec![10, 11, 12, 13, 14].into_iter().map(whole).collect();
    let sma = engine.calculate_sma(&prices).unwrap();
    assert!(sma.eq_value(&d("12")));
}

#[test]
fn test_zscore_calculation() {
    let engine = MeanReversionEngine::new(10, d("2"));
    let mut prices: Vec<Dec> = vec![100, 99, 101, 100, 99, 101, 100, 99, 101, 100].into_iter().map(whole).collect();
    let zscore_normal = engine.calculate_zscore(&prices).unwrap();
    assert!(zscore_normal.abs().lt(&d("1")));
    prices.push(d("110"));
    let zscore_spike = engine.calculate_zscore(&prices).unwrap();
    assert!(zscore_spike.gt(&d("1")));
}

#[test]
fn test_bollinger_bands() {
    let engine = MeanReversionEngine::new(5, d("2"));
    let prices: Vec<Dec> = vec![100, 101, 102, 101, 100].into_iter().map(whole).collect();
    let (upper, middle, lower) = engine.calculate_bollinger_bands(&prices).unwrap();
    assert!(upper.gt(&middle));
    assert!(middle.gt(&lower));
    assert!(middle.eq_value(&d("100.8")));
}

#[test]
fn test_trend_detection() {
    let detector = RegimeDetector::new(10, 10);
    let prices = range(100, 115);
    assert_eq!(detector.detect(&prices), Regime::TrendingUp);
    let prices: Vec<Dec> = (100..115).rev().map(whole).collect();
    assert_eq!(detector.detect(&prices), Regime::TrendingDown);
}

#[test]
fn test_choppy_detection() {
    let detector = RegimeDetector::new(10, 10);
    let prices: Vec<Dec> = vec![100, 101, 99, 101, 99, 101, 99, 101, 99, 100, 101].into_iter().map(whole).collect();
    let changes = detector.count_direction_changes(&prices);
    assert!(changes > 5);
}

#[test]
fn test_volatility_calculation() {
    let detector = RegimeDetector::new(10, 10);
    let prices: Vec<Dec> = vec![100; 11].into_iter().map(whole).collect();
    let vol = detector.calculate_volatility(&prices).unwrap();
    assert!(vol.eq_value(&zero()));
}

#[test]
fn test_forecast_with_no_history() {
    let forecaster = Forecaster::with_defaults();
    let forecast = forecaster.forecast_direction("BTC-USDT", ForecastHorizon::OneHour);
    assert!(forecast.current_price.eq_value(&zero()));
    assert_eq!(forecast.direction, Direction::Sideways);
}

#[test]
fn test_forecast_with_uptrend() {
    let mut forecaster = Forecaster::with_defaults();
    for i in 0..20 {
        let price = d("67000").add(whole(i * 50));
        forecaster.observe_price(price, d("100"));
    }
    let forecast = forecaster.forecast_direction("BTC-USDT", ForecastHorizon::OneHour);
    assert_eq!(forecast.direction, Direction::Up);
    assert!(forecast.predicted_change_pct.gt(&zero()));
}

#[test]
fn test_volatility_forecast() {
    let mut forecaster = Forecaster::with_defaults();
    for i in 0..20 {
        let price = d("67000").add(whole((i % 5) * 100));
        forecaster.observe_price(price, d("100"));
    }
    let vol_forecast = forecaster.forecast_volatility("BTC-USDT", ForecastHorizon::OneHour);
    assert!(vol_forecast.current_volatility.gt(&zero()));
    assert!(vol_forecast.confidence.gt(&zero()));
}

#[test]
fn test_regime_transition() {
    let forecaster = Forecaster::with_defaults();
    let transition = forecaster.forecast_regime(Regime::TrendingUp);
    assert_eq!(transition.current_regime, Regime::TrendingUp);
    assert!(transition.transition_probability.gt(&zero()));
    assert!(transition.expected_duration_mins > 0);
}

#[test]
fn test_volatility_forecast_without_history() {
    let forecaster = Forecaster::with_defaults();
    let v = forecaster.forecast_volatility("BTC-USDT", ForecastHorizon::OneHour);
    assert!(v.current_volatility.eq_value(&d("0.02")));
    assert!(v.predicted_volatility.eq_value(&d("0.0205")));
    assert!(v.confidence.eq_value(&d("0.6")));
    assert_eq!(v.volatility_direction, Direction::Sideways);
    assert_eq!(v.vol_regime, VolatilityRegime::Stable);
}

#[test]
fn test_forecasts_undefined_after_zero_price() {
    let mut forecaster = Forecaster::with_defaults();
    forecaster.observe_price(zero(), d("100"));
    forecaster.observe_price(d("67000"), d("100"));
    assert!(!forecaster.forecasts_defined());
    assert!(forecaster.try_forecast_volatility("BTC-USDT", ForecastHorizon::OneHour).is_none());
    assert!(forecaster.try_forecast_direction("BTC-USDT", ForecastHorizon::OneHour).is_none());
    assert!(forecaster.try_calculate_features().is_none());
    let fresh = Forecaster::with_defaults();
    assert!(fresh.try_forecast_volatility("BTC-USDT", ForecastHorizon::OneHour).is_some());
}
