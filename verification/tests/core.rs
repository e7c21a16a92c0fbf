use simmons::cli::dashboard::{FeedStatus, SymbolData};
use simmons::cli::commands::{parse_mode, parse_symbols, simulation_verdict, synthetic_prices, verdict_text, SimVerdict};
use simmons::cli::dual_loop::{DualBrainConfig, DualBrainLoop};
use simmons::config::Config;
use simmons::decimal::Dec;
use simmons::exec::okx_api::{OkxApiClient, OkxApiConfig};
use simmons::market::{Position, PriceTick, PriceWindow, Regime, Side, Signal, Source, TradingMode};

fn d(s: &str) -> Dec {
    Dec::parse(s).unwrap()
}

#[test]
fn test_price_tick_spread() {
    let tick = PriceTick {
        symbol: "BTC-USDT".to_string(),
        price: d("67000"),
        bid: d("66990"),
        ask: d("67010"),
        volume_24h: d("1000000"),
        timestamp: 0,
        source: Source::Okx,
    };
    // Spread = (67010 - 66990) / 66990 * 10000 ≈ 2.98 bps
    assert!(tick.spread_bps().gt(&d("2")) && tick.spread_bps().lt(&d("3.5")));
}

#[test]
fn test_position_pnl() {
    let mut pos = Position {
        id: "1".to_string(),
        symbol: "BTC-USDT".to_string(),
        side: Side::Long,
        size: d("0.01"),
        entry_price: d("67000"),
        current_price: d("67000"),
        stop_loss: Some(d("66000")),
        take_profit: Some(d("70000")),
        opened_at: 0,
        unrealized_pnl: Dec::zero(),
    };

    pos.update_pnl(d("68000"));
    assert!(pos.unrealized_pnl.eq_value(&d("10"))); // 0.01 * 1000 = 10
    assert!(!pos.should_stop_loss());
    assert!(!pos.should_take_profit());

    pos.update_pnl(d("70500"));
    assert!(pos.should_take_profit());
}

#[test]
fn test_price_window() {
    let mut window = PriceWindow::new("BTC".to_string(), 5);
    for i in 1..=7i64 {
        window.push(i, Dec::from_i64(i * 100));
    }
    assert_eq!(window.len(), 5);
    assert!(window.latest_price().unwrap().eq_value(&d("700")));
    let prices = window.prices_only();
    let expected = ["300", "400", "500", "600", "700"];
    assert_eq!(prices.len(), expected.len());
    for (p, e) in prices.iter().zip(expected.iter()) {
        assert!(p.eq_value(&d(e)));
    }
}

#[test]
fn test_default_config() {
    let config = Config::default();
    assert_eq!(config.mode, TradingMode::Paper);
    assert!(config.capital_usd.eq_value(&d("100")));
    assert!(config.risk.max_position_pct.eq_value(&d("0.15")));
}

#[test]
fn test_parse_symbol() {
    let config = DualBrainConfig::default();
    let loop_instance = DualBrainLoop::new(config);

    let (token, chain) = loop_instance.parse_symbol("BTC-USDT");
    assert_eq!(token, "BTC");
    assert_eq!(chain, "ethereum");

    let (token, chain) = loop_instance.parse_symbol("SOL-USDT");
    assert_eq!(token, "SOL");
    assert_eq!(chain, "solana");
}

#[test]
fn test_regime_detection() {
    let config = DualBrainConfig::default();
    let loop_instance = DualBrainLoop::new(config);

    // Trending up prices
    let prices: Vec<Dec> = (0..50i64).map(|i| d("60000").add(Dec::from_i64(i * 100))).collect();
    let regime = loop_instance.detect_regime(&prices);
    assert!(matches!(regime, Regime::TrendingUp | Regime::MeanReverting));

    // Stable prices
    let prices: Vec<Dec> = (0..50).map(|_| d("60000")).collect();
    let regime = loop_instance.detect_regime(&prices);
    assert_eq!(regime, Regime::LowVolatility);
}

#[test]
fn test_regime_undefined_on_zero_price() {
    let loop_instance = DualBrainLoop::new(DualBrainConfig::default());
    let mut prices: Vec<Dec> = (0..30).map(|_| d("100")).collect();
    prices[3] = Dec::zero();
    assert!(!DualBrainLoop::regime_defined(&prices));
    assert!(loop_instance.try_detect_regime(&prices).is_none());
    let short: Vec<Dec> = vec![d("1"), d("2")];
    assert_eq!(loop_instance.try_detect_regime(&short), Some(Regime::MeanReverting));
}

#[test]
fn test_parse_mode_names() {
    assert_eq!(parse_mode("live"), TradingMode::Live);
    assert_eq!(parse_mode("sim"), TradingMode::Simulation);
    assert_eq!(parse_mode("simulation"), TradingMode::Simulation);
    assert_eq!(parse_mode("paper"), TradingMode::Paper);
    assert_eq!(parse_mode("LIVE"), TradingMode::Paper);
}

#[test]
fn test_parse_symbols_trims_pieces() {
    assert_eq!(parse_symbols(" BTC-USDT, ETH-USDT ,SOL-USDT"), vec!["BTC-USDT", "ETH-USDT", "SOL-USDT"]);
    assert_eq!(parse_symbols(""), vec![""]);
    assert_eq!(parse_symbols("a,,b"), vec!["a", "", "b"]);
}

#[test]
fn test_synthetic_prices_sequence() {
    let prices = synthetic_prices(d("67000"), 12345, 3);
    let expected = ["67000", "66970", "66941", "66973"];
    assert_eq!(prices.len(), 4);
    for (p, e) in prices.iter().zip(expected.iter()) {
        assert!(p.eq_value(&d(e)));
    }
    assert_eq!(synthetic_prices(d("5"), 1, 0).len(), 1);
}

#[test]
fn test_simulation_verdicts() {
    assert_eq!(simulation_verdict(Signal::StrongBuy, d("0.7")), SimVerdict::OpenLong);
    assert_eq!(simulation_verdict(Signal::Sell, d("0.61")), SimVerdict::OpenShort);
    assert_eq!(simulation_verdict(Signal::Buy, d("0.6")), SimVerdict::NoTrade);
    assert_eq!(simulation_verdict(Signal::Hold, d("0.9")), SimVerdict::NoTrade);
    assert_eq!(verdict_text(SimVerdict::OpenLong), "Would open LONG position");
    assert_eq!(verdict_text(SimVerdict::NoTrade), "No trade - insufficient signal strength");
}

#[test]
fn test_okx_signature() {
    let client = OkxApiClient::new(OkxApiConfig {
        api_key: "key".to_string(),
        api_secret: "secret".to_string(),
        passphrase: "pass".to_string(),
        simulated: true,
        base_url: "https://www.okx.com".to_string(),
    });
    let sig = client.sign("2024-01-01T00:00:00.000Z", "GET", "/api/v5/account/balance", "");
    assert_eq!(sig, "dfI+ViVVBgfRPWcGyH3gM3bM/DTyiqUqZys/Y9UbsFQ=");
}

#[test]
fn test_decimal_wrappers() {
    assert_eq!(d("1.50").to_text(), "1.50");
    assert!(d("2.5").round().eq_value(&d("2")));
    assert!(d("2.1").ceil().eq_value(&d("3")));
    assert!(d("-2.1").ceil().eq_value(&d("-2")));
    assert_eq!(d("12.9").to_i64(), Some(12));
    assert!(Dec::parse("abc").is_none());
    assert!(d("1").div(d("3")).mul(d("3")).lt(&d("1.0000001")));
    assert!(d("0.1").add(d("0.2")).eq_value(&d("0.3")));
    assert!(d("1").sub(d("2.5")).eq_value(&d("-1.5")));
}

#[test]
fn test_dashboard_symbol_row() {
    let tick = PriceTick {
        symbol: "BTC-USDT".to_string(),
        price: d("67000.5"),
        bid: d("66990"),
        ask: d("67010"),
        volume_24h: d("1000000.4"),
        timestamp: 0,
        source: Source::Okx,
    };
    let row = SymbolData::from_tick("BTC-USDT", &tick);
    assert_eq!(row.symbol, "BTC-USDT");
    assert_eq!(row.price, "67000.50");
    assert_eq!(row.bid, "66990.00");
    assert_eq!(row.ask, "67010.00");
    assert_eq!(row.spread_bps, "2.9"); // the precision cuts off further digits
    assert_eq!(row.volume_24h, "1000000");
    assert_eq!(row.change_24h, "+0.0%");
    assert_eq!(FeedStatus::live(1000, 5), FeedStatus { connected: true, last_update: 1000, message_count: 0, latency_ms: 5 });
    assert!(!FeedStatus::offline().connected);
}

#[test]
fn test_regime_steady_fall_is_low_volatility() {
    let loop_instance = DualBrainLoop::new(DualBrainConfig::default());
    let prices: Vec<Dec> = (0..50i64).map(|i| d("60000").sub(Dec::from_i64(i * 100))).collect();
    assert_eq!(loop_instance.detect_regime(&prices), Regime::LowVolatility);
}
