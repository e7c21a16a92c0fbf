//! Configuration of the trading system and its defaults.  Reading it from a
//! file is left to the caller.
use crate::brain::reflect::strs;
use crate::decimal::{dint, dlit, Dec};
use crate::market::TradingMode;
use vstd::prelude::*;

verus! {

/// Main configuration.
#[derive(Debug, Clone)]
pub struct Config {
    pub mode: TradingMode,
    pub capital_usd: Dec,
    pub symbols: Vec<String>,
    pub risk: RiskConfig,
    pub feeds: FeedsConfig,
    pub alpha: AlphaConfig,
    pub execution: ExecutionConfig,
    pub brain: BrainConfig,
}

impl Default for Config {
    fn default() -> (r: Config)
        ensures
            r.mode == TradingMode::Paper,
            r.capital_usd@ == dint(100),
            strs(r.symbols@) == seq!["BTC-USDT"@, "ETH-USDT"@],
            r.risk.max_position_pct@ == dlit(15, 2),
            r.risk.max_drawdown@ == dlit(20, 2),
            r.risk.kelly_fraction@ == dlit(25, 2),
            r.risk.daily_loss_limit@ == dint(50),
            r.risk.default_stop_loss_pct@ == dlit(3, 2),
            r.risk.default_take_profit_pct@ == dlit(8, 2),
            r.risk.max_positions == 5,
            r.feeds.okx_ws_url@ == "wss://ws.okx.com:8443/ws/v5/public"@,
            r.feeds.price_window_size == 100,
            r.feeds.update_interval_ms == 100,
            r.feeds.xlayer_enabled,
            r.feeds.xlayer_poll_interval_ms == 2000,
            r.feeds.news_enabled,
            strs(r.feeds.signal_chains@) == seq!["xlayer"@, "ethereum"@],
            r.alpha.momentum_lookback == 14,
            r.alpha.rsi_period == 14,
            r.alpha.rsi_overbought@ == dint(70),
            r.alpha.rsi_oversold@ == dint(30),
            r.alpha.zscore_threshold@ == dlit(2, 0),
            r.alpha.min_confidence@ == dlit(60, 2),
            r.execution.max_slippage_bps@ == dint(50),
            r.execution.split_threshold_usd@ == dint(1000),
            r.execution.mev_protection,
            strs(r.execution.preferred_venues@) == seq!["okx"@],
            r.brain.data_dir@ == "data"@,
            r.brain.timeout_secs == 60,
            !r.brain.auto_invoke,
    {
        let symbols = vec!["BTC-USDT".to_owned(), "ETH-USDT".to_owned()];
        proof {
            assert(strs(symbols@) =~= seq!["BTC-USDT"@, "ETH-USDT"@]);
        }
        Config {
            mode: TradingMode::Paper,
            capital_usd: Dec::from_u64(100),
            symbols,
            risk: RiskConfig::default(),
            feeds: FeedsConfig::default(),
            alpha: AlphaConfig::default(),
            execution: ExecutionConfig::default(),
            brain: BrainConfig::default(),
        }
    }
}

/// Risk management configuration.
#[derive(Debug, Clone, Copy)]
pub struct RiskConfig {
    /// Largest position as a fraction of capital (0.15 = 15%).
    pub max_position_pct: Dec,
    /// Drawdown at which trading halts (0.20 = 20%).
    pub max_drawdown: Dec,
    /// Fraction of the Kelly criterion used (0.25 = quarter Kelly).
    pub kelly_fraction: Dec,
    /// Largest daily loss in USD.
    pub daily_loss_limit: Dec,
    /// Default stop loss (0.03 = 3%).
    pub default_stop_loss_pct: Dec,
    /// Default take profit (0.08 = 8%).
    pub default_take_profit_pct: Dec,
    /// Largest number of open positions.
    pub max_positions: usize,
}

impl Default for RiskConfig {
    fn default() -> (r: RiskConfig)
        ensures
            r.max_position_pct@ == dlit(15, 2),
            r.max_drawdown@ == dlit(20, 2),
            r.kelly_fraction@ == dlit(25, 2),
            r.daily_loss_limit@ == dint(50),
            r.default_stop_loss_pct@ == dlit(3, 2),
            r.default_take_profit_pct@ == dlit(8, 2),
            r.max_positions == 5,
    {
        RiskConfig {
            max_position_pct: Dec::new(15, 2),
            max_drawdown: Dec::new(20, 2),
            kelly_fraction: Dec::new(25, 2),
            daily_loss_limit: Dec::from_u64(50),
            default_stop_loss_pct: Dec::new(3, 2),
            default_take_profit_pct: Dec::new(8, 2),
            max_positions: 5,
        }
    }
}

/// Feeds configuration.
#[derive(Debug, Clone)]
pub struct FeedsConfig {
    pub okx_ws_url: String,
    /// Window of prices kept for calculations.
    pub price_window_size: usize,
    pub update_interval_ms: u64,
    pub xlayer_enabled: bool,
    pub xlayer_poll_interval_ms: u64,
    pub news_enabled: bool,
    /// Chains followed for signals.
    pub signal_chains: Vec<String>,
}

/// Default of an enabled flag.
pub fn default_true() -> (r: bool)
    ensures
        r,
{
    true
}

/// Default X Layer poll interval in milliseconds.
pub fn default_xlayer_poll() -> (r: u64)
    ensures
        r == 2000,
{
    2000
}

/// Default chains followed for signals.
pub fn default_signal_chains() -> (r: Vec<String>)
    ensures
        strs(r@) == seq!["xlayer"@, "ethereum"@],
{
    let v = vec!["xlayer".to_owned(), "ethereum".to_owned()];
    proof {
        assert(strs(v@) =~= seq!["xlayer"@, "ethereum"@]);
    }
    v
}

impl Default for FeedsConfig {
    fn default() -> (r: FeedsConfig)
        ensures
            r.okx_ws_url@ == "wss://ws.okx.com:8443/ws/v5/public"@,
            r.price_window_size == 100,
            r.update_interval_ms == 100,
            r.xlayer_enabled,
            r.xlayer_poll_interval_ms == 2000,
            r.news_enabled,
            strs(r.signal_chains@) == seq!["xlayer"@, "ethereum"@],
    {
        FeedsConfig {
            okx_ws_url: "wss://ws.okx.com:8443/ws/v5/public".to_owned(),
            price_window_size: 100,
            update_interval_ms: 100,
            xlayer_enabled: true,
            xlayer_poll_interval_ms: 2000,
            news_enabled: true,
            signal_chains: default_signal_chains(),
        }
    }
}

/// Signal generation configuration.
#[derive(Debug, Clone, Copy)]
pub struct AlphaConfig {
    pub momentum_lookback: usize,
    pub rsi_period: usize,
    pub rsi_overbought: Dec,
    pub rsi_oversold: Dec,
    /// Mean reversion z-score threshold.
    pub zscore_threshold: Dec,
    /// Minimum confidence of a signal.
    pub min_confidence: Dec,
}

impl Default for AlphaConfig {
    fn default() -> (r: AlphaConfig)
        ensures
            r.momentum_lookback == 14,
            r.rsi_period == 14,
            r.rsi_overbought@ == dint(70),
            r.rsi_oversold@ == dint(30),
            r.zscore_threshold@ == dlit(2, 0),
            r.min_confidence@ == dlit(60, 2),
    {
        AlphaConfig {
            momentum_lookback: 14,
            rsi_period: 14,
            rsi_overbought: Dec::from_u64(70),
            rsi_oversold: Dec::from_u64(30),
            zscore_threshold: Dec::new(2, 0),
            min_confidence: Dec::new(60, 2),
        }
    }
}

/// Execution configuration.
#[derive(Debug, Clone)]
pub struct ExecutionConfig {
    /// Largest slippage in basis points.
    pub max_slippage_bps: Dec,
    /// Orders above this size in USD are split.
    pub split_threshold_usd: Dec,
    pub mev_protection: bool,
    /// Venues in order of preference.
    pub preferred_venues: Vec<String>,
}

impl Default for ExecutionConfig {
    fn default() -> (r: ExecutionConfig)
        ensures
            r.max_slippage_bps@ == dint(50),
            r.split_threshold_usd@ == dint(1000),
            r.mev_protection,
            strs(r.preferred_venues@) == seq!["okx"@],
    {
        let venues = vec!["okx".to_owned()];
        proof {
            assert(strs(venues@) =~= seq!["okx"@]);
        }
        ExecutionConfig {
            max_slippage_bps: Dec::from_u64(50),
            split_threshold_usd: Dec::from_u64(1000),
            mev_protection: true,
            preferred_venues: venues,
        }
    }
}

/// Orchestrating brain configuration.
#[derive(Debug, Clone)]
pub struct BrainConfig {
    /// Directory of the signal and decision files.
    pub data_dir: String,
    /// Seconds to wait for a decision.
    pub timeout_secs: u64,
    /// Whether the brain is invoked automatically.
    pub auto_invoke: bool,
}

impl Default for BrainConfig {
    fn default() -> (r: BrainConfig)
        ensures
            r.data_dir@ == "data"@,
            r.timeout_secs == 60,
            !r.auto_invoke,
    {
        BrainConfig { data_dir: "data".to_owned(), timeout_secs: 60, auto_invoke: false }
    }
}

} // verus!
