//! Price, volatility and regime forecasts from a window of observed prices.
use crate::clock::now_secs;
use crate::decimal::{
    dabs, dadd, ddiv, dint, dlit, dlt, dmin, dmul, dsub, lemma_add_exact_small, lemma_mantissa_bound, lemma_mul_units,
    lemma_pow10_table, pow10, units, Dec, decimal_text_dp,
};
use crate::market::Regime;
use crate::series::{sqrt_from_self, sqrt_steps, sum_of, sum_range, sum_sq_devs, sq_devs, vals};
use crate::text::{join, joined, joined_sep, join_sep};
use vstd::prelude::*;

verus! {

/// Forecast horizon.
#[derive(Debug, Clone, Copy, PartialEq, Eq, Hash, Structural)]
pub enum ForecastHorizon {
    OneMinute,
    FiveMinutes,
    FifteenMinutes,
    OneHour,
    FourHours,
    OneDay,
}

/// Length of a horizon in seconds.
pub open spec fn horizon_secs(h: ForecastHorizon) -> u64 {
    match h {
        ForecastHorizon::OneMinute => 60,
        ForecastHorizon::FiveMinutes => 300,
        ForecastHorizon::FifteenMinutes => 900,
        ForecastHorizon::OneHour => 3600,
        ForecastHorizon::FourHours => 14400,
        ForecastHorizon::OneDay => 86400,
    }
}

impl ForecastHorizon {
    pub fn to_secs(&self) -> (r: u64)
        ensures
            r == horizon_secs(*self),
    {
        match self {
            ForecastHorizon::OneMinute => 60,
            ForecastHorizon::FiveMinutes => 300,
            ForecastHorizon::FifteenMinutes => 900,
            ForecastHorizon::OneHour => 3600,
            ForecastHorizon::FourHours => 14400,
            ForecastHorizon::OneDay => 86400,
        }
    }
}

/// Direction forecast.
#[derive(Debug, Clone, Copy, PartialEq, Eq, Structural)]
pub enum Direction {
    Up,
    Down,
    Sideways,
}

/// Price forecast; the time is in seconds since the Unix epoch.
#[derive(Debug, Clone)]
pub struct PriceForecast {
    pub symbol: String,
    pub current_price: Dec,
    pub horizon: ForecastHorizon,
    pub direction: Direction,
    pub direction_confidence: Dec,
    pub predicted_change_pct: Dec,
    pub price_target: Dec,
    pub support_level: Dec,
    pub resistance_level: Dec,
    pub reasoning: String,
    pub timestamp: i64,
}

/// Volatility forecast; the time is in seconds since the Unix epoch.
#[derive(Debug, Clone)]
pub struct VolatilityForecast {
    pub symbol: String,
    pub current_volatility: Dec,
    pub horizon: ForecastHorizon,
    pub predicted_volatility: Dec,
    pub volatility_direction: Direction,
    pub confidence: Dec,
    pub vol_regime: VolatilityRegime,
    pub reasoning: String,
    pub timestamp: i64,
}

/// Volatility regime.
#[derive(Debug, Clone, Copy, PartialEq, Eq, Structural)]
pub enum VolatilityRegime {
    Compression,
    Expansion,
    Stable,
    Extreme,
}

/// Regime transition forecast.
#[derive(Debug, Clone)]
pub struct RegimeTransition {
    pub current_regime: Regime,
    pub most_likely_next: Regime,
    pub transition_probability: Dec,
    pub expected_duration_mins: u64,
    pub confidence: Dec,
    pub reasoning: String,
}

/// Forecaster configuration.
#[derive(Debug, Clone)]
pub struct ForecasterConfig {
    /// Number of price observations kept.
    pub history_window: usize,
    /// Minimum confidence to output a forecast.
    pub min_confidence: Dec,
    /// Whether the reasoning text explains the features.
    pub use_llm_reasoning: bool,
    /// Feature weights, by feature name.
    pub feature_weights: Vec<(String, Dec)>,
}

fn weight_entry(name: &str, m: i128) -> (r: (String, Dec))
    requires
        0 <= m <= 100,
    ensures
        r.0@ == name@,
        r.1@ == dlit(m as int, 2),
{
    (name.to_owned(), Dec::new(m, 2))
}

/// The default forecaster configuration: 100 observations kept, forecasts
/// from a confidence of 0.5, explained reasoning, and the feature weights
/// momentum 0.25, volatility 0.20, volume 0.15, regime 0.20, sentiment 0.10,
/// order flow 0.10.
pub open spec fn is_default_forecaster_config(c: ForecasterConfig) -> bool {
    &&& c.history_window == 100
    &&& c.min_confidence@ == dlit(5, 1)
    &&& c.use_llm_reasoning
    &&& c.feature_weights.len() == 6
    &&& c.feature_weights@[0].0@ == "momentum"@ && c.feature_weights@[0].1@ == dlit(25, 2)
    &&& c.feature_weights@[1].0@ == "volatility"@ && c.feature_weights@[1].1@ == dlit(20, 2)
    &&& c.feature_weights@[2].0@ == "volume"@ && c.feature_weights@[2].1@ == dlit(15, 2)
    &&& c.feature_weights@[3].0@ == "regime"@ && c.feature_weights@[3].1@ == dlit(20, 2)
    &&& c.feature_weights@[4].0@ == "sentiment"@ && c.feature_weights@[4].1@ == dlit(10, 2)
    &&& c.feature_weights@[5].0@ == "orderflow"@ && c.feature_weights@[5].1@ == dlit(10, 2)
}

impl Default for ForecasterConfig {
    fn default() -> (r: ForecasterConfig)
        ensures
            is_default_forecaster_config(r),
    {
        let weights = vec![
            weight_entry("momentum", 25),
            weight_entry("volatility", 20),
            weight_entry("volume", 15),
            weight_entry("regime", 20),
            weight_entry("sentiment", 10),
            weight_entry("orderflow", 10),
        ];
        ForecasterConfig {
            history_window: 100,
            min_confidence: Dec::new(5, 1),
            use_llm_reasoning: true,
            feature_weights: weights,
        }
    }
}

/// One observed price; the time is in seconds since the Unix epoch.
#[derive(Debug, Clone, Copy)]
pub struct PricePoint {
    pub price: Dec,
    pub volume: Dec,
    pub timestamp: i64,
}

/// A forecast and, once known, the price it was checked against.
#[derive(Debug, Clone)]
pub struct ForecastRecord {
    pub forecast: PriceForecast,
    pub actual_price: Option<Dec>,
    pub was_correct: Option<bool>,
}

/// Features of a price window.
#[derive(Debug, Clone, Copy)]
pub struct Features {
    /// Relative change from the first to the last price.
    pub momentum: Dec,
    /// Standard deviation of the rets.
    pub volatility: Dec,
    /// Relative change of the average volume from the first half to the second.
    pub volume_trend: Dec,
}

/// Returns of a price series: `(p[i+1] - p[i]) / p[i]`.
pub open spec fn returns_of(p: Seq<(int, int)>) -> Seq<(int, int)> {
    Seq::new(
        if p.len() == 0 {
            0
        } else {
            (p.len() - 1) as nat
        },
        |i: int| ddiv(dsub(p[i + 1], p[i]), p[i]),
    )
}

/// Every price but the last is non-zero, so that every return is defined.
pub open spec fn returns_defined(p: Seq<(int, int)>) -> bool {
    forall|i: int| 0 <= i < p.len() - 1 ==> units(#[trigger] p[i]) != 0
}

/// Momentum, volatility and volume trend of a window of prices and volumes.
pub open spec fn features_of(p: Seq<(int, int)>, v: Seq<(int, int)>) -> ((int, int), (int, int), (int, int)) {
    if p.len() < 2 {
        (dint(0), dlit(2, 2), dint(0))
    } else {
        let first = p[0];
        let last = p.last();
        let momentum = if units(first) == 0 {
            dint(0)
        } else {
            ddiv(dsub(last, first), first)
        };
        let r = returns_of(p);
        let mean = ddiv(sum_of(r), dint(r.len() as int));
        let variance = ddiv(sum_of(sq_devs(r, mean)), dint(r.len() as int));
        let volatility = sqrt_from_self(variance, 15);
        let mid = v.len() / 2;
        let recent = ddiv(sum_of(v.subrange(mid as int, v.len() as int)), dint(v.len() - mid));
        let earlier = ddiv(sum_of(v.subrange(0, mid as int)), dint(mid as int));
        let trend = if units(earlier) == 0 {
            dint(0)
        } else {
            ddiv(dsub(recent, earlier), earlier)
        };
        (momentum, volatility, trend)
    }
}

/// The window after observing one more point: at most `window` points are
/// kept by dropping the oldest one.
pub open spec fn observed<T>(s: Seq<T>, window: nat, x: T) -> Seq<T> {
    let t = s.push(x);
    if t.len() > window {
        t.subrange(1, t.len() as int)
    } else {
        t
    }
}

/// Direction of a momentum: beyond ±0.5% it is up or down.
pub open spec fn direction_of(momentum: (int, int)) -> Direction {
    if dlt(dlit(5, 3), momentum) {
        Direction::Up
    } else if dlt(momentum, dlit(-5, 3)) {
        Direction::Down
    } else {
        Direction::Sideways
    }
}

/// Name of a regime as forecasts write it.
pub open spec fn regime_name(r: Regime) -> Seq<char> {
    match r {
        Regime::TrendingUp => "Trending Up"@,
        Regime::TrendingDown => "Trending Down"@,
        Regime::MeanReverting => "Mean Reverting"@,
        Regime::HighVolatility => "High Volatility"@,
        Regime::LowVolatility => "Low Volatility"@,
        Regime::Choppy => "Choppy"@,
    }
}

/// Short name of a horizon.
pub open spec fn horizon_name(h: ForecastHorizon) -> Seq<char> {
    match h {
        ForecastHorizon::OneMinute => "1m"@,
        ForecastHorizon::FiveMinutes => "5m"@,
        ForecastHorizon::FifteenMinutes => "15m"@,
        ForecastHorizon::OneHour => "1h"@,
        ForecastHorizon::FourHours => "4h"@,
        ForecastHorizon::OneDay => "1d"@,
    }
}

/// Name of a regime as forecasts write it.
pub fn regime_str(regime: &Regime) -> (r: &'static str)
    ensures
        r@ == regime_name(*regime),
{
    match regime {
        Regime::TrendingUp => "Trending Up",
        Regime::TrendingDown => "Trending Down",
        Regime::MeanReverting => "Mean Reverting",
        Regime::HighVolatility => "High Volatility",
        Regime::LowVolatility => "Low Volatility",
        Regime::Choppy => "Choppy",
    }
}

/// Short name of a horizon.
pub fn horizon_str(horizon: &ForecastHorizon) -> (r: &'static str)
    ensures
        r@ == horizon_name(*horizon),
{
    match horizon {
        ForecastHorizon::OneMinute => "1m",
        ForecastHorizon::FiveMinutes => "5m",
        ForecastHorizon::FifteenMinutes => "15m",
        ForecastHorizon::OneHour => "1h",
        ForecastHorizon::FourHours => "4h",
        ForecastHorizon::OneDay => "1d",
    }
}

/// The prices of a window of points.
pub open spec fn prices_of(points: Seq<PricePoint>) -> Seq<(int, int)> {
    points.map_values(|p: PricePoint| p.price@)
}

/// The volumes of a window of points.
pub open spec fn volumes_of(points: Seq<PricePoint>) -> Seq<(int, int)> {
    points.map_values(|p: PricePoint| p.volume@)
}

/// Word for a direction in a reasoning text.
pub open spec fn direction_word(d: Direction) -> Seq<char> {
    match d {
        Direction::Up => "upward"@,
        Direction::Down => "downward"@,
        Direction::Sideways => "sideways"@,
    }
}

/// A percentage with two decimals: `x * 100` formatted.
pub open spec fn pct2(x: (int, int)) -> Seq<char> {
    decimal_text_dp(dmul(x, dint(100)), 2)
}

/// The reasoning text of a direction forecast: momentum, then volatility and
/// volume remarks where they apply, joined by "; ".
pub open spec fn reasoning_of(
    momentum: (int, int),
    volatility: (int, int),
    trend: (int, int),
    direction: Direction,
    horizon: ForecastHorizon,
) -> Seq<char> {
    let first = if dlt(dlit(5, 3), dabs(momentum)) {
        (if dlt(dlit(2, 2), dabs(momentum)) {
            "strong"@
        } else {
            "moderate"@
        }) + " "@ + (if dlt(dint(0), momentum) {
            "bullish"@
        } else {
            "bearish"@
        }) + " momentum ("@ + pct2(momentum) + "%)"@
    } else {
        "momentum is neutral"@
    };
    let second = if dlt(dlit(3, 2), volatility) {
        "; elevated volatility suggests caution"@
    } else if dlt(volatility, dlit(1, 2)) {
        "; compressed volatility may precede breakout"@
    } else {
        ""@
    };
    let third = if dlt(dlit(2, 1), dabs(trend)) {
        "; volume "@ + (if dlt(dint(0), trend) {
            "increasing"@
        } else {
            "declining"@
        }) + " confirming move"@
    } else {
        ""@
    };
    "For "@ + horizon_name(horizon) + " horizon: "@ + first + second + third + ". Expect "@
        + direction_word(direction) + " price action."@
}

/// Whether a forecast from `current` turned out right at `actual`: up and
/// down must be met, sideways means within 0.1% of the price.
pub open spec fn forecast_correct(direction: Direction, current: (int, int), actual: (int, int)) -> bool {
    (direction == Direction::Up && dlt(current, actual)) || (direction == Direction::Down && dlt(
        actual,
        current,
    )) || (direction == Direction::Sideways && dlt(
        dabs(dsub(actual, current)),
        dmul(current, dlit(1, 3)),
    ))
}

/// Number of evaluated forecasts.
pub open spec fn evaluated_count(s: Seq<ForecastRecord>) -> nat
    decreases s.len(),
{
    if s.len() == 0 {
        0
    } else {
        evaluated_count(s.drop_last()) + if s.last().was_correct is Some {
            1nat
        } else {
            0nat
        }
    }
}

/// Number of forecasts found correct.
pub open spec fn correct_count(s: Seq<ForecastRecord>) -> nat
    decreases s.len(),
{
    if s.len() == 0 {
        0
    } else {
        correct_count(s.drop_last()) + if s.last().was_correct == Some(true) {
            1nat
        } else {
            0nat
        }
    }
}

proof fn lemma_counts_bounded(s: Seq<ForecastRecord>)
    ensures
        correct_count(s) <= evaluated_count(s) <= s.len(),
    decreases s.len(),
{
    if s.len() > 0 {
        lemma_counts_bounded(s.drop_last());
    }
}

/// Forecast accuracy report.
#[derive(Debug, Clone, Copy)]
pub struct ForecastAccuracy {
    pub sample_size: usize,
    pub accuracy_pct: Dec,
}

impl Default for ForecastAccuracy {
    fn default() -> (r: ForecastAccuracy)
        ensures
            r.sample_size == 0,
            r.accuracy_pct@ == dint(0),
    {
        ForecastAccuracy { sample_size: 0, accuracy_pct: Dec::zero() }
    }
}

/// Forecaster over a window of observed prices.
pub struct Forecaster {
    config: ForecasterConfig,
    price_history: Vec<PricePoint>,
    recent_forecasts: Vec<ForecastRecord>,
}

impl Forecaster {
    /// The configuration.
    pub closed spec fn config_spec(&self) -> ForecasterConfig {
        self.config
    }

    /// The observed points, oldest first.
    pub closed spec fn points(&self) -> Seq<PricePoint> {
        self.price_history@
    }

    /// The recorded forecasts, oldest first.
    pub closed spec fn records(&self) -> Seq<ForecastRecord> {
        self.recent_forecasts@
    }

    pub fn new(config: ForecasterConfig) -> (r: Forecaster)
        ensures
            r.config_spec() == config,
            r.points().len() == 0,
            r.records().len() == 0,
    {
        Forecaster { config, price_history: Vec::new(), recent_forecasts: Vec::new() }
    }

    pub fn with_defaults() -> (r: Forecaster)
        ensures
            is_default_forecaster_config(r.config_spec()),
            r.points().len() == 0,
            r.records().len() == 0,
    {
        Forecaster::new(ForecasterConfig::default())
    }

    /// Observe a price and volume now; the window keeps the latest
    /// `history_window` observations.
    pub fn observe_price(&mut self, price: Dec, volume: Dec)
        ensures
            final(self).config_spec() == old(self).config_spec(),
            final(self).records() == old(self).records(),
            prices_of(final(self).points()) == observed(
                prices_of(old(self).points()),
                old(self).config_spec().history_window as nat,
                price@,
            ),
            volumes_of(final(self).points()) == observed(
                volumes_of(old(self).points()),
                old(self).config_spec().history_window as nat,
                volume@,
            ),
    {
        let point = PricePoint { price, volume, timestamp: now_secs() };
        let ghost before = self.price_history@;
        self.price_history.push(point);
        proof {
            assert(prices_of(self.price_history@) =~= prices_of(before).push(price@));
            assert(volumes_of(self.price_history@) =~= volumes_of(before).push(volume@));
        }
        if self.price_history.len() > self.config.history_window {
            let ghost pushed = self.price_history@;
            self.price_history.remove(0);
            proof {
                assert(prices_of(self.price_history@) =~= prices_of(pushed).subrange(
                    1,
                    pushed.len() as int,
                ));
                assert(volumes_of(self.price_history@) =~= volumes_of(pushed).subrange(
                    1,
                    pushed.len() as int,
                ));
            }
        }
    }

    /// The prices and volumes of the window, oldest first.
    fn series(&self) -> (r: (Vec<Dec>, Vec<Dec>))
        ensures
            vals(r.0@) == prices_of(self.points()),
            vals(r.1@) == volumes_of(self.points()),
    {
        let mut prices: Vec<Dec> = Vec::new();
        let mut volumes: Vec<Dec> = Vec::new();
        let mut i: usize = 0;
        while i < self.price_history.len()
            invariant
                i <= self.price_history.len(),
                vals(prices@) == prices_of(self.points()).take(i as int),
                vals(volumes@) == volumes_of(self.points()).take(i as int),
            decreases self.price_history.len() - i,
        {
            proof {
                assert(prices_of(self.points()).take(i + 1) =~= prices_of(self.points()).take(
                    i as int,
                ).push(self.points()[i as int].price@));
                assert(volumes_of(self.points()).take(i + 1) =~= volumes_of(self.points()).take(
                    i as int,
                ).push(self.points()[i as int].volume@));
                assert(vals(prices@.push(self.price_history[i as int].price)) =~= vals(prices@).push(
                    self.price_history[i as int].price@,
                ));
                assert(vals(volumes@.push(self.price_history[i as int].volume)) =~= vals(
                    volumes@,
                ).push(self.price_history[i as int].volume@));
            }
            prices.push(self.price_history[i].price);
            volumes.push(self.price_history[i].volume);
            i = i + 1;
        }
        proof {
            assert(prices_of(self.points()).take(i as int) =~= prices_of(self.points()));
            assert(volumes_of(self.points()).take(i as int) =~= volumes_of(self.points()));
        }
        (prices, volumes)
    }

    /// Momentum, volatility and volume trend of the window.
    pub fn calculate_features(&self) -> (r: Features)
        requires
            returns_defined(prices_of(self.points())),
        ensures
            (r.momentum@, r.volatility@, r.volume_trend@) == features_of(
                prices_of(self.points()),
                volumes_of(self.points()),
            ),
    {
        let (prices, volumes) = self.series();
        let n = prices.len();
        let ghost p = vals(prices@);
        assert(volumes.len() == vals(volumes@).len() == volumes_of(self.points()).len()
            == self.points().len() == prices_of(self.points()).len() == n);
        if n < 2 {
            return Features {
                momentum: Dec::zero(),
                volatility: Dec::new(2, 2),
                volume_trend: Dec::zero(),
            };
        }
        let first = prices[0];
        let last = prices[n - 1];
        let momentum = if first.is_zero() {
            Dec::zero()
        } else {
            last.sub(first).div(first)
        };
        let mut rets: Vec<Dec> = Vec::new();
        let mut i: usize = 0;
        while i + 1 < n
            invariant
                n == prices.len(),
                n >= 2,
                i + 1 <= n,
                p == vals(prices@),
                returns_defined(p),
                vals(rets@) == returns_of(p).take(i as int),
            decreases n - i,
        {
            assert(units(p[i as int]) != 0);
            let r = prices[i + 1].sub(prices[i]).div(prices[i]);
            proof {
                assert(returns_of(p).take(i + 1) =~= returns_of(p).take(i as int).push(r@));
                assert(vals(rets@.push(r)) =~= vals(rets@).push(r@));
            }
            rets.push(r);
            i = i + 1;
        }
        proof {
            assert(returns_of(p).take(i as int) =~= returns_of(p));
        }
        let k = rets.len();
        let kd = Dec::from_usize(k);
        let mean = sum_range(&rets, 0, k).div(kd);
        let variance = sum_sq_devs(&rets, 0, k, mean).div(kd);
        proof {
            assert(vals(rets@).subrange(0, k as int) =~= vals(rets@));
        }
        let volatility = sqrt_steps(variance, 15);
        let mid = n / 2;
        let recent = sum_range(&volumes, mid, n).div(Dec::from_usize(n - mid));
        let earlier = sum_range(&volumes, 0, mid).div(Dec::from_usize(mid));
        let volume_trend = if earlier.is_zero() {
            Dec::zero()
        } else {
            recent.sub(earlier).div(earlier)
        };
        Features { momentum, volatility, volume_trend }
    }

    /// The reasoning text of a direction forecast (see `reasoning_of`).
    fn generate_reasoning(&self, f: &Features, direction: Direction, horizon: ForecastHorizon) -> (r: String)
        ensures
            r@ == reasoning_of(f.momentum@, f.volatility@, f.volume_trend@, direction, horizon),
    {
        proof {
            lemma_pow10_table();
        }
        let momentum = f.momentum;
        let volatility = f.volatility;
        let vol_trend = f.volume_trend;
        let first = if Dec::new(5, 3).lt(&momentum.abs()) {
            let mut t = if Dec::new(2, 2).lt(&momentum.abs()) {
                "strong".to_owned()
            } else {
                "moderate".to_owned()
            };
            t.append(" ");
            if Dec::zero().lt(&momentum) {
                t.append("bullish");
            } else {
                t.append("bearish");
            }
            t.append(" momentum (");
            t.append(momentum.mul(Dec::from_u64(100)).to_text_dp(2).as_str());
            t.append("%)");
            t
        } else {
            "momentum is neutral".to_owned()
        };
        let second = if Dec::new(3, 2).lt(&volatility) {
            "; elevated volatility suggests caution"
        } else if volatility.lt(&Dec::new(1, 2)) {
            "; compressed volatility may precede breakout"
        } else {
            ""
        };
        let third = if Dec::new(2, 1).lt(&vol_trend.abs()) {
            let mut t = "; volume ".to_owned();
            if Dec::zero().lt(&vol_trend) {
                t.append("increasing");
            } else {
                t.append("declining");
            }
            t.append(" confirming move");
            t
        } else {
            "".to_owned()
        };
        let mut out = "For ".to_owned();
        out.append(horizon_str(&horizon));
        out.append(" horizon: ");
        out.append(first.as_str());
        out.append(second);
        out.append(third.as_str());
        out.append(". Expect ");
        match direction {
            Direction::Up => out.append("upward"),
            Direction::Down => out.append("downward"),
            Direction::Sideways => out.append("sideways"),
        }
        out.append(" price action.");
        out
    }

    /// Forecast the price direction over a horizon from the window's
    /// features: the current price is the latest one (zero without any).
    pub fn forecast_direction(&self, symbol: &str, horizon: ForecastHorizon) -> (r: PriceForecast)
        requires
            returns_defined(prices_of(self.points())),
        ensures
            ({
                let p = prices_of(self.points());
                let (m, vol, trend) = features_of(p, volumes_of(self.points()));
                let price = if p.len() == 0 {
                    dint(0)
                } else {
                    p.last()
                };
                let predicted = dmul(m, ddiv(dint(horizon_secs(horizon) as int), dint(3600)));
                &&& r.symbol@ == symbol@
                &&& r.current_price@ == price
                &&& r.horizon == horizon
                &&& r.direction == direction_of(m)
                &&& r.direction_confidence@ == dmul(
                    dmin(dabs(m), dint(1)),
                    dsub(dint(1), ddiv(dmin(vol, dlit(1, 1)), dlit(1, 1))),
                )
                &&& r.predicted_change_pct@ == predicted
                &&& r.price_target@ == dmul(price, dadd(dint(1), ddiv(predicted, dint(100))))
                &&& r.support_level@ == dmul(price, dsub(dint(1), dmul(vol, dint(2))))
                &&& r.resistance_level@ == dmul(price, dadd(dint(1), dmul(vol, dint(2))))
                &&& r.reasoning@ == if self.config_spec().use_llm_reasoning {
                    reasoning_of(m, vol, trend, direction_of(m), horizon)
                } else {
                    "Momentum: "@ + pct2(m) + "%, Volatility: "@ + pct2(vol) + "%"@
                }
            }),
    {
        proof {
            lemma_pow10_table();
        }
        let n = self.price_history.len();
        let current_price = if n == 0 {
            Dec::zero()
        } else {
            self.price_history[n - 1].price
        };
        let features = self.calculate_features();
        let momentum = features.momentum;
        let volatility = features.volatility;
        let direction = if Dec::new(5, 3).lt(&momentum) {
            Direction::Up
        } else if momentum.lt(&Dec::new(-5, 3)) {
            Direction::Down
        } else {
            Direction::Sideways
        };
        let one = Dec::one();
        let tenth = Dec::new(1, 1);
        let direction_confidence = momentum.abs().min(one).mul(
            one.sub(volatility.min(tenth).div(tenth)),
        );
        let horizon_factor = Dec::from_u64(horizon.to_secs()).div(Dec::from_u64(3600));
        let predicted_change_pct = momentum.mul(horizon_factor);
        let hundred = Dec::from_u64(100);
        let two = Dec::from_u64(2);
        let price_target = current_price.mul(one.add(predicted_change_pct.div(hundred)));
        let support_level = current_price.mul(one.sub(volatility.mul(two)));
        let resistance_level = current_price.mul(one.add(volatility.mul(two)));
        let reasoning = if self.config.use_llm_reasoning {
            self.generate_reasoning(&features, direction, horizon)
        } else {
            let mut t = "Momentum: ".to_owned();
            t.append(momentum.mul(hundred).to_text_dp(2).as_str());
            t.append("%, Volatility: ");
            t.append(volatility.mul(hundred).to_text_dp(2).as_str());
            t.append("%");
            t
        };
        PriceForecast {
            symbol: symbol.to_owned(),
            current_price,
            horizon,
            direction,
            direction_confidence,
            predicted_change_pct,
            price_target,
            support_level,
            resistance_level,
            reasoning,
            timestamp: now_secs(),
        }
    }

    /// Forecast volatility: the current volatility reverts by 10% toward a
    /// long-term 2.5%.
    pub fn forecast_volatility(&self, symbol: &str, horizon: ForecastHorizon) -> (r: VolatilityForecast)
        requires
            returns_defined(prices_of(self.points())),
        ensures
            ({
                let cur = features_of(prices_of(self.points()), volumes_of(self.points())).1;
                let predicted = dadd(cur, dmul(dsub(dlit(25, 3), cur), dlit(1, 1)));
                let dir = if dlt(dmul(cur, dlit(11, 1)), predicted) {
                    Direction::Up
                } else if dlt(predicted, dmul(cur, dlit(9, 1))) {
                    Direction::Down
                } else {
                    Direction::Sideways
                };
                &&& r.symbol@ == symbol@
                &&& r.current_volatility@ == cur
                &&& r.horizon == horizon
                &&& r.predicted_volatility@ == predicted
                &&& r.volatility_direction == dir
                &&& r.confidence@ == dlit(6, 1)
                &&& r.vol_regime == if dlt(cur, dlit(1, 2)) {
                    VolatilityRegime::Compression
                } else if dlt(dlit(5, 2), cur) {
                    VolatilityRegime::Extreme
                } else if dir == Direction::Up {
                    VolatilityRegime::Expansion
                } else {
                    VolatilityRegime::Stable
                }
                &&& r.reasoning@ == "Current vol "@ + pct2(cur) + "% vs long-term "@ + pct2(
                    dlit(25, 3),
                ) + "%, expect "@ + match dir {
                    Direction::Up => "expansion"@,
                    Direction::Down => "compression"@,
                    Direction::Sideways => "stability"@,
                }
            }),
            prices_of(self.points()).len() < 2 ==> units(r.predicted_volatility@) == 205 * pow10(24),
            prices_of(self.points()).len() < 2 ==> r.volatility_direction == Direction::Sideways
                && r.vol_regime == VolatilityRegime::Stable,
    {
        proof {
            lemma_pow10_table();
        }
        let features = self.calculate_features();
        let current_vol = features.volatility;
        let long_term_vol = Dec::new(25, 3);
        let gap = long_term_vol.sub(current_vol);
        let pull = Dec::new(1, 1);
        proof {
            use_type_invariant(&gap);
            gap.lemma_wf_in_range();
            if prices_of(self.points()).len() < 2 {
                lemma_mantissa_bound(gap@, 3, 5);
                lemma_mul_units(gap@, pull@);
            }
        }
        let step = gap.mul(pull);
        proof {
            use_type_invariant(&step);
            step.lemma_wf_in_range();
            use_type_invariant(&current_vol);
            current_vol.lemma_wf_in_range();
            if prices_of(self.points()).len() < 2 {
                assert(units(step@) * pow10(28) == 5 * pow10(25) * pow10(27));
                assert(units(step@) == 5 * pow10(24)) by (nonlinear_arith)
                    requires
                        units(step@) * pow10(28) == 5 * pow10(25) * pow10(27),
                        pow10(28) == 10000 * pow10(24),
                        pow10(25) * pow10(27) == 10000 * pow10(24) * pow10(24),
                        pow10(24) > 0,
                ;
                lemma_add_exact_small(current_vol@, step@, true);
            }
        }
        let predicted_vol = current_vol.add(step);
        let up_bar = current_vol.mul(Dec::new(11, 1));
        let down_bar = current_vol.mul(Dec::new(9, 1));
        proof {
            if prices_of(self.points()).len() < 2 {
                assert(units(up_bar@) == 22 * pow10(25));
                assert(units(down_bar@) == 18 * pow10(25));
                assert(units(predicted_vol@) == 205 * pow10(24));
                assert(units(current_vol@) == 2 * pow10(26));
            }
        }
        let vol_direction = if up_bar.lt(&predicted_vol) {
            Direction::Up
        } else if predicted_vol.lt(&down_bar) {
            Direction::Down
        } else {
            Direction::Sideways
        };
        let vol_regime = if current_vol.lt(&Dec::new(1, 2)) {
            VolatilityRegime::Compression
        } else if Dec::new(5, 2).lt(&current_vol) {
            VolatilityRegime::Extreme
        } else if vol_direction == Direction::Up {
            VolatilityRegime::Expansion
        } else {
            VolatilityRegime::Stable
        };
        let hundred = Dec::from_u64(100);
        let mut reasoning = "Current vol ".to_owned();
        reasoning.append(current_vol.mul(hundred).to_text_dp(2).as_str());
        reasoning.append("% vs long-term ");
        reasoning.append(long_term_vol.mul(hundred).to_text_dp(2).as_str());
        reasoning.append("%, expect ");
        match vol_direction {
            Direction::Up => reasoning.append("expansion"),
            Direction::Down => reasoning.append("compression"),
            Direction::Sideways => reasoning.append("stability"),
        }
        VolatilityForecast {
            symbol: symbol.to_owned(),
            current_volatility: current_vol,
            horizon,
            predicted_volatility: predicted_vol,
            volatility_direction: vol_direction,
            confidence: Dec::new(6, 1),
            vol_regime,
            reasoning,
            timestamp: now_secs(),
        }
    }

    /// Whether the forecasts are defined: no stored price but the last is
    /// zero, so every return divides by a non-zero price.
    pub fn forecasts_defined(&self) -> (r: bool)
        ensures
            r == returns_defined(prices_of(self.points())),
    {
        let n = self.price_history.len();
        if n == 0 {
            return true;
        }
        let mut i: usize = 0;
        while i + 1 < n
            invariant
                n == self.price_history@.len(),
                i < n,
                forall|j: int| 0 <= j < i ==> units(#[trigger] prices_of(self.points())[j]) != 0,
            decreases n - i,
        {
            if self.price_history[i].price.is_zero() {
                proof {
                    assert(units(prices_of(self.points())[i as int]) == 0);
                }
                return false;
            }
            i = i + 1;
        }
        true
    }

    /// `calculate_features` for any history: `None` where a return would
    /// divide by a zero price.
    pub fn try_calculate_features(&self) -> (r: Option<Features>)
        ensures
            r is Some <==> returns_defined(prices_of(self.points())),
            r matches Some(f) ==> (f.momentum@, f.volatility@, f.volume_trend@) == features_of(
                prices_of(self.points()),
                volumes_of(self.points()),
            ),
    {
        if self.forecasts_defined() {
            Some(self.calculate_features())
        } else {
            None
        }
    }

    /// `forecast_direction` for any history: `None` where a return would
    /// divide by a zero price.
    pub fn try_forecast_direction(&self, symbol: &str, horizon: ForecastHorizon) -> (r: Option<PriceForecast>)
        ensures
            r is Some <==> returns_defined(prices_of(self.points())),
            r matches Some(f) ==> f.symbol@ == symbol@ && f.horizon == horizon && f.direction == direction_of(
                features_of(prices_of(self.points()), volumes_of(self.points())).0,
            ),
    {
        if self.forecasts_defined() {
            Some(self.forecast_direction(symbol, horizon))
        } else {
            None
        }
    }

    /// `forecast_volatility` for any history: `None` where a return would
    /// divide by a zero price.
    pub fn try_forecast_volatility(&self, symbol: &str, horizon: ForecastHorizon) -> (r: Option<VolatilityForecast>)
        ensures
            r is Some <==> returns_defined(prices_of(self.points())),
            r matches Some(f) ==> f.symbol@ == symbol@ && f.horizon == horizon && f.current_volatility@
                == features_of(prices_of(self.points()), volumes_of(self.points())).1 && f.confidence@ == dlit(6, 1),
    {
        if self.forecasts_defined() {
            Some(self.forecast_volatility(symbol, horizon))
        } else {
            None
        }
    }

    /// Forecast the next regime from a fixed transition table.
    pub fn forecast_regime(&self, current: Regime) -> (r: RegimeTransition)
        ensures
            r.current_regime == current,
            (r.most_likely_next, r.transition_probability@) == transition_of(current),
            r.expected_duration_mins == duration_of(current),
            r.confidence@ == dlit(55, 2),
            r.reasoning@ == "Based on regime transition patterns, "@ + regime_name(current)
                + " typically transitions to "@ + regime_name(transition_of(current).0) + " with "@
                + decimal_text_dp(dmul(transition_of(current).1, dint(100)), 0) + "% probability"@,
    {
        let (most_likely, prob) = match current {
            Regime::TrendingUp => (Regime::MeanReverting, Dec::new(4, 1)),
            Regime::TrendingDown => (Regime::MeanReverting, Dec::new(4, 1)),
            Regime::MeanReverting => (Regime::TrendingUp, Dec::new(35, 2)),
            Regime::HighVolatility => (Regime::MeanReverting, Dec::new(5, 1)),
            Regime::LowVolatility => (Regime::TrendingUp, Dec::new(4, 1)),
            Regime::Choppy => (Regime::MeanReverting, Dec::new(45, 2)),
        };
        let expected_duration: u64 = match current {
            Regime::TrendingUp | Regime::TrendingDown => 120,
            Regime::MeanReverting => 60,
            Regime::HighVolatility => 30,
            Regime::LowVolatility => 240,
            Regime::Choppy => 45,
        };
        let mut reasoning = "Based on regime transition patterns, ".to_owned();
        reasoning.append(regime_str(&current));
        reasoning.append(" typically transitions to ");
        reasoning.append(regime_str(&most_likely));
        reasoning.append(" with ");
        reasoning.append(prob.mul(Dec::from_u64(100)).to_text_dp(0).as_str());
        reasoning.append("% probability");
        RegimeTransition {
            current_regime: current,
            most_likely_next: most_likely,
            transition_probability: prob,
            expected_duration_mins: expected_duration,
            confidence: Dec::new(55, 2),
            reasoning,
        }
    }

    /// Record a forecast for accuracy tracking; the latest 100 are kept.
    pub fn record_forecast(&mut self, forecast: PriceForecast)
        ensures
            final(self).config_spec() == old(self).config_spec(),
            final(self).points() == old(self).points(),
            final(self).records() == observed(
                old(self).records(),
                100,
                ForecastRecord { forecast, actual_price: None, was_correct: None },
            ),
    {
        self.recent_forecasts.push(ForecastRecord { forecast, actual_price: None, was_correct: None });
        if self.recent_forecasts.len() > 100 {
            self.recent_forecasts.remove(0);
        }
    }

    /// Check the forecast at `forecast_idx` against the actual price; an
    /// index beyond the records changes nothing.
    pub fn record_outcome(&mut self, forecast_idx: usize, actual_price: Dec)
        ensures
            final(self).config_spec() == old(self).config_spec(),
            final(self).points() == old(self).points(),
            final(self).records().len() == old(self).records().len(),
            forall|j: int|
                0 <= j < old(self).records().len() && j != forecast_idx
                    ==> (#[trigger] final(self).records()[j]) == old(self).records()[j],
            forecast_idx < old(self).records().len() ==> ({
                let before = old(self).records()[forecast_idx as int];
                let after = final(self).records()[forecast_idx as int];
                &&& after.forecast == before.forecast
                &&& after.actual_price == Some(actual_price)
                &&& after.was_correct == Some(
                    forecast_correct(
                        before.forecast.direction,
                        before.forecast.current_price@,
                        actual_price@,
                    ),
                )
            }),
    {
        if forecast_idx < self.recent_forecasts.len() {
            let direction = self.recent_forecasts[forecast_idx].forecast.direction;
            let current = self.recent_forecasts[forecast_idx].forecast.current_price;
            let predicted_up = direction == Direction::Up;
            let actual_up = current.lt(&actual_price);
            let predicted_down = direction == Direction::Down;
            let actual_down = actual_price.lt(&current);
            let near = actual_price.sub(current).abs().lt(&current.mul(Dec::new(1, 3)));
            let correct = (predicted_up && actual_up) || (predicted_down && actual_down) || (
            direction == Direction::Sideways && near);
            let mut record = self.recent_forecasts.remove(forecast_idx);
            record.actual_price = Some(actual_price);
            record.was_correct = Some(correct);
            self.recent_forecasts.insert(forecast_idx, record);
        }
    }

    /// Share of evaluated forecasts that were correct, in percent; the
    /// default (no sample) when none was evaluated.
    pub fn accuracy(&self) -> (r: ForecastAccuracy)
        ensures
            r.sample_size == evaluated_count(self.records()),
            r.accuracy_pct@ == if evaluated_count(self.records()) == 0 {
                dint(0)
            } else {
                dmul(
                    ddiv(
                        dint(correct_count(self.records()) as int),
                        dint(evaluated_count(self.records()) as int),
                    ),
                    dint(100),
                )
            },
    {
        let mut evaluated: usize = 0;
        let mut correct: usize = 0;
        let mut i: usize = 0;
        while i < self.recent_forecasts.len()
            invariant
                i <= self.recent_forecasts.len(),
                evaluated == evaluated_count(self.records().take(i as int)),
                correct == correct_count(self.records().take(i as int)),
                evaluated <= i,
                correct <= evaluated,
            decreases self.recent_forecasts.len() - i,
        {
            proof {
                assert(self.records().take(i + 1).drop_last() =~= self.records().take(i as int));
            }
            match self.recent_forecasts[i].was_correct {
                Some(c) => {
                    evaluated = evaluated + 1;
                    if c {
                        correct = correct + 1;
                    }
                },
                None => {},
            }
            i = i + 1;
        }
        proof {
            assert(self.records().take(i as int) =~= self.records());
        }
        if evaluated == 0 {
            return ForecastAccuracy::default();
        }
        ForecastAccuracy {
            sample_size: evaluated,
            accuracy_pct: Dec::from_usize(correct).div(Dec::from_usize(evaluated)).mul(
                Dec::from_u64(100),
            ),
        }
    }
}

/// Most likely next regime and the probability of moving there.
pub open spec fn transition_of(r: Regime) -> (Regime, (int, int)) {
    match r {
        Regime::TrendingUp => (Regime::MeanReverting, dlit(4, 1)),
        Regime::TrendingDown => (Regime::MeanReverting, dlit(4, 1)),
        Regime::MeanReverting => (Regime::TrendingUp, dlit(35, 2)),
        Regime::HighVolatility => (Regime::MeanReverting, dlit(5, 1)),
        Regime::LowVolatility => (Regime::TrendingUp, dlit(4, 1)),
        Regime::Choppy => (Regime::MeanReverting, dlit(45, 2)),
    }
}

/// Expected minutes a regime lasts.
pub open spec fn duration_of(r: Regime) -> u64 {
    match r {
        Regime::TrendingUp | Regime::TrendingDown => 120,
        Regime::MeanReverting => 60,
        Regime::HighVolatility => 30,
        Regime::LowVolatility => 240,
        Regime::Choppy => 45,
    }
}

} // verus!
