//! Market regime detection from volatility, trend and choppiness.
use crate::decimal::{ddiv, dint, dlit, dlt, dmul, dneg, dsub, opt_view, units, Dec};
use crate::market::Regime;
use crate::series::{last_n, mean_of, sqrt_approx, sqrt_of, sum_of, sum_sq_devs, vals, variance_around};
use vstd::prelude::*;

verus! {

/// Regime detector.
#[derive(Debug, Clone)]
pub struct RegimeDetector {
    /// Lookback period for trend detection.
    pub trend_lookback: usize,
    /// Volatility lookback period.
    pub vol_lookback: usize,
    /// High volatility threshold (annualized).
    pub high_vol_threshold: Dec,
    /// Low volatility threshold (annualized).
    pub low_vol_threshold: Dec,
    /// Trend strength threshold (percent).
    pub trend_threshold: Dec,
}

/// The default regime detector: 20-step trend and volatility lookbacks, high volatility at 0.5, low at 0.15, trend threshold 2.
pub open spec fn is_default_regime_detector(c: RegimeDetector) -> bool {
    &&& c.trend_lookback == 20
    &&& c.vol_lookback == 20
    &&& c.high_vol_threshold@ == dlit(5, 1)
    &&& c.low_vol_threshold@ == dlit(15, 2)
    &&& c.trend_threshold@ == dint(2)
}

impl Default for RegimeDetector {
    fn default() -> (r: RegimeDetector)
        ensures
            is_default_regime_detector(r),
    {
        RegimeDetector {
            trend_lookback: 20,
            vol_lookback: 20,
            high_vol_threshold: Dec::new(5, 1),
            low_vol_threshold: Dec::new(15, 2),
            trend_threshold: Dec::from_u64(2),
        }
    }
}

/// Simple returns `(p[i+1] - p[i]) / p[i]`, skipping the steps from a zero price.
pub open spec fn returns_of(p: Seq<(int, int)>) -> Seq<(int, int)>
    decreases p.len(),
{
    if p.len() < 2 {
        Seq::empty()
    } else {
        let prev = p[p.len() - 2];
        let rest = returns_of(p.drop_last());
        if units(prev) == 0 {
            rest
        } else {
            rest.push(ddiv(dsub(p.last(), prev), prev))
        }
    }
}

/// Annualized volatility of the last `lb` returns (hourly data, 8760 hours a year).
pub open spec fn volatility_of(p: Seq<(int, int)>, lb: int) -> Option<(int, int)> {
    if p.len() < lb + 1 {
        None
    } else {
        let recent = last_n(returns_of(p), lb);
        if recent.len() == 0 {
            None
        } else {
            let std = sqrt_of(variance_around(recent, mean_of(recent)));
            Some(dmul(std, sqrt_of(dint(8760))))
        }
    }
}

/// Trend: percent change from `lb` prices back to the last price.
pub open spec fn trend_of(p: Seq<(int, int)>, lb: int) -> Option<(int, int)> {
    if p.len() < lb {
        None
    } else {
        let start = p[p.len() - lb];
        if units(start) == 0 {
            None
        } else {
            Some(dmul(ddiv(dsub(p.last(), start), start), dint(100)))
        }
    }
}

/// Whether each step of a series goes up or stays level.
pub open spec fn step_ups(s: Seq<(int, int)>) -> Seq<bool> {
    Seq::new(
        if s.len() == 0 {
            0
        } else {
            (s.len() - 1) as nat
        },
        |i: int| units(dsub(s[i + 1], s[i])) >= 0,
    )
}

/// Number of adjacent pairs in `b[0..n]` that differ.
pub open spec fn flips(b: Seq<bool>, n: int) -> nat
    decreases n,
{
    if n < 2 {
        0
    } else {
        flips(b, n - 1) + if b[n - 2] != b[n - 1] {
            1nat
        } else {
            0nat
        }
    }
}

/// Direction changes among the last `lb` prices.
pub open spec fn direction_changes_of(p: Seq<(int, int)>, lb: int) -> nat {
    if p.len() < 3 {
        0
    } else {
        let ups = step_ups(last_n(p, lb));
        flips(ups, ups.len() as int)
    }
}

/// The regime for a volatility, trend and number of direction changes.
pub open spec fn regime_for(
    vol: (int, int),
    trend: (int, int),
    changes: nat,
    d: RegimeDetector,
) -> Regime {
    if dlt(d.high_vol_threshold@, vol) {
        Regime::HighVolatility
    } else if dlt(vol, d.low_vol_threshold@) {
        Regime::LowVolatility
    } else if changes > d.trend_lookback / 3 {
        Regime::Choppy
    } else if dlt(d.trend_threshold@, trend) {
        Regime::TrendingUp
    } else if dlt(trend, dneg(d.trend_threshold@)) {
        Regime::TrendingDown
    } else {
        Regime::MeanReverting
    }
}

/// A value, or zero when there is none.
pub open spec fn or_zero(o: Option<(int, int)>) -> (int, int) {
    match o {
        Some(v) => v,
        None => dint(0),
    }
}

/// The regime that `detect` finds for a price series.
pub open spec fn detect_of(d: RegimeDetector, p: Seq<(int, int)>) -> Regime {
    regime_for(
        or_zero(volatility_of(p, d.vol_lookback as int)),
        or_zero(trend_of(p, d.trend_lookback as int)),
        direction_changes_of(p, d.trend_lookback as int),
        d,
    )
}

impl RegimeDetector {
    pub fn new(trend_lookback: usize, vol_lookback: usize) -> (r: RegimeDetector)
        ensures
            r.trend_lookback == trend_lookback,
            r.vol_lookback == vol_lookback,
            r.high_vol_threshold@ == dlit(5, 1),
            r.low_vol_threshold@ == dlit(15, 2),
            r.trend_threshold@ == dint(2),
    {
        RegimeDetector {
            trend_lookback,
            vol_lookback,
            high_vol_threshold: Dec::new(5, 1),
            low_vol_threshold: Dec::new(15, 2),
            trend_threshold: Dec::from_u64(2),
        }
    }

    /// Simple returns of a price series.
    fn simple_returns(prices: &Vec<Dec>) -> (r: Vec<Dec>)
        ensures
            vals(r@) == returns_of(vals(prices@)),
    {
        let mut out: Vec<Dec> = Vec::new();
        let mut i: usize = 1;
        if prices.len() < 2 {
            proof {
                assert(vals(prices@).len() < 2);
            }
            return out;
        }
        proof {
            assert(vals(prices@).take(1).len() == 1);
        }
        while i < prices.len()
            invariant
                1 <= i <= prices.len(),
                vals(out@) == returns_of(vals(prices@).take(i as int)),
            decreases prices.len() - i,
        {
            proof {
                assert(vals(prices@).take(i + 1).drop_last() == vals(prices@).take(i as int));
            }
            let prev = prices[i - 1];
            if !prev.is_zero() {
                out.push(prices[i].sub(prev).div(prev));
                proof {
                    assert(vals(out@) == vals(out@).drop_last().push(out@.last()@));
                }
            }
            i = i + 1;
        }
        proof {
            assert(vals(prices@).take(i as int) == vals(prices@));
        }
        out
    }

    /// Realized volatility, annualized.
    pub fn calculate_volatility(&self, prices: &Vec<Dec>) -> (r: Option<Dec>)
        requires
            self.vol_lookback < usize::MAX,
        ensures
            opt_view(r) == volatility_of(vals(prices@), self.vol_lookback as int),
    {
        if prices.len() < self.vol_lookback + 1 {
            return None;
        }
        let rets = Self::simple_returns(prices);
        let len = rets.len();
        let start = if len > self.vol_lookback {
            len - self.vol_lookback
        } else {
            0
        };
        if start == len {
            return None;
        }
        proof {
            assert(vals(rets@).subrange(start as int, len as int) == last_n(
                returns_of(vals(prices@)),
                self.vol_lookback as int,
            ));
        }
        let n = Dec::from_usize(len - start);
        let mean = crate::series::sum_range(&rets, start, len).div(n);
        let variance = sum_sq_devs(&rets, start, len, mean).div(n);
        let std = sqrt_approx(variance);
        Some(std.mul(sqrt_approx(Dec::from_u64(8760))))
    }

    /// Trend strength in percent.
    pub fn calculate_trend(&self, prices: &Vec<Dec>) -> (r: Option<Dec>)
        requires
            self.trend_lookback > 0,
        ensures
            opt_view(r) == trend_of(vals(prices@), self.trend_lookback as int),
    {
        let len = prices.len();
        if len < self.trend_lookback {
            return None;
        }
        let start = prices[len - self.trend_lookback];
        let end = prices[len - 1];
        if start.is_zero() {
            return None;
        }
        Some(end.sub(start).div(start).mul(Dec::from_u64(100)))
    }

    /// Number of direction changes among the last `trend_lookback` prices.
    pub fn count_direction_changes(&self, prices: &Vec<Dec>) -> (r: usize)
        ensures
            r as nat == direction_changes_of(vals(prices@), self.trend_lookback as int),
    {
        let len = prices.len();
        if len < 3 {
            return 0;
        }
        let start = if len > self.trend_lookback {
            len - self.trend_lookback
        } else {
            0
        };
        let ghost recent = last_n(vals(prices@), self.trend_lookback as int);
        let ghost ups = step_ups(recent);
        proof {
            assert(recent == vals(prices@).subrange(start as int, len as int));
        }
        if len - start < 3 {
            // at most one step: no pair of steps to compare
            proof {
                assert(flips(ups, ups.len() as int) == 0);
            }
            return 0;
        }
        let mut count: usize = 0;
        let mut prev_up = prices[start + 1].sub(prices[start]).is_sign_positive();
        let mut k: usize = start + 2;
        while k < len
            invariant
                start + 2 <= k <= len,
                len == prices@.len(),
                recent == vals(prices@).subrange(start as int, len as int),
                ups == step_ups(recent),
                prev_up == ups[k - start - 2],
                count as nat == flips(ups, k - start - 1),
                count <= k,
            decreases len - k,
        {
            let up = prices[k].sub(prices[k - 1]).is_sign_positive();
            if up != prev_up {
                count = count + 1;
            }
            prev_up = up;
            k = k + 1;
        }
        count
    }

    /// Current market regime; a missing volatility or trend counts as zero.
    pub fn detect(&self, prices: &Vec<Dec>) -> (r: Regime)
        requires
            self.vol_lookback < usize::MAX,
            self.trend_lookback > 0,
        ensures
            r == regime_for(
                or_zero(volatility_of(vals(prices@), self.vol_lookback as int)),
                or_zero(trend_of(vals(prices@), self.trend_lookback as int)),
                direction_changes_of(vals(prices@), self.trend_lookback as int),
                *self,
            ),
    {
        let volatility = match self.calculate_volatility(prices) {
            Some(v) => v,
            None => Dec::zero(),
        };
        let trend = match self.calculate_trend(prices) {
            Some(t) => t,
            None => Dec::zero(),
        };
        let changes = self.count_direction_changes(prices);
        if self.high_vol_threshold.lt(&volatility) {
            return Regime::HighVolatility;
        }
        if volatility.lt(&self.low_vol_threshold) {
            return Regime::LowVolatility;
        }
        let expected_changes = self.trend_lookback / 3;
        if changes > expected_changes {
            return Regime::Choppy;
        }
        if self.trend_threshold.lt(&trend) {
            Regime::TrendingUp
        } else if trend.lt(&self.trend_threshold.neg()) {
            Regime::TrendingDown
        } else {
            Regime::MeanReverting
        }
    }

    /// Description of a regime.
    pub fn regime_description(&self, regime: Regime) -> (r: &'static str)
        ensures
            r@ == regime_description_text(regime),
    {
        match regime {
            Regime::TrendingUp => "Bullish trend, favor momentum strategies",
            Regime::TrendingDown => "Bearish trend, favor momentum or stay flat",
            Regime::MeanReverting => "Range-bound, favor mean reversion",
            Regime::HighVolatility => "High volatility, reduce position sizes",
            Regime::LowVolatility => "Low volatility, consider breakout plays",
            Regime::Choppy => "Choppy market, avoid trading",
        }
    }

    /// Trading bias of a regime: 1 bullish, -1 bearish, 0 otherwise.
    pub fn regime_bias(&self, regime: Regime) -> (r: i8)
        ensures
            r == (match regime {
                Regime::TrendingUp => 1i8,
                Regime::TrendingDown => -1i8,
                _ => 0i8,
            }),
    {
        match regime {
            Regime::TrendingUp => 1,
            Regime::TrendingDown => -1,
            Regime::MeanReverting => 0,
            Regime::HighVolatility => 0,
            Regime::LowVolatility => 0,
            Regime::Choppy => 0,
        }
    }
}

/// Description of a regime.
pub open spec fn regime_description_text(regime: Regime) -> Seq<char> {
    match regime {
        Regime::TrendingUp => "Bullish trend, favor momentum strategies"@,
        Regime::TrendingDown => "Bearish trend, favor momentum or stay flat"@,
        Regime::MeanReverting => "Range-bound, favor mean reversion"@,
        Regime::HighVolatility => "High volatility, reduce position sizes"@,
        Regime::LowVolatility => "Low volatility, consider breakout plays"@,
        Regime::Choppy => "Choppy market, avoid trading"@,
    }
}

} // verus!
