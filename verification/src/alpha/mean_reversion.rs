//! Mean reversion trading signals: moving average, deviation, z-score and
//! Bollinger bands.
use crate::decimal::{dabs, dadd, ddiv, dint, dlit, dlt, dmin, dmul, dneg, dsub, opt_view, units, Dec};
use crate::market::{opt_signal_view, Signal, StrategySignal};
use crate::series::{mean_of, sqrt_approx, sqrt_of, sum_range, sum_sq_devs, vals, variance_around};
use crate::text::{join, joined};
use vstd::prelude::*;

verus! {

/// Mean reversion signal generator.
#[derive(Debug, Clone)]
pub struct MeanReversionEngine {
    /// Lookback period for the mean.
    pub lookback: usize,
    /// Z-score threshold for signals.
    pub zscore_threshold: Dec,
    /// Bollinger band standard deviation multiplier.
    pub bb_std_mult: Dec,
}

/// The default mean reversion engine: 20-step lookback, z-score threshold 2, bands at two deviations.
pub open spec fn is_default_mean_reversion(c: MeanReversionEngine) -> bool {
    &&& c.lookback == 20
    &&& c.zscore_threshold@ == dint(2)
    &&& c.bb_std_mult@ == dint(2)
}

impl Default for MeanReversionEngine {
    fn default() -> (r: MeanReversionEngine)
        ensures
            is_default_mean_reversion(r),
    {
        MeanReversionEngine {
            lookback: 20,
            zscore_threshold: Dec::from_u64(2),
            bb_std_mult: Dec::from_u64(2),
        }
    }
}

/// The last `lb` prices, when there are that many.
pub open spec fn window(p: Seq<(int, int)>, lb: int) -> Seq<(int, int)> {
    p.subrange(p.len() - lb, p.len() as int)
}

/// Simple moving average of the last `lb` prices.
pub open spec fn sma_of(p: Seq<(int, int)>, lb: int) -> Option<(int, int)> {
    if p.len() < lb {
        None
    } else {
        Some(mean_of(window(p, lb)))
    }
}

/// Standard deviation (approximate square root of the variance) of the last `lb` prices.
pub open spec fn std_of(p: Seq<(int, int)>, lb: int) -> Option<(int, int)> {
    if p.len() < lb {
        None
    } else {
        Some(sqrt_of(variance_around(window(p, lb), mean_of(window(p, lb)))))
    }
}

/// Z-score of the last price against the last `lb` prices.
pub open spec fn zscore_of(p: Seq<(int, int)>, lb: int) -> Option<(int, int)> {
    if p.len() == 0 || p.len() < lb {
        None
    } else {
        let mean = mean_of(window(p, lb));
        let std = sqrt_of(variance_around(window(p, lb), mean));
        if units(std) == 0 {
            Some(dint(0))
        } else {
            Some(ddiv(dsub(p.last(), mean), std))
        }
    }
}

/// Bollinger bands `(upper, middle, lower)`.
pub open spec fn bands_of(p: Seq<(int, int)>, lb: int, mult: (int, int)) -> Option<
    ((int, int), (int, int), (int, int)),
> {
    if p.len() < lb {
        None
    } else {
        let sma = mean_of(window(p, lb));
        let std = sqrt_of(variance_around(window(p, lb), sma));
        Some((dadd(sma, dmul(mult, std)), sma, dsub(sma, dmul(mult, std))))
    }
}

/// Position of the last price within the Bollinger bands (0.5 when they coincide).
pub open spec fn percent_b_of(p: Seq<(int, int)>, lb: int, mult: (int, int)) -> Option<(int, int)> {
    if p.len() == 0 {
        None
    } else {
        match bands_of(p, lb, mult) {
            None => None,
            Some((upper, _, lower)) => {
                let range = dsub(upper, lower);
                if units(range) == 0 {
                    Some(dlit(5, 1))
                } else {
                    Some(ddiv(dsub(p.last(), lower), range))
                }
            },
        }
    }
}

/// Signal and raw confidence chosen from the z-score and %B.
pub open spec fn reversion_choice(z: (int, int), pb: (int, int), thr: (int, int)) -> (Signal, (
    int,
    int,
)) {
    if dlt(z, dneg(thr)) {
        (Signal::Buy, dadd(dlit(6, 1), ddiv(dabs(z), dint(10))))
    } else if dlt(thr, z) {
        (Signal::Sell, dadd(dlit(6, 1), ddiv(dabs(z), dint(10))))
    } else if dlt(pb, dlit(2, 1)) {
        (Signal::Buy, dlit(55, 2))
    } else if dlt(dlit(8, 1), pb) {
        (Signal::Sell, dlit(55, 2))
    } else {
        (Signal::Hold, dlit(3, 1))
    }
}

/// Explanation text of a mean reversion signal.
pub open spec fn reversion_reason(z: (int, int), pb: (int, int), thr: (int, int)) -> Seq<char> {
    let z_t = crate::decimal::decimal_text_dp(z, 2);
    let pb_t = crate::decimal::decimal_text_dp(pb, 2);
    if dlt(z, dneg(thr)) {
        "Z-score "@ + z_t + " (oversold), %B "@ + pb_t
    } else if dlt(thr, z) {
        "Z-score "@ + z_t + " (overbought), %B "@ + pb_t
    } else if dlt(pb, dlit(2, 1)) {
        "Near lower BB, %B "@ + pb_t + ", Z "@ + z_t
    } else if dlt(dlit(8, 1), pb) {
        "Near upper BB, %B "@ + pb_t + ", Z "@ + z_t
    } else {
        "Z-score "@ + z_t + ", %B "@ + pb_t
    }
}

/// The mean reversion signal for a price series: strategy name, signal,
/// confidence (capped at 0.95) and reason; `None` when the z-score or %B
/// cannot be computed.
pub open spec fn reversion_signal_of(e: MeanReversionEngine, p: Seq<(int, int)>) -> Option<
    (Seq<char>, Signal, (int, int), Seq<char>),
> {
    match (zscore_of(p, e.lookback as int), percent_b_of(p, e.lookback as int, e.bb_std_mult@)) {
        (Some(z), Some(pb)) => {
            let (sig, conf) = reversion_choice(z, pb, e.zscore_threshold@);
            Some(
                (
                    "mean_reversion"@,
                    sig,
                    dmin(conf, dlit(95, 2)),
                    reversion_reason(z, pb, e.zscore_threshold@),
                ),
            )
        },
        _ => None,
    }
}

impl MeanReversionEngine {
    pub fn new(lookback: usize, zscore_threshold: Dec) -> (r: MeanReversionEngine)
        ensures
            r.lookback == lookback,
            r.zscore_threshold == zscore_threshold,
            r.bb_std_mult@ == dint(2),
    {
        MeanReversionEngine { lookback, zscore_threshold, bb_std_mult: Dec::from_u64(2) }
    }

    /// Simple moving average.
    pub fn calculate_sma(&self, prices: &Vec<Dec>) -> (r: Option<Dec>)
        requires
            self.lookback > 0,
        ensures
            opt_view(r) == sma_of(vals(prices@), self.lookback as int),
    {
        let len = prices.len();
        if len < self.lookback {
            return None;
        }
        let sum = sum_range(prices, len - self.lookback, len);
        proof {
            assert(vals(prices@).subrange(len - self.lookback, len as int) == crate::alpha::mean_reversion::window(vals(prices@), self.lookback as int));
        }
        Some(sum.div(Dec::from_usize(self.lookback)))
    }

    /// Standard deviation.
    pub fn calculate_std(&self, prices: &Vec<Dec>) -> (r: Option<Dec>)
        requires
            self.lookback > 0,
        ensures
            opt_view(r) == std_of(vals(prices@), self.lookback as int),
    {
        let len = prices.len();
        if len < self.lookback {
            return None;
        }
        let mean = match self.calculate_sma(prices) {
            Some(m) => m,
            None => return None,
        };
        let n = Dec::from_usize(self.lookback);
        let variance = sum_sq_devs(prices, len - self.lookback, len, mean).div(n);
        Some(sqrt_approx(variance))
    }

    /// Z-score of the last price.
    pub fn calculate_zscore(&self, prices: &Vec<Dec>) -> (r: Option<Dec>)
        requires
            self.lookback > 0,
        ensures
            opt_view(r) == zscore_of(vals(prices@), self.lookback as int),
    {
        let len = prices.len();
        if len == 0 {
            return None;
        }
        let current = prices[len - 1];
        let mean = match self.calculate_sma(prices) {
            Some(m) => m,
            None => return None,
        };
        let std = match self.calculate_std(prices) {
            Some(s) => s,
            None => return None,
        };
        if std.is_zero() {
            return Some(Dec::zero());
        }
        Some(current.sub(mean).div(std))
    }

    /// Bollinger bands `(upper, middle, lower)`.
    pub fn calculate_bollinger_bands(&self, prices: &Vec<Dec>) -> (r: Option<(Dec, Dec, Dec)>)
        requires
            self.lookback > 0,
        ensures
            match r {
                Some((u, m, l)) => bands_of(vals(prices@), self.lookback as int, self.bb_std_mult@)
                    == Some((u@, m@, l@)),
                None => bands_of(vals(prices@), self.lookback as int, self.bb_std_mult@) is None,
            },
    {
        let sma = match self.calculate_sma(prices) {
            Some(m) => m,
            None => return None,
        };
        let std = match self.calculate_std(prices) {
            Some(s) => s,
            None => return None,
        };
        let upper = sma.add(self.bb_std_mult.mul(std));
        let lower = sma.sub(self.bb_std_mult.mul(std));
        Some((upper, sma, lower))
    }

    /// Percent B: where the last price stands within the bands.
    pub fn calculate_percent_b(&self, prices: &Vec<Dec>) -> (r: Option<Dec>)
        requires
            self.lookback > 0,
        ensures
            opt_view(r) == percent_b_of(vals(prices@), self.lookback as int, self.bb_std_mult@),
    {
        let len = prices.len();
        if len == 0 {
            return None;
        }
        let current = prices[len - 1];
        let (upper, _mid, lower) = match self.calculate_bollinger_bands(prices) {
            Some(b) => b,
            None => return None,
        };
        let range = upper.sub(lower);
        if range.is_zero() {
            return Some(Dec::new(5, 1));
        }
        Some(current.sub(lower).div(range))
    }

    /// Trading signal from the z-score and %B; `None` when either cannot be computed.
    pub fn generate_signal(&self, prices: &Vec<Dec>) -> (r: Option<StrategySignal>)
        requires
            self.lookback > 0,
        ensures
            opt_signal_view(r) == reversion_signal_of(*self, vals(prices@)),
    {
        let zscore = match self.calculate_zscore(prices) {
            Some(z) => z,
            None => return None,
        };
        let percent_b = match self.calculate_percent_b(prices) {
            Some(p) => p,
            None => return None,
        };
        let z_t = zscore.to_text_dp(2);
        let pb_t = percent_b.to_text_dp(2);
        let ten = Dec::from_u64(10);
        let (signal, confidence, parts) = if zscore.lt(&self.zscore_threshold.neg()) {
            (
                Signal::Buy,
                Dec::new(6, 1).add(zscore.abs().div(ten)),
                vec!["Z-score ".to_owned(), z_t, " (oversold), %B ".to_owned(), pb_t],
            )
        } else if self.zscore_threshold.lt(&zscore) {
            (
                Signal::Sell,
                Dec::new(6, 1).add(zscore.abs().div(ten)),
                vec!["Z-score ".to_owned(), z_t, " (overbought), %B ".to_owned(), pb_t],
            )
        } else if percent_b.lt(&Dec::new(2, 1)) {
            (
                Signal::Buy,
                Dec::new(55, 2),
                vec!["Near lower BB, %B ".to_owned(), pb_t, ", Z ".to_owned(), z_t],
            )
        } else if Dec::new(8, 1).lt(&percent_b) {
            (
                Signal::Sell,
                Dec::new(55, 2),
                vec!["Near upper BB, %B ".to_owned(), pb_t, ", Z ".to_owned(), z_t],
            )
        } else {
            (Signal::Hold, Dec::new(3, 1), vec!["Z-score ".to_owned(), z_t, ", %B ".to_owned(), pb_t])
        };
        let reason = join(&parts);
        proof {
            reveal_with_fuel(Seq::fold_left, 5);
        }
        Some(
            StrategySignal {
                strategy: "mean_reversion".to_owned(),
                signal,
                confidence: confidence.min(Dec::new(95, 2)),
                reason,
            },
        )
    }
}

} // verus!
