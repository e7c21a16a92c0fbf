//! Momentum-based trading signals: rate of change, RSI and price momentum.
use crate::decimal::{dabs, dadd, ddiv, dint, dlit, dlt, dmin, dmul, dsub, units, Dec};
use crate::market::{opt_signal_view, Signal, StrategySignal};
use crate::series::{diffs, gains_losses, gains_losses_range, vals};
use crate::text::join;
use vstd::prelude::*;

verus! {

/// Momentum signal generator.
#[derive(Debug, Clone)]
pub struct MomentumEngine {
    /// Lookback period for the rate of change and momentum.
    pub lookback: usize,
    /// RSI period.
    pub rsi_period: usize,
    /// RSI overbought threshold.
    pub rsi_overbought: Dec,
    /// RSI oversold threshold.
    pub rsi_oversold: Dec,
}

/// The default momentum engine: 14-step lookback and RSI, overbought at 70, oversold at 30.
pub open spec fn is_default_momentum(c: MomentumEngine) -> bool {
    &&& c.lookback == 14
    &&& c.rsi_period == 14
    &&& c.rsi_overbought@ == dint(70)
    &&& c.rsi_oversold@ == dint(30)
}

impl Default for MomentumEngine {
    fn default() -> (r: MomentumEngine)
        ensures
            is_default_momentum(r),
    {
        MomentumEngine {
            lookback: 14,
            rsi_period: 14,
            rsi_overbought: Dec::from_u64(70),
            rsi_oversold: Dec::from_u64(30),
        }
    }
}

/// Rate of change in percent over `lb` steps, `None` with too few prices or a
/// zero past price.
pub open spec fn roc_of(p: Seq<(int, int)>, lb: int) -> Option<(int, int)> {
    if p.len() < lb + 1 {
        None
    } else {
        let past = p[p.len() - lb - 1];
        if units(past) == 0 {
            None
        } else {
            Some(dmul(ddiv(dsub(p.last(), past), past), dint(100)))
        }
    }
}

/// Relative Strength Index from the gains and losses of the last `period`
/// price changes: `100 - 100 / (1 + avg_gain / avg_loss)`, and 100 when there
/// was no loss.
pub open spec fn rsi_of(p: Seq<(int, int)>, period: int) -> Option<(int, int)> {
    if p.len() < period + 1 {
        None
    } else {
        let (g, l) = gains_losses(diffs(p.subrange(p.len() - 1 - period, p.len() as int)));
        let avg_gain = ddiv(g, dint(period));
        let avg_loss = ddiv(l, dint(period));
        if units(avg_loss) == 0 {
            Some(dint(100))
        } else {
            Some(dsub(dint(100), ddiv(dint(100), dadd(dint(1), ddiv(avg_gain, avg_loss)))))
        }
    }
}

/// Price change in percent over the last `min(len, lb)` prices.
pub open spec fn momentum_of(p: Seq<(int, int)>, lb: int) -> Option<(int, int)> {
    if p.len() < 2 {
        None
    } else {
        let n = if p.len() < lb {
            p.len() as int
        } else {
            lb
        };
        let start = p[p.len() - n];
        if units(start) == 0 {
            None
        } else {
            Some(dmul(ddiv(dsub(p.last(), start), start), dint(100)))
        }
    }
}

/// Signal and raw confidence chosen from RSI, rate of change and momentum.
pub open spec fn momentum_choice(
    rsi: (int, int),
    roc: (int, int),
    mom: (int, int),
    oversold: (int, int),
    overbought: (int, int),
) -> (Signal, (int, int)) {
    if dlt(rsi, oversold) && dlt(dint(-5), roc) {
        (Signal::Buy, dadd(dlit(6, 1), ddiv(dsub(oversold, rsi), dint(100))))
    } else if dlt(overbought, rsi) && dlt(roc, dint(5)) {
        (Signal::Sell, dadd(dlit(6, 1), ddiv(dsub(rsi, overbought), dint(100))))
    } else if dlt(dint(3), mom) && dlt(rsi, dint(65)) {
        (Signal::Buy, dadd(dlit(5, 1), ddiv(mom, dint(20))))
    } else if dlt(mom, dint(-3)) && dlt(dint(35), rsi) {
        (Signal::Sell, dadd(dlit(5, 1), ddiv(dabs(mom), dint(20))))
    } else {
        (Signal::Hold, dlit(3, 1))
    }
}

/// Explanation text of a momentum signal.
pub open spec fn momentum_reason(
    rsi: (int, int),
    roc: (int, int),
    mom: (int, int),
    oversold: (int, int),
    overbought: (int, int),
) -> Seq<char> {
    let rsi_t = crate::decimal::decimal_text_dp(rsi, 1);
    let roc_t = crate::decimal::decimal_text_dp(roc, 2);
    let mom_t = crate::decimal::decimal_text_dp(mom, 2);
    if dlt(rsi, oversold) && dlt(dint(-5), roc) {
        "RSI "@ + rsi_t + " oversold, ROC "@ + roc_t + "%"@
    } else if dlt(overbought, rsi) && dlt(roc, dint(5)) {
        "RSI "@ + rsi_t + " overbought, ROC "@ + roc_t + "%"@
    } else if dlt(dint(3), mom) && dlt(rsi, dint(65)) {
        "Momentum +"@ + mom_t + "%, RSI "@ + rsi_t
    } else if dlt(mom, dint(-3)) && dlt(dint(35), rsi) {
        "Momentum "@ + mom_t + "%, RSI "@ + rsi_t
    } else {
        "RSI "@ + rsi_t + ", ROC "@ + roc_t + "%"@
    }
}

/// The momentum signal for a price series: strategy name, signal, confidence
/// (capped at 0.95) and reason; `None` when RSI, rate of change or momentum
/// cannot be computed.
pub open spec fn momentum_signal_of(e: MomentumEngine, p: Seq<(int, int)>) -> Option<
    (Seq<char>, Signal, (int, int), Seq<char>),
> {
    match (rsi_of(p, e.rsi_period as int), roc_of(p, e.lookback as int), momentum_of(p, e.lookback as int)) {
        (Some(rsi), Some(roc), Some(mom)) => {
            let (sig, conf) = momentum_choice(rsi, roc, mom, e.rsi_oversold@, e.rsi_overbought@);
            Some(
                (
                    "momentum"@,
                    sig,
                    dmin(conf, dlit(95, 2)),
                    momentum_reason(rsi, roc, mom, e.rsi_oversold@, e.rsi_overbought@),
                ),
            )
        },
        _ => None,
    }
}

impl MomentumEngine {
    pub fn new(lookback: usize, rsi_period: usize) -> (r: MomentumEngine)
        ensures
            r.lookback == lookback,
            r.rsi_period == rsi_period,
            r.rsi_overbought@ == dint(70),
            r.rsi_oversold@ == dint(30),
    {
        MomentumEngine {
            lookback,
            rsi_period,
            rsi_overbought: Dec::from_u64(70),
            rsi_oversold: Dec::from_u64(30),
        }
    }

    /// Rate of change (ROC) in percent.
    pub fn calculate_roc(&self, prices: &Vec<Dec>) -> (r: Option<Dec>)
        requires
            self.lookback < usize::MAX,
        ensures
            crate::decimal::opt_view(r) == roc_of(vals(prices@), self.lookback as int),
    {
        let len = prices.len();
        if len < self.lookback + 1 {
            return None;
        }
        let current = prices[len - 1];
        let past = prices[len - self.lookback - 1];
        if past.is_zero() {
            return None;
        }
        Some(current.sub(past).div(past).mul(Dec::from_u64(100)))
    }

    /// Relative Strength Index (RSI).
    pub fn calculate_rsi(&self, prices: &Vec<Dec>) -> (r: Option<Dec>)
        requires
            self.rsi_period < usize::MAX,
            self.rsi_period > 0 || prices@.len() == 0,
        ensures
            crate::decimal::opt_view(r) == rsi_of(vals(prices@), self.rsi_period as int),
    {
        let len = prices.len();
        if len < self.rsi_period + 1 {
            return None;
        }
        let (gains, losses) = gains_losses_range(prices, len - 1 - self.rsi_period, len);
        let n = Dec::from_usize(self.rsi_period);
        let avg_gain = gains.div(n);
        let avg_loss = losses.div(n);
        let hundred = Dec::from_u64(100);
        if avg_loss.is_zero() {
            return Some(hundred);
        }
        let rs = avg_gain.div(avg_loss);
        let denom = Dec::one().add(rs);
        Some(hundred.sub(hundred.div(denom)))
    }

    /// Price momentum in percent.
    pub fn calculate_momentum(&self, prices: &Vec<Dec>) -> (r: Option<Dec>)
        requires
            self.lookback > 0 || prices@.len() < 2,
        ensures
            crate::decimal::opt_view(r) == momentum_of(vals(prices@), self.lookback as int),
    {
        let len = prices.len();
        if len < 2 {
            return None;
        }
        let n = if len < self.lookback {
            len
        } else {
            self.lookback
        };
        let start = prices[len - n];
        let end = prices[len - 1];
        if start.is_zero() {
            return None;
        }
        Some(end.sub(start).div(start).mul(Dec::from_u64(100)))
    }

    /// Trading signal from RSI, rate of change and momentum; `None` when any
    /// of the three cannot be computed.
    pub fn generate_signal(&self, prices: &Vec<Dec>) -> (r: Option<StrategySignal>)
        requires
            self.lookback < usize::MAX,
            self.rsi_period < usize::MAX,
            self.lookback > 0 || prices@.len() < 2,
            self.rsi_period > 0 || prices@.len() == 0,
        ensures
            opt_signal_view(r) == momentum_signal_of(*self, vals(prices@)),
    {
        let rsi = match self.calculate_rsi(prices) {
            Some(x) => x,
            None => return None,
        };
        let roc = match self.calculate_roc(prices) {
            Some(x) => x,
            None => return None,
        };
        let momentum = match self.calculate_momentum(prices) {
            Some(x) => x,
            None => return None,
        };
        let hundred = Dec::from_u64(100);
        let twenty = Dec::from_u64(20);
        let rsi_t = rsi.to_text_dp(1);
        let roc_t = roc.to_text_dp(2);
        let mom_t = momentum.to_text_dp(2);
        let (signal, confidence, parts) = if rsi.lt(&self.rsi_oversold) && Dec::from_i64(-5).lt(
            &roc,
        ) {
            (
                Signal::Buy,
                Dec::new(6, 1).add(self.rsi_oversold.sub(rsi).div(hundred)),
                vec!["RSI ".to_owned(), rsi_t, " oversold, ROC ".to_owned(), roc_t, "%".to_owned()],
            )
        } else if self.rsi_overbought.lt(&rsi) && roc.lt(&Dec::from_u64(5)) {
            (
                Signal::Sell,
                Dec::new(6, 1).add(rsi.sub(self.rsi_overbought).div(hundred)),
                vec![
                    "RSI ".to_owned(),
                    rsi_t,
                    " overbought, ROC ".to_owned(),
                    roc_t,
                    "%".to_owned(),
                ],
            )
        } else if Dec::from_u64(3).lt(&momentum) && rsi.lt(&Dec::from_u64(65)) {
            (
                Signal::Buy,
                Dec::new(5, 1).add(momentum.div(twenty)),
                vec!["Momentum +".to_owned(), mom_t, "%, RSI ".to_owned(), rsi_t],
            )
        } else if momentum.lt(&Dec::from_i64(-3)) && Dec::from_u64(35).lt(&rsi) {
            (
                Signal::Sell,
                Dec::new(5, 1).add(momentum.abs().div(twenty)),
                vec!["Momentum ".to_owned(), mom_t, "%, RSI ".to_owned(), rsi_t],
            )
        } else {
            (
                Signal::Hold,
                Dec::new(3, 1),
                vec!["RSI ".to_owned(), rsi_t, ", ROC ".to_owned(), roc_t, "%".to_owned()],
            )
        };
        let reason = join(&parts);
        proof {
            reveal_with_fuel(Seq::fold_left, 6);
        }
        Some(
            StrategySignal {
                strategy: "momentum".to_owned(),
                signal,
                confidence: confidence.min(Dec::new(95, 2)),
                reason,
            },
        )
    }
}

} // verus!
