//! Gas price optimisation: premiums by priority, whether to wait for a
//! cheaper price, cost estimates, batching, predictions from the recent
//! history, and history statistics.
use crate::decimal::{dabs, dadd, ddiv, dint, dle, dlit, dlt, dmax, dmin, dmul, dsub, units, decimal_text, lemma_pow10_table, Dec};
use crate::ranking::{keyed, order_by_key, ordered};
use crate::series::{sqrt_from_self, sqrt_steps, sum_of, sum_range, sum_sq_devs, sq_devs, vals};
use vstd::prelude::*;

verus! {

/// Transaction priority.
#[derive(Debug, Clone, Copy, PartialEq, Eq, Structural)]
pub enum Priority {
    /// Must execute now.
    Urgent,
    /// Within a few blocks.
    Normal,
    /// Can wait for lower gas.
    Low,
    /// Execute when cheapest.
    Deferred,
}

/// Largest acceptable delay of a priority, in seconds.
pub open spec fn max_delay_of(p: Priority) -> u64 {
    match p {
        Priority::Urgent => 10,
        Priority::Normal => 60,
        Priority::Low => 300,
        Priority::Deferred => 3600,
    }
}

/// Largest gas premium of a priority, as a multiplier.
pub open spec fn premium_of(p: Priority) -> (int, int) {
    match p {
        Priority::Urgent => dlit(20, 1),
        Priority::Normal => dlit(13, 1),
        Priority::Low => dlit(11, 1),
        Priority::Deferred => dlit(10, 1),
    }
}

impl Priority {
    /// Largest acceptable delay in seconds.
    pub fn max_delay_secs(&self) -> (r: u64)
        ensures
            r == max_delay_of(*self),
    {
        match self {
            Priority::Urgent => 10,
            Priority::Normal => 60,
            Priority::Low => 300,
            Priority::Deferred => 3600,
        }
    }

    /// Largest gas premium multiplier.
    pub fn max_premium_multiplier(&self) -> (r: Dec)
        ensures
            r@ == premium_of(*self),
    {
        match self {
            Priority::Urgent => Dec::new(20, 1),
            Priority::Normal => Dec::new(13, 1),
            Priority::Low => Dec::new(11, 1),
            Priority::Deferred => Dec::new(10, 1),
        }
    }
}

/// Decision on when to send a transaction.
#[derive(Debug, Clone)]
pub enum WaitDecision {
    /// Send now at this gas price.
    ExecuteNow { gas_price: Dec },
    /// Wait for a better price.
    Wait { estimated_wait_secs: u64, expected_price: Dec, current_price: Dec, savings_pct: Dec },
    /// Gas is too high: skip.
    Skip { reason: String },
}

/// Optimizer configuration.
#[derive(Debug, Clone, Copy)]
pub struct GasOptimizerConfig {
    /// Highest gas price ever paid (gwei).
    pub max_gas_gwei: Dec,
    /// Observations kept.
    pub history_window: usize,
    pub use_time_patterns: bool,
    pub use_block_predictions: bool,
}

/// The default optimizer configuration: at most 100 gwei, 100 observations
/// kept, time patterns and block predictions in use.
pub open spec fn is_default_gas_config(c: GasOptimizerConfig) -> bool {
    &&& c.max_gas_gwei@ == dint(100)
    &&& c.history_window == 100
    &&& c.use_time_patterns
    &&& c.use_block_predictions
}

impl Default for GasOptimizerConfig {
    fn default() -> (r: GasOptimizerConfig)
        ensures
            is_default_gas_config(r),
    {
        GasOptimizerConfig {
            max_gas_gwei: Dec::from_u64(100),
            history_window: 100,
            use_time_patterns: true,
            use_block_predictions: true,
        }
    }
}

/// Gas price trend.
#[derive(Debug, Clone, Copy, PartialEq, Eq, Structural)]
pub enum GasTrend {
    Rising,
    Falling,
    Stable,
    Volatile,
}

/// Gas price prediction.
#[derive(Debug, Clone, Copy)]
pub struct GasPrediction {
    pub current: Dec,
    pub predicted_5min: Dec,
    pub predicted_15min: Dec,
    pub predicted_1hr: Dec,
    pub trend: GasTrend,
    pub confidence: Dec,
}

/// An observed gas price.
#[derive(Debug, Clone, Copy)]
pub struct GasHistoryEntry {
    pub gas_price: Dec,
    pub block_number: u64,
}

/// Transaction cost estimate.
#[derive(Debug, Clone, Copy)]
pub struct TxCostEstimate {
    pub gas_units: u64,
    pub gas_price_gwei: Dec,
    pub cost_eth: Dec,
    pub cost_usd: Dec,
}

/// Batch analysis.
#[derive(Debug, Clone, Copy)]
pub struct BatchAnalysis {
    pub transaction_count: usize,
    pub unbatched_gas: u64,
    pub batched_gas: u64,
    pub gas_savings: u64,
    pub savings_pct: Dec,
    pub recommend_batch: bool,
}

/// History statistics.
#[derive(Debug, Clone, Copy)]
pub struct HistoryStats {
    pub count: usize,
    pub min: Dec,
    pub max: Dec,
    pub mean: Dec,
    pub std_dev: Dec,
    pub p25: Dec,
    pub p50: Dec,
    pub p75: Dec,
}

impl Default for HistoryStats {
    fn default() -> (r: HistoryStats)
        ensures
            r.count == 0,
            r.min@ == dint(0) && r.max@ == dint(0) && r.mean@ == dint(0) && r.std_dev@ == dint(0),
            r.p25@ == dint(0) && r.p50@ == dint(0) && r.p75@ == dint(0),
    {
        HistoryStats {
            count: 0,
            min: Dec::zero(),
            max: Dec::zero(),
            mean: Dec::zero(),
            std_dev: Dec::zero(),
            p25: Dec::zero(),
            p50: Dec::zero(),
            p75: Dec::zero(),
        }
    }
}

/// Average of a series (zero when empty).
pub open spec fn avg_of(s: Seq<(int, int)>) -> (int, int) {
    if s.len() == 0 {
        dint(0)
    } else {
        ddiv(sum_of(s), dint(s.len() as int))
    }
}

/// Sample standard deviation of a series (zero under two values), the root
/// taken by 15 Newton steps.
pub open spec fn std_of(s: Seq<(int, int)>) -> (int, int) {
    if s.len() < 2 {
        dint(0)
    } else {
        let m = avg_of(s);
        sqrt_from_self(ddiv(sum_of(sq_devs(s, m)), dint(s.len() - 1)), 15)
    }
}

/// Average of `v[lo..hi]` (zero when empty).
fn avg_range(v: &Vec<Dec>, lo: usize, hi: usize) -> (r: Dec)
    requires
        lo <= hi <= v.len(),
    ensures
        r@ == avg_of(vals(v@).subrange(lo as int, hi as int)),
{
    if lo == hi {
        return Dec::zero();
    }
    sum_range(v, lo, hi).div(Dec::from_usize(hi - lo))
}

/// Sample standard deviation of a series (see `std_of`).
fn std_dev(v: &Vec<Dec>) -> (r: Dec)
    ensures
        r@ == std_of(vals(v@)),
{
    let n = v.len();
    if n < 2 {
        return Dec::zero();
    }
    proof {
        assert(vals(v@).subrange(0, n as int) =~= vals(v@));
    }
    let mean = avg_range(v, 0, n);
    let variance = sum_sq_devs(v, 0, n, mean).div(Dec::from_usize(n - 1));
    sqrt_steps(variance, 15)
}

/// The first of the smallest values.
pub open spec fn min_of(s: Seq<(int, int)>) -> (int, int)
    decreases s.len(),
{
    if s.len() <= 1 {
        if s.len() == 0 {
            dint(0)
        } else {
            s[0]
        }
    } else {
        let m = min_of(s.drop_last());
        if dlt(s.last(), m) {
            s.last()
        } else {
            m
        }
    }
}

/// The last of the largest values.
pub open spec fn max_of(s: Seq<(int, int)>) -> (int, int)
    decreases s.len(),
{
    if s.len() <= 1 {
        if s.len() == 0 {
            dint(0)
        } else {
            s[0]
        }
    } else {
        let m = max_of(s.drop_last());
        if dlt(s.last(), m) {
            m
        } else {
            s.last()
        }
    }
}

/// The values in ascending order, equal values in their order.
pub open spec fn sorted_values(s: Seq<(int, int)>) -> Seq<(int, int)> {
    ordered(s.map_values(|x: (int, int)| (x, ())), false).map_values(|p: ((int, int), ())| p.0)
}

/// The value at a percentile of sorted values.
pub open spec fn percentile_of(sorted: Seq<(int, int)>, pct: int) -> (int, int) {
    if sorted.len() == 0 {
        dint(0)
    } else {
        let idx = sorted.len() * pct / 100;
        sorted[if idx < sorted.len() - 1 {
            idx
        } else {
            sorted.len() - 1
        }]
    }
}

/// Prices of the observations, oldest first.
pub open spec fn gas_prices(h: Seq<GasHistoryEntry>) -> Seq<(int, int)> {
    h.map_values(|e: GasHistoryEntry| e.gas_price@)
}

/// The history after one more observation: the oldest one leaves when the
/// window is full.
pub open spec fn history_push(h: Seq<GasHistoryEntry>, window: int, e: GasHistoryEntry) -> Seq<GasHistoryEntry> {
    if h.len() >= window && h.len() > 0 {
        h.drop_first().push(e)
    } else {
        h.push(e)
    }
}

/// The newest (at most 20) prices, newest first.
pub open spec fn recent_prices(s: Seq<(int, int)>) -> Seq<(int, int)> {
    let k = if s.len() < 20 {
        s.len()
    } else {
        20
    };
    Seq::new(k, |i: int| s[s.len() - 1 - i])
}

/// Trend of at least ten recent prices (newest first): the average of the
/// newest five against that of the five before.
pub open spec fn trend_of(recent: Seq<(int, int)>) -> GasTrend {
    let recent_avg = avg_of(recent.subrange(0, 5));
    let older_avg = avg_of(recent.subrange(5, 10));
    if dlt(dmul(older_avg, dlit(11, 1)), recent_avg) {
        GasTrend::Rising
    } else if dlt(recent_avg, dmul(older_avg, dlit(9, 1))) {
        GasTrend::Falling
    } else {
        GasTrend::Stable
    }
}

/// A prediction as plain values: current, 5 minutes, 15 minutes, one hour,
/// trend, confidence.
pub open spec fn prediction_view(p: GasPrediction) -> ((int, int), (int, int), (int, int), (int, int), GasTrend, (int, int)) {
    (p.current@, p.predicted_5min@, p.predicted_15min@, p.predicted_1hr@, p.trend, p.confidence@)
}

/// The prediction made from a price history of at least ten prices.
pub open spec fn predicted(s: Seq<(int, int)>) -> ((int, int), (int, int), (int, int), (int, int), GasTrend, (int, int)) {
    let recent = recent_prices(s);
    let current = recent[0];
    let avg_5 = avg_of(recent.subrange(0, 5));
    let avg_20 = avg_of(recent);
    let trend = trend_of(recent);
    let (p5, p15, p60) = match trend {
        GasTrend::Rising => (dmul(current, dlit(11, 1)), dmul(current, dlit(12, 1)), dmul(current, dlit(13, 1))),
        GasTrend::Falling => (dmul(current, dlit(95, 2)), dmul(current, dlit(85, 2)), dmul(current, dlit(75, 2))),
        _ => (current, avg_5, avg_20),
    };
    let sd = std_of(recent);
    let cv = if units(avg_20) == 0 {
        dint(0)
    } else {
        ddiv(sd, avg_20)
    };
    let confidence = dmax(dsub(dint(1), dmin(cv, dint(1))), dlit(3, 1));
    (current, p5, p15, p60, trend, confidence)
}

/// The predictions kept for a price history: none under ten prices.
pub open spec fn predictions_for(s: Seq<(int, int)>) -> Option<((int, int), (int, int), (int, int), (int, int), GasTrend, (int, int))> {
    if s.len() >= 10 {
        Some(predicted(s))
    } else {
        None
    }
}

/// An optional prediction as plain values.
pub open spec fn opt_prediction_view(p: Option<GasPrediction>) -> Option<((int, int), (int, int), (int, int), (int, int), GasTrend, (int, int))> {
    match p {
        Some(q) => Some(prediction_view(q)),
        None => None,
    }
}

/// The gas price for a priority: the premium applied, capped at the maximum.
pub open spec fn optimal_of(max_gas: (int, int), p: Priority, current: (int, int)) -> (int, int) {
    dmin(dmul(current, premium_of(p)), max_gas)
}

/// The predicted price and wait that a priority looks at.
pub open spec fn expected_of(p: Priority, current: (int, int), pred: ((int, int), (int, int), (int, int), (int, int), GasTrend, (int, int))) -> ((int, int), u64) {
    match p {
        Priority::Urgent => (current, 0),
        Priority::Normal => (pred.1, 300),
        Priority::Low => (pred.2, 900),
        Priority::Deferred => (pred.3, 3600),
    }
}

/// Text of a skip for a gas price above the maximum.
pub open spec fn skip_text(current: (int, int), max_gas: (int, int)) -> Seq<char> {
    "Gas "@ + decimal_text(current) + " gwei exceeds max "@ + decimal_text(max_gas) + " gwei"@
}

/// Gas optimizer: a bounded history of observed prices and the predictions
/// made from it.
pub struct GasOptimizer {
    config: GasOptimizerConfig,
    history: Vec<GasHistoryEntry>,
    predictions: Option<GasPrediction>,
}

impl GasOptimizer {
    pub closed spec fn config_spec(&self) -> GasOptimizerConfig {
        self.config
    }

    /// The observations, oldest first.
    pub closed spec fn history_spec(&self) -> Seq<GasHistoryEntry> {
        self.history@
    }

    /// The predictions held.
    pub closed spec fn predictions_spec(&self) -> Option<((int, int), (int, int), (int, int), (int, int), GasTrend, (int, int))> {
        opt_prediction_view(self.predictions)
    }

    /// The history stays within its window (one observation at least is
    /// kept), and the predictions are those of the history.
    pub closed spec fn wf(&self) -> bool {
        &&& self.history.len() <= self.config.history_window || self.history.len() <= 1
        &&& self.predictions_spec() == predictions_for(gas_prices(self.history@))
    }

    pub fn new(config: GasOptimizerConfig) -> (r: GasOptimizer)
        ensures
            r.wf(),
            r.config_spec() == config,
            r.history_spec().len() == 0,
            r.predictions_spec() is None,
    {
        GasOptimizer { config, history: Vec::new(), predictions: None }
    }

    pub fn with_defaults() -> (r: GasOptimizer)
        ensures
            r.wf(),
            is_default_gas_config(r.config_spec()),
            r.history_spec().len() == 0,
            r.predictions_spec() is None,
    {
        GasOptimizer::new(GasOptimizerConfig::default())
    }

    /// Records an observed price; the predictions are brought up to date.
    pub fn record_gas_price(&mut self, gas_price: Dec, block_number: u64)
        requires
            old(self).wf(),
        ensures
            final(self).wf(),
            final(self).config_spec() == old(self).config_spec(),
            final(self).history_spec() == history_push(
                old(self).history_spec(),
                old(self).config_spec().history_window as int,
                GasHistoryEntry { gas_price, block_number },
            ),
            final(self).predictions_spec() == predictions_for(gas_prices(final(self).history_spec())),
    {
        let entry = GasHistoryEntry { gas_price, block_number };
        let ghost old_h = self.history@;
        if self.history.len() >= self.config.history_window && self.history.len() > 0 {
            self.history.remove(0);
        }
        self.history.push(entry);
        proof {
            if old_h.len() >= self.config.history_window && old_h.len() > 0 {
                assert(self.history@ =~= old_h.drop_first().push(entry));
            } else {
                assert(self.history@ =~= old_h.push(entry));
            }
        }
        self.update_predictions();
    }

    /// Recomputes the predictions once ten observations are held.
    fn update_predictions(&mut self)
        requires
            old(self).history@.len() >= 10 || old(self).predictions_spec() == predictions_for(
                gas_prices(old(self).history@),
            ),
        ensures
            final(self).config == old(self).config,
            final(self).history == old(self).history,
            final(self).predictions_spec() == predictions_for(gas_prices(final(self).history@)),
    {
        if self.history.len() < 10 {
            return;
        }
        let p = prediction_from(&self.history);
        self.predictions = Some(p);
    }

    /// The gas price for a priority: `current_gas` with the priority's
    /// premium, capped at the configured maximum.
    pub fn optimal_gas(&self, priority: Priority, current_gas: Dec) -> (r: Dec)
        ensures
            r@ == optimal_of(self.config_spec().max_gas_gwei@, priority, current_gas@),
    {
        current_gas.mul(priority.max_premium_multiplier()).min(self.config.max_gas_gwei)
    }
}

impl GasOptimizer {
    /// Whether to send now, wait for a cheaper price, or skip: urgent
    /// transactions go now; a price above the maximum is skipped; otherwise
    /// a predicted saving of more than 10% within the priority's horizon is
    /// worth the wait.
    pub fn should_wait(&self, priority: Priority, current_gas: Dec) -> (r: WaitDecision)
        requires
            !(units(current_gas@) == 0 && priority != Priority::Urgent
                && !dlt(self.config_spec().max_gas_gwei@, current_gas@)
                && expects_below_zero(self.predictions_spec(), priority, current_gas@)),
        ensures
            priority == Priority::Urgent ==> (r matches WaitDecision::ExecuteNow { gas_price }
                && gas_price@ == optimal_of(self.config_spec().max_gas_gwei@, priority, current_gas@)),
            priority != Priority::Urgent && dlt(self.config_spec().max_gas_gwei@, current_gas@) ==> (
            r matches WaitDecision::Skip { reason } && reason@ == skip_text(
                current_gas@,
                self.config_spec().max_gas_gwei@,
            )),
            priority != Priority::Urgent && !dlt(self.config_spec().max_gas_gwei@, current_gas@) ==> (
            match wait_for(self.predictions_spec(), priority, current_gas@) {
                Some((e, secs)) => r matches WaitDecision::Wait {
                    estimated_wait_secs,
                    expected_price,
                    current_price,
                    savings_pct,
                } && estimated_wait_secs == secs && expected_price@ == e && current_price@ == current_gas@
                    && savings_pct@ == dmul(ddiv(dsub(current_gas@, e), current_gas@), dint(100)),
                None => r matches WaitDecision::ExecuteNow { gas_price } && gas_price@ == optimal_of(
                    self.config_spec().max_gas_gwei@,
                    priority,
                    current_gas@,
                ),
            }),
    {
        if priority == Priority::Urgent {
            return WaitDecision::ExecuteNow { gas_price: self.optimal_gas(priority, current_gas) };
        }
        if current_gas.gt(&self.config.max_gas_gwei) {
            let mut reason = "Gas ".to_owned();
            reason.append(current_gas.to_text().as_str());
            reason.append(" gwei exceeds max ");
            reason.append(self.config.max_gas_gwei.to_text().as_str());
            reason.append(" gwei");
            return WaitDecision::Skip { reason };
        }
        match &self.predictions {
            Some(pred) => {
                let (expected, wait_secs): (Dec, u64) = match priority {
                    Priority::Urgent => (current_gas, 0),
                    Priority::Normal => (pred.predicted_5min, 300),
                    Priority::Low => (pred.predicted_15min, 900),
                    Priority::Deferred => (pred.predicted_1hr, 3600),
                };
                let threshold = current_gas.mul(Dec::new(9, 1));
                if expected.lt(&threshold) {
                    let savings_pct = current_gas.sub(expected).div(current_gas).mul(Dec::from_u64(100));
                    return WaitDecision::Wait {
                        estimated_wait_secs: wait_secs,
                        expected_price: expected,
                        current_price: current_gas,
                        savings_pct,
                    };
                }
            },
            None => {},
        }
        WaitDecision::ExecuteNow { gas_price: self.optimal_gas(priority, current_gas) }
    }

    /// Cost of `gas_units` at `gas_price` gwei, in ETH and in USD (ETH taken
    /// at $3000).
    pub fn estimate_cost(&self, gas_units: u64, gas_price: Dec) -> (r: TxCostEstimate)
        ensures
            r.gas_units == gas_units,
            r.gas_price_gwei@ == gas_price@,
            r.cost_eth@ == ddiv(dmul(dint(gas_units as int), gas_price@), dint(1_000_000_000)),
            r.cost_usd@ == dmul(r.cost_eth@, dint(3000)),
    {
        let gas_cost_gwei = Dec::from_u64(gas_units).mul(gas_price);
        let gas_cost_eth = gas_cost_gwei.div(Dec::from_u64(1_000_000_000));
        let cost_usd = gas_cost_eth.mul(Dec::from_u64(3000));
        TxCostEstimate { gas_units, gas_price_gwei: gas_price, cost_eth: gas_cost_eth, cost_usd }
    }

    /// Gas of sending the transactions one by one (each paying the 21000
    /// base cost) against one batch (paying it once).
    pub fn batch_transactions(&self, tx_gas_estimates: &[u64]) -> (r: BatchAnalysis)
        requires
            gas_total(tx_gas_estimates@) + 21000 * tx_gas_estimates@.len() + 21000 <= u64::MAX,
        ensures
            r.transaction_count == tx_gas_estimates@.len(),
            r.unbatched_gas == gas_total(tx_gas_estimates@) + 21000 * tx_gas_estimates@.len(),
            r.batched_gas == gas_total(tx_gas_estimates@) + 21000,
            r.gas_savings == if r.unbatched_gas >= r.batched_gas {
                r.unbatched_gas - r.batched_gas
            } else {
                0
            },
            r.savings_pct@ == if r.unbatched_gas > 0 {
                dmul(ddiv(dint(r.gas_savings as int), dint(r.unbatched_gas as int)), dint(100))
            } else {
                dint(0)
            },
            r.recommend_batch == dlt(dint(5), r.savings_pct@),
    {
        let n = tx_gas_estimates.len();
        let mut total: u64 = 0;
        let mut i: usize = 0;
        while i < n
            invariant
                i <= n == tx_gas_estimates@.len(),
                total == gas_total(tx_gas_estimates@.take(i as int)),
                gas_total(tx_gas_estimates@) + 21000 * n + 21000 <= u64::MAX,
            decreases n - i,
        {
            proof {
                assert(tx_gas_estimates@.take(i + 1).drop_last() =~= tx_gas_estimates@.take(i as int));
                lemma_gas_total_prefix(tx_gas_estimates@, i + 1);
            }
            total = total + tx_gas_estimates[i];
            i = i + 1;
        }
        proof {
            assert(tx_gas_estimates@.take(n as int) =~= tx_gas_estimates@);
        }
        let base_cost_per_tx: u64 = 21000;
        let unbatched_gas = total + (n as u64) * base_cost_per_tx;
        let batched_gas = total + base_cost_per_tx;
        let savings = unbatched_gas.saturating_sub(batched_gas);
        let savings_pct = if unbatched_gas > 0 {
            Dec::from_u64(savings).div(Dec::from_u64(unbatched_gas)).mul(Dec::from_u64(100))
        } else {
            Dec::zero()
        };
        let recommend_batch = savings_pct.gt(&Dec::from_u64(5));
        BatchAnalysis {
            transaction_count: n,
            unbatched_gas,
            batched_gas,
            gas_savings: savings,
            savings_pct,
            recommend_batch,
        }
    }

    /// The predictions held, if ten observations have been seen.
    pub fn predictions(&self) -> (r: Option<&GasPrediction>)
        ensures
            match r {
                Some(p) => self.predictions_spec() == Some(prediction_view(*p)),
                None => self.predictions_spec() is None,
            },
    {
        match &self.predictions {
            Some(p) => Some(p),
            None => None,
        }
    }

    /// Count, extremes, mean, standard deviation and quartiles of the
    /// observed prices (all zero without observations).
    pub fn history_stats(&self) -> (r: HistoryStats)
        ensures
            r.count == self.history_spec().len(),
            r.min@ == min_of(gas_prices(self.history_spec())),
            r.max@ == max_of(gas_prices(self.history_spec())),
            r.mean@ == avg_of(gas_prices(self.history_spec())),
            r.std_dev@ == std_of(gas_prices(self.history_spec())),
            r.p25@ == percentile_of(sorted_values(gas_prices(self.history_spec())), 25),
            r.p50@ == percentile_of(sorted_values(gas_prices(self.history_spec())), 50),
            r.p75@ == percentile_of(sorted_values(gas_prices(self.history_spec())), 75),
    {
        let prices = prices_from(&self.history);
        let n = prices.len();
        if n == 0 {
            proof {
                assert(gas_prices(self.history@) =~= Seq::<(int, int)>::empty());
                assert(sorted_values(gas_prices(self.history@)) =~= Seq::<(int, int)>::empty());
            }
            return HistoryStats::default();
        }
        let mn = min_value(&prices);
        let mx = max_value(&prices);
        proof {
            assert(vals(prices@).subrange(0, n as int) =~= vals(prices@));
        }
        let mean = avg_range(&prices, 0, n);
        let std = std_dev(&prices);
        let sorted = sorted_from(&prices);
        let p25 = percentile(&sorted, 25);
        let p50 = percentile(&sorted, 50);
        let p75 = percentile(&sorted, 75);
        HistoryStats { count: n, min: mn, max: mx, mean, std_dev: std, p25, p50, p75 }
    }
}

/// Sum of gas amounts.
pub open spec fn gas_total(s: Seq<u64>) -> int
    decreases s.len(),
{
    if s.len() == 0 {
        0
    } else {
        gas_total(s.drop_last()) + s.last()
    }
}

proof fn lemma_gas_total_prefix(s: Seq<u64>, k: int)
    requires
        0 <= k <= s.len(),
    ensures
        0 <= gas_total(s.take(k)) <= gas_total(s),
    decreases s.len() - k,
{
    if k < s.len() {
        lemma_gas_total_prefix(s, k + 1);
        assert(s.take(k + 1).drop_last() =~= s.take(k));
    } else {
        assert(s.take(k) =~= s);
    }
    lemma_gas_total_nonneg(s.take(k));
}

proof fn lemma_gas_total_nonneg(s: Seq<u64>)
    ensures
        gas_total(s) >= 0,
    decreases s.len(),
{
    if s.len() > 0 {
        lemma_gas_total_nonneg(s.drop_last());
    }
}

/// Whether the price predicted for a priority is below zero.
pub open spec fn expects_below_zero(
    pred: Option<((int, int), (int, int), (int, int), (int, int), GasTrend, (int, int))>,
    p: Priority,
    current: (int, int),
) -> bool {
    match pred {
        Some(q) => units(expected_of(p, current, q).0) < 0,
        None => false,
    }
}

/// Whether the prediction for a priority promises more than 10% saving,
/// and if so the expected price and wait.
pub open spec fn wait_for(
    pred: Option<((int, int), (int, int), (int, int), (int, int), GasTrend, (int, int))>,
    p: Priority,
    current: (int, int),
) -> Option<((int, int), u64)> {
    match pred {
        Some(q) => {
            let (e, secs) = expected_of(p, current, q);
            if dlt(e, dmul(current, dlit(9, 1))) {
                Some((e, secs))
            } else {
                None
            }
        },
        None => None,
    }
}

/// The observed prices, oldest first.
fn prices_from(history: &Vec<GasHistoryEntry>) -> (r: Vec<Dec>)
    ensures
        vals(r@) == gas_prices(history@),
{
    let mut r: Vec<Dec> = Vec::new();
    let mut i: usize = 0;
    while i < history.len()
        invariant
            i <= history.len(),
            r.len() == i,
            forall|j: int| 0 <= j < i ==> (#[trigger] r@[j])@ == history@[j].gas_price@,
        decreases history.len() - i,
    {
        r.push(history[i].gas_price);
        i = i + 1;
    }
    proof {
        assert(vals(r@) =~= gas_prices(history@));
    }
    r
}

/// The first of the smallest values.
fn min_value(v: &Vec<Dec>) -> (r: Dec)
    requires
        v.len() > 0,
    ensures
        r@ == min_of(vals(v@)),
{
    let mut m = v[0];
    let mut i: usize = 1;
    proof {
        assert(vals(v@).take(1).len() == 1);
    }
    while i < v.len()
        invariant
            1 <= i <= v.len(),
            m@ == min_of(vals(v@).take(i as int)),
        decreases v.len() - i,
    {
        proof {
            assert(vals(v@).take(i + 1).drop_last() =~= vals(v@).take(i as int));
        }
        if v[i].lt(&m) {
            m = v[i];
        }
        i = i + 1;
    }
    proof {
        assert(vals(v@).take(i as int) =~= vals(v@));
    }
    m
}

/// The last of the largest values.
pub(crate) fn max_value(v: &Vec<Dec>) -> (r: Dec)
    requires
        v.len() > 0,
    ensures
        r@ == max_of(vals(v@)),
{
    let mut m = v[0];
    let mut i: usize = 1;
    proof {
        assert(vals(v@).take(1).len() == 1);
    }
    while i < v.len()
        invariant
            1 <= i <= v.len(),
            m@ == max_of(vals(v@).take(i as int)),
        decreases v.len() - i,
    {
        proof {
            assert(vals(v@).take(i + 1).drop_last() =~= vals(v@).take(i as int));
        }
        if !v[i].lt(&m) {
            m = v[i];
        }
        i = i + 1;
    }
    proof {
        assert(vals(v@).take(i as int) =~= vals(v@));
    }
    m
}

/// The values in ascending order (see `sorted_values`).
fn sorted_from(v: &Vec<Dec>) -> (r: Vec<Dec>)
    ensures
        vals(r@) == sorted_values(vals(v@)),
{
    let mut items: Vec<(Dec, ())> = Vec::new();
    let mut i: usize = 0;
    while i < v.len()
        invariant
            i <= v.len(),
            items.len() == i,
            forall|j: int| 0 <= j < i ==> (#[trigger] items@[j]).0 == v@[j],
        decreases v.len() - i,
    {
        items.push((v[i], ()));
        i = i + 1;
    }
    proof {
        assert(keyed(items@) =~= vals(v@).map_values(|x: (int, int)| (x, ())));
    }
    let ordered_items = order_by_key(items, false);
    let mut r: Vec<Dec> = Vec::new();
    let mut k: usize = 0;
    while k < ordered_items.len()
        invariant
            k <= ordered_items.len(),
            r.len() == k,
            forall|j: int| 0 <= j < k ==> (#[trigger] r@[j]) == ordered_items@[j].0,
        decreases ordered_items.len() - k,
    {
        r.push(ordered_items[k].0);
        k = k + 1;
    }
    proof {
        assert(vals(r@) =~= keyed(ordered_items@).map_values(|p: ((int, int), ())| p.0));
    }
    r
}

/// The value at a percentile of sorted values.
fn percentile(sorted: &Vec<Dec>, pct: usize) -> (r: Dec)
    requires
        pct <= 100,
    ensures
        r@ == percentile_of(vals(sorted@), pct as int),
{
    let n = sorted.len();
    if n == 0 {
        return Dec::zero();
    }
    assert((n as int) * (pct as int) / 100 <= n as int) by (nonlinear_arith)
        requires
            pct <= 100,
            n >= 0,
    ;
    assert(0 <= (n as int) * (pct as int)) by (nonlinear_arith)
        requires
            pct >= 0,
            n >= 0,
    ;
    let prod: u128 = (n as u128) * (pct as u128);
    let idx = (prod / 100) as usize;
    let idx = if idx < n - 1 {
        idx
    } else {
        n - 1
    };
    sorted[idx]
}

/// The prices of the newest (at most 20) observations, newest first.
fn recent_from(history: &Vec<GasHistoryEntry>) -> (r: Vec<Dec>)
    ensures
        vals(r@) == recent_prices(gas_prices(history@)),
{
    let n = history.len();
    let k: usize = if n < 20 {
        n
    } else {
        20
    };
    let mut r: Vec<Dec> = Vec::new();
    let mut i: usize = 0;
    while i < k
        invariant
            i <= k <= n,
            n == history.len(),
            k == if n < 20 {
                n
            } else {
                20
            },
            r.len() == i,
            forall|j: int| 0 <= j < i ==> (#[trigger] r@[j])@ == history@[n - 1 - j].gas_price@,
        decreases k - i,
    {
        r.push(history[n - 1 - i].gas_price);
        i = i + 1;
    }
    proof {
        assert(vals(r@) =~= recent_prices(gas_prices(history@)));
    }
    r
}

/// The prediction made from a history of at least ten observations.
fn prediction_from(history: &Vec<GasHistoryEntry>) -> (r: GasPrediction)
    requires
        history.len() >= 10,
    ensures
        prediction_view(r) == predicted(gas_prices(history@)),
{
    let recent = recent_from(history);
    let ghost rs = vals(recent@);
    proof {
        assert(rs.subrange(0, rs.len() as int) =~= rs);
    }
    let current = recent[0];
    let avg_5 = avg_range(&recent, 0, 5);
    let avg_20 = avg_range(&recent, 0, recent.len());
    let older = avg_range(&recent, 5, 10);
    let trend = if older.mul(Dec::new(11, 1)).lt(&avg_5) {
        GasTrend::Rising
    } else if avg_5.lt(&older.mul(Dec::new(9, 1))) {
        GasTrend::Falling
    } else {
        GasTrend::Stable
    };
    let (p5, p15, p60) = match trend {
        GasTrend::Rising => (current.mul(Dec::new(11, 1)), current.mul(Dec::new(12, 1)), current.mul(Dec::new(13, 1))),
        GasTrend::Falling => (current.mul(Dec::new(95, 2)), current.mul(Dec::new(85, 2)), current.mul(Dec::new(75, 2))),
        _ => (current, avg_5, avg_20),
    };
    let sd = std_dev(&recent);
    let cv = if avg_20.is_zero() {
        Dec::zero()
    } else {
        sd.div(avg_20)
    };
    let confidence = Dec::one().sub(cv.min(Dec::one())).max(Dec::new(3, 1));
    GasPrediction {
        current,
        predicted_5min: p5,
        predicted_15min: p15,
        predicted_1hr: p60,
        trend,
        confidence,
    }
}


/// The history never holds more observations than its window (or one,
/// for a window of zero): recording keeps that bound.
pub proof fn lemma_history_push_bounded(h: Seq<GasHistoryEntry>, window: int, e: GasHistoryEntry)
    requires
        h.len() <= window || h.len() <= 1,
    ensures
        history_push(h, window, e).len() <= window || history_push(h, window, e).len() <= 1,
        history_push(h, window, e).last() == e,
{
}

/// The gas price chosen for any priority never exceeds the configured
/// maximum.
pub proof fn lemma_optimal_capped(max_gas: (int, int), p: Priority, current: (int, int))
    ensures
        dle(optimal_of(max_gas, p, current), max_gas),
{
}

} // verus!
