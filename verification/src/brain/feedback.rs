//! The feedback loop: trade outcomes go to the learning engine, learnings
//! are synced into strategy weights, and reports summarise performance.
use crate::brain::fund_brain::{keys_unique, lookup, put};
use crate::brain::learning::{
    is_default_learning_config,
    recorded_outcome, recent_records, first_named, wins_in, pnls, patterns_where, first_n, items_of,
    adjustments_of, all_pf_ok, days_after, dview, named, pattern_room, strategy_room, weights_after,
    DailyPerformance, LearningEngine, LearningInsights, MarketConditions, StrategyStats, TradeRecord,
};
use crate::brain::reflect::strs;
use crate::clock::now_secs;
use crate::decimal::{dadd, ddiv, dint, dle, dlit, dlt, Dec};
use crate::market::{Trade, TradeOutcome};
use crate::series::sum_of;
use vstd::prelude::*;

verus! {

/// Feedback loop configuration.
#[derive(Debug, Clone, Copy)]
pub struct FeedbackConfig {
    /// Trades recorded before learnings are synced.
    pub min_trades_before_sync: usize,
    /// Seconds between syncs.
    pub sync_interval_secs: u64,
    /// Whether syncing adjusts the strategy weights.
    pub auto_adjust_weights: bool,
    /// Seconds between reports.
    pub report_interval_secs: u64,
}

/// The default feedback configuration: sync after 10 trades and at most
/// hourly, adjust the strategy weights, report daily.
pub open spec fn is_default_feedback_config(c: FeedbackConfig) -> bool {
    &&& c.min_trades_before_sync == 10
    &&& c.sync_interval_secs == 3600
    &&& c.auto_adjust_weights
    &&& c.report_interval_secs == 86400
}

impl Default for FeedbackConfig {
    fn default() -> (r: FeedbackConfig)
        ensures
            is_default_feedback_config(r),
    {
        FeedbackConfig {
            min_trades_before_sync: 10,
            sync_interval_secs: 3600,
            auto_adjust_weights: true,
            report_interval_secs: 86400,
        }
    }
}

/// Seconds from `since` to `now`, taken modulo 2^64 as an unsigned count.
pub open spec fn elapsed(now: i64, since: i64) -> u64 {
    (now - since) as u64
}

fn elapsed_exec(now: i64, since: i64) -> (r: u64)
    ensures
        r == elapsed(now, since),
{
    let d: i128 = now as i128 - since as i128;
    d as u64
}

fn weight(name: &str, m: i128) -> (r: (String, Dec))
    requires
        0 <= m <= 100,
    ensures
        r.0@ == name@,
        r.1@ == dlit(m as int, 2),
{
    (name.to_owned(), Dec::new(m, 2))
}

/// The starting strategy weights.
pub open spec fn initial_weights() -> Seq<(Seq<char>, (int, int))> {
    seq![
        ("momentum"@, dlit(25, 2)),
        ("mean_reversion"@, dlit(20, 2)),
        ("regime"@, dlit(20, 2)),
        ("arbitrage"@, dlit(15, 2)),
        ("sentiment"@, dlit(10, 2)),
        ("volume"@, dlit(10, 2)),
    ]
}

/// Feedback loop from trade outcomes to learning and strategy weights;
/// times are seconds since the Unix epoch.
pub struct FeedbackLoop {
    config: FeedbackConfig,
    learning: LearningEngine,
    pending_trades: usize,
    last_sync: i64,
    last_report: i64,
    strategy_weights: Vec<(String, Dec)>,
}

/// The learning engine can record a trade with these signals and patterns.
pub open spec fn can_record(l: LearningEngine, signals: nat, patterns: nat) -> bool {
    &&& l.wf()
    &&& pattern_room(l.patterns(), patterns)
    &&& strategy_room(l.strategies(), signals)
    &&& signals < i32::MAX
    &&& forall|i: int| 0 <= i < l.days().len() ==> (#[trigger] l.days()[i]).trades < usize::MAX
        && l.days()[i].wins <= l.days()[i].trades
}

impl FeedbackLoop {
    /// The configuration.
    pub closed spec fn config_spec(&self) -> FeedbackConfig {
        self.config
    }

    /// The learning engine.
    pub closed spec fn learning_spec(&self) -> LearningEngine {
        self.learning
    }

    /// Trades recorded since the last sync.
    pub closed spec fn pending(&self) -> usize {
        self.pending_trades
    }

    /// Time of the last sync.
    pub closed spec fn synced_at(&self) -> i64 {
        self.last_sync
    }

    /// Time of the last report.
    pub closed spec fn reported_at(&self) -> i64 {
        self.last_report
    }

    /// The strategy weights by name.
    pub closed spec fn weights_spec(&self) -> Seq<(String, Dec)> {
        self.strategy_weights@
    }

    pub fn new(config: FeedbackConfig) -> (r: FeedbackLoop)
        ensures
            r.config_spec() == config,
            r.learning_spec().wf(),
            r.learning_spec().history_spec().len() == 0,
            r.learning_spec().patterns().len() == 0,
            r.learning_spec().strategies().len() == 0,
            r.learning_spec().days().len() == 0,
            is_default_learning_config(r.learning_spec().config_spec()),
            r.pending() == 0,
            r.synced_at() == 0,
            r.reported_at() == 0,
            named(r.weights_spec()) == initial_weights(),
            keys_unique(r.weights_spec()),
    {
        let weights = vec![
            weight("momentum", 25),
            weight("mean_reversion", 20),
            weight("regime", 20),
            weight("arbitrage", 15),
            weight("sentiment", 10),
            weight("volume", 10),
        ];
        proof {
            assert(named(weights@) =~= initial_weights());
            reveal_strlit("momentum");
            reveal_strlit("mean_reversion");
            reveal_strlit("regime");
            reveal_strlit("arbitrage");
            reveal_strlit("sentiment");
            reveal_strlit("volume");
            assert("regime"@[0] != "volume"@[0]);
            assert("arbitrage"@[0] != "sentiment"@[0]);
            assert forall|i: int, j: int| 0 <= i < j < weights@.len() implies weights@[i].0@ != weights@[j].0@ by {
                assert(weights@[i].0@.len() != weights@[j].0@.len() || weights@[i].0@[0] != weights@[j].0@[0]);
            }
            assert(keys_unique(weights@));
        }
        FeedbackLoop {
            config,
            learning: LearningEngine::with_defaults(),
            pending_trades: 0,
            last_sync: 0,
            last_report: 0,
            strategy_weights: weights,
        }
    }

    pub fn with_defaults() -> (r: FeedbackLoop)
        ensures
            is_default_feedback_config(r.config_spec()),
            r.learning_spec().wf(),
            r.learning_spec().history_spec().len() == 0,
            r.learning_spec().patterns().len() == 0,
            r.learning_spec().strategies().len() == 0,
            r.learning_spec().days().len() == 0,
            is_default_learning_config(r.learning_spec().config_spec()),
            r.pending() == 0,
            r.synced_at() == 0,
            r.reported_at() == 0,
            named(r.weights_spec()) == initial_weights(),
            keys_unique(r.weights_spec()),
    {
        FeedbackLoop::new(FeedbackConfig::default())
    }

    /// Trades recorded since the last sync.
    pub fn pending_trades(&self) -> (r: usize)
        ensures
            r == self.pending(),
    {
        self.pending_trades
    }

    /// Whether learnings are due at time `now`: enough trades are pending,
    /// or the sync interval has passed.
    pub fn should_sync_at(&self, now: i64) -> (r: bool)
        ensures
            r == (self.pending() >= self.config_spec().min_trades_before_sync || elapsed(
                now,
                self.synced_at(),
            ) >= self.config_spec().sync_interval_secs),
    {
        self.pending_trades >= self.config.min_trades_before_sync || elapsed_exec(now, self.last_sync)
            >= self.config.sync_interval_secs
    }

    /// Mark the learnings as synced now, without syncing them.
    pub fn mark_synced(&mut self)
        ensures
            final(self).config_spec() == old(self).config_spec(),
            final(self).learning_spec() == old(self).learning_spec(),
            final(self).pending() == old(self).pending(),
            final(self).reported_at() == old(self).reported_at(),
            final(self).weights_spec() == old(self).weights_spec(),
    {
        self.last_sync = now_secs();
    }

    /// Sync learnings: with automatic adjustment and at least ten trades in
    /// the insights' period, the weights are adjusted; the pending count
    /// restarts and the sync time is now.  Where the insights are not
    /// defined (a profit factor estimate would divide by zero), the weights
    /// stay.
    pub fn sync_learnings(&mut self)
        ensures
            final(self).config_spec() == old(self).config_spec(),
            final(self).learning_spec() == old(self).learning_spec(),
            final(self).pending() == 0,
            final(self).reported_at() == old(self).reported_at(),
            match old(self).learning_spec().try_insights_spec() {
                Some(pt) => if old(self).config_spec().auto_adjust_weights && pt >= 10 {
                    named(final(self).weights_spec()) == weights_after(
                        named(old(self).weights_spec()),
                        adjustments_of(
                            old(self).learning_spec().strategies(),
                            old(self).learning_spec().config_spec().min_pattern_trades as nat,
                        ),
                    )
                } else {
                    final(self).weights_spec() == old(self).weights_spec()
                },
                None => final(self).weights_spec() == old(self).weights_spec(),
            },
    {
        match self.learning.try_generate_insights() {
            Some(insights) => {
                proof {
                    assert(crate::brain::learning::adjustments_ok(
                        self.learning.strategies(),
                        self.learning.config_spec().min_pattern_trades as nat,
                    ));
                }
                if self.config.auto_adjust_weights && insights.period_trades >= 10 {
                    self.strategy_weights = self.learning.adjust_weights(&self.strategy_weights);
                }
            },
            None => {},
        }
        self.pending_trades = 0;
        self.last_sync = now_secs();
    }

    /// Record a completed trade: the learning engine learns from it, it is
    /// pending, and learnings are synced when due.
    pub fn on_trade_complete(
        &mut self,
        trade: Trade,
        reasoning: &str,
        signals: Vec<String>,
        patterns: Vec<String>,
        conditions: MarketConditions,
    )
        requires
            can_record(old(self).learning_spec(), signals@.len(), patterns@.len()),
            old(self).pending() < usize::MAX,
        ensures
            recorded_outcome(
                old(self).learning_spec(),
                final(self).learning_spec(),
                trade,
                reasoning@,
                strs(signals@),
                strs(patterns@),
                conditions,
            ),
            final(self).config_spec() == old(self).config_spec(),
            final(self).reported_at() == old(self).reported_at(),
            final(self).pending() == 0 || (final(self).pending() == old(self).pending() + 1
                && old(self).pending() + 1 < old(self).config_spec().min_trades_before_sync
                && final(self).synced_at() == old(self).synced_at() && final(self).weights_spec()
                == old(self).weights_spec()),
            old(self).pending() + 1 >= old(self).config_spec().min_trades_before_sync
                ==> final(self).pending() == 0,
    {
        self.learning.record_outcome(trade, reasoning, signals, patterns, conditions);
        self.pending_trades = self.pending_trades + 1;
        let now = now_secs();
        if self.should_sync_at(now) {
            self.sync_learnings();
        }
    }

    /// The strategy weights by name.
    pub fn weights(&self) -> (r: &Vec<(String, Dec)>)
        ensures
            r@ == self.weights_spec(),
    {
        &self.strategy_weights
    }

    /// Set a strategy's weight.
    pub fn set_weight(&mut self, strategy: &str, weight: Dec)
        requires
            keys_unique(old(self).weights_spec()),
        ensures
            keys_unique(final(self).weights_spec()),
            lookup(final(self).weights_spec(), strategy@) == Some(weight),
            forall|k: Seq<char>| k != strategy@ ==> #[trigger] lookup(final(self).weights_spec(), k) == lookup(old(self).weights_spec(), k),
            final(self).config_spec() == old(self).config_spec(),
            final(self).learning_spec() == old(self).learning_spec(),
            final(self).pending() == old(self).pending(),
    {
        put(&mut self.strategy_weights, strategy.to_owned(), weight);
    }

    /// The learning engine.
    pub fn learning(&self) -> (r: &LearningEngine)
        ensures
            *r == self.learning_spec(),
    {
        &self.learning
    }

    /// The learning engine, to change in place; nothing else of the loop
    /// changes.
    pub fn learning_mut(&mut self) -> (r: &mut LearningEngine)
        ensures
            *r == old(self).learning_spec(),
            final(self).learning_spec() == *final(r),
            final(self).config_spec() == old(self).config_spec(),
            final(self).pending() == old(self).pending(),
            final(self).synced_at() == old(self).synced_at(),
            final(self).reported_at() == old(self).reported_at(),
            final(self).weights_spec() == old(self).weights_spec(),
    {
        &mut self.learning
    }

    /// Whether a report is due at time `now`.
    pub fn should_report_at(&self, now: i64) -> (r: bool)
        ensures
            r == (elapsed(now, self.reported_at()) >= self.config_spec().report_interval_secs),
    {
        elapsed_exec(now, self.last_report) >= self.config.report_interval_secs
    }

    /// Whether a report is due now.
    pub fn should_report(&self) -> (r: bool)
        ensures
            exists|now: i64| r == (elapsed(now, self.reported_at()) >= self.config_spec().report_interval_secs),
    {
        let now = now_secs();
        self.should_report_at(now)
    }

    /// Mark a report as generated now.
    pub fn mark_reported(&mut self)
        ensures
            final(self).config_spec() == old(self).config_spec(),
            final(self).learning_spec() == old(self).learning_spec(),
            final(self).pending() == old(self).pending(),
            final(self).synced_at() == old(self).synced_at(),
            final(self).weights_spec() == old(self).weights_spec(),
    {
        self.last_report = now_secs();
    }

    /// The learning engine's insights.
    pub fn get_insights(&self) -> (r: LearningInsights)
        requires
            all_pf_ok(self.learning_spec().strategies()),
        ensures
            r.period_trades == recent_records(self.learning_spec().history_spec()).len(),
    {
        self.learning.generate_insights()
    }
}

/// Strategy health.
#[derive(Debug, Clone, Copy, PartialEq, Eq, Structural)]
pub enum StrategyHealth {
    Healthy,
    Warning,
    Critical,
}

/// Health of a strategy.
#[derive(Debug, Clone)]
pub struct StrategyHealthEntry {
    pub name: String,
    pub health: StrategyHealth,
    pub win_rate: Dec,
    pub streak: i32,
    pub pnl: Dec,
}

/// Health of all strategies.
#[derive(Debug, Clone)]
pub struct HealthReport {
    pub overall: StrategyHealth,
    pub healthy: Vec<StrategyHealthEntry>,
    pub warning: Vec<StrategyHealthEntry>,
    pub critical: Vec<StrategyHealthEntry>,
}

/// Health of a strategy: healthy with a win rate of 55% and no losing
/// streak; a warning with a win rate of 45% or a losing streak shorter
/// than three; critical otherwise.
pub open spec fn health_of(wr: (int, int), streak: int) -> StrategyHealth {
    if dle(dlit(55, 2), wr) && streak >= 0 {
        StrategyHealth::Healthy
    } else if dle(dlit(45, 2), wr) || streak > -3 {
        StrategyHealth::Warning
    } else {
        StrategyHealth::Critical
    }
}

/// The parts of a health entry.
pub open spec fn hview(e: StrategyHealthEntry) -> (Seq<char>, StrategyHealth, (int, int), i32, (int, int)) {
    (e.name@, e.health, e.win_rate@, e.streak, e.pnl@)
}

/// Health entries of the strategies with ten trades or more, of one health, in order.
pub open spec fn health_entries(m: Seq<(String, StrategyStats)>, h: StrategyHealth) -> Seq<(Seq<char>, StrategyHealth, (int, int), i32, (int, int))>
    decreases m.len(),
{
    if m.len() == 0 {
        Seq::empty()
    } else {
        let rest = health_entries(m.drop_last(), h);
        let (k, s) = m.last();
        if s.total_trades >= 10 && health_of(s.win_rate@, s.current_streak as int) == h {
            rest.push((k@, h, s.win_rate@, s.current_streak, s.total_pnl@))
        } else {
            rest
        }
    }
}

impl FeedbackLoop {
    /// Health of every strategy with ten trades or more; overall critical
    /// when any is, a warning when warnings outnumber healthy strategies.
    pub fn evaluate_strategy_health(&self) -> (r: HealthReport)
        ensures
            ({
                let m = self.learning_spec().strategies();
                &&& r.healthy@.map_values(|e: StrategyHealthEntry| hview(e)) == health_entries(m, StrategyHealth::Healthy)
                &&& r.warning@.map_values(|e: StrategyHealthEntry| hview(e)) == health_entries(m, StrategyHealth::Warning)
                &&& r.critical@.map_values(|e: StrategyHealthEntry| hview(e)) == health_entries(m, StrategyHealth::Critical)
                &&& r.overall == if r.critical@.len() > 0 {
                    StrategyHealth::Critical
                } else if r.warning@.len() > 0 && r.warning@.len() > r.healthy@.len() {
                    StrategyHealth::Warning
                } else {
                    StrategyHealth::Healthy
                }
            }),
    {
        let performance = self.learning.strategy_performance();
        let ghost m = performance@;
        let mut healthy: Vec<StrategyHealthEntry> = Vec::new();
        let mut warning: Vec<StrategyHealthEntry> = Vec::new();
        let mut critical: Vec<StrategyHealthEntry> = Vec::new();
        let mut i: usize = 0;
        while i < performance.len()
            invariant
                i <= performance.len(),
                m == performance@,
                healthy@.map_values(|e: StrategyHealthEntry| hview(e)) == health_entries(m.take(i as int), StrategyHealth::Healthy),
                warning@.map_values(|e: StrategyHealthEntry| hview(e)) == health_entries(m.take(i as int), StrategyHealth::Warning),
                critical@.map_values(|e: StrategyHealthEntry| hview(e)) == health_entries(m.take(i as int), StrategyHealth::Critical),
            decreases performance.len() - i,
        {
            proof {
                assert(m.take(i + 1).drop_last() =~= m.take(i as int));
                assert(m.take(i + 1).last() == m[i as int]);
            }
            let (name, stats) = (&performance[i].0, &performance[i].1);
            if stats.total_trades >= 10 {
                let health = if Dec::new(55, 2).le(&stats.win_rate) && stats.current_streak >= 0 {
                    StrategyHealth::Healthy
                } else if Dec::new(45, 2).le(&stats.win_rate) || stats.current_streak > -3 {
                    StrategyHealth::Warning
                } else {
                    StrategyHealth::Critical
                };
                let entry = StrategyHealthEntry {
                    name: name.clone(),
                    health,
                    win_rate: stats.win_rate,
                    streak: stats.current_streak,
                    pnl: stats.total_pnl,
                };
                let ghost hv = hview(entry);
                match health {
                    StrategyHealth::Healthy => {
                        let ghost b = healthy@;
                        healthy.push(entry);
                        proof {
                            assert(healthy@.map_values(|e: StrategyHealthEntry| hview(e)) =~= b.map_values(|e: StrategyHealthEntry| hview(e)).push(hv));
                        }
                    },
                    StrategyHealth::Warning => {
                        let ghost b = warning@;
                        warning.push(entry);
                        proof {
                            assert(warning@.map_values(|e: StrategyHealthEntry| hview(e)) =~= b.map_values(|e: StrategyHealthEntry| hview(e)).push(hv));
                        }
                    },
                    StrategyHealth::Critical => {
                        let ghost b = critical@;
                        critical.push(entry);
                        proof {
                            assert(critical@.map_values(|e: StrategyHealthEntry| hview(e)) =~= b.map_values(|e: StrategyHealthEntry| hview(e)).push(hv));
                        }
                    },
                }
            }
            i = i + 1;
        }
        proof {
            assert(m.take(i as int) =~= m);
        }
        let overall = if critical.len() > 0 {
            StrategyHealth::Critical
        } else if warning.len() > 0 && warning.len() > healthy.len() {
            StrategyHealth::Warning
        } else {
            StrategyHealth::Healthy
        };
        HealthReport { overall, healthy, warning, critical }
    }
}

/// Performance of one strategy in a report.
#[derive(Debug, Clone)]
pub struct StrategyBreakdown {
    pub name: String,
    pub trades: usize,
    pub win_rate: Dec,
    pub pnl: Dec,
    pub current_weight: Dec,
    pub streak: i32,
}

/// Performance report.
#[derive(Debug, Clone)]
pub struct PerformanceReport {
    pub period: String,
    pub total_trades: usize,
    pub wins: usize,
    pub losses: usize,
    pub win_rate: Dec,
    pub total_pnl: Dec,
    pub daily_avg_pnl: Dec,
    pub effective_patterns: usize,
    pub ineffective_patterns: usize,
    pub strategy_breakdown: Vec<StrategyBreakdown>,
    pub recommendations: Vec<String>,
    /// Time of the report, in seconds since the Unix epoch.
    pub generated_at: i64,
}

/// The parts of a strategy's breakdown.
pub open spec fn bview(b: StrategyBreakdown) -> (Seq<char>, usize, (int, int), (int, int), (int, int), i32) {
    (b.name@, b.trades, b.win_rate@, b.pnl@, b.current_weight@, b.streak)
}

/// The weight under a name, zero without one.
pub open spec fn weight_of(w: Seq<(Seq<char>, (int, int))>, name: Seq<char>) -> (int, int) {
    match first_named(w, name) {
        Some(i) => w[i].1,
        None => dint(0),
    }
}

/// Sum of the profits of the latest `k` days, newest first.
pub open spec fn days_pnl(d: Seq<DailyPerformance>, k: nat) -> (int, int)
    decreases k,
{
    if k == 0 || k > d.len() {
        dint(0)
    } else {
        dadd(days_pnl(d, (k - 1) as nat), d[d.len() - k].pnl@)
    }
}

impl FeedbackLoop {
    /// The performance report: totals over the whole history, the average
    /// profit of the latest seven days, pattern counts, each strategy's
    /// breakdown with its current weight, and the insights' recommendations.
    pub fn performance_report(&self) -> (r: PerformanceReport)
        requires
            all_pf_ok(self.learning_spec().strategies()),
        ensures
            ({
                let l = self.learning_spec();
                let h = l.history_spec();
                let min = l.config_spec().min_pattern_trades as nat;
                let nd: nat = if l.days().len() < 7 {
                    l.days().len()
                } else {
                    7
                };
                &&& r.period@ == "All Time"@
                &&& r.total_trades == h.len()
                &&& r.wins == wins_in(h)
                &&& r.losses == h.len() - wins_in(h)
                &&& r.win_rate@ == if h.len() > 0 {
                    ddiv(dint(wins_in(h) as int), dint(h.len() as int))
                } else {
                    dint(0)
                }
                &&& r.total_pnl@ == sum_of(pnls(h))
                &&& r.daily_avg_pnl@ == if nd == 0 {
                    dint(0)
                } else {
                    ddiv(days_pnl(l.days(), nd), dint(nd as int))
                }
                &&& r.effective_patterns == patterns_where(l.patterns(), true, min).len()
                &&& r.ineffective_patterns == patterns_where(l.patterns(), false, min).len()
                &&& r.strategy_breakdown@.len() == l.strategies().len()
                &&& forall|i: int|
                    0 <= i < l.strategies().len() ==> {
                        let s = (#[trigger] l.strategies()[i]).1;
                        bview(r.strategy_breakdown@[i]) == (
                            s.strategy_name@,
                            s.total_trades,
                            s.win_rate@,
                            s.total_pnl@,
                            weight_of(named(self.weights_spec()), s.strategy_name@),
                            s.current_streak,
                        )
                    }
            }),
    {
        let insights = self.learning.generate_insights();
        let analysis = self.learning.analyze_patterns();
        let history = self.learning.history();
        let ghost h = history@;
        let total_trades = history.len();
        let mut wins: usize = 0;
        let mut total_pnl = Dec::zero();
        let mut i: usize = 0;
        while i < total_trades
            invariant
                total_trades == history.len(),
                h == history@,
                i <= total_trades,
                wins == wins_in(h.take(i as int)),
                wins <= i,
                total_pnl@ == sum_of(pnls(h.take(i as int))),
            decreases total_trades - i,
        {
            proof {
                assert(h.take(i + 1).drop_last() =~= h.take(i as int));
                assert(pnls(h.take(i + 1)).drop_last() =~= pnls(h.take(i as int)));
                assert(pnls(h.take(i + 1)).last() == h[i as int].trade.pnl@);
            }
            if history[i].trade.outcome == TradeOutcome::Win {
                wins = wins + 1;
            }
            total_pnl = total_pnl.add(history[i].trade.pnl);
            i = i + 1;
        }
        proof {
            assert(h.take(i as int) =~= h);
        }
        let win_rate = if total_trades > 0 {
            Dec::from_usize(wins).div(Dec::from_usize(total_trades))
        } else {
            Dec::zero()
        };
        let daily = self.learning.recent_daily_performance(7);
        let nd = daily.len();
        let daily_avg_pnl = if nd == 0 {
            Dec::zero()
        } else {
            let mut sum = Dec::zero();
            let mut k: usize = 0;
            while k < nd
                invariant
                    nd == daily.len(),
                    nd <= 7,
                    nd <= self.learning.days().len(),
                    k <= nd,
                    forall|j: int| 0 <= j < nd ==> *(#[trigger] daily@[j]) == self.learning.days()[self.learning.days().len() - 1 - j],
                    sum@ == days_pnl(self.learning.days(), k as nat),
                decreases nd - k,
            {
                sum = sum.add(daily[k].pnl);
                k = k + 1;
            }
            sum.div(Dec::from_usize(nd))
        };
        let performance = self.learning.strategy_performance();
        let ghost sm = performance@;
        let ghost wv = named(self.strategy_weights@);
        let mut breakdown: Vec<StrategyBreakdown> = Vec::new();
        let mut j: usize = 0;
        while j < performance.len()
            invariant
                j <= performance.len(),
                sm == performance@,
                wv == named(self.strategy_weights@),
                breakdown@.len() == j,
                forall|q: int|
                    0 <= q < j ==> {
                        let s = (#[trigger] sm[q]).1;
                        bview(breakdown@[q]) == (
                            s.strategy_name@,
                            s.total_trades,
                            s.win_rate@,
                            s.total_pnl@,
                            weight_of(wv, s.strategy_name@),
                            s.current_streak,
                        )
                    },
            decreases performance.len() - j,
        {
            let s = &performance[j].1;
            let mut k: usize = 0;
            while k < self.strategy_weights.len()
                invariant
                    k <= self.strategy_weights.len(),
                    wv == named(self.strategy_weights@),
                    forall|m: int| 0 <= m < k ==> (#[trigger] wv[m]).0 != s.strategy_name@,
                ensures
                    k <= self.strategy_weights.len(),
                    forall|m: int| 0 <= m < k ==> (#[trigger] wv[m]).0 != s.strategy_name@,
                    k < self.strategy_weights.len() ==> wv[k as int].0 == s.strategy_name@,
                decreases self.strategy_weights.len() - k,
            {
                if crate::text::str_eq(self.strategy_weights[k].0.as_str(), s.strategy_name.as_str()) {
                    break;
                }
                k = k + 1;
            }
            let current_weight = if k < self.strategy_weights.len() {
                proof {
                    let f = first_named(wv, s.strategy_name@)->0;
                    assert(first_named(wv, s.strategy_name@) is Some);
                    assert(f == k) by {
                        if f < k {
                            assert(wv[f].0 != s.strategy_name@);
                        }
                        if k < f {
                            assert(wv[k as int].0 != s.strategy_name@);
                        }
                    }
                }
                self.strategy_weights[k].1
            } else {
                proof {
                    assert(first_named(wv, s.strategy_name@) is None);
                }
                Dec::zero()
            };
            breakdown.push(
                StrategyBreakdown {
                    name: s.strategy_name.clone(),
                    trades: s.total_trades,
                    win_rate: s.win_rate,
                    pnl: s.total_pnl,
                    current_weight,
                    streak: s.current_streak,
                },
            );
            j = j + 1;
        }
        PerformanceReport {
            period: "All Time".to_owned(),
            total_trades,
            wins,
            losses: total_trades - wins,
            win_rate,
            total_pnl,
            daily_avg_pnl,
            effective_patterns: analysis.effective_patterns,
            ineffective_patterns: analysis.ineffective_patterns,
            strategy_breakdown: breakdown,
            recommendations: insights.recommendations,
            generated_at: now_secs(),
        }
    }

    /// `performance_report` for any state: `None` where a profit factor
    /// estimate would divide by zero.
    pub fn try_performance_report(&self) -> (r: Option<PerformanceReport>)
        ensures
            r is Some <==> all_pf_ok(self.learning_spec().strategies()),
    {
        if self.learning.insights_defined() {
            Some(self.performance_report())
        } else {
            None
        }
    }
}

} // verus!
