//! Continuous learning from trade outcomes: statistics per pattern and per
//! strategy, daily performance, insights and weight adjustments.
use crate::brain::fund_brain::{find_key, keys_unique, lemma_lookup_absent, lemma_lookup_at, lookup, put};
use crate::brain::reflect::{copy_strings, strs, opt};
use crate::alpha::forecaster::observed;
use crate::ranking::{keyed, lemma_ordered_map, map_items, order_by_key, ordered};
use crate::series::sum_of;
use crate::text::{join_sep, joined_sep};
use crate::clock::{now_secs, today_utc};
use crate::decimal::{dabs, dadd, ddiv, dint, dle, dlit, dlt, dmax, dmin, dmul, dsub, units, lemma_pow10_table, Dec};
use crate::market::{Trade, TradeOutcome};
use crate::text::str_eq;
use vstd::prelude::*;

verus! {

/// Learning engine configuration.
#[derive(Debug, Clone, Copy)]
pub struct LearningConfig {
    /// Trades a pattern needs before it is judged.
    pub min_pattern_trades: usize,
    /// Weight decay per day for older trades.
    pub weight_decay_per_day: Dec,
    /// Largest history kept.
    pub max_history_size: usize,
    /// Significance threshold for patterns.
    pub significance_threshold: Dec,
}

/// The default learning configuration: patterns judged from 10 trades, a
/// daily weight decay of 0.95, at most 1000 trades kept, significance at
/// 0.05.
pub open spec fn is_default_learning_config(c: LearningConfig) -> bool {
    &&& c.min_pattern_trades == 10
    &&& c.weight_decay_per_day@ == dlit(95, 2)
    &&& c.max_history_size == 1000
    &&& c.significance_threshold@ == dlit(5, 2)
}

impl Default for LearningConfig {
    fn default() -> (r: LearningConfig)
        ensures
            is_default_learning_config(r),
    {
        LearningConfig {
            min_pattern_trades: 10,
            weight_decay_per_day: Dec::new(95, 2),
            max_history_size: 1000,
            significance_threshold: Dec::new(5, 2),
        }
    }
}

/// Market conditions at the time of a trade.
#[derive(Debug, Clone)]
pub struct MarketConditions {
    pub regime: String,
    pub volatility: Dec,
    pub spread_bps: Dec,
    pub volume_relative: Dec,
    pub time_of_day: u8,
    pub day_of_week: u8,
}

impl Default for MarketConditions {
    fn default() -> (r: MarketConditions)
        ensures
            r.regime@.len() == 0,
            r.volatility@ == dint(0),
            r.spread_bps@ == dint(0),
            r.volume_relative@ == dint(0),
            r.time_of_day == 0,
            r.day_of_week == 0,
    {
        MarketConditions {
            regime: String::new(),
            volatility: Dec::zero(),
            spread_bps: Dec::zero(),
            volume_relative: Dec::zero(),
            time_of_day: 0,
            day_of_week: 0,
        }
    }
}

/// A trade with what led to it; the time is in seconds since the Unix epoch.
#[derive(Debug, Clone)]
pub struct TradeRecord {
    pub trade: Trade,
    pub reasoning: String,
    pub signals_used: Vec<String>,
    pub pattern_ids: Vec<String>,
    pub market_conditions: MarketConditions,
    pub timestamp: i64,
}

/// Statistics of a pattern.
#[derive(Debug, Clone)]
pub struct PatternStats {
    pub pattern_id: String,
    pub total_trades: usize,
    pub wins: usize,
    pub losses: usize,
    pub total_pnl: Dec,
    pub avg_pnl: Dec,
    pub win_rate: Dec,
    pub profit_factor: Dec,
    pub max_consecutive_losses: usize,
    pub recent_performance: Dec,
    pub is_effective: bool,
}

/// The parts of a pattern's statistics.
pub open spec fn pview(s: PatternStats) -> (Seq<char>, nat, nat, nat, (int, int), (int, int), (int, int), (int, int), nat, (int, int), bool) {
    (
        s.pattern_id@,
        s.total_trades as nat,
        s.wins as nat,
        s.losses as nat,
        s.total_pnl@,
        s.avg_pnl@,
        s.win_rate@,
        s.profit_factor@,
        s.max_consecutive_losses as nat,
        s.recent_performance@,
        s.is_effective,
    )
}

/// Fresh statistics of a pattern.
pub open spec fn fresh_pattern(id: Seq<char>) -> (Seq<char>, nat, nat, nat, (int, int), (int, int), (int, int), (int, int), nat, (int, int), bool) {
    (id, 0, 0, 0, dint(0), dint(0), dint(0), dint(0), 0, dint(0), false)
}

fn new_pattern_stats(id: &str) -> (r: PatternStats)
    ensures
        pview(r) == fresh_pattern(id@),
{
    PatternStats {
        pattern_id: id.to_owned(),
        total_trades: 0,
        wins: 0,
        losses: 0,
        total_pnl: Dec::zero(),
        avg_pnl: Dec::zero(),
        win_rate: Dec::zero(),
        profit_factor: Dec::zero(),
        max_consecutive_losses: 0,
        recent_performance: Dec::zero(),
        is_effective: false,
    }
}

/// Statistics of a strategy.
#[derive(Debug, Clone)]
pub struct StrategyStats {
    pub strategy_name: String,
    pub total_trades: usize,
    pub wins: usize,
    pub losses: usize,
    pub total_pnl: Dec,
    pub avg_pnl: Dec,
    pub win_rate: Dec,
    pub sharpe_ratio: Dec,
    pub max_drawdown: Dec,
    /// Consecutive wins (positive) or losses (negative).
    pub current_streak: i32,
    pub best_conditions: Vec<String>,
    pub worst_conditions: Vec<String>,
}

/// The parts of a strategy's statistics.
pub open spec fn sview(s: StrategyStats) -> (Seq<char>, nat, nat, nat, (int, int), (int, int), (int, int), (int, int), (int, int), int, Seq<Seq<char>>, Seq<Seq<char>>) {
    (
        s.strategy_name@,
        s.total_trades as nat,
        s.wins as nat,
        s.losses as nat,
        s.total_pnl@,
        s.avg_pnl@,
        s.win_rate@,
        s.sharpe_ratio@,
        s.max_drawdown@,
        s.current_streak as int,
        strs(s.best_conditions@),
        strs(s.worst_conditions@),
    )
}

/// Fresh statistics of a strategy.
pub open spec fn fresh_strategy(name: Seq<char>) -> (Seq<char>, nat, nat, nat, (int, int), (int, int), (int, int), (int, int), (int, int), int, Seq<Seq<char>>, Seq<Seq<char>>) {
    (name, 0, 0, 0, dint(0), dint(0), dint(0), dint(0), dint(0), 0, Seq::empty(), Seq::empty())
}

fn new_strategy_stats(name: &str) -> (r: StrategyStats)
    ensures
        sview(r) == fresh_strategy(name@),
{
    let r = StrategyStats {
        strategy_name: name.to_owned(),
        total_trades: 0,
        wins: 0,
        losses: 0,
        total_pnl: Dec::zero(),
        avg_pnl: Dec::zero(),
        win_rate: Dec::zero(),
        sharpe_ratio: Dec::zero(),
        max_drawdown: Dec::zero(),
        current_streak: 0,
        best_conditions: Vec::new(),
        worst_conditions: Vec::new(),
    };
    proof {
        assert(strs(r.best_conditions@) =~= Seq::<Seq<char>>::empty());
        assert(strs(r.worst_conditions@) =~= Seq::<Seq<char>>::empty());
    }
    r
}

/// Daily performance summary.
#[derive(Debug, Clone)]
pub struct DailyPerformance {
    pub date: String,
    pub trades: usize,
    pub wins: usize,
    pub pnl: Dec,
    pub win_rate: Dec,
    pub best_strategy: Option<String>,
    pub worst_strategy: Option<String>,
}

/// Strategy ranking.
#[derive(Debug, Clone)]
pub struct StrategyRanking {
    pub name: String,
    pub score: Dec,
    pub win_rate: Dec,
    pub pnl: Dec,
}

/// Learning insights for feedback.
#[derive(Debug, Clone)]
pub struct LearningInsights {
    pub period_trades: usize,
    pub period_win_rate: Dec,
    pub period_pnl: Dec,
    pub improving_patterns: Vec<String>,
    pub declining_patterns: Vec<String>,
    pub best_strategies: Vec<StrategyRanking>,
    pub worst_strategies: Vec<StrategyRanking>,
    pub recommendations: Vec<String>,
    /// Weight multipliers by strategy name.
    pub weight_adjustments: Vec<(String, Dec)>,
}

/// Pattern analysis results.
#[derive(Debug, Clone)]
pub struct PatternAnalysis {
    pub total_patterns: usize,
    pub effective_patterns: usize,
    pub ineffective_patterns: usize,
    pub top_patterns: Vec<PatternStats>,
    pub worst_patterns: Vec<PatternStats>,
}

/// Whether a list of names holds a name.
pub fn contains_name(v: &Vec<String>, name: &str) -> (r: bool)
    ensures
        r == strs(v@).contains(name@),
{
    let mut i: usize = 0;
    while i < v.len()
        invariant
            i <= v.len(),
            forall|j: int| 0 <= j < i ==> v@[j]@ != name@,
        decreases v.len() - i,
    {
        if str_eq(v[i].as_str(), name) {
            proof {
                assert(strs(v@)[i as int] == name@);
            }
            return true;
        }
        i = i + 1;
    }
    proof {
        assert forall|j: int| 0 <= j < strs(v@).len() implies strs(v@)[j] != name@ by {
            assert(strs(v@)[j] == v@[j]@);
        }
    }
    false
}

/// Profits of the winning trades with a pattern, and magnitudes of the
/// losing ones, summed in order over a history.
pub open spec fn pattern_pnl(h: Seq<TradeRecord>, id: Seq<char>) -> ((int, int), (int, int))
    decreases h.len(),
{
    if h.len() == 0 {
        (dint(0), dint(0))
    } else {
        let (w, l) = pattern_pnl(h.drop_last(), id);
        let r = h.last();
        if strs(r.pattern_ids@).contains(id) && dlt(dint(0), r.trade.pnl@) {
            (dadd(w, r.trade.pnl@), l)
        } else if strs(r.pattern_ids@).contains(id) && dlt(r.trade.pnl@, dint(0)) {
            (w, dadd(l, dabs(r.trade.pnl@)))
        } else {
            (w, l)
        }
    }
}

/// A pattern's statistics after one more trade, with the profit factor
/// taken over the history (10 without losses); the pattern is effective
/// with enough trades, a win rate of 55% and a profit factor of 1.3.
pub open spec fn pattern_step(
    v: (Seq<char>, nat, nat, nat, (int, int), (int, int), (int, int), (int, int), nat, (int, int), bool),
    t: Trade,
    h: Seq<TradeRecord>,
    min_trades: nat,
) -> (Seq<char>, nat, nat, nat, (int, int), (int, int), (int, int), (int, int), nat, (int, int), bool) {
    let total = v.1 + 1;
    let wins = v.2 + if t.outcome == TradeOutcome::Win {
        1nat
    } else {
        0nat
    };
    let losses = v.3 + if t.outcome == TradeOutcome::Loss {
        1nat
    } else {
        0nat
    };
    let pnl = dadd(v.4, t.pnl@);
    let wr = ddiv(dint(wins as int), dint(total as int));
    let (w, l) = pattern_pnl(h, v.0);
    let pf = if units(l) == 0 {
        dint(10)
    } else {
        ddiv(w, l)
    };
    (
        v.0,
        total,
        wins,
        losses,
        pnl,
        ddiv(pnl, dint(total as int)),
        wr,
        pf,
        v.8,
        v.9,
        total >= min_trades && dle(dlit(55, 2), wr) && dle(dlit(13, 1), pf),
    )
}

/// The statistics under a name, as views.
pub open spec fn pattern_at(m: Seq<(String, PatternStats)>, k: Seq<char>) -> Option<
    (Seq<char>, nat, nat, nat, (int, int), (int, int), (int, int), (int, int), nat, (int, int), bool),
> {
    match lookup(m, k) {
        Some(s) => Some(pview(s)),
        None => None,
    }
}

/// A pattern's statistics after the trades in `ids` that name it.
pub open spec fn pattern_after(
    v: Option<(Seq<char>, nat, nat, nat, (int, int), (int, int), (int, int), (int, int), nat, (int, int), bool)>,
    k: Seq<char>,
    ids: Seq<Seq<char>>,
    t: Trade,
    h: Seq<TradeRecord>,
    min_trades: nat,
) -> Option<(Seq<char>, nat, nat, nat, (int, int), (int, int), (int, int), (int, int), nat, (int, int), bool)>
    decreases ids.len(),
{
    if ids.len() == 0 {
        v
    } else {
        let before = pattern_after(v, k, ids.drop_last(), t, h, min_trades);
        if ids.last() == k {
            Some(
                pattern_step(
                    match before {
                        Some(b) => b,
                        None => fresh_pattern(k),
                    },
                    t,
                    h,
                    min_trades,
                ),
            )
        } else {
            before
        }
    }
}

/// The streak after one more outcome: wins extend a winning streak (or
/// start one), losses extend a losing streak (or start one).
pub open spec fn streak_step(s: int, o: TradeOutcome) -> int {
    match o {
        TradeOutcome::Win => if s >= 0 {
            s + 1
        } else {
            1
        },
        TradeOutcome::Loss => if s <= 0 {
            s - 1
        } else {
            -1
        },
        TradeOutcome::Breakeven => s,
    }
}

/// A strategy's statistics after one more trade.
pub open spec fn strategy_step(
    v: (Seq<char>, nat, nat, nat, (int, int), (int, int), (int, int), (int, int), (int, int), int, Seq<Seq<char>>, Seq<Seq<char>>),
    t: Trade,
) -> (Seq<char>, nat, nat, nat, (int, int), (int, int), (int, int), (int, int), (int, int), int, Seq<Seq<char>>, Seq<Seq<char>>) {
    let total = v.1 + 1;
    let wins = v.2 + if t.outcome == TradeOutcome::Win {
        1nat
    } else {
        0nat
    };
    let losses = v.3 + if t.outcome == TradeOutcome::Loss {
        1nat
    } else {
        0nat
    };
    let pnl = dadd(v.4, t.pnl@);
    (
        v.0,
        total,
        wins,
        losses,
        pnl,
        ddiv(pnl, dint(total as int)),
        ddiv(dint(wins as int), dint(total as int)),
        v.7,
        v.8,
        streak_step(v.9, t.outcome),
        v.10,
        v.11,
    )
}

/// The statistics under a name, as views.
pub open spec fn strategy_at(m: Seq<(String, StrategyStats)>, k: Seq<char>) -> Option<
    (Seq<char>, nat, nat, nat, (int, int), (int, int), (int, int), (int, int), (int, int), int, Seq<Seq<char>>, Seq<Seq<char>>),
> {
    match lookup(m, k) {
        Some(s) => Some(sview(s)),
        None => None,
    }
}

/// A strategy's statistics after the trades in `names` that name it.
pub open spec fn strategy_after(
    v: Option<(Seq<char>, nat, nat, nat, (int, int), (int, int), (int, int), (int, int), (int, int), int, Seq<Seq<char>>, Seq<Seq<char>>)>,
    k: Seq<char>,
    names: Seq<Seq<char>>,
    t: Trade,
) -> Option<(Seq<char>, nat, nat, nat, (int, int), (int, int), (int, int), (int, int), (int, int), int, Seq<Seq<char>>, Seq<Seq<char>>)>
    decreases names.len(),
{
    if names.len() == 0 {
        v
    } else {
        let before = strategy_after(v, k, names.drop_last(), t);
        if names.last() == k {
            Some(
                strategy_step(
                    match before {
                        Some(b) => b,
                        None => fresh_strategy(k),
                    },
                    t,
                ),
            )
        } else {
            before
        }
    }
}

/// Every pattern's counts leave room for `n` more trades.
pub open spec fn pattern_room(m: Seq<(String, PatternStats)>, n: nat) -> bool {
    forall|k: Seq<char>|
        #[trigger] lookup(m, k) matches Some(s) ==> s.total_trades + n <= usize::MAX && s.wins
            <= s.total_trades && s.losses <= s.total_trades
}

/// Every strategy's counts and streak leave room for `n` more trades.
pub open spec fn strategy_room(m: Seq<(String, StrategyStats)>, n: nat) -> bool {
    forall|k: Seq<char>|
        #[trigger] lookup(m, k) matches Some(s) ==> s.total_trades + n <= usize::MAX && s.wins
            <= s.total_trades && s.losses <= s.total_trades && -(i32::MAX as int) + n
            <= s.current_streak && s.current_streak + n <= i32::MAX
}

/// The parts of a daily summary.
pub open spec fn dview(d: DailyPerformance) -> (Seq<char>, nat, nat, (int, int), (int, int), Option<Seq<char>>, Option<Seq<char>>) {
    (
        d.date@,
        d.trades as nat,
        d.wins as nat,
        d.pnl@,
        d.win_rate@,
        match d.best_strategy {
            Some(s) => Some(s@),
            None => None,
        },
        match d.worst_strategy {
            Some(s) => Some(s@),
            None => None,
        },
    )
}

/// Index of the first day with this date.
pub open spec fn day_index(s: Seq<DailyPerformance>, date: Seq<char>) -> Option<int> {
    if exists|i: int| 0 <= i < s.len() && (#[trigger] s[i]).date@ == date {
        Some(
            choose|i: int|
                0 <= i < s.len() && (#[trigger] s[i]).date@ == date && forall|j: int|
                    0 <= j < i ==> (#[trigger] s[j]).date@ != date,
        )
    } else {
        None
    }
}

/// The daily summaries after a trade on a date: that day's summary counts
/// it, or a new day starts with it.
pub open spec fn days_after(s: Seq<DailyPerformance>, date: Seq<char>, t: Trade) -> Seq<
    (Seq<char>, nat, nat, (int, int), (int, int), Option<Seq<char>>, Option<Seq<char>>),
> {
    let v = s.map_values(|d: DailyPerformance| dview(d));
    let win: nat = if t.outcome == TradeOutcome::Win {
        1
    } else {
        0
    };
    match day_index(s, date) {
        Some(i) => {
            let d = v[i];
            v.update(
                i,
                (d.0, d.1 + 1, d.2 + win, dadd(d.3, t.pnl@), ddiv(dint((d.2 + win) as int), dint((d.1 + 1) as int)), d.5, d.6),
            )
        },
        None => v.push((date, 1, win, t.pnl@, dint(win as int), None, None)),
    }
}

/// `after` is `before` with a trade recorded: it joins the history (the
/// oldest record leaves beyond `max_history_size`), each of its patterns and
/// strategies counts it, and a day's summary counts it.
pub open spec fn recorded_outcome(
    before: LearningEngine,
    after: LearningEngine,
    trade: Trade,
    reasoning: Seq<char>,
    signals: Seq<Seq<char>>,
    patterns: Seq<Seq<char>>,
    conditions: MarketConditions,
) -> bool {
    &&& after.wf()
    &&& after.config_spec() == before.config_spec()
    &&& exists|rec: TradeRecord|
        rec.trade == trade && rec.reasoning@ == reasoning && strs(rec.signals_used@) == signals && strs(
            rec.pattern_ids@,
        ) == patterns && rec.market_conditions == conditions && after.history_spec() == observed(
            before.history_spec(),
            before.config_spec().max_history_size as nat,
            rec,
        )
    &&& forall|k: Seq<char>|
        #[trigger] pattern_at(after.patterns(), k) == pattern_after(
            pattern_at(before.patterns(), k),
            k,
            patterns,
            trade,
            after.history_spec(),
            before.config_spec().min_pattern_trades as nat,
        )
    &&& forall|k: Seq<char>|
        #[trigger] strategy_at(after.strategies(), k) == strategy_after(
            strategy_at(before.strategies(), k),
            k,
            signals,
            trade,
        )
    &&& exists|date: Seq<char>|
        after.days().map_values(|d: DailyPerformance| dview(d)) == days_after(before.days(), date, trade)
}

/// Learning engine.
pub struct LearningEngine {
    config: LearningConfig,
    trade_history: Vec<TradeRecord>,
    pattern_effectiveness: Vec<(String, PatternStats)>,
    strategy_performance: Vec<(String, StrategyStats)>,
    daily_performance: Vec<DailyPerformance>,
}

impl LearningEngine {
    /// The configuration.
    pub closed spec fn config_spec(&self) -> LearningConfig {
        self.config
    }

    /// The trade history, oldest first.
    pub closed spec fn history_spec(&self) -> Seq<TradeRecord> {
        self.trade_history@
    }

    /// Statistics by pattern, in order of first appearance.
    pub closed spec fn patterns(&self) -> Seq<(String, PatternStats)> {
        self.pattern_effectiveness@
    }

    /// Statistics by strategy, in order of first appearance.
    pub closed spec fn strategies(&self) -> Seq<(String, StrategyStats)> {
        self.strategy_performance@
    }

    /// Daily summaries, oldest first.
    pub closed spec fn days(&self) -> Seq<DailyPerformance> {
        self.daily_performance@
    }

    /// The number of trades in the insights' period, where the insights
    /// are defined.
    pub open spec fn try_insights_spec(&self) -> Option<nat> {
        if all_pf_ok(self.strategies()) {
            Some(recent_records(self.history_spec()).len())
        } else {
            None
        }
    }

    /// Names are unique in both statistics.
    pub open spec fn wf(&self) -> bool {
        keys_unique(self.patterns()) && keys_unique(self.strategies())
    }

    pub fn new(config: LearningConfig) -> (r: LearningEngine)
        ensures
            r.wf(),
            r.config_spec() == config,
            r.history_spec().len() == 0,
            r.patterns().len() == 0,
            r.strategies().len() == 0,
            r.days().len() == 0,
    {
        LearningEngine {
            config,
            trade_history: Vec::new(),
            pattern_effectiveness: Vec::new(),
            strategy_performance: Vec::new(),
            daily_performance: Vec::new(),
        }
    }

    pub fn with_defaults() -> (r: LearningEngine)
        ensures
            r.wf(),
            is_default_learning_config(r.config_spec()),
            r.history_spec().len() == 0,
            r.patterns().len() == 0,
            r.strategies().len() == 0,
            r.days().len() == 0,
    {
        LearningEngine::new(LearningConfig::default())
    }

    /// The profits of winning and the magnitudes of losing trades with a
    /// pattern over the history.
    fn pattern_pnl_exec(&self, id: &str) -> (r: (Dec, Dec))
        ensures
            (r.0@, r.1@) == pattern_pnl(self.history_spec(), id@),
    {
        let mut w = Dec::zero();
        let mut l = Dec::zero();
        let mut i: usize = 0;
        while i < self.trade_history.len()
            invariant
                i <= self.trade_history.len(),
                (w@, l@) == pattern_pnl(self.trade_history@.take(i as int), id@),
            decreases self.trade_history.len() - i,
        {
            proof {
                assert(self.trade_history@.take(i + 1).drop_last() =~= self.trade_history@.take(
                    i as int,
                ));
            }
            let r = &self.trade_history[i];
            let has = contains_name(&r.pattern_ids, id);
            if has && Dec::zero().lt(&r.trade.pnl) {
                w = w.add(r.trade.pnl);
            } else if has && r.trade.pnl.lt(&Dec::zero()) {
                l = l.add(r.trade.pnl.abs());
            }
            i = i + 1;
        }
        proof {
            assert(self.trade_history@.take(i as int) =~= self.trade_history@);
        }
        (w, l)
    }

    /// Count one more trade for a pattern (see `pattern_step`).
    fn update_pattern_stats(&mut self, id: &str, outcome: TradeOutcome, pnl: Dec, Ghost(t): Ghost<Trade>)
        requires
            keys_unique(old(self).patterns()),
            pattern_room(old(self).patterns(), 1),
            t.outcome == outcome,
            t.pnl == pnl,
        ensures
            keys_unique(final(self).patterns()),
            pattern_at(final(self).patterns(), id@) == Some(
                pattern_step(
                    match pattern_at(old(self).patterns(), id@) {
                        Some(v) => v,
                        None => fresh_pattern(id@),
                    },
                    t,
                    old(self).history_spec(),
                    old(self).config_spec().min_pattern_trades as nat,
                ),
            ),
            forall|k: Seq<char>| k != id@ ==> #[trigger] lookup(final(self).patterns(), k) == lookup(old(self).patterns(), k),
            final(self).history_spec() == old(self).history_spec(),
            final(self).strategies() == old(self).strategies(),
            final(self).days() == old(self).days(),
            final(self).config_spec() == old(self).config_spec(),
    {
        proof {
            lemma_pow10_table();
        }
        let mut stats = match find_key(&self.pattern_effectiveness, id) {
            Some(i) => {
                proof {
                    lemma_lookup_at(self.pattern_effectiveness@, i as int);
                }
                let e = &self.pattern_effectiveness[i].1;
                PatternStats {
                    pattern_id: e.pattern_id.clone(),
                    total_trades: e.total_trades,
                    wins: e.wins,
                    losses: e.losses,
                    total_pnl: e.total_pnl,
                    avg_pnl: e.avg_pnl,
                    win_rate: e.win_rate,
                    profit_factor: e.profit_factor,
                    max_consecutive_losses: e.max_consecutive_losses,
                    recent_performance: e.recent_performance,
                    is_effective: e.is_effective,
                }
            },
            None => {
                proof {
                    lemma_lookup_absent(self.pattern_effectiveness@, id@);
                }
                new_pattern_stats(id)
            },
        };
        let ghost v0 = pview(stats);
        assert(stats.total_trades < usize::MAX);
        stats.total_trades = stats.total_trades + 1;
        match outcome {
            TradeOutcome::Win => stats.wins = stats.wins + 1,
            TradeOutcome::Loss => stats.losses = stats.losses + 1,
            TradeOutcome::Breakeven => {},
        }
        stats.total_pnl = stats.total_pnl.add(pnl);
        let total = Dec::from_usize(stats.total_trades);
        stats.avg_pnl = stats.total_pnl.div(total);
        stats.win_rate = Dec::from_usize(stats.wins).div(total);
        let (w, l) = self.pattern_pnl_exec(stats.pattern_id.as_str());
        stats.profit_factor = if l.is_zero() {
            Dec::from_u64(10)
        } else {
            w.div(l)
        };
        stats.is_effective = stats.total_trades >= self.config.min_pattern_trades && Dec::new(
            55,
            2,
        ).le(&stats.win_rate) && Dec::new(13, 1).le(&stats.profit_factor);
        put(&mut self.pattern_effectiveness, id.to_owned(), stats);
    }

    /// Count one more trade for a strategy (see `strategy_step`).
    fn update_strategy_stats(&mut self, name: &str, outcome: TradeOutcome, pnl: Dec, Ghost(t): Ghost<Trade>)
        requires
            keys_unique(old(self).strategies()),
            strategy_room(old(self).strategies(), 1),
            t.outcome == outcome,
            t.pnl == pnl,
        ensures
            keys_unique(final(self).strategies()),
            strategy_at(final(self).strategies(), name@) == Some(
                strategy_step(
                    match strategy_at(old(self).strategies(), name@) {
                        Some(v) => v,
                        None => fresh_strategy(name@),
                    },
                    t,
                ),
            ),
            forall|k: Seq<char>| k != name@ ==> #[trigger] lookup(final(self).strategies(), k) == lookup(old(self).strategies(), k),
            final(self).history_spec() == old(self).history_spec(),
            final(self).patterns() == old(self).patterns(),
            final(self).days() == old(self).days(),
            final(self).config_spec() == old(self).config_spec(),
    {
        let mut stats = match find_key(&self.strategy_performance, name) {
            Some(i) => {
                proof {
                    lemma_lookup_at(self.strategy_performance@, i as int);
                }
                let e = &self.strategy_performance[i].1;
                StrategyStats {
                    strategy_name: e.strategy_name.clone(),
                    total_trades: e.total_trades,
                    wins: e.wins,
                    losses: e.losses,
                    total_pnl: e.total_pnl,
                    avg_pnl: e.avg_pnl,
                    win_rate: e.win_rate,
                    sharpe_ratio: e.sharpe_ratio,
                    max_drawdown: e.max_drawdown,
                    current_streak: e.current_streak,
                    best_conditions: copy_strings(&e.best_conditions),
                    worst_conditions: copy_strings(&e.worst_conditions),
                }
            },
            None => {
                proof {
                    lemma_lookup_absent(self.strategy_performance@, name@);
                }
                new_strategy_stats(name)
            },
        };
        stats.total_trades = stats.total_trades + 1;
        match outcome {
            TradeOutcome::Win => {
                stats.wins = stats.wins + 1;
                if stats.current_streak >= 0 {
                    stats.current_streak = stats.current_streak + 1;
                } else {
                    stats.current_streak = 1;
                }
            },
            TradeOutcome::Loss => {
                stats.losses = stats.losses + 1;
                if stats.current_streak <= 0 {
                    stats.current_streak = stats.current_streak - 1;
                } else {
                    stats.current_streak = -1;
                }
            },
            TradeOutcome::Breakeven => {},
        }
        stats.total_pnl = stats.total_pnl.add(pnl);
        let total = Dec::from_usize(stats.total_trades);
        stats.avg_pnl = stats.total_pnl.div(total);
        stats.win_rate = Dec::from_usize(stats.wins).div(total);
        put(&mut self.strategy_performance, name.to_owned(), stats);
    }

    /// Count a trade in today's summary (see `days_after`).
    fn update_daily_performance(&mut self, outcome: TradeOutcome, pnl: Dec, Ghost(t): Ghost<Trade>)
        requires
            t.outcome == outcome,
            t.pnl == pnl,
            forall|i: int| 0 <= i < old(self).days().len() ==> (#[trigger] old(self).days()[i]).trades < usize::MAX && old(self).days()[i].wins <= old(self).days()[i].trades,
        ensures
            exists|date: Seq<char>| final(self).days().map_values(|d: DailyPerformance| dview(d)) == days_after(old(self).days(), date, t),
            forall|i: int| 0 <= i < final(self).days().len() ==> (#[trigger] final(self).days()[i]).wins <= final(self).days()[i].trades,
            final(self).history_spec() == old(self).history_spec(),
            final(self).patterns() == old(self).patterns(),
            final(self).strategies() == old(self).strategies(),
            final(self).config_spec() == old(self).config_spec(),
    {
        let date = today_utc();
        let ghost old_days = self.daily_performance@;
        let ghost dv = date@;
        assert(old_days == old(self).days());
        let mut k: usize = 0;
        while k < self.daily_performance.len()
            invariant
                k <= self.daily_performance.len(),
                forall|j: int| 0 <= j < k ==> (#[trigger] self.daily_performance@[j]).date@ != date@,
            ensures
                k <= self.daily_performance.len(),
                forall|j: int| 0 <= j < k ==> (#[trigger] self.daily_performance@[j]).date@ != date@,
                k < self.daily_performance.len() ==> self.daily_performance@[k as int].date@ == date@,
            decreases self.daily_performance.len() - k,
        {
            if str_eq(self.daily_performance[k].date.as_str(), date.as_str()) {
                break;
            }
            k = k + 1;
        }
        let win = outcome == TradeOutcome::Win;
        if k < self.daily_performance.len() {
            proof {
                let i = day_index(old_days, date@)->0;
                assert(day_index(old_days, date@) is Some);
                assert(i == k) by {
                    if i < k {
                        assert(old_days[i].date@ != date@);
                    }
                    if k < i {
                        assert(old_days[k as int].date@ != date@);
                    }
                }
            }
            let mut d = self.daily_performance.remove(k);
            assert(d == old_days[k as int]);
            d.trades = d.trades + 1;
            d.pnl = d.pnl.add(pnl);
            if win {
                d.wins = d.wins + 1;
            }
            d.win_rate = Dec::from_usize(d.wins).div(Dec::from_usize(d.trades));
            self.daily_performance.insert(k, d);
            proof {
                assert(self.daily_performance@.map_values(|d: DailyPerformance| dview(d)) =~= days_after(
                    old_days,
                    dv,
                    t,
                ));
                assert forall|i: int| 0 <= i < self.daily_performance@.len() implies (
                #[trigger] self.daily_performance@[i]).wins <= self.daily_performance@[i].trades by {
                    if i != k {
                        assert(self.daily_performance@[i] == old_days[i]);
                    }
                }
            }
        } else {
            proof {
                assert(day_index(old_days, date@) is None);
            }
            let wins: usize = if win {
                1
            } else {
                0
            };
            self.daily_performance.push(
                DailyPerformance {
                    date,
                    trades: 1,
                    wins,
                    pnl,
                    win_rate: Dec::from_usize(wins),
                    best_strategy: None,
                    worst_strategy: None,
                },
            );
            proof {
                assert(self.daily_performance@.map_values(|d: DailyPerformance| dview(d)) =~= days_after(
                    old_days,
                    dv,
                    t,
                ));
                assert forall|i: int| 0 <= i < self.daily_performance@.len() implies (
                #[trigger] self.daily_performance@[i]).wins <= self.daily_performance@[i].trades by {
                    if i < old_days.len() {
                        assert(self.daily_performance@[i] == old_days[i]);
                    }
                }
            }
        }
    }

    /// Record a trade and what led to it: it joins the history (the oldest
    /// record leaves beyond `max_history_size`), each of its patterns and
    /// strategies counts it, and today's summary counts it.
    pub fn record_outcome(
        &mut self,
        trade: Trade,
        reasoning: &str,
        signals: Vec<String>,
        patterns: Vec<String>,
        conditions: MarketConditions,
    )
        requires
            old(self).wf(),
            pattern_room(old(self).patterns(), patterns@.len()),
            strategy_room(old(self).strategies(), signals@.len()),
            signals@.len() < i32::MAX,
            forall|i: int| 0 <= i < old(self).days().len() ==> (#[trigger] old(self).days()[i]).trades
                < usize::MAX && old(self).days()[i].wins <= old(self).days()[i].trades,
        ensures
            recorded_outcome(
                *old(self),
                *final(self),
                trade,
                reasoning@,
                strs(signals@),
                strs(patterns@),
                conditions,
            ),
    {
        let outcome = trade.outcome;
        let pnl = trade.pnl;
        let ghost t = trade;
        let signal_names = copy_strings(&signals);
        let pattern_ids = copy_strings(&patterns);
        let record = TradeRecord {
            trade,
            reasoning: reasoning.to_owned(),
            signals_used: signals,
            pattern_ids: patterns,
            market_conditions: conditions,
            timestamp: now_secs(),
        };
        let ghost rec = record;
        self.trade_history.push(record);
        if self.trade_history.len() > self.config.max_history_size {
            self.trade_history.remove(0);
        }
        assert(self.trade_history@ =~= observed(
            old(self).history_spec(),
            old(self).config_spec().max_history_size as nat,
            rec,
        ));
        let ghost p0 = self.pattern_effectiveness@;
        let ghost ids = strs(pattern_ids@);
        assert(pattern_ids@.len() == strs(pattern_ids@).len() == strs(patterns@).len()
            == patterns@.len());
        assert(signal_names@.len() == strs(signal_names@).len() == strs(signals@).len()
            == signals@.len());
        assert(self.patterns() == old(self).patterns());
        assert(self.strategies() == old(self).strategies());
        let ghost hist = self.trade_history@;
        let ghost min = self.config.min_pattern_trades as nat;
        let mut i: usize = 0;
        while i < pattern_ids.len()
            invariant
                i <= pattern_ids.len(),
                ids == strs(pattern_ids@),
                hist == self.history_spec(),
                min == self.config_spec().min_pattern_trades as nat,
                t.outcome == outcome,
                t.pnl == pnl,
                keys_unique(self.patterns()),
                keys_unique(self.strategies()),
                pattern_room(self.patterns(), (pattern_ids@.len() - i) as nat),
                forall|k: Seq<char>|
                    #[trigger] pattern_at(self.patterns(), k) == pattern_after(
                        pattern_at(p0, k),
                        k,
                        ids.take(i as int),
                        t,
                        hist,
                        min,
                    ),
                self.strategies() == old(self).strategies(),
                self.days() == old(self).days(),
                self.config_spec() == old(self).config_spec(),
            decreases pattern_ids.len() - i,
        {
            let ghost before = self.patterns();
            self.update_pattern_stats(pattern_ids[i].as_str(), outcome, pnl, Ghost(t));
            proof {
                let id = pattern_ids@[i as int]@;
                assert(ids.take(i + 1).drop_last() =~= ids.take(i as int));
                assert(ids.take(i + 1).last() == id);
                assert forall|k: Seq<char>|
                    #[trigger] pattern_at(self.patterns(), k) == pattern_after(
                        pattern_at(p0, k),
                        k,
                        ids.take(i + 1),
                        t,
                        hist,
                        min,
                    ) by {
                    if k != id {
                        assert(lookup(self.patterns(), k) == lookup(before, k));
                        assert(pattern_at(before, k) == pattern_after(
                            pattern_at(p0, k),
                            k,
                            ids.take(i as int),
                            t,
                            hist,
                            min,
                        ));
                    } else {
                        assert(pattern_at(before, k) == pattern_after(
                            pattern_at(p0, k),
                            k,
                            ids.take(i as int),
                            t,
                            hist,
                            min,
                        ));
                    }
                }
                assert forall|k: Seq<char>| #[trigger] lookup(self.patterns(), k) is Some implies ({
                    let s = lookup(self.patterns(), k)->0;
                    s.total_trades + (pattern_ids@.len() - (i + 1)) <= usize::MAX && s.wins
                        <= s.total_trades && s.losses <= s.total_trades
                }) by {
                    let s = lookup(self.patterns(), k)->0;
                    if k != id {
                        assert(lookup(self.patterns(), k) == lookup(before, k));
                    } else {
                        assert(pattern_at(self.patterns(), k) == Some(pview(s)));
                        if lookup(before, k) is Some {
                            assert(pattern_at(before, k) == Some(pview(lookup(before, k)->0)));
                        }
                    }
                }
            }
            i = i + 1;
        }
        proof {
            assert(ids.take(i as int) =~= ids);
        }
        let ghost s0 = self.strategy_performance@;
        let ghost names = strs(signal_names@);
        let mut j: usize = 0;
        while j < signal_names.len()
            invariant
                j <= signal_names.len(),
                names == strs(signal_names@),
                signal_names@.len() < i32::MAX,
                t.outcome == outcome,
                t.pnl == pnl,
                keys_unique(self.patterns()),
                keys_unique(self.strategies()),
                strategy_room(self.strategies(), (signal_names@.len() - j) as nat),
                forall|k: Seq<char>|
                    #[trigger] strategy_at(self.strategies(), k) == strategy_after(
                        strategy_at(s0, k),
                        k,
                        names.take(j as int),
                        t,
                    ),
                forall|k: Seq<char>|
                    #[trigger] pattern_at(self.patterns(), k) == pattern_after(
                        pattern_at(p0, k),
                        k,
                        ids,
                        t,
                        hist,
                        min,
                    ),
                hist == self.history_spec(),
                self.days() == old(self).days(),
                self.config_spec() == old(self).config_spec(),
            decreases signal_names.len() - j,
        {
            let ghost before = self.strategies();
            self.update_strategy_stats(signal_names[j].as_str(), outcome, pnl, Ghost(t));
            proof {
                let nm = signal_names@[j as int]@;
                assert(names.take(j + 1).drop_last() =~= names.take(j as int));
                assert(names.take(j + 1).last() == nm);
                assert forall|k: Seq<char>|
                    #[trigger] strategy_at(self.strategies(), k) == strategy_after(
                        strategy_at(s0, k),
                        k,
                        names.take(j + 1),
                        t,
                    ) by {
                    if k != nm {
                        assert(lookup(self.strategies(), k) == lookup(before, k));
                    }
                    assert(strategy_at(before, k) == strategy_after(
                        strategy_at(s0, k),
                        k,
                        names.take(j as int),
                        t,
                    ));
                }
                assert forall|k: Seq<char>| #[trigger] lookup(self.strategies(), k) is Some implies ({
                    let s = lookup(self.strategies(), k)->0;
                    s.total_trades + (signal_names@.len() - (j + 1)) <= usize::MAX && s.wins
                        <= s.total_trades && s.losses <= s.total_trades && -(i32::MAX as int) + (
                    signal_names@.len() - (j + 1)) <= s.current_streak && s.current_streak + (
                    signal_names@.len() - (j + 1)) <= i32::MAX
                }) by {
                    let s = lookup(self.strategies(), k)->0;
                    if k != nm {
                        assert(lookup(self.strategies(), k) == lookup(before, k));
                    } else {
                        assert(strategy_at(self.strategies(), k) == Some(sview(s)));
                        if lookup(before, k) is Some {
                            assert(strategy_at(before, k) == Some(sview(lookup(before, k)->0)));
                        }
                    }
                }
            }
            j = j + 1;
        }
        proof {
            assert(names.take(j as int) =~= names);
        }
        self.update_daily_performance(outcome, pnl, Ghost(t));
    }
}

/// Profit factor of a strategy, estimated from its totals: 10 without
/// losses or when the average loss is zero; otherwise the expected win over
/// the expected loss.
pub open spec fn strategy_pf(s: StrategyStats) -> (int, int) {
    if s.losses == 0 {
        dint(10)
    } else {
        let avg_win = ddiv(s.total_pnl@, dint(if s.wins > 0 { s.wins as int } else { 1 }));
        let avg_loss = ddiv(dabs(s.total_pnl@), dint(s.losses as int));
        if units(avg_loss) == 0 {
            dint(10)
        } else {
            ddiv(dmul(s.win_rate@, avg_win), dmul(dsub(dint(1), s.win_rate@), avg_loss))
        }
    }
}

/// The estimate does not divide by zero.
pub open spec fn strategy_pf_ok(s: StrategyStats) -> bool {
    s.losses == 0 || units(ddiv(dabs(s.total_pnl@), dint(s.losses as int))) == 0 || units(
        dmul(dsub(dint(1), s.win_rate@), ddiv(dabs(s.total_pnl@), dint(s.losses as int))),
    ) != 0
}

impl StrategyStats {
    /// Profit factor estimated from the totals (see `strategy_pf`).
    pub fn profit_factor(&self) -> (r: Dec)
        requires
            strategy_pf_ok(*self),
        ensures
            r@ == strategy_pf(*self),
    {
        if self.losses == 0 {
            return Dec::from_u64(10);
        }
        let w = if self.wins > 0 {
            self.wins
        } else {
            1
        };
        let avg_win = self.total_pnl.div(Dec::from_usize(w));
        let avg_loss = self.total_pnl.abs().div(Dec::from_usize(self.losses));
        if avg_loss.is_zero() {
            Dec::from_u64(10)
        } else {
            self.win_rate.mul(avg_win).div(Dec::one().sub(self.win_rate).mul(avg_loss))
        }
    }
}

/// The weight multiplier of a strategy with enough trades: up 20% with a
/// profit factor above 1.5 and a win rate above 60%, down 20% with a profit
/// factor under 1 or a win rate under 45%, else unchanged.
pub open spec fn adjustment_of(pf: (int, int), wr: (int, int)) -> (int, int) {
    if dlt(dlit(15, 1), pf) && dlt(dlit(6, 1), wr) {
        dlit(12, 1)
    } else if dlt(pf, dint(1)) || dlt(wr, dlit(45, 2)) {
        dlit(8, 1)
    } else {
        dint(1)
    }
}

/// The multipliers of the strategies with enough trades, in order.
pub open spec fn adjustments_of(m: Seq<(String, StrategyStats)>, min: nat) -> Seq<(Seq<char>, (int, int))>
    decreases m.len(),
{
    if m.len() == 0 {
        Seq::empty()
    } else {
        let rest = adjustments_of(m.drop_last(), min);
        let (k, s) = m.last();
        if s.total_trades < min {
            rest
        } else {
            rest.push((k@, adjustment_of(strategy_pf(s), s.win_rate@)))
        }
    }
}

/// Views of named decimals.
pub open spec fn named(v: Seq<(String, Dec)>) -> Seq<(Seq<char>, (int, int))> {
    v.map_values(|p: (String, Dec)| (p.0@, p.1@))
}

/// The estimate is defined for every strategy with enough trades.
pub open spec fn adjustments_ok(m: Seq<(String, StrategyStats)>, min: nat) -> bool {
    forall|i: int| 0 <= i < m.len() && (#[trigger] m[i]).1.total_trades >= min ==> strategy_pf_ok(m[i].1)
}

/// The estimate is defined for every strategy.
pub open spec fn all_pf_ok(m: Seq<(String, StrategyStats)>) -> bool {
    forall|i: int| 0 <= i < m.len() ==> strategy_pf_ok(#[trigger] m[i].1)
}

/// A weight after an adjustment: multiplied, then kept within [0.05, 0.40].
pub open spec fn adjusted_weight(w: (int, int), a: (int, int)) -> (int, int) {
    dmin(dmax(dmul(w, a), dlit(5, 2)), dlit(40, 2))
}

/// Weights after applying adjustments in order: the weight of each adjusted
/// strategy that has one changes.
pub open spec fn weights_after(w: Seq<(Seq<char>, (int, int))>, adj: Seq<(Seq<char>, (int, int))>) -> Seq<(Seq<char>, (int, int))>
    decreases adj.len(),
{
    if adj.len() == 0 {
        w
    } else {
        let before = weights_after(w, adj.drop_last());
        let (k, a) = adj.last();
        match first_named(before, k) {
            Some(i) => before.update(i, (k, adjusted_weight(before[i].1, a))),
            None => before,
        }
    }
}

/// Index of the first entry with a name.
pub open spec fn first_named(w: Seq<(Seq<char>, (int, int))>, k: Seq<char>) -> Option<int> {
    if exists|i: int| 0 <= i < w.len() && (#[trigger] w[i]).0 == k {
        Some(choose|i: int| 0 <= i < w.len() && (#[trigger] w[i]).0 == k && forall|j: int| 0 <= j < i ==> (#[trigger] w[j]).0 != k)
    } else {
        None
    }
}

impl LearningEngine {
    /// The multiplier of each strategy with enough trades (see `adjustments_of`).
    fn calculate_weight_adjustments(&self) -> (r: Vec<(String, Dec)>)
        requires
            adjustments_ok(self.strategies(), self.config_spec().min_pattern_trades as nat),
        ensures
            named(r@) == adjustments_of(self.strategies(), self.config_spec().min_pattern_trades as nat),
    {
        proof {
            lemma_pow10_table();
        }
        let ghost m = self.strategies();
        let ghost min = self.config.min_pattern_trades as nat;
        let mut out: Vec<(String, Dec)> = Vec::new();
        let mut i: usize = 0;
        while i < self.strategy_performance.len()
            invariant
                i <= self.strategy_performance.len(),
                m == self.strategy_performance@,
                min == self.config.min_pattern_trades as nat,
                adjustments_ok(m, min),
                named(out@) == adjustments_of(m.take(i as int), min),
            decreases self.strategy_performance.len() - i,
        {
            proof {
                assert(m.take(i + 1).drop_last() =~= m.take(i as int));
                assert(m.take(i + 1).last() == m[i as int]);
            }
            let (k, st) = (&self.strategy_performance[i].0, &self.strategy_performance[i].1);
            if st.total_trades >= self.config.min_pattern_trades {
                let pf = st.profit_factor();
                let wr = st.win_rate;
                let adjustment = if Dec::new(15, 1).lt(&pf) && Dec::new(6, 1).lt(&wr) {
                    Dec::new(12, 1)
                } else if pf.lt(&Dec::one()) || wr.lt(&Dec::new(45, 2)) {
                    Dec::new(8, 1)
                } else {
                    Dec::one()
                };
                let ghost before = out@;
                out.push((k.clone(), adjustment));
                proof {
                    assert(named(out@) =~= named(before).push((k@, adjustment@)));
                }
            }
            i = i + 1;
        }
        proof {
            assert(m.take(i as int) =~= m);
        }
        out
    }

    /// Whether the weight adjustments are defined (see `adjustments_ok`).
    pub fn adjustments_defined(&self) -> (r: bool)
        ensures
            r == adjustments_ok(self.strategies(), self.config_spec().min_pattern_trades as nat),
    {
        let mut i: usize = 0;
        while i < self.strategy_performance.len()
            invariant
                i <= self.strategy_performance.len(),
                forall|j: int| 0 <= j < i && (#[trigger] self.strategy_performance@[j]).1.total_trades
                    >= self.config.min_pattern_trades ==> strategy_pf_ok(self.strategy_performance@[j].1),
            decreases self.strategy_performance.len() - i,
        {
            let st = &self.strategy_performance[i].1;
            if st.total_trades >= self.config.min_pattern_trades && !Self::pf_defined(st) {
                return false;
            }
            i = i + 1;
        }
        true
    }

    /// Whether the profit factor estimate of a strategy is defined.
    pub fn pf_defined(st: &StrategyStats) -> (r: bool)
        ensures
            r == strategy_pf_ok(*st),
    {
        if st.losses == 0 {
            return true;
        }
        let avg_loss = st.total_pnl.abs().div(Dec::from_usize(st.losses));
        avg_loss.is_zero() || !Dec::one().sub(st.win_rate).mul(avg_loss).is_zero()
    }

    /// Adjust strategy weights by the strategies' performance: each adjusted
    /// strategy's weight is multiplied and kept within [0.05, 0.40].
    pub fn adjust_weights(&self, current: &Vec<(String, Dec)>) -> (r: Vec<(String, Dec)>)
        requires
            adjustments_ok(self.strategies(), self.config_spec().min_pattern_trades as nat),
        ensures
            named(r@) == weights_after(
                named(current@),
                adjustments_of(self.strategies(), self.config_spec().min_pattern_trades as nat),
            ),
    {
        let adjustments = self.calculate_weight_adjustments();
        let mut adjusted: Vec<(String, Dec)> = Vec::new();
        let mut c: usize = 0;
        while c < current.len()
            invariant
                c <= current.len(),
                named(adjusted@) == named(current@).take(c as int),
            decreases current.len() - c,
        {
            let ghost before = adjusted@;
            adjusted.push((current[c].0.clone(), current[c].1));
            proof {
                assert(named(adjusted@) =~= named(before).push((current@[c as int].0@, current@[c as int].1@)));
                assert(named(current@).take(c + 1) =~= named(current@).take(c as int).push(named(current@)[c as int]));
            }
            c = c + 1;
        }
        proof {
            assert(named(current@).take(c as int) =~= named(current@));
        }
        let ghost adj = named(adjustments@);
        let ghost w0 = named(current@);
        let mut i: usize = 0;
        while i < adjustments.len()
            invariant
                i <= adjustments.len(),
                adj == named(adjustments@),
                named(adjusted@) == weights_after(w0, adj.take(i as int)),
            decreases adjustments.len() - i,
        {
            proof {
                assert(adj.take(i + 1).drop_last() =~= adj.take(i as int));
                assert(adj.take(i + 1).last() == adj[i as int]);
            }
            let key = &adjustments[i].0;
            let a = adjustments[i].1;
            let mut k: usize = 0;
            while k < adjusted.len()
                invariant
                    k <= adjusted.len(),
                    forall|j: int| 0 <= j < k ==> (#[trigger] named(adjusted@)[j]).0 != key@,
                ensures
                    k <= adjusted.len(),
                    forall|j: int| 0 <= j < k ==> (#[trigger] named(adjusted@)[j]).0 != key@,
                    k < adjusted.len() ==> named(adjusted@)[k as int].0 == key@,
                decreases adjusted.len() - k,
            {
                if str_eq(adjusted[k].0.as_str(), key.as_str()) {
                    break;
                }
                k = k + 1;
            }
            let ghost cur = named(adjusted@);
            if k < adjusted.len() {
                proof {
                    let f = first_named(cur, key@)->0;
                    assert(first_named(cur, key@) is Some);
                    assert(f == k) by {
                        if f < k {
                            assert(cur[f].0 != key@);
                        }
                        if k < f {
                            assert(cur[k as int].0 != key@);
                        }
                    }
                }
                let w = adjusted[k].1;
                let nw = w.mul(a).max(Dec::new(5, 2)).min(Dec::new(40, 2));
                let entry = (adjusted[k].0.clone(), nw);
                adjusted.set(k, entry);
                proof {
                    assert(named(adjusted@) =~= cur.update(k as int, (key@, adjusted_weight(cur[k as int].1, a@))));
                }
            } else {
                proof {
                    assert(first_named(cur, key@) is None);
                }
            }
            i = i + 1;
        }
        proof {
            assert(adj.take(i as int) =~= adj);
        }
        adjusted
    }

    /// `adjust_weights` for any state: `None` where an estimate would
    /// divide by zero.
    pub fn try_adjust_weights(&self, current: &Vec<(String, Dec)>) -> (r: Option<Vec<(String, Dec)>>)
        ensures
            r is Some <==> adjustments_ok(self.strategies(), self.config_spec().min_pattern_trades as nat),
            r matches Some(v) ==> named(v@) == weights_after(
                named(current@),
                adjustments_of(self.strategies(), self.config_spec().min_pattern_trades as nat),
            ),
    {
        if self.adjustments_defined() {
            Some(self.adjust_weights(current))
        } else {
            None
        }
    }
}

/// A copy of a pattern's statistics.
fn copy_pattern(e: &PatternStats) -> (r: PatternStats)
    ensures
        pview(r) == pview(*e),
{
    PatternStats {
        pattern_id: e.pattern_id.clone(),
        total_trades: e.total_trades,
        wins: e.wins,
        losses: e.losses,
        total_pnl: e.total_pnl,
        avg_pnl: e.avg_pnl,
        win_rate: e.win_rate,
        profit_factor: e.profit_factor,
        max_consecutive_losses: e.max_consecutive_losses,
        recent_performance: e.recent_performance,
        is_effective: e.is_effective,
    }
}

/// The view of a pattern's statistics.
pub open spec fn pview_fn() -> spec_fn(PatternStats) -> (Seq<char>, nat, nat, nat, (int, int), (int, int), (int, int), (int, int), nat, (int, int), bool) {
    |s: PatternStats| pview(s)
}

/// Keyed views of the patterns that pass a test, keyed by profit factor, in order.
pub open spec fn patterns_where(m: Seq<(String, PatternStats)>, effective: bool, min: nat) -> Seq<
    ((int, int), (Seq<char>, nat, nat, nat, (int, int), (int, int), (int, int), (int, int), nat, (int, int), bool)),
>
    decreases m.len(),
{
    if m.len() == 0 {
        Seq::empty()
    } else {
        let rest = patterns_where(m.drop_last(), effective, min);
        let s = m.last().1;
        let pass = if effective {
            s.is_effective
        } else {
            !s.is_effective && s.total_trades >= min
        };
        if pass {
            rest.push((s.profit_factor@, pview(s)))
        } else {
            rest
        }
    }
}

/// The first `n` items (all of them when fewer).
pub open spec fn first_n<T>(s: Seq<T>, n: int) -> Seq<T> {
    if s.len() <= n {
        s
    } else {
        s.take(n)
    }
}

/// The views of keyed items.
pub open spec fn items_of<T>(s: Seq<((int, int), T)>) -> Seq<T> {
    s.map_values(|p: ((int, int), T)| p.1)
}

/// Take the first `n` items of keyed statistics.
fn take_first(v: Vec<(Dec, PatternStats)>, n: usize) -> (r: Vec<PatternStats>)
    ensures
        r@.map_values(|s: PatternStats| pview(s)) == items_of(first_n(map_items(keyed(v@), pview_fn()), n as int)),
{
    let ghost all = map_items(keyed(v@), pview_fn());
    let mut rest = v;
    let mut out: Vec<PatternStats> = Vec::new();
    let ghost mut i: int = 0;
    while rest.len() > 0 && out.len() < n
        invariant
            0 <= i <= all.len(),
            out@.len() == i,
            i <= n,
            rest.len() + i == all.len(),
            map_items(keyed(rest@), pview_fn()) == all.skip(i),
            out@.map_values(|s: PatternStats| pview(s)) == items_of(all.take(i)),
        decreases rest.len(),
    {
        proof {
            assert(map_items(keyed(rest@), pview_fn())[0] == all[i]);
        }
        let ghost old_rest = rest@;
        let (_, st) = rest.remove(0);
        proof {
            assert(map_items(keyed(rest@), pview_fn()) =~= all.skip(i + 1)) by {
                assert forall|m: int| 0 <= m < rest@.len() implies map_items(keyed(rest@), pview_fn())[m] == all.skip(i + 1)[m] by {
                    assert(rest@[m] == old_rest[m + 1]);
                    assert(map_items(keyed(old_rest), pview_fn())[m + 1] == all.skip(i)[m + 1]);
                }
            }
        }
        proof {
            assert(old_rest[0].1 == st);
            assert(map_items(keyed(old_rest), pview_fn())[0] == (old_rest[0].0@, pview_fn()(st)));
            assert(pview_fn()(st) == pview(st));
            assert(all[i].1 == pview(st));
        }
        let ghost before = out@;
        out.push(st);
        proof {
            assert(all.take(i + 1) =~= all.take(i).push(all[i]));
            assert(items_of(all.take(i).push(all[i])) =~= items_of(all.take(i)).push(all[i].1));
            assert(out@.map_values(|s: PatternStats| pview(s)) =~= before.map_values(
                |s: PatternStats| pview(s),
            ).push(pview(st)));
            assert(out@.map_values(|s: PatternStats| pview(s)) =~= items_of(all.take(i + 1)));
            i = i + 1;
        }
    }
    proof {
        if all.len() <= n {
            assert(all.take(i) =~= all);
        }
        assert(first_n(all, n as int) =~= all.take(i));
    }
    out
}

impl LearningEngine {
    /// Keyed copies of the patterns that pass a test (see `patterns_where`).
    fn collect_patterns(&self, effective: bool) -> (r: Vec<(Dec, PatternStats)>)
        ensures
            map_items(keyed(r@), pview_fn()) == patterns_where(
                self.patterns(),
                effective,
                self.config_spec().min_pattern_trades as nat,
            ),
    {
        let ghost m = self.patterns();
        let ghost min = self.config.min_pattern_trades as nat;
        let mut out: Vec<(Dec, PatternStats)> = Vec::new();
        let mut i: usize = 0;
        while i < self.pattern_effectiveness.len()
            invariant
                i <= self.pattern_effectiveness.len(),
                m == self.pattern_effectiveness@,
                min == self.config.min_pattern_trades as nat,
                map_items(keyed(out@), pview_fn()) == patterns_where(m.take(i as int), effective, min),
            decreases self.pattern_effectiveness.len() - i,
        {
            proof {
                assert(m.take(i + 1).drop_last() =~= m.take(i as int));
                assert(m.take(i + 1).last() == m[i as int]);
            }
            let st = &self.pattern_effectiveness[i].1;
            let pass = if effective {
                st.is_effective
            } else {
                !st.is_effective && st.total_trades >= self.config.min_pattern_trades
            };
            if pass {
                let c = copy_pattern(st);
                let ghost before = out@;
                out.push((st.profit_factor, c));
                proof {
                    assert(map_items(keyed(out@), pview_fn()) =~= map_items(keyed(before), pview_fn()).push(
                        (st.profit_factor@, pview(*st)),
                    ));
                }
            }
            i = i + 1;
        }
        proof {
            assert(m.take(i as int) =~= m);
        }
        out
    }

    /// The five best effective patterns by profit factor, and the five worst
    /// judged patterns that are not effective.
    pub fn analyze_patterns(&self) -> (r: PatternAnalysis)
        ensures
            r.total_patterns == self.patterns().len(),
            r.effective_patterns == patterns_where(self.patterns(), true, self.config_spec().min_pattern_trades as nat).len(),
            r.ineffective_patterns == patterns_where(self.patterns(), false, self.config_spec().min_pattern_trades as nat).len(),
            r.top_patterns@.map_values(|s: PatternStats| pview(s)) == items_of(
                first_n(ordered(patterns_where(self.patterns(), true, self.config_spec().min_pattern_trades as nat), true), 5),
            ),
            r.worst_patterns@.map_values(|s: PatternStats| pview(s)) == items_of(
                first_n(ordered(patterns_where(self.patterns(), false, self.config_spec().min_pattern_trades as nat), false), 5),
            ),
    {
        let effective = self.collect_patterns(true);
        let ineffective = self.collect_patterns(false);
        let ne = effective.len();
        let ni = ineffective.len();
        proof {
            assert(map_items(keyed(effective@), pview_fn()).len() == ne);
            assert(map_items(keyed(ineffective@), pview_fn()).len() == ni);
        }
        let e_sorted = order_by_key(effective, true);
        let i_sorted = order_by_key(ineffective, false);
        proof {
            lemma_ordered_map(keyed(effective@), pview_fn(), true);
            lemma_ordered_map(keyed(ineffective@), pview_fn(), false);
        }
        PatternAnalysis {
            total_patterns: self.pattern_effectiveness.len(),
            effective_patterns: ne,
            ineffective_patterns: ni,
            top_patterns: take_first(e_sorted, 5),
            worst_patterns: take_first(i_sorted, 5),
        }
    }

    /// The statistics by pattern.
    pub fn pattern_effectiveness(&self) -> (r: &Vec<(String, PatternStats)>)
        ensures
            r@ == self.patterns(),
    {
        &self.pattern_effectiveness
    }

    /// The statistics by strategy.
    pub fn strategy_performance(&self) -> (r: &Vec<(String, StrategyStats)>)
        ensures
            r@ == self.strategies(),
    {
        &self.strategy_performance
    }

    /// The trade history, oldest first.
    pub fn history(&self) -> (r: &Vec<TradeRecord>)
        ensures
            r@ == self.history_spec(),
    {
        &self.trade_history
    }

    /// The latest `days` daily summaries, newest first.
    pub fn recent_daily_performance(&self, days: usize) -> (r: Vec<&DailyPerformance>)
        ensures
            r.len() == if days < self.days().len() {
                days as int
            } else {
                self.days().len() as int
            },
            forall|k: int| 0 <= k < r.len() ==> *(#[trigger] r@[k]) == self.days()[self.days().len() - 1 - k],
    {
        let n = self.daily_performance.len();
        let mut out: Vec<&DailyPerformance> = Vec::new();
        let mut k: usize = 0;
        while k < days && k < n
            invariant
                n == self.daily_performance.len(),
                k <= n,
                k <= days,
                out.len() == k,
                forall|j: int| 0 <= j < k ==> *(#[trigger] out@[j]) == self.daily_performance@[n - 1 - j],
            decreases n - k,
        {
            out.push(&self.daily_performance[n - 1 - k]);
            k = k + 1;
        }
        out
    }
}

/// Number of wins among records.
pub open spec fn wins_in(s: Seq<TradeRecord>) -> nat
    decreases s.len(),
{
    if s.len() == 0 {
        0
    } else {
        wins_in(s.drop_last()) + if s.last().trade.outcome == TradeOutcome::Win {
            1nat
        } else {
            0nat
        }
    }
}

/// The profits of records, in order.
pub open spec fn pnls(s: Seq<TradeRecord>) -> Seq<(int, int)> {
    s.map_values(|r: TradeRecord| r.trade.pnl@)
}

/// The latest 50 records, newest first.
pub open spec fn recent_records(h: Seq<TradeRecord>) -> Seq<TradeRecord> {
    first_n(h.reverse(), 50)
}

/// Names of the judged patterns that are improving (positive recent
/// performance and effective), in order.
pub open spec fn improving_of(m: Seq<(String, PatternStats)>, min: nat) -> Seq<Seq<char>>
    decreases m.len(),
{
    if m.len() == 0 {
        Seq::empty()
    } else {
        let rest = improving_of(m.drop_last(), min);
        let (k, s) = m.last();
        if s.total_trades >= min && dlt(dint(0), s.recent_performance@) && s.is_effective {
            rest.push(k@)
        } else {
            rest
        }
    }
}

/// Names of the judged patterns that are declining (negative recent
/// performance, and not improving), in order.
pub open spec fn declining_of(m: Seq<(String, PatternStats)>, min: nat) -> Seq<Seq<char>>
    decreases m.len(),
{
    if m.len() == 0 {
        Seq::empty()
    } else {
        let rest = declining_of(m.drop_last(), min);
        let (k, s) = m.last();
        if s.total_trades >= min && !(dlt(dint(0), s.recent_performance@) && s.is_effective) && dlt(
            s.recent_performance@,
            dint(0),
        ) {
            rest.push(k@)
        } else {
            rest
        }
    }
}

/// The parts of a strategy ranking.
pub open spec fn rview(r: StrategyRanking) -> (Seq<char>, (int, int), (int, int), (int, int)) {
    (r.name@, r.score@, r.win_rate@, r.pnl@)
}

/// The rankings of the strategies keyed by score (win rate times profit
/// factor), in order.
pub open spec fn rankings_of(m: Seq<(String, StrategyStats)>) -> Seq<((int, int), (Seq<char>, (int, int), (int, int), (int, int)))> {
    m.map_values(
        |e: (String, StrategyStats)|
            {
                let score = dmul(e.1.win_rate@, strategy_pf(e.1));
                (score, (e.1.strategy_name@, score, e.1.win_rate@, e.1.total_pnl@))
            },
    )
}

fn copy_ranking(r: &StrategyRanking) -> (c: StrategyRanking)
    ensures
        rview(c) == rview(*r),
{
    StrategyRanking { name: r.name.clone(), score: r.score, win_rate: r.win_rate, pnl: r.pnl }
}

/// The view of a ranking.
pub open spec fn rview_fn() -> spec_fn(StrategyRanking) -> (Seq<char>, (int, int), (int, int), (int, int)) {
    |r: StrategyRanking| rview(r)
}

impl LearningEngine {
    /// Insights over the latest 50 trades and the statistics: win rate and
    /// profit of the period, improving and declining patterns, the three
    /// best and three worst strategies, recommendations and the weight
    /// adjustments.
    pub fn generate_insights(&self) -> (r: LearningInsights)
        requires
            all_pf_ok(self.strategies()),
        ensures
            ({
                let recent = recent_records(self.history_spec());
                let min = self.config_spec().min_pattern_trades as nat;
                let ranked = ordered(rankings_of(self.strategies()), true);
                &&& r.period_trades == recent.len()
                &&& r.period_win_rate@ == if recent.len() > 0 {
                    ddiv(dint(wins_in(recent) as int), dint(recent.len() as int))
                } else {
                    dint(0)
                }
                &&& r.period_pnl@ == sum_of(pnls(recent))
                &&& strs(r.improving_patterns@) == improving_of(self.patterns(), min)
                &&& strs(r.declining_patterns@) == declining_of(self.patterns(), min)
                &&& r.best_strategies@.map_values(|x: StrategyRanking| rview(x)) == items_of(first_n(ranked, 3))
                &&& r.worst_strategies@.map_values(|x: StrategyRanking| rview(x)) == items_of(
                    first_n(ranked.reverse(), 3),
                )
                &&& strs(r.recommendations@) == Seq::<Seq<char>>::empty() + opt(
                    dlt(r.period_win_rate@, dlit(5, 1)),
                    "Win rate below 50% - consider reducing position sizes"@,
                ) + opt(
                    r.declining_patterns@.len() > 0,
                    "Declining patterns: "@ + crate::text::joined_sep(r.declining_patterns@, ", "@)
                        + " - review or disable"@,
                ) + opt(
                    r.improving_patterns@.len() > 3,
                    "Multiple patterns improving - consider increasing allocation"@,
                )
                &&& named(r.weight_adjustments@) == adjustments_of(self.strategies(), min)
            }),
    {
        proof {
            lemma_pow10_table();
        }
        let ghost h = self.trade_history@;
        let n = self.trade_history.len();
        let mut period_trades: usize = 0;
        let mut period_wins: usize = 0;
        let mut period_pnl = Dec::zero();
        while period_trades < 50 && period_trades < n
            invariant
                n == self.trade_history.len(),
                h == self.trade_history@,
                period_trades <= n,
                period_trades <= 50,
                period_wins <= period_trades,
                period_wins == wins_in(h.reverse().take(period_trades as int)),
                period_pnl@ == sum_of(pnls(h.reverse().take(period_trades as int))),
            decreases n - period_trades,
        {
            let ghost k = period_trades as int;
            proof {
                assert(h.reverse().take(k + 1).drop_last() =~= h.reverse().take(k));
                assert(h.reverse().take(k + 1).last() == h[n - 1 - k]);
                assert(pnls(h.reverse().take(k + 1)).drop_last() =~= pnls(h.reverse().take(k)));
                assert(pnls(h.reverse().take(k + 1)).last() == h[n - 1 - k].trade.pnl@);
            }
            let rec = &self.trade_history[n - 1 - period_trades];
            if rec.trade.outcome == TradeOutcome::Win {
                period_wins = period_wins + 1;
            }
            period_pnl = period_pnl.add(rec.trade.pnl);
            period_trades = period_trades + 1;
        }
        proof {
            assert(recent_records(h) =~= h.reverse().take(period_trades as int));
        }
        let period_win_rate = if period_trades > 0 {
            Dec::from_usize(period_wins).div(Dec::from_usize(period_trades))
        } else {
            Dec::zero()
        };
        let ghost m = self.pattern_effectiveness@;
        let ghost min = self.config.min_pattern_trades as nat;
        let mut improving: Vec<String> = Vec::new();
        let mut declining: Vec<String> = Vec::new();
        let mut i: usize = 0;
        while i < self.pattern_effectiveness.len()
            invariant
                i <= self.pattern_effectiveness.len(),
                m == self.pattern_effectiveness@,
                min == self.config.min_pattern_trades as nat,
                strs(improving@) == improving_of(m.take(i as int), min),
                strs(declining@) == declining_of(m.take(i as int), min),
            decreases self.pattern_effectiveness.len() - i,
        {
            proof {
                assert(m.take(i + 1).drop_last() =~= m.take(i as int));
                assert(m.take(i + 1).last() == m[i as int]);
            }
            let (id, st) = (&self.pattern_effectiveness[i].0, &self.pattern_effectiveness[i].1);
            if st.total_trades >= self.config.min_pattern_trades {
                if Dec::zero().lt(&st.recent_performance) && st.is_effective {
                    let ghost before = improving@;
                    improving.push(id.clone());
                    proof {
                        assert(strs(improving@) =~= strs(before).push(id@));
                    }
                } else if st.recent_performance.lt(&Dec::zero()) {
                    let ghost before = declining@;
                    declining.push(id.clone());
                    proof {
                        assert(strs(declining@) =~= strs(before).push(id@));
                    }
                }
            }
            i = i + 1;
        }
        proof {
            assert(m.take(i as int) =~= m);
        }
        let ghost sm = self.strategy_performance@;
        let mut rankings: Vec<(Dec, StrategyRanking)> = Vec::new();
        let mut j: usize = 0;
        while j < self.strategy_performance.len()
            invariant
                j <= self.strategy_performance.len(),
                sm == self.strategy_performance@,
                all_pf_ok(sm),
                map_items(keyed(rankings@), rview_fn()) == rankings_of(sm).take(j as int),
            decreases self.strategy_performance.len() - j,
        {
            let st = &self.strategy_performance[j].1;
            assert(strategy_pf_ok(sm[j as int].1));
            let score = st.win_rate.mul(st.profit_factor());
            let rk = StrategyRanking {
                name: st.strategy_name.clone(),
                score,
                win_rate: st.win_rate,
                pnl: st.total_pnl,
            };
            let ghost before = rankings@;
            rankings.push((score, rk));
            proof {
                assert(rview_fn()(rk) == rview(rk));
                assert(map_items(keyed(rankings@), rview_fn()) =~= map_items(keyed(before), rview_fn()).push(
                    (score@, rview(rk)),
                ));
                assert(rankings_of(sm).take(j + 1) =~= rankings_of(sm).take(j as int).push(rankings_of(sm)[j as int]));
            }
            j = j + 1;
        }
        proof {
            assert(rankings_of(sm).take(j as int) =~= rankings_of(sm));
        }
        let ghost before_sort = rankings@;
        let sorted = order_by_key(rankings, true);
        proof {
            lemma_ordered_map(keyed(before_sort), rview_fn(), true);
        }
        let ghost ranked = map_items(keyed(sorted@), rview_fn());
        let ns = sorted.len();
        assert(ranked.len() == ns);
        let mut best: Vec<StrategyRanking> = Vec::new();
        let mut worst: Vec<StrategyRanking> = Vec::new();
        let mut k: usize = 0;
        while k < 3 && k < ns
            invariant
                ns == sorted.len(),
                ranked == map_items(keyed(sorted@), rview_fn()),
                k <= ns,
                k <= 3,
                best@.map_values(|x: StrategyRanking| rview(x)) == items_of(ranked.take(k as int)),
                worst@.map_values(|x: StrategyRanking| rview(x)) == items_of(ranked.reverse().take(k as int)),
            decreases ns - k,
        {
            let b = copy_ranking(&sorted[k].1);
            let w = copy_ranking(&sorted[ns - 1 - k].1);
            let ghost bb = best@;
            let ghost ww = worst@;
            best.push(b);
            worst.push(w);
            proof {
                assert(ranked[k as int].1 == rview(b));
                assert(ranked[ns - 1 - k].1 == rview(w));
                assert(items_of(ranked.take(k + 1)) =~= items_of(ranked.take(k as int)).push(ranked[k as int].1));
                assert(ranked.reverse().take(k + 1) =~= ranked.reverse().take(k as int).push(ranked[ns - 1 - k]));
                assert(items_of(ranked.reverse().take(k + 1)) =~= items_of(ranked.reverse().take(k as int)).push(ranked[ns - 1 - k].1));
                assert(best@.map_values(|x: StrategyRanking| rview(x)) =~= bb.map_values(|x: StrategyRanking| rview(x)).push(rview(b)));
                assert(worst@.map_values(|x: StrategyRanking| rview(x)) =~= ww.map_values(|x: StrategyRanking| rview(x)).push(rview(w)));
            }
            k = k + 1;
        }
        proof {
            assert(first_n(ranked, 3) =~= ranked.take(k as int));
            assert(first_n(ranked.reverse(), 3) =~= ranked.reverse().take(k as int));
        }
        let mut recommendations: Vec<String> = Vec::new();
        proof {
            assert(strs(recommendations@) =~= Seq::<Seq<char>>::empty());
        }
        crate::brain::reflect::push_if(
            &mut recommendations,
            period_win_rate.lt(&Dec::new(5, 1)),
            "Win rate below 50% - consider reducing position sizes".to_owned(),
        );
        let mut d = "Declining patterns: ".to_owned();
        d.append(join_sep(&declining, ", ").as_str());
        d.append(" - review or disable");
        crate::brain::reflect::push_if(&mut recommendations, declining.len() > 0, d);
        crate::brain::reflect::push_if(
            &mut recommendations,
            improving.len() > 3,
            "Multiple patterns improving - consider increasing allocation".to_owned(),
        );
        proof {
            assert(adjustments_ok(sm, min));
        }
        let weight_adjustments = self.calculate_weight_adjustments();
        LearningInsights {
            period_trades,
            period_win_rate,
            period_pnl,
            improving_patterns: improving,
            declining_patterns: declining,
            best_strategies: best,
            worst_strategies: worst,
            recommendations,
            weight_adjustments,
        }
    }

    /// Whether every strategy's profit factor estimate is defined.
    pub fn insights_defined(&self) -> (r: bool)
        ensures
            r == all_pf_ok(self.strategies()),
    {
        let mut i: usize = 0;
        while i < self.strategy_performance.len()
            invariant
                i <= self.strategy_performance.len(),
                forall|j: int| 0 <= j < i ==> strategy_pf_ok(#[trigger] self.strategy_performance@[j].1),
            decreases self.strategy_performance.len() - i,
        {
            if !Self::pf_defined(&self.strategy_performance[i].1) {
                return false;
            }
            i = i + 1;
        }
        true
    }

    /// `generate_insights` for any state: `None` where a profit factor
    /// estimate would divide by zero.
    pub fn try_generate_insights(&self) -> (r: Option<LearningInsights>)
        ensures
            r is Some <==> all_pf_ok(self.strategies()),
            r matches Some(i) ==> i.period_trades == recent_records(self.history_spec()).len(),
    {
        if self.insights_defined() {
            Some(self.generate_insights())
        } else {
            None
        }
    }
}

} // verus!
