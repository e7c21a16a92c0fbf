//! Pattern mining: statistics of groups of trades (by the hour they were
//! opened, by the size of the price move), patterns for groups with an
//! edge, and a database of patterns and feature importances.
use crate::brain::reflect::strs;
use crate::clock::now_secs;
use crate::decimal::{dabs, ddiv, decimal_round, decimal_text, dint, dlit, dlt, dle, dmax, dmin, dmul, dsub, units, Dec, lemma_units_sign};
use crate::market::{Side, Trade, TradeOutcome};
use crate::ranking::{keyed, lemma_ordered_items, lemma_ordered_len, lemma_ordered_map, map_items, order_by_key, ordered};
use crate::series::{sqrt_from_self, sqrt_steps, sum_of, sum_range, vals};
use crate::text::{i32_parsed, int_digits, int_text, nat_digits, nat_text, parse_i32, str_eq};
use vstd::prelude::*;

verus! {

/// Kind of pattern.
#[derive(Debug, Clone, Copy, PartialEq, Eq, Hash, Structural)]
pub enum PatternType {
    PriceAction,
    Volume,
    Momentum,
    MeanReversion,
    Regime,
    TimeOfDay,
    DayOfWeek,
    Composite,
}

/// Life stage of a pattern.
#[derive(Debug, Clone, Copy, PartialEq, Eq, Structural)]
pub enum PatternState {
    Hypothesis,
    Validated,
    Active,
    Deprecated,
}

/// Comparison of a condition.
#[derive(Debug, Clone, Copy, PartialEq, Eq, Structural)]
pub enum ConditionOperator {
    GreaterThan,
    LessThan,
    Equals,
    Between,
    NotEquals,
}

/// Condition of a pattern on a feature.
#[derive(Debug, Clone)]
pub struct PatternCondition {
    pub field: String,
    pub operator: ConditionOperator,
    pub value: Dec,
    pub weight: Dec,
}

/// Signal of a pattern.
#[derive(Debug, Clone, Copy)]
pub struct PatternSignal {
    pub side: Side,
    pub confidence: Dec,
    pub expected_return_bps: Dec,
    pub hold_time_secs: u64,
}

/// Statistics of a pattern.
#[derive(Debug, Clone, Copy)]
pub struct PatternStats {
    pub sample_size: usize,
    pub win_rate: Dec,
    pub avg_win: Dec,
    pub avg_loss: Dec,
    pub profit_factor: Dec,
    pub max_drawdown: Dec,
    pub sharpe_ratio: Dec,
    pub confidence: Dec,
}

impl Default for PatternStats {
    fn default() -> (r: PatternStats)
        ensures
            stats_view(r) == (0int, dint(0), dint(0), dint(0), dint(0), dint(0), dint(0), dint(0)),
    {
        PatternStats {
            sample_size: 0,
            win_rate: Dec::zero(),
            avg_win: Dec::zero(),
            avg_loss: Dec::zero(),
            profit_factor: Dec::zero(),
            max_drawdown: Dec::zero(),
            sharpe_ratio: Dec::zero(),
            confidence: Dec::zero(),
        }
    }
}

/// Statistics as plain values.
pub open spec fn stats_view(s: PatternStats) -> (int, (int, int), (int, int), (int, int), (int, int), (int, int), (int, int), (int, int)) {
    (s.sample_size as int, s.win_rate@, s.avg_win@, s.avg_loss@, s.profit_factor@, s.max_drawdown@, s.sharpe_ratio@, s.confidence@)
}

/// A discovered pattern; times in seconds since the Unix epoch.
#[derive(Debug, Clone)]
pub struct Pattern {
    pub id: String,
    pub name: String,
    pub pattern_type: PatternType,
    pub conditions: Vec<PatternCondition>,
    pub signal: PatternSignal,
    pub statistics: PatternStats,
    pub state: PatternState,
    pub created_at: i64,
    pub last_seen_at: i64,
}

/// Whether statistics show a profitable pattern: profit factor above 1.2
/// and win rate above 55%.
pub open spec fn profitable(s: PatternStats) -> bool {
    dlt(dlit(12, 1), s.profit_factor@) && dlt(dlit(55, 2), s.win_rate@)
}

/// Edge of statistics in basis points: expected win less expected loss.
pub open spec fn edge_of(s: PatternStats) -> (int, int) {
    if s.sample_size == 0 {
        dint(0)
    } else {
        dmul(dsub(dmul(s.avg_win@, s.win_rate@), dmul(s.avg_loss@, dsub(dint(1), s.win_rate@))), dint(10000))
    }
}

impl Pattern {
    /// Profit factor above 1.2 and win rate above 55%.
    pub fn is_profitable(&self) -> (r: bool)
        ensures
            r == profitable(self.statistics),
    {
        self.statistics.profit_factor.gt(&Dec::new(12, 1)) && self.statistics.win_rate.gt(&Dec::new(55, 2))
    }

    /// At least 30 samples and confidence above 0.7.
    pub fn is_validated(&self) -> (r: bool)
        ensures
            r == (self.statistics.sample_size >= 30 && dlt(dlit(7, 1), self.statistics.confidence@)),
    {
        self.statistics.sample_size >= 30 && self.statistics.confidence.gt(&Dec::new(7, 1))
    }

    /// Edge in basis points (zero without samples).
    pub fn edge_bps(&self) -> (r: Dec)
        ensures
            r@ == edge_of(self.statistics),
    {
        if self.statistics.sample_size == 0 {
            return Dec::zero();
        }
        let s = &self.statistics;
        s.avg_win.mul(s.win_rate).sub(s.avg_loss.mul(Dec::one().sub(s.win_rate))).mul(Dec::from_u64(10000))
    }
}

/// A condition as plain values.
pub open spec fn condition_view(c: PatternCondition) -> (Seq<char>, ConditionOperator, (int, int), (int, int)) {
    (c.field@, c.operator, c.value@, c.weight@)
}

/// A signal as plain values.
pub open spec fn signal_view(s: PatternSignal) -> (Side, (int, int), (int, int), u64) {
    (s.side, s.confidence@, s.expected_return_bps@, s.hold_time_secs)
}

/// A pattern as plain values (its times left out).
pub open spec fn pattern_view(p: Pattern) -> (
    Seq<char>,
    Seq<char>,
    PatternType,
    Seq<(Seq<char>, ConditionOperator, (int, int), (int, int))>,
    (Side, (int, int), (int, int), u64),
    (int, (int, int), (int, int), (int, int), (int, int), (int, int), (int, int), (int, int)),
    PatternState,
) {
    (
        p.id@,
        p.name@,
        p.pattern_type,
        p.conditions@.map_values(|c: PatternCondition| condition_view(c)),
        signal_view(p.signal),
        stats_view(p.statistics),
        p.state,
    )
}

/// A copy of a pattern.
pub fn pattern_copy(p: &Pattern) -> (r: Pattern)
    ensures
        pattern_view(r) == pattern_view(*p),
        r.created_at == p.created_at && r.last_seen_at == p.last_seen_at,
{
    let mut conditions: Vec<PatternCondition> = Vec::new();
    let mut i: usize = 0;
    while i < p.conditions.len()
        invariant
            i <= p.conditions.len(),
            conditions@.len() == i,
            forall|j: int| 0 <= j < i ==> condition_view(#[trigger] conditions@[j]) == condition_view(p.conditions@[j]),
        decreases p.conditions.len() - i,
    {
        let c = &p.conditions[i];
        conditions.push(PatternCondition { field: c.field.clone(), operator: c.operator, value: c.value, weight: c.weight });
        i = i + 1;
    }
    proof {
        assert(conditions@.map_values(|c: PatternCondition| condition_view(c)) =~= p.conditions@.map_values(
            |c: PatternCondition| condition_view(c),
        ));
    }
    Pattern {
        id: p.id.clone(),
        name: p.name.clone(),
        pattern_type: p.pattern_type,
        conditions,
        signal: p.signal,
        statistics: p.statistics,
        state: p.state,
        created_at: p.created_at,
        last_seen_at: p.last_seen_at,
    }
}

/// Index of the pattern with an id.
pub open spec fn pattern_index(ps: Seq<PatternView>, id: Seq<char>) -> Option<int>
    decreases ps.len(),
{
    if ps.len() == 0 {
        None
    } else if ps[0].0 == id {
        Some(0)
    } else {
        match pattern_index(ps.drop_first(), id) {
            Some(i) => Some(i + 1),
            None => None,
        }
    }
}

proof fn lemma_pattern_index(ps: Seq<PatternView>, id: Seq<char>, i: int)
    requires
        0 <= i <= ps.len(),
        forall|j: int| 0 <= j < i ==> (#[trigger] ps[j]).0 != id,
        i < ps.len() ==> ps[i].0 == id,
    ensures
        pattern_index(ps, id) == if i == ps.len() {
            None::<int>
        } else {
            Some(i)
        },
    decreases ps.len(),
{
    if ps.len() > 0 && i > 0 {
        assert forall|j: int| 0 <= j < i - 1 implies (#[trigger] ps.drop_first()[j]).0 != id by {
            assert(ps.drop_first()[j] == ps[j + 1]);
        }
        lemma_pattern_index(ps.drop_first(), id, i - 1);
    }
}

/// Index of a feature's importance.
pub open spec fn feature_index(fs: Seq<(Seq<char>, (int, int))>, f: Seq<char>) -> Option<int>
    decreases fs.len(),
{
    if fs.len() == 0 {
        None
    } else if fs[0].0 == f {
        Some(0)
    } else {
        match feature_index(fs.drop_first(), f) {
            Some(i) => Some(i + 1),
            None => None,
        }
    }
}

proof fn lemma_feature_index(fs: Seq<(Seq<char>, (int, int))>, f: Seq<char>, i: int)
    requires
        0 <= i <= fs.len(),
        forall|j: int| 0 <= j < i ==> (#[trigger] fs[j]).0 != f,
        i < fs.len() ==> fs[i].0 == f,
    ensures
        feature_index(fs, f) == if i == fs.len() {
            None::<int>
        } else {
            Some(i)
        },
    decreases fs.len(),
{
    if fs.len() > 0 && i > 0 {
        assert forall|j: int| 0 <= j < i - 1 implies (#[trigger] fs.drop_first()[j]).0 != f by {
            assert(fs.drop_first()[j] == fs[j + 1]);
        }
        lemma_feature_index(fs.drop_first(), f, i - 1);
    }
}

/// Whether a pattern is deprecated for underperforming: active, at least
/// 50 samples, and a win rate or profit factor below the minimum.
pub open spec fn underperforming(p: PatternView, min_win_rate: (int, int), min_profit_factor: (int, int)) -> bool {
    p.6 == PatternState::Active && p.5.0 >= 50 && (dlt(p.5.1, min_win_rate) || dlt(p.5.4, min_profit_factor))
}

/// A pattern with its state changed.
pub open spec fn with_state(p: PatternView, st: PatternState) -> PatternView {
    (p.0, p.1, p.2, p.3, p.4, p.5, st)
}

/// Whether a pattern's statistics are profitable (see `profitable`).
pub open spec fn profitable_view(p: PatternView) -> bool {
    dlt(dlit(12, 1), p.5.4) && dlt(dlit(55, 2), p.5.1)
}

/// Patterns by id, in the order first stored, and feature importances.
pub struct PatternDatabase {
    patterns: Vec<Pattern>,
    feature_importance: Vec<(String, Dec)>,
}

impl PatternDatabase {
    /// The stored patterns, in the order first stored.
    pub closed spec fn patterns_spec(&self) -> Seq<PatternView> {
        self.patterns@.map_values(|p: Pattern| pattern_view(p))
    }

    /// Feature importances, in the order first recorded.
    pub closed spec fn features(&self) -> Seq<(Seq<char>, (int, int))> {
        self.feature_importance@.map_values(|e: (String, Dec)| (e.0@, e.1@))
    }

    pub fn new() -> (r: PatternDatabase)
        ensures
            r.patterns_spec().len() == 0,
            r.features().len() == 0,
    {
        PatternDatabase { patterns: Vec::new(), feature_importance: Vec::new() }
    }

    fn find(&self, id: &str) -> (r: Option<usize>)
        ensures
            match pattern_index(self.patterns_spec(), id@) {
                Some(i) => r matches Some(k) && k as int == i,
                None => r is None,
            },
            r matches Some(k) ==> k < self.patterns@.len(),
    {
        let mut i: usize = 0;
        while i < self.patterns.len()
            invariant
                i <= self.patterns.len(),
                forall|j: int| 0 <= j < i ==> (#[trigger] self.patterns_spec()[j]).0 != id@,
            decreases self.patterns.len() - i,
        {
            if str_eq(self.patterns[i].id.as_str(), id) {
                proof {
                    lemma_pattern_index(self.patterns_spec(), id@, i as int);
                }
                return Some(i);
            }
            i = i + 1;
        }
        proof {
            lemma_pattern_index(self.patterns_spec(), id@, i as int);
        }
        None
    }

    /// Stores a pattern, replacing the one with its id.
    pub fn upsert(&mut self, pattern: Pattern)
        ensures
            final(self).features() == old(self).features(),
            final(self).patterns_spec() == match pattern_index(old(self).patterns_spec(), pattern.id@) {
                Some(i) => old(self).patterns_spec().update(i, pattern_view(pattern)),
                None => old(self).patterns_spec().push(pattern_view(pattern)),
            },
    {
        let ghost old_ps = self.patterns_spec();
        let ghost v = pattern_view(pattern);
        match self.find(pattern.id.as_str()) {
            Some(i) => {
                self.patterns.set(i, pattern);
                proof {
                    assert(self.patterns_spec() =~= old_ps.update(i as int, v));
                }
            },
            None => {
                self.patterns.push(pattern);
                proof {
                    assert(self.patterns_spec() =~= old_ps.push(v));
                }
            },
        }
    }

    /// The pattern with an id.
    pub fn get(&self, id: &str) -> (r: Option<&Pattern>)
        ensures
            match pattern_index(self.patterns_spec(), id@) {
                Some(i) => r matches Some(p) && pattern_view(*p) == self.patterns_spec()[i],
                None => r is None,
            },
    {
        match self.find(id) {
            Some(i) => Some(&self.patterns[i]),
            None => None,
        }
    }

    /// The active patterns, in stored order.
    pub fn active_patterns(&self) -> (r: Vec<&Pattern>)
        ensures
            r@.map_values(|p: &Pattern| pattern_view(*p)) == self.patterns_spec().filter(
                |p: PatternView| p.6 == PatternState::Active,
            ),
    {
        let ghost vs = self.patterns_spec();
        let mut r: Vec<&Pattern> = Vec::new();
        let mut i: usize = 0;
        while i < self.patterns.len()
            invariant
                i <= self.patterns.len(),
                vs == self.patterns_spec(),
                r@.map_values(|p: &Pattern| pattern_view(*p)) == vs.take(i as int).filter(
                    |p: PatternView| p.6 == PatternState::Active,
                ),
            decreases self.patterns.len() - i,
        {
            let ghost prev = vs.take(i as int).filter(|p: PatternView| p.6 == PatternState::Active);
            let ghost r0 = r@;
            proof {
                assert(vs.take(i + 1).drop_last() =~= vs.take(i as int));
                assert(vs.take(i + 1).last() == pattern_view(self.patterns@[i as int]));
                reveal_with_fuel(Seq::filter, 1);
            }
            if self.patterns[i].state == PatternState::Active {
                r.push(&self.patterns[i]);
                proof {
                    assert(r@.map_values(|p: &Pattern| pattern_view(*p)) =~= r0.map_values(|p: &Pattern| pattern_view(*p)).push(
                        pattern_view(self.patterns@[i as int]),
                    ));
                }
            }
            i = i + 1;
        }
        proof {
            assert(vs.take(i as int) =~= vs);
        }
        r
    }

    /// The profitable patterns, in stored order.
    pub fn profitable_patterns(&self) -> (r: Vec<&Pattern>)
        ensures
            r@.map_values(|p: &Pattern| pattern_view(*p)) == self.patterns_spec().filter(
                |p: PatternView| profitable_view(p),
            ),
    {
        let ghost vs = self.patterns_spec();
        let mut r: Vec<&Pattern> = Vec::new();
        let mut i: usize = 0;
        while i < self.patterns.len()
            invariant
                i <= self.patterns.len(),
                vs == self.patterns_spec(),
                r@.map_values(|p: &Pattern| pattern_view(*p)) == vs.take(i as int).filter(
                    |p: PatternView| profitable_view(p),
                ),
            decreases self.patterns.len() - i,
        {
            let ghost prev = vs.take(i as int).filter(|p: PatternView| profitable_view(p));
            let ghost r0 = r@;
            proof {
                assert(vs.take(i + 1).drop_last() =~= vs.take(i as int));
                assert(vs.take(i + 1).last() == pattern_view(self.patterns@[i as int]));
                reveal_with_fuel(Seq::filter, 1);
            }
            if self.patterns[i].is_profitable() {
                r.push(&self.patterns[i]);
                proof {
                    assert(r@.map_values(|p: &Pattern| pattern_view(*p)) =~= r0.map_values(|p: &Pattern| pattern_view(*p)).push(
                        pattern_view(self.patterns@[i as int]),
                    ));
                }
            }
            i = i + 1;
        }
        proof {
            assert(vs.take(i as int) =~= vs);
        }
        r
    }

    /// Deprecates the active patterns with at least 50 samples whose win
    /// rate or profit factor is below the minimum; nothing else changes.
    pub fn deprecate_underperforming(&mut self, min_win_rate: Dec, min_profit_factor: Dec)
        ensures
            final(self).features() == old(self).features(),
            final(self).patterns_spec().len() == old(self).patterns_spec().len(),
            forall|i: int|
                0 <= i < old(self).patterns_spec().len() ==> #[trigger] final(self).patterns_spec()[i] == if underperforming(
                    old(self).patterns_spec()[i],
                    min_win_rate@,
                    min_profit_factor@,
                ) {
                    with_state(old(self).patterns_spec()[i], PatternState::Deprecated)
                } else {
                    old(self).patterns_spec()[i]
                },
    {
        let ghost old_ps = self.patterns_spec();
        let mut i: usize = 0;
        while i < self.patterns.len()
            invariant
                i <= self.patterns.len(),
                self.patterns@.len() == old_ps.len(),
                self.feature_importance == old(self).feature_importance,
                old_ps == old(self).patterns_spec(),
                forall|j: int|
                    0 <= j < old_ps.len() ==> #[trigger] self.patterns_spec()[j] == if j < i && underperforming(
                        old_ps[j],
                        min_win_rate@,
                        min_profit_factor@,
                    ) {
                        with_state(old_ps[j], PatternState::Deprecated)
                    } else {
                        old_ps[j]
                    },
            decreases self.patterns.len() - i,
        {
            proof {
                assert(self.patterns_spec()[i as int] == old_ps[i as int]);
                assert(self.patterns_spec()[i as int] == pattern_view(self.patterns@[i as int]));
            }
            let p = &self.patterns[i];
            if p.state == PatternState::Active && p.statistics.sample_size >= 50 && (p.statistics.win_rate.lt(
                &min_win_rate,
            ) || p.statistics.profit_factor.lt(&min_profit_factor)) {
                let ghost before = self.patterns_spec();
                let mut q = self.patterns.remove(i);
                q.state = PatternState::Deprecated;
                self.patterns.insert(i, q);
                proof {
                    assert forall|j: int| 0 <= j < old_ps.len() && j != i implies #[trigger] self.patterns_spec()[j]
                        == before[j] by {
                        assert(self.patterns_spec()[j] == pattern_view(self.patterns@[j]));
                    }
                    assert(self.patterns_spec()[i as int] == pattern_view(self.patterns@[i as int]));
                    assert(self.patterns_spec()[i as int] == with_state(old_ps[i as int], PatternState::Deprecated));
                }
            }
            i = i + 1;
        }
    }
}

/// The trades behind references.
pub open spec fn deref_trades(s: Seq<&Trade>) -> Seq<Trade> {
    s.map_values(|t: &Trade| *t)
}

/// Statistics of a group of trades: win rate, average win, average loss
/// (by magnitude), profit factor (10 without losses), and a confidence
/// from the standard error of the win rate at 95% (1.96).
pub open spec fn stats_of(s: Seq<Trade>) -> (int, (int, int), (int, int), (int, int), (int, int), (int, int), (int, int), (int, int)) {
    if s.len() == 0 {
        (0int, dint(0), dint(0), dint(0), dint(0), dint(0), dint(0), dint(0))
    } else {
        let n = s.len();
        let w = s.filter(|t: Trade| t.outcome == TradeOutcome::Win);
        let l = s.filter(|t: Trade| t.outcome == TradeOutcome::Loss);
        let wr = ddiv(dint(w.len() as int), dint(n as int));
        let aw = if w.len() == 0 {
            dint(0)
        } else {
            ddiv(sum_of(w.map_values(|t: Trade| t.pnl@)), dint(w.len() as int))
        };
        let al = if l.len() == 0 {
            dint(0)
        } else {
            ddiv(sum_of(l.map_values(|t: Trade| dabs(t.pnl@))), dint(l.len() as int))
        };
        let pf = if units(al) == 0 {
            dint(10)
        } else {
            ddiv(dmul(aw, wr), dmul(al, dsub(dint(1), wr)))
        };
        let se = sqrt_from_self(ddiv(dmul(wr, dsub(dint(1), wr)), dint(n as int)), 15);
        let conf = if units(se) == 0 {
            dint(1)
        } else {
            dmin(dmax(dsub(dint(1), ddiv(dmul(se, dlit(196, 2)), wr)), dint(0)), dint(1))
        };
        (n as int, wr, aw, al, pf, dint(0), dint(0), conf)
    }
}

/// Whether the statistics of a group can be computed: the profit factor
/// divides by the average loss times the loss rate.
pub open spec fn stats_defined(s: Seq<Trade>) -> bool {
    let n = s.len();
    let w = s.filter(|t: Trade| t.outcome == TradeOutcome::Win);
    let l = s.filter(|t: Trade| t.outcome == TradeOutcome::Loss);
    let wr = ddiv(dint(w.len() as int), dint(n as int));
    let al = if l.len() == 0 {
        dint(0)
    } else {
        ddiv(sum_of(l.map_values(|t: Trade| dabs(t.pnl@))), dint(l.len() as int))
    };
    n == 0 || units(al) == 0 || units(dmul(al, dsub(dint(1), wr))) != 0
}

/// Hour of the day (UTC) of a time in seconds since the Unix epoch.
pub open spec fn hour_of(t: int) -> int {
    (t % 86400) / 3600
}

/// Price-move bucket of a trade: its move in percent, rounded to an
/// integer (0 when the text does not read as an `i32`), cut to a
/// multiple of 10 toward zero.
pub open spec fn move_bucket(t: Trade) -> int {
    let pct = decimal_round(dmul(ddiv(dsub(t.exit_price@, t.entry_price@), t.entry_price@), dint(100)));
    let p = match i32_parsed(decimal_text(pct)) {
        Some(x) => x as int,
        None => 0,
    };
    if p >= 0 {
        p / 10 * 10
    } else {
        -((-p) / 10 * 10)
    }
}

/// The distinct keys, in order of first appearance.
pub open spec fn first_keys(keys: Seq<int>) -> Seq<int>
    decreases keys.len(),
{
    if keys.len() == 0 {
        Seq::empty()
    } else {
        let g = first_keys(keys.drop_last());
        if g.contains(keys.last()) {
            g
        } else {
            g.push(keys.last())
        }
    }
}

/// The trades whose key is `k`, in order.
pub open spec fn members_of(trades: Seq<Trade>, keys: Seq<int>, k: int) -> Seq<Trade>
    decreases trades.len(),
{
    if trades.len() == 0 || keys.len() != trades.len() {
        Seq::empty()
    } else {
        let m = members_of(trades.drop_last(), keys.drop_last(), k);
        if keys.last() == k {
            m.push(trades.last())
        } else {
            m
        }
    }
}

/// A pattern as plain values.
pub type PatternView = (
    Seq<char>,
    Seq<char>,
    PatternType,
    Seq<(Seq<char>, ConditionOperator, (int, int), (int, int))>,
    (Side, (int, int), (int, int), u64),
    (int, (int, int), (int, int), (int, int), (int, int), (int, int), (int, int), (int, int)),
    PatternState,
);

/// The time-of-day pattern of an hour with its statistics.
pub open spec fn time_pattern(hour: int, st: (int, (int, int), (int, int), (int, int), (int, int), (int, int), (int, int), (int, int))) -> PatternView {
    (
        "tod_hour_"@ + nat_digits(hour as nat),
        "Hour "@ + nat_digits(hour as nat) + " Edge"@,
        PatternType::TimeOfDay,
        seq![("hour"@, ConditionOperator::Equals, dint(hour), dint(1))],
        (
            if dlt(dint(0), st.2) {
                Side::Long
            } else {
                Side::Short
            },
            st.7,
            dmul(st.2, dint(10000)),
            3600u64,
        ),
        st,
        PatternState::Hypothesis,
    )
}

/// The price-move pattern of a bucket with its statistics.
pub open spec fn price_pattern(bucket: int, st: (int, (int, int), (int, int), (int, int), (int, int), (int, int), (int, int), (int, int))) -> PatternView {
    (
        "price_move_"@ + int_digits(bucket),
        int_digits(bucket) + "% Move Pattern"@,
        PatternType::PriceAction,
        seq![("price_change_pct"@, ConditionOperator::Between, dint(bucket), dint(1))],
        (Side::Long, st.7, dmul(st.2, dint(10000)), 300u64),
        st,
        PatternState::Hypothesis,
    )
}

/// Whether a group's statistics make a pattern: an hour needs a win rate
/// above 60% and a profit factor above 1.5, a price move a profit factor
/// above 1.3.
pub open spec fn has_edge(by_hour: bool, st: (int, (int, int), (int, int), (int, int), (int, int), (int, int), (int, int), (int, int))) -> bool {
    if by_hour {
        dlt(dlit(6, 1), st.1) && dlt(dlit(15, 1), st.4)
    } else {
        dlt(dlit(13, 1), st.4)
    }
}

/// The patterns of the groups with keys `gk` that have enough trades and
/// an edge.
pub open spec fn group_patterns(trades: Seq<Trade>, keys: Seq<int>, gk: Seq<int>, min: int, by_hour: bool) -> Seq<PatternView>
    decreases gk.len(),
{
    if gk.len() == 0 {
        Seq::empty()
    } else {
        let rest = group_patterns(trades, keys, gk.drop_last(), min, by_hour);
        let m = members_of(trades, keys, gk.last());
        let st = stats_of(m);
        if m.len() >= min && has_edge(by_hour, st) {
            rest.push(
                if by_hour {
                    time_pattern(gk.last(), st)
                } else {
                    price_pattern(gk.last(), st)
                },
            )
        } else {
            rest
        }
    }
}

/// Whether the statistics of every group with enough trades can be computed.
pub open spec fn groups_defined(trades: Seq<Trade>, keys: Seq<int>, min: int) -> bool {
    forall|k: int|
        #![trigger members_of(trades, keys, k)]
        first_keys(keys).contains(k) && members_of(trades, keys, k).len() >= min ==> stats_defined(
            members_of(trades, keys, k),
        )
}

/// Hours of the trades.
pub open spec fn hour_keys(trades: Seq<Trade>) -> Seq<int> {
    trades.map_values(|t: Trade| hour_of(t.opened_at as int))
}

/// Price-move buckets of the trades.
pub open spec fn move_keys(trades: Seq<Trade>) -> Seq<int> {
    trades.map_values(|t: Trade| move_bucket(t))
}

/// The patterns mined from trades: by hour, then by price move, those with
/// at least the minimum confidence.
pub open spec fn mined(trades: Seq<Trade>, min_sample: int, min_conf: (int, int)) -> Seq<PatternView> {
    (group_patterns(trades, hour_keys(trades), first_keys(hour_keys(trades)), min_sample, true) + group_patterns(
        trades,
        move_keys(trades),
        first_keys(move_keys(trades)),
        min_sample,
        false,
    )).filter(|p: PatternView| dle(min_conf, p.5.7))
}

/// Whether trades can be mined: every entry price is non-zero and every
/// group's statistics can be computed.
pub open spec fn minable(trades: Seq<Trade>, min_sample: int) -> bool {
    &&& forall|i: int| 0 <= i < trades.len() ==> units(#[trigger] trades[i].entry_price@) != 0
    &&& groups_defined(trades, hour_keys(trades), min_sample)
    &&& groups_defined(trades, move_keys(trades), min_sample)
}

/// Integers of a list of `i64`.
pub open spec fn ints(s: Seq<i64>) -> Seq<int> {
    s.map_values(|x: i64| x as int)
}

proof fn lemma_first_keys_from(s: Seq<int>)
    ensures
        forall|i: int| 0 <= i < first_keys(s).len() ==> s.contains(#[trigger] first_keys(s)[i]),
    decreases s.len(),
{
    if s.len() > 0 {
        lemma_first_keys_from(s.drop_last());
        let g = first_keys(s.drop_last());
        assert forall|i: int| 0 <= i < first_keys(s).len() implies s.contains(#[trigger] first_keys(s)[i]) by {
            if i < g.len() {
                let x = g[i];
                assert(s.drop_last().contains(x));
                let j = choose|j: int| 0 <= j < s.drop_last().len() && s.drop_last()[j] == x;
                assert(s[j] == x);
            } else {
                assert(s[s.len() - 1] == s.last());
            }
        }
    }
}

/// Hour of the day of a time (see `hour_of`).
pub(crate) fn hour_key(t: i64) -> (r: i64)
    ensures
        r as int == hour_of(t as int),
        0 <= r < 24,
{
    if t >= 0 {
        (t % 86400) / 3600
    } else {
        let a: i64 = -(t + 1);
        let m: i64 = a % 86400;
        assert((t as int) % 86400 == 86399 - (a as int) % 86400) by (nonlinear_arith)
            requires
                t as int == -(a as int) - 1,
                a >= 0,
        {
            let q = (a as int) / 86400;
            let r = (a as int) % 86400;
            assert(a as int == 86400 * q + r);
            assert(t as int == 86400 * (-q - 1) + (86399 - r));
            vstd::arithmetic::div_mod::lemma_fundamental_div_mod_converse(t as int, 86400, -q - 1, 86399 - r);
        }
        (86399 - m) / 3600
    }
}

/// Price-move bucket of a trade (see `move_bucket`).
fn move_key(t: &Trade) -> (r: i64)
    requires
        units(t.entry_price@) != 0,
    ensures
        r as int == move_bucket(*t),
{
    let pct = t.exit_price.sub(t.entry_price).div(t.entry_price).mul(Dec::from_u64(100)).round();
    let p: i64 = match parse_i32(pct.to_text().as_str()) {
        Some(x) => x as i64,
        None => 0,
    };
    if p >= 0 {
        p / 10 * 10
    } else {
        -((-p) / 10 * 10)
    }
}

/// The distinct keys in order of first appearance.
fn distinct_keys(keys: &Vec<i64>) -> (r: Vec<i64>)
    ensures
        ints(r@) == first_keys(ints(keys@)),
{
    let mut r: Vec<i64> = Vec::new();
    let mut i: usize = 0;
    while i < keys.len()
        invariant
            i <= keys.len(),
            ints(r@) == first_keys(ints(keys@).take(i as int)),
        decreases keys.len() - i,
    {
        proof {
            assert(ints(keys@).take(i + 1).drop_last() =~= ints(keys@).take(i as int));
        }
        let k = keys[i];
        let mut found = false;
        let mut j: usize = 0;
        while j < r.len()
            invariant
                j <= r.len(),
                found == exists|m: int| 0 <= m < j && r@[m] == k,
            decreases r.len() - j,
        {
            if r[j] == k {
                found = true;
            }
            j = j + 1;
        }
        proof {
            if found {
                let m = choose|m: int| 0 <= m < r@.len() && r@[m] == k;
                assert(ints(r@)[m] == k as int);
                assert(ints(r@).contains(k as int));
            } else {
                assert(!ints(r@).contains(k as int)) by {
                    if ints(r@).contains(k as int) {
                        let m = choose|m: int| 0 <= m < ints(r@).len() && ints(r@)[m] == k as int;
                        assert(r@[m] == k);
                    }
                }
            }
        }
        if !found {
            r.push(k);
            proof {
                assert(ints(r@) =~= first_keys(ints(keys@).take(i as int)).push(k as int));
            }
        }
        i = i + 1;
    }
    proof {
        assert(ints(keys@).take(i as int) =~= ints(keys@));
    }
    r
}

/// The trades whose key is `k`, in order.
fn members<'a>(trades: &'a [Trade], keys: &Vec<i64>, k: i64) -> (r: Vec<&'a Trade>)
    requires
        keys@.len() == trades@.len(),
    ensures
        deref_trades(r@) == members_of(trades@, ints(keys@), k as int),
{
    let mut r: Vec<&Trade> = Vec::new();
    let mut i: usize = 0;
    while i < trades.len()
        invariant
            i <= trades.len(),
            keys@.len() == trades@.len(),
            deref_trades(r@) == members_of(trades@.take(i as int), ints(keys@).take(i as int), k as int),
        decreases trades.len() - i,
    {
        proof {
            assert(trades@.take(i + 1).drop_last() =~= trades@.take(i as int));
            assert(ints(keys@).take(i + 1).drop_last() =~= ints(keys@).take(i as int));
        }
        if keys[i] == k {
            r.push(&trades[i]);
            proof {
                assert(deref_trades(r@) =~= members_of(trades@.take(i as int), ints(keys@).take(i as int), k as int).push(
                    trades@[i as int],
                ));
            }
        }
        i = i + 1;
    }
    proof {
        assert(trades@.take(i as int) =~= trades@);
        assert(ints(keys@).take(i as int) =~= ints(keys@));
    }
    r
}

/// Average of `v` (zero when empty).
fn average(v: &Vec<Dec>) -> (r: Dec)
    ensures
        r@ == if v@.len() == 0 {
            dint(0)
        } else {
            ddiv(sum_of(vals(v@)), dint(v@.len() as int))
        },
{
    if v.len() == 0 {
        return Dec::zero();
    }
    proof {
        assert(vals(v@).subrange(0, v@.len() as int) =~= vals(v@));
    }
    sum_range(v, 0, v.len()).div(Dec::from_usize(v.len()))
}

/// Win amounts and loss magnitudes of a group of trades.
fn win_loss_amounts(trades: &Vec<&Trade>) -> (r: (Vec<Dec>, Vec<Dec>))
    ensures
        vals(r.0@) == deref_trades(trades@).filter(|t: Trade| t.outcome == TradeOutcome::Win).map_values(
            |t: Trade| t.pnl@,
        ),
        vals(r.1@) == deref_trades(trades@).filter(|t: Trade| t.outcome == TradeOutcome::Loss).map_values(
            |t: Trade| dabs(t.pnl@),
        ),
{
    let ghost s = deref_trades(trades@);
    let mut wins: Vec<Dec> = Vec::new();
    let mut losses: Vec<Dec> = Vec::new();
    let mut i: usize = 0;
    while i < trades.len()
        invariant
            i <= trades.len(),
            s == deref_trades(trades@),
            vals(wins@) == s.take(i as int).filter(|t: Trade| t.outcome == TradeOutcome::Win).map_values(
                |t: Trade| t.pnl@,
            ),
            vals(losses@) == s.take(i as int).filter(|t: Trade| t.outcome == TradeOutcome::Loss).map_values(
                |t: Trade| dabs(t.pnl@),
            ),
        decreases trades.len() - i,
    {
        let ghost wprev = s.take(i as int).filter(|t: Trade| t.outcome == TradeOutcome::Win);
        let ghost lprev = s.take(i as int).filter(|t: Trade| t.outcome == TradeOutcome::Loss);
        proof {
            assert(s.take(i + 1).drop_last() =~= s.take(i as int));
            assert(s.take(i + 1).last() == s[i as int]);
            reveal_with_fuel(Seq::filter, 1);
            assert(s.take(i + 1).filter(|t: Trade| t.outcome == TradeOutcome::Win) == if s[i as int].outcome
                == TradeOutcome::Win {
                wprev.push(s[i as int])
            } else {
                wprev
            });
            assert(s.take(i + 1).filter(|t: Trade| t.outcome == TradeOutcome::Loss) == if s[i as int].outcome
                == TradeOutcome::Loss {
                lprev.push(s[i as int])
            } else {
                lprev
            });
        }
        let t = trades[i];
        proof {
            assert(s[i as int] == *t);
        }
        let ghost w0 = wins@;
        let ghost l0 = losses@;
        if t.outcome == TradeOutcome::Win {
            wins.push(t.pnl);
            proof {
                assert(vals(wins@) =~= vals(w0).push(t.pnl@));
                assert(wprev.push(s[i as int]).map_values(|t: Trade| t.pnl@) =~= wprev.map_values(|t: Trade| t.pnl@).push(
                    t.pnl@,
                ));
            }
        } else if t.outcome == TradeOutcome::Loss {
            losses.push(t.pnl.abs());
            proof {
                assert(vals(losses@) =~= vals(l0).push(dabs(t.pnl@)));
                assert(lprev.push(s[i as int]).map_values(|t: Trade| dabs(t.pnl@)) =~= lprev.map_values(
                    |t: Trade| dabs(t.pnl@),
                ).push(dabs(t.pnl@)));
            }
        }
        proof {
            assert(vals(wins@) =~= s.take(i + 1).filter(|t: Trade| t.outcome == TradeOutcome::Win).map_values(
                |t: Trade| t.pnl@,
            ));
            assert(vals(losses@) =~= s.take(i + 1).filter(|t: Trade| t.outcome == TradeOutcome::Loss).map_values(
                |t: Trade| dabs(t.pnl@),
            ));
        }
        i = i + 1;
    }
    proof {
        assert(s.take(i as int) =~= s);
    }
    (wins, losses)
}

/// Whether the statistics of a group can be computed (see `stats_defined`).
fn stats_computable(trades: &Vec<&Trade>) -> (r: bool)
    ensures
        r == stats_defined(deref_trades(trades@)),
{
    let n = trades.len();
    if n == 0 {
        return true;
    }
    let (wins, losses) = win_loss_amounts(trades);
    proof {
        assert(vals(wins@).len() == wins@.len());
        assert(vals(losses@).len() == losses@.len());
    }
    let win_rate = Dec::from_usize(wins.len()).div(Dec::from_usize(n));
    let avg_loss = average(&losses);
    avg_loss.is_zero() || !avg_loss.mul(Dec::one().sub(win_rate)).is_zero()
}

/// Pattern miner: finds patterns with an edge in trade history.
pub struct PatternMiner {
    min_sample_size: usize,
    min_confidence: Dec,
    discovered: Vec<Pattern>,
}

impl PatternMiner {
    pub closed spec fn min_sample_spec(&self) -> usize {
        self.min_sample_size
    }

    pub closed spec fn min_confidence_spec(&self) -> (int, int) {
        self.min_confidence@
    }

    /// The patterns found so far.
    pub closed spec fn discovered_spec(&self) -> Seq<PatternView> {
        self.discovered@.map_values(|p: Pattern| pattern_view(p))
    }

    pub fn new(min_sample_size: usize, min_confidence: Dec) -> (r: PatternMiner)
        ensures
            r.min_sample_spec() == min_sample_size,
            r.min_confidence_spec() == min_confidence@,
            r.discovered_spec().len() == 0,
    {
        PatternMiner { min_sample_size, min_confidence, discovered: Vec::new() }
    }

    /// A miner needing 30 trades per group and confidence 0.6.
    pub fn with_defaults() -> (r: PatternMiner)
        ensures
            r.min_sample_spec() == 30,
            r.min_confidence_spec() == dlit(6, 1),
            r.discovered_spec().len() == 0,
    {
        PatternMiner::new(30, Dec::new(6, 1))
    }

    /// Statistics of a group of trades (see `stats_of`).
    pub fn calculate_stats(&self, trades: &Vec<&Trade>) -> (r: PatternStats)
        requires
            stats_defined(deref_trades(trades@)),
        ensures
            stats_view(r) == stats_of(deref_trades(trades@)),
    {
        let n = trades.len();
        if n == 0 {
            return PatternStats::default();
        }
        let (wins, losses) = win_loss_amounts(trades);
        let win_rate = Dec::from_usize(wins.len()).div(Dec::from_usize(n));
        let avg_win = average(&wins);
        let avg_loss = average(&losses);
        let profit_factor = if avg_loss.is_zero() {
            Dec::from_u64(10)
        } else {
            avg_win.mul(win_rate).div(avg_loss.mul(Dec::one().sub(win_rate)))
        };
        let p = win_rate;
        let se = sqrt_steps(p.mul(Dec::one().sub(p)).div(Dec::from_usize(n)), 15);
        let confidence = if se.is_zero() {
            Dec::one()
        } else {
            Dec::one().sub(se.mul(Dec::new(196, 2)).div(p)).max(Dec::zero()).min(Dec::one())
        };
        PatternStats {
            sample_size: n,
            win_rate,
            avg_win,
            avg_loss,
            profit_factor,
            max_drawdown: Dec::zero(),
            sharpe_ratio: Dec::zero(),
            confidence,
        }
    }
}

impl PatternMiner {
    /// The pattern of a group with an edge.
    fn group_pattern(by_hour: bool, k: i64, stats: PatternStats) -> (r: Pattern)
        requires
            by_hour ==> k >= 0,
        ensures
            pattern_view(r) == if by_hour {
                time_pattern(k as int, stats_view(stats))
            } else {
                price_pattern(k as int, stats_view(stats))
            },
    {
        let now = now_secs();
        let mut conditions: Vec<PatternCondition> = Vec::new();
        if by_hour {
            let mut id = "tod_hour_".to_owned();
            id.append(nat_text(k as u64).as_str());
            let mut name = "Hour ".to_owned();
            name.append(nat_text(k as u64).as_str());
            name.append(" Edge");
            conditions.push(
                PatternCondition {
                    field: "hour".to_owned(),
                    operator: ConditionOperator::Equals,
                    value: Dec::from_i64(k),
                    weight: Dec::one(),
                },
            );
            let side = if stats.avg_win.gt(&Dec::zero()) {
                Side::Long
            } else {
                Side::Short
            };
            let p = Pattern {
                id,
                name,
                pattern_type: PatternType::TimeOfDay,
                conditions,
                signal: PatternSignal {
                    side,
                    confidence: stats.confidence,
                    expected_return_bps: stats.avg_win.mul(Dec::from_u64(10000)),
                    hold_time_secs: 3600,
                },
                statistics: stats,
                state: PatternState::Hypothesis,
                created_at: now,
                last_seen_at: now,
            };
            proof {
                assert(pattern_view(p).3 =~= time_pattern(k as int, stats_view(stats)).3);
            }
            p
        } else {
            let mut id = "price_move_".to_owned();
            id.append(int_text(k).as_str());
            let mut name = int_text(k);
            name.append("% Move Pattern");
            conditions.push(
                PatternCondition {
                    field: "price_change_pct".to_owned(),
                    operator: ConditionOperator::Between,
                    value: Dec::from_i64(k),
                    weight: Dec::one(),
                },
            );
            let p = Pattern {
                id,
                name,
                pattern_type: PatternType::PriceAction,
                conditions,
                signal: PatternSignal {
                    side: Side::Long,
                    confidence: stats.confidence,
                    expected_return_bps: stats.avg_win.mul(Dec::from_u64(10000)),
                    hold_time_secs: 300,
                },
                statistics: stats,
                state: PatternState::Hypothesis,
                created_at: now,
                last_seen_at: now,
            };
            proof {
                assert(pattern_view(p).3 =~= price_pattern(k as int, stats_view(stats)).3);
            }
            p
        }
    }

    /// The patterns of the groups of trades by key (see `group_patterns`).
    fn mine_groups(&self, trades: &[Trade], keys: &Vec<i64>, by_hour: bool) -> (r: Vec<Pattern>)
        requires
            keys@.len() == trades@.len(),
            groups_defined(trades@, ints(keys@), self.min_sample_size as int),
            by_hour ==> forall|i: int| 0 <= i < keys@.len() ==> #[trigger] keys@[i] >= 0,
        ensures
            r@.map_values(|p: Pattern| pattern_view(p)) == group_patterns(
                trades@,
                ints(keys@),
                first_keys(ints(keys@)),
                self.min_sample_size as int,
                by_hour,
            ),
    {
        let gk = distinct_keys(keys);
        proof {
            lemma_first_keys_from(ints(keys@));
        }
        let mut r: Vec<Pattern> = Vec::new();
        let mut j: usize = 0;
        while j < gk.len()
            invariant
                j <= gk.len(),
                keys@.len() == trades@.len(),
                ints(gk@) == first_keys(ints(keys@)),
                groups_defined(trades@, ints(keys@), self.min_sample_size as int),
                forall|i: int| 0 <= i < first_keys(ints(keys@)).len() ==> ints(keys@).contains(#[trigger] first_keys(ints(keys@))[i]),
                by_hour ==> forall|i: int| 0 <= i < keys@.len() ==> #[trigger] keys@[i] >= 0,
                r@.map_values(|p: Pattern| pattern_view(p)) == group_patterns(
                    trades@,
                    ints(keys@),
                    ints(gk@).take(j as int),
                    self.min_sample_size as int,
                    by_hour,
                ),
            decreases gk.len() - j,
        {
            proof {
                assert(ints(gk@).take(j + 1).drop_last() =~= ints(gk@).take(j as int));
                assert(ints(gk@).take(j + 1).last() == gk@[j as int] as int);
            }
            let k = gk[j];
            let m = members(trades, keys, k);
            if m.len() >= self.min_sample_size {
                proof {
                    assert(first_keys(ints(keys@)).contains(k as int)) by {
                        assert(ints(gk@)[j as int] == k as int);
                    }
                    assert(members_of(trades@, ints(keys@), k as int).len() == m@.len());
                }
                let st = self.calculate_stats(&m);
                let edge = if by_hour {
                    st.win_rate.gt(&Dec::new(6, 1)) && st.profit_factor.gt(&Dec::new(15, 1))
                } else {
                    st.profit_factor.gt(&Dec::new(13, 1))
                };
                if edge {
                    proof {
                        if by_hour {
                            assert(ints(keys@).contains(k as int)) by {
                                assert(first_keys(ints(keys@))[j as int] == k as int);
                            }
                            let i = choose|i: int| 0 <= i < ints(keys@).len() && ints(keys@)[i] == k as int;
                            assert(keys@[i] >= 0);
                        }
                    }
                    let p = PatternMiner::group_pattern(by_hour, k, st);
                    let ghost r0 = r@;
                    r.push(p);
                    proof {
                        assert(r@.map_values(|p: Pattern| pattern_view(p)) =~= r0.map_values(|p: Pattern| pattern_view(p)).push(
                            pattern_view(p),
                        ));
                    }
                }
            } else {
                proof {
                    assert(members_of(trades@, ints(keys@), k as int).len() == m@.len());
                }
            }
            j = j + 1;
        }
        proof {
            assert(ints(gk@).take(j as int) =~= ints(gk@));
        }
        r
    }

    /// Keys of the trades by the hour they were opened.
    fn hour_key_list(trades: &[Trade]) -> (r: Vec<i64>)
        ensures
            ints(r@) == hour_keys(trades@),
            r@.len() == trades@.len(),
            forall|i: int| 0 <= i < r@.len() ==> #[trigger] r@[i] >= 0,
    {
        let mut r: Vec<i64> = Vec::new();
        let mut i: usize = 0;
        while i < trades.len()
            invariant
                i <= trades.len(),
                r@.len() == i,
                forall|j: int| 0 <= j < i ==> (#[trigger] r@[j]) as int == hour_of(trades@[j].opened_at as int) && r@[j] >= 0,
            decreases trades.len() - i,
        {
            r.push(hour_key(trades[i].opened_at));
            i = i + 1;
        }
        proof {
            assert(ints(r@) =~= hour_keys(trades@));
        }
        r
    }

    /// Keys of the trades by price-move bucket.
    fn move_key_list(trades: &[Trade]) -> (r: Vec<i64>)
        requires
            forall|i: int| 0 <= i < trades@.len() ==> units(#[trigger] trades@[i].entry_price@) != 0,
        ensures
            ints(r@) == move_keys(trades@),
            r@.len() == trades@.len(),
    {
        let mut r: Vec<i64> = Vec::new();
        let mut i: usize = 0;
        while i < trades.len()
            invariant
                i <= trades.len(),
                r@.len() == i,
                forall|j: int| 0 <= j < trades@.len() ==> units(#[trigger] trades@[j].entry_price@) != 0,
                forall|j: int| 0 <= j < i ==> (#[trigger] r@[j]) as int == move_bucket(trades@[j]),
            decreases trades.len() - i,
        {
            r.push(move_key(&trades[i]));
            i = i + 1;
        }
        proof {
            assert(ints(r@) =~= move_keys(trades@));
        }
        r
    }

    /// Mines trades for patterns (see `mined`) and adds them to those found.
    pub fn mine_patterns(&mut self, trades: &[Trade]) -> (r: Vec<Pattern>)
        requires
            minable(trades@, old(self).min_sample_spec() as int),
        ensures
            r@.map_values(|p: Pattern| pattern_view(p)) == mined(
                trades@,
                old(self).min_sample_spec() as int,
                old(self).min_confidence_spec(),
            ),
            final(self).discovered_spec() == old(self).discovered_spec() + r@.map_values(|p: Pattern| pattern_view(p)),
            final(self).min_sample_spec() == old(self).min_sample_spec(),
            final(self).min_confidence_spec() == old(self).min_confidence_spec(),
    {
        let hk = PatternMiner::hour_key_list(trades);
        let mk = PatternMiner::move_key_list(trades);
        let mut all = self.mine_groups(trades, &hk, true);
        let price = self.mine_groups(trades, &mk, false);
        let ghost time_views = all@.map_values(|p: Pattern| pattern_view(p));
        let ghost price_views = price@.map_values(|p: Pattern| pattern_view(p));
        let mut price = price;
        all.append(&mut price);
        proof {
            assert(all@.map_values(|p: Pattern| pattern_view(p)) =~= time_views + price_views);
        }
        let ghost all_views = all@.map_values(|p: Pattern| pattern_view(p));
        let mut kept: Vec<Pattern> = Vec::new();
        let mut i: usize = 0;
        while i < all.len()
            invariant
                i <= all.len(),
                all_views == all@.map_values(|p: Pattern| pattern_view(p)),
                kept@.map_values(|p: Pattern| pattern_view(p)) == all_views.take(i as int).filter(
                    |p: PatternView| dle(self.min_confidence@, p.5.7),
                ),
            decreases all.len() - i,
        {
            let ghost prev = all_views.take(i as int).filter(|p: PatternView| dle(self.min_confidence@, p.5.7));
            let ghost k0 = kept@;
            proof {
                assert(all_views.take(i + 1).drop_last() =~= all_views.take(i as int));
                assert(all_views.take(i + 1).last() == pattern_view(all@[i as int]));
                reveal_with_fuel(Seq::filter, 1);
            }
            if all[i].statistics.confidence.ge(&self.min_confidence) {
                let p = pattern_copy(&all[i]);
                kept.push(p);
                proof {
                    assert(kept@.map_values(|p: Pattern| pattern_view(p)) =~= prev.push(pattern_view(all@[i as int])));
                }
            }
            i = i + 1;
        }
        proof {
            assert(all_views.take(i as int) =~= all_views);
        }
        let ghost d0 = self.discovered@;
        let mut j: usize = 0;
        while j < kept.len()
            invariant
                j <= kept.len(),
                self.min_sample_size == old(self).min_sample_size,
                self.min_confidence == old(self).min_confidence,
                d0 == old(self).discovered@,
                self.discovered@.map_values(|p: Pattern| pattern_view(p)) == d0.map_values(|p: Pattern| pattern_view(p))
                    + kept@.take(j as int).map_values(|p: Pattern| pattern_view(p)),
            decreases kept.len() - j,
        {
            let ghost before = self.discovered@;
            let p = pattern_copy(&kept[j]);
            self.discovered.push(p);
            proof {
                assert(self.discovered@.map_values(|p: Pattern| pattern_view(p)) =~= before.map_values(
                    |p: Pattern| pattern_view(p),
                ).push(pattern_view(kept@[j as int])));
                assert(kept@.take(j + 1).map_values(|p: Pattern| pattern_view(p)) =~= kept@.take(j as int).map_values(
                    |p: Pattern| pattern_view(p),
                ).push(pattern_view(kept@[j as int])));
            }
            j = j + 1;
        }
        proof {
            assert(kept@.take(j as int) =~= kept@);
        }
        kept
    }

    /// Whether the statistics of every large enough group can be computed.
    fn groups_computable(&self, trades: &[Trade], keys: &Vec<i64>) -> (r: bool)
        requires
            keys@.len() == trades@.len(),
        ensures
            r == groups_defined(trades@, ints(keys@), self.min_sample_size as int),
    {
        let gk = distinct_keys(keys);
        let mut j: usize = 0;
        while j < gk.len()
            invariant
                j <= gk.len(),
                keys@.len() == trades@.len(),
                ints(gk@) == first_keys(ints(keys@)),
                forall|m: int|
                    0 <= m < j ==> (members_of(trades@, ints(keys@), #[trigger] ints(gk@)[m]).len()
                        >= self.min_sample_size ==> stats_defined(members_of(trades@, ints(keys@), ints(gk@)[m]))),
            decreases gk.len() - j,
        {
            let m = members(trades, keys, gk[j]);
            proof {
                assert(ints(gk@)[j as int] == gk@[j as int] as int);
            }
            if m.len() >= self.min_sample_size && !stats_computable(&m) {
                proof {
                    let k = gk@[j as int] as int;
                    assert(first_keys(ints(keys@)).contains(k)) by {
                        assert(first_keys(ints(keys@))[j as int] == k);
                    }
                    assert(members_of(trades@, ints(keys@), k).len() >= self.min_sample_size);
                }
                return false;
            }
            j = j + 1;
        }
        proof {
            assert forall|k: int|
                #![trigger members_of(trades@, ints(keys@), k)]
                first_keys(ints(keys@)).contains(k) && members_of(trades@, ints(keys@), k).len()
                    >= self.min_sample_size implies stats_defined(members_of(trades@, ints(keys@), k)) by {
                let m = choose|m: int| 0 <= m < first_keys(ints(keys@)).len() && first_keys(ints(keys@))[m] == k;
                assert(ints(gk@)[m] == k);
            }
        }
        true
    }

    /// Whether trades can be mined (see `minable`).
    pub fn is_minable(&self, trades: &[Trade]) -> (r: bool)
        ensures
            r == minable(trades@, self.min_sample_spec() as int),
    {
        let mut i: usize = 0;
        while i < trades.len()
            invariant
                i <= trades.len(),
                forall|j: int| 0 <= j < i ==> units(#[trigger] trades@[j].entry_price@) != 0,
            decreases trades.len() - i,
        {
            if trades[i].entry_price.is_zero() {
                return false;
            }
            i = i + 1;
        }
        let hk = PatternMiner::hour_key_list(trades);
        let mk = PatternMiner::move_key_list(trades);
        self.groups_computable(trades, &hk) && self.groups_computable(trades, &mk)
    }

    /// `mine_patterns` for any trades: `None`, with nothing found, where a
    /// trade's entry price is zero or a group's statistics would divide by
    /// zero.
    pub fn try_mine_patterns(&mut self, trades: &[Trade]) -> (r: Option<Vec<Pattern>>)
        ensures
            !minable(trades@, old(self).min_sample_spec() as int) ==> r is None && final(self).discovered_spec()
                == old(self).discovered_spec(),
            minable(trades@, old(self).min_sample_spec() as int) ==> (r matches Some(v) && v@.map_values(
                |p: Pattern| pattern_view(p),
            ) == mined(trades@, old(self).min_sample_spec() as int, old(self).min_confidence_spec())
                && final(self).discovered_spec() == old(self).discovered_spec() + v@.map_values(
                |p: Pattern| pattern_view(p),
            )),
            final(self).min_sample_spec() == old(self).min_sample_spec(),
            final(self).min_confidence_spec() == old(self).min_confidence_spec(),
    {
        if !self.is_minable(trades) {
            return None;
        }
        Some(self.mine_patterns(trades))
    }

    /// The patterns found so far.
    pub fn discovered(&self) -> (r: &[Pattern])
        ensures
            r@.map_values(|p: Pattern| pattern_view(p)) == self.discovered_spec(),
    {
        self.discovered.as_slice()
    }

    /// Forgets the patterns found.
    pub fn clear(&mut self)
        ensures
            final(self).discovered_spec().len() == 0,
            final(self).min_sample_spec() == old(self).min_sample_spec(),
            final(self).min_confidence_spec() == old(self).min_confidence_spec(),
    {
        self.discovered.clear();
    }
}

/// Feature importances from most to least important, equal ones in the
/// order first recorded.
pub open spec fn ranked_features(fs: Seq<(Seq<char>, (int, int))>) -> Seq<(Seq<char>, (int, int))> {
    ordered(fs.map_values(|f: (Seq<char>, (int, int))| (f.1, f)), true).map_values(
        |p: ((int, int), (Seq<char>, (int, int)))| p.1,
    )
}

impl PatternDatabase {
    /// Records a feature's importance, replacing the earlier one.
    pub fn update_feature_importance(&mut self, feature: &str, importance: Dec)
        ensures
            final(self).patterns_spec() == old(self).patterns_spec(),
            final(self).features() == match feature_index(old(self).features(), feature@) {
                Some(i) => old(self).features().update(i, (feature@, importance@)),
                None => old(self).features().push((feature@, importance@)),
            },
    {
        let ghost f0 = self.features();
        let mut i: usize = 0;
        while i < self.feature_importance.len()
            invariant
                i <= self.feature_importance.len(),
                f0 == self.features(),
                f0 == old(self).features(),
                self.patterns == old(self).patterns,
                f0.len() == self.feature_importance@.len(),
                forall|j: int| 0 <= j < i ==> (#[trigger] f0[j]).0 != feature@,
            decreases self.feature_importance.len() - i,
        {
            if str_eq(self.feature_importance[i].0.as_str(), feature) {
                proof {
                    lemma_feature_index(f0, feature@, i as int);
                }
                self.feature_importance.set(i, (feature.to_owned(), importance));
                proof {
                    assert(self.features() =~= f0.update(i as int, (feature@, importance@)));
                }
                return;
            }
            i = i + 1;
        }
        proof {
            lemma_feature_index(f0, feature@, i as int);
        }
        self.feature_importance.push((feature.to_owned(), importance));
        proof {
            assert(self.features() =~= f0.push((feature@, importance@)));
        }
    }

    /// The `n` most important features.
    pub fn top_features(&self, n: usize) -> (r: Vec<(&String, &Dec)>)
        ensures
            r@.map_values(|e: (&String, &Dec)| (e.0@, e.1@)) == ranked_features(self.features()).take(
                if n < self.features().len() {
                    n as int
                } else {
                    self.features().len() as int
                },
            ),
    {
        let ghost fs = self.features();
        let mut items: Vec<(Dec, usize)> = Vec::new();
        let mut i: usize = 0;
        while i < self.feature_importance.len()
            invariant
                i <= self.feature_importance.len(),
                fs == self.features(),
                items@.len() == i,
                forall|j: int| 0 <= j < i ==> (#[trigger] items@[j]).0 == self.feature_importance@[j].1 && items@[j].1 == j,
            decreases self.feature_importance.len() - i,
        {
            items.push((self.feature_importance[i].1, i));
            i = i + 1;
        }
        let ghost f = |k: usize| fs[k as int];
        proof {
            assert(map_items(keyed(items@), f) =~= fs.map_values(|e: (Seq<char>, (int, int))| (e.1, e)));
            lemma_ordered_map(keyed(items@), f, true);
        }
        let sorted = order_by_key(items, true);
        proof {
            lemma_ordered_len(keyed(items@), true);
            assert forall|j: int| 0 <= j < sorted@.len() implies (#[trigger] sorted@[j]).1 < self.feature_importance@.len() by {
                lemma_ordered_items(keyed(items@), true, j);
                let x = keyed(sorted@)[j];
                let w = choose|w: int| 0 <= w < keyed(items@).len() && keyed(items@)[w] == x;
                assert(items@[w].1 == w);
            }
        }
        let count = if n < sorted.len() {
            n
        } else {
            sorted.len()
        };
        let mut r: Vec<(&String, &Dec)> = Vec::new();
        let mut k: usize = 0;
        while k < count
            invariant
                k <= count <= sorted@.len(),
                fs == self.features(),
                forall|j: int| 0 <= j < sorted@.len() ==> (#[trigger] sorted@[j]).1 < self.feature_importance@.len(),
                r@.len() == k,
                forall|j: int|
                    0 <= j < k ==> (#[trigger] r@[j]).0@ == fs[sorted@[j].1 as int].0 && r@[j].1@ == fs[sorted@[j].1 as int].1,
            decreases count - k,
        {
            let idx = sorted[k].1;
            r.push((&self.feature_importance[idx].0, &self.feature_importance[idx].1));
            k = k + 1;
        }
        proof {
            assert(r@.map_values(|e: (&String, &Dec)| (e.0@, e.1@)) =~= ranked_features(fs).take(count as int)) by {
                assert forall|j: int| 0 <= j < count implies #[trigger] ranked_features(fs)[j] == fs[sorted@[j].1 as int] by {
                    assert(map_items(keyed(sorted@), f)[j] == ordered(fs.map_values(|e: (Seq<char>, (int, int))| (e.1, e)), true)[j]);
                }
            }
        }
        r
    }
}

impl Default for PatternDatabase {
    fn default() -> (r: PatternDatabase)
        ensures
            r.patterns_spec().len() == 0,
            r.features().len() == 0,
    {
        PatternDatabase::new()
    }
}


/// The patterns after storing one (see `PatternDatabase::upsert`).
pub open spec fn upsert_view(vs: Seq<PatternView>, v: PatternView) -> Seq<PatternView> {
    match pattern_index(vs, v.0) {
        Some(i) => vs.update(i, v),
        None => vs.push(v),
    }
}

proof fn lemma_pattern_index_spec(vs: Seq<PatternView>, id: Seq<char>)
    ensures
        pattern_index(vs, id) matches Some(i) ==> 0 <= i < vs.len() && vs[i].0 == id && forall|j: int|
            0 <= j < i ==> (#[trigger] vs[j]).0 != id,
        pattern_index(vs, id) is None ==> forall|j: int| 0 <= j < vs.len() ==> (#[trigger] vs[j]).0 != id,
    decreases vs.len(),
{
    if vs.len() > 0 {
        lemma_pattern_index_spec(vs.drop_first(), id);
        assert forall|j: int| 0 < j < vs.len() implies vs[j] == vs.drop_first()[j - 1] by {}
    }
}

/// A stored pattern is found again by its id, as stored.
pub proof fn lemma_upsert_then_get(vs: Seq<PatternView>, v: PatternView)
    ensures
        pattern_index(upsert_view(vs, v), v.0) matches Some(i) && upsert_view(vs, v)[i] == v,
{
    lemma_pattern_index_spec(vs, v.0);
    let r = upsert_view(vs, v);
    match pattern_index(vs, v.0) {
        Some(i) => {
            assert forall|j: int| 0 <= j < i implies (#[trigger] r[j]).0 != v.0 by {
                assert(r[j] == vs[j]);
            }
            lemma_pattern_index(r, v.0, i);
        },
        None => {
            assert forall|j: int| 0 <= j < vs.len() implies (#[trigger] r[j]).0 != v.0 by {
                assert(r[j] == vs[j]);
            }
            lemma_pattern_index(r, v.0, vs.len() as int);
        },
    }
}

/// Deprecation settles: a pattern it changed is not changed again.
pub proof fn lemma_deprecate_settles(v: PatternView, min_win_rate: (int, int), min_profit_factor: (int, int))
    ensures
        ({
            let d = if underperforming(v, min_win_rate, min_profit_factor) {
                with_state(v, PatternState::Deprecated)
            } else {
                v
            };
            (if underperforming(d, min_win_rate, min_profit_factor) {
                with_state(d, PatternState::Deprecated)
            } else {
                d
            }) == d
        }),
{
}

/// Statistics of no trades are all zero; of some trades, the sample size
/// is their number.
pub proof fn lemma_stats_sample(s: Seq<Trade>)
    ensures
        stats_of(s).0 == s.len(),
        s.len() == 0 ==> stats_of(s) == (0int, dint(0), dint(0), dint(0), dint(0), dint(0), dint(0), dint(0)),
{
}

} // verus!
