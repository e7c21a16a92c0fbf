//! Autonomous research: validated patterns from mined trades, an alpha
//! score of a market state from the active patterns it matches, trading
//! hypotheses and their testing, and the accuracy of past scores.
use crate::alpha::patterns::{
    condition_view, deref_trades, edge_of, minable, mined, pattern_copy, pattern_view, ConditionOperator, Pattern, PatternDatabase,
    PatternMiner, PatternSignal, PatternState, PatternStats, PatternType, PatternView, pattern_index, hour_of, upsert_view,
};
use crate::brain::reflect::strs;
use crate::clock::now_secs;
use crate::decimal::{dabs, dadd, ddiv, decimal_text, dint, dle, dlit, dlt, dmax, dmin, dmul, dsub, units, Dec, lemma_units_sign};
use crate::exec::mev::opt_text;
use crate::market::{MarketState, Regime, Side, Trade};
use crate::series::sum_of;
use crate::text::{int_digits, int_text, str_eq};
use vstd::prelude::*;

verus! {

/// Autoresearch configuration.
#[derive(Debug, Clone, Copy)]
pub struct AutoresearchConfig {
    /// Least number of trades of a validated pattern.
    pub min_sample_size: usize,
    /// Least win rate of a validated pattern.
    pub min_win_rate: Dec,
    /// Least profit factor of a validated pattern.
    pub min_profit_factor: Dec,
    /// Most active patterns.
    pub max_active_patterns: usize,
    /// Whether hypotheses are generated.
    pub generate_hypotheses: bool,
    /// Half-life of a pattern (days).
    pub pattern_decay_days: u32,
}

/// The default research configuration: patterns validated from 30 trades,
/// a 0.55 win rate and a 1.3 profit factor; at most 20 active patterns;
/// hypotheses generated; a 30-day pattern half-life.
pub open spec fn is_default_research_config(c: AutoresearchConfig) -> bool {
    &&& c.min_sample_size == 30
    &&& c.min_win_rate@ == dlit(55, 2)
    &&& c.min_profit_factor@ == dlit(13, 1)
    &&& c.max_active_patterns == 20
    &&& c.generate_hypotheses
    &&& c.pattern_decay_days == 30
}

impl Default for AutoresearchConfig {
    fn default() -> (r: AutoresearchConfig)
        ensures
            is_default_research_config(r),
    {
        AutoresearchConfig {
            min_sample_size: 30,
            min_win_rate: Dec::new(55, 2),
            min_profit_factor: Dec::new(13, 1),
            max_active_patterns: 20,
            generate_hypotheses: true,
            pattern_decay_days: 30,
        }
    }
}

/// Name of a regime.
pub open spec fn regime_text(r: Regime) -> Seq<char> {
    match r {
        Regime::TrendingUp => "trending_up"@,
        Regime::TrendingDown => "trending_down"@,
        Regime::MeanReverting => "mean_reverting"@,
        Regime::HighVolatility => "high_vol"@,
        Regime::LowVolatility => "low_vol"@,
        Regime::Choppy => "choppy"@,
    }
}

/// Name of a regime.
pub fn regime_to_str(regime: &Regime) -> (r: &'static str)
    ensures
        r@ == regime_text(*regime),
{
    match regime {
        Regime::TrendingUp => "trending_up",
        Regime::TrendingDown => "trending_down",
        Regime::MeanReverting => "mean_reverting",
        Regime::HighVolatility => "high_vol",
        Regime::LowVolatility => "low_vol",
        Regime::Choppy => "choppy",
    }
}

/// Status of a hypothesis.
#[derive(Debug, Clone, Copy, PartialEq, Eq, Structural)]
pub enum HypothesisStatus {
    Pending,
    Testing,
    Validated,
    Rejected,
    Expired,
}

/// Conditions of a hypothesis.
#[derive(Debug, Clone)]
pub struct HypothesisConditions {
    pub regime: Option<Regime>,
    pub volatility_range: Option<(Dec, Dec)>,
    pub time_of_day: Option<(u8, u8)>,
    pub price_action: Option<String>,
    /// Further conditions by name, in the order given.
    pub custom: Vec<(String, String)>,
}

/// Outcome of testing a hypothesis.
#[derive(Debug, Clone)]
pub struct ValidationResult {
    pub passed: bool,
    pub win_rate: Dec,
    pub profit_factor: Dec,
    pub sample_size: usize,
    pub p_value: Dec,
    pub reason: String,
}

/// A trading hypothesis; the time is in seconds since the Unix epoch.
#[derive(Debug, Clone)]
pub struct Hypothesis {
    pub id: String,
    pub description: String,
    pub conditions: HypothesisConditions,
    pub expected_edge_bps: Dec,
    pub confidence: Dec,
    pub status: HypothesisStatus,
    pub created_at: i64,
    pub tested_trades: usize,
    pub validation_result: Option<ValidationResult>,
}

/// Conditions as plain values.
pub open spec fn conditions_view(c: HypothesisConditions) -> (Option<Regime>, Option<((int, int), (int, int))>, Option<(u8, u8)>, Option<Seq<char>>, Seq<(Seq<char>, Seq<char>)>) {
    (
        c.regime,
        match c.volatility_range {
            Some(p) => Some((p.0@, p.1@)),
            None => None,
        },
        c.time_of_day,
        opt_text(c.price_action),
        c.custom@.map_values(|e: (String, String)| (e.0@, e.1@)),
    )
}

/// A validation result as plain values.
pub open spec fn result_view(v: ValidationResult) -> (bool, (int, int), (int, int), usize, (int, int), Seq<char>) {
    (v.passed, v.win_rate@, v.profit_factor@, v.sample_size, v.p_value@, v.reason@)
}

/// A hypothesis as plain values.
pub open spec fn hypothesis_view(h: Hypothesis) -> HypothesisView {
    (
        h.id@,
        h.description@,
        conditions_view(h.conditions),
        h.expected_edge_bps@,
        h.confidence@,
        h.status,
        h.created_at,
        h.tested_trades,
        match h.validation_result {
            Some(v) => Some(result_view(v)),
            None => None,
        },
    )
}

/// A hypothesis as plain values: id, description, conditions, expected
/// edge, confidence, status, creation time, trades tested, result.
pub type HypothesisView = (
    Seq<char>,
    Seq<char>,
    (Option<Regime>, Option<((int, int), (int, int))>, Option<(u8, u8)>, Option<Seq<char>>, Seq<(Seq<char>, Seq<char>)>),
    (int, int),
    (int, int),
    HypothesisStatus,
    i64,
    usize,
    Option<(bool, (int, int), (int, int), usize, (int, int), Seq<char>)>,
);

/// A copy of a validation result.
fn result_copy(v: &ValidationResult) -> (r: ValidationResult)
    ensures
        result_view(r) == result_view(*v),
{
    ValidationResult {
        passed: v.passed,
        win_rate: v.win_rate,
        profit_factor: v.profit_factor,
        sample_size: v.sample_size,
        p_value: v.p_value,
        reason: v.reason.clone(),
    }
}

/// A copy of a hypothesis.
pub fn hypothesis_copy(h: &Hypothesis) -> (r: Hypothesis)
    ensures
        hypothesis_view(r) == hypothesis_view(*h),
{
    let mut custom: Vec<(String, String)> = Vec::new();
    let mut i: usize = 0;
    while i < h.conditions.custom.len()
        invariant
            i <= h.conditions.custom.len(),
            custom@.len() == i,
            forall|j: int|
                0 <= j < i ==> (#[trigger] custom@[j]).0@ == h.conditions.custom@[j].0@ && custom@[j].1@
                    == h.conditions.custom@[j].1@,
        decreases h.conditions.custom.len() - i,
    {
        let e = &h.conditions.custom[i];
        custom.push((e.0.clone(), e.1.clone()));
        i = i + 1;
    }
    let conditions = HypothesisConditions {
        regime: h.conditions.regime,
        volatility_range: h.conditions.volatility_range,
        time_of_day: h.conditions.time_of_day,
        price_action: match &h.conditions.price_action {
            Some(s) => Some(s.clone()),
            None => None,
        },
        custom,
    };
    proof {
        assert(conditions_view(conditions).4 =~= conditions_view(h.conditions).4);
    }
    let validation_result = match &h.validation_result {
        Some(v) => Some(result_copy(v)),
        None => None,
    };
    Hypothesis {
        id: h.id.clone(),
        description: h.description.clone(),
        conditions,
        expected_edge_bps: h.expected_edge_bps,
        confidence: h.confidence,
        status: h.status,
        created_at: h.created_at,
        tested_trades: h.tested_trades,
        validation_result,
    }
}

/// Alpha score of an opportunity.
#[derive(Debug, Clone)]
pub struct AlphaScore {
    pub score: Dec,
    pub contributing_patterns: Vec<String>,
    pub confidence: Dec,
    pub expected_return_bps: Dec,
    pub risk_adjusted_score: Dec,
}

/// A score as plain values.
pub open spec fn score_view(a: AlphaScore) -> ((int, int), Seq<Seq<char>>, (int, int), (int, int), (int, int)) {
    (a.score@, strs(a.contributing_patterns@), a.confidence@, a.expected_return_bps@, a.risk_adjusted_score@)
}

/// The value of a market-state field that a condition reads (zero for
/// an unknown field); `hour` is the current hour of the day.
pub open spec fn state_value(state: MarketState, field: Seq<char>, hour: int) -> (int, int) {
    if field == "price"@ {
        state.price@
    } else if field == "spread_bps"@ {
        state.spread_bps@
    } else if field == "volatility_1h"@ {
        state.volatility_1h@
    } else if field == "hour"@ {
        dint(hour)
    } else {
        dint(0)
    }
}

/// Whether a condition holds of a value; `Between` means within 10% of
/// the condition's value.
pub open spec fn condition_holds(op: ConditionOperator, value: (int, int), cv: (int, int)) -> bool {
    match op {
        ConditionOperator::GreaterThan => dlt(cv, value),
        ConditionOperator::LessThan => dlt(value, cv),
        ConditionOperator::Equals => units(value) == units(cv),
        ConditionOperator::NotEquals => units(value) != units(cv),
        ConditionOperator::Between => dle(dmul(cv, dlit(9, 1)), value) && dle(value, dmul(cv, dlit(11, 1))),
    }
}

/// Whether every condition of a pattern holds of a market state.
pub open spec fn pattern_matches_state(p: PatternView, state: MarketState, hour: int) -> bool {
    forall|i: int|
        0 <= i < p.3.len() ==> condition_holds(
            #[trigger] p.3[i].1,
            state_value(state, p.3[i].0, hour),
            p.3[i].2,
        )
}

/// Edge of a pattern's statistics in basis points (see `edge_of`).
pub open spec fn edge_of_view(s: (int, (int, int), (int, int), (int, int), (int, int), (int, int), (int, int), (int, int))) -> (int, int) {
    if s.0 == 0 {
        dint(0)
    } else {
        dmul(dsub(dmul(s.2, s.1), dmul(s.3, dsub(dint(1), s.1))), dint(10000))
    }
}

/// Running totals of scoring over patterns: score, weight, expected
/// return, contributing names.
pub open spec fn score_totals(ps: Seq<PatternView>, state: MarketState, hour: int) -> ((int, int), (int, int), (int, int), Seq<Seq<char>>)
    decreases ps.len(),
{
    if ps.len() == 0 {
        (dint(0), dint(0), dint(0), Seq::empty())
    } else {
        let t = score_totals(ps.drop_last(), state, hour);
        let p = ps.last();
        if pattern_matches_state(p, state, hour) {
            let w = dmul(p.5.7, p.5.4);
            (dadd(t.0, dmul(edge_of_view(p.5), w)), dadd(t.1, w), dadd(t.2, dmul(p.4.2, w)), t.3.push(p.1))
        } else {
            t
        }
    }
}

/// The alpha score of a market state from active patterns at an hour:
/// the weighted edge of the matching patterns (weights confidence times
/// profit factor), the share of patterns that match, the weighted expected
/// return, and the score times that share over the volatility (at least
/// 0.01).
pub open spec fn alpha_of(active: Seq<PatternView>, state: MarketState, hour: int) -> ((int, int), Seq<Seq<char>>, (int, int), (int, int), (int, int)) {
    if active.len() == 0 {
        (dint(0), Seq::empty(), dint(0), dint(0), dint(0))
    } else {
        let t = score_totals(active, state, hour);
        let score = if units(t.1) == 0 {
            dint(0)
        } else {
            ddiv(t.0, t.1)
        };
        let confidence = if t.3.len() == 0 {
            dint(0)
        } else {
            dmin(ddiv(dint(t.3.len() as int), dint(active.len() as int)), dint(1))
        };
        let expected = if units(t.1) == 0 {
            dint(0)
        } else {
            ddiv(t.2, t.1)
        };
        (score, t.3, confidence, expected, ddiv(dmul(score, confidence), dmax(state.volatility_1h@, dlit(1, 2))))
    }
}

/// The patterns after storing several in turn.
pub open spec fn upsert_all(vs: Seq<PatternView>, news: Seq<PatternView>) -> Seq<PatternView>
    decreases news.len(),
{
    if news.len() == 0 {
        vs
    } else {
        upsert_view(upsert_all(vs, news.drop_last()), news.last())
    }
}

/// Whether a pattern passes validation: enough samples, win rate and
/// profit factor at least the minimum.
pub open spec fn validates(config: AutoresearchConfig, v: PatternView) -> bool {
    v.5.0 >= config.min_sample_size && dle(config.min_win_rate@, v.5.1) && dle(config.min_profit_factor@, v.5.4)
}

/// A pattern with its state changed (see `with_state`).
pub open spec fn validated_view(v: PatternView) -> PatternView {
    (v.0, v.1, v.2, v.3, v.4, v.5, PatternState::Validated)
}

/// The validated patterns of mined ones.
pub open spec fn validated_of(config: AutoresearchConfig, vs: Seq<PatternView>) -> Seq<PatternView> {
    vs.filter(|v: PatternView| validates(config, v)).map_values(|v: PatternView| validated_view(v))
}

/// Accuracy report.
#[derive(Debug, Clone, Copy)]
pub struct AccuracyReport {
    pub sample_size: usize,
    pub direction_accuracy: Dec,
    pub average_predicted_return: Dec,
    pub average_actual_return: Dec,
    pub prediction_error: Dec,
}

impl Default for AccuracyReport {
    fn default() -> (r: AccuracyReport)
        ensures
            report_view(r) == (0int, dint(0), dint(0), dint(0), dint(0)),
    {
        AccuracyReport {
            sample_size: 0,
            direction_accuracy: Dec::zero(),
            average_predicted_return: Dec::zero(),
            average_actual_return: Dec::zero(),
            prediction_error: Dec::zero(),
        }
    }
}

/// A report as plain values.
pub open spec fn report_view(r: AccuracyReport) -> (int, (int, int), (int, int), (int, int), (int, int)) {
    (r.sample_size as int, r.direction_accuracy@, r.average_predicted_return@, r.average_actual_return@, r.prediction_error@)
}

/// A recorded score: its value, expected return and the actual return.
pub type ScoreRecord = ((int, int), (int, int), Option<(int, int)>);

/// Counts over the records with an outcome: how many, how many with the
/// predicted direction right, total predicted and total actual return.
pub open spec fn accuracy_totals(es: Seq<ScoreRecord>) -> (int, int, (int, int), (int, int))
    decreases es.len(),
{
    if es.len() == 0 {
        (0, 0, dint(0), dint(0))
    } else {
        let t = accuracy_totals(es.drop_last());
        let e = es.last();
        match e.2 {
            None => t,
            Some(a) => (
                t.0 + 1,
                t.1 + if (units(e.0) > 0) == (units(a) > 0) {
                    1int
                } else {
                    0int
                },
                dadd(t.2, e.1),
                dadd(t.3, a),
            ),
        }
    }
}

/// The accuracy of recorded scores.
pub open spec fn accuracy_of(es: Seq<ScoreRecord>) -> (int, (int, int), (int, int), (int, int), (int, int)) {
    let t = accuracy_totals(es);
    if t.0 == 0 {
        (0int, dint(0), dint(0), dint(0), dint(0))
    } else {
        (
            t.0,
            ddiv(dint(t.1), dint(t.0)),
            ddiv(t.2, dint(t.0)),
            ddiv(t.3, dint(t.0)),
            ddiv(dabs(dsub(t.2, t.3)), dmax(dabs(t.2), dint(1))),
        )
    }
}

/// A recorded score with its actual return; the time is in seconds since
/// the Unix epoch.
#[derive(Debug, Clone)]
struct AlphaScoreHistory {
    score: AlphaScore,
    timestamp: i64,
    actual_return: Option<Dec>,
}

/// The records after one more: the oldest leaves beyond 1000.
pub open spec fn records_push(s: Seq<ScoreRecord>, e: ScoreRecord) -> Seq<ScoreRecord> {
    if s.len() + 1 > 1000 {
        s.push(e).drop_first()
    } else {
        s.push(e)
    }
}

/// The hypothesis about the current regime, made at time `t`.
pub open spec fn regime_hypothesis(state: MarketState, t: i64) -> HypothesisView {
    (
        "regime_"@ + regime_text(state.regime) + "_"@ + int_digits(t as int),
        "Market in "@ + regime_text(state.regime) + " regime with "@ + (if dlt(dlit(2, 2), state.volatility_1h@) {
            "high"@
        } else {
            "low"@
        }) + " volatility - expect continuation"@,
        (
            Some(state.regime),
            Some((dmul(state.volatility_1h@, dlit(8, 1)), dmul(state.volatility_1h@, dlit(12, 1)))),
            None,
            None,
            Seq::empty(),
        ),
        dint(20),
        dlit(5, 1),
        HypothesisStatus::Pending,
        t,
        0usize,
        None,
    )
}

/// The hypothesis about a wide spread, made at time `t`.
pub open spec fn spread_hypothesis(state: MarketState, t: i64) -> HypothesisView {
    (
        "wide_spread_"@ + int_digits(t as int),
        "Wide spread detected - potential mean reversion opportunity"@,
        (None, None, None, Some("wide_spread"@), seq![("min_spread_bps"@, decimal_text(state.spread_bps@))]),
        dint(15),
        dlit(4, 1),
        HypothesisStatus::Pending,
        t,
        0usize,
        None,
    )
}

/// A hypothesis after one more test trade: testing, and once the minimum
/// sample is reached, validated if the trade made a profit, else rejected.
pub open spec fn tested(
    h: HypothesisView,
    pnl: (int, int),
    min_sample: usize,
) -> HypothesisView {
    let n = (h.7 + 1) as usize;
    if n >= min_sample {
        let passed = units(pnl) > 0;
        (
            h.0,
            h.1,
            h.2,
            h.3,
            h.4,
            if passed {
                HypothesisStatus::Validated
            } else {
                HypothesisStatus::Rejected
            },
            h.6,
            n,
            Some((passed, dlit(5, 1), dlit(10, 1), n, dlit(5, 2), "Reached minimum sample size"@)),
        )
    } else {
        (h.0, h.1, h.2, h.3, h.4, HypothesisStatus::Testing, h.6, n, h.8)
    }
}

/// Index of the hypothesis with an id.
pub open spec fn hypothesis_index(
    hs: Seq<HypothesisView>,
    id: Seq<char>,
) -> Option<int>
    decreases hs.len(),
{
    if hs.len() == 0 {
        None
    } else if hs[0].0 == id {
        Some(0)
    } else {
        match hypothesis_index(hs.drop_first(), id) {
            Some(i) => Some(i + 1),
            None => None,
        }
    }
}

proof fn lemma_hypothesis_index(hs: Seq<HypothesisView>, id: Seq<char>, i: int)
    requires
        0 <= i <= hs.len(),
        forall|j: int| 0 <= j < i ==> (#[trigger] hs[j]).0 != id,
        i < hs.len() ==> hs[i].0 == id,
    ensures
        hypothesis_index(hs, id) == if i == hs.len() {
            None::<int>
        } else {
            Some(i)
        },
    decreases hs.len(),
{
    if hs.len() > 0 && i > 0 {
        assert forall|j: int| 0 <= j < i - 1 implies (#[trigger] hs.drop_first()[j]).0 != id by {
            assert(hs.drop_first()[j] == hs[j + 1]);
        }
        lemma_hypothesis_index(hs.drop_first(), id, i - 1);
    }
}

/// The pattern a validated hypothesis becomes.
pub open spec fn promoted_pattern(h: HypothesisView) -> PatternView {
    let v = h.8.unwrap();
    (
        "from_hypo_"@ + h.0,
        h.1,
        PatternType::Composite,
        Seq::empty(),
        (Side::Long, h.4, h.3, 300u64),
        (v.3 as int, v.1, dint(0), dint(0), v.2, dint(0), dint(0), dsub(dint(1), v.4)),
        PatternState::Active,
    )
}

/// The patterns the validated hypotheses with a result become.
pub open spec fn promoted_of(hs: Seq<HypothesisView>) -> Seq<PatternView> {
    hs.filter(|h: HypothesisView| h.5 == HypothesisStatus::Validated && h.8 is Some).map_values(
        |h: HypothesisView| promoted_pattern(h),
    )
}

/// Autoresearch agent: validated patterns, hypotheses, and a record of
/// past scores with their outcomes.
pub struct AutoresearchAgent {
    config: AutoresearchConfig,
    pattern_db: PatternDatabase,
    pattern_miner: PatternMiner,
    hypotheses: Vec<Hypothesis>,
    alpha_history: Vec<AlphaScoreHistory>,
}

impl AutoresearchAgent {
    pub closed spec fn config_spec(&self) -> AutoresearchConfig {
        self.config
    }

    /// The stored patterns.
    pub closed spec fn patterns_spec(&self) -> Seq<PatternView> {
        self.pattern_db.patterns_spec()
    }

    /// The miner's least group size and confidence.
    pub closed spec fn miner_spec(&self) -> (usize, (int, int)) {
        (self.pattern_miner.min_sample_spec(), self.pattern_miner.min_confidence_spec())
    }

    /// The hypotheses, in the order made.
    pub closed spec fn hypotheses_spec(&self) -> Seq<HypothesisView> {
        self.hypotheses@.map_values(|h: Hypothesis| hypothesis_view(h))
    }

    /// The recorded scores, oldest first.
    pub closed spec fn records(&self) -> Seq<ScoreRecord> {
        self.alpha_history@.map_values(
            |e: AlphaScoreHistory| (e.score.score@, e.score.expected_return_bps@, crate::decimal::opt_view(e.actual_return)),
        )
    }

    pub fn new(config: AutoresearchConfig) -> (r: AutoresearchAgent)
        ensures
            r.config_spec() == config,
            r.miner_spec() == (config.min_sample_size, dlit(6, 1)),
            r.patterns_spec().len() == 0,
            r.hypotheses_spec().len() == 0,
            r.records().len() == 0,
    {
        AutoresearchAgent {
            pattern_miner: PatternMiner::new(config.min_sample_size, Dec::new(6, 1)),
            config,
            pattern_db: PatternDatabase::new(),
            hypotheses: Vec::new(),
            alpha_history: Vec::new(),
        }
    }

    pub fn with_defaults() -> (r: AutoresearchAgent)
        ensures
            is_default_research_config(r.config_spec()),
            r.miner_spec() == (30usize, dlit(6, 1)),
            r.patterns_spec().len() == 0,
            r.hypotheses_spec().len() == 0,
            r.records().len() == 0,
    {
        AutoresearchAgent::new(AutoresearchConfig::default())
    }

    /// Whether a pattern passes validation (see `validates`).
    fn validate_pattern(&self, pattern: &Pattern) -> (r: bool)
        ensures
            r == validates(self.config_spec(), pattern_view(*pattern)),
    {
        let stats = &pattern.statistics;
        stats.sample_size >= self.config.min_sample_size && stats.win_rate.ge(&self.config.min_win_rate)
            && stats.profit_factor.ge(&self.config.min_profit_factor)
    }

    /// Mines trade history for patterns; those that pass validation are
    /// stored as validated and returned.
    pub fn discover_patterns(&mut self, history: &[Trade]) -> (r: Vec<Pattern>)
        requires
            minable(history@, old(self).miner_spec().0 as int),
        ensures
            r@.map_values(|p: Pattern| pattern_view(p)) == validated_of(
                old(self).config_spec(),
                mined(history@, old(self).miner_spec().0 as int, old(self).miner_spec().1),
            ),
            final(self).patterns_spec() == upsert_all(old(self).patterns_spec(), r@.map_values(|p: Pattern| pattern_view(p))),
            final(self).config_spec() == old(self).config_spec(),
            final(self).miner_spec() == old(self).miner_spec(),
            final(self).hypotheses_spec() == old(self).hypotheses_spec(),
            final(self).records() == old(self).records(),
    {
        let patterns = self.pattern_miner.mine_patterns(history);
        let ghost mv = patterns@.map_values(|p: Pattern| pattern_view(p));
        let ghost db0 = self.pattern_db.patterns_spec();
        let mut validated: Vec<Pattern> = Vec::new();
        let mut i: usize = 0;
        while i < patterns.len()
            invariant
                i <= patterns.len(),
                mv == patterns@.map_values(|p: Pattern| pattern_view(p)),
                self.config == old(self).config,
                self.pattern_miner.min_sample_spec() == old(self).pattern_miner.min_sample_spec(),
                self.pattern_miner.min_confidence_spec() == old(self).pattern_miner.min_confidence_spec(),
                self.hypotheses == old(self).hypotheses,
                self.alpha_history == old(self).alpha_history,
                validated@.map_values(|p: Pattern| pattern_view(p)) == validated_of(self.config, mv.take(i as int)),
                self.pattern_db.patterns_spec() == upsert_all(db0, validated@.map_values(|p: Pattern| pattern_view(p))),
            decreases patterns.len() - i,
        {
            let ghost v0 = validated@.map_values(|p: Pattern| pattern_view(p));
            proof {
                assert(mv.take(i + 1).drop_last() =~= mv.take(i as int));
                assert(mv.take(i + 1).last() == pattern_view(patterns@[i as int]));
                reveal_with_fuel(Seq::filter, 1);
                assert(mv.take(i + 1).filter(|v: PatternView| validates(self.config, v)) == if validates(
                    self.config,
                    mv[i as int],
                ) {
                    mv.take(i as int).filter(|v: PatternView| validates(self.config, v)).push(mv[i as int])
                } else {
                    mv.take(i as int).filter(|v: PatternView| validates(self.config, v))
                });
            }
            if self.validate_pattern(&patterns[i]) {
                let mut p = pattern_copy(&patterns[i]);
                p.state = PatternState::Validated;
                let q = pattern_copy(&p);
                self.pattern_db.upsert(q);
                validated.push(p);
                proof {
                    assert(validated@.map_values(|p: Pattern| pattern_view(p)) =~= v0.push(validated_view(mv[i as int])));
                    assert(validated@.map_values(|p: Pattern| pattern_view(p)).drop_last() =~= v0);
                }
            }
            proof {
                assert(validated@.map_values(|p: Pattern| pattern_view(p)) =~= validated_of(self.config, mv.take(i + 1)));
            }
            i = i + 1;
        }
        proof {
            assert(mv.take(i as int) =~= mv);
        }
        validated
    }

    /// `discover_patterns` for any history: `None`, with nothing changed,
    /// where mining would divide by zero (see `minable`).
    pub fn try_discover_patterns(&mut self, history: &[Trade]) -> (r: Option<Vec<Pattern>>)
        ensures
            !minable(history@, old(self).miner_spec().0 as int) ==> r is None && final(self).patterns_spec()
                == old(self).patterns_spec(),
            minable(history@, old(self).miner_spec().0 as int) ==> (r matches Some(v) && v@.map_values(
                |p: Pattern| pattern_view(p),
            ) == validated_of(
                old(self).config_spec(),
                mined(history@, old(self).miner_spec().0 as int, old(self).miner_spec().1),
            ) && final(self).patterns_spec() == upsert_all(
                old(self).patterns_spec(),
                v@.map_values(|p: Pattern| pattern_view(p)),
            )),
    {
        if self.pattern_miner.is_minable(history) {
            Some(self.discover_patterns(history))
        } else {
            None
        }
    }
}

/// The value of a market-state field (see `state_value`).
fn state_value_of(state: &MarketState, field: &str, hour: i64) -> (r: Dec)
    ensures
        r@ == state_value(*state, field@, hour as int),
{
    if str_eq(field, "price") {
        state.price
    } else if str_eq(field, "spread_bps") {
        state.spread_bps
    } else if str_eq(field, "volatility_1h") {
        state.volatility_1h
    } else if str_eq(field, "hour") {
        Dec::from_i64(hour)
    } else {
        Dec::zero()
    }
}

/// Whether every condition of a pattern holds of a market state.
fn matches_state(pattern: &Pattern, state: &MarketState, hour: i64) -> (r: bool)
    ensures
        r == pattern_matches_state(pattern_view(*pattern), *state, hour as int),
{
    let mut i: usize = 0;
    while i < pattern.conditions.len()
        invariant
            i <= pattern.conditions.len(),
            forall|j: int|
                0 <= j < i ==> condition_holds(
                    #[trigger] pattern.conditions@[j].operator,
                    state_value(*state, pattern.conditions@[j].field@, hour as int),
                    pattern.conditions@[j].value@,
                ),
        decreases pattern.conditions.len() - i,
    {
        let c = &pattern.conditions[i];
        let value = state_value_of(state, c.field.as_str(), hour);
        let holds = match c.operator {
            ConditionOperator::GreaterThan => value.gt(&c.value),
            ConditionOperator::LessThan => value.lt(&c.value),
            ConditionOperator::Equals => value.eq_value(&c.value),
            ConditionOperator::NotEquals => !value.eq_value(&c.value),
            ConditionOperator::Between => {
                let low = c.value.mul(Dec::new(9, 1));
                let high = c.value.mul(Dec::new(11, 1));
                value.ge(&low) && value.le(&high)
            },
        };
        if !holds {
            proof {
                let v = pattern_view(*pattern);
                assert(v.3[i as int] == condition_view(pattern.conditions@[i as int]));
                assert(!condition_holds(v.3[i as int].1, state_value(*state, v.3[i as int].0, hour as int), v.3[i as int].2));
            }
            return false;
        }
        i = i + 1;
    }
    proof {
        let v = pattern_view(*pattern);
        assert forall|j: int| 0 <= j < v.3.len() implies condition_holds(
            #[trigger] v.3[j].1,
            state_value(*state, v.3[j].0, hour as int),
            v.3[j].2,
        ) by {
            assert(v.3[j] == condition_view(pattern.conditions@[j]));
        }
    }
    true
}

impl AutoresearchAgent {
    /// The active stored patterns.
    pub closed spec fn active_spec(&self) -> Seq<PatternView> {
        self.pattern_db.patterns_spec().filter(|p: PatternView| p.6 == PatternState::Active)
    }

    /// The alpha score of a market state at an hour of the day (see `alpha_of`).
    pub fn score_alpha_at(&self, market_state: &MarketState, hour: i64) -> (r: AlphaScore)
        ensures
            score_view(r) == alpha_of(self.active_spec(), *market_state, hour as int),
    {
        let active = self.pattern_db.active_patterns();
        let ghost ps = active@.map_values(|p: &Pattern| pattern_view(*p));
        let pattern_count = active.len();
        if pattern_count == 0 {
            let r = AlphaScore {
                score: Dec::zero(),
                contributing_patterns: Vec::new(),
                confidence: Dec::zero(),
                expected_return_bps: Dec::zero(),
                risk_adjusted_score: Dec::zero(),
            };
            proof {
                assert(score_view(r).1 =~= Seq::<Seq<char>>::empty());
                assert(score_view(r) == alpha_of(ps, *market_state, hour as int));
            }
            return r;
        }
        let mut total_score = Dec::zero();
        let mut total_weight = Dec::zero();
        let mut expected_return = Dec::zero();
        let mut contributing: Vec<String> = Vec::new();
        let mut i: usize = 0;
        while i < active.len()
            invariant
                i <= active.len(),
                ps == active@.map_values(|p: &Pattern| pattern_view(*p)),
                (total_score@, total_weight@, expected_return@, strs(contributing@)) == score_totals(
                    ps.take(i as int),
                    *market_state,
                    hour as int,
                ),
            decreases active.len() - i,
        {
            proof {
                assert(ps.take(i + 1).drop_last() =~= ps.take(i as int));
                assert(ps.take(i + 1).last() == pattern_view(*active@[i as int]));
            }
            let pattern = active[i];
            if matches_state(pattern, market_state, hour) {
                let weight = pattern.statistics.confidence.mul(pattern.statistics.profit_factor);
                total_score = total_score.add(pattern.edge_bps().mul(weight));
                total_weight = total_weight.add(weight);
                expected_return = expected_return.add(pattern.signal.expected_return_bps.mul(weight));
                let ghost c0 = contributing@;
                contributing.push(pattern.name.clone());
                proof {
                    assert(strs(contributing@) =~= strs(c0).push(pattern.name@));
                }
            }
            i = i + 1;
        }
        proof {
            assert(ps.take(i as int) =~= ps);
        }
        let score = if total_weight.is_zero() {
            Dec::zero()
        } else {
            total_score.div(total_weight)
        };
        let confidence = if contributing.len() == 0 {
            Dec::zero()
        } else {
            Dec::from_usize(contributing.len()).div(Dec::from_usize(pattern_count)).min(Dec::one())
        };
        let expected = if total_weight.is_zero() {
            Dec::zero()
        } else {
            expected_return.div(total_weight)
        };
        let floor = Dec::new(1, 2);
        let vol = market_state.volatility_1h.max(floor);
        proof {
            lemma_units_sign(floor@);
        }
        let risk_adjusted = score.mul(confidence).div(vol);
        let r = AlphaScore {
            score,
            contributing_patterns: contributing,
            confidence,
            expected_return_bps: expected,
            risk_adjusted_score: risk_adjusted,
        };
        proof {
            assert(score_view(r) == alpha_of(ps, *market_state, hour as int));
        }
        r
    }

    /// The alpha score of a market state now: `score_alpha_at` the current
    /// hour of the day.
    pub fn score_alpha(&self, market_state: &MarketState) -> (r: AlphaScore)
        ensures
            exists|h: int| 0 <= h < 24 && score_view(r) == #[trigger] alpha_of(self.active_spec(), *market_state, h),
    {
        let hour = crate::alpha::patterns::hour_key(now_secs());
        let r = self.score_alpha_at(market_state, hour);
        r
    }
}

impl AutoresearchAgent {
    /// Hypotheses from a market state, made now: one that the regime
    /// continues, and one of mean reversion when the spread is above 30 bps.
    /// They are kept and returned; none when generation is off.
    pub fn generate_hypotheses(&mut self, market_state: &MarketState) -> (r: Vec<Hypothesis>)
        ensures
            final(self).config_spec() == old(self).config_spec(),
            final(self).patterns_spec() == old(self).patterns_spec(),
            final(self).records() == old(self).records(),
            final(self).hypotheses_spec() == old(self).hypotheses_spec() + r@.map_values(|h: Hypothesis| hypothesis_view(h)),
            !old(self).config_spec().generate_hypotheses ==> r@.len() == 0,
            old(self).config_spec().generate_hypotheses ==> r@.len() == if dlt(dint(30), market_state.spread_bps@) {
                2int
            } else {
                1int
            } && hypothesis_view(r@[0]) == regime_hypothesis(*market_state, r@[0].created_at) && (r@.len() == 2
                ==> hypothesis_view(r@[1]) == spread_hypothesis(*market_state, r@[0].created_at)),
    {
        if !self.config.generate_hypotheses {
            let r: Vec<Hypothesis> = Vec::new();
            proof {
                assert(self.hypotheses_spec() =~= self.hypotheses_spec() + r@.map_values(|h: Hypothesis| hypothesis_view(h)));
            }
            return r;
        }
        let now = now_secs();
        let mut hypotheses: Vec<Hypothesis> = Vec::new();
        let regime = regime_to_str(&market_state.regime);
        let mut id = "regime_".to_owned();
        id.append(regime);
        id.append("_");
        id.append(int_text(now).as_str());
        let mut description = "Market in ".to_owned();
        description.append(regime);
        description.append(" regime with ");
        description.append(
            if market_state.volatility_1h.gt(&Dec::new(2, 2)) {
                "high"
            } else {
                "low"
            },
        );
        description.append(" volatility - expect continuation");
        let regime_hypo = Hypothesis {
            id,
            description,
            conditions: HypothesisConditions {
                regime: Some(market_state.regime),
                volatility_range: Some(
                    (market_state.volatility_1h.mul(Dec::new(8, 1)), market_state.volatility_1h.mul(Dec::new(12, 1))),
                ),
                time_of_day: None,
                price_action: None,
                custom: Vec::new(),
            },
            expected_edge_bps: Dec::from_u64(20),
            confidence: Dec::new(5, 1),
            status: HypothesisStatus::Pending,
            created_at: now,
            tested_trades: 0,
            validation_result: None,
        };
        proof {
            assert(conditions_view(regime_hypo.conditions).4 =~= Seq::<(Seq<char>, Seq<char>)>::empty());
            assert(hypothesis_view(regime_hypo) == regime_hypothesis(*market_state, now));
        }
        hypotheses.push(regime_hypo);
        if market_state.spread_bps.gt(&Dec::from_u64(30)) {
            let mut sid = "wide_spread_".to_owned();
            sid.append(int_text(now).as_str());
            let mut custom: Vec<(String, String)> = Vec::new();
            custom.push(("min_spread_bps".to_owned(), market_state.spread_bps.to_text()));
            let spread_hypo = Hypothesis {
                id: sid,
                description: "Wide spread detected - potential mean reversion opportunity".to_owned(),
                conditions: HypothesisConditions {
                    regime: None,
                    volatility_range: None,
                    time_of_day: None,
                    price_action: Some("wide_spread".to_owned()),
                    custom,
                },
                expected_edge_bps: Dec::from_u64(15),
                confidence: Dec::new(4, 1),
                status: HypothesisStatus::Pending,
                created_at: now,
                tested_trades: 0,
                validation_result: None,
            };
            proof {
                assert(conditions_view(spread_hypo.conditions).4 =~= seq![("min_spread_bps"@, decimal_text(market_state.spread_bps@))]);
                assert(hypothesis_view(spread_hypo) == spread_hypothesis(*market_state, now));
            }
            hypotheses.push(spread_hypo);
        }
        let ghost h0 = self.hypotheses_spec();
        let mut j: usize = 0;
        while j < hypotheses.len()
            invariant
                j <= hypotheses.len(),
                self.config == old(self).config,
                self.pattern_db == old(self).pattern_db,
                self.alpha_history == old(self).alpha_history,
                h0 == old(self).hypotheses_spec(),
                self.hypotheses_spec() == h0 + hypotheses@.take(j as int).map_values(|h: Hypothesis| hypothesis_view(h)),
            decreases hypotheses.len() - j,
        {
            let ghost before = self.hypotheses_spec();
            let h = hypothesis_copy(&hypotheses[j]);
            self.hypotheses.push(h);
            proof {
                assert(self.hypotheses_spec() =~= before.push(hypothesis_view(hypotheses@[j as int])));
                assert(hypotheses@.take(j + 1).map_values(|h: Hypothesis| hypothesis_view(h)) =~= hypotheses@.take(
                    j as int,
                ).map_values(|h: Hypothesis| hypothesis_view(h)).push(hypothesis_view(hypotheses@[j as int])));
            }
            j = j + 1;
        }
        proof {
            assert(hypotheses@.take(j as int) =~= hypotheses@);
        }
        hypotheses
    }

    /// Counts a trade against the hypothesis with an id (see `tested`);
    /// nothing changes when there is none.
    pub fn test_hypothesis(&mut self, hypothesis_id: &str, trade: &Trade)
        requires
            forall|i: int| 0 <= i < old(self).hypotheses_spec().len() ==> (#[trigger] old(self).hypotheses_spec()[i]).7 < usize::MAX,
        ensures
            final(self).config_spec() == old(self).config_spec(),
            final(self).patterns_spec() == old(self).patterns_spec(),
            final(self).records() == old(self).records(),
            final(self).hypotheses_spec() == match hypothesis_index(old(self).hypotheses_spec(), hypothesis_id@) {
                Some(i) => old(self).hypotheses_spec().update(
                    i,
                    tested(old(self).hypotheses_spec()[i], trade.pnl@, old(self).config_spec().min_sample_size),
                ),
                None => old(self).hypotheses_spec(),
            },
    {
        let ghost hs = self.hypotheses_spec();
        let mut i: usize = 0;
        while i < self.hypotheses.len()
            invariant
                i <= self.hypotheses.len(),
                hs == self.hypotheses_spec(),
                hs == old(self).hypotheses_spec(),
                self.config == old(self).config,
                self.pattern_db == old(self).pattern_db,
                self.alpha_history == old(self).alpha_history,
                forall|j: int| 0 <= j < hs.len() ==> (#[trigger] hs[j]).7 < usize::MAX,
                forall|j: int| 0 <= j < i ==> (#[trigger] hs[j]).0 != hypothesis_id@,
            decreases self.hypotheses.len() - i,
        {
            if str_eq(self.hypotheses[i].id.as_str(), hypothesis_id) {
                proof {
                    assert(hs[i as int] == hypothesis_view(self.hypotheses@[i as int]));
                    lemma_hypothesis_index(hs, hypothesis_id@, i as int);
                }
                let mut h = self.hypotheses.remove(i);
                h.tested_trades = h.tested_trades + 1;
                h.status = HypothesisStatus::Testing;
                if h.tested_trades >= self.config.min_sample_size {
                    let passed = trade.pnl.gt(&Dec::zero());
                    let result = ValidationResult {
                        passed,
                        win_rate: Dec::new(5, 1),
                        profit_factor: Dec::new(10, 1),
                        sample_size: h.tested_trades,
                        p_value: Dec::new(5, 2),
                        reason: "Reached minimum sample size".to_owned(),
                    };
                    h.status = if passed {
                        HypothesisStatus::Validated
                    } else {
                        HypothesisStatus::Rejected
                    };
                    h.validation_result = Some(result);
                }
                self.hypotheses.insert(i, h);
                proof {
                    assert(self.hypotheses_spec() =~= hs.update(
                        i as int,
                        tested(hs[i as int], trade.pnl@, self.config.min_sample_size),
                    ));
                }
                return;
            }
            proof {
                assert(hs[i as int] == hypothesis_view(self.hypotheses@[i as int]));
            }
            i = i + 1;
        }
        proof {
            lemma_hypothesis_index(hs, hypothesis_id@, i as int);
        }
    }

    /// Records a score with the return that followed (the last 1000 kept).
    pub fn record_outcome(&mut self, alpha_score: AlphaScore, actual_return: Dec)
        ensures
            final(self).config_spec() == old(self).config_spec(),
            final(self).patterns_spec() == old(self).patterns_spec(),
            final(self).hypotheses_spec() == old(self).hypotheses_spec(),
            final(self).records() == records_push(
                old(self).records(),
                (alpha_score.score@, alpha_score.expected_return_bps@, Some(actual_return@)),
            ),
    {
        let ghost r0 = self.records();
        let e = AlphaScoreHistory { score: alpha_score, timestamp: now_secs(), actual_return: Some(actual_return) };
        let ghost ev = (e.score.score@, e.score.expected_return_bps@, crate::decimal::opt_view(e.actual_return));
        self.alpha_history.push(e);
        proof {
            assert(self.records() =~= r0.push(ev));
        }
        if self.alpha_history.len() > 1000 {
            self.alpha_history.remove(0);
            proof {
                assert(self.records() =~= r0.push(ev).drop_first());
            }
        }
    }

    /// Accuracy of the recorded scores (see `accuracy_of`).
    pub fn analyze_accuracy(&self) -> (r: AccuracyReport)
        ensures
            report_view(r) == accuracy_of(self.records()),
    {
        let ghost es = self.records();
        let mut n: usize = 0;
        let mut correct: usize = 0;
        let mut total_predicted = Dec::zero();
        let mut total_actual = Dec::zero();
        let mut i: usize = 0;
        while i < self.alpha_history.len()
            invariant
                i <= self.alpha_history.len(),
                es == self.records(),
                (n as int, correct as int, total_predicted@, total_actual@) == accuracy_totals(es.take(i as int)),
                correct <= n <= i,
            decreases self.alpha_history.len() - i,
        {
            proof {
                assert(es.take(i + 1).drop_last() =~= es.take(i as int));
                assert(es.take(i + 1).last() == es[i as int]);
            }
            let entry = &self.alpha_history[i];
            match entry.actual_return {
                Some(a) => {
                    let predicted_positive = entry.score.score.gt(&Dec::zero());
                    let actual_positive = a.gt(&Dec::zero());
                    if predicted_positive == actual_positive {
                        correct = correct + 1;
                    }
                    n = n + 1;
                    total_predicted = total_predicted.add(entry.score.expected_return_bps);
                    total_actual = total_actual.add(a);
                },
                None => {},
            }
            i = i + 1;
        }
        proof {
            assert(es.take(i as int) =~= es);
        }
        if n == 0 {
            return AccuracyReport::default();
        }
        let count = Dec::from_usize(n);
        let direction_accuracy = Dec::from_usize(correct).div(count);
        let floor = total_predicted.abs().max(Dec::one());
        proof {
            crate::decimal::lemma_pow10_pos(28);
        }
        let prediction_error = total_predicted.sub(total_actual).abs().div(floor);
        AccuracyReport {
            sample_size: n,
            direction_accuracy,
            average_predicted_return: total_predicted.div(count),
            average_actual_return: total_actual.div(count),
            prediction_error,
        }
    }

    /// The pattern database.
    pub fn patterns(&self) -> (r: &PatternDatabase)
        ensures
            r.patterns_spec() == self.patterns_spec(),
    {
        &self.pattern_db
    }

    /// Hypotheses pending or being tested, in the order made.
    pub fn pending_hypotheses(&self) -> (r: Vec<&Hypothesis>)
        ensures
            r@.map_values(|h: &Hypothesis| hypothesis_view(*h)) == self.hypotheses_spec().filter(
                |h: HypothesisView| h.5 == HypothesisStatus::Pending || h.5 == HypothesisStatus::Testing,
            ),
    {
        let ghost hs = self.hypotheses_spec();
        let mut r: Vec<&Hypothesis> = Vec::new();
        let mut i: usize = 0;
        while i < self.hypotheses.len()
            invariant
                i <= self.hypotheses.len(),
                hs == self.hypotheses_spec(),
                r@.map_values(|h: &Hypothesis| hypothesis_view(*h)) == hs.take(i as int).filter(
                    |h: HypothesisView| h.5 == HypothesisStatus::Pending || h.5 == HypothesisStatus::Testing,
                ),
            decreases self.hypotheses.len() - i,
        {
            let ghost r0 = r@;
            proof {
                assert(hs.take(i + 1).drop_last() =~= hs.take(i as int));
                assert(hs.take(i + 1).last() == hypothesis_view(self.hypotheses@[i as int]));
                reveal_with_fuel(Seq::filter, 1);
            }
            let st = self.hypotheses[i].status;
            if st == HypothesisStatus::Pending || st == HypothesisStatus::Testing {
                r.push(&self.hypotheses[i]);
                proof {
                    assert(r@.map_values(|h: &Hypothesis| hypothesis_view(*h)) =~= r0.map_values(
                        |h: &Hypothesis| hypothesis_view(*h),
                    ).push(hypothesis_view(self.hypotheses@[i as int])));
                }
            }
            i = i + 1;
        }
        proof {
            assert(hs.take(i as int) =~= hs);
        }
        r
    }

    /// Validated hypotheses, in the order made.
    pub fn validated_hypotheses(&self) -> (r: Vec<&Hypothesis>)
        ensures
            r@.map_values(|h: &Hypothesis| hypothesis_view(*h)) == self.hypotheses_spec().filter(
                |h: HypothesisView| h.5 == HypothesisStatus::Validated,
            ),
    {
        let ghost hs = self.hypotheses_spec();
        let mut r: Vec<&Hypothesis> = Vec::new();
        let mut i: usize = 0;
        while i < self.hypotheses.len()
            invariant
                i <= self.hypotheses.len(),
                hs == self.hypotheses_spec(),
                r@.map_values(|h: &Hypothesis| hypothesis_view(*h)) == hs.take(i as int).filter(
                    |h: HypothesisView| h.5 == HypothesisStatus::Validated,
                ),
            decreases self.hypotheses.len() - i,
        {
            let ghost r0 = r@;
            proof {
                assert(hs.take(i + 1).drop_last() =~= hs.take(i as int));
                assert(hs.take(i + 1).last() == hypothesis_view(self.hypotheses@[i as int]));
                reveal_with_fuel(Seq::filter, 1);
            }
            if self.hypotheses[i].status == HypothesisStatus::Validated {
                r.push(&self.hypotheses[i]);
                proof {
                    assert(r@.map_values(|h: &Hypothesis| hypothesis_view(*h)) =~= r0.map_values(
                        |h: &Hypothesis| hypothesis_view(*h),
                    ).push(hypothesis_view(self.hypotheses@[i as int])));
                }
            }
            i = i + 1;
        }
        proof {
            assert(hs.take(i as int) =~= hs);
        }
        r
    }

    /// Turns the validated hypotheses with a result into active patterns
    /// (stored and returned), and drops all validated hypotheses.
    pub fn promote_hypotheses(&mut self) -> (r: Vec<Pattern>)
        ensures
            r@.map_values(|p: Pattern| pattern_view(p)) == promoted_of(old(self).hypotheses_spec()),
            final(self).patterns_spec() == upsert_all(old(self).patterns_spec(), r@.map_values(|p: Pattern| pattern_view(p))),
            final(self).hypotheses_spec() == old(self).hypotheses_spec().filter(
                |h: HypothesisView| h.5 != HypothesisStatus::Validated,
            ),
            final(self).config_spec() == old(self).config_spec(),
            final(self).records() == old(self).records(),
    {
        let ghost hs = self.hypotheses_spec();
        let ghost db0 = self.pattern_db.patterns_spec();
        let mut promoted: Vec<Pattern> = Vec::new();
        let mut kept: Vec<Hypothesis> = Vec::new();
        let now = now_secs();
        let mut i: usize = 0;
        while i < self.hypotheses.len()
            invariant
                i <= self.hypotheses.len(),
                hs == self.hypotheses_spec(),
                self.config == old(self).config,
                self.alpha_history == old(self).alpha_history,
                hs == old(self).hypotheses_spec(),
                db0 == old(self).pattern_db.patterns_spec(),
                promoted@.map_values(|p: Pattern| pattern_view(p)) == promoted_of(hs.take(i as int)),
                self.pattern_db.patterns_spec() == upsert_all(db0, promoted@.map_values(|p: Pattern| pattern_view(p))),
                kept@.map_values(|h: Hypothesis| hypothesis_view(h)) == hs.take(i as int).filter(
                    |h: HypothesisView| h.5 != HypothesisStatus::Validated,
                ),
            decreases self.hypotheses.len() - i,
        {
            let ghost p0 = promoted@.map_values(|p: Pattern| pattern_view(p));
            let ghost k0 = kept@.map_values(|h: Hypothesis| hypothesis_view(h));
            let ghost hv = hs[i as int];
            proof {
                assert(hs.take(i + 1).drop_last() =~= hs.take(i as int));
                assert(hs.take(i + 1).last() == hv);
                assert(hv == hypothesis_view(self.hypotheses@[i as int]));
                reveal_with_fuel(Seq::filter, 1);
                assert(hs.take(i + 1).filter(|h: HypothesisView| h.5 == HypothesisStatus::Validated && h.8 is Some) == if hv.5
                    == HypothesisStatus::Validated && hv.8 is Some {
                    hs.take(i as int).filter(|h: HypothesisView| h.5 == HypothesisStatus::Validated && h.8 is Some).push(hv)
                } else {
                    hs.take(i as int).filter(|h: HypothesisView| h.5 == HypothesisStatus::Validated && h.8 is Some)
                });
            }
            let h = &self.hypotheses[i];
            if h.status == HypothesisStatus::Validated {
                match &h.validation_result {
                    Some(result) => {
                        let mut id = "from_hypo_".to_owned();
                        id.append(h.id.as_str());
                        let pattern = Pattern {
                            id,
                            name: h.description.clone(),
                            pattern_type: PatternType::Composite,
                            conditions: Vec::new(),
                            signal: PatternSignal {
                                side: Side::Long,
                                confidence: h.confidence,
                                expected_return_bps: h.expected_edge_bps,
                                hold_time_secs: 300,
                            },
                            statistics: PatternStats {
                                sample_size: result.sample_size,
                                win_rate: result.win_rate,
                                avg_win: Dec::zero(),
                                avg_loss: Dec::zero(),
                                profit_factor: result.profit_factor,
                                max_drawdown: Dec::zero(),
                                sharpe_ratio: Dec::zero(),
                                confidence: Dec::one().sub(result.p_value),
                            },
                            state: PatternState::Active,
                            created_at: now,
                            last_seen_at: now,
                        };
                        proof {
                            assert(pattern_view(pattern).3 =~= Seq::<(Seq<char>, ConditionOperator, (int, int), (int, int))>::empty());
                            assert(pattern_view(pattern) == promoted_pattern(hv));
                        }
                        let q = pattern_copy(&pattern);
                        self.pattern_db.upsert(q);
                        promoted.push(pattern);
                        proof {
                            assert(promoted@.map_values(|p: Pattern| pattern_view(p)) =~= p0.push(promoted_pattern(hv)));
                            assert(promoted@.map_values(|p: Pattern| pattern_view(p)).drop_last() =~= p0);
                        }
                    },
                    None => {},
                }
            } else {
                let c = hypothesis_copy(&self.hypotheses[i]);
                kept.push(c);
                proof {
                    assert(kept@.map_values(|h: Hypothesis| hypothesis_view(h)) =~= k0.push(hv));
                }
            }
            proof {
                assert(promoted@.map_values(|p: Pattern| pattern_view(p)) =~= promoted_of(hs.take(i + 1)));
            }
            i = i + 1;
        }
        proof {
            assert(hs.take(i as int) =~= hs);
        }
        self.hypotheses = kept;
        promoted
    }
}


/// The record of scores never holds more than 1000 entries.
pub proof fn lemma_records_bounded(s: Seq<ScoreRecord>, e: ScoreRecord)
    requires
        s.len() <= 1000,
    ensures
        records_push(s, e).len() <= 1000,
        records_push(s, e).last() == e,
{
}

/// Testing keeps a hypothesis's identity and counts one more trade.
pub proof fn lemma_tested_counts(h: HypothesisView, pnl: (int, int), min_sample: usize)
    requires
        h.7 < usize::MAX,
    ensures
        tested(h, pnl, min_sample).0 == h.0,
        tested(h, pnl, min_sample).7 == h.7 + 1,
        tested(h, pnl, min_sample).5 != HypothesisStatus::Pending,
{
}

} // verus!
