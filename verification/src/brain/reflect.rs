//! Self-learning from closed trades: reflections on what worked and what
//! failed, recorded mistakes and the rules they teach, and performance
//! statistics.  Persistence of the records is left to the caller.
use crate::brain::consensus::{ConsensusEngine, MergedContext, recorded, recent_win_rate_of, weights_step};
use crate::clock::now_secs;
use crate::decimal::{dabs, dadd, ddiv, dint, dlit, dlt, dmul, units, decimal_text_dp, Dec};
use crate::market::Regime;
use crate::text::{nat_digits, nat_text};
use vstd::prelude::*;

verus! {

/// Trade side.
#[derive(Debug, Clone, Copy, PartialEq, Eq, Structural)]
pub enum TradeSide {
    Long,
    Short,
}

/// Trade outcome.
#[derive(Debug, Clone, Copy, PartialEq, Eq, Structural)]
pub enum TradeOutcome {
    Win,
    Loss,
    Breakeven,
}

/// Record of a trade for reflection; times are seconds since the Unix epoch.
#[derive(Debug, Clone)]
pub struct TradeRecord {
    pub id: String,
    pub symbol: String,
    pub entry_time: i64,
    pub exit_time: Option<i64>,
    pub entry_price: Dec,
    pub exit_price: Option<Dec>,
    pub side: TradeSide,
    /// Size as a fraction of capital.
    pub size_pct: Dec,
    pub pnl_usd: Option<Dec>,
    pub pnl_pct: Option<Dec>,
    pub outcome: Option<TradeOutcome>,
    /// The merged view of the brains at entry.
    pub entry_context: MergedContext,
    /// Whether the technical brain agreed with the trade.
    pub ta_agreed: bool,
    /// Whether the fundamental brain agreed with the trade.
    pub fund_agreed: bool,
    pub reflection: Option<String>,
}

/// Suggested adjustment kinds.
#[derive(Debug, Clone, Copy, PartialEq, Eq, Structural)]
pub enum AdjustmentType {
    TAWeight,
    FundWeight,
    PositionSize,
    StopLoss,
    TakeProfit,
    RadarThreshold,
    ConfidenceThreshold,
    AvoidSetup,
}

/// Suggested adjustment.
#[derive(Debug, Clone)]
pub struct Adjustment {
    pub adjustment_type: AdjustmentType,
    pub current_value: String,
    pub suggested_value: String,
    pub reason: String,
    /// Priority (1-5, 5 highest).
    pub priority: u8,
}

/// Reflection on a closed trade; the time is in seconds since the Unix epoch.
#[derive(Debug, Clone)]
pub struct Reflection {
    pub trade_id: String,
    pub symbol: String,
    pub timestamp: i64,
    pub outcome: TradeOutcome,
    pub what_worked: Vec<String>,
    pub what_failed: Vec<String>,
    pub lessons: Vec<String>,
    pub adjustments: Vec<Adjustment>,
    /// Confidence in the reflection.
    pub confidence: Dec,
}

/// Mistake kinds.
#[derive(Debug, Clone, Copy, PartialEq, Eq, Structural)]
pub enum MistakeType {
    IgnoredConflict,
    LowConfidence,
    ChoppyRegime,
    SecurityWarning,
    OversizedPosition,
    TightStop,
    LooseStop,
    IgnoredWhaleSelling,
    BadTiming,
    Other,
}

/// Conditions under which a mistake happened.
#[derive(Debug, Clone)]
pub struct MistakeConditions {
    pub radar_score: Option<u16>,
    pub pulse_tier: Option<u8>,
    pub regime: Option<String>,
    pub ta_sentiment: Option<Dec>,
    pub fund_sentiment: Option<Dec>,
    pub was_conflict: bool,
    pub confidence: Option<Dec>,
}

/// A recorded mistake and the rule it teaches; the time is in seconds
/// since the Unix epoch.
#[derive(Debug, Clone)]
pub struct Mistake {
    pub timestamp: i64,
    pub symbol: String,
    pub mistake_type: MistakeType,
    pub description: String,
    pub conditions: MistakeConditions,
    pub avoid_rule: String,
    /// Severity (1-5).
    pub severity: u8,
}

/// Performance statistics over the closed trades.
#[derive(Debug, Clone)]
pub struct PerformanceStats {
    pub total_trades: u32,
    pub wins: u32,
    pub losses: u32,
    pub win_rate: Dec,
    pub total_pnl: Dec,
    pub avg_win: Dec,
    pub avg_loss: Dec,
    pub profit_factor: Dec,
    pub max_drawdown: Dec,
    pub sharpe_ratio: Dec,
    /// Share of trades where the technical brain's view matched the outcome.
    pub ta_accuracy: Dec,
    /// Share of trades where the fundamental brain's view matched the outcome.
    pub fund_accuracy: Dec,
    pub best_setup: Option<String>,
    pub worst_setup: Option<String>,
}

/// The statistics before any trade: no trades, zero amounts, a profit
/// factor of 1, both brains at 0.5 accuracy, no best or worst setup.
pub open spec fn is_initial_stats(r: PerformanceStats) -> bool {
    &&& r.total_trades == 0 && r.wins == 0 && r.losses == 0
    &&& r.win_rate@ == dint(0)
    &&& r.total_pnl@ == dint(0)
    &&& r.avg_win@ == dint(0)
    &&& r.avg_loss@ == dint(0)
    &&& r.profit_factor@ == dint(1)
    &&& r.max_drawdown@ == dint(0)
    &&& r.sharpe_ratio@ == dint(0)
    &&& r.ta_accuracy@ == dlit(5, 1)
    &&& r.fund_accuracy@ == dlit(5, 1)
    &&& r.best_setup is None
    &&& r.worst_setup is None
}

impl Default for PerformanceStats {
    fn default() -> (r: PerformanceStats)
        ensures
            is_initial_stats(r),
    {
        PerformanceStats {
            total_trades: 0,
            wins: 0,
            losses: 0,
            win_rate: Dec::zero(),
            total_pnl: Dec::zero(),
            avg_win: Dec::zero(),
            avg_loss: Dec::zero(),
            profit_factor: Dec::one(),
            max_drawdown: Dec::zero(),
            sharpe_ratio: Dec::zero(),
            ta_accuracy: Dec::new(5, 1),
            fund_accuracy: Dec::new(5, 1),
            best_setup: None,
            worst_setup: None,
        }
    }
}

/// The texts of a list of strings.
pub open spec fn strs(v: Seq<String>) -> Seq<Seq<char>> {
    v.map_values(|s: String| s@)
}

/// A one-element list when `b` holds, else the empty list.
pub open spec fn opt<T>(b: bool, x: T) -> Seq<T> {
    if b {
        seq![x]
    } else {
        Seq::empty()
    }
}

/// Push `s` onto `v` when `b` holds.
pub fn push_if(v: &mut Vec<String>, b: bool, s: String)
    ensures
        strs(final(v)@) == strs(old(v)@) + opt(b, s@),
{
    if b {
        v.push(s);
        proof {
            assert(strs(v@) =~= strs(old(v)@) + opt(b, s@));
        }
    } else {
        proof {
            assert(strs(v@) =~= strs(old(v)@) + opt(b, s@));
        }
    }
}

/// Name of a regime as `{:?}` writes it.
pub open spec fn regime_debug(r: Regime) -> Seq<char> {
    match r {
        Regime::TrendingUp => "TrendingUp"@,
        Regime::TrendingDown => "TrendingDown"@,
        Regime::MeanReverting => "MeanReverting"@,
        Regime::HighVolatility => "HighVolatility"@,
        Regime::LowVolatility => "LowVolatility"@,
        Regime::Choppy => "Choppy"@,
    }
}

/// Name of a regime as `{:?}` writes it.
pub fn regime_debug_text(r: Regime) -> (s: String)
    ensures
        s@ == regime_debug(r),
{
    match r {
        Regime::TrendingUp => "TrendingUp".to_owned(),
        Regime::TrendingDown => "TrendingDown".to_owned(),
        Regime::MeanReverting => "MeanReverting".to_owned(),
        Regime::HighVolatility => "HighVolatility".to_owned(),
        Regime::LowVolatility => "LowVolatility".to_owned(),
        Regime::Choppy => "Choppy".to_owned(),
    }
}

/// The parts of an adjustment.
pub open spec fn adj_view(a: Adjustment) -> (AdjustmentType, Seq<char>, Seq<char>, Seq<char>, u8) {
    (a.adjustment_type, a.current_value@, a.suggested_value@, a.reason@, a.priority)
}

/// What worked in a trade with this outcome and entry view.
pub open spec fn worked_of(outcome: TradeOutcome, t: TradeRecord) -> Seq<Seq<char>> {
    let ctx = t.entry_context;
    if outcome == TradeOutcome::Win {
        Seq::<Seq<char>>::empty() + opt(t.ta_agreed, "TA brain signal was correct"@) + opt(
            t.fund_agreed,
            "Fund brain signal was correct"@,
        ) + opt(
            ctx.ta.radar_score.score >= 200,
            "High RADAR score "@ + nat_digits(ctx.ta.radar_score.score as nat)
                + " provided conviction"@,
        ) + opt(dlt(dlit(7, 1), ctx.merged_confidence@), "High confidence entry was justified"@)
    } else {
        Seq::empty()
    }
}

/// What failed in a trade with this outcome and entry view.
pub open spec fn failed_of(outcome: TradeOutcome, t: TradeRecord) -> Seq<Seq<char>> {
    let ctx = t.entry_context;
    if outcome == TradeOutcome::Loss {
        Seq::<Seq<char>>::empty() + opt(!t.ta_agreed, "Entered against TA brain signal"@) + opt(
            !t.fund_agreed,
            "Entered against Fund brain signal"@,
        ) + opt(ctx.is_conflict, "Entered despite brain conflict"@) + opt(
            ctx.ta.radar_score.score < 170,
            "Low RADAR score "@ + nat_digits(ctx.ta.radar_score.score as nat)
                + " should have been skipped"@,
        ) + opt(dlt(ctx.merged_confidence@, dlit(6, 1)), "Low confidence entry resulted in loss"@)
            + opt(ctx.regime == Regime::Choppy, "Traded in choppy regime"@)
    } else {
        Seq::empty()
    }
}

/// Lessons of a trade with this outcome and entry view.
pub open spec fn lessons_of(outcome: TradeOutcome, t: TradeRecord) -> Seq<Seq<char>> {
    let ctx = t.entry_context;
    if outcome == TradeOutcome::Win {
        seq!["Continue trusting this setup pattern"@]
    } else if outcome == TradeOutcome::Loss {
        Seq::<Seq<char>>::empty() + opt(ctx.is_conflict, "Avoid trading when brains disagree"@)
            + opt(dlt(ctx.merged_confidence@, dlit(6, 1)), "Require higher confidence for entries"@)
            + opt(ctx.regime == Regime::Choppy, "Avoid trading in choppy conditions"@) + seq![
            "Review entry criteria for this setup"@,
        ]
    } else {
        seq!["Consider tighter profit targets"@]
    }
}

/// Adjustments suggested by a trade with this outcome and entry view.
pub open spec fn adjustments_of(outcome: TradeOutcome, t: TradeRecord) -> Seq<
    (AdjustmentType, Seq<char>, Seq<char>, Seq<char>, u8),
> {
    if outcome == TradeOutcome::Loss {
        Seq::empty() + opt(
            !t.ta_agreed,
            (AdjustmentType::TAWeight, "0.6"@, "0.65"@, "TA was right, increase weight"@, 3u8),
        ) + opt(
            !t.fund_agreed,
            (AdjustmentType::FundWeight, "0.4"@, "0.45"@, "Fund was right, increase weight"@, 3u8),
        ) + opt(
            t.entry_context.ta.radar_score.score < 170,
            (
                AdjustmentType::RadarThreshold,
                "170"@,
                "180"@,
                "Raise RADAR threshold to filter weak setups"@,
                4u8,
            ),
        )
    } else {
        Seq::empty()
    }
}

/// The adjustment views of a list of adjustments.
pub open spec fn adjs(v: Seq<Adjustment>) -> Seq<(AdjustmentType, Seq<char>, Seq<char>, Seq<char>, u8)> {
    v.map_values(|a: Adjustment| adj_view(a))
}

fn push_adj_if(v: &mut Vec<Adjustment>, b: bool, a: Adjustment)
    ensures
        adjs(final(v)@) == adjs(old(v)@) + opt(b, adj_view(a)),
{
    if b {
        v.push(a);
    }
    proof {
        assert(adjs(v@) =~= adjs(old(v)@) + opt(b, adj_view(a)));
    }
}

fn adjustment(kind: AdjustmentType, current: &str, suggested: &str, reason: &str, priority: u8) -> (r: Adjustment)
    ensures
        adj_view(r) == (kind, current@, suggested@, reason@, priority),
{
    Adjustment {
        adjustment_type: kind,
        current_value: current.to_owned(),
        suggested_value: suggested.to_owned(),
        reason: reason.to_owned(),
        priority,
    }
}

/// Copy of a list of strings.
pub fn copy_strings(v: &Vec<String>) -> (r: Vec<String>)
    ensures
        strs(r@) == strs(v@),
{
    let mut out: Vec<String> = Vec::new();
    let mut i: usize = 0;
    while i < v.len()
        invariant
            i <= v.len(),
            strs(out@) == strs(v@).take(i as int),
        decreases v.len() - i,
    {
        let s = v[i].clone();
        assert(s@ == v@[i as int]@);
        let ghost before = out@;
        out.push(s);
        proof {
            assert(strs(out@) =~= strs(before).push(s@));
            assert(strs(v@).take(i + 1) =~= strs(v@).take(i as int).push(v@[i as int]@));
        }
        i = i + 1;
    }
    proof {
        assert(strs(v@).take(i as int) =~= strs(v@));
    }
    out
}

/// Copy of a list of adjustments.
fn copy_adjustments(v: &Vec<Adjustment>) -> (r: Vec<Adjustment>)
    ensures
        adjs(r@) == adjs(v@),
{
    let mut out: Vec<Adjustment> = Vec::new();
    let mut i: usize = 0;
    while i < v.len()
        invariant
            i <= v.len(),
            adjs(out@) == adjs(v@).take(i as int),
        decreases v.len() - i,
    {
        let a = &v[i];
        let c = adjustment(
            a.adjustment_type,
            a.current_value.as_str(),
            a.suggested_value.as_str(),
            a.reason.as_str(),
            a.priority,
        );
        let ghost before = out@;
        out.push(c);
        proof {
            assert(adjs(out@) =~= adjs(before).push(adj_view(c)));
            assert(adjs(v@).take(i + 1) =~= adjs(v@).take(i as int).push(adj_view(v@[i as int])));
        }
        i = i + 1;
    }
    proof {
        assert(adjs(v@).take(i as int) =~= adjs(v@));
    }
    out
}

/// Confidence of a reflection: 0.8 when it names at least three things
/// that worked or failed, else 0.5.
pub open spec fn reflection_confidence(worked: int, failed: int) -> (int, int) {
    if worked + failed >= 3 {
        dlit(8, 1)
    } else {
        dlit(5, 1)
    }
}

/// `r` is the reflection on trade `t` (at any time).
pub open spec fn reflects(r: Reflection, t: TradeRecord) -> bool {
    let outcome = match t.outcome {
        Some(o) => o,
        None => TradeOutcome::Breakeven,
    };
    &&& r.trade_id@ == t.id@
    &&& r.symbol@ == t.symbol@
    &&& r.outcome == outcome
    &&& strs(r.what_worked@) == worked_of(outcome, t)
    &&& strs(r.what_failed@) == failed_of(outcome, t)
    &&& strs(r.lessons@) == lessons_of(outcome, t)
    &&& adjs(r.adjustments@) == adjustments_of(outcome, t)
    &&& r.confidence@ == reflection_confidence(
        worked_of(outcome, t).len() as int,
        failed_of(outcome, t).len() as int,
    )
}

/// `b` says the same as `a`: equal texts, outcome, confidence and time.
pub open spec fn same_reflection(a: Reflection, b: Reflection) -> bool {
    &&& a.trade_id@ == b.trade_id@
    &&& a.symbol@ == b.symbol@
    &&& a.timestamp == b.timestamp
    &&& a.outcome == b.outcome
    &&& strs(a.what_worked@) == strs(b.what_worked@)
    &&& strs(a.what_failed@) == strs(b.what_failed@)
    &&& strs(a.lessons@) == strs(b.lessons@)
    &&& adjs(a.adjustments@) == adjs(b.adjustments@)
    &&& a.confidence == b.confidence
}

impl Reflection {
    /// A copy of this reflection.
    pub fn duplicate(&self) -> (r: Reflection)
        ensures
            same_reflection(r, *self),
    {
        Reflection {
            trade_id: self.trade_id.clone(),
            symbol: self.symbol.clone(),
            timestamp: self.timestamp,
            outcome: self.outcome,
            what_worked: copy_strings(&self.what_worked),
            what_failed: copy_strings(&self.what_failed),
            lessons: copy_strings(&self.lessons),
            adjustments: copy_adjustments(&self.adjustments),
            confidence: self.confidence,
        }
    }
}

/// The mistake a losing trade shows, checked in order: a conflict between
/// the brains, a merged confidence under 50%, a choppy regime, whales
/// selling (sentiment under -0.5), a RADAR score under 140.  Gives the
/// kind, description, rule to avoid it and severity.
pub open spec fn mistake_of(t: TradeRecord) -> Option<(MistakeType, Seq<char>, Seq<char>, u8)> {
    let ctx = t.entry_context;
    if ctx.is_conflict {
        Some(
            (
                MistakeType::IgnoredConflict,
                "Entered trade despite brain conflict"@,
                "DO NOT trade when TA and Fund brains disagree"@,
                4u8,
            ),
        )
    } else if dlt(ctx.merged_confidence@, dlit(5, 1)) {
        Some(
            (
                MistakeType::LowConfidence,
                "Entered with only "@ + decimal_text_dp(dmul(ctx.merged_confidence@, dint(100)), 0)
                    + "% confidence"@,
                "Require minimum 60% confidence for entries"@,
                3u8,
            ),
        )
    } else if ctx.regime == Regime::Choppy {
        Some(
            (
                MistakeType::ChoppyRegime,
                "Traded in choppy market regime"@,
                "Avoid trading when regime is CHOPPY"@,
                4u8,
            ),
        )
    } else if dlt(ctx.fund.whale_sentiment@, dlit(-5, 1)) {
        Some(
            (
                MistakeType::IgnoredWhaleSelling,
                "Went long despite whale selling pressure"@,
                "Do not long when whale sentiment < -0.5"@,
                3u8,
            ),
        )
    } else if ctx.ta.radar_score.score < 140 {
        Some(
            (
                MistakeType::LowConfidence,
                "RADAR score "@ + nat_digits(ctx.ta.radar_score.score as nat) + " was too low"@,
                "Skip trades with RADAR < 140"@,
                3u8,
            ),
        )
    } else {
        None
    }
}

/// `m` records mistake `k` of trade `t` with the conditions at its entry.
pub open spec fn records_mistake(m: Mistake, t: TradeRecord, k: (MistakeType, Seq<char>, Seq<char>, u8)) -> bool {
    let ctx = t.entry_context;
    &&& m.symbol@ == t.symbol@
    &&& m.mistake_type == k.0
    &&& m.description@ == k.1
    &&& m.avoid_rule@ == k.2
    &&& m.severity == k.3
    &&& m.conditions.radar_score == Some(ctx.ta.radar_score.score)
    &&& m.conditions.pulse_tier == Some(ctx.ta.pulse_signal.tier)
    &&& m.conditions.regime matches Some(g) && g@ == regime_debug(ctx.regime)
    &&& m.conditions.ta_sentiment == Some(ctx.ta.overall_sentiment)
    &&& m.conditions.fund_sentiment == Some(ctx.fund.overall_sentiment)
    &&& m.conditions.was_conflict == ctx.is_conflict
    &&& m.conditions.confidence == Some(ctx.merged_confidence)
}

/// Counts and sums over the closed trades of a list: closed trades, wins,
/// losses, total profit, profit of wins, profit of losses (signed), trades
/// where the technical brain's agreement matched a win, and the same for
/// the fundamental brain.
pub open spec fn tally(s: Seq<TradeRecord>) -> (nat, nat, nat, (int, int), (int, int), (int, int), nat, nat)
    decreases s.len(),
{
    if s.len() == 0 {
        (0, 0, 0, dint(0), dint(0), dint(0), 0, 0)
    } else {
        let p = tally(s.drop_last());
        let t = s.last();
        match t.outcome {
            None => p,
            Some(o) => {
                let win = o == TradeOutcome::Win;
                let loss = o == TradeOutcome::Loss;
                let pnl = match t.pnl_usd {
                    Some(x) => x@,
                    None => dint(0),
                };
                let has = t.pnl_usd is Some;
                (
                    p.0 + 1,
                    p.1 + if win {
                        1nat
                    } else {
                        0nat
                    },
                    p.2 + if loss {
                        1nat
                    } else {
                        0nat
                    },
                    if has {
                        dadd(p.3, pnl)
                    } else {
                        p.3
                    },
                    if has && win {
                        dadd(p.4, pnl)
                    } else {
                        p.4
                    },
                    if has && loss {
                        dadd(p.5, pnl)
                    } else {
                        p.5
                    },
                    p.6 + if t.ta_agreed == win {
                        1nat
                    } else {
                        0nat
                    },
                    p.7 + if t.fund_agreed == win {
                        1nat
                    } else {
                        0nat
                    },
                )
            },
        }
    }
}

proof fn lemma_tally_bounded(s: Seq<TradeRecord>)
    ensures
        tally(s).0 <= s.len(),
        tally(s).1 <= tally(s).0,
        tally(s).2 <= tally(s).0,
        tally(s).6 <= tally(s).0,
        tally(s).7 <= tally(s).0,
    decreases s.len(),
{
    if s.len() > 0 {
        lemma_tally_bounded(s.drop_last());
    }
}

proof fn lemma_tally_positive(s: Seq<TradeRecord>, i: int)
    requires
        0 <= i < s.len(),
        s[i].outcome is Some,
    ensures
        tally(s).0 > 0,
    decreases s.len(),
{
    if i < s.len() - 1 {
        lemma_tally_positive(s.drop_last(), i);
    }
}

/// `st` holds the statistics of the closed trades in `s`, keeping the
/// drawdown of `before`.
pub open spec fn stats_of(st: PerformanceStats, s: Seq<TradeRecord>, before: PerformanceStats) -> bool {
    let t = tally(s);
    let losing = dabs(t.5);
    &&& st.total_trades == t.0
    &&& st.wins == t.1
    &&& st.losses == t.2
    &&& st.win_rate@ == ddiv(dint(t.1 as int), dint(t.0 as int))
    &&& st.total_pnl@ == t.3
    &&& st.avg_win@ == if t.1 > 0 {
        ddiv(t.4, dint(t.1 as int))
    } else {
        dint(0)
    }
    &&& st.avg_loss@ == if t.2 > 0 {
        ddiv(losing, dint(t.2 as int))
    } else {
        dint(0)
    }
    &&& st.profit_factor@ == if dlt(dint(0), losing) {
        ddiv(t.4, losing)
    } else if dlt(dint(0), t.4) {
        dint(999)
    } else {
        dint(1)
    }
    &&& st.max_drawdown == before.max_drawdown
    &&& st.sharpe_ratio@ == dint(0)
    &&& st.ta_accuracy@ == ddiv(dint(t.6 as int), dint(t.0 as int))
    &&& st.fund_accuracy@ == ddiv(dint(t.7 as int), dint(t.0 as int))
    &&& st.best_setup is None
    &&& st.worst_setup is None
}

/// Outcome of a trade closed with this percentage: a win above 0.5%, a loss
/// below -0.5%, else breakeven.
pub open spec fn outcome_of(pnl_pct: (int, int)) -> TradeOutcome {
    if dlt(dlit(5, 1), pnl_pct) {
        TradeOutcome::Win
    } else if dlt(pnl_pct, dlit(-5, 1)) {
        TradeOutcome::Loss
    } else {
        TradeOutcome::Breakeven
    }
}

/// Index of the first trade with this id.
pub open spec fn first_with_id(s: Seq<TradeRecord>, id: Seq<char>) -> Option<int> {
    if exists|i: int| 0 <= i < s.len() && (#[trigger] s[i]).id@ == id {
        let i = choose|i: int|
            0 <= i < s.len() && (#[trigger] s[i]).id@ == id && forall|j: int|
                0 <= j < i ==> (#[trigger] s[j]).id@ != id;
        Some(i)
    } else {
        None
    }
}

/// Self-learning system over recorded trades.
pub struct ReflectSystem {
    data_dir: String,
    trades: Vec<TradeRecord>,
    reflections: Vec<Reflection>,
    mistakes: Vec<Mistake>,
    stats: PerformanceStats,
    consensus_engine: Option<ConsensusEngine>,
}

/// The consensus engine, when there is one, keeps its recent counts bounded.
pub open spec fn engine_ok(e: Option<ConsensusEngine>) -> bool {
    match e {
        Some(eng) => eng.recent_bounded(),
        None => true,
    }
}

/// The engine can count one more outcome for each brain.
pub open spec fn engine_room(e: Option<ConsensusEngine>) -> bool {
    match e {
        Some(eng) => {
            &&& eng.performance().0.wins + eng.performance().0.losses < u32::MAX
            &&& eng.performance().1.wins + eng.performance().1.losses < u32::MAX
        },
        None => true,
    }
}

impl ReflectSystem {
    /// The directory the records are kept in.
    pub closed spec fn dir(&self) -> Seq<char> {
        self.data_dir@
    }

    /// The recorded trades, in order of entry.
    pub closed spec fn trades(&self) -> Seq<TradeRecord> {
        self.trades@
    }

    /// The reflections, oldest first.
    pub closed spec fn reflections(&self) -> Seq<Reflection> {
        self.reflections@
    }

    /// The recorded mistakes, oldest first.
    pub closed spec fn mistakes(&self) -> Seq<Mistake> {
        self.mistakes@
    }

    /// The performance statistics.
    pub closed spec fn stats(&self) -> PerformanceStats {
        self.stats
    }

    /// The consensus engine whose weights the outcomes update, if any.
    pub closed spec fn engine(&self) -> Option<ConsensusEngine> {
        self.consensus_engine
    }

    /// An empty system over a data directory.
    pub fn new(data_dir: &str) -> (r: ReflectSystem)
        ensures
            r.dir() == data_dir@,
            r.trades().len() == 0,
            r.reflections().len() == 0,
            r.mistakes().len() == 0,
            r.engine() is None,
            is_initial_stats(r.stats()),
    {
        ReflectSystem {
            data_dir: data_dir.to_owned(),
            trades: Vec::new(),
            reflections: Vec::new(),
            mistakes: Vec::new(),
            stats: PerformanceStats::default(),
            consensus_engine: None,
        }
    }

    /// A system over records loaded from its data directory.
    pub fn from_records(
        data_dir: &str,
        trades: Vec<TradeRecord>,
        reflections: Vec<Reflection>,
        mistakes: Vec<Mistake>,
        stats: PerformanceStats,
    ) -> (r: ReflectSystem)
        ensures
            r.dir() == data_dir@,
            r.trades() == trades@,
            r.reflections() == reflections@,
            r.mistakes() == mistakes@,
            r.stats() == stats,
            r.engine() is None,
    {
        ReflectSystem {
            data_dir: data_dir.to_owned(),
            trades,
            reflections,
            mistakes,
            stats,
            consensus_engine: None,
        }
    }

    /// The data directory.
    pub fn data_dir(&self) -> (r: &str)
        ensures
            r@ == self.dir(),
    {
        self.data_dir.as_str()
    }

    /// Let trade outcomes adapt this consensus engine's weights.
    pub fn set_consensus_engine(&mut self, engine: ConsensusEngine)
        ensures
            final(self).engine() == Some(engine),
            final(self).trades() == old(self).trades(),
            final(self).reflections() == old(self).reflections(),
            final(self).mistakes() == old(self).mistakes(),
            final(self).stats() == old(self).stats(),
            final(self).dir() == old(self).dir(),
    {
        self.consensus_engine = Some(engine);
    }

    /// Record a new trade entry.
    pub fn record_entry(&mut self, trade: TradeRecord)
        ensures
            final(self).trades() == old(self).trades().push(trade),
            final(self).reflections() == old(self).reflections(),
            final(self).mistakes() == old(self).mistakes(),
            final(self).stats() == old(self).stats(),
            final(self).engine() == old(self).engine(),
            final(self).dir() == old(self).dir(),
    {
        self.trades.push(trade);
    }

    /// Reflect on a trade: what worked in a win, what failed in a loss, the
    /// lessons and the suggested adjustments.
    fn generate_reflection(&self, trade: &TradeRecord) -> (r: Reflection)
        ensures
            reflects(r, *trade),
    {
        let outcome = match trade.outcome {
            Some(o) => o,
            None => TradeOutcome::Breakeven,
        };
        let ctx = &trade.entry_context;
        let score = ctx.ta.radar_score.score;
        let mut what_worked: Vec<String> = Vec::new();
        let mut what_failed: Vec<String> = Vec::new();
        let mut lessons: Vec<String> = Vec::new();
        let mut adjustments: Vec<Adjustment> = Vec::new();
        proof {
            assert(strs(what_worked@) =~= Seq::<Seq<char>>::empty());
            assert(strs(what_failed@) =~= Seq::<Seq<char>>::empty());
            assert(strs(lessons@) =~= Seq::<Seq<char>>::empty());
            assert(adjs(adjustments@) =~= Seq::empty());
        }
        match outcome {
            TradeOutcome::Win => {
                push_if(&mut what_worked, trade.ta_agreed, "TA brain signal was correct".to_owned());
                push_if(&mut what_worked, trade.fund_agreed, "Fund brain signal was correct".to_owned());
                let mut high = "High RADAR score ".to_owned();
                high.append(nat_text(score as u64).as_str());
                high.append(" provided conviction");
                push_if(&mut what_worked, score >= 200, high);
                push_if(
                    &mut what_worked,
                    Dec::new(7, 1).lt(&ctx.merged_confidence),
                    "High confidence entry was justified".to_owned(),
                );
                lessons.push("Continue trusting this setup pattern".to_owned());
                proof {
                    assert(strs(lessons@) =~= seq!["Continue trusting this setup pattern"@]);
                }
            },
            TradeOutcome::Loss => {
                push_if(&mut what_failed, !trade.ta_agreed, "Entered against TA brain signal".to_owned());
                push_adj_if(
                    &mut adjustments,
                    !trade.ta_agreed,
                    adjustment(AdjustmentType::TAWeight, "0.6", "0.65", "TA was right, increase weight", 3),
                );
                push_if(
                    &mut what_failed,
                    !trade.fund_agreed,
                    "Entered against Fund brain signal".to_owned(),
                );
                push_adj_if(
                    &mut adjustments,
                    !trade.fund_agreed,
                    adjustment(
                        AdjustmentType::FundWeight,
                        "0.4",
                        "0.45",
                        "Fund was right, increase weight",
                        3,
                    ),
                );
                push_if(&mut what_failed, ctx.is_conflict, "Entered despite brain conflict".to_owned());
                push_if(&mut lessons, ctx.is_conflict, "Avoid trading when brains disagree".to_owned());
                let mut low = "Low RADAR score ".to_owned();
                low.append(nat_text(score as u64).as_str());
                low.append(" should have been skipped");
                push_if(&mut what_failed, score < 170, low);
                push_adj_if(
                    &mut adjustments,
                    score < 170,
                    adjustment(
                        AdjustmentType::RadarThreshold,
                        "170",
                        "180",
                        "Raise RADAR threshold to filter weak setups",
                        4,
                    ),
                );
                let low_conf = ctx.merged_confidence.lt(&Dec::new(6, 1));
                push_if(&mut what_failed, low_conf, "Low confidence entry resulted in loss".to_owned());
                push_if(&mut lessons, low_conf, "Require higher confidence for entries".to_owned());
                let choppy = ctx.regime == Regime::Choppy;
                push_if(&mut what_failed, choppy, "Traded in choppy regime".to_owned());
                push_if(&mut lessons, choppy, "Avoid trading in choppy conditions".to_owned());
                push_if(&mut lessons, true, "Review entry criteria for this setup".to_owned());
            },
            TradeOutcome::Breakeven => {
                lessons.push("Consider tighter profit targets".to_owned());
                proof {
                    assert(strs(lessons@) =~= seq!["Consider tighter profit targets"@]);
                }
            },
        }
        let confidence = if what_worked.len() + what_failed.len() >= 3 {
            Dec::new(8, 1)
        } else {
            Dec::new(5, 1)
        };
        Reflection {
            trade_id: trade.id.clone(),
            symbol: trade.symbol.clone(),
            timestamp: now_secs(),
            outcome,
            what_worked,
            what_failed,
            lessons,
            adjustments,
            confidence,
        }
    }

    /// The mistake a losing trade shows, if any (see `mistake_of`).
    fn detect_mistake(&self, trade: &TradeRecord) -> (r: Option<Mistake>)
        ensures
            match (r, mistake_of(*trade)) {
                (Some(m), Some(k)) => records_mistake(m, *trade, k),
                (None, None) => true,
                _ => false,
            },
    {
        let ctx = &trade.entry_context;
        let score = ctx.ta.radar_score.score;
        let (mistake_type, description, avoid_rule, severity): (MistakeType, String, String, u8) =
            if ctx.is_conflict {
            (
                MistakeType::IgnoredConflict,
                "Entered trade despite brain conflict".to_owned(),
                "DO NOT trade when TA and Fund brains disagree".to_owned(),
                4,
            )
        } else if ctx.merged_confidence.lt(&Dec::new(5, 1)) {
            let mut d = "Entered with only ".to_owned();
            d.append(ctx.merged_confidence.mul(Dec::from_u64(100)).to_text_dp(0).as_str());
            d.append("% confidence");
            (MistakeType::LowConfidence, d, "Require minimum 60% confidence for entries".to_owned(), 3)
        } else if ctx.regime == Regime::Choppy {
            (
                MistakeType::ChoppyRegime,
                "Traded in choppy market regime".to_owned(),
                "Avoid trading when regime is CHOPPY".to_owned(),
                4,
            )
        } else if ctx.fund.whale_sentiment.lt(&Dec::new(-5, 1)) {
            (
                MistakeType::IgnoredWhaleSelling,
                "Went long despite whale selling pressure".to_owned(),
                "Do not long when whale sentiment < -0.5".to_owned(),
                3,
            )
        } else if score < 140 {
            let mut d = "RADAR score ".to_owned();
            d.append(nat_text(score as u64).as_str());
            d.append(" was too low");
            (MistakeType::LowConfidence, d, "Skip trades with RADAR < 140".to_owned(), 3)
        } else {
            return None;
        };
        Some(
            Mistake {
                timestamp: now_secs(),
                symbol: trade.symbol.clone(),
                mistake_type,
                description,
                conditions: MistakeConditions {
                    radar_score: Some(score),
                    pulse_tier: Some(ctx.ta.pulse_signal.tier),
                    regime: Some(regime_debug_text(ctx.regime)),
                    ta_sentiment: Some(ctx.ta.overall_sentiment),
                    fund_sentiment: Some(ctx.fund.overall_sentiment),
                    was_conflict: ctx.is_conflict,
                    confidence: Some(ctx.merged_confidence),
                },
                avoid_rule,
                severity,
            },
        )
    }

    /// Recompute the statistics over the closed trades; without closed
    /// trades they stay as they are.
    fn update_stats(&mut self)
        requires
            old(self).trades().len() <= u32::MAX,
        ensures
            final(self).trades() == old(self).trades(),
            final(self).reflections() == old(self).reflections(),
            final(self).mistakes() == old(self).mistakes(),
            final(self).engine() == old(self).engine(),
            final(self).dir() == old(self).dir(),
            tally(old(self).trades()).0 == 0 ==> final(self).stats() == old(self).stats(),
            tally(old(self).trades()).0 > 0 ==> stats_of(
                final(self).stats(),
                old(self).trades(),
                old(self).stats(),
            ),
    {
        let mut total: u32 = 0;
        let mut wins: u32 = 0;
        let mut losses: u32 = 0;
        let mut total_pnl = Dec::zero();
        let mut winning = Dec::zero();
        let mut losing_sum = Dec::zero();
        let mut ta_correct: u32 = 0;
        let mut fund_correct: u32 = 0;
        let mut i: usize = 0;
        while i < self.trades.len()
            invariant
                i <= self.trades.len() <= u32::MAX,
                (total as nat, wins as nat, losses as nat, total_pnl@, winning@, losing_sum@, ta_correct
                    as nat, fund_correct as nat) == tally(self.trades@.take(i as int)),
                total <= i,
                wins <= total,
                losses <= total,
                ta_correct <= total,
                fund_correct <= total,
            decreases self.trades.len() - i,
        {
            proof {
                assert(self.trades@.take(i + 1).drop_last() =~= self.trades@.take(i as int));
                lemma_tally_bounded(self.trades@.take(i as int));
            }
            let t = &self.trades[i];
            match t.outcome {
                Some(o) => {
                    let win = o == TradeOutcome::Win;
                    let loss = o == TradeOutcome::Loss;
                    total = total + 1;
                    if win {
                        wins = wins + 1;
                    }
                    if loss {
                        losses = losses + 1;
                    }
                    match t.pnl_usd {
                        Some(p) => {
                            total_pnl = total_pnl.add(p);
                            if win {
                                winning = winning.add(p);
                            }
                            if loss {
                                losing_sum = losing_sum.add(p);
                            }
                        },
                        None => {},
                    }
                    if t.ta_agreed == win {
                        ta_correct = ta_correct + 1;
                    }
                    if t.fund_agreed == win {
                        fund_correct = fund_correct + 1;
                    }
                },
                None => {},
            }
            i = i + 1;
        }
        proof {
            assert(self.trades@.take(i as int) =~= self.trades@);
        }
        if total == 0 {
            return;
        }
        let total_d = Dec::from_u64(total as u64);
        let win_rate = Dec::from_u64(wins as u64).div(total_d);
        let losing = losing_sum.abs();
        let avg_win = if wins > 0 {
            winning.div(Dec::from_u64(wins as u64))
        } else {
            Dec::zero()
        };
        let avg_loss = if losses > 0 {
            losing.div(Dec::from_u64(losses as u64))
        } else {
            Dec::zero()
        };
        let profit_factor = if Dec::zero().lt(&losing) {
            proof {
                crate::decimal::lemma_units_sign(dint(0));
            }
            winning.div(losing)
        } else if Dec::zero().lt(&winning) {
            Dec::from_u64(999)
        } else {
            Dec::one()
        };
        let ta_accuracy = Dec::from_u64(ta_correct as u64).div(total_d);
        let fund_accuracy = Dec::from_u64(fund_correct as u64).div(total_d);
        self.stats = PerformanceStats {
            total_trades: total,
            wins,
            losses,
            win_rate,
            total_pnl,
            avg_win,
            avg_loss,
            profit_factor,
            max_drawdown: self.stats.max_drawdown,
            sharpe_ratio: Dec::zero(),
            ta_accuracy,
            fund_accuracy,
            best_setup: None,
            worst_setup: None,
        };
    }

    /// Close the first trade with this id: record its exit, reflect on it,
    /// recompute the statistics, let the consensus engine learn from the
    /// outcome, record the mistake a loss shows, and return the reflection.
    /// `None` when no trade has this id.
    pub fn record_exit(&mut self, trade_id: &str, exit_price: Dec, pnl_usd: Dec, pnl_pct: Dec) -> (r:
        Option<Reflection>)
        requires
            old(self).trades().len() <= u32::MAX,
            engine_ok(old(self).engine()),
            engine_room(old(self).engine()),
        ensures
            final(self).dir() == old(self).dir(),
            engine_ok(final(self).engine()),
            match first_with_id(old(self).trades(), trade_id@) {
                None => {
                    &&& r is None
                    &&& final(self).trades() == old(self).trades()
                    &&& final(self).reflections() == old(self).reflections()
                    &&& final(self).mistakes() == old(self).mistakes()
                    &&& final(self).stats() == old(self).stats()
                    &&& final(self).engine() == old(self).engine()
                },
                Some(i) => {
                    let outcome = outcome_of(pnl_pct@);
                    let before = old(self).trades()[i];
                    let after = final(self).trades()[i];
                    &&& final(self).trades().len() == old(self).trades().len()
                    &&& forall|j: int|
                        0 <= j < old(self).trades().len() && j != i ==> (#[trigger] final(
                            self).trades()[j]) == old(self).trades()[j]
                    &&& after.exit_time is Some
                    &&& after == TradeRecord {
                        exit_time: after.exit_time,
                        exit_price: Some(exit_price),
                        pnl_usd: Some(pnl_usd),
                        pnl_pct: Some(pnl_pct),
                        outcome: Some(outcome),
                        ..before
                    }
                    &&& r matches Some(refl) && reflects(refl, after)
                    &&& final(self).reflections().len() == old(self).reflections().len() + 1
                    &&& final(self).reflections().drop_last() == old(self).reflections()
                    &&& same_reflection(final(self).reflections().last(), r->0)
                    &&& stats_of(final(self).stats(), final(self).trades(), old(self).stats())
                    &&& (outcome == TradeOutcome::Loss && mistake_of(after) is Some) ==> {
                        &&& final(self).mistakes().len() == old(self).mistakes().len() + 1
                        &&& final(self).mistakes().drop_last() == old(self).mistakes()
                        &&& records_mistake(
                            final(self).mistakes().last(),
                            after,
                            mistake_of(after)->0,
                        )
                    }
                    &&& !(outcome == TradeOutcome::Loss && mistake_of(after) is Some) ==> final(
                        self).mistakes() == old(self).mistakes()
                    &&& match (old(self).engine(), final(self).engine()) {
                        (None, None) => true,
                        (Some(e0), Some(e1)) => {
                            &&& e1.config_spec() == e0.config_spec()
                            &&& (before.ta_agreed ==> recorded(
                                e0.performance().0,
                                e1.performance().0,
                                outcome == TradeOutcome::Win,
                            ))
                            &&& (!before.ta_agreed ==> e1.performance().0 == e0.performance().0)
                            &&& (before.fund_agreed ==> recorded(
                                e0.performance().1,
                                e1.performance().1,
                                outcome == TradeOutcome::Win,
                            ))
                            &&& (!before.fund_agreed ==> e1.performance().1 == e0.performance().1)
                        },
                        _ => false,
                    }
                },
            },
    {
        let mut idx: usize = 0;
        while idx < self.trades.len()
            invariant
                idx <= self.trades.len(),
                forall|j: int| 0 <= j < idx ==> (#[trigger] self.trades@[j]).id@ != trade_id@,
            ensures
                idx <= self.trades.len(),
                forall|j: int| 0 <= j < idx ==> (#[trigger] self.trades@[j]).id@ != trade_id@,
                idx < self.trades.len() ==> self.trades@[idx as int].id@ == trade_id@,
            decreases self.trades.len() - idx,
        {
            if crate::text::str_eq(self.trades[idx].id.as_str(), trade_id) {
                break;
            }
            idx = idx + 1;
        }
        if idx == self.trades.len() {
            proof {
                assert(!exists|i: int|
                    0 <= i < self.trades@.len() && (#[trigger] self.trades@[i]).id@ == trade_id@);
            }
            return None;
        }
        proof {
            assert(self.trades@[idx as int].id@ == trade_id@);
            let i = first_with_id(self.trades@, trade_id@)->0;
            assert(i == idx) by {
                if i < idx {
                    assert(self.trades@[i].id@ != trade_id@);
                }
                if idx < i {
                    assert(self.trades@[idx as int].id@ != trade_id@);
                }
            }
        }
        let outcome = if Dec::new(5, 1).lt(&pnl_pct) {
            TradeOutcome::Win
        } else if pnl_pct.lt(&Dec::new(-5, 1)) {
            TradeOutcome::Loss
        } else {
            TradeOutcome::Breakeven
        };
        let ghost old_trades = self.trades@;
        let mut trade = self.trades.remove(idx);
        trade.exit_time = Some(now_secs());
        trade.exit_price = Some(exit_price);
        trade.pnl_usd = Some(pnl_usd);
        trade.pnl_pct = Some(pnl_pct);
        trade.outcome = Some(outcome);
        let ta_agreed = trade.ta_agreed;
        let fund_agreed = trade.fund_agreed;
        self.trades.insert(idx, trade);
        proof {
            assert forall|j: int|
                0 <= j < old_trades.len() && j != idx implies (#[trigger] self.trades@[j])
                == old_trades[j] by {
                if j < idx {
                } else {
                }
            }
        }
        let reflection = self.generate_reflection(&self.trades[idx]);
        proof {
            lemma_tally_positive(self.trades@, idx as int);
        }
        self.update_stats();
        let engine = self.consensus_engine.take();
        match engine {
            Some(mut e) => {
                e.record_outcome(ta_agreed, fund_agreed, outcome == TradeOutcome::Win);
                self.consensus_engine = Some(e);
            },
            None => {},
        }
        if outcome == TradeOutcome::Loss {
            let m = self.detect_mistake(&self.trades[idx]);
            match m {
                Some(mistake) => self.mistakes.push(mistake),
                None => {},
            }
        }
        let copy = reflection.duplicate();
        self.reflections.push(reflection);
        proof {
            assert(self.reflections@.drop_last() =~= old(self).reflections@);
        }
        Some(copy)
    }

    /// The statistics.
    pub fn get_stats(&self) -> (r: &PerformanceStats)
        ensures
            *r == self.stats(),
    {
        &self.stats
    }

    /// The latest `count` reflections, newest first.
    pub fn get_recent_reflections(&self, count: usize) -> (r: Vec<&Reflection>)
        ensures
            r.len() == if count < self.reflections().len() {
                count as int
            } else {
                self.reflections().len() as int
            },
            forall|k: int|
                0 <= k < r.len() ==> *(#[trigger] r@[k]) == self.reflections()[self.reflections().len()
                    - 1 - k],
    {
        let n = self.reflections.len();
        let mut out: Vec<&Reflection> = Vec::new();
        let mut k: usize = 0;
        while k < count && k < n
            invariant
                n == self.reflections.len(),
                k <= n,
                k <= count,
                out.len() == k,
                forall|j: int|
                    0 <= j < k ==> *(#[trigger] out@[j]) == self.reflections@[n - 1 - j],
            decreases n - k,
        {
            out.push(&self.reflections[n - 1 - k]);
            k = k + 1;
        }
        out
    }

    /// The recorded mistakes.
    pub fn get_mistakes(&self) -> (r: &Vec<Mistake>)
        ensures
            r@ == self.mistakes(),
    {
        &self.mistakes
    }

    /// The rules the recorded mistakes teach, in order.
    pub fn get_avoid_rules(&self) -> (r: Vec<String>)
        ensures
            strs(r@) == self.mistakes().map_values(|m: Mistake| m.avoid_rule@),
    {
        let mut out: Vec<String> = Vec::new();
        let mut i: usize = 0;
        while i < self.mistakes.len()
            invariant
                i <= self.mistakes.len(),
                strs(out@) == self.mistakes@.map_values(|m: Mistake| m.avoid_rule@).take(i as int),
            decreases self.mistakes.len() - i,
        {
            let s = self.mistakes[i].avoid_rule.clone();
            let ghost before = out@;
            out.push(s);
            proof {
                assert(strs(out@) =~= strs(before).push(s@));
                assert(self.mistakes@.map_values(|m: Mistake| m.avoid_rule@).take(i + 1)
                    =~= self.mistakes@.map_values(|m: Mistake| m.avoid_rule@).take(i as int).push(
                    self.mistakes@[i as int].avoid_rule@,
                ));
            }
            i = i + 1;
        }
        proof {
            assert(self.mistakes@.map_values(|m: Mistake| m.avoid_rule@).take(i as int)
                =~= self.mistakes@.map_values(|m: Mistake| m.avoid_rule@));
        }
        out
    }
}

/// A recorded mistake matches a context when it happened in the same
/// regime, or both show a conflict, or both had a confidence under 60%.
pub open spec fn mistake_matches(m: Mistake, ctx: MergedContext) -> bool {
    ||| (m.conditions.regime matches Some(g) && g@ == regime_debug(ctx.regime))
    ||| (m.conditions.was_conflict && ctx.is_conflict)
    ||| (m.conditions.confidence matches Some(c) && dlt(c@, dlit(6, 1)) && dlt(
        ctx.merged_confidence@,
        dlit(6, 1),
    ))
}

impl ReflectSystem {
    /// The first recorded mistake whose conditions match the context.
    pub fn check_mistake_pattern(&self, context: &MergedContext) -> (r: Option<&Mistake>)
        ensures
            match r {
                Some(m) => exists|i: int|
                    0 <= i < self.mistakes().len() && *m == self.mistakes()[i] && mistake_matches(
                        *m,
                        *context,
                    ) && forall|j: int|
                        0 <= j < i ==> !mistake_matches(#[trigger] self.mistakes()[j], *context),
                None => forall|j: int|
                    0 <= j < self.mistakes().len() ==> !mistake_matches(
                        #[trigger] self.mistakes()[j],
                        *context,
                    ),
            },
    {
        let regime = regime_debug_text(context.regime);
        let mut i: usize = 0;
        while i < self.mistakes.len()
            invariant
                i <= self.mistakes.len(),
                regime@ == regime_debug(context.regime),
                forall|j: int| 0 <= j < i ==> !mistake_matches(#[trigger] self.mistakes@[j], *context),
            decreases self.mistakes.len() - i,
        {
            let m = &self.mistakes[i];
            let by_regime = match &m.conditions.regime {
                Some(g) => crate::text::str_eq(regime.as_str(), g.as_str()),
                None => false,
            };
            let by_conflict = m.conditions.was_conflict && context.is_conflict;
            let by_confidence = match m.conditions.confidence {
                Some(c) => c.lt(&Dec::new(6, 1)) && context.merged_confidence.lt(&Dec::new(6, 1)),
                None => false,
            };
            if by_regime || by_conflict || by_confidence {
                proof {
                    assert(mistake_matches(self.mistakes@[i as int], *context));
                    assert(0 <= i < self.mistakes().len() && *m == self.mistakes()[i as int]);
                }
                return Some(m);
            }
            i = i + 1;
        }
        None
    }
}

/// Texts as a bulleted list: each on a line of its own after "- ".
pub open spec fn bullets(s: Seq<Seq<char>>) -> Seq<char>
    decreases s.len(),
{
    if s.len() == 0 {
        Seq::empty()
    } else {
        bullets(s.drop_last()) + "- "@ + s.last() + "\n"@
    }
}

/// The lessons of the latest `k` reflections as bullets, newest reflection first.
pub open spec fn recent_lessons(r: Seq<Reflection>, k: nat) -> Seq<char>
    decreases k,
{
    if k == 0 {
        Seq::empty()
    } else {
        recent_lessons(r, (k - 1) as nat) + bullets(strs(r[r.len() - k].lessons@))
    }
}

/// The periodic report: performance summary, lessons of the latest five
/// reflections, and the rules the mistakes teach.
pub open spec fn periodic_report(st: PerformanceStats, r: Seq<Reflection>, m: Seq<Mistake>) -> Seq<char> {
    let k: nat = if r.len() < 5 {
        r.len()
    } else {
        5
    };
    "# REFLECT Periodic Report\n\n"@ + "## Performance Summary\n\n"@ + "- Total Trades: "@ + nat_digits(
        st.total_trades as nat,
    ) + "\n"@ + "- Win Rate: "@ + decimal_text_dp(dmul(st.win_rate@, dint(100)), 1) + "%\n"@
        + "- Total P&L: $"@ + decimal_text_dp(st.total_pnl@, 2) + "\n"@ + "- Profit Factor: "@
        + decimal_text_dp(st.profit_factor@, 2) + "\n"@ + "- TA Accuracy: "@ + decimal_text_dp(
        dmul(st.ta_accuracy@, dint(100)),
        1,
    ) + "%\n"@ + "- Fund Accuracy: "@ + decimal_text_dp(dmul(st.fund_accuracy@, dint(100)), 1)
        + "%\n\n"@ + "## Recent Lessons\n\n"@ + recent_lessons(r, k) + "\n"@
        + "## Active Avoid Rules\n\n"@ + bullets(m.map_values(|x: Mistake| x.avoid_rule@))
}

fn append_bullets(out: &mut String, items: &Vec<String>)
    ensures
        final(out)@ == old(out)@ + bullets(strs(items@)),
{
    let mut i: usize = 0;
    while i < items.len()
        invariant
            i <= items.len(),
            out@ == old(out)@ + bullets(strs(items@).take(i as int)),
        decreases items.len() - i,
    {
        proof {
            assert(strs(items@).take(i + 1).drop_last() =~= strs(items@).take(i as int));
            assert(strs(items@).take(i + 1).last() == items@[i as int]@);
        }
        out.append("- ");
        out.append(items[i].as_str());
        out.append("\n");
        i = i + 1;
    }
    proof {
        assert(strs(items@).take(i as int) =~= strs(items@));
    }
}

impl ReflectSystem {
    /// The periodic report (see `periodic_report`).
    pub fn run_periodic_reflection(&self) -> (r: String)
        ensures
            r@ == periodic_report(self.stats(), self.reflections(), self.mistakes()),
    {
        let hundred = Dec::from_u64(100);
        let st = &self.stats;
        let mut report = "# REFLECT Periodic Report\n\n".to_owned();
        report.append("## Performance Summary\n\n");
        report.append("- Total Trades: ");
        report.append(nat_text(st.total_trades as u64).as_str());
        report.append("\n");
        report.append("- Win Rate: ");
        report.append(st.win_rate.mul(hundred).to_text_dp(1).as_str());
        report.append("%\n");
        report.append("- Total P&L: $");
        report.append(st.total_pnl.to_text_dp(2).as_str());
        report.append("\n");
        report.append("- Profit Factor: ");
        report.append(st.profit_factor.to_text_dp(2).as_str());
        report.append("\n");
        report.append("- TA Accuracy: ");
        report.append(st.ta_accuracy.mul(hundred).to_text_dp(1).as_str());
        report.append("%\n");
        report.append("- Fund Accuracy: ");
        report.append(st.fund_accuracy.mul(hundred).to_text_dp(1).as_str());
        report.append("%\n\n");
        report.append("## Recent Lessons\n\n");
        let ghost head = report@;
        let n = self.reflections.len();
        let mut k: usize = 0;
        while k < 5 && k < n
            invariant
                n == self.reflections.len(),
                k <= n,
                k <= 5,
                report@ == head + recent_lessons(self.reflections@, k as nat),
            decreases n - k,
        {
            append_bullets(&mut report, &self.reflections[n - 1 - k].lessons);
            k = k + 1;
        }
        report.append("\n");
        report.append("## Active Avoid Rules\n\n");
        let rules = self.get_avoid_rules();
        append_bullets(&mut report, &rules);
        report
    }
}

/// What every reflection on a trade satisfies: it carries the trade's id,
/// symbol and outcome (breakeven when the trade has none); its confidence is
/// 0.8 when three or more things worked or failed and 0.5 otherwise; only a
/// loss records failures and adjustments; a breakeven records nothing that
/// worked and the single lesson to consider tighter profit targets.
pub proof fn lemma_reflection_shape(r: Reflection, t: TradeRecord)
    requires
        reflects(r, t),
    ensures
        r.trade_id@ == t.id@,
        r.symbol@ == t.symbol@,
        r.outcome == (match t.outcome {
            Some(o) => o,
            None => TradeOutcome::Breakeven,
        }),
        r.confidence@ == (if r.what_worked@.len() + r.what_failed@.len() >= 3 {
            dlit(8, 1)
        } else {
            dlit(5, 1)
        }),
        r.outcome != TradeOutcome::Loss ==> r.what_failed@.len() == 0 && r.adjustments@.len() == 0,
        r.outcome == TradeOutcome::Breakeven ==> r.what_worked@.len() == 0 && strs(r.lessons@) == seq![
            "Consider tighter profit targets"@,
        ],
{
    assert(strs(r.what_worked@).len() == r.what_worked@.len());
    assert(strs(r.what_failed@).len() == r.what_failed@.len());
    assert(adjs(r.adjustments@).len() == r.adjustments@.len());
}

/// The closed trades: those with an outcome.
pub open spec fn closed_trades(s: Seq<TradeRecord>) -> Seq<TradeRecord> {
    s.filter(|t: TradeRecord| t.outcome is Some)
}

/// The closed trades with this outcome.
pub open spec fn trades_with(s: Seq<TradeRecord>, o: TradeOutcome) -> Seq<TradeRecord> {
    s.filter(|t: TradeRecord| t.outcome == Some(o))
}

/// The closed trades on which the TA brain's agreement matched the result
/// (it agreed and the trade won, or it did not and the trade did not win).
pub open spec fn ta_right(s: Seq<TradeRecord>) -> Seq<TradeRecord> {
    s.filter(|t: TradeRecord| t.outcome is Some && t.ta_agreed == (t.outcome == Some(TradeOutcome::Win)))
}

/// The same for the fundamental brain.
pub open spec fn fund_right(s: Seq<TradeRecord>) -> Seq<TradeRecord> {
    s.filter(|t: TradeRecord| t.outcome is Some && t.fund_agreed == (t.outcome == Some(TradeOutcome::Win)))
}

/// The counts of the tally are those of the closed trades.
proof fn lemma_tally_counts(s: Seq<TradeRecord>)
    ensures
        tally(s).0 == closed_trades(s).len(),
        tally(s).1 == trades_with(s, TradeOutcome::Win).len(),
        tally(s).2 == trades_with(s, TradeOutcome::Loss).len(),
        tally(s).6 == ta_right(s).len(),
        tally(s).7 == fund_right(s).len(),
    decreases s.len(),
{
    reveal_with_fuel(Seq::filter, 1);
    if s.len() > 0 {
        lemma_tally_counts(s.drop_last());
    }
}

/// Statistics recomputed over a list of trades count them as the law says:
/// the closed trades in all, the wins and the losses among them, the win
/// rate as wins over closed trades, each brain's accuracy as the share of
/// closed trades on which its agreement matched the result; the drawdown is
/// kept from before.
pub proof fn lemma_stats_count_closed_trades(st: PerformanceStats, s: Seq<TradeRecord>, before: PerformanceStats)
    requires
        stats_of(st, s, before),
    ensures
        st.total_trades == closed_trades(s).len(),
        st.wins == trades_with(s, TradeOutcome::Win).len(),
        st.losses == trades_with(s, TradeOutcome::Loss).len(),
        st.win_rate@ == ddiv(dint(st.wins as int), dint(st.total_trades as int)),
        st.ta_accuracy@ == ddiv(dint(ta_right(s).len() as int), dint(st.total_trades as int)),
        st.fund_accuracy@ == ddiv(dint(fund_right(s).len() as int), dint(st.total_trades as int)),
        st.max_drawdown == before.max_drawdown,
{
    lemma_tally_counts(s);
}

} // verus!
