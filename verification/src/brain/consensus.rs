//! Consensus layer: merges the technical and fundamental brains with
//! weighted sentiment, conflict detection and adaptive weights.
use crate::brain::fund_brain::{blocks, warns, FundAction, FundBrainOutput};
use crate::brain::ta_brain::{tier_name, PulseDirection, TAAction, TABrainOutput};
use crate::clock::now_secs;
use crate::decimal::{
    dabs, dadd, ddiv, dint, dle, dlit, dlt, dmax, dmin, dmul, dsub, lemma_add_exact_small, lemma_pow10_table, mul_exact,
    pow10, units, Dec, MAX_MANTISSA,
};
use crate::market::Regime;
use crate::text::{join, joined, joined_sep, join_sep, nat_digits, nat_text, debug_list, debug_strings};
use crate::brain::reflect::{regime_debug, regime_debug_text};
use crate::brain::ta_brain::RadarTier;
use crate::brain::fund_brain::SecurityAssessment;
use crate::decimal::decimal_text_dp;
use vstd::prelude::*;

verus! {

/// Consensus action types.
#[derive(Debug, Clone, Copy, PartialEq, Eq, Structural)]
pub enum ConsensusAction {
    /// Long with conviction.
    Long,
    /// Short with conviction.
    Short,
    /// Hold the current position.
    Hold,
    /// Close the existing position.
    Close,
    /// No action.
    Wait,
    /// Blocked by security.
    Blocked,
    /// The brains conflict: debate required.
    Debate,
}

impl ConsensusAction {
    /// Is this a decision to act on?
    pub fn is_actionable(&self) -> (r: bool)
        ensures
            r == (*self == ConsensusAction::Long || *self == ConsensusAction::Short || *self
                == ConsensusAction::Close),
    {
        match self {
            ConsensusAction::Long | ConsensusAction::Short | ConsensusAction::Close => true,
            _ => false,
        }
    }

    /// Does it require a debate?
    pub fn requires_debate(&self) -> (r: bool)
        ensures
            r == (*self == ConsensusAction::Debate),
    {
        match self {
            ConsensusAction::Debate => true,
            _ => false,
        }
    }
}

/// Merged context for the orchestrator; the time is in seconds since the Unix epoch.
#[derive(Debug, Clone)]
pub struct MergedContext {
    pub symbol: String,
    pub chain: String,
    pub ta: TABrainOutput,
    pub fund: FundBrainOutput,
    /// Merged sentiment (-1 to +1).
    pub merged_sentiment: Dec,
    /// Merged confidence (0-1).
    pub merged_confidence: Dec,
    pub consensus_action: ConsensusAction,
    /// Are the brains in conflict?
    pub is_conflict: bool,
    pub conflict_reason: Option<String>,
    /// Position size factor (0-1).
    pub size_factor: Dec,
    pub regime: Regime,
    pub timestamp: i64,
}

/// Consensus engine configuration.
#[derive(Debug, Clone, Copy)]
pub struct ConsensusConfig {
    pub ta_weight: Dec,
    pub fund_weight: Dec,
    /// Minimum confidence to act.
    pub min_confidence: Dec,
    /// Sentiment difference beyond which the brains conflict.
    pub conflict_threshold: Dec,
    pub conflict_reduces_size: bool,
    /// Size multiplier on conflict.
    pub conflict_size_multiplier: Dec,
    pub adaptive_weights: bool,
}

/// The default consensus configuration: weights 0.6 / 0.4, act from a
/// confidence of 0.5, conflict beyond a sentiment gap of 0.5, halve the size
/// on conflict, adapt the weights.
pub open spec fn is_default_consensus_config(c: ConsensusConfig) -> bool {
    &&& c.ta_weight@ == dlit(6, 1)
    &&& c.fund_weight@ == dlit(4, 1)
    &&& c.min_confidence@ == dlit(5, 1)
    &&& c.conflict_threshold@ == dlit(5, 1)
    &&& c.conflict_reduces_size
    &&& c.conflict_size_multiplier@ == dlit(5, 1)
    &&& c.adaptive_weights
}

impl Default for ConsensusConfig {
    fn default() -> (r: ConsensusConfig)
        ensures
            is_default_consensus_config(r),
    {
        ConsensusConfig {
            ta_weight: Dec::new(6, 1),
            fund_weight: Dec::new(4, 1),
            min_confidence: Dec::new(5, 1),
            conflict_threshold: Dec::new(5, 1),
            conflict_reduces_size: true,
            conflict_size_multiplier: Dec::new(5, 1),
            adaptive_weights: true,
        }
    }
}

/// Win/loss record of one brain.
#[derive(Debug, Clone, Copy)]
pub struct BrainPerformance {
    pub wins: u32,
    pub losses: u32,
    pub win_rate: Dec,
    pub profit_factor: Dec,
    /// Recent wins (at most 10 are counted).
    pub recent_wins: u32,
    /// Recent losses (at most 10 are counted).
    pub recent_losses: u32,
}

/// The record of a brain before any trade: no wins or losses, a 0.5 win
/// rate and a profit factor of 1.
pub open spec fn is_fresh_performance(p: BrainPerformance) -> bool {
    &&& p.wins == 0
    &&& p.losses == 0
    &&& p.win_rate@ == dlit(5, 1)
    &&& p.profit_factor@ == dint(1)
    &&& p.recent_wins == 0
    &&& p.recent_losses == 0
}

impl Default for BrainPerformance {
    fn default() -> (r: BrainPerformance)
        ensures
            is_fresh_performance(r),
    {
        BrainPerformance {
            wins: 0,
            losses: 0,
            win_rate: Dec::new(5, 1),
            profit_factor: Dec::one(),
            recent_wins: 0,
            recent_losses: 0,
        }
    }
}

/// Recent win rate of a record (0.5 without recent trades).
pub open spec fn recent_win_rate_of(p: BrainPerformance) -> (int, int) {
    if p.recent_wins + p.recent_losses == 0 {
        dlit(5, 1)
    } else {
        ddiv(dint(p.recent_wins as int), dint(p.recent_wins + p.recent_losses))
    }
}

/// `after` is `before` with one more trade of this outcome: the counts grow,
/// the recent count of the outcome grows up to 10, and the win rate is
/// recomputed.
pub open spec fn recorded(before: BrainPerformance, after: BrainPerformance, is_win: bool) -> bool {
    &&& after.wins == before.wins + if is_win {
        1int
    } else {
        0
    }
    &&& after.losses == before.losses + if is_win {
        0int
    } else {
        1
    }
    &&& after.recent_wins == if is_win {
        if before.recent_wins + 1 < 10 {
            before.recent_wins + 1
        } else {
            10
        }
    } else {
        before.recent_wins as int
    }
    &&& after.recent_losses == if is_win {
        before.recent_losses as int
    } else if before.recent_losses + 1 < 10 {
        before.recent_losses + 1
    } else {
        10
    }
    &&& after.win_rate@ == ddiv(dint(after.wins as int), dint(after.wins + after.losses))
    &&& after.profit_factor == before.profit_factor
}

impl BrainPerformance {
    /// Record one trade outcome.
    pub fn record(&mut self, is_win: bool)
        requires
            old(self).wins + old(self).losses < u32::MAX,
            old(self).recent_wins < u32::MAX,
            old(self).recent_losses < u32::MAX,
        ensures
            recorded(*old(self), *final(self), is_win),
    {
        if is_win {
            self.wins = self.wins + 1;
            let r = self.recent_wins + 1;
            self.recent_wins = if r < 10 {
                r
            } else {
                10
            };
        } else {
            self.losses = self.losses + 1;
            let r = self.recent_losses + 1;
            self.recent_losses = if r < 10 {
                r
            } else {
                10
            };
        }
        let total = self.wins + self.losses;
        proof {
            crate::decimal::lemma_units_sign(dint(total as int));
        }
        self.win_rate = Dec::from_u64(self.wins as u64).div(Dec::from_u64(total as u64));
    }

    /// Recent win rate (0.5 without recent trades).
    pub fn recent_win_rate(&self) -> (r: Dec)
        requires
            self.recent_wins + self.recent_losses <= u32::MAX,
        ensures
            r@ == recent_win_rate_of(*self),
    {
        let recent_total = self.recent_wins + self.recent_losses;
        if recent_total == 0 {
            return Dec::new(5, 1);
        }
        Dec::from_u64(self.recent_wins as u64).div(Dec::from_u64(recent_total as u64))
    }
}

/// Recording an outcome keeps both recent counts at 10 or below.
pub proof fn lemma_record_keeps_recent_bounded(
    before: BrainPerformance,
    after: BrainPerformance,
    is_win: bool,
)
    requires
        before.recent_wins <= 10,
        before.recent_losses <= 10,
        recorded(before, after, is_win),
    ensures
        after.recent_wins <= 10,
        after.recent_losses <= 10,
{
}

/// Merged sentiment: weighted sum of the two sentiments, clamped to [-1, 1].
pub open spec fn merged_sentiment_of(ta: (int, int), fund: (int, int), wt: (int, int), wf: (int, int)) -> (
    int,
    int,
) {
    dmax(dmin(dadd(dmul(ta, wt), dmul(fund, wf)), dint(1)), dint(-1))
}

/// The value, in units of 10^-28, of the exact product of two decimals.
pub open spec fn product_units(a: (int, int), b: (int, int)) -> int {
    a.0 * b.0 * pow10((28 - a.1 - b.1) as nat)
}

/// Both weighted sentiments are exact products and their sum lies in the
/// decimal range, so the merged sentiment is computed without rounding.
pub open spec fn merge_exact(ta: (int, int), fund: (int, int), wt: (int, int), wf: (int, int)) -> bool {
    &&& mul_exact(ta, wt)
    &&& mul_exact(fund, wf)
    &&& -MAX_MANTISSA <= product_units(ta, wt) <= MAX_MANTISSA
    &&& -MAX_MANTISSA <= product_units(fund, wf) <= MAX_MANTISSA
    &&& -MAX_MANTISSA <= product_units(ta, wt) + product_units(fund, wf) <= MAX_MANTISSA
}

/// A value in units clamped to [-1, 1].
pub open spec fn clamp_unit(u: int) -> int {
    if u < -pow10(28) {
        -pow10(28)
    } else if u > pow10(28) {
        pow10(28)
    } else {
        u
    }
}

/// Merged confidence: confidences weighted by brain weight and by themselves (capped at 1).
pub open spec fn merged_confidence_of(tc: (int, int), fc: (int, int), wt: (int, int), wf: (int, int)) -> (
    int,
    int,
) {
    let weighted = dadd(dmul(dmul(tc, wt), tc), dmul(dmul(fc, wf), fc));
    let normalizer = dadd(dmul(wt, tc), dmul(wf, fc));
    if units(normalizer) == 0 {
        dint(0)
    } else {
        dmin(ddiv(weighted, normalizer), dint(1))
    }
}

/// Name of a TA action, as `{:?}` writes it.
pub open spec fn ta_action_name(a: TAAction) -> Seq<char> {
    match a {
        TAAction::Long => "Long"@,
        TAAction::Short => "Short"@,
        TAAction::Hold => "Hold"@,
        TAAction::Close => "Close"@,
        TAAction::Wait => "Wait"@,
    }
}

/// Name of a fundamental action, as `{:?}` writes it.
pub open spec fn fund_action_name(a: FundAction) -> Seq<char> {
    match a {
        FundAction::Bullish => "Bullish"@,
        FundAction::Bearish => "Bearish"@,
        FundAction::Neutral => "Neutral"@,
        FundAction::Block => "Block"@,
    }
}

fn ta_action_text(a: TAAction) -> (r: &'static str)
    ensures
        r@ == ta_action_name(a),
{
    match a {
        TAAction::Long => "Long",
        TAAction::Short => "Short",
        TAAction::Hold => "Hold",
        TAAction::Close => "Close",
        TAAction::Wait => "Wait",
    }
}

fn fund_action_text(a: FundAction) -> (r: &'static str)
    ensures
        r@ == fund_action_name(a),
{
    match a {
        FundAction::Bullish => "Bullish",
        FundAction::Bearish => "Bearish",
        FundAction::Neutral => "Neutral",
        FundAction::Block => "Block",
    }
}

/// Conflict between the brains and its explanation: diverging sentiments
/// first, then opposite actions.
pub open spec fn conflict_of(
    threshold: (int, int),
    ta_s: (int, int),
    fund_s: (int, int),
    ta_a: TAAction,
    fund_a: FundAction,
) -> (bool, Option<Seq<char>>) {
    if dlt(threshold, dabs(dsub(ta_s, fund_s))) {
        (
            true,
            Some(
                "Sentiment divergence: TA "@ + crate::decimal::decimal_text_dp(ta_s, 2)
                    + " vs Fund "@ + crate::decimal::decimal_text_dp(fund_s, 2),
            ),
        )
    } else if (ta_a == TAAction::Long && fund_a == FundAction::Bearish) || (ta_a == TAAction::Short
        && fund_a == FundAction::Bullish) {
        (
            true,
            Some("Action conflict: TA "@ + ta_action_name(ta_a) + " vs Fund "@ + fund_action_name(fund_a)),
        )
    } else {
        (false, None)
    }
}

/// Consensus action from the merged view.
pub open spec fn action_of(
    min_confidence: (int, int),
    fund_action: FundAction,
    sentiment: (int, int),
    confidence: (int, int),
    is_conflict: bool,
) -> ConsensusAction {
    if is_conflict && dlt(confidence, dlit(7, 1)) {
        ConsensusAction::Debate
    } else if dlt(confidence, min_confidence) {
        ConsensusAction::Wait
    } else if fund_action == FundAction::Block {
        ConsensusAction::Blocked
    } else if dlt(dlit(15, 2), sentiment) {
        ConsensusAction::Long
    } else if dlt(sentiment, dlit(-15, 2)) {
        ConsensusAction::Short
    } else if dlt(dabs(sentiment), dlit(5, 2)) {
        ConsensusAction::Wait
    } else {
        ConsensusAction::Hold
    }
}

/// Position size factor, clamped to [0, 1].
pub open spec fn size_of(
    c: ConsensusConfig,
    ta_size: (int, int),
    fund_size: (int, int),
    has_warnings: bool,
    is_conflict: bool,
    confidence: (int, int),
) -> (int, int) {
    let s1 = dmul(dmul(dmul(dlit(10, 1), ta_size), fund_size), confidence);
    let s2 = if is_conflict && c.conflict_reduces_size {
        dmul(s1, c.conflict_size_multiplier@)
    } else {
        s1
    };
    let s3 = if has_warnings {
        dmul(s2, dlit(7, 1))
    } else {
        s2
    };
    dmax(dmin(s3, dint(1)), dint(0))
}

/// Effective weights after an update with two win rates, when the update
/// divides by a non-zero total; `None` when the smoothed weights sum to zero.
pub open spec fn weights_step(wt: (int, int), wf: (int, int), ta_wr: (int, int), fund_wr: (int, int)) -> Option<
    ((int, int), (int, int)),
> {
    let total_wr = dadd(ta_wr, fund_wr);
    let t = dadd(dmul(wt, dlit(9, 1)), dmul(ddiv(ta_wr, total_wr), dlit(1, 1)));
    let f = dadd(dmul(wf, dlit(9, 1)), dmul(ddiv(fund_wr, total_wr), dlit(1, 1)));
    let total = dadd(t, f);
    if units(total) == 0 {
        None
    } else {
        let ta = dmin(dmax(ddiv(t, total), dlit(3, 1)), dlit(7, 1));
        Some((ta, dsub(dlit(10, 1), ta)))
    }
}

/// Consensus engine.
pub struct ConsensusEngine {
    config: ConsensusConfig,
    ta_performance: BrainPerformance,
    fund_performance: BrainPerformance,
    effective_ta_weight: Dec,
    effective_fund_weight: Dec,
}

/// Can the weights be updated with these win rates without dividing by zero?
pub open spec fn update_ok(e: ConsensusEngine, ta_wr: (int, int), fund_wr: (int, int)) -> bool {
    e.config_spec().adaptive_weights && units(dadd(ta_wr, fund_wr)) != 0 ==> weights_step(
        e.weights().0,
        e.weights().1,
        ta_wr,
        fund_wr,
    ) is Some
}

/// `r` is the merge of a TA analysis and a fundamental analysis by a
/// consensus engine (what `ConsensusEngine::merge` gives).
pub open spec fn merged_from(engine: ConsensusEngine, ta: TABrainOutput, fund: FundBrainOutput, r: MergedContext) -> bool {
    &&& r.symbol@ == ta.symbol@
    &&& r.chain@ == fund.chain@
    &&& r.regime == ta.regime
    &&& match fund.security {
        Some(s) if blocks(s) => {
            &&& r.merged_sentiment@ == dint(0)
            &&& r.merged_confidence@ == dint(1)
            &&& r.consensus_action == ConsensusAction::Blocked
            &&& !r.is_conflict
            &&& r.conflict_reason matches Some(m) && m@ == "Security block: "@ + joined_sep(
                s.red_flags@,
                ", "@,
            )
            &&& r.size_factor@ == dint(0)
        },
        _ => {
            let (wt, wf) = engine.weights();
            let conflict = conflict_of(
                engine.config_spec().conflict_threshold@,
                ta.overall_sentiment@,
                fund.overall_sentiment@,
                ta.recommended_action.action,
                fund.recommendation.action,
            );
            &&& r.merged_sentiment@ == merged_sentiment_of(
                ta.overall_sentiment@,
                fund.overall_sentiment@,
                wt,
                wf,
            )
            &&& r.merged_confidence@ == merged_confidence_of(
                ta.overall_confidence@,
                fund.overall_confidence@,
                wt,
                wf,
            )
            &&& r.is_conflict == conflict.0
            &&& match (r.conflict_reason, conflict.1) {
                (Some(a), Some(b)) => a@ == b,
                (None, None) => true,
                _ => false,
            }
            &&& r.consensus_action == action_of(
                engine.config_spec().min_confidence@,
                fund.recommendation.action,
                r.merged_sentiment@,
                r.merged_confidence@,
                r.is_conflict,
            )
            &&& r.size_factor@ == size_of(
                engine.config_spec(),
                ta.recommended_action.size_factor@,
                fund.recommendation.size_modifier@,
                fund.recommendation.security_warnings@.len() > 0,
                r.is_conflict,
                r.merged_confidence@,
            )
        },
    }
    &&& dle(dint(-1), r.merged_sentiment@) && dle(r.merged_sentiment@, dint(1))
    &&& dle(dint(0), r.size_factor@) && dle(r.size_factor@, dint(1))
    &&& dle(r.merged_confidence@, dint(1))
}

impl ConsensusEngine {
    /// The configuration.
    pub closed spec fn config_spec(&self) -> ConsensusConfig {
        self.config
    }

    /// The effective TA and fundamental weights.
    pub closed spec fn weights(&self) -> ((int, int), (int, int)) {
        (self.effective_ta_weight@, self.effective_fund_weight@)
    }

    /// The TA and fundamental performance records.
    pub closed spec fn performance(&self) -> (BrainPerformance, BrainPerformance) {
        (self.ta_performance, self.fund_performance)
    }

    /// The recent counts of both records are at most 10, as recording keeps them.
    pub open spec fn recent_bounded(&self) -> bool {
        &&& self.performance().0.recent_wins <= 10
        &&& self.performance().0.recent_losses <= 10
        &&& self.performance().1.recent_wins <= 10
        &&& self.performance().1.recent_losses <= 10
    }

    pub fn new(config: ConsensusConfig) -> (r: ConsensusEngine)
        ensures
            r.config_spec() == config,
            r.weights() == (config.ta_weight@, config.fund_weight@),
            is_fresh_performance(r.performance().0),
            is_fresh_performance(r.performance().1),
    {
        ConsensusEngine {
            config,
            ta_performance: BrainPerformance::default(),
            fund_performance: BrainPerformance::default(),
            effective_ta_weight: config.ta_weight,
            effective_fund_weight: config.fund_weight,
        }
    }

    pub fn with_defaults() -> (r: ConsensusEngine)
        ensures
            is_default_consensus_config(r.config_spec()),
            r.weights() == (dlit(6, 1), dlit(4, 1)),
            is_fresh_performance(r.performance().0),
            is_fresh_performance(r.performance().1),
    {
        ConsensusEngine::new(ConsensusConfig::default())
    }

    /// Merge the two brains' outputs: a security block wins outright;
    /// otherwise merged sentiment and confidence, conflict detection, the
    /// consensus action and the position size.
    pub fn merge(&self, ta: &TABrainOutput, fund: &FundBrainOutput) -> (r: MergedContext)
        ensures
            merged_from(*self, *ta, *fund, r),
            r.symbol@ == ta.symbol@,
            r.chain@ == fund.chain@,
            r.regime == ta.regime,
            match fund.security {
                Some(s) if blocks(s) => {
                    &&& r.merged_sentiment@ == dint(0)
                    &&& r.merged_confidence@ == dint(1)
                    &&& r.consensus_action == ConsensusAction::Blocked
                    &&& !r.is_conflict
                    &&& r.conflict_reason matches Some(m) && m@ == "Security block: "@ + joined_sep(
                        s.red_flags@,
                        ", "@,
                    )
                    &&& r.size_factor@ == dint(0)
                },
                _ => {
                    let (wt, wf) = self.weights();
                    let conflict = conflict_of(
                        self.config_spec().conflict_threshold@,
                        ta.overall_sentiment@,
                        fund.overall_sentiment@,
                        ta.recommended_action.action,
                        fund.recommendation.action,
                    );
                    &&& r.merged_sentiment@ == merged_sentiment_of(
                        ta.overall_sentiment@,
                        fund.overall_sentiment@,
                        wt,
                        wf,
                    )
                    &&& r.merged_confidence@ == merged_confidence_of(
                        ta.overall_confidence@,
                        fund.overall_confidence@,
                        wt,
                        wf,
                    )
                    &&& r.is_conflict == conflict.0
                    &&& match (r.conflict_reason, conflict.1) {
                        (Some(a), Some(b)) => a@ == b,
                        (None, None) => true,
                        _ => false,
                    }
                    &&& r.consensus_action == action_of(
                        self.config_spec().min_confidence@,
                        fund.recommendation.action,
                        r.merged_sentiment@,
                        r.merged_confidence@,
                        r.is_conflict,
                    )
                    &&& r.size_factor@ == size_of(
                        self.config_spec(),
                        ta.recommended_action.size_factor@,
                        fund.recommendation.size_modifier@,
                        fund.recommendation.security_warnings@.len() > 0,
                        r.is_conflict,
                        r.merged_confidence@,
                    )
                },
            },
            dle(dint(-1), r.merged_sentiment@) && dle(r.merged_sentiment@, dint(1)),
            dle(dint(0), r.size_factor@) && dle(r.size_factor@, dint(1)),
            dle(r.merged_confidence@, dint(1)),
            !(fund.security matches Some(s) && blocks(s)) && merge_exact(
                ta.overall_sentiment@,
                fund.overall_sentiment@,
                self.weights().0,
                self.weights().1,
            ) ==> units(r.merged_sentiment@) == clamp_unit(
                product_units(ta.overall_sentiment@, self.weights().0) + product_units(
                    fund.overall_sentiment@,
                    self.weights().1,
                ),
            ),
    {
        proof {
            lemma_pow10_table();
        }
        match &fund.security {
            Some(security) => {
                if security.should_block() {
                    let mut reason = "Security block: ".to_owned();
                    reason.append(join_sep(&security.red_flags, ", ").as_str());
                    return MergedContext {
                        symbol: ta.symbol.clone(),
                        chain: fund.chain.clone(),
                        ta: ta.clone(),
                        fund: fund.clone(),
                        merged_sentiment: Dec::zero(),
                        merged_confidence: Dec::one(),
                        consensus_action: ConsensusAction::Blocked,
                        is_conflict: false,
                        conflict_reason: Some(reason),
                        size_factor: Dec::zero(),
                        regime: ta.regime,
                        timestamp: now_secs(),
                    };
                }
            },
            None => {},
        }
        let merged_sentiment = self.calculate_merged_sentiment(ta, fund);
        let merged_confidence = self.calculate_merged_confidence(ta, fund);
        let (is_conflict, conflict_reason) = self.detect_conflict(ta, fund);
        let consensus_action = self.determine_action(
            ta,
            fund,
            merged_sentiment,
            merged_confidence,
            is_conflict,
        );
        let size_factor = self.calculate_size_factor(ta, fund, is_conflict, merged_confidence);
        MergedContext {
            symbol: ta.symbol.clone(),
            chain: fund.chain.clone(),
            ta: ta.clone(),
            fund: fund.clone(),
            merged_sentiment,
            merged_confidence,
            consensus_action,
            is_conflict,
            conflict_reason,
            size_factor,
            regime: ta.regime,
            timestamp: now_secs(),
        }
    }

    /// Weighted sentiment, clamped to [-1, 1].
    fn calculate_merged_sentiment(&self, ta: &TABrainOutput, fund: &FundBrainOutput) -> (r: Dec)
        ensures
            r@ == merged_sentiment_of(
                ta.overall_sentiment@,
                fund.overall_sentiment@,
                self.weights().0,
                self.weights().1,
            ),
            dle(dint(-1), r@) && dle(r@, dint(1)),
            merge_exact(ta.overall_sentiment@, fund.overall_sentiment@, self.weights().0, self.weights().1)
                ==> units(r@) == clamp_unit(
                product_units(ta.overall_sentiment@, self.weights().0) + product_units(
                    fund.overall_sentiment@,
                    self.weights().1,
                ),
            ),
    {
        proof {
            lemma_pow10_table();
        }
        let a = ta.overall_sentiment.mul(self.effective_ta_weight);
        let b = fund.overall_sentiment.mul(self.effective_fund_weight);
        proof {
            use_type_invariant(&a);
            use_type_invariant(&b);
            a.lemma_wf_in_range();
            b.lemma_wf_in_range();
            if merge_exact(ta.overall_sentiment@, fund.overall_sentiment@, self.weights().0, self.weights().1) {
                lemma_add_exact_small(a@, b@, true);
            }
        }
        let weighted = a.add(b);
        weighted.min(Dec::one()).max(Dec::from_i64(-1))
    }

    /// Merged confidence (capped at 1).
    fn calculate_merged_confidence(&self, ta: &TABrainOutput, fund: &FundBrainOutput) -> (r: Dec)
        ensures
            r@ == merged_confidence_of(
                ta.overall_confidence@,
                fund.overall_confidence@,
                self.weights().0,
                self.weights().1,
            ),
            dle(r@, dint(1)),
    {
        proof {
            lemma_pow10_table();
        }
        let tc = ta.overall_confidence;
        let fc = fund.overall_confidence;
        let weighted = tc.mul(self.effective_ta_weight).mul(tc).add(
            fc.mul(self.effective_fund_weight).mul(fc),
        );
        let normalizer = self.effective_ta_weight.mul(tc).add(self.effective_fund_weight.mul(fc));
        if normalizer.is_zero() {
            return Dec::zero();
        }
        weighted.div(normalizer).min(Dec::one())
    }

    /// Whether the brains conflict, and why.
    pub fn detect_conflict(&self, ta: &TABrainOutput, fund: &FundBrainOutput) -> (r: (
        bool,
        Option<String>,
    ))
        ensures
            ({
                let c = conflict_of(
                    self.config_spec().conflict_threshold@,
                    ta.overall_sentiment@,
                    fund.overall_sentiment@,
                    ta.recommended_action.action,
                    fund.recommendation.action,
                );
                &&& r.0 == c.0
                &&& match (r.1, c.1) {
                    (Some(a), Some(b)) => a@ == b,
                    (None, None) => true,
                    _ => false,
                }
            }),
    {
        let ta_sentiment = ta.overall_sentiment;
        let fund_sentiment = fund.overall_sentiment;
        let sentiment_diff = ta_sentiment.sub(fund_sentiment).abs();
        if self.config.conflict_threshold.lt(&sentiment_diff) {
            let parts = vec![
                "Sentiment divergence: TA ".to_owned(),
                ta_sentiment.to_text_dp(2),
                " vs Fund ".to_owned(),
                fund_sentiment.to_text_dp(2),
            ];
            let reason = join(&parts);
            proof {
                reveal_with_fuel(Seq::fold_left, 5);
            }
            return (true, Some(reason));
        }
        let ta_action = ta.recommended_action.action;
        let fund_action = fund.recommendation.action;
        let action_conflict = match (ta_action, fund_action) {
            (TAAction::Long, FundAction::Bearish) => true,
            (TAAction::Short, FundAction::Bullish) => true,
            _ => false,
        };
        if action_conflict {
            let mut reason = "Action conflict: TA ".to_owned();
            reason.append(ta_action_text(ta_action));
            reason.append(" vs Fund ");
            reason.append(fund_action_text(fund_action));
            return (true, Some(reason));
        }
        (false, None)
    }

    /// Consensus action.
    fn determine_action(
        &self,
        ta: &TABrainOutput,
        fund: &FundBrainOutput,
        merged_sentiment: Dec,
        merged_confidence: Dec,
        is_conflict: bool,
    ) -> (r: ConsensusAction)
        ensures
            r == action_of(
                self.config.min_confidence@,
                fund.recommendation.action,
                merged_sentiment@,
                merged_confidence@,
                is_conflict,
            ),
    {
        if is_conflict && merged_confidence.lt(&Dec::new(7, 1)) {
            return ConsensusAction::Debate;
        }
        if merged_confidence.lt(&self.config.min_confidence) {
            return ConsensusAction::Wait;
        }
        if fund.recommendation.action == FundAction::Block {
            return ConsensusAction::Blocked;
        }
        if Dec::new(15, 2).lt(&merged_sentiment) {
            ConsensusAction::Long
        } else if merged_sentiment.lt(&Dec::new(-15, 2)) {
            ConsensusAction::Short
        } else if merged_sentiment.abs().lt(&Dec::new(5, 2)) {
            ConsensusAction::Wait
        } else {
            ConsensusAction::Hold
        }
    }

    /// Position size factor, clamped to [0, 1].
    fn calculate_size_factor(
        &self,
        ta: &TABrainOutput,
        fund: &FundBrainOutput,
        is_conflict: bool,
        merged_confidence: Dec,
    ) -> (r: Dec)
        ensures
            r@ == size_of(
                self.config,
                ta.recommended_action.size_factor@,
                fund.recommendation.size_modifier@,
                fund.recommendation.security_warnings@.len() > 0,
                is_conflict,
                merged_confidence@,
            ),
            dle(dint(0), r@) && dle(r@, dint(1)),
    {
        proof {
            lemma_pow10_table();
        }
        let mut size = Dec::new(10, 1);
        size = size.mul(ta.recommended_action.size_factor);
        size = size.mul(fund.recommendation.size_modifier);
        size = size.mul(merged_confidence);
        if is_conflict && self.config.conflict_reduces_size {
            size = size.mul(self.config.conflict_size_multiplier);
        }
        if fund.recommendation.security_warnings.len() > 0 {
            size = size.mul(Dec::new(7, 1));
        }
        size.min(Dec::one()).max(Dec::zero())
    }

    /// The smoothed weights of an update before normalisation.
    fn smoothed(&self, ta_win_rate: Dec, fund_win_rate: Dec) -> (r: (Dec, Dec))
        requires
            units(dadd(ta_win_rate@, fund_win_rate@)) != 0,
        ensures
            r.0@ == dadd(
                dmul(self.weights().0, dlit(9, 1)),
                dmul(ddiv(ta_win_rate@, dadd(ta_win_rate@, fund_win_rate@)), dlit(1, 1)),
            ),
            r.1@ == dadd(
                dmul(self.weights().1, dlit(9, 1)),
                dmul(ddiv(fund_win_rate@, dadd(ta_win_rate@, fund_win_rate@)), dlit(1, 1)),
            ),
    {
        let total_wr = ta_win_rate.add(fund_win_rate);
        let new_ta = ta_win_rate.div(total_wr);
        let new_fund = fund_win_rate.div(total_wr);
        (
            self.effective_ta_weight.mul(Dec::new(9, 1)).add(new_ta.mul(Dec::new(1, 1))),
            self.effective_fund_weight.mul(Dec::new(9, 1)).add(new_fund.mul(Dec::new(1, 1))),
        )
    }

    /// Adapt the weights to the brains' win rates: each moves 10% toward its
    /// share of the total, they are normalised, and the TA weight is kept
    /// within [0.3, 0.7] with the fundamental weight its complement.
    pub fn update_weights(&mut self, ta_win_rate: Dec, fund_win_rate: Dec)
        requires
            update_ok(*old(self), ta_win_rate@, fund_win_rate@),
        ensures
            final(self).config_spec() == old(self).config_spec(),
            final(self).performance() == old(self).performance(),
            if !old(self).config_spec().adaptive_weights || units(
                dadd(ta_win_rate@, fund_win_rate@),
            ) == 0 {
                final(self).weights() == old(self).weights()
            } else {
                Some(final(self).weights()) == weights_step(
                    old(self).weights().0,
                    old(self).weights().1,
                    ta_win_rate@,
                    fund_win_rate@,
                )
            },
            old(self).config_spec().adaptive_weights && units(dadd(ta_win_rate@, fund_win_rate@)) != 0 ==> units(
                final(self).weights().0,
            ) + units(final(self).weights().1) == pow10(28),
            old(self).config_spec().adaptive_weights && units(dadd(ta_win_rate@, fund_win_rate@)) != 0 ==> dle(
                dlit(3, 1),
                final(self).weights().0,
            ) && dle(final(self).weights().0, dlit(7, 1)),
            units(old(self).weights().0) + units(old(self).weights().1) == pow10(28) ==> units(
                final(self).weights().0,
            ) + units(final(self).weights().1) == pow10(28),
    {
        if !self.config.adaptive_weights {
            return;
        }
        let total_wr = ta_win_rate.add(fund_win_rate);
        if total_wr.is_zero() {
            return;
        }
        let (t, f) = self.smoothed(ta_win_rate, fund_win_rate);
        let total = t.add(f);
        let ta = t.div(total).max(Dec::new(3, 1)).min(Dec::new(7, 1));
        let one = Dec::new(10, 1);
        proof {
            lemma_pow10_table();
            use_type_invariant(&ta);
            ta.lemma_wf_in_range();
            use_type_invariant(&one);
            one.lemma_wf_in_range();
            lemma_add_exact_small(one@, ta@, false);
        }
        self.effective_ta_weight = ta;
        self.effective_fund_weight = one.sub(ta);
    }

    /// Whether an update with these win rates divides by a non-zero total.
    pub fn can_update_weights(&self, ta_win_rate: Dec, fund_win_rate: Dec) -> (r: bool)
        ensures
            r == update_ok(*self, ta_win_rate@, fund_win_rate@),
    {
        if !self.config.adaptive_weights {
            return true;
        }
        let total_wr = ta_win_rate.add(fund_win_rate);
        if total_wr.is_zero() {
            return true;
        }
        let (t, f) = self.smoothed(ta_win_rate, fund_win_rate);
        !t.add(f).is_zero()
    }

    /// `update_weights` for any win rates: the weights stay as they are
    /// (and `false` is returned) where the update would divide by zero.
    pub fn try_update_weights(&mut self, ta_win_rate: Dec, fund_win_rate: Dec) -> (r: bool)
        ensures
            r == update_ok(*old(self), ta_win_rate@, fund_win_rate@),
            !r ==> final(self).weights() == old(self).weights(),
            r ==> if !old(self).config_spec().adaptive_weights || units(
                dadd(ta_win_rate@, fund_win_rate@),
            ) == 0 {
                final(self).weights() == old(self).weights()
            } else {
                Some(final(self).weights()) == weights_step(
                    old(self).weights().0,
                    old(self).weights().1,
                    ta_win_rate@,
                    fund_win_rate@,
                )
            },
            final(self).config_spec() == old(self).config_spec(),
            final(self).performance() == old(self).performance(),
    {
        if !self.can_update_weights(ta_win_rate, fund_win_rate) {
            return false;
        }
        self.update_weights(ta_win_rate, fund_win_rate);
        true
    }

    /// Record a trade outcome for the brains that agreed with it, then adapt
    /// the weights to their recent win rates.
    pub fn record_outcome(&mut self, ta_agreed: bool, fund_agreed: bool, is_win: bool)
        requires
            old(self).performance().0.wins + old(self).performance().0.losses < u32::MAX,
            old(self).performance().1.wins + old(self).performance().1.losses < u32::MAX,
            old(self).recent_bounded(),
        ensures
            final(self).config_spec() == old(self).config_spec(),
            final(self).recent_bounded(),
            ta_agreed ==> recorded(old(self).performance().0, final(self).performance().0, is_win),
            !ta_agreed ==> final(self).performance().0 == old(self).performance().0,
            fund_agreed ==> recorded(old(self).performance().1, final(self).performance().1, is_win),
            !fund_agreed ==> final(self).performance().1 == old(self).performance().1,
            ({
                let ta_wr = recent_win_rate_of(final(self).performance().0);
                let fund_wr = recent_win_rate_of(final(self).performance().1);
                final(self).weights() == if old(self).config_spec().adaptive_weights && units(
                    dadd(ta_wr, fund_wr),
                ) != 0 && weights_step(old(self).weights().0, old(self).weights().1, ta_wr, fund_wr) is Some {
                    weights_step(old(self).weights().0, old(self).weights().1, ta_wr, fund_wr)->0
                } else {
                    old(self).weights()
                }
            }),
    {
        if ta_agreed {
            self.ta_performance.record(is_win);
        }
        if fund_agreed {
            self.fund_performance.record(is_win);
        }
        if self.config.adaptive_weights {
            let ta_wr = self.ta_performance.recent_win_rate();
            let fund_wr = self.fund_performance.recent_win_rate();
            self.try_update_weights(ta_wr, fund_wr);
        }
    }

    /// Current effective weights (TA, fundamental).
    pub fn get_weights(&self) -> (r: (Dec, Dec))
        ensures
            (r.0@, r.1@) == self.weights(),
    {
        (self.effective_ta_weight, self.effective_fund_weight)
    }

    /// Performance records (TA, fundamental).
    pub fn get_performance(&self) -> (r: (&BrainPerformance, &BrainPerformance))
        ensures
            (*r.0, *r.1) == self.performance(),
    {
        (&self.ta_performance, &self.fund_performance)
    }

    /// Reset the performance records and the weights to the configured ones.
    pub fn reset_performance(&mut self)
        ensures
            final(self).config_spec() == old(self).config_spec(),
            final(self).weights() == (old(self).config_spec().ta_weight@, old(
                self,
            ).config_spec().fund_weight@),
            final(self).performance().0.wins == 0 && final(self).performance().1.wins == 0,
            final(self).performance().0.losses == 0 && final(self).performance().1.losses == 0,
            final(self).performance().0.recent_wins == 0 && final(self).performance().1.recent_wins == 0,
            final(self).performance().0.recent_losses == 0 && final(self).performance().1.recent_losses
                == 0,
    {
        self.ta_performance = BrainPerformance::default();
        self.fund_performance = BrainPerformance::default();
        self.effective_ta_weight = self.config.ta_weight;
        self.effective_fund_weight = self.config.fund_weight;
    }
}

/// After any update, the TA weight lies within [0.3, 0.7] and the
/// fundamental weight is positive.
pub proof fn lemma_weights_bounded(wt: (int, int), wf: (int, int), ta_wr: (int, int), fund_wr: (int, int))
    requires
        weights_step(wt, wf, ta_wr, fund_wr) is Some,
    ensures
        ({
            let (t, f) = weights_step(wt, wf, ta_wr, fund_wr)->0;
            &&& dle(dlit(3, 1), t)
            &&& dle(t, dlit(7, 1))
        }),
{
    lemma_pow10_table();
}

/// Marker of a consensus action in summaries.
pub open spec fn action_emoji(a: ConsensusAction) -> Seq<char> {
    match a {
        ConsensusAction::Long => "🟢"@,
        ConsensusAction::Short => "🔴"@,
        ConsensusAction::Hold => "🟡"@,
        ConsensusAction::Wait => "⏸️"@,
        ConsensusAction::Close => "🔻"@,
        ConsensusAction::Blocked => "🚫"@,
        ConsensusAction::Debate => "🤔"@,
    }
}

/// Name of a consensus action as `{:?}` writes it.
pub open spec fn consensus_action_name(a: ConsensusAction) -> Seq<char> {
    match a {
        ConsensusAction::Long => "Long"@,
        ConsensusAction::Short => "Short"@,
        ConsensusAction::Hold => "Hold"@,
        ConsensusAction::Wait => "Wait"@,
        ConsensusAction::Close => "Close"@,
        ConsensusAction::Blocked => "Blocked"@,
        ConsensusAction::Debate => "Debate"@,
    }
}

/// Name of a RADAR tier as `{:?}` writes it.
pub open spec fn radar_tier_name(t: RadarTier) -> Seq<char> {
    match t {
        RadarTier::Elite => "Elite"@,
        RadarTier::Solid => "Solid"@,
        RadarTier::Marginal => "Marginal"@,
        RadarTier::Skip => "Skip"@,
    }
}

/// Name of a PULSE direction as `{:?}` writes it.
pub open spec fn pulse_direction_name(d: PulseDirection) -> Seq<char> {
    match d {
        PulseDirection::Up => "Up"@,
        PulseDirection::Down => "Down"@,
        PulseDirection::Neutral => "Neutral"@,
    }
}

/// Security line of a summary.
pub open spec fn security_line(s: Option<SecurityAssessment>) -> Seq<char> {
    match s {
        None => "Not scanned"@,
        Some(a) => if !blocks(a) && !warns(a) {
            "✅ Safe"@
        } else if warns(a) {
            "⚠️ Warning: "@ + debug_strings(a.red_flags@.map_values(|x: String| x@))
        } else {
            "🚫 Blocked: "@ + debug_strings(a.red_flags@.map_values(|x: String| x@))
        },
    }
}

/// The summary of a merged context.
pub open spec fn summary_of(m: MergedContext) -> Seq<char> {
    let status = if m.is_conflict {
        "⚠️ CONFLICT: "@ + match m.conflict_reason {
            Some(r) => r@,
            None => "unknown"@,
        }
    } else {
        "✅ Aligned"@
    };
    "## Dual Brain Analysis: "@ + m.symbol@ + "\n\n**Consensus:** "@ + action_emoji(m.consensus_action)
        + " "@ + consensus_action_name(m.consensus_action) + "\n**Sentiment:** TA "@
        + decimal_text_dp(m.ta.overall_sentiment@, 2) + " | Fund "@ + decimal_text_dp(
        m.fund.overall_sentiment@,
        2,
    ) + " | Merged "@ + decimal_text_dp(m.merged_sentiment@, 2) + "\n**Confidence:** "@
        + decimal_text_dp(dmul(m.merged_confidence@, dint(100)), 0) + "%\n**Size Factor:** "@
        + decimal_text_dp(dmul(m.size_factor@, dint(100)), 0) + "%\n**Regime:** "@ + regime_debug(
        m.regime,
    ) + "\n\n**Brain Status:** "@ + status + "\n\n### TA Brain\n- RADAR: "@ + nat_digits(
        m.ta.radar_score.score as nat,
    ) + " ("@ + radar_tier_name(m.ta.radar_score.tier) + ")\n- PULSE: Tier "@ + nat_digits(
        m.ta.pulse_signal.tier as nat,
    ) + " ("@ + pulse_direction_name(m.ta.pulse_signal.direction) + ")\n- Recommendation: "@
        + ta_action_name(m.ta.recommended_action.action) + "\n\n### Fund Brain\n- Whale Sentiment: "@
        + decimal_text_dp(m.fund.whale_sentiment@, 2) + "\n- Twitter Sentiment: "@ + decimal_text_dp(
        m.fund.twitter_sentiment@,
        2,
    ) + "\n- News Sentiment: "@ + decimal_text_dp(m.fund.news_sentiment@, 2) + "\n- Security: "@
        + security_line(m.fund.security) + "\n- Recommendation: "@ + fund_action_name(
        m.fund.recommendation.action,
    ) + "\n"@
}

fn security_text(s: &Option<SecurityAssessment>) -> (r: String)
    ensures
        r@ == security_line(*s),
{
    match s {
        None => "Not scanned".to_owned(),
        Some(a) => {
            if a.is_safe() {
                "✅ Safe".to_owned()
            } else if a.should_warn() {
                let mut t = "⚠️ Warning: ".to_owned();
                t.append(debug_list(&a.red_flags).as_str());
                t
            } else {
                let mut t = "🚫 Blocked: ".to_owned();
                t.append(debug_list(&a.red_flags).as_str());
                t
            }
        },
    }
}

impl MergedContext {
    /// A readable summary of the merged view (see `summary_of`).
    pub fn summary(&self) -> (r: String)
        ensures
            r@ == summary_of(*self),
    {
        let emoji = match self.consensus_action {
            ConsensusAction::Long => "🟢",
            ConsensusAction::Short => "🔴",
            ConsensusAction::Hold => "🟡",
            ConsensusAction::Wait => "⏸️",
            ConsensusAction::Close => "🔻",
            ConsensusAction::Blocked => "🚫",
            ConsensusAction::Debate => "🤔",
        };
        let name = match self.consensus_action {
            ConsensusAction::Long => "Long",
            ConsensusAction::Short => "Short",
            ConsensusAction::Hold => "Hold",
            ConsensusAction::Wait => "Wait",
            ConsensusAction::Close => "Close",
            ConsensusAction::Blocked => "Blocked",
            ConsensusAction::Debate => "Debate",
        };
        let status = if self.is_conflict {
            let mut t = "⚠️ CONFLICT: ".to_owned();
            match &self.conflict_reason {
                Some(r) => t.append(r.as_str()),
                None => t.append("unknown"),
            }
            t
        } else {
            "✅ Aligned".to_owned()
        };
        let tier = match self.ta.radar_score.tier {
            RadarTier::Elite => "Elite",
            RadarTier::Solid => "Solid",
            RadarTier::Marginal => "Marginal",
            RadarTier::Skip => "Skip",
        };
        let direction = match self.ta.pulse_signal.direction {
            PulseDirection::Up => "Up",
            PulseDirection::Down => "Down",
            PulseDirection::Neutral => "Neutral",
        };
        let hundred = Dec::from_u64(100);
        let mut out = "## Dual Brain Analysis: ".to_owned();
        out.append(self.symbol.as_str());
        out.append("\n\n**Consensus:** ");
        out.append(emoji);
        out.append(" ");
        out.append(name);
        out.append("\n**Sentiment:** TA ");
        out.append(self.ta.overall_sentiment.to_text_dp(2).as_str());
        out.append(" | Fund ");
        out.append(self.fund.overall_sentiment.to_text_dp(2).as_str());
        out.append(" | Merged ");
        out.append(self.merged_sentiment.to_text_dp(2).as_str());
        out.append("\n**Confidence:** ");
        out.append(self.merged_confidence.mul(hundred).to_text_dp(0).as_str());
        out.append("%\n**Size Factor:** ");
        out.append(self.size_factor.mul(hundred).to_text_dp(0).as_str());
        out.append("%\n**Regime:** ");
        out.append(regime_debug_text(self.regime).as_str());
        out.append("\n\n**Brain Status:** ");
        out.append(status.as_str());
        out.append("\n\n### TA Brain\n- RADAR: ");
        out.append(nat_text(self.ta.radar_score.score as u64).as_str());
        out.append(" (");
        out.append(tier);
        out.append(")\n- PULSE: Tier ");
        out.append(nat_text(self.ta.pulse_signal.tier as u64).as_str());
        out.append(" (");
        out.append(direction);
        out.append(")\n- Recommendation: ");
        out.append(ta_action_text(self.ta.recommended_action.action));
        out.append("\n\n### Fund Brain\n- Whale Sentiment: ");
        out.append(self.fund.whale_sentiment.to_text_dp(2).as_str());
        out.append("\n- Twitter Sentiment: ");
        out.append(self.fund.twitter_sentiment.to_text_dp(2).as_str());
        out.append("\n- News Sentiment: ");
        out.append(self.fund.news_sentiment.to_text_dp(2).as_str());
        out.append("\n- Security: ");
        out.append(security_text(&self.fund.security).as_str());
        out.append("\n- Recommendation: ");
        out.append(fund_action_text(self.fund.recommendation.action));
        out.append("\n");
        out
    }
}

/// With the default weights, the weighted sum that the merged sentiment
/// clamps is 0.6 of the TA sentiment plus 0.4 of the fundamental one
/// (for sentiments with at most 27 decimal places).
pub proof fn lemma_default_weighted_sum(ta: (int, int), fund: (int, int))
    requires
        0 <= ta.1 <= 27,
        0 <= fund.1 <= 27,
    ensures
        10 * (product_units(ta, dlit(6, 1)) + product_units(fund, dlit(4, 1))) == 6 * units(ta) + 4 * units(fund),
{
    let pt = pow10((27 - ta.1) as nat);
    let pf = pow10((27 - fund.1) as nat);
    assert(pow10((28 - ta.1) as nat) == 10 * pt);
    assert(pow10((28 - fund.1) as nat) == 10 * pf);
    assert(10 * (ta.0 * 6 * pt + fund.0 * 4 * pf) == 6 * (ta.0 * (10 * pt)) + 4 * (fund.0 * (10 * pf)))
        by (nonlinear_arith);
}

/// Under the default configuration, a merge in which the brains conflict
/// (and no security block applies) halves the position size: the size is
/// the product of the TA size, the fundamental size modifier and the merged
/// confidence, times 0.5, times 0.7 when there are security warnings,
/// clamped to [0, 1].
pub proof fn lemma_default_conflict_halves_size(
    engine: ConsensusEngine,
    ta: TABrainOutput,
    fund: FundBrainOutput,
    r: MergedContext,
)
    requires
        is_default_consensus_config(engine.config_spec()),
        merged_from(engine, ta, fund, r),
        !(fund.security matches Some(s) && blocks(s)),
        r.is_conflict,
    ensures
        ({
            let halved = dmul(
                dmul(dmul(dmul(dlit(10, 1), ta.recommended_action.size_factor@), fund.recommendation.size_modifier@),
                    r.merged_confidence@),
                dlit(5, 1),
            );
            let warned = if fund.recommendation.security_warnings@.len() > 0 {
                dmul(halved, dlit(7, 1))
            } else {
                halved
            };
            r.size_factor@ == dmax(dmin(warned, dint(1)), dint(0))
        }),
{
}

/// The consensus action follows the merged sentiment: a Long is only ever
/// given for a merged sentiment above 0.15 and a Short only for one below
/// -0.15; and when nothing makes the engine debate (a conflict at a merged
/// confidence under 0.7), wait (a confidence under the minimum) or block (a
/// security block or a fundamental Block), a merged sentiment above 0.15
/// gives Long and one below -0.15 gives Short.
pub proof fn lemma_consensus_action_follows_sentiment(
    engine: ConsensusEngine,
    ta: TABrainOutput,
    fund: FundBrainOutput,
    r: MergedContext,
)
    requires
        merged_from(engine, ta, fund, r),
    ensures
        r.consensus_action == ConsensusAction::Long ==> units(r.merged_sentiment@) > units(dlit(15, 2)),
        r.consensus_action == ConsensusAction::Short ==> units(r.merged_sentiment@) < units(dlit(-15, 2)),
        ({
            let undecided = {
                ||| (fund.security matches Some(s) && blocks(s))
                ||| (r.is_conflict && units(r.merged_confidence@) < units(dlit(7, 1)))
                ||| units(r.merged_confidence@) < units(engine.config_spec().min_confidence@)
                ||| fund.recommendation.action == FundAction::Block
            };
            !undecided ==> {
                &&& units(r.merged_sentiment@) > units(dlit(15, 2)) ==> r.consensus_action
                    == ConsensusAction::Long
                &&& units(r.merged_sentiment@) < units(dlit(-15, 2)) ==> r.consensus_action
                    == ConsensusAction::Short
                &&& units(dlit(-5, 2)) < units(r.merged_sentiment@) < units(dlit(5, 2)) ==> r.consensus_action
                    == ConsensusAction::Wait
                &&& (units(dlit(5, 2)) <= units(r.merged_sentiment@) <= units(dlit(15, 2)) || units(
                    dlit(-15, 2),
                ) <= units(r.merged_sentiment@) <= units(dlit(-5, 2))) ==> r.consensus_action
                    == ConsensusAction::Hold
            }
        }),
        (fund.security matches Some(s) && blocks(s)) ==> r.consensus_action == ConsensusAction::Blocked,
        !(fund.security matches Some(s) && blocks(s)) ==> {
            &&& (r.is_conflict && units(r.merged_confidence@) < units(dlit(7, 1))) ==> r.consensus_action
                == ConsensusAction::Debate
            &&& (!(r.is_conflict && units(r.merged_confidence@) < units(dlit(7, 1))) && units(
                r.merged_confidence@,
            ) < units(engine.config_spec().min_confidence@)) ==> r.consensus_action == ConsensusAction::Wait
        },
{
    crate::decimal::lemma_units_neg(r.merged_sentiment@);
    crate::decimal::lemma_pow10_pos(26);
    crate::decimal::lemma_pow10_pos(27);
}

} // verus!
