//! Technical Analysis brain: RADAR opportunity screening, PULSE momentum
//! detection, GUARD trailing stops and the strategy signals.
use crate::clock::now_secs;
use crate::decimal::{
    dabs, dadd, ddiv, dint, dle, dlit, dlt, dmax, dmin, dmul, dsub, lemma_pow10_table, opt_view, pow10,
    units, Dec,
};
use crate::market::{Regime, Signal};
use crate::series::{diffs, gains_losses, gains_losses_range, sqrt_of, sum_of, vals};
use crate::text::{join, nat_digits, nat_text};
use vstd::prelude::*;

verus! {

/// RADAR priority tiers.
#[derive(Debug, Clone, Copy, PartialEq, Eq, Structural)]
pub enum RadarTier {
    /// Score 250-400: immediate entry.
    Elite,
    /// Score 170-249: entry with PULSE confirmation.
    Solid,
    /// Score 140-169: queue only.
    Marginal,
    /// Anything else: skip.
    Skip,
}

/// The tier of a RADAR score.
pub open spec fn tier_of(score: int) -> RadarTier {
    if 250 <= score <= 400 {
        RadarTier::Elite
    } else if 170 <= score <= 249 {
        RadarTier::Solid
    } else if 140 <= score <= 169 {
        RadarTier::Marginal
    } else {
        RadarTier::Skip
    }
}

impl RadarTier {
    pub fn from_score(score: u16) -> (r: RadarTier)
        ensures
            r == tier_of(score as int),
    {
        if 250 <= score && score <= 400 {
            RadarTier::Elite
        } else if 170 <= score && score <= 249 {
            RadarTier::Solid
        } else if 140 <= score && score <= 169 {
            RadarTier::Marginal
        } else {
            RadarTier::Skip
        }
    }

    /// Name of the tier, as `{:?}` writes it.
    pub fn name(&self) -> (r: &'static str)
        ensures
            r@ == tier_name(*self),
    {
        match self {
            RadarTier::Elite => "Elite",
            RadarTier::Solid => "Solid",
            RadarTier::Marginal => "Marginal",
            RadarTier::Skip => "Skip",
        }
    }
}

/// Name of a tier.
pub open spec fn tier_name(t: RadarTier) -> Seq<char> {
    match t {
        RadarTier::Elite => "Elite"@,
        RadarTier::Solid => "Solid"@,
        RadarTier::Marginal => "Marginal"@,
        RadarTier::Skip => "Skip"@,
    }
}

/// RADAR opportunity score (0-400).
#[derive(Debug, Clone)]
pub struct RadarScore {
    /// Total score (0-400).
    pub score: u16,
    /// Market structure contribution (0-140).
    pub market_structure: u16,
    /// Technicals contribution (0-160).
    pub technicals: u16,
    /// Funding contribution (0-100).
    pub funding: u16,
    /// Priority tier.
    pub tier: RadarTier,
    /// Recommended strategy.
    pub recommended_strategy: Option<String>,
    /// Symbol analyzed.
    pub symbol: String,
    /// Time of the score, in seconds since the Unix epoch.
    pub timestamp: i64,
}

impl RadarScore {
    /// An elite opportunity (250 and above)?
    pub fn is_elite(&self) -> (r: bool)
        ensures
            r == (self.score >= 250),
    {
        self.score >= 250
    }

    /// A solid opportunity (170 and above)?
    pub fn is_solid(&self) -> (r: bool)
        ensures
            r == (self.score >= 170),
    {
        self.score >= 170
    }

    /// A marginal one (140 to 169)?
    pub fn is_marginal(&self) -> (r: bool)
        ensures
            r == (140 <= self.score < 170),
    {
        self.score >= 140 && self.score < 170
    }

    /// To be skipped (below 140)?
    pub fn should_skip(&self) -> (r: bool)
        ensures
            r == (self.score < 140),
    {
        self.score < 140
    }
}

/// PULSE direction.
#[derive(Debug, Clone, Copy, PartialEq, Eq, Structural)]
pub enum PulseDirection {
    Up,
    Down,
    Neutral,
}

/// PULSE momentum signal (6 tiers).
#[derive(Debug, Clone)]
pub struct PulseSignal {
    /// Pulse tier (1-6).
    pub tier: u8,
    /// Immediate mover score (0-100).
    pub immediate_mover: u8,
    /// Volume surge score (0-100).
    pub volume_surge: u8,
    /// Momentum direction.
    pub direction: PulseDirection,
    /// Strength (0-1).
    pub strength: Dec,
    /// Symbol.
    pub symbol: String,
    /// Time of the signal, in seconds since the Unix epoch.
    pub timestamp: i64,
}

impl PulseSignal {
    /// A strong pulse (tier 4 and above)?
    pub fn is_strong(&self) -> (r: bool)
        ensures
            r == (self.tier >= 4),
    {
        self.tier >= 4
    }

    /// An immediate mover?
    pub fn is_immediate_mover(&self) -> (r: bool)
        ensures
            r == (self.immediate_mover >= 80),
    {
        self.immediate_mover >= 80
    }

    /// A volume surge?
    pub fn has_volume_surge(&self) -> (r: bool)
        ensures
            r == (self.volume_surge >= 70),
    {
        self.volume_surge >= 70
    }
}

/// GUARD configuration.
#[derive(Debug, Clone, Copy)]
pub struct GuardConfig {
    /// Phase 1 retrace fraction (default 3%).
    pub phase1_retrace: Dec,
    /// Phase 1 max breaches before exit.
    pub phase1_max_breaches: u8,
    /// Phase 2 retrace fraction (default 1.5%).
    pub phase2_retrace: Dec,
    /// Phase 2 max breaches before exit.
    pub phase2_max_breaches: u8,
    /// Stagnation timeout in minutes.
    pub stagnation_timeout_mins: u32,
    /// Minimum ROE percent for a stagnation exit.
    pub stagnation_min_roe: Dec,
}

/// The default GUARD configuration: 3% then 1.5% retrace, 3 then 2
/// breaches, a 60-minute stagnation timeout at 8% ROE.
pub open spec fn is_default_guard_config(c: GuardConfig) -> bool {
    &&& c.phase1_retrace@ == dlit(3, 2)
    &&& c.phase1_max_breaches == 3
    &&& c.phase2_retrace@ == dlit(15, 3)
    &&& c.phase2_max_breaches == 2
    &&& c.stagnation_timeout_mins == 60
    &&& c.stagnation_min_roe@ == dint(8)
}

impl Default for GuardConfig {
    fn default() -> (r: GuardConfig)
        ensures
            is_default_guard_config(r),
    {
        GuardConfig {
            phase1_retrace: Dec::new(3, 2),
            phase1_max_breaches: 3,
            phase2_retrace: Dec::new(15, 3),
            phase2_max_breaches: 2,
            stagnation_timeout_mins: 60,
            stagnation_min_roe: Dec::from_u64(8),
        }
    }
}

/// GUARD trailing stop state of a position.
#[derive(Debug)]
pub struct GuardState {
    pub position_id: String,
    pub symbol: String,
    /// Current phase (1 or 2).
    pub phase: u8,
    /// Current trailing stop price.
    pub stop_price: Dec,
    /// Highest price seen.
    pub high_watermark: Dec,
    /// Number of phase breaches.
    pub breach_count: u8,
    pub entry_price: Dec,
    /// Current ROE in percent.
    pub roe_pct: Dec,
    /// Updates without a new high.
    pub stagnation_minutes: u32,
    /// Time of the last update, in seconds since the Unix epoch.
    pub last_update: i64,
}

impl Clone for GuardState {
    fn clone(&self) -> (r: GuardState)
        ensures
            r == *self,
    {
        GuardState {
            position_id: self.position_id.clone(),
            symbol: self.symbol.clone(),
            phase: self.phase,
            stop_price: self.stop_price,
            high_watermark: self.high_watermark,
            breach_count: self.breach_count,
            entry_price: self.entry_price,
            roe_pct: self.roe_pct,
            stagnation_minutes: self.stagnation_minutes,
            last_update: self.last_update,
        }
    }
}

impl GuardState {
    /// GUARD state for a new position: phase 1, stop 3% below entry.
    pub fn new(position_id: String, symbol: String, entry_price: Dec) -> (r: GuardState)
        ensures
            r.position_id == position_id,
            r.symbol == symbol,
            r.phase == 1,
            r.stop_price@ == dmul(entry_price@, dlit(97, 2)),
            r.high_watermark == entry_price,
            r.breach_count == 0,
            r.entry_price == entry_price,
            r.roe_pct@ == dint(0),
            r.stagnation_minutes == 0,
    {
        GuardState {
            position_id,
            symbol,
            phase: 1,
            stop_price: entry_price.mul(Dec::new(97, 2)),
            high_watermark: entry_price,
            breach_count: 0,
            entry_price,
            roe_pct: Dec::zero(),
            stagnation_minutes: 0,
            last_update: now_secs(),
        }
    }

    /// Update with a new price: ROE, high watermark, trailing stop (which
    /// only ever rises) and the move to phase 2 at 8% ROE.
    pub fn update(&mut self, current_price: Dec, config: &GuardConfig)
        requires
            units(old(self).entry_price@) != 0,
            old(self).stagnation_minutes < u32::MAX,
        ensures
            final(self).roe_pct@ == dmul(
                ddiv(dsub(current_price@, old(self).entry_price@), old(self).entry_price@),
                dint(100),
            ),
            final(self).high_watermark == (if dlt(old(self).high_watermark@, current_price@) {
                current_price
            } else {
                old(self).high_watermark
            }),
            final(self).stagnation_minutes == (if dlt(old(self).high_watermark@, current_price@) {
                0
            } else {
                old(self).stagnation_minutes + 1
            }),
            ({
                let retrace = if old(self).phase == 1 {
                    config.phase1_retrace@
                } else {
                    config.phase2_retrace@
                };
                let candidate = dmul(final(self).high_watermark@, dsub(dint(1), retrace));
                final(self).stop_price@ == if dlt(old(self).stop_price@, candidate) {
                    candidate
                } else {
                    old(self).stop_price@
                }
            }),
            dle(old(self).stop_price@, final(self).stop_price@),
            final(self).phase == (if old(self).phase == 1 && dle(dint(8), final(self).roe_pct@) {
                2
            } else {
                old(self).phase
            }),
            final(self).breach_count == (if old(self).phase == 1 && dle(
                dint(8),
                final(self).roe_pct@,
            ) {
                0
            } else {
                old(self).breach_count
            }),
            final(self).position_id == old(self).position_id,
            final(self).symbol == old(self).symbol,
            final(self).entry_price == old(self).entry_price,
    {
        self.roe_pct = current_price.sub(self.entry_price).div(self.entry_price).mul(
            Dec::from_u64(100),
        );
        self.last_update = now_secs();
        if self.high_watermark.lt(&current_price) {
            self.high_watermark = current_price;
            self.stagnation_minutes = 0;
        } else {
            self.stagnation_minutes = self.stagnation_minutes + 1;
        }
        let retrace_pct = if self.phase == 1 {
            config.phase1_retrace
        } else {
            config.phase2_retrace
        };
        let new_stop = self.high_watermark.mul(Dec::one().sub(retrace_pct));
        if self.stop_price.lt(&new_stop) {
            self.stop_price = new_stop;
        }
        if self.phase == 1 && self.roe_pct.ge(&Dec::from_u64(8)) {
            self.phase = 2;
            self.breach_count = 0;
        }
    }

    /// Is the stop hit at this price?
    pub fn is_triggered(&self, current_price: Dec) -> (r: bool)
        ensures
            r == dle(current_price@, self.stop_price@),
    {
        current_price.le(&self.stop_price)
    }

    /// Has the position stagnated long enough at a good enough ROE to exit?
    pub fn should_stagnation_exit(&self, config: &GuardConfig) -> (r: bool)
        ensures
            r == (self.stagnation_minutes >= config.stagnation_timeout_mins && dle(
                config.stagnation_min_roe@,
                self.roe_pct@,
            )),
    {
        self.stagnation_minutes >= config.stagnation_timeout_mins && self.roe_pct.ge(
            &config.stagnation_min_roe,
        )
    }
}

/// The GUARD stop of a position never falls: whatever the price, an update
/// leaves it at least where it was.
pub proof fn lemma_guard_stop_monotone(old_stop: (int, int), candidate: (int, int))
    ensures
        dle(old_stop, if dlt(old_stop, candidate) {
            candidate
        } else {
            old_stop
        }),
{
}

/// Strategy types.
#[derive(Debug, Clone, Copy, PartialEq, Eq, Structural)]
pub enum StrategyType {
    EngineMm,
    AvellanedaMm,
    RegimeMm,
    SimpleMm,
    GridMm,
    LiquidationMm,
    FundingArb,
    BasisArb,
    MomentumBreakout,
    MeanReversion,
    AggressiveTaker,
    HedgeAgent,
    RfqAgent,
    ClaudeAgent,
}

/// Name of a strategy.
pub open spec fn strategy_name(s: StrategyType) -> Seq<char> {
    match s {
        StrategyType::EngineMm => "engine_mm"@,
        StrategyType::AvellanedaMm => "avellaneda_mm"@,
        StrategyType::RegimeMm => "regime_mm"@,
        StrategyType::SimpleMm => "simple_mm"@,
        StrategyType::GridMm => "grid_mm"@,
        StrategyType::LiquidationMm => "liquidation_mm"@,
        StrategyType::FundingArb => "funding_arb"@,
        StrategyType::BasisArb => "basis_arb"@,
        StrategyType::MomentumBreakout => "momentum_breakout"@,
        StrategyType::MeanReversion => "mean_reversion"@,
        StrategyType::AggressiveTaker => "aggressive_taker"@,
        StrategyType::HedgeAgent => "hedge_agent"@,
        StrategyType::RfqAgent => "rfq_agent"@,
        StrategyType::ClaudeAgent => "claude_agent"@,
    }
}

impl StrategyType {
    /// The six market making strategies.
    pub fn market_making() -> (r: Vec<StrategyType>)
        ensures
            r@ == seq![
                StrategyType::EngineMm,
                StrategyType::AvellanedaMm,
                StrategyType::RegimeMm,
                StrategyType::SimpleMm,
                StrategyType::GridMm,
                StrategyType::LiquidationMm,
            ],
    {
        vec![
            StrategyType::EngineMm,
            StrategyType::AvellanedaMm,
            StrategyType::RegimeMm,
            StrategyType::SimpleMm,
            StrategyType::GridMm,
            StrategyType::LiquidationMm,
        ]
    }

    /// The two arbitrage strategies.
    pub fn arbitrage() -> (r: Vec<StrategyType>)
        ensures
            r@ == seq![StrategyType::FundingArb, StrategyType::BasisArb],
    {
        vec![StrategyType::FundingArb, StrategyType::BasisArb]
    }

    /// The three directional strategies.
    pub fn directional() -> (r: Vec<StrategyType>)
        ensures
            r@ == seq![
                StrategyType::MomentumBreakout,
                StrategyType::MeanReversion,
                StrategyType::AggressiveTaker,
            ],
    {
        vec![StrategyType::MomentumBreakout, StrategyType::MeanReversion, StrategyType::AggressiveTaker]
    }

    /// Strategy name.
    pub fn name(&self) -> (r: &'static str)
        ensures
            r@ == strategy_name(*self),
    {
        match self {
            StrategyType::EngineMm => "engine_mm",
            StrategyType::AvellanedaMm => "avellaneda_mm",
            StrategyType::RegimeMm => "regime_mm",
            StrategyType::SimpleMm => "simple_mm",
            StrategyType::GridMm => "grid_mm",
            StrategyType::LiquidationMm => "liquidation_mm",
            StrategyType::FundingArb => "funding_arb",
            StrategyType::BasisArb => "basis_arb",
            StrategyType::MomentumBreakout => "momentum_breakout",
            StrategyType::MeanReversion => "mean_reversion",
            StrategyType::AggressiveTaker => "aggressive_taker",
            StrategyType::HedgeAgent => "hedge_agent",
            StrategyType::RfqAgent => "rfq_agent",
            StrategyType::ClaudeAgent => "claude_agent",
        }
    }
}

/// Strategy signal from the TA brain.
#[derive(Debug, Clone)]
pub struct TAStrategySignal {
    pub strategy: StrategyType,
    pub signal: Signal,
    /// Confidence (0-1).
    pub confidence: Dec,
    pub reason: String,
    pub entry_price: Option<Dec>,
    pub stop_loss: Option<Dec>,
    pub take_profit: Option<Dec>,
}

/// TA action types.
#[derive(Debug, Clone, Copy, PartialEq, Eq, Structural)]
pub enum TAAction {
    Long,
    Short,
    Hold,
    Close,
    Wait,
}

/// TA brain recommendation.
#[derive(Debug, Clone)]
pub struct TARecommendation {
    pub action: TAAction,
    pub strategy: Option<StrategyType>,
    /// Position size factor (0-1).
    pub size_factor: Dec,
    pub confidence: Dec,
    pub reasoning: String,
}

/// TA brain output for the consensus layer.
#[derive(Debug, Clone)]
pub struct TABrainOutput {
    pub symbol: String,
    pub radar_score: RadarScore,
    pub pulse_signal: PulseSignal,
    pub regime: Regime,
    pub strategy_signals: Vec<TAStrategySignal>,
    pub guard_states: Vec<GuardState>,
    /// Overall sentiment (-1 to +1).
    pub overall_sentiment: Dec,
    /// Overall confidence (0-1).
    pub overall_confidence: Dec,
    pub recommended_action: TARecommendation,
    /// Time of the analysis, in seconds since the Unix epoch.
    pub timestamp: i64,
}

/// TA brain configuration.
#[derive(Debug, Clone)]
pub struct TABrainConfig {
    pub update_interval_secs: u64,
    pub radar_elite_threshold: u16,
    pub radar_solid_threshold: u16,
    pub radar_marginal_threshold: u16,
    pub pulse_interval_secs: u64,
    pub pulse_immediate_threshold: u8,
    pub pulse_volume_threshold: u8,
    pub guard_config: GuardConfig,
    /// Strategies that produce signals, in order.
    pub enabled_strategies: Vec<StrategyType>,
    pub max_positions: usize,
    pub leverage: u8,
}

/// The default TA brain configuration: RADAR tiers at 250 / 170 / 140,
/// PULSE thresholds 80 / 70, the default GUARD, all seven strategies, at most
/// three positions at 10x leverage.
pub open spec fn is_default_ta_config(c: TABrainConfig) -> bool {
    &&& c.update_interval_secs == 10
    &&& c.radar_elite_threshold == 250
    &&& c.radar_solid_threshold == 170
    &&& c.radar_marginal_threshold == 140
    &&& c.pulse_interval_secs == 60
    &&& c.pulse_immediate_threshold == 80
    &&& c.pulse_volume_threshold == 70
    &&& is_default_guard_config(c.guard_config)
    &&& c.enabled_strategies@ == seq![
        StrategyType::EngineMm,
        StrategyType::AvellanedaMm,
        StrategyType::RegimeMm,
        StrategyType::MomentumBreakout,
        StrategyType::MeanReversion,
        StrategyType::FundingArb,
        StrategyType::BasisArb,
    ]
    &&& c.max_positions == 3
    &&& c.leverage == 10
}

/// Two TA brain configurations hold the same settings.
pub open spec fn same_ta_config(a: TABrainConfig, b: TABrainConfig) -> bool {
    &&& a.update_interval_secs == b.update_interval_secs
    &&& a.radar_elite_threshold == b.radar_elite_threshold
    &&& a.radar_solid_threshold == b.radar_solid_threshold
    &&& a.radar_marginal_threshold == b.radar_marginal_threshold
    &&& a.pulse_interval_secs == b.pulse_interval_secs
    &&& a.pulse_immediate_threshold == b.pulse_immediate_threshold
    &&& a.pulse_volume_threshold == b.pulse_volume_threshold
    &&& a.guard_config == b.guard_config
    &&& a.enabled_strategies@ == b.enabled_strategies@
    &&& a.max_positions == b.max_positions
    &&& a.leverage == b.leverage
}

impl TABrainConfig {
    /// A copy of this configuration.
    pub(crate) fn duplicate(&self) -> (r: TABrainConfig)
        ensures
            same_ta_config(r, *self),
    {
        let mut strategies: Vec<StrategyType> = Vec::new();
        let mut i: usize = 0;
        while i < self.enabled_strategies.len()
            invariant
                i <= self.enabled_strategies.len(),
                strategies@ == self.enabled_strategies@.take(i as int),
            decreases self.enabled_strategies.len() - i,
        {
            strategies.push(self.enabled_strategies[i]);
            proof {
                assert(self.enabled_strategies@.take(i + 1) =~= self.enabled_strategies@.take(i as int).push(
                    self.enabled_strategies@[i as int],
                ));
            }
            i = i + 1;
        }
        proof {
            assert(self.enabled_strategies@.take(i as int) =~= self.enabled_strategies@);
        }
        TABrainConfig {
            update_interval_secs: self.update_interval_secs,
            radar_elite_threshold: self.radar_elite_threshold,
            radar_solid_threshold: self.radar_solid_threshold,
            radar_marginal_threshold: self.radar_marginal_threshold,
            pulse_interval_secs: self.pulse_interval_secs,
            pulse_immediate_threshold: self.pulse_immediate_threshold,
            pulse_volume_threshold: self.pulse_volume_threshold,
            guard_config: self.guard_config,
            enabled_strategies: strategies,
            max_positions: self.max_positions,
            leverage: self.leverage,
        }
    }
}

impl Default for TABrainConfig {
    fn default() -> (r: TABrainConfig)
        ensures
            is_default_ta_config(r),
    {
        TABrainConfig {
            update_interval_secs: 10,
            radar_elite_threshold: 250,
            radar_solid_threshold: 170,
            radar_marginal_threshold: 140,
            pulse_interval_secs: 60,
            pulse_immediate_threshold: 80,
            pulse_volume_threshold: 70,
            guard_config: GuardConfig::default(),
            enabled_strategies: vec![
                StrategyType::EngineMm,
                StrategyType::AvellanedaMm,
                StrategyType::RegimeMm,
                StrategyType::MomentumBreakout,
                StrategyType::MeanReversion,
                StrategyType::FundingArb,
                StrategyType::BasisArb,
            ],
            max_positions: 3,
            leverage: 10,
        }
    }
}

/// Technical analysis brain.
pub struct TABrain {
    config: TABrainConfig,
    /// GUARD states of the tracked positions; no position id occurs twice.
    guard_states: Vec<GuardState>,
    /// The latest RADAR scores (at most 100).
    recent_radar: Vec<RadarScore>,
    /// The latest PULSE signals (at most 100).
    recent_pulse: Vec<PulseSignal>,
}

// ---------------------------------------------------------------- RADAR specs

/// Volume contribution to market structure.
pub open spec fn volume_points(volume: (int, int)) -> int {
    if dlt(dint(100_000_000), volume) {
        60
    } else if dlt(dint(50_000_000), volume) {
        50
    } else if dlt(dint(10_000_000), volume) {
        40
    } else if dlt(dint(1_000_000), volume) {
        30
    } else {
        15
    }
}

/// Open interest contribution to market structure.
pub open spec fn oi_points(oi: Option<(int, int)>) -> int {
    match oi {
        Some(o) => if dlt(dint(500_000_000), o) {
            50
        } else if dlt(dint(100_000_000), o) {
            40
        } else if dlt(dint(50_000_000), o) {
            30
        } else {
            20
        },
        None => 25,
    }
}

/// Market structure score (capped at 140); depth counts a fixed 20.
pub open spec fn market_structure_of(volume: (int, int), oi: Option<(int, int)>) -> int {
    let s = volume_points(volume) + oi_points(oi) + 20;
    if s < 140 {
        s
    } else {
        140
    }
}

/// The last 20 prices in reverse order (newest first).
pub open spec fn last20_rev(p: Seq<(int, int)>) -> Seq<(int, int)> {
    p.subrange(p.len() - 20, p.len() as int).reverse()
}

/// The 20-period simple moving average, summed from the newest price back.
pub open spec fn sma20_of(p: Seq<(int, int)>) -> (int, int) {
    ddiv(sum_of(last20_rev(p)), dint(20))
}

/// Trend score: how far the price is from its 20-period average.
pub open spec fn trend_points(p: Seq<(int, int)>) -> int {
    if p.len() < 20 {
        35
    } else {
        let sma = sma20_of(p);
        let dev = dabs(dmul(ddiv(dsub(p.last(), sma), sma), dint(100)));
        if dlt(dint(5), dev) {
            70
        } else if dlt(dint(2), dev) {
            50
        } else {
            30
        }
    }
}

/// RSI over the last 14 changes.
pub open spec fn rsi14_of(p: Seq<(int, int)>) -> (int, int) {
    let (g, l) = gains_losses(diffs(p.subrange(p.len() - 15, p.len() as int)));
    let avg_gain = ddiv(g, dint(14));
    let avg_loss = ddiv(l, dint(14));
    if units(avg_loss) == 0 {
        dint(100)
    } else {
        dsub(dint(100), ddiv(dint(100), dadd(dint(1), ddiv(avg_gain, avg_loss))))
    }
}

/// RSI score: extremes score highest.
pub open spec fn rsi_points(p: Seq<(int, int)>) -> int {
    if p.len() < 15 {
        25
    } else {
        let rsi = rsi14_of(p);
        if dlt(rsi, dint(30)) || dlt(dint(70), rsi) {
            50
        } else if dlt(rsi, dint(40)) || dlt(dint(60), rsi) {
            35
        } else {
            20
        }
    }
}

/// Pattern score of a regime.
pub open spec fn pattern_points(regime: Regime) -> int {
    match regime {
        Regime::TrendingUp | Regime::TrendingDown => 40,
        Regime::MeanReverting => 30,
        Regime::HighVolatility => 20,
        Regime::LowVolatility => 25,
        Regime::Choppy => 10,
    }
}

/// Technicals score (capped at 160; 80 with fewer than 14 prices).
pub open spec fn technicals_of(p: Seq<(int, int)>, regime: Regime) -> int {
    if p.len() < 14 {
        80
    } else {
        let s = trend_points(p) + rsi_points(p) + pattern_points(regime);
        if s < 160 {
            s
        } else {
            160
        }
    }
}

/// Funding score: extreme funding rates are arbitrage opportunities.
pub open spec fn funding_points(rate: Option<(int, int)>) -> int {
    match rate {
        Some(r) => {
            let bps = dabs(dmul(r, dint(10000)));
            if dlt(dint(50), bps) {
                100
            } else if dlt(dint(20), bps) {
                70
            } else if dlt(dint(10), bps) {
                50
            } else {
                30
            }
        },
        None => 50,
    }
}

/// Strategy recommended by RADAR.
pub open spec fn recommended_of(regime: Regime, rate: Option<(int, int)>) -> Option<Seq<char>> {
    if rate is Some && dlt(dint(30), dabs(dmul(rate->0, dint(10000)))) {
        Some("funding_arb"@)
    } else {
        match regime {
            Regime::TrendingUp | Regime::TrendingDown => Some("momentum_breakout"@),
            Regime::MeanReverting => Some("mean_reversion"@),
            Regime::HighVolatility => Some("regime_mm"@),
            Regime::LowVolatility => Some("avellaneda_mm"@),
            Regime::Choppy => None,
        }
    }
}

/// The prices for which the RADAR score can be computed: with 20 prices or
/// more, their 20-period average must not be zero (it divides the deviation).
pub open spec fn radar_ok(p: Seq<(int, int)>) -> bool {
    p.len() >= 20 ==> units(sma20_of(p)) != 0
}

// ---------------------------------------------------------------- PULSE specs

/// Immediate mover score from the change over the last five prices.
pub open spec fn immediate_mover_of(p: Seq<(int, int)>) -> int {
    if p.len() < 5 {
        50
    } else {
        let oldest = p[p.len() - 5];
        let change = dmul(dabs(ddiv(dsub(p.last(), oldest), oldest)), dint(100));
        if dlt(dint(2), change) {
            100
        } else if dlt(dint(1), change) {
            80
        } else if dlt(dlit(5, 1), change) {
            60
        } else {
            40
        }
    }
}

/// Volume surge score: the last five volumes against the whole series.
pub open spec fn volume_surge_of(v: Seq<(int, int)>) -> int {
    if v.len() < 10 {
        50
    } else {
        let recent = ddiv(sum_of(v.subrange(v.len() - 5, v.len() as int).reverse()), dint(5));
        let baseline = ddiv(sum_of(v), dint(v.len() as int));
        if units(baseline) == 0 {
            50
        } else {
            let ratio = ddiv(recent, baseline);
            if dlt(dint(3), ratio) {
                100
            } else if dlt(dint(2), ratio) {
                80
            } else if dlt(dlit(15, 1), ratio) {
                60
            } else {
                40
            }
        }
    }
}

/// Tier from the two PULSE scores.
pub open spec fn pulse_tier_of(immediate: int, volume: int) -> int {
    let c = (immediate + volume) / 2;
    if 90 <= c <= 100 {
        6
    } else if 75 <= c <= 89 {
        5
    } else if 60 <= c <= 74 {
        4
    } else if 45 <= c <= 59 {
        3
    } else if 30 <= c <= 44 {
        2
    } else {
        1
    }
}

/// Direction of the last price step (beyond 0.1%).
pub open spec fn pulse_direction_of(p: Seq<(int, int)>) -> PulseDirection {
    if p.len() >= 2 {
        let last = p[p.len() - 1];
        let prev = p[p.len() - 2];
        if dlt(dmul(prev, dlit(1001, 3)), last) {
            PulseDirection::Up
        } else if dlt(last, dmul(prev, dlit(999, 3))) {
            PulseDirection::Down
        } else {
            PulseDirection::Neutral
        }
    } else {
        PulseDirection::Neutral
    }
}

/// The prices for which the PULSE can be computed: with five prices or more,
/// the fifth last must not be zero (it divides the change).
pub open spec fn pulse_ok(p: Seq<(int, int)>) -> bool {
    p.len() >= 5 ==> units(p[p.len() - 5]) != 0
}

// ------------------------------------------------------------- helpers (exec)

/// Sum of `v[lo..hi]` taken from the end backwards.
fn sum_rev(v: &Vec<Dec>, lo: usize, hi: usize) -> (r: Dec)
    requires
        lo <= hi <= v.len(),
    ensures
        r@ == sum_of(vals(v@).subrange(lo as int, hi as int).reverse()),
{
    let ghost s = vals(v@).subrange(lo as int, hi as int);
    let mut acc = Dec::zero();
    let mut i = hi;
    while i > lo
        invariant
            lo <= i <= hi <= v.len(),
            s == vals(v@).subrange(lo as int, hi as int),
            acc@ == sum_of(s.subrange(i - lo, hi - lo).reverse()),
        decreases i,
    {
        proof {
            assert(s.subrange(i - 1 - lo, hi - lo).reverse().drop_last() =~= s.subrange(
                i - lo,
                hi - lo,
            ).reverse());
            assert(s.subrange(i - 1 - lo, hi - lo).reverse().last() == s[i - 1 - lo]);
        }
        acc = acc.add(v[i - 1]);
        i = i - 1;
    }
    proof {
        assert(s.subrange(0, hi - lo) =~= s);
    }
    acc
}

/// Largest of `s` as `Iterator::max` finds it (the last of equal maxima).
pub open spec fn iter_max(s: Seq<(int, int)>) -> (int, int)
    decreases s.len(),
{
    if s.len() <= 1 {
        s[0]
    } else {
        dmax(iter_max(s.drop_last()), s.last())
    }
}

/// Smallest of `s` as `Iterator::min` finds it (the first of equal minima).
pub open spec fn iter_min(s: Seq<(int, int)>) -> (int, int)
    decreases s.len(),
{
    if s.len() <= 1 {
        s[0]
    } else {
        dmin(iter_min(s.drop_last()), s.last())
    }
}

/// Maximum and minimum of the last 20 prices, walked newest first.
fn extremes20(v: &Vec<Dec>) -> (r: (Dec, Dec))
    requires
        v.len() >= 20,
    ensures
        r.0@ == iter_max(last20_rev(vals(v@))),
        r.1@ == iter_min(last20_rev(vals(v@))),
{
    let len = v.len();
    let ghost s = last20_rev(vals(v@));
    let mut hi = v[len - 1];
    let mut lo = v[len - 1];
    let mut k: usize = 1;
    proof {
        assert(s.take(1).len() == 1);
    }
    while k < 20
        invariant
            1 <= k <= 20,
            len == v.len(),
            len >= 20,
            s == last20_rev(vals(v@)),
            hi@ == iter_max(s.take(k as int)),
            lo@ == iter_min(s.take(k as int)),
        decreases 20 - k,
    {
        proof {
            assert(s.take(k + 1).drop_last() =~= s.take(k as int));
            assert(s[k as int] == vals(v@)[len - 1 - k]);
        }
        let x = v[len - 1 - k];
        hi = hi.max(x);
        lo = lo.min(x);
        k = k + 1;
    }
    proof {
        assert(s.take(20) =~= s);
    }
    (hi, lo)
}

// ------------------------------------------------------ strategy signal specs

/// Optional parts of a TA strategy signal: strategy, signal, confidence,
/// reason, entry, stop loss and take profit.
pub type TAParts = (
    StrategyType,
    Signal,
    (int, int),
    Seq<char>,
    Option<(int, int)>,
    Option<(int, int)>,
    Option<(int, int)>,
);

/// The parts of a TA strategy signal.
pub open spec fn ta_view(s: TAStrategySignal) -> TAParts {
    (
        s.strategy,
        s.signal,
        s.confidence@,
        s.reason@,
        opt_view(s.entry_price),
        opt_view(s.stop_loss),
        opt_view(s.take_profit),
    )
}

/// The parts of an optional TA strategy signal.
pub open spec fn opt_ta_view(o: Option<TAStrategySignal>) -> Option<TAParts> {
    match o {
        Some(s) => Some(ta_view(s)),
        None => None,
    }
}

/// Momentum breakout: in a trend, within 2% of the 20-period high (buy) or low (sell).
pub open spec fn breakout_of(p: Seq<(int, int)>, regime: Regime) -> Option<TAParts> {
    if p.len() < 20 || !(regime == Regime::TrendingUp || regime == Regime::TrendingDown) {
        None
    } else {
        let current = p.last();
        let high = iter_max(last20_rev(p));
        let low = iter_min(last20_rev(p));
        let (sig, reason) = if dlt(dmul(high, dsub(dint(1), dlit(2, 2))), current) {
            (
                Signal::Buy,
                "Breakout above 20-period high "@ + crate::decimal::decimal_text(high),
            )
        } else if dlt(current, dmul(low, dadd(dint(1), dlit(2, 2)))) {
            (
                Signal::Sell,
                "Breakdown below 20-period low "@ + crate::decimal::decimal_text(low),
            )
        } else {
            (Signal::Hold, "No breakout detected"@)
        };
        Some(
            (
                StrategyType::MomentumBreakout,
                sig,
                dlit(7, 1),
                reason,
                Some(current),
                Some(dmul(current, dlit(97, 2))),
                Some(dmul(current, dlit(105, 2))),
            ),
        )
    }
}

/// Standard deviation of the last 20 prices (1 when their variance is not positive).
pub open spec fn std20_of(p: Seq<(int, int)>) -> (int, int) {
    let sma = sma20_of(p);
    let variance = ddiv(
        sum_of(last20_rev(p).map_values(|x: (int, int)| dmul(dsub(x, sma), dsub(x, sma)))),
        dint(20),
    );
    if dlt(dint(0), variance) {
        crate::series::newton(variance, ddiv(variance, dint(2)), 10)
    } else {
        dint(1)
    }
}

/// Mean reversion: z-score of the last price against the 20-period average.
pub open spec fn reversion_of(p: Seq<(int, int)>, regime: Regime) -> Option<TAParts> {
    if p.len() < 20 || !(regime == Regime::MeanReverting || regime == Regime::LowVolatility) {
        None
    } else {
        let sma = sma20_of(p);
        let current = p.last();
        let std = std20_of(p);
        let z = if dlt(dint(0), std) {
            ddiv(dsub(current, sma), std)
        } else {
            dint(0)
        };
        let zt = crate::decimal::decimal_text_dp(z, 2);
        let (sig, reason, conf) = if dlt(z, dint(-2)) {
            (Signal::StrongBuy, "Z-score "@ + zt + " - oversold"@, dlit(85, 2))
        } else if dlt(z, dlit(-15, 1)) {
            (Signal::Buy, "Z-score "@ + zt + " - approaching oversold"@, dlit(70, 2))
        } else if dlt(dint(2), z) {
            (Signal::StrongSell, "Z-score "@ + zt + " - overbought"@, dlit(85, 2))
        } else if dlt(dlit(15, 1), z) {
            (Signal::Sell, "Z-score "@ + zt + " - approaching overbought"@, dlit(70, 2))
        } else {
            (Signal::Hold, "Z-score "@ + zt + " - neutral"@, dlit(50, 2))
        };
        Some(
            (
                StrategyType::MeanReversion,
                sig,
                conf,
                reason,
                Some(current),
                Some(dmul(current, dlit(98, 2))),
                Some(sma),
            ),
        )
    }
}

/// Funding arbitrage: at 20 bps of funding or more.
pub open spec fn funding_arb_of(rate: Option<(int, int)>) -> Option<TAParts> {
    match rate {
        None => None,
        Some(r) => {
            let bps = dmul(r, dint(10000));
            let bt = crate::decimal::decimal_text_dp(bps, 1);
            if dlt(dabs(bps), dint(20)) {
                None
            } else {
                let (sig, reason) = if dlt(dint(30), bps) {
                    (
                        Signal::Sell,
                        "High positive funding "@ + bt + "bps - short perp, long spot"@,
                    )
                } else if dlt(bps, dint(-30)) {
                    (
                        Signal::Buy,
                        "High negative funding "@ + bt + "bps - long perp, short spot"@,
                    )
                } else {
                    (Signal::Hold, "Moderate funding "@ + bt + "bps"@)
                };
                Some((StrategyType::FundingArb, sig, dlit(80, 2), reason, None, None, None))
            }
        },
    }
}

/// Basis arbitrage: at 50 bps of funding or more.
pub open spec fn basis_arb_of(rate: Option<(int, int)>) -> Option<TAParts> {
    match rate {
        None => None,
        Some(r) => {
            let bps = dmul(r, dint(10000));
            let bt = crate::decimal::decimal_text_dp(bps, 1);
            if dlt(dabs(bps), dint(50)) {
                None
            } else if dlt(dint(50), bps) {
                Some(
                    (
                        StrategyType::BasisArb,
                        Signal::Sell,
                        dlit(75, 2),
                        "Contango "@ + bt + "bps - short basis"@,
                        None,
                        None,
                        None,
                    ),
                )
            } else {
                Some(
                    (
                        StrategyType::BasisArb,
                        Signal::Buy,
                        dlit(75, 2),
                        "Backwardation "@ + bt + "bps - long basis"@,
                        None,
                        None,
                        None,
                    ),
                )
            }
        },
    }
}

/// Market making: how well the regime suits the strategy.
pub open spec fn mm_of(strategy: StrategyType, p: Seq<(int, int)>, regime: Regime) -> Option<TAParts> {
    let choice: Option<(bool, Seq<char>, (int, int))> = match strategy {
        StrategyType::AvellanedaMm => match regime {
            Regime::LowVolatility | Regime::MeanReverting => Some(
                (true, "Low vol regime - optimal for Avellaneda MM"@, dlit(80, 2)),
            ),
            Regime::HighVolatility => Some(
                (false, "High vol - widen spreads or pause MM"@, dlit(40, 2)),
            ),
            _ => Some((true, "Neutral regime for MM"@, dlit(60, 2))),
        },
        StrategyType::RegimeMm => Some(
            (true, "Regime MM auto-adapts to current conditions"@, dlit(75, 2)),
        ),
        StrategyType::EngineMm => match regime {
            Regime::Choppy => Some((false, "Choppy - pause engine MM"@, dlit(30, 2))),
            _ => Some((true, "Engine MM active"@, dlit(70, 2))),
        },
        _ => None,
    };
    match choice {
        None => None,
        Some((suitable, reason, conf)) => if suitable {
            Some(
                (
                    strategy,
                    Signal::Buy,
                    conf,
                    reason,
                    if p.len() == 0 {
                        None
                    } else {
                        Some(p.last())
                    },
                    None,
                    None,
                ),
            )
        } else {
            Some((strategy, Signal::Hold, conf, reason, None, None, None))
        },
    }
}

/// The signal of one strategy.
pub open spec fn strategy_signal_of(
    strategy: StrategyType,
    p: Seq<(int, int)>,
    regime: Regime,
    rate: Option<(int, int)>,
) -> Option<TAParts> {
    match strategy {
        StrategyType::MomentumBreakout => breakout_of(p, regime),
        StrategyType::MeanReversion => reversion_of(p, regime),
        StrategyType::FundingArb => funding_arb_of(rate),
        StrategyType::BasisArb => basis_arb_of(rate),
        StrategyType::EngineMm | StrategyType::AvellanedaMm | StrategyType::RegimeMm => mm_of(
            strategy,
            p,
            regime,
        ),
        _ => None,
    }
}

/// Signals of a list of strategies, in order, skipping those without one.
pub open spec fn strategy_signals_of(
    strategies: Seq<StrategyType>,
    p: Seq<(int, int)>,
    regime: Regime,
    rate: Option<(int, int)>,
) -> Seq<TAParts>
    decreases strategies.len(),
{
    if strategies.len() == 0 {
        Seq::empty()
    } else {
        let rest = strategy_signals_of(strategies.drop_last(), p, regime, rate);
        match strategy_signal_of(strategies.last(), p, regime, rate) {
            Some(s) => rest.push(s),
            None => rest,
        }
    }
}

/// Base sentiment of a signal.
pub open spec fn signal_base(s: Signal) -> (int, int) {
    match s {
        Signal::StrongBuy => dlit(10, 1),
        Signal::Buy => dlit(5, 1),
        Signal::Hold => dlit(0, 1),
        Signal::Sell => dlit(-5, 1),
        Signal::StrongSell => dlit(-10, 1),
    }
}

/// Sum of the confidence-weighted base sentiments of the signals.
pub open spec fn sentiment_sum(s: Seq<TAParts>) -> (int, int)
    decreases s.len(),
{
    if s.len() == 0 {
        dint(0)
    } else {
        dadd(sentiment_sum(s.drop_last()), dmul(signal_base(s.last().1), s.last().2))
    }
}

/// Sum of the confidences of the signals.
pub open spec fn confidence_sum(s: Seq<TAParts>) -> (int, int)
    decreases s.len(),
{
    if s.len() == 0 {
        dint(0)
    } else {
        dadd(confidence_sum(s.drop_last()), s.last().2)
    }
}

/// Overall TA sentiment: average weighted base sentiment (zero without signals).
pub open spec fn overall_sentiment_of(s: Seq<TAParts>) -> (int, int) {
    if s.len() == 0 {
        dint(0)
    } else {
        ddiv(sentiment_sum(s), dint(s.len() as int))
    }
}

/// Overall TA confidence: half signal confidence, 30% RADAR, 20% PULSE strength.
pub open spec fn overall_confidence_of(s: Seq<TAParts>, radar: int, strength: (int, int)) -> (
    int,
    int,
) {
    let sig_conf = if s.len() == 0 {
        dlit(5, 1)
    } else {
        ddiv(confidence_sum(s), dint(s.len() as int))
    };
    dadd(
        dadd(dmul(sig_conf, dlit(5, 1)), dmul(ddiv(dint(radar), dint(400)), dlit(3, 1))),
        dmul(strength, dlit(2, 1)),
    )
}

/// Strategy and confidence of the best matching signal.
pub open spec fn best_strategy_conf(s: Seq<TAParts>, long: bool) -> Option<(StrategyType, (int, int))>
    decreases s.len(),
{
    if s.len() == 0 {
        None
    } else {
        let rest = best_strategy_conf(s.drop_last(), long);
        let x = s.last();
        let bull = x.1 == Signal::StrongBuy || x.1 == Signal::Buy;
        if bull == long && (rest is None || dle((rest->0).1, x.2)) {
            Some((x.0, x.2))
        } else {
            rest
        }
    }
}

/// Strategy of the signal with the largest confidence (the last of equals)
/// among those whose bullishness matches `long`.
pub open spec fn best_strategy(s: Seq<TAParts>, long: bool) -> Option<StrategyType> {
    match best_strategy_conf(s, long) {
        Some((st, _)) => Some(st),
        None => None,
    }
}

/// Number of signals whose bullishness matches `bull`.
pub open spec fn agreeing(s: Seq<TAParts>, bull: bool) -> nat
    decreases s.len(),
{
    if s.len() == 0 {
        0
    } else {
        agreeing(s.drop_last(), bull) + if (s.last().1 == Signal::StrongBuy || s.last().1
            == Signal::Buy) == bull {
            1nat
        } else {
            0nat
        }
    }
}

/// The position size of a RADAR tier in units of 10^-28, before the cap
/// at 1: 1, 0.75, 0.5 or 0 of the position, times 1.2 with a strong
/// directional pulse.
pub open spec fn tier_size_units_uncapped(tier: RadarTier, boosted: bool) -> int {
    let base: int = match tier {
        RadarTier::Elite => 100,
        RadarTier::Solid => 75,
        RadarTier::Marginal => 50,
        RadarTier::Skip => 0,
    };
    if boosted {
        base * 12 * pow10(25)
    } else {
        base * pow10(26)
    }
}

/// The position size of a RADAR tier in units of 10^-28: the uncapped size
/// (see `tier_size_units_uncapped`), at most 1.
pub open spec fn tier_size_units(tier: RadarTier, boosted: bool) -> int {
    let u = tier_size_units_uncapped(tier, boosted);
    if u > pow10(28) {
        pow10(28)
    } else {
        u
    }
}

/// Recommended action and size factor (before the cap at 1).
pub open spec fn recommendation_of(
    radar_score: int,
    tier: RadarTier,
    pulse_tier: int,
    pulse_dir: PulseDirection,
    sentiment: (int, int),
) -> (TAAction, (int, int)) {
    let action = if dlt(dlit(3, 1), sentiment) {
        TAAction::Long
    } else if dlt(sentiment, dlit(-3, 1)) {
        TAAction::Short
    } else {
        TAAction::Hold
    };
    let base = match tier {
        RadarTier::Elite => dlit(10, 1),
        RadarTier::Solid => dlit(75, 2),
        RadarTier::Marginal => dlit(5, 1),
        RadarTier::Skip => dlit(0, 1),
    };
    let size = if pulse_tier >= 4 && pulse_dir != PulseDirection::Neutral {
        dmul(base, dlit(12, 1))
    } else {
        base
    };
    (action, size)
}

impl TABrain {
    /// TA brain with a configuration and nothing tracked.
    pub fn new(config: TABrainConfig) -> (r: TABrain)
        ensures
            r.config() == config,
            r.guard_states()@.len() == 0,
            r.recent_radar().len() == 0,
            r.recent_pulse().len() == 0,
    {
        TABrain {
            config,
            guard_states: Vec::new(),
            recent_radar: Vec::new(),
            recent_pulse: Vec::new(),
        }
    }

    pub fn with_defaults() -> (r: TABrain)
        ensures
            is_default_ta_config(r.config()),
            r.guard_states()@.len() == 0,
            r.recent_radar().len() == 0,
            r.recent_pulse().len() == 0,
    {
        TABrain::new(TABrainConfig::default())
    }

    /// The configuration.
    pub closed spec fn config(&self) -> TABrainConfig {
        self.config
    }

    /// The tracked GUARD states.
    pub closed spec fn guard_states(&self) -> Vec<GuardState> {
        self.guard_states
    }

    /// The latest RADAR scores.
    pub closed spec fn recent_radar(&self) -> Seq<RadarScore> {
        self.recent_radar@
    }

    /// The latest PULSE signals.
    pub closed spec fn recent_pulse(&self) -> Seq<PulseSignal> {
        self.recent_pulse@
    }

    /// RADAR score: market structure + technicals + funding, with its tier
    /// and a recommended strategy.
    pub fn calculate_radar(
        &self,
        symbol: &str,
        prices: &Vec<Dec>,
        volume: Dec,
        open_interest: Option<Dec>,
        funding_rate: Option<Dec>,
        regime: Regime,
    ) -> (r: RadarScore)
        requires
            radar_ok(vals(prices@)),
        ensures
            r.market_structure == market_structure_of(volume@, opt_view(open_interest)),
            r.technicals == technicals_of(vals(prices@), regime),
            r.funding == funding_points(opt_view(funding_rate)),
            r.score == r.market_structure + r.technicals + r.funding,
            r.score <= 400,
            r.market_structure <= 140,
            r.technicals <= 160,
            r.funding <= 100,
            r.tier == tier_of(r.score as int),
            match (r.recommended_strategy, recommended_of(regime, opt_view(funding_rate))) {
                (Some(a), Some(b)) => a@ == b,
                (None, None) => true,
                _ => false,
            },
            r.symbol@ == symbol@,
    {
        let market_structure = self.calculate_market_structure(volume, open_interest);
        let technicals = self.calculate_technicals(prices, regime);
        let funding = self.calculate_funding_score(funding_rate);
        let score = market_structure + technicals + funding;
        let tier = RadarTier::from_score(score);
        let recommended_strategy = self.recommend_strategy(regime, funding_rate);
        RadarScore {
            score,
            market_structure,
            technicals,
            funding,
            tier,
            recommended_strategy,
            symbol: symbol.to_owned(),
            timestamp: now_secs(),
        }
    }

    /// `calculate_radar` for any prices: `None` where the 20-period average
    /// of the prices is zero.
    pub fn try_calculate_radar(
        &self,
        symbol: &str,
        prices: &Vec<Dec>,
        volume: Dec,
        open_interest: Option<Dec>,
        funding_rate: Option<Dec>,
        regime: Regime,
    ) -> (r: Option<RadarScore>)
        ensures
            r is Some <==> radar_ok(vals(prices@)),
            r matches Some(s) ==> s.score as int == market_structure_of(
                volume@,
                opt_view(open_interest),
            ) + technicals_of(vals(prices@), regime) + funding_points(opt_view(funding_rate)),
    {
        if !Self::check_radar_prices(prices) {
            return None;
        }
        Some(self.calculate_radar(symbol, prices, volume, open_interest, funding_rate, regime))
    }

    fn check_radar_prices(prices: &Vec<Dec>) -> (r: bool)
        ensures
            r == radar_ok(vals(prices@)),
    {
        let len = prices.len();
        if len < 20 {
            return true;
        }
        let sma = sum_rev(prices, len - 20, len).div(Dec::from_u64(20));
        proof {
            assert(vals(prices@).subrange(len - 20, len as int) =~= vals(prices@).subrange(
                vals(prices@).len() - 20,
                vals(prices@).len() as int,
            ));
        }
        !sma.is_zero()
    }

    /// Market structure contribution (0-140).
    fn calculate_market_structure(&self, volume: Dec, open_interest: Option<Dec>) -> (r: u16)
        ensures
            r == market_structure_of(volume@, opt_view(open_interest)),
            r <= 140,
    {
        let mut score: u16 = 0;
        let volume_score: u16 = if Dec::from_u64(100_000_000).lt(&volume) {
            60
        } else if Dec::from_u64(50_000_000).lt(&volume) {
            50
        } else if Dec::from_u64(10_000_000).lt(&volume) {
            40
        } else if Dec::from_u64(1_000_000).lt(&volume) {
            30
        } else {
            15
        };
        score = score + volume_score;
        match open_interest {
            Some(oi) => {
                let oi_score: u16 = if Dec::from_u64(500_000_000).lt(&oi) {
                    50
                } else if Dec::from_u64(100_000_000).lt(&oi) {
                    40
                } else if Dec::from_u64(50_000_000).lt(&oi) {
                    30
                } else {
                    20
                };
                score = score + oi_score;
            },
            None => {
                score = score + 25;
            },
        }
        score = score + 20;
        if score < 140 {
            score
        } else {
            140
        }
    }

    /// Technicals contribution (0-160).
    fn calculate_technicals(&self, prices: &Vec<Dec>, regime: Regime) -> (r: u16)
        requires
            radar_ok(vals(prices@)),
        ensures
            r == technicals_of(vals(prices@), regime),
            r <= 160,
    {
        if prices.len() < 14 {
            return 80;
        }
        let score = self.calculate_trend_score(prices) + self.calculate_rsi_score(prices)
            + self.calculate_pattern_score(prices, regime);
        if score < 160 {
            score
        } else {
            160
        }
    }

    /// Trend score (0-70).
    fn calculate_trend_score(&self, prices: &Vec<Dec>) -> (r: u16)
        requires
            radar_ok(vals(prices@)),
        ensures
            r == trend_points(vals(prices@)),
            r <= 70,
    {
        let len = prices.len();
        if len < 20 {
            return 35;
        }
        let sma20 = sum_rev(prices, len - 20, len).div(Dec::from_u64(20));
        let current = prices[len - 1];
        let deviation = current.sub(sma20).div(sma20).mul(Dec::from_u64(100)).abs();
        if Dec::from_u64(5).lt(&deviation) {
            70
        } else if Dec::from_u64(2).lt(&deviation) {
            50
        } else {
            30
        }
    }

    /// RSI score (0-50).
    fn calculate_rsi_score(&self, prices: &Vec<Dec>) -> (r: u16)
        ensures
            r == rsi_points(vals(prices@)),
            r <= 50,
    {
        let len = prices.len();
        if len < 15 {
            return 25;
        }
        let (gains, losses) = gains_losses_range(prices, len - 15, len);
        let period = Dec::from_u64(14);
        let avg_gain = gains.div(period);
        let avg_loss = losses.div(period);
        let hundred = Dec::from_u64(100);
        let rsi = if avg_loss.is_zero() {
            hundred
        } else {
            let rs = avg_gain.div(avg_loss);
            hundred.sub(hundred.div(Dec::one().add(rs)))
        };
        if rsi.lt(&Dec::from_u64(30)) || Dec::from_u64(70).lt(&rsi) {
            50
        } else if rsi.lt(&Dec::from_u64(40)) || Dec::from_u64(60).lt(&rsi) {
            35
        } else {
            20
        }
    }

    /// Pattern score (0-40) of a regime.
    fn calculate_pattern_score(&self, prices: &Vec<Dec>, regime: Regime) -> (r: u16)
        ensures
            r == pattern_points(regime),
            r <= 40,
    {
        match regime {
            Regime::TrendingUp | Regime::TrendingDown => 40,
            Regime::MeanReverting => 30,
            Regime::HighVolatility => 20,
            Regime::LowVolatility => 25,
            Regime::Choppy => 10,
        }
    }

    /// Funding contribution (0-100).
    fn calculate_funding_score(&self, funding_rate: Option<Dec>) -> (r: u16)
        ensures
            r == funding_points(opt_view(funding_rate)),
            r <= 100,
    {
        match funding_rate {
            Some(rate) => {
                let rate_bps = rate.mul(Dec::from_u64(10000)).abs();
                if Dec::from_u64(50).lt(&rate_bps) {
                    100
                } else if Dec::from_u64(20).lt(&rate_bps) {
                    70
                } else if Dec::from_u64(10).lt(&rate_bps) {
                    50
                } else {
                    30
                }
            },
            None => 50,
        }
    }

    /// Strategy recommended for the regime, or funding arbitrage at extreme funding.
    fn recommend_strategy(&self, regime: Regime, funding_rate: Option<Dec>) -> (r: Option<String>)
        ensures
            match (r, recommended_of(regime, opt_view(funding_rate))) {
                (Some(a), Some(b)) => a@ == b,
                (None, None) => true,
                _ => false,
            },
    {
        match funding_rate {
            Some(rate) => {
                if Dec::from_u64(30).lt(&rate.mul(Dec::from_u64(10000)).abs()) {
                    return Some("funding_arb".to_owned());
                }
            },
            None => {},
        }
        match regime {
            Regime::TrendingUp | Regime::TrendingDown => Some("momentum_breakout".to_owned()),
            Regime::MeanReverting => Some("mean_reversion".to_owned()),
            Regime::HighVolatility => Some("regime_mm".to_owned()),
            Regime::LowVolatility => Some("avellaneda_mm".to_owned()),
            Regime::Choppy => None,
        }
    }

    /// PULSE signal: immediate mover and volume surge scores, direction, tier
    /// (1-6) and strength (0-1).
    pub fn calculate_pulse(&self, symbol: &str, prices: &Vec<Dec>, volumes: &Vec<Dec>) -> (r:
        PulseSignal)
        requires
            pulse_ok(vals(prices@)),
        ensures
            pulse_from(symbol@, vals(prices@), vals(volumes@), r),
            r.immediate_mover == immediate_mover_of(vals(prices@)),
            r.volume_surge == volume_surge_of(vals(volumes@)),
            r.direction == pulse_direction_of(vals(prices@)),
            r.tier == pulse_tier_of(r.immediate_mover as int, r.volume_surge as int),
            1 <= r.tier <= 6,
            r.strength@ == ddiv(dint(r.immediate_mover + r.volume_surge), dint(200)),
            r.symbol@ == symbol@,
    {
        let immediate_mover = self.calculate_immediate_mover(prices);
        let volume_surge = self.calculate_volume_surge(volumes);
        let len = prices.len();
        let direction = if len >= 2 {
            let last = prices[len - 1];
            let prev = prices[len - 2];
            if prev.mul(Dec::new(1001, 3)).lt(&last) {
                PulseDirection::Up
            } else if last.lt(&prev.mul(Dec::new(999, 3))) {
                PulseDirection::Down
            } else {
                PulseDirection::Neutral
            }
        } else {
            PulseDirection::Neutral
        };
        let tier = self.calculate_pulse_tier(immediate_mover, volume_surge);
        let total = Dec::from_u64((immediate_mover as u64) + (volume_surge as u64));
        let divisor = Dec::from_u64(200);
        proof {
            lemma_pow10_table();
            let n = immediate_mover + volume_surge;
            assert(units(total@) * pow10(3) == (n * 5) * units(divisor@)) by (nonlinear_arith)
                requires
                    units(total@) == n * pow10(28),
                    units(divisor@) == 200 * pow10(28),
                    pow10(3) == 1000,
            ;
            assert(crate::decimal::div_exact(total@, divisor@, n * 5, 3));
            assert(pow10(25) * 1000 == pow10(28));
        }
        let strength = total.div(divisor);
        PulseSignal {
            tier,
            immediate_mover,
            volume_surge,
            direction,
            strength,
            symbol: symbol.to_owned(),
            timestamp: now_secs(),
        }
    }

    /// Immediate mover score (40-100).
    fn calculate_immediate_mover(&self, prices: &Vec<Dec>) -> (r: u8)
        requires
            pulse_ok(vals(prices@)),
        ensures
            r == immediate_mover_of(vals(prices@)),
            r <= 100,
    {
        let len = prices.len();
        if len < 5 {
            return 50;
        }
        let oldest = prices[len - 5];
        let newest = prices[len - 1];
        let change_pct = newest.sub(oldest).div(oldest).abs().mul(Dec::from_u64(100));
        if Dec::from_u64(2).lt(&change_pct) {
            100
        } else if Dec::from_u64(1).lt(&change_pct) {
            80
        } else if Dec::new(5, 1).lt(&change_pct) {
            60
        } else {
            40
        }
    }

    /// Volume surge score (40-100).
    fn calculate_volume_surge(&self, volumes: &Vec<Dec>) -> (r: u8)
        ensures
            r == volume_surge_of(vals(volumes@)),
            r <= 100,
    {
        let len = volumes.len();
        if len < 10 {
            return 50;
        }
        let recent_avg = sum_rev(volumes, len - 5, len).div(Dec::from_u64(5));
        let baseline_avg = crate::series::sum_range(volumes, 0, len).div(Dec::from_usize(len));
        proof {
            assert(vals(volumes@).subrange(0, len as int) =~= vals(volumes@));
        }
        if baseline_avg.is_zero() {
            return 50;
        }
        let surge_ratio = recent_avg.div(baseline_avg);
        if Dec::from_u64(3).lt(&surge_ratio) {
            100
        } else if Dec::from_u64(2).lt(&surge_ratio) {
            80
        } else if Dec::new(15, 1).lt(&surge_ratio) {
            60
        } else {
            40
        }
    }

    /// PULSE tier (1-6) from the two scores.
    fn calculate_pulse_tier(&self, immediate: u8, volume: u8) -> (r: u8)
        ensures
            r == pulse_tier_of(immediate as int, volume as int),
            1 <= r <= 6,
    {
        let combined: u16 = ((immediate as u16) + (volume as u16)) / 2;
        if 90 <= combined && combined <= 100 {
            6
        } else if 75 <= combined && combined <= 89 {
            5
        } else if 60 <= combined && combined <= 74 {
            4
        } else if 45 <= combined && combined <= 59 {
            3
        } else if 30 <= combined && combined <= 44 {
            2
        } else {
            1
        }
    }

    /// Index of the GUARD state of a position, if tracked.
    fn find_guard(&self, position_id: &str) -> (r: Option<usize>)
        ensures
            r matches Some(i) ==> i < self.guard_states@.len() && self.guard_states@[i as int].position_id@
                == position_id@,
            r is None ==> forall|i: int|
                0 <= i < self.guard_states@.len() ==> self.guard_states@[i].position_id@
                    != position_id@,
    {
        let mut i: usize = 0;
        while i < self.guard_states.len()
            invariant
                i <= self.guard_states@.len(),
                forall|j: int|
                    0 <= j < i ==> self.guard_states@[j].position_id@ != position_id@,
            decreases self.guard_states.len() - i,
        {
            if crate::text::str_eq(self.guard_states[i].position_id.as_str(), position_id) {
                return Some(i);
            }
            i = i + 1;
        }
        None
    }

    /// Track a new position with GUARD (replacing any earlier state of the same id).
    pub fn register_position(&mut self, position_id: &str, symbol: &str, entry_price: Dec)
        ensures
            exists|i: int|
                0 <= i < final(self).guard_states()@.len() && final(self).guard_states()@[i].position_id@
                    == position_id@ && final(self).guard_states()@[i].entry_price == entry_price
                    && final(self).guard_states()@[i].phase == 1,
    {
        let guard = GuardState::new(position_id.to_owned(), symbol.to_owned(), entry_price);
        match self.find_guard(position_id) {
            Some(i) => {
                self.guard_states.set(i, guard);
                assert(self.guard_states()@[i as int].position_id@ == position_id@);
            },
            None => {
                self.guard_states.push(guard);
                let ghost k = self.guard_states@.len() - 1;
                assert(self.guard_states()@[k].position_id@ == position_id@);
            },
        }
    }

    /// Update the GUARD state of a position with a new price: `Some(true)`
    /// when it should exit (stop hit or stagnation), `Some(false)` when not,
    /// `None` when the position is not tracked.
    pub fn update_guard(&mut self, position_id: &str, current_price: Dec) -> (r: Option<bool>)
        requires
            forall|i: int|
                0 <= i < old(self).guard_states()@.len() ==> units(
                    #[trigger] old(self).guard_states()@[i].entry_price@,
                ) != 0 && old(self).guard_states()@[i].stagnation_minutes < u32::MAX,
        ensures
            r is None <==> forall|i: int|
                0 <= i < old(self).guard_states()@.len() ==> old(self).guard_states()@[i].position_id@
                    != position_id@,
            final(self).guard_states()@.len() == old(self).guard_states()@.len(),
    {
        match self.find_guard(position_id) {
            None => None,
            Some(i) => {
                assert(old(self).guard_states()@[i as int].position_id@ == position_id@);
                assert(units(old(self).guard_states()@[i as int].entry_price@) != 0);
                let mut guard = self.guard_states.remove(i);
                guard.update(current_price, &self.config.guard_config);
                let triggered = guard.is_triggered(current_price);
                let stagnant = guard.should_stagnation_exit(&self.config.guard_config);
                self.guard_states.insert(i, guard);
                Some(triggered || stagnant)
            },
        }
    }
}


/// `r` is the TA recommendation from a RADAR score, a PULSE signal, the
/// strategy signals and an overall sentiment and confidence (what
/// `TABrain::generate_recommendation` gives): below a RADAR score of 140 it
/// waits; otherwise the action and size follow `recommendation_of`.
pub open spec fn ta_recommendation_from(
    radar: RadarScore,
    pulse: PulseSignal,
    signals: Seq<TAStrategySignal>,
    sentiment: (int, int),
    confidence: Dec,
    r: TARecommendation,
) -> bool {
    let sv = signals.map_values(|s: TAStrategySignal| ta_view(s));
    if radar.score < 140 {
        &&& r.action == TAAction::Wait
        &&& r.strategy is None
        &&& r.size_factor@ == dint(0)
        &&& r.confidence@ == dlit(3, 1)
        &&& r.reasoning@ == "RADAR score "@ + nat_digits(radar.score as nat) + " below threshold"@
    } else {
        let (action, size) = recommendation_of(radar.score as int, radar.tier, pulse.tier as int, pulse.direction, sentiment);
        &&& r.action == action
        &&& r.strategy == best_strategy(sv, action == TAAction::Long)
        &&& r.size_factor@ == dmin(size, dlit(10, 1))
        &&& r.confidence == confidence
        &&& r.reasoning@ == "RADAR "@ + nat_digits(radar.score as nat) + " ("@ + tier_name(radar.tier)
            + "), PULSE tier "@ + nat_digits(pulse.tier as nat) + ", sentiment "@
            + crate::decimal::decimal_text_dp(sentiment, 2) + ", "@ + nat_digits(agreeing(sv, dlt(dint(0), sentiment)))
            + " signals agree"@
    }
}

/// `r` is the PULSE signal of a symbol's prices and volumes (what
/// `TABrain::calculate_pulse` gives, but for its timestamp).
pub open spec fn pulse_from(symbol: Seq<char>, prices: Seq<(int, int)>, volumes: Seq<(int, int)>, r: PulseSignal) -> bool {
    &&& r.immediate_mover == immediate_mover_of(prices)
    &&& r.volume_surge == volume_surge_of(volumes)
    &&& r.direction == pulse_direction_of(prices)
    &&& r.tier == pulse_tier_of(r.immediate_mover as int, r.volume_surge as int)
    &&& 1 <= r.tier <= 6
    &&& r.strength@ == ddiv(dint(r.immediate_mover + r.volume_surge), dint(200))
    &&& units(r.strength@) == (r.immediate_mover + r.volume_surge) * 5 * pow10(25)
    &&& 0 <= units(r.strength@) <= pow10(28)
    &&& r.symbol@ == symbol
}

/// `r` is the TA analysis of a symbol's prices and volumes in a regime,
/// with the 24-hour volume, open interest and funding rate, by a brain with
/// these enabled strategies and GUARD states (what `TABrain::analyze` gives).
pub open spec fn ta_output_from(
    enabled: Seq<StrategyType>,
    guards: Seq<GuardState>,
    symbol: Seq<char>,
    prices: Seq<(int, int)>,
    volumes: Seq<(int, int)>,
    regime: Regime,
    volume_24h: (int, int),
    open_interest: Option<(int, int)>,
    funding_rate: Option<(int, int)>,
    r: TABrainOutput,
) -> bool {
    &&& r.symbol@ == symbol
    &&& r.regime == regime
    &&& r.radar_score.score as int == market_structure_of(volume_24h, open_interest) + technicals_of(prices, regime)
        + funding_points(funding_rate)
    &&& r.radar_score.tier == tier_of(r.radar_score.score as int)
    &&& r.pulse_signal.tier == pulse_tier_of(immediate_mover_of(prices), volume_surge_of(volumes))
    &&& pulse_from(symbol, prices, volumes, r.pulse_signal)
    &&& r.strategy_signals@.map_values(|s: TAStrategySignal| ta_view(s)) == strategy_signals_of(
        enabled,
        prices,
        regime,
        funding_rate,
    )
    &&& r.guard_states@ == guards
    &&& r.overall_sentiment@ == overall_sentiment_of(r.strategy_signals@.map_values(|s: TAStrategySignal| ta_view(s)))
    &&& r.overall_confidence@ == overall_confidence_of(
        r.strategy_signals@.map_values(|s: TAStrategySignal| ta_view(s)),
        r.radar_score.score as int,
        r.pulse_signal.strength@,
    )
    &&& dle(r.recommended_action.size_factor@, dlit(10, 1))
    &&& ta_recommendation_from(
        r.radar_score,
        r.pulse_signal,
        r.strategy_signals@,
        r.overall_sentiment@,
        r.overall_confidence,
        r.recommended_action,
    )
}

impl TABrain {
    /// Stop tracking a position.
    pub fn unregister_position(&mut self, position_id: &str)
        ensures
            forall|i: int|
                0 <= i < final(self).guard_states()@.len() ==> (#[trigger] final(self).guard_states()@[i]).position_id@ != position_id@,
            forall|i: int|
                0 <= i < final(self).guard_states()@.len() ==> old(self).guard_states()@.contains(
                    #[trigger] final(self).guard_states()@[i],
                ),
    {
        let mut kept: Vec<GuardState> = Vec::new();
        let mut i: usize = 0;
        while i < self.guard_states.len()
            invariant
                i <= self.guard_states@.len(),
                self.guard_states@ == old(self).guard_states@,
                forall|k: int| 0 <= k < kept@.len() ==> kept@[k].position_id@ != position_id@,
                forall|k: int|
                    0 <= k < kept@.len() ==> old(self).guard_states@.contains(#[trigger] kept@[k]),
            decreases self.guard_states.len() - i,
        {
            if !crate::text::str_eq(self.guard_states[i].position_id.as_str(), position_id) {
                let g = self.guard_states[i].clone();
                assert(old(self).guard_states@[i as int] == g);
                kept.push(g);
            }
            i = i + 1;
        }
        self.guard_states = kept;
    }

    /// All tracked GUARD states.
    pub fn get_guard_states(&self) -> (r: Vec<GuardState>)
        ensures
            r@ == self.guard_states()@,
    {
        let mut out: Vec<GuardState> = Vec::new();
        let mut i: usize = 0;
        while i < self.guard_states.len()
            invariant
                i <= self.guard_states@.len(),
                out@ == self.guard_states@.take(i as int),
            decreases self.guard_states.len() - i,
        {
            out.push(self.guard_states[i].clone());
            proof {
                assert(self.guard_states@.take(i + 1) == self.guard_states@.take(i as int).push(
                    self.guard_states@[i as int],
                ));
            }
            i = i + 1;
        }
        proof {
            assert(self.guard_states@.take(i as int) == self.guard_states@);
        }
        out
    }

    /// Signals of the enabled strategies, in order.
    pub fn generate_signals(
        &self,
        symbol: &str,
        prices: &Vec<Dec>,
        regime: Regime,
        funding_rate: Option<Dec>,
    ) -> (r: Vec<TAStrategySignal>)
        ensures
            r@.map_values(|s: TAStrategySignal| ta_view(s)) == strategy_signals_of(
                self.config().enabled_strategies@,
                vals(prices@),
                regime,
                opt_view(funding_rate),
            ),
    {
        let ghost p = vals(prices@);
        let ghost rate = opt_view(funding_rate);
        let ghost strategies = self.config.enabled_strategies@;
        let mut signals: Vec<TAStrategySignal> = Vec::new();
        let mut i: usize = 0;
        while i < self.config.enabled_strategies.len()
            invariant
                i <= strategies.len(),
                strategies == self.config.enabled_strategies@,
                p == vals(prices@),
                rate == opt_view(funding_rate),
                signals@.map_values(|s: TAStrategySignal| ta_view(s)) == strategy_signals_of(
                    strategies.take(i as int),
                    p,
                    regime,
                    rate,
                ),
            decreases strategies.len() - i,
        {
            proof {
                assert(strategies.take(i + 1).drop_last() == strategies.take(i as int));
            }
            let strategy = self.config.enabled_strategies[i];
            match self.generate_strategy_signal(strategy, symbol, prices, regime, funding_rate) {
                Some(sig) => {
                    signals.push(sig);
                    assert(signals@.map_values(|s: TAStrategySignal| ta_view(s)) =~= strategy_signals_of(
                        strategies.take(i as int),
                        p,
                        regime,
                        rate,
                    ).push(ta_view(signals@.last())));
                },
                None => {},
            }
            i = i + 1;
        }
        proof {
            assert(strategies.take(i as int) == strategies);
        }
        signals
    }

    /// Signal of one strategy.
    fn generate_strategy_signal(
        &self,
        strategy: StrategyType,
        symbol: &str,
        prices: &Vec<Dec>,
        regime: Regime,
        funding_rate: Option<Dec>,
    ) -> (r: Option<TAStrategySignal>)
        ensures
            opt_ta_view(r) == strategy_signal_of(
                strategy,
                vals(prices@),
                regime,
                opt_view(funding_rate),
            ),
    {
        match strategy {
            StrategyType::MomentumBreakout => self.momentum_breakout_signal(prices, regime),
            StrategyType::MeanReversion => self.mean_reversion_signal(prices, regime),
            StrategyType::FundingArb => self.funding_arb_signal(funding_rate),
            StrategyType::BasisArb => self.basis_arb_signal(funding_rate),
            StrategyType::EngineMm | StrategyType::AvellanedaMm | StrategyType::RegimeMm => {
                self.market_making_signal(strategy, prices, regime)
            },
            _ => None,
        }
    }

    /// Momentum breakout signal.
    fn momentum_breakout_signal(&self, prices: &Vec<Dec>, regime: Regime) -> (r: Option<
        TAStrategySignal,
    >)
        ensures
            opt_ta_view(r) == breakout_of(vals(prices@), regime),
    {
        let len = prices.len();
        if len < 20 {
            return None;
        }
        match regime {
            Regime::TrendingUp | Regime::TrendingDown => {},
            _ => return None,
        }
        let current = prices[len - 1];
        let (high_20, low_20) = extremes20(prices);
        let threshold = Dec::new(2, 2);
        let (signal, reason) = if high_20.mul(Dec::one().sub(threshold)).lt(&current) {
            let mut r = "Breakout above 20-period high ".to_owned();
            r.append(high_20.to_text().as_str());
            (Signal::Buy, r)
        } else if current.lt(&low_20.mul(Dec::one().add(threshold))) {
            let mut r = "Breakdown below 20-period low ".to_owned();
            r.append(low_20.to_text().as_str());
            (Signal::Sell, r)
        } else {
            (Signal::Hold, "No breakout detected".to_owned())
        };
        Some(
            TAStrategySignal {
                strategy: StrategyType::MomentumBreakout,
                signal,
                confidence: Dec::new(7, 1),
                reason,
                entry_price: Some(current),
                stop_loss: Some(current.mul(Dec::new(97, 2))),
                take_profit: Some(current.mul(Dec::new(105, 2))),
            },
        )
    }

    /// Mean reversion signal: z-score against the 20-period average.
    fn mean_reversion_signal(&self, prices: &Vec<Dec>, regime: Regime) -> (r: Option<
        TAStrategySignal,
    >)
        ensures
            opt_ta_view(r) == reversion_of(vals(prices@), regime),
    {
        let len = prices.len();
        if len < 20 {
            return None;
        }
        match regime {
            Regime::MeanReverting | Regime::LowVolatility => {},
            _ => return None,
        }
        let twenty = Dec::from_u64(20);
        let sma20 = sum_rev(prices, len - 20, len).div(twenty);
        let current = prices[len - 1];
        let ghost s = last20_rev(vals(prices@));
        let ghost sq = s.map_values(|x: (int, int)| dmul(dsub(x, sma20@), dsub(x, sma20@)));
        let mut acc = Dec::zero();
        let mut k: usize = 0;
        proof {
            assert(vals(prices@).subrange(len - 20, len as int) =~= vals(prices@).subrange(
                vals(prices@).len() - 20,
                vals(prices@).len() as int,
            ));
        }
        while k < 20
            invariant
                k <= 20,
                len == prices@.len(),
                len >= 20,
                s == last20_rev(vals(prices@)),
                sq == s.map_values(|x: (int, int)| dmul(dsub(x, sma20@), dsub(x, sma20@))),
                acc@ == sum_of(sq.take(k as int)),
            decreases 20 - k,
        {
            proof {
                assert(sq.take(k + 1).drop_last() =~= sq.take(k as int));
                assert(s[k as int] == vals(prices@)[len - 1 - k]);
            }
            let d = prices[len - 1 - k].sub(sma20);
            acc = acc.add(d.mul(d));
            k = k + 1;
        }
        proof {
            assert(sq.take(20) =~= sq);
        }
        let variance = acc.div(twenty);
        let std_dev = if Dec::zero().lt(&variance) {
            crate::series::sqrt_approx(variance)
        } else {
            Dec::one()
        };
        proof {
            crate::decimal::lemma_units_sign(dint(0));
        }
        let z_score = if Dec::zero().lt(&std_dev) {
            current.sub(sma20).div(std_dev)
        } else {
            Dec::zero()
        };
        let zt = z_score.to_text_dp(2);
        let (signal, tail, confidence) = if z_score.lt(&Dec::from_i64(-2)) {
            (Signal::StrongBuy, " - oversold", Dec::new(85, 2))
        } else if z_score.lt(&Dec::new(-15, 1)) {
            (Signal::Buy, " - approaching oversold", Dec::new(70, 2))
        } else if Dec::from_u64(2).lt(&z_score) {
            (Signal::StrongSell, " - overbought", Dec::new(85, 2))
        } else if Dec::new(15, 1).lt(&z_score) {
            (Signal::Sell, " - approaching overbought", Dec::new(70, 2))
        } else {
            (Signal::Hold, " - neutral", Dec::new(50, 2))
        };
        let mut reason = "Z-score ".to_owned();
        reason.append(zt.as_str());
        reason.append(tail);
        Some(
            TAStrategySignal {
                strategy: StrategyType::MeanReversion,
                signal,
                confidence,
                reason,
                entry_price: Some(current),
                stop_loss: Some(current.mul(Dec::new(98, 2))),
                take_profit: Some(sma20),
            },
        )
    }

    /// Funding arbitrage signal.
    fn funding_arb_signal(&self, funding_rate: Option<Dec>) -> (r: Option<TAStrategySignal>)
        ensures
            opt_ta_view(r) == funding_arb_of(opt_view(funding_rate)),
    {
        let rate = match funding_rate {
            Some(x) => x,
            None => return None,
        };
        let rate_bps = rate.mul(Dec::from_u64(10000));
        if rate_bps.abs().lt(&Dec::from_u64(20)) {
            return None;
        }
        let bt = rate_bps.to_text_dp(1);
        let (signal, head, tail) = if Dec::from_u64(30).lt(&rate_bps) {
            (Signal::Sell, "High positive funding ", "bps - short perp, long spot")
        } else if rate_bps.lt(&Dec::from_i64(-30)) {
            (Signal::Buy, "High negative funding ", "bps - long perp, short spot")
        } else {
            (Signal::Hold, "Moderate funding ", "bps")
        };
        let mut reason = head.to_owned();
        reason.append(bt.as_str());
        reason.append(tail);
        Some(
            TAStrategySignal {
                strategy: StrategyType::FundingArb,
                signal,
                confidence: Dec::new(80, 2),
                reason,
                entry_price: None,
                stop_loss: None,
                take_profit: None,
            },
        )
    }

    /// Basis arbitrage signal.
    fn basis_arb_signal(&self, funding_rate: Option<Dec>) -> (r: Option<TAStrategySignal>)
        ensures
            opt_ta_view(r) == basis_arb_of(opt_view(funding_rate)),
    {
        let rate = match funding_rate {
            Some(x) => x,
            None => return None,
        };
        let rate_bps = rate.mul(Dec::from_u64(10000));
        if rate_bps.abs().lt(&Dec::from_u64(50)) {
            return None;
        }
        let bt = rate_bps.to_text_dp(1);
        let (signal, head, tail) = if Dec::from_u64(50).lt(&rate_bps) {
            (Signal::Sell, "Contango ", "bps - short basis")
        } else {
            (Signal::Buy, "Backwardation ", "bps - long basis")
        };
        let mut reason = head.to_owned();
        reason.append(bt.as_str());
        reason.append(tail);
        Some(
            TAStrategySignal {
                strategy: StrategyType::BasisArb,
                signal,
                confidence: Dec::new(75, 2),
                reason,
                entry_price: None,
                stop_loss: None,
                take_profit: None,
            },
        )
    }

    /// Market making signal: active (`Buy`) when the regime suits the strategy.
    fn market_making_signal(&self, strategy: StrategyType, prices: &Vec<Dec>, regime: Regime) -> (r:
        Option<TAStrategySignal>)
        ensures
            opt_ta_view(r) == mm_of(strategy, vals(prices@), regime),
    {
        let (suitable, reason, confidence) = match strategy {
            StrategyType::AvellanedaMm => match regime {
                Regime::LowVolatility | Regime::MeanReverting => {
                    (true, "Low vol regime - optimal for Avellaneda MM", Dec::new(80, 2))
                },
                Regime::HighVolatility => {
                    (false, "High vol - widen spreads or pause MM", Dec::new(40, 2))
                },
                _ => (true, "Neutral regime for MM", Dec::new(60, 2)),
            },
            StrategyType::RegimeMm => {
                (true, "Regime MM auto-adapts to current conditions", Dec::new(75, 2))
            },
            StrategyType::EngineMm => match regime {
                Regime::Choppy => (false, "Choppy - pause engine MM", Dec::new(30, 2)),
                _ => (true, "Engine MM active", Dec::new(70, 2)),
            },
            _ => return None,
        };
        if !suitable {
            return Some(
                TAStrategySignal {
                    strategy,
                    signal: Signal::Hold,
                    confidence,
                    reason: reason.to_owned(),
                    entry_price: None,
                    stop_loss: None,
                    take_profit: None,
                },
            );
        }
        let entry = if prices.len() == 0 {
            None
        } else {
            Some(prices[prices.len() - 1])
        };
        Some(
            TAStrategySignal {
                strategy,
                signal: Signal::Buy,
                confidence,
                reason: reason.to_owned(),
                entry_price: entry,
                stop_loss: None,
                take_profit: None,
            },
        )
    }

    /// Overall sentiment: average of the confidence-weighted base sentiments.
    pub fn calculate_overall_sentiment(&self, signals: &Vec<TAStrategySignal>) -> (r: Dec)
        ensures
            r@ == overall_sentiment_of(signals@.map_values(|s: TAStrategySignal| ta_view(s))),
    {
        let ghost sv = signals@.map_values(|s: TAStrategySignal| ta_view(s));
        if signals.len() == 0 {
            return Dec::zero();
        }
        let mut sum = Dec::zero();
        let mut i: usize = 0;
        while i < signals.len()
            invariant
                i <= signals.len(),
                sv == signals@.map_values(|s: TAStrategySignal| ta_view(s)),
                sum@ == sentiment_sum(sv.take(i as int)),
            decreases signals.len() - i,
        {
            proof {
                assert(sv.take(i + 1).drop_last() == sv.take(i as int));
            }
            let base = match signals[i].signal {
                Signal::StrongBuy => Dec::new(10, 1),
                Signal::Buy => Dec::new(5, 1),
                Signal::Hold => Dec::new(0, 1),
                Signal::Sell => Dec::new(-5, 1),
                Signal::StrongSell => Dec::new(-10, 1),
            };
            sum = sum.add(base.mul(signals[i].confidence));
            i = i + 1;
        }
        proof {
            assert(sv.take(i as int) == sv);
        }
        sum.div(Dec::from_usize(signals.len()))
    }

    /// Overall confidence: 50% signals, 30% RADAR, 20% PULSE strength.
    pub fn calculate_overall_confidence(
        &self,
        signals: &Vec<TAStrategySignal>,
        radar: &RadarScore,
        pulse: &PulseSignal,
    ) -> (r: Dec)
        ensures
            r@ == overall_confidence_of(
                signals@.map_values(|s: TAStrategySignal| ta_view(s)),
                radar.score as int,
                pulse.strength@,
            ),
    {
        let ghost sv = signals@.map_values(|s: TAStrategySignal| ta_view(s));
        let signal_confidence = if signals.len() == 0 {
            Dec::new(5, 1)
        } else {
            let mut sum = Dec::zero();
            let mut i: usize = 0;
            while i < signals.len()
                invariant
                    i <= signals.len(),
                    sv == signals@.map_values(|s: TAStrategySignal| ta_view(s)),
                    sum@ == confidence_sum(sv.take(i as int)),
                decreases signals.len() - i,
            {
                proof {
                    assert(sv.take(i + 1).drop_last() == sv.take(i as int));
                }
                sum = sum.add(signals[i].confidence);
                i = i + 1;
            }
            proof {
                assert(sv.take(i as int) == sv);
            }
            sum.div(Dec::from_usize(signals.len()))
        };
        let radar_confidence = Dec::from_u64(radar.score as u64).div(Dec::from_u64(400));
        signal_confidence.mul(Dec::new(5, 1)).add(radar_confidence.mul(Dec::new(3, 1))).add(
            pulse.strength.mul(Dec::new(2, 1)),
        )
    }

    /// Recommendation from RADAR, PULSE and the signals: wait below the RADAR
    /// threshold, else an action from the sentiment sized by the RADAR tier.
    pub fn generate_recommendation(
        &self,
        radar: &RadarScore,
        pulse: &PulseSignal,
        signals: &Vec<TAStrategySignal>,
        sentiment: Dec,
        confidence: Dec,
    ) -> (r: TARecommendation)
        ensures
            ta_recommendation_from(*radar, *pulse, signals@, sentiment@, confidence, r),
            dle(r.size_factor@, dlit(10, 1)),
            radar.score >= 140 ==> units(r.size_factor@) == tier_size_units(
                radar.tier,
                pulse.tier >= 4 && pulse.direction != PulseDirection::Neutral,
            ),
    {
        let ghost sv = signals@.map_values(|s: TAStrategySignal| ta_view(s));
        proof {
            lemma_pow10_table();
        }
        if radar.score < 140 {
            let mut reasoning = "RADAR score ".to_owned();
            reasoning.append(nat_text(radar.score as u64).as_str());
            reasoning.append(" below threshold");
            return TARecommendation {
                action: TAAction::Wait,
                strategy: None,
                size_factor: Dec::zero(),
                confidence: Dec::new(3, 1),
                reasoning,
            };
        }
        let action = if Dec::new(3, 1).lt(&sentiment) {
            TAAction::Long
        } else if sentiment.lt(&Dec::new(-3, 1)) {
            TAAction::Short
        } else {
            TAAction::Hold
        };
        let base = match radar.tier {
            RadarTier::Elite => Dec::new(10, 1),
            RadarTier::Solid => Dec::new(75, 2),
            RadarTier::Marginal => Dec::new(5, 1),
            RadarTier::Skip => Dec::new(0, 1),
        };
        let size_factor = if pulse.tier >= 4 && pulse.direction != PulseDirection::Neutral {
            base.mul(Dec::new(12, 1))
        } else {
            base
        };
        proof {
            assert(units(size_factor@) == tier_size_units_uncapped(
                radar.tier,
                pulse.tier >= 4 && pulse.direction != PulseDirection::Neutral,
            ));
        }
        let long = action == TAAction::Long;
        let bull_sentiment = Dec::zero().lt(&sentiment);
        let mut best: Option<(StrategyType, Dec)> = None;
        let mut agree: u64 = 0;
        let mut i: usize = 0;
        while i < signals.len()
            invariant
                i <= signals.len(),
                sv == signals@.map_values(|s: TAStrategySignal| ta_view(s)),
                match (best, best_strategy_conf(sv.take(i as int), long)) {
                    (Some((a, c)), Some((b, d))) => a == b && c@ == d,
                    (None, None) => true,
                    _ => false,
                },
                agree as nat == agreeing(sv.take(i as int), bull_sentiment),
                agree <= i,
            decreases signals.len() - i,
        {
            proof {
                assert(sv.take(i + 1).drop_last() == sv.take(i as int));
            }
            let sig = &signals[i];
            let bull = sig.signal.is_bullish();
            if bull == long {
                let replace = match best {
                    None => true,
                    Some((_, c)) => c.le(&sig.confidence),
                };
                if replace {
                    best = Some((sig.strategy, sig.confidence));
                }
            }
            if bull == bull_sentiment {
                agree = agree + 1;
            }
            i = i + 1;
        }
        proof {
            assert(sv.take(i as int) == sv);
        }
        let strategy = match best {
            Some((st, _)) => Some(st),
            None => None,
        };
        let parts = vec![
            "RADAR ".to_owned(),
            nat_text(radar.score as u64),
            " (".to_owned(),
            radar.tier.name().to_owned(),
            "), PULSE tier ".to_owned(),
            nat_text(pulse.tier as u64),
            ", sentiment ".to_owned(),
            sentiment.to_text_dp(2),
            ", ".to_owned(),
            nat_text(agree),
            " signals agree".to_owned(),
        ];
        let reasoning = join(&parts);
        proof {
            reveal_with_fuel(Seq::fold_left, 12);
        }
        TARecommendation {
            action,
            strategy,
            size_factor: size_factor.min(Dec::new(10, 1)),
            confidence,
            reasoning,
        }
    }

    /// Full analysis of a symbol: RADAR, PULSE, strategy signals, GUARD
    /// states, overall sentiment and confidence, and a recommendation.  The
    /// RADAR and PULSE results are remembered (the latest 100 of each).
    pub fn analyze(
        &mut self,
        symbol: &str,
        prices: &Vec<Dec>,
        volumes: &Vec<Dec>,
        regime: Regime,
        volume_24h: Dec,
        open_interest: Option<Dec>,
        funding_rate: Option<Dec>,
    ) -> (r: TABrainOutput)
        requires
            radar_ok(vals(prices@)),
            pulse_ok(vals(prices@)),
        ensures
            ta_output_from(
                old(self).config().enabled_strategies@,
                old(self).guard_states()@,
                symbol@,
                vals(prices@),
                vals(volumes@),
                regime,
                volume_24h@,
                opt_view(open_interest),
                opt_view(funding_rate),
                r,
            ),
            r.symbol@ == symbol@,
            r.regime == regime,
            r.radar_score.score as int == market_structure_of(volume_24h@, opt_view(open_interest))
                + technicals_of(vals(prices@), regime) + funding_points(opt_view(funding_rate)),
            r.radar_score.tier == tier_of(r.radar_score.score as int),
            r.pulse_signal.tier == pulse_tier_of(
                immediate_mover_of(vals(prices@)),
                volume_surge_of(vals(volumes@)),
            ),
            r.strategy_signals@.map_values(|s: TAStrategySignal| ta_view(s)) == strategy_signals_of(
                old(self).config().enabled_strategies@,
                vals(prices@),
                regime,
                opt_view(funding_rate),
            ),
            r.guard_states@ == old(self).guard_states()@,
            r.overall_sentiment@ == overall_sentiment_of(
                r.strategy_signals@.map_values(|s: TAStrategySignal| ta_view(s)),
            ),
            r.overall_confidence@ == overall_confidence_of(
                r.strategy_signals@.map_values(|s: TAStrategySignal| ta_view(s)),
                r.radar_score.score as int,
                r.pulse_signal.strength@,
            ),
            dle(r.recommended_action.size_factor@, dlit(10, 1)),
            final(self).config() == old(self).config(),
            final(self).guard_states() == old(self).guard_states(),
            final(self).recent_radar().len() <= 100 || final(self).recent_radar().len()
                <= old(self).recent_radar().len(),
            final(self).recent_pulse().len() <= 100 || final(self).recent_pulse().len()
                <= old(self).recent_pulse().len(),
    {
        let radar_score = self.calculate_radar(
            symbol,
            prices,
            volume_24h,
            open_interest,
            funding_rate,
            regime,
        );
        self.recent_radar.push(radar_score.clone());
        if self.recent_radar.len() > 100 {
            self.recent_radar.remove(0);
        }
        let pulse_signal = self.calculate_pulse(symbol, prices, volumes);
        self.recent_pulse.push(pulse_signal.clone());
        if self.recent_pulse.len() > 100 {
            self.recent_pulse.remove(0);
        }
        let strategy_signals = self.generate_signals(symbol, prices, regime, funding_rate);
        let guard_states = self.get_guard_states();
        let overall_sentiment = self.calculate_overall_sentiment(&strategy_signals);
        let overall_confidence = self.calculate_overall_confidence(
            &strategy_signals,
            &radar_score,
            &pulse_signal,
        );
        let recommended_action = self.generate_recommendation(
            &radar_score,
            &pulse_signal,
            &strategy_signals,
            overall_sentiment,
            overall_confidence,
        );
        TABrainOutput {
            symbol: symbol.to_owned(),
            radar_score,
            pulse_signal,
            regime,
            strategy_signals,
            guard_states,
            overall_sentiment,
            overall_confidence,
            recommended_action,
            timestamp: now_secs(),
        }
    }

    /// Whether `analyze` is defined on these prices: the 20-period average
    /// and the fifth last price are not zero.
    pub fn analysis_defined(prices: &Vec<Dec>) -> (r: bool)
        ensures
            r == (radar_ok(vals(prices@)) && pulse_ok(vals(prices@))),
    {
        let len = prices.len();
        if !Self::check_radar_prices(prices) {
            return false;
        }
        !(len >= 5 && prices[len - 5].is_zero())
    }

    /// `analyze` for any prices: `None` where the 20-period average of the
    /// prices is zero or the fifth last price is zero.
    pub fn try_analyze(
        &mut self,
        symbol: &str,
        prices: &Vec<Dec>,
        volumes: &Vec<Dec>,
        regime: Regime,
        volume_24h: Dec,
        open_interest: Option<Dec>,
        funding_rate: Option<Dec>,
    ) -> (r: Option<TABrainOutput>)
        ensures
            r is Some <==> (radar_ok(vals(prices@)) && pulse_ok(vals(prices@))),
            r is None ==> final(self).guard_states() == old(self).guard_states(),
    {
        let len = prices.len();
        if !Self::check_radar_prices(prices) {
            return None;
        }
        if len >= 5 && prices[len - 5].is_zero() {
            return None;
        }
        Some(self.analyze(symbol, prices, volumes, regime, volume_24h, open_interest, funding_rate))
    }
}

/// What the mean reversion strategy gives: nothing with fewer than 20
/// prices or outside a mean-reverting or low-volatility market; otherwise a
/// mean reversion signal entering at the last price, with a stop 2% below
/// it, a target at the 20-period average, and a confidence of 0.85, 0.70 or
/// 0.50.
pub proof fn lemma_reversion_shape(p: Seq<(int, int)>, regime: Regime)
    ensures
        reversion_of(p, regime) is None <==> (p.len() < 20 || !(regime == Regime::MeanReverting || regime
            == Regime::LowVolatility)),
        reversion_of(p, regime) matches Some(s) ==> {
            &&& s.0 == StrategyType::MeanReversion
            &&& s.4 == Some(p.last())
            &&& s.5 == Some(dmul(p.last(), dlit(98, 2)))
            &&& s.6 == Some(sma20_of(p))
            &&& (s.2 == dlit(85, 2) || s.2 == dlit(70, 2) || s.2 == dlit(50, 2))
        },
{
}

/// The TA recommendation's action follows the sign of the overall
/// sentiment: below a RADAR score of 140 it waits; from 140 on, a sentiment
/// above 0.3 gives Long, one below -0.3 gives Short, and one in between
/// Hold. Conversely a Long is only ever given for a sentiment above 0.3 and
/// a Short only for one below -0.3.
pub proof fn lemma_ta_action_follows_sentiment(
    radar: RadarScore,
    pulse: PulseSignal,
    signals: Seq<TAStrategySignal>,
    sentiment: (int, int),
    confidence: Dec,
    r: TARecommendation,
)
    requires
        ta_recommendation_from(radar, pulse, signals, sentiment, confidence, r),
    ensures
        radar.score < 140 ==> r.action == TAAction::Wait,
        radar.score >= 140 && units(sentiment) > units(dlit(3, 1)) ==> r.action == TAAction::Long,
        radar.score >= 140 && units(sentiment) < units(dlit(-3, 1)) ==> r.action == TAAction::Short,
        radar.score >= 140 && units(dlit(-3, 1)) <= units(sentiment) <= units(dlit(3, 1)) ==> r.action
            == TAAction::Hold,
        r.action == TAAction::Long ==> units(sentiment) > units(dlit(3, 1)),
        r.action == TAAction::Short ==> units(sentiment) < units(dlit(-3, 1)),
{
    crate::decimal::lemma_pow10_pos(27);
}

} // verus!
