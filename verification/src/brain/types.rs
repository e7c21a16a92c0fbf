//! Records exchanged with the orchestrating brain: its input, its decisions
//! and its persisted state.
use crate::decimal::{dadd, ddiv, dint, Dec};
use crate::market::{
    Action, ArbOpportunity, MarketState, PortfolioSnapshot, Position, Regime, Side, Signal,
    StrategySignal, Trade, TradeOutcome,
};
use crate::text::{lowercase, str_eq, text_lowercase};
use vstd::prelude::*;

verus! {

/// Input for the orchestrating brain; the time is in seconds since the Unix epoch.
#[derive(Debug, Clone)]
pub struct BrainInput {
    pub timestamp: i64,
    /// Primary symbol being analysed.
    pub symbol: String,
    pub market_state: BrainMarketState,
    pub signals: Vec<BrainSignal>,
    pub arbitrage: Vec<BrainArbOpportunity>,
    pub portfolio: BrainPortfolio,
    /// Recent trade outcomes, for learning.
    pub recent_trades: Vec<BrainTradeOutcome>,
}

/// Market state as the brain reads it.
#[derive(Debug, Clone)]
pub struct BrainMarketState {
    pub price: Dec,
    pub spread_bps: Dec,
    pub volatility_1h: Dec,
    pub regime: String,
}

/// Lower-case name of a regime.
pub open spec fn regime_lower(r: Regime) -> Seq<char> {
    match r {
        Regime::TrendingUp => "trendingup"@,
        Regime::TrendingDown => "trendingdown"@,
        Regime::MeanReverting => "meanreverting"@,
        Regime::HighVolatility => "highvolatility"@,
        Regime::LowVolatility => "lowvolatility"@,
        Regime::Choppy => "choppy"@,
    }
}

/// Upper-case name of a signal.
pub open spec fn signal_upper(s: Signal) -> Seq<char> {
    match s {
        Signal::StrongBuy => "STRONGBUY"@,
        Signal::Buy => "BUY"@,
        Signal::Hold => "HOLD"@,
        Signal::Sell => "SELL"@,
        Signal::StrongSell => "STRONGSELL"@,
    }
}

/// Lower-case name of a side.
pub open spec fn side_lower(s: Side) -> Seq<char> {
    match s {
        Side::Long => "long"@,
        Side::Short => "short"@,
    }
}

/// Lower-case name of a trade outcome.
pub open spec fn outcome_lower(o: TradeOutcome) -> Seq<char> {
    match o {
        TradeOutcome::Win => "win"@,
        TradeOutcome::Loss => "loss"@,
        TradeOutcome::Breakeven => "breakeven"@,
    }
}

fn regime_lower_text(r: Regime) -> (s: String)
    ensures
        s@ == regime_lower(r),
{
    match r {
        Regime::TrendingUp => "trendingup".to_owned(),
        Regime::TrendingDown => "trendingdown".to_owned(),
        Regime::MeanReverting => "meanreverting".to_owned(),
        Regime::HighVolatility => "highvolatility".to_owned(),
        Regime::LowVolatility => "lowvolatility".to_owned(),
        Regime::Choppy => "choppy".to_owned(),
    }
}

fn signal_upper_text(s: Signal) -> (r: String)
    ensures
        r@ == signal_upper(s),
{
    match s {
        Signal::StrongBuy => "STRONGBUY".to_owned(),
        Signal::Buy => "BUY".to_owned(),
        Signal::Hold => "HOLD".to_owned(),
        Signal::Sell => "SELL".to_owned(),
        Signal::StrongSell => "STRONGSELL".to_owned(),
    }
}

fn side_lower_text(s: Side) -> (r: String)
    ensures
        r@ == side_lower(s),
{
    match s {
        Side::Long => "long".to_owned(),
        Side::Short => "short".to_owned(),
    }
}

fn outcome_lower_text(o: TradeOutcome) -> (r: String)
    ensures
        r@ == outcome_lower(o),
{
    match o {
        TradeOutcome::Win => "win".to_owned(),
        TradeOutcome::Loss => "loss".to_owned(),
        TradeOutcome::Breakeven => "breakeven".to_owned(),
    }
}

impl BrainMarketState {
    /// The brain's view of a market state; the regime is named in lower case.
    pub fn from_state(state: MarketState) -> (r: BrainMarketState)
        ensures
            r.price == state.price,
            r.spread_bps == state.spread_bps,
            r.volatility_1h == state.volatility_1h,
            r.regime@ == regime_lower(state.regime),
    {
        BrainMarketState {
            price: state.price,
            spread_bps: state.spread_bps,
            volatility_1h: state.volatility_1h,
            regime: regime_lower_text(state.regime),
        }
    }
}

/// Strategy signal as the brain reads it.
#[derive(Debug, Clone)]
pub struct BrainSignal {
    pub strategy: String,
    pub signal: String,
    pub confidence: Dec,
    pub reason: String,
}

impl BrainSignal {
    /// The brain's view of a strategy signal; the signal is named in upper case.
    pub fn from_signal(sig: StrategySignal) -> (r: BrainSignal)
        ensures
            r.strategy@ == sig.strategy@,
            r.signal@ == signal_upper(sig.signal),
            r.confidence == sig.confidence,
            r.reason@ == sig.reason@,
    {
        BrainSignal {
            strategy: sig.strategy,
            signal: signal_upper_text(sig.signal),
            confidence: sig.confidence,
            reason: sig.reason,
        }
    }
}

/// Arbitrage opportunity as the brain reads it.
#[derive(Debug, Clone)]
pub struct BrainArbOpportunity {
    pub arb_type: String,
    pub spread_bps: Dec,
    pub net_profit_usd: Dec,
}

impl BrainArbOpportunity {
    /// The brain's view of an arbitrage opportunity.
    pub fn from_arb(arb: ArbOpportunity) -> (r: BrainArbOpportunity)
        ensures
            r.arb_type@ == arb.arb_type@,
            r.spread_bps == arb.spread_bps,
            r.net_profit_usd == arb.net_profit_usd,
    {
        BrainArbOpportunity {
            arb_type: arb.arb_type,
            spread_bps: arb.spread_bps,
            net_profit_usd: arb.net_profit_usd,
        }
    }
}

/// Portfolio as the brain reads it.
#[derive(Debug, Clone)]
pub struct BrainPortfolio {
    pub capital: Dec,
    pub positions: Vec<BrainPosition>,
    pub drawdown: Dec,
    pub risk_level: String,
}

/// Position as the brain reads it.
#[derive(Debug, Clone)]
pub struct BrainPosition {
    pub symbol: String,
    pub side: String,
    pub size: Dec,
    pub entry_price: Dec,
    pub unrealized_pnl: Dec,
}

/// `b` is the brain's view of position `p`.
pub open spec fn position_seen(p: Position, b: BrainPosition) -> bool {
    &&& b.symbol@ == p.symbol@
    &&& b.side@ == side_lower(p.side)
    &&& b.size == p.size
    &&& b.entry_price == p.entry_price
    &&& b.unrealized_pnl == p.unrealized_pnl
}

impl BrainPosition {
    /// The brain's view of a position; the side is named in lower case.
    pub fn from_position(pos: Position) -> (r: BrainPosition)
        ensures
            position_seen(pos, r),
    {
        BrainPosition {
            symbol: pos.symbol,
            side: side_lower_text(pos.side),
            size: pos.size,
            entry_price: pos.entry_price,
            unrealized_pnl: pos.unrealized_pnl,
        }
    }
}

impl BrainPortfolio {
    /// The brain's view of a portfolio snapshot, position by position.
    pub fn from_snapshot(snapshot: PortfolioSnapshot) -> (r: BrainPortfolio)
        ensures
            r.capital == snapshot.capital,
            r.drawdown == snapshot.drawdown,
            r.risk_level@ == snapshot.risk_level@,
            r.positions.len() == snapshot.positions.len(),
            forall|i: int|
                0 <= i < r.positions.len() ==> position_seen(
                    #[trigger] snapshot.positions@[i],
                    r.positions@[i],
                ),
    {
        let ghost orig = snapshot.positions@;
        let mut rest = snapshot.positions;
        let mut positions: Vec<BrainPosition> = Vec::new();
        while rest.len() > 0
            invariant
                positions.len() + rest.len() == orig.len(),
                rest@ == orig.skip(positions.len() as int),
                forall|j: int|
                    0 <= j < positions.len() ==> position_seen(#[trigger] orig[j], positions@[j]),
            decreases rest.len(),
        {
            let ghost k = positions.len() as int;
            let p = rest.remove(0);
            assert(p == orig[k]);
            positions.push(BrainPosition::from_position(p));
            assert(rest@ == orig.skip(k + 1));
        }
        BrainPortfolio {
            capital: snapshot.capital,
            positions,
            drawdown: snapshot.drawdown,
            risk_level: snapshot.risk_level,
        }
    }
}

/// Trade outcome as the brain reads it, for learning.
#[derive(Debug, Clone)]
pub struct BrainTradeOutcome {
    pub symbol: String,
    pub pnl: Dec,
    pub outcome: String,
    pub reason: String,
}

impl BrainTradeOutcome {
    /// The brain's view of a completed trade; the outcome is named in lower case.
    pub fn from_trade(trade: Trade) -> (r: BrainTradeOutcome)
        ensures
            r.symbol@ == trade.symbol@,
            r.pnl == trade.pnl,
            r.outcome@ == outcome_lower(trade.outcome),
            r.reason@ == trade.reason@,
    {
        BrainTradeOutcome {
            symbol: trade.symbol,
            pnl: trade.pnl,
            outcome: outcome_lower_text(trade.outcome),
            reason: trade.reason,
        }
    }
}

/// Decision from the orchestrating brain.
#[derive(Debug, Clone)]
pub struct BrainDecision {
    /// Action to take.
    pub action: String,
    /// Symbol to trade, for a trade.
    pub symbol: Option<String>,
    /// Trade side, for a trade.
    pub side: Option<String>,
    /// Position size as a fraction of capital.
    pub size_pct: Option<Dec>,
    /// Confidence in the decision (0-1).
    pub confidence: Dec,
    pub reasoning: String,
    pub stop_loss_pct: Option<Dec>,
    pub take_profit_pct: Option<Dec>,
}

/// The action named by a text, compared in lower case: `trade`, `close` or
/// `close_position`; anything else skips.
pub open spec fn action_named(s: Seq<char>) -> Action {
    let l = text_lowercase(s);
    if l == "trade"@ {
        Action::Trade
    } else if l == "close"@ || l == "close_position"@ {
        Action::ClosePosition
    } else {
        Action::Skip
    }
}

/// The side named by a text, compared in lower case: `long` or `buy`,
/// `short` or `sell`.
pub open spec fn side_named(s: Seq<char>) -> Option<Side> {
    let l = text_lowercase(s);
    if l == "long"@ || l == "buy"@ {
        Some(Side::Long)
    } else if l == "short"@ || l == "sell"@ {
        Some(Side::Short)
    } else {
        None
    }
}

impl BrainDecision {
    /// The action this decision names.
    pub fn action(&self) -> (r: Action)
        ensures
            r == action_named(self.action@),
    {
        let l = lowercase(self.action.as_str());
        if str_eq(l.as_str(), "trade") {
            Action::Trade
        } else if str_eq(l.as_str(), "close") || str_eq(l.as_str(), "close_position") {
            Action::ClosePosition
        } else {
            Action::Skip
        }
    }

    /// The side this decision names, if any.
    pub fn side(&self) -> (r: Option<Side>)
        ensures
            r == match self.side {
                Some(s) => side_named(s@),
                None => None,
            },
    {
        match &self.side {
            Some(s) => {
                let l = lowercase(s.as_str());
                if str_eq(l.as_str(), "long") || str_eq(l.as_str(), "buy") {
                    Some(Side::Long)
                } else if str_eq(l.as_str(), "short") || str_eq(l.as_str(), "sell") {
                    Some(Side::Short)
                } else {
                    None
                }
            },
            None => None,
        }
    }

    /// A decision to skip, for the given reason.
    pub fn skip(reason: &str) -> (r: BrainDecision)
        ensures
            r.action@ == "skip"@,
            r.symbol is None,
            r.side is None,
            r.size_pct is None,
            r.confidence@ == dint(0),
            r.reasoning@ == reason@,
            r.stop_loss_pct is None,
            r.take_profit_pct is None,
    {
        BrainDecision {
            action: "skip".to_owned(),
            symbol: None,
            side: None,
            size_pct: None,
            confidence: Dec::zero(),
            reasoning: reason.to_owned(),
            stop_loss_pct: None,
            take_profit_pct: None,
        }
    }
}

/// Persisted state of the brain.
#[derive(Debug, Clone)]
pub struct BrainState {
    pub total_trades: u32,
    pub wins: u32,
    pub losses: u32,
    pub total_pnl: Dec,
    pub last_decision: Option<BrainDecision>,
    pub learning_notes: Vec<String>,
}

impl Default for BrainState {
    fn default() -> (r: BrainState)
        ensures
            r.total_trades == 0,
            r.wins == 0,
            r.losses == 0,
            r.total_pnl@ == dint(0),
            r.last_decision is None,
            r.learning_notes@.len() == 0,
    {
        BrainState {
            total_trades: 0,
            wins: 0,
            losses: 0,
            total_pnl: Dec::zero(),
            last_decision: None,
            learning_notes: Vec::new(),
        }
    }
}

impl BrainState {
    /// Share of trades won; zero before any trade.
    pub fn win_rate(&self) -> (r: Dec)
        ensures
            r@ == if self.total_trades == 0 {
                dint(0)
            } else {
                ddiv(dint(self.wins as int), dint(self.total_trades as int))
            },
    {
        if self.total_trades == 0 {
            return Dec::zero();
        }
        proof {
            crate::decimal::lemma_units_sign(dint(self.total_trades as int));
        }
        Dec::from_u64(self.wins as u64).div(Dec::from_u64(self.total_trades as u64))
    }

    /// Count one more trade with its outcome and profit.
    pub fn record_trade(&mut self, outcome: TradeOutcome, pnl: Dec)
        requires
            old(self).total_trades < u32::MAX,
            outcome == TradeOutcome::Win ==> old(self).wins < u32::MAX,
            outcome == TradeOutcome::Loss ==> old(self).losses < u32::MAX,
        ensures
            final(self).total_trades == old(self).total_trades + 1,
            final(self).total_pnl@ == dadd(old(self).total_pnl@, pnl@),
            final(self).wins == old(self).wins + if outcome == TradeOutcome::Win {
                1int
            } else {
                0
            },
            final(self).losses == old(self).losses + if outcome == TradeOutcome::Loss {
                1int
            } else {
                0
            },
            final(self).last_decision == old(self).last_decision,
            final(self).learning_notes == old(self).learning_notes,
    {
        self.total_trades = self.total_trades + 1;
        self.total_pnl = self.total_pnl.add(pnl);
        match outcome {
            TradeOutcome::Win => self.wins = self.wins + 1,
            TradeOutcome::Loss => self.losses = self.losses + 1,
            TradeOutcome::Breakeven => {},
        }
    }
}

} // verus!
