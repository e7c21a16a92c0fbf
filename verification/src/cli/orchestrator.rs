//! The decisions of the main trading loop: the brain's input from market
//! data, the plan for a brain's decision, and the sentiment signal.  Feeds,
//! risk sizing, execution and persistence are left to the caller.
use crate::alpha::engine::{engine_ok, AlphaEngine};
use crate::alpha::regime::detect_of;
use crate::brain::types::{
    position_seen, regime_lower, signal_upper, outcome_lower, BrainArbOpportunity, BrainInput,
    BrainMarketState, BrainPortfolio, BrainPosition, BrainSignal, BrainTradeOutcome, BrainDecision,
    action_named, side_named,
};
use crate::cli::dual_loop::{before_dash, is_before_dash};
use crate::clock::now_secs;
use crate::decimal::{dadd, ddiv, dint, dlit, dlt, dmul, dsub, units, decimal_text_dp, Dec};
use crate::market::{Action, ArbOpportunity, Position, Side, Signal, StrategySignal, Trade};
use crate::series::{sqrt_approx, sqrt_of, sum_of, sum_range, sum_sq_devs, sq_devs, vals};
use crate::text::{lowercase, nat_digits, nat_text, text_lowercase};
use vstd::prelude::*;

verus! {

/// The defined returns of a price series, in order: `(p[i+1] - p[i]) / p[i]`
/// for every `i` whose price is not zero.
pub open spec fn defined_returns(p: Seq<(int, int)>) -> Seq<(int, int)>
    decreases p.len(),
{
    if p.len() < 2 {
        Seq::empty()
    } else {
        let prev = defined_returns(p.drop_last());
        let a = p[p.len() - 2];
        if units(a) == 0 {
            prev
        } else {
            prev.push(ddiv(dsub(p.last(), a), a))
        }
    }
}

/// Volatility of a price series for the brain: the standard deviation of
/// the defined returns, over more than ten prices; zero otherwise.
pub open spec fn input_volatility_of(p: Seq<(int, int)>) -> (int, int) {
    let r = defined_returns(p);
    if p.len() <= 10 || r.len() == 0 {
        dint(0)
    } else {
        let mean = ddiv(sum_of(r), dint(r.len() as int));
        sqrt_of(ddiv(sum_of(sq_devs(r, mean)), dint(r.len() as int)))
    }
}

/// Volatility of a price series for the brain (see `input_volatility_of`).
pub fn input_volatility(prices: &Vec<Dec>) -> (r: Dec)
    ensures
        r@ == input_volatility_of(vals(prices@)),
{
    let n = prices.len();
    let ghost p = vals(prices@);
    if n <= 10 {
        return Dec::zero();
    }
    let mut rets: Vec<Dec> = Vec::new();
    let mut i: usize = 1;
    proof {
        assert(defined_returns(p.take(1)) =~= Seq::<(int, int)>::empty());
    }
    while i < n
        invariant
            n == prices.len(),
            1 <= i <= n,
            p == vals(prices@),
            vals(rets@) == defined_returns(p.take(i as int)),
        decreases n - i,
    {
        proof {
            assert(p.take(i + 1).drop_last() =~= p.take(i as int));
            assert(p.take(i + 1)[i - 1] == p[i - 1]);
            assert(p.take(i + 1).last() == p[i as int]);
        }
        if !prices[i - 1].is_zero() {
            let r = prices[i].sub(prices[i - 1]).div(prices[i - 1]);
            proof {
                assert(vals(rets@.push(r)) =~= vals(rets@).push(r@));
            }
            rets.push(r);
        }
        i = i + 1;
    }
    proof {
        assert(p.take(i as int) =~= p);
    }
    let k = rets.len();
    if k == 0 {
        return Dec::zero();
    }
    let kd = Dec::from_usize(k);
    let mean = sum_range(&rets, 0, k).div(kd);
    let variance = sum_sq_devs(&rets, 0, k, mean).div(kd);
    proof {
        assert(vals(rets@).subrange(0, k as int) =~= vals(rets@));
    }
    sqrt_approx(variance)
}

/// Risk level the brain is told: elevated beyond a 10% drawdown.
pub open spec fn risk_level_of(drawdown: (int, int)) -> Seq<char> {
    if dlt(dlit(1, 1), drawdown) {
        "elevated"@
    } else {
        "normal"@
    }
}

/// The brain's input for a symbol: its market state (latest price, spread,
/// volatility and regime), the strategy signals, the arbitrage
/// opportunities, the portfolio and the recent trades.
pub fn build_brain_input(
    alpha: &AlphaEngine,
    symbol: &str,
    prices: &Vec<Dec>,
    signals: Vec<StrategySignal>,
    arb_opps: Vec<ArbOpportunity>,
    spread_bps: Option<Dec>,
    capital: Dec,
    positions: Vec<Position>,
    drawdown: Dec,
    recent_trades: Vec<Trade>,
) -> (r: BrainInput)
    requires
        engine_ok(*alpha),
    ensures
        r.symbol@ == symbol@,
        r.market_state.price@ == if prices@.len() == 0 {
            dint(0)
        } else {
            prices@.last()@
        },
        r.market_state.spread_bps@ == match spread_bps {
            Some(s) => s@,
            None => dint(0),
        },
        r.market_state.volatility_1h@ == input_volatility_of(vals(prices@)),
        r.market_state.regime@ == regime_lower(detect_of(alpha.regime_detector, vals(prices@))),
        r.signals@.len() == signals@.len(),
        forall|i: int|
            0 <= i < signals@.len() ==> {
                let s = #[trigger] signals@[i];
                let b = r.signals@[i];
                &&& b.strategy@ == s.strategy@
                &&& b.signal@ == signal_upper(s.signal)
                &&& b.confidence == s.confidence
                &&& b.reason@ == s.reason@
            },
        r.arbitrage@.len() == arb_opps@.len(),
        forall|i: int|
            0 <= i < arb_opps@.len() ==> {
                let a = #[trigger] arb_opps@[i];
                let b = r.arbitrage@[i];
                &&& b.arb_type@ == a.arb_type@
                &&& b.spread_bps == a.spread_bps
                &&& b.net_profit_usd == a.net_profit_usd
            },
        r.portfolio.capital == capital,
        r.portfolio.drawdown == drawdown,
        r.portfolio.risk_level@ == risk_level_of(drawdown@),
        r.portfolio.positions.len() == positions.len(),
        forall|i: int|
            0 <= i < positions@.len() ==> position_seen(
                #[trigger] positions@[i],
                r.portfolio.positions@[i],
            ),
        r.recent_trades@.len() == recent_trades@.len(),
        forall|i: int|
            0 <= i < recent_trades@.len() ==> {
                let t = #[trigger] recent_trades@[i];
                let b = r.recent_trades@[i];
                &&& b.symbol@ == t.symbol@
                &&& b.pnl == t.pnl
                &&& b.outcome@ == outcome_lower(t.outcome)
                &&& b.reason@ == t.reason@
            },
{
    let n = prices.len();
    let current_price = if n == 0 {
        Dec::zero()
    } else {
        prices[n - 1]
    };
    let regime = alpha.detect_regime(prices);
    let volatility = input_volatility(prices);
    let mut brain_signals: Vec<BrainSignal> = Vec::new();
    let ghost sigs = signals@;
    let mut rest = signals;
    while rest.len() > 0
        invariant
            brain_signals@.len() + rest@.len() == sigs.len(),
            rest@ == sigs.skip(brain_signals@.len() as int),
            forall|i: int|
                0 <= i < brain_signals@.len() ==> {
                    let s = #[trigger] sigs[i];
                    let b = brain_signals@[i];
                    &&& b.strategy@ == s.strategy@
                    &&& b.signal@ == signal_upper(s.signal)
                    &&& b.confidence == s.confidence
                    &&& b.reason@ == s.reason@
                },
        decreases rest.len(),
    {
        let ghost k = brain_signals@.len() as int;
        let s = rest.remove(0);
        assert(s == sigs[k]);
        brain_signals.push(BrainSignal::from_signal(s));
        assert(rest@ =~= sigs.skip(k + 1));
    }
    let mut brain_arb: Vec<BrainArbOpportunity> = Vec::new();
    let ghost arbs = arb_opps@;
    let mut rest_a = arb_opps;
    while rest_a.len() > 0
        invariant
            brain_arb@.len() + rest_a@.len() == arbs.len(),
            rest_a@ == arbs.skip(brain_arb@.len() as int),
            forall|i: int|
                0 <= i < brain_arb@.len() ==> {
                    let a = #[trigger] arbs[i];
                    let b = brain_arb@[i];
                    &&& b.arb_type@ == a.arb_type@
                    &&& b.spread_bps == a.spread_bps
                    &&& b.net_profit_usd == a.net_profit_usd
                },
        decreases rest_a.len(),
    {
        let ghost k = brain_arb@.len() as int;
        let a = rest_a.remove(0);
        assert(a == arbs[k]);
        brain_arb.push(BrainArbOpportunity::from_arb(a));
        assert(rest_a@ =~= arbs.skip(k + 1));
    }
    let mut brain_trades: Vec<BrainTradeOutcome> = Vec::new();
    let ghost trades = recent_trades@;
    let mut rest_t = recent_trades;
    while rest_t.len() > 0
        invariant
            brain_trades@.len() + rest_t@.len() == trades.len(),
            rest_t@ == trades.skip(brain_trades@.len() as int),
            forall|i: int|
                0 <= i < brain_trades@.len() ==> {
                    let t = #[trigger] trades[i];
                    let b = brain_trades@[i];
                    &&& b.symbol@ == t.symbol@
                    &&& b.pnl == t.pnl
                    &&& b.outcome@ == outcome_lower(t.outcome)
                    &&& b.reason@ == t.reason@
                },
        decreases rest_t.len(),
    {
        let ghost k = brain_trades@.len() as int;
        let t = rest_t.remove(0);
        assert(t == trades[k]);
        brain_trades.push(BrainTradeOutcome::from_trade(t));
        assert(rest_t@ =~= trades.skip(k + 1));
    }
    let mut brain_positions: Vec<BrainPosition> = Vec::new();
    let ghost poss = positions@;
    let mut rest_p = positions;
    while rest_p.len() > 0
        invariant
            brain_positions@.len() + rest_p@.len() == poss.len(),
            rest_p@ == poss.skip(brain_positions@.len() as int),
            forall|i: int|
                0 <= i < brain_positions@.len() ==> position_seen(
                    #[trigger] poss[i],
                    brain_positions@[i],
                ),
        decreases rest_p.len(),
    {
        let ghost k = brain_positions@.len() as int;
        let p = rest_p.remove(0);
        assert(p == poss[k]);
        brain_positions.push(BrainPosition::from_position(p));
        assert(rest_p@ =~= poss.skip(k + 1));
    }
    let risk_level = if Dec::new(1, 1).lt(&drawdown) {
        "elevated".to_owned()
    } else {
        "normal".to_owned()
    };
    let regime_text = match regime {
        crate::market::Regime::TrendingUp => "trendingup".to_owned(),
        crate::market::Regime::TrendingDown => "trendingdown".to_owned(),
        crate::market::Regime::MeanReverting => "meanreverting".to_owned(),
        crate::market::Regime::HighVolatility => "highvolatility".to_owned(),
        crate::market::Regime::LowVolatility => "lowvolatility".to_owned(),
        crate::market::Regime::Choppy => "choppy".to_owned(),
    };
    BrainInput {
        timestamp: now_secs(),
        symbol: symbol.to_owned(),
        market_state: BrainMarketState {
            price: current_price,
            spread_bps: match spread_bps {
                Some(s) => s,
                None => Dec::zero(),
            },
            volatility_1h: volatility,
            regime: regime_text,
        },
        signals: brain_signals,
        arbitrage: brain_arb,
        portfolio: BrainPortfolio {
            capital,
            positions: brain_positions,
            drawdown,
            risk_level,
        },
        recent_trades: brain_trades,
    }
}

/// What to do with a brain's decision.
#[derive(Debug, Clone)]
pub enum DecisionPlan {
    /// Open a position on the symbol's side at its current price.
    Trade { symbol: String, side: Side, price: Dec },
    /// Close the position on the symbol at its current price (zero when unknown).
    Close { symbol: String, price: Dec },
    /// A close without a symbol: nothing to do.
    Nothing,
    /// Skip.
    Skip,
}

/// The plan for a decision, given the current price of its symbol; a trade
/// needs a symbol, a side and a price.
pub fn plan_decision(decision: &BrainDecision, price: Option<Dec>) -> (r: Result<DecisionPlan, String>)
    ensures
        match action_named(decision.action@) {
            Action::Trade => match (decision.symbol, decision.side) {
                (None, _) => r matches Err(e) && e@ == "Trade decision missing symbol"@,
                (Some(sym), sd) => match (sd, price) {
                    (Some(st), Some(p)) if side_named(st@) is Some => r matches Ok(
                        DecisionPlan::Trade { symbol, side, price: q },
                    ) && symbol@ == sym@ && side == side_named(st@)->0 && q == p,
                    (Some(st), None) if side_named(st@) is Some => r matches Err(e) && e@
                        == "No price for "@ + sym@,
                    _ => r matches Err(e) && e@ == "Trade decision missing side"@,
                },
            },
            Action::ClosePosition => match decision.symbol {
                Some(sym) => r matches Ok(DecisionPlan::Close { symbol, price: q }) && symbol@
                    == sym@ && q@ == match price {
                    Some(p) => p@,
                    None => dint(0),
                },
                None => r matches Ok(DecisionPlan::Nothing),
            },
            Action::Skip => r matches Ok(DecisionPlan::Skip),
        },
{
    match decision.action() {
        Action::Trade => {
            let symbol = match &decision.symbol {
                Some(s) => s,
                None => return Err("Trade decision missing symbol".to_owned()),
            };
            let side = match decision.side() {
                Some(s) => s,
                None => return Err("Trade decision missing side".to_owned()),
            };
            match price {
                Some(p) => Ok(DecisionPlan::Trade { symbol: symbol.clone(), side, price: p }),
                None => {
                    let mut e = "No price for ".to_owned();
                    e.append(symbol.as_str());
                    Err(e)
                },
            }
        },
        Action::ClosePosition => match &decision.symbol {
            Some(s) => Ok(
                DecisionPlan::Close {
                    symbol: s.clone(),
                    price: match price {
                        Some(p) => p,
                        None => Dec::zero(),
                    },
                },
            ),
            None => Ok(DecisionPlan::Nothing),
        },
        Action::Skip => Ok(DecisionPlan::Skip),
    }
}

/// The keyword of a symbol for sentiment lookups: the part before its first
/// `-`, in lower case.
pub fn sentiment_keyword(symbol: &str) -> (r: String)
    ensures
        exists|t: Seq<char>| is_before_dash(symbol@, t) && r@ == text_lowercase(t),
{
    let t = before_dash(symbol);
    lowercase(t.as_str())
}

/// The signal of a sentiment score: beyond ±0.5 strong, beyond ±0.2 plain,
/// else hold.
pub open spec fn sentiment_signal_of(score: (int, int)) -> Signal {
    if dlt(dlit(5, 1), score) {
        Signal::StrongBuy
    } else if dlt(dlit(2, 1), score) {
        Signal::Buy
    } else if dlt(score, dlit(-5, 1)) {
        Signal::StrongSell
    } else if dlt(score, dlit(-2, 1)) {
        Signal::Sell
    } else {
        Signal::Hold
    }
}

/// The sentiment strategy signal from the news feed's aggregate: none when
/// its confidence is under 0.3; the score is the keyword's when known, else
/// the overall one.
pub fn sentiment_signal(
    keyword_score: Option<Dec>,
    overall_score: Dec,
    confidence: Dec,
    level_name: &str,
    sample_size: usize,
) -> (r: Option<StrategySignal>)
    ensures
        dlt(confidence@, dlit(3, 1)) ==> r is None,
        !dlt(confidence@, dlit(3, 1)) ==> ({
            let score = match keyword_score {
                Some(k) => k@,
                None => overall_score@,
            };
            r matches Some(s) && s.strategy@ == "sentiment"@ && s.signal == sentiment_signal_of(score)
                && s.confidence == confidence && s.reason@ == "Sentiment: "@ + level_name@
                + " (score: "@ + decimal_text_dp(score, 2) + ", "@ + nat_digits(sample_size as nat)
                + " samples)"@
        }),
{
    if confidence.lt(&Dec::new(3, 1)) {
        return None;
    }
    let score = match keyword_score {
        Some(k) => k,
        None => overall_score,
    };
    let signal = if Dec::new(5, 1).lt(&score) {
        Signal::StrongBuy
    } else if Dec::new(2, 1).lt(&score) {
        Signal::Buy
    } else if score.lt(&Dec::new(-5, 1)) {
        Signal::StrongSell
    } else if score.lt(&Dec::new(-2, 1)) {
        Signal::Sell
    } else {
        Signal::Hold
    };
    let mut reason = "Sentiment: ".to_owned();
    reason.append(level_name);
    reason.append(" (score: ");
    reason.append(score.to_text_dp(2).as_str());
    reason.append(", ");
    reason.append(nat_text(sample_size as u64).as_str());
    reason.append(" samples)");
    Some(StrategySignal { strategy: "sentiment".to_owned(), signal, confidence, reason })
}

} // verus!
