//! Core market types: signals, regimes, ticks, order books, price windows,
//! positions and trade records.
use crate::decimal::{dabs, dadd, ddiv, dint, dle, dlt, dmin, dmul, dneg, dsub, lemma_units_sign, opt_view, units, Dec};
use std::collections::VecDeque;
use vstd::prelude::*;

verus! {

/// Trading signal strength.
#[derive(Debug, Clone, Copy, PartialEq, Eq, Structural)]
pub enum Signal {
    StrongBuy,
    Buy,
    Hold,
    Sell,
    StrongSell,
}

/// Numeric strength of a signal, from -2 to 2.
pub open spec fn signal_numeric(s: Signal) -> int {
    match s {
        Signal::StrongBuy => 2,
        Signal::Buy => 1,
        Signal::Hold => 0,
        Signal::Sell => -1,
        Signal::StrongSell => -2,
    }
}

impl Signal {
    pub fn is_bullish(&self) -> (r: bool)
        ensures
            r == (*self == Signal::StrongBuy || *self == Signal::Buy),
            r == (signal_numeric(*self) > 0),
    {
        match self {
            Signal::StrongBuy | Signal::Buy => true,
            _ => false,
        }
    }

    pub fn is_bearish(&self) -> (r: bool)
        ensures
            r == (*self == Signal::StrongSell || *self == Signal::Sell),
            r == (signal_numeric(*self) < 0),
    {
        match self {
            Signal::StrongSell | Signal::Sell => true,
            _ => false,
        }
    }

    pub fn to_numeric(&self) -> (r: i8)
        ensures
            r as int == signal_numeric(*self),
    {
        match self {
            Signal::StrongBuy => 2,
            Signal::Buy => 1,
            Signal::Hold => 0,
            Signal::Sell => -1,
            Signal::StrongSell => -2,
        }
    }
}

/// A signal is never both bullish and bearish, and it is neither exactly when
/// it is `Hold`.
pub proof fn lemma_signal_direction(s: Signal)
    ensures
        !(signal_numeric(s) > 0 && signal_numeric(s) < 0),
        (signal_numeric(s) == 0) == (s == Signal::Hold),
        -2 <= signal_numeric(s) <= 2,
{
}

/// Market regime classification.
#[derive(Debug, Clone, Copy, PartialEq, Eq, Structural)]
pub enum Regime {
    TrendingUp,
    TrendingDown,
    MeanReverting,
    HighVolatility,
    LowVolatility,
    Choppy,
}

impl Default for Regime {
    fn default() -> (r: Regime)
        ensures
            r == Regime::MeanReverting,
    {
        Regime::MeanReverting
    }
}

/// Data source identifier.
#[derive(Debug, Clone, Copy, PartialEq, Eq, Structural)]
pub enum Source {
    Okx,
    Binance,
    Dex,
    OnchainOS,
    Chainlink,
}

/// Trading side.
#[derive(Debug, Clone, Copy, PartialEq, Eq, Structural)]
pub enum Side {
    Long,
    Short,
}

impl Side {
    pub fn opposite(&self) -> (r: Side)
        ensures
            r != *self,
            r == (if *self == Side::Long {
                Side::Short
            } else {
                Side::Long
            }),
    {
        match self {
            Side::Long => Side::Short,
            Side::Short => Side::Long,
        }
    }
}

/// The opposite of the opposite side is the side itself.
pub proof fn lemma_opposite_involutive(s: Side)
    ensures
        (if (if s == Side::Long {
            Side::Short
        } else {
            Side::Long
        }) == Side::Long {
            Side::Short
        } else {
            Side::Long
        }) == s,
{
}

/// Trading action from the orchestrating brain.
#[derive(Debug, Clone, Copy, PartialEq, Eq, Structural)]
pub enum Action {
    Trade,
    Skip,
    ClosePosition,
}

/// Trading mode.
#[derive(Debug, Clone, Copy, PartialEq, Eq, Structural)]
pub enum TradingMode {
    Paper,
    Live,
    Simulation,
}

impl Default for TradingMode {
    fn default() -> (r: TradingMode)
        ensures
            r == TradingMode::Paper,
    {
        TradingMode::Paper
    }
}

/// Spread in basis points of `ask` over `bid`: `(ask - bid) / bid * 10000`, zero when `bid` is zero.
pub open spec fn spread_bps_of(bid: (int, int), ask: (int, int)) -> (int, int) {
    if units(bid) == 0 {
        dint(0)
    } else {
        dmul(ddiv(dsub(ask, bid), bid), dint(10000))
    }
}

/// Midpoint of two prices.
pub open spec fn mid_of(bid: (int, int), ask: (int, int)) -> (int, int) {
    ddiv(dadd(bid, ask), dint(2))
}

/// Price tick from an exchange.
#[derive(Debug, Clone)]
pub struct PriceTick {
    pub symbol: String,
    pub price: Dec,
    pub bid: Dec,
    pub ask: Dec,
    pub volume_24h: Dec,
    pub timestamp: i64,
    pub source: Source,
}

impl PriceTick {
    pub fn spread_bps(&self) -> (r: Dec)
        ensures
            r@ == spread_bps_of(self.bid@, self.ask@),
    {
        if self.bid.is_zero() {
            return Dec::zero();
        }
        self.ask.sub(self.bid).div(self.bid).mul(Dec::from_u64(10000))
    }

    pub fn mid_price(&self) -> (r: Dec)
        ensures
            r@ == mid_of(self.bid@, self.ask@),
    {
        self.bid.add(self.ask).div(Dec::from_u64(2))
    }
}

/// Order book level.
#[derive(Debug, Clone, Copy)]
pub struct BookLevel {
    pub price: Dec,
    pub size: Dec,
}

/// Order book snapshot; the best level of each side comes first.
#[derive(Debug, Clone)]
pub struct OrderBook {
    pub symbol: String,
    pub bids: Vec<BookLevel>,
    pub asks: Vec<BookLevel>,
    pub timestamp: i64,
}

/// Price of the first level of a side, if any.
pub open spec fn best_of(levels: Seq<BookLevel>) -> Option<(int, int)> {
    if levels.len() == 0 {
        None
    } else {
        Some(levels[0].price@)
    }
}

/// Midpoint of the best bid and ask, if both sides have a level.
pub open spec fn book_mid(bids: Seq<BookLevel>, asks: Seq<BookLevel>) -> Option<(int, int)> {
    match (best_of(bids), best_of(asks)) {
        (Some(b), Some(a)) => Some(mid_of(b, a)),
        _ => None,
    }
}

/// State of a walk over book levels that fills `size`: the cost paid so far
/// and the size still to fill, after the first `n` levels.
pub open spec fn fill_walk(levels: Seq<BookLevel>, size: (int, int), n: int) -> ((int, int), (
    int,
    int,
))
    decreases n,
{
    if n <= 0 {
        (dint(0), size)
    } else {
        let (cost, remaining) = fill_walk(levels, size, n - 1);
        if units(remaining) == 0 {
            (cost, remaining)
        } else {
            let fill = dmin(remaining, levels[n - 1].size@);
            (dadd(cost, dmul(fill, levels[n - 1].price@)), dsub(remaining, fill))
        }
    }
}

/// Slippage in basis points of filling `size` against `levels` relative to `mid`,
/// `None` when the levels cannot fill it.
pub open spec fn slippage_of(levels: Seq<BookLevel>, size: (int, int), mid: (int, int)) -> Option<
    (int, int),
> {
    let (cost, remaining) = fill_walk(levels, size, levels.len() as int);
    if units(remaining) > 0 {
        None
    } else {
        Some(dmul(ddiv(dabs(dsub(ddiv(cost, size), mid)), mid), dint(10000)))
    }
}

impl OrderBook {
    pub fn best_bid(&self) -> (r: Option<Dec>)
        ensures
            opt_view(r) == best_of(self.bids@),
    {
        if self.bids.len() == 0 {
            None
        } else {
            Some(self.bids[0].price)
        }
    }

    pub fn best_ask(&self) -> (r: Option<Dec>)
        ensures
            opt_view(r) == best_of(self.asks@),
    {
        if self.asks.len() == 0 {
            None
        } else {
            Some(self.asks[0].price)
        }
    }

    pub fn spread_bps(&self) -> (r: Option<Dec>)
        ensures
            opt_view(r) == match (best_of(self.bids@), best_of(self.asks@)) {
                (Some(b), Some(a)) => if units(b) != 0 {
                    Some(dmul(ddiv(dsub(a, b), b), dint(10000)))
                } else {
                    None
                },
                _ => None,
            },
    {
        match (self.best_bid(), self.best_ask()) {
            (Some(bid), Some(ask)) => {
                if !bid.is_zero() {
                    Some(ask.sub(bid).div(bid).mul(Dec::from_u64(10000)))
                } else {
                    None
                }
            },
            _ => None,
        }
    }

    pub fn mid_price(&self) -> (r: Option<Dec>)
        ensures
            opt_view(r) == book_mid(self.bids@, self.asks@),
    {
        match (self.best_bid(), self.best_ask()) {
            (Some(bid), Some(ask)) => Some(bid.add(ask).div(Dec::from_u64(2))),
            _ => None,
        }
    }

    /// Estimated slippage in basis points of a market order of `size` that
    /// walks the asks (a buy) or the bids (a sell); `None` without a mid price
    /// or when the book cannot fill the order.
    pub fn estimate_slippage(&self, size: Dec, is_buy: bool) -> (r: Option<Dec>)
        requires
            units(size@) != 0,
            book_mid(self.bids@, self.asks@) matches Some(m) ==> units(m) != 0,
        ensures
            opt_view(r) == match book_mid(self.bids@, self.asks@) {
                None => None,
                Some(m) => slippage_of(
                    if is_buy {
                        self.asks@
                    } else {
                        self.bids@
                    },
                    size@,
                    m,
                ),
            },
    {
        let levels = if is_buy {
            &self.asks
        } else {
            &self.bids
        };
        let mid = match self.mid_price() {
            Some(m) => m,
            None => return None,
        };
        let mut remaining = size;
        let mut total_cost = Dec::zero();
        let mut i: usize = 0;
        while i < levels.len()
            invariant_except_break
                units(remaining@) != 0,
            invariant
                i <= levels.len(),
                (total_cost@, remaining@) == fill_walk(levels@, size@, i as int),
            ensures
                i == levels.len() || units(remaining@) == 0,
            decreases levels.len() - i,
        {
            let level = levels[i];
            let fill = remaining.min(level.size);
            total_cost = total_cost.add(fill.mul(level.price));
            remaining = remaining.sub(fill);
            i = i + 1;
            if remaining.is_zero() {
                break;
            }
        }
        proof {
            lemma_fill_walk_stops(levels@, size@, i as int);
        }
        if remaining.gt(&Dec::zero()) {
            proof {
                lemma_units_sign(dint(0));
            }
            return None;
        }
        proof {
            lemma_units_sign(dint(0));
        }
        let avg_price = total_cost.div(size);
        Some(avg_price.sub(mid).abs().div(mid).mul(Dec::from_u64(10000)))
    }

    /// `estimate_slippage` for any order: `None` also for a zero size or a
    /// zero mid price, where the estimate would divide by zero.
    pub fn try_estimate_slippage(&self, size: Dec, is_buy: bool) -> (r: Option<Dec>)
        ensures
            units(size@) == 0 ==> r is None,
            (book_mid(self.bids@, self.asks@) matches Some(m) && units(m) == 0) ==> r is None,
            units(size@) != 0 && !(book_mid(self.bids@, self.asks@) matches Some(m) && units(m)
                == 0) ==> opt_view(r) == match book_mid(self.bids@, self.asks@) {
                None => None,
                Some(m) => slippage_of(
                    if is_buy {
                        self.asks@
                    } else {
                        self.bids@
                    },
                    size@,
                    m,
                ),
            },
    {
        if size.is_zero() {
            return None;
        }
        match self.mid_price() {
            Some(m) => {
                if m.is_zero() {
                    return None;
                }
            },
            None => {},
        }
        self.estimate_slippage(size, is_buy)
    }
}

/// Once the walk has nothing left to fill, further levels change nothing.
pub proof fn lemma_fill_walk_stops(levels: Seq<BookLevel>, size: (int, int), n: int)
    requires
        0 <= n <= levels.len(),
        n == levels.len() || units(fill_walk(levels, size, n).1) == 0,
    ensures
        fill_walk(levels, size, levels.len() as int) == fill_walk(levels, size, n),
    decreases levels.len() - n,
{
    if n < levels.len() {
        assert(fill_walk(levels, size, n + 1) == fill_walk(levels, size, n));
        lemma_fill_walk_stops(levels, size, n + 1);
    }
}

/// Strategy signal with metadata.
#[derive(Debug, Clone)]
pub struct StrategySignal {
    pub strategy: String,
    pub signal: Signal,
    pub confidence: Dec,
    pub reason: String,
}

/// The parts of a strategy signal: strategy name, signal, confidence and reason.
pub open spec fn signal_view(s: StrategySignal) -> (Seq<char>, Signal, (int, int), Seq<char>) {
    (s.strategy@, s.signal, s.confidence@, s.reason@)
}

/// The parts of an optional strategy signal.
pub open spec fn opt_signal_view(o: Option<StrategySignal>) -> Option<
    (Seq<char>, Signal, (int, int), Seq<char>),
> {
    match o {
        Some(s) => Some(signal_view(s)),
        None => None,
    }
}

/// Arbitrage opportunity.
#[derive(Debug, Clone)]
pub struct ArbOpportunity {
    pub arb_type: String,
    pub spread_bps: Dec,
    pub net_profit_usd: Dec,
    pub buy_venue: String,
    pub sell_venue: String,
}

/// Market state aggregation.
#[derive(Debug, Clone)]
pub struct MarketState {
    pub symbol: String,
    pub price: Dec,
    pub spread_bps: Dec,
    pub volatility_1h: Dec,
    pub regime: Regime,
    pub cex_price: Option<Dec>,
    pub dex_price: Option<Dec>,
}

/// Rolling window of the latest `(timestamp, price)` observations.
#[derive(Debug, Clone)]
pub struct PriceWindow {
    pub symbol: String,
    pub prices: VecDeque<(i64, Dec)>,
    pub max_size: usize,
}

/// The window after one more observation: the oldest one leaves when the
/// window is full.
pub open spec fn window_push(s: Seq<(i64, Dec)>, max_size: nat, x: (i64, Dec)) -> Seq<(i64, Dec)> {
    if s.len() >= max_size && s.len() > 0 {
        s.drop_first().push(x)
    } else {
        s.push(x)
    }
}

impl PriceWindow {
    pub fn new(symbol: String, max_size: usize) -> (r: PriceWindow)
        ensures
            r.symbol@ == symbol@,
            r.prices@.len() == 0,
            r.max_size == max_size,
    {
        PriceWindow { symbol, prices: VecDeque::new(), max_size }
    }

    pub fn push(&mut self, timestamp: i64, price: Dec)
        requires
            old(self).prices@.len() < usize::MAX,
        ensures
            final(self).prices@ == window_push(
                old(self).prices@,
                old(self).max_size as nat,
                (timestamp, price),
            ),
            final(self).max_size == old(self).max_size,
            final(self).symbol == old(self).symbol,
    {
        if self.prices.len() >= self.max_size {
            self.prices.pop_front();
        }
        self.prices.push_back((timestamp, price));
    }

    pub fn len(&self) -> (r: usize)
        ensures
            r == self.prices@.len(),
    {
        self.prices.len()
    }

    pub fn is_empty(&self) -> (r: bool)
        ensures
            r == (self.prices@.len() == 0),
    {
        self.prices.len() == 0
    }

    pub fn latest_price(&self) -> (r: Option<Dec>)
        ensures
            r == if self.prices@.len() == 0 {
                None
            } else {
                Some(self.prices@.last().1)
            },
    {
        let n = self.prices.len();
        if n == 0 {
            None
        } else {
            Some(self.prices[n - 1].1)
        }
    }

    pub fn prices_only(&self) -> (r: Vec<Dec>)
        ensures
            r@ == self.prices@.map_values(|p: (i64, Dec)| p.1),
    {
        let mut out: Vec<Dec> = Vec::new();
        let mut i: usize = 0;
        while i < self.prices.len()
            invariant
                i <= self.prices@.len(),
                out@ == self.prices@.take(i as int).map_values(|p: (i64, Dec)| p.1),
            decreases self.prices@.len() - i,
        {
            out.push(self.prices[i].1);
            proof {
                assert(self.prices@.take(i + 1) == self.prices@.take(i as int).push(
                    self.prices@[i as int],
                ));
            }
            i = i + 1;
        }
        proof {
            assert(self.prices@.take(i as int) == self.prices@);
        }
        out
    }
}

/// A window with room for at least one observation never holds more than
/// `max_size` of them, and a push keeps the latest observations in order.
pub proof fn lemma_window_bounded(s: Seq<(i64, Dec)>, max_size: nat, x: (i64, Dec))
    requires
        max_size >= 1,
        s.len() <= max_size,
    ensures
        window_push(s, max_size, x).len() <= max_size,
        window_push(s, max_size, x).last() == x,
        window_push(s, max_size, x).len() == if s.len() == max_size {
            s.len()
        } else {
            s.len() + 1
        },
{
}

/// Position in the portfolio.
#[derive(Debug, Clone)]
pub struct Position {
    pub id: String,
    pub symbol: String,
    pub side: Side,
    pub size: Dec,
    pub entry_price: Dec,
    pub current_price: Dec,
    pub stop_loss: Option<Dec>,
    pub take_profit: Option<Dec>,
    /// Opening time, in seconds since the Unix epoch.
    pub opened_at: i64,
    pub unrealized_pnl: Dec,
}

/// Unrealized profit of a position of `size` opened at `entry` now at `current`.
pub open spec fn pnl_of(side: Side, size: (int, int), entry: (int, int), current: (int, int)) -> (
    int,
    int,
) {
    match side {
        Side::Long => dmul(dsub(current, entry), size),
        Side::Short => dmul(dneg(dsub(current, entry)), size),
    }
}

impl Position {
    pub fn update_pnl(&mut self, current_price: Dec)
        ensures
            final(self).current_price == current_price,
            final(self).unrealized_pnl@ == pnl_of(
                old(self).side,
                old(self).size@,
                old(self).entry_price@,
                current_price@,
            ),
            final(self).side == old(self).side,
            final(self).size == old(self).size,
            final(self).entry_price == old(self).entry_price,
            final(self).stop_loss == old(self).stop_loss,
            final(self).take_profit == old(self).take_profit,
            final(self).id == old(self).id,
            final(self).symbol == old(self).symbol,
            final(self).opened_at == old(self).opened_at,
    {
        self.current_price = current_price;
        let price_diff = current_price.sub(self.entry_price);
        self.unrealized_pnl = match self.side {
            Side::Long => price_diff.mul(self.size),
            Side::Short => price_diff.neg().mul(self.size),
        };
    }

    pub fn pnl_percent(&self) -> (r: Dec)
        ensures
            r@ == if units(self.entry_price@) == 0 {
                dint(0)
            } else {
                let pct = dmul(
                    ddiv(dsub(self.current_price@, self.entry_price@), self.entry_price@),
                    dint(100),
                );
                match self.side {
                    Side::Long => pct,
                    Side::Short => dneg(pct),
                }
            },
    {
        if self.entry_price.is_zero() {
            return Dec::zero();
        }
        let price_diff = self.current_price.sub(self.entry_price);
        let pct = price_diff.div(self.entry_price).mul(Dec::from_u64(100));
        match self.side {
            Side::Long => pct,
            Side::Short => pct.neg(),
        }
    }

    pub fn should_stop_loss(&self) -> (r: bool)
        ensures
            r == match self.stop_loss {
                None => false,
                Some(sl) => match self.side {
                    Side::Long => dle(self.current_price@, sl@),
                    Side::Short => dle(sl@, self.current_price@),
                },
            },
    {
        match self.stop_loss {
            None => false,
            Some(sl) => match self.side {
                Side::Long => self.current_price.le(&sl),
                Side::Short => self.current_price.ge(&sl),
            },
        }
    }

    pub fn should_take_profit(&self) -> (r: bool)
        ensures
            r == match self.take_profit {
                None => false,
                Some(tp) => match self.side {
                    Side::Long => dle(tp@, self.current_price@),
                    Side::Short => dle(self.current_price@, tp@),
                },
            },
    {
        match self.take_profit {
            None => false,
            Some(tp) => match self.side {
                Side::Long => self.current_price.ge(&tp),
                Side::Short => self.current_price.le(&tp),
            },
        }
    }
}

/// Trade outcome for learning.
#[derive(Debug, Clone, Copy, PartialEq, Eq, Structural)]
pub enum TradeOutcome {
    Win,
    Loss,
    Breakeven,
}

/// Completed trade record; times are seconds since the Unix epoch.
#[derive(Debug, Clone)]
pub struct Trade {
    pub id: String,
    pub symbol: String,
    pub side: Side,
    pub size: Dec,
    pub entry_price: Dec,
    pub exit_price: Dec,
    pub pnl: Dec,
    pub outcome: TradeOutcome,
    pub reason: String,
    pub opened_at: i64,
    pub closed_at: i64,
}

/// Portfolio snapshot for brain input.
#[derive(Debug, Clone)]
pub struct PortfolioSnapshot {
    pub capital: Dec,
    pub positions: Vec<Position>,
    pub drawdown: Dec,
    pub risk_level: String,
    pub realized_pnl: Dec,
    pub unrealized_pnl: Dec,
}

/// Order type.
#[derive(Debug, Clone, Copy, PartialEq, Eq, Structural)]
pub enum OrderType {
    Market,
    Limit,
}

/// Order to execute.
#[derive(Debug, Clone)]
pub struct Order {
    pub symbol: String,
    pub side: Side,
    pub size: Dec,
    pub order_type: OrderType,
    pub limit_price: Option<Dec>,
    pub stop_loss: Option<Dec>,
    pub take_profit: Option<Dec>,
}

/// Execution result; the time is in seconds since the Unix epoch.
#[derive(Debug, Clone)]
pub struct ExecutionResult {
    pub order_id: String,
    pub symbol: String,
    pub side: Side,
    pub size: Dec,
    pub price: Dec,
    pub fee: Dec,
    pub timestamp: i64,
    pub venue: String,
}

} // verus!
