//! Paper trading: fills at the market price with a simulated slippage for
//! market orders (limit orders at their limit), a fee in basis points, and
//! numbered order ids.  The portfolio that records positions is held by the
//! caller, which opens the position at the fill price this trader gives and
//! hands back the outcome.
use crate::clock::now_secs;
use crate::decimal::{dadd, ddiv, dint, dmul, dsub, Dec};
use crate::market::{ExecutionResult, Order, OrderType, Side};
use crate::exec::mev::value_or;
use crate::text::{nat_digits, nat_text};
use vstd::prelude::*;

verus! {

/// Fill price of an order: a limit order at its limit (the market price
/// without one), a market order at the market price moved against it by
/// the slippage.
pub open spec fn paper_fill_of(order: Order, market_price: (int, int), slippage_bps: (int, int)) -> (int, int) {
    match order.order_type {
        OrderType::Limit => value_or(order.limit_price, market_price),
        OrderType::Market => {
            let s = ddiv(slippage_bps, dint(10000));
            let mult = match order.side {
                Side::Long => dadd(dint(1), s),
                Side::Short => dsub(dint(1), s),
            };
            dmul(market_price, mult)
        },
    }
}

/// Fee of a fill: size times price times the fee rate.
pub open spec fn paper_fee_of(size: (int, int), price: (int, int), fee_bps: (int, int)) -> (int, int) {
    ddiv(dmul(dmul(size, price), fee_bps), dint(10000))
}

/// Exit price of a position: the market price moved against the closing
/// trade by the slippage.
pub open spec fn paper_exit_of(side: Side, market_price: (int, int), slippage_bps: (int, int)) -> (int, int) {
    let s = ddiv(slippage_bps, dint(10000));
    let mult = match side {
        Side::Long => dsub(dint(1), s),
        Side::Short => dadd(dint(1), s),
    };
    dmul(market_price, mult)
}

/// Paper trading executor.
pub struct PaperTrader {
    /// Simulated slippage (bps).
    slippage_bps: Dec,
    /// Simulated fee (bps).
    fee_bps: Dec,
    /// Number of the next order.
    next_id: u64,
}

impl PaperTrader {
    pub closed spec fn slippage_spec(&self) -> (int, int) {
        self.slippage_bps@
    }

    pub closed spec fn fee_spec(&self) -> (int, int) {
        self.fee_bps@
    }

    pub closed spec fn next_id_spec(&self) -> u64 {
        self.next_id
    }

    /// A trader with 5 bps slippage and a 10 bps fee.
    pub fn new() -> (r: PaperTrader)
        ensures
            r.slippage_spec() == dint(5),
            r.fee_spec() == dint(10),
            r.next_id_spec() == 1,
    {
        PaperTrader { slippage_bps: Dec::from_u64(5), fee_bps: Dec::from_u64(10), next_id: 1 }
    }

    pub fn with_fees(slippage_bps: Dec, fee_bps: Dec) -> (r: PaperTrader)
        ensures
            r.slippage_spec() == slippage_bps@,
            r.fee_spec() == fee_bps@,
            r.next_id_spec() == 1,
    {
        PaperTrader { slippage_bps, fee_bps, next_id: 1 }
    }

    /// Price an order fills at (see `paper_fill_of`).
    pub fn fill_price(&self, order: &Order, market_price: Dec) -> (r: Dec)
        ensures
            r@ == paper_fill_of(*order, market_price@, self.slippage_spec()),
    {
        match order.order_type {
            OrderType::Limit => match order.limit_price {
                Some(p) => p,
                None => market_price,
            },
            OrderType::Market => {
                let s = self.slippage_bps.div(Dec::from_u64(10000));
                let mult = match order.side {
                    Side::Long => Dec::from_u64(1).add(s),
                    Side::Short => Dec::from_u64(1).sub(s),
                };
                market_price.mul(mult)
            },
        }
    }

    /// Executes an order: `opened` is the portfolio's answer to opening the
    /// position at `fill_price(order, market_price)`.  Its error is returned
    /// as it is; otherwise the fill gets the next order id.
    pub fn execute(&mut self, order: &Order, market_price: Dec, opened: Result<(), String>) -> (r: Result<ExecutionResult, String>)
        requires
            old(self).next_id_spec() < u64::MAX,
        ensures
            final(self).slippage_spec() == old(self).slippage_spec(),
            final(self).fee_spec() == old(self).fee_spec(),
            match opened {
                Err(e) => r matches Err(e2) && e2@ == e@ && final(self).next_id_spec() == old(self).next_id_spec(),
                Ok(_) => r matches Ok(x) && final(self).next_id_spec() == old(self).next_id_spec() + 1
                    && x.order_id@ == "paper-"@ + nat_digits(old(self).next_id_spec() as nat)
                    && x.symbol@ == order.symbol@ && x.side == order.side && x.size@ == order.size@
                    && x.price@ == paper_fill_of(*order, market_price@, old(self).slippage_spec())
                    && x.fee@ == paper_fee_of(order.size@, x.price@, old(self).fee_spec())
                    && x.venue@ == "paper"@,
            },
    {
        let fill_price = self.fill_price(order, market_price);
        let fee = order.size.mul(fill_price).mul(self.fee_bps).div(Dec::from_u64(10000));
        match opened {
            Err(e) => Err(e),
            Ok(_) => {
                let mut order_id = "paper-".to_owned();
                order_id.append(nat_text(self.next_id).as_str());
                self.next_id = self.next_id + 1;
                Ok(
                    ExecutionResult {
                        order_id,
                        symbol: order.symbol.clone(),
                        side: order.side,
                        size: order.size,
                        price: fill_price,
                        fee,
                        timestamp: now_secs(),
                        venue: "paper".to_owned(),
                    },
                )
            },
        }
    }

    /// Price a position is closed at: `side` is the side of the symbol's
    /// open position, if there is one; without one the close is refused.
    pub fn close_price(&self, symbol: &str, side: Option<Side>, market_price: Dec) -> (r: Result<Dec, String>)
        ensures
            match side {
                None => r matches Err(e) && e@ == "Position not found: "@ + symbol@,
                Some(s) => r matches Ok(p) && p@ == paper_exit_of(s, market_price@, self.slippage_spec()),
            },
    {
        match side {
            None => {
                let mut e = "Position not found: ".to_owned();
                e.append(symbol);
                Err(e)
            },
            Some(s) => {
                let sl = self.slippage_bps.div(Dec::from_u64(10000));
                let mult = match s {
                    Side::Long => Dec::from_u64(1).sub(sl),
                    Side::Short => Dec::from_u64(1).add(sl),
                };
                Ok(market_price.mul(mult))
            },
        }
    }
}

} // verus!
