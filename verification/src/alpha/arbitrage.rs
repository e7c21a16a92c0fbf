//! Arbitrage detection: CEX/DEX, cross-exchange and triangular.
use crate::decimal::{dabs, dadd, ddiv, dint, dlit, dlt, dmul, dsub, units, Dec};
use crate::market::{mid_of, ArbOpportunity};
use vstd::prelude::*;

verus! {

/// Arbitrage detector.
#[derive(Debug, Clone)]
pub struct ArbitrageEngine {
    /// Minimum net spread in basis points to report.
    pub min_spread_bps: Dec,
    /// Estimated transaction cost in basis points.
    pub tx_cost_bps: Dec,
    /// Slippage estimate in basis points.
    pub slippage_bps: Dec,
}

/// The default arbitrage engine: 20 bps least spread, 10 bps transaction cost, 5 bps slippage.
pub open spec fn is_default_arbitrage(c: ArbitrageEngine) -> bool {
    &&& c.min_spread_bps@ == dint(20)
    &&& c.tx_cost_bps@ == dint(10)
    &&& c.slippage_bps@ == dint(5)
}

impl Default for ArbitrageEngine {
    fn default() -> (r: ArbitrageEngine)
        ensures
            is_default_arbitrage(r),
    {
        ArbitrageEngine {
            min_spread_bps: Dec::from_u64(20),
            tx_cost_bps: Dec::from_u64(10),
            slippage_bps: Dec::from_u64(5),
        }
    }
}

/// Gross spread in basis points between a CEX and a DEX price, relative to the CEX price.
pub open spec fn cedefi_spread(cex: (int, int), dex: (int, int)) -> (int, int) {
    dmul(ddiv(dabs(dsub(dex, cex)), cex), dint(10000))
}

/// Spread after costs of a CEX/DEX opportunity.
pub open spec fn cedefi_net(e: ArbitrageEngine, cex: (int, int), dex: (int, int)) -> (int, int) {
    dsub(cedefi_spread(cex, dex), dadd(e.tx_cost_bps@, e.slippage_bps@))
}

/// Gross spread in basis points between two exchange prices, relative to their midpoint.
pub open spec fn cross_spread(a: (int, int), b: (int, int)) -> (int, int) {
    dmul(ddiv(dabs(dsub(a, b)), mid_of(a, b)), dint(10000))
}

/// Spread after the costs of two legs.
pub open spec fn cross_net(e: ArbitrageEngine, a: (int, int), b: (int, int)) -> (int, int) {
    dsub(
        cross_spread(a, b),
        dadd(dmul(e.tx_cost_bps@, dint(2)), dmul(e.slippage_bps@, dint(2))),
    )
}

/// Discrepancy in percent between the implied rate `bi * iq` and the direct rate `bq`.
pub open spec fn triangular_pct(bq: (int, int), bi: (int, int), iq: (int, int)) -> (int, int) {
    dmul(ddiv(dabs(dsub(dmul(bi, iq), bq)), bq), dint(100))
}

/// Cost in percent of the three legs of a triangular arbitrage.
pub open spec fn triangular_cost(e: ArbitrageEngine) -> (int, int) {
    ddiv(dmul(dadd(e.tx_cost_bps@, e.slippage_bps@), dint(3)), dint(100))
}

/// Slippage in basis points implied by an order's size relative to liquidity.
pub open spec fn size_impact(order_size: (int, int), liquidity: (int, int)) -> (int, int) {
    if units(liquidity) == 0 {
        dint(50)
    } else {
        dmul(ddiv(order_size, liquidity), dint(100))
    }
}

/// Expected profit of executing an arbitrage of `spread_bps` with an order of
/// `order_size` against `liquidity`; zero when the net spread is negative.
pub open spec fn execution_profit(
    e: ArbitrageEngine,
    spread_bps: (int, int),
    order_size: (int, int),
    liquidity: (int, int),
) -> (int, int) {
    let total_slippage = dadd(e.slippage_bps@, size_impact(order_size, liquidity));
    let net = dsub(dsub(spread_bps, e.tx_cost_bps@), total_slippage);
    if units(net) >= 0 {
        ddiv(dmul(order_size, net), dint(10000))
    } else {
        dint(0)
    }
}

impl ArbitrageEngine {
    pub fn new(min_spread_bps: Dec) -> (r: ArbitrageEngine)
        ensures
            r.min_spread_bps == min_spread_bps,
            r.tx_cost_bps@ == dint(10),
            r.slippage_bps@ == dint(5),
    {
        ArbitrageEngine {
            min_spread_bps,
            tx_cost_bps: Dec::from_u64(10),
            slippage_bps: Dec::from_u64(5),
        }
    }

    /// CeDeFi arbitrage (CEX vs DEX): reported when the spread after costs
    /// reaches the minimum; buy on the cheaper venue.
    pub fn check_cedefi_arb(&self, symbol: &str, cex_price: Dec, dex_price: Dec, capital: Dec) -> (r:
        Option<ArbOpportunity>)
        ensures
            units(cex_price@) == 0 || units(dex_price@) == 0 ==> r is None,
            units(cex_price@) != 0 && units(dex_price@) != 0 ==> {
                let net = cedefi_net(*self, cex_price@, dex_price@);
                if dlt(net, self.min_spread_bps@) {
                    r is None
                } else {
                    r matches Some(o) && o.arb_type@ == "cedefi"@ && o.spread_bps@
                        == cedefi_spread(cex_price@, dex_price@) && o.net_profit_usd@ == ddiv(
                        dmul(capital@, net),
                        dint(10000),
                    ) && (if dlt(cex_price@, dex_price@) {
                        o.buy_venue@ == "cex"@ && o.sell_venue@ == "dex"@
                    } else {
                        o.buy_venue@ == "dex"@ && o.sell_venue@ == "cex"@
                    })
                }
            },
    {
        if cex_price.is_zero() || dex_price.is_zero() {
            return None;
        }
        let spread_bps = dex_price.sub(cex_price).abs().div(cex_price).mul(Dec::from_u64(10000));
        let total_cost_bps = self.tx_cost_bps.add(self.slippage_bps);
        let net_spread_bps = spread_bps.sub(total_cost_bps);
        if net_spread_bps.lt(&self.min_spread_bps) {
            return None;
        }
        let net_profit = capital.mul(net_spread_bps).div(Dec::from_u64(10000));
        let (buy_venue, sell_venue) = if cex_price.lt(&dex_price) {
            ("cex".to_owned(), "dex".to_owned())
        } else {
            ("dex".to_owned(), "cex".to_owned())
        };
        Some(
            ArbOpportunity {
                arb_type: "cedefi".to_owned(),
                spread_bps,
                net_profit_usd: net_profit,
                buy_venue,
                sell_venue,
            },
        )
    }

    /// Cross-exchange arbitrage: two legs, so twice the costs; buy on the
    /// cheaper exchange.
    pub fn check_cross_exchange_arb(
        &self,
        symbol: &str,
        exchange_a_price: Dec,
        exchange_a_name: &str,
        exchange_b_price: Dec,
        exchange_b_name: &str,
        capital: Dec,
    ) -> (r: Option<ArbOpportunity>)
        requires
            units(exchange_a_price@) != 0 && units(exchange_b_price@) != 0 ==> units(
                mid_of(exchange_a_price@, exchange_b_price@),
            ) != 0,
        ensures
            units(exchange_a_price@) == 0 || units(exchange_b_price@) == 0 ==> r is None,
            units(exchange_a_price@) != 0 && units(exchange_b_price@) != 0 ==> {
                let net = cross_net(*self, exchange_a_price@, exchange_b_price@);
                if dlt(net, self.min_spread_bps@) {
                    r is None
                } else {
                    r matches Some(o) && o.arb_type@ == "cross_exchange"@ && o.spread_bps@
                        == cross_spread(exchange_a_price@, exchange_b_price@) && o.net_profit_usd@
                        == ddiv(dmul(capital@, net), dint(10000)) && (if dlt(
                        exchange_a_price@,
                        exchange_b_price@,
                    ) {
                        o.buy_venue@ == exchange_a_name@ && o.sell_venue@ == exchange_b_name@
                    } else {
                        o.buy_venue@ == exchange_b_name@ && o.sell_venue@ == exchange_a_name@
                    })
                }
            },
    {
        if exchange_a_price.is_zero() || exchange_b_price.is_zero() {
            return None;
        }
        let two = Dec::from_u64(2);
        let mid_price = exchange_a_price.add(exchange_b_price).div(two);
        let spread_bps = exchange_a_price.sub(exchange_b_price).abs().div(mid_price).mul(
            Dec::from_u64(10000),
        );
        let total_cost_bps = self.tx_cost_bps.mul(two).add(self.slippage_bps.mul(two));
        let net_spread_bps = spread_bps.sub(total_cost_bps);
        if net_spread_bps.lt(&self.min_spread_bps) {
            return None;
        }
        let net_profit = capital.mul(net_spread_bps).div(Dec::from_u64(10000));
        let (buy_venue, sell_venue) = if exchange_a_price.lt(&exchange_b_price) {
            (exchange_a_name.to_owned(), exchange_b_name.to_owned())
        } else {
            (exchange_b_name.to_owned(), exchange_a_name.to_owned())
        };
        Some(
            ArbOpportunity {
                arb_type: "cross_exchange".to_owned(),
                spread_bps,
                net_profit_usd: net_profit,
                buy_venue,
                sell_venue,
            },
        )
    }

    /// `check_cross_exchange_arb` for any prices: `None` also where the
    /// midpoint of the two prices is zero, where the spread cannot be taken.
    pub fn try_check_cross_exchange_arb(
        &self,
        symbol: &str,
        exchange_a_price: Dec,
        exchange_a_name: &str,
        exchange_b_price: Dec,
        exchange_b_name: &str,
        capital: Dec,
    ) -> (r: Option<ArbOpportunity>)
        ensures
            units(mid_of(exchange_a_price@, exchange_b_price@)) == 0 ==> r is None,
            units(exchange_a_price@) == 0 || units(exchange_b_price@) == 0 ==> r is None,
            units(exchange_a_price@) != 0 && units(exchange_b_price@) != 0 && units(
                mid_of(exchange_a_price@, exchange_b_price@),
            ) != 0 ==> {
                let net = cross_net(*self, exchange_a_price@, exchange_b_price@);
                if dlt(net, self.min_spread_bps@) {
                    r is None
                } else {
                    r matches Some(o) && o.arb_type@ == "cross_exchange"@ && o.spread_bps@
                        == cross_spread(exchange_a_price@, exchange_b_price@) && o.net_profit_usd@
                        == ddiv(dmul(capital@, net), dint(10000)) && (if dlt(
                        exchange_a_price@,
                        exchange_b_price@,
                    ) {
                        o.buy_venue@ == exchange_a_name@ && o.sell_venue@ == exchange_b_name@
                    } else {
                        o.buy_venue@ == exchange_b_name@ && o.sell_venue@ == exchange_a_name@
                    })
                }
            },
    {
        let mid = exchange_a_price.add(exchange_b_price).div(Dec::from_u64(2));
        if mid.is_zero() {
            return None;
        }
        self.check_cross_exchange_arb(
            symbol,
            exchange_a_price,
            exchange_a_name,
            exchange_b_price,
            exchange_b_name,
            capital,
        )
    }

    /// Triangular arbitrage along `base -> intermediate -> quote` against the
    /// direct `base -> quote` rate; reported when the discrepancy beats the
    /// three-leg costs by 0.1 percent.
    pub fn check_triangular_arb(
        &self,
        base: &str,
        quote: &str,
        intermediate: &str,
        rate_base_quote: Dec,
        rate_base_intermediate: Dec,
        rate_intermediate_quote: Dec,
        capital: Dec,
    ) -> (r: Option<ArbOpportunity>)
        requires
            units(rate_base_quote@) != 0,
        ensures
            ({
                let pct = triangular_pct(
                    rate_base_quote@,
                    rate_base_intermediate@,
                    rate_intermediate_quote@,
                );
                let cost = triangular_cost(*self);
                if dlt(pct, dadd(cost, dlit(1, 1))) {
                    r is None
                } else {
                    r matches Some(o) && o.arb_type@ == "triangular"@ && o.spread_bps@ == dmul(
                        pct,
                        dint(100),
                    ) && o.net_profit_usd@ == ddiv(dmul(capital@, dsub(pct, cost)), dint(100))
                        && o.buy_venue@ == base@ + "->"@ + intermediate@ + "->"@ + quote@
                        && o.sell_venue@ == base@ + "->"@ + quote@
                }
            }),
    {
        let hundred = Dec::from_u64(100);
        let implied_rate = rate_base_intermediate.mul(rate_intermediate_quote);
        let arb_pct = implied_rate.sub(rate_base_quote).abs().div(rate_base_quote).mul(hundred);
        let total_cost_pct = self.tx_cost_bps.add(self.slippage_bps).mul(Dec::from_u64(3)).div(
            hundred,
        );
        if arb_pct.lt(&total_cost_pct.add(Dec::new(1, 1))) {
            return None;
        }
        let net_profit = capital.mul(arb_pct.sub(total_cost_pct)).div(hundred);
        let spread_bps = arb_pct.mul(hundred);
        let mut buy_venue = base.to_owned();
        buy_venue.append("->");
        buy_venue.append(intermediate);
        buy_venue.append("->");
        buy_venue.append(quote);
        let mut sell_venue = base.to_owned();
        sell_venue.append("->");
        sell_venue.append(quote);
        Some(
            ArbOpportunity {
                arb_type: "triangular".to_owned(),
                spread_bps,
                net_profit_usd: net_profit,
                buy_venue,
                sell_venue,
            },
        )
    }

    /// Expected profit of executing with a linear slippage model (slippage
    /// grows with the order's share of the liquidity).
    pub fn estimate_execution_profit(&self, spread_bps: Dec, order_size: Dec, liquidity: Dec) -> (r:
        Dec)
        ensures
            r@ == execution_profit(*self, spread_bps@, order_size@, liquidity@),
    {
        let size_impact = if liquidity.is_zero() {
            Dec::from_u64(50)
        } else {
            order_size.div(liquidity).mul(Dec::from_u64(100))
        };
        let total_slippage = self.slippage_bps.add(size_impact);
        let net_spread = spread_bps.sub(self.tx_cost_bps).sub(total_slippage);
        if net_spread.is_sign_positive() {
            order_size.mul(net_spread).div(Dec::from_u64(10000))
        } else {
            Dec::zero()
        }
    }
}

} // verus!
