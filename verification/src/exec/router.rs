//! Smart order routing: an order goes to the venue with the best effective
//! price (fees and slippage included), or is split over the best venues by
//! their liquidity when its value is above a threshold.  The earlier router,
//! which splits by size alone, is kept beside it.
use crate::brain::reflect::strs;
use vstd::pervasive::unreached;
use crate::decimal::{
    dadd, ddiv, decimal_ceil, decimal_text, dint, dle, dlit, dlt, dmin, dmul, dsub, opt_view, units, lemma_units_sign,
    lemma_add_exact_small, add_exact, div_exact, in_range, mul_exact, pow10, Dec, MAX_MANTISSA,
};
use crate::exec::gas::max_of;
use crate::exec::mev::{order_copy, order_view, value_or};
use crate::market::{book_mid, slippage_of, Order, OrderBook, Side};
use crate::ranking::{keyed, lemma_ordered_len, lemma_ordered_map, map_items, order_by_key, ordered};
use crate::series::sum_of;
use crate::text::{parse_u64, str_eq, u64_parsed};
use vstd::prelude::*;

verus! {

/// Execution venue.
#[derive(Debug, Clone, Copy, PartialEq, Eq, Hash, Structural)]
pub enum Venue {
    Okx,
    XLayerDex,
    Cod3x,
    Primary,
}

/// Display name of a venue.
pub open spec fn venue_name(v: Venue) -> Seq<char> {
    match v {
        Venue::Okx => "OKX CEX"@,
        Venue::XLayerDex => "X Layer DEX"@,
        Venue::Cod3x => "Cod3x"@,
        Venue::Primary => "Primary"@,
    }
}

impl Venue {
    pub fn name(&self) -> (r: &'static str)
        ensures
            r@ == venue_name(*self),
    {
        match self {
            Venue::Okx => "OKX CEX",
            Venue::XLayerDex => "X Layer DEX",
            Venue::Cod3x => "Cod3x",
            Venue::Primary => "Primary",
        }
    }
}

/// A venue's quote.
#[derive(Debug, Clone, Copy)]
pub struct VenueQuote {
    pub venue: Venue,
    pub price: Dec,
    pub available_liquidity: Dec,
    pub fee_bps: Dec,
    pub estimated_slippage_bps: Dec,
    pub latency_ms: u64,
    pub timestamp: i64,
}

/// Cost of a quote in basis points: fees plus slippage.
pub open spec fn cost_bps_of(q: VenueQuote) -> (int, int) {
    dadd(q.fee_bps@, q.estimated_slippage_bps@)
}

/// Price after costs: raised for a buy, lowered for a sell.
pub open spec fn effective_of(q: VenueQuote, is_buy: bool) -> (int, int) {
    let m = ddiv(cost_bps_of(q), dint(10000));
    if is_buy {
        dmul(q.price@, dadd(dint(1), m))
    } else {
        dmul(q.price@, dsub(dint(1), m))
    }
}

impl VenueQuote {
    /// Fees plus slippage, in basis points.
    pub fn total_cost_bps(&self) -> (r: Dec)
        ensures
            r@ == cost_bps_of(*self),
    {
        self.fee_bps.add(self.estimated_slippage_bps)
    }

    /// Price after costs: the price raised (buy) or lowered (sell) by the
    /// fees plus slippage, in basis points.  For costs between 0 and 10000
    /// basis points, on a price and costs with few enough decimal places to
    /// be multiplied exactly, it is exactly `price * (1 + cost / 10000)` for a
    /// buy and `price * (1 - cost / 10000)` for a sell (whenever the quotient
    /// `cost / 10000` comes back with at most four more places than the
    /// costs have).
    pub fn effective_price(&self, is_buy: bool) -> (r: Dec)
        ensures
            r@ == effective_of(*self, is_buy),
            plain_costs(*self) && tight_quotient(*self) ==> priced_after_costs(*self, is_buy, r@),
    {
        let cost = self.fee_bps.add(self.estimated_slippage_bps);
        let ten_k = Dec::from_u64(10000);
        proof {
            crate::decimal::lemma_pow10_pos(28);
        }
        let cost_multiplier = cost.div(ten_k);
        let one = Dec::one();
        let t = if is_buy {
            one.add(cost_multiplier)
        } else {
            one.sub(cost_multiplier)
        };
        let r = self.price.mul(t);
        proof {
            use_type_invariant(&self.price);
            use_type_invariant(&self.fee_bps);
            use_type_invariant(&self.estimated_slippage_bps);
            use_type_invariant(&cost);
            use_type_invariant(&cost_multiplier);
            use_type_invariant(&t);
            self.price.lemma_wf_in_range();
            self.fee_bps.lemma_wf_in_range();
            self.estimated_slippage_bps.lemma_wf_in_range();
            cost.lemma_wf_in_range();
            cost_multiplier.lemma_wf_in_range();
            t.lemma_wf_in_range();
            if plain_costs(*self) && tight_quotient(*self) {
                lemma_effective_exact(
                    self.price@,
                    self.fee_bps@,
                    self.estimated_slippage_bps@,
                    cost@,
                    cost_multiplier@,
                    t@,
                    r@,
                    is_buy,
                );
            }
        }
        r
    }
}

/// `e` is the quote's price raised (buy) or lowered (sell) by its fees plus
/// slippage, in basis points: `e = price * (1 +/- cost / 10000)` exactly.
pub open spec fn priced_after_costs(q: VenueQuote, is_buy: bool, e: (int, int)) -> bool {
    let c = units(q.fee_bps@) + units(q.estimated_slippage_bps@);
    units(e) * pow10(32) == units(q.price@) * (if is_buy {
        pow10(32) + c
    } else {
        pow10(32) - c
    })
}

/// What the best quote of a list is: one of the quotes, with the best
/// effective price (the lowest for a buy, the highest for a sell); and when
/// every quote has plain costs (see `plain_costs` and `tight_quotient`), of
/// the quotes at its own positive raw price it has the lowest fees plus
/// slippage.
pub open spec fn best_venue_law(qs: Seq<VenueQuote>, is_buy: bool, b: VenueQuote) -> bool {
    &&& qs.contains(b)
    &&& forall|j: int|
        0 <= j < qs.len() ==> if is_buy {
            units(effective_of(b, true)) <= units(effective_of(#[trigger] qs[j], true))
        } else {
            units(effective_of(qs[j], false)) <= units(effective_of(b, false))
        }
    &&& (forall|j: int| 0 <= j < qs.len() ==> plain_costs(#[trigger] qs[j]) && tight_quotient(qs[j]))
        ==> forall|j: int|
        0 <= j < qs.len() && units(#[trigger] qs[j].price@) == units(b.price@) && units(b.price@) > 0
            ==> units(b.fee_bps@) + units(b.estimated_slippage_bps@) <= units(qs[j].fee_bps@) + units(
            qs[j].estimated_slippage_bps@,
        )
}

/// The first of the sorted quotes meets the best venue law.
proof fn lemma_best_venue(qs: Seq<VenueQuote>, is_buy: bool)
    requires
        qs.len() > 0,
        forall|j: int|
            0 <= j < qs.len() ==> (plain_costs(#[trigger] qs[j]) && tight_quotient(qs[j]) ==> priced_after_costs(
                qs[j],
                is_buy,
                effective_of(qs[j], is_buy),
            )),
    ensures
        best_venue_law(qs, is_buy, sorted_quotes(qs, is_buy)[0]),
{
    let s = by_effective(qs, is_buy);
    crate::ranking::lemma_ordered_first(s, !is_buy);
    crate::ranking::lemma_ordered_items(s, !is_buy, 0);
    let first = ordered(s, !is_buy)[0];
    let w = choose|w: int| 0 <= w < s.len() && s[w] == first;
    assert(s[w] == (effective_of(qs[w], is_buy), qs[w]));
    let b = sorted_quotes(qs, is_buy)[0];
    assert(b == first.1);
    assert(b == qs[w]);
    assert(qs.contains(b));
    assert forall|j: int| 0 <= j < qs.len() implies if is_buy {
        units(effective_of(b, true)) <= units(effective_of(#[trigger] qs[j], true))
    } else {
        units(effective_of(qs[j], false)) <= units(effective_of(b, false))
    } by {
        assert(s[j] == (effective_of(qs[j], is_buy), qs[j]));
        assert(!crate::ranking::goes_before(s[j].0, first.0, !is_buy));
    }
    if forall|j: int| 0 <= j < qs.len() ==> plain_costs(#[trigger] qs[j]) && tight_quotient(qs[j]) {
        assert forall|j: int|
            0 <= j < qs.len() && units(#[trigger] qs[j].price@) == units(b.price@) && units(b.price@) > 0
            implies units(b.fee_bps@) + units(b.estimated_slippage_bps@) <= units(qs[j].fee_bps@) + units(
            qs[j].estimated_slippage_bps@,
        ) by {
            assert(priced_after_costs(qs[j], is_buy, effective_of(qs[j], is_buy)));
            assert(priced_after_costs(qs[w], is_buy, effective_of(qs[w], is_buy)));
            assert(s[j] == (effective_of(qs[j], is_buy), qs[j]));
            assert(!crate::ranking::goes_before(s[j].0, first.0, !is_buy));
            let p = units(b.price@);
            let cb = units(b.fee_bps@) + units(b.estimated_slippage_bps@);
            let cj = units(qs[j].fee_bps@) + units(qs[j].estimated_slippage_bps@);
            let eb = units(effective_of(b, is_buy));
            let ej = units(effective_of(qs[j], is_buy));
            crate::decimal::lemma_pow10_pos(32);
            if is_buy {
                assert(cb <= cj) by (nonlinear_arith)
                    requires
                        eb * pow10(32) == p * (pow10(32) + cb),
                        ej * pow10(32) == p * (pow10(32) + cj),
                        eb <= ej,
                        p > 0,
                        pow10(32) > 0,
                ;
            } else {
                assert(cb <= cj) by (nonlinear_arith)
                    requires
                        eb * pow10(32) == p * (pow10(32) - cb),
                        ej * pow10(32) == p * (pow10(32) - cj),
                        ej <= eb,
                        p > 0,
                        pow10(32) > 0,
                ;
            }
        }
    }
}

/// The larger scale of a quote's fee and slippage.
pub open spec fn cost_scale(q: VenueQuote) -> int {
    if q.fee_bps@.1 >= q.estimated_slippage_bps@.1 {
        q.fee_bps@.1
    } else {
        q.estimated_slippage_bps@.1
    }
}

/// A quote whose costs lie between 0 and 10000 basis points and whose
/// price, not negative, has few enough digits for the effective price to be
/// computed without rounding.
pub open spec fn plain_costs(q: VenueQuote) -> bool {
    let s = cost_scale(q);
    &&& units(q.fee_bps@) >= 0
    &&& units(q.estimated_slippage_bps@) >= 0
    &&& units(q.fee_bps@) + units(q.estimated_slippage_bps@) <= 10000 * pow10(28)
    &&& q.price@.0 >= 0
    &&& q.price@.1 + s + 4 <= 28
    &&& 2 * q.price@.0 * pow10((s + 4) as nat) <= MAX_MANTISSA
}

/// The quotient of a quote's cost by 10000 has at most four more decimal
/// places than the costs.
pub open spec fn tight_quotient(q: VenueQuote) -> bool {
    ddiv(cost_bps_of(q), dint(10000)).1 <= cost_scale(q) + 4
}

/// The effective price is computed exactly from the facts of its steps.
proof fn lemma_effective_exact(
    p: (int, int),
    fee: (int, int),
    slip: (int, int),
    cost: (int, int),
    m: (int, int),
    t: (int, int),
    r: (int, int),
    is_buy: bool,
)
    requires
        in_range(p),
        in_range(fee),
        in_range(slip),
        in_range(cost),
        in_range(m),
        in_range(t),
        add_exact(fee, slip, true) ==> units(cost) == units(fee) + units(slip),
        cost.1 <= (if fee.1 >= slip.1 {
            fee.1
        } else {
            slip.1
        }),
        forall|q: int, k: int|
            #[trigger] div_exact(cost, dint(10000), q, k) ==> units(m) == q * pow10((28 - k) as nat),
        add_exact(dint(1), m, is_buy) ==> units(t) == pow10(28) + (if is_buy {
            units(m)
        } else {
            -units(m)
        }),
        t.1 <= (if 0 >= m.1 {
            0
        } else {
            m.1
        }),
        mul_exact(p, t) ==> units(r) == p.0 * t.0 * pow10((28 - p.1 - t.1) as nat),
        units(fee) >= 0,
        units(slip) >= 0,
        units(fee) + units(slip) <= 10000 * pow10(28),
        p.0 >= 0,
        p.1 + (if fee.1 >= slip.1 {
            fee.1
        } else {
            slip.1
        }) + 4 <= 28,
        2 * p.0 * pow10(((if fee.1 >= slip.1 {
            fee.1
        } else {
            slip.1
        }) + 4) as nat) <= MAX_MANTISSA,
        m.1 <= (if fee.1 >= slip.1 {
            fee.1
        } else {
            slip.1
        }) + 4,
    ensures
        units(r) * pow10(32) == units(p) * (if is_buy {
            pow10(32) + units(fee) + units(slip)
        } else {
            pow10(32) - (units(fee) + units(slip))
        }),
{
    let s: int = if fee.1 >= slip.1 {
        fee.1
    } else {
        slip.1
    };
    let ss: int = s + 4;
    let c = units(fee) + units(slip);
    crate::decimal::lemma_pow10_table();
    let q4 = pow10((28 - s) as nat);
    let pss = pow10(ss as nat);
    let r28 = pow10((28 - ss) as nat);
    crate::decimal::lemma_pow10_add(ss as nat, (28 - s) as nat);
    crate::decimal::lemma_pow10_add(4, (28 - ss) as nat);
    crate::decimal::lemma_pow10_add(ss as nat, (28 - ss) as nat);
    crate::decimal::lemma_pow10_add(28, 4);
    crate::decimal::lemma_pow10_pos((28 - s) as nat);
    crate::decimal::lemma_pow10_pos(ss as nat);
    crate::decimal::lemma_pow10_pos((28 - ss) as nat);
    assert(q4 == 10000 * r28);
    // The fee and slippage at their common scale, and their sum.
    crate::decimal::lemma_at_scale_bound(fee, s);
    crate::decimal::lemma_at_scale_bound(slip, s);
    let x = crate::decimal::at_scale(fee, s);
    let y = crate::decimal::at_scale(slip, s);
    let xs = x + y;
    assert(xs * q4 == c) by (nonlinear_arith)
        requires
            x * q4 == units(fee),
            y * q4 == units(slip),
            xs == x + y,
            c == units(fee) + units(slip),
    ;
    assert(0 <= x && 0 <= y && xs <= pss) by (nonlinear_arith)
        requires
            x * q4 == units(fee),
            y * q4 == units(slip),
            units(fee) >= 0,
            units(slip) >= 0,
            xs == x + y,
            xs * q4 <= 10000 * pow10(28),
            pss * q4 == 10000 * pow10(28),
            q4 > 0,
    ;
    assert(pss <= pow10(28)) by {
        crate::decimal::lemma_pow10_add(ss as nat, (28 - ss) as nat);
        assert(pss * r28 == pow10(28));
        assert(pss <= pow10(28)) by (nonlinear_arith)
            requires
                pss * r28 == pow10(28),
                r28 >= 1,
                pss > 0,
        ;
    }
    assert(crate::decimal::add_exact(fee, slip, true));
    assert(units(cost) == c);
    // The quotient by 10000.
    assert(units(cost) * pss == xs * (10000 * pow10(28))) by (nonlinear_arith)
        requires
            units(cost) == c,
            xs * q4 == c,
            pss * q4 == 10000 * pow10(28),
    ;
    assert(units(dint(10000)) == 10000 * pow10(28));
    assert(div_exact(cost, dint(10000), xs, ss));
    assert(units(m) == xs * r28);
    crate::decimal::lemma_mantissa_bound(m, ss, xs);
    assert(-xs <= m.0 <= xs);
    // One plus or minus the quotient.
    let sm: int = if 0 >= m.1 {
        0
    } else {
        m.1
    };
    assert(sm == m.1);
    crate::decimal::lemma_pow10_pos(m.1 as nat);
    crate::decimal::lemma_pow10_add(m.1 as nat, (28 - m.1) as nat);
    assert(pow10(m.1 as nat) <= pow10(28)) by (nonlinear_arith)
        requires
            pow10(m.1 as nat) * pow10((28 - m.1) as nat) == pow10(28),
            pow10((28 - m.1) as nat) >= 1,
            pow10(m.1 as nat) > 0,
    ;
    assert(crate::decimal::at_scale(dint(1), sm) == pow10(m.1 as nat));
    assert(crate::decimal::at_scale(m, sm) == m.0);
    assert(crate::decimal::add_exact(dint(1), m, is_buy));
    let z = if is_buy {
        pss + xs
    } else {
        pss - xs
    };
    assert(units(t) == z * r28) by (nonlinear_arith)
        requires
            units(t) == pow10(28) + (if is_buy {
                units(m)
            } else {
                -units(m)
            }),
            units(m) == xs * r28,
            pss * r28 == pow10(28),
            z == (if is_buy {
                pss + xs
            } else {
                pss - xs
            }),
    ;
    crate::decimal::lemma_mantissa_bound(t, ss, z);
    assert(0 <= z <= 2 * pss);
    // The product with the price.
    assert(-MAX_MANTISSA <= p.0 * t.0 <= MAX_MANTISSA) by (nonlinear_arith)
        requires
            -z <= t.0 <= z || z <= t.0 <= -z,
            0 <= z <= 2 * pss,
            p.0 >= 0,
            2 * p.0 * pss <= MAX_MANTISSA,
    ;
    assert(mul_exact(p, t));
    crate::decimal::lemma_mul_units(p, t);
    assert(units(r) * pow10(28) == units(p) * units(t));
    assert(units(r) * pow10(32) == units(p) * (z * r28 * 10000)) by (nonlinear_arith)
        requires
            units(r) * pow10(28) == units(p) * units(t),
            units(t) == z * r28,
            pow10(32) == pow10(28) * 10000,
    ;
    assert(z * r28 * 10000 == (if is_buy {
        pow10(32) + c
    } else {
        pow10(32) - c
    })) by (nonlinear_arith)
        requires
            z == (if is_buy {
                pss + xs
            } else {
                pss - xs
            }),
            xs * q4 == c,
            q4 == 10000 * r28,
            pss * q4 == 10000 * pow10(28),
            pow10(32) == pow10(28) * 10000,
    ;
}

/// Router configuration.
#[derive(Debug, Clone)]
pub struct RouterConfig {
    /// Order value above which orders are split (USD).
    pub split_threshold_usd: Dec,
    /// Largest slippage allowed (bps).
    pub max_slippage_bps: Dec,
    /// Order value above which a CEX is preferred (USD).
    pub cex_preference_threshold_usd: Dec,
    /// Most venues an order is split over.
    pub max_split_venues: usize,
    /// Fee rate of each venue (bps).
    pub venue_fees: Vec<(Venue, Dec)>,
    /// Latency of each venue (ms).
    pub venue_latencies: Vec<(Venue, u64)>,
}

/// The default router configuration: split above $10k, at most 50 bps
/// slippage, prefer a CEX above $50k, split over at most three venues; fees
/// OKX 10, X Layer DEX 30, Cod3x 5 bps; latencies 50, 2000, 2000 ms.
pub open spec fn is_default_router_config(c: RouterConfig) -> bool {
    &&& c.split_threshold_usd@ == dint(10000)
    &&& c.max_slippage_bps@ == dint(50)
    &&& c.cex_preference_threshold_usd@ == dint(50000)
    &&& c.max_split_venues == 3
    &&& c.venue_fees@.len() == 3
    &&& c.venue_fees@[0].0 == Venue::Okx && c.venue_fees@[0].1@ == dint(10)
    &&& c.venue_fees@[1].0 == Venue::XLayerDex && c.venue_fees@[1].1@ == dint(30)
    &&& c.venue_fees@[2].0 == Venue::Cod3x && c.venue_fees@[2].1@ == dint(5)
    &&& c.venue_latencies@ == seq![(Venue::Okx, 50u64), (Venue::XLayerDex, 2000u64), (Venue::Cod3x, 2000u64)]
}

impl Default for RouterConfig {
    fn default() -> (r: RouterConfig)
        ensures
            is_default_router_config(r),
    {
        let mut fees: Vec<(Venue, Dec)> = Vec::new();
        fees.push((Venue::Okx, Dec::from_u64(10)));
        fees.push((Venue::XLayerDex, Dec::from_u64(30)));
        fees.push((Venue::Cod3x, Dec::from_u64(5)));
        let mut latencies: Vec<(Venue, u64)> = Vec::new();
        latencies.push((Venue::Okx, 50));
        latencies.push((Venue::XLayerDex, 2000));
        latencies.push((Venue::Cod3x, 2000));
        proof {
            assert(latencies@ =~= seq![(Venue::Okx, 50u64), (Venue::XLayerDex, 2000u64), (Venue::Cod3x, 2000u64)]);
        }
        RouterConfig {
            split_threshold_usd: Dec::from_u64(10000),
            max_slippage_bps: Dec::from_u64(50),
            cex_preference_threshold_usd: Dec::from_u64(50000),
            max_split_venues: 3,
            venue_fees: fees,
            venue_latencies: latencies,
        }
    }
}

/// The quotes of a symbol, in the order they were first recorded.
pub open spec fn quotes_for(q: Seq<(Seq<char>, VenueQuote)>, sym: Seq<char>) -> Seq<VenueQuote>
    decreases q.len(),
{
    if q.len() == 0 {
        Seq::empty()
    } else if q.last().0 == sym {
        quotes_for(q.drop_last(), sym).push(q.last().1)
    } else {
        quotes_for(q.drop_last(), sym)
    }
}

/// Where the quote of a symbol at a venue is held.
pub open spec fn quote_index(q: Seq<(Seq<char>, VenueQuote)>, sym: Seq<char>, venue: Venue) -> Option<int>
    decreases q.len(),
{
    if q.len() == 0 {
        None
    } else if q[0].0 == sym && q[0].1.venue == venue {
        Some(0)
    } else {
        match quote_index(q.drop_first(), sym, venue) {
            Some(i) => Some(i + 1),
            None => None,
        }
    }
}

/// The quotes after recording one: it replaces the quote of its symbol and
/// venue, or is added last.
pub open spec fn quotes_put(q: Seq<(Seq<char>, VenueQuote)>, sym: Seq<char>, quote: VenueQuote) -> Seq<(Seq<char>, VenueQuote)> {
    match quote_index(q, sym, quote.venue) {
        Some(i) => q.update(i, (sym, quote)),
        None => q.push((sym, quote)),
    }
}

/// Quotes keyed by their effective price.
pub open spec fn by_effective(qs: Seq<VenueQuote>, is_buy: bool) -> Seq<((int, int), VenueQuote)> {
    qs.map_values(|q: VenueQuote| (effective_of(q, is_buy), q))
}

/// Quotes from best to worst effective price (lowest first for a buy,
/// highest first for a sell), equal prices in their order.
pub open spec fn sorted_quotes(qs: Seq<VenueQuote>, is_buy: bool) -> Seq<VenueQuote> {
    ordered(by_effective(qs, is_buy), !is_buy).map_values(|p: ((int, int), VenueQuote)| p.1)
}

/// One route of an order.
#[derive(Debug, Clone, Copy)]
pub struct OrderRoute {
    pub venue: Venue,
    pub size: Dec,
    pub expected_price: Dec,
    pub fee_bps: Dec,
    pub estimated_slippage_bps: Dec,
    pub priority: u8,
}

/// A route as plain values.
pub open spec fn route_view(r: OrderRoute) -> (Venue, (int, int), (int, int), (int, int), (int, int), u8) {
    (r.venue, r.size@, r.expected_price@, r.fee_bps@, r.estimated_slippage_bps@, r.priority)
}

/// State of a split after the first `n` venues: size still to fill,
/// routes, weighted cost, largest latency, and whether it is filled.
pub open spec fn split_walk(s: Seq<VenueQuote>, size: (int, int), n: nat) -> Option<
    ((int, int), Seq<(Venue, (int, int), (int, int), (int, int), (int, int), u8)>, (int, int), u64, bool),
>
    decreases n,
{
    if n == 0 {
        Some((size, Seq::empty(), dint(0), 0u64, false))
    } else {
        match split_walk(s, size, (n - 1) as nat) {
            None => None,
            Some(st) => if st.4 {
                Some(st)
            } else {
                let q = s[n - 1];
                if units(q.price@) == 0 {
                    None
                } else {
                    let fill = dmin(st.0, ddiv(q.available_liquidity@, q.price@));
                    if units(fill) > 0 {
                        let rem = dsub(st.0, fill);
                        Some(
                            (
                                rem,
                                st.1.push(
                                    (
                                        q.venue,
                                        fill,
                                        q.price@,
                                        q.fee_bps@,
                                        q.estimated_slippage_bps@,
                                        (n as int) as u8,
                                    ),
                                ),
                                dadd(st.2, dmul(cost_bps_of(q), ddiv(fill, size))),
                                if q.latency_ms > st.3 {
                                    q.latency_ms
                                } else {
                                    st.3
                                },
                                units(rem) <= 0,
                            ),
                        )
                    } else {
                        Some(st)
                    }
                }
            },
        }
    }
}

/// The routes of a split with what is left unfilled added to the first.
pub open spec fn with_remainder(
    routes: Seq<(Venue, (int, int), (int, int), (int, int), (int, int), u8)>,
    rem: (int, int),
) -> Seq<(Venue, (int, int), (int, int), (int, int), (int, int), u8)> {
    if units(rem) > 0 && routes.len() > 0 {
        let r0 = routes[0];
        routes.update(0, (r0.0, dadd(r0.1, rem), r0.2, r0.3, r0.4, r0.5))
    } else {
        routes
    }
}

/// Value of an order: size times limit price (zero without one).
pub open spec fn order_value_of(o: Order) -> (int, int) {
    dmul(o.size@, value_or(o.limit_price, dint(0)))
}

/// The routing of an order over the recorded quotes: routes, cost (bps),
/// fill time (ms), whether split; `None` where a split would divide by a
/// zero price.
pub open spec fn route_of(q: Seq<(Seq<char>, VenueQuote)>, config: RouterConfig, o: Order) -> Option<
    (Seq<(Venue, (int, int), (int, int), (int, int), (int, int), u8)>, (int, int), u64, bool),
> {
    let qs = quotes_for(q, o.symbol@);
    let is_buy = o.side == Side::Long;
    if qs.len() == 0 {
        Some((seq![(Venue::Primary, o.size@, value_or(o.limit_price, dint(0)), dint(15), dint(10), 1u8)], dint(25), 100u64, false))
    } else {
        let sorted = sorted_quotes(qs, is_buy);
        if !dlt(config.split_threshold_usd@, order_value_of(o)) {
            let b = sorted[0];
            Some((seq![(b.venue, o.size@, b.price@, b.fee_bps@, b.estimated_slippage_bps@, 1u8)], cost_bps_of(b), b.latency_ms, false))
        } else {
            let k = if sorted.len() < config.max_split_venues {
                sorted.len() as int
            } else {
                config.max_split_venues as int
            };
            let s = sorted.take(k);
            match split_walk(s, o.size@, s.len()) {
                None => None,
                Some(st) => {
                    let routes = with_remainder(st.1, st.0);
                    Some((routes, st.2, st.3, routes.len() > 1))
                },
            }
        }
    }
}

/// The total size of a list of routes, in units of 10^-28.
pub open spec fn route_sizes(s: Seq<OrderRoute>) -> int
    decreases s.len(),
{
    if s.len() == 0 {
        0
    } else {
        route_sizes(s.drop_last()) + units(s.last().size@)
    }
}

/// Every route of a list has a positive size.
pub open spec fn sizes_positive(s: Seq<OrderRoute>) -> bool {
    forall|i: int| 0 <= i < s.len() ==> units((#[trigger] s[i]).size@) > 0
}

/// Adding a route adds its size.
proof fn lemma_route_sizes_push(s: Seq<OrderRoute>, x: OrderRoute)
    ensures
        route_sizes(s.push(x)) == route_sizes(s) + units(x.size@),
{
    assert(s.push(x).drop_last() =~= s);
}

/// With positive sizes, the total is at least the first route's size, and
/// replacing the first route changes the total by the change of its size.
proof fn lemma_route_sizes_first(s: Seq<OrderRoute>, x: OrderRoute)
    requires
        s.len() > 0,
        sizes_positive(s),
    ensures
        route_sizes(s) >= units(s[0].size@),
        route_sizes(s.update(0, x)) == route_sizes(s) - units(s[0].size@) + units(x.size@),
    decreases s.len(),
{
    if s.len() == 1 {
        assert(s.drop_last() =~= Seq::<OrderRoute>::empty());
        assert(s.update(0, x).drop_last() =~= Seq::<OrderRoute>::empty());
        assert(route_sizes(Seq::<OrderRoute>::empty()) == 0);
        assert(route_sizes(s) == units(s[0].size@));
        assert(route_sizes(s.update(0, x)) == units(x.size@));
    } else {
        let t = s.drop_last();
        assert(sizes_positive(t)) by {
            assert forall|i: int| 0 <= i < t.len() implies units((#[trigger] t[i]).size@) > 0 by {
                assert(t[i] == s[i]);
            }
        }
        lemma_route_sizes_first(t, x);
        assert(s.update(0, x).drop_last() =~= t.update(0, x));
        assert(units(s[s.len() - 1].size@) > 0);
        assert(t[0] == s[0]);
        assert(s.update(0, x).last() == s.last());
    }
}

/// Routed order with venue allocations.
#[derive(Debug, Clone)]
pub struct RoutedOrder {
    pub original_order: Order,
    pub routes: Vec<OrderRoute>,
    pub total_cost_bps: Dec,
    pub estimated_fill_time_ms: u64,
    pub split: bool,
}

/// A routed order's routes, cost, fill time and split flag.
pub open spec fn routed_view(r: RoutedOrder) -> (Seq<(Venue, (int, int), (int, int), (int, int), (int, int), u8)>, (int, int), u64, bool) {
    (r.routes@.map_values(|x: OrderRoute| route_view(x)), r.total_cost_bps@, r.estimated_fill_time_ms, r.split)
}

/// Execution cost estimate.
#[derive(Debug, Clone, Copy)]
pub struct ExecutionCostEstimate {
    pub order_value: Dec,
    pub total_cost_bps: Dec,
    pub total_cost_usd: Dec,
    pub venues_used: usize,
    pub estimated_fill_time_ms: u64,
    pub split_order: bool,
}

/// Feasibility check result.
#[derive(Debug, Clone)]
pub struct FeasibilityCheck {
    pub feasible: bool,
    pub reason: Option<String>,
    pub max_slippage_bps: Dec,
    pub available_liquidity: Dec,
}

/// Venue comparison.
#[derive(Debug, Clone, Copy)]
pub struct VenueComparison {
    pub venue: Venue,
    pub raw_price: Dec,
    pub effective_price: Dec,
    pub fee_bps: Dec,
    pub slippage_bps: Dec,
    pub total_cost_bps: Dec,
    pub cost_usd: Dec,
    pub latency_ms: u64,
    pub liquidity: Dec,
}

/// A comparison as plain values.
pub open spec fn comparison_view(c: VenueComparison) -> (Venue, (int, int), (int, int), (int, int), (int, int), (int, int), (int, int), u64, (int, int)) {
    (c.venue, c.raw_price@, c.effective_price@, c.fee_bps@, c.slippage_bps@, c.total_cost_bps@, c.cost_usd@, c.latency_ms, c.liquidity@)
}

/// The comparison of a quote for an order.
pub open spec fn comparison_of(q: VenueQuote, o: Order) -> (Venue, (int, int), (int, int), (int, int), (int, int), (int, int), (int, int), u64, (int, int)) {
    let is_buy = o.side == Side::Long;
    (
        q.venue,
        q.price@,
        effective_of(q, is_buy),
        q.fee_bps@,
        q.estimated_slippage_bps@,
        cost_bps_of(q),
        ddiv(dmul(dmul(o.size@, q.price@), cost_bps_of(q)), dint(10000)),
        q.latency_ms,
        q.available_liquidity@,
    )
}

/// Smart order router: the latest quote of each symbol and venue.
pub struct SmartOrderRouter {
    config: RouterConfig,
    venue_quotes: Vec<(String, VenueQuote)>,
}

impl SmartOrderRouter {
    pub closed spec fn config_spec(&self) -> RouterConfig {
        self.config
    }

    /// The recorded quotes with their symbols, in the order first recorded.
    pub closed spec fn quotes(&self) -> Seq<(Seq<char>, VenueQuote)> {
        self.venue_quotes@.map_values(|e: (String, VenueQuote)| (e.0@, e.1))
    }

    pub fn new(config: RouterConfig) -> (r: SmartOrderRouter)
        ensures
            r.config_spec() == config,
            r.quotes().len() == 0,
    {
        SmartOrderRouter { config, venue_quotes: Vec::new() }
    }

    pub fn with_defaults() -> (r: SmartOrderRouter)
        ensures
            is_default_router_config(r.config_spec()),
            r.quotes().len() == 0,
    {
        SmartOrderRouter::new(RouterConfig::default())
    }

    /// The router of the earlier interface.
    pub fn legacy(split_threshold: Dec, max_slippage_bps: Dec) -> (r: LegacyRouter)
        ensures
            r.split_threshold == split_threshold,
            r.max_slippage_bps == max_slippage_bps,
    {
        LegacyRouter { split_threshold, max_slippage_bps }
    }

    /// Records a venue's quote for a symbol, replacing the earlier one.
    pub fn update_quote(&mut self, symbol: &str, quote: VenueQuote)
        ensures
            final(self).config_spec() == old(self).config_spec(),
            final(self).quotes() == quotes_put(old(self).quotes(), symbol@, quote),
    {
        let ghost q0 = self.quotes();
        let mut i: usize = 0;
        while i < self.venue_quotes.len()
            invariant
                i <= self.venue_quotes.len(),
                q0 == self.quotes(),
                self.config == old(self).config,
                q0 == old(self).quotes(),
                self.venue_quotes@.len() == q0.len(),
                forall|j: int| 0 <= j < i ==> !(#[trigger] q0[j].0 == symbol@ && q0[j].1.venue == quote.venue),
            decreases self.venue_quotes.len() - i,
        {
            if str_eq(self.venue_quotes[i].0.as_str(), symbol) && self.venue_quotes[i].1.venue == quote.venue {
                proof {
                    assert(q0[i as int].0 == symbol@);
                    lemma_quote_index(q0, symbol@, quote.venue, i as int);
                }
                self.venue_quotes.set(i, (symbol.to_owned(), quote));
                proof {
                    assert(self.quotes() =~= quotes_put(q0, symbol@, quote));
                }
                return;
            }
            i = i + 1;
        }
        proof {
            lemma_quote_index(q0, symbol@, quote.venue, i as int);
        }
        self.venue_quotes.push((symbol.to_owned(), quote));
        proof {
            assert(self.quotes() =~= quotes_put(q0, symbol@, quote));
        }
    }

    /// The recorded quotes of a symbol.
    fn symbol_quotes(&self, symbol: &str) -> (r: Vec<VenueQuote>)
        ensures
            r@ == quotes_for(self.quotes(), symbol@),
    {
        let ghost q0 = self.quotes();
        let mut r: Vec<VenueQuote> = Vec::new();
        let mut i: usize = 0;
        while i < self.venue_quotes.len()
            invariant
                i <= self.venue_quotes.len(),
                q0 == self.quotes(),
                self.venue_quotes@.len() == q0.len(),
                r@ == quotes_for(q0.take(i as int), symbol@),
            decreases self.venue_quotes.len() - i,
        {
            proof {
                assert(q0.take(i + 1).drop_last() =~= q0.take(i as int));
                assert(q0.take(i + 1).last() == q0[i as int]);
            }
            if str_eq(self.venue_quotes[i].0.as_str(), symbol) {
                r.push(self.venue_quotes[i].1);
            }
            i = i + 1;
        }
        proof {
            assert(q0.take(i as int) =~= q0);
        }
        r
    }
}

proof fn lemma_quote_index(q: Seq<(Seq<char>, VenueQuote)>, sym: Seq<char>, venue: Venue, i: int)
    requires
        0 <= i <= q.len(),
        forall|j: int| 0 <= j < i ==> !(#[trigger] q[j].0 == sym && q[j].1.venue == venue),
        i < q.len() ==> q[i].0 == sym && q[i].1.venue == venue,
    ensures
        quote_index(q, sym, venue) == if i == q.len() {
            None::<int>
        } else {
            Some(i)
        },
    decreases q.len(),
{
    if q.len() > 0 && i > 0 {
        assert forall|j: int| 0 <= j < i - 1 implies !(#[trigger] q.drop_first()[j].0 == sym
            && q.drop_first()[j].1.venue == venue) by {
            assert(q.drop_first()[j] == q[j + 1]);
        }
        lemma_quote_index(q.drop_first(), sym, venue, i - 1);
    }
}

/// Quotes ordered from best to worst effective price (see `sorted_quotes`).
fn sort_quotes(qs: &Vec<VenueQuote>, is_buy: bool) -> (r: Vec<VenueQuote>)
    ensures
        r@ == sorted_quotes(qs@, is_buy),
{
    let mut items: Vec<(Dec, VenueQuote)> = Vec::new();
    let mut i: usize = 0;
    while i < qs.len()
        invariant
            i <= qs.len(),
            items@.len() == i,
            keyed(items@) == by_effective(qs@.take(i as int), is_buy),
        decreases qs.len() - i,
    {
        let e = qs[i].effective_price(is_buy);
        let ghost before = items@;
        items.push((e, qs[i]));
        proof {
            assert forall|j: int| 0 <= j < i + 1 implies #[trigger] keyed(items@)[j] == by_effective(
                qs@.take(i + 1),
                is_buy,
            )[j] by {
                if j < i {
                    assert(items@[j] == before[j]);
                    assert(keyed(before)[j] == by_effective(qs@.take(i as int), is_buy)[j]);
                }
            }
            assert(keyed(items@) =~= by_effective(qs@.take(i + 1), is_buy));
        }
        i = i + 1;
    }
    proof {
        assert(qs@.take(i as int) =~= qs@);
    }
    let sorted = order_by_key(items, !is_buy);
    let mut r: Vec<VenueQuote> = Vec::new();
    let mut k: usize = 0;
    while k < sorted.len()
        invariant
            k <= sorted.len(),
            r@ == keyed(sorted@).take(k as int).map_values(|p: ((int, int), VenueQuote)| p.1),
        decreases sorted.len() - k,
    {
        r.push(sorted[k].1);
        proof {
            assert(r@ =~= keyed(sorted@).take(k + 1).map_values(|p: ((int, int), VenueQuote)| p.1));
        }
        k = k + 1;
    }
    proof {
        assert(keyed(sorted@).take(k as int) =~= keyed(sorted@));
    }
    r
}

/// Once a split walk fails or is filled, later venues change nothing.
proof fn lemma_walk_settled(s: Seq<VenueQuote>, size: (int, int), n: nat, m: nat)
    requires
        n <= m,
        split_walk(s, size, n) is None || split_walk(s, size, n).unwrap().4,
    ensures
        split_walk(s, size, m) == split_walk(s, size, n),
    decreases m - n,
{
    if n < m {
        lemma_walk_settled(s, size, n, (m - 1) as nat);
    }
}

/// Cost estimate as plain values: order value, cost (bps), cost (USD),
/// venues used, fill time, whether split.
pub open spec fn estimate_view(e: ExecutionCostEstimate) -> ((int, int), (int, int), (int, int), nat, u64, bool) {
    (e.order_value@, e.total_cost_bps@, e.total_cost_usd@, e.venues_used as nat, e.estimated_fill_time_ms, e.split_order)
}

/// The cost estimate of an order from its routing.
pub open spec fn estimate_of(
    x: (Seq<(Venue, (int, int), (int, int), (int, int), (int, int), u8)>, (int, int), u64, bool),
    o: Order,
) -> ((int, int), (int, int), (int, int), nat, u64, bool) {
    (order_value_of(o), x.1, ddiv(dmul(order_value_of(o), x.1), dint(10000)), x.0.len(), x.2, x.3)
}

/// Feasibility as plain values.
pub open spec fn feasibility_view(f: FeasibilityCheck) -> (bool, Option<Seq<char>>, (int, int), (int, int)) {
    (f.feasible, crate::exec::mev::opt_text(f.reason), f.max_slippage_bps@, f.available_liquidity@)
}

/// Feasibility of an order from its routing: the routes' worst slippage
/// within the maximum, and the quoted liquidity at least half the order's
/// value.
pub open spec fn feasibility_of(
    x: (Seq<(Venue, (int, int), (int, int), (int, int), (int, int), u8)>, (int, int), u64, bool),
    q: Seq<(Seq<char>, VenueQuote)>,
    config: RouterConfig,
    o: Order,
) -> (bool, Option<Seq<char>>, (int, int), (int, int)) {
    let max_slip = max_of(x.0.map_values(|r: (Venue, (int, int), (int, int), (int, int), (int, int), u8)| r.4));
    let slippage_ok = dle(max_slip, config.max_slippage_bps@);
    let available = sum_of(quotes_for(q, o.symbol@).map_values(|v: VenueQuote| v.available_liquidity@));
    let value = order_value_of(o);
    let liquidity_ok = dle(dmul(value, dlit(5, 1)), available);
    let feasible = slippage_ok && liquidity_ok;
    let reason = if feasible {
        None
    } else if !slippage_ok {
        Some(
            "Slippage "@ + decimal_text(max_slip) + " bps exceeds max "@ + decimal_text(config.max_slippage_bps@)
                + " bps"@,
        )
    } else {
        Some("Insufficient liquidity: "@ + decimal_text(available) + " / "@ + decimal_text(value) + " USD"@)
    };
    (feasible, reason, max_slip, available)
}

/// The comparisons of a symbol's quotes for an order, from best to worst
/// effective price.
pub open spec fn comparisons_of(qs: Seq<VenueQuote>, o: Order) -> Seq<
    (Venue, (int, int), (int, int), (int, int), (int, int), (int, int), (int, int), u64, (int, int)),
> {
    let is_buy = o.side == Side::Long;
    ordered(
        qs.map_values(|q: VenueQuote| (effective_of(q, is_buy), comparison_of(q, o))),
        !is_buy,
    ).map_values(
        |p: ((int, int), (Venue, (int, int), (int, int), (int, int), (int, int), (int, int), (int, int), u64, (int, int)))|
            p.1,
    )
}

impl SmartOrderRouter {
    /// The routing of an order, `None` where splitting it would divide by a
    /// venue's zero price.
    pub fn try_route(&self, order: &Order) -> (r: Option<RoutedOrder>)
        ensures
            match route_of(self.quotes(), self.config_spec(), *order) {
                None => r is None,
                Some(x) => r matches Some(ro) && routed_view(ro) == x && order_view(ro.original_order)
                    == order_view(*order),
            },
            r matches Some(ro) ==> ro.split == (ro.routes@.len() > 1),
            r matches Some(ro) ==> (ro.routes@.len() > 0 && 0 < units(order.size@) <= MAX_MANTISSA ==> route_sizes(
                ro.routes@,
            ) == units(order.size@)),
    {
        let price0 = match order.limit_price {
            Some(p) => p,
            None => Dec::zero(),
        };
        let order_value = order.size.mul(price0);
        let is_buy = order.side == Side::Long;
        let quotes = self.symbol_quotes(order.symbol.as_str());
        if quotes.len() == 0 {
            let mut routes: Vec<OrderRoute> = Vec::new();
            routes.push(
                OrderRoute {
                    venue: Venue::Primary,
                    size: order.size,
                    expected_price: price0,
                    fee_bps: Dec::from_u64(15),
                    estimated_slippage_bps: Dec::from_u64(10),
                    priority: 1,
                },
            );
            let ro = RoutedOrder {
                original_order: order_copy(order),
                routes,
                total_cost_bps: Dec::from_u64(25),
                estimated_fill_time_ms: 100,
                split: false,
            };
            proof {
                assert(routed_view(ro).0 =~= route_of(self.quotes(), self.config_spec(), *order).unwrap().0);
                assert(ro.routes@.drop_last() =~= Seq::<OrderRoute>::empty());
                assert(route_sizes(Seq::<OrderRoute>::empty()) == 0);
                assert(route_sizes(ro.routes@) == units(ro.routes@[0].size@));
            }
            return Some(ro);
        }
        let sorted = sort_quotes(&quotes, is_buy);
        proof {
            lemma_ordered_len(by_effective(quotes@, is_buy), !is_buy);
        }
        if !order_value.gt(&self.config.split_threshold_usd) {
            let best = sorted[0];
            let mut routes: Vec<OrderRoute> = Vec::new();
            routes.push(
                OrderRoute {
                    venue: best.venue,
                    size: order.size,
                    expected_price: best.price,
                    fee_bps: best.fee_bps,
                    estimated_slippage_bps: best.estimated_slippage_bps,
                    priority: 1,
                },
            );
            let ro = RoutedOrder {
                original_order: order_copy(order),
                routes,
                total_cost_bps: best.total_cost_bps(),
                estimated_fill_time_ms: best.latency_ms,
                split: false,
            };
            proof {
                assert(routed_view(ro).0 =~= route_of(self.quotes(), self.config_spec(), *order).unwrap().0);
                assert(ro.routes@.drop_last() =~= Seq::<OrderRoute>::empty());
                assert(route_sizes(Seq::<OrderRoute>::empty()) == 0);
                assert(route_sizes(ro.routes@) == units(ro.routes@[0].size@));
            }
            return Some(ro);
        }
        let k: usize = if sorted.len() < self.config.max_split_venues {
            sorted.len()
        } else {
            self.config.max_split_venues
        };
        let ghost sq = sorted@.take(k as int);
        let size = order.size;
        let mut routes: Vec<OrderRoute> = Vec::new();
        let mut remaining = size;
        let mut total = Dec::zero();
        let mut max_latency: u64 = 0;
        let mut done = false;
        let mut i: usize = 0;
        let ghost small: bool = 0 < units(size@) <= MAX_MANTISSA;
        while i < k
            invariant
                i <= k <= sorted@.len(),
                sq == sorted@.take(k as int),
                sq.len() == k,
                size == order.size,
                quotes@ == quotes_for(self.quotes(), order.symbol@),
                quotes@.len() > 0,
                is_buy == (order.side == Side::Long),
                sorted@ == sorted_quotes(quotes@, is_buy),
                order_value@ == order_value_of(*order),
                dlt(self.config.split_threshold_usd@, order_value@),
                k == if sorted@.len() < self.config.max_split_venues {
                    sorted@.len() as int
                } else {
                    self.config.max_split_venues as int
                },
                split_walk(sq, size@, i as nat) == Some(
                    (remaining@, routes@.map_values(|x: OrderRoute| route_view(x)), total@, max_latency, done),
                ),
                units(size@) <= 0 ==> remaining@ == size@,
                small == (0 < units(size@) <= MAX_MANTISSA),
                small ==> 0 <= units(remaining@) <= units(size@),
                small ==> route_sizes(routes@) + units(remaining@) == units(size@),
                small ==> sizes_positive(routes@),
            decreases k - i,
        {
            if !done {
                let q = sorted[i];
                proof {
                    assert(sq[i as int] == q);
                }
                if q.price.is_zero() {
                    proof {
                        assert(split_walk(sq, size@, (i + 1) as nat) is None);
                        lemma_walk_settled(sq, size@, (i + 1) as nat, sq.len());
                    }
                    return None;
                }
                let cap = q.available_liquidity.div(q.price);
                let fill = remaining.min(cap);
                if fill.gt(&Dec::zero()) {
                    let weight = fill.div(size);
                    total = total.add(q.total_cost_bps().mul(weight));
                    if q.latency_ms > max_latency {
                        max_latency = q.latency_ms;
                    }
                    let ghost before = routes@;
                    routes.push(
                        OrderRoute {
                            venue: q.venue,
                            size: fill,
                            expected_price: q.price,
                            fee_bps: q.fee_bps,
                            estimated_slippage_bps: q.estimated_slippage_bps,
                            priority: (i + 1) as u8,
                        },
                    );
                    proof {
                        assert(routes@.map_values(|x: OrderRoute| route_view(x)) =~= before.map_values(
                            |x: OrderRoute| route_view(x),
                        ).push(
                            (q.venue, fill@, q.price@, q.fee_bps@, q.estimated_slippage_bps@, ((i + 1) as int) as u8),
                        ));
                    }
                    proof {
                        use_type_invariant(&remaining);
                        use_type_invariant(&fill);
                        remaining.lemma_wf_in_range();
                        fill.lemma_wf_in_range();
                        if small {
                            lemma_add_exact_small(remaining@, fill@, false);
                            lemma_route_sizes_push(before, routes@.last());
                            assert(before.push(routes@.last()) =~= routes@);
                            assert forall|j: int| 0 <= j < routes@.len() implies units(
                                (#[trigger] routes@[j]).size@,
                            ) > 0 by {
                                if j < before.len() {
                                    assert(routes@[j] == before[j]);
                                }
                            }
                        }
                    }
                    remaining = remaining.sub(fill);
                    if remaining.le(&Dec::zero()) {
                        done = true;
                    }
                }
            }
            i = i + 1;
        }
        if remaining.gt(&Dec::zero()) && routes.len() > 0 {
            let r0 = routes[0];
            let ghost before = routes@;
            proof {
                use_type_invariant(&remaining);
                use_type_invariant(&r0.size);
                remaining.lemma_wf_in_range();
                r0.size.lemma_wf_in_range();
                if small {
                    lemma_route_sizes_first(before, r0);
                    lemma_add_exact_small(r0.size@, remaining@, true);
                }
            }
            let bigger = r0.size.add(remaining);
            proof {
                if small {
                    lemma_route_sizes_first(before, OrderRoute { size: bigger, ..r0 });
                }
            }
            routes.set(0, OrderRoute { size: bigger, ..r0 });
            proof {
                assert(routes@.map_values(|x: OrderRoute| route_view(x)) =~= with_remainder(
                    before.map_values(|x: OrderRoute| route_view(x)),
                    remaining@,
                ));
            }
        } else {
            proof {
                assert(routes@.map_values(|x: OrderRoute| route_view(x)) =~= with_remainder(
                    routes@.map_values(|x: OrderRoute| route_view(x)),
                    remaining@,
                ));
            }
        }
        let split = routes.len() > 1;
        Some(
            RoutedOrder {
                original_order: order_copy(order),
                routes,
                total_cost_bps: total,
                estimated_fill_time_ms: max_latency,
                split,
            },
        )
    }

    /// The routing of an order: to the primary venue without quotes, to
    /// the venue of best effective price for an order at most the split
    /// threshold in value, else split over the best venues by liquidity.
    pub fn route(&self, order: &Order) -> (r: RoutedOrder)
        requires
            route_of(self.quotes(), self.config_spec(), *order) is Some,
        ensures
            Some(routed_view(r)) == route_of(self.quotes(), self.config_spec(), *order),
            order_view(r.original_order) == order_view(*order),
            r.split == (r.routes@.len() > 1),
            r.routes@.len() > 0 && 0 < units(order.size@) <= MAX_MANTISSA ==> route_sizes(r.routes@) == units(
                order.size@,
            ),
    {
        match self.try_route(order) {
            Some(r) => r,
            None => unreached(),
        }
    }

    /// Cost estimate of an order from its routing.
    pub fn estimate_cost(&self, order: &Order) -> (r: ExecutionCostEstimate)
        requires
            route_of(self.quotes(), self.config_spec(), *order) is Some,
        ensures
            estimate_view(r) == estimate_of(route_of(self.quotes(), self.config_spec(), *order).unwrap(), *order),
    {
        let routed = self.route(order);
        let price0 = match order.limit_price {
            Some(p) => p,
            None => Dec::zero(),
        };
        let order_value = order.size.mul(price0);
        let fee_cost = order_value.mul(routed.total_cost_bps).div(Dec::from_u64(10000));
        ExecutionCostEstimate {
            order_value,
            total_cost_bps: routed.total_cost_bps,
            total_cost_usd: fee_cost,
            venues_used: routed.routes.len(),
            estimated_fill_time_ms: routed.estimated_fill_time_ms,
            split_order: routed.split,
        }
    }

    /// `estimate_cost` for any order: `None` where routing would divide by
    /// a zero price.
    pub fn try_estimate_cost(&self, order: &Order) -> (r: Option<ExecutionCostEstimate>)
        ensures
            match route_of(self.quotes(), self.config_spec(), *order) {
                None => r is None,
                Some(x) => r matches Some(e) && estimate_view(e) == estimate_of(x, *order),
            },
    {
        match self.try_route(order) {
            Some(_) => Some(self.estimate_cost(order)),
            None => None,
        }
    }

    /// Whether an order can be executed: its routes' slippage within the
    /// maximum and enough quoted liquidity; the reason when not.
    pub fn is_feasible(&self, order: &Order) -> (r: FeasibilityCheck)
        requires
            route_of(self.quotes(), self.config_spec(), *order) is Some,
        ensures
            feasibility_view(r) == feasibility_of(
                route_of(self.quotes(), self.config_spec(), *order).unwrap(),
                self.quotes(),
                self.config_spec(),
                *order,
            ),
    {
        let routed = self.route(order);
        let mut slips: Vec<Dec> = Vec::new();
        let mut i: usize = 0;
        while i < routed.routes.len()
            invariant
                i <= routed.routes.len(),
                slips@.len() == i,
                forall|j: int| 0 <= j < i ==> #[trigger] slips@[j] == routed.routes@[j].estimated_slippage_bps,
            decreases routed.routes.len() - i,
        {
            slips.push(routed.routes[i].estimated_slippage_bps);
            i = i + 1;
        }
        proof {
            assert(vals_of(slips@) =~= routed_view(routed).0.map_values(
                |r: (Venue, (int, int), (int, int), (int, int), (int, int), u8)| r.4,
            ));
        }
        let max_slippage = if slips.len() == 0 {
            Dec::zero()
        } else {
            crate::exec::gas::max_value(&slips)
        };
        let slippage_ok = max_slippage.le(&self.config.max_slippage_bps);
        let quotes = self.symbol_quotes(order.symbol.as_str());
        let mut liq: Vec<Dec> = Vec::new();
        let mut j: usize = 0;
        while j < quotes.len()
            invariant
                j <= quotes.len(),
                liq@.len() == j,
                forall|m: int| 0 <= m < j ==> #[trigger] liq@[m] == quotes@[m].available_liquidity,
            decreases quotes.len() - j,
        {
            liq.push(quotes[j].available_liquidity);
            j = j + 1;
        }
        proof {
            assert(vals_of(liq@) =~= quotes@.map_values(|v: VenueQuote| v.available_liquidity@));
            assert(liq@.subrange(0, liq@.len() as int) =~= liq@);
            assert(vals_of(liq@).subrange(0, liq@.len() as int) =~= vals_of(liq@));
        }
        let total_available = crate::series::sum_range(&liq, 0, liq.len());
        let price0 = match order.limit_price {
            Some(p) => p,
            None => Dec::zero(),
        };
        let order_value = order.size.mul(price0);
        let liquidity_ok = total_available.ge(&order_value.mul(Dec::new(5, 1)));
        let feasible = slippage_ok && liquidity_ok;
        let reason = if feasible {
            None
        } else if !slippage_ok {
            let mut t = "Slippage ".to_owned();
            t.append(max_slippage.to_text().as_str());
            t.append(" bps exceeds max ");
            t.append(self.config.max_slippage_bps.to_text().as_str());
            t.append(" bps");
            Some(t)
        } else {
            let mut t = "Insufficient liquidity: ".to_owned();
            t.append(total_available.to_text().as_str());
            t.append(" / ");
            t.append(order_value.to_text().as_str());
            t.append(" USD");
            Some(t)
        };
        FeasibilityCheck { feasible, reason, max_slippage_bps: max_slippage, available_liquidity: total_available }
    }

    /// `is_feasible` for any order: `None` where routing would divide by a
    /// zero price.
    pub fn try_is_feasible(&self, order: &Order) -> (r: Option<FeasibilityCheck>)
        ensures
            match route_of(self.quotes(), self.config_spec(), *order) {
                None => r is None,
                Some(x) => r matches Some(f) && feasibility_view(f) == feasibility_of(
                    x,
                    self.quotes(),
                    self.config_spec(),
                    *order,
                ),
            },
    {
        match self.try_route(order) {
            Some(_) => Some(self.is_feasible(order)),
            None => None,
        }
    }

    /// The venue with the best effective price for a symbol (the first
    /// recorded among equals).
    pub fn best_venue(&self, symbol: &str, is_buy: bool) -> (r: Option<Venue>)
        ensures
            r == if quotes_for(self.quotes(), symbol@).len() == 0 {
                None::<Venue>
            } else {
                Some(sorted_quotes(quotes_for(self.quotes(), symbol@), is_buy)[0].venue)
            },
            quotes_for(self.quotes(), symbol@).len() > 0 ==> best_venue_law(
                quotes_for(self.quotes(), symbol@),
                is_buy,
                sorted_quotes(quotes_for(self.quotes(), symbol@), is_buy)[0],
            ),
    {
        let quotes = self.symbol_quotes(symbol);
        if quotes.len() == 0 {
            return None;
        }
        let sorted = sort_quotes(&quotes, is_buy);
        proof {
            lemma_ordered_len(by_effective(quotes@, is_buy), !is_buy);
        }
        let mut i: usize = 0;
        while i < quotes.len()
            invariant
                i <= quotes.len(),
                forall|j: int|
                    0 <= j < i ==> (plain_costs(#[trigger] quotes@[j]) && tight_quotient(quotes@[j])
                        ==> priced_after_costs(quotes@[j], is_buy, effective_of(quotes@[j], is_buy))),
            decreases quotes.len() - i,
        {
            let _ = quotes[i].effective_price(is_buy);
            i = i + 1;
        }
        proof {
            lemma_best_venue(quotes@, is_buy);
        }
        Some(sorted[0].venue)
    }

    /// The symbol's venues compared for an order, from best to worst
    /// effective price.
    pub fn compare_venues(&self, order: &Order) -> (r: Vec<VenueComparison>)
        ensures
            r@.map_values(|c: VenueComparison| comparison_view(c)) == comparisons_of(
                quotes_for(self.quotes(), order.symbol@),
                *order,
            ),
    {
        let is_buy = order.side == Side::Long;
        let quotes = self.symbol_quotes(order.symbol.as_str());
        let ghost cv = |c: VenueComparison| comparison_view(c);
        let mut items: Vec<(Dec, VenueComparison)> = Vec::new();
        let mut i: usize = 0;
        while i < quotes.len()
            invariant
                i <= quotes.len(),
                items@.len() == i,
                is_buy == (order.side == Side::Long),
                cv == (|c: VenueComparison| comparison_view(c)),
                forall|j: int|
                    0 <= j < i ==> (#[trigger] items@[j]).0@ == effective_of(quotes@[j], is_buy)
                        && comparison_view(items@[j].1) == comparison_of(quotes@[j], *order),
            decreases quotes.len() - i,
        {
            let q = quotes[i];
            let effective = q.effective_price(is_buy);
            let order_value = order.size.mul(q.price);
            let cost_usd = order_value.mul(q.total_cost_bps()).div(Dec::from_u64(10000));
            let c = VenueComparison {
                venue: q.venue,
                raw_price: q.price,
                effective_price: effective,
                fee_bps: q.fee_bps,
                slippage_bps: q.estimated_slippage_bps,
                total_cost_bps: q.total_cost_bps(),
                cost_usd,
                latency_ms: q.latency_ms,
                liquidity: q.available_liquidity,
            };
            items.push((effective, c));
            i = i + 1;
        }
        proof {
            assert(map_items(keyed(items@), cv) =~= quotes@.map_values(
                |q: VenueQuote| (effective_of(q, is_buy), comparison_of(q, *order)),
            ));
            lemma_ordered_map(keyed(items@), cv, !is_buy);
        }
        let sorted = order_by_key(items, !is_buy);
        let mut r: Vec<VenueComparison> = Vec::new();
        let mut k: usize = 0;
        while k < sorted.len()
            invariant
                k <= sorted.len(),
                r@.len() == k,
                forall|j: int| 0 <= j < k ==> #[trigger] r@[j] == sorted@[j].1,
            decreases sorted.len() - k,
        {
            r.push(sorted[k].1);
            k = k + 1;
        }
        proof {
            assert(r@.map_values(|c: VenueComparison| comparison_view(c)) =~= map_items(keyed(sorted@), cv).map_values(
                |p: ((int, int), (Venue, (int, int), (int, int), (int, int), (int, int), (int, int), (int, int), u64, (int, int)))|
                    p.1,
            ));
        }
        r
    }
}

/// The values of a list of decimals.
pub open spec fn vals_of(s: Seq<Dec>) -> Seq<(int, int)> {
    s.map_values(|d: Dec| d@)
}

/// The book behind an optional reference.
pub open spec fn book_of(b: Option<&OrderBook>) -> Option<OrderBook> {
    match b {
        Some(x) => Some(*x),
        None => None,
    }
}

/// Whether a book's mid price, where it has one, is non-zero.
pub open spec fn mid_nonzero(b: OrderBook) -> bool {
    match book_mid(b.bids@, b.asks@) {
        Some(m) => units(m) != 0,
        None => true,
    }
}

/// Whether the slippage estimate of a book can be made for a size (it
/// divides by the size and by the mid price).
pub open spec fn slippage_defined(b: Option<OrderBook>, size: (int, int)) -> bool {
    match b {
        None => true,
        Some(bk) => units(size) != 0 && mid_nonzero(bk),
    }
}

/// The slippage estimate of a book for a size, if there is a book and it
/// can fill the size.
pub open spec fn book_slippage(b: Option<OrderBook>, size: (int, int), is_buy: bool) -> Option<(int, int)> {
    match b {
        None => None,
        Some(bk) => match book_mid(bk.bids@, bk.asks@) {
            None => None,
            Some(m) => slippage_of(
                if is_buy {
                    bk.asks@
                } else {
                    bk.bids@
                },
                size,
                m,
            ),
        },
    }
}

/// The book's mid price, zero without a book or a mid price.
pub open spec fn book_mid_or_zero(b: Option<OrderBook>) -> (int, int) {
    match b {
        None => dint(0),
        Some(bk) => match book_mid(bk.bids@, bk.asks@) {
            None => dint(0),
            Some(m) => m,
        },
    }
}

/// Part of an order of the earlier interface.
#[derive(Debug, Clone)]
pub struct OrderPart {
    pub size: Dec,
    pub delay_ms: u64,
    pub venue: String,
}

/// A part as plain values.
pub open spec fn part_view(p: OrderPart) -> ((int, int), u64, Seq<char>) {
    (p.size@, p.delay_ms, p.venue@)
}

/// Execution plan of the earlier interface.
#[derive(Debug, Clone)]
pub struct ExecutionPlan {
    pub original_order: Order,
    pub parts: Vec<OrderPart>,
    pub estimated_slippage: Option<Dec>,
    pub split: bool,
}

/// A plan's parts, slippage estimate and split flag.
pub open spec fn plan_view(p: ExecutionPlan) -> (Seq<((int, int), u64, Seq<char>)>, Option<(int, int)>, bool) {
    (p.parts@.map_values(|x: OrderPart| part_view(x)), opt_view(p.estimated_slippage), p.split)
}

/// The plan for an order: split when its value exceeds the threshold or the
/// book's slippage exceeds the maximum, into as many equal parts as the
/// value holds thresholds (rounded up; three when that count is not a
/// number of parts), 100 ms apart.  `None` where the plan would divide by
/// zero or a delay would not fit in a `u64`.
pub open spec fn plan_of(r: LegacyRouter, o: Order, b: Option<OrderBook>) -> Option<
    (Seq<((int, int), u64, Seq<char>)>, Option<(int, int)>, bool),
> {
    let value = order_value_of(o);
    let slip = book_slippage(b, o.size@, o.side == Side::Long);
    let slip_high = match slip {
        Some(x) => dlt(r.max_slippage_bps@, x),
        None => false,
    };
    if !slippage_defined(b, o.size@) {
        None
    } else if dlt(r.split_threshold@, value) || slip_high {
        if units(r.split_threshold@) == 0 {
            None
        } else {
            let n = decimal_ceil(ddiv(value, r.split_threshold@));
            let count = match u64_parsed(decimal_text(n)) {
                Some(c) => c,
                None => 3u64,
            };
            if units(n) == 0 || count > 184467440737095517 {
                None
            } else {
                let part = ddiv(o.size@, n);
                Some((Seq::new(count as nat, |i: int| (part, (i * 100) as u64, "primary"@)), slip, true))
            }
        }
    } else {
        Some((seq![(o.size@, 0u64, "primary"@)], slip, false))
    }
}

/// Cost of the earlier interface.
#[derive(Debug, Clone, Copy)]
pub struct LegacyExecutionCost {
    pub slippage_bps: Dec,
    pub slippage_usd: Dec,
    pub fee_bps: Dec,
    pub fee_usd: Dec,
    pub total_bps: Dec,
    pub total_usd: Dec,
}

/// A cost as plain values.
pub open spec fn legacy_cost_view(c: LegacyExecutionCost) -> ((int, int), (int, int), (int, int), (int, int), (int, int), (int, int)) {
    (c.slippage_bps@, c.slippage_usd@, c.fee_bps@, c.fee_usd@, c.total_bps@, c.total_usd@)
}

/// The cost of an order against a book: its slippage (10 bps without an
/// estimate) and a 10 bps fee, in bps and in USD at the mid price.
pub open spec fn legacy_cost_of(o: Order, b: Option<OrderBook>) -> ((int, int), (int, int), (int, int), (int, int), (int, int), (int, int)) {
    let mid = book_mid_or_zero(b);
    let slip = match book_slippage(b, o.size@, o.side == Side::Long) {
        Some(x) => x,
        None => dint(10),
    };
    let slippage_usd = ddiv(dmul(dmul(o.size@, mid), slip), dint(10000));
    let fee_usd = ddiv(dmul(dmul(o.size@, mid), dint(10)), dint(10000));
    (slip, slippage_usd, dint(10), fee_usd, dadd(slip, dint(10)), dadd(slippage_usd, fee_usd))
}

/// Feasibility of the earlier interface.
#[derive(Debug, Clone)]
pub struct LegacyFeasibilityCheck {
    pub feasible: bool,
    pub reason: Option<String>,
    pub cost: LegacyExecutionCost,
}

/// Router of the earlier interface: splits by order value and book slippage.
pub struct LegacyRouter {
    pub split_threshold: Dec,
    pub max_slippage_bps: Dec,
}

impl Default for LegacyRouter {
    fn default() -> (r: LegacyRouter)
        ensures
            r.split_threshold@ == dint(1000),
            r.max_slippage_bps@ == dint(50),
    {
        LegacyRouter { split_threshold: Dec::from_u64(1000), max_slippage_bps: Dec::from_u64(50) }
    }
}

impl LegacyRouter {
    pub fn new(split_threshold: Dec, max_slippage_bps: Dec) -> (r: LegacyRouter)
        ensures
            r.split_threshold == split_threshold,
            r.max_slippage_bps == max_slippage_bps,
    {
        LegacyRouter { split_threshold, max_slippage_bps }
    }

    /// The book's slippage estimate for an order.
    fn book_estimate(order: &Order, book: Option<&OrderBook>) -> (r: Option<Dec>)
        requires
            slippage_defined(book_of(book), order.size@),
        ensures
            opt_view(r) == book_slippage(book_of(book), order.size@, order.side == Side::Long),
    {
        match book {
            Some(b) => b.estimate_slippage(order.size, order.side == Side::Long),
            None => None,
        }
    }

    /// The plan for an order (see `plan_of`), `None` where it would divide
    /// by zero or a delay would not fit in a `u64`.
    pub fn try_create_execution_plan(&self, order: &Order, book: Option<&OrderBook>) -> (r: Option<ExecutionPlan>)
        ensures
            match plan_of(*self, *order, book_of(book)) {
                None => r is None,
                Some(x) => r matches Some(p) && plan_view(p) == x && order_view(p.original_order)
                    == order_view(*order),
            },
    {
        let price0 = match order.limit_price {
            Some(p) => p,
            None => Dec::zero(),
        };
        let order_value = order.size.mul(price0);
        let defined = match book {
            Some(b) => !order.size.is_zero() && match b.mid_price() {
                Some(m) => !m.is_zero(),
                None => true,
            },
            None => true,
        };
        if !defined {
            return None;
        }
        let estimated_slippage = LegacyRouter::book_estimate(order, book);
        let slip_high = match estimated_slippage {
            Some(x) => x.gt(&self.max_slippage_bps),
            None => false,
        };
        if order_value.gt(&self.split_threshold) || slip_high {
            if self.split_threshold.is_zero() {
                return None;
            }
            let num_parts = order_value.div(self.split_threshold).ceil();
            let count = match parse_u64(num_parts.to_text().as_str()) {
                Some(c) => c,
                None => 3,
            };
            if num_parts.is_zero() || count > 184467440737095517 {
                return None;
            }
            let part_size = order.size.div(num_parts);
            let mut parts: Vec<OrderPart> = Vec::new();
            let mut i: u64 = 0;
            while i < count
                invariant
                    i <= count <= 184467440737095517,
                    parts@.len() == i,
                    forall|j: int|
                        0 <= j < i ==> part_view(#[trigger] parts@[j]) == (part_size@, (j * 100) as u64, "primary"@),
                decreases count - i,
            {
                parts.push(OrderPart { size: part_size, delay_ms: i * 100, venue: "primary".to_owned() });
                i = i + 1;
            }
            let plan = ExecutionPlan { original_order: order_copy(order), parts, estimated_slippage, split: true };
            proof {
                assert(plan_view(plan).0 =~= plan_of(*self, *order, book_of(book)).unwrap().0);
            }
            Some(plan)
        } else {
            let mut parts: Vec<OrderPart> = Vec::new();
            parts.push(OrderPart { size: order.size, delay_ms: 0, venue: "primary".to_owned() });
            let plan = ExecutionPlan { original_order: order_copy(order), parts, estimated_slippage, split: false };
            proof {
                assert(plan_view(plan).0 =~= plan_of(*self, *order, book_of(book)).unwrap().0);
            }
            Some(plan)
        }
    }

    /// The plan for an order (see `plan_of`).
    pub fn create_execution_plan(&self, order: &Order, book: Option<&OrderBook>) -> (r: ExecutionPlan)
        requires
            plan_of(*self, *order, book_of(book)) is Some,
        ensures
            Some(plan_view(r)) == plan_of(*self, *order, book_of(book)),
            order_view(r.original_order) == order_view(*order),
    {
        match self.try_create_execution_plan(order, book) {
            Some(p) => p,
            None => unreached(),
        }
    }

    /// Slippage and fee of an order against a book (see `legacy_cost_of`).
    pub fn estimate_cost(&self, order: &Order, book: Option<&OrderBook>) -> (r: LegacyExecutionCost)
        requires
            slippage_defined(book_of(book), order.size@),
        ensures
            legacy_cost_view(r) == legacy_cost_of(*order, book_of(book)),
    {
        let mid_price = match book {
            Some(b) => match b.mid_price() {
                Some(m) => m,
                None => Dec::zero(),
            },
            None => Dec::zero(),
        };
        let slippage_bps = match LegacyRouter::book_estimate(order, book) {
            Some(x) => x,
            None => Dec::from_u64(10),
        };
        let slippage_cost = order.size.mul(mid_price).mul(slippage_bps).div(Dec::from_u64(10000));
        let fee_bps = Dec::from_u64(10);
        let fee_cost = order.size.mul(mid_price).mul(fee_bps).div(Dec::from_u64(10000));
        LegacyExecutionCost {
            slippage_bps,
            slippage_usd: slippage_cost,
            fee_bps,
            fee_usd: fee_cost,
            total_bps: slippage_bps.add(fee_bps),
            total_usd: slippage_cost.add(fee_cost),
        }
    }

    /// `estimate_cost` for any order and book: `None` where the book's
    /// slippage estimate would divide by zero.
    pub fn try_estimate_cost(&self, order: &Order, book: Option<&OrderBook>) -> (r: Option<LegacyExecutionCost>)
        ensures
            r is Some <==> slippage_defined(book_of(book), order.size@),
            r matches Some(c) ==> legacy_cost_view(c) == legacy_cost_of(*order, book_of(book)),
    {
        let defined = match book {
            Some(b) => !order.size.is_zero() && match b.mid_price() {
                Some(m) => !m.is_zero(),
                None => true,
            },
            None => true,
        };
        if defined {
            Some(self.estimate_cost(order, book))
        } else {
            None
        }
    }

    /// Whether the order's slippage is within the maximum, with the reason
    /// when not.
    pub fn is_feasible(&self, order: &Order, book: Option<&OrderBook>) -> (r: LegacyFeasibilityCheck)
        requires
            slippage_defined(book_of(book), order.size@),
        ensures
            legacy_cost_view(r.cost) == legacy_cost_of(*order, book_of(book)),
            r.feasible == dle(legacy_cost_of(*order, book_of(book)).0, self.max_slippage_bps@),
            r.feasible ==> r.reason is None,
            !r.feasible ==> (r.reason matches Some(t) && t@ == "Slippage "@ + decimal_text(
                legacy_cost_of(*order, book_of(book)).0,
            ) + " bps exceeds max "@ + decimal_text(self.max_slippage_bps@) + " bps"@),
    {
        let cost = self.estimate_cost(order, book);
        let feasible = cost.slippage_bps.le(&self.max_slippage_bps);
        let reason = if feasible {
            None
        } else {
            let mut t = "Slippage ".to_owned();
            t.append(cost.slippage_bps.to_text().as_str());
            t.append(" bps exceeds max ");
            t.append(self.max_slippage_bps.to_text().as_str());
            t.append(" bps");
            Some(t)
        };
        LegacyFeasibilityCheck { feasible, reason, cost }
    }

    /// `is_feasible` for any order and book: `None` where the book's
    /// slippage estimate would divide by zero.
    pub fn try_is_feasible(&self, order: &Order, book: Option<&OrderBook>) -> (r: Option<LegacyFeasibilityCheck>)
        ensures
            r is Some <==> slippage_defined(book_of(book), order.size@),
            r matches Some(f) ==> legacy_cost_view(f.cost) == legacy_cost_of(*order, book_of(book)) && f.feasible
                == dle(legacy_cost_of(*order, book_of(book)).0, self.max_slippage_bps@),
    {
        let defined = match book {
            Some(b) => !order.size.is_zero() && match b.mid_price() {
                Some(m) => !m.is_zero(),
                None => true,
            },
            None => true,
        };
        if defined {
            Some(self.is_feasible(order, book))
        } else {
            None
        }
    }
}


/// A recorded quote is found again: after recording a quote of a symbol,
/// the symbol and the quote's venue lead to exactly that quote.
pub proof fn lemma_put_then_find(q: Seq<(Seq<char>, VenueQuote)>, sym: Seq<char>, quote: VenueQuote)
    ensures
        quote_index(quotes_put(q, sym, quote), sym, quote.venue) matches Some(i) && quotes_put(q, sym, quote)[i]
            == (sym, quote),
        quotes_put(q, sym, quote).len() == q.len() + if quote_index(q, sym, quote.venue) is Some {
            0int
        } else {
            1int
        },
{
    lemma_quote_index_spec(q, sym, quote.venue);
    let r = quotes_put(q, sym, quote);
    match quote_index(q, sym, quote.venue) {
        Some(i) => {
            assert forall|j: int| 0 <= j < i implies !(#[trigger] r[j].0 == sym && r[j].1.venue == quote.venue) by {
                assert(r[j] == q[j]);
            }
            lemma_quote_index(r, sym, quote.venue, i);
        },
        None => {
            assert forall|j: int| 0 <= j < q.len() implies !(#[trigger] r[j].0 == sym && r[j].1.venue == quote.venue) by {
                assert(r[j] == q[j]);
            }
            lemma_quote_index(r, sym, quote.venue, q.len() as int);
        },
    }
}

proof fn lemma_quote_index_spec(q: Seq<(Seq<char>, VenueQuote)>, sym: Seq<char>, venue: Venue)
    ensures
        quote_index(q, sym, venue) matches Some(i) ==> 0 <= i < q.len() && q[i].0 == sym && q[i].1.venue == venue
            && forall|j: int| 0 <= j < i ==> !(#[trigger] q[j].0 == sym && q[j].1.venue == venue),
        quote_index(q, sym, venue) is None ==> forall|j: int| 0 <= j < q.len() ==> !(#[trigger] q[j].0 == sym && q[j].1.venue == venue),
    decreases q.len(),
{
    if q.len() > 0 {
        lemma_quote_index_spec(q.drop_first(), sym, venue);
        assert forall|j: int| 0 < j < q.len() implies q[j] == q.drop_first()[j - 1] by {}
    }
}

/// Recording quotes never gives one symbol two quotes of the same venue.
pub proof fn lemma_put_keeps_unique(q: Seq<(Seq<char>, VenueQuote)>, sym: Seq<char>, quote: VenueQuote)
    requires
        forall|a: int, b: int|
            0 <= a < b < q.len() ==> !(#[trigger] q[a].0 == #[trigger] q[b].0 && q[a].1.venue == q[b].1.venue),
    ensures
        forall|a: int, b: int|
            0 <= a < b < quotes_put(q, sym, quote).len() ==> !(#[trigger] quotes_put(q, sym, quote)[a].0
                == #[trigger] quotes_put(q, sym, quote)[b].0 && quotes_put(q, sym, quote)[a].1.venue == quotes_put(
                q,
                sym,
                quote,
            )[b].1.venue),
{
    lemma_quote_index_spec(q, sym, quote.venue);
    let r = quotes_put(q, sym, quote);
    assert forall|a: int, b: int| 0 <= a < b < r.len() implies !(#[trigger] r[a].0 == #[trigger] r[b].0 && r[a].1.venue
        == r[b].1.venue) by {
        match quote_index(q, sym, quote.venue) {
            Some(i) => {
                if a != i && b != i {
                    assert(r[a] == q[a] && r[b] == q[b]);
                } else if a == i {
                    assert(r[b] == q[b]);
                    assert(q[i].0 == sym && q[i].1.venue == quote.venue);
                } else {
                    assert(r[a] == q[a]);
                }
            },
            None => {
                if b < q.len() {
                    assert(r[a] == q[a] && r[b] == q[b]);
                } else {
                    assert(r[a] == q[a]);
                }
            },
        }
    }
}

} // verus!
