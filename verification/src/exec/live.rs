//! Live execution rules: which venue an order goes to, the checks an order
//! must pass, the token addresses of a DEX pair, the fill of a swap, the
//! order that closes a position and the trade it records, and the orders
//! waiting for a fill.  The exchange client, the signer and the portfolio
//! are driven by the caller.
use crate::decimal::{
    add_exact, at_scale, dabs, ddiv, decimal_text, dint, dlit, dlt, dmul, dsub, lemma_at_scale_bound, lemma_mantissa_bound,
    lemma_mul_units, pow10, units, Dec, MAX_MANTISSA,
};
use crate::exec::okx_api::{
    decimal_or_zero, order_side_of, side_text, OkxApiClient, OkxApiConfig, OrderDetail, OrderSide, PlaceOrderRequest,
};
use crate::market::{ExecutionResult, Order, OrderType, Position, Side, TradeOutcome};
use crate::text::{chars_of, contains_text, has_sub, str_eq, text_of_chars};
use vstd::prelude::*;

verus! {

/// Venue of a live order.
#[derive(Debug, Clone, Copy, PartialEq, Eq, Structural)]
pub enum Venue {
    /// OKX centralized exchange.
    OkxCex,
    /// X Layer DEX.
    XLayerDex,
    /// Cod3x lending protocol.
    Cod3xLending,
}

/// Venue of a symbol: pairs quoted in USDT or USDC trade on the exchange,
/// other symbols on the DEX.
pub open spec fn venue_of(symbol: Seq<char>) -> Venue {
    if has_sub(symbol, "-USDT"@) || has_sub(symbol, "-USDC"@) {
        Venue::OkxCex
    } else {
        Venue::XLayerDex
    }
}

impl Venue {
    pub fn from_symbol(symbol: &str) -> (r: Venue)
        ensures
            r == venue_of(symbol@),
    {
        if contains_text(symbol, "-USDT") || contains_text(symbol, "-USDC") {
            Venue::OkxCex
        } else {
            Venue::XLayerDex
        }
    }
}

/// Live executor configuration.
#[derive(Debug, Clone, Copy)]
pub struct LiveExecutorConfig {
    pub okx_enabled: bool,
    pub dex_enabled: bool,
    /// Largest slippage (bps).
    pub max_slippage_bps: u32,
    /// Time allowed for a fill (s).
    pub order_timeout_secs: u64,
    /// Smallest order (USD).
    pub min_order_usd: Dec,
    /// Largest order (USD).
    pub max_order_usd: Dec,
    /// Confirmations awaited on the DEX.
    pub dex_confirmations: usize,
}

impl Default for LiveExecutorConfig {
    fn default() -> (r: LiveExecutorConfig)
        ensures
            r.okx_enabled && r.dex_enabled,
            r.max_slippage_bps == 100,
            r.order_timeout_secs == 60,
            r.min_order_usd@ == dint(1),
            r.max_order_usd@ == dint(10000),
            r.dex_confirmations == 2,
    {
        LiveExecutorConfig {
            okx_enabled: true,
            dex_enabled: true,
            max_slippage_bps: 100,
            order_timeout_secs: 60,
            min_order_usd: Dec::from_u64(1),
            max_order_usd: Dec::from_u64(10000),
            dex_confirmations: 2,
        }
    }
}

/// The error of an order that fails the checks, if any: a size that is
/// not positive, a notional value below the minimum or above the maximum.
pub open spec fn order_error(config: LiveExecutorConfig, size: (int, int), market_price: (int, int)) -> Option<Seq<char>> {
    let notional = dmul(size, market_price);
    if units(size) <= 0 {
        Some("Order size must be positive"@)
    } else if dlt(notional, config.min_order_usd@) {
        Some("Order too small: $"@ + decimal_text(notional) + " < $"@ + decimal_text(config.min_order_usd@))
    } else if dlt(config.max_order_usd@, notional) {
        Some("Order too large: $"@ + decimal_text(notional) + " > $"@ + decimal_text(config.max_order_usd@))
    } else {
        None
    }
}

/// Checks an order before it is sent (see `order_error`).
pub fn validate_order(config: &LiveExecutorConfig, order: &Order, market_price: Dec) -> (r: Result<(), String>)
    requires
        !(order.limit_price is Some && units(order.size@) > 0 && units(market_price@) == 0 && units(
            config.min_order_usd@,
        ) <= 0 && units(config.max_order_usd@) >= 0),
    ensures
        match order_error(*config, order.size@, market_price@) {
            None => r is Ok,
            Some(e) => r matches Err(m) && m@ == e,
        },
{
    if order.size.le(&Dec::zero()) {
        return Err("Order size must be positive".to_owned());
    }
    let notional = order.size.mul(market_price);
    if notional.lt(&config.min_order_usd) {
        let mut e = "Order too small: $".to_owned();
        e.append(notional.to_text().as_str());
        e.append(" < $");
        e.append(config.min_order_usd.to_text().as_str());
        return Err(e);
    }
    if notional.gt(&config.max_order_usd) {
        let mut e = "Order too large: $".to_owned();
        e.append(notional.to_text().as_str());
        e.append(" > $");
        e.append(config.max_order_usd.to_text().as_str());
        return Err(e);
    }
    Ok(())
}

/// Address of a known X Layer token.
pub open spec fn token_address(name: Seq<char>) -> Option<Seq<char>> {
    if name == "WETH"@ || name == "ETH"@ {
        Some("0x5A77f1443D16ee5761d310e38b62f77f726bC71c"@)
    } else if name == "USDT"@ {
        Some("0x1E4a5963aBFD975d8c9021ce480b42188849D41d"@)
    } else if name == "USDC"@ {
        Some("0x74b7F16337b8972027F6196A17a631aC6dE26d22"@)
    } else if name == "OKB"@ {
        Some("0x75231F58b43240C9718Dd58B4967c5114342a86c"@)
    } else {
        None
    }
}

fn known_token(name: &str) -> (r: Option<String>)
    ensures
        match token_address(name@) {
            Some(a) => r matches Some(t) && t@ == a,
            None => r is None,
        },
{
    if str_eq(name, "WETH") || str_eq(name, "ETH") {
        Some("0x5A77f1443D16ee5761d310e38b62f77f726bC71c".to_owned())
    } else if str_eq(name, "USDT") {
        Some("0x1E4a5963aBFD975d8c9021ce480b42188849D41d".to_owned())
    } else if str_eq(name, "USDC") {
        Some("0x74b7F16337b8972027F6196A17a631aC6dE26d22".to_owned())
    } else if str_eq(name, "OKB") {
        Some("0x75231F58b43240C9718Dd58B4967c5114342a86c".to_owned())
    } else {
        None
    }
}

/// Number of dashes in a text.
pub open spec fn dash_count(s: Seq<char>) -> int
    decreases s.len(),
{
    if s.len() == 0 {
        0
    } else {
        dash_count(s.drop_last()) + if s.last() == '-' {
            1int
        } else {
            0int
        }
    }
}

/// Position of the first dash (the length when there is none).
pub open spec fn first_dash(s: Seq<char>) -> int
    decreases s.len(),
{
    if s.len() == 0 {
        0
    } else if s[0] == '-' {
        0
    } else {
        1 + first_dash(s.drop_first())
    }
}

/// The (from, to) token addresses of a DEX pair `BASE-QUOTE`: a buy
/// spends the quote token, a sell the base token.  A base written as an
/// address (`0x...`) is taken as it is.
pub open spec fn dex_pair_of(symbol: Seq<char>, side: Side) -> Result<(Seq<char>, Seq<char>), Seq<char>> {
    if dash_count(symbol) != 1 {
        Err("Invalid symbol format: "@ + symbol)
    } else {
        let d = first_dash(symbol);
        let base = symbol.take(d);
        let quote = symbol.skip(d + 1);
        let base_addr = if base.len() >= 2 && base[0] == '0' && base[1] == 'x' {
            Some(base)
        } else {
            token_address(base)
        };
        match base_addr {
            None => Err("Unknown token: "@ + base),
            Some(b) => match token_address(quote) {
                None => Err("Unknown quote token: "@ + quote),
                Some(q) => if side == Side::Long {
                    Ok((q, b))
                } else {
                    Ok((b, q))
                },
            },
        }
    }
}

proof fn lemma_dash_scan(s: Seq<char>, i: int)
    requires
        0 <= i < s.len(),
    ensures
        dash_count(s.take(i + 1)) == dash_count(s.take(i)) + if s[i] == '-' {
            1int
        } else {
            0int
        },
{
    assert(s.take(i + 1).drop_last() =~= s.take(i));
}

proof fn lemma_first_dash(s: Seq<char>, d: int)
    requires
        0 <= d <= s.len(),
        forall|k: int| 0 <= k < d ==> s[k] != '-',
        d < s.len() ==> s[d] == '-',
    ensures
        first_dash(s) == d,
    decreases s.len(),
{
    if s.len() > 0 && d > 0 {
        lemma_first_dash(s.drop_first(), d - 1);
    }
}

/// The (from, to) token addresses of a DEX pair (see `dex_pair_of`).
pub fn parse_dex_pair(symbol: &str, side: Side) -> (r: Result<(String, String), String>)
    ensures
        match dex_pair_of(symbol@, side) {
            Ok((f, t)) => r matches Ok(p) && p.0@ == f && p.1@ == t,
            Err(e) => r matches Err(m) && m@ == e,
        },
{
    let cs = chars_of(symbol);
    let mut dashes: usize = 0;
    let mut pos: usize = cs.len();
    let mut i: usize = 0;
    while i < cs.len()
        invariant
            cs@ == symbol@,
            i <= cs.len(),
            dashes == dash_count(symbol@.take(i as int)),
            dashes <= i,
            pos == cs.len() ==> forall|k: int| 0 <= k < i ==> symbol@[k] != '-',
            pos < cs.len() ==> pos < i && symbol@[pos as int] == '-' && forall|k: int| 0 <= k < pos ==> symbol@[k] != '-',
            pos <= cs.len(),
        decreases cs.len() - i,
    {
        proof {
            lemma_dash_scan(symbol@, i as int);
        }
        if cs[i] == '-' {
            dashes = dashes + 1;
            if pos == cs.len() {
                pos = i;
            }
        }
        i = i + 1;
    }
    proof {
        assert(symbol@.take(i as int) =~= symbol@);
    }
    if dashes != 1 {
        let mut e = "Invalid symbol format: ".to_owned();
        e.append(symbol);
        return Err(e);
    }
    proof {
        if pos == cs.len() {
            lemma_first_dash(symbol@, pos as int);
            assert(dash_count(symbol@) == 0) by {
                lemma_no_dash(symbol@);
            }
        }
        lemma_first_dash(symbol@, pos as int);
    }
    let mut base_chars: Vec<char> = Vec::new();
    let mut k: usize = 0;
    while k < pos
        invariant
            k <= pos < cs.len(),
            cs@ == symbol@,
            base_chars@ == symbol@.take(k as int),
        decreases pos - k,
    {
        base_chars.push(cs[k]);
        proof {
            assert(base_chars@ =~= symbol@.take(k + 1));
        }
        k = k + 1;
    }
    let mut quote_chars: Vec<char> = Vec::new();
    let mut m: usize = pos + 1;
    while m < cs.len()
        invariant
            pos < m <= cs.len(),
            cs@ == symbol@,
            quote_chars@ == symbol@.subrange(pos + 1, m as int),
        decreases cs.len() - m,
    {
        quote_chars.push(cs[m]);
        proof {
            assert(quote_chars@ =~= symbol@.subrange(pos + 1, m + 1));
        }
        m = m + 1;
    }
    proof {
        assert(symbol@.subrange(pos + 1, m as int) =~= symbol@.skip(pos + 1));
    }
    let base = text_of_chars(&base_chars);
    let quote = text_of_chars(&quote_chars);
    let base_addr = if base_chars.len() >= 2 && base_chars[0] == '0' && base_chars[1] == 'x' {
        Some(text_of_chars(&base_chars))
    } else {
        known_token(base.as_str())
    };
    let base_addr = match base_addr {
        Some(b) => b,
        None => {
            let mut e = "Unknown token: ".to_owned();
            e.append(base.as_str());
            return Err(e);
        },
    };
    let quote_addr = match known_token(quote.as_str()) {
        Some(q) => q,
        None => {
            let mut e = "Unknown quote token: ".to_owned();
            e.append(quote.as_str());
            return Err(e);
        },
    };
    if side == Side::Long {
        Ok((quote_addr, base_addr))
    } else {
        Ok((base_addr, quote_addr))
    }
}

proof fn lemma_no_dash(s: Seq<char>)
    requires
        forall|k: int| 0 <= k < s.len() ==> s[k] != '-',
    ensures
        dash_count(s) == 0,
    decreases s.len(),
{
    if s.len() > 0 {
        lemma_no_dash(s.drop_last());
    }
}

/// Amount a DEX swap spends: the quote value for a buy, the size for a sell.
pub fn dex_amount_in(order: &Order, market_price: Dec) -> (r: Dec)
    ensures
        r@ == if order.side == Side::Long {
            dmul(order.size@, market_price@)
        } else {
            order.size@
        },
{
    if order.side == Side::Long {
        order.size.mul(market_price)
    } else {
        order.size
    }
}

/// Slippage allowed on a swap, as a fraction.
pub fn dex_slippage(config: &LiveExecutorConfig) -> (r: Dec)
    ensures
        r@ == ddiv(dint(config.max_slippage_bps as int), dint(10000)),
{
    Dec::from_u64(config.max_slippage_bps as u64).div(Dec::from_u64(10000))
}

/// Size and average price of a swap that spent `from_amount` for
/// `to_amount`: a buy received the size, a sell spent it.
pub fn dex_fill(side: Side, from_amount: Dec, to_amount: Dec) -> (r: (Dec, Dec))
    requires
        side == Side::Long ==> units(to_amount@) != 0,
        side == Side::Short ==> units(from_amount@) != 0,
    ensures
        side == Side::Long ==> r.0@ == to_amount@ && r.1@ == ddiv(from_amount@, to_amount@),
        side == Side::Short ==> r.0@ == from_amount@ && r.1@ == ddiv(to_amount@, from_amount@),
{
    if side == Side::Long {
        (to_amount, from_amount.div(to_amount))
    } else {
        (from_amount, to_amount.div(from_amount))
    }
}

/// Gas fee of a DEX trade (USD).
pub fn dex_gas_fee() -> (r: Dec)
    ensures
        r@ == dlit(10, 2),
{
    Dec::new(10, 2)
}

/// The request that places an order on OKX: a market order at market, a
/// limit order at its limit price; a limit order without one is refused.
pub fn okx_order_request(order: &Order) -> (r: Result<PlaceOrderRequest, String>)
    ensures
        order.order_type == OrderType::Limit && order.limit_price is None ==> (r matches Err(e) && e@
            == "Limit order requires price"@),
        order.order_type == OrderType::Market ==> (r matches Ok(q) && q.inst_id@ == order.symbol@
            && q.td_mode@ == "cash"@ && q.side@ == side_text(order_side_of(order.side)) && q.ord_type@
            == "market"@ && q.sz@ == decimal_text(order.size@) && q.px is None && q.cl_ord_id is None),
        order.order_type == OrderType::Limit && order.limit_price is Some ==> (r matches Ok(q) && q.inst_id@
            == order.symbol@ && q.td_mode@ == "cash"@ && q.side@ == side_text(order_side_of(order.side))
            && q.ord_type@ == "limit"@ && q.sz@ == decimal_text(order.size@) && (q.px matches Some(p) && p@
            == decimal_text(order.limit_price.unwrap()@)) && q.cl_ord_id is None),
{
    let side: OrderSide = OrderSide::from(order.side);
    match order.order_type {
        OrderType::Market => Ok(OkxApiClient::market_order_request(order.symbol.as_str(), side, order.size)),
        OrderType::Limit => match order.limit_price {
            Some(price) => Ok(OkxApiClient::limit_order_request(order.symbol.as_str(), side, order.size, price)),
            None => Err("Limit order requires price".to_owned()),
        },
    }
}

/// The result of an OKX order once filled: the fill's size and average
/// price, the size of its fee, at `timestamp`.
pub fn okx_fill_result(order: &Order, order_id: String, filled: &OrderDetail, timestamp: i64) -> (r: ExecutionResult)
    ensures
        r.order_id@ == order_id@,
        r.symbol@ == order.symbol@,
        r.side == order.side,
        r.size@ == decimal_or_zero(filled.acc_fill_sz@),
        r.price@ == decimal_or_zero(filled.avg_px@),
        r.fee@ == dabs(decimal_or_zero(filled.fee@)),
        r.timestamp == timestamp,
        r.venue@ == "okx"@,
{
    ExecutionResult {
        order_id,
        symbol: order.symbol.clone(),
        side: order.side,
        size: filled.fill_size(),
        price: filled.fill_price(),
        fee: filled.fee().abs(),
        timestamp,
        venue: "okx".to_owned(),
    }
}

/// The market order that closes a position: the opposite side, the
/// position's size, no limit or exits.
pub fn closing_order(position: &Position, symbol: &str) -> (r: Order)
    ensures
        r.symbol@ == symbol@,
        r.side == (if position.side == Side::Long {
            Side::Short
        } else {
            Side::Long
        }),
        r.size@ == position.size@,
        r.order_type == OrderType::Market,
        r.limit_price is None && r.stop_loss is None && r.take_profit is None,
{
    Order {
        symbol: symbol.to_owned(),
        side: position.side.opposite(),
        size: position.size,
        order_type: OrderType::Market,
        limit_price: None,
        stop_loss: None,
        take_profit: None,
    }
}

/// Profit of closing a position of `size` entered at `entry` at `exit`.
pub open spec fn close_pnl_of(side: Side, entry: (int, int), exit: (int, int), size: (int, int)) -> (int, int) {
    if side == Side::Long {
        dmul(dsub(exit, entry), size)
    } else {
        dmul(dsub(entry, exit), size)
    }
}

/// Closing at `exit` a position entered at `entry` is computed without
/// rounding: brought to the larger of their scales, the prices and their
/// difference fit the decimal range, and so does the difference's mantissa
/// times the size's, with the scales adding up to at most 28.
pub open spec fn close_exact(entry: (int, int), exit: (int, int), size: (int, int)) -> bool {
    let s = if entry.1 >= exit.1 {
        entry.1
    } else {
        exit.1
    };
    let z = at_scale(exit, s) - at_scale(entry, s);
    &&& add_exact(exit, entry, false)
    &&& s + size.1 <= 28
    &&& -MAX_MANTISSA <= z * size.0 <= MAX_MANTISSA
}

/// The exact difference of two decimals at the larger scale, times a
/// decimal, is as exact as the case needs.
proof fn lemma_close_exact(r1: (int, int), size: (int, int), s: int, z: int, d: int)
    requires
        crate::decimal::in_range(r1),
        crate::decimal::in_range(size),
        r1.1 <= s <= 28,
        s + size.1 <= 28,
        units(r1) == z * pow10((28 - s) as nat),
        -MAX_MANTISSA <= z * size.0 <= MAX_MANTISSA,
    ensures
        crate::decimal::mul_exact(r1, size),
{
    lemma_mantissa_bound(r1, s, z);
    assert(-MAX_MANTISSA <= r1.0 * size.0 <= MAX_MANTISSA) by (nonlinear_arith)
        requires
            -z <= r1.0 <= z || z <= r1.0 <= -z,
            -MAX_MANTISSA <= z * size.0 <= MAX_MANTISSA,
    ;
}

/// Profit and outcome of closing a position at a price.
pub fn close_result(position: &Position, exit_price: Dec) -> (r: (Dec, TradeOutcome))
    ensures
        r.0@ == close_pnl_of(position.side, position.entry_price@, exit_price@, position.size@),
        r.1 == if units(r.0@) > 0 {
            TradeOutcome::Win
        } else if units(r.0@) < 0 {
            TradeOutcome::Loss
        } else {
            TradeOutcome::Breakeven
        },
        close_exact(position.entry_price@, exit_price@, position.size@) ==> units(r.0@) * pow10(28) == (units(
            exit_price@,
        ) - units(position.entry_price@)) * units(position.size@) * (if position.side == Side::Long {
            1int
        } else {
            -1int
        }),
{
    let entry = position.entry_price;
    let size = position.size;
    proof {
        use_type_invariant(&entry);
        use_type_invariant(&exit_price);
        use_type_invariant(&size);
        entry.lemma_wf_in_range();
        exit_price.lemma_wf_in_range();
        size.lemma_wf_in_range();
    }
    let ghost s: int = if entry@.1 >= exit_price@.1 {
        entry@.1
    } else {
        exit_price@.1
    };
    let ghost z: int = at_scale(exit_price@, s) - at_scale(entry@, s);
    proof {
        lemma_at_scale_bound(exit_price@, s);
        lemma_at_scale_bound(entry@, s);
        crate::decimal::lemma_pow10_pos((28 - s) as nat);
        assert(units(exit_price@) - units(entry@) == z * pow10((28 - s) as nat)) by (nonlinear_arith)
            requires
                at_scale(exit_price@, s) * pow10((28 - s) as nat) == units(exit_price@),
                at_scale(entry@, s) * pow10((28 - s) as nat) == units(entry@),
                z == at_scale(exit_price@, s) - at_scale(entry@, s),
        ;
    }
    let pnl = if position.side == Side::Long {
        let d = exit_price.sub(entry);
        proof {
            use_type_invariant(&d);
            d.lemma_wf_in_range();
            if close_exact(entry@, exit_price@, size@) {
                lemma_close_exact(d@, size@, s, z, 0);
                lemma_mul_units(d@, size@);
            }
        }
        let p = d.mul(size);
        proof {
            if close_exact(entry@, exit_price@, size@) {
                assert(units(p@) * pow10(28) == (units(exit_price@) - units(entry@)) * units(size@) * 1int)
                    by (nonlinear_arith)
                    requires
                        units(p@) == d@.0 * size@.0 * pow10((28 - d@.1 - size@.1) as nat),
                        d@.0 * size@.0 * pow10((28 - d@.1 - size@.1) as nat) * pow10(28) == units(d@) * units(size@),
                        units(d@) == units(exit_price@) - units(entry@),
                ;
            }
        }
        p
    } else {
        let d = entry.sub(exit_price);
        proof {
            use_type_invariant(&d);
            d.lemma_wf_in_range();
            if close_exact(entry@, exit_price@, size@) {
                assert(add_exact(entry@, exit_price@, false));
                assert(units(d@) == (-z) * pow10((28 - s) as nat)) by (nonlinear_arith)
                    requires
                        units(d@) == units(entry@) - units(exit_price@),
                        units(exit_price@) - units(entry@) == z * pow10((28 - s) as nat),
                ;
                assert(-MAX_MANTISSA <= (-z) * size@.0 <= MAX_MANTISSA) by (nonlinear_arith)
                    requires
                        -MAX_MANTISSA <= z * size@.0 <= MAX_MANTISSA,
                ;
                lemma_close_exact(d@, size@, s, -z, 0);
                lemma_mul_units(d@, size@);
            }
        }
        let p = d.mul(size);
        proof {
            if close_exact(entry@, exit_price@, size@) {
                assert(units(p@) * pow10(28) == (units(exit_price@) - units(entry@)) * units(size@) * (-1int))
                    by (nonlinear_arith)
                    requires
                        units(p@) == d@.0 * size@.0 * pow10((28 - d@.1 - size@.1) as nat),
                        d@.0 * size@.0 * pow10((28 - d@.1 - size@.1) as nat) * pow10(28) == units(d@) * units(size@),
                        units(d@) == units(entry@) - units(exit_price@),
                ;
            }
        }
        p
    };
    let outcome = if pnl.is_sign_positive() && !pnl.is_zero() {
        TradeOutcome::Win
    } else if pnl.is_sign_negative() {
        TradeOutcome::Loss
    } else {
        TradeOutcome::Breakeven
    };
    (pnl, outcome)
}

/// An order waiting for its fill; the time is in seconds since the epoch.
#[derive(Debug, Clone)]
pub struct PendingOrder {
    pub order_id: String,
    pub venue: Venue,
    pub submitted_at: i64,
}

/// Index of the pending order of a symbol.
pub open spec fn pending_index(p: Seq<(Seq<char>, PendingOrder)>, symbol: Seq<char>) -> Option<int>
    decreases p.len(),
{
    if p.len() == 0 {
        None
    } else if p[0].0 == symbol {
        Some(0)
    } else {
        match pending_index(p.drop_first(), symbol) {
            Some(i) => Some(i + 1),
            None => None,
        }
    }
}

proof fn lemma_pending_index(p: Seq<(Seq<char>, PendingOrder)>, symbol: Seq<char>, i: int)
    requires
        0 <= i <= p.len(),
        forall|j: int| 0 <= j < i ==> (#[trigger] p[j]).0 != symbol,
        i < p.len() ==> p[i].0 == symbol,
    ensures
        pending_index(p, symbol) == if i == p.len() {
            None::<int>
        } else {
            Some(i)
        },
    decreases p.len(),
{
    if p.len() > 0 && i > 0 {
        assert forall|j: int| 0 <= j < i - 1 implies (#[trigger] p.drop_first()[j]).0 != symbol by {
            assert(p.drop_first()[j] == p[j + 1]);
        }
        lemma_pending_index(p.drop_first(), symbol, i - 1);
    }
}

/// Live executor state: whether the exchange client and the signer are
/// set up, and the orders waiting for a fill, one per symbol.
pub struct LiveExecutor {
    config: LiveExecutorConfig,
    okx_client: Option<OkxApiClient>,
    signer_ready: bool,
    pending_orders: Vec<(String, PendingOrder)>,
}

impl LiveExecutor {
    pub closed spec fn config_spec(&self) -> LiveExecutorConfig {
        self.config
    }

    pub closed spec fn okx_ready(&self) -> bool {
        self.okx_client is Some
    }

    pub closed spec fn signer_spec(&self) -> bool {
        self.signer_ready
    }

    /// The pending orders with their symbols.
    pub closed spec fn pending(&self) -> Seq<(Seq<char>, PendingOrder)> {
        self.pending_orders@.map_values(|e: (String, PendingOrder)| (e.0@, e.1))
    }

    pub fn new(config: LiveExecutorConfig) -> (r: LiveExecutor)
        ensures
            r.config_spec() == config,
            !r.okx_ready() && !r.signer_spec(),
            r.pending().len() == 0,
    {
        LiveExecutor { config, okx_client: None, signer_ready: false, pending_orders: Vec::new() }
    }

    pub fn config(&self) -> (r: &LiveExecutorConfig)
        ensures
            *r == self.config_spec(),
    {
        &self.config
    }

    /// Sets up the exchange client when the exchange is enabled; `okx` is
    /// the configuration read from the environment, whose error is returned.
    pub fn with_okx(self, okx: Result<OkxApiConfig, String>) -> (r: Result<LiveExecutor, String>)
        ensures
            !self.config_spec().okx_enabled ==> (r matches Ok(x) && x.okx_ready() == self.okx_ready()
                && x.signer_spec() == self.signer_spec() && x.config_spec() == self.config_spec()
                && x.pending() == self.pending()),
            self.config_spec().okx_enabled ==> match okx {
                Ok(_) => r matches Ok(x) && x.okx_ready() && x.signer_spec() == self.signer_spec()
                    && x.config_spec() == self.config_spec() && x.pending() == self.pending(),
                Err(e) => r matches Err(m) && m@ == e@,
            },
    {
        let mut s = self;
        if s.config.okx_enabled {
            match okx {
                Ok(c) => {
                    s.okx_client = Some(OkxApiClient::new(c));
                },
                Err(e) => {
                    return Err(e);
                },
            }
        }
        Ok(s)
    }

    /// Records the signer when the DEX is enabled; `signer` is the outcome
    /// of creating it from the environment, whose error is returned.
    pub fn with_xlayer_signer(self, signer: Result<(), String>) -> (r: Result<LiveExecutor, String>)
        ensures
            !self.config_spec().dex_enabled ==> (r matches Ok(x) && x.okx_ready() == self.okx_ready()
                && x.signer_spec() == self.signer_spec() && x.config_spec() == self.config_spec()
                && x.pending() == self.pending()),
            self.config_spec().dex_enabled ==> match signer {
                Ok(_) => r matches Ok(x) && x.signer_spec() && x.okx_ready() == self.okx_ready()
                    && x.config_spec() == self.config_spec() && x.pending() == self.pending(),
                Err(e) => r matches Err(m) && m@ == e@,
            },
    {
        let mut s = self;
        if s.config.dex_enabled {
            match signer {
                Ok(_) => {
                    s.signer_ready = true;
                },
                Err(e) => {
                    return Err(e);
                },
            }
        }
        Ok(s)
    }

    /// Ready when an enabled venue is set up.
    pub fn is_ready(&self) -> (r: bool)
        ensures
            r == ((self.config_spec().okx_enabled && self.okx_ready()) || (self.config_spec().dex_enabled
                && self.signer_spec())),
    {
        (self.config.okx_enabled && self.okx_client.is_some()) || (self.config.dex_enabled && self.signer_ready)
    }

    /// The venues that are set up.
    pub fn available_venues(&self) -> (r: Vec<Venue>)
        ensures
            r@ == (if self.okx_ready() {
                seq![Venue::OkxCex]
            } else {
                Seq::empty()
            }) + (if self.signer_spec() {
                seq![Venue::XLayerDex, Venue::Cod3xLending]
            } else {
                Seq::empty()
            }),
    {
        let mut venues: Vec<Venue> = Vec::new();
        if self.okx_client.is_some() {
            venues.push(Venue::OkxCex);
        }
        if self.signer_ready {
            venues.push(Venue::XLayerDex);
            venues.push(Venue::Cod3xLending);
        }
        proof {
            assert(venues@ =~= (if self.okx_ready() {
                seq![Venue::OkxCex]
            } else {
                Seq::empty()
            }) + (if self.signer_spec() {
                seq![Venue::XLayerDex, Venue::Cod3xLending]
            } else {
                Seq::empty()
            }));
        }
        venues
    }

    /// The exchange client, if set up.
    pub fn okx_client(&self) -> (r: Option<&OkxApiClient>)
        ensures
            r is Some == self.okx_ready(),
    {
        match &self.okx_client {
            Some(c) => Some(c),
            None => None,
        }
    }

    /// The venue an order goes to, after its checks (see `order_error`).
    pub fn execution_venue(&self, order: &Order, market_price: Dec) -> (r: Result<Venue, String>)
        requires
            !(order.limit_price is Some && units(order.size@) > 0 && units(market_price@) == 0 && units(
                self.config_spec().min_order_usd@,
            ) <= 0 && units(self.config_spec().max_order_usd@) >= 0),
        ensures
            match order_error(self.config_spec(), order.size@, market_price@) {
                Some(e) => r matches Err(m) && m@ == e,
                None => r matches Ok(v) && v == venue_of(order.symbol@),
            },
    {
        match validate_order(&self.config, order, market_price) {
            Err(e) => Err(e),
            Ok(()) => Ok(Venue::from_symbol(order.symbol.as_str())),
        }
    }

    fn find_pending(&self, symbol: &str) -> (r: Option<usize>)
        ensures
            match pending_index(self.pending(), symbol@) {
                Some(i) => r matches Some(k) && k as int == i,
                None => r is None,
            },
            r matches Some(i) ==> i < self.pending_orders@.len(),
    {
        let ghost p = self.pending();
        let mut i: usize = 0;
        while i < self.pending_orders.len()
            invariant
                i <= self.pending_orders.len(),
                p == self.pending(),
                p.len() == self.pending_orders@.len(),
                forall|j: int| 0 <= j < i ==> (#[trigger] p[j]).0 != symbol@,
            decreases self.pending_orders.len() - i,
        {
            if str_eq(self.pending_orders[i].0.as_str(), symbol) {
                proof {
                    lemma_pending_index(p, symbol@, i as int);
                }
                return Some(i);
            }
            i = i + 1;
        }
        proof {
            lemma_pending_index(p, symbol@, i as int);
        }
        None
    }

    /// Records the order waiting for a fill on a symbol, replacing an
    /// earlier one.
    pub fn track_pending(&mut self, symbol: &str, order_id: &str, venue: Venue, submitted_at: i64)
        ensures
            final(self).config_spec() == old(self).config_spec(),
            final(self).okx_ready() == old(self).okx_ready(),
            final(self).signer_spec() == old(self).signer_spec(),
            final(self).pending().len() == old(self).pending().len() + if pending_index(
                old(self).pending(),
                symbol@,
            ) is Some {
                0int
            } else {
                1int
            },
            pending_index(final(self).pending(), symbol@) matches Some(i) && final(self).pending()[i].1.order_id@
                == order_id@ && final(self).pending()[i].1.venue == venue,
    {
        let entry = PendingOrder { order_id: order_id.to_owned(), venue, submitted_at };
        let ghost p = self.pending();
        match self.find_pending(symbol) {
            Some(i) => {
                self.pending_orders.set(i, (symbol.to_owned(), entry));
                proof {
                    let q = self.pending();
                    lemma_pending_index_first(p, symbol@);
                    assert(forall|j: int| 0 <= j < i ==> (#[trigger] q[j]).0 == p[j].0);
                    lemma_pending_index(q, symbol@, i as int);
                }
            },
            None => {
                self.pending_orders.push((symbol.to_owned(), entry));
                proof {
                    let q = self.pending();
                    lemma_pending_index_none(p, symbol@);
                    assert(forall|j: int| 0 <= j < p.len() ==> (#[trigger] q[j]).0 == p[j].0);
                    lemma_pending_index(q, symbol@, p.len() as int);
                }
            },
        }
    }

    /// Forgets the pending order of a symbol.
    pub fn clear_pending(&mut self, symbol: &str)
        ensures
            final(self).config_spec() == old(self).config_spec(),
            final(self).okx_ready() == old(self).okx_ready(),
            final(self).signer_spec() == old(self).signer_spec(),
            match pending_index(old(self).pending(), symbol@) {
                Some(i) => final(self).pending() == old(self).pending().remove(i),
                None => final(self).pending() == old(self).pending(),
            },
    {
        let ghost p = self.pending();
        match self.find_pending(symbol) {
            Some(i) => {
                self.pending_orders.remove(i);
                proof {
                    assert(self.pending() =~= p.remove(i as int));
                }
            },
            None => {},
        }
    }

    /// Whether an order of the symbol waits for a fill.
    pub fn has_pending_order(&self, symbol: &str) -> (r: bool)
        ensures
            r == pending_index(self.pending(), symbol@) is Some,
    {
        self.find_pending(symbol).is_some()
    }

    /// The id and venue of the symbol's pending order, if any.
    pub fn pending_order(&self, symbol: &str) -> (r: Option<(String, Venue)>)
        ensures
            match pending_index(self.pending(), symbol@) {
                Some(i) => r matches Some(x) && x.0@ == self.pending()[i].1.order_id@ && x.1 == self.pending()[i].1.venue,
                None => r is None,
            },
    {
        match self.find_pending(symbol) {
            Some(i) => Some((self.pending_orders[i].1.order_id.clone(), self.pending_orders[i].1.venue)),
            None => None,
        }
    }
}

proof fn lemma_pending_index_first(p: Seq<(Seq<char>, PendingOrder)>, symbol: Seq<char>)
    requires
        pending_index(p, symbol) is Some,
    ensures
        0 <= pending_index(p, symbol).unwrap() < p.len(),
        p[pending_index(p, symbol).unwrap()].0 == symbol,
        forall|j: int| 0 <= j < pending_index(p, symbol).unwrap() ==> (#[trigger] p[j]).0 != symbol,
    decreases p.len(),
{
    if p.len() > 0 && p[0].0 != symbol {
        lemma_pending_index_first(p.drop_first(), symbol);
        assert forall|j: int| 0 <= j < pending_index(p, symbol).unwrap() implies (#[trigger] p[j]).0 != symbol by {
            if j > 0 {
                assert(p[j] == p.drop_first()[j - 1]);
            }
        }
    }
}

proof fn lemma_pending_index_none(p: Seq<(Seq<char>, PendingOrder)>, symbol: Seq<char>)
    requires
        pending_index(p, symbol) is None,
    ensures
        forall|j: int| 0 <= j < p.len() ==> (#[trigger] p[j]).0 != symbol,
    decreases p.len(),
{
    if p.len() > 0 {
        lemma_pending_index_none(p.drop_first(), symbol);
        assert forall|j: int| 0 <= j < p.len() implies (#[trigger] p[j]).0 != symbol by {
            if j > 0 {
                assert(p[j] == p.drop_first()[j - 1]);
            }
        }
    }
}


/// The pending order of a symbol is the first entry recorded for it.
pub proof fn lemma_pending_found(p: Seq<(Seq<char>, PendingOrder)>, symbol: Seq<char>)
    ensures
        pending_index(p, symbol) matches Some(i) ==> 0 <= i < p.len() && p[i].0 == symbol,
        pending_index(p, symbol) is None ==> forall|j: int| 0 <= j < p.len() ==> (#[trigger] p[j]).0 != symbol,
{
    if pending_index(p, symbol) is Some {
        lemma_pending_index_first(p, symbol);
    } else {
        lemma_pending_index_none(p, symbol);
    }
}

} // verus!
