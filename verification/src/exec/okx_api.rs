//! Requests to the OKX exchange: configuration, request signing, the
//! requests themselves and the reading of replies.  Sending them is left to
//! the caller.
use crate::decimal::{dint, decimal_parsed, decimal_text, Dec};
use crate::market::Side;
use crate::text::str_eq;
use base64::Engine;
use hmac::{Hmac, Mac};
use sha2::Sha256;
use vstd::prelude::*;

verus! {

/// OKX API configuration.
#[derive(Debug, Clone)]
pub struct OkxApiConfig {
    pub api_key: String,
    pub api_secret: String,
    pub passphrase: String,
    /// Whether orders go to simulated trading.
    pub simulated: bool,
    pub base_url: String,
}

/// Whether a text turns simulated trading on: `true` or `1`.
pub open spec fn simulated_flag(v: Option<String>) -> bool {
    match v {
        Some(s) => s@ == "true"@ || s@ == "1"@,
        None => false,
    }
}

impl OkxApiConfig {
    /// A configuration from the values of the variables `OKX_API_KEY`,
    /// `OKX_API_SECRET`, `OKX_PASSPHRASE` and `OKX_SIMULATED`; the first of
    /// the three required ones that is missing is reported.
    pub fn from_env_values(
        api_key: Option<String>,
        api_secret: Option<String>,
        passphrase: Option<String>,
        simulated: Option<String>,
    ) -> (r: Result<OkxApiConfig, String>)
        ensures
            match (api_key, api_secret, passphrase) {
                (Some(k), Some(s), Some(p)) => r matches Ok(c) && c.api_key@ == k@ && c.api_secret@
                    == s@ && c.passphrase@ == p@ && c.simulated == simulated_flag(simulated)
                    && c.base_url@ == "https://www.okx.com"@,
                (None, _, _) => r matches Err(e) && e@ == "OKX_API_KEY not set"@,
                (Some(_), None, _) => r matches Err(e) && e@ == "OKX_API_SECRET not set"@,
                (Some(_), Some(_), None) => r matches Err(e) && e@ == "OKX_PASSPHRASE not set"@,
            },
    {
        let api_key = match api_key {
            Some(k) => k,
            None => return Err("OKX_API_KEY not set".to_owned()),
        };
        let api_secret = match api_secret {
            Some(s) => s,
            None => return Err("OKX_API_SECRET not set".to_owned()),
        };
        let passphrase = match passphrase {
            Some(p) => p,
            None => return Err("OKX_PASSPHRASE not set".to_owned()),
        };
        let simulated = match &simulated {
            Some(v) => str_eq(v.as_str(), "true") || str_eq(v.as_str(), "1"),
            None => false,
        };
        Ok(
            OkxApiConfig {
                api_key,
                api_secret,
                passphrase,
                simulated,
                base_url: "https://www.okx.com".to_owned(),
            },
        )
    }

    /// The same configuration for simulated (demo) trading.
    pub fn demo(config: OkxApiConfig) -> (r: OkxApiConfig)
        ensures
            r == (OkxApiConfig { simulated: true, ..config }),
    {
        let mut c = config;
        c.simulated = true;
        c
    }
}

/// The HMAC-SHA256 tag of a message under a key, both taken as UTF-8 bytes.
pub uninterp spec fn hmac_sha256_of(key: Seq<char>, msg: Seq<char>) -> Seq<u8>;

/// A base64 digit of the standard alphabet: `A`-`Z`, `a`-`z`, `0`-`9`,
/// `+`, `/`.
pub open spec fn base64_digit(v: int) -> char {
    if v < 26 {
        (65 + v) as char
    } else if v < 52 {
        (97 + v - 26) as char
    } else if v < 62 {
        (48 + v - 52) as char
    } else if v == 62 {
        '+'
    } else {
        '/'
    }
}

/// The standard base64 text of some bytes: each group of three bytes gives
/// four digits of six bits each, a last group of one or two bytes is padded
/// with `=` to four characters.
pub open spec fn base64_of(b: Seq<u8>) -> Seq<char>
    decreases b.len(),
{
    if b.len() == 0 {
        seq![]
    } else if b.len() == 1 {
        let n = b[0] as int;
        seq![base64_digit(n / 4), base64_digit((n % 4) * 16), '=', '=']
    } else if b.len() == 2 {
        let n = b[0] as int * 256 + b[1] as int;
        seq![base64_digit(n / 1024), base64_digit((n / 16) % 64), base64_digit((n % 16) * 4), '=']
    } else {
        let n = b[0] as int * 65536 + b[1] as int * 256 + b[2] as int;
        seq![
            base64_digit(n / 262144),
            base64_digit((n / 4096) % 64),
            base64_digit((n / 64) % 64),
            base64_digit(n % 64),
        ] + base64_of(b.subrange(3, b.len() as int))
    }
}

/// Calls `Hmac::<Sha256>::new_from_slice` (which accepts any key length),
/// `update` and `finalize`; claims the result is the named tag of the key's
/// and the message's bytes, 32 bytes long.
#[verifier::external_body]
fn hmac_sha256(key: &str, msg: &str) -> (r: Vec<u8>)
    ensures
        r@ == hmac_sha256_of(key@, msg@),
        r@.len() == 32,
{
    let mut mac = <Hmac<Sha256> as Mac>::new_from_slice(key.as_bytes()).expect(
        "HMAC can take key of any size",
    );
    mac.update(msg.as_bytes());
    mac.finalize().into_bytes().to_vec()
}

/// Calls `base64::engine::general_purpose::STANDARD.encode`; claims the
/// result is the standard, padded base64 text of the bytes (see
/// `base64_of`).
#[verifier::external_body]
fn base64_encode(bytes: &Vec<u8>) -> (r: String)
    ensures
        r@ == base64_of(bytes@),
{
    base64::engine::general_purpose::STANDARD.encode(bytes)
}

/// The text an OKX request is signed over.
pub open spec fn prehash(timestamp: Seq<char>, method: Seq<char>, path: Seq<char>, body: Seq<char>) -> Seq<char> {
    timestamp + method + path + body
}

/// The signature of a request: base64 of its HMAC-SHA256 under the secret.
pub open spec fn signature_of(
    secret: Seq<char>,
    timestamp: Seq<char>,
    method: Seq<char>,
    path: Seq<char>,
    body: Seq<char>,
) -> Seq<char> {
    base64_of(hmac_sha256_of(secret, prehash(timestamp, method, path, body)))
}

/// Order side.
#[derive(Debug, Clone, Copy, PartialEq, Eq, Structural)]
pub enum OrderSide {
    Buy,
    Sell,
}

/// Name of an order side in requests.
pub open spec fn side_text(s: OrderSide) -> Seq<char> {
    match s {
        OrderSide::Buy => "buy"@,
        OrderSide::Sell => "sell"@,
    }
}

impl OrderSide {
    /// Name of the side in requests.
    pub fn to_string(&self) -> (r: String)
        ensures
            r@ == side_text(*self),
    {
        match self {
            OrderSide::Buy => "buy".to_owned(),
            OrderSide::Sell => "sell".to_owned(),
        }
    }
}

/// The order side that opens a position on a side.
pub open spec fn order_side_of(side: Side) -> OrderSide {
    match side {
        Side::Long => OrderSide::Buy,
        Side::Short => OrderSide::Sell,
    }
}

impl From<Side> for OrderSide {
    fn from(side: Side) -> (r: OrderSide) {
        match side {
            Side::Long => OrderSide::Buy,
            Side::Short => OrderSide::Sell,
        }
    }
}

impl vstd::std_specs::convert::FromSpecImpl<Side> for OrderSide {
    open spec fn obeys_from_spec() -> bool {
        true
    }

    open spec fn from_spec(side: Side) -> OrderSide {
        order_side_of(side)
    }
}

/// Request to place an order.
#[derive(Debug, Clone)]
pub struct PlaceOrderRequest {
    pub inst_id: String,
    pub td_mode: String,
    pub side: String,
    pub ord_type: String,
    pub sz: String,
    pub px: Option<String>,
    pub cl_ord_id: Option<String>,
}

/// Request to cancel an order.
#[derive(Debug, Clone)]
pub struct CancelOrderRequest {
    pub inst_id: String,
    pub ord_id: Option<String>,
    pub cl_ord_id: Option<String>,
}

/// Reply to a placed order.
#[derive(Debug, Clone)]
pub struct OrderResponse {
    pub ord_id: String,
    pub cl_ord_id: String,
    pub tag: String,
    pub s_code: String,
    pub s_msg: String,
}

/// Reply to a cancelled order.
#[derive(Debug, Clone)]
pub struct CancelResponse {
    pub ord_id: String,
    pub cl_ord_id: String,
    pub s_code: String,
    pub s_msg: String,
}

/// Details of an order.
#[derive(Debug, Clone)]
pub struct OrderDetail {
    pub inst_id: String,
    pub ord_id: String,
    pub cl_ord_id: String,
    pub side: String,
    pub ord_type: String,
    pub sz: String,
    pub px: String,
    pub avg_px: String,
    pub acc_fill_sz: String,
    pub state: String,
    pub fee: String,
    pub fee_ccy: String,
    pub u_time: String,
    pub c_time: String,
}

/// The decimal a text reads as, zero where it reads as none.
pub open spec fn decimal_or_zero(s: Seq<char>) -> (int, int) {
    match decimal_parsed(s) {
        Some(v) => v,
        None => dint(0),
    }
}

fn parse_or_zero(s: &str) -> (r: Dec)
    ensures
        r@ == decimal_or_zero(s@),
{
    match Dec::parse(s) {
        Some(d) => d,
        None => Dec::zero(),
    }
}

impl OrderDetail {
    /// Average fill price (zero when unreadable).
    pub fn fill_price(&self) -> (r: Dec)
        ensures
            r@ == decimal_or_zero(self.avg_px@),
    {
        parse_or_zero(self.avg_px.as_str())
    }

    /// Filled size (zero when unreadable).
    pub fn fill_size(&self) -> (r: Dec)
        ensures
            r@ == decimal_or_zero(self.acc_fill_sz@),
    {
        parse_or_zero(self.acc_fill_sz.as_str())
    }

    /// Fee (zero when unreadable).
    pub fn fee(&self) -> (r: Dec)
        ensures
            r@ == decimal_or_zero(self.fee@),
    {
        parse_or_zero(self.fee.as_str())
    }

    /// Whether the order is filled.
    pub fn is_filled(&self) -> (r: bool)
        ensures
            r == (self.state@ == "filled"@),
    {
        str_eq(self.state.as_str(), "filled")
    }
}

/// Balance of one currency.
#[derive(Debug, Clone)]
pub struct BalanceData {
    pub ccy: String,
    pub bal: String,
    pub avail_bal: String,
    pub frozen_bal: String,
}

impl BalanceData {
    /// Available balance (zero when unreadable).
    pub fn available(&self) -> (r: Dec)
        ensures
            r@ == decimal_or_zero(self.avail_bal@),
    {
        parse_or_zero(self.avail_bal.as_str())
    }

    /// Total balance (zero when unreadable).
    pub fn total(&self) -> (r: Dec)
        ensures
            r@ == decimal_or_zero(self.bal@),
    {
        parse_or_zero(self.bal.as_str())
    }
}

/// OKX API client: the configuration it signs and addresses requests with.
pub struct OkxApiClient {
    config: OkxApiConfig,
}

/// The authentication headers of a request, in order: key, signature,
/// time, passphrase, content type, and the simulated-trading flag when
/// trading is simulated.
pub open spec fn auth_headers_of(
    c: OkxApiConfig,
    timestamp: Seq<char>,
    method: Seq<char>,
    path: Seq<char>,
    body: Seq<char>,
) -> Seq<(Seq<char>, Seq<char>)> {
    seq![
        ("OK-ACCESS-KEY"@, c.api_key@),
        ("OK-ACCESS-SIGN"@, signature_of(c.api_secret@, timestamp, method, path, body)),
        ("OK-ACCESS-TIMESTAMP"@, timestamp),
        ("OK-ACCESS-PASSPHRASE"@, c.passphrase@),
        ("content-type"@, "application/json"@),
    ] + if c.simulated {
        seq![("x-simulated-trading"@, "1"@)]
    } else {
        Seq::empty()
    }
}

/// The texts of a list of header pairs.
pub open spec fn pairs(v: Seq<(String, String)>) -> Seq<(Seq<char>, Seq<char>)> {
    v.map_values(|p: (String, String)| (p.0@, p.1@))
}

fn pair(a: &str, b: String) -> (r: (String, String))
    ensures
        r.0@ == a@,
        r.1@ == b@,
{
    (a.to_owned(), b)
}

/// The next step of waiting for a fill, from the order's state: filled
/// (`Ok(true)`), still open and within the time (`Ok(false)`: ask again),
/// or an error.
pub open spec fn fill_step_of(state: Seq<char>, timed_out: bool) -> Result<bool, Seq<char>> {
    if state == "filled"@ {
        Ok(true)
    } else if state == "canceled"@ || state == "cancelled"@ {
        Err("Order was cancelled"@)
    } else if state == "live"@ || state == "partially_filled"@ {
        if timed_out {
            Err("Order fill timeout"@)
        } else {
            Ok(false)
        }
    } else {
        Err("Unexpected order state: "@ + state)
    }
}

/// The next step of waiting for a fill (see `fill_step_of`).
pub fn fill_step(state: &str, timed_out: bool) -> (r: Result<bool, String>)
    ensures
        match (r, fill_step_of(state@, timed_out)) {
            (Ok(a), Ok(b)) => a == b,
            (Err(a), Err(b)) => a@ == b,
            _ => false,
        },
{
    if str_eq(state, "filled") {
        Ok(true)
    } else if str_eq(state, "canceled") || str_eq(state, "cancelled") {
        Err("Order was cancelled".to_owned())
    } else if str_eq(state, "live") || str_eq(state, "partially_filled") {
        if timed_out {
            Err("Order fill timeout".to_owned())
        } else {
            Ok(false)
        }
    } else {
        let mut e = "Unexpected order state: ".to_owned();
        e.append(state);
        Err(e)
    }
}

/// The first item of a reply with code `0`; otherwise the error that names
/// the reply's code and message, or `missing` when the reply holds nothing.
fn first_reply<T>(code: &str, msg: &str, data: Vec<T>, error_prefix: &str, with_code: bool, missing: &str) -> (r: Result<T, String>)
    ensures
        code@ != "0"@ ==> (r matches Err(e) && e@ == error_prefix@ + if with_code {
            code@ + " - "@ + msg@
        } else {
            msg@
        }),
        code@ == "0"@ && data@.len() == 0 ==> (r matches Err(e) && e@ == missing@),
        code@ == "0"@ && data@.len() > 0 ==> r == Ok::<T, String>(data@[0]),
{
    if !str_eq(code, "0") {
        let mut e = error_prefix.to_owned();
        if with_code {
            e.append(code);
            e.append(" - ");
        }
        e.append(msg);
        return Err(e);
    }
    let mut data = data;
    if data.len() == 0 {
        return Err(missing.to_owned());
    }
    Ok(data.remove(0))
}

impl OkxApiClient {
    /// The configuration.
    pub closed spec fn config_spec(&self) -> OkxApiConfig {
        self.config
    }

    pub fn new(config: OkxApiConfig) -> (r: OkxApiClient)
        ensures
            r.config_spec() == config,
    {
        OkxApiClient { config }
    }

    /// The configuration.
    pub fn config(&self) -> (r: &OkxApiConfig)
        ensures
            *r == self.config_spec(),
    {
        &self.config
    }

    /// The signature of a request (see `signature_of`).
    pub fn sign(&self, timestamp: &str, method: &str, path: &str, body: &str) -> (r: String)
        ensures
            r@ == signature_of(self.config_spec().api_secret@, timestamp@, method@, path@, body@),
    {
        let mut pre = timestamp.to_owned();
        pre.append(method);
        pre.append(path);
        pre.append(body);
        let tag = hmac_sha256(self.config.api_secret.as_str(), pre.as_str());
        base64_encode(&tag)
    }

    /// The authentication headers of a request (see `auth_headers_of`).
    pub fn auth_headers(&self, timestamp: &str, method: &str, path: &str, body: &str) -> (r: Vec<
        (String, String),
    >)
        ensures
            pairs(r@) == auth_headers_of(self.config_spec(), timestamp@, method@, path@, body@),
    {
        let signature = self.sign(timestamp, method, path, body);
        let mut headers: Vec<(String, String)> = vec![
            pair("OK-ACCESS-KEY", self.config.api_key.clone()),
            pair("OK-ACCESS-SIGN", signature),
            pair("OK-ACCESS-TIMESTAMP", timestamp.to_owned()),
            pair("OK-ACCESS-PASSPHRASE", self.config.passphrase.clone()),
            pair("content-type", "application/json".to_owned()),
        ];
        if self.config.simulated {
            headers.push(pair("x-simulated-trading", "1".to_owned()));
        }
        proof {
            assert(pairs(headers@) =~= auth_headers_of(
                self.config_spec(),
                timestamp@,
                method@,
                path@,
                body@,
            ));
        }
        headers
    }

    /// Full address of a path.
    pub fn url(&self, path: &str) -> (r: String)
        ensures
            r@ == self.config_spec().base_url@ + path@,
    {
        let mut u = self.config.base_url.clone();
        u.append(path);
        u
    }

    /// Request for a spot market order.
    pub fn market_order_request(symbol: &str, side: OrderSide, size: Dec) -> (r: PlaceOrderRequest)
        ensures
            r.inst_id@ == symbol@,
            r.td_mode@ == "cash"@,
            r.side@ == side_text(side),
            r.ord_type@ == "market"@,
            r.sz@ == decimal_text(size@),
            r.px is None,
            r.cl_ord_id is None,
    {
        PlaceOrderRequest {
            inst_id: symbol.to_owned(),
            td_mode: "cash".to_owned(),
            side: side.to_string(),
            ord_type: "market".to_owned(),
            sz: size.to_text(),
            px: None,
            cl_ord_id: None,
        }
    }

    /// Request for a spot limit order.
    pub fn limit_order_request(symbol: &str, side: OrderSide, size: Dec, price: Dec) -> (r:
        PlaceOrderRequest)
        ensures
            r.inst_id@ == symbol@,
            r.td_mode@ == "cash"@,
            r.side@ == side_text(side),
            r.ord_type@ == "limit"@,
            r.sz@ == decimal_text(size@),
            r.px matches Some(p) && p@ == decimal_text(price@),
            r.cl_ord_id is None,
    {
        PlaceOrderRequest {
            inst_id: symbol.to_owned(),
            td_mode: "cash".to_owned(),
            side: side.to_string(),
            ord_type: "limit".to_owned(),
            sz: size.to_text(),
            px: Some(price.to_text()),
            cl_ord_id: None,
        }
    }

    /// Request to cancel an order.
    pub fn cancel_request(symbol: &str, order_id: &str) -> (r: CancelOrderRequest)
        ensures
            r.inst_id@ == symbol@,
            r.ord_id matches Some(o) && o@ == order_id@,
            r.cl_ord_id is None,
    {
        CancelOrderRequest {
            inst_id: symbol.to_owned(),
            ord_id: Some(order_id.to_owned()),
            cl_ord_id: None,
        }
    }

    /// Path that asks for an order's details.
    pub fn order_path(symbol: &str, order_id: &str) -> (r: String)
        ensures
            r@ == "/api/v5/trade/order?instId="@ + symbol@ + "&ordId="@ + order_id@,
    {
        let mut p = "/api/v5/trade/order?instId=".to_owned();
        p.append(symbol);
        p.append("&ordId=");
        p.append(order_id);
        p
    }

    /// Path that asks for the balances, of one currency or of all.
    pub fn balance_path(currency: Option<&str>) -> (r: String)
        ensures
            r@ == match currency {
                Some(c) => "/api/v5/account/balance?ccy="@ + c@,
                None => "/api/v5/account/balance"@,
            },
    {
        match currency {
            Some(c) => {
                let mut p = "/api/v5/account/balance?ccy=".to_owned();
                p.append(c);
                p
            },
            None => "/api/v5/account/balance".to_owned(),
        }
    }

    /// The placed order a reply reports (see `first_reply`).
    pub fn order_reply(code: &str, msg: &str, data: Vec<OrderResponse>) -> (r: Result<OrderResponse, String>)
        ensures
            code@ != "0"@ ==> (r matches Err(e) && e@ == "OKX error: "@ + code@ + " - "@ + msg@),
            code@ == "0"@ && data@.len() == 0 ==> (r matches Err(e) && e@ == "No order data in response"@),
            code@ == "0"@ && data@.len() > 0 ==> r == Ok::<OrderResponse, String>(data@[0]),
    {
        first_reply(code, msg, data, "OKX error: ", true, "No order data in response")
    }

    /// The cancelled order a reply reports.
    pub fn cancel_reply(code: &str, msg: &str, data: Vec<CancelResponse>) -> (r: Result<CancelResponse, String>)
        ensures
            code@ != "0"@ ==> (r matches Err(e) && e@ == "Cancel error: "@ + code@ + " - "@ + msg@),
            code@ == "0"@ && data@.len() == 0 ==> (r matches Err(e) && e@ == "No cancel data in response"@),
            code@ == "0"@ && data@.len() > 0 ==> r == Ok::<CancelResponse, String>(data@[0]),
    {
        first_reply(code, msg, data, "Cancel error: ", true, "No cancel data in response")
    }

    /// The order details a reply reports.
    pub fn order_detail_reply(code: &str, msg: &str, data: Vec<OrderDetail>) -> (r: Result<OrderDetail, String>)
        ensures
            code@ != "0"@ ==> (r matches Err(e) && e@ == "Get order error: "@ + msg@),
            code@ == "0"@ && data@.len() == 0 ==> (r matches Err(e) && e@ == "Order not found"@),
            code@ == "0"@ && data@.len() > 0 ==> r == Ok::<OrderDetail, String>(data@[0]),
    {
        first_reply(code, msg, data, "Get order error: ", false, "Order not found")
    }

    /// The balances a reply reports: the details of every account, in order.
    pub fn balance_reply(code: &str, msg: &str, accounts: Vec<Vec<BalanceData>>) -> (r: Result<
        Vec<BalanceData>,
        String,
    >)
        ensures
            code@ != "0"@ ==> (r matches Err(e) && e@ == "Balance error: "@ + msg@),
            code@ == "0"@ ==> (r matches Ok(v) && v@ == accounts@.map_values(
                |a: Vec<BalanceData>| a@,
            ).flatten_alt()),
    {
        if !str_eq(code, "0") {
            let mut e = "Balance error: ".to_owned();
            e.append(msg);
            return Err(e);
        }
        let ghost all = accounts@.map_values(|a: Vec<BalanceData>| a@);
        let mut rest = accounts;
        let mut out: Vec<BalanceData> = Vec::new();
        let ghost mut k: int = 0;
        while rest.len() > 0
            invariant
                0 <= k <= all.len(),
                rest.len() + k == all.len(),
                rest@.map_values(|a: Vec<BalanceData>| a@) == all.skip(k),
                out@ == all.take(k).flatten_alt(),
            decreases rest.len(),
        {
            proof {
                assert(rest@.map_values(|a: Vec<BalanceData>| a@)[0] == all[k]);
            }
            let ghost old_rest = rest@;
            let mut first = rest.remove(0);
            proof {
                assert forall|j: int| 0 <= j < rest@.len() implies (#[trigger] rest@[j])@ == all[k + 1 + j] by {
                    assert(rest@[j] == old_rest[j + 1]);
                    assert(old_rest.map_values(|a: Vec<BalanceData>| a@)[j + 1] == all.skip(k)[j + 1]);
                }
            }
            proof {
                assert(first@ == all[k]);
                assert(all.take(k + 1).drop_last() =~= all.take(k));
                assert(all.take(k + 1).last() == all[k]);
                assert(rest@.map_values(|a: Vec<BalanceData>| a@) =~= all.skip(k + 1));
            }
            out.append(&mut first);
            proof {
                k = k + 1;
            }
        }
        proof {
            assert(all.take(k) =~= all);
        }
        Ok(out)
    }
}

} // verus!
