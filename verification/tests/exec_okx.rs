use simmons::decimal::Dec;
use simmons::exec::live::{okx_fill_result, okx_order_request};
use simmons::exec::okx_api::{
    fill_step, BalanceData, CancelResponse, OkxApiClient, OkxApiConfig, OrderDetail, OrderResponse, OrderSide,
};
use simmons::market::{Order, OrderType, Side};

fn d(s: &str) -> Dec {
    Dec::parse(s).unwrap()
}

fn config(simulated: bool) -> OkxApiConfig {
    OkxApiConfig {
        api_key: "key".to_string(),
        api_secret: "secret".to_string(),
        passphrase: "pass".to_string(),
        simulated,
        base_url: "https://www.okx.com".to_string(),
    }
}

fn detail(state: &str, avg_px: &str, filled: &str, fee: &str) -> OrderDetail {
    OrderDetail {
        inst_id: "BTC-USDT".to_string(),
        ord_id: "42".to_string(),
        cl_ord_id: String::new(),
        side: "buy".to_string(),
        ord_type: "market".to_string(),
        sz: "0.1".to_string(),
        px: String::new(),
        avg_px: avg_px.to_string(),
        acc_fill_sz: filled.to_string(),
        state: state.to_string(),
        fee: fee.to_string(),
        fee_ccy: "USDT".to_string(),
        u_time: String::new(),
        c_time: String::new(),
    }
}

fn order(order_type: OrderType, limit_price: Option<Dec>) -> Order {
    Order {
        symbol: "BTC-USDT".to_string(),
        side: Side::Short,
        size: d("0.5"),
        order_type,
        limit_price,
        stop_loss: None,
        take_profit: None,
    }
}

#[test]
fn test_order_side_conversion() {
    assert_eq!(OrderSide::Buy.to_string(), "buy");
    assert_eq!(OrderSide::Sell.to_string(), "sell");
}

#[test]
fn test_order_side_from_core() {
    let buy: OrderSide = Side::Long.into();
    let sell: OrderSide = Side::Short.into();
    assert_eq!(buy, OrderSide::Buy);
    assert_eq!(sell, OrderSide::Sell);
}

#[test]
fn test_config_from_env_values() {
    let c = OkxApiConfig::from_env_values(
        Some("k".to_string()),
        Some("s".to_string()),
        Some("p".to_string()),
        Some("1".to_string()),
    )
    .unwrap();
    assert!(c.simulated);
    assert_eq!(c.base_url, "https://www.okx.com");
    let missing = OkxApiConfig::from_env_values(Some("k".to_string()), None, None, None);
    assert_eq!(missing.err(), Some("OKX_API_SECRET not set".to_string()));
    let none = OkxApiConfig::from_env_values(None, None, None, None);
    assert_eq!(none.err(), Some("OKX_API_KEY not set".to_string()));
    assert!(OkxApiConfig::demo(config(false)).simulated);
}

#[test]
fn test_auth_headers() {
    let client = OkxApiClient::new(config(true));
    let headers = client.auth_headers("2024-01-01T00:00:00.000Z", "GET", "/api/v5/account/balance", "");
    let names: Vec<&str> = headers.iter().map(|(n, _)| n.as_str()).collect();
    assert_eq!(
        names,
        vec!["OK-ACCESS-KEY", "OK-ACCESS-SIGN", "OK-ACCESS-TIMESTAMP", "OK-ACCESS-PASSPHRASE", "content-type", "x-simulated-trading"]
    );
    assert_eq!(headers[1].1, "dfI+ViVVBgfRPWcGyH3gM3bM/DTyiqUqZys/Y9UbsFQ=");
    let live = OkxApiClient::new(config(false));
    assert_eq!(live.auth_headers("t", "GET", "/p", "").len(), 5);
    assert_eq!(live.url("/api/v5/trade/order"), "https://www.okx.com/api/v5/trade/order");
}

#[test]
fn test_paths() {
    assert_eq!(OkxApiClient::order_path("BTC-USDT", "7"), "/api/v5/trade/order?instId=BTC-USDT&ordId=7");
    assert_eq!(OkxApiClient::balance_path(Some("USDT")), "/api/v5/account/balance?ccy=USDT");
    assert_eq!(OkxApiClient::balance_path(None), "/api/v5/account/balance");
}

#[test]
fn test_replies() {
    let ok = OkxApiClient::order_reply(
        "0",
        "",
        vec![OrderResponse {
            ord_id: "1".to_string(),
            cl_ord_id: String::new(),
            tag: String::new(),
            s_code: "0".to_string(),
            s_msg: String::new(),
        }],
    );
    assert_eq!(ok.unwrap().ord_id, "1");
    assert_eq!(OkxApiClient::order_reply("51000", "bad", vec![]).err(), Some("OKX error: 51000 - bad".to_string()));
    assert_eq!(OkxApiClient::order_reply("0", "", vec![]).err(), Some("No order data in response".to_string()));
    let cancel: Vec<CancelResponse> = vec![];
    assert_eq!(OkxApiClient::cancel_reply("0", "", cancel).err(), Some("No cancel data in response".to_string()));
    assert_eq!(OkxApiClient::order_detail_reply("1", "nope", vec![]).err(), Some("Get order error: nope".to_string()));
    assert_eq!(OkxApiClient::order_detail_reply("0", "", vec![]).err(), Some("Order not found".to_string()));
    let bal = |c: &str| BalanceData { ccy: c.to_string(), bal: "2".to_string(), avail_bal: "1.5".to_string(), frozen_bal: "0.5".to_string() };
    let all = OkxApiClient::balance_reply("0", "", vec![vec![bal("BTC")], vec![bal("ETH"), bal("USDT")]]).unwrap();
    let ccys: Vec<&str> = all.iter().map(|b| b.ccy.as_str()).collect();
    assert_eq!(ccys, vec!["BTC", "ETH", "USDT"]);
    assert!(all[0].available().eq_value(&d("1.5")));
    assert!(all[0].total().eq_value(&d("2")));
    assert_eq!(OkxApiClient::balance_reply("5", "denied", vec![]).err(), Some("Balance error: denied".to_string()));
}

#[test]
fn test_fill_steps() {
    assert_eq!(fill_step("filled", false), Ok(true));
    assert_eq!(fill_step("live", false), Ok(false));
    assert_eq!(fill_step("partially_filled", true), Err("Order fill timeout".to_string()));
    assert_eq!(fill_step("canceled", false), Err("Order was cancelled".to_string()));
    assert_eq!(fill_step("weird", false), Err("Unexpected order state: weird".to_string()));
}

#[test]
fn test_order_detail_numbers() {
    let det = detail("filled", "67000.5", "0.1", "-0.67");
    assert!(det.is_filled());
    assert!(det.fill_price().eq_value(&d("67000.5")));
    assert!(det.fill_size().eq_value(&d("0.1")));
    assert!(det.fee().eq_value(&d("-0.67")));
    let junk = detail("live", "", "x", "");
    assert!(!junk.is_filled());
    assert!(junk.fill_price().is_zero());
    assert!(junk.fill_size().is_zero());
}

#[test]
fn test_okx_order_request() {
    let market = okx_order_request(&order(OrderType::Market, None)).unwrap();
    assert_eq!(market.inst_id, "BTC-USDT");
    assert_eq!(market.side, "sell");
    assert_eq!(market.ord_type, "market");
    assert_eq!(market.sz, "0.5");
    assert_eq!(market.td_mode, "cash");
    assert!(market.px.is_none());
    let limit = okx_order_request(&order(OrderType::Limit, Some(d("66000.10")))).unwrap();
    assert_eq!(limit.ord_type, "limit");
    assert_eq!(limit.px, Some("66000.10".to_string()));
    assert_eq!(okx_order_request(&order(OrderType::Limit, None)).err(), Some("Limit order requires price".to_string()));
}

#[test]
fn test_okx_fill_result() {
    let det = detail("filled", "67000.5", "0.1", "-0.67");
    let r = okx_fill_result(&order(OrderType::Market, None), "42".to_string(), &det, 1700000000);
    assert_eq!(r.order_id, "42");
    assert_eq!(r.side, Side::Short);
    assert!(r.size.eq_value(&d("0.1")));
    assert!(r.price.eq_value(&d("67000.5")));
    assert!(r.fee.eq_value(&d("0.67")));
    assert_eq!(r.timestamp, 1700000000);
    assert_eq!(r.venue, "okx");
}
