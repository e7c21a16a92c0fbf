//! The dashboard's view of the market feeds: the status of each feed and
//! the row shown for each symbol.
use crate::decimal::{decimal_text_dp, Dec};
use crate::market::{spread_bps_of, PriceTick};
use vstd::prelude::*;

verus! {

/// Status of one market feed; the time is in milliseconds since the Unix
/// epoch.
#[derive(Debug, Clone, Copy, PartialEq, Eq, Structural)]
pub struct FeedStatus {
    pub connected: bool,
    pub last_update: i64,
    pub message_count: u64,
    pub latency_ms: u32,
}

impl FeedStatus {
    /// A feed that is connected, last heard from at `now`, with the given
    /// latency and no messages counted.
    pub fn live(now: i64, latency_ms: u32) -> (r: FeedStatus)
        ensures
            r == (FeedStatus { connected: true, last_update: now, message_count: 0, latency_ms }),
    {
        FeedStatus { connected: true, last_update: now, message_count: 0, latency_ms }
    }

    /// A feed that is not connected.
    pub fn offline() -> (r: FeedStatus)
        ensures
            r == (FeedStatus { connected: false, last_update: 0, message_count: 0, latency_ms: 0 }),
    {
        FeedStatus { connected: false, last_update: 0, message_count: 0, latency_ms: 0 }
    }
}

/// The dashboard's row for one symbol, every number already written out.
#[derive(Debug, Clone)]
pub struct SymbolData {
    pub symbol: String,
    pub price: String,
    pub bid: String,
    pub ask: String,
    pub spread_bps: String,
    pub volume_24h: String,
    pub change_24h: String,
}

impl SymbolData {
    /// The row of a tick: prices to two places, the spread to one, the
    /// volume to none; no 24-hour change is known, so it reads `+0.0%`.
    pub fn from_tick(symbol: &str, tick: &PriceTick) -> (r: SymbolData)
        ensures
            r.symbol@ == symbol@,
            r.price@ == decimal_text_dp(tick.price@, 2),
            r.bid@ == decimal_text_dp(tick.bid@, 2),
            r.ask@ == decimal_text_dp(tick.ask@, 2),
            r.spread_bps@ == decimal_text_dp(spread_bps_of(tick.bid@, tick.ask@), 1),
            r.volume_24h@ == decimal_text_dp(tick.volume_24h@, 0),
            r.change_24h@ == "+0.0%"@,
    {
        let spread: Dec = tick.spread_bps();
        SymbolData {
            symbol: symbol.to_owned(),
            price: tick.price.to_text_dp(2),
            bid: tick.bid.to_text_dp(2),
            ask: tick.ask.to_text_dp(2),
            spread_bps: spread.to_text_dp(1),
            volume_24h: tick.volume_24h.to_text_dp(0),
            change_24h: "+0.0%".to_owned(),
        }
    }
}

} // verus!
