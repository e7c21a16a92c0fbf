//! Errors of the trading system and the messages they read as.
use crate::decimal::{decimal_text, Dec};
use crate::text::{nat_digits, nat_text};
use vstd::prelude::*;

verus! {

/// Main error type.
#[derive(Debug, Clone)]
pub enum Error {
    Config(String),
    Feed(String),
    WebSocket(String),
    Http(String),
    Json(String),
    RiskLimit(String),
    InsufficientCapital { needed: Dec, available: Dec },
    PositionNotFound(String),
    Execution(String),
    BrainTimeout(u64),
    Brain(String),
    /// An input/output failure, by its message.
    Io(String),
    Internal(String),
}

/// The message of an error.
pub open spec fn error_message(e: Error) -> Seq<char> {
    match e {
        Error::Config(s) => "Configuration error: "@ + s@,
        Error::Feed(s) => "Feed error: "@ + s@,
        Error::WebSocket(s) => "WebSocket error: "@ + s@,
        Error::Http(s) => "HTTP error: "@ + s@,
        Error::Json(s) => "JSON parsing error: "@ + s@,
        Error::RiskLimit(s) => "Risk limit exceeded: "@ + s@,
        Error::InsufficientCapital { needed, available } => "Insufficient capital: need "@
            + decimal_text(needed@) + ", have "@ + decimal_text(available@),
        Error::PositionNotFound(s) => "Position not found: "@ + s@,
        Error::Execution(s) => "Execution error: "@ + s@,
        Error::BrainTimeout(n) => "Brain timeout: no decision within "@ + nat_digits(n as nat) + "s"@,
        Error::Brain(s) => "Brain error: "@ + s@,
        Error::Io(s) => "IO error: "@ + s@,
        Error::Internal(s) => "Internal error: "@ + s@,
    }
}

fn prefixed(prefix: &str, s: &String) -> (r: String)
    ensures
        r@ == prefix@ + s@,
{
    let mut t = prefix.to_owned();
    t.append(s.as_str());
    t
}

impl Error {
    /// The message of the error.
    pub fn message(&self) -> (r: String)
        ensures
            r@ == error_message(*self),
    {
        match self {
            Error::Config(s) => prefixed("Configuration error: ", s),
            Error::Feed(s) => prefixed("Feed error: ", s),
            Error::WebSocket(s) => prefixed("WebSocket error: ", s),
            Error::Http(s) => prefixed("HTTP error: ", s),
            Error::Json(s) => prefixed("JSON parsing error: ", s),
            Error::RiskLimit(s) => prefixed("Risk limit exceeded: ", s),
            Error::InsufficientCapital { needed, available } => {
                let mut t = "Insufficient capital: need ".to_owned();
                t.append(needed.to_text().as_str());
                t.append(", have ");
                t.append(available.to_text().as_str());
                t
            },
            Error::PositionNotFound(s) => prefixed("Position not found: ", s),
            Error::Execution(s) => prefixed("Execution error: ", s),
            Error::BrainTimeout(n) => {
                let mut t = "Brain timeout: no decision within ".to_owned();
                t.append(nat_text(*n).as_str());
                t.append("s");
                t
            },
            Error::Brain(s) => prefixed("Brain error: ", s),
            Error::Io(s) => prefixed("IO error: ", s),
            Error::Internal(s) => prefixed("Internal error: ", s),
        }
    }

    /// The error a risk error becomes: a risk limit with its message.
    pub fn from_risk(e: &RiskError) -> (r: Error)
        ensures
            r matches Error::RiskLimit(m) && m@ == risk_message(*e),
    {
        Error::RiskLimit(e.message())
    }
}

/// Risk errors.
#[derive(Debug, Clone, Copy)]
pub enum RiskError {
    MaxDrawdownExceeded { current: Dec, limit: Dec },
    MaxPositionExceeded { size: Dec, limit: Dec },
    DailyLossLimit { loss: Dec },
    CorrelationLimit,
    TradingHalted,
}

/// The message of a risk error.
pub open spec fn risk_message(e: RiskError) -> Seq<char> {
    match e {
        RiskError::MaxDrawdownExceeded { current, limit } => "Max drawdown exceeded: "@ + decimal_text(
            current@,
        ) + "% > "@ + decimal_text(limit@) + "%"@,
        RiskError::MaxPositionExceeded { size, limit } => "Max position size exceeded: "@
            + decimal_text(size@) + " > "@ + decimal_text(limit@),
        RiskError::DailyLossLimit { loss } => "Daily loss limit reached: $"@ + decimal_text(loss@),
        RiskError::CorrelationLimit => "Correlation limit exceeded"@,
        RiskError::TradingHalted => "Trading halted"@,
    }
}

impl RiskError {
    /// The message of the risk error.
    pub fn message(&self) -> (r: String)
        ensures
            r@ == risk_message(*self),
    {
        match self {
            RiskError::MaxDrawdownExceeded { current, limit } => {
                let mut t = "Max drawdown exceeded: ".to_owned();
                t.append(current.to_text().as_str());
                t.append("% > ");
                t.append(limit.to_text().as_str());
                t.append("%");
                t
            },
            RiskError::MaxPositionExceeded { size, limit } => {
                let mut t = "Max position size exceeded: ".to_owned();
                t.append(size.to_text().as_str());
                t.append(" > ");
                t.append(limit.to_text().as_str());
                t
            },
            RiskError::DailyLossLimit { loss } => {
                let mut t = "Daily loss limit reached: $".to_owned();
                t.append(loss.to_text().as_str());
                t
            },
            RiskError::CorrelationLimit => "Correlation limit exceeded".to_owned(),
            RiskError::TradingHalted => "Trading halted".to_owned(),
        }
    }
}

} // verus!
