//! The decisions of the trading loops: symbol parsing, regime detection,
//! ranking of opportunities, and what to do with the brains' decisions.
pub mod dual_loop;
pub mod orchestrator;
pub mod commands;
pub mod dashboard;
