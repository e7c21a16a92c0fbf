//! Trading engine logic: market types, signal generation, brains and execution rules.
pub mod decimal;
pub mod market;
pub mod series;
pub mod text;
pub mod clock;
pub mod alpha;
pub mod brain;
pub mod exec;
pub mod cli;
pub mod ranking;
pub mod config;
pub mod error;
