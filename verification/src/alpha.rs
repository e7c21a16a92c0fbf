//! Signal generation: momentum, mean reversion, regime detection, arbitrage,
//! forecasting and pattern research.
pub mod momentum;
pub mod mean_reversion;
pub mod regime;
pub mod arbitrage;
pub mod engine;
pub mod forecaster;
pub mod patterns;
pub mod autoresearch;
