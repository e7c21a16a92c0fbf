//! Execution: exchange requests, gas and MEV protection, routing, lending
//! strategies, the paper and engine executors, and the X Layer signer's
//! configuration and call data.
pub mod okx_api;
pub mod cod3x_exec;
pub mod gas;
pub mod mev;
pub mod router;
pub mod paper;
pub mod live;
pub mod engine;
pub mod signer;
pub mod xlayer_executor;
