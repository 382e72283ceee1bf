//! A real-time prediction-market trading pipeline.
//!
//! Venue adapters emit top-of-book events; a router shards them by venue;
//! per-venue workers merge them into a shared market cache; a strategy
//! engine evaluates registered strategies on every cache change and hands
//! the resulting trade signals to an execution bridge, which drives an
//! all-or-nothing multi-leg order protocol.
//!
//! Prices, sizes and edges are fixed-point integers: one unit of
//! probability (a price of 1.0) is [`types::PRICE_SCALE`]. Latencies and
//! monotonic instants are plain integer ticks supplied by the embedder.

pub mod config;
pub mod types;
pub mod market;
pub mod cache;
pub mod queue;
pub mod worker;
pub mod assoc;
pub mod metrics;
pub mod adapter;
pub mod reconnect;
pub mod router;
pub mod digits;
pub mod strategy;
pub mod arbitrage;
pub mod execution;



