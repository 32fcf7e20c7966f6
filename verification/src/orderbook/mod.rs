//! Orderbook aggregation and state management.
//!
//! The state of one market's orderbook is kept from an initial snapshot
//! and the deltas that follow it.
//!
//! # YES/NO Price Relationship
//!
//! In Kalshi prediction markets:
//! - YES bid at 45 = someone will buy YES at 45¢
//! - NO bid at 55 = someone will sell YES at 45¢ (since 100 - 55 = 45)
//! - Best YES ask = 100 - best NO bid price

pub mod ladder;
pub mod state;
pub mod aggregator;
