//! Data models for the Kalshi API.
//!
//! All monetary values are in cents unless noted otherwise.
//! Fields ending in `_dollars` are fixed-point dollar strings.

pub mod query;
pub mod common;
pub mod account;
pub mod api_key;
pub mod balance;
pub mod communications;
pub mod event;
pub mod exchange;
pub mod fcm;
pub mod fill;
pub mod historical;
pub mod incentive_program;
pub mod live_data;
pub mod market;
pub mod milestone;
pub mod multivariate;
pub mod order;
pub mod order_group;
pub mod position;
pub mod search;
pub mod series;
pub mod settlement;
pub mod structured_target;
pub mod subaccount;
pub mod price_level;
