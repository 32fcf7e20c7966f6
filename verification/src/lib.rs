#![allow(unused_imports)]

//! Client-side models, query builders, orderbook state and streaming
//! protocol logic for the Kalshi trading API.

pub mod text;
pub mod json;
pub mod error;
pub mod models;
pub mod orderbook;
pub mod ws;
