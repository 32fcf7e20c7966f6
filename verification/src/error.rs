//! Error type for request validation.

use vstd::prelude::*;

verus! {

/// Maximum number of orders in a batch create or cancel request.
pub const MAX_BATCH_SIZE: usize = 20;

/// Maximum number of market tickers in a batch candlesticks request.
pub const MAX_BATCH_CANDLESTICKS_TICKERS: usize = 100;

/// Maximum number of percentiles in a forecast percentile history request.
pub const MAX_FORECAST_PERCENTILES: usize = 10;

/// Errors reported when a request or parameter set is rejected.
#[derive(Debug, Clone, PartialEq, Eq)]
pub enum Error {
    /// The number of contracts must be positive.
    InvalidContracts(i64),
    /// The target cost must be positive.
    InvalidTargetCost(i64),
    /// A price in cents must be between 1 and 99.
    InvalidPrice(i64),
    /// Two parameters that exclude each other were both set.
    MutuallyExclusiveParams,
    /// The start timestamp must be before the end timestamp.
    InvalidTimestampRange(i64, i64),
    /// Too many percentiles were requested.
    TooManyPercentiles(usize),
    /// A percentile lies outside 0..=10000.
    PercentileOutOfRange(i32),
    /// A limit lies outside the accepted range (value, min, max).
    InvalidLimit(i64, i64, i64),
    /// Too many market tickers were given.
    TooManyMarketTickers(usize),
    /// The contracts limit of an order group must be at least 1.
    InvalidContractsLimit(i64),
    /// A batch holds more than the maximum number of entries.
    BatchSizeExceeded(usize),
    /// A subaccount id lies outside 0..=32.
    InvalidSubaccountId(i32),
    /// A transfer must go between two different subaccounts.
    SameSubaccountTransfer,
    /// A transfer amount must be positive.
    InvalidTransferAmount(i64),
    /// A channel that needs market tickers was given none (channel name).
    MissingMarketTickers(String),
    /// An error reported by the API (message).
    Api(String),
}

} // verus!
