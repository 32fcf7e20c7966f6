//! Market models and response types.

use vstd::prelude::*;
use crate::models::query::{query_value, group_query_value, QueryBuilder, QueryPairs, query_string, opt_pair, opt_text, opt_str_text, opt_i64_text, opt_i32_text, opt_bool_text};
use crate::text::{int_to_decimal, clamp_int, clamp_i64, clamp_i32, join_commas, str_views, join_with_commas, nonempty_segment_count, count_nonempty_segments};
use crate::error::{Error, MAX_BATCH_CANDLESTICKS_TICKERS};

verus! {

/// Market type (binary or scalar).
#[derive(Debug, Clone, Copy, PartialEq, Eq, Structural)]
#[non_exhaustive]
pub enum MarketType {
    Binary,
    Scalar,
    /// Unknown market type returned by the API.
    Unknown,
}

/// Market status.
#[derive(Debug, Clone, Copy, PartialEq, Eq, Structural)]
#[non_exhaustive]
pub enum MarketStatus {
    Initialized,
    Inactive,
    Active,
    Closed,
    Determined,
    Disputed,
    Amended,
    Finalized,
    /// Unknown status returned by the API.
    Unknown,
}

/// Market result.
#[derive(Debug, Clone, Copy, PartialEq, Eq, Structural)]
#[non_exhaustive]
pub enum MarketResult {
    Yes,
    No,
    /// No result yet (the API sends an empty string).
    Empty,
    /// Unknown result returned by the API.
    Unknown,
}

/// Filter status for list markets query.
#[derive(Debug, Clone, Copy, PartialEq, Eq, Structural)]
pub enum MarketFilterStatus {
    Unopened,
    Open,
    Paused,
    Closed,
    Settled,
}

/// Multivariate event filter.
#[derive(Debug, Clone, Copy, PartialEq, Eq, Structural)]
pub enum MveFilter {
    /// Only multivariate events.
    Only,
    /// Exclude multivariate events.
    Exclude,
}

/// Strike type for a market.
#[derive(Debug, Clone, Copy, PartialEq, Eq, Structural)]
#[non_exhaustive]
pub enum StrikeType {
    Greater,
    GreaterOrEqual,
    Less,
    LessOrEqual,
    Between,
    Functional,
    Custom,
    Structured,
    /// Unknown strike type returned by the API.
    Unknown,
}

/// Price range configuration.
#[derive(Debug, Clone)]
pub struct PriceRange {
    pub start: String,
    pub end: String,
    pub step: String,
}

/// A selected leg in a multivariate event market.
#[derive(Debug, Clone)]
pub struct MveSelectedLeg {
    /// The event ticker for this leg.
    pub event_ticker: String,
    /// The market ticker for this leg.
    pub market_ticker: String,
    /// The side of the leg (e.g., "yes" or "no").
    pub side: String,
}

/// Query parameters for GET /markets.
#[derive(Debug, Clone)]
pub struct GetMarketsParams {
    pub limit: Option<i64>,
    pub cursor: Option<String>,
    pub event_ticker: Option<String>,
    pub series_ticker: Option<String>,
    pub tickers: Option<String>,
    pub status: Option<MarketFilterStatus>,
    pub min_created_ts: Option<i64>,
    pub max_created_ts: Option<i64>,
    pub min_close_ts: Option<i64>,
    pub max_close_ts: Option<i64>,
    pub min_settled_ts: Option<i64>,
    pub max_settled_ts: Option<i64>,
    pub mve_filter: Option<MveFilter>,
}

impl GetMarketsParams {
    /// Parameters with nothing set.
    pub fn new() -> (r: Self)
        ensures
            r.limit is None,
            r.cursor is None,
            r.event_ticker is None,
            r.series_ticker is None,
            r.tickers is None,
            r.status is None,
            r.min_created_ts is None,
            r.max_created_ts is None,
            r.min_close_ts is None,
            r.max_close_ts is None,
            r.min_settled_ts is None,
            r.max_settled_ts is None,
            r.mve_filter is None,
    {
        GetMarketsParams { limit: None, cursor: None, event_ticker: None, series_ticker: None, tickers: None, status: None, min_created_ts: None, max_created_ts: None, min_close_ts: None, max_close_ts: None, min_settled_ts: None, max_settled_ts: None, mve_filter: None }
    }

    pub fn limit(self, limit: i64) -> (r: Self)
        ensures
            r.limit == Some(clamp_int(limit as int, 1, 1000) as i64),
            r.cursor == self.cursor,
            r.event_ticker == self.event_ticker,
            r.series_ticker == self.series_ticker,
            r.tickers == self.tickers,
            r.status == self.status,
            r.min_created_ts == self.min_created_ts,
            r.max_created_ts == self.max_created_ts,
            r.min_close_ts == self.min_close_ts,
            r.max_close_ts == self.max_close_ts,
            r.min_settled_ts == self.min_settled_ts,
            r.max_settled_ts == self.max_settled_ts,
            r.mve_filter == self.mve_filter,
    {
        let mut s = self;
        s.limit = Some(clamp_i64(limit, 1, 1000));
        s
    }

    pub fn cursor(self, cursor: &str) -> (r: Self)
        ensures
            opt_text(r.cursor) == Some(cursor@),
            r.limit == self.limit,
            r.event_ticker == self.event_ticker,
            r.series_ticker == self.series_ticker,
            r.tickers == self.tickers,
            r.status == self.status,
            r.min_created_ts == self.min_created_ts,
            r.max_created_ts == self.max_created_ts,
            r.min_close_ts == self.min_close_ts,
            r.max_close_ts == self.max_close_ts,
            r.min_settled_ts == self.min_settled_ts,
            r.max_settled_ts == self.max_settled_ts,
            r.mve_filter == self.mve_filter,
    {
        let mut s = self;
        s.cursor = Some(String::from_str(cursor));
        s
    }

    pub fn event_ticker(self, event_ticker: &str) -> (r: Self)
        ensures
            opt_text(r.event_ticker) == Some(event_ticker@),
            r.limit == self.limit,
            r.cursor == self.cursor,
            r.series_ticker == self.series_ticker,
            r.tickers == self.tickers,
            r.status == self.status,
            r.min_created_ts == self.min_created_ts,
            r.max_created_ts == self.max_created_ts,
            r.min_close_ts == self.min_close_ts,
            r.max_close_ts == self.max_close_ts,
            r.min_settled_ts == self.min_settled_ts,
            r.max_settled_ts == self.max_settled_ts,
            r.mve_filter == self.mve_filter,
    {
        let mut s = self;
        s.event_ticker = Some(String::from_str(event_ticker));
        s
    }

    pub fn series_ticker(self, series_ticker: &str) -> (r: Self)
        ensures
            opt_text(r.series_ticker) == Some(series_ticker@),
            r.limit == self.limit,
            r.cursor == self.cursor,
            r.event_ticker == self.event_ticker,
            r.tickers == self.tickers,
            r.status == self.status,
            r.min_created_ts == self.min_created_ts,
            r.max_created_ts == self.max_created_ts,
            r.min_close_ts == self.min_close_ts,
            r.max_close_ts == self.max_close_ts,
            r.min_settled_ts == self.min_settled_ts,
            r.max_settled_ts == self.max_settled_ts,
            r.mve_filter == self.mve_filter,
    {
        let mut s = self;
        s.series_ticker = Some(String::from_str(series_ticker));
        s
    }

    pub fn tickers(self, tickers: &str) -> (r: Self)
        ensures
            opt_text(r.tickers) == Some(tickers@),
            r.limit == self.limit,
            r.cursor == self.cursor,
            r.event_ticker == self.event_ticker,
            r.series_ticker == self.series_ticker,
            r.status == self.status,
            r.min_created_ts == self.min_created_ts,
            r.max_created_ts == self.max_created_ts,
            r.min_close_ts == self.min_close_ts,
            r.max_close_ts == self.max_close_ts,
            r.min_settled_ts == self.min_settled_ts,
            r.max_settled_ts == self.max_settled_ts,
            r.mve_filter == self.mve_filter,
    {
        let mut s = self;
        s.tickers = Some(String::from_str(tickers));
        s
    }

    pub fn status(self, status: MarketFilterStatus) -> (r: Self)
        ensures
            r.status == Some(status),
            r.limit == self.limit,
            r.cursor == self.cursor,
            r.event_ticker == self.event_ticker,
            r.series_ticker == self.series_ticker,
            r.tickers == self.tickers,
            r.min_created_ts == self.min_created_ts,
            r.max_created_ts == self.max_created_ts,
            r.min_close_ts == self.min_close_ts,
            r.max_close_ts == self.max_close_ts,
            r.min_settled_ts == self.min_settled_ts,
            r.max_settled_ts == self.max_settled_ts,
            r.mve_filter == self.mve_filter,
    {
        let mut s = self;
        s.status = Some(status);
        s
    }

    pub fn min_created_ts(self, ts: i64) -> (r: Self)
        ensures
            r.min_created_ts == Some(ts),
            r.limit == self.limit,
            r.cursor == self.cursor,
            r.event_ticker == self.event_ticker,
            r.series_ticker == self.series_ticker,
            r.tickers == self.tickers,
            r.status == self.status,
            r.max_created_ts == self.max_created_ts,
            r.min_close_ts == self.min_close_ts,
            r.max_close_ts == self.max_close_ts,
            r.min_settled_ts == self.min_settled_ts,
            r.max_settled_ts == self.max_settled_ts,
            r.mve_filter == self.mve_filter,
    {
        let mut s = self;
        s.min_created_ts = Some(ts);
        s
    }

    pub fn max_created_ts(self, ts: i64) -> (r: Self)
        ensures
            r.max_created_ts == Some(ts),
            r.limit == self.limit,
            r.cursor == self.cursor,
            r.event_ticker == self.event_ticker,
            r.series_ticker == self.series_ticker,
            r.tickers == self.tickers,
            r.status == self.status,
            r.min_created_ts == self.min_created_ts,
            r.min_close_ts == self.min_close_ts,
            r.max_close_ts == self.max_close_ts,
            r.min_settled_ts == self.min_settled_ts,
            r.max_settled_ts == self.max_settled_ts,
            r.mve_filter == self.mve_filter,
    {
        let mut s = self;
        s.max_created_ts = Some(ts);
        s
    }

    pub fn min_close_ts(self, ts: i64) -> (r: Self)
        ensures
            r.min_close_ts == Some(ts),
            r.limit == self.limit,
            r.cursor == self.cursor,
            r.event_ticker == self.event_ticker,
            r.series_ticker == self.series_ticker,
            r.tickers == self.tickers,
            r.status == self.status,
            r.min_created_ts == self.min_created_ts,
            r.max_created_ts == self.max_created_ts,
            r.max_close_ts == self.max_close_ts,
            r.min_settled_ts == self.min_settled_ts,
            r.max_settled_ts == self.max_settled_ts,
            r.mve_filter == self.mve_filter,
    {
        let mut s = self;
        s.min_close_ts = Some(ts);
        s
    }

    pub fn max_close_ts(self, ts: i64) -> (r: Self)
        ensures
            r.max_close_ts == Some(ts),
            r.limit == self.limit,
            r.cursor == self.cursor,
            r.event_ticker == self.event_ticker,
            r.series_ticker == self.series_ticker,
            r.tickers == self.tickers,
            r.status == self.status,
            r.min_created_ts == self.min_created_ts,
            r.max_created_ts == self.max_created_ts,
            r.min_close_ts == self.min_close_ts,
            r.min_settled_ts == self.min_settled_ts,
            r.max_settled_ts == self.max_settled_ts,
            r.mve_filter == self.mve_filter,
    {
        let mut s = self;
        s.max_close_ts = Some(ts);
        s
    }

    pub fn min_settled_ts(self, ts: i64) -> (r: Self)
        ensures
            r.min_settled_ts == Some(ts),
            r.limit == self.limit,
            r.cursor == self.cursor,
            r.event_ticker == self.event_ticker,
            r.series_ticker == self.series_ticker,
            r.tickers == self.tickers,
            r.status == self.status,
            r.min_created_ts == self.min_created_ts,
            r.max_created_ts == self.max_created_ts,
            r.min_close_ts == self.min_close_ts,
            r.max_close_ts == self.max_close_ts,
            r.max_settled_ts == self.max_settled_ts,
            r.mve_filter == self.mve_filter,
    {
        let mut s = self;
        s.min_settled_ts = Some(ts);
        s
    }

    pub fn max_settled_ts(self, ts: i64) -> (r: Self)
        ensures
            r.max_settled_ts == Some(ts),
            r.limit == self.limit,
            r.cursor == self.cursor,
            r.event_ticker == self.event_ticker,
            r.series_ticker == self.series_ticker,
            r.tickers == self.tickers,
            r.status == self.status,
            r.min_created_ts == self.min_created_ts,
            r.max_created_ts == self.max_created_ts,
            r.min_close_ts == self.min_close_ts,
            r.max_close_ts == self.max_close_ts,
            r.min_settled_ts == self.min_settled_ts,
            r.mve_filter == self.mve_filter,
    {
        let mut s = self;
        s.max_settled_ts = Some(ts);
        s
    }

    pub fn mve_filter(self, filter: MveFilter) -> (r: Self)
        ensures
            r.mve_filter == Some(filter),
            r.limit == self.limit,
            r.cursor == self.cursor,
            r.event_ticker == self.event_ticker,
            r.series_ticker == self.series_ticker,
            r.tickers == self.tickers,
            r.status == self.status,
            r.min_created_ts == self.min_created_ts,
            r.max_created_ts == self.max_created_ts,
            r.min_close_ts == self.min_close_ts,
            r.max_close_ts == self.max_close_ts,
            r.min_settled_ts == self.min_settled_ts,
            r.max_settled_ts == self.max_settled_ts,
    {
        let mut s = self;
        s.mve_filter = Some(filter);
        s
    }

    /// The query pairs of these parameters, in the order they are sent.
    pub open spec fn query_pairs(&self) -> QueryPairs {
        (((((((((((((Seq::empty() + opt_pair("limit"@, opt_i64_text(self.limit))) + opt_pair("cursor"@, opt_text(self.cursor))) + opt_pair("event_ticker"@, opt_text(self.event_ticker))) + opt_pair("series_ticker"@, opt_text(self.series_ticker))) + opt_pair("tickers"@, opt_text(self.tickers))) + opt_pair("status"@, MarketFilterStatus::opt_wire(self.status))) + opt_pair("min_created_ts"@, opt_i64_text(self.min_created_ts))) + opt_pair("max_created_ts"@, opt_i64_text(self.max_created_ts))) + opt_pair("min_close_ts"@, opt_i64_text(self.min_close_ts))) + opt_pair("max_close_ts"@, opt_i64_text(self.max_close_ts))) + opt_pair("min_settled_ts"@, opt_i64_text(self.min_settled_ts))) + opt_pair("max_settled_ts"@, opt_i64_text(self.max_settled_ts))) + opt_pair("mve_filter"@, MveFilter::opt_wire(self.mve_filter)))
    }

    /// The URL query string (`?` and the encoded pairs; empty when no pair is set).
    pub fn to_query_string(&self) -> (s: String)
        ensures
            s@ == query_string(self.query_pairs()),
    {
        let mut qb = QueryBuilder::new();
        qb.push_opt_i64("limit", self.limit);
        qb.push_opt_str("cursor", &self.cursor);
        qb.push_opt_str("event_ticker", &self.event_ticker);
        qb.push_opt_str("series_ticker", &self.series_ticker);
        qb.push_opt_str("tickers", &self.tickers);
        qb.push_opt_static("status", MarketFilterStatus::opt_as_str(self.status));
        qb.push_opt_i64("min_created_ts", self.min_created_ts);
        qb.push_opt_i64("max_created_ts", self.max_created_ts);
        qb.push_opt_i64("min_close_ts", self.min_close_ts);
        qb.push_opt_i64("max_close_ts", self.max_close_ts);
        qb.push_opt_i64("min_settled_ts", self.min_settled_ts);
        qb.push_opt_i64("max_settled_ts", self.max_settled_ts);
        qb.push_opt_static("mve_filter", MveFilter::opt_as_str(self.mve_filter));
        qb.build()
    }
}

impl Default for GetMarketsParams {
    fn default() -> (r: Self)
        ensures
            r.limit is None,
            r.cursor is None,
            r.event_ticker is None,
            r.series_ticker is None,
            r.tickers is None,
            r.status is None,
            r.min_created_ts is None,
            r.max_created_ts is None,
            r.min_close_ts is None,
            r.max_close_ts is None,
            r.min_settled_ts is None,
            r.max_settled_ts is None,
            r.mve_filter is None,
    {
        Self::new()
    }
}

/// A price level in the orderbook with dollar pricing.
#[derive(Debug, Clone)]
pub struct PriceLevelDollars {
    /// Price in dollars (e.g., "0.50").
    pub price: String,
    /// Quantity at this price level.
    pub quantity: i64,
}

/// An orderbook for a market.
#[derive(Debug, Clone)]
pub struct Orderbook {
    /// YES price levels as [price_cents, quantity] pairs.
    pub yes: Vec<Vec<i64>>,
    /// NO price levels as [price_cents, quantity] pairs.
    pub no: Vec<Vec<i64>>,
    /// YES price levels with dollar pricing.
    pub yes_dollars: Option<Vec<PriceLevelDollars>>,
    /// NO price levels with dollar pricing.
    pub no_dollars: Option<Vec<PriceLevelDollars>>,
}

/// Response from GET /markets/{ticker}/orderbook.
#[derive(Debug, Clone)]
pub struct OrderbookResponse {
    /// The orderbook. Empty if the market has no orders (API returns null).
    pub orderbook: Orderbook,
}

/// Query parameters for GET /markets/{ticker}/orderbook.
#[derive(Debug, Clone)]
pub struct GetOrderbookParams {
    /// Depth of orderbook. 0 or negative means all levels. 1-100 for specific depth.
    pub depth: Option<i64>,
}

impl GetOrderbookParams {
    /// Parameters with nothing set.
    pub fn new() -> (r: Self)
        ensures
            r.depth is None,
    {
        GetOrderbookParams { depth: None }
    }

    pub fn depth(self, depth: i64) -> (r: Self)
        ensures
            r.depth == Some(depth),
    {
        let mut s = self;
        s.depth = Some(depth);
        s
    }

    /// The query pairs of these parameters, in the order they are sent.
    pub open spec fn query_pairs(&self) -> QueryPairs {
        (Seq::empty() + opt_pair("depth"@, opt_i64_text(self.depth)))
    }

    /// The URL query string (`?` and the encoded pairs; empty when no pair is set).
    pub fn to_query_string(&self) -> (s: String)
        ensures
            s@ == query_string(self.query_pairs()),
    {
        let mut qb = QueryBuilder::new();
        qb.push_opt_i64("depth", self.depth);
        qb.build()
    }
}

impl Default for GetOrderbookParams {
    fn default() -> (r: Self)
        ensures
            r.depth is None,
    {
        Self::new()
    }
}

/// Taker side of a trade.
#[derive(Debug, Clone, Copy, PartialEq, Eq, Structural)]
#[non_exhaustive]
pub enum TakerSide {
    Yes,
    No,
    /// Unknown taker side returned by the API.
    Unknown,
}

/// Query parameters for GET /markets/trades.
#[derive(Debug, Clone)]
pub struct GetTradesParams {
    pub limit: Option<i64>,
    pub cursor: Option<String>,
    pub ticker: Option<String>,
    pub min_ts: Option<i64>,
    pub max_ts: Option<i64>,
}

impl GetTradesParams {
    /// Parameters with nothing set.
    pub fn new() -> (r: Self)
        ensures
            r.limit is None,
            r.cursor is None,
            r.ticker is None,
            r.min_ts is None,
            r.max_ts is None,
    {
        GetTradesParams { limit: None, cursor: None, ticker: None, min_ts: None, max_ts: None }
    }

    pub fn limit(self, limit: i64) -> (r: Self)
        ensures
            r.limit == Some(clamp_int(limit as int, 1, 1000) as i64),
            r.cursor == self.cursor,
            r.ticker == self.ticker,
            r.min_ts == self.min_ts,
            r.max_ts == self.max_ts,
    {
        let mut s = self;
        s.limit = Some(clamp_i64(limit, 1, 1000));
        s
    }

    pub fn cursor(self, cursor: &str) -> (r: Self)
        ensures
            opt_text(r.cursor) == Some(cursor@),
            r.limit == self.limit,
            r.ticker == self.ticker,
            r.min_ts == self.min_ts,
            r.max_ts == self.max_ts,
    {
        let mut s = self;
        s.cursor = Some(String::from_str(cursor));
        s
    }

    pub fn ticker(self, ticker: &str) -> (r: Self)
        ensures
            opt_text(r.ticker) == Some(ticker@),
            r.limit == self.limit,
            r.cursor == self.cursor,
            r.min_ts == self.min_ts,
            r.max_ts == self.max_ts,
    {
        let mut s = self;
        s.ticker = Some(String::from_str(ticker));
        s
    }

    pub fn min_ts(self, ts: i64) -> (r: Self)
        ensures
            r.min_ts == Some(ts),
            r.limit == self.limit,
            r.cursor == self.cursor,
            r.ticker == self.ticker,
            r.max_ts == self.max_ts,
    {
        let mut s = self;
        s.min_ts = Some(ts);
        s
    }

    pub fn max_ts(self, ts: i64) -> (r: Self)
        ensures
            r.max_ts == Some(ts),
            r.limit == self.limit,
            r.cursor == self.cursor,
            r.ticker == self.ticker,
            r.min_ts == self.min_ts,
    {
        let mut s = self;
        s.max_ts = Some(ts);
        s
    }

    /// The query pairs of these parameters, in the order they are sent.
    pub open spec fn query_pairs(&self) -> QueryPairs {
        (((((Seq::empty() + opt_pair("limit"@, opt_i64_text(self.limit))) + opt_pair("cursor"@, opt_text(self.cursor))) + opt_pair("ticker"@, opt_text(self.ticker))) + opt_pair("min_ts"@, opt_i64_text(self.min_ts))) + opt_pair("max_ts"@, opt_i64_text(self.max_ts)))
    }

    /// The URL query string (`?` and the encoded pairs; empty when no pair is set).
    pub fn to_query_string(&self) -> (s: String)
        ensures
            s@ == query_string(self.query_pairs()),
    {
        let mut qb = QueryBuilder::new();
        qb.push_opt_i64("limit", self.limit);
        qb.push_opt_str("cursor", &self.cursor);
        qb.push_opt_str("ticker", &self.ticker);
        qb.push_opt_i64("min_ts", self.min_ts);
        qb.push_opt_i64("max_ts", self.max_ts);
        qb.build()
    }
}

impl Default for GetTradesParams {
    fn default() -> (r: Self)
        ensures
            r.limit is None,
            r.cursor is None,
            r.ticker is None,
            r.min_ts is None,
            r.max_ts is None,
    {
        Self::new()
    }
}

/// Candlestick period interval in minutes.
#[derive(Debug, Clone, Copy, PartialEq, Eq, Structural)]
pub enum CandlestickPeriod {
    /// 1 minute candles.
    OneMinute,
    /// 1 hour candles.
    OneHour,
    /// 1 day candles.
    OneDay,
}

impl CandlestickPeriod {

    /// The period length in minutes.
    pub open spec fn minutes(&self) -> int {
        match self {
            CandlestickPeriod::OneMinute => 1,
            CandlestickPeriod::OneHour => 60,
            CandlestickPeriod::OneDay => 1440,
        }
    }

    /// The period length in minutes, as the API expects it.
    pub fn as_minutes(&self) -> (m: i32)
        ensures
            m == self.minutes(),
    {
        match self {
            CandlestickPeriod::OneMinute => 1,
            CandlestickPeriod::OneHour => 60,
            CandlestickPeriod::OneDay => 1440,
        }
    }
}

/// OHLC (Open/High/Low/Close) candlestick data.
#[derive(Debug, Clone)]
pub struct OhlcData {
    /// Open price in cents.
    pub open: Option<i64>,
    /// Open price in dollars.
    pub open_dollars: Option<String>,
    /// Low price in cents.
    pub low: Option<i64>,
    /// Low price in dollars.
    pub low_dollars: Option<String>,
    /// High price in cents.
    pub high: Option<i64>,
    /// High price in dollars.
    pub high_dollars: Option<String>,
    /// Close price in cents.
    pub close: Option<i64>,
    /// Close price in dollars.
    pub close_dollars: Option<String>,
}

/// Extended OHLC data with additional price fields for trade prices.
#[derive(Debug, Clone)]
pub struct PriceOhlcData {
    /// Open price in cents.
    pub open: Option<i64>,
    /// Open price in dollars.
    pub open_dollars: Option<String>,
    /// Low price in cents.
    pub low: Option<i64>,
    /// Low price in dollars.
    pub low_dollars: Option<String>,
    /// High price in cents.
    pub high: Option<i64>,
    /// High price in dollars.
    pub high_dollars: Option<String>,
    /// Close price in cents.
    pub close: Option<i64>,
    /// Close price in dollars.
    pub close_dollars: Option<String>,
    /// Mean price in cents.
    pub mean: Option<i64>,
    /// Mean price in dollars.
    pub mean_dollars: Option<String>,
    /// Previous close price in cents.
    pub previous: Option<i64>,
    /// Previous close price in dollars.
    pub previous_dollars: Option<String>,
    /// Min price in cents (alias for low).
    pub min: Option<i64>,
    /// Min price in dollars.
    pub min_dollars: Option<String>,
    /// Max price in cents (alias for high).
    pub max: Option<i64>,
    /// Max price in dollars.
    pub max_dollars: Option<String>,
}

/// A single candlestick data point.
#[derive(Debug, Clone)]
pub struct Candlestick {
    /// End of the period (Unix timestamp in seconds).
    pub end_period_ts: i64,
    /// YES bid OHLC data.
    pub yes_bid: Option<OhlcData>,
    /// YES ask OHLC data.
    pub yes_ask: Option<OhlcData>,
    /// Trade price OHLC data.
    pub price: Option<PriceOhlcData>,
    /// Trading volume during the period.
    pub volume: Option<i64>,
    /// Trading volume during the period (fixed-point decimal string).
    pub volume_fp: Option<String>,
    /// Open interest at end of period.
    pub open_interest: Option<i64>,
    /// Open interest at end of period (fixed-point decimal string).
    pub open_interest_fp: Option<String>,
}

/// Response from GET /series/{series_ticker}/markets/{ticker}/candlesticks.
#[derive(Debug, Clone)]
pub struct CandlesticksResponse {
    /// Market ticker.
    pub ticker: String,
    /// Array of candlestick data.
    pub candlesticks: Vec<Candlestick>,
}

/// Candlestick data for a single market in batch response.
#[derive(Debug, Clone)]
pub struct MarketCandlesticks {
    /// Market ticker.
    pub market_ticker: String,
    /// Array of candlestick data.
    pub candlesticks: Vec<Candlestick>,
}

/// Response from GET /markets/candlesticks (batch).
#[derive(Debug, Clone)]
pub struct BatchCandlesticksResponse {
    /// Array of market candlestick data.
    pub markets: Vec<MarketCandlesticks>,
}

/// Query parameters for GET /series/{series_ticker}/markets/{ticker}/candlesticks.
#[derive(Debug, Clone)]
pub struct GetCandlesticksParams {
    /// Start timestamp (Unix seconds).
    pub start_ts: i64,
    /// End timestamp (Unix seconds).
    pub end_ts: i64,
    /// Candlestick period interval.
    pub period_interval: CandlestickPeriod,
    /// Include synthetic candlestick before start_ts for price continuity.
    pub include_latest_before_start: Option<bool>,
}

impl GetCandlesticksParams {
    pub fn include_latest_before_start(self, enabled: bool) -> (r: Self)
        ensures
            r.include_latest_before_start == Some(enabled),
            r.start_ts == self.start_ts,
            r.end_ts == self.end_ts,
            r.period_interval == self.period_interval,
    {
        let mut s = self;
        s.include_latest_before_start = Some(enabled);
        s
    }

    /// The query pairs of these parameters, in the order they are sent.
    pub open spec fn query_pairs(&self) -> QueryPairs {
        (Seq::empty().push(("start_ts"@, int_to_decimal(self.start_ts as int))).push(("end_ts"@, int_to_decimal(self.end_ts as int))).push(("period_interval"@, int_to_decimal(self.period_interval.minutes()))) + opt_pair("include_latest_before_start"@, opt_bool_text(self.include_latest_before_start)))
    }

    /// The URL query string (`?` and the encoded pairs; empty when no pair is set).
    pub fn to_query_string(&self) -> (s: String)
        ensures
            s@ == query_string(self.query_pairs()),
    {
        let mut qb = QueryBuilder::new();
        qb.push_int("start_ts", self.start_ts);
        qb.push_int("end_ts", self.end_ts);
        qb.push_int("period_interval", self.period_interval.as_minutes() as i64);
        qb.push_opt_bool("include_latest_before_start", self.include_latest_before_start);
        qb.build()
    }


    /// Candlestick parameters for `start_ts..end_ts`, rejecting a range
    /// whose start is not before its end.
    pub fn try_new(start_ts: i64, end_ts: i64, period_interval: CandlestickPeriod) -> (r: Result<Self, Error>)
        ensures
            (match r {
                Ok(p) => start_ts < end_ts && p.start_ts == start_ts && p.end_ts == end_ts
                    && p.period_interval == period_interval && p.include_latest_before_start is None,
                Err(e) => start_ts >= end_ts && e == Error::InvalidTimestampRange(start_ts, end_ts),
            }),
    {
        if start_ts >= end_ts {
            return Err(Error::InvalidTimestampRange(start_ts, end_ts));
        }
        Ok(GetCandlesticksParams { start_ts, end_ts, period_interval, include_latest_before_start: None })
    }

    /// Candlestick parameters for `start_ts..end_ts`; the start must be
    /// before the end.
    pub fn new(start_ts: i64, end_ts: i64, period_interval: CandlestickPeriod) -> (r: Self)
        requires
            start_ts < end_ts,
        ensures
            r.start_ts == start_ts,
            r.end_ts == end_ts,
            r.period_interval == period_interval,
            r.include_latest_before_start is None,
    {
        GetCandlesticksParams { start_ts, end_ts, period_interval, include_latest_before_start: None }
    }
}

/// Query parameters for GET /markets/candlesticks (batch).
#[derive(Debug, Clone)]
pub struct GetBatchCandlesticksParams {
    /// Comma-separated list of market tickers (max 100).
    pub market_tickers: String,
    /// Start timestamp (Unix seconds).
    pub start_ts: i64,
    /// End timestamp (Unix seconds).
    pub end_ts: i64,
    /// Candlestick period interval in minutes.
    pub period_interval: i32,
    /// Include synthetic candlestick before start_ts.
    pub include_latest_before_start: Option<bool>,
}

impl GetBatchCandlesticksParams {
    pub fn include_latest_before_start(self, enabled: bool) -> (r: Self)
        ensures
            r.include_latest_before_start == Some(enabled),
            r.market_tickers == self.market_tickers,
            r.start_ts == self.start_ts,
            r.end_ts == self.end_ts,
            r.period_interval == self.period_interval,
    {
        let mut s = self;
        s.include_latest_before_start = Some(enabled);
        s
    }

    /// The query pairs of these parameters, in the order they are sent.
    pub open spec fn query_pairs(&self) -> QueryPairs {
        (Seq::empty().push(("market_tickers"@, self.market_tickers@)).push(("start_ts"@, int_to_decimal(self.start_ts as int))).push(("end_ts"@, int_to_decimal(self.end_ts as int))).push(("period_interval"@, int_to_decimal(self.period_interval as int))) + opt_pair("include_latest_before_start"@, opt_bool_text(self.include_latest_before_start)))
    }

    /// The URL query string (`?` and the encoded pairs; empty when no pair is set).
    pub fn to_query_string(&self) -> (s: String)
        ensures
            s@ == query_string(self.query_pairs()),
    {
        let mut qb = QueryBuilder::new();
        qb.push_str("market_tickers", self.market_tickers.as_str());
        qb.push_int("start_ts", self.start_ts);
        qb.push_int("end_ts", self.end_ts);
        qb.push_int("period_interval", self.period_interval as i64);
        qb.push_opt_bool("include_latest_before_start", self.include_latest_before_start);
        qb.build()
    }


    /// Batch candlestick parameters, rejecting more than
    /// `MAX_BATCH_CANDLESTICKS_TICKERS` non-empty tickers in the
    /// comma-separated list, then a start that is not before the end.
    pub fn try_new(market_tickers: &str, start_ts: i64, end_ts: i64, period_interval: CandlestickPeriod) -> (r: Result<Self, Error>)
        ensures
            (match r {
                Ok(p) => nonempty_segment_count(market_tickers@) <= MAX_BATCH_CANDLESTICKS_TICKERS
                    && start_ts < end_ts && p.market_tickers@ == market_tickers@
                    && p.start_ts == start_ts && p.end_ts == end_ts
                    && p.period_interval == period_interval.minutes()
                    && p.include_latest_before_start is None,
                Err(e) => if nonempty_segment_count(market_tickers@) > MAX_BATCH_CANDLESTICKS_TICKERS {
                    e == Error::TooManyMarketTickers(nonempty_segment_count(market_tickers@) as usize)
                } else {
                    start_ts >= end_ts && e == Error::InvalidTimestampRange(start_ts, end_ts)
                },
            }),
    {
        let ticker_count = count_nonempty_segments(market_tickers);
        if ticker_count > MAX_BATCH_CANDLESTICKS_TICKERS {
            return Err(Error::TooManyMarketTickers(ticker_count));
        }
        if start_ts >= end_ts {
            return Err(Error::InvalidTimestampRange(start_ts, end_ts));
        }
        Ok(GetBatchCandlesticksParams {
            market_tickers: String::from_str(market_tickers),
            start_ts,
            end_ts,
            period_interval: period_interval.as_minutes(),
            include_latest_before_start: None,
        })
    }

    /// Batch candlestick parameters; at most
    /// `MAX_BATCH_CANDLESTICKS_TICKERS` non-empty tickers, and the start
    /// must be before the end.
    pub fn new(market_tickers: &str, start_ts: i64, end_ts: i64, period_interval: CandlestickPeriod) -> (r: Self)
        requires
            nonempty_segment_count(market_tickers@) <= MAX_BATCH_CANDLESTICKS_TICKERS,
            start_ts < end_ts,
        ensures
            r.market_tickers@ == market_tickers@,
            r.start_ts == start_ts,
            r.end_ts == end_ts,
            r.period_interval == period_interval.minutes(),
            r.include_latest_before_start is None,
    {
        GetBatchCandlesticksParams {
            market_tickers: String::from_str(market_tickers),
            start_ts,
            end_ts,
            period_interval: period_interval.as_minutes(),
            include_latest_before_start: None,
        }
    }

    /// Batch candlestick parameters for a list of tickers, joined with `,`.
    pub fn from_tickers(tickers: &[&str], start_ts: i64, end_ts: i64, period_interval: CandlestickPeriod) -> (r: Self)
        requires
            nonempty_segment_count(join_commas(str_views(tickers@))) <= MAX_BATCH_CANDLESTICKS_TICKERS,
            start_ts < end_ts,
        ensures
            r.market_tickers@ == join_commas(str_views(tickers@)),
            r.start_ts == start_ts,
            r.end_ts == end_ts,
            r.period_interval == period_interval.minutes(),
            r.include_latest_before_start is None,
    {
        let joined = join_with_commas(tickers);
        Self::new(joined.as_str(), start_ts, end_ts, period_interval)
    }

    /// Batch candlestick parameters for a list of tickers joined with `,`,
    /// validated as `try_new` does.
    pub fn try_from_tickers(tickers: &[&str], start_ts: i64, end_ts: i64, period_interval: CandlestickPeriod) -> (r: Result<Self, Error>)
        ensures
            ({
                let joined = join_commas(str_views(tickers@));
                match r {
                    Ok(p) => nonempty_segment_count(joined) <= MAX_BATCH_CANDLESTICKS_TICKERS
                        && start_ts < end_ts && p.market_tickers@ == joined
                        && p.start_ts == start_ts && p.end_ts == end_ts
                        && p.period_interval == period_interval.minutes()
                        && p.include_latest_before_start is None,
                    Err(e) => if nonempty_segment_count(joined) > MAX_BATCH_CANDLESTICKS_TICKERS {
                        e == Error::TooManyMarketTickers(nonempty_segment_count(joined) as usize)
                    } else {
                        start_ts >= end_ts && e == Error::InvalidTimestampRange(start_ts, end_ts)
                    },
                }
            }),
    {
        let joined = join_with_commas(tickers);
        Self::try_new(joined.as_str(), start_ts, end_ts, period_interval)
    }
}

impl MarketStatus {
    /// The wire name of this value.
    pub open spec fn wire_name(&self) -> Seq<char> {
        match self {
            MarketStatus::Initialized => "initialized"@,
            MarketStatus::Inactive => "inactive"@,
            MarketStatus::Active => "active"@,
            MarketStatus::Closed => "closed"@,
            MarketStatus::Determined => "determined"@,
            MarketStatus::Disputed => "disputed"@,
            MarketStatus::Amended => "amended"@,
            MarketStatus::Finalized => "finalized"@,
            MarketStatus::Unknown => "unknown"@,
        }
    }

    /// The wire name of an optional value.
    pub open spec fn opt_wire(o: Option<Self>) -> Option<Seq<char>> {
        match o {
            Some(v) => Some(v.wire_name()),
            None => None,
        }
    }

    /// Returns the lowercase API representation.
    pub fn as_str(&self) -> (s: &'static str)
        ensures
            s@ == self.wire_name(),
    {
        match self {
            MarketStatus::Initialized => "initialized",
            MarketStatus::Inactive => "inactive",
            MarketStatus::Active => "active",
            MarketStatus::Closed => "closed",
            MarketStatus::Determined => "determined",
            MarketStatus::Disputed => "disputed",
            MarketStatus::Amended => "amended",
            MarketStatus::Finalized => "finalized",
            MarketStatus::Unknown => "unknown",
        }
    }

    /// The wire name of an optional value.
    pub fn opt_as_str(o: Option<Self>) -> (r: Option<&'static str>)
        ensures
            opt_str_text(r) == Self::opt_wire(o),
    {
        match o {
            Some(v) => Some(v.as_str()),
            None => None,
        }
    }
}

impl MarketFilterStatus {
    /// The wire name of this value.
    pub open spec fn wire_name(&self) -> Seq<char> {
        match self {
            MarketFilterStatus::Unopened => "unopened"@,
            MarketFilterStatus::Open => "open"@,
            MarketFilterStatus::Paused => "paused"@,
            MarketFilterStatus::Closed => "closed"@,
            MarketFilterStatus::Settled => "settled"@,
        }
    }

    /// The wire name of an optional value.
    pub open spec fn opt_wire(o: Option<Self>) -> Option<Seq<char>> {
        match o {
            Some(v) => Some(v.wire_name()),
            None => None,
        }
    }

    /// Returns the lowercase API representation.
    pub fn as_str(&self) -> (s: &'static str)
        ensures
            s@ == self.wire_name(),
    {
        match self {
            MarketFilterStatus::Unopened => "unopened",
            MarketFilterStatus::Open => "open",
            MarketFilterStatus::Paused => "paused",
            MarketFilterStatus::Closed => "closed",
            MarketFilterStatus::Settled => "settled",
        }
    }

    /// The wire name of an optional value.
    pub fn opt_as_str(o: Option<Self>) -> (r: Option<&'static str>)
        ensures
            opt_str_text(r) == Self::opt_wire(o),
    {
        match o {
            Some(v) => Some(v.as_str()),
            None => None,
        }
    }
}

impl MveFilter {
    /// The wire name of this value.
    pub open spec fn wire_name(&self) -> Seq<char> {
        match self {
            MveFilter::Only => "only"@,
            MveFilter::Exclude => "exclude"@,
        }
    }

    /// The wire name of an optional value.
    pub open spec fn opt_wire(o: Option<Self>) -> Option<Seq<char>> {
        match o {
            Some(v) => Some(v.wire_name()),
            None => None,
        }
    }

    /// Returns the lowercase API representation.
    pub fn as_str(&self) -> (s: &'static str)
        ensures
            s@ == self.wire_name(),
    {
        match self {
            MveFilter::Only => "only",
            MveFilter::Exclude => "exclude",
        }
    }

    /// The wire name of an optional value.
    pub fn opt_as_str(o: Option<Self>) -> (r: Option<&'static str>)
        ensures
            opt_str_text(r) == Self::opt_wire(o),
    {
        match o {
            Some(v) => Some(v.as_str()),
            None => None,
        }
    }
}


/// Each parameter of `GetMarketsParams` is sent under its own name with its own
/// value, and a parameter that is not set is not sent.
#[verifier::rlimit(40)]
pub proof fn law_get_markets_params_query_fields(p: GetMarketsParams)
    ensures
        query_value(p.query_pairs(), "limit"@) == opt_i64_text(p.limit),
        query_value(p.query_pairs(), "cursor"@) == opt_text(p.cursor),
        query_value(p.query_pairs(), "event_ticker"@) == opt_text(p.event_ticker),
        query_value(p.query_pairs(), "series_ticker"@) == opt_text(p.series_ticker),
        query_value(p.query_pairs(), "tickers"@) == opt_text(p.tickers),
        query_value(p.query_pairs(), "status"@) == MarketFilterStatus::opt_wire(p.status),
        query_value(p.query_pairs(), "min_created_ts"@) == opt_i64_text(p.min_created_ts),
        query_value(p.query_pairs(), "max_created_ts"@) == opt_i64_text(p.max_created_ts),
        query_value(p.query_pairs(), "min_close_ts"@) == opt_i64_text(p.min_close_ts),
        query_value(p.query_pairs(), "max_close_ts"@) == opt_i64_text(p.max_close_ts),
        query_value(p.query_pairs(), "min_settled_ts"@) == opt_i64_text(p.min_settled_ts),
        query_value(p.query_pairs(), "max_settled_ts"@) == opt_i64_text(p.max_settled_ts),
        query_value(p.query_pairs(), "mve_filter"@) == MveFilter::opt_wire(p.mve_filter),
{
    broadcast use group_query_value;
    reveal_strlit("limit");
    reveal_strlit("cursor");
    reveal_strlit("event_ticker");
    reveal_strlit("series_ticker");
    reveal_strlit("tickers");
    reveal_strlit("status");
    reveal_strlit("min_created_ts");
    reveal_strlit("max_created_ts");
    reveal_strlit("min_close_ts");
    reveal_strlit("max_close_ts");
    reveal_strlit("min_settled_ts");
    reveal_strlit("max_settled_ts");
    reveal_strlit("mve_filter");
    assert("limit"@.len() == 5);
    assert("cursor"@.len() == 6);
    assert("event_ticker"@.len() == 12);
    assert("series_ticker"@.len() == 13);
    assert("tickers"@.len() == 7);
    assert("status"@.len() == 6);
    assert("min_created_ts"@.len() == 14);
    assert("max_created_ts"@.len() == 14);
    assert("min_close_ts"@.len() == 12);
    assert("max_close_ts"@.len() == 12);
    assert("min_settled_ts"@.len() == 14);
    assert("max_settled_ts"@.len() == 14);
    assert("mve_filter"@.len() == 10);
    assert("status"@[0] != "cursor"@[0]);
    assert("max_created_ts"@[1] != "min_created_ts"@[1]);
    assert("min_close_ts"@[0] != "event_ticker"@[0]);
    assert("max_close_ts"@[0] != "event_ticker"@[0]);
    assert("max_close_ts"@[1] != "min_close_ts"@[1]);
    assert("min_settled_ts"@[4] != "min_created_ts"@[4]);
    assert("min_settled_ts"@[1] != "max_created_ts"@[1]);
    assert("max_settled_ts"@[1] != "min_created_ts"@[1]);
    assert("max_settled_ts"@[4] != "max_created_ts"@[4]);
    assert("max_settled_ts"@[1] != "min_settled_ts"@[1]);
}

/// Each parameter of `GetOrderbookParams` is sent under its own name with its own
/// value, and a parameter that is not set is not sent.
pub proof fn law_get_orderbook_params_query_fields(p: GetOrderbookParams)
    ensures
        query_value(p.query_pairs(), "depth"@) == opt_i64_text(p.depth),
{
    broadcast use group_query_value;
    reveal_strlit("depth");
    assert("depth"@.len() == 5);

}

/// Each parameter of `GetTradesParams` is sent under its own name with its own
/// value, and a parameter that is not set is not sent.
pub proof fn law_get_trades_params_query_fields(p: GetTradesParams)
    ensures
        query_value(p.query_pairs(), "limit"@) == opt_i64_text(p.limit),
        query_value(p.query_pairs(), "cursor"@) == opt_text(p.cursor),
        query_value(p.query_pairs(), "ticker"@) == opt_text(p.ticker),
        query_value(p.query_pairs(), "min_ts"@) == opt_i64_text(p.min_ts),
        query_value(p.query_pairs(), "max_ts"@) == opt_i64_text(p.max_ts),
{
    broadcast use group_query_value;
    reveal_strlit("limit");
    reveal_strlit("cursor");
    reveal_strlit("ticker");
    reveal_strlit("min_ts");
    reveal_strlit("max_ts");
    assert("limit"@.len() == 5);
    assert("cursor"@.len() == 6);
    assert("ticker"@.len() == 6);
    assert("min_ts"@.len() == 6);
    assert("max_ts"@.len() == 6);
    assert("ticker"@[0] != "cursor"@[0]);
    assert("min_ts"@[0] != "cursor"@[0]);
    assert("min_ts"@[0] != "ticker"@[0]);
    assert("max_ts"@[0] != "cursor"@[0]);
    assert("max_ts"@[0] != "ticker"@[0]);
    assert("max_ts"@[1] != "min_ts"@[1]);
}

/// Each parameter of `GetCandlesticksParams` is sent under its own name with its own
/// value, and a parameter that is not set is not sent.
pub proof fn law_get_candlesticks_params_query_fields(p: GetCandlesticksParams)
    ensures
        query_value(p.query_pairs(), "start_ts"@) == Some(int_to_decimal(p.start_ts as int)),
        query_value(p.query_pairs(), "end_ts"@) == Some(int_to_decimal(p.end_ts as int)),
        query_value(p.query_pairs(), "period_interval"@) == Some(int_to_decimal(p.period_interval.minutes())),
        query_value(p.query_pairs(), "include_latest_before_start"@) == opt_bool_text(p.include_latest_before_start),
{
    broadcast use group_query_value;
    reveal_strlit("start_ts");
    reveal_strlit("end_ts");
    reveal_strlit("period_interval");
    reveal_strlit("include_latest_before_start");
    assert("start_ts"@.len() == 8);
    assert("end_ts"@.len() == 6);
    assert("period_interval"@.len() == 15);
    assert("include_latest_before_start"@.len() == 27);

}

/// Each parameter of `GetBatchCandlesticksParams` is sent under its own name with its own
/// value, and a parameter that is not set is not sent.
pub proof fn law_get_batch_candlesticks_params_query_fields(p: GetBatchCandlesticksParams)
    ensures
        query_value(p.query_pairs(), "market_tickers"@) == Some(p.market_tickers@),
        query_value(p.query_pairs(), "start_ts"@) == Some(int_to_decimal(p.start_ts as int)),
        query_value(p.query_pairs(), "end_ts"@) == Some(int_to_decimal(p.end_ts as int)),
        query_value(p.query_pairs(), "period_interval"@) == Some(int_to_decimal(p.period_interval as int)),
        query_value(p.query_pairs(), "include_latest_before_start"@) == opt_bool_text(p.include_latest_before_start),
{
    broadcast use group_query_value;
    reveal_strlit("market_tickers");
    reveal_strlit("start_ts");
    reveal_strlit("end_ts");
    reveal_strlit("period_interval");
    reveal_strlit("include_latest_before_start");
    assert("market_tickers"@.len() == 14);
    assert("start_ts"@.len() == 8);
    assert("end_ts"@.len() == 6);
    assert("period_interval"@.len() == 15);
    assert("include_latest_before_start"@.len() == 27);

}

} // verus!
