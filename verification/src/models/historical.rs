//! Historical data models and query parameters.

use vstd::prelude::*;
use crate::models::query::{query_value, group_query_value, QueryBuilder, QueryPairs, query_string, opt_pair, opt_text, opt_str_text, opt_i64_text, opt_i32_text, opt_bool_text};
use crate::text::{int_to_decimal, clamp_int, clamp_i64, clamp_i32};
use crate::error::Error;
use crate::models::market::{CandlestickPeriod, MveFilter};

verus! {

/// Response from GET /historical/cutoff.
///
/// Contains timestamps indicating when historical data was last updated.
#[derive(Debug, Clone)]
pub struct HistoricalCutoffResponse {
    /// ISO 8601 datetime when market settlement data was last archived.
    pub market_settled_ts: String,
    /// ISO 8601 datetime when trade data was last archived.
    pub trades_created_ts: String,
    /// ISO 8601 datetime when order data was last archived.
    pub orders_updated_ts: String,
}

/// Query parameters for GET /historical/markets.
#[derive(Debug, Clone)]
pub struct GetHistoricalMarketsParams {
    pub limit: Option<i64>,
    pub cursor: Option<String>,
    /// Filter by specific market tickers. Comma-separated list.
    pub tickers: Option<String>,
    /// Filter by event ticker. Comma-separated, max 10.
    pub event_ticker: Option<String>,
    /// Filter by multivariate event status.
    pub mve_filter: Option<MveFilter>,
}

impl GetHistoricalMarketsParams {
    /// Parameters with nothing set.
    pub fn new() -> (r: Self)
        ensures
            r.limit is None,
            r.cursor is None,
            r.tickers is None,
            r.event_ticker is None,
            r.mve_filter is None,
    {
        GetHistoricalMarketsParams { limit: None, cursor: None, tickers: None, event_ticker: None, mve_filter: None }
    }

    pub fn try_limit(self, limit: i64) -> (r: Result<Self, Error>)
        ensures
            (match r {
                Ok(p) => 1 <= limit <= 1000 && p.limit == Some(limit) && p.cursor == self.cursor && p.tickers == self.tickers && p.event_ticker == self.event_ticker && p.mve_filter == self.mve_filter,
                Err(e) => !(1 <= limit <= 1000) && e == Error::InvalidLimit(limit, 1, 1000),
            }),
    {
        if limit < 1 || limit > 1000 {
            return Err(Error::InvalidLimit(limit, 1, 1000));
        }
        let mut s = self;
        s.limit = Some(limit);
        Ok(s)
    }

    pub fn limit(self, limit: i64) -> (r: Self)
        requires
            1 <= limit <= 1000,
        ensures
            r.limit == Some(limit),
            r.cursor == self.cursor,
            r.tickers == self.tickers,
            r.event_ticker == self.event_ticker,
            r.mve_filter == self.mve_filter,
    {
        let mut s = self;
        s.limit = Some(limit);
        s
    }

    pub fn cursor(self, cursor: &str) -> (r: Self)
        ensures
            opt_text(r.cursor) == Some(cursor@),
            r.limit == self.limit,
            r.tickers == self.tickers,
            r.event_ticker == self.event_ticker,
            r.mve_filter == self.mve_filter,
    {
        let mut s = self;
        s.cursor = Some(String::from_str(cursor));
        s
    }

    pub fn tickers(self, tickers: &str) -> (r: Self)
        ensures
            opt_text(r.tickers) == Some(tickers@),
            r.limit == self.limit,
            r.cursor == self.cursor,
            r.event_ticker == self.event_ticker,
            r.mve_filter == self.mve_filter,
    {
        let mut s = self;
        s.tickers = Some(String::from_str(tickers));
        s
    }

    pub fn event_ticker(self, event_ticker: &str) -> (r: Self)
        ensures
            opt_text(r.event_ticker) == Some(event_ticker@),
            r.limit == self.limit,
            r.cursor == self.cursor,
            r.tickers == self.tickers,
            r.mve_filter == self.mve_filter,
    {
        let mut s = self;
        s.event_ticker = Some(String::from_str(event_ticker));
        s
    }

    pub fn mve_filter(self, filter: MveFilter) -> (r: Self)
        ensures
            r.mve_filter == Some(filter),
            r.limit == self.limit,
            r.cursor == self.cursor,
            r.tickers == self.tickers,
            r.event_ticker == self.event_ticker,
    {
        let mut s = self;
        s.mve_filter = Some(filter);
        s
    }

    /// The query pairs of these parameters, in the order they are sent.
    pub open spec fn query_pairs(&self) -> QueryPairs {
        (((((Seq::empty() + opt_pair("limit"@, opt_i64_text(self.limit))) + opt_pair("cursor"@, opt_text(self.cursor))) + opt_pair("tickers"@, opt_text(self.tickers))) + opt_pair("event_ticker"@, opt_text(self.event_ticker))) + opt_pair("mve_filter"@, MveFilter::opt_wire(self.mve_filter)))
    }

    /// The URL query string (`?` and the encoded pairs; empty when no pair is set).
    pub fn to_query_string(&self) -> (s: String)
        ensures
            s@ == query_string(self.query_pairs()),
    {
        let mut qb = QueryBuilder::new();
        qb.push_opt_i64("limit", self.limit);
        qb.push_opt_str("cursor", &self.cursor);
        qb.push_opt_str("tickers", &self.tickers);
        qb.push_opt_str("event_ticker", &self.event_ticker);
        qb.push_opt_static("mve_filter", MveFilter::opt_as_str(self.mve_filter));
        qb.build()
    }
}

impl Default for GetHistoricalMarketsParams {
    fn default() -> (r: Self)
        ensures
            r.limit is None,
            r.cursor is None,
            r.tickers is None,
            r.event_ticker is None,
            r.mve_filter is None,
    {
        Self::new()
    }
}

/// Query parameters for GET /historical/markets/{ticker}/candlesticks.
///
/// Similar to [`GetCandlesticksParams`](super::market::GetCandlesticksParams)
/// but without the `include_latest_before_start` option.
#[derive(Debug, Clone)]
pub struct GetHistoricalCandlesticksParams {
    /// Start timestamp (Unix seconds).
    pub start_ts: i64,
    /// End timestamp (Unix seconds).
    pub end_ts: i64,
    /// Candlestick period interval.
    pub period_interval: CandlestickPeriod,
}

impl GetHistoricalCandlesticksParams {
    /// The query pairs of these parameters, in the order they are sent.
    pub open spec fn query_pairs(&self) -> QueryPairs {
        Seq::empty().push(("start_ts"@, int_to_decimal(self.start_ts as int))).push(("end_ts"@, int_to_decimal(self.end_ts as int))).push(("period_interval"@, int_to_decimal(self.period_interval.minutes())))
    }

    /// The URL query string (`?` and the encoded pairs; empty when no pair is set).
    pub fn to_query_string(&self) -> (s: String)
        ensures
            s@ == query_string(self.query_pairs()),
    {
        let mut qb = QueryBuilder::new();
        qb.push_int("start_ts", self.start_ts);
        qb.push_int("end_ts", self.end_ts);
        qb.push_int("period_interval", self.period_interval.as_minutes() as i64);
        qb.build()
    }


    /// Historical candlestick parameters for `start_ts..end_ts`; the start
    /// must be before the end.
    pub fn new(start_ts: i64, end_ts: i64, period_interval: CandlestickPeriod) -> (r: Self)
        requires
            start_ts < end_ts,
        ensures
            r.start_ts == start_ts,
            r.end_ts == end_ts,
            r.period_interval == period_interval,
    {
        GetHistoricalCandlesticksParams { start_ts, end_ts, period_interval }
    }

    /// Historical candlestick parameters for `start_ts..end_ts`, rejecting
    /// a range whose start is not before its end.
    pub fn try_new(start_ts: i64, end_ts: i64, period_interval: CandlestickPeriod) -> (r: Result<Self, Error>)
        ensures
            (match r {
                Ok(p) => start_ts < end_ts && p.start_ts == start_ts && p.end_ts == end_ts && p.period_interval == period_interval,
                Err(e) => start_ts >= end_ts && e == Error::InvalidTimestampRange(start_ts, end_ts),
            }),
    {
        if start_ts >= end_ts {
            return Err(Error::InvalidTimestampRange(start_ts, end_ts));
        }
        Ok(GetHistoricalCandlesticksParams { start_ts, end_ts, period_interval })
    }
}

/// Query parameters for GET /historical/fills.
#[derive(Debug, Clone)]
pub struct GetHistoricalFillsParams {
    pub ticker: Option<String>,
    pub max_ts: Option<i64>,
    pub limit: Option<i64>,
    pub cursor: Option<String>,
}

impl GetHistoricalFillsParams {
    /// Parameters with nothing set.
    pub fn new() -> (r: Self)
        ensures
            r.ticker is None,
            r.max_ts is None,
            r.limit is None,
            r.cursor is None,
    {
        GetHistoricalFillsParams { ticker: None, max_ts: None, limit: None, cursor: None }
    }

    pub fn ticker(self, ticker: &str) -> (r: Self)
        ensures
            opt_text(r.ticker) == Some(ticker@),
            r.max_ts == self.max_ts,
            r.limit == self.limit,
            r.cursor == self.cursor,
    {
        let mut s = self;
        s.ticker = Some(String::from_str(ticker));
        s
    }

    pub fn max_ts(self, ts: i64) -> (r: Self)
        ensures
            r.max_ts == Some(ts),
            r.ticker == self.ticker,
            r.limit == self.limit,
            r.cursor == self.cursor,
    {
        let mut s = self;
        s.max_ts = Some(ts);
        s
    }

    pub fn try_limit(self, limit: i64) -> (r: Result<Self, Error>)
        ensures
            (match r {
                Ok(p) => 1 <= limit <= 200 && p.limit == Some(limit) && p.ticker == self.ticker && p.max_ts == self.max_ts && p.cursor == self.cursor,
                Err(e) => !(1 <= limit <= 200) && e == Error::InvalidLimit(limit, 1, 200),
            }),
    {
        if limit < 1 || limit > 200 {
            return Err(Error::InvalidLimit(limit, 1, 200));
        }
        let mut s = self;
        s.limit = Some(limit);
        Ok(s)
    }

    pub fn limit(self, limit: i64) -> (r: Self)
        requires
            1 <= limit <= 200,
        ensures
            r.limit == Some(limit),
            r.ticker == self.ticker,
            r.max_ts == self.max_ts,
            r.cursor == self.cursor,
    {
        let mut s = self;
        s.limit = Some(limit);
        s
    }

    pub fn cursor(self, cursor: &str) -> (r: Self)
        ensures
            opt_text(r.cursor) == Some(cursor@),
            r.ticker == self.ticker,
            r.max_ts == self.max_ts,
            r.limit == self.limit,
    {
        let mut s = self;
        s.cursor = Some(String::from_str(cursor));
        s
    }

    /// The query pairs of these parameters, in the order they are sent.
    pub open spec fn query_pairs(&self) -> QueryPairs {
        ((((Seq::empty() + opt_pair("ticker"@, opt_text(self.ticker))) + opt_pair("max_ts"@, opt_i64_text(self.max_ts))) + opt_pair("limit"@, opt_i64_text(self.limit))) + opt_pair("cursor"@, opt_text(self.cursor)))
    }

    /// The URL query string (`?` and the encoded pairs; empty when no pair is set).
    pub fn to_query_string(&self) -> (s: String)
        ensures
            s@ == query_string(self.query_pairs()),
    {
        let mut qb = QueryBuilder::new();
        qb.push_opt_str("ticker", &self.ticker);
        qb.push_opt_i64("max_ts", self.max_ts);
        qb.push_opt_i64("limit", self.limit);
        qb.push_opt_str("cursor", &self.cursor);
        qb.build()
    }
}

impl Default for GetHistoricalFillsParams {
    fn default() -> (r: Self)
        ensures
            r.ticker is None,
            r.max_ts is None,
            r.limit is None,
            r.cursor is None,
    {
        Self::new()
    }
}

/// Query parameters for GET /historical/orders.
#[derive(Debug, Clone)]
pub struct GetHistoricalOrdersParams {
    pub ticker: Option<String>,
    pub max_ts: Option<i64>,
    pub limit: Option<i64>,
    pub cursor: Option<String>,
}

impl GetHistoricalOrdersParams {
    /// Parameters with nothing set.
    pub fn new() -> (r: Self)
        ensures
            r.ticker is None,
            r.max_ts is None,
            r.limit is None,
            r.cursor is None,
    {
        GetHistoricalOrdersParams { ticker: None, max_ts: None, limit: None, cursor: None }
    }

    pub fn ticker(self, ticker: &str) -> (r: Self)
        ensures
            opt_text(r.ticker) == Some(ticker@),
            r.max_ts == self.max_ts,
            r.limit == self.limit,
            r.cursor == self.cursor,
    {
        let mut s = self;
        s.ticker = Some(String::from_str(ticker));
        s
    }

    pub fn max_ts(self, ts: i64) -> (r: Self)
        ensures
            r.max_ts == Some(ts),
            r.ticker == self.ticker,
            r.limit == self.limit,
            r.cursor == self.cursor,
    {
        let mut s = self;
        s.max_ts = Some(ts);
        s
    }

    pub fn try_limit(self, limit: i64) -> (r: Result<Self, Error>)
        ensures
            (match r {
                Ok(p) => 1 <= limit <= 200 && p.limit == Some(limit) && p.ticker == self.ticker && p.max_ts == self.max_ts && p.cursor == self.cursor,
                Err(e) => !(1 <= limit <= 200) && e == Error::InvalidLimit(limit, 1, 200),
            }),
    {
        if limit < 1 || limit > 200 {
            return Err(Error::InvalidLimit(limit, 1, 200));
        }
        let mut s = self;
        s.limit = Some(limit);
        Ok(s)
    }

    pub fn limit(self, limit: i64) -> (r: Self)
        requires
            1 <= limit <= 200,
        ensures
            r.limit == Some(limit),
            r.ticker == self.ticker,
            r.max_ts == self.max_ts,
            r.cursor == self.cursor,
    {
        let mut s = self;
        s.limit = Some(limit);
        s
    }

    pub fn cursor(self, cursor: &str) -> (r: Self)
        ensures
            opt_text(r.cursor) == Some(cursor@),
            r.ticker == self.ticker,
            r.max_ts == self.max_ts,
            r.limit == self.limit,
    {
        let mut s = self;
        s.cursor = Some(String::from_str(cursor));
        s
    }

    /// The query pairs of these parameters, in the order they are sent.
    pub open spec fn query_pairs(&self) -> QueryPairs {
        ((((Seq::empty() + opt_pair("ticker"@, opt_text(self.ticker))) + opt_pair("max_ts"@, opt_i64_text(self.max_ts))) + opt_pair("limit"@, opt_i64_text(self.limit))) + opt_pair("cursor"@, opt_text(self.cursor)))
    }

    /// The URL query string (`?` and the encoded pairs; empty when no pair is set).
    pub fn to_query_string(&self) -> (s: String)
        ensures
            s@ == query_string(self.query_pairs()),
    {
        let mut qb = QueryBuilder::new();
        qb.push_opt_str("ticker", &self.ticker);
        qb.push_opt_i64("max_ts", self.max_ts);
        qb.push_opt_i64("limit", self.limit);
        qb.push_opt_str("cursor", &self.cursor);
        qb.build()
    }
}

impl Default for GetHistoricalOrdersParams {
    fn default() -> (r: Self)
        ensures
            r.ticker is None,
            r.max_ts is None,
            r.limit is None,
            r.cursor is None,
    {
        Self::new()
    }
}

/// Response from GET /historical/markets/{ticker}/candlesticks.
///
/// Historical candlesticks use dollar-denominated string fields exclusively,
/// unlike live candlesticks which include both cent integers and dollar strings.
#[derive(Debug, Clone)]
pub struct HistoricalCandlesticksResponse {
    /// Market ticker.
    pub ticker: String,
    /// Array of historical candlestick data.
    pub candlesticks: Vec<HistoricalCandlestick>,
}

/// A single historical candlestick data point.
///
/// All monetary values are fixed-point dollar strings (e.g. `"0.5600"`).
/// Volume and open interest are fixed-point count strings (e.g. `"100.0000"`).
#[derive(Debug, Clone)]
pub struct HistoricalCandlestick {
    /// End of the period (Unix timestamp in seconds).
    pub end_period_ts: i64,
    /// YES bid OHLC data in dollars.
    pub yes_bid: HistoricalOhlc,
    /// YES ask OHLC data in dollars.
    pub yes_ask: HistoricalOhlc,
    /// Trade price OHLC data in dollars.
    pub price: HistoricalPriceOhlc,
    /// Trading volume during the period (fixed-point count string).
    pub volume: String,
    /// Open interest at end of period (fixed-point count string).
    pub open_interest: String,
}

/// OHLC data for historical bid/ask levels.
///
/// All values are fixed-point dollar strings (e.g. `"0.5600"`).
#[derive(Debug, Clone)]
pub struct HistoricalOhlc {
    /// Open price in dollars.
    pub open: String,
    /// Low price in dollars.
    pub low: String,
    /// High price in dollars.
    pub high: String,
    /// Close price in dollars.
    pub close: String,
}

/// Extended OHLC data for historical trade prices.
///
/// All values are nullable fixed-point dollar strings.
#[derive(Debug, Clone)]
pub struct HistoricalPriceOhlc {
    /// Open price in dollars.
    pub open: Option<String>,
    /// Low price in dollars.
    pub low: Option<String>,
    /// High price in dollars.
    pub high: Option<String>,
    /// Close price in dollars.
    pub close: Option<String>,
    /// Volume-weighted average price in dollars.
    pub mean: Option<String>,
    /// Previous period's close price in dollars.
    pub previous: Option<String>,
}


/// Each parameter of `GetHistoricalMarketsParams` is sent under its own name with its own
/// value, and a parameter that is not set is not sent.
pub proof fn law_get_historical_markets_params_query_fields(p: GetHistoricalMarketsParams)
    ensures
        query_value(p.query_pairs(), "limit"@) == opt_i64_text(p.limit),
        query_value(p.query_pairs(), "cursor"@) == opt_text(p.cursor),
        query_value(p.query_pairs(), "tickers"@) == opt_text(p.tickers),
        query_value(p.query_pairs(), "event_ticker"@) == opt_text(p.event_ticker),
        query_value(p.query_pairs(), "mve_filter"@) == MveFilter::opt_wire(p.mve_filter),
{
    broadcast use group_query_value;
    reveal_strlit("limit");
    reveal_strlit("cursor");
    reveal_strlit("tickers");
    reveal_strlit("event_ticker");
    reveal_strlit("mve_filter");
    assert("limit"@.len() == 5);
    assert("cursor"@.len() == 6);
    assert("tickers"@.len() == 7);
    assert("event_ticker"@.len() == 12);
    assert("mve_filter"@.len() == 10);

}

/// Each parameter of `GetHistoricalCandlesticksParams` is sent under its own name with its own
/// value, and a parameter that is not set is not sent.
pub proof fn law_get_historical_candlesticks_params_query_fields(p: GetHistoricalCandlesticksParams)
    ensures
        query_value(p.query_pairs(), "start_ts"@) == Some(int_to_decimal(p.start_ts as int)),
        query_value(p.query_pairs(), "end_ts"@) == Some(int_to_decimal(p.end_ts as int)),
        query_value(p.query_pairs(), "period_interval"@) == Some(int_to_decimal(p.period_interval.minutes())),
{
    broadcast use group_query_value;
    reveal_strlit("start_ts");
    reveal_strlit("end_ts");
    reveal_strlit("period_interval");
    assert("start_ts"@.len() == 8);
    assert("end_ts"@.len() == 6);
    assert("period_interval"@.len() == 15);

}

/// Each parameter of `GetHistoricalFillsParams` is sent under its own name with its own
/// value, and a parameter that is not set is not sent.
pub proof fn law_get_historical_fills_params_query_fields(p: GetHistoricalFillsParams)
    ensures
        query_value(p.query_pairs(), "ticker"@) == opt_text(p.ticker),
        query_value(p.query_pairs(), "max_ts"@) == opt_i64_text(p.max_ts),
        query_value(p.query_pairs(), "limit"@) == opt_i64_text(p.limit),
        query_value(p.query_pairs(), "cursor"@) == opt_text(p.cursor),
{
    broadcast use group_query_value;
    reveal_strlit("ticker");
    reveal_strlit("max_ts");
    reveal_strlit("limit");
    reveal_strlit("cursor");
    assert("ticker"@.len() == 6);
    assert("max_ts"@.len() == 6);
    assert("limit"@.len() == 5);
    assert("cursor"@.len() == 6);
    assert("max_ts"@[0] != "ticker"@[0]);
    assert("cursor"@[0] != "ticker"@[0]);
    assert("cursor"@[0] != "max_ts"@[0]);
}

/// Each parameter of `GetHistoricalOrdersParams` is sent under its own name with its own
/// value, and a parameter that is not set is not sent.
pub proof fn law_get_historical_orders_params_query_fields(p: GetHistoricalOrdersParams)
    ensures
        query_value(p.query_pairs(), "ticker"@) == opt_text(p.ticker),
        query_value(p.query_pairs(), "max_ts"@) == opt_i64_text(p.max_ts),
        query_value(p.query_pairs(), "limit"@) == opt_i64_text(p.limit),
        query_value(p.query_pairs(), "cursor"@) == opt_text(p.cursor),
{
    broadcast use group_query_value;
    reveal_strlit("ticker");
    reveal_strlit("max_ts");
    reveal_strlit("limit");
    reveal_strlit("cursor");
    assert("ticker"@.len() == 6);
    assert("max_ts"@.len() == 6);
    assert("limit"@.len() == 5);
    assert("cursor"@.len() == 6);
    assert("max_ts"@[0] != "ticker"@[0]);
    assert("cursor"@[0] != "ticker"@[0]);
    assert("cursor"@[0] != "max_ts"@[0]);
}

} // verus!
