//! FCM (Futures Commission Merchant) models and query parameters.
//!
//! These endpoints are specialized for FCM members only and allow
//! filtering orders and positions by subtrader ID.

use vstd::prelude::*;
use crate::models::query::{query_value, group_query_value, QueryBuilder, QueryPairs, query_string, opt_pair, opt_text, opt_str_text, opt_i64_text, opt_i32_text, opt_bool_text};
use crate::text::{int_to_decimal, clamp_int, clamp_i64, clamp_i32};
use crate::error::Error;
use crate::models::common::OrderStatus;

verus! {

/// Settlement status filter for FCM positions.
#[derive(Debug, Clone, Copy, PartialEq, Eq, Structural)]
pub enum SettlementStatus {
    /// Return all positions regardless of settlement status.
    All,
    /// Return only unsettled positions (default).
    Unsettled,
    /// Return only settled positions.
    Settled,
}

/// Query parameters for GET /fcm/orders endpoint.
///
/// This endpoint is for FCM members to get orders filtered by subtrader ID.
///
/// # Example
///
/// ```
/// use kalshi_trade_rs::{GetFcmOrdersParams, OrderStatus};
///
/// let params = GetFcmOrdersParams::new("subtrader-123")
///     .status(OrderStatus::Resting)
///     .limit(100);
/// ```
#[derive(Debug, Clone)]
pub struct GetFcmOrdersParams {
    /// Restricts the response to orders for a specific subtrader (required).
    pub subtrader_id: String,
    /// Pagination cursor for retrieving next page.
    pub cursor: Option<String>,
    /// Event ticker filter. Multiple event tickers can be provided as
    /// a comma-separated list (maximum 10).
    pub event_ticker: Option<String>,
    /// Market ticker filter.
    pub ticker: Option<String>,
    /// Restricts the response to orders after this timestamp (Unix seconds).
    pub min_ts: Option<i64>,
    /// Restricts the response to orders before this timestamp (Unix seconds).
    pub max_ts: Option<i64>,
    /// Restricts the response to orders with a specific status.
    pub status: Option<OrderStatus>,
    /// Number of results per page (1-1000, default: 100).
    pub limit: Option<i64>,
}

impl GetFcmOrdersParams {
    /// Creates a new value with the given required fields; all optional fields are unset.
    pub fn new(subtrader_id: &str) -> (r: Self)
        ensures
            r.subtrader_id@ == subtrader_id@,
            r.cursor is None,
            r.event_ticker is None,
            r.ticker is None,
            r.min_ts is None,
            r.max_ts is None,
            r.status is None,
            r.limit is None,
    {
        GetFcmOrdersParams { subtrader_id: String::from_str(subtrader_id), cursor: None, event_ticker: None, ticker: None, min_ts: None, max_ts: None, status: None, limit: None }
    }

    pub fn cursor(self, cursor: &str) -> (r: Self)
        ensures
            opt_text(r.cursor) == Some(cursor@),
            r.subtrader_id == self.subtrader_id,
            r.event_ticker == self.event_ticker,
            r.ticker == self.ticker,
            r.min_ts == self.min_ts,
            r.max_ts == self.max_ts,
            r.status == self.status,
            r.limit == self.limit,
    {
        let mut s = self;
        s.cursor = Some(String::from_str(cursor));
        s
    }

    pub fn event_ticker(self, event_ticker: &str) -> (r: Self)
        ensures
            opt_text(r.event_ticker) == Some(event_ticker@),
            r.subtrader_id == self.subtrader_id,
            r.cursor == self.cursor,
            r.ticker == self.ticker,
            r.min_ts == self.min_ts,
            r.max_ts == self.max_ts,
            r.status == self.status,
            r.limit == self.limit,
    {
        let mut s = self;
        s.event_ticker = Some(String::from_str(event_ticker));
        s
    }

    pub fn ticker(self, ticker: &str) -> (r: Self)
        ensures
            opt_text(r.ticker) == Some(ticker@),
            r.subtrader_id == self.subtrader_id,
            r.cursor == self.cursor,
            r.event_ticker == self.event_ticker,
            r.min_ts == self.min_ts,
            r.max_ts == self.max_ts,
            r.status == self.status,
            r.limit == self.limit,
    {
        let mut s = self;
        s.ticker = Some(String::from_str(ticker));
        s
    }

    pub fn min_ts(self, ts: i64) -> (r: Self)
        ensures
            r.min_ts == Some(ts),
            r.subtrader_id == self.subtrader_id,
            r.cursor == self.cursor,
            r.event_ticker == self.event_ticker,
            r.ticker == self.ticker,
            r.max_ts == self.max_ts,
            r.status == self.status,
            r.limit == self.limit,
    {
        let mut s = self;
        s.min_ts = Some(ts);
        s
    }

    pub fn max_ts(self, ts: i64) -> (r: Self)
        ensures
            r.max_ts == Some(ts),
            r.subtrader_id == self.subtrader_id,
            r.cursor == self.cursor,
            r.event_ticker == self.event_ticker,
            r.ticker == self.ticker,
            r.min_ts == self.min_ts,
            r.status == self.status,
            r.limit == self.limit,
    {
        let mut s = self;
        s.max_ts = Some(ts);
        s
    }

    pub fn status(self, status: OrderStatus) -> (r: Self)
        ensures
            r.status == Some(status),
            r.subtrader_id == self.subtrader_id,
            r.cursor == self.cursor,
            r.event_ticker == self.event_ticker,
            r.ticker == self.ticker,
            r.min_ts == self.min_ts,
            r.max_ts == self.max_ts,
            r.limit == self.limit,
    {
        let mut s = self;
        s.status = Some(status);
        s
    }

    pub fn limit(self, limit: i64) -> (r: Self)
        requires
            1 <= limit <= 1000,
        ensures
            r.limit == Some(limit),
            r.subtrader_id == self.subtrader_id,
            r.cursor == self.cursor,
            r.event_ticker == self.event_ticker,
            r.ticker == self.ticker,
            r.min_ts == self.min_ts,
            r.max_ts == self.max_ts,
            r.status == self.status,
    {
        let mut s = self;
        s.limit = Some(limit);
        s
    }

    /// The query pairs of these parameters, in the order they are sent.
    pub open spec fn query_pairs(&self) -> QueryPairs {
        (((((((Seq::empty().push(("subtrader_id"@, self.subtrader_id@)) + opt_pair("cursor"@, opt_text(self.cursor))) + opt_pair("event_ticker"@, opt_text(self.event_ticker))) + opt_pair("ticker"@, opt_text(self.ticker))) + opt_pair("min_ts"@, opt_i64_text(self.min_ts))) + opt_pair("max_ts"@, opt_i64_text(self.max_ts))) + opt_pair("status"@, OrderStatus::opt_wire(self.status))) + opt_pair("limit"@, opt_i64_text(self.limit)))
    }

    /// The URL query string (`?` and the encoded pairs; empty when no pair is set).
    pub fn to_query_string(&self) -> (s: String)
        ensures
            s@ == query_string(self.query_pairs()),
    {
        let mut qb = QueryBuilder::new();
        qb.push_str("subtrader_id", self.subtrader_id.as_str());
        qb.push_opt_str("cursor", &self.cursor);
        qb.push_opt_str("event_ticker", &self.event_ticker);
        qb.push_opt_str("ticker", &self.ticker);
        qb.push_opt_i64("min_ts", self.min_ts);
        qb.push_opt_i64("max_ts", self.max_ts);
        qb.push_opt_static("status", OrderStatus::opt_as_str(self.status));
        qb.push_opt_i64("limit", self.limit);
        qb.build()
    }
}

/// Query parameters for GET /fcm/positions endpoint.
///
/// This endpoint is for FCM members to get positions filtered by subtrader ID.
///
/// # Example
///
/// ```
/// use kalshi_trade_rs::{GetFcmPositionsParams, SettlementStatus};
///
/// let params = GetFcmPositionsParams::new("subtrader-123")
///     .settlement_status(SettlementStatus::Unsettled)
///     .limit(100);
/// ```
#[derive(Debug, Clone)]
pub struct GetFcmPositionsParams {
    /// Restricts the response to positions for a specific subtrader (required).
    pub subtrader_id: String,
    /// Market ticker filter.
    pub ticker: Option<String>,
    /// Event ticker filter.
    pub event_ticker: Option<String>,
    /// Restricts positions to those with non-zero values in specified fields
    /// (comma-separated list).
    pub count_filter: Option<String>,
    /// Settlement status filter (default: unsettled).
    pub settlement_status: Option<SettlementStatus>,
    /// Number of results per page (1-1000, default: 100).
    pub limit: Option<i64>,
    /// Pagination cursor for retrieving next page.
    pub cursor: Option<String>,
}

impl GetFcmPositionsParams {
    /// Creates a new value with the given required fields; all optional fields are unset.
    pub fn new(subtrader_id: &str) -> (r: Self)
        ensures
            r.subtrader_id@ == subtrader_id@,
            r.ticker is None,
            r.event_ticker is None,
            r.count_filter is None,
            r.settlement_status is None,
            r.limit is None,
            r.cursor is None,
    {
        GetFcmPositionsParams { subtrader_id: String::from_str(subtrader_id), ticker: None, event_ticker: None, count_filter: None, settlement_status: None, limit: None, cursor: None }
    }

    pub fn ticker(self, ticker: &str) -> (r: Self)
        ensures
            opt_text(r.ticker) == Some(ticker@),
            r.subtrader_id == self.subtrader_id,
            r.event_ticker == self.event_ticker,
            r.count_filter == self.count_filter,
            r.settlement_status == self.settlement_status,
            r.limit == self.limit,
            r.cursor == self.cursor,
    {
        let mut s = self;
        s.ticker = Some(String::from_str(ticker));
        s
    }

    pub fn event_ticker(self, event_ticker: &str) -> (r: Self)
        ensures
            opt_text(r.event_ticker) == Some(event_ticker@),
            r.subtrader_id == self.subtrader_id,
            r.ticker == self.ticker,
            r.count_filter == self.count_filter,
            r.settlement_status == self.settlement_status,
            r.limit == self.limit,
            r.cursor == self.cursor,
    {
        let mut s = self;
        s.event_ticker = Some(String::from_str(event_ticker));
        s
    }

    pub fn count_filter(self, filter: &str) -> (r: Self)
        ensures
            opt_text(r.count_filter) == Some(filter@),
            r.subtrader_id == self.subtrader_id,
            r.ticker == self.ticker,
            r.event_ticker == self.event_ticker,
            r.settlement_status == self.settlement_status,
            r.limit == self.limit,
            r.cursor == self.cursor,
    {
        let mut s = self;
        s.count_filter = Some(String::from_str(filter));
        s
    }

    pub fn settlement_status(self, status: SettlementStatus) -> (r: Self)
        ensures
            r.settlement_status == Some(status),
            r.subtrader_id == self.subtrader_id,
            r.ticker == self.ticker,
            r.event_ticker == self.event_ticker,
            r.count_filter == self.count_filter,
            r.limit == self.limit,
            r.cursor == self.cursor,
    {
        let mut s = self;
        s.settlement_status = Some(status);
        s
    }

    pub fn limit(self, limit: i64) -> (r: Self)
        requires
            1 <= limit <= 1000,
        ensures
            r.limit == Some(limit),
            r.subtrader_id == self.subtrader_id,
            r.ticker == self.ticker,
            r.event_ticker == self.event_ticker,
            r.count_filter == self.count_filter,
            r.settlement_status == self.settlement_status,
            r.cursor == self.cursor,
    {
        let mut s = self;
        s.limit = Some(limit);
        s
    }

    pub fn cursor(self, cursor: &str) -> (r: Self)
        ensures
            opt_text(r.cursor) == Some(cursor@),
            r.subtrader_id == self.subtrader_id,
            r.ticker == self.ticker,
            r.event_ticker == self.event_ticker,
            r.count_filter == self.count_filter,
            r.settlement_status == self.settlement_status,
            r.limit == self.limit,
    {
        let mut s = self;
        s.cursor = Some(String::from_str(cursor));
        s
    }

    /// The query pairs of these parameters, in the order they are sent.
    pub open spec fn query_pairs(&self) -> QueryPairs {
        ((((((Seq::empty().push(("subtrader_id"@, self.subtrader_id@)) + opt_pair("ticker"@, opt_text(self.ticker))) + opt_pair("event_ticker"@, opt_text(self.event_ticker))) + opt_pair("count_filter"@, opt_text(self.count_filter))) + opt_pair("settlement_status"@, SettlementStatus::opt_wire(self.settlement_status))) + opt_pair("limit"@, opt_i64_text(self.limit))) + opt_pair("cursor"@, opt_text(self.cursor)))
    }

    /// The URL query string (`?` and the encoded pairs; empty when no pair is set).
    pub fn to_query_string(&self) -> (s: String)
        ensures
            s@ == query_string(self.query_pairs()),
    {
        let mut qb = QueryBuilder::new();
        qb.push_str("subtrader_id", self.subtrader_id.as_str());
        qb.push_opt_str("ticker", &self.ticker);
        qb.push_opt_str("event_ticker", &self.event_ticker);
        qb.push_opt_str("count_filter", &self.count_filter);
        qb.push_opt_static("settlement_status", SettlementStatus::opt_as_str(self.settlement_status));
        qb.push_opt_i64("limit", self.limit);
        qb.push_opt_str("cursor", &self.cursor);
        qb.build()
    }
}

impl SettlementStatus {
    /// The wire name of this value.
    pub open spec fn wire_name(&self) -> Seq<char> {
        match self {
            SettlementStatus::All => "all"@,
            SettlementStatus::Unsettled => "unsettled"@,
            SettlementStatus::Settled => "settled"@,
        }
    }

    /// The wire name of an optional value.
    pub open spec fn opt_wire(o: Option<Self>) -> Option<Seq<char>> {
        match o {
            Some(v) => Some(v.wire_name()),
            None => None,
        }
    }

    /// Returns the lowercase API representation.
    pub fn as_str(&self) -> (s: &'static str)
        ensures
            s@ == self.wire_name(),
    {
        match self {
            SettlementStatus::All => "all",
            SettlementStatus::Unsettled => "unsettled",
            SettlementStatus::Settled => "settled",
        }
    }

    /// The wire name of an optional value.
    pub fn opt_as_str(o: Option<Self>) -> (r: Option<&'static str>)
        ensures
            opt_str_text(r) == Self::opt_wire(o),
    {
        match o {
            Some(v) => Some(v.as_str()),
            None => None,
        }
    }
}


/// Each parameter of `GetFcmOrdersParams` is sent under its own name with its own
/// value, and a parameter that is not set is not sent.
pub proof fn law_get_fcm_orders_params_query_fields(p: GetFcmOrdersParams)
    ensures
        query_value(p.query_pairs(), "subtrader_id"@) == Some(p.subtrader_id@),
        query_value(p.query_pairs(), "cursor"@) == opt_text(p.cursor),
        query_value(p.query_pairs(), "event_ticker"@) == opt_text(p.event_ticker),
        query_value(p.query_pairs(), "ticker"@) == opt_text(p.ticker),
        query_value(p.query_pairs(), "min_ts"@) == opt_i64_text(p.min_ts),
        query_value(p.query_pairs(), "max_ts"@) == opt_i64_text(p.max_ts),
        query_value(p.query_pairs(), "status"@) == OrderStatus::opt_wire(p.status),
        query_value(p.query_pairs(), "limit"@) == opt_i64_text(p.limit),
{
    broadcast use group_query_value;
    reveal_strlit("subtrader_id");
    reveal_strlit("cursor");
    reveal_strlit("event_ticker");
    reveal_strlit("ticker");
    reveal_strlit("min_ts");
    reveal_strlit("max_ts");
    reveal_strlit("status");
    reveal_strlit("limit");
    assert("subtrader_id"@.len() == 12);
    assert("cursor"@.len() == 6);
    assert("event_ticker"@.len() == 12);
    assert("ticker"@.len() == 6);
    assert("min_ts"@.len() == 6);
    assert("max_ts"@.len() == 6);
    assert("status"@.len() == 6);
    assert("limit"@.len() == 5);
    assert("event_ticker"@[0] != "subtrader_id"@[0]);
    assert("ticker"@[0] != "cursor"@[0]);
    assert("min_ts"@[0] != "cursor"@[0]);
    assert("min_ts"@[0] != "ticker"@[0]);
    assert("max_ts"@[0] != "cursor"@[0]);
    assert("max_ts"@[0] != "ticker"@[0]);
    assert("max_ts"@[1] != "min_ts"@[1]);
    assert("status"@[0] != "cursor"@[0]);
    assert("status"@[0] != "ticker"@[0]);
    assert("status"@[0] != "min_ts"@[0]);
    assert("status"@[0] != "max_ts"@[0]);
}

/// Each parameter of `GetFcmPositionsParams` is sent under its own name with its own
/// value, and a parameter that is not set is not sent.
pub proof fn law_get_fcm_positions_params_query_fields(p: GetFcmPositionsParams)
    ensures
        query_value(p.query_pairs(), "subtrader_id"@) == Some(p.subtrader_id@),
        query_value(p.query_pairs(), "ticker"@) == opt_text(p.ticker),
        query_value(p.query_pairs(), "event_ticker"@) == opt_text(p.event_ticker),
        query_value(p.query_pairs(), "count_filter"@) == opt_text(p.count_filter),
        query_value(p.query_pairs(), "settlement_status"@) == SettlementStatus::opt_wire(p.settlement_status),
        query_value(p.query_pairs(), "limit"@) == opt_i64_text(p.limit),
        query_value(p.query_pairs(), "cursor"@) == opt_text(p.cursor),
{
    broadcast use group_query_value;
    reveal_strlit("subtrader_id");
    reveal_strlit("ticker");
    reveal_strlit("event_ticker");
    reveal_strlit("count_filter");
    reveal_strlit("settlement_status");
    reveal_strlit("limit");
    reveal_strlit("cursor");
    assert("subtrader_id"@.len() == 12);
    assert("ticker"@.len() == 6);
    assert("event_ticker"@.len() == 12);
    assert("count_filter"@.len() == 12);
    assert("settlement_status"@.len() == 17);
    assert("limit"@.len() == 5);
    assert("cursor"@.len() == 6);
    assert("event_ticker"@[0] != "subtrader_id"@[0]);
    assert("count_filter"@[0] != "subtrader_id"@[0]);
    assert("count_filter"@[0] != "event_ticker"@[0]);
    assert("cursor"@[0] != "ticker"@[0]);
}

} // verus!
