//! Position models and query parameters.

use vstd::prelude::*;
use crate::models::query::{query_value, group_query_value, QueryBuilder, QueryPairs, query_string, opt_pair, opt_text, opt_str_text, opt_i64_text, opt_i32_text, opt_bool_text};
use crate::text::{int_to_decimal, clamp_int, clamp_i64, clamp_i32};
use crate::error::Error;

verus! {

/// A position in a specific market.
#[derive(Debug, Clone)]
pub struct MarketPosition {
    pub ticker: String,
    /// In cents.
    pub total_traded: i64,
    pub total_traded_dollars: Option<String>,
    /// Negative = NO position, positive = YES position.
    pub position: i64,
    /// Position (fixed-point decimal string).
    pub position_fp: Option<String>,
    /// Position cost in cents.
    pub market_exposure: i64,
    pub market_exposure_dollars: Option<String>,
    /// In cents.
    pub realized_pnl: i64,
    pub realized_pnl_dollars: Option<String>,
    pub resting_orders_count: i64,
    /// Resting orders count (fixed-point decimal string).
    pub resting_orders_count_fp: Option<String>,
    /// In cents.
    pub fees_paid: i64,
    pub fees_paid_dollars: Option<String>,
    pub last_updated_ts: Option<String>,
}

/// A position aggregated at the event level.
#[derive(Debug, Clone)]
pub struct EventPosition {
    pub event_ticker: String,
    /// In cents.
    pub total_cost: i64,
    pub total_cost_dollars: Option<String>,
    pub total_cost_shares: i64,
    /// Total cost shares (fixed-point decimal string).
    pub total_cost_shares_fp: Option<String>,
    /// In cents.
    pub event_exposure: i64,
    pub event_exposure_dollars: Option<String>,
    /// In cents.
    pub realized_pnl: i64,
    pub realized_pnl_dollars: Option<String>,
    /// In cents.
    pub fees_paid: i64,
    pub fees_paid_dollars: Option<String>,
}

/// Response from the get_positions endpoint.
#[derive(Debug, Clone)]
pub struct PositionsResponse {
    pub market_positions: Vec<MarketPosition>,
    pub event_positions: Vec<EventPosition>,
    pub cursor: Option<String>,
}

/// Query parameters for the get_positions endpoint.
#[derive(Debug, Clone)]
pub struct GetPositionsParams {
    pub cursor: Option<String>,
    pub limit: Option<i64>,
    pub count_filter: Option<String>,
    pub ticker: Option<String>,
    pub event_ticker: Option<String>,
    /// Filter by subaccount number (0 for primary, 1-32 for subaccounts).
    pub subaccount: Option<i32>,
}

impl GetPositionsParams {
    /// Parameters with nothing set.
    pub fn new() -> (r: Self)
        ensures
            r.cursor is None,
            r.limit is None,
            r.count_filter is None,
            r.ticker is None,
            r.event_ticker is None,
            r.subaccount is None,
    {
        GetPositionsParams { cursor: None, limit: None, count_filter: None, ticker: None, event_ticker: None, subaccount: None }
    }

    pub fn cursor(self, cursor: &str) -> (r: Self)
        ensures
            opt_text(r.cursor) == Some(cursor@),
            r.limit == self.limit,
            r.count_filter == self.count_filter,
            r.ticker == self.ticker,
            r.event_ticker == self.event_ticker,
            r.subaccount == self.subaccount,
    {
        let mut s = self;
        s.cursor = Some(String::from_str(cursor));
        s
    }

    pub fn try_limit(self, limit: i64) -> (r: Result<Self, Error>)
        ensures
            (match r {
                Ok(p) => 1 <= limit <= 1000 && p.limit == Some(limit) && p.cursor == self.cursor && p.count_filter == self.count_filter && p.ticker == self.ticker && p.event_ticker == self.event_ticker && p.subaccount == self.subaccount,
                Err(e) => !(1 <= limit <= 1000) && e == Error::InvalidLimit(limit, 1, 1000),
            }),
    {
        if limit < 1 || limit > 1000 {
            return Err(Error::InvalidLimit(limit, 1, 1000));
        }
        let mut s = self;
        s.limit = Some(limit);
        Ok(s)
    }

    pub fn limit(self, limit: i64) -> (r: Self)
        requires
            1 <= limit <= 1000,
        ensures
            r.limit == Some(limit),
            r.cursor == self.cursor,
            r.count_filter == self.count_filter,
            r.ticker == self.ticker,
            r.event_ticker == self.event_ticker,
            r.subaccount == self.subaccount,
    {
        let mut s = self;
        s.limit = Some(limit);
        s
    }

    pub fn ticker(self, ticker: &str) -> (r: Self)
        ensures
            opt_text(r.ticker) == Some(ticker@),
            r.cursor == self.cursor,
            r.limit == self.limit,
            r.count_filter == self.count_filter,
            r.event_ticker == self.event_ticker,
            r.subaccount == self.subaccount,
    {
        let mut s = self;
        s.ticker = Some(String::from_str(ticker));
        s
    }

    pub fn event_ticker(self, event_ticker: &str) -> (r: Self)
        ensures
            opt_text(r.event_ticker) == Some(event_ticker@),
            r.cursor == self.cursor,
            r.limit == self.limit,
            r.count_filter == self.count_filter,
            r.ticker == self.ticker,
            r.subaccount == self.subaccount,
    {
        let mut s = self;
        s.event_ticker = Some(String::from_str(event_ticker));
        s
    }

    pub fn count_filter(self, filter: &str) -> (r: Self)
        ensures
            opt_text(r.count_filter) == Some(filter@),
            r.cursor == self.cursor,
            r.limit == self.limit,
            r.ticker == self.ticker,
            r.event_ticker == self.event_ticker,
            r.subaccount == self.subaccount,
    {
        let mut s = self;
        s.count_filter = Some(String::from_str(filter));
        s
    }

    pub fn subaccount(self, subaccount: i32) -> (r: Self)
        ensures
            r.subaccount == Some(subaccount),
            r.cursor == self.cursor,
            r.limit == self.limit,
            r.count_filter == self.count_filter,
            r.ticker == self.ticker,
            r.event_ticker == self.event_ticker,
    {
        let mut s = self;
        s.subaccount = Some(subaccount);
        s
    }

    /// The query pairs of these parameters, in the order they are sent.
    pub open spec fn query_pairs(&self) -> QueryPairs {
        ((((((Seq::empty() + opt_pair("cursor"@, opt_text(self.cursor))) + opt_pair("limit"@, opt_i64_text(self.limit))) + opt_pair("ticker"@, opt_text(self.ticker))) + opt_pair("event_ticker"@, opt_text(self.event_ticker))) + opt_pair("count_filter"@, opt_text(self.count_filter))) + opt_pair("subaccount"@, opt_i32_text(self.subaccount)))
    }

    /// The URL query string (`?` and the encoded pairs; empty when no pair is set).
    pub fn to_query_string(&self) -> (s: String)
        ensures
            s@ == query_string(self.query_pairs()),
    {
        let mut qb = QueryBuilder::new();
        qb.push_opt_str("cursor", &self.cursor);
        qb.push_opt_i64("limit", self.limit);
        qb.push_opt_str("ticker", &self.ticker);
        qb.push_opt_str("event_ticker", &self.event_ticker);
        qb.push_opt_str("count_filter", &self.count_filter);
        qb.push_opt_i32("subaccount", self.subaccount);
        qb.build()
    }
}

impl Default for GetPositionsParams {
    fn default() -> (r: Self)
        ensures
            r.cursor is None,
            r.limit is None,
            r.count_filter is None,
            r.ticker is None,
            r.event_ticker is None,
            r.subaccount is None,
    {
        Self::new()
    }
}


/// Each parameter of `GetPositionsParams` is sent under its own name with its own
/// value, and a parameter that is not set is not sent.
pub proof fn law_get_positions_params_query_fields(p: GetPositionsParams)
    ensures
        query_value(p.query_pairs(), "cursor"@) == opt_text(p.cursor),
        query_value(p.query_pairs(), "limit"@) == opt_i64_text(p.limit),
        query_value(p.query_pairs(), "ticker"@) == opt_text(p.ticker),
        query_value(p.query_pairs(), "event_ticker"@) == opt_text(p.event_ticker),
        query_value(p.query_pairs(), "count_filter"@) == opt_text(p.count_filter),
        query_value(p.query_pairs(), "subaccount"@) == opt_i32_text(p.subaccount),
{
    broadcast use group_query_value;
    reveal_strlit("cursor");
    reveal_strlit("limit");
    reveal_strlit("ticker");
    reveal_strlit("event_ticker");
    reveal_strlit("count_filter");
    reveal_strlit("subaccount");
    assert("cursor"@.len() == 6);
    assert("limit"@.len() == 5);
    assert("ticker"@.len() == 6);
    assert("event_ticker"@.len() == 12);
    assert("count_filter"@.len() == 12);
    assert("subaccount"@.len() == 10);
    assert("ticker"@[0] != "cursor"@[0]);
    assert("count_filter"@[0] != "event_ticker"@[0]);
}

} // verus!
