//! Settlement models and query parameters.

use vstd::prelude::*;
use crate::models::query::{query_value, group_query_value, QueryBuilder, QueryPairs, query_string, opt_pair, opt_text, opt_str_text, opt_i64_text, opt_i32_text, opt_bool_text};
use crate::text::{int_to_decimal, clamp_int, clamp_i64, clamp_i32};
use crate::error::Error;
use crate::models::market::MarketResult;

verus! {

/// A settlement record for a market position.
#[derive(Debug, Clone)]
pub struct Settlement {
    /// Market ticker.
    pub ticker: String,
    /// Event ticker.
    pub event_ticker: String,
    /// Market result (yes/no).
    pub market_result: MarketResult,
    /// Number of YES contracts held at settlement.
    pub yes_count: i64,
    /// Total cost of YES contracts in cents.
    pub yes_total_cost: i64,
    /// Number of NO contracts held at settlement.
    pub no_count: i64,
    /// Total cost of NO contracts in cents.
    pub no_total_cost: i64,
    /// Revenue from settlement in cents.
    pub revenue: i64,
    /// Settlement timestamp.
    pub settled_time: String,
    /// Fee cost in dollars.
    pub fee_cost: Option<String>,
    /// Settlement value in cents.
    pub value: Option<i64>,
}

/// Response from GET /portfolio/settlements.
#[derive(Debug, Clone)]
pub struct SettlementsResponse {
    pub settlements: Vec<Settlement>,
    pub cursor: Option<String>,
}

/// Query parameters for GET /portfolio/settlements.
#[derive(Debug, Clone)]
pub struct GetSettlementsParams {
    /// Maximum number of results (1-200, default 100).
    pub limit: Option<i64>,
    /// Pagination cursor.
    pub cursor: Option<String>,
    /// Filter by market ticker.
    pub ticker: Option<String>,
    /// Filter by event ticker (comma-separated, max 10).
    pub event_ticker: Option<String>,
    /// Filter items after this Unix timestamp.
    pub min_ts: Option<i64>,
    /// Filter items before this Unix timestamp.
    pub max_ts: Option<i64>,
}

impl GetSettlementsParams {
    /// Parameters with nothing set.
    pub fn new() -> (r: Self)
        ensures
            r.limit is None,
            r.cursor is None,
            r.ticker is None,
            r.event_ticker is None,
            r.min_ts is None,
            r.max_ts is None,
    {
        GetSettlementsParams { limit: None, cursor: None, ticker: None, event_ticker: None, min_ts: None, max_ts: None }
    }

    pub fn limit(self, limit: i64) -> (r: Self)
        ensures
            r.limit == Some(clamp_int(limit as int, 1, 200) as i64),
            r.cursor == self.cursor,
            r.ticker == self.ticker,
            r.event_ticker == self.event_ticker,
            r.min_ts == self.min_ts,
            r.max_ts == self.max_ts,
    {
        let mut s = self;
        s.limit = Some(clamp_i64(limit, 1, 200));
        s
    }

    pub fn cursor(self, cursor: &str) -> (r: Self)
        ensures
            opt_text(r.cursor) == Some(cursor@),
            r.limit == self.limit,
            r.ticker == self.ticker,
            r.event_ticker == self.event_ticker,
            r.min_ts == self.min_ts,
            r.max_ts == self.max_ts,
    {
        let mut s = self;
        s.cursor = Some(String::from_str(cursor));
        s
    }

    pub fn ticker(self, ticker: &str) -> (r: Self)
        ensures
            opt_text(r.ticker) == Some(ticker@),
            r.limit == self.limit,
            r.cursor == self.cursor,
            r.event_ticker == self.event_ticker,
            r.min_ts == self.min_ts,
            r.max_ts == self.max_ts,
    {
        let mut s = self;
        s.ticker = Some(String::from_str(ticker));
        s
    }

    pub fn event_ticker(self, event_ticker: &str) -> (r: Self)
        ensures
            opt_text(r.event_ticker) == Some(event_ticker@),
            r.limit == self.limit,
            r.cursor == self.cursor,
            r.ticker == self.ticker,
            r.min_ts == self.min_ts,
            r.max_ts == self.max_ts,
    {
        let mut s = self;
        s.event_ticker = Some(String::from_str(event_ticker));
        s
    }

    pub fn min_ts(self, ts: i64) -> (r: Self)
        ensures
            r.min_ts == Some(ts),
            r.limit == self.limit,
            r.cursor == self.cursor,
            r.ticker == self.ticker,
            r.event_ticker == self.event_ticker,
            r.max_ts == self.max_ts,
    {
        let mut s = self;
        s.min_ts = Some(ts);
        s
    }

    pub fn max_ts(self, ts: i64) -> (r: Self)
        ensures
            r.max_ts == Some(ts),
            r.limit == self.limit,
            r.cursor == self.cursor,
            r.ticker == self.ticker,
            r.event_ticker == self.event_ticker,
            r.min_ts == self.min_ts,
    {
        let mut s = self;
        s.max_ts = Some(ts);
        s
    }

    /// The query pairs of these parameters, in the order they are sent.
    pub open spec fn query_pairs(&self) -> QueryPairs {
        ((((((Seq::empty() + opt_pair("limit"@, opt_i64_text(self.limit))) + opt_pair("cursor"@, opt_text(self.cursor))) + opt_pair("ticker"@, opt_text(self.ticker))) + opt_pair("event_ticker"@, opt_text(self.event_ticker))) + opt_pair("min_ts"@, opt_i64_text(self.min_ts))) + opt_pair("max_ts"@, opt_i64_text(self.max_ts)))
    }

    /// The URL query string (`?` and the encoded pairs; empty when no pair is set).
    pub fn to_query_string(&self) -> (s: String)
        ensures
            s@ == query_string(self.query_pairs()),
    {
        let mut qb = QueryBuilder::new();
        qb.push_opt_i64("limit", self.limit);
        qb.push_opt_str("cursor", &self.cursor);
        qb.push_opt_str("ticker", &self.ticker);
        qb.push_opt_str("event_ticker", &self.event_ticker);
        qb.push_opt_i64("min_ts", self.min_ts);
        qb.push_opt_i64("max_ts", self.max_ts);
        qb.build()
    }
}

impl Default for GetSettlementsParams {
    fn default() -> (r: Self)
        ensures
            r.limit is None,
            r.cursor is None,
            r.ticker is None,
            r.event_ticker is None,
            r.min_ts is None,
            r.max_ts is None,
    {
        Self::new()
    }
}


/// Each parameter of `GetSettlementsParams` is sent under its own name with its own
/// value, and a parameter that is not set is not sent.
pub proof fn law_get_settlements_params_query_fields(p: GetSettlementsParams)
    ensures
        query_value(p.query_pairs(), "limit"@) == opt_i64_text(p.limit),
        query_value(p.query_pairs(), "cursor"@) == opt_text(p.cursor),
        query_value(p.query_pairs(), "ticker"@) == opt_text(p.ticker),
        query_value(p.query_pairs(), "event_ticker"@) == opt_text(p.event_ticker),
        query_value(p.query_pairs(), "min_ts"@) == opt_i64_text(p.min_ts),
        query_value(p.query_pairs(), "max_ts"@) == opt_i64_text(p.max_ts),
{
    broadcast use group_query_value;
    reveal_strlit("limit");
    reveal_strlit("cursor");
    reveal_strlit("ticker");
    reveal_strlit("event_ticker");
    reveal_strlit("min_ts");
    reveal_strlit("max_ts");
    assert("limit"@.len() == 5);
    assert("cursor"@.len() == 6);
    assert("ticker"@.len() == 6);
    assert("event_ticker"@.len() == 12);
    assert("min_ts"@.len() == 6);
    assert("max_ts"@.len() == 6);
    assert("ticker"@[0] != "cursor"@[0]);
    assert("min_ts"@[0] != "cursor"@[0]);
    assert("min_ts"@[0] != "ticker"@[0]);
    assert("max_ts"@[0] != "cursor"@[0]);
    assert("max_ts"@[0] != "ticker"@[0]);
    assert("max_ts"@[1] != "min_ts"@[1]);
}

} // verus!
