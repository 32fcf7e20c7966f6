//! Fill models and query parameters.

use vstd::prelude::*;
use crate::models::query::{query_value, group_query_value, QueryBuilder, QueryPairs, query_string, opt_pair, opt_text, opt_str_text, opt_i64_text, opt_i32_text, opt_bool_text};
use crate::text::{int_to_decimal, clamp_int, clamp_i64, clamp_i32};
use crate::error::Error;
use crate::models::common::{Action, Side};

verus! {

/// A fill represents a matched trade.
#[derive(Debug, Clone)]
pub struct Fill {
    pub fill_id: String,
    /// Deprecated: legacy field, same as `fill_id`.
    pub trade_id: String,
    pub order_id: String,
    pub ticker: String,
    /// Deprecated: legacy field, same as `ticker`.
    pub market_ticker: String,
    pub side: Side,
    pub action: Action,
    /// Count (fixed-point decimal string, e.g. `"10.00"`).
    pub count_fp: String,
    /// Fill price for the yes side in fixed-point dollars.
    pub yes_price_dollars: String,
    /// Fill price for the no side in fixed-point dollars.
    pub no_price_dollars: String,
    /// Whether this fill removed liquidity.
    pub is_taker: bool,
    pub client_order_id: Option<String>,
    pub created_time: Option<String>,
    /// Deprecated: legacy Unix timestamp field.
    pub ts: Option<i64>,
    /// Exchange fee cost as a fixed-point dollar string.
    pub fee_cost: String,
    /// Subaccount number this fill belongs to (0 for primary, 1-32 for subaccounts).
    pub subaccount_number: Option<i32>,
}

/// Response from the get_fills endpoint.
#[derive(Debug, Clone)]
pub struct FillsResponse {
    pub fills: Vec<Fill>,
    pub cursor: String,
}

/// Query parameters for the get_fills endpoint.
#[derive(Debug, Clone)]
pub struct GetFillsParams {
    pub ticker: Option<String>,
    pub order_id: Option<String>,
    pub min_ts: Option<i64>,
    pub max_ts: Option<i64>,
    pub limit: Option<i64>,
    pub cursor: Option<String>,
    /// Filter by subaccount number (0 for primary, 1-32 for subaccounts).
    pub subaccount: Option<i32>,
}

impl GetFillsParams {
    /// Parameters with nothing set.
    pub fn new() -> (r: Self)
        ensures
            r.ticker is None,
            r.order_id is None,
            r.min_ts is None,
            r.max_ts is None,
            r.limit is None,
            r.cursor is None,
            r.subaccount is None,
    {
        GetFillsParams { ticker: None, order_id: None, min_ts: None, max_ts: None, limit: None, cursor: None, subaccount: None }
    }

    pub fn ticker(self, ticker: &str) -> (r: Self)
        ensures
            opt_text(r.ticker) == Some(ticker@),
            r.order_id == self.order_id,
            r.min_ts == self.min_ts,
            r.max_ts == self.max_ts,
            r.limit == self.limit,
            r.cursor == self.cursor,
            r.subaccount == self.subaccount,
    {
        let mut s = self;
        s.ticker = Some(String::from_str(ticker));
        s
    }

    pub fn order_id(self, order_id: &str) -> (r: Self)
        ensures
            opt_text(r.order_id) == Some(order_id@),
            r.ticker == self.ticker,
            r.min_ts == self.min_ts,
            r.max_ts == self.max_ts,
            r.limit == self.limit,
            r.cursor == self.cursor,
            r.subaccount == self.subaccount,
    {
        let mut s = self;
        s.order_id = Some(String::from_str(order_id));
        s
    }

    pub fn min_ts(self, ts: i64) -> (r: Self)
        ensures
            r.min_ts == Some(ts),
            r.ticker == self.ticker,
            r.order_id == self.order_id,
            r.max_ts == self.max_ts,
            r.limit == self.limit,
            r.cursor == self.cursor,
            r.subaccount == self.subaccount,
    {
        let mut s = self;
        s.min_ts = Some(ts);
        s
    }

    pub fn max_ts(self, ts: i64) -> (r: Self)
        ensures
            r.max_ts == Some(ts),
            r.ticker == self.ticker,
            r.order_id == self.order_id,
            r.min_ts == self.min_ts,
            r.limit == self.limit,
            r.cursor == self.cursor,
            r.subaccount == self.subaccount,
    {
        let mut s = self;
        s.max_ts = Some(ts);
        s
    }

    pub fn try_limit(self, limit: i64) -> (r: Result<Self, Error>)
        ensures
            (match r {
                Ok(p) => 1 <= limit <= 200 && p.limit == Some(limit) && p.ticker == self.ticker && p.order_id == self.order_id && p.min_ts == self.min_ts && p.max_ts == self.max_ts && p.cursor == self.cursor && p.subaccount == self.subaccount,
                Err(e) => !(1 <= limit <= 200) && e == Error::InvalidLimit(limit, 1, 200),
            }),
    {
        if limit < 1 || limit > 200 {
            return Err(Error::InvalidLimit(limit, 1, 200));
        }
        let mut s = self;
        s.limit = Some(limit);
        Ok(s)
    }

    pub fn limit(self, limit: i64) -> (r: Self)
        requires
            1 <= limit <= 200,
        ensures
            r.limit == Some(limit),
            r.ticker == self.ticker,
            r.order_id == self.order_id,
            r.min_ts == self.min_ts,
            r.max_ts == self.max_ts,
            r.cursor == self.cursor,
            r.subaccount == self.subaccount,
    {
        let mut s = self;
        s.limit = Some(limit);
        s
    }

    pub fn cursor(self, cursor: &str) -> (r: Self)
        ensures
            opt_text(r.cursor) == Some(cursor@),
            r.ticker == self.ticker,
            r.order_id == self.order_id,
            r.min_ts == self.min_ts,
            r.max_ts == self.max_ts,
            r.limit == self.limit,
            r.subaccount == self.subaccount,
    {
        let mut s = self;
        s.cursor = Some(String::from_str(cursor));
        s
    }

    pub fn subaccount(self, subaccount: i32) -> (r: Self)
        ensures
            r.subaccount == Some(subaccount),
            r.ticker == self.ticker,
            r.order_id == self.order_id,
            r.min_ts == self.min_ts,
            r.max_ts == self.max_ts,
            r.limit == self.limit,
            r.cursor == self.cursor,
    {
        let mut s = self;
        s.subaccount = Some(subaccount);
        s
    }

    /// The query pairs of these parameters, in the order they are sent.
    pub open spec fn query_pairs(&self) -> QueryPairs {
        (((((((Seq::empty() + opt_pair("ticker"@, opt_text(self.ticker))) + opt_pair("order_id"@, opt_text(self.order_id))) + opt_pair("min_ts"@, opt_i64_text(self.min_ts))) + opt_pair("max_ts"@, opt_i64_text(self.max_ts))) + opt_pair("limit"@, opt_i64_text(self.limit))) + opt_pair("cursor"@, opt_text(self.cursor))) + opt_pair("subaccount"@, opt_i32_text(self.subaccount)))
    }

    /// The URL query string (`?` and the encoded pairs; empty when no pair is set).
    pub fn to_query_string(&self) -> (s: String)
        ensures
            s@ == query_string(self.query_pairs()),
    {
        let mut qb = QueryBuilder::new();
        qb.push_opt_str("ticker", &self.ticker);
        qb.push_opt_str("order_id", &self.order_id);
        qb.push_opt_i64("min_ts", self.min_ts);
        qb.push_opt_i64("max_ts", self.max_ts);
        qb.push_opt_i64("limit", self.limit);
        qb.push_opt_str("cursor", &self.cursor);
        qb.push_opt_i32("subaccount", self.subaccount);
        qb.build()
    }
}

impl Default for GetFillsParams {
    fn default() -> (r: Self)
        ensures
            r.ticker is None,
            r.order_id is None,
            r.min_ts is None,
            r.max_ts is None,
            r.limit is None,
            r.cursor is None,
            r.subaccount is None,
    {
        Self::new()
    }
}


/// Each parameter of `GetFillsParams` is sent under its own name with its own
/// value, and a parameter that is not set is not sent.
pub proof fn law_get_fills_params_query_fields(p: GetFillsParams)
    ensures
        query_value(p.query_pairs(), "ticker"@) == opt_text(p.ticker),
        query_value(p.query_pairs(), "order_id"@) == opt_text(p.order_id),
        query_value(p.query_pairs(), "min_ts"@) == opt_i64_text(p.min_ts),
        query_value(p.query_pairs(), "max_ts"@) == opt_i64_text(p.max_ts),
        query_value(p.query_pairs(), "limit"@) == opt_i64_text(p.limit),
        query_value(p.query_pairs(), "cursor"@) == opt_text(p.cursor),
        query_value(p.query_pairs(), "subaccount"@) == opt_i32_text(p.subaccount),
{
    broadcast use group_query_value;
    reveal_strlit("ticker");
    reveal_strlit("order_id");
    reveal_strlit("min_ts");
    reveal_strlit("max_ts");
    reveal_strlit("limit");
    reveal_strlit("cursor");
    reveal_strlit("subaccount");
    assert("ticker"@.len() == 6);
    assert("order_id"@.len() == 8);
    assert("min_ts"@.len() == 6);
    assert("max_ts"@.len() == 6);
    assert("limit"@.len() == 5);
    assert("cursor"@.len() == 6);
    assert("subaccount"@.len() == 10);
    assert("min_ts"@[0] != "ticker"@[0]);
    assert("max_ts"@[0] != "ticker"@[0]);
    assert("max_ts"@[1] != "min_ts"@[1]);
    assert("cursor"@[0] != "ticker"@[0]);
    assert("cursor"@[0] != "min_ts"@[0]);
    assert("cursor"@[0] != "max_ts"@[0]);
}

} // verus!
