//! Incentive program models and response types.
//!
//! Incentive programs are rewards programs for trading activity on specific markets.

use vstd::prelude::*;
use crate::models::query::{query_value, group_query_value, QueryBuilder, QueryPairs, query_string, opt_pair, opt_text, opt_str_text, opt_i64_text, opt_i32_text, opt_bool_text};
use crate::text::{int_to_decimal, clamp_int, clamp_i64, clamp_i32};
use crate::error::Error;

verus! {

/// An incentive program.
#[derive(Debug, Clone)]
pub struct IncentiveProgram {
    /// The unique identifier for the incentive program.
    pub id: Option<String>,
    /// The incentive type (e.g., "volume", "liquidity").
    pub incentive_type: Option<String>,
    /// The associated market ticker.
    pub market_ticker: Option<String>,
    /// The start date of the incentive program (RFC3339 timestamp).
    pub start_date: Option<String>,
    /// The end date of the incentive program (RFC3339 timestamp).
    pub end_date: Option<String>,
    /// The reward amount for the period (in cents).
    pub period_reward: Option<i64>,
    /// Discount factor in basis points.
    pub discount_factor_bps: Option<i64>,
    /// Whether the program has been paid out.
    pub paid_out: Option<bool>,
    /// Target size for the program.
    pub target_size: Option<i64>,
}

/// Response from GET /incentive_programs.
#[derive(Debug, Clone)]
pub struct IncentiveProgramsResponse {
    /// The list of incentive programs.
    pub incentive_programs: Vec<IncentiveProgram>,
    /// Cursor for pagination.
    pub next_cursor: Option<String>,
}

/// Query parameters for GET /incentive_programs.
#[derive(Debug, Clone)]
pub struct GetIncentiveProgramsParams {
    /// Filter by status: "all", "active", "upcoming", "closed", or "paid_out".
    /// Defaults to "all".
    pub status: Option<String>,
    /// Filter by type: "all", "liquidity", or "volume".
    /// Defaults to "all".
    pub program_type: Option<String>,
    /// Maximum number of results to return. Defaults to 100, max 10000.
    pub limit: Option<i32>,
    /// Pagination cursor from a previous response.
    pub cursor: Option<String>,
}

impl GetIncentiveProgramsParams {
    /// Parameters with nothing set.
    pub fn new() -> (r: Self)
        ensures
            r.status is None,
            r.program_type is None,
            r.limit is None,
            r.cursor is None,
    {
        GetIncentiveProgramsParams { status: None, program_type: None, limit: None, cursor: None }
    }

    pub fn status(self, status: &str) -> (r: Self)
        ensures
            opt_text(r.status) == Some(status@),
            r.program_type == self.program_type,
            r.limit == self.limit,
            r.cursor == self.cursor,
    {
        let mut s = self;
        s.status = Some(String::from_str(status));
        s
    }

    pub fn program_type(self, program_type: &str) -> (r: Self)
        ensures
            opt_text(r.program_type) == Some(program_type@),
            r.status == self.status,
            r.limit == self.limit,
            r.cursor == self.cursor,
    {
        let mut s = self;
        s.program_type = Some(String::from_str(program_type));
        s
    }

    pub fn limit(self, limit: i32) -> (r: Self)
        ensures
            r.limit == Some(limit),
            r.status == self.status,
            r.program_type == self.program_type,
            r.cursor == self.cursor,
    {
        let mut s = self;
        s.limit = Some(limit);
        s
    }

    pub fn cursor(self, cursor: &str) -> (r: Self)
        ensures
            opt_text(r.cursor) == Some(cursor@),
            r.status == self.status,
            r.program_type == self.program_type,
            r.limit == self.limit,
    {
        let mut s = self;
        s.cursor = Some(String::from_str(cursor));
        s
    }

    /// The query pairs of these parameters, in the order they are sent.
    pub open spec fn query_pairs(&self) -> QueryPairs {
        ((((Seq::empty() + opt_pair("status"@, opt_text(self.status))) + opt_pair("type"@, opt_text(self.program_type))) + opt_pair("limit"@, opt_i32_text(self.limit))) + opt_pair("cursor"@, opt_text(self.cursor)))
    }

    /// The URL query string (`?` and the encoded pairs; empty when no pair is set).
    pub fn to_query_string(&self) -> (s: String)
        ensures
            s@ == query_string(self.query_pairs()),
    {
        let mut qb = QueryBuilder::new();
        qb.push_opt_str("status", &self.status);
        qb.push_opt_str("type", &self.program_type);
        qb.push_opt_i32("limit", self.limit);
        qb.push_opt_str("cursor", &self.cursor);
        qb.build()
    }
}

impl Default for GetIncentiveProgramsParams {
    fn default() -> (r: Self)
        ensures
            r.status is None,
            r.program_type is None,
            r.limit is None,
            r.cursor is None,
    {
        Self::new()
    }
}


/// Each parameter of `GetIncentiveProgramsParams` is sent under its own name with its own
/// value, and a parameter that is not set is not sent.
pub proof fn law_get_incentive_programs_params_query_fields(p: GetIncentiveProgramsParams)
    ensures
        query_value(p.query_pairs(), "status"@) == opt_text(p.status),
        query_value(p.query_pairs(), "type"@) == opt_text(p.program_type),
        query_value(p.query_pairs(), "limit"@) == opt_i32_text(p.limit),
        query_value(p.query_pairs(), "cursor"@) == opt_text(p.cursor),
{
    broadcast use group_query_value;
    reveal_strlit("status");
    reveal_strlit("type");
    reveal_strlit("limit");
    reveal_strlit("cursor");
    assert("status"@.len() == 6);
    assert("type"@.len() == 4);
    assert("limit"@.len() == 5);
    assert("cursor"@.len() == 6);
    assert("cursor"@[0] != "status"@[0]);
}

} // verus!
