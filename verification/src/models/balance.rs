//! Balance models.

use vstd::prelude::*;
use crate::models::query::{query_value, group_query_value, QueryBuilder, QueryPairs, query_string, opt_pair, opt_text, opt_str_text, opt_i64_text, opt_i32_text, opt_bool_text};
use crate::text::{int_to_decimal, clamp_int, clamp_i64, clamp_i32};
use crate::error::Error;

verus! {

/// Response from the get_balance endpoint.
///
/// All monetary values are in cents.
#[derive(Debug, Clone)]
pub struct BalanceResponse {
    /// Available balance in cents.
    pub balance: i64,
    /// Total portfolio value in cents.
    pub portfolio_value: i64,
    /// Last update timestamp.
    pub updated_ts: i64,
}

/// Query parameters for the get_balance endpoint.
///
/// Omitting the `subaccount` field returns the combined balance across all subaccounts.
/// Use `subaccount(0)` to get the primary account balance only.
#[derive(Debug, Clone)]
pub struct GetBalanceParams {
    /// Filter by subaccount number (0 for primary, 1-32 for subaccounts).
    /// When omitted, returns combined balance across all subaccounts.
    pub subaccount: Option<i32>,
}

impl GetBalanceParams {
    /// Parameters with nothing set.
    pub fn new() -> (r: Self)
        ensures
            r.subaccount is None,
    {
        GetBalanceParams { subaccount: None }
    }

    pub fn subaccount(self, subaccount: i32) -> (r: Self)
        ensures
            r.subaccount == Some(subaccount),
    {
        let mut s = self;
        s.subaccount = Some(subaccount);
        s
    }

    /// The query pairs of these parameters, in the order they are sent.
    pub open spec fn query_pairs(&self) -> QueryPairs {
        (Seq::empty() + opt_pair("subaccount"@, opt_i32_text(self.subaccount)))
    }

    /// The URL query string (`?` and the encoded pairs; empty when no pair is set).
    pub fn to_query_string(&self) -> (s: String)
        ensures
            s@ == query_string(self.query_pairs()),
    {
        let mut qb = QueryBuilder::new();
        qb.push_opt_i32("subaccount", self.subaccount);
        qb.build()
    }
}

impl Default for GetBalanceParams {
    fn default() -> (r: Self)
        ensures
            r.subaccount is None,
    {
        Self::new()
    }
}


/// Each parameter of `GetBalanceParams` is sent under its own name with its own
/// value, and a parameter that is not set is not sent.
pub proof fn law_get_balance_params_query_fields(p: GetBalanceParams)
    ensures
        query_value(p.query_pairs(), "subaccount"@) == opt_i32_text(p.subaccount),
{
    broadcast use group_query_value;
    reveal_strlit("subaccount");
    assert("subaccount"@.len() == 10);

}

} // verus!
