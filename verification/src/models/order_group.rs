//! Order group models and response types.

use vstd::prelude::*;
use crate::models::query::{query_value, group_query_value, QueryBuilder, QueryPairs, query_string, opt_pair, opt_text, opt_str_text, opt_i64_text, opt_i32_text, opt_bool_text};
use crate::text::{int_to_decimal, clamp_int, clamp_i64, clamp_i32};
use crate::error::Error;

verus! {

/// Request body for POST /portfolio/order_groups/create.
///
/// Creates an empty order group with a contracts limit. Orders are then
/// associated with the group by including the `order_group_id` when creating them.
#[derive(Debug, Clone)]
pub struct CreateOrderGroupRequest {
    /// The maximum number of contracts that can be matched within this group.
    /// When this limit is hit, all orders in the group are cancelled.
    pub contracts_limit: i64,
}

impl CreateOrderGroupRequest {

    /// An order group with a contracts limit, rejecting a limit below 1.
    pub fn try_new(contracts_limit: i64) -> (r: Result<Self, Error>)
        ensures
            (match r {
                Ok(g) => contracts_limit >= 1 && g.contracts_limit == contracts_limit,
                Err(e) => contracts_limit < 1 && e == Error::InvalidContractsLimit(contracts_limit),
            }),
    {
        if contracts_limit < 1 {
            return Err(Error::InvalidContractsLimit(contracts_limit));
        }
        Ok(CreateOrderGroupRequest { contracts_limit })
    }

    /// An order group with a contracts limit of at least 1.
    pub fn new(contracts_limit: i64) -> (r: Self)
        requires
            contracts_limit >= 1,
        ensures
            r.contracts_limit == contracts_limit,
    {
        CreateOrderGroupRequest { contracts_limit }
    }
}

/// Response from POST /portfolio/order_groups/create.
#[derive(Debug, Clone)]
pub struct CreateOrderGroupResponse {
    /// The unique identifier for the created order group.
    pub order_group_id: String,
}

/// Response from GET /portfolio/order_groups/{order_group_id}.
#[derive(Debug, Clone)]
pub struct GetOrderGroupResponse {
    /// Whether auto-cancel is enabled for this order group.
    pub is_auto_cancel_enabled: bool,
    /// List of order IDs that belong to this order group.
    pub orders: Vec<String>,
}

/// An order group summary (used in list response).
#[derive(Debug, Clone)]
pub struct OrderGroupSummary {
    /// Unique identifier for the order group.
    pub id: String,
    /// Whether auto-cancel is enabled for this order group.
    pub is_auto_cancel_enabled: bool,
}

/// Query parameters for GET /portfolio/order_groups.
#[derive(Debug, Clone)]
pub struct GetOrderGroupsParams {
    /// Pagination cursor.
    pub cursor: Option<String>,
    /// Number of results per page.
    pub limit: Option<i32>,
}

impl GetOrderGroupsParams {
    /// Parameters with nothing set.
    pub fn new() -> (r: Self)
        ensures
            r.cursor is None,
            r.limit is None,
    {
        GetOrderGroupsParams { cursor: None, limit: None }
    }

    pub fn cursor(self, cursor: &str) -> (r: Self)
        ensures
            opt_text(r.cursor) == Some(cursor@),
            r.limit == self.limit,
    {
        let mut s = self;
        s.cursor = Some(String::from_str(cursor));
        s
    }

    pub fn limit(self, limit: i32) -> (r: Self)
        ensures
            r.limit == Some(limit),
            r.cursor == self.cursor,
    {
        let mut s = self;
        s.limit = Some(limit);
        s
    }

    /// The query pairs of these parameters, in the order they are sent.
    pub open spec fn query_pairs(&self) -> QueryPairs {
        ((Seq::empty() + opt_pair("cursor"@, opt_text(self.cursor))) + opt_pair("limit"@, opt_i32_text(self.limit)))
    }

    /// The URL query string (`?` and the encoded pairs; empty when no pair is set).
    pub fn to_query_string(&self) -> (s: String)
        ensures
            s@ == query_string(self.query_pairs()),
    {
        let mut qb = QueryBuilder::new();
        qb.push_opt_str("cursor", &self.cursor);
        qb.push_opt_i32("limit", self.limit);
        qb.build()
    }
}

impl Default for GetOrderGroupsParams {
    fn default() -> (r: Self)
        ensures
            r.cursor is None,
            r.limit is None,
    {
        Self::new()
    }
}

/// Response from GET /portfolio/order_groups.
#[derive(Debug, Clone)]
pub struct OrderGroupsResponse {
    /// List of order groups.
    pub order_groups: Vec<OrderGroupSummary>,
}


/// Each parameter of `GetOrderGroupsParams` is sent under its own name with its own
/// value, and a parameter that is not set is not sent.
pub proof fn law_get_order_groups_params_query_fields(p: GetOrderGroupsParams)
    ensures
        query_value(p.query_pairs(), "cursor"@) == opt_text(p.cursor),
        query_value(p.query_pairs(), "limit"@) == opt_i32_text(p.limit),
{
    broadcast use group_query_value;
    reveal_strlit("cursor");
    reveal_strlit("limit");
    assert("cursor"@.len() == 6);
    assert("limit"@.len() == 5);

}

} // verus!
