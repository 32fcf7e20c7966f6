//! Live data models and response types.
//!
//! Live data endpoints provide real-time data for milestones without requiring WebSocket.

use vstd::prelude::*;
use crate::models::query::{query_value, group_query_value, QueryBuilder, QueryPairs, query_string, opt_pair, opt_text, opt_str_text, opt_i64_text, opt_i32_text, opt_bool_text};
use crate::text::{int_to_decimal, clamp_int, clamp_i64, clamp_i32};
use crate::error::Error;
use crate::text::{join_commas, str_views, join_with_commas};

verus! {

/// Query parameters for GET /live_data/batch.
#[derive(Debug, Clone)]
pub struct GetBatchLiveDataParams {
    /// Milestone IDs to retrieve (comma-separated).
    pub milestone_ids: Option<String>,
    /// Milestone type filter.
    pub milestone_type: Option<String>,
}

impl GetBatchLiveDataParams {
    /// Parameters with nothing set.
    pub fn new() -> (r: Self)
        ensures
            r.milestone_ids is None,
            r.milestone_type is None,
    {
        GetBatchLiveDataParams { milestone_ids: None, milestone_type: None }
    }

    pub fn milestone_ids(self, ids: &str) -> (r: Self)
        ensures
            opt_text(r.milestone_ids) == Some(ids@),
            r.milestone_type == self.milestone_type,
    {
        let mut s = self;
        s.milestone_ids = Some(String::from_str(ids));
        s
    }

    pub fn milestone_type(self, milestone_type: &str) -> (r: Self)
        ensures
            opt_text(r.milestone_type) == Some(milestone_type@),
            r.milestone_ids == self.milestone_ids,
    {
        let mut s = self;
        s.milestone_type = Some(String::from_str(milestone_type));
        s
    }

    /// The query pairs of these parameters, in the order they are sent.
    pub open spec fn query_pairs(&self) -> QueryPairs {
        ((Seq::empty() + opt_pair("milestone_ids"@, opt_text(self.milestone_ids))) + opt_pair("milestone_type"@, opt_text(self.milestone_type)))
    }

    /// The URL query string (`?` and the encoded pairs; empty when no pair is set).
    pub fn to_query_string(&self) -> (s: String)
        ensures
            s@ == query_string(self.query_pairs()),
    {
        let mut qb = QueryBuilder::new();
        qb.push_opt_str("milestone_ids", &self.milestone_ids);
        qb.push_opt_str("milestone_type", &self.milestone_type);
        qb.build()
    }


    /// Parameters for a list of milestone ids, joined with `,`.
    pub fn from_ids(ids: &[&str]) -> (r: Self)
        ensures
            opt_text(r.milestone_ids) == Some(join_commas(str_views(ids@))),
            r.milestone_type is None,
    {
        GetBatchLiveDataParams { milestone_ids: Some(join_with_commas(ids)), milestone_type: None }
    }
}

impl Default for GetBatchLiveDataParams {
    fn default() -> (r: Self)
        ensures
            r.milestone_ids is None,
            r.milestone_type is None,
    {
        Self::new()
    }
}


/// Each parameter of `GetBatchLiveDataParams` is sent under its own name with its own
/// value, and a parameter that is not set is not sent.
pub proof fn law_get_batch_live_data_params_query_fields(p: GetBatchLiveDataParams)
    ensures
        query_value(p.query_pairs(), "milestone_ids"@) == opt_text(p.milestone_ids),
        query_value(p.query_pairs(), "milestone_type"@) == opt_text(p.milestone_type),
{
    broadcast use group_query_value;
    reveal_strlit("milestone_ids");
    reveal_strlit("milestone_type");
    assert("milestone_ids"@.len() == 13);
    assert("milestone_type"@.len() == 14);

}

} // verus!
