//! Structured target models and response types.
//!
//! Structured targets represent specific data targets for market resolution.

use vstd::prelude::*;
use crate::models::query::{query_value, group_query_value, QueryBuilder, QueryPairs, query_string, opt_pair, opt_text, opt_str_text, opt_i64_text, opt_i32_text, opt_bool_text};
use crate::text::{int_to_decimal, clamp_int, clamp_i64, clamp_i32};
use crate::error::Error;

use crate::json::Json;
verus! {

/// Query parameters for GET /structured_targets.
#[derive(Debug, Clone)]
pub struct GetStructuredTargetsParams {
    /// Maximum number of results (1-2000).
    pub page_size: Option<i64>,
    /// Cursor for pagination.
    pub cursor: Option<String>,
    /// Filter by target type.
    pub target_type: Option<String>,
    /// Filter by competition.
    pub competition: Option<String>,
}

impl GetStructuredTargetsParams {
    /// Parameters with nothing set.
    pub fn new() -> (r: Self)
        ensures
            r.page_size is None,
            r.cursor is None,
            r.target_type is None,
            r.competition is None,
    {
        GetStructuredTargetsParams { page_size: None, cursor: None, target_type: None, competition: None }
    }

    pub fn page_size(self, page_size: i64) -> (r: Self)
        ensures
            r.page_size == Some(clamp_int(page_size as int, 1, 2000) as i64),
            r.cursor == self.cursor,
            r.target_type == self.target_type,
            r.competition == self.competition,
    {
        let mut s = self;
        s.page_size = Some(clamp_i64(page_size, 1, 2000));
        s
    }

    pub fn cursor(self, cursor: &str) -> (r: Self)
        ensures
            opt_text(r.cursor) == Some(cursor@),
            r.page_size == self.page_size,
            r.target_type == self.target_type,
            r.competition == self.competition,
    {
        let mut s = self;
        s.cursor = Some(String::from_str(cursor));
        s
    }

    pub fn target_type(self, target_type: &str) -> (r: Self)
        ensures
            opt_text(r.target_type) == Some(target_type@),
            r.page_size == self.page_size,
            r.cursor == self.cursor,
            r.competition == self.competition,
    {
        let mut s = self;
        s.target_type = Some(String::from_str(target_type));
        s
    }

    pub fn competition(self, competition: &str) -> (r: Self)
        ensures
            opt_text(r.competition) == Some(competition@),
            r.page_size == self.page_size,
            r.cursor == self.cursor,
            r.target_type == self.target_type,
    {
        let mut s = self;
        s.competition = Some(String::from_str(competition));
        s
    }

    /// The query pairs of these parameters, in the order they are sent.
    pub open spec fn query_pairs(&self) -> QueryPairs {
        ((((Seq::empty() + opt_pair("page_size"@, opt_i64_text(self.page_size))) + opt_pair("cursor"@, opt_text(self.cursor))) + opt_pair("type"@, opt_text(self.target_type))) + opt_pair("competition"@, opt_text(self.competition)))
    }

    /// The URL query string (`?` and the encoded pairs; empty when no pair is set).
    pub fn to_query_string(&self) -> (s: String)
        ensures
            s@ == query_string(self.query_pairs()),
    {
        let mut qb = QueryBuilder::new();
        qb.push_opt_i64("page_size", self.page_size);
        qb.push_opt_str("cursor", &self.cursor);
        qb.push_opt_str("type", &self.target_type);
        qb.push_opt_str("competition", &self.competition);
        qb.build()
    }
}

impl Default for GetStructuredTargetsParams {
    fn default() -> (r: Self)
        ensures
            r.page_size is None,
            r.cursor is None,
            r.target_type is None,
            r.competition is None,
    {
        Self::new()
    }
}


/// A structured target.
#[derive(Debug)]
pub struct StructuredTarget {
    /// The unique identifier for the structured target.
    pub id: Option<String>,
    /// The name of the structured target.
    pub name: Option<String>,
    /// The target type (e.g., "ufc_competitor", "soccer_team", "basketball_team").
    pub target_type: Option<String>,
    /// The source identifier.
    pub source_id: Option<String>,
    /// Additional details/configuration.
    pub details: Option<Json>,
    /// Last update timestamp (RFC3339).
    pub last_updated_ts: Option<String>,
    /// Status of the structured target.
    pub status: Option<String>,
}

/// Response from GET /structured_targets.
#[derive(Debug)]
pub struct StructuredTargetsResponse {
    /// The list of structured targets.
    pub structured_targets: Vec<StructuredTarget>,
    /// Pagination cursor for next page.
    pub cursor: Option<String>,
}

/// Response from GET /structured_targets/{structured_target_id}.
#[derive(Debug)]
pub struct StructuredTargetResponse {
    /// The structured target data.
    pub structured_target: StructuredTarget,
}

/// Each parameter of `GetStructuredTargetsParams` is sent under its own name with its own
/// value, and a parameter that is not set is not sent.
pub proof fn law_get_structured_targets_params_query_fields(p: GetStructuredTargetsParams)
    ensures
        query_value(p.query_pairs(), "page_size"@) == opt_i64_text(p.page_size),
        query_value(p.query_pairs(), "cursor"@) == opt_text(p.cursor),
        query_value(p.query_pairs(), "type"@) == opt_text(p.target_type),
        query_value(p.query_pairs(), "competition"@) == opt_text(p.competition),
{
    broadcast use group_query_value;
    reveal_strlit("page_size");
    reveal_strlit("cursor");
    reveal_strlit("type");
    reveal_strlit("competition");
    assert("page_size"@.len() == 9);
    assert("cursor"@.len() == 6);
    assert("type"@.len() == 4);
    assert("competition"@.len() == 11);

}

} // verus!
