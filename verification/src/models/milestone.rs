//! Milestone models and response types.
//!
//! Milestones represent data points that can be tracked and used for market resolution.

use vstd::prelude::*;
use crate::models::query::{query_value, group_query_value, QueryBuilder, QueryPairs, query_string, opt_pair, opt_text, opt_str_text, opt_i64_text, opt_i32_text, opt_bool_text};
use crate::text::{int_to_decimal, clamp_int, clamp_i64, clamp_i32};
use crate::error::Error;

use crate::json::Json;
verus! {

/// Query parameters for GET /milestones.
#[derive(Debug, Clone)]
pub struct GetMilestonesParams {
    /// Filter milestones starting after this timestamp (RFC3339 format).
    pub minimum_start_date: Option<String>,
    /// Maximum number of results to return.
    pub limit: Option<i64>,
    /// Cursor for pagination.
    pub cursor: Option<String>,
    /// Filter by category.
    pub category: Option<String>,
    /// Filter by competition.
    pub competition: Option<String>,
    /// Filter by source ID.
    pub source_id: Option<String>,
    /// Filter by milestone type.
    pub milestone_type: Option<String>,
    /// Filter by related event ticker.
    pub related_event_ticker: Option<String>,
}

impl GetMilestonesParams {
    /// Parameters with nothing set.
    pub fn new() -> (r: Self)
        ensures
            r.minimum_start_date is None,
            r.limit is None,
            r.cursor is None,
            r.category is None,
            r.competition is None,
            r.source_id is None,
            r.milestone_type is None,
            r.related_event_ticker is None,
    {
        GetMilestonesParams { minimum_start_date: None, limit: None, cursor: None, category: None, competition: None, source_id: None, milestone_type: None, related_event_ticker: None }
    }

    pub fn minimum_start_date(self, date: &str) -> (r: Self)
        ensures
            opt_text(r.minimum_start_date) == Some(date@),
            r.limit == self.limit,
            r.cursor == self.cursor,
            r.category == self.category,
            r.competition == self.competition,
            r.source_id == self.source_id,
            r.milestone_type == self.milestone_type,
            r.related_event_ticker == self.related_event_ticker,
    {
        let mut s = self;
        s.minimum_start_date = Some(String::from_str(date));
        s
    }

    pub fn limit(self, limit: i64) -> (r: Self)
        ensures
            r.limit == Some(limit),
            r.minimum_start_date == self.minimum_start_date,
            r.cursor == self.cursor,
            r.category == self.category,
            r.competition == self.competition,
            r.source_id == self.source_id,
            r.milestone_type == self.milestone_type,
            r.related_event_ticker == self.related_event_ticker,
    {
        let mut s = self;
        s.limit = Some(limit);
        s
    }

    pub fn cursor(self, cursor: &str) -> (r: Self)
        ensures
            opt_text(r.cursor) == Some(cursor@),
            r.minimum_start_date == self.minimum_start_date,
            r.limit == self.limit,
            r.category == self.category,
            r.competition == self.competition,
            r.source_id == self.source_id,
            r.milestone_type == self.milestone_type,
            r.related_event_ticker == self.related_event_ticker,
    {
        let mut s = self;
        s.cursor = Some(String::from_str(cursor));
        s
    }

    pub fn category(self, category: &str) -> (r: Self)
        ensures
            opt_text(r.category) == Some(category@),
            r.minimum_start_date == self.minimum_start_date,
            r.limit == self.limit,
            r.cursor == self.cursor,
            r.competition == self.competition,
            r.source_id == self.source_id,
            r.milestone_type == self.milestone_type,
            r.related_event_ticker == self.related_event_ticker,
    {
        let mut s = self;
        s.category = Some(String::from_str(category));
        s
    }

    pub fn competition(self, competition: &str) -> (r: Self)
        ensures
            opt_text(r.competition) == Some(competition@),
            r.minimum_start_date == self.minimum_start_date,
            r.limit == self.limit,
            r.cursor == self.cursor,
            r.category == self.category,
            r.source_id == self.source_id,
            r.milestone_type == self.milestone_type,
            r.related_event_ticker == self.related_event_ticker,
    {
        let mut s = self;
        s.competition = Some(String::from_str(competition));
        s
    }

    pub fn source_id(self, source_id: &str) -> (r: Self)
        ensures
            opt_text(r.source_id) == Some(source_id@),
            r.minimum_start_date == self.minimum_start_date,
            r.limit == self.limit,
            r.cursor == self.cursor,
            r.category == self.category,
            r.competition == self.competition,
            r.milestone_type == self.milestone_type,
            r.related_event_ticker == self.related_event_ticker,
    {
        let mut s = self;
        s.source_id = Some(String::from_str(source_id));
        s
    }

    pub fn milestone_type(self, milestone_type: &str) -> (r: Self)
        ensures
            opt_text(r.milestone_type) == Some(milestone_type@),
            r.minimum_start_date == self.minimum_start_date,
            r.limit == self.limit,
            r.cursor == self.cursor,
            r.category == self.category,
            r.competition == self.competition,
            r.source_id == self.source_id,
            r.related_event_ticker == self.related_event_ticker,
    {
        let mut s = self;
        s.milestone_type = Some(String::from_str(milestone_type));
        s
    }

    pub fn related_event_ticker(self, related_event_ticker: &str) -> (r: Self)
        ensures
            opt_text(r.related_event_ticker) == Some(related_event_ticker@),
            r.minimum_start_date == self.minimum_start_date,
            r.limit == self.limit,
            r.cursor == self.cursor,
            r.category == self.category,
            r.competition == self.competition,
            r.source_id == self.source_id,
            r.milestone_type == self.milestone_type,
    {
        let mut s = self;
        s.related_event_ticker = Some(String::from_str(related_event_ticker));
        s
    }

    /// The query pairs of these parameters, in the order they are sent.
    pub open spec fn query_pairs(&self) -> QueryPairs {
        ((((((((Seq::empty() + opt_pair("minimum_start_date"@, opt_text(self.minimum_start_date))) + opt_pair("limit"@, opt_i64_text(self.limit))) + opt_pair("cursor"@, opt_text(self.cursor))) + opt_pair("category"@, opt_text(self.category))) + opt_pair("competition"@, opt_text(self.competition))) + opt_pair("source_id"@, opt_text(self.source_id))) + opt_pair("type"@, opt_text(self.milestone_type))) + opt_pair("related_event_ticker"@, opt_text(self.related_event_ticker)))
    }

    /// The URL query string (`?` and the encoded pairs; empty when no pair is set).
    pub fn to_query_string(&self) -> (s: String)
        ensures
            s@ == query_string(self.query_pairs()),
    {
        let mut qb = QueryBuilder::new();
        qb.push_opt_str("minimum_start_date", &self.minimum_start_date);
        qb.push_opt_i64("limit", self.limit);
        qb.push_opt_str("cursor", &self.cursor);
        qb.push_opt_str("category", &self.category);
        qb.push_opt_str("competition", &self.competition);
        qb.push_opt_str("source_id", &self.source_id);
        qb.push_opt_str("type", &self.milestone_type);
        qb.push_opt_str("related_event_ticker", &self.related_event_ticker);
        qb.build()
    }
}

impl Default for GetMilestonesParams {
    fn default() -> (r: Self)
        ensures
            r.minimum_start_date is None,
            r.limit is None,
            r.cursor is None,
            r.category is None,
            r.competition is None,
            r.source_id is None,
            r.milestone_type is None,
            r.related_event_ticker is None,
    {
        Self::new()
    }
}


/// A milestone.
#[derive(Debug)]
pub struct MilestoneInfo {
    /// The unique milestone identifier.
    pub id: Option<String>,
    /// The milestone type (e.g., "basketball_game", "one_off_milestone").
    pub milestone_type: Option<String>,
    /// The title or name of the milestone.
    pub title: Option<String>,
    /// The category (e.g., "Sports", "sports").
    pub category: Option<String>,
    /// Notification message for the milestone.
    pub notification_message: Option<String>,
    /// The start date (RFC3339 timestamp).
    pub start_date: Option<String>,
    /// The end date (RFC3339 timestamp).
    pub end_date: Option<String>,
    /// Primary event tickers associated with this milestone.
    pub primary_event_tickers: Option<Vec<String>>,
    /// Related event tickers.
    pub related_event_tickers: Option<Vec<String>>,
    /// The source identifier.
    pub source_id: Option<String>,
    /// Last update timestamp (RFC3339).
    pub last_updated_ts: Option<String>,
    /// Additional milestone details.
    pub details: Option<Json>,
}

/// Response from GET /milestones.
#[derive(Debug)]
pub struct MilestonesResponse {
    /// The list of milestones.
    pub milestones: Vec<MilestoneInfo>,
    /// Pagination cursor for next page.
    pub cursor: Option<String>,
}

/// Response from GET /milestones/{milestone_id}.
#[derive(Debug)]
pub struct MilestoneResponse {
    /// The milestone data.
    pub milestone: MilestoneInfo,
}

/// Each parameter of `GetMilestonesParams` is sent under its own name with its own
/// value, and a parameter that is not set is not sent.
pub proof fn law_get_milestones_params_query_fields(p: GetMilestonesParams)
    ensures
        query_value(p.query_pairs(), "minimum_start_date"@) == opt_text(p.minimum_start_date),
        query_value(p.query_pairs(), "limit"@) == opt_i64_text(p.limit),
        query_value(p.query_pairs(), "cursor"@) == opt_text(p.cursor),
        query_value(p.query_pairs(), "category"@) == opt_text(p.category),
        query_value(p.query_pairs(), "competition"@) == opt_text(p.competition),
        query_value(p.query_pairs(), "source_id"@) == opt_text(p.source_id),
        query_value(p.query_pairs(), "type"@) == opt_text(p.milestone_type),
        query_value(p.query_pairs(), "related_event_ticker"@) == opt_text(p.related_event_ticker),
{
    broadcast use group_query_value;
    reveal_strlit("minimum_start_date");
    reveal_strlit("limit");
    reveal_strlit("cursor");
    reveal_strlit("category");
    reveal_strlit("competition");
    reveal_strlit("source_id");
    reveal_strlit("type");
    reveal_strlit("related_event_ticker");
    assert("minimum_start_date"@.len() == 18);
    assert("limit"@.len() == 5);
    assert("cursor"@.len() == 6);
    assert("category"@.len() == 8);
    assert("competition"@.len() == 11);
    assert("source_id"@.len() == 9);
    assert("type"@.len() == 4);
    assert("related_event_ticker"@.len() == 20);

}

} // verus!
