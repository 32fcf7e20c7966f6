//! Series API models and response types.

use vstd::prelude::*;
use crate::models::query::{query_value, group_query_value, QueryBuilder, QueryPairs, query_string, opt_pair, opt_text, opt_str_text, opt_i64_text, opt_i32_text, opt_bool_text};
use crate::text::{int_to_decimal, clamp_int, clamp_i64, clamp_i32};
use crate::error::Error;

verus! {

/// Type of fee structure for a series.
#[derive(Debug, Clone, Copy, PartialEq, Eq, Structural)]
#[non_exhaustive]
pub enum FeeType {
    /// Quadratic fee structure.
    Quadratic,
    /// Quadratic fee structure with maker fees.
    QuadraticWithMakerFees,
    /// Flat fee structure.
    Flat,
    /// Unknown fee type returned by the API.
    Unknown,
}

/// Query parameters for GET /series/fee_changes.
#[derive(Debug, Clone)]
pub struct GetFeeChangesParams {
    /// Filter by series ticker.
    pub series_ticker: Option<String>,
    /// If true, include historical fee changes. Default is false (upcoming only).
    pub show_historical: Option<bool>,
}

impl GetFeeChangesParams {
    /// Parameters with nothing set.
    pub fn new() -> (r: Self)
        ensures
            r.series_ticker is None,
            r.show_historical is None,
    {
        GetFeeChangesParams { series_ticker: None, show_historical: None }
    }

    pub fn series_ticker(self, ticker: &str) -> (r: Self)
        ensures
            opt_text(r.series_ticker) == Some(ticker@),
            r.show_historical == self.show_historical,
    {
        let mut s = self;
        s.series_ticker = Some(String::from_str(ticker));
        s
    }

    pub fn show_historical(self, show: bool) -> (r: Self)
        ensures
            r.show_historical == Some(show),
            r.series_ticker == self.series_ticker,
    {
        let mut s = self;
        s.show_historical = Some(show);
        s
    }

    /// The query pairs of these parameters, in the order they are sent.
    pub open spec fn query_pairs(&self) -> QueryPairs {
        ((Seq::empty() + opt_pair("series_ticker"@, opt_text(self.series_ticker))) + opt_pair("show_historical"@, opt_bool_text(self.show_historical)))
    }

    /// The URL query string (`?` and the encoded pairs; empty when no pair is set).
    pub fn to_query_string(&self) -> (s: String)
        ensures
            s@ == query_string(self.query_pairs()),
    {
        let mut qb = QueryBuilder::new();
        qb.push_opt_str("series_ticker", &self.series_ticker);
        qb.push_opt_bool("show_historical", self.show_historical);
        qb.build()
    }
}

impl Default for GetFeeChangesParams {
    fn default() -> (r: Self)
        ensures
            r.series_ticker is None,
            r.show_historical is None,
    {
        Self::new()
    }
}

/// A series on the Kalshi exchange.
#[derive(Debug, Clone)]
pub struct Series {
    /// Series ticker.
    pub ticker: String,
    /// Frequency of the series (e.g., "daily", "weekly", "monthly", "custom").
    pub frequency: String,
    /// Title of the series.
    pub title: String,
}

/// Response from GET /series/{series_ticker}.
#[derive(Debug, Clone)]
pub struct SeriesResponse {
    pub series: Series,
}

/// Response from GET /series.
#[derive(Debug, Clone)]
pub struct SeriesListResponse {
    pub series: Vec<Series>,
    pub cursor: Option<String>,
}

/// Query parameters for GET /series.
#[derive(Debug, Clone)]
pub struct GetSeriesParams {
    /// Filter by series category.
    pub category: Option<String>,
    /// Filter by associated tags.
    pub tags: Option<String>,
    /// If true, includes internal product metadata.
    pub include_product_metadata: Option<bool>,
    /// If true, includes total volume traded across all events in each series.
    pub include_volume: Option<bool>,
}

impl GetSeriesParams {
    /// Parameters with nothing set.
    pub fn new() -> (r: Self)
        ensures
            r.category is None,
            r.tags is None,
            r.include_product_metadata is None,
            r.include_volume is None,
    {
        GetSeriesParams { category: None, tags: None, include_product_metadata: None, include_volume: None }
    }

    pub fn category(self, category: &str) -> (r: Self)
        ensures
            opt_text(r.category) == Some(category@),
            r.tags == self.tags,
            r.include_product_metadata == self.include_product_metadata,
            r.include_volume == self.include_volume,
    {
        let mut s = self;
        s.category = Some(String::from_str(category));
        s
    }

    pub fn tags(self, tags: &str) -> (r: Self)
        ensures
            opt_text(r.tags) == Some(tags@),
            r.category == self.category,
            r.include_product_metadata == self.include_product_metadata,
            r.include_volume == self.include_volume,
    {
        let mut s = self;
        s.tags = Some(String::from_str(tags));
        s
    }

    pub fn include_product_metadata(self, enabled: bool) -> (r: Self)
        ensures
            r.include_product_metadata == Some(enabled),
            r.category == self.category,
            r.tags == self.tags,
            r.include_volume == self.include_volume,
    {
        let mut s = self;
        s.include_product_metadata = Some(enabled);
        s
    }

    pub fn include_volume(self, enabled: bool) -> (r: Self)
        ensures
            r.include_volume == Some(enabled),
            r.category == self.category,
            r.tags == self.tags,
            r.include_product_metadata == self.include_product_metadata,
    {
        let mut s = self;
        s.include_volume = Some(enabled);
        s
    }

    /// The query pairs of these parameters, in the order they are sent.
    pub open spec fn query_pairs(&self) -> QueryPairs {
        ((((Seq::empty() + opt_pair("category"@, opt_text(self.category))) + opt_pair("tags"@, opt_text(self.tags))) + opt_pair("include_product_metadata"@, opt_bool_text(self.include_product_metadata))) + opt_pair("include_volume"@, opt_bool_text(self.include_volume)))
    }

    /// The URL query string (`?` and the encoded pairs; empty when no pair is set).
    pub fn to_query_string(&self) -> (s: String)
        ensures
            s@ == query_string(self.query_pairs()),
    {
        let mut qb = QueryBuilder::new();
        qb.push_opt_str("category", &self.category);
        qb.push_opt_str("tags", &self.tags);
        qb.push_opt_bool("include_product_metadata", self.include_product_metadata);
        qb.push_opt_bool("include_volume", self.include_volume);
        qb.build()
    }
}

impl Default for GetSeriesParams {
    fn default() -> (r: Self)
        ensures
            r.category is None,
            r.tags is None,
            r.include_product_metadata is None,
            r.include_volume is None,
    {
        Self::new()
    }
}


/// Each parameter of `GetFeeChangesParams` is sent under its own name with its own
/// value, and a parameter that is not set is not sent.
pub proof fn law_get_fee_changes_params_query_fields(p: GetFeeChangesParams)
    ensures
        query_value(p.query_pairs(), "series_ticker"@) == opt_text(p.series_ticker),
        query_value(p.query_pairs(), "show_historical"@) == opt_bool_text(p.show_historical),
{
    broadcast use group_query_value;
    reveal_strlit("series_ticker");
    reveal_strlit("show_historical");
    assert("series_ticker"@.len() == 13);
    assert("show_historical"@.len() == 15);

}

/// Each parameter of `GetSeriesParams` is sent under its own name with its own
/// value, and a parameter that is not set is not sent.
pub proof fn law_get_series_params_query_fields(p: GetSeriesParams)
    ensures
        query_value(p.query_pairs(), "category"@) == opt_text(p.category),
        query_value(p.query_pairs(), "tags"@) == opt_text(p.tags),
        query_value(p.query_pairs(), "include_product_metadata"@) == opt_bool_text(p.include_product_metadata),
        query_value(p.query_pairs(), "include_volume"@) == opt_bool_text(p.include_volume),
{
    broadcast use group_query_value;
    reveal_strlit("category");
    reveal_strlit("tags");
    reveal_strlit("include_product_metadata");
    reveal_strlit("include_volume");
    assert("category"@.len() == 8);
    assert("tags"@.len() == 4);
    assert("include_product_metadata"@.len() == 24);
    assert("include_volume"@.len() == 14);

}

} // verus!
