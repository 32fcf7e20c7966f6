//! Search models for market discovery.

use vstd::prelude::*;
use std::collections::HashMap;

verus! {

/// Response from GET /search/tags_by_categories.
///
/// Contains a mapping of series categories to their associated tags,
/// which can be used for filtering and search functionality.
#[derive(Debug, Clone)]
pub struct TagsByCategoriesResponse {
    /// Mapping of series categories to their associated tags.
    pub tags_by_categories: HashMap<String, Vec<String>>,
}

/// Competition filter details within a sport.
#[derive(Debug, Clone)]
pub struct CompetitionFilter {
    /// Available scopes for this competition.
    pub scopes: Vec<String>,
}

/// Sport filter details.
#[derive(Debug, Clone)]
pub struct SportFilter {
    /// Available scopes for this sport.
    pub scopes: Vec<String>,
    /// Competitions within this sport.
    pub competitions: HashMap<String, CompetitionFilter>,
}

/// Response from GET /search/filters_by_sport.
///
/// Contains filtering options organized by sport for market discovery.
#[derive(Debug, Clone)]
pub struct FiltersBySportResponse {
    /// Mapping of sports to their filter details.
    pub filters_by_sports: HashMap<String, SportFilter>,
    /// Ordered list of sports for display purposes.
    pub sport_ordering: Vec<String>,
}


} // verus!
