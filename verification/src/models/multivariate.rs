//! Multivariate event collection models and response types.
//!
//! Multivariate event collections support dynamic market creation based on
//! variable combinations (e.g., different strike prices, dates).

use vstd::prelude::*;
use crate::models::query::{query_value, group_query_value, QueryBuilder, QueryPairs, query_string, opt_pair, opt_text, opt_str_text, opt_i64_text, opt_i32_text, opt_bool_text};
use crate::text::{int_to_decimal, clamp_int, clamp_i64, clamp_i32};
use crate::error::Error;
use crate::models::market::MveSelectedLeg;
use crate::json::Json;
use crate::text::str_equals;

verus! {

/// An event entry within a multivariate event collection.
#[derive(Debug, Clone)]
pub struct CollectionEvent {
    /// Event ticker.
    pub ticker: Option<String>,
    /// Whether this event only supports YES contracts.
    pub is_yes_only: Option<bool>,
    /// Minimum order size.
    pub size_min: Option<i64>,
    /// Maximum order size.
    pub size_max: Option<i64>,
}

/// An associated event in a multivariate collection with quoter information.
#[derive(Debug, Clone)]
pub struct AssociatedEvent {
    /// Event ticker.
    pub ticker: Option<String>,
    /// Whether this event only supports YES contracts.
    pub is_yes_only: Option<bool>,
    /// Minimum order size.
    pub size_min: Option<i64>,
    /// Maximum order size.
    pub size_max: Option<i64>,
    /// Active quoters for this event.
    pub active_quoters: Option<Vec<String>>,
}

/// A variable in a multivariate event collection.
#[derive(Debug)]
pub struct CollectionVariable {
    /// Variable name.
    pub name: String,
    /// Variable type (e.g., "date", "number", "string").
    pub variable_type: Option<String>,
    /// Possible values for this variable.
    pub values: Option<Vec<Json>>,
    /// Minimum value (for numeric variables).
    pub min: Option<Json>,
    /// Maximum value (for numeric variables).
    pub max: Option<Json>,
}

/// A multivariate event collection.
#[derive(Debug)]
pub struct MultivariateEventCollection {
    /// The collection ticker.
    pub collection_ticker: String,
    /// Collection title.
    pub title: Option<String>,
    /// Collection description.
    pub description: Option<String>,
    /// Variables that can be combined to create markets.
    pub variables: Option<Vec<CollectionVariable>>,
    /// Associated series ticker.
    pub series_ticker: Option<String>,
    /// Collection status.
    pub status: Option<String>,
    /// Events in this collection.
    pub events: Option<Vec<CollectionEvent>>,
    /// Open date for the collection.
    pub open_date: Option<String>,
    /// Close date for the collection.
    pub close_date: Option<String>,
    /// Associated events with quoter information.
    pub associated_events: Option<Vec<AssociatedEvent>>,
    /// Associated event tickers (deprecated, use `associated_events`).
    pub associated_event_tickers: Option<Vec<String>>,
    /// Whether the collection events are ordered.
    pub is_ordered: Option<bool>,
    /// Whether each event has a single market (deprecated).
    pub is_single_market_per_event: Option<bool>,
    /// Whether all events are YES-only (deprecated).
    pub is_all_yes: Option<bool>,
    /// Minimum order size.
    pub size_min: Option<i64>,
    /// Maximum order size.
    pub size_max: Option<i64>,
    /// Functional description of the collection.
    pub functional_description: Option<String>,
}

/// Query parameters for GET /multivariate_event_collections.
#[derive(Debug, Clone)]
pub struct GetMultivariateCollectionsParams {
    /// Pagination cursor.
    pub cursor: Option<String>,
    /// Number of results per page.
    pub limit: Option<i32>,
    /// Filter by series ticker.
    pub series_ticker: Option<String>,
    /// Filter by status.
    pub status: Option<String>,
}

impl GetMultivariateCollectionsParams {
    /// Parameters with nothing set.
    pub fn new() -> (r: Self)
        ensures
            r.cursor is None,
            r.limit is None,
            r.series_ticker is None,
            r.status is None,
    {
        GetMultivariateCollectionsParams { cursor: None, limit: None, series_ticker: None, status: None }
    }

    pub fn cursor(self, cursor: &str) -> (r: Self)
        ensures
            opt_text(r.cursor) == Some(cursor@),
            r.limit == self.limit,
            r.series_ticker == self.series_ticker,
            r.status == self.status,
    {
        let mut s = self;
        s.cursor = Some(String::from_str(cursor));
        s
    }

    pub fn limit(self, limit: i32) -> (r: Self)
        ensures
            r.limit == Some(limit),
            r.cursor == self.cursor,
            r.series_ticker == self.series_ticker,
            r.status == self.status,
    {
        let mut s = self;
        s.limit = Some(limit);
        s
    }

    pub fn series_ticker(self, ticker: &str) -> (r: Self)
        ensures
            opt_text(r.series_ticker) == Some(ticker@),
            r.cursor == self.cursor,
            r.limit == self.limit,
            r.status == self.status,
    {
        let mut s = self;
        s.series_ticker = Some(String::from_str(ticker));
        s
    }

    pub fn status(self, status: &str) -> (r: Self)
        ensures
            opt_text(r.status) == Some(status@),
            r.cursor == self.cursor,
            r.limit == self.limit,
            r.series_ticker == self.series_ticker,
    {
        let mut s = self;
        s.status = Some(String::from_str(status));
        s
    }

    /// The query pairs of these parameters, in the order they are sent.
    pub open spec fn query_pairs(&self) -> QueryPairs {
        ((((Seq::empty() + opt_pair("cursor"@, opt_text(self.cursor))) + opt_pair("limit"@, opt_i32_text(self.limit))) + opt_pair("series_ticker"@, opt_text(self.series_ticker))) + opt_pair("status"@, opt_text(self.status)))
    }

    /// The URL query string (`?` and the encoded pairs; empty when no pair is set).
    pub fn to_query_string(&self) -> (s: String)
        ensures
            s@ == query_string(self.query_pairs()),
    {
        let mut qb = QueryBuilder::new();
        qb.push_opt_str("cursor", &self.cursor);
        qb.push_opt_i32("limit", self.limit);
        qb.push_opt_str("series_ticker", &self.series_ticker);
        qb.push_opt_str("status", &self.status);
        qb.build()
    }
}

impl Default for GetMultivariateCollectionsParams {
    fn default() -> (r: Self)
        ensures
            r.cursor is None,
            r.limit is None,
            r.series_ticker is None,
            r.status is None,
    {
        Self::new()
    }
}

/// Response from GET /multivariate_event_collections.
#[derive(Debug)]
pub struct MultivariateCollectionsResponse {
    /// List of collections.
    pub collections: Vec<MultivariateEventCollection>,
    /// Pagination cursor for next page.
    pub cursor: Option<String>,
}

/// Response from GET /multivariate_event_collections/{collection_ticker}.
#[derive(Debug)]
pub struct MultivariateCollectionResponse {
    /// The collection details.
    pub collection: MultivariateEventCollection,
}

/// The position of the first variable named `name` among `vars`, if any.
pub open spec fn variable_index(vars: Seq<(String, Json)>, name: Seq<char>) -> Option<int>
    decreases vars.len(),
{
    if vars.len() == 0 {
        None
    } else if vars[0].0@ == name {
        Some(0)
    } else {
        match variable_index(vars.drop_first(), name) {
            Some(i) => Some(i + 1),
            None => None,
        }
    }
}

/// `variable_index` finds the first variable with the name, and finds
/// none when no variable has it.
pub proof fn lemma_variable_index(vars: Seq<(String, Json)>, name: Seq<char>)
    ensures
        match variable_index(vars, name) {
            Some(i) => 0 <= i < vars.len() && vars[i].0@ == name && forall|j: int|
                0 <= j < i ==> #[trigger] vars[j].0@ != name,
            None => forall|j: int| 0 <= j < vars.len() ==> #[trigger] vars[j].0@ != name,
        },
    decreases vars.len(),
{
    if vars.len() > 0 && vars[0].0@ != name {
        let rest = vars.drop_first();
        lemma_variable_index(rest, name);
        assert forall|j: int| 1 <= j < vars.len() implies vars[j] == rest[j - 1] by {}
        match variable_index(rest, name) {
            Some(i) => {
                assert forall|j: int| 0 <= j < i + 1 implies #[trigger] vars[j].0@ != name by {
                    if j > 0 {
                        assert(vars[j] == rest[j - 1]);
                    }
                }
            },
            None => {
                assert forall|j: int| 0 <= j < vars.len() implies #[trigger] vars[j].0@ != name by {
                    if j > 0 {
                        assert(vars[j] == rest[j - 1]);
                    }
                }
            },
        }
    }
}

/// The names of `vars` are distinct.
pub open spec fn names_distinct(vars: Seq<(String, Json)>) -> bool {
    forall|i: int, j: int| 0 <= i < j < vars.len() ==> #[trigger] vars[i].0@ != #[trigger] vars[j].0@
}

/// `after` is `before` with the variable `name` set to `value`: the first
/// variable with that name takes the value, or, when there is none, the
/// variable is added at the end.
pub open spec fn variable_set(
    before: Seq<(String, Json)>,
    after: Seq<(String, Json)>,
    name: Seq<char>,
    value: Json,
) -> bool {
    match variable_index(before, name) {
        Some(i) => {
            &&& after.len() == before.len()
            &&& after[i].0@ == name
            &&& after[i].1 == value
            &&& forall|j: int| 0 <= j < before.len() && j != i ==> #[trigger] after[j] == before[j]
        },
        None => {
            &&& after.len() == before.len() + 1
            &&& after.drop_last() == before
            &&& after.last().0@ == name
            &&& after.last().1 == value
        },
    }
}

/// The variables of a request, none when it has none.
pub open spec fn variables_of(vars: Option<Vec<(String, Json)>>) -> Seq<(String, Json)> {
    match vars {
        Some(v) => v@,
        None => Seq::empty(),
    }
}

/// The first variable named `name` is at `i` when `i` holds that name and
/// no earlier variable does.
proof fn lemma_variable_index_first(vars: Seq<(String, Json)>, name: Seq<char>, i: int)
    requires
        0 <= i < vars.len(),
        vars[i].0@ == name,
        forall|j: int| 0 <= j < i ==> vars[j].0@ != name,
    ensures
        variable_index(vars, name) == Some(i),
{
    lemma_variable_index(vars, name);
    match variable_index(vars, name) {
        Some(k) => {
            if k < i {
                assert(vars[k].0@ != name);
            } else if i < k {
                assert(vars[i].0@ != name);
            }
        },
        None => {
            assert(vars[i].0@ != name);
        },
    }
}

/// Sets the variable `name` to `value` (see `variable_set`).
pub fn set_variable(vars: &mut Vec<(String, Json)>, name: &str, value: Json)
    ensures
        variable_set(old(vars)@, final(vars)@, name@, value),
{
    let n = vars.len();
    let mut i: usize = 0;
    while i < n
        invariant
            n == vars@.len(),
            vars@ == old(vars)@,
            0 <= i <= n,
            forall|j: int| 0 <= j < i ==> vars@[j].0@ != name@,
        decreases n - i,
    {
        if str_equals(vars[i].0.as_str(), name) {
            proof {
                lemma_variable_index_first(vars@, name@, i as int);
            }
            vars.set(i, (name.to_owned(), value));
            return;
        }
        i = i + 1;
    }
    proof {
        lemma_variable_index(vars@, name@);
    }
    vars.push((name.to_owned(), value));
    proof {
        assert(vars@.drop_last() =~= old(vars)@);
    }
}

/// Setting a variable is read back: afterwards the first variable with
/// that name holds the value, and variables with distinct names keep
/// distinct names.
pub proof fn law_variable_reads_back(
    before: Seq<(String, Json)>,
    after: Seq<(String, Json)>,
    name: Seq<char>,
    value: Json,
)
    requires
        variable_set(before, after, name, value),
    ensures
        variable_index(after, name) matches Some(i) && after[i].1 == value,
        names_distinct(before) ==> names_distinct(after),
{
    lemma_variable_index(before, name);
    match variable_index(before, name) {
        Some(i) => {
            let k = i;
            assert forall|j: int| 0 <= j < k implies after[j].0@ != name by {
                assert(after[j] == before[j]);
            }
            lemma_variable_index_first(after, name, k);
            if names_distinct(before) {
                assert forall|a: int, b: int| 0 <= a < b < after.len() implies #[trigger] after[a].0@
                    != #[trigger] after[b].0@ by {
                    if a != k {
                        assert(after[a] == before[a]);
                    }
                    if b != k {
                        assert(after[b] == before[b]);
                    }
                    assert(before[a].0@ != before[b].0@);
                }
            }
        },
        None => {
            let k = before.len() as int;
            assert forall|j: int| 0 <= j < k implies after[j].0@ != name by {
                assert(after[j] == after.drop_last()[j]);
            }
            lemma_variable_index_first(after, name, k);
            if names_distinct(before) {
                assert forall|a: int, b: int| 0 <= a < b < after.len() implies #[trigger] after[a].0@
                    != #[trigger] after[b].0@ by {
                    assert(after[a] == after.drop_last()[a]);
                    if b < k {
                        assert(after[b] == after.drop_last()[b]);
                    }
                }
            }
        },
    }
}

/// Request body for POST /multivariate_event_collections/{collection_ticker}.
///
/// Supports two formats:
/// - `variables`: variable values for variable-based collections
/// - `selected_markets`: list of ticker pairs for selection-based collections
#[derive(Debug)]
pub struct CreateMarketInCollectionRequest {
    /// Variable values for creating the market, by name.
    pub variables: Option<Vec<(String, Json)>>,
    /// Selected market legs (alternative to variables).
    pub selected_markets: Option<Vec<MveSelectedLeg>>,
}

impl CreateMarketInCollectionRequest {
    /// Create a new request with the given variable values.
    pub fn new(variables: Vec<(String, Json)>) -> (r: Self)
        ensures
            r.variables == Some(variables),
            r.selected_markets is None,
    {
        CreateMarketInCollectionRequest { variables: Some(variables), selected_markets: None }
    }

    /// Create an empty request (variables can be added later).
    pub fn empty() -> (r: Self)
        ensures
            r.variables matches Some(v) && v@.len() == 0,
            r.selected_markets is None,
    {
        CreateMarketInCollectionRequest { variables: Some(Vec::new()), selected_markets: None }
    }

    /// Add a variable value (replacing the value of a variable of that
    /// name).
    pub fn variable(self, name: &str, value: Json) -> (r: Self)
        ensures
            r.variables matches Some(v) && variable_set(variables_of(self.variables), v@, name@, value),
            r.selected_markets == self.selected_markets,
    {
        let mut vars = match self.variables {
            Some(v) => v,
            None => Vec::new(),
        };
        set_variable(&mut vars, name, value);
        CreateMarketInCollectionRequest { variables: Some(vars), selected_markets: self.selected_markets }
    }

    /// Create a request with selected market legs.
    pub fn with_selected_markets(markets: Vec<MveSelectedLeg>) -> (r: Self)
        ensures
            r.variables is None,
            r.selected_markets == Some(markets),
    {
        CreateMarketInCollectionRequest { variables: None, selected_markets: Some(markets) }
    }
}

/// Request body for PUT /multivariate_event_collections/{collection_ticker}/lookup.
///
/// Supports two formats:
/// - `variables`: variable values for variable-based collections
/// - `selected_markets`: list of ticker pairs for selection-based collections
#[derive(Debug)]
pub struct LookupTickersRequest {
    /// Variable values to look up, by name.
    pub variables: Option<Vec<(String, Json)>>,
    /// Selected market legs (alternative to variables).
    pub selected_markets: Option<Vec<MveSelectedLeg>>,
}

impl LookupTickersRequest {
    /// Create a new lookup request.
    pub fn new(variables: Vec<(String, Json)>) -> (r: Self)
        ensures
            r.variables == Some(variables),
            r.selected_markets is None,
    {
        LookupTickersRequest { variables: Some(variables), selected_markets: None }
    }

    /// Create an empty lookup request.
    pub fn empty() -> (r: Self)
        ensures
            r.variables matches Some(v) && v@.len() == 0,
            r.selected_markets is None,
    {
        LookupTickersRequest { variables: Some(Vec::new()), selected_markets: None }
    }

    /// Add a variable value for lookup (replacing the value of a variable
    /// of that name).
    pub fn variable(self, name: &str, value: Json) -> (r: Self)
        ensures
            r.variables matches Some(v) && variable_set(variables_of(self.variables), v@, name@, value),
            r.selected_markets == self.selected_markets,
    {
        let mut vars = match self.variables {
            Some(v) => v,
            None => Vec::new(),
        };
        set_variable(&mut vars, name, value);
        LookupTickersRequest { variables: Some(vars), selected_markets: self.selected_markets }
    }

    /// Create a lookup request with selected market legs.
    pub fn with_selected_markets(markets: Vec<MveSelectedLeg>) -> (r: Self)
        ensures
            r.variables is None,
            r.selected_markets == Some(markets),
    {
        LookupTickersRequest { variables: None, selected_markets: Some(markets) }
    }
}

/// A lookup history entry.
#[derive(Debug)]
pub struct LookupHistoryEntry {
    /// Variable values used in the lookup, by name.
    pub variables: Vec<(String, Json)>,
    /// The resulting market ticker.
    pub ticker: Option<String>,
    /// The resulting event ticker.
    pub event_ticker: Option<String>,
    /// Selected markets (alternative to variables in some API versions).
    pub selected_markets: Option<Vec<MveSelectedLeg>>,
    /// Lookup timestamp.
    pub created_time: Option<String>,
}

/// Response from GET /multivariate_event_collections/{collection_ticker}/lookup.
#[derive(Debug)]
pub struct LookupHistoryResponse {
    /// List of lookup history entries.
    pub lookups: Vec<LookupHistoryEntry>,
    /// Pagination cursor for next page.
    pub cursor: Option<String>,
}

/// Response from POST /multivariate_event_collections/{collection_ticker}.
#[derive(Debug, Clone)]
pub struct CreateMarketInCollectionResponse {
    /// The created market ticker.
    pub ticker: String,
    /// The created event ticker.
    pub event_ticker: Option<String>,
    /// Whether the market already existed.
    pub already_existed: Option<bool>,
}

/// Response from PUT /multivariate_event_collections/{collection_ticker}/lookup.
#[derive(Debug, Clone)]
pub struct LookupTickersResponse {
    /// The market ticker if found.
    pub ticker: Option<String>,
    /// The event ticker if found.
    pub event_ticker: Option<String>,
    /// Whether the market exists.
    pub exists: Option<bool>,
}

/// Query parameters for GET /multivariate_event_collections/{collection_ticker}/lookup.
#[derive(Debug, Clone)]
pub struct GetLookupHistoryParams {
    /// Pagination cursor.
    pub cursor: Option<String>,
    /// Number of results per page.
    pub limit: Option<i32>,
    /// Only return lookups within this many seconds ago.
    pub lookback_seconds: Option<i64>,
}

impl GetLookupHistoryParams {
    /// Parameters with nothing set.
    pub fn new() -> (r: Self)
        ensures
            r.cursor is None,
            r.limit is None,
            r.lookback_seconds is None,
    {
        GetLookupHistoryParams { cursor: None, limit: None, lookback_seconds: None }
    }

    pub fn cursor(self, cursor: &str) -> (r: Self)
        ensures
            opt_text(r.cursor) == Some(cursor@),
            r.limit == self.limit,
            r.lookback_seconds == self.lookback_seconds,
    {
        let mut s = self;
        s.cursor = Some(String::from_str(cursor));
        s
    }

    pub fn limit(self, limit: i32) -> (r: Self)
        ensures
            r.limit == Some(limit),
            r.cursor == self.cursor,
            r.lookback_seconds == self.lookback_seconds,
    {
        let mut s = self;
        s.limit = Some(limit);
        s
    }

    pub fn lookback_seconds(self, seconds: i64) -> (r: Self)
        ensures
            r.lookback_seconds == Some(seconds),
            r.cursor == self.cursor,
            r.limit == self.limit,
    {
        let mut s = self;
        s.lookback_seconds = Some(seconds);
        s
    }

    /// The query pairs of these parameters, in the order they are sent.
    pub open spec fn query_pairs(&self) -> QueryPairs {
        (((Seq::empty() + opt_pair("cursor"@, opt_text(self.cursor))) + opt_pair("limit"@, opt_i32_text(self.limit))) + opt_pair("lookback_seconds"@, opt_i64_text(self.lookback_seconds)))
    }

    /// The URL query string (`?` and the encoded pairs; empty when no pair is set).
    pub fn to_query_string(&self) -> (s: String)
        ensures
            s@ == query_string(self.query_pairs()),
    {
        let mut qb = QueryBuilder::new();
        qb.push_opt_str("cursor", &self.cursor);
        qb.push_opt_i32("limit", self.limit);
        qb.push_opt_i64("lookback_seconds", self.lookback_seconds);
        qb.build()
    }
}

impl Default for GetLookupHistoryParams {
    fn default() -> (r: Self)
        ensures
            r.cursor is None,
            r.limit is None,
            r.lookback_seconds is None,
    {
        Self::new()
    }
}


/// Each parameter of `GetMultivariateCollectionsParams` is sent under its own name with its own
/// value, and a parameter that is not set is not sent.
pub proof fn law_get_multivariate_collections_params_query_fields(p: GetMultivariateCollectionsParams)
    ensures
        query_value(p.query_pairs(), "cursor"@) == opt_text(p.cursor),
        query_value(p.query_pairs(), "limit"@) == opt_i32_text(p.limit),
        query_value(p.query_pairs(), "series_ticker"@) == opt_text(p.series_ticker),
        query_value(p.query_pairs(), "status"@) == opt_text(p.status),
{
    broadcast use group_query_value;
    reveal_strlit("cursor");
    reveal_strlit("limit");
    reveal_strlit("series_ticker");
    reveal_strlit("status");
    assert("cursor"@.len() == 6);
    assert("limit"@.len() == 5);
    assert("series_ticker"@.len() == 13);
    assert("status"@.len() == 6);
    assert("status"@[0] != "cursor"@[0]);
}

/// Each parameter of `GetLookupHistoryParams` is sent under its own name with its own
/// value, and a parameter that is not set is not sent.
pub proof fn law_get_lookup_history_params_query_fields(p: GetLookupHistoryParams)
    ensures
        query_value(p.query_pairs(), "cursor"@) == opt_text(p.cursor),
        query_value(p.query_pairs(), "limit"@) == opt_i32_text(p.limit),
        query_value(p.query_pairs(), "lookback_seconds"@) == opt_i64_text(p.lookback_seconds),
{
    broadcast use group_query_value;
    reveal_strlit("cursor");
    reveal_strlit("limit");
    reveal_strlit("lookback_seconds");
    assert("cursor"@.len() == 6);
    assert("limit"@.len() == 5);
    assert("lookback_seconds"@.len() == 16);

}

} // verus!
