//! Event models and response types.
//!
//! Types for events and related data.

use vstd::prelude::*;
use crate::models::query::{query_value, group_query_value, QueryBuilder, QueryPairs, query_string, opt_pair, opt_text, opt_str_text, opt_i64_text, opt_i32_text, opt_bool_text};
use crate::text::{int_to_decimal, clamp_int, clamp_i64, clamp_i32};
use crate::error::Error;
use crate::models::market::{Candlestick, CandlestickPeriod};
use crate::error::MAX_FORECAST_PERCENTILES;

verus! {

/// Event status for filtering.
#[derive(Debug, Clone, Copy, PartialEq, Eq, Structural)]
pub enum EventStatus {
    Open,
    Closed,
    Settled,
}

/// A milestone related to events.
#[derive(Debug, Clone)]
pub struct Milestone {
    pub id: String,
    pub category: Option<String>,
    pub milestone_type: Option<String>,
    pub title: Option<String>,
    pub start_date: Option<String>,
    pub end_date: Option<String>,
    pub related_event_tickers: Option<Vec<String>>,
}

/// Query parameters for GET /events.
#[derive(Debug, Clone)]
pub struct GetEventsParams {
    pub limit: Option<i64>,
    pub cursor: Option<String>,
    pub status: Option<EventStatus>,
    pub series_ticker: Option<String>,
    pub with_nested_markets: Option<bool>,
    pub with_milestones: Option<bool>,
    pub min_close_ts: Option<i64>,
}

impl GetEventsParams {
    /// Parameters with nothing set.
    pub fn new() -> (r: Self)
        ensures
            r.limit is None,
            r.cursor is None,
            r.status is None,
            r.series_ticker is None,
            r.with_nested_markets is None,
            r.with_milestones is None,
            r.min_close_ts is None,
    {
        GetEventsParams { limit: None, cursor: None, status: None, series_ticker: None, with_nested_markets: None, with_milestones: None, min_close_ts: None }
    }

    pub fn limit(self, limit: i64) -> (r: Self)
        ensures
            r.limit == Some(clamp_int(limit as int, 1, 200) as i64),
            r.cursor == self.cursor,
            r.status == self.status,
            r.series_ticker == self.series_ticker,
            r.with_nested_markets == self.with_nested_markets,
            r.with_milestones == self.with_milestones,
            r.min_close_ts == self.min_close_ts,
    {
        let mut s = self;
        s.limit = Some(clamp_i64(limit, 1, 200));
        s
    }

    pub fn cursor(self, cursor: &str) -> (r: Self)
        ensures
            opt_text(r.cursor) == Some(cursor@),
            r.limit == self.limit,
            r.status == self.status,
            r.series_ticker == self.series_ticker,
            r.with_nested_markets == self.with_nested_markets,
            r.with_milestones == self.with_milestones,
            r.min_close_ts == self.min_close_ts,
    {
        let mut s = self;
        s.cursor = Some(String::from_str(cursor));
        s
    }

    pub fn status(self, status: EventStatus) -> (r: Self)
        ensures
            r.status == Some(status),
            r.limit == self.limit,
            r.cursor == self.cursor,
            r.series_ticker == self.series_ticker,
            r.with_nested_markets == self.with_nested_markets,
            r.with_milestones == self.with_milestones,
            r.min_close_ts == self.min_close_ts,
    {
        let mut s = self;
        s.status = Some(status);
        s
    }

    pub fn series_ticker(self, series_ticker: &str) -> (r: Self)
        ensures
            opt_text(r.series_ticker) == Some(series_ticker@),
            r.limit == self.limit,
            r.cursor == self.cursor,
            r.status == self.status,
            r.with_nested_markets == self.with_nested_markets,
            r.with_milestones == self.with_milestones,
            r.min_close_ts == self.min_close_ts,
    {
        let mut s = self;
        s.series_ticker = Some(String::from_str(series_ticker));
        s
    }

    pub fn with_nested_markets(self, enabled: bool) -> (r: Self)
        ensures
            r.with_nested_markets == Some(enabled),
            r.limit == self.limit,
            r.cursor == self.cursor,
            r.status == self.status,
            r.series_ticker == self.series_ticker,
            r.with_milestones == self.with_milestones,
            r.min_close_ts == self.min_close_ts,
    {
        let mut s = self;
        s.with_nested_markets = Some(enabled);
        s
    }

    pub fn with_milestones(self, enabled: bool) -> (r: Self)
        ensures
            r.with_milestones == Some(enabled),
            r.limit == self.limit,
            r.cursor == self.cursor,
            r.status == self.status,
            r.series_ticker == self.series_ticker,
            r.with_nested_markets == self.with_nested_markets,
            r.min_close_ts == self.min_close_ts,
    {
        let mut s = self;
        s.with_milestones = Some(enabled);
        s
    }

    pub fn min_close_ts(self, ts: i64) -> (r: Self)
        ensures
            r.min_close_ts == Some(ts),
            r.limit == self.limit,
            r.cursor == self.cursor,
            r.status == self.status,
            r.series_ticker == self.series_ticker,
            r.with_nested_markets == self.with_nested_markets,
            r.with_milestones == self.with_milestones,
    {
        let mut s = self;
        s.min_close_ts = Some(ts);
        s
    }

    /// The query pairs of these parameters, in the order they are sent.
    pub open spec fn query_pairs(&self) -> QueryPairs {
        (((((((Seq::empty() + opt_pair("limit"@, opt_i64_text(self.limit))) + opt_pair("cursor"@, opt_text(self.cursor))) + opt_pair("status"@, EventStatus::opt_wire(self.status))) + opt_pair("series_ticker"@, opt_text(self.series_ticker))) + opt_pair("with_nested_markets"@, opt_bool_text(self.with_nested_markets))) + opt_pair("with_milestones"@, opt_bool_text(self.with_milestones))) + opt_pair("min_close_ts"@, opt_i64_text(self.min_close_ts)))
    }

    /// The URL query string (`?` and the encoded pairs; empty when no pair is set).
    pub fn to_query_string(&self) -> (s: String)
        ensures
            s@ == query_string(self.query_pairs()),
    {
        let mut qb = QueryBuilder::new();
        qb.push_opt_i64("limit", self.limit);
        qb.push_opt_str("cursor", &self.cursor);
        qb.push_opt_static("status", EventStatus::opt_as_str(self.status));
        qb.push_opt_str("series_ticker", &self.series_ticker);
        qb.push_opt_bool("with_nested_markets", self.with_nested_markets);
        qb.push_opt_bool("with_milestones", self.with_milestones);
        qb.push_opt_i64("min_close_ts", self.min_close_ts);
        qb.build()
    }
}

impl Default for GetEventsParams {
    fn default() -> (r: Self)
        ensures
            r.limit is None,
            r.cursor is None,
            r.status is None,
            r.series_ticker is None,
            r.with_nested_markets is None,
            r.with_milestones is None,
            r.min_close_ts is None,
    {
        Self::new()
    }
}

/// Query parameters for GET /events/{event_ticker}.
#[derive(Debug, Clone)]
pub struct GetEventParams {
    pub with_nested_markets: Option<bool>,
}

impl GetEventParams {
    /// Parameters with nothing set.
    pub fn new() -> (r: Self)
        ensures
            r.with_nested_markets is None,
    {
        GetEventParams { with_nested_markets: None }
    }

    pub fn with_nested_markets(self, enabled: bool) -> (r: Self)
        ensures
            r.with_nested_markets == Some(enabled),
    {
        let mut s = self;
        s.with_nested_markets = Some(enabled);
        s
    }

    /// The query pairs of these parameters, in the order they are sent.
    pub open spec fn query_pairs(&self) -> QueryPairs {
        (Seq::empty() + opt_pair("with_nested_markets"@, opt_bool_text(self.with_nested_markets)))
    }

    /// The URL query string (`?` and the encoded pairs; empty when no pair is set).
    pub fn to_query_string(&self) -> (s: String)
        ensures
            s@ == query_string(self.query_pairs()),
    {
        let mut qb = QueryBuilder::new();
        qb.push_opt_bool("with_nested_markets", self.with_nested_markets);
        qb.build()
    }
}

impl Default for GetEventParams {
    fn default() -> (r: Self)
        ensures
            r.with_nested_markets is None,
    {
        Self::new()
    }
}

/// Metadata for a market within an event.
#[derive(Debug, Clone)]
pub struct MarketDetail {
    /// The ticker of the market.
    pub market_ticker: String,
    /// Path to an image representing this market.
    pub image_url: String,
    /// Color code for the market.
    pub color_code: String,
}

/// A settlement source for an event.
#[derive(Debug, Clone)]
pub struct SettlementSource {
    /// Name of the settlement source.
    pub name: Option<String>,
    /// URL of the settlement source.
    pub url: Option<String>,
}

/// Response from GET /events/{event_ticker}/metadata.
#[derive(Debug, Clone)]
pub struct EventMetadataResponse {
    /// Path to an image representing this event.
    pub image_url: String,
    /// Metadata for the markets in this event.
    pub market_details: Vec<MarketDetail>,
    /// Settlement sources for this event.
    pub settlement_sources: Vec<SettlementSource>,
    /// Path to an image representing the featured market.
    pub featured_image_url: Option<String>,
    /// Event competition.
    pub competition: Option<String>,
    /// Event scope based on the competition.
    pub competition_scope: Option<String>,
}

/// Query parameters for GET /events/multivariate.
#[derive(Debug, Clone)]
pub struct GetMultivariateEventsParams {
    pub limit: Option<i64>,
    pub cursor: Option<String>,
    pub series_ticker: Option<String>,
    pub collection_ticker: Option<String>,
    pub with_nested_markets: Option<bool>,
}

impl GetMultivariateEventsParams {
    /// Parameters with nothing set.
    pub fn new() -> (r: Self)
        ensures
            r.limit is None,
            r.cursor is None,
            r.series_ticker is None,
            r.collection_ticker is None,
            r.with_nested_markets is None,
    {
        GetMultivariateEventsParams { limit: None, cursor: None, series_ticker: None, collection_ticker: None, with_nested_markets: None }
    }

    pub fn limit(self, limit: i64) -> (r: Self)
        ensures
            r.limit == Some(clamp_int(limit as int, 1, 200) as i64),
            r.cursor == self.cursor,
            r.series_ticker == self.series_ticker,
            r.collection_ticker == self.collection_ticker,
            r.with_nested_markets == self.with_nested_markets,
    {
        let mut s = self;
        s.limit = Some(clamp_i64(limit, 1, 200));
        s
    }

    pub fn cursor(self, cursor: &str) -> (r: Self)
        ensures
            opt_text(r.cursor) == Some(cursor@),
            r.limit == self.limit,
            r.series_ticker == self.series_ticker,
            r.collection_ticker == self.collection_ticker,
            r.with_nested_markets == self.with_nested_markets,
    {
        let mut s = self;
        s.cursor = Some(String::from_str(cursor));
        s
    }

    pub fn series_ticker(self, series_ticker: &str) -> (r: Self)
        ensures
            opt_text(r.series_ticker) == Some(series_ticker@),
            r.limit == self.limit,
            r.cursor == self.cursor,
            r.collection_ticker == self.collection_ticker,
            r.with_nested_markets == self.with_nested_markets,
    {
        let mut s = self;
        s.series_ticker = Some(String::from_str(series_ticker));
        s
    }

    pub fn collection_ticker(self, collection_ticker: &str) -> (r: Self)
        ensures
            opt_text(r.collection_ticker) == Some(collection_ticker@),
            r.limit == self.limit,
            r.cursor == self.cursor,
            r.series_ticker == self.series_ticker,
            r.with_nested_markets == self.with_nested_markets,
    {
        let mut s = self;
        s.collection_ticker = Some(String::from_str(collection_ticker));
        s
    }

    pub fn with_nested_markets(self, enabled: bool) -> (r: Self)
        ensures
            r.with_nested_markets == Some(enabled),
            r.limit == self.limit,
            r.cursor == self.cursor,
            r.series_ticker == self.series_ticker,
            r.collection_ticker == self.collection_ticker,
    {
        let mut s = self;
        s.with_nested_markets = Some(enabled);
        s
    }

    /// The query pairs of these parameters, in the order they are sent.
    pub open spec fn query_pairs(&self) -> QueryPairs {
        (((((Seq::empty() + opt_pair("limit"@, opt_i64_text(self.limit))) + opt_pair("cursor"@, opt_text(self.cursor))) + opt_pair("series_ticker"@, opt_text(self.series_ticker))) + opt_pair("collection_ticker"@, opt_text(self.collection_ticker))) + opt_pair("with_nested_markets"@, opt_bool_text(self.with_nested_markets)))
    }

    /// The URL query string (`?` and the encoded pairs; empty when no pair is set).
    pub fn to_query_string(&self) -> (s: String)
        ensures
            s@ == query_string(self.query_pairs()),
    {
        let mut qb = QueryBuilder::new();
        qb.push_opt_i64("limit", self.limit);
        qb.push_opt_str("cursor", &self.cursor);
        qb.push_opt_str("series_ticker", &self.series_ticker);
        qb.push_opt_str("collection_ticker", &self.collection_ticker);
        qb.push_opt_bool("with_nested_markets", self.with_nested_markets);
        qb.build()
    }


    /// Whether both `series_ticker` and `collection_ticker` are set, which
    /// the API does not accept.
    pub open spec fn conflicting(&self) -> bool {
        self.series_ticker is Some && self.collection_ticker is Some
    }

    /// Checks that `series_ticker` and `collection_ticker` are not both set.
    pub fn validate(&self) -> (r: Result<(), Error>)
        ensures
            r is Ok <==> !self.conflicting(),
            r is Err ==> r == Err::<(), Error>(Error::MutuallyExclusiveParams),
    {
        if self.series_ticker.is_some() && self.collection_ticker.is_some() {
            return Err(Error::MutuallyExclusiveParams);
        }
        Ok(())
    }

    /// The query string, after checking the parameters with `validate`.
    pub fn try_to_query_string(&self) -> (r: Result<String, Error>)
        ensures
            (match r {
                Ok(s) => !self.conflicting() && s@ == query_string(self.query_pairs()),
                Err(e) => self.conflicting() && e == Error::MutuallyExclusiveParams,
            }),
    {
        match self.validate() {
            Ok(()) => Ok(self.to_query_string()),
            Err(e) => Err(e),
        }
    }
}

impl Default for GetMultivariateEventsParams {
    fn default() -> (r: Self)
        ensures
            r.limit is None,
            r.cursor is None,
            r.series_ticker is None,
            r.collection_ticker is None,
            r.with_nested_markets is None,
    {
        Self::new()
    }
}

/// Query parameters for GET /series/{series_ticker}/events/{ticker}/candlesticks.
#[derive(Debug, Clone)]
pub struct GetEventCandlesticksParams {
    /// Start timestamp (Unix seconds).
    pub start_ts: i64,
    /// End timestamp (Unix seconds).
    pub end_ts: i64,
    /// Candlestick period interval in minutes (1, 60, or 1440).
    pub period_interval: i32,
}

impl GetEventCandlesticksParams {
    /// The query pairs of these parameters, in the order they are sent.
    pub open spec fn query_pairs(&self) -> QueryPairs {
        Seq::empty().push(("start_ts"@, int_to_decimal(self.start_ts as int))).push(("end_ts"@, int_to_decimal(self.end_ts as int))).push(("period_interval"@, int_to_decimal(self.period_interval as int)))
    }

    /// The URL query string (`?` and the encoded pairs; empty when no pair is set).
    pub fn to_query_string(&self) -> (s: String)
        ensures
            s@ == query_string(self.query_pairs()),
    {
        let mut qb = QueryBuilder::new();
        qb.push_int("start_ts", self.start_ts);
        qb.push_int("end_ts", self.end_ts);
        qb.push_int("period_interval", self.period_interval as i64);
        qb.build()
    }


    /// Event candlestick parameters for `start_ts..end_ts`; the start must
    /// be before the end.
    pub fn new(start_ts: i64, end_ts: i64, period_interval: CandlestickPeriod) -> (r: Self)
        requires
            start_ts < end_ts,
        ensures
            r.start_ts == start_ts,
            r.end_ts == end_ts,
            r.period_interval == period_interval.minutes(),
    {
        GetEventCandlesticksParams { start_ts, end_ts, period_interval: period_interval.as_minutes() }
    }

    /// Event candlestick parameters for `start_ts..end_ts`, rejecting a
    /// range whose start is not before its end.
    pub fn try_new(start_ts: i64, end_ts: i64, period_interval: CandlestickPeriod) -> (r: Result<Self, Error>)
        ensures
            (match r {
                Ok(p) => start_ts < end_ts && p.start_ts == start_ts && p.end_ts == end_ts
                    && p.period_interval == period_interval.minutes(),
                Err(e) => start_ts >= end_ts && e == Error::InvalidTimestampRange(start_ts, end_ts),
            }),
    {
        if start_ts >= end_ts {
            return Err(Error::InvalidTimestampRange(start_ts, end_ts));
        }
        Ok(GetEventCandlesticksParams { start_ts, end_ts, period_interval: period_interval.as_minutes() })
    }
}

/// Period interval for forecast percentile history.
#[derive(Debug, Clone, Copy, PartialEq, Eq, Structural)]
pub enum ForecastPeriod {
    /// 5-second intervals.
    FiveSeconds,
    /// 1 minute intervals.
    OneMinute,
    /// 1 hour intervals.
    OneHour,
    /// 1 day intervals.
    OneDay,
}

impl ForecastPeriod {

    /// The period length in minutes (0 for five seconds).
    pub open spec fn minutes(&self) -> int {
        match self {
            ForecastPeriod::FiveSeconds => 0,
            ForecastPeriod::OneMinute => 1,
            ForecastPeriod::OneHour => 60,
            ForecastPeriod::OneDay => 1440,
        }
    }

    /// The period length in minutes, as the API expects it.
    pub fn as_minutes(&self) -> (m: i32)
        ensures
            m == self.minutes(),
    {
        match self {
            ForecastPeriod::FiveSeconds => 0,
            ForecastPeriod::OneMinute => 1,
            ForecastPeriod::OneHour => 60,
            ForecastPeriod::OneDay => 1440,
        }
    }
}

/// Query parameters for GET /series/{series_ticker}/events/{ticker}/forecast_percentile_history.
#[derive(Debug, Clone)]
pub struct GetEventForecastPercentileHistoryParams {
    /// Percentile values to retrieve (0-10000, max 10 values).
    pub percentiles: Vec<i32>,
    /// Start timestamp (Unix seconds).
    pub start_ts: i64,
    /// End timestamp (Unix seconds).
    pub end_ts: i64,
    /// Forecast period interval.
    pub period_interval: i32,
}

impl GetEventForecastPercentileHistoryParams {

    /// Whether the parameters are accepted: at most
    /// `MAX_FORECAST_PERCENTILES` percentiles, each in `0..=10000`, and a
    /// start before the end.
    pub open spec fn valid_request(percentiles: Seq<i32>, start_ts: i64, end_ts: i64) -> bool {
        &&& percentiles.len() <= MAX_FORECAST_PERCENTILES
        &&& first_percentile_out_of_range(percentiles) is None
        &&& start_ts < end_ts
    }

    /// The error for rejected parameters, checked in the order: count,
    /// range of each percentile, timestamps.
    pub open spec fn request_error(percentiles: Seq<i32>, start_ts: i64, end_ts: i64) -> Error {
        if percentiles.len() > MAX_FORECAST_PERCENTILES {
            Error::TooManyPercentiles(percentiles.len() as usize)
        } else if first_percentile_out_of_range(percentiles) is Some {
            Error::PercentileOutOfRange(first_percentile_out_of_range(percentiles)->0)
        } else {
            Error::InvalidTimestampRange(start_ts, end_ts)
        }
    }

    /// Forecast history parameters; the percentiles and timestamps must be
    /// accepted by `valid_request`.
    pub fn new(percentiles: Vec<i32>, start_ts: i64, end_ts: i64, period_interval: ForecastPeriod) -> (r: Self)
        requires
            Self::valid_request(percentiles@, start_ts, end_ts),
        ensures
            r.percentiles@ == percentiles@,
            r.start_ts == start_ts,
            r.end_ts == end_ts,
            r.period_interval == period_interval.minutes(),
    {
        GetEventForecastPercentileHistoryParams {
            percentiles,
            start_ts,
            end_ts,
            period_interval: period_interval.as_minutes(),
        }
    }

    /// Forecast history parameters, rejecting too many percentiles, a
    /// percentile outside `0..=10000`, or a start not before the end.
    pub fn try_new(percentiles: Vec<i32>, start_ts: i64, end_ts: i64, period_interval: ForecastPeriod) -> (r: Result<Self, Error>)
        ensures
            (match r {
                Ok(p) => Self::valid_request(percentiles@, start_ts, end_ts) && p.percentiles@ == percentiles@
                    && p.start_ts == start_ts && p.end_ts == end_ts && p.period_interval == period_interval.minutes(),
                Err(e) => !Self::valid_request(percentiles@, start_ts, end_ts)
                    && e == Self::request_error(percentiles@, start_ts, end_ts),
            }),
    {
        if percentiles.len() > MAX_FORECAST_PERCENTILES {
            return Err(Error::TooManyPercentiles(percentiles.len()));
        }
        match find_percentile_out_of_range(&percentiles) {
            Some(p) => {
                return Err(Error::PercentileOutOfRange(p));
            },
            None => {},
        }
        if start_ts >= end_ts {
            return Err(Error::InvalidTimestampRange(start_ts, end_ts));
        }
        Ok(GetEventForecastPercentileHistoryParams {
            percentiles,
            start_ts,
            end_ts,
            period_interval: period_interval.as_minutes(),
        })
    }

    /// The query pairs: one `percentiles` pair per percentile, then the
    /// timestamps and the period.
    pub open spec fn query_pairs(&self) -> QueryPairs {
        percentile_pairs(self.percentiles@).push(("start_ts"@, int_to_decimal(self.start_ts as int))).push(
            ("end_ts"@, int_to_decimal(self.end_ts as int)),
        ).push(("period_interval"@, int_to_decimal(self.period_interval as int)))
    }

    /// The URL query string, with the percentiles as repeated parameters.
    pub fn to_query_string(&self) -> (s: String)
        ensures
            s@ == query_string(self.query_pairs()),
    {
        let mut qb = QueryBuilder::new();
        let n = self.percentiles.len();
        let mut i: usize = 0;
        proof {
            assert(self.percentiles@.take(0) =~= Seq::<i32>::empty());
        }
        while i < n
            invariant
                n == self.percentiles@.len(),
                0 <= i <= n,
                qb@ == percentile_pairs(self.percentiles@.take(i as int)),
            decreases n - i,
        {
            let p = self.percentiles[i];
            qb.push_int("percentiles", p as i64);
            proof {
                assert(self.percentiles@.take(i + 1).drop_last() =~= self.percentiles@.take(i as int));
            }
            i = i + 1;
        }
        proof {
            assert(self.percentiles@.take(n as int) =~= self.percentiles@);
        }
        qb.push_int("start_ts", self.start_ts);
        qb.push_int("end_ts", self.end_ts);
        qb.push_int("period_interval", self.period_interval as i64);
        qb.build()
    }
}

impl EventStatus {
    /// The wire name of this value.
    pub open spec fn wire_name(&self) -> Seq<char> {
        match self {
            EventStatus::Open => "open"@,
            EventStatus::Closed => "closed"@,
            EventStatus::Settled => "settled"@,
        }
    }

    /// The wire name of an optional value.
    pub open spec fn opt_wire(o: Option<Self>) -> Option<Seq<char>> {
        match o {
            Some(v) => Some(v.wire_name()),
            None => None,
        }
    }

    /// Returns the lowercase API representation.
    pub fn as_str(&self) -> (s: &'static str)
        ensures
            s@ == self.wire_name(),
    {
        match self {
            EventStatus::Open => "open",
            EventStatus::Closed => "closed",
            EventStatus::Settled => "settled",
        }
    }

    /// The wire name of an optional value.
    pub fn opt_as_str(o: Option<Self>) -> (r: Option<&'static str>)
        ensures
            opt_str_text(r) == Self::opt_wire(o),
    {
        match o {
            Some(v) => Some(v.as_str()),
            None => None,
        }
    }
}


/// The first percentile outside `0..=10000`, if any.
pub open spec fn first_percentile_out_of_range(ps: Seq<i32>) -> Option<i32>
    decreases ps.len(),
{
    if ps.len() == 0 {
        None
    } else if !(0 <= ps[0] && ps[0] <= 10000) {
        Some(ps[0])
    } else {
        first_percentile_out_of_range(ps.drop_first())
    }
}

/// One `percentiles` query pair per percentile, in order.
pub open spec fn percentile_pairs(ps: Seq<i32>) -> QueryPairs
    decreases ps.len(),
{
    if ps.len() == 0 {
        Seq::empty()
    } else {
        percentile_pairs(ps.drop_last()).push(("percentiles"@, int_to_decimal(ps.last() as int)))
    }
}

/// The `percentiles` pairs give that name the first percentile, and no
/// other name any value.
pub proof fn lemma_percentile_pairs_values(ps: Seq<i32>)
    ensures
        forall|name: Seq<char>| name != "percentiles"@ ==> #[trigger] query_value(percentile_pairs(ps), name)
            is None,
        query_value(percentile_pairs(ps), "percentiles"@) == (if ps.len() > 0 {
            Some(int_to_decimal(ps[0] as int))
        } else {
            None
        }),
    decreases ps.len(),
{
    broadcast use group_query_value;

    if ps.len() > 0 {
        lemma_percentile_pairs_values(ps.drop_last());
        if ps.len() > 1 {
            assert(ps.drop_last()[0] == ps[0]);
        }
    }
}

/// Finds the first percentile outside `0..=10000`.
pub fn find_percentile_out_of_range(ps: &Vec<i32>) -> (r: Option<i32>)
    ensures
        r == first_percentile_out_of_range(ps@),
{
    let n = ps.len();
    let mut i: usize = 0;
    proof {
        assert(ps@.skip(0) =~= ps@);
    }
    while i < n
        invariant
            n == ps@.len(),
            0 <= i <= n,
            first_percentile_out_of_range(ps@) == first_percentile_out_of_range(ps@.skip(i as int)),
        decreases n - i,
    {
        let p = ps[i];
        proof {
            assert(ps@.skip(i as int)[0] == p);
            assert(ps@.skip(i as int).drop_first() =~= ps@.skip(i + 1));
        }
        if p < 0 || p > 10000 {
            return Some(p);
        }
        i = i + 1;
    }
    proof {
        assert(ps@.skip(n as int) =~= Seq::<i32>::empty());
    }
    None
}

/// Response from GET /series/{series_ticker}/events/{ticker}/candlesticks.
#[derive(Debug, Clone)]
pub struct EventCandlesticksResponse {
    /// Array of market tickers in the event.
    pub market_tickers: Vec<String>,
    /// Array of candlestick arrays, one per market.
    pub market_candlesticks: Vec<Vec<Candlestick>>,
    /// Adjusted end timestamp if requested range exceeded maximum.
    pub adjusted_end_ts: Option<i64>,
}

/// Each parameter of `GetEventsParams` is sent under its own name with its own
/// value, and a parameter that is not set is not sent.
pub proof fn law_get_events_params_query_fields(p: GetEventsParams)
    ensures
        query_value(p.query_pairs(), "limit"@) == opt_i64_text(p.limit),
        query_value(p.query_pairs(), "cursor"@) == opt_text(p.cursor),
        query_value(p.query_pairs(), "status"@) == EventStatus::opt_wire(p.status),
        query_value(p.query_pairs(), "series_ticker"@) == opt_text(p.series_ticker),
        query_value(p.query_pairs(), "with_nested_markets"@) == opt_bool_text(p.with_nested_markets),
        query_value(p.query_pairs(), "with_milestones"@) == opt_bool_text(p.with_milestones),
        query_value(p.query_pairs(), "min_close_ts"@) == opt_i64_text(p.min_close_ts),
{
    broadcast use group_query_value;
    reveal_strlit("limit");
    reveal_strlit("cursor");
    reveal_strlit("status");
    reveal_strlit("series_ticker");
    reveal_strlit("with_nested_markets");
    reveal_strlit("with_milestones");
    reveal_strlit("min_close_ts");
    assert("limit"@.len() == 5);
    assert("cursor"@.len() == 6);
    assert("status"@.len() == 6);
    assert("series_ticker"@.len() == 13);
    assert("with_nested_markets"@.len() == 19);
    assert("with_milestones"@.len() == 15);
    assert("min_close_ts"@.len() == 12);
    assert("status"@[0] != "cursor"@[0]);
}

/// Each parameter of `GetEventParams` is sent under its own name with its own
/// value, and a parameter that is not set is not sent.
pub proof fn law_get_event_params_query_fields(p: GetEventParams)
    ensures
        query_value(p.query_pairs(), "with_nested_markets"@) == opt_bool_text(p.with_nested_markets),
{
    broadcast use group_query_value;
    reveal_strlit("with_nested_markets");
    assert("with_nested_markets"@.len() == 19);

}

/// Each parameter of `GetMultivariateEventsParams` is sent under its own name with its own
/// value, and a parameter that is not set is not sent.
pub proof fn law_get_multivariate_events_params_query_fields(p: GetMultivariateEventsParams)
    ensures
        query_value(p.query_pairs(), "limit"@) == opt_i64_text(p.limit),
        query_value(p.query_pairs(), "cursor"@) == opt_text(p.cursor),
        query_value(p.query_pairs(), "series_ticker"@) == opt_text(p.series_ticker),
        query_value(p.query_pairs(), "collection_ticker"@) == opt_text(p.collection_ticker),
        query_value(p.query_pairs(), "with_nested_markets"@) == opt_bool_text(p.with_nested_markets),
{
    broadcast use group_query_value;
    reveal_strlit("limit");
    reveal_strlit("cursor");
    reveal_strlit("series_ticker");
    reveal_strlit("collection_ticker");
    reveal_strlit("with_nested_markets");
    assert("limit"@.len() == 5);
    assert("cursor"@.len() == 6);
    assert("series_ticker"@.len() == 13);
    assert("collection_ticker"@.len() == 17);
    assert("with_nested_markets"@.len() == 19);

}

/// Each parameter of `GetEventCandlesticksParams` is sent under its own name with its own
/// value, and a parameter that is not set is not sent.
pub proof fn law_get_event_candlesticks_params_query_fields(p: GetEventCandlesticksParams)
    ensures
        query_value(p.query_pairs(), "start_ts"@) == Some(int_to_decimal(p.start_ts as int)),
        query_value(p.query_pairs(), "end_ts"@) == Some(int_to_decimal(p.end_ts as int)),
        query_value(p.query_pairs(), "period_interval"@) == Some(int_to_decimal(p.period_interval as int)),
{
    broadcast use group_query_value;
    reveal_strlit("start_ts");
    reveal_strlit("end_ts");
    reveal_strlit("period_interval");
    assert("start_ts"@.len() == 8);
    assert("end_ts"@.len() == 6);
    assert("period_interval"@.len() == 15);

}

/// Each parameter of `GetEventForecastPercentileHistoryParams` is sent under its own name with its own
/// value, and a parameter that is not set is not sent.
pub proof fn law_get_event_forecast_percentile_history_params_query_fields(p: GetEventForecastPercentileHistoryParams)
    ensures
        query_value(p.query_pairs(), "percentiles"@) == (if p.percentiles@.len() > 0 {
            Some(int_to_decimal(p.percentiles@[0] as int))
        } else {
            None
        }),
        query_value(p.query_pairs(), "start_ts"@) == Some(int_to_decimal(p.start_ts as int)),
        query_value(p.query_pairs(), "end_ts"@) == Some(int_to_decimal(p.end_ts as int)),
        query_value(p.query_pairs(), "period_interval"@) == Some(int_to_decimal(p.period_interval as int)),
{
    broadcast use group_query_value;
    lemma_percentile_pairs_values(p.percentiles@);
    reveal_strlit("start_ts");
    reveal_strlit("end_ts");
    assert("end_ts"@.len() == 6);
    reveal_strlit("period_interval");
    reveal_strlit("percentiles");
    assert("start_ts"@.len() == 8);
    assert("period_interval"@.len() == 15);
    assert("percentiles"@.len() == 11);

}

} // verus!
