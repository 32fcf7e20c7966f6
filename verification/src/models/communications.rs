//! RFQ and Communications models.

use vstd::prelude::*;
use crate::models::query::{query_value, group_query_value, QueryBuilder, QueryPairs, query_string, opt_pair, opt_text, opt_str_text, opt_i64_text, opt_i32_text, opt_bool_text};
use crate::text::{int_to_decimal, clamp_int, clamp_i64, clamp_i32};
use crate::error::Error;
use crate::text::{digit_char, digit_str};
use crate::models::common::Side;
use crate::models::market::MveSelectedLeg;

verus! {

/// Request body for POST /communications/rfqs (create RFQ).
#[derive(Debug, Clone)]
pub struct CreateRfqRequest {
    /// The ticker of the market for which to create an RFQ.
    pub market_ticker: String,
    /// The number of contracts for the RFQ.
    pub contracts: Option<i64>,
    /// The target cost for the RFQ in centi-cents (1/100th of a cent).
    /// Divide by 10,000 to get dollars.
    pub target_cost_centi_cents: Option<i64>,
    /// Whether to rest the remainder of the RFQ after execution.
    pub rest_remainder: bool,
    /// Whether to delete existing RFQs as part of this RFQ's creation.
    pub replace_existing: Option<bool>,
    /// The subtrader to create the RFQ for (FCM members only).
    pub subtrader_id: Option<String>,
}

impl CreateRfqRequest {
    pub fn replace_existing(self, replace: bool) -> (r: Self)
        ensures
            r.replace_existing == Some(replace),
            r.market_ticker == self.market_ticker,
            r.contracts == self.contracts,
            r.target_cost_centi_cents == self.target_cost_centi_cents,
            r.rest_remainder == self.rest_remainder,
            r.subtrader_id == self.subtrader_id,
    {
        let mut s = self;
        s.replace_existing = Some(replace);
        s
    }

    pub fn subtrader_id(self, id: &str) -> (r: Self)
        ensures
            opt_text(r.subtrader_id) == Some(id@),
            r.market_ticker == self.market_ticker,
            r.contracts == self.contracts,
            r.target_cost_centi_cents == self.target_cost_centi_cents,
            r.rest_remainder == self.rest_remainder,
            r.replace_existing == self.replace_existing,
    {
        let mut s = self;
        s.subtrader_id = Some(String::from_str(id));
        s
    }


    /// An RFQ for a number of contracts, rejecting a count that is not
    /// positive.
    pub fn try_with_contracts(market_ticker: &str, contracts: i64, rest_remainder: bool) -> (r: Result<Self, Error>)
        ensures
            (match r {
                Ok(q) => contracts > 0 && q.market_ticker@ == market_ticker@ && q.contracts == Some(contracts)
                    && q.target_cost_centi_cents is None && q.rest_remainder == rest_remainder
                    && q.replace_existing is None && q.subtrader_id is None,
                Err(e) => contracts <= 0 && e == Error::InvalidContracts(contracts),
            }),
    {
        if contracts <= 0 {
            return Err(Error::InvalidContracts(contracts));
        }
        Ok(CreateRfqRequest {
            market_ticker: String::from_str(market_ticker),
            contracts: Some(contracts),
            target_cost_centi_cents: None,
            rest_remainder,
            replace_existing: None,
            subtrader_id: None,
        })
    }

    /// An RFQ for a number of contracts; the count must be positive.
    pub fn with_contracts(market_ticker: &str, contracts: i64, rest_remainder: bool) -> (r: Self)
        requires
            contracts > 0,
        ensures
            r.market_ticker@ == market_ticker@,
            r.contracts == Some(contracts),
            r.target_cost_centi_cents is None,
            r.rest_remainder == rest_remainder,
            r.replace_existing is None,
            r.subtrader_id is None,
    {
        CreateRfqRequest {
            market_ticker: String::from_str(market_ticker),
            contracts: Some(contracts),
            target_cost_centi_cents: None,
            rest_remainder,
            replace_existing: None,
            subtrader_id: None,
        }
    }

    /// An RFQ for a target cost in centi-cents, rejecting a cost that is
    /// not positive.
    pub fn try_with_target_cost(market_ticker: &str, target_cost_centi_cents: i64, rest_remainder: bool) -> (r: Result<Self, Error>)
        ensures
            (match r {
                Ok(q) => target_cost_centi_cents > 0 && q.market_ticker@ == market_ticker@ && q.contracts is None
                    && q.target_cost_centi_cents == Some(target_cost_centi_cents) && q.rest_remainder == rest_remainder
                    && q.replace_existing is None && q.subtrader_id is None,
                Err(e) => target_cost_centi_cents <= 0 && e == Error::InvalidTargetCost(target_cost_centi_cents),
            }),
    {
        if target_cost_centi_cents <= 0 {
            return Err(Error::InvalidTargetCost(target_cost_centi_cents));
        }
        Ok(CreateRfqRequest {
            market_ticker: String::from_str(market_ticker),
            contracts: None,
            target_cost_centi_cents: Some(target_cost_centi_cents),
            rest_remainder,
            replace_existing: None,
            subtrader_id: None,
        })
    }

    /// An RFQ for a target cost in centi-cents; the cost must be positive.
    pub fn with_target_cost(market_ticker: &str, target_cost_centi_cents: i64, rest_remainder: bool) -> (r: Self)
        requires
            target_cost_centi_cents > 0,
        ensures
            r.market_ticker@ == market_ticker@,
            r.contracts is None,
            r.target_cost_centi_cents == Some(target_cost_centi_cents),
            r.rest_remainder == rest_remainder,
            r.replace_existing is None,
            r.subtrader_id is None,
    {
        CreateRfqRequest {
            market_ticker: String::from_str(market_ticker),
            contracts: None,
            target_cost_centi_cents: Some(target_cost_centi_cents),
            rest_remainder,
            replace_existing: None,
            subtrader_id: None,
        }
    }
}

/// Request body for POST /communications/quotes (create quote).
#[derive(Debug, Clone)]
pub struct CreateQuoteRequest {
    /// The ID of the RFQ to quote on.
    pub rfq_id: String,
    /// The bid price for YES contracts, in dollars (fixed-point string, e.g. "0.56").
    pub yes_bid: String,
    /// The bid price for NO contracts, in dollars (fixed-point string, e.g. "0.44").
    pub no_bid: String,
    /// Whether to rest the remainder of the quote after execution.
    pub rest_remainder: bool,
}

impl CreateQuoteRequest {

    /// A quote with YES and NO bids given as dollar strings.
    pub fn new(rfq_id: &str, yes_bid: &str, no_bid: &str, rest_remainder: bool) -> (r: Self)
        ensures
            r.rfq_id@ == rfq_id@,
            r.yes_bid@ == yes_bid@,
            r.no_bid@ == no_bid@,
            r.rest_remainder == rest_remainder,
    {
        CreateQuoteRequest {
            rfq_id: String::from_str(rfq_id),
            yes_bid: String::from_str(yes_bid),
            no_bid: String::from_str(no_bid),
            rest_remainder,
        }
    }

    /// A quote from a YES price in cents, rejecting a price outside
    /// `1..=99`; the NO bid is `100 - yes_price_cents`, and both bids are
    /// written as dollars with four decimals.
    pub fn try_from_cents(rfq_id: &str, yes_price_cents: i64, rest_remainder: bool) -> (r: Result<Self, Error>)
        ensures
            (match r {
                Ok(q) => 1 <= yes_price_cents <= 99 && q.rfq_id@ == rfq_id@
                    && q.yes_bid@ == cents_to_dollars4(yes_price_cents as int)
                    && q.no_bid@ == cents_to_dollars4(100 - yes_price_cents)
                    && q.rest_remainder == rest_remainder,
                Err(e) => !(1 <= yes_price_cents <= 99) && e == Error::InvalidPrice(yes_price_cents),
            }),
    {
        if yes_price_cents < 1 || yes_price_cents > 99 {
            return Err(Error::InvalidPrice(yes_price_cents));
        }
        let no_price_cents = 100 - yes_price_cents;
        Ok(CreateQuoteRequest {
            rfq_id: String::from_str(rfq_id),
            yes_bid: cents_to_dollars_string(yes_price_cents),
            no_bid: cents_to_dollars_string(no_price_cents),
            rest_remainder,
        })
    }

    /// A quote from a YES price in cents; the price must be in `1..=99`.
    pub fn from_cents(rfq_id: &str, yes_price_cents: i64, rest_remainder: bool) -> (r: Self)
        requires
            1 <= yes_price_cents <= 99,
        ensures
            r.rfq_id@ == rfq_id@,
            r.yes_bid@ == cents_to_dollars4(yes_price_cents as int),
            r.no_bid@ == cents_to_dollars4(100 - yes_price_cents),
            r.rest_remainder == rest_remainder,
    {
        CreateQuoteRequest {
            rfq_id: String::from_str(rfq_id),
            yes_bid: cents_to_dollars_string(yes_price_cents),
            no_bid: cents_to_dollars_string(100 - yes_price_cents),
            rest_remainder,
        }
    }
}

/// Request body for PUT /communications/quotes/{quote_id}/accept.
#[derive(Debug, Clone)]
pub struct AcceptQuoteRequest {
    /// The side of the quote to accept ("yes" or "no").
    pub accepted_side: String,
}

impl AcceptQuoteRequest {

    /// Accepts the given side of a quote.
    pub fn new(side: Side) -> (r: Self)
        ensures
            r.accepted_side@ == side.wire_name(),
    {
        proof {
            reveal_strlit("yes");
            reveal_strlit("no");
        }
        AcceptQuoteRequest {
            accepted_side: match side {
                Side::Yes => String::from_str("yes"),
                Side::No => String::from_str("no"),
            },
        }
    }

    /// Accepts the YES side of a quote.
    pub fn yes() -> (r: Self)
        ensures
            r.accepted_side@ == Side::Yes.wire_name(),
    {
        AcceptQuoteRequest { accepted_side: String::from_str("yes") }
    }

    /// Accepts the NO side of a quote.
    pub fn no() -> (r: Self)
        ensures
            r.accepted_side@ == Side::No.wire_name(),
    {
        AcceptQuoteRequest { accepted_side: String::from_str("no") }
    }
}

/// Query parameters for GET /communications/rfqs.
#[derive(Debug, Clone)]
pub struct ListRfqsParams {
    /// Pagination cursor.
    pub cursor: Option<String>,
    /// Filter by event ticker (comma-separated, max 10).
    pub event_ticker: Option<String>,
    /// Filter by market ticker.
    pub market_ticker: Option<String>,
    /// Number of results per page (1-100, default 100).
    pub limit: Option<i32>,
    /// Filter by RFQ status.
    pub status: Option<String>,
    /// Filter by creator user ID.
    pub creator_user_id: Option<String>,
}

impl ListRfqsParams {
    /// Parameters with nothing set.
    pub fn new() -> (r: Self)
        ensures
            r.cursor is None,
            r.event_ticker is None,
            r.market_ticker is None,
            r.limit is None,
            r.status is None,
            r.creator_user_id is None,
    {
        ListRfqsParams { cursor: None, event_ticker: None, market_ticker: None, limit: None, status: None, creator_user_id: None }
    }

    pub fn cursor(self, cursor: &str) -> (r: Self)
        ensures
            opt_text(r.cursor) == Some(cursor@),
            r.event_ticker == self.event_ticker,
            r.market_ticker == self.market_ticker,
            r.limit == self.limit,
            r.status == self.status,
            r.creator_user_id == self.creator_user_id,
    {
        let mut s = self;
        s.cursor = Some(String::from_str(cursor));
        s
    }

    pub fn event_ticker(self, event_ticker: &str) -> (r: Self)
        ensures
            opt_text(r.event_ticker) == Some(event_ticker@),
            r.cursor == self.cursor,
            r.market_ticker == self.market_ticker,
            r.limit == self.limit,
            r.status == self.status,
            r.creator_user_id == self.creator_user_id,
    {
        let mut s = self;
        s.event_ticker = Some(String::from_str(event_ticker));
        s
    }

    pub fn market_ticker(self, market_ticker: &str) -> (r: Self)
        ensures
            opt_text(r.market_ticker) == Some(market_ticker@),
            r.cursor == self.cursor,
            r.event_ticker == self.event_ticker,
            r.limit == self.limit,
            r.status == self.status,
            r.creator_user_id == self.creator_user_id,
    {
        let mut s = self;
        s.market_ticker = Some(String::from_str(market_ticker));
        s
    }

    pub fn limit(self, limit: i32) -> (r: Self)
        ensures
            r.limit == Some(clamp_int(limit as int, 1, 100) as i32),
            r.cursor == self.cursor,
            r.event_ticker == self.event_ticker,
            r.market_ticker == self.market_ticker,
            r.status == self.status,
            r.creator_user_id == self.creator_user_id,
    {
        let mut s = self;
        s.limit = Some(clamp_i32(limit, 1, 100));
        s
    }

    pub fn status(self, status: &str) -> (r: Self)
        ensures
            opt_text(r.status) == Some(status@),
            r.cursor == self.cursor,
            r.event_ticker == self.event_ticker,
            r.market_ticker == self.market_ticker,
            r.limit == self.limit,
            r.creator_user_id == self.creator_user_id,
    {
        let mut s = self;
        s.status = Some(String::from_str(status));
        s
    }

    pub fn creator_user_id(self, creator_user_id: &str) -> (r: Self)
        ensures
            opt_text(r.creator_user_id) == Some(creator_user_id@),
            r.cursor == self.cursor,
            r.event_ticker == self.event_ticker,
            r.market_ticker == self.market_ticker,
            r.limit == self.limit,
            r.status == self.status,
    {
        let mut s = self;
        s.creator_user_id = Some(String::from_str(creator_user_id));
        s
    }

    /// The query pairs of these parameters, in the order they are sent.
    pub open spec fn query_pairs(&self) -> QueryPairs {
        ((((((Seq::empty() + opt_pair("cursor"@, opt_text(self.cursor))) + opt_pair("event_ticker"@, opt_text(self.event_ticker))) + opt_pair("market_ticker"@, opt_text(self.market_ticker))) + opt_pair("limit"@, opt_i32_text(self.limit))) + opt_pair("status"@, opt_text(self.status))) + opt_pair("creator_user_id"@, opt_text(self.creator_user_id)))
    }

    /// The URL query string (`?` and the encoded pairs; empty when no pair is set).
    pub fn to_query_string(&self) -> (s: String)
        ensures
            s@ == query_string(self.query_pairs()),
    {
        let mut qb = QueryBuilder::new();
        qb.push_opt_str("cursor", &self.cursor);
        qb.push_opt_str("event_ticker", &self.event_ticker);
        qb.push_opt_str("market_ticker", &self.market_ticker);
        qb.push_opt_i32("limit", self.limit);
        qb.push_opt_str("status", &self.status);
        qb.push_opt_str("creator_user_id", &self.creator_user_id);
        qb.build()
    }
}

impl Default for ListRfqsParams {
    fn default() -> (r: Self)
        ensures
            r.cursor is None,
            r.event_ticker is None,
            r.market_ticker is None,
            r.limit is None,
            r.status is None,
            r.creator_user_id is None,
    {
        Self::new()
    }
}

/// Query parameters for GET /communications/quotes.
#[derive(Debug, Clone)]
pub struct ListQuotesParams {
    /// Pagination cursor.
    pub cursor: Option<String>,
    /// Filter by event ticker (comma-separated, max 10).
    pub event_ticker: Option<String>,
    /// Filter by market ticker.
    pub market_ticker: Option<String>,
    /// Number of results per page (1-500, default 500).
    pub limit: Option<i32>,
    /// Filter by quote status.
    pub status: Option<String>,
    /// Filter by quote creator user ID.
    pub quote_creator_user_id: Option<String>,
    /// Filter by RFQ creator user ID.
    pub rfq_creator_user_id: Option<String>,
    /// Filter by RFQ creator subtrader ID (FCM members only).
    pub rfq_creator_subtrader_id: Option<String>,
    /// Filter by RFQ ID.
    pub rfq_id: Option<String>,
}

impl ListQuotesParams {
    /// Parameters with nothing set.
    pub fn new() -> (r: Self)
        ensures
            r.cursor is None,
            r.event_ticker is None,
            r.market_ticker is None,
            r.limit is None,
            r.status is None,
            r.quote_creator_user_id is None,
            r.rfq_creator_user_id is None,
            r.rfq_creator_subtrader_id is None,
            r.rfq_id is None,
    {
        ListQuotesParams { cursor: None, event_ticker: None, market_ticker: None, limit: None, status: None, quote_creator_user_id: None, rfq_creator_user_id: None, rfq_creator_subtrader_id: None, rfq_id: None }
    }

    pub fn cursor(self, cursor: &str) -> (r: Self)
        ensures
            opt_text(r.cursor) == Some(cursor@),
            r.event_ticker == self.event_ticker,
            r.market_ticker == self.market_ticker,
            r.limit == self.limit,
            r.status == self.status,
            r.quote_creator_user_id == self.quote_creator_user_id,
            r.rfq_creator_user_id == self.rfq_creator_user_id,
            r.rfq_creator_subtrader_id == self.rfq_creator_subtrader_id,
            r.rfq_id == self.rfq_id,
    {
        let mut s = self;
        s.cursor = Some(String::from_str(cursor));
        s
    }

    pub fn event_ticker(self, event_ticker: &str) -> (r: Self)
        ensures
            opt_text(r.event_ticker) == Some(event_ticker@),
            r.cursor == self.cursor,
            r.market_ticker == self.market_ticker,
            r.limit == self.limit,
            r.status == self.status,
            r.quote_creator_user_id == self.quote_creator_user_id,
            r.rfq_creator_user_id == self.rfq_creator_user_id,
            r.rfq_creator_subtrader_id == self.rfq_creator_subtrader_id,
            r.rfq_id == self.rfq_id,
    {
        let mut s = self;
        s.event_ticker = Some(String::from_str(event_ticker));
        s
    }

    pub fn market_ticker(self, market_ticker: &str) -> (r: Self)
        ensures
            opt_text(r.market_ticker) == Some(market_ticker@),
            r.cursor == self.cursor,
            r.event_ticker == self.event_ticker,
            r.limit == self.limit,
            r.status == self.status,
            r.quote_creator_user_id == self.quote_creator_user_id,
            r.rfq_creator_user_id == self.rfq_creator_user_id,
            r.rfq_creator_subtrader_id == self.rfq_creator_subtrader_id,
            r.rfq_id == self.rfq_id,
    {
        let mut s = self;
        s.market_ticker = Some(String::from_str(market_ticker));
        s
    }

    pub fn limit(self, limit: i32) -> (r: Self)
        ensures
            r.limit == Some(clamp_int(limit as int, 1, 500) as i32),
            r.cursor == self.cursor,
            r.event_ticker == self.event_ticker,
            r.market_ticker == self.market_ticker,
            r.status == self.status,
            r.quote_creator_user_id == self.quote_creator_user_id,
            r.rfq_creator_user_id == self.rfq_creator_user_id,
            r.rfq_creator_subtrader_id == self.rfq_creator_subtrader_id,
            r.rfq_id == self.rfq_id,
    {
        let mut s = self;
        s.limit = Some(clamp_i32(limit, 1, 500));
        s
    }

    pub fn status(self, status: &str) -> (r: Self)
        ensures
            opt_text(r.status) == Some(status@),
            r.cursor == self.cursor,
            r.event_ticker == self.event_ticker,
            r.market_ticker == self.market_ticker,
            r.limit == self.limit,
            r.quote_creator_user_id == self.quote_creator_user_id,
            r.rfq_creator_user_id == self.rfq_creator_user_id,
            r.rfq_creator_subtrader_id == self.rfq_creator_subtrader_id,
            r.rfq_id == self.rfq_id,
    {
        let mut s = self;
        s.status = Some(String::from_str(status));
        s
    }

    pub fn quote_creator_user_id(self, id: &str) -> (r: Self)
        ensures
            opt_text(r.quote_creator_user_id) == Some(id@),
            r.cursor == self.cursor,
            r.event_ticker == self.event_ticker,
            r.market_ticker == self.market_ticker,
            r.limit == self.limit,
            r.status == self.status,
            r.rfq_creator_user_id == self.rfq_creator_user_id,
            r.rfq_creator_subtrader_id == self.rfq_creator_subtrader_id,
            r.rfq_id == self.rfq_id,
    {
        let mut s = self;
        s.quote_creator_user_id = Some(String::from_str(id));
        s
    }

    pub fn rfq_creator_user_id(self, id: &str) -> (r: Self)
        ensures
            opt_text(r.rfq_creator_user_id) == Some(id@),
            r.cursor == self.cursor,
            r.event_ticker == self.event_ticker,
            r.market_ticker == self.market_ticker,
            r.limit == self.limit,
            r.status == self.status,
            r.quote_creator_user_id == self.quote_creator_user_id,
            r.rfq_creator_subtrader_id == self.rfq_creator_subtrader_id,
            r.rfq_id == self.rfq_id,
    {
        let mut s = self;
        s.rfq_creator_user_id = Some(String::from_str(id));
        s
    }

    pub fn rfq_creator_subtrader_id(self, id: &str) -> (r: Self)
        ensures
            opt_text(r.rfq_creator_subtrader_id) == Some(id@),
            r.cursor == self.cursor,
            r.event_ticker == self.event_ticker,
            r.market_ticker == self.market_ticker,
            r.limit == self.limit,
            r.status == self.status,
            r.quote_creator_user_id == self.quote_creator_user_id,
            r.rfq_creator_user_id == self.rfq_creator_user_id,
            r.rfq_id == self.rfq_id,
    {
        let mut s = self;
        s.rfq_creator_subtrader_id = Some(String::from_str(id));
        s
    }

    pub fn rfq_id(self, rfq_id: &str) -> (r: Self)
        ensures
            opt_text(r.rfq_id) == Some(rfq_id@),
            r.cursor == self.cursor,
            r.event_ticker == self.event_ticker,
            r.market_ticker == self.market_ticker,
            r.limit == self.limit,
            r.status == self.status,
            r.quote_creator_user_id == self.quote_creator_user_id,
            r.rfq_creator_user_id == self.rfq_creator_user_id,
            r.rfq_creator_subtrader_id == self.rfq_creator_subtrader_id,
    {
        let mut s = self;
        s.rfq_id = Some(String::from_str(rfq_id));
        s
    }

    /// The query pairs of these parameters, in the order they are sent.
    pub open spec fn query_pairs(&self) -> QueryPairs {
        (((((((((Seq::empty() + opt_pair("cursor"@, opt_text(self.cursor))) + opt_pair("event_ticker"@, opt_text(self.event_ticker))) + opt_pair("market_ticker"@, opt_text(self.market_ticker))) + opt_pair("limit"@, opt_i32_text(self.limit))) + opt_pair("status"@, opt_text(self.status))) + opt_pair("quote_creator_user_id"@, opt_text(self.quote_creator_user_id))) + opt_pair("rfq_creator_user_id"@, opt_text(self.rfq_creator_user_id))) + opt_pair("rfq_creator_subtrader_id"@, opt_text(self.rfq_creator_subtrader_id))) + opt_pair("rfq_id"@, opt_text(self.rfq_id)))
    }

    /// The URL query string (`?` and the encoded pairs; empty when no pair is set).
    pub fn to_query_string(&self) -> (s: String)
        ensures
            s@ == query_string(self.query_pairs()),
    {
        let mut qb = QueryBuilder::new();
        qb.push_opt_str("cursor", &self.cursor);
        qb.push_opt_str("event_ticker", &self.event_ticker);
        qb.push_opt_str("market_ticker", &self.market_ticker);
        qb.push_opt_i32("limit", self.limit);
        qb.push_opt_str("status", &self.status);
        qb.push_opt_str("quote_creator_user_id", &self.quote_creator_user_id);
        qb.push_opt_str("rfq_creator_user_id", &self.rfq_creator_user_id);
        qb.push_opt_str("rfq_creator_subtrader_id", &self.rfq_creator_subtrader_id);
        qb.push_opt_str("rfq_id", &self.rfq_id);
        qb.build()
    }
}

impl Default for ListQuotesParams {
    fn default() -> (r: Self)
        ensures
            r.cursor is None,
            r.event_ticker is None,
            r.market_ticker is None,
            r.limit is None,
            r.status is None,
            r.quote_creator_user_id is None,
            r.rfq_creator_user_id is None,
            r.rfq_creator_subtrader_id is None,
            r.rfq_id is None,
    {
        Self::new()
    }
}

/// Response from create RFQ.
#[derive(Debug, Clone)]
pub struct RfqResponse {
    pub rfq_id: String,
}

/// Response from create quote.
#[derive(Debug, Clone)]
pub struct QuoteResponse {
    pub quote_id: String,
}

/// RFQ details.
#[derive(Debug, Clone)]
pub struct Rfq {
    /// Unique identifier for the RFQ.
    pub id: String,
    /// Public communications ID of the RFQ creator.
    pub creator_id: String,
    /// The ticker of the market this RFQ is for.
    pub market_ticker: String,
    /// Number of contracts requested in the RFQ.
    pub contracts: Option<i64>,
    /// Total value of the RFQ in centi-cents (1/100th of a cent).
    /// Divide by 10,000 to get dollars.
    pub target_cost_centi_cents: Option<i64>,
    /// Current status of the RFQ (open, closed).
    pub status: Option<String>,
    /// Timestamp when the RFQ was created.
    pub created_ts: String,
    /// Timestamp when the RFQ was last updated.
    pub updated_ts: Option<String>,
    /// Timestamp when the RFQ was cancelled.
    pub cancelled_ts: Option<String>,
    /// Ticker of the MVE collection this market belongs to.
    pub mve_collection_ticker: Option<String>,
    /// Selected legs for the MVE collection.
    pub mve_selected_legs: Option<Vec<MveSelectedLeg>>,
    /// Whether to rest the remainder of the RFQ after execution.
    pub rest_remainder: Option<bool>,
    /// Reason for RFQ cancellation if cancelled.
    pub cancellation_reason: Option<String>,
    /// User ID of the RFQ creator (private field).
    pub creator_user_id: Option<String>,
}

/// Quote details.
#[derive(Debug, Clone)]
pub struct Quote {
    /// Unique identifier for the quote.
    pub id: String,
    /// ID of the RFQ this quote is responding to.
    pub rfq_id: String,
    /// Public communications ID of the quote creator.
    pub creator_id: String,
    /// Public communications ID of the RFQ creator.
    pub rfq_creator_id: String,
    /// The ticker of the market this quote is for.
    pub market_ticker: String,
    /// Number of contracts in the quote.
    pub contracts: Option<i64>,
    /// Bid price for YES contracts, in cents.
    pub yes_bid: Option<i64>,
    /// Bid price for NO contracts, in cents.
    pub no_bid: Option<i64>,
    /// YES bid price in dollars (fixed-point string with 4 decimal places).
    pub yes_bid_dollars: Option<String>,
    /// NO bid price in dollars (fixed-point string with 4 decimal places).
    pub no_bid_dollars: Option<String>,
    /// Timestamp when the quote was created.
    pub created_ts: String,
    /// Timestamp when the quote was last updated.
    pub updated_ts: Option<String>,
    /// Current status of the quote.
    pub status: Option<String>,
    /// The side that was accepted (yes or no).
    pub accepted_side: Option<String>,
    /// Timestamp when the quote was accepted.
    pub accepted_ts: Option<String>,
    /// Timestamp when the quote was confirmed.
    pub confirmed_ts: Option<String>,
    /// Timestamp when the quote was executed.
    pub executed_ts: Option<String>,
    /// Timestamp when the quote was cancelled.
    pub cancelled_ts: Option<String>,
    /// Whether to rest remainder after execution.
    pub rest_remainder: Option<bool>,
    /// Reason for cancellation if applicable.
    pub cancellation_reason: Option<String>,
    /// User ID of quote creator (private field).
    pub creator_user_id: Option<String>,
    /// User ID of RFQ creator (private field).
    pub rfq_creator_user_id: Option<String>,
    /// Total value requested in RFQ in centi-cents (1/100th of a cent).
    /// Divide by 10,000 to get dollars.
    pub rfq_target_cost_centi_cents: Option<i64>,
    /// Order ID for RFQ creator (private field).
    pub rfq_creator_order_id: Option<String>,
    /// Order ID for quote creator (private field).
    pub creator_order_id: Option<String>,
}

/// Response for getting a single RFQ.
#[derive(Debug, Clone)]
pub struct GetRfqResponse {
    pub rfq: Rfq,
}

/// Response for getting a single quote.
#[derive(Debug, Clone)]
pub struct GetQuoteResponse {
    pub quote: Quote,
}

/// Response for listing RFQs.
#[derive(Debug, Clone)]
pub struct ListRfqsResponse {
    pub rfqs: Vec<Rfq>,
    pub cursor: Option<String>,
}

/// Response for listing quotes.
#[derive(Debug, Clone)]
pub struct ListQuotesResponse {
    pub quotes: Vec<Quote>,
    pub cursor: Option<String>,
}

/// Response from GET /communications/id.
///
/// Returns the user's public communications ID for RFQ/quote functionality.
#[derive(Debug, Clone)]
pub struct CommunicationsIdResponse {
    /// The user's public communications ID used to identify them in RFQ/quote interactions.
    pub communications_id: String,
}


/// A price of `c` cents (0..=99) in dollars with four decimals, `0.cc00`.
pub open spec fn cents_to_dollars4(c: int) -> Seq<char> {
    seq!['0', '.', digit_char(c / 10), digit_char(c % 10), '0', '0']
}

/// Writes a price of `c` cents (0..=99) in dollars with four decimals.
pub fn cents_to_dollars_string(c: i64) -> (s: String)
    requires
        0 <= c <= 99,
    ensures
        s@ == cents_to_dollars4(c as int),
{
    proof {
        reveal_strlit("0.");
        reveal_strlit("00");
    }
    let mut s = String::from_str("0.");
    s.append(digit_str((c / 10) as u64));
    s.append(digit_str((c % 10) as u64));
    s.append("00");
    s
}

/// Each parameter of `ListRfqsParams` is sent under its own name with its own
/// value, and a parameter that is not set is not sent.
pub proof fn law_list_rfqs_params_query_fields(p: ListRfqsParams)
    ensures
        query_value(p.query_pairs(), "cursor"@) == opt_text(p.cursor),
        query_value(p.query_pairs(), "event_ticker"@) == opt_text(p.event_ticker),
        query_value(p.query_pairs(), "market_ticker"@) == opt_text(p.market_ticker),
        query_value(p.query_pairs(), "limit"@) == opt_i32_text(p.limit),
        query_value(p.query_pairs(), "status"@) == opt_text(p.status),
        query_value(p.query_pairs(), "creator_user_id"@) == opt_text(p.creator_user_id),
{
    broadcast use group_query_value;
    reveal_strlit("cursor");
    reveal_strlit("event_ticker");
    reveal_strlit("market_ticker");
    reveal_strlit("limit");
    reveal_strlit("status");
    reveal_strlit("creator_user_id");
    assert("cursor"@.len() == 6);
    assert("event_ticker"@.len() == 12);
    assert("market_ticker"@.len() == 13);
    assert("limit"@.len() == 5);
    assert("status"@.len() == 6);
    assert("creator_user_id"@.len() == 15);
    assert("status"@[0] != "cursor"@[0]);
}

/// Each parameter of `ListQuotesParams` is sent under its own name with its own
/// value, and a parameter that is not set is not sent.
pub proof fn law_list_quotes_params_query_fields(p: ListQuotesParams)
    ensures
        query_value(p.query_pairs(), "cursor"@) == opt_text(p.cursor),
        query_value(p.query_pairs(), "event_ticker"@) == opt_text(p.event_ticker),
        query_value(p.query_pairs(), "market_ticker"@) == opt_text(p.market_ticker),
        query_value(p.query_pairs(), "limit"@) == opt_i32_text(p.limit),
        query_value(p.query_pairs(), "status"@) == opt_text(p.status),
        query_value(p.query_pairs(), "quote_creator_user_id"@) == opt_text(p.quote_creator_user_id),
        query_value(p.query_pairs(), "rfq_creator_user_id"@) == opt_text(p.rfq_creator_user_id),
        query_value(p.query_pairs(), "rfq_creator_subtrader_id"@) == opt_text(p.rfq_creator_subtrader_id),
        query_value(p.query_pairs(), "rfq_id"@) == opt_text(p.rfq_id),
{
    broadcast use group_query_value;
    reveal_strlit("cursor");
    reveal_strlit("event_ticker");
    reveal_strlit("market_ticker");
    reveal_strlit("limit");
    reveal_strlit("status");
    reveal_strlit("quote_creator_user_id");
    reveal_strlit("rfq_creator_user_id");
    reveal_strlit("rfq_creator_subtrader_id");
    reveal_strlit("rfq_id");
    assert("cursor"@.len() == 6);
    assert("event_ticker"@.len() == 12);
    assert("market_ticker"@.len() == 13);
    assert("limit"@.len() == 5);
    assert("status"@.len() == 6);
    assert("quote_creator_user_id"@.len() == 21);
    assert("rfq_creator_user_id"@.len() == 19);
    assert("rfq_creator_subtrader_id"@.len() == 24);
    assert("rfq_id"@.len() == 6);
    assert("status"@[0] != "cursor"@[0]);
    assert("rfq_id"@[0] != "cursor"@[0]);
    assert("rfq_id"@[0] != "status"@[0]);
}

} // verus!
