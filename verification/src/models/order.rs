//! Order models and query parameters.

use vstd::prelude::*;
use crate::models::query::{query_value, group_query_value, QueryBuilder, QueryPairs, query_string, opt_pair, opt_text, opt_str_text, opt_i64_text, opt_i32_text, opt_bool_text};
use crate::text::{int_to_decimal, clamp_int, clamp_i64, clamp_i32};
use crate::error::Error;
use crate::models::common::{Action, OrderStatus, OrderType, SelfTradePreventionType, Side};
use crate::error::MAX_BATCH_SIZE;

verus! {

/// Time in force for an order.
#[derive(Debug, Clone, Copy, PartialEq, Eq, Structural)]
pub enum TimeInForce {
    /// Fill or kill - entire order must fill immediately or cancel.
    FillOrKill,
    /// Good till canceled - order remains until filled or explicitly canceled.
    GoodTillCanceled,
    /// Immediate or cancel - fill what's possible immediately, cancel the rest.
    ImmediateOrCancel,
}

/// An order in the Kalshi exchange.
#[derive(Debug, Clone)]
pub struct Order {
    pub order_id: String,
    pub user_id: String,
    pub client_order_id: String,
    pub ticker: String,
    pub side: Side,
    pub action: Action,
    pub order_type: OrderType,
    pub status: OrderStatus,
    /// Price in fixed-point dollars.
    pub yes_price_dollars: String,
    /// Price in fixed-point dollars.
    pub no_price_dollars: String,
    /// Fill count (fixed-point decimal string).
    pub fill_count_fp: String,
    /// Remaining count (fixed-point decimal string).
    pub remaining_count_fp: String,
    /// Initial count (fixed-point decimal string).
    pub initial_count_fp: String,
    pub taker_fill_cost_dollars: String,
    pub maker_fill_cost_dollars: String,
    pub taker_fees_dollars: Option<String>,
    pub maker_fees_dollars: Option<String>,
    /// Deprecated: always returns 0. Use the `get_order_queue_position` endpoint instead.
    pub queue_position: i64,
    pub expiration_time: Option<String>,
    pub created_time: Option<String>,
    pub last_update_time: Option<String>,
    pub self_trade_prevention_type: Option<SelfTradePreventionType>,
    pub order_group_id: Option<String>,
    pub cancel_order_on_pause: Option<bool>,
    /// Subaccount number this order belongs to (0 for primary, 1-32 for subaccounts).
    pub subaccount_number: Option<i32>,
}

/// Response from the get_orders endpoint.
#[derive(Debug, Clone)]
pub struct OrdersResponse {
    pub orders: Vec<Order>,
    pub cursor: String,
}

/// Query parameters for the get_orders endpoint.
#[derive(Debug, Clone)]
pub struct GetOrdersParams {
    pub ticker: Option<String>,
    pub event_ticker: Option<String>,
    pub min_ts: Option<i64>,
    pub max_ts: Option<i64>,
    pub status: Option<OrderStatus>,
    pub limit: Option<i64>,
    pub cursor: Option<String>,
    /// Filter by subaccount number (0 for primary, 1-32 for subaccounts).
    pub subaccount: Option<i32>,
}

impl GetOrdersParams {
    /// Parameters with nothing set.
    pub fn new() -> (r: Self)
        ensures
            r.ticker is None,
            r.event_ticker is None,
            r.min_ts is None,
            r.max_ts is None,
            r.status is None,
            r.limit is None,
            r.cursor is None,
            r.subaccount is None,
    {
        GetOrdersParams { ticker: None, event_ticker: None, min_ts: None, max_ts: None, status: None, limit: None, cursor: None, subaccount: None }
    }

    pub fn ticker(self, ticker: &str) -> (r: Self)
        ensures
            opt_text(r.ticker) == Some(ticker@),
            r.event_ticker == self.event_ticker,
            r.min_ts == self.min_ts,
            r.max_ts == self.max_ts,
            r.status == self.status,
            r.limit == self.limit,
            r.cursor == self.cursor,
            r.subaccount == self.subaccount,
    {
        let mut s = self;
        s.ticker = Some(String::from_str(ticker));
        s
    }

    pub fn event_ticker(self, event_ticker: &str) -> (r: Self)
        ensures
            opt_text(r.event_ticker) == Some(event_ticker@),
            r.ticker == self.ticker,
            r.min_ts == self.min_ts,
            r.max_ts == self.max_ts,
            r.status == self.status,
            r.limit == self.limit,
            r.cursor == self.cursor,
            r.subaccount == self.subaccount,
    {
        let mut s = self;
        s.event_ticker = Some(String::from_str(event_ticker));
        s
    }

    pub fn min_ts(self, ts: i64) -> (r: Self)
        ensures
            r.min_ts == Some(ts),
            r.ticker == self.ticker,
            r.event_ticker == self.event_ticker,
            r.max_ts == self.max_ts,
            r.status == self.status,
            r.limit == self.limit,
            r.cursor == self.cursor,
            r.subaccount == self.subaccount,
    {
        let mut s = self;
        s.min_ts = Some(ts);
        s
    }

    pub fn max_ts(self, ts: i64) -> (r: Self)
        ensures
            r.max_ts == Some(ts),
            r.ticker == self.ticker,
            r.event_ticker == self.event_ticker,
            r.min_ts == self.min_ts,
            r.status == self.status,
            r.limit == self.limit,
            r.cursor == self.cursor,
            r.subaccount == self.subaccount,
    {
        let mut s = self;
        s.max_ts = Some(ts);
        s
    }

    pub fn status(self, status: OrderStatus) -> (r: Self)
        ensures
            r.status == Some(status),
            r.ticker == self.ticker,
            r.event_ticker == self.event_ticker,
            r.min_ts == self.min_ts,
            r.max_ts == self.max_ts,
            r.limit == self.limit,
            r.cursor == self.cursor,
            r.subaccount == self.subaccount,
    {
        let mut s = self;
        s.status = Some(status);
        s
    }

    pub fn try_limit(self, limit: i64) -> (r: Result<Self, Error>)
        ensures
            (match r {
                Ok(p) => 1 <= limit <= 200 && p.limit == Some(limit) && p.ticker == self.ticker && p.event_ticker == self.event_ticker && p.min_ts == self.min_ts && p.max_ts == self.max_ts && p.status == self.status && p.cursor == self.cursor && p.subaccount == self.subaccount,
                Err(e) => !(1 <= limit <= 200) && e == Error::InvalidLimit(limit, 1, 200),
            }),
    {
        if limit < 1 || limit > 200 {
            return Err(Error::InvalidLimit(limit, 1, 200));
        }
        let mut s = self;
        s.limit = Some(limit);
        Ok(s)
    }

    pub fn limit(self, limit: i64) -> (r: Self)
        requires
            1 <= limit <= 200,
        ensures
            r.limit == Some(limit),
            r.ticker == self.ticker,
            r.event_ticker == self.event_ticker,
            r.min_ts == self.min_ts,
            r.max_ts == self.max_ts,
            r.status == self.status,
            r.cursor == self.cursor,
            r.subaccount == self.subaccount,
    {
        let mut s = self;
        s.limit = Some(limit);
        s
    }

    pub fn cursor(self, cursor: &str) -> (r: Self)
        ensures
            opt_text(r.cursor) == Some(cursor@),
            r.ticker == self.ticker,
            r.event_ticker == self.event_ticker,
            r.min_ts == self.min_ts,
            r.max_ts == self.max_ts,
            r.status == self.status,
            r.limit == self.limit,
            r.subaccount == self.subaccount,
    {
        let mut s = self;
        s.cursor = Some(String::from_str(cursor));
        s
    }

    pub fn subaccount(self, subaccount: i32) -> (r: Self)
        ensures
            r.subaccount == Some(subaccount),
            r.ticker == self.ticker,
            r.event_ticker == self.event_ticker,
            r.min_ts == self.min_ts,
            r.max_ts == self.max_ts,
            r.status == self.status,
            r.limit == self.limit,
            r.cursor == self.cursor,
    {
        let mut s = self;
        s.subaccount = Some(subaccount);
        s
    }

    /// The query pairs of these parameters, in the order they are sent.
    pub open spec fn query_pairs(&self) -> QueryPairs {
        ((((((((Seq::empty() + opt_pair("ticker"@, opt_text(self.ticker))) + opt_pair("event_ticker"@, opt_text(self.event_ticker))) + opt_pair("min_ts"@, opt_i64_text(self.min_ts))) + opt_pair("max_ts"@, opt_i64_text(self.max_ts))) + opt_pair("status"@, OrderStatus::opt_wire(self.status))) + opt_pair("limit"@, opt_i64_text(self.limit))) + opt_pair("cursor"@, opt_text(self.cursor))) + opt_pair("subaccount"@, opt_i32_text(self.subaccount)))
    }

    /// The URL query string (`?` and the encoded pairs; empty when no pair is set).
    pub fn to_query_string(&self) -> (s: String)
        ensures
            s@ == query_string(self.query_pairs()),
    {
        let mut qb = QueryBuilder::new();
        qb.push_opt_str("ticker", &self.ticker);
        qb.push_opt_str("event_ticker", &self.event_ticker);
        qb.push_opt_i64("min_ts", self.min_ts);
        qb.push_opt_i64("max_ts", self.max_ts);
        qb.push_opt_static("status", OrderStatus::opt_as_str(self.status));
        qb.push_opt_i64("limit", self.limit);
        qb.push_opt_str("cursor", &self.cursor);
        qb.push_opt_i32("subaccount", self.subaccount);
        qb.build()
    }
}

impl Default for GetOrdersParams {
    fn default() -> (r: Self)
        ensures
            r.ticker is None,
            r.event_ticker is None,
            r.min_ts is None,
            r.max_ts is None,
            r.status is None,
            r.limit is None,
            r.cursor is None,
            r.subaccount is None,
    {
        Self::new()
    }
}

/// Response from GET /portfolio/orders/{order_id}.
#[derive(Debug, Clone)]
pub struct OrderResponse {
    pub order: Order,
}

/// Request body for POST /portfolio/orders (create order).
#[derive(Debug, Clone)]
pub struct CreateOrderRequest {
    /// Market ticker.
    pub ticker: String,
    /// Side of the order (yes or no).
    pub side: Side,
    /// Action (buy or sell).
    pub action: Action,
    /// Number of contracts. Must be >= 1.
    pub count: i64,
    /// Client-assigned order identifier.
    pub client_order_id: Option<String>,
    /// Yes price in cents (1-99).
    pub yes_price: Option<i64>,
    /// No price in cents (1-99).
    pub no_price: Option<i64>,
    /// Yes price in fixed-point dollars.
    pub yes_price_dollars: Option<String>,
    /// No price in fixed-point dollars.
    pub no_price_dollars: Option<String>,
    /// Order expiration timestamp (Unix seconds).
    pub expiration_ts: Option<i64>,
    /// Time in force.
    pub time_in_force: Option<TimeInForce>,
    /// Maximum cost in cents. Enables fill-or-kill behavior.
    pub buy_max_cost: Option<i64>,
    /// Post-only flag (maker only).
    pub post_only: Option<bool>,
    /// Reduce-only flag.
    pub reduce_only: Option<bool>,
    /// Self-trade prevention type.
    pub self_trade_prevention_type: Option<SelfTradePreventionType>,
    /// Associated order group ID.
    pub order_group_id: Option<String>,
    /// Auto-cancel if exchange trading pauses.
    pub cancel_order_on_pause: Option<bool>,
    /// Deprecated: Use `reduce_only` instead. Only accepts value of 0.
    pub sell_position_floor: Option<i64>,
    /// Number of contracts (fixed-point decimal string).
    pub count_fp: Option<String>,
    /// Subaccount number (0 for primary, 1-32 for subaccounts).
    pub subaccount: Option<i32>,
}

impl CreateOrderRequest {
    /// Creates a new value with the given required fields; all optional fields are unset.
    pub fn new(ticker: &str, side: Side, action: Action, count: i64) -> (r: Self)
        ensures
            r.ticker@ == ticker@,
            r.side == side,
            r.action == action,
            r.count == count,
            r.client_order_id is None,
            r.yes_price is None,
            r.no_price is None,
            r.yes_price_dollars is None,
            r.no_price_dollars is None,
            r.expiration_ts is None,
            r.time_in_force is None,
            r.buy_max_cost is None,
            r.post_only is None,
            r.reduce_only is None,
            r.self_trade_prevention_type is None,
            r.order_group_id is None,
            r.cancel_order_on_pause is None,
            r.sell_position_floor is None,
            r.count_fp is None,
            r.subaccount is None,
    {
        CreateOrderRequest { ticker: String::from_str(ticker), side: side, action: action, count: count, client_order_id: None, yes_price: None, no_price: None, yes_price_dollars: None, no_price_dollars: None, expiration_ts: None, time_in_force: None, buy_max_cost: None, post_only: None, reduce_only: None, self_trade_prevention_type: None, order_group_id: None, cancel_order_on_pause: None, sell_position_floor: None, count_fp: None, subaccount: None }
    }

    pub fn client_order_id(self, id: &str) -> (r: Self)
        ensures
            opt_text(r.client_order_id) == Some(id@),
            r.ticker == self.ticker,
            r.side == self.side,
            r.action == self.action,
            r.count == self.count,
            r.yes_price == self.yes_price,
            r.no_price == self.no_price,
            r.yes_price_dollars == self.yes_price_dollars,
            r.no_price_dollars == self.no_price_dollars,
            r.expiration_ts == self.expiration_ts,
            r.time_in_force == self.time_in_force,
            r.buy_max_cost == self.buy_max_cost,
            r.post_only == self.post_only,
            r.reduce_only == self.reduce_only,
            r.self_trade_prevention_type == self.self_trade_prevention_type,
            r.order_group_id == self.order_group_id,
            r.cancel_order_on_pause == self.cancel_order_on_pause,
            r.sell_position_floor == self.sell_position_floor,
            r.count_fp == self.count_fp,
            r.subaccount == self.subaccount,
    {
        let mut s = self;
        s.client_order_id = Some(String::from_str(id));
        s
    }

    pub fn try_yes_price(self, price: i64) -> (r: Result<Self, Error>)
        ensures
            (match r {
                Ok(p) => 1 <= price <= 99 && p.yes_price == Some(price) && p.ticker == self.ticker && p.side == self.side && p.action == self.action && p.count == self.count && p.client_order_id == self.client_order_id && p.no_price == self.no_price && p.yes_price_dollars == self.yes_price_dollars && p.no_price_dollars == self.no_price_dollars && p.expiration_ts == self.expiration_ts && p.time_in_force == self.time_in_force && p.buy_max_cost == self.buy_max_cost && p.post_only == self.post_only && p.reduce_only == self.reduce_only && p.self_trade_prevention_type == self.self_trade_prevention_type && p.order_group_id == self.order_group_id && p.cancel_order_on_pause == self.cancel_order_on_pause && p.sell_position_floor == self.sell_position_floor && p.count_fp == self.count_fp && p.subaccount == self.subaccount,
                Err(e) => !(1 <= price <= 99) && e == Error::InvalidPrice(price),
            }),
    {
        if price < 1 || price > 99 {
            return Err(Error::InvalidPrice(price));
        }
        let mut s = self;
        s.yes_price = Some(price);
        Ok(s)
    }

    pub fn yes_price(self, price: i64) -> (r: Self)
        requires
            1 <= price <= 99,
        ensures
            r.yes_price == Some(price),
            r.ticker == self.ticker,
            r.side == self.side,
            r.action == self.action,
            r.count == self.count,
            r.client_order_id == self.client_order_id,
            r.no_price == self.no_price,
            r.yes_price_dollars == self.yes_price_dollars,
            r.no_price_dollars == self.no_price_dollars,
            r.expiration_ts == self.expiration_ts,
            r.time_in_force == self.time_in_force,
            r.buy_max_cost == self.buy_max_cost,
            r.post_only == self.post_only,
            r.reduce_only == self.reduce_only,
            r.self_trade_prevention_type == self.self_trade_prevention_type,
            r.order_group_id == self.order_group_id,
            r.cancel_order_on_pause == self.cancel_order_on_pause,
            r.sell_position_floor == self.sell_position_floor,
            r.count_fp == self.count_fp,
            r.subaccount == self.subaccount,
    {
        let mut s = self;
        s.yes_price = Some(price);
        s
    }

    pub fn try_no_price(self, price: i64) -> (r: Result<Self, Error>)
        ensures
            (match r {
                Ok(p) => 1 <= price <= 99 && p.no_price == Some(price) && p.ticker == self.ticker && p.side == self.side && p.action == self.action && p.count == self.count && p.client_order_id == self.client_order_id && p.yes_price == self.yes_price && p.yes_price_dollars == self.yes_price_dollars && p.no_price_dollars == self.no_price_dollars && p.expiration_ts == self.expiration_ts && p.time_in_force == self.time_in_force && p.buy_max_cost == self.buy_max_cost && p.post_only == self.post_only && p.reduce_only == self.reduce_only && p.self_trade_prevention_type == self.self_trade_prevention_type && p.order_group_id == self.order_group_id && p.cancel_order_on_pause == self.cancel_order_on_pause && p.sell_position_floor == self.sell_position_floor && p.count_fp == self.count_fp && p.subaccount == self.subaccount,
                Err(e) => !(1 <= price <= 99) && e == Error::InvalidPrice(price),
            }),
    {
        if price < 1 || price > 99 {
            return Err(Error::InvalidPrice(price));
        }
        let mut s = self;
        s.no_price = Some(price);
        Ok(s)
    }

    pub fn no_price(self, price: i64) -> (r: Self)
        requires
            1 <= price <= 99,
        ensures
            r.no_price == Some(price),
            r.ticker == self.ticker,
            r.side == self.side,
            r.action == self.action,
            r.count == self.count,
            r.client_order_id == self.client_order_id,
            r.yes_price == self.yes_price,
            r.yes_price_dollars == self.yes_price_dollars,
            r.no_price_dollars == self.no_price_dollars,
            r.expiration_ts == self.expiration_ts,
            r.time_in_force == self.time_in_force,
            r.buy_max_cost == self.buy_max_cost,
            r.post_only == self.post_only,
            r.reduce_only == self.reduce_only,
            r.self_trade_prevention_type == self.self_trade_prevention_type,
            r.order_group_id == self.order_group_id,
            r.cancel_order_on_pause == self.cancel_order_on_pause,
            r.sell_position_floor == self.sell_position_floor,
            r.count_fp == self.count_fp,
            r.subaccount == self.subaccount,
    {
        let mut s = self;
        s.no_price = Some(price);
        s
    }

    pub fn yes_price_dollars(self, price: &str) -> (r: Self)
        ensures
            opt_text(r.yes_price_dollars) == Some(price@),
            r.ticker == self.ticker,
            r.side == self.side,
            r.action == self.action,
            r.count == self.count,
            r.client_order_id == self.client_order_id,
            r.yes_price == self.yes_price,
            r.no_price == self.no_price,
            r.no_price_dollars == self.no_price_dollars,
            r.expiration_ts == self.expiration_ts,
            r.time_in_force == self.time_in_force,
            r.buy_max_cost == self.buy_max_cost,
            r.post_only == self.post_only,
            r.reduce_only == self.reduce_only,
            r.self_trade_prevention_type == self.self_trade_prevention_type,
            r.order_group_id == self.order_group_id,
            r.cancel_order_on_pause == self.cancel_order_on_pause,
            r.sell_position_floor == self.sell_position_floor,
            r.count_fp == self.count_fp,
            r.subaccount == self.subaccount,
    {
        let mut s = self;
        s.yes_price_dollars = Some(String::from_str(price));
        s
    }

    pub fn no_price_dollars(self, price: &str) -> (r: Self)
        ensures
            opt_text(r.no_price_dollars) == Some(price@),
            r.ticker == self.ticker,
            r.side == self.side,
            r.action == self.action,
            r.count == self.count,
            r.client_order_id == self.client_order_id,
            r.yes_price == self.yes_price,
            r.no_price == self.no_price,
            r.yes_price_dollars == self.yes_price_dollars,
            r.expiration_ts == self.expiration_ts,
            r.time_in_force == self.time_in_force,
            r.buy_max_cost == self.buy_max_cost,
            r.post_only == self.post_only,
            r.reduce_only == self.reduce_only,
            r.self_trade_prevention_type == self.self_trade_prevention_type,
            r.order_group_id == self.order_group_id,
            r.cancel_order_on_pause == self.cancel_order_on_pause,
            r.sell_position_floor == self.sell_position_floor,
            r.count_fp == self.count_fp,
            r.subaccount == self.subaccount,
    {
        let mut s = self;
        s.no_price_dollars = Some(String::from_str(price));
        s
    }

    pub fn expiration_ts(self, ts: i64) -> (r: Self)
        ensures
            r.expiration_ts == Some(ts),
            r.ticker == self.ticker,
            r.side == self.side,
            r.action == self.action,
            r.count == self.count,
            r.client_order_id == self.client_order_id,
            r.yes_price == self.yes_price,
            r.no_price == self.no_price,
            r.yes_price_dollars == self.yes_price_dollars,
            r.no_price_dollars == self.no_price_dollars,
            r.time_in_force == self.time_in_force,
            r.buy_max_cost == self.buy_max_cost,
            r.post_only == self.post_only,
            r.reduce_only == self.reduce_only,
            r.self_trade_prevention_type == self.self_trade_prevention_type,
            r.order_group_id == self.order_group_id,
            r.cancel_order_on_pause == self.cancel_order_on_pause,
            r.sell_position_floor == self.sell_position_floor,
            r.count_fp == self.count_fp,
            r.subaccount == self.subaccount,
    {
        let mut s = self;
        s.expiration_ts = Some(ts);
        s
    }

    pub fn time_in_force(self, tif: TimeInForce) -> (r: Self)
        ensures
            r.time_in_force == Some(tif),
            r.ticker == self.ticker,
            r.side == self.side,
            r.action == self.action,
            r.count == self.count,
            r.client_order_id == self.client_order_id,
            r.yes_price == self.yes_price,
            r.no_price == self.no_price,
            r.yes_price_dollars == self.yes_price_dollars,
            r.no_price_dollars == self.no_price_dollars,
            r.expiration_ts == self.expiration_ts,
            r.buy_max_cost == self.buy_max_cost,
            r.post_only == self.post_only,
            r.reduce_only == self.reduce_only,
            r.self_trade_prevention_type == self.self_trade_prevention_type,
            r.order_group_id == self.order_group_id,
            r.cancel_order_on_pause == self.cancel_order_on_pause,
            r.sell_position_floor == self.sell_position_floor,
            r.count_fp == self.count_fp,
            r.subaccount == self.subaccount,
    {
        let mut s = self;
        s.time_in_force = Some(tif);
        s
    }

    pub fn buy_max_cost(self, cost: i64) -> (r: Self)
        ensures
            r.buy_max_cost == Some(cost),
            r.ticker == self.ticker,
            r.side == self.side,
            r.action == self.action,
            r.count == self.count,
            r.client_order_id == self.client_order_id,
            r.yes_price == self.yes_price,
            r.no_price == self.no_price,
            r.yes_price_dollars == self.yes_price_dollars,
            r.no_price_dollars == self.no_price_dollars,
            r.expiration_ts == self.expiration_ts,
            r.time_in_force == self.time_in_force,
            r.post_only == self.post_only,
            r.reduce_only == self.reduce_only,
            r.self_trade_prevention_type == self.self_trade_prevention_type,
            r.order_group_id == self.order_group_id,
            r.cancel_order_on_pause == self.cancel_order_on_pause,
            r.sell_position_floor == self.sell_position_floor,
            r.count_fp == self.count_fp,
            r.subaccount == self.subaccount,
    {
        let mut s = self;
        s.buy_max_cost = Some(cost);
        s
    }

    pub fn post_only(self, post_only: bool) -> (r: Self)
        ensures
            r.post_only == Some(post_only),
            r.ticker == self.ticker,
            r.side == self.side,
            r.action == self.action,
            r.count == self.count,
            r.client_order_id == self.client_order_id,
            r.yes_price == self.yes_price,
            r.no_price == self.no_price,
            r.yes_price_dollars == self.yes_price_dollars,
            r.no_price_dollars == self.no_price_dollars,
            r.expiration_ts == self.expiration_ts,
            r.time_in_force == self.time_in_force,
            r.buy_max_cost == self.buy_max_cost,
            r.reduce_only == self.reduce_only,
            r.self_trade_prevention_type == self.self_trade_prevention_type,
            r.order_group_id == self.order_group_id,
            r.cancel_order_on_pause == self.cancel_order_on_pause,
            r.sell_position_floor == self.sell_position_floor,
            r.count_fp == self.count_fp,
            r.subaccount == self.subaccount,
    {
        let mut s = self;
        s.post_only = Some(post_only);
        s
    }

    pub fn reduce_only(self, reduce_only: bool) -> (r: Self)
        ensures
            r.reduce_only == Some(reduce_only),
            r.ticker == self.ticker,
            r.side == self.side,
            r.action == self.action,
            r.count == self.count,
            r.client_order_id == self.client_order_id,
            r.yes_price == self.yes_price,
            r.no_price == self.no_price,
            r.yes_price_dollars == self.yes_price_dollars,
            r.no_price_dollars == self.no_price_dollars,
            r.expiration_ts == self.expiration_ts,
            r.time_in_force == self.time_in_force,
            r.buy_max_cost == self.buy_max_cost,
            r.post_only == self.post_only,
            r.self_trade_prevention_type == self.self_trade_prevention_type,
            r.order_group_id == self.order_group_id,
            r.cancel_order_on_pause == self.cancel_order_on_pause,
            r.sell_position_floor == self.sell_position_floor,
            r.count_fp == self.count_fp,
            r.subaccount == self.subaccount,
    {
        let mut s = self;
        s.reduce_only = Some(reduce_only);
        s
    }

    pub fn self_trade_prevention_type(self, stp: SelfTradePreventionType) -> (r: Self)
        ensures
            r.self_trade_prevention_type == Some(stp),
            r.ticker == self.ticker,
            r.side == self.side,
            r.action == self.action,
            r.count == self.count,
            r.client_order_id == self.client_order_id,
            r.yes_price == self.yes_price,
            r.no_price == self.no_price,
            r.yes_price_dollars == self.yes_price_dollars,
            r.no_price_dollars == self.no_price_dollars,
            r.expiration_ts == self.expiration_ts,
            r.time_in_force == self.time_in_force,
            r.buy_max_cost == self.buy_max_cost,
            r.post_only == self.post_only,
            r.reduce_only == self.reduce_only,
            r.order_group_id == self.order_group_id,
            r.cancel_order_on_pause == self.cancel_order_on_pause,
            r.sell_position_floor == self.sell_position_floor,
            r.count_fp == self.count_fp,
            r.subaccount == self.subaccount,
    {
        let mut s = self;
        s.self_trade_prevention_type = Some(stp);
        s
    }

    pub fn order_group_id(self, id: &str) -> (r: Self)
        ensures
            opt_text(r.order_group_id) == Some(id@),
            r.ticker == self.ticker,
            r.side == self.side,
            r.action == self.action,
            r.count == self.count,
            r.client_order_id == self.client_order_id,
            r.yes_price == self.yes_price,
            r.no_price == self.no_price,
            r.yes_price_dollars == self.yes_price_dollars,
            r.no_price_dollars == self.no_price_dollars,
            r.expiration_ts == self.expiration_ts,
            r.time_in_force == self.time_in_force,
            r.buy_max_cost == self.buy_max_cost,
            r.post_only == self.post_only,
            r.reduce_only == self.reduce_only,
            r.self_trade_prevention_type == self.self_trade_prevention_type,
            r.cancel_order_on_pause == self.cancel_order_on_pause,
            r.sell_position_floor == self.sell_position_floor,
            r.count_fp == self.count_fp,
            r.subaccount == self.subaccount,
    {
        let mut s = self;
        s.order_group_id = Some(String::from_str(id));
        s
    }

    pub fn cancel_order_on_pause(self, cancel: bool) -> (r: Self)
        ensures
            r.cancel_order_on_pause == Some(cancel),
            r.ticker == self.ticker,
            r.side == self.side,
            r.action == self.action,
            r.count == self.count,
            r.client_order_id == self.client_order_id,
            r.yes_price == self.yes_price,
            r.no_price == self.no_price,
            r.yes_price_dollars == self.yes_price_dollars,
            r.no_price_dollars == self.no_price_dollars,
            r.expiration_ts == self.expiration_ts,
            r.time_in_force == self.time_in_force,
            r.buy_max_cost == self.buy_max_cost,
            r.post_only == self.post_only,
            r.reduce_only == self.reduce_only,
            r.self_trade_prevention_type == self.self_trade_prevention_type,
            r.order_group_id == self.order_group_id,
            r.sell_position_floor == self.sell_position_floor,
            r.count_fp == self.count_fp,
            r.subaccount == self.subaccount,
    {
        let mut s = self;
        s.cancel_order_on_pause = Some(cancel);
        s
    }

    pub fn sell_position_floor(self, floor: i64) -> (r: Self)
        ensures
            r.sell_position_floor == Some(floor),
            r.ticker == self.ticker,
            r.side == self.side,
            r.action == self.action,
            r.count == self.count,
            r.client_order_id == self.client_order_id,
            r.yes_price == self.yes_price,
            r.no_price == self.no_price,
            r.yes_price_dollars == self.yes_price_dollars,
            r.no_price_dollars == self.no_price_dollars,
            r.expiration_ts == self.expiration_ts,
            r.time_in_force == self.time_in_force,
            r.buy_max_cost == self.buy_max_cost,
            r.post_only == self.post_only,
            r.reduce_only == self.reduce_only,
            r.self_trade_prevention_type == self.self_trade_prevention_type,
            r.order_group_id == self.order_group_id,
            r.cancel_order_on_pause == self.cancel_order_on_pause,
            r.count_fp == self.count_fp,
            r.subaccount == self.subaccount,
    {
        let mut s = self;
        s.sell_position_floor = Some(floor);
        s
    }

    pub fn count_fp(self, count_fp: &str) -> (r: Self)
        ensures
            opt_text(r.count_fp) == Some(count_fp@),
            r.ticker == self.ticker,
            r.side == self.side,
            r.action == self.action,
            r.count == self.count,
            r.client_order_id == self.client_order_id,
            r.yes_price == self.yes_price,
            r.no_price == self.no_price,
            r.yes_price_dollars == self.yes_price_dollars,
            r.no_price_dollars == self.no_price_dollars,
            r.expiration_ts == self.expiration_ts,
            r.time_in_force == self.time_in_force,
            r.buy_max_cost == self.buy_max_cost,
            r.post_only == self.post_only,
            r.reduce_only == self.reduce_only,
            r.self_trade_prevention_type == self.self_trade_prevention_type,
            r.order_group_id == self.order_group_id,
            r.cancel_order_on_pause == self.cancel_order_on_pause,
            r.sell_position_floor == self.sell_position_floor,
            r.subaccount == self.subaccount,
    {
        let mut s = self;
        s.count_fp = Some(String::from_str(count_fp));
        s
    }

    pub fn subaccount(self, subaccount: i32) -> (r: Self)
        ensures
            r.subaccount == Some(subaccount),
            r.ticker == self.ticker,
            r.side == self.side,
            r.action == self.action,
            r.count == self.count,
            r.client_order_id == self.client_order_id,
            r.yes_price == self.yes_price,
            r.no_price == self.no_price,
            r.yes_price_dollars == self.yes_price_dollars,
            r.no_price_dollars == self.no_price_dollars,
            r.expiration_ts == self.expiration_ts,
            r.time_in_force == self.time_in_force,
            r.buy_max_cost == self.buy_max_cost,
            r.post_only == self.post_only,
            r.reduce_only == self.reduce_only,
            r.self_trade_prevention_type == self.self_trade_prevention_type,
            r.order_group_id == self.order_group_id,
            r.cancel_order_on_pause == self.cancel_order_on_pause,
            r.sell_position_floor == self.sell_position_floor,
            r.count_fp == self.count_fp,
    {
        let mut s = self;
        s.subaccount = Some(subaccount);
        s
    }
}

/// Response from DELETE /portfolio/orders/{order_id} (cancel order).
#[derive(Debug, Clone)]
pub struct CancelOrderResponse {
    pub order: Order,
    /// Number of contracts that were canceled.
    pub reduced_by: i64,
    /// Number of contracts that were canceled (fixed-point decimal string).
    pub reduced_by_fp: String,
}

/// Request body for POST /portfolio/orders/{order_id}/amend.
#[derive(Debug, Clone)]
pub struct AmendOrderRequest {
    /// Market ticker.
    pub ticker: String,
    /// Side of the order.
    pub side: Side,
    /// Action of the order.
    pub action: Action,
    /// Original client-specified order ID to be amended (optional).
    pub client_order_id: Option<String>,
    /// New client-specified order ID after amendment (optional).
    pub updated_client_order_id: Option<String>,
    /// Updated yes price in cents (1-99).
    pub yes_price: Option<i64>,
    /// Updated no price in cents (1-99).
    pub no_price: Option<i64>,
    /// Updated yes price in fixed-point dollars.
    pub yes_price_dollars: Option<String>,
    /// Updated no price in fixed-point dollars.
    pub no_price_dollars: Option<String>,
    /// Updated quantity for the order.
    pub count: Option<i64>,
    /// Updated quantity (fixed-point decimal string).
    pub count_fp: Option<String>,
    /// Subaccount number (0 for primary, 1-32 for subaccounts).
    pub subaccount: Option<i32>,
}

impl AmendOrderRequest {
    /// Creates a new value with the given required fields; all optional fields are unset.
    pub fn new(ticker: &str, side: Side, action: Action) -> (r: Self)
        ensures
            r.ticker@ == ticker@,
            r.side == side,
            r.action == action,
            r.client_order_id is None,
            r.updated_client_order_id is None,
            r.yes_price is None,
            r.no_price is None,
            r.yes_price_dollars is None,
            r.no_price_dollars is None,
            r.count is None,
            r.count_fp is None,
            r.subaccount is None,
    {
        AmendOrderRequest { ticker: String::from_str(ticker), side: side, action: action, client_order_id: None, updated_client_order_id: None, yes_price: None, no_price: None, yes_price_dollars: None, no_price_dollars: None, count: None, count_fp: None, subaccount: None }
    }

    pub fn client_order_id(self, id: &str) -> (r: Self)
        ensures
            opt_text(r.client_order_id) == Some(id@),
            r.ticker == self.ticker,
            r.side == self.side,
            r.action == self.action,
            r.updated_client_order_id == self.updated_client_order_id,
            r.yes_price == self.yes_price,
            r.no_price == self.no_price,
            r.yes_price_dollars == self.yes_price_dollars,
            r.no_price_dollars == self.no_price_dollars,
            r.count == self.count,
            r.count_fp == self.count_fp,
            r.subaccount == self.subaccount,
    {
        let mut s = self;
        s.client_order_id = Some(String::from_str(id));
        s
    }

    pub fn updated_client_order_id(self, id: &str) -> (r: Self)
        ensures
            opt_text(r.updated_client_order_id) == Some(id@),
            r.ticker == self.ticker,
            r.side == self.side,
            r.action == self.action,
            r.client_order_id == self.client_order_id,
            r.yes_price == self.yes_price,
            r.no_price == self.no_price,
            r.yes_price_dollars == self.yes_price_dollars,
            r.no_price_dollars == self.no_price_dollars,
            r.count == self.count,
            r.count_fp == self.count_fp,
            r.subaccount == self.subaccount,
    {
        let mut s = self;
        s.updated_client_order_id = Some(String::from_str(id));
        s
    }

    pub fn yes_price(self, price: i64) -> (r: Self)
        ensures
            r.yes_price == Some(price),
            r.ticker == self.ticker,
            r.side == self.side,
            r.action == self.action,
            r.client_order_id == self.client_order_id,
            r.updated_client_order_id == self.updated_client_order_id,
            r.no_price == self.no_price,
            r.yes_price_dollars == self.yes_price_dollars,
            r.no_price_dollars == self.no_price_dollars,
            r.count == self.count,
            r.count_fp == self.count_fp,
            r.subaccount == self.subaccount,
    {
        let mut s = self;
        s.yes_price = Some(price);
        s
    }

    pub fn no_price(self, price: i64) -> (r: Self)
        ensures
            r.no_price == Some(price),
            r.ticker == self.ticker,
            r.side == self.side,
            r.action == self.action,
            r.client_order_id == self.client_order_id,
            r.updated_client_order_id == self.updated_client_order_id,
            r.yes_price == self.yes_price,
            r.yes_price_dollars == self.yes_price_dollars,
            r.no_price_dollars == self.no_price_dollars,
            r.count == self.count,
            r.count_fp == self.count_fp,
            r.subaccount == self.subaccount,
    {
        let mut s = self;
        s.no_price = Some(price);
        s
    }

    pub fn yes_price_dollars(self, price: &str) -> (r: Self)
        ensures
            opt_text(r.yes_price_dollars) == Some(price@),
            r.ticker == self.ticker,
            r.side == self.side,
            r.action == self.action,
            r.client_order_id == self.client_order_id,
            r.updated_client_order_id == self.updated_client_order_id,
            r.yes_price == self.yes_price,
            r.no_price == self.no_price,
            r.no_price_dollars == self.no_price_dollars,
            r.count == self.count,
            r.count_fp == self.count_fp,
            r.subaccount == self.subaccount,
    {
        let mut s = self;
        s.yes_price_dollars = Some(String::from_str(price));
        s
    }

    pub fn no_price_dollars(self, price: &str) -> (r: Self)
        ensures
            opt_text(r.no_price_dollars) == Some(price@),
            r.ticker == self.ticker,
            r.side == self.side,
            r.action == self.action,
            r.client_order_id == self.client_order_id,
            r.updated_client_order_id == self.updated_client_order_id,
            r.yes_price == self.yes_price,
            r.no_price == self.no_price,
            r.yes_price_dollars == self.yes_price_dollars,
            r.count == self.count,
            r.count_fp == self.count_fp,
            r.subaccount == self.subaccount,
    {
        let mut s = self;
        s.no_price_dollars = Some(String::from_str(price));
        s
    }

    pub fn count(self, count: i64) -> (r: Self)
        ensures
            r.count == Some(count),
            r.ticker == self.ticker,
            r.side == self.side,
            r.action == self.action,
            r.client_order_id == self.client_order_id,
            r.updated_client_order_id == self.updated_client_order_id,
            r.yes_price == self.yes_price,
            r.no_price == self.no_price,
            r.yes_price_dollars == self.yes_price_dollars,
            r.no_price_dollars == self.no_price_dollars,
            r.count_fp == self.count_fp,
            r.subaccount == self.subaccount,
    {
        let mut s = self;
        s.count = Some(count);
        s
    }

    pub fn count_fp(self, count_fp: &str) -> (r: Self)
        ensures
            opt_text(r.count_fp) == Some(count_fp@),
            r.ticker == self.ticker,
            r.side == self.side,
            r.action == self.action,
            r.client_order_id == self.client_order_id,
            r.updated_client_order_id == self.updated_client_order_id,
            r.yes_price == self.yes_price,
            r.no_price == self.no_price,
            r.yes_price_dollars == self.yes_price_dollars,
            r.no_price_dollars == self.no_price_dollars,
            r.count == self.count,
            r.subaccount == self.subaccount,
    {
        let mut s = self;
        s.count_fp = Some(String::from_str(count_fp));
        s
    }

    pub fn subaccount(self, subaccount: i32) -> (r: Self)
        ensures
            r.subaccount == Some(subaccount),
            r.ticker == self.ticker,
            r.side == self.side,
            r.action == self.action,
            r.client_order_id == self.client_order_id,
            r.updated_client_order_id == self.updated_client_order_id,
            r.yes_price == self.yes_price,
            r.no_price == self.no_price,
            r.yes_price_dollars == self.yes_price_dollars,
            r.no_price_dollars == self.no_price_dollars,
            r.count == self.count,
            r.count_fp == self.count_fp,
    {
        let mut s = self;
        s.subaccount = Some(subaccount);
        s
    }


    /// An amend request that also names the order by its client order id
    /// and gives it a new one.
    pub fn with_client_order_ids(ticker: &str, side: Side, action: Action, client_order_id: &str, updated_client_order_id: &str) -> (r: Self)
        ensures
            r.ticker@ == ticker@,
            r.side == side,
            r.action == action,
            opt_text(r.client_order_id) == Some(client_order_id@),
            opt_text(r.updated_client_order_id) == Some(updated_client_order_id@),
            r.yes_price is None,
            r.no_price is None,
            r.yes_price_dollars is None,
            r.no_price_dollars is None,
            r.count is None,
            r.count_fp is None,
            r.subaccount is None,
    {
        AmendOrderRequest {
            ticker: String::from_str(ticker),
            side,
            action,
            client_order_id: Some(String::from_str(client_order_id)),
            updated_client_order_id: Some(String::from_str(updated_client_order_id)),
            yes_price: None,
            no_price: None,
            yes_price_dollars: None,
            no_price_dollars: None,
            count: None,
            count_fp: None,
            subaccount: None,
        }
    }
}

/// Response from POST /portfolio/orders/{order_id}/amend.
#[derive(Debug, Clone)]
pub struct AmendOrderResponse {
    /// Order state before amendment.
    pub old_order: Order,
    /// Order state after amendment.
    pub order: Order,
}

/// Request body for POST /portfolio/orders/{order_id}/decrease.
#[derive(Debug, Clone)]
pub struct DecreaseOrderRequest {
    /// Amount to decrease order by.
    pub reduce_by: Option<i64>,
    /// Target remaining quantity.
    pub reduce_to: Option<i64>,
    /// Amount to reduce by (fixed-point decimal string).
    pub reduce_by_fp: Option<String>,
    /// Target remaining quantity (fixed-point decimal string).
    pub reduce_to_fp: Option<String>,
    /// Subaccount number (0 for primary, 1-32 for subaccounts).
    pub subaccount: Option<i32>,
}

impl DecreaseOrderRequest {
    pub fn subaccount(self, subaccount: i32) -> (r: Self)
        ensures
            r.subaccount == Some(subaccount),
            r.reduce_by == self.reduce_by,
            r.reduce_to == self.reduce_to,
            r.reduce_by_fp == self.reduce_by_fp,
            r.reduce_to_fp == self.reduce_to_fp,
    {
        let mut s = self;
        s.subaccount = Some(subaccount);
        s
    }


    /// Decreases an order by the given number of contracts.
    pub fn reduce_by(amount: i64) -> (r: Self)
        ensures
            r.reduce_by == Some(amount),
            r.reduce_to is None,
            r.reduce_by_fp is None,
            r.reduce_to_fp is None,
            r.subaccount is None,
    {
        DecreaseOrderRequest { reduce_by: Some(amount), reduce_to: None, reduce_by_fp: None, reduce_to_fp: None, subaccount: None }
    }

    /// Decreases an order to the given number of contracts.
    pub fn reduce_to(target: i64) -> (r: Self)
        ensures
            r.reduce_by is None,
            r.reduce_to == Some(target),
            r.reduce_by_fp is None,
            r.reduce_to_fp is None,
            r.subaccount is None,
    {
        DecreaseOrderRequest { reduce_by: None, reduce_to: Some(target), reduce_by_fp: None, reduce_to_fp: None, subaccount: None }
    }
}

/// Request body for POST /portfolio/orders/batched (batch create).
#[derive(Debug, Clone)]
pub struct BatchCreateOrdersRequest {
    /// Array of orders to create (max 20).
    pub orders: Vec<CreateOrderRequest>,
}

impl BatchCreateOrdersRequest {

    /// A batch of orders, rejecting more than `MAX_BATCH_SIZE` orders.
    pub fn try_new(orders: Vec<CreateOrderRequest>) -> (r: Result<Self, Error>)
        ensures
            (match r {
                Ok(b) => orders@.len() <= MAX_BATCH_SIZE && b.orders@ == orders@,
                Err(e) => orders@.len() > MAX_BATCH_SIZE && e == Error::BatchSizeExceeded(orders@.len() as usize),
            }),
    {
        if orders.len() > MAX_BATCH_SIZE {
            return Err(Error::BatchSizeExceeded(orders.len()));
        }
        Ok(BatchCreateOrdersRequest { orders })
    }

    /// A batch of at most `MAX_BATCH_SIZE` orders.
    pub fn new(orders: Vec<CreateOrderRequest>) -> (r: Self)
        requires
            orders@.len() <= MAX_BATCH_SIZE,
        ensures
            r.orders@ == orders@,
    {
        BatchCreateOrdersRequest { orders }
    }
}

/// Result for a single order in a batch operation.
#[derive(Debug, Clone)]
pub struct BatchOrderResult {
    /// Echo of submitted client_order_id.
    pub client_order_id: Option<String>,
    /// Confirmed order details (present on success).
    pub order: Option<Order>,
    /// Error details (present on failure).
    pub error: Option<BatchOrderError>,
}

/// Error details for a failed batch order.
#[derive(Debug, Clone)]
pub struct BatchOrderError {
    pub code: String,
    pub message: String,
    pub details: Option<String>,
    pub service: Option<String>,
}

/// Response from POST /portfolio/orders/batched.
#[derive(Debug, Clone)]
pub struct BatchCreateOrdersResponse {
    pub orders: Vec<BatchOrderResult>,
}

/// A single order to cancel with optional subaccount.
#[derive(Debug, Clone)]
pub struct BatchCancelOrderItem {
    /// Order ID to cancel.
    pub order_id: String,
    /// Subaccount number (0 for primary, 1-32 for subaccounts).
    pub subaccount: Option<i32>,
}

impl BatchCancelOrderItem {
    /// Creates a new value with the given required fields; all optional fields are unset.
    pub fn new(order_id: &str) -> (r: Self)
        ensures
            r.order_id@ == order_id@,
            r.subaccount is None,
    {
        BatchCancelOrderItem { order_id: String::from_str(order_id), subaccount: None }
    }

    pub fn subaccount(self, subaccount: i32) -> (r: Self)
        ensures
            r.subaccount == Some(subaccount),
            r.order_id == self.order_id,
    {
        let mut s = self;
        s.subaccount = Some(subaccount);
        s
    }
}

/// Request body for DELETE /portfolio/orders/batched (batch cancel).
///
/// Supports two formats:
/// - Legacy: `ids` array of order ID strings
/// - New: `orders` array with per-order subaccount support
#[derive(Debug, Clone)]
pub struct BatchCancelOrdersRequest {
    /// Array of order IDs to cancel (legacy format).
    pub ids: Option<Vec<String>>,
    /// Array of orders to cancel with per-order subaccount support.
    pub orders: Option<Vec<BatchCancelOrderItem>>,
}

impl BatchCancelOrdersRequest {

    /// A batch cancel in the legacy form, by order ids, rejecting more than
    /// `MAX_BATCH_SIZE` ids. Prefer `try_with_orders`.
    pub fn try_new(ids: Vec<String>) -> (r: Result<Self, Error>)
        ensures
            (match r {
                Ok(b) => ids@.len() <= MAX_BATCH_SIZE && b.ids == Some(ids) && b.orders is None,
                Err(e) => ids@.len() > MAX_BATCH_SIZE && e == Error::BatchSizeExceeded(ids@.len() as usize),
            }),
    {
        if ids.len() > MAX_BATCH_SIZE {
            return Err(Error::BatchSizeExceeded(ids.len()));
        }
        Ok(BatchCancelOrdersRequest { ids: Some(ids), orders: None })
    }

    /// A batch cancel in the legacy form, by at most `MAX_BATCH_SIZE`
    /// order ids. Prefer `with_orders`.
    pub fn new(ids: Vec<String>) -> (r: Self)
        requires
            ids@.len() <= MAX_BATCH_SIZE,
        ensures
            r.ids == Some(ids),
            r.orders is None,
    {
        BatchCancelOrdersRequest { ids: Some(ids), orders: None }
    }

    /// A batch cancel with per-order items, rejecting more than
    /// `MAX_BATCH_SIZE` items.
    pub fn try_with_orders(orders: Vec<BatchCancelOrderItem>) -> (r: Result<Self, Error>)
        ensures
            (match r {
                Ok(b) => orders@.len() <= MAX_BATCH_SIZE && b.ids is None && b.orders == Some(orders),
                Err(e) => orders@.len() > MAX_BATCH_SIZE && e == Error::BatchSizeExceeded(orders@.len() as usize),
            }),
    {
        if orders.len() > MAX_BATCH_SIZE {
            return Err(Error::BatchSizeExceeded(orders.len()));
        }
        Ok(BatchCancelOrdersRequest { ids: None, orders: Some(orders) })
    }

    /// A batch cancel with at most `MAX_BATCH_SIZE` per-order items.
    pub fn with_orders(orders: Vec<BatchCancelOrderItem>) -> (r: Self)
        requires
            orders@.len() <= MAX_BATCH_SIZE,
        ensures
            r.ids is None,
            r.orders == Some(orders),
    {
        BatchCancelOrdersRequest { ids: None, orders: Some(orders) }
    }
}

/// Result for a single order in a batch cancel operation.
#[derive(Debug, Clone)]
pub struct BatchCancelOrderResult {
    /// Order ID.
    pub order_id: String,
    /// Number of contracts canceled.
    pub reduced_by: i64,
    /// Number of contracts canceled (fixed-point decimal string).
    pub reduced_by_fp: String,
    /// Order details after cancellation.
    pub order: Option<Order>,
    /// Error details (present on failure).
    pub error: Option<BatchOrderError>,
}

/// Response from DELETE /portfolio/orders/batched.
#[derive(Debug, Clone)]
pub struct BatchCancelOrdersResponse {
    pub orders: Vec<BatchCancelOrderResult>,
}

/// Queue position for a single order.
#[derive(Debug, Clone)]
pub struct QueuePosition {
    /// Order ID.
    pub order_id: String,
    /// Market ticker.
    pub market_ticker: String,
    /// Queue position - number of contracts ahead in the queue.
    pub queue_position: i64,
    /// Queue position (fixed-point decimal string).
    pub queue_position_fp: Option<String>,
}

/// Response from GET /portfolio/orders/queue_positions.
#[derive(Debug, Clone)]
pub struct QueuePositionsResponse {
    /// Queue positions for the requested orders.
    pub queue_positions: Vec<QueuePosition>,
}

/// Response from GET /portfolio/orders/{order_id}/queue_position.
#[derive(Debug, Clone)]
pub struct OrderQueuePositionResponse {
    /// Queue position - number of contracts ahead in the queue.
    pub queue_position: i64,
    /// Queue position (fixed-point decimal string).
    pub queue_position_fp: Option<String>,
}

/// Query parameters for GET /portfolio/orders/queue_positions.
#[derive(Debug, Clone)]
pub struct GetQueuePositionsParams {
    /// Comma-separated list of market tickers to filter by.
    pub market_tickers: Option<String>,
    /// Event ticker to filter by.
    pub event_ticker: Option<String>,
    /// Filter by subaccount number.
    pub subaccount: Option<i32>,
}

impl GetQueuePositionsParams {
    /// Parameters with nothing set.
    pub fn new() -> (r: Self)
        ensures
            r.market_tickers is None,
            r.event_ticker is None,
            r.subaccount is None,
    {
        GetQueuePositionsParams { market_tickers: None, event_ticker: None, subaccount: None }
    }

    pub fn market_tickers(self, tickers: &str) -> (r: Self)
        ensures
            opt_text(r.market_tickers) == Some(tickers@),
            r.event_ticker == self.event_ticker,
            r.subaccount == self.subaccount,
    {
        let mut s = self;
        s.market_tickers = Some(String::from_str(tickers));
        s
    }

    pub fn event_ticker(self, ticker: &str) -> (r: Self)
        ensures
            opt_text(r.event_ticker) == Some(ticker@),
            r.market_tickers == self.market_tickers,
            r.subaccount == self.subaccount,
    {
        let mut s = self;
        s.event_ticker = Some(String::from_str(ticker));
        s
    }

    pub fn subaccount(self, subaccount: i32) -> (r: Self)
        ensures
            r.subaccount == Some(subaccount),
            r.market_tickers == self.market_tickers,
            r.event_ticker == self.event_ticker,
    {
        let mut s = self;
        s.subaccount = Some(subaccount);
        s
    }

    /// The query pairs of these parameters, in the order they are sent.
    pub open spec fn query_pairs(&self) -> QueryPairs {
        (((Seq::empty() + opt_pair("market_tickers"@, opt_text(self.market_tickers))) + opt_pair("event_ticker"@, opt_text(self.event_ticker))) + opt_pair("subaccount"@, opt_i32_text(self.subaccount)))
    }

    /// The URL query string (`?` and the encoded pairs; empty when no pair is set).
    pub fn to_query_string(&self) -> (s: String)
        ensures
            s@ == query_string(self.query_pairs()),
    {
        let mut qb = QueryBuilder::new();
        qb.push_opt_str("market_tickers", &self.market_tickers);
        qb.push_opt_str("event_ticker", &self.event_ticker);
        qb.push_opt_i32("subaccount", self.subaccount);
        qb.build()
    }
}

impl Default for GetQueuePositionsParams {
    fn default() -> (r: Self)
        ensures
            r.market_tickers is None,
            r.event_ticker is None,
            r.subaccount is None,
    {
        Self::new()
    }
}


/// Each parameter of `GetOrdersParams` is sent under its own name with its own
/// value, and a parameter that is not set is not sent.
pub proof fn law_get_orders_params_query_fields(p: GetOrdersParams)
    ensures
        query_value(p.query_pairs(), "ticker"@) == opt_text(p.ticker),
        query_value(p.query_pairs(), "event_ticker"@) == opt_text(p.event_ticker),
        query_value(p.query_pairs(), "min_ts"@) == opt_i64_text(p.min_ts),
        query_value(p.query_pairs(), "max_ts"@) == opt_i64_text(p.max_ts),
        query_value(p.query_pairs(), "status"@) == OrderStatus::opt_wire(p.status),
        query_value(p.query_pairs(), "limit"@) == opt_i64_text(p.limit),
        query_value(p.query_pairs(), "cursor"@) == opt_text(p.cursor),
        query_value(p.query_pairs(), "subaccount"@) == opt_i32_text(p.subaccount),
{
    broadcast use group_query_value;
    reveal_strlit("ticker");
    reveal_strlit("event_ticker");
    reveal_strlit("min_ts");
    reveal_strlit("max_ts");
    reveal_strlit("status");
    reveal_strlit("limit");
    reveal_strlit("cursor");
    reveal_strlit("subaccount");
    assert("ticker"@.len() == 6);
    assert("event_ticker"@.len() == 12);
    assert("min_ts"@.len() == 6);
    assert("max_ts"@.len() == 6);
    assert("status"@.len() == 6);
    assert("limit"@.len() == 5);
    assert("cursor"@.len() == 6);
    assert("subaccount"@.len() == 10);
    assert("min_ts"@[0] != "ticker"@[0]);
    assert("max_ts"@[0] != "ticker"@[0]);
    assert("max_ts"@[1] != "min_ts"@[1]);
    assert("status"@[0] != "ticker"@[0]);
    assert("status"@[0] != "min_ts"@[0]);
    assert("status"@[0] != "max_ts"@[0]);
    assert("cursor"@[0] != "ticker"@[0]);
    assert("cursor"@[0] != "min_ts"@[0]);
    assert("cursor"@[0] != "max_ts"@[0]);
    assert("cursor"@[0] != "status"@[0]);
}

/// Each parameter of `GetQueuePositionsParams` is sent under its own name with its own
/// value, and a parameter that is not set is not sent.
pub proof fn law_get_queue_positions_params_query_fields(p: GetQueuePositionsParams)
    ensures
        query_value(p.query_pairs(), "market_tickers"@) == opt_text(p.market_tickers),
        query_value(p.query_pairs(), "event_ticker"@) == opt_text(p.event_ticker),
        query_value(p.query_pairs(), "subaccount"@) == opt_i32_text(p.subaccount),
{
    broadcast use group_query_value;
    reveal_strlit("market_tickers");
    reveal_strlit("event_ticker");
    reveal_strlit("subaccount");
    assert("market_tickers"@.len() == 14);
    assert("event_ticker"@.len() == 12);
    assert("subaccount"@.len() == 10);

}

} // verus!
