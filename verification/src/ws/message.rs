//! Messages received on the streaming connection.

use vstd::prelude::*;
use crate::ws::channel::Channel;
use crate::models::common::{Action, OrderStatus, OrderType, Side};
use crate::text::str_equals;

verus! {

/// Order group event types.
#[derive(Debug, Clone, Copy, PartialEq, Eq, Structural)]
pub enum OrderGroupEventType {
    Created,
    Triggered,
    Reset,
    Deleted,
    LimitUpdated,
}

/// Order group update data for order group lifecycle events.
#[derive(Debug, Clone)]
pub struct OrderGroupUpdateData {
    /// The order group identifier.
    pub order_group_id: String,
    /// Type of order group event.
    pub event_type: OrderGroupEventType,
    /// Contracts limit (fixed-point decimal string), present on limit updates.
    pub contracts_limit_fp: Option<String>,
}

/// User order event types.
#[derive(Debug, Clone, Copy, PartialEq, Eq, Structural)]
pub enum UserOrderEventType {
    /// A new order was created.
    Created,
    /// An existing order was amended/updated.
    Updated,
    /// An order was canceled.
    Canceled,
    /// An order was fully executed/filled.
    Executed,
    /// Unknown event type (forward compatibility).
    Unknown,
}

/// User order data for real-time order update notifications.
#[derive(Debug, Clone)]
pub struct UserOrderData {
    /// The order identifier.
    pub order_id: String,
    /// User identifier (spec-required).
    pub user_id: String,
    /// Market ticker identifier (spec-required).
    pub ticker: String,
    /// Order status (resting, canceled, executed; spec-required).
    pub status: OrderStatus,
    /// Side of the order (spec-required).
    pub side: Side,
    /// Whether the order is on the yes side (spec-required).
    pub is_yes: bool,
    /// Price in fixed-point dollars (spec-required).
    pub yes_price_dollars: String,
    /// Fill count (fixed-point decimal string, spec-required).
    pub fill_count_fp: String,
    /// Remaining count (fixed-point decimal string, spec-required).
    pub remaining_count_fp: String,
    /// Initial count (fixed-point decimal string, spec-required).
    pub initial_count_fp: String,
    /// Taker fill cost in fixed-point dollars (spec-required).
    pub taker_fill_cost_dollars: String,
    /// Maker fill cost in fixed-point dollars (spec-required).
    pub maker_fill_cost_dollars: String,
    /// Taker fees in fixed-point dollars (spec-required).
    pub taker_fees_dollars: String,
    /// Maker fees in fixed-point dollars (spec-required).
    pub maker_fees_dollars: String,
    /// Client-provided order identifier (spec-required).
    pub client_order_id: String,
    /// Order creation timestamp (ISO 8601, spec-required).
    pub created_time: String,
    /// The type of event (created, updated, canceled, executed; not in v2 spec).
    pub event_type: Option<UserOrderEventType>,
    /// Action type (buy or sell; not in v2 spec).
    pub action: Option<Action>,
    /// Order type (limit, market; not in v2 spec).
    pub order_type: Option<OrderType>,
    /// Price in fixed-point dollars (legacy, not in v2 spec).
    pub no_price_dollars: Option<String>,
    /// Last update timestamp (ISO 8601).
    pub last_update_time: Option<String>,
    /// Order expiration timestamp (ISO 8601).
    pub expiration_time: Option<String>,
    /// Order group this order belongs to.
    pub order_group_id: Option<String>,
    /// Subaccount number (0 for primary, 1-32 for subaccounts).
    pub subaccount_number: Option<i32>,
    /// Self-trade prevention type.
    pub self_trade_prevention_type: Option<String>,
}

/// Market lifecycle event types.
#[derive(Debug, Clone, Copy, PartialEq, Eq, Structural)]
pub enum MarketLifecycleEventType {
    Created,
    Activated,
    Deactivated,
    CloseDateUpdated,
    Determined,
    Settled,
}

/// Ticker data containing market price and volume information.
#[derive(Debug, Clone)]
pub struct TickerData {
    /// Market ticker identifier.
    pub market_ticker: String,
    /// Market UUID identifier.
    pub market_id: String,
    /// Price formatted in dollars (spec-required).
    pub price_dollars: String,
    /// Yes bid in dollars (spec-required).
    pub yes_bid_dollars: String,
    /// Yes ask in dollars (spec-required).
    pub yes_ask_dollars: String,
    /// Volume (fixed-point decimal string, spec-required).
    pub volume_fp: String,
    /// Open interest (fixed-point decimal string, spec-required).
    pub open_interest_fp: String,
    /// Number of dollars traded in the market so far.
    pub dollar_volume: i64,
    /// Number of dollars positioned in the market currently.
    pub dollar_open_interest: i64,
    /// Unix timestamp for when the update happened (in seconds).
    pub ts: i64,
    /// High-precision timestamp (ISO 8601, spec-required).
    pub time: String,
    /// No bid in dollars.
    pub no_bid_dollars: Option<String>,
    /// Contracts at best yes bid (fixed-point decimal string).
    pub yes_bid_size_fp: Option<String>,
    /// Contracts at best yes ask (fixed-point decimal string).
    pub yes_ask_size_fp: Option<String>,
    /// Contracts at best bid (fixed-point decimal string).
    pub bid_size_fp: Option<String>,
    /// Contracts at best ask (fixed-point decimal string).
    pub ask_size_fp: Option<String>,
    /// Contracts in most recent trade (fixed-point decimal string).
    pub last_trade_size_fp: Option<String>,
}

/// Trade data for public trade notifications.
#[derive(Debug, Clone)]
pub struct TradeData {
    /// Unique identifier for the trade (spec-required).
    pub trade_id: String,
    /// Market ticker identifier.
    pub market_ticker: String,
    /// Yes price formatted in dollars (spec-required).
    pub yes_price_dollars: String,
    /// No price formatted in dollars (spec-required).
    pub no_price_dollars: String,
    /// Count (fixed-point decimal string, spec-required).
    pub count_fp: String,
    /// Side that took liquidity.
    pub taker_side: Side,
    /// Unix timestamp in seconds.
    pub ts: i64,
}

/// Fill data for user order fill notifications.
#[derive(Debug, Clone)]
pub struct FillData {
    /// Unique identifier for this fill.
    pub trade_id: String,
    /// Order ID that was filled.
    pub order_id: String,
    /// Market ticker identifier.
    pub market_ticker: String,
    /// Whether the user was a taker.
    pub is_taker: bool,
    /// Side of the fill.
    pub side: Side,
    /// Price formatted in dollars (spec-required).
    pub yes_price_dollars: String,
    /// Count (fixed-point decimal string, spec-required).
    pub count_fp: String,
    /// Exchange fee cost as a fixed-point dollar string (spec-required).
    pub fee_cost: String,
    /// Action type (buy or sell).
    pub action: Action,
    /// Unix timestamp in seconds.
    pub ts: i64,
    /// Position after this fill (fixed-point decimal string, spec-required).
    pub post_position_fp: String,
    /// Side that was purchased (spec-required).
    pub purchased_side: Side,
    /// Client-provided order ID.
    pub client_order_id: Option<String>,
    /// Subaccount number for the fill.
    pub subaccount: Option<i32>,
}

/// Market position data for user position updates.
#[derive(Debug, Clone)]
pub struct MarketPositionData {
    /// User identifier (spec-required).
    pub user_id: String,
    /// Market ticker identifier (spec-required).
    pub market_ticker: String,
    /// Position (fixed-point decimal string, spec-required).
    pub position_fp: String,
    /// Position cost in centi-cents (1/10,000th of a dollar).
    pub position_cost: i64,
    /// Position cost in fixed-point dollars (spec-required).
    pub position_cost_dollars: String,
    /// Realized profit/loss in centi-cents.
    pub realized_pnl: i64,
    /// Realized PnL in fixed-point dollars (spec-required).
    pub realized_pnl_dollars: String,
    /// Total fees paid in centi-cents.
    pub fees_paid: i64,
    /// Fees paid in fixed-point dollars (spec-required).
    pub fees_paid_dollars: String,
    /// Position fee cost in centi-cents.
    pub position_fee_cost: i64,
    /// Position fee cost in fixed-point dollars (spec-required).
    pub position_fee_cost_dollars: String,
    /// Volume (fixed-point decimal string, spec-required).
    pub volume_fp: String,
    /// Subaccount number for the position.
    pub subaccount: Option<i32>,
}

/// Collateral return type for event lifecycle events.
#[derive(Debug, Clone, Copy, PartialEq, Eq, Structural)]
pub enum CollateralReturnType {
    /// Mechanical net collateral return.
    Mecnet,
    /// Direct net collateral return.
    Direcnet,
    /// No collateral return type specified (the API sends an empty string).
    Empty,
}

/// Event lifecycle data for event state change notifications.
#[derive(Debug, Clone)]
pub struct EventLifecycleData {
    /// Event ticker identifier.
    pub event_ticker: String,
    /// Event title.
    pub title: String,
    /// Event subtitle.
    pub subtitle: String,
    /// Collateral return type.
    pub collateral_return_type: CollateralReturnType,
    /// Series ticker this event belongs to.
    pub series_ticker: String,
    /// Strike date as a Unix timestamp.
    pub strike_date: Option<i64>,
    /// Strike period descriptor.
    pub strike_period: Option<String>,
}

/// Leg definition for multivariate RFQs and lookups.
#[derive(Debug, Clone)]
pub struct MveLeg {
    /// Event ticker (spec-required).
    pub event_ticker: String,
    /// Market ticker (spec-required).
    pub market_ticker: String,
    /// Side of the leg (spec-required).
    pub side: Side,
    /// Yes settlement value in dollars for the selected leg.
    pub yes_settlement_value_dollars: Option<String>,
}

/// Multivariate lookup notification data.
///
/// Sent when a multivariate collection is referenced or looked up.
#[derive(Debug, Clone)]
pub struct MultivariateLookupData {
    /// Collection ticker identifier.
    pub collection_ticker: String,
    /// Event ticker identifier.
    pub event_ticker: String,
    /// Market ticker identifier.
    pub market_ticker: String,
    /// Selected markets in this multivariate lookup.
    pub selected_markets: Vec<MveLeg>,
}

/// RFQ (Request for Quote) data.
#[derive(Debug, Clone)]
pub struct RfqData {
    /// Unique RFQ identifier.
    pub id: String,
    /// Anonymized creator ID.
    pub creator_id: String,
    /// Market ticker.
    pub market_ticker: String,
    /// Creation timestamp (ISO 8601).
    pub created_ts: String,
    /// Event ticker.
    pub event_ticker: Option<String>,
    /// Target cost in dollars.
    pub target_cost_dollars: Option<String>,
    /// Multivariate collection ticker.
    pub mve_collection_ticker: Option<String>,
    /// Multivariate selected legs.
    pub mve_selected_legs: Option<Vec<MveLeg>>,
    /// Number of contracts (fixed-point decimal string).
    pub contracts_fp: Option<String>,
}

/// RFQ deleted event data.
#[derive(Debug, Clone)]
pub struct RfqDeletedData {
    /// Unique RFQ identifier.
    pub id: String,
    /// Anonymized creator ID.
    pub creator_id: String,
    /// Market ticker.
    pub market_ticker: String,
    /// Deletion timestamp (ISO 8601).
    pub deleted_ts: String,
    /// Event ticker.
    pub event_ticker: Option<String>,
    /// Target cost in dollars.
    pub target_cost_dollars: Option<String>,
    /// Number of contracts (fixed-point decimal string).
    pub contracts_fp: Option<String>,
}

/// Quote data for quote created events.
#[derive(Debug, Clone)]
pub struct QuoteData {
    /// Unique quote identifier.
    pub quote_id: String,
    /// Associated RFQ identifier.
    pub rfq_id: String,
    /// Anonymized quote creator ID (spec-required).
    pub quote_creator_id: String,
    /// Market ticker.
    pub market_ticker: String,
    /// Yes bid in dollars (spec-required).
    pub yes_bid_dollars: String,
    /// No bid in dollars (spec-required).
    pub no_bid_dollars: String,
    /// Creation timestamp (ISO 8601).
    pub created_ts: String,
    /// Anonymized RFQ creator ID (not in spec for quote_created).
    pub rfq_creator_id: Option<String>,
    /// Event ticker.
    pub event_ticker: Option<String>,
    /// RFQ target cost in dollars.
    pub rfq_target_cost_dollars: Option<String>,
    /// Yes contracts offered (fixed-point decimal string).
    pub yes_contracts_offered_fp: Option<String>,
    /// No contracts offered (fixed-point decimal string).
    pub no_contracts_offered_fp: Option<String>,
}

/// Quote accepted event data.
#[derive(Debug, Clone)]
pub struct QuoteAcceptedData {
    /// Unique quote identifier.
    pub quote_id: String,
    /// Associated RFQ identifier.
    pub rfq_id: String,
    /// Anonymized quote creator ID (spec-required).
    pub quote_creator_id: String,
    /// Market ticker.
    pub market_ticker: String,
    /// Yes bid in dollars (spec-required).
    pub yes_bid_dollars: String,
    /// No bid in dollars (spec-required).
    pub no_bid_dollars: String,
    /// Acceptance timestamp (ISO 8601), if provided by the API.
    pub accepted_ts: Option<String>,
    /// Anonymized RFQ creator ID (not in spec for quote_accepted).
    pub rfq_creator_id: Option<String>,
    /// Event ticker.
    pub event_ticker: Option<String>,
    /// RFQ target cost in dollars (spec-optional for quote_accepted).
    pub rfq_target_cost_dollars: Option<String>,
    /// Side that was accepted.
    pub accepted_side: Option<Side>,
    /// Contracts accepted (fixed-point decimal string).
    pub contracts_accepted_fp: Option<String>,
    /// Yes contracts offered (fixed-point decimal string).
    pub yes_contracts_offered_fp: Option<String>,
    /// No contracts offered (fixed-point decimal string).
    pub no_contracts_offered_fp: Option<String>,
}

/// Quote executed event data.
#[derive(Debug, Clone)]
pub struct QuoteExecutedData {
    /// Unique quote identifier.
    pub quote_id: String,
    /// Associated RFQ identifier.
    pub rfq_id: String,
    /// Anonymized quote creator ID (spec-required).
    pub quote_creator_id: String,
    /// Anonymized RFQ creator ID (spec-required).
    pub rfq_creator_id: String,
    /// Order ID resulting from the execution (spec-required).
    pub order_id: String,
    /// Client-specified order ID (spec-required).
    pub client_order_id: String,
    /// Market ticker (spec-required).
    pub market_ticker: String,
    /// Execution timestamp (ISO 8601, spec-required).
    pub executed_ts: String,
}


/// One price level of a snapshot: `[price_cents, quantity]`.
pub type PriceLevel = [i64; 2];

/// Orderbook snapshot data containing the full orderbook state.
#[derive(Debug, Clone)]
pub struct OrderbookSnapshotData {
    /// Market ticker identifier.
    pub market_ticker: String,
    /// Market UUID identifier.
    pub market_id: String,
    /// YES side price levels: `[price_cents, quantity]`.
    pub yes: Option<Vec<PriceLevel>>,
    /// YES side price levels in dollars: `(price_dollars, quantity)`.
    pub yes_dollars: Option<Vec<(String, String)>>,
    /// NO side price levels: `[price_cents, quantity]`.
    pub no: Option<Vec<PriceLevel>>,
    /// NO side price levels in dollars: `(price_dollars, quantity)`.
    pub no_dollars: Option<Vec<(String, String)>>,
    /// YES side price levels in dollars: `(price_dollars, count_fp)`.
    pub yes_dollars_fp: Option<Vec<(String, String)>>,
    /// NO side price levels in dollars: `(price_dollars, count_fp)`.
    pub no_dollars_fp: Option<Vec<(String, String)>>,
}

/// Orderbook delta data representing an incremental update.
#[derive(Debug, Clone)]
pub struct OrderbookDeltaData {
    /// Market ticker identifier.
    pub market_ticker: String,
    /// Market UUID identifier.
    pub market_id: String,
    /// Price level in cents.
    pub price: i64,
    /// Change in quantity at that level (positive or negative).
    pub delta: i64,
    /// Side of the orderbook being updated.
    pub side: Side,
    /// Price in dollar format.
    pub price_dollars: Option<String>,
    /// Delta as a fixed-point decimal string.
    pub delta_fp: Option<String>,
    /// Client order ID if the subscriber triggered this change.
    pub client_order_id: Option<String>,
    /// Subaccount number if the subscriber triggered this change.
    pub subaccount: Option<i32>,
    /// Timestamp for when the orderbook change was recorded (RFC3339).
    pub ts: Option<String>,
}

impl OrderbookDeltaData {
    /// The price level of this change, in cents.
    pub fn price_cents(&self) -> (p: i64)
        ensures
            p == self.price,
    {
        self.price
    }

    /// The change in quantity.
    pub fn delta_quantity(&self) -> (d: i64)
        ensures
            d == self.delta,
    {
        self.delta
    }
}

/// RFQ and quote communications, tagged by their `type`.
#[derive(Debug, Clone)]
pub enum CommunicationData {
    /// A request for quote was created.
    RfqCreated(RfqData),
    /// A request for quote was deleted.
    RfqDeleted(RfqDeletedData),
    /// A quote was created.
    QuoteCreated(QuoteData),
    /// A quote was accepted.
    QuoteAccepted(QuoteAcceptedData),
    /// A quote was executed.
    QuoteExecuted(QuoteExecutedData),
}

/// The payload that an update carries, chosen by the update's type.
#[derive(Debug, Clone, Copy, PartialEq, Eq, Structural)]
pub enum MessageKind {
    /// `orderbook_snapshot`
    OrderbookSnapshot,
    /// `orderbook_delta`
    OrderbookDelta,
    /// `ticker`
    Ticker,
    /// `trade`
    Trade,
    /// `fill`
    Fill,
    /// `market_position` or `market_positions`
    MarketPosition,
    /// `market_lifecycle` or `market_lifecycle_v2`
    MarketLifecycle,
    /// `event_lifecycle`
    EventLifecycle,
    /// `communication` or `communications`: a communication tagged inside
    /// the payload.
    Communication,
    /// `rfq_created`
    RfqCreated,
    /// `rfq_deleted`
    RfqDeleted,
    /// `quote_created`
    QuoteCreated,
    /// `quote_accepted`
    QuoteAccepted,
    /// `quote_executed`
    QuoteExecuted,
    /// `order_group_updates`
    OrderGroupUpdate,
    /// `user_order` or `user_orders`
    UserOrder,
    /// `multivariate_lookup`
    MultivariateLookup,
    /// Any other type: the payload's shape decides.
    Untagged,
}

/// The payload kind of an update of type `t`.
pub open spec fn kind_of(t: Seq<char>) -> MessageKind {
    if t == "orderbook_snapshot"@ {
        MessageKind::OrderbookSnapshot
    } else if t == "orderbook_delta"@ {
        MessageKind::OrderbookDelta
    } else if t == "ticker"@ {
        MessageKind::Ticker
    } else if t == "trade"@ {
        MessageKind::Trade
    } else if t == "fill"@ {
        MessageKind::Fill
    } else if t == "market_position"@ || t == "market_positions"@ {
        MessageKind::MarketPosition
    } else if t == "market_lifecycle"@ || t == "market_lifecycle_v2"@ {
        MessageKind::MarketLifecycle
    } else if t == "event_lifecycle"@ {
        MessageKind::EventLifecycle
    } else if t == "communication"@ || t == "communications"@ {
        MessageKind::Communication
    } else if t == "rfq_created"@ {
        MessageKind::RfqCreated
    } else if t == "rfq_deleted"@ {
        MessageKind::RfqDeleted
    } else if t == "quote_created"@ {
        MessageKind::QuoteCreated
    } else if t == "quote_accepted"@ {
        MessageKind::QuoteAccepted
    } else if t == "quote_executed"@ {
        MessageKind::QuoteExecuted
    } else if t == "order_group_updates"@ {
        MessageKind::OrderGroupUpdate
    } else if t == "user_order"@ || t == "user_orders"@ {
        MessageKind::UserOrder
    } else if t == "multivariate_lookup"@ {
        MessageKind::MultivariateLookup
    } else {
        MessageKind::Untagged
    }
}

/// The payload kind of an update, routed by its `type` field.
pub fn message_kind(msg_type: &str) -> (k: MessageKind)
    ensures
        k == kind_of(msg_type@),
{
    if str_equals(msg_type, "orderbook_snapshot") {
        MessageKind::OrderbookSnapshot
    } else if str_equals(msg_type, "orderbook_delta") {
        MessageKind::OrderbookDelta
    } else if str_equals(msg_type, "ticker") {
        MessageKind::Ticker
    } else if str_equals(msg_type, "trade") {
        MessageKind::Trade
    } else if str_equals(msg_type, "fill") {
        MessageKind::Fill
    } else if str_equals(msg_type, "market_position") || str_equals(msg_type, "market_positions") {
        MessageKind::MarketPosition
    } else if str_equals(msg_type, "market_lifecycle") || str_equals(msg_type, "market_lifecycle_v2") {
        MessageKind::MarketLifecycle
    } else if str_equals(msg_type, "event_lifecycle") {
        MessageKind::EventLifecycle
    } else if str_equals(msg_type, "communication") || str_equals(msg_type, "communications") {
        MessageKind::Communication
    } else if str_equals(msg_type, "rfq_created") {
        MessageKind::RfqCreated
    } else if str_equals(msg_type, "rfq_deleted") {
        MessageKind::RfqDeleted
    } else if str_equals(msg_type, "quote_created") {
        MessageKind::QuoteCreated
    } else if str_equals(msg_type, "quote_accepted") {
        MessageKind::QuoteAccepted
    } else if str_equals(msg_type, "quote_executed") {
        MessageKind::QuoteExecuted
    } else if str_equals(msg_type, "order_group_updates") {
        MessageKind::OrderGroupUpdate
    } else if str_equals(msg_type, "user_order") || str_equals(msg_type, "user_orders") {
        MessageKind::UserOrder
    } else if str_equals(msg_type, "multivariate_lookup") {
        MessageKind::MultivariateLookup
    } else {
        MessageKind::Untagged
    }
}

/// Each update type names its own payload kind: a kind is given exactly
/// to the types that name it (a public trade is read as a trade, a ticker
/// update as a ticker, and so on), and every other type is left to the
/// payload's shape.
pub proof fn law_each_type_names_its_kind(t: Seq<char>)
    ensures
        (kind_of(t) == MessageKind::OrderbookSnapshot) <==> (t == "orderbook_snapshot"@),
        (kind_of(t) == MessageKind::OrderbookDelta) <==> (t == "orderbook_delta"@),
        (kind_of(t) == MessageKind::Ticker) <==> (t == "ticker"@),
        (kind_of(t) == MessageKind::Trade) <==> (t == "trade"@),
        (kind_of(t) == MessageKind::Fill) <==> (t == "fill"@),
        (kind_of(t) == MessageKind::MarketPosition) <==> (t == "market_position"@ || t == "market_positions"@),
        (kind_of(t) == MessageKind::MarketLifecycle) <==> (t == "market_lifecycle"@ || t == "market_lifecycle_v2"@),
        (kind_of(t) == MessageKind::EventLifecycle) <==> (t == "event_lifecycle"@),
        (kind_of(t) == MessageKind::Communication) <==> (t == "communication"@ || t == "communications"@),
        (kind_of(t) == MessageKind::RfqCreated) <==> (t == "rfq_created"@),
        (kind_of(t) == MessageKind::RfqDeleted) <==> (t == "rfq_deleted"@),
        (kind_of(t) == MessageKind::QuoteCreated) <==> (t == "quote_created"@),
        (kind_of(t) == MessageKind::QuoteAccepted) <==> (t == "quote_accepted"@),
        (kind_of(t) == MessageKind::QuoteExecuted) <==> (t == "quote_executed"@),
        (kind_of(t) == MessageKind::OrderGroupUpdate) <==> (t == "order_group_updates"@),
        (kind_of(t) == MessageKind::UserOrder) <==> (t == "user_order"@ || t == "user_orders"@),
        (kind_of(t) == MessageKind::MultivariateLookup) <==> (t == "multivariate_lookup"@),
        (kind_of(t) == MessageKind::Untagged) <==> !(t == "orderbook_snapshot"@ || t == "orderbook_delta"@ || t == "ticker"@ || t == "trade"@ || t == "fill"@ || t == "market_position"@ || t == "market_positions"@ || t == "market_lifecycle"@ || t == "market_lifecycle_v2"@ || t == "event_lifecycle"@ || t == "communication"@ || t == "communications"@ || t == "rfq_created"@ || t == "rfq_deleted"@ || t == "quote_created"@ || t == "quote_accepted"@ || t == "quote_executed"@ || t == "order_group_updates"@ || t == "user_order"@ || t == "user_orders"@ || t == "multivariate_lookup"@),
{
    reveal_strlit("orderbook_snapshot");
    reveal_strlit("orderbook_delta");
    reveal_strlit("ticker");
    reveal_strlit("trade");
    reveal_strlit("fill");
    reveal_strlit("market_position");
    reveal_strlit("market_positions");
    reveal_strlit("market_lifecycle");
    reveal_strlit("market_lifecycle_v2");
    reveal_strlit("event_lifecycle");
    reveal_strlit("communication");
    reveal_strlit("communications");
    reveal_strlit("rfq_created");
    reveal_strlit("rfq_deleted");
    reveal_strlit("quote_created");
    reveal_strlit("quote_accepted");
    reveal_strlit("quote_executed");
    reveal_strlit("order_group_updates");
    reveal_strlit("user_order");
    reveal_strlit("user_orders");
    reveal_strlit("multivariate_lookup");
    assert("orderbook_snapshot"@.len() == 18);
    assert("orderbook_delta"@.len() == 15);
    assert("ticker"@.len() == 6);
    assert("trade"@.len() == 5);
    assert("fill"@.len() == 4);
    assert("market_position"@.len() == 15);
    assert("market_positions"@.len() == 16);
    assert("market_lifecycle"@.len() == 16);
    assert("market_lifecycle_v2"@.len() == 19);
    assert("event_lifecycle"@.len() == 15);
    assert("communication"@.len() == 13);
    assert("communications"@.len() == 14);
    assert("rfq_created"@.len() == 11);
    assert("rfq_deleted"@.len() == 11);
    assert("quote_created"@.len() == 13);
    assert("quote_accepted"@.len() == 14);
    assert("quote_executed"@.len() == 14);
    assert("order_group_updates"@.len() == 19);
    assert("user_order"@.len() == 10);
    assert("user_orders"@.len() == 11);
    assert("multivariate_lookup"@.len() == 19);
    assert("market_position"@[0] != "orderbook_delta"@[0]);
    assert("market_lifecycle"@[7] != "market_positions"@[7]);
    assert("event_lifecycle"@[0] != "orderbook_delta"@[0]);
    assert("event_lifecycle"@[0] != "market_position"@[0]);
    assert("rfq_deleted"@[4] != "rfq_created"@[4]);
    assert("quote_created"@[0] != "communication"@[0]);
    assert("quote_accepted"@[0] != "communications"@[0]);
    assert("quote_executed"@[0] != "communications"@[0]);
    assert("quote_executed"@[6] != "quote_accepted"@[6]);
    assert("order_group_updates"@[0] != "market_lifecycle_v2"@[0]);
    assert("user_orders"@[0] != "rfq_created"@[0]);
    assert("user_orders"@[0] != "rfq_deleted"@[0]);
    assert("multivariate_lookup"@[1] != "market_lifecycle_v2"@[1]);
    assert("multivariate_lookup"@[0] != "order_group_updates"@[0]);
}

/// The updates of each channel are read as that channel's payload.
pub proof fn law_channel_updates_read_as_their_kind(c: Channel)
    ensures
        c == Channel::OrderbookDelta ==> kind_of(c.wire_name()) == MessageKind::OrderbookDelta,
        c == Channel::Ticker ==> kind_of(c.wire_name()) == MessageKind::Ticker,
        c == Channel::Trade ==> kind_of(c.wire_name()) == MessageKind::Trade,
        c == Channel::Fill ==> kind_of(c.wire_name()) == MessageKind::Fill,
        c == Channel::MarketPositions ==> kind_of(c.wire_name()) == MessageKind::MarketPosition,
        c == Channel::Communications ==> kind_of(c.wire_name()) == MessageKind::Communication,
        c == Channel::MarketLifecycle ==> kind_of(c.wire_name()) == MessageKind::MarketLifecycle,
{
    law_each_type_names_its_kind(c.wire_name());
}

} // verus!
