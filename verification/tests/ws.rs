use kalshi_trade_rs::error::Error;
use kalshi_trade_rs::ws::channel::Channel;
use kalshi_trade_rs::ws::client::{
    subscribe_outcome, SubscribePlan, SubscriptionTable, UnsubscribePlan, DEFAULT_BUFFER_SIZE,
};
use kalshi_trade_rs::ws::command::{
    ChannelError, ChannelSubscription, CommunicationsSharding, SubscribeResult, UnsubscribeResult,
    UpdateAction,
};
use kalshi_trade_rs::ws::message::{message_kind, MessageKind};
use kalshi_trade_rs::ws::protocol::{
    build_list_subscriptions, build_subscribe, build_unsubscribe, build_update_subscription,
    parse_incoming, ErrorPayload, IncomingMessage, RawMessage,
};
use kalshi_trade_rs::ws::session::{
    backoff_millis, ErrorStep, PendingRequests, ResponseFields, ResponseStep,
};
use kalshi_trade_rs::json::{Json, JsonNumber};
use kalshi_trade_rs::ws::protocol::read_error_details;
use kalshi_trade_rs::ws::session::{extract_sids, read_response_fields};
use serde_json::Value as JsonValue;

fn strings(items: &[&str]) -> JsonValue {
    JsonValue::Array(items.iter().map(|s| JsonValue::from(*s)).collect())
}

fn ints(items: &[i64]) -> JsonValue {
    JsonValue::Array(items.iter().map(|n| JsonValue::from(*n)).collect())
}

fn parse(text: &str) -> JsonValue {
    serde_json::from_str(text).unwrap()
}

fn to_json(v: JsonValue) -> Json {
    match v {
        JsonValue::Null => Json::Null,
        JsonValue::Bool(b) => Json::Bool(b),
        JsonValue::Number(n) => Json::Number(JsonNumber {
            text: n.to_string(),
            as_u64: n.as_u64(),
            as_i64: n.as_i64(),
        }),
        JsonValue::String(s) => Json::String(s),
        JsonValue::Array(items) => Json::Array(items.into_iter().map(to_json).collect()),
        JsonValue::Object(members) => {
            Json::Object(members.into_iter().map(|(k, v)| (k, to_json(v))).collect())
        }
    }
}

fn from_json(j: &Json) -> JsonValue {
    match j {
        Json::Null => JsonValue::Null,
        Json::Bool(b) => JsonValue::Bool(*b),
        Json::Number(n) => parse(&n.text),
        Json::String(s) => JsonValue::String(s.clone()),
        Json::Array(items) => JsonValue::Array(items.iter().map(from_json).collect()),
        Json::Object(members) => {
            JsonValue::Object(members.iter().map(|(k, v)| (k.clone(), from_json(v))).collect())
        }
    }
}

fn parse_json(text: &str) -> Json {
    to_json(parse(text))
}

fn member_i64(j: &Json, key: &str) -> Option<i64> {
    j.get(key).and_then(|v| v.as_i64())
}

#[test]
fn test_default_buffer_size() {
    assert_eq!(DEFAULT_BUFFER_SIZE, 1024);
}

#[test]
fn test_communications_sharding_new() {
    let sharding = CommunicationsSharding::new(4, 2);
    assert_eq!(sharding.shard_factor, Some(4));
    assert_eq!(sharding.shard_key, Some(2));
}

#[test]
fn test_communications_sharding_default() {
    let sharding = CommunicationsSharding::default();
    assert_eq!(sharding.shard_factor, None);
    assert_eq!(sharding.shard_key, None);
}

#[test]
fn test_build_subscribe_single_ticker() {
    let result = build_subscribe(1, &[Channel::OrderbookDelta], &["AAPL-YES"], &[], None, None, None);
    let parsed = parse(&result);

    assert_eq!(parsed["id"], 1);
    assert_eq!(parsed["cmd"], "subscribe");
    assert_eq!(parsed["params"]["channels"], strings(&["orderbook_delta"]));
    assert_eq!(parsed["params"]["market_ticker"], "AAPL-YES");
    assert!(parsed["params"].get("market_tickers").is_none());
}

#[test]
fn test_build_subscribe_multiple_tickers() {
    let result = build_subscribe(
        2,
        &[Channel::OrderbookDelta, Channel::Ticker],
        &["AAPL-YES", "GOOG-NO"],
        &[],
        None,
        None,
        None,
    );
    let parsed = parse(&result);

    assert_eq!(parsed["id"], 2);
    assert_eq!(parsed["cmd"], "subscribe");
    assert_eq!(parsed["params"]["channels"], strings(&["orderbook_delta", "ticker"]));
    assert_eq!(parsed["params"]["market_tickers"], strings(&["AAPL-YES", "GOOG-NO"]));
    assert!(parsed["params"].get("market_ticker").is_none());
}

#[test]
fn test_build_subscribe_no_tickers() {
    let result = build_subscribe(3, &[Channel::Ticker], &[], &[], None, None, None);
    let parsed = parse(&result);

    assert_eq!(parsed["id"], 3);
    assert_eq!(parsed["cmd"], "subscribe");
    assert_eq!(parsed["params"]["channels"], strings(&["ticker"]));
    assert!(parsed["params"].get("market_ticker").is_none());
    assert!(parsed["params"].get("market_tickers").is_none());
}

#[test]
fn test_build_subscribe_all_channels() {
    let result = build_subscribe(
        3,
        &[Channel::OrderbookDelta, Channel::Ticker, Channel::Trade, Channel::Fill],
        &["TEST"],
        &[],
        None,
        None,
        None,
    );
    let parsed = parse(&result);
    assert_eq!(parsed["params"]["channels"], strings(&["orderbook_delta", "ticker", "trade", "fill"]));
}

#[test]
fn test_build_subscribe_with_sharding() {
    let sharding = CommunicationsSharding::new(4, 2);
    let result = build_subscribe(5, &[Channel::Communications], &[], &[], Some(&sharding), None, None);
    let parsed = parse(&result);

    assert_eq!(parsed["id"], 5);
    assert_eq!(parsed["cmd"], "subscribe");
    assert_eq!(parsed["params"]["channels"], strings(&["communications"]));
    assert_eq!(parsed["params"]["shard_factor"], 4);
    assert_eq!(parsed["params"]["shard_key"], 2);
}

#[test]
fn test_build_subscribe_with_skip_ticker_ack() {
    let result = build_subscribe(6, &[Channel::Ticker], &["MARKET-A"], &[], None, Some(true), None);
    let parsed = parse(&result);

    assert_eq!(parsed["id"], 6);
    assert_eq!(parsed["cmd"], "subscribe");
    assert_eq!(parsed["params"]["channels"], strings(&["ticker"]));
    assert_eq!(parsed["params"]["skip_ticker_ack"], true);
}

#[test]
fn test_build_subscribe_without_skip_ticker_ack() {
    let result = build_subscribe(7, &[Channel::Ticker], &["MARKET-A"], &[], None, None, None);
    let parsed = parse(&result);
    assert!(parsed["params"].get("skip_ticker_ack").is_none());
}

#[test]
fn test_build_subscribe_skip_ticker_ack_false() {
    let result = build_subscribe(8, &[Channel::Ticker], &["MARKET-A"], &[], None, Some(false), None);
    let parsed = parse(&result);
    assert!(parsed["params"].get("skip_ticker_ack").is_none());
}

#[test]
fn test_build_subscribe_with_send_initial_snapshot() {
    let result = build_subscribe(9, &[Channel::Ticker], &["MARKET-A"], &[], None, None, Some(true));
    let parsed = parse(&result);

    assert_eq!(parsed["id"], 9);
    assert_eq!(parsed["params"]["send_initial_snapshot"], true);
}

#[test]
fn test_build_subscribe_with_market_id() {
    let result = build_subscribe(10, &[Channel::OrderbookDelta], &[], &["abc-123-uuid"], None, None, None);
    let parsed = parse(&result);

    assert_eq!(parsed["id"], 10);
    assert_eq!(parsed["params"]["market_id"], "abc-123-uuid");
    assert!(parsed["params"].get("market_ids").is_none());
    assert!(parsed["params"].get("market_ticker").is_none());
}

#[test]
fn test_build_subscribe_with_market_ids() {
    let result = build_subscribe(11, &[Channel::OrderbookDelta], &[], &["uuid-1", "uuid-2"], None, None, None);
    let parsed = parse(&result);

    assert_eq!(parsed["id"], 11);
    assert_eq!(parsed["params"]["market_ids"], strings(&["uuid-1", "uuid-2"]));
    assert!(parsed["params"].get("market_id").is_none());
}

#[test]
fn test_build_unsubscribe_single_sid() {
    let result = build_unsubscribe(5, &[123]);
    let parsed = parse(&result);

    assert_eq!(parsed["id"], 5);
    assert_eq!(parsed["cmd"], "unsubscribe");
    assert_eq!(parsed["params"]["sids"], ints(&[123]));
}

#[test]
fn test_build_unsubscribe_multiple_sids() {
    let result = build_unsubscribe(6, &[100, 200, 300]);
    let parsed = parse(&result);

    assert_eq!(parsed["id"], 6);
    assert_eq!(parsed["cmd"], "unsubscribe");
    assert_eq!(parsed["params"]["sids"], ints(&[100, 200, 300]));
}

#[test]
fn test_build_list_subscriptions() {
    let result = build_list_subscriptions(3);
    let parsed = parse(&result);

    assert_eq!(parsed["id"], 3);
    assert_eq!(parsed["cmd"], "list_subscriptions");
    assert!(parsed.get("params").is_none());
}

#[test]
fn test_build_update_subscription_add_markets() {
    let result = build_update_subscription(7, 123, &["MARKET-A", "MARKET-B"], &[], UpdateAction::AddMarkets, None);
    let parsed = parse(&result);

    assert_eq!(parsed["id"], 7);
    assert_eq!(parsed["cmd"], "update_subscription");
    assert_eq!(parsed["params"]["sids"], ints(&[123]));
    assert_eq!(parsed["params"]["market_tickers"], strings(&["MARKET-A", "MARKET-B"]));
    assert_eq!(parsed["params"]["action"], "add_markets");
}

#[test]
fn test_build_update_subscription_delete_markets() {
    let result = build_update_subscription(8, 456, &["MARKET-X"], &[], UpdateAction::DeleteMarkets, None);
    let parsed = parse(&result);

    assert_eq!(parsed["id"], 8);
    assert_eq!(parsed["cmd"], "update_subscription");
    assert_eq!(parsed["params"]["sids"], ints(&[456]));
    assert_eq!(parsed["params"]["market_ticker"], "MARKET-X");
    assert_eq!(parsed["params"]["action"], "delete_markets");
}

#[test]
fn test_build_update_subscription_with_market_ids() {
    let result = build_update_subscription(9, 789, &[], &["uuid-abc", "uuid-def"], UpdateAction::AddMarkets, None);
    let parsed = parse(&result);

    assert_eq!(parsed["id"], 9);
    assert_eq!(parsed["cmd"], "update_subscription");
    assert_eq!(parsed["params"]["sids"], ints(&[789]));
    assert_eq!(parsed["params"]["market_ids"], strings(&["uuid-abc", "uuid-def"]));
    assert!(parsed["params"].get("market_tickers").is_none());
    assert_eq!(parsed["params"]["action"], "add_markets");
}

#[test]
fn test_build_update_subscription_with_send_initial_snapshot() {
    let result = build_update_subscription(10, 100, &["MARKET-A"], &[], UpdateAction::AddMarkets, Some(true));
    let parsed = parse(&result);

    assert_eq!(parsed["id"], 10);
    assert_eq!(parsed["params"]["send_initial_snapshot"], true);
    assert_eq!(parsed["params"]["action"], "add_markets");
}

#[test]
fn test_build_subscribe_exact_text() {
    let result = build_subscribe(1, &[Channel::OrderbookDelta], &["AAPL-YES"], &[], None, None, None);
    assert_eq!(
        result,
        "{\"cmd\":\"subscribe\",\"id\":1,\"params\":{\"channels\":[\"orderbook_delta\"],\"market_ticker\":\"AAPL-YES\"}}"
    );
}

#[test]
fn test_build_subscribe_escapes_strings() {
    let result = build_subscribe(2, &[Channel::Ticker], &["A\"B\\C"], &[], None, None, None);
    let parsed = parse(&result);
    assert_eq!(parsed["params"]["market_ticker"], "A\"B\\C");
    assert!(result.contains("\"A\\\"B\\\\C\""));
}

fn raw() -> RawMessage {
    RawMessage {
        id: None,
        msg_type: None,
        sid: None,
        seq: None,
        msg: None,
        code: None,
        message: None,
        error: None,
    }
}

#[test]
fn test_parse_response() {
    let mut r = raw();
    r.id = Some(1);
    r.msg_type = Some("subscribed".to_string());
    r.msg = Some(parse_json(r#"{"sid": 42}"#));
    match parse_incoming(r) {
        IncomingMessage::Response { id, msg_type, msg } => {
            assert_eq!(id, 1);
            assert_eq!(msg_type, "subscribed");
            assert_eq!(member_i64(&msg, "sid"), Some(42));
        }
        _ => panic!("Expected Response variant"),
    }
}

#[test]
fn test_parse_update() {
    let mut r = raw();
    r.msg_type = Some("orderbook_delta".to_string());
    r.sid = Some(42);
    r.msg = Some(parse_json(r#"{"yes": [[50, 100]]}"#));
    match parse_incoming(r) {
        IncomingMessage::Update { msg_type, sid, msg, .. } => {
            assert_eq!(msg_type, "orderbook_delta");
            assert_eq!(sid, 42);
            assert_eq!(from_json(msg.get("yes").unwrap()), parse("[[50, 100]]"));
        }
        _ => panic!("Expected Update variant"),
    }
}

#[test]
fn test_parse_error_with_nested_error() {
    let mut r = raw();
    r.id = Some(1);
    r.error = Some(ErrorPayload {
        code: Some("invalid_params".to_string()),
        message: Some("Invalid market ticker".to_string()),
    });
    match parse_incoming(r) {
        IncomingMessage::Error { id, code, message, market_ticker, market_id } => {
            assert_eq!(id, Some(1));
            assert_eq!(code, "invalid_params");
            assert_eq!(message, "Invalid market ticker");
            assert_eq!(market_ticker, None);
            assert_eq!(market_id, None);
        }
        _ => panic!("Expected Error variant"),
    }
}

#[test]
fn test_parse_error_with_top_level_fields() {
    let mut r = raw();
    r.id = Some(2);
    r.msg_type = Some("error".to_string());
    r.code = Some("auth_failed".to_string());
    r.message = Some("Authentication required".to_string());
    match parse_incoming(r) {
        IncomingMessage::Error { id, code, message, market_ticker, market_id } => {
            assert_eq!(id, Some(2));
            assert_eq!(code, "auth_failed");
            assert_eq!(message, "Authentication required");
            assert_eq!(market_ticker, None);
            assert_eq!(market_id, None);
        }
        _ => panic!("Expected Error variant"),
    }
}

#[test]
fn test_parse_error_without_id() {
    let mut r = raw();
    r.code = Some("connection_error".to_string());
    r.message = Some("Connection lost".to_string());
    match parse_incoming(r) {
        IncomingMessage::Error { id, code, message, market_ticker, market_id } => {
            assert_eq!(id, None);
            assert_eq!(code, "connection_error");
            assert_eq!(message, "Connection lost");
            assert_eq!(market_ticker, None);
            assert_eq!(market_id, None);
        }
        _ => panic!("Expected Error variant"),
    }
}

#[test]
fn test_parse_error_spec_format() {
    let mut r = raw();
    r.id = Some(127);
    r.msg_type = Some("error".to_string());
    r.msg = Some(parse_json(r#"{"code": 16, "msg": "Market not found", "market_ticker": "INVALID-MARKET"}"#));
    match parse_incoming(r) {
        IncomingMessage::Error { id, code, message, market_ticker, market_id } => {
            assert_eq!(id, Some(127));
            assert_eq!(code, "16");
            assert_eq!(message, "Market not found");
            assert_eq!(market_ticker, Some("INVALID-MARKET".to_string()));
            assert_eq!(market_id, None);
        }
        _ => panic!("Expected Error variant"),
    }
}

#[test]
fn test_parse_error_spec_format_with_market_id() {
    let mut r = raw();
    r.msg_type = Some("error".to_string());
    r.msg = Some(parse_json(r#"{"code": 5, "msg": "Access denied", "market_id": "abc-123"}"#));
    match parse_incoming(r) {
        IncomingMessage::Error { id, code, message, market_ticker, market_id } => {
            assert_eq!(id, None);
            assert_eq!(code, "5");
            assert_eq!(message, "Access denied");
            assert_eq!(market_ticker, None);
            assert_eq!(market_id, Some("abc-123".to_string()));
        }
        _ => panic!("Expected Error variant"),
    }
}

#[test]
fn test_parse_response_with_null_msg() {
    let mut r = raw();
    r.id = Some(10);
    r.msg_type = Some("ack".to_string());
    match parse_incoming(r) {
        IncomingMessage::Response { id, msg_type, msg } => {
            assert_eq!(id, 10);
            assert_eq!(msg_type, "ack");
            assert!(msg.is_null());
        }
        _ => panic!("Expected Response variant"),
    }
}

#[test]
fn test_parse_ticker_update() {
    let mut r = raw();
    r.msg_type = Some("ticker".to_string());
    r.sid = Some(99);
    r.msg = Some(parse_json(r#"{"price": 65, "volume": 1000}"#));
    match parse_incoming(r) {
        IncomingMessage::Update { msg_type, sid, msg, .. } => {
            assert_eq!(msg_type, "ticker");
            assert_eq!(sid, 99);
            assert_eq!(member_i64(&msg, "price"), Some(65));
            assert_eq!(member_i64(&msg, "volume"), Some(1000));
        }
        _ => panic!("Expected Update variant"),
    }
}

#[test]
fn test_parse_trade_update() {
    let mut r = raw();
    r.msg_type = Some("trade".to_string());
    r.sid = Some(55);
    r.msg = Some(parse_json(r#"{"count": 5, "price": 42, "taker_side": "yes"}"#));
    match parse_incoming(r) {
        IncomingMessage::Update { msg_type, sid, msg, .. } => {
            assert_eq!(msg_type, "trade");
            assert_eq!(sid, 55);
            assert_eq!(member_i64(&msg, "count"), Some(5));
            assert_eq!(member_i64(&msg, "price"), Some(42));
            assert_eq!(msg.get("taker_side").and_then(|v| v.as_str()), Some("yes"));
        }
        _ => panic!("Expected Update variant"),
    }
}

#[test]
fn test_parse_unsubscribed_message() {
    let mut r = raw();
    r.msg_type = Some("unsubscribed".to_string());
    r.id = Some(2);
    r.sid = Some(2);
    r.seq = Some(707);
    match parse_incoming(r) {
        IncomingMessage::Response { id, msg_type, msg } => {
            assert_eq!(id, 2);
            assert_eq!(msg_type, "unsubscribed");
            assert_eq!(member_i64(&msg, "sid"), Some(2));
        }
        _ => panic!("Expected Response variant"),
    }
}

#[test]
fn test_parse_subscribed_without_id() {
    let mut r = raw();
    r.msg_type = Some("subscribed".to_string());
    r.sid = Some(5);
    match parse_incoming(r) {
        IncomingMessage::Response { id, msg_type, msg } => {
            assert_eq!(id, 0);
            assert_eq!(msg_type, "subscribed");
            assert_eq!(member_i64(&msg, "sid"), Some(5));
        }
        _ => panic!("Expected Response variant"),
    }
}

#[test]
fn test_parse_unsubscribed_without_id() {
    let mut r = raw();
    r.msg_type = Some("unsubscribed".to_string());
    r.sid = Some(3);
    r.seq = Some(100);
    match parse_incoming(r) {
        IncomingMessage::Response { id, msg_type, msg } => {
            assert_eq!(id, 0);
            assert_eq!(msg_type, "unsubscribed");
            assert_eq!(member_i64(&msg, "sid"), Some(3));
        }
        _ => panic!("Expected Response variant"),
    }
}

#[test]
fn test_parse_ok_response_without_id() {
    let mut r = raw();
    r.msg_type = Some("ok".to_string());
    match parse_incoming(r) {
        IncomingMessage::Response { id, msg_type, .. } => {
            assert_eq!(id, 0);
            assert_eq!(msg_type, "ok");
        }
        _ => panic!("Expected Response variant"),
    }
}

#[test]
fn test_parse_list_subscriptions_without_id() {
    let mut r = raw();
    r.msg_type = Some("list_subscriptions".to_string());
    r.msg = Some(parse_json(r#"{"subs":[]}"#));
    match parse_incoming(r) {
        IncomingMessage::Response { id, msg_type, msg } => {
            assert_eq!(id, 0);
            assert_eq!(msg_type, "list_subscriptions");
            assert!(msg.get("subs").and_then(|v| v.as_array()).is_some());
        }
        _ => panic!("Expected Response variant"),
    }
}

#[test]
fn test_parse_update_with_sid_not_confused_as_response() {
    let mut r = raw();
    r.msg_type = Some("ticker".to_string());
    r.sid = Some(10);
    r.msg = Some(parse_json(r#"{"price":50}"#));
    match parse_incoming(r) {
        IncomingMessage::Update { msg_type, sid, msg, .. } => {
            assert_eq!(msg_type, "ticker");
            assert_eq!(sid, 10);
            assert_eq!(member_i64(&msg, "price"), Some(50));
        }
        _ => panic!("Expected Update variant"),
    }
}

#[test]
fn test_parse_spec_error_with_text_code_and_missing_message() {
    let mut r = raw();
    r.msg_type = Some("error".to_string());
    r.msg = Some(parse_json(r#"{"code": "bad"}"#));
    match parse_incoming(r) {
        IncomingMessage::Error { code, message, .. } => {
            assert_eq!(code, "bad");
            assert_eq!(message, "");
        }
        _ => panic!("Expected Error variant"),
    }
}

#[test]
fn test_channel_names_and_auth() {
    assert_eq!(Channel::MarketLifecycle.as_str(), "market_lifecycle_v2");
    assert!(Channel::Fill.requires_auth());
    assert!(!Channel::Ticker.requires_auth());
    assert!(Channel::Ticker.requires_market_ticker());
    assert!(!Channel::Multivariate.requires_market_ticker());
    for c in [
        Channel::OrderbookDelta,
        Channel::Ticker,
        Channel::Trade,
        Channel::Fill,
        Channel::MarketPositions,
        Channel::Communications,
        Channel::MarketLifecycle,
        Channel::Multivariate,
    ] {
        assert_eq!(Channel::from_wire(c.as_str()), Some(c));
    }
    assert_eq!(Channel::from_wire("market_lifecycle"), None);
}

#[test]
fn test_message_kind_routing() {
    assert_eq!(message_kind("orderbook_snapshot"), MessageKind::OrderbookSnapshot);
    assert_eq!(message_kind("market_positions"), MessageKind::MarketPosition);
    assert_eq!(message_kind("market_lifecycle_v2"), MessageKind::MarketLifecycle);
    assert_eq!(message_kind("communications"), MessageKind::Communication);
    assert_eq!(message_kind("quote_executed"), MessageKind::QuoteExecuted);
    assert_eq!(message_kind("user_orders"), MessageKind::UserOrder);
    assert_eq!(message_kind("something_else"), MessageKind::Untagged);
}

#[test]
fn test_subscribe_result_accessors() {
    let result = SubscribeResult {
        successful: vec![
            ChannelSubscription { channel: "ticker".to_string(), sid: 1 },
            ChannelSubscription { channel: "trade".to_string(), sid: 2 },
        ],
        failed: vec![],
    };
    assert_eq!(result.sids(), vec![1, 2]);
    assert!(result.is_complete_success());
    assert!(result.has_any_success());
    let un = UnsubscribeResult { sids: vec![4, 5] };
    assert_eq!(un.sids(), &[4, 5]);
    assert_eq!(un.count(), 2);
}

#[test]
fn test_plan_subscribe() {
    let mut table = SubscriptionTable::new();
    match table.plan_subscribe(Channel::Ticker, &[]) {
        SubscribePlan::Rejected(Error::MissingMarketTickers(c)) => assert_eq!(c, "ticker"),
        other => panic!("unexpected {:?}", other),
    }
    match table.plan_subscribe(Channel::Fill, &[]) {
        SubscribePlan::Subscribe { markets } => assert!(markets.is_empty()),
        other => panic!("unexpected {:?}", other),
    }
    table.record_new(Channel::Ticker, 100, &["EXISTING-A", "EXISTING-B"]);
    match table.plan_subscribe(Channel::Ticker, &["EXISTING-A", "NEW-MARKET"]) {
        SubscribePlan::AddMarkets { sid, markets } => {
            assert_eq!(sid, 100);
            assert_eq!(markets, vec!["NEW-MARKET".to_string()]);
        }
        other => panic!("unexpected {:?}", other),
    }
    assert!(matches!(table.plan_subscribe(Channel::Ticker, &["EXISTING-A"]), SubscribePlan::AlreadySubscribed));
}

#[test]
fn test_record_markets_checks_sid() {
    let mut table = SubscriptionTable::new();
    table.record_new(Channel::Ticker, 999, &["DIFFERENT"]);
    table.record_markets(Channel::Ticker, 100, &["OLD", "NEW"]);
    assert_eq!(table.sid(Channel::Ticker), Some(999));
    assert_eq!(table.markets(Channel::Ticker), vec!["DIFFERENT".to_string()]);
    table.record_markets(Channel::Ticker, 999, &["OLD", "NEW", "BONUS", "NEW"]);
    let markets = table.markets(Channel::Ticker);
    assert_eq!(markets.len(), 3);
    assert!(markets.contains(&"BONUS".to_string()));
    table.record_new(Channel::Ticker, 5, &["X"]);
    assert_eq!(table.sid(Channel::Ticker), Some(999));
}

#[test]
fn test_plan_unsubscribe() {
    let mut table = SubscriptionTable::new();
    match table.plan_unsubscribe(Channel::Ticker, &["ANY"]) {
        UnsubscribePlan::Rejected(Error::Api(t)) => assert!(t.contains("Not subscribed")),
        other => panic!("unexpected {:?}", other),
    }
    table.record_new(Channel::Ticker, 100, &["KEEP", "REMOVE"]);
    assert!(matches!(table.plan_unsubscribe(Channel::Ticker, &[]), UnsubscribePlan::NoOp));
    match table.plan_unsubscribe(Channel::Ticker, &["REMOVE"]) {
        UnsubscribePlan::DeleteMarkets { sid, markets } => {
            assert_eq!(sid, 100);
            assert_eq!(markets, vec!["REMOVE".to_string()]);
        }
        other => panic!("unexpected {:?}", other),
    }
    assert!(matches!(
        table.plan_unsubscribe(Channel::Ticker, &["REMOVE", "KEEP"]),
        UnsubscribePlan::Unsubscribe { sid: 100 }
    ));
    assert!(matches!(table.plan_unsubscribe(Channel::Ticker, &["OTHER"]), UnsubscribePlan::NoOp));
    match table.plan_unsubscribe(Channel::Ticker, &["OTHER", "KEEP"]) {
        UnsubscribePlan::DeleteMarkets { sid, markets } => {
            assert_eq!(sid, 100);
            assert_eq!(markets, vec!["OTHER".to_string(), "KEEP".to_string()]);
        }
        other => panic!("unexpected {:?}", other),
    }
    table.record_new(Channel::Fill, 3, &[]);
    assert!(matches!(table.plan_unsubscribe(Channel::Fill, &["X"]), UnsubscribePlan::NoOp));
    assert_eq!(table.plan_unsubscribe_all(Channel::Ticker), Ok(100));
    table.remove_if_sid(Channel::Ticker, 7);
    assert!(table.is_subscribed(Channel::Ticker));
    table.remove_if_sid(Channel::Ticker, 100);
    assert!(!table.is_subscribed(Channel::Ticker));
    assert!(matches!(table.plan_unsubscribe_all(Channel::Ticker), Err(Error::Api(_))));
}

#[test]
fn test_subscriptions_and_take_all() {
    let mut table = SubscriptionTable::new();
    table.record_new(Channel::Ticker, 1, &["A"]);
    table.record_new(Channel::Fill, 2, &[]);
    let subs = table.subscriptions();
    assert_eq!(subs.len(), 2);
    assert_eq!(subs[0], (Channel::Ticker, vec!["A".to_string()]));
    let taken = table.take_all();
    assert_eq!(taken.len(), 2);
    assert!(!table.is_subscribed(Channel::Ticker));
    assert!(table.subscriptions().is_empty());
}

#[test]
fn test_subscribe_outcome() {
    let ok = SubscribeResult {
        successful: vec![ChannelSubscription { channel: "ticker".to_string(), sid: 9 }],
        failed: vec![],
    };
    assert_eq!(subscribe_outcome(&ok), Ok(Some(9)));
    let failed = SubscribeResult {
        successful: vec![],
        failed: vec![
            ChannelError { channel: None, code: "16".to_string(), message: "Market not found".to_string() },
            ChannelError { channel: None, code: "5".to_string(), message: "Denied".to_string() },
        ],
    };
    assert_eq!(subscribe_outcome(&failed), Err(Error::Api("16: Market not found; 5: Denied".to_string())));
}

#[test]
fn test_pending_subscribe_flow() {
    let mut pending = PendingRequests::new();
    assert_eq!(
        pending.prepare_subscribe(&["bogus"], &["A"], None).unwrap_err(),
        "No valid channels specified"
    );
    assert_eq!(
        pending.prepare_subscribe(&["ticker", "fill", "trade"], &[], None).unwrap_err(),
        "Market tickers required for channels: ticker, trade"
    );
    assert_eq!(pending.next_request_id(), 1);
    let req = pending.prepare_subscribe(&["ticker", "fill"], &["A"], None).unwrap();
    assert_eq!(req.id, 1);
    assert_eq!(req.expected, 2);
    assert_eq!(pending.next_request_id(), 2);
    let parsed = parse(&req.text);
    assert_eq!(parsed["params"]["channels"], strings(&["ticker", "fill"]));
    pending.register_subscribe(req.id, req.expected);

    let first = pending.on_response(
        1,
        "subscribed",
        ResponseFields { channel: Some("ticker".to_string()), sid: Some(10), market_tickers: None },
    );
    assert!(matches!(first, ResponseStep::Subscribed { done: None }));
    match pending.on_error(Some(1), "5".to_string(), "Denied".to_string()) {
        ErrorStep::Subscribed { done: Some(result) } => {
            assert_eq!(result.sids(), vec![10]);
            assert_eq!(result.failed.len(), 1);
            assert_eq!(result.failed[0].code, "5");
        }
        other => panic!("unexpected {:?}", other),
    }
    assert!(matches!(
        pending.on_response(1, "subscribed", ResponseFields { channel: None, sid: None, market_tickers: None }),
        ResponseStep::Unexpected
    ));
}

#[test]
fn test_pending_unsubscribe_and_update_flow() {
    let mut pending = PendingRequests::new();
    let req = pending.prepare_unsubscribe(&[100, 200]);
    pending.register_unsubscribe(req.id, req.expected);
    match pending.on_response(req.id, "unsubscribed", ResponseFields { channel: None, sid: Some(100), market_tickers: None }) {
        ResponseStep::Unsubscribed { sid, done } => {
            assert_eq!(sid, Some(100));
            assert!(done.is_none());
        }
        other => panic!("unexpected {:?}", other),
    }
    match pending.on_response(req.id, "unsubscribed", ResponseFields { channel: None, sid: None, market_tickers: None }) {
        ResponseStep::Unsubscribed { sid, done } => {
            assert_eq!(sid, None);
            assert_eq!(done.unwrap().sids, vec![100, -1]);
        }
        other => panic!("unexpected {:?}", other),
    }
    let upd = pending.prepare_update(7, &["X"], UpdateAction::AddMarkets);
    assert_eq!(upd.id, 2);
    pending.register_update(upd.id);
    match pending.on_response(2, "ok", ResponseFields { channel: None, sid: None, market_tickers: Some(vec!["X".to_string()]) }) {
        ResponseStep::Updated { markets } => assert_eq!(markets, vec!["X".to_string()]),
        other => panic!("unexpected {:?}", other),
    }
    let upd = pending.prepare_update(7, &["Y"], UpdateAction::DeleteMarkets);
    pending.register_update(upd.id);
    match pending.on_error(Some(upd.id), "9".to_string(), "Nope".to_string()) {
        ErrorStep::UpdateFailed { error } => assert_eq!(error, "9: Nope"),
        other => panic!("unexpected {:?}", other),
    }
    assert!(matches!(pending.on_error(None, "1".to_string(), "x".to_string()), ErrorStep::Unhandled));
}

#[test]
fn test_backoff() {
    assert_eq!(backoff_millis(1), 500);
    assert_eq!(backoff_millis(2), 1000);
    assert_eq!(backoff_millis(120), 60000);
    assert_eq!(backoff_millis(1000), 60000);
    assert_eq!(backoff_millis(3), 2000);
    assert_eq!(backoff_millis(7), 32000);
    assert_eq!(backoff_millis(8), 60000);
    assert_eq!(backoff_millis(0), 500);
    assert_eq!(backoff_millis(1u64 << 32), 60000);
    assert_eq!(backoff_millis(u64::MAX), 60000);
}

#[test]
fn test_read_response_fields_reads_members() {
    let f = read_response_fields(&parse_json(r#"{"channel":"ticker","sid":7,"market_tickers":["A",1,"B"]}"#));
    assert_eq!(f.channel, Some("ticker".to_string()));
    assert_eq!(f.sid, Some(7));
    assert_eq!(f.market_tickers, Some(vec!["A".to_string(), "B".to_string()]));
}

#[test]
fn test_read_response_fields_wrong_kinds() {
    let f = read_response_fields(&parse_json(r#"{"channel":5,"sid":"x","market_tickers":"A"}"#));
    assert_eq!(f.channel, None);
    assert_eq!(f.sid, None);
    assert_eq!(f.market_tickers, None);
    let g = read_response_fields(&parse_json(r#"[1, 2]"#));
    assert_eq!(g.channel, None);
    assert_eq!(g.sid, None);
    assert_eq!(g.market_tickers, None);
}

#[test]
fn test_read_error_details_needs_code() {
    assert!(read_error_details(&parse_json(r#"{"msg":"no code"}"#)).is_none());
    assert!(read_error_details(&parse_json(r#""text""#)).is_none());
    let d = read_error_details(&parse_json(r#"{"code":16,"msg":"m","market_id":"id-1"}"#)).unwrap();
    assert_eq!(d.code_number, Some(16));
    assert_eq!(d.code_text, None);
    assert_eq!(d.message, Some("m".to_string()));
    assert_eq!(d.market_ticker, None);
    assert_eq!(d.market_id, Some("id-1".to_string()));
    let e = read_error_details(&parse_json(r#"{"code":-3}"#)).unwrap();
    assert_eq!(e.code_number, None);
    assert_eq!(e.code_text, None);
}

#[test]
fn test_json_get_first_member() {
    let j = Json::Object(vec![
        ("a".to_string(), parse_json("1")),
        ("b".to_string(), parse_json("\"x\"")),
    ]);
    assert_eq!(member_i64(&j, "a"), Some(1));
    assert_eq!(j.get("b").and_then(|v| v.as_str()), Some("x"));
    assert!(j.get("c").is_none());
    assert!(parse_json("[1]").get("a").is_none());
}

#[test]
fn test_extract_sids_singular() {
    let response = parse_json(r#"{"id": 1, "type": "subscribed", "msg": {"channel": "orderbook_delta", "sid": 42}}"#);
    let sids = extract_sids(&response);
    assert_eq!(sids, vec![42]);
}

#[test]
fn test_extract_sids_array_fallback() {
    let response = parse_json(r#"{"id": 1, "type": "subscribed", "msg": {"sids": [42, 43, 44]}}"#);
    let sids = extract_sids(&response);
    assert_eq!(sids, vec![42, 43, 44]);
}

#[test]
fn test_extract_sids_empty() {
    let response = parse_json(r#"{"id": 1, "type": "subscribed", "msg": {}}"#);
    let sids = extract_sids(&response);
    assert!(sids.is_empty());
}

#[test]
fn test_extract_sids_missing_msg() {
    let response = parse_json(r#"{"id": 1, "type": "error"}"#);
    let sids = extract_sids(&response);
    assert!(sids.is_empty());
}

#[test]
fn test_extract_sids_prefers_integer_sid() {
    let response = parse_json(r#"{"msg": {"sid": "x", "sids": [1, "y", 2]}}"#);
    assert_eq!(extract_sids(&response), vec![1, 2]);
}
