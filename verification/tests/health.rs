use kalshi_trade_rs::ws::session::{signing_message, WS_SIGN_PATH};
use kalshi_trade_rs::ws::channel::Channel;
use kalshi_trade_rs::ws::config::HealthConfig;
use kalshi_trade_rs::ws::client::SubscriptionTable;
use kalshi_trade_rs::ws::health::{
    disconnect_notice, frame_step, DisconnectNotice, DisconnectReason, FrameKind, FrameStep, HealthMonitor,
    PingStep,
};

#[test]
fn test_ping_cycle() {
    let mut h = HealthMonitor::new(10_000, 30_000, 0);
    assert_eq!(h.on_ping_tick(30_000), PingStep::SendPing);
    h.ping_sent(30_000);
    assert_eq!(h.on_ping_tick(10_000), PingStep::Wait);
    assert_eq!(h.on_ping_tick(60_000), PingStep::TimedOut);
    h.on_pong(31_000);
    assert_eq!(h.on_ping_tick(60_000), PingStep::SendPing);
}

#[test]
fn test_ping_timeout_counts_from_last_pong() {
    let mut h = HealthMonitor::new(10_000, 30_000, 0);
    h.ping_sent(5_000);
    assert_eq!(h.on_ping_tick(10_000), PingStep::Wait);
    assert_eq!(h.on_ping_tick(10_001), PingStep::TimedOut);
}

#[test]
fn test_activity_timeout() {
    let mut h = HealthMonitor::new(10_000, 30_000, 1_000);
    assert_eq!(h.activity_deadline(), 31_000);
    assert!(!h.activity_timed_out(31_000));
    assert!(h.activity_timed_out(31_001));
    h.on_activity(20_000);
    assert_eq!(h.activity_deadline(), 50_000);
    assert!(!h.activity_timed_out(31_001));
    assert!(!h.activity_timed_out(5));
    let far = HealthMonitor::new(1, u64::MAX, 10);
    assert_eq!(far.activity_deadline(), u64::MAX);
}

#[test]
fn test_frame_steps() {
    assert!(matches!(frame_step(FrameKind::Text), FrameStep::HandleText));
    assert!(matches!(frame_step(FrameKind::Ping), FrameStep::ReplyPong));
    assert!(matches!(frame_step(FrameKind::Pong), FrameStep::RecordPong));
    assert!(matches!(frame_step(FrameKind::Close), FrameStep::Closed));
    assert!(matches!(frame_step(FrameKind::ConnectionClosed), FrameStep::Closed));
    assert!(matches!(frame_step(FrameKind::AlreadyClosed), FrameStep::Closed));
    assert!(matches!(frame_step(FrameKind::Binary), FrameStep::Ignore));
    assert!(matches!(frame_step(FrameKind::Raw), FrameStep::Ignore));
    match frame_step(FrameKind::Io("reset".to_string())) {
        FrameStep::Lost(reason) => assert_eq!(reason, DisconnectReason::IoError("reset".to_string())),
        _ => panic!("expected a lost connection"),
    }
    match frame_step(FrameKind::Failed("bad frame".to_string())) {
        FrameStep::Lost(reason) => assert_eq!(reason, DisconnectReason::ProtocolError("bad frame".to_string())),
        _ => panic!("expected a lost connection"),
    }
    assert!(FrameKind::Pong.is_message());
    assert!(!FrameKind::Io("x".to_string()).is_message());
}

#[test]
fn test_clean_reasons() {
    assert!(DisconnectReason::ClientClosed.is_clean());
    assert!(DisconnectReason::ServerClosed.is_clean());
    assert!(DisconnectReason::AllChannelsClosed.is_clean());
    assert!(!DisconnectReason::PingTimeout.is_clean());
    assert!(!DisconnectReason::ServerHeartbeatTimeout.is_clean());
    assert!(!DisconnectReason::HealthCheckFailed("x".to_string()).is_clean());
}

#[test]
fn test_disconnect_notice() {
    let mut table = SubscriptionTable::new();
    table.record_new(Channel::Ticker, 7, &["A", "B"]);
    match disconnect_notice(DisconnectReason::PingTimeout, &mut table) {
        DisconnectNotice::ConnectionLost { reason, subscriptions } => {
            assert_eq!(reason, DisconnectReason::PingTimeout);
            assert_eq!(subscriptions, vec![(Channel::Ticker, vec!["A".to_string(), "B".to_string()])]);
        }
        _ => panic!("expected ConnectionLost"),
    }
    assert!(!table.is_subscribed(Channel::Ticker));

    let mut other = SubscriptionTable::new();
    other.record_new(Channel::Fill, 3, &[]);
    match disconnect_notice(DisconnectReason::ClientClosed, &mut other) {
        DisconnectNotice::Closed { reason } => assert_eq!(reason, DisconnectReason::ClientClosed),
        _ => panic!("expected Closed"),
    }
    assert!(other.subscriptions().is_empty());
}

#[test]
fn test_signing_message() {
    assert_eq!(signing_message(1700000000123, "GET", WS_SIGN_PATH), "1700000000123GET/trade-api/ws/v2");
    assert_eq!(signing_message(0, "POST", "/x"), "0POST/x");
}

#[test]
fn test_health_config_default() {
    let c = HealthConfig::default();
    assert_eq!(c.ping_interval_ms, 30_000);
    assert_eq!(c.ping_timeout_ms, 10_000);
    assert_eq!(c.server_ping_timeout_ms, 30_000);
}
