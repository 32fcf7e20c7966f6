//! Health of the streaming connection: when to send a ping, when the
//! connection is taken for dead, how each received frame is handled, and
//! what the subscribers are told when the connection ends.
//!
//! Times are milliseconds on a monotonic clock; a time before an earlier
//! one counts as no time elapsed.

use vstd::prelude::*;
use crate::ws::channel::Channel;
use crate::ws::client::{listed, SubscriptionTable};
use crate::ws::session::SubscriptionState;

verus! {

/// Why a streaming connection ended.
#[derive(Debug, Clone, PartialEq, Eq)]
pub enum DisconnectReason {
    /// The client asked to close the connection.
    ClientClosed,
    /// The server closed the connection.
    ServerClosed,
    /// No pong arrived in time after a ping.
    PingTimeout,
    /// Nothing was sent or received for too long.
    ServerHeartbeatTimeout,
    /// A health check could not be sent.
    HealthCheckFailed(String),
    /// Every input of the session closed.
    AllChannelsClosed,
    /// An I/O error on the connection.
    IoError(String),
    /// A WebSocket protocol error.
    ProtocolError(String),
}

impl DisconnectReason {
    /// A clean end: the client or the server closed the connection, or
    /// every input of the session closed.
    pub open spec fn clean(&self) -> bool {
        ||| self is ClientClosed
        ||| self is ServerClosed
        ||| self is AllChannelsClosed
    }

    /// Whether the connection ended cleanly.
    pub fn is_clean(&self) -> (b: bool)
        ensures
            b == self.clean(),
    {
        match self {
            DisconnectReason::ClientClosed => true,
            DisconnectReason::ServerClosed => true,
            DisconnectReason::AllChannelsClosed => true,
            _ => false,
        }
    }
}

/// Only a close by either side, or the end of every input, is a clean end:
/// a ping or activity timeout, a failed health check, an I/O error and a
/// protocol error all lose the connection.
pub proof fn law_only_closes_are_clean(r: DisconnectReason)
    ensures
        r.clean() ==> (r is ClientClosed || r is ServerClosed || r is AllChannelsClosed),
        (r is ClientClosed || r is ServerClosed || r is AllChannelsClosed) ==> r.clean(),
        (r is PingTimeout || r is ServerHeartbeatTimeout || r is HealthCheckFailed || r is IoError
            || r is ProtocolError) ==> !r.clean(),
{
}

/// What the subscribers are told when the connection ends.
#[derive(Debug, Clone)]
pub enum DisconnectNotice {
    /// The connection was closed cleanly.
    Closed { reason: DisconnectReason },
    /// The connection was lost, with the subscriptions active at the time.
    ConnectionLost { reason: DisconnectReason, subscriptions: Vec<(Channel, Vec<String>)> },
}

/// Ends the session's subscriptions: all are taken out of the table. A
/// clean end is reported as `Closed`; any other as `ConnectionLost`, with
/// the subscriptions that were active (each channel once, with its
/// markets).
pub fn disconnect_notice(reason: DisconnectReason, table: &mut SubscriptionTable) -> (n: DisconnectNotice)
    requires
        old(table).wf(),
    ensures
        final(table).wf(),
        final(table).subs() == Map::<Channel, SubscriptionState>::empty(),
        reason.clean() ==> n == (DisconnectNotice::Closed { reason }),
        !reason.clean() ==> (n matches DisconnectNotice::ConnectionLost { reason: r, subscriptions: s }
            && r == reason && listed(s@, old(table).subs())),
{
    let lost = table.take_all();
    if reason.is_clean() {
        DisconnectNotice::Closed { reason }
    } else {
        DisconnectNotice::ConnectionLost { reason, subscriptions: lost }
    }
}

/// The time elapsed from `from` to `now` (none when `now` is earlier).
pub open spec fn elapsed(from: u64, now: u64) -> int {
    if now >= from {
        now - from
    } else {
        0
    }
}

/// What the ping timer asks for.
#[derive(Debug, Clone, Copy, PartialEq, Eq)]
pub enum PingStep {
    /// Send a ping.
    SendPing,
    /// A ping is awaiting its pong, and the pong is not late yet.
    Wait,
    /// The pong of the last ping is late: the connection is dead.
    TimedOut,
}

/// The health of a connection: whether a ping awaits its pong, when the
/// last pong arrived, and when something was last sent or received.
#[derive(Debug, Clone)]
pub struct HealthMonitor {
    ping_timeout_ms: u64,
    activity_timeout_ms: u64,
    ping_pending: bool,
    last_pong_ms: u64,
    last_activity_ms: u64,
}

impl HealthMonitor {
    /// How long a pong may take, from the last pong.
    pub closed spec fn ping_timeout(&self) -> u64 {
        self.ping_timeout_ms
    }

    /// How long the connection may stay without activity.
    pub closed spec fn activity_timeout(&self) -> u64 {
        self.activity_timeout_ms
    }

    /// Whether a ping awaits its pong.
    pub closed spec fn pending(&self) -> bool {
        self.ping_pending
    }

    /// When the last pong arrived (or the connection was opened).
    pub closed spec fn last_pong(&self) -> u64 {
        self.last_pong_ms
    }

    /// When something was last sent or received.
    pub closed spec fn last_activity(&self) -> u64 {
        self.last_activity_ms
    }

    /// The health of a connection opened at `now_ms`: no ping pending, the
    /// opening counting as a pong and as activity.
    pub fn new(ping_timeout_ms: u64, activity_timeout_ms: u64, now_ms: u64) -> (h: Self)
        ensures
            h.ping_timeout() == ping_timeout_ms,
            h.activity_timeout() == activity_timeout_ms,
            !h.pending(),
            h.last_pong() == now_ms,
            h.last_activity() == now_ms,
    {
        HealthMonitor {
            ping_timeout_ms,
            activity_timeout_ms,
            ping_pending: false,
            last_pong_ms: now_ms,
            last_activity_ms: now_ms,
        }
    }

    /// What the ping timer asks for at `now_ms`: a ping when none is
    /// pending; otherwise the end of the connection once more than the
    /// ping timeout has passed since the last pong.
    pub fn on_ping_tick(&self, now_ms: u64) -> (s: PingStep)
        ensures
            !self.pending() ==> s == PingStep::SendPing,
            self.pending() && elapsed(self.last_pong(), now_ms) > self.ping_timeout() ==> s
                == PingStep::TimedOut,
            self.pending() && elapsed(self.last_pong(), now_ms) <= self.ping_timeout() ==> s
                == PingStep::Wait,
    {
        if !self.ping_pending {
            PingStep::SendPing
        } else if now_ms >= self.last_pong_ms && now_ms - self.last_pong_ms > self.ping_timeout_ms {
            PingStep::TimedOut
        } else {
            PingStep::Wait
        }
    }

    /// A ping was sent at `now_ms`: it awaits its pong, and sending is
    /// activity.
    pub fn ping_sent(&mut self, now_ms: u64)
        ensures
            final(self).pending(),
            final(self).last_activity() == now_ms,
            final(self).last_pong() == old(self).last_pong(),
            final(self).ping_timeout() == old(self).ping_timeout(),
            final(self).activity_timeout() == old(self).activity_timeout(),
    {
        self.ping_pending = true;
        self.last_activity_ms = now_ms;
    }

    /// A pong arrived at `now_ms`: no ping is pending any more.
    pub fn on_pong(&mut self, now_ms: u64)
        ensures
            !final(self).pending(),
            final(self).last_pong() == now_ms,
            final(self).last_activity() == old(self).last_activity(),
            final(self).ping_timeout() == old(self).ping_timeout(),
            final(self).activity_timeout() == old(self).activity_timeout(),
    {
        self.ping_pending = false;
        self.last_pong_ms = now_ms;
    }

    /// Something was sent or received at `now_ms`.
    pub fn on_activity(&mut self, now_ms: u64)
        ensures
            final(self).last_activity() == now_ms,
            final(self).pending() == old(self).pending(),
            final(self).last_pong() == old(self).last_pong(),
            final(self).ping_timeout() == old(self).ping_timeout(),
            final(self).activity_timeout() == old(self).activity_timeout(),
    {
        self.last_activity_ms = now_ms;
    }

    /// When the connection is next to be checked for inactivity: the
    /// activity timeout after the last activity (the largest time when
    /// that is beyond the clock).
    pub fn activity_deadline(&self) -> (t: u64)
        ensures
            t == (if self.last_activity() + self.activity_timeout() <= u64::MAX {
                (self.last_activity() + self.activity_timeout()) as u64
            } else {
                u64::MAX
            }),
    {
        self.last_activity_ms.saturating_add(self.activity_timeout_ms)
    }

    /// Whether the connection is dead for lack of activity at `now_ms`:
    /// more than the activity timeout has passed since the last activity.
    pub fn activity_timed_out(&self, now_ms: u64) -> (b: bool)
        ensures
            b == (elapsed(self.last_activity(), now_ms) > self.activity_timeout()),
    {
        now_ms >= self.last_activity_ms && now_ms - self.last_activity_ms > self.activity_timeout_ms
    }
}

/// What arrived on the connection.
#[derive(Debug, Clone)]
pub enum FrameKind {
    /// A text message.
    Text,
    /// A ping from the server.
    Ping,
    /// A pong to one of our pings.
    Pong,
    /// A close frame.
    Close,
    /// A binary message.
    Binary,
    /// A raw frame.
    Raw,
    /// The connection was closed.
    ConnectionClosed,
    /// The connection was already closed.
    AlreadyClosed,
    /// An I/O error, with its description.
    Io(String),
    /// Another error, with its description.
    Failed(String),
}

/// What to do with what arrived.
#[derive(Debug, Clone)]
pub enum FrameStep {
    /// Handle the text message.
    HandleText,
    /// Answer the ping with a pong carrying its data.
    ReplyPong,
    /// Record the pong.
    RecordPong,
    /// Nothing to do.
    Ignore,
    /// The connection closed cleanly.
    Closed,
    /// The connection was lost.
    Lost(DisconnectReason),
}

impl FrameKind {
    /// Whether a message was received (an error is not one).
    pub open spec fn received(&self) -> bool {
        !(self is ConnectionClosed || self is AlreadyClosed || self is Io || self is Failed)
    }

    /// Whether a message was received: it counts as activity.
    pub fn is_message(&self) -> (b: bool)
        ensures
            b == self.received(),
    {
        match self {
            FrameKind::ConnectionClosed | FrameKind::AlreadyClosed | FrameKind::Io(_) | FrameKind::Failed(_) => false,
            _ => true,
        }
    }
}

/// How a frame is handled: text is handled, a ping answered, a pong
/// recorded; a close frame, or an error saying that the connection is
/// closed, ends it cleanly; an I/O error or another error loses it;
/// binary messages and raw frames are ignored.
pub fn frame_step(kind: FrameKind) -> (s: FrameStep)
    ensures
        match kind {
            FrameKind::Text => s is HandleText,
            FrameKind::Ping => s is ReplyPong,
            FrameKind::Pong => s is RecordPong,
            FrameKind::Close | FrameKind::ConnectionClosed | FrameKind::AlreadyClosed => s is Closed,
            FrameKind::Binary | FrameKind::Raw => s is Ignore,
            FrameKind::Io(e) => s == FrameStep::Lost(DisconnectReason::IoError(e)),
            FrameKind::Failed(e) => s == FrameStep::Lost(DisconnectReason::ProtocolError(e)),
        },
{
    match kind {
        FrameKind::Text => FrameStep::HandleText,
        FrameKind::Ping => FrameStep::ReplyPong,
        FrameKind::Pong => FrameStep::RecordPong,
        FrameKind::Close => FrameStep::Closed,
        FrameKind::ConnectionClosed => FrameStep::Closed,
        FrameKind::AlreadyClosed => FrameStep::Closed,
        FrameKind::Binary => FrameStep::Ignore,
        FrameKind::Raw => FrameStep::Ignore,
        FrameKind::Io(e) => FrameStep::Lost(DisconnectReason::IoError(e)),
        FrameKind::Failed(e) => FrameStep::Lost(DisconnectReason::ProtocolError(e)),
    }
}

} // verus!
