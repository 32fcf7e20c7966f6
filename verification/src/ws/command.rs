//! Commands and results of the streaming client.

use vstd::prelude::*;

verus! {

/// Action for updating a subscription's market list.
#[derive(Debug, Clone, Copy, PartialEq, Eq, Structural)]
pub enum UpdateAction {
    /// Add markets to the subscription.
    AddMarkets,
    /// Remove markets from the subscription.
    DeleteMarkets,
}

impl UpdateAction {
    /// The wire format name of the action.
    pub open spec fn wire_name(&self) -> Seq<char> {
        match self {
            UpdateAction::AddMarkets => "add_markets"@,
            UpdateAction::DeleteMarkets => "delete_markets"@,
        }
    }

    /// Returns the wire format name for this action.
    pub fn as_str(&self) -> (s: &'static str)
        ensures
            s@ == self.wire_name(),
    {
        match self {
            UpdateAction::AddMarkets => "add_markets",
            UpdateAction::DeleteMarkets => "delete_markets",
        }
    }
}

/// A successful channel subscription.
#[derive(Debug, Clone)]
pub struct ChannelSubscription {
    /// The channel that was subscribed to.
    pub channel: String,
    /// The subscription ID assigned by the server.
    pub sid: i64,
}

/// A failed channel subscription.
#[derive(Debug, Clone)]
pub struct ChannelError {
    /// The channel that failed to subscribe.
    pub channel: Option<String>,
    /// Error code from the server.
    pub code: String,
    /// Error message from the server.
    pub message: String,
}

/// The subscription ids of a list of subscriptions.
pub open spec fn sids_of(subs: Seq<ChannelSubscription>) -> Seq<i64> {
    subs.map_values(|s: ChannelSubscription| s.sid)
}

/// Result of a subscription operation.
///
/// Kalshi processes each channel in a subscribe request independently,
/// so some channels may succeed while others fail. This struct captures
/// both successful and failed subscriptions.
#[derive(Debug, Clone)]
pub struct SubscribeResult {
    /// Successfully subscribed channels with their SIDs.
    pub successful: Vec<ChannelSubscription>,
    /// Channels that failed to subscribe.
    pub failed: Vec<ChannelError>,
}

impl SubscribeResult {
    /// Returns all subscription IDs from successful subscriptions, in
    /// order.
    pub fn sids(&self) -> (r: Vec<i64>)
        ensures
            r@ == sids_of(self.successful@),
    {
        let mut out: Vec<i64> = Vec::new();
        let n = self.successful.len();
        let mut i: usize = 0;
        while i < n
            invariant
                n == self.successful@.len(),
                0 <= i <= n,
                out@ == sids_of(self.successful@.take(i as int)),
            decreases n - i,
        {
            out.push(self.successful[i].sid);
            proof {
                assert(out@ =~= sids_of(self.successful@.take(i + 1)));
            }
            i = i + 1;
        }
        proof {
            assert(self.successful@.take(n as int) =~= self.successful@);
        }
        out
    }

    /// Returns true if all requested channels were subscribed successfully.
    pub fn is_complete_success(&self) -> (b: bool)
        ensures
            b == (self.failed@.len() == 0),
    {
        self.failed.len() == 0
    }

    /// Returns true if at least one channel was subscribed successfully.
    pub fn has_any_success(&self) -> (b: bool)
        ensures
            b == (self.successful@.len() > 0),
    {
        self.successful.len() > 0
    }
}

/// Result of an unsubscription operation.
///
/// Contains the subscription IDs that were successfully unsubscribed.
#[derive(Debug, Clone)]
pub struct UnsubscribeResult {
    /// Subscription IDs that were unsubscribed.
    pub sids: Vec<i64>,
}

impl UnsubscribeResult {
    /// Returns the subscription IDs that were unsubscribed.
    pub fn sids(&self) -> (r: &[i64])
        ensures
            r@ == self.sids@,
    {
        self.sids.as_slice()
    }

    /// Returns the number of subscriptions that were unsubscribed.
    pub fn count(&self) -> (n: usize)
        ensures
            n == self.sids@.len(),
    {
        self.sids.len()
    }
}

/// Sharding configuration for high-throughput communications channel.
///
/// When subscribing to the communications channel for RFQ/quote updates,
/// sharding can be used to distribute traffic across multiple connections.
#[derive(Debug, Clone, Copy, PartialEq, Eq, Structural)]
pub struct CommunicationsSharding {
    /// Number of shards to distribute traffic across.
    /// Each shard receives approximately 1/shard_factor of the traffic.
    pub shard_factor: Option<i32>,
    /// This connection's shard key (0 to shard_factor-1).
    /// Determines which subset of traffic this connection receives.
    pub shard_key: Option<i32>,
}

impl CommunicationsSharding {
    /// Create a new sharding configuration: `shard_factor` shards, of which
    /// this connection receives shard `shard_key` (0 to shard_factor-1).
    pub fn new(shard_factor: i32, shard_key: i32) -> (s: Self)
        ensures
            s.shard_factor == Some(shard_factor),
            s.shard_key == Some(shard_key),
    {
        CommunicationsSharding { shard_factor: Some(shard_factor), shard_key: Some(shard_key) }
    }
}

impl Default for CommunicationsSharding {
    /// No sharding: neither a shard factor nor a shard key.
    fn default() -> (s: Self)
        ensures
            s.shard_factor is None,
            s.shard_key is None,
    {
        CommunicationsSharding { shard_factor: None, shard_key: None }
    }
}

} // verus!
