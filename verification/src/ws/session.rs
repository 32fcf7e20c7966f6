//! Bookkeeping of the streaming session: subscriptions, and the requests
//! awaiting their responses.

use vstd::prelude::*;
use std::collections::{HashMap, HashSet};
use crate::text::{
    join_sep, join_strings_with, lemma_string_views_push, nat_to_decimal, push_decimal_u64, str_views,
    string_views, str_equals,
};
use crate::ws::channel::Channel;
use crate::ws::command::{ChannelError, ChannelSubscription, CommunicationsSharding, SubscribeResult, UnsubscribeResult, UpdateAction};
use crate::json::{integer_items, integers_in, string_items, strings_in, text_view, Json};
use crate::ws::protocol::{
    build_subscribe, build_unsubscribe, build_update_subscription, command_text, subscribe_params,
    update_params, channel_names, text_member,
};
use crate::ws::json::{json_array, json_member, decimals_all};

verus! {

broadcast use vstd::std_specs::hash::group_hash_axioms;

/// State of a single channel subscription.
#[derive(Debug, Clone)]
pub struct SubscriptionState {
    /// Server-assigned subscription ID.
    pub sid: i64,
    /// Markets currently subscribed to for this channel, each once.
    pub markets: Vec<String>,
}

impl SubscriptionState {
    /// The markets, as a set.
    pub open spec fn market_set(&self) -> Set<Seq<char>> {
        string_views(self.markets@).to_set()
    }

    /// No market occurs twice.
    pub open spec fn wf(&self) -> bool {
        string_views(self.markets@).no_duplicates()
    }
}

/// Collects the responses to one subscribe request: the server answers
/// each channel of the request separately.
#[derive(Debug, Clone)]
pub struct SubscribeCollector {
    /// Number of responses expected.
    pub expected: usize,
    /// Successfully subscribed channels.
    pub successful: Vec<ChannelSubscription>,
    /// Channels that failed to subscribe.
    pub failed: Vec<ChannelError>,
}

/// `c` is a collector that has received nothing yet and expects
/// `expected` responses.
pub open spec fn fresh_subscribe(c: SubscribeCollector, expected: usize) -> bool {
    c.expected == expected && c.successful@.len() == 0 && c.failed@.len() == 0
}

/// `successful` and `failed` are the lists of `before` with the success
/// `(channel, sid)` appended.
pub open spec fn with_success(
    before: SubscribeCollector,
    successful: Seq<ChannelSubscription>,
    failed: Seq<ChannelError>,
    channel: Seq<char>,
    sid: i64,
) -> bool {
    &&& failed == before.failed@
    &&& successful.len() == before.successful@.len() + 1
    &&& successful.drop_last() == before.successful@
    &&& successful.last().channel@ == channel
    &&& successful.last().sid == sid
}

/// `successful` and `failed` are the lists of `before` with the failure
/// `(code, message)`, for no named channel, appended.
pub open spec fn with_failure(
    before: SubscribeCollector,
    successful: Seq<ChannelSubscription>,
    failed: Seq<ChannelError>,
    code: Seq<char>,
    message: Seq<char>,
) -> bool {
    &&& successful == before.successful@
    &&& failed.len() == before.failed@.len() + 1
    &&& failed.drop_last() == before.failed@
    &&& failed.last().channel is None
    &&& failed.last().code@ == code
    &&& failed.last().message@ == message
}

/// `after` is `before` with the success `(channel, sid)` recorded.
pub open spec fn success_added(
    before: SubscribeCollector,
    after: SubscribeCollector,
    channel: Seq<char>,
    sid: i64,
) -> bool {
    after.expected == before.expected && with_success(before, after.successful@, after.failed@, channel, sid)
}

/// `after` is `before` with the failure `(code, message)`, for no named
/// channel, recorded.
pub open spec fn failure_added(
    before: SubscribeCollector,
    after: SubscribeCollector,
    code: Seq<char>,
    message: Seq<char>,
) -> bool {
    after.expected == before.expected && with_failure(before, after.successful@, after.failed@, code, message)
}

/// Lists holding every expected response of `c`'s request.
pub open spec fn lists_complete(c: SubscribeCollector, successful: Seq<ChannelSubscription>, failed: Seq<ChannelError>) -> bool {
    successful.len() + failed.len() >= c.expected
}

impl SubscribeCollector {
    /// Every expected response has arrived.
    pub open spec fn complete(&self) -> bool {
        self.successful@.len() + self.failed@.len() >= self.expected
    }

    /// Create a new collector expecting `expected` responses.
    pub fn new(expected: usize) -> (c: Self)
        ensures
            fresh_subscribe(c, expected),
    {
        SubscribeCollector { expected, successful: Vec::new(), failed: Vec::new() }
    }

    /// Check if we've received all expected responses.
    pub fn is_complete(&self) -> (b: bool)
        ensures
            b == self.complete(),
    {
        self.successful.len() >= self.expected || self.failed.len() >= self.expected
            - self.successful.len()
    }

    /// Add a successful subscription response; returns whether all
    /// expected responses have been received.
    pub fn add_success(&mut self, channel: String, sid: i64) -> (done: bool)
        ensures
            success_added(*old(self), *final(self), channel@, sid),
            done == final(self).complete(),
    {
        let ghost c = channel@;
        self.successful.push(ChannelSubscription { channel, sid });
        proof {
            assert(self.successful@.drop_last() =~= old(self).successful@);
        }
        self.is_complete()
    }

    /// Add a failed subscription response; returns whether all expected
    /// responses have been received.
    pub fn add_error(&mut self, code: String, message: String) -> (done: bool)
        ensures
            failure_added(*old(self), *final(self), code@, message@),
            done == final(self).complete(),
    {
        self.failed.push(ChannelError { channel: None, code, message });
        proof {
            assert(self.failed@.drop_last() =~= old(self).failed@);
        }
        self.is_complete()
    }

    /// The result of the request: the successes and failures received.
    pub fn finish(self) -> (r: SubscribeResult)
        ensures
            r.successful@ == self.successful@,
            r.failed@ == self.failed@,
    {
        SubscribeResult { successful: self.successful, failed: self.failed }
    }
}

/// Collects the responses to one unsubscribe request: the server answers
/// each subscription id separately.
#[derive(Debug, Clone)]
pub struct UnsubscribeCollector {
    /// Number of responses expected.
    pub expected: usize,
    /// Subscription ids that have been unsubscribed.
    pub unsubscribed: Vec<i64>,
}

impl UnsubscribeCollector {
    /// Every expected response has arrived.
    pub open spec fn complete(&self) -> bool {
        self.unsubscribed@.len() >= self.expected
    }

    /// Create a new collector expecting `expected` responses.
    pub fn new(expected: usize) -> (c: Self)
        ensures
            c.expected == expected,
            c.unsubscribed@.len() == 0,
    {
        UnsubscribeCollector { expected, unsubscribed: Vec::new() }
    }

    /// Check if we've received all expected responses.
    pub fn is_complete(&self) -> (b: bool)
        ensures
            b == self.complete(),
    {
        self.unsubscribed.len() >= self.expected
    }

    /// Record an unsubscribed subscription id; returns whether all
    /// expected responses have been received.
    pub fn add_unsubscribed(&mut self, sid: i64) -> (done: bool)
        ensures
            final(self).expected == old(self).expected,
            final(self).unsubscribed@ == old(self).unsubscribed@.push(sid),
            done == final(self).complete(),
    {
        self.unsubscribed.push(sid);
        self.is_complete()
    }

    /// The result of the request: the subscription ids unsubscribed.
    pub fn finish(self) -> (r: UnsubscribeResult)
        ensures
            r.sids@ == self.unsubscribed@,
    {
        UnsubscribeResult { sids: self.unsubscribed }
    }
}

/// A command to send: its request id, its text, and how many responses
/// the server sends for it.
#[derive(Debug, Clone)]
pub struct OutgoingRequest {
    /// Request id.
    pub id: u64,
    /// The command's text.
    pub text: String,
    /// Number of responses expected.
    pub expected: usize,
}

/// Channels named by their wire names, unknown names dropped.
pub open spec fn parse_channels(names: Seq<Seq<char>>) -> Seq<Channel>
    decreases names.len(),
{
    if names.len() == 0 {
        Seq::empty()
    } else {
        parse_channels(names.drop_last()) + match Channel::from_wire_spec(names.last()) {
            Some(c) => seq![c],
            None => Seq::empty(),
        }
    }
}

/// The channels that need markets, in order.
pub open spec fn needing_markets(cs: Seq<Channel>) -> Seq<Channel>
    decreases cs.len(),
{
    if cs.len() == 0 {
        Seq::empty()
    } else {
        needing_markets(cs.drop_last()) + if cs.last().needs_markets() {
            seq![cs.last()]
        } else {
            Seq::empty()
        }
    }
}

/// The refusal of a subscribe request without markets for channels that
/// need them.
pub open spec fn missing_tickers_text(cs: Seq<Channel>) -> Seq<char> {
    "Market tickers required for channels: "@ + join_sep(channel_names(needing_markets(cs)), ", "@)
}

/// The fields of a response that the session reads: the channel and the
/// subscription id of a subscribe or unsubscribe response, and the market
/// tickers of an update response.
#[derive(Debug, Clone)]
pub struct ResponseFields {
    /// The `channel` member when it is a string.
    pub channel: Option<String>,
    /// The `sid` member when it is an integer.
    pub sid: Option<i64>,
    /// The strings of the `market_tickers` member when it is an array.
    pub market_tickers: Option<Vec<String>>,
}

/// The fields that the payload `msg` of a response gives, as `f` records
/// them: the `channel` member when it is a string, the `sid` member when
/// it is an integer that fits in an `i64`, and the strings among the items
/// of the `market_tickers` member when it is an array.
pub open spec fn fields_read(msg: Json, f: ResponseFields) -> bool {
    &&& text_view(f.channel) == text_member(msg, "channel"@)
    &&& f.sid == match msg.member_of("sid"@) {
        Some(v) => v.i64_value(),
        None => None,
    }
    &&& match msg.member_of("market_tickers"@) {
        Some(Json::Array(items)) => f.market_tickers matches Some(ts) && string_views(ts@)
            == string_items(items@),
        _ => f.market_tickers is None,
    }
}

/// Reads the fields of a response's payload that the session uses.
pub fn read_response_fields(msg: &Json) -> (f: ResponseFields)
    ensures
        fields_read(*msg, f),
{
    let channel = match msg.get("channel") {
        Some(v) => match v.as_str() {
            Some(s) => Some(s.to_owned()),
            None => None,
        },
        None => None,
    };
    let sid = match msg.get("sid") {
        Some(v) => v.as_i64(),
        None => None,
    };
    let market_tickers = match msg.get("market_tickers") {
        Some(v) => match v.as_array() {
            Some(items) => Some(strings_in(items)),
            None => None,
        },
        None => None,
    };
    proof {
        reveal_strlit("channel");
        reveal_strlit("sid");
        reveal_strlit("market_tickers");
    }
    ResponseFields { channel, sid, market_tickers }
}

/// The subscription ids that a subscribe response gives: the integer
/// `sid` member of its payload (`msg`), else the integers of its `sids`
/// array, else none.
pub open spec fn response_sids(response: Json) -> Seq<i64> {
    match response.member_of("msg"@) {
        Some(msg) => match (msg.member_of("sid"@), msg.member_of("sids"@)) {
            (Some(s), _) if s.i64_value() is Some => seq![s.i64_value().unwrap()],
            (_, Some(Json::Array(items))) => integer_items(items@),
            _ => Seq::empty(),
        },
        None => Seq::empty(),
    }
}

/// Extracts the subscription ids from a subscribe response (see
/// `response_sids`). The server sends one response, with a singular
/// `sid`, per subscribed channel.
pub fn extract_sids(response: &Json) -> (r: Vec<i64>)
    ensures
        r@ == response_sids(*response),
{
    proof {
        reveal_strlit("msg");
        reveal_strlit("sid");
        reveal_strlit("sids");
    }
    let msg = match response.get("msg") {
        Some(m) => m,
        None => return Vec::new(),
    };
    if let Some(s) = msg.get("sid") {
        if let Some(sid) = s.as_i64() {
            let mut v: Vec<i64> = Vec::new();
            v.push(sid);
            return v;
        }
    }
    match msg.get("sids") {
        Some(items) => match items.as_array() {
            Some(arr) => integers_in(arr),
            None => Vec::new(),
        },
        None => Vec::new(),
    }
}

/// What a response to a command completes.
#[derive(Debug, Clone)]
pub enum ResponseStep {
    /// A channel of a pending subscribe request was subscribed; `done` is
    /// the request's result once every response arrived (it is then no
    /// longer pending).
    Subscribed { done: Option<SubscribeResult> },
    /// A subscription was closed: `sid` is reported to the subscribers
    /// when known; `done` is the result of the pending unsubscribe request
    /// once every response arrived.
    Unsubscribed { sid: Option<i64>, done: Option<UnsubscribeResult> },
    /// A pending update_subscription request is answered with the markets
    /// now subscribed.
    Updated { markets: Vec<String> },
    /// Nothing awaited this response.
    Unexpected,
}

/// What an error response completes.
#[derive(Debug, Clone)]
pub enum ErrorStep {
    /// A channel of a pending subscribe request failed; `done` is the
    /// request's result once every response arrived.
    Subscribed { done: Option<SubscribeResult> },
    /// A pending unsubscribe request failed and is dropped.
    UnsubscribeFailed,
    /// A pending update_subscription request failed with this error
    /// (`code: message`).
    UpdateFailed { error: String },
    /// Nothing awaited this error.
    Unhandled,
}

/// The requests of a session awaiting their responses, and the id of the
/// next request.
#[derive(Debug)]
pub struct PendingRequests {
    next_request_id: u64,
    pending_subscriptions: HashMap<u64, SubscribeCollector>,
    pending_unsubscriptions: HashMap<u64, UnsubscribeCollector>,
    pending_updates: HashSet<u64>,
}

impl PendingRequests {
    /// The id of the next request.
    pub closed spec fn next_id(&self) -> u64 {
        self.next_request_id
    }

    /// The pending subscribe requests, by request id.
    pub closed spec fn subscribes(&self) -> Map<u64, SubscribeCollector> {
        self.pending_subscriptions@
    }

    /// The pending unsubscribe requests, by request id.
    pub closed spec fn unsubscribes(&self) -> Map<u64, UnsubscribeCollector> {
        self.pending_unsubscriptions@
    }

    /// The pending update_subscription requests.
    pub closed spec fn updates(&self) -> Set<u64> {
        self.pending_updates@
    }

    /// `after` keeps the pending requests of `before`.
    pub open spec fn same_pending(before: Self, after: Self) -> bool {
        &&& after.subscribes() == before.subscribes()
        &&& after.unsubscribes() == before.unsubscribes()
        &&& after.updates() == before.updates()
    }

    /// No request pending; the first request gets id 1.
    pub fn new() -> (p: Self)
        ensures
            p.next_id() == 1,
            p.subscribes() == Map::<u64, SubscribeCollector>::empty(),
            p.unsubscribes() == Map::<u64, UnsubscribeCollector>::empty(),
            p.updates() == Set::<u64>::empty(),
    {
        PendingRequests {
            next_request_id: 1,
            pending_subscriptions: HashMap::new(),
            pending_unsubscriptions: HashMap::new(),
            pending_updates: HashSet::new(),
        }
    }

    /// The id of the next request.
    pub fn next_request_id(&self) -> (id: u64)
        ensures
            id == self.next_id(),
    {
        self.next_request_id
    }

    /// Takes the id of the next request.
    fn take_id(&mut self) -> (id: u64)
        requires
            old(self).next_id() < u64::MAX,
        ensures
            id == old(self).next_id(),
            final(self).next_id() == id + 1,
            Self::same_pending(*old(self), *final(self)),
    {
        let id = self.next_request_id;
        self.next_request_id = id + 1;
        id
    }

    /// Prepares a subscribe command for the named channels and the market
    /// tickers: unknown channel names are dropped; with no channel left,
    /// or without market tickers for channels that need them, the request
    /// is refused and no id is taken. Otherwise the next id is taken and
    /// one response per channel is expected.
    pub fn prepare_subscribe(
        &mut self,
        channels: &[&str],
        market_tickers: &[&str],
        sharding: Option<&CommunicationsSharding>,
    ) -> (r: Result<OutgoingRequest, String>)
        requires
            old(self).next_id() < u64::MAX,
        ensures
            Self::same_pending(*old(self), *final(self)),
            ({
                let cs = parse_channels(str_views(channels@));
                if cs.len() == 0 {
                    &&& r matches Err(e)
                    &&& e@ == "No valid channels specified"@
                    &&& final(self).next_id() == old(self).next_id()
                } else if market_tickers@.len() == 0 && needing_markets(cs).len() > 0 {
                    &&& r matches Err(e)
                    &&& e@ == missing_tickers_text(cs)
                    &&& final(self).next_id() == old(self).next_id()
                } else {
                    &&& r matches Ok(req)
                    &&& req.id == old(self).next_id()
                    &&& final(self).next_id() == req.id + 1
                    &&& req.expected == cs.len()
                    &&& req.text@ == command_text(
                        req.id,
                        "subscribe"@,
                        Some(
                            subscribe_params(
                                cs,
                                str_views(market_tickers@),
                                Seq::empty(),
                                match sharding {
                                    Some(s) => Some(*s),
                                    None => None,
                                },
                                None,
                                None,
                            ),
                        ),
                    )
                }
            }),
    {
        let mut cs: Vec<Channel> = Vec::new();
        let n = channels.len();
        let mut i: usize = 0;
        proof {
            assert(str_views(channels@).take(0) =~= Seq::<Seq<char>>::empty());
        }
        while i < n
            invariant
                n == channels@.len(),
                0 <= i <= n,
                cs@ == parse_channels(str_views(channels@).take(i as int)),
            decreases n - i,
        {
            proof {
                let t = str_views(channels@).take(i + 1);
                assert(t.drop_last() =~= str_views(channels@).take(i as int));
                assert(t.last() == channels@[i as int]@);
            }
            match Channel::from_wire(channels[i]) {
                Some(c) => {
                    cs.push(c);
                },
                None => {},
            }
            i = i + 1;
        }
        proof {
            assert(str_views(channels@).take(n as int) =~= str_views(channels@));
        }
        if cs.len() == 0 {
            return Err(String::from_str("No valid channels specified"));
        }
        if market_tickers.len() == 0 {
            let mut names: Vec<String> = Vec::new();
            let m = cs.len();
            let mut k: usize = 0;
            proof {
                assert(cs@.take(0) =~= Seq::<Channel>::empty());
            }
            while k < m
                invariant
                    m == cs@.len(),
                    0 <= k <= m,
                    string_views(names@) == channel_names(needing_markets(cs@.take(k as int))),
                decreases m - k,
            {
                let c = cs[k];
                let ghost prev = names@;
                proof {
                    assert(cs@.take(k + 1).drop_last() =~= cs@.take(k as int));
                    assert(cs@.take(k + 1).last() == c);
                }
                if c.requires_market_ticker() {
                    let name = String::from_str(c.as_str());
                    names.push(name);
                    proof {
                        lemma_string_views_push(prev, name);
                        assert(channel_names(needing_markets(cs@.take(k + 1))) =~= channel_names(
                            needing_markets(cs@.take(k as int)),
                        ).push(c.wire_name()));
                    }
                } else {
                    proof {
                        assert(needing_markets(cs@.take(k + 1)) =~= needing_markets(cs@.take(k as int)));
                    }
                }
                k = k + 1;
            }
            proof {
                assert(cs@.take(m as int) =~= cs@);
            }
            if names.len() > 0 {
                let mut e = String::from_str("Market tickers required for channels: ");
                let joined = join_strings_with(&names, ", ");
                e.append(joined.as_str());
                return Err(e);
            }
        }
        let id = self.take_id();
        let no_ids: Vec<&str> = Vec::new();
        let text = build_subscribe(id, cs.as_slice(), market_tickers, no_ids.as_slice(), sharding, None, None);
        proof {
            assert(str_views(no_ids@) =~= Seq::<Seq<char>>::empty());
        }
        Ok(OutgoingRequest { id, text, expected: cs.len() })
    }

    /// Records a sent subscribe command as pending, expecting `expected`
    /// responses.
    pub fn register_subscribe(&mut self, id: u64, expected: usize)
        ensures
            final(self).next_id() == old(self).next_id(),
            final(self).subscribes() == old(self).subscribes().insert(id, final(self).subscribes()[id]),
            fresh_subscribe(final(self).subscribes()[id], expected),
            final(self).unsubscribes() == old(self).unsubscribes(),
            final(self).updates() == old(self).updates(),
    {
        self.pending_subscriptions.insert(id, SubscribeCollector::new(expected));
    }

    /// Prepares an unsubscribe command for the subscription ids, taking
    /// the next id; one response per subscription id is expected.
    pub fn prepare_unsubscribe(&mut self, sids: &[i64]) -> (req: OutgoingRequest)
        requires
            old(self).next_id() < u64::MAX,
        ensures
            Self::same_pending(*old(self), *final(self)),
            req.id == old(self).next_id(),
            final(self).next_id() == req.id + 1,
            req.expected == sids@.len(),
            req.text@ == command_text(
                req.id,
                "unsubscribe"@,
                Some(seq![json_member("sids"@, json_array(decimals_all(sids@)))]),
            ),
    {
        let id = self.take_id();
        let text = build_unsubscribe(id, sids);
        OutgoingRequest { id, text, expected: sids.len() }
    }

    /// Records a sent unsubscribe command as pending, expecting `expected`
    /// responses.
    pub fn register_unsubscribe(&mut self, id: u64, expected: usize)
        ensures
            final(self).next_id() == old(self).next_id(),
            final(self).unsubscribes() == old(self).unsubscribes().insert(id, final(self).unsubscribes()[id]),
            final(self).unsubscribes()[id].expected == expected,
            final(self).unsubscribes()[id].unsubscribed@.len() == 0,
            final(self).subscribes() == old(self).subscribes(),
            final(self).updates() == old(self).updates(),
    {
        self.pending_unsubscriptions.insert(id, UnsubscribeCollector::new(expected));
    }

    /// Prepares an update_subscription command adding or removing market
    /// tickers of the subscription `sid`, taking the next id; one response
    /// is expected.
    pub fn prepare_update(&mut self, sid: i64, markets: &[&str], action: UpdateAction) -> (req: OutgoingRequest)
        requires
            old(self).next_id() < u64::MAX,
        ensures
            Self::same_pending(*old(self), *final(self)),
            req.id == old(self).next_id(),
            final(self).next_id() == req.id + 1,
            req.expected == 1,
            req.text@ == command_text(
                req.id,
                "update_subscription"@,
                Some(update_params(sid, str_views(markets@), Seq::empty(), action, None)),
            ),
    {
        let id = self.take_id();
        let no_ids: Vec<&str> = Vec::new();
        let text = build_update_subscription(id, sid, markets, no_ids.as_slice(), action, None);
        proof {
            assert(str_views(no_ids@) =~= Seq::<Seq<char>>::empty());
        }
        OutgoingRequest { id, text, expected: 1 }
    }

    /// Records a sent update_subscription command as pending.
    pub fn register_update(&mut self, id: u64)
        ensures
            final(self).next_id() == old(self).next_id(),
            final(self).updates() == old(self).updates().insert(id),
            final(self).subscribes() == old(self).subscribes(),
            final(self).unsubscribes() == old(self).unsubscribes(),
    {
        self.pending_updates.insert(id);
    }

    /// Drops every pending request.
    pub fn clear(&mut self)
        ensures
            final(self).next_id() == old(self).next_id(),
            final(self).subscribes() == Map::<u64, SubscribeCollector>::empty(),
            final(self).unsubscribes() == Map::<u64, UnsubscribeCollector>::empty(),
            final(self).updates() == Set::<u64>::empty(),
    {
        self.pending_subscriptions.clear();
        self.pending_unsubscriptions.clear();
        self.pending_updates.clear();
    }

    /// Handles a response to command `id` of type `msg_type`, with the
    /// fields read from its payload:
    ///
    /// - `subscribed`, for a pending subscribe request: records the
    ///   channel (`unknown` when absent) and subscription id (-1 when
    ///   absent), and completes the request once every response arrived;
    /// - `unsubscribed`: reports the subscription id, and for a pending
    ///   unsubscribe request records it (-1 when absent), completing the
    ///   request once every response arrived;
    /// - `ok`, for a pending update_subscription request: completes it
    ///   with the market tickers (none when absent);
    /// - anything else changes nothing.
    pub fn on_response(&mut self, id: u64, msg_type: &str, fields: ResponseFields) -> (r: ResponseStep)
        ensures
            final(self).next_id() == old(self).next_id(),
            ({
                let t = msg_type@;
                if t == "subscribed"@ && old(self).subscribes().contains_key(id) {
                    let before = old(self).subscribes()[id];
                    let ch = match fields.channel {
                        Some(c) => c@,
                        None => "unknown"@,
                    };
                    let sid = match fields.sid {
                        Some(s) => s,
                        None => -1i64,
                    };
                    &&& final(self).unsubscribes() == old(self).unsubscribes()
                    &&& final(self).updates() == old(self).updates()
                    &&& r matches ResponseStep::Subscribed { done }
                    &&& match done {
                        Some(res) => {
                            &&& final(self).subscribes() == old(self).subscribes().remove(id)
                            &&& with_success(before, res.successful@, res.failed@, ch, sid)
                            &&& lists_complete(before, res.successful@, res.failed@)
                        },
                        None => {
                            let after = final(self).subscribes()[id];
                            &&& final(self).subscribes() == old(self).subscribes().insert(id, after)
                            &&& success_added(before, after, ch, sid)
                            &&& !after.complete()
                        },
                    }
                } else if t == "unsubscribed"@ {
                    &&& final(self).subscribes() == old(self).subscribes()
                    &&& final(self).updates() == old(self).updates()
                    &&& r matches ResponseStep::Unsubscribed { sid, done }
                    &&& sid == fields.sid
                    &&& if old(self).unsubscribes().contains_key(id) {
                        let before = old(self).unsubscribes()[id];
                        let got = before.unsubscribed@.push(match fields.sid {
                            Some(s) => s,
                            None => -1i64,
                        });
                        if got.len() >= before.expected {
                            &&& final(self).unsubscribes() == old(self).unsubscribes().remove(id)
                            &&& done matches Some(res)
                            &&& res.sids@ == got
                        } else {
                            &&& final(self).unsubscribes() == old(self).unsubscribes().insert(
                                id,
                                final(self).unsubscribes()[id],
                            )
                            &&& final(self).unsubscribes()[id].expected == before.expected
                            &&& final(self).unsubscribes()[id].unsubscribed@ == got
                            &&& done is None
                        }
                    } else {
                        &&& final(self).unsubscribes() == old(self).unsubscribes()
                        &&& done is None
                    }
                } else if t == "ok"@ && old(self).updates().contains(id) {
                    &&& final(self).subscribes() == old(self).subscribes()
                    &&& final(self).unsubscribes() == old(self).unsubscribes()
                    &&& final(self).updates() == old(self).updates().remove(id)
                    &&& r matches ResponseStep::Updated { markets }
                    &&& match fields.market_tickers {
                        Some(m) => markets == m,
                        None => markets@.len() == 0,
                    }
                } else {
                    &&& Self::same_pending(*old(self), *final(self))
                    &&& r is Unexpected
                }
            }),
    {
        let ghost old_self = *self;
        let ghost spec_ch = match &fields.channel {
            Some(c) => c@,
            None => "unknown"@,
        };
        let ghost spec_sid = match fields.sid {
            Some(s) => s,
            None => -1i64,
        };
        if str_equals(msg_type, "subscribed") {
            let removed = self.pending_subscriptions.remove(&id);
            if removed.is_none() {
                proof {
                    assert(self.subscribes() =~= old_self.subscribes());
                }
            }
            if let Some(mut c) = removed {
                let ghost before = c;
                let ch = match fields.channel {
                    Some(c) => c,
                    None => String::from_str("unknown"),
                };
                let sid = match fields.sid {
                    Some(s) => s,
                    None => -1,
                };
                let done = c.add_success(ch, sid);
                let ghost after = c;
                if done {
                    let res = c.finish();
                    proof {
                        assert(old_self.subscribes().contains_key(id));
                        assert(before == old_self.subscribes()[id]);
                        assert(success_added(old_self.subscribes()[id], after, spec_ch, spec_sid));
                    }
                    return ResponseStep::Subscribed { done: Some(res) };
                } else {
                    self.pending_subscriptions.insert(id, c);
                    proof {
                        assert(old_self.subscribes().contains_key(id));
                        assert(before == old_self.subscribes()[id]);
                        assert(success_added(old_self.subscribes()[id], after, spec_ch, spec_sid));
                        assert(self.subscribes() =~= old_self.subscribes().insert(id, after));
                    }
                    return ResponseStep::Subscribed { done: None };
                }
            }
        }
        if str_equals(msg_type, "unsubscribed") {
            let sid = fields.sid;
            let done = match self.pending_unsubscriptions.remove(&id) {
                Some(mut c) => {
                    let got = match sid {
                        Some(s) => s,
                        None => -1,
                    };
                    if c.add_unsubscribed(got) {
                        Some(c.finish())
                    } else {
                        self.pending_unsubscriptions.insert(id, c);
                        proof {
                            assert(self.unsubscribes() =~= old_self.unsubscribes().insert(id, c));
                        }
                        None
                    }
                },
                None => {
                    proof {
                        assert(self.unsubscribes() =~= old_self.unsubscribes());
                    }
                    None
                },
            };
            return ResponseStep::Unsubscribed { sid, done };
        }
        if str_equals(msg_type, "ok") && self.pending_updates.contains(&id) {
            self.pending_updates.remove(&id);
            let markets = match fields.market_tickers {
                Some(m) => m,
                None => Vec::new(),
            };
            return ResponseStep::Updated { markets };
        }
        ResponseStep::Unexpected
    }

    /// Handles an error response to command `id`: a pending subscribe
    /// request records the failure (completing once every response
    /// arrived); a pending unsubscribe request is dropped; a pending
    /// update_subscription request fails with `code: message`; anything
    /// else changes nothing.
    pub fn on_error(&mut self, id: Option<u64>, code: String, message: String) -> (r: ErrorStep)
        ensures
            final(self).next_id() == old(self).next_id(),
            match id {
                None => Self::same_pending(*old(self), *final(self)) && r is Unhandled,
                Some(i) => if old(self).subscribes().contains_key(i) {
                    let before = old(self).subscribes()[i];
                    &&& final(self).unsubscribes() == old(self).unsubscribes()
                    &&& final(self).updates() == old(self).updates()
                    &&& r matches ErrorStep::Subscribed { done }
                    &&& match done {
                        Some(res) => {
                            &&& final(self).subscribes() == old(self).subscribes().remove(i)
                            &&& with_failure(before, res.successful@, res.failed@, code@, message@)
                            &&& lists_complete(before, res.successful@, res.failed@)
                        },
                        None => {
                            let after = final(self).subscribes()[i];
                            &&& final(self).subscribes() == old(self).subscribes().insert(i, after)
                            &&& failure_added(before, after, code@, message@)
                            &&& !after.complete()
                        },
                    }
                } else if old(self).unsubscribes().contains_key(i) {
                    &&& final(self).subscribes() == old(self).subscribes()
                    &&& final(self).unsubscribes() == old(self).unsubscribes().remove(i)
                    &&& final(self).updates() == old(self).updates()
                    &&& r is UnsubscribeFailed
                } else if old(self).updates().contains(i) {
                    &&& final(self).subscribes() == old(self).subscribes()
                    &&& final(self).unsubscribes() == old(self).unsubscribes()
                    &&& final(self).updates() == old(self).updates().remove(i)
                    &&& r matches ErrorStep::UpdateFailed { error }
                    &&& error@ == code@ + ": "@ + message@
                } else {
                    Self::same_pending(*old(self), *final(self)) && r is Unhandled
                },
            },
    {
        let ghost old_self = *self;
        let i = match id {
            Some(i) => i,
            None => return ErrorStep::Unhandled,
        };
        let removed = self.pending_subscriptions.remove(&i);
        if removed.is_none() {
            proof {
                assert(self.subscribes() =~= old_self.subscribes());
            }
        }
        if let Some(mut c) = removed {
            let ghost before = c;
            let ghost cv = code@;
            let ghost mv = message@;
            let done = c.add_error(code, message);
            let ghost after = c;
            proof {
                assert(failure_added(before, after, cv, mv));
            }
            if done {
                return ErrorStep::Subscribed { done: Some(c.finish()) };
            } else {
                self.pending_subscriptions.insert(i, c);
                proof {
                    assert(self.subscribes() =~= old_self.subscribes().insert(i, after));
                }
                return ErrorStep::Subscribed { done: None };
            }
        }
        if self.pending_unsubscriptions.contains_key(&i) {
            self.pending_unsubscriptions.remove(&i);
            return ErrorStep::UnsubscribeFailed;
        }
        if self.pending_updates.contains(&i) {
            self.pending_updates.remove(&i);
            let mut error = code;
            error.append(": ");
            error.append(message.as_str());
            return ErrorStep::UpdateFailed { error };
        }
        ErrorStep::Unhandled
    }
}


/// Backoff after the first failed connection attempt, in milliseconds; it
/// doubles with each further attempt.
pub const BACKOFF_BASE_MILLIS: u64 = 500;

/// Maximum backoff between connection attempts, in milliseconds.
pub const MAX_BACKOFF_MILLIS: u64 = 60000;

/// Timeout of one connection attempt, in milliseconds.
pub const CONNECT_TIMEOUT_MILLIS: u64 = 5000;

/// The path whose request is signed to open the streaming connection.
pub const WS_SIGN_PATH: &'static str = "/trade-api/ws/v2";

/// The message signed to authenticate a request: the timestamp in
/// milliseconds, the method and the path, run together.
pub fn signing_message(timestamp_ms: u64, method: &str, path: &str) -> (m: String)
    ensures
        m@ == nat_to_decimal(timestamp_ms as nat) + method@ + path@,
{
    let mut m = String::new();
    push_decimal_u64(&mut m, timestamp_ms);
    m.append(method);
    m.append(path);
    m
}

/// The backoff after connection attempt `attempt`: the base backoff after
/// the first attempt (and before any), doubled after each further attempt,
/// capped at the maximum backoff.
pub open spec fn backoff_spec(attempt: nat) -> int
    decreases attempt,
{
    if attempt <= 1 {
        BACKOFF_BASE_MILLIS as int
    } else {
        let doubled = 2 * backoff_spec((attempt - 1) as nat);
        if doubled < MAX_BACKOFF_MILLIS {
            doubled
        } else {
            MAX_BACKOFF_MILLIS as int
        }
    }
}

/// Once the backoff reaches the maximum it stays there.
proof fn lemma_backoff_saturates(k: nat, n: nat)
    requires
        1 <= k <= n,
        backoff_spec(k) == MAX_BACKOFF_MILLIS,
    ensures
        backoff_spec(n) == MAX_BACKOFF_MILLIS,
    decreases n - k,
{
    if n > k {
        lemma_backoff_saturates(k, (n - 1) as nat);
    }
}

/// The wait before the next connection attempt after attempt `attempt`,
/// in milliseconds (see `backoff_spec`): exponential backoff capped at the
/// maximum.
pub fn backoff_millis(attempt: u64) -> (ms: u64)
    ensures
        ms == backoff_spec(attempt as nat),
{
    let mut ms: u64 = BACKOFF_BASE_MILLIS;
    let mut k: u64 = 1;
    while k < attempt && ms < MAX_BACKOFF_MILLIS
        invariant
            1 <= k,
            k == 1 || k <= attempt,
            ms == backoff_spec(k as nat),
            0 < ms <= MAX_BACKOFF_MILLIS,
        decreases attempt - k,
    {
        let doubled = 2 * ms;
        ms = if doubled < MAX_BACKOFF_MILLIS {
            doubled
        } else {
            MAX_BACKOFF_MILLIS
        };
        k = k + 1;
    }
    proof {
        if k < attempt {
            lemma_backoff_saturates(k as nat, attempt as nat);
        }
    }
    ms
}

/// The backoff lies between the base backoff and the maximum, and never
/// shrinks as the attempt number grows.
pub proof fn law_backoff_bounded_and_growing(a: nat, b: nat)
    requires
        a <= b,
    ensures
        BACKOFF_BASE_MILLIS <= backoff_spec(a) <= MAX_BACKOFF_MILLIS,
        backoff_spec(a) <= backoff_spec(b),
    decreases b,
{
    if b > a {
        law_backoff_bounded_and_growing(a, (b - 1) as nat);
        law_backoff_bounded_and_growing((b - 1) as nat, (b - 1) as nat);
    } else if a > 1 {
        law_backoff_bounded_and_growing((a - 1) as nat, (a - 1) as nat);
    }
}

} // verus!
