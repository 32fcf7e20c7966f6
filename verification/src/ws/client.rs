//! Subscription bookkeeping of the streaming client: which channels are
//! subscribed, under which subscription id, for which markets, and what a
//! subscribe or unsubscribe request has to do.

use vstd::prelude::*;
use crate::error::Error;
use crate::text::{
    contains_text, distinct_strings, join_sep, join_strings_with, lemma_string_views_push,
    str_views, string_views,
};
use crate::ws::channel::Channel;
use crate::ws::command::{ChannelError, SubscribeResult, sids_of};
use crate::ws::session::SubscriptionState;

verus! {

/// Default buffer size for the broadcast channel.
pub const DEFAULT_BUFFER_SIZE: usize = 1024;

/// The items not in `have`, in order.
pub open spec fn keep_missing(items: Seq<Seq<char>>, have: Set<Seq<char>>) -> Seq<Seq<char>>
    decreases items.len(),
{
    if items.len() == 0 {
        Seq::empty()
    } else {
        keep_missing(items.drop_last(), have) + (if have.contains(items.last()) {
            Seq::empty()
        } else {
            seq![items.last()]
        })
    }
}

/// What a subscribe request has to do.
#[derive(Debug, Clone)]
pub enum SubscribePlan {
    /// The request is refused.
    Rejected(Error),
    /// Every requested market is already subscribed: nothing to do.
    AlreadySubscribed,
    /// Add the markets to the channel's subscription `sid`.
    AddMarkets { sid: i64, markets: Vec<String> },
    /// Subscribe to the channel for the markets.
    Subscribe { markets: Vec<String> },
}

/// What an unsubscribe request has to do.
#[derive(Debug, Clone)]
pub enum UnsubscribePlan {
    /// No market was given: nothing to do.
    NoOp,
    /// The request is refused.
    Rejected(Error),
    /// Close the subscription `sid`: no market would remain.
    Unsubscribe { sid: i64 },
    /// Remove the markets from the subscription `sid`.
    DeleteMarkets { sid: i64, markets: Vec<String> },
}

/// The text of a subscription failure: `code: message`.
pub open spec fn failure_line(e: ChannelError) -> Seq<char> {
    e.code@ + ": "@ + e.message@
}

/// The text of the failures of a subscribe request, joined with `; `.
pub open spec fn failures_text(failed: Seq<ChannelError>) -> Seq<char> {
    join_sep(failed.map_values(|e: ChannelError| failure_line(e)), "; "@)
}

/// The error for a channel that is not subscribed.
pub open spec fn not_subscribed_text(c: Channel) -> Seq<char> {
    "Not subscribed to channel: "@ + c.wire_name()
}

/// Some of the `given` markets is one of the subscription's markets.
pub open spec fn touches(st: SubscriptionState, given: Seq<Seq<char>>) -> bool {
    exists|j: int| 0 <= j < given.len() && st.market_set().contains(#[trigger] given[j])
}

/// Channels occur once each.
pub open spec fn channels_unique(e: Seq<(Channel, SubscriptionState)>) -> bool {
    forall|i: int, j: int| 0 <= i < j < e.len() ==> #[trigger] e[i].0 != #[trigger] e[j].0
}

/// The subscriptions of a client: for each subscribed channel, its
/// subscription id and markets.
#[derive(Debug, Clone)]
pub struct SubscriptionTable {
    entries: Vec<(Channel, SubscriptionState)>,
}

impl SubscriptionTable {
    /// The subscriptions, in the order in which they were made.
    pub closed spec fn entries(&self) -> Seq<(Channel, SubscriptionState)> {
        self.entries@
    }

    /// Whether the channel is subscribed.
    pub open spec fn has(&self, c: Channel) -> bool {
        exists|i: int| 0 <= i < self.entries().len() && #[trigger] self.entries()[i].0 == c
    }

    /// The subscription of a subscribed channel.
    pub open spec fn state_of(&self, c: Channel) -> SubscriptionState {
        self.entries()[choose|i: int| 0 <= i < self.entries().len() && #[trigger] self.entries()[i].0 == c].1
    }

    /// The subscribed channels, each with its subscription.
    pub open spec fn subs(&self) -> Map<Channel, SubscriptionState> {
        Map::new(|c: Channel| self.has(c), |c: Channel| self.state_of(c))
    }

    /// Channels are unique and no subscription lists a market twice.
    pub open spec fn wf(&self) -> bool {
        &&& channels_unique(self.entries())
        &&& forall|i: int| 0 <= i < self.entries().len() ==> (#[trigger] self.entries()[i]).1.wf()
    }

    /// The entry at position `i` is the one `subs` gives for its channel.
    proof fn lemma_entry(&self, i: int)
        requires
            self.wf(),
            0 <= i < self.entries().len(),
        ensures
            self.subs().contains_key(self.entries()[i].0),
            self.subs()[self.entries()[i].0] == self.entries()[i].1,
    {
        let c = self.entries()[i].0;
        assert(self.has(c));
        let j = choose|j: int| 0 <= j < self.entries().len() && #[trigger] self.entries()[j].0 == c;
        if j != i {
            if j < i {
                assert(self.entries()[j].0 != self.entries()[i].0);
            } else {
                assert(self.entries()[i].0 != self.entries()[j].0);
            }
        }
    }

    /// Replacing the state at position `i` replaces the channel's
    /// subscription and keeps the others.
    proof fn lemma_set_entry(before: Self, after: Self, i: int, st: SubscriptionState)
        requires
            before.wf(),
            0 <= i < before.entries().len(),
            st.wf(),
            after.entries() == before.entries().update(i, (before.entries()[i].0, st)),
        ensures
            after.wf(),
            after.subs() == before.subs().insert(before.entries()[i].0, st),
    {
        let c = before.entries()[i].0;
        assert forall|a: int, b: int| 0 <= a < b < after.entries().len() implies #[trigger] after.entries()[a].0
            != #[trigger] after.entries()[b].0 by {
            assert(before.entries()[a].0 != before.entries()[b].0);
        }
        after.lemma_entry(i);
        assert forall|k: Channel| #![trigger after.subs().contains_key(k)] k != c implies after.subs().contains_key(k)
            == before.subs().contains_key(k) && (after.subs().contains_key(k) ==> after.subs()[k]
            == before.subs()[k]) by {
            if before.subs().contains_key(k) {
                let j = choose|j: int| 0 <= j < before.entries().len() && #[trigger] before.entries()[j].0 == k;
                before.lemma_entry(j);
                assert(after.entries()[j] == before.entries()[j]);
                after.lemma_entry(j);
            }
            if after.subs().contains_key(k) {
                let j = choose|j: int| 0 <= j < after.entries().len() && #[trigger] after.entries()[j].0 == k;
                assert(after.entries()[j] == before.entries()[j]);
                assert(before.has(k));
            }
        }
        assert(after.subs() =~= before.subs().insert(c, st));
    }

    /// Appending a channel that is not subscribed adds its subscription.
    proof fn lemma_push_entry(before: Self, after: Self, c: Channel, st: SubscriptionState)
        requires
            before.wf(),
            !before.subs().contains_key(c),
            st.wf(),
            after.entries() == before.entries().push((c, st)),
        ensures
            after.wf(),
            after.subs() == before.subs().insert(c, st),
    {
        let n = before.entries().len() as int;
        assert forall|a: int, b: int| 0 <= a < b < after.entries().len() implies #[trigger] after.entries()[a].0
            != #[trigger] after.entries()[b].0 by {
            if b < n {
                assert(before.entries()[a].0 != before.entries()[b].0);
            } else {
                assert(after.entries()[a] == before.entries()[a]);
                if before.entries()[a].0 == c {
                    assert(before.has(c));
                }
            }
        }
        after.lemma_entry(n);
        assert forall|k: Channel| #![trigger after.subs().contains_key(k)] k != c implies after.subs().contains_key(k)
            == before.subs().contains_key(k) && (after.subs().contains_key(k) ==> after.subs()[k]
            == before.subs()[k]) by {
            if before.subs().contains_key(k) {
                let j = choose|j: int| 0 <= j < before.entries().len() && #[trigger] before.entries()[j].0 == k;
                before.lemma_entry(j);
                assert(after.entries()[j] == before.entries()[j]);
                after.lemma_entry(j);
            }
            if after.subs().contains_key(k) {
                let j = choose|j: int| 0 <= j < after.entries().len() && #[trigger] after.entries()[j].0 == k;
                assert(j != n);
                assert(after.entries()[j] == before.entries()[j]);
                assert(before.has(k));
            }
        }
        assert(after.subs() =~= before.subs().insert(c, st));
    }

    /// Removing the entry at position `i` removes its channel's
    /// subscription and keeps the others.
    proof fn lemma_remove_entry(before: Self, after: Self, i: int)
        requires
            before.wf(),
            0 <= i < before.entries().len(),
            after.entries() == before.entries().remove(i),
        ensures
            after.wf(),
            after.subs() == before.subs().remove(before.entries()[i].0),
    {
        let c = before.entries()[i].0;
        assert forall|a: int, b: int| 0 <= a < b < after.entries().len() implies #[trigger] after.entries()[a].0
            != #[trigger] after.entries()[b].0 by {
            let a2 = if a < i { a } else { a + 1 };
            let b2 = if b < i { b } else { b + 1 };
            assert(before.entries()[a2].0 != before.entries()[b2].0);
        }
        assert forall|a: int| 0 <= a < after.entries().len() implies (#[trigger] after.entries()[a]).1.wf() by {
            let a2 = if a < i { a } else { a + 1 };
            assert(after.entries()[a] == before.entries()[a2]);
        }
        before.lemma_entry(i);
        assert forall|k: Channel| #![trigger after.subs().contains_key(k)] after.subs().contains_key(k)
            == before.subs().remove(c).contains_key(k) && (after.subs().contains_key(k) ==> after.subs()[k]
            == before.subs()[k]) by {
            if before.subs().contains_key(k) && k != c {
                let j = choose|j: int| 0 <= j < before.entries().len() && #[trigger] before.entries()[j].0 == k;
                before.lemma_entry(j);
                let j2 = if j < i { j } else { j - 1 };
                assert(after.entries()[j2] == before.entries()[j]);
                after.lemma_entry(j2);
            }
            if after.subs().contains_key(k) {
                let j = choose|j: int| 0 <= j < after.entries().len() && #[trigger] after.entries()[j].0 == k;
                let j2 = if j < i { j } else { j + 1 };
                assert(after.entries()[j] == before.entries()[j2]);
                assert(before.has(k));
                if k == c {
                    if j2 < i {
                        assert(before.entries()[j2].0 != before.entries()[i].0);
                    } else {
                        assert(before.entries()[i].0 != before.entries()[j2].0);
                    }
                }
                before.lemma_entry(j2);
                after.lemma_entry(j);
            }
        }
        assert(after.subs() =~= before.subs().remove(c));
    }

    /// The position of a channel, if subscribed.
    fn find(&self, channel: Channel) -> (r: Option<usize>)
        requires
            self.wf(),
        ensures
            match r {
                Some(i) => i < self.entries().len() && self.entries()[i as int].0 == channel,
                None => !self.subs().contains_key(channel),
            },
    {
        let n = self.entries.len();
        let mut i: usize = 0;
        while i < n
            invariant
                n == self.entries@.len(),
                0 <= i <= n,
                forall|j: int| 0 <= j < i ==> #[trigger] self.entries()[j].0 != channel,
            decreases n - i,
        {
            if self.entries[i].0 == channel {
                return Some(i);
            }
            i = i + 1;
        }
        None
    }

    /// An empty table: no channel is subscribed.
    pub fn new() -> (t: Self)
        ensures
            t.wf(),
            t.subs() == Map::<Channel, SubscriptionState>::empty(),
    {
        let t = SubscriptionTable { entries: Vec::new() };
        proof {
            assert(t.subs() =~= Map::<Channel, SubscriptionState>::empty());
        }
        t
    }

    /// Whether the channel is subscribed.
    pub fn is_subscribed(&self, channel: Channel) -> (b: bool)
        requires
            self.wf(),
        ensures
            b == self.subs().contains_key(channel),
    {
        proof {
            if self.subs().contains_key(channel) {
            }
        }
        match self.find(channel) {
            Some(i) => {
                proof {
                    self.lemma_entry(i as int);
                }
                true
            },
            None => false,
        }
    }

    /// The subscription id of a channel, if subscribed.
    pub fn sid(&self, channel: Channel) -> (r: Option<i64>)
        requires
            self.wf(),
        ensures
            r == (if self.subs().contains_key(channel) {
                Some(self.subs()[channel].sid)
            } else {
                None
            }),
    {
        match self.find(channel) {
            Some(i) => {
                proof {
                    self.lemma_entry(i as int);
                }
                Some(self.entries[i].1.sid)
            },
            None => None,
        }
    }

    /// The markets of a channel's subscription (none when not subscribed).
    pub fn markets(&self, channel: Channel) -> (r: Vec<String>)
        requires
            self.wf(),
        ensures
            !self.subs().contains_key(channel) ==> r@.len() == 0,
            self.subs().contains_key(channel) ==> string_views(r@) == string_views(
                self.subs()[channel].markets@,
            ),
    {
        match self.find(channel) {
            Some(i) => {
                proof {
                    self.lemma_entry(i as int);
                }
                copy_strings(&self.entries[i].1.markets)
            },
            None => Vec::new(),
        }
    }

    /// What subscribing to `channel` for `markets` has to do: refuse an
    /// empty market list for a channel scoped to markets; for a subscribed
    /// channel, add the markets it lacks (in order), or nothing when it
    /// lacks none; otherwise subscribe for the markets.
    pub fn plan_subscribe(&self, channel: Channel, markets: &[&str]) -> (p: SubscribePlan)
        requires
            self.wf(),
        ensures
            markets@.len() == 0 && channel.needs_markets() ==> (p matches SubscribePlan::Rejected(
                Error::MissingMarketTickers(n),
            ) && n@ == channel.wire_name()),
            !(markets@.len() == 0 && channel.needs_markets()) && self.subs().contains_key(channel)
                ==> {
                let st = self.subs()[channel];
                let missing = keep_missing(str_views(markets@), st.market_set());
                &&& missing.len() == 0 ==> p is AlreadySubscribed
                &&& missing.len() > 0 ==> (p matches SubscribePlan::AddMarkets { sid, markets: m }
                    && sid == st.sid && string_views(m@) == missing)
            },
            !(markets@.len() == 0 && channel.needs_markets()) && !self.subs().contains_key(channel)
                ==> (p matches SubscribePlan::Subscribe { markets: m } && string_views(m@) == str_views(
                markets@,
            )),
    {
        if markets.len() == 0 && channel.requires_market_ticker() {
            return SubscribePlan::Rejected(Error::MissingMarketTickers(String::from_str(channel.as_str())));
        }
        match self.find(channel) {
            Some(i) => {
                proof {
                    self.lemma_entry(i as int);
                }
                let st = &self.entries[i].1;
                let mut missing: Vec<String> = Vec::new();
                let n = markets.len();
                let mut k: usize = 0;
                proof {
                    assert(str_views(markets@).take(0) =~= Seq::<Seq<char>>::empty());
                }
                while k < n
                    invariant
                        n == markets@.len(),
                        0 <= k <= n,
                        string_views(missing@) == keep_missing(str_views(markets@).take(k as int), st.market_set()),
                    decreases n - k,
                {
                    let m = markets[k];
                    let ghost prev = missing@;
                    proof {
                        let t = str_views(markets@).take(k + 1);
                        assert(t.drop_last() =~= str_views(markets@).take(k as int));
                        assert(t.last() == m@);
                    }
                    if !contains_text(&st.markets, m) {
                        let owned = m.to_owned();
                        missing.push(owned);
                        proof {
                            lemma_string_views_push(prev, owned);
                        }
                    }
                    k = k + 1;
                }
                proof {
                    assert(str_views(markets@).take(n as int) =~= str_views(markets@));
                }
                if missing.len() == 0 {
                    SubscribePlan::AlreadySubscribed
                } else {
                    SubscribePlan::AddMarkets { sid: st.sid, markets: missing }
                }
            },
            None => {
                let all = owned_strings(markets);
                SubscribePlan::Subscribe { markets: all }
            },
        }
    }

    /// Records the markets that the server reports for the channel's
    /// subscription after an update, if the channel is still subscribed
    /// under `sid`; otherwise changes nothing.
    pub fn record_markets(&mut self, channel: Channel, sid: i64, markets: &[&str])
        requires
            old(self).wf(),
        ensures
            final(self).wf(),
            old(self).subs().contains_key(channel) && old(self).subs()[channel].sid == sid ==> {
                let st = final(self).subs()[channel];
                &&& final(self).subs() == old(self).subs().insert(channel, st)
                &&& st.sid == sid
                &&& st.market_set() == str_views(markets@).to_set()
            },
            !(old(self).subs().contains_key(channel) && old(self).subs()[channel].sid == sid)
                ==> final(self).subs() == old(self).subs(),
    {
        match self.find(channel) {
            Some(i) => {
                proof {
                    self.lemma_entry(i as int);
                }
                if self.entries[i].1.sid == sid {
                    let ghost before = *self;
                    let st = SubscriptionState { sid, markets: distinct_strings(markets) };
                    self.entries.set(i, (channel, st));
                    proof {
                        Self::lemma_set_entry(before, *self, i as int, st);
                    }
                }
            },
            None => {},
        }
    }

    /// Records a new subscription of the channel under `sid` for the
    /// markets, unless the channel is already subscribed (then the existing
    /// subscription stays).
    pub fn record_new(&mut self, channel: Channel, sid: i64, markets: &[&str])
        requires
            old(self).wf(),
        ensures
            final(self).wf(),
            !old(self).subs().contains_key(channel) ==> {
                let st = final(self).subs()[channel];
                &&& final(self).subs() == old(self).subs().insert(channel, st)
                &&& st.sid == sid
                &&& st.market_set() == str_views(markets@).to_set()
            },
            old(self).subs().contains_key(channel) ==> final(self).subs() == old(self).subs(),
    {
        match self.find(channel) {
            Some(_) => {},
            None => {
                let ghost before = *self;
                let st = SubscriptionState { sid, markets: distinct_strings(markets) };
                self.entries.push((channel, st));
                proof {
                    Self::lemma_push_entry(before, *self, channel, st);
                }
            },
        }
    }

    /// Removes the channel's subscription if it is still the one under
    /// `sid`; otherwise changes nothing.
    pub fn remove_if_sid(&mut self, channel: Channel, sid: i64)
        requires
            old(self).wf(),
        ensures
            final(self).wf(),
            old(self).subs().contains_key(channel) && old(self).subs()[channel].sid == sid
                ==> final(self).subs() == old(self).subs().remove(channel),
            !(old(self).subs().contains_key(channel) && old(self).subs()[channel].sid == sid)
                ==> final(self).subs() == old(self).subs(),
    {
        match self.find(channel) {
            Some(i) => {
                proof {
                    self.lemma_entry(i as int);
                }
                if self.entries[i].1.sid == sid {
                    let ghost before = *self;
                    self.entries.remove(i);
                    proof {
                        Self::lemma_remove_entry(before, *self, i as int);
                    }
                }
            },
            None => {},
        }
    }

    /// What removing `markets` from the channel's subscription has to do:
    /// nothing for an empty list; refuse a channel that is not subscribed;
    /// nothing when none of the markets is subscribed; close the
    /// subscription when none of its markets would remain; otherwise remove
    /// the markets from it.
    pub fn plan_unsubscribe(&self, channel: Channel, markets: &[&str]) -> (p: UnsubscribePlan)
        requires
            self.wf(),
        ensures
            markets@.len() == 0 ==> p is NoOp,
            markets@.len() > 0 && !self.subs().contains_key(channel) ==> (p matches UnsubscribePlan::Rejected(
                Error::Api(t),
            ) && t@ == not_subscribed_text(channel)),
            markets@.len() > 0 && self.subs().contains_key(channel) ==> {
                let st = self.subs()[channel];
                let given = str_views(markets@);
                &&& !touches(st, given) ==> p is NoOp
                &&& touches(st, given) && st.market_set().subset_of(given.to_set()) ==> p == (
                UnsubscribePlan::Unsubscribe { sid: st.sid })
                &&& touches(st, given) && !st.market_set().subset_of(given.to_set()) ==> (
                p matches UnsubscribePlan::DeleteMarkets { sid, markets: m } && sid == st.sid
                    && string_views(m@) == given)
            },
    {
        if markets.len() == 0 {
            return UnsubscribePlan::NoOp;
        }
        match self.find(channel) {
            Some(i) => {
                proof {
                    self.lemma_entry(i as int);
                }
                let st = &self.entries[i].1;
                let mut any_subscribed = false;
                let g = markets.len();
                let mut q: usize = 0;
                while q < g
                    invariant
                        g == markets@.len(),
                        0 <= q <= g,
                        any_subscribed == (exists|j: int| 0 <= j < q && string_views(st.markets@).contains(
                            #[trigger] str_views(markets@)[j],
                        )),
                    decreases g - q,
                {
                    proof {
                        assert(str_views(markets@)[q as int] == markets@[q as int]@);
                    }
                    if contains_text(&st.markets, markets[q]) {
                        any_subscribed = true;
                    }
                    q = q + 1;
                }
                proof {
                    let given = str_views(markets@);
                    if any_subscribed {
                        let j = choose|j: int| 0 <= j < g && string_views(st.markets@).contains(#[trigger] given[j]);
                        assert(st.market_set().contains(given[j]));
                    } else {
                        assert forall|j: int| 0 <= j < given.len() implies !st.market_set().contains(
                            #[trigger] given[j],
                        ) by {
                            assert(!string_views(st.markets@).contains(given[j]));
                        }
                    }
                }
                if !any_subscribed {
                    return UnsubscribePlan::NoOp;
                }
                let removed = owned_strings(markets);
                let n = st.markets.len();
                let mut k: usize = 0;
                let mut all_removed = true;
                while k < n
                    invariant
                        n == st.markets@.len(),
                        0 <= k <= n,
                        string_views(removed@) == str_views(markets@),
                        all_removed == (forall|j: int| 0 <= j < k ==> str_views(markets@).contains(
                            #[trigger] string_views(st.markets@)[j],
                        )),
                    decreases n - k,
                {
                    if !contains_text(&removed, st.markets[k].as_str()) {
                        all_removed = false;
                    }
                    proof {
                        assert(string_views(st.markets@)[k as int] == st.markets@[k as int]@);
                    }
                    k = k + 1;
                }
                proof {
                    let have = string_views(st.markets@);
                    let gone = str_views(markets@);
                    if all_removed {
                        assert forall|x: Seq<char>| #[trigger] st.market_set().contains(x) implies gone.to_set().contains(x) by {
                            let j = choose|j: int| 0 <= j < have.len() && have[j] == x;
                            assert(gone.contains(have[j]));
                        }
                    } else {
                        let j = choose|j: int| 0 <= j < n && !gone.contains(#[trigger] have[j]);
                        assert(have.contains(have[j]));
                        assert(st.market_set().contains(have[j]));
                        assert(!gone.to_set().contains(have[j]));
                    }
                }
                if all_removed {
                    UnsubscribePlan::Unsubscribe { sid: st.sid }
                } else {
                    UnsubscribePlan::DeleteMarkets { sid: st.sid, markets: removed }
                }
            },
            None => {
                let mut t = String::from_str("Not subscribed to channel: ");
                t.append(channel.as_str());
                UnsubscribePlan::Rejected(Error::Api(t))
            },
        }
    }

    /// The subscription id to close to unsubscribe from a whole channel, or
    /// the error for a channel that is not subscribed.
    pub fn plan_unsubscribe_all(&self, channel: Channel) -> (r: Result<i64, Error>)
        requires
            self.wf(),
        ensures
            self.subs().contains_key(channel) ==> r == Ok::<i64, Error>(self.subs()[channel].sid),
            !self.subs().contains_key(channel) ==> (r matches Err(Error::Api(t)) && t@
                == not_subscribed_text(channel)),
    {
        match self.find(channel) {
            Some(i) => {
                proof {
                    self.lemma_entry(i as int);
                }
                Ok(self.entries[i].1.sid)
            },
            None => {
                let mut t = String::from_str("Not subscribed to channel: ");
                t.append(channel.as_str());
                Err(Error::Api(t))
            },
        }
    }

    /// All subscriptions: each subscribed channel once, with its markets.
    pub fn subscriptions(&self) -> (r: Vec<(Channel, Vec<String>)>)
        requires
            self.wf(),
        ensures
            listed(r@, self.subs()),
    {
        let mut out: Vec<(Channel, Vec<String>)> = Vec::new();
        let n = self.entries.len();
        let mut i: usize = 0;
        while i < n
            invariant
                n == self.entries@.len(),
                0 <= i <= n,
                self.wf(),
                out@.len() == i,
                forall|j: int| 0 <= j < i ==> (#[trigger] out@[j]).0 == self.entries()[j].0
                    && string_views(out@[j].1@) == string_views(self.entries()[j].1.markets@),
            decreases n - i,
        {
            let c = self.entries[i].0;
            let ms = copy_strings(&self.entries[i].1.markets);
            out.push((c, ms));
            i = i + 1;
        }
        proof {
            self.lemma_listed(out@);
        }
        out
    }

    /// Takes all subscriptions out of the table, leaving it empty: each
    /// subscribed channel once, with its markets.
    pub fn take_all(&mut self) -> (r: Vec<(Channel, Vec<String>)>)
        requires
            old(self).wf(),
        ensures
            listed(r@, old(self).subs()),
            final(self).wf(),
            final(self).subs() == Map::<Channel, SubscriptionState>::empty(),
    {
        let r = self.subscriptions();
        self.entries.clear();
        proof {
            assert(self.subs() =~= Map::<Channel, SubscriptionState>::empty());
        }
        r
    }

    /// A list with one element per entry, in order, lists the subscriptions.
    proof fn lemma_listed(&self, out: Seq<(Channel, Vec<String>)>)
        requires
            self.wf(),
            out.len() == self.entries().len(),
            forall|j: int| 0 <= j < out.len() ==> (#[trigger] out[j]).0 == self.entries()[j].0
                && string_views(out[j].1@) == string_views(self.entries()[j].1.markets@),
        ensures
            listed(out, self.subs()),
    {
        assert forall|a: int, b: int| 0 <= a < b < out.len() implies #[trigger] out[a].0 != #[trigger] out[b].0 by {
            assert(self.entries()[a].0 != self.entries()[b].0);
        }
        assert forall|j: int| 0 <= j < out.len() implies self.subs().contains_key(#[trigger] out[j].0)
            && string_views(out[j].1@) == string_views(self.subs()[out[j].0].markets@) by {
            self.lemma_entry(j);
        }
        assert forall|c: Channel| #[trigger] self.subs().contains_key(c) implies exists|j: int|
            0 <= j < out.len() && out[j].0 == c by {
            let j = choose|j: int| 0 <= j < self.entries().len() && #[trigger] self.entries()[j].0 == c;
            assert(out[j].0 == c);
        }
    }
}

/// `list` holds each channel of `subs` once, with the markets of its
/// subscription, and nothing else.
pub open spec fn listed(list: Seq<(Channel, Vec<String>)>, subs: Map<Channel, SubscriptionState>) -> bool {
    &&& forall|a: int, b: int| 0 <= a < b < list.len() ==> #[trigger] list[a].0 != #[trigger] list[b].0
    &&& forall|j: int| 0 <= j < list.len() ==> subs.contains_key(#[trigger] list[j].0) && string_views(
        list[j].1@,
    ) == string_views(subs[list[j].0].markets@)
    &&& forall|c: Channel| #[trigger] subs.contains_key(c) ==> exists|j: int| 0 <= j < list.len() && list[j].0 == c
}

/// The outcome of a subscribe request for one channel: the error joining
/// the failures (`code: message`, separated by `; `) when any channel
/// failed, else the subscription id of the first success, if any.
pub fn subscribe_outcome(result: &SubscribeResult) -> (r: Result<Option<i64>, Error>)
    ensures
        result.failed@.len() > 0 ==> (r matches Err(Error::Api(t)) && t@ == failures_text(result.failed@)),
        result.failed@.len() == 0 ==> r == Ok::<Option<i64>, Error>(
            if result.successful@.len() > 0 {
                Some(result.successful@[0].sid)
            } else {
                None
            },
        ),
{
    if result.failed.len() > 0 {
        let mut lines: Vec<String> = Vec::new();
        let n = result.failed.len();
        let mut i: usize = 0;
        while i < n
            invariant
                n == result.failed@.len(),
                0 <= i <= n,
                string_views(lines@) == result.failed@.take(i as int).map_values(|e: ChannelError| failure_line(e)),
            decreases n - i,
        {
            let e = &result.failed[i];
            let mut line = e.code.clone();
            line.append(": ");
            line.append(e.message.as_str());
            let ghost prev = lines@;
            lines.push(line);
            proof {
                lemma_string_views_push(prev, line);
                assert(string_views(lines@) =~= result.failed@.take(i + 1).map_values(|e: ChannelError| failure_line(e)));
            }
            i = i + 1;
        }
        proof {
            assert(result.failed@.take(n as int) =~= result.failed@);
        }
        let t = join_strings_with(&lines, "; ");
        return Err(Error::Api(t));
    }
    if result.successful.len() > 0 {
        Ok(Some(result.successful[0].sid))
    } else {
        Ok(None)
    }
}

/// Owned copies of a slice of strings.
fn owned_strings(items: &[&str]) -> (r: Vec<String>)
    ensures
        string_views(r@) == str_views(items@),
{
    let mut out: Vec<String> = Vec::new();
    let n = items.len();
    let mut i: usize = 0;
    while i < n
        invariant
            n == items@.len(),
            0 <= i <= n,
            string_views(out@) == str_views(items@).take(i as int),
        decreases n - i,
    {
        let t = items[i].to_owned();
        let ghost prev = out@;
        proof {
            assert(str_views(items@).len() == n);
            assert(string_views(prev).len() == prev.len());
        }
        out.push(t);
        proof {
            lemma_string_views_push(prev, t);
            assert(string_views(out@) =~= str_views(items@).take(i + 1));
        }
        i = i + 1;
    }
    proof {
        assert(str_views(items@).take(n as int) =~= str_views(items@));
    }
    out
}

/// Copies of owned strings.
fn copy_strings(items: &Vec<String>) -> (r: Vec<String>)
    ensures
        string_views(r@) == string_views(items@),
{
    let mut out: Vec<String> = Vec::new();
    let n = items.len();
    let mut i: usize = 0;
    while i < n
        invariant
            n == items@.len(),
            0 <= i <= n,
            string_views(out@) == string_views(items@).take(i as int),
        decreases n - i,
    {
        let t = items[i].clone();
        let ghost prev = out@;
        proof {
            assert(string_views(items@).len() == n);
            assert(string_views(prev).len() == prev.len());
        }
        out.push(t);
        proof {
            lemma_string_views_push(prev, t);
            assert(string_views(out@) =~= string_views(items@).take(i + 1));
        }
        i = i + 1;
    }
    proof {
        assert(string_views(items@).take(n as int) =~= string_views(items@));
    }
    out
}

} // verus!
