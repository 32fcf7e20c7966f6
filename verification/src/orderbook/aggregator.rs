//! Orderbook aggregator: the live orderbooks of all tracked markets, kept
//! from the snapshots and deltas of the orderbook channel.

use vstd::prelude::*;
use crate::models::common::Side;
use crate::text::string_views;
use crate::orderbook::ladder::{ladder_best, ladder_qty, ladder_total, sorted_ladder, Ladder};
use crate::orderbook::state::{
    books_after_delta, complement_level, delta_target, opt_snapshot_map, OrderbookState,
};
use crate::orderbook::ladder::{ladder_map, law_best_is_highest};
use crate::ws::message::{OrderbookDeltaData, OrderbookSnapshotData};

verus! {

/// Summary of an orderbook's current state.
#[derive(Debug, Clone)]
pub struct OrderbookSummary {
    /// Market ticker.
    pub ticker: String,
    /// Best YES bid (price, quantity) - highest price to buy YES.
    pub best_bid: Option<(i64, i64)>,
    /// Best YES ask (price, quantity) - lowest price to sell YES.
    pub best_ask: Option<(i64, i64)>,
    /// Spread in cents (ask - bid).
    pub spread: Option<i64>,
    /// Total YES side liquidity.
    pub total_yes_liquidity: i64,
    /// Total NO side liquidity.
    pub total_no_liquidity: i64,
}

/// What changed in an orderbook update.
#[derive(Debug, Clone, Copy, PartialEq, Eq, Structural)]
pub struct OrderbookDelta {
    /// Side that was updated (Yes or No).
    pub side: Side,
    /// Price level that changed.
    pub price: i64,
    /// Change in quantity (positive or negative).
    pub quantity_change: i64,
    /// Quantity at this level after the change.
    pub new_quantity: i64,
}

/// An orderbook update event, emitted when an orderbook changes.
#[derive(Debug, Clone)]
pub struct OrderbookUpdate {
    /// Market ticker.
    pub ticker: String,
    /// Current orderbook summary after this update.
    pub summary: OrderbookSummary,
    /// What changed (only present for delta updates, not snapshots).
    pub delta: Option<OrderbookDelta>,
}

/// Notification of a sequence gap: messages may have been missed.
#[derive(Debug, Clone)]
pub struct SequenceGap {
    /// Market ticker (if known).
    pub ticker: Option<String>,
    /// Expected sequence number.
    pub expected: i64,
    /// Received sequence number.
    pub received: i64,
}

/// The full orderbook ladder for a market.
#[derive(Debug, Clone)]
pub struct OrderbookLadder {
    /// Market ticker.
    pub ticker: String,
    /// YES side price levels `(price_cents, quantity)`, ascending by price.
    pub yes_levels: Vec<(i64, i64)>,
    /// NO side price levels `(price_cents, quantity)`, ascending by price.
    pub no_levels: Vec<(i64, i64)>,
}

/// A copy of a list of levels.
fn copy_levels(levels: &Vec<(i64, i64)>) -> (r: Vec<(i64, i64)>)
    ensures
        r@ == levels@,
{
    let mut out: Vec<(i64, i64)> = Vec::new();
    let n = levels.len();
    let mut i: usize = 0;
    while i < n
        invariant
            n == levels@.len(),
            0 <= i <= n,
            out@ == levels@.take(i as int),
        decreases n - i,
    {
        out.push(levels[i]);
        proof {
            assert(out@ =~= levels@.take(i + 1));
        }
        i = i + 1;
    }
    proof {
        assert(levels@.take(n as int) =~= levels@);
    }
    out
}

/// The outcome of a delta applied to a tracked, initialized market.
#[derive(Debug, Clone)]
pub struct DeltaApplied {
    /// The gap detected in the market's sequence numbers, if any.
    pub gap: Option<SequenceGap>,
    /// What changed.
    pub change: OrderbookDelta,
}

/// An event of the orderbook feed, as seen by the aggregator.
#[derive(Debug, Clone)]
pub enum FeedEvent {
    /// An orderbook snapshot arrived.
    Snapshot(OrderbookSnapshotData),
    /// An orderbook delta arrived, with the update's sequence number.
    Delta(OrderbookDeltaData, Option<i64>),
    /// Another kind of message arrived.
    Other,
    /// The connection was closed or lost.
    ConnectionEnded,
    /// The receiver fell behind and this many messages were dropped.
    Lagged(u64),
    /// The update channel was closed.
    ChannelClosed,
}

/// What the feed loop does after an event.
#[derive(Debug, Clone)]
pub enum FeedStep {
    /// Keep reading. `gap` is to be reported; `changed` names the market
    /// whose orderbook changed, with the change when it came from a delta.
    Continue { gap: Option<SequenceGap>, changed: Option<(String, Option<OrderbookDelta>)> },
    /// Stop reading.
    Stop,
}

/// The expected sequence number after `last`, and the gap that a received
/// `seq` reveals, if any.
pub open spec fn gap_between(last: Option<i64>, seq: Option<i64>) -> Option<(int, i64)> {
    match (last, seq) {
        (Some(l), Some(s)) => if s != l + 1 {
            Some((l + 1, s))
        } else {
            None
        },
        _ => None,
    }
}

/// The sequence number recorded after receiving `seq`.
pub open spec fn next_seq(last: Option<i64>, seq: Option<i64>) -> Option<i64> {
    match seq {
        Some(s) => Some(s),
        None => last,
    }
}

/// `s` is the state built from `snapshot`.
pub open spec fn built_from_snapshot(s: OrderbookState, snapshot: OrderbookSnapshotData) -> bool {
    &&& s.wf()
    &&& ladder_map(s.yes_book()) == opt_snapshot_map(snapshot.yes)
    &&& ladder_map(s.no_book()) == opt_snapshot_map(snapshot.no)
    &&& s.seq() == None::<i64>
    &&& s.ready()
}


/// `s` summarizes the orderbook `b` of `ticker`.
pub open spec fn summarizes(s: OrderbookSummary, ticker: Seq<char>, b: OrderbookState) -> bool {
    &&& s.ticker@ == ticker
    &&& s.best_bid == ladder_best(b.yes_book())
    &&& s.best_ask == b.yes_ask_spec()
    &&& (s.spread matches Some(x) ==> b.spread_spec() == Some(x as int))
    &&& (s.spread is None ==> b.spread_spec() is None)
    &&& s.total_yes_liquidity == ladder_total(b.yes_book())
    &&& s.total_no_liquidity == ladder_total(b.no_book())
}

/// After a snapshot, the best YES bid of the market is the snapshot's
/// highest YES price with a positive quantity, with that quantity; there
/// is none exactly when the snapshot has no such level.
pub proof fn law_snapshot_best_bid(s: OrderbookState, snapshot: OrderbookSnapshotData)
    requires
        built_from_snapshot(s, snapshot),
    ensures
        ladder_best(s.yes_book()) is None <==> opt_snapshot_map(snapshot.yes).dom() == Set::<i64>::empty(),
        ladder_best(s.yes_book()) matches Some((p, q)) ==> {
            &&& opt_snapshot_map(snapshot.yes).dom().contains(p)
            &&& opt_snapshot_map(snapshot.yes)[p] == q
            &&& forall|k: i64| #[trigger] opt_snapshot_map(snapshot.yes).dom().contains(k) ==> k <= p
        },
{
    law_best_is_highest(s.yes_book());
}

/// Each ticker occurs once.
pub open spec fn keys_unique(e: Seq<(Seq<char>, OrderbookState)>) -> bool {
    forall|i: int, j: int| 0 <= i < j < e.len() ==> #[trigger] e[i].0 != #[trigger] e[j].0
}

/// Aggregator of the live orderbooks of all tracked markets.
///
/// Markets are kept in the order in which they were first tracked.
#[derive(Debug, Clone)]
pub struct OrderbookAggregator {
    books: Vec<(String, OrderbookState)>,
}

impl OrderbookAggregator {
    /// The tracked markets with their orderbooks, in tracking order.
    pub closed spec fn entries(&self) -> Seq<(Seq<char>, OrderbookState)> {
        self.books@.map_values(|e: (String, OrderbookState)| (e.0@, e.1))
    }

    /// The tickers of the tracked markets, in tracking order.
    pub open spec fn tickers(&self) -> Seq<Seq<char>> {
        self.entries().map_values(|e: (Seq<char>, OrderbookState)| e.0)
    }

    /// Whether `ticker` is tracked.
    pub open spec fn tracks(&self, ticker: Seq<char>) -> bool {
        exists|i: int| 0 <= i < self.entries().len() && #[trigger] self.entries()[i].0 == ticker
    }

    /// The orderbook of a tracked `ticker`.
    pub open spec fn book_of(&self, ticker: Seq<char>) -> OrderbookState {
        self.entries()[choose|i: int|
            0 <= i < self.entries().len() && #[trigger] self.entries()[i].0 == ticker].1
    }

    /// The tracked markets, each with its orderbook.
    pub open spec fn markets(&self) -> Map<Seq<char>, OrderbookState> {
        Map::new(|t: Seq<char>| self.tracks(t), |t: Seq<char>| self.book_of(t))
    }

    /// Tickers are unique and every orderbook is well formed.
    pub open spec fn wf(&self) -> bool {
        &&& keys_unique(self.entries())
        &&& forall|i: int| 0 <= i < self.entries().len() ==> (#[trigger] self.entries()[i]).1.wf()
    }

    /// Every figure of the summary of `ticker`'s orderbook fits in an
    /// `i64` (true when the market is not tracked).
    pub open spec fn fits_at(&self, ticker: Seq<char>) -> bool {
        self.markets().contains_key(ticker) ==> self.markets()[ticker].fits()
    }

    /// The market at position `i` is the one `markets` gives for its
    /// ticker.
    proof fn lemma_entry(&self, i: int)
        requires
            self.wf(),
            0 <= i < self.entries().len(),
        ensures
            self.markets().contains_key(self.entries()[i].0),
            self.markets()[self.entries()[i].0] == self.entries()[i].1,
            self.markets()[self.entries()[i].0].wf(),
    {
        let t = self.entries()[i].0;
        assert(self.tracks(t));
        let j = choose|j: int| 0 <= j < self.entries().len() && #[trigger] self.entries()[j].0 == t;
        if j != i {
            if j < i {
                assert(self.entries()[j].0 != self.entries()[i].0);
            } else {
                assert(self.entries()[i].0 != self.entries()[j].0);
            }
        }
    }

    /// The position of `ticker`, if it is tracked.
    fn find(&self, ticker: &String) -> (r: Option<usize>)
        requires
            self.wf(),
        ensures
            match r {
                Some(i) => i < self.books@.len() && self.entries()[i as int].0 == ticker@,
                None => !self.markets().contains_key(ticker@),
            },
    {
        let n = self.books.len();
        let mut i: usize = 0;
        while i < n
            invariant
                n == self.books@.len(),
                0 <= i <= n,
                forall|j: int| 0 <= j < i ==> #[trigger] self.entries()[j].0 != ticker@,
            decreases n - i,
        {
            if self.books[i].0 == *ticker {
                return Some(i);
            }
            i = i + 1;
        }
        None
    }

    /// Create a new aggregator that tracks no market.
    pub fn new() -> (a: Self)
        ensures
            a.wf(),
            a.markets() == Map::<Seq<char>, OrderbookState>::empty(),
            a.tickers() == Seq::<Seq<char>>::empty(),
    {
        let a = OrderbookAggregator { books: Vec::new() };
        proof {
            assert(a.markets() =~= Map::<Seq<char>, OrderbookState>::empty());
            assert(a.tickers() =~= Seq::<Seq<char>>::empty());
        }
        a
    }

    /// Handle an orderbook snapshot: the market's orderbook becomes the one
    /// the snapshot describes (the market is tracked from now on, after
    /// those tracked before); other markets are unchanged.
    pub fn handle_snapshot(&mut self, snapshot: &OrderbookSnapshotData)
        requires
            old(self).wf(),
        ensures
            final(self).wf(),
            final(self).markets() == old(self).markets().insert(
                snapshot.market_ticker@,
                final(self).markets()[snapshot.market_ticker@],
            ),
            built_from_snapshot(final(self).markets()[snapshot.market_ticker@], *snapshot),
            final(self).tickers() == (if old(self).markets().contains_key(snapshot.market_ticker@) {
                old(self).tickers()
            } else {
                old(self).tickers().push(snapshot.market_ticker@)
            }),
    {
        let ticker = snapshot.market_ticker.clone();
        let state = OrderbookState::from_snapshot(snapshot);
        let ghost before = *self;
        let ghost t = ticker@;
        match self.find(&ticker) {
            Some(i) => {
                self.books.set(i, (ticker, state));
                proof {
                    assert(self.entries() =~= before.entries().update(i as int, (t, state)));
                    self.lemma_entry(i as int);
                    assert forall|k: Seq<char>| #![trigger self.markets().contains_key(k)] k != t implies
                        self.markets().contains_key(k) == before.markets().contains_key(k)
                        && (self.markets().contains_key(k) ==> self.markets()[k] == before.markets()[k]) by {
                        if before.markets().contains_key(k) {
                            let j = choose|j: int| 0 <= j < before.entries().len() && #[trigger] before.entries()[j].0 == k;
                            before.lemma_entry(j);
                            assert(j != i);
                            assert(self.entries()[j] == before.entries()[j]);
                            self.lemma_entry(j);
                        }
                        if self.markets().contains_key(k) {
                            let j = choose|j: int| 0 <= j < self.entries().len() && #[trigger] self.entries()[j].0 == k;
                            assert(j != i);
                            assert(self.entries()[j] == before.entries()[j]);
                            assert(before.tracks(k));
                        }
                    }
                    assert(self.markets() =~= before.markets().insert(t, self.markets()[t]));
                    assert(self.tickers() =~= before.tickers());
                }
            },
            None => {
                self.books.push((ticker, state));
                proof {
                    let n = before.entries().len() as int;
                    assert(self.entries() =~= before.entries().push((t, state)));
                    self.lemma_entry(n);
                    assert forall|k: Seq<char>| #![trigger self.markets().contains_key(k)] k != t implies
                        self.markets().contains_key(k) == before.markets().contains_key(k)
                        && (self.markets().contains_key(k) ==> self.markets()[k] == before.markets()[k]) by {
                        if before.markets().contains_key(k) {
                            let j = choose|j: int| 0 <= j < before.entries().len() && #[trigger] before.entries()[j].0 == k;
                            before.lemma_entry(j);
                            assert(self.entries()[j] == before.entries()[j]);
                            self.lemma_entry(j);
                        }
                        if self.markets().contains_key(k) {
                            let j = choose|j: int| 0 <= j < self.entries().len() && #[trigger] self.entries()[j].0 == k;
                            assert(j != n);
                            assert(self.entries()[j] == before.entries()[j]);
                            assert(before.tracks(k));
                        }
                    }
                    assert(self.markets() =~= before.markets().insert(t, self.markets()[t]));
                    assert(self.tickers() =~= before.tickers().push(t));
                }
            },
        }
    }

    /// Whether a delta for `ticker` is applied: the market is tracked and
    /// its orderbook initialized.
    pub open spec fn accepts_delta(&self, ticker: Seq<char>) -> bool {
        self.markets().contains_key(ticker) && self.markets()[ticker].ready()
    }

    /// Applying `delta` with sequence number `seq` needs no number beyond
    /// an `i64`: the new quantity at its level and the expected sequence
    /// number.
    pub open spec fn delta_in_range(&self, delta: OrderbookDeltaData, seq: Option<i64>) -> bool {
        let t = delta.market_ticker@;
        self.accepts_delta(t) ==> {
            &&& i64::MIN <= delta_target(self.markets()[t], delta) <= i64::MAX
            &&& gap_between(self.markets()[t].seq(), seq) matches Some((e, _)) ==> e <= i64::MAX
        }
    }

    /// Handle an orderbook delta received with sequence number `seq`.
    ///
    /// A delta for a market that is not tracked, or not initialized, is
    /// ignored (`None`). Otherwise a gap is reported when the market has a
    /// recorded sequence number and `seq` is not the next one; `seq` is
    /// recorded, the delta applied, and what changed is returned.
    pub fn handle_delta(&mut self, delta: &OrderbookDeltaData, seq: Option<i64>) -> (r: Option<
        DeltaApplied,
    >)
        requires
            old(self).wf(),
            old(self).delta_in_range(*delta, seq),
        ensures
            final(self).wf(),
            final(self).tickers() == old(self).tickers(),
            !old(self).accepts_delta(delta.market_ticker@) ==> r is None && final(self).markets()
                == old(self).markets(),
            old(self).accepts_delta(delta.market_ticker@) ==> {
                let t = delta.market_ticker@;
                let before = old(self).markets()[t];
                let after = final(self).markets()[t];
                &&& final(self).markets() == old(self).markets().insert(t, after)
                &&& r matches Some(out)
                &&& books_after_delta(before, after, *delta, out.change.new_quantity)
                &&& after.seq() == next_seq(before.seq(), seq)
                &&& after.ready()
                &&& out.change.side == delta.side
                &&& out.change.price == delta.price
                &&& out.change.quantity_change == delta.delta
                &&& match gap_between(before.seq(), seq) {
                    Some((e, rcv)) => out.gap matches Some(g) && g.ticker == Some(delta.market_ticker)
                        && g.expected == e && g.received == rcv,
                    None => out.gap is None,
                }
            },
    {
        let ghost before = *self;
        let ghost t = delta.market_ticker@;
        let i = match self.find(&delta.market_ticker) {
            Some(i) => i,
            None => {
                return None;
            },
        };
        proof {
            self.lemma_entry(i as int);
        }
        if !self.books[i].1.is_initialized() {
            return None;
        }
        let gap = match (self.books[i].1.last_seq(), seq) {
            (Some(last), Some(new)) => {
                if new != last + 1 {
                    Some(
                        SequenceGap {
                            ticker: Some(delta.market_ticker.clone()),
                            expected: last + 1,
                            received: new,
                        },
                    )
                } else {
                    None
                }
            },
            _ => None,
        };
        let entry = &mut self.books[i];
        entry.1.update_seq(seq);
        let new_quantity = entry.1.apply_delta(delta);
        let change = OrderbookDelta {
            side: delta.side,
            price: delta.price,
            quantity_change: delta.delta,
            new_quantity,
        };
        proof {
            let after = self.entries()[i as int].1;
            assert(self.entries() =~= before.entries().update(i as int, (t, after)));
            self.lemma_entry(i as int);
            assert forall|k: Seq<char>| #![trigger self.markets().contains_key(k)] k != t implies
                self.markets().contains_key(k) == before.markets().contains_key(k)
                && (self.markets().contains_key(k) ==> self.markets()[k] == before.markets()[k]) by {
                if before.markets().contains_key(k) {
                    let j = choose|j: int| 0 <= j < before.entries().len() && #[trigger] before.entries()[j].0 == k;
                    before.lemma_entry(j);
                    assert(self.entries()[j] == before.entries()[j]);
                    self.lemma_entry(j);
                }
                if self.markets().contains_key(k) {
                    let j = choose|j: int| 0 <= j < self.entries().len() && #[trigger] self.entries()[j].0 == k;
                    assert(self.entries()[j] == before.entries()[j]);
                    assert(before.tracks(k));
                }
            }
            assert(self.markets() =~= before.markets().insert(t, after));
            assert(self.tickers() =~= before.tickers());
        }
        Some(DeltaApplied { gap, change })
    }

    /// Clear all orderbook state: no market is tracked any more.
    pub fn clear(&mut self)
        ensures
            final(self).wf(),
            final(self).markets() == Map::<Seq<char>, OrderbookState>::empty(),
            final(self).tickers() == Seq::<Seq<char>>::empty(),
    {
        self.books.clear();
        proof {
            assert(self.markets() =~= Map::<Seq<char>, OrderbookState>::empty());
            assert(self.tickers() =~= Seq::<Seq<char>>::empty());
        }
    }

    /// Clear the state of one market: it is no longer tracked; other
    /// markets keep their orderbooks and their order.
    pub fn clear_market(&mut self, ticker: &str)
        requires
            old(self).wf(),
        ensures
            final(self).wf(),
            final(self).markets() == old(self).markets().remove(ticker@),
            old(self).markets().contains_key(ticker@) ==> exists|i: int|
                0 <= i < old(self).tickers().len() && old(self).tickers()[i] == ticker@
                    && final(self).tickers() == old(self).tickers().remove(i),
            !old(self).markets().contains_key(ticker@) ==> final(self).tickers() == old(
                self,
            ).tickers(),
    {
        let key = ticker.to_owned();
        let ghost before = *self;
        let ghost t = key@;
        match self.find(&key) {
            Some(i) => {
                self.books.remove(i);
                proof {
                    assert(self.entries() =~= before.entries().remove(i as int));
                    before.lemma_entry(i as int);
                    assert forall|k: Seq<char>| #![trigger self.markets().contains_key(k)]
                        self.markets().contains_key(k) == before.markets().remove(t).contains_key(k)
                        && (self.markets().contains_key(k) ==> self.markets()[k]
                        == before.markets()[k]) by {
                        if before.markets().contains_key(k) && k != t {
                            let j = choose|j: int| 0 <= j < before.entries().len() && #[trigger] before.entries()[j].0 == k;
                            before.lemma_entry(j);
                            assert(j != i);
                            let j2 = if j < i { j } else { j - 1 };
                            assert(self.entries()[j2] == before.entries()[j]);
                            self.lemma_entry(j2);
                        }
                        if self.markets().contains_key(k) {
                            let j = choose|j: int| 0 <= j < self.entries().len() && #[trigger] self.entries()[j].0 == k;
                            let j2 = if j < i { j } else { j + 1 };
                            assert(self.entries()[j] == before.entries()[j2]);
                            assert(before.tracks(k));
                            if k == t {
                                assert(before.entries()[j2].0 == before.entries()[i as int].0);
                                if j2 < i {
                                    assert(before.entries()[j2].0 != before.entries()[i as int].0);
                                } else {
                                    assert(before.entries()[i as int].0 != before.entries()[j2].0);
                                }
                            }
                            before.lemma_entry(j2);
                        }
                    }
                    assert(self.markets() =~= before.markets().remove(t));
                    assert(self.tickers() =~= before.tickers().remove(i as int));
                }
            },
            None => {
                proof {
                    assert(before.markets().remove(t) =~= before.markets());
                }
            },
        }
    }

    /// Get a summary of the orderbook for a market.
    ///
    /// Returns `None` if the market is not being tracked.
    pub fn summary(&self, ticker: &str) -> (r: Option<OrderbookSummary>)
        requires
            self.wf(),
            self.fits_at(ticker@),
        ensures
            r is None <==> !self.markets().contains_key(ticker@),
            r matches Some(s) ==> summarizes(s, ticker@, self.markets()[ticker@]),
    {
        let key = ticker.to_owned();
        match self.find(&key) {
            Some(i) => {
                proof {
                    self.lemma_entry(i as int);
                }
                let book = &self.books[i].1;
                Some(
                    OrderbookSummary {
                        ticker: key,
                        best_bid: book.best_yes_bid(),
                        best_ask: book.best_yes_ask(),
                        spread: book.spread(),
                        total_yes_liquidity: book.total_yes_liquidity(),
                        total_no_liquidity: book.total_no_liquidity(),
                    },
                )
            },
            None => None,
        }
    }

    /// Whether every figure of the summary of a market fits in an `i64`
    /// (true for a market that is not tracked).
    pub fn within_limits(&self, ticker: &str) -> (b: bool)
        requires
            self.wf(),
        ensures
            b == self.fits_at(ticker@),
    {
        let key = ticker.to_owned();
        match self.find(&key) {
            Some(i) => {
                proof {
                    self.lemma_entry(i as int);
                }
                self.books[i].1.within_limits()
            },
            None => true,
        }
    }

    /// Whether `delta_in_range` holds: applying the delta with `seq` needs
    /// no number beyond an `i64`.
    pub fn fits_delta(&self, delta: &OrderbookDeltaData, seq: Option<i64>) -> (b: bool)
        requires
            self.wf(),
        ensures
            b == self.delta_in_range(*delta, seq),
    {
        match self.find(&delta.market_ticker) {
            Some(i) => {
                proof {
                    self.lemma_entry(i as int);
                }
                let book = &self.books[i].1;
                if !book.is_initialized() {
                    return true;
                }
                let current = book.depth_at_price(delta.side, delta.price);
                if current.checked_add(delta.delta).is_none() {
                    return false;
                }
                match (book.last_seq(), seq) {
                    (Some(last), Some(_)) => last < i64::MAX,
                    _ => true,
                }
            },
            None => true,
        }
    }

    /// Whether the best YES ask of a tracked market can be computed (true
    /// for a market that is not tracked).
    pub fn ask_in_range(&self, ticker: &str) -> (b: bool)
        requires
            self.wf(),
        ensures
            b == (self.markets().contains_key(ticker@) ==> self.markets()[ticker@].yes_ask_fits()),
    {
        let key = ticker.to_owned();
        match self.find(&key) {
            Some(i) => {
                proof {
                    self.lemma_entry(i as int);
                }
                self.books[i].1.ask_in_range()
            },
            None => true,
        }
    }

    /// Whether the spread of a tracked market can be computed (true for a
    /// market that is not tracked).
    pub fn spread_in_range(&self, ticker: &str) -> (b: bool)
        requires
            self.wf(),
        ensures
            b == (self.markets().contains_key(ticker@) ==> self.markets()[ticker@].spread_fits()),
    {
        let key = ticker.to_owned();
        match self.find(&key) {
            Some(i) => {
                proof {
                    self.lemma_entry(i as int);
                }
                self.books[i].1.spread_in_range()
            },
            None => true,
        }
    }

    /// Get the best YES bid for a market: (price, quantity), or `None` when
    /// the market is not tracked or has no YES bid.
    pub fn best_bid(&self, ticker: &str) -> (r: Option<(i64, i64)>)
        requires
            self.wf(),
        ensures
            r == (if self.markets().contains_key(ticker@) {
                ladder_best(self.markets()[ticker@].yes_book())
            } else {
                None
            }),
    {
        let key = ticker.to_owned();
        match self.find(&key) {
            Some(i) => {
                proof {
                    self.lemma_entry(i as int);
                }
                self.books[i].1.best_yes_bid()
            },
            None => None,
        }
    }

    /// Get the best YES ask for a market: (price, quantity), or `None` when
    /// the market is not tracked or has no NO bid.
    pub fn best_ask(&self, ticker: &str) -> (r: Option<(i64, i64)>)
        requires
            self.wf(),
            self.markets().contains_key(ticker@) ==> self.markets()[ticker@].yes_ask_fits(),
        ensures
            r == (if self.markets().contains_key(ticker@) {
                self.markets()[ticker@].yes_ask_spec()
            } else {
                None
            }),
    {
        let key = ticker.to_owned();
        match self.find(&key) {
            Some(i) => {
                proof {
                    self.lemma_entry(i as int);
                }
                self.books[i].1.best_yes_ask()
            },
            None => None,
        }
    }

    /// Get the spread for a market in cents, or `None` when the market is
    /// not tracked or lacks a bid or an ask.
    pub fn spread(&self, ticker: &str) -> (r: Option<i64>)
        requires
            self.wf(),
            self.markets().contains_key(ticker@) ==> self.markets()[ticker@].spread_fits(),
        ensures
            !self.markets().contains_key(ticker@) ==> r is None,
            self.markets().contains_key(ticker@) ==> {
                &&& (r matches Some(x) ==> self.markets()[ticker@].spread_spec() == Some(x as int))
                &&& (r is None ==> self.markets()[ticker@].spread_spec() is None)
            },
    {
        let key = ticker.to_owned();
        match self.find(&key) {
            Some(i) => {
                proof {
                    self.lemma_entry(i as int);
                }
                self.books[i].1.spread()
            },
            None => None,
        }
    }

    /// Get the quantity at a specific price level (0 when the market is not
    /// tracked or has no level there).
    pub fn depth_at_price(&self, ticker: &str, side: Side, price: i64) -> (q: i64)
        requires
            self.wf(),
        ensures
            q == (if self.markets().contains_key(ticker@) {
                ladder_qty(self.markets()[ticker@].book(side), price)
            } else {
                0
            }),
    {
        let key = ticker.to_owned();
        match self.find(&key) {
            Some(i) => {
                proof {
                    self.lemma_entry(i as int);
                }
                self.books[i].1.depth_at_price(side, price)
            },
            None => 0,
        }
    }

    /// Get the full orderbook ladder for a market: all YES and NO price
    /// levels with their quantities, ascending by price. Returns `None` if
    /// the market is not being tracked.
    pub fn full_book(&self, ticker: &str) -> (r: Option<OrderbookLadder>)
        requires
            self.wf(),
        ensures
            r is None <==> !self.markets().contains_key(ticker@),
            r matches Some(l) ==> l.ticker@ == ticker@ && l.yes_levels@ == self.markets()[ticker@].yes_book()
                && l.no_levels@ == self.markets()[ticker@].no_book(),
    {
        let key = ticker.to_owned();
        match self.find(&key) {
            Some(i) => {
                proof {
                    self.lemma_entry(i as int);
                }
                let book = &self.books[i].1;
                Some(
                    OrderbookLadder {
                        ticker: key,
                        yes_levels: copy_levels(book.yes_levels()),
                        no_levels: copy_levels(book.no_levels()),
                    },
                )
            },
            None => None,
        }
    }

    /// Get the list of tracked markets, in tracking order.
    pub fn tracked_markets(&self) -> (r: Vec<String>)
        ensures
            string_views(r@) == self.tickers(),
    {
        let mut out: Vec<String> = Vec::new();
        let n = self.books.len();
        let mut i: usize = 0;
        while i < n
            invariant
                n == self.books@.len(),
                0 <= i <= n,
                string_views(out@) == self.tickers().take(i as int),
            decreases n - i,
        {
            let t = self.books[i].0.clone();
            let ghost prev = out@;
            proof {
                assert(self.tickers().len() == n);
                assert(string_views(prev).len() == prev.len());
                assert(prev.len() == i);
            }
            out.push(t);
            proof {
                assert(self.entries()[i as int].0 == self.books@[i as int].0@);
                assert(self.tickers()[i as int] == t@);
                assert forall|j: int| 0 <= j < i + 1 implies #[trigger] string_views(out@)[j] == self.tickers()[j] by {
                    if j < i {
                        assert(out@[j] == prev[j]);
                        assert(string_views(prev)[j] == self.tickers().take(i as int)[j]);
                    }
                }
                assert(string_views(out@) =~= self.tickers().take(i + 1));
            }
            i = i + 1;
        }
        proof {
            assert(self.tickers().take(n as int) =~= self.tickers());
        }
        out
    }

    /// Check if a market is tracked and has been initialized with a
    /// snapshot.
    pub fn is_initialized(&self, ticker: &str) -> (b: bool)
        requires
            self.wf(),
        ensures
            b == (self.markets().contains_key(ticker@) && self.markets()[ticker@].ready()),
    {
        let key = ticker.to_owned();
        match self.find(&key) {
            Some(i) => {
                proof {
                    self.lemma_entry(i as int);
                }
                self.books[i].1.is_initialized()
            },
            None => false,
        }
    }

    /// One step of the feed loop: applies a snapshot or a delta, and says
    /// what to report and whether to keep reading.
    ///
    /// A snapshot changes its market; a delta changes its market when that
    /// market is tracked and initialized, and may reveal a sequence gap;
    /// other messages change nothing. When the receiver lagged, a gap with
    /// no ticker, expected number 0 and the count of dropped messages as
    /// received number is reported. The feed stops when the connection
    /// ended or the channel closed.
    pub fn process_event(&mut self, event: FeedEvent) -> (step: FeedStep)
        requires
            old(self).wf(),
            event matches FeedEvent::Delta(d, seq) ==> old(self).delta_in_range(d, seq),
        ensures
            final(self).wf(),
            match event {
                FeedEvent::Snapshot(snap) => {
                    &&& final(self).markets() == old(self).markets().insert(
                        snap.market_ticker@,
                        final(self).markets()[snap.market_ticker@],
                    )
                    &&& built_from_snapshot(final(self).markets()[snap.market_ticker@], snap)
                    &&& step matches FeedStep::Continue { gap, changed }
                    &&& gap is None
                    &&& changed matches Some((t, d)) && t@ == snap.market_ticker@ && d is None
                },
                FeedEvent::Delta(delta, seq) => {
                    &&& !old(self).accepts_delta(delta.market_ticker@) ==> final(self).markets()
                        == old(self).markets() && step == (FeedStep::Continue {
                        gap: None,
                        changed: None,
                    })
                    &&& old(self).accepts_delta(delta.market_ticker@) ==> {
                        let t = delta.market_ticker@;
                        let before = old(self).markets()[t];
                        let after = final(self).markets()[t];
                        &&& final(self).markets() == old(self).markets().insert(t, after)
                        &&& after.seq() == next_seq(before.seq(), seq)
                        &&& after.ready()
                        &&& step matches FeedStep::Continue { gap, changed }
                        &&& changed matches Some((tk, Some(c)))
                        &&& tk@ == t
                        &&& books_after_delta(before, after, delta, c.new_quantity)
                        &&& c.side == delta.side
                        &&& c.price == delta.price
                        &&& c.quantity_change == delta.delta
                        &&& match gap_between(before.seq(), seq) {
                            Some((e, rcv)) => gap matches Some(g) && g.ticker == Some(
                                delta.market_ticker,
                            ) && g.expected == e && g.received == rcv,
                            None => gap is None,
                        }
                    }
                },
                FeedEvent::Other => final(self).markets() == old(self).markets() && step == (
                FeedStep::Continue { gap: None, changed: None }),
                FeedEvent::Lagged(n) => {
                    &&& final(self).markets() == old(self).markets()
                    &&& step matches FeedStep::Continue { gap, changed }
                    &&& changed is None
                    &&& gap matches Some(g) && g.ticker is None && g.expected == 0 && g.received == n as i64
                },
                FeedEvent::ConnectionEnded | FeedEvent::ChannelClosed => final(self).markets() == old(
                    self,
                ).markets() && step == FeedStep::Stop,
            },
    {
        match event {
            FeedEvent::Snapshot(snapshot) => {
                self.handle_snapshot(&snapshot);
                FeedStep::Continue { gap: None, changed: Some((snapshot.market_ticker, None)) }
            },
            FeedEvent::Delta(delta, seq) => {
                match self.handle_delta(&delta, seq) {
                    Some(applied) => FeedStep::Continue {
                        gap: applied.gap,
                        changed: Some((delta.market_ticker, Some(applied.change))),
                    },
                    None => FeedStep::Continue { gap: None, changed: None },
                }
            },
            FeedEvent::Other => FeedStep::Continue { gap: None, changed: None },
            FeedEvent::Lagged(n) => FeedStep::Continue {
                gap: Some(SequenceGap { ticker: None, expected: 0, received: n as i64 }),
                changed: None,
            },
            FeedEvent::ConnectionEnded => FeedStep::Stop,
            FeedEvent::ChannelClosed => FeedStep::Stop,
        }
    }
}

impl Default for OrderbookAggregator {
    fn default() -> (a: Self)
        ensures
            a.wf(),
            a.markets() == Map::<Seq<char>, OrderbookState>::empty(),
            a.tickers() == Seq::<Seq<char>>::empty(),
    {
        OrderbookAggregator::new()
    }
}

} // verus!
