//! Orderbook state for a single market.

use vstd::prelude::*;
use crate::models::common::Side;
use crate::orderbook::ladder::{
    ladder_assign, ladder_best, ladder_get, ladder_map, ladder_qty, ladder_sum, ladder_total,
    ladder_sum_checked, lemma_qty_is_map_value, sorted_ladder, Ladder, law_quantities_positive,
    law_ladder_determined_by_map,
};
use crate::ws::message::{OrderbookDeltaData, OrderbookSnapshotData, PriceLevel};

verus! {

/// The map that a list of snapshot levels describes: levels with a
/// positive quantity, in order, each setting the quantity at its price (a
/// later level at the same price replaces an earlier one).
pub open spec fn snapshot_map(levels: Seq<PriceLevel>) -> Map<i64, i64>
    decreases levels.len(),
{
    if levels.len() == 0 {
        Map::empty()
    } else {
        let m = snapshot_map(levels.drop_last());
        let l = levels.last();
        if l[1] > 0 {
            m.insert(l[0], l[1])
        } else {
            m
        }
    }
}

/// The map that an optional list of snapshot levels describes (empty when
/// the side is absent).
pub open spec fn opt_snapshot_map(levels: Option<Vec<PriceLevel>>) -> Map<i64, i64> {
    match levels {
        Some(v) => snapshot_map(v@),
        None => Map::empty(),
    }
}

/// `100 - price` is representable as an `i64`.
pub open spec fn complement_fits(price: i64) -> bool {
    100 - price <= i64::MAX
}

/// The level of the other contract implied by a bid: a bid at `p` on one
/// side is an offer at `100 - p` on the other.
pub open spec fn complement_level(best: Option<(i64, i64)>) -> Option<(i64, i64)> {
    match best {
        Some((p, q)) => Some(((100 - p) as i64, q)),
        None => None,
    }
}

/// The quantity at the delta's level once the delta is added to it.
pub open spec fn delta_target(before: OrderbookState, delta: OrderbookDeltaData) -> int {
    ladder_qty(before.book(delta.side), delta.price) + delta.delta
}

/// The books of `after` are those of `before` with `delta` applied, and
/// `new_qty` is the quantity left at the delta's level: the sum of the old
/// quantity and the delta when positive (the level set to it), else 0 (the
/// level removed). The other side is unchanged.
pub open spec fn books_after_delta(
    before: OrderbookState,
    after: OrderbookState,
    delta: OrderbookDeltaData,
    new_qty: i64,
) -> bool {
    let n = delta_target(before, delta);
    &&& new_qty == (if n > 0 { n } else { 0 })
    &&& ladder_map(after.book(delta.side)) == (if n > 0 {
        ladder_map(before.book(delta.side)).insert(delta.price, n as i64)
    } else {
        ladder_map(before.book(delta.side)).remove(delta.price)
    })
    &&& delta.side == Side::Yes ==> after.no_book() == before.no_book()
    &&& delta.side == Side::No ==> after.yes_book() == before.yes_book()
}

/// `after` is `before` with `delta` applied (see `books_after_delta`); the
/// sequence number and the initialized flag are unchanged.
pub open spec fn delta_applied(
    before: OrderbookState,
    after: OrderbookState,
    delta: OrderbookDeltaData,
    new_qty: i64,
) -> bool {
    &&& books_after_delta(before, after, delta, new_qty)
    &&& after.seq() == before.seq()
    &&& after.ready() == before.ready()
}

/// The YES spread of two sides: the best YES ask (100 minus the best NO
/// bid) minus the best YES bid, when both bids exist.
pub open spec fn spread_of(yes: Ladder, no: Ladder) -> Option<int> {
    match (ladder_best(yes), ladder_best(no)) {
        (Some((bid, _)), Some((no_bid, _))) => Some((100 - no_bid) - bid),
        _ => None,
    }
}

/// Every figure of a book's summary fits in an `i64`: both asks, the
/// spread and the total quantity of each side.
pub open spec fn books_fit(yes: Ladder, no: Ladder) -> bool {
    &&& ladder_best(no) matches Some((p, _)) ==> complement_fits(p)
    &&& ladder_best(yes) matches Some((p, _)) ==> complement_fits(p)
    &&& spread_of(yes, no) matches Some(x) ==> i64::MIN <= x <= i64::MAX
    &&& ladder_total(yes) <= i64::MAX
    &&& ladder_total(no) <= i64::MAX
}

/// Internal orderbook state for a single market.
///
/// Each side is a price ladder (ascending prices, positive quantities).
#[derive(Debug, Clone)]
pub struct OrderbookState {
    yes_levels: Vec<(i64, i64)>,
    no_levels: Vec<(i64, i64)>,
    last_seq: Option<i64>,
    initialized: bool,
}

impl OrderbookState {
    /// The YES side: bids for YES, ascending by price.
    pub closed spec fn yes_book(&self) -> Ladder {
        self.yes_levels@
    }

    /// The NO side: bids for NO, ascending by price.
    pub closed spec fn no_book(&self) -> Ladder {
        self.no_levels@
    }

    /// The last sequence number recorded.
    pub closed spec fn seq(&self) -> Option<i64> {
        self.last_seq
    }

    /// Whether a snapshot has initialized this book.
    pub closed spec fn ready(&self) -> bool {
        self.initialized
    }

    /// The ladder of one side.
    pub open spec fn book(&self, side: Side) -> Ladder {
        match side {
            Side::Yes => self.yes_book(),
            Side::No => self.no_book(),
        }
    }

    /// Both ladders are well formed.
    pub open spec fn wf(&self) -> bool {
        sorted_ladder(self.yes_book()) && sorted_ladder(self.no_book())
    }

    /// The best YES ask: the complement of the best NO bid.
    pub open spec fn yes_ask_spec(&self) -> Option<(i64, i64)> {
        complement_level(ladder_best(self.no_book()))
    }

    /// The best NO ask: the complement of the best YES bid.
    pub open spec fn no_ask_spec(&self) -> Option<(i64, i64)> {
        complement_level(ladder_best(self.yes_book()))
    }

    /// The best YES ask can be computed without overflow.
    pub open spec fn yes_ask_fits(&self) -> bool {
        ladder_best(self.no_book()) matches Some((p, _)) ==> complement_fits(p)
    }

    /// The best NO ask can be computed without overflow.
    pub open spec fn no_ask_fits(&self) -> bool {
        ladder_best(self.yes_book()) matches Some((p, _)) ==> complement_fits(p)
    }

    /// The YES spread (ask minus bid), when both sides are present.
    pub open spec fn spread_spec(&self) -> Option<int> {
        spread_of(self.yes_book(), self.no_book())
    }

    /// The spread can be computed without overflow.
    pub open spec fn spread_fits(&self) -> bool {
        self.spread_spec() matches Some(s) ==> i64::MIN <= s <= i64::MAX
    }

    /// Every figure of this book's summary fits in an `i64`.
    pub open spec fn fits(&self) -> bool {
        books_fit(self.yes_book(), self.no_book())
    }

    /// Create a new empty orderbook state.
    pub fn new() -> (s: Self)
        ensures
            s.wf(),
            s.yes_book() == Seq::<(i64, i64)>::empty(),
            s.no_book() == Seq::<(i64, i64)>::empty(),
            s.seq() == None::<i64>,
            !s.ready(),
    {
        OrderbookState {
            yes_levels: Vec::new(),
            no_levels: Vec::new(),
            last_seq: None,
            initialized: false,
        }
    }

    /// Initialize from a snapshot: levels with a positive quantity are
    /// kept, the book is marked initialized and no sequence number is
    /// recorded.
    pub fn from_snapshot(snapshot: &OrderbookSnapshotData) -> (s: Self)
        ensures
            s.wf(),
            ladder_map(s.yes_book()) == opt_snapshot_map(snapshot.yes),
            ladder_map(s.no_book()) == opt_snapshot_map(snapshot.no),
            s.seq() == None::<i64>,
            s.ready(),
    {
        let yes_levels = match &snapshot.yes {
            Some(levels) => levels_to_ladder(levels),
            None => Vec::new(),
        };
        let no_levels = match &snapshot.no {
            Some(levels) => levels_to_ladder(levels),
            None => Vec::new(),
        };
        proof {
            assert(ladder_map(Seq::<(i64, i64)>::empty()) =~= Map::<i64, i64>::empty());
        }
        OrderbookState { yes_levels, no_levels, last_seq: None, initialized: true }
    }

    /// Apply a delta update.
    ///
    /// The quantity at the level becomes the current quantity plus the
    /// delta; a level that would fall to zero or below is removed. Returns
    /// the new quantity at the level (0 when it was removed).
    pub fn apply_delta(&mut self, delta: &OrderbookDeltaData) -> (new_qty: i64)
        requires
            old(self).wf(),
            i64::MIN <= delta_target(*old(self), *delta) <= i64::MAX,
        ensures
            final(self).wf(),
            delta_applied(*old(self), *final(self), *delta, new_qty),
    {
        match delta.side {
            Side::Yes => apply_to_ladder(&mut self.yes_levels, delta.price, delta.delta),
            Side::No => apply_to_ladder(&mut self.no_levels, delta.price, delta.delta),
        }
    }

    /// Record a sequence number; `None` leaves the recorded one in place.
    pub fn update_seq(&mut self, seq: Option<i64>)
        ensures
            final(self).seq() == (match seq {
                Some(s) => Some(s),
                None => old(self).seq(),
            }),
            final(self).yes_book() == old(self).yes_book(),
            final(self).no_book() == old(self).no_book(),
            final(self).ready() == old(self).ready(),
    {
        if let Some(s) = seq {
            self.last_seq = Some(s);
        }
    }

    /// Get the last sequence number.
    pub fn last_seq(&self) -> (r: Option<i64>)
        ensures
            r == self.seq(),
    {
        self.last_seq
    }

    /// Whether the orderbook has been initialized with a snapshot.
    pub fn is_initialized(&self) -> (r: bool)
        ensures
            r == self.ready(),
    {
        self.initialized
    }

    /// Get the best YES bid (highest price someone will pay for YES).
    ///
    /// Returns (price, quantity) or None if no bids.
    pub fn best_yes_bid(&self) -> (r: Option<(i64, i64)>)
        ensures
            r == ladder_best(self.yes_book()),
    {
        ladder_top(&self.yes_levels)
    }

    /// Get the best YES ask (lowest price to buy YES): 100 minus the best
    /// NO bid, with the NO bid's quantity.
    ///
    /// Returns (price, quantity) or None if no asks.
    pub fn best_yes_ask(&self) -> (r: Option<(i64, i64)>)
        requires
            self.yes_ask_fits(),
        ensures
            r == self.yes_ask_spec(),
    {
        complement(ladder_top(&self.no_levels))
    }

    /// Get the best NO bid (highest price someone will pay for NO).
    ///
    /// Returns (price, quantity) or None if no bids.
    pub fn best_no_bid(&self) -> (r: Option<(i64, i64)>)
        ensures
            r == ladder_best(self.no_book()),
    {
        ladder_top(&self.no_levels)
    }

    /// Get the best NO ask (lowest price to buy NO): 100 minus the best YES
    /// bid, with the YES bid's quantity.
    ///
    /// Returns (price, quantity) or None if no asks.
    pub fn best_no_ask(&self) -> (r: Option<(i64, i64)>)
        requires
            self.no_ask_fits(),
        ensures
            r == self.no_ask_spec(),
    {
        complement(ladder_top(&self.yes_levels))
    }

    /// Get the YES spread (ask - bid) in cents.
    ///
    /// Returns None if either bid or ask is unavailable.
    pub fn spread(&self) -> (r: Option<i64>)
        requires
            self.spread_fits(),
        ensures
            r matches Some(s) ==> self.spread_spec() == Some(s as int),
            r is None ==> self.spread_spec() is None,
    {
        let bid = match ladder_top(&self.yes_levels) {
            Some(level) => level.0,
            None => return None,
        };
        let no_bid = match ladder_top(&self.no_levels) {
            Some(level) => level.0,
            None => return None,
        };
        let ask = 100 - no_bid as i128;
        let s = ask - bid as i128;
        Some(s as i64)
    }

    /// Get the quantity at a specific price level (0 when there is none).
    pub fn depth_at_price(&self, side: Side, price: i64) -> (q: i64)
        requires
            self.wf(),
        ensures
            q == ladder_qty(self.book(side), price),
    {
        match side {
            Side::Yes => ladder_get(&self.yes_levels, price),
            Side::No => ladder_get(&self.no_levels, price),
        }
    }

    /// Get total YES liquidity (sum of all YES bid quantities).
    pub fn total_yes_liquidity(&self) -> (t: i64)
        requires
            self.wf(),
            ladder_total(self.yes_book()) <= i64::MAX,
        ensures
            t == ladder_total(self.yes_book()),
    {
        ladder_sum(&self.yes_levels)
    }

    /// Get total NO liquidity (sum of all NO bid quantities).
    pub fn total_no_liquidity(&self) -> (t: i64)
        requires
            self.wf(),
            ladder_total(self.no_book()) <= i64::MAX,
        ensures
            t == ladder_total(self.no_book()),
    {
        ladder_sum(&self.no_levels)
    }

    /// Get all YES levels, ascending by price.
    pub fn yes_levels(&self) -> (r: &Vec<(i64, i64)>)
        ensures
            r@ == self.yes_book(),
    {
        &self.yes_levels
    }

    /// Get all NO levels, ascending by price.
    pub fn no_levels(&self) -> (r: &Vec<(i64, i64)>)
        ensures
            r@ == self.no_book(),
    {
        &self.no_levels
    }

    /// Whether every figure of this book's summary (asks, spread, totals)
    /// fits in an `i64`.
    pub fn within_limits(&self) -> (b: bool)
        requires
            self.wf(),
        ensures
            b == self.fits(),
    {
        let yes_total = ladder_sum_checked(&self.yes_levels);
        let no_total = ladder_sum_checked(&self.no_levels);
        if yes_total.is_none() || no_total.is_none() {
            return false;
        }
        let min_bid: i64 = 100 - i64::MAX;
        let yes_top = ladder_top(&self.yes_levels);
        let no_top = ladder_top(&self.no_levels);
        match yes_top {
            Some((p, _)) => {
                if p < min_bid {
                    return false;
                }
            },
            None => {},
        }
        match no_top {
            Some((p, _)) => {
                if p < min_bid {
                    return false;
                }
            },
            None => {},
        }
        match (yes_top, no_top) {
            (Some((bid, _)), Some((no_bid, _))) => {
                let s: i128 = (100 - no_bid as i128) - bid as i128;
                s >= i64::MIN as i128 && s <= i64::MAX as i128
            },
            _ => true,
        }
    }

    /// Whether the best YES ask can be computed (see `yes_ask_fits`).
    pub fn ask_in_range(&self) -> (b: bool)
        ensures
            b == self.yes_ask_fits(),
    {
        let min_bid: i64 = 100 - i64::MAX;
        match ladder_top(&self.no_levels) {
            Some((p, _)) => p >= min_bid,
            None => true,
        }
    }

    /// Whether the spread can be computed (see `spread_fits`).
    pub fn spread_in_range(&self) -> (b: bool)
        ensures
            b == self.spread_fits(),
    {
        match (ladder_top(&self.yes_levels), ladder_top(&self.no_levels)) {
            (Some((bid, _)), Some((no_bid, _))) => {
                let s: i128 = (100 - no_bid as i128) - bid as i128;
                s >= i64::MIN as i128 && s <= i64::MAX as i128
            },
            _ => true,
        }
    }

    /// Clear the orderbook state: no levels, no sequence number, not
    /// initialized.
    pub fn clear(&mut self)
        ensures
            final(self).wf(),
            final(self).yes_book() == Seq::<(i64, i64)>::empty(),
            final(self).no_book() == Seq::<(i64, i64)>::empty(),
            final(self).seq() == None::<i64>,
            !final(self).ready(),
    {
        self.yes_levels.clear();
        self.no_levels.clear();
        self.last_seq = None;
        self.initialized = false;
    }
}

impl Default for OrderbookState {
    fn default() -> (s: Self)
        ensures
            s.wf(),
            s.yes_book() == Seq::<(i64, i64)>::empty(),
            s.no_book() == Seq::<(i64, i64)>::empty(),
            s.seq() == None::<i64>,
            !s.ready(),
    {
        OrderbookState::new()
    }
}


/// What a delta writes is read back: once a delta is applied to a market
/// (its books changed as `books_after_delta` states), the depth read at the
/// delta's level is the new quantity that the delta reported, and the depth
/// at every other level of either side is what it was.
pub proof fn law_delta_read_back(
    before: OrderbookState,
    after: OrderbookState,
    delta: OrderbookDeltaData,
    new_quantity: i64,
    side: Side,
    price: i64,
)
    requires
        books_after_delta(before, after, delta, new_quantity),
    ensures
        ladder_qty(after.book(delta.side), delta.price) == new_quantity,
        side != delta.side || price != delta.price ==> ladder_qty(after.book(side), price) == ladder_qty(
            before.book(side),
            price,
        ),
{
    lemma_qty_is_map_value(after.book(delta.side), delta.price);
    lemma_qty_is_map_value(before.book(delta.side), delta.price);
    lemma_qty_is_map_value(after.book(side), price);
    lemma_qty_is_map_value(before.book(side), price);
}

/// A delta that leaves a positive quantity at its level is undone by the
/// opposite delta at the same level: both sides end as they were.
pub proof fn law_opposite_delta_undoes(
    before: OrderbookState,
    mid: OrderbookState,
    after: OrderbookState,
    delta: OrderbookDeltaData,
    undo: OrderbookDeltaData,
    q1: i64,
    q2: i64,
)
    requires
        before.wf(),
        mid.wf(),
        after.wf(),
        delta_applied(before, mid, delta, q1),
        delta_applied(mid, after, undo, q2),
        undo.side == delta.side,
        undo.price == delta.price,
        undo.delta == -delta.delta,
        delta_target(before, delta) > 0,
    ensures
        after.yes_book() == before.yes_book(),
        after.no_book() == before.no_book(),
{
    let side = delta.side;
    let p = delta.price;
    let b = before.book(side);
    let m = mid.book(side);
    let a = after.book(side);
    lemma_qty_is_map_value(b, p);
    lemma_qty_is_map_value(m, p);
    law_quantities_positive(b);
    let x = ladder_qty(b, p);
    assert(delta_target(mid, undo) == x);
    if x > 0 {
        assert(ladder_map(a) =~= ladder_map(b));
    } else {
        assert(!ladder_map(b).dom().contains(p));
        assert(ladder_map(a) =~= ladder_map(b));
    }
    law_ladder_determined_by_map(a, b);
}

/// The best YES ask mirrors the best NO bid: it exists exactly when a NO
/// bid does, has its quantity, and the two prices add up to 100.
pub proof fn law_yes_ask_mirrors_no_bid(s: OrderbookState)
    requires
        s.yes_ask_fits(),
    ensures
        s.yes_ask_spec() is Some <==> ladder_best(s.no_book()) is Some,
        s.yes_ask_spec() matches Some((ask, q)) ==> ladder_best(s.no_book()) matches Some((
            bid,
            q2,
        )) && ask + bid == 100 && q == q2,
{
}

/// The best NO ask mirrors the best YES bid: it exists exactly when a YES
/// bid does, has its quantity, and the two prices add up to 100.
pub proof fn law_no_ask_mirrors_yes_bid(s: OrderbookState)
    requires
        s.no_ask_fits(),
    ensures
        s.no_ask_spec() is Some <==> ladder_best(s.yes_book()) is Some,
        s.no_ask_spec() matches Some((ask, q)) ==> ladder_best(s.yes_book()) matches Some((
            bid,
            q2,
        )) && ask + bid == 100 && q == q2,
{
}

/// The spread is the best YES ask minus the best YES bid, and exists
/// exactly when both do.
pub proof fn law_spread_is_ask_minus_bid(s: OrderbookState)
    requires
        s.yes_ask_fits(),
    ensures
        s.spread_spec() is Some <==> (ladder_best(s.yes_book()) is Some && s.yes_ask_spec() is Some),
        s.spread_spec() matches Some(x) ==> ladder_best(s.yes_book()) matches Some((bid, _))
            && s.yes_ask_spec() matches Some((ask, _)) && x == ask - bid,
{
}

/// A snapshot keeps exactly its levels with a positive quantity: every
/// price of the resulting side has a positive quantity, and every level of
/// the snapshot with a positive quantity has its price in the result.
pub proof fn law_snapshot_keeps_positive_levels(levels: Seq<PriceLevel>)
    ensures
        forall|p: i64| #[trigger] snapshot_map(levels).dom().contains(p) ==> snapshot_map(levels)[p]
            > 0,
        forall|i: int| 0 <= i < levels.len() && #[trigger] levels[i][1] > 0 ==> snapshot_map(
            levels,
        ).dom().contains(levels[i][0]),
    decreases levels.len(),
{
    if levels.len() > 0 {
        let init = levels.drop_last();
        law_snapshot_keeps_positive_levels(init);
        let l = levels.last();
        assert forall|p: i64| #[trigger] snapshot_map(levels).dom().contains(p) implies snapshot_map(
            levels,
        )[p] > 0 by {
            if !(l[1] > 0 && p == l[0]) {
                assert(snapshot_map(init).dom().contains(p));
            }
        }
        assert forall|i: int| 0 <= i < levels.len() && #[trigger] levels[i][1] > 0 implies snapshot_map(
            levels,
        ).dom().contains(levels[i][0]) by {
            if i < levels.len() - 1 {
                assert(init[i] == levels[i]);
            }
        }
    }
}

/// The last level of a snapshot at a price with a positive quantity sets
/// that price's quantity.
pub proof fn law_snapshot_last_level_wins(levels: Seq<PriceLevel>, i: int)
    requires
        0 <= i < levels.len(),
        levels[i][1] > 0,
        forall|j: int| i < j < levels.len() ==> #[trigger] levels[j][0] != levels[i][0],
    ensures
        snapshot_map(levels).dom().contains(levels[i][0]),
        snapshot_map(levels)[levels[i][0]] == levels[i][1],
    decreases levels.len(),
{
    if i < levels.len() - 1 {
        let init = levels.drop_last();
        assert(init[i] == levels[i]);
        assert forall|j: int| i < j < init.len() implies #[trigger] init[j][0] != init[i][0] by {
            assert(init[j] == levels[j]);
        }
        law_snapshot_last_level_wins(init, i);
        assert(levels[levels.len() - 1][0] != levels[i][0]);
    }
}

/// The highest level of a ladder, if any.
fn ladder_top(levels: &Vec<(i64, i64)>) -> (r: Option<(i64, i64)>)
    ensures
        r == ladder_best(levels@),
{
    let n = levels.len();
    if n == 0 {
        None
    } else {
        Some(levels[n - 1])
    }
}

/// The complementary level of an optional best bid.
fn complement(best: Option<(i64, i64)>) -> (r: Option<(i64, i64)>)
    requires
        best matches Some((p, _)) ==> complement_fits(p),
    ensures
        r == complement_level(best),
{
    match best {
        Some((p, q)) => Some((100 - p, q)),
        None => None,
    }
}

/// Adds `delta` to the quantity at `price`, removing the level when the
/// result is not positive; returns the resulting quantity (0 if removed).
fn apply_to_ladder(levels: &mut Vec<(i64, i64)>, price: i64, delta: i64) -> (new_qty: i64)
    requires
        sorted_ladder(old(levels)@),
        i64::MIN <= ladder_qty(old(levels)@, price) + delta <= i64::MAX,
    ensures
        sorted_ladder(final(levels)@),
        ({
            let n = ladder_qty(old(levels)@, price) + delta;
            &&& new_qty == (if n > 0 { n } else { 0 })
            &&& ladder_map(final(levels)@) == (if n > 0 {
                ladder_map(old(levels)@).insert(price, n as i64)
            } else {
                ladder_map(old(levels)@).remove(price)
            })
        }),
{
    let current = ladder_get(levels, price);
    let new_qty = current + delta;
    ladder_assign(levels, price, new_qty);
    if new_qty <= 0 {
        0
    } else {
        new_qty
    }
}

/// Builds a ladder from snapshot levels, keeping those with a positive
/// quantity.
fn levels_to_ladder(levels: &Vec<PriceLevel>) -> (r: Vec<(i64, i64)>)
    ensures
        sorted_ladder(r@),
        ladder_map(r@) == snapshot_map(levels@),
{
    let mut out: Vec<(i64, i64)> = Vec::new();
    let n = levels.len();
    let mut i: usize = 0;
    proof {
        assert(levels@.take(0) =~= Seq::<PriceLevel>::empty());
        assert(ladder_map(out@) =~= Map::<i64, i64>::empty());
    }
    while i < n
        invariant
            n == levels@.len(),
            0 <= i <= n,
            sorted_ladder(out@),
            ladder_map(out@) == snapshot_map(levels@.take(i as int)),
        decreases n - i,
    {
        let level = levels[i];
        let price = level[0];
        let qty = level[1];
        proof {
            assert(levels@.take(i + 1).drop_last() =~= levels@.take(i as int));
            assert(levels@.take(i + 1).last() == levels@[i as int]);
        }
        if qty > 0 {
            ladder_assign(&mut out, price, qty);
        }
        i = i + 1;
    }
    proof {
        assert(levels@.take(n as int) =~= levels@);
    }
    out
}

} // verus!
