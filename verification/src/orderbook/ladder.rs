//! One side of an orderbook: price levels kept in ascending price order.
//!
//! A ladder is a sequence of `(price, quantity)` pairs with strictly
//! increasing prices and positive quantities. It stands for the map from
//! each price present to its quantity.

use vstd::prelude::*;

verus! {

/// A price ladder: `(price_cents, quantity)` pairs.
pub type Ladder = Seq<(i64, i64)>;

/// Prices strictly increase along the ladder and every quantity is positive.
pub open spec fn sorted_ladder(s: Ladder) -> bool {
    &&& forall|i: int, j: int| 0 <= i < j < s.len() ==> #[trigger] s[i].0 < #[trigger] s[j].0
    &&& forall|i: int| 0 <= i < s.len() ==> #[trigger] s[i].1 > 0
}

/// Whether the ladder has a level at `price`.
pub open spec fn ladder_has(s: Ladder, price: i64) -> bool {
    exists|i: int| 0 <= i < s.len() && #[trigger] s[i].0 == price
}

/// The quantity at `price` (0 when the ladder has no level there).
pub open spec fn ladder_qty(s: Ladder, price: i64) -> i64 {
    if ladder_has(s, price) {
        s[choose|i: int| 0 <= i < s.len() && #[trigger] s[i].0 == price].1
    } else {
        0
    }
}

/// The map from each price present to its quantity.
pub open spec fn ladder_map(s: Ladder) -> Map<i64, i64> {
    Map::new(|p: i64| ladder_has(s, p), |p: i64| ladder_qty(s, p))
}

/// The sum of all quantities of the ladder.
pub open spec fn ladder_total(s: Ladder) -> int
    decreases s.len(),
{
    if s.len() == 0 {
        0
    } else {
        ladder_total(s.drop_last()) + s.last().1
    }
}

/// The level with the highest price, if any.
pub open spec fn ladder_best(s: Ladder) -> Option<(i64, i64)> {
    if s.len() == 0 {
        None
    } else {
        Some(s.last())
    }
}

/// The quantity at a price present in a sorted ladder is the one stored at
/// its index.
pub proof fn lemma_qty_at(s: Ladder, i: int)
    requires
        sorted_ladder(s),
        0 <= i < s.len(),
    ensures
        ladder_has(s, s[i].0),
        ladder_qty(s, s[i].0) == s[i].1,
{
    assert(s[i].0 == s[i].0);
    let j = choose|j: int| 0 <= j < s.len() && #[trigger] s[j].0 == s[i].0;
    if j < i {
        assert(s[j].0 < s[i].0);
    } else if j > i {
        assert(s[i].0 < s[j].0);
    }
}

/// A sorted ladder's map gives back the ladder's levels: its domain is the
/// set of prices, and each price maps to its quantity.
pub proof fn lemma_map_at(s: Ladder, i: int)
    requires
        sorted_ladder(s),
        0 <= i < s.len(),
    ensures
        ladder_map(s).dom().contains(s[i].0),
        ladder_map(s)[s[i].0] == s[i].1,
{
    lemma_qty_at(s, i);
}

/// The position of `price` in a sorted ladder: every level before it has a
/// lower price, and the level there (if any) has a price not lower.
pub open spec fn is_slot(s: Ladder, price: i64, idx: int) -> bool {
    &&& 0 <= idx <= s.len()
    &&& forall|j: int| 0 <= j < idx ==> #[trigger] s[j].0 < price
    &&& idx < s.len() ==> s[idx].0 >= price
}

/// At the slot of `price`, the ladder has `price` exactly when the level
/// there carries it.
pub proof fn lemma_slot_has(s: Ladder, price: i64, idx: int)
    requires
        sorted_ladder(s),
        is_slot(s, price, idx),
    ensures
        ladder_has(s, price) <==> (idx < s.len() && s[idx].0 == price),
        !(idx < s.len() && s[idx].0 == price) ==> ladder_qty(s, price) == 0,
        (idx < s.len() && s[idx].0 == price) ==> ladder_qty(s, price) == s[idx].1,
{
    if idx < s.len() && s[idx].0 == price {
        lemma_qty_at(s, idx);
    } else {
        if ladder_has(s, price) {
            let k = choose|k: int| 0 <= k < s.len() && #[trigger] s[k].0 == price;
            if k < idx {
                assert(s[k].0 < price);
            } else if k == idx {
            } else {
                assert(s[idx].0 < s[k].0);
            }
        }
    }
}

/// Finds the slot of `price`: the first level whose price is not lower.
pub fn ladder_find(levels: &Vec<(i64, i64)>, price: i64) -> (idx: usize)
    requires
        sorted_ladder(levels@),
    ensures
        is_slot(levels@, price, idx as int),
{
    let n = levels.len();
    let mut lo: usize = 0;
    let mut hi: usize = n;
    while lo < hi
        invariant
            n == levels@.len(),
            sorted_ladder(levels@),
            0 <= lo <= hi <= n,
            forall|j: int| 0 <= j < lo ==> #[trigger] levels@[j].0 < price,
            forall|j: int| hi <= j < n ==> #[trigger] levels@[j].0 >= price,
        decreases hi - lo,
    {
        let mid = lo + (hi - lo) / 2;
        if levels[mid].0 < price {
            proof {
                assert forall|j: int| 0 <= j < mid + 1 implies #[trigger] levels@[j].0 < price by {
                    if j < mid {
                        assert(levels@[j].0 < levels@[mid as int].0);
                    }
                }
            }
            lo = mid + 1;
        } else {
            proof {
                assert forall|j: int| mid <= j < n implies #[trigger] levels@[j].0 >= price by {
                    if j > mid {
                        assert(levels@[mid as int].0 < levels@[j].0);
                    }
                }
            }
            hi = mid;
        }
    }
    lo
}

/// The quantity at `price` (0 when the ladder has no level there).
pub fn ladder_get(levels: &Vec<(i64, i64)>, price: i64) -> (q: i64)
    requires
        sorted_ladder(levels@),
    ensures
        q == ladder_qty(levels@, price),
{
    let idx = ladder_find(levels, price);
    proof {
        lemma_slot_has(levels@, price, idx as int);
    }
    if idx < levels.len() && levels[idx].0 == price {
        levels[idx].1
    } else {
        0
    }
}

/// Sets the quantity at `price`: a positive quantity inserts or replaces
/// the level, any other removes it.
pub fn ladder_assign(levels: &mut Vec<(i64, i64)>, price: i64, qty: i64)
    requires
        sorted_ladder(old(levels)@),
    ensures
        sorted_ladder(final(levels)@),
        ladder_map(final(levels)@) == if qty > 0 {
            ladder_map(old(levels)@).insert(price, qty)
        } else {
            ladder_map(old(levels)@).remove(price)
        },
{
    let idx = ladder_find(levels, price);
    let ghost s = levels@;
    proof {
        lemma_slot_has(s, price, idx as int);
    }
    let found = idx < levels.len() && levels[idx].0 == price;
    if qty > 0 {
        if found {
            levels.set(idx, (price, qty));
        } else {
            levels.insert(idx, (price, qty));
        }
        let ghost t = levels@;
        proof {
            assert forall|i: int, j: int| 0 <= i < j < t.len() implies #[trigger] t[i].0 < #[trigger] t[j].0 by {
                if found {
                    if i != idx && j != idx {
                        assert(s[i].0 < s[j].0);
                    } else if i == idx {
                        assert(s[i].0 < s[j].0);
                    } else {
                        assert(s[i].0 < s[j].0);
                    }
                } else {
                    if j < idx {
                        assert(s[i].0 < s[j].0);
                    } else if i > idx {
                        assert(s[i - 1].0 < s[j - 1].0);
                    } else if i == idx {
                        assert(s[j - 1].0 >= s[idx as int].0 || j - 1 == idx);
                    } else {
                        assert(s[i].0 < price);
                    }
                }
            }
            assert(sorted_ladder(t));
            let m = ladder_map(s).insert(price, qty);
            assert forall|p: i64| #![trigger ladder_has(t, p)] ladder_has(t, p) == m.dom().contains(p)
                && (ladder_has(t, p) ==> ladder_qty(t, p) == m[p]) by {
                if p == price {
                    lemma_qty_at(t, idx as int);
                } else {
                    if ladder_has(t, p) {
                        let k = choose|k: int| 0 <= k < t.len() && #[trigger] t[k].0 == p;
                        lemma_qty_at(t, k);
                        let k2 = if found || k < idx { k } else { k - 1 };
                        assert(s[k2] == t[k]);
                        lemma_qty_at(s, k2);
                    }
                    if ladder_has(s, p) {
                        let k = choose|k: int| 0 <= k < s.len() && #[trigger] s[k].0 == p;
                        let k2 = if found || k < idx { k } else { k + 1 };
                        assert(t[k2] == s[k]);
                        lemma_qty_at(t, k2);
                    }
                }
            }
            assert(ladder_map(t) =~= m);
        }
    } else {
        if found {
            levels.remove(idx);
        }
        let ghost t = levels@;
        proof {
            assert forall|i: int, j: int| 0 <= i < j < t.len() implies #[trigger] t[i].0 < #[trigger] t[j].0 by {
                if found {
                    if j < idx {
                        assert(s[i].0 < s[j].0);
                    } else if i >= idx {
                        assert(s[i + 1].0 < s[j + 1].0);
                    } else {
                        assert(s[i].0 < s[j + 1].0);
                    }
                } else {
                    assert(s[i].0 < s[j].0);
                }
            }
            assert(sorted_ladder(t));
            let m = ladder_map(s).remove(price);
            assert forall|p: i64| #![trigger ladder_has(t, p)] ladder_has(t, p) == m.dom().contains(p)
                && (ladder_has(t, p) ==> ladder_qty(t, p) == m[p]) by {
                if ladder_has(t, p) {
                    let k = choose|k: int| 0 <= k < t.len() && #[trigger] t[k].0 == p;
                    lemma_qty_at(t, k);
                    let k2 = if found && k >= idx { k + 1 } else { k };
                    assert(s[k2] == t[k]);
                    lemma_qty_at(s, k2);
                    if found {
                        if p == price {
                            assert(s[idx as int].0 == price);
                            assert(k2 == idx);
                        }
                    }
                }
                if ladder_has(s, p) && p != price {
                    let k = choose|k: int| 0 <= k < s.len() && #[trigger] s[k].0 == p;
                    if found {
                        assert(k != idx);
                    }
                    let k2 = if found && k > idx { k - 1 } else { k };
                    assert(t[k2] == s[k]);
                    lemma_qty_at(t, k2);
                }
            }
            assert(ladder_map(t) =~= m);
        }
    }
}

/// The sum of all quantities, when it fits in an `i64`.
pub fn ladder_sum(levels: &Vec<(i64, i64)>) -> (total: i64)
    requires
        sorted_ladder(levels@),
        ladder_total(levels@) <= i64::MAX,
    ensures
        total == ladder_total(levels@),
{
    let n = levels.len();
    let mut total: i64 = 0;
    let mut i: usize = 0;
    proof {
        assert(levels@.take(0) =~= Seq::<(i64, i64)>::empty());
    }
    while i < n
        invariant
            n == levels@.len(),
            sorted_ladder(levels@),
            ladder_total(levels@) <= i64::MAX,
            0 <= i <= n,
            total == ladder_total(levels@.take(i as int)),
        decreases n - i,
    {
        proof {
            assert(levels@.take(i + 1).drop_last() =~= levels@.take(i as int));
            lemma_total_prefix_bound(levels@, i + 1);
        }
        total = total + levels[i].1;
        i = i + 1;
    }
    proof {
        assert(levels@.take(n as int) =~= levels@);
    }
    total
}

/// The total of a prefix of a ladder with positive quantities is at most
/// the total of the whole ladder.
pub proof fn lemma_total_prefix_bound(s: Ladder, k: int)
    requires
        sorted_ladder(s),
        0 <= k <= s.len(),
    ensures
        0 <= ladder_total(s.take(k)) <= ladder_total(s),
    decreases s.len() - k,
{
    if k == s.len() {
        assert(s.take(k) =~= s);
        lemma_total_nonneg(s);
    } else {
        lemma_total_prefix_bound(s, k + 1);
        assert(s.take(k + 1).drop_last() =~= s.take(k));
        assert(s.take(k + 1).last() == s[k]);
        lemma_total_nonneg(s.take(k));
    }
}

/// The total of a ladder with positive quantities is not negative.
pub proof fn lemma_total_nonneg(s: Ladder)
    requires
        forall|i: int| 0 <= i < s.len() ==> #[trigger] s[i].1 > 0,
    ensures
        ladder_total(s) >= 0,
    decreases s.len(),
{
    if s.len() > 0 {
        assert forall|i: int| 0 <= i < s.drop_last().len() implies #[trigger] s.drop_last()[i].1 > 0 by {
            assert(s.drop_last()[i] == s[i]);
        }
        lemma_total_nonneg(s.drop_last());
    }
}


/// The quantity read at a price is the map's value there, or 0 when the
/// price has no level.
pub proof fn lemma_qty_is_map_value(s: Ladder, price: i64)
    ensures
        ladder_qty(s, price) == (if ladder_map(s).dom().contains(price) {
            ladder_map(s)[price]
        } else {
            0
        }),
{
}

/// Every level of a well-formed ladder has a positive quantity.
pub proof fn law_quantities_positive(s: Ladder)
    requires
        sorted_ladder(s),
    ensures
        forall|p: i64| #[trigger] ladder_map(s).dom().contains(p) ==> ladder_map(s)[p] > 0,
{
    assert forall|p: i64| #[trigger] ladder_map(s).dom().contains(p) implies ladder_map(s)[p] > 0 by {
        let i = choose|i: int| 0 <= i < s.len() && #[trigger] s[i].0 == p;
        lemma_qty_at(s, i);
    }
}

/// The best level of a well-formed ladder is its highest price: there is
/// none exactly when the ladder is empty, and otherwise it is a price of
/// the ladder, with its quantity, and no price of the ladder is higher.
pub proof fn law_best_is_highest(s: Ladder)
    requires
        sorted_ladder(s),
    ensures
        ladder_best(s) is None <==> ladder_map(s).dom() == Set::<i64>::empty(),
        ladder_best(s) matches Some((p, q)) ==> {
            &&& ladder_map(s).dom().contains(p)
            &&& ladder_map(s)[p] == q
            &&& forall|k: i64| #[trigger] ladder_map(s).dom().contains(k) ==> k <= p
        },
{
    if s.len() == 0 {
        assert(ladder_map(s).dom() =~= Set::<i64>::empty());
    } else {
        let last = s.len() - 1;
        lemma_map_at(s, last);
        assert forall|k: i64| #[trigger] ladder_map(s).dom().contains(k) implies k <= s[last].0 by {
            let i = choose|i: int| 0 <= i < s.len() && #[trigger] s[i].0 == k;
            if i < last {
                assert(s[i].0 < s[last].0);
            }
        }
        assert(ladder_map(s).dom().contains(s[last].0));
    }
}

/// Dropping the highest level of a well-formed ladder removes its price
/// from the ladder's map.
pub proof fn lemma_map_drop_last(s: Ladder)
    requires
        sorted_ladder(s),
        s.len() > 0,
    ensures
        sorted_ladder(s.drop_last()),
        ladder_map(s.drop_last()) == ladder_map(s).remove(s.last().0),
{
    let t = s.drop_last();
    let last = s.len() - 1;
    assert forall|i: int, j: int| 0 <= i < j < t.len() implies #[trigger] t[i].0 < #[trigger] t[j].0 by {
        assert(s[i].0 < s[j].0);
    }
    let m = ladder_map(s).remove(s.last().0);
    assert forall|p: i64| #![trigger ladder_has(t, p)] ladder_has(t, p) == m.dom().contains(p)
        && (ladder_has(t, p) ==> ladder_qty(t, p) == m[p]) by {
        if ladder_has(t, p) {
            let k = choose|k: int| 0 <= k < t.len() && #[trigger] t[k].0 == p;
            lemma_qty_at(t, k);
            assert(s[k] == t[k]);
            lemma_qty_at(s, k);
            assert(s[k].0 < s[last].0);
        }
        if ladder_has(s, p) && p != s.last().0 {
            let k = choose|k: int| 0 <= k < s.len() && #[trigger] s[k].0 == p;
            assert(k != last);
            assert(t[k] == s[k]);
            lemma_qty_at(t, k);
        }
    }
    assert(ladder_map(t) =~= m);
}

/// A well-formed ladder is determined by its map: two well-formed ladders
/// with the same prices and quantities are the same sequence.
pub proof fn law_ladder_determined_by_map(s: Ladder, t: Ladder)
    requires
        sorted_ladder(s),
        sorted_ladder(t),
        ladder_map(s) == ladder_map(t),
    ensures
        s == t,
    decreases s.len(),
{
    law_best_is_highest(s);
    law_best_is_highest(t);
    if s.len() == 0 {
        if t.len() > 0 {
            assert(ladder_map(t).dom().contains(t.last().0));
        }
        assert(s =~= t);
    } else {
        if t.len() == 0 {
            assert(ladder_map(s).dom().contains(s.last().0));
        }
        let ps = s.last().0;
        let pt = t.last().0;
        assert(ladder_map(s).dom().contains(ps));
        assert(ladder_map(t).dom().contains(pt));
        assert(ps <= pt && pt <= ps);
        lemma_map_drop_last(s);
        lemma_map_drop_last(t);
        law_ladder_determined_by_map(s.drop_last(), t.drop_last());
        assert(s.last() == t.last());
        assert(s =~= s.drop_last().push(s.last()));
        assert(t =~= t.drop_last().push(t.last()));
    }
}


/// The sum of all quantities, or `None` when it does not fit in an `i64`.
pub fn ladder_sum_checked(levels: &Vec<(i64, i64)>) -> (total: Option<i64>)
    requires
        sorted_ladder(levels@),
    ensures
        total == (if ladder_total(levels@) <= i64::MAX {
            Some(ladder_total(levels@) as i64)
        } else {
            None::<i64>
        }),
{
    let n = levels.len();
    let mut total: i64 = 0;
    let mut i: usize = 0;
    proof {
        assert(levels@.take(0) =~= Seq::<(i64, i64)>::empty());
    }
    while i < n
        invariant
            n == levels@.len(),
            sorted_ladder(levels@),
            0 <= i <= n,
            total == ladder_total(levels@.take(i as int)),
        decreases n - i,
    {
        proof {
            assert(levels@.take(i + 1).drop_last() =~= levels@.take(i as int));
            lemma_total_prefix_bound(levels@, i + 1);
        }
        match total.checked_add(levels[i].1) {
            Some(t) => {
                total = t;
            },
            None => {
                return None;
            },
        }
        i = i + 1;
    }
    proof {
        assert(levels@.take(n as int) =~= levels@);
    }
    Some(total)
}

} // verus!
