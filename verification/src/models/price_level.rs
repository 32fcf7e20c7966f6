//! Reading dollar price levels as the API sends them: rows of
//! `[price, quantity]`, where the price may be a string or a number.

use vstd::prelude::*;
use crate::models::market::PriceLevelDollars;

verus! {

/// One cell of a price level row, as far as the reading looks at it.
#[derive(Debug, Clone)]
pub enum LevelCell {
    /// A JSON string.
    Text(String),
    /// A JSON number: its decimal text, and its value when it is an
    /// integer that fits in an `i64`.
    Number { text: String, integer: Option<i64> },
    /// Any other JSON value.
    Other,
}

/// The level a row describes, if any: rows with fewer than two cells are
/// skipped; the price is the first cell's text (string or number, else
/// the row is skipped); the quantity is the second cell's integer value
/// (0 for a number that is not an `i64`; a row whose second cell is not a
/// number is skipped).
pub open spec fn level_of(row: Seq<LevelCell>) -> Option<(Seq<char>, i64)> {
    if row.len() < 2 {
        None
    } else {
        let price = match row[0] {
            LevelCell::Text(s) => Some(s@),
            LevelCell::Number { text, .. } => Some(text@),
            LevelCell::Other => None,
        };
        let quantity = match row[1] {
            LevelCell::Number { integer, .. } => Some(
                match integer {
                    Some(n) => n,
                    None => 0i64,
                },
            ),
            _ => None,
        };
        match (price, quantity) {
            (Some(p), Some(q)) => Some((p, q)),
            _ => None,
        }
    }
}

/// The levels that the rows describe, in order.
pub open spec fn levels_of(rows: Seq<Seq<LevelCell>>) -> Seq<(Seq<char>, i64)>
    decreases rows.len(),
{
    if rows.len() == 0 {
        Seq::empty()
    } else {
        levels_of(rows.drop_last()) + match level_of(rows.last()) {
            Some(l) => seq![l],
            None => Seq::empty(),
        }
    }
}

/// The price text of a cell: a string's text, or a number's decimal text.
pub open spec fn price_text(c: LevelCell) -> Seq<char> {
    match c {
        LevelCell::Text(s) => s@,
        LevelCell::Number { text, .. } => text@,
        LevelCell::Other => Seq::empty(),
    }
}

/// A row that can describe a level: at least two cells, a string or number
/// price first and a number quantity second.
pub open spec fn readable_row(row: Seq<LevelCell>) -> bool {
    &&& row.len() >= 2
    &&& !(row[0] is Other)
    &&& row[1] is Number
}

/// The quantity of a number cell: its value when it fits in an `i64`,
/// else 0.
pub open spec fn quantity_of(c: LevelCell) -> i64 {
    match c {
        LevelCell::Number { integer: Some(n), .. } => n,
        _ => 0,
    }
}

/// A readable row gives a level with its price text and its quantity;
/// any other row gives none. So readable rows are read one level each,
/// in order, and every other row is skipped.
pub proof fn law_readable_rows_are_levels(rows: Seq<Seq<LevelCell>>)
    ensures
        forall|i: int| 0 <= i < rows.len() ==> (readable_row(#[trigger] rows[i]) <==> level_of(rows[i]) is Some),
        forall|i: int| 0 <= i < rows.len() && readable_row(#[trigger] rows[i]) ==> level_of(rows[i]) == Some(
            (price_text(rows[i][0]), quantity_of(rows[i][1])),
        ),
        (forall|i: int| 0 <= i < rows.len() ==> readable_row(#[trigger] rows[i])) ==> {
            &&& levels_of(rows).len() == rows.len()
            &&& forall|i: int| 0 <= i < rows.len() ==> #[trigger] levels_of(rows)[i] == (
                price_text(rows[i][0]),
                quantity_of(rows[i][1]),
            )
        },
    decreases rows.len(),
{
    if rows.len() > 0 {
        let init = rows.drop_last();
        law_readable_rows_are_levels(init);
        assert forall|i: int| 0 <= i < rows.len() - 1 implies rows[i] == #[trigger] init[i] by {}
        if forall|i: int| 0 <= i < rows.len() ==> readable_row(#[trigger] rows[i]) {
            assert forall|i: int| 0 <= i < init.len() implies readable_row(#[trigger] init[i]) by {
                assert(init[i] == rows[i]);
            }
            assert(readable_row(rows[rows.len() - 1]));
            assert forall|i: int| 0 <= i < rows.len() implies #[trigger] levels_of(rows)[i] == (
                price_text(rows[i][0]),
                quantity_of(rows[i][1]),
            ) by {
                if i < rows.len() - 1 {
                    assert(init[i] == rows[i]);
                    assert(levels_of(rows)[i] == levels_of(init)[i]);
                }
            }
        }
    }
}

/// The price and quantity of a level.
pub open spec fn level_view(l: PriceLevelDollars) -> (Seq<char>, i64) {
    (l.price@, l.quantity)
}

/// The cells of the rows, as sequences.
pub open spec fn rows_view(rows: Seq<Vec<LevelCell>>) -> Seq<Seq<LevelCell>> {
    rows.map_values(|r: Vec<LevelCell>| r@)
}

/// The level a row describes, if any (see `level_of`).
fn read_level(row: &Vec<LevelCell>) -> (r: Option<PriceLevelDollars>)
    ensures
        match level_of(row@) {
            Some(l) => r matches Some(x) && level_view(x) == l,
            None => r is None,
        },
{
    if row.len() < 2 {
        return None;
    }
    let price = match &row[0] {
        LevelCell::Text(s) => s.clone(),
        LevelCell::Number { text, .. } => text.clone(),
        LevelCell::Other => return None,
    };
    let quantity = match &row[1] {
        LevelCell::Number { integer, .. } => match integer {
            Some(n) => *n,
            None => 0,
        },
        _ => return None,
    };
    Some(PriceLevelDollars { price, quantity })
}

/// Reads the dollar price levels of rows of cells (see `level_of`).
pub fn price_levels_from_rows(rows: &Vec<Vec<LevelCell>>) -> (r: Vec<PriceLevelDollars>)
    ensures
        r@.map_values(|l: PriceLevelDollars| level_view(l)) == levels_of(rows_view(rows@)),
{
    let mut out: Vec<PriceLevelDollars> = Vec::new();
    let n = rows.len();
    let mut i: usize = 0;
    proof {
        assert(rows_view(rows@).take(0) =~= Seq::<Seq<LevelCell>>::empty());
        assert(out@.map_values(|l: PriceLevelDollars| level_view(l)) =~= Seq::<(Seq<char>, i64)>::empty());
    }
    while i < n
        invariant
            n == rows@.len(),
            0 <= i <= n,
            out@.map_values(|l: PriceLevelDollars| level_view(l)) == levels_of(rows_view(rows@).take(i as int)),
        decreases n - i,
    {
        let ghost prev = out@;
        proof {
            let t = rows_view(rows@).take(i + 1);
            assert(t.drop_last() =~= rows_view(rows@).take(i as int));
            assert(t.last() == rows@[i as int]@);
        }
        match read_level(&rows[i]) {
            Some(l) => {
                out.push(l);
                proof {
                    assert(out@.map_values(|l: PriceLevelDollars| level_view(l)) =~= prev.map_values(
                        |l: PriceLevelDollars| level_view(l),
                    ).push(level_view(l)));
                }
            },
            None => {},
        }
        i = i + 1;
    }
    proof {
        assert(rows_view(rows@).take(n as int) =~= rows_view(rows@));
    }
    out
}

} // verus!
