//! The mathematical model of tabular data: cells, rows and grids.

use crate::config::RenderConfig;
use vstd::prelude::*;

verus! {

/// A cell's text.
pub type Cell = Seq<char>;

/// A row of cells.
pub type Row = Seq<Cell>;

/// Rows in the order they were given; they need not be equally long.
pub type Grid = Seq<Row>;

/// `k` empty cells.
pub open spec fn blanks(k: int) -> Row {
    Seq::new(if k > 0 { k as nat } else { 0 }, |i: int| Seq::<char>::empty())
}

/// The row lengthened by `k` empty cells.
pub open spec fn padded(row: Row, k: int) -> Row {
    row + blanks(k)
}

/// Every row of the grid lengthened by `k` empty cells.
pub open spec fn widened(rows: Grid, k: int) -> Grid {
    Seq::new(rows.len(), |i: int| padded(rows[i], k))
}

/// The length of the longest of the first `n` rows.
pub open spec fn columns_upto(rows: Grid, n: int) -> nat
    decreases n,
{
    if n <= 0 {
        0
    } else {
        let rest = columns_upto(rows, n - 1);
        if rows[n - 1].len() > rest {
            rows[n - 1].len()
        } else {
            rest
        }
    }
}

/// The number of columns of a grid: the length of its longest row.
pub open spec fn columns(rows: Grid) -> nat {
    columns_upto(rows, rows.len() as int)
}

/// The first `n` rows, each lengthened by empty cells to the longest of them.
pub open spec fn squared_upto(rows: Grid, n: int) -> Grid {
    Seq::new(
        if n > 0 { n as nat } else { 0 },
        |i: int| padded(rows[i], columns_upto(rows, n) - rows[i].len()),
    )
}

/// The grid with every row lengthened by empty cells to the number of columns.
pub open spec fn squared(rows: Grid) -> Grid {
    squared_upto(rows, rows.len() as int)
}

/// An upper bound on the width of a drawn line of `cols` columns whose cells
/// hold at most `chars` characters: a character is drawn at most four columns
/// wide, each cell is padded on both sides, and a border may stand before each
/// column and after the last.
pub open spec fn line_bound(cols: nat, chars: nat, look: RenderConfig) -> int {
    cols * (4 * chars + look.padding.left + look.padding.right + 1) + 1
}

/// Whether every line of the drawn grid is sure to have a width that fits a
/// `usize`.
pub open spec fn drawable(rows: Grid, look: RenderConfig) -> bool {
    forall|i: int, j: int, k: int|
        0 <= i < rows.len() && 0 <= j < rows[i].len() && 0 <= k < rows.len() ==> line_bound(
            (#[trigger] rows[k]).len(),
            (#[trigger] rows[i][j]).len(),
            look,
        ) <= usize::MAX
}

/// A line of fewer columns and shorter cells has the smaller bound.
pub proof fn lemma_line_bound_grows(cols: nat, chars: nat, more_cols: nat, more_chars: nat, look: RenderConfig)
    requires
        cols <= more_cols,
        chars <= more_chars,
    ensures
        line_bound(cols, chars, look) <= line_bound(more_cols, more_chars, look),
{
    let per = 4 * chars + look.padding.left + look.padding.right + 1;
    let more_per = 4 * more_chars + look.padding.left + look.padding.right + 1;
    assert(cols * per <= more_cols * more_per) by (nonlinear_arith)
        requires
            0 <= cols <= more_cols,
            0 <= per <= more_per,
    ;
}

/// Whether every line of the drawn grid is sure to have a width that fits a
/// `usize`: the test that `drawable` states.
pub fn is_drawable(data: &[Vec<String>], config: &RenderConfig) -> (ok: bool)
    ensures
        ok == drawable(data.deep_view(), *config),
{
    let ghost rows = data.deep_view();
    let mut cols: usize = 0;
    let mut chars: usize = 0;
    let mut any = false;
    let ghost mut longest: int = 0;
    let ghost mut at_row: int = 0;
    let ghost mut at_cell: int = 0;
    let mut i: usize = 0;
    while i < data.len()
        invariant
            i <= data.len(),
            rows == data.deep_view(),
            forall|r: int| 0 <= r < i ==> (#[trigger] rows[r]).len() <= cols,
            forall|r: int, c: int|
                0 <= r < i && 0 <= c < rows[r].len() ==> (#[trigger] rows[r][c]).len() <= chars,
            any == (cols > 0),
            !any ==> chars == 0,
            any ==> 0 <= longest < i && rows[longest].len() == cols,
            any ==> 0 <= at_row < i && 0 <= at_cell < rows[at_row].len()
                && rows[at_row][at_cell].len() == chars,
        decreases data.len() - i,
    {
        let row = &data[i];
        assert(row.deep_view() == rows[i as int]);
        if row.len() > cols {
            cols = row.len();
            proof {
                longest = i as int;
            }
        }
        let mut j: usize = 0;
        while j < row.len()
            invariant
                j <= row.len(),
                i < data.len(),
                rows == data.deep_view(),
                row.deep_view() == rows[i as int],
                row.len() <= cols,
                forall|r: int, c: int|
                    0 <= r < i && 0 <= c < rows[r].len() ==> (#[trigger] rows[r][c]).len()
                        <= chars,
                forall|c: int| 0 <= c < j ==> (#[trigger] rows[i as int][c]).len() <= chars,
                any ==> cols > 0,
                !any ==> j == 0 && cols == row.len() && chars == 0,
                any ==> 0 <= at_row <= i && 0 <= at_cell < rows[at_row].len()
                    && rows[at_row][at_cell].len() == chars,
            decreases row.len() - j,
        {
            let n = row[j].as_str().unicode_len();
            assert(n == rows[i as int][j as int].len());
            if !any || n > chars {
                chars = n;
                proof {
                    at_row = i as int;
                    at_cell = j as int;
                }
            }
            any = true;
            j += 1;
        }
        i += 1;
    }
    if !any {
        return true;
    }
    let left: u128 = config.padding.left as u128;
    let right: u128 = config.padding.right as u128;
    let per: u128 = 4 * (chars as u128) + left + right + 1;
    let most: u128 = usize::MAX as u128;
    proof {
        assert forall|a: int, b: int, c: int|
            0 <= a < rows.len() && 0 <= b < rows[a].len() && 0 <= c < rows.len() implies line_bound(
            (#[trigger] rows[c]).len(),
            (#[trigger] rows[a][b]).len(),
            *config,
        ) <= line_bound(cols as nat, chars as nat, *config) by {
            lemma_line_bound_grows(
                rows[c].len(),
                rows[a][b].len(),
                cols as nat,
                chars as nat,
                *config,
            );
        }
        assert(line_bound(rows[longest].len(), rows[at_row][at_cell].len(), *config) == cols * per
            + 1);
    }
    if per > most {
        assert(cols * per >= per) by (nonlinear_arith)
            requires
                cols >= 1,
                per >= 0,
        ;
        return false;
    }
    assert(cols * per <= most * most) by (nonlinear_arith)
        requires
            0 <= cols <= most,
            0 <= per <= most,
    ;
    assert(most * most + 1 <= u128::MAX) by (nonlinear_arith)
        requires
            most <= 0xffff_ffff_ffff_ffff,
    ;
    let total: u128 = (cols as u128) * per + 1;
    total <= most
}

/// No row among the first `n` is longer than `columns_upto` says.
pub proof fn lemma_columns_upto_bounds(rows: Grid, n: int, i: int)
    requires
        0 <= i < n <= rows.len(),
    ensures
        rows[i].len() <= columns_upto(rows, n),
    decreases n,
{
    if i < n - 1 {
        lemma_columns_upto_bounds(rows, n - 1, i);
    }
}

/// Where any of the first `n` rows exist, one of them is as long as
/// `columns_upto` says.
pub proof fn lemma_columns_upto_attained(rows: Grid, n: int) -> (k: int)
    requires
        0 < n <= rows.len(),
    ensures
        0 <= k < n,
        rows[k].len() == columns_upto(rows, n),
    decreases n,
{
    if n == 1 {
        assert(columns_upto(rows, 0) == 0);
        0
    } else if rows[n - 1].len() > columns_upto(rows, n - 1) {
        n - 1
    } else {
        lemma_columns_upto_attained(rows, n - 1)
    }
}

/// In a squared grid every row has as many cells as the grid has columns: its
/// own cells first, and empty cells behind them.
pub proof fn lemma_squared_shape(rows: Grid, i: int)
    requires
        0 <= i < rows.len(),
    ensures
        squared(rows).len() == rows.len(),
        squared(rows)[i].len() == columns(rows),
        forall|j: int| 0 <= j < rows[i].len() ==> #[trigger] squared(rows)[i][j] == rows[i][j],
        forall|j: int|
            rows[i].len() <= j < columns(rows) ==> (#[trigger] squared(rows)[i][j]).len() == 0,
{
    lemma_columns_upto_bounds(rows, rows.len() as int, i);
}

/// Lengthening a row twice is lengthening it once by the sum.
pub proof fn lemma_padded_twice(row: Row, a: int, b: int)
    requires
        0 <= a,
        0 <= b,
    ensures
        padded(padded(row, a), b) =~= padded(row, a + b),
{
}

/// Lengthening a row by nothing leaves it as it is.
pub proof fn lemma_padded_by_zero(row: Row)
    ensures
        padded(row, 0) =~= row,
{
}

} // verus!
