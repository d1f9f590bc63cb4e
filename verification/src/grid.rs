//! The play field as a mathematical object: a grid of cells, each empty or
//! coloured by a shape, with the functions that place pieces on it, test
//! them against it and clear its full rows.

use vstd::prelude::*;
use crate::piece::Piece;
use crate::shape::{MoveDirection, RotateDirection, Tetromino};

verus! {

/// One row of the field, from the left wall to the right.
pub type Row = Seq<Option<Tetromino>>;

/// The field, from the floor upwards.
pub type Grid = Seq<Row>;

/// Whether (`col`, `row`) names a cell of the field.
pub open spec fn in_field(col: int, row: int) -> bool {
    0 <= col < 10 && 0 <= row < 20
}

/// A row with no cell occupied.
pub open spec fn empty_row() -> Row {
    Seq::new(10, |c: int| None::<Tetromino>)
}

/// The field with no cell occupied.
pub open spec fn empty_grid() -> Grid {
    Seq::new(20, |r: int| empty_row())
}

/// A grid of twenty rows of ten cells.
pub open spec fn well_shaped(cells: Grid) -> bool {
    &&& cells.len() == 20
    &&& forall|r: int| 0 <= r < 20 ==> (#[trigger] cells[r]).len() == 10
}

/// Every cell of the row is occupied.
pub open spec fn row_full(row: Row) -> bool {
    forall|c: int| 0 <= c < row.len() ==> (#[trigger] row[c]) is Some
}

/// No cell of the row is occupied.
pub open spec fn row_empty(row: Row) -> bool {
    forall|c: int| 0 <= c < row.len() ==> (#[trigger] row[c]) is None
}

/// The `k`-th cell of `p` lies in the field and is not occupied.
pub open spec fn cell_free(cells: Grid, p: Piece, k: int) -> bool {
    let (col, row) = p.cell(k);
    in_field(col, row) && cells[row][col] is None
}

/// The piece can be placed: all four of its cells are in the field and free.
pub open spec fn fits(cells: Grid, p: Piece) -> bool {
    &&& cell_free(cells, p, 0)
    &&& cell_free(cells, p, 1)
    &&& cell_free(cells, p, 2)
    &&& cell_free(cells, p, 3)
}

/// The piece cannot be placed: one of its cells is outside the field or occupied.
pub open spec fn collides(cells: Grid, p: Piece) -> bool {
    !fits(cells, p)
}

/// All four cells of the piece lie in the field.
pub open spec fn inside(p: Piece) -> bool {
    &&& in_field(p.cell(0).0, p.cell(0).1)
    &&& in_field(p.cell(1).0, p.cell(1).1)
    &&& in_field(p.cell(2).0, p.cell(2).1)
    &&& in_field(p.cell(3).0, p.cell(3).1)
}

/// The grid with the first `n` cells of `p` set to `tile`.
pub open spec fn paint_first(cells: Grid, p: Piece, n: int, tile: Option<Tetromino>) -> Grid {
    Seq::new(
        cells.len(),
        |r: int|
            Seq::new(
                cells[r].len(),
                |c: int|
                    if p.covers_first(n, c, r) {
                        tile
                    } else {
                        cells[r][c]
                    },
            ),
    )
}

/// The grid with the piece's footprint coloured by its shape.
pub open spec fn draw(cells: Grid, p: Piece) -> Grid {
    paint_first(cells, p, 4, Some(p.shape))
}

/// The grid with the piece's footprint emptied.
pub open spec fn erase(cells: Grid, p: Piece) -> Grid {
    paint_first(cells, p, 4, None)
}

/// Where a piece released at `p` comes to rest: the lowest position that can
/// be reached from `p` through free positions only.
pub open spec fn landing(cells: Grid, p: Piece) -> Piece
    decreases p.y + 4,
    when p.well_formed()
    via landing_decreases
{
    if fits(cells, p.moved(MoveDirection::Down)) {
        landing(cells, p.moved(MoveDirection::Down))
    } else {
        p
    }
}

#[via_fn]
proof fn landing_decreases(cells: Grid, p: Piece) {
    if fits(cells, p.moved(MoveDirection::Down)) {
        crate::tables::lemma_cell_offset_in_box(p.shape, p.rotation, 0);
    }
}

/// The first of the kick candidates `from..5` of the turn `dir` that fits, if any does.
pub open spec fn first_kick(cells: Grid, p: Piece, dir: RotateDirection, from: int) -> Option<int>
    decreases 5 - from,
{
    if from < 0 || from >= 5 {
        None
    } else if fits(cells, p.kicked(dir, from)) {
        Some(from)
    } else {
        first_kick(cells, p, dir, from + 1)
    }
}

/// The piece after a turn `dir`: the first candidate that fits, or the piece
/// as it was when none does.
pub open spec fn turn_result(cells: Grid, p: Piece, dir: RotateDirection) -> Piece {
    match first_kick(cells, p, dir, 0) {
        Some(k) => p.kicked(dir, k),
        None => p,
    }
}

/// The index of the lowest empty row at or above row `from`, or the number
/// of rows when every row from there on is occupied somewhere.
pub open spec fn first_empty_from(cells: Grid, from: int) -> int
    decreases cells.len() - from,
{
    if 0 <= from < cells.len() && !row_empty(cells[from]) {
        first_empty_from(cells, from + 1)
    } else {
        from
    }
}

/// The height of the stack: the index of the lowest empty row, or the number
/// of rows when no row is empty.
pub open spec fn stack_height(cells: Grid) -> int {
    first_empty_from(cells, 0)
}

/// The number of full rows among the `n` lowest.
pub open spec fn full_rows_below(cells: Grid, n: int) -> nat
    decreases n,
{
    if n <= 0 {
        0
    } else {
        full_rows_below(cells, n - 1) + if row_full(cells[n - 1]) {
            1nat
        } else {
            0nat
        }
    }
}

/// The number of rows that clearing removes: the full rows of the stack.
pub open spec fn cleared_rows(cells: Grid) -> nat {
    full_rows_below(cells, stack_height(cells))
}

/// The test that a row survives clearing.
pub open spec fn not_full() -> spec_fn(Row) -> bool {
    |row: Row| !row_full(row)
}

/// `n` empty rows.
pub open spec fn empty_rows(n: int) -> Grid {
    Seq::new(n as nat, |i: int| empty_row())
}

/// The grid after clearing: within the stack the full rows are gone and the
/// others have closed ranks; what lay above the stack has come down with
/// them; as many empty rows as were removed lie on top.
pub open spec fn settle(cells: Grid) -> Grid {
    let h = stack_height(cells);
    cells.take(h).filter(not_full()) + cells.skip(h) + empty_rows(cleared_rows(cells) as int)
}

/// The grid after one row is removed: the rows above it come down by one and
/// an empty row takes the top.
pub open spec fn remove_row(cells: Grid, row: int) -> Grid {
    cells.remove(row).push(empty_row())
}

/// When the `j` lowest rows are not empty and row `j` is, or is past the
/// top, the stack is `j` rows high.
pub proof fn lemma_stack_height_is(cells: Grid, j: int)
    requires
        0 <= j <= cells.len(),
        forall|r: int| 0 <= r < j ==> !row_empty(#[trigger] cells[r]),
        j == cells.len() || row_empty(cells[j]),
    ensures
        stack_height(cells) == j,
{
    lemma_first_empty_from(cells, 0, j);
}

proof fn lemma_first_empty_from(cells: Grid, from: int, j: int)
    requires
        0 <= from <= j <= cells.len(),
        forall|r: int| 0 <= r < j ==> !row_empty(#[trigger] cells[r]),
        j == cells.len() || row_empty(cells[j]),
    ensures
        first_empty_from(cells, from) == j,
    decreases j - from,
{
    if from < j {
        lemma_first_empty_from(cells, from + 1, j);
    }
}

/// The stack is at least as high as any run of non-empty rows from the floor.
pub proof fn lemma_stack_height_at_least(cells: Grid, j: int)
    requires
        0 <= j <= cells.len(),
        forall|r: int| 0 <= r < j ==> !row_empty(#[trigger] cells[r]),
    ensures
        j <= stack_height(cells) <= cells.len(),
{
    lemma_first_empty_bounds(cells, 0, j);
}

proof fn lemma_first_empty_bounds(cells: Grid, from: int, j: int)
    requires
        0 <= from <= cells.len(),
        0 <= j <= cells.len(),
        forall|r: int| 0 <= r < j ==> !row_empty(#[trigger] cells[r]),
    ensures
        from <= first_empty_from(cells, from) <= cells.len(),
        from <= j ==> j <= first_empty_from(cells, from),
    decreases cells.len() - from,
{
    if from < cells.len() && !row_empty(cells[from]) {
        lemma_first_empty_bounds(cells, from + 1, j);
    }
}

/// Every row of the stack is occupied somewhere, and the row on top of it, if
/// there is one, is empty.
pub proof fn lemma_stack_height_props(cells: Grid)
    ensures
        0 <= stack_height(cells) <= cells.len(),
        forall|r: int| 0 <= r < stack_height(cells) ==> !row_empty(#[trigger] cells[r]),
        stack_height(cells) < cells.len() ==> row_empty(cells[stack_height(cells)]),
{
    lemma_first_empty_props(cells, 0);
}

proof fn lemma_first_empty_props(cells: Grid, from: int)
    requires
        0 <= from <= cells.len(),
    ensures
        from <= first_empty_from(cells, from) <= cells.len(),
        forall|r: int|
            from <= r < first_empty_from(cells, from) ==> !row_empty(#[trigger] cells[r]),
        first_empty_from(cells, from) < cells.len() ==> row_empty(
            cells[first_empty_from(cells, from)],
        ),
    decreases cells.len() - from,
{
    if from < cells.len() && !row_empty(cells[from]) {
        lemma_first_empty_props(cells, from + 1);
    }
}

/// Looking at more rows never finds fewer full ones, and never more than
/// were looked at.
pub proof fn lemma_full_rows_monotone(cells: Grid, a: int, b: int)
    requires
        0 <= a <= b,
    ensures
        full_rows_below(cells, a) <= full_rows_below(cells, b) <= b,
    decreases b,
{
    if a < b {
        lemma_full_rows_monotone(cells, a, b - 1);
    } else if 0 < b {
        lemma_full_rows_monotone(cells, a - 1, b - 1);
    }
}

/// The rows that survive among the `j + 1` lowest are those that survive
/// among the `j` lowest, and row `j` itself unless it is full.
pub proof fn lemma_kept_rows_step(cells: Grid, j: int)
    requires
        0 <= j < cells.len(),
    ensures
        cells.take(j + 1).filter(not_full()) == if row_full(cells[j]) {
            cells.take(j).filter(not_full())
        } else {
            cells.take(j).filter(not_full()).push(cells[j])
        },
{
    reveal(Seq::filter);
    assert(cells.take(j + 1).drop_last() =~= cells.take(j));
}

/// No row survives among none.
pub proof fn lemma_kept_rows_none(cells: Grid)
    ensures
        cells.take(0).filter(not_full()) == Seq::<Row>::empty(),
{
    reveal(Seq::filter);
}

/// Among the `j` lowest rows, each one either survives or is full.
pub proof fn lemma_kept_plus_full(cells: Grid, j: int)
    requires
        0 <= j <= cells.len(),
    ensures
        cells.take(j).filter(not_full()).len() + full_rows_below(cells, j) == j,
    decreases j,
{
    if j > 0 {
        lemma_kept_plus_full(cells, j - 1);
        lemma_kept_rows_step(cells, j - 1);
    } else {
        lemma_kept_rows_none(cells);
    }
}

} // verus!
