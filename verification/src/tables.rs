//! The geometry of the shapes: which cells each orientation covers, and
//! which offsets a blocked rotation tries.

use vstd::prelude::*;
use crate::shape::{RotateDirection, Tetromino};

verus! {

/// For each playable shape and each of its four orientations, the four cells
/// it covers, as (column, row) offsets from the anchor.
pub const ROTATION_TABLE: [[[(i8, i8); 4]; 4]; 7] = [
    [
        [(0, 2), (1, 2), (2, 2), (3, 2)],
        [(2, 0), (2, 1), (2, 2), (2, 3)],
        [(0, 1), (1, 1), (2, 1), (3, 1)],
        [(1, 0), (1, 1), (1, 2), (1, 3)],
    ],
    [
        [(0, 1), (0, 2), (1, 1), (2, 1)],
        [(1, 0), (1, 1), (1, 2), (2, 2)],
        [(0, 1), (1, 1), (2, 0), (2, 1)],
        [(0, 0), (1, 0), (1, 1), (1, 2)],
    ],
    [
        [(0, 1), (1, 1), (2, 1), (2, 2)],
        [(1, 0), (1, 1), (1, 2), (2, 0)],
        [(0, 0), (0, 1), (1, 1), (2, 1)],
        [(0, 2), (1, 0), (1, 1), (1, 2)],
    ],
    [
        [(1, 1), (1, 2), (2, 1), (2, 2)],
        [(0, 2), (1, 2), (2, 2), (3, 2)],
        [(0, 2), (1, 2), (2, 2), (3, 2)],
        [(0, 2), (1, 2), (2, 2), (3, 2)],
    ],
    [
        [(0, 1), (1, 1), (1, 2), (2, 2)],
        [(1, 1), (1, 2), (2, 0), (2, 1)],
        [(0, 0), (1, 0), (1, 1), (2, 1)],
        [(0, 1), (0, 2), (1, 0), (1, 1)],
    ],
    [
        [(0, 1), (1, 1), (1, 2), (2, 1)],
        [(1, 0), (1, 1), (1, 2), (2, 1)],
        [(0, 1), (1, 0), (1, 1), (2, 1)],
        [(0, 1), (1, 0), (1, 1), (1, 2)],
    ],
    [
        [(0, 2), (1, 1), (1, 2), (2, 1)],
        [(1, 0), (1, 1), (2, 1), (2, 2)],
        [(0, 1), (1, 0), (1, 1), (2, 0)],
        [(0, 0), (0, 1), (1, 1), (1, 2)],
    ],
];

/// Kick offsets of the shapes J, L, S, T and Z. Row `2 * r` serves the right
/// turn that leaves orientation `r`, row `2 * r + 1` the left turn that
/// arrives at it.
pub const WALL_KICK_TABLE_JLSTZ: [[(i8, i8); 5]; 8] = [
    [(0, 0), (-1, 0), (-1, 1), (0, -2), (-1, -2)],
    [(0, 0), (1, 0), (1, -1), (0, 2), (1, 2)],
    [(0, 0), (1, 0), (1, -1), (0, 2), (1, 2)],
    [(0, 0), (-1, 0), (-1, 1), (0, -2), (-1, -2)],
    [(0, 0), (1, 0), (1, 1), (0, -2), (1, -2)],
    [(0, 0), (-1, 0), (-1, -1), (0, 2), (-1, 2)],
    [(0, 0), (-1, 0), (-1, -1), (0, 2), (-1, 2)],
    [(0, 0), (1, 0), (1, 1), (0, -2), (1, -2)],
];

/// Kick offsets of the shape I, laid out like `WALL_KICK_TABLE_JLSTZ`.
pub const WALL_KICK_TABLE_I: [[(i8, i8); 5]; 8] = [
    [(0, 0), (-2, 0), (1, 0), (-2, -1), (1, 2)],
    [(0, 0), (2, 0), (-1, 0), (2, 1), (-1, -2)],
    [(0, 0), (-1, 0), (2, 0), (-1, 2), (2, -1)],
    [(0, 0), (1, 0), (-2, 0), (1, -2), (-2, 1)],
    [(0, 0), (2, 0), (-1, 0), (2, 1), (-1, -2)],
    [(0, 0), (-2, 0), (1, 0), (-2, -1), (1, 2)],
    [(0, 0), (1, 0), (-2, 0), (1, -2), (-2, 1)],
    [(0, 0), (-1, 0), (2, 0), (-1, 2), (2, -1)],
];

/// The `k`-th cell of `shape` in orientation `rotation`, relative to the anchor.
pub open spec fn cell_offset(shape: Tetromino, rotation: int, k: int) -> (int, int)
    recommends
        shape.is_playable(),
        0 <= rotation < 4,
        0 <= k < 4,
{
    let c = ROTATION_TABLE[shape.index_spec()][rotation][k];
    (c.0 as int, c.1 as int)
}

/// The row of a kick table that serves the turn `dir` out of orientation `from`.
pub open spec fn kick_row(from: int, dir: RotateDirection) -> int {
    match dir {
        RotateDirection::Left => 2 * dir.turn(from) + 1,
        RotateDirection::Right => 2 * from,
    }
}

/// The `k`-th offset that a turn `dir` of `shape` out of orientation `from` tries.
pub open spec fn kick_offset(shape: Tetromino, from: int, dir: RotateDirection, k: int) -> (
    int,
    int,
)
    recommends
        shape.rotates(),
        0 <= from < 4,
        0 <= k < 5,
{
    let row = kick_row(from, dir);
    let c = if shape == Tetromino::I {
        WALL_KICK_TABLE_I[row][k]
    } else {
        WALL_KICK_TABLE_JLSTZ[row][k]
    };
    (c.0 as int, c.1 as int)
}

/// Every cell offset lies in the 4 x 4 box above and right of the anchor.
pub proof fn lemma_cell_offset_in_box(shape: Tetromino, rotation: int, k: int)
    requires
        shape.is_playable(),
        0 <= rotation < 4,
        0 <= k < 4,
    ensures
        0 <= cell_offset(shape, rotation, k).0 <= 3,
        0 <= cell_offset(shape, rotation, k).1 <= 3,
{
}

/// The first offset tried is always the turn in place.
pub proof fn lemma_first_kick_is_in_place(shape: Tetromino, from: int, dir: RotateDirection)
    requires
        shape.rotates(),
        0 <= from < 4,
    ensures
        kick_offset(shape, from, dir, 0) == (0int, 0int),
{
}

/// Kick offsets are at most two cells in either direction.
pub proof fn lemma_kick_offset_small(shape: Tetromino, from: int, dir: RotateDirection, k: int)
    requires
        shape.rotates(),
        0 <= from < 4,
        0 <= k < 5,
    ensures
        -2 <= kick_offset(shape, from, dir, k).0 <= 2,
        -2 <= kick_offset(shape, from, dir, k).1 <= 2,
{
}

/// The offsets of a turn and of the turn that undoes it are opposite, entry by entry.
pub proof fn lemma_kicks_are_antisymmetric(
    shape: Tetromino,
    from: int,
    dir: RotateDirection,
    k: int,
)
    requires
        shape.rotates(),
        0 <= from < 4,
        0 <= k < 5,
    ensures
        kick_offset(shape, dir.turn(from), dir.opposite(), k).0 == -kick_offset(
            shape,
            from,
            dir,
            k,
        ).0,
        kick_offset(shape, dir.turn(from), dir.opposite(), k).1 == -kick_offset(
            shape,
            from,
            dir,
            k,
        ).1,
{
}

/// The four cells of `shape` in orientation `rotation`.
pub fn rotation_cells(shape: Tetromino, rotation: u8) -> (cells: [(i8, i8); 4])
    requires
        shape.is_playable(),
        rotation < 4,
    ensures
        forall|k: int|
            0 <= k < 4 ==> (#[trigger] cells[k].0 as int, cells[k].1 as int) == cell_offset(
                shape,
                rotation as int,
                k,
            ),
{
    ROTATION_TABLE[shape.index()][rotation as usize]
}

} // verus!
