//! The piece under the player's control: a shape, an anchor and an orientation.

use vstd::prelude::*;
use crate::shape::{MoveDirection, RotateDirection, Tetromino};
use crate::tables::{cell_offset, kick_offset};

verus! {

/// The mathematical view of the active piece. Columns grow to the right and
/// rows grow upwards; the anchor is the lower left corner of the piece's box.
pub struct Piece {
    pub shape: Tetromino,
    pub x: int,
    pub y: int,
    pub rotation: int,
}

impl Piece {
    /// The piece as it enters the field.
    pub open spec fn spawned(shape: Tetromino) -> Piece {
        Piece { shape, x: 3, y: 17, rotation: 0 }
    }

    /// A piece the rotation table can answer for.
    pub open spec fn well_formed(self) -> bool {
        self.shape.is_playable() && 0 <= self.rotation < 4
    }

    /// The `k`-th cell the piece covers, as (column, row).
    pub open spec fn cell(self, k: int) -> (int, int) {
        let o = cell_offset(self.shape, self.rotation, k);
        (self.x + o.0, self.y + o.1)
    }

    /// Whether one of the first `n` cells of the piece is (`col`, `row`).
    pub open spec fn covers_first(self, n: int, col: int, row: int) -> bool {
        ||| (0 < n && self.cell(0) == (col, row))
        ||| (1 < n && self.cell(1) == (col, row))
        ||| (2 < n && self.cell(2) == (col, row))
        ||| (3 < n && self.cell(3) == (col, row))
    }

    /// Whether the piece covers the cell (`col`, `row`).
    pub open spec fn covers(self, col: int, row: int) -> bool {
        self.covers_first(4, col, row)
    }

    /// The piece moved by (`dx`, `dy`).
    pub open spec fn shifted(self, dx: int, dy: int) -> Piece {
        Piece { x: self.x + dx, y: self.y + dy, ..self }
    }

    /// The piece one cell further in direction `dir`.
    pub open spec fn moved(self, dir: MoveDirection) -> Piece {
        self.shifted(dir.dx(), dir.dy())
    }

    /// The piece `n` cells further down.
    pub open spec fn lowered(self, n: int) -> Piece {
        self.shifted(0, -n)
    }

    /// The piece turned in place.
    pub open spec fn turned(self, dir: RotateDirection) -> Piece {
        Piece { rotation: dir.turn(self.rotation), ..self }
    }

    /// The `k`-th candidate of a turn: turned, then pushed by the `k`-th kick offset.
    pub open spec fn kicked(self, dir: RotateDirection, k: int) -> Piece {
        let o = kick_offset(self.shape, self.rotation, dir, k);
        self.turned(dir).shifted(o.0, o.1)
    }
}

/// The active piece as the board stores it.
#[derive(Clone, Copy)]
pub(crate) struct PlayerTetromino {
    pub(crate) tetromion: Tetromino,
    pub(crate) position: (i8, i8),
    pub(crate) rotation: u8,
}

impl View for PlayerTetromino {
    type V = Piece;

    open(crate) spec fn view(&self) -> Piece {
        Piece {
            shape: self.tetromion,
            x: self.position.0 as int,
            y: self.position.1 as int,
            rotation: self.rotation as int,
        }
    }
}

impl PlayerTetromino {
    /// Moves the anchor one cell in direction `dir`.
    pub(crate) fn transform(&mut self, dir: MoveDirection)
        requires
            i8::MIN < old(self).position.0 < i8::MAX,
            i8::MIN < old(self).position.1,
        ensures
            final(self)@ == old(self)@.moved(dir),
    {
        match dir {
            MoveDirection::Down => self.position = (self.position.0, self.position.1 - 1),
            MoveDirection::Left => self.position = (self.position.0 - 1, self.position.1),
            MoveDirection::Right => self.position = (self.position.0 + 1, self.position.1),
        }
    }

    /// Moves the anchor by (`x`, `y`).
    pub(crate) fn transform_xy(&mut self, x: i8, y: i8)
        requires
            i8::MIN <= old(self).position.0 + x <= i8::MAX,
            i8::MIN <= old(self).position.1 + y <= i8::MAX,
        ensures
            final(self)@ == old(self)@.shifted(x as int, y as int),
    {
        self.position = (self.position.0 + x, self.position.1 + y);
    }
}

} // verus!
