//! The board as a mathematical object, and each operation of the engine as a
//! function from one board to the next.

use vstd::prelude::*;
use crate::grid::{
    cleared_rows, collides, draw, empty_grid, erase, fits, inside, landing, settle, turn_result,
    well_shaped, Grid,
};
use crate::piece::Piece;
use crate::shape::{BoardEvent, MoveDirection, RotateDirection, Tetromino};

verus! {

/// Everything an observer can know of the board.
pub struct Board {
    /// The cells, the footprint of the active piece included.
    pub cells: Grid,
    /// The piece under the player's control, if one is falling.
    pub player: Option<Piece>,
    /// The number of rows cleared so far.
    pub score: nat,
    /// The events raised since they were last reset.
    pub events: Set<BoardEvent>,
}

impl Board {
    /// The board of a new game.
    pub open spec fn empty() -> Board {
        Board { cells: empty_grid(), player: None, score: 0, events: Set::empty() }
    }

    /// The field has its shape, and the active piece lies inside it.
    pub open spec fn valid(self) -> bool {
        &&& well_shaped(self.cells)
        &&& self.player matches Some(p) ==> p.well_formed() && inside(p)
    }

    /// Every cell of the active piece shows the piece's shape.
    pub open spec fn player_drawn(self) -> bool {
        self.player matches Some(p) ==> draw(self.cells, p) == self.cells
    }

    /// The same board with `event` raised.
    pub open spec fn raise(self, event: BoardEvent) -> Board {
        Board { events: self.events.insert(event), ..self }
    }

    /// The same board with no event raised.
    pub open spec fn reset_events(self) -> Board {
        Board { events: Set::empty(), ..self }
    }

    /// The same board with one cell replaced.
    pub open spec fn set_cell(self, row: int, col: int, tile: Option<Tetromino>) -> Board {
        Board { cells: self.cells.update(row, self.cells[row].update(col, tile)), ..self }
    }

    /// The same board with the footprint of the active piece coloured in.
    pub open spec fn drawn(self) -> Board {
        match self.player {
            Some(p) => Board { cells: draw(self.cells, p), ..self },
            None => self,
        }
    }

    /// The same board with the footprint of the active piece emptied: what
    /// is left is what a piece can collide with.
    pub open spec fn erased(self) -> Board {
        match self.player {
            Some(p) => Board { cells: erase(self.cells, p), ..self },
            None => self,
        }
    }

    /// Whether `candidate` collides: one of its cells lies outside the field
    /// or on a cell that something other than the active piece occupies.
    pub open spec fn collides(self, candidate: Piece) -> bool {
        collides(self.erased().cells, candidate)
    }

    /// Clearing: the full rows of the stack go, each counts one point, and
    /// `LineCompleted` is raised when there was one.
    pub open spec fn clear_lines(self) -> Board {
        let n = cleared_rows(self.cells);
        Board {
            cells: settle(self.cells),
            score: self.score + n,
            events: if n > 0 {
                self.events.insert(BoardEvent::LineCompleted)
            } else {
                self.events
            },
            ..self
        }
    }

    /// Locking: the active piece becomes part of the field, the field is
    /// cleared, and `TetrominoPut` is raised.
    pub open spec fn put(self) -> Board {
        Board { player: None, ..self.drawn() }.clear_lines().raise(BoardEvent::TetrominoPut)
    }

    /// Spawning: nothing while a piece is falling; otherwise the new piece
    /// enters the field, or `GameOver` is raised when it has no room.
    pub open spec fn spawn(self, shape: Tetromino) -> Board {
        let p = Piece::spawned(shape);
        if self.player is Some {
            self
        } else if fits(self.cells, p) {
            Board { cells: draw(self.cells, p), player: Some(p), ..self }
        } else {
            self.raise(BoardEvent::GameOver)
        }
    }

    /// A move of one cell: taken and announced when the piece has room
    /// there; a blocked move down locks the piece; a blocked move sideways
    /// changes nothing.
    pub open spec fn step(self, dir: MoveDirection) -> Board {
        match self.player {
            None => self,
            Some(p) => {
                let ground = erase(self.cells, p);
                let q = p.moved(dir);
                if fits(ground, q) {
                    Board { cells: draw(ground, q), player: Some(q), ..self }.raise(
                        BoardEvent::TetrominoMoved,
                    )
                } else if dir == MoveDirection::Down {
                    Board { cells: ground, ..self }.put()
                } else {
                    Board { cells: draw(ground, p), ..self }
                }
            },
        }
    }

    /// A hard drop: the piece falls as far as it can and is locked there.
    pub open spec fn hard_drop(self) -> Board {
        match self.player {
            None => self,
            Some(p) => {
                let ground = erase(self.cells, p);
                Board { cells: ground, player: Some(landing(ground, p)), ..self }.put()
            },
        }
    }

    /// A quarter turn: the square and the filler ignore it; any other piece
    /// takes the first kick candidate that has room, or stays as it is.
    pub open spec fn rotate(self, dir: RotateDirection) -> Board {
        match self.player {
            None => self,
            Some(p) => if p.shape.rotates() {
                let ground = erase(self.cells, p);
                let q = turn_result(ground, p, dir);
                Board { cells: draw(ground, q), player: Some(q), ..self }
            } else {
                self
            },
        }
    }
}

} // verus!
