//! The enumerations the engine speaks in: shapes, directions and events.

use vstd::prelude::*;
use crate::rng::random_in;

verus! {

/// One of the seven playable shapes, or the filler marker `G` that is only
/// ever used to colour a cell.
#[derive(Clone, Copy, PartialEq, Eq, Structural, Hash, Debug)]
pub enum Tetromino {
    I,
    J,
    L,
    O,
    S,
    T,
    Z,
    /// Filler: never falls, never rotates.
    G,
}

impl Tetromino {
    /// Position of the shape in the rotation table; the filler comes last.
    pub open spec fn index_spec(self) -> int {
        match self {
            Tetromino::I => 0,
            Tetromino::J => 1,
            Tetromino::L => 2,
            Tetromino::O => 3,
            Tetromino::S => 4,
            Tetromino::T => 5,
            Tetromino::Z => 6,
            Tetromino::G => 7,
        }
    }

    /// A shape that can fall: everything but the filler.
    pub open spec fn is_playable(self) -> bool {
        self != Tetromino::G
    }

    /// A shape that reacts to rotation: playable and not the square.
    pub open spec fn rotates(self) -> bool {
        self != Tetromino::G && self != Tetromino::O
    }

    /// The shape a drawn number stands for. Numbers past the table fall on `Z`.
    pub open spec fn of_index(x: int) -> Tetromino {
        if x == 0 {
            Tetromino::I
        } else if x == 1 {
            Tetromino::J
        } else if x == 2 {
            Tetromino::L
        } else if x == 3 {
            Tetromino::O
        } else if x == 4 {
            Tetromino::S
        } else if x == 5 {
            Tetromino::T
        } else {
            Tetromino::Z
        }
    }

    pub fn index(self) -> (i: usize)
        ensures
            i == self.index_spec(),
            i < 8,
    {
        match self {
            Tetromino::I => 0,
            Tetromino::J => 1,
            Tetromino::L => 2,
            Tetromino::O => 3,
            Tetromino::S => 4,
            Tetromino::T => 5,
            Tetromino::Z => 6,
            Tetromino::G => 7,
        }
    }

    /// Draws one of the seven playable shapes, each with the same chance.
    pub fn gen(rng: &mut rand::rngs::StdRng) -> (shape: Tetromino)
        ensures
            shape.is_playable(),
    {
        let x: u8 = random_in(rng, 0, 7);
        Tetromino::from_index(x)
    }

    /// Turns a drawn number into a shape.
    pub fn from_index(x: u8) -> (shape: Tetromino)
        ensures
            shape == Tetromino::of_index(x as int),
            shape.is_playable(),
    {
        match x {
            0 => Tetromino::I,
            1 => Tetromino::J,
            2 => Tetromino::L,
            3 => Tetromino::O,
            4 => Tetromino::S,
            5 => Tetromino::T,
            _ => Tetromino::Z,
        }
    }
}

/// A move of the active piece by one cell.
#[derive(Clone, Copy, PartialEq, Eq, Structural, Debug)]
pub enum MoveDirection {
    Down,
    Left,
    Right,
}

impl MoveDirection {
    /// Change of the anchor's column.
    pub open spec fn dx(self) -> int {
        match self {
            MoveDirection::Down => 0,
            MoveDirection::Left => -1,
            MoveDirection::Right => 1,
        }
    }

    /// Change of the anchor's row. Rows count upwards from the floor.
    pub open spec fn dy(self) -> int {
        match self {
            MoveDirection::Down => -1,
            MoveDirection::Left => 0,
            MoveDirection::Right => 0,
        }
    }
}

/// A quarter turn of the active piece.
#[derive(Clone, Copy, PartialEq, Eq, Structural, Debug)]
pub enum RotateDirection {
    Left,
    Right,
}

impl RotateDirection {
    /// The turn that undoes this one.
    pub open spec fn opposite(self) -> RotateDirection {
        match self {
            RotateDirection::Left => RotateDirection::Right,
            RotateDirection::Right => RotateDirection::Left,
        }
    }

    /// The orientation reached from `rotation` by this turn.
    pub open spec fn turn(self, rotation: int) -> int {
        match self {
            RotateDirection::Left => (rotation + 3) % 4,
            RotateDirection::Right => (rotation + 1) % 4,
        }
    }
}

/// What an operation on the board can announce.
#[derive(Clone, Copy, PartialEq, Eq, Structural, Debug)]
pub enum BoardEvent {
    LineCompleted,
    TetrominoPut,
    TetrominoMoved,
    GameOver,
}

impl BoardEvent {
    /// The bit that stands for the event in the flag byte.
    pub open spec fn bit_spec(self) -> int {
        match self {
            BoardEvent::LineCompleted => 0,
            BoardEvent::TetrominoPut => 1,
            BoardEvent::TetrominoMoved => 2,
            BoardEvent::GameOver => 3,
        }
    }

    pub fn bit(self) -> (b: u8)
        ensures
            b == self.bit_spec(),
            b < 4,
    {
        match self {
            BoardEvent::LineCompleted => 0,
            BoardEvent::TetrominoPut => 1,
            BoardEvent::TetrominoMoved => 2,
            BoardEvent::GameOver => 3,
        }
    }
}

} // verus!
