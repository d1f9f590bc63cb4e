//! One update of the game: what the player's input does to the board, and
//! what the events of an update lead to.

use vstd::prelude::*;
use crate::board::BoardMap;
use crate::model::Board;
use crate::shape::{BoardEvent, MoveDirection, RotateDirection, Tetromino};
use crate::supply::TetrominoSupplier;

verus! {

/// What the player and the gravity timer ask for in one update.
#[derive(Clone, Copy, Debug)]
pub struct PlayerInput {
    /// The player asks for a move down.
    pub down: bool,
    /// The gravity timer has run out. It is not consulted when `down` is set.
    pub gravity: bool,
    /// The player asks for a move to the left.
    pub left: bool,
    /// The player asks for a move to the right.
    pub right: bool,
    /// The player asks for a turn to the left.
    pub rotate_left: bool,
    /// The player asks for a turn to the right.
    pub rotate_right: bool,
    /// The player asks for a hard drop.
    pub hard_drop: bool,
}

impl PlayerInput {
    /// Whether the input restarts the gravity timer: a move down or a hard
    /// drop by the player's hand does.
    pub open spec fn restarts_gravity(self) -> bool {
        self.down || self.hard_drop
    }
}

/// The events of one update, as the caller reads them.
#[derive(Clone, Copy, PartialEq, Eq, Structural, Debug)]
pub struct EventReport {
    pub line_completed: bool,
    pub tetromino_moved: bool,
    pub tetromino_put: bool,
    pub game_over: bool,
}

impl Board {
    /// The board after the requests of `input` are served in their fixed
    /// order: down, left, right, turn left, turn right, hard drop. The move
    /// down happens once, whether the player or the timer asked for it.
    pub open spec fn after_input(self, input: PlayerInput) -> Board {
        let b = if input.down || input.gravity {
            self.step(MoveDirection::Down)
        } else {
            self
        };
        let b = if input.left {
            b.step(MoveDirection::Left)
        } else {
            b
        };
        let b = if input.right {
            b.step(MoveDirection::Right)
        } else {
            b
        };
        let b = if input.rotate_left {
            b.rotate(RotateDirection::Left)
        } else {
            b
        };
        let b = if input.rotate_right {
            b.rotate(RotateDirection::Right)
        } else {
            b
        };
        if input.hard_drop {
            b.hard_drop()
        } else {
            b
        }
    }

    /// The board once the events of an update are acted on, before they are
    /// reset: a locked piece is followed by the spawn of `next`.
    pub open spec fn after_events(self, next: Tetromino) -> Board {
        if self.events.contains(BoardEvent::TetrominoPut) {
            self.spawn(next)
        } else {
            self
        }
    }
}

/// Serves the requests of one update and tells whether the gravity timer
/// is to be restarted.
pub fn player_update(board_map: &mut BoardMap, input: PlayerInput) -> (restart: bool)
    requires
        old(board_map).wf(),
        old(board_map)@.after_input(input).score <= u32::MAX,
    ensures
        final(board_map).wf(),
        final(board_map)@ == old(board_map)@.after_input(input),
        restart == input.restarts_gravity(),
{
    if input.down || input.gravity {
        board_map.player_move(MoveDirection::Down);
    }
    if input.left {
        board_map.player_move(MoveDirection::Left);
    }
    if input.right {
        board_map.player_move(MoveDirection::Right);
    }
    if input.rotate_left {
        board_map.player_rotate(RotateDirection::Left);
    }
    if input.rotate_right {
        board_map.player_rotate(RotateDirection::Right);
    }
    if input.hard_drop {
        board_map.player_move_to_bottom();
    }
    input.down || input.hard_drop
}

/// Closes an update: reads the events, follows a locked piece by the spawn
/// of the next shape from the supply, and resets the events. The report
/// holds the events of the update, a `GameOver` raised by that spawn
/// included.
pub fn board_event_update(
    board_map: &mut BoardMap,
    tetromino_supplier: &mut TetrominoSupplier,
    rng: &mut rand::rngs::StdRng,
) -> (report: EventReport)
    requires
        old(board_map).wf(),
        old(tetromino_supplier).wf(),
    ensures
        final(board_map).wf(),
        final(tetromino_supplier).wf(),
        report.line_completed == old(board_map)@.events.contains(BoardEvent::LineCompleted),
        report.tetromino_moved == old(board_map)@.events.contains(BoardEvent::TetrominoMoved),
        report.tetromino_put == old(board_map)@.events.contains(BoardEvent::TetrominoPut),
        report.game_over == old(board_map)@.after_events(
            old(tetromino_supplier)@.peek(0),
        ).events.contains(BoardEvent::GameOver),
        final(board_map)@ == old(board_map)@.after_events(
            old(tetromino_supplier)@.peek(0),
        ).reset_events(),
        report.tetromino_put ==> final(tetromino_supplier)@ == old(tetromino_supplier)@.popped(
            final(tetromino_supplier)@.peek(4),
        ),
        !report.tetromino_put ==> final(tetromino_supplier)@ == old(tetromino_supplier)@,
{
    let line_completed = board_map.event_get(BoardEvent::LineCompleted);
    let tetromino_moved = board_map.event_get(BoardEvent::TetrominoMoved);
    let tetromino_put = board_map.event_get(BoardEvent::TetrominoPut);
    if tetromino_put {
        let next = tetromino_supplier.pop(rng);
        board_map.player_spawn(next);
    }
    let game_over = board_map.event_get(BoardEvent::GameOver);
    board_map.event_reset();
    EventReport { line_completed, tetromino_moved, tetromino_put, game_over }
}

} // verus!
