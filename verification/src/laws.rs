//! Laws of the engine: what holds of every board, whatever was played on it.

use vstd::prelude::*;
use crate::game::PlayerInput;
use crate::grid::{
    cleared_rows, draw, erase, first_kick, fits, full_rows_below, inside, landing,
    lemma_full_rows_monotone, lemma_kept_plus_full, lemma_kept_rows_none, lemma_kept_rows_step,
    lemma_stack_height_is, lemma_stack_height_props, not_full, paint_first, row_empty, row_full,
    settle, stack_height, turn_result, well_shaped, Grid,
};
use crate::model::Board;
use crate::piece::Piece;
use crate::shape::{BoardEvent, MoveDirection, RotateDirection, Tetromino};
use crate::supply::Supply;
use crate::tables::{lemma_cell_offset_in_box, lemma_kicks_are_antisymmetric};

verus! {

/// Painting a piece's footprint leaves the shape of the grid alone.
pub proof fn lemma_paint_keeps_shape(cells: Grid, p: Piece, tile: Option<Tetromino>)
    requires
        well_shaped(cells),
    ensures
        well_shaped(paint_first(cells, p, 4, tile)),
{
}

/// A piece never stands in its own way: once its footprint is set aside, a
/// piece that lies inside the field has room where it is.
pub proof fn lemma_piece_has_room_in_its_place(cells: Grid, p: Piece)
    requires
        well_shaped(cells),
        inside(p),
    ensures
        fits(erase(cells, p), p),
{
}

/// On a valid board the active piece never collides where it is.
pub proof fn lemma_active_piece_never_collides(b: Board)
    requires
        b.valid(),
        b.player is Some,
    ensures
        !b.collides(b.player->0),
{
    lemma_piece_has_room_in_its_place(b.cells, b.player->0);
}

/// Drawing a piece and erasing it again is the same as erasing it, erasing
/// it where it fits changes nothing, and drawing over an erased footprint is
/// the same as drawing.
pub proof fn lemma_draw_erase(cells: Grid, p: Piece)
    requires
        well_shaped(cells),
    ensures
        erase(draw(cells, p), p) == erase(cells, p),
        draw(erase(cells, p), p) == draw(cells, p),
        draw(draw(cells, p), p) == draw(cells, p),
        fits(cells, p) ==> erase(cells, p) == cells,
{
    assert(erase(draw(cells, p), p) =~~= erase(cells, p));
    assert(draw(erase(cells, p), p) =~~= draw(cells, p));
    assert(draw(draw(cells, p), p) =~~= draw(cells, p));
    if fits(cells, p) {
        assert(erase(cells, p) =~~= cells);
    }
}

/// The rows that survive among the `j` lowest rows of the stack are rows
/// of ten cells that are neither full nor empty.
proof fn lemma_kept_rows_are_partial(cells: Grid, j: int)
    requires
        well_shaped(cells),
        0 <= j <= stack_height(cells),
    ensures
        forall|i: int|
            0 <= i < cells.take(j).filter(not_full()).len() ==> {
                let row = #[trigger] cells.take(j).filter(not_full())[i];
                row.len() == 10 && !row_full(row) && !row_empty(row)
            },
    decreases j,
{
    lemma_stack_height_props(cells);
    if j > 0 {
        lemma_kept_rows_are_partial(cells, j - 1);
        lemma_kept_rows_step(cells, j - 1);
    } else {
        lemma_kept_rows_none(cells);
    }
}

/// Among rows of which none is full, all survive and none counts.
proof fn lemma_no_full_rows(cells: Grid, j: int)
    requires
        0 <= j <= cells.len(),
        forall|r: int| 0 <= r < j ==> !row_full(#[trigger] cells[r]),
    ensures
        cells.take(j).filter(not_full()) == cells.take(j),
        full_rows_below(cells, j) == 0,
    decreases j,
{
    if j > 0 {
        lemma_no_full_rows(cells, j - 1);
        lemma_kept_rows_step(cells, j - 1);
    } else {
        lemma_kept_rows_none(cells);
    }
}

/// Clearing never removes more rows than the stack is high, and the stack
/// is never higher than the field.
pub proof fn lemma_cleared_rows_bounded(cells: Grid)
    ensures
        cleared_rows(cells) <= stack_height(cells) <= cells.len(),
{
    lemma_stack_height_props(cells);
    lemma_full_rows_monotone(cells, 0, stack_height(cells));
}

/// Clearing leaves a field of the same shape. The stack it leaves is made
/// of the rows of the old stack that were not full, in their old order, and
/// is topped by an empty row unless it fills the field.
pub proof fn lemma_settle_shape(cells: Grid)
    requires
        well_shaped(cells),
    ensures
        well_shaped(settle(cells)),
        stack_height(settle(cells)) == stack_height(cells) - cleared_rows(cells),
        settle(cells).take(stack_height(settle(cells))) == cells.take(stack_height(cells)).filter(
            not_full(),
        ),
{
    let h = stack_height(cells);
    let kept = cells.take(h).filter(not_full());
    let s = settle(cells);
    lemma_stack_height_props(cells);
    lemma_kept_plus_full(cells, h);
    lemma_kept_rows_are_partial(cells, h);
    assert forall|r: int| 0 <= r < 20 implies (#[trigger] s[r]).len() == 10 by {}
    assert forall|r: int| 0 <= r < kept.len() implies !row_empty(#[trigger] s[r]) by {}
    lemma_stack_height_is(s, kept.len() as int);
}

/// Clearing is idempotent, and it clears exactly the full rows: in the
/// stack it leaves no row is full, so a second clearing finds nothing to
/// remove and nothing to count, and a row that was only partly occupied is
/// never taken for a full one.
pub proof fn lemma_settle_is_stable(cells: Grid)
    requires
        well_shaped(cells),
    ensures
        forall|r: int|
            0 <= r < stack_height(settle(cells)) ==> !row_full(#[trigger] settle(cells)[r]),
        cleared_rows(settle(cells)) == 0,
        settle(settle(cells)) == settle(cells),
{
    let h = stack_height(cells);
    let kept = cells.take(h).filter(not_full());
    let s = settle(cells);
    lemma_settle_shape(cells);
    lemma_stack_height_props(cells);
    lemma_stack_height_props(s);
    lemma_kept_rows_are_partial(cells, h);
    let k = stack_height(s);
    assert forall|r: int| 0 <= r < k implies !row_full(#[trigger] s[r]) by {}
    lemma_no_full_rows(s, k);
    assert(settle(s) =~= s);
}

/// Every row of the stack that is not full is still there after clearing.
pub proof fn lemma_settle_keeps_partial_rows(cells: Grid, r: int)
    requires
        well_shaped(cells),
        0 <= r < stack_height(cells),
        !row_full(cells[r]),
    ensures
        settle(cells).contains(cells[r]),
{
    let h = stack_height(cells);
    let kept = cells.take(h).filter(not_full());
    lemma_stack_height_props(cells);
    cells.take(h).lemma_filter_contains(not_full(), r);
    let i = choose|i: int| 0 <= i < kept.len() && kept[i] == cells[r];
    assert(settle(cells)[i] == kept[i]);
}

/// A released piece comes to rest `n` rows further down, where `n` is the
/// number returned: every position on the way there is free, and the next
/// one is not.
pub proof fn lemma_landing_is_lowest(cells: Grid, p: Piece) -> (n: int)
    requires
        p.well_formed(),
    ensures
        0 <= n,
        landing(cells, p) == p.lowered(n),
        forall|k: int| 1 <= k <= n ==> fits(cells, #[trigger] p.lowered(k)),
        !fits(cells, p.lowered(n + 1)),
    decreases p.y + 4,
{
    let below = p.moved(MoveDirection::Down);
    if fits(cells, below) {
        lemma_cell_offset_in_box(p.shape, p.rotation, 0);
        let m = lemma_landing_is_lowest(cells, below);
        assert forall|k: int| 1 <= k <= m + 1 implies fits(cells, #[trigger] p.lowered(k)) by {
            if k > 1 {
                assert(p.lowered(k) == below.lowered(k - 1));
            }
        }
        assert(below.lowered(m + 1) == p.lowered(m + 2));
        m + 1
    } else {
        0
    }
}

/// The operations keep a valid board valid.
pub proof fn lemma_operations_keep_board_valid(
    b: Board,
    shape: Tetromino,
    dir: MoveDirection,
    turn: RotateDirection,
)
    requires
        b.valid(),
    ensures
        (b.player is None ==> shape.is_playable()) ==> b.spawn(shape).valid(),
        b.step(dir).valid(),
        b.hard_drop().valid(),
        b.rotate(turn).valid(),
        b.clear_lines().valid(),
        b.put().valid(),
{
    lemma_settle_shape(b.cells);
    lemma_settle_shape(b.drawn().cells);
    if b.player is Some {
        let p = b.player->0;
        let ground = erase(b.cells, p);
        lemma_settle_shape(draw(ground, p));
        lemma_landing_is_lowest(ground, p);
        lemma_settle_shape(draw(ground, landing(ground, p)));
        lemma_first_kick(ground, p, turn, 0);
    }
}

/// What `first_kick` finds: the candidate it names fits and no earlier one
/// from `from` on does; when it names none, none from `from` on fits.
pub proof fn lemma_first_kick(cells: Grid, p: Piece, dir: RotateDirection, from: int)
    requires
        0 <= from <= 5,
    ensures
        match first_kick(cells, p, dir, from) {
            Some(k) => from <= k < 5 && fits(cells, p.kicked(dir, k)) && forall|j: int|
                from <= j < k ==> !fits(cells, #[trigger] p.kicked(dir, j)),
            None => forall|j: int| from <= j < 5 ==> !fits(cells, #[trigger] p.kicked(dir, j)),
        },
    decreases 5 - from,
{
    if from < 5 && !fits(cells, p.kicked(dir, from)) {
        lemma_first_kick(cells, p, dir, from + 1);
    }
}

/// The operations leave the footprint of the active piece drawn. A spawn
/// while a piece is falling and a turn of a piece that does not turn change
/// nothing, so they leave the footprint as they found it.
pub proof fn lemma_operations_draw_the_piece(
    b: Board,
    shape: Tetromino,
    dir: MoveDirection,
    turn: RotateDirection,
)
    requires
        b.valid(),
    ensures
        b.player is None ==> b.spawn(shape).player_drawn(),
        b.step(dir).player_drawn(),
        b.hard_drop().player_drawn(),
        b.player matches Some(p) && p.shape.rotates() ==> b.rotate(turn).player_drawn(),
        b.player_drawn() ==> b.spawn(shape).player_drawn() && b.rotate(turn).player_drawn(),
{
    if b.player is Some {
        let p = b.player->0;
        let ground = erase(b.cells, p);
        lemma_paint_keeps_shape(b.cells, p, None);
        lemma_draw_erase(ground, p);
        lemma_draw_erase(ground, p.moved(dir));
        lemma_draw_erase(ground, turn_result(ground, p, turn));
    } else {
        lemma_draw_erase(b.cells, Piece::spawned(shape));
    }
}

/// A turn never leaves the piece outside the field or on an occupied cell,
/// and it touches nothing but the piece: what the piece can collide with is
/// the same before and after, and so are the score and the events.
pub proof fn lemma_rotate_is_safe(b: Board, dir: RotateDirection)
    requires
        b.valid(),
        b.player is Some,
    ensures
        b.rotate(dir).valid(),
        b.rotate(dir).player is Some,
        b.rotate(dir).player->0.shape == b.player->0.shape,
        b.rotate(dir).erased().cells == b.erased().cells,
        fits(b.erased().cells, b.rotate(dir).player->0),
        b.rotate(dir).score == b.score,
        b.rotate(dir).events == b.events,
{
    let p = b.player->0;
    let ground = erase(b.cells, p);
    lemma_paint_keeps_shape(b.cells, p, None);
    lemma_piece_has_room_in_its_place(b.cells, p);
    lemma_first_kick(ground, p, dir, 0);
    let q = turn_result(ground, p, dir);
    if p.shape.rotates() {
        lemma_draw_erase(ground, q);
    }
}

/// A turn and the turn back. When no candidate of the first turn fits, the
/// first turn changes nothing. When one fits, the turn back always finds
/// room, at the latest with the kick that undoes the first, and restores
/// the orientation. It restores the whole board when it needs that very
/// kick, as it does whenever the first turn needed none.
pub proof fn lemma_rotate_there_and_back(b: Board, dir: RotateDirection)
    requires
        b.valid(),
        b.player_drawn(),
        b.player matches Some(p) && p.shape.rotates(),
    ensures
        match first_kick(b.erased().cells, b.player->0, dir, 0) {
            None => b.rotate(dir) == b,
            Some(k) => {
                let there = b.rotate(dir);
                let back = there.rotate(dir.opposite());
                &&& there.player == Some(b.player->0.kicked(dir, k))
                &&& first_kick(b.erased().cells, there.player->0, dir.opposite(), 0) matches Some(j)
                    && 0 <= j <= k && (j == k ==> back == b)
                &&& back.player is Some
                &&& back.player->0.rotation == b.player->0.rotation
                &&& back.player->0.shape == b.player->0.shape
            },
        },
{
    let p = b.player->0;
    let ground = erase(b.cells, p);
    let back_dir = dir.opposite();
    lemma_paint_keeps_shape(b.cells, p, None);
    lemma_piece_has_room_in_its_place(b.cells, p);
    lemma_draw_erase(b.cells, p);
    lemma_first_kick(ground, p, dir, 0);
    lemma_rotate_is_safe(b, dir);
    match first_kick(ground, p, dir, 0) {
        None => {},
        Some(k) => {
            // The candidate of the way back that undoes kick `k` is the
            // piece as it was, and that has room.
            let q = p.kicked(dir, k);
            lemma_kicks_are_antisymmetric(p.shape, p.rotation, dir, k);
            assert(back_dir.turn(dir.turn(p.rotation)) == p.rotation);
            assert(q.kicked(back_dir, k) == p);
            lemma_first_kick(ground, q, back_dir, 0);
        },
    }
}

/// A move sideways that has no room leaves the board as it was.
pub proof fn lemma_blocked_sideways_move_changes_nothing(b: Board, dir: MoveDirection)
    requires
        b.valid(),
        b.player_drawn(),
        dir != MoveDirection::Down,
        b.player matches Some(p) && b.collides(p.moved(dir)),
    ensures
        b.step(dir) == b,
{
    lemma_draw_erase(b.cells, b.player->0);
}

/// A move that has room takes the piece there, raises `TetrominoMoved` and
/// touches neither the score nor what the piece can collide with. A move
/// down that has no room is a lock.
pub proof fn lemma_move_or_lock(b: Board, dir: MoveDirection)
    requires
        b.valid(),
        b.player is Some,
    ensures
        !b.collides(b.player->0.moved(dir)) ==> {
            &&& b.step(dir).player == Some(b.player->0.moved(dir))
            &&& b.step(dir).events == b.events.insert(BoardEvent::TetrominoMoved)
            &&& b.step(dir).score == b.score
            &&& b.step(dir).erased().cells == b.erased().cells
        },
        b.collides(b.player->0.moved(MoveDirection::Down)) ==> {
            &&& b.step(MoveDirection::Down) == b.erased().put()
            &&& b.step(MoveDirection::Down).player is None
            &&& b.step(MoveDirection::Down).events.contains(BoardEvent::TetrominoPut)
            &&& b.events.contains(BoardEvent::TetrominoMoved)
                == b.step(MoveDirection::Down).events.contains(
                BoardEvent::TetrominoMoved,
            )
        },
{
    let p = b.player->0;
    let ground = erase(b.cells, p);
    lemma_paint_keeps_shape(b.cells, p, None);
    lemma_draw_erase(ground, p.moved(dir));
}

/// The board after the active piece was moved down, one cell at a time,
/// until a move locked it.
pub open spec fn moved_down_until_locked(b: Board) -> Board
    decreases
            (if b.player is Some {
                b.player->0.y + 5
            } else {
                0
            }),
    when b.valid()
    via moved_down_until_locked_decreases
{
    if b.player is Some && !b.collides(b.player->0.moved(MoveDirection::Down)) {
        moved_down_until_locked(b.step(MoveDirection::Down))
    } else {
        b.step(MoveDirection::Down)
    }
}

#[via_fn]
proof fn moved_down_until_locked_decreases(b: Board) {
    if b.player is Some && !b.collides(b.player->0.moved(MoveDirection::Down)) {
        lemma_cell_offset_in_box(b.player->0.shape, b.player->0.rotation, 0);
    }
}

/// A hard drop is a run of moves down that ends with the lock, except that
/// it does not announce the moves: the cells, the score and the events are
/// the same, but for `TetrominoMoved`, which the run raises when the piece
/// had room to fall.
pub proof fn lemma_hard_drop_is_moving_down_until_locked(b: Board)
    requires
        b.valid(),
        b.player is Some,
    ensures
        moved_down_until_locked(b).cells == b.hard_drop().cells,
        moved_down_until_locked(b).player == b.hard_drop().player,
        moved_down_until_locked(b).score == b.hard_drop().score,
        moved_down_until_locked(b).events == if b.collides(
            b.player->0.moved(MoveDirection::Down),
        ) {
            b.hard_drop().events
        } else {
            b.hard_drop().events.insert(BoardEvent::TetrominoMoved)
        },
    decreases b.player->0.y + 5,
{
    let p = b.player->0;
    let q = p.moved(MoveDirection::Down);
    let ground = erase(b.cells, p);
    lemma_paint_keeps_shape(b.cells, p, None);
    if !b.collides(q) {
        let next = b.step(MoveDirection::Down);
        lemma_cell_offset_in_box(p.shape, p.rotation, 0);
        lemma_draw_erase(ground, q);
        lemma_operations_keep_board_valid(b, p.shape, MoveDirection::Down, RotateDirection::Left);
        lemma_hard_drop_is_moving_down_until_locked(next);
        // From one row further down the drop ends on the same cells; only
        // the move that led there has been announced.
        let fast = b.hard_drop();
        let faster = next.hard_drop();
        assert(faster.events =~= fast.events.insert(BoardEvent::TetrominoMoved));
        assert(fast.events.insert(BoardEvent::TetrominoMoved).insert(BoardEvent::TetrominoMoved)
            =~= fast.events.insert(BoardEvent::TetrominoMoved));
    }
}

/// A spawn on a board without a piece either places the piece on its entry
/// cells and raises nothing, or, when the entry is taken, raises `GameOver`
/// and changes no cell.
pub proof fn lemma_spawn_or_game_over(b: Board, shape: Tetromino)
    requires
        b.valid(),
        b.player is None,
    ensures
        fits(b.cells, Piece::spawned(shape)) ==> {
            &&& b.spawn(shape).player == Some(Piece::spawned(shape))
            &&& b.spawn(shape).cells == draw(b.cells, Piece::spawned(shape))
            &&& b.spawn(shape).events == b.events
        },
        !fits(b.cells, Piece::spawned(shape)) ==> {
            &&& b.spawn(shape).player is None
            &&& b.spawn(shape).cells == b.cells
            &&& b.spawn(shape).events == b.events.insert(BoardEvent::GameOver)
        },
        b.spawn(shape).score == b.score,
{
}

/// The supply after a pop shows what it showed before, moved up by one
/// place, with the fresh shape at the end.
pub proof fn lemma_pop_shifts_preview(s: Supply, fresh: Tetromino)
    requires
        s.valid(),
        fresh.is_playable(),
    ensures
        s.popped(fresh).valid(),
        s.popped(fresh).preview() == s.preview().skip(1).push(fresh),
        s.preview().len() == 5,
{
}

/// A look into the supply depends on the place only up to the size of the
/// ring, and every shape it shows is playable.
pub proof fn lemma_peek_wraps(s: Supply, i: int)
    requires
        s.valid(),
        0 <= i,
    ensures
        s.peek(i) == s.peek(i % 5),
        s.peek(i).is_playable(),
        s.peek(i % 5) == s.preview()[i % 5],
{
}

/// Numbering the playable shapes and reading the number back gives the
/// shape, and every number reads as a playable shape.
pub proof fn lemma_shape_index_round_trip(shape: Tetromino, x: int)
    ensures
        shape.is_playable() ==> Tetromino::of_index(shape.index_spec()) == shape,
        Tetromino::of_index(x).is_playable(),
        0 <= x < 7 ==> Tetromino::of_index(x).index_spec() == x,
{
}

/// A lock counts one point for each full row of the stack, no more: the
/// score grows by the number of rows cleared, which is at most the height
/// of the field, `LineCompleted` is raised exactly when a row was cleared
/// or was raised before, and `TetrominoPut` is raised.
pub proof fn lemma_put_counts_cleared_rows(b: Board)
    requires
        b.valid(),
    ensures
        b.put().score == b.score + cleared_rows(b.drawn().cells),
        cleared_rows(b.drawn().cells) <= 20,
        b.put().cells == settle(b.drawn().cells),
        b.put().player is None,
        b.put().events.contains(BoardEvent::TetrominoPut),
        b.put().events.contains(BoardEvent::LineCompleted) <==> (cleared_rows(
            b.drawn().cells,
        ) > 0 || b.events.contains(BoardEvent::LineCompleted)),
{
    lemma_cleared_rows_bounded(b.drawn().cells);
}

/// The score never falls, and a turn leaves it alone.
pub proof fn lemma_score_never_falls(b: Board, dir: MoveDirection, turn: RotateDirection)
    ensures
        b.step(dir).score >= b.score,
        b.rotate(turn).score == b.score,
        b.hard_drop().score >= b.score,
        b.put().score >= b.score,
{
}

/// An operation raises events and never takes one back: only a reset does.
pub proof fn lemma_operations_only_raise_events(
    b: Board,
    shape: Tetromino,
    dir: MoveDirection,
    turn: RotateDirection,
)
    ensures
        b.events.subset_of(b.spawn(shape).events),
        b.events.subset_of(b.step(dir).events),
        b.events.subset_of(b.hard_drop().events),
        b.events.subset_of(b.put().events),
        b.rotate(turn).events == b.events,
        b.reset_events().events == Set::<BoardEvent>::empty(),
{
}

/// No single operation adds more to the score than the field has rows.
pub proof fn lemma_score_gain_bounded(b: Board, dir: MoveDirection)
    requires
        b.valid(),
    ensures
        b.score <= b.step(dir).score <= b.score + 20,
        b.score <= b.hard_drop().score <= b.score + 20,
{
    if b.player is Some {
        let p = b.player->0;
        let ground = erase(b.cells, p);
        lemma_cleared_rows_bounded(draw(ground, p));
        lemma_cleared_rows_bounded(draw(ground, landing(ground, p)));
    }
}

/// One update adds to the score at most once: after a lock there is no
/// piece left for the later requests of the same update.
pub proof fn lemma_update_score_gain_bounded(b: Board, input: PlayerInput)
    requires
        b.valid(),
    ensures
        b.score <= b.after_input(input).score <= b.score + 20,
        b.after_input(input).valid(),
{
    let b1 = if input.down || input.gravity {
        b.step(MoveDirection::Down)
    } else {
        b
    };
    let b2 = if input.left {
        b1.step(MoveDirection::Left)
    } else {
        b1
    };
    let b3 = if input.right {
        b2.step(MoveDirection::Right)
    } else {
        b2
    };
    let b4 = if input.rotate_left {
        b3.rotate(RotateDirection::Left)
    } else {
        b3
    };
    let b5 = if input.rotate_right {
        b4.rotate(RotateDirection::Right)
    } else {
        b4
    };
    let left = RotateDirection::Left;
    let right = RotateDirection::Right;
    lemma_operations_keep_board_valid(b, Tetromino::I, MoveDirection::Down, left);
    lemma_operations_keep_board_valid(b1, Tetromino::I, MoveDirection::Left, left);
    lemma_operations_keep_board_valid(b2, Tetromino::I, MoveDirection::Right, left);
    lemma_operations_keep_board_valid(b3, Tetromino::I, MoveDirection::Down, left);
    lemma_operations_keep_board_valid(b4, Tetromino::I, MoveDirection::Down, right);
    lemma_operations_keep_board_valid(b5, Tetromino::I, MoveDirection::Down, right);
    lemma_score_gain_bounded(b, MoveDirection::Down);
    lemma_score_gain_bounded(b5, MoveDirection::Down);
}

} // verus!
