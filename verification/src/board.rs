//! The play field: ten columns by twenty rows, one occupancy mask per row,
//! the active piece, the score and the event flags.

use vstd::prelude::*;
use crate::bits::{
    flag_bit, lemma_flag_set, lemma_flag_zero, lemma_mask_clear, lemma_mask_full,
    lemma_mask_set, lemma_mask_zero, mask_bit,
};
use crate::grid::{
    cell_free, cleared_rows, empty_rows, first_kick, fits, full_rows_below, inside,
    landing, lemma_full_rows_monotone, lemma_kept_rows_none, lemma_kept_rows_step,
    lemma_stack_height_at_least, lemma_stack_height_is, not_full, paint_first, remove_row,
    row_empty, row_full, stack_height, turn_result, Row,
};
use crate::model::Board;
use crate::piece::{Piece, PlayerTetromino};
use crate::shape::{BoardEvent, MoveDirection, RotateDirection, Tetromino};
use crate::tables::{
    cell_offset, kick_offset, lemma_cell_offset_in_box, lemma_kick_offset_small, rotation_cells,
    WALL_KICK_TABLE_I, WALL_KICK_TABLE_JLSTZ,
};

verus! {

/// The play field and everything that lives on it.
pub struct BoardMap {
    rows: [u16; 20],
    tiles: [[Tetromino; 10]; 20],
    player: Option<PlayerTetromino>,
    score: u32,
    eventflag: u8,
}

/// What a row shows, given its occupancy mask and the colours stored for it.
spec fn row_view(mask: u16, tiles: [Tetromino; 10]) -> Row {
    Seq::new(
        10,
        |c: int|
            if mask_bit(mask, c) {
                Some(tiles[c])
            } else {
                None
            },
    )
}

impl View for BoardMap {
    type V = Board;

    closed spec fn view(&self) -> Board {
        Board {
            cells: Seq::new(20, |r: int| row_view(self.rows[r], self.tiles[r])),
            player: match self.player {
                Some(p) => Some(p@),
                None => None,
            },
            score: self.score as nat,
            events: Set::new(|e: BoardEvent| flag_bit(self.eventflag, e.bit_spec())),
        }
    }
}

/// The anchor of a piece that lies inside the field is close to the field.
proof fn lemma_inside_bounds(p: Piece)
    requires
        p.well_formed(),
        inside(p),
    ensures
        -3 <= p.x <= 9,
        -3 <= p.y <= 19,
{
    lemma_cell_offset_in_box(p.shape, p.rotation, 0);
}

/// Whether column `col` is occupied in the row mask `mask`.
fn mask_has(mask: u16, col: usize) -> (occupied: bool)
    requires
        col < 10,
    ensures
        occupied == mask_bit(mask, col as int),
{
    let shift: u16 = 9 - col as u16;
    (mask >> shift) & 1 == 1
}

impl BoardMap {
    /// No row mask has a bit set beyond the ten columns.
    pub closed spec fn masks_clean(&self) -> bool {
        forall|r: int| 0 <= r < 20 ==> #[trigger] self.rows[r] < 1024
    }

    /// The invariant of the board: the masks are clean, the board it shows
    /// is valid, and the score it shows is what the counter holds.
    pub open spec fn wf(&self) -> bool {
        &&& self.masks_clean()
        &&& self@.valid()
        &&& self@.score <= u32::MAX
    }

    /// An empty field with no piece, no points and no events.
    pub fn new() -> (board: BoardMap)
        ensures
            board.wf(),
            board@ == Board::empty(),
    {
        let board = BoardMap {
            rows: [0;20],
            tiles: [[Tetromino::I;10];20],
            player: None,
            score: 0,
            eventflag: 0,
        };
        proof {
            lemma_mask_zero(0);
            assert(board@.cells =~~= Board::empty().cells);
            assert forall|e: BoardEvent| !flag_bit(0u8, #[trigger] e.bit_spec()) by {
                lemma_flag_zero(e.bit_spec() as u8);
            }
            assert(board@.events =~= Set::empty());
        }
        board
    }

    /// Occupies the cell with `tile`, or empties it.
    pub fn tile_set(&mut self, row: u8, col: u8, tile: Option<Tetromino>)
        requires
            old(self).wf(),
            row < 20,
            col < 10,
        ensures
            final(self).wf(),
            final(self)@ == old(self)@.set_cell(row as int, col as int, tile),
    {
        let r: usize = row as usize;
        let c: usize = col as usize;
        let bit: u16 = 1_u16 << (9 - col);
        let ghost mask = self.rows[r as int];
        proof {
            assert(bit == 1u16 << ((9 - col as u16) as u16)) by (bit_vector)
                requires
                    col < 10,
                    bit == 1_u16 << ((9 - col) as u8),
            ;
            assert forall|other: int| 0 <= other < 10 implies #[trigger] mask_bit(
                mask | bit,
                other,
            ) == (other == col || mask_bit(mask, other)) by {
                lemma_mask_set(mask, col as u16, other as u16);
            }
            assert forall|other: int| 0 <= other < 10 implies #[trigger] mask_bit(
                mask & !bit,
                other,
            ) == (other != col && mask_bit(mask, other)) by {
                lemma_mask_clear(mask, col as u16, other as u16);
            }
            lemma_mask_set(mask, col as u16, 0);
            lemma_mask_clear(mask, col as u16, 0);
        }
        if let Some(tile) = tile {
            self.rows[r] = self.rows[r] | bit;
            self.tiles[r][c] = tile;
        } else {
            self.rows[r] = self.rows[r] & !bit;
        }
        proof {
            let want = old(self)@.set_cell(row as int, col as int, tile);
            assert(self.rows[r as int] == if tile is Some {
                mask | bit
            } else {
                mask & !bit
            });
            assert forall|i: int| 0 <= i < 20 implies #[trigger] self@.cells[i]
                =~= want.cells[i] by {}
            assert(self@.cells =~= want.cells);
        }
    }

    /// What the cell shows: the shape that occupies it, if one does.
    pub fn tile_get(&self, row: u8, col: u8) -> (tile: Option<Tetromino>)
        requires
            row < 20,
            col < 10,
        ensures
            tile == self@.cells[row as int][col as int],
    {
        let r: usize = row as usize;
        let c: usize = col as usize;
        if mask_has(self.rows[r], c) {
            Some(self.tiles[r][c])
        } else {
            None
        }
    }

    /// Colours the footprint of the active piece.
    fn player_draw(&mut self)
        requires
            old(self).wf(),
        ensures
            final(self).wf(),
            final(self)@ == old(self)@.drawn(),
    {
        let player = match self.player {
            Some(player) => player,
            None => {
                return ;
            },
        };
        self.paint(player, Some(player.tetromion));
    }

    /// Empties the footprint of the active piece.
    fn player_erase(&mut self)
        requires
            old(self).wf(),
        ensures
            final(self).wf(),
            final(self)@ == old(self)@.erased(),
    {
        let player = match self.player {
            Some(player) => player,
            None => {
                return ;
            },
        };
        self.paint(player, None);
    }

    /// Sets the four cells of `player` to `tile`.
    fn paint(&mut self, player: PlayerTetromino, tile: Option<Tetromino>)
        requires
            old(self).wf(),
            player@.well_formed(),
            inside(player@),
        ensures
            final(self).wf(),
            final(self)@ == (Board {
                cells: paint_first(old(self)@.cells, player@, 4, tile),
                ..old(self)@
            }),
    {
        let (x, y) = player.position;
        let offsets: [(i8, i8); 4] = rotation_cells(player.tetromion, player.rotation);
        let mut k: usize = 0;
        proof {
            assert(self@.cells =~~= paint_first(old(self)@.cells, player@, 0, tile));
        }
        while k < 4
            invariant
                k <= 4,
                self.wf(),
                player@.well_formed(),
                inside(player@),
                (x, y) == player.position,
                forall|j: int|
                    0 <= j < 4 ==> (#[trigger] offsets[j].0 as int, offsets[j].1 as int)
                        == cell_offset(player.tetromion, player.rotation as int, j),
                self@ == (Board {
                    cells: paint_first(old(self)@.cells, player@, k as int, tile),
                    ..old(self)@
                }),
            decreases 4 - k,
        {
            let (offset_x, offset_y) = offsets[k];
            proof {
                lemma_cell_offset_in_box(player.tetromion, player.rotation as int, k as int);
                assert((offsets[k as int].0 as int, offsets[k as int].1 as int)
                    == cell_offset(
                    player.tetromion,
                    player.rotation as int,
                    k as int,
                ));
            }
            let col: u8 = (x + offset_x) as u8;
            let row: u8 = (y + offset_y) as u8;
            self.tile_set(row, col, tile);
            proof {
                assert(self@.cells =~~= paint_first(
                    old(self)@.cells,
                    player@,
                    k as int + 1,
                    tile,
                ));
            }
            k += 1;
        }
    }

    /// Whether `player` can be placed: all of its cells lie in the field and
    /// none is occupied.
    fn player_collision_check(&self, player: &PlayerTetromino) -> (free: bool)
        requires
            player@.well_formed(),
            player.position.0 + 3 <= i8::MAX,
            player.position.1 + 3 <= i8::MAX,
        ensures
            free == fits(self@.cells, player@),
    {
        let (x, y) = player.position;
        let offsets: [(i8, i8); 4] = rotation_cells(player.tetromion, player.rotation);
        let mut k: usize = 0;
        while k < 4
            invariant
                k <= 4,
                player@.well_formed(),
                (x, y) == player.position,
                x + 3 <= i8::MAX,
                y + 3 <= i8::MAX,
                forall|j: int|
                    0 <= j < 4 ==> (#[trigger] offsets[j].0 as int, offsets[j].1 as int)
                        == cell_offset(player.tetromion, player.rotation as int, j),
                forall|j: int| 0 <= j < k ==> #[trigger] cell_free(self@.cells, player@, j),
            decreases 4 - k,
        {
            let (offset_x, offset_y) = offsets[k];
            proof {
                lemma_cell_offset_in_box(player.tetromion, player.rotation as int, k as int);
                assert((offsets[k as int].0 as int, offsets[k as int].1 as int)
                    == cell_offset(
                    player.tetromion,
                    player.rotation as int,
                    k as int,
                ));
            }
            let col: i8 = x + offset_x;
            let row: i8 = y + offset_y;
            if col < 0 || col >= 10 || row < 0 || row >= 20 {
                return false;
            }
            let col: usize = col as usize;
            let row: usize = row as usize;
            if mask_has(self.rows[row], col) {
                return false;
            }
            k += 1;
        }
        true
    }

    /// Removes row `row`: the rows above it come down by one, and the top
    /// row is left empty.
    fn row_remove(&mut self, row: usize)
        requires
            old(self).wf(),
            row < 20,
        ensures
            final(self).wf(),
            final(self)@ == (Board {
                cells: remove_row(old(self)@.cells, row as int),
                ..old(self)@
            }),
    {
        let mut r: usize = row;
        while r < 19
            invariant
                row <= r <= 19,
                self.player == old(self).player,
                self.score == old(self).score,
                self.eventflag == old(self).eventflag,
                forall|q: int| 0 <= q < 20 ==> #[trigger] self.rows[q] < 1024,
                forall|q: int| 0 <= q < 20 ==> #[trigger] old(self).rows[q] < 1024,
                forall|q: int|
                    0 <= q < row || r <= q < 20 ==> (#[trigger] self.rows[q]) == old(self).rows[q],
                forall|q: int|
                    0 <= q < row || r <= q < 20 ==> (#[trigger] self.tiles[q]) == old(
                        self,
                    ).tiles[q],
                forall|q: int| row <= q < r ==> (#[trigger] self.rows[q]) == old(self).rows[q + 1],
                forall|q: int|
                    row <= q < r ==> (#[trigger] self.tiles[q]) == old(self).tiles[q + 1],
            decreases 19 - r,
        {
            self.rows[r] = self.rows[r + 1];
            self.tiles[r] = self.tiles[r + 1];
            r += 1;
        }
        self.rows[19] = 0;
        proof {
            lemma_mask_zero(0);
            let want = remove_row(old(self)@.cells, row as int);
            assert forall|q: int| 0 <= q < 20 implies #[trigger] self@.cells[q] =~= want[q] by {}
            assert(self@.cells =~= want);
        }
    }

    /// Clears the full rows of the stack, from the floor upwards, and counts
    /// one point for each.
    fn line_check(&mut self)
        requires
            old(self).wf(),
            old(self)@.score + cleared_rows(old(self)@.cells) <= u32::MAX,
        ensures
            final(self).wf(),
            final(self)@ == old(self)@.clear_lines(),
    {
        let ghost orig = self@;
        let ghost mut seen: int = 0;
        let mut row_idx: usize = 0;
        proof {
            lemma_kept_rows_none(orig.cells);
            assert(self@.cells =~= orig.cells.take(0).filter(not_full()) + orig.cells.skip(0)
                + empty_rows(0));
        }
        while row_idx < 20
            invariant
                0 <= row_idx <= seen <= 20,
                self.wf(),
                orig == old(self)@,
                orig.cells.len() == 20,
                orig.score + cleared_rows(orig.cells) <= u32::MAX,
                forall|r: int| 0 <= r < seen ==> !row_empty(#[trigger] orig.cells[r]),
                orig.cells.take(seen).filter(not_full()).len() == row_idx,
                full_rows_below(orig.cells, seen) == seen - row_idx,
                self@.cells == orig.cells.take(seen).filter(not_full()) + orig.cells.skip(seen)
                    + empty_rows(seen - row_idx),
                self@.player == orig.player,
                self@.score == orig.score + (seen - row_idx),
                self@.events == if seen - row_idx > 0 {
                    orig.events.insert(BoardEvent::LineCompleted)
                } else {
                    orig.events
                },
            decreases 20 - seen,
        {
            let mask: u16 = self.rows[row_idx];
            proof {
                lemma_mask_zero(mask);
                lemma_mask_full(mask);
                let row = self@.cells[row_idx as int];
                assert(row_empty(row) <==> mask == 0) by {
                    if mask != 0 {
                        let c = choose|c: int| 0 <= c < 10 && mask_bit(mask, c);
                        assert(row[c] is Some);
                    }
                }
                assert(row_full(row) <==> mask & 0x3ff == 0x3ff) by {
                    if mask & 0x3ff != 0x3ff {
                        let c = choose|c: int| 0 <= c < 10 && !mask_bit(mask, c);
                        assert(row[c] is None);
                    }
                }
            }
            if mask == 0 {
                proof {
                    lemma_stack_height_is(orig.cells, seen);
                }
                return ;
            }
            proof {
                lemma_kept_rows_step(orig.cells, seen);
                lemma_stack_height_at_least(orig.cells, seen + 1);
                lemma_full_rows_monotone(
                    orig.cells,
                    seen + 1,
                    stack_height(orig.cells),
                );
            }
            if mask & 0x3ff != 0x3ff {
                row_idx += 1;
                proof {
                    seen = seen + 1;
                    assert(self@.cells =~= orig.cells.take(seen).filter(not_full())
                        + orig.cells.skip(seen) + empty_rows(seen - row_idx));
                }
            } else {
                self.row_remove(row_idx);
                self.score += 1;
                self.event_set(BoardEvent::LineCompleted);
                proof {
                    seen = seen + 1;
                    assert(self@.cells =~= orig.cells.take(seen).filter(not_full())
                        + orig.cells.skip(seen) + empty_rows(seen - row_idx));
                    assert(orig.events.insert(BoardEvent::LineCompleted).insert(
                        BoardEvent::LineCompleted,
                    ) =~= orig.events.insert(BoardEvent::LineCompleted));
                }
            }
        }
        proof {
            lemma_stack_height_is(orig.cells, 20);
        }
    }

    /// Locks the active piece into the field, clears the full rows and
    /// raises `TetrominoPut`.
    fn player_put(&mut self)
        requires
            old(self).wf(),
            old(self)@.put().score <= u32::MAX,
        ensures
            final(self).wf(),
            final(self)@ == old(self)@.put(),
    {
        self.player_draw();
        self.player = None;
        self.line_check();
        self.event_set(BoardEvent::TetrominoPut);
    }

    /// Lets a piece of shape `tetromion` enter the field. Nothing happens
    /// while a piece is falling. When the entry is blocked the piece is not
    /// placed and `GameOver` is raised.
    pub fn player_spawn(&mut self, tetromion: Tetromino)
        requires
            old(self).wf(),
            old(self)@.player is None ==> tetromion.is_playable(),
        ensures
            final(self).wf(),
            final(self)@ == old(self)@.spawn(tetromion),
    {
        if self.player.is_some() {
            return ;
        }
        let player = PlayerTetromino { tetromion, position: (3, 17), rotation: 0 };
        if self.player_collision_check(&player) {
            self.player = Some(player);
            self.player_draw();
        } else {
            self.event_set(BoardEvent::GameOver);
        }
    }

    /// Moves the active piece one cell. A move that is blocked sideways
    /// changes nothing; a move that is blocked downwards locks the piece.
    pub fn player_move(&mut self, dir: MoveDirection)
        requires
            old(self).wf(),
            old(self)@.step(dir).score <= u32::MAX,
        ensures
            final(self).wf(),
            final(self)@ == old(self)@.step(dir),
    {
        let mut player = match self.player {
            Some(player) => player,
            None => {
                return ;
            },
        };
        self.player_erase();
        proof {
            lemma_inside_bounds(player@);
        }
        player.transform(dir);
        if self.player_collision_check(&player) {
            self.player = Some(player);
            self.event_set(BoardEvent::TetrominoMoved);
        } else {
            match dir {
                MoveDirection::Down => self.player_put(),
                _ => (),
            }
        }
        self.player_draw();
    }

    /// Drops the active piece as far as it falls and locks it there.
    pub fn player_move_to_bottom(&mut self)
        requires
            old(self).wf(),
            old(self)@.hard_drop().score <= u32::MAX,
        ensures
            final(self).wf(),
            final(self)@ == old(self)@.hard_drop(),
    {
        let mut player = match self.player {
            Some(player) => player,
            None => {
                return ;
            },
        };
        let ghost start = player@;
        self.player_erase();
        let ghost erased = self@;
        proof {
            lemma_inside_bounds(player@);
        }
        player.transform(MoveDirection::Down);
        while self.player_collision_check(&player)
            invariant
                self.wf(),
                self@.player is Some,
                player@ == self@.player->0.moved(MoveDirection::Down),
                landing(erased.cells, self@.player->0) == landing(erased.cells, start),
                self@ == (Board { player: self@.player, ..erased }),
                player@.well_formed(),
                player.position.0 + 3 <= i8::MAX,
                player.position.1 + 3 <= i8::MAX,
            decreases player.position.1 + 5,
        {
            proof {
                lemma_inside_bounds(player@);
            }
            self.player = Some(player);
            player.transform(MoveDirection::Down);
        }
        self.player_put();
    }

    /// Turns the active piece by a quarter. The square does not turn. Any
    /// other piece takes the first kick candidate that has room and stays as
    /// it is when none has.
    pub fn player_rotate(&mut self, dir: RotateDirection)
        requires
            old(self).wf(),
        ensures
            final(self).wf(),
            final(self)@ == old(self)@.rotate(dir),
    {
        let mut player = match self.player {
            Some(player) => player,
            None => {
                return ;
            },
        };
        let ghost start = player@;
        let wall_kick_table: [[(i8, i8); 5]; 8] = match player.tetromion {
            Tetromino::I => WALL_KICK_TABLE_I,
            Tetromino::J | Tetromino::L | Tetromino::S | Tetromino::T | Tetromino::Z => {
                WALL_KICK_TABLE_JLSTZ
            },
            _ => {
                return ;
            },
        };
        let table_idx: usize = match dir {
            RotateDirection::Left => {
                player.rotation = (player.rotation + 3) % 4;
                ((player.rotation * 2) + 1) as usize
            },
            RotateDirection::Right => {
                player.rotation = (player.rotation + 1) % 4;
                (((player.rotation + 3) % 4) * 2) as usize
            },
        };
        self.player_erase();
        let ghost erased = self@;
        let kicks: [(i8, i8); 5] = wall_kick_table[table_idx];
        proof {
            lemma_inside_bounds(start);
            assert forall|j: int| 0 <= j < 5 implies (
                #[trigger] kicks[j].0 as int,
                kicks[j].1 as int,
            ) == kick_offset(start.shape, start.rotation, dir, j) by {}
        }
        let mut k: usize = 0;
        while k < 5
            invariant_except_break
                k <= 5,
                self@.player == Some(start),
                first_kick(erased.cells, start, dir, 0) == first_kick(
                    erased.cells,
                    start,
                    dir,
                    k as int,
                ),
            invariant
                self.wf(),
                start.shape.rotates(),
                0 <= start.rotation < 4,
                -3 <= start.x <= 9,
                -3 <= start.y <= 19,
                player@ == start.turned(dir),
                self@ == (Board { player: self@.player, ..erased }),
                forall|j: int|
                    0 <= j < 5 ==> (#[trigger] kicks[j].0 as int, kicks[j].1 as int) == kick_offset(
                        start.shape,
                        start.rotation,
                        dir,
                        j,
                    ),
            ensures
                self@.player == Some(turn_result(erased.cells, start, dir)),
            decreases 5 - k,
        {
            let (offset_x, offset_y) = kicks[k];
            proof {
                lemma_kick_offset_small(start.shape, start.rotation, dir, k as int);
                assert((kicks[k as int].0 as int, kicks[k as int].1 as int) == kick_offset(
                    start.shape,
                    start.rotation,
                    dir,
                    k as int,
                ));
            }
            let mut candidate = player;
            candidate.transform_xy(offset_x, offset_y);
            if self.player_collision_check(&candidate) {
                self.player = Some(candidate);
                break ;
            }
            k += 1;
        }
        self.player_draw();
    }

    /// The number of rows cleared so far.
    pub fn score_get(&self) -> (score: u32)
        ensures
            score == self@.score,
    {
        self.score
    }

    fn event_set(&mut self, e: BoardEvent)
        requires
            old(self).wf(),
        ensures
            final(self).wf(),
            final(self)@ == old(self)@.raise(e),
    {
        let bit: u8 = e.bit();
        proof {
            assert forall|other: BoardEvent|
                flag_bit(self.eventflag | (1u8 << bit), #[trigger] other.bit_spec()) == (other == e
                    || flag_bit(self.eventflag, other.bit_spec())) by {
                lemma_flag_set(self.eventflag, bit, other.bit_spec() as u8);
            }
        }
        self.eventflag = self.eventflag | (1 << bit);
        proof {
            assert(self@.events =~= old(self)@.events.insert(e));
        }
    }

    /// Whether `e` was raised since the events were last reset.
    pub fn event_get(&self, e: BoardEvent) -> (raised: bool)
        ensures
            raised == self@.events.contains(e),
    {
        (self.eventflag >> e.bit()) & 1 == 1
    }

    /// Forgets every event raised so far.
    pub fn event_reset(&mut self)
        requires
            old(self).wf(),
        ensures
            final(self).wf(),
            final(self)@ == old(self)@.reset_events(),
    {
        self.eventflag = 0;
        proof {
            assert forall|e: BoardEvent| !flag_bit(0u8, #[trigger] e.bit_spec()) by {
                lemma_flag_zero(e.bit_spec() as u8);
            }
            assert(self@.events =~= Set::empty());
        }
    }
}

} // verus!
