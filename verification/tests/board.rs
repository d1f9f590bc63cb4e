use tetromino_engine::{BoardEvent, BoardMap, MoveDirection, Tetromino};

/// Every occupied cell as (row, column, shape), row by row from the floor.
fn occupied(board: &BoardMap) -> Vec<(u8, u8, Tetromino)> {
    let mut cells = Vec::new();
    for row in 0..20u8 {
        for col in 0..10u8 {
            if let Some(shape) = board.tile_get(row, col) {
                cells.push((row, col, shape));
            }
        }
    }
    cells
}

fn no_event(board: &BoardMap) -> bool {
    !board.event_get(BoardEvent::LineCompleted)
        && !board.event_get(BoardEvent::TetrominoPut)
        && !board.event_get(BoardEvent::TetrominoMoved)
        && !board.event_get(BoardEvent::GameOver)
}

#[test]
fn new_board_is_empty() {
    let board = BoardMap::new();
    assert_eq!(occupied(&board), vec![]);
    assert_eq!(board.score_get(), 0);
    assert!(no_event(&board));
}

#[test]
fn tile_set_then_tile_get_reads_the_cell_back() {
    let mut board = BoardMap::new();
    board.tile_set(0, 0, Some(Tetromino::J));
    board.tile_set(19, 9, Some(Tetromino::G));
    board.tile_set(7, 3, Some(Tetromino::S));
    assert_eq!(board.tile_get(0, 0), Some(Tetromino::J));
    assert_eq!(board.tile_get(19, 9), Some(Tetromino::G));
    assert_eq!(board.tile_get(7, 3), Some(Tetromino::S));
    assert_eq!(board.tile_get(7, 4), None);
    assert_eq!(board.tile_get(8, 3), None);
    assert_eq!(
        occupied(&board),
        vec![(0, 0, Tetromino::J), (7, 3, Tetromino::S), (19, 9, Tetromino::G)]
    );
}

#[test]
fn tile_set_none_empties_one_cell_only() {
    let mut board = BoardMap::new();
    board.tile_set(4, 0, Some(Tetromino::T));
    board.tile_set(4, 1, Some(Tetromino::Z));
    board.tile_set(4, 9, Some(Tetromino::L));
    board.tile_set(4, 1, None);
    assert_eq!(occupied(&board), vec![(4, 0, Tetromino::T), (4, 9, Tetromino::L)]);
    board.tile_set(4, 1, None);
    assert_eq!(occupied(&board), vec![(4, 0, Tetromino::T), (4, 9, Tetromino::L)]);
}

#[test]
fn tile_set_recolours_an_occupied_cell() {
    let mut board = BoardMap::new();
    board.tile_set(2, 2, Some(Tetromino::I));
    board.tile_set(2, 2, Some(Tetromino::O));
    assert_eq!(occupied(&board), vec![(2, 2, Tetromino::O)]);
}

#[test]
fn spawn_o_on_empty_field_occupies_exactly_its_four_cells() {
    let mut board = BoardMap::new();
    board.player_spawn(Tetromino::O);
    assert_eq!(
        occupied(&board),
        vec![
            (18, 4, Tetromino::O),
            (18, 5, Tetromino::O),
            (19, 4, Tetromino::O),
            (19, 5, Tetromino::O),
        ]
    );
    assert!(!board.event_get(BoardEvent::GameOver));
    assert!(no_event(&board));
    assert_eq!(board.score_get(), 0);
}

#[test]
fn each_shape_spawns_on_its_own_cells() {
    let expected: [(Tetromino, [(u8, u8); 4]); 7] = [
        (Tetromino::I, [(19, 3), (19, 4), (19, 5), (19, 6)]),
        (Tetromino::J, [(18, 3), (18, 4), (18, 5), (19, 3)]),
        (Tetromino::L, [(18, 3), (18, 4), (18, 5), (19, 5)]),
        (Tetromino::O, [(18, 4), (18, 5), (19, 4), (19, 5)]),
        (Tetromino::S, [(18, 3), (18, 4), (19, 4), (19, 5)]),
        (Tetromino::T, [(18, 3), (18, 4), (18, 5), (19, 4)]),
        (Tetromino::Z, [(18, 4), (18, 5), (19, 3), (19, 4)]),
    ];
    for (shape, cells) in expected {
        let mut board = BoardMap::new();
        board.player_spawn(shape);
        let want: Vec<(u8, u8, Tetromino)> = cells.iter().map(|&(r, c)| (r, c, shape)).collect();
        assert_eq!(occupied(&board), want);
    }
}

#[test]
fn spawn_while_a_piece_falls_does_nothing() {
    let mut board = BoardMap::new();
    board.player_spawn(Tetromino::T);
    let before = occupied(&board);
    board.player_spawn(Tetromino::I);
    assert_eq!(occupied(&board), before);
    assert!(no_event(&board));
    // The filler is tolerated here as well: the request is ignored.
    board.player_spawn(Tetromino::G);
    assert_eq!(occupied(&board), before);
    assert!(no_event(&board));
}

#[test]
fn spawn_into_an_occupied_entry_raises_game_over_and_changes_no_cell() {
    let mut board = BoardMap::new();
    for row in 17..20u8 {
        for col in 0..10u8 {
            board.tile_set(row, col, Some(Tetromino::G));
        }
    }
    let before = occupied(&board);
    assert_eq!(before.len(), 30);
    board.player_spawn(Tetromino::T);
    assert!(board.event_get(BoardEvent::GameOver));
    assert!(!board.event_get(BoardEvent::TetrominoPut));
    assert!(!board.event_get(BoardEvent::TetrominoMoved));
    assert!(!board.event_get(BoardEvent::LineCompleted));
    assert_eq!(occupied(&board), before);
    assert_eq!(board.score_get(), 0);
    // No piece was placed, so a move has nothing to act on.
    board.event_reset();
    board.player_move(MoveDirection::Down);
    assert_eq!(occupied(&board), before);
    assert!(no_event(&board));
}

#[test]
fn spawn_is_blocked_by_a_single_cell_of_the_footprint() {
    let mut board = BoardMap::new();
    board.tile_set(19, 4, Some(Tetromino::G));
    board.player_spawn(Tetromino::T);
    assert!(board.event_get(BoardEvent::GameOver));
    assert_eq!(occupied(&board), vec![(19, 4, Tetromino::G)]);
    // The S shape does cover that cell too, the J shape does not.
    let mut other = BoardMap::new();
    other.tile_set(19, 4, Some(Tetromino::G));
    other.player_spawn(Tetromino::J);
    assert!(!other.event_get(BoardEvent::GameOver));
    assert_eq!(
        occupied(&other),
        vec![
            (18, 3, Tetromino::J),
            (18, 4, Tetromino::J),
            (18, 5, Tetromino::J),
            (19, 3, Tetromino::J),
            (19, 4, Tetromino::G),
        ]
    );
}

#[test]
fn events_are_kept_until_reset_and_reset_together() {
    let mut board = BoardMap::new();
    board.player_spawn(Tetromino::O);
    board.player_move(MoveDirection::Left);
    assert!(board.event_get(BoardEvent::TetrominoMoved));
    board.player_move_to_bottom();
    assert!(board.event_get(BoardEvent::TetrominoMoved));
    assert!(board.event_get(BoardEvent::TetrominoPut));
    assert!(!board.event_get(BoardEvent::LineCompleted));
    assert!(!board.event_get(BoardEvent::GameOver));
    board.event_reset();
    assert!(no_event(&board));
    board.event_reset();
    assert!(no_event(&board));
}

#[test]
fn move_sideways_shifts_the_footprint_and_raises_moved() {
    let mut board = BoardMap::new();
    board.player_spawn(Tetromino::T);
    board.player_move(MoveDirection::Left);
    assert!(board.event_get(BoardEvent::TetrominoMoved));
    assert_eq!(
        occupied(&board),
        vec![
            (18, 2, Tetromino::T),
            (18, 3, Tetromino::T),
            (18, 4, Tetromino::T),
            (19, 3, Tetromino::T),
        ]
    );
    board.event_reset();
    board.player_move(MoveDirection::Right);
    board.player_move(MoveDirection::Right);
    assert!(board.event_get(BoardEvent::TetrominoMoved));
    assert_eq!(
        occupied(&board),
        vec![
            (18, 4, Tetromino::T),
            (18, 5, Tetromino::T),
            (18, 6, Tetromino::T),
            (19, 5, Tetromino::T),
        ]
    );
}

#[test]
fn move_down_lowers_the_footprint_by_one_row() {
    let mut board = BoardMap::new();
    board.player_spawn(Tetromino::L);
    board.player_move(MoveDirection::Down);
    assert!(board.event_get(BoardEvent::TetrominoMoved));
    assert!(!board.event_get(BoardEvent::TetrominoPut));
    assert_eq!(
        occupied(&board),
        vec![
            (17, 3, Tetromino::L),
            (17, 4, Tetromino::L),
            (17, 5, Tetromino::L),
            (18, 5, Tetromino::L),
        ]
    );
}

#[test]
fn move_against_the_wall_changes_nothing_and_raises_nothing() {
    let mut board = BoardMap::new();
    board.player_spawn(Tetromino::O);
    for _ in 0..4 {
        board.player_move(MoveDirection::Left);
    }
    let at_wall = vec![
        (18, 0, Tetromino::O),
        (18, 1, Tetromino::O),
        (19, 0, Tetromino::O),
        (19, 1, Tetromino::O),
    ];
    assert_eq!(occupied(&board), at_wall);
    board.event_reset();
    board.player_move(MoveDirection::Left);
    assert_eq!(occupied(&board), at_wall);
    assert!(no_event(&board));
    // The other wall is eight columns away.
    for _ in 0..8 {
        board.event_reset();
        board.player_move(MoveDirection::Right);
        assert!(board.event_get(BoardEvent::TetrominoMoved));
    }
    board.event_reset();
    board.player_move(MoveDirection::Right);
    assert!(no_event(&board));
    assert_eq!(
        occupied(&board),
        vec![
            (18, 8, Tetromino::O),
            (18, 9, Tetromino::O),
            (19, 8, Tetromino::O),
            (19, 9, Tetromino::O),
        ]
    );
}

#[test]
fn move_sideways_is_blocked_by_a_locked_cell() {
    let mut board = BoardMap::new();
    board.tile_set(18, 6, Some(Tetromino::G));
    board.player_spawn(Tetromino::O);
    let before = occupied(&board);
    board.player_move(MoveDirection::Right);
    assert_eq!(occupied(&board), before);
    assert!(no_event(&board));
}

#[test]
fn move_down_until_blocked_ends_with_put_and_not_moved() {
    let mut board = BoardMap::new();
    board.player_spawn(Tetromino::O);
    let mut moves = 0;
    loop {
        board.event_reset();
        board.player_move(MoveDirection::Down);
        if board.event_get(BoardEvent::TetrominoPut) {
            break;
        }
        assert!(board.event_get(BoardEvent::TetrominoMoved));
        assert!(!board.event_get(BoardEvent::LineCompleted));
        moves += 1;
        assert!(moves < 100);
    }
    assert_eq!(moves, 18);
    assert!(!board.event_get(BoardEvent::TetrominoMoved));
    assert!(!board.event_get(BoardEvent::LineCompleted));
    assert!(!board.event_get(BoardEvent::GameOver));
    assert_eq!(
        occupied(&board),
        vec![
            (0, 4, Tetromino::O),
            (0, 5, Tetromino::O),
            (1, 4, Tetromino::O),
            (1, 5, Tetromino::O),
        ]
    );
    // The piece is locked: nothing is left to move.
    board.event_reset();
    board.player_move(MoveDirection::Left);
    assert!(no_event(&board));
    assert_eq!(occupied(&board).len(), 4);
    assert_eq!(board.score_get(), 0);
}

#[test]
fn hard_drop_lands_on_the_floor_and_locks() {
    let mut board = BoardMap::new();
    board.player_spawn(Tetromino::S);
    board.player_move_to_bottom();
    assert!(board.event_get(BoardEvent::TetrominoPut));
    assert!(!board.event_get(BoardEvent::TetrominoMoved));
    assert_eq!(
        occupied(&board),
        vec![
            (0, 3, Tetromino::S),
            (0, 4, Tetromino::S),
            (1, 4, Tetromino::S),
            (1, 5, Tetromino::S),
        ]
    );
    // A new piece can enter: the old one is no longer active.
    board.player_spawn(Tetromino::I);
    assert_eq!(occupied(&board).len(), 8);
}

#[test]
fn hard_drop_lands_on_the_stack() {
    let mut board = BoardMap::new();
    board.tile_set(5, 4, Some(Tetromino::G));
    board.player_spawn(Tetromino::O);
    board.player_move_to_bottom();
    assert_eq!(
        occupied(&board),
        vec![
            (5, 4, Tetromino::G),
            (6, 4, Tetromino::O),
            (6, 5, Tetromino::O),
            (7, 4, Tetromino::O),
            (7, 5, Tetromino::O),
        ]
    );
    assert!(board.event_get(BoardEvent::TetrominoPut));
}

#[test]
fn hard_drop_locks_a_piece_that_cannot_fall_at_all() {
    let mut board = BoardMap::new();
    for col in 0..10u8 {
        if col != 0 {
            board.tile_set(17, col, Some(Tetromino::G));
        }
    }
    board.player_spawn(Tetromino::O);
    board.event_reset();
    board.player_move_to_bottom();
    assert!(board.event_get(BoardEvent::TetrominoPut));
    assert!(!board.event_get(BoardEvent::LineCompleted));
    assert_eq!(board.tile_get(18, 4), Some(Tetromino::O));
    assert_eq!(board.tile_get(19, 5), Some(Tetromino::O));
    assert_eq!(occupied(&board).len(), 13);
    board.event_reset();
    board.player_move(MoveDirection::Left);
    assert!(no_event(&board));
}

#[test]
fn hard_drop_without_a_piece_does_nothing() {
    let mut board = BoardMap::new();
    board.tile_set(0, 0, Some(Tetromino::G));
    board.player_move_to_bottom();
    assert!(no_event(&board));
    assert_eq!(occupied(&board), vec![(0, 0, Tetromino::G)]);
}

#[test]
fn a_piece_is_never_blocked_by_its_own_footprint() {
    // Every move of one cell lands partly on cells the piece itself covers.
    // Were those counted as occupied, no move would ever succeed.
    for shape in [
        Tetromino::I,
        Tetromino::J,
        Tetromino::L,
        Tetromino::O,
        Tetromino::S,
        Tetromino::T,
        Tetromino::Z,
    ] {
        let mut board = BoardMap::new();
        board.player_spawn(shape);
        let start = occupied(&board);
        for dir in [MoveDirection::Left, MoveDirection::Right, MoveDirection::Down] {
            board.event_reset();
            board.player_move(dir);
            assert!(board.event_get(BoardEvent::TetrominoMoved));
            assert_eq!(occupied(&board).len(), 4);
        }
        let moved: Vec<(u8, u8, Tetromino)> =
            start.iter().map(|&(row, col, s)| (row - 1, col, s)).collect();
        assert_eq!(occupied(&board), moved);
    }
}
