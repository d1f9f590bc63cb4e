use tetromino_engine::tables::{rotation_cells, WALL_KICK_TABLE_I, WALL_KICK_TABLE_JLSTZ};
use tetromino_engine::Tetromino;

const PLAYABLE: [Tetromino; 7] = [
    Tetromino::I,
    Tetromino::J,
    Tetromino::L,
    Tetromino::O,
    Tetromino::S,
    Tetromino::T,
    Tetromino::Z,
];

#[test]
fn rotation_cells_of_the_i_shape() {
    assert_eq!(rotation_cells(Tetromino::I, 0), [(0, 2), (1, 2), (2, 2), (3, 2)]);
    assert_eq!(rotation_cells(Tetromino::I, 1), [(2, 0), (2, 1), (2, 2), (2, 3)]);
    assert_eq!(rotation_cells(Tetromino::I, 2), [(0, 1), (1, 1), (2, 1), (3, 1)]);
    assert_eq!(rotation_cells(Tetromino::I, 3), [(1, 0), (1, 1), (1, 2), (1, 3)]);
}

#[test]
fn rotation_cells_of_the_t_shape() {
    assert_eq!(rotation_cells(Tetromino::T, 0), [(0, 1), (1, 1), (1, 2), (2, 1)]);
    assert_eq!(rotation_cells(Tetromino::T, 1), [(1, 0), (1, 1), (1, 2), (2, 1)]);
    assert_eq!(rotation_cells(Tetromino::T, 2), [(0, 1), (1, 0), (1, 1), (2, 1)]);
    assert_eq!(rotation_cells(Tetromino::T, 3), [(0, 1), (1, 0), (1, 1), (1, 2)]);
}

#[test]
fn rotation_cells_of_the_other_shapes_at_rest() {
    assert_eq!(rotation_cells(Tetromino::J, 0), [(0, 1), (0, 2), (1, 1), (2, 1)]);
    assert_eq!(rotation_cells(Tetromino::L, 0), [(0, 1), (1, 1), (2, 1), (2, 2)]);
    assert_eq!(rotation_cells(Tetromino::O, 0), [(1, 1), (1, 2), (2, 1), (2, 2)]);
    assert_eq!(rotation_cells(Tetromino::S, 0), [(0, 1), (1, 1), (1, 2), (2, 2)]);
    assert_eq!(rotation_cells(Tetromino::Z, 0), [(0, 2), (1, 1), (1, 2), (2, 1)]);
}

#[test]
fn every_orientation_has_four_distinct_cells_in_a_box_of_four() {
    for shape in PLAYABLE {
        for rotation in 0..4u8 {
            let cells = rotation_cells(shape, rotation);
            for (i, a) in cells.iter().enumerate() {
                assert!((0..4).contains(&a.0) && (0..4).contains(&a.1));
                for b in &cells[i + 1..] {
                    assert_ne!(a, b);
                }
            }
        }
    }
}

#[test]
fn every_kick_row_starts_in_place() {
    for row in 0..8 {
        assert_eq!(WALL_KICK_TABLE_I[row][0], (0, 0));
        assert_eq!(WALL_KICK_TABLE_JLSTZ[row][0], (0, 0));
    }
}

#[test]
fn the_kicks_of_a_turn_and_of_the_turn_back_are_opposite() {
    for from in 0..4 {
        for k in 0..5 {
            for table in [&WALL_KICK_TABLE_I, &WALL_KICK_TABLE_JLSTZ] {
                let there = table[2 * from][k];
                let back = table[2 * from + 1][k];
                assert_eq!((there.0 + back.0, there.1 + back.1), (0, 0));
            }
        }
    }
}

#[test]
fn kick_rows_of_the_first_right_turn() {
    assert_eq!(
        WALL_KICK_TABLE_JLSTZ[0],
        [(0, 0), (-1, 0), (-1, 1), (0, -2), (-1, -2)]
    );
    assert_eq!(
        WALL_KICK_TABLE_I[0],
        [(0, 0), (-2, 0), (1, 0), (-2, -1), (1, 2)]
    );
}
