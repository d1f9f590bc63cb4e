use rand::rngs::StdRng;
use rand::SeedableRng;
use tetromino_engine::{Tetromino, TetrominoSupplier};

const PLAYABLE: [Tetromino; 7] = [
    Tetromino::I,
    Tetromino::J,
    Tetromino::L,
    Tetromino::O,
    Tetromino::S,
    Tetromino::T,
    Tetromino::Z,
];

fn preview(supplier: &TetrominoSupplier) -> Vec<Tetromino> {
    (0..5).map(|i| supplier.get(i)).collect()
}

#[test]
fn from_index_names_the_shapes_in_table_order() {
    for (x, shape) in PLAYABLE.iter().enumerate() {
        assert_eq!(Tetromino::from_index(x as u8), *shape);
    }
}

#[test]
fn from_index_reads_numbers_past_the_table_as_z() {
    assert_eq!(Tetromino::from_index(7), Tetromino::Z);
    assert_eq!(Tetromino::from_index(8), Tetromino::Z);
    assert_eq!(Tetromino::from_index(255), Tetromino::Z);
}

#[test]
fn index_is_the_place_in_the_table() {
    for (x, shape) in PLAYABLE.iter().enumerate() {
        assert_eq!(shape.index(), x);
    }
    assert_eq!(Tetromino::G.index(), 7);
}

#[test]
fn gen_draws_every_playable_shape_and_never_the_filler() {
    let mut rng = StdRng::seed_from_u64(20_240_229);
    let mut seen = [0usize; 8];
    for _ in 0..7_000 {
        let shape = Tetromino::gen(&mut rng);
        assert_ne!(shape, Tetromino::G);
        seen[shape.index()] += 1;
    }
    assert_eq!(seen[7], 0);
    // Uniform draws: each shape comes about a thousand times.
    for count in &seen[..7] {
        assert!(*count > 800, "a shape came only {} times", count);
        assert!(*count < 1_200, "a shape came {} times", count);
    }
}

#[test]
fn gen_follows_the_seed() {
    let mut a = StdRng::seed_from_u64(7);
    let mut b = StdRng::seed_from_u64(7);
    for _ in 0..100 {
        assert_eq!(Tetromino::gen(&mut a), Tetromino::gen(&mut b));
    }
}

#[test]
fn new_supply_shows_five_i_shapes() {
    let supplier = TetrominoSupplier::new();
    assert_eq!(preview(&supplier), vec![Tetromino::I; 5]);
}

#[test]
fn get_is_stable_and_leaves_the_supply_alone() {
    let mut supplier = TetrominoSupplier::new();
    supplier.fill_with([Tetromino::T, Tetromino::S, Tetromino::Z, Tetromino::L, Tetromino::J]);
    for i in 0..5 {
        let first = supplier.get(i);
        for _ in 0..3 {
            assert_eq!(supplier.get(i), first);
        }
    }
    assert_eq!(
        preview(&supplier),
        vec![Tetromino::T, Tetromino::S, Tetromino::Z, Tetromino::L, Tetromino::J]
    );
}

#[test]
fn get_counts_around_the_ring() {
    let mut supplier = TetrominoSupplier::new();
    supplier.fill_with([Tetromino::T, Tetromino::S, Tetromino::Z, Tetromino::L, Tetromino::J]);
    assert_eq!(supplier.get(5), Tetromino::T);
    assert_eq!(supplier.get(6), Tetromino::S);
    assert_eq!(supplier.get(14), Tetromino::J);
    supplier.pop_with(Tetromino::O);
    assert_eq!(supplier.get(0), Tetromino::S);
    assert_eq!(supplier.get(5), Tetromino::S);
    assert_eq!(supplier.get(9), Tetromino::O);
    assert_eq!(supplier.get(usize::MAX), supplier.get(usize::MAX % 5));
}

#[test]
fn pop_with_hands_out_the_head_and_appends_the_fresh_shape() {
    let mut supplier = TetrominoSupplier::new();
    supplier.fill_with([Tetromino::T, Tetromino::S, Tetromino::Z, Tetromino::L, Tetromino::J]);
    assert_eq!(supplier.pop_with(Tetromino::O), Tetromino::T);
    assert_eq!(
        preview(&supplier),
        vec![Tetromino::S, Tetromino::Z, Tetromino::L, Tetromino::J, Tetromino::O]
    );
    assert_eq!(supplier.pop_with(Tetromino::I), Tetromino::S);
    assert_eq!(
        preview(&supplier),
        vec![Tetromino::Z, Tetromino::L, Tetromino::J, Tetromino::O, Tetromino::I]
    );
}

#[test]
fn pop_with_goes_around_the_ring() {
    let mut supplier = TetrominoSupplier::new();
    let fresh = [
        Tetromino::J,
        Tetromino::L,
        Tetromino::O,
        Tetromino::S,
        Tetromino::T,
        Tetromino::Z,
        Tetromino::I,
    ];
    let mut handed_out = Vec::new();
    for shape in fresh {
        handed_out.push(supplier.pop_with(shape));
    }
    // Five pops empty the initial content; then the fresh shapes come, in
    // the order in which they went in.
    assert_eq!(
        handed_out,
        vec![
            Tetromino::I,
            Tetromino::I,
            Tetromino::I,
            Tetromino::I,
            Tetromino::I,
            Tetromino::J,
            Tetromino::L,
        ]
    );
    assert_eq!(
        preview(&supplier),
        vec![Tetromino::O, Tetromino::S, Tetromino::T, Tetromino::Z, Tetromino::I]
    );
}

#[test]
fn pop_keeps_five_playable_shapes_and_shifts_the_preview() {
    let mut rng = StdRng::seed_from_u64(99);
    let mut supplier = TetrominoSupplier::new();
    supplier.fill(&mut rng);
    for _ in 0..50 {
        let before = preview(&supplier);
        let head = supplier.pop(&mut rng);
        let after = preview(&supplier);
        assert_eq!(head, before[0]);
        assert_eq!(after.len(), 5);
        assert_eq!(after[..4], before[1..]);
        for shape in &after {
            assert!(PLAYABLE.contains(shape));
        }
    }
}

#[test]
fn fill_replaces_the_initial_content_by_drawn_shapes() {
    let mut rng = StdRng::seed_from_u64(3);
    let mut seen_other_than_i = false;
    for _ in 0..20 {
        let mut supplier = TetrominoSupplier::new();
        supplier.fill(&mut rng);
        let shapes = preview(&supplier);
        assert_eq!(shapes.len(), 5);
        for shape in &shapes {
            assert!(PLAYABLE.contains(shape));
        }
        if shapes.iter().any(|s| *s != Tetromino::I) {
            seen_other_than_i = true;
        }
    }
    assert!(seen_other_than_i);
}

#[test]
fn fill_draws_slot_by_slot_from_the_generator() {
    let mut rng = StdRng::seed_from_u64(11);
    let mut twin = StdRng::seed_from_u64(11);
    let mut supplier = TetrominoSupplier::new();
    supplier.fill(&mut rng);
    let drawn: Vec<Tetromino> = (0..5).map(|_| Tetromino::gen(&mut twin)).collect();
    assert_eq!(preview(&supplier), drawn);
}

#[test]
fn fill_keeps_the_cursor_where_it_is() {
    let mut supplier = TetrominoSupplier::new();
    supplier.pop_with(Tetromino::O);
    supplier.pop_with(Tetromino::O);
    // The cursor is on the third slot now, so the preview starts there.
    supplier.fill_with([Tetromino::T, Tetromino::S, Tetromino::Z, Tetromino::L, Tetromino::J]);
    assert_eq!(
        preview(&supplier),
        vec![Tetromino::Z, Tetromino::L, Tetromino::J, Tetromino::T, Tetromino::S]
    );
}
