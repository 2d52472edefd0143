use nac::life::{
    acorn_pattern, field_size, glider_pattern, hash_seed, lwss_pattern, r_pentomino_pattern,
    random_blob_4x4, random_blob_5x5, random_blob_6x6, rotate_cell, rotated_dimensions,
    usize_le_bytes, wrap_index, wrap_index_signed, zone_grid, CellMutation, LifeGrid,
    PatternPlacement,
};

fn grid_with(width: usize, height: usize, live: &[(usize, usize)]) -> LifeGrid {
    let mut g = LifeGrid::new(width, height);
    for &(x, y) in live {
        g.set_alive(x, y);
    }
    g
}

fn live_cells(g: &LifeGrid) -> Vec<(usize, usize)> {
    let mut out = Vec::new();
    for y in 0..g.height() {
        for x in 0..g.width() {
            if g.is_alive(x, y) {
                out.push((x, y));
            }
        }
    }
    out
}

#[test]
fn wrapping_on_a_ring() {
    assert_eq!(wrap_index(0, -1, 10), 9);
    assert_eq!(wrap_index(9, 1, 10), 0);
    assert_eq!(wrap_index(4, 1, 10), 5);
    assert_eq!(wrap_index(3, -25, 10), 8);
    assert_eq!(wrap_index(5, 3, 0), 0);
    assert_eq!(wrap_index_signed(-1, 7), 6);
    assert_eq!(wrap_index_signed(-7, 7), 0);
    assert_eq!(wrap_index_signed(-8, 7), 6);
    assert_eq!(wrap_index_signed(15, 7), 1);
    assert_eq!(wrap_index_signed(isize::MIN, 10), 2);
    assert_eq!(wrap_index_signed(-3, 0), 0);
}

#[test]
fn rotations() {
    assert_eq!(rotated_dimensions(7, 3, 0), (7, 3));
    assert_eq!(rotated_dimensions(7, 3, 1), (3, 7));
    assert_eq!(rotated_dimensions(7, 3, 6), (7, 3));
    assert_eq!(rotate_cell(1, 0, 3, 3, 0), (1, 0));
    assert_eq!(rotate_cell(1, 0, 3, 3, 1), (2, 1));
    assert_eq!(rotate_cell(1, 0, 3, 3, 2), (1, 2));
    assert_eq!(rotate_cell(1, 0, 3, 3, 3), (0, 1));
    assert_eq!(rotate_cell(1, 0, 3, 3, 5), (2, 1));
    assert_eq!(rotate_cell(6, 2, 7, 3, 1), (0, 6));
    assert_eq!(rotate_cell(0, 0, 0, 0, 2), (0, 0));
}

#[test]
fn four_quarter_turns_come_back() {
    for y in 0..5 {
        for x in 0..5 {
            let mut c = (x, y);
            for _ in 0..4 {
                c = rotate_cell(c.0, c.1, 5, 5, 1);
            }
            assert_eq!(c, (x, y));
        }
    }
}

#[test]
fn neighbors_wrap_around_the_torus() {
    let g = grid_with(5, 5, &[(0, 0), (4, 4), (1, 0), (0, 4)]);
    assert_eq!(g.live_neighbor_count(0, 0), 3);
    assert_eq!(g.live_neighbor_count(4, 0), 3);
    assert_eq!(g.live_neighbor_count(2, 2), 0);
    assert_eq!(g.index(3, 2), 13);
    assert_eq!(g.cell_count(), 25);
}

#[test]
fn blinker_oscillates() {
    let mut g = grid_with(5, 5, &[(1, 2), (2, 2), (3, 2)]);
    let changed = g.step();
    assert_eq!(live_cells(&g), vec![(2, 1), (2, 2), (2, 3)]);
    assert_eq!(changed, vec![(2, 1), (1, 2), (3, 2), (2, 3)]);
    g.step();
    assert_eq!(live_cells(&g), vec![(1, 2), (2, 2), (3, 2)]);
}

#[test]
fn block_is_still_and_six_neighbours_give_birth() {
    let mut block = grid_with(6, 6, &[(1, 1), (2, 1), (1, 2), (2, 2)]);
    assert!(block.step().is_empty());
    assert_eq!(live_cells(&block), vec![(1, 1), (2, 1), (1, 2), (2, 2)]);

    // A live cell with six live neighbours dies.
    let live = [(1, 1), (2, 1), (3, 1), (1, 2), (2, 2), (1, 3), (3, 3)];
    let mut g = grid_with(8, 8, &live);
    assert_eq!(g.live_neighbor_count(2, 2), 6);
    g.step();
    assert!(!g.is_alive(2, 2));

    // A dead cell with six live neighbours is born.
    let live = [(1, 1), (2, 1), (3, 1), (1, 2), (1, 3), (3, 3)];
    let mut g = grid_with(8, 8, &live);
    assert!(!g.is_alive(2, 2));
    assert_eq!(g.live_neighbor_count(2, 2), 6);
    g.step();
    assert!(g.is_alive(2, 2));
}

#[test]
fn empty_grid_stays_empty() {
    let mut g = LifeGrid::new(0, 3);
    assert!(g.step().is_empty());
    let mut dead = LifeGrid::new(4, 4);
    assert!(dead.step().is_empty());
    assert!(live_cells(&dead).is_empty());
}

#[test]
fn braille_rendering() {
    let g = grid_with(4, 8, &[(0, 0), (1, 3), (2, 4)]);
    assert_eq!(g.braille_char(0, 0), '\u{2881}');
    assert_eq!(g.braille_char(2, 4), '\u{2801}');
    assert_eq!(g.braille_char(100, 100), '\u{2800}');
    let full = grid_with(2, 4, &[(0, 0), (0, 1), (0, 2), (0, 3), (1, 0), (1, 1), (1, 2), (1, 3)]);
    assert_eq!(full.braille_char(0, 0), '\u{28ff}');
    assert_eq!(g.render_rows(2, 2), vec!["\u{2881}\u{2800}".to_string(), "\u{2800}\u{2801}".to_string()]);
    assert!(g.render_rows(3, 0).is_empty());
}

#[test]
fn patterns_have_their_shapes() {
    let g = glider_pattern();
    assert_eq!((g.width, g.height), (3, 3));
    assert_eq!(g.cells, &[(1, 0), (2, 1), (0, 2), (1, 2), (2, 2)]);
    assert_eq!(r_pentomino_pattern().cells.len(), 5);
    assert_eq!((acorn_pattern().width, acorn_pattern().cells.len()), (7, 7));
    assert_eq!((lwss_pattern().width, lwss_pattern().height, lwss_pattern().cells.len()), (5, 4, 9));
    assert_eq!(random_blob_4x4().cells.len(), 8);
    assert_eq!(random_blob_5x5().cells.len(), 12);
    assert_eq!(random_blob_6x6().cells.len(), 16);
}

#[test]
fn placing_a_glider_with_rotation_flip_and_mutations() {
    let pattern = glider_pattern();
    let placement = PatternPlacement { pattern, dx: 9, dy: -1, rotation: 0, flip: false };
    let mut g = LifeGrid::new(10, 10);
    let keep = vec![CellMutation::Place; 5];
    g.place_pattern(&pattern, &placement, &keep);
    assert_eq!(live_cells(&g), vec![(1, 0), (0, 1), (1, 1), (9, 1), (0, 9)]);

    let mut h = LifeGrid::new(10, 10);
    let flipped = PatternPlacement { pattern, dx: 0, dy: 0, rotation: 1, flip: true };
    let muts = vec![
        CellMutation::Skip,
        CellMutation::Place,
        CellMutation::PlaceWithNeighbor { dx: 1, dy: 1 },
        CellMutation::Place,
        CellMutation::Place,
    ];
    h.place_pattern(&pattern, &flipped, &muts);
    let mut expected = vec![];
    for (i, &(px, py)) in pattern.cells.iter().enumerate() {
        let (rx, ry) = rotate_cell(px, py, 3, 3, 1);
        let (fx, fy) = (2 - rx, ry);
        if i != 0 {
            expected.push((fx, fy));
        }
        if i == 2 {
            expected.push((fx + 1, fy + 1));
        }
    }
    let mut got = live_cells(&h);
    got.sort();
    expected.sort();
    expected.dedup();
    assert_eq!(got, expected);
}

#[test]
fn blobs_do_not_wrap() {
    let mut g = LifeGrid::new(5, 5);
    let coins = vec![true, false, true, false, true, false, true, false, true];
    g.place_blob(3, 3, 3, &coins);
    assert_eq!(live_cells(&g), vec![(3, 3), (4, 4)]);
    let mut h = LifeGrid::new(5, 5);
    h.place_blob(0, 0, 3, &coins);
    assert_eq!(live_cells(&h), vec![(0, 0), (2, 0), (1, 1), (0, 2), (2, 2)]);
}

#[test]
fn field_sizes_and_zones() {
    assert_eq!(field_size(0, 0), (2, 4));
    assert_eq!(field_size(80, 3), (80, 4));
    assert_eq!(zone_grid(33, 16, 16, 16), (3, 1));
    assert_eq!(zone_grid(0, 1, 16, 16), (0, 1));
    let mut g = LifeGrid::new(0, 0);
    assert!(g.ensure_size(1, 1));
    assert_eq!((g.width(), g.height()), (2, 4));
    g.set_alive(1, 1);
    assert!(!g.ensure_size(0, 4));
    assert!(g.is_alive(1, 1));
    assert!(g.ensure_size(3, 4));
    assert!(live_cells(&g).is_empty());
}

#[test]
fn seeds_are_blake3_of_the_inputs() {
    let a = hash_seed("hello", 80, 24, "life-generator-v1");
    let b = hash_seed("hello", 80, 24, "life-generator-v1");
    let c = hash_seed("hello", 81, 24, "life-generator-v1");
    assert_eq!(a, b);
    assert_ne!(a, c);
    let mut hasher = blake3::Hasher::new();
    hasher.update(b"life-generator-v1");
    hasher.update(b"hello");
    hasher.update(&80usize.to_le_bytes());
    hasher.update(&24usize.to_le_bytes());
    let expected: [u8; 32] = hasher.finalize().into();
    assert_eq!(a, expected);
    assert_eq!(usize_le_bytes(0x0102), 0x0102usize.to_le_bytes().to_vec());
}
