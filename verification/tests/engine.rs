use game_of_life::builder::BufBuilder;
use game_of_life::calc_grid_size;
use game_of_life::field::ConfigError;
use game_of_life::field::Field;

fn field_from(builder: &BufBuilder, w: usize, h: usize) -> Field {
    match Field::new(w, h, builder.build()) {
        Ok(f) => f,
        Err(_) => panic!("seed dimensions must match"),
    }
}

fn live_cells(f: &Field, w: usize, h: usize) -> Vec<(usize, usize)> {
    let mut live: Vec<(usize, usize)> = Vec::new();
    for y in 0..h {
        for x in 0..w {
            if f.get(x, y) {
                live.push((x, y));
            }
        }
    }
    live
}

#[test]
fn live_cell_with_two_neighbours_survives() {
    // A horizontal blinker: the center cell has exactly two live neighbours.
    let mut builder = BufBuilder::new(5, 5);
    builder.fill_rect(1, 2, 3, 1, true);
    let mut field = field_from(&builder, 5, 5);
    assert_eq!(field.get_live_neighbour_count(2, 2), 2);
    field.step();
    assert!(field.get(2, 2));
}

#[test]
fn live_cell_with_one_neighbour_dies() {
    // The ends of a horizontal blinker have exactly one live neighbour.
    let mut builder = BufBuilder::new(5, 5);
    builder.fill_rect(1, 2, 3, 1, true);
    let mut field = field_from(&builder, 5, 5);
    assert_eq!(field.get_live_neighbour_count(1, 2), 1);
    assert_eq!(field.get_live_neighbour_count(3, 2), 1);
    field.step();
    assert!(!field.get(1, 2));
    assert!(!field.get(3, 2));
}

#[test]
fn live_cell_with_four_neighbours_dies() {
    // A plus shape: the center cell is alive with four live neighbours.
    let mut builder = BufBuilder::new(7, 7);
    builder.fill_rect(3, 2, 1, 3, true);
    builder.fill_rect(2, 3, 3, 1, true);
    let mut field = field_from(&builder, 7, 7);
    assert!(field.get(3, 3));
    assert_eq!(field.get_live_neighbour_count(3, 3), 4);
    field.step();
    assert!(!field.get(3, 3));
}

#[test]
fn dead_cell_with_three_neighbours_is_born() {
    // Above the center of a horizontal blinker sit exactly three live cells.
    let mut builder = BufBuilder::new(5, 5);
    builder.fill_rect(1, 2, 3, 1, true);
    let mut field = field_from(&builder, 5, 5);
    assert!(!field.get(2, 1));
    assert_eq!(field.get_live_neighbour_count(2, 1), 3);
    field.step();
    assert!(field.get(2, 1));
}

#[test]
fn dead_cell_with_two_neighbours_stays_dead() {
    let mut builder = BufBuilder::new(5, 5);
    builder.fill_rect(1, 2, 2, 1, true);
    let mut field = field_from(&builder, 5, 5);
    assert!(!field.get(1, 1));
    assert_eq!(field.get_live_neighbour_count(1, 1), 2);
    field.step();
    assert!(!field.get(1, 1));
}

#[test]
fn blinker_oscillates_with_period_two() {
    let mut builder = BufBuilder::new(5, 5);
    builder.fill_rect(1, 2, 3, 1, true);
    let mut field = field_from(&builder, 5, 5);
    field.step();
    assert_eq!(live_cells(&field, 5, 5), vec![(2, 1), (2, 2), (2, 3)]);
    field.step();
    assert_eq!(live_cells(&field, 5, 5), vec![(1, 2), (2, 2), (3, 2)]);
}

#[test]
fn toroidal_corner_counts_wrapped_neighbours() {
    // The cells (4,4), (0,4) and (4,0) are the diagonal, vertical and
    // horizontal wrapped neighbours of (0,0) in a 5x5 grid.
    let mut builder = BufBuilder::new(5, 5);
    builder.fill_rect(4, 4, 1, 1, true);
    builder.fill_rect(0, 4, 1, 1, true);
    builder.fill_rect(4, 0, 1, 1, true);
    let mut field = field_from(&builder, 5, 5);
    assert_eq!(field.get_live_neighbour_count(0, 0), 3);
    field.step();
    assert!(field.get(0, 0));
}

#[test]
fn toroidal_wrap_applies_on_every_edge() {
    // A horizontal blinker laid across the right edge of the grid.
    let mut builder = BufBuilder::new(6, 6);
    builder.fill_rect(5, 3, 1, 1, true);
    builder.fill_rect(0, 3, 1, 1, true);
    builder.fill_rect(1, 3, 1, 1, true);
    let mut field = field_from(&builder, 6, 6);
    assert_eq!(field.get_live_neighbour_count(0, 3), 2);
    field.step();
    // It turns vertical around its center (0,3).
    assert_eq!(live_cells(&field, 6, 6), vec![(0, 2), (0, 3), (0, 4)]);
}

#[test]
fn step_is_deterministic() {
    // Two independently constructed engines over identical seeds stay
    // bit-identical through several generations.
    let mut builder_a = BufBuilder::new(16, 16);
    builder_a.place_pentadecathlon(6, 4);
    let mut builder_b = BufBuilder::new(16, 16);
    builder_b.place_pentadecathlon(6, 4);
    let mut field_a = field_from(&builder_a, 16, 16);
    let mut field_b = field_from(&builder_b, 16, 16);
    for _ in 0..6 {
        field_a.step();
        field_b.step();
        assert_eq!(live_cells(&field_a, 16, 16), live_cells(&field_b, 16, 16));
    }
}

#[test]
fn glider_translates_one_diagonal_in_four_steps() {
    let mut builder = BufBuilder::new(5, 5);
    builder.place_glider(0, 0);
    let mut field = field_from(&builder, 5, 5);
    for _ in 0..4 {
        field.step();
    }
    let offsets: [(usize, usize); 5] = [(2, 0), (0, 1), (2, 1), (1, 2), (2, 2)];
    let mut expected: Vec<(usize, usize)> = Vec::new();
    for &(dx, dy) in offsets.iter() {
        expected.push(((dx + 1) % 5, (dy + 1) % 5));
    }
    expected.sort();
    let mut actual = live_cells(&field, 5, 5);
    actual.sort();
    assert_eq!(actual, expected);
}

#[test]
fn block_is_a_still_life() {
    let mut builder = BufBuilder::new(6, 6);
    builder.fill_rect(2, 2, 2, 2, true);
    let mut field = field_from(&builder, 6, 6);
    let block: Vec<(usize, usize)> = vec![(2, 2), (3, 2), (2, 3), (3, 3)];
    // Each corner cell has exactly three live neighbours within the block.
    assert_eq!(field.get_live_neighbour_count(2, 2), 3);
    assert_eq!(field.get_live_neighbour_count(3, 2), 3);
    assert_eq!(field.get_live_neighbour_count(2, 3), 3);
    assert_eq!(field.get_live_neighbour_count(3, 3), 3);
    for _ in 0..10 {
        field.step();
        assert_eq!(live_cells(&field, 6, 6), block);
    }
}

#[test]
fn construction_rejects_mismatched_seed() {
    let builder = BufBuilder::new(3, 3);
    let r = Field::new(4, 3, builder.build());
    match r {
        Ok(_) => panic!("a seed of the wrong width must be rejected"),
        Err(e) => assert_eq!(e, ConfigError::DimensionMismatch),
    }
    let r2 = Field::new(3, 5, builder.build());
    assert!(r2.is_err());
}

#[test]
fn construction_accepts_matching_seed() {
    let mut builder = BufBuilder::new(4, 3);
    builder.fill_rect(1, 1, 2, 1, true);
    let field = match Field::new(4, 3, builder.build()) {
        Ok(f) => f,
        Err(_) => panic!("a matching seed must be accepted"),
    };
    assert!(field.get(1, 1));
    assert!(field.get(2, 1));
    assert!(!field.get(0, 0));
}

#[test]
fn calc_grid_size_multiplies_counts_by_steps() {
    assert_eq!(calc_grid_size((80, 80), (10, 10)), (800, 800));
    assert_eq!(calc_grid_size((3, 7), (2, 5)), (6, 35));
    assert_eq!(calc_grid_size((0, 0), (10, 10)), (0, 0));
}
