use nac::life::zone_grid;
use nac::life::LifeGrid;
use nac::life_zones::{
    neighbor_zones, pattern_choices, pattern_of, pick_pattern, placement_span, zone_bounds, zone_census,
    PatternKind, ZoneClass,
};

fn snapshot(g: &LifeGrid) -> Vec<bool> {
    let mut out = Vec::new();
    for y in 0..g.height() {
        for x in 0..g.width() {
            out.push(g.is_alive(x, y));
        }
    }
    out
}

#[test]
fn zone_bounds_are_cut_at_the_edge() {
    let b = zone_bounds(1, 0, 16, 16, 20, 10);
    assert_eq!((b.x_start, b.x_end, b.y_start, b.y_end), (16, 20, 0, 10));
    let b = zone_bounds(0, 0, 16, 16, 40, 40);
    assert_eq!((b.x_start, b.x_end, b.y_start, b.y_end), (0, 16, 0, 16));
}

#[test]
fn census_counts_live_and_changed_cells() {
    // A blinker: three in a row turn into three in a column.
    let mut g = LifeGrid::new(6, 6);
    g.set_alive(1, 2);
    g.set_alive(2, 2);
    g.set_alive(3, 2);
    let before = snapshot(&g);
    g.step();
    let whole = zone_bounds(0, 0, 6, 6, 6, 6);
    let c = zone_census(&g, &before, &whole);
    assert_eq!((c.live, c.changed, c.area), (3, 4, 36));
    // The left half holds (1,2) gone and (2,1),(2,2),(2,3) after the step.
    let left = zone_bounds(0, 0, 3, 6, 6, 6);
    let c = zone_census(&g, &before, &left);
    assert_eq!((c.live, c.changed, c.area), (3, 3, 18));
    let right = zone_bounds(1, 0, 3, 6, 6, 6);
    let c = zone_census(&g, &before, &right);
    assert_eq!((c.live, c.changed, c.area), (0, 1, 18));
}

#[test]
fn census_of_an_unchanged_grid_sees_no_change() {
    let mut g = LifeGrid::new(4, 4);
    g.set_alive(0, 0);
    let same = snapshot(&g);
    let b = zone_bounds(0, 0, 2, 2, 4, 4);
    let c = zone_census(&g, &same, &b);
    assert_eq!((c.live, c.changed, c.area), (1, 0, 4));
}

#[test]
fn neighbour_zones_wrap_around() {
    assert_eq!(neighbor_zones(0, 0, 3, 3), vec![8, 6, 7, 2, 1, 5, 3, 4]);
    assert_eq!(neighbor_zones(1, 1, 3, 3), vec![0, 1, 2, 3, 5, 6, 7, 8]);
    assert_eq!(neighbor_zones(0, 0, 1, 1), vec![0; 8]);
}

#[test]
fn placement_spans_keep_a_margin() {
    assert_eq!(placement_span(0, 16, 3), Some((3, 13)));
    assert_eq!(placement_span(16, 32, 7), Some((20, 28)));
    assert_eq!(placement_span(0, 8, 4), None);
    assert_eq!(placement_span(0, 9, 4), Some((4, 5)));
}

#[test]
fn pattern_choices_by_zone() {
    assert_eq!(
        pattern_choices(ZoneClass::ColdEmpty),
        vec![
            PatternKind::RPentomino,
            PatternKind::Acorn,
            PatternKind::Glider,
            PatternKind::Lwss,
            PatternKind::Blob4,
            PatternKind::Blob5,
            PatternKind::Blob6
        ]
    );
    assert_eq!(pattern_choices(ZoneClass::ColdAsh).len(), 5);
    assert_eq!(pattern_choices(ZoneClass::ColdAsh)[0], PatternKind::Glider);
    assert_eq!(pattern_choices(ZoneClass::Other)[1], PatternKind::RPentomino);
    let choices = pattern_choices(ZoneClass::Other);
    assert_eq!(pick_pattern(&choices, 2), PatternKind::Acorn);
    assert_eq!(pick_pattern(&choices, 7), PatternKind::Glider);
    assert_eq!(pick_pattern(&Vec::new(), 0), PatternKind::Glider);
    let acorn = pattern_of(PatternKind::Acorn);
    assert_eq!((acorn.width, acorn.height, acorn.cells.len()), (7, 3, 7));
    let lwss = pattern_of(PatternKind::Lwss);
    assert_eq!((lwss.width, lwss.height), (5, 4));
}

#[test]
fn every_cell_lies_in_one_zone() {
    let (cols, rows) = zone_grid(40, 10, 16, 16);
    assert_eq!((cols, rows), (3, 1));
    for y in 0..10 {
        for x in 0..40 {
            let mut holders = 0;
            for zy in 0..rows {
                for zx in 0..cols {
                    let b = zone_bounds(zx, zy, 16, 16, 40, 10);
                    if b.x_start <= x && x < b.x_end && b.y_start <= y && y < b.y_end {
                        holders += 1;
                        assert_eq!((zx, zy), (x / 16, y / 16));
                    }
                }
            }
            assert_eq!(holders, 1);
        }
    }
}

#[test]
fn injections_come_every_interval() {
    use_due(0, 16, true);
    use_due(15, 16, false);
    use_due(32, 16, true);
    use_due(7, 1, true);
}

fn use_due(generation: u64, interval: u64, expected: bool) {
    assert_eq!(nac::life_zones::injection_due(generation, interval), expected);
}
