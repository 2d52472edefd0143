//! The zones of the life field: the rectangles it is cut into for watching
//! activity, what each holds, and the choices made when a zone is seeded.
use vstd::prelude::*;

use vstd::arithmetic::div_mod::{lemma_fundamental_div_mod, lemma_fundamental_div_mod_converse};

use crate::life::{
    acorn_pattern, glider_pattern, lwss_pattern, r_pentomino_pattern, random_blob_4x4, random_blob_5x5,
    random_blob_6x6, wrap_index, LifeGrid, SeedPattern,
};

verus! {

/// The cells of one zone: columns `x_start..x_end` and rows `y_start..y_end`.
#[derive(Clone, Copy, Debug)]
pub struct ZoneBounds {
    pub x_start: usize,
    pub y_start: usize,
    pub x_end: usize,
    pub y_end: usize,
}

/// The smaller of two integers.
pub open spec fn min_int(a: int, b: int) -> int {
    if a < b {
        a
    } else {
        b
    }
}

/// The cells of zone `(zx, zy)` when zones are `zone_width` by `zone_height`
/// cells, cut short at the edge of a `width` by `height` field.
pub fn zone_bounds(zx: usize, zy: usize, zone_width: usize, zone_height: usize, width: usize, height: usize) -> (r: ZoneBounds)
    requires
        zx * zone_width + zone_width <= usize::MAX,
        zy * zone_height + zone_height <= usize::MAX,
    ensures
        r.x_start == zx * zone_width,
        r.y_start == zy * zone_height,
        r.x_end == min_int(zx * zone_width + zone_width, width as int),
        r.y_end == min_int(zy * zone_height + zone_height, height as int),
{
    proof {
        assert(0 <= zx * zone_width) by (nonlinear_arith);
        assert(0 <= zy * zone_height) by (nonlinear_arith);
    }
    let x_start = zx * zone_width;
    let y_start = zy * zone_height;
    let x_stop = x_start + zone_width;
    let y_stop = y_start + zone_height;
    ZoneBounds {
        x_start,
        y_start,
        x_end: if x_stop < width { x_stop } else { width },
        y_end: if y_stop < height { y_stop } else { height },
    }
}

proof fn lemma_zone_of(x: int, zone: int, size: int, z: int)
    requires
        0 <= x < size,
        zone > 0,
    ensures
        (x / zone) * zone <= x < (x / zone) * zone + zone,
        0 <= x / zone < (size + zone - 1) / zone,
        z * zone <= x < z * zone + zone ==> z == x / zone,
{
    lemma_fundamental_div_mod(x, zone);
    assert((x / zone) * zone == zone * (x / zone)) by (nonlinear_arith);
    assert(0 <= x / zone) by (nonlinear_arith)
        requires
            0 <= x,
            zone > 0,
            x == zone * (x / zone) + x % zone,
            0 <= x % zone < zone,
    ;
    let q = x / zone;
    let top = size + zone - 1;
    lemma_fundamental_div_mod(top, zone);
    assert(q < top / zone) by (nonlinear_arith)
        requires
            x == zone * q + x % zone,
            0 <= x % zone < zone,
            top == zone * (top / zone) + top % zone,
            0 <= top % zone < zone,
            x < size,
            top == size + zone - 1,
            zone > 0,
    ;
    if z * zone <= x < z * zone + zone {
        lemma_fundamental_div_mod_converse(x, zone, z, x - z * zone);
    }
}

/// The zones tile the field: every cell `(x, y)` of a `width` by `height`
/// field lies in zone `(x / zone_width, y / zone_height)`, which is one of
/// the zones that `zone_grid` counts and whose bounds hold the cell; and a
/// zone `(zx, zy)` whose bounds hold the cell is that one.
pub proof fn law_zones_tile_the_field(
    x: int,
    y: int,
    zone_width: int,
    zone_height: int,
    width: int,
    height: int,
    zx: int,
    zy: int,
)
    requires
        0 <= x < width,
        0 <= y < height,
        zone_width > 0,
        zone_height > 0,
    ensures
        ({
            let (cx, cy) = (x / zone_width, y / zone_height);
            &&& 0 <= cx < (width + zone_width - 1) / zone_width
            &&& 0 <= cy < (height + zone_height - 1) / zone_height
            &&& cx * zone_width <= x < min_int(cx * zone_width + zone_width, width)
            &&& cy * zone_height <= y < min_int(cy * zone_height + zone_height, height)
        }),
        zx * zone_width <= x < min_int(zx * zone_width + zone_width, width) && zy * zone_height <= y < min_int(
            zy * zone_height + zone_height,
            height,
        ) ==> zx == x / zone_width && zy == y / zone_height,
{
    lemma_zone_of(x, zone_width, width, zx);
    lemma_zone_of(y, zone_height, height, zy);
}

/// How many of the cells `x0..x1` of row `y` are set, in cells stored row
/// after row, `width` to a row.
pub open spec fn count_row(cells: Seq<bool>, width: int, y: int, x0: int, x1: int) -> nat
    decreases x1 - x0,
{
    if x1 <= x0 {
        0
    } else {
        count_row(cells, width, y, x0, x1 - 1) + if cells[y * width + x1 - 1] {
            1nat
        } else {
            0nat
        }
    }
}

/// How many of the cells in columns `x0..x1` and rows `y0..y1` are set.
pub open spec fn count_rect(cells: Seq<bool>, width: int, x0: int, x1: int, y0: int, y1: int) -> nat
    decreases y1 - y0,
{
    if y1 <= y0 {
        0
    } else {
        count_rect(cells, width, x0, x1, y0, y1 - 1) + count_row(cells, width, y1 - 1, x0, x1)
    }
}

/// Which cells differ between two generations.
pub open spec fn differences(old: Seq<bool>, new: Seq<bool>) -> Seq<bool> {
    Seq::new(new.len(), |k: int| old[k] != new[k])
}

proof fn lemma_count_row_bound(cells: Seq<bool>, width: int, y: int, x0: int, x1: int)
    requires
        x0 <= x1,
    ensures
        count_row(cells, width, y, x0, x1) <= x1 - x0,
    decreases x1 - x0,
{
    if x0 < x1 {
        lemma_count_row_bound(cells, width, y, x0, x1 - 1);
    }
}

proof fn lemma_count_rect_bound(cells: Seq<bool>, width: int, x0: int, x1: int, y0: int, y1: int)
    requires
        x0 <= x1,
        y0 <= y1,
    ensures
        count_rect(cells, width, x0, x1, y0, y1) <= (y1 - y0) * (x1 - x0),
    decreases y1 - y0,
{
    if y0 < y1 {
        lemma_count_rect_bound(cells, width, x0, x1, y0, y1 - 1);
        lemma_count_row_bound(cells, width, y1 - 1, x0, x1);
        assert((y1 - 1 - y0) * (x1 - x0) + (x1 - x0) == (y1 - y0) * (x1 - x0)) by (nonlinear_arith);
    }
}

proof fn lemma_area_fits(x0: int, x1: int, y0: int, y1: int, width: int, height: int)
    requires
        0 <= x0 <= x1 <= width,
        0 <= y0 <= y1 <= height,
    ensures
        (y1 - y0) * (x1 - x0) <= width * height,
        0 <= (y1 - y0) * (x1 - x0),
{
    assert((y1 - y0) * (x1 - x0) <= height * (x1 - x0)) by (nonlinear_arith)
        requires
            0 <= y1 - y0 <= height,
            0 <= x1 - x0,
    ;
    assert(height * (x1 - x0) <= height * width) by (nonlinear_arith)
        requires
            0 <= x1 - x0 <= width,
            0 <= height,
    ;
    assert(0 <= (y1 - y0) * (x1 - x0)) by (nonlinear_arith)
        requires
            0 <= y1 - y0,
            0 <= x1 - x0,
    ;
    assert(height * width == width * height) by (nonlinear_arith);
}

/// What a zone holds: its live cells, the cells that changed in the last
/// generation, and its number of cells.
#[derive(Clone, Copy, Debug)]
pub struct ZoneCensus {
    pub live: usize,
    pub changed: usize,
    pub area: usize,
}

/// Counts the live cells of the zone `b` of `grid`, the cells of it that
/// differ from `previous` (the grid's cells one generation before), and its
/// number of cells.
pub fn zone_census(grid: &LifeGrid, previous: &Vec<bool>, b: &ZoneBounds) -> (r: ZoneCensus)
    requires
        previous@.len() == grid@.cells.len(),
        b.x_start <= b.x_end <= grid@.width,
        b.y_start <= b.y_end <= grid@.height,
    ensures
        r.live == count_rect(grid@.cells, grid@.width as int, b.x_start as int, b.x_end as int, b.y_start as int, b.y_end as int),
        r.changed == count_rect(
            differences(previous@, grid@.cells),
            grid@.width as int,
            b.x_start as int,
            b.x_end as int,
            b.y_start as int,
            b.y_end as int,
        ),
        r.area == (b.x_end - b.x_start) * (b.y_end - b.y_start),
{
    let width = grid.width();
    let total = grid.cell_count();
    let ghost cells = grid@.cells;
    let ghost diffs = differences(previous@, grid@.cells);
    let ghost w = width as int;
    let ghost (x0, x1, y0, y1) = (b.x_start as int, b.x_end as int, b.y_start as int, b.y_end as int);
    proof {
        lemma_area_fits(x0, x1, y0, y1, grid@.width as int, grid@.height as int);
    }
    let mut live: usize = 0;
    let mut changed: usize = 0;
    let mut y = b.y_start;
    while y < b.y_end
        invariant
            y0 <= y <= y1,
            b.x_start <= b.x_end <= grid@.width,
            b.y_start <= b.y_end <= grid@.height,
            (x0, x1, y0, y1) == (b.x_start as int, b.x_end as int, b.y_start as int, b.y_end as int),
            w == grid@.width,
            width == grid@.width,
            cells == grid@.cells,
            diffs == differences(previous@, grid@.cells),
            previous@.len() == grid@.cells.len(),
            total == grid@.width * grid@.height,
            grid@.cells.len() == total,
            (y1 - y0) * (x1 - x0) <= total,
            live == count_rect(cells, w, x0, x1, y0, y as int),
            changed == count_rect(diffs, w, x0, x1, y0, y as int),
        decreases b.y_end - y,
    {
        let mut row_live: usize = 0;
        let mut row_changed: usize = 0;
        let mut x = b.x_start;
        while x < b.x_end
            invariant
                y0 <= y < y1,
                x0 <= x <= x1,
                b.x_start <= b.x_end <= grid@.width,
                b.y_end <= grid@.height,
                (x0, x1) == (b.x_start as int, b.x_end as int),
                y1 == b.y_end,
                w == grid@.width,
                width == grid@.width,
                cells == grid@.cells,
                diffs == differences(previous@, grid@.cells),
                previous@.len() == grid@.cells.len(),
                total == grid@.width * grid@.height,
                grid@.cells.len() == total,
                row_live == count_row(cells, w, y as int, x0, x as int),
                row_changed == count_row(diffs, w, y as int, x0, x as int),
                row_live <= x - x0,
                row_changed <= x - x0,
            decreases b.x_end - x,
        {
            proof {
                crate::life::lemma_cell_index(x as int, y as int, grid@.width as int, grid@.height as int);
            }
            let k = grid.index(x, y);
            let now = grid.is_alive(x, y);
            if now {
                row_live = row_live + 1;
            }
            if previous[k] != now {
                row_changed = row_changed + 1;
            }
            x = x + 1;
        }
        proof {
            lemma_count_rect_bound(cells, w, x0, x1, y0, y + 1);
            lemma_count_rect_bound(diffs, w, x0, x1, y0, y + 1);
            assert((y + 1 - y0) * (x1 - x0) <= (y1 - y0) * (x1 - x0)) by (nonlinear_arith)
                requires
                    y + 1 <= y1,
                    0 <= x1 - x0,
            ;
        }
        live = live + row_live;
        changed = changed + row_changed;
        y = y + 1;
    }
    proof {
        assert((x1 - x0) * (y1 - y0) == (y1 - y0) * (x1 - x0)) by (nonlinear_arith);
        assert((b.x_end - b.x_start) * (b.y_end - b.y_start) <= usize::MAX);
    }
    let area = (b.x_end - b.x_start) * (b.y_end - b.y_start);
    ZoneCensus { live, changed, area }
}

/// The offset `(dx, dy)` of the `i`-th of the eight zones around a zone,
/// row by row from the top left.
pub open spec fn neighbor_offset(i: int) -> (int, int) {
    let j = if i < 4 {
        i
    } else {
        i + 1
    };
    (j % 3 - 1, j / 3 - 1)
}

/// The index of the `i`-th neighbour of zone `(zx, zy)` among `cols` by
/// `rows` zones stored row after row; the zones wrap around at the edges.
pub open spec fn neighbor_zone(zx: int, zy: int, cols: int, rows: int, i: int) -> int {
    let (dx, dy) = neighbor_offset(i);
    ((zy + dy) % rows) * cols + (zx + dx) % cols
}

/// The index of the zone at offset `(dx, dy)` from zone `(zx, zy)`.
fn zone_at(zx: usize, zy: usize, dx: isize, dy: isize, cols: usize, rows: usize) -> (r: usize)
    requires
        0 < cols <= isize::MAX,
        0 < rows <= isize::MAX,
        zx < cols,
        zy < rows,
        -1 <= dx <= 1,
        -1 <= dy <= 1,
        cols * rows <= usize::MAX,
    ensures
        r == ((zy + dy) % (rows as int)) * cols + (zx + dx) % (cols as int),
        r < cols * rows,
{
    let nx = wrap_index(zx, dx, cols);
    let ny = wrap_index(zy, dy, rows);
    proof {
        crate::life::lemma_cell_index(nx as int, ny as int, cols as int, rows as int);
    }
    ny * cols + nx
}

/// The indices of the eight zones around zone `(zx, zy)`, row by row from
/// the top left, among `cols` by `rows` zones that wrap around.
pub fn neighbor_zones(zx: usize, zy: usize, cols: usize, rows: usize) -> (r: Vec<usize>)
    requires
        0 < cols <= isize::MAX,
        0 < rows <= isize::MAX,
        zx < cols,
        zy < rows,
        cols * rows <= usize::MAX,
    ensures
        r@.len() == 8,
        forall|i: int| 0 <= i < 8 ==> #[trigger] r@[i] == neighbor_zone(zx as int, zy as int, cols as int, rows as int, i),
        forall|i: int| 0 <= i < 8 ==> #[trigger] r@[i] < cols * rows,
{
    let r = vec![
        zone_at(zx, zy, -1, -1, cols, rows),
        zone_at(zx, zy, 0, -1, cols, rows),
        zone_at(zx, zy, 1, -1, cols, rows),
        zone_at(zx, zy, -1, 0, cols, rows),
        zone_at(zx, zy, 1, 0, cols, rows),
        zone_at(zx, zy, -1, 1, cols, rows),
        zone_at(zx, zy, 0, 1, cols, rows),
        zone_at(zx, zy, 1, 1, cols, rows),
    ];
    assert forall|i: int| 0 <= i < 8 implies #[trigger] r@[i] == neighbor_zone(zx as int, zy as int, cols as int, rows as int, i) by {
        assert(neighbor_offset(0) == (-1int, -1int));
        assert(neighbor_offset(1) == (0int, -1int));
        assert(neighbor_offset(2) == (1int, -1int));
        assert(neighbor_offset(3) == (-1int, 0int));
        assert(neighbor_offset(4) == (1int, 0int));
        assert(neighbor_offset(5) == (-1int, 1int));
        assert(neighbor_offset(6) == (0int, 1int));
        assert(neighbor_offset(7) == (1int, 1int));
    }
    r
}

/// Where in `start..end` a pattern `size` cells long may be put so as to keep
/// a margin of `min(size, 4)` cells on either side: the range of its first
/// cell, or `None` when the span is too short and the pattern goes at `start`.
pub fn placement_span(start: usize, end: usize, size: usize) -> (r: Option<(usize, usize)>)
    requires
        start + 8 <= usize::MAX,
    ensures
        ({
            let margin = min_int(size as int, 4);
            if end > start + 2 * margin {
                r == Some(((start + margin) as usize, (end - margin) as usize))
            } else {
                r is None
            }
        }),
{
    let margin = if size < 4 { size } else { 4 };
    if end > start + margin * 2 {
        Some((start + margin, end - margin))
    } else {
        None
    }
}

/// The seed patterns by name.
#[derive(Clone, Copy, Debug, PartialEq, Eq, Structural)]
pub enum PatternKind {
    Glider,
    RPentomino,
    Acorn,
    Lwss,
    Blob4,
    Blob5,
    Blob6,
}

/// The width, height and live cells of each seed pattern.
pub open spec fn shape(kind: PatternKind) -> (usize, usize, Seq<(usize, usize)>) {
    match kind {
        PatternKind::Glider => (3, 3, seq![(1usize, 0usize), (2, 1), (0, 2), (1, 2), (2, 2)]),
        PatternKind::RPentomino => (3, 3, seq![(1usize, 0usize), (2, 0), (0, 1), (1, 1), (1, 2)]),
        PatternKind::Acorn => (7, 3, seq![(1usize, 0usize), (3, 1), (0, 2), (1, 2), (4, 2), (5, 2), (6, 2)]),
        PatternKind::Lwss => (5, 4, seq![(1usize, 0usize), (2, 0), (3, 0), (4, 0), (0, 1), (4, 1), (4, 2), (0, 3), (3, 3)]),
        PatternKind::Blob4 => (4, 4, seq![(1usize, 0usize), (2, 0), (0, 1), (3, 1), (1, 2), (2, 2), (0, 3), (3, 3)]),
        PatternKind::Blob5 => (
            5,
            5,
            seq![(1usize, 0usize), (3, 0), (0, 1), (2, 1), (4, 1), (1, 2), (3, 2), (0, 3), (2, 3), (4, 3), (1, 4), (3, 4)],
        ),
        PatternKind::Blob6 => (
            6,
            6,
            seq![
                (1usize, 0usize), (4, 0), (0, 1), (2, 1), (3, 1), (5, 1), (1, 2), (4, 2), (1, 3), (4, 3), (0, 4),
                (2, 4), (3, 4), (5, 4), (1, 5), (4, 5),
            ],
        ),
    }
}

/// The seed pattern of a kind.
pub fn pattern_of(kind: PatternKind) -> (r: SeedPattern)
    ensures
        (r.width, r.height, r.cells@) == shape(kind),
{
    match kind {
        PatternKind::Glider => glider_pattern(),
        PatternKind::RPentomino => r_pentomino_pattern(),
        PatternKind::Acorn => acorn_pattern(),
        PatternKind::Lwss => lwss_pattern(),
        PatternKind::Blob4 => random_blob_4x4(),
        PatternKind::Blob5 => random_blob_5x5(),
        PatternKind::Blob6 => random_blob_6x6(),
    }
}

/// How a zone stands when it is to be seeded: cold and nearly empty, cold
/// with scattered debris, or otherwise.
#[derive(Clone, Copy, Debug, PartialEq, Eq, Structural)]
pub enum ZoneClass {
    ColdEmpty,
    ColdAsh,
    Other,
}

/// The patterns a zone may be seeded with: every pattern, methuselahs first,
/// for a cold empty zone; the moving ones and the blobs for a cold zone with
/// debris; every pattern otherwise.
pub open spec fn choices_for(class: ZoneClass) -> Seq<PatternKind> {
    match class {
        ZoneClass::ColdEmpty => seq![
            PatternKind::RPentomino,
            PatternKind::Acorn,
            PatternKind::Glider,
            PatternKind::Lwss,
            PatternKind::Blob4,
            PatternKind::Blob5,
            PatternKind::Blob6,
        ],
        ZoneClass::ColdAsh => seq![
            PatternKind::Glider,
            PatternKind::Lwss,
            PatternKind::Blob4,
            PatternKind::Blob5,
            PatternKind::Blob6,
        ],
        ZoneClass::Other => seq![
            PatternKind::Glider,
            PatternKind::RPentomino,
            PatternKind::Acorn,
            PatternKind::Lwss,
            PatternKind::Blob4,
            PatternKind::Blob5,
            PatternKind::Blob6,
        ],
    }
}

/// The patterns a zone of class `class` may be seeded with.
pub fn pattern_choices(class: ZoneClass) -> (r: Vec<PatternKind>)
    ensures
        r@ == choices_for(class),
{
    match class {
        ZoneClass::ColdEmpty => vec![
            PatternKind::RPentomino,
            PatternKind::Acorn,
            PatternKind::Glider,
            PatternKind::Lwss,
            PatternKind::Blob4,
            PatternKind::Blob5,
            PatternKind::Blob6,
        ],
        ZoneClass::ColdAsh => vec![
            PatternKind::Glider,
            PatternKind::Lwss,
            PatternKind::Blob4,
            PatternKind::Blob5,
            PatternKind::Blob6,
        ],
        ZoneClass::Other => vec![
            PatternKind::Glider,
            PatternKind::RPentomino,
            PatternKind::Acorn,
            PatternKind::Lwss,
            PatternKind::Blob4,
            PatternKind::Blob5,
            PatternKind::Blob6,
        ],
    }
}

/// The pattern drawn at position `draw` of `choices`; the glider when there
/// is none there.
pub fn pick_pattern(choices: &Vec<PatternKind>, draw: usize) -> (r: PatternKind)
    ensures
        draw < choices@.len() ==> r == choices@[draw as int],
        draw >= choices@.len() ==> r == PatternKind::Glider,
{
    if draw < choices.len() {
        choices[draw]
    } else {
        PatternKind::Glider
    }
}

/// Whether the field checks for an injection at generation `generation`:
/// once every `check_interval` generations.
pub fn injection_due(generation: u64, check_interval: u64) -> (r: bool)
    requires
        check_interval > 0,
    ensures
        r == (generation % check_interval == 0),
{
    generation % check_interval == 0
}

} // verus!
