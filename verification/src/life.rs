//! The cellular automaton behind the animated background: a toroidal grid of
//! cells, its generation rule, the seed patterns placed on it and its
//! rendering as Braille characters.
//!
//! The rule is HighLife's: a live cell with two or three live neighbours
//! lives on; a dead cell with three or six comes alive. Each Braille
//! character shows a block of two columns by four rows.
use vstd::prelude::*;

use vstd::arithmetic::div_mod::{lemma_fundamental_div_mod, lemma_fundamental_div_mod_converse};

use crate::text::push_char;

verus! {

/// `a` modulo `m`, in `[0, m)`.
fn euclid_mod(a: isize, m: usize) -> (r: usize)
    requires
        0 < m <= isize::MAX,
    ensures
        r as int == (a as int) % (m as int),
        r < m,
{
    if a >= 0 {
        (a as usize) % m
    } else {
        let b: usize = (-(a + 1)) as usize;
        let s: usize = b % m;
        proof {
            let q = (b as int) / (m as int);
            lemma_fundamental_div_mod(b as int, m as int);
            assert(a as int == (-(q + 1)) * (m as int) + ((m as int) - 1 - (s as int))) by (nonlinear_arith)
                requires
                    b as int == (m as int) * q + (s as int),
                    a as int == -(b as int) - 1,
            ;
            lemma_fundamental_div_mod_converse(a as int, m as int, -(q + 1), (m as int) - 1 - (s as int));
        }
        m - 1 - s
    }
}

/// Moves `index` by `delta` on a ring of `len` positions; 0 on an empty ring.
pub fn wrap_index(index: usize, delta: isize, len: usize) -> (r: usize)
    requires
        index <= isize::MAX,
        isize::MIN <= index + delta <= isize::MAX,
        len <= isize::MAX,
    ensures
        len == 0 ==> r == 0,
        len > 0 ==> r as int == (index + delta) % (len as int),
        len > 0 ==> r < len,
{
    if len == 0 {
        return 0;
    }
    euclid_mod(index as isize + delta, len)
}

/// Puts a signed position on a ring of `len` positions; 0 on an empty ring.
pub fn wrap_index_signed(index: isize, len: usize) -> (r: usize)
    requires
        len <= isize::MAX,
    ensures
        len == 0 ==> r == 0,
        len > 0 ==> r as int == (index as int) % (len as int),
        len > 0 ==> r < len,
{
    if len == 0 {
        return 0;
    }
    euclid_mod(index, len)
}

/// The width and height of a `width` by `height` block after `rotation`
/// quarter turns.
pub fn rotated_dimensions(width: usize, height: usize, rotation: u8) -> (r: (usize, usize))
    ensures
        r == (if rotation % 2 == 0 {
            (width, height)
        } else {
            (height, width)
        }),
{
    if rotation % 2 == 0 {
        (width, height)
    } else {
        (height, width)
    }
}

/// `a - b`, or 0 when `b` is larger.
pub open spec fn sat_sub(a: int, b: int) -> int {
    if a >= b {
        a - b
    } else {
        0
    }
}

/// Where the cell `(x, y)` of a `width` by `height` block goes after
/// `rotation` quarter turns (only the rotation modulo 4 counts).
pub open spec fn rotated_cell(x: int, y: int, width: int, height: int, rotation: int) -> (int, int) {
    if rotation % 4 == 0 {
        (x, y)
    } else if rotation % 4 == 1 {
        (sat_sub(sat_sub(height, 1), y), x)
    } else if rotation % 4 == 2 {
        (sat_sub(sat_sub(width, 1), x), sat_sub(sat_sub(height, 1), y))
    } else {
        (y, sat_sub(sat_sub(width, 1), x))
    }
}

/// Where the cell `(x, y)` of a `width` by `height` block goes after
/// `rotation` quarter turns.
pub fn rotate_cell(x: usize, y: usize, width: usize, height: usize, rotation: u8) -> (r: (usize, usize))
    ensures
        (r.0 as int, r.1 as int) == rotated_cell(x as int, y as int, width as int, height as int, rotation as int),
{
    match rotation % 4 {
        0 => (x, y),
        1 => (height.saturating_sub(1).saturating_sub(y), x),
        2 => (width.saturating_sub(1).saturating_sub(x), height.saturating_sub(1).saturating_sub(y)),
        _ => (y, width.saturating_sub(1).saturating_sub(x)),
    }
}

/// A rotated cell of a block stays inside the rotated block.
pub proof fn law_rotation_stays_inside(x: int, y: int, width: int, height: int, rotation: int)
    requires
        0 <= x < width,
        0 <= y < height,
        0 <= rotation,
    ensures
        ({
            let (w, h) = if rotation % 2 == 0 {
                (width, height)
            } else {
                (height, width)
            };
            let (rx, ry) = rotated_cell(x, y, width, height, rotation);
            0 <= rx < w && 0 <= ry < h
        }),
{
    assert(rotation % 4 == 0 || rotation % 4 == 2 <==> rotation % 2 == 0) by (nonlinear_arith)
        requires
            0 <= rotation,
    ;
}

/// Four quarter turns bring every cell of a square block back where it was.
pub proof fn law_four_turns_are_identity(x: int, y: int, n: int)
    requires
        0 <= x < n,
        0 <= y < n,
    ensures
        ({
            let c1 = rotated_cell(x, y, n, n, 1);
            let c2 = rotated_cell(c1.0, c1.1, n, n, 1);
            let c3 = rotated_cell(c2.0, c2.1, n, n, 1);
            rotated_cell(c3.0, c3.1, n, n, 1) == (x, y)
        }),
{
}

/// A grid by its width, its height and its cells, row after row.
pub struct GridView {
    pub width: nat,
    pub height: nat,
    pub cells: Seq<bool>,
}

/// Whether the cell `(x, y)` of a grid is alive.
pub open spec fn cell_at(g: GridView, x: int, y: int) -> bool {
    g.cells[y * g.width + x]
}

/// 1 when the cell at `(x + dx, y + dy)` is alive, on the torus; else 0.
pub open spec fn live_at(g: GridView, x: int, y: int, dx: int, dy: int) -> int {
    if cell_at(g, (x + dx) % (g.width as int), (y + dy) % (g.height as int)) {
        1
    } else {
        0
    }
}

/// How many of the eight cells around `(x, y)` are alive, on the torus.
pub open spec fn neighbors(g: GridView, x: int, y: int) -> int {
    live_at(g, x, y, -1, -1) + live_at(g, x, y, 0, -1) + live_at(g, x, y, 1, -1) + live_at(g, x, y, -1, 0)
        + live_at(g, x, y, 1, 0) + live_at(g, x, y, -1, 1) + live_at(g, x, y, 0, 1) + live_at(g, x, y, 1, 1)
}

/// Whether a cell is alive in the next generation (HighLife): a live cell
/// with 2 or 3 live neighbours survives; a dead cell with 3 or 6 is born.
pub open spec fn next_alive(alive: bool, n: int) -> bool {
    if alive {
        n == 2 || n == 3
    } else {
        n == 3 || n == 6
    }
}

/// The cells of the next generation of a grid.
pub open spec fn next_generation(g: GridView) -> Seq<bool> {
    Seq::new(
        g.cells.len(),
        |k: int| next_alive(g.cells[k], neighbors(g, k % (g.width as int), k / (g.width as int))),
    )
}

/// The positions `(x, y)`, in row order, of the first `n` cells that differ
/// between two generations of a grid `width` cells wide.
pub open spec fn changed_cells(old: Seq<bool>, new: Seq<bool>, width: nat, n: nat) -> Seq<(usize, usize)>
    decreases n,
{
    if n == 0 {
        Seq::empty()
    } else {
        let k = (n - 1) as nat;
        let rest = changed_cells(old, new, width, k);
        if old[k as int] != new[k as int] {
            rest.push(((k % width) as usize, (k / width) as usize))
        } else {
            rest
        }
    }
}

/// A grid with no live cell stays without one: nothing is born of nothing.
pub proof fn law_dead_grid_stays_dead(g: GridView)
    requires
        g.width > 0,
        g.height > 0,
        g.cells.len() == g.width * g.height,
        forall|k: int| 0 <= k < g.cells.len() ==> !g.cells[k],
    ensures
        next_generation(g) =~= g.cells,
{
    let w = g.width as int;
    let h = g.height as int;
    assert forall|k: int| 0 <= k < g.cells.len() implies #[trigger] next_generation(g)[k] == g.cells[k] by {
        lemma_cell_of_index(k, w, h);
        let x = k % w;
        let y = k / w;
        assert forall|dx: int, dy: int| -1 <= dx <= 1 && -1 <= dy <= 1 implies #[trigger] live_at(g, x, y, dx, dy) == 0 by {
            let nx = (x + dx) % w;
            let ny = (y + dy) % h;
            lemma_cell_index(nx, ny, w, h);
        }
        assert(neighbors(g, x, y) == 0);
    }
}

/// The HighLife rule, cell by cell: in the next generation a live cell
/// lives on exactly when 2 or 3 of its eight neighbours on the torus are
/// alive (fewer starve it, more crowd it out), and a dead cell comes alive
/// exactly when 3 or 6 are.
pub proof fn law_highlife_rule(g: GridView, x: int, y: int)
    requires
        g.width > 0,
        g.height > 0,
        g.cells.len() == g.width * g.height,
        0 <= x < g.width,
        0 <= y < g.height,
    ensures
        ({
            let n = neighbors(g, x, y);
            let next = next_generation(g)[y * g.width + x];
            &&& 0 <= n <= 8
            &&& cell_at(g, x, y) ==> (next <==> (n == 2 || n == 3))
            &&& !cell_at(g, x, y) ==> (next <==> (n == 3 || n == 6))
            &&& cell_at(g, x, y) && n >= 4 ==> !next
            &&& cell_at(g, x, y) && n <= 1 ==> !next
        }),
{
    let w = g.width as int;
    let h = g.height as int;
    let k = y * w + x;
    lemma_cell_index(x, y, w, h);
    lemma_cell_of_index(k, w, h);
    lemma_fundamental_div_mod_converse(k, w, y, x);
}

/// The Braille dot that the cell at `(lx, ly)` of a two-by-four block lights.
pub open spec fn dot_bit(lx: int, ly: int) -> u32 {
    if lx == 0 {
        if ly == 0 {
            0x01
        } else if ly == 1 {
            0x02
        } else if ly == 2 {
            0x04
        } else {
            0x40
        }
    } else {
        if ly == 0 {
            0x08
        } else if ly == 1 {
            0x10
        } else if ly == 2 {
            0x20
        } else {
            0x80
        }
    }
}

/// The dot of `(lx, ly)` when that cell of the block at `(x, y)` is inside
/// the grid and alive; else nothing.
pub open spec fn lit_dot(g: GridView, x: int, y: int, lx: int, ly: int) -> u32 {
    if x + lx < g.width && y + ly < g.height && cell_at(g, x + lx, y + ly) {
        dot_bit(lx, ly)
    } else {
        0
    }
}

/// The dots of the Braille character for the block whose top left cell is
/// `(x, y)`: dots 1 to 3 and 7 for the left column, 4 to 6 and 8 for the right.
pub open spec fn braille_bits(g: GridView, x: int, y: int) -> u32 {
    lit_dot(g, x, y, 0, 0) | lit_dot(g, x, y, 0, 1) | lit_dot(g, x, y, 0, 2) | lit_dot(g, x, y, 0, 3) | lit_dot(
        g,
        x,
        y,
        1,
        0,
    ) | lit_dot(g, x, y, 1, 1) | lit_dot(g, x, y, 1, 2) | lit_dot(g, x, y, 1, 3)
}

/// What `char::from_u32` gives: the character of a Unicode scalar value.
#[verifier::external_body]
fn char_from_u32(code: u32) -> (r: Option<char>)
    ensures
        (code < 0xD800 || (0xE000 <= code <= 0x10FFFF)) ==> r == Some(code as char),
        !(code < 0xD800 || (0xE000 <= code <= 0x10FFFF)) ==> r is None,
{
    char::from_u32(code)
}

/// A field of cells on a torus, `width` by `height`, stored row after row.
#[derive(Debug)]
pub struct LifeGrid {
    width: usize,
    height: usize,
    cells: Vec<bool>,
}

impl View for LifeGrid {
    type V = GridView;

    closed spec fn view(&self) -> GridView {
        GridView { width: self.width as nat, height: self.height as nat, cells: self.cells@ }
    }
}

impl LifeGrid {
    #[verifier::type_invariant]
    spec fn well_formed(self) -> bool {
        self.cells@.len() == self.width * self.height
    }

    /// A `width` by `height` grid of dead cells.
    pub fn new(width: usize, height: usize) -> (g: Self)
        requires
            width * height <= usize::MAX,
        ensures
            g@.width == width,
            g@.height == height,
            g@.cells == Seq::new((width * height) as nat, |k: int| false),
    {
        let n = width * height;
        let mut cells: Vec<bool> = Vec::new();
        let mut i: usize = 0;
        while i < n
            invariant
                i <= n,
                cells@ == Seq::new(i as nat, |k: int| false),
            decreases n - i,
        {
            cells.push(false);
            assert(cells@ =~= Seq::new((i + 1) as nat, |k: int| false));
            i = i + 1;
        }
        LifeGrid { width, height, cells }
    }

    /// The number of cells: one per position.
    pub fn cell_count(&self) -> (r: usize)
        ensures
            r == self@.cells.len(),
            r == self@.width * self@.height,
    {
        proof {
            use_type_invariant(self);
        }
        self.cells.len()
    }

    /// The width in cells.
    pub fn width(&self) -> (r: usize)
        ensures
            r == self@.width,
    {
        self.width
    }

    /// The height in cells.
    pub fn height(&self) -> (r: usize)
        ensures
            r == self@.height,
    {
        self.height
    }

    /// The position in the row-after-row storage of the cell `(x, y)`.
    pub fn index(&self, x: usize, y: usize) -> (r: usize)
        requires
            y * self@.width + x <= usize::MAX,
        ensures
            r == y * self@.width + x,
    {
        y * self.width + x
    }

    /// Whether the cell `(x, y)` is alive.
    pub fn is_alive(&self, x: usize, y: usize) -> (r: bool)
        requires
            x < self@.width,
            y < self@.height,
        ensures
            r == cell_at(self@, x as int, y as int),
    {
        proof {
            use_type_invariant(self);
            lemma_cell_index(x as int, y as int, self.width as int, self.height as int);
        }
        let n = self.cells.len();
        self.cells[y * self.width + x]
    }

    /// Brings the cell `(x, y)` to life; a position outside the grid changes nothing.
    pub fn set_alive(&mut self, x: usize, y: usize)
        ensures
            final(self)@.width == old(self)@.width,
            final(self)@.height == old(self)@.height,
            x < old(self)@.width && y < old(self)@.height ==> final(self)@.cells == old(self)@.cells.update(
                y * old(self)@.width + x,
                true,
            ),
            !(x < old(self)@.width && y < old(self)@.height) ==> final(self)@.cells == old(self)@.cells,
            final(self)@.cells.len() == old(self)@.cells.len() == old(self)@.width * old(self)@.height,
    {
        proof {
            use_type_invariant(&*self);
        }
        if x < self.width && y < self.height {
            proof {
                lemma_cell_index(x as int, y as int, self.width as int, self.height as int);
            }
            let n = self.cells.len();
            let idx = y * self.width + x;
            let mut taken = LifeGrid { width: 0, height: 0, cells: Vec::new() };
            std::mem::swap(&mut taken, self);
            let LifeGrid { width, height, mut cells } = taken;
            cells.set(idx, true);
            *self = LifeGrid { width, height, cells };
        }
    }

    /// 1 when the cell at `(x + dx, y + dy)` is alive, on the torus; else 0.
    fn live_at(&self, x: usize, y: usize, dx: isize, dy: isize) -> (r: u8)
        requires
            x < self@.width <= isize::MAX,
            y < self@.height <= isize::MAX,
            -1 <= dx <= 1,
            -1 <= dy <= 1,
        ensures
            r == live_at(self@, x as int, y as int, dx as int, dy as int),
    {
        let nx = wrap_index(x, dx, self.width);
        let ny = wrap_index(y, dy, self.height);
        if self.is_alive(nx, ny) {
            1
        } else {
            0
        }
    }

    /// How many of the eight cells around `(x, y)` are alive, on the torus.
    pub fn live_neighbor_count(&self, x: usize, y: usize) -> (r: u8)
        requires
            x < self@.width <= isize::MAX,
            y < self@.height <= isize::MAX,
        ensures
            r == neighbors(self@, x as int, y as int),
            r <= 8,
    {
        self.live_at(x, y, -1, -1) + self.live_at(x, y, 0, -1) + self.live_at(x, y, 1, -1) + self.live_at(x, y, -1, 0)
            + self.live_at(x, y, 1, 0) + self.live_at(x, y, -1, 1) + self.live_at(x, y, 0, 1) + self.live_at(x, y, 1, 1)
    }
}

/// The cell `(x, y)` of a `width` by `height` grid is stored inside it.
pub proof fn lemma_cell_index(x: int, y: int, width: int, height: int)
    requires
        0 <= x < width,
        0 <= y < height,
    ensures
        0 <= y * width + x < width * height,
{
    assert(0 <= y * width + x < width * height) by (nonlinear_arith)
        requires
            0 <= x < width,
            0 <= y < height,
    ;
}

/// The cell stored at `k` of a `width` by `height` grid is `(k % width, k / width)`.
pub proof fn lemma_cell_of_index(k: int, width: int, height: int)
    requires
        0 <= k < width * height,
        width > 0,
    ensures
        0 <= k % width < width,
        0 <= k / width < height,
        (k / width) * width + k % width == k,
{
    lemma_fundamental_div_mod(k, width);
    assert(0 <= k / width < height) by (nonlinear_arith)
        requires
            0 <= k < width * height,
            width > 0,
            k == width * (k / width) + k % width,
            0 <= k % width < width,
    ;
    assert((k / width) * width == width * (k / width)) by (nonlinear_arith);
}

impl LifeGrid {
    /// Advances the grid by one generation; gives the positions of the cells
    /// that changed, in row order. An empty grid stays as it is.
    pub fn step(&mut self) -> (changed: Vec<(usize, usize)>)
        requires
            old(self)@.width <= isize::MAX,
            old(self)@.height <= isize::MAX,
        ensures
            final(self)@.width == old(self)@.width,
            final(self)@.height == old(self)@.height,
            old(self)@.width == 0 || old(self)@.height == 0 ==> final(self)@ == old(self)@ && changed@.len() == 0,
            old(self)@.width > 0 && old(self)@.height > 0 ==> {
                &&& final(self)@.cells == next_generation(old(self)@)
                &&& changed@ == changed_cells(old(self)@.cells, final(self)@.cells, old(self)@.width, old(self)@.cells.len())
            },
    {
        proof {
            use_type_invariant(&*self);
        }
        let ghost g = self@;
        if self.width == 0 || self.height == 0 || self.cells.len() == 0 {
            proof {
                if self.width > 0 && self.height > 0 {
                    assert(self.width * self.height > 0) by (nonlinear_arith)
                        requires
                            self.width > 0,
                            self.height > 0,
                    ;
                }
            }
            return Vec::new();
        }
        let n = self.cells.len();
        let w = self.width;
        let ghost target = next_generation(g);
        let mut next: Vec<bool> = Vec::new();
        let mut changed: Vec<(usize, usize)> = Vec::new();
        let mut k: usize = 0;
        while k < n
            invariant
                g == self@,
                n == g.cells.len() == g.width * g.height,
                w == g.width > 0,
                g.height > 0,
                g.width <= isize::MAX,
                g.height <= isize::MAX,
                target == next_generation(g),
                k <= n,
                next@ == target.take(k as int),
                changed@ == changed_cells(g.cells, target, g.width, k as nat),
            decreases n - k,
        {
            proof {
                lemma_cell_of_index(k as int, g.width as int, g.height as int);
            }
            let x = k % w;
            let y = k / w;
            let alive = self.cells[k];
            assert(cell_at(g, x as int, y as int) == alive);
            let count = self.live_neighbor_count(x, y);
            let next_state = if alive {
                count == 2 || count == 3
            } else {
                count == 3 || count == 6
            };
            let ghost before = next@;
            next.push(next_state);
            assert(next@ =~= target.take(k + 1));
            if alive != next_state {
                changed.push((x, y));
            }
            k = k + 1;
        }
        assert(next@ =~= target);
        let h = self.height;
        *self = LifeGrid { width: w, height: h, cells: next };
        changed
    }
}

/// The Braille character for the block whose top left cell is `(x, y)`.
pub open spec fn braille_at(g: GridView, x: int, y: int) -> char {
    (0x2800 + braille_bits(g, x, y)) as char
}

/// Whether the cell `(x, y)` is inside the grid and alive.
pub open spec fn lit(g: GridView, x: int, y: int) -> bool {
    x < g.width && y < g.height && cell_at(g, x, y)
}

/// The Braille character of a two-by-four block is U+2800 plus the Unicode
/// Braille dots of its live cells: the left column, top to bottom, lights
/// dots 1, 2, 3 and 7 (0x01, 0x02, 0x04, 0x40), the right column dots 4, 5, 6
/// and 8 (0x08, 0x10, 0x20, 0x80); cells outside the grid count as dead.
pub proof fn law_braille_dots(g: GridView, x: int, y: int)
    ensures
        braille_at(g, x, y) == ((0x2800 + (if lit(g, x, y) { 0x01int } else { 0 }) + (if lit(g, x, y + 1) {
            0x02int
        } else {
            0
        }) + (if lit(g, x, y + 2) { 0x04int } else { 0 }) + (if lit(g, x, y + 3) { 0x40int } else { 0 }) + (if lit(
            g,
            x + 1,
            y,
        ) {
            0x08int
        } else {
            0
        }) + (if lit(g, x + 1, y + 1) { 0x10int } else { 0 }) + (if lit(g, x + 1, y + 2) { 0x20int } else { 0 })
            + (if lit(g, x + 1, y + 3) { 0x80int } else { 0 })) as char),
{
    let a = lit_dot(g, x, y, 0, 0);
    let b = lit_dot(g, x, y, 0, 1);
    let c = lit_dot(g, x, y, 0, 2);
    let d = lit_dot(g, x, y, 0, 3);
    let e = lit_dot(g, x, y, 1, 0);
    let f = lit_dot(g, x, y, 1, 1);
    let i = lit_dot(g, x, y, 1, 2);
    let j = lit_dot(g, x, y, 1, 3);
    assert(a == (if lit(g, x, y) { 0x01u32 } else { 0 }));
    assert(b == (if lit(g, x, y + 1) { 0x02u32 } else { 0 }));
    assert(c == (if lit(g, x, y + 2) { 0x04u32 } else { 0 }));
    assert(d == (if lit(g, x, y + 3) { 0x40u32 } else { 0 }));
    assert(e == (if lit(g, x + 1, y) { 0x08u32 } else { 0 }));
    assert(f == (if lit(g, x + 1, y + 1) { 0x10u32 } else { 0 }));
    assert(i == (if lit(g, x + 1, y + 2) { 0x20u32 } else { 0 }));
    assert(j == (if lit(g, x + 1, y + 3) { 0x80u32 } else { 0 }));
    assert((a | b | c | d | e | f | i | j) == a + b + c + d + e + f + i + j) by (bit_vector)
        requires
            a == 0 || a == 0x01,
            b == 0 || b == 0x02,
            c == 0 || c == 0x04,
            d == 0 || d == 0x40,
            e == 0 || e == 0x08,
            f == 0 || f == 0x10,
            i == 0 || i == 0x20,
            j == 0 || j == 0x80,
    ;
}

impl LifeGrid {
    fn lit_dot(&self, x: usize, y: usize, lx: usize, ly: usize) -> (r: u32)
        requires
            lx < 2,
            ly < 4,
            x + lx <= usize::MAX,
            y + ly <= usize::MAX,
        ensures
            r == lit_dot(self@, x as int, y as int, lx as int, ly as int),
            r <= 0x80,
    {
        let cx = x + lx;
        let cy = y + ly;
        if cx < self.width && cy < self.height && self.is_alive(cx, cy) {
            if lx == 0 {
                if ly == 0 {
                    0x01
                } else if ly == 1 {
                    0x02
                } else if ly == 2 {
                    0x04
                } else {
                    0x40
                }
            } else {
                if ly == 0 {
                    0x08
                } else if ly == 1 {
                    0x10
                } else if ly == 2 {
                    0x20
                } else {
                    0x80
                }
            }
        } else {
            0
        }
    }

    /// The Braille character for the two-by-four block whose top left cell is
    /// `(dot_x, dot_y)`: each live cell of the block inside the grid raises
    /// its dot.
    pub fn braille_char(&self, dot_x: usize, dot_y: usize) -> (r: char)
        requires
            dot_x + 1 <= usize::MAX,
            dot_y + 3 <= usize::MAX,
        ensures
            r == braille_at(self@, dot_x as int, dot_y as int),
    {
        let b0 = self.lit_dot(dot_x, dot_y, 0, 0);
        let b1 = self.lit_dot(dot_x, dot_y, 0, 1);
        let b2 = self.lit_dot(dot_x, dot_y, 0, 2);
        let b3 = self.lit_dot(dot_x, dot_y, 0, 3);
        let b4 = self.lit_dot(dot_x, dot_y, 1, 0);
        let b5 = self.lit_dot(dot_x, dot_y, 1, 1);
        let b6 = self.lit_dot(dot_x, dot_y, 1, 2);
        let b7 = self.lit_dot(dot_x, dot_y, 1, 3);
        let bits = b0 | b1 | b2 | b3 | b4 | b5 | b6 | b7;
        assert(bits <= 0xff) by (bit_vector)
            requires
                bits == b0 | b1 | b2 | b3 | b4 | b5 | b6 | b7,
                b0 <= 0x80 && b1 <= 0x80 && b2 <= 0x80 && b3 <= 0x80,
                b4 <= 0x80 && b5 <= 0x80 && b6 <= 0x80 && b7 <= 0x80,
        ;
        match char_from_u32(0x2800 + bits) {
            Some(c) => c,
            None => ' ',
        }
    }

    /// The grid drawn as `char_height` lines of `char_width` Braille
    /// characters; line `i`, character `j` shows the block at `(2j, 4i)`.
    pub fn render_rows(&self, char_width: usize, char_height: usize) -> (r: Vec<String>)
        requires
            char_width * 2 <= usize::MAX,
            char_height * 4 + 3 <= usize::MAX,
        ensures
            r@.len() == char_height,
            forall|i: int|
                0 <= i < char_height ==> (#[trigger] r@[i])@ == Seq::new(
                    char_width as nat,
                    |j: int| braille_at(self@, 2 * j, 4 * i),
                ),
    {
        let mut lines: Vec<String> = Vec::new();
        let mut i: usize = 0;
        while i < char_height
            invariant
                i <= char_height,
                char_width * 2 <= usize::MAX,
                char_height * 4 + 3 <= usize::MAX,
                lines@.len() == i,
                forall|k: int|
                    0 <= k < i ==> (#[trigger] lines@[k])@ == Seq::new(
                        char_width as nat,
                        |j: int| braille_at(self@, 2 * j, 4 * k),
                    ),
            decreases char_height - i,
        {
            let mut text = String::new();
            let mut j: usize = 0;
            while j < char_width
                invariant
                    i < char_height,
                    j <= char_width,
                    char_width * 2 <= usize::MAX,
                    char_height * 4 + 3 <= usize::MAX,
                    text@ == Seq::new(j as nat, |c: int| braille_at(self@, 2 * c, 4 * i)),
                decreases char_width - j,
            {
                let c = self.braille_char(j * 2, i * 4);
                push_char(&mut text, c);
                assert(text@ =~= Seq::new((j + 1) as nat, |c: int| braille_at(self@, 2 * c, 4 * i)));
                j = j + 1;
            }
            lines.push(text);
            i = i + 1;
        }
        lines
    }
}

/// A seed pattern: its size and the live cells inside it.
#[derive(Clone, Copy, Debug)]
pub struct SeedPattern {
    /// Width of the pattern in cells.
    pub width: usize,
    /// Height of the pattern in cells.
    pub height: usize,
    /// Coordinates of live cells within the pattern bounds.
    pub cells: &'static [(usize, usize)],
}

/// The glider: a small spaceship that moves diagonally.
pub fn glider_pattern() -> (p: SeedPattern)
    ensures
        p.width == 3 && p.height == 3,
        p.cells@ == seq![(1usize, 0usize), (2, 1), (0, 2), (1, 2), (2, 2)],
{
    SeedPattern { width: 3, height: 3, cells: &[(1, 0), (2, 1), (0, 2), (1, 2), (2, 2)] }
}

/// The R-pentomino: a small methuselah that evolves for many generations.
pub fn r_pentomino_pattern() -> (p: SeedPattern)
    ensures
        p.width == 3 && p.height == 3,
        p.cells@ == seq![(1usize, 0usize), (2, 0), (0, 1), (1, 1), (1, 2)],
{
    SeedPattern { width: 3, height: 3, cells: &[(1, 0), (2, 0), (0, 1), (1, 1), (1, 2)] }
}

/// The acorn: a methuselah that evolves for 5206 generations.
pub fn acorn_pattern() -> (p: SeedPattern)
    ensures
        p.width == 7 && p.height == 3,
        p.cells@ == seq![(1usize, 0usize), (3, 1), (0, 2), (1, 2), (4, 2), (5, 2), (6, 2)],
{
    SeedPattern { width: 7, height: 3, cells: &[(1, 0), (3, 1), (0, 2), (1, 2), (4, 2), (5, 2), (6, 2)] }
}

/// The lightweight spaceship: moves orthogonally.
pub fn lwss_pattern() -> (p: SeedPattern)
    ensures
        p.width == 5 && p.height == 4,
        p.cells@ == seq![(1usize, 0usize), (2, 0), (3, 0), (4, 0), (0, 1), (4, 1), (4, 2), (0, 3), (3, 3)],
{
    SeedPattern { width: 5, height: 4, cells: &[(1, 0), (2, 0), (3, 0), (4, 0), (0, 1), (4, 1), (4, 2), (0, 3), (3, 3)] }
}

/// A small blob (4x4) for variety.
pub fn random_blob_4x4() -> (p: SeedPattern)
    ensures
        p.width == 4 && p.height == 4,
        p.cells@ == seq![(1usize, 0usize), (2, 0), (0, 1), (3, 1), (1, 2), (2, 2), (0, 3), (3, 3)],
{
    SeedPattern { width: 4, height: 4, cells: &[(1, 0), (2, 0), (0, 1), (3, 1), (1, 2), (2, 2), (0, 3), (3, 3)] }
}

/// A medium blob (5x5) for variety.
pub fn random_blob_5x5() -> (p: SeedPattern)
    ensures
        p.width == 5 && p.height == 5,
        p.cells@ == seq![(1usize, 0usize), (3, 0), (0, 1), (2, 1), (4, 1), (1, 2), (3, 2), (0, 3), (2, 3), (4, 3), (1, 4), (3, 4)],
{
    SeedPattern { width: 5, height: 5, cells: &[(1, 0), (3, 0), (0, 1), (2, 1), (4, 1), (1, 2), (3, 2), (0, 3), (2, 3), (4, 3), (1, 4), (3, 4)] }
}

/// A large blob (6x6) for variety.
pub fn random_blob_6x6() -> (p: SeedPattern)
    ensures
        p.width == 6 && p.height == 6,
        p.cells@ == seq![(1usize, 0usize), (4, 0), (0, 1), (2, 1), (3, 1), (5, 1), (1, 2), (4, 2), (1, 3), (4, 3), (0, 4), (2, 4), (3, 4), (5, 4), (1, 5), (4, 5)],
{
    SeedPattern { width: 6, height: 6, cells: &[(1, 0), (4, 0), (0, 1), (2, 1), (3, 1), (5, 1), (1, 2), (4, 2), (1, 3), (4, 3), (0, 4), (2, 4), (3, 4), (5, 4), (1, 5), (4, 5)] }
}

/// Where and how a pattern is put on the grid.
#[derive(Clone, Copy, Debug)]
pub struct PatternPlacement {
    /// The pattern to place.
    pub pattern: SeedPattern,
    /// Column of the pattern's corner.
    pub dx: isize,
    /// Row of the pattern's corner.
    pub dy: isize,
    /// Rotation in 90-degree increments (0-3).
    pub rotation: u8,
    /// Whether to flip horizontally after rotation.
    pub flip: bool,
}

/// What becomes of one cell of a pattern as it is placed (drawn at random
/// by the caller, one per cell, in the pattern's order).
#[derive(Clone, Copy, Debug)]
pub enum CellMutation {
    /// The cell is set.
    Place,
    /// The cell is left out.
    Skip,
    /// The cell is set, and so is the cell at offset `(dx, dy)` from it.
    PlaceWithNeighbor { dx: isize, dy: isize },
}

/// Where cell `i` of `p` lands inside the pattern's block after the
/// placement's rotation and flip.
pub open spec fn oriented_cell(p: SeedPattern, pl: PatternPlacement, i: int) -> (int, int) {
    let (rx, ry) = rotated_cell(p.cells@[i].0 as int, p.cells@[i].1 as int, p.width as int, p.height as int, pl.rotation as int);
    if pl.flip {
        (p.width - 1 - rx, ry)
    } else {
        (rx, ry)
    }
}

/// Whether cell `i` of `p` can be placed without an arithmetic overflow:
/// the flip stays inside the block and the offsets stay in range.
pub open spec fn placeable(p: SeedPattern, pl: PatternPlacement, i: int) -> bool {
    let (rx, ry) = rotated_cell(p.cells@[i].0 as int, p.cells@[i].1 as int, p.width as int, p.height as int, pl.rotation as int);
    let (fx, fy) = oriented_cell(p, pl, i);
    &&& pl.flip ==> rx <= p.width - 1
    &&& fx <= isize::MAX && fy <= isize::MAX
    &&& isize::MIN <= pl.dx + fx <= isize::MAX
    &&& isize::MIN <= pl.dy + fy <= isize::MAX
}

/// The grid position where cell `i` of `p` lands, on a `w` by `h` torus.
pub open spec fn landing(p: SeedPattern, pl: PatternPlacement, w: int, h: int, i: int) -> (int, int) {
    let (fx, fy) = oriented_cell(p, pl, i);
    ((pl.dx + fx) % w, (pl.dy + fy) % h)
}

/// Whether placing cell `i` of `p` sets the cell stored at `k` of a `w` by
/// `h` grid.
pub open spec fn sets_cell(p: SeedPattern, pl: PatternPlacement, m: CellMutation, w: int, h: int, i: int, k: int) -> bool {
    let (x, y) = landing(p, pl, w, h, i);
    match m {
        CellMutation::Place => k == y * w + x,
        CellMutation::Skip => false,
        CellMutation::PlaceWithNeighbor { dx, dy } => k == y * w + x || k == ((y + dy) % h) * w + (x + dx) % w,
    }
}

/// Whether one of the first `n` cells of the pattern sets the cell stored at `k`.
pub open spec fn marked(p: SeedPattern, pl: PatternPlacement, muts: Seq<CellMutation>, w: int, h: int, n: int, k: int) -> bool {
    exists|i: int| 0 <= i < n && #[trigger] sets_cell(p, pl, muts[i], w, h, i, k)
}

impl LifeGrid {
    /// Places `pattern` as `placement` says, cell by cell, each cell as its
    /// mutation says; positions wrap around the torus. Nothing is placed on an
    /// empty grid.
    pub fn place_pattern(&mut self, pattern: &SeedPattern, placement: &PatternPlacement, mutations: &Vec<CellMutation>)
        requires
            mutations@.len() == pattern.cells@.len(),
            old(self)@.width <= isize::MAX,
            old(self)@.height <= isize::MAX,
            forall|i: int| 0 <= i < pattern.cells@.len() ==> #[trigger] placeable(*pattern, *placement, i),
            forall|i: int|
                0 <= i < mutations@.len() ==> (#[trigger] mutations@[i] matches CellMutation::PlaceWithNeighbor { dx, dy }
                    ==> -1 <= dx <= 1 && -1 <= dy <= 1),
        ensures
            final(self)@.width == old(self)@.width,
            final(self)@.height == old(self)@.height,
            old(self)@.width == 0 || old(self)@.height == 0 ==> final(self)@ == old(self)@,
            old(self)@.width > 0 && old(self)@.height > 0 ==> final(self)@.cells.len() == old(self)@.cells.len() && forall|k: int|
                0 <= k < old(self)@.cells.len() ==> #[trigger] final(self)@.cells[k] == (old(self)@.cells[k] || marked(
                    *pattern,
                    *placement,
                    mutations@,
                    old(self)@.width as int,
                    old(self)@.height as int,
                    pattern.cells@.len() as int,
                    k,
                )),
    {
        proof {
            use_type_invariant(&*self);
        }
        if self.width == 0 || self.height == 0 {
            return;
        }
        let ghost g = self@;
        let ghost w = g.width as int;
        let ghost h = g.height as int;
        let mut i: usize = 0;
        while i < pattern.cells.len()
            invariant
                self@.width == g.width > 0,
                self@.height == g.height > 0,
                g.width <= isize::MAX,
                g.height <= isize::MAX,
                w == g.width,
                h == g.height,
                mutations@.len() == pattern.cells@.len(),
                forall|j: int| 0 <= j < pattern.cells@.len() ==> #[trigger] placeable(*pattern, *placement, j),
                forall|j: int|
                    0 <= j < mutations@.len() ==> (#[trigger] mutations@[j] matches CellMutation::PlaceWithNeighbor {
                        dx,
                        dy,
                    } ==> -1 <= dx <= 1 && -1 <= dy <= 1),
                i <= pattern.cells@.len(),
                self@.cells.len() == g.cells.len() == g.width * g.height,
                forall|k: int|
                    0 <= k < g.cells.len() ==> #[trigger] self@.cells[k] == (g.cells[k] || marked(
                        *pattern,
                        *placement,
                        mutations@,
                        w,
                        h,
                        i as int,
                        k,
                    )),
            decreases pattern.cells.len() - i,
        {
            proof {
                use_type_invariant(&*self);
                assert(placeable(*pattern, *placement, i as int));
            }
            let (px, py) = pattern.cells[i];
            let (rx, ry) = rotate_cell(px, py, pattern.width, pattern.height, placement.rotation);
            let (fx, fy) = if placement.flip {
                (pattern.width - 1 - rx, ry)
            } else {
                (rx, ry)
            };
            let x = wrap_index_signed(placement.dx + fx as isize, self.width);
            let y = wrap_index_signed(placement.dy + fy as isize, self.height);
            let m = mutations[i];
            let ghost before = self@.cells;
            proof {
                lemma_cell_index(x as int, y as int, w, h);
                assert((x as int, y as int) == landing(*pattern, *placement, w, h, i as int));
            }
            match m {
                CellMutation::Skip => {},
                CellMutation::Place => {
                    self.set_alive(x, y);
                },
                CellMutation::PlaceWithNeighbor { dx, dy } => {
                    self.set_alive(x, y);
                    let nx = wrap_index_signed(x as isize + dx, self.width);
                    let ny = wrap_index_signed(y as isize + dy, self.height);
                    proof {
                        lemma_cell_index(nx as int, ny as int, w, h);
                    }
                    self.set_alive(nx, ny);
                },
            }
            assert forall|k: int| 0 <= k < g.cells.len() implies #[trigger] self@.cells[k] == (g.cells[k] || marked(
                *pattern,
                *placement,
                mutations@,
                w,
                h,
                i + 1,
                k,
            )) by {
                if sets_cell(*pattern, *placement, mutations@[i as int], w, h, i as int, k) {
                    assert(marked(*pattern, *placement, mutations@, w, h, i + 1, k));
                }
                if marked(*pattern, *placement, mutations@, w, h, i as int, k) {
                    let j = choose|j: int| 0 <= j < i && #[trigger] sets_cell(*pattern, *placement, mutations@[j], w, h, j, k);
                    assert(marked(*pattern, *placement, mutations@, w, h, i + 1, k));
                }
                if marked(*pattern, *placement, mutations@, w, h, i + 1, k) {
                    let j = choose|j: int| 0 <= j < i + 1 && #[trigger] sets_cell(*pattern, *placement, mutations@[j], w, h, j, k);
                    if j < i {
                        assert(marked(*pattern, *placement, mutations@, w, h, i as int, k));
                    }
                }
            }
            i = i + 1;
        }
    }
}

/// Whether draw `t` of a `size` by `size` blob at `(x, y)` sets the cell
/// stored at `k` of a `w` by `h` grid: draws go row by row through the blob,
/// a heads sets its cell when it falls inside the grid.
pub open spec fn blob_hit(x: int, y: int, size: int, coins: Seq<bool>, w: int, h: int, t: int, k: int) -> bool {
    let cx = x + t % size;
    let cy = y + t / size;
    coins[t] && cx < w && cy < h && k == cy * w + cx
}

impl LifeGrid {
    /// Sets the cells of a `size` by `size` blob whose corner is `(x, y)`: a
    /// cell is set when its draw in `coins` (row by row) is heads and it lies
    /// inside the grid; the blob does not wrap around.
    pub fn place_blob(&mut self, x: usize, y: usize, size: usize, coins: &Vec<bool>)
        requires
            coins@.len() == size * size,
            x + size <= usize::MAX,
            y + size <= usize::MAX,
        ensures
            final(self)@.width == old(self)@.width,
            final(self)@.height == old(self)@.height,
            final(self)@.cells.len() == old(self)@.cells.len(),
            forall|k: int|
                0 <= k < old(self)@.cells.len() ==> #[trigger] final(self)@.cells[k] == (old(self)@.cells[k] || exists|t: int|
                    0 <= t < coins@.len() && #[trigger] blob_hit(
                        x as int,
                        y as int,
                        size as int,
                        coins@,
                        old(self)@.width as int,
                        old(self)@.height as int,
                        t,
                        k,
                    )),
    {
        proof {
            use_type_invariant(&*self);
        }
        let ghost g = self@;
        let ghost w = g.width as int;
        let ghost h = g.height as int;
        let n = coins.len();
        let mut t: usize = 0;
        while t < n
            invariant
                n == coins@.len() == size * size,
                x + size <= usize::MAX,
                y + size <= usize::MAX,
                t <= n,
                self@.width == g.width,
                self@.height == g.height,
                w == g.width,
                h == g.height,
                self@.cells.len() == g.cells.len() == g.width * g.height,
                forall|k: int|
                    0 <= k < g.cells.len() ==> #[trigger] self@.cells[k] == (g.cells[k] || exists|j: int|
                        0 <= j < t && #[trigger] blob_hit(x as int, y as int, size as int, coins@, w, h, j, k)),
            decreases n - t,
        {
            proof {
                lemma_cell_of_index(t as int, size as int, size as int);
            }
            let px = x + t % size;
            let py = y + t / size;
            let ghost before = self@.cells;
            if coins[t] {
                self.set_alive(px, py);
            }
            assert forall|k: int| 0 <= k < g.cells.len() implies #[trigger] self@.cells[k] == (g.cells[k] || exists|j: int|
                0 <= j < t + 1 && #[trigger] blob_hit(x as int, y as int, size as int, coins@, w, h, j, k)) by {
                assert(before[k] == (g.cells[k] || exists|j: int|
                    0 <= j < t && #[trigger] blob_hit(x as int, y as int, size as int, coins@, w, h, j, k)));
                if coins@[t as int] && px < w && py < h {
                    lemma_cell_index(px as int, py as int, w, h);
                    assert(self@.cells == before.update(py * w + px, true));
                } else {
                    assert(self@.cells == before);
                }
                if blob_hit(x as int, y as int, size as int, coins@, w, h, t as int, k) {
                    assert(exists|j: int| 0 <= j < t + 1 && #[trigger] blob_hit(x as int, y as int, size as int, coins@, w, h, j, k));
                }
                if exists|j: int| 0 <= j < t && #[trigger] blob_hit(x as int, y as int, size as int, coins@, w, h, j, k) {
                    let j = choose|j: int| 0 <= j < t && #[trigger] blob_hit(x as int, y as int, size as int, coins@, w, h, j, k);
                    assert(exists|j: int| 0 <= j < t + 1 && #[trigger] blob_hit(x as int, y as int, size as int, coins@, w, h, j, k));
                }
                if exists|j: int| 0 <= j < t + 1 && #[trigger] blob_hit(x as int, y as int, size as int, coins@, w, h, j, k) {
                    let j = choose|j: int| 0 <= j < t + 1 && #[trigger] blob_hit(x as int, y as int, size as int, coins@, w, h, j, k);
                    if j < t {
                        assert(exists|j: int| 0 <= j < t && #[trigger] blob_hit(x as int, y as int, size as int, coins@, w, h, j, k));
                    }
                }
            }
            t = t + 1;
        }
    }
}

/// The size a field is kept at for a requested size: at least two cells
/// wide and four tall.
pub fn field_size(width: usize, height: usize) -> (r: (usize, usize))
    ensures
        r == (if width < 2 { 2 } else { width }, if height < 4 { 4 } else { height }),
{
    (if width < 2 { 2 } else { width }, if height < 4 { 4 } else { height })
}

impl LifeGrid {
    /// Gives the grid the size `field_size(width, height)`: when that is its
    /// size already (and it has cells), nothing changes; otherwise it becomes
    /// a grid of dead cells of that size. Gives whether it was remade, so that
    /// it can be seeded again.
    pub fn ensure_size(&mut self, width: usize, height: usize) -> (remade: bool)
        requires
            (if width < 2 { 2 } else { width }) * (if height < 4 { 4 } else { height }) <= usize::MAX,
        ensures
            ({
                let (w, h) = (if width < 2 { 2usize } else { width }, if height < 4 { 4usize } else { height });
                &&& final(self)@.width == w
                &&& final(self)@.height == h
                &&& remade == !(old(self)@.width == w && old(self)@.height == h && old(self)@.cells.len() > 0)
                &&& !remade ==> final(self)@ == old(self)@
                &&& remade ==> final(self)@.cells == Seq::new((w * h) as nat, |k: int| false)
            }),
    {
        let (w, h) = field_size(width, height);
        if self.width == w && self.height == h && self.cells.len() > 0 {
            return false;
        }
        *self = LifeGrid::new(w, h);
        true
    }
}

/// How many zones of `zone_width` by `zone_height` cells cover a field, in
/// columns and rows (a partial zone counts).
pub fn zone_grid(width: usize, height: usize, zone_width: usize, zone_height: usize) -> (r: (usize, usize))
    requires
        zone_width > 0,
        zone_height > 0,
        width + zone_width <= usize::MAX,
        height + zone_height <= usize::MAX,
    ensures
        r.0 == (width + zone_width - 1) / (zone_width as int),
        r.1 == (height + zone_height - 1) / (zone_height as int),
{
    ((width + zone_width - 1) / zone_width, (height + zone_height - 1) / zone_height)
}

/// The little-endian bytes of `n`, `count` of them.
pub open spec fn le_bytes(n: nat, count: nat) -> Seq<u8>
    decreases count,
{
    if count == 0 {
        Seq::empty()
    } else {
        seq![(n % 256) as u8] + le_bytes(n / 256, (count - 1) as nat)
    }
}

/// The bytes of a `usize` in memory order on a little-endian machine
/// (`usize::to_le_bytes`).
pub fn usize_le_bytes(n: usize) -> (r: Vec<u8>)
    ensures
        r@ == le_bytes(n as nat, (usize::BITS / 8) as nat),
{
    let count: u32 = usize::BITS / 8;
    let mut out: Vec<u8> = Vec::new();
    let mut rest: usize = n;
    let mut i: u32 = 0;
    while i < count
        invariant
            count == usize::BITS / 8,
            i <= count,
            out@ + le_bytes(rest as nat, (count - i) as nat) == le_bytes(n as nat, count as nat),
        decreases count - i,
    {
        let ghost before = out@;
        let ghost r0 = rest;
        out.push((rest % 256) as u8);
        rest = rest / 256;
        proof {
            assert(le_bytes(r0 as nat, (count - i) as nat) == seq![(r0 % 256) as u8] + le_bytes(rest as nat, (count
                - i - 1) as nat));
            assert(out@ + le_bytes(rest as nat, (count - i - 1) as nat) =~= before + le_bytes(r0 as nat, (count - i) as nat));
        }
        i = i + 1;
    }
    assert(out@ + le_bytes(rest as nat, 0) =~= out@);
    out
}

/// The BLAKE3 digest of a byte string.
pub uninterp spec fn blake3_digest(input: Seq<u8>) -> Seq<u8>;

/// Calls `blake3::hash`, the BLAKE3 hash of `input`; its bytes are named
/// `blake3_digest` of the input.
#[verifier::external_body]
fn blake3_hash(input: &[u8]) -> (r: [u8; 32])
    ensures
        r@ == blake3_digest(input@),
{
    blake3::hash(input).into()
}

/// The bytes a field seed hashes: the version, the prompt, then the width
/// and the height as machine words.
pub open spec fn seed_input(prompt: Seq<char>, width: usize, height: usize, version: Seq<char>) -> Seq<u8> {
    utf8(version) + utf8(prompt) + le_bytes(width as nat, (usize::BITS / 8) as nat)
        + le_bytes(height as nat, (usize::BITS / 8) as nat)
}

/// The UTF-8 bytes of a text.
pub open spec fn utf8(s: Seq<char>) -> Seq<u8> {
    vstd::utf8::encode_utf8(s)
}

fn append_bytes(out: &mut Vec<u8>, bytes: &[u8])
    ensures
        final(out)@ == old(out)@ + bytes@,
{
    let mut i: usize = 0;
    while i < bytes.len()
        invariant
            i <= bytes@.len(),
            out@ == old(out)@ + bytes@.take(i as int),
        decreases bytes.len() - i,
    {
        out.push(bytes[i]);
        assert(out@ =~= old(out)@ + bytes@.take(i + 1));
        i = i + 1;
    }
    assert(bytes@.take(i as int) =~= bytes@);
}

/// The seed of a field: the BLAKE3 digest of the version, the prompt, the
/// width and the height, so that one prompt and size always grow the same field.
pub fn hash_seed(prompt: &str, width: usize, height: usize, version: &str) -> (r: [u8; 32])
    ensures
        r@ == blake3_digest(seed_input(prompt@, width, height, version@)),
{
    let mut input: Vec<u8> = Vec::new();
    append_bytes(&mut input, version.as_bytes());
    append_bytes(&mut input, prompt.as_bytes());
    let w = usize_le_bytes(width);
    append_bytes(&mut input, w.as_slice());
    let h = usize_le_bytes(height);
    append_bytes(&mut input, h.as_slice());
    blake3_hash(input.as_slice())
}

} // verus!
