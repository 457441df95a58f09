use vstd::prelude::*;

use crate::color::Rgba;

verus! {

// A grid of cells, row-major, with the cell at column `x` of row `y` stored
// at index `y * width + x`. A cell holds 1 when alive and 0 when dead.
// There is no wraparound: a neighbor outside the grid counts as dead.

/// Whether the cell at `(x, y)` of a `width x height` row-major grid is
/// alive. Out-of-range positions count as dead (fixed, non-toroidal
/// boundary).
pub open spec fn alive(cells: Seq<u32>, width: int, height: int, x: int, y: int) -> bool {
    0 <= x < width && 0 <= y < height && cells[y * width + x] == 1
}

pub open spec fn count1(b: bool) -> int {
    if b {
        1
    } else {
        0
    }
}

/// How many of the 8 neighbors of `(x, y)` are alive.
pub open spec fn neighbor_count(cells: Seq<u32>, width: int, height: int, x: int, y: int) -> int {
    count1(alive(cells, width, height, x - 1, y + 1)) + count1(
        alive(cells, width, height, x, y + 1),
    ) + count1(alive(cells, width, height, x + 1, y + 1)) + count1(
        alive(cells, width, height, x + 1, y),
    ) + count1(alive(cells, width, height, x + 1, y - 1)) + count1(
        alive(cells, width, height, x, y - 1),
    ) + count1(alive(cells, width, height, x - 1, y - 1)) + count1(
        alive(cells, width, height, x - 1, y),
    )
}

/// The automaton rule: a cell is alive in the next generation iff it has
/// exactly 3 live neighbors, or it has exactly 2 and is alive now.
pub open spec fn next_alive(cells: Seq<u32>, width: int, height: int, x: int, y: int) -> bool {
    neighbor_count(cells, width, height, x, y) == 3 || (neighbor_count(
        cells,
        width,
        height,
        x,
        y,
    ) == 2 && alive(cells, width, height, x, y))
}

/// The whole next generation of a `width x height` grid, row-major.
pub open spec fn next_gen(cells: Seq<u32>, width: int, height: int) -> Seq<u32> {
    Seq::new(
        (width * height) as nat,
        |i: int|
            if next_alive(cells, width, height, i % width, i / width) {
                1u32
            } else {
                0u32
            },
    )
}

/// The image produced by the colorize phase: pixel `i` is `live` where
/// cell `i` is alive and `dead` where it is not.
pub open spec fn colorize(cells: Seq<u32>, live: Rgba, dead: Rgba) -> Seq<Rgba> {
    Seq::new(
        cells.len(),
        |i: int|
            if cells[i] == 1 {
                live
            } else {
                dead
            },
    )
}

/// One generation of cell states, `width x height`, row-major.
pub struct Grid {
    pub width: usize,
    pub height: usize,
    pub cells: Vec<u32>,
}

impl Grid {
    /// Well-formed: both dimensions positive, storage sized exactly to the
    /// grid, and every cell either 0 or 1.
    pub open spec fn wf(self) -> bool {
        &&& 0 < self.width
        &&& 0 < self.height
        &&& self.cells@.len() == self.width * self.height
        &&& forall|i: int| 0 <= i < self.cells@.len() ==> self.cells@[i] <= 1
    }

    pub open spec fn alive_at(self, x: int, y: int) -> bool {
        alive(self.cells@, self.width as int, self.height as int, x, y)
    }

    pub open spec fn next_alive_at(self, x: int, y: int) -> bool {
        next_alive(self.cells@, self.width as int, self.height as int, x, y)
    }

    /// A grid with the given cell states.
    pub fn from_cells(width: usize, height: usize, cells: Vec<u32>) -> (g: Grid)
        requires
            0 < width,
            0 < height,
            cells@.len() == width * height,
            forall|i: int| 0 <= i < cells@.len() ==> cells@[i] <= 1,
        ensures
            g.wf(),
            g.width == width,
            g.height == height,
            g.cells@ == cells@,
    {
        Grid { width, height, cells }
    }

    /// Whether the in-range cell `(x, y)` is alive.
    pub fn is_alive(&self, x: usize, y: usize) -> (r: bool)
        requires
            self.wf(),
            x < self.width,
            y < self.height,
        ensures
            r == self.alive_at(x as int, y as int),
    {
        cell(self, x, y) == 1
    }
}

/// Index bound: a row-major index of an in-range position is in range of
/// the storage.
proof fn lemma_rm_index(width: int, height: int, x: int, y: int)
    requires
        0 <= x < width,
        0 <= y < height,
    ensures
        0 <= y * width + x < width * height,
{
    assert(0 <= y * width + x < width * height) by (nonlinear_arith)
        requires
            0 <= x < width,
            0 <= y < height,
    ;
}

/// Row-major indices are unique over in-range columns.
proof fn lemma_rm_unique(width: int, x1: int, y1: int, x2: int, y2: int)
    requires
        0 <= x1 < width,
        0 <= x2 < width,
        0 <= y1,
        0 <= y2,
        y1 * width + x1 == y2 * width + x2,
    ensures
        x1 == x2,
        y1 == y2,
{
    assert(x1 == x2 && y1 == y2) by (nonlinear_arith)
        requires
            0 <= x1 < width,
            0 <= x2 < width,
            0 <= y1,
            0 <= y2,
            y1 * width + x1 == y2 * width + x2,
    ;
}

/// The state (0 or 1) of the in-range cell `(x, y)`.
fn cell(g: &Grid, x: usize, y: usize) -> (r: u32)
    requires
        g.wf(),
        x < g.width,
        y < g.height,
    ensures
        r == g.cells@[y as int * g.width as int + x as int],
        r <= 1,
{
    let n = g.cells.len();
    proof {
        lemma_rm_index(g.width as int, g.height as int, x as int, y as int);
        assert((y as int * g.width as int + x as int) < (n as int));
    }
    g.cells[y * g.width + x]
}

/// Whether the neighbor of `(x, y)` at offset `(dx, dy)` is alive, with
/// out-of-range neighbors dead.
fn neighbor_alive(g: &Grid, x: usize, y: usize, dx: i8, dy: i8) -> (r: bool)
    requires
        g.wf(),
        x < g.width,
        y < g.height,
        -1 <= dx <= 1,
        -1 <= dy <= 1,
    ensures
        r == alive(g.cells@, g.width as int, g.height as int, x + dx, y + dy),
{
    if dx < 0 && x == 0 {
        return false;
    }
    if dy < 0 && y == 0 {
        return false;
    }
    let nx = if dx < 0 {
        x - 1
    } else if dx > 0 {
        x + 1
    } else {
        x
    };
    let ny = if dy < 0 {
        y - 1
    } else if dy > 0 {
        y + 1
    } else {
        y
    };
    if nx >= g.width || ny >= g.height {
        return false;
    }
    cell(g, nx, ny) == 1
}

/// How many of the 8 neighbors of the in-range cell `(x, y)` are alive.
fn live_neighbors(g: &Grid, x: usize, y: usize) -> (r: u32)
    requires
        g.wf(),
        x < g.width,
        y < g.height,
    ensures
        r == neighbor_count(g.cells@, g.width as int, g.height as int, x as int, y as int),
        r <= 8,
{
    let mut count: u32 = 0;
    if neighbor_alive(g, x, y, -1, 1) {
        count += 1;
    }
    if neighbor_alive(g, x, y, 0, 1) {
        count += 1;
    }
    if neighbor_alive(g, x, y, 1, 1) {
        count += 1;
    }
    if neighbor_alive(g, x, y, 1, 0) {
        count += 1;
    }
    if neighbor_alive(g, x, y, 1, -1) {
        count += 1;
    }
    if neighbor_alive(g, x, y, 0, -1) {
        count += 1;
    }
    if neighbor_alive(g, x, y, -1, -1) {
        count += 1;
    }
    if neighbor_alive(g, x, y, -1, 0) {
        count += 1;
    }
    count
}

/// Phase 1 of a step: the next generation of `g`, written into a fresh
/// grid so that the grid being read is never mutated mid-pass.
pub fn compute_life(g: &Grid) -> (r: Grid)
    requires
        g.wf(),
    ensures
        r.wf(),
        r.width == g.width,
        r.height == g.height,
        r.cells@ == next_gen(g.cells@, g.width as int, g.height as int),
        forall|x: int, y: int|
            0 <= x < g.width && 0 <= y < g.height ==> r.alive_at(x, y) == g.next_alive_at(x, y),
{
    let ghost w = g.width as int;
    let ghost h = g.height as int;
    let mut cells: Vec<u32> = Vec::new();
    let mut y: usize = 0;
    while y < g.height
        invariant
            g.wf(),
            w == g.width as int,
            h == g.height as int,
            y <= g.height,
            cells@.len() == y * w,
            forall|i: int| 0 <= i < cells@.len() ==> cells@[i] <= 1,
            forall|xx: int, yy: int|
                0 <= xx < w && 0 <= yy < h && yy * w + xx < cells@.len() ==> cells@[yy * w + xx]
                    == (if next_alive(g.cells@, w, h, xx, yy) {
                    1u32
                } else {
                    0u32
                }),
        decreases g.height - y,
    {
        let mut x: usize = 0;
        while x < g.width
            invariant
                g.wf(),
                w == g.width as int,
                h == g.height as int,
                y < g.height,
                x <= g.width,
                cells@.len() == y * w + x,
                forall|i: int| 0 <= i < cells@.len() ==> cells@[i] <= 1,
                forall|xx: int, yy: int|
                    0 <= xx < w && 0 <= yy < h && yy * w + xx < cells@.len() ==> cells@[yy * w + xx]
                        == (if next_alive(g.cells@, w, h, xx, yy) {
                        1u32
                    } else {
                        0u32
                    }),
            decreases g.width - x,
        {
            proof {
                lemma_rm_index(w, h, x as int, y as int);
            }
            let n = live_neighbors(g, x, y);
            let cur = cell(g, x, y);
            let v: u32 = if n == 3 || (n == 2 && cur == 1) {
                1
            } else {
                0
            };
            cells.push(v);
            proof {
                assert forall|xx: int, yy: int|
                    0 <= xx < w && 0 <= yy < h && yy * w + xx < cells@.len() implies cells@[yy * w
                    + xx] == (if next_alive(g.cells@, w, h, xx, yy) {
                    1u32
                } else {
                    0u32
                }) by {
                    if yy * w + xx == y * w + x {
                        lemma_rm_unique(w, xx, yy, x as int, y as int);
                    }
                }
            }
            x += 1;
        }
        proof {
            assert((y + 1) * w == y * w + w) by (nonlinear_arith);
        }
        y += 1;
    }
    let r = Grid { width: g.width, height: g.height, cells };
    proof {
        assert(h * w == w * h) by (nonlinear_arith);
        assert(r.cells@ =~= next_gen(g.cells@, w, h)) by {
            assert(r.cells@.len() == (w * h) as nat);
            assert forall|i: int| 0 <= i < r.cells@.len() implies r.cells@[i] == next_gen(
                g.cells@,
                w,
                h,
            )[i] by {
                vstd::arithmetic::div_mod::lemma_fundamental_div_mod(i, w);
                let xx = i % w;
                let yy = i / w;
                assert(0 <= xx < w && 0 <= yy < h) by (nonlinear_arith)
                    requires
                        i == w * yy + xx,
                        0 <= xx < w,
                        0 <= i < w * h,
                        0 < w,
                        0 < h,
                ;
                assert(yy * w + xx == i) by (nonlinear_arith)
                    requires
                        i == w * yy + xx,
                ;
            }
        }
        assert forall|x: int, y: int|
            0 <= x < g.width && 0 <= y < g.height implies r.alive_at(x, y) == g.next_alive_at(
            x,
            y,
        ) by {
            lemma_rm_index(w, h, x, y);
        }
    }
    r
}

/// Phase 2 of a step: one pixel per cell, `live` where the cell is alive
/// and `dead` where it is not.
pub fn compute_color(g: &Grid, live: Rgba, dead: Rgba) -> (img: Vec<Rgba>)
    requires
        g.wf(),
    ensures
        img@ == colorize(g.cells@, live, dead),
{
    let mut img: Vec<Rgba> = Vec::new();
    let n = g.cells.len();
    let mut i: usize = 0;
    while i < n
        invariant
            n == g.cells@.len(),
            i <= n,
            img@.len() == i,
            forall|j: int|
                0 <= j < i ==> img@[j] == (if g.cells@[j] == 1 {
                    live
                } else {
                    dead
                }),
        decreases n - i,
    {
        if g.cells[i] == 1 {
            img.push(live);
        } else {
            img.push(dead);
        }
        i += 1;
    }
    proof {
        assert(img@ =~= colorize(g.cells@, live, dead));
    }
    img
}

} // verus!
