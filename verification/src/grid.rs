//! Reference semantics of a state texture: what the compute pass writes for a
//! grid of cells, and what the display pass shows of it.
//!
//! [`Image`] is the mathematical model, [`Grid`] an executable counterpart
//! that computes the same thing cell by cell. The engine itself keeps no grid;
//! this module says what the shaders are for.

use vstd::prelude::*;
use vstd::arithmetic::div_mod::{
    lemma_fundamental_div_mod,
    lemma_fundamental_div_mod_converse,
    lemma_mod_add_multiples_vanish,
    lemma_mod_self_0,
    lemma_small_mod,
};
use crate::rule::{alive, evolve, evolved, evolved_follows_rule, is_alive, survives, unit};
use crate::size::floor_bounds;

verus! {

/// A rectangle of texels, row by row.
pub struct Image {
    pub width: int,
    pub height: int,
    pub texels: Seq<u8>,
}

/// The coordinate `i` on a ring of `n` places.
pub open spec fn wrap(i: int, n: int) -> int {
    i % n
}

impl Image {
    /// There is exactly one texel for every cell.
    pub open spec fn wf(self) -> bool {
        &&& 0 <= self.width
        &&& 0 <= self.height
        &&& self.texels.len() == self.width * self.height
    }

    /// The texel at column `x` and row `y`, both taken on the torus.
    pub open spec fn texel(self, x: int, y: int) -> u8 {
        self.texels[wrap(y, self.height) * self.width + wrap(x, self.width)]
    }

    /// One if the cell at `(x, y)` is alive, zero if not.
    pub open spec fn lives(self, x: int, y: int) -> int {
        unit(alive(self.texel(x, y)))
    }

    /// How many of the eight cells around `(x, y)` are alive.
    pub open spec fn neighbours(self, x: int, y: int) -> int {
        self.lives(x - 1, y - 1) + self.lives(x, y - 1) + self.lives(x + 1, y - 1)
            + self.lives(x - 1, y) + self.lives(x + 1, y)
            + self.lives(x - 1, y + 1) + self.lives(x, y + 1) + self.lives(x + 1, y + 1)
    }

    /// The texel that the compute pass writes for the cell at `(x, y)`.
    pub open spec fn next_texel(self, x: int, y: int) -> u8 {
        evolved(self.texel(x, y), self.neighbours(x, y))
    }

    /// The image that the compute pass writes: the next generation.
    pub open spec fn next(self) -> Image {
        Image {
            width: self.width,
            height: self.height,
            texels: Seq::new(
                self.texels.len(),
                |i: int| self.next_texel(i % self.width, i / self.width),
            ),
        }
    }

    /// The image after `n` generations.
    pub open spec fn generation(self, n: nat) -> Image
        decreases n,
    {
        if n == 0 {
            self
        } else {
            self.next().generation((n - 1) as nat)
        }
    }

    /// The grey value that the display pass gives the surface pixel
    /// `(px, py)` when one cell covers `k` by `k` pixels; nothing where the
    /// pixel lies beyond the last cell.
    pub open spec fn shown(self, px: int, py: int, k: int) -> Option<u8> {
        if 0 <= px / k < self.width && 0 <= py / k < self.height {
            Some(self.texels[(py / k) * self.width + px / k])
        } else {
            None
        }
    }
}

/// Where a cell inside the grid sits in the row-by-row sequence.
pub proof fn cell_index(w: int, h: int, x: int, y: int)
    requires
        0 <= x < w,
        0 <= y < h,
    ensures
        0 <= y * w + x < w * h,
        0 <= y * w,
        (y * w + x) % w == x,
        (y * w + x) / w == y,
{
    assert(0 <= y * w && y * w + x < w * h) by (nonlinear_arith)
        requires
            0 <= x < w,
            0 <= y < h,
    ;
    lemma_fundamental_div_mod_converse(y * w + x, w, y, x);
}

/// Which cell the `i`-th texel of a grid belongs to.
pub proof fn index_cell(w: int, h: int, i: int)
    requires
        0 <= i < w * h,
        0 <= w,
        0 <= h,
    ensures
        0 < w,
        0 <= i % w < w,
        0 <= i / w < h,
        (i / w) * w + i % w == i,
{
    assert(0 < w) by (nonlinear_arith)
        requires
            0 <= i < w * h,
            0 <= w,
            0 <= h,
    ;
    lemma_fundamental_div_mod(i, w);
    let q = i / w;
    let r = i % w;
    assert(0 <= r < w);
    assert(w * q == q * w) by (nonlinear_arith);
    assert(0 <= q < h) by (nonlinear_arith)
        requires
            i == w * q + r,
            0 <= r < w,
            0 <= i < w * h,
            0 < w,
    ;
}

/// On a ring of `n` places, the place after the last is the first and the
/// place before the first is the last.
pub proof fn wrap_step(x: int, n: int)
    requires
        0 <= x < n,
    ensures
        wrap(x, n) == x,
        wrap(x + 1, n) == (if x + 1 == n { 0 } else { x + 1 }),
        wrap(x - 1, n) == (if x == 0 { n - 1 } else { x - 1 }),
{
    lemma_small_mod(x as nat, n as nat);
    if x + 1 == n {
        lemma_mod_self_0(n);
    } else {
        lemma_small_mod((x + 1) as nat, n as nat);
    }
    if x == 0 {
        lemma_mod_add_multiples_vanish(-1, n);
        lemma_small_mod((n - 1) as nat, n as nat);
    } else {
        lemma_small_mod((x - 1) as nat, n as nat);
    }
}

/// Coordinates that meet on the torus name the same cell.
pub proof fn same_cell(image: Image, a: int, b: int, x: int, y: int)
    requires
        0 <= x < image.width,
        0 <= y < image.height,
        wrap(a, image.width) == x,
        wrap(b, image.height) == y,
    ensures
        image.texel(a, b) == image.texel(x, y),
        image.lives(a, b) == image.lives(x, y),
{
    wrap_step(x, image.width);
    wrap_step(y, image.height);
}

/// The grid is a torus: the column after the last is column zero, the column
/// before column zero is the last, and likewise for rows. So a live cell in
/// column zero counts as a neighbour of the cell in the last column of its
/// row, and a live cell in row zero as a neighbour of the cell in the last row
/// of its column, and the other way round.
pub proof fn toroidal_wrap(image: Image, x: int, y: int)
    requires
        image.wf(),
        0 <= x < image.width,
        0 <= y < image.height,
    ensures
        image.texel(image.width, y) == image.texel(0, y),
        image.texel(-1, y) == image.texel(image.width - 1, y),
        image.texel(x, image.height) == image.texel(x, 0),
        image.texel(x, -1) == image.texel(x, image.height - 1),
        image.neighbours(image.width - 1, y) >= image.lives(0, y),
        image.neighbours(0, y) >= image.lives(image.width - 1, y),
        image.neighbours(x, image.height - 1) >= image.lives(x, 0),
        image.neighbours(x, 0) >= image.lives(x, image.height - 1),
{
    let w = image.width;
    let h = image.height;
    wrap_step(0, w);
    wrap_step(w - 1, w);
    wrap_step(0, h);
    wrap_step(h - 1, h);
    assert(image.lives(w - 1 + 1, y) == image.lives(0, y));
    assert(image.lives(0 - 1, y) == image.lives(w - 1, y));
    assert(image.lives(x, h - 1 + 1) == image.lives(x, 0));
    assert(image.lives(x, 0 - 1) == image.lives(x, h - 1));
}

/// Inside the grid, the next generation holds for every cell what the compute
/// pass writes for it, and the cell's liveness follows Conway's rule.
pub proof fn next_cell(image: Image, x: int, y: int)
    requires
        image.wf(),
        0 <= x < image.width,
        0 <= y < image.height,
    ensures
        image.next().wf(),
        image.next().texel(x, y) == image.next_texel(x, y),
        alive(image.next().texel(x, y)) == survives(alive(image.texel(x, y)), image.neighbours(x, y)),
{
    cell_index(image.width, image.height, x, y);
    wrap_step(x, image.width);
    wrap_step(y, image.height);
    evolved_follows_rule(image.texel(x, y), image.neighbours(x, y));
}

/// The two columns and two rows of a block whose first cell is `(bx, by)`,
/// taken on the torus.
pub open spec fn in_block(image: Image, bx: int, by: int, x: int, y: int) -> bool {
    &&& x == bx || x == wrap(bx + 1, image.width)
    &&& y == by || y == wrap(by + 1, image.height)
}

/// A block of two by two live cells, alone on a torus of at least three by
/// three cells, is a still life: the next generation has the same live cells.
/// This holds wherever the block lies, also where it reaches over the edge of
/// the grid and is a block only because the grid wraps around.
pub proof fn block_is_still_life(image: Image, bx: int, by: int)
    requires
        image.wf(),
        3 <= image.width,
        3 <= image.height,
        0 <= bx < image.width,
        0 <= by < image.height,
        forall|x: int, y: int|
            0 <= x < image.width && 0 <= y < image.height ==> (#[trigger] alive(image.texel(x, y))
                <==> in_block(image, bx, by, x, y)),
    ensures
        forall|x: int, y: int|
            0 <= x < image.width && 0 <= y < image.height ==> (#[trigger] alive(
                image.next().texel(x, y),
            ) <==> in_block(image, bx, by, x, y)),
{
    let w = image.width;
    let h = image.height;
    wrap_step(bx, w);
    wrap_step(by, h);
    assert forall|x: int, y: int| 0 <= x < w && 0 <= y < h implies (#[trigger] alive(
        image.next().texel(x, y),
    ) <==> in_block(image, bx, by, x, y)) by {
        next_cell(image, x, y);
        wrap_step(x, w);
        wrap_step(y, h);
        let left = wrap(x - 1, w);
        let right = wrap(x + 1, w);
        let up = wrap(y - 1, h);
        let down = wrap(y + 1, h);
        same_cell(image, x - 1, y - 1, left, up);
        same_cell(image, x, y - 1, x, up);
        same_cell(image, x + 1, y - 1, right, up);
        same_cell(image, x - 1, y, left, y);
        same_cell(image, x + 1, y, right, y);
        same_cell(image, x - 1, y + 1, left, down);
        same_cell(image, x, y + 1, x, down);
        same_cell(image, x + 1, y + 1, right, down);
        assert(alive(image.texel(left, up)) <==> in_block(image, bx, by, left, up));
        assert(alive(image.texel(x, up)) <==> in_block(image, bx, by, x, up));
        assert(alive(image.texel(right, up)) <==> in_block(image, bx, by, right, up));
        assert(alive(image.texel(left, y)) <==> in_block(image, bx, by, left, y));
        assert(alive(image.texel(x, y)) <==> in_block(image, bx, by, x, y));
        assert(alive(image.texel(right, y)) <==> in_block(image, bx, by, right, y));
        assert(alive(image.texel(left, down)) <==> in_block(image, bx, by, left, down));
        assert(alive(image.texel(x, down)) <==> in_block(image, bx, by, x, down));
        assert(alive(image.texel(right, down)) <==> in_block(image, bx, by, right, down));
    }
}

/// Every surface pixel that lies over the grid shows the cell whose block of
/// `k` by `k` pixels it falls into.
pub proof fn shown_covers(image: Image, px: int, py: int, k: int)
    requires
        image.wf(),
        1 <= k,
        0 <= px < image.width * k,
        0 <= py < image.height * k,
    ensures
        0 <= px / k < image.width,
        0 <= py / k < image.height,
        image.shown(px, py, k) == Some(image.texel(px / k, py / k)),
{
    floor_bounds(px, k);
    floor_bounds(py, k);
    assert(px / k < image.width) by (nonlinear_arith)
        requires
            (px / k) * k <= px < image.width * k,
            1 <= k,
    ;
    assert(py / k < image.height) by (nonlinear_arith)
        requires
            (py / k) * k <= py < image.height * k,
            1 <= k,
    ;
    wrap_step(px / k, image.width);
    wrap_step(py / k, image.height);
}

/// A grid of cells in memory, one byte per cell, row by row.
pub struct Grid {
    width: usize,
    height: usize,
    cells: Vec<u8>,
}

impl View for Grid {
    type V = Image;

    closed spec fn view(&self) -> Image {
        Image { width: self.width as int, height: self.height as int, texels: self.cells@ }
    }
}

impl Grid {
    #[verifier::type_invariant]
    spec fn inv(&self) -> bool {
        self.cells@.len() == self.width * self.height
    }

    /// A grid of the given extents over the given cells, if there is exactly
    /// one byte for every cell.
    pub fn new(width: usize, height: usize, cells: Vec<u8>) -> (grid: Option<Grid>)
        ensures
            grid is Some <==> cells@.len() == width * height,
            grid matches Some(g) ==> g@ == (Image {
                width: width as int,
                height: height as int,
                texels: cells@,
            }) && g@.wf(),
    {
        let total = cells.len();
        match width.checked_mul(height) {
            Some(n) => {
                if n == total {
                    Some(Grid { width, height, cells })
                } else {
                    None
                }
            },
            None => None,
        }
    }

    /// Number of columns.
    pub fn width(&self) -> (w: usize)
        ensures
            w == self@.width,
    {
        self.width
    }

    /// Number of rows.
    pub fn height(&self) -> (h: usize)
        ensures
            h == self@.height,
    {
        self.height
    }

    /// The cells, row by row.
    pub fn cells(&self) -> (cells: &Vec<u8>)
        ensures
            cells@ == self@.texels,
            self@.wf(),
    {
        proof {
            use_type_invariant(self);
        }
        &self.cells
    }

    /// The texel of the cell at column `x` and row `y`, if the grid has one.
    pub fn get(&self, x: usize, y: usize) -> (texel: Option<u8>)
        ensures
            self@.wf(),
            texel is Some <==> x < self@.width && y < self@.height,
            texel matches Some(t) ==> t == self@.texel(x as int, y as int) && t == self@.texels[y
                * self@.width + x],
    {
        proof {
            use_type_invariant(self);
        }
        if x < self.width && y < self.height {
            Some(self.fetch(x, y))
        } else {
            None
        }
    }

    fn fetch(&self, x: usize, y: usize) -> (texel: u8)
        requires
            x < self@.width,
            y < self@.height,
        ensures
            texel == self@.texel(x as int, y as int),
            texel == self@.texels[y * self@.width + x],
    {
        proof {
            use_type_invariant(self);
            cell_index(self.width as int, self.height as int, x as int, y as int);
            wrap_step(x as int, self.width as int);
            wrap_step(y as int, self.height as int);
            assert(self.cells@.len() == self.cells.len());
        }
        self.cells[y * self.width + x]
    }

    fn live(&self, x: usize, y: usize) -> (n: u8)
        requires
            x < self@.width,
            y < self@.height,
        ensures
            n == self@.lives(x as int, y as int),
            n <= 1,
    {
        if is_alive(self.fetch(x, y)) {
            1
        } else {
            0
        }
    }

    fn count(&self, x: usize, y: usize) -> (n: u8)
        requires
            x < self@.width,
            y < self@.height,
        ensures
            n == self@.neighbours(x as int, y as int),
            n <= 8,
    {
        let w = self.width;
        let h = self.height;
        let left = if x == 0 { w - 1 } else { x - 1 };
        let right = if x + 1 == w { 0 } else { x + 1 };
        let up = if y == 0 { h - 1 } else { y - 1 };
        let down = if y + 1 == h { 0 } else { y + 1 };
        proof {
            let image = self@;
            wrap_step(x as int, w as int);
            wrap_step(y as int, h as int);
            same_cell(image, x - 1, y - 1, left as int, up as int);
            same_cell(image, x as int, y - 1, x as int, up as int);
            same_cell(image, x + 1, y - 1, right as int, up as int);
            same_cell(image, x - 1, y as int, left as int, y as int);
            same_cell(image, x + 1, y as int, right as int, y as int);
            same_cell(image, x - 1, y + 1, left as int, down as int);
            same_cell(image, x as int, y + 1, x as int, down as int);
            same_cell(image, x + 1, y + 1, right as int, down as int);
        }
        let top = self.live(left, up) + self.live(x, up) + self.live(right, up);
        let middle = self.live(left, y) + self.live(right, y);
        let bottom = self.live(left, down) + self.live(x, down) + self.live(right, down);
        top + middle + bottom
    }

    /// How many of the eight cells around `(x, y)` are alive, if the grid has
    /// such a cell. Neighbours are taken on the torus.
    pub fn neighbours(&self, x: usize, y: usize) -> (n: Option<u8>)
        ensures
            n is Some <==> x < self@.width && y < self@.height,
            n matches Some(count) ==> count == self@.neighbours(x as int, y as int),
    {
        if x < self.width && y < self.height {
            Some(self.count(x, y))
        } else {
            None
        }
    }

    /// The next generation, as the compute pass writes it.
    pub fn step(&self) -> (next: Grid)
        ensures
            next@ == self@.next(),
            next@.wf(),
    {
        proof {
            use_type_invariant(self);
        }
        let total = self.cells.len();
        let ghost image = self@;
        let mut cells: Vec<u8> = Vec::new();
        let mut i: usize = 0;
        while i < total
            invariant
                image == self@,
                image.wf(),
                total == image.texels.len(),
                i <= total,
                cells@.len() == i,
                forall|j: int|
                    0 <= j < i ==> cells@[j] == #[trigger] image.next_texel(
                        j % image.width,
                        j / image.width,
                    ),
            decreases total - i,
        {
            proof {
                index_cell(image.width, image.height, i as int);
            }
            let x = i % self.width;
            let y = i / self.width;
            let texel = self.fetch(x, y);
            let n = self.count(x, y);
            cells.push(evolve(texel, n));
            i = i + 1;
        }
        assert(cells@ =~= image.next().texels);
        Grid { width: self.width, height: self.height, cells }
    }

    /// The grey value of the surface pixel `(px, py)` when one cell covers `k`
    /// by `k` pixels, or nothing if the pixel lies beyond the last cell.
    pub fn sample(&self, px: usize, py: usize, k: usize) -> (grey: Option<u8>)
        requires
            k >= 1,
        ensures
            grey == self@.shown(px as int, py as int, k as int),
    {
        let x = px / k;
        let y = py / k;
        if x < self.width && y < self.height {
            Some(self.fetch(x, y))
        } else {
            None
        }
    }
}

} // verus!
