//! Extents of the visible surface and of the simulation grid.

use vstd::prelude::*;
use vstd::arithmetic::div_mod::lemma_fundamental_div_mod;

verus! {

/// Edge length, in surface pixels, of the square block that shows one cell.
pub const PXSIZE: i32 = 4;

/// A width and a height, counted in pixels or in cells.
#[derive(Clone, Copy, Debug, PartialEq, Eq, Structural)]
pub struct Size {
    pub width: i32,
    pub height: i32,
}

/// Quotient of `a` by a positive `k`, rounded toward zero.
///
/// For `a >= 0` this is the floor of `a / k`.
pub open spec fn quotient(a: int, k: int) -> int {
    if a >= 0 {
        a / k
    } else {
        -((-a) / k)
    }
}

impl Size {
    /// Neither extent is negative.
    pub open spec fn valid(self) -> bool {
        0 <= self.width && 0 <= self.height
    }

    /// Number of cells (or pixels) that the extents span.
    pub open spec fn area(self) -> int {
        self.width * self.height
    }

    /// The extents divided by the block factor `k`, each rounded toward zero.
    pub open spec fn shrunk(self, k: int) -> Size {
        Size { width: quotient(self.width as int, k) as i32, height: quotient(self.height as int, k) as i32 }
    }

    /// The number of cells that the extents span, if neither is negative and
    /// the number can be the length of a buffer.
    pub fn cell_count(self) -> (count: Option<usize>)
        ensures
            count is Some <==> self.valid() && self.area() <= usize::MAX,
            count matches Some(n) ==> n == self.area(),
    {
        if self.width < 0 || self.height < 0 {
            return None;
        }
        assert(0 <= self.width * self.height <= i32::MAX * i32::MAX) by (nonlinear_arith)
            requires
                0 <= self.width <= i32::MAX,
                0 <= self.height <= i32::MAX,
        ;
        let cells: u64 = (self.width as u64) * (self.height as u64);
        if cells > usize::MAX as u64 {
            None
        } else {
            Some(cells as usize)
        }
    }

    /// Divides both extents by the block factor `k`.
    pub fn scaled_down(self, k: i32) -> (sim: Size)
        requires
            k >= 1,
        ensures
            sim == self.shrunk(k as int),
            sim.width == quotient(self.width as int, k as int),
            sim.height == quotient(self.height as int, k as int),
            self.valid() ==> sim.valid() && sim.width == self.width / k && sim.height == self.height / k,
    {
        Size { width: self.width / k, height: self.height / k }
    }
}

/// The grid is the largest whose blocks of `k` by `k` pixels fit on the
/// surface: each of its extents is the floor of the surface's divided by `k`.
pub proof fn shrunk_is_floor(display: Size, k: int)
    requires
        display.valid(),
        1 <= k,
    ensures
        display.shrunk(k).valid(),
        display.shrunk(k).width == display.width as int / k,
        display.shrunk(k).height == display.height as int / k,
        display.shrunk(k).width * k <= display.width < (display.shrunk(k).width + 1) * k,
        display.shrunk(k).height * k <= display.height < (display.shrunk(k).height + 1) * k,
{
    floor_bounds(display.width as int, k);
    floor_bounds(display.height as int, k);
}

/// The floor of `a / k` is the one `q` with `q * k <= a < (q + 1) * k`.
pub proof fn floor_bounds(a: int, k: int)
    requires
        0 <= a,
        1 <= k,
    ensures
        0 <= a / k <= a,
        (a / k) * k <= a < (a / k + 1) * k,
{
    lemma_fundamental_div_mod(a, k);
    assert(0 <= a / k <= a && (a / k) * k <= a < (a / k + 1) * k) by (nonlinear_arith)
        requires
            a == k * (a / k) + a % k,
            0 <= a % k < k,
            0 <= a,
            1 <= k,
    ;
}

} // verus!
