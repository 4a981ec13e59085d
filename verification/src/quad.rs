//! The full-screen quad: two triangles that together cover the viewport.

use vstd::prelude::*;

verus! {

/// Coordinates per corner.
pub const COMPONENTS: i32 = 2;

/// Name of the vertex attribute that receives the corners.
pub const ATTRIBUTE: &'static str = "position";

/// The corners of the two triangles in clip space, `x` before `y`.
pub open spec fn corners() -> Seq<i8> {
    seq![-1i8, -1i8, 1i8, -1i8, -1i8, 1i8, 1i8, -1i8, 1i8, 1i8, -1i8, 1i8]
}

/// The `i`-th corner.
pub open spec fn corner(i: int) -> (int, int) {
    (corners()[2 * i] as int, corners()[2 * i + 1] as int)
}

/// Twice the signed area of the triangle `a`, `b`, `p`: positive where `p`
/// lies to the left of the line from `a` to `b`.
pub open spec fn side(a: (int, int), b: (int, int), p: (int, int)) -> int {
    (b.0 - a.0) * (p.1 - a.1) - (b.1 - a.1) * (p.0 - a.0)
}

/// Whether the point `p / n` lies in the `t`-th triangle or on its border.
/// Points are given as integer multiples of `1 / n`.
pub open spec fn in_triangle(t: int, p: (int, int), n: int) -> bool {
    let a = (n * corner(3 * t).0, n * corner(3 * t).1);
    let b = (n * corner(3 * t + 1).0, n * corner(3 * t + 1).1);
    let c = (n * corner(3 * t + 2).0, n * corner(3 * t + 2).1);
    side(a, b, p) >= 0 && side(b, c, p) >= 0 && side(c, a, p) >= 0
}

/// Whether the point `p / n` lies strictly inside the `t`-th triangle.
pub open spec fn inside_triangle(t: int, p: (int, int), n: int) -> bool {
    let a = (n * corner(3 * t).0, n * corner(3 * t).1);
    let b = (n * corner(3 * t + 1).0, n * corner(3 * t + 1).1);
    let c = (n * corner(3 * t + 2).0, n * corner(3 * t + 2).1);
    side(a, b, p) > 0 && side(b, c, p) > 0 && side(c, a, p) > 0
}

/// The corners of the quad, ready to be converted and uploaded.
pub fn vertices() -> (v: [i8; 12])
    ensures
        v@ == corners(),
        v@.len() == COMPONENTS * crate::engine::QUAD_VERTICES,
{
    let v: [i8; 12] = [-1, -1, 1, -1, -1, 1, 1, -1, 1, 1, -1, 1];
    assert(v@ =~= corners());
    v
}

/// The two triangles cover the viewport and do not overlap: every point of
/// the clip-space square lies in one of them, and no point lies strictly
/// inside both. So every cell of the render target gets exactly one fragment.
pub proof fn quad_covers_viewport(x: int, y: int, n: int)
    requires
        1 <= n,
        -n <= x <= n,
        -n <= y <= n,
    ensures
        in_triangle(0, (x, y), n) || in_triangle(1, (x, y), n),
        !(inside_triangle(0, (x, y), n) && inside_triangle(1, (x, y), n)),
{
    let p = (x, y);
    assert(corner(0) == (-1int, -1int));
    assert(corner(1) == (1int, -1int));
    assert(corner(2) == (-1int, 1int));
    assert(corner(3) == (1int, -1int));
    assert(corner(4) == (1int, 1int));
    assert(corner(5) == (-1int, 1int));
    let a0 = (n * -1, n * -1);
    let b0 = (n * 1, n * -1);
    let c0 = (n * -1, n * 1);
    let b1 = (n * 1, n * 1);
    assert(side(a0, b0, p) == 2 * n * (y + n)) by (nonlinear_arith)
        requires
            a0 == (n * -1, n * -1),
            b0 == (n * 1, n * -1),
            p == (x, y),
    ;
    assert(side(b0, c0, p) == -2 * n * (x + y)) by (nonlinear_arith)
        requires
            b0 == (n * 1, n * -1),
            c0 == (n * -1, n * 1),
            p == (x, y),
    ;
    assert(side(c0, a0, p) == 2 * n * (x + n)) by (nonlinear_arith)
        requires
            c0 == (n * -1, n * 1),
            a0 == (n * -1, n * -1),
            p == (x, y),
    ;
    assert(side(b0, b1, p) == 2 * n * (n - x)) by (nonlinear_arith)
        requires
            b0 == (n * 1, n * -1),
            b1 == (n * 1, n * 1),
            p == (x, y),
    ;
    assert(side(b1, c0, p) == 2 * n * (n - y)) by (nonlinear_arith)
        requires
            b1 == (n * 1, n * 1),
            c0 == (n * -1, n * 1),
            p == (x, y),
    ;
    assert(side(c0, b0, p) == 2 * n * (x + y)) by (nonlinear_arith)
        requires
            b0 == (n * 1, n * -1),
            c0 == (n * -1, n * 1),
            p == (x, y),
    ;
    assert(2 * n * (y + n) >= 0 && 2 * n * (x + n) >= 0 && 2 * n * (n - x) >= 0 && 2 * n * (n - y)
        >= 0) by (nonlinear_arith)
        requires
            1 <= n,
            -n <= x <= n,
            -n <= y <= n,
    ;
    assert((x + y <= 0 ==> -2 * n * (x + y) >= 0) && (x + y >= 0 ==> 2 * n * (x + y) >= 0) && (-2
        * n * (x + y) > 0 ==> !(2 * n * (x + y) > 0))) by (nonlinear_arith)
        requires
            1 <= n,
    ;
}

} // verus!
