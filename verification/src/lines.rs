//! Integer line rasterization: the ordered sequence of grid cells a straight
//! sight or path line passes through, exact for any slope.
//!
//! The rasterized line is pinned to a closed form: walking the major axis one
//! cell per step, the minor coordinate of step `k` is the rounded share
//! `(2*k*minor + major) / (2*major)` of the slope, which is the classic
//! integer (Bresenham-style) midpoint line.

use crate::geometry::{LineAlg, Point};
use vstd::arithmetic::div_mod::{
    lemma_basic_div, lemma_div_is_ordered, lemma_fundamental_div_mod_converse,
};
use vstd::prelude::*;

verus! {

/// The absolute difference of two coordinates.
pub open spec fn delta(a: int, b: int) -> int {
    if b >= a {
        b - a
    } else {
        a - b
    }
}

/// The coordinate that lies `k` cells from `a` in the direction of `b`.
pub open spec fn stepped(a: int, b: int, k: int) -> int {
    if a <= b {
        a + k
    } else {
        a - k
    }
}

/// How many cells the rasterized line from `a` to `b` holds: one per step of
/// the major axis, plus the starting cell.
pub open spec fn line_len(a: (int, int), b: (int, int)) -> int {
    1 + vstd::math::max(delta(a.0, b.0), delta(a.1, b.1))
}

/// The minor-axis offset after `k` steps along the major axis: the rounded
/// share `k * minor / major`, with ties pushed away from the start.
pub open spec fn minor_offset(k: int, minor: int, major: int) -> int {
    (2 * k * minor + major) / (2 * major)
}

/// The cell of the rasterized line from `a` to `b` that stands `k` steps from
/// its start.
pub open spec fn line_pt(a: (int, int), b: (int, int), k: int) -> (int, int) {
    let dx = delta(a.0, b.0);
    let dy = delta(a.1, b.1);
    if dx == 0 && dy == 0 {
        a
    } else if dx >= dy {
        (stepped(a.0, b.0, k), stepped(a.1, b.1, minor_offset(k, dy, dx)))
    } else {
        (stepped(a.0, b.0, minor_offset(k, dx, dy)), stepped(a.1, b.1, k))
    }
}

/// The whole rasterized line from `a` to `b`, as a sequence of coordinate
/// pairs.
pub open spec fn line_pts(a: (int, int), b: (int, int)) -> Seq<(int, int)> {
    Seq::new(line_len(a, b) as nat, |k: int| line_pt(a, b, k))
}

/// The minor offset starts at zero, ends at the full minor delta, and never
/// moves backwards.
pub(crate) proof fn lemma_minor_offset_bounds(k: int, minor: int, major: int)
    requires
        0 <= minor <= major,
        1 <= major,
        0 <= k <= major,
    ensures
        0 <= minor_offset(k, minor, major) <= minor,
        k == 0 ==> minor_offset(k, minor, major) == 0,
        k == major ==> minor_offset(k, minor, major) == minor,
{
    let num = 2 * k * minor + major;
    let den = 2 * major;
    assert(2 * k * minor >= 0) by (nonlinear_arith)
        requires
            k >= 0,
            minor >= 0,
    ;
    assert(2 * k * minor <= 2 * major * minor) by (nonlinear_arith)
        requires
            0 <= k <= major,
            minor >= 0,
    ;
    assert(2 * major * minor + major == minor * (2 * major) + major) by (nonlinear_arith);
    // num <= minor * den + major, and 0 <= major < den, so the quotient is at
    // most minor; num >= 0, so it is at least 0.
    lemma_fundamental_div_mod_converse(minor * (2 * major) + major, den, minor, major);
    lemma_div_is_ordered(num, minor * (2 * major) + major, den);
    lemma_div_is_ordered(0, num, den);
    lemma_basic_div(0, den);
    if k == 0 {
        assert(2 * k * minor == 0) by (nonlinear_arith)
            requires
                k == 0,
        ;
        assert(num == major);
        lemma_basic_div(major, den);
    }
    if k == major {
        assert(num == minor * (2 * major) + major) by (nonlinear_arith)
            requires
                k == major,
                num == 2 * k * minor + major,
        ;
    }
}

/// Walking a rasterized line away from its start never brings a cell closer
/// to the start: the squared distance from the start is monotone along the
/// line.
pub proof fn lemma_line_dsq_monotone(a: (int, int), b: (int, int), k1: int, k2: int)
    requires
        0 <= k1 <= k2 < line_len(a, b),
    ensures
        crate::geometry::dist_sq(a, line_pt(a, b, k1)) <= crate::geometry::dist_sq(
            a,
            line_pt(a, b, k2),
        ),
{
    let dx = delta(a.0, b.0);
    let dy = delta(a.1, b.1);
    if dx == 0 && dy == 0 {
    } else if dx >= dy {
        lemma_minor_offset_bounds(k1, dy, dx);
        lemma_minor_offset_bounds(k2, dy, dx);
        let q1 = minor_offset(k1, dy, dx);
        let q2 = minor_offset(k2, dy, dx);
        assert(2 * k1 * dy + dx <= 2 * k2 * dy + dx) by (nonlinear_arith)
            requires
                k1 <= k2,
                dy >= 0,
        ;
        lemma_div_is_ordered(2 * k1 * dy + dx, 2 * k2 * dy + dx, 2 * dx);
        lemma_offsets_dsq(a, line_pt(a, b, k1), k1, q1);
        lemma_offsets_dsq(a, line_pt(a, b, k2), k2, q2);
        assert(k1 * k1 + q1 * q1 <= k2 * k2 + q2 * q2) by (nonlinear_arith)
            requires
                0 <= k1 <= k2,
                0 <= q1 <= q2,
        ;
    } else {
        lemma_minor_offset_bounds(k1, dx, dy);
        lemma_minor_offset_bounds(k2, dx, dy);
        let q1 = minor_offset(k1, dx, dy);
        let q2 = minor_offset(k2, dx, dy);
        assert(2 * k1 * dx + dy <= 2 * k2 * dx + dy) by (nonlinear_arith)
            requires
                k1 <= k2,
                dx >= 0,
        ;
        lemma_div_is_ordered(2 * k1 * dx + dy, 2 * k2 * dx + dy, 2 * dy);
        lemma_offsets_dsq(a, line_pt(a, b, k1), q1, k1);
        lemma_offsets_dsq(a, line_pt(a, b, k2), q2, k2);
        assert(q1 * q1 + k1 * k1 <= q2 * q2 + k2 * k2) by (nonlinear_arith)
            requires
                0 <= k1 <= k2,
                0 <= q1 <= q2,
        ;
    }
}

/// A point whose coordinates stand `ox` and `oy` cells from `a` — in either
/// direction — has squared distance `ox² + oy²` from `a`.
proof fn lemma_offsets_dsq(a: (int, int), p: (int, int), ox: int, oy: int)
    requires
        p.0 == a.0 + ox || p.0 == a.0 - ox,
        p.1 == a.1 + oy || p.1 == a.1 - oy,
    ensures
        crate::geometry::dist_sq(a, p) == ox * ox + oy * oy,
{
    assert((p.0 - a.0) * (p.0 - a.0) == ox * ox) by (nonlinear_arith)
        requires
            p.0 - a.0 == ox || p.0 - a.0 == -ox,
    ;
    assert((p.1 - a.1) * (p.1 - a.1) == oy * oy) by (nonlinear_arith)
        requires
            p.1 - a.1 == oy || p.1 - a.1 == -oy,
    ;
}

/// Produces the ordered sequence of grid cells connecting `start` to `end`:
/// `start` stands first, `end` last, each exactly once.
pub fn line2d(algorithm: LineAlg, start: Point, end: Point) -> (r: Vec<Point>)
    requires
        algorithm == LineAlg::Bresenham,
    ensures
        r@.len() == line_len(start@, end@),
        forall|k: int| 0 <= k < r@.len() ==> (#[trigger] r@[k])@ == line_pt(start@, end@, k),
        r@[0] == start,
        r@[r@.len() - 1] == end,
{
    let x0 = start.x as i64;
    let y0 = start.y as i64;
    let x1 = end.x as i64;
    let y1 = end.y as i64;
    let dx: u64 = if x1 >= x0 {
        (x1 - x0) as u64
    } else {
        (x0 - x1) as u64
    };
    let dy: u64 = if y1 >= y0 {
        (y1 - y0) as u64
    } else {
        (y0 - y1) as u64
    };
    let n: u64 = if dx >= dy {
        dx
    } else {
        dy
    };
    let mut r: Vec<Point> = Vec::new();
    let mut k: u64 = 0;
    while k <= n
        invariant
            0 <= k <= n + 1,
            x0 == start.x as int && y0 == start.y as int,
            x1 == end.x as int && y1 == end.y as int,
            dx == delta(start@.0, end@.0),
            dy == delta(start@.1, end@.1),
            n + 1 == line_len(start@, end@),
            r@.len() == k,
            forall|j: int| 0 <= j < k ==> (#[trigger] r@[j])@ == line_pt(start@, end@, j),
        decreases n + 1 - k,
    {
        let pair: (i64, i64) = if dx == 0 && dy == 0 {
            (x0, y0)
        } else if dx >= dy {
            proof {
                assert(2 * (k as int) * (dy as int) <= 2 * 0x1_0000_0000 * 0x1_0000_0000)
                    by (nonlinear_arith)
                    requires
                        0 <= k as int <= 0x1_0000_0000,
                        0 <= dy as int <= 0x1_0000_0000,
                ;
                lemma_minor_offset_bounds(k as int, dy as int, dx as int);
            }
            let px: i64 = if x0 <= x1 {
                x0 + k as i64
            } else {
                x0 - k as i64
            };
            let num: u128 = 2 * (k as u128) * (dy as u128) + dx as u128;
            let q: u64 = (num / (2 * (dx as u128))) as u64;
            proof {
                assert(q == minor_offset(k as int, dy as int, dx as int));
                assert(px as int == line_pt(start@, end@, k as int).0);
            }
            let py: i64 = if y0 <= y1 {
                y0 + q as i64
            } else {
                y0 - q as i64
            };
            (px, py)
        } else {
            proof {
                assert(2 * (k as int) * (dx as int) <= 2 * 0x1_0000_0000 * 0x1_0000_0000)
                    by (nonlinear_arith)
                    requires
                        0 <= k as int <= 0x1_0000_0000,
                        0 <= dx as int <= 0x1_0000_0000,
                ;
                lemma_minor_offset_bounds(k as int, dx as int, dy as int);
            }
            let py: i64 = if y0 <= y1 {
                y0 + k as i64
            } else {
                y0 - k as i64
            };
            let num: u128 = 2 * (k as u128) * (dx as u128) + dy as u128;
            let q: u64 = (num / (2 * (dy as u128))) as u64;
            proof {
                assert(q == minor_offset(k as int, dx as int, dy as int));
                assert(py as int == line_pt(start@, end@, k as int).1);
            }
            let px: i64 = if x0 <= x1 {
                x0 + q as i64
            } else {
                x0 - q as i64
            };
            (px, py)
        };
        let px = pair.0;
        let py = pair.1;
        proof {
            assert((px as int, py as int) == line_pt(start@, end@, k as int));
            assert(i32::MIN <= px <= i32::MAX);
            assert(i32::MIN <= py <= i32::MAX);
        }
        r.push(Point { x: px as i32, y: py as i32 });
        k = k + 1;
    }
    proof {
        let ddx = delta(start@.0, end@.0);
        let ddy = delta(start@.1, end@.1);
        assert(r@[0]@ == line_pt(start@, end@, 0));
        assert(r@[r@.len() - 1]@ == line_pt(start@, end@, line_len(start@, end@) - 1));
        if ddx == 0 && ddy == 0 {
        } else if ddx >= ddy {
            lemma_minor_offset_bounds(0, ddy, ddx);
            lemma_minor_offset_bounds(ddx, ddy, ddx);
        } else {
            lemma_minor_offset_bounds(0, ddx, ddy);
            lemma_minor_offset_bounds(ddy, ddx, ddy);
        }
    }
    r
}

} // verus!
