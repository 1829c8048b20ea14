//! Field of view by perimeter ray casting: every cell of the bounding box's
//! rim gets a rasterized sight line from the origin, each line is walked
//! outward until it leaves the radius or hits an opaque cell (which is itself
//! still visible), and the union of the walked cells — deduplicated — is the
//! visible set.

use crate::basemap::Algorithm2D;
use crate::geometry::{dist_sq, distance2d_pythagoras_squared, LineAlg, Point};
use crate::lines::{line2d, line_pts};
use vstd::prelude::*;

verus! {

/// The coordinate pairs of a sequence of points, in order.
pub open spec fn view_pts(s: Seq<Point>) -> Seq<(int, int)> {
    Seq::new(s.len(), |i: int| s[i]@)
}

/// Whether the cell at coordinate `p` blocks sight on `map`.
pub open spec fn blocked<M: Algorithm2D>(map: &M, p: (int, int)) -> bool {
    map.spec_opaque(map.spec_index(p.0, p.1))
}

/// The cells a sight line yields from its `i`-th cell on: cells are taken in
/// order while they lie within the squared radius `rsq`; an opaque cell is
/// taken and ends the line; a cell beyond the radius ends the line untaken.
pub open spec fn scan_pts<M: Algorithm2D>(
    map: &M,
    line: Seq<(int, int)>,
    origin: (int, int),
    rsq: int,
    i: int,
) -> Seq<(int, int)>
    decreases line.len() - i,
{
    if i < 0 || i >= line.len() {
        Seq::empty()
    } else if dist_sq(origin, line[i]) > rsq {
        Seq::empty()
    } else if blocked(map, line[i]) {
        seq![line[i]]
    } else {
        seq![line[i]] + scan_pts(map, line, origin, rsq, i + 1)
    }
}

/// How many cells the top or bottom edge of the bounding box holds.
pub open spec fn perim_width(range: int) -> int {
    if range < 0 {
        0
    } else {
        2 * range + 1
    }
}

/// How many cells the left or right edge holds once the corner rows are
/// covered by the top and bottom edges.
pub open spec fn perim_side(range: int) -> int {
    if range >= 1 {
        2 * range - 1
    } else {
        0
    }
}

/// How many perimeter cells — and so sight lines — a query of this radius
/// casts.
pub open spec fn perim_count(range: int) -> int {
    2 * perim_width(range) + 2 * perim_side(range)
}

/// The `j`-th perimeter cell of the bounding box of half-width `range`
/// around `start`: the top edge first, then the bottom edge, then the left
/// and right edges without their corners.
pub open spec fn perim_pt(start: (int, int), range: int, j: int) -> (int, int) {
    let w = perim_width(range);
    let h = perim_side(range);
    if j < w {
        (start.0 - range + j, start.1 - range)
    } else if j < 2 * w {
        (start.0 - range + (j - w), start.1 + range)
    } else if j < 2 * w + h {
        (start.0 - range, start.1 - range + 1 + (j - 2 * w))
    } else {
        (start.0 + range, start.1 - range + 1 + (j - 2 * w - h))
    }
}

/// The cells the `j`-th cast sight line yields.
pub open spec fn ray_scan<M: Algorithm2D>(
    map: &M,
    start: (int, int),
    range: int,
    j: int,
) -> Seq<(int, int)> {
    scan_pts(
        map,
        line_pts(start, perim_pt(start, range, j)),
        start,
        range * range,
        0,
    )
}

/// Whether one of the first `j` cast sight lines yields the cell `p`.
pub open spec fn visible_upto<M: Algorithm2D>(
    map: &M,
    start: (int, int),
    range: int,
    j: int,
    p: (int, int),
) -> bool {
    exists|jj: int| 0 <= jj < j && #[trigger] ray_scan(map, start, range, jj).contains(p)
}

/// Whether the cell `p` is visible from `start` within `range` on `map`:
/// some cast sight line yields it.
pub open spec fn fov_visible<M: Algorithm2D>(
    map: &M,
    start: (int, int),
    range: int,
    p: (int, int),
) -> bool {
    visible_upto(map, start, range, perim_count(range), p)
}

/// Whether one of the first `m` points of `s` has the coordinates `q`.
pub open spec fn in_prefix(s: Seq<Point>, m: int, q: (int, int)) -> bool {
    exists|mm: int| 0 <= mm < m && (#[trigger] s[mm])@ == q
}

/// Seeing one more cell of a line extends its prefix by exactly that cell.
proof fn lemma_in_prefix_step(s: Seq<Point>, m: int, q: (int, int))
    requires
        0 <= m < s.len(),
    ensures
        in_prefix(s, m + 1, q) <==> (in_prefix(s, m, q) || s[m]@ == q),
{
    if in_prefix(s, m + 1, q) {
        let mm = choose|mm: int| 0 <= mm < m + 1 && (#[trigger] s[mm])@ == q;
        if mm < m {
            assert(in_prefix(s, m, q));
        } else {
            assert(s[m]@ == q);
        }
    }
    if in_prefix(s, m, q) {
        let mm = choose|mm: int| 0 <= mm < m && (#[trigger] s[mm])@ == q;
        assert(0 <= mm < m + 1 && s[mm]@ == q);
        assert(in_prefix(s, m + 1, q));
    }
    if s[m]@ == q {
        assert(in_prefix(s, m + 1, q));
    }
}

/// Pushing a point onto a list adds exactly that point to its membership.
proof fn lemma_push_contains(s: Seq<Point>, x: Point, pp: Point)
    ensures
        s.push(x).contains(pp) <==> (s.contains(pp) || pp == x),
{
    if s.push(x).contains(pp) {
        let i = choose|i: int| 0 <= i < s.push(x).len() && s.push(x)[i] == pp;
        if i < s.len() {
            assert(s[i] == pp);
            assert(s.contains(pp));
        } else {
            assert(pp == x);
        }
    }
    if s.contains(pp) {
        let i = choose|i: int| 0 <= i < s.len() && s[i] == pp;
        assert(s.push(x)[i] == pp);
        assert(s.push(x).contains(pp));
    }
    if pp == x {
        assert(s.push(x)[s.len() as int] == pp);
        assert(s.push(x).contains(pp));
    }
}

/// The whole prefix of a scanned line holds exactly the cells of the ray it
/// renders.
proof fn lemma_prefix_is_ray(s: Seq<Point>, ray: Seq<(int, int)>)
    requires
        view_pts(s) == ray,
    ensures
        forall|q: (int, int)| in_prefix(s, s.len() as int, q) <==> #[trigger] ray.contains(q),
{
    assert forall|q: (int, int)| in_prefix(s, s.len() as int, q) implies #[trigger] ray.contains(
        q,
    ) by {
        let mm = choose|mm: int| 0 <= mm < s.len() && (#[trigger] s[mm])@ == q;
        assert(ray[mm] == q);
    }
    assert forall|q: (int, int)| #[trigger] ray.contains(q) implies in_prefix(
        s,
        s.len() as int,
        q,
    ) by {
        let mm = choose|mm: int| 0 <= mm < ray.len() && ray[mm] == q;
        assert((#[trigger] s[mm])@ == q);
        assert(in_prefix(s, s.len() as int, q));
    }
}

/// Casting one more ray extends the visible union by exactly that ray's
/// cells.
proof fn lemma_visible_upto_step<M: Algorithm2D>(
    map: &M,
    start: (int, int),
    range: int,
    j: int,
    q: (int, int),
)
    requires
        j >= 0,
    ensures
        visible_upto(map, start, range, j + 1, q) <==> (visible_upto(map, start, range, j, q)
            || ray_scan(map, start, range, j).contains(q)),
{
    if visible_upto(map, start, range, j + 1, q) {
        let jj = choose|jj: int|
            0 <= jj < j + 1 && #[trigger] ray_scan(map, start, range, jj).contains(q);
        if jj < j {
            assert(visible_upto(map, start, range, j, q));
        } else {
            assert(ray_scan(map, start, range, j).contains(q));
        }
    }
    if visible_upto(map, start, range, j, q) {
        let jj = choose|jj: int|
            0 <= jj < j && #[trigger] ray_scan(map, start, range, jj).contains(q);
        assert(0 <= jj < j + 1 && ray_scan(map, start, range, jj).contains(q));
        assert(visible_upto(map, start, range, j + 1, q));
    }
    if ray_scan(map, start, range, j).contains(q) {
        assert(0 <= j < j + 1 && ray_scan(map, start, range, j).contains(q));
        assert(visible_upto(map, start, range, j + 1, q));
    }
}

/// Whether `v` holds the point `p`.
fn contains_point(v: &Vec<Point>, p: Point) -> (r: bool)
    ensures
        r == v@.contains(p),
{
    let mut i: usize = 0;
    while i < v.len()
        invariant
            0 <= i <= v@.len(),
            forall|m: int| 0 <= m < i ==> v@[m] != p,
        decreases v@.len() - i,
    {
        if v[i] == p {
            return true;
        }
        i = i + 1;
    }
    false
}

/// Walks the rasterized line from `start` to `end` and yields its cells in
/// order: a cell beyond `range_squared` stops the walk untaken; an opaque
/// cell is taken and stops the walk.
fn scan_fov_line<M: Algorithm2D>(start: Point, end: Point, range_squared: u64, fov_check: &M) -> (r:
    Vec<Point>)
    ensures
        view_pts(r@) == scan_pts(
            fov_check,
            line_pts(start@, end@),
            start@,
            range_squared as int,
            0,
        ),
{
    let line = line2d(LineAlg::Bresenham, start, end);
    let ghost lp = line_pts(start@, end@);
    proof {
        assert(view_pts(line@) =~= lp);
    }
    let mut r: Vec<Point> = Vec::new();
    let mut i: usize = 0;
    let mut stopped = false;
    while !stopped && i < line.len()
        invariant
            0 <= i <= line@.len(),
            line@.len() == lp.len(),
            view_pts(line@) == lp,
            !stopped ==> scan_pts(fov_check, lp, start@, range_squared as int, 0) == view_pts(r@)
                + scan_pts(fov_check, lp, start@, range_squared as int, i as int),
            stopped ==> scan_pts(fov_check, lp, start@, range_squared as int, 0) == view_pts(r@),
        decreases 2 * (line@.len() - i) + (if stopped {
            0int
        } else {
            1int
        }),
    {
        let target = line[i];
        proof {
            assert(target@ == lp[i as int]);
        }
        let dsq = distance2d_pythagoras_squared(start, target);
        if dsq > range_squared as u128 {
            proof {
                assert(scan_pts(fov_check, lp, start@, range_squared as int, i as int)
                    =~= Seq::empty());
                assert(view_pts(r@) + Seq::empty() =~= view_pts(r@));
            }
            stopped = true;
        } else {
            let ghost old_r = r@;
            r.push(target);
            proof {
                assert(view_pts(r@) =~= view_pts(old_r).push(target@));
            }
            let idx = fov_check.point2d_to_index(target);
            if fov_check.is_opaque(idx) {
                proof {
                    assert(scan_pts(fov_check, lp, start@, range_squared as int, i as int)
                        =~= seq![lp[i as int]]);
                    assert(view_pts(old_r) + seq![lp[i as int]] =~= view_pts(r@));
                }
                stopped = true;
            } else {
                proof {
                    assert(scan_pts(fov_check, lp, start@, range_squared as int, i as int) == seq![
                        lp[i as int],
                    ] + scan_pts(fov_check, lp, start@, range_squared as int, i as int + 1));
                    assert(view_pts(old_r) + (seq![lp[i as int]] + scan_pts(
                        fov_check,
                        lp,
                        start@,
                        range_squared as int,
                        i as int + 1,
                    )) =~= view_pts(r@) + scan_pts(
                        fov_check,
                        lp,
                        start@,
                        range_squared as int,
                        i as int + 1,
                    ));
                }
                i = i + 1;
            }
        }
    }
    proof {
        if !stopped {
            assert(scan_pts(fov_check, lp, start@, range_squared as int, i as int)
                =~= Seq::empty());
            assert(view_pts(r@) + Seq::empty() =~= view_pts(r@));
        }
    }
    r
}

/// Computes the set of cells visible from `start` within `range`, as a
/// deduplicated list with no defined order: exactly the cells that some
/// sight line cast to the bounding box's perimeter yields.
pub fn field_of_view<M: Algorithm2D>(start: Point, range: i32, fov_check: &M) -> (r: Vec<Point>)
    requires
        i32::MIN <= start.x as int - range as int,
        start.x as int + range as int <= i32::MAX,
        i32::MIN <= start.y as int - range as int,
        start.y as int + range as int <= i32::MAX,
    ensures
        forall|p: Point| #[trigger] r@.contains(p) <==> fov_visible(
            fov_check,
            start@,
            range as int,
            p@,
        ),
        forall|i: int, j: int| 0 <= i < j < r@.len() ==> r@[i] != r@[j],
        range >= 0 ==> r@.contains(start),
{
    proof {
        assert((range as int) * (range as int) >= 0) by (nonlinear_arith);
        assert((range as int) * (range as int) <= 0x4000_0000_0000_0000) by (nonlinear_arith)
            requires
                -0x8000_0000 <= range as int <= 0x7fff_ffff,
        ;
    }
    let rr: i64 = range as i64;
    let rsq: u64 = (rr * rr) as u64;
    let count: u64 = if range < 0 {
        0
    } else {
        let w: i64 = 2 * rr + 1;
        let h: i64 = if range >= 1 {
            2 * rr - 1
        } else {
            0
        };
        (2 * w + 2 * h) as u64
    };
    let mut result: Vec<Point> = Vec::new();
    let mut j: u64 = 0;
    while j < count
        invariant
            0 <= j <= count,
            rr == range as int,
            rsq == (range as int) * (range as int),
            count == perim_count(range as int),
            i32::MIN <= start.x as int - range as int,
            start.x as int + range as int <= i32::MAX,
            i32::MIN <= start.y as int - range as int,
            start.y as int + range as int <= i32::MAX,
            forall|p: Point| #[trigger] result@.contains(p) <==> visible_upto(
                fov_check,
                start@,
                range as int,
                j as int,
                p@,
            ),
            forall|a: int, b: int| 0 <= a < b < result@.len() ==> result@[a] != result@[b],
        decreases count - j,
    {
        proof {
            assert(range >= 0);
        }
        let w: i64 = 2 * rr + 1;
        let h: i64 = if range >= 1 {
            2 * rr - 1
        } else {
            0
        };
        let sx: i64 = start.x as i64;
        let sy: i64 = start.y as i64;
        let ji: i64 = j as i64;
        let (ex, ey): (i64, i64) = if ji < w {
            (sx - rr + ji, sy - rr)
        } else if ji < 2 * w {
            (sx - rr + (ji - w), sy + rr)
        } else if ji < 2 * w + h {
            (sx - rr, sy - rr + 1 + (ji - 2 * w))
        } else {
            (sx + rr, sy - rr + 1 + (ji - 2 * w - h))
        };
        proof {
            assert((ex as int, ey as int) == perim_pt(start@, range as int, j as int));
            assert(i32::MIN <= ex <= i32::MAX);
            assert(i32::MIN <= ey <= i32::MAX);
        }
        let pend = Point { x: ex as i32, y: ey as i32 };
        let scan = scan_fov_line(start, pend, rsq, fov_check);
        let ghost jray = ray_scan(fov_check, start@, range as int, j as int);
        proof {
            assert(view_pts(scan@) == jray);
        }
        let mut m: usize = 0;
        while m < scan.len()
            invariant
                0 <= m <= scan@.len(),
                view_pts(scan@) == jray,
                forall|p: Point| #[trigger] result@.contains(p) <==> visible_upto(
                    fov_check,
                    start@,
                    range as int,
                    j as int,
                    p@,
                ) || in_prefix(scan@, m as int, p@),
                forall|a: int, b: int| 0 <= a < b < result@.len() ==> result@[a] != result@[b],
            decreases scan@.len() - m,
        {
            let p = scan[m];
            let ghost pre = result@;
            let already = contains_point(&result, p);
            if !already {
                result.push(p);
            }
            proof {
                assert forall|pp: Point| #[trigger] result@.contains(pp) <==> (visible_upto(
                    fov_check,
                    start@,
                    range as int,
                    j as int,
                    pp@,
                ) || in_prefix(scan@, m as int + 1, pp@)) by {
                    lemma_in_prefix_step(scan@, m as int, pp@);
                    if pp@ == p@ {
                        assert(pp.x == p.x && pp.y == p.y);
                        assert(pp == p);
                    }
                    if already {
                        assert(result@ == pre);
                    } else {
                        assert(result@ == pre.push(p));
                        lemma_push_contains(pre, p, pp);
                    }
                }
            }
            m = m + 1;
        }
        proof {
            // A cell stands in the prefix of the whole scan exactly when the
            // j-th ray yields it, which extends the union by one ray.
            lemma_prefix_is_ray(scan@, jray);
            assert forall|pp: Point| #[trigger] result@.contains(pp) <==> visible_upto(
                fov_check,
                start@,
                range as int,
                j as int + 1,
                pp@,
            ) by {
                lemma_visible_upto_step(fov_check, start@, range as int, j as int, pp@);
            }
        }
        j = j + 1;
    }
    proof {
        if range >= 0 {
            lemma_origin_visible(fov_check, start@, range as int);
            assert(result@.contains(start));
        }
    }
    result
}

/// The origin itself is always visible for any non-negative radius: the
/// first cast sight line starts at the origin, whose distance to itself is
/// zero.
proof fn lemma_origin_visible<M: Algorithm2D>(map: &M, start: (int, int), range: int)
    requires
        range >= 0,
    ensures
        fov_visible(map, start, range, start),
{
    let line0 = line_pts(start, perim_pt(start, range, 0));
    assert(line0.len() >= 1);
    assert(line0[0] == crate::lines::line_pt(start, perim_pt(start, range, 0), 0));
    if crate::lines::delta(start.0, perim_pt(start, range, 0).0) == 0 && crate::lines::delta(
        start.1,
        perim_pt(start, range, 0).1,
    ) == 0 {
        assert(line0[0] == start);
    } else {
        lemma_line_starts_at_start(start, perim_pt(start, range, 0));
        assert(line0[0] == start);
    }
    assert(dist_sq(start, start) == 0);
    assert(range * range >= 0) by (nonlinear_arith)
        requires
            range >= 0,
    ;
    let sc = scan_pts(map, line0, start, range * range, 0);
    assert(sc.contains(start)) by {
        if blocked(map, line0[0]) {
            assert(sc == seq![line0[0]]);
            assert(sc[0] == start);
        } else {
            assert(sc == seq![line0[0]] + scan_pts(map, line0, start, range * range, 1));
            assert(sc[0] == start);
        }
    }
    assert(ray_scan(map, start, range, 0).contains(start));
    assert(perim_count(range) >= 1);
}

/// Whether `idx` points at a cell of `line` that carries `p`, every cell
/// before it (from `i` on) being within the squared radius and transparent,
/// and `p` itself within the squared radius.
pub open spec fn clear_hit<M: Algorithm2D>(
    map: &M,
    line: Seq<(int, int)>,
    origin: (int, int),
    rsq: int,
    i: int,
    idx: int,
    p: (int, int),
) -> bool {
    &&& i <= idx < line.len()
    &&& line[idx] == p
    &&& dist_sq(origin, p) <= rsq
    &&& forall|k: int|
        i <= k < idx ==> !blocked(map, #[trigger] line[k]) && dist_sq(origin, line[k]) <= rsq
}

/// Every cell a scan yields is reached cleanly: it lies within the radius,
/// and every cell the line walks before it is within the radius and
/// transparent.
proof fn lemma_scan_clear<M: Algorithm2D>(
    map: &M,
    line: Seq<(int, int)>,
    origin: (int, int),
    rsq: int,
    i: int,
    p: (int, int),
)
    requires
        0 <= i,
        scan_pts(map, line, origin, rsq, i).contains(p),
    ensures
        exists|idx: int| #[trigger] clear_hit(map, line, origin, rsq, i, idx, p),
    decreases line.len() - i,
{
    let sc = scan_pts(map, line, origin, rsq, i);
    if blocked(map, line[i]) {
        assert(sc == seq![line[i]]);
        assert(p == line[i]);
        assert(clear_hit(map, line, origin, rsq, i, i, p));
    } else {
        assert(sc == seq![line[i]] + scan_pts(map, line, origin, rsq, i + 1));
        let w = choose|w: int| 0 <= w < sc.len() && sc[w] == p;
        if w == 0 {
            assert(p == line[i]);
            assert(clear_hit(map, line, origin, rsq, i, i, p));
        } else {
            assert(scan_pts(map, line, origin, rsq, i + 1)[w - 1] == p);
            assert(scan_pts(map, line, origin, rsq, i + 1).contains(p));
            lemma_scan_clear(map, line, origin, rsq, i + 1, p);
            let idx = choose|idx: int| #[trigger] clear_hit(map, line, origin, rsq, i + 1, idx, p);
            assert(clear_hit(map, line, origin, rsq, i, idx, p));
        }
    }
}

/// Every visible cell is reached by a sight line on which each earlier cell
/// is within the radius and transparent: nothing is seen through an opaque
/// cell, nor beyond the radius — though the first opaque cell of a line is
/// itself seen.
pub proof fn lemma_visible_has_clear_ray<M: Algorithm2D>(
    map: &M,
    start: (int, int),
    range: int,
    p: (int, int),
)
    requires
        fov_visible(map, start, range, p),
    ensures
        exists|j: int, idx: int|
            0 <= j < perim_count(range) && #[trigger] clear_hit(
                map,
                line_pts(start, perim_pt(start, range, j)),
                start,
                range * range,
                0,
                idx,
                p,
            ),
        dist_sq(start, p) <= range * range,
{
    let j = choose|jj: int|
        0 <= jj < perim_count(range) && #[trigger] ray_scan(map, start, range, jj).contains(p);
    let line = line_pts(start, perim_pt(start, range, j));
    lemma_scan_clear(map, line, start, range * range, 0, p);
    let idx = choose|idx: int| #[trigger] clear_hit(map, line, start, range * range, 0, idx, p);
    assert(0 <= j < perim_count(range) && clear_hit(
        map,
        line_pts(start, perim_pt(start, range, j)),
        start,
        range * range,
        0,
        idx,
        p,
    ));
}

/// Whether some cell of `line` from index `i` on carries `p` within the
/// squared radius.
spec fn in_range_suffix(
    line: Seq<(int, int)>,
    origin: (int, int),
    rsq: int,
    i: int,
    p: (int, int),
) -> bool {
    exists|k: int| i <= k < line.len() && #[trigger] line[k] == p && dist_sq(origin, p) <= rsq
}

/// On a map with no opaque cells, a scan whose line moves monotonically away
/// from the origin yields exactly the line's cells within the radius.
proof fn lemma_scan_open<M: Algorithm2D>(
    map: &M,
    line: Seq<(int, int)>,
    origin: (int, int),
    rsq: int,
    i: int,
)
    requires
        0 <= i,
        forall|idx: usize| !(#[trigger] map.spec_opaque(idx)),
        forall|k1: int, k2: int|
            i <= k1 <= k2 < line.len() ==> dist_sq(origin, #[trigger] line[k1]) <= dist_sq(
                origin,
                #[trigger] line[k2],
            ),
    ensures
        forall|p: (int, int)| #[trigger]
            scan_pts(map, line, origin, rsq, i).contains(p) <==> in_range_suffix(
                line,
                origin,
                rsq,
                i,
                p,
            ),
    decreases line.len() - i,
{
    let sc = scan_pts(map, line, origin, rsq, i);
    if i >= line.len() {
        assert forall|p: (int, int)| !in_range_suffix(line, origin, rsq, i, p) by {}
    } else if dist_sq(origin, line[i]) > rsq {
        assert(sc =~= Seq::empty());
        assert forall|p: (int, int)| !in_range_suffix(line, origin, rsq, i, p) by {
            if in_range_suffix(line, origin, rsq, i, p) {
                let k = choose|k: int|
                    i <= k < line.len() && #[trigger] line[k] == p && dist_sq(origin, p) <= rsq;
                assert(dist_sq(origin, line[i]) <= dist_sq(origin, line[k]));
            }
        }
    } else {
        assert(!blocked(map, line[i]));
        assert(sc == seq![line[i]] + scan_pts(map, line, origin, rsq, i + 1));
        lemma_scan_open(map, line, origin, rsq, i + 1);
        assert forall|p: (int, int)| #[trigger]
            sc.contains(p) <==> in_range_suffix(line, origin, rsq, i, p) by {
            if sc.contains(p) {
                let w = choose|w: int| 0 <= w < sc.len() && sc[w] == p;
                if w == 0 {
                    assert(line[i] == p && dist_sq(origin, p) <= rsq);
                    assert(in_range_suffix(line, origin, rsq, i, p));
                } else {
                    assert(scan_pts(map, line, origin, rsq, i + 1)[w - 1] == p);
                    assert(scan_pts(map, line, origin, rsq, i + 1).contains(p));
                    assert(in_range_suffix(line, origin, rsq, i + 1, p));
                    let k = choose|k: int|
                        i + 1 <= k < line.len() && #[trigger] line[k] == p && dist_sq(origin, p)
                            <= rsq;
                    assert(i <= k < line.len() && line[k] == p);
                    assert(in_range_suffix(line, origin, rsq, i, p));
                }
            }
            if in_range_suffix(line, origin, rsq, i, p) {
                let k = choose|k: int|
                    i <= k < line.len() && #[trigger] line[k] == p && dist_sq(origin, p) <= rsq;
                if k == i {
                    assert(sc[0] == p);
                    assert(sc.contains(p));
                } else {
                    assert(in_range_suffix(line, origin, rsq, i + 1, p));
                    assert(scan_pts(map, line, origin, rsq, i + 1).contains(p));
                    let tail = scan_pts(map, line, origin, rsq, i + 1);
                    let w = choose|w: int| 0 <= w < tail.len() && #[trigger] tail[w] == p;
                    assert(sc[w + 1] == p);
                    assert(sc.contains(p));
                }
            }
        }
    }
}

/// On a map with no opaque cells, a cell is visible exactly when it lies
/// within the radius and some cast sight line passes through it.
pub proof fn lemma_fov_open_map<M: Algorithm2D>(
    map: &M,
    start: (int, int),
    range: int,
    p: (int, int),
)
    requires
        forall|idx: usize| !(#[trigger] map.spec_opaque(idx)),
    ensures
        fov_visible(map, start, range, p) <==> (dist_sq(start, p) <= range * range && exists|
            j: int,
        |
            0 <= j < perim_count(range) && #[trigger] line_pts(
                start,
                perim_pt(start, range, j),
            ).contains(p)),
{
    if fov_visible(map, start, range, p) {
        let j = choose|jj: int|
            0 <= jj < perim_count(range) && #[trigger] ray_scan(map, start, range, jj).contains(p);
        let line = line_pts(start, perim_pt(start, range, j));
        lemma_line_monotone_from_start(start, perim_pt(start, range, j));
        lemma_scan_open(map, line, start, range * range, 0);
        assert(in_range_suffix(line, start, range * range, 0, p));
        let k = choose|k: int|
            0 <= k < line.len() && #[trigger] line[k] == p && dist_sq(start, p) <= range * range;
        assert(line.contains(p));
        assert(0 <= j < perim_count(range) && line_pts(start, perim_pt(start, range, j)).contains(
            p,
        ));
    }
    if dist_sq(start, p) <= range * range && exists|j: int|
        0 <= j < perim_count(range) && #[trigger] line_pts(start, perim_pt(start, range, j)).contains(
            p,
        ) {
        let j = choose|j: int|
            0 <= j < perim_count(range) && #[trigger] line_pts(
                start,
                perim_pt(start, range, j),
            ).contains(p);
        let line = line_pts(start, perim_pt(start, range, j));
        lemma_line_monotone_from_start(start, perim_pt(start, range, j));
        lemma_scan_open(map, line, start, range * range, 0);
        let k = choose|k: int| 0 <= k < line.len() && line[k] == p;
        assert(line[k] == p && dist_sq(start, p) <= range * range);
        assert(in_range_suffix(line, start, range * range, 0, p));
        assert(scan_pts(map, line, start, range * range, 0).contains(p));
        assert(ray_scan(map, start, range, j).contains(p));
        assert(visible_upto(map, start, range, perim_count(range), p));
    }
}

/// The cells of a rasterized line move monotonically away from its start.
proof fn lemma_line_monotone_from_start(a: (int, int), b: (int, int))
    ensures
        forall|k1: int, k2: int|
            0 <= k1 <= k2 < line_pts(a, b).len() ==> dist_sq(a, #[trigger] line_pts(a, b)[k1])
                <= dist_sq(a, #[trigger] line_pts(a, b)[k2]),
{
    assert forall|k1: int, k2: int| 0 <= k1 <= k2 < line_pts(a, b).len() implies dist_sq(
        a,
        #[trigger] line_pts(a, b)[k1],
    ) <= dist_sq(a, #[trigger] line_pts(a, b)[k2]) by {
        crate::lines::lemma_line_dsq_monotone(a, b, k1, k2);
    }
}

/// Every rasterized line begins at its start cell.
proof fn lemma_line_starts_at_start(a: (int, int), b: (int, int))
    ensures
        crate::lines::line_pt(a, b, 0) == a,
{
    let dx = crate::lines::delta(a.0, b.0);
    let dy = crate::lines::delta(a.1, b.1);
    if dx == 0 && dy == 0 {
    } else if dx >= dy {
        crate::lines::lemma_minor_offset_bounds(0, dy, dx);
    } else {
        crate::lines::lemma_minor_offset_bounds(0, dx, dy);
    }
}

} // verus!
