use vstd::prelude::*;
use crate::geometry::{
    ceil_sqrt, lemma_trunc_div_bounded, mul_div, square_root_ceil, trunc_div, Vec2, DIR_SCALE,
};
use crate::shapes::Shape;

verus! {

/// Bound on the coordinates of the polygons that the detector compares.
pub const COORD_LIMIT: i64 = 524288;

/// Bound on the coordinates of an edge normal of such a polygon.
pub const AXIS_LIMIT: i64 = 1048576;

/// Bound on the projection of a vertex onto an edge normal.
pub const PROJ_LIMIT: i64 = 1099511627776;

/// Every vertex has coordinates within `[-COORD_LIMIT, COORD_LIMIT]`.
pub open spec fn in_range(poly: Seq<Vec2>) -> bool {
    forall|i: int| 0 <= i < poly.len() ==> (#[trigger] poly[i]).fits(COORD_LIMIT as int)
}

/// The normal of the edge from vertex `i` to the next one (the last vertex
/// wraps round to the first): the edge turned a quarter turn, not normalised.
pub open spec fn edge_axis(poly: Seq<Vec2>, i: int) -> Vec2 {
    let a = poly[i];
    let b = if i + 1 == poly.len() {
        poly[0]
    } else {
        poly[i + 1]
    };
    Vec2 { x: (a.y - b.y) as i64, y: (b.x - a.x) as i64 }
}

/// At least three vertices, and no edge of length zero.
pub open spec fn well_formed(poly: Seq<Vec2>) -> bool {
    &&& poly.len() >= 3
    &&& forall|i: int|
        0 <= i < poly.len() ==> (#[trigger] edge_axis(poly, i)).length_sq() > 0
}

/// The least projection of a vertex onto `axis`.
pub open spec fn min_proj(poly: Seq<Vec2>, axis: Vec2) -> int
    decreases poly.len(),
{
    if poly.len() <= 1 {
        poly[0].spec_dot(axis)
    } else {
        let m = min_proj(poly.drop_last(), axis);
        let d = poly.last().spec_dot(axis);
        if d < m {
            d
        } else {
            m
        }
    }
}

/// The greatest projection of a vertex onto `axis`.
pub open spec fn max_proj(poly: Seq<Vec2>, axis: Vec2) -> int
    decreases poly.len(),
{
    if poly.len() <= 1 {
        poly[0].spec_dot(axis)
    } else {
        let m = max_proj(poly.drop_last(), axis);
        let d = poly.last().spec_dot(axis);
        if d > m {
            d
        } else {
            m
        }
    }
}

/// The projection of `p` onto `axis` falls within that of the polygon.
pub open spec fn covers(poly: Seq<Vec2>, axis: Vec2, p: Vec2) -> bool {
    min_proj(poly, axis) <= p.spec_dot(axis) <= max_proj(poly, axis)
}

/// The point lies inside the well-formed polygon: no edge normal separates it.
pub open spec fn contains(poly: Seq<Vec2>, p: Vec2) -> bool {
    &&& well_formed(poly)
    &&& forall|i: int| 0 <= i < poly.len() ==> covers(poly, #[trigger] edge_axis(poly, i), p)
}

/// How far the projection of `p` lies inside the polygon's along edge normal
/// `i`, in units of that normal's length.
pub open spec fn overlap_on(poly: Seq<Vec2>, p: Vec2, i: int) -> int {
    let a = edge_axis(poly, i);
    let pp = p.spec_dot(a);
    let hi = max_proj(poly, a) - pp;
    let lo = pp - min_proj(poly, a);
    if hi < lo {
        hi
    } else {
        lo
    }
}

/// The overlap along normal `i`, as a distance, is strictly below that along
/// normal `j` (compared without square roots).
pub open spec fn closer(poly: Seq<Vec2>, p: Vec2, i: int, j: int) -> bool {
    overlap_on(poly, p, i) * overlap_on(poly, p, i) * edge_axis(poly, j).length_sq()
        < overlap_on(poly, p, j) * overlap_on(poly, p, j) * edge_axis(poly, i).length_sq()
}

/// Normal `k` gives the least overlap distance, and is the first that does.
pub open spec fn is_min_axis(poly: Seq<Vec2>, p: Vec2, k: int) -> bool {
    &&& 0 <= k < poly.len()
    &&& forall|j: int| 0 <= j < k ==> #[trigger] closer(poly, p, k, j)
    &&& forall|j: int| 0 <= j < poly.len() ==> !#[trigger] closer(poly, p, j, k)
}

/// The minimum translation of a contained vertex: the unit normal, scaled
/// by `DIR_SCALE`, of the edge nearest to it, and its distance to that edge in
/// subpixels. Both are rounded: the normal's length is divided by the least
/// integer whose square reaches its squared length, each coordinate rounded
/// toward zero, and the distance rounded down.
#[derive(Clone, Copy, Debug, PartialEq, Eq, Structural)]
pub struct Mtv {
    pub min_overlap_magnitude: i64,
    pub min_overlap_direction: Vec2,
}

/// A vertex of one polygon found inside the other, with its translation.
#[derive(Clone, Copy, Debug, PartialEq, Eq, Structural)]
pub struct VerticeCollisionInfo {
    pub vertice_index: usize,
    pub mtv: Mtv,
}

/// The translation along edge normal `axis` for an overlap measured in units
/// of that normal's length.
pub open spec fn unit_mtv(axis: Vec2, overlap: int) -> Mtv {
    let len = ceil_sqrt(axis.length_sq());
    Mtv {
        min_overlap_magnitude: (overlap / len) as i64,
        min_overlap_direction: Vec2 {
            x: trunc_div(axis.x * DIR_SCALE, len) as i64,
            y: trunc_div(axis.y * DIR_SCALE, len) as i64,
        },
    }
}

/// Containment of `p` in the polygon, with its minimum translation.
pub open spec fn spec_inside(poly: Seq<Vec2>, p: Vec2) -> Option<Mtv> {
    if contains(poly, p) {
        let k = choose|k: int| is_min_axis(poly, p, k);
        Some(
            unit_mtv(edge_axis(poly, k), overlap_on(poly, p, k)),
        )
    } else {
        None
    }
}

/// The vertices of `p` that lie inside `q`, in order, each with its translation.
pub open spec fn contained_vertices(p: Seq<Vec2>, q: Seq<Vec2>) -> Seq<VerticeCollisionInfo>
    decreases p.len(),
{
    if p.len() == 0 {
        seq![]
    } else {
        let prev = contained_vertices(p.drop_last(), q);
        match spec_inside(q, p.last()) {
            Some(mtv) => prev.push(
                VerticeCollisionInfo { vertice_index: (p.len() - 1) as usize, mtv },
            ),
            None => prev,
        }
    }
}

/// Some vertex of `p` lies inside `q`.
pub open spec fn any_vertex_inside(p: Seq<Vec2>, q: Seq<Vec2>) -> bool {
    exists|i: int| 0 <= i < p.len() && contains(q, #[trigger] p[i])
}

/// Two polygons overlap when a vertex of either lies inside the other.
pub open spec fn spec_overlap(p: Seq<Vec2>, q: Seq<Vec2>) -> bool {
    any_vertex_inside(p, q) || any_vertex_inside(q, p)
}

proof fn lemma_dot_bounded(v: Vec2, a: Vec2)
    requires
        v.fits(COORD_LIMIT as int),
        a.fits(AXIS_LIMIT as int),
    ensures
        -PROJ_LIMIT <= v.spec_dot(a) <= PROJ_LIMIT,
{
    assert(-549755813888 <= v.x * a.x <= 549755813888) by (nonlinear_arith)
        requires
            -524288 <= v.x <= 524288,
            -1048576 <= a.x <= 1048576,
    ;
    assert(-549755813888 <= v.y * a.y <= 549755813888) by (nonlinear_arith)
        requires
            -524288 <= v.y <= 524288,
            -1048576 <= a.y <= 1048576,
    ;
}

proof fn lemma_axis_bounded(poly: Seq<Vec2>, i: int)
    requires
        in_range(poly),
        0 <= i < poly.len(),
    ensures
        edge_axis(poly, i).fits(AXIS_LIMIT as int),
        edge_axis(poly, i).length_sq() <= 2 * AXIS_LIMIT * AXIS_LIMIT,
{
    assert(poly[i].fits(COORD_LIMIT as int));
    assert(poly[0].fits(COORD_LIMIT as int));
    if i + 1 < poly.len() {
        assert(poly[i + 1].fits(COORD_LIMIT as int));
    }
    let e = edge_axis(poly, i);
    assert(e.x * e.x <= 1048576 * 1048576) by (nonlinear_arith)
        requires
            -1048576 <= e.x <= 1048576,
    ;
    assert(e.y * e.y <= 1048576 * 1048576) by (nonlinear_arith)
        requires
            -1048576 <= e.y <= 1048576,
    ;
}

proof fn lemma_proj_bounded(poly: Seq<Vec2>, axis: Vec2)
    requires
        poly.len() >= 1,
        in_range(poly),
        axis.fits(AXIS_LIMIT as int),
    ensures
        -PROJ_LIMIT <= min_proj(poly, axis) <= max_proj(poly, axis) <= PROJ_LIMIT,
    decreases poly.len(),
{
    lemma_dot_bounded(poly.last(), axis);
    lemma_dot_bounded(poly[0], axis);
    if poly.len() > 1 {
        let init = poly.drop_last();
        assert forall|i: int| 0 <= i < init.len() implies (#[trigger] init[i]).fits(
            COORD_LIMIT as int,
        ) by {
            assert(init[i] == poly[i]);
        }
        lemma_proj_bounded(init, axis);
    }
}

/// The least and greatest projections of the polygon's vertices onto `axis`.
fn proj_range(poly: &Vec<Vec2>, axis: Vec2) -> (r: (i128, i128))
    requires
        poly@.len() >= 1,
        in_range(poly@),
        axis.fits(AXIS_LIMIT as int),
    ensures
        r.0 == min_proj(poly@, axis),
        r.1 == max_proj(poly@, axis),
{
    proof {
        lemma_dot_bounded(poly@[0], axis);
    }
    let mut lo: i128 = poly[0].dot(axis);
    let mut hi: i128 = lo;
    let mut j: usize = 1;
    assert(poly@.take(1).drop_last().len() == 0);
    while j < poly.len()
        invariant
            1 <= j <= poly@.len(),
            in_range(poly@),
            axis.fits(AXIS_LIMIT as int),
            lo == min_proj(poly@.take(j as int), axis),
            hi == max_proj(poly@.take(j as int), axis),
        decreases poly@.len() - j,
    {
        proof {
            lemma_dot_bounded(poly@[j as int], axis);
            assert(poly@.take(j + 1).drop_last() =~= poly@.take(j as int));
            assert(poly@.take(j + 1).last() == poly@[j as int]);
        }
        let d: i128 = poly[j].dot(axis);
        if d < lo {
            lo = d;
        }
        if d > hi {
            hi = d;
        }
        j = j + 1;
    }
    assert(poly@.take(j as int) =~= poly@);
    (lo, hi)
}

/// The normal of the edge that starts at vertex `i`.
fn edge_axis_at(poly: &Vec<Vec2>, i: usize) -> (r: Vec2)
    requires
        in_range(poly@),
        i < poly@.len(),
    ensures
        r == edge_axis(poly@, i as int),
        r.fits(AXIS_LIMIT as int),
{
    proof {
        lemma_axis_bounded(poly@, i as int);
    }
    let next: usize = if i == poly.len() - 1 {
        0
    } else {
        i + 1
    };
    let a = poly[i];
    let b = poly[next];
    assert(a.fits(COORD_LIMIT as int) && b.fits(COORD_LIMIT as int));
    b.sub(a).perp()
}

/// Whether `p` lies inside the polygon. A polygon with fewer than three
/// vertices or an edge of length zero contains nothing.
pub fn contains_point(poly: &Vec<Vec2>, p: Vec2) -> (r: bool)
    requires
        in_range(poly@),
        p.fits(COORD_LIMIT as int),
    ensures
        r == contains(poly@, p),
{
    let n = poly.len();
    if n < 3 {
        return false;
    }
    let mut i: usize = 0;
    while i < n
        invariant
            n == poly@.len(),
            n >= 3,
            in_range(poly@),
            i <= n,
            forall|j: int| 0 <= j < i ==> (#[trigger] edge_axis(poly@, j)).length_sq() > 0,
        decreases n - i,
    {
        let a = edge_axis_at(poly, i);
        if a.x == 0 && a.y == 0 {
            assert(a.length_sq() == 0) by (nonlinear_arith)
                requires
                    a.x == 0 && a.y == 0,
            ;
            return false;
        }
        assert(a.length_sq() > 0) by (nonlinear_arith)
            requires
                !(a.x == 0 && a.y == 0),
        ;
        i = i + 1;
    }
    assert(well_formed(poly@));
    let mut i: usize = 0;
    while i < n
        invariant
            n == poly@.len(),
            in_range(poly@),
            p.fits(COORD_LIMIT as int),
            i <= n,
            forall|j: int| 0 <= j < i ==> covers(poly@, #[trigger] edge_axis(poly@, j), p),
        decreases n - i,
    {
        let a = edge_axis_at(poly, i);
        let (lo, hi) = proj_range(poly, a);
        proof {
            lemma_dot_bounded(p, a);
        }
        let pp = p.dot(a);
        if pp < lo || pp > hi {
            assert(!covers(poly@, edge_axis(poly@, i as int), p));
            return false;
        }
        i = i + 1;
    }
    true
}

proof fn lemma_weight_bounded(o: int, l: int)
    requires
        0 <= o <= 2 * PROJ_LIMIT,
        0 <= l <= 2 * AXIS_LIMIT * AXIS_LIMIT,
    ensures
        0 <= o * o <= 4 * PROJ_LIMIT * PROJ_LIMIT,
        0 <= o * o * l <= 8 * PROJ_LIMIT * PROJ_LIMIT * AXIS_LIMIT * AXIS_LIMIT,
{
    assert(0 <= o * o <= 4 * 1099511627776 * 1099511627776) by (nonlinear_arith)
        requires
            0 <= o <= 2 * 1099511627776,
    ;
    assert(0 <= o * o * l <= 8 * 1099511627776 * 1099511627776 * 1048576 * 1048576)
        by (nonlinear_arith)
        requires
            0 <= o * o <= 4 * 1099511627776 * 1099511627776,
            0 <= l <= 2 * 1048576 * 1048576,
    ;
}

proof fn lemma_closer_transitive(poly: Seq<Vec2>, p: Vec2, i: int, b: int, j: int)
    requires
        closer(poly, p, i, b),
        !closer(poly, p, j, b),
        edge_axis(poly, i).length_sq() > 0,
        edge_axis(poly, b).length_sq() > 0,
        edge_axis(poly, j).length_sq() > 0,
    ensures
        closer(poly, p, i, j),
{
    let oi = overlap_on(poly, p, i) * overlap_on(poly, p, i);
    let ob = overlap_on(poly, p, b) * overlap_on(poly, p, b);
    let oj = overlap_on(poly, p, j) * overlap_on(poly, p, j);
    let li = edge_axis(poly, i).length_sq();
    let lb = edge_axis(poly, b).length_sq();
    let lj = edge_axis(poly, j).length_sq();
    assert(oi * lj < oj * li) by (nonlinear_arith)
        requires
            oi * lb < ob * li,
            ob * lj <= oj * lb,
            li > 0,
            lb > 0,
            lj > 0,
    ;
}

proof fn lemma_min_axis_unique(poly: Seq<Vec2>, p: Vec2, k1: int, k2: int)
    requires
        is_min_axis(poly, p, k1),
        is_min_axis(poly, p, k2),
    ensures
        k1 == k2,
{
    if k1 < k2 {
        assert(closer(poly, p, k2, k1));
        assert(!closer(poly, p, k2, k1));
    } else if k2 < k1 {
        assert(closer(poly, p, k1, k2));
        assert(!closer(poly, p, k1, k2));
    }
}

/// Whether `vertice` lies inside the polygon and, if so, its minimum
/// translation out of it.
pub fn inside(vertice: Vec2, poly: &Vec<Vec2>) -> (r: Option<Mtv>)
    requires
        in_range(poly@),
        vertice.fits(COORD_LIMIT as int),
    ensures
        r == spec_inside(poly@, vertice),
{
    if !contains_point(poly, vertice) {
        return None;
    }
    let n = poly.len();
    proof {
        lemma_axis_bounded(poly@, 0);
    }
    let mut best: usize = 0;
    let mut best_axis = edge_axis_at(poly, 0);
    let mut best_overlap: i128 = 0;
    let mut best_weight: i128 = 0;
    let mut i: usize = 0;
    while i < n
        invariant
            n == poly@.len(),
            in_range(poly@),
            vertice.fits(COORD_LIMIT as int),
            contains(poly@, vertice),
            i <= n,
            i == 0 ==> best == 0,
            i > 0 ==> best < i,
            best < n,
            best_axis == edge_axis(poly@, best as int),
            i > 0 ==> best_overlap == overlap_on(poly@, vertice, best as int),
            forall|j: int| 0 <= j < best ==> #[trigger] closer(poly@, vertice, best as int, j),
            forall|j: int| 0 <= j < i ==> !#[trigger] closer(poly@, vertice, j, best as int),
            0 <= best_overlap <= 2 * PROJ_LIMIT,
            best_axis.fits(AXIS_LIMIT as int),
            best_axis.length_sq() <= 2 * AXIS_LIMIT * AXIS_LIMIT,
        decreases n - i,
    {
        let a = edge_axis_at(poly, i);
        proof {
            lemma_axis_bounded(poly@, i as int);
            lemma_proj_bounded(poly@, a);
            lemma_dot_bounded(vertice, a);
            assert(covers(poly@, edge_axis(poly@, i as int), vertice));
        }
        let (lo, hi) = proj_range(poly, a);
        let pp = vertice.dot(a);
        let overlap: i128 = if hi - pp < pp - lo {
            hi - pp
        } else {
            pp - lo
        };
        assert(overlap == overlap_on(poly@, vertice, i as int));
        let take = if i == 0 {
            true
        } else {
            let len_best = best_axis.len_sq();
            let len_here = a.len_sq();
            proof {
                lemma_weight_bounded(overlap as int, len_best as int);
                lemma_weight_bounded(best_overlap as int, len_here as int);
            }
            let sq_here: i128 = overlap * overlap;
            let sq_best: i128 = best_overlap * best_overlap;
            sq_here * len_best < sq_best * len_here
        };
        proof {
            if i > 0 {
                assert(take == closer(poly@, vertice, i as int, best as int));
            }
        }
        if take {
            proof {
                if i > 0 {
                    assert forall|j: int| 0 <= j < i implies #[trigger] closer(
                        poly@,
                        vertice,
                        i as int,
                        j,
                    ) by {
                        lemma_closer_transitive(poly@, vertice, i as int, best as int, j);
                    }
                    assert forall|j: int| 0 <= j < i implies !#[trigger] closer(
                        poly@,
                        vertice,
                        j,
                        i as int,
                    ) by {
                        assert(closer(poly@, vertice, i as int, j));
                    }
                }
                assert(!closer(poly@, vertice, i as int, i as int));
            }
            best = i;
            best_axis = a;
            best_overlap = overlap;
        }
        i = i + 1;
    }
    proof {
        assert(is_min_axis(poly@, vertice, best as int));
        let k = choose|k: int| is_min_axis(poly@, vertice, k);
        lemma_min_axis_unique(poly@, vertice, k, best as int);
    }
    proof {
        assert(best_axis.length_sq() > 0);
    }
    let len = square_root_ceil(best_axis.len_sq() as u128) as i64;
    proof {
        let k: int = AXIS_LIMIT * DIR_SCALE;
        assert(-k * len <= best_axis.x * DIR_SCALE <= k * len) by (nonlinear_arith)
            requires
                k == AXIS_LIMIT * DIR_SCALE,
                len >= 1,
                -AXIS_LIMIT <= best_axis.x <= AXIS_LIMIT,
        ;
        assert(-k * len <= best_axis.y * DIR_SCALE <= k * len) by (nonlinear_arith)
            requires
                k == AXIS_LIMIT * DIR_SCALE,
                len >= 1,
                -AXIS_LIMIT <= best_axis.y <= AXIS_LIMIT,
        ;
        lemma_trunc_div_bounded(best_axis.x * DIR_SCALE, len as int, k);
        lemma_trunc_div_bounded(best_axis.y * DIR_SCALE, len as int, k);
        lemma_trunc_div_bounded(best_overlap as int, len as int, 2 * PROJ_LIMIT);
    }
    let magnitude = (best_overlap / (len as i128)) as i64;
    let direction = Vec2 {
        x: mul_div(best_axis.x, DIR_SCALE, len),
        y: mul_div(best_axis.y, DIR_SCALE, len),
    };
    Some(Mtv { min_overlap_magnitude: magnitude, min_overlap_direction: direction })
}

proof fn lemma_none_contained(p: Seq<Vec2>, q: Seq<Vec2>)
    ensures
        contained_vertices(p, q).len() == 0 <==> !any_vertex_inside(p, q),
    decreases p.len(),
{
    if p.len() > 0 {
        let init = p.drop_last();
        lemma_none_contained(init, q);
        assert(p.last() == p[p.len() - 1]);
        if any_vertex_inside(init, q) {
            let i = choose|i: int| 0 <= i < init.len() && contains(q, #[trigger] init[i]);
            assert(p[i] == init[i]);
        }
        if any_vertex_inside(p, q) && !contains(q, p.last()) {
            let i = choose|i: int| 0 <= i < p.len() && contains(q, #[trigger] p[i]);
            assert(init[i] == p[i]);
        }
    }
}

/// The vertices of `p` that lie inside `q`, each with its minimum translation.
fn collect_contained(p: &Vec<Vec2>, q: &Vec<Vec2>) -> (r: Vec<VerticeCollisionInfo>)
    requires
        in_range(p@),
        in_range(q@),
    ensures
        r@ == contained_vertices(p@, q@),
{
    let mut info: Vec<VerticeCollisionInfo> = Vec::new();
    let mut i: usize = 0;
    assert(p@.take(0) =~= Seq::<Vec2>::empty());
    while i < p.len()
        invariant
            i <= p@.len(),
            in_range(p@),
            in_range(q@),
            info@ == contained_vertices(p@.take(i as int), q@),
        decreases p@.len() - i,
    {
        proof {
            assert(p@.take(i + 1).drop_last() =~= p@.take(i as int));
            assert(p@.take(i + 1).last() == p@[i as int]);
        }
        let v = p[i];
        assert(v.fits(COORD_LIMIT as int));
        if let Some(mtv) = inside(v, q) {
            info.push(VerticeCollisionInfo { vertice_index: i, mtv });
        }
        i = i + 1;
    }
    assert(p@.take(i as int) =~= p@);
    info
}

/// Whether some vertex of `p` lies inside `q`; stops at the first one found.
fn any_inside(p: &Vec<Vec2>, q: &Vec<Vec2>) -> (r: bool)
    requires
        in_range(p@),
        in_range(q@),
    ensures
        r == any_vertex_inside(p@, q@),
{
    let mut i: usize = 0;
    while i < p.len()
        invariant
            i <= p@.len(),
            in_range(p@),
            in_range(q@),
            forall|j: int| 0 <= j < i ==> !contains(q@, #[trigger] p@[j]),
        decreases p@.len() - i,
    {
        assert(p@[i as int].fits(COORD_LIMIT as int));
        if contains_point(q, p[i]) {
            return true;
        }
        i = i + 1;
    }
    false
}

/// Whether the two polygons overlap: a vertex of either lies inside the other.
pub fn overlaps(p: &Vec<Vec2>, q: &Vec<Vec2>) -> (r: bool)
    requires
        in_range(p@),
        in_range(q@),
    ensures
        r == spec_overlap(p@, q@),
{
    any_inside(p, q) || any_inside(q, p)
}

/// Whether the outlines of two shapes overlap, stopping at the first vertex
/// found inside the other outline.
pub fn collides<A: Shape, B: Shape>(object1: &A, object2: &B) -> (r: bool)
    requires
        object1.shape_fits(),
        object2.shape_fits(),
        in_range(object1.spec_shape()),
        in_range(object2.spec_shape()),
    ensures
        r == spec_overlap(object1.spec_shape(), object2.spec_shape()),
{
    let s1 = object1.shape();
    let s2 = object2.shape();
    overlaps(&s1, &s2)
}

/// Every vertex of either outline that lies inside the other, each with its
/// minimum translation: `None` when there is none, else the vertices of the
/// first outline inside the second, then those of the second inside the first.
pub fn collision<A: Shape, B: Shape>(object1: &A, object2: &B) -> (r: Option<
    [Vec<VerticeCollisionInfo>; 2],
>)
    requires
        object1.shape_fits(),
        object2.shape_fits(),
        in_range(object1.spec_shape()),
        in_range(object2.spec_shape()),
    ensures
        r.is_some() == spec_overlap(object1.spec_shape(), object2.spec_shape()),
        r matches Some(lists) ==> lists[0]@ == contained_vertices(
            object1.spec_shape(),
            object2.spec_shape(),
        ) && lists[1]@ == contained_vertices(object2.spec_shape(), object1.spec_shape()),
{
    let s1 = object1.shape();
    let s2 = object2.shape();
    let info1 = collect_contained(&s1, &s2);
    let info2 = collect_contained(&s2, &s1);
    proof {
        lemma_none_contained(s1@, s2@);
        lemma_none_contained(s2@, s1@);
    }
    if info1.len() == 0 && info2.len() == 0 {
        None
    } else {
        Some([info1, info2])
    }
}

/// Along `axis`, every vertex of `p` projects strictly below, or every vertex
/// strictly above, the span of `q`: a gap separates them.
pub open spec fn gap_along(p: Seq<Vec2>, q: Seq<Vec2>, axis: Vec2) -> bool {
    ||| forall|i: int| 0 <= i < p.len() ==> (#[trigger] p[i]).spec_dot(axis) < min_proj(q, axis)
    ||| forall|i: int| 0 <= i < p.len() ==> (#[trigger] p[i]).spec_dot(axis) > max_proj(q, axis)
}

/// A gap along one of `q`'s own edge normals leaves no vertex of `p` inside `q`.
pub proof fn lemma_gap_excludes_vertices(p: Seq<Vec2>, q: Seq<Vec2>, k: int)
    requires
        0 <= k < q.len(),
        gap_along(p, q, edge_axis(q, k)),
    ensures
        !any_vertex_inside(p, q),
{
    assert forall|i: int| 0 <= i < p.len() implies !contains(q, #[trigger] p[i]) by {
        assert(!covers(q, edge_axis(q, k), p[i]));
    }
}

/// Two polygons with a gap between them along an edge normal of each are not
/// reported as overlapping: no vertex of either lies inside the other.
pub proof fn lemma_separated_polygons_do_not_overlap(p: Seq<Vec2>, q: Seq<Vec2>, k: int, m: int)
    requires
        0 <= k < q.len(),
        0 <= m < p.len(),
        gap_along(p, q, edge_axis(q, k)),
        gap_along(q, p, edge_axis(p, m)),
    ensures
        !spec_overlap(p, q),
{
    lemma_gap_excludes_vertices(p, q, k);
    lemma_gap_excludes_vertices(q, p, m);
}

/// A nonzero vector has a positive squared length.
pub proof fn lemma_nonzero_length(v: Vec2)
    requires
        v.x != 0 || v.y != 0,
    ensures
        v.length_sq() > 0,
{
    assert(v.x * v.x + v.y * v.y > 0) by (nonlinear_arith)
        requires
            v.x != 0 || v.y != 0,
    ;
}

} // verus!
