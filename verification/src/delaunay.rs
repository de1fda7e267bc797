//! Unconstrained Delaunay triangulation of a planar point set.
//!
//! A triple of points is a triangle of the triangulation exactly when it is
//! not degenerate and no other point lies inside its circumcircle. Ties —
//! four or more points on one circle — are broken by a symbolic
//! perturbation of the lifted points, ordered by point index, so that the
//! chosen triangles of a cocircular ring are consistent and the result is a
//! triangulation. All predicates are evaluated exactly in 128-bit integers.

use vstd::prelude::*;

use crate::approx::{approx_points_in_range, locals_of, ApproxPoint};
use crate::math::{
    in_circle_det, in_circle_det_exec, orient2, orient2_exec, Point2,
};

verus! {

/// The coefficient with which the perturbation of point `m` enters the
/// circumcircle determinant of the counter-clockwise triangle
/// `(a, b, c)` queried with point `l`. The indices `a`, `b`, `c`, `l` are
/// positions in `pts`, and `m` is one of them.
pub open spec fn pert_coeff(pts: Seq<Point2>, a: int, b: int, c: int, l: int, m: int) -> int {
    if m == a {
        -orient2(pts[l], pts[b], pts[c])
    } else if m == b {
        orient2(pts[l], pts[a], pts[c])
    } else if m == c {
        -orient2(pts[l], pts[a], pts[b])
    } else {
        orient2(pts[a], pts[b], pts[c])
    }
}

/// The first of the four values that is not zero, or zero if all are.
pub open spec fn first_nonzero(c0: int, c1: int, c2: int, c3: int) -> int {
    if c0 != 0 {
        c0
    } else if c1 != 0 {
        c1
    } else if c2 != 0 {
        c2
    } else {
        c3
    }
}

/// Whether point `l` lies inside the circumcircle of the triangle with
/// vertex indices `i < j < k`, under the symbolic perturbation that breaks
/// cocircular ties. The triangle is first brought into counter-clockwise
/// order; if the circumcircle determinant is nonzero it decides, otherwise
/// the perturbation term of the lowest-indexed point with a nonzero
/// coefficient decides.
pub open spec fn in_circle_pert(pts: Seq<Point2>, i: int, j: int, k: int, l: int) -> bool {
    let ccw = orient2(pts[i], pts[j], pts[k]) > 0;
    let a = i;
    let b = if ccw {
        j
    } else {
        k
    };
    let c = if ccw {
        k
    } else {
        j
    };
    let d0 = in_circle_det(pts[a], pts[b], pts[c], pts[l]);
    if d0 != 0 {
        d0 > 0
    } else {
        let s0 = if l < i {
            l
        } else {
            i
        };
        let s1 = if l < i {
            i
        } else if l < j {
            l
        } else {
            j
        };
        let s2 = if l < j {
            j
        } else if l < k {
            l
        } else {
            k
        };
        let s3 = if l < k {
            k
        } else {
            l
        };
        first_nonzero(
            pert_coeff(pts, a, b, c, l, s0),
            pert_coeff(pts, a, b, c, l, s1),
            pert_coeff(pts, a, b, c, l, s2),
            pert_coeff(pts, a, b, c, l, s3),
        ) > 0
    }
}

/// Whether the points with indices `i < j < k` form a triangle of the
/// Delaunay triangulation of `pts`: they are not collinear, and no other
/// point lies inside their circumcircle under the perturbed predicate.
pub open spec fn is_delaunay(pts: Seq<Point2>, i: int, j: int, k: int) -> bool {
    &&& 0 <= i < j
    &&& j < k < pts.len()
    &&& orient2(pts[i], pts[j], pts[k]) != 0
    &&& forall|l: int|
        0 <= l < pts.len() && l != i && l != j && l != k ==> !in_circle_pert(pts, i, j, k, l)
}

/// The triple `(i, j, k)` brought into counter-clockwise order in the
/// plane of `pts`.
pub open spec fn oriented_triple(pts: Seq<Point2>, i: int, j: int, k: int) -> (int, int, int) {
    if orient2(pts[i], pts[j], pts[k]) > 0 {
        (i, j, k)
    } else {
        (i, k, j)
    }
}

/// The Delaunay triangles with fixed larger indices `jj` and `kk` and
/// smallest index below `i_end`, in increasing order of smallest index.
pub open spec fn del_layer_i(pts: Seq<Point2>, jj: int, kk: int, i_end: int) -> Seq<
    (int, int, int),
>
    decreases i_end,
{
    if i_end <= 0 {
        Seq::empty()
    } else {
        del_layer_i(pts, jj, kk, i_end - 1) + (if is_delaunay(pts, i_end - 1, jj, kk) {
            seq![oriented_triple(pts, i_end - 1, jj, kk)]
        } else {
            Seq::empty()
        })
    }
}

/// The Delaunay triangles with fixed largest index `kk` and middle index
/// below `j_end`, ordered by middle index, then smallest index.
pub open spec fn del_layer_j(pts: Seq<Point2>, kk: int, j_end: int) -> Seq<(int, int, int)>
    decreases j_end,
{
    if j_end <= 1 {
        Seq::empty()
    } else {
        del_layer_j(pts, kk, j_end - 1) + del_layer_i(pts, j_end - 1, kk, j_end - 1)
    }
}

/// The Delaunay triangles whose largest index is below `k_end`, ordered by
/// largest index, then middle, then smallest.
pub open spec fn del_triples_upto(pts: Seq<Point2>, k_end: int) -> Seq<(int, int, int)>
    decreases k_end,
{
    if k_end <= 2 {
        Seq::empty()
    } else {
        del_triples_upto(pts, k_end - 1) + del_layer_j(pts, k_end - 1, k_end - 1)
    }
}

/// All triangles of the Delaunay triangulation of `pts`, each in
/// counter-clockwise vertex order, ordered by largest index, then middle,
/// then smallest.
pub open spec fn delaunay_triples(pts: Seq<Point2>) -> Seq<(int, int, int)> {
    del_triples_upto(pts, pts.len() as int)
}

/// Whether the executable triples match the specification triples.
pub open spec fn triples_match(ts: Seq<(usize, usize, usize)>, ss: Seq<(int, int, int)>) -> bool {
    &&& ts.len() == ss.len()
    &&& forall|m: int|
        0 <= m < ts.len() ==> ((#[trigger] ts[m]).0 as int, ts[m].1 as int, ts[m].2 as int)
            == ss[m]
}

/// Whether every index of every triple is below `n`.
pub open spec fn triples_below(ts: Seq<(usize, usize, usize)>, n: int) -> bool {
    forall|m: int|
        0 <= m < ts.len() ==> (#[trigger] ts[m]).0 < n && ts[m].1 < n && ts[m].2 < n
}

/// Decides `in_circle_pert` exactly.
fn in_circle_pert_exec(pts: &Vec<ApproxPoint>, i: usize, j: usize, k: usize, l: usize) -> (r:
    bool)
    requires
        approx_points_in_range(pts@),
        i < j < k < pts@.len(),
        l < pts@.len(),
        l != i,
        l != j,
        l != k,
    ensures
        r == in_circle_pert(locals_of(pts@), i as int, j as int, k as int, l as int),
{
    let ghost ls = locals_of(pts@);
    let pi = pts[i].local();
    let pj = pts[j].local();
    let pk = pts[k].local();
    let pl = pts[l].local();
    proof {
        assert(ls[i as int] == pi);
        assert(ls[j as int] == pj);
        assert(ls[k as int] == pk);
        assert(ls[l as int] == pl);
    }
    let ccw = orient2_exec(&pi, &pj, &pk) > 0;
    let pa = pi;
    let pb = if ccw {
        pj
    } else {
        pk
    };
    let pc = if ccw {
        pk
    } else {
        pj
    };
    let d0 = in_circle_det_exec(&pa, &pb, &pc, &pl);
    if d0 != 0 {
        d0 > 0
    } else {
        let ci = -orient2_exec(&pl, &pb, &pc);
        let cj = if ccw {
            orient2_exec(&pl, &pa, &pc)
        } else {
            -orient2_exec(&pl, &pa, &pb)
        };
        let ck = if ccw {
            -orient2_exec(&pl, &pa, &pb)
        } else {
            orient2_exec(&pl, &pa, &pc)
        };
        let cl = orient2_exec(&pa, &pb, &pc);
        let c0 = if l < i {
            cl
        } else {
            ci
        };
        let c1 = if l < i {
            ci
        } else if l < j {
            cl
        } else {
            cj
        };
        let c2 = if l < j {
            cj
        } else if l < k {
            cl
        } else {
            ck
        };
        let c3 = if l < k {
            ck
        } else {
            cl
        };
        let f = if c0 != 0 {
            c0
        } else if c1 != 0 {
            c1
        } else if c2 != 0 {
            c2
        } else {
            c3
        };
        f > 0
    }
}

/// Decides `is_delaunay` exactly.
fn is_delaunay_exec(pts: &Vec<ApproxPoint>, i: usize, j: usize, k: usize) -> (r: bool)
    requires
        approx_points_in_range(pts@),
        i < j < k < pts@.len(),
    ensures
        r == is_delaunay(locals_of(pts@), i as int, j as int, k as int),
{
    let ghost ls = locals_of(pts@);
    let pi = pts[i].local();
    let pj = pts[j].local();
    let pk = pts[k].local();
    proof {
        assert(ls[i as int] == pi);
        assert(ls[j as int] == pj);
        assert(ls[k as int] == pk);
    }
    let d = orient2_exec(&pi, &pj, &pk);
    if d == 0 {
        return false;
    }
    let n = pts.len();
    let mut l: usize = 0;
    while l < n
        invariant
            0 <= l <= n,
            n == pts@.len(),
            forall|m: int|
                0 <= m < l && m != i && m != j && m != k ==> !in_circle_pert(
                    ls,
                    i as int,
                    j as int,
                    k as int,
                    m,
                ),
        decreases n - l,
    {
        if l != i && l != j && l != k {
            if in_circle_pert_exec(pts, i, j, k, l) {
                return false;
            }
        }
        l = l + 1;
    }
    true
}

/// Computes the Delaunay triangulation of the local forms of `pts`: every
/// non-degenerate triple whose circumcircle is empty under the perturbed
/// predicate, each triple in counter-clockwise order, ordered by largest
/// index, then middle, then smallest.
pub fn triangulate_points(pts: &Vec<ApproxPoint>) -> (r: Vec<(usize, usize, usize)>)
    requires
        approx_points_in_range(pts@),
    ensures
        triples_match(r@, delaunay_triples(locals_of(pts@))),
        triples_below(r@, pts@.len() as int),
{
    let ghost ls = locals_of(pts@);
    let mut out: Vec<(usize, usize, usize)> = Vec::new();
    let n = pts.len();
    if n < 3 {
        proof {
            assert(del_triples_upto(ls, ls.len() as int) == Seq::<(int, int, int)>::empty());
        }
        return out;
    }
    let mut k: usize = 2;
    while k < n
        invariant
            2 <= k <= n,
            n == pts@.len(),
            triples_match(out@, del_triples_upto(ls, k as int)),
            triples_below(out@, n as int),
        decreases n - k,
    {
        let mut j: usize = 1;
        while j < k
            invariant
                1 <= j <= k,
                2 <= k < n,
                n == pts@.len(),
                triples_match(out@, del_triples_upto(ls, k as int) + del_layer_j(ls, k as int, j as int)),
                triples_below(out@, n as int),
            decreases k - j,
        {
            let mut i: usize = 0;
            while i < j
                invariant
                    0 <= i <= j,
                    1 <= j < k,
                    2 <= k < n,
                    n == pts@.len(),
                    triples_match(
                        out@,
                        del_triples_upto(ls, k as int) + del_layer_j(ls, k as int, j as int)
                            + del_layer_i(ls, j as int, k as int, i as int),
                    ),
                    triples_below(out@, n as int),
                decreases j - i,
            {
                if is_delaunay_exec(pts, i, j, k) {
                    let pi = pts[i].local();
                    let pj = pts[j].local();
                    let pk = pts[k].local();
                    proof {
                        assert(ls[i as int] == pi);
                        assert(ls[j as int] == pj);
                        assert(ls[k as int] == pk);
                    }
                    let t = if orient2_exec(&pi, &pj, &pk) > 0 {
                        (i, j, k)
                    } else {
                        (i, k, j)
                    };
                    out.push(t);
                }
                i = i + 1;
            }
            j = j + 1;
        }
        k = k + 1;
    }
    proof {
        assert(del_triples_upto(ls, ls.len() as int) == del_triples_upto(ls, n as int));
    }
    out
}

/// Every triple of an index layer has its components within the point
/// count and within the layer's bounds.
proof fn lemma_del_layer_i_bounds(pts: Seq<Point2>, jj: int, kk: int, i_end: int)
    requires
        0 <= i_end <= jj < kk < pts.len(),
    ensures
        forall|m: int|
            0 <= m < del_layer_i(pts, jj, kk, i_end).len() ==> 0 <= (#[trigger] del_layer_i(
                pts,
                jj,
                kk,
                i_end,
            )[m]).0 < pts.len() && 0 <= del_layer_i(pts, jj, kk, i_end)[m].1 < pts.len() && 0
                <= del_layer_i(pts, jj, kk, i_end)[m].2 < pts.len(),
    decreases i_end,
{
    if i_end <= 0 {
    } else {
        lemma_del_layer_i_bounds(pts, jj, kk, i_end - 1);
        let s = del_layer_i(pts, jj, kk, i_end);
        let prev = del_layer_i(pts, jj, kk, i_end - 1);
        assert forall|m: int|
            0 <= m < s.len() implies 0 <= (#[trigger] s[m]).0 < pts.len() && 0 <= s[m].1
            < pts.len() && 0 <= s[m].2 < pts.len() by {
            if m < prev.len() {
                assert(s[m] == prev[m]);
            } else {
                assert(s[m] == oriented_triple(pts, i_end - 1, jj, kk));
            }
        }
    }
}

proof fn lemma_del_layer_j_bounds(pts: Seq<Point2>, kk: int, j_end: int)
    requires
        0 <= j_end <= kk < pts.len(),
    ensures
        forall|m: int|
            0 <= m < del_layer_j(pts, kk, j_end).len() ==> 0 <= (#[trigger] del_layer_j(
                pts,
                kk,
                j_end,
            )[m]).0 < pts.len() && 0 <= del_layer_j(pts, kk, j_end)[m].1 < pts.len() && 0
                <= del_layer_j(pts, kk, j_end)[m].2 < pts.len(),
    decreases j_end,
{
    if j_end <= 1 {
    } else {
        lemma_del_layer_j_bounds(pts, kk, j_end - 1);
        lemma_del_layer_i_bounds(pts, j_end - 1, kk, j_end - 1);
        let s = del_layer_j(pts, kk, j_end);
        let prev = del_layer_j(pts, kk, j_end - 1);
        let layer = del_layer_i(pts, j_end - 1, kk, j_end - 1);
        assert forall|m: int|
            0 <= m < s.len() implies 0 <= (#[trigger] s[m]).0 < pts.len() && 0 <= s[m].1
            < pts.len() && 0 <= s[m].2 < pts.len() by {
            if m < prev.len() {
                assert(s[m] == prev[m]);
            } else {
                assert(s[m] == layer[m - prev.len()]);
            }
        }
    }
}

proof fn lemma_del_upto_bounds(pts: Seq<Point2>, k_end: int)
    requires
        k_end <= pts.len(),
    ensures
        forall|m: int|
            0 <= m < del_triples_upto(pts, k_end).len() ==> 0 <= (#[trigger] del_triples_upto(
                pts,
                k_end,
            )[m]).0 < pts.len() && 0 <= del_triples_upto(pts, k_end)[m].1 < pts.len() && 0
                <= del_triples_upto(pts, k_end)[m].2 < pts.len(),
    decreases k_end,
{
    if k_end <= 2 {
    } else {
        lemma_del_upto_bounds(pts, k_end - 1);
        lemma_del_layer_j_bounds(pts, k_end - 1, k_end - 1);
        let s = del_triples_upto(pts, k_end);
        let prev = del_triples_upto(pts, k_end - 1);
        let layer = del_layer_j(pts, k_end - 1, k_end - 1);
        assert forall|m: int|
            0 <= m < s.len() implies 0 <= (#[trigger] s[m]).0 < pts.len() && 0 <= s[m].1
            < pts.len() && 0 <= s[m].2 < pts.len() by {
            if m < prev.len() {
                assert(s[m] == prev[m]);
            } else {
                assert(s[m] == layer[m - prev.len()]);
            }
        }
    }
}

/// Every triple of the Delaunay triangulation has its vertex indices
/// within the point count.
pub proof fn lemma_delaunay_triples_bounds(pts: Seq<Point2>)
    ensures
        forall|m: int|
            0 <= m < delaunay_triples(pts).len() ==> 0 <= (#[trigger] delaunay_triples(pts)[m]).0
                < pts.len() && 0 <= delaunay_triples(pts)[m].1 < pts.len() && 0
                <= delaunay_triples(pts)[m].2 < pts.len(),
{
    lemma_del_upto_bounds(pts, pts.len() as int);
}

} // verus!
