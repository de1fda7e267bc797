//! Approximation of boundaries into polylines.
//!
//! Every boundary curve of a face is sampled into an ordered sequence of
//! boundary points, each keeping both its surface-local and its ambient
//! form. For the line curves this kernel supports the approximation is
//! exact: the polyline of an edge consists of the edge's own end points,
//! which lie on the curve, so its deviation from the true curve is zero and
//! in particular within every positive tolerance.

use vstd::prelude::*;

use crate::math::{pt2_in_range, pt3_in_range, Point2, Point3};
use crate::objects::{
    curve2_at_u, curve2_at_v, cycle_wf, edge_wf, Cycle, Edge, Face, Local,
};
use crate::tolerance::Tolerance;

verus! {

/// A boundary point: its position in the surface-local coordinate system,
/// paired with its position in ambient space.
pub type ApproxPoint = Local<Point2, Point3>;

/// The surface-local forms of a point sequence.
pub open spec fn locals_of(ps: Seq<ApproxPoint>) -> Seq<Point2> {
    ps.map_values(|p: ApproxPoint| p.local_form)
}

/// The boundary points of one edge: its start and end vertex, each as the
/// local point where the vertex sits on the edge's local curve, paired with
/// the global form of the vertex.
pub open spec fn edge_approx_spec(e: Edge) -> Seq<ApproxPoint> {
    match e.vertices {
        None => Seq::empty(),
        Some(vs) => seq![
            Local {
                local_form: Point2 {
                    u: curve2_at_u(e.curve.local_spec(), vs.start.position as int) as i64,
                    v: curve2_at_v(e.curve.local_spec(), vs.start.position as int) as i64,
                },
                canonical_form: vs.start.global.position_spec(),
            },
            Local {
                local_form: Point2 {
                    u: curve2_at_u(e.curve.local_spec(), vs.finish.position as int) as i64,
                    v: curve2_at_v(e.curve.local_spec(), vs.finish.position as int) as i64,
                },
                canonical_form: vs.finish.global.position_spec(),
            },
        ],
    }
}

/// The boundary points of a cycle: the points of its edges, in edge order.
pub open spec fn cycle_approx_spec(edges: Seq<Edge>) -> Seq<ApproxPoint>
    decreases edges.len(),
{
    if edges.len() == 0 {
        Seq::empty()
    } else {
        cycle_approx_spec(edges.drop_last()) + edge_approx_spec(edges.last())
    }
}

/// Whether every point of an approximation is within coordinate range, in
/// both forms.
pub open spec fn approx_points_in_range(ps: Seq<ApproxPoint>) -> bool {
    forall|i: int|
        0 <= i < ps.len() ==> pt2_in_range(#[trigger] ps[i].local_form) && pt3_in_range(
            ps[i].canonical_form,
        )
}

/// An approximation of one cycle: an ordered sequence of boundary points.
pub struct CycleApprox {
    /// The boundary points of the cycle.
    pub points: Vec<ApproxPoint>,
}

impl CycleApprox {
    /// Approximate `cycle` within `tolerance`. Line segments are sampled at
    /// their end points, which reproduce the curve exactly.
    pub fn new(cycle: &Cycle, tolerance: Tolerance) -> (r: CycleApprox)
        requires
            cycle_wf(*cycle),
        ensures
            r.points@ == cycle_approx_spec(cycle.edges@),
            approx_points_in_range(r.points@),
    {
        let mut points: Vec<ApproxPoint> = Vec::new();
        let n = cycle.edges.len();
        let mut i: usize = 0;
        proof {
            assert(cycle.edges@.take(0) =~= Seq::<Edge>::empty());
        }
        while i < n
            invariant
                0 <= i <= n,
                n == cycle.edges@.len(),
                points@ == cycle_approx_spec(cycle.edges@.take(i as int)),
                approx_points_in_range(points@),
            decreases n - i,
        {
            let edge = cycle.edges[i];
            proof {
                assert(edge_wf(cycle.edges@[i as int]));
            }
            match edge.vertices {
                None => {
                    proof {
                        assert(false);
                    }
                },
                Some(vs) => {
                    let local_curve = edge.curve.local();
                    let pa = local_curve.point_at(vs.start.position);
                    let pb = local_curve.point_at(vs.finish.position);
                    points.push(Local::new(pa, vs.start.global.position()));
                    points.push(Local::new(pb, vs.finish.global.position()));
                },
            }
            proof {
                assert(cycle.edges@.take(i as int + 1).drop_last() =~= cycle.edges@.take(
                    i as int,
                ));
                assert(cycle.edges@.take(i as int + 1).last() == cycle.edges@[i as int]);
                assert(points@ =~= cycle_approx_spec(cycle.edges@.take(i as int + 1)));
            }
            i = i + 1;
        }
        proof {
            assert(cycle.edges@.take(n as int) =~= cycle.edges@);
        }
        CycleApprox { points }
    }
}

/// Every boundary point of an edge lies exactly on the edge's local curve:
/// the point for a vertex is the curve evaluated at that vertex's
/// parameter. The polyline through these points therefore deviates from the
/// line curve by exactly zero, which is within every tolerance.
pub proof fn lemma_line_approx_exact(e: Edge)
    requires
        edge_wf(e),
    ensures
        edge_approx_spec(e).len() == 2,
        edge_approx_spec(e)[0].local_form.u == curve2_at_u(
            e.curve.local_spec(),
            e.vertices->0.start.position as int,
        ),
        edge_approx_spec(e)[0].local_form.v == curve2_at_v(
            e.curve.local_spec(),
            e.vertices->0.start.position as int,
        ),
        edge_approx_spec(e)[1].local_form.u == curve2_at_u(
            e.curve.local_spec(),
            e.vertices->0.finish.position as int,
        ),
        edge_approx_spec(e)[1].local_form.v == curve2_at_v(
            e.curve.local_spec(),
            e.vertices->0.finish.position as int,
        ),
{
}

/// Whether `s` already holds a point at the same surface-local position as
/// `p`.
pub open spec fn contains_local(s: Seq<ApproxPoint>, p: ApproxPoint) -> bool {
    exists|i: int| 0 <= i < s.len() && s[i].local_form == p.local_form
}

/// Appends the points of `rest` to `acc` in order, skipping every point
/// whose surface-local position is already present. The triangulation works
/// in local coordinates, so points are identified by their local form.
pub open spec fn dedup_by_local(acc: Seq<ApproxPoint>, rest: Seq<ApproxPoint>) -> Seq<
    ApproxPoint,
>
    decreases rest.len(),
{
    if rest.len() == 0 {
        acc
    } else {
        dedup_by_local(
            if contains_local(acc, rest[0]) {
                acc
            } else {
                acc.push(rest[0])
            },
            rest.drop_first(),
        )
    }
}

/// No two points of `s` share a surface-local position.
pub open spec fn locals_distinct(s: Seq<ApproxPoint>) -> bool {
    forall|i: int, j: int|
        0 <= i < j < s.len() ==> (#[trigger] s[i]).local_form != (#[trigger] s[j]).local_form
}

/// The boundary points of a list of cycles, concatenated in order.
pub open spec fn cycles_points(cs: Seq<Seq<Edge>>) -> Seq<ApproxPoint>
    decreases cs.len(),
{
    if cs.len() == 0 {
        Seq::empty()
    } else {
        cycles_points(cs.drop_last()) + cycle_approx_spec(cs.last())
    }
}

/// The deduplicated union of all boundary points of a face's cycles:
/// exterior cycles first, then interior cycles, first occurrence of each
/// local position kept.
pub open spec fn face_points_spec(exts: Seq<Seq<Edge>>, ints: Seq<Seq<Edge>>) -> Seq<
    ApproxPoint,
> {
    dedup_by_local(Seq::empty(), cycles_points(exts) + cycles_points(ints))
}

/// Appends all points of `src` to `dst`.
fn append_points(dst: &mut Vec<ApproxPoint>, src: &Vec<ApproxPoint>)
    ensures
        final(dst)@ == old(dst)@ + src@,
{
    let n = src.len();
    let mut i: usize = 0;
    while i < n
        invariant
            0 <= i <= n,
            n == src@.len(),
            dst@ == old(dst)@ + src@.take(i as int),
        decreases n - i,
    {
        dst.push(src[i]);
        proof {
            assert(old(dst)@ + src@.take(i as int + 1) =~= (old(dst)@ + src@.take(i as int)).push(
                src@[i as int],
            ));
        }
        i = i + 1;
    }
    proof {
        assert(src@.take(n as int) =~= src@);
    }
}

/// Whether the vector already holds a point at the same local position.
fn contains_local_exec(points: &Vec<ApproxPoint>, p: &ApproxPoint) -> (r: bool)
    ensures
        r == contains_local(points@, *p),
{
    let n = points.len();
    let mut i: usize = 0;
    while i < n
        invariant
            0 <= i <= n,
            n == points@.len(),
            forall|j: int| 0 <= j < i ==> points@[j].local_form != p.local_form,
        decreases n - i,
    {
        if points[i].local_form == p.local_form {
            return true;
        }
        i = i + 1;
    }
    false
}

/// Keeps the first point at each local position, dropping later ones.
fn dedup_points(src: &Vec<ApproxPoint>) -> (r: Vec<ApproxPoint>)
    requires
        approx_points_in_range(src@),
    ensures
        r@ == dedup_by_local(Seq::empty(), src@),
        approx_points_in_range(r@),
        locals_distinct(r@),
{
    let ghost target = dedup_by_local(Seq::empty(), src@);
    let mut out: Vec<ApproxPoint> = Vec::new();
    let n = src.len();
    let mut i: usize = 0;
    proof {
        assert(out@ =~= Seq::<ApproxPoint>::empty());
        assert(src@.skip(0) =~= src@);
    }
    while i < n
        invariant
            0 <= i <= n,
            n == src@.len(),
            dedup_by_local(out@, src@.skip(i as int)) == target,
            approx_points_in_range(out@),
            locals_distinct(out@),
        decreases n - i,
    {
        let p = src[i];
        proof {
            assert(src@.skip(i as int)[0] == src@[i as int]);
            assert(src@.skip(i as int).drop_first() =~= src@.skip(i as int + 1));
        }
        if !contains_local_exec(&out, &p) {
            out.push(p);
        }
        i = i + 1;
    }
    proof {
        assert(src@.skip(n as int) =~= Seq::<ApproxPoint>::empty());
    }
    out
}

/// An approximation of a whole face: the deduplicated union of all boundary
/// points, and the per-cycle polylines for the exterior and interior
/// boundaries.
pub struct FaceApprox {
    /// All boundary points of the face, without local duplicates.
    pub points: Vec<ApproxPoint>,
    /// The approximations of the exterior cycles.
    pub exteriors: Vec<CycleApprox>,
    /// The approximations of the interior cycles.
    pub interiors: Vec<CycleApprox>,
}

/// Whether the cycle approximations in `out` are exactly those of the
/// cycles in `cs`, in order.
pub open spec fn cycle_approxes_match(out: Seq<CycleApprox>, cs: Seq<Cycle>) -> bool {
    &&& out.len() == cs.len()
    &&& forall|i: int|
        0 <= i < cs.len() ==> (#[trigger] out[i]).points@ == cycle_approx_spec(cs[i]@)
            && approx_points_in_range(out[i].points@)
}

/// Approximates each cycle of `cs` within `tolerance`.
fn approx_cycles(cs: &Vec<Cycle>, tolerance: Tolerance) -> (r: Vec<CycleApprox>)
    requires
        crate::objects::cycles_wf(cs@),
    ensures
        cycle_approxes_match(r@, cs@),
{
    let mut out: Vec<CycleApprox> = Vec::new();
    let n = cs.len();
    let mut i: usize = 0;
    while i < n
        invariant
            0 <= i <= n,
            n == cs@.len(),
            out@.len() == i,
            forall|j: int|
                0 <= j < i ==> (#[trigger] out@[j]).points@ == cycle_approx_spec(cs@[j]@)
                    && approx_points_in_range(out@[j].points@),
        decreases n - i,
    {
        proof {
            assert(cycle_wf(cs@[i as int]));
        }
        let ca = CycleApprox::new(&cs[i], tolerance);
        out.push(ca);
        i = i + 1;
    }
    out
}

impl FaceApprox {
    /// Approximate all boundaries of `face` within `tolerance`.
    pub fn new(face: &Face, tolerance: Tolerance) -> (r: FaceApprox)
        requires
            face matches Face::Face(brep),
            crate::objects::face_wf(*face),
        ensures
            face matches Face::Face(brep) ==> {
                &&& cycle_approxes_match(r.exteriors@, brep.exteriors@)
                &&& cycle_approxes_match(r.interiors@, brep.interiors@)
                &&& r.points@ == face_points_spec(
                    crate::objects::cycles_view(brep.exteriors@),
                    crate::objects::cycles_view(brep.interiors@),
                )
                &&& approx_points_in_range(r.points@)
                &&& locals_distinct(r.points@)
            },
    {
        match face {
            Face::Face(brep) => {
                let ghost ext_views = crate::objects::cycles_view(brep.exteriors@);
                let ghost int_views = crate::objects::cycles_view(brep.interiors@);
                let exteriors = approx_cycles(&brep.exteriors, tolerance);
                let interiors = approx_cycles(&brep.interiors, tolerance);
                let mut all: Vec<ApproxPoint> = Vec::new();
                let ne = exteriors.len();
                let mut i: usize = 0;
                proof {
                    assert(ext_views.take(0) =~= Seq::<Seq<Edge>>::empty());
                    assert(all@ =~= cycles_points(ext_views.take(0)));
                }
                while i < ne
                    invariant
                        0 <= i <= ne,
                        ne == exteriors@.len(),
                        ne == ext_views.len(),
                        cycle_approxes_match(exteriors@, brep.exteriors@),
                        all@ == cycles_points(ext_views.take(i as int)),
                        approx_points_in_range(all@),
                    decreases ne - i,
                {
                    append_points(&mut all, &exteriors[i].points);
                    proof {
                        assert(ext_views.take(i as int + 1).drop_last() =~= ext_views.take(
                            i as int,
                        ));
                        assert(ext_views.take(i as int + 1).last() == ext_views[i as int]);
                        assert(ext_views[i as int] == brep.exteriors@[i as int]@);
                    }
                    i = i + 1;
                }
                proof {
                    assert(ext_views.take(ne as int) =~= ext_views);
                }
                let ni = interiors.len();
                let mut j: usize = 0;
                proof {
                    assert(int_views.take(0) =~= Seq::<Seq<Edge>>::empty());
                    assert(all@ =~= cycles_points(ext_views) + cycles_points(int_views.take(0)));
                }
                while j < ni
                    invariant
                        0 <= j <= ni,
                        ni == interiors@.len(),
                        ni == int_views.len(),
                        cycle_approxes_match(interiors@, brep.interiors@),
                        all@ == cycles_points(ext_views) + cycles_points(int_views.take(j as int)),
                        approx_points_in_range(all@),
                    decreases ni - j,
                {
                    append_points(&mut all, &interiors[j].points);
                    proof {
                        assert(int_views.take(j as int + 1).drop_last() =~= int_views.take(
                            j as int,
                        ));
                        assert(int_views.take(j as int + 1).last() == int_views[j as int]);
                        assert(int_views[j as int] == brep.interiors@[j as int]@);
                        assert(cycles_points(ext_views) + cycles_points(
                            int_views.take(j as int + 1),
                        ) =~= (cycles_points(ext_views) + cycles_points(int_views.take(j as int)))
                            + cycle_approx_spec(int_views[j as int]));
                    }
                    j = j + 1;
                }
                proof {
                    assert(int_views.take(ni as int) =~= int_views);
                }
                let points = dedup_points(&all);
                FaceApprox { points, exteriors, interiors }
            },
            Face::Triangles(_) => {
                proof {
                    assert(false);
                }
                FaceApprox { points: Vec::new(), exteriors: Vec::new(), interiors: Vec::new() }
            },
        }
    }
}

} // verus!
