//! Converting faces into a triangle mesh.
//!
//! Per boundary-defined face: the boundaries are approximated into
//! polylines, the union of all boundary points is triangulated in the
//! surface's local coordinate space, and each candidate triangle is kept
//! only if its centroid lies inside the exterior boundary and outside every
//! interior boundary, decided by an exact ray-casting test. Surviving
//! triangles are emitted in ambient space with the face's color.
//! Pre-triangulated faces bypass all of this: their triangles are appended
//! verbatim.

use vstd::prelude::*;

use crate::approx::{
    approx_points_in_range, cycle_approx_spec, face_points_spec, locals_of, ApproxPoint,
    FaceApprox,
};
use crate::math::{pt2_in_range, Color, Point2, Point3, Triangle3, COORD_LIMIT};
use crate::objects::{cycles_view, Edge, Face, Surface};
use crate::tolerance::Tolerance;

verus! {

/// One recorded containment test: the scaled representative point that the
/// ray was cast from, and the decision taken.
#[derive(Clone, Copy, PartialEq, Eq, Structural, Debug)]
pub struct ContainmentCheck {
    /// Three times the u coordinate of the tested point.
    pub point_u3: i64,
    /// Three times the v coordinate of the tested point.
    pub point_v3: i64,
    /// Whether the point was found inside the polygon.
    pub inside: bool,
}

/// A write-only collector of containment-test traces, for visualization.
/// The kernel only appends to it and never reads it back.
pub struct DebugInfo {
    /// The recorded containment tests, in the order they were made.
    pub containment_checks: Vec<ContainmentCheck>,
}

impl DebugInfo {
    /// An empty collector.
    pub fn new() -> (r: DebugInfo)
        ensures
            r.containment_checks@.len() == 0,
    {
        DebugInfo { containment_checks: Vec::new() }
    }
}

/// Whether the polygon edge from `a` to `b` is crossed by the ray running
/// in the positive-u direction from the point `(pu3/3, pv3/3)`. All
/// comparisons are made after scaling the polygon by three, so that the
/// centroid of a triangle, passed as the sum of its three vertices, can be
/// tested exactly.
///
/// The rule is half-open: an edge counts the endpoint at its lower v
/// coordinate and not the one at its higher v coordinate, so a ray through
/// a shared vertex of two edges crosses exactly one of them. A point
/// exactly on an edge is treated as not crossed by that edge.
pub open spec fn ray_crosses(a: Point2, b: Point2, pu3: int, pv3: int) -> bool {
    let ax = 3 * a.u;
    let ay = 3 * a.v;
    let bx = 3 * b.u;
    let by = 3 * b.v;
    let cross = (bx - ax) * (pv3 - ay) - (pu3 - ax) * (by - ay);
    ((ay > pv3) != (by > pv3)) && (if by > ay {
        cross > 0
    } else {
        cross < 0
    })
}

/// The number of polygon edges among the first `k` that the ray from
/// `(pu3/3, pv3/3)` crosses. Edge `e` runs from vertex `e` to vertex
/// `e + 1`, the last edge closing back to vertex zero.
pub open spec fn crossings_upto(poly: Seq<Point2>, pu3: int, pv3: int, k: int) -> nat
    decreases k,
{
    if k <= 0 {
        0
    } else {
        crossings_upto(poly, pu3, pv3, k - 1) + (if ray_crosses(
            poly[k - 1],
            poly[if k == poly.len() {
                0int
            } else {
                k
            }],
            pu3,
            pv3,
        ) {
            1nat
        } else {
            0nat
        })
    }
}

/// Whether the point `(pu3/3, pv3/3)` lies inside `poly`, by the crossing
/// number rule: inside exactly when the ray crosses an odd number of
/// edges.
pub open spec fn polygon_contains(poly: Seq<Point2>, pu3: int, pv3: int) -> bool {
    crossings_upto(poly, pu3, pv3, poly.len() as int) % 2 == 1
}

/// Whether any of the polygons contains the point.
pub open spec fn any_contains(polys: Seq<Seq<Point2>>, pu3: int, pv3: int) -> bool {
    exists|i: int| 0 <= i < polys.len() && polygon_contains(#[trigger] polys[i], pu3, pv3)
}

/// Whether the triangle `a`, `b`, `c` passes the containment filter
/// against the given exterior and interior boundaries: its centroid lies
/// inside some exterior boundary and inside no interior boundary.
pub open spec fn triangle_kept(
    exts: Seq<Seq<Point2>>,
    ints: Seq<Seq<Point2>>,
    a: Point2,
    b: Point2,
    c: Point2,
) -> bool {
    let pu3 = a.u + b.u + c.u;
    let pv3 = a.v + b.v + c.v;
    any_contains(exts, pu3, pv3) && !any_contains(ints, pu3, pv3)
}

/// Whether every point of every polygon is in coordinate range.
pub open spec fn polys_in_range(polys: Seq<Seq<Point2>>) -> bool {
    forall|i: int, j: int|
        0 <= i < polys.len() && 0 <= j < polys[i].len() ==> pt2_in_range(#[trigger] polys[i][j])
}

/// The views of a list of polygons.
pub open spec fn polys_view(polys: Seq<Vec<Point2>>) -> Seq<Seq<Point2>> {
    polys.map_values(|v: Vec<Point2>| v@)
}

/// Decides `polygon_contains` exactly.
fn polygon_contains_exec(poly: &Vec<Point2>, pu3: i64, pv3: i64) -> (r: bool)
    requires
        forall|i: int| 0 <= i < poly@.len() ==> pt2_in_range(#[trigger] poly@[i]),
        -3 * COORD_LIMIT <= pu3 <= 3 * COORD_LIMIT,
        -3 * COORD_LIMIT <= pv3 <= 3 * COORD_LIMIT,
    ensures
        r == polygon_contains(poly@, pu3 as int, pv3 as int),
{
    let n = poly.len();
    let mut inside = false;
    let mut k: usize = 0;
    while k < n
        invariant
            0 <= k <= n,
            n == poly@.len(),
            inside == (crossings_upto(poly@, pu3 as int, pv3 as int, k as int) % 2 == 1),
        decreases n - k,
    {
        let a = poly[k];
        let b = poly[if k + 1 == n {
            0
        } else {
            k + 1
        }];
        let ax = 3 * (a.u as i128);
        let ay = 3 * (a.v as i128);
        let bx = 3 * (b.u as i128);
        let by = 3 * (b.v as i128);
        let cross = crate::math::mul_small(bx - ax, pv3 as i128 - ay) - crate::math::mul_small(
            pu3 as i128 - ax,
            by - ay,
        );
        let crossed = ((ay > pv3 as i128) != (by > pv3 as i128)) && (if by > ay {
            cross > 0
        } else {
            cross < 0
        });
        proof {
            assert(crossed == ray_crosses(
                poly@[k as int],
                poly@[if k as int + 1 == n as int {
                    0int
                } else {
                    k as int + 1
                }],
                pu3 as int,
                pv3 as int,
            ));
        }
        if crossed {
            inside = !inside;
        }
        k = k + 1;
    }
    inside
}

/// Decides `any_contains` exactly.
fn any_contains_exec(polys: &Vec<Vec<Point2>>, pu3: i64, pv3: i64) -> (r: bool)
    requires
        polys_in_range(polys_view(polys@)),
        -3 * COORD_LIMIT <= pu3 <= 3 * COORD_LIMIT,
        -3 * COORD_LIMIT <= pv3 <= 3 * COORD_LIMIT,
    ensures
        r == any_contains(polys_view(polys@), pu3 as int, pv3 as int),
{
    let n = polys.len();
    let mut i: usize = 0;
    while i < n
        invariant
            0 <= i <= n,
            n == polys@.len(),
            forall|j: int|
                0 <= j < i ==> !polygon_contains(
                    #[trigger] polys_view(polys@)[j],
                    pu3 as int,
                    pv3 as int,
                ),
        decreases n - i,
    {
        proof {
            assert(polys_view(polys@)[i as int] == polys@[i as int]@);
            assert forall|j: int|
                0 <= j < polys@[i as int]@.len() implies pt2_in_range(
                #[trigger] polys@[i as int]@[j],
            ) by {
                assert(pt2_in_range(polys_view(polys@)[i as int][j]));
            }
        }
        if polygon_contains_exec(&polys[i], pu3, pv3) {
            proof {
                assert(polygon_contains(polys_view(polys@)[i as int], pu3 as int, pv3 as int));
            }
            return true;
        }
        i = i + 1;
    }
    false
}

/// A face boundary as plain polygons in the surface-local coordinate
/// space, ready for containment testing.
pub struct Polygon {
    /// The surface the polygons live on.
    pub surface: Surface,
    /// The exterior boundaries.
    pub exteriors: Vec<Vec<Point2>>,
    /// The interior boundaries (holes).
    pub interiors: Vec<Vec<Point2>>,
}

impl Polygon {
    /// An empty polygon on `surface`.
    pub fn new(surface: Surface) -> (r: Polygon)
        ensures
            r.surface == surface,
            r.exteriors@.len() == 0,
            r.interiors@.len() == 0,
    {
        Polygon { surface, exteriors: Vec::new(), interiors: Vec::new() }
    }

    /// Adds an exterior boundary.
    pub fn with_exterior(self, points: Vec<Point2>) -> (r: Polygon)
        ensures
            r.surface == self.surface,
            r.exteriors@ == self.exteriors@.push(points),
            r.interiors@ == self.interiors@,
    {
        let mut exteriors = self.exteriors;
        exteriors.push(points);
        Polygon { exteriors, ..self }
    }

    /// Adds an interior boundary.
    pub fn with_interior(self, points: Vec<Point2>) -> (r: Polygon)
        ensures
            r.surface == self.surface,
            r.exteriors@ == self.exteriors@,
            r.interiors@ == self.interiors@.push(points),
    {
        let mut interiors = self.interiors;
        interiors.push(points);
        Polygon { interiors, ..self }
    }

    /// Whether the triangle `a`, `b`, `c` passes the containment filter:
    /// its centroid lies inside some exterior boundary and inside no
    /// interior boundary. Records the test in `debug_info`.
    pub fn contains_triangle(
        &self,
        a: Point2,
        b: Point2,
        c: Point2,
        debug_info: &mut DebugInfo,
    ) -> (r: bool)
        requires
            polys_in_range(polys_view(self.exteriors@)),
            polys_in_range(polys_view(self.interiors@)),
            pt2_in_range(a),
            pt2_in_range(b),
            pt2_in_range(c),
        ensures
            r == triangle_kept(polys_view(self.exteriors@), polys_view(self.interiors@), a, b, c),
            final(debug_info).containment_checks@ == old(
                debug_info,
            ).containment_checks@.push(
                ContainmentCheck {
                    point_u3: (a.u + b.u + c.u) as i64,
                    point_v3: (a.v + b.v + c.v) as i64,
                    inside: r,
                },
            ),
    {
        let pu3 = a.u + b.u + c.u;
        let pv3 = a.v + b.v + c.v;
        let in_exterior = any_contains_exec(&self.exteriors, pu3, pv3);
        let in_interior = any_contains_exec(&self.interiors, pu3, pv3);
        let r = in_exterior && !in_interior;
        debug_info.containment_checks.push(
            ContainmentCheck { point_u3: pu3, point_v3: pv3, inside: r },
        );
        r
    }
}

/// A triangle mesh: an ordered list of ambient triangles, each with a
/// color.
pub struct Mesh {
    triangles: Vec<(Triangle3, Color)>,
}

impl View for Mesh {
    type V = Seq<(Triangle3, Color)>;

    closed spec fn view(&self) -> Seq<(Triangle3, Color)> {
        self.triangles@
    }
}

/// Whether the triangle's corners are exactly the three given points, in
/// any order.
pub open spec fn tri_has_points(t: Triangle3, p0: Point3, p1: Point3, p2: Point3) -> bool {
    ||| (t.a == p0 && t.b == p1 && t.c == p2)
    ||| (t.a == p0 && t.b == p2 && t.c == p1)
    ||| (t.a == p1 && t.b == p0 && t.c == p2)
    ||| (t.a == p1 && t.b == p2 && t.c == p0)
    ||| (t.a == p2 && t.b == p0 && t.c == p1)
    ||| (t.a == p2 && t.b == p1 && t.c == p0)
}

/// Whether the mesh holds a triangle with exactly the given corner points,
/// in any order.
pub open spec fn mesh_contains_triangle(
    m: Seq<(Triangle3, Color)>,
    p0: Point3,
    p1: Point3,
    p2: Point3,
) -> bool {
    exists|i: int| 0 <= i < m.len() && tri_has_points(#[trigger] m[i].0, p0, p1, p2)
}

impl Mesh {
    /// An empty mesh.
    pub fn new() -> (r: Mesh)
        ensures
            r@ == Seq::<(Triangle3, Color)>::empty(),
    {
        let r = Mesh { triangles: Vec::new() };
        proof {
            assert(r@ =~= Seq::<(Triangle3, Color)>::empty());
        }
        r
    }

    /// Appends one triangle with its color.
    pub fn push_triangle(&mut self, triangle: Triangle3, color: Color)
        ensures
            final(self)@ == old(self)@.push((triangle, color)),
    {
        self.triangles.push((triangle, color));
    }

    /// The triangles of the mesh, in order.
    pub fn triangles(&self) -> (r: &Vec<(Triangle3, Color)>)
        ensures
            r@ == self@,
    {
        &self.triangles
    }

    /// How many triangles the mesh holds.
    pub fn len(&self) -> (r: usize)
        ensures
            r == self@.len(),
    {
        self.triangles.len()
    }

    /// Whether the mesh holds a triangle with exactly these corner points,
    /// in any order.
    pub fn contains_triangle(&self, points: [Point3; 3]) -> (r: bool)
        ensures
            r == mesh_contains_triangle(self@, points@[0], points@[1], points@[2]),
    {
        let p0 = points[0];
        let p1 = points[1];
        let p2 = points[2];
        let n = self.triangles.len();
        let mut i: usize = 0;
        while i < n
            invariant
                0 <= i <= n,
                n == self@.len(),
                p0 == points@[0],
                p1 == points@[1],
                p2 == points@[2],
                forall|j: int| 0 <= j < i ==> !tri_has_points(#[trigger] self@[j].0, p0, p1, p2),
            decreases n - i,
        {
            let t = self.triangles[i].0;
            let hit = (t.a == p0 && t.b == p1 && t.c == p2) || (t.a == p0 && t.b == p2 && t.c
                == p1) || (t.a == p1 && t.b == p0 && t.c == p2) || (t.a == p1 && t.b == p2 && t.c
                == p0) || (t.a == p2 && t.b == p0 && t.c == p1) || (t.a == p2 && t.b == p1 && t.c
                == p0);
            if hit {
                proof {
                    assert(tri_has_points(self@[i as int].0, p0, p1, p2));
                }
                return true;
            }
            i = i + 1;
        }
        false
    }
}

/// The surface-local polyline of one cycle.
pub open spec fn cycle_locals(edges: Seq<Edge>) -> Seq<Point2> {
    locals_of(cycle_approx_spec(edges))
}

/// The surface-local polylines of a list of cycles.
pub open spec fn cycles_locals(cs: Seq<Seq<Edge>>) -> Seq<Seq<Point2>> {
    cs.map_values(|es: Seq<Edge>| cycle_locals(es))
}

/// The triples of `ts` that pass the containment filter, in order.
pub open spec fn kept_triples(
    ts: Seq<(int, int, int)>,
    locals: Seq<Point2>,
    exts: Seq<Seq<Point2>>,
    ints: Seq<Seq<Point2>>,
) -> Seq<(int, int, int)>
    decreases ts.len(),
{
    if ts.len() == 0 {
        Seq::empty()
    } else {
        kept_triples(ts.drop_last(), locals, exts, ints) + (if triangle_kept(
            exts,
            ints,
            locals[ts.last().0],
            locals[ts.last().1],
            locals[ts.last().2],
        ) {
            seq![ts.last()]
        } else {
            Seq::empty()
        })
    }
}

/// The ambient triangles for the kept triples: each local vertex is
/// replaced by the ambient form kept alongside it, and the face's color is
/// attached.
pub open spec fn emit_mesh(
    kept: Seq<(int, int, int)>,
    pts: Seq<ApproxPoint>,
    color: Color,
) -> Seq<(Triangle3, Color)> {
    kept.map_values(
        |t: (int, int, int)|
            (
                Triangle3 {
                    a: pts[t.0].canonical_form,
                    b: pts[t.1].canonical_form,
                    c: pts[t.2].canonical_form,
                },
                color,
            ),
    )
}

/// The mesh contribution of one boundary-defined face: approximate, then
/// triangulate the union of boundary points, then keep the triangles that
/// pass the containment filter, then emit them in ambient space.
pub open spec fn face_mesh_spec(
    exts: Seq<Seq<Edge>>,
    ints: Seq<Seq<Edge>>,
    color: Color,
) -> Seq<(Triangle3, Color)> {
    let pts = face_points_spec(exts, ints);
    let locals = locals_of(pts);
    emit_mesh(
        kept_triples(
            crate::delaunay::delaunay_triples(locals),
            locals,
            cycles_locals(exts),
            cycles_locals(ints),
        ),
        pts,
        color,
    )
}

/// The mesh contribution of one face value.
pub open spec fn face_mesh_view(fv: crate::objects::FaceView) -> Seq<(Triangle3, Color)> {
    match fv {
        crate::objects::FaceView::Brep { surface, exteriors, interiors, color } => face_mesh_spec(
            exteriors,
            interiors,
            color,
        ),
        crate::objects::FaceView::Triangles(ts) => ts,
    }
}

/// The mesh contribution of one face.
pub open spec fn face_mesh_of(f: Face) -> Seq<(Triangle3, Color)> {
    face_mesh_view(f@)
}

/// The mesh of a list of faces: the contributions of the faces,
/// concatenated in order.
pub open spec fn triangulate_spec(faces: Seq<Face>) -> Seq<(Triangle3, Color)>
    decreases faces.len(),
{
    if faces.len() == 0 {
        Seq::empty()
    } else {
        triangulate_spec(faces.drop_last()) + face_mesh_of(faces.last())
    }
}

/// The local forms of the given boundary points, as a vector.
fn locals_vec(ps: &Vec<ApproxPoint>) -> (r: Vec<Point2>)
    ensures
        r@ == locals_of(ps@),
{
    let mut out: Vec<Point2> = Vec::new();
    let n = ps.len();
    let mut i: usize = 0;
    while i < n
        invariant
            0 <= i <= n,
            n == ps@.len(),
            out@.len() == i,
            forall|j: int| 0 <= j < i ==> out@[j] == locals_of(ps@)[j],
        decreases n - i,
    {
        let p = ps[i].local();
        out.push(p);
        i = i + 1;
    }
    proof {
        assert(out@ =~= locals_of(ps@));
    }
    out
}

/// Triangulate a list of faces into one mesh, within `tolerance`. Each
/// boundary-defined face contributes the triangles of its filtered
/// triangulation; each pre-triangulated face contributes its triangles
/// verbatim. Containment decisions are recorded in `debug_info`.
pub fn triangulate(faces: Vec<Face>, tolerance: Tolerance, debug_info: &mut DebugInfo) -> (mesh:
    Mesh)
    requires
        crate::objects::faces_wf(faces@),
    ensures
        mesh@ == triangulate_spec(faces@),
{
    let mut mesh = Mesh::new();
    let nf = faces.len();
    let mut f: usize = 0;
    proof {
        assert(faces@.take(0) =~= Seq::<Face>::empty());
    }
    while f < nf
        invariant
            0 <= f <= nf,
            nf == faces@.len(),
            mesh@ == triangulate_spec(faces@.take(f as int)),
        decreases nf - f,
    {
        let face = &faces[f];
        proof {
            assert(crate::objects::face_wf(faces@[f as int]));
        }
        match face {
            Face::Face(brep) => {
                let ghost ext_views = cycles_view(brep.exteriors@);
                let ghost int_views = cycles_view(brep.interiors@);
                let ghost exts_l = cycles_locals(ext_views);
                let ghost ints_l = cycles_locals(int_views);
                let approx = FaceApprox::new(face, tolerance);
                let ghost pts_spec = approx.points@;
                let ghost locals = locals_of(pts_spec);
                let mut polygon = Polygon::new(brep.surface);
                let ne = approx.exteriors.len();
                let mut ci: usize = 0;
                proof {
                    assert(polys_view(polygon.exteriors@) =~= exts_l.take(0));
                    assert(polys_view(polygon.interiors@) =~= Seq::<Seq<Point2>>::empty());
                }
                while ci < ne
                    invariant
                        0 <= ci <= ne,
                        ne == approx.exteriors@.len(),
                        ne == exts_l.len(),
                        polygon.interiors@.len() == 0,
                        polys_view(polygon.exteriors@) == exts_l.take(ci as int),
                        polys_in_range(polys_view(polygon.exteriors@)),
                    decreases ne - ci,
                {
                    let lv = locals_vec(&approx.exteriors[ci].points);
                    proof {
                        assert(approx.exteriors@[ci as int].points@ == cycle_approx_spec(
                            brep.exteriors@[ci as int]@,
                        ));
                        assert(ext_views[ci as int] == brep.exteriors@[ci as int]@);
                        assert(exts_l[ci as int] == cycle_locals(ext_views[ci as int]));
                        assert(lv@ == exts_l[ci as int]);
                        assert(forall|j: int|
                            0 <= j < lv@.len() ==> pt2_in_range(#[trigger] lv@[j]));
                    }
                    let ghost pe = polygon.exteriors@;
                    polygon = polygon.with_exterior(lv);
                    proof {
                        assert(polys_view(pe.push(lv)) =~= polys_view(pe).push(lv@));
                        assert(exts_l.take(ci as int + 1) =~= exts_l.take(ci as int).push(
                            exts_l[ci as int],
                        ));
                    }
                    ci = ci + 1;
                }
                proof {
                    assert(exts_l.take(ne as int) =~= exts_l);
                }
                let ni = approx.interiors.len();
                let mut di: usize = 0;
                proof {
                    assert(polys_view(polygon.interiors@) =~= ints_l.take(0));
                }
                while di < ni
                    invariant
                        0 <= di <= ni,
                        ni == approx.interiors@.len(),
                        ni == ints_l.len(),
                        polys_view(polygon.exteriors@) == exts_l,
                        polys_in_range(polys_view(polygon.exteriors@)),
                        polys_view(polygon.interiors@) == ints_l.take(di as int),
                        polys_in_range(polys_view(polygon.interiors@)),
                    decreases ni - di,
                {
                    let lv = locals_vec(&approx.interiors[di].points);
                    proof {
                        assert(approx.interiors@[di as int].points@ == cycle_approx_spec(
                            brep.interiors@[di as int]@,
                        ));
                        assert(int_views[di as int] == brep.interiors@[di as int]@);
                        assert(ints_l[di as int] == cycle_locals(int_views[di as int]));
                        assert(lv@ == ints_l[di as int]);
                        assert(forall|j: int|
                            0 <= j < lv@.len() ==> pt2_in_range(#[trigger] lv@[j]));
                    }
                    let ghost pe = polygon.interiors@;
                    polygon = polygon.with_interior(lv);
                    proof {
                        assert(polys_view(pe.push(lv)) =~= polys_view(pe).push(lv@));
                        assert(ints_l.take(di as int + 1) =~= ints_l.take(di as int).push(
                            ints_l[di as int],
                        ));
                    }
                    di = di + 1;
                }
                proof {
                    assert(ints_l.take(ni as int) =~= ints_l);
                }
                let triples = crate::delaunay::triangulate_points(&approx.points);
                let ghost spec_triples = crate::delaunay::delaunay_triples(locals);
                let nt = triples.len();
                let mut m: usize = 0;
                proof {
                    assert(spec_triples.take(0) =~= Seq::<(int, int, int)>::empty());
                    assert(emit_mesh(
                        kept_triples(spec_triples.take(0), locals, exts_l, ints_l),
                        pts_spec,
                        brep.color,
                    ) =~= Seq::<(Triangle3, Color)>::empty());
                    assert(mesh@ =~= triangulate_spec(faces@.take(f as int)) + emit_mesh(
                        kept_triples(spec_triples.take(0), locals, exts_l, ints_l),
                        pts_spec,
                        brep.color,
                    ));
                }
                while m < nt
                    invariant
                        0 <= m <= nt,
                        nt == triples@.len(),
                        nt == spec_triples.len(),
                        crate::delaunay::triples_match(triples@, spec_triples),
                        crate::delaunay::triples_below(triples@, pts_spec.len() as int),
                        approx_points_in_range(pts_spec),
                        pts_spec == approx.points@,
                        locals == locals_of(pts_spec),
                        polys_view(polygon.exteriors@) == exts_l,
                        polys_view(polygon.interiors@) == ints_l,
                        polys_in_range(exts_l),
                        polys_in_range(ints_l),
                        mesh@ == triangulate_spec(faces@.take(f as int)) + emit_mesh(
                            kept_triples(spec_triples.take(m as int), locals, exts_l, ints_l),
                            pts_spec,
                            brep.color,
                        ),
                    decreases nt - m,
                {
                    let t = triples[m];
                    let pa = approx.points[t.0].local();
                    let pb = approx.points[t.1].local();
                    let pc = approx.points[t.2].local();
                    proof {
                        assert(spec_triples[m as int] == (t.0 as int, t.1 as int, t.2 as int));
                        assert(pa == locals[t.0 as int]);
                        assert(pb == locals[t.1 as int]);
                        assert(pc == locals[t.2 as int]);
                        assert(pt2_in_range(pa) && pt2_in_range(pb) && pt2_in_range(pc));
                    }
                    let keep = polygon.contains_triangle(pa, pb, pc, debug_info);
                    if keep {
                        let ta = approx.points[t.0].canonical();
                        let tb = approx.points[t.1].canonical();
                        let tc = approx.points[t.2].canonical();
                        mesh.push_triangle(Triangle3 { a: ta, b: tb, c: tc }, brep.color);
                    }
                    proof {
                        assert(spec_triples.take(m as int + 1).drop_last() =~= spec_triples.take(
                            m as int,
                        ));
                        assert(spec_triples.take(m as int + 1).last() == spec_triples[m as int]);
                        let kept_now = kept_triples(
                            spec_triples.take(m as int + 1),
                            locals,
                            exts_l,
                            ints_l,
                        );
                        let kept_before = kept_triples(
                            spec_triples.take(m as int),
                            locals,
                            exts_l,
                            ints_l,
                        );
                        if keep {
                            assert(kept_now =~= kept_before.push(spec_triples[m as int]));
                            assert(emit_mesh(kept_now, pts_spec, brep.color) =~= emit_mesh(
                                kept_before,
                                pts_spec,
                                brep.color,
                            ).push(
                                (
                                    Triangle3 {
                                        a: pts_spec[t.0 as int].canonical_form,
                                        b: pts_spec[t.1 as int].canonical_form,
                                        c: pts_spec[t.2 as int].canonical_form,
                                    },
                                    brep.color,
                                ),
                            ));
                        } else {
                            assert(kept_now =~= kept_before);
                        }
                    }
                    m = m + 1;
                }
                proof {
                    assert(spec_triples.take(nt as int) =~= spec_triples);
                    assert(pts_spec == face_points_spec(ext_views, int_views));
                    assert(face_mesh_of(faces@[f as int]) == emit_mesh(
                        kept_triples(spec_triples, locals, exts_l, ints_l),
                        pts_spec,
                        brep.color,
                    ));
                }
            },
            Face::Triangles(ts) => {
                let nt = ts.len();
                let mut m: usize = 0;
                while m < nt
                    invariant
                        0 <= m <= nt,
                        nt == ts@.len(),
                        mesh@ == triangulate_spec(faces@.take(f as int)) + ts@.take(m as int),
                    decreases nt - m,
                {
                    let t = ts[m];
                    mesh.push_triangle(t.0, t.1);
                    proof {
                        assert(ts@.take(m as int + 1) =~= ts@.take(m as int).push(ts@[m as int]));
                        assert(triangulate_spec(faces@.take(f as int)) + ts@.take(m as int + 1)
                            =~= (triangulate_spec(faces@.take(f as int)) + ts@.take(
                            m as int,
                        )).push(ts@[m as int]));
                    }
                    m = m + 1;
                }
                proof {
                    assert(ts@.take(nt as int) =~= ts@);
                }
            },
        }
        proof {
            assert(faces@.take(f as int + 1).drop_last() =~= faces@.take(f as int));
            assert(faces@.take(f as int + 1).last() == faces@[f as int]);
        }
        f = f + 1;
    }
    proof {
        assert(faces@.take(nf as int) =~= faces@);
    }
    mesh
}

/// Every kept triple passes the containment filter: its centroid lies
/// inside some exterior boundary and inside no interior boundary.
pub proof fn lemma_kept_triples_pass(
    ts: Seq<(int, int, int)>,
    locals: Seq<Point2>,
    exts: Seq<Seq<Point2>>,
    ints: Seq<Seq<Point2>>,
    m: int,
)
    requires
        0 <= m < kept_triples(ts, locals, exts, ints).len(),
    ensures
        ts.contains(kept_triples(ts, locals, exts, ints)[m]),
        triangle_kept(
            exts,
            ints,
            locals[kept_triples(ts, locals, exts, ints)[m].0],
            locals[kept_triples(ts, locals, exts, ints)[m].1],
            locals[kept_triples(ts, locals, exts, ints)[m].2],
        ),
    decreases ts.len(),
{
    let kept = kept_triples(ts, locals, exts, ints);
    let rest = kept_triples(ts.drop_last(), locals, exts, ints);
    if m < rest.len() {
        lemma_kept_triples_pass(ts.drop_last(), locals, exts, ints, m);
        assert(kept[m] == rest[m]);
        let i = choose|i: int| 0 <= i < ts.drop_last().len() && ts.drop_last()[i] == rest[m];
        assert(ts[i] == rest[m]);
    } else {
        assert(kept[m] == ts.last());
        assert(ts[ts.len() - 1] == ts.last());
    }
}

/// No triangle of a face's mesh has its centroid inside a hole: every
/// emitted triangle stems from a kept triple, whose centroid the
/// containment filter found inside an exterior boundary and inside no
/// interior boundary — in particular inside no hole.
pub proof fn lemma_no_centroid_in_hole(
    exts: Seq<Seq<Edge>>,
    ints: Seq<Seq<Edge>>,
    color: Color,
    m: int,
)
    requires
        0 <= m < face_mesh_spec(exts, ints, color).len(),
    ensures
        ({
            let pts = face_points_spec(exts, ints);
            let locals = locals_of(pts);
            let kept = kept_triples(
                crate::delaunay::delaunay_triples(locals),
                locals,
                cycles_locals(exts),
                cycles_locals(ints),
            );
            &&& m < kept.len()
            &&& triangle_kept(
                cycles_locals(exts),
                cycles_locals(ints),
                locals[kept[m].0],
                locals[kept[m].1],
                locals[kept[m].2],
            )
            &&& !any_contains(
                cycles_locals(ints),
                locals[kept[m].0].u + locals[kept[m].1].u + locals[kept[m].2].u,
                locals[kept[m].0].v + locals[kept[m].1].v + locals[kept[m].2].v,
            )
            &&& face_mesh_spec(exts, ints, color)[m] == (
                Triangle3 {
                    a: pts[kept[m].0].canonical_form,
                    b: pts[kept[m].1].canonical_form,
                    c: pts[kept[m].2].canonical_form,
                },
                color,
            )
        }),
{
    let pts = face_points_spec(exts, ints);
    let locals = locals_of(pts);
    let kept = kept_triples(
        crate::delaunay::delaunay_triples(locals),
        locals,
        cycles_locals(exts),
        cycles_locals(ints),
    );
    lemma_kept_triples_pass(
        crate::delaunay::delaunay_triples(locals),
        locals,
        cycles_locals(exts),
        cycles_locals(ints),
        m,
    );
}

} // verus!
