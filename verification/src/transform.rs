//! Applying affine transforms to whole face graphs.
//!
//! A transform maps every ambient-space datum of a face — surface, curve
//! canonical forms, vertex global forms, triangle corners — while leaving
//! every local (parameter-space) datum untouched: local coordinates are
//! invariant under a map of the ambient space. Because triangulation makes
//! all its decisions in local coordinates, transforming and triangulating
//! commute.

use vstd::prelude::*;

use crate::math::{
    pt3_in_range, Color, Point3, Triangle3, Vector3, COORD_LIMIT, TRANSFORM_LIMIT,
};
use crate::objects::{
    cycles_view, edge_wf, face_wf, vec3_in_direction_range, Curve, Cycle, Edge, Face, FaceBRep,
    FaceView, GlobalVertex, Local, Surface, Vertex, DIRECTION_LIMIT,
};

verus! {

/// An affine map of ambient space: a linear part given by rows, and a
/// translation. The image of a point `p` is `L(p) + translation`; the
/// image of a direction is `L(direction)`.
#[derive(Clone, Copy, PartialEq, Eq, Structural, Debug)]
pub struct Transform {
    /// The row of the linear part producing the x coordinate.
    pub linear_x: Vector3,
    /// The row of the linear part producing the y coordinate.
    pub linear_y: Vector3,
    /// The row of the linear part producing the z coordinate.
    pub linear_z: Vector3,
    /// The translation applied after the linear part.
    pub translation: Vector3,
}

impl Transform {
    /// The identity transform.
    pub fn identity() -> (r: Transform)
        ensures
            r == identity_spec(),
    {
        Transform {
            linear_x: Vector3 { x: 1, y: 0, z: 0 },
            linear_y: Vector3 { x: 0, y: 1, z: 0 },
            linear_z: Vector3 { x: 0, y: 0, z: 1 },
            translation: Vector3 { x: 0, y: 0, z: 0 },
        }
    }

    /// A pure translation.
    pub fn translation(path: Vector3) -> (r: Transform)
        ensures
            r.linear_x == identity_spec().linear_x,
            r.linear_y == identity_spec().linear_y,
            r.linear_z == identity_spec().linear_z,
            r.translation == path,
    {
        Transform {
            linear_x: Vector3 { x: 1, y: 0, z: 0 },
            linear_y: Vector3 { x: 0, y: 1, z: 0 },
            linear_z: Vector3 { x: 0, y: 0, z: 1 },
            translation: path,
        }
    }
}

pub open spec fn identity_spec() -> Transform {
    Transform {
        linear_x: Vector3 { x: 1, y: 0, z: 0 },
        linear_y: Vector3 { x: 0, y: 1, z: 0 },
        linear_z: Vector3 { x: 0, y: 0, z: 1 },
        translation: Vector3 { x: 0, y: 0, z: 0 },
    }
}

pub open spec fn transform_in_range(t: Transform) -> bool {
    &&& -TRANSFORM_LIMIT <= t.linear_x.x <= TRANSFORM_LIMIT
    &&& -TRANSFORM_LIMIT <= t.linear_x.y <= TRANSFORM_LIMIT
    &&& -TRANSFORM_LIMIT <= t.linear_x.z <= TRANSFORM_LIMIT
    &&& -TRANSFORM_LIMIT <= t.linear_y.x <= TRANSFORM_LIMIT
    &&& -TRANSFORM_LIMIT <= t.linear_y.y <= TRANSFORM_LIMIT
    &&& -TRANSFORM_LIMIT <= t.linear_y.z <= TRANSFORM_LIMIT
    &&& -TRANSFORM_LIMIT <= t.linear_z.x <= TRANSFORM_LIMIT
    &&& -TRANSFORM_LIMIT <= t.linear_z.y <= TRANSFORM_LIMIT
    &&& -TRANSFORM_LIMIT <= t.linear_z.z <= TRANSFORM_LIMIT
    &&& -TRANSFORM_LIMIT <= t.translation.x <= TRANSFORM_LIMIT
    &&& -TRANSFORM_LIMIT <= t.translation.y <= TRANSFORM_LIMIT
    &&& -TRANSFORM_LIMIT <= t.translation.z <= TRANSFORM_LIMIT
}

/// The x coordinate of the image of `p`, exactly.
pub open spec fn tp_x(t: Transform, p: Point3) -> int {
    t.linear_x.x * p.x + t.linear_x.y * p.y + t.linear_x.z * p.z + t.translation.x
}

pub open spec fn tp_y(t: Transform, p: Point3) -> int {
    t.linear_y.x * p.x + t.linear_y.y * p.y + t.linear_y.z * p.z + t.translation.y
}

pub open spec fn tp_z(t: Transform, p: Point3) -> int {
    t.linear_z.x * p.x + t.linear_z.y * p.y + t.linear_z.z * p.z + t.translation.z
}

/// The x component of the image of a direction, exactly.
pub open spec fn tv_x(t: Transform, v: Vector3) -> int {
    t.linear_x.x * v.x + t.linear_x.y * v.y + t.linear_x.z * v.z
}

pub open spec fn tv_y(t: Transform, v: Vector3) -> int {
    t.linear_y.x * v.x + t.linear_y.y * v.y + t.linear_y.z * v.z
}

pub open spec fn tv_z(t: Transform, v: Vector3) -> int {
    t.linear_z.x * v.x + t.linear_z.y * v.y + t.linear_z.z * v.z
}

/// Whether the image of the point stays within coordinate range.
pub open spec fn xform_pt_ok(t: Transform, p: Point3) -> bool {
    &&& -COORD_LIMIT <= tp_x(t, p) <= COORD_LIMIT
    &&& -COORD_LIMIT <= tp_y(t, p) <= COORD_LIMIT
    &&& -COORD_LIMIT <= tp_z(t, p) <= COORD_LIMIT
}

/// Whether the image of the direction stays within direction range.
pub open spec fn xform_vec_ok(t: Transform, v: Vector3) -> bool {
    &&& -DIRECTION_LIMIT <= tv_x(t, v) <= DIRECTION_LIMIT
    &&& -DIRECTION_LIMIT <= tv_y(t, v) <= DIRECTION_LIMIT
    &&& -DIRECTION_LIMIT <= tv_z(t, v) <= DIRECTION_LIMIT
}

pub open spec fn transform_point_spec(t: Transform, p: Point3) -> Point3 {
    Point3 { x: tp_x(t, p) as i64, y: tp_y(t, p) as i64, z: tp_z(t, p) as i64 }
}

pub open spec fn transform_vector_spec(t: Transform, v: Vector3) -> Vector3 {
    Vector3 { x: tv_x(t, v) as i64, y: tv_y(t, v) as i64, z: tv_z(t, v) as i64 }
}

impl Transform {
    /// The image of a point.
    pub fn transform_point(&self, p: &Point3) -> (r: Point3)
        requires
            transform_in_range(*self),
            pt3_in_range(*p),
            xform_pt_ok(*self, *p),
        ensures
            r == transform_point_spec(*self, *p),
    {
        let x = crate::math::mul_small(self.linear_x.x as i128, p.x as i128)
            + crate::math::mul_small(self.linear_x.y as i128, p.y as i128)
            + crate::math::mul_small(self.linear_x.z as i128, p.z as i128)
            + self.translation.x as i128;
        let y = crate::math::mul_small(self.linear_y.x as i128, p.x as i128)
            + crate::math::mul_small(self.linear_y.y as i128, p.y as i128)
            + crate::math::mul_small(self.linear_y.z as i128, p.z as i128)
            + self.translation.y as i128;
        let z = crate::math::mul_small(self.linear_z.x as i128, p.x as i128)
            + crate::math::mul_small(self.linear_z.y as i128, p.y as i128)
            + crate::math::mul_small(self.linear_z.z as i128, p.z as i128)
            + self.translation.z as i128;
        Point3 { x: x as i64, y: y as i64, z: z as i64 }
    }

    /// The image of a direction: the linear part alone.
    pub fn transform_vector(&self, v: &Vector3) -> (r: Vector3)
        requires
            transform_in_range(*self),
            vec3_in_direction_range(*v),
            xform_vec_ok(*self, *v),
        ensures
            r == transform_vector_spec(*self, *v),
    {
        let x = crate::math::mul_small(self.linear_x.x as i128, v.x as i128)
            + crate::math::mul_small(self.linear_x.y as i128, v.y as i128)
            + crate::math::mul_small(self.linear_x.z as i128, v.z as i128);
        let y = crate::math::mul_small(self.linear_y.x as i128, v.x as i128)
            + crate::math::mul_small(self.linear_y.y as i128, v.y as i128)
            + crate::math::mul_small(self.linear_y.z as i128, v.z as i128);
        let z = crate::math::mul_small(self.linear_z.x as i128, v.x as i128)
            + crate::math::mul_small(self.linear_z.y as i128, v.y as i128)
            + crate::math::mul_small(self.linear_z.z as i128, v.z as i128);
        Vector3 { x: x as i64, y: y as i64, z: z as i64 }
    }

    /// The image of a triangle: its corners mapped.
    pub fn transform_triangle(&self, tri: &Triangle3) -> (r: Triangle3)
        requires
            transform_in_range(*self),
            pt3_in_range(tri.a),
            pt3_in_range(tri.b),
            pt3_in_range(tri.c),
            xform_pt_ok(*self, tri.a),
            xform_pt_ok(*self, tri.b),
            xform_pt_ok(*self, tri.c),
        ensures
            r == transform_triangle_spec(*self, *tri),
    {
        Triangle3 {
            a: self.transform_point(&tri.a),
            b: self.transform_point(&tri.b),
            c: self.transform_point(&tri.c),
        }
    }
}

pub open spec fn transform_triangle_spec(t: Transform, tri: Triangle3) -> Triangle3 {
    Triangle3 {
        a: transform_point_spec(t, tri.a),
        b: transform_point_spec(t, tri.b),
        c: transform_point_spec(t, tri.c),
    }
}

pub open spec fn transform_surface_spec(t: Transform, s: Surface) -> Surface {
    Surface {
        origin: transform_point_spec(t, s.origin),
        u_axis: transform_vector_spec(t, s.u_axis),
        v_axis: transform_vector_spec(t, s.v_axis),
    }
}

pub open spec fn transform_vertex_spec(t: Transform, v: Vertex) -> Vertex {
    Vertex {
        position: v.position,
        global: GlobalVertex { position: transform_point_spec(t, v.global.position_spec()) },
    }
}

pub open spec fn transform_edge_spec(t: Transform, e: Edge) -> Edge {
    Edge {
        curve: Local {
            local_form: e.curve.local_form,
            canonical_form: Curve {
                origin: transform_point_spec(t, e.curve.canonical_form.origin),
                direction: transform_vector_spec(t, e.curve.canonical_form.direction),
            },
        },
        vertices: match e.vertices {
            None => None,
            Some(vs) => Some(
                crate::objects::VerticesOfEdge {
                    start: transform_vertex_spec(t, vs.start),
                    finish: transform_vertex_spec(t, vs.finish),
                },
            ),
        },
    }
}

pub open spec fn transform_cycle_spec(t: Transform, es: Seq<Edge>) -> Seq<Edge> {
    Seq::new(es.len(), |i: int| transform_edge_spec(t, es[i]))
}

pub open spec fn transform_cycles_spec(t: Transform, cs: Seq<Seq<Edge>>) -> Seq<Seq<Edge>> {
    Seq::new(cs.len(), |i: int| transform_cycle_spec(t, cs[i]))
}

pub open spec fn transform_face_view(t: Transform, fv: FaceView) -> FaceView {
    match fv {
        FaceView::Brep { surface, exteriors, interiors, color } => FaceView::Brep {
            surface: transform_surface_spec(t, surface),
            exteriors: transform_cycles_spec(t, exteriors),
            interiors: transform_cycles_spec(t, interiors),
            color,
        },
        FaceView::Triangles(ts) => FaceView::Triangles(
            Seq::new(ts.len(), |i: int| (transform_triangle_spec(t, ts[i].0), ts[i].1)),
        ),
    }
}

/// Whether every ambient datum of an edge maps into range under `t`.
pub open spec fn xform_edge_ok(t: Transform, e: Edge) -> bool {
    &&& xform_pt_ok(t, e.curve.canonical_form.origin)
    &&& xform_vec_ok(t, e.curve.canonical_form.direction)
    &&& match e.vertices {
        None => true,
        Some(vs) => xform_pt_ok(t, vs.start.global.position_spec()) && xform_pt_ok(
            t,
            vs.finish.global.position_spec(),
        ),
    }
}

pub open spec fn xform_cycle_ok(t: Transform, es: Seq<Edge>) -> bool {
    forall|i: int| 0 <= i < es.len() ==> xform_edge_ok(t, #[trigger] es[i])
}

pub open spec fn xform_cycles_ok(t: Transform, cs: Seq<Seq<Edge>>) -> bool {
    forall|i: int| 0 <= i < cs.len() ==> xform_cycle_ok(t, #[trigger] cs[i])
}

/// Whether every ambient datum of a face maps into range under `t`.
pub open spec fn xform_face_ok(t: Transform, f: Face) -> bool {
    match f {
        Face::Face(brep) => {
            &&& xform_pt_ok(t, brep.surface.origin)
            &&& xform_vec_ok(t, brep.surface.u_axis)
            &&& xform_vec_ok(t, brep.surface.v_axis)
            &&& xform_cycles_ok(t, cycles_view(brep.exteriors@))
            &&& xform_cycles_ok(t, cycles_view(brep.interiors@))
        },
        Face::Triangles(ts) => forall|i: int|
            0 <= i < ts@.len() ==> xform_pt_ok(t, (#[trigger] ts@[i]).0.a) && xform_pt_ok(
                t,
                ts@[i].0.b,
            ) && xform_pt_ok(t, ts@[i].0.c),
    }
}

/// The image of one vertex: the resolved global position is mapped into a
/// new global vertex, the curve-local position stays unchanged.
pub fn transform_vertex(vertex: &Vertex, transform: &Transform) -> (r: Vertex)
    requires
        transform_in_range(*transform),
        pt3_in_range(vertex.global.position_spec()),
        xform_pt_ok(*transform, vertex.global.position_spec()),
    ensures
        r == transform_vertex_spec(*transform, *vertex),
{
    let position = transform.transform_point(&vertex.global().position());
    let global = GlobalVertex::from_position(position);
    Vertex::new(vertex.position(), global)
}

/// The image of one edge.
fn transform_edge(edge: &Edge, transform: &Transform) -> (r: Edge)
    requires
        transform_in_range(*transform),
        edge_wf(*edge),
        xform_edge_ok(*transform, *edge),
    ensures
        r == transform_edge_spec(*transform, *edge),
{
    let curve_local = edge.curve.local();
    let canonical = edge.curve.canonical();
    let curve_canonical = Curve {
        origin: transform.transform_point(&canonical.origin),
        direction: transform.transform_vector(&canonical.direction),
    };
    let vertices = match edge.vertices {
        None => None,
        Some(vs) => Some(
            crate::objects::VerticesOfEdge {
                start: transform_vertex(&vs.start, transform),
                finish: transform_vertex(&vs.finish, transform),
            },
        ),
    };
    Edge { curve: Local::new(curve_local, curve_canonical), vertices }
}

/// The image of a list of cycles: every edge's canonical data mapped,
/// every local datum kept.
pub fn transform_cycles(cycles: &Vec<Cycle>, transform: &Transform) -> (r: Vec<Cycle>)
    requires
        transform_in_range(*transform),
        crate::objects::cycles_wf(cycles@),
        xform_cycles_ok(*transform, cycles_view(cycles@)),
    ensures
        cycles_view(r@) == transform_cycles_spec(*transform, cycles_view(cycles@)),
{
    let mut out: Vec<Cycle> = Vec::new();
    let n = cycles.len();
    let mut ci: usize = 0;
    while ci < n
        invariant
            0 <= ci <= n,
            n == cycles@.len(),
            out@.len() == ci,
            forall|j: int|
                0 <= j < ci ==> (#[trigger] out@[j])@ == transform_cycle_spec(
                    *transform,
                    cycles_view(cycles@)[j],
                ),
        decreases n - ci,
    {
        let cycle = &cycles[ci];
        proof {
            assert(crate::objects::cycle_wf(cycles@[ci as int]));
            assert(xform_cycle_ok(*transform, cycles_view(cycles@)[ci as int]));
            assert(cycles_view(cycles@)[ci as int] == cycles@[ci as int]@);
        }
        let ne = cycle.edges.len();
        let mut edges: Vec<Edge> = Vec::new();
        let mut ei: usize = 0;
        while ei < ne
            invariant
                0 <= ei <= ne,
                ne == cycle.edges@.len(),
                edges@.len() == ei,
                cycle == &cycles[ci as int],
                0 <= ci < n,
                n == cycles@.len(),
                forall|j: int|
                    0 <= j < ei ==> #[trigger] edges@[j] == transform_edge_spec(
                        *transform,
                        cycle.edges@[j],
                    ),
            decreases ne - ei,
        {
            proof {
                assert(edge_wf(cycle.edges@[ei as int]));
                assert(xform_edge_ok(*transform, cycles@[ci as int]@[ei as int]));
            }
            let e = transform_edge(&cycle.edges[ei], transform);
            edges.push(e);
            ei = ei + 1;
        }
        let new_cycle = Cycle { edges };
        proof {
            assert(new_cycle@ =~= transform_cycle_spec(*transform, cycles_view(cycles@)[ci as int]));
        }
        out.push(new_cycle);
        ci = ci + 1;
    }
    proof {
        assert(cycles_view(out@) =~= transform_cycles_spec(*transform, cycles_view(cycles@)));
    }
    out
}

/// The image of one face: surface, cycles and triangles mapped, local
/// data and color kept.
pub fn transform_face(face: &Face, transform: &Transform) -> (r: Face)
    requires
        transform_in_range(*transform),
        face_wf(*face),
        xform_face_ok(*transform, *face),
    ensures
        r@ == transform_face_view(*transform, face@),
{
    match face {
        Face::Face(brep) => {
            let surface = Surface {
                origin: transform.transform_point(&brep.surface.origin),
                u_axis: transform.transform_vector(&brep.surface.u_axis),
                v_axis: transform.transform_vector(&brep.surface.v_axis),
            };
            let exteriors = transform_cycles(&brep.exteriors, transform);
            let interiors = transform_cycles(&brep.interiors, transform);
            let r = Face::Face(
                FaceBRep { surface, exteriors, interiors, color: brep.color },
            );
            proof {
                assert(r@ =~~= transform_face_view(*transform, face@));
            }
            r
        },
        Face::Triangles(ts) => {
            let mut target: Vec<(Triangle3, Color)> = Vec::new();
            let n = ts.len();
            let mut i: usize = 0;
            while i < n
                invariant
                    0 <= i <= n,
                    n == ts@.len(),
                    target@.len() == i,
                    forall|j: int|
                        0 <= j < i ==> #[trigger] target@[j] == (
                        transform_triangle_spec(*transform, ts@[j].0),
                        ts@[j].1,
                        ),
                decreases n - i,
            {
                let entry = ts[i];
                let tri = transform.transform_triangle(&entry.0);
                target.push((tri, entry.1));
                i = i + 1;
            }
            let r = Face::Triangles(target);
            proof {
                assert(r@ =~~= transform_face_view(*transform, face@));
            }
            r
        },
    }
}

/// Transforms every face of a shape in place.
pub fn transform_shape(faces: &mut Vec<Face>, transform: &Transform)
    requires
        transform_in_range(*transform),
        crate::objects::faces_wf(old(faces)@),
        forall|i: int|
            0 <= i < old(faces)@.len() ==> xform_face_ok(*transform, #[trigger] old(faces)@[i]),
    ensures
        final(faces)@.len() == old(faces)@.len(),
        forall|i: int|
            0 <= i < old(faces)@.len() ==> (#[trigger] final(faces)@[i])@ == transform_face_view(
                *transform,
                old(faces)@[i]@,
            ),
{
    let n = faces.len();
    let mut i: usize = 0;
    while i < n
        invariant
            0 <= i <= n,
            n == faces@.len(),
            faces@.len() == old(faces)@.len(),
            forall|j: int| i <= j < n ==> #[trigger] faces@[j] == old(faces)@[j],
            forall|j: int|
                0 <= j < i ==> (#[trigger] faces@[j])@ == transform_face_view(
                    *transform,
                    old(faces)@[j]@,
                ),
        decreases n - i,
    {
        proof {
            assert(faces@[i as int] == old(faces)@[i as int]);
            assert(crate::objects::face_wf(old(faces)@[i as int]));
        }
        let new_face = transform_face(&faces[i], transform);
        faces.set(i, new_face);
        i = i + 1;
    }
}

/// The image of a boundary point: the local form kept, the ambient form
/// mapped.
pub open spec fn transform_approx_point(t: Transform, p: crate::approx::ApproxPoint) -> crate::approx::ApproxPoint {
    Local {
        local_form: p.local_form,
        canonical_form: transform_point_spec(t, p.canonical_form),
    }
}

/// The image of a boundary point sequence.
pub open spec fn transform_approx_points(t: Transform, ps: Seq<crate::approx::ApproxPoint>) -> Seq<crate::approx::ApproxPoint> {
    Seq::new(ps.len(), |i: int| transform_approx_point(t, ps[i]))
}

/// The image of a mesh: every triangle's corners mapped, colors kept.
pub open spec fn transform_mesh_spec(t: Transform, m: Seq<(Triangle3, Color)>) -> Seq<(Triangle3, Color)> {
    Seq::new(m.len(), |i: int| (transform_triangle_spec(t, m[i].0), m[i].1))
}

/// Approximating a transformed edge gives the transformed approximation:
/// the local forms are untouched, the ambient forms are mapped.
proof fn lemma_edge_approx_commutes(t: Transform, e: Edge)
    ensures
        crate::approx::edge_approx_spec(transform_edge_spec(t, e)) == transform_approx_points(
            t,
            crate::approx::edge_approx_spec(e),
        ),
{
    match e.vertices {
        None => {
            assert(crate::approx::edge_approx_spec(transform_edge_spec(t, e))
                =~= transform_approx_points(t, crate::approx::edge_approx_spec(e)));
        },
        Some(vs) => {
            assert(crate::approx::edge_approx_spec(transform_edge_spec(t, e))
                =~= transform_approx_points(t, crate::approx::edge_approx_spec(e)));
        },
    }
}

/// Approximating a transformed cycle gives the transformed approximation.
proof fn lemma_cycle_approx_commutes(t: Transform, es: Seq<Edge>)
    ensures
        crate::approx::cycle_approx_spec(transform_cycle_spec(t, es)) == transform_approx_points(
            t,
            crate::approx::cycle_approx_spec(es),
        ),
    decreases es.len(),
{
    let tes = transform_cycle_spec(t, es);
    if es.len() == 0 {
        assert(crate::approx::cycle_approx_spec(tes) =~= transform_approx_points(
            t,
            crate::approx::cycle_approx_spec(es),
        ));
    } else {
        lemma_cycle_approx_commutes(t, es.drop_last());
        lemma_edge_approx_commutes(t, es.last());
        assert(tes.drop_last() =~= transform_cycle_spec(t, es.drop_last()));
        assert(tes.last() == transform_edge_spec(t, es.last()));
        assert(crate::approx::cycle_approx_spec(tes) == crate::approx::cycle_approx_spec(
            tes.drop_last(),
        ) + crate::approx::edge_approx_spec(tes.last()));
        assert(crate::approx::cycle_approx_spec(tes) =~= transform_approx_points(
            t,
            crate::approx::cycle_approx_spec(es),
        ));
    }
}

/// Collecting the points of transformed cycles gives the transformed
/// points.
proof fn lemma_cycles_points_commute(t: Transform, cs: Seq<Seq<Edge>>)
    ensures
        crate::approx::cycles_points(transform_cycles_spec(t, cs)) == transform_approx_points(
            t,
            crate::approx::cycles_points(cs),
        ),
    decreases cs.len(),
{
    let tcs = transform_cycles_spec(t, cs);
    if cs.len() == 0 {
        assert(crate::approx::cycles_points(tcs) =~= transform_approx_points(
            t,
            crate::approx::cycles_points(cs),
        ));
    } else {
        lemma_cycles_points_commute(t, cs.drop_last());
        lemma_cycle_approx_commutes(t, cs.last());
        assert(tcs.drop_last() =~= transform_cycles_spec(t, cs.drop_last()));
        assert(tcs.last() == transform_cycle_spec(t, cs.last()));
        assert(crate::approx::cycles_points(tcs) == crate::approx::cycles_points(tcs.drop_last())
            + crate::approx::cycle_approx_spec(tcs.last()));
        assert(crate::approx::cycles_points(tcs) =~= transform_approx_points(
            t,
            crate::approx::cycles_points(cs),
        ));
    }
}

/// Deduplication by local position commutes with the transform, which
/// leaves every local position unchanged.
proof fn lemma_dedup_commutes(
    t: Transform,
    acc: Seq<crate::approx::ApproxPoint>,
    rest: Seq<crate::approx::ApproxPoint>,
)
    ensures
        crate::approx::dedup_by_local(
            transform_approx_points(t, acc),
            transform_approx_points(t, rest),
        ) == transform_approx_points(t, crate::approx::dedup_by_local(acc, rest)),
    decreases rest.len(),
{
    let tacc = transform_approx_points(t, acc);
    let trest = transform_approx_points(t, rest);
    if rest.len() == 0 {
        assert(crate::approx::dedup_by_local(tacc, trest) == tacc);
    } else {
        assert(trest[0] == transform_approx_point(t, rest[0]));
        assert(crate::approx::contains_local(tacc, trest[0]) == crate::approx::contains_local(
            acc,
            rest[0],
        )) by {
            if crate::approx::contains_local(acc, rest[0]) {
                let i = choose|i: int|
                    0 <= i < acc.len() && acc[i].local_form == rest[0].local_form;
                assert(tacc[i].local_form == trest[0].local_form);
            }
            if crate::approx::contains_local(tacc, trest[0]) {
                let i = choose|i: int|
                    0 <= i < tacc.len() && tacc[i].local_form == trest[0].local_form;
                assert(acc[i].local_form == rest[0].local_form);
            }
        }
        let acc2 = if crate::approx::contains_local(acc, rest[0]) {
            acc
        } else {
            acc.push(rest[0])
        };
        assert(transform_approx_points(t, acc2) =~= if crate::approx::contains_local(
            tacc,
            trest[0],
        ) {
            tacc
        } else {
            tacc.push(trest[0])
        });
        lemma_dedup_commutes(t, acc2, rest.drop_first());
        assert(transform_approx_points(t, rest.drop_first()) =~= trest.drop_first());
    }
}

/// The deduplicated union of a transformed face's boundary points is the
/// transformed union of the untransformed face's boundary points.
proof fn lemma_face_points_commute(t: Transform, exts: Seq<Seq<Edge>>, ints: Seq<Seq<Edge>>)
    ensures
        crate::approx::face_points_spec(
            transform_cycles_spec(t, exts),
            transform_cycles_spec(t, ints),
        ) == transform_approx_points(t, crate::approx::face_points_spec(exts, ints)),
{
    lemma_cycles_points_commute(t, exts);
    lemma_cycles_points_commute(t, ints);
    let all = crate::approx::cycles_points(exts) + crate::approx::cycles_points(ints);
    assert(crate::approx::cycles_points(transform_cycles_spec(t, exts))
        + crate::approx::cycles_points(transform_cycles_spec(t, ints))
        =~= transform_approx_points(t, all));
    assert(transform_approx_points(t, Seq::<crate::approx::ApproxPoint>::empty())
        =~= Seq::<crate::approx::ApproxPoint>::empty());
    lemma_dedup_commutes(t, Seq::empty(), all);
}

/// The local forms of transformed boundary points are the untransformed
/// local forms.
proof fn lemma_locals_invariant(t: Transform, ps: Seq<crate::approx::ApproxPoint>)
    ensures
        crate::approx::locals_of(transform_approx_points(t, ps)) == crate::approx::locals_of(ps),
{
    assert(crate::approx::locals_of(transform_approx_points(t, ps))
        =~= crate::approx::locals_of(ps));
}

/// The local polylines of transformed cycles are the untransformed
/// local polylines.
proof fn lemma_cycles_locals_invariant(t: Transform, cs: Seq<Seq<Edge>>)
    ensures
        crate::triangulate::cycles_locals(transform_cycles_spec(t, cs))
            == crate::triangulate::cycles_locals(cs),
{
    let tcs = transform_cycles_spec(t, cs);
    assert forall|i: int|
        0 <= i < cs.len() implies crate::triangulate::cycles_locals(tcs)[i]
        == crate::triangulate::cycles_locals(cs)[i] by {
        lemma_cycle_approx_commutes(t, cs[i]);
        lemma_locals_invariant(t, crate::approx::cycle_approx_spec(cs[i]));
        assert(tcs[i] == transform_cycle_spec(t, cs[i]));
    }
    assert(crate::triangulate::cycles_locals(tcs) =~= crate::triangulate::cycles_locals(cs));
}

/// Transforming a face and then triangulating it yields exactly the
/// transformed mesh of the untransformed face: triangulation decides
/// everything in local coordinates, which the transform leaves untouched,
/// and only maps the emitted ambient corners.
pub proof fn lemma_transform_triangulate_commute(t: Transform, fv: FaceView)
    ensures
        crate::triangulate::face_mesh_view(transform_face_view(t, fv)) == transform_mesh_spec(
            t,
            crate::triangulate::face_mesh_view(fv),
        ),
{
    match fv {
        FaceView::Triangles(ts) => {
            assert(crate::triangulate::face_mesh_view(transform_face_view(t, fv))
                =~= transform_mesh_spec(t, crate::triangulate::face_mesh_view(fv)));
        },
        FaceView::Brep { surface, exteriors, interiors, color } => {
            let texts = transform_cycles_spec(t, exteriors);
            let tints = transform_cycles_spec(t, interiors);
            let pts = crate::approx::face_points_spec(exteriors, interiors);
            let locals = crate::approx::locals_of(pts);
            lemma_face_points_commute(t, exteriors, interiors);
            lemma_locals_invariant(t, pts);
            lemma_cycles_locals_invariant(t, exteriors);
            lemma_cycles_locals_invariant(t, interiors);
            let triples = crate::delaunay::delaunay_triples(locals);
            let kept = crate::triangulate::kept_triples(
                triples,
                locals,
                crate::triangulate::cycles_locals(exteriors),
                crate::triangulate::cycles_locals(interiors),
            );
            crate::delaunay::lemma_delaunay_triples_bounds(locals);
            lemma_kept_bounds(triples, locals, crate::triangulate::cycles_locals(exteriors), crate::triangulate::cycles_locals(interiors));
            let tpts = transform_approx_points(t, pts);
            assert(crate::triangulate::face_mesh_view(transform_face_view(t, fv))
                == crate::triangulate::emit_mesh(kept, tpts, color));
            assert forall|m: int|
                0 <= m < kept.len() implies crate::triangulate::emit_mesh(kept, tpts, color)[m]
                == transform_mesh_spec(
                t,
                crate::triangulate::emit_mesh(kept, pts, color),
            )[m] by {
                assert(0 <= kept[m].0 < pts.len());
                assert(0 <= kept[m].1 < pts.len());
                assert(0 <= kept[m].2 < pts.len());
                assert(tpts[kept[m].0].canonical_form == transform_point_spec(
                    t,
                    pts[kept[m].0].canonical_form,
                ));
                assert(tpts[kept[m].1].canonical_form == transform_point_spec(
                    t,
                    pts[kept[m].1].canonical_form,
                ));
                assert(tpts[kept[m].2].canonical_form == transform_point_spec(
                    t,
                    pts[kept[m].2].canonical_form,
                ));
            }
            assert(crate::triangulate::emit_mesh(kept, tpts, color) =~= transform_mesh_spec(
                t,
                crate::triangulate::emit_mesh(kept, pts, color),
            ));
        },
    }
}

/// Every kept triple's indices are within the point count, because every
/// Delaunay triple's are.
proof fn lemma_kept_bounds(
    ts: Seq<(int, int, int)>,
    locals: Seq<crate::math::Point2>,
    exts: Seq<Seq<crate::math::Point2>>,
    ints: Seq<Seq<crate::math::Point2>>,
)
    requires
        forall|m: int|
            0 <= m < ts.len() ==> 0 <= (#[trigger] ts[m]).0 < locals.len() && 0 <= ts[m].1
                < locals.len() && 0 <= ts[m].2 < locals.len(),
    ensures
        forall|m: int|
            0 <= m < crate::triangulate::kept_triples(ts, locals, exts, ints).len() ==> 0 <= (
            #[trigger] crate::triangulate::kept_triples(ts, locals, exts, ints)[m]).0
                < locals.len() && 0 <= crate::triangulate::kept_triples(ts, locals, exts, ints)[m].1
                < locals.len() && 0 <= crate::triangulate::kept_triples(ts, locals, exts, ints)[m].2
                < locals.len(),
{
    assert forall|m: int|
        0 <= m < crate::triangulate::kept_triples(ts, locals, exts, ints).len() implies 0 <= (
        #[trigger] crate::triangulate::kept_triples(ts, locals, exts, ints)[m]).0 < locals.len()
        && 0 <= crate::triangulate::kept_triples(ts, locals, exts, ints)[m].1 < locals.len() && 0
        <= crate::triangulate::kept_triples(ts, locals, exts, ints)[m].2 < locals.len() by {
        crate::triangulate::lemma_kept_triples_pass(ts, locals, exts, ints, m);
        let tr = crate::triangulate::kept_triples(ts, locals, exts, ints)[m];
        let i = choose|i: int| 0 <= i < ts.len() && ts[i] == tr;
    }
}

} // verus!
