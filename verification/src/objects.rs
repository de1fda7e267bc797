//! The topological object model: curves, surfaces, vertices, edges, cycles
//! and faces, together with the builders that construct them from points.
//!
//! Objects reference the geometry they are built on directly, as values:
//! every algorithm in this kernel produces new object graphs instead of
//! mutating existing ones, so sharing through an arena is not needed for
//! correctness, only for deduplication, which the traversal layer performs
//! by value comparison.

use vstd::prelude::*;

use crate::math::{
    Color, Point2, Point3, Triangle3, Vector2, Vector3, pt2_in_range, pt3_in_range, COORD_LIMIT,
    PARAM_LIMIT,
};

verus! {

/// Largest magnitude a curve direction or surface axis component may have.
pub const DIRECTION_LIMIT: i64 = 4_000_000;

/// A value in a local (parameter-space) form paired with its canonical
/// ambient form.
///
/// Construction takes both values and does not derive one from the other;
/// callers are responsible for their consistency at creation time. The two
/// forms can then be read independently, so reparametrizing an entity (for
/// example reversing a curve) never has to re-evaluate the ambient embedding.
#[derive(Clone, Copy, PartialEq, Eq, Structural, Debug)]
pub struct Local<L, C> {
    /// The value in local (parameter-space) form.
    pub local_form: L,
    /// The value in canonical ambient form.
    pub canonical_form: C,
}

impl<L: Copy, C: Copy> Local<L, C> {
    /// Pair a local form with its canonical form.
    pub fn new(local_form: L, canonical_form: C) -> (r: Self)
        ensures
            r.local_spec() == local_form,
            r.canonical_spec() == canonical_form,
    {
        Local { local_form, canonical_form }
    }

    /// The local form.
    pub fn local(&self) -> (r: L)
        ensures
            r == self.local_spec(),
    {
        self.local_form
    }

    /// The canonical form.
    pub fn canonical(&self) -> (r: C)
        ensures
            r == self.canonical_spec(),
    {
        self.canonical_form
    }

    /// The local form, in specifications.
    pub open spec fn local_spec(self) -> L {
        self.local_form
    }

    /// The canonical form, in specifications.
    pub open spec fn canonical_spec(self) -> C {
        self.canonical_form
    }
}

/// A line in a surface's 2-dimensional parameter space, given by an origin
/// and a direction. The point at parameter `t` is `origin + t * direction`.
#[derive(Clone, Copy, PartialEq, Eq, Structural, Debug)]
pub struct Curve2 {
    pub origin: Point2,
    pub direction: Vector2,
}

/// A line in ambient 3-dimensional space, given by an origin and a
/// direction. The point at parameter `t` is `origin + t * direction`.
#[derive(Clone, Copy, PartialEq, Eq, Structural, Debug)]
pub struct Curve {
    pub origin: Point3,
    pub direction: Vector3,
}

pub open spec fn vec2_in_direction_range(d: Vector2) -> bool {
    -DIRECTION_LIMIT <= d.u <= DIRECTION_LIMIT && -DIRECTION_LIMIT <= d.v <= DIRECTION_LIMIT
}

pub open spec fn vec3_in_direction_range(d: Vector3) -> bool {
    -DIRECTION_LIMIT <= d.x <= DIRECTION_LIMIT && -DIRECTION_LIMIT <= d.y <= DIRECTION_LIMIT
        && -DIRECTION_LIMIT <= d.z <= DIRECTION_LIMIT
}

/// The `u` component of `c` evaluated at parameter `t`, as an unbounded
/// integer.
pub open spec fn curve2_at_u(c: Curve2, t: int) -> int {
    c.origin.u + t * c.direction.u
}

/// The `v` component of `c` evaluated at parameter `t`.
pub open spec fn curve2_at_v(c: Curve2, t: int) -> int {
    c.origin.v + t * c.direction.v
}

/// The reverse of a local curve: same origin, opposite direction.
pub open spec fn curve2_reverse_spec(c: Curve2) -> Curve2 {
    Curve2 {
        origin: c.origin,
        direction: Vector2 { u: -c.direction.u as i64, v: -c.direction.v as i64 },
    }
}

/// The reverse of a canonical curve: same origin, opposite direction.
pub open spec fn curve_reverse_spec(c: Curve) -> Curve {
    Curve {
        origin: c.origin,
        direction: Vector3 {
            x: -c.direction.x as i64,
            y: -c.direction.y as i64,
            z: -c.direction.z as i64,
        },
    }
}

impl Curve2 {
    /// The point on the curve at parameter `t`.
    pub fn point_at(&self, t: i64) -> (r: Point2)
        requires
            -PARAM_LIMIT <= t <= PARAM_LIMIT,
            vec2_in_direction_range(self.direction),
            pt2_in_range(self.origin),
        ensures
            r.u == curve2_at_u(*self, t as int),
            r.v == curve2_at_v(*self, t as int),
    {
        proof {
            assert(-0x1000_0000_0000_0000 <= t * self.direction.u <= 0x1000_0000_0000_0000
                && -0x1000_0000_0000_0000 <= t * self.direction.v
                <= 0x1000_0000_0000_0000) by (nonlinear_arith)
                requires
                    -PARAM_LIMIT <= t <= PARAM_LIMIT,
                    vec2_in_direction_range(self.direction),
            ;
        }
        let du = (t as i128) * (self.direction.u as i128);
        let dv = (t as i128) * (self.direction.v as i128);
        Point2 { u: (self.origin.u as i128 + du) as i64, v: (self.origin.v as i128 + dv) as i64 }
    }

    /// The same line parametrized in the opposite direction.
    pub fn reverse(&self) -> (r: Curve2)
        requires
            vec2_in_direction_range(self.direction),
        ensures
            r == curve2_reverse_spec(*self),
    {
        Curve2 {
            origin: self.origin,
            direction: Vector2 { u: -self.direction.u, v: -self.direction.v },
        }
    }
}

impl Curve {
    /// A curve along the ambient x axis.
    pub fn x_axis() -> (r: Curve)
        ensures
            r.origin == (Point3 { x: 0i64, y: 0i64, z: 0i64 }),
            r.direction == (Vector3 { x: 1i64, y: 0i64, z: 0i64 }),
    {
        Curve {
            origin: Point3 { x: 0, y: 0, z: 0 },
            direction: Vector3 { x: 1, y: 0, z: 0 },
        }
    }

    /// The same line parametrized in the opposite direction.
    pub fn reverse(&self) -> (r: Curve)
        requires
            vec3_in_direction_range(self.direction),
        ensures
            r == curve_reverse_spec(*self),
    {
        Curve {
            origin: self.origin,
            direction: Vector3 {
                x: -self.direction.x,
                y: -self.direction.y,
                z: -self.direction.z,
            },
        }
    }
}

/// A plane in ambient space with a 2-dimensional parameter space: the point
/// with surface coordinates `(u, v)` is `origin + u * u_axis + v * v_axis`.
#[derive(Clone, Copy, PartialEq, Eq, Structural, Debug)]
pub struct Surface {
    pub origin: Point3,
    pub u_axis: Vector3,
    pub v_axis: Vector3,
}

pub open spec fn surface_in_range(s: Surface) -> bool {
    pt3_in_range(s.origin) && vec3_in_direction_range(s.u_axis) && vec3_in_direction_range(
        s.v_axis,
    )
}

/// The x component of the ambient point for surface coordinates `(u, v)`.
pub open spec fn surface_at_x(s: Surface, u: int, v: int) -> int {
    s.origin.x + u * s.u_axis.x + v * s.v_axis.x
}

pub open spec fn surface_at_y(s: Surface, u: int, v: int) -> int {
    s.origin.y + u * s.u_axis.y + v * s.v_axis.y
}

pub open spec fn surface_at_z(s: Surface, u: int, v: int) -> int {
    s.origin.z + u * s.u_axis.z + v * s.v_axis.z
}

/// Whether the ambient point for surface coordinates `p` on `s` lies within
/// the coordinate range.
pub open spec fn surface_point_in_range(s: Surface, p: Point2) -> bool {
    -COORD_LIMIT <= surface_at_x(s, p.u as int, p.v as int) <= COORD_LIMIT
        && -COORD_LIMIT <= surface_at_y(s, p.u as int, p.v as int) <= COORD_LIMIT
        && -COORD_LIMIT <= surface_at_z(s, p.u as int, p.v as int) <= COORD_LIMIT
}

impl Surface {
    /// The xy plane: surface coordinates map to ambient `(u, v, 0)`.
    pub fn xy_plane() -> (r: Surface)
        ensures
            r == xy_plane_spec(),
    {
        Surface {
            origin: Point3 { x: 0, y: 0, z: 0 },
            u_axis: Vector3 { x: 1, y: 0, z: 0 },
            v_axis: Vector3 { x: 0, y: 1, z: 0 },
        }
    }

    /// The ambient point for the surface coordinates `p`.
    pub fn point_from_surface_coords(&self, p: Point2) -> (r: Point3)
        requires
            surface_in_range(*self),
            pt2_in_range(p),
        ensures
            r.x == surface_at_x(*self, p.u as int, p.v as int),
            r.y == surface_at_y(*self, p.u as int, p.v as int),
            r.z == surface_at_z(*self, p.u as int, p.v as int),
    {
        proof {
            assert(forall|a: int, b: int|
                -COORD_LIMIT <= a <= COORD_LIMIT && -DIRECTION_LIMIT <= b <= DIRECTION_LIMIT
                    ==> -0x1000_0000_0000_0000 <= #[trigger] (a * b)
                    <= 0x1000_0000_0000_0000) by (nonlinear_arith);
        }
        let x = self.origin.x as i128 + (p.u as i128) * (self.u_axis.x as i128) + (p.v as i128)
            * (self.v_axis.x as i128);
        let y = self.origin.y as i128 + (p.u as i128) * (self.u_axis.y as i128) + (p.v as i128)
            * (self.v_axis.y as i128);
        let z = self.origin.z as i128 + (p.u as i128) * (self.u_axis.z as i128) + (p.v as i128)
            * (self.v_axis.z as i128);
        Point3 { x: x as i64, y: y as i64, z: z as i64 }
    }
}

pub open spec fn xy_plane_spec() -> Surface {
    Surface {
        origin: Point3 { x: 0, y: 0, z: 0 },
        u_axis: Vector3 { x: 1, y: 0, z: 0 },
        v_axis: Vector3 { x: 0, y: 1, z: 0 },
    }
}

/// A canonical position in ambient space. Within a shape, global vertices
/// are deduplicated: two positions closer than the configured minimum
/// distance stand for the same vertex (see the validation layer).
#[derive(Clone, Copy, PartialEq, Eq, Structural, Debug)]
pub struct GlobalVertex {
    /// The canonical ambient position of the vertex.
    pub position: Point3,
}

impl GlobalVertex {
    /// A global vertex at `position`.
    pub fn from_position(position: Point3) -> (r: GlobalVertex)
        ensures
            r.position_spec() == position,
    {
        GlobalVertex { position }
    }

    /// The position of this vertex.
    pub fn position(&self) -> (r: Point3)
        ensures
            r == self.position_spec(),
    {
        self.position
    }

    /// The position, in specifications.
    pub open spec fn position_spec(self) -> Point3 {
        self.position
    }
}

/// A point on a curve: the curve-local parameter paired with the global
/// vertex it resolves to.
#[derive(Clone, Copy, PartialEq, Eq, Structural, Debug)]
pub struct Vertex {
    /// The vertex position in the local coordinates of the curve it sits on.
    pub position: i64,
    /// The global form of the vertex.
    pub global: GlobalVertex,
}

impl Vertex {
    /// A vertex at curve parameter `position` resolving to `global`.
    pub fn new(position: i64, global: GlobalVertex) -> (r: Vertex)
        ensures
            r.position == position,
            r.global == global,
    {
        Vertex { position, global }
    }

    /// The curve-local position of this vertex.
    pub fn position(&self) -> (r: i64)
        ensures
            r == self.position,
    {
        self.position
    }

    /// The global form of this vertex.
    pub fn global(&self) -> (r: GlobalVertex)
        ensures
            r == self.global,
    {
        self.global
    }

    /// The ambient position that the vertex resolves to.
    pub fn point(&self) -> (r: Point3)
        ensures
            r == self.global.position_spec(),
    {
        self.global.position()
    }
}

/// The ordered pair of vertices bounding an edge.
#[derive(Clone, Copy, PartialEq, Eq, Structural, Debug)]
pub struct VerticesOfEdge {
    /// The vertex the edge starts at.
    pub start: Vertex,
    /// The vertex the edge ends at.
    pub finish: Vertex,
}

impl VerticesOfEdge {
    /// The same pair in the opposite order, with each vertex's curve
    /// parameter negated, so that the pair stays consistent with the
    /// reversed curve: a point at parameter `t` of a curve sits at
    /// parameter `-t` of the reversed curve.
    pub fn reverse(&self) -> (r: VerticesOfEdge)
        requires
            -PARAM_LIMIT <= self.start.position <= PARAM_LIMIT,
            -PARAM_LIMIT <= self.finish.position <= PARAM_LIMIT,
        ensures
            r == vertices_reverse_spec(*self),
    {
        VerticesOfEdge {
            start: Vertex { position: -self.finish.position, global: self.finish.global },
            finish: Vertex { position: -self.start.position, global: self.start.global },
        }
    }
}

/// The vertex pair with start and end swapped and each curve parameter
/// negated, matching the parametrization of the reversed curve.
pub open spec fn vertices_reverse_spec(vs: VerticesOfEdge) -> VerticesOfEdge {
    VerticesOfEdge {
        start: Vertex { position: -vs.finish.position as i64, global: vs.finish.global },
        finish: Vertex { position: -vs.start.position as i64, global: vs.start.global },
    }
}

/// A segment of a curve, bounded by an ordered pair of vertices. When both
/// vertices are absent the edge stands for the whole (unbounded or closed)
/// curve.
#[derive(Clone, Copy, PartialEq, Eq, Structural, Debug)]
pub struct Edge {
    /// The curve the edge lies on, in the surface-local form paired with its
    /// canonical ambient form.
    pub curve: Local<Curve2, Curve>,
    /// The start and end vertex, in traversal order.
    pub vertices: Option<VerticesOfEdge>,
}

impl Edge {
    /// The canonical form of the edge's curve.
    pub fn curve(&self) -> (r: Curve)
        ensures
            r == self.curve.canonical_spec(),
    {
        self.curve.canonical()
    }

    /// The edge's vertices.
    pub fn vertices(&self) -> (r: Option<VerticesOfEdge>)
        ensures
            r == self.vertices,
    {
        self.vertices
    }
}

/// Whether an edge is bounded, within coordinate limits, and safe for the
/// exact predicates: its vertices exist, their parameters are bounded, and
/// the points the approximation will produce stay in range.
pub open spec fn edge_wf(e: Edge) -> bool {
    match e.vertices {
        Some(vs) => {
            let va = vs.start;
            let vb = vs.finish;
            &&& -PARAM_LIMIT <= va.position <= PARAM_LIMIT
            &&& -PARAM_LIMIT <= vb.position <= PARAM_LIMIT
            &&& pt2_in_range(e.curve.local_spec().origin)
            &&& vec2_in_direction_range(e.curve.local_spec().direction)
            &&& -COORD_LIMIT <= curve2_at_u(e.curve.local_spec(), va.position as int)
                <= COORD_LIMIT
            &&& -COORD_LIMIT <= curve2_at_v(e.curve.local_spec(), va.position as int)
                <= COORD_LIMIT
            &&& -COORD_LIMIT <= curve2_at_u(e.curve.local_spec(), vb.position as int)
                <= COORD_LIMIT
            &&& -COORD_LIMIT <= curve2_at_v(e.curve.local_spec(), vb.position as int)
                <= COORD_LIMIT
            &&& pt3_in_range(va.global.position_spec())
            &&& pt3_in_range(vb.global.position_spec())
            &&& pt3_in_range(e.curve.canonical_spec().origin)
            &&& vec3_in_direction_range(e.curve.canonical_spec().direction)
        },
        None => false,
    }
}

/// An ordered, closed sequence of edges bounding a face region. The
/// traversal order encodes the winding direction, which determines what is
/// inside and what is outside when the cycle bounds a face.
#[derive(Clone, PartialEq, Eq, Debug)]
pub struct Cycle {
    /// The edges of the cycle, in traversal order.
    pub edges: Vec<Edge>,
}

pub open spec fn cycle_wf(c: Cycle) -> bool {
    forall|i: int| 0 <= i < c.edges@.len() ==> edge_wf(#[trigger] c.edges@[i])
}

impl Cycle {
    /// The edges of the cycle.
    pub fn edges(&self) -> (r: &Vec<Edge>)
        ensures
            r@ == self.edges@,
    {
        &self.edges
    }
}

/// A face: either a boundary representation on a surface, or a list of
/// triangles that bypasses the boundary representation entirely.
#[derive(Clone, PartialEq, Eq, Debug)]
pub enum Face {
    /// A boundary-defined face.
    Face(FaceBRep),
    /// A pre-triangulated face: ambient triangles with their colors.
    Triangles(Vec<(Triangle3, Color)>),
}

/// The boundary representation of a face: a surface, the exterior cycles
/// that bound it, the interior cycles that bound holes in it, and a color.
#[derive(Clone, PartialEq, Eq, Debug)]
pub struct FaceBRep {
    /// The surface all cycles of the face lie on.
    pub surface: Surface,
    /// The cycles that bound the face on the outside.
    pub exteriors: Vec<Cycle>,
    /// The cycles that bound holes in the face.
    pub interiors: Vec<Cycle>,
    /// The color of the face.
    pub color: Color,
}

impl FaceBRep {
    /// The surface the face's cycles lie on.
    pub fn surface(&self) -> (r: Surface)
        ensures
            r == self.surface,
    {
        self.surface
    }
}

pub open spec fn cycles_wf(cs: Seq<Cycle>) -> bool {
    forall|i: int| 0 <= i < cs.len() ==> cycle_wf(#[trigger] cs[i])
}

pub open spec fn face_wf(f: Face) -> bool {
    match f {
        Face::Face(brep) => surface_in_range(brep.surface) && cycles_wf(brep.exteriors@)
            && cycles_wf(brep.interiors@),
        Face::Triangles(ts) => forall|i: int|
            0 <= i < ts@.len() ==> pt3_in_range(#[trigger] ts@[i].0.a) && pt3_in_range(ts@[i].0.b)
                && pt3_in_range(ts@[i].0.c),
    }
}

pub open spec fn faces_wf(fs: Seq<Face>) -> bool {
    forall|i: int| 0 <= i < fs.len() ==> face_wf(#[trigger] fs[i])
}

impl Face {
    /// Start building a boundary-defined face on `surface`.
    pub fn builder(surface: Surface) -> (r: FaceBuilder)
        ensures
            r.surface == surface,
            r.exterior is None,
            r.interiors@.len() == 0,
            r.color == default_face_color(),
    {
        FaceBuilder { surface, exterior: None, interiors: Vec::new(), color: default_face_color_exec() }
    }
}

/// The color a built face gets when none is chosen.
pub open spec fn default_face_color() -> Color {
    Color { r: 255, g: 0, b: 0, alpha: 255 }
}

fn default_face_color_exec() -> (r: Color)
    ensures
        r == default_face_color(),
{
    Color { r: 255, g: 0, b: 0, alpha: 255 }
}

/// Builds a boundary-defined face from polygons given as point lists.
pub struct FaceBuilder {
    /// The surface the face will lie on.
    pub surface: Surface,
    /// The exterior polygon, once given.
    pub exterior: Option<Vec<Point2>>,
    /// The interior polygons given so far.
    pub interiors: Vec<Vec<Point2>>,
    /// The color of the face.
    pub color: Color,
}

/// Whether every point of the polygon is in range on `s`, so that the
/// builder can construct well-formed edges from it.
pub open spec fn polygon_points_ok(s: Surface, ps: Seq<Point2>) -> bool {
    forall|i: int|
        0 <= i < ps.len() ==> pt2_in_range(#[trigger] ps[i]) && surface_point_in_range(s, ps[i])
}

/// The edge the builder constructs between the consecutive polygon points
/// `a` and `b` on `s`: a line segment whose local curve runs from `a` to
/// `b` over the parameter range zero to one, paired with its canonical
/// ambient form, and bounded by vertices resolving to the ambient images of
/// `a` and `b`.
pub open spec fn polygon_edge_spec(s: Surface, a: Point2, b: Point2) -> Edge {
    Edge {
        curve: Local {
            local_form: Curve2 {
                origin: a,
                direction: Vector2 { u: (b.u - a.u) as i64, v: (b.v - a.v) as i64 },
            },
            canonical_form: Curve {
                origin: surface_point_spec(s, a),
                direction: Vector3 {
                    x: (surface_at_x(s, b.u as int, b.v as int) - surface_at_x(
                        s,
                        a.u as int,
                        a.v as int,
                    )) as i64,
                    y: (surface_at_y(s, b.u as int, b.v as int) - surface_at_y(
                        s,
                        a.u as int,
                        a.v as int,
                    )) as i64,
                    z: (surface_at_z(s, b.u as int, b.v as int) - surface_at_z(
                        s,
                        a.u as int,
                        a.v as int,
                    )) as i64,
                },
            },
        },
        vertices: Some(
            VerticesOfEdge {
                start: Vertex {
                    position: 0,
                    global: GlobalVertex { position: surface_point_spec(s, a) },
                },
                finish: Vertex {
                    position: 1,
                    global: GlobalVertex { position: surface_point_spec(s, b) },
                },
            },
        ),
    }
}

/// The ambient point for surface coordinates `p`, as a point value; only
/// meaningful when the components are in range.
pub open spec fn surface_point_spec(s: Surface, p: Point2) -> Point3 {
    Point3 {
        x: surface_at_x(s, p.u as int, p.v as int) as i64,
        y: surface_at_y(s, p.u as int, p.v as int) as i64,
        z: surface_at_z(s, p.u as int, p.v as int) as i64,
    }
}

/// The cycle built from a polygon: one edge per point, from each point to
/// the next, the last edge closing back to the first point.
pub open spec fn polygon_cycle_spec(s: Surface, ps: Seq<Point2>) -> Seq<Edge> {
    Seq::new(
        ps.len(),
        |i: int| polygon_edge_spec(s, ps[i], ps[if i + 1 == ps.len() { 0int } else { i + 1 }]),
    )
}

impl Edge {
    /// A line segment between two points on `surface`, bounded by vertices
    /// at the two points.
    pub fn line_segment_from_points(surface: &Surface, points: [Point2; 2]) -> (r: Edge)
        requires
            surface_in_range(*surface),
            pt2_in_range(points[0]),
            pt2_in_range(points[1]),
            surface_point_in_range(*surface, points[0]),
            surface_point_in_range(*surface, points[1]),
        ensures
            r == polygon_edge_spec(*surface, points[0], points[1]),
            edge_wf(r),
    {
        let a = points[0];
        let b = points[1];
        let ga = surface.point_from_surface_coords(a);
        let gb = surface.point_from_surface_coords(b);
        let e = Edge {
            curve: Local::new(
                Curve2 { origin: a, direction: Vector2 { u: b.u - a.u, v: b.v - a.v } },
                Curve {
                    origin: ga,
                    direction: Vector3 { x: gb.x - ga.x, y: gb.y - ga.y, z: gb.z - ga.z },
                },
            ),
            vertices: Some(
                VerticesOfEdge {
                    start: Vertex { position: 0, global: GlobalVertex { position: ga } },
                    finish: Vertex { position: 1, global: GlobalVertex { position: gb } },
                },
            ),
        };
        proof {
            assert(curve2_at_u(e.curve.local_spec(), 0int) == a.u);
            assert(curve2_at_v(e.curve.local_spec(), 0int) == a.v);
            assert(curve2_at_u(e.curve.local_spec(), 1int) == b.u);
            assert(curve2_at_v(e.curve.local_spec(), 1int) == b.v);
        }
        e
    }
}

impl Cycle {
    /// The polygon cycle through the given points on `surface`.
    pub fn polygon_from_points(surface: &Surface, points: Vec<Point2>) -> (r: Cycle)
        requires
            surface_in_range(*surface),
            polygon_points_ok(*surface, points@),
        ensures
            r.edges@ == polygon_cycle_spec(*surface, points@),
            cycle_wf(r),
    {
        let n = points.len();
        let mut edges: Vec<Edge> = Vec::new();
        let mut i: usize = 0;
        while i < n
            invariant
                edges@.len() == i,
                0 <= i <= n,
                n == points@.len(),
                forall|j: int|
                    0 <= j < i ==> edges@[j] == polygon_edge_spec(
                        *surface,
                        points@[j],
                        points@[if j + 1 == n { 0int } else { j + 1 }],
                    ) && edge_wf(#[trigger] edges@[j]),
            decreases n - i,
        {
            let next: usize = if i + 1 == n { 0 } else { i + 1 };
            let e = Edge::line_segment_from_points(surface, [points[i], points[next]]);
            edges.push(e);
            i = i + 1;
        }
        let r = Cycle { edges };
        proof {
            assert(r.edges@ =~= polygon_cycle_spec(*surface, points@));
        }
        r
    }
}

impl FaceBuilder {
    /// Use `points` as the face's exterior polygon.
    pub fn with_exterior_polygon(self, points: Vec<Point2>) -> (r: FaceBuilder)
        ensures
            r.surface == self.surface,
            r.exterior == Some(points),
            r.interiors@ == self.interiors@,
            r.color == self.color,
    {
        FaceBuilder { exterior: Some(points), ..self }
    }

    /// Add `points` as an interior polygon (a hole).
    pub fn with_interior_polygon(self, points: Vec<Point2>) -> (r: FaceBuilder)
        ensures
            r.surface == self.surface,
            r.exterior == self.exterior,
            r.interiors@ == self.interiors@.push(points),
            r.color == self.color,
    {
        let mut interiors = self.interiors;
        interiors.push(points);
        FaceBuilder { interiors, ..self }
    }

    /// Use `color` for the face.
    pub fn with_color(self, color: Color) -> (r: FaceBuilder)
        ensures
            r.surface == self.surface,
            r.exterior == self.exterior,
            r.interiors@ == self.interiors@,
            r.color == color,
    {
        FaceBuilder { color, ..self }
    }

    /// Build the face: the exterior polygon becomes the exterior cycle, each
    /// interior polygon an interior cycle.
    pub fn build(self) -> (r: Face)
        requires
            surface_in_range(self.surface),
            self.exterior is Some ==> polygon_points_ok(self.surface, self.exterior->0@),
            forall|i: int|
                0 <= i < self.interiors@.len() ==> polygon_points_ok(
                    self.surface,
                    #[trigger] self.interiors@[i]@,
                ),
        ensures
            r is Face,
            r->Face_0.surface == self.surface,
            r->Face_0.color == self.color,
            match self.exterior {
                Some(ps) => r->Face_0.exteriors@.len() == 1 && r->Face_0.exteriors@[0].edges@
                    == polygon_cycle_spec(self.surface, ps@),
                None => r->Face_0.exteriors@.len() == 0,
            },
            r->Face_0.interiors@.len() == self.interiors@.len(),
            forall|i: int|
                0 <= i < self.interiors@.len() ==> #[trigger] r->Face_0.interiors@[i].edges@
                    == polygon_cycle_spec(self.surface, self.interiors@[i]@),
            face_wf(r),
    {
        let ghost surface_spec = self.surface;
        let ghost interiors_spec = self.interiors@;
        let mut exteriors: Vec<Cycle> = Vec::new();
        let FaceBuilder { surface, exterior, interiors: rest0, color } = self;
        match exterior {
            Some(ps) => {
                let c = Cycle::polygon_from_points(&surface, ps);
                exteriors.push(c);
            },
            None => {},
        }
        let mut interiors: Vec<Cycle> = Vec::new();
        let mut rest = rest0;
        let n = rest.len();
        let mut i: usize = 0;
        while i < n
            invariant
                0 <= i <= n,
                n == interiors_spec.len(),
                rest@.len() == n - i,
                interiors@.len() == i,
                surface == surface_spec,
                rest@ =~= interiors_spec.skip(i as int),
                forall|j: int|
                    0 <= j < i ==> cycle_wf(#[trigger] interiors@[j]),
                forall|j: int|
                    0 <= j < i ==> #[trigger] interiors@[j].edges@ == polygon_cycle_spec(
                        surface_spec,
                        interiors_spec[j]@,
                    ),
            decreases n - i,
        {
            let ps = rest.remove(0);
            proof {
                assert(interiors_spec.skip(i as int)[0] == interiors_spec[i as int]);
                assert(interiors_spec.skip(i as int).skip(1) =~= interiors_spec.skip(
                    i as int + 1,
                ));
            }
            let c = Cycle::polygon_from_points(&surface, ps);
            interiors.push(c);
            i = i + 1;
        }
        Face::Face(FaceBRep { surface, exteriors, interiors, color })
    }
}

/// The mathematical value of a face: the same data with cycles as edge
/// sequences, so that two faces built independently but alike are equal.
#[verifier::ext_equal]
pub enum FaceView {
    /// View of a boundary-defined face.
    Brep {
        /// The face's surface.
        surface: Surface,
        /// Views of the exterior cycles.
        exteriors: Seq<Seq<Edge>>,
        /// Views of the interior cycles.
        interiors: Seq<Seq<Edge>>,
        /// The face's color.
        color: Color,
    },
    /// View of a pre-triangulated face.
    Triangles(Seq<(Triangle3, Color)>),
}

impl View for Cycle {
    type V = Seq<Edge>;

    open spec fn view(&self) -> Seq<Edge> {
        self.edges@
    }
}

/// The views of a list of cycles.
pub open spec fn cycles_view(cs: Seq<Cycle>) -> Seq<Seq<Edge>> {
    cs.map_values(|c: Cycle| c@)
}

impl View for Face {
    type V = FaceView;

    open spec fn view(&self) -> FaceView {
        match self {
            Face::Face(brep) => FaceView::Brep {
                surface: brep.surface,
                exteriors: cycles_view(brep.exteriors@),
                interiors: cycles_view(brep.interiors@),
                color: brep.color,
            },
            Face::Triangles(ts) => FaceView::Triangles(ts@),
        }
    }
}

impl Cycle {
    /// A fresh cycle with the same edges.
    pub fn duplicate(&self) -> (r: Cycle)
        ensures
            r@ == self@,
    {
        let mut edges: Vec<Edge> = Vec::new();
        let n = self.edges.len();
        let mut i: usize = 0;
        while i < n
            invariant
                0 <= i <= n,
                n == self.edges@.len(),
                edges@ =~= self.edges@.take(i as int),
            decreases n - i,
        {
            edges.push(self.edges[i]);
            i = i + 1;
        }
        proof {
            assert(edges@ =~= self.edges@);
        }
        Cycle { edges }
    }
}

/// A fresh list of cycles with the same views.
fn duplicate_cycles(cs: &Vec<Cycle>) -> (r: Vec<Cycle>)
    ensures
        cycles_view(r@) == cycles_view(cs@),
{
    let mut out: Vec<Cycle> = Vec::new();
    let n = cs.len();
    let mut i: usize = 0;
    while i < n
        invariant
            0 <= i <= n,
            n == cs@.len(),
            out@.len() == i,
            forall|j: int| 0 <= j < i ==> #[trigger] out@[j]@ == cs@[j]@,
        decreases n - i,
    {
        let c = cs[i].duplicate();
        out.push(c);
        i = i + 1;
    }
    proof {
        assert(cycles_view(out@) =~= cycles_view(cs@));
    }
    out
}

impl Face {
    /// A fresh face with the same view.
    pub fn duplicate(&self) -> (r: Face)
        ensures
            r@ == self@,
    {
        match self {
            Face::Face(brep) => {
                let r = Face::Face(
                    FaceBRep {
                        surface: brep.surface,
                        exteriors: duplicate_cycles(&brep.exteriors),
                        interiors: duplicate_cycles(&brep.interiors),
                        color: brep.color,
                    },
                );
                proof {
                    assert(r@ =~~= self@);
                }
                r
            },
            Face::Triangles(ts) => {
                let mut out: Vec<(Triangle3, Color)> = Vec::new();
                let n = ts.len();
                let mut i: usize = 0;
                while i < n
                    invariant
                        0 <= i <= n,
                        n == ts@.len(),
                        out@ =~= ts@.take(i as int),
                    decreases n - i,
                {
                    let t = ts[i];
                    out.push(t);
                    i = i + 1;
                }
                proof {
                    assert(out@ =~= ts@);
                }
                Face::Triangles(out)
            },
        }
    }
}

impl View for Curve {
    type V = Curve;

    open spec fn view(&self) -> Curve {
        *self
    }
}

impl View for Surface {
    type V = Surface;

    open spec fn view(&self) -> Surface {
        *self
    }
}

impl View for GlobalVertex {
    type V = GlobalVertex;

    open spec fn view(&self) -> GlobalVertex {
        *self
    }
}

impl View for Vertex {
    type V = Vertex;

    open spec fn view(&self) -> Vertex {
        *self
    }
}

impl View for Edge {
    type V = Edge;

    open spec fn view(&self) -> Edge {
        *self
    }
}

} // verus!
