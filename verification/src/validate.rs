//! Validation of face lists: global-vertex uniqueness.
//!
//! Within a shape, distinct vertices must not lie closer together than a
//! configured minimum distance; two positions closer than that threshold
//! stand for the same vertex. Distances are compared squared, so the check
//! is exact in integers.

use vstd::prelude::*;

use crate::iter::{chain_global_verts, merge_dedup, ObjectIters};
use crate::math::{pt3_in_range, Point3, COORD_LIMIT};
use crate::objects::{Edge, Face, FaceView, GlobalVertex};

verus! {

/// Configuration for the validation of shapes.
#[derive(Clone, Copy, PartialEq, Eq, Structural, Debug)]
pub struct ValidationConfig {
    /// The minimum distance between distinct global vertices. Two
    /// positions whose squared distance is below the square of this value
    /// are considered the same vertex.
    pub min_distance: i64,
}

/// A structural defect found during validation.
#[derive(Clone, Copy, PartialEq, Eq, Structural, Debug)]
pub enum ValidationError {
    /// Two distinct global vertices lie closer together than the minimum
    /// distance.
    NonUniqueVertex {
        /// The position of one of the two vertices.
        first: Point3,
        /// The position of the other.
        second: Point3,
    },
    /// A vertex position lies outside the coordinate range the kernel can
    /// compute with exactly.
    OutOfBounds {
        /// The offending position.
        position: Point3,
    },
}

/// A proof token: the wrapped value has passed validation unchanged.
pub struct Validated<T> {
    inner: T,
}

impl<T> Validated<T> {
    /// The validated value.
    pub fn into_inner(self) -> (r: T)
        ensures
            r == self.inner_spec(),
    {
        self.inner
    }

    /// A reference to the validated value.
    pub fn inner(&self) -> (r: &T)
        ensures
            *r == self.inner_spec(),
    {
        &self.inner
    }

    /// The wrapped value, in specifications.
    pub closed spec fn inner_spec(self) -> T {
        self.inner
    }
}

/// The squared distance between two positions.
pub open spec fn dist_sq(a: Point3, b: Point3) -> int {
    (a.x - b.x) * (a.x - b.x) + (a.y - b.y) * (a.y - b.y) + (a.z - b.z) * (a.z - b.z)
}

/// Whether two global vertices stand for the same vertex under `config`:
/// their positions differ by less than the configured minimum distance.
pub open spec fn identified_spec(a: GlobalVertex, b: GlobalVertex, config: ValidationConfig) -> bool {
    dist_sq(a.position_spec(), b.position_spec()) < config.min_distance * config.min_distance
}

impl GlobalVertex {
    /// Whether this vertex and `other` stand for the same vertex under
    /// `config`: their positions differ by less than the configured
    /// minimum distance.
    pub fn is_identified_with(&self, other: &GlobalVertex, config: &ValidationConfig) -> (r: bool)
        requires
            pt3_in_range(self.position_spec()),
            pt3_in_range(other.position_spec()),
            0 < config.min_distance <= COORD_LIMIT,
        ensures
            r == identified_spec(*self, *other, *config),
    {
        let a = self.position();
        let b = other.position();
        let dx = a.x as i128 - b.x as i128;
        let dy = a.y as i128 - b.y as i128;
        let dz = a.z as i128 - b.z as i128;
        let d2 = crate::math::mul_small(dx, dx) + crate::math::mul_small(dy, dy)
            + crate::math::mul_small(dz, dz);
        let m = config.min_distance as i128;
        let m2 = crate::math::mul_small(m, m);
        d2 < m2
    }
}

/// Two global vertices whose positions differ by less than the configured
/// minimum distance are identified with each other; two whose positions
/// differ by more are not. Distances are compared squared.
pub proof fn lemma_vertex_identification(
    a: GlobalVertex,
    b: GlobalVertex,
    config: ValidationConfig,
)
    requires
        config.min_distance > 0,
    ensures
        dist_sq(a.position_spec(), b.position_spec()) < config.min_distance
            * config.min_distance ==> identified_spec(a, b, config),
        dist_sq(a.position_spec(), b.position_spec()) > config.min_distance
            * config.min_distance ==> !identified_spec(a, b, config),
{
}

/// Whether a merged-and-deduplicated sequence holds a value: exactly when
/// one of its two parts does.
pub proof fn lemma_merge_dedup_membership<V>(acc: Seq<V>, rest: Seq<V>, x: V)
    ensures
        merge_dedup(acc, rest).contains(x) <==> acc.contains(x) || rest.contains(x),
    decreases rest.len(),
{
    if rest.len() == 0 {
    } else {
        let acc2 = if acc.contains(rest[0]) {
            acc
        } else {
            acc.push(rest[0])
        };
        lemma_merge_dedup_membership(acc2, rest.drop_first(), x);
        assert(acc2.contains(x) <==> acc.contains(x) || rest[0] == x) by {
            if acc.contains(x) {
                let i = choose|i: int| 0 <= i < acc.len() && acc[i] == x;
                assert(acc2[i] == x);
            }
            if acc2.contains(x) {
                let i = choose|i: int| 0 <= i < acc2.len() && acc2[i] == x;
                if i < acc.len() {
                    assert(acc[i] == x);
                }
            }
            if rest[0] == x && !acc.contains(rest[0]) {
                assert(acc2[acc.len() as int] == x);
            }
        }
        assert(rest.contains(x) <==> rest[0] == x || rest.drop_first().contains(x)) by {
            if rest.drop_first().contains(x) {
                let i = choose|i: int|
                    0 <= i < rest.drop_first().len() && rest.drop_first()[i] == x;
                assert(rest[i + 1] == x);
            }
            if rest.contains(x) {
                let i = choose|i: int| 0 <= i < rest.len() && rest[i] == x;
                if i > 0 {
                    assert(rest.drop_first()[i - 1] == x);
                }
            }
        }
    }
}

/// Whether a chained global-vertex sequence holds a vertex: exactly when
/// the accumulator does, or some item reaches it.
pub proof fn lemma_chain_global_verts_membership<T: ObjectIters>(
    acc: Seq<GlobalVertex>,
    items: Seq<T>,
    g: GlobalVertex,
)
    ensures
        chain_global_verts(acc, items).contains(g) <==> acc.contains(g) || exists|i: int|
            0 <= i < items.len() && (#[trigger] items[i].global_verts_spec()).contains(g),
    decreases items.len(),
{
    if items.len() == 0 {
    } else {
        lemma_chain_global_verts_membership(acc, items.drop_last(), g);
        lemma_merge_dedup_membership(
            chain_global_verts(acc, items.drop_last()),
            items.last().global_verts_spec(),
            g,
        );
        assert(items.last() == items[items.len() - 1]);
        if chain_global_verts(acc, items).contains(g) {
            if chain_global_verts(acc, items.drop_last()).contains(g) {
                if !acc.contains(g) {
                    let i = choose|i: int|
                        0 <= i < items.drop_last().len() && (#[trigger] items.drop_last()[i].global_verts_spec()).contains(
                            g,
                        );
                    assert(items.drop_last()[i] == items[i]);
                    assert((items[i].global_verts_spec()).contains(g));
                }
            } else {
                assert((items[items.len() - 1].global_verts_spec()).contains(g));
            }
        }
        if exists|i: int|
            0 <= i < items.len() && (#[trigger] items[i].global_verts_spec()).contains(g) {
            let i = choose|i: int|
                0 <= i < items.len() && (#[trigger] items[i].global_verts_spec()).contains(g);
            if i < items.len() - 1 {
                assert(items.drop_last()[i] == items[i]);
                assert((items.drop_last()[i].global_verts_spec()).contains(g));
            }
        }
    }
}

/// Whether an edge reaches a global vertex: exactly when one of its
/// vertices resolves to it.
pub proof fn lemma_edge_gv_membership(e: Edge, g: GlobalVertex)
    ensures
        e.global_verts_spec().contains(g) <==> (e.vertices matches Some(vs) && (vs.start.global
            == g || vs.finish.global == g)),
{
    match e.vertices {
        None => {},
        Some(vs) => {
            lemma_merge_dedup_membership(Seq::<GlobalVertex>::empty(), seq![vs.start.global], g);
            lemma_merge_dedup_membership(
                merge_dedup(Seq::<GlobalVertex>::empty(), seq![vs.start.global]),
                seq![vs.finish.global],
                g,
            );
        },
    }
}

/// Whether a global vertex occurs in one cycle view.
pub open spec fn cycle_has_gv(es: Seq<Edge>, g: GlobalVertex) -> bool {
    exists|ei: int|
        0 <= ei < es.len() && ((#[trigger] es[ei]).vertices matches Some(vs) && (vs.start.global
            == g || vs.finish.global == g))
}

/// Whether a global vertex occurs in a sequence of cycle views.
pub open spec fn cycles_have_gv(cs: Seq<Seq<Edge>>, g: GlobalVertex) -> bool {
    exists|ci: int| 0 <= ci < cs.len() && cycle_has_gv(#[trigger] cs[ci], g)
}

/// Whether a global vertex occurs in a face.
pub open spec fn face_has_gv(f: FaceView, g: GlobalVertex) -> bool {
    match f {
        FaceView::Brep { exteriors, interiors, .. } => cycles_have_gv(exteriors, g)
            || cycles_have_gv(interiors, g),
        FaceView::Triangles(_) => false,
    }
}

/// Whether a global vertex occurs in a list of faces.
pub open spec fn faces_have_gv(fs: Seq<Face>, g: GlobalVertex) -> bool {
    exists|i: int| 0 <= i < fs.len() && face_has_gv((#[trigger] fs[i])@, g)
}

/// A cycle reaches a global vertex exactly when one of its edges does.
pub proof fn lemma_cycle_gv_membership(c: crate::objects::Cycle, g: GlobalVertex)
    ensures
        c.global_verts_spec().contains(g) <==> cycle_has_gv(c@, g),
{
    lemma_chain_global_verts_membership(Seq::<GlobalVertex>::empty(), c.edges@, g);
    if c.global_verts_spec().contains(g) {
        let i = choose|i: int|
            0 <= i < c.edges@.len() && (#[trigger] c.edges@[i].global_verts_spec()).contains(g);
        lemma_edge_gv_membership(c.edges@[i], g);
    }
    if cycle_has_gv(c@, g) {
        let ei = choose|ei: int|
            0 <= ei < c.edges@.len() && ((#[trigger] c.edges@[ei]).vertices matches Some(vs) && (
            vs.start.global == g || vs.finish.global == g));
        lemma_edge_gv_membership(c.edges@[ei], g);
        assert((c.edges@[ei].global_verts_spec()).contains(g));
    }
}

/// A chain over cycles reaches a global vertex exactly when the
/// accumulator does, or some cycle does.
pub proof fn lemma_cycles_gv_membership(
    acc: Seq<GlobalVertex>,
    cs: Seq<crate::objects::Cycle>,
    g: GlobalVertex,
)
    ensures
        chain_global_verts(acc, cs).contains(g) <==> acc.contains(g) || cycles_have_gv(
            crate::objects::cycles_view(cs),
            g,
        ),
{
    lemma_chain_global_verts_membership(acc, cs, g);
    if chain_global_verts(acc, cs).contains(g) && !acc.contains(g) {
        let i = choose|i: int|
            0 <= i < cs.len() && (#[trigger] cs[i].global_verts_spec()).contains(g);
        lemma_cycle_gv_membership(cs[i], g);
        assert(crate::objects::cycles_view(cs)[i] == cs[i]@);
        assert(cycle_has_gv(crate::objects::cycles_view(cs)[i], g));
    }
    if cycles_have_gv(crate::objects::cycles_view(cs), g) {
        let ci = choose|ci: int|
            0 <= ci < crate::objects::cycles_view(cs).len() && cycle_has_gv(
                #[trigger] crate::objects::cycles_view(cs)[ci],
                g,
            );
        assert(crate::objects::cycles_view(cs)[ci] == cs[ci]@);
        lemma_cycle_gv_membership(cs[ci], g);
        assert((cs[ci].global_verts_spec()).contains(g));
    }
}

/// A face reaches a global vertex exactly when one of its cycles does.
pub proof fn lemma_face_gv_membership(f: Face, g: GlobalVertex)
    ensures
        f.global_verts_spec().contains(g) <==> face_has_gv(f@, g),
{
    match f {
        Face::Face(brep) => {
            let start = merge_dedup(
                Seq::<GlobalVertex>::empty(),
                brep.surface.global_verts_spec(),
            );
            assert(start == Seq::<GlobalVertex>::empty());
            lemma_cycles_gv_membership(start, brep.exteriors@, g);
            lemma_cycles_gv_membership(
                chain_global_verts(start, brep.exteriors@),
                brep.interiors@,
                g,
            );
        },
        Face::Triangles(_) => {},
    }
}

/// A face list reaches a global vertex exactly when one of its faces
/// does.
pub proof fn lemma_faces_gv_membership(fs: Seq<Face>, g: GlobalVertex)
    ensures
        chain_global_verts(Seq::<GlobalVertex>::empty(), fs).contains(g) <==> faces_have_gv(
            fs,
            g,
        ),
{
    lemma_chain_global_verts_membership(Seq::<GlobalVertex>::empty(), fs, g);
    if chain_global_verts(Seq::<GlobalVertex>::empty(), fs).contains(g) {
        let i = choose|i: int|
            0 <= i < fs.len() && (#[trigger] fs[i].global_verts_spec()).contains(g);
        lemma_face_gv_membership(fs[i], g);
    }
    if faces_have_gv(fs, g) {
        let i = choose|i: int| 0 <= i < fs.len() && face_has_gv((#[trigger] fs[i])@, g);
        lemma_face_gv_membership(fs[i], g);
        assert((fs[i].global_verts_spec()).contains(g));
    }
}

/// Whether a face list passes validation: every global vertex position is
/// in coordinate range, and no two distinct global vertices lie closer
/// together than the configured minimum distance.
pub open spec fn validate_ok_spec(fs: Seq<Face>, config: ValidationConfig) -> bool {
    &&& forall|g: GlobalVertex| faces_have_gv(fs, g) ==> pt3_in_range(g.position_spec())
    &&& forall|g1: GlobalVertex, g2: GlobalVertex|
        faces_have_gv(fs, g1) && faces_have_gv(fs, g2) && g1 != g2 ==> dist_sq(
            g1.position_spec(),
            g2.position_spec(),
        ) >= config.min_distance * config.min_distance
}

/// Validate a list of faces: returns a proof token around the unchanged
/// list when every global vertex is in range and no two distinct global
/// vertices lie closer together than the configured minimum distance, and
/// the defect found otherwise.
pub fn validate(faces: Vec<Face>, config: &ValidationConfig) -> (r: Result<
    Validated<Vec<Face>>,
    ValidationError,
>)
    requires
        0 < config.min_distance <= COORD_LIMIT,
    ensures
        r is Ok <==> validate_ok_spec(faces@, *config),
        r is Ok ==> r->Ok_0.inner_spec() == faces,
        r matches Err(ValidationError::OutOfBounds { position }) ==> faces_have_gv(
            faces@,
            GlobalVertex { position },
        ) && !pt3_in_range(position),
        r matches Err(ValidationError::NonUniqueVertex { first, second }) ==> first != second
            && faces_have_gv(faces@, GlobalVertex { position: first }) && faces_have_gv(
            faces@,
            GlobalVertex { position: second },
        ) && dist_sq(first, second) < config.min_distance * config.min_distance,
{
    let ghost all = chain_global_verts(Seq::<GlobalVertex>::empty(), faces@);
    proof {
        assert forall|g: GlobalVertex| all.contains(g) <==> faces_have_gv(faces@, g) by {
            lemma_faces_gv_membership(faces@, g);
        }
    }
    let mut it = faces.global_vertex_iter();
    let mut gvs: Vec<GlobalVertex> = Vec::new();
    proof {
        assert(gvs@ + it@ =~= all);
    }
    while it.remaining() > 0
        invariant
            gvs@ + it@ == all,
        decreases it@.len(),
    {
        let next = it.next();
        match next {
            None => {
                proof {
                    assert(false);
                }
            },
            Some(g) => {
                gvs.push(g);
                proof {
                    assert(gvs@ + it@ =~= all);
                }
            },
        }
    }
    proof {
        assert(gvs@ =~= all);
    }
    let n = gvs.len();
    let mut i: usize = 0;
    while i < n
        invariant
            0 <= i <= n,
            n == gvs@.len(),
            forall|m: int| 0 <= m < i ==> pt3_in_range((#[trigger] gvs@[m]).position_spec()),
        decreases n - i,
    {
        let p = gvs[i].position();
        if p.x < -COORD_LIMIT || p.x > COORD_LIMIT || p.y < -COORD_LIMIT || p.y > COORD_LIMIT
            || p.z < -COORD_LIMIT || p.z > COORD_LIMIT {
            proof {
                assert(all.contains(gvs@[i as int]));
                assert(faces_have_gv(faces@, gvs@[i as int]));
                assert(!validate_ok_spec(faces@, *config));
            }
            return Err(ValidationError::OutOfBounds { position: p });
        }
        i = i + 1;
    }
    let mut a: usize = 0;
    while a < n
        invariant
            0 <= a <= n,
            n == gvs@.len(),
            forall|m: int| 0 <= m < n ==> pt3_in_range((#[trigger] gvs@[m]).position_spec()),
            forall|m1: int, m2: int|
                0 <= m1 < a && 0 <= m2 < n && gvs@[m1] != gvs@[m2] ==> dist_sq(
                    (#[trigger] gvs@[m1]).position_spec(),
                    (#[trigger] gvs@[m2]).position_spec(),
                ) >= config.min_distance * config.min_distance,
        decreases n - a,
    {
        let mut b: usize = 0;
        while b < n
            invariant
                0 <= b <= n,
                0 <= a < n,
                n == gvs@.len(),
                forall|m: int| 0 <= m < n ==> pt3_in_range((#[trigger] gvs@[m]).position_spec()),
                forall|m1: int, m2: int|
                    0 <= m1 < a && 0 <= m2 < n && gvs@[m1] != gvs@[m2] ==> dist_sq(
                        (#[trigger] gvs@[m1]).position_spec(),
                        (#[trigger] gvs@[m2]).position_spec(),
                    ) >= config.min_distance * config.min_distance,
                forall|m2: int|
                    0 <= m2 < b && gvs@[a as int] != gvs@[m2] ==> dist_sq(
                        (gvs@[a as int]).position_spec(),
                        (#[trigger] gvs@[m2]).position_spec(),
                    ) >= config.min_distance * config.min_distance,
            decreases n - b,
        {
            let ga = gvs[a];
            let gb = gvs[b];
            if !(ga == gb) && ga.is_identified_with(&gb, config) {
                proof {
                    assert(all.contains(gvs@[a as int]));
                    assert(all.contains(gvs@[b as int]));
                    assert(faces_have_gv(faces@, gvs@[a as int]));
                    assert(faces_have_gv(faces@, gvs@[b as int]));
                    assert(!validate_ok_spec(faces@, *config));
                }
                return Err(
                    ValidationError::NonUniqueVertex {
                        first: ga.position(),
                        second: gb.position(),
                    },
                );
            }
            b = b + 1;
        }
        a = a + 1;
    }
    proof {
        assert forall|g1: GlobalVertex, g2: GlobalVertex|
            faces_have_gv(faces@, g1) && faces_have_gv(faces@, g2) && g1 != g2 implies dist_sq(
            g1.position_spec(),
            g2.position_spec(),
        ) >= config.min_distance * config.min_distance by {
            lemma_faces_gv_membership(faces@, g1);
            lemma_faces_gv_membership(faces@, g2);
            assert(all.contains(g1));
            assert(all.contains(g2));
            let m1 = choose|m1: int| 0 <= m1 < all.len() && all[m1] == g1;
            let m2 = choose|m2: int| 0 <= m2 < all.len() && all[m2] == g2;
            assert(gvs@[m1] == g1);
            assert(gvs@[m2] == g2);
        }
        assert forall|g: GlobalVertex| faces_have_gv(faces@, g) implies pt3_in_range(
            g.position_spec(),
        ) by {
            lemma_faces_gv_membership(faces@, g);
            assert(all.contains(g));
            let m = choose|m: int| 0 <= m < all.len() && all[m] == g;
            assert(gvs@[m] == g);
        }
    }
    Ok(Validated { inner: faces })
}

} // verus!
