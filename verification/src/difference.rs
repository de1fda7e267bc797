//! The 2D difference operator.
//!
//! Given two face collections that lie on one common surface, with the
//! subtrahend's footprint wholly contained in the base's footprint, the
//! difference is a single boundary-defined face: the base's exterior
//! cycles stay exterior, its interior cycles stay interior, and every
//! exterior cycle of the subtrahend is reversed — curve directions
//! flipped, vertex pairs swapped, edge order reversed — and added as an
//! interior cycle, so the subtracted region becomes a hole.

use vstd::prelude::*;

use crate::iter::{chain_faces, ObjectIters};
use crate::math::{Color, COORD_LIMIT};
use crate::objects::{
    curve2_reverse_spec, curve_reverse_spec, cycle_wf, cycles_view, edge_wf,
    vertices_reverse_spec, Cycle, Edge, Face, FaceBRep, FaceView, Local, Surface,
};
use crate::validate::{
    cycles_have_gv, dist_sq, validate, Validated, ValidationConfig, ValidationError,
};

verus! {

/// The reverse of one edge: both curve forms reversed, the vertex pair
/// swapped.
pub open spec fn reverse_edge_spec(e: Edge) -> Edge {
    Edge {
        curve: Local {
            local_form: curve2_reverse_spec(e.curve.local_form),
            canonical_form: curve_reverse_spec(e.curve.canonical_form),
        },
        vertices: match e.vertices {
            None => None,
            Some(vs) => Some(vertices_reverse_spec(vs)),
        },
    }
}

/// The reverse of a cycle: every edge reversed, in reversed order.
pub open spec fn reverse_cycle_spec(edges: Seq<Edge>) -> Seq<Edge> {
    Seq::new(edges.len(), |i: int| reverse_edge_spec(edges[edges.len() - 1 - i]))
}

/// Reversing a cycle twice restores it exactly: edge order, vertex order
/// and curve directions all return to what they were.
pub proof fn lemma_reverse_involution(edges: Seq<Edge>)
    requires
        forall|i: int| 0 <= i < edges.len() ==> edge_wf(#[trigger] edges[i]),
    ensures
        reverse_cycle_spec(reverse_cycle_spec(edges)) == edges,
{
    let twice = reverse_cycle_spec(reverse_cycle_spec(edges));
    assert forall|i: int| 0 <= i < edges.len() implies twice[i] == edges[i] by {
        assert(edge_wf(edges[i]));
        assert(reverse_cycle_spec(edges)[edges.len() - 1 - i] == reverse_edge_spec(edges[i]));
        assert(twice[i] == reverse_edge_spec(reverse_edge_spec(edges[i])));
    }
    assert(twice =~= edges);
}

/// The product of two negations is the product itself.
proof fn lemma_neg_mul(a: int, b: int)
    ensures
        (-a) * (-b) == a * b,
{
    assert((-a) * (-b) == a * b) by (nonlinear_arith);
}

/// Reversing a well-formed edge yields a well-formed edge: the reversed
/// curve evaluated at the negated parameters passes through the same
/// points.
pub proof fn lemma_reverse_edge_wf(e: Edge)
    requires
        edge_wf(e),
    ensures
        edge_wf(reverse_edge_spec(e)),
{
    let c = e.curve.local_spec();
    match e.vertices {
        None => {},
        Some(vs) => {
            let t0 = vs.start.position as int;
            let t1 = vs.finish.position as int;
            lemma_neg_mul(t0, c.direction.u as int);
            lemma_neg_mul(t0, c.direction.v as int);
            lemma_neg_mul(t1, c.direction.u as int);
            lemma_neg_mul(t1, c.direction.v as int);
        },
    }
}

/// Copies `cycle`, reversing it when `reverse` is set: each edge's local
/// and canonical curve is reversed, its vertex pair is swapped, and the
/// edge order within the cycle is reversed.
pub fn add_cycle(cycle: Cycle, reverse: bool) -> (r: Cycle)
    requires
        cycle_wf(cycle),
    ensures
        !reverse ==> r@ == cycle@,
        reverse ==> r@ == reverse_cycle_spec(cycle@),
        cycle_wf(r),
{
    if !reverse {
        let r = cycle.duplicate();
        proof {
            assert(cycle_wf(r)) by {
                assert(forall|i: int|
                    0 <= i < r.edges@.len() ==> r.edges@[i] == cycle.edges@[i] && edge_wf(
                        #[trigger] cycle.edges@[i],
                    ));
            }
        }
        return r;
    }
    let n = cycle.edges.len();
    let mut edges: Vec<Edge> = Vec::new();
    let mut i: usize = 0;
    while i < n
        invariant
            0 <= i <= n,
            n == cycle.edges@.len(),
            edges@.len() == i,
            forall|j: int|
                0 <= j < i ==> #[trigger] edges@[j] == reverse_cycle_spec(cycle@)[j] && edge_wf(
                    edges@[j],
                ),
        decreases n - i,
    {
        let e = cycle.edges[n - 1 - i];
        proof {
            assert(edge_wf(cycle.edges@[n - 1 - i as int]));
        }
        let curve_local = e.curve.local().reverse();
        let curve_canonical = e.curve.canonical().reverse();
        let vertices = match e.vertices {
            None => {
                proof {
                    assert(false);
                }
                None
            },
            Some(vs) => Some(vs.reverse()),
        };
        let new_edge = Edge { curve: Local::new(curve_local, curve_canonical), vertices };
        proof {
            lemma_reverse_edge_wf(cycle.edges@[n - 1 - i as int]);
            assert(new_edge == reverse_edge_spec(cycle.edges@[n - 1 - i as int]));
            assert(reverse_cycle_spec(cycle@)[i as int] == reverse_edge_spec(
                cycle@[n - 1 - i as int],
            ));
        }
        edges.push(new_edge);
        i = i + 1;
    }
    let r = Cycle { edges };
    proof {
        assert(r@ =~= reverse_cycle_spec(cycle@));
    }
    r
}

/// The exterior cycle views of one face view; a pre-triangulated face has
/// none.
pub open spec fn brep_exteriors(fv: FaceView) -> Seq<Seq<Edge>> {
    match fv {
        FaceView::Brep { exteriors, .. } => exteriors,
        FaceView::Triangles(_) => Seq::empty(),
    }
}

/// The interior cycle views of one face view.
pub open spec fn brep_interiors(fv: FaceView) -> Seq<Seq<Edge>> {
    match fv {
        FaceView::Brep { interiors, .. } => interiors,
        FaceView::Triangles(_) => Seq::empty(),
    }
}

/// All exterior cycles of the given faces, concatenated in order.
pub open spec fn collect_exteriors(fs: Seq<FaceView>) -> Seq<Seq<Edge>>
    decreases fs.len(),
{
    if fs.len() == 0 {
        Seq::empty()
    } else {
        collect_exteriors(fs.drop_last()) + brep_exteriors(fs.last())
    }
}

/// All interior cycles of the given faces, concatenated in order.
pub open spec fn collect_interiors(fs: Seq<FaceView>) -> Seq<Seq<Edge>>
    decreases fs.len(),
{
    if fs.len() == 0 {
        Seq::empty()
    } else {
        collect_interiors(fs.drop_last()) + brep_interiors(fs.last())
    }
}

/// All exterior cycles of the given faces, each reversed, concatenated in
/// order.
pub open spec fn collect_reversed_exteriors(fs: Seq<FaceView>) -> Seq<Seq<Edge>>
    decreases fs.len(),
{
    if fs.len() == 0 {
        Seq::empty()
    } else {
        collect_reversed_exteriors(fs.drop_last()) + brep_exteriors(fs.last()).map_values(
            |es: Seq<Edge>| reverse_cycle_spec(es),
        )
    }
}

/// Whether every face of the list is boundary-defined on surface `s`.
pub open spec fn all_on_surface(fs: Seq<Face>, s: Surface) -> bool {
    forall|i: int|
        0 <= i < fs.len() ==> ((#[trigger] fs[i]) matches Face::Face(brep) && brep.surface == s)
}

/// Whether a face list chain holds a face value: exactly when the
/// accumulator does, or one of the faces has that value.
pub proof fn lemma_chain_faces_membership(acc: Seq<FaceView>, items: Seq<Face>, x: FaceView)
    ensures
        chain_faces(acc, items).contains(x) <==> acc.contains(x) || exists|i: int|
            0 <= i < items.len() && (#[trigger] items[i])@ == x,
    decreases items.len(),
{
    if items.len() == 0 {
    } else {
        lemma_chain_faces_membership(acc, items.drop_last(), x);
        crate::validate::lemma_merge_dedup_membership(
            chain_faces(acc, items.drop_last()),
            items.last().faces_spec(),
            x,
        );
        assert(items.last() == items[items.len() - 1]);
        assert(items.last().faces_spec() == seq![items.last()@]);
        assert(items.last().faces_spec().contains(x) <==> items.last()@ == x) by {
            if items.last()@ == x {
                assert(items.last().faces_spec()[0] == x);
            }
        }
        if chain_faces(acc, items).contains(x) && !acc.contains(x) && items.last()@ != x {
            let i = choose|i: int|
                0 <= i < items.drop_last().len() && (#[trigger] items.drop_last()[i])@ == x;
            assert(items[i]@ == x);
        }
        if exists|i: int| 0 <= i < items.len() && (#[trigger] items[i])@ == x {
            let i = choose|i: int| 0 <= i < items.len() && (#[trigger] items[i])@ == x;
            if i < items.len() - 1 {
                assert(items.drop_last()[i] == items[i]);
                assert((items.drop_last()[i])@ == x);
            }
        }
    }
}

/// Whether the difference face built from these boundaries passes
/// validation: every global vertex in range, no two distinct global
/// vertices closer than the minimum distance.
pub open spec fn difference_valid(
    exts: Seq<Seq<Edge>>,
    ints: Seq<Seq<Edge>>,
    config: ValidationConfig,
) -> bool {
    &&& forall|g: crate::objects::GlobalVertex|
        cycles_have_gv(exts, g) || cycles_have_gv(ints, g) ==> crate::math::pt3_in_range(
            g.position_spec(),
        )
    &&& forall|g1: crate::objects::GlobalVertex, g2: crate::objects::GlobalVertex|
        (cycles_have_gv(exts, g1) || cycles_have_gv(ints, g1)) && (cycles_have_gv(exts, g2)
            || cycles_have_gv(ints, g2)) && g1 != g2 ==> dist_sq(
            g1.position_spec(),
            g2.position_spec(),
        ) >= config.min_distance * config.min_distance
}

/// Collects the deduplicated faces of a list, as face values.
fn collect_faces(fs: &Vec<Face>) -> (r: Vec<Face>)
    ensures
        r@.len() == fs.faces_spec().len(),
        forall|m: int| 0 <= m < r@.len() ==> (#[trigger] r@[m])@ == fs.faces_spec()[m],
{
    let ghost afs = fs.faces_spec();
    let mut it = fs.face_iter();
    let mut out: Vec<Face> = Vec::new();
    proof {
        assert(afs.skip(0) =~= afs);
    }
    while it.remaining() > 0
        invariant
            out@.len() + it@.len() == afs.len(),
            forall|m: int| 0 <= m < out@.len() ==> (#[trigger] out@[m])@ == afs[m],
            it@ == afs.skip(out@.len() as int),
        decreases it@.len(),
    {
        let ghost k = out@.len() as int;
        let next = it.next();
        match next {
            None => {
                proof {
                    assert(false);
                }
            },
            Some(face) => {
                proof {
                    assert(afs.skip(k)[0] == afs[k]);
                    assert(afs.skip(k).drop_first() =~= afs.skip(k + 1));
                }
                out.push(face);
            },
        }
    }
    out
}

/// Computes the difference of two face collections lying on one common
/// surface: one face whose exterior cycles are those of `a`, and whose
/// interior cycles are the interior cycles of `a` followed by the
/// reversed exterior cycles of `b`. The subtrahend `b` must be wholly
/// contained in `a`'s footprint; that containment is a caller obligation
/// and is not checked here. The merged face is validated before it is
/// returned.
pub fn difference_2d(
    config: &ValidationConfig,
    a: Vec<Face>,
    b: Vec<Face>,
    color: Color,
) -> (r: Result<Validated<Vec<Face>>, ValidationError>)
    requires
        0 < config.min_distance <= COORD_LIMIT,
        crate::objects::faces_wf(a@),
        crate::objects::faces_wf(b@),
        a@.len() > 0 ==> (a@[0] matches Face::Face(first) && all_on_surface(a@, first.surface)
            && all_on_surface(b@, first.surface)),
    ensures
        a@.len() == 0 ==> (r matches Ok(v) && v.inner_spec()@.len() == 0),
        a@.len() > 0 ==> (r matches Ok(v) ==> v.inner_spec()@.len() == 1
            && v.inner_spec()@[0]@ == (FaceView::Brep {
            surface: a@[0]->Face_0.surface,
            exteriors: collect_exteriors(a.faces_spec()),
            interiors: collect_interiors(a.faces_spec()) + collect_reversed_exteriors(
                b.faces_spec(),
            ),
            color,
        })),
        a@.len() > 0 ==> (r is Ok <==> difference_valid(
            collect_exteriors(a.faces_spec()),
            collect_interiors(a.faces_spec()) + collect_reversed_exteriors(b.faces_spec()),
            *config,
        )),
{
    let ghost afs = a.faces_spec();
    let ghost bfs = b.faces_spec();
    let av = collect_faces(&a);
    let bv = collect_faces(&b);
    let mut difference: Vec<Face> = Vec::new();
    if av.len() == 0 {
        proof {
            if a@.len() > 0 {
                lemma_chain_faces_membership(Seq::<FaceView>::empty(), a@, a@[0]@);
                assert(afs.contains(a@[0]@));
            }
            assert(a@.len() == 0);
        }
        let r = validate(difference, config);
        proof {
            assert forall|g: crate::objects::GlobalVertex|
                !crate::validate::faces_have_gv(Seq::<Face>::empty(), g) by {}
        }
        return r;
    }
    proof {
        if a@.len() == 0 {
            assert(afs.len() == 0);
        }
        assert forall|m: int| 0 <= m < afs.len() implies ((#[trigger] afs[m]) matches
            FaceView::Brep { .. } && afs[m]->surface == a@[0]->Face_0.surface) by {
            assert(afs.contains(afs[m]));
            lemma_chain_faces_membership(Seq::<FaceView>::empty(), a@, afs[m]);
            let i = choose|i: int| 0 <= i < a@.len() && (#[trigger] a@[i])@ == afs[m];
            assert(a@[i] matches Face::Face(_));
        }
        assert forall|m: int| 0 <= m < bfs.len() implies ((#[trigger] bfs[m]) matches
            FaceView::Brep { .. } && bfs[m]->surface == a@[0]->Face_0.surface) by {
            assert(bfs.contains(bfs[m]));
            lemma_chain_faces_membership(Seq::<FaceView>::empty(), b@, bfs[m]);
            let i = choose|i: int| 0 <= i < b@.len() && (#[trigger] b@[i])@ == bfs[m];
            assert(b@[i] matches Face::Face(_));
        }
        assert forall|m: int| 0 <= m < afs.len() implies crate::objects::face_wf(
            #[trigger] av@[m],
        ) by {
            assert(afs.contains(afs[m]));
            lemma_chain_faces_membership(Seq::<FaceView>::empty(), a@, afs[m]);
            let i = choose|i: int| 0 <= i < a@.len() && (#[trigger] a@[i])@ == afs[m];
            assert(crate::objects::face_wf(a@[i]));
            lemma_face_wf_by_view(a@[i], av@[m]);
        }
        assert forall|m: int| 0 <= m < bfs.len() implies crate::objects::face_wf(
            #[trigger] bv@[m],
        ) by {
            assert(bfs.contains(bfs[m]));
            lemma_chain_faces_membership(Seq::<FaceView>::empty(), b@, bfs[m]);
            let i = choose|i: int| 0 <= i < b@.len() && (#[trigger] b@[i])@ == bfs[m];
            assert(crate::objects::face_wf(b@[i]));
            lemma_face_wf_by_view(b@[i], bv@[m]);
        }
    }
    let surface = match &av[0] {
        Face::Face(brep) => brep.surface,
        Face::Triangles(_) => {
            proof {
                assert(av@[0]@ == afs[0]);
                assert(false);
            }
            crate::objects::Surface::xy_plane()
        },
    };
    proof {
        assert(av@[0]@ == afs[0]);
        assert(surface == a@[0]->Face_0.surface);
    }
    let mut exteriors: Vec<Cycle> = Vec::new();
    let mut interiors: Vec<Cycle> = Vec::new();
    let na = av.len();
    let mut fi: usize = 0;
    proof {
        assert(afs.take(0) =~= Seq::<FaceView>::empty());
        assert(cycles_view(exteriors@) =~= collect_exteriors(afs.take(0)));
        assert(cycles_view(interiors@) =~= collect_interiors(afs.take(0)));
    }
    while fi < na
        invariant
            0 <= fi <= na,
            na == afs.len(),
            na == av@.len(),
            cycles_view(exteriors@) == collect_exteriors(afs.take(fi as int)),
            cycles_view(interiors@) == collect_interiors(afs.take(fi as int)),
        decreases na - fi,
    {
        let ghost fv = afs[fi as int];
        match &av[fi] {
            Face::Face(brep) => {
                proof {
                    assert(av@[fi as int]@ == fv);
                    assert(cycles_view(brep.exteriors@) == brep_exteriors(fv));
                    assert(cycles_view(brep.interiors@) == brep_interiors(fv));
                    assert(crate::objects::face_wf(av@[fi as int]));
                }
                let ne = brep.exteriors.len();
                let mut ci: usize = 0;
                proof {
                    assert(brep_exteriors(fv).take(0) =~= Seq::<Seq<Edge>>::empty());
                    assert(cycles_view(exteriors@) + brep_exteriors(fv).take(0) =~= cycles_view(
                        exteriors@,
                    ));
                }
                while ci < ne
                    invariant
                        0 <= ci <= ne,
                        ne == brep.exteriors@.len(),
                        cycles_view(exteriors@) == collect_exteriors(afs.take(fi as int))
                            + brep_exteriors(fv).take(ci as int),
                        cycles_view(brep.exteriors@) == brep_exteriors(fv),
                        crate::objects::face_wf(av@[fi as int]),
                        av@[fi as int] matches Face::Face(br) && br == *brep,
                    decreases ne - ci,
                {
                    proof {
                        assert(cycle_wf(brep.exteriors@[ci as int]));
                    }
                    let c = add_cycle(brep.exteriors[ci].duplicate(), false);
                    let ghost pe = exteriors@;
                    exteriors.push(c);
                    proof {
                        assert(cycles_view(pe.push(c)) =~= cycles_view(pe).push(c@));
                        assert(c@ == brep_exteriors(fv)[ci as int]);
                        assert(brep_exteriors(fv).take(ci as int + 1) =~= brep_exteriors(
                            fv,
                        ).take(ci as int).push(brep_exteriors(fv)[ci as int]));
                        assert(cycles_view(exteriors@) =~= collect_exteriors(afs.take(fi as int))
                            + brep_exteriors(fv).take(ci as int + 1));
                    }
                    ci = ci + 1;
                }
                let ni = brep.interiors.len();
                let mut di: usize = 0;
                proof {
                    assert(brep_exteriors(fv).take(ne as int) =~= brep_exteriors(fv));
                    assert(brep_interiors(fv).take(0) =~= Seq::<Seq<Edge>>::empty());
                    assert(cycles_view(interiors@) + brep_interiors(fv).take(0) =~= cycles_view(
                        interiors@,
                    ));
                }
                while di < ni
                    invariant
                        0 <= di <= ni,
                        ni == brep.interiors@.len(),
                        cycles_view(interiors@) == collect_interiors(afs.take(fi as int))
                            + brep_interiors(fv).take(di as int),
                        cycles_view(brep.interiors@) == brep_interiors(fv),
                        crate::objects::face_wf(av@[fi as int]),
                        av@[fi as int] matches Face::Face(br) && br == *brep,
                    decreases ni - di,
                {
                    proof {
                        assert(cycle_wf(brep.interiors@[di as int]));
                    }
                    let c = add_cycle(brep.interiors[di].duplicate(), false);
                    let ghost pe = interiors@;
                    interiors.push(c);
                    proof {
                        assert(cycles_view(pe.push(c)) =~= cycles_view(pe).push(c@));
                        assert(c@ == brep_interiors(fv)[di as int]);
                        assert(brep_interiors(fv).take(di as int + 1) =~= brep_interiors(
                            fv,
                        ).take(di as int).push(brep_interiors(fv)[di as int]));
                        assert(cycles_view(interiors@) =~= collect_interiors(afs.take(fi as int))
                            + brep_interiors(fv).take(di as int + 1));
                    }
                    di = di + 1;
                }
                proof {
                    assert(brep_interiors(fv).take(ni as int) =~= brep_interiors(fv));
                }
            },
            Face::Triangles(_) => {
                proof {
                    assert(av@[fi as int]@ == fv);
                    assert(false);
                }
            },
        }
        proof {
            assert(afs.take(fi as int + 1).drop_last() =~= afs.take(fi as int));
            assert(afs.take(fi as int + 1).last() == afs[fi as int]);
        }
        fi = fi + 1;
    }
    proof {
        assert(afs.take(na as int) =~= afs);
    }
    let nb = bv.len();
    let mut bi: usize = 0;
    proof {
        assert(bfs.take(0) =~= Seq::<FaceView>::empty());
        assert(cycles_view(interiors@) + collect_reversed_exteriors(bfs.take(0)) =~= cycles_view(
            interiors@,
        ));
    }
    while bi < nb
        invariant
            0 <= bi <= nb,
            nb == bfs.len(),
            nb == bv@.len(),
            cycles_view(exteriors@) == collect_exteriors(afs),
            cycles_view(interiors@) == collect_interiors(afs) + collect_reversed_exteriors(
                bfs.take(bi as int),
            ),
        decreases nb - bi,
    {
        let ghost fv = bfs[bi as int];
        match &bv[bi] {
            Face::Face(brep) => {
                proof {
                    assert(bv@[bi as int]@ == fv);
                    assert(cycles_view(brep.exteriors@) == brep_exteriors(fv));
                    assert(crate::objects::face_wf(bv@[bi as int]));
                }
                let ne = brep.exteriors.len();
                let mut ci: usize = 0;
                proof {
                    assert(brep_exteriors(fv).map_values(
                        |es: Seq<Edge>| reverse_cycle_spec(es),
                    ).take(0) =~= Seq::<Seq<Edge>>::empty());
                    assert(cycles_view(interiors@) + brep_exteriors(fv).map_values(
                        |es: Seq<Edge>| reverse_cycle_spec(es),
                    ).take(0) =~= cycles_view(interiors@));
                }
                while ci < ne
                    invariant
                        0 <= ci <= ne,
                        ne == brep.exteriors@.len(),
                        cycles_view(interiors@) == collect_interiors(afs)
                            + collect_reversed_exteriors(bfs.take(bi as int)) + brep_exteriors(
                            fv,
                        ).map_values(|es: Seq<Edge>| reverse_cycle_spec(es)).take(ci as int),
                        cycles_view(brep.exteriors@) == brep_exteriors(fv),
                        crate::objects::face_wf(bv@[bi as int]),
                        bv@[bi as int] matches Face::Face(br) && br == *brep,
                    decreases ne - ci,
                {
                    proof {
                        assert(cycle_wf(brep.exteriors@[ci as int]));
                    }
                    let c = add_cycle(brep.exteriors[ci].duplicate(), true);
                    let ghost pe = interiors@;
                    interiors.push(c);
                    proof {
                        let rev = brep_exteriors(fv).map_values(
                            |es: Seq<Edge>| reverse_cycle_spec(es),
                        );
                        assert(cycles_view(pe.push(c)) =~= cycles_view(pe).push(c@));
                        assert(c@ == reverse_cycle_spec(brep_exteriors(fv)[ci as int]));
                        assert(rev[ci as int] == reverse_cycle_spec(
                            brep_exteriors(fv)[ci as int],
                        ));
                        assert(rev.take(ci as int + 1) =~= rev.take(ci as int).push(
                            rev[ci as int],
                        ));
                        assert(cycles_view(interiors@) =~= collect_interiors(afs)
                            + collect_reversed_exteriors(bfs.take(bi as int)) + rev.take(
                            ci as int + 1,
                        ));
                    }
                    ci = ci + 1;
                }
                proof {
                    let rev = brep_exteriors(fv).map_values(
                        |es: Seq<Edge>| reverse_cycle_spec(es),
                    );
                    assert(rev.take(ne as int) =~= rev);
                }
            },
            Face::Triangles(_) => {
                proof {
                    assert(bv@[bi as int]@ == fv);
                    assert(false);
                }
            },
        }
        proof {
            assert(bfs.take(bi as int + 1).drop_last() =~= bfs.take(bi as int));
            assert(bfs.take(bi as int + 1).last() == bfs[bi as int]);
            assert(collect_interiors(afs) + collect_reversed_exteriors(bfs.take(bi as int + 1))
                =~= collect_interiors(afs) + collect_reversed_exteriors(bfs.take(bi as int))
                + brep_exteriors(bfs[bi as int]).map_values(
                |es: Seq<Edge>| reverse_cycle_spec(es),
            ));
        }
        bi = bi + 1;
    }
    proof {
        assert(bfs.take(nb as int) =~= bfs);
    }
    let ghost exts = collect_exteriors(afs);
    let ghost ints = collect_interiors(afs) + collect_reversed_exteriors(bfs);
    let new_face = Face::Face(FaceBRep { surface, exteriors, interiors, color });
    proof {
        assert(new_face@ == (FaceView::Brep { surface, exteriors: exts, interiors: ints, color }));
    }
    difference.push(new_face);
    let r = validate(difference, config);
    proof {
        let dv = difference@;
        assert(dv.len() == 1);
        assert forall|g: crate::objects::GlobalVertex|
            crate::validate::faces_have_gv(dv, g) <==> (cycles_have_gv(exts, g)
                || cycles_have_gv(ints, g)) by {
            if crate::validate::faces_have_gv(dv, g) {
                let i = choose|i: int|
                    0 <= i < dv.len() && crate::validate::face_has_gv((#[trigger] dv[i])@, g);
                assert(i == 0);
            }
            if cycles_have_gv(exts, g) || cycles_have_gv(ints, g) {
                assert(crate::validate::face_has_gv(dv[0]@, g));
            }
        }
    }
    r
}

/// Two faces with the same view are equally well-formed.
pub proof fn lemma_face_wf_by_view(a: Face, b: Face)
    requires
        crate::objects::face_wf(a),
        a@ == b@,
    ensures
        crate::objects::face_wf(b),
{
    match b {
        Face::Face(bb) => {
            match a {
                Face::Face(ab) => {
                    assert(cycles_view(ab.exteriors@) == cycles_view(bb.exteriors@));
                    assert(cycles_view(ab.interiors@) == cycles_view(bb.interiors@));
                    assert(cycles_view(ab.exteriors@).len() == ab.exteriors@.len());
                    assert(cycles_view(bb.exteriors@).len() == bb.exteriors@.len());
                    assert(cycles_view(ab.interiors@).len() == ab.interiors@.len());
                    assert(cycles_view(bb.interiors@).len() == bb.interiors@.len());
                    assert(ab.exteriors@.len() == bb.exteriors@.len());
                    assert(ab.interiors@.len() == bb.interiors@.len());
                    assert forall|i: int| 0 <= i < bb.exteriors@.len() implies cycle_wf(
                        #[trigger] bb.exteriors@[i],
                    ) by {
                        assert(cycles_view(ab.exteriors@)[i] == ab.exteriors@[i]@);
                        assert(cycles_view(bb.exteriors@)[i] == bb.exteriors@[i]@);
                        assert(ab.exteriors@[i].edges@ == bb.exteriors@[i].edges@);
                        assert(cycle_wf(ab.exteriors@[i]));
                        assert forall|j: int|
                            0 <= j < bb.exteriors@[i].edges@.len() implies edge_wf(
                            #[trigger] bb.exteriors@[i].edges@[j],
                        ) by {
                            assert(edge_wf(ab.exteriors@[i].edges@[j]));
                        }
                    }
                    assert forall|i: int| 0 <= i < bb.interiors@.len() implies cycle_wf(
                        #[trigger] bb.interiors@[i],
                    ) by {
                        assert(cycles_view(ab.interiors@)[i] == ab.interiors@[i]@);
                        assert(cycles_view(bb.interiors@)[i] == bb.interiors@[i]@);
                        assert(ab.interiors@[i].edges@ == bb.interiors@[i].edges@);
                        assert(cycle_wf(ab.interiors@[i]));
                        assert forall|j: int|
                            0 <= j < bb.interiors@[i].edges@.len() implies edge_wf(
                            #[trigger] bb.interiors@[i].edges@[j],
                        ) by {
                            assert(edge_wf(ab.interiors@[i].edges@[j]));
                        }
                    }
                },
                Face::Triangles(_) => {
                    assert(false);
                },
            }
        },
        Face::Triangles(ts) => {
            match a {
                Face::Face(_) => {
                    assert(false);
                },
                Face::Triangles(_) => {},
            }
        },
    }
}

} // verus!
