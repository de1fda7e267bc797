//! Iterating over the objects of a shape, or part of a shape.
//!
//! Every object kind can produce, for every other kind, the deduplicated,
//! order-stable sequence of all sub-objects of that kind reachable from it:
//! itself first where the kind matches, then each structurally owned child
//! in declaration order. Deduplication compares objects by their
//! mathematical value and keeps the first occurrence.

use std::collections::VecDeque;

use vstd::prelude::*;

use crate::objects::{Curve, Cycle, Edge, Face, FaceView, GlobalVertex, Surface, Vertex};

verus! {

/// Value comparison used to deduplicate objects during traversal.
pub trait ObjectEq: View + Sized {
    /// Decides whether two objects have the same mathematical value.
    fn same(&self, other: &Self) -> (r: bool)
        ensures
            r == (self@ == other@),
    ;
}

impl ObjectEq for Curve {
    fn same(&self, other: &Self) -> (r: bool) {
        *self == *other
    }
}

impl ObjectEq for Surface {
    fn same(&self, other: &Self) -> (r: bool) {
        *self == *other
    }
}

impl ObjectEq for GlobalVertex {
    fn same(&self, other: &Self) -> (r: bool) {
        *self == *other
    }
}

impl ObjectEq for Vertex {
    fn same(&self, other: &Self) -> (r: bool) {
        *self == *other
    }
}

impl ObjectEq for Edge {
    fn same(&self, other: &Self) -> (r: bool) {
        *self == *other
    }
}

impl ObjectEq for Cycle {
    fn same(&self, other: &Self) -> (r: bool) {
        if self.edges.len() != other.edges.len() {
            proof {
                assert(self@.len() != other@.len());
            }
            return false;
        }
        let n = self.edges.len();
        let mut i: usize = 0;
        while i < n
            invariant
                0 <= i <= n,
                n == self.edges@.len(),
                n == other.edges@.len(),
                forall|j: int| 0 <= j < i ==> self.edges@[j] == other.edges@[j],
            decreases n - i,
        {
            if !(self.edges[i] == other.edges[i]) {
                proof {
                    assert(self@[i as int] != other@[i as int]);
                }
                return false;
            }
            i = i + 1;
        }
        proof {
            assert(self@ =~= other@);
        }
        true
    }
}

/// Compares two cycle lists by value.
fn cycles_same(a: &Vec<Cycle>, b: &Vec<Cycle>) -> (r: bool)
    ensures
        r == (crate::objects::cycles_view(a@) == crate::objects::cycles_view(b@)),
{
    let ghost av = crate::objects::cycles_view(a@);
    let ghost bv = crate::objects::cycles_view(b@);
    if a.len() != b.len() {
        proof {
            assert(av.len() != bv.len());
        }
        return false;
    }
    let n = a.len();
    let mut i: usize = 0;
    while i < n
        invariant
            0 <= i <= n,
            n == a@.len(),
            n == b@.len(),
            forall|j: int| 0 <= j < i ==> #[trigger] a@[j]@ == b@[j]@,
        decreases n - i,
    {
        if !a[i].same(&b[i]) {
            proof {
                assert(av[i as int] != bv[i as int]);
            }
            return false;
        }
        i = i + 1;
    }
    proof {
        assert(av =~= bv);
    }
    true
}

impl ObjectEq for Face {
    fn same(&self, other: &Self) -> (r: bool) {
        match (self, other) {
            (Face::Face(a), Face::Face(b)) => {
                let r = a.surface == b.surface && a.color == b.color && cycles_same(
                    &a.exteriors,
                    &b.exteriors,
                ) && cycles_same(&a.interiors, &b.interiors);
                proof {
                    if r {
                        assert(self@ =~~= other@);
                    }
                }
                r
            },
            (Face::Triangles(a), Face::Triangles(b)) => {
                if a.len() != b.len() {
                    proof {
                        assert(self@->Triangles_0.len() != other@->Triangles_0.len());
                    }
                    return false;
                }
                let n = a.len();
                let mut i: usize = 0;
                while i < n
                    invariant
                        0 <= i <= n,
                        n == a@.len(),
                        n == b@.len(),
                        forall|j: int| 0 <= j < i ==> a@[j] == b@[j],
                    decreases n - i,
                {
                    let ta = a[i];
                    let tb = b[i];
                    if !(ta.0 == tb.0 && ta.1 == tb.1) {
                        proof {
                            assert(a@[i as int] != b@[i as int]);
                        }
                        return false;
                    }
                    i = i + 1;
                }
                proof {
                    assert(a@ =~= b@);
                    assert(self@ =~~= other@);
                }
                true
            },
            _ => false,
        }
    }
}

/// Appends the values of `rest` to `acc` in order, skipping every value
/// already present.
pub open spec fn merge_dedup<V>(acc: Seq<V>, rest: Seq<V>) -> Seq<V>
    decreases rest.len(),
{
    if rest.len() == 0 {
        acc
    } else {
        merge_dedup(
            if acc.contains(rest[0]) {
                acc
            } else {
                acc.push(rest[0])
            },
            rest.drop_first(),
        )
    }
}

/// An iterator over objects, produced by [`ObjectIters`]: a deduplicated,
/// order-stable queue of objects.
pub struct Iter<T> {
    objects: VecDeque<T>,
}

impl<T: View> View for Iter<T> {
    type V = Seq<T::V>;

    closed spec fn view(&self) -> Seq<T::V> {
        self.objects@.map_values(|t: T| t@)
    }
}

impl<T: View> Iter<T> {
    /// An iterator over nothing.
    pub fn empty() -> (r: Self)
        ensures
            r@ == Seq::<T::V>::empty(),
    {
        let r = Iter { objects: VecDeque::new() };
        proof {
            assert(r@ =~= Seq::<T::V>::empty());
        }
        r
    }

    /// An iterator over one object.
    pub fn from_object(object: T) -> (r: Self)
        ensures
            r@ == seq![object@],
    {
        let ghost ov = object@;
        let mut objects: VecDeque<T> = VecDeque::new();
        objects.push_back(object);
        let r = Iter { objects };
        proof {
            assert(r@ =~= seq![ov]);
        }
        r
    }

    /// The next object, front first.
    pub fn next(&mut self) -> (r: Option<T>)
        ensures
            old(self)@.len() == 0 ==> r is None && final(self)@ == old(self)@,
            old(self)@.len() > 0 ==> (r matches Some(object) && object@ == old(self)@[0]
                && final(self)@ == old(self)@.drop_first()),
    {
        let r = self.objects.pop_front();
        proof {
            if old(self)@.len() > 0 {
                assert(self@ =~= old(self)@.drop_first());
            } else {
                assert(self@ =~= old(self)@);
            }
        }
        r
    }

    /// How many objects are left, without consuming the iterator.
    pub fn remaining(&self) -> (r: usize)
        ensures
            r == self@.len(),
    {
        self.objects.len()
    }

    /// How many objects are left.
    pub fn count(self) -> (r: usize)
        ensures
            r == self@.len(),
    {
        self.objects.len()
    }
}

impl<T: ObjectEq> Iter<T> {
    /// Whether the iterator already holds an object with the value of
    /// `object`.
    fn contains_object(&self, object: &T) -> (r: bool)
        ensures
            r == self@.contains(object@),
    {
        let n = self.objects.len();
        let mut i: usize = 0;
        while i < n
            invariant
                0 <= i <= n,
                n == self.objects@.len(),
                forall|j: int| 0 <= j < i ==> self@[j] != object@,
            decreases n - i,
        {
            if self.objects[i].same(object) {
                proof {
                    assert(self@[i as int] == object@);
                }
                return true;
            }
            i = i + 1;
        }
        proof {
            assert(forall|j: int| 0 <= j < self@.len() ==> self@[j] != object@);
        }
        false
    }

    /// This iterator, followed by every object of `other` whose value it
    /// does not hold yet.
    pub fn with(self, other: Self) -> (r: Self)
        ensures
            r@ == merge_dedup(self@, other@),
    {
        let ghost target = merge_dedup(self@, other@);
        let mut iter = self;
        let mut rest = other;
        while rest.objects.len() > 0
            invariant
                merge_dedup(iter@, rest@) == target,
            decreases rest@.len(),
        {
            let ghost rest0 = rest@;
            let popped = rest.objects.pop_front();
            match popped {
                None => {
                    proof {
                        assert(false);
                    }
                },
                Some(object) => {
                    proof {
                        assert(rest0.len() > 0);
                        assert(rest0[0] == object@);
                        assert(rest@ =~= rest0.drop_first());
                    }
                    if iter.contains_object(&object) {
                        proof {
                            assert(merge_dedup(iter@, rest0) == merge_dedup(iter@, rest@));
                        }
                    } else {
                        let ghost iter0 = iter@;
                        iter.objects.push_back(object);
                        proof {
                            assert(iter@ =~= iter0.push(object@));
                            assert(merge_dedup(iter0, rest0) == merge_dedup(iter@, rest@));
                        }
                    }
                },
            }
        }
        iter
    }
}

/// Access to iterators over all objects of a shape, or part of one.
///
/// Implemented by every object kind. An implementation returns the object
/// itself, where the kind matches, followed by every other reachable object
/// of the asked-for kind, without duplicates, in discovery order.
pub trait ObjectIters {
    /// The curves reachable from this object, deduplicated, in order.
    spec fn curves_spec(&self) -> Seq<Curve>;

    /// The cycle values reachable from this object.
    spec fn cycles_spec(&self) -> Seq<Seq<Edge>>;

    /// The edges reachable from this object.
    spec fn edges_spec(&self) -> Seq<Edge>;

    /// The face values reachable from this object.
    spec fn faces_spec(&self) -> Seq<FaceView>;

    /// The global vertices reachable from this object.
    spec fn global_verts_spec(&self) -> Seq<GlobalVertex>;

    /// The surfaces reachable from this object.
    spec fn surfaces_spec(&self) -> Seq<Surface>;

    /// The vertices reachable from this object.
    spec fn verts_spec(&self) -> Seq<Vertex>;

    /// Iterate over all curves.
    fn curve_iter(&self) -> (r: Iter<Curve>)
        ensures
            r@ == self.curves_spec(),
    ;

    /// Iterate over all cycles.
    fn cycle_iter(&self) -> (r: Iter<Cycle>)
        ensures
            r@ == self.cycles_spec(),
    ;

    /// Iterate over all edges.
    fn edge_iter(&self) -> (r: Iter<Edge>)
        ensures
            r@ == self.edges_spec(),
    ;

    /// Iterate over all faces.
    fn face_iter(&self) -> (r: Iter<Face>)
        ensures
            r@ == self.faces_spec(),
    ;

    /// Iterate over all global vertices.
    fn global_vertex_iter(&self) -> (r: Iter<GlobalVertex>)
        ensures
            r@ == self.global_verts_spec(),
    ;

    /// Iterate over all surfaces.
    fn surface_iter(&self) -> (r: Iter<Surface>)
        ensures
            r@ == self.surfaces_spec(),
    ;

    /// Iterate over all vertices.
    fn vertex_iter(&self) -> (r: Iter<Vertex>)
        ensures
            r@ == self.verts_spec(),
    ;
}

/// The curves contributed by `items`, merged onto `acc` in order, without
/// duplicates.
pub open spec fn chain_curves<T: ObjectIters>(acc: Seq<Curve>, items: Seq<T>) -> Seq<Curve>
    decreases items.len(),
{
    if items.len() == 0 {
        acc
    } else {
        merge_dedup(chain_curves(acc, items.drop_last()), items.last().curves_spec())
    }
}

/// The cycle values contributed by `items`, merged onto `acc`.
pub open spec fn chain_cycles<T: ObjectIters>(acc: Seq<Seq<Edge>>, items: Seq<T>) -> Seq<
    Seq<Edge>,
>
    decreases items.len(),
{
    if items.len() == 0 {
        acc
    } else {
        merge_dedup(chain_cycles(acc, items.drop_last()), items.last().cycles_spec())
    }
}

/// The edges contributed by `items`, merged onto `acc`.
pub open spec fn chain_edges<T: ObjectIters>(acc: Seq<Edge>, items: Seq<T>) -> Seq<Edge>
    decreases items.len(),
{
    if items.len() == 0 {
        acc
    } else {
        merge_dedup(chain_edges(acc, items.drop_last()), items.last().edges_spec())
    }
}

/// The face values contributed by `items`, merged onto `acc`.
pub open spec fn chain_faces<T: ObjectIters>(acc: Seq<FaceView>, items: Seq<T>) -> Seq<FaceView>
    decreases items.len(),
{
    if items.len() == 0 {
        acc
    } else {
        merge_dedup(chain_faces(acc, items.drop_last()), items.last().faces_spec())
    }
}

/// The global vertices contributed by `items`, merged onto `acc`.
pub open spec fn chain_global_verts<T: ObjectIters>(
    acc: Seq<GlobalVertex>,
    items: Seq<T>,
) -> Seq<GlobalVertex>
    decreases items.len(),
{
    if items.len() == 0 {
        acc
    } else {
        merge_dedup(chain_global_verts(acc, items.drop_last()), items.last().global_verts_spec())
    }
}

/// The surfaces contributed by `items`, merged onto `acc`.
pub open spec fn chain_surfaces<T: ObjectIters>(acc: Seq<Surface>, items: Seq<T>) -> Seq<Surface>
    decreases items.len(),
{
    if items.len() == 0 {
        acc
    } else {
        merge_dedup(chain_surfaces(acc, items.drop_last()), items.last().surfaces_spec())
    }
}

/// The vertices contributed by `items`, merged onto `acc`.
pub open spec fn chain_verts<T: ObjectIters>(acc: Seq<Vertex>, items: Seq<T>) -> Seq<Vertex>
    decreases items.len(),
{
    if items.len() == 0 {
        acc
    } else {
        merge_dedup(chain_verts(acc, items.drop_last()), items.last().verts_spec())
    }
}

/// Merging a single value onto `acc` appends it unless it is present.
proof fn lemma_merge_single<V>(acc: Seq<V>, x: V)
    ensures
        merge_dedup(acc, seq![x]) == if acc.contains(x) {
            acc
        } else {
            acc.push(x)
        },
{
    let s = seq![x];
    let acc2 = if acc.contains(x) {
        acc
    } else {
        acc.push(x)
    };
    assert(s.drop_first() =~= Seq::<V>::empty());
    assert(merge_dedup(acc2, s.drop_first()) == acc2);
}

impl ObjectIters for Curve {
    open spec fn curves_spec(&self) -> Seq<Curve> {
        seq![*self]
    }

    open spec fn cycles_spec(&self) -> Seq<Seq<Edge>> {
        Seq::empty()
    }

    open spec fn edges_spec(&self) -> Seq<Edge> {
        Seq::empty()
    }

    open spec fn faces_spec(&self) -> Seq<FaceView> {
        Seq::empty()
    }

    open spec fn global_verts_spec(&self) -> Seq<GlobalVertex> {
        Seq::empty()
    }

    open spec fn surfaces_spec(&self) -> Seq<Surface> {
        Seq::empty()
    }

    open spec fn verts_spec(&self) -> Seq<Vertex> {
        Seq::empty()
    }

    fn curve_iter(&self) -> (r: Iter<Curve>) {
        Iter::from_object(*self)
    }

    fn cycle_iter(&self) -> (r: Iter<Cycle>) {
        Iter::empty()
    }

    fn edge_iter(&self) -> (r: Iter<Edge>) {
        Iter::empty()
    }

    fn face_iter(&self) -> (r: Iter<Face>) {
        Iter::empty()
    }

    fn global_vertex_iter(&self) -> (r: Iter<GlobalVertex>) {
        Iter::empty()
    }

    fn surface_iter(&self) -> (r: Iter<Surface>) {
        Iter::empty()
    }

    fn vertex_iter(&self) -> (r: Iter<Vertex>) {
        Iter::empty()
    }
}

impl ObjectIters for Surface {
    open spec fn curves_spec(&self) -> Seq<Curve> {
        Seq::empty()
    }

    open spec fn cycles_spec(&self) -> Seq<Seq<Edge>> {
        Seq::empty()
    }

    open spec fn edges_spec(&self) -> Seq<Edge> {
        Seq::empty()
    }

    open spec fn faces_spec(&self) -> Seq<FaceView> {
        Seq::empty()
    }

    open spec fn global_verts_spec(&self) -> Seq<GlobalVertex> {
        Seq::empty()
    }

    open spec fn surfaces_spec(&self) -> Seq<Surface> {
        seq![*self]
    }

    open spec fn verts_spec(&self) -> Seq<Vertex> {
        Seq::empty()
    }

    fn curve_iter(&self) -> (r: Iter<Curve>) {
        Iter::empty()
    }

    fn cycle_iter(&self) -> (r: Iter<Cycle>) {
        Iter::empty()
    }

    fn edge_iter(&self) -> (r: Iter<Edge>) {
        Iter::empty()
    }

    fn face_iter(&self) -> (r: Iter<Face>) {
        Iter::empty()
    }

    fn global_vertex_iter(&self) -> (r: Iter<GlobalVertex>) {
        Iter::empty()
    }

    fn surface_iter(&self) -> (r: Iter<Surface>) {
        Iter::from_object(*self)
    }

    fn vertex_iter(&self) -> (r: Iter<Vertex>) {
        Iter::empty()
    }
}

impl ObjectIters for GlobalVertex {
    open spec fn curves_spec(&self) -> Seq<Curve> {
        Seq::empty()
    }

    open spec fn cycles_spec(&self) -> Seq<Seq<Edge>> {
        Seq::empty()
    }

    open spec fn edges_spec(&self) -> Seq<Edge> {
        Seq::empty()
    }

    open spec fn faces_spec(&self) -> Seq<FaceView> {
        Seq::empty()
    }

    open spec fn global_verts_spec(&self) -> Seq<GlobalVertex> {
        seq![*self]
    }

    open spec fn surfaces_spec(&self) -> Seq<Surface> {
        Seq::empty()
    }

    open spec fn verts_spec(&self) -> Seq<Vertex> {
        Seq::empty()
    }

    fn curve_iter(&self) -> (r: Iter<Curve>) {
        Iter::empty()
    }

    fn cycle_iter(&self) -> (r: Iter<Cycle>) {
        Iter::empty()
    }

    fn edge_iter(&self) -> (r: Iter<Edge>) {
        Iter::empty()
    }

    fn face_iter(&self) -> (r: Iter<Face>) {
        Iter::empty()
    }

    fn global_vertex_iter(&self) -> (r: Iter<GlobalVertex>) {
        Iter::from_object(*self)
    }

    fn surface_iter(&self) -> (r: Iter<Surface>) {
        Iter::empty()
    }

    fn vertex_iter(&self) -> (r: Iter<Vertex>) {
        Iter::empty()
    }
}

impl ObjectIters for Vertex {
    open spec fn curves_spec(&self) -> Seq<Curve> {
        Seq::empty()
    }

    open spec fn cycles_spec(&self) -> Seq<Seq<Edge>> {
        Seq::empty()
    }

    open spec fn edges_spec(&self) -> Seq<Edge> {
        Seq::empty()
    }

    open spec fn faces_spec(&self) -> Seq<FaceView> {
        Seq::empty()
    }

    open spec fn global_verts_spec(&self) -> Seq<GlobalVertex> {
        seq![self.global]
    }

    open spec fn surfaces_spec(&self) -> Seq<Surface> {
        Seq::empty()
    }

    open spec fn verts_spec(&self) -> Seq<Vertex> {
        seq![*self]
    }

    fn curve_iter(&self) -> (r: Iter<Curve>) {
        Iter::empty()
    }

    fn cycle_iter(&self) -> (r: Iter<Cycle>) {
        Iter::empty()
    }

    fn edge_iter(&self) -> (r: Iter<Edge>) {
        Iter::empty()
    }

    fn face_iter(&self) -> (r: Iter<Face>) {
        Iter::empty()
    }

    fn global_vertex_iter(&self) -> (r: Iter<GlobalVertex>) {
        Iter::from_object(self.global())
    }

    fn surface_iter(&self) -> (r: Iter<Surface>) {
        Iter::empty()
    }

    fn vertex_iter(&self) -> (r: Iter<Vertex>) {
        Iter::from_object(*self)
    }
}

impl ObjectIters for Edge {
    open spec fn curves_spec(&self) -> Seq<Curve> {
        merge_dedup(Seq::empty(), seq![self.curve.canonical_spec()])
    }

    open spec fn cycles_spec(&self) -> Seq<Seq<Edge>> {
        Seq::empty()
    }

    open spec fn edges_spec(&self) -> Seq<Edge> {
        seq![*self]
    }

    open spec fn faces_spec(&self) -> Seq<FaceView> {
        Seq::empty()
    }

    open spec fn global_verts_spec(&self) -> Seq<GlobalVertex> {
        match self.vertices {
            None => Seq::empty(),
            Some(vs) => merge_dedup(
                merge_dedup(Seq::empty(), seq![vs.start.global]),
                seq![vs.finish.global],
            ),
        }
    }

    open spec fn surfaces_spec(&self) -> Seq<Surface> {
        Seq::empty()
    }

    open spec fn verts_spec(&self) -> Seq<Vertex> {
        match self.vertices {
            None => Seq::empty(),
            Some(vs) => merge_dedup(
                merge_dedup(Seq::empty(), seq![vs.start]),
                seq![vs.finish],
            ),
        }
    }

    fn curve_iter(&self) -> (r: Iter<Curve>) {
        let r = Iter::empty().with(Iter::from_object(self.curve()));
        proof {
            lemma_merge_single(Seq::<Curve>::empty(), self.curve.canonical_spec());
        }
        r
    }

    fn cycle_iter(&self) -> (r: Iter<Cycle>) {
        Iter::empty()
    }

    fn edge_iter(&self) -> (r: Iter<Edge>) {
        Iter::from_object(*self)
    }

    fn face_iter(&self) -> (r: Iter<Face>) {
        Iter::empty()
    }

    fn global_vertex_iter(&self) -> (r: Iter<GlobalVertex>) {
        match self.vertices {
            None => Iter::empty(),
            Some(vs) => {
                let r = Iter::empty().with(vs.start.global_vertex_iter()).with(
                    vs.finish.global_vertex_iter(),
                );
                proof {
                    lemma_merge_single(Seq::<GlobalVertex>::empty(), vs.start.global);
                    lemma_merge_single(
                        merge_dedup(Seq::<GlobalVertex>::empty(), seq![vs.start.global]),
                        vs.finish.global,
                    );
                }
                r
            },
        }
    }

    fn surface_iter(&self) -> (r: Iter<Surface>) {
        Iter::empty()
    }

    fn vertex_iter(&self) -> (r: Iter<Vertex>) {
        match self.vertices {
            None => Iter::empty(),
            Some(vs) => {
                let r = Iter::empty().with(vs.start.vertex_iter()).with(vs.finish.vertex_iter());
                proof {
                    lemma_merge_single(Seq::<Vertex>::empty(), vs.start);
                    lemma_merge_single(
                        merge_dedup(Seq::<Vertex>::empty(), seq![vs.start]),
                        vs.finish,
                    );
                }
                r
            },
        }
    }
}


/// Chains the curves of every item onto `start`, in order.
fn chain_curves_exec<T: ObjectIters>(start: Iter<Curve>, items: &Vec<T>) -> (r: Iter<Curve>)
    ensures
        r@ == chain_curves(start@, items@),
{
    let ghost start_view = start@;
    let mut iter = start;
    let n = items.len();
    let mut i: usize = 0;
    proof {
        assert(items@.take(0) =~= Seq::<T>::empty());
    }
    while i < n
        invariant
            0 <= i <= n,
            n == items@.len(),
            iter@ == chain_curves(start_view, items@.take(i as int)),
        decreases n - i,
    {
        let part = items[i].curve_iter();
        iter = iter.with(part);
        proof {
            assert(items@.take(i as int + 1).drop_last() =~= items@.take(i as int));
            assert(items@.take(i as int + 1).last() == items@[i as int]);
        }
        i = i + 1;
    }
    proof {
        assert(items@.take(n as int) =~= items@);
    }
    iter
}

/// Chains the cycles of every item onto `start`, in order.
fn chain_cycles_exec<T: ObjectIters>(start: Iter<Cycle>, items: &Vec<T>) -> (r: Iter<Cycle>)
    ensures
        r@ == chain_cycles(start@, items@),
{
    let ghost start_view = start@;
    let mut iter = start;
    let n = items.len();
    let mut i: usize = 0;
    proof {
        assert(items@.take(0) =~= Seq::<T>::empty());
    }
    while i < n
        invariant
            0 <= i <= n,
            n == items@.len(),
            iter@ == chain_cycles(start_view, items@.take(i as int)),
        decreases n - i,
    {
        let part = items[i].cycle_iter();
        iter = iter.with(part);
        proof {
            assert(items@.take(i as int + 1).drop_last() =~= items@.take(i as int));
            assert(items@.take(i as int + 1).last() == items@[i as int]);
        }
        i = i + 1;
    }
    proof {
        assert(items@.take(n as int) =~= items@);
    }
    iter
}

/// Chains the edges of every item onto `start`, in order.
fn chain_edges_exec<T: ObjectIters>(start: Iter<Edge>, items: &Vec<T>) -> (r: Iter<Edge>)
    ensures
        r@ == chain_edges(start@, items@),
{
    let ghost start_view = start@;
    let mut iter = start;
    let n = items.len();
    let mut i: usize = 0;
    proof {
        assert(items@.take(0) =~= Seq::<T>::empty());
    }
    while i < n
        invariant
            0 <= i <= n,
            n == items@.len(),
            iter@ == chain_edges(start_view, items@.take(i as int)),
        decreases n - i,
    {
        let part = items[i].edge_iter();
        iter = iter.with(part);
        proof {
            assert(items@.take(i as int + 1).drop_last() =~= items@.take(i as int));
            assert(items@.take(i as int + 1).last() == items@[i as int]);
        }
        i = i + 1;
    }
    proof {
        assert(items@.take(n as int) =~= items@);
    }
    iter
}

/// Chains the faces of every item onto `start`, in order.
fn chain_faces_exec<T: ObjectIters>(start: Iter<Face>, items: &Vec<T>) -> (r: Iter<Face>)
    ensures
        r@ == chain_faces(start@, items@),
{
    let ghost start_view = start@;
    let mut iter = start;
    let n = items.len();
    let mut i: usize = 0;
    proof {
        assert(items@.take(0) =~= Seq::<T>::empty());
    }
    while i < n
        invariant
            0 <= i <= n,
            n == items@.len(),
            iter@ == chain_faces(start_view, items@.take(i as int)),
        decreases n - i,
    {
        let part = items[i].face_iter();
        iter = iter.with(part);
        proof {
            assert(items@.take(i as int + 1).drop_last() =~= items@.take(i as int));
            assert(items@.take(i as int + 1).last() == items@[i as int]);
        }
        i = i + 1;
    }
    proof {
        assert(items@.take(n as int) =~= items@);
    }
    iter
}

/// Chains the global verts of every item onto `start`, in order.
fn chain_global_verts_exec<T: ObjectIters>(start: Iter<GlobalVertex>, items: &Vec<T>) -> (r: Iter<GlobalVertex>)
    ensures
        r@ == chain_global_verts(start@, items@),
{
    let ghost start_view = start@;
    let mut iter = start;
    let n = items.len();
    let mut i: usize = 0;
    proof {
        assert(items@.take(0) =~= Seq::<T>::empty());
    }
    while i < n
        invariant
            0 <= i <= n,
            n == items@.len(),
            iter@ == chain_global_verts(start_view, items@.take(i as int)),
        decreases n - i,
    {
        let part = items[i].global_vertex_iter();
        iter = iter.with(part);
        proof {
            assert(items@.take(i as int + 1).drop_last() =~= items@.take(i as int));
            assert(items@.take(i as int + 1).last() == items@[i as int]);
        }
        i = i + 1;
    }
    proof {
        assert(items@.take(n as int) =~= items@);
    }
    iter
}

/// Chains the surfaces of every item onto `start`, in order.
fn chain_surfaces_exec<T: ObjectIters>(start: Iter<Surface>, items: &Vec<T>) -> (r: Iter<Surface>)
    ensures
        r@ == chain_surfaces(start@, items@),
{
    let ghost start_view = start@;
    let mut iter = start;
    let n = items.len();
    let mut i: usize = 0;
    proof {
        assert(items@.take(0) =~= Seq::<T>::empty());
    }
    while i < n
        invariant
            0 <= i <= n,
            n == items@.len(),
            iter@ == chain_surfaces(start_view, items@.take(i as int)),
        decreases n - i,
    {
        let part = items[i].surface_iter();
        iter = iter.with(part);
        proof {
            assert(items@.take(i as int + 1).drop_last() =~= items@.take(i as int));
            assert(items@.take(i as int + 1).last() == items@[i as int]);
        }
        i = i + 1;
    }
    proof {
        assert(items@.take(n as int) =~= items@);
    }
    iter
}

/// Chains the verts of every item onto `start`, in order.
fn chain_verts_exec<T: ObjectIters>(start: Iter<Vertex>, items: &Vec<T>) -> (r: Iter<Vertex>)
    ensures
        r@ == chain_verts(start@, items@),
{
    let ghost start_view = start@;
    let mut iter = start;
    let n = items.len();
    let mut i: usize = 0;
    proof {
        assert(items@.take(0) =~= Seq::<T>::empty());
    }
    while i < n
        invariant
            0 <= i <= n,
            n == items@.len(),
            iter@ == chain_verts(start_view, items@.take(i as int)),
        decreases n - i,
    {
        let part = items[i].vertex_iter();
        iter = iter.with(part);
        proof {
            assert(items@.take(i as int + 1).drop_last() =~= items@.take(i as int));
            assert(items@.take(i as int + 1).last() == items@[i as int]);
        }
        i = i + 1;
    }
    proof {
        assert(items@.take(n as int) =~= items@);
    }
    iter
}

impl ObjectIters for Cycle {
    open spec fn curves_spec(&self) -> Seq<Curve> {
        chain_curves(Seq::empty(), self.edges@)
    }

    open spec fn cycles_spec(&self) -> Seq<Seq<Edge>> {
        seq![self@]
    }

    open spec fn edges_spec(&self) -> Seq<Edge> {
        chain_edges(Seq::empty(), self.edges@)
    }

    open spec fn faces_spec(&self) -> Seq<FaceView> {
        chain_faces(Seq::empty(), self.edges@)
    }

    open spec fn global_verts_spec(&self) -> Seq<GlobalVertex> {
        chain_global_verts(Seq::empty(), self.edges@)
    }

    open spec fn surfaces_spec(&self) -> Seq<Surface> {
        chain_surfaces(Seq::empty(), self.edges@)
    }

    open spec fn verts_spec(&self) -> Seq<Vertex> {
        chain_verts(Seq::empty(), self.edges@)
    }

    fn curve_iter(&self) -> (r: Iter<Curve>) {
        chain_curves_exec(Iter::empty(), &self.edges)
    }

    fn cycle_iter(&self) -> (r: Iter<Cycle>) {
        Iter::from_object(self.duplicate())
    }

    fn edge_iter(&self) -> (r: Iter<Edge>) {
        chain_edges_exec(Iter::empty(), &self.edges)
    }

    fn face_iter(&self) -> (r: Iter<Face>) {
        chain_faces_exec(Iter::empty(), &self.edges)
    }

    fn global_vertex_iter(&self) -> (r: Iter<GlobalVertex>) {
        chain_global_verts_exec(Iter::empty(), &self.edges)
    }

    fn surface_iter(&self) -> (r: Iter<Surface>) {
        chain_surfaces_exec(Iter::empty(), &self.edges)
    }

    fn vertex_iter(&self) -> (r: Iter<Vertex>) {
        chain_verts_exec(Iter::empty(), &self.edges)
    }
}

impl ObjectIters for Face {
    open spec fn curves_spec(&self) -> Seq<Curve> {
        match self {
            Face::Face(brep) => chain_curves(chain_curves(merge_dedup(Seq::empty(), brep.surface.curves_spec()), brep.exteriors@), brep.interiors@),
            Face::Triangles(ts) => Seq::empty(),
        }
    }

    open spec fn cycles_spec(&self) -> Seq<Seq<Edge>> {
        match self {
            Face::Face(brep) => chain_cycles(chain_cycles(merge_dedup(Seq::empty(), brep.surface.cycles_spec()), brep.exteriors@), brep.interiors@),
            Face::Triangles(ts) => Seq::empty(),
        }
    }

    open spec fn edges_spec(&self) -> Seq<Edge> {
        match self {
            Face::Face(brep) => chain_edges(chain_edges(merge_dedup(Seq::empty(), brep.surface.edges_spec()), brep.exteriors@), brep.interiors@),
            Face::Triangles(ts) => Seq::empty(),
        }
    }

    open spec fn faces_spec(&self) -> Seq<FaceView> {
        seq![self@]
    }

    open spec fn global_verts_spec(&self) -> Seq<GlobalVertex> {
        match self {
            Face::Face(brep) => chain_global_verts(chain_global_verts(merge_dedup(Seq::empty(), brep.surface.global_verts_spec()), brep.exteriors@), brep.interiors@),
            Face::Triangles(ts) => Seq::empty(),
        }
    }

    open spec fn surfaces_spec(&self) -> Seq<Surface> {
        match self {
            Face::Face(brep) => chain_surfaces(chain_surfaces(merge_dedup(Seq::empty(), brep.surface.surfaces_spec()), brep.exteriors@), brep.interiors@),
            Face::Triangles(ts) => Seq::empty(),
        }
    }

    open spec fn verts_spec(&self) -> Seq<Vertex> {
        match self {
            Face::Face(brep) => chain_verts(chain_verts(merge_dedup(Seq::empty(), brep.surface.verts_spec()), brep.exteriors@), brep.interiors@),
            Face::Triangles(ts) => Seq::empty(),
        }
    }

    fn curve_iter(&self) -> (r: Iter<Curve>) {
        match self {
            Face::Face(brep) => {
                let start = Iter::empty().with(brep.surface.curve_iter());
                let outer = chain_curves_exec(start, &brep.exteriors);
                chain_curves_exec(outer, &brep.interiors)
            },
            Face::Triangles(_) => Iter::empty(),
        }
    }

    fn cycle_iter(&self) -> (r: Iter<Cycle>) {
        match self {
            Face::Face(brep) => {
                let start = Iter::empty().with(brep.surface.cycle_iter());
                let outer = chain_cycles_exec(start, &brep.exteriors);
                chain_cycles_exec(outer, &brep.interiors)
            },
            Face::Triangles(_) => Iter::empty(),
        }
    }

    fn edge_iter(&self) -> (r: Iter<Edge>) {
        match self {
            Face::Face(brep) => {
                let start = Iter::empty().with(brep.surface.edge_iter());
                let outer = chain_edges_exec(start, &brep.exteriors);
                chain_edges_exec(outer, &brep.interiors)
            },
            Face::Triangles(_) => Iter::empty(),
        }
    }

    fn face_iter(&self) -> (r: Iter<Face>) {
        Iter::from_object(self.duplicate())
    }

    fn global_vertex_iter(&self) -> (r: Iter<GlobalVertex>) {
        match self {
            Face::Face(brep) => {
                let start = Iter::empty().with(brep.surface.global_vertex_iter());
                let outer = chain_global_verts_exec(start, &brep.exteriors);
                chain_global_verts_exec(outer, &brep.interiors)
            },
            Face::Triangles(_) => Iter::empty(),
        }
    }

    fn surface_iter(&self) -> (r: Iter<Surface>) {
        match self {
            Face::Face(brep) => {
                let start = Iter::empty().with(brep.surface.surface_iter());
                let outer = chain_surfaces_exec(start, &brep.exteriors);
                chain_surfaces_exec(outer, &brep.interiors)
            },
            Face::Triangles(_) => Iter::empty(),
        }
    }

    fn vertex_iter(&self) -> (r: Iter<Vertex>) {
        match self {
            Face::Face(brep) => {
                let start = Iter::empty().with(brep.surface.vertex_iter());
                let outer = chain_verts_exec(start, &brep.exteriors);
                chain_verts_exec(outer, &brep.interiors)
            },
            Face::Triangles(_) => Iter::empty(),
        }
    }
}

impl<T: ObjectIters> ObjectIters for Vec<T> {
    open spec fn curves_spec(&self) -> Seq<Curve> {
        chain_curves(Seq::empty(), self@)
    }

    open spec fn cycles_spec(&self) -> Seq<Seq<Edge>> {
        chain_cycles(Seq::empty(), self@)
    }

    open spec fn edges_spec(&self) -> Seq<Edge> {
        chain_edges(Seq::empty(), self@)
    }

    open spec fn faces_spec(&self) -> Seq<FaceView> {
        chain_faces(Seq::empty(), self@)
    }

    open spec fn global_verts_spec(&self) -> Seq<GlobalVertex> {
        chain_global_verts(Seq::empty(), self@)
    }

    open spec fn surfaces_spec(&self) -> Seq<Surface> {
        chain_surfaces(Seq::empty(), self@)
    }

    open spec fn verts_spec(&self) -> Seq<Vertex> {
        chain_verts(Seq::empty(), self@)
    }

    fn curve_iter(&self) -> (r: Iter<Curve>) {
        chain_curves_exec(Iter::empty(), self)
    }

    fn cycle_iter(&self) -> (r: Iter<Cycle>) {
        chain_cycles_exec(Iter::empty(), self)
    }

    fn edge_iter(&self) -> (r: Iter<Edge>) {
        chain_edges_exec(Iter::empty(), self)
    }

    fn face_iter(&self) -> (r: Iter<Face>) {
        chain_faces_exec(Iter::empty(), self)
    }

    fn global_vertex_iter(&self) -> (r: Iter<GlobalVertex>) {
        chain_global_verts_exec(Iter::empty(), self)
    }

    fn surface_iter(&self) -> (r: Iter<Surface>) {
        chain_surfaces_exec(Iter::empty(), self)
    }

    fn vertex_iter(&self) -> (r: Iter<Vertex>) {
        chain_verts_exec(Iter::empty(), self)
    }
}


/// Merging with deduplication never introduces a duplicate: when the
/// accumulator holds no value twice, neither does the merged sequence.
pub proof fn lemma_merge_dedup_no_duplicates<V>(acc: Seq<V>, rest: Seq<V>)
    requires
        acc.no_duplicates(),
    ensures
        merge_dedup(acc, rest).no_duplicates(),
    decreases rest.len(),
{
    if rest.len() == 0 {
    } else {
        let acc2 = if acc.contains(rest[0]) {
            acc
        } else {
            acc.push(rest[0])
        };
        assert(acc2.no_duplicates()) by {
            if !acc.contains(rest[0]) {
                assert forall|i: int, j: int|
                    0 <= i < j < acc2.len() implies acc2[i] != acc2[j] by {
                    if j < acc.len() {
                        assert(acc[i] != acc[j]);
                    } else {
                        assert(acc2[j] == rest[0]);
                        assert(acc2[i] == acc[i]);
                        if acc[i] == rest[0] {
                            assert(acc.contains(rest[0]));
                        }
                    }
                }
            }
        }
        lemma_merge_dedup_no_duplicates(acc2, rest.drop_first());
    }
}

/// A traversal chain yields each curve value at most once.
pub proof fn lemma_chain_curves_no_duplicates<T: ObjectIters>(acc: Seq<Curve>, items: Seq<T>)
    requires
        acc.no_duplicates(),
    ensures
        chain_curves(acc, items).no_duplicates(),
    decreases items.len(),
{
    if items.len() == 0 {
    } else {
        lemma_chain_curves_no_duplicates(acc, items.drop_last());
        lemma_merge_dedup_no_duplicates(
            chain_curves(acc, items.drop_last()),
            items.last().curves_spec(),
        );
    }
}

/// A traversal chain yields each cycle value at most once.
pub proof fn lemma_chain_cycles_no_duplicates<T: ObjectIters>(acc: Seq<Seq<Edge>>, items: Seq<T>)
    requires
        acc.no_duplicates(),
    ensures
        chain_cycles(acc, items).no_duplicates(),
    decreases items.len(),
{
    if items.len() == 0 {
    } else {
        lemma_chain_cycles_no_duplicates(acc, items.drop_last());
        lemma_merge_dedup_no_duplicates(
            chain_cycles(acc, items.drop_last()),
            items.last().cycles_spec(),
        );
    }
}

/// A traversal chain yields each edge value at most once.
pub proof fn lemma_chain_edges_no_duplicates<T: ObjectIters>(acc: Seq<Edge>, items: Seq<T>)
    requires
        acc.no_duplicates(),
    ensures
        chain_edges(acc, items).no_duplicates(),
    decreases items.len(),
{
    if items.len() == 0 {
    } else {
        lemma_chain_edges_no_duplicates(acc, items.drop_last());
        lemma_merge_dedup_no_duplicates(
            chain_edges(acc, items.drop_last()),
            items.last().edges_spec(),
        );
    }
}

/// A traversal chain yields each face value at most once.
pub proof fn lemma_chain_faces_no_duplicates<T: ObjectIters>(acc: Seq<FaceView>, items: Seq<T>)
    requires
        acc.no_duplicates(),
    ensures
        chain_faces(acc, items).no_duplicates(),
    decreases items.len(),
{
    if items.len() == 0 {
    } else {
        lemma_chain_faces_no_duplicates(acc, items.drop_last());
        lemma_merge_dedup_no_duplicates(
            chain_faces(acc, items.drop_last()),
            items.last().faces_spec(),
        );
    }
}

/// A traversal chain yields each global vert value at most once.
pub proof fn lemma_chain_global_verts_no_duplicates<T: ObjectIters>(acc: Seq<GlobalVertex>, items: Seq<T>)
    requires
        acc.no_duplicates(),
    ensures
        chain_global_verts(acc, items).no_duplicates(),
    decreases items.len(),
{
    if items.len() == 0 {
    } else {
        lemma_chain_global_verts_no_duplicates(acc, items.drop_last());
        lemma_merge_dedup_no_duplicates(
            chain_global_verts(acc, items.drop_last()),
            items.last().global_verts_spec(),
        );
    }
}

/// A traversal chain yields each surface value at most once.
pub proof fn lemma_chain_surfaces_no_duplicates<T: ObjectIters>(acc: Seq<Surface>, items: Seq<T>)
    requires
        acc.no_duplicates(),
    ensures
        chain_surfaces(acc, items).no_duplicates(),
    decreases items.len(),
{
    if items.len() == 0 {
    } else {
        lemma_chain_surfaces_no_duplicates(acc, items.drop_last());
        lemma_merge_dedup_no_duplicates(
            chain_surfaces(acc, items.drop_last()),
            items.last().surfaces_spec(),
        );
    }
}

/// A traversal chain yields each vert value at most once.
pub proof fn lemma_chain_verts_no_duplicates<T: ObjectIters>(acc: Seq<Vertex>, items: Seq<T>)
    requires
        acc.no_duplicates(),
    ensures
        chain_verts(acc, items).no_duplicates(),
    decreases items.len(),
{
    if items.len() == 0 {
    } else {
        lemma_chain_verts_no_duplicates(acc, items.drop_last());
        lemma_merge_dedup_no_duplicates(
            chain_verts(acc, items.drop_last()),
            items.last().verts_spec(),
        );
    }
}

} // verus!
