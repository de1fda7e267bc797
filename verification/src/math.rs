//! Exact integer coordinate types and geometric predicates.
//!
//! All coordinates are integers within `COORD_LIMIT`. The bound leaves enough
//! headroom that every predicate in the kernel (orientation, circumcircle
//! membership, ray crossings) can be evaluated exactly in 128-bit integers.

use vstd::prelude::*;

verus! {

/// Largest magnitude a coordinate may have.
pub const COORD_LIMIT: i64 = 1_000_000;

/// Largest magnitude a curve parameter may have.
pub const PARAM_LIMIT: i64 = 1_000_000;

/// Largest magnitude an entry of a transform may have.
pub const TRANSFORM_LIMIT: i64 = 1_000_000;

/// Bound on the coordinates that the exact predicates accept. Wide enough for
/// triangle centroids scaled by three and for curve direction components.
pub const PREDICATE_LIMIT: i64 = 16_000_000;

/// A point in some 2-dimensional parameter space (surface coordinates).
#[derive(Clone, Copy, PartialEq, Eq, Structural, Debug)]
pub struct Point2 {
    pub u: i64,
    pub v: i64,
}

/// A displacement in a 2-dimensional parameter space.
#[derive(Clone, Copy, PartialEq, Eq, Structural, Debug)]
pub struct Vector2 {
    pub u: i64,
    pub v: i64,
}

/// A point in ambient 3-dimensional space.
#[derive(Clone, Copy, PartialEq, Eq, Structural, Debug)]
pub struct Point3 {
    pub x: i64,
    pub y: i64,
    pub z: i64,
}

/// A displacement in ambient 3-dimensional space.
#[derive(Clone, Copy, PartialEq, Eq, Structural, Debug)]
pub struct Vector3 {
    pub x: i64,
    pub y: i64,
    pub z: i64,
}

/// A triangle in ambient space.
#[derive(Clone, Copy, PartialEq, Eq, Structural, Debug)]
pub struct Triangle3 {
    pub a: Point3,
    pub b: Point3,
    pub c: Point3,
}

/// An RGBA color attached to a face and to the triangles made from it.
#[derive(Clone, Copy, PartialEq, Eq, Structural, Debug)]
pub struct Color {
    pub r: u8,
    pub g: u8,
    pub b: u8,
    pub alpha: u8,
}

/// An axis-aligned bounding box in ambient space.
#[derive(Clone, Copy, PartialEq, Eq, Structural, Debug)]
pub struct Aabb {
    pub min: Point3,
    pub max: Point3,
}

pub open spec fn pt2_in_range(p: Point2) -> bool {
    -COORD_LIMIT <= p.u <= COORD_LIMIT && -COORD_LIMIT <= p.v <= COORD_LIMIT
}

pub open spec fn pt3_in_range(p: Point3) -> bool {
    -COORD_LIMIT <= p.x <= COORD_LIMIT && -COORD_LIMIT <= p.y <= COORD_LIMIT
        && -COORD_LIMIT <= p.z <= COORD_LIMIT
}

pub open spec fn pt2_in_predicate_range(p: Point2) -> bool {
    -PREDICATE_LIMIT <= p.u <= PREDICATE_LIMIT && -PREDICATE_LIMIT <= p.v <= PREDICATE_LIMIT
}

/// Twice the signed area of the triangle `a`, `b`, `c`, positive when the
/// three points wind counter-clockwise.
pub open spec fn orient2(a: Point2, b: Point2, c: Point2) -> int {
    (b.u - a.u) * (c.v - a.v) - (b.v - a.v) * (c.u - a.u)
}

/// The circumcircle determinant for query point `d` against the
/// counter-clockwise triangle `a`, `b`, `c`: positive exactly when `d` lies
/// strictly inside the circle through `a`, `b` and `c`.
pub open spec fn in_circle_det(a: Point2, b: Point2, c: Point2, d: Point2) -> int {
    let adx = a.u - d.u;
    let ady = a.v - d.v;
    let bdx = b.u - d.u;
    let bdy = b.v - d.v;
    let cdx = c.u - d.u;
    let cdy = c.v - d.v;
    let wa = adx * adx + ady * ady;
    let wb = bdx * bdx + bdy * bdy;
    let wc = cdx * cdx + cdy * cdy;
    wa * (bdx * cdy - bdy * cdx) - wb * (adx * cdy - ady * cdx) + wc * (adx * bdy - ady * bdx)
}

/// Exact product of two bounded 128-bit integers.
pub(crate) fn mul_wide(a: i128, b: i128) -> (r: i128)
    requires
        -0x2000_0000_0000_0000 <= a <= 0x2000_0000_0000_0000,
        -0x2000_0000_0000_0000 <= b <= 0x2000_0000_0000_0000,
    ensures
        r == a * b,
        -0x4000000000000000000000000000000 <= r <= 0x4000000000000000000000000000000,
{
    proof {
        assert(-0x4000000000000000000000000000000 <= a * b
            <= 0x4000000000000000000000000000000) by (nonlinear_arith)
            requires
                -0x2000_0000_0000_0000 <= a <= 0x2000_0000_0000_0000,
                -0x2000_0000_0000_0000 <= b <= 0x2000_0000_0000_0000,
        ;
    }
    a * b
}

/// Exact product of two small 128-bit integers, with a tight bound on the
/// result so that sums and differences of such products stay small.
pub(crate) fn mul_small(a: i128, b: i128) -> (r: i128)
    requires
        -0x4000_0000 <= a <= 0x4000_0000,
        -0x4000_0000 <= b <= 0x4000_0000,
    ensures
        r == a * b,
        -0x1000_0000_0000_0000 <= r <= 0x1000_0000_0000_0000,
{
    proof {
        assert(-0x1000_0000_0000_0000 <= a * b <= 0x1000_0000_0000_0000) by (nonlinear_arith)
            requires
                -0x4000_0000 <= a <= 0x4000_0000,
                -0x4000_0000 <= b <= 0x4000_0000,
        ;
    }
    a * b
}

/// Evaluates `orient2` exactly.
pub fn orient2_exec(a: &Point2, b: &Point2, c: &Point2) -> (r: i128)
    requires
        pt2_in_predicate_range(*a),
        pt2_in_predicate_range(*b),
        pt2_in_predicate_range(*c),
    ensures
        r == orient2(*a, *b, *c),
        -0x4000000000000000000000000000000 * 2 <= r <= 0x4000000000000000000000000000000 * 2,
{
    let bu = b.u as i128 - a.u as i128;
    let bv = b.v as i128 - a.v as i128;
    let cu = c.u as i128 - a.u as i128;
    let cv = c.v as i128 - a.v as i128;
    mul_small(bu, cv) - mul_small(bv, cu)
}

/// Evaluates `in_circle_det` exactly.
pub fn in_circle_det_exec(a: &Point2, b: &Point2, c: &Point2, d: &Point2) -> (r: i128)
    requires
        pt2_in_predicate_range(*a),
        pt2_in_predicate_range(*b),
        pt2_in_predicate_range(*c),
        pt2_in_predicate_range(*d),
    ensures
        r == in_circle_det(*a, *b, *c, *d),
{
    let adx = a.u as i128 - d.u as i128;
    let ady = a.v as i128 - d.v as i128;
    let bdx = b.u as i128 - d.u as i128;
    let bdy = b.v as i128 - d.v as i128;
    let cdx = c.u as i128 - d.u as i128;
    let cdy = c.v as i128 - d.v as i128;
    let wa = mul_small(adx, adx) + mul_small(ady, ady);
    let wb = mul_small(bdx, bdx) + mul_small(bdy, bdy);
    let wc = mul_small(cdx, cdx) + mul_small(cdy, cdy);
    let ma = mul_small(bdx, cdy) - mul_small(bdy, cdx);
    let mb = mul_small(adx, cdy) - mul_small(ady, cdx);
    let mc = mul_small(adx, bdy) - mul_small(ady, bdx);
    mul_wide(wa, ma) - mul_wide(wb, mb) + mul_wide(wc, mc)
}

impl Aabb {
    /// The smallest box containing `self` and `other`.
    pub fn merged(&self, other: &Aabb) -> (r: Aabb)
        ensures
            r == merged_spec(*self, *other),
    {
        Aabb {
            min: Point3 {
                x: if self.min.x <= other.min.x { self.min.x } else { other.min.x },
                y: if self.min.y <= other.min.y { self.min.y } else { other.min.y },
                z: if self.min.z <= other.min.z { self.min.z } else { other.min.z },
            },
            max: Point3 {
                x: if self.max.x >= other.max.x { self.max.x } else { other.max.x },
                y: if self.max.y >= other.max.y { self.max.y } else { other.max.y },
                z: if self.max.z >= other.max.z { self.max.z } else { other.max.z },
            },
        }
    }

    /// The box moved by `path`.
    pub fn translated(&self, path: &Vector3) -> (r: Aabb)
        requires
            pt3_in_range(self.min),
            pt3_in_range(self.max),
            -COORD_LIMIT <= path.x <= COORD_LIMIT,
            -COORD_LIMIT <= path.y <= COORD_LIMIT,
            -COORD_LIMIT <= path.z <= COORD_LIMIT,
        ensures
            r == translated_spec(*self, *path),
    {
        Aabb {
            min: Point3 {
                x: self.min.x + path.x,
                y: self.min.y + path.y,
                z: self.min.z + path.z,
            },
            max: Point3 {
                x: self.max.x + path.x,
                y: self.max.y + path.y,
                z: self.max.z + path.z,
            },
        }
    }
}

pub open spec fn merged_spec(a: Aabb, b: Aabb) -> Aabb {
    Aabb {
        min: Point3 {
            x: if a.min.x <= b.min.x { a.min.x } else { b.min.x },
            y: if a.min.y <= b.min.y { a.min.y } else { b.min.y },
            z: if a.min.z <= b.min.z { a.min.z } else { b.min.z },
        },
        max: Point3 {
            x: if a.max.x >= b.max.x { a.max.x } else { b.max.x },
            y: if a.max.y >= b.max.y { a.max.y } else { b.max.y },
            z: if a.max.z >= b.max.z { a.max.z } else { b.max.z },
        },
    }
}

pub open spec fn translated_spec(a: Aabb, path: Vector3) -> Aabb {
    Aabb {
        min: Point3 {
            x: (a.min.x + path.x) as i64,
            y: (a.min.y + path.y) as i64,
            z: (a.min.z + path.z) as i64,
        },
        max: Point3 {
            x: (a.max.x + path.x) as i64,
            y: (a.max.y + path.y) as i64,
            z: (a.max.z + path.z) as i64,
        },
    }
}

/// Conservative bounding volume of a sweep of `base` along `path`: the base
/// box merged with the base box moved to the far end of the path.
pub fn swept_bounding_volume(base: &Aabb, path: &Vector3) -> (r: Aabb)
    requires
        pt3_in_range(base.min),
        pt3_in_range(base.max),
        -COORD_LIMIT <= path.x <= COORD_LIMIT,
        -COORD_LIMIT <= path.y <= COORD_LIMIT,
        -COORD_LIMIT <= path.z <= COORD_LIMIT,
    ensures
        r == merged_spec(*base, translated_spec(*base, *path)),
{
    let moved = base.translated(path);
    base.merged(&moved)
}

} // verus!
