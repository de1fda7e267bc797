//! Processing shapes into meshes.
//!
//! The processor picks a tolerance — either the user-defined one, or a
//! default derived from the shape's bounding box — and triangulates the
//! shape's faces with it.

use vstd::prelude::*;

use crate::math::{pt3_in_range, Aabb};
use crate::objects::{faces_wf, Face};
use crate::tolerance::{InvalidTolerance, Tolerance};
use crate::triangulate::{triangulate, triangulate_spec, DebugInfo, Mesh};
use crate::validate::ValidationError;

verus! {

/// Processes face lists into meshes.
pub struct ShapeProcessor {
    /// The tolerance value used for creating the triangle mesh; when
    /// absent, a default is derived from the shape's bounding box.
    pub tolerance: Option<Tolerance>,
}

/// A processed shape.
pub struct ProcessedShape {
    /// The axis-aligned bounding box of the shape.
    pub aabb: Aabb,
    /// The triangle mesh that approximates the original shape.
    pub mesh: Mesh,
    /// The debug info generated while processing the shape.
    pub debug_info: DebugInfo,
}

/// A shape processing error.
#[derive(Clone, Copy, PartialEq, Eq, Structural, Debug)]
pub enum Error {
    /// Error converting to a shape.
    ToShape(ValidationError),
    /// The model has a zero size, so no default tolerance can be derived
    /// from it.
    Extent(InvalidTolerance),
}

/// The default tolerance scalar for a bounding box: the smallest positive
/// extent, divided by one thousand; zero when no extent is positive.
pub open spec fn default_tolerance_scalar(aabb: Aabb) -> int {
    let ex = aabb.max.x - aabb.min.x;
    let ey = aabb.max.y - aabb.min.y;
    let ez = aabb.max.z - aabb.min.z;
    let m1 = if ex > 0 {
        ex
    } else {
        0
    };
    let m2 = if ey > 0 && (m1 == 0 || ey < m1) {
        ey
    } else {
        m1
    };
    let m3 = if ez > 0 && (m2 == 0 || ez < m2) {
        ez
    } else {
        m2
    };
    m3 / 1000
}

impl ShapeProcessor {
    /// A processor with the given user-defined tolerance, if any. Fails
    /// exactly when a tolerance is given and is not positive.
    pub fn new(tolerance: Option<i64>) -> (r: Result<ShapeProcessor, InvalidTolerance>)
        ensures
            r is Ok <==> (tolerance matches Some(t) ==> t > 0),
            r is Ok ==> match tolerance {
                Some(t) => r->Ok_0.tolerance matches Some(tol) && tol.value() == t,
                None => r->Ok_0.tolerance is None,
            },
    {
        match tolerance {
            Some(t) => {
                let tol = Tolerance::from_scalar(t);
                match tol {
                    Ok(tol) => Ok(ShapeProcessor { tolerance: Some(tol) }),
                    Err(e) => Err(e),
                }
            },
            None => Ok(ShapeProcessor { tolerance: None }),
        }
    }

    /// Process a face list with the given bounding box into a mesh. When
    /// no tolerance was configured, a default is derived from the bounding
    /// box: the smallest positive extent divided by one thousand; that
    /// fails when the box has no usable extent.
    pub fn process(&self, faces: Vec<Face>, aabb: Aabb) -> (r: Result<ProcessedShape, Error>)
        requires
            faces_wf(faces@),
            pt3_in_range(aabb.min),
            pt3_in_range(aabb.max),
        ensures
            r is Ok <==> (self.tolerance is Some || default_tolerance_scalar(aabb) > 0),
            r is Ok ==> r->Ok_0.mesh@ == triangulate_spec(faces@) && r->Ok_0.aabb == aabb,
            r is Err ==> (r->Err_0 matches Error::Extent(e) && e.invalid_tolerance
                == default_tolerance_scalar(aabb)),
    {
        let tolerance = match self.tolerance {
            None => {
                let ex = aabb.max.x - aabb.min.x;
                let ey = aabb.max.y - aabb.min.y;
                let ez = aabb.max.z - aabb.min.z;
                let mut min_extent: i64 = 0;
                if ex > 0 {
                    min_extent = ex;
                }
                if ey > 0 && (min_extent == 0 || ey < min_extent) {
                    min_extent = ey;
                }
                if ez > 0 && (min_extent == 0 || ez < min_extent) {
                    min_extent = ez;
                }
                let scalar = min_extent / 1000;
                match Tolerance::from_scalar(scalar) {
                    Ok(tol) => tol,
                    Err(e) => {
                        return Err(Error::Extent(e));
                    },
                }
            },
            Some(user_defined_tolerance) => user_defined_tolerance,
        };
        let mut debug_info = DebugInfo::new();
        let mesh = triangulate(faces, tolerance, &mut debug_info);
        Ok(ProcessedShape { aabb, mesh, debug_info })
    }
}

} // verus!
