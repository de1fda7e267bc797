//! A boundary-representation (B-rep) geometry kernel.
//!
//! Solids and sketches are modelled as graphs of topological objects
//! (surfaces, curves, vertices, edges, cycles, faces) over exact integer
//! coordinates. The kernel transforms face graphs affinely, subtracts 2D
//! boundaries from one another, and converts boundary representations into
//! triangle meshes by approximating boundaries into polylines, triangulating
//! the resulting point set, and filtering triangles by polygon containment.

#![verifier::loop_isolation(false)]

pub mod approx;
pub mod delaunay;
pub mod difference;
pub mod iter;
pub mod math;
pub mod objects;
pub mod processor;
pub mod registry;
pub mod tolerance;
pub mod transform;
pub mod triangulate;
pub mod validate;

