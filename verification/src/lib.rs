//! Dual-contouring style surface extraction over a sparse voxel grid.
//!
//! The library walks one grid edge at a time: it classifies whether the edge
//! crosses a material boundary, resolves the four voxels that circle the edge
//! into deduplicated samples, and assembles one or four triangles from them.

use vstd::prelude::*;

pub mod bounds;
pub mod edge;
pub mod laws;
mod geometry;
pub mod material;
pub mod polygon;
pub mod table;
pub mod voxel_storage;

pub use geometry::Point3;
pub use geometry::Vector3;

verus! {

} // verus!
