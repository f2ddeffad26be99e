//! The capability contract for voxel storage backends.
//!
//! A backend answers two questions about a grid cell: which material occupies
//! it, and which sampled vertex/normal describes it. Either answer may be
//! absent (the region is not resolved yet). A backend may mutate itself while
//! answering (for instance to cache), but the answers themselves are a fixed
//! function of the backend's contents: both methods promise that every later
//! query would still get the same answer. That is what makes a whole
//! extraction a function of the backend's state at the moment it started.

use vstd::prelude::*;

use crate::bounds;
use crate::geometry::Point3;
use crate::geometry::Vector3;
use crate::material;

verus! {

/// A sampled vertex and normal, together with the cell they were resolved
/// against. That cell may be coarser than the one that was asked about;
/// reporting it back is what lets the caller detect that two queries were
/// answered by one encompassing region.
#[derive(Clone, Copy, Debug, PartialEq, Eq, Hash, Structural)]
pub struct VoxelData {
    pub bounds: bounds::T,
    pub vertex: Point3,
    pub normal: Vector3,
}

/// The voxel storage interface required by dual contouring.
pub trait T<Material: material::T> {
    /// The material answer this backend would give for a cell.
    spec fn material_at(&self, voxel: bounds::T) -> Option<Material>;

    /// The voxel-data answer this backend would give for a cell.
    spec fn data_at(&self, voxel: bounds::T) -> Option<VoxelData>;

    /// The material occupying (at least) the queried cell, or `None` if the
    /// region is unresolved.
    fn get_material(&mut self, voxel: &bounds::T) -> (r: Option<Material>)
        ensures
            r == old(self).material_at(*voxel),
            forall|b: bounds::T| final(self).material_at(b) == old(self).material_at(b),
            forall|b: bounds::T| final(self).data_at(b) == old(self).data_at(b),
    ;

    /// The data for the given voxel, or `None` if the region is unresolved.
    /// The returned bounds must contain the queried bounds; they may be
    /// coarser.
    fn get_voxel_data(&mut self, voxel: &bounds::T) -> (r: Option<VoxelData>)
        ensures
            r == old(self).data_at(*voxel),
            r matches Some(d) ==> d.bounds.contains_spec(*voxel),
            forall|b: bounds::T| final(self).material_at(b) == old(self).material_at(b),
            forall|b: bounds::T| final(self).data_at(b) == old(self).data_at(b),
    ;
}

} // verus!
