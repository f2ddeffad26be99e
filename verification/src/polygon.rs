//! The output triangle type.

use vstd::prelude::*;

use crate::geometry::Point3;
use crate::geometry::Vector3;

verus! {

/// The polygon type produced by this algorithm: three vertices with
/// per-vertex normals, tagged with the material of the crossed surface.
#[derive(Clone, Copy, Debug, PartialEq, Eq, Hash)]
pub struct T<Material> {
    pub vertices: [Point3; 3],
    pub normals: [Vector3; 3],
    pub material: Material,
}

} // verus!
