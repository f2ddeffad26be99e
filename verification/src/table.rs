//! A small in-memory storage backend.
//!
//! Entries pair a queried cell with its answer; lookup returns the first
//! entry for the queried cell. A voxel-data entry only counts if its
//! answer's bounds contain the queried cell, which is what the storage
//! interface promises of every backend. This backend both grounds the two
//! capability traits and gives callers a concrete storage to drive
//! extraction with.

use vstd::prelude::*;

use crate::bounds;
use crate::material;
use crate::voxel_storage;
use crate::voxel_storage::VoxelData;

verus! {

/// A material with an identity and an opacity flag. Two materials are equal
/// when both agree.
#[derive(Clone, Copy, Debug, PartialEq, Eq, Hash, Structural)]
pub struct Material {
    pub id: u32,
    pub opaque: bool,
}

impl material::T for Material {
    open spec fn eq_spec(&self, other: &Self) -> bool {
        self.id == other.id && self.opaque == other.opaque
    }

    open spec fn opaque_spec(&self) -> bool {
        self.opaque
    }

    fn eq_mat(&self, other: &Self) -> (r: bool) {
        self.id == other.id && self.opaque == other.opaque
    }

    fn is_opaque(&self) -> (r: bool) {
        self.opaque
    }

    fn dup(&self) -> (r: Self) {
        Material { id: self.id, opaque: self.opaque }
    }
}

/// The first material entry for cell `b`, if any.
pub open spec fn material_lookup(entries: Seq<(bounds::T, Material)>, b: bounds::T) -> Option<
    Material,
>
    decreases entries.len(),
{
    if entries.len() == 0 {
        Option::None
    } else if entries[0].0 == b {
        Option::Some(entries[0].1)
    } else {
        material_lookup(entries.skip(1), b)
    }
}

/// The first voxel-data entry for cell `b` whose answer's bounds contain
/// `b`, if any.
pub open spec fn voxel_lookup(entries: Seq<(bounds::T, VoxelData)>, b: bounds::T) -> Option<
    VoxelData,
>
    decreases entries.len(),
{
    if entries.len() == 0 {
        Option::None
    } else if entries[0].0 == b && entries[0].1.bounds.contains_spec(b) {
        Option::Some(entries[0].1)
    } else {
        voxel_lookup(entries.skip(1), b)
    }
}

/// An in-memory storage backend answering from two entry tables.
#[derive(Debug)]
pub struct Voxels {
    pub materials: Vec<(bounds::T, Material)>,
    pub voxels: Vec<(bounds::T, VoxelData)>,
}

impl Voxels {
    /// A backend with no entries: every query is unresolved.
    pub fn new() -> (r: Voxels)
        ensures
            r.materials@ == Seq::<(bounds::T, Material)>::empty(),
            r.voxels@ == Seq::<(bounds::T, VoxelData)>::empty(),
    {
        Voxels { materials: Vec::new(), voxels: Vec::new() }
    }
}

impl voxel_storage::T<Material> for Voxels {
    open spec fn material_at(&self, voxel: bounds::T) -> Option<Material> {
        material_lookup(self.materials@, voxel)
    }

    open spec fn data_at(&self, voxel: bounds::T) -> Option<VoxelData> {
        voxel_lookup(self.voxels@, voxel)
    }

    fn get_material(&mut self, voxel: &bounds::T) -> (r: Option<Material>) {
        let mut j: usize = 0;
        proof {
            assert(self.materials@.skip(0) =~= self.materials@);
        }
        while j < self.materials.len()
            invariant
                j <= self.materials@.len(),
                material_lookup(self.materials@.skip(j as int), *voxel) == material_lookup(
                    self.materials@,
                    *voxel,
                ),
            decreases self.materials@.len() - j,
        {
            proof {
                assert(self.materials@.skip(j as int)[0] == self.materials@[j as int]);
                assert(self.materials@.skip(j as int).skip(1) =~= self.materials@.skip(
                    j as int + 1,
                ));
            }
            if self.materials[j].0 == *voxel {
                return Option::Some(self.materials[j].1);
            }
            j += 1;
        }
        proof {
            assert(self.materials@.skip(self.materials@.len() as int) =~= Seq::<
                (bounds::T, Material),
            >::empty());
        }
        Option::None
    }

    fn get_voxel_data(&mut self, voxel: &bounds::T) -> (r: Option<VoxelData>) {
        let mut j: usize = 0;
        proof {
            assert(self.voxels@.skip(0) =~= self.voxels@);
        }
        while j < self.voxels.len()
            invariant
                j <= self.voxels@.len(),
                voxel_lookup(self.voxels@.skip(j as int), *voxel) == voxel_lookup(
                    self.voxels@,
                    *voxel,
                ),
            decreases self.voxels@.len() - j,
        {
            proof {
                assert(self.voxels@.skip(j as int)[0] == self.voxels@[j as int]);
                assert(self.voxels@.skip(j as int).skip(1) =~= self.voxels@.skip(j as int + 1));
            }
            if self.voxels[j].0 == *voxel {
                let d = self.voxels[j].1;
                if d.bounds.contains(voxel) {
                    return Option::Some(d);
                }
            }
            j += 1;
        }
        proof {
            assert(self.voxels@.skip(self.voxels@.len() as int) =~= Seq::<
                (bounds::T, VoxelData),
            >::empty());
        }
        Option::None
    }
}

} // verus!