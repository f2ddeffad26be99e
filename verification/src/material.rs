//! The capability contract for materials.
//!
//! The extraction algorithm needs exactly two things from a material: an
//! equality test and an opacity query. Both come with specification-level
//! counterparts so that the crossing classifier's contract can speak about
//! them; `dup` lets the algorithm tag several output polygons with one
//! classified material.

use vstd::prelude::*;

verus! {

/// The functionality required from materials by this algorithm.
pub trait T: Sized {
    /// What equality of two materials means.
    spec fn eq_spec(&self, other: &Self) -> bool;

    /// Whether this material counts as opaque.
    spec fn opaque_spec(&self) -> bool;

    /// Decide equality of two materials.
    fn eq_mat(&self, other: &Self) -> (r: bool)
        ensures
            r == self.eq_spec(other),
    ;

    /// Is this material opaque?
    fn is_opaque(&self) -> (r: bool)
        ensures
            r == self.opaque_spec(),
    ;

    /// An exact copy of this material.
    fn dup(&self) -> (r: Self)
        ensures
            r == *self,
    ;
}

} // verus!
