//! Axis-aligned grid cells.
//!
//! A cell is identified by integer coordinates and a log2 size exponent:
//! the cell `(x, y, z, lg_size)` covers, along each axis, the half-open run
//! of `2^lg_size` unit cells starting at `coordinate * 2^lg_size`. A coarser
//! cell may therefore contain a finer one; `contains` decides that relation,
//! which is what lets a storage backend answer a fine query with data for a
//! larger encompassing region.

use vstd::prelude::*;

verus! {

/// An axis-aligned grid cell: integer coordinates at scale `2^lg_size`.
#[derive(Clone, Copy, Debug, PartialEq, Eq, Hash, Structural)]
pub struct T {
    pub x: i32,
    pub y: i32,
    pub z: i32,
    pub lg_size: i16,
}

/// Build the cell with the given coordinates and log2 size.
pub fn new(x: i32, y: i32, z: i32, lg_size: i16) -> (r: T)
    ensures
        r == (T { x, y, z, lg_size }),
{
    T { x, y, z, lg_size }
}

/// Along one axis: does the run of `pow2(d)` fine cells starting at
/// `coarse * pow2(d)` cover the fine coordinate `fine`?
pub open spec fn covers_axis(coarse: int, fine: int, d: nat) -> bool {
    coarse * pow2_int(d) <= fine < (coarse + 1) * pow2_int(d)
}

/// `2^e` as a mathematical integer.
pub open spec fn pow2_int(e: nat) -> int {
    vstd::arithmetic::power2::pow2(e) as int
}

impl T {
    /// `self` contains `other`: `self` is at least as coarse, and on every
    /// axis the span of `self` covers the coordinate of `other`.
    pub open spec fn contains_spec(self, other: T) -> bool {
        &&& self.lg_size >= other.lg_size
        &&& covers_axis(self.x as int, other.x as int, (self.lg_size - other.lg_size) as nat)
        &&& covers_axis(self.y as int, other.y as int, (self.lg_size - other.lg_size) as nat)
        &&& covers_axis(self.z as int, other.z as int, (self.lg_size - other.lg_size) as nat)
    }

    /// Whether this cell contains `other` (possibly at a finer scale).
    pub fn contains(&self, other: &T) -> (r: bool)
        ensures
            r == self.contains_spec(*other),
    {
        if self.lg_size < other.lg_size {
            return false;
        }
        let d: u32 = (self.lg_size as i32 - other.lg_size as i32) as u32;
        axis_covers(self.x, other.x, d) && axis_covers(self.y, other.y, d) && axis_covers(
            self.z,
            other.z,
            d,
        )
    }
}

/// `2^d` for `d <= 31`, as an `i64`.
fn pow2_i64(d: u32) -> (r: i64)
    requires
        d <= 31,
    ensures
        r as int == pow2_int(d as nat),
        1 <= r <= 0x8000_0000i64,
{
    let mut p: i64 = 1;
    let mut i: u32 = 0;
    proof {
        vstd::arithmetic::power2::lemma2_to64();
    }
    while i < d
        invariant
            0 <= i <= d,
            d <= 31,
            p as int == pow2_int(i as nat),
            1 <= p <= 0x8000_0000i64,
        decreases d - i,
    {
        proof {
            vstd::arithmetic::power2::lemma2_to64();
            vstd::arithmetic::power2::lemma_pow2_adds(i as nat, 1);
            if (i as nat) < 31 {
                vstd::arithmetic::power2::lemma_pow2_strictly_increases(i as nat, 31);
            }
        }
        p = p * 2;
        i = i + 1;
    }
    p
}

/// Decide `covers_axis(coarse, fine, d)` for `i32` coordinates.
fn axis_covers(coarse: i32, fine: i32, d: u32) -> (r: bool)
    ensures
        r == covers_axis(coarse as int, fine as int, d as nat),
{
    if d >= 32 {
        proof {
            vstd::arithmetic::power2::lemma2_to64();
            vstd::arithmetic::power2::lemma_pow2_strictly_increases(31, d as nat);
            let pp = pow2_int(d as nat);
            assert(pp > 0x8000_0000);
            assert(0 * pp == 0 && 1 * pp == pp && (-1) * pp == -pp) by (nonlinear_arith);
            if coarse >= 1 {
                vstd::arithmetic::mul::lemma_mul_inequality(1, coarse as int, pp);
            }
            if coarse <= -2 {
                vstd::arithmetic::mul::lemma_mul_inequality(coarse as int + 1, -1, pp);
            }
        }
        (coarse == 0 && fine >= 0) || (coarse == -1 && fine < 0)
    } else {
        let p: i64 = pow2_i64(d);
        proof {
            let c = coarse as int;
            let pp = p as int;
            assert(c * pp <= 0x8000_0000 * 0x8000_0000 && c * pp >= -0x8000_0000
                * 0x8000_0000) by (nonlinear_arith)
                requires
                    -0x8000_0000 <= c <= 0x8000_0000,
                    1 <= pp <= 0x8000_0000,
            ;
            assert((c + 1) * pp == c * pp + pp) by (nonlinear_arith);
        }
        let lo: i64 = (coarse as i64) * p;
        lo <= (fine as i64) && (fine as i64) < lo + p
    }
}

} // verus!
