//! Integer sample geometry: grid-space points and normals.
//!
//! Sample positions and normals are carried as integer triples (callers pick
//! the fixed-point scale). The only arithmetic the extraction algorithm does
//! on them is the four-way average that places the centre vertex of a quad.

use vstd::prelude::*;

verus! {

/// A sampled position, as an integer triple.
#[derive(Clone, Copy, Debug, PartialEq, Eq, Hash, Structural)]
pub struct Point3 {
    pub x: i32,
    pub y: i32,
    pub z: i32,
}

/// A (not necessarily unit) normal, as an integer triple.
#[derive(Clone, Copy, Debug, PartialEq, Eq, Hash, Structural)]
pub struct Vector3 {
    pub x: i32,
    pub y: i32,
    pub z: i32,
}

/// The floor of the arithmetic mean of four integers.
pub open spec fn avg4(a: int, b: int, c: int, d: int) -> int {
    (a + b + c + d) / 4
}

/// The unweighted average of four sample points, componentwise, rounded down.
pub open spec fn point_avg4(p0: Point3, p1: Point3, p2: Point3, p3: Point3) -> Point3 {
    Point3 {
        x: avg4(p0.x as int, p1.x as int, p2.x as int, p3.x as int) as i32,
        y: avg4(p0.y as int, p1.y as int, p2.y as int, p3.y as int) as i32,
        z: avg4(p0.z as int, p1.z as int, p2.z as int, p3.z as int) as i32,
    }
}

/// The unweighted average of four normals, componentwise, rounded down.
pub open spec fn vector_avg4(n0: Vector3, n1: Vector3, n2: Vector3, n3: Vector3) -> Vector3 {
    Vector3 {
        x: avg4(n0.x as int, n1.x as int, n2.x as int, n3.x as int) as i32,
        y: avg4(n0.y as int, n1.y as int, n2.y as int, n3.y as int) as i32,
        z: avg4(n0.z as int, n1.z as int, n2.z as int, n3.z as int) as i32,
    }
}

proof fn lemma_avg4_fits_i32(a: int, b: int, c: int, d: int)
    requires
        i32::MIN <= a <= i32::MAX,
        i32::MIN <= b <= i32::MAX,
        i32::MIN <= c <= i32::MAX,
        i32::MIN <= d <= i32::MAX,
    ensures
        i32::MIN <= avg4(a, b, c, d) <= i32::MAX,
{
    let s = a + b + c + d;
    assert(4 * (i32::MIN as int) <= s <= 4 * (i32::MAX as int));
    vstd::arithmetic::div_mod::lemma_div_is_ordered(4 * (i32::MIN as int), s, 4);
    vstd::arithmetic::div_mod::lemma_div_is_ordered(s, 4 * (i32::MAX as int), 4);
    vstd::arithmetic::div_mod::lemma_div_multiples_vanish(i32::MIN as int, 4);
    vstd::arithmetic::div_mod::lemma_div_multiples_vanish(i32::MAX as int, 4);
}

/// The floor of the arithmetic mean of four `i32` values.
fn avg4_i32(a: i32, b: i32, c: i32, d: i32) -> (r: i32)
    ensures
        r as int == avg4(a as int, b as int, c as int, d as int),
{
    let s: i64 = a as i64 + b as i64 + c as i64 + d as i64;
    proof {
        lemma_avg4_fits_i32(a as int, b as int, c as int, d as int);
    }
    match s.checked_div_euclid(4) {
        Some(q) => q as i32,
        None => vstd::pervasive::unreached(),
    }
}

impl Point3 {
    /// Build a point from its components.
    pub fn new(x: i32, y: i32, z: i32) -> (r: Point3)
        ensures
            r == (Point3 { x, y, z }),
    {
        Point3 { x, y, z }
    }

    /// The unweighted average of four sample points (componentwise floor).
    pub fn avg4(p0: Point3, p1: Point3, p2: Point3, p3: Point3) -> (r: Point3)
        ensures
            r == point_avg4(p0, p1, p2, p3),
    {
        Point3 {
            x: avg4_i32(p0.x, p1.x, p2.x, p3.x),
            y: avg4_i32(p0.y, p1.y, p2.y, p3.y),
            z: avg4_i32(p0.z, p1.z, p2.z, p3.z),
        }
    }
}

impl Vector3 {
    /// Build a vector from its components.
    pub fn new(x: i32, y: i32, z: i32) -> (r: Vector3)
        ensures
            r == (Vector3 { x, y, z }),
    {
        Vector3 { x, y, z }
    }

    /// The unweighted average of four normals (componentwise floor).
    pub fn avg4(n0: Vector3, n1: Vector3, n2: Vector3, n3: Vector3) -> (r: Vector3)
        ensures
            r == vector_avg4(n0, n1, n2, n3),
    {
        Vector3 {
            x: avg4_i32(n0.x, n1.x, n2.x, n3.x),
            y: avg4_i32(n0.y, n1.y, n2.y, n3.y),
            z: avg4_i32(n0.z, n1.z, n2.z, n3.z),
        }
    }
}

} // verus!
