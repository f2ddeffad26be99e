//! Edge classification and polygon extraction.
//!
//! An edge sits between two adjacent grid cells of the same size along one
//! axis. `extract` classifies the edge (does it cross a material boundary,
//! and which side is inside), resolves the four cells that circle the edge
//! into deduplicated samples, and emits one or four triangles.

use vstd::prelude::*;

use crate::bounds;
use crate::geometry::Point3;
use crate::geometry::Vector3;
use crate::geometry::point_avg4;
use crate::geometry::vector_avg4;
use crate::material;
use crate::polygon;
use crate::voxel_storage;

verus! {

/// One of the three grid axes.
#[derive(Debug, Clone, Copy, PartialEq, Eq, Hash, Structural)]
pub enum Direction {
    X,
    Y,
    Z,
}

/// A grid edge: the segment between the cell at `low_corner` and the next
/// cell along `direction`, both of size `2^lg_size`. Coordinates are in
/// units of the edge's own size.
#[derive(Debug, Clone, PartialEq, Eq, Hash, Structural)]
pub struct T {
    pub low_corner: Point3,
    pub lg_size: i16,
    pub direction: Direction,
}

impl T {
    /// The low corner stays one step clear of the `i32` range ends, so the
    /// unit offsets to the edge's corner and circling cells cannot overflow.
    pub open spec fn wf(self) -> bool {
        &&& i32::MIN < self.low_corner.x < i32::MAX
        &&& i32::MIN < self.low_corner.y < i32::MAX
        &&& i32::MIN < self.low_corner.z < i32::MAX
    }
}

/// The unit offset from the edge's low corner to its high corner.
pub open spec fn axis_offset(d: Direction) -> Vector3 {
    match d {
        Direction::X => Vector3 { x: 1i32, y: 0i32, z: 0i32 },
        Direction::Y => Vector3 { x: 0i32, y: 1i32, z: 0i32 },
        Direction::Z => Vector3 { x: 0i32, y: 0i32, z: 1i32 },
    }
}

/// The two unit offsets perpendicular to the edge, in the order that fixes
/// the winding of the emitted polygons.
pub open spec fn perp_offsets(d: Direction) -> (Vector3, Vector3) {
    match d {
        Direction::X => (Vector3 { x: 0i32, y: 0i32, z: -1i32 }, Vector3 { x: 0i32, y: -1i32, z: 0i32 }),
        Direction::Y => (Vector3 { x: -1i32, y: 0i32, z: 0i32 }, Vector3 { x: 0i32, y: 0i32, z: -1i32 }),
        Direction::Z => (Vector3 { x: 0i32, y: -1i32, z: 0i32 }, Vector3 { x: -1i32, y: 0i32, z: 0i32 }),
    }
}

/// The cell of the edge's size whose coordinates are the point's, offset by
/// the given unit vector (components in `-1..=1`).
pub open spec fn cell_at(p: Point3, off: Vector3, lg_size: i16) -> bounds::T {
    bounds::T {
        x: (p.x + off.x) as i32,
        y: (p.y + off.y) as i32,
        z: (p.z + off.z) as i32,
        lg_size,
    }
}

/// The two cells on either side of the edge along its axis.
pub open spec fn corner_bounds_spec(edge: T) -> (bounds::T, bounds::T) {
    (
        cell_at(edge.low_corner, Vector3 { x: 0i32, y: 0i32, z: 0i32 }, edge.lg_size),
        cell_at(edge.low_corner, axis_offset(edge.direction), edge.lg_size),
    )
}

/// The four cells that circle the edge, walked as a quad: low corner, then
/// one step along each perpendicular offset in turn. This order becomes the
/// winding of the emitted triangles.
pub open spec fn neighbors_spec(edge: T) -> Seq<bounds::T> {
    let (v1, v2) = perp_offsets(edge.direction);
    seq![
        cell_at(edge.low_corner, Vector3 { x: 0i32, y: 0i32, z: 0i32 }, edge.lg_size),
        cell_at(edge.low_corner, v1, edge.lg_size),
        cell_at(
            edge.low_corner,
            Vector3 { x: (v1.x + v2.x) as i32, y: (v1.y + v2.y) as i32, z: (v1.z + v2.z) as i32 },
            edge.lg_size,
        ),
        cell_at(edge.low_corner, v2, edge.lg_size),
    ]
}

/// The two grid cells immediately on either side of the edge along its axis.
pub fn corner_bounds(edge: &T) -> (r: [bounds::T; 2])
    requires
        edge.wf(),
    ensures
        r[0] == corner_bounds_spec(*edge).0,
        r[1] == corner_bounds_spec(*edge).1,
{
    let p = edge.low_corner;
    let (dx, dy, dz): (i32, i32, i32) = match edge.direction {
        Direction::X => (1, 0, 0),
        Direction::Y => (0, 1, 0),
        Direction::Z => (0, 0, 1),
    };
    [
        bounds::new(p.x, p.y, p.z, edge.lg_size),
        bounds::new(p.x + dx, p.y + dy, p.z + dz, edge.lg_size),
    ]
}

/// The four cells that circle the edge, in quad-walk order.
pub fn neighbors(edge: &T) -> (r: [bounds::T; 4])
    requires
        edge.wf(),
    ensures
        r@ == neighbors_spec(*edge),
{
    let p = edge.low_corner;
    let ((x1, y1, z1), (x2, y2, z2)): ((i32, i32, i32), (i32, i32, i32)) = match edge.direction {
        Direction::X => ((0, 0, -1), (0, -1, 0)),
        Direction::Y => ((-1, 0, 0), (0, 0, -1)),
        Direction::Z => ((0, -1, 0), (-1, 0, 0)),
    };
    let r = [
        bounds::new(p.x, p.y, p.z, edge.lg_size),
        bounds::new(p.x + x1, p.y + y1, p.z + z1, edge.lg_size),
        bounds::new(p.x + x1 + x2, p.y + y1 + y2, p.z + z1 + z2, edge.lg_size),
        bounds::new(p.x + x2, p.y + y2, p.z + z2, edge.lg_size),
    ];
    proof {
        assert(r@ =~= neighbors_spec(*edge));
    }
    r
}

/// What an edge's two corner materials say about it: unknown (some corner is
/// unresolved), no surface, or a surface whose inside is the low or the high
/// side. A crossing carries the material that tags the emitted polygons.
#[derive(Debug, Clone, Copy, PartialEq, Eq)]
pub enum Crossing<Material> {
    Undefined,
    NoCrossing,
    LowInside(Material),
    HighInside(Material),
}

/// The classification of an edge whose corner material queries answered
/// `low` and `high`. An absent answer is `Undefined`. Equal materials, or
/// two opaque ones, carry no surface. Otherwise the opaque low side is
/// inside; in every other case (including two distinct non-opaque
/// materials) the high side is taken as inside, tagged with its material.
pub open spec fn crossing_of<M: material::T>(low: Option<M>, high: Option<M>) -> Crossing<M> {
    match (low, high) {
        (Option::Some(m0), Option::Some(m1)) => if m0.eq_spec(&m1) || (m0.opaque_spec()
            && m1.opaque_spec()) {
            Crossing::NoCrossing
        } else if m0.opaque_spec() {
            Crossing::LowInside(m0)
        } else {
            Crossing::HighInside(m1)
        },
        _ => Crossing::Undefined,
    }
}

/// The classification the given storage assigns to the given edge.
pub open spec fn crossing_spec<M: material::T, V: voxel_storage::T<M>>(
    voxels: V,
    edge: T,
) -> Crossing<M> {
    let (b0, b1) = corner_bounds_spec(edge);
    crossing_of(voxels.material_at(b0), voxels.material_at(b1))
}

/// Classify an edge by querying the materials of its two corner cells.
pub fn crossing<M: material::T, V: voxel_storage::T<M>>(voxels: &mut V, edge: &T) -> (r: Crossing<
    M,
>)
    requires
        edge.wf(),
    ensures
        r == crossing_spec(*old(voxels), *edge),
        forall|b: bounds::T| final(voxels).material_at(b) == old(voxels).material_at(b),
        forall|b: bounds::T| final(voxels).data_at(b) == old(voxels).data_at(b),
{
    let corners = corner_bounds(edge);
    let m0 = match voxels.get_material(&corners[0]) {
        Option::None => {
            return Crossing::Undefined;
        },
        Option::Some(m) => m,
    };
    let m1 = match voxels.get_material(&corners[1]) {
        Option::None => {
            return Crossing::Undefined;
        },
        Option::Some(m) => m,
    };
    if m0.eq_mat(&m1) || (m0.is_opaque() && m1.is_opaque()) {
        Crossing::NoCrossing
    } else if m0.is_opaque() {
        Crossing::LowInside(m0)
    } else {
        Crossing::HighInside(m1)
    }
}

/// Storage could not answer a required query; the edge cannot currently be
/// evaluated. The caller may retry once the region is loaded.
#[derive(Debug, Clone, Copy, PartialEq, Eq, Structural)]
pub struct Unresolved;

/// The resolution walk over the remaining candidate cells `cand`, having
/// already accepted the resolved cells `done` and collected the samples
/// `out`. A candidate already contained in an accepted cell is skipped; an
/// unresolved candidate fails the whole walk; otherwise the (possibly
/// coarser) answer is accepted and its sample appended.
pub open spec fn resolve_rec<M: material::T, V: voxel_storage::T<M>>(
    voxels: V,
    cand: Seq<bounds::T>,
    done: Seq<bounds::T>,
    out: Seq<(Point3, Vector3)>,
) -> Option<Seq<(Point3, Vector3)>>
    decreases cand.len(),
{
    if cand.len() == 0 {
        Option::Some(out)
    } else if exists|i: int| 0 <= i < done.len() && done[i].contains_spec(cand[0]) {
        resolve_rec(voxels, cand.skip(1), done, out)
    } else {
        match voxels.data_at(cand[0]) {
            Option::None => Option::None,
            Option::Some(d) => resolve_rec(
                voxels,
                cand.skip(1),
                done.push(d.bounds),
                out.push((d.vertex, d.normal)),
            ),
        }
    }
}

/// The samples the given storage resolves for the given candidate cells, in
/// order and deduplicated, or `None` if any needed query is unresolved.
pub open spec fn resolve_spec<M: material::T, V: voxel_storage::T<M>>(
    voxels: V,
    cand: Seq<bounds::T>,
) -> Option<Seq<(Point3, Vector3)>> {
    resolve_rec(voxels, cand, Seq::empty(), Seq::empty())
}

/// Resolution reads the storage only through its voxel-data answers: two
/// storages that answer alike resolve alike.
pub proof fn lemma_resolve_rec_unchanged<M: material::T, V: voxel_storage::T<M>>(
    v1: V,
    v2: V,
    cand: Seq<bounds::T>,
    done: Seq<bounds::T>,
    out: Seq<(Point3, Vector3)>,
)
    requires
        forall|b: bounds::T| v1.data_at(b) == v2.data_at(b),
    ensures
        resolve_rec(v1, cand, done, out) == resolve_rec(v2, cand, done, out),
    decreases cand.len(),
{
    if cand.len() == 0 {
    } else if exists|i: int| 0 <= i < done.len() && done[i].contains_spec(cand[0]) {
        lemma_resolve_rec_unchanged(v1, v2, cand.skip(1), done, out);
    } else {
        assert(v1.data_at(cand[0]) == v2.data_at(cand[0]));
        match v1.data_at(cand[0]) {
            Option::None => {},
            Option::Some(d) => {
                lemma_resolve_rec_unchanged(
                    v1,
                    v2,
                    cand.skip(1),
                    done.push(d.bounds),
                    out.push((d.vertex, d.normal)),
                );
            },
        }
    }
}

/// Does any cell of `done` contain `b`? The linear dedup scan.
fn covered_by_any(done: &Vec<bounds::T>, b: &bounds::T) -> (r: bool)
    ensures
        r == exists|i: int| 0 <= i < done@.len() && done@[i].contains_spec(*b),
{
    let mut j: usize = 0;
    while j < done.len()
        invariant
            j <= done@.len(),
            forall|k: int| 0 <= k < j ==> !done@[k].contains_spec(*b),
        decreases done@.len() - j,
    {
        if done[j].contains(b) {
            return true;
        }
        j += 1;
    }
    false
}

/// Resolve the candidate cells, in the given order, to their sample pairs:
/// skip a candidate that an already-accepted cell contains, fail on the
/// first unresolved query, and otherwise collect each answer's sample.
pub fn resolve_voxels<M: material::T, V: voxel_storage::T<M>>(
    voxels: &mut V,
    cand: &Vec<bounds::T>,
) -> (r: Result<Vec<(Point3, Vector3)>, Unresolved>)
    ensures
        forall|b: bounds::T| final(voxels).material_at(b) == old(voxels).material_at(b),
        forall|b: bounds::T| final(voxels).data_at(b) == old(voxels).data_at(b),
        (match resolve_spec(*old(voxels), cand@) {
            Option::Some(out) => r matches Ok(v) && v@ == out,
            Option::None => r matches Err(_),
        }),
{
    let ghost v0 = *old(voxels);
    proof {
        assert(cand@.skip(0) =~= cand@);
    }
    let mut out: Vec<(Point3, Vector3)> = Vec::new();
    let mut done: Vec<bounds::T> = Vec::new();
    let mut i: usize = 0;
    while i < cand.len()
        invariant
            i <= cand@.len(),
            v0 == *old(voxels),
            forall|b: bounds::T| voxels.material_at(b) == v0.material_at(b),
            forall|b: bounds::T| voxels.data_at(b) == v0.data_at(b),
            resolve_rec(v0, cand@.skip(i as int), done@, out@) == resolve_spec(v0, cand@),
        decreases cand@.len() - i,
    {
        let b = cand[i];
        proof {
            assert(cand@.skip(i as int)[0] == cand@[i as int]);
            assert(cand@.skip(i as int).skip(1) =~= cand@.skip(i as int + 1));
        }
        if covered_by_any(&done, &b) {
        } else {
            match voxels.get_voxel_data(&b) {
                Option::None => {
                    return Result::Err(Unresolved);
                },
                Option::Some(d) => {
                    done.push(d.bounds);
                    out.push((d.vertex, d.normal));
                },
            }
        }
        i += 1;
    }
    proof {
        assert(cand@.skip(cand@.len() as int) =~= Seq::<bounds::T>::empty());
    }
    Result::Ok(out)
}

/// The triangles assembled from resolved samples, tagged with `m`. Three
/// samples give one triangle as they stand. Four samples give a fan of four
/// triangles around the centre sample, one per consecutive quad edge,
/// preserving winding; the centre vertex and normal are the unweighted
/// averages of the four samples. Any other count is out of contract and
/// yields no triangles.
pub open spec fn polygons_of<M>(pairs: Seq<(Point3, Vector3)>, m: M) -> Seq<polygon::T<M>> {
    if pairs.len() == 3 {
        seq![
            polygon::T {
                vertices: [pairs[0].0, pairs[1].0, pairs[2].0],
                normals: [pairs[0].1, pairs[1].1, pairs[2].1],
                material: m,
            },
        ]
    } else if pairs.len() == 4 {
        let vc = point_avg4(pairs[0].0, pairs[1].0, pairs[2].0, pairs[3].0);
        let nc = vector_avg4(pairs[0].1, pairs[1].1, pairs[2].1, pairs[3].1);
        seq![
            polygon::T {
                vertices: [pairs[0].0, pairs[1].0, vc],
                normals: [pairs[0].1, pairs[1].1, nc],
                material: m,
            },
            polygon::T {
                vertices: [pairs[1].0, pairs[2].0, vc],
                normals: [pairs[1].1, pairs[2].1, nc],
                material: m,
            },
            polygon::T {
                vertices: [pairs[2].0, pairs[3].0, vc],
                normals: [pairs[2].1, pairs[3].1, nc],
                material: m,
            },
            polygon::T {
                vertices: [pairs[3].0, pairs[0].0, vc],
                normals: [pairs[3].1, pairs[0].1, nc],
                material: m,
            },
        ]
    } else {
        Seq::empty()
    }
}

/// Whether a resolution outcome, if it succeeded, has a sample count the
/// assembly step can accept.
pub open spec fn counts_ok(o: Option<Seq<(Point3, Vector3)>>) -> bool {
    o matches Option::Some(pairs) ==> (pairs.len() == 3 || pairs.len() == 4)
}

/// What extraction yields once a crossing with material `m` has been found
/// and the candidate order fixed: the resolved samples' triangles, or
/// failure if a needed sample is unresolved.
pub open spec fn extract_with_order<M: material::T, V: voxel_storage::T<M>>(
    voxels: V,
    cand: Seq<bounds::T>,
    m: M,
) -> Result<Seq<polygon::T<M>>, Unresolved> {
    match resolve_spec(voxels, cand) {
        Option::None => Result::Err(Unresolved),
        Option::Some(pairs) => Result::Ok(polygons_of(pairs, m)),
    }
}

/// Everything `extract` yields, as a function of the storage's answers and
/// the edge: failure if the edge cannot be classified or a sample is
/// unresolved; no triangles for an edge without a crossing; otherwise the
/// triangles of the circling cells' samples, resolved in the natural
/// neighbor order when the high side is inside and in the exact reverse
/// order when the low side is inside (this flips the output winding).
pub open spec fn extract_spec<M: material::T, V: voxel_storage::T<M>>(voxels: V, edge: T) -> Result<
    Seq<polygon::T<M>>,
    Unresolved,
> {
    match crossing_spec(voxels, edge) {
        Crossing::Undefined => Result::Err(Unresolved),
        Crossing::NoCrossing => Result::Ok(Seq::empty()),
        Crossing::HighInside(m) => extract_with_order(voxels, neighbors_spec(edge), m),
        Crossing::LowInside(m) => extract_with_order(voxels, neighbors_spec(edge).reverse(), m),
    }
}

/// A storage answer that is so coarse that fewer than three distinct samples
/// remain around a crossing edge (or one that splinters into more than four)
/// violates the storage's containment contract; extraction treats it as a
/// fatal inconsistency, so its callers rule it out up front.
pub open spec fn resolution_count_ok<M: material::T, V: voxel_storage::T<M>>(
    voxels: V,
    edge: T,
) -> bool {
    match crossing_spec(voxels, edge) {
        Crossing::HighInside(m) => counts_ok(resolve_spec(voxels, neighbors_spec(edge))),
        Crossing::LowInside(m) => counts_ok(resolve_spec(voxels, neighbors_spec(edge).reverse())),
        _ => true,
    }
}

/// Resolve the candidate cells and assemble the triangles, tagged with `m`.
fn resolve_and_emit<M: material::T, V: voxel_storage::T<M>>(
    voxels: &mut V,
    cand: &Vec<bounds::T>,
    m: M,
) -> (r: Result<Vec<polygon::T<M>>, Unresolved>)
    requires
        counts_ok(resolve_spec(*old(voxels), cand@)),
    ensures
        forall|b: bounds::T| final(voxels).material_at(b) == old(voxels).material_at(b),
        forall|b: bounds::T| final(voxels).data_at(b) == old(voxels).data_at(b),
        (match extract_with_order(*old(voxels), cand@, m) {
            Result::Ok(polys) => r matches Ok(out) && out@ == polys,
            Result::Err(e) => r == Result::<Vec<polygon::T<M>>, Unresolved>::Err(e),
        }),
{
    let pairs = match resolve_voxels(voxels, cand) {
        Result::Err(e) => {
            return Result::Err(e);
        },
        Result::Ok(p) => p,
    };
    let ghost spec_pairs = resolve_spec(*old(voxels), cand@)->Some_0;
    let mut out: Vec<polygon::T<M>> = Vec::new();
    if pairs.len() == 3 {
        let (v0, n0) = pairs[0];
        let (v1, n1) = pairs[1];
        let (v2, n2) = pairs[2];
        out.push(polygon::T { vertices: [v0, v1, v2], normals: [n0, n1, n2], material: m });
        proof {
            assert(out@ =~= polygons_of(spec_pairs, m));
        }
    } else if pairs.len() == 4 {
        let (v0, n0) = pairs[0];
        let (v1, n1) = pairs[1];
        let (v2, n2) = pairs[2];
        let (v3, n3) = pairs[3];
        let v_center = Point3::avg4(v0, v1, v2, v3);
        let n_center = Vector3::avg4(n0, n1, n2, n3);
        out.push(
            polygon::T {
                vertices: [v0, v1, v_center],
                normals: [n0, n1, n_center],
                material: m.dup(),
            },
        );
        out.push(
            polygon::T {
                vertices: [v1, v2, v_center],
                normals: [n1, n2, n_center],
                material: m.dup(),
            },
        );
        out.push(
            polygon::T {
                vertices: [v2, v3, v_center],
                normals: [n2, n3, n_center],
                material: m.dup(),
            },
        );
        out.push(
            polygon::T { vertices: [v3, v0, v_center], normals: [n3, n0, n_center], material: m },
        );
        proof {
            assert(out@ =~= polygons_of(spec_pairs, m));
        }
    } else {
        return vstd::pervasive::unreached();
    }
    Result::Ok(out)
}

/// Run dual contouring on a single edge: classify it, resolve the circling
/// cells (in reverse order when the low side is inside), and return the
/// emitted triangles in order. Fails with `Unresolved`, emitting nothing,
/// exactly when a needed storage answer is absent.
pub fn extract<M: material::T, V: voxel_storage::T<M>>(voxels: &mut V, edge: &T) -> (r: Result<
    Vec<polygon::T<M>>,
    Unresolved,
>)
    requires
        edge.wf(),
        resolution_count_ok(*old(voxels), *edge),
    ensures
        forall|b: bounds::T| final(voxels).material_at(b) == old(voxels).material_at(b),
        forall|b: bounds::T| final(voxels).data_at(b) == old(voxels).data_at(b),
        (match extract_spec(*old(voxels), *edge) {
            Result::Ok(polys) => r matches Ok(out) && out@ == polys,
            Result::Err(e) => r == Result::<Vec<polygon::T<M>>, Unresolved>::Err(e),
        }),
{
    let ghost v0 = *old(voxels);
    match crossing(voxels, edge) {
        Crossing::Undefined => Result::Err(Unresolved),
        Crossing::NoCrossing => Result::Ok(Vec::new()),
        Crossing::HighInside(m) => {
            let nb = neighbors(edge);
            let mut cand: Vec<bounds::T> = Vec::new();
            cand.push(nb[0]);
            cand.push(nb[1]);
            cand.push(nb[2]);
            cand.push(nb[3]);
            proof {
                assert(cand@ =~= neighbors_spec(*edge));
                lemma_resolve_rec_unchanged(
                    *voxels,
                    v0,
                    cand@,
                    Seq::empty(),
                    Seq::empty(),
                );
            }
            resolve_and_emit(voxels, &cand, m)
        },
        Crossing::LowInside(m) => {
            let nb = neighbors(edge);
            let mut cand: Vec<bounds::T> = Vec::new();
            cand.push(nb[3]);
            cand.push(nb[2]);
            cand.push(nb[1]);
            cand.push(nb[0]);
            proof {
                assert(cand@ =~= neighbors_spec(*edge).reverse());
                lemma_resolve_rec_unchanged(
                    *voxels,
                    v0,
                    cand@,
                    Seq::empty(),
                    Seq::empty(),
                );
            }
            resolve_and_emit(voxels, &cand, m)
        },
    }
}

} // verus!
