//! Properties of extraction, proved once and for all storages and edges.

use vstd::prelude::*;

use crate::bounds;
use crate::edge::Crossing;
use crate::edge::T as Edge;
use crate::edge::corner_bounds_spec;
use crate::edge::crossing_spec;
use crate::edge::extract_spec;
use crate::edge::extract_with_order;
use crate::edge::lemma_resolve_rec_unchanged;
use crate::edge::neighbors_spec;
use crate::edge::polygons_of;
use crate::edge::resolve_rec;
use crate::edge::resolve_spec;
use crate::edge::Unresolved;
use crate::geometry::Point3;
use crate::geometry::Vector3;
use crate::material;
use crate::polygon;
use crate::voxel_storage;

verus! {

/// An edge whose two corner materials are equal carries no surface:
/// extraction succeeds and emits nothing.
pub proof fn lemma_equal_materials_extract_nothing<M: material::T, V: voxel_storage::T<M>>(
    voxels: V,
    edge: Edge,
)
    requires
        ({
            let (b0, b1) = corner_bounds_spec(edge);
            &&& voxels.material_at(b0) matches Some(m0)
            &&& voxels.material_at(b1) matches Some(m1)
            &&& m0.eq_spec(&m1)
        }),
    ensures
        extract_spec(voxels, edge) == Result::<Seq<polygon::T<M>>, Unresolved>::Ok(Seq::empty()),
{
}

/// An edge between two opaque materials, even distinct ones, carries no
/// surface: extraction succeeds and emits nothing.
pub proof fn lemma_opaque_materials_extract_nothing<M: material::T, V: voxel_storage::T<M>>(
    voxels: V,
    edge: Edge,
)
    requires
        ({
            let (b0, b1) = corner_bounds_spec(edge);
            &&& voxels.material_at(b0) matches Some(m0)
            &&& voxels.material_at(b1) matches Some(m1)
            &&& m0.opaque_spec()
            &&& m1.opaque_spec()
        }),
    ensures
        extract_spec(voxels, edge) == Result::<Seq<polygon::T<M>>, Unresolved>::Ok(Seq::empty()),
{
}

/// An edge with an unresolved corner cannot be evaluated: extraction fails
/// with `Unresolved` and emits nothing.
pub proof fn lemma_absent_corner_extract_fails<M: material::T, V: voxel_storage::T<M>>(
    voxels: V,
    edge: Edge,
)
    requires
        ({
            let (b0, b1) = corner_bounds_spec(edge);
            voxels.material_at(b0) is None || voxels.material_at(b1) is None
        }),
    ensures
        extract_spec(voxels, edge) == Result::<Seq<polygon::T<M>>, Unresolved>::Err(Unresolved),
{
}

/// The candidate order fed to resolution: for a `HighInside` crossing it is
/// the natural `neighbors` order, for `LowInside` the exact reverse, which
/// is what flips the winding of the emitted triangles.
pub proof fn lemma_resolution_order<M: material::T, V: voxel_storage::T<M>>(voxels: V, edge: Edge)
    ensures
        (crossing_spec(voxels, edge) matches Crossing::HighInside(m) ==> extract_spec(voxels, edge)
            == extract_with_order(voxels, neighbors_spec(edge), m)),
        (crossing_spec(voxels, edge) matches Crossing::LowInside(m) ==> extract_spec(voxels, edge)
            == extract_with_order(voxels, neighbors_spec(edge).reverse(), m)),
{
}

/// Extraction reads the storage only through its answers: two storages that
/// answer every query alike extract alike. Since both `get_material` and
/// `get_voxel_data` promise to leave all answers unchanged, running
/// `extract` twice over an otherwise untouched backend gives identical
/// output.
pub proof fn lemma_extract_deterministic<M: material::T, V: voxel_storage::T<M>>(
    v1: V,
    v2: V,
    edge: Edge,
)
    requires
        forall|b: bounds::T| v1.material_at(b) == v2.material_at(b),
        forall|b: bounds::T| v1.data_at(b) == v2.data_at(b),
    ensures
        extract_spec(v1, edge) == extract_spec(v2, edge),
{
    let (b0, b1) = corner_bounds_spec(edge);
    assert(v1.material_at(b0) == v2.material_at(b0));
    assert(v1.material_at(b1) == v2.material_at(b1));
    lemma_resolve_rec_unchanged(
        v1,
        v2,
        neighbors_spec(edge),
        Seq::empty(),
        Seq::empty(),
    );
    lemma_resolve_rec_unchanged(
        v1,
        v2,
        neighbors_spec(edge).reverse(),
        Seq::empty(),
        Seq::empty(),
    );
}

/// Four candidates whose answers are present and pairwise non-encompassing
/// resolve to all four samples in order, and assemble into exactly four
/// triangles whose shared third vertex is the unweighted average of the four
/// sample vertices.
pub proof fn lemma_four_distinct_samples<M: material::T, V: voxel_storage::T<M>>(
    voxels: V,
    cand: Seq<bounds::T>,
    m: M,
)
    requires
        cand.len() == 4,
        voxels.data_at(cand[0]) is Some,
        voxels.data_at(cand[1]) is Some,
        voxels.data_at(cand[2]) is Some,
        voxels.data_at(cand[3]) is Some,
        ({
            let d0 = voxels.data_at(cand[0])->Some_0;
            let d1 = voxels.data_at(cand[1])->Some_0;
            let d2 = voxels.data_at(cand[2])->Some_0;
            let d3 = voxels.data_at(cand[3])->Some_0;
            &&& !d0.bounds.contains_spec(cand[1])
            &&& !d0.bounds.contains_spec(cand[2])
            &&& !d0.bounds.contains_spec(cand[3])
            &&& !d1.bounds.contains_spec(cand[2])
            &&& !d1.bounds.contains_spec(cand[3])
            &&& !d2.bounds.contains_spec(cand[3])
        }),
    ensures
        ({
            let d0 = voxels.data_at(cand[0])->Some_0;
            let d1 = voxels.data_at(cand[1])->Some_0;
            let d2 = voxels.data_at(cand[2])->Some_0;
            let d3 = voxels.data_at(cand[3])->Some_0;
            let pairs = seq![
                (d0.vertex, d0.normal),
                (d1.vertex, d1.normal),
                (d2.vertex, d2.normal),
                (d3.vertex, d3.normal),
            ];
            let polys = polygons_of(pairs, m);
            let vc = crate::geometry::point_avg4(d0.vertex, d1.vertex, d2.vertex, d3.vertex);
            &&& resolve_spec(voxels, cand) == Some(pairs)
            &&& extract_with_order(voxels, cand, m) == Result::<
                Seq<polygon::T<M>>,
                Unresolved,
            >::Ok(polys)
            &&& polys.len() == 4
            &&& polys[0].vertices[2] == vc
            &&& polys[1].vertices[2] == vc
            &&& polys[2].vertices[2] == vc
            &&& polys[3].vertices[2] == vc
        }),
{
    let d0 = voxels.data_at(cand[0])->Some_0;
    let d1 = voxels.data_at(cand[1])->Some_0;
    let d2 = voxels.data_at(cand[2])->Some_0;
    let d3 = voxels.data_at(cand[3])->Some_0;
    let p0 = (d0.vertex, d0.normal);
    let p1 = (d1.vertex, d1.normal);
    let p2 = (d2.vertex, d2.normal);
    let p3 = (d3.vertex, d3.normal);
    let eb = Seq::<bounds::T>::empty();
    let ep = Seq::<(Point3, Vector3)>::empty();
    let c1 = cand.skip(1);
    let c2 = c1.skip(1);
    let c3 = c2.skip(1);
    let c4 = c3.skip(1);
    assert(c1.len() == 3 && c1[0] == cand[1] && c1[1] == cand[2] && c1[2] == cand[3]);
    assert(c2.len() == 2 && c2[0] == cand[2] && c2[1] == cand[3]);
    assert(c3.len() == 1 && c3[0] == cand[3]);
    assert(c4.len() == 0);
    let done1 = eb.push(d0.bounds);
    let done2 = done1.push(d1.bounds);
    let done3 = done2.push(d2.bounds);
    let out1 = ep.push(p0);
    let out2 = out1.push(p1);
    let out3 = out2.push(p2);
    let out4 = out3.push(p3);
    assert(!(exists|i: int| 0 <= i < done1.len() && done1[i].contains_spec(c1[0]))) by {
        assert(done1[0] == d0.bounds);
    }
    assert(!(exists|i: int| 0 <= i < done2.len() && done2[i].contains_spec(c2[0]))) by {
        assert(done2[0] == d0.bounds && done2[1] == d1.bounds);
    }
    assert(!(exists|i: int| 0 <= i < done3.len() && done3[i].contains_spec(c3[0]))) by {
        assert(done3[0] == d0.bounds && done3[1] == d1.bounds && done3[2] == d2.bounds);
    }
    assert(resolve_rec(voxels, cand, eb, ep) == resolve_rec(voxels, c1, done1, out1));
    assert(resolve_rec(voxels, c1, done1, out1) == resolve_rec(voxels, c2, done2, out2));
    assert(resolve_rec(voxels, c2, done2, out2) == resolve_rec(voxels, c3, done3, out3));
    let done4 = done3.push(d3.bounds);
    assert(resolve_rec(voxels, c4, done4, out4) == Some(out4));
    assert(resolve_rec(voxels, c3, done3, out3) == Some(out4));
    assert(out4 =~= seq![p0, p1, p2, p3]);
}

/// When one accepted answer (here the second) is coarse enough to contain a
/// later candidate (the third) — both report the same encompassing region —
/// resolution collapses to three samples that keep their relative order, and
/// assembly emits exactly one triangle from them as they stand.
pub proof fn lemma_shared_region_collapses<M: material::T, V: voxel_storage::T<M>>(
    voxels: V,
    cand: Seq<bounds::T>,
    m: M,
)
    requires
        cand.len() == 4,
        voxels.data_at(cand[0]) is Some,
        voxels.data_at(cand[1]) is Some,
        voxels.data_at(cand[3]) is Some,
        ({
            let d0 = voxels.data_at(cand[0])->Some_0;
            let d1 = voxels.data_at(cand[1])->Some_0;
            &&& !d0.bounds.contains_spec(cand[1])
            &&& d1.bounds.contains_spec(cand[2])
            &&& !d0.bounds.contains_spec(cand[3])
            &&& !d1.bounds.contains_spec(cand[3])
        }),
    ensures
        ({
            let d0 = voxels.data_at(cand[0])->Some_0;
            let d1 = voxels.data_at(cand[1])->Some_0;
            let d3 = voxels.data_at(cand[3])->Some_0;
            let pairs = seq![(d0.vertex, d0.normal), (d1.vertex, d1.normal), (d3.vertex, d3.normal)];
            let polys = polygons_of(pairs, m);
            &&& resolve_spec(voxels, cand) == Some(pairs)
            &&& extract_with_order(voxels, cand, m) == Result::<
                Seq<polygon::T<M>>,
                Unresolved,
            >::Ok(polys)
            &&& polys.len() == 1
            &&& polys[0].vertices == [d0.vertex, d1.vertex, d3.vertex]
            &&& polys[0].normals == [d0.normal, d1.normal, d3.normal]
        }),
{
    let d0 = voxels.data_at(cand[0])->Some_0;
    let d1 = voxels.data_at(cand[1])->Some_0;
    let d3 = voxels.data_at(cand[3])->Some_0;
    let p0 = (d0.vertex, d0.normal);
    let p1 = (d1.vertex, d1.normal);
    let p3 = (d3.vertex, d3.normal);
    let eb = Seq::<bounds::T>::empty();
    let ep = Seq::<(Point3, Vector3)>::empty();
    let c1 = cand.skip(1);
    let c2 = c1.skip(1);
    let c3 = c2.skip(1);
    let c4 = c3.skip(1);
    assert(c1.len() == 3 && c1[0] == cand[1] && c1[1] == cand[2] && c1[2] == cand[3]);
    assert(c2.len() == 2 && c2[0] == cand[2] && c2[1] == cand[3]);
    assert(c3.len() == 1 && c3[0] == cand[3]);
    assert(c4.len() == 0);
    let done1 = eb.push(d0.bounds);
    let done2 = done1.push(d1.bounds);
    let out1 = ep.push(p0);
    let out2 = out1.push(p1);
    let out3 = out2.push(p3);
    assert(!(exists|i: int| 0 <= i < done1.len() && done1[i].contains_spec(c1[0]))) by {
        assert(done1[0] == d0.bounds);
    }
    assert(exists|i: int| 0 <= i < done2.len() && done2[i].contains_spec(c2[0])) by {
        assert(done2[1] == d1.bounds);
        assert(done2[1].contains_spec(c2[0]));
    }
    assert(!(exists|i: int| 0 <= i < done2.len() && done2[i].contains_spec(c3[0]))) by {
        assert(done2[0] == d0.bounds && done2[1] == d1.bounds);
    }
    assert(resolve_rec(voxels, cand, eb, ep) == resolve_rec(voxels, c1, done1, out1));
    assert(resolve_rec(voxels, c1, done1, out1) == resolve_rec(voxels, c2, done2, out2));
    assert(resolve_rec(voxels, c2, done2, out2) == resolve_rec(voxels, c3, done2, out2));
    let done3 = done2.push(d3.bounds);
    assert(resolve_rec(voxels, c4, done3, out3) == Some(out3));
    assert(resolve_rec(voxels, c3, done2, out2) == Some(out3));
    assert(out3 =~= seq![p0, p1, p3]);
}

} // verus!