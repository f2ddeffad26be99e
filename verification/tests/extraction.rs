use dual_contouring::bounds;
use dual_contouring::edge;
use dual_contouring::edge::Direction;
use dual_contouring::edge::Unresolved;
use dual_contouring::table::Material;
use dual_contouring::table::Voxels;
use dual_contouring::voxel_storage::VoxelData;
use dual_contouring::Point3;
use dual_contouring::Vector3;

fn air() -> Material {
    Material { id: 0, opaque: false }
}

fn solid() -> Material {
    Material { id: 1, opaque: true }
}

fn cell(x: i32, y: i32, z: i32) -> bounds::T {
    bounds::new(x, y, z, 0)
}

fn point(x: i32, y: i32, z: i32) -> Point3 {
    Point3 { x, y, z }
}

fn vector(x: i32, y: i32, z: i32) -> Vector3 {
    Vector3 { x, y, z }
}

fn x_edge_at_origin() -> edge::T {
    edge::T { low_corner: point(0, 0, 0), lg_size: 0, direction: Direction::X }
}

/// A self-describing voxel entry: the queried cell answers for itself.
fn own_entry(b: bounds::T, vertex: Point3, normal: Vector3) -> (bounds::T, VoxelData) {
    (b, VoxelData { bounds: b, vertex, normal })
}

/// The four cells circling the X edge at the origin, in `neighbors` order.
fn origin_x_neighbors() -> [bounds::T; 4] {
    [cell(0, 0, 0), cell(0, 0, -1), cell(0, -1, -1), cell(0, -1, 0)]
}

#[test]
fn corner_cells_per_axis() {
    let e = x_edge_at_origin();
    assert_eq!(edge::corner_bounds(&e), [cell(0, 0, 0), cell(1, 0, 0)]);
    let e = edge::T { low_corner: point(2, 3, 4), lg_size: 0, direction: Direction::Y };
    assert_eq!(edge::corner_bounds(&e), [cell(2, 3, 4), cell(2, 4, 4)]);
    let e = edge::T { low_corner: point(2, 3, 4), lg_size: 0, direction: Direction::Z };
    assert_eq!(edge::corner_bounds(&e), [cell(2, 3, 4), cell(2, 3, 5)]);
}

#[test]
fn neighbor_cells_walk_the_quad() {
    let e = x_edge_at_origin();
    assert_eq!(edge::neighbors(&e), origin_x_neighbors());
    let e = edge::T { low_corner: point(5, 6, 7), lg_size: 0, direction: Direction::Y };
    assert_eq!(
        edge::neighbors(&e),
        [cell(5, 6, 7), cell(4, 6, 7), cell(4, 6, 6), cell(5, 6, 6)]
    );
    let e = edge::T { low_corner: point(5, 6, 7), lg_size: 0, direction: Direction::Z };
    assert_eq!(
        edge::neighbors(&e),
        [cell(5, 6, 7), cell(5, 5, 7), cell(4, 5, 7), cell(4, 6, 7)]
    );
}

#[test]
fn containment_of_coarser_cells() {
    let fine = cell(3, -1, 0);
    let same = cell(3, -1, 0);
    assert!(same.contains(&fine));
    // The size-2 cell at (1, -1, 0) spans x in 2..4, y in -2..0, z in 0..2.
    let coarse = bounds::new(1, -1, 0, 1);
    assert!(coarse.contains(&fine));
    assert!(!coarse.contains(&cell(4, -1, 0)));
    assert!(!coarse.contains(&cell(3, 0, 0)));
    assert!(!fine.contains(&coarse));
}

#[test]
fn equal_materials_extract_nothing() {
    let mut v = Voxels {
        materials: vec![(cell(0, 0, 0), solid()), (cell(1, 0, 0), solid())],
        voxels: vec![],
    };
    let got = edge::extract(&mut v, &x_edge_at_origin());
    assert_eq!(got, Ok(vec![]));
}

#[test]
fn two_opaque_materials_extract_nothing() {
    let granite = Material { id: 7, opaque: true };
    let mut v = Voxels {
        materials: vec![(cell(0, 0, 0), solid()), (cell(1, 0, 0), granite)],
        voxels: vec![],
    };
    let got = edge::extract(&mut v, &x_edge_at_origin());
    assert_eq!(got, Ok(vec![]));
}

#[test]
fn absent_corner_material_is_unresolved() {
    // Only the low corner has a material; the high corner query is absent.
    let mut v = Voxels { materials: vec![(cell(0, 0, 0), solid())], voxels: vec![] };
    let got = edge::extract(&mut v, &x_edge_at_origin());
    assert_eq!(got, Err(Unresolved));

    // Likewise when only the high corner is known.
    let mut v = Voxels { materials: vec![(cell(1, 0, 0), air())], voxels: vec![] };
    let got = edge::extract(&mut v, &x_edge_at_origin());
    assert_eq!(got, Err(Unresolved));
}

#[test]
fn absent_voxel_data_is_unresolved() {
    let nb = origin_x_neighbors();
    // A crossing exists, but one circling cell has no voxel data.
    let mut v = Voxels {
        materials: vec![(cell(0, 0, 0), air()), (cell(1, 0, 0), solid())],
        voxels: vec![
            own_entry(nb[0], point(0, 0, 0), vector(0, 0, 1)),
            own_entry(nb[1], point(0, 0, -1), vector(0, 0, 1)),
            own_entry(nb[2], point(0, -1, -1), vector(0, 0, 1)),
        ],
    };
    let got = edge::extract(&mut v, &x_edge_at_origin());
    assert_eq!(got, Err(Unresolved));
}

fn distinct_samples() -> Vec<(bounds::T, VoxelData)> {
    let nb = origin_x_neighbors();
    vec![
        own_entry(nb[0], point(10, 10, 10), vector(1, 0, 0)),
        own_entry(nb[1], point(20, 10, 2), vector(0, 1, 0)),
        own_entry(nb[2], point(30, 30, 20), vector(0, 0, 1)),
        own_entry(nb[3], point(40, 30, 0), vector(0, 0, -1)),
    ]
}

#[test]
fn four_distinct_cells_emit_a_fan_around_the_average() {
    let mut v = Voxels {
        materials: vec![(cell(0, 0, 0), air()), (cell(1, 0, 0), solid())],
        voxels: distinct_samples(),
    };
    let polys = edge::extract(&mut v, &x_edge_at_origin()).unwrap();
    assert_eq!(polys.len(), 4);
    // The centre is the exact unweighted average of the four vertices.
    let vc = point(25, 20, 8);
    let nc = vector(0, 0, 0);
    let vs = [point(10, 10, 10), point(20, 10, 2), point(30, 30, 20), point(40, 30, 0)];
    let ns = [vector(1, 0, 0), vector(0, 1, 0), vector(0, 0, 1), vector(0, 0, -1)];
    for k in 0..4 {
        let next = (k + 1) % 4;
        assert_eq!(polys[k].vertices, [vs[k], vs[next], vc]);
        assert_eq!(polys[k].normals, [ns[k], ns[next], nc]);
        assert_eq!(polys[k].material, solid());
    }
}

#[test]
fn centre_average_rounds_toward_negative_infinity() {
    let nb = origin_x_neighbors();
    let mut v = Voxels {
        materials: vec![(cell(0, 0, 0), air()), (cell(1, 0, 0), solid())],
        voxels: vec![
            own_entry(nb[0], point(0, 0, 0), vector(0, 0, 0)),
            own_entry(nb[1], point(-1, 1, 0), vector(0, 0, 0)),
            own_entry(nb[2], point(0, 1, 0), vector(0, 0, 0)),
            own_entry(nb[3], point(-1, 1, 0), vector(0, 0, 0)),
        ],
    };
    let polys = edge::extract(&mut v, &x_edge_at_origin()).unwrap();
    // Component sums are (-2, 3, 0): the floored averages are (-1, 0, 0).
    assert_eq!(polys[0].vertices[2], point(-1, 0, 0));
}

#[test]
fn winding_follows_the_inside_corner() {
    // High side solid: the natural neighbor order is used.
    let mut v = Voxels {
        materials: vec![(cell(0, 0, 0), air()), (cell(1, 0, 0), solid())],
        voxels: distinct_samples(),
    };
    let high = edge::extract(&mut v, &x_edge_at_origin()).unwrap();
    // Low side solid: the same cells are resolved in exact reverse order.
    let mut v = Voxels {
        materials: vec![(cell(0, 0, 0), solid()), (cell(1, 0, 0), air())],
        voxels: distinct_samples(),
    };
    let low = edge::extract(&mut v, &x_edge_at_origin()).unwrap();
    assert_eq!(high.len(), 4);
    assert_eq!(low.len(), 4);
    assert_eq!(high[0].vertices[0], point(10, 10, 10));
    assert_eq!(high[0].vertices[1], point(20, 10, 2));
    assert_eq!(low[0].vertices[0], point(40, 30, 0));
    assert_eq!(low[0].vertices[1], point(30, 30, 20));
    // The fans walk the same quad edges in opposite directions.
    for k in 0..4 {
        let j = (6 - k) % 4;
        assert_eq!(low[k].vertices[0], high[j].vertices[1]);
        assert_eq!(low[k].vertices[1], high[j].vertices[0]);
    }
}

#[test]
fn shared_coarse_region_collapses_to_one_triangle() {
    // The X edge at (0, 1, 0): its second and third circling cells,
    // (0, 1, -1) and (0, 0, -1), share the size-2 cell at (0, 0, -1),
    // which spans x in 0..2, y in 0..2, z in -2..0 and contains neither
    // of the other two circling cells.
    let e = edge::T { low_corner: point(0, 1, 0), lg_size: 0, direction: Direction::X };
    let nb = edge::neighbors(&e);
    let coarse = bounds::new(0, 0, -1, 1);
    let mut v = Voxels {
        materials: vec![(cell(0, 1, 0), air()), (cell(1, 1, 0), solid())],
        voxels: vec![
            own_entry(nb[0], point(1, 1, 1), vector(1, 0, 0)),
            // The second and third cells both answer with the same coarser
            // region; the third collapses into the second.
            (nb[1], VoxelData { bounds: coarse, vertex: point(2, 2, 2), normal: vector(0, 1, 0) }),
            (nb[2], VoxelData { bounds: coarse, vertex: point(2, 2, 2), normal: vector(0, 1, 0) }),
            own_entry(nb[3], point(3, 3, 3), vector(0, 0, 1)),
        ],
    };
    let polys = edge::extract(&mut v, &e).unwrap();
    assert_eq!(polys.len(), 1);
    // The three surviving samples keep their relative order.
    assert_eq!(polys[0].vertices, [point(1, 1, 1), point(2, 2, 2), point(3, 3, 3)]);
    assert_eq!(polys[0].normals, [vector(1, 0, 0), vector(0, 1, 0), vector(0, 0, 1)]);
    assert_eq!(polys[0].material, solid());
}

#[test]
fn low_inside_scenario_with_constant_normal() {
    // Corner materials: solid at the low corner, air at the high corner,
    // so the crossing is low-inside and carries the solid material.
    let nb = origin_x_neighbors();
    let mut v = Voxels {
        materials: vec![(cell(0, 0, 0), solid()), (cell(1, 0, 0), air())],
        voxels: vec![
            own_entry(nb[0], point(0, 0, 0), vector(0, 0, 1)),
            own_entry(nb[1], point(0, 0, -1), vector(0, 0, 1)),
            own_entry(nb[2], point(0, -1, -1), vector(0, 0, 1)),
            own_entry(nb[3], point(0, -1, 0), vector(0, 0, 1)),
        ],
    };
    let polys = edge::extract(&mut v, &x_edge_at_origin()).unwrap();
    assert_eq!(polys.len(), 4);
    for p in &polys {
        assert_eq!(p.material, solid());
        for n in &p.normals {
            assert_eq!(*n, vector(0, 0, 1));
        }
    }
}

#[test]
fn extract_twice_gives_identical_output() {
    let mut v = Voxels {
        materials: vec![(cell(0, 0, 0), air()), (cell(1, 0, 0), solid())],
        voxels: distinct_samples(),
    };
    let e = x_edge_at_origin();
    let first = edge::extract(&mut v, &e);
    let second = edge::extract(&mut v, &e);
    assert_eq!(first, second);

    // The same holds for an edge that fails to resolve.
    let mut v = Voxels { materials: vec![(cell(0, 0, 0), air())], voxels: vec![] };
    let first = edge::extract(&mut v, &e);
    let second = edge::extract(&mut v, &e);
    assert_eq!(first, Err(Unresolved));
    assert_eq!(first, second);
}

#[test]
fn crossing_classification() {
    let mut v = Voxels {
        materials: vec![(cell(0, 0, 0), air()), (cell(1, 0, 0), solid())],
        voxels: vec![],
    };
    let got = edge::crossing(&mut v, &x_edge_at_origin());
    assert_eq!(got, edge::Crossing::HighInside(solid()));

    let mut v = Voxels {
        materials: vec![(cell(0, 0, 0), solid()), (cell(1, 0, 0), air())],
        voxels: vec![],
    };
    let got = edge::crossing(&mut v, &x_edge_at_origin());
    assert_eq!(got, edge::Crossing::LowInside(solid()));

    // Two distinct non-opaque materials still cross; the high side is
    // taken as inside.
    let mist = Material { id: 9, opaque: false };
    let mut v = Voxels {
        materials: vec![(cell(0, 0, 0), air()), (cell(1, 0, 0), mist)],
        voxels: vec![],
    };
    let got = edge::crossing(&mut v, &x_edge_at_origin());
    assert_eq!(got, edge::Crossing::HighInside(mist));

    let mut v = Voxels { materials: vec![], voxels: vec![] };
    let got: edge::Crossing<Material> = edge::crossing(&mut v, &x_edge_at_origin());
    assert_eq!(got, edge::Crossing::Undefined);
}
