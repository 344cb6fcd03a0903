use cube_mania::mesh::{create_mesh, Elevation, ElevationMap, GridVertex, MapError, MeshError};

fn strip(values: &[f64]) -> ElevationMap<f64> {
    ElevationMap::new_with_data(values.len(), 1, values.to_vec()).unwrap()
}

fn two_by_three() -> ElevationMap<f64> {
    // 2 columns, 3 rows
    ElevationMap::new_with_data(2, 3, vec![1.0, 2.0, 3.0, 4.0, 5.0, 6.0]).unwrap()
}

#[test]
fn new_with_data_keeps_size() {
    let map = two_by_three();
    assert_eq!(map.size(), (2, 3));
}

#[test]
fn new_with_data_rejects_wrong_length() {
    let r = ElevationMap::new_with_data(2, 3, vec![0.0f64; 5]);
    assert!(matches!(r, Err(MapError::DimensionMismatch)));
    let r = ElevationMap::new_with_data(3, 3, vec![0.0f64; 10]);
    assert!(matches!(r, Err(MapError::DimensionMismatch)));
}

#[test]
fn new_with_data_rejects_overflowing_size() {
    let r = ElevationMap::new_with_data(usize::MAX, 2, vec![0u8; 2]);
    assert!(matches!(r, Err(MapError::DimensionMismatch)));
}

#[test]
fn new_with_data_accepts_empty_map() {
    let map = ElevationMap::<f64>::new_with_data(0, 4, vec![]).unwrap();
    assert_eq!(map.size(), (0, 4));
}

#[test]
fn get_value_inside_returns_stored_sample() {
    let map = two_by_three();
    assert_eq!(map.get_value(0, 0), Elevation::Sample(1.0));
    assert_eq!(map.get_value(1, 0), Elevation::Sample(2.0));
    assert_eq!(map.get_value(0, 1), Elevation::Sample(3.0));
    assert_eq!(map.get_value(1, 2), Elevation::Sample(6.0));
}

#[test]
fn get_value_on_border_is_border() {
    let map = two_by_three();
    assert_eq!(map.get_value(2, 0), Elevation::Border);
    assert_eq!(map.get_value(2, 3), Elevation::Border);
    assert_eq!(map.get_value(0, 3), Elevation::Border);
    assert_eq!(map.get_value(1, 3), Elevation::Border);
}

#[test]
fn get_value_beyond_border_is_out_of_range() {
    let map = two_by_three();
    assert_eq!(map.get_value(3, 0), Elevation::OutOfRange);
    assert_eq!(map.get_value(0, 4), Elevation::OutOfRange);
    assert_eq!(map.get_value(2, 4), Elevation::OutOfRange);
    assert_eq!(map.get_value(3, 3), Elevation::OutOfRange);
}

#[test]
fn create_mesh_counts_vertices_and_indices() {
    let map = two_by_three();
    for (w, d) in [(1usize, 1usize), (3, 2), (5, 7), (10, 1)] {
        let grid = create_mesh((0, 0), (w, d), &map).unwrap();
        assert_eq!(grid.width, w);
        assert_eq!(grid.depth, d);
        assert_eq!(grid.vertices.len(), (w + 1) * (d + 1));
        assert_eq!(grid.indices.len(), w * d * 6);
    }
}

#[test]
fn create_mesh_rejects_zero_size() {
    let map = two_by_three();
    assert!(matches!(create_mesh((0, 0), (0, 3), &map), Err(MeshError::InvalidDimension)));
    assert!(matches!(create_mesh((0, 0), (3, 0), &map), Err(MeshError::InvalidDimension)));
    assert!(matches!(create_mesh((0, 0), (0, 0), &map), Err(MeshError::InvalidDimension)));
}

#[test]
fn create_mesh_single_cell_winding() {
    let map = two_by_three();
    let grid = create_mesh((0, 0), (1, 1), &map).unwrap();
    assert_eq!(grid.indices, vec![0, 2, 3, 0, 3, 1]);
}

#[test]
fn create_mesh_two_by_two_indices() {
    let map = two_by_three();
    let grid = create_mesh((0, 0), (2, 2), &map).unwrap();
    assert_eq!(
        grid.indices,
        vec![
            0, 3, 4, 0, 4, 1, // cell (0, 0)
            1, 4, 5, 1, 5, 2, // cell (1, 0)
            3, 6, 7, 3, 7, 4, // cell (0, 1)
            4, 7, 8, 4, 8, 5, // cell (1, 1)
        ]
    );
}

#[test]
fn create_mesh_vertices_row_major() {
    let map = two_by_three();
    let grid = create_mesh((0, 0), (1, 2), &map).unwrap();
    let expected = vec![
        GridVertex { w: 0, d: 0, height: 1.0 },
        GridVertex { w: 1, d: 0, height: 2.0 },
        GridVertex { w: 0, d: 1, height: 3.0 },
        GridVertex { w: 1, d: 1, height: 4.0 },
        GridVertex { w: 0, d: 2, height: 5.0 },
        GridVertex { w: 1, d: 2, height: 6.0 },
    ];
    assert_eq!(grid.vertices, expected);
}

#[test]
fn create_mesh_wraps_past_last_column() {
    let map = strip(&[10.0, 11.0, 12.0, 13.0]);
    let grid = create_mesh((3, 0), (2, 1), &map).unwrap();
    let heights: Vec<f64> = grid.vertices.iter().map(|v| v.height).collect();
    assert_eq!(heights, vec![13.0, 10.0, 11.0, 13.0, 10.0, 11.0]);
}

#[test]
fn create_mesh_negative_origin_counts_from_far_edge() {
    let map = strip(&[10.0, 11.0, 12.0, 13.0]);
    let from_negative = create_mesh((-1, 0), (2, 1), &map).unwrap();
    let from_last = create_mesh((3, 0), (2, 1), &map).unwrap();
    assert_eq!(from_negative.vertices, from_last.vertices);
    let far = create_mesh((-9, -5), (1, 1), &map).unwrap();
    // -9 mod 4 == 3
    assert_eq!(far.vertices[0].height, 13.0);
    assert_eq!(far.vertices[1].height, 10.0);
}

#[test]
fn create_mesh_larger_than_map_repeats_it() {
    let map = two_by_three();
    let grid = create_mesh((0, 0), (4, 3), &map).unwrap();
    let first_row: Vec<f64> = grid.vertices[0..5].iter().map(|v| v.height).collect();
    assert_eq!(first_row, vec![1.0, 2.0, 1.0, 2.0, 1.0]);
    let column: Vec<f64> = (0..4).map(|d| grid.vertices[d * 5].height).collect();
    assert_eq!(column, vec![1.0, 3.0, 5.0, 1.0]);
}

#[test]
fn create_mesh_is_deterministic() {
    let map = two_by_three();
    let a = create_mesh((1, -2), (3, 4), &map).unwrap();
    let b = create_mesh((1, -2), (3, 4), &map).unwrap();
    assert_eq!(a.width, b.width);
    assert_eq!(a.depth, b.depth);
    assert_eq!(a.vertices, b.vertices);
    assert_eq!(a.indices, b.indices);
}

#[test]
fn create_mesh_indices_stay_within_vertices() {
    let map = two_by_three();
    let grid = create_mesh((0, 0), (6, 5), &map).unwrap();
    assert!(grid.indices.iter().all(|&i| (i as usize) < grid.vertices.len()));
    assert_eq!(*grid.indices.iter().max().unwrap() as usize, grid.vertices.len() - 1);
}
