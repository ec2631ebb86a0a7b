use scepter::tile_bins::{bin_triangles, TileBin, TriBounds};

fn tri(min_x: i32, max_x: i32, min_y: i32, max_y: i32, layer: i32, prio: i32, ord: u32) -> TriBounds {
    TriBounds { min_x, max_x, min_y, max_y, layer, prio, ord }
}

#[test]
fn empty_frame_gets_padding() {
    let r = bin_triangles(16, 16, &vec![]);
    assert_eq!((r.tiles_x, r.tiles_y), (2, 2));
    assert_eq!(r.bins, vec![TileBin { offset: 0, count: 0 }; 4]);
    assert_eq!(r.tile_tris, vec![0, 0, 0, 0]);
}

#[test]
fn zero_sized_frame_has_one_tile() {
    let r = bin_triangles(0, 0, &vec![tri(0, 5, 0, 5, 0, 0, 0)]);
    assert_eq!((r.tiles_x, r.tiles_y), (1, 1));
    // Clamped to a zero-pixel frame, the triangle covers nothing.
    assert_eq!(r.bins, vec![TileBin { offset: 0, count: 0 }]);
    assert_eq!(r.tile_tris, vec![0, 0, 0, 0]);
}

#[test]
fn grid_rounds_up() {
    let r = bin_triangles(17, 9, &vec![]);
    assert_eq!((r.tiles_x, r.tiles_y), (3, 2));
    assert_eq!(r.bins.len(), 6);
}

#[test]
fn triangle_spanning_two_tiles() {
    // x in [0, 10) touches columns 0 and 1; y in [0, 4) touches row 0.
    let r = bin_triangles(16, 16, &vec![tri(0, 10, 0, 4, 0, 0, 0)]);
    assert_eq!(
        r.bins,
        vec![
            TileBin { offset: 0, count: 1 },
            TileBin { offset: 1, count: 1 },
            TileBin { offset: 2, count: 0 },
            TileBin { offset: 2, count: 0 },
        ]
    );
    assert_eq!(r.tile_tris, vec![0, 0]);
}

#[test]
fn upper_edge_is_exclusive() {
    // max_x = 8 ends exactly at the tile boundary: only column 0.
    let r = bin_triangles(16, 8, &vec![tri(0, 8, 0, 8, 0, 0, 0)]);
    assert_eq!(r.bins, vec![TileBin { offset: 0, count: 1 }, TileBin { offset: 1, count: 0 }]);
}

#[test]
fn bounds_are_clamped_to_the_frame() {
    // Starts left of and above the frame, ends past it: every tile.
    let r = bin_triangles(16, 16, &vec![tri(-100, 1000, -5, 1000, 0, 0, 0)]);
    assert_eq!(r.bins.iter().map(|b| b.count).collect::<Vec<_>>(), vec![1, 1, 1, 1]);
    assert_eq!(r.tile_tris, vec![0, 0, 0, 0]);
    // Entirely outside: nothing.
    let r = bin_triangles(16, 16, &vec![tri(-20, -1, 0, 4, 0, 0, 0), tri(0, 4, 16, 30, 0, 0, 0)]);
    assert_eq!(r.bins.iter().map(|b| b.count).collect::<Vec<_>>(), vec![0, 0, 0, 0]);
    // Empty box.
    let r = bin_triangles(16, 16, &vec![tri(5, 5, 0, 4, 0, 0, 0)]);
    assert_eq!(r.bins.iter().map(|b| b.count).collect::<Vec<_>>(), vec![0, 0, 0, 0]);
}

#[test]
fn tile_order_is_layer_then_priority_then_emission() {
    let tris = vec![
        tri(0, 4, 0, 4, 1, 0, 0), // 0
        tri(0, 4, 0, 4, 2, 0, 1), // 1: higher layer
        tri(0, 4, 0, 4, 1, 5, 2), // 2: same layer as 0, higher priority
        tri(0, 4, 0, 4, 1, 0, 3), // 3: same layer and priority as 0, later
        tri(0, 4, 0, 4, 1, 0, 0), // 4: same key as 0, higher index
    ];
    let r = bin_triangles(8, 8, &tris);
    assert_eq!(r.bins, vec![TileBin { offset: 0, count: 5 }]);
    assert_eq!(r.tile_tris, vec![1, 2, 3, 0, 4]);
}

#[test]
fn offsets_accumulate_over_tiles() {
    let tris = vec![
        tri(0, 16, 0, 1, 0, 0, 0),  // tiles 0 and 1
        tri(8, 16, 0, 16, 3, 0, 1), // tiles 1 and 3
        tri(0, 1, 8, 9, 0, 0, 2),   // tile 2
    ];
    let r = bin_triangles(16, 16, &tris);
    assert_eq!(
        r.bins,
        vec![
            TileBin { offset: 0, count: 1 },
            TileBin { offset: 1, count: 2 },
            TileBin { offset: 3, count: 1 },
            TileBin { offset: 4, count: 1 },
        ]
    );
    assert_eq!(r.tile_tris, vec![0, 1, 0, 2, 1]);
}
