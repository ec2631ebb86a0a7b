use scepter::draw2d::{
    billboard_tiles, compute_2d_rebuild, raster_2d_refresh, DynamicKind, Geometry2dCache, Refresh2d,
    AVATAR_TILE_MARK, PARTICLE_TILE_FLAG,
};

fn warm(fb: (u32, u32)) -> Geometry2dCache {
    Geometry2dCache { dirty: false, combined_empty: false, combined_fb: fb, static_empty: false, static_fb: fb }
}

#[test]
fn raster_reuses_a_warm_cache() {
    assert_eq!(raster_2d_refresh(warm((64, 32)), (64, 32), false), Refresh2d::Reuse);
}

#[test]
fn dynamic_billboards_recombine_every_frame() {
    assert_eq!(raster_2d_refresh(warm((64, 32)), (64, 32), true), Refresh2d::Combine);
}

#[test]
fn raster_rebuilds_static_part_when_needed() {
    let mut c = warm((64, 32));
    c.dirty = true;
    assert_eq!(raster_2d_refresh(c, (64, 32), false), Refresh2d::RebuildStatic);
    // A new frame size invalidates both caches.
    assert_eq!(raster_2d_refresh(warm((64, 32)), (64, 33), false), Refresh2d::RebuildStatic);
    // Combined cache lost, static cache fine.
    let mut c = warm((64, 32));
    c.combined_empty = true;
    assert_eq!(raster_2d_refresh(c, (64, 32), false), Refresh2d::Combine);
    // Static cache lost while combined is fine and nothing moved: reuse.
    let mut c = warm((64, 32));
    c.static_empty = true;
    assert_eq!(raster_2d_refresh(c, (64, 32), false), Refresh2d::Reuse);
    assert_eq!(raster_2d_refresh(c, (64, 32), true), Refresh2d::RebuildStatic);
}

#[test]
fn compute_path_rebuild() {
    assert!(!compute_2d_rebuild(false, false, (8, 8), (8, 8)));
    assert!(compute_2d_rebuild(true, false, (8, 8), (8, 8)));
    assert!(compute_2d_rebuild(false, true, (8, 8), (8, 8)));
    assert!(compute_2d_rebuild(false, false, (8, 8), (16, 8)));
}

#[test]
fn billboard_tile_indices() {
    assert_eq!(billboard_tiles(DynamicKind::BillboardTile, Some(5), None), Some((5, 5)));
    assert_eq!(billboard_tiles(DynamicKind::ParticleBillboard, Some(5), None), Some((5, 5 | 0x0800_0000)));
    assert_eq!(PARTICLE_TILE_FLAG, 0x0800_0000);
    assert_eq!(billboard_tiles(DynamicKind::BillboardAvatar, Some(5), Some(2)), Some((2, 0x8000_0000)));
    assert_eq!(AVATAR_TILE_MARK, 0x8000_0000);
    assert_eq!(billboard_tiles(DynamicKind::BillboardTile, None, Some(2)), None);
    assert_eq!(billboard_tiles(DynamicKind::BillboardAvatar, Some(5), None), None);
    assert_eq!(billboard_tiles(DynamicKind::Mesh, Some(5), Some(2)), None);
}
