use scepter::chunks::{ChunkAtom, ChunkItem, ChunkOrigin, RenderMode, SceneChunks};

/// A new scene after its first frame has rebuilt every stale cache.
fn settled() -> SceneChunks {
    let mut s = SceneChunks::new();
    s.geometry2d_dirty = false;
    s.accel_dirty = false;
    s.line3d_dirty = false;
    s.irradiance_dirty = false;
    s.sdf_data_dirty = false;
    s
}

fn ids(s: &SceneChunks) -> Vec<u128> {
    s.chunks.iter().map(|c| c.id).collect()
}

#[test]
fn first_geometry_creates_the_current_chunk() {
    let mut s = settled();
    s.execute_chunk_atom(ChunkAtom::AddPoly { handle: 7 }, 100);
    assert_eq!(s.current, Some(100));
    assert_eq!(ids(&s), vec![100]);
    assert_eq!(s.chunks[0].items, vec![ChunkItem::Poly2D(7)]);
    assert!(s.geometry2d_dirty && !s.accel_dirty);
    // Later geometry goes to the same chunk; the fresh id is not used.
    s.execute_chunk_atom(ChunkAtom::AddPoly3D { handle: 8 }, 200);
    assert_eq!(ids(&s), vec![100]);
    assert_eq!(s.chunks[0].items, vec![ChunkItem::Poly2D(7), ChunkItem::Poly3D(8)]);
    assert!(s.accel_dirty);
}

#[test]
fn short_line_strips_are_ignored() {
    let mut s = settled();
    s.execute_chunk_atom(ChunkAtom::AddLineStrip2D { handle: 1, points: 1 }, 5);
    assert!(s.chunks.is_empty() && s.current.is_none() && !s.geometry2d_dirty);
    s.execute_chunk_atom(ChunkAtom::AddLineStrip2DPx { handle: 1, points: 3, width_positive: false }, 5);
    assert!(s.chunks.is_empty());
    s.execute_chunk_atom(ChunkAtom::AddLineStrip2D { handle: 1, points: 2 }, 5);
    assert_eq!(s.chunks[0].items, vec![ChunkItem::LineStrip2D(1)]);
    assert!(s.accel_dirty && s.geometry2d_dirty);
}

#[test]
fn removing_the_current_chunk_unsets_it() {
    let mut s = settled();
    s.execute_chunk_atom(ChunkAtom::SetCurrentChunk { id: 1 }, 99);
    s.execute_chunk_atom(ChunkAtom::NewChunk { id: 2 }, 99);
    assert_eq!(ids(&s), vec![1, 2]);
    assert_eq!(s.current, Some(1));
    s.execute_chunk_atom(ChunkAtom::RemoveChunk { id: 2 }, 99);
    assert_eq!(s.current, Some(1));
    s.execute_chunk_atom(ChunkAtom::RemoveChunk { id: 1 }, 99);
    assert_eq!(s.current, None);
    assert!(s.chunks.is_empty());
    assert!(s.organic_dirty && s.line3d_dirty);
}

#[test]
fn remove_chunks_at_an_origin() {
    let mut s = settled();
    let o = ChunkOrigin { x: 3, y: -1 };
    s.execute_chunk_atom(ChunkAtom::AddChunk { id: 1, origin: o, items: vec![ChunkItem::Line3D(4)] }, 99);
    s.execute_chunk_atom(ChunkAtom::AddChunk { id: 2, origin: ChunkOrigin { x: 0, y: 0 }, items: vec![] }, 99);
    s.execute_chunk_atom(ChunkAtom::AddChunk { id: 3, origin: o, items: vec![] }, 99);
    s.execute_chunk_atom(ChunkAtom::SetCurrentChunk { id: 3 }, 99);
    s.execute_chunk_atom(ChunkAtom::RemoveChunkAt { origin: o }, 99);
    assert_eq!(ids(&s), vec![2]);
    assert_eq!(s.current, None);
}

#[test]
fn add_chunk_replaces_and_new_chunk_keeps() {
    let mut s = settled();
    s.execute_chunk_atom(ChunkAtom::AddChunk { id: 1, origin: ChunkOrigin { x: 1, y: 1 }, items: vec![ChunkItem::Poly2D(1)] }, 99);
    s.execute_chunk_atom(ChunkAtom::NewChunk { id: 1 }, 99);
    assert_eq!(s.chunks[0].items, vec![ChunkItem::Poly2D(1)]);
    s.execute_chunk_atom(ChunkAtom::AddChunk { id: 1, origin: ChunkOrigin { x: 2, y: 2 }, items: vec![] }, 99);
    assert_eq!(s.chunks.len(), 1);
    assert_eq!(s.chunks[0].origin, ChunkOrigin { x: 2, y: 2 });
    assert!(s.chunks[0].items.is_empty());
}

#[test]
fn clears() {
    let mut s = settled();
    s.execute_chunk_atom(ChunkAtom::AddLine3D { handle: 1 }, 10);
    s.execute_chunk_atom(ChunkAtom::ClearTiles, 11);
    assert_eq!(ids(&s), vec![10]);
    assert!(s.irradiance_dirty && s.organic_dirty);
    let mut g = settled();
    g.execute_chunk_atom(ChunkAtom::AddPoly { handle: 1 }, 10);
    g.execute_chunk_atom(ChunkAtom::ClearGeometry, 11);
    assert!(g.chunks.is_empty() && g.current.is_none());
    assert!(!g.line3d_dirty && !g.irradiance_dirty && g.accel_dirty);
    s.execute_chunk_atom(ChunkAtom::Clear, 11);
    assert!(s.chunks.is_empty() && s.current.is_none());
}

#[test]
fn a_new_scene_starts_stale() {
    let s = SceneChunks::new();
    assert!(s.chunks.is_empty() && s.current.is_none());
    assert!(s.accel_dirty && s.geometry2d_dirty && s.line3d_dirty && s.irradiance_dirty && s.sdf_data_dirty);
    assert!(!s.organic_dirty && !s.raster3d_pipelines_stale);
    assert_eq!((s.animation_counter, s.render_mode, s.raster3d_msaa_samples, s.bvh_leaf_size), (0, RenderMode::Compute2D, 4, 8));
}

#[test]
fn sample_count_changes_make_pipelines_stale() {
    let mut s = settled();
    s.execute_chunk_atom(ChunkAtom::SetRaster3DMsaaSamples { samples: 8 }, 1);
    assert_eq!(s.raster3d_msaa_samples, 4);
    assert!(!s.raster3d_pipelines_stale);
    s.execute_chunk_atom(ChunkAtom::SetRaster3DMsaaSamples { samples: 0 }, 1);
    assert_eq!(s.raster3d_msaa_samples, 0);
    assert!(s.raster3d_pipelines_stale);
}

#[test]
fn leaf_size_marks_the_bvh_stale() {
    let mut s = settled();
    s.execute_chunk_atom(ChunkAtom::SetBvhLeafSize { max_tris: 0 }, 1);
    assert_eq!(s.bvh_leaf_size, 1);
    assert!(s.accel_dirty);
    s.execute_chunk_atom(ChunkAtom::SetBvhLeafSize { max_tris: 32 }, 1);
    assert_eq!(s.bvh_leaf_size, 32);
}

#[test]
fn clear_resets_the_settings() {
    let mut s = settled();
    s.execute_chunk_atom(ChunkAtom::SetAnimationCounter { counter: 12 }, 1);
    s.execute_chunk_atom(ChunkAtom::SetRenderMode { mode: RenderMode::Raster3D }, 1);
    s.execute_chunk_atom(ChunkAtom::SetSdfData { entries: 3 }, 1);
    assert_eq!((s.animation_counter, s.render_mode, s.sdf_entries), (12, RenderMode::Raster3D, 3));
    s.execute_chunk_atom(ChunkAtom::SetBvhLeafSize { max_tris: 4 }, 1);
    s.execute_chunk_atom(ChunkAtom::Clear, 1);
    assert_eq!((s.animation_counter, s.render_mode, s.sdf_entries), (0, RenderMode::Compute2D, 0));
    assert!(s.sdf_data_dirty && s.accel_dirty && s.irradiance_dirty);
    // Settings a clear does not touch.
    assert_eq!((s.bvh_leaf_size, s.raster3d_msaa_samples), (4, 4));
}
