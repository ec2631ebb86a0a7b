use scepter::scene::{
    avatar_meta_indices_for_objects, dynamic_object_order, geo_id_sort_key, hash_u32,
    palette_index_tile_key, palette_tile_indices_uniform, raster3d_effective_samples,
    sorted_dynamic_objects, AvatarDataEntry, AvatarSlotObject, DrawOrder, DynamicOrderKey, GeoId,
    PingPongState,
    AvatarTable, SpriteShape, bvh_leaf_size, visible_triangles, PaintOverlayState, LayerTargets, fit_tile_frame, fit_tile_frames, palette_remap_range, raster3d_msaa_request, valid_sprite_positions,
};

fn reference_hash(mut state: u32) -> u32 {
    state = (state ^ 61) ^ (state >> 16);
    state = state.wrapping_add(state << 3);
    state ^= state >> 4;
    state = state.wrapping_mul(0x27d4eb2d);
    state ^= state >> 15;
    state
}

#[test]
fn hash_values() {
    for s in [0u32, 1, 61, 12345, 0xdeadbeef, u32::MAX] {
        assert_eq!(hash_u32(s), reference_hash(s));
    }
    assert_ne!(hash_u32(1), hash_u32(2));
}

#[test]
fn effective_samples() {
    assert_eq!(raster3d_effective_samples(0), 1);
    assert_eq!(raster3d_effective_samples(1), 1);
    assert_eq!(raster3d_effective_samples(4), 4);
}

#[test]
fn ping_pong() {
    let mut p = PingPongState { enabled: true, front: 1, textures_allocated: true };
    p.set_ping_pong_enabled(true);
    assert_eq!(p, PingPongState { enabled: true, front: 1, textures_allocated: true });
    p.set_ping_pong_enabled(false);
    assert_eq!(p, PingPongState { enabled: false, front: 0, textures_allocated: false });
    assert!(!p.ping_pong_enabled());
    p.set_ping_pong_enabled(true);
    assert_eq!(p, PingPongState { enabled: true, front: 0, textures_allocated: false });
}

#[test]
fn palette_keys_and_table() {
    assert_eq!(palette_index_tile_key(0), 0x50414C455454455F0000000000000000u128);
    assert_eq!(palette_index_tile_key(255), 0x50414C455454455F00000000000000FFu128);
    assert_eq!(&palette_index_tile_key(7).to_be_bytes()[..8], b"PALETTE_");
    let lookups: Vec<Option<u32>> = (0..256u32).map(|i| if i % 3 == 0 { None } else { Some(i * 10) }).collect();
    let rows = palette_tile_indices_uniform(&lookups);
    assert_eq!(rows.len(), 64);
    assert_eq!(rows[0], [0, 10, 20, 0]);
    assert_eq!(rows[63], [0, 2530, 2540, 0]);
}

#[test]
fn geo_id_keys() {
    assert_eq!(geo_id_sort_key(GeoId::Sector(5)), (3, 5, 0));
    assert_eq!(geo_id_sort_key(GeoId::Terrain(-1, 2)), (9, u64::MAX, 2));
    assert_eq!(geo_id_sort_key(GeoId::GeometryObject(1u128 << 64 | 7)), (10, 1, 7));
    assert_eq!(geo_id_sort_key(GeoId::Hole(3, 4)), (11, 3, 4));
    assert_eq!(geo_id_sort_key(GeoId::Gizmo(0)), (12, 0, 0));
}

#[test]
fn dynamic_draw_order() {
    let a = DynamicOrderKey { layer: 2, kind_rank: 0, id: GeoId::Item(1) };
    let b = DynamicOrderKey { layer: 1, kind_rank: 0, id: GeoId::Item(0) };
    let c = DynamicOrderKey { layer: 1, kind_rank: 1, id: GeoId::Unknown(0) };
    let d = DynamicOrderKey { layer: 1, kind_rank: 1, id: GeoId::Character(0) };
    assert_eq!(dynamic_object_order(&a, &b), DrawOrder::Before);
    assert_eq!(dynamic_object_order(&b, &a), DrawOrder::After);
    assert_eq!(dynamic_object_order(&b, &c), DrawOrder::Before);
    assert_eq!(dynamic_object_order(&c, &d), DrawOrder::Before);
    assert_eq!(dynamic_object_order(&d, &d), DrawOrder::Same);
    let keys = vec![d, c, a, b, d];
    let order = sorted_dynamic_objects(&keys);
    assert_eq!(order, vec![2, 3, 1, 0, 4]);
    assert!(sorted_dynamic_objects(&vec![]).is_empty());
}

#[test]
fn avatar_slots() {
    let objects = vec![
        AvatarSlotObject { id: GeoId::Character(1), is_avatar: true },
        AvatarSlotObject { id: GeoId::Character(2), is_avatar: false },
        AvatarSlotObject { id: GeoId::Character(3), is_avatar: true },
        AvatarSlotObject { id: GeoId::Character(1), is_avatar: true },
        AvatarSlotObject { id: GeoId::Character(4), is_avatar: true },
        AvatarSlotObject { id: GeoId::Character(5), is_avatar: true },
        AvatarSlotObject { id: GeoId::Character(6), is_avatar: true },
    ];
    let table = vec![
        AvatarDataEntry { id: GeoId::Character(1), size: 2, rgba_len: 16 },
        AvatarDataEntry { id: GeoId::Character(2), size: 2, rgba_len: 16 },
        AvatarDataEntry { id: GeoId::Character(3), size: 0, rgba_len: 0 },
        AvatarDataEntry { id: GeoId::Character(4), size: 3, rgba_len: 35 },
        AvatarDataEntry { id: GeoId::Character(6), size: 1, rgba_len: 4 },
    ];
    let slots = avatar_meta_indices_for_objects(&objects, &table);
    assert_eq!(slots, vec![(GeoId::Character(1), 0), (GeoId::Character(6), 1)]);
}

#[test]
fn tile_frames_are_fitted() {
    assert_eq!(fit_tile_frame(vec![1, 2, 3], 5), vec![1, 2, 3, 0, 0]);
    assert_eq!(fit_tile_frame(vec![1, 2, 3, 4, 5, 6], 4), vec![1, 2, 3, 4]);
    assert_eq!(fit_tile_frame(vec![9; 4], 4), vec![9; 4]);
    let out = fit_tile_frames(vec![vec![7; 3], vec![8; 9], vec![]], 1, 2);
    assert_eq!(out, vec![vec![7, 7, 7, 0, 0, 0, 0, 0], vec![8; 8], vec![0; 8]]);
}

#[test]
fn atom_parameters() {
    assert_eq!(palette_remap_range(3, 900), (3, 255));
    assert_eq!(palette_remap_range(255, 254), (255, 254));
    assert_eq!(raster3d_msaa_request(0), 0);
    assert_eq!(raster3d_msaa_request(1), 4);
    assert_eq!(raster3d_msaa_request(8), 4);
    assert_eq!(bvh_leaf_size(0), 1);
    assert_eq!(bvh_leaf_size(16), 16);
}

#[test]
fn organic_sprites_are_filtered() {
    let sprites = vec![
        SpriteShape { width: 2, height: 2, rgba_len: 16 },
        SpriteShape { width: 0, height: 2, rgba_len: 0 },
        SpriteShape { width: 257, height: 1, rgba_len: 1028 },
        SpriteShape { width: 256, height: 256, rgba_len: 262144 },
        SpriteShape { width: 3, height: 1, rgba_len: 11 },
    ];
    assert_eq!(valid_sprite_positions(&sprites), vec![0, 3]);
}

#[test]
fn avatar_table_keeps_complete_data() {
    let mut t = AvatarTable::new();
    t.set_avatar_billboard_data(GeoId::Character(1), 2, 16);
    t.set_avatar_billboard_data(GeoId::Character(2), 2, 15);
    t.set_avatar_billboard_data(GeoId::Character(3), 0, 0);
    assert_eq!(t.entries, vec![AvatarDataEntry { id: GeoId::Character(1), size: 2, rgba_len: 16 }]);
    t.set_avatar_billboard_data(GeoId::Character(1), 1, 4);
    assert_eq!(t.entries, vec![AvatarDataEntry { id: GeoId::Character(1), size: 1, rgba_len: 4 }]);
    t.set_avatar_billboard_data(GeoId::Character(1), 3, 7);
    assert_eq!(t.entries.len(), 1);
    t.set_avatar_billboard_data(GeoId::Light(9), 1, 4);
    t.remove_avatar_billboard_data(GeoId::Character(1));
    assert_eq!(t.entries, vec![AvatarDataEntry { id: GeoId::Light(9), size: 1, rgba_len: 4 }]);
    t.remove_avatar_billboard_data(GeoId::Character(1));
    assert_eq!(t.entries.len(), 1);
    t.clear();
    assert!(t.entries.is_empty());
}

#[test]
fn visible_triangles_reads_the_bitset() {
    // Triangles 0, 2 and 33 visible; the buffer holds 40 triangles.
    let words = vec![0b101u32, 1 << 1];
    assert_eq!(visible_triangles(120, &words, 0, 40), vec![0, 2, 33]);
    // A sub-range.
    assert_eq!(visible_triangles(120, &words, 1, 33), vec![2]);
    // Words past the end count as unset.
    assert_eq!(visible_triangles(300, &vec![u32::MAX], 30, 100), vec![30, 31]);
}

#[test]
fn visible_triangles_clamps_the_range() {
    let words = vec![u32::MAX];
    // Only 2 whole triangles fit in 7 indices.
    assert_eq!(visible_triangles(7, &words, 0, 10), vec![0, 1]);
    // A start past the buffer gives nothing.
    assert_eq!(visible_triangles(7, &words, 5, 10), Vec::<usize>::new());
    // A reversed range gives nothing.
    assert_eq!(visible_triangles(30, &words, 4, 2), Vec::<usize>::new());
    assert_eq!(visible_triangles(0, &words, 0, 10), Vec::<usize>::new());
}

#[test]
fn paint_overlay_set_and_clear() {
    let mut s = PaintOverlayState::new();
    assert!(s.overlay.is_none() && s.dirty);
    s.dirty = false;
    // Rejected while empty: nothing changes.
    s.set_paint_overlay(2, 1, vec![0; 8], vec![0; 7]);
    assert!(s.overlay.is_none() && !s.dirty);
    s.set_paint_overlay(0, 1, vec![], vec![]);
    assert!(s.overlay.is_none() && !s.dirty);
    // Accepted.
    s.set_paint_overlay(2, 1, vec![1; 8], vec![2; 8]);
    let o = s.overlay.as_ref().unwrap();
    assert_eq!((o.width, o.height, o.color_rgba.clone(), o.material_rgba.clone()), (2, 1, vec![1; 8], vec![2; 8]));
    assert!(s.dirty);
    // The same overlay again does not raise the flag.
    s.dirty = false;
    s.set_paint_overlay(2, 1, vec![1; 8], vec![2; 8]);
    assert!(!s.dirty);
    // Different bytes do.
    s.set_paint_overlay(2, 1, vec![1; 8], vec![3; 8]);
    assert!(s.dirty);
    assert_eq!(s.overlay.as_ref().unwrap().material_rgba, vec![3; 8]);
    // A rejected overlay removes the current one.
    s.dirty = false;
    s.set_paint_overlay(1, 1, vec![0; 3], vec![0; 4]);
    assert!(s.overlay.is_none() && s.dirty);
    // Clearing an empty state does nothing.
    s.dirty = false;
    s.clear_paint_overlay();
    assert!(!s.dirty);
    s.set_paint_overlay(1, 1, vec![0; 4], vec![0; 4]);
    s.dirty = false;
    s.clear_paint_overlay();
    assert!(s.overlay.is_none() && s.dirty);
}

#[test]
fn ping_pong_frames_alternate() {
    let mut s = PingPongState { enabled: true, front: 0, textures_allocated: true };
    let t = s.frame_targets();
    assert_eq!(t, LayerTargets::PingPong { write: 1, read: 0, next_front: 1 });
    s.finish_frame(1);
    assert_eq!(s.front, 1);
    assert_eq!(s.frame_targets(), LayerTargets::PingPong { write: 0, read: 1, next_front: 0 });
    s.finish_frame(0);
    assert_eq!(s.front, 0);
}

#[test]
fn single_texture_frames_keep_front() {
    let mut s = PingPongState { enabled: false, front: 0, textures_allocated: false };
    assert_eq!(s.frame_targets(), LayerTargets::Single { next_front: 0 });
    s.finish_frame(1);
    assert_eq!(s.front, 0);
}
