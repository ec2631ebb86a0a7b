//! The decisions of the 2D draw paths: when the cached 2D geometry is rebuilt,
//! and which pair of tile indices the vertices of a dynamic billboard carry.

use vstd::prelude::*;

verus! {

/// Flag set on the second tile index of a particle billboard's vertices.
pub const PARTICLE_TILE_FLAG: u32 = 0x0800_0000;

/// Second tile index of an avatar billboard's vertices, marking the first
/// index as an avatar slot rather than an atlas tile.
pub const AVATAR_TILE_MARK: u32 = 0x8000_0000;

/// What the raster path knows of its cached 2D geometry.
#[derive(Debug, Clone, Copy)]
pub struct Geometry2dCache {
    /// The scene's 2D geometry changed since the last build.
    pub dirty: bool,
    /// No combined (static plus dynamic) vertices are cached.
    pub combined_empty: bool,
    /// The frame size the combined geometry was built for.
    pub combined_fb: (u32, u32),
    /// No static vertices or no static indices are cached.
    pub static_empty: bool,
    /// The frame size the static geometry was built for.
    pub static_fb: (u32, u32),
}

/// What the raster path does with its 2D geometry this frame.
#[derive(Debug, Clone, Copy, PartialEq, Eq, Structural)]
pub enum Refresh2d {
    /// Draw the cached geometry as it is.
    Reuse,
    /// Rebuild the combined geometry from the cached static part.
    Combine,
    /// Rebuild the static part first, then the combined geometry.
    RebuildStatic,
}

/// The raster path rebuilds when the scene changed, nothing is cached, the
/// frame size changed, or dynamic billboards are present (they move every
/// frame); it rebuilds the static part too when the scene changed, the static
/// cache is empty, or it was built for another frame size.
pub open spec fn raster_refresh_spec(c: Geometry2dCache, fb: (u32, u32), has_dynamic_billboards: bool) -> Refresh2d {
    if !(c.dirty || c.combined_empty || c.combined_fb != fb || has_dynamic_billboards) {
        Refresh2d::Reuse
    } else if c.dirty || c.static_empty || c.static_fb != fb {
        Refresh2d::RebuildStatic
    } else {
        Refresh2d::Combine
    }
}

/// Decides what the raster path does with its 2D geometry.
pub fn raster_2d_refresh(c: Geometry2dCache, fb: (u32, u32), has_dynamic_billboards: bool) -> (r: Refresh2d)
    ensures
        r == raster_refresh_spec(c, fb, has_dynamic_billboards),
        c.combined_fb.0 != fb.0 || c.combined_fb.1 != fb.1 ==> r != Refresh2d::Reuse,
        c.dirty ==> r == Refresh2d::RebuildStatic,
        c.combined_empty || has_dynamic_billboards ==> r != Refresh2d::Reuse,
        r != Refresh2d::Reuse && (c.static_empty || c.static_fb.0 != fb.0 || c.static_fb.1 != fb.1)
            ==> r == Refresh2d::RebuildStatic,
{
    let size_changed = c.combined_fb.0 != fb.0 || c.combined_fb.1 != fb.1;
    if !(c.dirty || c.combined_empty || size_changed || has_dynamic_billboards) {
        Refresh2d::Reuse
    } else if c.dirty || c.static_empty || c.static_fb.0 != fb.0 || c.static_fb.1 != fb.1 {
        Refresh2d::RebuildStatic
    } else {
        Refresh2d::Combine
    }
}

/// Whether the compute path rebuilds its 2D geometry: when the scene changed,
/// nothing is cached, or the frame size changed.
pub fn compute_2d_rebuild(dirty: bool, cached_empty: bool, cached_fb: (u32, u32), fb: (u32, u32)) -> (r: bool)
    ensures
        r == (dirty || cached_empty || cached_fb != fb),
{
    dirty || cached_empty || cached_fb.0 != fb.0 || cached_fb.1 != fb.1
}

/// The kind of a dynamic object.
#[derive(Debug, Clone, Copy, PartialEq, Eq, Structural)]
pub enum DynamicKind {
    BillboardTile,
    BillboardAvatar,
    ParticleBillboard,
    Mesh,
}

/// The tile indices a dynamic object's billboard vertices carry, given the
/// atlas index of its tile (if it has one the atlas knows) and its avatar slot
/// (if its avatar has one); `None` when it is not drawn as a billboard.
pub open spec fn billboard_tiles_spec(kind: DynamicKind, atlas_tile: Option<u32>, avatar_slot: Option<u32>) -> Option<(u32, u32)> {
    match kind {
        DynamicKind::BillboardTile => match atlas_tile {
            Some(t) => Some((t, t)),
            None => None,
        },
        DynamicKind::ParticleBillboard => match atlas_tile {
            Some(t) => Some((t, t | PARTICLE_TILE_FLAG)),
            None => None,
        },
        DynamicKind::BillboardAvatar => match avatar_slot {
            Some(a) => Some((a, AVATAR_TILE_MARK)),
            None => None,
        },
        DynamicKind::Mesh => None,
    }
}

/// Picks the tile indices of a dynamic object's billboard vertices.
pub fn billboard_tiles(kind: DynamicKind, atlas_tile: Option<u32>, avatar_slot: Option<u32>) -> (r: Option<(u32, u32)>)
    ensures
        r == billboard_tiles_spec(kind, atlas_tile, avatar_slot),
{
    match kind {
        DynamicKind::BillboardTile => match atlas_tile {
            Some(t) => Some((t, t)),
            None => None,
        },
        DynamicKind::ParticleBillboard => match atlas_tile {
            Some(t) => Some((t, t | PARTICLE_TILE_FLAG)),
            None => None,
        },
        DynamicKind::BillboardAvatar => match avatar_slot {
            Some(a) => Some((a, AVATAR_TILE_MARK)),
            None => None,
        },
        DynamicKind::Mesh => None,
    }
}

/// What the raster path's decision guarantees, over all caches and frame
/// sizes: a frame of another width or height never reuses geometry built for
/// the old size; a scene change rebuilds the static part; an empty combined
/// cache or dynamic billboards force a rebuild; whenever it rebuilds, a static
/// part that is missing or was built for another width or height is rebuilt
/// too; and with nothing changed and no dynamic billboards, the cache is reused.
pub proof fn lemma_raster_2d_refresh_rules(c: Geometry2dCache, fb: (u32, u32), has_dynamic_billboards: bool)
    ensures
        ({
            let r = raster_refresh_spec(c, fb, has_dynamic_billboards);
            &&& (c.combined_fb.0 != fb.0 || c.combined_fb.1 != fb.1 ==> r != Refresh2d::Reuse)
            &&& (c.dirty ==> r == Refresh2d::RebuildStatic)
            &&& (c.combined_empty || has_dynamic_billboards ==> r != Refresh2d::Reuse)
            &&& (r != Refresh2d::Reuse && (c.static_empty || c.static_fb.0 != fb.0 || c.static_fb.1
                != fb.1) ==> r == Refresh2d::RebuildStatic)
            &&& (!c.dirty && !c.combined_empty && c.combined_fb.0 == fb.0 && c.combined_fb.1 == fb.1
                && !has_dynamic_billboards ==> r == Refresh2d::Reuse)
        }),
{
}

/// The compute path rebuilds exactly when the scene changed, nothing is
/// cached, or the frame's width or height differs from the cached one.
pub proof fn lemma_compute_2d_rebuild_rule(dirty: bool, cached_empty: bool, cached_fb: (u32, u32), fb: (u32, u32))
    ensures
        (dirty || cached_empty || cached_fb != fb) <==> (dirty || cached_empty || cached_fb.0 != fb.0
            || cached_fb.1 != fb.1),
{
}

/// Tile indices of billboard vertices: meshes are never drawn as billboards;
/// a tile or particle billboard draws its atlas tile (the particle one with
/// the particle flag on the second index) and nothing without one; an avatar
/// billboard draws its avatar slot, marked, and nothing without one.
pub proof fn lemma_billboard_tiles_rules(kind: DynamicKind, atlas_tile: Option<u32>, avatar_slot: Option<u32>)
    ensures
        ({
            let r = billboard_tiles_spec(kind, atlas_tile, avatar_slot);
            &&& (kind == DynamicKind::Mesh ==> r is None)
            &&& (kind == DynamicKind::BillboardTile ==> (r is Some <==> atlas_tile is Some) && (r matches Some(
                p,
            ) ==> p.0 == atlas_tile->0 && p.1 == atlas_tile->0))
            &&& (kind == DynamicKind::ParticleBillboard ==> (r is Some <==> atlas_tile is Some) && (r matches Some(
                p,
            ) ==> p.0 == atlas_tile->0 && p.1 & 0x0800_0000u32 != 0u32 && p.1 & !0x0800_0000u32 == atlas_tile->0
                & !0x0800_0000u32))
            &&& (kind == DynamicKind::BillboardAvatar ==> (r is Some <==> avatar_slot is Some) && (r matches Some(
                p,
            ) ==> p.0 == avatar_slot->0 && p.1 == 0x8000_0000u32))
        }),
{
    if let Some(t) = atlas_tile {
        assert((t | 0x0800_0000u32) & 0x0800_0000u32 != 0u32) by (bit_vector);
        assert((t | 0x0800_0000u32) & !0x0800_0000u32 == t & !0x0800_0000u32) by (bit_vector);
    }
}

} // verus!
