//! The decisions of the 3D raster path: which cached geometry a frame
//! rebuilds and which stale flags it clears; and the packing of per-triangle
//! visibility into a bitset.

use vstd::prelude::*;
use crate::scene::tri_bit_set;

verus! {

/// What the 3D raster path knows of its caches at the start of a frame.
#[derive(Debug, Clone, Copy, PartialEq, Eq, Structural)]
pub struct Raster3dCache {
    /// Geometry changed in a way that needs a new acceleration structure.
    pub accel_dirty: bool,
    /// The 3D geometry changed.
    pub geometry3d_dirty: bool,
    /// Only the visibility of triangles changed.
    pub visibility_dirty: bool,
    /// The 3D lines changed.
    pub line3d_dirty: bool,
    /// No combined (static plus dynamic) vertices are cached.
    pub combined_empty: bool,
    /// No static vertices or no static indices are cached.
    pub static_empty: bool,
    /// The previous frame drew dynamic objects.
    pub had_dynamics_last_frame: bool,
}

/// What a frame rebuilds.
#[derive(Debug, Clone, Copy, PartialEq, Eq, Structural)]
pub struct Raster3dRefresh {
    /// Rebuild the combined geometry (and with it the visibility bits).
    pub geometry: bool,
    /// Rebuild the static part first.
    pub static_geometry: bool,
    /// Rebuild only the visibility bits.
    pub visibility_only: bool,
    /// Rebuild the acceleration structure.
    pub bvh: bool,
    /// Rebuild the 3D lines.
    pub lines: bool,
}

/// The combined geometry is rebuilt when anything 3D changed, nothing is
/// cached, or dynamic objects are drawn now or were drawn last frame (so that
/// they also disappear); the static part when geometry changed or it is not
/// cached; the visibility bits alone when only visibility changed.
pub open spec fn raster_3d_refresh_spec(c: Raster3dCache, has_dynamic_objects: bool) -> Raster3dRefresh {
    let geometry = c.accel_dirty || c.geometry3d_dirty || c.combined_empty || has_dynamic_objects
        || c.had_dynamics_last_frame;
    Raster3dRefresh {
        geometry,
        static_geometry: geometry && (c.accel_dirty || c.geometry3d_dirty || c.static_empty),
        visibility_only: c.visibility_dirty && !geometry,
        bvh: c.accel_dirty,
        lines: c.line3d_dirty,
    }
}

/// The flags after the frame: every rebuilt cache is no longer stale, and the
/// memory of drawn dynamics is updated when the geometry was rebuilt.
pub open spec fn raster_3d_after_spec(c: Raster3dCache, has_dynamic_objects: bool) -> Raster3dCache {
    let r = raster_3d_refresh_spec(c, has_dynamic_objects);
    Raster3dCache {
        accel_dirty: false,
        geometry3d_dirty: if r.geometry { false } else { c.geometry3d_dirty },
        visibility_dirty: if r.geometry || r.visibility_only { false } else { c.visibility_dirty },
        line3d_dirty: false,
        had_dynamics_last_frame: if r.geometry { has_dynamic_objects } else { c.had_dynamics_last_frame },
        ..c
    }
}

/// Decides what a frame of the 3D raster path rebuilds.
pub fn raster_3d_refresh(c: Raster3dCache, has_dynamic_objects: bool) -> (r: Raster3dRefresh)
    ensures
        r == raster_3d_refresh_spec(c, has_dynamic_objects),
        c.geometry3d_dirty || c.accel_dirty ==> r.geometry && r.static_geometry,
        c.static_empty && r.geometry ==> r.static_geometry,
        c.combined_empty || has_dynamic_objects || c.had_dynamics_last_frame ==> r.geometry,
        r.bvh == c.accel_dirty,
        r.lines == c.line3d_dirty,
{
    let geometry = c.accel_dirty || c.geometry3d_dirty || c.combined_empty || has_dynamic_objects
        || c.had_dynamics_last_frame;
    Raster3dRefresh {
        geometry,
        static_geometry: geometry && (c.accel_dirty || c.geometry3d_dirty || c.static_empty),
        visibility_only: c.visibility_dirty && !geometry,
        bvh: c.accel_dirty,
        lines: c.line3d_dirty,
    }
}

/// The cache flags after a frame of the 3D raster path.
pub fn raster_3d_after(c: Raster3dCache, has_dynamic_objects: bool) -> (a: Raster3dCache)
    ensures
        a == raster_3d_after_spec(c, has_dynamic_objects),
{
    let r = raster_3d_refresh(c, has_dynamic_objects);
    Raster3dCache {
        accel_dirty: false,
        geometry3d_dirty: if r.geometry { false } else { c.geometry3d_dirty },
        visibility_dirty: if r.geometry || r.visibility_only { false } else { c.visibility_dirty },
        line3d_dirty: false,
        combined_empty: c.combined_empty,
        static_empty: c.static_empty,
        had_dynamics_last_frame: if r.geometry { has_dynamic_objects } else { c.had_dynamics_last_frame },
    }
}

/// What a frame of the 3D raster path rebuilds, over all cache states: a 3D
/// geometry change or an acceleration change rebuilds the combined geometry
/// and its static part; a missing static part is rebuilt whenever geometry is;
/// an empty cache or dynamic objects (now or last frame) rebuild the combined
/// geometry; the static part is only rebuilt with the combined geometry; the
/// BVH and lines are rebuilt exactly when stale; visibility alone is rebuilt
/// exactly when only visibility changed; and with nothing stale, nothing
/// missing and no dynamics, nothing is rebuilt.
pub proof fn lemma_raster_3d_refresh_rules(c: Raster3dCache, has_dynamic_objects: bool)
    ensures
        ({
            let r = raster_3d_refresh_spec(c, has_dynamic_objects);
            &&& (c.geometry3d_dirty || c.accel_dirty ==> r.geometry && r.static_geometry)
            &&& (c.static_empty && r.geometry ==> r.static_geometry)
            &&& (c.combined_empty || has_dynamic_objects || c.had_dynamics_last_frame ==> r.geometry)
            &&& (r.static_geometry ==> r.geometry)
            &&& r.bvh == c.accel_dirty
            &&& r.lines == c.line3d_dirty
            &&& (r.visibility_only <==> c.visibility_dirty && !r.geometry)
            &&& (!c.accel_dirty && !c.geometry3d_dirty && !c.combined_empty && !has_dynamic_objects
                && !c.had_dynamics_last_frame ==> !r.geometry && !r.static_geometry)
        }),
{
}

/// After a frame nothing is stale, so the next frame without changes and
/// without dynamic objects (now or in that frame) rebuilds nothing.
pub proof fn lemma_raster_3d_settles(c: Raster3dCache, has_dynamic_objects: bool)
    requires
        !c.combined_empty,
    ensures
        ({
            let a = raster_3d_after_spec(c, has_dynamic_objects);
            let r = raster_3d_refresh_spec(a, false);
            !has_dynamic_objects ==> {
                &&& !r.geometry
                &&& !r.static_geometry
                &&& !r.visibility_only
                &&& !r.bvh
                &&& !r.lines
            }
        }),
{
}

proof fn lemma_set_bit(w: u32, b: u32, c: u32)
    requires
        b < 32,
        c < 32,
    ensures
        ((w | (1u32 << b)) >> c) & 1u32 != 0u32 <==> (c == b || (w >> c) & 1u32 != 0u32),
{
    assert(((w | (1u32 << b)) >> c) & 1u32 != 0u32 <==> (c == b || (w >> c) & 1u32 != 0u32)) by (bit_vector)
        requires
            b < 32,
            c < 32,
    ;
}

proof fn lemma_zero_bits(c: u32)
    requires
        c < 32,
    ensures
        (0u32 >> c) & 1u32 == 0u32,
{
    assert((0u32 >> c) & 1u32 == 0u32) by (bit_vector);
}

/// Packs per-triangle visibility into 32-bit words, triangle `t` at bit
/// `t % 32` of word `t / 32`; an empty list counts as one invisible triangle,
/// so there is always at least one word.
pub fn pack_visibility(visible: &Vec<bool>) -> (words: Vec<u32>)
    requires
        visible.len() + 31 <= usize::MAX,
    ensures
        words.len() == if visible.len() == 0 { 1 } else { (visible.len() + 31) / 32 },
        forall|t: int| 0 <= t < 32 * words.len() ==> (tri_bit_set(words@, t) <==> t < visible.len() && visible@[t]),
{
    let n = visible.len();
    let count = if n == 0 { 1 } else { (n + 31) / 32 };
    let mut words: Vec<u32> = Vec::new();
    for i in 0..count
        invariant
            words.len() == i,
            forall|j: int| 0 <= j < i ==> words@[j] == 0u32,
    {
        words.push(0);
    }
    assert forall|t: int| 0 <= t < 32 * words.len() implies !tri_bit_set(words@, t) by {
        lemma_zero_bits((t % 32) as u32);
    }
    for i in 0..n
        invariant
            n == visible.len(),
            words.len() == count,
            count == if n == 0 { 1 } else { (n + 31) / 32 },
            forall|t: int| 0 <= t < 32 * words.len() ==> (tri_bit_set(words@, t) <==> t < i && visible@[t]),
    {
        if visible[i] {
            let w = i / 32;
            let b = (i % 32) as u32;
            let ghost before = words@;
            let old_word = words[w];
            words.set(w, old_word | (1u32 << b));
            assert forall|t: int| 0 <= t < 32 * words.len() implies (tri_bit_set(words@, t) <==> t < i + 1 && visible@[t]) by {
                let c = (t % 32) as u32;
                if t / 32 == w {
                    lemma_set_bit(old_word, b, c);
                    assert(before[t / 32] == old_word);
                    assert(words@[t / 32] == old_word | (1u32 << b));
                    assert((c == b) <==> (t == i));
                    assert(tri_bit_set(before, t) <==> t < i && visible@[t]);
                } else {
                    assert(words@[t / 32] == before[t / 32]);
                    assert(tri_bit_set(before, t) <==> t < i && visible@[t]);
                    assert(t != i);
                }
            }
        }
    }
    words
}

} // verus!
