//! The integer bookkeeping of the scene VM: which chunks exist, which one new
//! geometry goes into, which caches each change marks stale, and the scene
//! settings a clear resets (render mode, animation counter, SDF data) or a
//! change invalidates caches for (multisample count, BVH leaf size). A chunk's
//! geometry is tracked as the list of items added to it, each with a handle
//! chosen by the caller; SDF data is tracked by its number of entries.

use vstd::prelude::*;
use crate::scene::{bvh_leaf_size, raster3d_msaa_request};

verus! {

/// One piece of geometry added to a chunk, named by a caller-chosen handle.
#[derive(Debug, Clone, Copy, PartialEq, Eq, Structural)]
pub enum ChunkItem {
    Poly2D(u64),
    Poly3D(u64),
    Line3D(u64),
    LineStrip2D(u64),
    LineStrip2DPx(u64),
}

/// A chunk's position on the chunk grid.
#[derive(Debug, Clone, Copy, PartialEq, Eq, Structural)]
pub struct ChunkOrigin {
    pub x: i32,
    pub y: i32,
}

/// A chunk: its id, its origin on the chunk grid and its items in the order
/// they were added.
#[derive(Debug, Clone)]
pub struct SceneChunk {
    pub id: u128,
    pub origin: ChunkOrigin,
    pub items: Vec<ChunkItem>,
}

/// The view of a chunk.
pub struct ChunkView {
    pub id: u128,
    pub origin: ChunkOrigin,
    pub items: Seq<ChunkItem>,
}

impl View for SceneChunk {
    type V = ChunkView;

    open spec fn view(&self) -> ChunkView {
        ChunkView { id: self.id, origin: self.origin, items: self.items@ }
    }
}

/// How the VM renders.
#[derive(Debug, Clone, Copy, PartialEq, Eq, Structural)]
pub enum RenderMode {
    Compute2D,
    Raster2D,
    Compute3D,
    Raster3D,
    Sdf,
}

/// The chunks of a scene, the current chunk, the stale-cache flags, and the
/// integer scene settings.
#[derive(Debug, Clone)]
pub struct SceneChunks {
    pub chunks: Vec<SceneChunk>,
    pub current: Option<u128>,
    pub geometry2d_dirty: bool,
    pub accel_dirty: bool,
    pub line3d_dirty: bool,
    pub irradiance_dirty: bool,
    pub organic_dirty: bool,
    pub animation_counter: usize,
    pub render_mode: RenderMode,
    /// Number of SDF data entries.
    pub sdf_entries: usize,
    pub sdf_data_dirty: bool,
    /// Multisample count of the 3D raster path (0 or 4).
    pub raster3d_msaa_samples: u32,
    /// The 3D raster pipelines and bind groups were built for another
    /// multisample count and must be rebuilt.
    pub raster3d_pipelines_stale: bool,
    pub bvh_leaf_size: u32,
}

/// The view of the scene bookkeeping.
pub struct SceneChunksView {
    pub chunks: Seq<ChunkView>,
    pub current: Option<u128>,
    pub geometry2d_dirty: bool,
    pub accel_dirty: bool,
    pub line3d_dirty: bool,
    pub irradiance_dirty: bool,
    pub organic_dirty: bool,
    pub animation_counter: usize,
    pub render_mode: RenderMode,
    pub sdf_entries: usize,
    pub sdf_data_dirty: bool,
    pub raster3d_msaa_samples: u32,
    pub raster3d_pipelines_stale: bool,
    pub bvh_leaf_size: u32,
}

/// The views of a list of chunks.
pub open spec fn chunk_views(s: Seq<SceneChunk>) -> Seq<ChunkView> {
    s.map_values(|c: SceneChunk| c@)
}

impl View for SceneChunks {
    type V = SceneChunksView;

    open spec fn view(&self) -> SceneChunksView {
        SceneChunksView {
            chunks: chunk_views(self.chunks@),
            current: self.current,
            geometry2d_dirty: self.geometry2d_dirty,
            accel_dirty: self.accel_dirty,
            line3d_dirty: self.line3d_dirty,
            irradiance_dirty: self.irradiance_dirty,
            organic_dirty: self.organic_dirty,
            animation_counter: self.animation_counter,
            render_mode: self.render_mode,
            sdf_entries: self.sdf_entries,
            sdf_data_dirty: self.sdf_data_dirty,
            raster3d_msaa_samples: self.raster3d_msaa_samples,
            raster3d_pipelines_stale: self.raster3d_pipelines_stale,
            bvh_leaf_size: self.bvh_leaf_size,
        }
    }
}

/// A change to the scene bookkeeping. Line strips carry their point count;
/// a pixel-wide strip also says whether its width is positive.
#[derive(Debug, Clone)]
pub enum ChunkAtom {
    AddPoly { handle: u64 },
    AddPoly3D { handle: u64 },
    AddLine3D { handle: u64 },
    AddLineStrip2D { handle: u64, points: usize },
    AddLineStrip2DPx { handle: u64, points: usize, width_positive: bool },
    NewChunk { id: u128 },
    AddChunk { id: u128, origin: ChunkOrigin, items: Vec<ChunkItem> },
    RemoveChunk { id: u128 },
    RemoveChunkAt { origin: ChunkOrigin },
    SetCurrentChunk { id: u128 },
    Clear,
    ClearTiles,
    ClearGeometry,
    SetAnimationCounter { counter: usize },
    SetRenderMode { mode: RenderMode },
    SetSdfData { entries: usize },
    SetRaster3DMsaaSamples { samples: u32 },
    SetBvhLeafSize { max_tris: u32 },
}

/// Whether some chunk has id `id`.
pub open spec fn has_chunk(s: Seq<ChunkView>, id: u128) -> bool {
    exists|i: int| 0 <= i < s.len() && #[trigger] s[i].id == id
}

/// No two chunks share an id.
pub open spec fn ids_distinct(s: Seq<ChunkView>) -> bool {
    forall|i: int, j: int| 0 <= i < s.len() && 0 <= j < s.len() && i != j ==> #[trigger] s[i].id != #[trigger] s[j].id
}

/// The position of the chunk with id `id` (meaningful when there is one).
pub open spec fn chunk_index(s: Seq<ChunkView>, id: u128) -> int {
    choose|i: int| 0 <= i < s.len() && #[trigger] s[i].id == id
}

/// An empty chunk at the grid origin.
pub open spec fn empty_chunk(id: u128) -> ChunkView {
    ChunkView { id, origin: ChunkOrigin { x: 0, y: 0 }, items: Seq::empty() }
}

/// Stores `c` under its id: replaces the chunk with that id, or appends it.
pub open spec fn set_chunk(s: Seq<ChunkView>, c: ChunkView) -> Seq<ChunkView> {
    if has_chunk(s, c.id) {
        s.update(chunk_index(s, c.id), c)
    } else {
        s.push(c)
    }
}

/// Adds `item` to the chunk with id `id`, creating an empty one if there is none.
pub open spec fn append_item(s: Seq<ChunkView>, id: u128, item: ChunkItem) -> Seq<ChunkView> {
    if has_chunk(s, id) {
        let i = chunk_index(s, id);
        s.update(i, ChunkView { items: s[i].items.push(item), ..s[i] })
    } else {
        s.push(ChunkView { items: seq![item], ..empty_chunk(id) })
    }
}

/// The chunks that satisfy `keep`, in order.
pub open spec fn keep_chunks(s: Seq<ChunkView>, keep: spec_fn(ChunkView) -> bool) -> Seq<ChunkView>
    decreases s.len(),
{
    if s.len() == 0 {
        Seq::empty()
    } else {
        let prev = keep_chunks(s.drop_last(), keep);
        if keep(s.last()) {
            prev.push(s.last())
        } else {
            prev
        }
    }
}

/// Which chunks a removal drops: the one with an id, or all at an origin.
#[derive(Debug, Clone, Copy, PartialEq, Eq, Structural)]
pub enum RemoveRule {
    Id(u128),
    Origin(ChunkOrigin),
}

/// The chunks a removal keeps.
pub open spec fn rule_pred(rule: RemoveRule) -> spec_fn(ChunkView) -> bool {
    |c: ChunkView|
        match rule {
            RemoveRule::Id(id) => c.id != id,
            RemoveRule::Origin(o) => c.origin != o,
        }
}

/// Adds `item` to the current chunk, first creating chunk `fresh` as the
/// current one when there is no current chunk.
pub open spec fn add_to_current(v: SceneChunksView, item: ChunkItem, fresh: u128) -> SceneChunksView {
    match v.current {
        Some(c) => SceneChunksView { chunks: append_item(v.chunks, c, item), ..v },
        None => SceneChunksView {
            chunks: append_item(set_chunk(v.chunks, empty_chunk(fresh)), fresh, item),
            current: Some(fresh),
            ..v
        },
    }
}

/// The flags a change of the chunk set raises.
pub open spec fn chunks_changed(v: SceneChunksView) -> SceneChunksView {
    SceneChunksView { accel_dirty: true, line3d_dirty: true, organic_dirty: true, geometry2d_dirty: true, ..v }
}

/// The flags that mark all geometry stale, with the organic billboards.
pub open spec fn all_geometry_stale(v: SceneChunksView) -> SceneChunksView {
    SceneChunksView {
        geometry2d_dirty: true,
        accel_dirty: true,
        line3d_dirty: true,
        irradiance_dirty: true,
        organic_dirty: true,
        ..v
    }
}

/// The bookkeeping after `atom`; `fresh` is the id a chunk created for new
/// geometry gets.
pub open spec fn chunk_step(v: SceneChunksView, atom: ChunkAtom, fresh: u128) -> SceneChunksView {
    match atom {
        ChunkAtom::AddPoly { handle } => SceneChunksView {
            geometry2d_dirty: true,
            ..add_to_current(v, ChunkItem::Poly2D(handle), fresh)
        },
        ChunkAtom::AddPoly3D { handle } => SceneChunksView {
            accel_dirty: true,
            ..add_to_current(v, ChunkItem::Poly3D(handle), fresh)
        },
        ChunkAtom::AddLine3D { handle } => SceneChunksView {
            line3d_dirty: true,
            ..add_to_current(v, ChunkItem::Line3D(handle), fresh)
        },
        ChunkAtom::AddLineStrip2D { handle, points } => if points < 2 {
            v
        } else {
            SceneChunksView {
                accel_dirty: true,
                geometry2d_dirty: true,
                ..add_to_current(v, ChunkItem::LineStrip2D(handle), fresh)
            }
        },
        ChunkAtom::AddLineStrip2DPx { handle, points, width_positive } => if points < 2 || !width_positive {
            v
        } else {
            SceneChunksView {
                geometry2d_dirty: true,
                ..add_to_current(v, ChunkItem::LineStrip2DPx(handle), fresh)
            }
        },
        ChunkAtom::NewChunk { id } => chunks_changed(
            if has_chunk(v.chunks, id) {
                v
            } else {
                SceneChunksView { chunks: v.chunks.push(empty_chunk(id)), ..v }
            },
        ),
        ChunkAtom::AddChunk { id, origin, items } => chunks_changed(
            SceneChunksView { chunks: set_chunk(v.chunks, ChunkView { id, origin, items: items@ }), ..v },
        ),
        ChunkAtom::RemoveChunk { id } => chunks_changed(
            SceneChunksView {
                chunks: keep_chunks(v.chunks, rule_pred(RemoveRule::Id(id))),
                current: if v.current == Some(id) {
                    None
                } else {
                    v.current
                },
                ..v
            },
        ),
        ChunkAtom::RemoveChunkAt { origin } => chunks_changed(
            SceneChunksView {
                chunks: keep_chunks(v.chunks, rule_pred(RemoveRule::Origin(origin))),
                current: match v.current {
                    Some(c) => if has_chunk(v.chunks, c) && v.chunks[chunk_index(v.chunks, c)].origin
                        == origin {
                        None
                    } else {
                        v.current
                    },
                    None => None,
                },
                ..v
            },
        ),
        ChunkAtom::SetCurrentChunk { id } => SceneChunksView {
            chunks: if has_chunk(v.chunks, id) {
                v.chunks
            } else {
                v.chunks.push(empty_chunk(id))
            },
            current: Some(id),
            ..v
        },
        ChunkAtom::Clear => SceneChunksView {
            chunks: Seq::empty(),
            current: None,
            animation_counter: 0,
            render_mode: RenderMode::Compute2D,
            sdf_entries: 0,
            sdf_data_dirty: true,
            ..all_geometry_stale(v)
        },
        ChunkAtom::ClearTiles => all_geometry_stale(v),
        ChunkAtom::ClearGeometry => SceneChunksView {
            chunks: Seq::empty(),
            current: None,
            accel_dirty: true,
            geometry2d_dirty: true,
            organic_dirty: true,
            ..v
        },
        ChunkAtom::SetAnimationCounter { counter } => SceneChunksView { animation_counter: counter, ..v },
        ChunkAtom::SetRenderMode { mode } => SceneChunksView { render_mode: mode, ..v },
        ChunkAtom::SetSdfData { entries } => SceneChunksView { sdf_entries: entries, sdf_data_dirty: true, ..v },
        ChunkAtom::SetRaster3DMsaaSamples { samples } => {
            let s: u32 = if samples == 0 { 0 } else { 4 };
            if s != v.raster3d_msaa_samples {
                SceneChunksView { raster3d_msaa_samples: s, raster3d_pipelines_stale: true, ..v }
            } else {
                v
            }
        },
        ChunkAtom::SetBvhLeafSize { max_tris } => SceneChunksView {
            bvh_leaf_size: if max_tris < 1 { 1 } else { max_tris },
            accel_dirty: true,
            ..v
        },
    }
}

/// Whether `r` is `v` with `item` added to the current chunk, where a scene
/// with no current chunk first gets an empty chunk `fresh` as its current one.
pub open spec fn gained_item(v: SceneChunksView, r: SceneChunksView, fresh: u128, item: ChunkItem) -> bool {
    let c = match v.current {
        Some(c0) => c0,
        None => fresh,
    };
    let prior = match v.current {
        Some(c0) => v.chunks[chunk_index(v.chunks, c0)].items,
        None => Seq::empty(),
    };
    &&& r.current == Some(c)
    &&& has_chunk(r.chunks, c)
    &&& r.chunks[chunk_index(r.chunks, c)].items == prior.push(item)
}

proof fn lemma_add_to_current_gains(v: SceneChunksView, item: ChunkItem, fresh: u128)
    requires
        v.wf(),
        !has_chunk(v.chunks, fresh),
    ensures
        gained_item(v, add_to_current(v, item, fresh), fresh, item),
{
    let r = add_to_current(v, item, fresh);
    match v.current {
        Some(c) => {
            let p = chunk_index(v.chunks, c);
            let w = choose|i: int| 0 <= i < v.chunks.len() && #[trigger] v.chunks[i].id == c;
            lemma_chunk_index(v.chunks, w);
            lemma_append_item(v.chunks, c, item);
            assert(r.chunks[p].id == c);
            lemma_chunk_index(r.chunks, p);
        },
        None => {
            let s1 = set_chunk(v.chunks, empty_chunk(fresh));
            lemma_set_chunk(v.chunks, empty_chunk(fresh));
            assert(s1 == v.chunks.push(empty_chunk(fresh)));
            let n = v.chunks.len() as int;
            assert(s1[n].id == fresh);
            lemma_chunk_index(s1, n);
            lemma_append_item(s1, fresh, item);
            assert(r.chunks[n].id == fresh);
            lemma_chunk_index(r.chunks, n);
        },
    }
}

/// What each change does, over all well-formed states:
/// - accepted geometry (any polygon or 3D line, a line strip of at least two
///   points, a pixel-wide strip of at least two points and positive width)
///   joins the current chunk, creating chunk `fresh` as the current one when
///   there is none, and marks its caches stale; a rejected strip changes no
///   chunk;
/// - a removed chunk is gone and every other chunk stays; a created or
///   selected chunk exists, and a selected one is current;
/// - a clear of the scene or its geometry leaves no chunk and no current one,
///   and a scene clear resets the animation counter, render mode and SDF data;
/// - the multisample count becomes 0 or 4, and a changed count makes the 3D
///   pipelines stale; a leaf size is at least 1, keeps any positive request,
///   and marks the acceleration structure stale.
pub proof fn lemma_chunk_step_effects(v: SceneChunksView, atom: ChunkAtom, fresh: u128)
    requires
        v.wf(),
        !has_chunk(v.chunks, fresh),
    ensures
        ({
            let r = chunk_step(v, atom, fresh);
            &&& (atom matches ChunkAtom::AddPoly { handle } ==> gained_item(v, r, fresh, ChunkItem::Poly2D(handle))
                && r.geometry2d_dirty)
            &&& (atom matches ChunkAtom::AddPoly3D { handle } ==> gained_item(v, r, fresh, ChunkItem::Poly3D(handle))
                && r.accel_dirty)
            &&& (atom matches ChunkAtom::AddLine3D { handle } ==> gained_item(v, r, fresh, ChunkItem::Line3D(handle))
                && r.line3d_dirty)
            &&& (atom matches ChunkAtom::AddLineStrip2D { handle, points } ==> if points >= 2 {
                gained_item(v, r, fresh, ChunkItem::LineStrip2D(handle)) && r.accel_dirty && r.geometry2d_dirty
            } else {
                r.chunks == v.chunks && r.current == v.current
            })
            &&& (atom matches ChunkAtom::AddLineStrip2DPx { handle, points, width_positive } ==> if points >= 2
                && width_positive {
                gained_item(v, r, fresh, ChunkItem::LineStrip2DPx(handle)) && r.geometry2d_dirty
            } else {
                r.chunks == v.chunks && r.current == v.current
            })
            &&& (atom matches ChunkAtom::RemoveChunk { id } ==> !has_chunk(r.chunks, id) && r.current != Some(id)
                && forall|x: u128| x != id ==> (has_chunk(r.chunks, x) <==> has_chunk(v.chunks, x)))
            &&& (atom matches ChunkAtom::NewChunk { id } ==> has_chunk(r.chunks, id) && r.current == v.current)
            &&& (atom matches ChunkAtom::SetCurrentChunk { id } ==> has_chunk(r.chunks, id) && r.current == Some(id))
            &&& (atom matches ChunkAtom::AddChunk { id, .. } ==> has_chunk(r.chunks, id))
            &&& (atom is Clear || atom is ClearGeometry ==> r.chunks.len() == 0 && r.current is None)
            &&& (atom is Clear ==> r.animation_counter == 0 && r.render_mode == RenderMode::Compute2D
                && r.sdf_entries == 0 && r.accel_dirty && r.geometry2d_dirty && r.line3d_dirty)
            &&& (atom matches ChunkAtom::SetRaster3DMsaaSamples { samples } ==> (r.raster3d_msaa_samples == 0
                <==> samples == 0) && (r.raster3d_msaa_samples == 0 || r.raster3d_msaa_samples == 4) && (
            r.raster3d_msaa_samples != v.raster3d_msaa_samples ==> r.raster3d_pipelines_stale))
            &&& (atom matches ChunkAtom::SetBvhLeafSize { max_tris } ==> r.bvh_leaf_size >= 1 && (max_tris >= 1
                ==> r.bvh_leaf_size == max_tris) && r.accel_dirty)
        }),
{
    let r = chunk_step(v, atom, fresh);
    match atom {
        ChunkAtom::AddPoly { handle } => {
            lemma_add_to_current_gains(v, ChunkItem::Poly2D(handle), fresh);
        },
        ChunkAtom::AddPoly3D { handle } => {
            lemma_add_to_current_gains(v, ChunkItem::Poly3D(handle), fresh);
        },
        ChunkAtom::AddLine3D { handle } => {
            lemma_add_to_current_gains(v, ChunkItem::Line3D(handle), fresh);
        },
        ChunkAtom::AddLineStrip2D { handle, .. } => {
            lemma_add_to_current_gains(v, ChunkItem::LineStrip2D(handle), fresh);
        },
        ChunkAtom::AddLineStrip2DPx { handle, .. } => {
            lemma_add_to_current_gains(v, ChunkItem::LineStrip2DPx(handle), fresh);
        },
        ChunkAtom::RemoveChunk { id } => {
            let keep = rule_pred(RemoveRule::Id(id));
            lemma_keep_chunks(v.chunks, keep);
            let k = keep_chunks(v.chunks, keep);
            assert forall|x: u128| x != id implies (has_chunk(k, x) <==> has_chunk(v.chunks, x)) by {
                if has_chunk(v.chunks, x) {
                    let i = choose|i: int| 0 <= i < v.chunks.len() && #[trigger] v.chunks[i].id == x;
                    assert(keep(v.chunks[i]));
                    let j = choose|j: int| 0 <= j < k.len() && k[j] == v.chunks[i];
                    assert(k[j].id == x);
                }
                if has_chunk(k, x) {
                    let j = choose|j: int| 0 <= j < k.len() && #[trigger] k[j].id == x;
                    assert(v.chunks.contains(k[j]));
                    let i = choose|i: int| 0 <= i < v.chunks.len() && v.chunks[i] == k[j];
                    assert(v.chunks[i].id == x);
                }
            }
            if has_chunk(k, id) {
                let j = choose|j: int| 0 <= j < k.len() && #[trigger] k[j].id == id;
                assert(keep(k[j]));
            }
            lemma_chunk_step_keeps_wf(v, atom, fresh);
        },
        ChunkAtom::NewChunk { id } => {
            lemma_set_chunk(v.chunks, empty_chunk(id));
            if !has_chunk(v.chunks, id) {
                assert(v.chunks.push(empty_chunk(id))[v.chunks.len() as int].id == id);
            }
        },
        ChunkAtom::SetCurrentChunk { id } => {
            if !has_chunk(v.chunks, id) {
                assert(v.chunks.push(empty_chunk(id))[v.chunks.len() as int].id == id);
            }
        },
        ChunkAtom::AddChunk { id, origin, items } => {
            lemma_set_chunk(v.chunks, ChunkView { id, origin, items: items@ });
        },
        _ => {},
    }
}

impl SceneChunksView {
    /// Chunk ids are distinct, and the current chunk, if any, exists.
    pub open spec fn wf(self) -> bool {
        &&& ids_distinct(self.chunks)
        &&& (self.current matches Some(c) ==> has_chunk(self.chunks, c))
    }
}

proof fn lemma_keep_chunks(s: Seq<ChunkView>, keep: spec_fn(ChunkView) -> bool)
    ensures
        forall|i: int| 0 <= i < keep_chunks(s, keep).len() ==> s.contains(#[trigger] keep_chunks(s, keep)[i]) && keep(keep_chunks(s, keep)[i]),
        forall|i: int| 0 <= i < s.len() && keep(#[trigger] s[i]) ==> keep_chunks(s, keep).contains(s[i]),
        ids_distinct(s) ==> ids_distinct(keep_chunks(s, keep)),
    decreases s.len(),
{
    if s.len() > 0 {
        let t = s.drop_last();
        lemma_keep_chunks(t, keep);
        let prev = keep_chunks(t, keep);
        let k = keep_chunks(s, keep);
        assert forall|i: int| 0 <= i < k.len() implies s.contains(#[trigger] k[i]) && keep(k[i]) by {
            if i < prev.len() {
                assert(k[i] == prev[i]);
                let j = choose|j: int| 0 <= j < t.len() && t[j] == prev[i];
                assert(s[j] == t[j]);
            } else {
                assert(s[s.len() - 1] == k[i]);
            }
        }
        assert forall|i: int| 0 <= i < s.len() && keep(#[trigger] s[i]) implies k.contains(s[i]) by {
            if i < s.len() - 1 {
                assert(t[i] == s[i]);
                let j = choose|j: int| 0 <= j < prev.len() && prev[j] == t[i];
                assert(k[j] == prev[j]);
            } else {
                assert(k[k.len() - 1] == s[i]);
            }
        }
        if ids_distinct(s) {
            assert(ids_distinct(t)) by {
                assert forall|a: int, b: int| 0 <= a < t.len() && 0 <= b < t.len() && a != b implies #[trigger] t[a].id != #[trigger] t[b].id by {
                    assert(t[a] == s[a] && t[b] == s[b]);
                }
            }
            if keep(s.last()) {
                assert forall|a: int, b: int| 0 <= a < k.len() && 0 <= b < k.len() && a != b implies #[trigger] k[a].id != #[trigger] k[b].id by {
                    if a < prev.len() && b < prev.len() {
                        assert(k[a] == prev[a] && k[b] == prev[b]);
                    } else if a < prev.len() {
                        assert(k[a] == prev[a]);
                        let j = choose|j: int| 0 <= j < t.len() && t[j] == prev[a];
                        assert(s[j] == t[j]);
                        assert(s[j].id != s[s.len() - 1].id);
                    } else {
                        assert(k[b] == prev[b]);
                        let j = choose|j: int| 0 <= j < t.len() && t[j] == prev[b];
                        assert(s[j] == t[j]);
                        assert(s[j].id != s[s.len() - 1].id);
                    }
                }
            }
        }
    }
}

proof fn lemma_chunk_index(s: Seq<ChunkView>, i: int)
    requires
        ids_distinct(s),
        0 <= i < s.len(),
    ensures
        has_chunk(s, s[i].id),
        chunk_index(s, s[i].id) == i,
{
    assert(s[i].id == s[i].id);
}

proof fn lemma_set_chunk(s: Seq<ChunkView>, c: ChunkView)
    requires
        ids_distinct(s),
    ensures
        ids_distinct(set_chunk(s, c)),
        forall|id: u128| has_chunk(set_chunk(s, c), id) <==> (has_chunk(s, id) || id == c.id),
{
    let r = set_chunk(s, c);
    if has_chunk(s, c.id) {
        let p = chunk_index(s, c.id);
        assert forall|id: u128| has_chunk(r, id) <==> (has_chunk(s, id) || id == c.id) by {
            if has_chunk(s, id) {
                let i = choose|i: int| 0 <= i < s.len() && #[trigger] s[i].id == id;
                assert(r[i].id == id);
            }
            if has_chunk(r, id) {
                let i = choose|i: int| 0 <= i < r.len() && #[trigger] r[i].id == id;
                if i != p {
                    assert(s[i].id == id);
                }
            }
            if id == c.id {
                assert(r[p].id == id);
            }
        }
    } else {
        assert forall|id: u128| has_chunk(r, id) <==> (has_chunk(s, id) || id == c.id) by {
            if has_chunk(s, id) {
                let i = choose|i: int| 0 <= i < s.len() && #[trigger] s[i].id == id;
                assert(r[i].id == id);
            }
            if has_chunk(r, id) {
                let i = choose|i: int| 0 <= i < r.len() && #[trigger] r[i].id == id;
                if i < s.len() {
                    assert(s[i].id == id);
                }
            }
            if id == c.id {
                assert(r[s.len() as int].id == id);
            }
        }
        assert forall|a: int, b: int| 0 <= a < r.len() && 0 <= b < r.len() && a != b implies #[trigger] r[a].id != #[trigger] r[b].id by {
            if a < s.len() && b < s.len() {
            } else if a < s.len() {
                assert(s[a].id == r[a].id);
            } else {
                assert(s[b].id == r[b].id);
            }
        }
    }
}

proof fn lemma_append_item(s: Seq<ChunkView>, id: u128, item: ChunkItem)
    requires
        ids_distinct(s),
    ensures
        ids_distinct(append_item(s, id, item)),
        forall|x: u128| has_chunk(append_item(s, id, item), x) <==> (has_chunk(s, x) || x == id),
{
    let c = if has_chunk(s, id) {
        let i = chunk_index(s, id);
        ChunkView { items: s[i].items.push(item), ..s[i] }
    } else {
        ChunkView { items: seq![item], ..empty_chunk(id) }
    };
    assert(append_item(s, id, item) == set_chunk(s, c));
    lemma_set_chunk(s, c);
}

/// Every change keeps the bookkeeping well formed: chunk ids stay distinct
/// and the current chunk always exists, provided the id a new chunk may get
/// is not taken.
pub proof fn lemma_chunk_step_keeps_wf(v: SceneChunksView, atom: ChunkAtom, fresh: u128)
    requires
        v.wf(),
        !has_chunk(v.chunks, fresh),
    ensures
        chunk_step(v, atom, fresh).wf(),
{
    let r = chunk_step(v, atom, fresh);
    match atom {
        ChunkAtom::AddPoly { handle } => {
            lemma_add_to_current(v, ChunkItem::Poly2D(handle), fresh);
        },
        ChunkAtom::AddPoly3D { handle } => {
            lemma_add_to_current(v, ChunkItem::Poly3D(handle), fresh);
        },
        ChunkAtom::AddLine3D { handle } => {
            lemma_add_to_current(v, ChunkItem::Line3D(handle), fresh);
        },
        ChunkAtom::AddLineStrip2D { handle, .. } => {
            lemma_add_to_current(v, ChunkItem::LineStrip2D(handle), fresh);
        },
        ChunkAtom::AddLineStrip2DPx { handle, .. } => {
            lemma_add_to_current(v, ChunkItem::LineStrip2DPx(handle), fresh);
        },
        ChunkAtom::NewChunk { id } => {
            lemma_set_chunk(v.chunks, empty_chunk(id));
            if !has_chunk(v.chunks, id) {
                assert(set_chunk(v.chunks, empty_chunk(id)) == v.chunks.push(empty_chunk(id)));
            }
        },
        ChunkAtom::AddChunk { id, origin, items } => {
            lemma_set_chunk(v.chunks, ChunkView { id, origin, items: items@ });
        },
        ChunkAtom::RemoveChunk { id } => {
            lemma_keep_chunks(v.chunks, rule_pred(RemoveRule::Id(id)));
            if let Some(c) = r.current {
                let i = choose|i: int| 0 <= i < v.chunks.len() && #[trigger] v.chunks[i].id == c;
                assert((rule_pred(RemoveRule::Id(id)))(v.chunks[i]));
                let k = keep_chunks(v.chunks, rule_pred(RemoveRule::Id(id)));
                let j = choose|j: int| 0 <= j < k.len() && k[j] == v.chunks[i];
                assert(k[j].id == c);
            }
        },
        ChunkAtom::RemoveChunkAt { origin } => {
            lemma_keep_chunks(v.chunks, rule_pred(RemoveRule::Origin(origin)));
            if let Some(c) = r.current {
                let i = choose|i: int| 0 <= i < v.chunks.len() && #[trigger] v.chunks[i].id == c;
                lemma_chunk_index(v.chunks, i);
                assert((rule_pred(RemoveRule::Origin(origin)))(v.chunks[i]));
                let k = keep_chunks(v.chunks, rule_pred(RemoveRule::Origin(origin)));
                let j = choose|j: int| 0 <= j < k.len() && k[j] == v.chunks[i];
                assert(k[j].id == c);
            }
        },
        ChunkAtom::SetCurrentChunk { id } => {
            lemma_set_chunk(v.chunks, empty_chunk(id));
            if !has_chunk(v.chunks, id) {
                assert(set_chunk(v.chunks, empty_chunk(id)) == v.chunks.push(empty_chunk(id)));
            }
        },
        _ => {},
    }
}

proof fn lemma_add_to_current(v: SceneChunksView, item: ChunkItem, fresh: u128)
    requires
        v.wf(),
        !has_chunk(v.chunks, fresh),
    ensures
        add_to_current(v, item, fresh).wf(),
{
    match v.current {
        Some(c) => {
            lemma_append_item(v.chunks, c, item);
        },
        None => {
            lemma_set_chunk(v.chunks, empty_chunk(fresh));
            lemma_append_item(set_chunk(v.chunks, empty_chunk(fresh)), fresh, item);
        },
    }
}

fn find_chunk(chunks: &Vec<SceneChunk>, id: u128) -> (r: Option<usize>)
    ensures
        match r {
            Some(i) => i < chunks.len() && chunks@[i as int].id == id,
            None => !has_chunk(chunk_views(chunks@), id),
        },
{
    for i in 0..chunks.len()
        invariant
            forall|j: int| 0 <= j < i ==> #[trigger] chunks@[j].id != id,
    {
        if chunks[i].id == id {
            return Some(i);
        }
    }
    assert forall|j: int| 0 <= j < chunk_views(chunks@).len() implies #[trigger] chunk_views(chunks@)[j].id != id by {
        assert(chunk_views(chunks@)[j] == chunks@[j]@);
    }
    None
}

fn set_chunk_exec(chunks: &mut Vec<SceneChunk>, c: SceneChunk)
    requires
        ids_distinct(chunk_views(old(chunks)@)),
    ensures
        chunk_views(final(chunks)@) == set_chunk(chunk_views(old(chunks)@), c@),
{
    let ghost s = chunk_views(chunks@);
    let ghost cv = c@;
    match find_chunk(chunks, c.id) {
        Some(i) => {
            proof {
                assert(s[i as int] == chunks@[i as int]@);
                lemma_chunk_index(s, i as int);
            }
            chunks.set(i, c);
            assert(chunk_views(chunks@) =~= s.update(i as int, cv));
        },
        None => {
            chunks.push(c);
            assert(chunk_views(chunks@) =~= s.push(cv));
        },
    }
}

fn append_item_exec(chunks: &mut Vec<SceneChunk>, id: u128, item: ChunkItem)
    requires
        ids_distinct(chunk_views(old(chunks)@)),
    ensures
        chunk_views(final(chunks)@) == append_item(chunk_views(old(chunks)@), id, item),
{
    let ghost s = chunk_views(chunks@);
    match find_chunk(chunks, id) {
        Some(i) => {
            proof {
                assert(s[i as int] == chunks@[i as int]@);
                lemma_chunk_index(s, i as int);
            }
            let mut c = chunks.remove(i);
            c.items.push(item);
            chunks.insert(i, c);
            assert(chunk_views(chunks@) =~= s.update(i as int, ChunkView { items: s[i as int].items.push(item), ..s[i as int] }));
        },
        None => {
            let mut items: Vec<ChunkItem> = Vec::new();
            items.push(item);
            chunks.push(SceneChunk { id, origin: ChunkOrigin { x: 0, y: 0 }, items });
            assert(items@ =~= seq![item]);
            assert(chunk_views(chunks@) =~= s.push(ChunkView { items: seq![item], ..empty_chunk(id) }));
        },
    }
}

fn rule_keeps(rule: RemoveRule, c: &SceneChunk) -> (b: bool)
    ensures
        b == (rule_pred(rule))(c@),
{
    match rule {
        RemoveRule::Id(id) => c.id != id,
        RemoveRule::Origin(o) => c.origin.x != o.x || c.origin.y != o.y,
    }
}

fn keep_exec(chunks: &mut Vec<SceneChunk>, rule: RemoveRule)
    ensures
        chunk_views(final(chunks)@) == keep_chunks(chunk_views(old(chunks)@), rule_pred(rule)),
{
    let ghost s = chunk_views(chunks@);
    let mut rest: Vec<SceneChunk> = Vec::new();
    std::mem::swap(&mut rest, chunks);
    let n = rest.len();
    let mut k: usize = 0;
    proof {
        assert(s.take(0) =~= Seq::empty());
        assert(chunk_views(chunks@) =~= Seq::empty());
        assert(chunk_views(rest@) =~= s.skip(0));
    }
    while k < n
        invariant
            n == s.len(),
            k <= n,
            chunk_views(chunks@) == keep_chunks(s.take(k as int), rule_pred(rule)),
            chunk_views(rest@) == s.skip(k as int),
        decreases n - k,
    {
        proof {
            assert(chunk_views(rest@).len() == rest@.len());
            assert(chunk_views(rest@)[0] == rest@[0]@);
        }
        let ghost before = rest@;
        let c = rest.remove(0);
        proof {
            assert forall|j: int| 0 <= j < rest@.len() implies #[trigger] chunk_views(rest@)[j] == s.skip(k + 1)[j] by {
                assert(rest@[j] == before[j + 1]);
                assert(chunk_views(before)[j + 1] == before[j + 1]@);
                assert(s.skip(k as int)[j + 1] == s.skip(k + 1)[j]);
            }
            assert(c@ == s[k as int]);
            assert(s.take(k + 1).drop_last() =~= s.take(k as int));
            assert(s.take(k + 1).last() == s[k as int]);
            assert(chunk_views(rest@) =~= s.skip(k + 1));
        }
        let ghost kept = chunk_views(chunks@);
        if rule_keeps(rule, &c) {
            chunks.push(c);
            assert(chunk_views(chunks@) =~= kept.push(s[k as int]));
        }
        k = k + 1;
    }
    assert(s.take(n as int) =~= s);
}

impl SceneChunks {
    /// A new scene: no chunks and no current chunk; the acceleration
    /// structure, 2D geometry, 3D lines, irradiance grid and SDF data are
    /// stale, so the first frame builds them; render mode `Compute2D`,
    /// animation counter 0, four samples, leaf size 8.
    pub fn new() -> (s: Self)
        ensures
            s@.chunks.len() == 0,
            s@.current is None,
            s.accel_dirty && s.geometry2d_dirty && s.line3d_dirty && s.irradiance_dirty,
            !s.organic_dirty,
            s.animation_counter == 0,
            s.render_mode == RenderMode::Compute2D,
            s.sdf_entries == 0,
            s.sdf_data_dirty,
            s.raster3d_msaa_samples == 4,
            !s.raster3d_pipelines_stale,
            s.bvh_leaf_size == 8,
            s@.wf(),
    {
        let s = SceneChunks {
            chunks: Vec::new(),
            current: None,
            geometry2d_dirty: true,
            accel_dirty: true,
            line3d_dirty: true,
            irradiance_dirty: true,
            organic_dirty: false,
            animation_counter: 0,
            render_mode: RenderMode::Compute2D,
            sdf_entries: 0,
            sdf_data_dirty: true,
            raster3d_msaa_samples: 4,
            raster3d_pipelines_stale: false,
            bvh_leaf_size: 8,
        };
        assert(chunk_views(s.chunks@) =~= Seq::empty());
        s
    }

    fn add_to_current_exec(&mut self, item: ChunkItem, fresh_id: u128)
        requires
            old(self)@.wf(),
        ensures
            final(self)@ == add_to_current(old(self)@, item, fresh_id),
    {
        match self.current {
            Some(c) => {
                append_item_exec(&mut self.chunks, c, item);
            },
            None => {
                let ghost s = chunk_views(self.chunks@);
                set_chunk_exec(&mut self.chunks, SceneChunk { id: fresh_id, origin: ChunkOrigin { x: 0, y: 0 }, items: Vec::new() });
                proof {
                    lemma_set_chunk(s, empty_chunk(fresh_id));
                    assert(ChunkView { id: fresh_id, origin: ChunkOrigin { x: 0, y: 0 }, items: Seq::<ChunkItem>::empty() } == empty_chunk(fresh_id));
                }
                append_item_exec(&mut self.chunks, fresh_id, item);
                self.current = Some(fresh_id);
            },
        }
    }

    fn ensure_chunk(&mut self, id: u128)
        ensures
            final(self)@ == (SceneChunksView {
                chunks: if has_chunk(old(self)@.chunks, id) {
                    old(self)@.chunks
                } else {
                    old(self)@.chunks.push(empty_chunk(id))
                },
                ..old(self)@
            }),
    {
        let ghost s = chunk_views(self.chunks@);
        match find_chunk(&self.chunks, id) {
            Some(i) => {
                assert(s[i as int] == self.chunks@[i as int]@);
                assert(s[i as int].id == id);
                assert(has_chunk(s, id));
            },
            None => {
                self.chunks.push(SceneChunk { id, origin: ChunkOrigin { x: 0, y: 0 }, items: Vec::new() });
                assert(chunk_views(self.chunks@) =~= s.push(empty_chunk(id)));
            },
        }
    }

    fn mark_chunks_changed(&mut self)
        ensures
            final(self)@ == chunks_changed(old(self)@),
    {
        self.accel_dirty = true;
        self.line3d_dirty = true;
        self.organic_dirty = true;
        self.geometry2d_dirty = true;
    }

    /// Applies one chunk change. `fresh_id` is the id a chunk created for new
    /// geometry gets when there is no current chunk; it must not be taken.
    /// Adds geometry to the current chunk.
    fn apply_addition(&mut self, atom: ChunkAtom, fresh_id: u128)
        requires
            old(self)@.wf(),
            atom is AddPoly || atom is AddPoly3D || atom is AddLine3D || atom is AddLineStrip2D || atom is AddLineStrip2DPx,
        ensures
            final(self)@ == chunk_step(old(self)@, atom, fresh_id),
    {
        match atom {
            ChunkAtom::AddPoly { handle } => {
                self.add_to_current_exec(ChunkItem::Poly2D(handle), fresh_id);
                self.geometry2d_dirty = true;
            },
            ChunkAtom::AddPoly3D { handle } => {
                self.add_to_current_exec(ChunkItem::Poly3D(handle), fresh_id);
                self.accel_dirty = true;
            },
            ChunkAtom::AddLine3D { handle } => {
                self.add_to_current_exec(ChunkItem::Line3D(handle), fresh_id);
                self.line3d_dirty = true;
            },
            ChunkAtom::AddLineStrip2D { handle, points } => {
                if points < 2 {
                    return;
                }
                self.add_to_current_exec(ChunkItem::LineStrip2D(handle), fresh_id);
                self.accel_dirty = true;
                self.geometry2d_dirty = true;
            },
            ChunkAtom::AddLineStrip2DPx { handle, points, width_positive } => {
                if points < 2 || !width_positive {
                    return;
                }
                self.add_to_current_exec(ChunkItem::LineStrip2DPx(handle), fresh_id);
                self.geometry2d_dirty = true;
            },
            _ => {},
        }
    }

    /// Creates, replaces, removes or selects chunks.
    fn apply_chunk_change(&mut self, atom: ChunkAtom, fresh_id: u128)
        requires
            old(self)@.wf(),
            atom is NewChunk || atom is AddChunk || atom is RemoveChunk || atom is RemoveChunkAt || atom is SetCurrentChunk,
        ensures
            final(self)@ == chunk_step(old(self)@, atom, fresh_id),
    {
        match atom {
            ChunkAtom::NewChunk { id } => {
                self.ensure_chunk(id);
                self.mark_chunks_changed();
            },
            ChunkAtom::AddChunk { id, origin, items } => {
                set_chunk_exec(&mut self.chunks, SceneChunk { id, origin, items });
                self.mark_chunks_changed();
            },
            ChunkAtom::RemoveChunk { id } => {
                let was_current = match self.current {
                    Some(c) => c == id,
                    None => false,
                };
                keep_exec(&mut self.chunks, RemoveRule::Id(id));
                if was_current {
                    self.current = None;
                }
                self.mark_chunks_changed();
            },
            ChunkAtom::RemoveChunkAt { origin } => {
                let drop_current = match self.current {
                    Some(c) => match find_chunk(&self.chunks, c) {
                        Some(i) => {
                            proof {
                                assert(chunk_views(self.chunks@)[i as int] == self.chunks@[i as int]@);
                                lemma_chunk_index(chunk_views(self.chunks@), i as int);
                            }
                            self.chunks[i].origin.x == origin.x && self.chunks[i].origin.y == origin.y
                        },
                        None => false,
                    },
                    None => false,
                };
                keep_exec(&mut self.chunks, RemoveRule::Origin(origin));
                if drop_current {
                    self.current = None;
                }
                self.mark_chunks_changed();
            },
            ChunkAtom::SetCurrentChunk { id } => {
                self.ensure_chunk(id);
                self.current = Some(id);
            },
            _ => {},
        }
    }

    /// Clears the scene, its tiles or its geometry.
    fn apply_clear(&mut self, atom: ChunkAtom, fresh_id: u128)
        requires
            old(self)@.wf(),
            atom is Clear || atom is ClearTiles || atom is ClearGeometry,
        ensures
            final(self)@ == chunk_step(old(self)@, atom, fresh_id),
    {
        match atom {
            ChunkAtom::Clear => {
                self.chunks = Vec::new();
                self.current = None;
                self.animation_counter = 0;
                self.render_mode = RenderMode::Compute2D;
                self.sdf_entries = 0;
                self.sdf_data_dirty = true;
                self.geometry2d_dirty = true;
                self.accel_dirty = true;
                self.line3d_dirty = true;
                self.irradiance_dirty = true;
                self.organic_dirty = true;
                assert(chunk_views(self.chunks@) =~= Seq::empty());
            },
            ChunkAtom::ClearTiles => {
                self.geometry2d_dirty = true;
                self.accel_dirty = true;
                self.line3d_dirty = true;
                self.irradiance_dirty = true;
                self.organic_dirty = true;
            },
            ChunkAtom::ClearGeometry => {
                self.chunks = Vec::new();
                self.current = None;
                self.accel_dirty = true;
                self.geometry2d_dirty = true;
                self.organic_dirty = true;
                assert(chunk_views(self.chunks@) =~= Seq::empty());
            },
            _ => {},
        }
    }

    /// Changes one scene setting.
    fn apply_setting(&mut self, atom: ChunkAtom, fresh_id: u128)
        requires
            old(self)@.wf(),
            atom is SetAnimationCounter || atom is SetRenderMode || atom is SetSdfData || atom is SetRaster3DMsaaSamples || atom is SetBvhLeafSize,
        ensures
            final(self)@ == chunk_step(old(self)@, atom, fresh_id),
    {
        match atom {
            ChunkAtom::SetAnimationCounter { counter } => {
                self.animation_counter = counter;
            },
            ChunkAtom::SetRenderMode { mode } => {
                self.render_mode = mode;
            },
            ChunkAtom::SetSdfData { entries } => {
                self.sdf_entries = entries;
                self.sdf_data_dirty = true;
            },
            ChunkAtom::SetRaster3DMsaaSamples { samples } => {
                let s = raster3d_msaa_request(samples);
                if s != self.raster3d_msaa_samples {
                    self.raster3d_msaa_samples = s;
                    self.raster3d_pipelines_stale = true;
                }
            },
            ChunkAtom::SetBvhLeafSize { max_tris } => {
                self.bvh_leaf_size = bvh_leaf_size(max_tris);
                self.accel_dirty = true;
            },
            _ => {},
        }
    }

    /// Applies one change. `fresh_id` is the id a chunk created for new
    /// geometry gets when there is no current chunk; it must not be taken.
    pub fn execute_chunk_atom(&mut self, atom: ChunkAtom, fresh_id: u128)
        requires
            old(self)@.wf(),
            !has_chunk(old(self)@.chunks, fresh_id),
        ensures
            final(self)@ == chunk_step(old(self)@, atom, fresh_id),
            final(self)@.wf(),
    {
        proof {
            lemma_chunk_step_keeps_wf(self@, atom, fresh_id);
        }
        match atom {
            ChunkAtom::AddPoly { .. }
            | ChunkAtom::AddPoly3D { .. }
            | ChunkAtom::AddLine3D { .. }
            | ChunkAtom::AddLineStrip2D { .. }
            | ChunkAtom::AddLineStrip2DPx { .. } => self.apply_addition(atom, fresh_id),
            ChunkAtom::NewChunk { .. }
            | ChunkAtom::AddChunk { .. }
            | ChunkAtom::RemoveChunk { .. }
            | ChunkAtom::RemoveChunkAt { .. }
            | ChunkAtom::SetCurrentChunk { .. } => self.apply_chunk_change(atom, fresh_id),
            ChunkAtom::Clear | ChunkAtom::ClearTiles | ChunkAtom::ClearGeometry => self.apply_clear(atom, fresh_id),
            _ => self.apply_setting(atom, fresh_id),
        }
    }
}

} // verus!
