//! The integer bookkeeping of the SceneVM virtual machine: geometry ids and
//! their total sort key, the draw order of dynamic objects, avatar metadata
//! slots and the avatar pixel table, the palette tile table, the shader hash,
//! ping-pong state and its per-frame targets, the effective multisample count,
//! the triangles a visibility bitset selects, and the raster paint overlay.

use vstd::prelude::*;

verus! {

// ---------------------------------------------------------------------------
// Shader hash
// ---------------------------------------------------------------------------

/// The integer hash the shaders and the CPU side share (Wang's hash), with all
/// arithmetic modulo 2^32.
pub open spec fn hash_u32_spec(state: u32) -> u32 {
    let s1 = (state ^ 61u32) ^ (state >> 16u32);
    let s2 = ((s1 as int + (s1 << 3u32) as int) % 0x1_0000_0000) as u32;
    let s3 = s2 ^ (s2 >> 4u32);
    let s4 = ((s3 as int * 0x27d4eb2d) % 0x1_0000_0000) as u32;
    s4 ^ (s4 >> 15u32)
}

/// Hashes a 32-bit state.
pub fn hash_u32(state: u32) -> (h: u32)
    ensures
        h == hash_u32_spec(state),
{
    let mut s = (state ^ 61) ^ (state >> 16);
    s = s.wrapping_add(s << 3);
    s = s ^ (s >> 4);
    s = s.wrapping_mul(0x27d4eb2d);
    s = s ^ (s >> 15);
    s
}

// ---------------------------------------------------------------------------
// Multisampling and ping-pong
// ---------------------------------------------------------------------------

/// The multisample count the 3D rasterizer uses: the configured count, where a
/// configured 0 means one sample.
pub fn raster3d_effective_samples(msaa_samples: u32) -> (n: u32)
    ensures
        n == if msaa_samples == 0 { 1 } else { msaa_samples },
        n >= 1,
{
    if msaa_samples == 0 {
        1
    } else {
        msaa_samples
    }
}

/// The ping-pong rendering state of a VM layer: whether it is enabled, which of
/// the two textures is the current composited view, and whether the two
/// textures are allocated.
#[derive(Debug, Clone, Copy, PartialEq, Eq, Structural)]
pub struct PingPongState {
    pub enabled: bool,
    pub front: usize,
    pub textures_allocated: bool,
}

impl PingPongState {
    /// Enables or disables ping-pong rendering. A change resets the front index
    /// to 0, and disabling drops the extra textures; setting the current value
    /// changes nothing.
    pub fn set_ping_pong_enabled(&mut self, enabled: bool)
        ensures
            *final(self) == if old(self).enabled == enabled {
                *old(self)
            } else {
                PingPongState {
                    enabled: enabled,
                    front: 0,
                    textures_allocated: enabled && old(self).textures_allocated,
                }
            },
    {
        if self.enabled != enabled {
            self.enabled = enabled;
            self.front = 0;
            if !enabled {
                self.textures_allocated = false;
            }
        }
    }

    /// Whether ping-pong rendering is enabled.
    pub fn ping_pong_enabled(&self) -> (b: bool)
        ensures
            b == self.enabled,
    {
        self.enabled
    }

    /// The front index names one of the two textures.
    pub open spec fn wf(self) -> bool {
        self.front <= 1
    }

    /// The textures a frame draws into and reads from, and the front index
    /// after the frame.
    pub fn frame_targets(&self) -> (t: LayerTargets)
        requires
            self.wf(),
        ensures
            t == frame_targets_spec(*self),
    {
        if self.enabled {
            LayerTargets::PingPong { write: 1 - self.front, read: self.front, next_front: 1 - self.front }
        } else {
            LayerTargets::Single { next_front: self.front }
        }
    }

    /// Ends a frame: with ping-pong rendering on, the texture just written
    /// becomes the front.
    pub fn finish_frame(&mut self, next_front: usize)
        ensures
            *final(self) == after_frame_spec(*old(self), next_front),
    {
        if self.enabled {
            self.front = next_front;
        }
    }
}

/// Where a layer draws this frame: with ping-pong rendering, into one of the
/// two textures while reading the other; else into its single texture.
#[derive(Debug, Clone, Copy, PartialEq, Eq, Structural)]
pub enum LayerTargets {
    PingPong { write: usize, read: usize, next_front: usize },
    Single { next_front: usize },
}

/// The textures a frame uses: the one behind the front is written, the front
/// is read, and the written one becomes the front.
pub open spec fn frame_targets_spec(s: PingPongState) -> LayerTargets {
    if s.enabled {
        LayerTargets::PingPong { write: (1 - s.front) as usize, read: s.front, next_front: (1 - s.front) as usize }
    } else {
        LayerTargets::Single { next_front: s.front }
    }
}

/// The state after a frame that ends with `next_front`.
pub open spec fn after_frame_spec(s: PingPongState, next_front: usize) -> PingPongState {
    if s.enabled {
        PingPongState { front: next_front, ..s }
    } else {
        s
    }
}

/// The front index carried by a frame's targets.
pub open spec fn targets_next_front(t: LayerTargets) -> usize {
    match t {
        LayerTargets::PingPong { next_front, .. } => next_front,
        LayerTargets::Single { next_front } => next_front,
    }
}

/// With ping-pong rendering on, frames alternate: the texture one frame writes
/// is the one the next frame reads, and the next frame writes the texture the
/// first one read.
pub proof fn lemma_ping_pong_alternates(s: PingPongState)
    requires
        s.wf(),
        s.enabled,
    ensures
        ({
            let t1 = frame_targets_spec(s);
            let s2 = after_frame_spec(s, targets_next_front(t1));
            let t2 = frame_targets_spec(s2);
            &&& s2.wf()
            &&& t1 matches LayerTargets::PingPong { write: w1, read: r1, .. }
            &&& t2 matches LayerTargets::PingPong { write: w2, read: r2, .. }
            &&& r2 == w1
            &&& w2 == r1
            &&& w1 != r1
        }),
{
}

// ---------------------------------------------------------------------------
// Palette tiles
// ---------------------------------------------------------------------------

/// The bit pattern of the tile id reserved for palette entry `index`: the
/// 16-byte value `PALETTE_` followed by zero bytes, with the index in the low bits.
pub open spec fn palette_tile_key_spec(index: u16) -> u128 {
    0x50414C455454455F0000000000000000u128 | (index as u128)
}

/// The id (as its 128-bit value) of the tile that stands for palette entry `index`.
pub fn palette_index_tile_key(index: u16) -> (k: u128)
    ensures
        k == palette_tile_key_spec(index),
{
    0x50414C455454455F0000000000000000u128 | (index as u128)
}

/// Distinct palette entries have distinct tile ids.
pub proof fn lemma_palette_keys_distinct(a: u16, b: u16)
    requires
        a != b,
    ensures
        palette_tile_key_spec(a) != palette_tile_key_spec(b),
{
    let ka = palette_tile_key_spec(a);
    let kb = palette_tile_key_spec(b);
    assert((ka & 0xFFFFu128) == a as u128 && (kb & 0xFFFFu128) == b as u128) by (bit_vector)
        requires
            ka == (0x50414C455454455F0000000000000000u128 | (a as u128)),
            kb == (0x50414C455454455F0000000000000000u128 | (b as u128)),
    ;
}

/// Packs the atlas lookups of the 256 palette tiles into the uniform table:
/// 64 rows of 4, entry `i` at row `i / 4`, column `i % 4`; a palette tile that
/// is not in the atlas reads as tile 0.
pub fn palette_tile_indices_uniform(lookups: &[Option<u32>]) -> (rows: Vec<[u32; 4]>)
    requires
        lookups@.len() == 256,
    ensures
        rows@.len() == 64,
        forall|i: int| 0 <= i < 256 ==> #[trigger] rows@[i / 4][i % 4] == match lookups@[i] {
            Some(t) => t,
            None => 0u32,
        },
{
    let mut rows: Vec<[u32; 4]> = Vec::new();
    let mut r: usize = 0;
    while r < 64
        invariant
            lookups@.len() == 256,
            r <= 64,
            rows@.len() == r,
            forall|i: int| 0 <= i < 4 * r ==> #[trigger] rows@[i / 4][i % 4] == match lookups@[i] {
                Some(t) => t,
                None => 0u32,
            },
        decreases 64 - r,
    {
        let a = lookups[4 * r].unwrap_or(0);
        let b = lookups[4 * r + 1].unwrap_or(0);
        let c = lookups[4 * r + 2].unwrap_or(0);
        let d = lookups[4 * r + 3].unwrap_or(0);
        rows.push([a, b, c, d]);
        proof {
            assert forall|i: int| 0 <= i < 4 * (r + 1) implies #[trigger] rows@[i / 4][i % 4] == match lookups@[i] {
                Some(t) => t,
                None => 0u32,
            } by {
                if i >= 4 * r {
                    assert(i / 4 == r);
                }
            }
        }
        r = r + 1;
    }
    rows
}

// ---------------------------------------------------------------------------
// Geometry ids
// ---------------------------------------------------------------------------

/// The id of a piece of scene geometry. A geometry object is identified by its
/// UUID, held here as the UUID's 128-bit value.
#[derive(Debug, Clone, Copy, PartialEq, Eq, Structural)]
pub enum GeoId {
    Unknown(u32),
    Vertex(u32),
    Linedef(u32),
    Sector(u32),
    Character(u32),
    Item(u32),
    Light(u32),
    ItemLight(u32),
    Triangle(u32),
    Terrain(i32, i32),
    GeometryObject(u128),
    Hole(u32, u32),
    Gizmo(u32),
}

/// The sort key of a geometry id: the variant's rank, then its payload as two
/// 64-bit words (a signed coordinate by its two's-complement bits, a UUID split
/// into its high and low halves).
pub open spec fn geo_id_sort_key_spec(id: GeoId) -> (u8, u64, u64) {
    match id {
        GeoId::Unknown(v) => (0u8, v as u64, 0u64),
        GeoId::Vertex(v) => (1u8, v as u64, 0u64),
        GeoId::Linedef(v) => (2u8, v as u64, 0u64),
        GeoId::Sector(v) => (3u8, v as u64, 0u64),
        GeoId::Character(v) => (4u8, v as u64, 0u64),
        GeoId::Item(v) => (5u8, v as u64, 0u64),
        GeoId::Light(v) => (6u8, v as u64, 0u64),
        GeoId::ItemLight(v) => (7u8, v as u64, 0u64),
        GeoId::Triangle(v) => (8u8, v as u64, 0u64),
        GeoId::Terrain(x, y) => (9u8, x as i64 as u64, y as i64 as u64),
        GeoId::GeometryObject(raw) => (10u8, (raw >> 64u32) as u64, raw as u64),
        GeoId::Hole(host, profile) => (11u8, host as u64, profile as u64),
        GeoId::Gizmo(v) => (12u8, v as u64, 0u64),
    }
}

/// The total sort key of a geometry id.
pub fn geo_id_sort_key(id: GeoId) -> (k: (u8, u64, u64))
    ensures
        k == geo_id_sort_key_spec(id),
{
    match id {
        GeoId::Unknown(v) => (0, v as u64, 0),
        GeoId::Vertex(v) => (1, v as u64, 0),
        GeoId::Linedef(v) => (2, v as u64, 0),
        GeoId::Sector(v) => (3, v as u64, 0),
        GeoId::Character(v) => (4, v as u64, 0),
        GeoId::Item(v) => (5, v as u64, 0),
        GeoId::Light(v) => (6, v as u64, 0),
        GeoId::ItemLight(v) => (7, v as u64, 0),
        GeoId::Triangle(v) => (8, v as u64, 0),
        GeoId::Terrain(x, y) => (9, x as i64 as u64, y as i64 as u64),
        GeoId::GeometryObject(raw) => (10, (raw >> 64) as u64, raw as u64),
        GeoId::Hole(host, profile) => (11, host as u64, profile as u64),
        GeoId::Gizmo(v) => (12, v as u64, 0),
    }
}

proof fn lemma_signed_word_injective(x: i32, y: i32)
    requires
        x as i64 as u64 == y as i64 as u64,
    ensures
        x == y,
{
    assert(x == y) by (bit_vector)
        requires
            x as i64 as u64 == y as i64 as u64,
    ;
}

proof fn lemma_uuid_halves_injective(a: u128, b: u128)
    requires
        (a >> 64u32) as u64 == (b >> 64u32) as u64,
        a as u64 == b as u64,
    ensures
        a == b,
{
    assert(a == b) by (bit_vector)
        requires
            (a >> 64u32) as u64 == (b >> 64u32) as u64,
            a as u64 == b as u64,
    ;
}

/// The sort key tells geometry ids apart: two ids with the same key are the
/// same id, so ordering by the key is a total order on ids.
pub proof fn lemma_geo_id_sort_key_injective(a: GeoId, b: GeoId)
    requires
        geo_id_sort_key_spec(a) == geo_id_sort_key_spec(b),
    ensures
        a == b,
{
    match (a, b) {
        (GeoId::Terrain(x1, y1), GeoId::Terrain(x2, y2)) => {
            lemma_signed_word_injective(x1, x2);
            lemma_signed_word_injective(y1, y2);
        },
        (GeoId::GeometryObject(r1), GeoId::GeometryObject(r2)) => {
            lemma_uuid_halves_injective(r1, r2);
        },
        _ => {},
    }
}

// ---------------------------------------------------------------------------
// Draw order of dynamic objects
// ---------------------------------------------------------------------------

/// What the draw order of a dynamic object depends on: its layer, the rank of
/// its kind in the kind enumeration, and its geometry id.
#[derive(Debug, Clone, Copy, PartialEq, Eq, Structural)]
pub struct DynamicOrderKey {
    pub layer: i32,
    pub kind_rank: u32,
    pub id: GeoId,
}

/// Lexicographic order on geometry sort keys.
pub open spec fn sort_key_lt(a: (u8, u64, u64), b: (u8, u64, u64)) -> bool {
    a.0 < b.0 || (a.0 == b.0 && (a.1 < b.1 || (a.1 == b.1 && a.2 < b.2)))
}

/// `a` is drawn strictly before `b`: higher layers first, then lower kind
/// ranks, then smaller geometry id keys.
pub open spec fn draws_before(a: DynamicOrderKey, b: DynamicOrderKey) -> bool {
    a.layer > b.layer || (a.layer == b.layer && (a.kind_rank < b.kind_rank || (a.kind_rank
        == b.kind_rank && sort_key_lt(geo_id_sort_key_spec(a.id), geo_id_sort_key_spec(b.id)))))
}

/// Draw order is total: of two different objects, one is drawn before the other.
pub proof fn lemma_draw_order_total(a: DynamicOrderKey, b: DynamicOrderKey)
    requires
        !draws_before(a, b),
        !draws_before(b, a),
    ensures
        a == b,
{
    lemma_geo_id_sort_key_injective(a.id, b.id);
}

/// Draw order of dynamic objects over all keys: a higher layer is drawn
/// first; on equal layers a lower kind rank; it is a strict order (never both
/// ways, and for different objects always one way).
pub proof fn lemma_draw_order_rules(a: DynamicOrderKey, b: DynamicOrderKey)
    ensures
        a.layer > b.layer ==> draws_before(a, b),
        a.layer == b.layer && a.kind_rank < b.kind_rank ==> draws_before(a, b),
        !(draws_before(a, b) && draws_before(b, a)),
        a != b ==> draws_before(a, b) || draws_before(b, a),
{
    if a != b && !draws_before(a, b) && !draws_before(b, a) {
        lemma_draw_order_total(a, b);
    }
}

/// The result of comparing two dynamic objects for drawing.
#[derive(Debug, Clone, Copy, PartialEq, Eq, Structural)]
pub enum DrawOrder {
    Before,
    Same,
    After,
}

/// Compares two dynamic objects for drawing.
pub fn dynamic_object_order(a: &DynamicOrderKey, b: &DynamicOrderKey) -> (o: DrawOrder)
    ensures
        (o == DrawOrder::Before) == draws_before(*a, *b),
        (o == DrawOrder::After) == draws_before(*b, *a),
        (o == DrawOrder::Same) == (*a == *b),
{
    if a.layer != b.layer {
        return if a.layer > b.layer { DrawOrder::Before } else { DrawOrder::After };
    }
    if a.kind_rank != b.kind_rank {
        return if a.kind_rank < b.kind_rank { DrawOrder::Before } else { DrawOrder::After };
    }
    let ka = geo_id_sort_key(a.id);
    let kb = geo_id_sort_key(b.id);
    if ka.0 != kb.0 {
        return if ka.0 < kb.0 { DrawOrder::Before } else { DrawOrder::After };
    }
    if ka.1 != kb.1 {
        return if ka.1 < kb.1 { DrawOrder::Before } else { DrawOrder::After };
    }
    if ka.2 != kb.2 {
        return if ka.2 < kb.2 { DrawOrder::Before } else { DrawOrder::After };
    }
    proof {
        lemma_geo_id_sort_key_injective(a.id, b.id);
    }
    DrawOrder::Same
}

/// `order` lists positions of `keys` in stable draw order: each position
/// exactly once, objects drawn earlier first, equal objects in their original
/// order.
pub open spec fn is_stable_draw_order(keys: Seq<DynamicOrderKey>, order: Seq<usize>) -> bool {
    &&& order.len() == keys.len()
    &&& forall|i: int| 0 <= i < order.len() ==> #[trigger] order[i] < keys.len()
    &&& forall|i: int, j: int| 0 <= i < j < order.len() ==> #[trigger] order[i] != #[trigger] order[j]
    &&& forall|i: int, j: int|
        0 <= i < j < order.len() ==> draws_before(keys[#[trigger] order[i] as int], keys[#[trigger] order[j] as int])
            || (keys[order[i] as int] == keys[order[j] as int] && order[i] < order[j])
}

/// The draw order of the dynamic objects: a stable sort of their positions by
/// [`draws_before`].
pub fn sorted_dynamic_objects(keys: &Vec<DynamicOrderKey>) -> (order: Vec<usize>)
    ensures
        is_stable_draw_order(keys@, order@),
{
    let n = keys.len();
    let mut order: Vec<usize> = Vec::new();
    let mut k: usize = 0;
    while k < n
        invariant
            n == keys@.len(),
            k <= n,
            order@.len() == k,
            forall|i: int| 0 <= i < order@.len() ==> #[trigger] order@[i] < k,
            forall|i: int, j: int| 0 <= i < j < order@.len() ==> #[trigger] order@[i] != #[trigger] order@[j],
            forall|i: int, j: int|
                0 <= i < j < order@.len() ==> draws_before(keys@[#[trigger] order@[i] as int], keys@[#[trigger] order@[j] as int])
                    || (keys@[order@[i] as int] == keys@[order@[j] as int] && order@[i] < order@[j]),
        decreases n - k,
    {
        let mut pos: usize = 0;
        while pos < order.len()
            invariant
                n == keys@.len(),
                k < n,
                pos <= order@.len(),
                forall|i: int| 0 <= i < order@.len() ==> #[trigger] order@[i] < k,
                forall|j: int| 0 <= j < pos ==> !draws_before(keys@[k as int], keys@[#[trigger] order@[j] as int]),
            ensures
                pos <= order@.len(),
                forall|j: int| 0 <= j < pos ==> !draws_before(keys@[k as int], keys@[#[trigger] order@[j] as int]),
                pos < order@.len() ==> draws_before(keys@[k as int], keys@[order@[pos as int] as int]),
            decreases order@.len() - pos,
        {
            let o = dynamic_object_order(&keys[k], &keys[order[pos]]);
            if o == DrawOrder::Before {
                break;
            }
            pos = pos + 1;
        }
        let ghost old_order = order@;
        order.insert(pos, k);
        proof {
            let s = order@;
            assert(s =~= old_order.insert(pos as int, k));
            assert forall|i: int| 0 <= i < s.len() implies #[trigger] s[i] < k + 1 by {
                if i < pos {
                    assert(s[i] == old_order[i]);
                } else if i > pos {
                    assert(s[i] == old_order[i - 1]);
                }
            }
            assert forall|i: int, j: int| 0 <= i < j < s.len() implies #[trigger] s[i] != #[trigger] s[j] by {
                if i < pos && j < pos {
                    assert(s[i] == old_order[i] && s[j] == old_order[j]);
                } else if i < pos && j == pos {
                    assert(s[i] == old_order[i]);
                } else if i < pos {
                    assert(s[i] == old_order[i] && s[j] == old_order[j - 1]);
                } else if i == pos {
                    assert(s[j] == old_order[j - 1]);
                } else {
                    assert(s[i] == old_order[i - 1] && s[j] == old_order[j - 1]);
                }
            }
            assert forall|i: int, j: int|
                0 <= i < j < s.len() implies draws_before(keys@[#[trigger] s[i] as int], keys@[#[trigger] s[j] as int])
                    || (keys@[s[i] as int] == keys@[s[j] as int] && s[i] < s[j]) by {
                if i < pos && j < pos {
                    assert(s[i] == old_order[i] && s[j] == old_order[j]);
                } else if i < pos && j == pos {
                    assert(s[i] == old_order[i]);
                    assert(!draws_before(keys@[k as int], keys@[old_order[i] as int]));
                    if !draws_before(keys@[old_order[i] as int], keys@[k as int]) {
                        lemma_draw_order_total(keys@[old_order[i] as int], keys@[k as int]);
                    }
                } else if i < pos {
                    assert(s[i] == old_order[i] && s[j] == old_order[j - 1]);
                } else if i == pos {
                    assert(s[j] == old_order[j - 1]);
                    if j - 1 > pos {
                        assert(draws_before(keys@[k as int], keys@[old_order[pos as int] as int]));
                        assert(draws_before(keys@[old_order[pos as int] as int], keys@[old_order[j - 1] as int])
                            || keys@[old_order[pos as int] as int] == keys@[old_order[j - 1] as int]);
                    } else {
                        assert(draws_before(keys@[k as int], keys@[old_order[pos as int] as int]));
                    }
                } else {
                    assert(s[i] == old_order[i - 1] && s[j] == old_order[j - 1]);
                }
            }
        }
        k = k + 1;
    }
    order
}

// ---------------------------------------------------------------------------
// Avatar metadata slots
// ---------------------------------------------------------------------------

/// A dynamic object as avatar slot assignment sees it: its id and whether it is
/// an avatar billboard.
#[derive(Debug, Clone, Copy, PartialEq, Eq, Structural)]
pub struct AvatarSlotObject {
    pub id: GeoId,
    pub is_avatar: bool,
}

/// One entry of the avatar pixel table: the avatar's side length in pixels and
/// the number of RGBA bytes it holds.
#[derive(Debug, Clone, Copy, PartialEq, Eq, Structural)]
pub struct AvatarDataEntry {
    pub id: GeoId,
    pub size: u32,
    pub rgba_len: usize,
}

/// The first entry of the avatar table with the given id.
pub open spec fn avatar_lookup(table: Seq<AvatarDataEntry>, id: GeoId) -> Option<AvatarDataEntry>
    decreases table.len(),
{
    if table.len() == 0 {
        None
    } else if table[0].id == id {
        Some(table[0])
    } else {
        avatar_lookup(table.drop_first(), id)
    }
}

/// An object gets an avatar slot when it is an avatar billboard whose pixels
/// are present and complete: a non-zero side length and exactly
/// `size * size * 4` RGBA bytes.
pub open spec fn has_usable_avatar(table: Seq<AvatarDataEntry>, o: AvatarSlotObject) -> bool {
    o.is_avatar && match avatar_lookup(table, o.id) {
        Some(a) => a.size > 0 && a.rgba_len == a.size * a.size * 4,
        None => false,
    }
}

/// The ids that receive avatar slots, in slot order: objects are visited in
/// draw order, and each usable avatar takes the next slot unless its id already
/// has one.
pub open spec fn avatar_slot_ids(objects: Seq<AvatarSlotObject>, table: Seq<AvatarDataEntry>) -> Seq<GeoId>
    decreases objects.len(),
{
    if objects.len() == 0 {
        Seq::empty()
    } else {
        let prev = avatar_slot_ids(objects.drop_last(), table);
        let o = objects.last();
        if has_usable_avatar(table, o) && !prev.contains(o.id) {
            prev.push(o.id)
        } else {
            prev
        }
    }
}

proof fn lemma_slot_ids_len(objects: Seq<AvatarSlotObject>, table: Seq<AvatarDataEntry>)
    ensures
        avatar_slot_ids(objects, table).len() <= objects.len(),
    decreases objects.len(),
{
    if objects.len() > 0 {
        lemma_slot_ids_len(objects.drop_last(), table);
    }
}

fn find_avatar(table: &Vec<AvatarDataEntry>, id: GeoId) -> (r: Option<AvatarDataEntry>)
    ensures
        r == avatar_lookup(table@, id),
{
    let n = table.len();
    proof {
        assert(table@.skip(0) =~= table@);
    }
    for i in 0..n
        invariant
            n == table@.len(),
            avatar_lookup(table@, id) == avatar_lookup(table@.skip(i as int), id),
    {
        proof {
            let t = table@.skip(i as int);
            assert(t.drop_first() =~= table@.skip(i + 1));
        }
        if table[i].id == id {
            return Some(table[i]);
        }
    }
    proof {
        assert(table@.skip(n as int).len() == 0);
    }
    None
}

/// Assigns avatar metadata slots to the objects, visited in draw order. The
/// result pairs each id that receives a slot with its slot number, in slot
/// order; it is the map from id to slot.
pub fn avatar_meta_indices_for_objects(objects: &Vec<AvatarSlotObject>, table: &Vec<AvatarDataEntry>) -> (slots: Vec<(GeoId, u32)>)
    requires
        objects@.len() <= u32::MAX,
    ensures
        slots@.len() == avatar_slot_ids(objects@, table@).len(),
        forall|i: int| 0 <= i < slots@.len() ==> #[trigger] slots@[i] == (avatar_slot_ids(objects@, table@)[i], i as u32),
{
    let mut slots: Vec<(GeoId, u32)> = Vec::new();
    let mut count: u32 = 0;
    let n = objects.len();
    proof {
        assert(objects@.take(0) =~= Seq::<AvatarSlotObject>::empty());
        assert(table@.skip(0) =~= table@);
    }
    for k in 0..n
        invariant
            n == objects@.len(),
            n <= u32::MAX,
            count == slots@.len(),
            slots@.len() == avatar_slot_ids(objects@.take(k as int), table@).len(),
            forall|i: int| 0 <= i < slots@.len() ==> #[trigger] slots@[i] == (avatar_slot_ids(objects@.take(k as int), table@)[i], i as u32),
    {
        let ghost prev = avatar_slot_ids(objects@.take(k as int), table@);
        proof {
            assert(objects@.take(k + 1).drop_last() =~= objects@.take(k as int));
            assert(objects@.take(k + 1).last() == objects@[k as int]);
            lemma_slot_ids_len(objects@.take(k as int), table@);
        }
        let o = objects[k];
        if o.is_avatar {
            let mut seen = false;
            let m = slots.len();
            for j in 0..m
                invariant
                    m == slots@.len(),
                    slots@.len() == prev.len(),
                    forall|i: int| 0 <= i < slots@.len() ==> #[trigger] slots@[i] == (prev[i], i as u32),
                    seen == (exists|i: int| 0 <= i < j && prev[i] == o.id),
            {
                if slots[j].0 == o.id {
                    seen = true;
                }
            }
            proof {
                if prev.contains(o.id) {
                    let i = choose|i: int| 0 <= i < prev.len() && prev[i] == o.id;
                    assert(0 <= i < m && prev[i] == o.id);
                }
            }
            if !seen {
                if let Some(a) = find_avatar(table, o.id) {
                    let ok = if a.size == 0 {
                        false
                    } else {
                        let side = a.size as u128;
                        assert(side * side <= 0xFFFF_FFFFu128 * 0xFFFF_FFFFu128) by (nonlinear_arith)
                            requires
                                side <= 0xFFFF_FFFFu128,
                        ;
                        (a.rgba_len as u128) == side * side * 4
                    };
                    if ok {
                        slots.push((o.id, count));
                        count = count + 1;
                    }
                }
            }
        }
        proof {
            let cur = avatar_slot_ids(objects@.take(k + 1), table@);
            if cur.len() == prev.len() {
                assert(cur =~= prev);
            }
        }
    }
    proof {
        assert(objects@.take(n as int) =~= objects@);
    }
    slots
}

/// No id receives two avatar slots, and every id with a slot is a usable
/// avatar of one of the objects.
pub proof fn lemma_avatar_slots_distinct(objects: Seq<AvatarSlotObject>, table: Seq<AvatarDataEntry>)
    ensures
        forall|i: int, j: int|
            0 <= i < j < avatar_slot_ids(objects, table).len() ==> #[trigger] avatar_slot_ids(objects, table)[i]
                != #[trigger] avatar_slot_ids(objects, table)[j],
        forall|i: int|
            0 <= i < avatar_slot_ids(objects, table).len() ==> exists|k: int|
                0 <= k < objects.len() && #[trigger] objects[k].id == #[trigger] avatar_slot_ids(objects, table)[i]
                    && has_usable_avatar(table, objects[k]),
    decreases objects.len(),
{
    if objects.len() > 0 {
        let init = objects.drop_last();
        lemma_avatar_slots_distinct(init, table);
        let prev = avatar_slot_ids(init, table);
        let cur = avatar_slot_ids(objects, table);
        assert forall|i: int| 0 <= i < cur.len() implies exists|k: int|
            0 <= k < objects.len() && #[trigger] objects[k].id == #[trigger] cur[i] && has_usable_avatar(table, objects[k]) by {
            if i < prev.len() {
                assert(cur[i] == prev[i]);
                let k = choose|k: int| 0 <= k < init.len() && #[trigger] init[k].id == #[trigger] prev[i] && has_usable_avatar(table, init[k]);
                assert(objects[k] == init[k]);
            } else {
                assert(objects[objects.len() - 1].id == cur[i]);
            }
        }
        assert forall|i: int, j: int| 0 <= i < j < cur.len() implies #[trigger] cur[i] != #[trigger] cur[j] by {
            if j < prev.len() {
                assert(cur[i] == prev[i] && cur[j] == prev[j]);
            } else {
                assert(cur[i] == prev[i]);
                assert(!prev.contains(objects.last().id));
            }
        }
    }
}

// ---------------------------------------------------------------------------
// Atom handling
// ---------------------------------------------------------------------------

/// The number of RGBA bytes of a `width` by `height` frame.
pub open spec fn frame_bytes(width: u32, height: u32) -> int {
    width as int * height as int * 4
}

/// A tile frame fitted to `need` bytes: cut to that length, or padded with zero
/// bytes up to it.
pub open spec fn fitted_frame(frame: Seq<u8>, need: int) -> Seq<u8> {
    if frame.len() >= need {
        frame.take(need)
    } else {
        frame + Seq::new((need - frame.len()) as nat, |i: int| 0u8)
    }
}

/// A fitted frame has exactly the needed length, keeps the frame's bytes as
/// far as both reach, and is zero beyond the frame.
pub proof fn lemma_fitted_frame_rules(frame: Seq<u8>, need: int)
    requires
        need >= 0,
    ensures
        fitted_frame(frame, need).len() == need,
        forall|i: int| 0 <= i < need && i < frame.len() ==> #[trigger] fitted_frame(frame, need)[i] == frame[i],
        forall|i: int| frame.len() <= i < need ==> #[trigger] fitted_frame(frame, need)[i] == 0u8,
{
}

/// Fits one frame of a new tile to `need` bytes.
pub fn fit_tile_frame(frame: Vec<u8>, need: usize) -> (f: Vec<u8>)
    ensures
        f@ == fitted_frame(frame@, need as int),
{
    let mut f = frame;
    if f.len() > need {
        f.truncate(need);
    } else {
        while f.len() < need
            invariant
                f@.len() <= need,
                f@.len() >= frame@.len(),
                f@.subrange(0, frame@.len() as int) == frame@,
                forall|i: int| frame@.len() <= i < f@.len() ==> #[trigger] f@[i] == 0u8,
            decreases need - f@.len(),
        {
            f.push(0);
        }
    }
    proof {
        if frame@.len() < need {
            assert(f@ =~= fitted_frame(frame@, need as int));
        } else {
            assert(f@ =~= frame@.take(need as int));
        }
    }
    f
}

/// Fits every frame of a new `width` by `height` tile to its RGBA byte count.
pub fn fit_tile_frames(frames: Vec<Vec<u8>>, width: u32, height: u32) -> (out: Vec<Vec<u8>>)
    requires
        frame_bytes(width, height) <= usize::MAX,
    ensures
        out@.len() == frames@.len(),
        forall|i: int| 0 <= i < out@.len() ==> #[trigger] out@[i]@ == fitted_frame(frames@[i]@, frame_bytes(width, height)),
{
    let w = width as usize;
    let h = height as usize;
    assert(w * h <= w * h * 4) by (nonlinear_arith);
    let need = w * h * 4;
    let n = frames.len();
    let mut rest = frames;
    let ghost all = rest@;
    let mut out: Vec<Vec<u8>> = Vec::new();
    let mut k: usize = 0;
    while k < n
        invariant
            n == all.len(),
            k <= n,
            need as int == frame_bytes(width, height),
            rest@ == all.skip(k as int),
            out@.len() == k,
            forall|i: int| 0 <= i < k ==> #[trigger] out@[i]@ == fitted_frame(all[i]@, need as int),
        decreases n - k,
    {
        let frame = rest.remove(0);
        proof {
            assert(frame == all[k as int]);
            assert(rest@ =~= all.skip(k + 1));
        }
        out.push(fit_tile_frame(frame, need));
        k = k + 1;
    }
    out
}

/// The palette remap range the VM stores for a requested range: both ends
/// clamped to the last palette entry.
pub fn palette_remap_range(start_index: u32, end_index: u32) -> (r: (u32, u32))
    ensures
        r.0 == if start_index < 255 { start_index } else { 255 },
        r.1 == if end_index < 255 { end_index } else { 255 },
{
    (if start_index < 255 { start_index } else { 255 }, if end_index < 255 { end_index } else { 255 })
}

/// The multisample count the VM adopts for a requested count: only counts that
/// WebGPU guarantees for RGBA8 color targets are used, so any non-zero request
/// becomes 4.
pub fn raster3d_msaa_request(samples: u32) -> (s: u32)
    ensures
        s == if samples == 0 { 0u32 } else { 4u32 },
{
    if samples == 0 {
        0
    } else {
        4
    }
}

/// The BVH leaf size the VM adopts for a requested maximum triangle count: at least 1.
pub fn bvh_leaf_size(max_tris: u32) -> (s: u32)
    ensures
        s == if max_tris < 1 { 1 } else { max_tris },
{
    if max_tris < 1 { 1 } else { max_tris }
}

/// The size of an organic billboard sprite: width, height and RGBA byte count.
#[derive(Debug, Clone, Copy, PartialEq, Eq, Structural)]
pub struct SpriteShape {
    pub width: u32,
    pub height: u32,
    pub rgba_len: usize,
}

/// A sprite is kept when it is at most 256 pixels on each side, not empty, and
/// holds exactly `width * height * 4` RGBA bytes.
pub open spec fn sprite_is_valid(s: SpriteShape) -> bool {
    &&& 0 < s.width <= 256
    &&& 0 < s.height <= 256
    &&& s.rgba_len == frame_bytes(s.width, s.height)
}

/// An organic billboard update keeps exactly the sprites that are between 1
/// and 256 pixels on each side and carry exactly `width * height * 4` RGBA
/// bytes: every kept position names such a sprite, and every such sprite is
/// kept.
pub proof fn lemma_kept_sprites(sprites: Seq<SpriteShape>)
    requires
        sprites.len() <= usize::MAX,
    ensures
        ({
            let kept = Seq::new(sprites.len(), |i: int| i as usize).filter(
                |i: usize| sprite_is_valid(sprites[i as int]),
            );
            &&& forall|k: int|
                0 <= k < kept.len() ==> #[trigger] kept[k] < sprites.len() && 0 < sprites[kept[k] as int].width
                    <= 256 && 0 < sprites[kept[k] as int].height <= 256 && sprites[kept[k] as int].rgba_len
                    == sprites[kept[k] as int].width * sprites[kept[k] as int].height * 4
            &&& forall|j: int|
                0 <= j < sprites.len() && 0 < sprites[j].width <= 256 && 0 < sprites[j].height <= 256
                    && sprites[j].rgba_len == sprites[j].width * sprites[j].height * 4 ==> kept.contains(
                    j as usize,
                )
        }),
{
    broadcast use vstd::seq_lib::group_filter_ensures;

    let idx = Seq::new(sprites.len(), |i: int| i as usize);
    let pred = |i: usize| sprite_is_valid(sprites[i as int]);
    let kept = idx.filter(pred);
    assert forall|k: int| 0 <= k < kept.len() implies #[trigger] kept[k] < sprites.len() && 0 < sprites[kept[k] as int].width
        <= 256 && 0 < sprites[kept[k] as int].height <= 256 && sprites[kept[k] as int].rgba_len
        == sprites[kept[k] as int].width * sprites[kept[k] as int].height * 4 by {
        assert(pred(kept[k]));
        assert(kept.contains(kept[k]));
        idx.lemma_filter_contains_rev(pred, kept[k]);
        assert(idx.contains(kept[k]));
        let w = choose|w: int| 0 <= w < idx.len() && idx[w] == kept[k];
        assert(idx[w] == w as usize);
    }
    assert forall|j: int| 0 <= j < sprites.len() && 0 < sprites[j].width <= 256 && 0 < sprites[j].height <= 256
        && sprites[j].rgba_len == sprites[j].width * sprites[j].height * 4 implies kept.contains(j as usize) by {
        assert(idx[j] == j as usize);
        assert((j as usize) as int == j);
        assert(pred(idx[j]));
    }
}

/// The positions of the sprites an organic billboard update keeps, in order.
pub fn valid_sprite_positions(sprites: &Vec<SpriteShape>) -> (kept: Vec<usize>)
    ensures
        kept@ == Seq::new(sprites@.len(), |i: int| i as usize).filter(|i: usize| sprite_is_valid(sprites@[i as int])),
        forall|k: int|
            0 <= k < kept.len() ==> #[trigger] kept@[k] < sprites.len() && 0 < sprites@[kept@[k] as int].width
                <= 256 && 0 < sprites@[kept@[k] as int].height <= 256 && sprites@[kept@[k] as int].rgba_len
                == sprites@[kept@[k] as int].width * sprites@[kept@[k] as int].height * 4,
        forall|j: int|
            0 <= j < sprites.len() && 0 < sprites@[j].width <= 256 && 0 < sprites@[j].height <= 256
                && sprites@[j].rgba_len == sprites@[j].width * sprites@[j].height * 4 ==> kept@.contains(
                j as usize,
            ),
{
    let n = sprites.len();
    proof {
        lemma_kept_sprites(sprites@);
    }
    let ghost idx = Seq::new(sprites@.len(), |i: int| i as usize);
    let ghost pred = |i: usize| sprite_is_valid(sprites@[i as int]);
    let mut kept: Vec<usize> = Vec::new();
    for k in 0..n
        invariant
            n == sprites@.len(),
            idx == Seq::new(sprites@.len(), |i: int| i as usize),
            pred == (|i: usize| sprite_is_valid(sprites@[i as int])),
            kept@ == idx.take(k as int).filter(pred),
    {
        let s = sprites[k];
        let ok = if s.width > 0 && s.width <= 256 && s.height > 0 && s.height <= 256 {
            let w = s.width as usize;
            let h = s.height as usize;
            assert(w * h <= 256 * 256) by (nonlinear_arith)
                requires
                    w <= 256,
                    h <= 256,
            ;
            s.rgba_len == w * h * 4
        } else {
            false
        };
        proof {
            assert(idx.take(k + 1).drop_last() =~= idx.take(k as int));
            assert(idx.take(k + 1).last() == k);
            reveal_with_fuel(Seq::filter, 1);
        }
        if ok {
            kept.push(k);
        }
    }
    proof {
        assert(idx.take(n as int) =~= idx);
    }
    kept
}

// ---------------------------------------------------------------------------
// Avatar pixel table
// ---------------------------------------------------------------------------

/// The avatar pixel table of a VM: at most one entry per id, and every entry
/// complete (non-zero side, `size * size * 4` RGBA bytes).
#[derive(Debug, Clone, PartialEq, Eq)]
pub struct AvatarTable {
    pub entries: Vec<AvatarDataEntry>,
}

impl AvatarTable {
    /// No id occurs twice and every entry is complete.
    pub open spec fn wf(self) -> bool {
        &&& forall|i: int, j: int| 0 <= i < j < self.entries@.len() ==> #[trigger] self.entries@[i].id != #[trigger] self.entries@[j].id
        &&& forall|i: int| 0 <= i < self.entries@.len() ==> {
            let e = #[trigger] self.entries@[i];
            e.size > 0 && e.rgba_len == e.size * e.size * 4
        }
    }

    /// The table as a map from id to entry.
    pub open spec fn lookup(self, id: GeoId) -> Option<AvatarDataEntry> {
        avatar_lookup(self.entries@, id)
    }

    /// The empty table.
    pub fn new() -> (t: Self)
        ensures
            t.wf(),
            forall|id: GeoId| t.lookup(id) is None,
    {
        AvatarTable { entries: Vec::new() }
    }

    /// Stores the pixels of an avatar billboard. Incomplete data (zero side or a
    /// byte count other than `size * size * 4`) is ignored; complete data
    /// replaces any earlier entry for the id.
    pub fn set_avatar_billboard_data(&mut self, id: GeoId, size: u32, rgba_len: usize)
        requires
            old(self).wf(),
        ensures
            final(self).wf(),
            forall|other: GeoId| other != id ==> final(self).lookup(other) == old(self).lookup(other),
            final(self).lookup(id) == if size > 0 && rgba_len == size * size * 4 {
                Some(AvatarDataEntry { id: id, size: size, rgba_len: rgba_len })
            } else {
                old(self).lookup(id)
            },
    {
        let side = size as u128;
        assert(side * side <= 0xFFFF_FFFFu128 * 0xFFFF_FFFFu128) by (nonlinear_arith)
            requires
                side <= 0xFFFF_FFFFu128,
        ;
        if size == 0 || (rgba_len as u128) != side * side * 4 {
            return;
        }
        self.remove_avatar_billboard_data(id);
        let ghost before = self.entries@;
        let e = AvatarDataEntry { id, size, rgba_len };
        self.entries.push(e);
        proof {
            let t = self.entries@;
            assert(t =~= before.push(e));
            assert forall|j: int| 0 <= j < before.len() implies #[trigger] before[j].id != id by {
                if before[j].id == id {
                    lemma_lookup_found(before, j);
                }
            }
            lemma_lookup_found(t, before.len() as int);
            assert forall|other: GeoId| other != id implies #[trigger] avatar_lookup(t, other) == avatar_lookup(before, other) by {
                if exists|j: int| 0 <= j < before.len() && #[trigger] before[j].id == other {
                    let j = choose|j: int| 0 <= j < before.len() && #[trigger] before[j].id == other;
                    lemma_lookup_found(before, j);
                    assert(t[j] == before[j]);
                    lemma_lookup_found(t, j);
                } else {
                    lemma_lookup_absent(before, other);
                    lemma_lookup_absent(t, other);
                }
            }
        }
    }

    /// Forgets the pixels of an avatar billboard.
    pub fn remove_avatar_billboard_data(&mut self, id: GeoId)
        requires
            old(self).wf(),
        ensures
            final(self).wf(),
            final(self).lookup(id) is None,
            forall|other: GeoId| other != id ==> final(self).lookup(other) == old(self).lookup(other),
    {
        let ghost s = self.entries@;
        let n = self.entries.len();
        let mut p: usize = 0;
        while p < n
            invariant
                n == s.len(),
                self.entries@ == s,
                p <= n,
                forall|j: int| 0 <= j < p ==> #[trigger] s[j].id != id,
            ensures
                p <= n,
                forall|j: int| 0 <= j < p ==> #[trigger] s[j].id != id,
                p < n ==> s[p as int].id == id,
            decreases n - p,
        {
            if self.entries[p].id == id {
                break;
            }
            p = p + 1;
        }
        if p == n {
            proof {
                lemma_lookup_absent(s, id);
            }
            return;
        }
        proof {
            assert(s[p as int].id == id);
        }
        self.entries.remove(p);
        proof {
            let t = self.entries@;
            assert(t =~= s.remove(p as int));
            assert forall|j: int| 0 <= j < t.len() implies #[trigger] t[j].id != id by {
                if j < p {
                    assert(t[j] == s[j]);
                } else {
                    assert(t[j] == s[j + 1]);
                }
            }
            lemma_lookup_absent(t, id);
            assert forall|other: GeoId| other != id implies #[trigger] avatar_lookup(t, other) == avatar_lookup(s, other) by {
                if exists|j: int| 0 <= j < s.len() && #[trigger] s[j].id == other {
                    let j = choose|j: int| 0 <= j < s.len() && #[trigger] s[j].id == other;
                    lemma_lookup_found(s, j);
                    let k = if j < p { j } else { j - 1 };
                    assert(t[k] == s[j]);
                    assert forall|m: int| 0 <= m < k implies #[trigger] t[m].id != t[k].id by {
                        if m < p {
                            assert(t[m] == s[m]);
                        } else {
                            assert(t[m] == s[m + 1]);
                        }
                    }
                    lemma_lookup_found(t, k);
                } else {
                    assert forall|m: int| 0 <= m < t.len() implies #[trigger] t[m].id != other by {
                        if m < p {
                            assert(t[m] == s[m]);
                        } else {
                            assert(t[m] == s[m + 1]);
                        }
                    }
                    lemma_lookup_absent(s, other);
                    lemma_lookup_absent(t, other);
                }
            }
        }
    }

    /// Forgets all avatar pixels.
    pub fn clear(&mut self)
        ensures
            final(self).wf(),
            forall|id: GeoId| final(self).lookup(id) is None,
    {
        self.entries = Vec::new();
    }
}

proof fn lemma_lookup_found(s: Seq<AvatarDataEntry>, i: int)
    requires
        0 <= i < s.len(),
        forall|j: int| 0 <= j < i ==> #[trigger] s[j].id != s[i].id,
    ensures
        avatar_lookup(s, s[i].id) == Some(s[i]),
    decreases i,
{
    if i > 0 {
        let t = s.drop_first();
        assert(t[i - 1] == s[i]);
        assert forall|j: int| 0 <= j < i - 1 implies #[trigger] t[j].id != t[i - 1].id by {
            assert(t[j] == s[j + 1]);
        }
        lemma_lookup_found(t, i - 1);
        assert(s[0].id != s[i].id);
    }
}

proof fn lemma_lookup_absent(s: Seq<AvatarDataEntry>, id: GeoId)
    requires
        forall|j: int| 0 <= j < s.len() ==> #[trigger] s[j].id != id,
    ensures
        avatar_lookup(s, id) is None,
    decreases s.len(),
{
    if s.len() > 0 {
        let t = s.drop_first();
        assert forall|j: int| 0 <= j < t.len() implies #[trigger] t[j].id != id by {
            assert(t[j] == s[j + 1]);
        }
        lemma_lookup_absent(t, id);
        assert(s[0].id != id);
    }
}

proof fn lemma_lookup_in_table(s: Seq<AvatarDataEntry>, id: GeoId)
    ensures
        avatar_lookup(s, id) matches Some(e) ==> exists|i: int| 0 <= i < s.len() && #[trigger] s[i] == e && e.id == id,
    decreases s.len(),
{
    if s.len() > 0 && s[0].id != id {
        lemma_lookup_in_table(s.drop_first(), id);
        if avatar_lookup(s, id) is Some {
            let e = avatar_lookup(s, id)->0;
            let i = choose|i: int| 0 <= i < s.drop_first().len() && #[trigger] s.drop_first()[i] == e && e.id == id;
            assert(s[i + 1] == e);
        }
    } else if s.len() > 0 {
        assert(s[0] == s[0]);
    }
}

/// Whatever the avatar table holds is complete, so an avatar billboard gets a
/// metadata slot exactly when the table has pixels for its id.
pub proof fn lemma_stored_avatars_are_usable(t: AvatarTable, o: AvatarSlotObject)
    requires
        t.wf(),
        o.is_avatar,
    ensures
        has_usable_avatar(t.entries@, o) <==> t.lookup(o.id) is Some,
{
    lemma_lookup_in_table(t.entries@, o.id);
}

// ---------------------------------------------------------------------------
// Raster visibility
// ---------------------------------------------------------------------------

/// Whether triangle `t` is marked visible in a bitset of 32-bit words: bit
/// `t % 32` of word `t / 32`, where a word past the end counts as unset.
pub open spec fn tri_bit_set(words: Seq<u32>, t: int) -> bool {
    t / 32 < words.len() && (words[t / 32] >> ((t % 32) as u32)) & 1u32 != 0u32
}

/// The triangle range `[start, end)` clamped to the triangles an index buffer
/// of `index_len` entries holds (three indices each), with the end never
/// below the start.
pub open spec fn clamped_tri_range(index_len: int, start: int, end: int) -> (int, int) {
    let cap = index_len / 3;
    let s = if start < cap { start } else { cap };
    let e0 = if end < cap { end } else { cap };
    let e = if e0 < s { s } else { e0 };
    (s, e)
}

/// The visibility bit of triangle `t` is the bit `1 << (t % 32)` of word
/// `t / 32`.
pub proof fn lemma_tri_bit_is_mask(words: Seq<u32>, t: int)
    requires
        0 <= t,
        t / 32 < words.len(),
    ensures
        tri_bit_set(words, t) <==> words[t / 32] & (1u32 << ((t % 32) as u32)) != 0u32,
{
    let w = words[t / 32];
    let c = (t % 32) as u32;
    assert(c < 32);
    assert((w >> c) & 1u32 != 0u32 <==> w & (1u32 << c) != 0u32) by (bit_vector)
        requires
            c < 32,
    ;
}

/// The clamped range starts at the requested start or at the end of the
/// buffer's whole triangles, whichever is lower, ends at the requested end
/// clamped the same way, and never ends before it starts.
pub proof fn lemma_clamped_tri_range_rules(index_len: int, start: int, end: int)
    requires
        index_len >= 0,
    ensures
        ({
            let (s, e) = clamped_tri_range(index_len, start, end);
            &&& s <= e <= index_len / 3
            &&& (start <= index_len / 3 ==> s == start)
            &&& (start > index_len / 3 ==> s == index_len / 3)
            &&& (start <= end <= index_len / 3 ==> e == end)
        }),
{
}

/// The triangles of `[tri_start, tri_end)`, clamped to the index buffer, whose
/// visibility bit is set, in ascending order.
pub fn visible_triangles(index_len: usize, visibility: &Vec<u32>, tri_start: usize, tri_end: usize) -> (tris: Vec<usize>)
    ensures
        ({
            let (s, e) = clamped_tri_range(index_len as int, tri_start as int, tri_end as int);
            &&& forall|i: int, j: int| 0 <= i < j < tris.len() ==> tris[i] < tris[j]
            &&& forall|i: int|
                0 <= i < tris.len() ==> s <= #[trigger] tris[i] < e && tri_bit_set(visibility@, tris[i] as int)
            &&& forall|t: int| s <= t < e && tri_bit_set(visibility@, t) ==> tris@.contains(t as usize)
        }),
{
    let cap = index_len / 3;
    let s = if tri_start < cap { tri_start } else { cap };
    let e0 = if tri_end < cap { tri_end } else { cap };
    let e = if e0 < s { s } else { e0 };
    let mut tris: Vec<usize> = Vec::new();
    let mut t = s;
    while t < e
        invariant
            (s as int, e as int) == clamped_tri_range(index_len as int, tri_start as int, tri_end as int),
            s <= t <= e,
            forall|i: int, j: int| 0 <= i < j < tris.len() ==> tris[i] < tris[j],
            forall|i: int|
                0 <= i < tris.len() ==> s <= #[trigger] tris[i] < t && tri_bit_set(visibility@, tris[i] as int),
            forall|u: int| s <= u < t && tri_bit_set(visibility@, u) ==> tris@.contains(u as usize),
        decreases e - t,
    {
        let word = t / 32;
        let bit = (t % 32) as u32;
        let visible = if word < visibility.len() {
            (visibility[word] >> bit) & 1 != 0
        } else {
            false
        };
        let ghost before = tris@;
        if visible {
            tris.push(t);
            proof {
                assert(tris@[before.len() as int] == t);
                assert forall|u: int| s <= u < t + 1 && tri_bit_set(visibility@, u) implies tris@.contains(u as usize) by {
                    if u < t {
                        let w = choose|w: int| 0 <= w < before.len() && before[w] == u as usize;
                        assert(tris@[w] == u as usize);
                    }
                }
            }
        }
        t = t + 1;
    }
    tris
}

// ---------------------------------------------------------------------------
// Raster paint overlay
// ---------------------------------------------------------------------------

/// A paint overlay for the 3D rasterizer: its size and its color and material
/// RGBA bytes.
#[derive(Debug, Clone)]
pub struct PaintOverlay {
    pub width: u32,
    pub height: u32,
    pub color_rgba: Vec<u8>,
    pub material_rgba: Vec<u8>,
}

/// The VM's paint overlay, if any, and whether the GPU copy must be refreshed.
#[derive(Debug, Clone)]
pub struct PaintOverlayState {
    pub overlay: Option<PaintOverlay>,
    pub dirty: bool,
}

/// Whether an overlay of this size and these byte lengths is accepted: not
/// empty, and both byte strings `width * height * 4` long.
pub open spec fn paint_overlay_valid(width: u32, height: u32, color_len: int, material_len: int) -> bool {
    &&& width != 0
    &&& height != 0
    &&& color_len == width * height * 4
    &&& material_len == width * height * 4
}

/// Whether the current overlay has this size and exactly these bytes.
pub open spec fn paint_overlay_is(
    current: Option<PaintOverlay>,
    width: u32,
    height: u32,
    color: Seq<u8>,
    material: Seq<u8>,
) -> bool {
    match current {
        Some(o) => o.width == width && o.height == height && o.color_rgba@ == color
            && o.material_rgba@ == material,
        None => false,
    }
}

fn same_bytes(a: &Vec<u8>, b: &Vec<u8>) -> (r: bool)
    ensures
        r == (a@ == b@),
{
    if a.len() != b.len() {
        return false;
    }
    for i in 0..a.len()
        invariant
            a.len() == b.len(),
            forall|j: int| 0 <= j < i ==> a@[j] == b@[j],
    {
        if a[i] != b[i] {
            return false;
        }
    }
    assert(a@ =~= b@);
    true
}

impl PaintOverlayState {
    /// No overlay; the GPU copy starts stale, so the first frame uploads the
    /// (empty) overlay.
    pub fn new() -> (s: Self)
        ensures
            s.overlay is None,
            s.dirty,
    {
        PaintOverlayState { overlay: None, dirty: true }
    }

    /// Sets the overlay. A rejected overlay removes the current one; an
    /// accepted one replaces it unless it is the same size with the same
    /// bytes. The refresh flag is raised exactly when the overlay changed.
    pub fn set_paint_overlay(&mut self, width: u32, height: u32, color_rgba: Vec<u8>, material_rgba: Vec<u8>)
        requires
            width * height * 4 <= usize::MAX,
        ensures
            !paint_overlay_valid(width, height, color_rgba@.len() as int, material_rgba@.len() as int) ==> {
                &&& final(self).overlay is None
                &&& final(self).dirty == (old(self).dirty || old(self).overlay is Some)
            },
            paint_overlay_valid(width, height, color_rgba@.len() as int, material_rgba@.len() as int)
                && paint_overlay_is(old(self).overlay, width, height, color_rgba@, material_rgba@) ==> {
                &&& final(self).overlay == old(self).overlay
                &&& final(self).dirty == old(self).dirty
            },
            paint_overlay_valid(width, height, color_rgba@.len() as int, material_rgba@.len() as int)
                && !paint_overlay_is(old(self).overlay, width, height, color_rgba@, material_rgba@) ==> {
                &&& final(self).dirty
                &&& final(self).overlay matches Some(o) && o.width == width && o.height == height
                    && o.color_rgba@ == color_rgba@ && o.material_rgba@ == material_rgba@
            },
    {
        let expected = width as usize * height as usize * 4;
        if width == 0 || height == 0 || color_rgba.len() != expected || material_rgba.len() != expected {
            if self.overlay.is_some() {
                self.overlay = None;
                self.dirty = true;
            }
        } else {
            let changed = match &self.overlay {
                Some(current) => current.width != width || current.height != height || !same_bytes(
                    &current.color_rgba,
                    &color_rgba,
                ) || !same_bytes(&current.material_rgba, &material_rgba),
                None => true,
            };
            if changed {
                self.overlay = Some(PaintOverlay { width, height, color_rgba, material_rgba });
                self.dirty = true;
            }
        }
    }

    /// Removes the overlay; the refresh flag is raised if there was one.
    pub fn clear_paint_overlay(&mut self)
        ensures
            final(self).overlay is None,
            final(self).dirty == (old(self).dirty || old(self).overlay is Some),
    {
        if self.overlay.is_some() {
            self.overlay = None;
            self.dirty = true;
        }
    }
}

} // verus!
