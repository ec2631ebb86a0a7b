//! Screen-tile binning of 2D triangles: which 8x8-pixel tiles of the frame
//! each triangle's bounding box touches, and, per tile, the triangles that
//! touch it in draw-priority order, flattened into one list with an
//! offset/count pair per tile.

use vstd::prelude::*;

verus! {

/// Edge length, in pixels, of one square screen tile.
pub const TILE_PX: u32 = 8;

/// The pixel bounding box of one triangle (`min_*` rounded down, `max_*`
/// rounded up, both as whole pixels) with the key that orders it against the
/// other triangles of a tile: layer first, then chunk priority, then the order
/// in which it was emitted; each larger-first.
#[derive(Clone, Copy, Debug)]
pub struct TriBounds {
    pub min_x: i32,
    pub max_x: i32,
    pub min_y: i32,
    pub max_y: i32,
    pub layer: i32,
    pub prio: i32,
    pub ord: u32,
}

/// Where one tile's triangles sit in the flattened list.
#[derive(Clone, Copy, Debug, PartialEq, Eq, Structural)]
pub struct TileBin {
    pub offset: u32,
    pub count: u32,
}

/// The tile grid and its bins.
#[derive(Debug)]
pub struct TileBinning {
    pub tiles_x: u32,
    pub tiles_y: u32,
    pub bins: Vec<TileBin>,
    pub tile_tris: Vec<u32>,
}

/// Number of tiles along one axis of a frame `fb` pixels long: enough tiles to
/// cover every pixel, and at least one.
pub open spec fn tile_grid_dim(fb: u32) -> int {
    let d = (fb + 7) / 8;
    if d < 1 {
        1
    } else {
        d
    }
}

/// Lower edge of a pixel span, clamped to the frame.
pub open spec fn span_lo(lo: i32) -> int {
    if lo < 0 {
        0
    } else {
        lo as int
    }
}

/// Upper (exclusive) edge of a pixel span, clamped to a frame `fb` pixels long.
pub open spec fn span_hi(hi: i32, fb: u32) -> int {
    if hi > fb {
        fb as int
    } else {
        hi as int
    }
}

/// Whether the clamped bounding box still holds at least one pixel.
pub open spec fn tri_visible(b: TriBounds, fb_w: u32, fb_h: u32) -> bool {
    span_lo(b.min_x) < span_hi(b.max_x, fb_w) && span_lo(b.min_y) < span_hi(b.max_y, fb_h)
}

/// Whether the triangle's clamped bounding box touches tile column `tx`, row `ty`.
pub open spec fn covers(b: TriBounds, fb_w: u32, fb_h: u32, tx: int, ty: int) -> bool {
    &&& tri_visible(b, fb_w, fb_h)
    &&& span_lo(b.min_x) / 8 <= tx <= (span_hi(b.max_x, fb_w) - 1) / 8
    &&& span_lo(b.min_y) / 8 <= ty <= (span_hi(b.max_y, fb_h) - 1) / 8
}

/// Whether the triangle touches tile `k` of the row-major tile grid.
pub open spec fn covers_tile(b: TriBounds, fb_w: u32, fb_h: u32, k: int) -> bool {
    let tx = tile_grid_dim(fb_w);
    covers(b, fb_w, fb_h, k % tx, k / tx)
}

/// The indices below `t` of the triangles that touch tile `k`, ascending.
pub open spec fn bin_upto(tris: Seq<TriBounds>, fb_w: u32, fb_h: u32, k: int, t: int) -> Seq<u32>
    decreases t,
{
    if t <= 0 {
        Seq::empty()
    } else {
        let prev = bin_upto(tris, fb_w, fb_h, k, t - 1);
        if covers_tile(tris[t - 1], fb_w, fb_h, k) {
            prev.push((t - 1) as u32)
        } else {
            prev
        }
    }
}

/// The indices of all triangles that touch tile `k`, ascending.
pub open spec fn tile_members(tris: Seq<TriBounds>, fb_w: u32, fb_h: u32, k: int) -> Seq<u32> {
    bin_upto(tris, fb_w, fb_h, k, tris.len() as int)
}

/// Number of bin entries of the tiles before tile `k`.
pub open spec fn entries_before(tris: Seq<TriBounds>, fb_w: u32, fb_h: u32, k: int) -> int
    decreases k,
{
    if k <= 0 {
        0
    } else {
        entries_before(tris, fb_w, fb_h, k - 1) + tile_members(tris, fb_w, fb_h, k - 1).len()
    }
}

/// Whether triangle `a` comes before triangle `b` in a tile: higher layer first,
/// then higher priority, then higher emission order, and, all three equal, the
/// lower index first.
pub open spec fn bin_precedes(tris: Seq<TriBounds>, a: u32, b: u32) -> bool {
    let x = tris[a as int];
    let y = tris[b as int];
    ||| x.layer > y.layer
    ||| x.layer == y.layer && x.prio > y.prio
    ||| x.layer == y.layer && x.prio == y.prio && x.ord > y.ord
    ||| x.layer == y.layer && x.prio == y.prio && x.ord == y.ord && a < b
}

/// Whether `s` lists its triangles in tile order, each strictly before the next.
pub open spec fn in_bin_order(tris: Seq<TriBounds>, s: Seq<u32>) -> bool {
    forall|i: int, j: int| 0 <= i < j < s.len() ==> bin_precedes(tris, #[trigger] s[i], #[trigger] s[j])
}

/// Whether `s` holds exactly the triangles of `members`, in tile order.
pub open spec fn is_sorted_bin(tris: Seq<TriBounds>, s: Seq<u32>, members: Seq<u32>) -> bool {
    &&& s.len() == members.len()
    &&& forall|x: u32| s.contains(x) <==> members.contains(x)
    &&& in_bin_order(tris, s)
}

fn precedes(tris: &Vec<TriBounds>, a: u32, b: u32) -> (r: bool)
    requires
        a < tris.len(),
        b < tris.len(),
    ensures
        r == bin_precedes(tris@, a, b),
{
    let x = tris[a as usize];
    let y = tris[b as usize];
    if x.layer != y.layer {
        x.layer > y.layer
    } else if x.prio != y.prio {
        x.prio > y.prio
    } else if x.ord != y.ord {
        x.ord > y.ord
    } else {
        a < b
    }
}

proof fn lemma_insert_contains(s: Seq<u32>, p: int, e: u32)
    requires
        0 <= p <= s.len(),
    ensures
        forall|x: u32| s.insert(p, e).contains(x) <==> (s.contains(x) || x == e),
{
    let t = s.insert(p, e);
    assert forall|x: u32| t.contains(x) <==> (s.contains(x) || x == e) by {
        if t.contains(x) {
            let i = choose|i: int| 0 <= i < t.len() && t[i] == x;
            if i < p {
                assert(s[i] == x);
            } else if i > p {
                assert(s[i - 1] == x);
            }
        }
        if s.contains(x) {
            let i = choose|i: int| 0 <= i < s.len() && s[i] == x;
            if i < p {
                assert(t[i] == x);
            } else {
                assert(t[i + 1] == x);
            }
        }
        if x == e {
            assert(t[p] == x);
        }
    }
}

/// Sorts the members of one bin, given in ascending index order, into tile
/// order; insertion keeps members with equal keys in their given order.
fn sort_bin(tris: &Vec<TriBounds>, bin: &Vec<u32>) -> (s: Vec<u32>)
    requires
        forall|i: int| 0 <= i < bin.len() ==> bin[i] < tris.len(),
        forall|i: int, j: int| 0 <= i < j < bin.len() ==> bin[i] < bin[j],
    ensures
        is_sorted_bin(tris@, s@, bin@),
{
    let mut s: Vec<u32> = Vec::new();
    let n = bin.len();
    for i in 0..n
        invariant
            n == bin.len(),
            forall|i: int| 0 <= i < bin.len() ==> bin[i] < tris.len(),
            forall|i: int, j: int| 0 <= i < j < bin.len() ==> bin[i] < bin[j],
            s.len() == i,
            forall|x: u32| s@.contains(x) <==> bin@.take(i as int).contains(x),
            in_bin_order(tris@, s@),
    {
        let e = bin[i];
        assert forall|j: int| 0 <= j < s.len() implies s[j] < tris.len() && s[j] < e by {
            assert(s@.contains(s[j]));
            let w = choose|w: int| 0 <= w < i && bin@.take(i as int)[w] == s[j];
            assert(bin[w] == s[j]);
        }
        let mut p: usize = 0;
        while p < s.len() && precedes(tris, s[p], e)
            invariant
                p <= s.len(),
                forall|j: int| 0 <= j < s.len() ==> s[j] < tris.len() && s[j] < e,
                e < tris.len(),
                forall|j: int| 0 <= j < p ==> bin_precedes(tris@, s[j], e),
            decreases s.len() - p,
        {
            p = p + 1;
        }
        let ghost old_s = s@;
        proof {
            assert forall|j: int| p <= j < old_s.len() implies bin_precedes(tris@, e, old_s[j]) by {
                assert(!bin_precedes(tris@, old_s[p as int], e));
                assert(old_s[p as int] != e);
                if j > p {
                    assert(bin_precedes(tris@, old_s[p as int], old_s[j]));
                }
            }
            lemma_insert_contains(old_s, p as int, e);
            assert(bin@.take(i + 1) == bin@.take(i as int).push(e));
            assert forall|x: u32| bin@.take(i as int).push(e).contains(x) <==> (bin@.take(i as int).contains(x) || x == e) by {
                let q = bin@.take(i as int).push(e);
                if q.contains(x) {
                    let w = choose|w: int| 0 <= w < q.len() && q[w] == x;
                    if w < i {
                        assert(bin@.take(i as int)[w] == x);
                    }
                }
                if bin@.take(i as int).contains(x) {
                    let w = choose|w: int| 0 <= w < i && bin@.take(i as int)[w] == x;
                    assert(q[w] == x);
                }
                if x == e {
                    assert(q[i as int] == x);
                }
            }
        }
        s.insert(p, e);
        proof {
            assert forall|x: u32| s@.contains(x) <==> bin@.take(i + 1).contains(x) by {
                assert(old_s.contains(x) <==> bin@.take(i as int).contains(x));
            }
            let t = s@;
            assert forall|a: int, b: int| 0 <= a < b < t.len() implies bin_precedes(tris@, #[trigger] t[a], #[trigger] t[b]) by {
                if b < p {
                } else if b == p {
                } else if a < p {
                    assert(bin_precedes(tris@, t[a], e));
                    assert(bin_precedes(tris@, e, t[b]));
                } else if a == p {
                } else {
                }
            }
        }
    }
    assert(bin@.take(n as int) == bin@);
    s
}

/// Whether tile `k` of a grid `tiles_x` tiles wide comes, in row-major order,
/// before column `tx` of row `ty`.
pub open spec fn tile_passed(k: int, tiles_x: int, ty: int, tx: int) -> bool {
    k / tiles_x < ty || (k / tiles_x == ty && k % tiles_x < tx)
}

/// `bin_upto` for tile `k` and triangles below `t`, followed by `t` itself when
/// triangle `t` touches tile `k` and the row-major walk has passed tile `k`.
pub open spec fn bin_during(
    tris: Seq<TriBounds>,
    fb_w: u32,
    fb_h: u32,
    k: int,
    t: int,
    ty: int,
    tx: int,
) -> Seq<u32> {
    let prev = bin_upto(tris, fb_w, fb_h, k, t);
    if covers_tile(tris[t], fb_w, fb_h, k) && tile_passed(k, tile_grid_dim(fb_w), ty, tx) {
        prev.push(t as u32)
    } else {
        prev
    }
}

fn grid_dim(fb: u32) -> (d: u32)
    requires
        fb <= u32::MAX - 7,
    ensures
        d == tile_grid_dim(fb),
{
    let d = (fb + 7) / TILE_PX;
    if d < 1 {
        1
    } else {
        d
    }
}

/// Appends triangle `t` to the bin of every tile its clamped bounding box
/// touches, walking those tiles row by row.
fn add_triangle(
    bins: &mut Vec<Vec<u32>>,
    tris: &Vec<TriBounds>,
    t: usize,
    fb_w: u32,
    fb_h: u32,
    tiles_x: u32,
    tiles_y: u32,
)
    requires
        t < tris.len(),
        tris.len() <= u32::MAX,
        fb_w <= u32::MAX - 7,
        fb_h <= u32::MAX - 7,
        tiles_x == tile_grid_dim(fb_w),
        tiles_y == tile_grid_dim(fb_h),
        tiles_x * tiles_y <= u32::MAX,
        old(bins).len() == tiles_x * tiles_y,
        forall|k: int|
            0 <= k < old(bins).len() ==> #[trigger] old(bins)[k]@ == bin_upto(
                tris@,
                fb_w,
                fb_h,
                k,
                t as int,
            ),
    ensures
        final(bins).len() == old(bins).len(),
        forall|k: int|
            0 <= k < final(bins).len() ==> #[trigger] final(bins)[k]@ == bin_upto(
                tris@,
                fb_w,
                fb_h,
                k,
                t + 1,
            ),
{
    let b = tris[t];
    let lo_x: i64 = if b.min_x < 0 {
        0
    } else {
        b.min_x as i64
    };
    let hi_x: i64 = if b.max_x as i64 > fb_w as i64 {
        fb_w as i64
    } else {
        b.max_x as i64
    };
    let lo_y: i64 = if b.min_y < 0 {
        0
    } else {
        b.min_y as i64
    };
    let hi_y: i64 = if b.max_y as i64 > fb_h as i64 {
        fb_h as i64
    } else {
        b.max_y as i64
    };
    assert forall|k: int| 0 <= k < bins.len() implies #[trigger] bin_upto(tris@, fb_w, fb_h, k, t + 1)
        == bin_during(tris@, fb_w, fb_h, k, t as int, tiles_y as int, 0) by {
        if covers_tile(b, fb_w, fb_h, k) {
            assert(k / (tiles_x as int) < tiles_y as int);
        }
    }
    if lo_x >= hi_x || lo_y >= hi_y {
        return;
    }
    let tx0 = (lo_x / 8) as u32;
    let tx1 = ((hi_x - 1) / 8) as u32;
    let ty0 = (lo_y / 8) as u32;
    let ty1 = ((hi_y - 1) / 8) as u32;
    let ghost start = bins@;
    let mut ty = ty0;
    while ty <= ty1
        invariant
            t < tris.len(),
            tris.len() <= u32::MAX,
            b == tris[t as int],
            tiles_x == tile_grid_dim(fb_w),
            tiles_y == tile_grid_dim(fb_h),
            tiles_x * tiles_y <= u32::MAX,
            bins.len() == tiles_x * tiles_y,
            lo_x == span_lo(b.min_x),
            hi_x == span_hi(b.max_x, fb_w),
            lo_y == span_lo(b.min_y),
            hi_y == span_hi(b.max_y, fb_h),
            lo_x < hi_x,
            lo_y < hi_y,
            tx0 == lo_x / 8,
            tx1 == (hi_x - 1) / 8,
            ty0 == lo_y / 8,
            ty1 == (hi_y - 1) / 8,
            tx1 < tiles_x,
            ty1 < tiles_y,
            ty0 <= ty <= ty1 + 1,
            forall|k: int|
                0 <= k < bins.len() ==> #[trigger] bins[k]@ == bin_during(
                    tris@,
                    fb_w,
                    fb_h,
                    k,
                    t as int,
                    ty as int,
                    0,
                ),
        decreases ty1 + 1 - ty,
    {
        let mut tx = tx0;
        assert forall|k: int| 0 <= k < bins.len() implies #[trigger] bin_during(tris@, fb_w, fb_h, k, t as int, ty as int, 0)
            == bin_during(tris@, fb_w, fb_h, k, t as int, ty as int, tx as int) by {
            vstd::arithmetic::div_mod::lemma_mod_pos_bound(k, tiles_x as int);
        }
        while tx <= tx1
            invariant
                t < tris.len(),
                tris.len() <= u32::MAX,
                b == tris[t as int],
                tiles_x == tile_grid_dim(fb_w),
                tiles_y == tile_grid_dim(fb_h),
                tiles_x * tiles_y <= u32::MAX,
                bins.len() == tiles_x * tiles_y,
                lo_x == span_lo(b.min_x),
                hi_x == span_hi(b.max_x, fb_w),
                lo_y == span_lo(b.min_y),
                hi_y == span_hi(b.max_y, fb_h),
                lo_x < hi_x,
                lo_y < hi_y,
                tx0 == lo_x / 8,
                tx1 == (hi_x - 1) / 8,
                ty0 == lo_y / 8,
                ty1 == (hi_y - 1) / 8,
                tx1 < tiles_x,
                ty1 < tiles_y,
                ty0 <= ty <= ty1,
                tx0 <= tx <= tx1 + 1,
                forall|k: int|
                    0 <= k < bins.len() ==> #[trigger] bins[k]@ == bin_during(
                        tris@,
                        fb_w,
                        fb_h,
                        k,
                        t as int,
                        ty as int,
                        tx as int,
                    ),
            decreases tx1 + 1 - tx,
        {
            assert(ty * tiles_x + tx < tiles_x * tiles_y) by (nonlinear_arith)
                requires
                    ty < tiles_y,
                    tx < tiles_x,
            ;
            let idx = ty as usize * tiles_x as usize + tx as usize;
            proof {
                vstd::arithmetic::div_mod::lemma_fundamental_div_mod_converse(
                    idx as int,
                    tiles_x as int,
                    ty as int,
                    tx as int,
                );
            }
            let ghost before = bins@;
            bins[idx].push(t as u32);
            proof {
                assert forall|k: int| 0 <= k < bins.len() implies #[trigger] bins[k]@ == bin_during(
                    tris@,
                    fb_w,
                    fb_h,
                    k,
                    t as int,
                    ty as int,
                    tx + 1,
                ) by {
                    if k != idx {
                        assert(before[k]@ == bin_during(tris@, fb_w, fb_h, k, t as int, ty as int, tx as int));
                        vstd::arithmetic::div_mod::lemma_fundamental_div_mod(k, tiles_x as int);
                        if k / (tiles_x as int) == ty && k % (tiles_x as int) == tx {
                            vstd::arithmetic::mul::lemma_mul_is_commutative(tiles_x as int, ty as int);
                            assert(k == idx);
                        }
                    } else {
                        assert(before[k]@ == bin_during(tris@, fb_w, fb_h, k, t as int, ty as int, tx as int));
                    }
                }
            }
            tx = tx + 1;
        }
        assert forall|k: int| 0 <= k < bins.len() implies #[trigger] bin_during(tris@, fb_w, fb_h, k, t as int, ty as int, tx as int)
            == bin_during(tris@, fb_w, fb_h, k, t as int, ty + 1, 0) by {
            vstd::arithmetic::div_mod::lemma_mod_pos_bound(k, tiles_x as int);
        }
        ty = ty + 1;
    }
}

proof fn lemma_bin_upto_ascending(tris: Seq<TriBounds>, fb_w: u32, fb_h: u32, k: int, t: int)
    requires
        0 <= t <= tris.len(),
        tris.len() <= u32::MAX,
    ensures
        forall|i: int|
            0 <= i < bin_upto(tris, fb_w, fb_h, k, t).len() ==> #[trigger] bin_upto(
                tris,
                fb_w,
                fb_h,
                k,
                t,
            )[i] < t,
        forall|i: int, j: int|
            0 <= i < j < bin_upto(tris, fb_w, fb_h, k, t).len() ==> bin_upto(
                tris,
                fb_w,
                fb_h,
                k,
                t,
            )[i] < bin_upto(tris, fb_w, fb_h, k, t)[j],
    decreases t,
{
    if t > 0 {
        lemma_bin_upto_ascending(tris, fb_w, fb_h, k, t - 1);
        let prev = bin_upto(tris, fb_w, fb_h, k, t - 1);
        let cur = bin_upto(tris, fb_w, fb_h, k, t);
        if covers_tile(tris[t - 1], fb_w, fb_h, k) {
            assert(cur == prev.push((t - 1) as u32));
            assert forall|i: int| 0 <= i < cur.len() implies #[trigger] cur[i] < t by {
                if i < prev.len() {
                    assert(cur[i] == prev[i]);
                }
            }
            assert forall|i: int, j: int| 0 <= i < j < cur.len() implies cur[i] < cur[j] by {
                assert(cur[i] == prev[i]);
                if j < prev.len() {
                    assert(cur[j] == prev[j]);
                }
            }
        } else {
            assert(cur == prev);
        }
    }
}

proof fn lemma_entries_before_monotonic(tris: Seq<TriBounds>, fb_w: u32, fb_h: u32, i: int, j: int)
    requires
        0 <= i <= j,
    ensures
        0 <= entries_before(tris, fb_w, fb_h, i) <= entries_before(tris, fb_w, fb_h, j),
    decreases j,
{
    if j > i {
        lemma_entries_before_monotonic(tris, fb_w, fb_h, i, j - 1);
    } else if i > 0 {
        lemma_entries_before_monotonic(tris, fb_w, fb_h, 0, i - 1);
    }
}

/// Bins the triangles of one frame `fb_w` x `fb_h` pixels into its 8x8-pixel
/// tiles. Tile `k` (row-major) gets the triangles whose bounding box, clamped
/// to the frame, touches it, in tile order (`bin_precedes`); `bins[k]` says
/// where they sit in `tile_tris`. A frame with no binned triangle gets four
/// zeros in `tile_tris`, so that the list is never empty.
pub fn bin_triangles(fb_w: u32, fb_h: u32, tris: &Vec<TriBounds>) -> (r: TileBinning)
    requires
        fb_w <= u32::MAX - 7,
        fb_h <= u32::MAX - 7,
        tile_grid_dim(fb_w) * tile_grid_dim(fb_h) <= u32::MAX,
        tris.len() <= u32::MAX,
        entries_before(tris@, fb_w, fb_h, tile_grid_dim(fb_w) * tile_grid_dim(fb_h)) <= u32::MAX,
    ensures
        r.tiles_x == tile_grid_dim(fb_w),
        r.tiles_y == tile_grid_dim(fb_h),
        r.bins.len() == r.tiles_x * r.tiles_y,
        forall|k: int|
            0 <= k < r.bins.len() ==> (#[trigger] r.bins[k]).offset == entries_before(
                tris@,
                fb_w,
                fb_h,
                k,
            ) && r.bins[k].count == tile_members(tris@, fb_w, fb_h, k).len(),
        forall|k: int|
            0 <= k < r.bins.len() ==> is_sorted_bin(
                tris@,
                r.tile_tris@.subrange(
                    (#[trigger] r.bins[k]).offset as int,
                    r.bins[k].offset + r.bins[k].count,
                ),
                tile_members(tris@, fb_w, fb_h, k),
            ),
        entries_before(tris@, fb_w, fb_h, r.bins.len() as int) > 0 ==> r.tile_tris.len()
            == entries_before(tris@, fb_w, fb_h, r.bins.len() as int),
        entries_before(tris@, fb_w, fb_h, r.bins.len() as int) == 0 ==> r.tile_tris@ == seq![
            0u32,
            0,
            0,
            0,
        ],
{
    let tiles_x = grid_dim(fb_w);
    let tiles_y = grid_dim(fb_h);
    let tiles_n = tiles_x as usize * tiles_y as usize;
    let mut bins: Vec<Vec<u32>> = Vec::new();
    for i in 0..tiles_n
        invariant
            bins.len() == i,
            forall|k: int| 0 <= k < i ==> (#[trigger] bins[k])@ == Seq::<u32>::empty(),
    {
        bins.push(Vec::new());
    }
    for t in 0..tris.len()
        invariant
            tris.len() <= u32::MAX,
            fb_w <= u32::MAX - 7,
            fb_h <= u32::MAX - 7,
            tiles_x == tile_grid_dim(fb_w),
            tiles_y == tile_grid_dim(fb_h),
            tiles_x * tiles_y <= u32::MAX,
            tiles_n == tiles_x * tiles_y,
            bins.len() == tiles_n,
            forall|k: int|
                0 <= k < bins.len() ==> #[trigger] bins[k]@ == bin_upto(
                    tris@,
                    fb_w,
                    fb_h,
                    k,
                    t as int,
                ),
    {
        add_triangle(&mut bins, tris, t, fb_w, fb_h, tiles_x, tiles_y);
    }
    let ghost total = entries_before(tris@, fb_w, fb_h, tiles_n as int);
    let mut out: Vec<TileBin> = Vec::new();
    let mut tile_tris: Vec<u32> = Vec::new();
    let mut running: u32 = 0;
    for k in 0..tiles_n
        invariant
            tris.len() <= u32::MAX,
            bins.len() == tiles_n,
            total == entries_before(tris@, fb_w, fb_h, tiles_n as int),
            total <= u32::MAX,
            forall|j: int|
                0 <= j < bins.len() ==> #[trigger] bins[j]@ == tile_members(tris@, fb_w, fb_h, j),
            out.len() == k,
            tile_tris.len() == running,
            running == entries_before(tris@, fb_w, fb_h, k as int),
            forall|j: int|
                0 <= j < k ==> (#[trigger] out[j]).offset == entries_before(tris@, fb_w, fb_h, j)
                    && out[j].count == tile_members(tris@, fb_w, fb_h, j).len(),
            forall|j: int|
                0 <= j < k ==> is_sorted_bin(
                    tris@,
                    tile_tris@.subrange(
                        (#[trigger] out[j]).offset as int,
                        out[j].offset + out[j].count,
                    ),
                    tile_members(tris@, fb_w, fb_h, j),
                ),
    {
        proof {
            lemma_bin_upto_ascending(tris@, fb_w, fb_h, k as int, tris.len() as int);
            lemma_entries_before_monotonic(tris@, fb_w, fb_h, k + 1, tiles_n as int);
        }
        let sorted = sort_bin(tris, &bins[k]);
        let c = sorted.len() as u32;
        out.push(TileBin { offset: running, count: c });
        let ghost prev = tile_tris@;
        for i in 0..sorted.len()
            invariant
                tile_tris@ == prev + sorted@.take(i as int),
        {
            tile_tris.push(sorted[i]);
            assert(sorted@.take(i + 1) == sorted@.take(i as int).push(sorted[i as int]));
        }
        proof {
            assert(sorted@.take(sorted.len() as int) == sorted@);
            assert(tile_tris@.subrange(running as int, running + c) == sorted@);
            assert forall|j: int| 0 <= j < k + 1 implies is_sorted_bin(
                tris@,
                tile_tris@.subrange(
                    (#[trigger] out[j]).offset as int,
                    out[j].offset + out[j].count,
                ),
                tile_members(tris@, fb_w, fb_h, j),
            ) by {
                if j < k {
                    lemma_entries_before_monotonic(tris@, fb_w, fb_h, j + 1, k as int);
                    lemma_entries_before_monotonic(tris@, fb_w, fb_h, 0, j);
                    assert(tile_tris@.subrange(out[j].offset as int, out[j].offset + out[j].count)
                        == prev.subrange(out[j].offset as int, out[j].offset + out[j].count));
                }
            }
        }
        running = running + c;
    }
    if tile_tris.len() == 0 {
        proof {
            assert forall|k: int| 0 <= k < tiles_n implies (#[trigger] out[k]).count == 0
                && out[k].offset == 0 by {
                lemma_entries_before_monotonic(tris@, fb_w, fb_h, k + 1, tiles_n as int);
                lemma_entries_before_monotonic(tris@, fb_w, fb_h, 0, k);
            }
        }
        tile_tris.push(0);
        tile_tris.push(0);
        tile_tris.push(0);
        tile_tris.push(0);
        proof {
            assert forall|k: int| 0 <= k < tiles_n implies is_sorted_bin(
                tris@,
                tile_tris@.subrange(
                    (#[trigger] out[k]).offset as int,
                    out[k].offset + out[k].count,
                ),
                tile_members(tris@, fb_w, fb_h, k),
            ) by {
                assert(tile_tris@.subrange(out[k].offset as int, out[k].offset + out[k].count)
                    =~= Seq::<u32>::empty());
                assert(tile_members(tris@, fb_w, fb_h, k).len() == 0);
            }
        }
    }
    TileBinning { tiles_x, tiles_y, bins: out, tile_tris }
}

/// The tile grid covers the frame with 8-pixel tiles and no spare row or
/// column: at least one tile, enough tiles for every pixel, and (for a
/// non-empty frame) the last tile starts inside the frame.
pub proof fn lemma_tile_grid_covers_frame(fb: u32)
    ensures
        tile_grid_dim(fb) >= 1,
        tile_grid_dim(fb) * 8 >= fb,
        fb > 0 ==> (tile_grid_dim(fb) - 1) * 8 < fb,
{
}

/// Binning is by pixel. A triangle touches the tile of every pixel of its
/// bounding box clamped to the frame (`[max(min_x, 0), min(max_x, fb_w))` by
/// the same in y); and every tile it touches holds such a pixel.
pub proof fn lemma_covers_pixels(b: TriBounds, fb_w: u32, fb_h: u32, px: int, py: int, tx: int, ty: int)
    ensures
        ({
            let lo_x: int = if b.min_x < 0 { 0 } else { b.min_x as int };
            let hi_x: int = if b.max_x > fb_w { fb_w as int } else { b.max_x as int };
            let lo_y: int = if b.min_y < 0 { 0 } else { b.min_y as int };
            let hi_y: int = if b.max_y > fb_h { fb_h as int } else { b.max_y as int };
            &&& (lo_x <= px < hi_x && lo_y <= py < hi_y ==> covers(b, fb_w, fb_h, px / 8, py / 8))
            &&& (covers(b, fb_w, fb_h, tx, ty) ==> {
                let wx = if lo_x > 8 * tx { lo_x } else { 8 * tx };
                let wy = if lo_y > 8 * ty { lo_y } else { 8 * ty };
                &&& lo_x <= wx < hi_x
                &&& lo_y <= wy < hi_y
                &&& wx / 8 == tx
                &&& wy / 8 == ty
            })
        }),
{
}

/// Tile order over all triangles: a higher layer comes first; on equal layers
/// a higher priority; on equal layers and priorities a later emission; and on
/// equal keys the lower index. It is a strict order: never both ways.
pub proof fn lemma_bin_order_rules(tris: Seq<TriBounds>, a: u32, b: u32)
    requires
        a < tris.len(),
        b < tris.len(),
    ensures
        tris[a as int].layer > tris[b as int].layer ==> bin_precedes(tris, a, b),
        tris[a as int].layer == tris[b as int].layer && tris[a as int].prio > tris[b as int].prio
            ==> bin_precedes(tris, a, b),
        tris[a as int].layer == tris[b as int].layer && tris[a as int].prio == tris[b as int].prio
            && tris[a as int].ord > tris[b as int].ord ==> bin_precedes(tris, a, b),
        tris[a as int].layer == tris[b as int].layer && tris[a as int].prio == tris[b as int].prio
            && tris[a as int].ord == tris[b as int].ord && a < b ==> bin_precedes(tris, a, b),
        !(bin_precedes(tris, a, b) && bin_precedes(tris, b, a)),
        a != b ==> bin_precedes(tris, a, b) || bin_precedes(tris, b, a),
{
}

} // verus!
