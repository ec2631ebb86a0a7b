//! The storage-buffer layout of organic billboards: one block of 32-bit words
//! holding a header, every instance, every sprite's metadata and every
//! sprite's pixels. Instance positions and sizes arrive as the bit patterns of
//! their floats.

use vstd::prelude::*;

verus! {

/// Tag word that opens the buffer.
pub const ORGANIC_MAGIC: u32 = 0x4F42_494C;

/// One placed billboard: its center and size as float bit patterns, the sprite
/// it shows and its flags.
#[derive(Clone, Copy, Debug, PartialEq, Eq, Structural)]
pub struct OrganicInstance {
    pub center_x_bits: u32,
    pub center_y_bits: u32,
    pub center_z_bits: u32,
    pub width_bits: u32,
    pub height_bits: u32,
    pub sprite_index: u32,
    pub flags: u32,
}

/// One billboard sprite: its size and its RGBA bytes.
#[derive(Clone, Debug)]
pub struct OrganicSprite {
    pub width: u32,
    pub height: u32,
    pub rgba: Vec<u8>,
}

/// The sprites and instances one scene chunk contributes. A chunk's instances
/// index its own sprites.
#[derive(Clone, Debug)]
pub struct OrganicChunk {
    pub sprites: Vec<OrganicSprite>,
    pub instances: Vec<OrganicInstance>,
}

/// `a + b`, saturating at `u32::MAX`.
pub open spec fn sat_add(a: int, b: int) -> int {
    if a + b > u32::MAX {
        u32::MAX as int
    } else {
        a + b
    }
}

/// Four bytes read as one little-endian word.
pub open spec fn le_word(b0: u8, b1: u8, b2: u8, b3: u8) -> u32 {
    (b0 as int + b1 as int * 0x100 + b2 as int * 0x1_0000 + b3 as int * 0x100_0000) as u32
}

/// The pixel words of an RGBA byte string: one per whole group of four bytes;
/// a trailing partial group is dropped.
pub open spec fn pixels_of(rgba: Seq<u8>) -> Seq<u32> {
    Seq::new(
        (rgba.len() / 4) as nat,
        |i: int| le_word(rgba[4 * i], rgba[4 * i + 1], rgba[4 * i + 2], rgba[4 * i + 3]),
    )
}

/// The eight words of one instance, showing sprite `sprite`.
pub open spec fn instance_words(inst: OrganicInstance, sprite: u32) -> Seq<u32> {
    seq![
        inst.center_x_bits,
        inst.center_y_bits,
        inst.center_z_bits,
        inst.width_bits,
        inst.height_bits,
        sprite,
        inst.flags,
        0u32,
    ]
}

/// The words of a run of instances; with `rebase`, each instance's sprite index
/// is moved up by `base` (saturating), else it is kept.
pub open spec fn instances_words(insts: Seq<OrganicInstance>, base: int, rebase: bool) -> Seq<u32>
    decreases insts.len(),
{
    if insts.len() == 0 {
        Seq::empty()
    } else {
        let last = insts.last();
        let sprite = if rebase {
            sat_add(base, last.sprite_index as int) as u32
        } else {
            last.sprite_index
        };
        instances_words(insts.drop_last(), base, rebase) + instance_words(last, sprite)
    }
}

/// Number of sprites the chunks hold.
pub open spec fn chunk_sprite_total(chunks: Seq<OrganicChunk>) -> int
    decreases chunks.len(),
{
    if chunks.len() == 0 {
        0
    } else {
        chunk_sprite_total(chunks.drop_last()) + chunks.last().sprites.len()
    }
}

/// Number of instances the chunks hold.
pub open spec fn chunk_instance_total(chunks: Seq<OrganicChunk>) -> int
    decreases chunks.len(),
{
    if chunks.len() == 0 {
        0
    } else {
        chunk_instance_total(chunks.drop_last()) + chunks.last().instances.len()
    }
}

/// The words of the chunks' instances, each chunk's sprite indices moved past
/// the `first_sprite` shared sprites and the sprites of the chunks before it.
pub open spec fn chunk_instances_words(first_sprite: int, chunks: Seq<OrganicChunk>) -> Seq<u32>
    decreases chunks.len(),
{
    if chunks.len() == 0 {
        Seq::empty()
    } else {
        let prev = chunks.drop_last();
        chunk_instances_words(first_sprite, prev) + instances_words(
            chunks.last().instances@,
            first_sprite + chunk_sprite_total(prev),
            true,
        )
    }
}

/// The chunks' sprites, chunk by chunk.
pub open spec fn chunk_sprites(chunks: Seq<OrganicChunk>) -> Seq<OrganicSprite>
    decreases chunks.len(),
{
    if chunks.len() == 0 {
        Seq::empty()
    } else {
        chunk_sprites(chunks.drop_last()) + chunks.last().sprites@
    }
}

/// The pixel words of a run of sprites, sprite after sprite.
pub open spec fn sprites_pixels(sprites: Seq<OrganicSprite>) -> Seq<u32>
    decreases sprites.len(),
{
    if sprites.len() == 0 {
        Seq::empty()
    } else {
        sprites_pixels(sprites.drop_last()) + pixels_of(sprites.last().rgba@)
    }
}

/// The metadata words of a run of sprites: per sprite, where its pixels start
/// among all pixel words (modulo 2^32), its width, its height and a zero.
pub open spec fn sprites_meta(sprites: Seq<OrganicSprite>) -> Seq<u32>
    decreases sprites.len(),
{
    if sprites.len() == 0 {
        Seq::empty()
    } else {
        let prev = sprites.drop_last();
        sprites_meta(prev) + seq![
            sprites_pixels(prev).len() as u32,
            sprites.last().width,
            sprites.last().height,
            0u32,
        ]
    }
}

/// The eight header words: tag, sprite and instance counts, where instances,
/// sprite metadata and pixels start (in words), and two zeros.
pub open spec fn organic_header(sprite_count: int, instance_count: int) -> Seq<u32> {
    seq![
        ORGANIC_MAGIC,
        sprite_count as u32,
        instance_count as u32,
        8u32,
        (8 + instance_count * 8) as u32,
        (8 + instance_count * 8 + sprite_count * 4) as u32,
        0u32,
        0u32,
    ]
}

/// The whole buffer for the shared sprites and instances and the chunks'.
pub open spec fn organic_words(
    sprites: Seq<OrganicSprite>,
    instances: Seq<OrganicInstance>,
    chunks: Seq<OrganicChunk>,
) -> Seq<u32> {
    let all = sprites + chunk_sprites(chunks);
    organic_header(all.len() as int, instances.len() + chunk_instance_total(chunks))
        + instances_words(instances, 0, false)
        + chunk_instances_words(sprites.len() as int, chunks)
        + sprites_meta(all)
        + sprites_pixels(all)
}

proof fn lemma_chunk_totals(chunks: Seq<OrganicChunk>, c: int)
    requires
        0 <= c <= chunks.len(),
    ensures
        0 <= chunk_sprite_total(chunks.take(c)) <= chunk_sprite_total(chunks),
        0 <= chunk_instance_total(chunks.take(c)) <= chunk_instance_total(chunks),
        chunk_sprites(chunks).len() == chunk_sprite_total(chunks),
    decreases chunks.len(),
{
    if chunks.len() > 0 {
        let prev = chunks.drop_last();
        if c == chunks.len() {
            assert(chunks.take(c) =~= chunks);
            lemma_chunk_totals(prev, 0);
        } else {
            lemma_chunk_totals(prev, c);
            assert(prev.take(c) =~= chunks.take(c));
        }
    } else {
        assert(chunks.take(c) =~= chunks);
    }
}

fn push_pixels(pixels: &mut Vec<u32>, rgba: &Vec<u8>)
    ensures
        final(pixels)@ == old(pixels)@ + pixels_of(rgba@),
{
    let n = rgba.len() / 4;
    let ghost start = old(pixels)@;
    for i in 0..n
        invariant
            n == rgba.len() / 4,
            pixels@ == start + pixels_of(rgba@).take(i as int),
    {
        let w: u32 = rgba[4 * i] as u32 + rgba[4 * i + 1] as u32 * 0x100 + rgba[4 * i + 2] as u32
            * 0x1_0000 + rgba[4 * i + 3] as u32 * 0x100_0000;
        pixels.push(w);
        assert(pixels_of(rgba@).take(i + 1) =~= pixels_of(rgba@).take(i as int).push(w));
    }
    assert(pixels_of(rgba@).take(n as int) =~= pixels_of(rgba@));
}

fn push_instances(words: &mut Vec<u32>, insts: &Vec<OrganicInstance>, base: u32, rebase: bool)
    ensures
        final(words)@ == old(words)@ + instances_words(insts@, base as int, rebase),
{
    let ghost start = old(words)@;
    for i in 0..insts.len()
        invariant
            words@ == start + instances_words(insts@.take(i as int), base as int, rebase),
    {
        let inst = insts[i];
        let sprite = if rebase {
            base.saturating_add(inst.sprite_index)
        } else {
            inst.sprite_index
        };
        words.push(inst.center_x_bits);
        words.push(inst.center_y_bits);
        words.push(inst.center_z_bits);
        words.push(inst.width_bits);
        words.push(inst.height_bits);
        words.push(sprite);
        words.push(inst.flags);
        words.push(0);
        assert(insts@.take(i + 1).drop_last() =~= insts@.take(i as int));
        assert(words@ =~= start + instances_words(insts@.take(i + 1), base as int, rebase));
    }
    assert(insts@.take(insts.len() as int) =~= insts@);
}

fn push_sprites(
    words: &mut Vec<u32>,
    pixels: &mut Vec<u32>,
    sprites: &Vec<OrganicSprite>,
    Ghost(prefix): Ghost<Seq<u32>>,
    Ghost(done): Ghost<Seq<OrganicSprite>>,
)
    requires
        old(words)@ == prefix + sprites_meta(done),
        old(pixels)@ == sprites_pixels(done),
    ensures
        final(words)@ == prefix + sprites_meta(done + sprites@),
        final(pixels)@ == sprites_pixels(done + sprites@),
{
    for i in 0..sprites.len()
        invariant
            words@ == prefix + sprites_meta(done + sprites@.take(i as int)),
            pixels@ == sprites_pixels(done + sprites@.take(i as int)),
    {
        let sprite = &sprites[i];
        let ghost before = done + sprites@.take(i as int);
        let ghost after = done + sprites@.take(i + 1);
        assert(after.drop_last() =~= before);
        let offset = pixels.len() as u32;
        words.push(offset);
        words.push(sprite.width);
        words.push(sprite.height);
        words.push(0);
        push_pixels(pixels, &sprite.rgba);
        assert(words@ =~= prefix + sprites_meta(after));
    }
    assert(sprites@.take(sprites.len() as int) =~= sprites@);
}

/// Lays out the organic billboards of a scene as one buffer of words: the
/// shared sprites and instances first, then each chunk's, where a chunk's
/// instances have their sprite index moved past every sprite listed before
/// that chunk's own (saturating at `u32::MAX`).
pub fn organic_billboard_words(
    sprites: &Vec<OrganicSprite>,
    instances: &Vec<OrganicInstance>,
    chunks: &Vec<OrganicChunk>,
) -> (words: Vec<u32>)
    requires
        8 + 8 * (instances.len() + chunk_instance_total(chunks@)) + 4 * (sprites.len()
            + chunk_sprite_total(chunks@)) <= u32::MAX,
    ensures
        words@ == organic_words(sprites@, instances@, chunks@),
{
    proof {
        lemma_chunk_totals(chunks@, 0);
    }
    let mut sprite_count: usize = sprites.len();
    let mut instance_count: usize = instances.len();
    for c in 0..chunks.len()
        invariant
            8 + 8 * (instances.len() + chunk_instance_total(chunks@)) + 4 * (sprites.len()
                + chunk_sprite_total(chunks@)) <= u32::MAX,
            sprite_count == sprites.len() + chunk_sprite_total(chunks@.take(c as int)),
            instance_count == instances.len() + chunk_instance_total(chunks@.take(c as int)),
    {
        proof {
            lemma_chunk_totals(chunks@, c + 1);
            assert(chunks@.take(c + 1).drop_last() =~= chunks@.take(c as int));
        }
        sprite_count = sprite_count + chunks[c].sprites.len();
        instance_count = instance_count + chunks[c].instances.len();
    }
    assert(chunks@.take(chunks.len() as int) =~= chunks@);
    let sc = sprite_count as u32;
    let ic = instance_count as u32;
    let instance_offset: u32 = 8;
    let meta_offset: u32 = instance_offset + ic * 8;
    let pixel_offset: u32 = meta_offset + sc * 4;
    let mut words: Vec<u32> = Vec::new();
    words.push(ORGANIC_MAGIC);
    words.push(sc);
    words.push(ic);
    words.push(instance_offset);
    words.push(meta_offset);
    words.push(pixel_offset);
    words.push(0);
    words.push(0);
    let ghost header = words@;
    push_instances(&mut words, instances, 0, false);
    let ghost shared = words@;
    let mut sprite_base: u32 = sprites.len() as u32;
    for c in 0..chunks.len()
        invariant
            8 + 8 * (instances.len() + chunk_instance_total(chunks@)) + 4 * (sprites.len()
                + chunk_sprite_total(chunks@)) <= u32::MAX,
            sprite_base == sprites.len() + chunk_sprite_total(chunks@.take(c as int)),
            words@ == shared + chunk_instances_words(sprites.len() as int, chunks@.take(c as int)),
    {
        proof {
            lemma_chunk_totals(chunks@, c + 1);
            assert(chunks@.take(c + 1).drop_last() =~= chunks@.take(c as int));
        }
        let ghost before = words@;
        push_instances(&mut words, &chunks[c].instances, sprite_base, true);
        assert(words@ =~= shared + chunk_instances_words(sprites.len() as int, chunks@.take(c + 1)));
        sprite_base = sprite_base.saturating_add(chunks[c].sprites.len() as u32);
    }
    let ghost prefix = words@;
    let mut pixels: Vec<u32> = Vec::new();
    assert(words@ =~= prefix + sprites_meta(Seq::<OrganicSprite>::empty()));
    push_sprites(&mut words, &mut pixels, sprites, Ghost(prefix), Ghost(Seq::empty()));
    assert(Seq::<OrganicSprite>::empty() + sprites@ =~= sprites@ + chunk_sprites(chunks@.take(0)));
    for c in 0..chunks.len()
        invariant
            words@ == prefix + sprites_meta(sprites@ + chunk_sprites(chunks@.take(c as int))),
            pixels@ == sprites_pixels(sprites@ + chunk_sprites(chunks@.take(c as int))),
    {
        let ghost done = sprites@ + chunk_sprites(chunks@.take(c as int));
        push_sprites(&mut words, &mut pixels, &chunks[c].sprites, Ghost(prefix), Ghost(done));
        assert(chunks@.take(c + 1).drop_last() =~= chunks@.take(c as int));
        assert(done + chunks@[c as int].sprites@ =~= sprites@ + chunk_sprites(chunks@.take(c + 1)));
    }
    let ghost metas = words@;
    for i in 0..pixels.len()
        invariant
            words@ == metas + pixels@.take(i as int),
    {
        words.push(pixels[i]);
        assert(pixels@.take(i + 1) =~= pixels@.take(i as int).push(pixels[i as int]));
    }
    proof {
        assert(pixels@.take(pixels.len() as int) =~= pixels@);
        let all = sprites@ + chunk_sprites(chunks@);
        assert(header =~= organic_header(all.len() as int, instances.len() + chunk_instance_total(chunks@)));
        assert(words@ =~= organic_words(sprites@, instances@, chunks@));
    }
    words
}

proof fn lemma_instances_words_len(insts: Seq<OrganicInstance>, base: int, rebase: bool)
    ensures
        instances_words(insts, base, rebase).len() == 8 * insts.len(),
    decreases insts.len(),
{
    if insts.len() > 0 {
        lemma_instances_words_len(insts.drop_last(), base, rebase);
    }
}

proof fn lemma_chunk_instances_words_len(first_sprite: int, chunks: Seq<OrganicChunk>)
    ensures
        chunk_instances_words(first_sprite, chunks).len() == 8 * chunk_instance_total(chunks),
    decreases chunks.len(),
{
    if chunks.len() > 0 {
        let prev = chunks.drop_last();
        lemma_chunk_instances_words_len(first_sprite, prev);
        lemma_instances_words_len(chunks.last().instances@, first_sprite + chunk_sprite_total(prev), true);
    }
}

proof fn lemma_sprites_meta_len(sprites: Seq<OrganicSprite>)
    ensures
        sprites_meta(sprites).len() == 4 * sprites.len(),
    decreases sprites.len(),
{
    if sprites.len() > 0 {
        lemma_sprites_meta_len(sprites.drop_last());
    }
}

/// The header describes the buffer it opens: the tag, then the sprite and
/// instance counts over shared and chunk billboards; the instance section (8
/// words per instance) runs from the instance offset to the metadata offset,
/// the metadata section (4 words per sprite) from there to the pixel offset,
/// and the pixels fill the rest.
pub proof fn lemma_organic_header_locates_sections(
    sprites: Seq<OrganicSprite>,
    instances: Seq<OrganicInstance>,
    chunks: Seq<OrganicChunk>,
)
    requires
        8 + 8 * (instances.len() + chunk_instance_total(chunks)) + 4 * (sprites.len() + chunk_sprite_total(
            chunks,
        )) <= u32::MAX,
    ensures
        ({
            let w = organic_words(sprites, instances, chunks);
            let all = sprites + chunk_sprites(chunks);
            let ic = instances.len() + chunk_instance_total(chunks);
            &&& w[0] == ORGANIC_MAGIC
            &&& w[1] == all.len()
            &&& w[2] == ic
            &&& w[3] == 8
            &&& w.len() == 8 + 8 * ic + 4 * all.len() + sprites_pixels(all).len()
            &&& w.subrange(w[3] as int, w[4] as int) == instances_words(instances, 0, false)
                + chunk_instances_words(sprites.len() as int, chunks)
            &&& w.subrange(w[4] as int, w[5] as int) == sprites_meta(all)
            &&& w.subrange(w[5] as int, w.len() as int) == sprites_pixels(all)
        }),
{
    let all = sprites + chunk_sprites(chunks);
    let ic = instances.len() + chunk_instance_total(chunks);
    lemma_chunk_totals(chunks, 0);
    lemma_instances_words_len(instances, 0, false);
    lemma_chunk_instances_words_len(sprites.len() as int, chunks);
    lemma_sprites_meta_len(all);
    let h = organic_header(all.len() as int, ic);
    let a = instances_words(instances, 0, false);
    let b = chunk_instances_words(sprites.len() as int, chunks);
    let m = sprites_meta(all);
    let p = sprites_pixels(all);
    let w = organic_words(sprites, instances, chunks);
    assert(w == h + a + b + m + p);
    assert(w.subrange(8, 8 + 8 * ic) =~= a + b);
    assert(w.subrange(8 + 8 * ic, 8 + 8 * ic + 4 * all.len()) =~= m);
    assert(w.subrange(8 + 8 * ic + 4 * all.len(), w.len() as int) =~= p);
}

/// Sprite `k`'s metadata record (words `4k` to `4k + 3` of the metadata) holds
/// where its pixels start among all pixel words, its width, its height and a
/// zero; and its pixels are found there.
pub proof fn lemma_sprite_meta_locates_pixels(sprites: Seq<OrganicSprite>, k: int)
    requires
        0 <= k < sprites.len(),
    ensures
        ({
            let start = sprites_pixels(sprites.take(k)).len();
            let own = pixels_of(sprites[k].rgba@);
            &&& sprites_meta(sprites).subrange(4 * k, 4 * k + 4) == seq![
                start as u32,
                sprites[k].width,
                sprites[k].height,
                0u32,
            ]
            &&& (start + own.len()) as int <= sprites_pixels(sprites).len()
            &&& sprites_pixels(sprites).subrange(start as int, (start + own.len()) as int) == own
        }),
    decreases sprites.len(),
{
    let dl = sprites.drop_last();
    lemma_sprites_meta_len(dl);
    if k == sprites.len() - 1 {
        assert(dl =~= sprites.take(k));
        assert(sprites_meta(sprites).subrange(4 * k, 4 * k + 4) =~= seq![
            sprites_pixels(dl).len() as u32,
            sprites[k].width,
            sprites[k].height,
            0u32,
        ]);
        assert(sprites_pixels(sprites).subrange(sprites_pixels(dl).len() as int, sprites_pixels(sprites).len() as int)
            =~= pixels_of(sprites[k].rgba@));
    } else {
        lemma_sprite_meta_locates_pixels(dl, k);
        assert(dl.take(k) =~= sprites.take(k));
        assert(dl[k] == sprites[k]);
        let start = sprites_pixels(sprites.take(k)).len();
        let own = pixels_of(sprites[k].rgba@);
        assert(sprites_meta(sprites).subrange(4 * k, 4 * k + 4) =~= sprites_meta(dl).subrange(4 * k, 4 * k + 4));
        assert(sprites_pixels(sprites).subrange(start as int, (start + own.len()) as int) =~= sprites_pixels(dl).subrange(
            start as int,
            (start + own.len()) as int,
        ));
    }
}

/// Pixel words are little-endian: the first byte is the low byte and the
/// fourth the high byte, for all bytes.
pub proof fn lemma_le_word_byte_order(b0: u8, b1: u8, b2: u8, b3: u8)
    ensures
        le_word(b0, b1, b2, b3) % 256 == b0,
        (le_word(b0, b1, b2, b3) / 256) % 256 == b1,
        (le_word(b0, b1, b2, b3) / 65536) % 256 == b2,
        le_word(b0, b1, b2, b3) / 16777216 == b3,
{
    let v: int = b0 as int + b1 as int * 0x100 + b2 as int * 0x1_0000 + b3 as int * 0x100_0000;
    assert(0 <= v < 0x1_0000_0000);
    assert(le_word(b0, b1, b2, b3) == v);
    assert(v % 256 == b0 && (v / 256) % 256 == b1 && (v / 65536) % 256 == b2 && v / 16777216 == b3)
        by (nonlinear_arith)
        requires
            v == b0 as int + b1 as int * 0x100 + b2 as int * 0x1_0000 + b3 as int * 0x100_0000,
            0 <= b0 < 256,
            0 <= b1 < 256,
            0 <= b2 < 256,
            0 <= b3 < 256,
    ;
}

} // verus!
