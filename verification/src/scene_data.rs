//! The layout of the scene-data storage buffer: an eight-word header, then the
//! light records, the billboard commands, the avatar metadata records and the
//! avatar pixels, each section's offset given in words (0 for an empty section).
//! The records arrive already flattened to words.

use vstd::prelude::*;

verus! {

/// Words per light record.
pub const LIGHT_WORDS: usize = 20;

/// Words per billboard command.
pub const BILLBOARD_CMD_WORDS: usize = 16;

/// Words per avatar metadata record.
pub const AVATAR_META_WORDS: usize = 4;

/// The header in front of the scene data: where each section starts and how
/// many records it holds, and how many data words there are in all.
#[derive(Clone, Copy, Debug, PartialEq, Eq, Structural)]
pub struct SceneDataHeader {
    pub lights_offset_words: u32,
    pub lights_count: u32,
    pub billboard_cmd_offset_words: u32,
    pub billboard_cmd_count: u32,
    pub avatar_meta_offset_words: u32,
    pub avatar_meta_count: u32,
    pub avatar_pixel_offset_words: u32,
    pub data_word_count: u32,
}

/// Offset of a section that starts after `before` words: 0 when the section is
/// empty.
pub open spec fn section_offset(before: int, len: int) -> int {
    if len == 0 {
        0
    } else {
        before
    }
}

/// The header for sections of the given word lengths.
pub open spec fn scene_data_header_spec(lights: int, billboards: int, metas: int, pixels: int) -> SceneDataHeader {
    SceneDataHeader {
        lights_offset_words: 0,
        lights_count: (lights / LIGHT_WORDS as int) as u32,
        billboard_cmd_offset_words: section_offset(lights, billboards) as u32,
        billboard_cmd_count: (billboards / BILLBOARD_CMD_WORDS as int) as u32,
        avatar_meta_offset_words: section_offset(lights + billboards, metas) as u32,
        avatar_meta_count: (metas / AVATAR_META_WORDS as int) as u32,
        avatar_pixel_offset_words: section_offset(lights + billboards + metas, pixels) as u32,
        data_word_count: (lights + billboards + metas + pixels) as u32,
    }
}

/// The eight words of a header, field by field.
pub open spec fn header_words(h: SceneDataHeader) -> Seq<u32> {
    seq![
        h.lights_offset_words,
        h.lights_count,
        h.billboard_cmd_offset_words,
        h.billboard_cmd_count,
        h.avatar_meta_offset_words,
        h.avatar_meta_count,
        h.avatar_pixel_offset_words,
        h.data_word_count,
    ]
}

/// The data words: the four sections in order, or four zeros when all are
/// empty, so that the buffer is never empty.
pub open spec fn scene_data_body(lights: Seq<u32>, billboards: Seq<u32>, metas: Seq<u32>, pixels: Seq<u32>) -> Seq<u32> {
    let all = lights + billboards + metas + pixels;
    if all.len() == 0 {
        seq![0u32, 0, 0, 0]
    } else {
        all
    }
}

fn append_words(dst: &mut Vec<u32>, src: &Vec<u32>)
    ensures
        final(dst)@ == old(dst)@ + src@,
{
    let ghost start = old(dst)@;
    for i in 0..src.len()
        invariant
            dst@ == start + src@.take(i as int),
    {
        dst.push(src[i]);
        assert(src@.take(i + 1) =~= src@.take(i as int).push(src[i as int]));
    }
    assert(src@.take(src.len() as int) =~= src@);
}

/// Lays out the scene data: the header's words, then the data words.
pub fn scene_data_words(
    lights: &Vec<u32>,
    billboards: &Vec<u32>,
    avatar_metas: &Vec<u32>,
    avatar_pixels: &Vec<u32>,
) -> (r: (SceneDataHeader, Vec<u32>))
    requires
        lights.len() + billboards.len() + avatar_metas.len() + avatar_pixels.len() <= u32::MAX,
    ensures
        r.0 == scene_data_header_spec(
            lights.len() as int,
            billboards.len() as int,
            avatar_metas.len() as int,
            avatar_pixels.len() as int,
        ),
        r.1@ == header_words(r.0) + scene_data_body(lights@, billboards@, avatar_metas@, avatar_pixels@),
{
    let l = lights.len();
    let b = billboards.len();
    let m = avatar_metas.len();
    let p = avatar_pixels.len();
    let header = SceneDataHeader {
        lights_offset_words: 0,
        lights_count: (l / LIGHT_WORDS) as u32,
        billboard_cmd_offset_words: if b == 0 {
            0
        } else {
            l as u32
        },
        billboard_cmd_count: (b / BILLBOARD_CMD_WORDS) as u32,
        avatar_meta_offset_words: if m == 0 {
            0
        } else {
            (l + b) as u32
        },
        avatar_meta_count: (m / AVATAR_META_WORDS) as u32,
        avatar_pixel_offset_words: if p == 0 {
            0
        } else {
            (l + b + m) as u32
        },
        data_word_count: (l + b + m + p) as u32,
    };
    let mut words: Vec<u32> = Vec::new();
    words.push(header.lights_offset_words);
    words.push(header.lights_count);
    words.push(header.billboard_cmd_offset_words);
    words.push(header.billboard_cmd_count);
    words.push(header.avatar_meta_offset_words);
    words.push(header.avatar_meta_count);
    words.push(header.avatar_pixel_offset_words);
    words.push(header.data_word_count);
    let ghost head = words@;
    append_words(&mut words, lights);
    append_words(&mut words, billboards);
    append_words(&mut words, avatar_metas);
    append_words(&mut words, avatar_pixels);
    if l + b + m + p == 0 {
        words.push(0);
        words.push(0);
        words.push(0);
        words.push(0);
    }
    proof {
        assert(head =~= header_words(header));
        assert(words@ =~= head + scene_data_body(lights@, billboards@, avatar_metas@, avatar_pixels@));
    }
    (header, words)
}

/// The header locates each section: light records are 20 words, billboard
/// commands 16 and avatar metadata records 4, so the counts are the section
/// lengths divided by those; a non-empty section starts at its offset among
/// the data words, an empty one reports offset 0; and the data word count is
/// the total length of the sections.
pub proof fn lemma_scene_data_sections(lights: Seq<u32>, billboards: Seq<u32>, metas: Seq<u32>, pixels: Seq<u32>)
    requires
        lights.len() + billboards.len() + metas.len() + pixels.len() <= u32::MAX,
    ensures
        ({
            let h = scene_data_header_spec(lights.len() as int, billboards.len() as int, metas.len() as int, pixels.len() as int);
            let body = scene_data_body(lights, billboards, metas, pixels);
            &&& h.lights_count == lights.len() / 20
            &&& h.billboard_cmd_count == billboards.len() / 16
            &&& h.avatar_meta_count == metas.len() / 4
            &&& h.data_word_count == lights.len() + billboards.len() + metas.len() + pixels.len()
            &&& body.subrange(h.lights_offset_words as int, h.lights_offset_words + lights.len()) == lights
            &&& (billboards.len() > 0 ==> body.subrange(
                h.billboard_cmd_offset_words as int,
                h.billboard_cmd_offset_words + billboards.len(),
            ) == billboards)
            &&& (metas.len() > 0 ==> body.subrange(
                h.avatar_meta_offset_words as int,
                h.avatar_meta_offset_words + metas.len(),
            ) == metas)
            &&& (pixels.len() > 0 ==> body.subrange(
                h.avatar_pixel_offset_words as int,
                h.avatar_pixel_offset_words + pixels.len(),
            ) == pixels)
            &&& (billboards.len() == 0 ==> h.billboard_cmd_offset_words == 0)
            &&& (metas.len() == 0 ==> h.avatar_meta_offset_words == 0)
            &&& (pixels.len() == 0 ==> h.avatar_pixel_offset_words == 0)
        }),
{
    let all = lights + billboards + metas + pixels;
    let l = lights.len() as int;
    let b = billboards.len() as int;
    let m = metas.len() as int;
    let p = pixels.len() as int;
    if all.len() > 0 {
        assert(all.subrange(0, l) =~= lights);
        assert(all.subrange(l, l + b) =~= billboards);
        assert(all.subrange(l + b, l + b + m) =~= metas);
        assert(all.subrange(l + b + m, l + b + m + p) =~= pixels);
    } else {
        assert(lights.len() == 0);
        assert(seq![0u32, 0, 0, 0].subrange(0, 0) =~= lights);
    }
}

} // verus!
