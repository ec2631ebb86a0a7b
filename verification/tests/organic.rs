use scepter::organic::{organic_billboard_words, OrganicChunk, OrganicInstance, OrganicSprite, ORGANIC_MAGIC};

fn inst(base_bits: u32, sprite_index: u32, flags: u32) -> OrganicInstance {
    OrganicInstance {
        center_x_bits: base_bits,
        center_y_bits: base_bits + 1,
        center_z_bits: base_bits + 2,
        width_bits: base_bits + 3,
        height_bits: base_bits + 4,
        sprite_index,
        flags,
    }
}

fn sprite(width: u32, height: u32, rgba: Vec<u8>) -> OrganicSprite {
    OrganicSprite { width, height, rgba }
}

#[test]
fn empty_scene_is_just_the_header() {
    let w = organic_billboard_words(&vec![], &vec![], &vec![]);
    assert_eq!(w, vec![ORGANIC_MAGIC, 0, 0, 8, 8, 8, 0, 0]);
    assert_eq!(ORGANIC_MAGIC, 0x4F42_494C);
}

#[test]
fn shared_and_chunk_billboards() {
    let shared_sprites = vec![sprite(1, 1, vec![1, 2, 3, 4])];
    let shared_instances = vec![inst(10, 0, 7)];
    let chunks = vec![OrganicChunk {
        sprites: vec![sprite(1, 2, vec![0, 0, 0, 1, 255, 0, 0, 0])],
        instances: vec![inst(20, 0, 1)],
    }];
    let w = organic_billboard_words(&shared_sprites, &shared_instances, &chunks);
    assert_eq!(
        w,
        vec![
            ORGANIC_MAGIC, 2, 2, 8, 24, 32, 0, 0, // header
            10, 11, 12, 13, 14, 0, 7, 0, // shared instance
            20, 21, 22, 23, 24, 1, 1, 0, // chunk instance, sprite moved past the shared one
            0, 1, 1, 0, // shared sprite: pixels from 0
            1, 1, 2, 0, // chunk sprite: pixels from 1
            0x0403_0201, 0x0100_0000, 0x0000_00FF, // pixels, little-endian
        ]
    );
}

#[test]
fn later_chunks_count_earlier_chunk_sprites() {
    let chunks = vec![
        OrganicChunk { sprites: vec![sprite(1, 1, vec![0; 4]), sprite(1, 1, vec![0; 4])], instances: vec![] },
        OrganicChunk { sprites: vec![], instances: vec![inst(0, 3, 0)] },
    ];
    let w = organic_billboard_words(&vec![sprite(1, 1, vec![0; 4])], &vec![], &chunks);
    // One shared sprite and two from the first chunk come before.
    assert_eq!(w[8 + 5], 6);
    assert_eq!(w[1], 3);
    assert_eq!(w[2], 1);
}

#[test]
fn rebased_sprite_index_saturates() {
    let chunks = vec![OrganicChunk { sprites: vec![], instances: vec![inst(0, u32::MAX - 1, 0)] }];
    let w = organic_billboard_words(&vec![sprite(1, 1, vec![9; 4]), sprite(1, 1, vec![9; 4])], &vec![], &chunks);
    assert_eq!(w[8 + 5], u32::MAX);
    // Shared instances keep their index as given.
    let w = organic_billboard_words(&vec![], &vec![inst(0, 42, 0)], &vec![]);
    assert_eq!(w[8 + 5], 42);
}

#[test]
fn partial_pixel_bytes_are_dropped() {
    let w = organic_billboard_words(&vec![sprite(1, 1, vec![1, 0, 0, 0, 5, 6])], &vec![], &vec![]);
    assert_eq!(w, vec![ORGANIC_MAGIC, 1, 0, 8, 8, 12, 0, 0, 0, 1, 1, 0, 1]);
}
