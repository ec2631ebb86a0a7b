use scepter::scene_data::{scene_data_words, SceneDataHeader};

#[test]
fn empty_scene_data_is_padded() {
    let (h, w) = scene_data_words(&vec![], &vec![], &vec![], &vec![]);
    assert_eq!(
        h,
        SceneDataHeader {
            lights_offset_words: 0,
            lights_count: 0,
            billboard_cmd_offset_words: 0,
            billboard_cmd_count: 0,
            avatar_meta_offset_words: 0,
            avatar_meta_count: 0,
            avatar_pixel_offset_words: 0,
            data_word_count: 0,
        }
    );
    assert_eq!(w, vec![0; 12]);
}

#[test]
fn sections_follow_each_other() {
    let lights = vec![1u32; 40]; // two lights
    let billboards = vec![2u32; 16]; // one command
    let metas = vec![3u32; 8]; // two avatars
    let pixels = vec![4u32; 5];
    let (h, w) = scene_data_words(&lights, &billboards, &metas, &pixels);
    assert_eq!(
        h,
        SceneDataHeader {
            lights_offset_words: 0,
            lights_count: 2,
            billboard_cmd_offset_words: 40,
            billboard_cmd_count: 1,
            avatar_meta_offset_words: 56,
            avatar_meta_count: 2,
            avatar_pixel_offset_words: 64,
            data_word_count: 69,
        }
    );
    assert_eq!(&w[..8], &[0, 2, 40, 1, 56, 2, 64, 69]);
    assert_eq!(w.len(), 8 + 69);
    assert_eq!(w[8], 1);
    assert_eq!(w[8 + 40], 2);
    assert_eq!(w[8 + 56], 3);
    assert_eq!(w[8 + 64], 4);
}

#[test]
fn empty_sections_have_offset_zero() {
    // No lights and no billboards: the metadata starts at word 0, and the
    // empty sections report offset 0.
    let (h, w) = scene_data_words(&vec![], &vec![], &vec![7, 7, 7, 7], &vec![]);
    assert_eq!(h.billboard_cmd_offset_words, 0);
    assert_eq!(h.avatar_meta_offset_words, 0);
    assert_eq!(h.avatar_pixel_offset_words, 0);
    assert_eq!(h.avatar_meta_count, 1);
    assert_eq!(h.data_word_count, 4);
    assert_eq!(w, vec![0, 0, 0, 0, 0, 1, 0, 4, 7, 7, 7, 7]);
    // Lights only: later empty sections still report 0, not the end of the lights.
    let (h, _) = scene_data_words(&vec![9; 20], &vec![], &vec![], &vec![]);
    assert_eq!((h.lights_count, h.billboard_cmd_offset_words, h.avatar_pixel_offset_words), (1, 0, 0));
}
