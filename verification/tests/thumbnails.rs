use rmap::cue_strip::{tile_border, tile_highlighted, tile_number_label, TileBorder};
use rmap::cue_strip::{
    bilinear_downsample_rgba8, name_hash, placeholder_thumbnail_for_name, thumb_cache_key,
    tile_state_for, TileState, THUMB_H, THUMB_W,
};

#[test]
fn placeholder_thumbnail_dimensions_and_alpha() {
    let t = placeholder_thumbnail_for_name("intro");
    assert_eq!(t.width, THUMB_W);
    assert_eq!(t.height, THUMB_H);
    assert_eq!(t.data.len() as u32, THUMB_W * THUMB_H * 4);
    for (i, &byte) in t.data.iter().enumerate() {
        if i % 4 == 3 {
            assert_eq!(byte, 255, "alpha at pixel {} should be 255", i / 4);
        }
    }
}

#[test]
fn different_names_produce_different_thumbnails() {
    let a = placeholder_thumbnail_for_name("intro");
    let b = placeholder_thumbnail_for_name("outro");
    assert_ne!(a.data, b.data);
}

#[test]
fn same_name_produces_stable_thumbnail() {
    let a = placeholder_thumbnail_for_name("event");
    let b = placeholder_thumbnail_for_name("event");
    assert_eq!(a.data, b.data);
}

#[test]
fn placeholder_exact_pixels() {
    let t = placeholder_thumbnail_for_name("intro");
    assert_eq!(&t.data[0..4], &[85, 32, 111, 255]);
    assert_eq!(&t.data[4000..4004], &[60, 32, 111, 255]);
    let n = t.data.len();
    assert_eq!(&t.data[n - 4..n], &[32, 111, 52, 255]);
}

#[test]
fn name_hash_exact_values() {
    assert_eq!(name_hash(""), 2166136261);
    assert_eq!(name_hash("intro"), 1125500713);
}

#[test]
fn thumb_cache_key_stable() {
    let data = vec![1u8, 2, 3, 4];
    assert_eq!(thumb_cache_key(&data), thumb_cache_key(&data));
}

#[test]
fn thumb_cache_key_differs_on_different_data() {
    let a = thumb_cache_key(&[1u8, 2, 3]);
    let b = thumb_cache_key(&[1u8, 2, 4]);
    assert_ne!(a, b);
}

#[test]
fn thumb_cache_key_exact_values() {
    assert_eq!(thumb_cache_key(&[]), 14695981039346656037);
    assert_eq!(thumb_cache_key(&[0u8]), 12638153115695167455);
    assert_eq!(thumb_cache_key(&[1u8, 2, 3]), 15035938162879559083);
    assert_eq!(thumb_cache_key(&[0x61]), 0xaf63dc4c8601ec8c);
}

/// Downsample produces a correctly-sized buffer and preserves the uniform
/// colour of a flat source.
#[test]
fn bilinear_downsample_preserves_flat_colour() {
    let src_w = 32u32;
    let src_h = 32u32;
    let src: Vec<u8> = (0..(src_w * src_h)).flat_map(|_| [128u8, 64, 192, 255].into_iter()).collect();
    let out = bilinear_downsample_rgba8(&src, src_w, src_h, 8, 4);
    assert_eq!(out.len(), 8 * 4 * 4);
    for px in out.chunks_exact(4) {
        assert_eq!(px[0], 128);
        assert_eq!(px[1], 64);
        assert_eq!(px[2], 192);
        assert_eq!(px[3], 255);
    }
}

/// Downsample to identical dimensions is a passthrough.
#[test]
fn bilinear_downsample_identity_size() {
    let src = vec![10u8, 20, 30, 40, 50, 60, 70, 80, 90, 100, 110, 120, 130, 140, 150, 160];
    let out = bilinear_downsample_rgba8(&src, 2, 2, 2, 2);
    assert_eq!(out.len(), 2 * 2 * 4);
    assert_eq!(out, src);
}

/// Extreme downsample (32→1 in each axis) gives roughly the source centre.
#[test]
fn bilinear_downsample_to_single_pixel() {
    let src_w = 32u32;
    let src_h = 32u32;
    let mut src = Vec::with_capacity((src_w * src_h * 4) as usize);
    for y in 0..src_h {
        for x in 0..src_w {
            src.push(((x * 8) % 256) as u8);
            src.push(((y * 8) % 256) as u8);
            src.push(0);
            src.push(255);
        }
    }
    let out = bilinear_downsample_rgba8(&src, src_w, src_h, 1, 1);
    assert_eq!(out.len(), 4);
    let dr = (out[0] as i32 - 128).abs();
    let dg = (out[1] as i32 - 128).abs();
    assert!(dr < 32, "expected R ≈ 128 at single-pixel down; got {}", out[0]);
    assert!(dg < 32, "expected G ≈ 128 at single-pixel down; got {}", out[1]);
    assert_eq!(out[2], 0);
    assert_eq!(out[3], 255);
    // The centre (15.5, 15.5) blends x = 15 and 16 equally: (120 + 128) / 2.
    assert_eq!(out, vec![124, 124, 0, 255]);
}

#[test]
fn bilinear_upsample_and_empty_target() {
    // 1×1 source stretched to 3×2: every pixel is the source pixel.
    let out = bilinear_downsample_rgba8(&[9, 8, 7, 6], 1, 1, 3, 2);
    assert_eq!(out, [9u8, 8, 7, 6].repeat(6));
    // Empty destination: nothing to sample.
    assert!(bilinear_downsample_rgba8(&[], 0, 0, 0, 5).is_empty());
    // 2×1 → 1×1 blends the two pixels half and half, rounding half up.
    let out = bilinear_downsample_rgba8(&[0, 1, 255, 100, 255, 2, 0, 101], 2, 1, 1, 1);
    assert_eq!(out, vec![128, 2, 128, 101]);
}

#[test]
fn tile_states() {
    assert_eq!(tile_state_for(2, Some(2), Some(2)), TileState::Live);
    assert_eq!(tile_state_for(2, Some(1), Some(2)), TileState::ArmedNext);
    assert_eq!(tile_state_for(2, Some(1), Some(3)), TileState::Idle);
    assert_eq!(tile_state_for(0, None, None), TileState::Idle);
}

#[test]
fn tile_highlight() {
    assert!(tile_highlighted(1, Some(1), None));
    assert!(tile_highlighted(1, None, Some(1)));
    assert!(!tile_highlighted(1, Some(0), Some(2)));
}

#[test]
fn tile_borders_follow_transport_first() {
    assert_eq!(tile_border(TileState::Live, false, true), TileBorder::Accent);
    assert_eq!(tile_border(TileState::ArmedNext, true, true), TileBorder::Armed);
    assert_eq!(tile_border(TileState::Idle, true, true), TileBorder::Accent);
    assert_eq!(tile_border(TileState::Idle, false, true), TileBorder::Hover);
    assert_eq!(tile_border(TileState::Idle, false, false), TileBorder::Plain);
}

#[test]
fn tile_numbers_count_from_one() {
    assert_eq!(tile_number_label(0), "1");
    assert_eq!(tile_number_label(8), "9");
    assert_eq!(tile_number_label(41), "42");
}

#[test]
fn names_with_the_same_hash_share_a_placeholder() {
    // Two names whose 32-bit hashes collide get the same colours.
    assert_eq!(name_hash("anrnw"), name_hash("a6pba"));
    assert_eq!(
        placeholder_thumbnail_for_name("anrnw").data,
        placeholder_thumbnail_for_name("a6pba").data
    );
    assert_ne!(
        placeholder_thumbnail_for_name("intro").data,
        placeholder_thumbnail_for_name("outro").data
    );
}

#[test]
fn downsampled_values_stay_within_the_source_range() {
    let (w, h) = (7u32, 5u32);
    let mut src = Vec::new();
    for i in 0..(w * h) {
        src.extend_from_slice(&[(40 + i * 3) as u8, (200 - i) as u8, 90, 255]);
    }
    let out = bilinear_downsample_rgba8(&src, w, h, 3, 2);
    for ch in 0..4 {
        let vals: Vec<u8> = src.iter().skip(ch).step_by(4).copied().collect();
        let (lo, hi) = (*vals.iter().min().unwrap(), *vals.iter().max().unwrap());
        for v in out.iter().skip(ch).step_by(4) {
            assert!(lo <= *v && *v <= hi);
        }
    }
}
