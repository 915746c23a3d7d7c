use intro_rs::layout::{
    smooth_taps, sphere_slots, texel_index, CAMERA_CUT_INFO, CAMERA_POS_IDX, CAMERA_ROT_IDX,
    MARKER_X, MARKER_Z, SMOOTH_TEXELS, TERRAIN_LEN, UNIFORM_VEC4_COUNT,
};
use intro_rs::song::{Audio, MAX_SAMPLES, MAX_TICKS, PATTERN_SIZE};

#[test]
fn texel_indices() {
    assert_eq!(texel_index(0, 0), 0);
    assert_eq!(texel_index(1, 0), 4);
    assert_eq!(texel_index(0, 1), 2048);
    assert_eq!(texel_index(511, 511), 1048572);
    assert_eq!(texel_index(MARKER_X, MARKER_Z) + 1, 917001);
    assert_eq!(TERRAIN_LEN, 1050624);
}

#[test]
fn smoothing_taps() {
    assert_eq!(smooth_taps(0), (0, 4, 2048, 2052));
    assert_eq!(smooth_taps(1), (4, 8, 2052, 2056));
    let last = smooth_taps(SMOOTH_TEXELS - 1);
    assert_eq!(last, (1044480, 1044484, 1046528, 1046532));
    assert!(last.3 < TERRAIN_LEN);
}

#[test]
fn uniform_layout() {
    assert_eq!(sphere_slots(0), (0, 1));
    assert_eq!(sphere_slots(79), (158, 159));
    assert_eq!((CAMERA_POS_IDX, CAMERA_ROT_IDX, CAMERA_CUT_INFO), (160, 161, 162));
    assert_eq!(UNIFORM_VEC4_COUNT, 164);
}

#[test]
fn song_buffer_size() {
    assert_eq!(PATTERN_SIZE, 16);
    assert_eq!(MAX_TICKS, 224);
    assert_eq!(Audio::new().sample_count(), MAX_SAMPLES);
    assert_eq!(MAX_SAMPLES, 1185408);
}
