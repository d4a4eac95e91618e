use video_sampler::geometry::derived_width;

#[test]
fn width_preserves_aspect_ratio_hd() {
    // 1920x1080 scaled to height 180 keeps the 16:9 ratio.
    assert_eq!(derived_width(1920, 1080, 180), 320);
}

#[test]
fn width_preserves_aspect_ratio_720p() {
    assert_eq!(derived_width(1280, 720, 360), 640);
}

#[test]
fn width_rounds_down() {
    // 1279 * 360 / 720 = 639.5, truncated.
    assert_eq!(derived_width(1279, 720, 360), 639);
}

#[test]
fn width_identity_when_height_unchanged() {
    assert_eq!(derived_width(640, 480, 480), 640);
}

#[test]
fn width_of_extreme_geometry_does_not_overflow() {
    let expected = (u32::MAX as u64) * (u32::MAX as u64);
    assert_eq!(derived_width(u32::MAX, 1, u32::MAX), expected);
}

#[test]
fn width_can_round_to_zero() {
    // A one-pixel-wide source scaled far down loses its width entirely.
    assert_eq!(derived_width(1, 1080, 180), 0);
}
