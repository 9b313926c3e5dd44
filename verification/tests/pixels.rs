use kiboard::pixels::straight_rgba;

#[test]
fn premultiplied_bgra_becomes_straight_rgba() {
    // A half-transparent pixel: blue 10, green 64, red 128, alpha 128.
    let out = straight_rgba(&[10, 64, 128, 128, 0, 0, 0, 0]);
    assert_eq!(out, vec![255, 127, 19, 128, 0, 0, 0, 0]);
}

#[test]
fn a_bitmap_without_alpha_is_opaque() {
    let out = straight_rgba(&[1, 2, 3, 0, 4, 5, 6, 0]);
    assert_eq!(out, vec![3, 2, 1, 255, 6, 5, 4, 255]);
}

#[test]
fn channels_are_capped_and_stray_bytes_kept() {
    let out = straight_rgba(&[200, 0, 0, 100, 9, 8]);
    assert_eq!(out, vec![0, 0, 255, 100, 9, 8]);
    assert!(straight_rgba(&[]).is_empty());
}
