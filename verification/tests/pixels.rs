use ntscrs_android::pixels::{rgba_to_i420, rgba_to_i444, transpose_rgba};

#[test]
fn transpose_units() {
    // 3x2 pattern, value = index.
    let src: Vec<u8> = (0..6).flat_map(|i| [i as u8, 0, 0, 255]).collect();
    let (r90, w, h) = transpose_rgba(&src, 3, 2, 90);
    assert_eq!((w, h), (2, 3));
    let idx: Vec<u8> = r90.chunks(4).map(|c| c[0]).collect();
    assert_eq!(idx, [3, 0, 4, 1, 5, 2]);
    let (r180, _, _) = transpose_rgba(&src, 3, 2, 180);
    let idx: Vec<u8> = r180.chunks(4).map(|c| c[0]).collect();
    assert_eq!(idx, [5, 4, 3, 2, 1, 0]);
    let (r270, w, h) = transpose_rgba(&src, 3, 2, 270);
    assert_eq!((w, h), (2, 3));
    let idx: Vec<u8> = r270.chunks(4).map(|c| c[0]).collect();
    assert_eq!(idx, [2, 5, 1, 4, 0, 3]);
}

#[test]
fn rgba_i420_white() {
    // Even dims like real usage (odd dims have no full UV plane).
    let rgba = vec![255u8, 255, 255, 255, 255, 255, 255, 255, 255, 255, 255, 255, 255, 255, 255, 255];
    let yuv = rgba_to_i420(&rgba, 2, 2);
    assert_eq!(yuv.len(), 2 * 2 * 3 / 2);
    assert!(yuv[0..4].iter().all(|&v| v == 235));
}

const RED: [u8; 4] = [255, 0, 0, 255];
const GREEN: [u8; 4] = [0, 255, 0, 255];
const BLUE: [u8; 4] = [0, 0, 255, 255];

fn picture(pixels: &[[u8; 4]]) -> Vec<u8> {
    pixels.iter().flatten().copied().collect()
}

#[test]
fn i444_keeps_every_pixel() {
    let rgba = picture(&[RED, BLUE, GREEN]);
    assert_eq!(
        rgba_to_i444(&rgba, 3, 1),
        [82, 41, 144, 90, 240, 54, 240, 110, 34]
    );
    assert_eq!(rgba_to_i444(&[], 0, 5), Vec::<u8>::new());
}

#[test]
fn i420_averages_blocks() {
    let rgba = picture(&[RED, [0; 4], [0; 4], [0; 4]]);
    // The mean of the block is (63, 0, 0).
    assert_eq!(rgba_to_i420(&rgba, 2, 2), [82, 16, 16, 16, 119, 156]);
}

#[test]
fn i420_of_two_blocks() {
    let rgba = picture(&[RED, RED, GREEN, GREEN, RED, RED, GREEN, GREEN]);
    assert_eq!(
        rgba_to_i420(&rgba, 4, 2),
        [82, 82, 144, 144, 82, 82, 144, 144, 90, 54, 240, 34]
    );
}

#[test]
fn i420_of_an_odd_width_overlaps_its_planes() {
    let rgba = picture(&[RED, RED, GREEN, RED, RED, GREEN]);
    assert_eq!(
        rgba_to_i420(&rgba, 3, 2),
        [82, 82, 144, 82, 82, 144, 90, 54, 34]
    );
}

#[test]
fn grey_has_neutral_chroma() {
    for v in 0..=255u8 {
        let yuv = rgba_to_i444(&[v, v, v, 255], 1, 1);
        assert_eq!(&yuv[1..], [128, 128]);
        assert!(16 <= yuv[0] && yuv[0] <= 235);
    }
    assert_eq!(rgba_to_i444(&[0, 0, 0, 255], 1, 1)[0], 16);
    assert_eq!(rgba_to_i444(&[255, 255, 255, 255], 1, 1)[0], 235);
}

#[test]
fn values_stay_in_studio_range() {
    for r in [0u8, 1, 77, 254, 255] {
        for g in [0u8, 1, 77, 254, 255] {
            for b in [0u8, 1, 77, 254, 255] {
                let yuv = rgba_to_i444(&[r, g, b, 0], 1, 1);
                assert!((16..=235).contains(&yuv[0]));
                assert!((16..=240).contains(&yuv[1]));
                assert!((16..=240).contains(&yuv[2]));
            }
        }
    }
}

#[test]
fn both_formats_share_luma_and_flat_chroma() {
    let rgba = picture(&[BLUE, BLUE, BLUE, BLUE]);
    let small = rgba_to_i420(&rgba, 2, 2);
    let full = rgba_to_i444(&rgba, 2, 2);
    assert_eq!(small[..4], full[..4]);
    assert_eq!(small[4..], [240, 110]);
    assert_eq!(full[4..], [240, 240, 240, 240, 110, 110, 110, 110]);
}

#[test]
fn turning_back_restores_the_picture() {
    let rgba: Vec<u8> = (0..24).collect();
    let (quarter, w, h) = transpose_rgba(&rgba, 3, 2, 90);
    let (back, w, h) = transpose_rgba(&quarter, w, h, 270);
    assert_eq!((back, w, h), (rgba.clone(), 3, 2));
    let (half, w, h) = transpose_rgba(&rgba, 3, 2, 180);
    assert_eq!((w, h), (3, 2));
    assert_eq!(transpose_rgba(&half, 3, 2, 180).0, rgba);
}

#[test]
fn two_quarter_turns_are_a_half_turn() {
    let rgba: Vec<u8> = (0..24).collect();
    let (quarter, w, h) = transpose_rgba(&rgba, 3, 2, 90);
    assert_eq!(
        transpose_rgba(&quarter, w, h, 90),
        transpose_rgba(&rgba, 3, 2, 180)
    );
}

#[test]
fn other_rotations_leave_the_picture() {
    let rgba: Vec<u8> = (0..24).collect();
    for rot in [0, 45, 360, -90] {
        assert_eq!(transpose_rgba(&rgba, 3, 2, rot), (rgba.clone(), 3, 2));
    }
}
