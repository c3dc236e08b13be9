use ntscrs_android::planes::{copy_plane, plane_spans, PlaneSpan};

#[test]
fn spans_of_full_planes() {
    assert_eq!(
        plane_spans(4, 2, true),
        [
            PlaneSpan { start: 0, end: 8, stride: 4 },
            PlaneSpan { start: 8, end: 16, stride: 4 },
            PlaneSpan { start: 16, end: 24, stride: 4 },
        ]
    );
}

#[test]
fn spans_of_quarter_planes() {
    assert_eq!(
        plane_spans(64, 48, false),
        [
            PlaneSpan { start: 0, end: 3072, stride: 64 },
            PlaneSpan { start: 3072, end: 3840, stride: 32 },
            PlaneSpan { start: 3840, end: 4608, stride: 32 },
        ]
    );
}

#[test]
fn spans_follow_one_another() {
    for is444 in [false, true] {
        let [y, u, v] = plane_spans(6, 4, is444);
        assert_eq!((y.start, y.end), (0, 24));
        assert_eq!((y.end, u.end), (u.start, v.start));
        assert_eq!(v.end, if is444 { 72 } else { 36 });
    }
}

#[test]
fn rows_are_padded() {
    let mut dst = [9u8; 10];
    copy_plane(&mut dst, 4, &[1, 2, 3, 4, 5, 6, 7, 8], 3);
    // Two whole rows; what is left of the third is not copied.
    assert_eq!(dst, [1, 2, 3, 9, 4, 5, 6, 9, 9, 9]);
}

#[test]
fn rows_are_cut() {
    let mut dst = [9u8; 5];
    copy_plane(&mut dst, 2, &[1, 2, 3, 4, 5, 6], 3);
    assert_eq!(dst, [1, 2, 4, 5, 9]);
}

#[test]
fn rows_of_one_length_are_copied_through() {
    let mut dst = [0u8; 6];
    copy_plane(&mut dst, 3, &[1, 2, 3, 4, 5, 6], 3);
    assert_eq!(dst, [1, 2, 3, 4, 5, 6]);
}

#[test]
fn plane_without_rows_is_left_alone() {
    let mut dst = [7u8; 2];
    copy_plane(&mut dst, 0, &[1, 2], 2);
    assert_eq!(dst, [7, 7]);
    copy_plane(&mut dst, 2, &[], 2);
    assert_eq!(dst, [7, 7]);
}
