use screencap::convert::{
    bgra_to_rgba_compact, bgra_to_rgba_compact_opaque, compact_and_reorder, extract_frame,
};

#[test]
fn converts_single_pixel_with_alpha() {
    let src = vec![10u8, 20, 30, 40]; // B,G,R,A
    let out = compact_and_reorder(&src, 4, 1, 1, false).unwrap();
    assert_eq!(out, vec![30, 20, 10, 40]); // R,G,B,A
}

#[test]
fn converts_single_pixel_opaque() {
    let src = vec![10u8, 20, 30, 40];
    let out = compact_and_reorder(&src, 4, 1, 1, true).unwrap();
    assert_eq!(out, vec![30, 20, 10, 255]);
}

#[test]
fn converts_two_by_three_grid() {
    // 2 pixels wide, 3 rows; pixel (y, x) carries B,G,R,A = (b, b+1, b+2, b+3)
    // with b = 40 * y + 16 * x.
    let mut src: Vec<u8> = Vec::new();
    for y in 0..3u8 {
        for x in 0..2u8 {
            let b = 40 * y + 16 * x;
            src.extend_from_slice(&[b, b + 1, b + 2, b + 3]);
        }
    }
    let out = compact_and_reorder(&src, 8, 2, 3, false).unwrap();
    assert_eq!(out.len(), 2 * 3 * 4);
    for y in 0..3usize {
        for x in 0..2usize {
            let b = (40 * y + 16 * x) as u8;
            let i = (y * 2 + x) * 4;
            assert_eq!(&out[i..i + 4], &[b + 2, b + 1, b, b + 3]);
        }
    }
}

#[test]
fn padded_rows_are_skipped() {
    // 1 pixel wide, 2 rows, stride 7: three junk bytes after each pixel.
    let src = vec![
        1u8, 2, 3, 4, 99, 99, 99, // row 0: pixel then padding
        5, 6, 7, 8, // row 1: pixel only (last row needs no padding)
    ];
    let out = compact_and_reorder(&src, 7, 1, 2, false).unwrap();
    assert_eq!(out, vec![3, 2, 1, 4, 7, 6, 5, 8]);
}

#[test]
fn opaque_output_has_alpha_255_everywhere() {
    let src: Vec<u8> = (0u8..48).collect(); // 3 wide, 4 high, packed
    let out = compact_and_reorder(&src, 12, 3, 4, true).unwrap();
    assert_eq!(out.len(), 48);
    for p in 0..12usize {
        assert_eq!(out[p * 4 + 3], 255);
    }
}

#[test]
fn output_length_is_tightly_packed_for_all_layouts() {
    let cases: &[(usize, u32, u32)] = &[(4, 1, 1), (8, 2, 3), (13, 3, 2), (40, 5, 7)];
    for &(stride, w, h) in cases {
        let src = vec![7u8; (h as usize - 1) * stride + (w as usize) * 4];
        let out = compact_and_reorder(&src, stride, w, h, false).unwrap();
        assert_eq!(out.len(), (w * h * 4) as usize);
    }
}

#[test]
fn round_trip_restores_packed_buffer() {
    // Converting twice undoes the red/blue swap; alpha rides along.
    let cases: &[(u32, u32)] = &[(1, 1), (2, 3), (3, 2), (5, 1)];
    for &(w, h) in cases {
        let n = (w * h * 4) as usize;
        let src: Vec<u8> = (0..n).map(|i| (i * 37 % 251) as u8).collect();
        let stride = (w * 4) as usize;
        let mid = compact_and_reorder(&src, stride, w, h, false).unwrap();
        let out = compact_and_reorder(&mid, stride, w, h, false).unwrap();
        assert_eq!(out, src);
    }
}

#[test]
fn worker_variants_match_checked_conversion() {
    let src: Vec<u8> = (0u8..28).collect(); // 1 wide, 2 rows, stride 14
    let plain = bgra_to_rgba_compact(&src, 14, 1, 2);
    assert_eq!(plain, compact_and_reorder(&src, 14, 1, 2, false).unwrap());
    let opaque = bgra_to_rgba_compact_opaque(&src, 14, 1, 2);
    assert_eq!(opaque, compact_and_reorder(&src, 14, 1, 2, true).unwrap());
}

#[test]
fn narrow_stride_is_refused() {
    let src = vec![0u8; 64];
    assert!(compact_and_reorder(&src, 7, 2, 2, false).is_none());
}

#[test]
fn short_buffer_is_refused() {
    // 2x2 at stride 8 needs 16 bytes; 15 are offered.
    let src = vec![0u8; 15];
    assert!(compact_and_reorder(&src, 8, 2, 2, false).is_none());
}

#[test]
fn empty_image_converts_to_empty_buffer() {
    let src: Vec<u8> = Vec::new();
    assert_eq!(compact_and_reorder(&src, 0, 0, 0, false).unwrap(), Vec::<u8>::new());
    assert_eq!(compact_and_reorder(&src, 4, 1, 0, true).unwrap(), Vec::<u8>::new());
}

#[test]
fn extract_frame_builds_tight_frame() {
    let src = vec![
        1u8, 2, 3, 4, 99, 99, // row 0 at stride 6
        5, 6, 7, 8,
    ];
    let f = extract_frame(&src, 1, 2, 6).unwrap();
    assert_eq!(f.width, 1);
    assert_eq!(f.height, 2);
    assert_eq!(f.stride, 4);
    assert_eq!(f.data, vec![3, 2, 1, 4, 7, 6, 5, 8]);
}

#[test]
fn extract_frame_refuses_bad_geometry() {
    let src = vec![0u8; 8];
    assert!(extract_frame(&src, 2, 2, 8).is_none()); // buffer too short
    assert!(extract_frame(&src, 2, 1, 4).is_none()); // stride below row length
}
