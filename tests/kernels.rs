use rawcv::{
    bayer_rggb_to_rgb, bayer_rggb_to_rggb, bayer_to_bayer_rggb, color_buffer_accepted, normalize,
    rggb_to_bayer_rggb, BayerPattern, DataType, FileSystem, LocalFileSystem, RawArray, Samples,
};

fn u16_buffer(data: Vec<u16>, h: u32, w: u32, c: u32, pattern: BayerPattern) -> RawArray {
    RawArray { samples: Samples::U16(data), height: h, width: w, channels: c, pattern }
}

fn u8_buffer(data: Vec<u8>, h: u32, w: u32, c: u32) -> RawArray {
    RawArray { samples: Samples::U8(data), height: h, width: w, channels: c, pattern: BayerPattern::RGGB }
}

fn u16s(b: &RawArray) -> Vec<u16> {
    match &b.samples {
        Samples::U16(v) => v.clone(),
        _ => panic!("not a 16-bit buffer"),
    }
}

fn u8s(b: &RawArray) -> Vec<u8> {
    match &b.samples {
        Samples::U8(v) => v.clone(),
        _ => panic!("not an 8-bit buffer"),
    }
}

fn counting_mosaic() -> RawArray {
    u16_buffer((1..=16).collect(), 4, 4, 1, BayerPattern::RGGB)
}

#[test]
fn pack_four_by_four_mosaic() {
    let input = counting_mosaic();
    let mut output = u16_buffer(vec![0; 16], 2, 2, 4, BayerPattern::RGGB);
    assert!(bayer_rggb_to_rggb(&input, &mut output));
    let packed = u16s(&output);
    assert_eq!(&packed[0..4], &[1, 2, 5, 6]);
    assert_eq!(packed, vec![1, 2, 5, 6, 3, 4, 7, 8, 9, 10, 13, 14, 11, 12, 15, 16]);
    assert_eq!((output.height, output.width, output.channels), (2, 2, 4));
}

#[test]
fn unpack_restores_mosaic() {
    let input = counting_mosaic();
    let mut packed = u16_buffer(vec![0; 16], 2, 2, 4, BayerPattern::RGGB);
    assert!(bayer_rggb_to_rggb(&input, &mut packed));
    let mut mosaic = u16_buffer(vec![0; 16], 4, 4, 1, BayerPattern::RGGB);
    assert!(rggb_to_bayer_rggb(&packed, &mut mosaic));
    assert_eq!(u16s(&mosaic), (1..=16).collect::<Vec<u16>>());
}

#[test]
fn pack_restores_packed_buffer() {
    let packed = u16_buffer(vec![9, 8, 7, 6, 5, 4, 3, 2], 1, 2, 4, BayerPattern::RGGB);
    let mut mosaic = u16_buffer(vec![0; 8], 2, 4, 1, BayerPattern::RGGB);
    assert!(rggb_to_bayer_rggb(&packed, &mut mosaic));
    assert_eq!(u16s(&mosaic), vec![9, 8, 5, 4, 7, 6, 3, 2]);
    let mut again = u16_buffer(vec![0; 8], 1, 2, 4, BayerPattern::RGGB);
    assert!(bayer_rggb_to_rggb(&mosaic, &mut again));
    assert_eq!(u16s(&again), vec![9, 8, 7, 6, 5, 4, 3, 2]);
}

#[test]
fn pack_rejects_bad_shapes_and_types() {
    let input = counting_mosaic();
    let mut wrong_dims = u16_buffer(vec![0; 24], 3, 2, 4, BayerPattern::RGGB);
    assert!(!bayer_rggb_to_rggb(&input, &mut wrong_dims));
    assert_eq!(u16s(&wrong_dims), vec![0; 24]);
    let mut wrong_channels = u16_buffer(vec![0; 12], 2, 2, 3, BayerPattern::RGGB);
    assert!(!bayer_rggb_to_rggb(&input, &mut wrong_channels));
    let narrow = u8_buffer((1..=16).collect(), 4, 4, 1);
    let mut output = u16_buffer(vec![0; 16], 2, 2, 4, BayerPattern::RGGB);
    assert!(!bayer_rggb_to_rggb(&narrow, &mut output));
    assert_eq!(u16s(&output), vec![0; 16]);
}

#[test]
fn unpack_rejects_bad_shapes() {
    let packed = u16_buffer(vec![1; 16], 2, 2, 4, BayerPattern::RGGB);
    let mut wrong_dims = u16_buffer(vec![0; 16], 2, 8, 1, BayerPattern::RGGB);
    assert!(!rggb_to_bayer_rggb(&packed, &mut wrong_dims));
    assert_eq!(u16s(&wrong_dims), vec![0; 16]);
    let mut wrong_type = u8_buffer(vec![0; 16], 4, 4, 1);
    assert!(!rggb_to_bayer_rggb(&packed, &mut wrong_type));
}

#[test]
fn canonicalize_each_pattern() {
    let cases = [
        (BayerPattern::RGGB, vec![1, 2, 3, 4, 5, 6]),
        (BayerPattern::BGGR, vec![6, 5, 4, 3, 2, 1]),
        (BayerPattern::GRBG, vec![3, 2, 1, 6, 5, 4]),
        (BayerPattern::GBRG, vec![4, 5, 6, 1, 2, 3]),
    ];
    for (pattern, expected) in cases {
        let mut b = u16_buffer(vec![1, 2, 3, 4, 5, 6], 2, 3, 1, pattern);
        assert!(bayer_to_bayer_rggb(&mut b));
        assert_eq!(u16s(&b), expected);
        assert_eq!(b.pattern, BayerPattern::RGGB);
    }
}

#[test]
fn canonicalize_twice_changes_nothing_more() {
    for pattern in [BayerPattern::RGGB, BayerPattern::BGGR, BayerPattern::GRBG, BayerPattern::GBRG] {
        let mut b = u16_buffer((1..=16).collect(), 4, 4, 1, pattern);
        assert!(bayer_to_bayer_rggb(&mut b));
        let once = u16s(&b);
        assert!(bayer_to_bayer_rggb(&mut b));
        assert_eq!(u16s(&b), once);
        assert_eq!(b.pattern, BayerPattern::RGGB);
    }
}

#[test]
fn canonicalize_rejects_other_buffers() {
    let mut narrow = u8_buffer(vec![1, 2, 3, 4], 2, 2, 1);
    narrow.pattern = BayerPattern::BGGR;
    assert!(!bayer_to_bayer_rggb(&mut narrow));
    assert_eq!(u8s(&narrow), vec![1, 2, 3, 4]);
    assert_eq!(narrow.pattern, BayerPattern::BGGR);
    let mut multi = u16_buffer(vec![1, 2, 3, 4, 5, 6], 1, 2, 3, BayerPattern::GBRG);
    assert!(!bayer_to_bayer_rggb(&mut multi));
    assert_eq!(multi.pattern, BayerPattern::GBRG);
}

#[test]
fn normalize_midpoint_rounds_half_up() {
    let input = u8_buffer(vec![5], 1, 1, 1);
    let mut output = u8_buffer(vec![0], 1, 1, 1);
    assert!(normalize(&input, &mut output, 0, 10));
    assert_eq!(u8s(&output), vec![128]);
}

#[test]
fn normalize_clamps_to_range() {
    let input = u8_buffer(vec![0, 5, 10, 20, 2], 1, 5, 1);
    let mut output = u8_buffer(vec![0; 5], 1, 5, 1);
    assert!(normalize(&input, &mut output, 0, 10));
    assert_eq!(u8s(&output), vec![0, 128, 255, 255, 51]);
    let mut wide = u16_buffer(vec![0; 5], 1, 5, 1, BayerPattern::RGGB);
    assert!(normalize(&input, &mut wide, 2, 10));
    assert_eq!(u16s(&wide), vec![0, 24576, 65535, 65535, 0]);
}

#[test]
fn normalize_between_depths() {
    let input = u8_buffer(vec![5], 1, 1, 1);
    let mut output = u16_buffer(vec![0], 1, 1, 1, BayerPattern::RGGB);
    assert!(normalize(&input, &mut output, 0, 10));
    assert_eq!(u16s(&output), vec![32768]);
    let deep = u16_buffer(vec![250, 1000, 65535], 1, 1, 3, BayerPattern::RGGB);
    let mut shallow = u8_buffer(vec![0; 3], 1, 1, 3);
    assert!(normalize(&deep, &mut shallow, 0, 1000));
    assert_eq!(u8s(&shallow), vec![64, 255, 255]);
}

#[test]
fn normalize_is_monotonic() {
    let input = u16_buffer((0..=300).collect(), 1, 301, 1, BayerPattern::RGGB);
    let mut output = u8_buffer(vec![0; 301], 1, 301, 1);
    assert!(normalize(&input, &mut output, 7, 290));
    let out = u8s(&output);
    for i in 1..out.len() {
        assert!(out[i - 1] <= out[i]);
    }
    assert_eq!(out[0], 0);
    assert_eq!(out[300], 255);
}

#[test]
fn normalize_rejects_bad_calls() {
    let input = u8_buffer(vec![1, 2], 1, 2, 1);
    let mut output = u8_buffer(vec![9, 9], 1, 2, 1);
    assert!(!normalize(&input, &mut output, 10, 10));
    assert!(!normalize(&input, &mut output, 10, 0));
    let mut other_shape = u8_buffer(vec![9, 9], 2, 1, 1);
    assert!(!normalize(&input, &mut other_shape, 0, 10));
    let mut floats = RawArray {
        samples: Samples::F32(vec![0, 0]),
        height: 1,
        width: 2,
        channels: 1,
        pattern: BayerPattern::RGGB,
    };
    assert!(!normalize(&input, &mut floats, 0, 10));
    assert_eq!(u8s(&output), vec![9, 9]);
}

#[test]
fn demosaic_interior_and_border() {
    let mosaic = u16_buffer(
        vec![10, 20, 30, 40, 50, 65, 70, 80, 90, 100, 115, 120, 130, 140, 150, 160],
        4,
        4,
        1,
        BayerPattern::RGGB,
    );
    let mut rgb = u16_buffer(vec![7; 48], 4, 4, 3, BayerPattern::RGGB);
    assert!(bayer_rggb_to_rgb(&mosaic, &mut rgb));
    let out = u16s(&rgb);
    assert_eq!(out.len(), 48);
    let at = |y: usize, x: usize| [out[(y * 4 + x) * 3], out[(y * 4 + x) * 3 + 1], out[(y * 4 + x) * 3 + 2]];
    assert_eq!(at(1, 1), [61, 60, 65]);
    assert_eq!(at(1, 2), [72, 70, 72]);
    assert_eq!(at(2, 1), [102, 100, 102]);
    assert_eq!(at(2, 2), [115, 110, 111]);
    for y in 0..4 {
        for x in 0..4 {
            if y == 0 || y == 3 || x == 0 || x == 3 {
                assert_eq!(at(y, x), [7, 7, 7]);
            }
        }
    }
    assert_eq!((rgb.height, rgb.width, rgb.channels), (4, 4, 3));
}

#[test]
fn demosaic_large_samples_do_not_overflow() {
    let mosaic = u16_buffer(vec![65535; 9], 3, 3, 1, BayerPattern::RGGB);
    let mut rgb = u16_buffer(vec![0; 27], 3, 3, 3, BayerPattern::RGGB);
    assert!(bayer_rggb_to_rgb(&mosaic, &mut rgb));
    let out = u16s(&rgb);
    assert_eq!(&out[12..15], &[65535, 65535, 65535]);
}

#[test]
fn demosaic_tiny_image_keeps_everything() {
    let mosaic = u16_buffer(vec![1, 2, 3, 4], 2, 2, 1, BayerPattern::RGGB);
    let mut rgb = u16_buffer(vec![5; 12], 2, 2, 3, BayerPattern::RGGB);
    assert!(bayer_rggb_to_rgb(&mosaic, &mut rgb));
    assert_eq!(u16s(&rgb), vec![5; 12]);
}

#[test]
fn demosaic_rejects_bad_buffers() {
    let mosaic = u16_buffer(vec![1; 16], 4, 4, 1, BayerPattern::RGGB);
    let mut wrong_channels = u16_buffer(vec![0; 64], 4, 4, 4, BayerPattern::RGGB);
    assert!(!bayer_rggb_to_rgb(&mosaic, &mut wrong_channels));
    let mut wrong_dims = u16_buffer(vec![0; 36], 3, 4, 3, BayerPattern::RGGB);
    assert!(!bayer_rggb_to_rgb(&mosaic, &mut wrong_dims));
    assert_eq!(u16s(&wrong_dims), vec![0; 36]);
    let narrow = u8_buffer(vec![1; 16], 4, 4, 1);
    let mut rgb = u16_buffer(vec![0; 48], 4, 4, 3, BayerPattern::RGGB);
    assert!(!bayer_rggb_to_rgb(&narrow, &mut rgb));
}

#[test]
fn color_kernels_need_three_float_channels() {
    assert!(color_buffer_accepted(DataType::F32, 3));
    assert!(!color_buffer_accepted(DataType::F32, 1));
    assert!(!color_buffer_accepted(DataType::U16, 3));
    assert!(!color_buffer_accepted(DataType::U8, 3));
}

#[test]
fn local_file_system_lists_nothing() {
    let fs = LocalFileSystem::default();
    match fs.list_dir("/tmp") {
        Ok(entries) => assert!(entries.is_empty()),
        Err(_) => panic!("listing failed"),
    }
}
