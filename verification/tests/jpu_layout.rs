use sg200x_bsp::jpu::{FrameLayout, FrameLayoutError, JpuPixelFormat, JpuScale};

#[test]
fn half_scale_yuv420_distinguishes_visible_and_storage_extents() {
    let layout = FrameLayout::new(1279, 1706, JpuPixelFormat::Yuv420, JpuScale::Half)
        .expect("valid scaled layout");

    assert_eq!((layout.source.width, layout.source.height), (1279, 1706));
    assert_eq!((layout.visible.width, layout.visible.height), (640, 853));
    assert_eq!(
        (layout.source_aligned.width, layout.source_aligned.height),
        (1280, 1712)
    );
    assert_eq!((layout.storage.width, layout.storage.height), (640, 856));
    assert_eq!((layout.y.stride, layout.y.len), (640, 547_840));
    let cb = layout.cb.expect("YUV420 has Cb");
    let cr = layout.cr.expect("YUV420 has Cr");
    assert_eq!((cb.offset, cb.stride, cb.len), (547_840, 320, 136_960));
    assert_eq!((cr.offset, cr.stride, cr.len), (684_800, 320, 136_960));
    assert_eq!(layout.total_len, 821_760);
}

#[test]
fn odd_chroma_plane_lengths_receive_eight_byte_padding() {
    let layout = FrameLayout::new(129, 129, JpuPixelFormat::Yuv420, JpuScale::Eighth)
        .expect("valid scaled layout");

    assert_eq!((layout.storage.width, layout.storage.height), (18, 18));
    assert_eq!((layout.y.stride, layout.y.len), (32, 576));
    let cb = layout.cb.expect("YUV420 has Cb");
    let cr = layout.cr.expect("YUV420 has Cr");
    assert_eq!((cb.offset, cb.stride, cb.len), (576, 9, 81));
    assert_eq!((cr.offset, cr.stride, cr.len), (664, 9, 81));
    assert_eq!(layout.total_len, 752);
}

#[test]
fn scaled_chroma_strides_follow_each_sampling_format() {
    let cases = [
        (JpuPixelFormat::Yuv420, Some((9, 81))),
        (JpuPixelFormat::Yuv422Horizontal, Some((16, 288))),
        (JpuPixelFormat::Yuv422Vertical, Some((32, 288))),
        (JpuPixelFormat::Yuv444, Some((32, 576))),
        (JpuPixelFormat::Grayscale, None),
    ];

    for (format, expected_chroma) in cases {
        let layout =
            FrameLayout::new(129, 129, format, JpuScale::Eighth).expect("valid scaled layout");
        assert_eq!((layout.storage.width, layout.storage.height), (18, 18));
        assert_eq!((layout.y.stride, layout.y.len), (32, 576));
        match expected_chroma {
            Some((stride, len)) => {
                let cb = layout.cb.expect("color format has Cb");
                let cr = layout.cr.expect("color format has Cr");
                assert_eq!((cb.stride, cb.len), (stride, len));
                assert_eq!((cr.stride, cr.len), (stride, len));
                assert_eq!(cb.offset % 8, 0);
                assert_eq!(cr.offset % 8, 0);
                assert!(cb.offset + cb.len <= cr.offset);
                assert!(cr.offset + cr.len <= layout.total_len);
            }
            None => {
                assert!(layout.cb.is_none());
                assert!(layout.cr.is_none());
                assert_eq!(layout.total_len, 576);
            }
        }
    }
}

#[test]
fn scale_requires_both_aligned_axes_to_be_at_least_128() {
    FrameLayout::new(113, 113, JpuPixelFormat::Yuv420, JpuScale::Half)
        .expect("113 aligns to 128 for YUV420");

    assert_eq!(
        FrameLayout::new(112, 113, JpuPixelFormat::Yuv420, JpuScale::Half),
        Err(FrameLayoutError::UnsupportedScaledDimensions)
    );
    assert_eq!(
        FrameLayout::new(129, 119, JpuPixelFormat::Yuv422Horizontal, JpuScale::Half),
        Err(FrameLayoutError::UnsupportedScaledDimensions)
    );
}

#[test]
fn visible_coded_and_storage_extents_are_not_conflated() {
    let layout = FrameLayout::new(129, 129, JpuPixelFormat::Yuv422Horizontal, JpuScale::Eighth)
        .expect("valid scaled layout");

    assert_eq!((layout.visible.width, layout.visible.height), (17, 17));
    assert_eq!((layout.coded.width, layout.coded.height), (18, 17));
    assert_eq!((layout.storage.width, layout.storage.height), (18, 18));
}

#[test]
fn rejects_empty_and_overflowing_dimensions() {
    assert_eq!(
        FrameLayout::new(0, 64, JpuPixelFormat::Grayscale, JpuScale::Full),
        Err(FrameLayoutError::ZeroDimension)
    );
    assert_eq!(
        FrameLayout::new(u32::MAX, u32::MAX, JpuPixelFormat::Yuv420, JpuScale::Full),
        Err(FrameLayoutError::DimensionOverflow)
    );
    assert_eq!(
        FrameLayout::new(u16::MAX as u32, 128, JpuPixelFormat::Yuv420, JpuScale::Full,),
        Err(FrameLayoutError::DimensionOverflow)
    );
}

#[test]
fn scale_factors_and_register_modes_are_explicit() {
    let cases = [
        (JpuScale::Full, 1, 0),
        (JpuScale::Half, 2, 1),
        (JpuScale::Quarter, 4, 2),
        (JpuScale::Eighth, 8, 3),
    ];

    for (scale, factor, mode) in cases {
        assert_eq!(scale.factor(), factor);
        assert_eq!(scale.register_mode(), mode);
    }
}

#[test]
fn full_scale_grayscale_is_one_aligned_plane() {
    let layout = FrameLayout::new(100, 50, JpuPixelFormat::Grayscale, JpuScale::Full).unwrap();
    assert_eq!((layout.storage.width, layout.storage.height), (104, 56));
    assert!(layout.cb.is_none() && layout.cr.is_none());
    assert_eq!(layout.y.offset, 0);
    assert_eq!(layout.total_len, layout.y.len);
}

#[test]
fn planes_never_overlap_and_fit_the_frame() {
    for format in [
        JpuPixelFormat::Yuv420,
        JpuPixelFormat::Yuv422Horizontal,
        JpuPixelFormat::Yuv422Vertical,
        JpuPixelFormat::Yuv444,
    ] {
        for scale in [JpuScale::Full, JpuScale::Half, JpuScale::Quarter, JpuScale::Eighth] {
            let layout = FrameLayout::new(641, 479, format, scale).unwrap();
            let cb = layout.cb.unwrap();
            let cr = layout.cr.unwrap();
            assert!(layout.y.offset + layout.y.len <= cb.offset);
            assert!(cb.offset + cb.len <= cr.offset);
            assert!(cr.offset + cr.len <= layout.total_len);
        }
    }
}
