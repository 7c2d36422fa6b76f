use oneos::splash::{
    boot_history_path, composite, downsample, parse_signature, parse_sysfs_usize,
    parse_virtual_size, ppm_image, push_history, record_stamp_path, rgb565_code, Canvas, Frame,
    GeometryError, HISTORY_LIMIT,
};

#[test]
fn history_keeps_only_recent_samples() {
    let mut history = Vec::new();
    for value in 1..=20 {
        push_history(&mut history, value as f32);
    }
    assert_eq!(history.len(), HISTORY_LIMIT);
    assert_eq!(history.first(), Some(&13.0));
    assert_eq!(history.last(), Some(&20.0));
}

#[test]
fn history_trims_an_overlong_file() {
    let mut history: Vec<u32> = (1..=12).collect();
    push_history(&mut history, 13);
    assert_eq!(history, vec![6, 7, 8, 9, 10, 11, 12, 13]);
    let mut short = vec![1u32, 2];
    push_history(&mut short, 3);
    assert_eq!(short, vec![1, 2, 3]);
}

#[test]
fn splash_paths_prefer_configuration() {
    assert_eq!(boot_history_path(None), "/var/lib/oneos/boot-history");
    assert_eq!(record_stamp_path(None), "/run/oneos-boot-recorded");
    assert_eq!(boot_history_path(Some("/tmp/h".to_string())), "/tmp/h");
    assert_eq!(record_stamp_path(Some("/tmp/s".to_string())), "/tmp/s");
}

#[test]
fn canvas_starts_black() {
    let canvas = Canvas::new(4, 3);
    assert_eq!(canvas.width, 4);
    assert_eq!(canvas.height, 3);
    assert_eq!(canvas.data, vec![0u8; 12]);
}

#[test]
fn rgb565_spreads_grey_over_channels() {
    assert_eq!(rgb565_code(0), 0);
    assert_eq!(rgb565_code(255), 0xffff);
    assert_eq!(rgb565_code(128), (16 << 11) | (32 << 5) | 16);
}

#[test]
fn frame_geometry_defaults() {
    let frame = Frame::new(800, 450, None, None);
    assert_eq!(frame.bytes_per_pixel, 4);
    assert_eq!(frame.stride, 3200);
    assert_eq!(frame.buffer.len(), 3200 * 450);
    let frame = Frame::new(800, 450, Some(16), Some(1664));
    assert_eq!(frame.bytes_per_pixel, 2);
    assert_eq!(frame.stride, 1664);
}

#[test]
fn frame_encodes_32bpp() {
    let mut canvas = Canvas::new(2, 2);
    canvas.data = vec![10, 20, 30, 40];
    let mut frame = Frame::new(2, 2, Some(32), Some(12));
    frame.present(&canvas, true);
    assert_eq!(
        frame.buffer,
        vec![10, 10, 10, 0, 20, 20, 20, 0, 0, 0, 0, 0, 30, 30, 30, 0, 40, 40, 40, 0, 0, 0, 0, 0]
    );
}

#[test]
fn frame_encodes_16bpp_in_byte_order() {
    let mut canvas = Canvas::new(2, 1);
    canvas.data = vec![255, 128];
    let code = ((16u16 << 11) | (32 << 5) | 16).to_le_bytes();
    let mut frame = Frame::new(2, 1, Some(16), None);
    frame.present(&canvas, true);
    assert_eq!(frame.buffer, vec![0xff, 0xff, code[0], code[1]]);
    frame.present(&canvas, false);
    assert_eq!(frame.buffer, vec![0xff, 0xff, code[1], code[0]]);
}

#[test]
fn frame_ignores_other_depths() {
    let mut canvas = Canvas::new(2, 1);
    canvas.data = vec![255, 128];
    let mut frame = Frame::new(2, 1, Some(24), None);
    frame.present(&canvas, true);
    assert_eq!(frame.buffer, vec![0; 6]);
}

#[test]
fn virtual_size_is_read() {
    assert_eq!(parse_virtual_size("1280,800\n"), Ok((1280, 800)));
    assert_eq!(parse_virtual_size(" 1024 , 768 "), Ok((1024, 768)));
    assert_eq!(parse_virtual_size("1024x768"), Err(GeometryError::BadVirtualSize));
    assert_eq!(parse_virtual_size("abc,768"), Err(GeometryError::BadWidth));
    assert_eq!(parse_virtual_size("1024,"), Err(GeometryError::BadHeight));
    assert_eq!(parse_virtual_size("1024,768,1"), Err(GeometryError::BadHeight));
    assert_eq!(GeometryError::BadVirtualSize.message(), "bad virtual_size");
    assert_eq!(GeometryError::BadWidth.message(), "bad width");
    assert_eq!(GeometryError::BadHeight.message(), "bad height");
}

#[test]
fn sysfs_numbers_are_trimmed() {
    assert_eq!(parse_sysfs_usize("32\n"), Some(32));
    assert_eq!(parse_sysfs_usize("  +5 "), Some(5));
    assert_eq!(parse_sysfs_usize("-5"), None);
    assert_eq!(parse_sysfs_usize(""), None);
    assert_eq!(parse_sysfs_usize("99999999999999999999999"), None);
}

#[test]
fn ppm_frames_have_header_and_triples() {
    let mut canvas = Canvas::new(2, 1);
    canvas.data = vec![7, 200];
    let ppm = ppm_image(&canvas);
    let mut expected = b"P6\n2 1\n255\n".to_vec();
    expected.extend_from_slice(&[7, 7, 7, 200, 200, 200]);
    assert_eq!(ppm, expected);
}

#[test]
fn outline_data_is_grouped_into_glyphs() {
    let text = "# outline\n# em 1.25\n\nC 0 0 1 1\nG\nC 0 0 1 0 1 1\r\n  C 2 2\tbad 3 3\nG\n# comment\nX 1 2\nG\nC\n";
    let signature = parse_signature(text);
    assert_eq!(signature.em.as_deref(), Some("1.25"));
    assert_eq!(signature.glyphs.len(), 3);
    assert_eq!(
        signature.glyphs[0].contours,
        vec![
            vec!["0", "0", "1", "0", "1", "1"],
            vec!["2", "2", "bad", "3", "3"],
        ]
    );
    assert!(signature.glyphs[1].contours.is_empty());
    assert_eq!(signature.glyphs[2].contours, vec![Vec::<String>::new()]);
}

#[test]
fn last_em_line_wins() {
    let signature = parse_signature("# em 2\n# em   x  \nG\n");
    assert_eq!(signature.em.as_deref(), Some("x"));
    let signature = parse_signature("G\n");
    assert!(signature.em.is_none());
}

#[test]
fn text_appears_where_fill_and_ink_meet() {
    let mut canvas = Canvas::new(4, 1);
    canvas.data = vec![9, 9, 9, 9];
    composite(&mut canvas, &[255, 255, 0], &[255, 128, 255, 255]);
    assert_eq!(canvas.data, vec![245, 122, 0, 9]);
}

#[test]
fn supersampled_coverage_is_averaged() {
    // 2x2 samples per pixel, a 2 by 1 image: 4 by 2 samples.
    let counts = vec![1, 1, 0, 0, 1, 1, 0, 1];
    let fill = downsample(&counts, 2, 1, 2);
    assert_eq!(fill, vec![255, 63]);
    let counts = vec![3, 3, 3, 3];
    assert_eq!(downsample(&counts, 1, 1, 2), vec![255]);
}
