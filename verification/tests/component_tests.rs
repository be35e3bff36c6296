use qr_craft::errors::RenderError;

#[test]
fn test_unpremultiply_exact_values() {
    // (128, 64, 32, 128) divides each color by alpha 128/255.
    let premul = vec![128u8, 64, 32, 128, 0, 0, 0, 0, 10, 10, 10, 255];
    let out = qr_craft::unpremul::unpremultiply(&premul);
    assert_eq!(out, vec![255u8, 127, 63, 128, 0, 0, 0, 0, 10, 10, 10, 255]);
}

#[test]
fn test_unpremultiply_transparent_pixel_is_zero() {
    // Even a malformed premultiplied pixel with color under zero alpha
    // comes out as (0, 0, 0, 0).
    let premul = vec![200u8, 150, 99, 0];
    let out = qr_craft::unpremul::unpremultiply(&premul);
    assert_eq!(out, vec![0u8, 0, 0, 0]);
}

#[test]
fn test_over_alpha_endpoints() {
    assert_eq!(qr_craft::compose::over_alpha(0, 77), 77);
    assert_eq!(qr_craft::compose::over_alpha(255, 77), 255);
    assert_eq!(qr_craft::compose::over_alpha(0, 0), 0);
    // Half over half: 128 + 127 * 127 / 255 rounded.
    assert_eq!(qr_craft::compose::over_alpha(128, 127), 191);
}

#[test]
fn test_over_channel_endpoints() {
    // A fully transparent source leaves the destination channel unchanged.
    let oa = qr_craft::compose::over_alpha(0, 200);
    assert_eq!(qr_craft::compose::over_channel(99, 0, 123, 200, oa), 123);
    // A fully opaque source replaces it.
    let oa = qr_craft::compose::over_alpha(255, 200);
    assert_eq!(qr_craft::compose::over_channel(99, 255, 123, 200, oa), 99);
    // A mixed case, computed by hand.
    let oa = qr_craft::compose::over_alpha(128, 255);
    assert_eq!(oa, 255);
    assert_eq!(qr_craft::compose::over_channel(100, 128, 200, 255, oa), 150);
}

#[test]
fn test_overlay_clips_and_blends() {
    // A 2x2 opaque red square drawn over a 2x2 opaque white buffer at
    // (1, 1): only the bottom-right destination pixel changes.
    let dst = qr_craft::compose::solid_rgba(2, 2, 255, 255, 255, 255);
    let src = qr_craft::compose::solid_rgba(2, 2, 255, 0, 0, 255);
    let out = qr_craft::compose::overlay_image(&dst, 2, 2, &src, 2, 2, 1, 1);
    assert_eq!(out.len(), 16);
    assert_eq!(&out[0..12], &dst[0..12]);
    assert_eq!(&out[12..16], &[255, 0, 0, 255]);
}

#[test]
fn test_overlay_transparent_source_keeps_destination() {
    let dst = qr_craft::compose::solid_rgba(3, 1, 9, 8, 7, 200);
    let src = qr_craft::compose::solid_rgba(3, 1, 250, 250, 250, 0);
    let out = qr_craft::compose::overlay_image(&dst, 3, 1, &src, 3, 1, 0, 0);
    assert_eq!(out, dst);
}

#[test]
fn test_solid_rgba_pattern() {
    let buf = qr_craft::compose::solid_rgba(2, 1, 1, 2, 3, 4);
    assert_eq!(buf, vec![1u8, 2, 3, 4, 1, 2, 3, 4]);
}

#[test]
fn test_centered_offset_cases() {
    // x = (W - Lw) / 2 with integer division, saturating at zero.
    assert_eq!(qr_craft::compose::centered_offset(100, 20), 40);
    assert_eq!(qr_craft::compose::centered_offset(101, 20), 40);
    assert_eq!(qr_craft::compose::centered_offset(20, 20), 0);
    assert_eq!(qr_craft::compose::centered_offset(10, 20), 0);
    assert_eq!(qr_craft::compose::centered_offset(0, 1), 0);
    assert_eq!(qr_craft::compose::centered_offset(7, 2), 2);
}

#[test]
fn test_logo_geometry() {
    assert_eq!(qr_craft::compose::clamp_ratio(0), 200);
    assert_eq!(qr_craft::compose::clamp_ratio(1000), 200);
    assert_eq!(qr_craft::compose::clamp_ratio(150), 150);
    assert_eq!(qr_craft::compose::compute_logo_width(100, 200), 20);
    assert_eq!(qr_craft::compose::compute_logo_width(128, 150), 19);
    assert_eq!(qr_craft::compose::compute_logo_width(1, 1), 1);
    // Aspect is preserved with rounding: 20 wide at 10:5 gives height 10.
    assert_eq!(qr_craft::compose::compute_logo_height(20, 10, 5), Some(10));
    assert_eq!(qr_craft::compose::compute_logo_height(20, 3, 2), Some(13));
    assert_eq!(qr_craft::compose::compute_logo_height(20, 1, 20000), None);
    assert_eq!(qr_craft::compose::compute_plate_pad(100), 8);
    assert_eq!(qr_craft::compose::compute_plate_pad(10), 2);
    assert_eq!(qr_craft::compose::compute_plate_pad(0), 2);
}

#[test]
fn test_rasterize_modules_single_dark_module() {
    let modules = vec![true];
    let (out, data) = qr_craft::raster::rasterize_modules(&modules, 1, false, 2, false);
    assert_eq!(out, 2);
    assert_eq!(data, vec![0u8, 0, 0, 255].repeat(4));
}

#[test]
fn test_rasterize_modules_light_and_margin() {
    let modules = vec![false];
    let (out, data) = qr_craft::raster::rasterize_modules(&modules, 1, true, 0, true);
    // One module plus a quiet zone of four on each side, one pixel each.
    assert_eq!(out, 9);
    assert_eq!(data.len(), 9 * 9 * 4);
    // Everything is light and fully transparent.
    for px in data.chunks_exact(4) {
        assert_eq!(px, &[255, 255, 255, 0]);
    }
}

#[test]
fn test_infer_channels() {
    assert_eq!(qr_craft::imaging::infer_channels(100, 5, 5), Ok(4));
    assert_eq!(qr_craft::imaging::infer_channels(75, 5, 5), Ok(3));
    assert_eq!(qr_craft::imaging::infer_channels(25, 5, 5), Ok(1));
    assert_eq!(
        qr_craft::imaging::infer_channels(50, 5, 5),
        Err(RenderError::BufferShape)
    );
    assert_eq!(
        qr_craft::imaging::infer_channels(26, 5, 5),
        Err(RenderError::BufferShape)
    );
    assert_eq!(
        qr_craft::imaging::infer_channels(100, 0, 5),
        Err(RenderError::BufferShape)
    );
    assert_eq!(
        qr_craft::imaging::infer_channels(10, 5, 5),
        Err(RenderError::BufferShape)
    );
}

#[test]
fn test_encode_png_checks_shape() {
    let data = vec![0u8; 10];
    assert_eq!(
        qr_craft::imaging::encode_png(&data, 2, 2, 4),
        Err(RenderError::Encode)
    );
    assert_eq!(
        qr_craft::imaging::encode_png(&data, 0, 5, 2),
        Err(RenderError::Encode)
    );
    let ok = qr_craft::imaging::encode_png(&vec![7u8; 16], 2, 2, 4).expect("encode failed");
    assert_eq!(&ok[0..4], &[0x89, b'P', b'N', b'G']);
    let decoded = image::load_from_memory(&ok).expect("decode failed").to_rgba8();
    assert_eq!(decoded.dimensions(), (2, 2));
    assert!(decoded.pixels().all(|p| p.0 == [7, 7, 7, 7]));
}

#[test]
fn test_data_url_exact() {
    // base64 of [1, 2, 3] is AQID; of [77] is TQ==.
    assert_eq!(
        qr_craft::b64::png_data_url(&vec![1u8, 2, 3]),
        "data:image/png;base64,AQID"
    );
    assert_eq!(
        qr_craft::b64::png_data_url(&vec![77u8]),
        "data:image/png;base64,TQ=="
    );
    assert_eq!(
        qr_craft::b64::png_data_url(&vec![77u8, 78]),
        "data:image/png;base64,TU4="
    );
    assert_eq!(qr_craft::b64::png_data_url(&Vec::new()), "data:image/png;base64,");
}

#[test]
fn test_str_eq() {
    assert!(qr_craft::strutil::str_eq("abc", "abc"));
    assert!(!qr_craft::strutil::str_eq("abc", "abd"));
    assert!(!qr_craft::strutil::str_eq("abc", "ab"));
    assert!(qr_craft::strutil::str_eq("", ""));
    assert!(qr_craft::strutil::str_eq("héllo", "héllo"));
    assert!(!qr_craft::strutil::str_eq("héllo", "hello"));
}
