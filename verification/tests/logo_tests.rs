use qr_craft::errors::RenderError;
use qr_craft::models::logo::LogoId;
use qr_craft::models::qr_code::MarginEnabled;

const PNG_MAGIC: [u8; 8] = [0x89, b'P', b'N', b'G', 0x0D, 0x0A, 0x1A, 0x0A];

fn brand_svg() -> String {
    let path = "M12.001 2C6.47813 2 2.00098 6.47715 2.00098 12C2.00098 16.9913 5.65783 \
                21.1283 10.4385 21.8785V14.8906H7.89941V12H10.4385V9.79688C10.4385 7.29063 \
                11.9314 5.90625 14.2156 5.90625C15.3097 5.90625 16.4541 6.10156 16.4541 \
                6.10156V8.5625H15.1931C13.9509 8.5625 13.5635 9.33334 13.5635 10.1242V12H16.3369L\
                15.8936 14.8906H13.5635V21.8785C18.3441 21.1283 22.001 16.9913 22.001 12C22.001 \
                6.47715 17.5238 2 12.001 2Z";
    format!(
        "<svg xmlns=\"http://www.w3.org/2000/svg\" viewBox=\"0 0 24 24\" fill=\"currentColor\"><path d=\"{}\"></path></svg>",
        path
    )
}

#[test]
fn test_rasterize_svg_to_rgba() {
    let svg = brand_svg();
    let svg_bytes = svg.as_bytes();
    let result = qr_craft::svg::rasterize_svg_to_rgba(svg_bytes, 64, &LogoId::NoLogo);
    assert!(result.is_ok(), "Failed to rasterize SVG: {:?}", result.err());
    let img = result.unwrap();
    assert_eq!(img.len(), 64 * 64 * 4);
    let has_content = img.chunks_exact(4).any(|p| p[3] > 0);
    assert!(has_content, "SVG rasterization produced empty image");
}

#[test]
fn test_rasterization_is_deterministic() {
    let svg = brand_svg();
    let a = qr_craft::svg::rasterize_svg_to_rgba(svg.as_bytes(), 48, &LogoId::Facebook)
        .expect("rasterize failed");
    let b = qr_craft::svg::rasterize_svg_to_rgba(svg.as_bytes(), 48, &LogoId::Facebook)
        .expect("rasterize failed");
    assert_eq!(a, b);
}

#[test]
fn test_transparent_region_is_all_zero() {
    // A small centered dot: the canvas corners stay fully transparent and
    // must come out as (0, 0, 0, 0), never a divide-by-zero artifact.
    let svg = "<svg xmlns=\"http://www.w3.org/2000/svg\" width=\"24\" height=\"24\" \
               viewBox=\"0 0 24 24\"><circle cx=\"12\" cy=\"12\" r=\"3\" \
               fill=\"currentColor\"/></svg>";
    let img = qr_craft::svg::rasterize_svg_to_rgba(svg.as_bytes(), 64, &LogoId::WhatsApp)
        .expect("rasterize failed");
    assert_eq!(&img[0..4], &[0, 0, 0, 0]);
    let last = img.len() - 4;
    assert_eq!(&img[last..], &[0, 0, 0, 0]);
    // And some dot pixels are visible.
    assert!(img.chunks_exact(4).any(|p| p[3] > 0));
}

#[test]
fn test_color_variant_substitution_changes_pixels() {
    let svg = "<svg xmlns=\"http://www.w3.org/2000/svg\" width=\"8\" height=\"8\"><rect \
               width=\"8\" height=\"8\" fill=\"currentColor\"/></svg>";
    let mono = qr_craft::svg::rasterize_svg_to_rgba(svg.as_bytes(), 8, &LogoId::Facebook)
        .expect("rasterize failed");
    let color = qr_craft::svg::rasterize_svg_to_rgba(svg.as_bytes(), 8, &LogoId::FacebookColor)
        .expect("rasterize failed");
    assert_ne!(mono, color);
    // The monochrome fill is black; the brand fill is not.
    assert_eq!(&mono[0..4], &[0, 0, 0, 255]);
    assert_eq!(color[3], 255);
    assert!(color[0] != 0 || color[1] != 0 || color[2] != 0);
}

#[test]
fn test_logo_increases_encoded_length() {
    // text "https://example.com", size 256, transparent, WhatsAppColor at
    // a fifth of the width: a valid PNG strictly longer than without the
    // logo.
    let svg = brand_svg();
    let bytes = svg.into_bytes();
    let with_logo = qr_craft::render::render_qr_png_bytes(
        "https://example.com",
        256,
        true,
        MarginEnabled(true),
        Some(&bytes),
        Some(LogoId::WhatsAppColor),
        200,
    )
    .expect("render failed");
    let without_logo = qr_craft::render::render_qr_png_bytes(
        "https://example.com",
        256,
        true,
        MarginEnabled(true),
        None,
        None,
        200,
    )
    .expect("render failed");
    assert_eq!(&with_logo[0..8], &PNG_MAGIC);
    assert!(
        with_logo.len() > without_logo.len(),
        "QR with logo should be larger than without"
    );
}

#[test]
fn test_logo_increases_encoded_length_opaque() {
    let svg = brand_svg();
    let bytes = svg.into_bytes();
    let with_logo = qr_craft::render::render_qr_png_bytes(
        "test with SVG logo",
        256,
        false,
        MarginEnabled(true),
        Some(&bytes),
        None,
        150,
    )
    .expect("render failed");
    assert_eq!(&with_logo[0..8], &PNG_MAGIC);
    let without_logo = qr_craft::render::render_qr_png_bytes(
        "test with SVG logo",
        256,
        false,
        MarginEnabled(true),
        None,
        None,
        150,
    )
    .expect("render failed");
    assert!(with_logo.len() > without_logo.len());
}

#[test]
fn test_malformed_svg_fails_with_parse_error() {
    let bad = b"<svg xmlns=\"http://www.w3.org/2000/svg\"><rect".to_vec();
    let r = qr_craft::render::render_qr_png_bytes(
        "hello",
        128,
        false,
        MarginEnabled(true),
        Some(&bad),
        Some(LogoId::Facebook),
        200,
    );
    assert_eq!(r, Err(RenderError::SvgParse));
}

#[test]
fn test_invalid_utf8_logo_fails_distinctly() {
    let mut bad = b"<svg ".to_vec();
    bad.push(0xFF);
    bad.push(0xFE);
    let r = qr_craft::render::render_qr_png_bytes(
        "hello",
        128,
        false,
        MarginEnabled(true),
        Some(&bad),
        None,
        200,
    );
    assert_eq!(r, Err(RenderError::InvalidUtf8));
}

#[test]
fn test_garbage_raster_logo_fails_with_decode_error() {
    let garbage = vec![0xFFu8, 0xD8, 0x00, 0x11, 0x22, 0x33];
    let r = qr_craft::render::render_qr_png_bytes(
        "hello",
        128,
        false,
        MarginEnabled(true),
        Some(&garbage),
        None,
        200,
    );
    assert_eq!(r, Err(RenderError::ImageDecode));
}

#[test]
fn test_extreme_aspect_logo_rejected() {
    // A 1 x 20000 bitmap logo would scale to an absurd height; the
    // compositor rejects it as invalid dimensions.
    let tall = image::RgbaImage::from_pixel(1, 20000, image::Rgba([10, 20, 30, 255]));
    let mut png: Vec<u8> = Vec::new();
    image::ImageEncoder::write_image(
        image::codecs::png::PngEncoder::new(&mut png),
        tall.as_raw(),
        1,
        20000,
        image::ExtendedColorType::Rgba8,
    )
    .expect("encode failed");
    let r = qr_craft::render::render_qr_png_bytes(
        "hello",
        128,
        false,
        MarginEnabled(true),
        Some(&png),
        None,
        200,
    );
    assert_eq!(r, Err(RenderError::InvalidLogoDimensions));
}

#[test]
fn test_raster_logo_composites() {
    // A small opaque bitmap logo renders and grows the stream like a
    // vector one.
    let dot = image::RgbaImage::from_pixel(10, 10, image::Rgba([200, 30, 30, 255]));
    let mut png: Vec<u8> = Vec::new();
    image::ImageEncoder::write_image(
        image::codecs::png::PngEncoder::new(&mut png),
        dot.as_raw(),
        10,
        10,
        image::ExtendedColorType::Rgba8,
    )
    .expect("encode failed");
    let with_logo = qr_craft::render::render_qr_png_bytes(
        "hello",
        128,
        false,
        MarginEnabled(true),
        Some(&png),
        None,
        250,
    )
    .expect("render failed");
    assert_eq!(&with_logo[0..8], &PNG_MAGIC);
    let img = image::load_from_memory(&with_logo).expect("decode failed").to_rgba8();
    // The center pixel is covered by the logo, not a bare module.
    let cx = img.width() / 2;
    let cy = img.height() / 2;
    let p = img.get_pixel(cx, cy);
    assert!(p[0] > 150 && p[1] < 120 && p[2] < 120);
}

#[test]
fn test_ratio_clamped_to_default() {
    // A ratio outside the open unit interval falls back to the default
    // fifth: the render succeeds and returns exactly the bytes of the
    // default-ratio render.
    let svg = brand_svg();
    let bytes = svg.into_bytes();
    let reference = qr_craft::render::render_qr_png_bytes(
        "hello",
        128,
        false,
        MarginEnabled(true),
        Some(&bytes),
        Some(LogoId::InstagramColor),
        200,
    )
    .expect("render failed");
    for pm in [0u32, 1000, 5000] {
        let r = qr_craft::render::render_qr_png_bytes(
            "hello",
            128,
            false,
            MarginEnabled(true),
            Some(&bytes),
            Some(LogoId::InstagramColor),
            pm,
        );
        assert_eq!(r.as_deref(), Ok(reference.as_slice()));
    }
}

#[test]
fn test_sniffer_classification() {
    assert!(qr_craft::sniff::is_svg_bytes(b"<svg xmlns=\"x\"></svg>"));
    assert!(qr_craft::sniff::is_svg_bytes(b"  \n\t<?xml version=\"1.0\"?><svg/>"));
    assert!(qr_craft::sniff::is_svg_bytes(b"<!-- note --><svg/>"));
    assert!(!qr_craft::sniff::is_svg_bytes(b""));
    assert!(!qr_craft::sniff::is_svg_bytes(b"   "));
    assert!(!qr_craft::sniff::is_svg_bytes(&PNG_MAGIC));
    assert!(!qr_craft::sniff::is_svg_bytes(b"plain text"));
    assert!(!qr_craft::sniff::is_svg_bytes(b"<html><body></body></html>"));
}

#[test]
fn test_token_substitution() {
    let src = b"fill=\"currentColor\" stroke=\"currentColor\"";
    let out = qr_craft::substitute::replace_bytes(src, b"currentColor", b"#25D366");
    assert_eq!(out, b"fill=\"#25D366\" stroke=\"#25D366\"".to_vec());
    let untouched = qr_craft::substitute::replace_bytes(b"nothing here", b"currentColor", b"#000000");
    assert_eq!(untouched, b"nothing here".to_vec());
    let empty_pattern = qr_craft::substitute::replace_bytes(b"abc", b"", b"xyz");
    assert_eq!(empty_pattern, b"abc".to_vec());
}
