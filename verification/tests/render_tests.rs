use qr_craft::errors::RenderError;
use qr_craft::models::qr_code::MarginEnabled;

const PNG_MAGIC: [u8; 8] = [0x89, b'P', b'N', b'G', 0x0D, 0x0A, 0x1A, 0x0A];

#[test]
fn qrcode_test_render_qr_png_bytes_basic() {
    let bytes = qr_craft::simple::render_qr_png_bytes("hello", 128, false).expect("render failed");
    assert!(bytes.len() >= PNG_MAGIC.len());
    assert_eq!(&bytes[0..8], &PNG_MAGIC);
}

#[test]
fn qrcode_test_render_qr_png_bytes_transparent() {
    let bytes =
        qr_craft::simple::render_qr_png_bytes("transparent", 128, true).expect("render failed");
    assert_eq!(&bytes[0..8], &PNG_MAGIC);
}

#[test]
fn qr_code_test_render_qr_png_bytes_basic() {
    let bytes = qr_craft::render::render_qr_png_bytes(
        "hello",
        128,
        false,
        MarginEnabled(true),
        None,
        None,
        200,
    )
    .expect("render failed");
    assert!(bytes.len() >= PNG_MAGIC.len());
    assert_eq!(&bytes[0..8], &PNG_MAGIC);
}

#[test]
fn qr_code_test_render_qr_png_bytes_transparent() {
    let bytes = qr_craft::render::render_qr_png_bytes(
        "transparent",
        128,
        true,
        MarginEnabled(true),
        None,
        None,
        200,
    )
    .expect("render failed");
    assert_eq!(&bytes[0..8], &PNG_MAGIC);
}

#[test]
fn test_empty_text_is_rejected_everywhere() {
    assert_eq!(
        qr_craft::simple::render_qr_png_bytes("", 128, false),
        Err(RenderError::EmptyText)
    );
    assert_eq!(
        qr_craft::simple::render_qr_png_bytes("", 16, true),
        Err(RenderError::EmptyText)
    );
    assert_eq!(
        qr_craft::render::render_qr_png_bytes("", 256, true, MarginEnabled(false), None, None, 150),
        Err(RenderError::EmptyText)
    );
    let svg = b"<svg xmlns=\"http://www.w3.org/2000/svg\"></svg>".to_vec();
    assert_eq!(
        qr_craft::render::render_qr_png_bytes(
            "",
            64,
            false,
            MarginEnabled(true),
            Some(&svg),
            None,
            0,
        ),
        Err(RenderError::EmptyText)
    );
}

#[test]
fn test_png_signature_for_utf8_texts() {
    for text in ["a", "https://example.com", "héllo wörld", "数字", "line\nbreak"] {
        let bytes = qr_craft::render::render_qr_png_bytes(
            text,
            64,
            false,
            MarginEnabled(true),
            None,
            None,
            200,
        )
        .expect("render failed");
        assert_eq!(&bytes[0..8], &PNG_MAGIC);
        assert!(bytes.len() > 8);
    }
}

#[test]
fn test_capacity_overflow_reported() {
    let long = "a".repeat(3000);
    assert_eq!(
        qr_craft::render::render_qr_png_bytes(
            &long,
            128,
            false,
            MarginEnabled(true),
            None,
            None,
            200,
        ),
        Err(RenderError::EncodingCapacity)
    );
}

#[test]
fn test_end_to_end_opaque_grid() {
    // text "hello", size 128, opaque, no logo: a valid PNG that decodes
    // back into a 128-or-larger fully opaque image.
    let bytes = qr_craft::render::render_qr_png_bytes(
        "hello",
        128,
        false,
        MarginEnabled(true),
        None,
        None,
        200,
    )
    .expect("render failed");
    assert_eq!(&bytes[0..8], &PNG_MAGIC);
    let img = image::load_from_memory(&bytes).expect("decode failed").to_rgba8();
    assert!(img.width() >= 128);
    assert!(img.height() >= 128);
    assert_eq!(img.width(), img.height());
    assert!(img.pixels().all(|p| p[3] == 255));
    assert!(img.pixels().any(|p| p[0] == 0));
    assert!(img.pixels().any(|p| p[0] == 255));
}

#[test]
fn test_transparent_same_dims_different_alpha() {
    let opaque = qr_craft::render::render_qr_png_bytes(
        "fixed text",
        128,
        false,
        MarginEnabled(true),
        None,
        None,
        200,
    )
    .expect("render failed");
    let transparent = qr_craft::render::render_qr_png_bytes(
        "fixed text",
        128,
        true,
        MarginEnabled(true),
        None,
        None,
        200,
    )
    .expect("render failed");
    let a = image::load_from_memory(&opaque).expect("decode failed").to_rgba8();
    let b = image::load_from_memory(&transparent).expect("decode failed").to_rgba8();
    assert_eq!(a.dimensions(), b.dimensions());
    assert!(a.pixels().all(|p| p[3] == 255));
    // The quiet zone makes at least one light pixel certain.
    assert!(b.pixels().any(|p| p[3] == 0));
    assert!(b.pixels().any(|p| p[3] == 255));
}

#[test]
fn test_data_url_wraps_png() {
    let url = qr_craft::render::render_qr_data_url(
        "hello",
        128,
        false,
        MarginEnabled(true),
        None,
        None,
        200,
    )
    .expect("render failed");
    let prefix = "data:image/png;base64,";
    assert!(url.starts_with(prefix));
    let png = qr_craft::render::render_qr_png_bytes(
        "hello",
        128,
        false,
        MarginEnabled(true),
        None,
        None,
        200,
    )
    .expect("render failed");
    let decoded = base64::Engine::decode(
        &base64::engine::general_purpose::STANDARD,
        &url[prefix.len()..],
    )
    .expect("base64 decode failed");
    assert_eq!(decoded, png);
}

#[test]
fn test_margin_adds_eight_modules() {
    // At a minimum size of zero each module is one pixel, so the image
    // side equals the module count: 21 for the smallest symbol, plus a
    // four-module quiet zone on each side when the margin is on.
    let plain = qr_craft::render::render_qr_png_bytes(
        "hello",
        0,
        false,
        MarginEnabled(false),
        None,
        None,
        200,
    )
    .expect("render failed");
    let framed = qr_craft::render::render_qr_png_bytes(
        "hello",
        0,
        false,
        MarginEnabled(true),
        None,
        None,
        200,
    )
    .expect("render failed");
    let a = image::load_from_memory(&plain).expect("decode failed").to_rgba8();
    let b = image::load_from_memory(&framed).expect("decode failed").to_rgba8();
    assert_eq!(a.dimensions(), (21, 21));
    assert_eq!(b.dimensions(), (29, 29));
}

#[test]
fn test_modules_are_pure_black_or_white() {
    let bytes = qr_craft::render::render_qr_png_bytes(
        "hello",
        0,
        false,
        MarginEnabled(true),
        None,
        None,
        200,
    )
    .expect("render failed");
    let img = image::load_from_memory(&bytes).expect("decode failed").to_rgba8();
    for p in img.pixels() {
        assert!(p.0 == [0, 0, 0, 255] || p.0 == [255, 255, 255, 255]);
    }
    // The top-left module of the symbol (inside the quiet zone) is the
    // dark corner of a finder pattern.
    assert_eq!(img.get_pixel(4, 4).0, [0, 0, 0, 255]);
    assert_eq!(img.get_pixel(0, 0).0, [255, 255, 255, 255]);
}
