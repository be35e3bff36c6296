use vstd::prelude::*;

use crate::b64::{png_data_url, spec_data_url};
use crate::compose::{
    centered_offset, clamp_ratio, compute_logo_height, compute_logo_width, compute_plate_pad,
    overlay_image, solid_rgba,
};
use crate::errors::RenderError;
use crate::imaging::{decode_raster_rgba, encode_png, infer_channels, lemma_infer_rgba, png_of,
    resize_rgba, spec_png_signature};
use crate::models::logo::LogoId;
use crate::models::qr_code::MarginEnabled;
use crate::qr_matrix::{qr_encode_modules, qr_fits, qr_modules, qr_width};
use crate::raster::{rasterize_modules, spec_base_image, spec_out_size, MAX_TARGET_SIZE};
use crate::sniff::{is_svg_bytes, spec_is_svg};
use crate::svg::rasterize_svg_to_rgba;

verus! {

/// The PNG stream of a logo-less render: the module matrix of the text,
/// expanded to at least `size` pixels, serialized as four-channel PNG.
pub open spec fn spec_plain_render(
    text: Seq<char>,
    size: int,
    transparent: bool,
    margin: bool,
) -> Seq<u8> {
    let out = spec_out_size(qr_width(text), margin, size);
    png_of(out, out, 4, spec_base_image(qr_modules(text), qr_width(text), margin, size, transparent))
}

/// The logo variant the renderer works with: the given one, or no logo.
pub open spec fn spec_effective_logo_id(id: Option<LogoId>) -> LogoId {
    match id {
        Some(i) => i,
        None => LogoId::NoLogo,
    }
}

/// The PNG stream of a render with a logo: the expanded module matrix,
/// with the logo — rasterized from vector source or decoded and resampled
/// from bitmap bytes — composited over its center behind a near-white
/// backing plate, serialized as four-channel PNG.
pub open spec fn spec_logo_render(
    text: Seq<char>,
    size: int,
    transparent: bool,
    margin: bool,
    logo: Seq<u8>,
    id: LogoId,
    pm: int,
) -> Seq<u8> {
    let out = spec_out_size(qr_width(text), margin, size);
    let base = spec_base_image(qr_modules(text), qr_width(text), margin, size, transparent);
    let logo_w = crate::compose::spec_logo_width(out, crate::compose::spec_clamped_ratio(pm));
    let src = if spec_is_svg(logo) {
        (logo_w, logo_w, crate::svg::spec_rasterize_svg(logo, logo_w, id))
    } else {
        crate::imaging::raster_rgba_of(logo)->0
    };
    let logo_h = crate::compose::spec_logo_height(logo_w, src.0, src.1);
    let scaled = if spec_is_svg(logo) && src.0 == logo_w && src.1 == logo_h {
        src.2
    } else {
        crate::imaging::lanczos_of(src.2, src.0, src.1, logo_w, logo_h)
    };
    let x = crate::compose::spec_centered_offset(out, logo_w);
    let y = crate::compose::spec_centered_offset(out, logo_h);
    let ml = if logo_w >= logo_h {
        logo_w
    } else {
        logo_h
    };
    let pad = crate::compose::spec_plate_pad(ml);
    let bg_x = if x >= pad / 2 {
        x - pad / 2
    } else {
        0int
    };
    let bg_y = if y >= pad / 2 {
        y - pad / 2
    } else {
        0int
    };
    let plate = crate::compose::spec_solid(logo_w + pad, logo_h + pad, 255u8, 255u8, 255u8, 240u8);
    let with_plate = crate::compose::spec_overlay_image(
        base,
        out,
        plate,
        logo_w + pad,
        logo_h + pad,
        bg_x,
        bg_y,
    );
    let composed = crate::compose::spec_overlay_image(with_plate, out, scaled, logo_w, logo_h, x, y);
    png_of(out, out, 4, composed)
}

/// The logo's target width for a render: the produced image width scaled
/// by the clamped ratio.
pub open spec fn spec_logo_target_width(text: Seq<char>, size: int, margin: bool, pm: int) -> int {
    crate::compose::spec_logo_width(
        spec_out_size(qr_width(text), margin, size),
        crate::compose::spec_clamped_ratio(pm),
    )
}

/// When processing a given logo succeeds: a vector source must rasterize
/// (parse, and fit the backend) at the target width; a bitmap must decode
/// with both sides in the resampler's range; and either one's scaled
/// height must stay within the compositor's limit.
pub open spec fn spec_logo_ok(b: Seq<u8>, logo_w: int, id: LogoId) -> bool {
    if spec_is_svg(b) {
        &&& crate::svg::spec_svg_ok(b, logo_w, id)
        &&& 1 <= logo_w <= 32767
        &&& crate::compose::spec_logo_height(logo_w, logo_w, logo_w)
            <= crate::compose::MAX_LOGO_HEIGHT
    } else {
        &&& crate::imaging::raster_rgba_of(b) is Some
        &&& 1 <= (crate::imaging::raster_rgba_of(b)->0).0 <= 32767
        &&& 1 <= (crate::imaging::raster_rgba_of(b)->0).1 <= 32767
        &&& crate::compose::spec_logo_height(
            logo_w,
            (crate::imaging::raster_rgba_of(b)->0).0,
            (crate::imaging::raster_rgba_of(b)->0).1,
        ) <= crate::compose::MAX_LOGO_HEIGHT
    }
}

/// The error kind of a failed logo: for a vector source the rasterizer's
/// kind, or invalid dimensions when only the scaled height is out of
/// range; for a bitmap a decode failure or invalid dimensions.
pub open spec fn spec_logo_err(b: Seq<u8>, logo_w: int, id: LogoId) -> RenderError {
    if spec_is_svg(b) {
        if !crate::svg::spec_svg_ok(b, logo_w, id) {
            crate::svg::spec_svg_err(b, logo_w, id)
        } else {
            RenderError::InvalidLogoDimensions
        }
    } else {
        if crate::imaging::raster_rgba_of(b) is None {
            RenderError::ImageDecode
        } else {
            RenderError::InvalidLogoDimensions
        }
    }
}

/// Renders a text as a QR code PNG, optionally compositing a brand logo
/// over its center.
///
/// The text must be non-empty; it is encoded at the highest
/// error-correction tier, expanded to a square image at least `size`
/// pixels wide (dark modules opaque black, light modules white — fully
/// transparent instead when `transparent` is set), with a four-module
/// quiet zone when `margin` is enabled. When logo bytes are given they are
/// classified by sniffing: vector sources are color-substituted for
/// `logo_id` and rasterized; anything else is decoded as a bitmap. The
/// logo is scaled to `logo_ratio_permille` thousandths of the image width
/// (a ratio outside the open unit interval falls back to a fifth), given a
/// near-white backing plate, and composited at the center. The result is
/// serialized as PNG.
///
/// Every failure is one of the typed error kinds; no partial image is
/// returned.
#[verifier::rlimit(100)]
pub fn render_qr_png_bytes(
    text: &str,
    size: u32,
    transparent: bool,
    margin: MarginEnabled,
    logo_bytes: Option<&[u8]>,
    logo_id: Option<LogoId>,
    logo_ratio_permille: u32,
) -> (r: Result<Vec<u8>, RenderError>)
    requires
        size <= MAX_TARGET_SIZE,
    ensures
        (r is Err && r->Err_0 == RenderError::EmptyText) <==> text@.len() == 0,
        (r is Err && r->Err_0 == RenderError::EncodingCapacity) <==> (text@.len() > 0 && !qr_fits(
            text@,
        )),
        logo_bytes is None ==> (r is Ok <==> text@.len() > 0 && qr_fits(text@)),
        logo_bytes matches Some(b) ==> (r is Ok <==> text@.len() > 0 && qr_fits(text@)
            && spec_logo_ok(
            b@,
            spec_logo_target_width(text@, size as int, margin.0, logo_ratio_permille as int),
            spec_effective_logo_id(logo_id),
        )),
        logo_bytes matches Some(b) ==> ((text@.len() > 0 && qr_fits(text@) && !spec_logo_ok(
            b@,
            spec_logo_target_width(text@, size as int, margin.0, logo_ratio_permille as int),
            spec_effective_logo_id(logo_id),
        )) ==> (r is Err && r->Err_0 == spec_logo_err(
            b@,
            spec_logo_target_width(text@, size as int, margin.0, logo_ratio_permille as int),
            spec_effective_logo_id(logo_id),
        ))),
        r matches Ok(png) ==> png@.len() > 8 && png@.subrange(0, 8) == spec_png_signature(),
        logo_bytes is None ==> (r matches Ok(png) ==> png@ == spec_plain_render(
            text@,
            size as int,
            transparent,
            margin.0,
        )),
        logo_bytes matches Some(b) ==> (r matches Ok(png) ==> png@ == spec_logo_render(
            text@,
            size as int,
            transparent,
            margin.0,
            b@,
            spec_effective_logo_id(logo_id),
            logo_ratio_permille as int,
        )),
{
    if text.is_empty() {
        return Err(RenderError::EmptyText);
    }
    let (mw, modules) = match qr_encode_modules(text) {
        Ok(p) => p,
        Err(e) => return Err(e),
    };
    let (width, base) = rasterize_modules(&modules, mw, margin.0, size, transparent);
    let height = width;
    let mut image = base;
    if let Some(lb) = logo_bytes {
        let ratio = clamp_ratio(logo_ratio_permille);
        let logo_w = compute_logo_width(width, ratio);
        let vector = is_svg_bytes(lb);
        let (lw, lh, logo_data) = if vector {
            let id = match logo_id {
                Some(i) => i,
                None => LogoId::NoLogo,
            };
            match rasterize_svg_to_rgba(lb, logo_w, &id) {
                Ok(d) => (logo_w, logo_w, d),
                Err(e) => return Err(e),
            }
        } else {
            match decode_raster_rgba(lb) {
                Ok(t) => t,
                Err(e) => return Err(e),
            }
        };
        if lw == 0 || lh == 0 || lw > 32767 || lh > 32767 {
            return Err(RenderError::InvalidLogoDimensions);
        }
        let logo_h = match compute_logo_height(logo_w, lw, lh) {
            Some(h) => h,
            None => return Err(RenderError::InvalidLogoDimensions),
        };
        // A vector logo was rasterized at its exact target dimensions
        // already; anything else is resampled to them.
        let logo_rgba: Vec<u8> = if vector && lw == logo_w && lh == logo_h {
            logo_data
        } else {
            resize_rgba(&logo_data, lw, lh, logo_w, logo_h)
        };
        let x = centered_offset(width, logo_w);
        let y = centered_offset(height, logo_h);
        // The contrast backing plate, slightly larger than the logo.
        let ml = if logo_w >= logo_h {
            logo_w
        } else {
            logo_h
        };
        let pad = compute_plate_pad(ml);
        let bg_w = logo_w + pad;
        let bg_h = logo_h + pad;
        let half_pad = pad / 2;
        let bg_x = if x >= half_pad {
            x - half_pad
        } else {
            0
        };
        let bg_y = if y >= half_pad {
            y - half_pad
        } else {
            0
        };
        let plate = solid_rgba(bg_w, bg_h, 255, 255, 255, 240);
        let with_plate = overlay_image(&image, width, height, &plate, bg_w, bg_h, bg_x, bg_y);
        image = overlay_image(&with_plate, width, height, &logo_rgba, logo_w, logo_h, x, y);
    }
    proof {
        lemma_infer_rgba(image@.len() as int, width as int, height as int);
    }
    let channels = match infer_channels(image.len() as u64, width, height) {
        Ok(c) => c,
        Err(e) => return Err(e),
    };
    encode_png(&image, width, height, channels)
}

/// Renders a text as a QR code PNG and wraps the stream as a `data:` URL,
/// the wire form handed to display and persistence collaborators.
pub fn render_qr_data_url(
    text: &str,
    size: u32,
    transparent: bool,
    margin: MarginEnabled,
    logo_bytes: Option<&[u8]>,
    logo_id: Option<LogoId>,
    logo_ratio_permille: u32,
) -> (r: Result<String, RenderError>)
    requires
        size <= MAX_TARGET_SIZE,
    ensures
        (r is Err && r->Err_0 == RenderError::EmptyText) <==> text@.len() == 0,
        (r is Err && r->Err_0 == RenderError::EncodingCapacity) <==> (text@.len() > 0 && !qr_fits(
            text@,
        )),
        logo_bytes is None ==> (r is Ok <==> text@.len() > 0 && qr_fits(text@)),
        logo_bytes matches Some(b) ==> (r is Ok <==> text@.len() > 0 && qr_fits(text@)
            && spec_logo_ok(
            b@,
            spec_logo_target_width(text@, size as int, margin.0, logo_ratio_permille as int),
            spec_effective_logo_id(logo_id),
        )),
        logo_bytes matches Some(b) ==> ((text@.len() > 0 && qr_fits(text@) && !spec_logo_ok(
            b@,
            spec_logo_target_width(text@, size as int, margin.0, logo_ratio_permille as int),
            spec_effective_logo_id(logo_id),
        )) ==> (r is Err && r->Err_0 == spec_logo_err(
            b@,
            spec_logo_target_width(text@, size as int, margin.0, logo_ratio_permille as int),
            spec_effective_logo_id(logo_id),
        ))),
        logo_bytes is None ==> (r matches Ok(url) ==> url@ == spec_data_url(
            spec_plain_render(text@, size as int, transparent, margin.0),
        )),
        logo_bytes matches Some(b) ==> (r matches Ok(url) ==> url@ == spec_data_url(
            spec_logo_render(
                text@,
                size as int,
                transparent,
                margin.0,
                b@,
                spec_effective_logo_id(logo_id),
                logo_ratio_permille as int,
            ),
        )),
{
    let png = match render_qr_png_bytes(
        text,
        size,
        transparent,
        margin,
        logo_bytes,
        logo_id,
        logo_ratio_permille,
    ) {
        Ok(p) => p,
        Err(e) => return Err(e),
    };
    let url = png_data_url(&png);
    Ok(url)
}

} // verus!
