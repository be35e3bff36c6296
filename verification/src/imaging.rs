use vstd::prelude::*;

use vstd::arithmetic::div_mod::lemma_fundamental_div_mod_converse;

use crate::errors::RenderError;
use image::ImageEncoder;

verus! {

/// What Lanczos3 resampling produces for a `w` x `h` RGBA buffer resized
/// to `tw` x `th`: a pure function of the pixels and the four dimensions.
pub uninterp spec fn lanczos_of(data: Seq<u8>, w: int, h: int, tw: int, th: int) -> Seq<u8>;

/// Relies on `image::imageops::resize` with the Lanczos3 filter, shaping
/// the input with `RgbaImage::from_raw`: resampling is deterministic in the
/// pixels and dimensions, yields a `tw` x `th` RGBA buffer, and resampling
/// to the unchanged dimensions copies the pixels.
#[verifier::external_body]
pub(crate) fn resize_rgba(data: &Vec<u8>, w: u32, h: u32, tw: u32, th: u32) -> (r: Vec<u8>)
    requires
        data@.len() == w * h * 4,
        1 <= w <= 32767,
        1 <= h <= 32767,
        1 <= tw <= crate::raster::MAX_IMAGE_SIDE,
        1 <= th <= crate::raster::MAX_IMAGE_SIDE,
    ensures
        r@ == lanczos_of(data@, w as int, h as int, tw as int, th as int),
        r@.len() == tw * th * 4,
        (w == tw && h == th) ==> r@ == data@,
{
    let img = image::RgbaImage::from_raw(w, h, data.clone()).unwrap();
    let out = image::imageops::resize(&img, tw, th, image::imageops::FilterType::Lanczos3);
    out.into_raw()
}

/// What the bitmap decoder produces for a byte sequence: `Some` of the
/// width, height and straight-alpha RGBA pixels of the decoded image, or
/// `None` when the bytes are no supported bitmap. A pure function of the
/// bytes.
pub uninterp spec fn raster_rgba_of(bytes: Seq<u8>) -> Option<(int, int, Seq<u8>)>;

/// Relies on `image::load_from_memory` and `DynamicImage::to_rgba8`:
/// decoding is deterministic in the bytes — it succeeds exactly on bytes
/// that decode — and a successful decode yields an RGBA buffer of exactly
/// `w * h * 4` bytes.
#[verifier::external_body]
pub(crate) fn decode_raster_rgba(bytes: &[u8]) -> (r: Result<(u32, u32, Vec<u8>), RenderError>)
    ensures
        r is Ok <==> raster_rgba_of(bytes@) is Some,
        r matches Ok(t) ==> {
            &&& (t.0 as int, t.1 as int, t.2@) == raster_rgba_of(bytes@)->0
            &&& t.2@.len() == t.0 * t.1 * 4
        },
        r matches Err(e) ==> e == RenderError::ImageDecode,
{
    match image::load_from_memory(bytes) {
        Ok(img) => {
            let rgba = img.to_rgba8();
            Ok((rgba.width(), rgba.height(), rgba.into_raw()))
        },
        Err(_) => Err(RenderError::ImageDecode),
    }
}

/// What the PNG encoder produces for a pixel buffer with the given
/// dimensions and channel count: a pure function of its inputs.
pub uninterp spec fn png_of(w: int, h: int, channels: int, data: Seq<u8>) -> Seq<u8>;

/// The eight bytes that open every PNG stream.
pub open spec fn spec_png_signature() -> Seq<u8> {
    seq![137u8, 80u8, 78u8, 71u8, 13u8, 10u8, 26u8, 10u8]
}

/// Relies on `image::codecs::png::PngEncoder::write_image`: encoding is
/// deterministic in the pixel data, dimensions and color type, and the
/// result is a PNG stream, which begins with the eight PNG signature bytes
/// and holds chunks after them. For a single image of these bounded
/// dimensions, a supported color type, an exactly-sized buffer and an
/// in-memory writer, the encoder has no failure path, so it always
/// succeeds.
#[verifier::external_body]
fn encode_png_raw(data: &Vec<u8>, w: u32, h: u32, channels: u32) -> (r: Result<Vec<u8>, RenderError>)
    requires
        data@.len() == w * h * channels,
        1 <= w <= crate::raster::MAX_IMAGE_SIDE,
        1 <= h <= crate::raster::MAX_IMAGE_SIDE,
        channels == 1 || channels == 3 || channels == 4,
    ensures
        r is Ok,
        r matches Ok(png) ==> {
            &&& png@ == png_of(w as int, h as int, channels as int, data@)
            &&& png@.len() > 8
            &&& png@.subrange(0, 8) == spec_png_signature()
        },
{
    let mut buffer: Vec<u8> = Vec::new();
    let encoder = image::codecs::png::PngEncoder::new(&mut buffer);
    let color = match channels {
        1 => image::ExtendedColorType::L8,
        3 => image::ExtendedColorType::Rgb8,
        _ => image::ExtendedColorType::Rgba8,
    };
    match encoder.write_image(data, w, h, color) {
        Ok(()) => Ok(buffer),
        Err(_) => Err(RenderError::Encode),
    }
}

/// Serializes a pixel buffer as a PNG stream, checking first that the
/// buffer length is consistent with the declared dimensions and channel
/// count; an inconsistent or out-of-range buffer is a fatal serialization
/// failure, and every consistent one encodes.
pub fn encode_png(data: &Vec<u8>, w: u32, h: u32, channels: u32) -> (r: Result<Vec<u8>, RenderError>)
    ensures
        r is Ok <==> {
            &&& data@.len() == w * h * channels
            &&& (channels == 1 || channels == 3 || channels == 4)
            &&& 1 <= w <= crate::raster::MAX_IMAGE_SIDE
            &&& 1 <= h <= crate::raster::MAX_IMAGE_SIDE
        },
        r matches Ok(png) ==> {
            &&& png@ == png_of(w as int, h as int, channels as int, data@)
            &&& png@.len() > 8
            &&& png@.subrange(0, 8) == spec_png_signature()
        },
        r matches Err(e) ==> e == RenderError::Encode,
{
    if !(channels == 1 || channels == 3 || channels == 4) {
        return Err(RenderError::Encode);
    }
    if w < 1 || h < 1 || w > crate::raster::MAX_IMAGE_SIDE || h > crate::raster::MAX_IMAGE_SIDE {
        return Err(RenderError::Encode);
    }
    proof {
        assert((w as int) * (h as int) * (channels as int) < 0x100000000000000000) by (nonlinear_arith)
            requires
                w < 0x100000000,
                h < 0x100000000,
                channels <= 4,
        ;
    }
    let expected: u128 = (w as u128) * (h as u128) * (channels as u128);
    let dl = data.len();
    if dl as u128 != expected {
        return Err(RenderError::Encode);
    }
    encode_png_raw(data, w, h, channels)
}

/// How many channels per pixel a raw buffer of `total` bytes has for a
/// `w` x `h` image: the quotient, provided it divides evenly and is a
/// supported channel count (1, 3 or 4).
pub open spec fn spec_infer_channels(total: int, w: int, h: int) -> Option<int> {
    if w == 0 || h == 0 {
        None
    } else {
        let px = total / (w * h);
        if px == 0 || w * h * px != total {
            None
        } else if px == 1 || px == 3 || px == 4 {
            Some(px)
        } else {
            None
        }
    }
}

/// Determines the channel count of a raw pixel buffer from its length and
/// dimensions. Any mismatch means the generator and the renderer disagree
/// about the buffer's shape: a fatal inconsistency, not recoverable.
pub fn infer_channels(total: u64, w: u32, h: u32) -> (r: Result<u32, RenderError>)
    ensures
        r matches Ok(c) ==> spec_infer_channels(total as int, w as int, h as int) == Some(
            c as int,
        ),
        r matches Err(e) ==> {
            &&& e == RenderError::BufferShape
            &&& spec_infer_channels(total as int, w as int, h as int) is None
        },
{
    if w == 0 || h == 0 {
        return Err(RenderError::BufferShape);
    }
    proof {
        assert(1 <= (w as int) * (h as int) < 0x10000000000000000) by (nonlinear_arith)
            requires
                1 <= w < 0x100000000,
                1 <= h < 0x100000000,
        ;
    }
    let area: u64 = (w as u64) * (h as u64);
    let px: u64 = total / area;
    if px == 0 || px == 2 || px > 4 {
        return Err(RenderError::BufferShape);
    }
    proof {
        vstd::arithmetic::div_mod::lemma_fundamental_div_mod(total as int, area as int);
        assert((area as int) * (px as int) <= total as int);
    }
    let prod: u64 = area * px;
    if prod != total {
        return Err(RenderError::BufferShape);
    }
    proof {
        assert((w as int) * (h as int) * (px as int) == (area as int) * (px as int))
            by (nonlinear_arith)
            requires
                area as int == (w as int) * (h as int),
        ;
    }
    Ok(px as u32)
}

/// A buffer built as `w * h * 4` bytes always infers four channels.
pub proof fn lemma_infer_rgba(total: int, w: int, h: int)
    requires
        w >= 1,
        h >= 1,
        total == w * h * 4,
    ensures
        spec_infer_channels(total, w, h) == Some(4int),
{
    assert(w * h >= 1) by (nonlinear_arith)
        requires
            w >= 1,
            h >= 1,
    ;
    assert(w * h * 4 == (w * h) * 4 + 0) by (nonlinear_arith);
    lemma_fundamental_div_mod_converse(total, w * h, 4, 0);
}

} // verus!
