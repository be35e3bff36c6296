use vstd::prelude::*;

use crate::errors::RenderError;
use crate::imaging::spec_png_signature;
use crate::models::qr_code::MarginEnabled;
use crate::raster::MAX_TARGET_SIZE;
use crate::render::spec_plain_render;

verus! {

/// Renders a text as a QR code PNG with the minimal parameter set: no
/// quiet zone and no logo.
pub fn render_qr_png_bytes(text: &str, size: u32, transparent: bool) -> (r: Result<
    Vec<u8>,
    RenderError,
>)
    requires
        size <= MAX_TARGET_SIZE,
    ensures
        r is Ok <==> text@.len() > 0 && crate::qr_matrix::qr_fits(text@),
        (r is Err && r->Err_0 == RenderError::EmptyText) <==> text@.len() == 0,
        (r is Err && r->Err_0 == RenderError::EncodingCapacity) <==> (text@.len() > 0
            && !crate::qr_matrix::qr_fits(text@)),
        r matches Ok(png) ==> {
            &&& png@ == spec_plain_render(text@, size as int, transparent, false)
            &&& png@.len() > 8
            &&& png@.subrange(0, 8) == spec_png_signature()
        },
{
    crate::render::render_qr_png_bytes(
        text,
        size,
        transparent,
        MarginEnabled(false),
        Option::None,
        Option::None,
        200,
    )
}

} // verus!
