use vstd::prelude::*;

use crate::models::logo::LogoId;
use crate::raster::{spec_base_image, spec_module_px, spec_module_at, spec_total_modules};
use crate::svg::spec_rasterize_svg;

verus! {

/// For one module matrix, minimum size and margin flag, the transparent
/// and the opaque expansion have identical length (and so identical pixel
/// dimensions) and identical color channels; they differ exactly in the
/// alpha of light pixels, which is 0 when transparent and 255 when not,
/// while dark pixels are fully opaque in both.
pub proof fn lemma_transparency_contrast(modules: Seq<bool>, mw: int, margin: bool, size: int)
    ensures
        spec_base_image(modules, mw, margin, size, true).len() == spec_base_image(
            modules,
            mw,
            margin,
            size,
            false,
        ).len(),
        forall|idx: int|
            0 <= idx < spec_base_image(modules, mw, margin, size, true).len() && idx % 4 != 3
                ==> spec_base_image(modules, mw, margin, size, true)[idx] == spec_base_image(
                modules,
                mw,
                margin,
                size,
                false,
            )[idx],
        forall|idx: int|
            0 <= idx < spec_base_image(modules, mw, margin, size, true).len() && idx % 4 == 3 ==> {
                &&& spec_base_image(modules, mw, margin, size, false)[idx] == 255
                &&& (spec_base_image(modules, mw, margin, size, true)[idx] == 0 <==> !module_of_index(
                    modules,
                    mw,
                    margin,
                    size,
                    idx,
                ))
                &&& (spec_base_image(modules, mw, margin, size, true)[idx] == 255
                    <==> module_of_index(modules, mw, margin, size, idx))
            },
{
}

/// Whether the pixel holding byte `idx` of the expanded image lies on a
/// dark module.
pub open spec fn module_of_index(
    modules: Seq<bool>,
    mw: int,
    margin: bool,
    size: int,
    idx: int,
) -> bool {
    let total = spec_total_modules(mw, margin);
    let mpx = spec_module_px(size, total);
    let out = total * mpx;
    let pxi = idx / 4;
    let x = pxi % out;
    let y = pxi / out;
    spec_module_at(modules, mw, margin, x / mpx, y / mpx)
}

/// Rasterizing the same vector source at the same target size and color
/// variant twice yields pixel-identical RGBA buffers: the whole pipeline —
/// color substitution, parsing, supersampled rendering,
/// un-premultiplication, resampling — is a function of those three inputs
/// alone.
pub proof fn lemma_rasterize_svg_deterministic(
    svg: Seq<u8>,
    target: int,
    id: LogoId,
    out1: Seq<u8>,
    out2: Seq<u8>,
)
    requires
        out1 == spec_rasterize_svg(svg, target, id),
        out2 == spec_rasterize_svg(svg, target, id),
    ensures
        out1 == out2,
{
}

} // verus!
