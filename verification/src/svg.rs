use vstd::prelude::*;

use crate::errors::RenderError;
use crate::imaging::{lanczos_of, resize_rgba};
use crate::models::logo::LogoId;
use crate::substitute::{replace_bytes, spec_replace};
use crate::unpremul::{spec_unpremultiply, unpremultiply};

verus! {

/// The largest canvas side the rasterizer will ask the backend for.
pub const MAX_CANVAS_SIDE: u32 = 32767;

/// The placeholder color token substituted in vector logo sources:
/// the bytes of `currentColor`.
pub open spec fn spec_color_token() -> Seq<u8> {
    seq![99u8, 117u8, 114u8, 114u8, 101u8, 110u8, 116u8, 67u8, 111u8, 108u8, 111u8, 114u8]
}

/// The brand fill color substituted for the placeholder, as the bytes of a
/// hex color: black for the monochrome variants and for no logo, the brand
/// hue for the color variants.
pub open spec fn spec_hex_color(id: LogoId) -> Seq<u8> {
    match id {
        LogoId::FacebookColor => seq![35u8, 49u8, 56u8, 55u8, 55u8, 70u8, 50u8],  // #1877F2
        LogoId::WhatsAppColor => seq![35u8, 50u8, 53u8, 68u8, 51u8, 54u8, 54u8],  // #25D366
        LogoId::InstagramColor => seq![35u8, 69u8, 52u8, 52u8, 48u8, 53u8, 70u8],  // #E4405F
        _ => seq![35u8, 48u8, 48u8, 48u8, 48u8, 48u8, 48u8],  // #000000
    }
}

/// The vector source after color substitution.
pub open spec fn spec_substituted(svg: Seq<u8>, id: LogoId) -> Seq<u8> {
    spec_replace(svg, spec_color_token(), spec_hex_color(id))
}

fn push_bytes(v: &mut Vec<u8>, a: u8, b: u8, c: u8, d: u8, e: u8, f: u8, g: u8)
    ensures
        final(v)@ == old(v)@ + seq![a, b, c, d, e, f, g],
{
    v.push(a);
    v.push(b);
    v.push(c);
    v.push(d);
    v.push(e);
    v.push(f);
    v.push(g);
    proof {
        assert(v@ =~= old(v)@ + seq![a, b, c, d, e, f, g]);
    }
}

/// Builds the placeholder token bytes.
fn color_token() -> (v: Vec<u8>)
    ensures
        v@ == spec_color_token(),
{
    let mut v: Vec<u8> = Vec::new();
    push_bytes(&mut v, 99, 117, 114, 114, 101, 110, 116);
    v.push(67);
    v.push(111);
    v.push(108);
    v.push(111);
    v.push(114);
    proof {
        assert(v@ =~= spec_color_token());
    }
    v
}

/// Builds the brand fill color bytes for a logo variant.
fn hex_color(id: &LogoId) -> (v: Vec<u8>)
    ensures
        v@ == spec_hex_color(*id),
{
    let mut v: Vec<u8> = Vec::new();
    match id {
        LogoId::FacebookColor => push_bytes(&mut v, 35, 49, 56, 55, 55, 70, 50),
        LogoId::WhatsAppColor => push_bytes(&mut v, 35, 50, 53, 68, 51, 54, 54),
        LogoId::InstagramColor => push_bytes(&mut v, 35, 69, 52, 52, 48, 53, 70),
        _ => push_bytes(&mut v, 35, 48, 48, 48, 48, 48, 48),
    }
    proof {
        assert(v@ =~= spec_hex_color(*id));
    }
    v
}

/// What parsing a vector source yields: `Ok` of the scene's pixel size,
/// rounded to whole pixels and at least 1 x 1; `Err(true)` when the parser
/// rejects the input as not UTF-8 text; `Err(false)` for any other parse
/// failure (malformed or oversized markup). A pure function of the bytes.
pub uninterp spec fn svg_scene_of(svg: Seq<u8>) -> Result<(int, int), bool>;

/// What the vector backend renders: the premultiplied RGBA pixels of the
/// scene parsed from `svg`, scaled by the whole factor `scale`, drawn at
/// the top-left of a transparent square canvas of side `canvas`; a pure
/// function of its three arguments.
pub uninterp spec fn svg_premul_of(svg: Seq<u8>, scale: int, canvas: int) -> Seq<u8>;

#[verifier::external_type_specification]
#[verifier::external_body]
pub struct ExSvgOptions<'a>(resvg::usvg::Options<'a>);

/// Relies on `usvg::Options`: the defaults — an empty font database, no
/// resource directory — with the file-path href resolver replaced by one
/// that resolves nothing, so that parsing and rendering read nothing
/// outside the input bytes (embedded `data:` URLs still resolve).
#[verifier::external_body]
fn svg_options() -> resvg::usvg::Options<'static> {
    let resolver = resvg::usvg::ImageHrefResolver {
        resolve_data: resvg::usvg::ImageHrefResolver::default_data_resolver(),
        resolve_string: Box::new(|_: &str, _: &resvg::usvg::Options| Option::None),
    };
    resvg::usvg::Options { image_href_resolver: resolver, ..Default::default() }
}

/// Relies on `usvg::Tree::from_data` — under `svg_options`, so parsing
/// depends on the bytes alone — and on `Tree::size` with
/// `Size::to_int_size`: parsing succeeds exactly when the source is
/// parsable, the reported size is at least 1 x 1, the `NotAnUtf8Str`
/// failure is distinct from every other one, and nothing else can fail.
#[verifier::external_body]
fn svg_native_size(svg: &[u8]) -> (r: Result<(u32, u32), RenderError>)
    ensures
        r is Ok <==> svg_scene_of(svg@) is Ok,
        r matches Ok(d) ==> {
            &&& (d.0 as int, d.1 as int) == svg_scene_of(svg@)->Ok_0
            &&& d.0 >= 1
            &&& d.1 >= 1
        },
        (r is Err && r->Err_0 == RenderError::InvalidUtf8) <==> (svg_scene_of(svg@) is Err
            && svg_scene_of(svg@)->Err_0 == true),
        (r is Err && r->Err_0 == RenderError::SvgParse) <==> (svg_scene_of(svg@) is Err
            && svg_scene_of(svg@)->Err_0 == false),
{
    let opt = svg_options();
    match resvg::usvg::Tree::from_data(svg, &opt) {
        Ok(tree) => {
            let s = tree.size().to_int_size();
            Ok((s.width(), s.height()))
        },
        Err(resvg::usvg::Error::NotAnUtf8Str) => Err(RenderError::InvalidUtf8),
        Err(_) => Err(RenderError::SvgParse),
    }
}

/// Relies on `usvg::Tree::from_data` (under `svg_options`) and
/// `resvg::render` onto a `tiny_skia::Pixmap`: rendering the parsed scene,
/// scaled by the whole factor `scale`, onto a transparent square canvas of
/// side `canvas` is deterministic in those inputs, and the pixmap holds
/// `canvas * canvas` premultiplied RGBA pixels. Within the canvas bound,
/// `Pixmap::new`'s checked size arithmetic stays in range and `render` is
/// infallible, so this succeeds exactly when parsing does.
#[verifier::external_body]
fn svg_render_premultiplied(svg: &[u8], scale: u16, canvas: u32) -> (r: Result<
    Vec<u8>,
    RenderError,
>)
    requires
        1 <= scale,
        1 <= canvas <= MAX_CANVAS_SIDE,
    ensures
        r is Ok <==> svg_scene_of(svg@) is Ok,
        r matches Ok(d) ==> {
            &&& d@ == svg_premul_of(svg@, scale as int, canvas as int)
            &&& d@.len() == canvas * canvas * 4
        },
        (r is Err && r->Err_0 == RenderError::InvalidUtf8) <==> (svg_scene_of(svg@) is Err
            && svg_scene_of(svg@)->Err_0 == true),
        (r is Err && r->Err_0 == RenderError::SvgParse) <==> (svg_scene_of(svg@) is Err
            && svg_scene_of(svg@)->Err_0 == false),
{
    let opt = svg_options();
    let tree = match resvg::usvg::Tree::from_data(svg, &opt) {
        Ok(t) => t,
        Err(resvg::usvg::Error::NotAnUtf8Str) => return Err(RenderError::InvalidUtf8),
        Err(_) => return Err(RenderError::SvgParse),
    };
    let mut pixmap = match resvg::tiny_skia::Pixmap::new(canvas, canvas) {
        Some(p) => p,
        None => return Err(RenderError::SvgRasterize),
    };
    let t = resvg::tiny_skia::Transform::from_scale(scale.into(), scale.into());
    resvg::render(&tree, t, &mut pixmap.as_mut());
    Ok(pixmap.take())
}

/// The supersampling scale and canvas side used for a scene whose native
/// size is `w0` x `h0` at a target side of `target` pixels: the scene is
/// scaled by the smallest whole factor that makes its larger side at least
/// twice the target, unless that canvas would exceed the backend limit, in
/// which case it is rendered at native size.
pub open spec fn spec_render_geometry(w0: int, h0: int, target: int) -> (int, int) {
    let m = if w0 >= h0 {
        w0
    } else {
        h0
    };
    let k0 = (2 * target + m - 1) / m;
    let k = if k0 < 1 {
        1int
    } else {
        k0
    };
    if m * k <= MAX_CANVAS_SIDE {
        (k, m * k)
    } else {
        (1int, m)
    }
}

/// The straight-alpha RGBA pixels of a rasterized vector logo: the source
/// with the placeholder color substituted, parsed and rendered
/// supersampled, un-premultiplied, and resampled to `target` x `target`.
pub open spec fn spec_rasterize_svg(svg: Seq<u8>, target: int, id: LogoId) -> Seq<u8> {
    let sub = spec_substituted(svg, id);
    let dims = svg_scene_of(sub)->Ok_0;
    let geom = spec_render_geometry(dims.0, dims.1, target);
    lanczos_of(
        spec_unpremultiply(svg_premul_of(sub, geom.0, geom.1)),
        geom.1,
        geom.1,
        target,
        target,
    )
}

/// When vector rasterization succeeds: the target has at least one pixel,
/// the substituted source parses, and the supersampling canvas stays
/// within the backend's bound.
pub open spec fn spec_svg_ok(svg: Seq<u8>, target: int, id: LogoId) -> bool {
    let sub = spec_substituted(svg, id);
    &&& target >= 1
    &&& svg_scene_of(sub) is Ok
    &&& spec_render_geometry(svg_scene_of(sub)->Ok_0.0, svg_scene_of(sub)->Ok_0.1, target).1
        <= MAX_CANVAS_SIDE
}

/// The error kind of a failed vector rasterization: a zero target, source
/// rejected as not UTF-8, unparsable markup, or a scene too large for the
/// backend, in that order.
pub open spec fn spec_svg_err(svg: Seq<u8>, target: int, id: LogoId) -> RenderError {
    let sub = spec_substituted(svg, id);
    if target < 1 {
        RenderError::InvalidLogoDimensions
    } else if svg_scene_of(sub) is Err && svg_scene_of(sub)->Err_0 {
        RenderError::InvalidUtf8
    } else if svg_scene_of(sub) is Err {
        RenderError::SvgParse
    } else {
        RenderError::SvgRasterize
    }
}

/// Rasterizes SVG source bytes to a square straight-alpha RGBA buffer of
/// exactly `target_size` x `target_size` pixels, substituting the brand
/// color of `logo_id` for the placeholder token first.
///
/// Succeeds exactly when the target has at least one pixel, the
/// substituted source parses, and the supersampling canvas fits the
/// backend; each failure carries the kind of its cause.
pub fn rasterize_svg_to_rgba(svg_bytes: &[u8], target_size: u32, logo_id: &LogoId) -> (r: Result<
    Vec<u8>,
    RenderError,
>)
    requires
        target_size <= crate::raster::MAX_IMAGE_SIDE,
    ensures
        r is Ok <==> spec_svg_ok(svg_bytes@, target_size as int, *logo_id),
        r matches Ok(d) ==> {
            &&& d@ == spec_rasterize_svg(svg_bytes@, target_size as int, *logo_id)
            &&& d@.len() == target_size * target_size * 4
            &&& target_size >= 1
        },
        !spec_svg_ok(svg_bytes@, target_size as int, *logo_id) ==> (r is Err && r->Err_0
            == spec_svg_err(svg_bytes@, target_size as int, *logo_id)),
{
    if target_size == 0 {
        return Err(RenderError::InvalidLogoDimensions);
    }
    let token = color_token();
    let color = hex_color(logo_id);
    let sub = replace_bytes(svg_bytes, token.as_slice(), color.as_slice());
    let (w0, h0) = match svg_native_size(sub.as_slice()) {
        Ok(d) => d,
        Err(e) => return Err(e),
    };
    let m: u32 = if w0 >= h0 {
        w0
    } else {
        h0
    };
    // The smallest whole scale that supersamples to at least twice the target.
    let k0: u64 = ((2 * target_size as u64) + (m as u64) - 1) / (m as u64);
    let k: u64 = if k0 < 1 {
        1
    } else {
        k0
    };
    proof {
        let t = target_size as int;
        vstd::arithmetic::div_mod::lemma_fundamental_div_mod(2 * t + m - 1, m as int);
        assert((m as int) * (k0 as int) <= 2 * t + m - 1);
        assert(k0 as int <= 2 * t) by (nonlinear_arith)
            requires
                m >= 1,
                t >= 1,
                k0 >= 0,
                (m as int) * (k0 as int) <= 2 * t + m - 1,
        ;
        assert(1 <= k <= 33136);
        assert((m as int) * (k as int) <= 0x20000000000000) by (nonlinear_arith)
            requires
                1 <= m < 0x100000000,
                1 <= k <= 33136,
        ;
    }
    let (scale, canvas): (u64, u64) = if (m as u64) * k <= MAX_CANVAS_SIDE as u64 {
        (k, (m as u64) * k)
    } else {
        (1, m as u64)
    };
    proof {
        assert((scale as int, canvas as int) == spec_render_geometry(
            w0 as int,
            h0 as int,
            target_size as int,
        ));
        assert(canvas >= 1) by (nonlinear_arith)
            requires
                canvas == (m as int) * (k as int) || canvas == m as int,
                m >= 1,
                k >= 1,
        ;
    }
    if canvas > MAX_CANVAS_SIDE as u64 {
        return Err(RenderError::SvgRasterize);
    }
    let premul = match svg_render_premultiplied(sub.as_slice(), scale as u16, canvas as u32) {
        Ok(d) => d,
        Err(e) => return Err(e),
    };
    proof {
        vstd::arithmetic::div_mod::lemma_fundamental_div_mod_converse(
            (canvas as int) * (canvas as int) * 4,
            4,
            (canvas as int) * (canvas as int),
            0,
        );
    }
    let straight = unpremultiply(premul.as_slice());
    let out = resize_rgba(&straight, canvas as u32, canvas as u32, target_size, target_size);
    Ok(out)
}

} // verus!
