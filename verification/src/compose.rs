use vstd::prelude::*;

use vstd::arithmetic::div_mod::{
    lemma_div_is_ordered, lemma_fundamental_div_mod, lemma_fundamental_div_mod_converse,
};

verus! {

/// The alpha of drawing a source pixel with alpha `sa` over a destination
/// pixel with alpha `da` ("over" compositing, rounded to nearest).
pub open spec fn spec_over_alpha(sa: u8, da: u8) -> int {
    sa + (da * (255 - sa) + 127) / 255
}

/// One color channel of "over" compositing with straight alpha: the source
/// weighted by its alpha, the destination by its alpha and the source's
/// transparency, normalized by the resulting alpha.
pub open spec fn spec_over_channel(sc: u8, sa: u8, dc: u8, da: u8) -> int {
    let oa = spec_over_alpha(sa, da);
    if oa == 0 {
        0int
    } else {
        let v = (sc * sa * 255 + dc * da * (255 - sa) + (255 * oa) / 2) / (255 * oa);
        if v > 255 {
            255int
        } else {
            v
        }
    }
}

/// The resulting alpha is a valid channel value.
pub proof fn lemma_over_alpha_bounds(sa: u8, da: u8)
    ensures
        0 <= spec_over_alpha(sa, da) <= 255,
        sa == 0 ==> spec_over_alpha(sa, da) == da,
        sa == 255 ==> spec_over_alpha(sa, da) == 255,
{
    let v = da * (255 - sa);
    assert(da * (255 - sa) <= 255 * (255 - sa) && 0 <= da * (255 - sa)) by (nonlinear_arith)
        requires
            da <= 255,
            sa <= 255,
    ;
    lemma_div_is_ordered(v + 127, 255 * (255 - sa) + 127, 255);
    lemma_fundamental_div_mod_converse(255 * (255 - sa) + 127, 255, (255 - sa) as int, 127);
    lemma_fundamental_div_mod(v + 127, 255);
    if sa == 0 {
        lemma_fundamental_div_mod_converse(da * 255 + 127, 255, da as int, 127);
        assert(da * (255 - 0) + 127 == da * 255 + 127);
    }
}

/// Computes the composited alpha.
pub fn over_alpha(sa: u8, da: u8) -> (r: u8)
    ensures
        r as int == spec_over_alpha(sa, da),
{
    proof {
        lemma_over_alpha_bounds(sa, da);
    }
    let v: u32 = (da as u32) * (255 - sa as u32);
    let q: u32 = (v + 127) / 255;
    (sa as u32 + q) as u8
}

/// Computes one composited color channel.
pub fn over_channel(sc: u8, sa: u8, dc: u8, da: u8, oa: u8) -> (r: u8)
    requires
        oa as int == spec_over_alpha(sa, da),
    ensures
        r as int == spec_over_channel(sc, sa, dc, da),
{
    if oa == 0 {
        0
    } else {
        proof {
            assert((sc as int) * (sa as int) <= 65025 && (dc as int) * (da as int) <= 65025 && (
            sc as int) * (sa as int) * 255 <= 16581375 && (dc as int) * (da as int) * (255
                - sa as int) <= 16581375 && 0 <= (dc as int) * (da as int) * (255 - sa as int))
                by (nonlinear_arith)
                requires
                    sc <= 255,
                    sa <= 255,
                    dc <= 255,
                    da <= 255,
            ;
        }
        let num: u32 = (sc as u32) * (sa as u32) * 255 + (dc as u32) * (da as u32) * (255
            - sa as u32) + (255 * (oa as u32)) / 2;
        let den: u32 = 255 * (oa as u32);
        let v: u32 = num / den;
        if v > 255 {
            255
        } else {
            v as u8
        }
    }
}

/// A source pixel drawn over a destination buffer: every channel of every
/// pixel under the source rectangle is composited; everything else is kept.
pub open spec fn spec_overlay_image(
    dst: Seq<u8>,
    dw: int,
    src: Seq<u8>,
    sw: int,
    sh: int,
    ox: int,
    oy: int,
) -> Seq<u8> {
    Seq::new(
        dst.len(),
        |idx: int|
            {
                let pxi = idx / 4;
                let ch = idx % 4;
                let x = pxi % dw;
                let y = pxi / dw;
                if ox <= x < ox + sw && oy <= y < oy + sh {
                    let si = ((y - oy) * sw + (x - ox)) * 4;
                    let sa = src[si + 3];
                    let da = dst[pxi * 4 + 3];
                    if ch == 3 {
                        spec_over_alpha(sa, da) as u8
                    } else {
                        spec_over_channel(src[si + ch], sa, dst[idx], da) as u8
                    }
                } else {
                    dst[idx]
                }
            },
    )
}

/// Draws `src` (an `sw` x `sh` RGBA buffer) over `dst` (a `dw` x `dh` RGBA
/// buffer) with its top-left corner at (`ox`, `oy`), compositing per pixel
/// by the source's alpha channel; parts outside `dst` are clipped.
pub fn overlay_image(
    dst: &Vec<u8>,
    dw: u32,
    dh: u32,
    src: &Vec<u8>,
    sw: u32,
    sh: u32,
    ox: u32,
    oy: u32,
) -> (out: Vec<u8>)
    requires
        dst@.len() == dw * dh * 4,
        src@.len() == sw * sh * 4,
        dw <= 65535,
        dh <= 65535,
        sw <= 65535,
        sh <= 65535,
        ox <= 65535,
        oy <= 65535,
    ensures
        out@ == spec_overlay_image(dst@, dw as int, src@, sw as int, sh as int, ox as int, oy as int),
        out@.len() == dst@.len(),
{
    let ghost img = spec_overlay_image(
        dst@,
        dw as int,
        src@,
        sw as int,
        sh as int,
        ox as int,
        oy as int,
    );
    let dw_us = dw as usize;
    let dh_us = dh as usize;
    let sw_us = sw as usize;
    let sh_us = sh as usize;
    let ox_us = ox as usize;
    let oy_us = oy as usize;
    let mut out: Vec<u8> = Vec::new();
    let mut y: usize = 0;
    while y < dh_us
        invariant
            dw_us == dw,
            dh_us == dh,
            sw_us == sw,
            sh_us == sh,
            ox_us == ox,
            oy_us == oy,
            dst@.len() == dw * dh * 4,
            src@.len() == sw * sh * 4,
            dw <= 65535,
            dh <= 65535,
            sw <= 65535,
            sh <= 65535,
            ox <= 65535,
            oy <= 65535,
            img == spec_overlay_image(
                dst@,
                dw as int,
                src@,
                sw as int,
                sh as int,
                ox as int,
                oy as int,
            ),
            img.len() == dst@.len(),
            y <= dh_us,
            out@.len() == 4 * (y * dw),
            forall|idx: int| 0 <= idx < out@.len() ==> out@[idx] == img[idx],
        decreases dh_us - y,
    {
        let mut x: usize = 0;
        while x < dw_us
            invariant
                dw_us == dw,
                dh_us == dh,
                sw_us == sw,
                sh_us == sh,
                ox_us == ox,
                oy_us == oy,
                dst@.len() == dw * dh * 4,
                src@.len() == sw * sh * 4,
                dw <= 65535,
                dh <= 65535,
                sw <= 65535,
                sh <= 65535,
                ox <= 65535,
                oy <= 65535,
                img == spec_overlay_image(
                    dst@,
                    dw as int,
                    src@,
                    sw as int,
                    sh as int,
                    ox as int,
                    oy as int,
                ),
                img.len() == dst@.len(),
                y < dh_us,
                x <= dw_us,
                out@.len() == 4 * (y * dw + x),
                forall|idx: int| 0 <= idx < out@.len() ==> out@[idx] == img[idx],
            decreases dw_us - x,
        {
            let dl = dst.len();
            proof {
                assert(y * dw + x < dw * dh && 4 * (y * dw + x) + 4 <= dw * dh * 4)
                    by (nonlinear_arith)
                    requires
                        0 <= x < dw,
                        0 <= y < dh,
                ;
                assert(4 * (y * dw + x) + 4 <= dl);
            }
            let pxi: usize = y * dw_us + x;
            proof {
                lemma_fundamental_div_mod_converse(pxi as int, dw as int, y as int, x as int);
                lemma_fundamental_div_mod_converse(4 * (pxi as int) + 0, 4, pxi as int, 0);
                lemma_fundamental_div_mod_converse(4 * (pxi as int) + 1, 4, pxi as int, 1);
                lemma_fundamental_div_mod_converse(4 * (pxi as int) + 2, 4, pxi as int, 2);
                lemma_fundamental_div_mod_converse(4 * (pxi as int) + 3, 4, pxi as int, 3);
            }
            let base = 4 * pxi;
            if x >= ox_us && x < ox_us + sw_us && y >= oy_us && y < oy_us + sh_us {
                let row = y - oy_us;
                let col = x - ox_us;
                let sl = src.len();
                proof {
                    assert((row * sw + col) * 4 + 4 <= sw * sh * 4) by (nonlinear_arith)
                        requires
                            0 <= row < sh,
                            0 <= col < sw,
                    ;
                    assert((row * sw + col) * 4 + 4 <= sl);
                }
                let si = (row * sw_us + col) * 4;
                let sa = src[si + 3];
                let da = dst[base + 3];
                let oa = over_alpha(sa, da);
                proof {
                    lemma_over_alpha_bounds(sa, da);
                }
                out.push(over_channel(src[si], sa, dst[base], da, oa));
                out.push(over_channel(src[si + 1], sa, dst[base + 1], da, oa));
                out.push(over_channel(src[si + 2], sa, dst[base + 2], da, oa));
                out.push(oa);
            } else {
                out.push(dst[base]);
                out.push(dst[base + 1]);
                out.push(dst[base + 2]);
                out.push(dst[base + 3]);
            }
            proof {
                assert forall|idx: int| 4 * (pxi as int) <= idx < 4 * (pxi as int) + 4 implies
                    out@[idx] == img[idx] by {
                    assert(idx / 4 == pxi as int && idx % 4 == idx - 4 * (pxi as int));
                }
            }
            x = x + 1;
        }
        proof {
            assert((y as int + 1) * (dw as int) == y as int * dw as int + dw as int)
                by (nonlinear_arith);
        }
        y = y + 1;
    }
    proof {
        assert(4 * ((dh as int) * (dw as int)) == (dw as int) * (dh as int) * 4)
            by (nonlinear_arith);
        assert(out@ =~= img);
    }
    out
}

/// A solid `w` x `h` RGBA buffer of one color.
pub open spec fn spec_solid(w: int, h: int, r: u8, g: u8, b: u8, a: u8) -> Seq<u8> {
    Seq::new(
        (w * h * 4) as nat,
        |idx: int|
            if idx % 4 == 0 {
                r
            } else if idx % 4 == 1 {
                g
            } else if idx % 4 == 2 {
                b
            } else {
                a
            },
    )
}

/// Builds a solid RGBA buffer of one color.
pub fn solid_rgba(w: u32, h: u32, r: u8, g: u8, b: u8, a: u8) -> (out: Vec<u8>)
    requires
        w <= 65535,
        h <= 65535,
    ensures
        out@ == spec_solid(w as int, h as int, r, g, b, a),
        out@.len() == w * h * 4,
{
    let ghost img = spec_solid(w as int, h as int, r, g, b, a);
    proof {
        assert((w as int) * (h as int) * 4 == 4 * ((w as int) * (h as int))) by (nonlinear_arith);
        assert((w as int) * (h as int) <= 0xfffe0001) by (nonlinear_arith)
            requires
                w <= 65535,
                h <= 65535,
        ;
    }
    let total: usize = (w as usize) * (h as usize);
    let mut out: Vec<u8> = Vec::new();
    let mut px: usize = 0;
    while px < total
        invariant
            total == (w as int) * (h as int),
            img == spec_solid(w as int, h as int, r, g, b, a),
            img.len() == 4 * total,
            px <= total,
            out@.len() == 4 * px,
            forall|idx: int| 0 <= idx < out@.len() ==> out@[idx] == img[idx],
        decreases total - px,
    {
        proof {
            lemma_fundamental_div_mod_converse(4 * (px as int) + 0, 4, px as int, 0);
            lemma_fundamental_div_mod_converse(4 * (px as int) + 1, 4, px as int, 1);
            lemma_fundamental_div_mod_converse(4 * (px as int) + 2, 4, px as int, 2);
            lemma_fundamental_div_mod_converse(4 * (px as int) + 3, 4, px as int, 3);
        }
        out.push(r);
        out.push(g);
        out.push(b);
        out.push(a);
        proof {
            assert forall|idx: int| 4 * (px as int) <= idx < 4 * (px as int) + 4 implies out@[idx]
                == img[idx] by {
                assert(idx % 4 == idx - 4 * (px as int));
            }
        }
        px = px + 1;
    }
    proof {
        assert(out@ =~= img);
    }
    out
}

/// The logo size ratio actually used, in thousandths of the code width: a
/// ratio outside the open unit interval falls back to the default fifth.
pub open spec fn spec_clamped_ratio(pm: int) -> int {
    if 1 <= pm <= 999 {
        pm
    } else {
        200int
    }
}

/// Clamps a logo size ratio (in thousandths) to the open unit interval,
/// substituting the default for anything outside it.
pub fn clamp_ratio(pm: u32) -> (r: u32)
    ensures
        r as int == spec_clamped_ratio(pm as int),
        1 <= r <= 999,
{
    if 1 <= pm && pm <= 999 {
        pm
    } else {
        200
    }
}

/// The logo's target width: the code width scaled by the ratio, rounded to
/// the nearest pixel and at least one pixel.
pub open spec fn spec_logo_width(w: int, pm: int) -> int {
    let q = (w * pm + 500) / 1000;
    if q < 1 {
        1int
    } else {
        q
    }
}

/// Computes the logo's target width from the code width and the ratio in
/// thousandths; never zero and never wider than the code.
pub fn compute_logo_width(width: u32, pm: u32) -> (r: u32)
    requires
        1 <= width <= 65535,
        1 <= pm <= 999,
    ensures
        r as int == spec_logo_width(width as int, pm as int),
        1 <= r <= width,
{
    proof {
        assert((width as int) * (pm as int) <= 65535 * 999) by (nonlinear_arith)
            requires
                width <= 65535,
                pm <= 999,
        ;
    }
    let t: u64 = (width as u64) * (pm as u64) + 500;
    let q: u64 = t / 1000;
    proof {
        let w = width as int;
        let p = pm as int;
        lemma_fundamental_div_mod(w * p + 500, 1000);
        vstd::arithmetic::mul::lemma_mul_inequality(p, 999, w);
        assert(p * w == w * p && (w + 1) * 1000 == 1000 * w + 1000) by (nonlinear_arith);
        if q as int >= w + 1 {
            vstd::arithmetic::mul::lemma_mul_inequality(w + 1, q as int, 1000);
            assert(false);
        }
    }
    if q < 1 {
        1
    } else {
        q as u32
    }
}

/// The logo's target height: the width scaled by the source's aspect
/// ratio, rounded to the nearest pixel and at least one pixel.
pub open spec fn spec_logo_height(logo_w: int, lw: int, lh: int) -> int {
    let q = (2 * logo_w * lh + lw) / (2 * lw);
    if q < 1 {
        1int
    } else {
        q
    }
}

/// The tallest logo the compositor accepts, in pixels.
pub const MAX_LOGO_HEIGHT: u32 = 16568;

/// Computes the logo's target height, preserving the source's aspect
/// ratio; `None` when the result would exceed the compositor's limit.
pub fn compute_logo_height(logo_w: u32, lw: u32, lh: u32) -> (r: Option<u32>)
    requires
        1 <= logo_w <= 65535,
        1 <= lw,
        1 <= lh,
    ensures
        r matches Some(h) ==> {
            &&& h as int == spec_logo_height(logo_w as int, lw as int, lh as int)
            &&& 1 <= h <= MAX_LOGO_HEIGHT
        },
        r is None <==> spec_logo_height(logo_w as int, lw as int, lh as int)
            > MAX_LOGO_HEIGHT as int,
{
    proof {
        assert(2 * (logo_w as int) * (lh as int) <= 0x20000000000000) by (nonlinear_arith)
            requires
                logo_w <= 65535,
                lh < 0x100000000,
        ;
    }
    let t: u64 = (2 * logo_w as u64) * (lh as u64) + (lw as u64);
    let q: u64 = t / (2 * lw as u64);
    let h: u64 = if q < 1 {
        1
    } else {
        q
    };
    if h > MAX_LOGO_HEIGHT as u64 {
        None
    } else {
        Some(h as u32)
    }
}

/// The padding of the backing plate: eight percent of the logo's larger
/// side, rounded, and at least two pixels.
pub open spec fn spec_plate_pad(m: int) -> int {
    let q = (m * 8 + 50) / 100;
    if q < 2 {
        2int
    } else {
        q
    }
}

/// Computes the backing plate's padding from the logo's larger side.
pub fn compute_plate_pad(m: u32) -> (r: u32)
    requires
        m <= 65535,
    ensures
        r as int == spec_plate_pad(m as int),
        2 <= r <= 5243,
{
    let q: u32 = (m * 8 + 50) / 100;
    proof {
        lemma_fundamental_div_mod(m as int * 8 + 50, 100);
    }
    if q < 2 {
        2
    } else {
        q
    }
}

/// The left or top offset that centers a length-`inner` span in a
/// length-`outer` span: integer half of the leftover space, and zero — not
/// an underflow — when the span does not fit.
pub open spec fn spec_centered_offset(outer: int, inner: int) -> int {
    if inner <= outer {
        (outer - inner) / 2
    } else {
        0int
    }
}

/// Computes the centered placement offset, saturating at zero.
pub fn centered_offset(outer: u32, inner: u32) -> (r: u32)
    ensures
        r as int == spec_centered_offset(outer as int, inner as int),
{
    if inner <= outer {
        (outer - inner) / 2
    } else {
        0
    }
}

} // verus!
