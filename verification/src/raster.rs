use vstd::prelude::*;

use vstd::arithmetic::div_mod::{lemma_fundamental_div_mod, lemma_fundamental_div_mod_converse};
use vstd::arithmetic::mul::lemma_mul_inequality;

verus! {

/// The largest accepted minimum image size, in pixels. Keeps every pixel
/// buffer length within the machine's address range.
pub const MAX_TARGET_SIZE: u32 = 16384;

/// The largest pixel side any buffer in the pipeline can have: the largest
/// target plus one module span beyond it.
pub const MAX_IMAGE_SIDE: u32 = 16568;

/// How many modules the image spans across, quiet zone included.
pub open spec fn spec_total_modules(mw: int, margin: bool) -> int {
    mw + if margin {
        8int
    } else {
        0int
    }
}

/// The side of one module in pixels: the smallest uniform size that makes
/// the image at least `size` pixels wide, and at least one pixel.
pub open spec fn spec_module_px(size: int, total: int) -> int {
    let u = (size + total - 1) / total;
    if u < 1 {
        1int
    } else {
        u
    }
}

/// The side of the produced square image, in pixels.
pub open spec fn spec_out_size(mw: int, margin: bool, size: int) -> int {
    spec_total_modules(mw, margin) * spec_module_px(size, spec_total_modules(mw, margin))
}

/// Whether the module at grid position (`mx`, `my`) — counted over the full
/// span including the quiet zone — is dark.
pub open spec fn spec_module_at(
    modules: Seq<bool>,
    mw: int,
    margin: bool,
    mx: int,
    my: int,
) -> bool {
    let qz: int = if margin {
        4int
    } else {
        0int
    };
    &&& qz <= mx < qz + mw
    &&& qz <= my < qz + mw
    &&& modules[(my - qz) * mw + (mx - qz)]
}

/// The alpha of light pixels (background and quiet zone).
pub open spec fn spec_light_alpha(transparent: bool) -> u8 {
    if transparent {
        0u8
    } else {
        255u8
    }
}

/// One byte of the expanded image: dark modules are opaque black, light
/// modules and the quiet zone are white with the background alpha.
pub open spec fn spec_base_channel(
    modules: Seq<bool>,
    mw: int,
    margin: bool,
    mpx: int,
    transparent: bool,
    out: int,
    idx: int,
) -> u8 {
    let pxi = idx / 4;
    let ch = idx % 4;
    let x = pxi % out;
    let y = pxi / out;
    if spec_module_at(modules, mw, margin, x / mpx, y / mpx) {
        if ch == 3 {
            255u8
        } else {
            0u8
        }
    } else {
        if ch == 3 {
            spec_light_alpha(transparent)
        } else {
            255u8
        }
    }
}

/// The full expanded RGBA image of a module matrix.
pub open spec fn spec_base_image(
    modules: Seq<bool>,
    mw: int,
    margin: bool,
    size: int,
    transparent: bool,
) -> Seq<u8> {
    let total = spec_total_modules(mw, margin);
    let mpx = spec_module_px(size, total);
    let out = total * mpx;
    Seq::new(
        (out * out * 4) as nat,
        |idx: int| spec_base_channel(modules, mw, margin, mpx, transparent, out, idx),
    )
}

/// Expands a square module matrix into an RGBA pixel buffer whose side is
/// at least `size` pixels and a whole multiple of the module span.
///
/// Returns the side length and the buffer.
pub fn rasterize_modules(
    modules: &Vec<bool>,
    mw: u32,
    margin: bool,
    size: u32,
    transparent: bool,
) -> (r: (u32, Vec<u8>))
    requires
        1 <= mw <= 177,
        modules@.len() == mw * mw,
        size <= MAX_TARGET_SIZE,
    ensures
        r.0 == spec_out_size(mw as int, margin, size as int),
        r.1@ == spec_base_image(modules@, mw as int, margin, size as int, transparent),
        r.1@.len() == r.0 * r.0 * 4,
        r.0 >= size,
        r.0 >= 1,
        r.0 <= MAX_TARGET_SIZE + 184,
{
    let total: u32 = mw + if margin {
        8
    } else {
        0
    };
    let u: u32 = (size + total - 1) / total;
    let mpx: u32 = if u < 1 {
        1
    } else {
        u
    };
    proof {
        let s = size as int;
        let t = total as int;
        lemma_fundamental_div_mod(s + t - 1, t);
        assert(s + t - 1 == t * ((s + t - 1) / t) + (s + t - 1) % t);
        assert(u as int == (s + t - 1) / t);
        if u >= 1 {
            assert(t * (mpx as int) == s + t - 1 - (s + t - 1) % t);
            assert(s <= t * (mpx as int) <= s + t - 1);
        } else {
            if s >= 1 {
                vstd::arithmetic::div_mod::lemma_div_non_zero(s + t - 1, t);
                assert(false);
            }
            assert(s == 0);
            assert(t * (mpx as int) == t) by (nonlinear_arith)
                requires
                    mpx == 1,
            ;
        }
        assert(t * (mpx as int) <= MAX_TARGET_SIZE + 184);
        assert(t * (mpx as int) >= t) by (nonlinear_arith)
            requires
                mpx >= 1,
                t >= 1,
        ;
        assert(t >= 1);
        assert(t * (mpx as int) >= s);
    }
    let out: u32 = total * mpx;
    let ghost img = spec_base_image(modules@, mw as int, margin, size as int, transparent);
    proof {
        assert(out == spec_out_size(mw as int, margin, size as int));
        assert(out >= size && out >= 1 && out <= MAX_TARGET_SIZE + 184);
        assert(img.len() == out * out * 4);
    }
    let out_us = out as usize;
    let mpx_us = mpx as usize;
    let total_us = total as usize;
    let mw_us = mw as usize;
    let qz_us: usize = if margin {
        4
    } else {
        0
    };
    let mut data: Vec<u8> = Vec::new();
    let mut y: usize = 0;
    while y < out_us
        invariant
            out_us == out,
            mpx_us == mpx,
            total_us == total,
            mw_us == mw,
            1 <= mw <= 177,
            modules@.len() == mw * mw,
            qz_us == if margin {
                4int
            } else {
                0int
            },
            1 <= mpx,
            out == total * mpx,
            total == spec_total_modules(mw as int, margin),
            mpx == spec_module_px(size as int, total as int),
            out <= MAX_TARGET_SIZE + 184,
            img == spec_base_image(modules@, mw as int, margin, size as int, transparent),
            img.len() == out * out * 4,
            y <= out_us,
            data@.len() == 4 * (y * out),
            forall|idx: int| 0 <= idx < data@.len() ==> data@[idx] == img[idx],
        decreases out_us - y,
    {
        let my = y / mpx_us;
        proof {
            lemma_fundamental_div_mod(y as int, mpx as int);
            assert(y as int == mpx as int * (my as int) + y as int % mpx as int);
            if my as int >= total as int {
                lemma_mul_inequality(total as int, my as int, mpx as int);
                assert(total as int * mpx as int <= my as int * mpx as int);
                assert(false);
            }
        }
        let mut x: usize = 0;
        while x < out_us
            invariant
                out_us == out,
                mpx_us == mpx,
                total_us == total,
                mw_us == mw,
                1 <= mw <= 177,
                modules@.len() == mw * mw,
                qz_us == if margin {
                    4int
                } else {
                    0int
                },
                1 <= mpx,
                out == total * mpx,
                total == spec_total_modules(mw as int, margin),
                mpx == spec_module_px(size as int, total as int),
                out <= MAX_TARGET_SIZE + 184,
                img == spec_base_image(modules@, mw as int, margin, size as int, transparent),
                img.len() == out * out * 4,
                y < out_us,
                my == y as int / mpx as int,
                my < total,
                x <= out_us,
                data@.len() == 4 * (y * out + x),
                forall|idx: int| 0 <= idx < data@.len() ==> data@[idx] == img[idx],
            decreases out_us - x,
        {
            let mx = x / mpx_us;
            proof {
                lemma_fundamental_div_mod(x as int, mpx as int);
                assert(x as int == mpx as int * (mx as int) + x as int % mpx as int);
                if mx as int >= total as int {
                    lemma_mul_inequality(total as int, mx as int, mpx as int);
                    assert(total as int * mpx as int <= mx as int * mpx as int);
                    assert(false);
                }
                assert(mx < total);
            }
            let dark: bool = if mx >= qz_us && mx < qz_us + mw_us && my >= qz_us && my < qz_us
                + mw_us {
                let row = my - qz_us;
                let col = mx - qz_us;
                proof {
                    assert(row * mw + col < mw * mw && mw * mw <= 31329) by (nonlinear_arith)
                        requires
                            0 <= row < mw,
                            0 <= col < mw,
                            mw <= 177,
                    ;
                }
                *modules.get(row * mw_us + col).unwrap()
            } else {
                false
            };
            proof {
                assert(dark == spec_module_at(
                    modules@,
                    mw as int,
                    margin,
                    x as int / mpx as int,
                    y as int / mpx as int,
                ));
            }
            let ghost pxi: int = y * out + x;
            proof {
                lemma_fundamental_div_mod_converse(pxi, out as int, y as int, x as int);
                assert(pxi % (out as int) == x as int);
                assert(pxi / (out as int) == y as int);
                lemma_fundamental_div_mod_converse(4 * pxi + 0, 4, pxi, 0);
                lemma_fundamental_div_mod_converse(4 * pxi + 1, 4, pxi, 1);
                lemma_fundamental_div_mod_converse(4 * pxi + 2, 4, pxi, 2);
                lemma_fundamental_div_mod_converse(4 * pxi + 3, 4, pxi, 3);
                assert(4 * pxi + 4 <= img.len()) by (nonlinear_arith)
                    requires
                        img.len() == out * out * 4,
                        pxi == y * out + x,
                        0 <= x < out,
                        0 <= y < out,
                ;
            }
            let light_alpha: u8 = if transparent {
                0
            } else {
                255
            };
            if dark {
                data.push(0);
                data.push(0);
                data.push(0);
                data.push(255);
            } else {
                data.push(255);
                data.push(255);
                data.push(255);
                data.push(light_alpha);
            }
            proof {
                assert forall|idx: int| 4 * pxi <= idx < 4 * pxi + 4 implies data@[idx]
                    == img[idx] by {
                    assert(idx / 4 == pxi && idx % 4 == idx - 4 * pxi);
                }
            }
            x = x + 1;
        }
        proof {
            assert((y as int + 1) * (out as int) == y as int * out as int + out as int)
                by (nonlinear_arith);
        }
        y = y + 1;
    }
    proof {
        assert(4 * ((out as int) * (out as int)) == (out as int) * (out as int) * 4)
            by (nonlinear_arith);
        assert(data@ =~= img);
    }
    (out, data)
}

} // verus!
