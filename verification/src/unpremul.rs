use vstd::prelude::*;

verus! {

/// A color channel divided by its alpha, clamped to 255.
pub open spec fn spec_unpremul_channel(c: u8, a: u8) -> u8 {
    if a == 0 {
        0u8
    } else {
        let v = (c as int) * 255 / (a as int);
        if v > 255 {
            255u8
        } else {
            v as u8
        }
    }
}

/// The straight-alpha form of a premultiplied RGBA buffer: every color
/// channel is divided by its pixel's alpha; a fully transparent pixel
/// becomes (0, 0, 0, 0).
pub open spec fn spec_unpremultiply(d: Seq<u8>) -> Seq<u8> {
    Seq::new(
        d.len(),
        |idx: int|
            {
                let px = idx / 4;
                let a = d[px * 4 + 3];
                if idx % 4 == 3 {
                    a
                } else {
                    spec_unpremul_channel(d[idx], a)
                }
            },
    )
}

/// Converts a premultiplied RGBA buffer to straight alpha, pixel by pixel.
pub fn unpremultiply(d: &[u8]) -> (out: Vec<u8>)
    requires
        d@.len() % 4 == 0,
    ensures
        out@ == spec_unpremultiply(d@),
        out@.len() == d@.len(),
{
    let n = d.len();
    let mut out: Vec<u8> = Vec::new();
    let mut px: usize = 0;
    let pixels = n / 4;
    while px < pixels
        invariant
            n == d@.len(),
            n % 4 == 0,
            pixels == n / 4,
            px <= pixels,
            out@.len() == 4 * px,
            forall|idx: int| 0 <= idx < 4 * px ==> out@[idx] == spec_unpremultiply(d@)[idx],
        decreases pixels - px,
    {
        let base = px * 4;
        let a = d[base + 3];
        if a == 0 {
            out.push(0);
            out.push(0);
            out.push(0);
            out.push(0);
        } else {
            let r = ((d[base] as u32) * 255 / (a as u32)) as u32;
            let g = ((d[base + 1] as u32) * 255 / (a as u32)) as u32;
            let b = ((d[base + 2] as u32) * 255 / (a as u32)) as u32;
            out.push(if r > 255 {
                255u8
            } else {
                r as u8
            });
            out.push(if g > 255 {
                255u8
            } else {
                g as u8
            });
            out.push(if b > 255 {
                255u8
            } else {
                b as u8
            });
            out.push(a);
        }
        proof {
            assert forall|idx: int| 4 * px <= idx < 4 * (px + 1) implies out@[idx]
                == spec_unpremultiply(d@)[idx] by {
                assert(idx / 4 == px);
            }
        }
        px = px + 1;
    }
    proof {
        assert(out@ =~= spec_unpremultiply(d@));
    }
    out
}

/// A fully transparent premultiplied pixel un-premultiplies to (0, 0, 0, 0):
/// no divide-by-zero artifact and no color bleed can appear there.
pub proof fn lemma_unpremultiply_transparent(d: Seq<u8>, px: int)
    requires
        d.len() % 4 == 0,
        0 <= px,
        px * 4 + 3 < d.len(),
        d[px * 4 + 3] == 0,
    ensures
        spec_unpremultiply(d)[px * 4] == 0,
        spec_unpremultiply(d)[px * 4 + 1] == 0,
        spec_unpremultiply(d)[px * 4 + 2] == 0,
        spec_unpremultiply(d)[px * 4 + 3] == 0,
{
    assert((px * 4) / 4 == px);
    assert((px * 4 + 1) / 4 == px);
    assert((px * 4 + 2) / 4 == px);
    assert((px * 4 + 3) / 4 == px);
    assert((px * 4) % 4 == 0);
    assert((px * 4 + 1) % 4 == 1);
    assert((px * 4 + 2) % 4 == 2);
    assert((px * 4 + 3) % 4 == 3);
}

} // verus!
