use vstd::prelude::*;

verus! {

/// How many leading bytes the sniffer inspects.
pub const SNIFF_LIMIT: usize = 256;

/// ASCII whitespace, as skipped before the leading `<`.
pub open spec fn is_space(b: u8) -> bool {
    b == 32 || b == 9 || b == 10 || b == 13 || b == 11 || b == 12
}

/// The bytes of the tag `<svg`.
pub open spec fn svg_tag() -> Seq<u8> {
    seq![60u8, 115u8, 118u8, 103u8]
}

/// The bytes of the declaration `<?xml`.
pub open spec fn xml_decl() -> Seq<u8> {
    seq![60u8, 63u8, 120u8, 109u8, 108u8]
}

/// `pat` occurs in `p` starting at index `i`.
pub open spec fn matches_at(p: Seq<u8>, pat: Seq<u8>, i: int) -> bool {
    &&& 0 <= i
    &&& i + pat.len() <= p.len()
    &&& forall|k: int| 0 <= k < pat.len() ==> p[i + k] == #[trigger] pat[k]
}

/// The prefix of `bytes` that the sniffer inspects.
pub open spec fn sniff_prefix(bytes: Seq<u8>) -> Seq<u8> {
    if bytes.len() <= SNIFF_LIMIT {
        bytes
    } else {
        bytes.take(SNIFF_LIMIT as int)
    }
}

/// What counts as vector input: within the inspected prefix, the first
/// non-whitespace byte is `<`, and the prefix either starts (there) with an
/// XML declaration or holds a `<svg` tag somewhere.
pub open spec fn spec_is_svg(bytes: Seq<u8>) -> bool {
    let p = sniff_prefix(bytes);
    exists|i: int|
        {
            &&& 0 <= i < p.len()
            &&& (forall|k: int| 0 <= k < i ==> is_space(#[trigger] p[k]))
            &&& p[i] == 60u8
            &&& (matches_at(p, xml_decl(), i) || exists|j: int| matches_at(p, svg_tag(), j))
        }
}

fn is_space_byte(b: u8) -> (r: bool)
    ensures
        r == is_space(b),
{
    b == 32 || b == 9 || b == 10 || b == 13 || b == 11 || b == 12
}

/// Classifies a byte sequence as vector (SVG) or raster input by examining
/// a bounded prefix. A heuristic, not a validator: anything not classified
/// as SVG falls through to the raster decoder.
pub fn is_svg_bytes(bytes: &[u8]) -> (r: bool)
    ensures
        r == spec_is_svg(bytes@),
{
    let len = bytes.len();
    let limit: usize = if len <= SNIFF_LIMIT {
        len
    } else {
        SNIFF_LIMIT
    };
    let ghost p = sniff_prefix(bytes@);
    proof {
        assert(p.len() == limit);
        assert(forall|k: int| 0 <= k < limit ==> p[k] == bytes@[k]);
    }
    // Find the first byte that is not whitespace.
    let mut i: usize = 0;
    while i < limit && is_space_byte(bytes[i])
        invariant
            i <= limit,
            limit <= bytes@.len(),
            p == sniff_prefix(bytes@),
            p.len() == limit,
            forall|k: int| 0 <= k < limit ==> p[k] == bytes@[k],
            forall|k: int| 0 <= k < i ==> is_space(#[trigger] p[k]),
        decreases limit - i,
    {
        i = i + 1;
    }
    if i == limit {
        // Nothing but whitespace: no witness position can exist.
        proof {
            assert forall|w: int| !({
                &&& 0 <= w < p.len()
                &&& (forall|k: int| 0 <= k < w ==> is_space(#[trigger] p[k]))
                &&& p[w] == 60u8
                &&& (matches_at(p, xml_decl(), w) || exists|j: int| matches_at(p, svg_tag(), j))
            }) by {
                if 0 <= w < p.len() {
                    assert(is_space(p[w]));
                }
            }
        }
        return false;
    }
    // `i` is the only possible witness position.
    proof {
        assert(!is_space(p[i as int]));
        assert forall|w: int|
            (0 <= w < p.len() && (forall|k: int| 0 <= k < w ==> is_space(#[trigger] p[k])) && p[w]
                == 60u8) implies w == i by {
            if w < i {
                assert(is_space(p[w]));
            }
            if w > i {
                assert(is_space(p[i as int]));
            }
        }
    }
    if bytes[i] != 60u8 {
        return false;
    }
    // Check for an XML declaration right at the leading `<`.
    if i + 5 <= limit && bytes[i + 1] == 63u8 && bytes[i + 2] == 120u8 && bytes[i + 3] == 109u8
        && bytes[i + 4] == 108u8 {
        proof {
            assert(xml_decl().len() == 5);
            assert(matches_at(p, xml_decl(), i as int)) by {
                assert forall|k: int| 0 <= k < 5 implies p[i + k] == #[trigger] xml_decl()[k] by {
                    assert(p[i as int] == 60u8);
                    assert(p[i + 1] == 63u8);
                    assert(p[i + 2] == 120u8);
                    assert(p[i + 3] == 109u8);
                    assert(p[i + 4] == 108u8);
                }
            }
        }
        return true;
    }
    let ghost no_xml: bool = !matches_at(p, xml_decl(), i as int);
    proof {
        // The executable check failed, so there is no declaration at `i`.
        assert(xml_decl().len() == 5);
        if matches_at(p, xml_decl(), i as int) {
            assert(p[i + 1] == xml_decl()[1]);
            assert(p[i + 2] == xml_decl()[2]);
            assert(p[i + 3] == xml_decl()[3]);
            assert(p[i + 4] == xml_decl()[4]);
            assert(false);
        }
    }
    // Scan the whole prefix for a `<svg` tag.
    if limit < 4 {
        proof {
            assert forall|j: int| !matches_at(p, svg_tag(), j) by {
                assert(svg_tag().len() == 4);
            }
        }
        return false;
    }
    let mut j: usize = 0;
    while j + 4 <= limit
        invariant
            limit <= bytes@.len(),
            p == sniff_prefix(bytes@),
            p.len() == limit,
            4 <= limit,
            j <= limit,
            forall|k: int| 0 <= k < limit ==> p[k] == bytes@[k],
            forall|w: int| 0 <= w < j ==> !matches_at(p, svg_tag(), w),
            i < limit,
            p[i as int] == 60u8,
            forall|k: int| 0 <= k < i ==> is_space(#[trigger] p[k]),
            !matches_at(p, xml_decl(), i as int),
        decreases limit - j,
    {
        if bytes[j] == 60u8 && bytes[j + 1] == 115u8 && bytes[j + 2] == 118u8 && bytes[j + 3]
            == 103u8 {
            proof {
                assert(svg_tag().len() == 4);
                assert(matches_at(p, svg_tag(), j as int)) by {
                    assert forall|k: int| 0 <= k < 4 implies p[j + k] == #[trigger] svg_tag()[k] by {
                        assert(p[j as int] == 60u8);
                        assert(p[j + 1] == 115u8);
                        assert(p[j + 2] == 118u8);
                        assert(p[j + 3] == 103u8);
                    }
                }
            }
            return true;
        }
        proof {
            assert(svg_tag().len() == 4);
            if matches_at(p, svg_tag(), j as int) {
                assert(p[j as int] == svg_tag()[0]);
                assert(p[j + 1] == svg_tag()[1]);
                assert(p[j + 2] == svg_tag()[2]);
                assert(p[j + 3] == svg_tag()[3]);
                assert(false);
            }
        }
        j = j + 1;
    }
    proof {
        assert forall|w: int| !matches_at(p, svg_tag(), w) by {
            assert(svg_tag().len() == 4);
            if 0 <= w && w + 4 <= limit {
                assert(w < j);
            }
        }
    }
    false
}

} // verus!
