use vstd::prelude::*;

verus! {

/// `src` with every occurrence of `pat` replaced by `rep`, scanning left to
/// right; an empty `pat` replaces nothing.
pub open spec fn spec_replace(src: Seq<u8>, pat: Seq<u8>, rep: Seq<u8>) -> Seq<u8>
    decreases src.len(),
{
    if pat.len() == 0 || src.len() < pat.len() {
        src
    } else if src.take(pat.len() as int) == pat {
        rep + spec_replace(src.skip(pat.len() as int), pat, rep)
    } else {
        seq![src[0]] + spec_replace(src.skip(1), pat, rep)
    }
}

/// Replaces every occurrence of `pat` in `src` by `rep`, scanning left to
/// right without rescanning replaced output.
pub fn replace_bytes(src: &[u8], pat: &[u8], rep: &[u8]) -> (out: Vec<u8>)
    ensures
        out@ == spec_replace(src@, pat@, rep@),
{
    let n = src.len();
    let m = pat.len();
    let mut out: Vec<u8> = Vec::new();
    if m == 0 {
        let mut i: usize = 0;
        while i < n
            invariant
                i <= n,
                n == src@.len(),
                out@ == src@.take(i as int),
            decreases n - i,
        {
            out.push(src[i]);
            proof {
                assert(out@ =~= src@.take(i + 1));
            }
            i = i + 1;
        }
        proof {
            assert(src@.take(n as int) =~= src@);
        }
        return out;
    }
    let mut i: usize = 0;
    proof {
        assert(src@.skip(0) =~= src@);
        assert(out@ + spec_replace(src@, pat@, rep@) =~= spec_replace(src@, pat@, rep@));
    }
    while i < n
        invariant
            i <= n,
            n == src@.len(),
            m == pat@.len(),
            m >= 1,
            spec_replace(src@, pat@, rep@) == out@ + spec_replace(src@.skip(i as int), pat@, rep@),
        decreases n - i,
    {
        let mut matches: bool = false;
        if m <= n - i {
            let mut k: usize = 0;
            while k < m && src[i + k] == pat[k]
                invariant
                    k <= m,
                    m == pat@.len(),
                    n == src@.len(),
                    i + m <= n,
                    forall|t: int| 0 <= t < k ==> src@[i + t] == #[trigger] pat@[t],
                decreases m - k,
            {
                k = k + 1;
            }
            matches = k == m;
            proof {
                if matches {
                    assert(src@.skip(i as int).take(m as int) =~= pat@);
                } else {
                    assert(src@[i + k] != pat@[k as int]);
                    assert(src@.skip(i as int).take(m as int) != pat@) by {
                        assert(src@.skip(i as int).take(m as int)[k as int] == src@[i + k]);
                    }
                }
            }
        } else {
            proof {
                assert(src@.skip(i as int).len() < m);
            }
        }
        if matches {
            let mut r: usize = 0;
            let ghost out_before = out@;
            while r < rep.len()
                invariant
                    r <= rep@.len(),
                    out@ == out_before + rep@.take(r as int),
                decreases rep@.len() - r,
            {
                out.push(rep[r]);
                proof {
                    assert(out@ =~= out_before + rep@.take(r + 1));
                }
                r = r + 1;
            }
            proof {
                assert(out@ =~= out_before + rep@);
                assert(src@.skip(i as int).skip(m as int) =~= src@.skip(i + m));
            }
            i = i + m;
        } else {
            let ghost rest = src@.skip(i as int);
            out.push(src[i]);
            proof {
                if i + m <= n {
                    assert(rest.take(m as int) != pat@);
                }
                assert(seq![src@[i as int]] =~= rest.take(1));
                assert(rest.skip(1) =~= src@.skip(i + 1));
                assert(spec_replace(rest, pat@, rep@) == seq![rest[0]] + spec_replace(
                    rest.skip(1),
                    pat@,
                    rep@,
                ));
            }
            i = i + 1;
        }
    }
    proof {
        assert(src@.skip(n as int) =~= Seq::<u8>::empty());
        assert(spec_replace(Seq::<u8>::empty(), pat@, rep@) =~= Seq::<u8>::empty());
        assert(out@ =~= out@ + Seq::<u8>::empty());
    }
    out
}

} // verus!
