use vstd::prelude::*;
use crate::buffer::{BayerPattern, DataType, RawArray, Samples};
use crate::grid::{lemma_pixel_index, lemma_split_index};

verus! {

/// Whether a mosaic of pattern `p` becomes RGGB when read bottom to top.
pub open spec fn flips_rows(p: BayerPattern) -> bool {
    p == BayerPattern::BGGR || p == BayerPattern::GBRG
}

/// Whether a mosaic of pattern `p` becomes RGGB when read right to left.
pub open spec fn flips_cols(p: BayerPattern) -> bool {
    p == BayerPattern::BGGR || p == BayerPattern::GRBG
}

/// The `h` by `w` mosaic `s` of pattern `p`, reordered into RGGB: rows are
/// reversed for BGGR and GBRG, columns for BGGR and GRBG.
pub open spec fn reordered(s: Seq<u16>, h: int, w: int, p: BayerPattern) -> Seq<u16> {
    Seq::new(
        s.len(),
        |j: int|
            {
                let y = j / w;
                let x = j % w;
                let sy = if flips_rows(p) { h - 1 - y } else { y };
                let sx = if flips_cols(p) { w - 1 - x } else { x };
                s[sy * w + sx]
            },
    )
}

/// Whether canonicalising `b` passes validation.
pub open spec fn canonical_accepts(b: &RawArray) -> bool {
    b.dtype_spec() == DataType::U16 && b.channels == 1
}

/// Reorders a 16-bit single-channel mosaic in place into RGGB order and marks
/// it RGGB.
pub fn bayer_to_bayer_rggb(bayer: &mut RawArray) -> (ok: bool)
    requires
        old(bayer).wf(),
    ensures
        ok == canonical_accepts(old(bayer)),
        ok ==> final(bayer).samples.dtype_spec() == DataType::U16,
        ok ==> final(bayer).samples.u16s() == reordered(
            old(bayer).samples.u16s(),
            old(bayer).height as int,
            old(bayer).width as int,
            old(bayer).pattern,
        ),
        ok ==> final(bayer).pattern == BayerPattern::RGGB,
        ok ==> final(bayer).height == old(bayer).height && final(bayer).width == old(bayer).width
            && final(bayer).channels == old(bayer).channels,
        !ok ==> *final(bayer) == *old(bayer),
{
    if bayer.channels != 1 {
        return false;
    }
    let h = bayer.height as usize;
    let w = bayer.width as usize;
    let p = bayer.pattern;
    let flip_rows = p == BayerPattern::BGGR || p == BayerPattern::GBRG;
    let flip_cols = p == BayerPattern::BGGR || p == BayerPattern::GRBG;
    let res: Vec<u16> = match &bayer.samples {
        Samples::U16(s) => {
            let n = s.len();
            let ghost target = reordered(s@, h as int, w as int, p);
            let mut res: Vec<u16> = Vec::new();
            let mut j: usize = 0;
            while j < n
                invariant
                    j <= n,
                    n == s@.len(),
                    n == h * w,
                    flip_rows == flips_rows(p),
                    flip_cols == flips_cols(p),
                    target == reordered(s@, h as int, w as int, p),
                    res@.len() == j,
                    forall|i: int| 0 <= i < j ==> res@[i] == target[i],
                decreases n - j,
            {
                proof {
                    lemma_split_index(j as int, h as int, w as int);
                }
                let y = j / w;
                let x = j % w;
                let sy = if flip_rows { h - 1 - y } else { y };
                let sx = if flip_cols { w - 1 - x } else { x };
                proof {
                    lemma_pixel_index(sy as int, sx as int, h as int, w as int);
                }
                res.push(s[sy * w + sx]);
                j += 1;
            }
            proof {
                assert(res@ =~= target);
            }
            res
        },
        _ => {
            return false;
        },
    };
    bayer.samples = Samples::U16(res);
    bayer.pattern = BayerPattern::RGGB;
    true
}

/// Canonicalising twice is the same as canonicalising once: an RGGB mosaic is
/// left as it is, so `reordered(reordered(s, p), RGGB) == reordered(s, p)`.
pub proof fn lemma_canonical_idempotent(s: Seq<u16>, h: int, w: int, p: BayerPattern)
    requires
        h >= 0,
        s.len() == h * w,
    ensures
        reordered(s, h, w, BayerPattern::RGGB) == s,
        reordered(reordered(s, h, w, p), h, w, BayerPattern::RGGB) == reordered(s, h, w, p),
{
    assert forall|j: int| 0 <= j < s.len() implies #[trigger] reordered(s, h, w, BayerPattern::RGGB)[j]
        == s[j] by {
        lemma_split_index(j, h, w);
    }
    assert(reordered(s, h, w, BayerPattern::RGGB) =~= s);
    let r = reordered(s, h, w, p);
    assert forall|j: int| 0 <= j < r.len() implies #[trigger] reordered(r, h, w, BayerPattern::RGGB)[j]
        == r[j] by {
        lemma_split_index(j, h, w);
    }
    assert(reordered(r, h, w, BayerPattern::RGGB) =~= r);
}

} // verus!
