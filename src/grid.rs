use vstd::prelude::*;
use vstd::arithmetic::div_mod::{
    lemma_fundamental_div_mod,
    lemma_fundamental_div_mod_converse,
    lemma_mod_pos_bound,
};

verus! {

/// Position `(y, x)` of a `h` by `w` grid has the row-major index `y * w + x`,
/// which lies inside the grid and splits back into `y` and `x`.
pub proof fn lemma_pixel_index(y: int, x: int, h: int, w: int)
    requires
        0 <= y < h,
        0 <= x < w,
    ensures
        0 <= y * w + x < h * w,
        (y * w + x) / w == y,
        (y * w + x) % w == x,
{
    assert(0 <= y * w + x < h * w) by (nonlinear_arith)
        requires
            0 <= y < h,
            0 <= x < w,
    ;
    lemma_fundamental_div_mod_converse(y * w + x, w, y, x);
}

/// Every row-major index of a `h` by `w` grid splits into a row and a column.
pub proof fn lemma_split_index(j: int, h: int, w: int)
    requires
        h >= 0,
        0 <= j < h * w,
    ensures
        w > 0,
        0 <= j / w < h,
        0 <= j % w < w,
        j == (j / w) * w + j % w,
{
    assert(w > 0) by (nonlinear_arith)
        requires
            0 <= j < h * w,
            h >= 0,
    ;
    lemma_fundamental_div_mod(j, w);
    lemma_mod_pos_bound(j, w);
    let q = j / w;
    let r = j % w;
    assert(0 <= q < h) by (nonlinear_arith)
        requires
            j == w * q + r,
            0 <= r < w,
            0 <= j < h * w,
    ;
    assert(w * q == q * w) by (nonlinear_arith);
}

} // verus!
