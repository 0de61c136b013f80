use vstd::prelude::*;
use crate::buffer::{DataType, RawArray, Samples};
use crate::grid::{lemma_pixel_index, lemma_split_index};

verus! {

/// Whether `(y, x)` lies off the outermost ring of pixels of a `h` by `w` image.
pub open spec fn interior(h: int, w: int, y: int, x: int) -> bool {
    1 <= y < h - 1 && 1 <= x < w - 1
}

/// The mosaic sample at row `y`, column `x` of an image `w` pixels wide.
pub open spec fn px(m: Seq<u16>, w: int, y: int, x: int) -> int {
    m[y * w + x] as int
}

/// Mean of the four orthogonal neighbours, rounded down.
pub open spec fn cross_mean(m: Seq<u16>, w: int, y: int, x: int) -> int {
    (px(m, w, y, x - 1) + px(m, w, y, x + 1) + px(m, w, y - 1, x) + px(m, w, y + 1, x)) / 4
}

/// Mean of the four diagonal neighbours, rounded down.
pub open spec fn diag_mean(m: Seq<u16>, w: int, y: int, x: int) -> int {
    (px(m, w, y - 1, x - 1) + px(m, w, y - 1, x + 1) + px(m, w, y + 1, x - 1) + px(
        m,
        w,
        y + 1,
        x + 1,
    )) / 4
}

/// Mean of the left and right neighbours, rounded down.
pub open spec fn horiz_mean(m: Seq<u16>, w: int, y: int, x: int) -> int {
    (px(m, w, y, x - 1) + px(m, w, y, x + 1)) / 2
}

/// Mean of the upper and lower neighbours, rounded down.
pub open spec fn vert_mean(m: Seq<u16>, w: int, y: int, x: int) -> int {
    (px(m, w, y - 1, x) + px(m, w, y + 1, x)) / 2
}

/// Channel `c` (0 red, 1 green, 2 blue) reconstructed at `(y, x)` of an RGGB mosaic.
pub open spec fn rgb_at(m: Seq<u16>, w: int, y: int, x: int, c: int) -> int {
    if y % 2 == 0 && x % 2 == 0 {
        if c == 0 { px(m, w, y, x) } else if c == 1 { cross_mean(m, w, y, x) } else { diag_mean(m, w, y, x) }
    } else if y % 2 == 0 {
        if c == 0 { horiz_mean(m, w, y, x) } else if c == 1 { px(m, w, y, x) } else { vert_mean(m, w, y, x) }
    } else if x % 2 == 0 {
        if c == 0 { vert_mean(m, w, y, x) } else if c == 1 { px(m, w, y, x) } else { horiz_mean(m, w, y, x) }
    } else {
        if c == 0 { diag_mean(m, w, y, x) } else if c == 1 { cross_mean(m, w, y, x) } else { px(m, w, y, x) }
    }
}

/// The 3-channel buffer after demosaicing the `h` by `w` mosaic `m` into the
/// buffer that held `prev`: interior pixels are reconstructed, the border ring
/// keeps its previous samples.
pub open spec fn demosaiced(m: Seq<u16>, prev: Seq<u16>, h: int, w: int) -> Seq<u16> {
    Seq::new(
        prev.len(),
        |j: int|
            {
                let y = (j / 3) / w;
                let x = (j / 3) % w;
                if interior(h, w, y, x) {
                    rgb_at(m, w, y, x, j % 3) as u16
                } else {
                    prev[j]
                }
            },
    )
}

/// Whether a demosaic from `input` into `output` passes validation.
pub open spec fn demosaic_accepts(input: &RawArray, output: &RawArray) -> bool {
    &&& input.dtype_spec() == DataType::U16
    &&& output.dtype_spec() == DataType::U16
    &&& input.channels == 1
    &&& output.channels == 3
    &&& output.height == input.height
    &&& output.width == input.width
}

fn sample(m: &Vec<u16>, i: usize) -> (r: u32)
    requires
        i < m@.len(),
    ensures
        r == m@[i as int] as int,
{
    m[i] as u32
}

/// Reconstructs channel `c` at the interior position `(y, x)`, whose index is `i`.
fn rgb_value(m: &Vec<u16>, h: usize, w: usize, y: usize, x: usize, i: usize, c: usize) -> (r: u16)
    requires
        m@.len() == h * w,
        interior(h as int, w as int, y as int, x as int),
        i == y * w + x,
        c < 3,
    ensures
        r == rgb_at(m@, w as int, y as int, x as int, c as int) as u16,
{
    proof {
        lemma_pixel_index(y + 1, x + 1, h as int, w as int);
        lemma_pixel_index(y - 1, x - 1, h as int, w as int);
        assert((y - 1) * w == y * w - w) by (nonlinear_arith);
        assert((y + 1) * w == y * w + w) by (nonlinear_arith);
    }
    let len = m.len();
    assert(i + w + 1 < len);
    let up = i - w;
    let down = i + w;
    let centre = sample(m, i);
    let cross = (sample(m, i - 1) + sample(m, i + 1) + sample(m, up) + sample(m, down)) / 4;
    let diag = (sample(m, up - 1) + sample(m, up + 1) + sample(m, down - 1) + sample(m, down + 1))
        / 4;
    let horiz = (sample(m, i - 1) + sample(m, i + 1)) / 2;
    let vert = (sample(m, up) + sample(m, down)) / 2;
    let v: u32 = if y % 2 == 0 && x % 2 == 0 {
        if c == 0 { centre } else if c == 1 { cross } else { diag }
    } else if y % 2 == 0 {
        if c == 0 { horiz } else if c == 1 { centre } else { vert }
    } else if x % 2 == 0 {
        if c == 0 { vert } else if c == 1 { centre } else { horiz }
    } else {
        if c == 0 { diag } else if c == 1 { cross } else { centre }
    };
    v as u16
}

/// Bilinear demosaic of a 16-bit RGGB mosaic into a 16-bit 3-channel buffer of
/// the same height and width. The outermost ring of pixels is left as it was.
pub fn bayer_rggb_to_rgb(input: &RawArray, output: &mut RawArray) -> (ok: bool)
    requires
        input.wf(),
        old(output).wf(),
    ensures
        ok == demosaic_accepts(input, old(output)),
        ok ==> final(output).samples.dtype_spec() == DataType::U16,
        ok ==> final(output).samples.u16s() == demosaiced(
            input.samples.u16s(),
            old(output).samples.u16s(),
            input.height as int,
            input.width as int,
        ),
        ok ==> final(output).height == old(output).height && final(output).width == old(
            output,
        ).width && final(output).channels == old(output).channels && final(output).pattern == old(
            output,
        ).pattern,
        !ok ==> *final(output) == *old(output),
{
    if input.channels != 1 || output.channels != 3 || output.height != input.height
        || output.width != input.width {
        return false;
    }
    let m: &Vec<u16> = match &input.samples {
        Samples::U16(v) => v,
        _ => {
            return false;
        },
    };
    let prev: &Vec<u16> = match &output.samples {
        Samples::U16(v) => v,
        _ => {
            return false;
        },
    };
    let h = input.height as usize;
    let w = input.width as usize;
    let n = prev.len();
    let ghost target = demosaiced(m@, prev@, h as int, w as int);
    proof {
        assert(m@.len() == h * w);
        assert(n == (h * w) * 3) by (nonlinear_arith)
            requires
                n == h * w * 3,
        ;
    }
    let mut res: Vec<u16> = Vec::new();
    let mut j: usize = 0;
    while j < n
        invariant
            j <= n,
            n == prev@.len(),
            n == (h * w) * 3,
            m@.len() == h * w,
            target == demosaiced(m@, prev@, h as int, w as int),
            res@.len() == j,
            forall|k: int| 0 <= k < j ==> res@[k] == target[k],
        decreases n - j,
    {
        let p = j / 3;
        let c = j % 3;
        proof {
            lemma_split_index(j as int, (h * w) as int, 3);
            lemma_split_index(p as int, h as int, w as int);
        }
        let y = p / w;
        let x = p % w;
        let v = if y >= 1 && y + 1 < h && x >= 1 && x + 1 < w {
            rgb_value(m, h, w, y, x, p, c)
        } else {
            prev[j]
        };
        res.push(v);
        j += 1;
    }
    proof {
        assert(res@ =~= target);
    }
    output.samples = Samples::U16(res);
    true
}

/// Demosaicing keeps the buffer's length, and every sample of a pixel on the
/// outermost ring keeps the value it had before.
pub proof fn lemma_demosaic_keeps_border(
    m: Seq<u16>,
    prev: Seq<u16>,
    h: int,
    w: int,
    y: int,
    x: int,
    c: int,
)
    requires
        prev.len() == h * w * 3,
        0 <= y < h,
        0 <= x < w,
        0 <= c < 3,
        !interior(h, w, y, x),
    ensures
        demosaiced(m, prev, h, w).len() == prev.len(),
        demosaiced(m, prev, h, w)[(y * w + x) * 3 + c] == prev[(y * w + x) * 3 + c],
{
    lemma_pixel_index(y, x, h, w);
    lemma_pixel_index(y * w + x, c, h * w, 3);
}

/// Every sample of an interior pixel is reconstructed from the mosaic.
pub proof fn lemma_demosaic_fills_interior(
    m: Seq<u16>,
    prev: Seq<u16>,
    h: int,
    w: int,
    y: int,
    x: int,
    c: int,
)
    requires
        prev.len() == h * w * 3,
        0 <= c < 3,
        interior(h, w, y, x),
    ensures
        demosaiced(m, prev, h, w)[(y * w + x) * 3 + c] == rgb_at(m, w, y, x, c) as u16,
{
    lemma_pixel_index(y, x, h, w);
    lemma_pixel_index(y * w + x, c, h * w, 3);
}

} // verus!
