use vstd::prelude::*;
use crate::buffer::{DataType, RawArray, Samples};
use crate::grid::{lemma_pixel_index, lemma_split_index};

verus! {

/// The `h` by `w` by 4 packing of a `2h` by `2w` mosaic `m`: channel `k` of
/// pixel `(y, x)` is sample `k` (row-major) of the mosaic's 2x2 cell at
/// `(2y, 2x)`.
pub open spec fn packed(m: Seq<u16>, h: int, w: int) -> Seq<u16> {
    Seq::new(
        (h * w * 4) as nat,
        |j: int|
            {
                let y = (j / 4) / w;
                let x = (j / 4) % w;
                let k = j % 4;
                m[(2 * y + k / 2) * (2 * w) + 2 * x + k % 2]
            },
    )
}

/// The `2h` by `2w` mosaic of an `h` by `w` by 4 packed buffer `q`: sample
/// `(y, x)` is channel `2 * (y % 2) + x % 2` of packed pixel `(y / 2, x / 2)`.
pub open spec fn unpacked(q: Seq<u16>, h: int, w: int) -> Seq<u16> {
    Seq::new(
        ((2 * h) * (2 * w)) as nat,
        |j: int|
            {
                let y = j / (2 * w);
                let x = j % (2 * w);
                q[((y / 2) * w + x / 2) * 4 + (y % 2) * 2 + x % 2]
            },
    )
}

/// Whether packing `input` into `output` passes validation.
pub open spec fn pack_accepts(input: &RawArray, output: &RawArray) -> bool {
    &&& input.dtype_spec() == DataType::U16
    &&& output.dtype_spec() == DataType::U16
    &&& input.channels == 1
    &&& output.channels == 4
    &&& output.height * 2 == input.height
    &&& output.width * 2 == input.width
}

/// Whether unpacking `input` into `output` passes validation.
pub open spec fn unpack_accepts(input: &RawArray, output: &RawArray) -> bool {
    &&& input.dtype_spec() == DataType::U16
    &&& output.dtype_spec() == DataType::U16
    &&& input.channels == 4
    &&& output.channels == 1
    &&& output.height == input.height * 2
    &&& output.width == input.width * 2
}

/// Packs a 16-bit single-channel mosaic into a 16-bit 4-channel buffer of half
/// its height and width.
pub fn bayer_rggb_to_rggb(input: &RawArray, output: &mut RawArray) -> (ok: bool)
    requires
        input.wf(),
        old(output).wf(),
    ensures
        ok == pack_accepts(input, old(output)),
        ok ==> final(output).samples.dtype_spec() == DataType::U16,
        ok ==> final(output).samples.u16s() == packed(
            input.samples.u16s(),
            old(output).height as int,
            old(output).width as int,
        ),
        ok ==> final(output).height == old(output).height && final(output).width == old(
            output,
        ).width && final(output).channels == old(output).channels && final(output).pattern == old(
            output,
        ).pattern,
        !ok ==> *final(output) == *old(output),
{
    if input.channels != 1 || output.channels != 4 || output.height as u64 * 2
        != input.height as u64 || output.width as u64 * 2 != input.width as u64 {
        return false;
    }
    let m: &Vec<u16> = match &input.samples {
        Samples::U16(v) => v,
        _ => {
            return false;
        },
    };
    if output.dtype() != DataType::U16 {
        return false;
    }
    let h = output.height as usize;
    let w = output.width as usize;
    let in_w = input.width as usize;
    let n = output.samples.len();
    let ghost target = packed(m@, h as int, w as int);
    proof {
        assert(m@.len() == (2 * h) * (2 * w));
        assert(n == (h * w) * 4) by (nonlinear_arith)
            requires
                n == h * w * 4,
        ;
    }
    let len = m.len();
    let mut res: Vec<u16> = Vec::new();
    let mut j: usize = 0;
    while j < n
        invariant
            j <= n,
            n == (h * w) * 4,
            in_w == 2 * w,
            len == m@.len(),
            m@.len() == (2 * h) * (2 * w),
            target == packed(m@, h as int, w as int),
            res@.len() == j,
            forall|i: int| 0 <= i < j ==> res@[i] == target[i],
        decreases n - j,
    {
        let p = j / 4;
        let k = j % 4;
        proof {
            lemma_split_index(j as int, (h * w) as int, 4);
            lemma_split_index(p as int, h as int, w as int);
        }
        let y = p / w;
        let x = p % w;
        proof {
            lemma_pixel_index((2 * y + k / 2) as int, (2 * x + k % 2) as int, 2 * h, 2 * w);
        }
        let row = 2 * y + k / 2;
        let col = 2 * x + k % 2;
        assert(row * in_w + col < len);
        res.push(m[row * in_w + col]);
        j += 1;
    }
    proof {
        assert(res@ =~= target);
    }
    output.samples = Samples::U16(res);
    true
}

/// Unpacks a 16-bit 4-channel buffer into a 16-bit single-channel mosaic of
/// twice its height and width.
pub fn rggb_to_bayer_rggb(input: &RawArray, output: &mut RawArray) -> (ok: bool)
    requires
        input.wf(),
        old(output).wf(),
    ensures
        ok == unpack_accepts(input, old(output)),
        ok ==> final(output).samples.dtype_spec() == DataType::U16,
        ok ==> final(output).samples.u16s() == unpacked(
            input.samples.u16s(),
            input.height as int,
            input.width as int,
        ),
        ok ==> final(output).height == old(output).height && final(output).width == old(
            output,
        ).width && final(output).channels == old(output).channels && final(output).pattern == old(
            output,
        ).pattern,
        !ok ==> *final(output) == *old(output),
{
    if input.channels != 4 || output.channels != 1 || output.height as u64 != input.height as u64
        * 2 || output.width as u64 != input.width as u64 * 2 {
        return false;
    }
    let q: &Vec<u16> = match &input.samples {
        Samples::U16(v) => v,
        _ => {
            return false;
        },
    };
    if output.dtype() != DataType::U16 {
        return false;
    }
    let h = input.height as usize;
    let w = input.width as usize;
    let out_w = output.width as usize;
    let n = output.samples.len();
    let ghost target = unpacked(q@, h as int, w as int);
    proof {
        assert(q@.len() == (h * w) * 4) by (nonlinear_arith)
            requires
                q@.len() == h * w * 4,
        ;
        assert(n == (2 * h) * (2 * w));
    }
    let qlen = q.len();
    let mut res: Vec<u16> = Vec::new();
    let mut j: usize = 0;
    while j < n
        invariant
            j <= n,
            qlen == q@.len(),
            n == (2 * h) * (2 * w),
            out_w == 2 * w,
            q@.len() == (h * w) * 4,
            target == unpacked(q@, h as int, w as int),
            res@.len() == j,
            forall|i: int| 0 <= i < j ==> res@[i] == target[i],
        decreases n - j,
    {
        proof {
            lemma_split_index(j as int, 2 * h, 2 * w);
        }
        let y = j / out_w;
        let x = j % out_w;
        proof {
            lemma_split_index(y as int, h as int, 2);
            lemma_split_index(x as int, w as int, 2);
            lemma_pixel_index((y / 2) as int, (x / 2) as int, h as int, w as int);
            lemma_pixel_index(
                ((y / 2) * w + x / 2) as int,
                ((y % 2) * 2 + x % 2) as int,
                h * w,
                4,
            );
        }
        assert((y / 2) * w + x / 2 < qlen);
        let p = (y / 2) * w + x / 2;
        let src = p * 4 + (y % 2) * 2 + x % 2;
        res.push(q[src]);
        j += 1;
    }
    proof {
        assert(res@ =~= target);
    }
    output.samples = Samples::U16(res);
    true
}

/// Unpacking what was packed gives back the mosaic: for every `2h` by `2w`
/// mosaic `m`, `unpacked(packed(m)) == m`.
pub proof fn lemma_unpack_pack(m: Seq<u16>, h: int, w: int)
    requires
        h >= 0,
        w >= 0,
        m.len() == (2 * h) * (2 * w),
    ensures
        unpacked(packed(m, h, w), h, w) == m,
{
    let q = packed(m, h, w);
    assert((2 * h) * (2 * w) == h * w * 4) by (nonlinear_arith);
    assert forall|j: int| 0 <= j < m.len() implies #[trigger] unpacked(q, h, w)[j] == m[j] by {
        lemma_split_index(j, 2 * h, 2 * w);
        let y = j / (2 * w);
        let x = j % (2 * w);
        lemma_split_index(y, h, 2);
        lemma_split_index(x, w, 2);
        lemma_pixel_index(y / 2, x / 2, h, w);
        let p = (y / 2) * w + x / 2;
        let k = (y % 2) * 2 + x % 2;
        lemma_pixel_index(p, k, h * w, 4);
        lemma_pixel_index(y % 2, x % 2, 2, 2);
        assert((2 * (y / 2) + y % 2) * (2 * w) + 2 * (x / 2) + x % 2 == j);
    }
    assert(unpacked(q, h, w) =~= m);
}

/// Packing what was unpacked gives back the packed buffer: for every `h` by
/// `w` by 4 buffer `q`, `packed(unpacked(q)) == q`.
pub proof fn lemma_pack_unpack(q: Seq<u16>, h: int, w: int)
    requires
        h >= 0,
        w >= 0,
        q.len() == h * w * 4,
    ensures
        packed(unpacked(q, h, w), h, w) == q,
{
    let m = unpacked(q, h, w);
    assert forall|j: int| 0 <= j < q.len() implies #[trigger] packed(m, h, w)[j] == q[j] by {
        assert(h >= 0 && 0 <= j < (h * w) * 4);
        lemma_split_index(j, h * w, 4);
        let p = j / 4;
        let k = j % 4;
        lemma_split_index(p, h, w);
        let y = p / w;
        let x = p % w;
        lemma_split_index(k, 2, 2);
        lemma_pixel_index(2 * y + k / 2, 2 * x + k % 2, 2 * h, 2 * w);
        lemma_pixel_index(y, k / 2, h, 2);
        lemma_pixel_index(x, k % 2, w, 2);
        assert(((y * 2 + k / 2) / 2) * w + (x * 2 + k % 2) / 2 == p);
    }
    assert(packed(m, h, w) =~= q);
}

} // verus!
