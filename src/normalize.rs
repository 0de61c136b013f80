use vstd::prelude::*;
use vstd::arithmetic::div_mod::{lemma_div_is_ordered, lemma_fundamental_div_mod, lemma_mod_pos_bound};
use crate::buffer::{DataType, RawArray, Samples};

verus! {

/// The value that stands for 1.0 in an integer sample type.
pub open spec fn full_scale(t: DataType) -> int {
    if t == DataType::U8 {
        255
    } else {
        65535
    }
}

/// `clamp((v - lo) / (hi - lo), 0, 1) * q`, rounded to the nearest integer
/// with halves rounded up.
pub open spec fn quantize(v: int, lo: int, hi: int, q: int) -> int {
    if v <= lo {
        0
    } else if v >= hi {
        q
    } else {
        (2 * (v - lo) * q + (hi - lo)) / (2 * (hi - lo))
    }
}

/// Whether a normalisation from `input` into `output` over `[lo, hi]` passes
/// validation.
pub open spec fn normalize_accepts(input: &RawArray, output: &RawArray, lo: int, hi: int) -> bool {
    &&& lo < hi
    &&& input.height == output.height
    &&& input.width == output.width
    &&& input.channels == output.channels
    &&& input.dtype_spec() != DataType::F32
    &&& output.dtype_spec() != DataType::F32
}

/// A quantised value lies between 0 and the full scale.
pub proof fn lemma_quantize_bounds(v: int, lo: int, hi: int, q: int)
    requires
        lo < hi,
        q >= 0,
    ensures
        0 <= quantize(v, lo, hi, q) <= q,
{
    if lo < v < hi {
        let d = 2 * (hi - lo);
        let n = 2 * (v - lo) * q + (hi - lo);
        lemma_fundamental_div_mod(n, d);
        lemma_mod_pos_bound(n, d);
        let t = n / d;
        assert(0 <= t <= q) by (nonlinear_arith)
            requires
                n == d * t + n % d,
                0 <= n % d < d,
                d == 2 * (hi - lo),
                n == 2 * (v - lo) * q + (hi - lo),
                lo < v < hi,
                q >= 0,
        ;
    }
}

/// Normalisation is monotonic: a larger input never gives a smaller output.
pub proof fn lemma_normalize_monotonic(a: int, b: int, lo: int, hi: int, q: int)
    requires
        lo < hi,
        q >= 0,
        a <= b,
    ensures
        quantize(a, lo, hi, q) <= quantize(b, lo, hi, q),
{
    lemma_quantize_bounds(a, lo, hi, q);
    lemma_quantize_bounds(b, lo, hi, q);
    if lo < a && b < hi {
        let na = 2 * (a - lo) * q + (hi - lo);
        let nb = 2 * (b - lo) * q + (hi - lo);
        assert(na <= nb) by (nonlinear_arith)
            requires
                na == 2 * (a - lo) * q + (hi - lo),
                nb == 2 * (b - lo) * q + (hi - lo),
                a <= b,
                q >= 0,
        ;
        lemma_div_is_ordered(na, nb, 2 * (hi - lo));
    }
}

fn int_sample(s: &Samples, i: usize) -> (r: u32)
    requires
        i < s.len_spec(),
        s.dtype_spec() != DataType::F32,
    ensures
        r == s.int_at(i as int),
{
    match s {
        Samples::U8(v) => v[i] as u32,
        Samples::U16(v) => v[i] as u32,
        Samples::F32(v) => v[i],
    }
}

fn quantize_value(v: u32, lo: i32, hi: i32, q: u32) -> (r: u32)
    requires
        lo < hi,
        q <= 65535,
    ensures
        r == quantize(v as int, lo as int, hi as int, q as int),
        r <= q,
{
    proof {
        lemma_quantize_bounds(v as int, lo as int, hi as int, q as int);
    }
    let v = v as i64;
    let lo = lo as i64;
    let hi = hi as i64;
    if v <= lo {
        0
    } else if v >= hi {
        q
    } else {
        assert(0 <= 2 * (v - lo) * q <= 2 * 0x1_0000_0000 * 65535) by (nonlinear_arith)
            requires
                0 < v - lo <= 0x1_0000_0000,
                q <= 65535,
        ;
        ((2 * (v - lo) * q as i64 + (hi - lo)) / (2 * (hi - lo))) as u32
    }
}

/// Rescales every sample of an 8- or 16-bit buffer from `[input_min,
/// input_max]` to the full range of the 8- or 16-bit output buffer, with
/// clamping and round-half-up.
pub fn normalize(input: &RawArray, output: &mut RawArray, input_min: i32, input_max: i32) -> (ok:
    bool)
    requires
        input.wf(),
        old(output).wf(),
    ensures
        ok == normalize_accepts(input, old(output), input_min as int, input_max as int),
        ok ==> final(output).samples.dtype_spec() == old(output).samples.dtype_spec(),
        ok ==> final(output).samples.len_spec() == old(output).samples.len_spec(),
        ok ==> forall|i: int|
            0 <= i < old(output).samples.len_spec() ==> #[trigger] final(output).samples.int_at(i)
                == quantize(
                input.samples.int_at(i),
                input_min as int,
                input_max as int,
                full_scale(old(output).dtype_spec()),
            ),
        ok ==> final(output).height == old(output).height && final(output).width == old(
            output,
        ).width && final(output).channels == old(output).channels && final(output).pattern == old(
            output,
        ).pattern,
        !ok ==> *final(output) == *old(output),
{
    if input_min >= input_max || input.height != output.height || input.width != output.width
        || input.channels != output.channels {
        return false;
    }
    if input.dtype() == DataType::F32 {
        return false;
    }
    let n = output.samples.len();
    assert(input.samples.len_spec() == n);
    let out = match &output.samples {
        Samples::U8(_) => {
            let mut res: Vec<u8> = Vec::new();
            let mut i: usize = 0;
            while i < n
                invariant
                    i <= n,
                    n == input.samples.len_spec(),
                    input.samples.dtype_spec() != DataType::F32,
                    input_min < input_max,
                    res@.len() == i,
                    forall|k: int|
                        0 <= k < i ==> res@[k] as int == quantize(
                            input.samples.int_at(k),
                            input_min as int,
                            input_max as int,
                            255,
                        ),
                decreases n - i,
            {
                let v = quantize_value(int_sample(&input.samples, i), input_min, input_max, 255);
                res.push(v as u8);
                i += 1;
            }
            Samples::U8(res)
        },
        Samples::U16(_) => {
            let mut res: Vec<u16> = Vec::new();
            let mut i: usize = 0;
            while i < n
                invariant
                    i <= n,
                    n == input.samples.len_spec(),
                    input.samples.dtype_spec() != DataType::F32,
                    input_min < input_max,
                    res@.len() == i,
                    forall|k: int|
                        0 <= k < i ==> res@[k] as int == quantize(
                            input.samples.int_at(k),
                            input_min as int,
                            input_max as int,
                            65535,
                        ),
                decreases n - i,
            {
                let v = quantize_value(int_sample(&input.samples, i), input_min, input_max, 65535);
                res.push(v as u16);
                i += 1;
            }
            Samples::U16(res)
        },
        Samples::F32(_) => {
            return false;
        },
    };
    output.samples = out;
    true
}

} // verus!
