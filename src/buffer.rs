use vstd::prelude::*;

verus! {

/// The ordering of the colour filters within each 2x2 tile of a mosaic.
#[derive(Debug, Clone, Copy, PartialEq, Eq, Structural)]
pub enum BayerPattern {
    RGGB,
    BGGR,
    GRBG,
    GBRG,
}

/// The element type of a buffer.
#[derive(Debug, Clone, Copy, PartialEq, Eq, Structural)]
pub enum DataType {
    U8,
    U16,
    F32,
}

/// The samples of a buffer, in row-major order (row, column, channel).
///
/// Floating-point samples are carried as their IEEE-754 bit patterns: the
/// integer kernels of this crate move them around but never compute on them.
pub enum Samples {
    U8(Vec<u8>),
    U16(Vec<u16>),
    F32(Vec<u32>),
}

impl Samples {
    pub open spec fn len_spec(&self) -> nat {
        match self {
            Samples::U8(v) => v@.len(),
            Samples::U16(v) => v@.len(),
            Samples::F32(v) => v@.len(),
        }
    }

    pub open spec fn dtype_spec(&self) -> DataType {
        match self {
            Samples::U8(_) => DataType::U8,
            Samples::U16(_) => DataType::U16,
            Samples::F32(_) => DataType::F32,
        }
    }

    /// The samples of a 16-bit buffer (empty for any other type).
    pub open spec fn u16s(&self) -> Seq<u16> {
        match self {
            Samples::U16(v) => v@,
            _ => Seq::empty(),
        }
    }

    /// The integer value of sample `i` of an 8- or 16-bit buffer.
    pub open spec fn int_at(&self, i: int) -> int {
        match self {
            Samples::U8(v) => v@[i] as int,
            Samples::U16(v) => v@[i] as int,
            Samples::F32(v) => v@[i] as int,
        }
    }

    pub fn len(&self) -> (r: usize)
        ensures
            r == self.len_spec(),
    {
        match self {
            Samples::U8(v) => v.len(),
            Samples::U16(v) => v.len(),
            Samples::F32(v) => v.len(),
        }
    }

    pub fn dtype(&self) -> (r: DataType)
        ensures
            r == self.dtype_spec(),
    {
        match self {
            Samples::U8(_) => DataType::U8,
            Samples::U16(_) => DataType::U16,
            Samples::F32(_) => DataType::F32,
        }
    }
}

/// A typed 3-D image buffer: `height` rows of `width` pixels of `channels`
/// samples each, plus the colour-filter pattern of a single-channel mosaic.
pub struct RawArray {
    pub samples: Samples,
    pub height: u32,
    pub width: u32,
    pub channels: u32,
    pub pattern: BayerPattern,
}

impl RawArray {
    /// The sample count agrees with the dimensions.
    pub open spec fn wf(&self) -> bool {
        self.samples.len_spec() == self.height as int * self.width as int * self.channels as int
    }

    pub open spec fn dtype_spec(&self) -> DataType {
        self.samples.dtype_spec()
    }

    pub fn dtype(&self) -> (r: DataType)
        ensures
            r == self.dtype_spec(),
    {
        self.samples.dtype()
    }
}

} // verus!
