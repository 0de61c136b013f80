use vstd::prelude::*;
use crate::buffer::DataType;

verus! {

/// Whether a buffer of type `dtype` with `channels` channels can go through a
/// colour kernel (matrix transform or gain): it must hold 3-channel floats.
pub fn color_buffer_accepted(dtype: DataType, channels: u32) -> (ok: bool)
    ensures
        ok == (dtype == DataType::F32 && channels == 3),
{
    dtype == DataType::F32 && channels == 3
}

} // verus!
