//! Layout of the buffers the output unit renders from: interleaved stereo,
//! one sample per channel for each frame.

use vstd::prelude::*;
use crate::stream_format::output_format;

verus! {

/// Number of samples in an interleaved stereo buffer of `frames` frames:
/// one per channel of the output format for each frame.
pub fn interleaved_len(frames: u32) -> (len: usize)
    requires
        frames * 2 <= u32::MAX,
    ensures
        len == frames * 2,
        len == frames * output_format().channels_per_frame,
{
    (frames * 2) as usize
}

/// The frame count the output-unit driver hands its render callback when the
/// unit asks for `num_frames` frames: half of it, rounded down.
pub fn callback_frames(num_frames: usize) -> (frames: usize)
    ensures
        frames == num_frames / 2,
{
    num_frames / 2
}

/// Writes `samples[i]` to both channels of frame `i` of the interleaved
/// stereo `buffer`, for every `i` below `samples.len()`; samples past those
/// frames are left as they were.
pub fn write_stereo_frames<T: Copy>(buffer: &mut [T], samples: &[T])
    requires
        2 * samples@.len() <= old(buffer)@.len(),
    ensures
        final(buffer)@.len() == old(buffer)@.len(),
        forall|i: int|
            0 <= i < samples@.len() ==> {
                &&& final(buffer)@[2 * i] == #[trigger] samples@[i]
                &&& final(buffer)@[2 * i + 1] == samples@[i]
            },
        forall|j: int|
            2 * samples@.len() <= j < old(buffer)@.len() ==> #[trigger] final(buffer)@[j]
                == old(buffer)@[j],
{
    let n = samples.len();
    let len = buffer.len();
    let mut i: usize = 0;
    while i < n
        invariant
            0 <= i <= n,
            n == samples@.len(),
            2 * n <= len,
            len == buffer@.len(),
            buffer@.len() == old(buffer)@.len(),
            forall|k: int|
                0 <= k < i ==> {
                    &&& #[trigger] buffer@[2 * k] == samples@[k]
                    &&& buffer@[2 * k + 1] == samples@[k]
                },
            forall|j: int| 2 * i <= j < buffer@.len() ==> #[trigger] buffer@[j] == old(buffer)@[j],
        decreases n - i,
    {
        let value = samples[i];
        let index = i * 2;
        buffer[index] = value;
        buffer[index + 1] = value;
        i = i + 1;
    }
}

} // verus!
