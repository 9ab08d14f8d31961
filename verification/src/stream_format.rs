//! The stream format the drivers ask the output unit for: interleaved
//! stereo, 32-bit floating-point linear PCM at 44.1 kHz.

use vstd::prelude::*;
use crate::component::four_char_code;

verus! {

/// Sample rate, in frames per second, that the output is configured for.
pub const OUTPUT_SAMPLE_RATE: u32 = 44100;

/// Format identifier of linear PCM: the four-character code `'lpcm'`.
pub const AUDIO_FORMAT_LINEAR_PCM: u32 = 0x6c70636d;

/// Format flag marking samples as floating point (bit 0).
pub const AUDIO_FORMAT_FLAG_IS_FLOAT: u32 = 1;

/// Channels per frame of the output: stereo.
pub const OUTPUT_CHANNELS: u32 = 2;

/// Bits per sample of the output.
pub const OUTPUT_BITS_PER_CHANNEL: u32 = 32;

/// A stream description with the fields that the unit reads; the sample rate
/// is whole frames per second.
#[derive(Clone, Copy, Debug, PartialEq, Eq)]
pub struct StreamFormat {
    pub sample_rate: u32,
    pub format_id: u32,
    pub format_flags: u32,
    pub bytes_per_packet: u32,
    pub frames_per_packet: u32,
    pub bytes_per_frame: u32,
    pub channels_per_frame: u32,
    pub bits_per_channel: u32,
    pub reserved: u32,
}

impl StreamFormat {
    /// The sizes of an uncompressed, interleaved, byte-aligned format agree:
    /// a frame is one whole-byte sample per channel, a packet a whole number
    /// of frames.
    pub open spec fn is_packed(self) -> bool {
        &&& self.bits_per_channel % 8 == 0
        &&& self.bytes_per_frame == self.channels_per_frame * (self.bits_per_channel / 8)
        &&& self.bytes_per_packet == self.bytes_per_frame * self.frames_per_packet
    }
}

/// The format the drivers set on the output unit.
pub open spec fn output_format() -> StreamFormat {
    StreamFormat {
        sample_rate: 44100,
        format_id: 0x6c70636d,
        format_flags: 1,
        bytes_per_packet: 8,
        frames_per_packet: 1,
        bytes_per_frame: 8,
        channels_per_frame: 2,
        bits_per_channel: 32,
        reserved: 0,
    }
}

/// Builds the format the drivers set on the output unit.
pub fn output_stream_format() -> (f: StreamFormat)
    ensures
        f == output_format(),
        f.sample_rate == OUTPUT_SAMPLE_RATE,
        f.format_id == four_char_code('l', 'p', 'c', 'm'),
        f.format_flags == AUDIO_FORMAT_FLAG_IS_FLOAT,
        f.frames_per_packet == 1,
        f.channels_per_frame == 2,
        f.bits_per_channel == 32,
        f.bytes_per_packet == 8,
        f.bytes_per_frame == 8,
        f.reserved == 0,
        f.is_packed(),
{
    StreamFormat {
        sample_rate: OUTPUT_SAMPLE_RATE,
        format_id: AUDIO_FORMAT_LINEAR_PCM,
        format_flags: AUDIO_FORMAT_FLAG_IS_FLOAT,
        bytes_per_packet: OUTPUT_CHANNELS * (OUTPUT_BITS_PER_CHANNEL / 8),
        frames_per_packet: 1,
        bytes_per_frame: OUTPUT_CHANNELS * (OUTPUT_BITS_PER_CHANNEL / 8),
        channels_per_frame: OUTPUT_CHANNELS,
        bits_per_channel: OUTPUT_BITS_PER_CHANNEL,
        reserved: 0,
    }
}

} // verus!
