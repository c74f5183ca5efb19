//! The format that a stream offers to the audio server.

use vstd::prelude::*;

verus! {

/// The sample format of a stream.
#[derive(Clone, Copy, Debug, PartialEq, Eq, Structural)]
pub enum AudioFormat {
    /// 32-bit floats, little endian.
    F32LE,
}

/// The place of a channel.
#[derive(Clone, Copy, Debug, PartialEq, Eq, Structural)]
pub enum ChannelPosition {
    FrontLeft,
    FrontRight,
}

/// The raw audio format of a stereo stream.
#[derive(Clone, Copy, Debug, PartialEq, Eq)]
pub struct AudioInfo {
    pub format: AudioFormat,
    pub rate: u32,
    pub channels: u32,
    /// The places of the first and the second channel.
    pub position: (ChannelPosition, ChannelPosition),
}

impl AudioInfo {
    /// The format of a stream of 32-bit floats in stereo at `rate`.
    pub open spec fn new_spec(rate: u32) -> AudioInfo {
        AudioInfo {
            format: AudioFormat::F32LE,
            rate,
            channels: 2,
            position: (ChannelPosition::FrontLeft, ChannelPosition::FrontRight),
        }
    }

    /// The format of a stereo stream: front left, then front right.
    pub fn new(rate: u32, channels: u32, format: AudioFormat) -> (info: AudioInfo)
        requires
            channels == 2,
        ensures
            info == (AudioInfo {
                format,
                rate,
                channels: 2,
                position: (ChannelPosition::FrontLeft, ChannelPosition::FrontRight),
            }),
    {
        AudioInfo {
            format,
            rate,
            channels,
            position: (ChannelPosition::FrontLeft, ChannelPosition::FrontRight),
        }
    }
}

} // verus!
