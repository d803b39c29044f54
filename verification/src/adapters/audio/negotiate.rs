//! Which sample format a session gets.
//!
//! One platform can be asked what format a device mixes in; the answer is
//! taken as it is, and a session does not start on an answer that cannot be
//! used. Another platform captures in the format that the capture call
//! names, and that format is the session's.

use vstd::prelude::*;
use crate::error::CaptureError;
use crate::ports::audio::AudioFormat;

verus! {

/// The format that a device reports that it mixes in.
#[derive(Clone, Copy, Debug, PartialEq, Eq, Structural)]
pub struct MixFormat {
    pub samples_per_sec: u32,
    pub channels: u16,
    pub bits_per_sample: u16,
    /// The bytes of one frame: one sample for each channel.
    pub block_align: u16,
}

/// Where the format of a session comes from.
#[derive(Clone, Copy, Debug, PartialEq, Eq, Structural)]
pub enum FormatSource {
    /// The device was asked; `None` where it gave no descriptor.
    Queried(Option<MixFormat>),
    /// The capture call fixes the format.
    Fixed(AudioFormat),
}

impl MixFormat {
    /// The descriptor can be used: it names a rate, at least one channel,
    /// and frames of at least one byte.
    pub open spec fn usable(self) -> bool {
        self.samples_per_sec > 0 && self.channels > 0 && self.block_align > 0
    }

    /// The format that the descriptor names, value for value.
    pub open spec fn format(self) -> AudioFormat {
        AudioFormat {
            sample_rate: self.samples_per_sec,
            channels: self.channels,
            bits_per_sample: self.bits_per_sample,
        }
    }
}

impl Default for MixFormat {
    /// A descriptor with every value zero.
    fn default() -> (mix: MixFormat)
        ensures
            mix == (MixFormat {
                samples_per_sec: 0,
                channels: 0,
                bits_per_sample: 0,
                block_align: 0,
            }),
    {
        MixFormat { samples_per_sec: 0, channels: 0, bits_per_sample: 0, block_align: 0 }
    }
}

/// The format that negotiation gives, where it gives one.
pub open spec fn negotiated(source: FormatSource) -> Option<AudioFormat> {
    match source {
        FormatSource::Fixed(format) => Some(format),
        FormatSource::Queried(Some(mix)) => if mix.usable() {
            Some(mix.format())
        } else {
            None
        },
        FormatSource::Queried(None) => None,
    }
}

/// The format of a session. A fixed format is returned unchanged, and a
/// usable descriptor gives the values that the device reported. A missing
/// or unusable descriptor is a `FormatNegotiationFailed` error, on which no
/// capture worker may be started.
pub fn negotiate_format(source: FormatSource) -> (r: Result<AudioFormat, CaptureError>)
    ensures
        match negotiated(source) {
            Some(format) => r == Ok::<AudioFormat, CaptureError>(format),
            None => r matches Err(CaptureError::FormatNegotiationFailed(_)),
        },
{
    match source {
        FormatSource::Fixed(format) => Ok(format),
        FormatSource::Queried(Some(mix)) => {
            if mix.samples_per_sec > 0 && mix.channels > 0 && mix.block_align > 0 {
                Ok(
                    AudioFormat {
                        sample_rate: mix.samples_per_sec,
                        channels: mix.channels,
                        bits_per_sample: mix.bits_per_sample,
                    },
                )
            } else {
                Err(
                    CaptureError::FormatNegotiationFailed(
                        "Mix format names no rate, no channel or no frame size".to_owned(),
                    ),
                )
            }
        },
        FormatSource::Queried(None) => Err(
            CaptureError::FormatNegotiationFailed("Mix format pointer is null".to_owned()),
        ),
    }
}

/// The number of bytes that `frames` frames of `block_align` bytes take,
/// where it fits in `usize`.
pub fn chunk_size(frames: u32, block_align: u16) -> (size: Option<usize>)
    ensures
        match size {
            Some(n) => n == frames * block_align,
            None => frames * block_align > usize::MAX,
        },
{
    (frames as usize).checked_mul(block_align as usize)
}

} // verus!
