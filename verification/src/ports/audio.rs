//! What the capture engine hands to its consumers: the sample format of a
//! session and the buffers of normalised samples.

use vstd::prelude::*;
use super::sample::Sample;

verus! {

/// How the samples of a raw stream are encoded.
#[derive(Clone, Copy, Debug, PartialEq, Eq, Structural)]
pub enum SampleEncoding {
    /// Signed 16-bit integers, little endian.
    Pcm16Le,
    /// Signed 24-bit integers, little endian.
    Pcm24Le,
    /// IEEE-754 binary32 numbers, little endian.
    Float32Le,
}

impl SampleEncoding {
    /// The number of bytes that one sample takes.
    pub open spec fn width(self) -> nat {
        match self {
            SampleEncoding::Pcm16Le => 2,
            SampleEncoding::Pcm24Le => 3,
            SampleEncoding::Float32Le => 4,
        }
    }

    /// The number of bits that one sample takes.
    pub open spec fn bits(self) -> nat {
        8 * self.width()
    }

    /// The number of bytes that one sample takes.
    pub fn bytes_per_sample(&self) -> (w: usize)
        ensures
            w == self.width(),
    {
        match self {
            SampleEncoding::Pcm16Le => 2,
            SampleEncoding::Pcm24Le => 3,
            SampleEncoding::Float32Le => 4,
        }
    }
}

/// The encoding that a bit depth stands for, if any.
pub open spec fn encoding_of_bits(bits_per_sample: u16) -> Option<SampleEncoding> {
    if bits_per_sample == 16 {
        Some(SampleEncoding::Pcm16Le)
    } else if bits_per_sample == 24 {
        Some(SampleEncoding::Pcm24Le)
    } else if bits_per_sample == 32 {
        Some(SampleEncoding::Float32Le)
    } else {
        None
    }
}

/// The sample format of a stream: rate, channel count and bit depth.
///
/// A controller that has not captured yet reports the placeholder that
/// `default` gives; the format of a session is fixed when the session starts.
#[derive(Clone, Copy, Debug, PartialEq, Eq, Structural)]
pub struct AudioFormat {
    pub sample_rate: u32,
    pub channels: u16,
    pub bits_per_sample: u16,
}

impl AudioFormat {
    /// The format describes a stream that a device can produce: a positive
    /// rate, at least one channel, and a bit depth with a known encoding.
    pub open spec fn well_formed(&self) -> bool {
        &&& self.sample_rate > 0
        &&& self.channels > 0
        &&& encoding_of_bits(self.bits_per_sample) is Some
    }

    /// Tells whether the format describes a stream that a device can produce.
    pub fn is_well_formed(&self) -> (b: bool)
        ensures
            b == self.well_formed(),
    {
        self.sample_rate > 0 && self.channels > 0 && (self.bits_per_sample == 16
            || self.bits_per_sample == 24 || self.bits_per_sample == 32)
    }

    /// The encoding of the samples, or `None` for a bit depth that the engine
    /// does not know.
    pub fn encoding(&self) -> (e: Option<SampleEncoding>)
        ensures
            e == encoding_of_bits(self.bits_per_sample),
    {
        if self.bits_per_sample == 16 {
            Some(SampleEncoding::Pcm16Le)
        } else if self.bits_per_sample == 24 {
            Some(SampleEncoding::Pcm24Le)
        } else if self.bits_per_sample == 32 {
            Some(SampleEncoding::Float32Le)
        } else {
            None
        }
    }

    /// The format with the given rate, channel count and encoding.
    pub fn with_encoding(sample_rate: u32, channels: u16, encoding: SampleEncoding) -> (f:
        AudioFormat)
        ensures
            f.sample_rate == sample_rate,
            f.channels == channels,
            f.bits_per_sample == encoding.bits(),
            encoding_of_bits(f.bits_per_sample) == Some(encoding),
    {
        let bits_per_sample: u16 = match encoding {
            SampleEncoding::Pcm16Le => 16,
            SampleEncoding::Pcm24Le => 24,
            SampleEncoding::Float32Le => 32,
        };
        AudioFormat { sample_rate, channels, bits_per_sample }
    }
}

impl Default for AudioFormat {
    /// The placeholder that stands until a session has started: 16 kHz, one
    /// channel, 16 bits.
    fn default() -> (f: AudioFormat)
        ensures
            f.sample_rate == 16000,
            f.channels == 1,
            f.bits_per_sample == 16,
    {
        AudioFormat { sample_rate: 16000, channels: 1, bits_per_sample: 16 }
    }
}

/// Samples taken out of a session, with the format they were captured in.
#[derive(Debug)]
pub struct AudioBuffer {
    pub samples: Vec<Sample>,
    pub format: AudioFormat,
}

} // verus!
