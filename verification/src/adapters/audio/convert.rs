//! Conversion of raw byte runs into normalised samples, by encoding.

use vstd::prelude::*;
use crate::ports::audio::{AudioFormat, SampleEncoding, encoding_of_bits};
use crate::ports::sample::{
    is_quotient, lemma_q15_in_unit_range, lemma_q15_is_quotient, lemma_q15_round_trip,
    lemma_quotient_in_unit_range, lemma_quotient_is_q15, lemma_quotient_unique, pcm16_of,
    scaled_value, unit, Sample,
};

verus! {

/// The signed 16-bit integer whose little-endian bytes are `lo`, `hi`.
pub open spec fn le_i16(lo: u8, hi: u8) -> int {
    if hi >= 128 {
        lo + 256 * hi - 65536
    } else {
        lo + 256 * hi
    }
}

/// The signed 24-bit integer whose little-endian bytes are `b0`, `b1`, `b2`.
pub open spec fn le_i24(b0: u8, b1: u8, b2: u8) -> int {
    if b2 >= 128 {
        b0 + 256 * b1 + 65536 * b2 - 0x100_0000
    } else {
        b0 + 256 * b1 + 65536 * b2
    }
}

/// The unsigned 32-bit integer whose little-endian bytes are `b0` to `b3`.
pub open spec fn le_u32(b0: u8, b1: u8, b2: u8, b3: u8) -> int {
    b0 + 256 * b1 + 65536 * b2 + 0x100_0000 * b3
}

/// `s` is what the sample with index `i` of the run `data` converts to:
/// - 16-bit PCM: the little-endian integer divided by 32768;
/// - 24-bit PCM: the little-endian integer divided by 8388608;
/// - binary32: the four bytes as they are.
pub open spec fn is_converted(s: Sample, data: Seq<u8>, encoding: SampleEncoding, i: int) -> bool {
    match encoding {
        SampleEncoding::Pcm16Le => is_quotient(s.bits, le_i16(data[2 * i], data[2 * i + 1]), 15),
        SampleEncoding::Pcm24Le => is_quotient(
            s.bits,
            le_i24(data[3 * i], data[3 * i + 1], data[3 * i + 2]),
            23,
        ),
        SampleEncoding::Float32Le => s.bits == le_u32(
            data[4 * i],
            data[4 * i + 1],
            data[4 * i + 2],
            data[4 * i + 3],
        ),
    }
}

/// `out` is the conversion of the run `data`: one sample for each whole
/// group of bytes, in order; bytes after the last whole group are left out.
pub open spec fn is_conversion(out: Seq<Sample>, data: Seq<u8>, encoding: SampleEncoding) -> bool {
    &&& out.len() == data.len() / encoding.width()
    &&& forall|i: int| 0 <= i < out.len() ==> is_converted(#[trigger] out[i], data, encoding, i)
}

/// Converts a run of bytes in the given encoding.
pub fn convert_run(data: &[u8], encoding: SampleEncoding) -> (out: Vec<Sample>)
    ensures
        is_conversion(out@, data@, encoding),
{
    let width = encoding.bytes_per_sample();
    let n = data.len() / width;
    let mut out: Vec<Sample> = Vec::new();
    let mut i: usize = 0;
    while i < n
        invariant
            width == encoding.width(),
            n == data.len() / width,
            i <= n,
            out.len() == i,
            forall|j: int| 0 <= j < i ==> is_converted(#[trigger] out[j], data@, encoding, j),
        decreases n - i,
    {
        assert(width * (i + 1) <= data.len()) by (nonlinear_arith)
            requires
                i < n,
                n == data.len() / width,
                width > 0,
        ;
        let s = match encoding {
            SampleEncoding::Pcm16Le => {
                let lo = data[2 * i];
                let hi = data[2 * i + 1];
                let raw: i32 = lo as i32 + 256 * (hi as i32);
                let v: i32 = if hi >= 128 {
                    raw - 65536
                } else {
                    raw
                };
                let s = Sample::from_q15(v);
                proof {
                    lemma_q15_is_quotient(s.bits, v as int);
                }
                s
            },
            SampleEncoding::Pcm24Le => {
                let b0 = data[3 * i];
                let b1 = data[3 * i + 1];
                let b2 = data[3 * i + 2];
                let raw: i32 = b0 as i32 + 256 * (b1 as i32) + 65536 * (b2 as i32);
                let v: i32 = if b2 >= 128 {
                    raw - 0x100_0000
                } else {
                    raw
                };
                Sample::from_quotient(v, 23)
            },
            SampleEncoding::Float32Le => {
                let b0 = data[4 * i];
                let b1 = data[4 * i + 1];
                let b2 = data[4 * i + 2];
                let b3 = data[4 * i + 3];
                let bits: u32 = b0 as u32 + 256 * (b1 as u32) + 65536 * (b2 as u32) + 0x100_0000
                    * (b3 as u32);
                Sample::from_bits(bits)
            },
        };
        out.push(s);
        i = i + 1;
    }
    out
}

/// Every sample converted from 16-bit PCM lies in [-1.0, 1.0), and is the
/// 16-bit value that it came from when it is quantised to 16 bits again.
pub proof fn lemma_pcm16_conversion_is_normalised(out: Seq<Sample>, data: Seq<u8>, i: int)
    requires
        is_conversion(out, data, SampleEncoding::Pcm16Le),
        0 <= i < out.len(),
    ensures
        -(unit() as int) <= scaled_value(out[i].bits) < unit(),
        pcm16_of(out[i].bits) == le_i16(data[2 * i], data[2 * i + 1]),
{
    let v = le_i16(data[2 * i], data[2 * i + 1]);
    assert(is_converted(out[i], data, SampleEncoding::Pcm16Le, i));
    lemma_quotient_is_q15(out[i].bits, v);
    lemma_q15_in_unit_range(out[i].bits, v);
    lemma_q15_round_trip(out[i].bits, v);
}

/// Every sample converted from 24-bit PCM lies in [-1.0, 1.0).
pub proof fn lemma_pcm24_conversion_is_normalised(out: Seq<Sample>, data: Seq<u8>, i: int)
    requires
        is_conversion(out, data, SampleEncoding::Pcm24Le),
        0 <= i < out.len(),
    ensures
        -(unit() as int) <= scaled_value(out[i].bits) < unit(),
{
    let v = le_i24(data[3 * i], data[3 * i + 1], data[3 * i + 2]);
    assert(is_converted(out[i], data, SampleEncoding::Pcm24Le, i));
    vstd::arithmetic::power2::lemma2_to64();
    lemma_quotient_in_unit_range(out[i].bits, v, 23);
}

/// The conversion of a run is one sequence of samples and no other.
pub proof fn lemma_conversion_unique(
    first: Seq<Sample>,
    second: Seq<Sample>,
    data: Seq<u8>,
    encoding: SampleEncoding,
)
    requires
        is_conversion(first, data, encoding),
        is_conversion(second, data, encoding),
    ensures
        first == second,
{
    assert forall|i: int| 0 <= i < first.len() implies first[i] == second[i] by {
        assert(is_converted(first[i], data, encoding, i));
        assert(is_converted(second[i], data, encoding, i));
        match encoding {
            SampleEncoding::Pcm16Le => {
                lemma_quotient_unique(
                    first[i].bits,
                    second[i].bits,
                    le_i16(data[2 * i], data[2 * i + 1]),
                    15,
                );
            },
            SampleEncoding::Pcm24Le => {
                lemma_quotient_unique(
                    first[i].bits,
                    second[i].bits,
                    le_i24(data[3 * i], data[3 * i + 1], data[3 * i + 2]),
                    23,
                );
            },
            SampleEncoding::Float32Le => {},
        }
    }
    assert(first =~= second);
}

/// A run that holds whole seconds of a stream converts to as many samples
/// as the seconds, the rate and the channel count give.
pub proof fn lemma_seconds_convert_to_samples(
    out: Seq<Sample>,
    data: Seq<u8>,
    encoding: SampleEncoding,
    seconds: nat,
    sample_rate: nat,
    channels: nat,
)
    requires
        is_conversion(out, data, encoding),
        data.len() == seconds * sample_rate * channels * encoding.width(),
    ensures
        out.len() == seconds * sample_rate * channels,
{
    let count = seconds * sample_rate * channels;
    let width = encoding.width() as int;
    vstd::arithmetic::div_mod::lemma_div_multiples_vanish(count as int, width);
    assert(count * width == width * count) by (nonlinear_arith);
}

/// Converts a run of bytes in the encoding that `format` names. A bit depth
/// without a known encoding gives no samples.
pub fn convert_samples(data: &[u8], format: &AudioFormat) -> (out: Vec<Sample>)
    ensures
        match encoding_of_bits(format.bits_per_sample) {
            Some(encoding) => is_conversion(out@, data@, encoding),
            None => out@.len() == 0,
        },
{
    match format.encoding() {
        Some(encoding) => convert_run(data, encoding),
        None => Vec::new(),
    }
}

} // verus!
