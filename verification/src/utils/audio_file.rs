//! Captured audio as a WAV container.
//!
//! The samples of a buffer are written as signed 16-bit PCM, little endian,
//! with the rate and the channel count of the buffer's format. The container
//! is put together by the `hound` crate; here the samples are quantised, the
//! limits of the container are tested, and long recordings are cut into
//! chunks. The bytes are handed back to the caller, who writes the file.

use vstd::prelude::*;
use vstd::slice::slice_subrange;
use vstd::string::StringExecFns;
use crate::adapters::audio::convert::le_i16;
use crate::error::{AppError, Result};
use crate::ports::audio::{AudioBuffer, AudioFormat};
use crate::ports::sample::{pcm16_of, Sample};
use crate::utils::text::{chars_of, decimal_padded3, push_decimal, string_of};

verus! {

/// The error of `hound`, carried through as it is.
#[verifier::external_type_specification]
#[verifier::external_body]
pub struct ExWavError(hound::Error);

/// The bytes of the WAV container that `hound` writes for 16-bit samples
/// with the given channel count and rate.
pub uninterp spec fn wav_bytes(channels: u16, sample_rate: u32, samples: Seq<i16>) -> Seq<u8>;

/// The length of the header that stands before the samples: the plain PCM
/// header for one or two channels, the extensible one for more.
pub open spec fn header_len(channels: u16) -> nat {
    if channels > 2 {
        68
    } else {
        44
    }
}

/// The unsigned 32-bit integer that the four bytes from `at` on hold,
/// little endian.
pub open spec fn le_u32_at(bytes: Seq<u8>, at: int) -> int {
    bytes[at] + 256 * bytes[at + 1] + 65536 * bytes[at + 2] + 0x100_0000 * bytes[at + 3]
}

/// The unsigned 16-bit integer that the two bytes from `at` on hold,
/// little endian.
pub open spec fn le_u16_at(bytes: Seq<u8>, at: int) -> int {
    bytes[at] + 256 * bytes[at + 1]
}

/// The format tag of the header: integer PCM for one or two channels, the
/// extensible format for more.
pub open spec fn format_tag(channels: u16) -> int {
    if channels > 2 {
        0xfffe
    } else {
        1
    }
}

/// `bytes` is laid out as a container of the given 16-bit samples: the
/// header, then two bytes for each sample, little endian. The header names
/// the format tag in bytes 20 and 21, the channel count in bytes 22 and 23,
/// the rate in bytes 24 to 27, the bytes of a second in bytes 28 to 31, the
/// bytes of a frame (in 16 bits) in bytes 32 and 33, and 16 bits for a sample
/// in bytes 34 and 35; it declares the length of the data, in bytes, in its
/// last four bytes, and the length of all that follows its first eight bytes
/// in bytes 4 to 7.
pub open spec fn has_pcm16_layout(
    bytes: Seq<u8>,
    channels: u16,
    sample_rate: u32,
    samples: Seq<i16>,
) -> bool {
    let h = header_len(channels) as int;
    &&& bytes.len() == h + 2 * samples.len()
    &&& le_u16_at(bytes, 20) == format_tag(channels)
    &&& le_u16_at(bytes, 22) == channels
    &&& le_u32_at(bytes, 24) == sample_rate
    &&& le_u32_at(bytes, 28) == sample_rate * 2 * channels
    &&& le_u16_at(bytes, 32) == (2 * channels) % 65536
    &&& le_u16_at(bytes, 34) == 16
    &&& le_u32_at(bytes, h - 4) == 2 * samples.len()
    &&& le_u32_at(bytes, 4) == h - 8 + 2 * samples.len()
    &&& forall|j: int|
        0 <= j < samples.len() ==> le_i16(bytes[h + 2 * j], bytes[h + 2 * j + 1]) == #[trigger] samples[j]
}

/// The rate, the channel count and the length fit the container.
pub open spec fn fits_container(format: AudioFormat, count: nat) -> bool {
    &&& format.sample_rate > 0
    &&& format.channels > 0
    &&& format.sample_rate * 2 * format.channels <= u32::MAX
    &&& 2 * count + header_len(format.channels) - 8 <= u32::MAX
}

/// The container can hold `count` samples in the given format: the format
/// names a rate and at least one channel, the samples fill whole frames, and
/// the byte rate and the length of the file fit in 32 bits.
pub open spec fn wav_encodable(format: AudioFormat, count: nat) -> bool {
    fits_container(format, count) && count % (format.channels as nat) == 0
}

/// Writes a container of 16-bit samples in memory with
/// `hound::WavWriter::new`, one `write_sample` for each sample, and
/// `finalize`. By hound's source the writer fails only where the samples do
/// not fill whole frames; it divides by the rate and by the channel count and
/// adds up lengths in 32 bits, which the `requires` keeps in range. The
/// header is 44 bytes long for one or two channels and 68 bytes for more; it
/// holds the format tag, the channel count, the rate, the bytes of a second,
/// the bytes of a frame cut to 16 bits, the bit depth and the two lengths at
/// the places that `has_pcm16_layout` names, and the samples follow it,
/// little endian.
#[verifier::external_body]
fn write_wav(channels: u16, sample_rate: u32, bits_per_sample: u16, samples: &Vec<i16>) -> (r:
    std::result::Result<Vec<u8>, hound::Error>)
    requires
        bits_per_sample == 16,
        channels > 0,
        sample_rate > 0,
        sample_rate * 2 * channels <= u32::MAX,
        2 * samples.len() + header_len(channels) - 8 <= u32::MAX,
    ensures
        r is Ok <==> (samples.len() as nat) % (channels as nat) == 0,
        r is Ok ==> r->Ok_0@ == wav_bytes(channels, sample_rate, samples@),
        r is Ok ==> has_pcm16_layout(r->Ok_0@, channels, sample_rate, samples@),
{
    let sample_format = hound::SampleFormat::Int;
    let spec = hound::WavSpec { channels, sample_rate, bits_per_sample, sample_format };
    let mut bytes = std::io::Cursor::new(Vec::new());
    let mut writer = hound::WavWriter::new(&mut bytes, spec)?;
    for sample in samples.iter() {
        writer.write_sample(*sample)?;
    }
    writer.finalize()?;
    Ok(bytes.into_inner())
}

/// The words of a failure of `hound`, as its `Display` gives them.
#[verifier::external_body]
fn wav_error_text(error: &hound::Error) -> String {
    format!("{}", error)
}

/// The 16-bit PCM values of a run of samples.
pub open spec fn quantised(samples: Seq<Sample>) -> Seq<i16> {
    Seq::new(samples.len(), |i: int| pcm16_of(samples[i].bits) as i16)
}

/// Quantises samples to 16 bits: each is limited to [-1.0, 1.0], multiplied
/// by 32768, rounded towards zero and limited to the range of 16 bits.
pub fn quantise(samples: &[Sample]) -> (values: Vec<i16>)
    ensures
        values@ == quantised(samples@),
{
    let mut values: Vec<i16> = Vec::new();
    let mut i: usize = 0;
    while i < samples.len()
        invariant
            i <= samples.len(),
            values.len() == i,
            forall|j: int| 0 <= j < i ==> #[trigger] values[j] == pcm16_of(samples[j].bits),
        decreases samples.len() - i,
    {
        values.push(samples[i].to_pcm16());
        i = i + 1;
    }
    assert(values@ =~= quantised(samples@));
    values
}

/// Tells whether the rate, the channel count and the length fit the
/// container.
fn fits(format: &AudioFormat, count: usize) -> (b: bool)
    ensures
        b == fits_container(*format, count as nat),
{
    if format.sample_rate == 0 || format.channels == 0 {
        return false;
    }
    let double_rate: u64 = format.sample_rate as u64 * 2;
    assert(double_rate * format.channels <= 0x2_0000_0000 * 0x1_0000) by (nonlinear_arith)
        requires
            double_rate <= 0x2_0000_0000,
            format.channels <= 0x1_0000,
    ;
    let byte_rate: u64 = double_rate * format.channels as u64;
    let header: u64 = if format.channels > 2 {
        68
    } else {
        44
    };
    let length_fits = if count as u64 > 0x8000_0000 {
        false
    } else {
        2 * count as u64 + header - 8 <= 0xffff_ffff
    };
    byte_rate <= 0xffff_ffff && length_fits
}

/// Tells whether the container can hold `count` samples in the format.
pub fn can_encode(format: &AudioFormat, count: usize) -> (b: bool)
    ensures
        b == wav_encodable(*format, count as nat),
{
    fits(format, count) && count % (format.channels as usize) == 0
}

/// The container of the given samples in the given format.
fn encode(samples: &[Sample], format: &AudioFormat) -> (r: Result<Vec<u8>>)
    ensures
        r is Ok <==> wav_encodable(*format, samples@.len()),
        r is Ok ==> r->Ok_0@ == wav_bytes(
            format.channels,
            format.sample_rate,
            quantised(samples@),
        ) && has_pcm16_layout(
            r->Ok_0@,
            format.channels,
            format.sample_rate,
            quantised(samples@),
        ),
        r is Err ==> r->Err_0 is AudioCapture,
{
    if !fits(format, samples.len()) {
        return Err(
            AppError::AudioCapture(
                "Failed to create WAV file: the format or the length of the audio does not fit a WAV container".to_owned(),
            ),
        );
    }
    let values = quantise(samples);
    match write_wav(format.channels, format.sample_rate, 16, &values) {
        Ok(bytes) => Ok(bytes),
        Err(error) => Err(
            AppError::AudioCapture(
                "Failed to finalize WAV file: ".to_owned().concat(wav_error_text(&error).as_str()),
            ),
        ),
    }
}

/// Writes the buffer as a WAV container of 16-bit PCM into `out`, in place
/// of what `out` held, and returns the number of samples written. On an
/// error `out` is left as it was.
pub fn save_wav_file(buffer: &AudioBuffer, out: &mut Vec<u8>) -> (r: Result<usize>)
    ensures
        r is Ok <==> wav_encodable(buffer.format, buffer.samples@.len()),
        r is Ok ==> r->Ok_0 == buffer.samples@.len() && final(out)@ == wav_bytes(
            buffer.format.channels,
            buffer.format.sample_rate,
            quantised(buffer.samples@),
        ) && has_pcm16_layout(
            final(out)@,
            buffer.format.channels,
            buffer.format.sample_rate,
            quantised(buffer.samples@),
        ),
        r is Err ==> r->Err_0 is AudioCapture && final(out)@ == old(out)@,
{
    match encode(buffer.samples.as_slice(), &buffer.format) {
        Ok(bytes) => {
            *out = bytes;
            Ok(buffer.samples.len())
        },
        Err(e) => Err(e),
    }
}

/// The number of samples that the header of a container declares: the
/// declared length of the data, in bytes, by the two bytes of a sample.
pub open spec fn declared_sample_count(bytes: Seq<u8>, channels: u16) -> int {
    le_u32_at(bytes, header_len(channels) - 4) / 2
}

/// The container of a buffer declares as many samples as the buffer holds.
pub proof fn lemma_declared_count_is_sample_count(
    bytes: Seq<u8>,
    channels: u16,
    sample_rate: u32,
    samples: Seq<Sample>,
)
    requires
        has_pcm16_layout(bytes, channels, sample_rate, quantised(samples)),
    ensures
        declared_sample_count(bytes, channels) == samples.len(),
{
}

/// The number of characters up to and with the last `c`, or 0 where there
/// is none.
pub open spec fn length_through_last(s: Seq<char>, c: char) -> nat
    decreases s.len(),
{
    if s.len() == 0 {
        0
    } else if s.last() == c {
        s.len()
    } else {
        length_through_last(s.drop_last(), c)
    }
}

/// The path of the chunk with the given number: an underscore and the
/// number in at least three digits, put before the last dot of the base path
/// and what follows it, or at the end, followed by `.wav`, where the base
/// path has no dot.
pub open spec fn chunk_path(base_path: Seq<char>, number: nat) -> Seq<char> {
    let through = length_through_last(base_path, '.');
    if through > 0 {
        base_path.take(through - 1) + "_"@ + decimal_padded3(number) + base_path.skip(through - 1)
    } else {
        base_path + "_"@ + decimal_padded3(number) + ".wav"@
    }
}

/// The samples cut into chunks of `size`, the last one as long as what is
/// left.
pub open spec fn chunks_of(samples: Seq<Sample>, size: nat) -> Seq<Seq<Sample>>
    decreases samples.len(),
{
    if samples.len() == 0 || size == 0 {
        Seq::empty()
    } else if samples.len() <= size {
        seq![samples]
    } else {
        seq![samples.take(size as int)] + chunks_of(samples.skip(size as int), size)
    }
}

/// The chunks put together, in order.
pub open spec fn joined(chunks: Seq<Seq<Sample>>) -> Seq<Sample>
    decreases chunks.len(),
{
    if chunks.len() == 0 {
        Seq::empty()
    } else {
        chunks[0] + joined(chunks.drop_first())
    }
}

/// Cutting loses nothing: the chunks put together are the samples, no
/// chunk is empty, and none is longer than `size`.
pub proof fn lemma_chunks_cover_samples(samples: Seq<Sample>, size: nat)
    requires
        size > 0,
    ensures
        joined(chunks_of(samples, size)) == samples,
        forall|k: int|
            0 <= k < chunks_of(samples, size).len() ==> 0 < (#[trigger] chunks_of(
                samples,
                size,
            )[k]).len() <= size,
    decreases samples.len(),
{
    let chunks = chunks_of(samples, size);
    if samples.len() == 0 {
        assert(joined(chunks) =~= samples);
    } else if samples.len() <= size {
        assert(chunks =~= seq![samples]);
        assert(chunks[0] == samples);
        assert(chunks.drop_first().len() == 0);
        assert(joined(chunks.drop_first()) =~= Seq::<Sample>::empty());
        assert(joined(chunks) =~= samples);
    } else {
        let rest = chunks_of(samples.skip(size as int), size);
        lemma_chunks_cover_samples(samples.skip(size as int), size);
        assert(chunks =~= seq![samples.take(size as int)] + rest);
        assert(chunks.drop_first() =~= rest);
        assert(chunks[0] == samples.take(size as int));
        assert(samples.take(size as int) + samples.skip(size as int) =~= samples);
        assert forall|k: int| 0 <= k < chunks.len() implies 0 < (#[trigger] chunks[k]).len()
            <= size by {
            if k > 0 {
                assert(chunks[k] == rest[k - 1]);
            }
        }
    }
}

/// The number of samples in a chunk of the given duration.
pub open spec fn samples_per_chunk(format: AudioFormat, chunk_duration_secs: u32) -> nat {
    (format.sample_rate * format.channels * chunk_duration_secs) as nat
}

/// Appends `text` to `out`.
fn push_text(out: &mut Vec<char>, text: &str)
    ensures
        final(out)@ == old(out)@ + text@,
{
    let mut chars = chars_of(text);
    out.append(&mut chars);
}

/// The path of the chunk with the given number.
pub fn chunk_path_of(base_path: &str, number: u64) -> (path: String)
    ensures
        path@ == chunk_path(base_path@, number as nat),
{
    let base = chars_of(base_path);
    let ghost s = base@;
    let mut through: usize = base.len();
    proof {
        assert(s.take(through as int) =~= s);
    }
    while through > 0 && base[through - 1] != '.'
        invariant
            through <= base.len(),
            s == base@,
            length_through_last(s, '.') == length_through_last(s.take(through as int), '.'),
        decreases through,
    {
        proof {
            assert(s.take(through as int).drop_last() =~= s.take(through - 1));
        }
        through = through - 1;
    }
    proof {
        if through > 0 {
            assert(s.take(through as int).last() == '.');
        }
        assert(length_through_last(s, '.') == through);
    }
    let stem_len = if through > 0 {
        through - 1
    } else {
        base.len()
    };
    let mut out: Vec<char> = Vec::new();
    let mut i: usize = 0;
    while i < stem_len
        invariant
            i <= stem_len <= base.len(),
            out@ =~= base@.take(i as int),
        decreases stem_len - i,
    {
        out.push(base[i]);
        i = i + 1;
    }
    out.push('_');
    if number < 10 {
        out.push('0');
        out.push('0');
    } else if number < 100 {
        out.push('0');
    }
    let ghost before = out@;
    push_decimal(number, &mut out);
    proof {
        assert(out@ =~= base@.take(stem_len as int) + "_"@ + decimal_padded3(number as nat)) by {
            reveal_strlit("_");
            assert("_"@ =~= seq!['_']);
        }
    }
    if through > 0 {
        let ghost head = out@;
        let mut j: usize = stem_len;
        while j < base.len()
            invariant
                stem_len <= j <= base.len(),
                out@ =~= head + base@.subrange(stem_len as int, j as int),
            decreases base.len() - j,
        {
            out.push(base[j]);
            j = j + 1;
        }
        proof {
            assert(base@.subrange(stem_len as int, base.len() as int) =~= base@.skip(
                stem_len as int,
            ));
            assert(s.take(s.len() as int) =~= s);
        }
    } else {
        push_text(&mut out, ".wav");
        proof {
            assert(base@.take(base.len() as int) =~= base@);
        }
    }
    string_of(&out)
}

/// Cuts the buffer into chunks of `chunk_duration_secs` seconds and writes
/// each as a WAV container of its own. The containers are put into `out`, in
/// place of what it held, and their paths are returned: chunk `k`, counted
/// from 1, gets the path `chunk_path(base_path, k)`. A duration or a format
/// that gives chunks of no samples is an error, and so is a chunk that the
/// container cannot hold; on an error `out` is left as it was.
pub fn save_wav_chunks(
    buffer: &AudioBuffer,
    base_path: &str,
    chunk_duration_secs: u32,
    out: &mut Vec<Vec<u8>>,
) -> (r: Result<Vec<String>>)
    ensures
        ({
            let size = samples_per_chunk(buffer.format, chunk_duration_secs);
            let chunks = chunks_of(buffer.samples@, size);
            &&& r is Ok <==> size > 0 && forall|k: int|
                0 <= k < chunks.len() ==> wav_encodable(buffer.format, (#[trigger] chunks[k]).len())
            &&& r is Ok ==> r->Ok_0.len() == chunks.len() && final(out).len() == chunks.len()
                && forall|k: int|
                0 <= k < chunks.len() ==> (#[trigger] r->Ok_0[k])@ == chunk_path(
                    base_path@,
                    (k + 1) as nat,
                ) && final(out)[k]@ == wav_bytes(
                    buffer.format.channels,
                    buffer.format.sample_rate,
                    quantised(chunks[k]),
                ) && has_pcm16_layout(
                    final(out)[k]@,
                    buffer.format.channels,
                    buffer.format.sample_rate,
                    quantised(chunks[k]),
                )
            &&& r is Err ==> r->Err_0 is AudioCapture && *final(out) == *old(out)
        }),
{
    let ghost all = buffer.samples@;
    let ghost size = samples_per_chunk(buffer.format, chunk_duration_secs);
    let n = buffer.samples.len();
    let rate = buffer.format.sample_rate as u64;
    let channels = buffer.format.channels as u64;
    let secs = chunk_duration_secs as u64;
    assert(rate * channels <= 0x1_0000_0000 * 0x1_0000) by (nonlinear_arith)
        requires
            rate <= 0x1_0000_0000,
            channels <= 0x1_0000,
    ;
    let per_second: u64 = rate * channels;
    assert(per_second * secs == buffer.format.sample_rate * buffer.format.channels
        * chunk_duration_secs);
    let limit: usize = match per_second.checked_mul(secs) {
        Some(product) => if product > usize::MAX as u64 {
            usize::MAX
        } else {
            product as usize
        },
        None => usize::MAX,
    };
    assert(limit <= size);
    assert(size <= usize::MAX ==> limit == size);
    assert(size > usize::MAX ==> limit == usize::MAX);
    if limit == 0 {
        return Err(
            AppError::AudioCapture("Failed to create WAV file: a chunk would hold no samples".to_owned()),
        );
    }
    let mut paths: Vec<String> = Vec::new();
    let mut files: Vec<Vec<u8>> = Vec::new();
    let ghost mut done: Seq<Seq<Sample>> = Seq::empty();
    let mut start: usize = 0;
    proof {
        assert(all.skip(0) =~= all);
        assert(done + chunks_of(all.skip(0), size) =~= chunks_of(all, size));
    }
    while start < n
        invariant
            start <= n,
            n == buffer.samples.len(),
            all == buffer.samples@,
            size == samples_per_chunk(buffer.format, chunk_duration_secs),
            0 < limit <= size,
            size <= usize::MAX ==> limit == size,
            size > usize::MAX ==> limit == usize::MAX,
            chunks_of(all, size) == done + chunks_of(all.skip(start as int), size),
            paths.len() == done.len(),
            files.len() == done.len(),
            done.len() <= start,
            forall|k: int| 0 <= k < done.len() ==> wav_encodable(buffer.format, (#[trigger] done[k]).len()),
            forall|k: int|
                0 <= k < done.len() ==> (#[trigger] paths[k])@ == chunk_path(
                    base_path@,
                    (k + 1) as nat,
                ),
            forall|k: int|
                0 <= k < done.len() ==> (#[trigger] files[k])@ == wav_bytes(
                    buffer.format.channels,
                    buffer.format.sample_rate,
                    quantised(done[k]),
                ) && has_pcm16_layout(
                    files[k]@,
                    buffer.format.channels,
                    buffer.format.sample_rate,
                    quantised(done[k]),
                ),
        decreases n - start,
    {
        let remaining = n - start;
        let len = if remaining > limit {
            limit
        } else {
            remaining
        };
        let chunk = slice_subrange(buffer.samples.as_slice(), start, start + len);
        let ghost rest = all.skip(start as int);
        proof {
            assert(rest.len() == remaining);
            if remaining > limit {
                assert(limit == size);
                assert(chunk@ =~= rest.take(size as int));
                assert(rest.skip(size as int) =~= all.skip(start + len));
                assert(chunks_of(rest, size) == seq![chunk@] + chunks_of(
                    all.skip(start + len),
                    size,
                ));
            } else {
                assert(chunk@ =~= rest);
                assert(all.skip(start + len).len() == 0);
                assert(chunks_of(rest, size) =~= seq![chunk@] + chunks_of(
                    all.skip(start + len),
                    size,
                ));
            }
            assert(chunks_of(all, size) =~= done.push(chunk@) + chunks_of(
                all.skip(start + len),
                size,
            ));
            assert(chunks_of(all, size)[done.len() as int] == chunk@);
        }
        match encode(chunk, &buffer.format) {
            Ok(bytes) => {
                let number = paths.len() + 1;
                paths.push(chunk_path_of(base_path, number as u64));
                files.push(bytes);
            },
            Err(e) => {
                return Err(e);
            },
        }
        proof {
            done = done.push(chunk@);
        }
        start = start + len;
    }
    proof {
        assert(all.skip(n as int).len() == 0);
        assert(chunks_of(all, size) =~= done);
    }
    *out = files;
    Ok(paths)
}

/// The number of whole frames that a buffer holds, or `None` for a format
/// without channels.
pub fn frame_count(buffer: &AudioBuffer) -> (frames: Option<usize>)
    ensures
        match frames {
            Some(n) => buffer.format.channels > 0 && n == buffer.samples@.len() / (
            buffer.format.channels as nat),
            None => buffer.format.channels == 0,
        },
{
    if buffer.format.channels == 0 {
        None
    } else {
        Some(buffer.samples.len() / (buffer.format.channels as usize))
    }
}

} // verus!
