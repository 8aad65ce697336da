//! Rendering 16-bit mono PCM samples as a WAVE file in memory.

use vstd::prelude::*;

verus! {

/// Channels of every clip this library renders.
pub const WAV_CHANNELS: u16 = 1;

/// Bits per sample of every clip this library renders.
pub const WAV_BITS_PER_SAMPLE: u16 = 16;

/// `x` as `n` little-endian bytes (for `0 <= x < 256^n`).
pub open spec fn le_bytes(x: int, n: nat) -> Seq<u8>
    decreases n,
{
    if n == 0 {
        Seq::empty()
    } else {
        seq![(x % 256) as u8] + le_bytes(x / 256, (n - 1) as nat)
    }
}

/// A sample as two little-endian two's-complement bytes.
pub open spec fn sample_bytes(s: i16) -> Seq<u8> {
    le_bytes(if s < 0 { s + 65536 } else { s as int }, 2)
}

/// The samples' bytes, one after another.
pub open spec fn pcm16_bytes(samples: Seq<i16>) -> Seq<u8>
    decreases samples.len(),
{
    if samples.len() == 0 {
        Seq::empty()
    } else {
        pcm16_bytes(samples.drop_last()) + sample_bytes(samples.last())
    }
}

/// The 44-byte header of a 16-bit mono PCM WAVE file holding `n` samples
/// at `sample_rate`: the RIFF chunk, the 16-byte `fmt ` chunk (format 1,
/// one channel, the rate, the byte rate, block align 2, 16 bits) and the
/// `data` chunk's header.
pub open spec fn wav_header(n: nat, sample_rate: u32) -> Seq<u8> {
    seq![0x52u8, 0x49, 0x46, 0x46] + le_bytes(36 + 2 * n as int, 4) + seq![0x57u8, 0x41, 0x56, 0x45]
        + seq![0x66u8, 0x6d, 0x74, 0x20] + le_bytes(16, 4) + le_bytes(1, 2) + le_bytes(1, 2)
        + le_bytes(sample_rate as int, 4) + le_bytes(2 * sample_rate as int, 4) + le_bytes(2, 2)
        + le_bytes(16, 2) + seq![0x64u8, 0x61, 0x74, 0x61] + le_bytes(2 * n as int, 4)
}

/// The 16-bit mono PCM WAVE file of `samples` at `sample_rate`.
pub open spec fn wav_of(samples: Seq<i16>, sample_rate: u32) -> Seq<u8> {
    wav_header(samples.len(), sample_rate) + pcm16_bytes(samples)
}

/// Sample rates that the encoder accepts: hound divides by the rate and
/// multiplies it by the two bytes of a sample in `u32`.
pub open spec fn valid_sample_rate(sample_rate: u32) -> bool {
    0 < sample_rate <= 0x7fff_ffff
}

/// Sample counts whose RIFF size field fits in `u32`.
pub open spec fn fits_in_wav(n: nat) -> bool {
    2 * n + 36 <= u32::MAX
}

/// Why a clip could not be rendered.
#[derive(Clone, Copy, Debug, PartialEq, Eq, Structural)]
pub enum WavError {
    /// The sample rate is zero or too large for the header.
    InvalidSampleRate,
    /// The data chunk would not fit in a WAVE file.
    TooManySamples,
}

/// Relies on hound 3.5's `WavWriter::new`, `write_sample` and `finalize` over
/// an in-memory `Cursor`: for 16-bit integer samples on one channel the
/// writer emits the PCMWAVEFORMAT header (`write_headers`,
/// `write_pcmwaveformat`, sizes filled in by `update_header`) followed by
/// each sample as little-endian `i16`. Writes and seeks on a `Vec` cursor
/// cannot fail, 16 bits are supported, and one channel never leaves a
/// sample unfinished, so no step returns an error. Its `u32` size
/// arithmetic and its division by the sample rate are why the rate and the
/// length are bounded.
#[verifier::external_body]
fn encode_wav(samples: &Vec<i16>, channels: u16, sample_rate: u32, bits_per_sample: u16) -> (r:
    Option<Vec<u8>>)
    requires
        channels == WAV_CHANNELS,
        bits_per_sample == WAV_BITS_PER_SAMPLE,
        valid_sample_rate(sample_rate),
        fits_in_wav(samples@.len()),
    ensures
        r is Some,
        r->Some_0@ == wav_of(samples@, sample_rate),
{
    let spec = hound::WavSpec {
        channels,
        sample_rate,
        bits_per_sample,
        sample_format: hound::SampleFormat::Int,
    };
    let mut bytes = Vec::new();
    let mut writer = hound::WavWriter::new(std::io::Cursor::new(&mut bytes), spec).ok()?;
    for sample in samples {
        writer.write_sample(*sample).ok()?;
    }
    writer.finalize().ok()?;
    Some(bytes)
}

/// Renders `samples` as a 16-bit mono WAVE file at `sample_rate`.
pub fn render_wav(samples: &Vec<i16>, sample_rate: u32) -> (r: Result<Vec<u8>, WavError>)
    ensures
        !valid_sample_rate(sample_rate) ==> r == Err::<Vec<u8>, WavError>(
            WavError::InvalidSampleRate,
        ),
        valid_sample_rate(sample_rate) && !fits_in_wav(samples@.len()) ==> r == Err::<
            Vec<u8>,
            WavError,
        >(WavError::TooManySamples),
        valid_sample_rate(sample_rate) && fits_in_wav(samples@.len()) ==> (r matches Ok(bytes)
            && bytes@ == wav_of(samples@, sample_rate)),
{
    if sample_rate == 0 || sample_rate > 0x7fff_ffff {
        return Err(WavError::InvalidSampleRate);
    }
    if samples.len() > (0xffff_ffffusize - 36) / 2 {
        return Err(WavError::TooManySamples);
    }
    match encode_wav(samples, WAV_CHANNELS, sample_rate, WAV_BITS_PER_SAMPLE) {
        Some(bytes) => Ok(bytes),
        // never taken: the encoder cannot fail on these arguments
        None => Err(WavError::TooManySamples),
    }
}

} // verus!
