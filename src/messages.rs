//! Values that cross the boundary between the listener and its consumers.

use vstd::prelude::*;

use crate::wav::{fits_in_wav, render_wav, valid_sample_rate, wav_of, WavError};

verus! {

/// A wall-clock instant: whole seconds since the Unix epoch and the
/// nanoseconds past that second.
#[derive(Clone, Copy, Debug, PartialEq, Eq, Structural)]
pub struct Timestamp {
    pub seconds: i64,
    pub nanos: u32,
}

/// Why a recording session ended.
#[derive(Clone, Copy, Debug, PartialEq, Eq, Structural)]
pub enum DetectionEndReason {
    Finished,
    Dismissed,
    PrivacyModeActivated,
    /// Validation using Whisper doesn't suggest that detection was correct
    ValidationFailed,
}

/// Control message that switches privacy mode on or off.
#[derive(Clone, Copy, Debug, PartialEq, Eq, Structural)]
pub struct PrivacyModeCommand {
    pub privacy_mode: bool,
}

/// Voice-activity estimate for one frame.
///
/// The probability is carried as the bit pattern of the IEEE-754
/// single-precision value that the estimator produced, so that it passes
/// through the listener unchanged.
#[derive(Clone, Copy, Debug, PartialEq, Eq, Structural)]
pub struct VoiceProbability {
    /// Bits of a probability between 0.0 and 1.0.
    pub probability_bits: u32,
    pub timestamp: Timestamp,
    pub time_since_last_human_ms: u64,
    pub currently_recording: bool,
}

impl VoiceProbability {
    pub fn new(
        probability_bits: u32,
        timestamp: Timestamp,
        time_since_last_human_ms: u64,
        currently_recording: bool,
    ) -> (r: VoiceProbability)
        ensures
            r == (VoiceProbability {
                probability_bits,
                timestamp,
                time_since_last_human_ms,
                currently_recording,
            }),
    {
        VoiceProbability { probability_bits, timestamp, time_since_last_human_ms, currently_recording }
    }
}

/// A wake word and the instant at which it was heard.
#[derive(Clone, Debug)]
pub struct WakeWordDetection {
    pub wake_word: String,
    pub timestamp: Timestamp,
}

/// What the contracts see of a [`WakeWordDetection`].
pub struct DetectionView {
    pub wake_word: Seq<char>,
    pub timestamp: Timestamp,
}

impl View for WakeWordDetection {
    type V = DetectionView;

    open spec fn view(&self) -> DetectionView {
        DetectionView { wake_word: self.wake_word@, timestamp: self.timestamp }
    }
}

impl WakeWordDetection {
    pub fn new(wake_word: String, timestamp: Timestamp) -> (r: WakeWordDetection)
        ensures
            r@ == (DetectionView { wake_word: wake_word@, timestamp }),
    {
        WakeWordDetection { wake_word, timestamp }
    }
}

/// The end of a recording session: the word that opened it, when it was
/// opened, and why it closed.
#[derive(Clone, Debug)]
pub struct WakeWordDetectionEnd {
    pub wake_word: String,
    pub timestamp: Timestamp,
    pub reason: DetectionEndReason,
}

/// What the contracts see of a [`WakeWordDetectionEnd`].
pub struct DetectionEndView {
    pub wake_word: Seq<char>,
    pub timestamp: Timestamp,
    pub reason: DetectionEndReason,
}

impl View for WakeWordDetectionEnd {
    type V = DetectionEndView;

    open spec fn view(&self) -> DetectionEndView {
        DetectionEndView { wake_word: self.wake_word@, timestamp: self.timestamp, reason: self.reason }
    }
}

impl WakeWordDetectionEnd {
    pub fn new(wake_word: String, timestamp: Timestamp, reason: DetectionEndReason) -> (r:
        WakeWordDetectionEnd)
        ensures
            r@ == (DetectionEndView { wake_word: wake_word@, timestamp, reason }),
    {
        WakeWordDetectionEnd { wake_word, timestamp, reason }
    }
}

/// A completed recording, handed to the transcriber by ownership.
#[derive(Clone, Debug)]
pub struct AudioSample {
    pub data: Vec<i16>,
    pub wake_word: String,
    pub sample_rate: u32,
    pub timestamp: Timestamp,
}

/// What the contracts see of an [`AudioSample`].
pub struct SampleView {
    pub data: Seq<i16>,
    pub wake_word: Seq<char>,
    pub sample_rate: u32,
    pub timestamp: Timestamp,
}

impl View for AudioSample {
    type V = SampleView;

    open spec fn view(&self) -> SampleView {
        SampleView {
            data: self.data@,
            wake_word: self.wake_word@,
            sample_rate: self.sample_rate,
            timestamp: self.timestamp,
        }
    }
}

impl AudioSample {
    /// The recording as a 16-bit mono WAVE file.
    pub fn to_vaw_file(&self) -> (r: Result<Vec<u8>, WavError>)
        ensures
            !valid_sample_rate(self.sample_rate) ==> r == Err::<Vec<u8>, WavError>(
                WavError::InvalidSampleRate,
            ),
            valid_sample_rate(self.sample_rate) && !fits_in_wav(self.data@.len()) ==> r == Err::<
                Vec<u8>,
                WavError,
            >(WavError::TooManySamples),
            valid_sample_rate(self.sample_rate) && fits_in_wav(self.data@.len()) ==> (r matches Ok(
                bytes,
            ) && bytes@ == wav_of(self.data@, self.sample_rate)),
    {
        render_wav(&self.data, self.sample_rate)
    }
}

/// The transcript of a completed recording.
#[derive(Clone, Debug)]
pub struct AudioTranscript {
    pub wake_word: String,
    pub timestamp: Timestamp,
    pub transcript: String,
}

/// Width of the voice-activity bar, in characters.
pub const VOICE_BAR_WIDTH: usize = 30;

/// Silence, in milliseconds, after which the pretty print stops flagging
/// speech as detected.
pub const SPEECH_FLAG_TIMEOUT_MS: u64 = 1500;

/// `s` repeated `n` times.
pub open spec fn repeat(s: Seq<char>, n: nat) -> Seq<char>
    decreases n,
{
    if n == 0 {
        Seq::empty()
    } else {
        repeat(s, (n - 1) as nat) + s
    }
}

/// The bar and flags of the voice-activity pretty print: `bar_length` full
/// blocks padded with spaces to the bar's width, then `D` while speech was
/// heard within the timeout and `R` while recording.
pub open spec fn voice_bar_text(
    bar_length: nat,
    time_since_last_human_ms: u64,
    currently_recording: bool,
) -> Seq<char> {
    "|"@ + repeat("\u{2588}"@, bar_length) + repeat(" "@, (VOICE_BAR_WIDTH - bar_length) as nat)
        + "| "@ + (if time_since_last_human_ms > SPEECH_FLAG_TIMEOUT_MS {
        " "@
    } else {
        "D"@
    }) + " "@ + (if currently_recording {
        "R"@
    } else {
        " "@
    })
}

fn append_repeated(out: &mut String, s: &str, n: usize)
    ensures
        final(out)@ == old(out)@ + repeat(s@, n as nat),
{
    let mut i: usize = 0;
    while i < n
        invariant
            i <= n,
            out@ == old(out)@ + repeat(s@, i as nat),
        decreases n - i,
    {
        out.append(s);
        i = i + 1;
        assert(out@ =~= old(out)@ + repeat(s@, i as nat));
    }
}

impl VoiceProbability {
    /// The bar and flags of this estimate's pretty print, for a bar of
    /// `bar_length` blocks.
    pub fn bar_text(&self, bar_length: usize) -> (r: String)
        requires
            bar_length <= VOICE_BAR_WIDTH,
        ensures
            r@ == voice_bar_text(
                bar_length as nat,
                self.time_since_last_human_ms,
                self.currently_recording,
            ),
    {
        let mut r = String::from_str("|");
        append_repeated(&mut r, "\u{2588}", bar_length);
        append_repeated(&mut r, " ", VOICE_BAR_WIDTH - bar_length);
        r.append("| ");
        if self.time_since_last_human_ms > SPEECH_FLAG_TIMEOUT_MS {
            r.append(" ");
        } else {
            r.append("D");
        }
        r.append(" ");
        if self.currently_recording {
            r.append("R");
        } else {
            r.append(" ");
        }
        r
    }
}

} // verus!
