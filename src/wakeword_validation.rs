//! The retention buffer: an always-on rolling window of recent raw frames,
//! kept regardless of recording state so that a short clip around a
//! detection can be rebuilt and checked independently.

use vstd::prelude::*;

use crate::wav::{fits_in_wav, render_wav, valid_sample_rate, wav_of, WavError};

verus! {

/// How long a frame stays in the retention buffer, in nanoseconds (5 s).
pub const AUDIO_SAMPLE_RETENTION_PERIOD_NS: u64 = 5_000_000_000;

/// One retained frame as the contracts see it: its samples and its capture
/// instant (nanoseconds on a monotonic clock).
pub type RetainedView = (Seq<i16>, u64);

/// Whether an entry captured at `time` has fallen out of the window at `now`.
/// An instant later than `now` counts as no time elapsed.
pub open spec fn outdated(now: u64, time: u64) -> bool {
    now as int - time as int > AUDIO_SAMPLE_RETENTION_PERIOD_NS as int
}

/// Drops entries from the front while they are outdated at `now`.
pub open spec fn evict_outdated(s: Seq<RetainedView>, now: u64) -> Seq<RetainedView>
    decreases s.len(),
{
    if s.len() > 0 && outdated(now, s[0].1) {
        evict_outdated(s.drop_first(), now)
    } else {
        s
    }
}

/// The retained entries after `insert(now, frame)` on `s`.
pub open spec fn inserted(s: Seq<RetainedView>, now: u64, frame: Seq<i16>) -> Seq<RetainedView> {
    evict_outdated(s, now).push((frame, now))
}

/// Capture instants never decrease from front to back.
pub open spec fn in_capture_order(s: Seq<RetainedView>) -> bool {
    forall|i: int, j: int| 0 <= i <= j < s.len() ==> s[i].1 <= s[j].1
}

/// No entry is older than the window, measured from `now`.
pub open spec fn within_window(s: Seq<RetainedView>, now: u64) -> bool {
    forall|i: int| 0 <= i < s.len() ==> now as int - s[i].1 as int
        <= AUDIO_SAMPLE_RETENTION_PERIOD_NS as int
}

/// The retained samples, frame after frame, oldest first.
pub open spec fn flatten_frames(s: Seq<RetainedView>) -> Seq<i16>
    decreases s.len(),
{
    if s.len() == 0 {
        Seq::empty()
    } else {
        flatten_frames(s.drop_last()) + s.last().0
    }
}

/// `c` with an ASCII upper-case letter mapped to lower case.
pub open spec fn ascii_lower(c: char) -> char {
    if 'A' <= c <= 'Z' {
        ((c as u32) + 32) as char
    } else {
        c
    }
}

/// `s` with every ASCII upper-case letter mapped to lower case.
pub open spec fn ascii_lowercase(s: Seq<char>) -> Seq<char> {
    s.map_values(|c: char| ascii_lower(c))
}

/// `needle` occurs in `hay` as a contiguous run.
pub open spec fn contains_seq(hay: Seq<char>, needle: Seq<char>) -> bool {
    exists|i: int| 0 <= i && i + needle.len() <= hay.len() && #[trigger] hay.subrange(i, i + needle.len()) == needle
}

/// The prompt that tells the transcriber which wake word to expect.
pub open spec fn prompt_for(wakeword: Seq<char>) -> Seq<char> {
    "This sample might contain the wake word "@ + wakeword
}

#[derive(Debug)]
struct RetainedFrame {
    sample: Vec<i16>,
    time: u64,
}

/// FIFO of `(frame, capture instant)` pairs, oldest first.
#[derive(Debug)]
pub struct AudioBuffer {
    samples: std::collections::VecDeque<RetainedFrame>,
}

impl View for AudioBuffer {
    type V = Seq<RetainedView>;

    closed spec fn view(&self) -> Seq<RetainedView> {
        self.samples@.map_values(|f: RetainedFrame| (f.sample@, f.time))
    }
}

fn copy_frame(frame: &[i16]) -> (r: Vec<i16>)
    ensures
        r@ == frame@,
{
    let mut r: Vec<i16> = Vec::with_capacity(frame.len());
    let mut i: usize = 0;
    while i < frame.len()
        invariant
            i <= frame@.len(),
            r@ == frame@.subrange(0, i as int),
        decreases frame@.len() - i,
    {
        r.push(frame[i]);
        i = i + 1;
    }
    assert(r@ =~= frame@);
    r
}

impl AudioBuffer {
    /// An empty buffer.
    pub fn new() -> (r: AudioBuffer)
        ensures
            r@ == Seq::<RetainedView>::empty(),
    {
        let r = AudioBuffer { samples: std::collections::VecDeque::new() };
        assert(r@ =~= Seq::<RetainedView>::empty());
        r
    }

    /// Number of retained frames.
    pub fn len(&self) -> (r: usize)
        ensures
            r == self@.len(),
    {
        self.samples.len()
    }

    /// The samples of the `i`-th retained frame, oldest first.
    pub fn frame(&self, i: usize) -> (r: &Vec<i16>)
        requires
            i < self@.len(),
        ensures
            r@ == self@[i as int].0,
    {
        &self.samples[i].sample
    }

    /// The capture instant of the `i`-th retained frame.
    pub fn captured_at(&self, i: usize) -> (r: u64)
        requires
            i < self@.len(),
        ensures
            r == self@[i as int].1,
    {
        self.samples[i].time
    }

    /// Evicts outdated frames from the front, then appends `sample`
    /// captured at `now`.
    pub fn insert(&mut self, now: u64, sample: &[i16])
        ensures
            final(self)@ == inserted(old(self)@, now, sample@),
    {
        loop
            invariant
                evict_outdated(self@, now) == evict_outdated(old(self)@, now),
            ensures
                self@ == evict_outdated(old(self)@, now),
            decreases self@.len(),
        {
            if self.samples.len() == 0 {
                break;
            }
            let time = self.samples[0].time;
            if now >= time && now - time > AUDIO_SAMPLE_RETENTION_PERIOD_NS {
                let ghost before = self@;
                let _ = self.samples.pop_front();
                assert(self@ =~= before.drop_first());
            } else {
                break;
            }
        }
        let ghost before = self@;
        self.samples.push_back(RetainedFrame { sample: copy_frame(sample), time: now });
        assert(self@ =~= before.push((sample@, now)));
    }

    /// The retained frames as one 16-bit mono WAVE file at `sample_rate`.
    /// Does not change the buffer.
    pub fn contents_to_wav(&self, sample_rate: u32) -> (r: Result<Vec<u8>, WavError>)
        ensures
            !valid_sample_rate(sample_rate) ==> r == Err::<Vec<u8>, WavError>(
                WavError::InvalidSampleRate,
            ),
            valid_sample_rate(sample_rate) && !fits_in_wav(flatten_frames(self@).len()) ==> r
                == Err::<Vec<u8>, WavError>(WavError::TooManySamples),
            valid_sample_rate(sample_rate) && fits_in_wav(flatten_frames(self@).len()) ==> (r matches Ok(
                bytes,
            ) && bytes@ == wav_of(flatten_frames(self@), sample_rate)),
    {
        let mut all: Vec<i16> = Vec::new();
        let n = self.samples.len();
        let mut i: usize = 0;
        while i < n
            invariant
                n == self@.len(),
                i <= n,
                all@ == flatten_frames(self@.subrange(0, i as int)),
            decreases n - i,
        {
            let frame = &self.samples[i].sample;
            let mut j: usize = 0;
            let ghost start = all@;
            while j < frame.len()
                invariant
                    frame@ == self@[i as int].0,
                    j <= frame@.len(),
                    all@ == start + frame@.subrange(0, j as int),
                decreases frame@.len() - j,
            {
                all.push(frame[j]);
                j = j + 1;
                assert(all@ =~= start + frame@.subrange(0, j as int));
            }
            assert(self@.subrange(0, i + 1).drop_last() =~= self@.subrange(0, i as int));
            assert(frame@.subrange(0, j as int) =~= frame@);
            i = i + 1;
        }
        assert(self@.subrange(0, n as int) =~= self@);
        render_wav(&all, sample_rate)
    }
}

/// Retains recent audio so that a detection can be checked against an
/// independent transcription of the clip around it.
#[derive(Debug)]
pub struct WakeWordValidator {
    buffer: AudioBuffer,
    sample_rate: u32,
}

impl WakeWordValidator {
    pub fn new(sample_rate: u32) -> (r: WakeWordValidator)
        ensures
            r.retained() == Seq::<RetainedView>::empty(),
            r.sample_rate() == sample_rate,
    {
        WakeWordValidator { buffer: AudioBuffer::new(), sample_rate }
    }

    pub closed spec fn retained(&self) -> Seq<RetainedView> {
        self.buffer@
    }

    pub closed spec fn sample_rate(&self) -> u32 {
        self.sample_rate
    }

    pub fn insert(&mut self, now: u64, sample: &[i16])
        ensures
            final(self).retained() == inserted(old(self).retained(), now, sample@),
            final(self).sample_rate() == old(self).sample_rate(),
    {
        self.buffer.insert(now, sample);
    }

    /// The retained clip, rendered for transcription.
    pub fn clip(&self) -> (r: Result<Vec<u8>, WavError>)
        ensures
            !valid_sample_rate(self.sample_rate()) ==> r == Err::<Vec<u8>, WavError>(
                WavError::InvalidSampleRate,
            ),
            valid_sample_rate(self.sample_rate()) && !fits_in_wav(
                flatten_frames(self.retained()).len(),
            ) ==> r == Err::<Vec<u8>, WavError>(WavError::TooManySamples),
            valid_sample_rate(self.sample_rate()) && fits_in_wav(
                flatten_frames(self.retained()).len(),
            ) ==> (r matches Ok(bytes) && bytes@ == wav_of(
                flatten_frames(self.retained()),
                self.sample_rate(),
            )),
    {
        self.buffer.contents_to_wav(self.sample_rate)
    }

    /// The prompt sent along with the clip.
    pub fn prompt(wakeword: &str) -> (r: String)
        ensures
            r@ == prompt_for(wakeword@),
    {
        let mut r = String::from_str("This sample might contain the wake word ");
        r.append(wakeword);
        r
    }

    /// Whether a transcript of the clip confirms `wakeword`: the transcript,
    /// with ASCII letters lowered, contains it.
    pub fn transcript_confirms(transcript: &str, wakeword: &str) -> (r: bool)
        ensures
            r == contains_seq(ascii_lowercase(transcript@), wakeword@),
    {
        let hay = lowered_chars(transcript);
        let needle = chars_of(wakeword);
        contains_chars(&hay, &needle)
    }
}

fn chars_of(s: &str) -> (r: Vec<char>)
    ensures
        r@ == s@,
{
    let n = s.unicode_len();
    let mut r: Vec<char> = Vec::new();
    let mut i: usize = 0;
    while i < n
        invariant
            n == s@.len(),
            i <= n,
            r@ == s@.subrange(0, i as int),
        decreases n - i,
    {
        r.push(s.get_char(i));
        i = i + 1;
    }
    assert(r@ =~= s@);
    r
}

fn lower_char(c: char) -> (r: char)
    ensures
        r == ascii_lower(c),
{
    if c >= 'A' && c <= 'Z' {
        let b = (c as u8) + 32;
        assert((b as char) == ((c as u32) + 32) as char);
        b as char
    } else {
        c
    }
}

fn lowered_chars(s: &str) -> (r: Vec<char>)
    ensures
        r@ == ascii_lowercase(s@),
{
    let cs = chars_of(s);
    let mut r: Vec<char> = Vec::new();
    let mut i: usize = 0;
    while i < cs.len()
        invariant
            cs@ == s@,
            i <= cs@.len(),
            r@ == ascii_lowercase(s@).subrange(0, i as int),
        decreases cs@.len() - i,
    {
        r.push(lower_char(cs[i]));
        i = i + 1;
        assert(r@ =~= ascii_lowercase(s@).subrange(0, i as int));
    }
    assert(r@ =~= ascii_lowercase(s@));
    r
}

fn matches_at(hay: &Vec<char>, needle: &Vec<char>, i: usize) -> (r: bool)
    requires
        i + needle@.len() <= hay@.len(),
    ensures
        r == (hay@.subrange(i as int, i + needle@.len()) == needle@),
{
    let n = hay.len();
    let mut j: usize = 0;
    while j < needle.len()
        invariant
            n == hay@.len(),
            i + needle@.len() <= hay@.len(),
            j <= needle@.len(),
            hay@.subrange(i as int, i + j) == needle@.subrange(0, j as int),
        decreases needle@.len() - j,
    {
        if hay[i + j] != needle[j] {
            assert(hay@.subrange(i as int, i + needle@.len())[j as int] != needle@[j as int]);
            return false;
        }
        j = j + 1;
        assert(hay@.subrange(i as int, i + j) =~= needle@.subrange(0, j as int));
    }
    assert(hay@.subrange(i as int, i + needle@.len()) =~= needle@);
    true
}

fn contains_chars(hay: &Vec<char>, needle: &Vec<char>) -> (r: bool)
    ensures
        r == contains_seq(hay@, needle@),
{
    if needle.len() > hay.len() {
        return false;
    }
    let last = hay.len() - needle.len();
    let mut i: usize = 0;
    while i <= last
        invariant
            last + needle@.len() == hay@.len(),
            forall|k: int| 0 <= k < i ==> #[trigger] hay@.subrange(k, k + needle@.len()) != needle@,
        decreases last + 1 - i,
    {
        if matches_at(hay, needle, i) {
            return true;
        }
        if i == last {
            assert(forall|k: int| 0 <= k <= last ==> #[trigger] hay@.subrange(k, k + needle@.len()) != needle@);
            return false;
        }
        i = i + 1;
    }
    false
}

} // verus!
