//! The recording state machine. It handles one captured frame at a time and
//! decides whether to open, extend or close a recording session.
//!
//! A frame goes through three phases, so that the classifiers run only where
//! their answer is needed:
//! 1. [`Listener::begin_frame`] retains the frame and applies privacy mode;
//! 2. [`Listener::on_wake_word`] takes the wake-word classifier's answer;
//! 3. [`Listener::on_voice_probability`] takes the voice-activity estimate,
//!    extends the session and closes it after a silence timeout.
//!
//! All timing uses one monotonic clock, in nanoseconds: the silence timeout,
//! the initial grace period and the retention window. Wall-clock timestamps
//! are carried into events unchanged and never compared.

use vstd::prelude::*;

use crate::messages::{
    AudioSample, DetectionEndReason, DetectionEndView, DetectionView, SampleView, Timestamp,
    VoiceProbability, WakeWordDetection, WakeWordDetectionEnd,
};
use crate::respeaker::IndicatorMode;
use crate::wakeword_validation::{inserted, AudioBuffer, RetainedView};

verus! {

/// Silence after which an active session is closed (1.5 s).
pub const HUMAN_SPEECH_DETECTION_TIMEOUT_NS: u64 = 1_500_000_000;

/// Time after a session opens during which it is never closed for silence
/// (4 s).
pub const RECORDING_INITIAL_TIMEOUT_NS: u64 = 4_000_000_000;

/// Bits of the single-precision value 0.5, the voice probability above which
/// a frame counts as human speech.
pub const HUMAN_SPEECH_DETECTION_PROBABILITY_THRESHOLD_BITS: u32 = 0x3f00_0000;

/// Bits of single-precision positive infinity.
pub const POSITIVE_INFINITY_BITS: u32 = 0x7f80_0000;

/// Nanoseconds in a millisecond.
pub const NANOS_PER_MILLI: u64 = 1_000_000;

/// Whether the single-precision value with bits `bits` exceeds 0.5.
///
/// For values whose sign bit is clear, IEEE-754 orders numbers as their bit
/// patterns; patterns above that of infinity are NaN, which compares false,
/// and patterns with the sign bit set are at most zero.
pub open spec fn exceeds_speech_threshold(bits: u32) -> bool {
    HUMAN_SPEECH_DETECTION_PROBABILITY_THRESHOLD_BITS < bits <= POSITIVE_INFINITY_BITS
}

/// Time from `since` to `now`; zero when `since` is later.
pub open spec fn elapsed(now: u64, since: u64) -> u64 {
    if now >= since {
        (now - since) as u64
    } else {
        0
    }
}

/// The open session as the contracts see it.
pub struct SessionView {
    pub wake_word: Seq<char>,
    /// Wall-clock instant of the trigger, reported in events.
    pub timestamp: Timestamp,
    /// Monotonic instant of the trigger, for the grace period.
    pub started_at: u64,
}

/// A lifecycle event as the contracts see it.
pub enum EventView {
    VoiceProbability(VoiceProbability),
    RecordingStarted(DetectionView),
    WakeWordDetected(DetectionView),
    RecordingEnd(DetectionEndView),
}

/// The listener's state as the contracts see it.
pub struct ListenerView {
    /// Keyword names by classifier index.
    pub keywords: Seq<Seq<char>>,
    pub dismiss_keyword: Option<Seq<char>>,
    pub sample_rate: u32,
    /// Monotonic instant of the last human speech or fresh wake word.
    pub last_human_speech: u64,
    /// Samples of the open session.
    pub audio: Seq<i16>,
    pub session: Option<SessionView>,
    /// The retention buffer.
    pub retained: Seq<RetainedView>,
}

/// What one frame produced, as the contracts see it.
pub struct OutputView {
    pub events: Seq<EventView>,
    pub sample: Option<SampleView>,
    pub indicator: Seq<IndicatorMode>,
}

/// A frame between phases, as the contracts see it.
pub struct PendingView {
    pub frame: Seq<i16>,
    pub now: u64,
    pub timestamp: Timestamp,
    pub output: OutputView,
}

pub open spec fn no_output() -> OutputView {
    OutputView { events: Seq::empty(), sample: None, indicator: Seq::empty() }
}

pub open spec fn end_event(s: SessionView, reason: DetectionEndReason) -> EventView {
    EventView::RecordingEnd(
        DetectionEndView { wake_word: s.wake_word, timestamp: s.timestamp, reason },
    )
}

/// A session that is still inside its initial grace period at `now`.
pub open spec fn in_grace_period(s: SessionView, now: u64) -> bool {
    elapsed(now, s.started_at) < RECORDING_INITIAL_TIMEOUT_NS
}

/// Cancels the open session, if any, for `reason`: its audio is dropped and
/// an end event is emitted; the indicator is driven off in any case.
pub open spec fn cancel(v: ListenerView, out: OutputView, reason: DetectionEndReason) -> (
    ListenerView,
    OutputView,
) {
    let events = match v.session {
        Some(s) => out.events.push(end_event(s, reason)),
        None => out.events,
    };
    (
        ListenerView { session: None, audio: Seq::empty(), ..v },
        OutputView { events, indicator: out.indicator.push(IndicatorMode::Off), ..out },
    )
}

/// Phase one: the frame is retained; in privacy mode the open session is
/// cancelled and the frame goes no further.
pub open spec fn begin_step(
    v: ListenerView,
    frame: Seq<i16>,
    now: u64,
    timestamp: Timestamp,
    privacy: bool,
) -> (ListenerView, PendingView) {
    let v1 = ListenerView { retained: inserted(v.retained, now, frame), ..v };
    if privacy {
        let (v2, out) = cancel(v1, no_output(), DetectionEndReason::PrivacyModeActivated);
        (v2, PendingView { frame, now, timestamp, output: out })
    } else {
        (v1, PendingView { frame, now, timestamp, output: no_output() })
    }
}

/// The keyword that the classifier's answer names: `Some(None)` for no
/// match (a negative index), `None` for an index outside the table.
pub open spec fn keyword_at(keywords: Seq<Seq<char>>, index: i32) -> Option<Option<Seq<char>>> {
    if index < 0 {
        Some(None)
    } else if index < keywords.len() {
        Some(Some(keywords[index as int]))
    } else {
        None
    }
}

/// Phase two, given the matched keyword (if any). The result's flag tells
/// whether the frame is done: a dismiss keyword ends its processing.
pub open spec fn wake_word_step(v: ListenerView, p: PendingView, word: Option<Seq<char>>) -> (
    ListenerView,
    PendingView,
    bool,
) {
    match word {
        None => (v, p, false),
        Some(w) => {
            let detected = EventView::WakeWordDetected(
                DetectionView { wake_word: w, timestamp: p.timestamp },
            );
            if v.dismiss_keyword == Some(w) {
                let (v1, out) = cancel(v, p.output, DetectionEndReason::Dismissed);
                let out1 = OutputView { events: out.events.push(detected), ..out };
                (v1, PendingView { output: out1, ..p }, true)
            } else {
                let events = p.output.events.push(detected);
                if v.session is None {
                    let s = SessionView { wake_word: w, timestamp: p.timestamp, started_at: p.now };
                    let started = EventView::RecordingStarted(
                        DetectionView { wake_word: w, timestamp: p.timestamp },
                    );
                    let out = OutputView {
                        events: events.push(started),
                        indicator: p.output.indicator.push(IndicatorMode::Listen),
                        ..p.output
                    };
                    (
                        ListenerView { session: Some(s), last_human_speech: p.now, ..v },
                        PendingView { output: out, ..p },
                        false,
                    )
                } else {
                    (
                        ListenerView { last_human_speech: p.now, ..v },
                        PendingView { output: OutputView { events, ..p.output }, ..p },
                        false,
                    )
                }
            }
        },
    }
}

/// Phase three, given the voice probability's bits.
pub open spec fn voice_step(v: ListenerView, p: PendingView, bits: u32) -> (
    ListenerView,
    OutputView,
) {
    let probability = EventView::VoiceProbability(
        VoiceProbability {
            probability_bits: bits,
            timestamp: p.timestamp,
            time_since_last_human_ms: (elapsed(p.now, v.last_human_speech) / NANOS_PER_MILLI) as u64,
            currently_recording: v.session is Some,
        },
    );
    let out = OutputView { events: p.output.events.push(probability), ..p.output };
    let last = if exceeds_speech_threshold(bits) {
        p.now
    } else {
        v.last_human_speech
    };
    let audio = if v.session is Some {
        v.audio + p.frame
    } else {
        v.audio
    };
    let v1 = ListenerView { last_human_speech: last, audio, ..v };
    match v.session {
        Some(s) => {
            let keep = elapsed(p.now, last) < HUMAN_SPEECH_DETECTION_TIMEOUT_NS || in_grace_period(
                s,
                p.now,
            );
            if keep {
                (v1, out)
            } else {
                let sample = SampleView {
                    data: audio,
                    wake_word: s.wake_word,
                    sample_rate: v.sample_rate,
                    timestamp: s.timestamp,
                };
                (
                    ListenerView { session: None, audio: Seq::empty(), ..v1 },
                    OutputView {
                        events: out.events.push(end_event(s, DetectionEndReason::Finished)),
                        sample: Some(sample),
                        indicator: out.indicator.push(IndicatorMode::Off),
                    },
                )
            }
        },
        None => (v1, out),
    }
}

/// One whole frame: `None` when the classifier named an index outside the
/// keyword table.
pub open spec fn frame_step(
    v: ListenerView,
    frame: Seq<i16>,
    now: u64,
    timestamp: Timestamp,
    privacy: bool,
    keyword_index: i32,
    probability_bits: u32,
) -> Option<(ListenerView, OutputView)> {
    let (v1, first) = begin_step(v, frame, now, timestamp, privacy);
    if privacy {
        Some((v1, first.output))
    } else {
        match keyword_at(v1.keywords, keyword_index) {
            None => None,
            Some(word) => {
                let (v2, second, done) = wake_word_step(v1, first, word);
                if done {
                    Some((v2, second.output))
                } else {
                    Some(voice_step(v2, second, probability_bits))
                }
            },
        }
    }
}

/// A session's audio exists only while the session is open.
pub open spec fn valid_state(v: ListenerView) -> bool {
    v.session is None ==> v.audio.len() == 0
}

/// A lifecycle event, sent to the event consumer.
#[derive(Clone, Debug)]
pub enum AudioDetectorData {
    VoiceProbability(VoiceProbability),
    RecordingStarted(WakeWordDetection),
    WakeWordDetected(WakeWordDetection),
    RecordingEnd(WakeWordDetectionEnd),
}

impl View for AudioDetectorData {
    type V = EventView;

    open spec fn view(&self) -> EventView {
        match self {
            AudioDetectorData::VoiceProbability(p) => EventView::VoiceProbability(*p),
            AudioDetectorData::RecordingStarted(d) => EventView::RecordingStarted(d@),
            AudioDetectorData::WakeWordDetected(d) => EventView::WakeWordDetected(d@),
            AudioDetectorData::RecordingEnd(e) => EventView::RecordingEnd(e@),
        }
    }
}

/// The open session: what triggered it and when.
#[derive(Debug)]
pub struct ActiveRecording {
    recording_triggering_timestamp: Timestamp,
    recording_triggering_wake_word: String,
    recording_triggering_instant: u64,
}

impl View for ActiveRecording {
    type V = SessionView;

    closed spec fn view(&self) -> SessionView {
        SessionView {
            wake_word: self.recording_triggering_wake_word@,
            timestamp: self.recording_triggering_timestamp,
            started_at: self.recording_triggering_instant,
        }
    }
}

impl ActiveRecording {
    fn new(
        recording_triggering_timestamp: Timestamp,
        recording_triggering_wake_word: String,
        recording_triggering_instant: u64,
    ) -> (r: ActiveRecording)
        ensures
            r@ == (SessionView {
                wake_word: recording_triggering_wake_word@,
                timestamp: recording_triggering_timestamp,
                started_at: recording_triggering_instant,
            }),
    {
        ActiveRecording {
            recording_triggering_timestamp,
            recording_triggering_wake_word,
            recording_triggering_instant,
        }
    }
}

/// Whether a session is open.
#[derive(Debug)]
pub enum RecordingStatus {
    NotActive,
    Active(ActiveRecording),
}

impl View for RecordingStatus {
    type V = Option<SessionView>;

    open spec fn view(&self) -> Option<SessionView> {
        match self {
            RecordingStatus::NotActive => None,
            RecordingStatus::Active(a) => Some(a@),
        }
    }
}

impl RecordingStatus {
    pub fn active(&self) -> (r: bool)
        ensures
            r == self@ is Some,
    {
        match self {
            RecordingStatus::Active(_) => true,
            RecordingStatus::NotActive => false,
        }
    }

    /// Closes the session, handing back what it was.
    pub fn stop(&mut self) -> (r: RecordingStatus)
        ensures
            final(self)@ is None,
            r@ == old(self)@,
    {
        let mut tmp = RecordingStatus::NotActive;
        std::mem::swap(self, &mut tmp);
        tmp
    }

    /// For an open session, whether it is still inside its initial grace
    /// period at `now`.
    pub fn is_in_recording_initial_timeout(&self, now: u64) -> (r: Option<bool>)
        ensures
            r == match self@ {
                Some(s) => Some(in_grace_period(s, now)),
                None => None::<bool>,
            },
    {
        match self {
            RecordingStatus::Active(status) => {
                let since = elapsed_ns(now, status.recording_triggering_instant);
                Some(since < RECORDING_INITIAL_TIMEOUT_NS)
            },
            RecordingStatus::NotActive => None,
        }
    }
}

fn elapsed_ns(now: u64, since: u64) -> (r: u64)
    ensures
        r == elapsed(now, since),
{
    if now >= since {
        now - since
    } else {
        0
    }
}

/// What one frame produced: lifecycle events in order, at most one
/// completed sample, and the indicator modes asked for, in order.
#[derive(Debug)]
pub struct FrameOutput {
    pub events: Vec<AudioDetectorData>,
    pub sample: Option<AudioSample>,
    pub indicator: Vec<IndicatorMode>,
}

pub open spec fn events_view(events: Seq<AudioDetectorData>) -> Seq<EventView> {
    events.map_values(|e: AudioDetectorData| e@)
}

impl View for FrameOutput {
    type V = OutputView;

    open spec fn view(&self) -> OutputView {
        OutputView {
            events: events_view(self.events@),
            sample: match self.sample {
                Some(s) => Some(s@),
                None => None,
            },
            indicator: self.indicator@,
        }
    }
}

impl FrameOutput {
    fn new() -> (r: FrameOutput)
        ensures
            r@ == no_output(),
    {
        let r = FrameOutput { events: Vec::new(), sample: None, indicator: Vec::new() };
        assert(r@.events =~= Seq::<EventView>::empty());
        r
    }

    fn push_event(&mut self, e: AudioDetectorData)
        ensures
            final(self)@ == (OutputView { events: old(self)@.events.push(e@), ..old(self)@ }),
    {
        self.events.push(e);
        assert(events_view(self.events@) =~= events_view(old(self).events@).push(e@));
    }

    fn push_indicator(&mut self, m: IndicatorMode)
        ensures
            final(self)@ == (OutputView {
                indicator: old(self)@.indicator.push(m),
                ..old(self)@
            }),
    {
        self.indicator.push(m);
    }
}

/// A frame between two phases: its samples, its capture instants and what
/// it has produced so far.
#[derive(Debug)]
pub struct PendingFrame {
    frame: Vec<i16>,
    now: u64,
    timestamp: Timestamp,
    output: FrameOutput,
}

impl View for PendingFrame {
    type V = PendingView;

    closed spec fn view(&self) -> PendingView {
        PendingView {
            frame: self.frame@,
            now: self.now,
            timestamp: self.timestamp,
            output: self.output@,
        }
    }
}

impl PendingFrame {
    /// The samples that the classifiers are to be run on.
    pub fn frame(&self) -> (r: &Vec<i16>)
        ensures
            r@ == self@.frame,
    {
        &self.frame
    }
}

/// After phase one: either the frame is done (privacy mode), or the
/// wake-word classifier is to be run on it.
#[derive(Debug)]
pub enum PrivacyCheck {
    Skipped(FrameOutput),
    Classify(PendingFrame),
}

/// After phase two: either the frame is done (dismiss keyword), or the
/// voice-activity estimator is to be run on it.
#[derive(Debug)]
pub enum WakeWordCheck {
    Dismissed(FrameOutput),
    EstimateVoice(PendingFrame),
}

/// Why a frame could not be processed.
#[derive(Clone, Copy, Debug, PartialEq, Eq, Structural)]
pub enum ListenerError {
    /// The wake-word classifier named an index outside the keyword table.
    UnknownKeywordIndex(i32),
}

pub open spec fn strings_view(s: Seq<String>) -> Seq<Seq<char>> {
    s.map_values(|k: String| k@)
}

pub open spec fn option_string_view(s: Option<String>) -> Option<Seq<char>> {
    match s {
        Some(k) => Some(k@),
        None => None,
    }
}

/// The recording state machine.
pub struct Listener {
    /// Keyword names by classifier index.
    selected_keywords: Vec<String>,
    /// Keyword used for dismiss events
    dismiss_keyword: Option<String>,
    sample_rate: u32,
    /// Privacy mode: while set, frames are retained and nothing else.
    privacy_mode_flag: std::sync::Arc<std::sync::atomic::AtomicBool>,
    last_human_speech_detected: u64,
    /// currently held audio samples
    audio_buffer: Vec<i16>,
    recording_status: RecordingStatus,
    /// wake word buffer
    wake_word_buffer: AudioBuffer,
}

impl View for Listener {
    type V = ListenerView;

    closed spec fn view(&self) -> ListenerView {
        ListenerView {
            keywords: strings_view(self.selected_keywords@),
            dismiss_keyword: option_string_view(self.dismiss_keyword),
            sample_rate: self.sample_rate,
            last_human_speech: self.last_human_speech_detected,
            audio: self.audio_buffer@,
            session: self.recording_status@,
            retained: self.wake_word_buffer@,
        }
    }
}

impl Listener {
    /// A listener with no open session, whose silence timer starts at `now`.
    pub fn new(
        selected_keywords: Vec<String>,
        dismiss_keyword: Option<String>,
        sample_rate: u32,
        privacy_mode_flag: std::sync::Arc<std::sync::atomic::AtomicBool>,
        now: u64,
    ) -> (r: Listener)
        ensures
            r@ == (ListenerView {
                keywords: strings_view(selected_keywords@),
                dismiss_keyword: option_string_view(dismiss_keyword),
                sample_rate,
                last_human_speech: now,
                audio: Seq::empty(),
                session: None,
                retained: Seq::empty(),
            }),
            valid_state(r@),
    {
        Listener {
            selected_keywords,
            dismiss_keyword,
            sample_rate,
            privacy_mode_flag,
            last_human_speech_detected: now,
            audio_buffer: Vec::new(),
            recording_status: RecordingStatus::NotActive,
            wake_word_buffer: AudioBuffer::new(),
        }
    }

    /// The retention buffer.
    pub fn wake_word_buffer(&self) -> (r: &AudioBuffer)
        ensures
            r@ == self@.retained,
    {
        &self.wake_word_buffer
    }

    /// Whether a session is open.
    pub fn is_recording(&self) -> (r: bool)
        ensures
            r == self@.session is Some,
    {
        self.recording_status.active()
    }

    /// Samples of the open session so far.
    pub fn recorded_audio(&self) -> (r: &Vec<i16>)
        ensures
            r@ == self@.audio,
    {
        &self.audio_buffer
    }

    fn cancel_recording(&mut self, out: &mut FrameOutput, reason: DetectionEndReason)
        ensures
            (final(self)@, final(out)@) == cancel(old(self)@, old(out)@, reason),
    {
        if let RecordingStatus::Active(recording_status) = self.recording_status.stop() {
            let event = AudioDetectorData::RecordingEnd(
                WakeWordDetectionEnd::new(
                    recording_status.recording_triggering_wake_word,
                    recording_status.recording_triggering_timestamp,
                    reason,
                ),
            );
            out.push_event(event);
        }
        self.audio_buffer.clear();
        out.push_indicator(IndicatorMode::Off);
    }

    /// Step one of a frame: the frame goes into the retention buffer,
    /// whatever the recording state.
    fn retain_frame(&mut self, now: u64, frame: &Vec<i16>)
        ensures
            final(self)@ == (ListenerView {
                retained: inserted(old(self)@.retained, now, frame@),
                ..old(self)@
            }),
    {
        self.wake_word_buffer.insert(now, frame.as_slice());
    }

    /// Privacy mode, with the flag given: when it is set, the open session
    /// (if any) is cancelled and the frame is done; when it is not, nothing
    /// changes and the frame goes on to the wake-word classifier.
    pub fn check_privacy_mode(
        &mut self,
        frame: Vec<i16>,
        now: u64,
        timestamp: Timestamp,
        privacy: bool,
    ) -> (r: PrivacyCheck)
        ensures
            privacy ==> ({
                let (v, out) = cancel(old(self)@, no_output(), DetectionEndReason::PrivacyModeActivated);
                &&& final(self)@ == v
                &&& r matches PrivacyCheck::Skipped(o) && o@ == out
            }),
            !privacy ==> final(self)@ == old(self)@ && (r matches PrivacyCheck::Classify(p) && p@
                == (PendingView { frame: frame@, now, timestamp, output: no_output() })),
    {
        let mut output = FrameOutput::new();
        if privacy {
            self.cancel_recording(&mut output, DetectionEndReason::PrivacyModeActivated);
            PrivacyCheck::Skipped(output)
        } else {
            PrivacyCheck::Classify(PendingFrame { frame, now, timestamp, output })
        }
    }

    /// Phase one: retains the frame, reads the privacy flag, then as
    /// [`Self::check_privacy_mode`]. The frame is skipped exactly when the
    /// flag was found set.
    pub fn begin_frame(&mut self, frame: Vec<i16>, now: u64, timestamp: Timestamp) -> (r:
        PrivacyCheck)
        ensures
            final(self)@ == begin_step(old(self)@, frame@, now, timestamp, r is Skipped).0,
            match r {
                PrivacyCheck::Skipped(out) => out@ == begin_step(
                    old(self)@,
                    frame@,
                    now,
                    timestamp,
                    true,
                ).1.output,
                PrivacyCheck::Classify(p) => p@ == begin_step(
                    old(self)@,
                    frame@,
                    now,
                    timestamp,
                    false,
                ).1,
            },
    {
        self.retain_frame(now, &frame);
        let privacy = self.privacy_mode_flag.load(std::sync::atomic::Ordering::Relaxed);
        self.check_privacy_mode(frame, now, timestamp, privacy)
    }

    /// The keyword that the classifier's answer names.
    pub fn detect_wake_word(&self, keyword_index: i32) -> (r: Result<Option<String>, ListenerError>)
        ensures
            match keyword_at(self@.keywords, keyword_index) {
                None => r == Err::<Option<String>, ListenerError>(
                    ListenerError::UnknownKeywordIndex(keyword_index),
                ),
                Some(word) => r is Ok && option_string_view(r->Ok_0) == word,
            },
    {
        if keyword_index < 0 {
            Ok(None)
        } else if (keyword_index as usize) < self.selected_keywords.len() {
            Ok(Some(self.selected_keywords[keyword_index as usize].clone()))
        } else {
            Err(ListenerError::UnknownKeywordIndex(keyword_index))
        }
    }

    /// The dismiss keyword: when `detected_wake_word` is it, the open
    /// session (if any) is cancelled, the detection is reported, and the
    /// result is `true`; otherwise nothing changes.
    pub fn check_dismiss_keyword(&mut self, detected_wake_word: &String, timestamp: Timestamp, out: &mut FrameOutput) -> (r: bool)
        ensures
            r == (old(self)@.dismiss_keyword == Some(detected_wake_word@)),
            r ==> {
                let (v1, o1) = cancel(old(self)@, old(out)@, DetectionEndReason::Dismissed);
                &&& final(self)@ == v1
                &&& final(out)@ == (OutputView {
                    events: o1.events.push(
                        EventView::WakeWordDetected(
                            DetectionView { wake_word: detected_wake_word@, timestamp },
                        ),
                    ),
                    ..o1
                })
            },
            !r ==> final(self)@ == old(self)@ && final(out)@ == old(out)@,
    {
        let is_dismiss = match &self.dismiss_keyword {
            Some(dismiss_keyword) => *dismiss_keyword == *detected_wake_word,
            None => false,
        };
        if is_dismiss {
            self.cancel_recording(out, DetectionEndReason::Dismissed);
            let event = AudioDetectorData::WakeWordDetected(
                WakeWordDetection::new(detected_wake_word.clone(), timestamp),
            );
            out.push_event(event);
            true
        } else {
            false
        }
    }

    /// Phase two: takes the wake-word classifier's answer for the pending
    /// frame (a keyword index, negative for no match).
    pub fn on_wake_word(&mut self, pending: PendingFrame, keyword_index: i32) -> (r: Result<
        WakeWordCheck,
        ListenerError,
    >)
        ensures
            match keyword_at(old(self)@.keywords, keyword_index) {
                None => r == Err::<WakeWordCheck, ListenerError>(
                    ListenerError::UnknownKeywordIndex(keyword_index),
                ) && final(self)@ == old(self)@,
                Some(word) => {
                    let (v, p, done) = wake_word_step(old(self)@, pending@, word);
                    &&& final(self)@ == v
                    &&& r is Ok
                    &&& match r->Ok_0 {
                        WakeWordCheck::Dismissed(out) => done && out@ == p.output,
                        WakeWordCheck::EstimateVoice(next) => !done && next@ == p,
                    }
                },
            },
            pending@.now >= old(self)@.last_human_speech ==> final(self)@.last_human_speech
                >= old(self)@.last_human_speech,
    {
        let detected = match self.detect_wake_word(keyword_index) {
            Ok(d) => d,
            Err(e) => {
                return Err(e);
            },
        };
        let PendingFrame { frame, now, timestamp, mut output } = pending;
        match detected {
            None => Ok(WakeWordCheck::EstimateVoice(PendingFrame { frame, now, timestamp, output })),
            Some(detected_wake_word) => {
                if self.check_dismiss_keyword(&detected_wake_word, timestamp, &mut output) {
                    return Ok(WakeWordCheck::Dismissed(output));
                }
                let event = AudioDetectorData::WakeWordDetected(
                    WakeWordDetection::new(detected_wake_word.clone(), timestamp),
                );
                output.push_event(event);
                // don't update wake word if we're already recording
                if !self.recording_status.active() {
                    let active_recording = ActiveRecording::new(
                        timestamp,
                        detected_wake_word.clone(),
                        now,
                    );
                    self.recording_status = RecordingStatus::Active(active_recording);
                    let event = AudioDetectorData::RecordingStarted(
                        WakeWordDetection::new(detected_wake_word, timestamp),
                    );
                    output.push_event(event);
                    output.push_indicator(IndicatorMode::Listen);
                }
                // also bump this to prevent going to sleep if human detection is slow

                self.last_human_speech_detected = now;
                Ok(WakeWordCheck::EstimateVoice(PendingFrame { frame, now, timestamp, output }))
            },
        }
    }

    /// Reports the voice-activity estimate with the silence so far, and
    /// counts the frame as human speech when the probability exceeds 0.5.
    pub fn check_human_voice_probability(
        &mut self,
        probability_bits: u32,
        now: u64,
        timestamp: Timestamp,
        out: &mut FrameOutput,
    )
        ensures
            final(out)@ == (OutputView {
                events: old(out)@.events.push(
                    EventView::VoiceProbability(
                        VoiceProbability {
                            probability_bits,
                            timestamp,
                            time_since_last_human_ms: (elapsed(
                                now,
                                old(self)@.last_human_speech,
                            ) / NANOS_PER_MILLI) as u64,
                            currently_recording: old(self)@.session is Some,
                        },
                    ),
                ),
                ..old(out)@
            }),
            final(self)@ == (ListenerView {
                last_human_speech: if exceeds_speech_threshold(probability_bits) {
                    now
                } else {
                    old(self)@.last_human_speech
                },
                ..old(self)@
            }),
    {
        let since_ms = elapsed_ns(now, self.last_human_speech_detected) / NANOS_PER_MILLI;
        let event = AudioDetectorData::VoiceProbability(
            VoiceProbability::new(probability_bits, timestamp, since_ms, self.recording_status.active()),
        );
        out.push_event(event);
        let human_speech_detected = probability_bits > HUMAN_SPEECH_DETECTION_PROBABILITY_THRESHOLD_BITS
            && probability_bits <= POSITIVE_INFINITY_BITS;
        if human_speech_detected {
            self.last_human_speech_detected = now;
        }
    }

    fn append_frame(&mut self, frame: &Vec<i16>)
        ensures
            final(self)@ == (ListenerView { audio: old(self)@.audio + frame@, ..old(self)@ }),
    {
        let mut i: usize = 0;
        while i < frame.len()
            invariant
                i <= frame@.len(),
                self@ == (ListenerView {
                    audio: old(self)@.audio + frame@.subrange(0, i as int),
                    ..old(self)@
                }),
            decreases frame@.len() - i,
        {
            self.audio_buffer.push(frame[i]);
            i = i + 1;
            assert(self.audio_buffer@ =~= old(self)@.audio + frame@.subrange(0, i as int));
        }
        assert(frame@.subrange(0, i as int) =~= frame@);
    }

    /// Closes the open session, if any: its audio moves into the output's
    /// sample (no copy kept), followed by the `Finished` end event and the
    /// indicator off. With no session, nothing changes.
    pub fn finish_recording(&mut self, out: &mut FrameOutput)
        ensures
            old(self)@.session is None ==> final(self)@ == old(self)@ && final(out)@ == old(out)@,
            old(self)@.session is Some ==> ({
                let s = old(self)@.session->0;
                &&& final(self)@ == (ListenerView {
                    session: None,
                    audio: Seq::empty(),
                    ..old(self)@
                })
                &&& final(out)@ == (OutputView {
                    events: old(out)@.events.push(end_event(s, DetectionEndReason::Finished)),
                    sample: Some(
                        SampleView {
                            data: old(self)@.audio,
                            wake_word: s.wake_word,
                            sample_rate: old(self)@.sample_rate,
                            timestamp: s.timestamp,
                        },
                    ),
                    indicator: old(out)@.indicator.push(IndicatorMode::Off),
                })
            }),
    {
        if let RecordingStatus::Active(recording_status) = self.recording_status.stop() {
            let mut data: Vec<i16> = Vec::new();
            std::mem::swap(&mut data, &mut self.audio_buffer);
            let audio_sample = AudioSample {
                data,
                wake_word: recording_status.recording_triggering_wake_word.clone(),
                sample_rate: self.sample_rate,
                timestamp: recording_status.recording_triggering_timestamp,
            };
            out.sample = Some(audio_sample);
            let event = AudioDetectorData::RecordingEnd(
                WakeWordDetectionEnd::new(
                    recording_status.recording_triggering_wake_word,
                    recording_status.recording_triggering_timestamp,
                    DetectionEndReason::Finished,
                ),
            );
            out.push_event(event);
            out.push_indicator(IndicatorMode::Off);
        }
    }

    /// Phase three: takes the voice-activity estimate for the pending frame,
    /// as the bits of its single-precision probability. Extends the open
    /// session and closes it once silence outlasts the timeout and the
    /// grace period is over.
    pub fn on_voice_probability(&mut self, pending: PendingFrame, probability_bits: u32) -> (r:
        FrameOutput)
        ensures
            (final(self)@, r@) == voice_step(old(self)@, pending@, probability_bits),
            pending@.now >= old(self)@.last_human_speech ==> final(self)@.last_human_speech
                >= old(self)@.last_human_speech,
    {
        let PendingFrame { frame, now, timestamp, mut output } = pending;
        self.check_human_voice_probability(probability_bits, now, timestamp, &mut output);
        // Add sample to buffer
        if self.recording_status.active() {
            self.append_frame(&frame);
        }
        // Check timeout

        let mut should_be_recording = elapsed_ns(now, self.last_human_speech_detected)
            < HUMAN_SPEECH_DETECTION_TIMEOUT_NS;
        if let Some(recording_initial_status) = self.recording_status.is_in_recording_initial_timeout(
            now,
        ) {
            // inside the grace period the session never times out
            if recording_initial_status {
                should_be_recording = true;
            }
        }
        if self.recording_status.active() && !should_be_recording {
            self.finish_recording(&mut output);
        }
        output
    }

    /// One whole frame, with the privacy flag and both classifier answers
    /// given; an answer that the frame does not need is not looked at.
    pub fn process_frame(
        &mut self,
        frame: Vec<i16>,
        now: u64,
        timestamp: Timestamp,
        privacy: bool,
        keyword_index: i32,
        probability_bits: u32,
    ) -> (r: Result<FrameOutput, ListenerError>)
        ensures
            match frame_step(
                old(self)@,
                frame@,
                now,
                timestamp,
                privacy,
                keyword_index,
                probability_bits,
            ) {
                Some((v, o)) => final(self)@ == v && (r matches Ok(out) && out@ == o),
                None => r == Err::<FrameOutput, ListenerError>(
                    ListenerError::UnknownKeywordIndex(keyword_index),
                ) && final(self)@ == begin_step(old(self)@, frame@, now, timestamp, privacy).0,
            },
            now >= old(self)@.last_human_speech ==> final(self)@.last_human_speech
                >= old(self)@.last_human_speech,
    {
        self.retain_frame(now, &frame);
        match self.check_privacy_mode(frame, now, timestamp, privacy) {
            PrivacyCheck::Skipped(out) => Ok(out),
            PrivacyCheck::Classify(pending) => {
                match self.on_wake_word(pending, keyword_index) {
                    Err(e) => Err(e),
                    Ok(WakeWordCheck::Dismissed(out)) => Ok(out),
                    Ok(WakeWordCheck::EstimateVoice(pending)) => Ok(
                        self.on_voice_probability(pending, probability_bits),
                    ),
                }
            },
        }
    }
}

} // verus!
