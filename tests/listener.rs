use std::sync::atomic::{AtomicBool, Ordering};
use std::sync::Arc;

use wakeword::listener::{
    AudioDetectorData, FrameOutput, Listener, ListenerError, PrivacyCheck, RecordingStatus,
    WakeWordCheck,
};
use wakeword::messages::{DetectionEndReason, Timestamp};
use wakeword::respeaker::IndicatorMode;

const FRAME_NS: u64 = 32_000_000;
const FRAME_LEN: usize = 512;
const SILENCE: u32 = 0; // bits of 0.0
const NO_MATCH: i32 = -1;

fn ts(i: u64) -> Timestamp {
    Timestamp { seconds: 1_700_000_000 + (i as i64), nanos: 7 }
}

fn listener_with_flag() -> (Listener, Arc<AtomicBool>) {
    let flag = Arc::new(AtomicBool::new(false));
    let listener = Listener::new(
        vec!["alexa".to_string(), "stop".to_string(), "jarvis".to_string()],
        Some("stop".to_string()),
        16000,
        flag.clone(),
        0,
    );
    (listener, flag)
}

fn listener() -> Listener {
    listener_with_flag().0
}

fn frame(v: i16) -> Vec<i16> {
    vec![v; FRAME_LEN]
}

fn count(out: &FrameOutput, pred: fn(&AudioDetectorData) -> bool) -> usize {
    out.events.iter().filter(|e| pred(e)).count()
}

fn is_started(e: &AudioDetectorData) -> bool {
    matches!(e, AudioDetectorData::RecordingStarted(_))
}

fn is_detected(e: &AudioDetectorData) -> bool {
    matches!(e, AudioDetectorData::WakeWordDetected(_))
}

fn is_finished(e: &AudioDetectorData) -> bool {
    matches!(e, AudioDetectorData::RecordingEnd(end) if end.reason == DetectionEndReason::Finished)
}

#[test]
fn silence_wake_word_then_timeout_records_one_session() {
    let mut l = listener();
    let mut outputs = Vec::new();
    for i in 1..=10u64 {
        outputs.push(l.process_frame(frame(0), i * FRAME_NS, ts(i), false, NO_MATCH, SILENCE).unwrap());
    }
    let t11 = 11 * FRAME_NS;
    outputs.push(l.process_frame(frame(11), t11, ts(11), false, 0, SILENCE).unwrap());
    assert!(l.is_recording());
    let mut k = 1u64;
    while l.is_recording() {
        outputs.push(
            l.process_frame(frame(1), t11 + k * FRAME_NS, ts(11 + k), false, NO_MATCH, SILENCE)
                .unwrap(),
        );
        k += 1;
    }
    // the grace period (4 s) outlasts the silence timeout (1.5 s): the
    // session closes on the first frame 4 s after the trigger
    assert_eq!(k - 1, 125);
    let started: usize = outputs.iter().map(|o| count(o, is_started)).sum();
    let detected: usize = outputs.iter().map(|o| count(o, is_detected)).sum();
    let finished: usize = outputs.iter().map(|o| count(o, is_finished)).sum();
    assert_eq!((started, detected, finished), (1, 1, 1));
    let samples: Vec<_> = outputs.iter().filter_map(|o| o.sample.as_ref()).collect();
    assert_eq!(samples.len(), 1);
    let sample = samples[0];
    // the trigger frame and the 125 after it
    assert_eq!(sample.data.len(), 126 * FRAME_LEN);
    assert_eq!(sample.data[0], 11);
    assert_eq!(sample.wake_word, "alexa");
    assert_eq!(sample.sample_rate, 16000);
    assert_eq!(sample.timestamp, ts(11));
    let last = outputs.last().unwrap();
    assert_eq!(last.indicator, vec![IndicatorMode::Off]);
    assert!(l.recorded_audio().is_empty());
}

#[test]
fn privacy_mode_mid_session_cancels_without_sample() {
    let (mut l, flag) = listener_with_flag();
    l.process_frame(frame(1), FRAME_NS, ts(1), false, 0, SILENCE).unwrap();
    l.process_frame(frame(2), 2 * FRAME_NS, ts(2), false, NO_MATCH, SILENCE).unwrap();
    assert_eq!(l.recorded_audio().len(), 2 * FRAME_LEN);
    flag.store(true, Ordering::Relaxed);
    let out = match l.begin_frame(frame(3), 3 * FRAME_NS, ts(3)) {
        PrivacyCheck::Skipped(out) => out,
        PrivacyCheck::Classify(_) => panic!("privacy mode must skip the frame"),
    };
    assert_eq!(out.events.len(), 1);
    match &out.events[0] {
        AudioDetectorData::RecordingEnd(end) => {
            assert_eq!(end.reason, DetectionEndReason::PrivacyModeActivated);
            assert_eq!(end.wake_word, "alexa");
            assert_eq!(end.timestamp, ts(1));
        }
        other => panic!("unexpected event {:?}", other),
    }
    assert!(out.sample.is_none());
    assert_eq!(out.indicator, vec![IndicatorMode::Off]);
    assert!(!l.is_recording());
    assert!(l.recorded_audio().is_empty());
    // the frame is still retained
    assert_eq!(l.wake_word_buffer().len(), 3);
}

#[test]
fn privacy_mode_while_inactive_only_retains() {
    let mut l = listener();
    let out = l.process_frame(frame(1), FRAME_NS, ts(1), true, 0, SILENCE).unwrap();
    assert!(out.events.is_empty());
    assert_eq!(out.indicator, vec![IndicatorMode::Off]);
    assert!(!l.is_recording());
    assert_eq!(l.wake_word_buffer().len(), 1);
}

#[test]
fn dismiss_keyword_while_inactive_reports_detection_only() {
    let mut l = listener();
    let out = l.process_frame(frame(1), FRAME_NS, ts(1), false, 1, SILENCE).unwrap();
    assert_eq!(out.events.len(), 1);
    match &out.events[0] {
        AudioDetectorData::WakeWordDetected(d) => {
            assert_eq!(d.wake_word, "stop");
            assert_eq!(d.timestamp, ts(1));
        }
        other => panic!("unexpected event {:?}", other),
    }
    assert_eq!(count(&out, is_started), 0);
    assert!(!l.is_recording());
}

#[test]
fn dismiss_keyword_mid_session_cancels_and_clears() {
    let mut l = listener();
    l.process_frame(frame(1), FRAME_NS, ts(1), false, 2, SILENCE).unwrap();
    assert_eq!(l.recorded_audio().len(), FRAME_LEN);
    let out = l.process_frame(frame(2), 2 * FRAME_NS, ts(2), false, 1, SILENCE).unwrap();
    assert_eq!(out.events.len(), 2);
    match &out.events[0] {
        AudioDetectorData::RecordingEnd(end) => {
            assert_eq!(end.reason, DetectionEndReason::Dismissed);
            assert_eq!(end.wake_word, "jarvis");
        }
        other => panic!("unexpected event {:?}", other),
    }
    assert!(is_detected(&out.events[1]));
    assert!(out.sample.is_none());
    assert!(l.recorded_audio().is_empty());
    assert!(!l.is_recording());
}

#[test]
fn repeated_match_starts_one_session() {
    let mut l = listener();
    let a = l.process_frame(frame(1), FRAME_NS, ts(1), false, 0, SILENCE).unwrap();
    let b = l.process_frame(frame(2), 2 * FRAME_NS, ts(2), false, 0, SILENCE).unwrap();
    assert_eq!(count(&a, is_started) + count(&b, is_started), 1);
    assert_eq!(count(&a, is_detected) + count(&b, is_detected), 2);
    // detection is reported before the session start
    assert!(is_detected(&a.events[0]));
    assert!(is_started(&a.events[1]));
    assert_eq!(a.indicator, vec![IndicatorMode::Listen]);
    assert!(b.indicator.is_empty());
}

#[test]
fn second_wake_word_keeps_the_open_session() {
    let mut l = listener();
    l.process_frame(frame(1), FRAME_NS, ts(1), false, 0, SILENCE).unwrap();
    let out = l.process_frame(frame(2), 2 * FRAME_NS, ts(2), false, 2, SILENCE).unwrap();
    assert_eq!(count(&out, is_started), 0);
    assert_eq!(count(&out, is_detected), 1);
    // run to the end: the sample carries the first wake word and instant
    let mut k = 3u64;
    let sample = loop {
        let out =
            l.process_frame(frame(0), k * FRAME_NS, ts(k), false, NO_MATCH, SILENCE).unwrap();
        if let Some(s) = out.sample {
            break s;
        }
        k += 1;
    };
    assert_eq!(sample.wake_word, "alexa");
    assert_eq!(sample.timestamp, ts(1));
    assert_eq!(sample.data.len(), (k as usize) * FRAME_LEN);
}

#[test]
fn speech_keeps_session_open_past_grace_period() {
    let mut l = listener();
    l.process_frame(frame(1), 0, ts(0), false, 0, SILENCE).unwrap();
    let speech = 0.9f32.to_bits();
    // speech every frame for 6 s keeps it open
    for k in 1..=187u64 {
        let out = l.process_frame(frame(1), k * FRAME_NS, ts(k), false, NO_MATCH, speech).unwrap();
        assert!(out.sample.is_none());
    }
    assert!(l.is_recording());
    // then silence: closes 1.5 s after the last speech
    let mut k = 188u64;
    loop {
        let out = l.process_frame(frame(1), k * FRAME_NS, ts(k), false, NO_MATCH, SILENCE).unwrap();
        if out.sample.is_some() {
            break;
        }
        k += 1;
    }
    assert!((k - 187) * FRAME_NS >= 1_500_000_000);
    assert!((k - 188) * FRAME_NS < 1_500_000_000);
}

#[test]
fn voice_probability_event_reports_silence_in_milliseconds() {
    let mut l = listener();
    let bits = 0.25f32.to_bits();
    let out = l.process_frame(frame(0), 2_345_678_901, ts(1), false, NO_MATCH, bits).unwrap();
    match &out.events[0] {
        AudioDetectorData::VoiceProbability(p) => {
            assert_eq!(p.probability_bits, bits);
            assert_eq!(p.time_since_last_human_ms, 2345);
            assert!(!p.currently_recording);
            assert_eq!(p.timestamp, ts(1));
        }
        other => panic!("unexpected event {:?}", other),
    }
}

#[test]
fn probability_threshold_follows_float_comparison() {
    for (p, speech) in [
        (0.5f32, false),
        (0.500001f32, true),
        (1.0f32, true),
        (0.0f32, false),
        (-1.0f32, false),
        (f32::NAN, false),
        (f32::INFINITY, true),
    ] {
        let mut l = listener();
        l.process_frame(frame(0), 10_000_000_000, ts(0), false, NO_MATCH, p.to_bits()).unwrap();
        let out = l.process_frame(frame(0), 10_001_000_000, ts(1), false, NO_MATCH, 0).unwrap();
        let since = match &out.events[0] {
            AudioDetectorData::VoiceProbability(v) => v.time_since_last_human_ms,
            other => panic!("unexpected event {:?}", other),
        };
        assert_eq!(since == 1, speech, "probability {}", p);
        assert_eq!(p > 0.5, speech);
    }
}

#[test]
fn unknown_keyword_index_is_an_error() {
    let mut l = listener();
    let r = l.process_frame(frame(0), FRAME_NS, ts(1), false, 3, SILENCE);
    assert_eq!(r.unwrap_err(), ListenerError::UnknownKeywordIndex(3));
    assert_eq!(l.wake_word_buffer().len(), 1);
    assert!(!l.is_recording());
}

#[test]
fn phases_match_whole_frame_processing() {
    let (mut l, _flag) = listener_with_flag();
    let pending = match l.begin_frame(frame(4), FRAME_NS, ts(1)) {
        PrivacyCheck::Classify(p) => p,
        PrivacyCheck::Skipped(_) => panic!("not in privacy mode"),
    };
    assert_eq!(pending.frame(), &frame(4));
    let pending = match l.on_wake_word(pending, 0).unwrap() {
        WakeWordCheck::EstimateVoice(p) => p,
        WakeWordCheck::Dismissed(_) => panic!("not a dismiss keyword"),
    };
    let out = l.on_voice_probability(pending, SILENCE);
    assert_eq!(out.events.len(), 3);
    assert!(l.is_recording());
    assert_eq!(l.recorded_audio(), &frame(4));
}

#[test]
fn inactive_status_has_no_grace_period() {
    let mut status = RecordingStatus::NotActive;
    assert!(!status.active());
    assert_eq!(status.is_in_recording_initial_timeout(5), None);
    assert!(!status.stop().active());
}

#[test]
fn detect_wake_word_maps_indices() {
    let l = listener();
    assert_eq!(l.detect_wake_word(-1), Ok(None));
    assert_eq!(l.detect_wake_word(2), Ok(Some("jarvis".to_string())));
    assert_eq!(l.detect_wake_word(7), Err(ListenerError::UnknownKeywordIndex(7)));
}

#[test]
fn privacy_check_without_privacy_changes_nothing() {
    let mut l = listener();
    match l.check_privacy_mode(frame(5), FRAME_NS, ts(1), false) {
        PrivacyCheck::Classify(p) => assert_eq!(p.frame(), &frame(5)),
        PrivacyCheck::Skipped(_) => panic!("privacy mode is off"),
    }
    assert_eq!(l.wake_word_buffer().len(), 0);
    assert!(!l.is_recording());
}
