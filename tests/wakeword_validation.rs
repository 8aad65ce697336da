use wakeword::wakeword_validation::{AudioBuffer, WakeWordValidator, AUDIO_SAMPLE_RETENTION_PERIOD_NS};
use wakeword::wav::WavError;

#[test]
fn ring_buffer_popping() {
    let start: u64 = 1_000;
    let after_timeout = start + AUDIO_SAMPLE_RETENTION_PERIOD_NS + AUDIO_SAMPLE_RETENTION_PERIOD_NS;

    let a = [0];
    let b = [1];

    let mut buffer = AudioBuffer::new();

    // first insert should work
    buffer.insert(start, &a);
    assert_eq!(buffer.len(), 1);

    // these inserts do not pop
    buffer.insert(start, &a);
    buffer.insert(start, &a);
    assert_eq!(buffer.len(), 3);

    // this insert should pop all previous values
    buffer.insert(after_timeout, &b);
    assert_eq!(buffer.len(), 1);
}

#[test]
fn buffer_ordering() {
    let start: u64 = 1_000;
    let after_timeout = start + AUDIO_SAMPLE_RETENTION_PERIOD_NS + AUDIO_SAMPLE_RETENTION_PERIOD_NS;

    let mut buffer = AudioBuffer::new();

    // insert outdated sample
    buffer.insert(start, &[100]);

    buffer.insert(after_timeout, &[0]);
    buffer.insert(after_timeout, &[1]);
    buffer.insert(after_timeout, &[2]);
    assert_eq!(buffer.len(), 3);

    assert_eq!(buffer.frame(0), &[0]);
    assert_eq!(buffer.frame(1), &[1]);
    assert_eq!(buffer.frame(2), &[2]);
}

#[test]
fn entry_exactly_at_window_edge_is_kept() {
    let mut buffer = AudioBuffer::new();
    buffer.insert(0, &[1]);
    buffer.insert(AUDIO_SAMPLE_RETENTION_PERIOD_NS, &[2]);
    assert_eq!(buffer.len(), 2);
    buffer.insert(AUDIO_SAMPLE_RETENTION_PERIOD_NS + 1, &[3]);
    assert_eq!(buffer.len(), 2);
    assert_eq!(buffer.frame(0), &[2]);
    assert_eq!(buffer.frame(1), &[3]);
}

#[test]
fn retained_entries_stay_in_window_and_order() {
    let step: u64 = 700_000_000;
    let mut buffer = AudioBuffer::new();
    for i in 0..40u64 {
        let now = i * step;
        buffer.insert(now, &[i as i16]);
        for k in 0..buffer.len() {
            assert!(now - buffer.captured_at(k) <= AUDIO_SAMPLE_RETENTION_PERIOD_NS);
            if k > 0 {
                assert!(buffer.captured_at(k - 1) <= buffer.captured_at(k));
            }
        }
    }
    // 5 s at 0.7 s steps: the newest entry and the seven before it
    assert_eq!(buffer.len(), 8);
    assert_eq!(buffer.frame(0), &[32]);
}

#[test]
fn empty_buffer_renders_header_only() {
    let buffer = AudioBuffer::new();
    let wav = buffer.contents_to_wav(16000).unwrap();
    assert_eq!(wav.len(), 44);
    assert_eq!(&wav[0..4], b"RIFF");
}

#[test]
fn buffer_renders_frames_in_capture_order() {
    let mut buffer = AudioBuffer::new();
    buffer.insert(0, &[1, 2]);
    buffer.insert(10, &[3]);
    let wav = buffer.contents_to_wav(8000).unwrap();
    assert_eq!(wav.len(), 44 + 6);
    assert_eq!(&wav[44..], &[1, 0, 2, 0, 3, 0]);
    // sample rate field
    assert_eq!(&wav[24..28], &8000u32.to_le_bytes());
}

#[test]
fn buffer_rejects_zero_sample_rate() {
    let mut buffer = AudioBuffer::new();
    buffer.insert(0, &[1]);
    assert_eq!(buffer.contents_to_wav(0), Err(WavError::InvalidSampleRate));
}

#[test]
fn validator_clip_and_prompt() {
    let mut validator = WakeWordValidator::new(16000);
    validator.insert(0, &[-1]);
    let clip = validator.clip().unwrap();
    assert_eq!(clip.len(), 46);
    assert_eq!(&clip[44..], &[0xff, 0xff]);
    assert_eq!(
        WakeWordValidator::prompt("jarvis"),
        "This sample might contain the wake word jarvis"
    );
}

#[test]
fn transcript_confirms_wake_word_case_insensitively() {
    assert!(WakeWordValidator::transcript_confirms("Hey JARVIS, lights on", "jarvis"));
    assert!(WakeWordValidator::transcript_confirms("jarvis", "jarvis"));
    assert!(!WakeWordValidator::transcript_confirms("Hey Jarv", "jarvis"));
    assert!(!WakeWordValidator::transcript_confirms("", "jarvis"));
    assert!(WakeWordValidator::transcript_confirms("anything", ""));
    // only the transcript is lowered
    assert!(!WakeWordValidator::transcript_confirms("hey jarvis", "Jarvis"));
    // non-ASCII letters are left as they are
    assert!(!WakeWordValidator::transcript_confirms("ÉCOUTE", "écoute"));
}
