use std::collections::HashMap;

use wakeword::configuration::{keyword_pairs, AppConfig, KeywordError};
use wakeword::handoff::{handoff_result, HandoffError, ListenerSinks, SendOutcome};
use wakeword::listener::{AudioDetectorData, FrameOutput};
use wakeword::messages::{AudioSample, Timestamp, VoiceProbability, WakeWordDetection};
use wakeword::respeaker::{
    direction_from_response, IndicatorError, IndicatorMode, PixelRingCommand, ReSpeakerCommander,
};
use wakeword::wav::{render_wav, WavError};

fn config() -> AppConfig {
    AppConfig { zenoh_prefix: "wakeword".to_string(), system_prompts: HashMap::new() }
}

#[test]
fn topics_are_prefixed() {
    let c = config();
    assert_eq!(c.get_voice_probability_topic(), "wakeword/telemetry/voice_probability");
    assert_eq!(
        c.get_voice_probability_pretty_print_topic(),
        "wakeword/telemetry/voice_probability_pretty_print"
    );
    assert_eq!(c.get_wake_word_detected_topic(), "wakeword/event/wake_word_detection");
    assert_eq!(c.get_wake_word_recording_started_topic(), "wakeword/event/recording_started");
    assert_eq!(c.get_wake_word_recording_end_topic(), "wakeword/event/wake_word_detection_end");
    assert_eq!(c.get_wake_word_audio_recording_wav_topic(), "wakeword/event/wake_word_audio_wav");
    assert_eq!(c.get_transcript_topic(), "wakeword/event/transcript");
    assert_eq!(c.get_privacy_mode_topic(), "wakeword/control/privacy_mode");
}

fn pair(a: &str, b: &str) -> (String, String) {
    (a.to_string(), b.to_string())
}

#[test]
fn keyword_pairs_resolves_builtins_then_custom() {
    let keywords = vec!["jarvis".to_string(), "alexa".to_string()];
    let builtin = vec![pair("alexa", "/k/alexa.ppn"), pair("jarvis", "/k/jarvis.ppn")];
    let custom = vec![pair("hey_robot", "/c/robot.ppn")];
    let r = keyword_pairs(&keywords, &builtin, &custom).unwrap();
    assert_eq!(
        r,
        vec![
            pair("jarvis", "/k/jarvis.ppn"),
            pair("alexa", "/k/alexa.ppn"),
            pair("hey_robot", "/c/robot.ppn")
        ]
    );
}

#[test]
fn keyword_pairs_reports_first_unknown_builtin() {
    let keywords = vec!["alexa".to_string(), "nope".to_string(), "never".to_string()];
    let builtin = vec![pair("alexa", "/k/alexa.ppn")];
    match keyword_pairs(&keywords, &builtin, &vec![]) {
        Err(KeywordError::NotBuiltIn(name)) => assert_eq!(name, "nope"),
        other => panic!("unexpected {:?}", other),
    }
    assert_eq!(keyword_pairs(&vec![], &vec![], &vec![]).unwrap(), vec![]);
}

#[test]
fn audio_sample_renders_as_wav() {
    let sample = AudioSample {
        data: vec![1, -2, 300],
        wake_word: "alexa".to_string(),
        sample_rate: 16000,
        timestamp: Timestamp { seconds: 0, nanos: 0 },
    };
    let wav = sample.to_vaw_file().unwrap();
    assert_eq!(wav.len(), 44 + 6);
    assert_eq!(&wav[0..4], b"RIFF");
    assert_eq!(&wav[8..12], b"WAVE");
    assert_eq!(&wav[44..], &[1, 0, 0xfe, 0xff, 0x2c, 0x01]);
    let expected: Vec<u8> = vec![
        0x52, 0x49, 0x46, 0x46, 42, 0, 0, 0, 0x57, 0x41, 0x56, 0x45, 0x66, 0x6d, 0x74, 0x20, 16, 0,
        0, 0, 1, 0, 1, 0, 0x80, 0x3e, 0, 0, 0, 0x7d, 0, 0, 2, 0, 16, 0, 0x64, 0x61, 0x74, 0x61, 6, 0,
        0, 0, 1, 0, 0xfe, 0xff, 0x2c, 0x01,
    ];
    assert_eq!(wav, expected);
    let bad = AudioSample { sample_rate: 0, ..sample };
    assert_eq!(bad.to_vaw_file(), Err(WavError::InvalidSampleRate));
    assert_eq!(render_wav(&vec![], 0x8000_0000), Err(WavError::InvalidSampleRate));
}

#[test]
fn pixel_ring_requests() {
    let mono = PixelRingCommand::Mono(0x112233).request();
    assert_eq!((mono.command, mono.data), (1, vec![0x11, 0x22, 0x33, 0]));
    let palette = PixelRingCommand::SetColorPalette(0x00caff, 0x31c4f3).request();
    assert_eq!(palette.command, 0x21);
    assert_eq!(palette.data, vec![0x00, 0xca, 0xff, 0, 0x31, 0xc4, 0xf3, 0]);
    let off = PixelRingCommand::for_mode(IndicatorMode::Off).request();
    assert_eq!((off.command, off.data), (1, vec![0, 0, 0, 0]));
    let listen = PixelRingCommand::for_mode(IndicatorMode::Listen).request();
    assert_eq!((listen.command, listen.data), (2, vec![0]));
    let think = PixelRingCommand::for_mode(IndicatorMode::Think).request();
    assert_eq!((think.command, think.data), (4, vec![0]));
    let volume = PixelRingCommand::SetVolume(7).request();
    assert_eq!((volume.command, volume.data), (0x23, vec![7]));
}

#[test]
fn direction_is_first_little_endian_integer() {
    let mut buf = (-90i32).to_le_bytes().to_vec();
    buf.extend_from_slice(&5i32.to_le_bytes());
    assert_eq!(direction_from_response(&buf), Some(-90));
    assert_eq!(direction_from_response(&[1, 0, 0, 0, 0, 0, 0]), None);
    assert_eq!(direction_from_response(&[0x2c, 0x01, 0, 0, 9, 9, 9, 9, 9]), Some(300));
}

#[test]
fn dummy_commander_drops_commands() {
    let commander = ReSpeakerCommander::dummy();
    commander.off();
    commander.listen();
    commander.think();
    commander.show(IndicatorMode::Off);
    assert_eq!(commander.read_direction(), Err(IndicatorError::Disconnected));
}

#[test]
fn commander_queues_modes_in_order() {
    let (sender, receiver) = std::sync::mpsc::sync_channel(2);
    let commander = ReSpeakerCommander::new(sender);
    commander.listen();
    commander.off();
    // queue full: dropped
    commander.think();
    let got: Vec<String> = receiver.try_iter().map(|c| format!("{:?}", c)).collect();
    assert_eq!(got, vec!["Listen".to_string(), "Off".to_string()]);
}

#[test]
fn handoff_drops_on_full_and_fails_on_closed() {
    assert_eq!(handoff_result(SendOutcome::Sent, HandoffError::EventChannelClosed), Ok(()));
    assert_eq!(handoff_result(SendOutcome::Full, HandoffError::EventChannelClosed), Ok(()));
    assert_eq!(
        handoff_result(SendOutcome::Closed, HandoffError::SampleChannelClosed),
        Err(HandoffError::SampleChannelClosed)
    );

    let (sample_tx, mut sample_rx) = tokio::sync::mpsc::channel(1);
    let (event_tx, mut event_rx) = tokio::sync::mpsc::channel(1);
    let sinks = ListenerSinks::new(sample_tx, event_tx, ReSpeakerCommander::dummy());
    let detection = |w: &str| {
        AudioDetectorData::WakeWordDetected(WakeWordDetection::new(
            w.to_string(),
            Timestamp { seconds: 1, nanos: 2 },
        ))
    };
    assert_eq!(sinks.send_event(detection("a")), Ok(()));
    // full: dropped, not an error
    assert_eq!(sinks.send_event(detection("b")), Ok(()));
    match event_rx.try_recv().unwrap() {
        AudioDetectorData::WakeWordDetected(d) => assert_eq!(d.wake_word, "a"),
        other => panic!("unexpected {:?}", other),
    }
    assert!(event_rx.try_recv().is_err());

    let out = FrameOutput {
        events: vec![detection("c")],
        sample: Some(AudioSample {
            data: vec![1],
            wake_word: "c".to_string(),
            sample_rate: 16000,
            timestamp: Timestamp { seconds: 1, nanos: 2 },
        }),
        indicator: vec![IndicatorMode::Off],
    };
    let delivery = sinks.deliver(out);
    assert_eq!(delivery.result, Ok(()));
    assert_eq!(delivery.outcomes, vec![SendOutcome::Sent, SendOutcome::Sent]);
    assert_eq!(sample_rx.try_recv().unwrap().data, vec![1]);
    assert!(event_rx.try_recv().is_ok());

    // a full sample channel drops the sample and the event still goes
    let filler = AudioSample {
        data: vec![9],
        wake_word: "f".to_string(),
        sample_rate: 16000,
        timestamp: Timestamp { seconds: 1, nanos: 2 },
    };
    assert_eq!(sinks.send_sample(filler), Ok(()));
    let out = FrameOutput {
        events: vec![detection("e")],
        sample: Some(AudioSample {
            data: vec![2],
            wake_word: "e".to_string(),
            sample_rate: 16000,
            timestamp: Timestamp { seconds: 1, nanos: 2 },
        }),
        indicator: vec![],
    };
    let delivery = sinks.deliver(out);
    assert_eq!(delivery.result, Ok(()));
    assert_eq!(delivery.outcomes, vec![SendOutcome::Full, SendOutcome::Sent]);
    assert_eq!(sample_rx.try_recv().unwrap().data, vec![9]);
    match event_rx.try_recv().unwrap() {
        AudioDetectorData::WakeWordDetected(d) => assert_eq!(d.wake_word, "e"),
        other => panic!("unexpected {:?}", other),
    }
    let empty = FrameOutput { events: vec![], sample: None, indicator: vec![IndicatorMode::Off] };
    let delivery = sinks.deliver(empty);
    assert_eq!((delivery.outcomes, delivery.result), (vec![], Ok(())));

    drop(event_rx);
    assert_eq!(sinks.send_event(detection("d")), Err(HandoffError::EventChannelClosed));
    drop(sample_rx);
    let out = FrameOutput {
        events: vec![],
        sample: Some(AudioSample {
            data: vec![],
            wake_word: "c".to_string(),
            sample_rate: 16000,
            timestamp: Timestamp { seconds: 1, nanos: 2 },
        }),
        indicator: vec![],
    };
    let delivery = sinks.deliver(out);
    assert_eq!(delivery.result, Err(HandoffError::SampleChannelClosed));
    assert_eq!(delivery.outcomes, vec![SendOutcome::Closed]);
}

#[test]
fn voice_bar_text() {
    let p = VoiceProbability::new(0, Timestamp { seconds: 0, nanos: 0 }, 200, true);
    let text = p.bar_text(3);
    assert_eq!(text, format!("|{}{}| D R", "█".repeat(3), " ".repeat(27)));
    let quiet = VoiceProbability::new(0, Timestamp { seconds: 0, nanos: 0 }, 1501, false);
    assert_eq!(quiet.bar_text(30), format!("|{}|    ", "█".repeat(30)));
}
