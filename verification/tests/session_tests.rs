use rcrd::encoder::{EncoderProbe, ExitStatus};
use rcrd::mic::{gain_directive, gain_for, initial_directive, Gain};
use rcrd::session::{
    error_message, event_for_key, Action, Event, Key, Notice, RecorderState, SessionError, Turn,
};
use rcrd::transcription::{Phase, Pipeline, PipelineAction};

const SECOND: u64 = 1_000_000_000;

fn session(duration: Option<u32>, mic: bool, transcriber: bool) -> RecorderState {
    RecorderState::new(duration, mic, transcriber, "en".to_string())
}

#[test]
fn a_new_session_runs_with_an_open_microphone() {
    let s = session(None, true, false);
    assert!(s.running);
    assert!(!s.mic_muted);
    assert!(s.markers.is_empty());
    assert!(!s.flags.enabled && !s.flags.stop && !s.flags.reset);
    assert_eq!(s.flags.base_offset_ms, 0);
    assert_eq!(s.elapsed_ns, 0);
    assert_eq!(s.language, "en");
}

#[test]
fn keys_and_their_events() {
    assert_eq!(event_for_key(Key::Char('q'), false), Some(Event::Quit));
    assert_eq!(event_for_key(Key::Char('q'), true), Some(Event::Quit));
    assert_eq!(event_for_key(Key::Esc, false), Some(Event::Quit));
    assert_eq!(event_for_key(Key::Char('c'), true), Some(Event::Quit));
    assert_eq!(event_for_key(Key::Char('c'), false), None);
    assert_eq!(event_for_key(Key::Char('m'), false), Some(Event::ToggleMute));
    assert_eq!(event_for_key(Key::Char('b'), false), Some(Event::Bookmark));
    assert_eq!(event_for_key(Key::Char('t'), false), Some(Event::ToggleTranscription));
    assert_eq!(event_for_key(Key::Char('l'), false), Some(Event::ToggleLanguage));
    assert_eq!(event_for_key(Key::Char('x'), false), None);
    assert_eq!(event_for_key(Key::Other, true), None);
}

#[test]
fn directives_of_both_gains() {
    assert_eq!(gain_directive(Gain::Silent), "0.0 volume@micvol volume 0.0");
    assert_eq!(gain_directive(Gain::Full), "0.0 volume@micvol volume 1.0");
    assert_eq!(initial_directive(), "0.0 volume@micvol volume 1.0");
    assert_eq!(gain_for(true), Gain::Silent);
    assert_eq!(gain_for(false), Gain::Full);
}

#[test]
fn mute_then_unmute_writes_two_directives() {
    let mut s = session(None, true, false);
    let mut channel: Vec<String> = vec![initial_directive()];
    for at in [SECOND, 2 * SECOND] {
        match s.handle_event(Event::ToggleMute, at) {
            Action::WriteGain(g) => channel.push(gain_directive(g)),
            other => panic!("no gain was written: {:?}", other),
        }
    }
    assert_eq!(
        channel,
        vec![
            "0.0 volume@micvol volume 1.0",
            "0.0 volume@micvol volume 0.0",
            "0.0 volume@micvol volume 1.0",
        ]
    );
    assert!(!s.mic_muted);
}

#[test]
fn each_mute_key_writes_one_gain_and_the_gains_alternate() {
    let mut s = session(None, true, false);
    let mut gains = Vec::new();
    for i in 0..9u64 {
        if let Action::WriteGain(g) = s.handle_event(Event::ToggleMute, i * SECOND) {
            gains.push(g);
        }
    }
    assert_eq!(gains.len(), 9);
    for (i, g) in gains.iter().enumerate() {
        assert_eq!(*g, if i % 2 == 0 { Gain::Silent } else { Gain::Full });
    }
    assert!(s.mic_muted);
}

#[test]
fn mute_key_without_a_microphone_does_nothing() {
    let mut s = session(None, false, false);
    assert_eq!(s.handle_event(Event::ToggleMute, SECOND), Action::Nothing);
    assert!(!s.mic_muted);
}

#[test]
fn quit_stops_the_session_and_the_worker() {
    let mut s = session(None, true, true);
    assert_eq!(s.handle_event(Event::Quit, SECOND), Action::Nothing);
    assert!(!s.running);
    assert!(s.flags.stop);
}

#[test]
fn a_stopped_session_takes_no_event() {
    let mut s = session(None, true, true);
    s.handle_event(Event::Quit, SECOND);
    assert_eq!(s.handle_event(Event::ToggleMute, 2 * SECOND), Action::Nothing);
    assert_eq!(s.handle_event(Event::Bookmark, 2 * SECOND), Action::Nothing);
    assert_eq!(s.handle_event(Event::ToggleTranscription, 2 * SECOND), Action::Nothing);
    assert!(!s.mic_muted);
    assert!(s.markers.is_empty());
    assert!(!s.flags.enabled);
    assert!(s.flags.stop);
    assert!(!s.running);
    assert_eq!(s.elapsed_ns, SECOND);
}

#[test]
fn bookmarks_are_numbered_and_stamped() {
    let mut s = session(None, false, false);
    for i in 1..=11u64 {
        assert_eq!(s.handle_event(Event::Bookmark, i * 1_500_000_000), Action::Nothing);
    }
    assert_eq!(s.markers.len(), 11);
    assert_eq!(s.markers[0].note, "Marker #1");
    assert_eq!(s.markers[0].timestamp_ns, 1_500_000_000);
    assert_eq!(s.markers[9].note, "Marker #10");
    assert_eq!(s.markers[10].note, "Marker #11");
    assert_eq!(s.markers[10].timestamp_ns, 16_500_000_000);
}

#[test]
fn markers_are_exported_only_if_there_are_any() {
    let mut s = session(None, false, false);
    assert!(s.markers_to_export().is_none());
    s.handle_event(Event::Bookmark, 3 * SECOND);
    s.handle_event(Event::Bookmark, 2 * SECOND);
    s.handle_event(Event::Bookmark, 7 * SECOND);
    let out = s.markers_to_export().expect("three bookmarks were set");
    let stamps: Vec<u64> = out.iter().map(|m| m.timestamp_ns).collect();
    assert_eq!(stamps, vec![3 * SECOND, 3 * SECOND, 7 * SECOND]);
    assert!(stamps.windows(2).all(|w| w[0] <= w[1]));
}

#[test]
fn transcription_key_without_a_model_is_told() {
    let mut s = session(None, false, false);
    let action = s.handle_event(Event::ToggleTranscription, SECOND);
    assert_eq!(action, Action::Log(Notice::ModelMissing));
    assert!(!s.flags.enabled);
    assert_eq!(s.notice_text(Notice::ModelMissing), "Transcription model not configured");
}

#[test]
fn transcription_key_takes_the_base_offset_and_asks_for_a_reset() {
    let mut s = session(None, false, true);
    assert_eq!(s.handle_event(Event::ToggleTranscription, 10 * SECOND), Action::Nothing);
    assert!(s.flags.enabled);
    assert!(s.flags.reset);
    assert_eq!(s.flags.base_offset_ms, 10_000);
    s.flags.reset = false;
    s.handle_event(Event::ToggleTranscription, 12 * SECOND);
    assert!(!s.flags.enabled);
    assert!(!s.flags.reset);
    assert_eq!(s.flags.base_offset_ms, 10_000);
}

#[test]
fn base_offsets_do_not_decrease_over_cycles() {
    let mut s = session(None, false, true);
    let mut last: i64 = 0;
    let times = [5u64, 9, 9, 30, 20, 41, 60, 61];
    for t in times {
        s.handle_event(Event::ToggleTranscription, t * SECOND + 999_999);
        assert!(s.flags.base_offset_ms >= last);
        last = s.flags.base_offset_ms;
    }
    assert_eq!(last, 60_000);
    assert_eq!(s.elapsed_ns, 61 * SECOND + 999_999);
}

#[test]
fn utterance_after_enabling_at_ten_seconds() {
    let mut s = session(None, false, true);
    s.handle_event(Event::ToggleTranscription, 10 * SECOND);
    let mut worker = Pipeline::new();
    assert_eq!(worker.poll(&mut s.flags, "en"), PipelineAction::Restart);
    assert_eq!(worker.phase, Phase::Armed);
    assert!(!s.flags.reset);
    worker.recognizer_started(true);
    assert_eq!(worker.phase, Phase::Listening);
    assert_eq!(worker.poll(&mut s.flags, "en"), PipelineAction::Forward);
    let seg = worker.utterance(500, 1_250, "hello".to_string()).expect("the worker listens");
    assert_eq!(seg.start_ms, 10_500);
    assert_eq!(seg.end_ms, 11_250);
    assert_eq!(seg.text, "hello");
}

#[test]
fn language_key_cycles_the_language() {
    let mut s = session(None, false, false);
    assert_eq!(s.handle_event(Event::ToggleLanguage, SECOND), Action::Log(Notice::LanguageSet));
    assert_eq!(s.language, "fr");
    assert_eq!(s.notice_text(Notice::LanguageSet), "Language set to fr");
    s.handle_event(Event::ToggleLanguage, SECOND);
    assert_eq!(s.language, "en");
    let mut other = RecorderState::new(None, false, false, "de".to_string());
    other.handle_event(Event::ToggleLanguage, SECOND);
    assert_eq!(other.language, "en");
}

#[test]
fn session_of_five_seconds_stops_at_five_seconds() {
    let mut s = session(Some(5), false, false);
    assert!(!s.check_duration(4_999_999_999));
    assert!(s.running);
    assert!(s.check_duration(5 * SECOND));
    assert!(!s.running);
    assert!(!s.check_duration(6 * SECOND));
    assert!(!s.running);
    assert_eq!(
        s.observe_encoder(EncoderProbe::Exited(ExitStatus { code: Some(0), signal: None })),
        None
    );
}

#[test]
fn session_without_a_duration_never_expires() {
    let mut s = session(None, false, false);
    assert!(!s.check_duration(u64::MAX));
    assert!(s.running);
    assert_eq!(s.elapsed_ns, u64::MAX);
}

#[test]
fn the_clock_does_not_run_backwards() {
    let mut s = session(Some(10), false, false);
    s.check_duration(8 * SECOND);
    s.handle_event(Event::Bookmark, 3 * SECOND);
    assert_eq!(s.elapsed_ns, 8 * SECOND);
    assert_eq!(s.markers[0].timestamp_ns, 8 * SECOND);
}

#[test]
fn a_running_encoder_changes_nothing() {
    let mut s = session(None, false, false);
    assert_eq!(s.observe_encoder(EncoderProbe::Running), None);
    assert!(s.running);
}

#[test]
fn an_encoder_that_was_killed_ends_the_session_with_an_error() {
    let mut s = session(None, true, false);
    let status = ExitStatus { code: None, signal: Some(9) };
    let err = s.observe_encoder(EncoderProbe::Exited(status));
    assert_eq!(err, Some(SessionError::EncoderFailed(status)));
    assert!(!s.running);
    s.finish();
    assert!(s.flags.stop);
}

#[test]
fn an_encoder_that_failed_ends_the_session_with_an_error() {
    let mut s = session(None, true, false);
    let status = ExitStatus { code: Some(1), signal: None };
    assert_eq!(
        s.observe_encoder(EncoderProbe::Exited(status)),
        Some(SessionError::EncoderFailed(status))
    );
    assert!(!s.running);
}

#[test]
fn an_interrupted_encoder_is_a_clean_stop() {
    let mut s = session(None, true, false);
    let status = ExitStatus { code: None, signal: Some(2) };
    assert_eq!(s.observe_encoder(EncoderProbe::Exited(status)), None);
    assert!(!s.running);
}

#[test]
fn an_encoder_whose_state_is_lost_ends_the_session() {
    let mut s = session(None, true, false);
    assert_eq!(s.observe_encoder(EncoderProbe::Lost), Some(SessionError::EncoderLost));
    assert!(!s.running);
}

#[test]
fn finish_stops_for_good() {
    let mut s = session(None, true, true);
    s.finish();
    assert!(!s.running);
    assert!(s.flags.stop);
    s.handle_event(Event::ToggleTranscription, SECOND);
    assert!(s.flags.stop);
    assert!(!s.running);
}

#[test]
fn a_turn_takes_the_event_then_the_encoder_then_the_clock() {
    let mut s = session(Some(5), true, false);
    let turn = s.tick(Some(Event::ToggleMute), SECOND, EncoderProbe::Running);
    assert_eq!(turn, Turn { action: Action::WriteGain(Gain::Silent), error: None, expired: false });
    assert!(s.running && s.mic_muted);
    let idle = s.tick(None, 2 * SECOND, EncoderProbe::Running);
    assert_eq!(idle, Turn { action: Action::Nothing, error: None, expired: false });
    assert_eq!(s.elapsed_ns, 2 * SECOND);
    let last = s.tick(Some(Event::Bookmark), 5 * SECOND, EncoderProbe::Running);
    assert_eq!(last, Turn { action: Action::Nothing, error: None, expired: true });
    assert!(!s.running);
    assert_eq!(s.markers.len(), 1);
    assert_eq!(s.markers[0].timestamp_ns, 5 * SECOND);
    let after = s.tick(Some(Event::Bookmark), 6 * SECOND, EncoderProbe::Running);
    assert_eq!(after, Turn { action: Action::Nothing, error: None, expired: false });
    assert_eq!(s.markers.len(), 1);
}

#[test]
fn a_turn_with_a_killed_encoder_ends_the_session_with_its_error() {
    let mut s = session(Some(5), true, false);
    let status = ExitStatus { code: None, signal: Some(9) };
    let turn = s.tick(None, 6 * SECOND, EncoderProbe::Exited(status));
    assert_eq!(turn.error, Some(SessionError::EncoderFailed(status)));
    assert!(!turn.expired);
    assert!(!s.running);
}

#[test]
fn what_is_said_of_failures() {
    let failed = SessionError::EncoderFailed(ExitStatus { code: Some(1), signal: None });
    assert_eq!(error_message(failed), "ffmpeg exited with status 1");
    let odd = SessionError::EncoderFailed(ExitStatus { code: Some(-7), signal: Some(3) });
    assert_eq!(error_message(odd), "ffmpeg exited with status -7");
    let killed = SessionError::EncoderFailed(ExitStatus { code: None, signal: Some(9) });
    assert_eq!(error_message(killed), "ffmpeg was ended by signal 9");
    let unknown = SessionError::EncoderFailed(ExitStatus { code: None, signal: None });
    assert_eq!(error_message(unknown), "ffmpeg ended abnormally");
    assert_eq!(error_message(SessionError::EncoderLost), "the state of ffmpeg could not be read");
}
