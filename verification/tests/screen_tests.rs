use rcrd::diagnostics::RecentLines;
use rcrd::screen::{
    format_time, info_text, join_lines, log_body, marker_count_text, mic_status, pane,
    transcript_body, transcript_line, transcript_lines, MicStatus, Pane,
};
use rcrd::session::{Event, RecorderState};
use rcrd::transcription::TransSegment;

fn segment(start_ms: i64, text: &str) -> TransSegment {
    TransSegment { start_ms, end_ms: start_ms + 100, text: text.to_string() }
}

#[test]
fn time_without_a_duration() {
    assert_eq!(format_time(0, None), "00:00:00");
    assert_eq!(format_time(3_723, None), "01:02:03");
    assert_eq!(format_time(360_000, None), "100:00:00");
}

#[test]
fn time_with_a_duration() {
    assert_eq!(format_time(59, Some(90)), "00:00:59 / 00:01:30");
    assert_eq!(format_time(5, Some(5)), "00:00:05 / 00:00:05");
}

#[test]
fn microphone_states() {
    assert_eq!(mic_status(false, false), MicStatus::Absent);
    assert_eq!(mic_status(false, true), MicStatus::Absent);
    assert_eq!(mic_status(true, true), MicStatus::Muted);
    assert_eq!(mic_status(true, false), MicStatus::OnAir);
}

#[test]
fn the_pane_follows_transcription() {
    let mut s = RecorderState::new(None, false, true, "en".to_string());
    assert_eq!(pane(&s), Pane::Log);
    s.handle_event(Event::ToggleTranscription, 1);
    assert_eq!(pane(&s), Pane::Transcript);
    s.handle_event(Event::ToggleTranscription, 2);
    assert_eq!(pane(&s), Pane::Log);
}

#[test]
fn marker_count() {
    assert_eq!(marker_count_text(0), " | Markers: 0");
    assert_eq!(marker_count_text(12), " | Markers: 12");
}

#[test]
fn info_of_a_recording() {
    assert_eq!(
        info_text("call.ogg", "hdmi.monitor", Some("webcam"), Some("abc1234")),
        "File: call.ogg\nSink: hdmi.monitor\nMic : webcam\nRev : abc1234"
    );
    assert_eq!(
        info_text("call.ogg", "hdmi.monitor", None, None),
        "File: call.ogg\nSink: hdmi.monitor\nMic : (disabled)\nRev : unknown"
    );
}

#[test]
fn line_of_a_segment() {
    assert_eq!(transcript_line(&segment(10_500, "hello")), "00:00:10.500 hello");
}

#[test]
fn the_last_ten_segments_are_shown() {
    let all: Vec<TransSegment> = (0..13).map(|i| segment(i * 1_000, "s")).collect();
    let lines = transcript_lines(&all);
    assert_eq!(lines.len(), 10);
    assert_eq!(lines[0], "00:00:03.000 s");
    assert_eq!(lines[9], "00:00:12.000 s");
    let few: Vec<TransSegment> = (0..2).map(|i| segment(i * 1_000, "s")).collect();
    assert_eq!(transcript_lines(&few), vec!["00:00:00.000 s", "00:00:01.000 s"]);
}

#[test]
fn joining_lines() {
    assert_eq!(join_lines(&Vec::new()), "");
    assert_eq!(join_lines(&vec!["a".to_string()]), "a");
    assert_eq!(join_lines(&vec!["a".to_string(), String::new(), "c".to_string()]), "a\n\nc");
}

#[test]
fn body_of_the_transcript_pane() {
    assert_eq!(transcript_body(&Vec::new()), "Transcription running…");
    let two = vec![segment(0, "one"), segment(61_000, "two")];
    assert_eq!(transcript_body(&two), "00:00:00.000 one\n00:01:01.000 two");
}

#[test]
fn body_of_the_log_pane() {
    let mut recent = RecentLines::new();
    assert_eq!(log_body(&recent), "");
    recent.push("first".to_string());
    recent.push("second".to_string());
    assert_eq!(log_body(&recent), "first\nsecond");
}
