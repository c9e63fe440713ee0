use rcrd::export::transcript_csv;
use rcrd::transcription::{rebase, ControlFlags, Phase, Pipeline, PipelineAction, TransSegment};

fn flags(enabled: bool, stop: bool, reset: bool, base_offset_ms: i64) -> ControlFlags {
    ControlFlags { enabled, stop, reset, base_offset_ms }
}

#[test]
fn flags_start_cleared() {
    assert_eq!(ControlFlags::new(), flags(false, false, false, 0));
}

#[test]
fn toggling_on_takes_the_offset_and_toggling_off_keeps_it() {
    let mut f = ControlFlags::new();
    f.toggle(4_200);
    assert_eq!(f, flags(true, false, true, 4_200));
    f.toggle(9_000);
    assert_eq!(f, flags(false, false, true, 4_200));
    f.toggle(9_500);
    assert_eq!(f, flags(true, false, true, 9_500));
}

#[test]
fn stop_stays_set() {
    let mut f = ControlFlags::new();
    f.request_stop();
    f.toggle(1);
    f.request_stop();
    assert!(f.stop);
}

#[test]
fn a_disabled_worker_throws_audio_away() {
    let mut w = Pipeline::new();
    let mut f = ControlFlags::new();
    assert_eq!(w.poll(&mut f, "en"), PipelineAction::Discard);
    assert_eq!(w.phase, Phase::Disabled);
    assert!(w.utterance(0, 10, "lost".to_string()).is_none());
}

#[test]
fn a_reset_arms_the_worker_with_language_and_offset() {
    let mut w = Pipeline::new();
    let mut f = flags(true, false, true, 7_000);
    assert_eq!(w.poll(&mut f, "fr"), PipelineAction::Restart);
    assert_eq!(w.phase, Phase::Armed);
    assert_eq!(w.base_offset_ms, 7_000);
    assert_eq!(w.language, "fr");
    assert_eq!(f, flags(true, false, false, 7_000));
    assert!(w.utterance(0, 10, "too early".to_string()).is_none());
    assert_eq!(w.poll(&mut f, "fr"), PipelineAction::Discard);
    assert_eq!(w.phase, Phase::Armed);
}

#[test]
fn enabled_without_a_reset_does_not_start_a_disabled_worker() {
    let mut w = Pipeline::new();
    let mut f = flags(true, false, false, 3_000);
    assert_eq!(w.poll(&mut f, "en"), PipelineAction::Discard);
    assert_eq!(w.phase, Phase::Disabled);
    assert_eq!(w.base_offset_ms, 0);
}

#[test]
fn a_recognizer_that_cannot_start_ends_the_worker() {
    let mut w = Pipeline::new();
    let mut f = flags(true, false, true, 0);
    w.poll(&mut f, "en");
    w.recognizer_started(false);
    assert_eq!(w.phase, Phase::Terminal);
    assert_eq!(w.poll(&mut f, "en"), PipelineAction::Exit);
}

#[test]
fn recognizer_started_changes_only_an_armed_worker() {
    let mut w = Pipeline::new();
    w.recognizer_started(true);
    assert_eq!(w.phase, Phase::Disabled);
}

#[test]
fn segments_are_rebased_in_each_cycle() {
    let mut w = Pipeline::new();
    let mut f = ControlFlags::new();
    let mut transcript: Vec<TransSegment> = Vec::new();
    let mut bases: Vec<i64> = Vec::new();
    for (on_at, off_at) in [(10_000i64, 20_000i64), (45_000, 50_000), (50_000, 90_000)] {
        f.toggle(on_at);
        assert_eq!(w.poll(&mut f, "en"), PipelineAction::Restart);
        w.recognizer_started(true);
        bases.push(w.base_offset_ms);
        for start in [0u64, 500, 1_700] {
            assert_eq!(w.poll(&mut f, "en"), PipelineAction::Forward);
            let seg = w.utterance(start, start + 400, "words".to_string()).unwrap();
            assert!(seg.start_ms >= on_at);
            assert_eq!(seg.start_ms, on_at + start as i64);
            assert_eq!(seg.end_ms, on_at + start as i64 + 400);
            transcript.push(seg);
        }
        f.toggle(off_at);
        assert_eq!(w.poll(&mut f, "en"), PipelineAction::Discard);
        assert_eq!(w.phase, Phase::Disabled);
        assert!(w.utterance(0, 1, "late".to_string()).is_none());
    }
    assert_eq!(bases, vec![10_000, 45_000, 50_000]);
    assert_eq!(transcript.len(), 9);
    assert!(transcript.windows(2).all(|p| p[0].start_ms <= p[1].start_ms));
}

#[test]
fn stop_ends_the_worker_for_good() {
    let mut w = Pipeline::new();
    let mut f = flags(true, false, true, 0);
    w.poll(&mut f, "en");
    w.recognizer_started(true);
    f.request_stop();
    assert_eq!(w.poll(&mut f, "en"), PipelineAction::Exit);
    assert_eq!(w.phase, Phase::Terminal);
    let mut again = flags(true, false, true, 5);
    assert_eq!(w.poll(&mut again, "en"), PipelineAction::Exit);
    assert_eq!(again, flags(true, false, true, 5));
    assert!(w.utterance(0, 1, "after".to_string()).is_none());
}

#[test]
fn a_failed_stream_ends_the_worker() {
    let mut w = Pipeline::new();
    w.stream_failed();
    assert_eq!(w.phase, Phase::Terminal);
}

#[test]
fn rebasing_adds_and_holds_at_the_largest_offset() {
    assert_eq!(rebase(10_000, 500), 10_500);
    assert_eq!(rebase(0, 0), 0);
    assert_eq!(rebase(i64::MAX, 1), i64::MAX);
    assert_eq!(rebase(i64::MAX - 5, 5), i64::MAX);
    assert_eq!(rebase(1, u64::MAX), i64::MAX);
    assert_eq!(rebase(-10, 4), -6);
    assert_eq!(rebase(-10, 10), 0);
    assert_eq!(rebase(-10, 25), 15);
    assert_eq!(rebase(i64::MIN, 0), i64::MIN);
    assert_eq!(rebase(i64::MIN, u64::MAX), i64::MAX);
    assert_eq!(rebase(i64::MIN, 1 << 63), 0);
}

#[test]
fn an_empty_transcript_has_no_table() {
    assert_eq!(transcript_csv(&Vec::new()), None);
}

#[test]
fn the_table_of_a_transcript() {
    let transcript = vec![
        TransSegment { start_ms: 10_500, end_ms: 12_000, text: "hello there".to_string() },
        TransSegment {
            start_ms: 3_723_004,
            end_ms: 3_725_000,
            text: "she said \"wait\", twice".to_string(),
        },
        TransSegment { start_ms: 3_725_000, end_ms: 3_725_001, text: String::new() },
    ];
    let want = "start,end,text\n\
                00:00:10.500,00:00:12.000,\"hello there\"\n\
                01:02:03.004,01:02:05.000,\"she said \"\"wait\"\", twice\"\n\
                01:02:05.000,01:02:05.001,\"\"\n";
    assert_eq!(transcript_csv(&transcript), Some(want.to_string()));
}
