//! What the operator is shown: the texts of the session's screen.

use vstd::prelude::*;
use vstd::string::*;
use crate::diagnostics::{keep_last, RecentLines};
use crate::session::RecorderState;
use crate::text::{decimal, push_char, push_decimal, push_string, push_zero_filled, texts, zero_fill};
use crate::timecode::{format_timecode, timecode_text};
use crate::transcription::{segment_views, SegmentView, TransSegment};

verus! {

/// How many lines of the transcript are shown.
pub const SHOWN_LINES: usize = 10;

/// What is shown of the microphone.
#[derive(Clone, Copy, PartialEq, Eq, Structural, Debug)]
pub enum MicStatus {
    Muted,
    OnAir,
    Absent,
}

/// What the lower part of the screen shows.
#[derive(Clone, Copy, PartialEq, Eq, Structural, Debug)]
pub enum Pane {
    Transcript,
    Log,
}

/// What is shown of the microphone.
pub fn mic_status(has_mic: bool, muted: bool) -> (r: MicStatus)
    ensures
        r == if !has_mic {
            MicStatus::Absent
        } else if muted {
            MicStatus::Muted
        } else {
            MicStatus::OnAir
        },
{
    if !has_mic {
        MicStatus::Absent
    } else if muted {
        MicStatus::Muted
    } else {
        MicStatus::OnAir
    }
}

/// The lower part of the screen shows the transcript while transcription is
/// on and a model is configured, else the encoder's recent lines.
pub fn pane(state: &RecorderState) -> (r: Pane)
    ensures
        r == if state.flags.enabled && state.transcriber {
            Pane::Transcript
        } else {
            Pane::Log
        },
{
    if state.flags.enabled && state.transcriber {
        Pane::Transcript
    } else {
        Pane::Log
    }
}

/// Seconds as hours, minutes and seconds, two digits each, with colons.
pub open spec fn clock_text(secs: nat) -> Seq<char> {
    zero_fill(decimal(secs / 3600), 2) + seq![':'] + zero_fill(decimal((secs / 60) % 60), 2)
        + seq![':'] + zero_fill(decimal(secs % 60), 2)
}

/// The time shown: the elapsed time, and after a slash the session's whole
/// time where it has one.
pub open spec fn time_text(elapsed_secs: nat, duration: Option<u32>) -> Seq<char> {
    match duration {
        Some(d) => clock_text(elapsed_secs) + " / "@ + clock_text(d as nat),
        None => clock_text(elapsed_secs),
    }
}

/// Appends seconds as a clock shows them.
pub fn push_clock(out: &mut String, secs: u64)
    ensures
        final(out)@ == old(out)@ + clock_text(secs as nat),
{
    push_zero_filled(out, secs / 3600, 2);
    push_char(out, ':');
    push_zero_filled(out, (secs / 60) % 60, 2);
    push_char(out, ':');
    push_zero_filled(out, secs % 60, 2);
    proof {
        assert(out@ =~= old(out)@ + clock_text(secs as nat));
    }
}

/// The time shown.
pub fn format_time(elapsed_secs: u64, duration: Option<u32>) -> (r: String)
    ensures
        r@ == time_text(elapsed_secs as nat, duration),
{
    let mut out = String::new();
    push_clock(&mut out, elapsed_secs);
    match duration {
        Some(d) => {
            out.append(" / ");
            push_clock(&mut out, d as u64);
        },
        None => {},
    }
    proof {
        assert(out@ =~= time_text(elapsed_secs as nat, duration));
    }
    out
}

/// How many bookmarks there are, as the status line says it.
pub fn marker_count_text(count: usize) -> (r: String)
    ensures
        r@ == " | Markers: "@ + decimal(count as nat),
{
    let mut out = String::from_str(" | Markers: ");
    push_decimal(&mut out, count as u64);
    out
}

/// What is shown of a recording: its file, the monitor, the microphone and
/// the revision of the program.
pub open spec fn info_lines(
    file: Seq<char>,
    monitor: Seq<char>,
    mic: Option<Seq<char>>,
    revision: Option<Seq<char>>,
) -> Seq<char> {
    "File: "@ + file + "\nSink: "@ + monitor + "\nMic : "@ + (match mic {
        Some(m) => m,
        None => "(disabled)"@,
    }) + "\nRev : "@ + (match revision {
        Some(r) => r,
        None => "unknown"@,
    })
}

/// The text of a string slice that may be absent.
pub open spec fn str_text(o: Option<&str>) -> Option<Seq<char>> {
    match o {
        Some(s) => Some(s@),
        None => None,
    }
}

/// What is shown of a recording.
pub fn info_text(file: &str, monitor: &str, mic: Option<&str>, revision: Option<&str>) -> (r:
    String)
    ensures
        r@ == info_lines(file@, monitor@, str_text(mic), str_text(revision)),
{
    let mut out = String::from_str("File: ");
    out.append(file);
    out.append("\nSink: ");
    out.append(monitor);
    out.append("\nMic : ");
    match mic {
        Some(m) => out.append(m),
        None => out.append("(disabled)"),
    }
    out.append("\nRev : ");
    match revision {
        Some(r) => out.append(r),
        None => out.append("unknown"),
    }
    proof {
        assert(out@ =~= info_lines(file@, monitor@, str_text(mic), str_text(revision)));
    }
    out
}

/// The line shown of a segment: the time code of its start, a space, and
/// its text.
pub open spec fn segment_line(segment: SegmentView) -> Seq<char> {
    timecode_text(segment.start_ms as int) + seq![' '] + segment.text
}

/// The lines shown of a transcript: those of its last segments.
pub open spec fn shown_lines(segments: Seq<SegmentView>) -> Seq<Seq<char>> {
    keep_last(segments, SHOWN_LINES as int).map_values(|s: SegmentView| segment_line(s))
}

/// `lines` with a line feed between each two.
pub open spec fn joined(lines: Seq<Seq<char>>) -> Seq<char>
    decreases lines.len(),
{
    if lines.len() == 0 {
        Seq::empty()
    } else if lines.len() == 1 {
        lines[0]
    } else {
        joined(lines.drop_last()) + seq!['\n'] + lines.last()
    }
}

/// The line shown of a segment.
pub fn transcript_line(segment: &TransSegment) -> (r: String)
    ensures
        r@ == segment_line(segment@),
{
    let mut out: String = format_timecode(segment.start_ms);
    push_char(&mut out, ' ');
    out.append(segment.text.as_str());
    proof {
        assert(out@ =~= segment_line(segment@));
    }
    out
}

/// The lines shown of a transcript.
pub fn transcript_lines(segments: &Vec<TransSegment>) -> (r: Vec<String>)
    ensures
        texts(r@) == shown_lines(segment_views(segments@)),
{
    let len: usize = segments.len();
    let start: usize = if len > SHOWN_LINES {
        len - SHOWN_LINES
    } else {
        0
    };
    let ghost want = shown_lines(segment_views(segments@));
    let mut lines: Vec<String> = Vec::new();
    let mut i: usize = start;
    while i < len
        invariant
            start <= i <= len,
            len == segments.len(),
            start == if len > SHOWN_LINES {
                len - SHOWN_LINES
            } else {
                0
            },
            want == shown_lines(segment_views(segments@)),
            texts(lines@) == want.take(i - start),
        decreases len - i,
    {
        push_string(&mut lines, transcript_line(&segments[i]));
        i = i + 1;
        proof {
            assert(texts(lines@) =~= want.take(i - start));
        }
    }
    proof {
        assert(want.take(i - start) =~= want);
    }
    lines
}

/// Appends `lines` with a line feed between each two.
pub fn join_lines(lines: &Vec<String>) -> (r: String)
    ensures
        r@ == joined(texts(lines@)),
{
    let mut out = String::new();
    let mut i: usize = 0;
    while i < lines.len()
        invariant
            i <= lines.len(),
            out@ == joined(texts(lines@).take(i as int)),
        decreases lines.len() - i,
    {
        if i > 0 {
            push_char(&mut out, '\n');
        }
        out.append(lines[i].as_str());
        i = i + 1;
        proof {
            let now = texts(lines@).take(i as int);
            assert(now.drop_last() =~= texts(lines@).take(i - 1));
            assert(now.last() == lines@[i - 1]@);
            assert(out@ =~= joined(now));
        }
    }
    proof {
        assert(texts(lines@).take(i as int) =~= texts(lines@));
    }
    out
}

/// The transcript pane's text: the lines shown, or a word that
/// transcription is running while there is none.
pub fn transcript_body(segments: &Vec<TransSegment>) -> (r: String)
    ensures
        r@ == if segments@.len() == 0 {
            "Transcription running…"@
        } else {
            joined(shown_lines(segment_views(segments@)))
        },
{
    if segments.len() == 0 {
        String::from_str("Transcription running…")
    } else {
        let lines: Vec<String> = transcript_lines(segments);
        join_lines(&lines)
    }
}

/// The log pane's text: the recent lines.
pub fn log_body(recent: &RecentLines) -> (r: String)
    ensures
        r@ == joined(recent@),
{
    let mut out = String::new();
    let mut i: usize = 0;
    while i < recent.len()
        invariant
            i <= recent@.len(),
            out@ == joined(recent@.take(i as int)),
        decreases recent@.len() - i,
    {
        if i > 0 {
            push_char(&mut out, '\n');
        }
        out.append(recent.get(i).as_str());
        i = i + 1;
        proof {
            let now = recent@.take(i as int);
            assert(now.drop_last() =~= recent@.take(i - 1));
            assert(out@ =~= joined(now));
        }
    }
    proof {
        assert(recent@.take(i as int) =~= recent@);
    }
    out
}

} // verus!
