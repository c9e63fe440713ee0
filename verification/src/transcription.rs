//! Live transcription: the flags by which the control loop switches it, and
//! the states of the worker that feeds the recognizer.

use vstd::prelude::*;
use vstd::string::*;
use crate::text::{chars_of, digit_run, digits_number, scan_digits, string_of};

verus! {

/// What the control loop tells the transcription worker.
#[derive(Clone, Copy, PartialEq, Eq, Structural, Debug)]
pub struct ControlFlags {
    /// Transcription is wanted.
    pub enabled: bool,
    /// The session is over. Once set it stays set.
    pub stop: bool,
    /// Transcription was switched on and the worker has not started over yet.
    pub reset: bool,
    /// The session's elapsed milliseconds when transcription was last
    /// switched on.
    pub base_offset_ms: i64,
}

impl ControlFlags {
    /// The flags after the transcription key at `elapsed_ms`: switched off,
    /// or switched on with the base offset taken and a reset asked for.
    pub open spec fn toggled(self, elapsed_ms: i64) -> ControlFlags {
        if self.enabled {
            ControlFlags { enabled: false, ..self }
        } else {
            ControlFlags { enabled: true, reset: true, base_offset_ms: elapsed_ms, ..self }
        }
    }

    /// The flags at the start of a session.
    pub fn new() -> (r: Self)
        ensures
            r == (ControlFlags { enabled: false, stop: false, reset: false, base_offset_ms: 0 }),
    {
        ControlFlags { enabled: false, stop: false, reset: false, base_offset_ms: 0 }
    }

    /// Switches transcription at `elapsed_ms`.
    pub fn toggle(&mut self, elapsed_ms: i64)
        ensures
            *final(self) == old(self).toggled(elapsed_ms),
    {
        if self.enabled {
            self.enabled = false;
        } else {
            self.enabled = true;
            self.reset = true;
            self.base_offset_ms = elapsed_ms;
        }
    }

    /// Tells the worker to end.
    pub fn request_stop(&mut self)
        ensures
            *final(self) == (ControlFlags { stop: true, ..*old(self) }),
    {
        self.stop = true;
    }
}

/// Where the worker stands.
#[derive(Clone, Copy, PartialEq, Eq, Structural, Debug)]
pub enum Phase {
    /// Audio is read and thrown away.
    Disabled,
    /// A reset was seen; the recognizer is being started.
    Armed,
    /// Audio goes to the recognizer and utterances become segments.
    Listening,
    /// The worker has ended.
    Terminal,
}

/// What the worker does with the audio it reads next.
#[derive(Clone, Copy, PartialEq, Eq, Structural, Debug)]
pub enum PipelineAction {
    /// Read it and throw it away.
    Discard,
    /// Drop what the recognizer holds and start it anew, with the worker's
    /// language and base offset.
    Restart,
    /// Hand it to the recognizer.
    Forward,
    /// Read no more.
    Exit,
}

/// One recognized utterance, in milliseconds of the session's elapsed time.
#[derive(Debug)]
pub struct TransSegment {
    pub start_ms: i64,
    pub end_ms: i64,
    pub text: String,
}

/// A segment as contracts see it.
pub struct SegmentView {
    pub start_ms: i64,
    pub end_ms: i64,
    pub text: Seq<char>,
}

impl View for TransSegment {
    type V = SegmentView;

    open spec fn view(&self) -> SegmentView {
        SegmentView { start_ms: self.start_ms, end_ms: self.end_ms, text: self.text@ }
    }
}

/// The segments of a transcript as contracts see them.
pub open spec fn segment_views(segments: Seq<TransSegment>) -> Seq<SegmentView> {
    Seq::new(segments.len(), |i: int| segments[i]@)
}

/// The transcription worker's state.
pub struct Pipeline {
    pub phase: Phase,
    /// The base offset that was in force when the recognizer was last started.
    pub base_offset_ms: i64,
    /// The language that the recognizer was last started with.
    pub language: String,
}

/// The phase after the worker has looked at the flags.
pub open spec fn phase_after_poll(phase: Phase, flags: ControlFlags) -> Phase {
    if phase == Phase::Terminal || flags.stop {
        Phase::Terminal
    } else if !flags.enabled {
        Phase::Disabled
    } else if flags.reset {
        Phase::Armed
    } else {
        phase
    }
}

/// What the worker does after it has looked at the flags.
pub open spec fn action_after_poll(phase: Phase, flags: ControlFlags) -> PipelineAction {
    if phase == Phase::Terminal || flags.stop {
        PipelineAction::Exit
    } else if !flags.enabled {
        PipelineAction::Discard
    } else if flags.reset {
        PipelineAction::Restart
    } else if phase == Phase::Listening {
        PipelineAction::Forward
    } else {
        PipelineAction::Discard
    }
}

/// A session offset: the base offset and the recognizer's own offset added,
/// held at the largest offset there is.
pub open spec fn rebased(base_offset_ms: i64, offset_ms: u64) -> i64 {
    if base_offset_ms + offset_ms > i64::MAX {
        i64::MAX
    } else {
        (base_offset_ms + offset_ms) as i64
    }
}

/// Adds the recognizer's offset to the base offset.
pub fn rebase(base_offset_ms: i64, offset_ms: u64) -> (r: i64)
    ensures
        r == rebased(base_offset_ms, offset_ms),
        r >= base_offset_ms,
{
    let room: u64 = if base_offset_ms >= 0 {
        (i64::MAX - base_offset_ms) as u64
    } else {
        i64::MAX as u64
    };
    if base_offset_ms >= 0 {
        if offset_ms > room {
            i64::MAX
        } else {
            base_offset_ms + (offset_ms as i64)
        }
    } else {
        let below: u64 = ((-(base_offset_ms + 1)) as u64) + 1;
        if offset_ms >= below {
            let over: u64 = offset_ms - below;
            if over > room {
                i64::MAX
            } else {
                over as i64
            }
        } else {
            -((below - offset_ms - 1) as i64) - 1
        }
    }
}

/// A segment never starts before the base offset of its listening window.
pub proof fn lemma_segment_not_before_base(base_offset_ms: i64, offset_ms: u64)
    ensures
        rebased(base_offset_ms, offset_ms) >= base_offset_ms,
{
}

/// Later offsets within one listening window give later segments.
pub proof fn lemma_rebased_keeps_order(base_offset_ms: i64, first: u64, second: u64)
    requires
        first <= second,
    ensures
        rebased(base_offset_ms, first) <= rebased(base_offset_ms, second),
{
}

/// A worker that has ended stays ended, whatever the flags say, and does
/// nothing but leave. A stop ends the worker from any phase.
pub proof fn lemma_terminal_is_final(phase: Phase, flags: ControlFlags)
    ensures
        phase == Phase::Terminal ==> phase_after_poll(phase, flags) == Phase::Terminal
            && action_after_poll(phase, flags) == PipelineAction::Exit,
        flags.stop ==> phase_after_poll(phase, flags) == Phase::Terminal,
        action_after_poll(phase, flags) == PipelineAction::Forward ==> phase == Phase::Listening
            && flags.enabled && !flags.stop,
{
}

/// A look at the flags never makes a worker listen that did not listen
/// before: listening begins only when the recognizer has started. A reset is
/// taken only while transcription is on, and arms the worker.
pub proof fn lemma_poll_steps(phase: Phase, flags: ControlFlags)
    ensures
        phase_after_poll(phase, flags) == Phase::Listening ==> phase == Phase::Listening,
        action_after_poll(phase, flags) == PipelineAction::Restart <==> phase != Phase::Terminal
            && !flags.stop && flags.enabled && flags.reset,
        action_after_poll(phase, flags) == PipelineAction::Restart ==> phase_after_poll(
            phase,
            flags,
        ) == Phase::Armed,
        !flags.enabled && !flags.stop && phase != Phase::Terminal ==> phase_after_poll(phase, flags)
            == Phase::Disabled,
{
}

/// The largest offset that is read from the recognizer.
pub const OFFSET_MAX: u64 = 1_000_000_000_000_000;

/// What the recognizer says of one utterance: where it starts and ends, in
/// milliseconds from where the recognizer began to listen, and its text.
#[derive(Debug)]
pub struct Utterance {
    pub start_ms: u64,
    pub end_ms: u64,
    pub text: String,
}

/// An utterance as contracts see it.
pub struct UtteranceView {
    pub start_ms: u64,
    pub end_ms: u64,
    pub text: Seq<char>,
}

impl View for Utterance {
    type V = UtteranceView;

    open spec fn view(&self) -> UtteranceView {
        UtteranceView { start_ms: self.start_ms, end_ms: self.end_ms, text: self.text@ }
    }
}

/// The utterance that a line of the recognizer reports: the start in
/// digits, a space, the end in digits, a space, and the text, which is the
/// rest of the line. A line of another form, or with an offset above the
/// largest, reports nothing.
pub open spec fn utterance_of(line: Seq<char>) -> Option<UtteranceView> {
    let a = digit_run(line, 0);
    let b = digit_run(line, a + 1);
    if 0 < a < line.len() && line[a] == ' ' && a + 1 < b < line.len() && line[b] == ' '
        && digits_number(line, 0, a) <= OFFSET_MAX && digits_number(line, a + 1, b)
        <= OFFSET_MAX {
        Some(
            UtteranceView {
                start_ms: digits_number(line, 0, a) as u64,
                end_ms: digits_number(line, a + 1, b) as u64,
                text: line.skip(b + 1),
            },
        )
    } else {
        None
    }
}

/// Reads a line of the recognizer.
pub fn parse_utterance(line: &str) -> (r: Option<Utterance>)
    ensures
        r is Some <==> utterance_of(line@) is Some,
        r is Some ==> r->0@ == utterance_of(line@)->0,
{
    let v: Vec<char> = chars_of(line);
    let (a, start) = scan_digits(&v, 0, OFFSET_MAX + 1);
    if a == 0 || a >= v.len() || v[a] != ' ' || start > OFFSET_MAX {
        return None;
    }
    let (b, end) = scan_digits(&v, a + 1, OFFSET_MAX + 1);
    if b == a + 1 || b >= v.len() || v[b] != ' ' || end > OFFSET_MAX {
        return None;
    }
    let text: String = string_of(&v, b + 1, v.len());
    proof {
        assert(v@.subrange(b + 1, v@.len() as int) =~= v@.skip(b + 1));
    }
    Some(Utterance { start_ms: start, end_ms: end, text })
}

impl Pipeline {
    /// A worker that has not listened yet.
    pub fn new() -> (r: Self)
        ensures
            r.phase == Phase::Disabled,
            r.base_offset_ms == 0,
            r.language@ == Seq::<char>::empty(),
    {
        Pipeline { phase: Phase::Disabled, base_offset_ms: 0, language: String::new() }
    }

    /// The worker looks at the flags before it reads audio. A stop ends it for
    /// good. While transcription is off the audio is thrown away. A reset is
    /// taken: the flag is cleared, and the base offset and `language` are kept
    /// for the recognizer, which is to be started anew. Otherwise audio goes
    /// to the recognizer if it is listening.
    pub fn poll(&mut self, flags: &mut ControlFlags, language: &str) -> (action: PipelineAction)
        ensures
            action == action_after_poll(old(self).phase, *old(flags)),
            final(self).phase == phase_after_poll(old(self).phase, *old(flags)),
            action == PipelineAction::Restart ==> {
                &&& final(self).base_offset_ms == old(flags).base_offset_ms
                &&& final(self).language@ == language@
                &&& *final(flags) == (ControlFlags { reset: false, ..*old(flags) })
            },
            action != PipelineAction::Restart ==> {
                &&& final(self).base_offset_ms == old(self).base_offset_ms
                &&& final(self).language@ == old(self).language@
                &&& *final(flags) == *old(flags)
            },
    {
        if self.phase == Phase::Terminal || flags.stop {
            self.phase = Phase::Terminal;
            PipelineAction::Exit
        } else if !flags.enabled {
            self.phase = Phase::Disabled;
            PipelineAction::Discard
        } else if flags.reset {
            flags.reset = false;
            self.base_offset_ms = flags.base_offset_ms;
            self.language = String::from_str(language);
            self.phase = Phase::Armed;
            PipelineAction::Restart
        } else if self.phase == Phase::Listening {
            PipelineAction::Forward
        } else {
            PipelineAction::Discard
        }
    }

    /// The recognizer was started, or could not be: an armed worker listens,
    /// or ends. In any other phase nothing changes.
    pub fn recognizer_started(&mut self, ok: bool)
        ensures
            final(self).base_offset_ms == old(self).base_offset_ms,
            final(self).language@ == old(self).language@,
            final(self).phase == if old(self).phase == Phase::Armed {
                if ok {
                    Phase::Listening
                } else {
                    Phase::Terminal
                }
            } else {
                old(self).phase
            },
    {
        if self.phase == Phase::Armed {
            self.phase = if ok {
                Phase::Listening
            } else {
                Phase::Terminal
            };
        }
    }

    /// The audio stream or the recognizer failed: the worker ends. The
    /// recording goes on.
    pub fn stream_failed(&mut self)
        ensures
            final(self).phase == Phase::Terminal,
            final(self).base_offset_ms == old(self).base_offset_ms,
            final(self).language@ == old(self).language@,
    {
        self.phase = Phase::Terminal;
    }

    /// The recognizer reports an utterance, with offsets counted from where
    /// it began to listen. A listening worker makes a segment of it, with the
    /// base offset added to both offsets; in any other phase it is dropped.
    pub fn utterance(&self, start_ms: u64, end_ms: u64, text: String) -> (r: Option<TransSegment>)
        ensures
            r is Some <==> self.phase == Phase::Listening,
            r is Some ==> {
                &&& r->0.start_ms == rebased(self.base_offset_ms, start_ms)
                &&& r->0.end_ms == rebased(self.base_offset_ms, end_ms)
                &&& r->0.text@ == text@
                &&& r->0.start_ms >= self.base_offset_ms
            },
    {
        if self.phase == Phase::Listening {
            Some(
                TransSegment {
                    start_ms: rebase(self.base_offset_ms, start_ms),
                    end_ms: rebase(self.base_offset_ms, end_ms),
                    text,
                },
            )
        } else {
            None
        }
    }
}

} // verus!
