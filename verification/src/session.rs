//! The session's state and the control loop's decisions: what each key, each
//! look at the clock and each look at the encoder does to the session.

use vstd::prelude::*;
use vstd::string::*;
use crate::encoder::{clean_exit, is_clean, EncoderProbe, ExitStatus};
use crate::mic::{gain_for, gain_of, Gain};
use crate::text::{decimal, padded, push_decimal, push_padded, same_text};
use crate::transcription::ControlFlags;

verus! {

pub const NS_PER_MS: u64 = 1_000_000;

pub const NS_PER_SECOND: u64 = 1_000_000_000;

/// A key as the control loop sees it.
#[derive(Clone, Copy, PartialEq, Eq, Structural, Debug)]
pub enum Key {
    Char(char),
    Esc,
    Other,
}

/// What the operator asks for.
#[derive(Clone, Copy, PartialEq, Eq, Structural, Debug)]
pub enum Event {
    Quit,
    ToggleMute,
    Bookmark,
    ToggleTranscription,
    ToggleLanguage,
}

/// Something the operator is told in the recent lines.
#[derive(Clone, Copy, PartialEq, Eq, Structural, Debug)]
pub enum Notice {
    /// Transcription was asked for and no model is configured.
    ModelMissing,
    /// The language was changed to the session's language.
    LanguageSet,
}

/// What the control loop does outside the session's state after an event.
#[derive(Clone, Copy, PartialEq, Eq, Structural, Debug)]
pub enum Action {
    Nothing,
    /// Write this gain to the microphone's control channel.
    WriteGain(Gain),
    /// Append this notice to the recent lines.
    Log(Notice),
}

/// Why a session ended in failure.
#[derive(Clone, Copy, PartialEq, Eq, Structural, Debug)]
pub enum SessionError {
    /// The encoder ended with this status, which is not a clean stop.
    EncoderFailed(ExitStatus),
    /// The encoder's state could not be read.
    EncoderLost,
}

/// What one turn of the control loop leaves to be done outside the state.
#[derive(Clone, Copy, PartialEq, Eq, Structural, Debug)]
pub struct Turn {
    /// What the event asks for.
    pub action: Action,
    /// The failure that the look at the encoder showed.
    pub error: Option<SessionError>,
    /// Whether the session's time ran out in this turn.
    pub expired: bool,
}

/// An event and the clock's reading when it came.
pub struct Timed {
    pub event: Event,
    pub at_ns: u64,
}

/// A bookmark: the elapsed nanoseconds at which it was set, and its note.
#[derive(Debug)]
pub struct Marker {
    pub timestamp_ns: u64,
    pub note: String,
}

/// A bookmark as contracts see it.
pub struct MarkerView {
    pub timestamp_ns: u64,
    pub note: Seq<char>,
}

impl View for Marker {
    type V = MarkerView;

    open spec fn view(&self) -> MarkerView {
        MarkerView { timestamp_ns: self.timestamp_ns, note: self.note@ }
    }
}

/// The session as contracts see it.
pub struct SessionModel {
    pub clock_ns: u64,
    pub duration: Option<u32>,
    pub muted: bool,
    pub mic: bool,
    pub running: bool,
    pub markers: Seq<MarkerView>,
    pub flags: ControlFlags,
    pub language: Seq<char>,
    pub transcriber: bool,
}

/// The event that a key stands for; `control` says whether the control key
/// was held.
pub open spec fn key_event(key: Key, control: bool) -> Option<Event> {
    match key {
        Key::Esc => Some(Event::Quit),
        Key::Char(c) => if c == 'q' {
            Some(Event::Quit)
        } else if c == 'c' && control {
            Some(Event::Quit)
        } else if c == 'm' {
            Some(Event::ToggleMute)
        } else if c == 'b' {
            Some(Event::Bookmark)
        } else if c == 't' {
            Some(Event::ToggleTranscription)
        } else if c == 'l' {
            Some(Event::ToggleLanguage)
        } else {
            None
        },
        Key::Other => None,
    }
}

/// The later of two clock readings.
pub open spec fn later(a: u64, b: u64) -> u64 {
    if a >= b {
        a
    } else {
        b
    }
}

/// The number of the bookmark that follows `count` bookmarks.
pub open spec fn next_number(count: nat) -> nat {
    if count < u64::MAX {
        count + 1
    } else {
        count
    }
}

/// The note of the bookmark with this number.
pub open spec fn marker_note(number: nat) -> Seq<char> {
    "Marker #"@ + decimal(number)
}

/// The language that the language key changes to: French from English,
/// English from anything else.
pub open spec fn other_language(language: Seq<char>) -> Seq<char> {
    if language == "en"@ {
        "fr"@
    } else {
        "en"@
    }
}

/// Whether the time stamps do not decrease from one bookmark to the next.
pub open spec fn markers_ordered(markers: Seq<MarkerView>) -> bool {
    forall|i: int, j: int|
        0 <= i <= j < markers.len() ==> markers[i].timestamp_ns <= markers[j].timestamp_ns
}

impl SessionModel {
    /// A session at its start.
    pub open spec fn initial(
        duration: Option<u32>,
        mic: bool,
        transcriber: bool,
        language: Seq<char>,
    ) -> SessionModel {
        SessionModel {
            clock_ns: 0,
            duration,
            muted: false,
            mic,
            running: true,
            markers: Seq::empty(),
            flags: ControlFlags { enabled: false, stop: false, reset: false, base_offset_ms: 0 },
            language,
            transcriber,
        }
    }

    /// What holds of a session at all times: no bookmark lies after the
    /// clock's last reading or before an earlier bookmark, the base offset is
    /// a time that the clock has read, and a session that was told to stop no
    /// longer runs.
    pub open spec fn wf(self) -> bool {
        &&& markers_ordered(self.markers)
        &&& forall|i: int|
            0 <= i < self.markers.len() ==> (#[trigger] self.markers[i]).timestamp_ns
                <= self.clock_ns
        &&& 0 <= self.flags.base_offset_ms <= self.clock_ns / 1_000_000
        &&& self.flags.stop ==> !self.running
    }

    /// The session after `event` came at the clock reading `now`. A session
    /// that no longer runs takes no event. The clock does not run backwards:
    /// a reading before the last one counts as the last one.
    pub open spec fn after_event(self, event: Event, now: u64) -> SessionModel {
        let clock = later(self.clock_ns, now);
        if !self.running {
            self
        } else {
            match event {
                Event::Quit => SessionModel {
                    clock_ns: clock,
                    running: false,
                    flags: ControlFlags { stop: true, ..self.flags },
                    ..self
                },
                Event::ToggleMute => SessionModel {
                    clock_ns: clock,
                    muted: if self.mic {
                        !self.muted
                    } else {
                        self.muted
                    },
                    ..self
                },
                Event::Bookmark => SessionModel {
                    clock_ns: clock,
                    markers: self.markers.push(
                        MarkerView {
                            timestamp_ns: clock,
                            note: marker_note(next_number(self.markers.len())),
                        },
                    ),
                    ..self
                },
                Event::ToggleTranscription => SessionModel {
                    clock_ns: clock,
                    flags: if self.transcriber {
                        self.flags.toggled((clock / 1_000_000) as i64)
                    } else {
                        self.flags
                    },
                    ..self
                },
                Event::ToggleLanguage => SessionModel {
                    clock_ns: clock,
                    language: other_language(self.language),
                    ..self
                },
            }
        }
    }

    /// What the control loop does after `event`.
    pub open spec fn action_for(self, event: Event) -> Action {
        if !self.running {
            Action::Nothing
        } else {
            match event {
                Event::ToggleMute => if self.mic {
                    Action::WriteGain(gain_of(!self.muted))
                } else {
                    Action::Nothing
                },
                Event::ToggleTranscription => if self.transcriber {
                    Action::Nothing
                } else {
                    Action::Log(Notice::ModelMissing)
                },
                Event::ToggleLanguage => Action::Log(Notice::LanguageSet),
                _ => Action::Nothing,
            }
        }
    }

    /// Whether the session's time is up at the clock reading `clock`.
    pub open spec fn expired_at(self, clock: u64) -> bool {
        match self.duration {
            Some(d) => clock >= d * 1_000_000_000,
            None => false,
        }
    }

    /// The session after the clock was read: it stops when its time is up.
    pub open spec fn after_clock(self, now: u64) -> SessionModel {
        let clock = later(self.clock_ns, now);
        SessionModel { clock_ns: clock, running: self.running && !self.expired_at(clock), ..self }
    }

    /// The session after a look at the encoder: it stops unless the encoder
    /// runs.
    pub open spec fn after_probe(self, probe: EncoderProbe) -> SessionModel {
        SessionModel { running: self.running && probe == EncoderProbe::Running, ..self }
    }

    /// The session after one turn of the control loop: the event, if one
    /// came, then the look at the encoder, then the look at the clock.
    pub open spec fn after_turn(self, event: Option<Event>, now: u64, probe: EncoderProbe)
        -> SessionModel {
        let heard = match event {
            Some(e) => self.after_event(e, now),
            None => self,
        };
        heard.after_probe(probe).after_clock(now)
    }

    /// What one turn of the control loop leaves to be done.
    pub open spec fn turn_for(self, event: Option<Event>, now: u64, probe: EncoderProbe) -> Turn {
        Turn {
            action: match event {
                Some(e) => self.action_for(e),
                None => Action::Nothing,
            },
            error: probe_error(probe),
            expired: {
                let heard = match event {
                    Some(e) => self.after_event(e, now),
                    None => self,
                };
                heard.after_probe(probe).running && !self.after_turn(event, now, probe).running
            },
        }
    }

    /// The session after the control loop has ended.
    pub open spec fn finished(self) -> SessionModel {
        SessionModel { running: false, flags: ControlFlags { stop: true, ..self.flags }, ..self }
    }

    /// The session after each of `events` in turn.
    pub open spec fn after_events(self, events: Seq<Timed>) -> SessionModel
        decreases events.len(),
    {
        if events.len() == 0 {
            self
        } else {
            self.after_event(events[0].event, events[0].at_ns).after_events(events.drop_first())
        }
    }

    /// What the control loop does after each of `events` in turn.
    pub open spec fn actions_for(self, events: Seq<Timed>) -> Seq<Action>
        decreases events.len(),
    {
        if events.len() == 0 {
            Seq::empty()
        } else {
            seq![self.action_for(events[0].event)] + self.after_event(
                events[0].event,
                events[0].at_ns,
            ).actions_for(events.drop_first())
        }
    }
}

/// The failure that a look at the encoder shows, if any.
pub open spec fn probe_error(probe: EncoderProbe) -> Option<SessionError> {
    match probe {
        EncoderProbe::Running => None,
        EncoderProbe::Exited(status) => if is_clean(status) {
            None
        } else {
            Some(SessionError::EncoderFailed(status))
        },
        EncoderProbe::Lost => Some(SessionError::EncoderLost),
    }
}

/// What is said of a failure.
pub open spec fn error_text(err: SessionError) -> Seq<char> {
    match err {
        SessionError::EncoderFailed(status) => match (status.code, status.signal) {
            (Some(code), _) => "ffmpeg exited with status "@ + padded(code as int, 0),
            (None, Some(signal)) => "ffmpeg was ended by signal "@ + padded(signal as int, 0),
            (None, None) => "ffmpeg ended abnormally"@,
        },
        SessionError::EncoderLost => "the state of ffmpeg could not be read"@,
    }
}

/// What is said of a failure.
pub fn error_message(err: SessionError) -> (r: String)
    ensures
        r@ == error_text(err),
{
    match err {
        SessionError::EncoderFailed(status) => match (status.code, status.signal) {
            (Some(code), _) => {
                let mut text = String::from_str("ffmpeg exited with status ");
                push_padded(&mut text, code as i64, 0);
                text
            },
            (None, Some(signal)) => {
                let mut text = String::from_str("ffmpeg was ended by signal ");
                push_padded(&mut text, signal as i64, 0);
                text
            },
            (None, None) => String::from_str("ffmpeg ended abnormally"),
        },
        SessionError::EncoderLost => String::from_str("the state of ffmpeg could not be read"),
    }
}

/// The event that a key stands for.
pub fn event_for_key(key: Key, control: bool) -> (r: Option<Event>)
    ensures
        r == key_event(key, control),
{
    match key {
        Key::Esc => Some(Event::Quit),
        Key::Char(c) => {
            if c == 'q' {
                Some(Event::Quit)
            } else if c == 'c' && control {
                Some(Event::Quit)
            } else if c == 'm' {
                Some(Event::ToggleMute)
            } else if c == 'b' {
                Some(Event::Bookmark)
            } else if c == 't' {
                Some(Event::ToggleTranscription)
            } else if c == 'l' {
                Some(Event::ToggleLanguage)
            } else {
                None
            }
        },
        Key::Other => None,
    }
}

/// The mutable state of a recording session.
pub struct RecorderState {
    /// The clock's last reading, in nanoseconds since the session began.
    pub elapsed_ns: u64,
    /// The seconds after which the session stops by itself.
    pub duration: Option<u32>,
    pub mic_muted: bool,
    /// Whether the microphone has a control channel.
    pub mic_control: bool,
    pub running: bool,
    pub markers: Vec<Marker>,
    pub flags: ControlFlags,
    pub language: String,
    /// Whether a transcription model is configured.
    pub transcriber: bool,
}

impl View for RecorderState {
    type V = SessionModel;

    open spec fn view(&self) -> SessionModel {
        SessionModel {
            clock_ns: self.elapsed_ns,
            duration: self.duration,
            muted: self.mic_muted,
            mic: self.mic_control,
            running: self.running,
            markers: Seq::new(self.markers@.len(), |i: int| self.markers@[i]@),
            flags: self.flags,
            language: self.language@,
            transcriber: self.transcriber,
        }
    }
}

/// An event keeps what holds of a session at all times. It never restarts a
/// session, never takes a stop back, never removes or changes a bookmark, and
/// never moves the base offset or the clock back.
pub proof fn lemma_event_keeps_order(s: SessionModel, event: Event, now: u64)
    requires
        s.wf(),
    ensures
        s.after_event(event, now).wf(),
        !s.running ==> !s.after_event(event, now).running,
        s.flags.stop ==> s.after_event(event, now).flags.stop,
        s.after_event(event, now).flags.base_offset_ms >= s.flags.base_offset_ms,
        s.after_event(event, now).clock_ns >= s.clock_ns,
        s.markers.is_prefix_of(s.after_event(event, now).markers),
{
    let t = s.after_event(event, now);
    assert(s.markers.is_prefix_of(t.markers));
    assert(later(s.clock_ns, now) / 1_000_000 >= s.clock_ns / 1_000_000);
}

/// The same over any run of events.
pub proof fn lemma_events_keep_order(s: SessionModel, events: Seq<Timed>)
    requires
        s.wf(),
    ensures
        s.after_events(events).wf(),
        !s.running ==> !s.after_events(events).running,
        s.flags.stop ==> s.after_events(events).flags.stop,
        s.after_events(events).flags.base_offset_ms >= s.flags.base_offset_ms,
        s.after_events(events).clock_ns >= s.clock_ns,
        s.markers.is_prefix_of(s.after_events(events).markers),
        markers_ordered(s.after_events(events).markers),
    decreases events.len(),
{
    if events.len() > 0 {
        let t = s.after_event(events[0].event, events[0].at_ns);
        lemma_event_keeps_order(s, events[0].event, events[0].at_ns);
        lemma_events_keep_order(t, events.drop_first());
    }
}

/// A turn of the control loop keeps what holds of a session at all times,
/// and never restarts a session or takes a stop back. So does the loop's end.
pub proof fn lemma_turn_keeps_order(
    s: SessionModel,
    event: Option<Event>,
    now: u64,
    probe: EncoderProbe,
)
    requires
        s.wf(),
    ensures
        s.after_turn(event, now, probe).wf(),
        !s.running ==> !s.after_turn(event, now, probe).running,
        s.flags.stop ==> s.after_turn(event, now, probe).flags.stop,
        s.after_turn(event, now, probe).flags.base_offset_ms >= s.flags.base_offset_ms,
        s.markers.is_prefix_of(s.after_turn(event, now, probe).markers),
        s.finished().wf(),
{
    let heard = match event {
        Some(e) => s.after_event(e, now),
        None => s,
    };
    if event is Some {
        lemma_event_keeps_order(s, event->0, now);
    }
    assert(later(heard.clock_ns, now) / 1_000_000 >= heard.clock_ns / 1_000_000);
}

/// The gain of the `i`-th directive of a run of mute keys that begins in the
/// mute state `muted`.
pub open spec fn toggled_gain(muted: bool, i: int) -> Gain {
    gain_of((i % 2 == 0) != muted)
}

/// In a running session with a microphone, a run of mute keys has one gain
/// written for each key, and the gains alternate: from an open microphone
/// the first is silence, the second full gain, and so on.
pub proof fn lemma_mute_keys_alternate(s: SessionModel, events: Seq<Timed>)
    requires
        s.running,
        s.mic,
        forall|i: int| 0 <= i < events.len() ==> (#[trigger] events[i]).event == Event::ToggleMute,
    ensures
        s.actions_for(events).len() == events.len(),
        forall|i: int|
            0 <= i < events.len() ==> #[trigger] s.actions_for(events)[i] == Action::WriteGain(
                toggled_gain(s.muted, i),
            ),
        s.after_events(events).muted == ((events.len() % 2 == 0) == s.muted),
    decreases events.len(),
{
    if events.len() > 0 {
        let t = s.after_event(events[0].event, events[0].at_ns);
        let rest = events.drop_first();
        assert(events[0].event == Event::ToggleMute);
        assert forall|i: int| 0 <= i < rest.len() implies (#[trigger] rest[i]).event
            == Event::ToggleMute by {
            assert(rest[i] == events[i + 1]);
        }
        lemma_mute_keys_alternate(t, rest);
        assert forall|i: int| 0 <= i < events.len() implies #[trigger] s.actions_for(events)[i]
            == Action::WriteGain(toggled_gain(s.muted, i)) by {
            if i > 0 {
                assert(s.actions_for(events)[i] == t.actions_for(rest)[i - 1]);
            }
        }
    }
}

impl RecorderState {
    /// A session at its start: running, the microphone open, no bookmark,
    /// transcription off.
    pub fn new(duration: Option<u32>, mic_control: bool, transcriber: bool, language: String) -> (r:
        Self)
        ensures
            r@ == SessionModel::initial(duration, mic_control, transcriber, language@),
            r@.wf(),
    {
        let r = RecorderState {
            elapsed_ns: 0,
            duration,
            mic_muted: false,
            mic_control,
            running: true,
            markers: Vec::new(),
            flags: ControlFlags::new(),
            language,
            transcriber,
        };
        proof {
            assert(r@.markers =~= Seq::<MarkerView>::empty());
        }
        r
    }

    /// Whether what holds of a session at all times holds of this one.
    pub fn is_consistent(&self) -> (r: bool)
        ensures
            r == self@.wf(),
    {
        if self.flags.base_offset_ms < 0 || (self.flags.stop && self.running) {
            return false;
        }
        if (self.flags.base_offset_ms as u64) > self.elapsed_ns / NS_PER_MS {
            return false;
        }
        let mut k: usize = 0;
        while k < self.markers.len()
            invariant
                k <= self.markers.len(),
                forall|i: int, j: int|
                    0 <= i <= j < k ==> self@.markers[i].timestamp_ns
                        <= self@.markers[j].timestamp_ns,
                forall|i: int|
                    0 <= i < k ==> (#[trigger] self@.markers[i]).timestamp_ns <= self.elapsed_ns,
            decreases self.markers.len() - k,
        {
            let at: u64 = self.markers[k].timestamp_ns;
            proof {
                assert(self@.markers[k as int].timestamp_ns == at);
            }
            if at > self.elapsed_ns {
                return false;
            }
            if k > 0 {
                let before: u64 = self.markers[k - 1].timestamp_ns;
                proof {
                    assert(self@.markers[k - 1].timestamp_ns == before);
                }
                if before > at {
                    return false;
                }
            }
            k = k + 1;
        }
        true
    }

    /// Takes in one event that came at the clock reading `elapsed_ns`, and
    /// says what is to be done outside the state.
    pub fn handle_event(&mut self, event: Event, elapsed_ns: u64) -> (action: Action)
        ensures
            final(self)@ == old(self)@.after_event(event, elapsed_ns),
            action == old(self)@.action_for(event),
            old(self)@.wf() ==> final(self)@.wf() && final(self)@.flags.base_offset_ms >= old(
                self,
            )@.flags.base_offset_ms,
            old(self)@.markers.is_prefix_of(final(self)@.markers),
    {
        proof {
            if old(self)@.wf() {
                lemma_event_keeps_order(old(self)@, event, elapsed_ns);
            }
            assert(old(self)@.markers.is_prefix_of(
                old(self)@.after_event(event, elapsed_ns).markers,
            ));
        }
        if !self.running {
            return Action::Nothing;
        }
        if elapsed_ns > self.elapsed_ns {
            self.elapsed_ns = elapsed_ns;
        }
        let action: Action = match event {
            Event::Quit => {
                self.running = false;
                self.flags.request_stop();
                Action::Nothing
            },
            Event::ToggleMute => {
                if self.mic_control {
                    self.mic_muted = !self.mic_muted;
                    Action::WriteGain(gain_for(self.mic_muted))
                } else {
                    Action::Nothing
                }
            },
            Event::Bookmark => {
                let count: u64 = self.markers.len() as u64;
                let number: u64 = if count < u64::MAX {
                    count + 1
                } else {
                    count
                };
                let mut note = String::from_str("Marker #");
                push_decimal(&mut note, number);
                self.markers.push(Marker { timestamp_ns: self.elapsed_ns, note });
                Action::Nothing
            },
            Event::ToggleTranscription => {
                if self.transcriber {
                    self.flags.toggle((self.elapsed_ns / NS_PER_MS) as i64);
                    Action::Nothing
                } else {
                    Action::Log(Notice::ModelMissing)
                }
            },
            Event::ToggleLanguage => {
                self.language = if same_text(self.language.as_str(), "en") {
                    String::from_str("fr")
                } else {
                    String::from_str("en")
                };
                Action::Log(Notice::LanguageSet)
            },
        };
        proof {
            assert(self@.markers =~= old(self)@.after_event(event, elapsed_ns).markers);
        }
        action
    }

    /// Takes in a reading of the clock. The session stops when its time is
    /// up; the result says whether it stopped in this call, which happens at
    /// most once in a session.
    pub fn check_duration(&mut self, elapsed_ns: u64) -> (stopped: bool)
        ensures
            final(self)@ == old(self)@.after_clock(elapsed_ns),
            old(self)@.wf() ==> final(self)@.wf(),
            stopped == (old(self).running && !final(self).running),
    {
        if elapsed_ns > self.elapsed_ns {
            self.elapsed_ns = elapsed_ns;
        }
        proof {
            assert(self.elapsed_ns / 1_000_000 >= old(self).elapsed_ns / 1_000_000);
        }
        let up: bool = match self.duration {
            Some(d) => self.elapsed_ns >= (d as u64) * NS_PER_SECOND,
            None => false,
        };
        if self.running && up {
            self.running = false;
            true
        } else {
            false
        }
    }

    /// Takes in a look at the encoder. The session stops unless the encoder
    /// runs. An end that is not a clean stop, or a state that could not be
    /// read, is the session's failure.
    pub fn observe_encoder(&mut self, probe: EncoderProbe) -> (r: Option<SessionError>)
        ensures
            final(self)@ == old(self)@.after_probe(probe),
            old(self)@.wf() ==> final(self)@.wf(),
            r == probe_error(probe),
    {
        match probe {
            EncoderProbe::Running => None,
            EncoderProbe::Exited(status) => {
                self.running = false;
                if clean_exit(status) {
                    None
                } else {
                    Some(SessionError::EncoderFailed(status))
                }
            },
            EncoderProbe::Lost => {
                self.running = false;
                Some(SessionError::EncoderLost)
            },
        }
    }

    /// One turn of the control loop after the screen was drawn: the event
    /// that was polled, if any, is taken in; then the look at the encoder;
    /// then the clock. The loop ends when the session no longer runs.
    pub fn tick(&mut self, event: Option<Event>, elapsed_ns: u64, probe: EncoderProbe) -> (turn:
        Turn)
        ensures
            final(self)@ == old(self)@.after_turn(event, elapsed_ns, probe),
            old(self)@.wf() ==> final(self)@.wf(),
            turn == old(self)@.turn_for(event, elapsed_ns, probe),
    {
        let action: Action = match event {
            Some(e) => self.handle_event(e, elapsed_ns),
            None => Action::Nothing,
        };
        let error: Option<SessionError> = self.observe_encoder(probe);
        let expired: bool = self.check_duration(elapsed_ns);
        Turn { action, error, expired }
    }

    /// Ends the session: it no longer runs, and the transcription worker is
    /// told to stop.
    pub fn finish(&mut self)
        ensures
            final(self)@ == old(self)@.finished(),
            old(self)@.wf() ==> final(self)@.wf(),
    {
        self.running = false;
        self.flags.request_stop();
    }

    /// The bookmarks to write out when the session is over: all of them, and
    /// nothing where none was set. Their time stamps do not decrease.
    pub fn markers_to_export(&self) -> (r: Option<&Vec<Marker>>)
        ensures
            r is Some <==> self@.markers.len() > 0,
            r is Some ==> *(r->0) == self.markers,
            self@.wf() ==> markers_ordered(self@.markers),
    {
        if self.markers.len() > 0 {
            Some(&self.markers)
        } else {
            None
        }
    }

    /// The text of a notice.
    pub fn notice_text(&self, notice: Notice) -> (r: String)
        ensures
            r@ == match notice {
                Notice::ModelMissing => "Transcription model not configured"@,
                Notice::LanguageSet => "Language set to "@ + self.language@,
            },
    {
        match notice {
            Notice::ModelMissing => String::from_str("Transcription model not configured"),
            Notice::LanguageSet => {
                let mut text = String::from_str("Language set to ");
                text.append(self.language.as_str());
                text
            },
        }
    }
}

} // verus!
