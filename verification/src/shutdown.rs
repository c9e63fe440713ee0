//! Taking a session down: what is done, and in which order.

use vstd::prelude::*;
use crate::encoder::{must_terminate, needs_kill, EncoderProbe};

verus! {

/// One step of taking a session down.
#[derive(Clone, Copy, PartialEq, Eq, Structural, Debug)]
pub enum ShutdownStep {
    /// Give the terminal back as it was.
    RestoreTerminal,
    /// End the encoder by force and wait for it.
    TerminateEncoder,
    /// Tell the transcription worker to stop.
    SetStopFlag,
    /// Wait for the transcription worker.
    JoinTranscriber,
    /// Remove the file of the microphone's control channel.
    RemoveChannel,
    /// Write the bookmarks beside the recording.
    SaveMarkers,
    /// Write the transcript beside the recording.
    SaveTranscript,
    /// Say how the session ended.
    Report,
}

/// What is known of a session when it is taken down.
#[derive(Clone, Copy, PartialEq, Eq, Structural, Debug)]
pub struct Teardown {
    /// What the last look at the encoder found.
    pub encoder: EncoderProbe,
    /// Whether a transcription worker was started.
    pub transcriber: bool,
    /// Whether the microphone has a control channel.
    pub mic_control: bool,
    /// How many bookmarks were set.
    pub markers: usize,
    /// Whether the transcript is to be written out.
    pub save_transcript: bool,
    /// How many segments the transcript holds.
    pub segments: usize,
}

/// `step` if `wanted`, else nothing.
pub open spec fn step_if(wanted: bool, step: ShutdownStep) -> Seq<ShutdownStep> {
    if wanted {
        seq![step]
    } else {
        Seq::empty()
    }
}

/// The steps of taking a session down, in order. The terminal comes first
/// and the report last, whatever else there is to do. The encoder is ended by
/// force unless it is known to have ended. Bookmarks are written only if
/// there are any, the transcript only if it is wanted and not empty.
pub open spec fn shutdown_steps(t: Teardown) -> Seq<ShutdownStep> {
    seq![ShutdownStep::RestoreTerminal] + step_if(
        needs_kill(t.encoder),
        ShutdownStep::TerminateEncoder,
    ) + seq![ShutdownStep::SetStopFlag] + step_if(t.transcriber, ShutdownStep::JoinTranscriber)
        + step_if(t.mic_control, ShutdownStep::RemoveChannel) + step_if(
        t.markers > 0,
        ShutdownStep::SaveMarkers,
    ) + step_if(t.save_transcript && t.segments > 0, ShutdownStep::SaveTranscript)
        + seq![ShutdownStep::Report]
}

fn push_if(plan: &mut Vec<ShutdownStep>, wanted: bool, step: ShutdownStep)
    ensures
        final(plan)@ == old(plan)@ + step_if(wanted, step),
{
    if wanted {
        plan.push(step);
    }
    proof {
        assert(plan@ =~= old(plan)@ + step_if(wanted, step));
    }
}

/// The steps by which a session is taken down, in order.
pub fn shutdown_plan(t: Teardown) -> (r: Vec<ShutdownStep>)
    ensures
        r@ == shutdown_steps(t),
{
    let mut plan: Vec<ShutdownStep> = Vec::new();
    push_if(&mut plan, true, ShutdownStep::RestoreTerminal);
    push_if(&mut plan, must_terminate(t.encoder), ShutdownStep::TerminateEncoder);
    push_if(&mut plan, true, ShutdownStep::SetStopFlag);
    push_if(&mut plan, t.transcriber, ShutdownStep::JoinTranscriber);
    push_if(&mut plan, t.mic_control, ShutdownStep::RemoveChannel);
    push_if(&mut plan, t.markers > 0, ShutdownStep::SaveMarkers);
    push_if(&mut plan, t.save_transcript && t.segments > 0, ShutdownStep::SaveTranscript);
    push_if(&mut plan, true, ShutdownStep::Report);
    proof {
        assert(plan@ =~= shutdown_steps(t));
    }
    plan
}

} // verus!
