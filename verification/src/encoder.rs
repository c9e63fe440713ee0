//! The encoder process: how it is told what to record, and how its end is
//! judged.

use vstd::prelude::*;
use vstd::string::*;
use crate::text::{decimal, opt_text, push_decimal, push_string, push_text, texts};

verus! {

/// The signal by which the operator interrupts a process.
pub const SIGNAL_INTERRUPT: i32 = 2;

/// How a process ended: its exit code, or the signal that ended it.
#[derive(Clone, Copy, PartialEq, Eq, Structural, Debug)]
pub struct ExitStatus {
    pub code: Option<i32>,
    pub signal: Option<i32>,
}

/// What a look at the encoder process found.
#[derive(Clone, Copy, PartialEq, Eq, Structural, Debug)]
pub enum EncoderProbe {
    /// It runs.
    Running,
    /// It has ended.
    Exited(ExitStatus),
    /// Its state could not be read.
    Lost,
}

/// Whether an end counts as a clean stop: exit code zero, or the process's
/// own end on an interrupt signal.
pub open spec fn is_clean(status: ExitStatus) -> bool {
    status.code == Some(0i32) || status.signal == Some(SIGNAL_INTERRUPT)
}

/// Whether the encoder ended cleanly.
pub fn clean_exit(status: ExitStatus) -> (r: bool)
    ensures
        r == is_clean(status),
{
    let by_code: bool = match status.code {
        Some(c) => c == 0,
        None => false,
    };
    let by_signal: bool = match status.signal {
        Some(s) => s == SIGNAL_INTERRUPT,
        None => false,
    };
    by_code || by_signal
}

/// Whether the encoder must be ended by force when the session is taken
/// down: unless it is known to have ended.
pub open spec fn needs_kill(probe: EncoderProbe) -> bool {
    !(probe is Exited)
}

/// Whether the encoder must be ended by force.
pub fn must_terminate(probe: EncoderProbe) -> (r: bool)
    ensures
        r == needs_kill(probe),
{
    match probe {
        EncoderProbe::Exited(_) => false,
        _ => true,
    }
}

/// What the encoder is to record.
pub struct EncoderPlan {
    /// The monitor tap: what the other side of the call says.
    pub monitor: String,
    /// The microphone tap, if the microphone is recorded.
    pub mic: Option<String>,
    /// The file of the microphone's control channel.
    pub mic_control: Option<String>,
    /// The file that the recording is written to.
    pub output: String,
    /// The seconds after which the encoder stops by itself.
    pub duration: Option<u32>,
    /// Whether a raw copy of the mix is wanted for transcription.
    pub transcribe: bool,
}

/// A plan as contracts see it.
pub struct PlanView {
    pub monitor: Seq<char>,
    pub mic: Option<Seq<char>>,
    pub mic_control: Option<Seq<char>>,
    pub output: Seq<char>,
    pub duration: Option<u32>,
    pub transcribe: bool,
}

impl View for EncoderPlan {
    type V = PlanView;

    open spec fn view(&self) -> PlanView {
        PlanView {
            monitor: self.monitor@,
            mic: opt_text(self.mic),
            mic_control: opt_text(self.mic_control),
            output: self.output@,
            duration: self.duration,
            transcribe: self.transcribe,
        }
    }
}

/// The start of the filter graph with a microphone: the microphone passes a
/// stage that takes gain directives from the control channel's file, and is
/// then mixed with the monitor for as long as the longer of the two lasts.
pub open spec fn mix_stage(mic_control: Option<Seq<char>>) -> Seq<char> {
    "[1:a]asendcmd=filename="@ + (match mic_control {
        Some(path) => path,
        None => Seq::empty(),
    })
        + ",volume@micvol=volume=1.0[mic];[0:a][mic]amix=inputs=2:duration=longest:dropout_transition=3[mix];[mix]"@
}

/// The end of the filter graph: the mix is split into the copy that is
/// written out, the copy whose level is measured, reported and thrown away,
/// and, for transcription, a raw copy.
pub open spec fn split_stage(transcribe: bool) -> Seq<char> {
    if transcribe {
        "asplit=3[out_file][meter][raw];[meter]astats=metadata=1:reset=1,ametadata=print:key=lavfi.astats.Overall.RMS_level,anullsink"@
    } else {
        "asplit=2[out_file][meter];[meter]astats=metadata=1:reset=1,ametadata=print:key=lavfi.astats.Overall.RMS_level,anullsink"@
    }
}

/// The filter graph of a plan.
pub open spec fn filter_graph_text(plan: PlanView) -> Seq<char> {
    (if plan.mic is Some {
        mix_stage(plan.mic_control)
    } else {
        "[0:a]"@
    }) + split_stage(plan.transcribe)
}

/// The arguments that limit the recording's time.
pub open spec fn limit_args(duration: Option<u32>) -> Seq<Seq<char>> {
    match duration {
        Some(d) => seq!["-t"@, decimal(d as nat)],
        None => Seq::empty(),
    }
}

/// The arguments that name one input tap.
pub open spec fn tap_args(name: Seq<char>) -> Seq<Seq<char>> {
    seq!["-f"@, "pulse"@, "-i"@, name]
}

/// The arguments that name the microphone tap, if there is one.
pub open spec fn mic_args(mic: Option<Seq<char>>) -> Seq<Seq<char>> {
    match mic {
        Some(name) => tap_args(name),
        None => Seq::empty(),
    }
}

/// The arguments that say how the recording is written: two channels, 48 kHz,
/// Opus at 128 kbit/s.
pub open spec fn file_args(output: Seq<char>) -> Seq<Seq<char>> {
    seq![
        "-map"@,
        "[out_file]"@,
        "-ac"@,
        "2"@,
        "-ar"@,
        "48000"@,
        "-c:a"@,
        "libopus"@,
        "-b:a"@,
        "128k"@,
        output,
    ]
}

/// The arguments that send the raw copy to the encoder's standard output, as
/// one channel of 16-bit samples at 16 kHz.
pub open spec fn raw_args(transcribe: bool) -> Seq<Seq<char>> {
    if transcribe {
        seq!["-map"@, "[raw]"@, "-f"@, "s16le"@, "-ac"@, "1"@, "-ar"@, "16000"@, "pipe:1"@]
    } else {
        Seq::empty()
    }
}

/// The encoder's arguments for a plan.
pub open spec fn encoder_args_text(plan: PlanView) -> Seq<Seq<char>> {
    seq!["-hide_banner"@, "-nostdin"@, "-y"@] + limit_args(plan.duration) + tap_args(plan.monitor)
        + mic_args(plan.mic) + seq!["-filter_complex"@, filter_graph_text(plan)] + file_args(
        plan.output,
    ) + raw_args(plan.transcribe)
}

/// Writes the filter graph of `plan`.
pub fn filter_graph(plan: &EncoderPlan) -> (r: String)
    ensures
        r@ == filter_graph_text(plan@),
{
    let mut graph = String::new();
    if plan.mic.is_some() {
        graph.append("[1:a]asendcmd=filename=");
        match &plan.mic_control {
            Some(path) => {
                graph.append(path.as_str());
            },
            None => {},
        }
        graph.append(
            ",volume@micvol=volume=1.0[mic];[0:a][mic]amix=inputs=2:duration=longest:dropout_transition=3[mix];[mix]",
        );
    } else {
        graph.append("[0:a]");
    }
    if plan.transcribe {
        graph.append(
            "asplit=3[out_file][meter][raw];[meter]astats=metadata=1:reset=1,ametadata=print:key=lavfi.astats.Overall.RMS_level,anullsink",
        );
    } else {
        graph.append(
            "asplit=2[out_file][meter];[meter]astats=metadata=1:reset=1,ametadata=print:key=lavfi.astats.Overall.RMS_level,anullsink",
        );
    }
    proof {
        assert(graph@ =~= filter_graph_text(plan@));
    }
    graph
}

fn push_tap(args: &mut Vec<String>, name: &str)
    ensures
        texts(final(args)@) == texts(old(args)@) + tap_args(name@),
{
    push_text(args, "-f");
    push_text(args, "pulse");
    push_text(args, "-i");
    push_text(args, name);
    proof {
        assert(texts(args@) =~= texts(old(args)@) + tap_args(name@));
    }
}

fn push_file_args(args: &mut Vec<String>, output: &str)
    ensures
        texts(final(args)@) == texts(old(args)@) + file_args(output@),
{
    push_text(args, "-map");
    push_text(args, "[out_file]");
    push_text(args, "-ac");
    push_text(args, "2");
    push_text(args, "-ar");
    push_text(args, "48000");
    push_text(args, "-c:a");
    push_text(args, "libopus");
    push_text(args, "-b:a");
    push_text(args, "128k");
    push_text(args, output);
    proof {
        assert(texts(args@) =~= texts(old(args)@) + file_args(output@));
    }
}

fn push_raw_args(args: &mut Vec<String>, transcribe: bool)
    ensures
        texts(final(args)@) == texts(old(args)@) + raw_args(transcribe),
{
    if transcribe {
        push_text(args, "-map");
        push_text(args, "[raw]");
        push_text(args, "-f");
        push_text(args, "s16le");
        push_text(args, "-ac");
        push_text(args, "1");
        push_text(args, "-ar");
        push_text(args, "16000");
        push_text(args, "pipe:1");
    }
    proof {
        assert(texts(args@) =~= texts(old(args)@) + raw_args(transcribe));
    }
}

/// The arguments with which the encoder is started for `plan`.
pub fn encoder_args(plan: &EncoderPlan) -> (r: Vec<String>)
    ensures
        texts(r@) == encoder_args_text(plan@),
{
    let mut args: Vec<String> = Vec::new();
    push_text(&mut args, "-hide_banner");
    push_text(&mut args, "-nostdin");
    push_text(&mut args, "-y");
    let ghost head = texts(args@);
    proof {
        assert(head =~= seq!["-hide_banner"@, "-nostdin"@, "-y"@]);
    }
    match plan.duration {
        Some(d) => {
            push_text(&mut args, "-t");
            let mut limit = String::new();
            push_decimal(&mut limit, d as u64);
            proof {
                assert(limit@ =~= decimal(d as nat));
            }
            push_string(&mut args, limit);
        },
        None => {},
    }
    let ghost limited = texts(args@);
    proof {
        assert(limited =~= head + limit_args(plan.duration));
    }
    push_tap(&mut args, plan.monitor.as_str());
    let ghost tapped = texts(args@);
    match &plan.mic {
        Some(name) => {
            push_tap(&mut args, name.as_str());
        },
        None => {},
    }
    let ghost both = texts(args@);
    proof {
        assert(both =~= tapped + mic_args(plan@.mic));
    }
    push_text(&mut args, "-filter_complex");
    push_string(&mut args, filter_graph(plan));
    let ghost graphed = texts(args@);
    proof {
        assert(graphed =~= both + seq!["-filter_complex"@, filter_graph_text(plan@)]);
    }
    push_file_args(&mut args, plan.output.as_str());
    push_raw_args(&mut args, plan.transcribe);
    args
}

} // verus!
