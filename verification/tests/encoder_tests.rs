use rcrd::encoder::{
    clean_exit, encoder_args, filter_graph, must_terminate, EncoderPlan, EncoderProbe, ExitStatus,
};
use rcrd::shutdown::{shutdown_plan, ShutdownStep, Teardown};

const METER: &str =
    "[meter]astats=metadata=1:reset=1,ametadata=print:key=lavfi.astats.Overall.RMS_level,anullsink";

fn plan(mic: bool, transcribe: bool, duration: Option<u32>) -> EncoderPlan {
    EncoderPlan {
        monitor: "alsa_output.pci.monitor".to_string(),
        mic: if mic { Some("alsa_input.usb".to_string()) } else { None },
        mic_control: if mic { Some("/tmp/rcrd-mic/mic-42.cmd".to_string()) } else { None },
        output: "call.ogg".to_string(),
        duration,
        transcribe,
    }
}

#[test]
fn graph_without_a_microphone() {
    assert_eq!(
        filter_graph(&plan(false, false, None)),
        format!("[0:a]asplit=2[out_file][meter];{}", METER)
    );
}

#[test]
fn graph_with_a_microphone() {
    assert_eq!(
        filter_graph(&plan(true, false, None)),
        format!(
            "[1:a]asendcmd=filename=/tmp/rcrd-mic/mic-42.cmd,volume@micvol=volume=1.0[mic];[0:a][mic]amix=inputs=2:duration=longest:dropout_transition=3[mix];[mix]asplit=2[out_file][meter];{}",
            METER
        )
    );
}

#[test]
fn graph_with_a_microphone_and_no_channel_file() {
    let mut p = plan(true, false, None);
    p.mic_control = None;
    assert!(filter_graph(&p).starts_with("[1:a]asendcmd=filename=,volume@micvol=volume=1.0[mic];"));
}

#[test]
fn graph_with_transcription() {
    assert_eq!(
        filter_graph(&plan(false, true, None)),
        format!("[0:a]asplit=3[out_file][meter][raw];{}", METER)
    );
}

#[test]
fn arguments_of_five_seconds_without_a_microphone() {
    let args = encoder_args(&plan(false, false, Some(5)));
    let graph = format!("[0:a]asplit=2[out_file][meter];{}", METER);
    let want: Vec<&str> = vec![
        "-hide_banner",
        "-nostdin",
        "-y",
        "-t",
        "5",
        "-f",
        "pulse",
        "-i",
        "alsa_output.pci.monitor",
        "-filter_complex",
        &graph,
        "-map",
        "[out_file]",
        "-ac",
        "2",
        "-ar",
        "48000",
        "-c:a",
        "libopus",
        "-b:a",
        "128k",
        "call.ogg",
    ];
    assert_eq!(args, want);
}

#[test]
fn arguments_with_a_microphone_and_transcription() {
    let p = plan(true, true, None);
    let args = encoder_args(&p);
    let graph = filter_graph(&p);
    let want: Vec<&str> = vec![
        "-hide_banner",
        "-nostdin",
        "-y",
        "-f",
        "pulse",
        "-i",
        "alsa_output.pci.monitor",
        "-f",
        "pulse",
        "-i",
        "alsa_input.usb",
        "-filter_complex",
        &graph,
        "-map",
        "[out_file]",
        "-ac",
        "2",
        "-ar",
        "48000",
        "-c:a",
        "libopus",
        "-b:a",
        "128k",
        "call.ogg",
        "-map",
        "[raw]",
        "-f",
        "s16le",
        "-ac",
        "1",
        "-ar",
        "16000",
        "pipe:1",
    ];
    assert_eq!(args, want);
}

#[test]
fn the_longest_duration_is_written_in_full() {
    let args = encoder_args(&plan(false, false, Some(u32::MAX)));
    assert_eq!(args[3], "-t");
    assert_eq!(args[4], "4294967295");
    let zero = encoder_args(&plan(false, false, Some(0)));
    assert_eq!(zero[4], "0");
}

#[test]
fn clean_and_abnormal_ends() {
    assert!(clean_exit(ExitStatus { code: Some(0), signal: None }));
    assert!(clean_exit(ExitStatus { code: None, signal: Some(2) }));
    assert!(!clean_exit(ExitStatus { code: Some(1), signal: None }));
    assert!(!clean_exit(ExitStatus { code: Some(255), signal: None }));
    assert!(!clean_exit(ExitStatus { code: None, signal: Some(9) }));
    assert!(!clean_exit(ExitStatus { code: None, signal: Some(15) }));
    assert!(!clean_exit(ExitStatus { code: None, signal: None }));
}

#[test]
fn only_an_ended_encoder_is_left_alone() {
    assert!(must_terminate(EncoderProbe::Running));
    assert!(must_terminate(EncoderProbe::Lost));
    assert!(!must_terminate(EncoderProbe::Exited(ExitStatus { code: Some(1), signal: None })));
}

#[test]
fn teardown_with_everything_to_do() {
    let steps = shutdown_plan(Teardown {
        encoder: EncoderProbe::Running,
        transcriber: true,
        mic_control: true,
        markers: 2,
        save_transcript: true,
        segments: 5,
    });
    assert_eq!(
        steps,
        vec![
            ShutdownStep::RestoreTerminal,
            ShutdownStep::TerminateEncoder,
            ShutdownStep::SetStopFlag,
            ShutdownStep::JoinTranscriber,
            ShutdownStep::RemoveChannel,
            ShutdownStep::SaveMarkers,
            ShutdownStep::SaveTranscript,
            ShutdownStep::Report,
        ]
    );
}

#[test]
fn teardown_with_nothing_to_do() {
    let steps = shutdown_plan(Teardown {
        encoder: EncoderProbe::Exited(ExitStatus { code: Some(0), signal: None }),
        transcriber: false,
        mic_control: false,
        markers: 0,
        save_transcript: true,
        segments: 0,
    });
    assert_eq!(
        steps,
        vec![ShutdownStep::RestoreTerminal, ShutdownStep::SetStopFlag, ShutdownStep::Report]
    );
}

#[test]
fn teardown_after_the_encoder_was_killed() {
    let steps = shutdown_plan(Teardown {
        encoder: EncoderProbe::Exited(ExitStatus { code: None, signal: Some(9) }),
        transcriber: false,
        mic_control: true,
        markers: 1,
        save_transcript: false,
        segments: 3,
    });
    assert_eq!(
        steps,
        vec![
            ShutdownStep::RestoreTerminal,
            ShutdownStep::SetStopFlag,
            ShutdownStep::RemoveChannel,
            ShutdownStep::SaveMarkers,
            ShutdownStep::Report,
        ]
    );
}
