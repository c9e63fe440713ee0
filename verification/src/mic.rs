//! The microphone's control channel: the directives by which the encoder is
//! told to change the microphone's gain while it runs.

use vstd::prelude::*;
use vstd::string::*;
use crate::text::{decimal, push_decimal};

verus! {

/// The gain of the microphone: shut (0.0) or open (1.0).
#[derive(Clone, Copy, PartialEq, Eq, Structural, Debug)]
pub enum Gain {
    Silent,
    Full,
}

/// The gain that goes with a mute state.
pub open spec fn gain_of(muted: bool) -> Gain {
    if muted {
        Gain::Silent
    } else {
        Gain::Full
    }
}

/// The line that sets `gain`: the time from which it holds, the stage of the
/// filter graph that it addresses, the word `volume` and the gain.
pub open spec fn directive_text(gain: Gain) -> Seq<char> {
    match gain {
        Gain::Silent => "0.0 volume@micvol volume 0.0"@,
        Gain::Full => "0.0 volume@micvol volume 1.0"@,
    }
}

/// The gain that goes with a mute state.
pub fn gain_for(muted: bool) -> (r: Gain)
    ensures
        r == gain_of(muted),
{
    if muted {
        Gain::Silent
    } else {
        Gain::Full
    }
}

/// The directive that sets `gain`, without its line end.
pub fn gain_directive(gain: Gain) -> (r: String)
    ensures
        r@ == directive_text(gain),
{
    match gain {
        Gain::Silent => String::from_str("0.0 volume@micvol volume 0.0"),
        Gain::Full => String::from_str("0.0 volume@micvol volume 1.0"),
    }
}

/// The directive with which the channel starts: the microphone is open.
pub fn initial_directive() -> (r: String)
    ensures
        r@ == directive_text(Gain::Full),
{
    gain_directive(Gain::Full)
}

/// The name of the channel's file for the process with this number.
pub open spec fn channel_name_text(process: u32) -> Seq<char> {
    "mic-"@ + decimal(process as nat) + ".cmd"@
}

/// The name of the channel's file for the process with this number.
pub fn channel_file_name(process: u32) -> (r: String)
    ensures
        r@ == channel_name_text(process),
{
    let mut name = String::from_str("mic-");
    push_decimal(&mut name, process as u64);
    name.append(".cmd");
    name
}

} // verus!
