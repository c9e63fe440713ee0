//! The operator's settings, and how they combine with what the command line
//! gives.

use vstd::prelude::*;
use vstd::string::*;
use crate::text::opt_text;

verus! {

/// The operator's settings.
#[derive(Debug)]
pub struct Config {
    /// What the names of recordings begin with; the date and time follow.
    pub file_prefix: String,
    /// The file of the transcription model.
    pub whisper_model: Option<String>,
    /// The language of transcription, such as `en` or `fr`.
    pub language: Option<String>,
    /// The recognizer's backend: `vulkan` or `openblas`.
    pub backend: String,
}

/// The prefix of a recording's name where none is set.
pub fn default_prefix() -> (r: String)
    ensures
        r@ == "rcrd-call-"@,
{
    String::from_str("rcrd-call-")
}

/// The language where none is set.
pub fn default_language() -> (r: String)
    ensures
        r@ == "en"@,
{
    String::from_str("en")
}

/// The backend where none is set.
pub fn default_backend() -> (r: String)
    ensures
        r@ == "openblas"@,
{
    String::from_str("openblas")
}

impl Default for Config {
    fn default() -> (r: Self)
        ensures
            r.file_prefix@ == "rcrd-call-"@,
            r.whisper_model is None,
            opt_text(r.language) == Some("en"@),
            r.backend@ == "openblas"@,
    {
        Config {
            file_prefix: default_prefix(),
            whisper_model: None,
            language: Some(default_language()),
            backend: default_backend(),
        }
    }
}

/// The first of two texts that is there.
pub open spec fn first_of(a: Option<Seq<char>>, b: Option<Seq<char>>) -> Option<Seq<char>> {
    if a is Some {
        a
    } else {
        b
    }
}

/// The language of a session: the command line's, else the settings', else
/// English.
pub open spec fn session_language(arg: Option<Seq<char>>, set: Option<Seq<char>>) -> Seq<char> {
    match first_of(arg, set) {
        Some(l) => l,
        None => "en"@,
    }
}

/// The language of a session.
pub fn effective_language(arg: Option<String>, cfg: &Config) -> (r: String)
    ensures
        r@ == session_language(opt_text(arg), opt_text(cfg.language)),
{
    match arg {
        Some(l) => l,
        None => match &cfg.language {
            Some(l) => l.clone(),
            None => default_language(),
        },
    }
}

/// The backend of a session: the command line's, else the settings'.
pub fn effective_backend(arg: Option<String>, cfg: &Config) -> (r: String)
    ensures
        r@ == match arg {
            Some(b) => b@,
            None => cfg.backend@,
        },
{
    match arg {
        Some(b) => b,
        None => cfg.backend.clone(),
    }
}

/// The model of a session: the command line's, else the settings'. Without
/// one there is no transcription.
pub fn effective_model(arg: Option<String>, cfg: &Config) -> (r: Option<String>)
    ensures
        opt_text(r) == first_of(opt_text(arg), opt_text(cfg.whisper_model)),
{
    match arg {
        Some(m) => Some(m),
        None => match &cfg.whisper_model {
            Some(m) => Some(m.clone()),
            None => None,
        },
    }
}

} // verus!
