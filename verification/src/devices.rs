//! The taps of a session: which sink is monitored and which source is the
//! microphone.

use vstd::prelude::*;
use vstd::string::*;
use crate::text::{opt_text, same_text};

verus! {

/// The audio server's default devices, as far as they were found.
#[derive(Debug)]
pub struct Defaults {
    pub sink: Option<String>,
    pub source: Option<String>,
}

/// Why a session cannot start.
#[derive(Clone, Copy, PartialEq, Eq, Structural, Debug)]
pub enum StartError {
    /// No sink was named and no default sink was found.
    NoSink,
    /// The microphone is wanted, no source was named and no default source
    /// was found.
    NoSource,
}

/// The taps of a session.
#[derive(Debug)]
pub struct Taps {
    pub sink: String,
    /// The monitor of the sink: what is recorded of the other side.
    pub monitor: String,
    /// The microphone, if it is recorded.
    pub mic: Option<String>,
}

/// The first of two texts that is there.
pub open spec fn named_or_default(named: Option<Seq<char>>, found: Option<Seq<char>>) -> Option<
    Seq<char>,
> {
    if named is Some {
        named
    } else {
        found
    }
}

/// The name of a sink's monitor.
pub open spec fn monitor_of(sink: Seq<char>) -> Seq<char> {
    sink + ".monitor"@
}

/// The error that keeps a session from starting, if there is one. A missing
/// sink is told before a missing source.
pub open spec fn start_error(
    sink: Option<Seq<char>>,
    source: Option<Seq<char>>,
    no_mic: bool,
) -> Option<StartError> {
    if sink is None {
        Some(StartError::NoSink)
    } else if !no_mic && source is None {
        Some(StartError::NoSource)
    } else {
        None
    }
}

/// What is said of an error that keeps a session from starting.
pub fn start_error_message(err: StartError) -> (r: String)
    ensures
        r@ == match err {
            StartError::NoSink => "Could not detect default sink"@,
            StartError::NoSource => "Could not detect default source"@,
        },
{
    match err {
        StartError::NoSink => String::from_str("Could not detect default sink"),
        StartError::NoSource => String::from_str("Could not detect default source"),
    }
}

fn pick(named: Option<String>, found: Option<String>) -> (r: Option<String>)
    ensures
        opt_text(r) == named_or_default(opt_text(named), opt_text(found)),
{
    match named {
        Some(n) => Some(n),
        None => found,
    }
}

/// Settles the taps of a session. A device that the operator named is
/// taken; else the default that was found. Without a sink, or without a
/// source where the microphone is wanted, the session cannot start.
pub fn resolve_taps(
    sink_arg: Option<String>,
    source_arg: Option<String>,
    no_mic: bool,
    defaults: Defaults,
) -> (r: Result<Taps, StartError>)
    ensures
        match start_error(
            named_or_default(opt_text(sink_arg), opt_text(defaults.sink)),
            named_or_default(opt_text(source_arg), opt_text(defaults.source)),
            no_mic,
        ) {
            Some(e) => r == Err::<Taps, StartError>(e),
            None => {
                &&& r is Ok
                &&& Some(r->Ok_0.sink@) == named_or_default(
                    opt_text(sink_arg),
                    opt_text(defaults.sink),
                )
                &&& r->Ok_0.monitor@ == monitor_of(r->Ok_0.sink@)
                &&& opt_text(r->Ok_0.mic) == if no_mic {
                    None
                } else {
                    named_or_default(opt_text(source_arg), opt_text(defaults.source))
                }
            },
        },
{
    let sink: String = match pick(sink_arg, defaults.sink) {
        Some(s) => s,
        None => {
            return Err(StartError::NoSink);
        },
    };
    let mic: Option<String> = if no_mic {
        None
    } else {
        match pick(source_arg, defaults.source) {
            Some(s) => Some(s),
            None => {
                return Err(StartError::NoSource);
            },
        }
    };
    let mut monitor: String = sink.clone();
    monitor.append(".monitor");
    Ok(Taps { sink, monitor, mic })
}

/// The value of an entry of the audio server's metadata.
#[derive(Debug)]
pub enum MetaValue {
    /// The entry has no value.
    Absent,
    /// A text.
    Text(String),
    /// An object, of which the texts under `name` and `value` are kept.
    Named { name: Option<String>, value: Option<String> },
    /// Anything else.
    Other,
}

/// An entry of the audio server's metadata.
#[derive(Debug)]
pub struct MetaItem {
    /// The entry's key, if it has one that is a text.
    pub key: Option<String>,
    pub value: MetaValue,
}

/// An object of the audio server's device graph.
#[derive(Debug)]
pub struct GraphObject {
    /// The object's type, if it has one that is a text.
    pub kind: Option<String>,
    /// The object's metadata entries, if it has a list of them.
    pub items: Option<Vec<MetaItem>>,
}

/// The defaults as contracts see them.
pub struct DefaultsView {
    pub sink: Option<Seq<char>>,
    pub source: Option<Seq<char>>,
}

impl View for Defaults {
    type V = DefaultsView;

    open spec fn view(&self) -> DefaultsView {
        DefaultsView { sink: opt_text(self.sink), source: opt_text(self.source) }
    }
}

/// The device that a value names: the text itself, or of an object the text
/// under `name`, else the text under `value`.
pub open spec fn value_name(value: MetaValue) -> Option<Seq<char>> {
    match value {
        MetaValue::Text(s) => Some(s@),
        MetaValue::Named { name, value } => if name is Some {
            opt_text(name)
        } else {
            opt_text(value)
        },
        _ => None,
    }
}

/// Whether an entry with this key names the default sink.
pub open spec fn is_sink_key(key: Seq<char>) -> bool {
    key == "default.audio.sink"@ || key == "default.configured.audio.sink"@
}

/// Whether an entry with this key names the default source.
pub open spec fn is_source_key(key: Seq<char>) -> bool {
    key == "default.audio.source"@ || key == "default.configured.audio.source"@
}

/// The defaults after one entry was read: an entry with a sink's or a
/// source's key settles that device unless one was found before.
pub open spec fn after_item(found: DefaultsView, item: MetaItem) -> DefaultsView {
    match item.key {
        Some(key) => if is_sink_key(key@) {
            if found.sink is None {
                DefaultsView { sink: value_name(item.value), ..found }
            } else {
                found
            }
        } else if is_source_key(key@) {
            if found.source is None {
                DefaultsView { source: value_name(item.value), ..found }
            } else {
                found
            }
        } else {
            found
        },
        None => found,
    }
}

/// The defaults after the entries were read in order.
pub open spec fn after_items(found: DefaultsView, items: Seq<MetaItem>) -> DefaultsView
    decreases items.len(),
{
    if items.len() == 0 {
        found
    } else {
        after_item(after_items(found, items.drop_last()), items.last())
    }
}

/// The defaults after one object was read: only a metadata object with a
/// list of entries counts.
pub open spec fn after_object(found: DefaultsView, object: GraphObject) -> DefaultsView {
    match (object.kind, object.items) {
        (Some(kind), Some(items)) => if kind@ == "PipeWire:Interface:Metadata"@ {
            after_items(found, items@)
        } else {
            found
        },
        _ => found,
    }
}

/// The defaults after the objects were read in order.
pub open spec fn after_objects(found: DefaultsView, objects: Seq<GraphObject>) -> DefaultsView
    decreases objects.len(),
{
    if objects.len() == 0 {
        found
    } else {
        after_object(after_objects(found, objects.drop_last()), objects.last())
    }
}

fn copy_of(text: &Option<String>) -> (r: Option<String>)
    ensures
        opt_text(r) == opt_text(*text),
{
    match text {
        Some(s) => Some(s.clone()),
        None => None,
    }
}

/// The device that a value names.
pub fn extract_name(value: &MetaValue) -> (r: Option<String>)
    ensures
        opt_text(r) == value_name(*value),
{
    match value {
        MetaValue::Text(s) => Some(s.clone()),
        MetaValue::Named { name, value } => {
            if name.is_some() {
                copy_of(name)
            } else {
                copy_of(value)
            }
        },
        _ => None,
    }
}

fn read_item(found: &mut Defaults, item: &MetaItem)
    ensures
        final(found)@ == after_item(old(found)@, *item),
{
    match &item.key {
        Some(key) => {
            if same_text(key.as_str(), "default.audio.sink") || same_text(
                key.as_str(),
                "default.configured.audio.sink",
            ) {
                if found.sink.is_none() {
                    found.sink = extract_name(&item.value);
                }
            } else if same_text(key.as_str(), "default.audio.source") || same_text(
                key.as_str(),
                "default.configured.audio.source",
            ) {
                if found.source.is_none() {
                    found.source = extract_name(&item.value);
                }
            }
        },
        None => {},
    }
}

fn read_object(found: &mut Defaults, object: &GraphObject)
    ensures
        final(found)@ == after_object(old(found)@, *object),
{
    match (&object.kind, &object.items) {
        (Some(kind), Some(items)) => {
            if same_text(kind.as_str(), "PipeWire:Interface:Metadata") {
                let mut i: usize = 0;
                while i < items.len()
                    invariant
                        i <= items.len(),
                        found@ == after_items(old(found)@, items@.take(i as int)),
                    decreases items.len() - i,
                {
                    read_item(found, &items[i]);
                    i = i + 1;
                    proof {
                        assert(items@.take(i as int).drop_last() =~= items@.take(i - 1));
                    }
                }
                proof {
                    assert(items@.take(i as int) =~= items@);
                }
            }
        },
        _ => {},
    }
}

/// Finds the default sink and source in the audio server's device graph:
/// for each, the first metadata entry decides that has its key and a name
/// that can be read.
pub fn pick_defaults(objects: &Vec<GraphObject>) -> (r: Defaults)
    ensures
        r@ == after_objects(DefaultsView { sink: None, source: None }, objects@),
{
    let mut found = Defaults { sink: None, source: None };
    let mut i: usize = 0;
    while i < objects.len()
        invariant
            i <= objects.len(),
            found@ == after_objects(
                DefaultsView { sink: None, source: None },
                objects@.take(i as int),
            ),
        decreases objects.len() - i,
    {
        read_object(&mut found, &objects[i]);
        i = i + 1;
        proof {
            assert(objects@.take(i as int).drop_last() =~= objects@.take(i - 1));
        }
    }
    proof {
        assert(objects@.take(i as int) =~= objects@);
    }
    found
}

} // verus!
