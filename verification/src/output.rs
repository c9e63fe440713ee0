//! The name of a recording that the operator gave no name.

use vstd::prelude::*;
use vstd::string::*;
use crate::text::{padded, push_char, push_padded, trim, trimmed};

verus! {

/// A date and a time of day.
#[derive(Clone, Copy, PartialEq, Eq, Structural, Debug)]
pub struct DateStamp {
    pub year: i32,
    pub month: u8,
    pub day: u8,
    pub hour: u8,
    pub minute: u8,
    pub second: u8,
}

/// Whether the parts of a stamp lie in the calendar's and the clock's ranges.
pub open spec fn in_calendar(stamp: DateStamp) -> bool {
    &&& 1 <= stamp.month <= 12
    &&& 1 <= stamp.day <= 31
    &&& stamp.hour < 24
    &&& stamp.minute < 60
    &&& stamp.second < 60
}

/// A stamp as it stands in a file name: the year in four digits, month and
/// day in two each, a hyphen, and hour, minute and second in two each.
pub open spec fn stamp_text(stamp: DateStamp) -> Seq<char> {
    padded(stamp.year as int, 4) + padded(stamp.month as int, 2) + padded(stamp.day as int, 2)
        + seq!['-'] + padded(stamp.hour as int, 2) + padded(stamp.minute as int, 2) + padded(
        stamp.second as int,
        2,
    )
}

/// The name of a recording that began at `stamp`.
pub open spec fn output_name_text(prefix: Seq<char>, stamp: DateStamp) -> Seq<char> {
    prefix + stamp_text(stamp) + ".ogg"@
}

/// A moment with its offset from UTC, as the `time` crate holds it.
#[verifier::external_type_specification]
#[verifier::external_body]
pub struct ExOffsetDateTime(time::OffsetDateTime);

/// `time::OffsetDateTime::now_local`: the present moment in the local
/// offset, or nothing where the local offset cannot be told. Nothing is
/// claimed of which moment it is.
#[verifier::external_body]
fn local_now() -> (r: Option<time::OffsetDateTime>) {
    time::OffsetDateTime::now_local().ok()
}

/// `time::OffsetDateTime::now_utc`: the present moment in UTC. Nothing is
/// claimed of which moment it is.
#[verifier::external_body]
fn utc_now() -> (r: time::OffsetDateTime) {
    time::OffsetDateTime::now_utc()
}

/// The date and the time of day of a moment, read off through
/// `time::OffsetDateTime`'s `year`, `month`, `day`, `hour`, `minute` and
/// `second`: the month is 1 to 12, the day 1 to 31, the hour below 24, minute
/// and second below 60.
#[verifier::external_body]
fn stamp_of(moment: time::OffsetDateTime) -> (r: DateStamp)
    ensures
        in_calendar(r),
{
    DateStamp {
        year: moment.year(),
        month: u8::from(moment.month()),
        day: moment.day(),
        hour: moment.hour(),
        minute: moment.minute(),
        second: moment.second(),
    }
}

/// The name of a recording that began at `stamp`.
pub fn output_name(prefix: &str, stamp: DateStamp) -> (r: String)
    ensures
        r@ == output_name_text(prefix@, stamp),
{
    let mut name = String::from_str(prefix);
    push_padded(&mut name, stamp.year as i64, 4);
    push_padded(&mut name, stamp.month as i64, 2);
    push_padded(&mut name, stamp.day as i64, 2);
    push_char(&mut name, '-');
    push_padded(&mut name, stamp.hour as i64, 2);
    push_padded(&mut name, stamp.minute as i64, 2);
    push_padded(&mut name, stamp.second as i64, 2);
    name.append(".ogg");
    proof {
        assert(name@ =~= output_name_text(prefix@, stamp));
    }
    name
}

/// The name of a recording that begins now: the local time where it can be
/// told, else the time in UTC.
pub fn default_output_name(prefix: &str) -> (r: String)
    ensures
        exists|stamp: DateStamp| in_calendar(stamp) && r@ == output_name_text(prefix@, stamp),
{
    let moment = match local_now() {
        Some(m) => m,
        None => utc_now(),
    };
    output_name(prefix, stamp_of(moment))
}

/// The revision that a query of the source tree gave: what it printed,
/// without the white space at its ends; nothing where the query failed or
/// printed nothing else.
pub open spec fn revision_text(success: bool, printed: Seq<char>) -> Option<Seq<char>> {
    if success && trimmed(printed).len() > 0 {
        Some(trimmed(printed))
    } else {
        None
    }
}

/// The revision that a query of the source tree gave.
pub fn revision_from(success: bool, printed: &str) -> (r: Option<String>)
    ensures
        r is Some <==> revision_text(success, printed@) is Some,
        r is Some ==> Some(r->0@) == revision_text(success, printed@),
{
    if !success {
        return None;
    }
    let rev: String = trim(printed);
    if rev.as_str().unicode_len() == 0 {
        None
    } else {
        Some(rev)
    }
}

} // verus!
