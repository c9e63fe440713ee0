//! What is written beside the recording when a session is over: the
//! transcript as a table.

use vstd::prelude::*;
use vstd::string::*;
use crate::text::{chars_of, push_char};
use crate::timecode::{format_timecode, timecode_text};
use crate::transcription::{segment_views, SegmentView, TransSegment};

verus! {

/// The table's first line.
pub open spec fn csv_header() -> Seq<char> {
    "start,end,text\n"@
}

/// `text` with each double quote written twice.
pub open spec fn csv_escaped(text: Seq<char>) -> Seq<char>
    decreases text.len(),
{
    if text.len() == 0 {
        Seq::empty()
    } else {
        csv_escaped(text.drop_last()) + (if text.last() == '"' {
            seq!['"', '"']
        } else {
            seq![text.last()]
        })
    }
}

/// The line of one segment: the time codes of its start and end, and its
/// text between double quotes.
pub open spec fn csv_row(segment: SegmentView) -> Seq<char> {
    timecode_text(segment.start_ms as int) + seq![','] + timecode_text(segment.end_ms as int)
        + seq![',', '"'] + csv_escaped(segment.text) + seq!['"', '\n']
}

/// The lines of all segments, in order.
pub open spec fn csv_rows(segments: Seq<SegmentView>) -> Seq<char>
    decreases segments.len(),
{
    if segments.len() == 0 {
        Seq::empty()
    } else {
        csv_rows(segments.drop_last()) + csv_row(segments.last())
    }
}

/// The table of a transcript; an empty transcript has none.
pub open spec fn csv_text(segments: Seq<SegmentView>) -> Option<Seq<char>> {
    if segments.len() == 0 {
        None
    } else {
        Some(csv_header() + csv_rows(segments))
    }
}

/// Appends `text` with each double quote written twice.
pub fn push_escaped(out: &mut String, text: &str)
    ensures
        final(out)@ == old(out)@ + csv_escaped(text@),
{
    let v: Vec<char> = chars_of(text);
    let mut i: usize = 0;
    while i < v.len()
        invariant
            i <= v.len(),
            v@ == text@,
            out@ == old(out)@ + csv_escaped(v@.take(i as int)),
        decreases v.len() - i,
    {
        let c: char = v[i];
        let ghost before = out@;
        if c == '"' {
            push_char(out, '"');
            push_char(out, '"');
        } else {
            push_char(out, c);
        }
        i = i + 1;
        proof {
            assert(v@.take(i as int).drop_last() =~= v@.take(i - 1));
            assert(v@.take(i as int).last() == c);
            assert(out@ =~= old(out)@ + csv_escaped(v@.take(i as int)));
        }
    }
    proof {
        assert(v@.take(i as int) =~= v@);
    }
}

/// Appends the line of one segment.
pub fn push_row(out: &mut String, segment: &TransSegment)
    ensures
        final(out)@ == old(out)@ + csv_row(segment@),
{
    let start: String = format_timecode(segment.start_ms);
    let end: String = format_timecode(segment.end_ms);
    out.append(start.as_str());
    push_char(out, ',');
    out.append(end.as_str());
    push_char(out, ',');
    push_char(out, '"');
    push_escaped(out, segment.text.as_str());
    push_char(out, '"');
    push_char(out, '\n');
    proof {
        assert(out@ =~= old(out)@ + csv_row(segment@));
    }
}

/// The transcript as a table: a header line, then one line for each
/// segment. `None` for an empty transcript, of which nothing is written.
pub fn transcript_csv(segments: &Vec<TransSegment>) -> (r: Option<String>)
    ensures
        r is Some <==> segments@.len() > 0,
        r is Some ==> Some(r->0@) == csv_text(segment_views(segments@)),
{
    if segments.len() == 0 {
        return None;
    }
    let ghost all = segment_views(segments@);
    let mut out = String::from_str("start,end,text\n");
    let mut i: usize = 0;
    while i < segments.len()
        invariant
            i <= segments.len(),
            all == segment_views(segments@),
            out@ == csv_header() + csv_rows(all.take(i as int)),
        decreases segments.len() - i,
    {
        push_row(&mut out, &segments[i]);
        i = i + 1;
        proof {
            assert(all.take(i as int).drop_last() =~= all.take(i - 1));
            assert(all.take(i as int).last() == segments@[i - 1]@);
            assert(out@ =~= csv_header() + csv_rows(all.take(i as int)));
        }
    }
    proof {
        assert(all.take(i as int) =~= all);
    }
    Some(out)
}

} // verus!
