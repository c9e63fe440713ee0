//! What is kept of the encoder's diagnostic stream: its most recent lines and
//! the last audio level it reported.

use vstd::prelude::*;
use vstd::string::*;
use crate::text::{
    chars_of, digit_of, digit_run, digit_value, digits_number, is_digit, least, scan_digits,
};

verus! {

/// How many diagnostic lines are kept.
pub const LOG_CAPACITY: usize = 10;

/// The largest whole part of a level that is told apart; larger ones read as
/// this.
pub const LEVEL_WHOLE_MAX: u64 = 1_000_000;

/// The last `n` items of `s`, or all of `s` where it has no more than `n`.
pub open spec fn keep_last<T>(s: Seq<T>, n: int) -> Seq<T> {
    if s.len() > n && n >= 0 {
        s.subrange(s.len() - n, s.len() as int)
    } else {
        s
    }
}

/// The buffer after each line of `lines` has been appended to `start` in turn.
pub open spec fn append_all(start: Seq<Seq<char>>, lines: Seq<Seq<char>>) -> Seq<Seq<char>>
    decreases lines.len(),
{
    if lines.len() == 0 {
        start
    } else {
        append_all(keep_last(start.push(lines[0]), LOG_CAPACITY as int), lines.drop_first())
    }
}

/// The most recent diagnostic lines, oldest first.
pub struct RecentLines {
    lines: Vec<String>,
}

impl View for RecentLines {
    type V = Seq<Seq<char>>;

    closed spec fn view(&self) -> Seq<Seq<char>> {
        Seq::new(self.lines@.len(), |i: int| self.lines@[i]@)
    }
}

impl RecentLines {
    #[verifier::type_invariant]
    spec fn within_capacity(self) -> bool {
        self.lines@.len() <= LOG_CAPACITY
    }

    /// An empty buffer.
    pub fn new() -> (r: Self)
        ensures
            r@ == Seq::<Seq<char>>::empty(),
    {
        let r = RecentLines { lines: Vec::new() };
        proof {
            assert(r@ =~= Seq::<Seq<char>>::empty());
        }
        r
    }

    /// Appends `line`; at capacity the oldest line leaves first.
    pub fn push(&mut self, line: String)
        ensures
            final(self)@ == keep_last(old(self)@.push(line@), LOG_CAPACITY as int),
            final(self)@.len() <= LOG_CAPACITY,
    {
        proof {
            use_type_invariant(&*self);
        }
        // The lines are taken out while they change, so that the buffer
        // itself is never seen over its capacity.
        let mut lines: Vec<String> = Vec::new();
        core::mem::swap(&mut self.lines, &mut lines);
        if lines.len() >= LOG_CAPACITY {
            lines.remove(0);
        }
        lines.push(line);
        self.lines = lines;
        proof {
            assert(self@ =~= keep_last(old(self)@.push(line@), LOG_CAPACITY as int));
        }
    }

    /// How many lines are held: never more than the capacity.
    pub fn len(&self) -> (r: usize)
        ensures
            r == self@.len(),
            r <= LOG_CAPACITY,
    {
        proof {
            use_type_invariant(self);
        }
        self.lines.len()
    }

    /// The line at `i`, counted from the oldest.
    pub fn get(&self, i: usize) -> (r: &String)
        requires
            i < self@.len(),
        ensures
            r@ == self@[i as int],
    {
        &self.lines[i]
    }
}

/// The buffer never holds more than its capacity, and after any lines were
/// appended to an empty buffer it holds the last of them, up to its capacity,
/// in the order in which they came.
pub proof fn lemma_recent_lines_are_the_last(lines: Seq<Seq<char>>)
    ensures
        append_all(Seq::empty(), lines) == keep_last(lines, LOG_CAPACITY as int),
        append_all(Seq::empty(), lines).len() <= LOG_CAPACITY,
{
    let empty = Seq::<Seq<char>>::empty();
    lemma_append_all(empty, lines);
    assert(empty + lines =~= lines);
    assert(keep_last(empty, LOG_CAPACITY as int) =~= empty);
}

/// Appending to the last lines of `before` gives the last lines of all.
pub proof fn lemma_append_all(before: Seq<Seq<char>>, lines: Seq<Seq<char>>)
    ensures
        append_all(keep_last(before, LOG_CAPACITY as int), lines) == keep_last(
            before + lines,
            LOG_CAPACITY as int,
        ),
    decreases lines.len(),
{
    let cap = LOG_CAPACITY as int;
    if lines.len() == 0 {
        assert(before + lines =~= before);
    } else {
        let next = before.push(lines[0]);
        assert(keep_last(keep_last(before, cap).push(lines[0]), cap) =~= keep_last(next, cap));
        lemma_append_all(next, lines.drop_first());
        assert(next + lines.drop_first() =~= before + lines);
    }
}

/// The words before a level in the encoder's diagnostics.
pub open spec fn level_key() -> Seq<char> {
    "lavfi.astats.Overall.RMS_level="@
}

/// Whether `key` stands in `s` at `at`.
pub open spec fn has_key_at(s: Seq<char>, key: Seq<char>, at: int) -> bool {
    0 <= at && at + key.len() <= s.len() && s.subrange(at, at + key.len()) == key
}

/// The thousandths that the digits from `from` to before `to` write after a
/// decimal point: the first three count, the rest are cut off.
pub open spec fn thousandths(s: Seq<char>, from: int, to: int) -> int {
    (if from < to {
        digit_value(s[from]) * 100
    } else {
        0
    }) + (if from + 1 < to {
        digit_value(s[from + 1]) * 10
    } else {
        0
    }) + (if from + 2 < to {
        digit_value(s[from + 2])
    } else {
        0
    })
}

/// The signed decimal number that stands in `s` at `at`, in thousandths: an
/// optional `-`, one digit or more, and, where a `.` and a digit follow, the
/// digits after it. A whole part above the largest reads as the largest, and
/// of the digits after the point the first three count.
pub open spec fn number_at(s: Seq<char>, at: int) -> Option<int> {
    let neg = 0 <= at < s.len() && s[at] == '-';
    let w0 = if neg {
        at + 1
    } else {
        at
    };
    let w1 = digit_run(s, w0);
    if w1 == w0 {
        None
    } else {
        let whole = least(digits_number(s, w0, w1), LEVEL_WHOLE_MAX as int);
        let f1 = if 0 <= w1 < s.len() && s[w1] == '.' {
            digit_run(s, w1 + 1)
        } else {
            w1 + 1
        };
        let mag = whole * 1000 + thousandths(s, w1 + 1, f1);
        Some(
            if neg {
                -mag
            } else {
                mag
            },
        )
    }
}

/// The level that is reported in `s` at `at`, if one is.
pub open spec fn level_at(s: Seq<char>, at: int) -> Option<int> {
    if has_key_at(s, level_key(), at) {
        number_at(s, at + level_key().len())
    } else {
        None
    }
}

/// The first level that is reported in `s` at `from` or later.
pub open spec fn first_level(s: Seq<char>, from: int) -> Option<int>
    decreases s.len() - from,
{
    if from < 0 || from >= s.len() {
        None
    } else {
        match level_at(s, from) {
            Some(v) => Some(v),
            None => first_level(s, from + 1),
        }
    }
}

/// The level that a diagnostic line reports, in thousandths of a decibel.
pub open spec fn line_level(s: Seq<char>) -> Option<int> {
    first_level(s, 0)
}

fn key_at(v: &Vec<char>, key: &Vec<char>, at: usize) -> (r: bool)
    requires
        at <= v.len(),
    ensures
        r == has_key_at(v@, key@, at as int),
{
    if key.len() > v.len() - at {
        return false;
    }
    let mut k: usize = 0;
    while k < key.len()
        invariant
            k <= key.len(),
            at + key.len() <= v.len(),
            forall|j: int| 0 <= j < k ==> v@[at + j] == key@[j],
        decreases key.len() - k,
    {
        if v[at + k] != key[k] {
            proof {
                assert(v@.subrange(at as int, at + key@.len())[k as int] == v@[at + k]);
            }
            return false;
        }
        k = k + 1;
    }
    proof {
        assert(v@.subrange(at as int, at + key@.len()) =~= key@);
    }
    true
}

/// Reads the number at `at`.
fn read_number(v: &Vec<char>, at: usize) -> (r: Option<i64>)
    requires
        at <= v.len(),
    ensures
        r is Some <==> number_at(v@, at as int) is Some,
        r is Some ==> r->0 as int == number_at(v@, at as int)->0,
{
    let neg: bool = at < v.len() && v[at] == '-';
    let w0: usize = if neg {
        at + 1
    } else {
        at
    };
    let (w1, whole) = scan_digits(v, w0, LEVEL_WHOLE_MAX);
    if w1 == w0 {
        return None;
    }
    let mut frac: u64 = 0;
    if w1 < v.len() && v[w1] == '.' {
        let (f1, _all) = scan_digits(v, w1 + 1, LEVEL_WHOLE_MAX);
        let f0: usize = w1 + 1;
        if f0 < f1 {
            frac = frac + 100 * (digit_at(v, f0) as u64);
        }
        if f1 - f0 >= 2 {
            frac = frac + 10 * (digit_at(v, f0 + 1) as u64);
        }
        if f1 - f0 >= 3 {
            frac = frac + (digit_at(v, f0 + 2) as u64);
        }
    }
    let mag: i64 = (whole * 1000 + frac) as i64;
    Some(
        if neg {
            -mag
        } else {
            mag
        },
    )
}

fn digit_at(v: &Vec<char>, i: usize) -> (r: u8)
    requires
        i < v.len(),
        is_digit(v@[i as int]),
    ensures
        r as int == digit_value(v@[i as int]),
        r < 10,
{
    match digit_of(v[i]) {
        Some(d) => d,
        None => 0,
    }
}

/// The level that `line` reports: the first place in it where the key stands
/// with a number behind it decides. `None` where there is no such place.
pub fn extract_level(line: &str) -> (r: Option<i64>)
    ensures
        r is Some <==> line_level(line@) is Some,
        r is Some ==> r->0 as int == line_level(line@)->0,
{
    let v: Vec<char> = chars_of(line);
    let key: Vec<char> = chars_of("lavfi.astats.Overall.RMS_level=");
    let mut at: usize = 0;
    while at < v.len()
        invariant
            at <= v.len(),
            v@ == line@,
            key@ == level_key(),
            first_level(v@, 0) == first_level(v@, at as int),
        decreases v.len() - at,
    {
        if key_at(&v, &key, at) {
            match read_number(&v, at + key.len()) {
                Some(level) => {
                    return Some(level);
                },
                None => {},
            }
        }
        at = at + 1;
    }
    None
}

/// The tailer's state: the recent lines and the last level read.
pub struct Diagnostics {
    pub recent: RecentLines,
    pub level: Option<i64>,
}

impl Diagnostics {
    /// Nothing read yet.
    pub fn new() -> (r: Self)
        ensures
            r.recent@ == Seq::<Seq<char>>::empty(),
            r.level is None,
    {
        Diagnostics { recent: RecentLines::new(), level: None }
    }

    /// Takes in one line: it is kept among the recent lines whatever it says,
    /// and where it reports a level, that level replaces the last one.
    pub fn observe_line(&mut self, line: String)
        ensures
            final(self).recent@.len() <= LOG_CAPACITY,
            final(self).recent@ == keep_last(old(self).recent@.push(line@), LOG_CAPACITY as int),
            line_level(line@) is Some ==> final(self).level is Some && final(self).level->0
                == line_level(line@)->0,
            line_level(line@) is None ==> final(self).level == old(self).level,
    {
        match extract_level(line.as_str()) {
            Some(level) => {
                self.level = Some(level);
            },
            None => {},
        }
        self.recent.push(line);
    }
}

} // verus!
