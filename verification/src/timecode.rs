//! Time codes of the form `HH:MM:SS.mmm`.

use vstd::prelude::*;
use vstd::string::*;
use crate::text::{chars_of, decimal, digit_char, digit_of, digit_value, is_digit, magnitude, padded, push_char, push_padded};

verus! {

pub const MS_PER_SECOND: u64 = 1000;
pub const MS_PER_MINUTE: u64 = 60_000;
pub const MS_PER_HOUR: u64 = 3_600_000;
pub const MS_PER_DAY: u64 = 86_400_000;

/// `part` with the sign of `ms`.
pub open spec fn signed_part(ms: int, part: int) -> int {
    if ms < 0 {
        -part
    } else {
        part
    }
}

/// The size of `ms` without its sign.
pub open spec fn abs_ms(ms: int) -> int {
    if ms < 0 {
        -ms
    } else {
        ms
    }
}

/// The time code of `ms` milliseconds: hours, minutes and seconds in two
/// digits each, milliseconds in three. Hours are not wrapped at a day. Of a
/// negative count each part that is not zero carries the sign.
pub open spec fn timecode_text(ms: int) -> Seq<char> {
    let mag = abs_ms(ms);
    padded(signed_part(ms, mag / 3_600_000), 2) + seq![':'] + padded(
        signed_part(ms, (mag / 60_000) % 60),
        2,
    ) + seq![':'] + padded(signed_part(ms, (mag / 1000) % 60), 2) + seq!['.'] + padded(
        signed_part(ms, mag % 1000),
        3,
    )
}

/// Writes `ms` milliseconds as a time code.
pub fn format_timecode(ms: i64) -> (r: String)
    ensures
        r@ == timecode_text(ms as int),
{
    let mag: u64 = magnitude(ms);
    let h: i64 = (mag / MS_PER_HOUR) as i64;
    let m: i64 = ((mag / MS_PER_MINUTE) % 60) as i64;
    let s: i64 = ((mag / MS_PER_SECOND) % 60) as i64;
    let f: i64 = (mag % MS_PER_SECOND) as i64;
    let neg: bool = ms < 0;
    let mut out = String::new();
    push_padded(&mut out, if neg { -h } else { h }, 2);
    push_char(&mut out, ':');
    push_padded(&mut out, if neg { -m } else { m }, 2);
    push_char(&mut out, ':');
    push_padded(&mut out, if neg { -s } else { s }, 2);
    push_char(&mut out, '.');
    push_padded(&mut out, if neg { -f } else { f }, 3);
    proof {
        assert(out@ =~= timecode_text(ms as int));
    }
    out
}

/// The number that the two digits of `s` at `at` write, if they are digits.
pub open spec fn two_digits(s: Seq<char>, at: int) -> Option<int> {
    if is_digit(s[at]) && is_digit(s[at + 1]) {
        Some(digit_value(s[at]) * 10 + digit_value(s[at + 1]))
    } else {
        None
    }
}

/// The number that the three digits of `s` at `at` write, if they are digits.
pub open spec fn three_digits(s: Seq<char>, at: int) -> Option<int> {
    if is_digit(s[at]) && is_digit(s[at + 1]) && is_digit(s[at + 2]) {
        Some(digit_value(s[at]) * 100 + digit_value(s[at + 1]) * 10 + digit_value(s[at + 2]))
    } else {
        None
    }
}

/// The milliseconds that a time code stands for. A time code is twelve
/// characters, `HH:MM:SS.mmm`, with minutes and seconds below 60; anything
/// else stands for nothing.
pub open spec fn timecode_value(s: Seq<char>) -> Option<int> {
    if s.len() == 12 && s[2] == ':' && s[5] == ':' && s[8] == '.' {
        match (two_digits(s, 0), two_digits(s, 3), two_digits(s, 6), three_digits(s, 9)) {
            (Some(h), Some(m), Some(sec), Some(f)) => if m < 60 && sec < 60 {
                Some(h * 3_600_000 + m * 60_000 + sec * 1000 + f)
            } else {
                None
            },
            _ => None,
        }
    } else {
        None
    }
}

fn read_two(v: &Vec<char>, at: usize) -> (r: Option<i64>)
    requires
        at + 1 < v.len(),
    ensures
        r is Some <==> two_digits(v@, at as int) is Some,
        r is Some ==> r->0 as int == two_digits(v@, at as int)->0 && 0 <= r->0 < 100,
{
    match (digit_of(v[at]), digit_of(v[at + 1])) {
        (Some(a), Some(b)) => {
            let hi: i64 = a as i64;
            let lo: i64 = b as i64;
            Some(hi * 10 + lo)
        },
        _ => None,
    }
}

/// Reads a time code; `None` where `s` is not one.
pub fn parse_timecode(s: &str) -> (r: Option<i64>)
    ensures
        r is Some <==> timecode_value(s@) is Some,
        r is Some ==> r->0 as int == timecode_value(s@)->0,
{
    let v: Vec<char> = chars_of(s);
    if v.len() != 12 || v[2] != ':' || v[5] != ':' || v[8] != '.' {
        return None;
    }
    let h: i64 = match read_two(&v, 0) {
        Some(x) => x,
        None => { return None; },
    };
    let m: i64 = match read_two(&v, 3) {
        Some(x) => x,
        None => { return None; },
    };
    let sec: i64 = match read_two(&v, 6) {
        Some(x) => x,
        None => { return None; },
    };
    let f: i64 = match (read_two(&v, 9), digit_of(v[11])) {
        (Some(x), Some(d)) => {
            let last: i64 = d as i64;
            x * 10 + last
        },
        _ => { return None; },
    };
    if m < 60 && sec < 60 {
        Some(h * 3_600_000 + m * 60_000 + sec * 1000 + f)
    } else {
        None
    }
}

/// A number below 100 in width two is two digits that write it; a number
/// below 1000 in width three is three digits that write it.
pub proof fn lemma_padded_fixed(v: int)
    requires
        0 <= v,
    ensures
        v < 100 ==> padded(v, 2).len() == 2 && two_digits(padded(v, 2), 0) == Some(v),
        v < 1000 ==> padded(v, 3).len() == 3 && three_digits(padded(v, 3), 0) == Some(v),
{
    reveal_with_fuel(decimal, 4);
    if v < 100 {
        assert(padded(v, 2) =~= seq![digit_char(v / 10), digit_char(v % 10)]);
    }
    if v < 1000 {
        assert(padded(v, 3) =~= seq![
            digit_char(v / 100),
            digit_char((v / 10) % 10),
            digit_char(v % 10),
        ]);
    }
}

/// The hours, minutes, seconds and milliseconds of a count add up to it.
pub proof fn lemma_parts_sum(ms: int)
    requires
        0 <= ms,
    ensures
        (ms / 3_600_000) * 3_600_000 + ((ms / 60_000) % 60) * 60_000 + ((ms / 1000) % 60) * 1000
            + ms % 1000 == ms,
        0 <= (ms / 60_000) % 60 < 60,
        0 <= (ms / 1000) % 60 < 60,
        0 <= ms % 1000 < 1000,
        0 <= ms / 3_600_000,
        ms < 360_000_000 ==> ms / 3_600_000 < 100,
{
    let secs = ms / 1000;
    let mins = secs / 60;
    let hours = mins / 60;
    assert(ms == secs * 1000 + ms % 1000);
    assert(secs == mins * 60 + secs % 60);
    assert(mins == hours * 60 + mins % 60);
    assert(ms / 60_000 == mins);
    assert(ms / 3_600_000 == hours);
}

/// Four runs of digits with their separators make a time code.
pub proof fn lemma_joined_value(
    a: Seq<char>,
    b: Seq<char>,
    c: Seq<char>,
    d: Seq<char>,
    h: int,
    m: int,
    sec: int,
    f: int,
)
    requires
        a.len() == 2,
        b.len() == 2,
        c.len() == 2,
        d.len() == 3,
        two_digits(a, 0) == Some(h),
        two_digits(b, 0) == Some(m),
        two_digits(c, 0) == Some(sec),
        three_digits(d, 0) == Some(f),
        m < 60,
        sec < 60,
    ensures
        (a + seq![':'] + b + seq![':'] + c + seq!['.'] + d).len() == 12,
        timecode_value(a + seq![':'] + b + seq![':'] + c + seq!['.'] + d) == Some(
            h * 3_600_000 + m * 60_000 + sec * 1000 + f,
        ),
{
    let t = a + seq![':'] + b + seq![':'] + c + seq!['.'] + d;
    assert(t.len() == 12);
    assert(t[0] == a[0] && t[1] == a[1] && t[2] == ':');
    assert(t[3] == b[0] && t[4] == b[1] && t[5] == ':');
    assert(t[6] == c[0] && t[7] == c[1] && t[8] == '.');
    assert(t[9] == d[0] && t[10] == d[1] && t[11] == d[2]);
    assert(two_digits(t, 0) == Some(h));
    assert(two_digits(t, 3) == Some(m));
    assert(two_digits(t, 6) == Some(sec));
    assert(three_digits(t, 9) == Some(f));
}

/// Writing a count of milliseconds as a time code and reading the time code
/// gives the count back, for every count from zero to below a hundred hours,
/// and so for every count below a day.
pub proof fn lemma_timecode_round_trip(ms: int)
    requires
        0 <= ms < 360_000_000,
    ensures
        timecode_text(ms).len() == 12,
        timecode_value(timecode_text(ms)) == Some(ms),
{
    let h = ms / 3_600_000;
    let m = (ms / 60_000) % 60;
    let sec = (ms / 1000) % 60;
    let f = ms % 1000;
    lemma_parts_sum(ms);
    lemma_padded_fixed(h);
    lemma_padded_fixed(m);
    lemma_padded_fixed(sec);
    lemma_padded_fixed(f);
    lemma_joined_value(padded(h, 2), padded(m, 2), padded(sec, 2), padded(f, 3), h, m, sec, f);
}

} // verus!
