//! Text: how numbers are written in decimal and read again, how white space
//! is trimmed, and how the strings of the other modules are put together.

use vstd::prelude::*;
use vstd::string::*;
use vstd::std_specs::iter::IteratorSpec;

verus! {

/// The character of one decimal digit.
pub open spec fn digit_char(d: int) -> char {
    ((d + 48) as u8) as char
}

/// Whether `c` is one of `0` to `9`.
pub open spec fn is_digit(c: char) -> bool {
    '0' <= c && c <= '9'
}

/// The digit that `c` stands for.
pub open spec fn digit_value(c: char) -> int {
    (c as u8) as int - 48
}

/// The shortest decimal writing of `n`.
pub open spec fn decimal(n: nat) -> Seq<char>
    decreases n,
{
    if n < 10 {
        seq![digit_char(n as int)]
    } else {
        decimal(n / 10).push(digit_char((n % 10) as int))
    }
}

/// `digits` with zeros in front until it is `width` long.
pub open spec fn zero_fill(digits: Seq<char>, width: int) -> Seq<char> {
    if digits.len() >= width {
        digits
    } else {
        Seq::new((width - digits.len()) as nat, |i: int| '0') + digits
    }
}

/// `v` written in at least `width` characters, the sign counted, with zeros
/// between the sign and the digits.
pub open spec fn padded(v: int, width: int) -> Seq<char> {
    if v < 0 {
        seq!['-'] + zero_fill(decimal((-v) as nat), width - 1)
    } else {
        zero_fill(decimal(v as nat), width)
    }
}

/// The texts of a list of strings.
pub open spec fn texts(v: Seq<String>) -> Seq<Seq<char>> {
    Seq::new(v.len(), |i: int| v[i]@)
}

/// The text of a string that may be absent.
pub open spec fn opt_text(o: Option<String>) -> Option<Seq<char>> {
    match o {
        Some(s) => Some(s@),
        None => None,
    }
}

/// Appends a copy of `s` to a list of strings.
pub fn push_text(list: &mut Vec<String>, s: &str)
    ensures
        texts(final(list)@) == texts(old(list)@).push(s@),
{
    list.push(String::from_str(s));
    proof {
        assert(texts(list@) =~= texts(old(list)@).push(s@));
    }
}

/// Appends `s` to a list of strings.
pub fn push_string(list: &mut Vec<String>, s: String)
    ensures
        texts(final(list)@) == texts(old(list)@).push(s@),
{
    list.push(s);
    proof {
        assert(texts(list@) =~= texts(old(list)@).push(s@));
    }
}

/// `std::string::String::push`: the string afterwards is the string before
/// with `c` at its end.
#[verifier::external_body]
pub(crate) fn push_char(out: &mut String, c: char)
    ensures
        final(out)@ == old(out)@.push(c),
{
    out.push(c);
}

/// The characters of `s`, in order.
pub fn chars_of(s: &str) -> (r: Vec<char>)
    ensures
        r@ == s@,
{
    broadcast use vstd::string::group_string_axioms;

    let mut it = s.chars();
    let mut v: Vec<char> = Vec::new();
    loop
        invariant
            it.obeys_prophetic_iter_laws(),
            v@ + it.remaining() == s@,
        ensures
            v@ == s@,
        decreases s@.len() - v@.len(),
    {
        let ghost before = it.remaining();
        match it.next() {
            Some(c) => {
                v.push(c);
                proof {
                    assert(v@ + it.remaining() =~= (v@.drop_last() + before));
                }
            },
            None => {
                proof {
                    assert(v@ + it.remaining() =~= v@);
                }
                break ;
            },
        }
    }
    v
}

/// Whether two strings hold the same characters.
pub fn same_text(a: &str, b: &str) -> (r: bool)
    ensures
        r == (a@ == b@),
{
    let x: Vec<char> = chars_of(a);
    let y: Vec<char> = chars_of(b);
    if x.len() != y.len() {
        return false;
    }
    let mut i: usize = 0;
    while i < x.len()
        invariant
            i <= x.len(),
            x.len() == y.len(),
            x@ == a@,
            y@ == b@,
            forall|j: int| 0 <= j < i ==> x@[j] == y@[j],
        decreases x.len() - i,
    {
        if x[i] != y[i] {
            return false;
        }
        i = i + 1;
    }
    proof {
        assert(x@ =~= y@);
    }
    true
}

/// Reads the digit `c`.
pub fn digit_of(c: char) -> (r: Option<u8>)
    ensures
        r is Some <==> is_digit(c),
        r is Some ==> r->0 as int == digit_value(c),
{
    if '0' <= c && c <= '9' {
        Some((c as u8) - 48u8)
    } else {
        None
    }
}

/// How many digits `decimal` gives `n`.
pub fn decimal_len(n: u64) -> (r: usize)
    ensures
        r == decimal(n as nat).len(),
        1 <= r <= 20,
    decreases n,
{
    if n < 10 {
        1
    } else {
        let rest: usize = decimal_len(n / 10);
        proof {
            lemma_decimal_len_bound(n as nat);
        }
        rest + 1
    }
}

/// A number below `10^k` has at most `k` digits; a `u64` has at most 20.
pub proof fn lemma_decimal_len_bound(n: nat)
    ensures
        n < 10 ==> decimal(n).len() == 1,
        n < 100 ==> decimal(n).len() <= 2,
        n < 1000 ==> decimal(n).len() <= 3,
        n <= u64::MAX ==> decimal(n).len() <= 20,
        decimal(n).len() >= 1,
{
    reveal_with_fuel(decimal, 21);
}

/// Appends the shortest decimal writing of `n`.
pub fn push_decimal(out: &mut String, n: u64)
    ensures
        final(out)@ == old(out)@ + decimal(n as nat),
    decreases n,
{
    if n >= 10 {
        push_decimal(out, n / 10);
    }
    let d: u8 = (n % 10) as u8;
    push_char(out, (48u8 + d) as char);
    proof {
        assert(final(out)@ =~= old(out)@ + decimal(n as nat));
    }
}

/// Appends `n` in at least `width` digits, with zeros in front.
pub fn push_zero_filled(out: &mut String, n: u64, width: usize)
    ensures
        final(out)@ == old(out)@ + zero_fill(decimal(n as nat), width as int),
{
    let len: usize = decimal_len(n);
    let mut k: usize = len;
    while k < width
        invariant
            len <= k,
            len < width ==> k <= width,
            len >= width ==> k == len,
            out@ == old(out)@ + Seq::new((k - len) as nat, |i: int| '0'),
        decreases width - k,
    {
        push_char(out, '0');
        k = k + 1;
        proof {
            assert(out@ =~= old(out)@ + Seq::new((k - len) as nat, |i: int| '0'));
        }
    }
    let ghost mid = out@;
    push_decimal(out, n);
    proof {
        assert(mid + decimal(n as nat) =~= old(out)@ + zero_fill(
            decimal(n as nat),
            width as int,
        ));
    }
}

/// The size of `v` without its sign.
pub fn magnitude(v: i64) -> (r: u64)
    ensures
        r as int == if v < 0 {
            -(v as int)
        } else {
            v as int
        },
{
    if v < 0 {
        ((-(v + 1)) as u64) + 1
    } else {
        v as u64
    }
}

/// Appends `v` as `padded` writes it.
pub fn push_padded(out: &mut String, v: i64, width: usize)
    ensures
        final(out)@ == old(out)@ + padded(v as int, width as int),
{
    let mag: u64 = magnitude(v);
    if v < 0 {
        push_char(out, '-');
        let ghost mid = out@;
        let rest: usize = if width > 0 {
            width - 1
        } else {
            0
        };
        push_zero_filled(out, mag, rest);
        proof {
            lemma_decimal_len_bound(mag as nat);
            assert(zero_fill(decimal(mag as nat), rest as int) == zero_fill(
                decimal(mag as nat),
                width as int - 1,
            ));
            assert(out@ =~= old(out)@ + padded(v as int, width as int));
        }
    } else {
        push_zero_filled(out, mag, width);
    }
}

/// The place after the digits that begin at `from`.
pub open spec fn digit_run(s: Seq<char>, from: int) -> int
    decreases s.len() - from,
{
    if 0 <= from < s.len() && is_digit(s[from]) {
        digit_run(s, from + 1)
    } else {
        from
    }
}

/// The number that the digits of `s` from `from` to before `to` write.
pub open spec fn digits_number(s: Seq<char>, from: int, to: int) -> int
    decreases to - from,
{
    if to <= from {
        0
    } else {
        digits_number(s, from, to - 1) * 10 + digit_value(s[to - 1])
    }
}

/// The smaller of two numbers.
pub open spec fn least(a: int, b: int) -> int {
    if a <= b {
        a
    } else {
        b
    }
}

/// Reads the digits at `from`: where they end, and their number, or `cap`
/// where the number is larger.
pub fn scan_digits(v: &Vec<char>, from: usize, cap: u64) -> (r: (usize, u64))
    requires
        from <= v.len(),
        cap <= 1_000_000_000_000_000_000,
    ensures
        r.0 as int == digit_run(v@, from as int),
        from <= r.0 <= v.len(),
        r.1 as int == least(digits_number(v@, from as int, r.0 as int), cap as int),
        forall|j: int| from <= j < r.0 ==> is_digit(#[trigger] v@[j]),
{
    let mut i: usize = from;
    let mut acc: u64 = 0;
    while i < v.len()
        invariant
            from <= i <= v.len(),
            digit_run(v@, from as int) == digit_run(v@, i as int),
            acc as int == least(digits_number(v@, from as int, i as int), cap as int),
            digits_number(v@, from as int, i as int) >= 0,
            forall|j: int| from <= j < i ==> is_digit(#[trigger] v@[j]),
            acc <= cap <= 1_000_000_000_000_000_000,
        decreases v.len() - i,
    {
        match digit_of(v[i]) {
            Some(d) => {
                let next: u64 = acc * 10 + (d as u64);
                acc = if next > cap {
                    cap
                } else {
                    next
                };
                i = i + 1;
            },
            None => {
                return (i, acc);
            },
        }
    }
    (i, acc)
}

/// Whether `c` is white space.
pub open spec fn is_blank(c: char) -> bool {
    ('\u{9}' <= c && c <= '\u{d}') || c == ' ' || c == '\u{85}' || c == '\u{a0}' || c
        == '\u{1680}' || ('\u{2000}' <= c && c <= '\u{200a}') || c == '\u{2028}' || c
        == '\u{2029}' || c == '\u{202f}' || c == '\u{205f}' || c == '\u{3000}'
}

/// `s` without the white space at its start.
pub open spec fn trim_start(s: Seq<char>) -> Seq<char>
    decreases s.len(),
{
    if s.len() > 0 && is_blank(s[0]) {
        trim_start(s.drop_first())
    } else {
        s
    }
}

/// `s` without the white space at its end.
pub open spec fn trim_end(s: Seq<char>) -> Seq<char>
    decreases s.len(),
{
    if s.len() > 0 && is_blank(s.last()) {
        trim_end(s.drop_last())
    } else {
        s
    }
}

/// `s` without the white space at both ends.
pub open spec fn trimmed(s: Seq<char>) -> Seq<char> {
    trim_end(trim_start(s))
}

/// Whether `c` is white space.
pub fn blank(c: char) -> (r: bool)
    ensures
        r == is_blank(c),
{
    ('\u{9}' <= c && c <= '\u{d}') || c == ' ' || c == '\u{85}' || c == '\u{a0}' || c
        == '\u{1680}' || ('\u{2000}' <= c && c <= '\u{200a}') || c == '\u{2028}' || c
        == '\u{2029}' || c == '\u{202f}' || c == '\u{205f}' || c == '\u{3000}'
}

/// The characters of `v` from `from` to before `to`, as a string.
pub fn string_of(v: &Vec<char>, from: usize, to: usize) -> (r: String)
    requires
        from <= to <= v.len(),
    ensures
        r@ == v@.subrange(from as int, to as int),
{
    let mut out = String::new();
    let mut i: usize = from;
    while i < to
        invariant
            from <= i <= to <= v.len(),
            out@ == v@.subrange(from as int, i as int),
        decreases to - i,
    {
        push_char(&mut out, v[i]);
        i = i + 1;
        proof {
            assert(out@ =~= v@.subrange(from as int, i as int));
        }
    }
    out
}

/// `s` without the white space at both ends.
pub fn trim(s: &str) -> (r: String)
    ensures
        r@ == trimmed(s@),
{
    let v: Vec<char> = chars_of(s);
    let mut lo: usize = 0;
    proof {
        assert(v@.skip(0) =~= v@);
    }
    while lo < v.len() && blank(v[lo])
        invariant
            lo <= v.len(),
            trim_start(v@) == trim_start(v@.skip(lo as int)),
        decreases v.len() - lo,
    {
        proof {
            assert(v@.skip(lo as int).drop_first() =~= v@.skip(lo + 1));
        }
        lo = lo + 1;
    }
    let ghost rest = v@.skip(lo as int);
    proof {
        assert(v@.skip(0) =~= v@);
        assert(trim_start(v@) == rest);
        assert(rest.take(rest.len() as int) =~= rest);
    }
    let mut hi: usize = v.len();
    while hi > lo && blank(v[hi - 1])
        invariant
            lo <= hi <= v.len(),
            rest == v@.skip(lo as int),
            trim_end(rest) == trim_end(rest.take(hi - lo)),
        decreases hi,
    {
        proof {
            assert(rest.take(hi - lo).drop_last() =~= rest.take(hi - lo - 1));
        }
        hi = hi - 1;
    }
    proof {
        assert(trim_end(rest) == rest.take(hi - lo));
        assert(rest.take(hi - lo) =~= v@.subrange(lo as int, hi as int));
    }
    string_of(&v, lo, hi)
}

} // verus!
