//! Text utilities shared by the handlers, the dispatcher and the log viewer.
//!
//! Every string is modelled by its view, a `Seq<char>`.

use vstd::prelude::*;
use vstd::string::*;
use std::str::Chars;
use vstd::std_specs::iter::IteratorSpec;

verus! {

/// `str`'s equality from the standard library: two string slices compare
/// equal exactly when they hold the same characters.
pub assume_specification[ <str as PartialEq>::eq ](a: &str, b: &str) -> (r: bool)
    ensures
        r == (a@ == b@),
;

/// The characters of `s`, collected into a vector.
pub fn chars_of(s: &str) -> (v: Vec<char>)
    ensures
        v@ == s@,
{
    let mut v: Vec<char> = Vec::new();
    let mut it: Chars<'_> = s.chars();
    loop
        invariant
            v@.len() <= s@.len(),
            v@ == s@.take(v@.len() as int),
            it.remaining() == s@.skip(v@.len() as int),
        ensures
            v@ == s@,
        decreases s@.len() - v@.len(),
    {
        match it.next() {
            Some(c) => {
                proof {
                    assert(s@.take(v@.len() as int).push(c) =~= s@.take(v@.len() as int + 1));
                    assert(s@.skip(v@.len() as int).drop_first() =~= s@.skip(v@.len() as int + 1));
                }
                v.push(c);
            },
            None => {
                proof {
                    assert(s@.take(v@.len() as int) =~= s@);
                }
                break;
            },
        }
    }
    v
}

/// `String::push` from the standard library: appends one character to the
/// end of the string.
pub assume_specification[ String::push ](s: &mut String, c: char)
    ensures
        final(s)@ == old(s)@.push(c),
;

/// `String::pop` from the standard library: removes the last character and
/// returns it, or returns nothing where the string is empty.
pub assume_specification[ String::pop ](s: &mut String) -> (last: Option<char>)
    ensures
        old(s)@.len() == 0 ==> last is None && final(s)@ == old(s)@,
        old(s)@.len() > 0 ==> last == Some(old(s)@.last()) && final(s)@ == old(s)@.drop_last(),
;

/// The string that holds the characters `chars[from..to]`.
fn string_from(chars: &Vec<char>, from: usize, to: usize) -> (s: String)
    requires
        from <= to <= chars@.len(),
    ensures
        s@ == chars@.subrange(from as int, to as int),
{
    let mut s = String::new();
    let mut i: usize = from;
    while i < to
        invariant
            from <= i <= to <= chars@.len(),
            s@ == chars@.subrange(from as int, i as int),
        decreases to - i,
    {
        proof {
            assert(chars@.subrange(from as int, i as int).push(chars@[i as int])
                =~= chars@.subrange(from as int, i as int + 1));
        }
        s.push(chars[i]);
        i = i + 1;
    }
    s
}

/// The character that writes the decimal digit `d`.
pub open spec fn digit_char(d: int) -> char
    recommends
        0 <= d < 10,
{
    (48 + d) as char
}

/// The decimal digit `d` as a character.
fn digit(d: u8) -> (c: char)
    requires
        d < 10,
    ensures
        c == digit_char(d as int),
{
    (48u8 + d) as char
}

/// The decimal notation of `n`, without leading zeros.
pub open spec fn decimal(n: nat) -> Seq<char>
    decreases n,
{
    if n < 10 {
        seq![digit_char(n as int)]
    } else {
        decimal(n / 10).push(digit_char((n % 10) as int))
    }
}

/// Appends the decimal notation of `n` to `out`.
pub fn push_decimal(out: &mut String, n: u64)
    ensures
        final(out)@ == old(out)@ + decimal(n as nat),
    decreases n,
{
    if n < 10 {
        out.push(digit(n as u8));
        proof {
            assert(old(out)@.push(digit_char(n as int)) =~= old(out)@ + decimal(n as nat));
        }
    } else {
        push_decimal(out, n / 10);
        out.push(digit((n % 10) as u8));
        proof {
            assert((old(out)@ + decimal((n / 10) as nat)).push(digit_char((n % 10) as int))
                =~= old(out)@ + decimal(n as nat));
        }
    }
}

/// The decimal notation of `n` as a string.
pub fn decimal_string(n: u64) -> (s: String)
    ensures
        s@ == decimal(n as nat),
{
    let mut s = String::new();
    push_decimal(&mut s, n);
    proof {
        assert(Seq::<char>::empty() + decimal(n as nat) =~= decimal(n as nat));
    }
    s
}

/// `n` written with at least two decimal digits: behind a zero where
/// `n < 10`.
pub open spec fn two_digits(n: nat) -> Seq<char> {
    if n < 10 {
        seq!['0', digit_char(n as int)]
    } else {
        decimal(n)
    }
}

/// Appends `n` to `out` with at least two decimal digits.
pub fn push_two_digits(out: &mut String, n: u64)
    ensures
        final(out)@ == old(out)@ + two_digits(n as nat),
{
    if n < 10 {
        out.push('0');
        out.push(digit(n as u8));
        proof {
            assert(old(out)@.push('0').push(digit_char(n as int)) =~= old(out)@ + two_digits(
                n as nat,
            ));
        }
    } else {
        push_decimal(out, n);
    }
}

/// The time of day of a timestamp in seconds, as `HH:MM:SS`.
pub open spec fn clock_text(timestamp: nat) -> Seq<char> {
    two_digits((timestamp / 3600) % 24) + seq![':'] + two_digits((timestamp / 60) % 60) + seq![':']
        + two_digits(timestamp % 60)
}

/// What `str::to_uppercase` makes of a string.
pub uninterp spec fn uppercase_of(s: Seq<char>) -> Seq<char>;

/// `str::to_uppercase` from the standard library: the upper-case form of a
/// string under the Unicode case mapping, a function of the characters alone.
pub assume_specification[ str::to_uppercase ](s: &str) -> (r: String)
    ensures
        r@ == uppercase_of(s@),
;

/// What `str::to_lowercase` makes of a string.
pub uninterp spec fn lowercase_of(s: Seq<char>) -> Seq<char>;

/// `str::to_lowercase` from the standard library: the lower-case form of a
/// string under the Unicode case mapping, a function of the characters alone.
pub assume_specification[ str::to_lowercase ](s: &str) -> (r: String)
    ensures
        r@ == lowercase_of(s@),
;

/// Where the last segment of `s` begins: just behind the last `sep`, or at 0
/// where `s` holds no `sep`.
pub open spec fn last_segment_start(s: Seq<char>, sep: char) -> int
    decreases s.len(),
{
    if s.len() == 0 {
        0
    } else if s.last() == sep {
        s.len() as int
    } else {
        last_segment_start(s.drop_last(), sep)
    }
}

/// What follows the last `sep` in `s`; all of `s` where it holds no `sep`.
pub open spec fn last_segment(s: Seq<char>, sep: char) -> Seq<char> {
    s.skip(last_segment_start(s, sep))
}

/// The last segment starts inside the string, directly behind a separator or
/// at the front, and holds no separator itself.
pub proof fn lemma_last_segment(s: Seq<char>, sep: char)
    ensures
        0 <= last_segment_start(s, sep) <= s.len(),
        last_segment_start(s, sep) > 0 ==> s[last_segment_start(s, sep) - 1] == sep,
        forall|i: int| last_segment_start(s, sep) <= i < s.len() ==> s[i] != sep,
        !last_segment(s, sep).contains(sep),
    decreases s.len(),
{
    if s.len() > 0 && s.last() != sep {
        lemma_last_segment(s.drop_last(), sep);
        assert forall|i: int| last_segment_start(s, sep) <= i < s.len() implies s[i] != sep by {
            if i < s.len() - 1 {
                assert(s.drop_last()[i] == s[i]);
            }
        }
    }
    let tail = last_segment(s, sep);
    assert forall|k: int| 0 <= k < tail.len() implies tail[k] != sep by {
        assert(tail[k] == s[last_segment_start(s, sep) + k]);
    }
}

/// Splits `s` at every `sep` and returns the last piece.
pub fn last_segment_of(s: &str, sep: char) -> (r: String)
    ensures
        r@ == last_segment(s@, sep),
        !r@.contains(sep),
{
    proof {
        lemma_last_segment(s@, sep);
    }
    let chars = chars_of(s);
    let mut start: usize = 0;
    let mut i: usize = 0;
    while i < chars.len()
        invariant
            i <= chars@.len(),
            start <= i,
            start == last_segment_start(chars@.take(i as int), sep),
        decreases chars@.len() - i,
    {
        proof {
            assert(chars@.take(i as int + 1).drop_last() =~= chars@.take(i as int));
        }
        if chars[i] == sep {
            start = i + 1;
        }
        i = i + 1;
    }
    proof {
        assert(chars@.take(i as int) =~= chars@);
    }
    string_from(&chars, start, chars.len())
}

/// Tells whether `c` is among `chars`.
pub fn contains_char(chars: &Vec<char>, c: char) -> (found: bool)
    ensures
        found == chars@.contains(c),
{
    let mut i: usize = 0;
    while i < chars.len()
        invariant
            i <= chars@.len(),
            forall|k: int| 0 <= k < i ==> chars@[k] != c,
        decreases chars@.len() - i,
    {
        if chars[i] == c {
            return true;
        }
        i = i + 1;
    }
    false
}

/// `needle` stands in `hay` at position `at`.
pub open spec fn occurs_at(needle: Seq<char>, hay: Seq<char>, at: int) -> bool {
    0 <= at <= hay.len() - needle.len() && hay.subrange(at, at + needle.len()) == needle
}

/// `needle` occurs in `hay` as a run of consecutive characters.
pub open spec fn is_substring(needle: Seq<char>, hay: Seq<char>) -> bool {
    exists|at: int| occurs_at(needle, hay, at)
}

fn matches_at(needle: &Vec<char>, hay: &Vec<char>, at: usize) -> (r: bool)
    requires
        at + needle@.len() <= hay@.len(),
    ensures
        r == occurs_at(needle@, hay@, at as int),
{
    let m: usize = needle.len();
    let n: usize = hay.len();
    let mut j: usize = 0;
    while j < m
        invariant
            j <= m,
            m == needle@.len(),
            n == hay@.len(),
            at + m <= n,
            forall|k: int| 0 <= k < j ==> hay@[at + k] == needle@[k],
        decreases m - j,
    {
        if hay[at + j] != needle[j] {
            proof {
                assert(hay@.subrange(at as int, at + needle@.len())[j as int] == hay@[at + j]);
            }
            return false;
        }
        j = j + 1;
    }
    proof {
        assert(hay@.subrange(at as int, at + needle@.len()) =~= needle@);
    }
    true
}

/// Tells whether `needle` occurs in `hay`.
pub fn contains_chars(hay: &Vec<char>, needle: &Vec<char>) -> (r: bool)
    ensures
        r == is_substring(needle@, hay@),
{
    if needle.len() > hay.len() {
        return false;
    }
    let last: usize = hay.len() - needle.len();
    let mut i: usize = 0;
    loop
        invariant
            i <= last,
            last == hay@.len() - needle@.len(),
            forall|k: int| 0 <= k < i ==> !occurs_at(needle@, hay@, k),
        decreases last - i,
    {
        if matches_at(needle, hay, i) {
            return true;
        }
        if i == last {
            return false;
        }
        i = i + 1;
    }
}

/// The views of a list of strings.
pub open spec fn line_views(lines: Seq<String>) -> Seq<Seq<char>> {
    lines.map_values(|l: String| l@)
}

/// Appends a line to a list of lines.
pub fn push_line(lines: &mut Vec<String>, line: String)
    ensures
        line_views(final(lines)@) == line_views(old(lines)@).push(line@),
{
    lines.push(line);
    proof {
        assert(line_views(lines@) =~= line_views(old(lines)@).push(line@));
    }
}

/// The lines with a line feed between each two.
pub open spec fn joined(lines: Seq<Seq<char>>) -> Seq<char>
    decreases lines.len(),
{
    if lines.len() == 0 {
        Seq::empty()
    } else if lines.len() == 1 {
        lines[0]
    } else {
        joined(lines.drop_last()) + seq!['\n'] + lines.last()
    }
}

/// Joins the lines, with a line feed between each two.
pub fn join_lines(lines: &Vec<String>) -> (text: String)
    ensures
        text@ == joined(line_views(lines@)),
{
    let mut text = String::new();
    let mut i: usize = 0;
    while i < lines.len()
        invariant
            i <= lines@.len(),
            text@ == joined(line_views(lines@).take(i as int)),
        decreases lines@.len() - i,
    {
        proof {
            let views = line_views(lines@);
            assert(views.take(i as int + 1).drop_last() =~= views.take(i as int));
            assert(views.take(i as int + 1).last() == lines@[i as int]@);
        }
        if i > 0 {
            text.push('\n');
        }
        text.append(lines[i].as_str());
        proof {
            if i == 0 {
                assert(text@ =~= lines@[0]@);
            }
        }
        i = i + 1;
    }
    proof {
        assert(line_views(lines@).take(i as int) =~= line_views(lines@));
    }
    text
}

/// The lines, each followed by a line feed.
pub open spec fn terminated(lines: Seq<Seq<char>>) -> Seq<char>
    decreases lines.len(),
{
    if lines.len() == 0 {
        Seq::empty()
    } else {
        terminated(lines.drop_last()) + lines.last() + seq!['\n']
    }
}

} // verus!
