//! Small operations on text, stated over sequences of characters.

use vstd::prelude::*;

verus! {

/// A carriage return or a line feed.
pub open spec fn is_line_terminator(c: char) -> bool {
    c == '\r' || c == '\n'
}

/// A character with the Unicode property `White_Space`.
pub open spec fn is_whitespace(c: char) -> bool {
    ||| ('\u{9}' <= c && c <= '\u{d}')
    ||| c == ' '
    ||| c == '\u{85}'
    ||| c == '\u{a0}'
    ||| c == '\u{1680}'
    ||| ('\u{2000}' <= c && c <= '\u{200a}')
    ||| c == '\u{2028}'
    ||| c == '\u{2029}'
    ||| c == '\u{202f}'
    ||| c == '\u{205f}'
    ||| c == '\u{3000}'
}

/// `s` without the line terminators at its end.
pub open spec fn strip_line_endings(s: Seq<char>) -> Seq<char>
    decreases s.len(),
{
    if s.len() > 0 && is_line_terminator(s.last()) {
        strip_line_endings(s.drop_last())
    } else {
        s
    }
}

/// `s` without the white space at its end.
pub open spec fn trim_end(s: Seq<char>) -> Seq<char>
    decreases s.len(),
{
    if s.len() > 0 && is_whitespace(s.last()) {
        trim_end(s.drop_last())
    } else {
        s
    }
}

/// `s` without the white space at its start.
pub open spec fn trim_start(s: Seq<char>) -> Seq<char>
    decreases s.len(),
{
    if s.len() > 0 && is_whitespace(s.first()) {
        trim_start(s.drop_first())
    } else {
        s
    }
}

/// `s` without the white space at either end.
pub open spec fn trim(s: Seq<char>) -> Seq<char> {
    trim_start(trim_end(s))
}

/// Whether `s` ends with `suffix`.
pub open spec fn ends_with(s: Seq<char>, suffix: Seq<char>) -> bool {
    suffix.len() <= s.len() && s.subrange(s.len() - suffix.len(), s.len() as int) == suffix
}

/// A message that names something: the words, then the name between double
/// quotes.
pub open spec fn quoting(words: Seq<char>, name: Seq<char>) -> Seq<char> {
    words + "\""@ + name + "\""@
}

/// What is left of `s` once its line terminators are stripped is a prefix of
/// `s`, is followed by line terminators only, and does not end in one.
pub proof fn lemma_strip_line_endings(s: Seq<char>)
    ensures
        strip_line_endings(s).len() <= s.len(),
        strip_line_endings(s) == s.subrange(0, strip_line_endings(s).len() as int),
        forall|i: int|
            strip_line_endings(s).len() <= i < s.len() ==> is_line_terminator(#[trigger] s[i]),
        strip_line_endings(s).len() > 0 ==> !is_line_terminator(strip_line_endings(s).last()),
    decreases s.len(),
{
    if s.len() > 0 && is_line_terminator(s.last()) {
        let t = s.drop_last();
        lemma_strip_line_endings(t);
        let r = strip_line_endings(t);
        assert(r == s.subrange(0, r.len() as int));
        assert forall|i: int| r.len() <= i < s.len() implies is_line_terminator(
            #[trigger] s[i],
        ) by {
            if i < t.len() {
                assert(s[i] == t[i]);
            }
        }
    } else {
        assert(s == s.subrange(0, s.len() as int));
    }
}

/// Builds a message that names something.
pub fn quote(words: &str, name: &str) -> (message: String)
    ensures
        message@ == quoting(words@, name@),
{
    let mut message = String::from_str(words);
    message.append("\"");
    message.append(name);
    message.append("\"");
    message
}

/// Compares two strings character by character.
pub fn str_eq(a: &str, b: &str) -> (equal: bool)
    ensures
        equal == (a@ == b@),
{
    let x = String::from_str(a);
    let y = String::from_str(b);
    x == y
}

/// Tells whether `c` is a carriage return or a line feed.
pub fn line_terminator(c: char) -> (r: bool)
    ensures
        r == is_line_terminator(c),
{
    c == '\r' || c == '\n'
}

/// Tells whether `c` is white space.
pub fn whitespace(c: char) -> (r: bool)
    ensures
        r == is_whitespace(c),
{
    ('\u{9}' <= c && c <= '\u{d}') || c == ' ' || c == '\u{85}' || c == '\u{a0}' || c == '\u{1680}'
        || ('\u{2000}' <= c && c <= '\u{200a}') || c == '\u{2028}' || c == '\u{2029}' || c
        == '\u{202f}' || c == '\u{205f}' || c == '\u{3000}'
}

/// Drops the carriage returns and line feeds that end `s`: what is left is
/// the longest start of `s` that does not end in one.
pub fn trim_line_endings(s: &str) -> (out: String)
    ensures
        out@ == strip_line_endings(s@),
        out@.len() <= s@.len(),
        out@ == s@.subrange(0, out@.len() as int),
        out@.len() > 0 ==> !is_line_terminator(out@.last()),
        forall|i: int| out@.len() <= i < s@.len() ==> is_line_terminator(#[trigger] s@[i]),
{
    proof {
        lemma_strip_line_endings(s@);
    }
    let mut n: usize = s.unicode_len();
    assert(s@.subrange(0, n as int) == s@);
    loop
        invariant
            n <= s@.len(),
            strip_line_endings(s@) == strip_line_endings(s@.subrange(0, n as int)),
        ensures
            n <= s@.len(),
            strip_line_endings(s@) == s@.subrange(0, n as int),
        decreases n,
    {
        if n == 0 {
            break ;
        }
        let c: char = s.get_char(n - 1);
        if !line_terminator(c) {
            break ;
        }
        proof {
            assert(s@.subrange(0, n as int).drop_last() == s@.subrange(0, n - 1));
        }
        n = n - 1;
    }
    String::from_str(s.substring_char(0, n))
}

/// Drops the white space at both ends of `s`.
pub fn trim_whitespace(s: &str) -> (out: &str)
    ensures
        out@ == trim(s@),
{
    let mut end: usize = s.unicode_len();
    assert(s@.subrange(0, end as int) == s@);
    loop
        invariant
            end <= s@.len(),
            trim_end(s@) == trim_end(s@.subrange(0, end as int)),
        ensures
            end <= s@.len(),
            trim_end(s@) == s@.subrange(0, end as int),
        decreases end,
    {
        if end == 0 {
            break ;
        }
        let c: char = s.get_char(end - 1);
        if !whitespace(c) {
            break ;
        }
        proof {
            assert(s@.subrange(0, end as int).drop_last() == s@.subrange(0, end - 1));
        }
        end = end - 1;
    }
    let mut start: usize = 0;
    loop
        invariant
            start <= end <= s@.len(),
            trim(s@) == trim_start(s@.subrange(start as int, end as int)),
        ensures
            start <= end <= s@.len(),
            trim(s@) == s@.subrange(start as int, end as int),
        decreases end - start,
    {
        if start == end {
            break ;
        }
        let c: char = s.get_char(start);
        if !whitespace(c) {
            break ;
        }
        proof {
            assert(s@.subrange(start as int, end as int).drop_first() == s@.subrange(
                start + 1,
                end as int,
            ));
        }
        start = start + 1;
    }
    s.substring_char(start, end)
}

/// Tells whether `s` ends with `suffix`.
pub fn has_suffix(s: &str, suffix: &str) -> (r: bool)
    ensures
        r == ends_with(s@, suffix@),
{
    let n: usize = s.unicode_len();
    let m: usize = suffix.unicode_len();
    if m > n {
        return false;
    }
    let tail = s.substring_char(n - m, n);
    str_eq(tail, suffix)
}

} // verus!
