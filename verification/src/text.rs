//! Text as sequences of characters: conversion between strings and
//! character vectors, whitespace, lines and words.

use vstd::prelude::*;
use vstd::std_specs::iter::IteratorSpec;

verus! {

/// The characters of `s`, in order.
pub fn chars_of(s: &str) -> (v: Vec<char>)
    ensures
        v@ == s@,
{
    broadcast use vstd::string::group_string_axioms;

    let mut v: Vec<char> = Vec::new();
    let mut it = s.chars();
    loop
        invariant
            it.obeys_prophetic_iter_laws(),
            it.decrease() is Some,
            v@ + it.remaining() == s@,
        decreases it.decrease()->0,
    {
        let ghost before = it.remaining();
        match it.next() {
            Some(c) => {
                assert(before == seq![c] + it.remaining());
                assert(v@.push(c) + it.remaining() =~= v@ + before);
                v.push(c);
            },
            None => {
                assert(v@ =~= s@);
                return v;
            },
        }
    }
}

/// `String::push`: the string afterwards is the string before with `c`
/// appended as its last character.
#[verifier::external_body]
fn push_char(s: &mut String, c: char)
    ensures
        final(s)@ == old(s)@.push(c),
{
    s.push(c);
}

/// The string made of the characters of `v`, in order.
pub fn string_of(v: &Vec<char>) -> (s: String)
    ensures
        s@ == v@,
{
    let mut s = String::new();
    let mut i: usize = 0;
    while i < v.len()
        invariant
            i <= v.len(),
            s@ == v@.take(i as int),
        decreases v.len() - i,
    {
        push_char(&mut s, v[i]);
        assert(v@.take(i as int).push(v@[i as int]) =~= v@.take(i + 1));
        i += 1;
    }
    assert(v@.take(v.len() as int) =~= v@);
    s
}

/// A copy of the characters of `v` from position `from` up to, not
/// including, position `to`.
pub fn slice_of(v: &Vec<char>, from: usize, to: usize) -> (r: Vec<char>)
    requires
        from <= to <= v.len(),
    ensures
        r@ == v@.subrange(from as int, to as int),
{
    let mut r: Vec<char> = Vec::new();
    let mut i: usize = from;
    while i < to
        invariant
            from <= i <= to <= v.len(),
            r@ == v@.subrange(from as int, i as int),
        decreases to - i,
    {
        r.push(v[i]);
        assert(v@.subrange(from as int, i as int).push(v@[i as int]) =~= v@.subrange(
            from as int,
            i + 1,
        ));
        i += 1;
    }
    r
}

/// Whether two character vectors hold the same text.
pub fn same_text(a: &Vec<char>, b: &Vec<char>) -> (r: bool)
    ensures
        r == (a@ == b@),
{
    if a.len() != b.len() {
        return false;
    }
    let mut i: usize = 0;
    while i < a.len()
        invariant
            i <= a.len(),
            a.len() == b.len(),
            a@.take(i as int) == b@.take(i as int),
        decreases a.len() - i,
    {
        if a[i] != b[i] {
            return false;
        }
        assert(a@.take(i + 1) =~= a@.take(i as int).push(a@[i as int]));
        assert(b@.take(i + 1) =~= b@.take(i as int).push(b@[i as int]));
        i += 1;
    }
    assert(a@.take(a.len() as int) =~= a@);
    assert(b@.take(b.len() as int) =~= b@);
    true
}

/// Whether `a` holds exactly the text of the string `lit`.
pub fn is_text(a: &Vec<char>, lit: &str) -> (r: bool)
    ensures
        r == (a@ == lit@),
{
    let b = chars_of(lit);
    same_text(a, &b)
}

/// Whether `s` begins with `prefix`.
pub open spec fn has_prefix(s: Seq<char>, prefix: Seq<char>) -> bool {
    prefix.len() <= s.len() && s.take(prefix.len() as int) == prefix
}

/// Whether `a` begins with the text of the string `lit`.
pub fn starts_with(a: &Vec<char>, lit: &str) -> (r: bool)
    ensures
        r == has_prefix(a@, lit@),
{
    let b = chars_of(lit);
    if b.len() > a.len() {
        return false;
    }
    let head = slice_of(a, 0, b.len());
    same_text(&head, &b)
}

/// White space: the code points that carry Unicode's `White_Space` property.
pub open spec fn is_space(c: char) -> bool {
    let n = c as u32;
    ||| 0x09 <= n <= 0x0d
    ||| n == 0x20
    ||| n == 0x85
    ||| n == 0xa0
    ||| n == 0x1680
    ||| 0x2000 <= n <= 0x200a
    ||| n == 0x2028
    ||| n == 0x2029
    ||| n == 0x202f
    ||| n == 0x205f
    ||| n == 0x3000
}

/// Whether `c` is white space.
pub fn is_whitespace(c: char) -> (r: bool)
    ensures
        r == is_space(c),
{
    let n: u32 = c as u32;
    (0x09 <= n && n <= 0x0d) || n == 0x20 || n == 0x85 || n == 0xa0 || n == 0x1680 || (0x2000 <= n
        && n <= 0x200a) || n == 0x2028 || n == 0x2029 || n == 0x202f || n == 0x205f || n == 0x3000
}

/// The number of characters from position `i` up to the next line feed, or
/// to the end of `s` where no line feed follows.
pub open spec fn line_len(s: Seq<char>, i: int) -> nat
    decreases s.len() - i,
{
    if i < 0 || i >= s.len() || s[i] == '\n' {
        0
    } else {
        1 + line_len(s, i + 1)
    }
}

/// A line without the carriage return that stood before its line feed.
pub open spec fn strip_cr(line: Seq<char>, terminated: bool) -> Seq<char> {
    if terminated && line.len() > 0 && line.last() == '\r' {
        line.drop_last()
    } else {
        line
    }
}

/// The lines of `s` from position `i` on. A line ends at a line feed or at
/// the end of the text; a carriage return directly before the line feed
/// belongs to the line ending. Nothing follows a final line ending.
pub open spec fn lines_from(s: Seq<char>, i: int) -> Seq<Seq<char>>
    decreases s.len() - i,
{
    if i < 0 || i >= s.len() {
        Seq::empty()
    } else {
        let e = i + line_len(s, i);
        if e < s.len() {
            seq![strip_cr(s.subrange(i, e), true)] + lines_from(s, e + 1)
        } else {
            seq![s.subrange(i, e)]
        }
    }
}

/// The lines of `s`.
pub open spec fn lines(s: Seq<char>) -> Seq<Seq<char>> {
    lines_from(s, 0)
}

/// The texts that a vector of character vectors holds.
pub open spec fn texts(v: Seq<Vec<char>>) -> Seq<Seq<char>> {
    v.map_values(|x: Vec<char>| x@)
}

/// Splits `text` into its lines.
pub fn split_lines(text: &Vec<char>) -> (out: Vec<Vec<char>>)
    ensures
        texts(out@) == lines(text@),
{
    let n = text.len();
    let mut out: Vec<Vec<char>> = Vec::new();
    let mut i: usize = 0;
    assert(texts(out@) =~= Seq::<Seq<char>>::empty());
    while i < n
        invariant
            n == text.len(),
            i <= n,
            lines(text@) == texts(out@) + lines_from(text@, i as int),
        decreases n - i,
    {
        let mut e: usize = i;
        while e < n && text[e] != '\n'
            invariant
                n == text.len(),
                i <= e <= n,
                line_len(text@, i as int) == (e - i) + line_len(text@, e as int),
            decreases n - e,
        {
            e += 1;
        }
        let terminated = e < n;
        let stop: usize = if terminated && e > i && text[e - 1] == '\r' {
            e - 1
        } else {
            e
        };
        let line = slice_of(text, i, stop);
        proof {
            let whole = text@.subrange(i as int, e as int);
            assert(e == i + line_len(text@, i as int));
            if stop < e {
                assert(whole.last() == '\r');
                assert(whole.drop_last() =~= text@.subrange(i as int, stop as int));
            }
            assert(line@ == strip_cr(whole, terminated));
            assert(texts(out@.push(line)) =~= texts(out@).push(line@));
            assert(lines_from(text@, e + 1) =~= if terminated {
                lines_from(text@, e + 1)
            } else {
                Seq::empty()
            });
            assert(lines_from(text@, i as int) =~= seq![line@] + lines_from(text@, e + 1));
            assert(texts(out@).push(line@) + lines_from(text@, e + 1) =~= texts(out@) + (
            seq![line@] + lines_from(text@, e + 1)));
        }
        out.push(line);
        if terminated {
            i = e + 1;
        } else {
            i = n;
        }
    }
    assert(texts(out@) + lines_from(text@, i as int) =~= texts(out@));
    out
}

/// The number of characters from position `i` up to the next white space,
/// or to the end of `s` where none follows.
pub open spec fn word_len(s: Seq<char>, i: int) -> nat
    decreases s.len() - i,
{
    if i < 0 || i >= s.len() || is_space(s[i]) {
        0
    } else {
        1 + word_len(s, i + 1)
    }
}

/// The words of `s` from position `i` on: the maximal runs of characters
/// that are not white space.
pub open spec fn words_from(s: Seq<char>, i: int) -> Seq<Seq<char>>
    decreases s.len() - i,
{
    if i < 0 || i >= s.len() {
        Seq::empty()
    } else if is_space(s[i]) {
        words_from(s, i + 1)
    } else {
        let e = i + word_len(s, i);
        if i < e < s.len() {
            seq![s.subrange(i, e)] + words_from(s, e)
        } else {
            seq![s.subrange(i, e)]
        }
    }
}

/// The words of `s`.
pub open spec fn words(s: Seq<char>) -> Seq<Seq<char>> {
    words_from(s, 0)
}

/// Splits `line` into its words.
pub fn split_words(line: &Vec<char>) -> (out: Vec<Vec<char>>)
    ensures
        texts(out@) == words(line@),
{
    let n = line.len();
    let mut out: Vec<Vec<char>> = Vec::new();
    let mut i: usize = 0;
    assert(texts(out@) =~= Seq::<Seq<char>>::empty());
    while i < n
        invariant
            n == line.len(),
            i <= n,
            words(line@) == texts(out@) + words_from(line@, i as int),
        decreases n - i,
    {
        if is_whitespace(line[i]) {
            i += 1;
        } else {
            let mut e: usize = i;
            while e < n && !is_whitespace(line[e])
                invariant
                    n == line.len(),
                    i <= e <= n,
                    word_len(line@, i as int) == (e - i) + word_len(line@, e as int),
                decreases n - e,
            {
                e += 1;
            }
            let word = slice_of(line, i, e);
            proof {
                assert(e == i + word_len(line@, i as int));
                assert(texts(out@.push(word)) =~= texts(out@).push(word@));
                assert(word_len(line@, i as int) > 0);
                assert(words_from(line@, i as int) =~= seq![word@] + words_from(line@, e as int));
                assert(texts(out@).push(word@) + words_from(line@, e as int) =~= texts(out@) + (
                seq![word@] + words_from(line@, e as int)));
            }
            out.push(word);
            i = e;
        }
    }
    assert(texts(out@) + words_from(line@, i as int) =~= texts(out@));
    out
}

} // verus!
