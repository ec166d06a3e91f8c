//! Laws of the parser, the template validation and the renderer.

use vstd::prelude::*;
use crate::parser::{read_line, read_lines, status_of, word_at, ParseError};
use crate::record::{Area, Status};
use crate::render::{
    expand_from, gap, rendering, run_len, runs, squeeze, squeeze_from, styled, Glyph, Piece,
    RenderMode,
};
use crate::style::StyleName;
use crate::template::{first_error, first_error_from, is_token, TemplateError};
use crate::text::{is_space, lines, word_len, words, words_from};

verus! {

/// Whether a line of status text is a header line.
pub open spec fn is_header_line(line: Seq<char>) -> bool {
    word_at(words(line), 0) == Some("#"@)
}

/// Whether a line of status text is an entry: tracked, unmerged or
/// untracked.
pub open spec fn is_entry_line(line: Seq<char>) -> bool {
    let first = word_at(words(line), 0);
    first == Some("1"@) || first == Some("2"@) || first == Some("u"@) || first == Some("?"@)
}

/// Whether two statuses agree in everything that header lines and the
/// lazy reads set.
pub open spec fn same_header(a: Status, b: Status) -> bool {
    &&& a.branch == b.branch
    &&& a.commit == b.commit
    &&& a.upstream == b.upstream
    &&& a.ahead == b.ahead
    &&& a.behind == b.behind
    &&& a.stashed == b.stashed
    &&& a.insertions == b.insertions
    &&& a.deletions == b.deletions
    &&& a.stash_known == b.stash_known
    &&& a.diff_known == b.diff_known
}

/// Lines without a header line are read without error and leave the names
/// and the counts of commits as they were; lines that are neither header
/// nor entry leave everything as it was.
pub proof fn lemma_lines_without_header(r: Status, ls: Seq<Seq<char>>, lookup: Option<Seq<char>>)
    requires
        forall|i: int| 0 <= i < ls.len() ==> !is_header_line(#[trigger] ls[i]),
    ensures
        read_lines(r, ls, lookup) is Ok,
        same_header(read_lines(r, ls, lookup)->Ok_0, r),
        (forall|i: int| 0 <= i < ls.len() ==> !is_entry_line(#[trigger] ls[i])) ==> read_lines(
            r,
            ls,
            lookup,
        ) == Ok::<Status, ParseError>(r),
    decreases ls.len(),
{
    if ls.len() > 0 {
        let front = ls.drop_last();
        assert forall|i: int| 0 <= i < front.len() implies !is_header_line(#[trigger] front[i]) by {
            assert(front[i] == ls[i]);
        }
        lemma_lines_without_header(r, front, lookup);
        assert(ls.last() == ls[ls.len() - 1]);
        if forall|i: int| 0 <= i < ls.len() ==> !is_entry_line(#[trigger] ls[i]) {
            assert forall|i: int| 0 <= i < front.len() implies !is_entry_line(
                #[trigger] front[i],
            ) by {
                assert(front[i] == ls[i]);
            }
        }
    }
}

/// A status text without a header line names no branch, no commit and no
/// upstream, and counts no commits ahead or behind; one that has no entry
/// line either says nothing at all.
pub proof fn lemma_no_header(text: Seq<char>, lookup: Option<Seq<char>>)
    requires
        forall|i: int| 0 <= i < lines(text).len() ==> !is_header_line(#[trigger] lines(text)[i]),
    ensures
        status_of(text, lookup) is Ok,
        status_of(text, lookup)->Ok_0.branch is None,
        status_of(text, lookup)->Ok_0.commit is None,
        status_of(text, lookup)->Ok_0.upstream is None,
        status_of(text, lookup)->Ok_0.ahead == 0,
        status_of(text, lookup)->Ok_0.behind == 0,
        status_of(text, lookup)->Ok_0.stashed == 0,
        status_of(text, lookup)->Ok_0.insertions == 0,
        status_of(text, lookup)->Ok_0.deletions == 0,
        (forall|i: int| 0 <= i < lines(text).len() ==> !is_entry_line(#[trigger] lines(text)[i]))
            ==> status_of(text, lookup) == Ok::<Status, ParseError>(Status::empty()),
{
    lemma_lines_without_header(Status::empty(), lines(text), lookup);
}

/// Whether `code` is one of the change codes that an area counts.
pub open spec fn is_change_code(code: char) -> bool {
    code == 'M' || code == 'T' || code == 'A' || code == 'D' || code == 'R' || code == 'C'
}

/// A change code raises the number of an area's changes by one; any other
/// character leaves the area as it was.
pub proof fn lemma_bump(a: Area, code: char)
    ensures
        is_change_code(code) ==> a.bump(code).total() == a.total() + 1,
        !is_change_code(code) ==> a.bump(code) == a,
{
}

/// A tracked-entry line with a code of two characters counts the first
/// for the staged area and the second for the unstaged area, and changes
/// nothing else.
pub proof fn lemma_tracked_entry(r: Status, line: Seq<char>, lookup: Option<Seq<char>>)
    requires
        word_at(words(line), 0) == Some("1"@) || word_at(words(line), 0) == Some("2"@),
        words(line).len() >= 2,
        words(line)[1].len() == 2,
    ensures
        read_line(r, line, lookup) == Ok::<Status, ParseError>(
            Status {
                staged: r.staged.bump(words(line)[1][0]),
                unstaged: r.unstaged.bump(words(line)[1][1]),
                ..r
            },
        ),
{
    reveal_strlit("#");
    reveal_strlit("1");
    reveal_strlit("2");
    let first = words(line)[0];
    assert(first.len() == 1);
    assert(first[0] != '#');
}

/// Rendering depends on nothing but the record's contents, the template's
/// text and the mode: the same three render to the same pieces, however
/// often.
pub proof fn lemma_render_repeatable(
    a: Status,
    b: Status,
    s: Seq<char>,
    t: Seq<char>,
    mode: RenderMode,
)
    requires
        a == b,
        s == t,
    ensures
        rendering(a, s, mode) == rendering(b, t, mode),
{
}

/// A template without a percent sign stands for its own characters, each
/// in the plain style.
pub proof fn lemma_expand_literal(r: Status, t: Seq<char>, i: int, indicators_only: bool)
    requires
        0 <= i <= t.len(),
        forall|k: int| 0 <= k < t.len() ==> t[k] != '%',
    ensures
        expand_from(r, t, i, indicators_only) == styled(t.skip(i), StyleName::Plain),
        first_error_from(t, i) is None,
    decreases t.len() - i,
{
    if i < t.len() {
        lemma_expand_literal(r, t, i + 1, indicators_only);
        assert(styled(t.skip(i), StyleName::Plain) =~= seq![(t[i], StyleName::Plain)] + styled(
            t.skip(i + 1),
            StyleName::Plain,
        ));
    } else {
        assert(styled(t.skip(i), StyleName::Plain) =~= Seq::<Glyph>::empty());
    }
}

/// Characters of one style gather into one piece.
pub proof fn lemma_runs_one_style(s: Seq<char>, style: StyleName)
    requires
        s.len() > 0,
    ensures
        runs(styled(s, style)) == seq![Piece { text: s, style: style }],
    decreases s.len(),
{
    let g = styled(s, style);
    assert(g.drop_last() =~= styled(s.drop_last(), style));
    if s.len() == 1 {
        assert(runs(g.drop_last()) =~= Seq::<Piece>::empty());
        assert(s =~= seq![s.last()]);
    } else {
        lemma_runs_one_style(s.drop_last(), style);
        assert(s.drop_last().push(s.last()) =~= s);
    }
}

/// Validating a well-formed beginning followed by an unknown token
/// arrives at that token.
pub proof fn lemma_error_after(
    prefix: Seq<char>,
    c: char,
    suffix: Seq<char>,
    i: int,
)
    requires
        0 <= i <= prefix.len(),
        first_error_from(prefix, i) is None,
        !is_token(c),
    ensures
        first_error_from(prefix + seq!['%', c] + suffix, i) == Some(TemplateError::UnknownToken(c)),
    decreases prefix.len() - i,
{
    let whole = prefix + seq!['%', c] + suffix;
    if i == prefix.len() {
        assert(whole[i] == '%');
        assert(whole[i + 1] == c);
    } else {
        assert(whole[i] == prefix[i]);
        if prefix[i] != '%' {
            lemma_error_after(prefix, c, suffix, i + 1);
        } else {
            assert(whole[i + 1] == prefix[i + 1]);
            lemma_error_after(prefix, c, suffix, i + 2);
        }
    }
}

/// One unknown token makes the whole template fail with that token's
/// error, whatever well-formed text stands before it and whatever follows
/// it: nothing is rendered from any part of such a template.
pub proof fn lemma_unknown_token_fails(prefix: Seq<char>, c: char, suffix: Seq<char>)
    requires
        first_error(prefix) is None,
        !is_token(c),
    ensures
        first_error(prefix + seq!['%', c] + suffix) == Some(TemplateError::UnknownToken(c)),
{
    lemma_error_after(prefix, c, suffix, 0);
}

/// The characters of styled characters, without their styles.
pub open spec fn visible(g: Seq<Glyph>) -> Seq<char> {
    g.map_values(|x: Glyph| x.0)
}

/// The words `ws` joined by single spaces, with one more space in front
/// unless `first` holds.
pub open spec fn joined(ws: Seq<Seq<char>>, first: bool) -> Seq<char>
    decreases ws.len(),
{
    if ws.len() == 0 {
        Seq::empty()
    } else if first {
        ws[0] + joined(ws.skip(1), false)
    } else {
        seq![' '] + ws[0] + joined(ws.skip(1), false)
    }
}

/// A run of styled characters up to white space is as long as the word of
/// their characters.
pub proof fn lemma_run_is_word(g: Seq<Glyph>, i: int)
    requires
        0 <= i <= g.len(),
    ensures
        run_len(g, i) == word_len(visible(g), i),
        i + run_len(g, i) <= g.len(),
    decreases g.len() - i,
{
    if i < g.len() && !is_space(g[i].0) {
        lemma_run_is_word(g, i + 1);
    }
}

/// Trimming works on the text that is seen: from any position on, the
/// characters of the trimmed output are the words of the characters of
/// the input, joined by single spaces.
pub proof fn lemma_squeeze_from_joins_words(g: Seq<Glyph>, i: int, first: bool)
    requires
        0 <= i <= g.len(),
    ensures
        visible(squeeze_from(g, i, first)) == joined(words_from(visible(g), i), first),
    decreases g.len() - i,
{
    let v = visible(g);
    if i >= g.len() {
        assert(visible(squeeze_from(g, i, first)) =~= Seq::<char>::empty());
    } else if is_space(g[i].0) {
        lemma_squeeze_from_joins_words(g, i + 1, first);
    } else {
        lemma_run_is_word(g, i);
        let e = i + run_len(g, i);
        let word = g.subrange(i, e);
        let w = v.subrange(i, e);
        assert(visible(word) =~= w);
        let rest_g = if e < g.len() {
            squeeze_from(g, e, false)
        } else {
            Seq::<Glyph>::empty()
        };
        let rest_w = if e < g.len() {
            words_from(v, e)
        } else {
            Seq::<Seq<char>>::empty()
        };
        if e < g.len() {
            lemma_squeeze_from_joins_words(g, e, false);
        } else {
            assert(visible(rest_g) =~= Seq::<char>::empty());
        }
        assert(visible(rest_g) == joined(rest_w, false));
        assert(words_from(v, i) =~= seq![w] + rest_w);
        assert((seq![w] + rest_w).skip(1) =~= rest_w);
        assert((seq![w] + rest_w)[0] == w);
        if first {
            assert(squeeze_from(g, i, first) =~= word + rest_g);
            assert(visible(word + rest_g) =~= w + visible(rest_g));
        } else {
            assert(squeeze_from(g, i, first) =~= seq![gap()] + word + rest_g);
            assert(visible(seq![gap()] + word + rest_g) =~= seq![' '] + w + visible(rest_g));
        }
    }
}

/// Trimmed output reads as the words of the untrimmed output joined by
/// single spaces: no white space at either end, and one space for every
/// run of white space between two words.
pub proof fn lemma_squeeze_joins_words(g: Seq<Glyph>)
    ensures
        visible(squeeze(g)) == joined(words(visible(g)), true),
{
    lemma_squeeze_from_joins_words(g, 0, true);
}

/// Styled characters without white space are one word, which trimming
/// leaves as it is.
pub proof fn lemma_squeeze_keeps_word(g: Seq<Glyph>)
    requires
        forall|k: int| 0 <= k < g.len() ==> !is_space(#[trigger] g[k].0),
    ensures
        squeeze(g) == g,
{
    if g.len() > 0 {
        lemma_run_to_end(g, 0);
        assert(g.subrange(0, g.len() as int) =~= g);
    } else {
        assert(squeeze(g) =~= g);
    }
}

/// Where no white space follows, a run reaches the end.
pub proof fn lemma_run_to_end(g: Seq<Glyph>, i: int)
    requires
        0 <= i <= g.len(),
        forall|k: int| 0 <= k < g.len() ==> !is_space(#[trigger] g[k].0),
    ensures
        i + run_len(g, i) == g.len(),
    decreases g.len() - i,
{
    if i < g.len() {
        lemma_run_to_end(g, i + 1);
    }
}

/// A template without a percent sign is well formed and renders to its
/// own text as one plain piece; the empty template renders to nothing.
/// Under trimming this holds of the templates without white space: of any
/// other, trimming takes white space away.
pub proof fn lemma_literal_template(r: Status, t: Seq<char>, mode: RenderMode)
    requires
        forall|k: int| 0 <= k < t.len() ==> t[k] != '%',
        mode.trim_output ==> forall|k: int| 0 <= k < t.len() ==> !is_space(#[trigger] t[k]),
    ensures
        first_error(t) is None,
        rendering(r, t, mode) == if t.len() == 0 {
            Seq::<Piece>::empty()
        } else {
            seq![Piece { text: t, style: StyleName::Plain }]
        },
{
    lemma_expand_literal(r, t, 0, mode.indicators_only);
    assert(t.skip(0) =~= t);
    let g = styled(t, StyleName::Plain);
    if mode.trim_output {
        assert forall|k: int| 0 <= k < g.len() implies !is_space(#[trigger] g[k].0) by {
            assert(g[k].0 == t[k]);
        }
        lemma_squeeze_keeps_word(g);
    }
    if t.len() > 0 {
        lemma_runs_one_style(t, StyleName::Plain);
    } else {
        assert(g =~= Seq::<Glyph>::empty());
    }
}

} // verus!
