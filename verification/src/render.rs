//! The renderer: turns a status record into styled fragments under a
//! format template.

use vstd::prelude::*;
use crate::number::{decimal, push_decimal};
use crate::record::{AreaCounter, Status, StatusRecord};
use crate::style::StyleName;
use crate::template::{first_error, first_error_from, is_token, validate_chars, TemplateError};
use crate::text::{chars_of, is_space, is_text, is_whitespace, string_of};

verus! {

/// Marks commits ahead of the upstream.
pub const AHEAD_GLYPH: char = '\u{21e1}';

/// Marks commits behind the upstream.
pub const BEHIND_GLYPH: char = '\u{21e3}';

/// Stands for the branch.
pub const BRANCH_GLYPH: char = '\u{e0a0}';

/// Marks changes in an area.
pub const MODIFIED_GLYPH: char = '\u{394}';

/// Marks stash entries.
pub const STASH_GLYPH: char = '$';

/// Marks unmerged files.
pub const UNMERGED_GLYPH: char = '\u{203c}';

/// Marks untracked files.
pub const UNTRACKED_GLYPH: char = '\u{2026}';

/// The number of characters of a commit id that are shown.
pub const COMMIT_LEN: usize = 7;

/// How to render: with counts or with indicators alone, and with white
/// space collapsed or as it stands.
#[derive(Clone, Copy, Debug, PartialEq, Eq, Structural)]
pub struct RenderMode {
    pub indicators_only: bool,
    pub trim_output: bool,
}

/// One character with the name of its style.
pub type Glyph = (char, StyleName);

/// A run of text in one style.
#[derive(Debug, PartialEq, Eq)]
pub struct Fragment {
    pub text: String,
    pub style: StyleName,
}

/// A `Fragment` as a sequence of characters and a style name.
pub struct Piece {
    pub text: Seq<char>,
    pub style: StyleName,
}

impl View for Fragment {
    type V = Piece;

    open spec fn view(&self) -> Piece {
        Piece { text: self.text@, style: self.style }
    }
}

/// The pieces that a vector of fragments holds.
pub open spec fn pieces(v: Seq<Fragment>) -> Seq<Piece> {
    v.map_values(|f: Fragment| f@)
}

/// The characters of `s`, each in the style `style`.
pub open spec fn styled(s: Seq<char>, style: StyleName) -> Seq<Glyph> {
    s.map_values(|c: char| (c, style))
}

/// The text of a count: its decimal digits, or nothing where only
/// indicators are shown.
pub open spec fn number(n: nat, indicators_only: bool) -> Seq<char> {
    if indicators_only {
        Seq::empty()
    } else {
        decimal(n)
    }
}

/// A glyph with the count that it marks; nothing where the count is zero.
pub open spec fn counted(glyph: char, n: nat, indicators_only: bool) -> Seq<char> {
    if n > 0 {
        seq![glyph] + number(n, indicators_only)
    } else {
        Seq::empty()
    }
}

/// The commits ahead, then the commits behind.
pub open spec fn ahead_behind_text(r: Status, indicators_only: bool) -> Seq<char> {
    counted(AHEAD_GLYPH, r.ahead, indicators_only) + counted(
        BEHIND_GLYPH,
        r.behind,
        indicators_only,
    )
}

/// A commit id cut to its first `len` characters; the mark of a repository
/// without commits stays whole.
pub open spec fn commit_text(c: Seq<char>, len: nat) -> Seq<char> {
    if c == "(initial)"@ || c.len() <= len {
        c
    } else {
        c.take(len as int)
    }
}

/// The commit of a status as it is shown; nothing where it is unknown.
pub open spec fn shown_commit(commit: Option<Seq<char>>, len: nat) -> Seq<char> {
    match commit {
        Some(id) => commit_text(id, len),
        None => Seq::empty(),
    }
}

/// The inserted and deleted lines of the unstaged changes: always as
/// numbers, never where only indicators are shown, and nothing where the
/// unstaged area is clean. The deletions follow only where there are any.
pub open spec fn diff_text(r: Status, indicators_only: bool) -> Seq<char> {
    if r.unstaged.total() != 0 && !indicators_only {
        seq!['+'] + decimal(r.insertions) + if r.deletions > 0 {
            seq!['/', '-'] + decimal(r.deletions)
        } else {
            Seq::empty()
        }
    } else {
        Seq::empty()
    }
}

/// A name that may be missing: its text, or nothing.
pub open spec fn name_text(name: Option<Seq<char>>) -> Seq<char> {
    match name {
        Some(s) => s,
        None => Seq::empty(),
    }
}

/// What the token of a percent sign and `c` stands for in the status `r`.
pub open spec fn token_text(r: Status, c: char, indicators_only: bool) -> Seq<char> {
    if c == 'g' {
        seq![BRANCH_GLYPH]
    } else if c == 'n' {
        "git"@
    } else if c == 'b' {
        name_text(r.branch)
    } else if c == 'r' {
        name_text(r.upstream)
    } else if c == 'a' {
        ahead_behind_text(r, indicators_only)
    } else if c == 'c' {
        shown_commit(r.commit, COMMIT_LEN as nat)
    } else if c == 'm' {
        counted(MODIFIED_GLYPH, r.unstaged.total(), indicators_only)
    } else if c == 's' {
        counted(MODIFIED_GLYPH, r.staged.total(), indicators_only)
    } else if c == 'u' {
        counted(UNTRACKED_GLYPH, r.untracked, indicators_only)
    } else if c == 'U' {
        counted(UNMERGED_GLYPH, r.unmerged, indicators_only)
    } else if c == 't' {
        counted(STASH_GLYPH, r.stashed, indicators_only)
    } else if c == 'd' {
        diff_text(r, indicators_only)
    } else if c == '%' {
        seq!['%']
    } else {
        Seq::empty()
    }
}

/// The style of what the token of a percent sign and `c` stands for.
pub open spec fn token_style(c: char) -> StyleName {
    if c == 'g' {
        StyleName::BranchGlyph
    } else if c == 'b' {
        StyleName::Branch
    } else if c == 'r' {
        StyleName::Upstream
    } else if c == 'a' {
        StyleName::AheadBehind
    } else if c == 'c' {
        StyleName::Commit
    } else if c == 'm' {
        StyleName::ModifiedUnstaged
    } else if c == 's' {
        StyleName::ModifiedStaged
    } else if c == 'u' {
        StyleName::Untracked
    } else if c == 'U' {
        StyleName::Unmerged
    } else if c == 't' {
        StyleName::Stash
    } else if c == 'd' {
        StyleName::Diff
    } else {
        StyleName::Plain
    }
}

/// The styled characters that the template `t` stands for from position
/// `i` on: each token replaced by what it stands for, each other character
/// kept in the plain style.
pub open spec fn expand_from(r: Status, t: Seq<char>, i: int, indicators_only: bool) -> Seq<Glyph>
    decreases t.len() - i,
{
    if i < 0 || i >= t.len() {
        Seq::empty()
    } else if t[i] != '%' {
        seq![(t[i], StyleName::Plain)] + expand_from(r, t, i + 1, indicators_only)
    } else if i + 1 >= t.len() {
        Seq::empty()
    } else {
        styled(token_text(r, t[i + 1], indicators_only), token_style(t[i + 1])) + expand_from(
            r,
            t,
            i + 2,
            indicators_only,
        )
    }
}

/// The styled characters that the template `t` stands for.
pub open spec fn expand(r: Status, t: Seq<char>, indicators_only: bool) -> Seq<Glyph> {
    expand_from(r, t, 0, indicators_only)
}

/// Appends the characters of `text` to `out`, each in the style `style`.
pub fn push_styled(out: &mut Vec<Glyph>, text: &Vec<char>, style: StyleName)
    ensures
        final(out)@ == old(out)@ + styled(text@, style),
{
    let mut i: usize = 0;
    assert(styled(text@.take(0), style) =~= Seq::<Glyph>::empty());
    assert(out@ =~= old(out)@ + styled(text@.take(0), style));
    while i < text.len()
        invariant
            i <= text.len(),
            out@ == old(out)@ + styled(text@.take(i as int), style),
        decreases text.len() - i,
    {
        out.push((text[i], style));
        assert(styled(text@.take(i + 1), style) =~= styled(text@.take(i as int), style).push(
            (text@[i as int], style),
        ));
        assert(out@ =~= old(out)@ + styled(text@.take(i + 1), style));
        i += 1;
    }
    assert(text@.take(text.len() as int) =~= text@);
}

/// Appends a glyph and the count that it marks to `out`; nothing where the
/// count is zero.
pub fn push_counted(out: &mut Vec<char>, glyph: char, n: u128, indicators_only: bool)
    ensures
        final(out)@ == old(out)@ + counted(glyph, n as nat, indicators_only),
{
    if n > 0 {
        out.push(glyph);
        if !indicators_only {
            push_decimal(out, n);
        }
        assert(out@ =~= old(out)@ + counted(glyph, n as nat, indicators_only));
    } else {
        assert(out@ =~= old(out)@ + counted(glyph, n as nat, indicators_only));
    }
}

impl AreaCounter {
    /// Appends the mark of this area's changes to `out`: the glyph and the
    /// number of changes, or nothing where the area is clean.
    pub fn fmt_modified(&self, out: &mut Vec<Glyph>, style: StyleName, indicators_only: bool)
        ensures
            final(out)@ == old(out)@ + styled(
                counted(MODIFIED_GLYPH, self@.total(), indicators_only),
                style,
            ),
    {
        let mut text: Vec<char> = Vec::new();
        push_counted(&mut text, MODIFIED_GLYPH, self.total(), indicators_only);
        assert(text@ =~= counted(MODIFIED_GLYPH, self@.total(), indicators_only));
        push_styled(out, &text, style);
    }
}

/// Appends a name to `out`; nothing where it is missing.
fn push_name(out: &mut Vec<Glyph>, name: &Option<String>, style: StyleName)
    ensures
        final(out)@ == old(out)@ + styled(name_text(crate::record::opt_text(*name)), style),
{
    match name {
        Some(s) => {
            let text = chars_of(s.as_str());
            push_styled(out, &text, style);
        },
        None => {
            assert(out@ =~= old(out)@ + styled(Seq::<char>::empty(), style));
        },
    }
}

/// Appends a glyph and the count that it marks to `out`, in the style
/// `style`.
fn push_mark(out: &mut Vec<Glyph>, glyph: char, n: u64, style: StyleName, indicators_only: bool)
    ensures
        final(out)@ == old(out)@ + styled(counted(glyph, n as nat, indicators_only), style),
{
    let mut text: Vec<char> = Vec::new();
    push_counted(&mut text, glyph, n as u128, indicators_only);
    assert(text@ =~= counted(glyph, n as nat, indicators_only));
    push_styled(out, &text, style);
}

impl StatusRecord {
    /// Appends the branch to `out`.
    pub fn fmt_branch(&self, out: &mut Vec<Glyph>, style: StyleName)
        ensures
            final(out)@ == old(out)@ + styled(name_text(self@.branch), style),
    {
        push_name(out, &self.branch, style);
    }

    /// Appends the branch glyph to `out`.
    pub fn fmt_branch_glyph(&self, out: &mut Vec<Glyph>, style: StyleName)
        ensures
            final(out)@ == old(out)@ + styled(seq![BRANCH_GLYPH], style),
    {
        out.push((BRANCH_GLYPH, style));
        assert(out@ =~= old(out)@ + styled(seq![BRANCH_GLYPH], style));
    }

    /// Appends the upstream to `out`.
    pub fn fmt_upstream(&self, out: &mut Vec<Glyph>, style: StyleName)
        ensures
            final(out)@ == old(out)@ + styled(name_text(self@.upstream), style),
    {
        push_name(out, &self.upstream, style);
    }

    /// Appends the commit to `out`, cut to `len` characters.
    pub fn fmt_commit(&self, out: &mut Vec<Glyph>, style: StyleName, len: usize)
        ensures
            final(out)@ == old(out)@ + styled(shown_commit(self@.commit, len as nat), style),
    {
        match &self.commit {
            Some(commit) => {
                let id = chars_of(commit.as_str());
                if is_text(&id, "(initial)") || id.len() <= len {
                    push_styled(out, &id, style);
                } else {
                    let short = crate::text::slice_of(&id, 0, len);
                    assert(short@ =~= id@.take(len as int));
                    push_styled(out, &short, style);
                }
            },
            None => {
                assert(out@ =~= old(out)@ + styled(Seq::<char>::empty(), style));
            },
        }
    }

    /// Appends the commits ahead of and behind the upstream to `out`.
    pub fn fmt_ahead_behind(&self, out: &mut Vec<Glyph>, style: StyleName, indicators_only: bool)
        ensures
            final(out)@ == old(out)@ + styled(ahead_behind_text(self@, indicators_only), style),
    {
        let mut text: Vec<char> = Vec::new();
        push_counted(&mut text, AHEAD_GLYPH, self.ahead as u128, indicators_only);
        push_counted(&mut text, BEHIND_GLYPH, self.behind as u128, indicators_only);
        assert(text@ =~= ahead_behind_text(self@, indicators_only));
        push_styled(out, &text, style);
    }

    /// Appends the inserted and deleted lines of the unstaged changes to
    /// `out`.
    pub fn fmt_diff_numstat(&self, out: &mut Vec<Glyph>, style: StyleName, indicators_only: bool)
        ensures
            final(out)@ == old(out)@ + styled(diff_text(self@, indicators_only), style),
    {
        let mut text: Vec<char> = Vec::new();
        if self.unstaged.has_changed() && !indicators_only {
            text.push('+');
            push_decimal(&mut text, self.insertions);
            if self.deletions > 0 {
                text.push('/');
                text.push('-');
                push_decimal(&mut text, self.deletions);
            }
        }
        assert(text@ =~= diff_text(self@, indicators_only));
        push_styled(out, &text, style);
    }

    /// Appends the mark of the stash entries to `out`.
    pub fn fmt_stash(&self, out: &mut Vec<Glyph>, style: StyleName, indicators_only: bool)
        ensures
            final(out)@ == old(out)@ + styled(
                counted(STASH_GLYPH, self@.stashed, indicators_only),
                style,
            ),
    {
        push_mark(out, STASH_GLYPH, self.stashed, style, indicators_only);
    }

    /// Appends the mark of the untracked files to `out`.
    pub fn fmt_untracked(&self, out: &mut Vec<Glyph>, style: StyleName, indicators_only: bool)
        ensures
            final(out)@ == old(out)@ + styled(
                counted(UNTRACKED_GLYPH, self@.untracked, indicators_only),
                style,
            ),
    {
        push_mark(out, UNTRACKED_GLYPH, self.untracked, style, indicators_only);
    }

    /// Appends the mark of the unmerged files to `out`.
    pub fn fmt_unmerged(&self, out: &mut Vec<Glyph>, style: StyleName, indicators_only: bool)
        ensures
            final(out)@ == old(out)@ + styled(
                counted(UNMERGED_GLYPH, self@.unmerged, indicators_only),
                style,
            ),
    {
        push_mark(out, UNMERGED_GLYPH, self.unmerged, style, indicators_only);
    }

    /// Appends what the token of a percent sign and `c` stands for to
    /// `out`. A character that names no token stands for nothing and is
    /// not taken.
    pub fn fmt_token(&self, out: &mut Vec<Glyph>, c: char, indicators_only: bool)
        requires
            is_token(c),
        ensures
            final(out)@ == old(out)@ + styled(
                token_text(self@, c, indicators_only),
                token_style(c),
            ),
    {
        if c == 'g' {
            self.fmt_branch_glyph(out, StyleName::BranchGlyph);
        } else if c == 'n' {
            let name = chars_of("git");
            push_styled(out, &name, StyleName::Plain);
        } else if c == 'b' {
            self.fmt_branch(out, StyleName::Branch);
        } else if c == 'r' {
            self.fmt_upstream(out, StyleName::Upstream);
        } else if c == 'a' {
            self.fmt_ahead_behind(out, StyleName::AheadBehind, indicators_only);
        } else if c == 'c' {
            self.fmt_commit(out, StyleName::Commit, COMMIT_LEN);
        } else if c == 'm' {
            self.unstaged.fmt_modified(out, StyleName::ModifiedUnstaged, indicators_only);
        } else if c == 's' {
            self.staged.fmt_modified(out, StyleName::ModifiedStaged, indicators_only);
        } else if c == 'u' {
            self.fmt_untracked(out, StyleName::Untracked, indicators_only);
        } else if c == 'U' {
            self.fmt_unmerged(out, StyleName::Unmerged, indicators_only);
        } else if c == 't' {
            self.fmt_stash(out, StyleName::Stash, indicators_only);
        } else if c == 'd' {
            self.fmt_diff_numstat(out, StyleName::Diff, indicators_only);
        } else {
            out.push(('%', StyleName::Plain));
            assert(out@ =~= old(out)@ + styled(seq!['%'], StyleName::Plain));
        }
    }

    /// The styled characters that the template `t` stands for: each token
    /// replaced by what it stands for in this record, each other character
    /// kept in the plain style. The template is validated as a whole
    /// first: where it is refused, its first error is all that comes back,
    /// and nothing of what stands before the error is rendered.
    pub fn print_output(&self, t: &Vec<char>, indicators_only: bool) -> (r: Result<
        Vec<Glyph>,
        TemplateError,
    >)
        ensures
            match r {
                Ok(out) => first_error(t@) is None && out@ == expand(self@, t@, indicators_only),
                Err(e) => first_error(t@) == Some(e),
            },
    {
        match validate_chars(t) {
            Err(e) => {
                return Err(e);
            },
            Ok(_) => {},
        }
        let n = t.len();
        let mut out: Vec<Glyph> = Vec::new();
        let mut i: usize = 0;
        assert(out@ + expand_from(self@, t@, 0, indicators_only) =~= expand(
            self@,
            t@,
            indicators_only,
        ));
        while i < n
            invariant
                n == t.len(),
                i <= n,
                first_error_from(t@, i as int) is None,
                expand(self@, t@, indicators_only) == out@ + expand_from(
                    self@,
                    t@,
                    i as int,
                    indicators_only,
                ),
            decreases n - i,
        {
            let ghost before = out@;
            if t[i] != '%' {
                out.push((t[i], StyleName::Plain));
                assert(out@ + expand_from(self@, t@, i + 1, indicators_only) =~= before
                    + expand_from(self@, t@, i as int, indicators_only));
                i += 1;
            } else {
                assert(i + 1 < n);
                self.fmt_token(&mut out, t[i + 1], indicators_only);
                assert(out@ + expand_from(self@, t@, i + 2, indicators_only) =~= before
                    + expand_from(self@, t@, i as int, indicators_only));
                i += 2;
            }
        }
        assert(out@ + expand_from(self@, t@, i as int, indicators_only) =~= out@);
        Ok(out)
    }
}

/// The number of styled characters from position `i` up to the next white
/// space, or to the end of `g` where none follows.
pub open spec fn run_len(g: Seq<Glyph>, i: int) -> nat
    decreases g.len() - i,
{
    if i < 0 || i >= g.len() || is_space(g[i].0) {
        0
    } else {
        1 + run_len(g, i + 1)
    }
}

/// The plain space that stands between two words of trimmed output.
pub open spec fn gap() -> Glyph {
    (' ', StyleName::Plain)
}

/// The words of `g` from position `i` on, each with its styles, with one
/// plain space before each word but the first of the whole.
pub open spec fn squeeze_from(g: Seq<Glyph>, i: int, first: bool) -> Seq<Glyph>
    decreases g.len() - i,
{
    if i < 0 || i >= g.len() {
        Seq::empty()
    } else if is_space(g[i].0) {
        squeeze_from(g, i + 1, first)
    } else {
        let e = i + run_len(g, i);
        let word = if first {
            g.subrange(i, e)
        } else {
            seq![gap()] + g.subrange(i, e)
        };
        if i < e < g.len() {
            word + squeeze_from(g, e, false)
        } else {
            word
        }
    }
}

/// Trimmed output: the words of `g`, each with its styles, joined by
/// single plain spaces. White space at either end is gone, and every run
/// of white space between two words has become one space.
pub open spec fn squeeze(g: Seq<Glyph>) -> Seq<Glyph> {
    squeeze_from(g, 0, true)
}

/// Collapses the white space of `g`.
pub fn trim_glyphs(g: &Vec<Glyph>) -> (out: Vec<Glyph>)
    ensures
        out@ == squeeze(g@),
{
    let n = g.len();
    let mut out: Vec<Glyph> = Vec::new();
    let mut first = true;
    let mut i: usize = 0;
    assert(out@ + squeeze_from(g@, 0, first) =~= squeeze(g@));
    while i < n
        invariant
            n == g.len(),
            i <= n,
            squeeze(g@) == out@ + squeeze_from(g@, i as int, first),
        decreases n - i,
    {
        if is_whitespace(g[i].0) {
            i += 1;
        } else {
            let ghost before = out@;
            if !first {
                out.push((' ', StyleName::Plain));
            }
            let mut e: usize = i;
            while e < n && !is_whitespace(g[e].0)
                invariant
                    n == g.len(),
                    i <= e <= n,
                    run_len(g@, i as int) == (e - i) + run_len(g@, e as int),
                    out@ == if first {
                        before
                    } else {
                        before.push(gap())
                    } + g@.subrange(i as int, e as int),
                decreases n - e,
            {
                out.push(g[e]);
                assert(g@.subrange(i as int, e + 1) =~= g@.subrange(i as int, e as int).push(
                    g@[e as int],
                ));
                e += 1;
            }
            proof {
                assert(e == i + run_len(g@, i as int));
                assert(run_len(g@, i as int) > 0);
                assert(squeeze_from(g@, e as int, false) =~= if e < n {
                    squeeze_from(g@, e as int, false)
                } else {
                    Seq::empty()
                });
                assert(out@ + squeeze_from(g@, e as int, false) =~= before + squeeze_from(
                    g@,
                    i as int,
                    first,
                ));
            }
            first = false;
            i = e;
        }
    }
    assert(out@ + squeeze_from(g@, i as int, first) =~= out@);
    out
}

/// The styled characters of `g` gathered into pieces: each piece is a
/// maximal run of neighbours in one style.
pub open spec fn runs(g: Seq<Glyph>) -> Seq<Piece>
    decreases g.len(),
{
    if g.len() == 0 {
        Seq::empty()
    } else {
        let before = runs(g.drop_last());
        let c = g.last().0;
        let style = g.last().1;
        if before.len() > 0 && before.last().style == style {
            before.drop_last().push(Piece { text: before.last().text.push(c), style: style })
        } else {
            before.push(Piece { text: seq![c], style: style })
        }
    }
}

/// Gathers styled characters into fragments, one for each maximal run of
/// neighbours in one style.
pub fn gather(g: &Vec<Glyph>) -> (out: Vec<Fragment>)
    ensures
        pieces(out@) == runs(g@),
{
    let n = g.len();
    let mut out: Vec<Fragment> = Vec::new();
    if n == 0 {
        assert(pieces(out@) =~= runs(g@));
        return out;
    }
    let mut text: Vec<char> = Vec::new();
    text.push(g[0].0);
    let mut style = g[0].1;
    let mut i: usize = 1;
    proof {
        assert(g@.take(1).drop_last() =~= Seq::<Glyph>::empty());
        assert(runs(g@.take(1).drop_last()) =~= Seq::<Piece>::empty());
        assert(g@.take(1).last() == g@[0]);
        assert(text@ =~= seq![g@[0].0]);
        assert(pieces(out@) =~= Seq::<Piece>::empty());
        assert(runs(g@.take(1)) =~= pieces(out@).push(Piece { text: text@, style: style }));
    }
    while i < n
        invariant
            n == g.len(),
            1 <= i <= n,
            runs(g@.take(i as int)) == pieces(out@).push(Piece { text: text@, style: style }),
        decreases n - i,
    {
        let c = g[i].0;
        let next = g[i].1;
        proof {
            assert(g@.take(i + 1).drop_last() =~= g@.take(i as int));
            assert(g@.take(i + 1).last() == g@[i as int]);
        }
        if next == style {
            text.push(c);
            proof {
                let before = runs(g@.take(i as int));
                assert(before.drop_last() =~= pieces(out@));
                assert(runs(g@.take(i + 1)) =~= pieces(out@).push(
                    Piece { text: text@, style: style },
                ));
            }
        } else {
            let done = Fragment { text: string_of(&text), style: style };
            proof {
                assert(pieces(out@.push(done)) =~= pieces(out@).push(done@));
            }
            out.push(done);
            text = Vec::new();
            text.push(c);
            style = next;
            proof {
                assert(text@ =~= seq![c]);
            }
        }
        i += 1;
    }
    let last = Fragment { text: string_of(&text), style: style };
    proof {
        assert(g@.take(n as int) =~= g@);
        assert(pieces(out@.push(last)) =~= pieces(out@).push(last@));
    }
    out.push(last);
    out
}

/// The pieces that the template `t` renders to for the status `r`: its
/// styled characters, with white space collapsed where the mode asks for
/// it, gathered into runs of one style.
pub open spec fn rendering(r: Status, t: Seq<char>, mode: RenderMode) -> Seq<Piece> {
    let g = expand(r, t, mode.indicators_only);
    runs(
        if mode.trim_output {
            squeeze(g)
        } else {
            g
        },
    )
}

/// Renders `record` under `template`. The template is validated as a whole
/// first: where it is refused, nothing is rendered.
pub fn render(record: &StatusRecord, template: &str, mode: RenderMode) -> (r: Result<
    Vec<Fragment>,
    TemplateError,
>)
    ensures
        match r {
            Ok(fragments) => first_error(template@) is None && pieces(fragments@) == rendering(
                record@,
                template@,
                mode,
            ),
            Err(e) => first_error(template@) == Some(e),
        },
{
    let t = chars_of(template);
    match record.print_output(&t, mode.indicators_only) {
        Err(e) => Err(e),
        Ok(g) => {
            if mode.trim_output {
                let trimmed = trim_glyphs(&g);
                Ok(gather(&trimmed))
            } else {
                Ok(gather(&g))
            }
        },
    }
}

} // verus!
