//! The format template: literal characters and two-character tokens of a
//! percent sign and a letter. A template is validated as a whole before
//! anything is rendered from it.

use vstd::prelude::*;
use vstd::string::StringExecFns;
use crate::text::chars_of;

verus! {

/// Help on the tokens of a format template.
pub const FORMAT_STRING_USAGE: &'static str = "\
Tokenized string may contain:
------------------------------
%g  branch glyph (\u{e0a0})
%n  VC name
%b  branch
%r  upstream
%a  commits ahead/behind remote
%c  current commit hash
%m  unstaged changes (modified/added/removed)
%s  staged changes (modified/added/removed)
%u  untracked files
%U  unmerged files (merge in progress)
%d  diff lines, ex: \"+20/-10\"
%t  stashed files indicator
------------------------------
";

/// Why a template is refused.
#[derive(Clone, Copy, Debug, PartialEq, Eq, Structural)]
pub enum TemplateError {
    /// A percent sign is followed by a character that names no token.
    UnknownToken(char),
    /// The template ends in a percent sign that begins no token.
    DanglingPercent,
}

/// What a template asks to be shown, one flag for each token that stands
/// for a part of the status.
#[derive(Clone, Copy, Debug, PartialEq, Eq, Structural)]
pub struct Opt {
    pub show_ahead_behind: bool,
    pub show_branch: bool,
    pub show_branch_glyph: bool,
    pub show_commit: bool,
    pub show_diff: bool,
    pub show_upstream: bool,
    pub show_stashed: bool,
    pub show_staged_modified: bool,
    pub show_unstaged_modified: bool,
    pub show_untracked: bool,
    pub show_unmerged: bool,
    pub show_vcs: bool,
}

/// Whether a percent sign followed by `c` is a token.
pub open spec fn is_token(c: char) -> bool {
    c == 'a' || c == 'b' || c == 'c' || c == 'd' || c == 'g' || c == 'm' || c == 'n' || c == 'r'
        || c == 's' || c == 't' || c == 'u' || c == 'U' || c == '%'
}

/// The first error of the template `t` from position `i` on, reading
/// tokens from left to right; none where it is well formed.
pub open spec fn first_error_from(t: Seq<char>, i: int) -> Option<TemplateError>
    decreases t.len() - i,
{
    if i < 0 || i >= t.len() {
        None
    } else if t[i] != '%' {
        first_error_from(t, i + 1)
    } else if i + 1 >= t.len() {
        Some(TemplateError::DanglingPercent)
    } else if is_token(t[i + 1]) {
        first_error_from(t, i + 2)
    } else {
        Some(TemplateError::UnknownToken(t[i + 1]))
    }
}

/// The first error of the template `t`; none where it is well formed.
pub open spec fn first_error(t: Seq<char>) -> Option<TemplateError> {
    first_error_from(t, 0)
}

/// Whether the token of a percent sign and `c` occurs in `t` from position
/// `i` on, reading tokens from left to right.
pub open spec fn uses_from(t: Seq<char>, i: int, c: char) -> bool
    decreases t.len() - i,
{
    if i < 0 || i >= t.len() {
        false
    } else if t[i] != '%' {
        uses_from(t, i + 1, c)
    } else if i + 1 >= t.len() {
        false
    } else {
        t[i + 1] == c || uses_from(t, i + 2, c)
    }
}

/// Whether the token of a percent sign and `c` occurs in `t`.
pub open spec fn uses(t: Seq<char>, c: char) -> bool {
    uses_from(t, 0, c)
}

/// What the template `t` asks to be shown.
pub open spec fn options_of(t: Seq<char>) -> Opt {
    Opt {
        show_ahead_behind: uses(t, 'a'),
        show_branch: uses(t, 'b'),
        show_branch_glyph: uses(t, 'g'),
        show_commit: uses(t, 'c'),
        show_diff: uses(t, 'd'),
        show_upstream: uses(t, 'r'),
        show_stashed: uses(t, 't'),
        show_staged_modified: uses(t, 's'),
        show_unstaged_modified: uses(t, 'm'),
        show_untracked: uses(t, 'u'),
        show_unmerged: uses(t, 'U'),
        show_vcs: uses(t, 'n'),
    }
}

impl Opt {
    /// The options that ask for nothing.
    pub open spec fn nothing() -> Opt {
        Opt {
            show_ahead_behind: false,
            show_branch: false,
            show_branch_glyph: false,
            show_commit: false,
            show_diff: false,
            show_upstream: false,
            show_stashed: false,
            show_staged_modified: false,
            show_unstaged_modified: false,
            show_untracked: false,
            show_unmerged: false,
            show_vcs: false,
        }
    }

    /// These options with the flag set that the token of a percent sign
    /// and `c` stands for; unchanged for a character that sets none.
    pub open spec fn with(self, c: char) -> Opt {
        if c == 'a' {
            Opt { show_ahead_behind: true, ..self }
        } else if c == 'b' {
            Opt { show_branch: true, ..self }
        } else if c == 'g' {
            Opt { show_branch_glyph: true, ..self }
        } else if c == 'c' {
            Opt { show_commit: true, ..self }
        } else if c == 'd' {
            Opt { show_diff: true, ..self }
        } else if c == 'r' {
            Opt { show_upstream: true, ..self }
        } else if c == 't' {
            Opt { show_stashed: true, ..self }
        } else if c == 's' {
            Opt { show_staged_modified: true, ..self }
        } else if c == 'm' {
            Opt { show_unstaged_modified: true, ..self }
        } else if c == 'u' {
            Opt { show_untracked: true, ..self }
        } else if c == 'U' {
            Opt { show_unmerged: true, ..self }
        } else if c == 'n' {
            Opt { show_vcs: true, ..self }
        } else {
            self
        }
    }

    /// The options that ask for nothing.
    pub fn new() -> (r: Opt)
        ensures
            r == Opt::nothing(),
    {
        Opt {
            show_ahead_behind: false,
            show_branch: false,
            show_branch_glyph: false,
            show_commit: false,
            show_diff: false,
            show_upstream: false,
            show_stashed: false,
            show_staged_modified: false,
            show_unstaged_modified: false,
            show_untracked: false,
            show_unmerged: false,
            show_vcs: false,
        }
    }

    /// These options with the flag set that the token of a percent sign
    /// and `c` stands for.
    pub fn note(self, c: char) -> (r: Opt)
        ensures
            r == self.with(c),
    {
        if c == 'a' {
            Opt { show_ahead_behind: true, ..self }
        } else if c == 'b' {
            Opt { show_branch: true, ..self }
        } else if c == 'g' {
            Opt { show_branch_glyph: true, ..self }
        } else if c == 'c' {
            Opt { show_commit: true, ..self }
        } else if c == 'd' {
            Opt { show_diff: true, ..self }
        } else if c == 'r' {
            Opt { show_upstream: true, ..self }
        } else if c == 't' {
            Opt { show_stashed: true, ..self }
        } else if c == 's' {
            Opt { show_staged_modified: true, ..self }
        } else if c == 'm' {
            Opt { show_unstaged_modified: true, ..self }
        } else if c == 'u' {
            Opt { show_untracked: true, ..self }
        } else if c == 'U' {
            Opt { show_unmerged: true, ..self }
        } else if c == 'n' {
            Opt { show_vcs: true, ..self }
        } else {
            self
        }
    }
}

/// Whether `flag` says of the token of a percent sign and `c` what is
/// still missing once `t` has been read up to position `i`.
pub open spec fn tracks(t: Seq<char>, i: int, flag: bool, c: char) -> bool {
    uses(t, c) == (flag || uses_from(t, i, c))
}

/// Whether the options `o` hold every token of `t` before position `i`.
pub open spec fn tracks_all(t: Seq<char>, i: int, o: Opt) -> bool {
    &&& tracks(t, i, o.show_ahead_behind, 'a')
    &&& tracks(t, i, o.show_branch, 'b')
    &&& tracks(t, i, o.show_branch_glyph, 'g')
    &&& tracks(t, i, o.show_commit, 'c')
    &&& tracks(t, i, o.show_diff, 'd')
    &&& tracks(t, i, o.show_upstream, 'r')
    &&& tracks(t, i, o.show_stashed, 't')
    &&& tracks(t, i, o.show_staged_modified, 's')
    &&& tracks(t, i, o.show_unstaged_modified, 'm')
    &&& tracks(t, i, o.show_untracked, 'u')
    &&& tracks(t, i, o.show_unmerged, 'U')
    &&& tracks(t, i, o.show_vcs, 'n')
}

/// Whether a percent sign followed by `c` is a token.
pub fn is_format_token(c: char) -> (r: bool)
    ensures
        r == is_token(c),
{
    c == 'a' || c == 'b' || c == 'c' || c == 'd' || c == 'g' || c == 'm' || c == 'n' || c == 'r'
        || c == 's' || c == 't' || c == 'u' || c == 'U' || c == '%'
}

/// Reading past a literal character leaves what a flag tracks as it was.
pub proof fn lemma_tracks_literal(t: Seq<char>, i: int, flag: bool, x: char)
    requires
        0 <= i < t.len(),
        t[i] != '%',
        tracks(t, i, flag, x),
    ensures
        tracks(t, i + 1, flag, x),
{
}

/// Reading past the token of a percent sign and `c` is tracked by setting
/// the flag of `c`.
pub proof fn lemma_tracks_token(t: Seq<char>, i: int, flag: bool, x: char, c: char)
    requires
        0 <= i,
        i + 1 < t.len(),
        t[i] == '%',
        t[i + 1] == c,
        tracks(t, i, flag, x),
    ensures
        tracks(t, i + 2, flag || x == c, x),
{
}

/// Reading past a literal character leaves the options as they were.
pub proof fn lemma_tracks_all_literal(t: Seq<char>, i: int, o: Opt)
    requires
        0 <= i < t.len(),
        t[i] != '%',
        tracks_all(t, i, o),
    ensures
        tracks_all(t, i + 1, o),
{
    lemma_tracks_literal(t, i, o.show_ahead_behind, 'a');
    lemma_tracks_literal(t, i, o.show_branch, 'b');
    lemma_tracks_literal(t, i, o.show_branch_glyph, 'g');
    lemma_tracks_literal(t, i, o.show_commit, 'c');
    lemma_tracks_literal(t, i, o.show_diff, 'd');
    lemma_tracks_literal(t, i, o.show_upstream, 'r');
    lemma_tracks_literal(t, i, o.show_stashed, 't');
    lemma_tracks_literal(t, i, o.show_staged_modified, 's');
    lemma_tracks_literal(t, i, o.show_unstaged_modified, 'm');
    lemma_tracks_literal(t, i, o.show_untracked, 'u');
    lemma_tracks_literal(t, i, o.show_unmerged, 'U');
    lemma_tracks_literal(t, i, o.show_vcs, 'n');
}

/// Reading past a token is tracked by noting it in the options.
pub proof fn lemma_tracks_all_token(t: Seq<char>, i: int, o: Opt, c: char)
    requires
        0 <= i,
        i + 1 < t.len(),
        t[i] == '%',
        t[i + 1] == c,
        tracks_all(t, i, o),
    ensures
        tracks_all(t, i + 2, o.with(c)),
{
    lemma_tracks_token(t, i, o.show_ahead_behind, 'a', c);
    lemma_tracks_token(t, i, o.show_branch, 'b', c);
    lemma_tracks_token(t, i, o.show_branch_glyph, 'g', c);
    lemma_tracks_token(t, i, o.show_commit, 'c', c);
    lemma_tracks_token(t, i, o.show_diff, 'd', c);
    lemma_tracks_token(t, i, o.show_upstream, 'r', c);
    lemma_tracks_token(t, i, o.show_stashed, 't', c);
    lemma_tracks_token(t, i, o.show_staged_modified, 's', c);
    lemma_tracks_token(t, i, o.show_unstaged_modified, 'm', c);
    lemma_tracks_token(t, i, o.show_untracked, 'u', c);
    lemma_tracks_token(t, i, o.show_unmerged, 'U', c);
    lemma_tracks_token(t, i, o.show_vcs, 'n', c);
}

/// Validates a template given as characters.
pub fn validate_chars(t: &Vec<char>) -> (r: Result<Opt, TemplateError>)
    ensures
        match r {
            Ok(o) => first_error(t@) is None && o == options_of(t@),
            Err(e) => first_error(t@) == Some(e),
        },
{
    let n = t.len();
    let mut opts = Opt::new();
    let mut i: usize = 0;
    while i < n
        invariant
            n == t.len(),
            i <= n,
            first_error(t@) == first_error_from(t@, i as int),
            tracks_all(t@, i as int, opts),
        decreases n - i,
    {
        if t[i] != '%' {
            proof {
                lemma_tracks_all_literal(t@, i as int, opts);
            }
            i += 1;
        } else if i + 1 >= n {
            return Err(TemplateError::DanglingPercent);
        } else {
            let c = t[i + 1];
            if !is_format_token(c) {
                return Err(TemplateError::UnknownToken(c));
            }
            proof {
                lemma_tracks_all_token(t@, i as int, opts, c);
            }
            opts = opts.note(c);
            i += 2;
        }
    }
    Ok(opts)
}

/// Validates a template before anything is rendered from it: the options that
/// it asks for, or its first error.
pub fn validate(template: &str) -> (r: Result<Opt, TemplateError>)
    ensures
        match r {
            Ok(o) => first_error(template@) is None && o == options_of(template@),
            Err(e) => first_error(template@) == Some(e),
        },
{
    let t = chars_of(template);
    validate_chars(&t)
}

impl TemplateError {
    /// The text of the error's message up to the usage help.
    pub open spec fn headline(self) -> Seq<char> {
        match self {
            TemplateError::UnknownToken(c) => "invalid format string token \"%"@ + seq![c] + "\"\n"@,
            TemplateError::DanglingPercent => "invalid format string token \"%\"\n"@,
        }
    }

    /// The error's message: the offending token, then the usage help.
    pub fn message(&self) -> (r: String)
        ensures
            r@ == self.headline() + FORMAT_STRING_USAGE@,
    {
        match self {
            TemplateError::UnknownToken(c) => {
                let mut v = chars_of("invalid format string token \"%");
                v.push(*c);
                let mut s = crate::text::string_of(&v);
                s.append("\"\n");
                s.append(FORMAT_STRING_USAGE);
                assert(s@ =~= self.headline() + FORMAT_STRING_USAGE@);
                s
            },
            TemplateError::DanglingPercent => {
                let mut s = String::from_str("invalid format string token \"%\"\n");
                s.append(FORMAT_STRING_USAGE);
                s
            },
        }
    }
}

} // verus!
