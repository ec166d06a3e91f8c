//! The simple format: the branch in brackets, with a mark where the tree
//! is dirty. It reads the short status text, whose branch line begins with
//! two hash signs.

use vstd::prelude::*;
use crate::parser::{detached_name_of, opt_str};
use crate::render::{pieces, Fragment, Piece};
use crate::style::StyleName;
use crate::text::{
    chars_of, has_prefix, is_space, is_whitespace, lines, slice_of, split_lines, starts_with,
    string_of, texts,
};

verus! {

/// Whether a line of short status text is a branch line.
pub open spec fn is_branch_line(line: Seq<char>) -> bool {
    has_prefix(line, "##"@)
}

/// The number of branch lines that follow one another from position `i`
/// of the lines `ls`.
pub open spec fn branch_lines(ls: Seq<Seq<char>>, i: int) -> nat
    decreases ls.len() - i,
{
    if i < 0 || i >= ls.len() || !is_branch_line(ls[i]) {
        0
    } else {
        1 + branch_lines(ls, i + 1)
    }
}

/// A branch line past its marker: what follows its first three
/// characters.
pub open spec fn past_marker(line: Seq<char>) -> Seq<char> {
    if line.len() >= 3 {
        line.skip(3)
    } else {
        Seq::empty()
    }
}

/// Whether three dots stand at position `i` of `s`.
pub open spec fn dots_at(s: Seq<char>, i: int) -> bool {
    0 <= i && i + 2 < s.len() && s[i] == '.' && s[i + 1] == '.' && s[i + 2] == '.'
}

/// The number of characters from position `i` up to the next three dots,
/// or to the end of `s` where none follow.
pub open spec fn name_len(s: Seq<char>, i: int) -> nat
    decreases s.len() - i,
{
    if i < 0 || i >= s.len() || dots_at(s, i) {
        0
    } else {
        1 + name_len(s, i + 1)
    }
}

/// What stands before the first three dots of `s`; all of `s` where it
/// has none.
pub open spec fn before_dots(s: Seq<char>) -> Seq<char> {
    s.take(name_len(s, 0) as int)
}

/// The branch that short status lines name: what the last of the leading
/// branch lines holds between its marker and the three dots that set off
/// the upstream; nothing where the text begins with no branch line.
pub open spec fn simple_branch(ls: Seq<Seq<char>>) -> Seq<char> {
    let n = branch_lines(ls, 0);
    if n == 0 {
        Seq::empty()
    } else {
        before_dots(past_marker(ls[n - 1]))
    }
}

/// Whether short status lines tell of a dirty tree: a line follows the
/// leading branch lines.
pub open spec fn simple_dirty(ls: Seq<Seq<char>>) -> bool {
    branch_lines(ls, 0) < ls.len()
}

/// What the simple format shows of a working tree.
#[derive(Debug, PartialEq, Eq)]
pub struct SimpleStatus {
    /// The branch as the status text names it.
    pub branch: String,
    /// Whether anything has changed.
    pub dirty: bool,
}

/// The branch name shown in the simple format: where the status text
/// names `HEAD` in place of a branch, what the lookup of a tag found, or
/// `unknown` where it found nothing.
pub open spec fn shown_branch(branch: Seq<char>, lookup: Option<Seq<char>>) -> Seq<char> {
    if has_prefix(branch, "HEAD"@) {
        detached_name_of(lookup)
    } else {
        branch
    }
}

/// The pieces of the simple format: the branch in brackets in the branch
/// style, then a star in the dirty style where the tree is dirty.
pub open spec fn simple_pieces(branch: Seq<char>, dirty: bool, lookup: Option<Seq<char>>) -> Seq<
    Piece,
> {
    let name = Piece {
        text: seq!['('] + shown_branch(branch, lookup) + seq![')'],
        style: StyleName::Branch,
    };
    if dirty {
        seq![name, Piece { text: seq!['*'], style: StyleName::Dirty }]
    } else {
        seq![name]
    }
}

/// Whether three dots stand at position `i` of `s`.
fn dots_here(s: &Vec<char>, i: usize) -> (r: bool)
    requires
        i < s.len(),
    ensures
        r == dots_at(s@, i as int),
{
    s.len() - i > 2 && s[i] == '.' && s[i + 1] == '.' && s[i + 2] == '.'
}

/// What stands before the first three dots of `s`.
pub fn branch_name(s: &Vec<char>) -> (r: Vec<char>)
    ensures
        r@ == before_dots(s@),
{
    let n = s.len();
    let mut e: usize = 0;
    while e < n && !dots_here(s, e)
        invariant
            n == s.len(),
            e <= n,
            name_len(s@, 0) == e + name_len(s@, e as int),
        decreases n - e,
    {
        e += 1;
    }
    let r = slice_of(s, 0, e);
    assert(r@ =~= s@.take(e as int));
    r
}

/// Reads short status text: the branch that it names, and whether it
/// tells of a dirty tree.
pub fn simple_status(git_status: &str) -> (r: SimpleStatus)
    ensures
        r.branch@ == simple_branch(lines(git_status@)),
        r.dirty == simple_dirty(lines(git_status@)),
{
    let text = chars_of(git_status);
    let ls = split_lines(&text);
    let ghost all = lines(git_status@);
    let mut i: usize = 0;
    while i < ls.len() && starts_with(&ls[i], "##")
        invariant
            i <= ls.len(),
            all == texts(ls@),
            branch_lines(all, 0) == i + branch_lines(all, i as int),
        decreases ls.len() - i,
    {
        assert(all[i as int] == ls@[i as int]@);
        i += 1;
    }
    proof {
        if i < ls.len() {
            assert(all[i as int] == ls@[i as int]@);
        }
        assert(branch_lines(all, 0) == i);
    }
    let dirty = i < ls.len();
    if i == 0 {
        SimpleStatus { branch: String::new(), dirty }
    } else {
        let line = &ls[i - 1];
        assert(all[i - 1] == line@);
        let raw = if line.len() >= 3 {
            slice_of(line, 3, line.len())
        } else {
            Vec::new()
        };
        assert(raw@ =~= past_marker(line@));
        let name = branch_name(&raw);
        SimpleStatus { branch: string_of(&name), dirty }
    }
}

impl SimpleStatus {
    /// Whether the status text names `HEAD` in place of a branch, so that
    /// the name to show has to be looked up.
    pub fn is_detached(&self) -> (r: bool)
        ensures
            r == has_prefix(self.branch@, "HEAD"@),
    {
        let name = chars_of(self.branch.as_str());
        starts_with(&name, "HEAD")
    }

    /// The fragments of the simple format. `detached_name` is what the
    /// lookup of a tag found; it is used only where `is_detached` holds.
    pub fn fragments(&self, detached_name: Option<&str>) -> (out: Vec<Fragment>)
        ensures
            pieces(out@) == simple_pieces(self.branch@, self.dirty, opt_str(detached_name)),
    {
        let mut text: Vec<char> = Vec::new();
        text.push('(');
        let name = if self.is_detached() {
            match detached_name {
                Some(found) => chars_of(found),
                None => chars_of("unknown"),
            }
        } else {
            chars_of(self.branch.as_str())
        };
        let mut i: usize = 0;
        while i < name.len()
            invariant
                i <= name.len(),
                text@ == seq!['('] + name@.take(i as int),
            decreases name.len() - i,
        {
            text.push(name[i]);
            assert(seq!['('] + name@.take(i + 1) =~= (seq!['('] + name@.take(i as int)).push(
                name@[i as int],
            ));
            i += 1;
        }
        text.push(')');
        assert(name@.take(name.len() as int) =~= name@);
        assert(text@ =~= seq!['('] + shown_branch(self.branch@, opt_str(detached_name)) + seq![
            ')',
        ]);
        let mut out: Vec<Fragment> = Vec::new();
        out.push(Fragment { text: string_of(&text), style: StyleName::Branch });
        if self.dirty {
            let mut star: Vec<char> = Vec::new();
            star.push('*');
            out.push(Fragment { text: string_of(&star), style: StyleName::Dirty });
            assert(star@ =~= seq!['*']);
        }
        assert(pieces(out@) =~= simple_pieces(self.branch@, self.dirty, opt_str(detached_name)));
        out
    }
}

/// The simple format of short status text. `detached_name` is what the
/// lookup of a tag found; it is used only where the text names `HEAD` in
/// place of a branch.
pub fn simple_output(git_status: &str, detached_name: Option<&str>) -> (out: Vec<Fragment>)
    ensures
        pieces(out@) == simple_pieces(
            simple_branch(lines(git_status@)),
            simple_dirty(lines(git_status@)),
            opt_str(detached_name),
        ),
{
    let status = simple_status(git_status);
    status.fragments(detached_name)
}

/// The number of white-space characters that follow one another from
/// position `i` of `s`.
pub open spec fn lead(s: Seq<char>, i: int) -> nat
    decreases s.len() - i,
{
    if i < 0 || i >= s.len() || !is_space(s[i]) {
        0
    } else {
        1 + lead(s, i + 1)
    }
}

/// The number of white-space characters that follow one another up to,
/// not including, position `n` of `s`.
pub open spec fn trail(s: Seq<char>, n: int) -> nat
    decreases n,
{
    if n <= 0 || n > s.len() || !is_space(s[n - 1]) {
        0
    } else {
        1 + trail(s, n - 1)
    }
}

/// `s` without the white space at its two ends.
pub open spec fn trimmed(s: Seq<char>) -> Seq<char> {
    let a = lead(s, 0);
    let b = s.len() - trail(s, s.len() as int);
    if a < b {
        s.subrange(a as int, b)
    } else {
        Seq::empty()
    }
}

/// Whether `p` stands at position `i` of `s`.
pub open spec fn stands_at(s: Seq<char>, p: Seq<char>, i: int) -> bool {
    0 <= i && i + p.len() <= s.len() && s.subrange(i, i + p.len()) == p
}

/// The number of characters that copies of `p` take up which follow one
/// another from position `i` of `s`.
pub open spec fn repeats(s: Seq<char>, p: Seq<char>, i: int) -> nat
    decreases s.len() - i,
{
    if p.len() > 0 && stands_at(s, p, i) {
        p.len() + repeats(s, p, i + p.len())
    } else {
        0
    }
}

/// `s` without the copies of `p` that it begins with.
pub open spec fn without_leading(s: Seq<char>, p: Seq<char>) -> Seq<char> {
    s.skip(repeats(s, p, 0) as int)
}

/// The branch that the text of a `HEAD` file names: the text without the
/// white space at its ends and without the leading `ref: refs/heads/`.
pub open spec fn head_branch_of(head: Seq<char>) -> Seq<char> {
    without_leading(trimmed(head), "ref: refs/heads/"@)
}

/// `s` without the white space at its two ends.
pub fn trim(s: &Vec<char>) -> (r: Vec<char>)
    ensures
        r@ == trimmed(s@),
{
    let n = s.len();
    let mut a: usize = 0;
    while a < n && is_whitespace(s[a])
        invariant
            n == s.len(),
            a <= n,
            lead(s@, 0) == a + lead(s@, a as int),
        decreases n - a,
    {
        a += 1;
    }
    let mut b: usize = n;
    while b > 0 && is_whitespace(s[b - 1])
        invariant
            n == s.len(),
            b <= n,
            trail(s@, n as int) == (n - b) + trail(s@, b as int),
        decreases b,
    {
        b -= 1;
    }
    if a < b {
        slice_of(s, a, b)
    } else {
        Vec::new()
    }
}

/// Whether `p` stands at position `i` of `s`.
fn stands_here(s: &Vec<char>, p: &Vec<char>, i: usize) -> (r: bool)
    requires
        i <= s.len(),
    ensures
        r == stands_at(s@, p@, i as int),
{
    if p.len() > s.len() - i {
        return false;
    }
    let part = slice_of(s, i, i + p.len());
    crate::text::same_text(&part, p)
}

/// `s` without the copies of `prefix` that it begins with.
pub fn strip_leading(s: &Vec<char>, prefix: &str) -> (r: Vec<char>)
    ensures
        r@ == without_leading(s@, prefix@),
{
    let p = chars_of(prefix);
    let n = s.len();
    let mut i: usize = 0;
    if p.len() > 0 {
        while stands_here(s, &p, i)
            invariant
                n == s.len(),
                i <= n,
                p.len() > 0,
                repeats(s@, p@, 0) == i + repeats(s@, p@, i as int),
            decreases n - i,
        {
            i += p.len();
        }
    }
    let r = slice_of(s, i, n);
    assert(r@ =~= s@.skip(i as int));
    r
}

/// The branch that the text of a `HEAD` file names.
pub fn head_branch(head: &str) -> (r: String)
    ensures
        r@ == head_branch_of(head@),
{
    let text = chars_of(head);
    let inner = trim(&text);
    let name = strip_leading(&inner, "ref: refs/heads/");
    string_of(&name)
}

/// Whether one of the parts of a path is the directory `.git`.
pub open spec fn holds_dotgit(parts: Seq<String>) -> bool {
    exists|i: int| 0 <= i < parts.len() && (#[trigger] parts[i])@ == ".git"@
}

/// Whether a path, given by its parts, leads into the directory `.git` of
/// a repository.
pub fn inside_dotgit_dir(parts: &Vec<String>) -> (r: bool)
    ensures
        r == holds_dotgit(parts@),
{
    let mut i: usize = 0;
    while i < parts.len()
        invariant
            i <= parts.len(),
            forall|j: int| 0 <= j < i ==> (#[trigger] parts@[j])@ != ".git"@,
        decreases parts.len() - i,
    {
        let part = chars_of(parts[i].as_str());
        if crate::text::is_text(&part, ".git") {
            return true;
        }
        i += 1;
    }
    false
}

/// The branch to show for a working directory: `.git` inside the
/// directory of that name; else the branch that the `HEAD` file names, or
/// none where no such file was found.
pub open spec fn current_branch_of(parts: Seq<String>, head: Option<Seq<char>>) -> Option<
    Seq<char>,
> {
    if holds_dotgit(parts) {
        Some(".git"@)
    } else {
        match head {
            Some(text) => Some(head_branch_of(text)),
            None => None,
        }
    }
}

/// The branch to show for the working directory with the parts `parts`.
/// `head` is the text of the repository's `HEAD` file, where one was
/// found; it is not looked at inside the directory `.git`.
pub fn current_branch(parts: &Vec<String>, head: Option<&str>) -> (r: Option<String>)
    ensures
        crate::record::opt_text(r) == current_branch_of(parts@, opt_str(head)),
{
    if inside_dotgit_dir(parts) {
        Some(".git".to_owned())
    } else {
        match head {
            Some(text) => Some(head_branch(text)),
            None => None,
        }
    }
}

} // verus!
