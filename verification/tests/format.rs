use gitpr::record::{AreaCounter, StatusRecord};
use gitpr::render::{
    push_counted, push_styled, Glyph, AHEAD_GLYPH, BEHIND_GLYPH, BRANCH_GLYPH, COMMIT_LEN,
    MODIFIED_GLYPH, STASH_GLYPH, UNMERGED_GLYPH, UNTRACKED_GLYPH,
};
use gitpr::simple::branch_name;
use gitpr::style::StyleName;
use gitpr::template::{is_format_token, validate_chars, Opt, TemplateError};

fn cs(s: &str) -> Vec<char> {
    s.chars().collect()
}

fn glyphs(s: &str, style: StyleName) -> Vec<Glyph> {
    s.chars().map(|c| (c, style)).collect()
}

fn record() -> StatusRecord {
    let mut r = StatusRecord::new();
    r.branch = Some("dev".to_string());
    r.upstream = Some("origin/dev".to_string());
    r.commit = Some("fedcba9876543210".to_string());
    r.ahead = 1;
    r.behind = 20;
    r.stashed = 3;
    r.untracked = 40;
    r.unmerged = 5;
    r.insertions = 6;
    r.deletions = 7;
    r.unstaged = AreaCounter { modified: 1, added: 1, deleted: 1, renamed: 1, copied: 1 };
    r
}

#[test]
fn glyphs_are_the_named_characters() {
    assert_eq!(AHEAD_GLYPH, '\u{21e1}');
    assert_eq!(BEHIND_GLYPH, '\u{21e3}');
    assert_eq!(BRANCH_GLYPH, '\u{e0a0}');
    assert_eq!(MODIFIED_GLYPH, '\u{394}');
    assert_eq!(STASH_GLYPH, '$');
    assert_eq!(UNMERGED_GLYPH, '\u{203c}');
    assert_eq!(UNTRACKED_GLYPH, '\u{2026}');
    assert_eq!(COMMIT_LEN, 7);
}

#[test]
fn push_styled_appends_in_one_style() {
    let mut out = glyphs("a", StyleName::Plain);
    push_styled(&mut out, &cs("bc"), StyleName::Branch);
    push_styled(&mut out, &cs(""), StyleName::Commit);
    let mut expected = glyphs("a", StyleName::Plain);
    expected.extend(glyphs("bc", StyleName::Branch));
    assert_eq!(out, expected);
}

#[test]
fn push_counted_writes_glyph_and_count() {
    let mut out = cs(">");
    push_counted(&mut out, '$', 12, false);
    assert_eq!(out, cs(">$12"));
    push_counted(&mut out, '!', 12, true);
    assert_eq!(out, cs(">$12!"));
    push_counted(&mut out, '?', 0, false);
    push_counted(&mut out, '?', 0, true);
    assert_eq!(out, cs(">$12!"));
}

#[test]
fn fmt_names() {
    let r = record();
    let mut out: Vec<Glyph> = Vec::new();
    r.fmt_branch(&mut out, StyleName::Branch);
    assert_eq!(out, glyphs("dev", StyleName::Branch));
    let mut out: Vec<Glyph> = Vec::new();
    r.fmt_upstream(&mut out, StyleName::Upstream);
    assert_eq!(out, glyphs("origin/dev", StyleName::Upstream));
    let mut out: Vec<Glyph> = Vec::new();
    r.fmt_branch_glyph(&mut out, StyleName::BranchGlyph);
    assert_eq!(out, glyphs("\u{e0a0}", StyleName::BranchGlyph));
    let empty = StatusRecord::new();
    let mut out = glyphs("x", StyleName::Plain);
    empty.fmt_branch(&mut out, StyleName::Branch);
    empty.fmt_upstream(&mut out, StyleName::Upstream);
    empty.fmt_commit(&mut out, StyleName::Commit, 7);
    assert_eq!(out, glyphs("x", StyleName::Plain));
}

#[test]
fn fmt_commit_cuts_to_the_given_length() {
    let r = record();
    for (len, expected) in [(7, "fedcba9"), (0, ""), (4, "fedc"), (16, "fedcba9876543210"), (99, "fedcba9876543210")] {
        let mut out: Vec<Glyph> = Vec::new();
        r.fmt_commit(&mut out, StyleName::Commit, len);
        assert_eq!(out, glyphs(expected, StyleName::Commit));
    }
    let mut first = StatusRecord::new();
    first.commit = Some("(initial)".to_string());
    let mut out: Vec<Glyph> = Vec::new();
    first.fmt_commit(&mut out, StyleName::Commit, 3);
    assert_eq!(out, glyphs("(initial)", StyleName::Commit));
}

#[test]
fn fmt_counts() {
    let r = record();
    let mut out: Vec<Glyph> = Vec::new();
    r.fmt_ahead_behind(&mut out, StyleName::AheadBehind, false);
    assert_eq!(out, glyphs("\u{21e1}1\u{21e3}20", StyleName::AheadBehind));
    let mut out: Vec<Glyph> = Vec::new();
    r.fmt_ahead_behind(&mut out, StyleName::AheadBehind, true);
    assert_eq!(out, glyphs("\u{21e1}\u{21e3}", StyleName::AheadBehind));
    let mut out: Vec<Glyph> = Vec::new();
    r.fmt_stash(&mut out, StyleName::Stash, false);
    assert_eq!(out, glyphs("$3", StyleName::Stash));
    let mut out: Vec<Glyph> = Vec::new();
    r.fmt_untracked(&mut out, StyleName::Untracked, false);
    assert_eq!(out, glyphs("\u{2026}40", StyleName::Untracked));
    let mut out: Vec<Glyph> = Vec::new();
    r.fmt_unmerged(&mut out, StyleName::Unmerged, true);
    assert_eq!(out, glyphs("\u{203c}", StyleName::Unmerged));
    let mut out: Vec<Glyph> = Vec::new();
    r.fmt_diff_numstat(&mut out, StyleName::Diff, false);
    assert_eq!(out, glyphs("+6/-7", StyleName::Diff));
    let mut out: Vec<Glyph> = Vec::new();
    r.fmt_diff_numstat(&mut out, StyleName::Diff, true);
    assert_eq!(out, Vec::new());
    let mut out: Vec<Glyph> = Vec::new();
    r.unstaged.fmt_modified(&mut out, StyleName::ModifiedUnstaged, false);
    assert_eq!(out, glyphs("\u{394}5", StyleName::ModifiedUnstaged));
    let mut out: Vec<Glyph> = Vec::new();
    r.staged.fmt_modified(&mut out, StyleName::ModifiedStaged, false);
    assert_eq!(out, Vec::new());
}

#[test]
fn fmt_token_gives_each_token_its_style() {
    let r = record();
    let cases = [
        ('g', "\u{e0a0}", StyleName::BranchGlyph),
        ('n', "git", StyleName::Plain),
        ('b', "dev", StyleName::Branch),
        ('r', "origin/dev", StyleName::Upstream),
        ('a', "\u{21e1}1\u{21e3}20", StyleName::AheadBehind),
        ('c', "fedcba9", StyleName::Commit),
        ('m', "\u{394}5", StyleName::ModifiedUnstaged),
        ('s', "", StyleName::ModifiedStaged),
        ('u', "\u{2026}40", StyleName::Untracked),
        ('U', "\u{203c}5", StyleName::Unmerged),
        ('t', "$3", StyleName::Stash),
        ('d', "+6/-7", StyleName::Diff),
        ('%', "%", StyleName::Plain),
    ];
    for (c, text, style) in cases {
        let mut out: Vec<Glyph> = Vec::new();
        r.fmt_token(&mut out, c, false);
        assert_eq!(out, glyphs(text, style), "{:?}", c);
    }
}

#[test]
fn print_output_expands_the_template() {
    let r = record();
    let out = r.print_output(&cs("<%b %u>"), true);
    let mut expected = glyphs("<", StyleName::Plain);
    expected.extend(glyphs("dev", StyleName::Branch));
    expected.extend(glyphs(" ", StyleName::Plain));
    expected.extend(glyphs("\u{2026}", StyleName::Untracked));
    expected.extend(glyphs(">", StyleName::Plain));
    assert_eq!(out, Ok(expected));
    assert_eq!(r.print_output(&cs(""), false), Ok(Vec::new()));
}

#[test]
fn print_output_refuses_an_unknown_token() {
    let mut r = StatusRecord::new();
    assert_eq!(r.print_output(&cs("%z"), false), Err(TemplateError::UnknownToken('z')));
    r.branch = Some("master".to_string());
    assert_eq!(r.print_output(&cs("%b%z"), false), Err(TemplateError::UnknownToken('z')));
    assert_eq!(r.print_output(&cs("x%z"), false), Err(TemplateError::UnknownToken('z')));
    assert_eq!(r.print_output(&cs("%b%z%y"), true), Err(TemplateError::UnknownToken('z')));
}

#[test]
fn print_output_writes_nothing_before_a_late_error() {
    let mut r = StatusRecord::new();
    r.unstaged = AreaCounter { modified: 1, added: 0, deleted: 0, renamed: 0, copied: 0 };
    assert_eq!(r.print_output(&cs("%t%d%z"), false), Err(TemplateError::UnknownToken('z')));
    assert_eq!((r.stashed, r.insertions, r.deletions), (0, 0, 0));
    assert!(!r.stash_known && !r.diff_known);
    assert_eq!(r.print_output(&cs("%t%d"), false), Ok(glyphs("+0", StyleName::Diff)));
}

#[test]
fn print_output_refuses_a_lone_percent() {
    let r = record();
    assert_eq!(r.print_output(&cs("%b%"), false), Err(TemplateError::DanglingPercent));
    assert_eq!(r.print_output(&cs("100%"), false), Err(TemplateError::DanglingPercent));
    assert_eq!(r.print_output(&cs("%"), false), Err(TemplateError::DanglingPercent));
    assert_eq!(r.print_output(&cs("100%%"), false), Ok(glyphs("100%", StyleName::Plain)));
}

#[test]
fn format_tokens_are_the_thirteen() {
    for c in "abcdgmnrstuU%".chars() {
        assert!(is_format_token(c), "{:?}", c);
    }
    for c in "ABCDGMNRSTefhijklopqvwxyz0 $\u{394}".chars() {
        assert!(!is_format_token(c), "{:?}", c);
    }
}

#[test]
fn note_sets_one_flag() {
    let none = Opt::new();
    assert_eq!(none.note('b'), Opt { show_branch: true, ..none });
    assert_eq!(none.note('U'), Opt { show_unmerged: true, ..none });
    assert_eq!(none.note('u'), Opt { show_untracked: true, ..none });
    assert_eq!(none.note('%'), none);
    assert_eq!(none.note('z'), none);
    let all = "abcdgmnrstuU".chars().fold(none, |o, c| o.note(c));
    assert_eq!(
        all,
        Opt {
            show_ahead_behind: true,
            show_branch: true,
            show_branch_glyph: true,
            show_commit: true,
            show_diff: true,
            show_upstream: true,
            show_stashed: true,
            show_staged_modified: true,
            show_unstaged_modified: true,
            show_untracked: true,
            show_unmerged: true,
            show_vcs: true,
        }
    );
}

#[test]
fn validate_chars_reads_tokens_from_left_to_right() {
    assert_eq!(validate_chars(&cs("%t%d")), Ok(Opt::new().note('t').note('d')));
    assert_eq!(validate_chars(&cs("%%t")), Ok(Opt::new()));
    assert_eq!(validate_chars(&cs("%%%t")), Ok(Opt::new().note('t')));
    assert_eq!(validate_chars(&cs("% b")), Err(TemplateError::UnknownToken(' ')));
    assert_eq!(validate_chars(&cs("%b%%%")), Err(TemplateError::DanglingPercent));
}

#[test]
fn branch_name_stops_before_three_dots() {
    assert_eq!(branch_name(&cs("main...origin/main")), cs("main"));
    assert_eq!(branch_name(&cs("main")), cs("main"));
    assert_eq!(branch_name(&cs("a.b..c")), cs("a.b..c"));
    assert_eq!(branch_name(&cs("")), cs(""));
}
