use gitpr::render::Fragment;
use gitpr::simple::{
    current_branch, head_branch, inside_dotgit_dir, simple_output, simple_status, strip_leading,
    trim, SimpleStatus,
};
use gitpr::style::{Color, Style, StyleName, StyleSet};

fn color_code(c: Color, base: u8) -> String {
    match c {
        Color::Black => format!("{}", base),
        Color::Red => format!("{}", base + 1),
        Color::Green => format!("{}", base + 2),
        Color::Yellow => format!("{}", base + 3),
        Color::Blue => format!("{}", base + 4),
        Color::Purple => format!("{}", base + 5),
        Color::Cyan => format!("{}", base + 6),
        Color::White => format!("{}", base + 7),
        Color::Fixed(n) => format!("{};5;{}", base + 8, n),
    }
}

fn prefix(style: Style) -> String {
    let mut codes: Vec<String> = Vec::new();
    if let Some(c) = style.foreground {
        codes.push(color_code(c, if style.intense { 90 } else { 30 }));
    }
    if let Some(c) = style.background {
        codes.push(color_code(c, 40));
    }
    if codes.is_empty() {
        String::new()
    } else {
        format!("\u{1b}[{}m", codes.join(";"))
    }
}

fn paint(fragments: &[Fragment], styles: &StyleSet) -> String {
    let mut out = String::new();
    for f in fragments {
        out.push_str(&prefix(styles.get(f.style)));
        out.push_str(&f.text);
    }
    out.push_str("\u{1b}[0m");
    out
}

#[test]
fn simple_clean() {
    const CLEAN: &str = "## master...origin/master";
    let expected = "\u{1b}[38;5;14m(master)\u{1b}[0m";

    let fragments = simple_output(CLEAN, None);
    let result = paint(&fragments, &StyleSet::simple());
    assert_eq!(result, expected);
}

#[test]
fn simple_dirty() {
    const DIRTY: &str = "## master...origin/master
  M src/main.rs
 ?? src/tests.rs";
    let expected = "\u{1b}[38;5;14m(master)\u{1b}[31m*\u{1b}[0m";

    let fragments = simple_output(DIRTY, None);
    let result = paint(&fragments, &StyleSet::simple());
    assert_eq!(result, expected);
}

#[test]
fn simple_status_reads_branch_and_dirt() {
    assert_eq!(
        simple_status("## master...origin/master"),
        SimpleStatus { branch: "master".to_string(), dirty: false }
    );
    assert_eq!(
        simple_status("## dev\n M a\n## later"),
        SimpleStatus { branch: "dev".to_string(), dirty: true }
    );
    assert_eq!(simple_status(""), SimpleStatus { branch: String::new(), dirty: false });
    assert_eq!(simple_status(" M a"), SimpleStatus { branch: String::new(), dirty: true });
    assert_eq!(simple_status("##"), SimpleStatus { branch: String::new(), dirty: false });
    assert_eq!(simple_status("##x"), SimpleStatus { branch: String::new(), dirty: false });
}

#[test]
fn simple_status_takes_the_last_leading_branch_line() {
    assert_eq!(
        simple_status("## one...o/one\r\n## two...o/two\r\n"),
        SimpleStatus { branch: "two".to_string(), dirty: false }
    );
}

#[test]
fn simple_branch_stops_at_the_first_three_dots() {
    assert_eq!(simple_status("## a..b...c...d").branch, "a..b");
    assert_eq!(simple_status("## ...x").branch, "");
    assert_eq!(simple_status("## no-upstream").branch, "no-upstream");
    assert_eq!(simple_status("## v1.2....x").branch, "v1.2");
}

#[test]
fn simple_fragments_of_clean_and_dirty() {
    assert_eq!(
        simple_output("## main", None),
        vec![Fragment { text: "(main)".to_string(), style: StyleName::Branch }]
    );
    assert_eq!(
        simple_output("## main\n?? x", None),
        vec![
            Fragment { text: "(main)".to_string(), style: StyleName::Branch },
            Fragment { text: "*".to_string(), style: StyleName::Dirty },
        ]
    );
}

#[test]
fn simple_detached_head_takes_the_lookup() {
    let text = "## HEAD (no branch)";
    assert!(simple_status(text).is_detached());
    assert_eq!(
        simple_output(text, Some("v0.3.0")),
        vec![Fragment { text: "(v0.3.0)".to_string(), style: StyleName::Branch }]
    );
    assert_eq!(
        simple_output(text, None),
        vec![Fragment { text: "(unknown)".to_string(), style: StyleName::Branch }]
    );
}

#[test]
fn simple_named_branch_ignores_the_lookup() {
    assert!(!simple_status("## main...origin/main").is_detached());
    assert_eq!(
        simple_output("## main...origin/main", Some("v0.3.0")),
        vec![Fragment { text: "(main)".to_string(), style: StyleName::Branch }]
    );
}

#[test]
fn standard_styles() {
    let s = StyleSet::standard();
    assert_eq!(s.branch, Style { foreground: Some(Color::Blue), background: None, intense: true });
    assert_eq!(
        s.commit,
        Style { foreground: Some(Color::Black), background: Some(Color::Green), intense: false }
    );
    assert_eq!(s.diff, Style::normal(Color::Fixed(188)));
    assert_eq!(s.modified_unstaged, Style::normal(Color::Red));
    assert_eq!(s.modified_staged, Style::normal(Color::Red));
    assert_eq!(s.stash, Style::normal(Color::Yellow));
    assert_eq!(s.untracked, Style::normal(Color::Fixed(245)));
    assert_eq!(s.unmerged, Style::normal(Color::Red));
    for name in [
        StyleName::Plain,
        StyleName::AheadBehind,
        StyleName::BranchGlyph,
        StyleName::Dirty,
        StyleName::Upstream,
    ] {
        assert_eq!(s.get(name), Style::new());
    }
    assert_eq!(s.get(StyleName::Commit), Style::on(Color::Black, Color::Green));
    assert_eq!(s.get(StyleName::Branch), Style::intense(Color::Blue));
}

#[test]
fn simple_styles() {
    let s = StyleSet::simple();
    assert_eq!(s.branch, Style::normal(Color::Fixed(14)));
    assert_eq!(s.dirty, Style::normal(Color::Red));
    assert_eq!(
        StyleSet { branch: Style::new(), dirty: Style::new(), ..s },
        StyleSet::new()
    );
    assert_eq!(s.get(StyleName::Dirty), Style::normal(Color::Red));
}

#[test]
fn head_file_names_the_branch() {
    assert_eq!(head_branch("ref: refs/heads/main\n"), "main");
    assert_eq!(head_branch("  ref: refs/heads/feature/x \r\n"), "feature/x");
    assert_eq!(head_branch("0123456789abcdef0123456789abcdef01234567\n"), "0123456789abcdef0123456789abcdef01234567");
    assert_eq!(head_branch("ref: refs/heads/ref: refs/heads/twice"), "twice");
    assert_eq!(head_branch("ref: refs/heads/"), "");
    assert_eq!(head_branch("ref: refs/heads"), "ref: refs/heads");
    assert_eq!(head_branch(" \n\t"), "");
    assert_eq!(head_branch(""), "");
    assert_eq!(head_branch("a b"), "a b");
    for s in ["ref: refs/heads/main\n", " x ", "", "\u{a0}ref: refs/heads/ref: refs/heads/y\u{3000}"] {
        assert_eq!(head_branch(s), s.trim().trim_start_matches("ref: refs/heads/"));
    }
}

#[test]
fn trim_and_strip_of_named_cases() {
    let cs = |s: &str| -> Vec<char> { s.chars().collect() };
    assert_eq!(trim(&cs("  a b  ")), cs("a b"));
    assert_eq!(trim(&cs("ab")), cs("ab"));
    assert_eq!(trim(&cs("   ")), cs(""));
    assert_eq!(strip_leading(&cs("ababc"), "ab"), cs("c"));
    assert_eq!(strip_leading(&cs("abab"), "ab"), cs(""));
    assert_eq!(strip_leading(&cs("xab"), "ab"), cs("xab"));
    assert_eq!(strip_leading(&cs("abc"), ""), cs("abc"));
    assert_eq!(strip_leading(&cs("a"), "ab"), cs("a"));
}

#[test]
fn current_branch_inside_and_outside_dotgit() {
    let parts = |p: &[&str]| -> Vec<String> { p.iter().map(|s| s.to_string()).collect() };
    let inside = parts(&["/", "home", "me", "repo", ".git", "refs"]);
    let outside = parts(&["/", "home", "me", "repo", "src", ".github"]);
    assert!(inside_dotgit_dir(&inside));
    assert!(!inside_dotgit_dir(&outside));
    assert!(!inside_dotgit_dir(&parts(&[])));
    assert_eq!(current_branch(&inside, Some("ref: refs/heads/main\n")), Some(".git".to_string()));
    assert_eq!(current_branch(&inside, None), Some(".git".to_string()));
    assert_eq!(current_branch(&outside, Some("ref: refs/heads/main\n")), Some("main".to_string()));
    assert_eq!(current_branch(&outside, None), None);
}
