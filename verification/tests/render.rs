use gitpr::parser::parse_status;
use gitpr::record::{AreaCounter, StatusRecord};
use gitpr::render::{gather, render, trim_glyphs, Fragment, Glyph, RenderMode};
use gitpr::style::StyleName;
use gitpr::template::{validate, Opt, TemplateError, FORMAT_STRING_USAGE};

const COUNTS: RenderMode = RenderMode { indicators_only: false, trim_output: false };
const MARKS: RenderMode = RenderMode { indicators_only: true, trim_output: false };
const TRIM: RenderMode = RenderMode { indicators_only: false, trim_output: true };

fn frag(text: &str, style: StyleName) -> Fragment {
    Fragment { text: text.to_string(), style }
}

fn text_of(fragments: &[Fragment]) -> String {
    fragments.iter().map(|f| f.text.as_str()).collect()
}

fn sample() -> StatusRecord {
    let mut r = StatusRecord::new();
    r.branch = Some("main".to_string());
    r.commit = Some("0123456789abcdef".to_string());
    r.upstream = Some("origin/main".to_string());
    r.ahead = 3;
    r.behind = 12;
    r.stashed = 2;
    r.untracked = 4;
    r.unmerged = 1;
    r.insertions = 20;
    r.deletions = 10;
    r.staged = AreaCounter { modified: 1, added: 2, deleted: 0, renamed: 0, copied: 0 };
    r.unstaged = AreaCounter { modified: 5, added: 0, deleted: 1, renamed: 1, copied: 0 };
    r
}

#[test]
fn branch_of_parsed_header_renders_as_branch() {
    let r = parse_status("# branch.head master", None).unwrap();
    assert_eq!(r.upstream, None);
    assert_eq!(render(&r, "%b", COUNTS).unwrap(), vec![frag("master", StyleName::Branch)]);
}

#[test]
fn unstaged_modification_renders_glyph_and_count() {
    let r = parse_status("1 .M N... 100644 100644 100644 abc abc file.txt", None).unwrap();
    assert_eq!(
        render(&r, "%m", COUNTS).unwrap(),
        vec![frag("\u{394}1", StyleName::ModifiedUnstaged)]
    );
    assert_eq!(render(&r, "%s", COUNTS).unwrap(), vec![]);
}

#[test]
fn nothing_ahead_or_behind_renders_nothing() {
    let r = parse_status("# branch.ab +0 -0", None).unwrap();
    assert_eq!(render(&r, "%a", COUNTS).unwrap(), vec![]);
}

#[test]
fn unknown_token_is_an_error() {
    assert_eq!(render(&sample(), "%z", COUNTS), Err(TemplateError::UnknownToken('z')));
    assert_eq!(render(&StatusRecord::new(), "%z", TRIM), Err(TemplateError::UnknownToken('z')));
}

#[test]
fn unknown_token_after_valid_ones_renders_nothing() {
    assert_eq!(render(&sample(), "%b %c %q %a", COUNTS), Err(TemplateError::UnknownToken('q')));
    assert_eq!(validate("%b %c %q %a"), Err(TemplateError::UnknownToken('q')));
}

#[test]
fn first_unknown_token_is_reported() {
    assert_eq!(validate("%b%x%y"), Err(TemplateError::UnknownToken('x')));
}

#[test]
fn trailing_percent_is_an_error() {
    assert_eq!(render(&sample(), "%b%", COUNTS), Err(TemplateError::DanglingPercent));
    assert_eq!(validate("%"), Err(TemplateError::DanglingPercent));
}

#[test]
fn doubled_percent_hides_the_next_letter() {
    assert_eq!(render(&sample(), "%%z", COUNTS).unwrap(), vec![frag("%z", StyleName::Plain)]);
}

#[test]
fn commit_is_cut_to_seven_characters() {
    let mut r = StatusRecord::new();
    r.commit = Some("0123456789abcdef".to_string());
    assert_eq!(render(&r, "%c", COUNTS).unwrap(), vec![frag("0123456", StyleName::Commit)]);
}

#[test]
fn initial_commit_is_shown_whole() {
    let mut r = StatusRecord::new();
    r.commit = Some("(initial)".to_string());
    assert_eq!(render(&r, "%c", COUNTS).unwrap(), vec![frag("(initial)", StyleName::Commit)]);
}

#[test]
fn short_commit_is_shown_whole() {
    let mut r = StatusRecord::new();
    r.commit = Some("abc".to_string());
    assert_eq!(render(&r, "%c", COUNTS).unwrap(), vec![frag("abc", StyleName::Commit)]);
    r.commit = Some("\u{e9}\u{e9}\u{e9}\u{e9}\u{e9}\u{e9}\u{e9}\u{e9}".to_string());
    assert_eq!(
        render(&r, "%c", COUNTS).unwrap(),
        vec![frag("\u{e9}\u{e9}\u{e9}\u{e9}\u{e9}\u{e9}\u{e9}", StyleName::Commit)]
    );
}

#[test]
fn missing_names_render_nothing() {
    let r = StatusRecord::new();
    assert_eq!(render(&r, "%b%r%c", COUNTS).unwrap(), vec![]);
}

#[test]
fn every_token_with_counts() {
    let out = render(&sample(), "%g%n%b%r%a%c%m%s%u%U%t%d%%", COUNTS).unwrap();
    assert_eq!(
        out,
        vec![
            frag("\u{e0a0}", StyleName::BranchGlyph),
            frag("git", StyleName::Plain),
            frag("main", StyleName::Branch),
            frag("origin/main", StyleName::Upstream),
            frag("\u{21e1}3\u{21e3}12", StyleName::AheadBehind),
            frag("0123456", StyleName::Commit),
            frag("\u{394}7", StyleName::ModifiedUnstaged),
            frag("\u{394}3", StyleName::ModifiedStaged),
            frag("\u{2026}4", StyleName::Untracked),
            frag("\u{203c}1", StyleName::Unmerged),
            frag("$2", StyleName::Stash),
            frag("+20/-10", StyleName::Diff),
            frag("%", StyleName::Plain),
        ]
    );
}

#[test]
fn every_token_with_indicators_only() {
    let out = render(&sample(), "%a|%m|%s|%u|%U|%t|%d|", MARKS).unwrap();
    assert_eq!(
        out,
        vec![
            frag("\u{21e1}\u{21e3}", StyleName::AheadBehind),
            frag("|", StyleName::Plain),
            frag("\u{394}", StyleName::ModifiedUnstaged),
            frag("|", StyleName::Plain),
            frag("\u{394}", StyleName::ModifiedStaged),
            frag("|", StyleName::Plain),
            frag("\u{2026}", StyleName::Untracked),
            frag("|", StyleName::Plain),
            frag("\u{203c}", StyleName::Unmerged),
            frag("|", StyleName::Plain),
            frag("$", StyleName::Stash),
            frag("||", StyleName::Plain),
        ]
    );
}

#[test]
fn only_ahead_or_only_behind() {
    let mut r = StatusRecord::new();
    r.ahead = 5;
    assert_eq!(render(&r, "%a", COUNTS).unwrap(), vec![frag("\u{21e1}5", StyleName::AheadBehind)]);
    r.ahead = 0;
    r.behind = 1000;
    assert_eq!(
        render(&r, "%a", COUNTS).unwrap(),
        vec![frag("\u{21e3}1000", StyleName::AheadBehind)]
    );
}

#[test]
fn diff_without_deletions_shows_insertions_alone() {
    let mut r = sample();
    r.deletions = 0;
    assert_eq!(render(&r, "%d", COUNTS).unwrap(), vec![frag("+20", StyleName::Diff)]);
}

#[test]
fn diff_without_insertions_shows_zero() {
    let mut r = sample();
    r.insertions = 0;
    assert_eq!(render(&r, "%d", COUNTS).unwrap(), vec![frag("+0/-10", StyleName::Diff)]);
    r.deletions = 0;
    assert_eq!(render(&r, "%d", COUNTS).unwrap(), vec![frag("+0", StyleName::Diff)]);
}

#[test]
fn diff_of_clean_tree_shows_nothing() {
    let mut r = sample();
    r.unstaged = AreaCounter::new();
    assert_eq!(render(&r, "%d", COUNTS).unwrap(), vec![]);
}

#[test]
fn zero_counts_render_nothing() {
    let r = StatusRecord::new();
    assert_eq!(render(&r, "%a%m%s%u%U%t%d", COUNTS).unwrap(), vec![]);
    assert_eq!(render(&r, "%a%m%s%u%U%t%d", MARKS).unwrap(), vec![]);
}

#[test]
fn large_counts_are_written_in_full() {
    let mut r = StatusRecord::new();
    r.untracked = u64::MAX;
    r.unstaged = AreaCounter {
        modified: u64::MAX,
        added: u64::MAX,
        deleted: u64::MAX,
        renamed: u64::MAX,
        copied: u64::MAX,
    };
    r.insertions = u128::MAX;
    assert_eq!(
        render(&r, "%u", COUNTS).unwrap(),
        vec![frag("\u{2026}18446744073709551615", StyleName::Untracked)]
    );
    assert_eq!(
        render(&r, "%m", COUNTS).unwrap(),
        vec![frag("\u{394}92233720368547758075", StyleName::ModifiedUnstaged)]
    );
    assert_eq!(
        render(&r, "%d", COUNTS).unwrap(),
        vec![frag("+340282366920938463463374607431768211455", StyleName::Diff)]
    );
}

#[test]
fn literal_template_comes_back_as_one_plain_fragment() {
    let r = sample();
    assert_eq!(render(&r, "on branch: ", COUNTS).unwrap(), vec![frag("on branch: ", StyleName::Plain)]);
    assert_eq!(render(&r, "  a  b  ", MARKS).unwrap(), vec![frag("  a  b  ", StyleName::Plain)]);
    assert_eq!(render(&r, "", COUNTS).unwrap(), vec![]);
}

#[test]
fn rendering_twice_gives_the_same() {
    let r = sample();
    let t = "%g %b@%c %a %m %d %s %u %t %U";
    let once = render(&r, t, TRIM).unwrap();
    let twice = render(&r, t, TRIM).unwrap();
    assert_eq!(once, twice);
    assert_eq!(text_of(&once), "\u{e0a0} main@0123456 \u{21e1}3\u{21e3}12 \u{394}7 +20/-10 \u{394}3 \u{2026}4 $2 \u{203c}1");
}

#[test]
fn default_template_of_clean_tree_is_trimmed() {
    let r = parse_status("# branch.oid 0123456789abcdef\n# branch.head main\n", None).unwrap();
    let t = "%g %b@%c %a %m %d %s %u %t %U";
    let trimmed = render(&r, t, TRIM).unwrap();
    assert_eq!(
        trimmed,
        vec![
            frag("\u{e0a0}", StyleName::BranchGlyph),
            frag(" ", StyleName::Plain),
            frag("main", StyleName::Branch),
            frag("@", StyleName::Plain),
            frag("0123456", StyleName::Commit),
        ]
    );
    let untrimmed = render(&r, t, COUNTS).unwrap();
    assert_eq!(text_of(&untrimmed), format!("\u{e0a0} main@0123456{}", " ".repeat(7)));
}

#[test]
fn trim_collapses_runs_and_drops_the_ends() {
    let r = sample();
    let out = render(&r, " \t %b \n\n  x\u{a0}\u{3000}%u   ", TRIM).unwrap();
    assert_eq!(
        out,
        vec![
            frag("main", StyleName::Branch),
            frag(" x ", StyleName::Plain),
            frag("\u{2026}4", StyleName::Untracked),
        ]
    );
}

#[test]
fn trim_of_white_space_alone_is_empty() {
    assert_eq!(render(&StatusRecord::new(), "   %b \t ", TRIM).unwrap(), vec![]);
}

#[test]
fn trim_keeps_styles_inside_a_word() {
    let g: Vec<Glyph> = vec![
        (' ', StyleName::Branch),
        ('a', StyleName::Branch),
        ('b', StyleName::Commit),
        (' ', StyleName::Commit),
        (' ', StyleName::Plain),
        ('c', StyleName::Commit),
        ('\n', StyleName::Plain),
    ];
    assert_eq!(
        trim_glyphs(&g),
        vec![
            ('a', StyleName::Branch),
            ('b', StyleName::Commit),
            (' ', StyleName::Plain),
            ('c', StyleName::Commit),
        ]
    );
}

#[test]
fn gather_joins_neighbours_of_one_style() {
    let g: Vec<Glyph> = vec![
        ('a', StyleName::Plain),
        ('b', StyleName::Plain),
        ('c', StyleName::Branch),
        ('d', StyleName::Plain),
        ('e', StyleName::Plain),
    ];
    assert_eq!(
        gather(&g),
        vec![frag("ab", StyleName::Plain), frag("c", StyleName::Branch), frag("de", StyleName::Plain)]
    );
    assert_eq!(gather(&Vec::new()), vec![]);
}

#[test]
fn validate_collects_what_the_template_shows() {
    let o = validate("%g %b@%c %a %m %d %s %u %t %U").unwrap();
    assert!(o.show_branch_glyph && o.show_branch && o.show_commit && o.show_ahead_behind);
    assert!(o.show_unstaged_modified && o.show_diff && o.show_staged_modified);
    assert!(o.show_untracked && o.show_stashed && o.show_unmerged);
    assert!(!o.show_upstream && !o.show_vcs);
    assert_eq!(validate("plain %% text").unwrap(), Opt::new());
    let o = validate("%%u %n%r").unwrap();
    assert!(!o.show_untracked);
    assert!(o.show_vcs && o.show_upstream);
}

#[test]
fn error_message_names_the_token() {
    let m = TemplateError::UnknownToken('z').message();
    assert_eq!(m, format!("invalid format string token \"%z\"\n{}", FORMAT_STRING_USAGE));
    let m = TemplateError::DanglingPercent.message();
    assert_eq!(m, format!("invalid format string token \"%\"\n{}", FORMAT_STRING_USAGE));
    assert!(FORMAT_STRING_USAGE.contains("%g  branch glyph (\u{e0a0})\n"));
    assert!(FORMAT_STRING_USAGE.starts_with("Tokenized string may contain:\n---"));
    assert!(FORMAT_STRING_USAGE.ends_with("%t  stashed files indicator\n------------------------------\n"));
}

#[test]
fn trimmed_text_is_the_words_joined_by_spaces() {
    let records = [StatusRecord::new(), sample()];
    let templates = [
        "%g %b@%c %a %m %d %s %u %t %U",
        "  %b  \t%r\n\n%a  ",
        "a  b   c",
        " ",
        "",
        "%%  %n\u{a0}%n",
    ];
    for r in &records {
        for t in templates {
            let plain = text_of(&render(r, t, COUNTS).unwrap());
            let trimmed = text_of(&render(r, t, TRIM).unwrap());
            let expected: Vec<&str> = plain.split_whitespace().collect();
            assert_eq!(trimmed, expected.join(" "), "{:?}", t);
        }
    }
}

#[test]
fn literal_word_comes_back_under_trimming() {
    let r = sample();
    assert_eq!(render(&r, "prompt>", TRIM).unwrap(), vec![frag("prompt>", StyleName::Plain)]);
    assert_eq!(render(&r, " prompt > ", TRIM).unwrap(), vec![frag("prompt >", StyleName::Plain)]);
}

#[test]
fn fragments_never_share_a_style_with_their_neighbour() {
    let out = render(&sample(), "a%nb %b%b %%%% x", COUNTS).unwrap();
    assert_eq!(
        out,
        vec![
            frag("agitb ", StyleName::Plain),
            frag("mainmain", StyleName::Branch),
            frag(" %% x", StyleName::Plain),
        ]
    );
}
