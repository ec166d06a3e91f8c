//! Styles: the names under which the renderer styles its fragments, and the
//! tables that give each name its colours.

use vstd::prelude::*;

verus! {

/// The name of a style in the style table.
#[derive(Clone, Copy, Debug, PartialEq, Eq, Structural)]
pub enum StyleName {
    Plain,
    AheadBehind,
    Branch,
    BranchGlyph,
    Commit,
    Diff,
    Dirty,
    ModifiedUnstaged,
    ModifiedStaged,
    Stash,
    Untracked,
    Unmerged,
    Upstream,
}

/// A terminal colour: one of the eight basic colours, or a colour of the
/// 256-colour palette by its number.
#[derive(Clone, Copy, Debug, PartialEq, Eq, Structural)]
pub enum Color {
    Black,
    Red,
    Green,
    Yellow,
    Blue,
    Purple,
    Cyan,
    White,
    Fixed(u8),
}

/// How text is shown: its colour, the colour behind it, and whether the
/// colour is the intense one.
#[derive(Clone, Copy, Debug, PartialEq, Eq, Structural)]
pub struct Style {
    pub foreground: Option<Color>,
    pub background: Option<Color>,
    pub intense: bool,
}

impl Style {
    /// The style that changes nothing.
    pub open spec fn plain() -> Style {
        Style { foreground: None, background: None, intense: false }
    }

    /// Text in the colour `c`.
    pub open spec fn colored(c: Color) -> Style {
        Style { foreground: Some(c), background: None, intense: false }
    }

    /// Text in the intense form of the colour `c`.
    pub open spec fn bright(c: Color) -> Style {
        Style { foreground: Some(c), background: None, intense: true }
    }

    /// Text in the colour `c` on the colour `back`.
    pub open spec fn colored_on(c: Color, back: Color) -> Style {
        Style { foreground: Some(c), background: Some(back), intense: false }
    }

    /// The style that changes nothing.
    pub fn new() -> (r: Style)
        ensures
            r == Style::plain(),
    {
        Style { foreground: None, background: None, intense: false }
    }

    /// Text in the colour `c`.
    pub fn normal(c: Color) -> (r: Style)
        ensures
            r == Style::colored(c),
    {
        Style { foreground: Some(c), background: None, intense: false }
    }

    /// Text in the intense form of the colour `c`.
    pub fn intense(c: Color) -> (r: Style)
        ensures
            r == Style::bright(c),
    {
        Style { foreground: Some(c), background: None, intense: true }
    }

    /// Text in the colour `c` on the colour `back`.
    pub fn on(c: Color, back: Color) -> (r: Style)
        ensures
            r == Style::colored_on(c, back),
    {
        Style { foreground: Some(c), background: Some(back), intense: false }
    }
}

/// The style table: one style for each style name.
#[derive(Clone, Copy, Debug, PartialEq, Eq, Structural)]
pub struct StyleSet {
    pub plain: Style,
    pub ahead_behind: Style,
    pub branch: Style,
    pub branch_glyph: Style,
    pub commit: Style,
    pub diff: Style,
    pub dirty: Style,
    pub modified_unstaged: Style,
    pub modified_staged: Style,
    pub stash: Style,
    pub untracked: Style,
    pub unmerged: Style,
    pub upstream: Style,
}

/// Intense blue in the 256-colour palette.
pub const BLUE: u8 = 12;

/// Bold silver in the 256-colour palette.
pub const BOLD_SILVER: u8 = 188;

/// Intense cyan in the 256-colour palette.
pub const CYAN: u8 = 14;

/// Gray in the 256-colour palette.
pub const GRAY: u8 = 245;

impl StyleSet {
    /// The table in which every name has the plain style.
    pub open spec fn all_plain() -> StyleSet {
        StyleSet {
            plain: Style::plain(),
            ahead_behind: Style::plain(),
            branch: Style::plain(),
            branch_glyph: Style::plain(),
            commit: Style::plain(),
            diff: Style::plain(),
            dirty: Style::plain(),
            modified_unstaged: Style::plain(),
            modified_staged: Style::plain(),
            stash: Style::plain(),
            untracked: Style::plain(),
            unmerged: Style::plain(),
            upstream: Style::plain(),
        }
    }

    /// The style that the table gives to `name`.
    pub open spec fn style_of(self, name: StyleName) -> Style {
        match name {
            StyleName::Plain => self.plain,
            StyleName::AheadBehind => self.ahead_behind,
            StyleName::Branch => self.branch,
            StyleName::BranchGlyph => self.branch_glyph,
            StyleName::Commit => self.commit,
            StyleName::Diff => self.diff,
            StyleName::Dirty => self.dirty,
            StyleName::ModifiedUnstaged => self.modified_unstaged,
            StyleName::ModifiedStaged => self.modified_staged,
            StyleName::Stash => self.stash,
            StyleName::Untracked => self.untracked,
            StyleName::Unmerged => self.unmerged,
            StyleName::Upstream => self.upstream,
        }
    }

    /// The table in which every name has the plain style.
    pub fn new() -> (r: StyleSet)
        ensures
            r == StyleSet::all_plain(),
    {
        let p = Style::new();
        StyleSet {
            plain: p,
            ahead_behind: p,
            branch: p,
            branch_glyph: p,
            commit: p,
            diff: p,
            dirty: p,
            modified_unstaged: p,
            modified_staged: p,
            stash: p,
            untracked: p,
            unmerged: p,
            upstream: p,
        }
    }

    /// The table of the full format: an intense blue branch, the commit in
    /// black on green, silver diff counts, red changes and unmerged files,
    /// a yellow stash and gray untracked files; the rest plain.
    pub fn standard() -> (r: StyleSet)
        ensures
            r == (StyleSet {
                branch: Style::bright(Color::Blue),
                commit: Style::colored_on(Color::Black, Color::Green),
                diff: Style::colored(Color::Fixed(BOLD_SILVER)),
                modified_unstaged: Style::colored(Color::Red),
                modified_staged: Style::colored(Color::Red),
                stash: Style::colored(Color::Yellow),
                untracked: Style::colored(Color::Fixed(GRAY)),
                unmerged: Style::colored(Color::Red),
                ..StyleSet::all_plain()
            }),
    {
        let mut s = StyleSet::new();
        s.branch = Style::intense(Color::Blue);
        s.commit = Style::on(Color::Black, Color::Green);
        s.diff = Style::normal(Color::Fixed(BOLD_SILVER));
        s.modified_unstaged = Style::normal(Color::Red);
        s.modified_staged = Style::normal(Color::Red);
        s.stash = Style::normal(Color::Yellow);
        s.untracked = Style::normal(Color::Fixed(GRAY));
        s.unmerged = Style::normal(Color::Red);
        s
    }

    /// The table of the simple format: a cyan branch and a red mark for a
    /// dirty tree; the rest plain.
    pub fn simple() -> (r: StyleSet)
        ensures
            r == (StyleSet {
                branch: Style::colored(Color::Fixed(CYAN)),
                dirty: Style::colored(Color::Red),
                ..StyleSet::all_plain()
            }),
    {
        let mut s = StyleSet::new();
        s.branch = Style::normal(Color::Fixed(CYAN));
        s.dirty = Style::normal(Color::Red);
        s
    }

    /// The style that the table gives to `name`.
    pub fn get(&self, name: StyleName) -> (r: Style)
        ensures
            r == self.style_of(name),
    {
        match name {
            StyleName::Plain => self.plain,
            StyleName::AheadBehind => self.ahead_behind,
            StyleName::Branch => self.branch,
            StyleName::BranchGlyph => self.branch_glyph,
            StyleName::Commit => self.commit,
            StyleName::Diff => self.diff,
            StyleName::Dirty => self.dirty,
            StyleName::ModifiedUnstaged => self.modified_unstaged,
            StyleName::ModifiedStaged => self.modified_staged,
            StyleName::Stash => self.stash,
            StyleName::Untracked => self.untracked,
            StyleName::Unmerged => self.unmerged,
            StyleName::Upstream => self.upstream,
        }
    }
}

} // verus!
