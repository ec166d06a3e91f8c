//! The status record: what one snapshot of a working tree says, as counts
//! and names.

use vstd::prelude::*;

verus! {

/// The changes of one area, staged or unstaged, counted by the kind of
/// change.
#[derive(Clone, Copy, Debug, PartialEq, Eq)]
pub struct AreaCounter {
    pub modified: u64,
    pub added: u64,
    pub deleted: u64,
    pub renamed: u64,
    pub copied: u64,
}

/// The counts of an `AreaCounter` as natural numbers.
pub struct Area {
    pub modified: nat,
    pub added: nat,
    pub deleted: nat,
    pub renamed: nat,
    pub copied: nat,
}

impl Area {
    /// The area in which nothing has changed.
    pub open spec fn empty() -> Area {
        Area { modified: 0, added: 0, deleted: 0, renamed: 0, copied: 0 }
    }

    /// The number of changes, of every kind.
    pub open spec fn total(self) -> nat {
        self.modified + self.added + self.deleted + self.renamed + self.copied
    }

    /// The count that the code `code` raises; zero for a code that raises
    /// none.
    pub open spec fn counted_by(self, code: char) -> nat {
        if code == 'M' || code == 'T' {
            self.modified
        } else if code == 'A' {
            self.added
        } else if code == 'D' {
            self.deleted
        } else if code == 'R' {
            self.renamed
        } else if code == 'C' {
            self.copied
        } else {
            0
        }
    }

    /// The area after one more change with the code `code`: `M` and `T`
    /// count as modified, `A` as added, `D` as deleted, `R` as renamed and
    /// `C` as copied; any other code counts as nothing.
    pub open spec fn bump(self, code: char) -> Area {
        if code == 'M' || code == 'T' {
            Area { modified: self.modified + 1, ..self }
        } else if code == 'A' {
            Area { added: self.added + 1, ..self }
        } else if code == 'D' {
            Area { deleted: self.deleted + 1, ..self }
        } else if code == 'R' {
            Area { renamed: self.renamed + 1, ..self }
        } else if code == 'C' {
            Area { copied: self.copied + 1, ..self }
        } else {
            self
        }
    }
}

impl View for AreaCounter {
    type V = Area;

    open spec fn view(&self) -> Area {
        Area {
            modified: self.modified as nat,
            added: self.added as nat,
            deleted: self.deleted as nat,
            renamed: self.renamed as nat,
            copied: self.copied as nat,
        }
    }
}

impl AreaCounter {
    /// A counter in which nothing has changed.
    pub fn new() -> (r: AreaCounter)
        ensures
            r@ == Area::empty(),
    {
        AreaCounter { modified: 0, added: 0, deleted: 0, renamed: 0, copied: 0 }
    }

    /// Counts one change by its one-character code. The count that the
    /// code raises must have room for one more; a code that raises none is
    /// always taken.
    pub fn parse_modified(&mut self, code: char)
        requires
            old(self)@.counted_by(code) < u64::MAX,
        ensures
            final(self)@ == old(self)@.bump(code),
    {
        if code == 'M' || code == 'T' {
            self.modified = self.modified + 1;
        } else if code == 'A' {
            self.added = self.added + 1;
        } else if code == 'D' {
            self.deleted = self.deleted + 1;
        } else if code == 'R' {
            self.renamed = self.renamed + 1;
        } else if code == 'C' {
            self.copied = self.copied + 1;
        }
    }

    /// Whether anything has changed in this area.
    pub fn has_changed(&self) -> (r: bool)
        ensures
            r == (self@.total() != 0),
    {
        self.modified != 0 || self.added != 0 || self.deleted != 0 || self.renamed != 0
            || self.copied != 0
    }

    /// The number of changes in this area. Five 64-bit counts always add up
    /// within 128 bits.
    pub fn total(&self) -> (r: u128)
        ensures
            r == self@.total(),
    {
        self.modified as u128 + self.added as u128 + self.deleted as u128 + self.renamed as u128
            + self.copied as u128
    }
}

/// What one status snapshot says of a working tree.
#[derive(Debug)]
pub struct StatusRecord {
    /// The current branch; a tag or short id where HEAD is detached.
    pub branch: Option<String>,
    /// The object id of HEAD, or `(initial)` before the first commit.
    pub commit: Option<String>,
    /// The upstream that the branch tracks.
    pub upstream: Option<String>,
    /// Commits that the branch is ahead of its upstream.
    pub ahead: u64,
    /// Commits that the branch is behind its upstream.
    pub behind: u64,
    /// Stash entries; zero until the stash log has been read.
    pub stashed: u64,
    /// Untracked files.
    pub untracked: u64,
    /// Unmerged files.
    pub unmerged: u64,
    /// Inserted lines of the unstaged diff; zero until it has been read.
    pub insertions: u128,
    /// Deleted lines of the unstaged diff; zero until it has been read.
    pub deletions: u128,
    /// Changes in the index.
    pub staged: AreaCounter,
    /// Changes in the working tree.
    pub unstaged: AreaCounter,
    /// Whether the stash log has been read into `stashed`.
    pub stash_known: bool,
    /// Whether the diff has been read into `insertions` and `deletions`.
    pub diff_known: bool,
}

/// A `StatusRecord` as names and natural numbers.
pub struct Status {
    pub branch: Option<Seq<char>>,
    pub commit: Option<Seq<char>>,
    pub upstream: Option<Seq<char>>,
    pub ahead: nat,
    pub behind: nat,
    pub stashed: nat,
    pub untracked: nat,
    pub unmerged: nat,
    pub insertions: nat,
    pub deletions: nat,
    pub staged: Area,
    pub unstaged: Area,
    pub stash_known: bool,
    pub diff_known: bool,
}

impl Status {
    /// The status of which nothing is known yet: no names, every count zero.
    pub open spec fn empty() -> Status {
        Status {
            branch: None,
            commit: None,
            upstream: None,
            ahead: 0,
            behind: 0,
            stashed: 0,
            untracked: 0,
            unmerged: 0,
            insertions: 0,
            deletions: 0,
            staged: Area::empty(),
            unstaged: Area::empty(),
            stash_known: false,
            diff_known: false,
        }
    }
}

/// The text of an optional string.
pub open spec fn opt_text(o: Option<String>) -> Option<Seq<char>> {
    match o {
        Some(s) => Some(s@),
        None => None,
    }
}

impl View for StatusRecord {
    type V = Status;

    open spec fn view(&self) -> Status {
        Status {
            branch: opt_text(self.branch),
            commit: opt_text(self.commit),
            upstream: opt_text(self.upstream),
            ahead: self.ahead as nat,
            behind: self.behind as nat,
            stashed: self.stashed as nat,
            untracked: self.untracked as nat,
            unmerged: self.unmerged as nat,
            insertions: self.insertions as nat,
            deletions: self.deletions as nat,
            staged: self.staged@,
            unstaged: self.unstaged@,
            stash_known: self.stash_known,
            diff_known: self.diff_known,
        }
    }
}

impl StatusRecord {
    /// The record of which nothing is known yet.
    pub fn new() -> (r: StatusRecord)
        ensures
            r@ == Status::empty(),
    {
        StatusRecord {
            branch: None,
            commit: None,
            upstream: None,
            ahead: 0,
            behind: 0,
            stashed: 0,
            untracked: 0,
            unmerged: 0,
            insertions: 0,
            deletions: 0,
            staged: AreaCounter::new(),
            unstaged: AreaCounter::new(),
            stash_known: false,
            diff_known: false,
        }
    }
}

} // verus!
