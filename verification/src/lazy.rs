//! The lazy fields of a status record: the stash count and the diff line
//! counts. They cost a read each, so they are read only where the template
//! asks for them, and at most once for a record.

use vstd::prelude::*;
use crate::number::{count_of, parse_count};
use crate::parser::{opt_str, word_at};
use crate::record::{Status, StatusRecord};
use crate::render::RenderMode;
use crate::template::Opt;
use crate::text::{chars_of, lines, split_lines, split_words, texts, words};

verus! {

/// The count in column `col` of a line of diff statistics with the words
/// `w`; zero where the column is missing or holds no count.
pub open spec fn numstat_field(w: Seq<Seq<char>>, col: int) -> nat {
    match word_at(w, col) {
        Some(t) => match count_of(t) {
            Some(n) => n as nat,
            None => 0,
        },
        None => 0,
    }
}

/// The sum of column `col` over the lines `ls` of diff statistics.
pub open spec fn numstat_sum(ls: Seq<Seq<char>>, col: int) -> nat
    decreases ls.len(),
{
    if ls.len() == 0 {
        0
    } else {
        numstat_sum(ls.drop_last(), col) + numstat_field(words(ls.last()), col)
    }
}

/// The inserted lines that a text of diff statistics adds up to: the sum
/// of its first column.
pub open spec fn insertions_of(text: Seq<char>) -> nat {
    numstat_sum(lines(text), 0)
}

/// The deleted lines that a text of diff statistics adds up to: the sum of
/// its second column.
pub open spec fn deletions_of(text: Seq<char>) -> nat {
    numstat_sum(lines(text), 1)
}

/// The count in column `col` of a line of diff statistics.
fn numstat_count(w: &Vec<Vec<char>>, col: usize) -> (r: u64)
    ensures
        r == numstat_field(texts(w@), col as int),
{
    if col < w.len() {
        match parse_count(&w[col]) {
            Some(n) => n,
            None => 0,
        }
    } else {
        0
    }
}

/// Adds up a text of diff statistics, one line for each file with its
/// inserted lines, its deleted lines and its path: the inserted and the
/// deleted lines of all files.
pub fn parse_numstat(numstat: &str) -> (r: (u128, u128))
    ensures
        r.0 == insertions_of(numstat@),
        r.1 == deletions_of(numstat@),
{
    let text = chars_of(numstat);
    let ls = split_lines(&text);
    let ghost all = lines(numstat@);
    let mut insertions: u128 = 0;
    let mut deletions: u128 = 0;
    let mut i: usize = 0;
    assert(all.take(0) =~= Seq::<Seq<char>>::empty());
    while i < ls.len()
        invariant
            i <= ls.len(),
            all == texts(ls@),
            all == lines(numstat@),
            insertions == numstat_sum(all.take(i as int), 0),
            deletions == numstat_sum(all.take(i as int), 1),
            insertions <= i * u64::MAX,
            deletions <= i * u64::MAX,
        decreases ls.len() - i,
    {
        let w = split_words(&ls[i]);
        let a = numstat_count(&w, 0);
        let b = numstat_count(&w, 1);
        proof {
            assert(all.take(i + 1).drop_last() =~= all.take(i as int));
            assert(all.take(i + 1).last() == ls@[i as int]@);
            assert((i + 1) * u64::MAX == i * u64::MAX + u64::MAX) by (nonlinear_arith);
            assert((i + 1) * u64::MAX <= u128::MAX) by (nonlinear_arith)
                requires
                    i + 1 <= u64::MAX,
            ;
        }
        insertions = insertions + a as u128;
        deletions = deletions + b as u128;
        i += 1;
    }
    assert(all.take(i as int) =~= all);
    (insertions, deletions)
}

/// The number of entries that a stash log holds: one for each of its
/// lines.
pub open spec fn stash_count_of(log: Seq<char>) -> nat {
    lines(log).len()
}

/// Counts the entries of a stash log.
pub fn count_stash(log: &str) -> (r: u64)
    ensures
        r == stash_count_of(log@),
{
    let text = chars_of(log);
    let ls = split_lines(&text);
    assert(texts(ls@).len() == ls@.len());
    ls.len() as u64
}

/// Whether the stash log still has to be read: the template asks for the
/// stash, and the log has not been read for this record.
pub open spec fn wants_stash(r: Status, opts: Opt) -> bool {
    opts.show_stashed && !r.stash_known
}

/// Whether the diff still has to be read: the template asks for it with
/// counts, the unstaged area has changes, and the diff has neither been
/// read for this record nor left a count in it.
pub open spec fn wants_diff(r: Status, opts: Opt, mode: RenderMode) -> bool {
    &&& opts.show_diff
    &&& !mode.indicators_only
    &&& r.unstaged.total() != 0
    &&& !r.diff_known
    &&& r.insertions == 0
    &&& r.deletions == 0
}

/// The status once the stash log has been read and held `n` entries.
pub open spec fn with_stash(r: Status, n: nat) -> Status {
    Status { stashed: n, stash_known: true, ..r }
}

/// The status once the diff has been read and added up to `insertions`
/// and `deletions`.
pub open spec fn with_diff(r: Status, insertions: nat, deletions: nat) -> Status {
    Status { insertions: insertions, deletions: deletions, diff_known: true, ..r }
}

/// The entries of a stash log that may be missing: none without a log.
pub open spec fn stash_of(log: Option<Seq<char>>) -> nat {
    match log {
        Some(text) => stash_count_of(text),
        None => 0,
    }
}

/// The inserted and deleted lines of diff statistics that may be missing:
/// none without them.
pub open spec fn diff_of(numstat: Option<Seq<char>>) -> (nat, nat) {
    match numstat {
        Some(text) => (insertions_of(text), deletions_of(text)),
        None => (0, 0),
    }
}

impl StatusRecord {
    /// Whether the stash log still has to be read before rendering.
    pub fn needs_stash(&self, opts: &Opt) -> (r: bool)
        ensures
            r == wants_stash(self@, *opts),
    {
        opts.show_stashed && !self.stash_known
    }

    /// Whether the diff still has to be read before rendering.
    pub fn needs_diff(&self, opts: &Opt, mode: RenderMode) -> (r: bool)
        ensures
            r == wants_diff(self@, *opts, mode),
    {
        opts.show_diff && !mode.indicators_only && self.unstaged.has_changed() && !self.diff_known
            && self.insertions == 0 && self.deletions == 0
    }

    /// Takes in the stash log, or its absence where it could not be read:
    /// the record then holds the number of its entries and knows the stash.
    pub fn git_stash(&mut self, log: Option<&str>)
        ensures
            final(self)@ == with_stash(old(self)@, stash_of(opt_str(log))),
    {
        self.stashed = match log {
            Some(text) => count_stash(text),
            None => 0,
        };
        self.stash_known = true;
    }

    /// Takes in the diff statistics, or their absence where they could not
    /// be read: the record then holds their sums and knows the diff.
    pub fn git_diff_numstat(&mut self, numstat: Option<&str>)
        ensures
            final(self)@ == with_diff(
                old(self)@,
                diff_of(opt_str(numstat)).0,
                diff_of(opt_str(numstat)).1,
            ),
    {
        match numstat {
            Some(text) => {
                let sums = parse_numstat(text);
                self.insertions = sums.0;
                self.deletions = sums.1;
            },
            None => {
                self.insertions = 0;
                self.deletions = 0;
            },
        }
        self.diff_known = true;
    }
}

/// The status after the reads that it still wants under the options
/// `opts` and the mode `mode`: the stash log with `n` entries where it
/// wants the stash, then the diff with its sums where it wants the diff.
pub open spec fn after_reads(
    r: Status,
    opts: Opt,
    mode: RenderMode,
    n: nat,
    insertions: nat,
    deletions: nat,
) -> Status {
    let known = if wants_stash(r, opts) {
        with_stash(r, n)
    } else {
        r
    };
    if wants_diff(known, opts, mode) {
        with_diff(known, insertions, deletions)
    } else {
        known
    }
}

/// The lazy fields are read at most once: a record that has taken in the
/// stash log asks for it no more, one that has taken in the diff asks for
/// that no more, and neither reading touches what the other one reads.
pub proof fn lemma_read_once(
    r: Status,
    opts: Opt,
    mode: RenderMode,
    n: nat,
    insertions: nat,
    deletions: nat,
)
    ensures
        !wants_stash(with_stash(r, n), opts),
        !wants_diff(with_diff(r, insertions, deletions), opts, mode),
        wants_diff(with_stash(r, n), opts, mode) == wants_diff(r, opts, mode),
        wants_stash(with_diff(r, insertions, deletions), opts) == wants_stash(r, opts),
{
}

/// Rendering a record a second time shows what the first time showed: once
/// a record has had the reads that it wanted, it wants none, so whatever
/// the stash log and the diff would say by then, the record stays as it
/// is, and with it the pieces that it renders to.
pub proof fn lemma_second_rendering(
    r: Status,
    t: Seq<char>,
    mode: RenderMode,
    first: (nat, nat, nat),
    second: (nat, nat, nat),
)
    ensures
        ({
            let opts = crate::template::options_of(t);
            let once = after_reads(r, opts, mode, first.0, first.1, first.2);
            let twice = after_reads(once, opts, mode, second.0, second.1, second.2);
            &&& !wants_stash(once, opts)
            &&& !wants_diff(once, opts, mode)
            &&& twice == once
            &&& crate::render::rendering(twice, t, mode) == crate::render::rendering(once, t, mode)
        }),
{
}

} // verus!
