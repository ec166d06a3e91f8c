//! The status parser: fills a status record from the line-oriented,
//! space-separated status text.

use vstd::prelude::*;
use crate::number::{count_of, parse_count};
use crate::record::{Area, Status, StatusRecord};
use crate::text::{
    chars_of, is_text, lines, slice_of, split_lines, split_words, string_of, texts, words,
};

verus! {

/// Why a status text could not be read: a count in a `branch.ab` header
/// line is not a number.
#[derive(Clone, Copy, Debug, PartialEq, Eq, Structural)]
pub enum ParseError {
    /// The count of commits ahead is malformed.
    Ahead,
    /// The count of commits behind is malformed.
    Behind,
}

/// The text of an optional string slice.
pub open spec fn opt_str(o: Option<&str>) -> Option<Seq<char>> {
    match o {
        Some(s) => Some(s@),
        None => None,
    }
}

/// The word at position `i` of a line's words, if the line has that many.
pub open spec fn word_at(w: Seq<Seq<char>>, i: int) -> Option<Seq<char>> {
    if 0 <= i < w.len() {
        Some(w[i])
    } else {
        None
    }
}

/// The name shown for a detached HEAD: what the lookup found, or `unknown`
/// where it found nothing.
pub open spec fn detached_name_of(lookup: Option<Seq<char>>) -> Seq<char> {
    match lookup {
        Some(name) => name,
        None => "unknown"@,
    }
}

/// The branch that a `branch.head` line names: none without a word, the
/// looked-up name for the word `(detached)`, any other word as it stands.
pub open spec fn head_of(word: Option<Seq<char>>, lookup: Option<Seq<char>>) -> Option<Seq<char>> {
    match word {
        Some(h) => if h == "(detached)"@ {
            Some(detached_name_of(lookup))
        } else {
            Some(h)
        },
        None => None,
    }
}

/// The count of commits ahead that a word writes; zero without a word.
/// The outer `None` stands for a malformed word.
pub open spec fn ahead_of(word: Option<Seq<char>>) -> Option<nat> {
    match word {
        None => Some(0),
        Some(t) => match count_of(t) {
            Some(n) => Some(n as nat),
            None => None,
        },
    }
}

/// Whether `c` is a sign.
pub open spec fn is_sign(c: char) -> bool {
    c == '-' || c == '+'
}

/// The count of commits behind that a word writes: one sign, then a
/// count; zero without a word. The outer `None` stands for a malformed
/// word: one that begins with no sign, or whose rest writes no count.
pub open spec fn behind_of(word: Option<Seq<char>>) -> Option<nat> {
    match word {
        None => Some(0),
        Some(t) => if t.len() > 0 && is_sign(t[0]) {
            match count_of(t.skip(1)) {
                Some(n) => Some(n as nat),
                None => None,
            }
        } else {
            None
        },
    }
}

/// The status after a header line with the words `w`. The second word
/// selects what the line sets; an unknown selector sets nothing.
pub open spec fn read_header(r: Status, w: Seq<Seq<char>>, lookup: Option<Seq<char>>) -> Result<
    Status,
    ParseError,
> {
    let key = word_at(w, 1);
    if key == Some("branch.oid"@) {
        Ok(Status { commit: word_at(w, 2), ..r })
    } else if key == Some("branch.head"@) {
        Ok(Status { branch: head_of(word_at(w, 2), lookup), ..r })
    } else if key == Some("branch.upstream"@) {
        Ok(Status { upstream: word_at(w, 2), ..r })
    } else if key == Some("branch.ab"@) {
        match ahead_of(word_at(w, 2)) {
            None => Err(ParseError::Ahead),
            Some(a) => match behind_of(word_at(w, 3)) {
                None => Err(ParseError::Behind),
                Some(b) => Ok(Status { ahead: a, behind: b, ..r }),
            },
        }
    } else {
        Ok(r)
    }
}

/// An area after the change that the character at position `i` of a
/// tracked entry's code stands for; unchanged where the code is shorter.
pub open spec fn bump_at(a: Area, code: Seq<char>, i: int) -> Area {
    if 0 <= i < code.len() {
        a.bump(code[i])
    } else {
        a
    }
}

/// The status after a tracked-entry line with the words `w`: the first
/// character of the second word counts for the staged area, its second
/// character for the unstaged area.
pub open spec fn read_entry(r: Status, w: Seq<Seq<char>>) -> Status {
    match word_at(w, 1) {
        None => r,
        Some(code) => Status {
            staged: bump_at(r.staged, code, 0),
            unstaged: bump_at(r.unstaged, code, 1),
            ..r
        },
    }
}

/// The status after one line of status text. The first word tells the kind
/// of line; a line of no known kind changes nothing.
pub open spec fn read_line(r: Status, line: Seq<char>, lookup: Option<Seq<char>>) -> Result<
    Status,
    ParseError,
> {
    let w = words(line);
    let first = word_at(w, 0);
    if first == Some("#"@) {
        read_header(r, w, lookup)
    } else if first == Some("1"@) || first == Some("2"@) {
        Ok(read_entry(r, w))
    } else if first == Some("u"@) {
        Ok(Status { unmerged: r.unmerged + 1, ..r })
    } else if first == Some("?"@) {
        Ok(Status { untracked: r.untracked + 1, ..r })
    } else {
        Ok(r)
    }
}

/// The status after the lines `ls`, read in order from the status `r`. The
/// first malformed line ends the reading with its error.
pub open spec fn read_lines(r: Status, ls: Seq<Seq<char>>, lookup: Option<Seq<char>>) -> Result<
    Status,
    ParseError,
>
    decreases ls.len(),
{
    if ls.len() == 0 {
        Ok(r)
    } else {
        match read_lines(r, ls.drop_last(), lookup) {
            Err(e) => Err(e),
            Ok(before) => read_line(before, ls.last(), lookup),
        }
    }
}

/// What a status text says, given what the lookup for a detached HEAD
/// found.
pub open spec fn status_of(text: Seq<char>, lookup: Option<Seq<char>>) -> Result<
    Status,
    ParseError,
> {
    read_lines(Status::empty(), lines(text), lookup)
}

/// Whether every count that grows line by line is at most `k`.
pub open spec fn within(r: Status, k: nat) -> bool {
    &&& r.untracked <= k
    &&& r.unmerged <= k
    &&& r.staged.total() <= k
    &&& r.unstaged.total() <= k
}

/// One line raises each count of files and changes by at most one.
pub proof fn lemma_line_adds_at_most_one(
    r: Status,
    line: Seq<char>,
    lookup: Option<Seq<char>>,
    k: nat,
)
    requires
        within(r, k),
        read_line(r, line, lookup) is Ok,
    ensures
        within(read_line(r, line, lookup)->Ok_0, k + 1),
{
}

/// The text of an optional vector of characters.
pub open spec fn opt_chars(o: Option<&Vec<char>>) -> Option<Seq<char>> {
    match o {
        Some(v) => Some(v@),
        None => None,
    }
}

/// The word at position `i`, if there is one.
fn word_ref(w: &Vec<Vec<char>>, i: usize) -> (r: Option<&Vec<char>>)
    ensures
        opt_chars(r) == word_at(texts(w@), i as int),
{
    if i < w.len() {
        Some(&w[i])
    } else {
        None
    }
}

/// Whether the word at position `i` is there and reads `lit`.
fn word_is(w: &Vec<Vec<char>>, i: usize, lit: &str) -> (r: bool)
    ensures
        r == (word_at(texts(w@), i as int) == Some(lit@)),
{
    if i < w.len() {
        is_text(&w[i], lit)
    } else {
        false
    }
}

/// An owned string for an optional word.
fn owned(word: Option<&Vec<char>>) -> (r: Option<String>)
    ensures
        crate::record::opt_text(r) == opt_chars(word),
{
    match word {
        Some(v) => Some(string_of(v)),
        None => None,
    }
}

/// The branch that the word after `branch.head` names. `detached_name` is
/// what the lookup of a tag or short id found for a detached HEAD.
pub fn parse_head(head: Option<&Vec<char>>, detached_name: Option<&str>) -> (r: Option<String>)
    ensures
        crate::record::opt_text(r) == head_of(opt_chars(head), opt_str(detached_name)),
{
    match head {
        Some(h) => {
            if is_text(h, "(detached)") {
                match detached_name {
                    Some(name) => Some(name.to_owned()),
                    None => Some("unknown".to_owned()),
                }
            } else {
                Some(string_of(h))
            }
        },
        None => None,
    }
}

/// Reads the count of commits ahead from the word after `branch.ab`.
fn parse_ahead(word: Option<&Vec<char>>) -> (r: Option<u64>)
    ensures
        match r {
            Some(n) => ahead_of(opt_chars(word)) == Some(n as nat),
            None => ahead_of(opt_chars(word)) is None,
        },
{
    match word {
        None => Some(0),
        Some(t) => parse_count(t),
    }
}

/// Reads the count of commits behind from the second word after
/// `branch.ab`: its sign, then its count.
fn parse_behind(word: Option<&Vec<char>>) -> (r: Option<u64>)
    ensures
        match r {
            Some(n) => behind_of(opt_chars(word)) == Some(n as nat),
            None => behind_of(opt_chars(word)) is None,
        },
{
    match word {
        None => Some(0),
        Some(t) => {
            if t.len() > 0 && (t[0] == '-' || t[0] == '+') {
                let digits = slice_of(t, 1, t.len());
                assert(digits@ =~= t@.skip(1));
                parse_count(&digits)
            } else {
                None
            }
        },
    }
}

/// Applies a header line to `rec`; on an error `rec` stays as it was.
fn read_header_into(rec: &mut StatusRecord, w: &Vec<Vec<char>>, detached_name: Option<&str>) -> (r:
    Result<(), ParseError>)
    ensures
        match r {
            Ok(_) => read_header(old(rec)@, texts(w@), opt_str(detached_name)) == Ok::<
                Status,
                ParseError,
            >(final(rec)@),
            Err(e) => read_header(old(rec)@, texts(w@), opt_str(detached_name)) == Err::<
                Status,
                ParseError,
            >(e) && *final(rec) == *old(rec),
        },
{
    if word_is(w, 1, "branch.oid") {
        rec.commit = owned(word_ref(w, 2));
        Ok(())
    } else if word_is(w, 1, "branch.head") {
        rec.branch = parse_head(word_ref(w, 2), detached_name);
        Ok(())
    } else if word_is(w, 1, "branch.upstream") {
        rec.upstream = owned(word_ref(w, 2));
        Ok(())
    } else if word_is(w, 1, "branch.ab") {
        match parse_ahead(word_ref(w, 2)) {
            None => Err(ParseError::Ahead),
            Some(a) => match parse_behind(word_ref(w, 3)) {
                None => Err(ParseError::Behind),
                Some(b) => {
                    rec.ahead = a;
                    rec.behind = b;
                    Ok(())
                },
            },
        }
    } else {
        Ok(())
    }
}

/// Applies a tracked-entry line to `rec`.
fn read_entry_into(rec: &mut StatusRecord, w: &Vec<Vec<char>>)
    requires
        old(rec)@.staged.total() < u64::MAX,
        old(rec)@.unstaged.total() < u64::MAX,
    ensures
        final(rec)@ == read_entry(old(rec)@, texts(w@)),
{
    if 1 < w.len() {
        let code = &w[1];
        if 0 < code.len() {
            rec.staged.parse_modified(code[0]);
        }
        if 1 < code.len() {
            rec.unstaged.parse_modified(code[1]);
        }
    }
}

/// Applies one line of status text to `rec`; on an error `rec` stays as it
/// was.
fn read_line_into(rec: &mut StatusRecord, line: &Vec<char>, detached_name: Option<&str>) -> (r:
    Result<(), ParseError>)
    requires
        within(old(rec)@, (u64::MAX - 1) as nat),
    ensures
        match r {
            Ok(_) => read_line(old(rec)@, line@, opt_str(detached_name)) == Ok::<
                Status,
                ParseError,
            >(final(rec)@),
            Err(e) => read_line(old(rec)@, line@, opt_str(detached_name)) == Err::<
                Status,
                ParseError,
            >(e) && *final(rec) == *old(rec),
        },
{
    let w = split_words(line);
    if word_is(&w, 0, "#") {
        read_header_into(rec, &w, detached_name)
    } else if word_is(&w, 0, "1") || word_is(&w, 0, "2") {
        read_entry_into(rec, &w);
        Ok(())
    } else if word_is(&w, 0, "u") {
        rec.unmerged = rec.unmerged + 1;
        Ok(())
    } else if word_is(&w, 0, "?") {
        rec.untracked = rec.untracked + 1;
        Ok(())
    } else {
        Ok(())
    }
}

/// Reads a status text into a record. `detached_name` is what the lookup
/// of a tag or short id found for a detached HEAD; it is used only where
/// the text says that HEAD is detached.
pub fn parse_status(status_text: &str, detached_name: Option<&str>) -> (r: Result<
    StatusRecord,
    ParseError,
>)
    ensures
        match r {
            Ok(rec) => status_of(status_text@, opt_str(detached_name)) == Ok::<Status, ParseError>(
                rec@,
            ),
            Err(e) => status_of(status_text@, opt_str(detached_name)) == Err::<Status, ParseError>(
                e,
            ),
        },
{
    let text = chars_of(status_text);
    let ls = split_lines(&text);
    let ghost all = lines(status_text@);
    let ghost lookup = opt_str(detached_name);
    let mut rec = StatusRecord::new();
    let mut i: usize = 0;
    assert(all.take(0) =~= Seq::<Seq<char>>::empty());
    while i < ls.len()
        invariant
            i <= ls.len(),
            all == texts(ls@),
            all == lines(status_text@),
            lookup == opt_str(detached_name),
            read_lines(Status::empty(), all.take(i as int), lookup) == Ok::<Status, ParseError>(
                rec@,
            ),
            within(rec@, i as nat),
        decreases ls.len() - i,
    {
        let ghost before = rec@;
        let ghost upto = all.take(i + 1);
        proof {
            assert(upto.drop_last() =~= all.take(i as int));
            assert(upto.last() == ls@[i as int]@);
        }
        match read_line_into(&mut rec, &ls[i], detached_name) {
            Ok(_) => {
                proof {
                    lemma_line_adds_at_most_one(before, ls@[i as int]@, lookup, i as nat);
                }
            },
            Err(e) => {
                proof {
                    lemma_error_stays(Status::empty(), all, i + 1, lookup);
                    assert(all.take(all.len() as int) =~= all);
                }
                return Err(e);
            },
        }
        i += 1;
    }
    assert(all.take(i as int) =~= all);
    Ok(rec)
}

/// Once a prefix of the lines has failed, the whole fails with the same
/// error.
pub proof fn lemma_error_stays(r: Status, ls: Seq<Seq<char>>, k: int, lookup: Option<Seq<char>>)
    requires
        0 <= k <= ls.len(),
        read_lines(r, ls.take(k), lookup) is Err,
    ensures
        read_lines(r, ls, lookup) == read_lines(r, ls.take(k), lookup),
    decreases ls.len() - k,
{
    if k == ls.len() {
        assert(ls.take(k) =~= ls);
    } else {
        assert(ls.drop_last().take(k) =~= ls.take(k));
        lemma_error_stays(r, ls.drop_last(), k, lookup);
    }
}

/// Whether a line says that HEAD is detached: a `branch.head` header line
/// with the word `(detached)`.
pub open spec fn is_detached_line(line: Seq<char>) -> bool {
    let w = words(line);
    &&& word_at(w, 0) == Some("#"@)
    &&& word_at(w, 1) == Some("branch.head"@)
    &&& word_at(w, 2) == Some("(detached)"@)
}

/// Whether one of the lines `ls` says that HEAD is detached.
pub open spec fn mentions_detached(ls: Seq<Seq<char>>) -> bool {
    exists|i: int| 0 <= i < ls.len() && is_detached_line(#[trigger] ls[i])
}

/// Whether a status text says that HEAD is detached, so that the name to
/// show for it has to be looked up before the text is parsed.
pub fn head_is_detached(status_text: &str) -> (r: bool)
    ensures
        r == mentions_detached(lines(status_text@)),
{
    let text = chars_of(status_text);
    let ls = split_lines(&text);
    let ghost all = lines(status_text@);
    let mut i: usize = 0;
    while i < ls.len()
        invariant
            i <= ls.len(),
            all == texts(ls@),
            all == lines(status_text@),
            forall|j: int| 0 <= j < i ==> !is_detached_line(#[trigger] all[j]),
        decreases ls.len() - i,
    {
        let w = split_words(&ls[i]);
        assert(all[i as int] == ls@[i as int]@);
        if word_is(&w, 0, "#") && word_is(&w, 1, "branch.head") && word_is(&w, 2, "(detached)") {
            assert(is_detached_line(all[i as int]));
            return true;
        }
        i += 1;
    }
    false
}

/// A line that does not say that HEAD is detached reads the same whatever
/// the lookup found.
pub proof fn lemma_line_without_detached(
    r: Status,
    line: Seq<char>,
    a: Option<Seq<char>>,
    b: Option<Seq<char>>,
)
    requires
        !is_detached_line(line),
    ensures
        read_line(r, line, a) == read_line(r, line, b),
{
}

/// Where the lines never say that HEAD is detached, what the lookup found
/// plays no part in the result.
pub proof fn lemma_lookup_unused(
    r: Status,
    ls: Seq<Seq<char>>,
    a: Option<Seq<char>>,
    b: Option<Seq<char>>,
)
    requires
        !mentions_detached(ls),
    ensures
        read_lines(r, ls, a) == read_lines(r, ls, b),
    decreases ls.len(),
{
    if ls.len() > 0 {
        let front = ls.drop_last();
        assert forall|i: int| 0 <= i < front.len() implies !is_detached_line(
            #[trigger] front[i],
        ) by {
            assert(front[i] == ls[i]);
        }
        lemma_lookup_unused(r, front, a, b);
        assert(ls.last() == ls[ls.len() - 1]);
        match read_lines(r, front, a) {
            Ok(before) => {
                lemma_line_without_detached(before, ls.last(), a, b);
            },
            Err(_) => {},
        }
    }
}

/// A status text that never says that HEAD is detached reads the same
/// whatever the lookup found: the lookup is needed for a detached HEAD
/// alone.
pub proof fn lemma_lookup_only_for_detached(
    text: Seq<char>,
    a: Option<Seq<char>>,
    b: Option<Seq<char>>,
)
    requires
        !mentions_detached(lines(text)),
    ensures
        status_of(text, a) == status_of(text, b),
{
    lemma_lookup_unused(Status::empty(), lines(text), a, b);
}

} // verus!
