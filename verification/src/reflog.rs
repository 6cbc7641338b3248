//! The reflog: the command that prints it, the decoder of its output and
//! the filter by operation.

use vstd::prelude::*;
use vstd::string::*;
use crate::text::{chars_of, string_of, string_of_range, rows};
use crate::search::{find_str, find_sub, contains_str};
use crate::split::{lines, split_lines, split, split_all};
use crate::number::decimal;
use crate::command::{GitCommand, GitCommandView, numbered};

verus! {

/// One movement of `HEAD`.
#[derive(Debug, Clone)]
pub struct ReflogEntry {
    /// The number of the line that the entry was read from, counted from 0.
    pub index: usize,
    pub hash: String,
    pub short_hash: String,
    /// What moved `HEAD`: `commit`, `reset`, `checkout` and the like.
    pub operation: String,
    pub message: String,
    pub date: String}

/// The mathematical value of a `ReflogEntry`.
pub struct ReflogEntryView {
    pub index: int,
    pub hash: Seq<char>,
    pub short_hash: Seq<char>,
    pub operation: Seq<char>,
    pub message: Seq<char>,
    pub date: Seq<char>}

impl View for ReflogEntry {
    type V = ReflogEntryView;

    open spec fn view(&self) -> ReflogEntryView {
        ReflogEntryView {
            index: self.index as int,
            hash: self.hash@,
            short_hash: self.short_hash@,
            operation: self.operation@,
            message: self.message@,
            date: self.date@}
    }
}

impl DeepView for ReflogEntry {
    type V = ReflogEntryView;

    open spec fn deep_view(&self) -> ReflogEntryView {
        self@
    }
}

// ---------------------------------------------------------------------------
// The command
// ---------------------------------------------------------------------------

/// The arguments that print the last `count` entries of the reflog: hash,
/// short hash, subject and date in words, with the unit separator between
/// them.
pub open spec fn reflog_args(count: nat) -> Seq<Seq<char>> {
    seq!["reflog"@, "-"@ + decimal(count), "--format=%H\x1f%h\x1f%gs\x1f%ar"@]
}

/// The command that prints the last `count` entries of the reflog.
pub fn reflog_command(count: usize) -> (c: GitCommand)
    ensures
        c@ == (GitCommandView { args: reflog_args(count as nat), stdin: None }),
{
    let mut args: Vec<String> = Vec::new();
    args.push(String::from_str("reflog"));
    args.push(numbered("-", count));
    args.push(String::from_str("--format=%H\x1f%h\x1f%gs\x1f%ar"));
    assert(args.deep_view() =~= reflog_args(count as nat));
    GitCommand { args, stdin: None }
}

// ---------------------------------------------------------------------------
// The decoder
// ---------------------------------------------------------------------------

/// The operation of a reflog subject: the text before its first `": "`,
/// or all of it where it holds none.
pub open spec fn subject_operation(subject: Seq<char>) -> Seq<char> {
    match find_str(subject, ": "@) {
        Some(k) => subject.take(k),
        None => subject}
}

/// The message of a reflog subject: the text behind its first `": "`, or
/// nothing where it holds none.
pub open spec fn subject_message(subject: Seq<char>) -> Seq<char> {
    match find_str(subject, ": "@) {
        Some(k) => subject.skip(k + ": "@.len()),
        None => Seq::empty()}
}

/// A subject that holds `": "` is its operation, `": "` and its message;
/// one that holds none is its operation alone.
pub proof fn lemma_subject_parts(subject: Seq<char>)
    ensures
        find_str(subject, ": "@) is Some ==> subject == subject_operation(subject) + ": "@
            + subject_message(subject),
        find_str(subject, ": "@) is Some ==> !contains_str(subject_operation(subject), ": "@),
        find_str(subject, ": "@) is None ==> subject_operation(subject) == subject
            && subject_message(subject).len() == 0,
{
    reveal_strlit(": ");
    crate::search::lemma_find_str_from(subject, ": "@, 0);
    match find_str(subject, ": "@) {
        Some(k) => {
            let mark = ": "@;
            assert(crate::search::occurs_at(subject, mark, k));
            assert(subject =~= subject.take(k) + mark + subject.skip(k + mark.len()));
            let operation = subject.take(k);
            crate::search::lemma_find_str_from(operation, mark, 0);
            if find_str(operation, mark) is Some {
                let j = find_str(operation, mark)->0;
                assert(crate::search::occurs_at(operation, mark, j));
                assert(operation.subrange(j, j + mark.len()) =~= subject.subrange(
                    j,
                    j + mark.len(),
                ));
                assert(crate::search::occurs_at(subject, mark, j));
                assert(j < k);
            }
        },
        None => {},
    }
}

/// The entry of the reflog line with the number `i`: its four fields are
/// parted by unit separators. A line of fewer fields gives no entry.
pub open spec fn reflog_line_entry(line: Seq<char>, i: int) -> Option<ReflogEntryView> {
    let parts = split(line, '\x1f');
    if parts.len() < 4 {
        None
    } else {
        Some(
            ReflogEntryView {
                index: i,
                hash: parts[0],
                short_hash: parts[1],
                operation: subject_operation(parts[2]),
                message: subject_message(parts[2]),
                date: parts[3]},
        )
    }
}

/// The entries of the first `n` lines of a reflog.
pub open spec fn reflog_scan(lines: Seq<Seq<char>>, n: nat) -> Seq<ReflogEntryView>
    decreases n,
{
    if n == 0 {
        Seq::empty()
    } else {
        let before = reflog_scan(lines, (n - 1) as nat);
        match reflog_line_entry(lines[n - 1], n - 1) {
            Some(e) => before.push(e),
            None => before}
    }
}

/// The entries that the output of `git reflog` describes.
pub open spec fn decode_reflog(output: Seq<char>) -> Seq<ReflogEntryView> {
    reflog_scan(lines(output), lines(output).len())
}

fn reflog_line(line: &Vec<char>, i: usize) -> (entry: Option<ReflogEntry>)
    ensures
        entry.deep_view() == reflog_line_entry(line@, i as int),
{
    let parts = split_all(line, '\x1f');
    if parts.len() < 4 {
        return None;
    }
    assert(forall|j: int| 0 <= j < 4 ==> rows(parts@)[j] == parts@[j]@);
    let subject = &parts[2];
    let mark = chars_of(": ");
    let (operation, message) = match find_sub(subject, &mark, 0) {
        Some(k) => {
            assert(subject@.take(k as int) =~= subject@.subrange(0, k as int));
            assert(subject@.skip(k + mark.len()) =~= subject@.subrange(
                k + mark.len(),
                subject.len() as int,
            ));
            (
                string_of_range(subject, 0, k),
                string_of_range(subject, k + mark.len(), subject.len()),
            )
        },
        None => (string_of(subject), String::new())};
    Some(
        ReflogEntry {
            index: i,
            hash: string_of(&parts[0]),
            short_hash: string_of(&parts[1]),
            operation,
            message,
            date: string_of(&parts[3])},
    )
}

/// Decodes the output of `git reflog` with the reflog format of this crate.
pub fn get_reflog(output: &str) -> (entries: Vec<ReflogEntry>)
    ensures
        entries.deep_view() == decode_reflog(output@),
{
    let text = chars_of(output);
    let all = split_lines(&text);
    let mut entries: Vec<ReflogEntry> = Vec::new();
    assert(entries.deep_view() =~= Seq::<ReflogEntryView>::empty());
    let mut i: usize = 0;
    while i < all.len()
        invariant
            i <= all.len(),
            rows(all@) == lines(output@),
            entries.deep_view() == reflog_scan(rows(all@), i as nat),
        decreases all.len() - i,
    {
        assert(rows(all@)[i as int] == all@[i as int]@);
        let ghost before = entries.deep_view();
        match reflog_line(&all[i], i) {
            Some(e) => {
                entries.push(e);
                assert(entries.deep_view() =~= before.push(e@));
            },
            None => {}}
        i += 1;
    }
    entries
}

// ---------------------------------------------------------------------------
// The filter
// ---------------------------------------------------------------------------

/// The lower-case form of a text, as std's `str::to_lowercase` gives it.
pub uninterp spec fn lowercase(s: Seq<char>) -> Seq<char>;

/// `str::to_lowercase` of std returns the lower-case form of the string.
pub assume_specification[ str::to_lowercase ](s: &str) -> (r: String)
    ensures
        r@ == lowercase(s@),
;

/// The entry's operation holds the query, both in lower case.
pub open spec fn operation_holds(e: ReflogEntryView, query: Seq<char>) -> bool {
    contains_str(lowercase(e.operation), lowercase(query))
}

/// Those of the first `n` entries whose operation holds the query.
pub open spec fn filtered_upto(entries: Seq<ReflogEntryView>, query: Seq<char>, n: nat) -> Seq<
    ReflogEntryView,
>
    decreases n,
{
    if n == 0 {
        Seq::empty()
    } else {
        let before = filtered_upto(entries, query, (n - 1) as nat);
        if operation_holds(entries[n - 1], query) {
            before.push(entries[n - 1])
        } else {
            before
        }
    }
}

/// Does the operation hold the query? Both are given in lower case.
pub fn operation_matches(lowered_operation: &str, lowered_query: &str) -> (b: bool)
    ensures
        b == contains_str(lowered_operation@, lowered_query@),
{
    let text = chars_of(lowered_operation);
    let wanted = chars_of(lowered_query);
    find_sub(&text, &wanted, 0).is_some()
}

fn copy_of(e: &ReflogEntry) -> (r: ReflogEntry)
    ensures
        r@ == e@,
{
    ReflogEntry {
        index: e.index,
        hash: e.hash.clone(),
        short_hash: e.short_hash.clone(),
        operation: e.operation.clone(),
        message: e.message.clone(),
        date: e.date.clone()}
}

/// The entries whose operation holds `operation`, whatever the case of
/// the letters, in their order.
pub fn filter_reflog(entries: &[ReflogEntry], operation: &str) -> (kept: Vec<ReflogEntry>)
    ensures
        kept.deep_view() == filtered_upto(entries.deep_view(), operation@, entries@.len()),
{
    let wanted = operation.to_lowercase();
    let mut kept: Vec<ReflogEntry> = Vec::new();
    assert(kept.deep_view() =~= Seq::<ReflogEntryView>::empty());
    let mut i: usize = 0;
    while i < entries.len()
        invariant
            i <= entries.len(),
            wanted@ == lowercase(operation@),
            kept.deep_view() == filtered_upto(entries.deep_view(), operation@, i as nat),
        decreases entries.len() - i,
    {
        let e = &entries[i];
        assert(entries.deep_view()[i as int] == e@);
        let lowered = e.operation.as_str().to_lowercase();
        let ghost before = kept.deep_view();
        if operation_matches(lowered.as_str(), wanted.as_str()) {
            let copy = copy_of(e);
            kept.push(copy);
            assert(kept.deep_view() =~= before.push(e@));
        }
        i += 1;
    }
    kept
}

} // verus!
