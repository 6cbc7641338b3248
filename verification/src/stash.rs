//! Stashes: the decoder of the stash list and the commands that make,
//! restore and drop stashes.

use vstd::prelude::*;
use vstd::string::*;
use crate::text::{chars_of, string_of, string_of_range, rows};
use crate::search::{starts_with, has_prefix, find_from, find_char};
use crate::split::{lines, split_lines, splitn, split_fields, trim, trimmed};
use crate::number::decimal;
use crate::command::{GitCommand, GitCommandView, numbered, strings_of};

verus! {

/// One stash.
#[derive(Debug, Clone)]
pub struct StashEntry {
    /// The number of the line that the stash was read from, counted from 0.
    pub index: usize,
    /// The branch that the stash was made on, where its message tells.
    pub branch: String,
    pub message: String}

/// The mathematical value of a `StashEntry`.
pub struct StashEntryView {
    pub index: int,
    pub branch: Seq<char>,
    pub message: Seq<char>}

impl View for StashEntry {
    type V = StashEntryView;

    open spec fn view(&self) -> StashEntryView {
        StashEntryView { index: self.index as int, branch: self.branch@, message: self.message@ }
    }
}

impl DeepView for StashEntry {
    type V = StashEntryView;

    open spec fn deep_view(&self) -> StashEntryView {
        self@
    }
}

// ---------------------------------------------------------------------------
// The branch of a stash
// ---------------------------------------------------------------------------

/// The branch that a message names behind `prefix`: the text between the
/// prefix and the first colon behind it.
pub open spec fn branch_behind(message: Seq<char>, prefix: Seq<char>) -> Option<Seq<char>> {
    if starts_with(message, prefix) {
        let rest = message.skip(prefix.len() as int);
        let colon = find_from(rest, ':', 0);
        if colon < rest.len() {
            Some(rest.take(colon))
        } else {
            None
        }
    } else {
        None
    }
}

/// The branch that a stash message names: behind `WIP on `, `On ` or
/// `index on `, whichever comes first with a colon behind it; nothing where
/// none does.
pub open spec fn stash_branch(message: Seq<char>) -> Seq<char> {
    match branch_behind(message, "WIP on "@) {
        Some(b) => b,
        None => match branch_behind(message, "On "@) {
            Some(b) => b,
            None => match branch_behind(message, "index on "@) {
                Some(b) => b,
                None => Seq::empty()}}}
}

fn branch_after(message: &Vec<char>, prefix: &str) -> (r: Option<String>)
    ensures
        r.deep_view() == branch_behind(message@, prefix@),
{
    if has_prefix(message, prefix) {
        let mark = chars_of(prefix);
        let rest = crate::text::subvec(message, mark.len(), message.len());
        assert(rest@ =~= message@.skip(mark.len() as int));
        let colon = find_char(&rest, ':', 0);
        if colon < rest.len() {
            assert(rest@.take(colon as int) =~= rest@.subrange(0, colon as int));
            Some(string_of_range(&rest, 0, colon))
        } else {
            None
        }
    } else {
        None
    }
}

fn branch_of(message: &Vec<char>) -> (branch: String)
    ensures
        branch@ == stash_branch(message@),
{
    match branch_after(message, "WIP on ") {
        Some(b) => b,
        None => match branch_after(message, "On ") {
            Some(b) => b,
            None => match branch_after(message, "index on ") {
                Some(b) => b,
                None => String::new()}}}
}

/// The branch that a stash message names.
pub fn extract_branch(message: &str) -> (branch: String)
    ensures
        branch@ == stash_branch(message@),
{
    branch_of(&chars_of(message))
}

// ---------------------------------------------------------------------------
// The stash list
// ---------------------------------------------------------------------------

/// The message of a line `name|message` of the stash list: the text behind
/// the first `|`, or the whole line where it holds none.
pub open spec fn stash_message(line: Seq<char>) -> Seq<char> {
    let parts = splitn(line, '|', 2);
    if parts.len() > 1 {
        parts[1]
    } else {
        line
    }
}

/// The entry of the line with the number `i` of the stash list. The line
/// is read without the white space at its ends; a blank line gives none.
pub open spec fn stash_line_entry(line: Seq<char>, i: int) -> Option<StashEntryView> {
    let text = trim(line);
    if text.len() == 0 {
        None
    } else {
        Some(
            StashEntryView {
                index: i,
                branch: stash_branch(stash_message(text)),
                message: stash_message(text)},
        )
    }
}

/// The entries of the first `n` lines of a stash list.
pub open spec fn stash_scan(lines: Seq<Seq<char>>, n: nat) -> Seq<StashEntryView>
    decreases n,
{
    if n == 0 {
        Seq::empty()
    } else {
        let before = stash_scan(lines, (n - 1) as nat);
        match stash_line_entry(lines[n - 1], n - 1) {
            Some(e) => before.push(e),
            None => before}
    }
}

/// The stashes that the output of `git stash list --format=%gd|%gs` shows.
pub open spec fn decode_stashes(output: Seq<char>) -> Seq<StashEntryView> {
    stash_scan(lines(output), lines(output).len())
}

fn stash_line(line: &Vec<char>, i: usize) -> (entry: Option<StashEntry>)
    ensures
        entry.deep_view() == stash_line_entry(line@, i as int),
{
    let text = trimmed(line);
    if text.len() == 0 {
        return None;
    }
    let parts = split_fields(&text, '|', 2);
    let message: Vec<char> = if parts.len() > 1 {
        assert(rows(parts@)[1] == parts@[1]@);
        crate::text::subvec(&parts[1], 0, parts[1].len())
    } else {
        text
    };
    assert(message@ =~= stash_message(trim(line@)));
    Some(StashEntry { index: i, branch: branch_of(&message), message: string_of(&message) })
}

/// The command whose output `list_stashes` decodes.
pub fn stash_list_command() -> (c: GitCommand)
    ensures
        c@ == (GitCommandView {
            args: seq!["stash"@, "list"@, "--format=%gd|%gs"@],
            stdin: None,
        }),
{
    let args = strings_of(vec!["stash", "list", "--format=%gd|%gs"]);
    assert(args.deep_view() =~= seq!["stash"@, "list"@, "--format=%gd|%gs"@]);
    GitCommand { args, stdin: None }
}

/// Decodes the output of `git stash list --format=%gd|%gs`.
pub fn list_stashes(output: &str) -> (entries: Vec<StashEntry>)
    ensures
        entries.deep_view() == decode_stashes(output@),
{
    let text = chars_of(output);
    let all = split_lines(&text);
    let mut entries: Vec<StashEntry> = Vec::new();
    assert(entries.deep_view() =~= Seq::<StashEntryView>::empty());
    let mut i: usize = 0;
    while i < all.len()
        invariant
            i <= all.len(),
            rows(all@) == lines(output@),
            entries.deep_view() == stash_scan(rows(all@), i as nat),
        decreases all.len() - i,
    {
        assert(rows(all@)[i as int] == all@[i as int]@);
        let ghost before = entries.deep_view();
        match stash_line(&all[i], i) {
            Some(e) => {
                entries.push(e);
                assert(entries.deep_view() =~= before.push(e@));
            },
            None => {}}
        i += 1;
    }
    entries
}

// ---------------------------------------------------------------------------
// The commands
// ---------------------------------------------------------------------------

/// The name of the stash with the number `index`: `stash@{index}`.
pub open spec fn stash_ref(index: nat) -> Seq<char> {
    "stash@{"@ + decimal(index) + "}"@
}

fn stash_ref_of(index: usize) -> (r: String)
    ensures
        r@ == stash_ref(index as nat),
{
    let mut r = numbered("stash@{", index);
    r.append("}");
    r
}

/// The arguments that make a stash: with the message, where one is given
/// that is not empty.
pub open spec fn stash_push_args(message: Option<Seq<char>>) -> Seq<Seq<char>> {
    match message {
        Some(m) => if m.len() > 0 {
            seq!["stash"@, "push"@, "-m"@, m]
        } else {
            seq!["stash"@, "push"@]
        },
        None => seq!["stash"@, "push"@]}
}

/// The command that makes a stash.
pub fn stash_push(message: Option<&str>) -> (c: GitCommand)
    ensures
        c@ == (GitCommandView {
            args: stash_push_args(
                match message {
                    Some(m) => Some(m@),
                    None => None},
            ),
            stdin: None}),
{
    let mut args: Vec<String> = Vec::new();
    args.push(String::from_str("stash"));
    args.push(String::from_str("push"));
    match message {
        Some(m) => {
            if !m.is_empty() {
                args.push(String::from_str("-m"));
                args.push(String::from_str(m));
                assert(args.deep_view() =~= seq!["stash"@, "push"@, "-m"@, m@]);
            } else {
                assert(args.deep_view() =~= seq!["stash"@, "push"@]);
            }
        },
        None => {
            assert(args.deep_view() =~= seq!["stash"@, "push"@]);
        }}
    GitCommand { args, stdin: None }
}

fn stash_verb(verb: &str, index: usize) -> (c: GitCommand)
    ensures
        c@ == (GitCommandView {
            args: seq!["stash"@, verb@, stash_ref(index as nat)],
            stdin: None}),
{
    let mut args: Vec<String> = Vec::new();
    args.push(String::from_str("stash"));
    args.push(String::from_str(verb));
    args.push(stash_ref_of(index));
    assert(args.deep_view() =~= seq!["stash"@, verb@, stash_ref(index as nat)]);
    GitCommand { args, stdin: None }
}

/// The command that restores the stash `index` and drops it.
pub fn stash_pop(index: usize) -> (c: GitCommand)
    ensures
        c@ == (GitCommandView {
            args: seq!["stash"@, "pop"@, stash_ref(index as nat)],
            stdin: None}),
{
    stash_verb("pop", index)
}

/// The command that restores the stash `index` and keeps it.
pub fn stash_apply(index: usize) -> (c: GitCommand)
    ensures
        c@ == (GitCommandView {
            args: seq!["stash"@, "apply"@, stash_ref(index as nat)],
            stdin: None}),
{
    stash_verb("apply", index)
}

/// The command that drops the stash `index`.
pub fn stash_drop(index: usize) -> (c: GitCommand)
    ensures
        c@ == (GitCommandView {
            args: seq!["stash"@, "drop"@, stash_ref(index as nat)],
            stdin: None}),
{
    stash_verb("drop", index)
}

/// The command that shows the stash `index` as a patch.
pub fn stash_show(index: usize) -> (c: GitCommand)
    ensures
        c@ == (GitCommandView {
            args: seq!["stash"@, "show"@, "-p"@, stash_ref(index as nat)],
            stdin: None}),
{
    let mut args: Vec<String> = Vec::new();
    args.push(String::from_str("stash"));
    args.push(String::from_str("show"));
    args.push(String::from_str("-p"));
    args.push(stash_ref_of(index));
    assert(args.deep_view() =~= seq!["stash"@, "show"@, "-p"@, stash_ref(index as nat)]);
    GitCommand { args, stdin: None }
}

/// The command that drops every stash.
pub fn stash_clear() -> (c: GitCommand)
    ensures
        c@ == (GitCommandView { args: seq!["stash"@, "clear"@], stdin: None }),
{
    let args = strings_of(vec!["stash", "clear"]);
    assert(args.deep_view() =~= seq!["stash"@, "clear"@]);
    GitCommand { args, stdin: None }
}

} // verus!
