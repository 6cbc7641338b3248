//! The decoder of `git status --porcelain=v2 --branch`.

use vstd::prelude::*;
use vstd::string::*;
use crate::text::{chars_of, string_of, string_of_range, rows};
use crate::search::{starts_with, has_prefix};
use crate::split::{lines, split_lines, splitn, split_fields, split, split_all, words,
    split_words, trim_start_char, trimmed_start_char, lemma_splitn_len};
use crate::number::{parse_u32, parse_u32_of};
use crate::command::{GitCommand, GitCommandView, strings_of};

verus! {

// ---------------------------------------------------------------------------
// The model
// ---------------------------------------------------------------------------

/// What happened to a file.
#[derive(Debug, Clone, Copy, PartialEq, Eq, Structural)]
pub enum FileStatus {
    Modified,
    Added,
    Deleted,
    Renamed,
    Copied,
    Untracked,
    Ignored,
    Conflicted,
}

/// A path with its status, in one bucket of the repository's status.
#[derive(Debug, Clone)]
pub struct FileEntry {
    pub status: FileStatus,
    pub path: String,
    /// The path before a rename or a copy.
    pub original_path: Option<String>,
}

/// The decoded state of a repository.
#[derive(Debug, Clone)]
pub struct RepoStatus {
    pub branch: String,
    pub upstream: Option<String>,
    pub ahead: u32,
    pub behind: u32,
    pub staged: Vec<FileEntry>,
    pub unstaged: Vec<FileEntry>,
    pub untracked: Vec<FileEntry>,
    pub conflicts: Vec<FileEntry>,
    pub stash_count: u32,
}

/// The mathematical value of a `FileEntry`.
pub struct FileEntryView {
    pub status: FileStatus,
    pub path: Seq<char>,
    pub original_path: Option<Seq<char>>,
}

/// The mathematical value of a `RepoStatus`.
pub struct RepoStatusView {
    pub branch: Seq<char>,
    pub upstream: Option<Seq<char>>,
    pub ahead: u32,
    pub behind: u32,
    pub staged: Seq<FileEntryView>,
    pub unstaged: Seq<FileEntryView>,
    pub untracked: Seq<FileEntryView>,
    pub conflicts: Seq<FileEntryView>,
    pub stash_count: u32,
}

impl View for FileEntry {
    type V = FileEntryView;

    open spec fn view(&self) -> FileEntryView {
        FileEntryView {
            status: self.status,
            path: self.path@,
            original_path: self.original_path.deep_view(),
        }
    }
}

impl DeepView for FileEntry {
    type V = FileEntryView;

    open spec fn deep_view(&self) -> FileEntryView {
        self@
    }
}

impl View for RepoStatus {
    type V = RepoStatusView;

    open spec fn view(&self) -> RepoStatusView {
        RepoStatusView {
            branch: self.branch@,
            upstream: self.upstream.deep_view(),
            ahead: self.ahead,
            behind: self.behind,
            staged: self.staged.deep_view(),
            unstaged: self.unstaged.deep_view(),
            untracked: self.untracked.deep_view(),
            conflicts: self.conflicts.deep_view(),
            stash_count: self.stash_count,
        }
    }
}

/// The status of a repository of which nothing is known yet.
pub open spec fn unknown_status() -> RepoStatusView {
    RepoStatusView {
        branch: "(unknown)"@,
        upstream: None,
        ahead: 0,
        behind: 0,
        staged: Seq::empty(),
        unstaged: Seq::empty(),
        untracked: Seq::empty(),
        conflicts: Seq::empty(),
        stash_count: 0,
    }
}

impl Default for RepoStatus {
    fn default() -> (s: Self)
        ensures
            s@ == unknown_status(),
    {
        let s = RepoStatus {
            branch: String::from_str("(unknown)"),
            upstream: None,
            ahead: 0,
            behind: 0,
            staged: Vec::new(),
            unstaged: Vec::new(),
            untracked: Vec::new(),
            conflicts: Vec::new(),
            stash_count: 0,
        };
        assert(s@.staged =~= Seq::<FileEntryView>::empty());
        assert(s@.unstaged =~= Seq::<FileEntryView>::empty());
        assert(s@.untracked =~= Seq::<FileEntryView>::empty());
        assert(s@.conflicts =~= Seq::<FileEntryView>::empty());
        s
    }
}

impl RepoStatus {
    /// Nothing is staged, changed, untracked or in conflict.
    pub fn is_clean(&self) -> (b: bool)
        ensures
            b == (self@.staged.len() == 0 && self@.unstaged.len() == 0 && self@.untracked.len()
                == 0 && self@.conflicts.len() == 0),
    {
        self.staged.is_empty() && self.unstaged.is_empty() && self.untracked.is_empty()
            && self.conflicts.is_empty()
    }
}

/// The paths of `entries`, in order.
pub open spec fn entry_paths(entries: Seq<FileEntryView>) -> Seq<Seq<char>> {
    entries.map_values(|e: FileEntryView| e.path)
}

/// The paths of `entries`, in order.
pub fn paths_of(entries: &Vec<FileEntry>) -> (paths: Vec<String>)
    ensures
        paths.deep_view() == entry_paths(entries.deep_view()),
{
    let mut paths: Vec<String> = Vec::new();
    let mut i: usize = 0;
    while i < entries.len()
        invariant
            i <= entries.len(),
            paths.len() == i,
            forall|j: int| 0 <= j < i ==> paths@[j]@ == entries@[j].path@,
        decreases entries.len() - i,
    {
        paths.push(entries[i].path.clone());
        i += 1;
    }
    assert(paths.deep_view() =~= entry_paths(entries.deep_view()));
    paths
}

// ---------------------------------------------------------------------------
// Status letters
// ---------------------------------------------------------------------------

/// The status that a letter of the `XY` field stands for; `.`, a blank and
/// every unknown letter stand for none.
pub open spec fn status_of_char(c: char) -> Option<FileStatus> {
    if c == 'M' {
        Some(FileStatus::Modified)
    } else if c == 'A' {
        Some(FileStatus::Added)
    } else if c == 'D' {
        Some(FileStatus::Deleted)
    } else if c == 'R' {
        Some(FileStatus::Renamed)
    } else if c == 'C' {
        Some(FileStatus::Copied)
    } else if c == 'U' {
        Some(FileStatus::Conflicted)
    } else {
        None
    }
}

/// The status that a letter of the `XY` field stands for.
pub fn char_to_status(c: char) -> (r: Option<FileStatus>)
    ensures
        r == status_of_char(c),
{
    if c == 'M' {
        Some(FileStatus::Modified)
    } else if c == 'A' {
        Some(FileStatus::Added)
    } else if c == 'D' {
        Some(FileStatus::Deleted)
    } else if c == 'R' {
        Some(FileStatus::Renamed)
    } else if c == 'C' {
        Some(FileStatus::Copied)
    } else if c == 'U' {
        Some(FileStatus::Conflicted)
    } else {
        None
    }
}

/// The index letter of an `XY` field: its first character, `.` if it has
/// none.
pub open spec fn index_letter(xy: Seq<char>) -> char {
    if xy.len() > 0 {
        xy[0]
    } else {
        '.'
    }
}

/// The worktree letter of an `XY` field: its second character, `.` if it has
/// none.
pub open spec fn worktree_letter(xy: Seq<char>) -> char {
    if xy.len() > 1 {
        xy[1]
    } else {
        '.'
    }
}

/// An entry without an original path.
pub open spec fn plain_entry(status: FileStatus, path: Seq<char>) -> FileEntryView {
    FileEntryView { status, path, original_path: None }
}

fn index_letter_of(xy: &Vec<char>) -> (c: char)
    ensures
        c == index_letter(xy@),
{
    if xy.len() > 0 {
        xy[0]
    } else {
        '.'
    }
}

fn worktree_letter_of(xy: &Vec<char>) -> (c: char)
    ensures
        c == worktree_letter(xy@),
{
    if xy.len() > 1 {
        xy[1]
    } else {
        '.'
    }
}

// ---------------------------------------------------------------------------
// Entry lines
// ---------------------------------------------------------------------------

/// What an ordinary entry `1 XY ... path` adds to the staged files: the
/// path with the status of `X`, unless `X` stands for no status or for a
/// conflict. A line of fewer than nine fields adds nothing.
pub open spec fn ordinary_staged(line: Seq<char>) -> Seq<FileEntryView> {
    let parts = splitn(line, ' ', 9);
    if parts.len() < 9 {
        Seq::empty()
    } else {
        match status_of_char(index_letter(parts[1])) {
            Some(status) => if status == FileStatus::Conflicted {
                Seq::empty()
            } else {
                seq![plain_entry(status, parts[8])]
            },
            None => Seq::empty(),
        }
    }
}

/// What an ordinary entry adds to the conflicts: the path, where `X`
/// stands for a conflict.
pub open spec fn ordinary_conflicts(line: Seq<char>) -> Seq<FileEntryView> {
    let parts = splitn(line, ' ', 9);
    if parts.len() < 9 {
        Seq::empty()
    } else {
        match status_of_char(index_letter(parts[1])) {
            Some(status) => if status == FileStatus::Conflicted {
                seq![plain_entry(status, parts[8])]
            } else {
                Seq::empty()
            },
            None => Seq::empty(),
        }
    }
}

/// What an ordinary entry adds to the unstaged files: the path with the
/// status of `Y`, where `Y` stands for one.
pub open spec fn ordinary_unstaged(line: Seq<char>) -> Seq<FileEntryView> {
    let parts = splitn(line, ' ', 9);
    if parts.len() < 9 {
        Seq::empty()
    } else {
        match status_of_char(worktree_letter(parts[1])) {
            Some(status) => seq![plain_entry(status, parts[8])],
            None => Seq::empty(),
        }
    }
}

/// The new path of a rename entry's path field `path<TAB>origPath`.
pub open spec fn renamed_path(field: Seq<char>) -> Seq<char> {
    split(field, '\t')[0]
}

/// The original path of a rename entry's path field, where it holds one.
pub open spec fn renamed_from(field: Seq<char>) -> Option<Seq<char>> {
    let paths = split(field, '\t');
    if paths.len() > 1 {
        Some(paths[1])
    } else {
        None
    }
}

/// What a rename or copy entry `2 XY ... path<TAB>origPath` adds to the
/// staged files: the new path with the original one, where `X` is `R` or
/// `C`. A line of fewer than ten fields adds nothing.
pub open spec fn rename_staged(line: Seq<char>) -> Seq<FileEntryView> {
    let parts = splitn(line, ' ', 10);
    if parts.len() < 10 {
        Seq::empty()
    } else {
        let x = index_letter(parts[1]);
        if x == 'R' || x == 'C' {
            seq![
                FileEntryView {
                    status: if x == 'R' {
                        FileStatus::Renamed
                    } else {
                        FileStatus::Copied
                    },
                    path: renamed_path(parts[9]),
                    original_path: renamed_from(parts[9]),
                },
            ]
        } else {
            Seq::empty()
        }
    }
}

/// What a rename or copy entry adds to the unstaged files: the new path
/// with the status of `Y`, where `Y` stands for one.
pub open spec fn rename_unstaged(line: Seq<char>) -> Seq<FileEntryView> {
    let parts = splitn(line, ' ', 10);
    if parts.len() < 10 {
        Seq::empty()
    } else {
        match status_of_char(worktree_letter(parts[1])) {
            Some(status) => seq![plain_entry(status, renamed_path(parts[9]))],
            None => Seq::empty(),
        }
    }
}

fn push_entry(bucket: &mut Vec<FileEntry>, entry: FileEntry)
    ensures
        final(bucket).deep_view() == old(bucket).deep_view() + seq![entry@],
{
    bucket.push(entry);
    assert(bucket.deep_view() =~= old(bucket).deep_view() + seq![entry@]);
}

proof fn lemma_add_nothing(bucket: Seq<FileEntryView>)
    ensures
        bucket + Seq::<FileEntryView>::empty() == bucket,
{
    assert(bucket + Seq::<FileEntryView>::empty() =~= bucket);
}

/// Reads an ordinary entry and adds what it says to the three buckets.
pub fn parse_ordinary_entry(
    line: &str,
    staged: &mut Vec<FileEntry>,
    unstaged: &mut Vec<FileEntry>,
    conflicts: &mut Vec<FileEntry>,
)
    ensures
        final(staged).deep_view() == old(staged).deep_view() + ordinary_staged(line@),
        final(unstaged).deep_view() == old(unstaged).deep_view() + ordinary_unstaged(line@),
        final(conflicts).deep_view() == old(conflicts).deep_view() + ordinary_conflicts(line@),
{
    let text = chars_of(line);
    ordinary_entry(&text, staged, unstaged, conflicts);
}

fn ordinary_entry(
    line: &Vec<char>,
    staged: &mut Vec<FileEntry>,
    unstaged: &mut Vec<FileEntry>,
    conflicts: &mut Vec<FileEntry>,
)
    ensures
        final(staged).deep_view() == old(staged).deep_view() + ordinary_staged(line@),
        final(unstaged).deep_view() == old(unstaged).deep_view() + ordinary_unstaged(line@),
        final(conflicts).deep_view() == old(conflicts).deep_view() + ordinary_conflicts(line@),
{
    proof {
        lemma_add_nothing(staged.deep_view());
        lemma_add_nothing(unstaged.deep_view());
        lemma_add_nothing(conflicts.deep_view());
    }
    let parts = split_fields(line, ' ', 9);
    if parts.len() < 9 {
        return ;
    }
    assert(rows(parts@)[1] == parts@[1]@);
    assert(rows(parts@)[8] == parts@[8]@);
    let x = index_letter_of(&parts[1]);
    let y = worktree_letter_of(&parts[1]);
    match char_to_status(x) {
        Some(status) => {
            let entry = FileEntry { status, path: string_of(&parts[8]), original_path: None };
            if status == FileStatus::Conflicted {
                push_entry(conflicts, entry);
            } else {
                push_entry(staged, entry);
            }
        },
        None => {},
    }
    match char_to_status(y) {
        Some(status) => {
            push_entry(
                unstaged,
                FileEntry { status, path: string_of(&parts[8]), original_path: None },
            );
        },
        None => {},
    }
}

/// Reads a rename or copy entry and adds what it says to the two buckets.
pub fn parse_rename_entry(line: &str, staged: &mut Vec<FileEntry>, unstaged: &mut Vec<FileEntry>)
    ensures
        final(staged).deep_view() == old(staged).deep_view() + rename_staged(line@),
        final(unstaged).deep_view() == old(unstaged).deep_view() + rename_unstaged(line@),
{
    let text = chars_of(line);
    rename_entry(&text, staged, unstaged);
}

fn rename_entry(line: &Vec<char>, staged: &mut Vec<FileEntry>, unstaged: &mut Vec<FileEntry>)
    ensures
        final(staged).deep_view() == old(staged).deep_view() + rename_staged(line@),
        final(unstaged).deep_view() == old(unstaged).deep_view() + rename_unstaged(line@),
{
    proof {
        lemma_add_nothing(staged.deep_view());
        lemma_add_nothing(unstaged.deep_view());
    }
    let parts = split_fields(line, ' ', 10);
    if parts.len() < 10 {
        return ;
    }
    assert(rows(parts@)[1] == parts@[1]@);
    assert(rows(parts@)[9] == parts@[9]@);
    let paths = split_all(&parts[9], '\t');
    assert(rows(paths@)[0] == paths@[0]@);
    let x = index_letter_of(&parts[1]);
    let y = worktree_letter_of(&parts[1]);
    if x == 'R' || x == 'C' {
        let original_path = if paths.len() > 1 {
            assert(rows(paths@)[1] == paths@[1]@);
            Some(string_of(&paths[1]))
        } else {
            None
        };
        let status = if x == 'R' {
            FileStatus::Renamed
        } else {
            FileStatus::Copied
        };
        push_entry(staged, FileEntry { status, path: string_of(&paths[0]), original_path });
    }
    match char_to_status(y) {
        Some(status) => {
            push_entry(
                unstaged,
                FileEntry { status, path: string_of(&paths[0]), original_path: None },
            );
        },
        None => {},
    }
}

// ---------------------------------------------------------------------------
// The decoder
// ---------------------------------------------------------------------------

/// The text of `line` behind its first `p.len()` characters.
pub open spec fn rest_after(line: Seq<char>, p: Seq<char>) -> Seq<char> {
    line.subrange(p.len() as int, line.len() as int)
}

/// The number that `s` denotes, 0 where it denotes none.
pub open spec fn count_or_zero(s: Seq<char>) -> u32 {
    match parse_u32(s) {
        Some(n) => n,
        None => 0u32,
    }
}

/// The path of an unmerged entry `u XY ... path`: the last of the at most
/// eleven fields that single blanks separate.
pub open spec fn unmerged_path(line: Seq<char>) -> Seq<char> {
    splitn(line, ' ', 11).last()
}

/// The decoder's step over one line: the line is read by its prefix, and a
/// line of no known prefix, or of too few fields, changes nothing.
pub open spec fn status_step(st: RepoStatusView, line: Seq<char>) -> RepoStatusView {
    if starts_with(line, "# branch.head "@) {
        RepoStatusView { branch: rest_after(line, "# branch.head "@), ..st }
    } else if starts_with(line, "# branch.upstream "@) {
        RepoStatusView { upstream: Some(rest_after(line, "# branch.upstream "@)), ..st }
    } else if starts_with(line, "# branch.ab "@) {
        let parts = words(line);
        if parts.len() >= 4 {
            RepoStatusView {
                ahead: count_or_zero(trim_start_char(parts[2], '+')),
                behind: count_or_zero(trim_start_char(parts[3], '-')),
                ..st
            }
        } else {
            st
        }
    } else if starts_with(line, "1 "@) {
        RepoStatusView {
            staged: st.staged + ordinary_staged(line),
            unstaged: st.unstaged + ordinary_unstaged(line),
            conflicts: st.conflicts + ordinary_conflicts(line),
            ..st
        }
    } else if starts_with(line, "2 "@) {
        RepoStatusView {
            staged: st.staged + rename_staged(line),
            unstaged: st.unstaged + rename_unstaged(line),
            ..st
        }
    } else if starts_with(line, "u "@) {
        RepoStatusView {
            conflicts: st.conflicts + seq![
                plain_entry(FileStatus::Conflicted, unmerged_path(line)),
            ],
            ..st
        }
    } else if starts_with(line, "? "@) {
        RepoStatusView {
            untracked: st.untracked + seq![
                plain_entry(FileStatus::Untracked, rest_after(line, "? "@)),
            ],
            ..st
        }
    } else {
        st
    }
}

/// The status after the first `n` lines.
pub open spec fn status_scan(lines: Seq<Seq<char>>, n: nat) -> RepoStatusView
    decreases n,
{
    if n == 0 {
        unknown_status()
    } else {
        status_step(status_scan(lines, (n - 1) as nat), lines[n - 1])
    }
}

/// The number of stashes that the output of `git stash list` shows: one for
/// each line; 0 where the list could not be had.
pub open spec fn stash_count_of(stash_list: Option<Seq<char>>) -> u32 {
    match stash_list {
        Some(text) => lines(text).len() as u32,
        None => 0u32,
    }
}

/// The status that the output of `git status --porcelain=v2 --branch`
/// describes, with the number of stashes from the output of
/// `git stash list`.
pub open spec fn decode_status(output: Seq<char>, stash_list: Option<Seq<char>>) -> RepoStatusView {
    RepoStatusView {
        stash_count: stash_count_of(stash_list),
        ..status_scan(lines(output), lines(output).len())
    }
}

fn text_after(line: &Vec<char>, p: &str) -> (r: String)
    requires
        starts_with(line@, p@),
    ensures
        r@ == rest_after(line@, p@),
{
    let mark = chars_of(p);
    string_of_range(line, mark.len(), line.len())
}

fn count_of(s: &Vec<char>) -> (n: u32)
    ensures
        n == count_or_zero(s@),
{
    match parse_u32_of(s) {
        Some(n) => n,
        None => 0,
    }
}

fn status_line(st: &mut RepoStatus, line: &Vec<char>)
    ensures
        final(st)@ == status_step(old(st)@, line@),
{
    if has_prefix(line, "# branch.head ") {
        st.branch = text_after(line, "# branch.head ");
    } else if has_prefix(line, "# branch.upstream ") {
        st.upstream = Some(text_after(line, "# branch.upstream "));
    } else if has_prefix(line, "# branch.ab ") {
        let parts = split_words(line);
        if parts.len() >= 4 {
            assert(rows(parts@)[2] == parts@[2]@);
            assert(rows(parts@)[3] == parts@[3]@);
            st.ahead = count_of(&trimmed_start_char(&parts[2], '+'));
            st.behind = count_of(&trimmed_start_char(&parts[3], '-'));
        }
    } else if has_prefix(line, "1 ") {
        ordinary_entry(line, &mut st.staged, &mut st.unstaged, &mut st.conflicts);
    } else if has_prefix(line, "2 ") {
        rename_entry(line, &mut st.staged, &mut st.unstaged);
    } else if has_prefix(line, "u ") {
        let parts = split_fields(line, ' ', 11);
        proof {
            lemma_splitn_len(line@, ' ', 11, 0);
        }
        let last = parts.len() - 1;
        assert(rows(parts@)[last as int] == parts@[last as int]@);
        push_entry(
            &mut st.conflicts,
            FileEntry {
                status: FileStatus::Conflicted,
                path: string_of(&parts[last]),
                original_path: None,
            },
        );
    } else if has_prefix(line, "? ") {
        push_entry(
            &mut st.untracked,
            FileEntry {
                status: FileStatus::Untracked,
                path: text_after(line, "? "),
                original_path: None,
            },
        );
    }
}

/// The command whose output `get_status` decodes.
pub fn status_command() -> (c: GitCommand)
    ensures
        c@ == (GitCommandView {
            args: seq!["status"@, "--porcelain=v2"@, "--branch"@],
            stdin: None,
        }),
{
    let args = strings_of(vec!["status", "--porcelain=v2", "--branch"]);
    assert(args.deep_view() =~= seq!["status"@, "--porcelain=v2"@, "--branch"@]);
    GitCommand { args, stdin: None }
}

/// The command whose output tells `get_status` the number of stashes.
pub fn stash_count_command() -> (c: GitCommand)
    ensures
        c@ == (GitCommandView { args: seq!["stash"@, "list"@], stdin: None }),
{
    let args = strings_of(vec!["stash", "list"]);
    assert(args.deep_view() =~= seq!["stash"@, "list"@]);
    GitCommand { args, stdin: None }
}

/// Decodes the output of `git status --porcelain=v2 --branch`; `stash_list`
/// is the output of `git stash list`, or `None` where that call failed.
pub fn get_status(output: &str, stash_list: Option<&str>) -> (status: RepoStatus)
    ensures
        status@ == decode_status(
            output@,
            match stash_list {
                Some(text) => Some(text@),
                None => None,
            },
        ),
{
    let text = chars_of(output);
    let all = split_lines(&text);
    let mut status = RepoStatus::default();
    let mut i: usize = 0;
    while i < all.len()
        invariant
            i <= all.len(),
            rows(all@) == lines(output@),
            status@ == status_scan(rows(all@), i as nat),
        decreases all.len() - i,
    {
        assert(rows(all@)[i as int] == all@[i as int]@);
        status_line(&mut status, &all[i]);
        i += 1;
    }
    status.stash_count = match stash_list {
        Some(list) => {
            let stashes = split_lines(&chars_of(list));
            assert(rows(stashes@).len() == stashes.len());
            #[verifier::truncate]
            (stashes.len() as u32)
        },
        None => 0,
    };
    status
}

// ---------------------------------------------------------------------------
// Laws
// ---------------------------------------------------------------------------

/// An ordinary entry whose two letters both stand for a status puts its
/// path once into the staged files or into the conflicts, as `X` says, and
/// once into the unstaged files.
pub proof fn lemma_ordinary_entry_buckets(line: Seq<char>)
    requires
        splitn(line, ' ', 9).len() == 9,
        status_of_char(index_letter(splitn(line, ' ', 9)[1])) is Some,
        status_of_char(worktree_letter(splitn(line, ' ', 9)[1])) is Some,
    ensures
        ({
            let parts = splitn(line, ' ', 9);
            let x = status_of_char(index_letter(parts[1]))->0;
            let y = status_of_char(worktree_letter(parts[1]))->0;
            &&& ordinary_unstaged(line) == seq![plain_entry(y, parts[8])]
            &&& x == FileStatus::Conflicted ==> ordinary_staged(line).len() == 0
                && ordinary_conflicts(line) == seq![plain_entry(x, parts[8])]
            &&& x != FileStatus::Conflicted ==> ordinary_conflicts(line).len() == 0
                && ordinary_staged(line) == seq![plain_entry(x, parts[8])]
        }),
{
}

/// Every entry of `entries` has a status that `allowed` admits, and an
/// original path only where it is a rename or a copy.
pub open spec fn bucket_holds(
    entries: Seq<FileEntryView>,
    allowed: spec_fn(FileStatus) -> bool,
) -> bool {
    forall|i: int|
        0 <= i < entries.len() ==> allowed((#[trigger] entries[i]).status) && (
        entries[i].original_path is Some ==> entries[i].status == FileStatus::Renamed
            || entries[i].status == FileStatus::Copied)
}

/// What holds of the four buckets of every decoded status: the staged
/// files are neither untracked nor in conflict; the unstaged files are not
/// untracked and have no original path; the untracked files are untracked,
/// the conflicts in conflict; and only a rename or a copy has an original
/// path.
pub open spec fn buckets_sound(st: RepoStatusView) -> bool {
    &&& bucket_holds(
        st.staged,
        |s: FileStatus| s != FileStatus::Untracked && s != FileStatus::Conflicted,
    )
    &&& bucket_holds(st.unstaged, |s: FileStatus| s != FileStatus::Untracked)
    &&& bucket_holds(st.untracked, |s: FileStatus| s == FileStatus::Untracked)
    &&& bucket_holds(st.conflicts, |s: FileStatus| s == FileStatus::Conflicted)
    &&& forall|i: int|
        0 <= i < st.unstaged.len() ==> (#[trigger] st.unstaged[i]).original_path is None
    &&& forall|i: int|
        0 <= i < st.untracked.len() ==> (#[trigger] st.untracked[i]).original_path is None
    &&& forall|i: int|
        0 <= i < st.conflicts.len() ==> (#[trigger] st.conflicts[i]).original_path is None
}

proof fn lemma_step_keeps_buckets_sound(st: RepoStatusView, line: Seq<char>)
    requires
        buckets_sound(st),
    ensures
        buckets_sound(status_step(st, line)),
{
    let next = status_step(st, line);
    assert forall|i: int| 0 <= i < next.staged.len() implies (#[trigger] next.staged[i]).status
        != FileStatus::Untracked && next.staged[i].status != FileStatus::Conflicted && (
    next.staged[i].original_path is Some ==> next.staged[i].status == FileStatus::Renamed
        || next.staged[i].status == FileStatus::Copied) by {
        if i < st.staged.len() {
            assert(next.staged[i] == st.staged[i]);
        }
    }
    assert forall|i: int| 0 <= i < next.unstaged.len() implies (
    #[trigger] next.unstaged[i]).status != FileStatus::Untracked
        && next.unstaged[i].original_path is None by {
        if i < st.unstaged.len() {
            assert(next.unstaged[i] == st.unstaged[i]);
        }
    }
    assert forall|i: int| 0 <= i < next.untracked.len() implies (
    #[trigger] next.untracked[i]).status == FileStatus::Untracked
        && next.untracked[i].original_path is None by {
        if i < st.untracked.len() {
            assert(next.untracked[i] == st.untracked[i]);
        }
    }
    assert forall|i: int| 0 <= i < next.conflicts.len() implies (
    #[trigger] next.conflicts[i]).status == FileStatus::Conflicted
        && next.conflicts[i].original_path is None by {
        if i < st.conflicts.len() {
            assert(next.conflicts[i] == st.conflicts[i]);
        }
    }
}

proof fn lemma_scan_buckets_sound(lines: Seq<Seq<char>>, n: nat)
    ensures
        buckets_sound(status_scan(lines, n)),
    decreases n,
{
    if n > 0 {
        lemma_scan_buckets_sound(lines, (n - 1) as nat);
        lemma_step_keeps_buckets_sound(status_scan(lines, (n - 1) as nat), lines[n - 1]);
    }
}

/// The buckets of every decoded status are sound: each holds only entries
/// of its kind, and an entry has an original path only where it is a
/// rename or a copy.
pub proof fn lemma_decoded_status_sound(output: Seq<char>, stash_list: Option<Seq<char>>)
    ensures
        buckets_sound(decode_status(output, stash_list)),
{
    lemma_scan_buckets_sound(lines(output), lines(output).len());
}

} // verus!
