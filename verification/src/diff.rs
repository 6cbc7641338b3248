//! Unified diffs: the decoder of `git diff` output and the patch that
//! stages or unstages one hunk.

use vstd::prelude::*;
use vstd::string::*;
use crate::text::{chars_of, string_of, string_of_range, subvec, rows};
use crate::search::{starts_with, has_prefix, rfind_str, rfind_sub};
use crate::split::{lines, split_lines, split, split_all, words, split_words, trim_start_char,
    trimmed_start_char};
use crate::number::{parse_u32, parse_u32_of};
use crate::command::{GitCommand, GitCommandView, strings_of};
use crate::rejoin::joined_lines;

verus! {

// ---------------------------------------------------------------------------
// The model
// ---------------------------------------------------------------------------

/// What one line of a diff is.
#[derive(Debug, Clone, Copy, PartialEq, Eq, Structural)]
pub enum DiffLineType {
    Context,
    Added,
    Removed,
    Header,
}

/// One line of diff text, with its leading `+`, `-` or blank.
#[derive(Debug, Clone)]
pub struct DiffLine {
    pub line_type: DiffLineType,
    pub content: String,
}

/// One `@@ ... @@` region of a diff.
#[derive(Debug, Clone)]
pub struct Hunk {
    pub header: String,
    pub old_start: u32,
    pub old_count: u32,
    pub new_start: u32,
    pub new_count: u32,
    pub lines: Vec<DiffLine>,
}

/// All the hunks of one file in one diff.
#[derive(Debug, Clone)]
pub struct FileDiff {
    pub path: String,
    pub old_path: Option<String>,
    pub hunks: Vec<Hunk>,
}

/// The mathematical value of a `DiffLine`.
pub struct DiffLineView {
    pub line_type: DiffLineType,
    pub content: Seq<char>,
}

/// The mathematical value of a `Hunk`.
pub struct HunkView {
    pub header: Seq<char>,
    pub old_start: u32,
    pub old_count: u32,
    pub new_start: u32,
    pub new_count: u32,
    pub lines: Seq<DiffLineView>,
}

/// The mathematical value of a `FileDiff`.
pub struct FileDiffView {
    pub path: Seq<char>,
    pub old_path: Option<Seq<char>>,
    pub hunks: Seq<HunkView>,
}

impl View for DiffLine {
    type V = DiffLineView;

    open spec fn view(&self) -> DiffLineView {
        DiffLineView { line_type: self.line_type, content: self.content@ }
    }
}

impl DeepView for DiffLine {
    type V = DiffLineView;

    open spec fn deep_view(&self) -> DiffLineView {
        self@
    }
}

impl View for Hunk {
    type V = HunkView;

    open spec fn view(&self) -> HunkView {
        HunkView {
            header: self.header@,
            old_start: self.old_start,
            old_count: self.old_count,
            new_start: self.new_start,
            new_count: self.new_count,
            lines: self.lines.deep_view(),
        }
    }
}

impl DeepView for Hunk {
    type V = HunkView;

    open spec fn deep_view(&self) -> HunkView {
        self@
    }
}

impl View for FileDiff {
    type V = FileDiffView;

    open spec fn view(&self) -> FileDiffView {
        FileDiffView {
            path: self.path@,
            old_path: self.old_path.deep_view(),
            hunks: self.hunks.deep_view(),
        }
    }
}

impl DeepView for FileDiff {
    type V = FileDiffView;

    open spec fn deep_view(&self) -> FileDiffView {
        self@
    }
}

// ---------------------------------------------------------------------------
// Hunk headers
// ---------------------------------------------------------------------------

/// The start and the count that a range `start[,count]` of a hunk header
/// gives: a start that is no number counts as 0, a count that is missing or
/// no number as 1.
pub open spec fn range_fields(r: Seq<char>) -> (u32, u32) {
    let parts = split(r, ',');
    let start = match parse_u32(parts[0]) {
        Some(n) => n,
        None => 0u32,
    };
    let count = if parts.len() > 1 {
        match parse_u32(parts[1]) {
            Some(n) => n,
            None => 1u32,
        }
    } else {
        1u32
    };
    (start, count)
}

/// The four numbers of the hunk header `@@ -a[,b] +c[,d] @@`: `(a, b, c, d)`.
/// A header of another shape gives `(0, 1, 0, 1)`.
pub open spec fn hunk_header_fields(header: Seq<char>) -> (u32, u32, u32, u32) {
    if starts_with(header, "@@ "@) {
        let parts = words(header.subrange("@@ "@.len() as int, header.len() as int));
        if parts.len() >= 2 {
            let old = range_fields(trim_start_char(parts[0], '-'));
            let new = range_fields(trim_start_char(parts[1], '+'));
            (old.0, old.1, new.0, new.1)
        } else {
            (0u32, 1u32, 0u32, 1u32)
        }
    } else {
        (0u32, 1u32, 0u32, 1u32)
    }
}

fn parse_range(r: &Vec<char>) -> (res: (u32, u32))
    ensures
        res == range_fields(r@),
{
    let parts = split_all(r, ',');
    assert(rows(parts@)[0] == parts@[0]@);
    let start: u32 = match parse_u32_of(&parts[0]) {
        Some(n) => n,
        None => 0,
    };
    let count: u32 = if parts.len() > 1 {
        assert(rows(parts@)[1] == parts@[1]@);
        match parse_u32_of(&parts[1]) {
            Some(n) => n,
            None => 1,
        }
    } else {
        1
    };
    (start, count)
}

fn hunk_header_of(header: &Vec<char>) -> (res: (u32, u32, u32, u32))
    ensures
        res == hunk_header_fields(header@),
{
    if has_prefix(header, "@@ ") {
        let mark = chars_of("@@ ");
        let content = subvec(header, mark.len(), header.len());
        let parts = split_words(&content);
        if parts.len() >= 2 {
            assert(rows(parts@)[0] == parts@[0]@);
            assert(rows(parts@)[1] == parts@[1]@);
            let old_text = trimmed_start_char(&parts[0], '-');
            let new_text = trimmed_start_char(&parts[1], '+');
            let old = parse_range(&old_text);
            let new = parse_range(&new_text);
            (old.0, old.1, new.0, new.1)
        } else {
            (0, 1, 0, 1)
        }
    } else {
        (0, 1, 0, 1)
    }
}

/// Reads the four numbers of a hunk header.
pub fn parse_hunk_header(header: &str) -> (res: (u32, u32, u32, u32))
    ensures
        res == hunk_header_fields(header@),
{
    let h = chars_of(header);
    hunk_header_of(&h)
}

// ---------------------------------------------------------------------------
// The decoder
// ---------------------------------------------------------------------------

/// The text of `s` behind the last place where `p` stands in it, or all of
/// `s` where `p` stands nowhere.
pub open spec fn after_last(s: Seq<char>, p: Seq<char>) -> Seq<char> {
    match rfind_str(s, p) {
        Some(i) => s.subrange(i + p.len(), s.len() as int),
        None => s,
    }
}

/// What a line inside a hunk is, by its first character.
pub open spec fn classify_line(line: Seq<char>) -> DiffLineType {
    if line.len() > 0 && line[0] == '+' {
        DiffLineType::Added
    } else if line.len() > 0 && line[0] == '-' {
        DiffLineType::Removed
    } else {
        DiffLineType::Context
    }
}

/// The hunk that the header line `line` opens: its first line is the
/// header itself.
pub open spec fn opened_hunk(line: Seq<char>) -> HunkView {
    let f = hunk_header_fields(line);
    HunkView {
        header: line,
        old_start: f.0,
        old_count: f.1,
        new_start: f.2,
        new_count: f.3,
        lines: seq![DiffLineView { line_type: DiffLineType::Header, content: line }],
    }
}

/// The file that the line `diff --git a/X b/Y` opens.
pub open spec fn opened_file(line: Seq<char>) -> FileDiffView {
    FileDiffView { path: after_last(line, " b/"@), old_path: None, hunks: Seq::empty() }
}

/// Where the decoder stands between two lines: the files that are done, the
/// file that is open and the hunk that is open.
pub struct DiffScan {
    pub files: Seq<FileDiffView>,
    pub file: Option<FileDiffView>,
    pub hunk: Option<HunkView>,
}

/// The open file with the open hunk added to it.
pub open spec fn file_with_hunk(file: FileDiffView, hunk: Option<HunkView>) -> FileDiffView {
    match hunk {
        Some(h) => FileDiffView { hunks: file.hunks.push(h), ..file },
        None => file,
    }
}

/// The finished files once the open file and the open hunk are closed. A
/// hunk that no file holds is dropped.
pub open spec fn closed_files(st: DiffScan) -> Seq<FileDiffView> {
    match st.file {
        Some(f) => st.files.push(file_with_hunk(f, st.hunk)),
        None => st.files,
    }
}

/// The decoder's step over one line.
pub open spec fn diff_step(st: DiffScan, line: Seq<char>) -> DiffScan {
    if starts_with(line, "diff --git"@) {
        DiffScan { files: closed_files(st), file: Some(opened_file(line)), hunk: None }
    } else if starts_with(line, "rename from "@) {
        match st.file {
            Some(f) => DiffScan {
                file: Some(
                    FileDiffView {
                        old_path: Some(
                            line.subrange("rename from "@.len() as int, line.len() as int),
                        ),
                        ..f
                    },
                ),
                ..st
            },
            None => st,
        }
    } else if starts_with(line, "@@"@) {
        DiffScan {
            files: st.files,
            file: match st.file {
                Some(f) => Some(file_with_hunk(f, st.hunk)),
                None => None,
            },
            hunk: Some(opened_hunk(line)),
        }
    } else {
        match st.hunk {
            Some(h) => DiffScan {
                hunk: Some(
                    HunkView {
                        lines: h.lines.push(
                            DiffLineView { line_type: classify_line(line), content: line },
                        ),
                        ..h
                    },
                ),
                ..st
            },
            None => st,
        }
    }
}

/// Where the decoder stands after the first `n` lines.
pub open spec fn diff_scan(lines: Seq<Seq<char>>, n: nat) -> DiffScan
    decreases n,
{
    if n == 0 {
        DiffScan { files: Seq::empty(), file: None, hunk: None }
    } else {
        diff_step(diff_scan(lines, (n - 1) as nat), lines[n - 1])
    }
}

/// The files and hunks that the lines of a unified diff describe, in the
/// order in which they come.
pub open spec fn decode_diff_lines(lines: Seq<Seq<char>>) -> Seq<FileDiffView> {
    closed_files(diff_scan(lines, lines.len()))
}

/// The files and hunks that the text of a unified diff describes.
pub open spec fn decode_diff(output: Seq<char>) -> Seq<FileDiffView> {
    decode_diff_lines(lines(output))
}

/// The executable form of the scan state's open file.
spec fn file_view(file: Option<FileDiff>) -> Option<FileDiffView> {
    match file {
        Some(f) => Some(f@),
        None => None,
    }
}

/// The executable form of the scan state's open hunk.
spec fn hunk_view(hunk: Option<Hunk>) -> Option<HunkView> {
    match hunk {
        Some(h) => Some(h@),
        None => None,
    }
}

fn classify(line: &Vec<char>) -> (t: DiffLineType)
    ensures
        t == classify_line(line@),
{
    if line.len() > 0 && line[0] == '+' {
        DiffLineType::Added
    } else if line.len() > 0 && line[0] == '-' {
        DiffLineType::Removed
    } else {
        DiffLineType::Context
    }
}

fn text_after_last(line: &Vec<char>, p: &str) -> (r: String)
    ensures
        r@ == after_last(line@, p@),
{
    let pv = chars_of(p);
    match rfind_sub(line, &pv) {
        Some(i) => string_of_range(line, i + pv.len(), line.len()),
        None => string_of(line),
    }
}

fn open_hunk(line: &Vec<char>) -> (h: Hunk)
    ensures
        h@ == opened_hunk(line@),
{
    let f = hunk_header_of(line);
    let mut body: Vec<DiffLine> = Vec::new();
    body.push(DiffLine { line_type: DiffLineType::Header, content: string_of(line) });
    let h = Hunk {
        header: string_of(line),
        old_start: f.0,
        old_count: f.1,
        new_start: f.2,
        new_count: f.3,
        lines: body,
    };
    assert(h@.lines =~= opened_hunk(line@).lines);
    h
}

/// Adds the open hunk, if there is one, to the file.
fn flush_hunk(file: &mut FileDiff, hunk: Option<Hunk>)
    ensures
        final(file)@ == file_with_hunk(old(file)@, hunk_view(hunk)),
{
    match hunk {
        Some(h) => {
            file.hunks.push(h);
            assert(file.hunks.deep_view() =~= old(file).hunks.deep_view().push(h@));
        },
        None => {},
    }
}

/// Decodes the lines of a unified diff.
fn decode_lines(lines: &Vec<Vec<char>>) -> (files: Vec<FileDiff>)
    ensures
        files.deep_view() == decode_diff_lines(rows(lines@)),
{
    let mut files: Vec<FileDiff> = Vec::new();
    let mut current_file: Option<FileDiff> = None;
    let mut current_hunk: Option<Hunk> = None;
    let ghost all = rows(lines@);
    assert(files.deep_view() =~= Seq::<FileDiffView>::empty());
    let mut i: usize = 0;
    while i < lines.len()
        invariant
            i <= lines.len(),
            all == rows(lines@),
            diff_scan(all, i as nat) == (DiffScan {
                files: files.deep_view(),
                file: file_view(current_file),
                hunk: hunk_view(current_hunk),
            }),
        decreases lines.len() - i,
    {
        let line = &lines[i];
        assert(all[i as int] == line@);
        let ghost before = diff_scan(all, i as nat);
        if has_prefix(line, "diff --git") {
            match current_file {
                Some(mut f) => {
                    flush_hunk(&mut f, current_hunk);
                    let ghost done = files.deep_view();
                    files.push(f);
                    assert(files.deep_view() =~= done.push(f@));
                },
                None => {},
            }
            current_file = Some(
                FileDiff {
                    path: text_after_last(line, " b/"),
                    old_path: None,
                    hunks: Vec::new(),
                },
            );
            current_hunk = None;
            assert(current_file.unwrap()@.hunks =~= Seq::<HunkView>::empty());
        } else if has_prefix(line, "rename from ") {
            match current_file {
                Some(mut f) => {
                    let mark = chars_of("rename from ");
                    f.old_path = Some(string_of_range(line, mark.len(), line.len()));
                    current_file = Some(f);
                },
                None => {},
            }
        } else if has_prefix(line, "@@") {
            match current_file {
                Some(mut f) => {
                    flush_hunk(&mut f, current_hunk);
                    current_file = Some(f);
                },
                None => {},
            }
            current_hunk = Some(open_hunk(line));
        } else {
            match current_hunk {
                Some(mut h) => {
                    let ghost body = h.lines.deep_view();
                    let entry = DiffLine { line_type: classify(line), content: string_of(line) };
                    h.lines.push(entry);
                    assert(h.lines.deep_view() =~= body.push(entry@));
                    current_hunk = Some(h);
                },
                None => {},
            }
        }
        i += 1;
        assert(diff_scan(all, i as nat) == diff_step(before, line@));
    }
    match current_file {
        Some(mut f) => {
            flush_hunk(&mut f, current_hunk);
            let ghost done = files.deep_view();
            files.push(f);
            assert(files.deep_view() =~= done.push(f@));
        },
        None => {},
    }
    files
}

/// Decodes the text of a unified diff, as `git diff` prints it, into its
/// files and hunks.
pub fn parse_diff_output(output: &str) -> (files: Vec<FileDiff>)
    ensures
        files.deep_view() == decode_diff(output@),
{
    let text = chars_of(output);
    let all = split_lines(&text);
    decode_lines(&all)
}

// ---------------------------------------------------------------------------
// The patch of one hunk
// ---------------------------------------------------------------------------

/// The text of each line of a hunk, in order.
pub open spec fn line_contents(lines: Seq<DiffLineView>) -> Seq<Seq<char>> {
    lines.map_values(|l: DiffLineView| l.content)
}

/// The smallest patch that holds `hunk` alone: the two header lines that
/// name the file, then every line of the hunk as it was read.
pub open spec fn hunk_patch(path: Seq<char>, hunk: HunkView) -> Seq<char> {
    "--- a/"@ + path + seq!['\n'] + "+++ b/"@ + path + seq!['\n'] + joined_lines(
        line_contents(hunk.lines),
    )
}

/// Builds the patch that holds `hunk` alone.
pub fn build_hunk_patch(file_path: &str, hunk: &Hunk) -> (patch: String)
    ensures
        patch@ == hunk_patch(file_path@, hunk@),
{
    let mut patch = String::new();
    patch.append("--- a/");
    patch.append(file_path);
    patch.push('\n');
    patch.append("+++ b/");
    patch.append(file_path);
    patch.push('\n');
    let ghost head = patch@;
    let ghost contents = line_contents(hunk@.lines);
    assert(head =~= "--- a/"@ + file_path@ + seq!['\n'] + "+++ b/"@ + file_path@ + seq!['\n']);
    let mut i: usize = 0;
    assert(contents.take(0) =~= Seq::<Seq<char>>::empty());
    while i < hunk.lines.len()
        invariant
            i <= hunk.lines.len(),
            contents == line_contents(hunk@.lines),
            contents.len() == hunk.lines.len(),
            patch@ == head + joined_lines(contents.take(i as int)),
        decreases hunk.lines.len() - i,
    {
        patch.append(hunk.lines[i].content.as_str());
        patch.push('\n');
        proof {
            let next = contents.take(i + 1);
            assert(next.drop_last() =~= contents.take(i as int));
            assert(next.last() == hunk.lines@[i as int].content@);
            assert(patch@ =~= head + joined_lines(next));
        }
        i += 1;
    }
    assert(contents.take(i as int) =~= contents);
    patch
}

/// The arguments that apply a patch read from standard input: to the
/// index where `cached` holds, to the working tree otherwise.
pub open spec fn apply_args(cached: bool) -> Seq<Seq<char>> {
    if cached {
        seq!["apply"@, "--unidiff-zero"@, "--cached"@, "-"@]
    } else {
        seq!["apply"@, "--unidiff-zero"@, "-"@]
    }
}

/// The arguments that take a patch read from standard input back out of
/// the index.
pub open spec fn reverse_apply_args() -> Seq<Seq<char>> {
    seq!["apply"@, "--cached"@, "--reverse"@, "--unidiff-zero"@, "-"@]
}

/// The command that applies `patch`.
pub fn apply_patch(patch: String, cached: bool) -> (c: GitCommand)
    ensures
        c@ == (GitCommandView { args: apply_args(cached), stdin: Some(patch@) }),
{
    let args = if cached {
        strings_of(vec!["apply", "--unidiff-zero", "--cached", "-"])
    } else {
        strings_of(vec!["apply", "--unidiff-zero", "-"])
    };
    assert(args.deep_view() =~= apply_args(cached));
    GitCommand { args, stdin: Some(patch) }
}

/// The command that takes `patch` back out of the index.
pub fn apply_patch_reverse(patch: String) -> (c: GitCommand)
    ensures
        c@ == (GitCommandView { args: reverse_apply_args(), stdin: Some(patch@) }),
{
    let args = strings_of(vec!["apply", "--cached", "--reverse", "--unidiff-zero", "-"]);
    assert(args.deep_view() =~= reverse_apply_args());
    GitCommand { args, stdin: Some(patch) }
}

/// What applying a patch gave: nothing to object where the process ended
/// well, else what `git apply` wrote to standard error, to the letter. A
/// patch is refused where the index is no longer what the hunk was read
/// from; the patch is not applied again.
pub fn apply_result(success: bool, stderr: &str) -> (r: Result<(), String>)
    ensures
        success ==> r is Ok,
        !success ==> r is Err && r->Err_0@ == stderr@,
{
    if success {
        Ok(())
    } else {
        Err(String::from_str(stderr))
    }
}

/// The command that stages `hunk` alone: its patch, applied to the index.
pub fn stage_hunk(file_path: &str, hunk: &Hunk) -> (c: GitCommand)
    ensures
        c@ == (GitCommandView {
            args: apply_args(true),
            stdin: Some(hunk_patch(file_path@, hunk@)),
        }),
{
    apply_patch(build_hunk_patch(file_path, hunk), true)
}

/// The command that unstages `hunk` alone: its patch, applied to the index
/// in reverse.
pub fn unstage_hunk(file_path: &str, hunk: &Hunk) -> (c: GitCommand)
    ensures
        c@ == (GitCommandView {
            args: reverse_apply_args(),
            stdin: Some(hunk_patch(file_path@, hunk@)),
        }),
{
    apply_patch_reverse(build_hunk_patch(file_path, hunk))
}

// ---------------------------------------------------------------------------
// The commands that print a diff
// ---------------------------------------------------------------------------

/// The range of revisions that holds the commit `hash` alone: from its
/// first parent to itself.
pub open spec fn commit_range(hash: Seq<char>) -> Seq<char> {
    hash + "^.."@ + hash
}

/// The command that prints the changes of the working tree against the
/// index.
pub fn get_unstaged_diff() -> (c: GitCommand)
    ensures
        c@ == (GitCommandView { args: seq!["diff"@], stdin: None }),
{
    let args = strings_of(vec!["diff"]);
    assert(args.deep_view() =~= seq!["diff"@]);
    GitCommand { args, stdin: None }
}

/// The command that prints the changes of the index against `HEAD`.
pub fn get_staged_diff() -> (c: GitCommand)
    ensures
        c@ == (GitCommandView { args: seq!["diff"@, "--cached"@], stdin: None }),
{
    let args = strings_of(vec!["diff", "--cached"]);
    assert(args.deep_view() =~= seq!["diff"@, "--cached"@]);
    GitCommand { args, stdin: None }
}

/// The command that prints the changes of the commit `hash`.
pub fn get_commit_diff(hash: &str) -> (c: GitCommand)
    ensures
        c@ == (GitCommandView { args: seq!["diff"@, commit_range(hash@)], stdin: None }),
{
    let mut range = String::from_str(hash);
    range.append("^..");
    range.append(hash);
    let mut args: Vec<String> = Vec::new();
    args.push(String::from_str("diff"));
    args.push(range);
    assert(args.deep_view() =~= seq!["diff"@, commit_range(hash@)]);
    GitCommand { args, stdin: None }
}

/// The command that prints the summary of the staged changes.
pub fn get_staged_stat() -> (c: GitCommand)
    ensures
        c@ == (GitCommandView { args: seq!["diff"@, "--cached"@, "--stat"@], stdin: None }),
{
    let args = strings_of(vec!["diff", "--cached", "--stat"]);
    assert(args.deep_view() =~= seq!["diff"@, "--cached"@, "--stat"@]);
    GitCommand { args, stdin: None }
}

} // verus!
