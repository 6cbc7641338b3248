//! The AI mentor: the values that go to and come from its service, the
//! summary line of a diff, and what an HTTP status means.

use vstd::prelude::*;
use vstd::string::*;
use crate::text::{chars_of, string_of, rows};
use crate::search::{contains_str, contains_lit};
use crate::split::{split, split_all, words, split_words, trim, trimmed};
use crate::number::{parse_usize, parse_usize_of, decimal, decimal_chars};
use crate::status::{RepoStatus, RepoStatusView, entry_paths, paths_of};
use crate::diff::{FileDiff, FileDiffView, HunkView, line_contents};
use vstd::utf8::encode_utf8;

verus! {

/// The numbers of a diff's summary line.
#[derive(Debug)]
pub struct DiffStats {
    pub files_changed: usize,
    pub insertions: usize,
    pub deletions: usize}

/// What the mentor is told of the repository.
#[derive(Debug)]
pub struct RepoContext {
    pub branch: Option<String>,
    pub staged_files: Vec<String>,
    pub unstaged_files: Vec<String>,
    pub diff_stats: Option<DiffStats>,
    pub diff: Option<String>}

/// A request to the mentor.
#[derive(Debug)]
pub struct MentorRequest {
    pub request_type: String,
    pub context: Option<RepoContext>,
    pub query: Option<String>,
    pub error: Option<String>}

/// What an answer of the mentor holds.
#[derive(Debug)]
pub struct MentorResponseData {
    pub response_type: Option<String>,
    pub content: Option<String>}

/// An answer of the mentor.
#[derive(Debug)]
pub struct MentorApiResponse {
    pub success: bool,
    pub response: Option<MentorResponseData>,
    pub error: Option<String>}

// ---------------------------------------------------------------------------
// The summary line of a diff
// ---------------------------------------------------------------------------

/// The number at the start of a part of the summary line: its first word,
/// read as a number; 0 where there is none.
pub open spec fn leading_count(part: Seq<char>) -> usize {
    let w = words(part);
    if w.len() == 0 {
        0usize
    } else {
        match parse_usize(w[0]) {
            Some(n) => n,
            None => 0usize}
    }
}

/// The numbers of files, insertions and deletions after one more part of
/// the summary line: the part tells by the word it holds which number
/// it gives.
pub open spec fn stat_step(st: (usize, usize, usize), part: Seq<char>) -> (usize, usize, usize) {
    let text = trim(part);
    if contains_str(text, "file"@) {
        (leading_count(text), st.1, st.2)
    } else if contains_str(text, "insertion"@) {
        (st.0, leading_count(text), st.2)
    } else if contains_str(text, "deletion"@) {
        (st.0, st.1, leading_count(text))
    } else {
        st
    }
}

/// The numbers after the first `n` parts.
pub open spec fn stat_scan(parts: Seq<Seq<char>>, n: nat) -> (usize, usize, usize)
    decreases n,
{
    if n == 0 {
        (0usize, 0usize, 0usize)
    } else {
        stat_step(stat_scan(parts, (n - 1) as nat), parts[n - 1])
    }
}

/// The numbers of files changed, insertions and deletions that a summary
/// line such as ` 3 files changed, 10 insertions(+), 2 deletions(-)`
/// gives; a number that the line does not give is 0.
pub open spec fn stat_numbers(stat: Seq<char>) -> (usize, usize, usize) {
    stat_scan(split(stat, ','), split(stat, ',').len())
}

fn leading_count_of(part: &Vec<char>) -> (n: usize)
    ensures
        n == leading_count(part@),
{
    let w = split_words(part);
    if w.len() == 0 {
        0
    } else {
        assert(rows(w@)[0] == w@[0]@);
        match parse_usize_of(&w[0]) {
            Some(n) => n,
            None => 0}
    }
}

/// Reads the summary line of `git diff --stat`.
pub fn parse_stat_line(stat: &str) -> (r: (usize, usize, usize))
    ensures
        r == stat_numbers(stat@),
{
    let parts = split_all(&chars_of(stat), ',');
    let mut files: usize = 0;
    let mut ins: usize = 0;
    let mut del: usize = 0;
    let mut i: usize = 0;
    while i < parts.len()
        invariant
            i <= parts.len(),
            (files, ins, del) == stat_scan(rows(parts@), i as nat),
        decreases parts.len() - i,
    {
        assert(rows(parts@)[i as int] == parts@[i as int]@);
        let text = trimmed(&parts[i]);
        if contains_lit(&text, "file") {
            files = leading_count_of(&text);
        } else if contains_lit(&text, "insertion") {
            ins = leading_count_of(&text);
        } else if contains_lit(&text, "deletion") {
            del = leading_count_of(&text);
        }
        i += 1;
    }
    (files, ins, del)
}

// ---------------------------------------------------------------------------
// HTTP errors
// ---------------------------------------------------------------------------

/// What an HTTP status of the service means, in words.
pub open spec fn http_error_text(status: u16) -> Seq<char> {
    if status == 401 {
        "Invalid API key — check [ai] api_key in ~/.config/zit/config.toml or ZIT_AI_API_KEY"@
    } else if status == 403 {
        "Access denied — your API key may have expired or hit its quota"@
    } else if status == 429 {
        "Rate limited — too many requests. Wait a moment and try again."@
    } else if status == 500 {
        "AI service internal error — try again in a moment"@
    } else if 502 <= status <= 504 {
        "AI service temporarily unavailable — try again shortly"@
    } else {
        "API error (HTTP "@ + decimal(status as nat) + ")"@
    }
}

/// What an HTTP status of the service means, in words.
pub fn classify_http_error(status: u16) -> (s: String)
    ensures
        s@ == http_error_text(status),
{
    if status == 401 {
        String::from_str(
            "Invalid API key — check [ai] api_key in ~/.config/zit/config.toml or ZIT_AI_API_KEY",
        )
    } else if status == 403 {
        String::from_str("Access denied — your API key may have expired or hit its quota")
    } else if status == 429 {
        String::from_str("Rate limited — too many requests. Wait a moment and try again.")
    } else if status == 500 {
        String::from_str("AI service internal error — try again in a moment")
    } else if 502 <= status && status <= 504 {
        String::from_str("AI service temporarily unavailable — try again shortly")
    } else {
        let mut s = String::from_str("API error (HTTP ");
        s.append(string_of(&decimal_chars(status as u64)).as_str());
        s.append(")");
        s
    }
}

// ---------------------------------------------------------------------------
// The context of a request
// ---------------------------------------------------------------------------

/// The mathematical value of `DiffStats`.
pub struct DiffStatsView {
    pub files_changed: usize,
    pub insertions: usize,
    pub deletions: usize}

/// The mathematical value of a `RepoContext`.
pub struct RepoContextView {
    pub branch: Option<Seq<char>>,
    pub staged_files: Seq<Seq<char>>,
    pub unstaged_files: Seq<Seq<char>>,
    pub diff_stats: Option<DiffStatsView>,
    pub diff: Option<Seq<char>>}

impl View for DiffStats {
    type V = DiffStatsView;

    open spec fn view(&self) -> DiffStatsView {
        DiffStatsView {
            files_changed: self.files_changed,
            insertions: self.insertions,
            deletions: self.deletions}
    }
}

impl DeepView for DiffStats {
    type V = DiffStatsView;

    open spec fn deep_view(&self) -> DiffStatsView {
        self@
    }
}

impl View for RepoContext {
    type V = RepoContextView;

    open spec fn view(&self) -> RepoContextView {
        RepoContextView {
            branch: self.branch.deep_view(),
            staged_files: self.staged_files.deep_view(),
            unstaged_files: self.unstaged_files.deep_view(),
            diff_stats: self.diff_stats.deep_view(),
            diff: self.diff.deep_view()}
    }
}

/// The number of bytes behind which a diff is cut off.
pub const DIFF_TRUNCATE_AT: usize = 4000;

/// The lines of the first `n` hunks, in order.
pub open spec fn hunk_lines(hunks: Seq<HunkView>, n: nat) -> Seq<Seq<char>>
    decreases n,
{
    if n == 0 {
        Seq::empty()
    } else {
        hunk_lines(hunks, (n - 1) as nat) + line_contents(hunks[n - 1].lines)
    }
}

/// The lines of the hunks of the first `n` files, in order.
pub open spec fn file_lines(files: Seq<FileDiffView>, n: nat) -> Seq<Seq<char>>
    decreases n,
{
    if n == 0 {
        Seq::empty()
    } else {
        file_lines(files, (n - 1) as nat) + hunk_lines(
            files[n - 1].hunks,
            files[n - 1].hunks.len(),
        )
    }
}

/// The excerpt made of the first `n` lines, and whether it was cut off:
/// each line is followed by a line feed; once the text takes more than
/// `DIFF_TRUNCATE_AT` bytes, a mark is put behind it and no line follows.
pub open spec fn excerpt_upto(lines: Seq<Seq<char>>, n: nat) -> (Seq<char>, bool)
    decreases n,
{
    if n == 0 {
        (Seq::empty(), false)
    } else {
        let before = excerpt_upto(lines, (n - 1) as nat);
        if before.1 {
            before
        } else {
            let text = before.0 + lines[n - 1] + seq!['\n'];
            if encode_utf8(text).len() > DIFF_TRUNCATE_AT {
                (text + "...(truncated)"@, true)
            } else {
                (text, false)
            }
        }
    }
}

/// The excerpt of a diff that goes to the mentor.
pub open spec fn diff_excerpt(files: Seq<FileDiffView>) -> Seq<char> {
    let lines = file_lines(files, files.len());
    excerpt_upto(lines, lines.len()).0
}

/// What the mentor is told of the repository: the branch, the staged
/// paths, the unstaged and the untracked paths; and, where the diff is
/// asked for and something is staged, the numbers of the staged summary
/// and the excerpt of the staged diff, each where it could be had, the
/// excerpt only where it is not empty.
pub open spec fn repo_context(
    include_diff: bool,
    branch: Option<Seq<char>>,
    status: RepoStatusView,
    stat: Option<Seq<char>>,
    diffs: Option<Seq<FileDiffView>>,
) -> RepoContextView {
    let with_diff = include_diff && status.staged.len() > 0;
    RepoContextView {
        branch,
        staged_files: entry_paths(status.staged),
        unstaged_files: entry_paths(status.unstaged) + entry_paths(status.untracked),
        diff_stats: match stat {
            Some(s) => if with_diff {
                Some(
                    DiffStatsView {
                        files_changed: stat_numbers(s).0,
                        insertions: stat_numbers(s).1,
                        deletions: stat_numbers(s).2},
                )
            } else {
                None
            },
            None => None},
        diff: match diffs {
            Some(d) => if with_diff && diff_excerpt(d).len() > 0 {
                Some(diff_excerpt(d))
            } else {
                None
            },
            None => None}}
}

fn append_all(to: &mut Vec<String>, from: Vec<String>)
    ensures
        final(to).deep_view() == old(to).deep_view() + from.deep_view(),
{
    let mut from = from;
    let ghost added = from.deep_view();
    to.append(&mut from);
    assert(to.deep_view() =~= old(to).deep_view() + added);
}

fn lines_of(files: &Vec<FileDiff>) -> (lines: Vec<String>)
    ensures
        lines.deep_view() == file_lines(files.deep_view(), files.len() as nat),
{
    let mut lines: Vec<String> = Vec::new();
    assert(lines.deep_view() =~= Seq::<Seq<char>>::empty());
    let mut f: usize = 0;
    while f < files.len()
        invariant
            f <= files.len(),
            lines.deep_view() == file_lines(files.deep_view(), f as nat),
        decreases files.len() - f,
    {
        let file = &files[f];
        assert(files.deep_view()[f as int] == file@);
        let ghost done = lines.deep_view();
        let mut h: usize = 0;
        assert(lines.deep_view() =~= done + hunk_lines(file@.hunks, 0));
        while h < file.hunks.len()
            invariant
                h <= file.hunks.len(),
                lines.deep_view() == done + hunk_lines(file@.hunks, h as nat),
            decreases file.hunks.len() - h,
        {
            let hunk = &file.hunks[h];
            assert(file@.hunks[h as int] == hunk@);
            let ghost before = lines.deep_view();
            let mut k: usize = 0;
            assert(lines.deep_view() =~= before + line_contents(hunk@.lines).take(0));
            while k < hunk.lines.len()
                invariant
                    k <= hunk.lines.len(),
                    lines.deep_view() == before + line_contents(hunk@.lines).take(k as int),
                decreases hunk.lines.len() - k,
            {
                assert(hunk@.lines[k as int] == hunk.lines@[k as int]@);
                let ghost so_far = lines.deep_view();
                let content = hunk.lines[k].content.clone();
                lines.push(content);
                assert(lines.deep_view() =~= so_far.push(content@));
                k += 1;
                assert(line_contents(hunk@.lines).take(k as int) =~= line_contents(
                    hunk@.lines,
                ).take(k - 1).push(content@));
                assert(lines.deep_view() =~= before + line_contents(hunk@.lines).take(k as int));
            }
            assert(line_contents(hunk@.lines).take(k as int) =~= line_contents(hunk@.lines));
            h += 1;
            assert(lines.deep_view() =~= done + hunk_lines(file@.hunks, h as nat));
        }
        f += 1;
    }
    lines
}

fn excerpt_of(lines: &Vec<String>) -> (text: String)
    ensures
        text@ == excerpt_upto(lines.deep_view(), lines.len() as nat).0,
{
    let mut text = String::new();
    let mut stopped = false;
    let mut i: usize = 0;
    while i < lines.len()
        invariant
            i <= lines.len(),
            (text@, stopped) == excerpt_upto(lines.deep_view(), i as nat),
        decreases lines.len() - i,
    {
        assert(lines.deep_view()[i as int] == lines@[i as int]@);
        let ghost before = text@;
        if !stopped {
            text.append(lines[i].as_str());
            text.push('\n');
            assert(text@ =~= before + lines@[i as int]@ + seq!['\n']);
            if text.as_str().as_bytes().len() > DIFF_TRUNCATE_AT {
                text.append("...(truncated)");
                stopped = true;
            }
        }
        i += 1;
    }
    text
}

/// Puts together what the mentor is told of the repository. `branch` is
/// the current branch, `stat` the summary of the staged changes and
/// `staged_diff` the staged diff, each where it could be had.
pub fn build_repo_context(
    include_diff: bool,
    branch: Option<String>,
    status: &RepoStatus,
    stat: Option<&str>,
    staged_diff: Option<&Vec<FileDiff>>,
) -> (context: RepoContext)
    ensures
        context@ == repo_context(
            include_diff,
            branch.deep_view(),
            status@,
            match stat {
                Some(s) => Some(s@),
                None => None},
            match staged_diff {
                Some(d) => Some(d.deep_view()),
                None => None},
        ),
{
    let staged_files = paths_of(&status.staged);
    let mut unstaged_files = paths_of(&status.unstaged);
    append_all(&mut unstaged_files, paths_of(&status.untracked));
    let with_diff = include_diff && status.staged.len() > 0;
    let diff_stats = match stat {
        Some(s) => if with_diff {
            let numbers = parse_stat_line(s);
            Some(
                DiffStats {
                    files_changed: numbers.0,
                    insertions: numbers.1,
                    deletions: numbers.2},
            )
        } else {
            None
        },
        None => None};
    let diff = match staged_diff {
        Some(d) => if with_diff {
            let text = excerpt_of(&lines_of(d));
            if text.as_str().is_empty() {
                None
            } else {
                Some(text)
            }
        } else {
            None
        },
        None => None};
    RepoContext { branch, staged_files, unstaged_files, diff_stats, diff }
}

} // verus!
