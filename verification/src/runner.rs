//! Running `git`: what to do while the process runs, what its end means,
//! and the check of its version.

use vstd::prelude::*;
use vstd::string::*;
use crate::text::{chars_of, string_of, subvec, is_digit, char_is_digit, rows};
use crate::search::{starts_with, has_prefix};
use crate::split::{trim, trimmed};
use crate::number::{parse_u32, parse_u32_of, decimal, decimal_chars};

verus! {

// ---------------------------------------------------------------------------
// Waiting for the process
// ---------------------------------------------------------------------------

/// The time allowed to a command where none is given: 30 seconds.
pub const GIT_TIMEOUT_MS: u64 = 30000;

/// The time between two looks at the process: 50 milliseconds.
pub const POLL_INTERVAL_MS: u64 = 50;

/// What a look at the running process showed.
#[derive(Debug, Clone, Copy, PartialEq, Eq, Structural)]
pub enum PollEvent {
    /// The process has ended.
    Exited,
    /// The process is still running.
    Running,
    /// The look itself failed.
    WaitFailed,
}

/// What to do after a look at the process.
#[derive(Debug, Clone, Copy, PartialEq, Eq, Structural)]
pub enum PollAction {
    /// Read what the process wrote and judge its end.
    Collect,
    /// Kill the process and fail with the timeout error.
    KillForTimeout,
    /// Sleep for so many milliseconds, then look again.
    Sleep(u64),
    /// Fail with the error of the look.
    FailWaiting,
}

/// What to do after a look at the process: a process that has ended is
/// collected; one that still runs is killed once more time has passed than
/// is allowed, and looked at again after a pause otherwise. The two times
/// are given in nanoseconds.
pub open spec fn poll_action(event: PollEvent, elapsed: u128, timeout: u128) -> PollAction {
    match event {
        PollEvent::Exited => PollAction::Collect,
        PollEvent::Running => if elapsed > timeout {
            PollAction::KillForTimeout
        } else {
            PollAction::Sleep(POLL_INTERVAL_MS)
        },
        PollEvent::WaitFailed => PollAction::FailWaiting,
    }
}

/// What to do after a look at the process, `elapsed` nanoseconds after its
/// start, where `timeout` nanoseconds are allowed.
pub fn poll_step(event: PollEvent, elapsed: u128, timeout: u128) -> (action: PollAction)
    ensures
        action == poll_action(event, elapsed, timeout),
{
    match event {
        PollEvent::Exited => PollAction::Collect,
        PollEvent::Running => if elapsed > timeout {
            PollAction::KillForTimeout
        } else {
            PollAction::Sleep(POLL_INTERVAL_MS)
        },
        PollEvent::WaitFailed => PollAction::FailWaiting,
    }
}

// ---------------------------------------------------------------------------
// The end of the process
// ---------------------------------------------------------------------------

/// The texts of `parts` with a blank between each two.
pub open spec fn joined_by_blanks(parts: Seq<Seq<char>>) -> Seq<char>
    decreases parts.len(),
{
    if parts.len() == 0 {
        Seq::empty()
    } else if parts.len() == 1 {
        parts[0]
    } else {
        joined_by_blanks(parts.drop_last()) + seq![' '] + parts.last()
    }
}

/// The error of a command that ended in failure: the arguments and what
/// the process wrote to standard error, trimmed.
pub open spec fn failure_message(args: Seq<Seq<char>>, stderr: Seq<char>) -> Seq<char> {
    "git "@ + joined_by_blanks(args) + " failed: "@ + trim(stderr)
}

/// The error of a command that took too long.
pub open spec fn timeout_message(args: Seq<Seq<char>>, timeout_secs: nat) -> Seq<char> {
    "git "@ + joined_by_blanks(args) + " timed out after "@ + decimal(timeout_secs) + "s"@
}

/// What a command gives back: what it wrote to standard output where it
/// ended well, the failure message otherwise.
pub open spec fn run_result(
    args: Seq<Seq<char>>,
    success: bool,
    stdout: Seq<char>,
    stderr: Seq<char>,
) -> Result<Seq<char>, Seq<char>> {
    if success {
        Ok(stdout)
    } else {
        Err(failure_message(args, stderr))
    }
}

fn join_args(args: &Vec<String>) -> (text: String)
    ensures
        text@ == joined_by_blanks(args.deep_view()),
{
    let mut text = String::new();
    let ghost all = args.deep_view();
    let mut i: usize = 0;
    assert(all.take(0) =~= Seq::<Seq<char>>::empty());
    while i < args.len()
        invariant
            i <= args.len(),
            all == args.deep_view(),
            text@ == joined_by_blanks(all.take(i as int)),
        decreases args.len() - i,
    {
        if i > 0 {
            text.push(' ');
        }
        text.append(args[i].as_str());
        proof {
            let next = all.take(i + 1);
            assert(next.drop_last() =~= all.take(i as int));
            assert(next.last() == args@[i as int]@);
            if i == 0 {
                assert(text@ =~= args@[i as int]@);
            }
        }
        i += 1;
    }
    assert(all.take(i as int) =~= all);
    text
}

/// What the command with the arguments `args` gives back, once its
/// process has ended: `success` tells how, `stdout` and `stderr` hold what
/// it wrote.
pub fn run_git(args: &Vec<String>, success: bool, stdout: &str, stderr: &str) -> (r: Result<
    String,
    String,
>)
    ensures
        match run_result(args.deep_view(), success, stdout@, stderr@) {
            Ok(out) => r is Ok && r->Ok_0@ == out,
            Err(e) => r is Err && r->Err_0@ == e,
        },
{
    if success {
        Ok(String::from_str(stdout))
    } else {
        let mut message = String::from_str("git ");
        message.append(join_args(args).as_str());
        message.append(" failed: ");
        message.append(string_of(&trimmed(&chars_of(stderr))).as_str());
        Err(message)
    }
}

/// The error of the command with the arguments `args` that was killed
/// after `timeout_secs` seconds.
pub fn timeout_error(args: &Vec<String>, timeout_secs: u64) -> (message: String)
    ensures
        message@ == timeout_message(args.deep_view(), timeout_secs as nat),
{
    let mut message = String::from_str("git ");
    message.append(join_args(args).as_str());
    message.append(" timed out after ");
    message.append(string_of(&decimal_chars(timeout_secs)).as_str());
    message.append("s");
    message
}

/// The directory is inside a repository where
/// `git rev-parse --is-inside-work-tree` ended well.
pub fn is_git_repo(probe: &Result<String, String>) -> (b: bool)
    ensures
        b == (probe is Ok),
{
    probe.is_ok()
}

// ---------------------------------------------------------------------------
// The version of git
// ---------------------------------------------------------------------------

/// The first position at or after `from` that holds a digit.
pub open spec fn skip_to_digit(s: Seq<char>, from: int) -> int
    decreases s.len() - from,
{
    if from >= s.len() {
        s.len() as int
    } else if is_digit(s[from]) {
        from
    } else {
        skip_to_digit(s, from + 1)
    }
}

/// The first position at or after `from` that holds no digit.
pub open spec fn skip_digits(s: Seq<char>, from: int) -> int
    decreases s.len() - from,
{
    if from >= s.len() {
        s.len() as int
    } else if !is_digit(s[from]) {
        from
    } else {
        skip_digits(s, from + 1)
    }
}

/// The runs of digits of `s` from `from` on: the longest ones, none empty.
pub open spec fn digit_runs_from(s: Seq<char>, from: int) -> Seq<Seq<char>>
    decreases s.len() - from,
{
    let a = skip_to_digit(s, from);
    if from < 0 || a < from || a >= s.len() {
        Seq::empty()
    } else {
        let b = skip_digits(s, a);
        if b <= a || b > s.len() {
            Seq::empty()
        } else {
            seq![s.subrange(a, b)] + digit_runs_from(s, b)
        }
    }
}

/// The runs of digits of `s`.
pub open spec fn digit_runs(s: Seq<char>) -> Seq<Seq<char>> {
    digit_runs_from(s, 0)
}

/// The part of a version text that holds the numbers: the text behind
/// `git version `, or all of it, without the white space at its ends.
pub open spec fn version_part(text: Seq<char>) -> Seq<char> {
    if starts_with(text, "git version "@) {
        trim(text.skip("git version "@.len() as int))
    } else {
        trim(text)
    }
}

/// The version that a text such as `git version 2.39.3 (Apple Git-146)`
/// names: its first three runs of digits are major, minor and patch. The
/// first two must be there and be numbers; a patch that is missing or no
/// number counts as 0.
pub open spec fn git_version(text: Seq<char>) -> Option<(u32, u32, u32)> {
    let runs = digit_runs(version_part(text));
    if runs.len() < 2 {
        None
    } else {
        match (parse_u32(runs[0]), parse_u32(runs[1])) {
            (Some(major), Some(minor)) => Some(
                (
                    major,
                    minor,
                    if runs.len() > 2 {
                        match parse_u32(runs[2]) {
                            Some(patch) => patch,
                            None => 0u32,
                        }
                    } else {
                        0u32
                    },
                ),
            ),
            _ => None,
        }
    }
}

fn split_digit_runs(s: &Vec<char>) -> (r: Vec<Vec<char>>)
    ensures
        rows(r@) == digit_runs(s@),
{
    let mut r: Vec<Vec<char>> = Vec::new();
    assert(rows(r@) =~= Seq::<Seq<char>>::empty());
    let mut pos: usize = 0;
    loop
        invariant
            pos <= s.len(),
            digit_runs(s@) == rows(r@) + digit_runs_from(s@, pos as int),
        decreases s.len() - pos,
    {
        let mut a: usize = pos;
        while a < s.len() && !char_is_digit(s[a])
            invariant
                pos <= a <= s.len(),
                skip_to_digit(s@, pos as int) == skip_to_digit(s@, a as int),
            decreases s.len() - a,
        {
            a += 1;
        }
        if a >= s.len() {
            assert(digit_runs(s@) =~= rows(r@));
            return r;
        }
        let mut b: usize = a + 1;
        assert(skip_digits(s@, a as int) == skip_digits(s@, a + 1));
        while b < s.len() && char_is_digit(s[b])
            invariant
                a < b <= s.len(),
                skip_digits(s@, a as int) == skip_digits(s@, b as int),
            decreases s.len() - b,
        {
            b += 1;
        }
        let ghost before = rows(r@);
        let run = subvec(s, a, b);
        r.push(run);
        proof {
            assert(rows(r@) =~= before.push(run@));
            assert(before + (seq![run@] + digit_runs_from(s@, b as int)) =~= before.push(run@)
                + digit_runs_from(s@, b as int));
        }
        pos = b;
    }
}

/// Reads the version that a text such as `git version 2.39.3` names.
pub fn parse_git_version(version_str: &str) -> (version: Option<(u32, u32, u32)>)
    ensures
        version == git_version(version_str@),
{
    let text = chars_of(version_str);
    let part = if has_prefix(&text, "git version ") {
        let mark = chars_of("git version ");
        let rest = subvec(&text, mark.len(), text.len());
        assert(rest@ =~= text@.skip(mark.len() as int));
        trimmed(&rest)
    } else {
        trimmed(&text)
    };
    let runs = split_digit_runs(&part);
    if runs.len() < 2 {
        return None;
    }
    assert(rows(runs@)[0] == runs@[0]@);
    assert(rows(runs@)[1] == runs@[1]@);
    let major = match parse_u32_of(&runs[0]) {
        Some(n) => n,
        None => {
            return None;
        },
    };
    let minor = match parse_u32_of(&runs[1]) {
        Some(n) => n,
        None => {
            return None;
        },
    };
    let patch = if runs.len() > 2 {
        assert(rows(runs@)[2] == runs@[2]@);
        match parse_u32_of(&runs[2]) {
            Some(n) => n,
            None => 0,
        }
    } else {
        0
    };
    Some((major, minor, patch))
}

/// The oldest version of git that will do: 2.13.0.
pub open spec fn min_git_version() -> (u32, u32, u32) {
    (2u32, 13u32, 0u32)
}

/// The version `a` comes before the version `b`.
pub open spec fn version_before(a: (u32, u32, u32), b: (u32, u32, u32)) -> bool {
    a.0 < b.0 || (a.0 == b.0 && (a.1 < b.1 || (a.1 == b.1 && a.2 < b.2)))
}

/// Why the installed git will not do.
#[derive(Debug, Clone, PartialEq, Eq)]
pub enum GitVersionError {
    /// The version text names no version; it is held here, trimmed.
    Unreadable(String),
    /// The version comes before the oldest one that will do.
    TooOld(u32, u32, u32),
}

/// What the check of a version text gives: nothing to object, or the
/// reason why the version will not do.
pub open spec fn version_check(output: Seq<char>) -> Option<GitVersionErrorView> {
    match git_version(trim(output)) {
        None => Some(GitVersionErrorView::Unreadable(trim(output))),
        Some(v) => if version_before(v, min_git_version()) {
            Some(GitVersionErrorView::TooOld(v.0, v.1, v.2))
        } else {
            None
        },
    }
}

/// The mathematical value of a `GitVersionError`.
pub enum GitVersionErrorView {
    Unreadable(Seq<char>),
    TooOld(u32, u32, u32),
}

impl View for GitVersionError {
    type V = GitVersionErrorView;

    open spec fn view(&self) -> GitVersionErrorView {
        match self {
            GitVersionError::Unreadable(text) => GitVersionErrorView::Unreadable(text@),
            GitVersionError::TooOld(a, b, c) => GitVersionErrorView::TooOld(*a, *b, *c),
        }
    }
}

/// The error in words.
pub open spec fn version_error_text(e: GitVersionErrorView) -> Seq<char> {
    match e {
        GitVersionErrorView::Unreadable(text) => "Could not parse git version from: "@ + text,
        GitVersionErrorView::TooOld(a, b, c) => "Git version "@ + decimal(a as nat) + "."@
            + decimal(b as nat) + "."@ + decimal(c as nat) + " is too old (minimum: 2.13.0)"@,
    }
}

impl GitVersionError {
    /// The error in words.
    pub fn message(&self) -> (s: String)
        ensures
            s@ == version_error_text(self@),
    {
        match self {
            GitVersionError::Unreadable(text) => {
                let mut s = String::from_str("Could not parse git version from: ");
                s.append(text.as_str());
                s
            },
            GitVersionError::TooOld(a, b, c) => {
                let mut s = String::from_str("Git version ");
                s.append(string_of(&decimal_chars(*a as u64)).as_str());
                s.append(".");
                s.append(string_of(&decimal_chars(*b as u64)).as_str());
                s.append(".");
                s.append(string_of(&decimal_chars(*c as u64)).as_str());
                s.append(" is too old (minimum: 2.13.0)");
                s
            },
        }
    }
}

/// Checks that the version which `git --version` printed is 2.13.0 or
/// later.
pub fn check_git_version(output: &str) -> (r: Result<(), GitVersionError>)
    ensures
        match version_check(output@) {
            None => r is Ok,
            Some(e) => r is Err && r->Err_0@ == e,
        },
{
    let text = string_of(&trimmed(&chars_of(output)));
    match parse_git_version(text.as_str()) {
        None => Err(GitVersionError::Unreadable(text)),
        Some(v) => {
            if v.0 < 2 || (v.0 == 2 && v.1 < 13) {
                Err(GitVersionError::TooOld(v.0, v.1, v.2))
            } else {
                Ok(())
            }
        },
    }
}

} // verus!
