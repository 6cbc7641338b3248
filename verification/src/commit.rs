//! The commit message: what is staged for it and what may be said against
//! its form.

use vstd::prelude::*;
use vstd::string::*;
use vstd::utf8::encode_utf8;
use crate::text::{chars_of, string_of, rows};
use crate::split::{lines, split_lines, trim, trimmed};
use crate::command::{GitCommand, GitCommandView};
use crate::number::{decimal, decimal_chars};
use crate::status::{FileEntry, RepoStatus};

verus! {

/// The state of the commit view.
#[derive(Debug, Clone)]
pub struct CommitState {
    pub message: String,
    pub staged_files: Vec<FileEntry>,
    /// The summary of the staged changes.
    pub stat_output: String,
    pub editing: bool,
    /// What is to be said against the form of the message.
    pub validation_warnings: Vec<String>}

/// The number of bytes that a text takes in UTF-8.
pub open spec fn byte_len(s: Seq<char>) -> nat {
    encode_utf8(s).len()
}

/// What is to be said against the subject line: it takes more than 72
/// bytes, or it ends with a period.
pub open spec fn subject_warnings(subject: Seq<char>) -> Seq<Seq<char>> {
    (if byte_len(subject) > 72 {
        seq![
            "Subject line is "@ + decimal(byte_len(subject)) + " chars (recommended: ≤72)"@,
        ]
    } else {
        Seq::empty()
    }) + (if subject.len() > 0 && subject.last() == '.' {
        seq!["Subject should not end with a period"@]
    } else {
        Seq::empty()
    })
}

/// What is to be said against the line with the index `i`: it takes more
/// than 80 bytes.
pub open spec fn body_line_warnings(line: Seq<char>, i: int) -> Seq<Seq<char>> {
    if byte_len(line) > 80 {
        seq![
            "Line "@ + decimal((i + 1) as nat) + " is "@ + decimal(byte_len(line))
                + " chars (recommended: ≤80)"@,
        ]
    } else {
        Seq::empty()
    }
}

/// What is to be said against the lines with the indices 1 to `n - 1`.
pub open spec fn body_warnings(lines: Seq<Seq<char>>, n: nat) -> Seq<Seq<char>>
    decreases n,
{
    if n <= 1 {
        Seq::empty()
    } else {
        body_warnings(lines, (n - 1) as nat) + body_line_warnings(lines[n - 1], n - 1)
    }
}

/// What is to be said against the second line: it is there and not blank.
pub open spec fn second_line_warnings(lines: Seq<Seq<char>>) -> Seq<Seq<char>> {
    if lines.len() > 1 && lines[1].len() > 0 {
        seq!["Line 2 should be blank (separates subject from body)"@]
    } else {
        Seq::empty()
    }
}

/// What is to be said against the form of a commit message: first against
/// its subject, then against the lines of its body, then against its
/// second line. An empty message gets no warning.
pub open spec fn commit_warnings(message: Seq<char>) -> Seq<Seq<char>> {
    let all = lines(message);
    if message.len() == 0 || all.len() == 0 {
        Seq::empty()
    } else {
        subject_warnings(all[0]) + body_warnings(all, all.len()) + second_line_warnings(all)
    }
}

fn byte_len_of(line: &Vec<char>) -> (n: usize)
    ensures
        n == byte_len(line@),
{
    string_of(line).as_str().as_bytes().len()
}

fn push_warning(warnings: &mut Vec<String>, warning: String)
    ensures
        final(warnings).deep_view() == old(warnings).deep_view() + seq![warning@],
{
    warnings.push(warning);
    assert(warnings.deep_view() =~= old(warnings).deep_view() + seq![warning@]);
}

fn warnings_of(message: &str) -> (warnings: Vec<String>)
    ensures
        warnings.deep_view() == commit_warnings(message@),
{
    let mut warnings: Vec<String> = Vec::new();
    assert(warnings.deep_view() =~= Seq::<Seq<char>>::empty());
    let text = chars_of(message);
    if text.len() == 0 {
        return warnings;
    }
    let all = split_lines(&text);
    if all.len() == 0 {
        return warnings;
    }
    assert(rows(all@)[0] == all@[0]@);
    let subject = &all[0];
    let subject_len = byte_len_of(subject);
    if subject_len > 72 {
        let mut w = String::from_str("Subject line is ");
        w.append(string_of(&decimal_chars(subject_len as u64)).as_str());
        w.append(" chars (recommended: ≤72)");
        push_warning(&mut warnings, w);
    }
    if subject.len() > 0 && subject[subject.len() - 1] == '.' {
        push_warning(&mut warnings, String::from_str("Subject should not end with a period"));
    }
    let ghost after_subject = warnings.deep_view();
    assert(after_subject =~= subject_warnings(rows(all@)[0]));
    let mut i: usize = 1;
    assert(warnings.deep_view() =~= after_subject + body_warnings(rows(all@), 1));
    while i < all.len()
        invariant
            1 <= i <= all.len(),
            warnings.deep_view() == after_subject + body_warnings(rows(all@), i as nat),
        decreases all.len() - i,
    {
        assert(rows(all@)[i as int] == all@[i as int]@);
        let ghost before = warnings.deep_view();
        let n = byte_len_of(&all[i]);
        if n > 80 {
            let mut w = String::from_str("Line ");
            w.append(string_of(&decimal_chars((i + 1) as u64)).as_str());
            w.append(" is ");
            w.append(string_of(&decimal_chars(n as u64)).as_str());
            w.append(" chars (recommended: ≤80)");
            push_warning(&mut warnings, w);
        }
        assert(warnings.deep_view() =~= before + body_line_warnings(
            rows(all@)[i as int],
            i as int,
        ));
        i += 1;
        assert(warnings.deep_view() =~= after_subject + body_warnings(rows(all@), i as nat));
    }
    let ghost after_body = warnings.deep_view();
    if all.len() > 1 {
        assert(rows(all@)[1] == all@[1]@);
        if all[1].len() > 0 {
            push_warning(
                &mut warnings,
                String::from_str("Line 2 should be blank (separates subject from body)"),
            );
        }
    }
    assert(warnings.deep_view() =~= after_body + second_line_warnings(rows(all@)));
    warnings
}

impl Default for CommitState {
    fn default() -> (s: Self)
        ensures
            s.message@.len() == 0,
            s.staged_files@.len() == 0,
            s.stat_output@.len() == 0,
            s.editing,
            s.validation_warnings@.len() == 0,
    {
        CommitState {
            message: String::new(),
            staged_files: Vec::new(),
            stat_output: String::new(),
            editing: true,
            validation_warnings: Vec::new()}
    }
}

impl CommitState {
    /// Checks the form of the message anew: the warnings are those of the
    /// message as it stands, and nothing else changes.
    pub fn validate(&mut self)
        ensures
            final(self).validation_warnings.deep_view() == commit_warnings(old(self).message@),
            final(self).message == old(self).message,
            final(self).staged_files == old(self).staged_files,
            final(self).stat_output == old(self).stat_output,
            final(self).editing == old(self).editing,
    {
        self.validation_warnings = warnings_of(self.message.as_str());
    }

    /// Takes over what is staged and its summary, where they could be had,
    /// and checks the form of the message anew.
    pub fn refresh(&mut self, status: Option<RepoStatus>, stat: Option<String>)
        ensures
            final(self).staged_files.deep_view() == match status {
                Some(s) => s@.staged,
                None => old(self).staged_files.deep_view()},
            final(self).stat_output@ == match stat {
                Some(s) => s@,
                None => old(self).stat_output@},
            final(self).validation_warnings.deep_view() == commit_warnings(old(self).message@),
            final(self).message == old(self).message,
            final(self).editing == old(self).editing,
    {
        match status {
            Some(s) => {
                self.staged_files = s.staged;
            },
            None => {}}
        match stat {
            Some(s) => {
                self.stat_output = s;
            },
            None => {}}
        self.validate();
    }
}

// ---------------------------------------------------------------------------
// Committing
// ---------------------------------------------------------------------------

/// Why nothing is committed.
#[derive(Debug, Clone, Copy, PartialEq, Eq, Structural)]
pub enum CommitRefusal {
    /// The message holds nothing but white space.
    EmptyMessage,
    /// No file is staged.
    NothingStaged,
}

impl CommitRefusal {
    /// The refusal in words.
    pub fn message(&self) -> (s: String)
        ensures
            s@ == match self {
                CommitRefusal::EmptyMessage => "Commit message cannot be empty"@,
                CommitRefusal::NothingStaged => "No files staged for commit"@,
            },
    {
        match self {
            CommitRefusal::EmptyMessage => String::from_str("Commit message cannot be empty"),
            CommitRefusal::NothingStaged => String::from_str("No files staged for commit"),
        }
    }
}

/// What committing gives: the command that commits with the message,
/// trimmed; or the refusal, for an empty message first, for an empty
/// index second.
pub open spec fn commit_request(message: Seq<char>, staged: nat) -> Result<
    GitCommandView,
    CommitRefusal,
> {
    if trim(message).len() == 0 {
        Err(CommitRefusal::EmptyMessage)
    } else if staged == 0 {
        Err(CommitRefusal::NothingStaged)
    } else {
        Ok(GitCommandView { args: seq!["commit"@, "-m"@, trim(message)], stdin: None })
    }
}

/// The status line after a commit: the first line of what `git` printed
/// (`Committed` where it printed nothing) behind a tick, or the error.
pub open spec fn commit_status(outcome: Result<Seq<char>, Seq<char>>) -> Seq<char> {
    match outcome {
        Ok(output) => "✓ "@ + (if lines(output).len() > 0 {
            lines(output)[0]
        } else {
            "Committed"@
        }),
        Err(e) => "Commit failed: "@ + e,
    }
}

/// The command that commits what is staged with the message of the state,
/// or the reason why nothing is committed.
pub fn do_commit(state: &CommitState) -> (r: Result<GitCommand, CommitRefusal>)
    ensures
        match commit_request(state.message@, state.staged_files@.len()) {
            Ok(c) => r is Ok && r->Ok_0@ == c,
            Err(e) => r == Err::<GitCommand, CommitRefusal>(e),
        },
{
    let message = trimmed(&chars_of(state.message.as_str()));
    if message.len() == 0 {
        return Err(CommitRefusal::EmptyMessage);
    }
    if state.staged_files.len() == 0 {
        return Err(CommitRefusal::NothingStaged);
    }
    let mut args: Vec<String> = Vec::new();
    args.push(String::from_str("commit"));
    args.push(String::from_str("-m"));
    args.push(string_of(&message));
    assert(args.deep_view() =~= seq!["commit"@, "-m"@, trim(state.message@)]);
    Ok(GitCommand { args, stdin: None })
}

/// Takes in how the commit ended and gives the status line. After a
/// commit that went well the message is empty and is edited again, and
/// the dashboard is to be shown; after one that failed the state stays.
pub fn commit_done(state: &mut CommitState, outcome: &Result<String, String>) -> (r: (String, bool))
    ensures
        r.0@ == commit_status(
            match outcome {
                Ok(o) => Ok(o@),
                Err(e) => Err(e@),
            },
        ),
        r.1 == (outcome is Ok),
        final(state).message@ == if outcome is Ok {
            Seq::<char>::empty()
        } else {
            old(state).message@
        },
        final(state).editing == (outcome is Ok || old(state).editing),
        final(state).staged_files == old(state).staged_files,
        final(state).stat_output == old(state).stat_output,
        final(state).validation_warnings == old(state).validation_warnings,
{
    match outcome {
        Ok(output) => {
            let all = split_lines(&chars_of(output.as_str()));
            assert(rows(all@).len() == all.len());
            let mut status = String::from_str("✓ ");
            if all.len() > 0 {
                assert(rows(all@)[0] == all@[0]@);
                status.append(string_of(&all[0]).as_str());
            } else {
                status.append("Committed");
            }
            state.message = String::new();
            state.editing = true;
            (status, true)
        },
        Err(e) => {
            let mut status = String::from_str("Commit failed: ");
            status.append(e.as_str());
            (status, false)
        },
    }
}

} // verus!
