//! Branches: the decoder of the branch list and the commands that make,
//! switch, delete and rename branches.

use vstd::prelude::*;
use vstd::string::*;
use crate::text::{chars_of, string_of, rows, is_literal};
use crate::search::{starts_with, has_prefix, find_from, find_char};
use crate::split::{lines, split_lines, split, split_all, trim, trimmed};
use crate::command::{GitCommand, GitCommandView, strings_of};

verus! {

/// One branch, local or remote.
#[derive(Debug, Clone)]
pub struct BranchEntry {
    pub name: String,
    pub is_current: bool,
    pub is_remote: bool,
    pub last_commit_msg: String,
    pub last_commit_date: String,
    pub last_commit_author: String,
    pub upstream: String,
}

/// The mathematical value of a `BranchEntry`.
pub struct BranchEntryView {
    pub name: Seq<char>,
    pub is_current: bool,
    pub is_remote: bool,
    pub last_commit_msg: Seq<char>,
    pub last_commit_date: Seq<char>,
    pub last_commit_author: Seq<char>,
    pub upstream: Seq<char>,
}

impl View for BranchEntry {
    type V = BranchEntryView;

    open spec fn view(&self) -> BranchEntryView {
        BranchEntryView {
            name: self.name@,
            is_current: self.is_current,
            is_remote: self.is_remote,
            last_commit_msg: self.last_commit_msg@,
            last_commit_date: self.last_commit_date@,
            last_commit_author: self.last_commit_author@,
            upstream: self.upstream@,
        }
    }
}

impl DeepView for BranchEntry {
    type V = BranchEntryView;

    open spec fn deep_view(&self) -> BranchEntryView {
        self@
    }
}

/// The operations on branches.
pub struct BranchOps;

/// A branch name is that of a remote branch where it begins with
/// `remotes/` or holds a slash.
pub open spec fn names_remote(name: Seq<char>) -> bool {
    starts_with(name, "remotes/"@) || find_from(name, '/', 0) < name.len()
}

/// The entry of a line of the branch list: six fields parted by unit
/// separators, each read without the white space at its ends. A blank
/// line and a line of fewer fields give none.
pub open spec fn branch_line_entry(line: Seq<char>) -> Option<BranchEntryView> {
    let parts = split(line, '\x1f');
    if trim(line).len() == 0 || parts.len() < 6 {
        None
    } else {
        Some(
            BranchEntryView {
                name: trim(parts[1]),
                is_current: trim(parts[0]) == "*"@,
                is_remote: names_remote(trim(parts[1])),
                upstream: trim(parts[2]),
                last_commit_msg: trim(parts[3]),
                last_commit_author: trim(parts[4]),
                last_commit_date: trim(parts[5]),
            },
        )
    }
}

/// The entries of the first `n` lines of a branch list.
pub open spec fn branch_scan(lines: Seq<Seq<char>>, n: nat) -> Seq<BranchEntryView>
    decreases n,
{
    if n == 0 {
        Seq::empty()
    } else {
        let before = branch_scan(lines, (n - 1) as nat);
        match branch_line_entry(lines[n - 1]) {
            Some(e) => before.push(e),
            None => before,
        }
    }
}

/// The branches that the output of `git branch -a` in the format of this
/// crate shows.
pub open spec fn decode_branches(output: Seq<char>) -> Seq<BranchEntryView> {
    branch_scan(lines(output), lines(output).len())
}

fn branch_line(line: &Vec<char>) -> (entry: Option<BranchEntry>)
    ensures
        entry.deep_view() == branch_line_entry(line@),
{
    if trimmed(line).len() == 0 {
        return None;
    }
    let parts = split_all(line, '\x1f');
    if parts.len() < 6 {
        return None;
    }
    assert(forall|j: int| 0 <= j < 6 ==> rows(parts@)[j] == parts@[j]@);
    let name = trimmed(&parts[1]);
    let is_remote = has_prefix(&name, "remotes/") || find_char(&name, '/', 0) < name.len();
    Some(
        BranchEntry {
            name: string_of(&name),
            is_current: is_literal(&trimmed(&parts[0]), "*"),
            is_remote,
            upstream: string_of(&trimmed(&parts[2])),
            last_commit_msg: string_of(&trimmed(&parts[3])),
            last_commit_author: string_of(&trimmed(&parts[4])),
            last_commit_date: string_of(&trimmed(&parts[5])),
        },
    )
}

/// The arguments that make the branch `name`, from `from` where it is
/// given.
pub open spec fn create_args(name: Seq<char>, from: Option<Seq<char>>) -> Seq<Seq<char>> {
    match from {
        Some(base) => seq!["branch"@, name, base],
        None => seq!["branch"@, name],
    }
}

/// The arguments that delete the branch `name`: with `-D` by force, with
/// `-d` otherwise.
pub open spec fn delete_args(name: Seq<char>, force: bool) -> Seq<Seq<char>> {
    seq![
        "branch"@,
        if force {
            "-D"@
        } else {
            "-d"@
        },
        name,
    ]
}

impl BranchOps {
    /// The format in which the branch list is asked for.
    pub open spec fn list_format() -> Seq<char> {
        "%(if)%(HEAD)%(then)*%(else) %(end)\x1f%(refname:short)\x1f%(upstream:short)\x1f%(subject)\x1f%(authorname)\x1f%(committerdate:relative)"@
    }

    /// Decodes the output of `git branch -a` in the format of this crate.
    pub fn list(output: &str) -> (branches: Vec<BranchEntry>)
        ensures
            branches.deep_view() == decode_branches(output@),
    {
        let text = chars_of(output);
        let all = split_lines(&text);
        let mut branches: Vec<BranchEntry> = Vec::new();
        assert(branches.deep_view() =~= Seq::<BranchEntryView>::empty());
        let mut i: usize = 0;
        while i < all.len()
            invariant
                i <= all.len(),
                rows(all@) == lines(output@),
                branches.deep_view() == branch_scan(rows(all@), i as nat),
            decreases all.len() - i,
        {
            assert(rows(all@)[i as int] == all@[i as int]@);
            let ghost before = branches.deep_view();
            match branch_line(&all[i]) {
                Some(e) => {
                    branches.push(e);
                    assert(branches.deep_view() =~= before.push(e@));
                },
                None => {},
            }
            i += 1;
        }
        branches
    }

    /// The command that prints the branch list.
    pub fn list_command() -> (c: GitCommand)
        ensures
            c@ == (GitCommandView {
                args: seq!["branch"@, "-a"@, "--format"@, Self::list_format()],
                stdin: None,
            }),
    {
        let args = strings_of(
            vec![
                "branch",
                "-a",
                "--format",
                "%(if)%(HEAD)%(then)*%(else) %(end)\x1f%(refname:short)\x1f%(upstream:short)\x1f%(subject)\x1f%(authorname)\x1f%(committerdate:relative)",
            ],
        );
        assert(args.deep_view() =~= seq!["branch"@, "-a"@, "--format"@, Self::list_format()]);
        GitCommand { args, stdin: None }
    }

    /// The command that makes the branch `name`, from `from` or from `HEAD`.
    pub fn create(name: &str, from: Option<&str>) -> (c: GitCommand)
        ensures
            c@ == (GitCommandView {
                args: create_args(
                    name@,
                    match from {
                        Some(base) => Some(base@),
                        None => None,
                    },
                ),
                stdin: None,
            }),
    {
        let mut args: Vec<String> = Vec::new();
        args.push(String::from_str("branch"));
        args.push(String::from_str(name));
        match from {
            Some(base) => {
                args.push(String::from_str(base));
                assert(args.deep_view() =~= seq!["branch"@, name@, base@]);
            },
            None => {
                assert(args.deep_view() =~= seq!["branch"@, name@]);
            },
        }
        GitCommand { args, stdin: None }
    }

    /// The command that switches to the branch `name`.
    pub fn switch(name: &str) -> (c: GitCommand)
        ensures
            c@ == (GitCommandView { args: seq!["switch"@, name@], stdin: None }),
    {
        let args = strings_of(vec!["switch", name]);
        assert(args.deep_view() =~= seq!["switch"@, name@]);
        GitCommand { args, stdin: None }
    }

    /// The command that deletes the local branch `name`.
    pub fn delete(name: &str, force: bool) -> (c: GitCommand)
        ensures
            c@ == (GitCommandView { args: delete_args(name@, force), stdin: None }),
    {
        let flag = if force {
            "-D"
        } else {
            "-d"
        };
        let args = strings_of(vec!["branch", flag, name]);
        assert(args.deep_view() =~= delete_args(name@, force));
        GitCommand { args, stdin: None }
    }

    /// The command that renames the current branch.
    pub fn rename(new_name: &str) -> (c: GitCommand)
        ensures
            c@ == (GitCommandView { args: seq!["branch"@, "-m"@, new_name@], stdin: None }),
    {
        let args = strings_of(vec!["branch", "-m", new_name]);
        assert(args.deep_view() =~= seq!["branch"@, "-m"@, new_name@]);
        GitCommand { args, stdin: None }
    }

    /// The name of the current branch: the output of
    /// `git branch --show-current` without the white space at its ends.
    pub fn current(output: &str) -> (name: String)
        ensures
            name@ == trim(output@),
    {
        string_of(&trimmed(&chars_of(output)))
    }

    /// Are there changes that are not committed? There are where the
    /// output of `git status --porcelain` holds more than white space.
    pub fn has_uncommitted_changes(output: &str) -> (b: bool)
        ensures
            b == (trim(output@).len() > 0),
    {
        trimmed(&chars_of(output)).len() > 0
    }
}

} // verus!
