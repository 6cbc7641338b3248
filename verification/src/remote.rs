//! Remotes: the decoder of the remote list and the commands that add
//! remotes, push, fetch and pull.

use vstd::prelude::*;
use vstd::string::*;
use crate::text::{chars_of, string_of, rows};
use crate::split::{lines, split_lines, words, split_words};
use crate::command::{GitCommand, GitCommandView, strings_of};

verus! {

/// The operations on remotes.
pub struct RemoteOps;

/// One of `remotes` has the name `name`.
pub open spec fn has_name(remotes: Seq<(Seq<char>, Seq<char>)>, name: Seq<char>) -> bool {
    exists|i: int| 0 <= i < remotes.len() && (#[trigger] remotes[i]).0 == name
}

/// The decoder's step over one line `name url (fetch)` of the remote
/// list: the first two words are a remote's name and URL, and a name that
/// was seen before is passed over.
pub open spec fn remote_step(remotes: Seq<(Seq<char>, Seq<char>)>, line: Seq<char>) -> Seq<
    (Seq<char>, Seq<char>),
> {
    let parts = words(line);
    if parts.len() >= 2 && !has_name(remotes, parts[0]) {
        remotes.push((parts[0], parts[1]))
    } else {
        remotes
    }
}

/// The remotes of the first `n` lines of a remote list.
pub open spec fn remote_scan(lines: Seq<Seq<char>>, n: nat) -> Seq<(Seq<char>, Seq<char>)>
    decreases n,
{
    if n == 0 {
        Seq::empty()
    } else {
        remote_step(remote_scan(lines, (n - 1) as nat), lines[n - 1])
    }
}

/// The remotes that the output of `git remote -v` shows, each name once,
/// with the URL of the line that named it first.
pub open spec fn decode_remotes(output: Seq<char>) -> Seq<(Seq<char>, Seq<char>)> {
    remote_scan(lines(output), lines(output).len())
}

/// No two of `remotes` have one name.
pub open spec fn names_differ(remotes: Seq<(Seq<char>, Seq<char>)>) -> bool {
    forall|i: int, j: int|
        0 <= i < j < remotes.len() ==> (#[trigger] remotes[i]).0 != (#[trigger] remotes[j]).0
}

/// The remote list holds each name once.
pub proof fn lemma_remote_names_differ(lines: Seq<Seq<char>>, n: nat)
    requires
        n <= lines.len(),
    ensures
        names_differ(remote_scan(lines, n)),
    decreases n,
{
    if n > 0 {
        lemma_remote_names_differ(lines, (n - 1) as nat);
        let before = remote_scan(lines, (n - 1) as nat);
        let after = remote_scan(lines, n);
        assert forall|i: int, j: int| 0 <= i < j < after.len() implies (#[trigger] after[i]).0 != (
        #[trigger] after[j]).0 by {
            if j < before.len() {
                assert(after[i] == before[i] && after[j] == before[j]);
            } else {
                assert(after[i] == before[i]);
            }
        }
    }
}

fn knows(remotes: &Vec<(String, String)>, name: &String) -> (b: bool)
    ensures
        b == has_name(remotes.deep_view(), name@),
{
    let mut i: usize = 0;
    while i < remotes.len()
        invariant
            i <= remotes.len(),
            forall|j: int| 0 <= j < i ==> remotes.deep_view()[j].0 != name@,
        decreases remotes.len() - i,
    {
        assert(remotes.deep_view()[i as int].0 == remotes@[i as int].0@);
        if remotes[i].0 == *name {
            return true;
        }
        i += 1;
    }
    false
}

impl RemoteOps {
    /// Decodes the output of `git remote -v` into pairs of name and URL,
    /// each name once.
    pub fn parse_remote_output(output: &str) -> (remotes: Vec<(String, String)>)
        ensures
            remotes.deep_view() == decode_remotes(output@),
            names_differ(remotes.deep_view()),
    {
        let text = chars_of(output);
        let all = split_lines(&text);
        let mut remotes: Vec<(String, String)> = Vec::new();
        assert(remotes.deep_view() =~= Seq::<(Seq<char>, Seq<char>)>::empty());
        let mut i: usize = 0;
        while i < all.len()
            invariant
                i <= all.len(),
                rows(all@) == lines(output@),
                remotes.deep_view() == remote_scan(rows(all@), i as nat),
            decreases all.len() - i,
        {
            assert(rows(all@)[i as int] == all@[i as int]@);
            let parts = split_words(&all[i]);
            let ghost before = remotes.deep_view();
            if parts.len() >= 2 {
                assert(rows(parts@)[0] == parts@[0]@);
                assert(rows(parts@)[1] == parts@[1]@);
                let name = string_of(&parts[0]);
                if !knows(&remotes, &name) {
                    let url = string_of(&parts[1]);
                    remotes.push((name, url));
                    assert(remotes.deep_view() =~= before.push((name@, url@)));
                }
            }
            i += 1;
        }
        proof {
            lemma_remote_names_differ(lines(output@), lines(output@).len());
        }
        remotes
    }

    /// Decodes the output of `git remote -v`: the remotes with their URLs.
    pub fn list(output: &str) -> (remotes: Vec<(String, String)>)
        ensures
            remotes.deep_view() == decode_remotes(output@),
            names_differ(remotes.deep_view()),
    {
        Self::parse_remote_output(output)
    }

    /// The command that adds the remote `name` with the URL `url`.
    pub fn add(name: &str, url: &str) -> (c: GitCommand)
        ensures
            c@ == (GitCommandView { args: seq!["remote"@, "add"@, name@, url@], stdin: None }),
    {
        let args = strings_of(vec!["remote", "add", name, url]);
        assert(args.deep_view() =~= seq!["remote"@, "add"@, name@, url@]);
        GitCommand { args, stdin: None }
    }

    /// The arguments that push `branch` to `remote`, with `-u` where the
    /// upstream is to be set.
    pub open spec fn push_args(remote: Seq<char>, branch: Seq<char>, set_upstream: bool) -> Seq<
        Seq<char>,
    > {
        if set_upstream {
            seq!["push"@, "-u"@, remote, branch]
        } else {
            seq!["push"@, remote, branch]
        }
    }

    /// The command that pushes `branch` to `remote`.
    pub fn push(remote: &str, branch: &str, set_upstream: bool) -> (c: GitCommand)
        ensures
            c@ == (GitCommandView {
                args: Self::push_args(remote@, branch@, set_upstream),
                stdin: None,
            }),
    {
        let args = if set_upstream {
            strings_of(vec!["push", "-u", remote, branch])
        } else {
            strings_of(vec!["push", remote, branch])
        };
        assert(args.deep_view() =~= Self::push_args(remote@, branch@, set_upstream));
        GitCommand { args, stdin: None }
    }

    /// The command that fetches from `remote`.
    pub fn fetch(remote: &str) -> (c: GitCommand)
        ensures
            c@ == (GitCommandView { args: seq!["fetch"@, remote@], stdin: None }),
    {
        let args = strings_of(vec!["fetch", remote]);
        assert(args.deep_view() =~= seq!["fetch"@, remote@]);
        GitCommand { args, stdin: None }
    }

    /// The command that pulls `branch` from `remote` and rebases on it.
    pub fn pull(remote: &str, branch: &str) -> (c: GitCommand)
        ensures
            c@ == (GitCommandView {
                args: seq!["pull"@, "--rebase"@, remote@, branch@],
                stdin: None,
            }),
    {
        let args = strings_of(vec!["pull", "--rebase", remote, branch]);
        assert(args.deep_view() =~= seq!["pull"@, "--rebase"@, remote@, branch@]);
        GitCommand { args, stdin: None }
    }

    /// The command that pulls `branch` from `remote` and rebases on it,
    /// also where the two histories have nothing in common.
    pub fn pull_allow_unrelated(remote: &str, branch: &str) -> (c: GitCommand)
        ensures
            c@ == (GitCommandView {
                args: seq![
                    "pull"@,
                    "--rebase"@,
                    "--allow-unrelated-histories"@,
                    remote@,
                    branch@,
                ],
                stdin: None,
            }),
    {
        let args = strings_of(
            vec!["pull", "--rebase", "--allow-unrelated-histories", remote, branch],
        );
        assert(args.deep_view() =~= seq![
            "pull"@,
            "--rebase"@,
            "--allow-unrelated-histories"@,
            remote@,
            branch@,
        ]);
        GitCommand { args, stdin: None }
    }
}

} // verus!
