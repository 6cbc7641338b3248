//! What holds of the buckets of a whole decoded status: each line adds
//! its entries behind those of the lines before it, and a path that one
//! line only names stands in a bucket as often as that line put it there.

use vstd::prelude::*;
use crate::search::starts_with;
use crate::split::{lines, splitn};
use crate::status::{FileEntryView, FileStatus, RepoStatusView, decode_status, index_letter,
    lemma_ordinary_entry_buckets, ordinary_conflicts, ordinary_staged, ordinary_unstaged,
    plain_entry, status_of_char, status_scan, status_step, unknown_status, worktree_letter};

verus! {

/// One of the four buckets of a status.
pub enum Bucket {
    Staged,
    Unstaged,
    Untracked,
    Conflicts,
}

/// The entries of a bucket.
pub open spec fn bucket(st: RepoStatusView, b: Bucket) -> Seq<FileEntryView> {
    match b {
        Bucket::Staged => st.staged,
        Bucket::Unstaged => st.unstaged,
        Bucket::Untracked => st.untracked,
        Bucket::Conflicts => st.conflicts,
    }
}

/// What one line adds to a bucket.
pub open spec fn added_by(line: Seq<char>, b: Bucket) -> Seq<FileEntryView> {
    bucket(status_step(unknown_status(), line), b)
}

/// What the first `n` lines add to a bucket, line by line.
pub open spec fn gathered(lines: Seq<Seq<char>>, n: nat, b: Bucket) -> Seq<FileEntryView>
    decreases n,
{
    if n == 0 {
        Seq::empty()
    } else {
        gathered(lines, (n - 1) as nat, b) + added_by(lines[n - 1], b)
    }
}

/// How often `path` stands in `entries`.
pub open spec fn occurrences(entries: Seq<FileEntryView>, path: Seq<char>) -> nat
    decreases entries.len(),
{
    if entries.len() == 0 {
        0
    } else {
        occurrences(entries.drop_last(), path) + if entries.last().path == path {
            1nat
        } else {
            0nat
        }
    }
}

/// The line puts `path` into one of the buckets.
pub open spec fn names(line: Seq<char>, path: Seq<char>) -> bool {
    occurrences(added_by(line, Bucket::Staged), path) + occurrences(
        added_by(line, Bucket::Unstaged),
        path,
    ) + occurrences(added_by(line, Bucket::Untracked), path) + occurrences(
        added_by(line, Bucket::Conflicts),
        path,
    ) > 0
}

/// No two lines name one path.
pub open spec fn distinct_paths(lines: Seq<Seq<char>>) -> bool {
    forall|i: int, j: int, path: Seq<char>|
        0 <= i < lines.len() && 0 <= j < lines.len() && i != j && #[trigger] names(lines[i], path)
            ==> !#[trigger] names(lines[j], path)
}

/// A step of the decoder puts what the line adds behind what is there.
pub proof fn lemma_step_adds(st: RepoStatusView, line: Seq<char>, b: Bucket)
    ensures
        bucket(status_step(st, line), b) == bucket(st, b) + added_by(line, b),
{
    let nothing = Seq::<FileEntryView>::empty();
    assert(bucket(st, b) + nothing =~= bucket(st, b));
    assert(forall|s: Seq<FileEntryView>| nothing + s =~= s);
    assert(bucket(status_step(st, line), b) =~= bucket(st, b) + added_by(line, b));
}

/// The entries of each bucket follow the order of the lines: a bucket of
/// the decoded status holds what the lines add to it, line by line.
pub proof fn lemma_buckets_in_line_order(lines: Seq<Seq<char>>, n: nat, b: Bucket)
    ensures
        bucket(status_scan(lines, n), b) == gathered(lines, n, b),
    decreases n,
{
    if n > 0 {
        lemma_buckets_in_line_order(lines, (n - 1) as nat, b);
        lemma_step_adds(status_scan(lines, (n - 1) as nat), lines[n - 1], b);
    }
}

/// A path stands in two runs of entries as often as in the one and in the
/// other together.
pub proof fn lemma_occurrences_add(a: Seq<FileEntryView>, b: Seq<FileEntryView>, path: Seq<char>)
    ensures
        occurrences(a + b, path) == occurrences(a, path) + occurrences(b, path),
    decreases b.len(),
{
    if b.len() == 0 {
        assert(a + b =~= a);
    } else {
        lemma_occurrences_add(a, b.drop_last(), path);
        assert((a + b).drop_last() =~= a + b.drop_last());
        assert((a + b).last() == b.last());
    }
}

proof fn lemma_occurrences_one(e: FileEntryView, path: Seq<char>)
    ensures
        occurrences(seq![e], path) == if e.path == path {
            1nat
        } else {
            0nat
        },
        occurrences(Seq::<FileEntryView>::empty(), path) == 0,
{
    reveal_with_fuel(occurrences, 2);
    assert(seq![e].drop_last().len() == 0);
    assert(seq![e].last() == e);
}

/// A path that the line `i` alone names stands in a bucket of the first
/// `n` lines as often as the line `i` put it there, once that line is
/// among them.
proof fn lemma_occurrences_of_one_line(
    lines: Seq<Seq<char>>,
    n: nat,
    i: int,
    path: Seq<char>,
    b: Bucket,
)
    requires
        n <= lines.len(),
        0 <= i < lines.len(),
        distinct_paths(lines),
        names(lines[i], path),
    ensures
        occurrences(gathered(lines, n, b), path) == if i < n {
            occurrences(added_by(lines[i], b), path)
        } else {
            0nat
        },
    decreases n,
{
    if n == 0 {
        lemma_occurrences_one(plain_entry(FileStatus::Modified, path), path);
    } else {
        let k = n - 1;
        lemma_occurrences_of_one_line(lines, k as nat, i, path, b);
        lemma_occurrences_add(gathered(lines, k as nat, b), added_by(lines[k], b), path);
        if k != i {
            assert(!names(lines[k], path));
            assert(occurrences(added_by(lines[k], b), path) == 0);
        }
    }
}

/// What an ordinary entry adds to the buckets, where it is read as one.
proof fn lemma_ordinary_line_adds(line: Seq<char>)
    requires
        starts_with(line, "1 "@),
    ensures
        added_by(line, Bucket::Staged) == ordinary_staged(line),
        added_by(line, Bucket::Unstaged) == ordinary_unstaged(line),
        added_by(line, Bucket::Conflicts) == ordinary_conflicts(line),
        added_by(line, Bucket::Untracked).len() == 0,
{
    reveal_strlit("1 ");
    reveal_strlit("# branch.head ");
    reveal_strlit("# branch.upstream ");
    reveal_strlit("# branch.ab ");
    assert(line.subrange(0, 2)[0] == '1');
    if starts_with(line, "# branch.head "@) {
        assert(line.subrange(0, "# branch.head "@.len() as int)[0] == '#');
    }
    if starts_with(line, "# branch.upstream "@) {
        assert(line.subrange(0, "# branch.upstream "@.len() as int)[0] == '#');
    }
    if starts_with(line, "# branch.ab "@) {
        assert(line.subrange(0, "# branch.ab "@.len() as int)[0] == '#');
    }
    let nothing = Seq::<FileEntryView>::empty();
    assert(nothing + ordinary_staged(line) =~= ordinary_staged(line));
    assert(nothing + ordinary_unstaged(line) =~= ordinary_unstaged(line));
    assert(nothing + ordinary_conflicts(line) =~= ordinary_conflicts(line));
}

/// Bucket completeness for a whole status. In an output whose lines name
/// pairwise distinct paths, the path of an ordinary entry whose two
/// letters both stand for a status is the path of exactly one entry of the
/// staged files and the conflicts together, of the conflicts exactly where
/// `X` stands for a conflict, and of exactly one entry of the unstaged
/// files.
pub proof fn lemma_status_bucket_completeness(
    output: Seq<char>,
    stash_list: Option<Seq<char>>,
    i: int,
)
    requires
        0 <= i < lines(output).len(),
        distinct_paths(lines(output)),
        starts_with(lines(output)[i], "1 "@),
        splitn(lines(output)[i], ' ', 9).len() == 9,
        status_of_char(index_letter(splitn(lines(output)[i], ' ', 9)[1])) is Some,
        status_of_char(worktree_letter(splitn(lines(output)[i], ' ', 9)[1])) is Some,
    ensures
        ({
            let s = decode_status(output, stash_list);
            let parts = splitn(lines(output)[i], ' ', 9);
            let x = status_of_char(index_letter(parts[1]))->0;
            &&& occurrences(s.staged, parts[8]) + occurrences(s.conflicts, parts[8]) == 1
            &&& (occurrences(s.conflicts, parts[8]) == 1 <==> x == FileStatus::Conflicted)
            &&& occurrences(s.unstaged, parts[8]) == 1
        }),
{
    let all = lines(output);
    let line = all[i];
    let parts = splitn(line, ' ', 9);
    let path = parts[8];
    let x = status_of_char(index_letter(parts[1]))->0;
    let y = status_of_char(worktree_letter(parts[1]))->0;
    lemma_ordinary_entry_buckets(line);
    lemma_ordinary_line_adds(line);
    lemma_occurrences_one(plain_entry(x, path), path);
    lemma_occurrences_one(plain_entry(y, path), path);
    assert(occurrences(added_by(line, Bucket::Unstaged), path) == 1);
    assert(names(line, path));
    let n = all.len();
    lemma_buckets_in_line_order(all, n, Bucket::Staged);
    lemma_buckets_in_line_order(all, n, Bucket::Unstaged);
    lemma_buckets_in_line_order(all, n, Bucket::Conflicts);
    lemma_occurrences_of_one_line(all, n, i, path, Bucket::Staged);
    lemma_occurrences_of_one_line(all, n, i, path, Bucket::Unstaged);
    lemma_occurrences_of_one_line(all, n, i, path, Bucket::Conflicts);
    if x == FileStatus::Conflicted {
        assert(ordinary_staged(line) =~= Seq::<FileEntryView>::empty());
    } else {
        assert(ordinary_conflicts(line) =~= Seq::<FileEntryView>::empty());
    }
}

} // verus!
