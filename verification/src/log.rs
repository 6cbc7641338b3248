//! The commit log: the commands that print it and the decoder of their
//! output, graph lines included.

use vstd::prelude::*;
use vstd::string::*;
use crate::text::{chars_of, string_of, rows};
use crate::split::{lines, split_lines, split, split_all, words, split_words, trim, trimmed};
use crate::number::{decimal, parse_usize, parse_usize_of};
use crate::command::{GitCommand, GitCommandView, numbered, prefixed};

verus! {

// ---------------------------------------------------------------------------
// The model
// ---------------------------------------------------------------------------

/// One line of the log: a commit with the graph drawn before it, or a line
/// of the graph alone, which has an empty hash.
#[derive(Debug, Clone)]
pub struct CommitEntry {
    pub hash: String,
    pub short_hash: String,
    pub message: String,
    pub author: String,
    /// The date in words, such as `2 hours ago`.
    pub date: String,
    /// The date in ISO 8601.
    pub date_iso: String,
    pub parents: Vec<String>,
    /// The refs that point to the commit.
    pub refs: String,
    /// The part of the graph on this line.
    pub graph: String}

/// The mathematical value of a `CommitEntry`.
pub struct CommitEntryView {
    pub hash: Seq<char>,
    pub short_hash: Seq<char>,
    pub message: Seq<char>,
    pub author: Seq<char>,
    pub date: Seq<char>,
    pub date_iso: Seq<char>,
    pub parents: Seq<Seq<char>>,
    pub refs: Seq<char>,
    pub graph: Seq<char>}

impl View for CommitEntry {
    type V = CommitEntryView;

    open spec fn view(&self) -> CommitEntryView {
        CommitEntryView {
            hash: self.hash@,
            short_hash: self.short_hash@,
            message: self.message@,
            author: self.author@,
            date: self.date@,
            date_iso: self.date_iso@,
            parents: self.parents.deep_view(),
            refs: self.refs@,
            graph: self.graph@}
    }
}

impl DeepView for CommitEntry {
    type V = CommitEntryView;

    open spec fn deep_view(&self) -> CommitEntryView {
        self@
    }
}

// ---------------------------------------------------------------------------
// Finding the hash
// ---------------------------------------------------------------------------

/// The regular expression that finds a commit's hash in a log line: forty
/// hexadecimal digits in lower case and the unit separator behind them.
pub open spec fn commit_pattern() -> Seq<char> {
    "([0-9a-f]{40})\\x1f"@
}

/// One of the digits `0` to `9` and `a` to `f`.
pub open spec fn is_hash_digit(c: char) -> bool {
    ('0' <= c <= '9') || ('a' <= c <= 'f')
}

/// A hash stands in `line` at the position `i`: forty hash digits and the
/// unit separator behind them.
pub open spec fn hash_at(line: Seq<char>, i: int) -> bool {
    &&& 0 <= i
    &&& i + 41 <= line.len()
    &&& forall|k: int| 0 <= k < 40 ==> is_hash_digit(#[trigger] line[i + k])
    &&& line[i + 40] == '\x1f'
}

/// The first position at or after `from` at which a hash stands.
pub open spec fn first_hash_from(line: Seq<char>, from: int) -> Option<int>
    decreases line.len() + 1 - from,
{
    if from < 0 || from + 41 > line.len() {
        None
    } else if hash_at(line, from) {
        Some(from)
    } else {
        first_hash_from(line, from + 1)
    }
}

/// The first position at which a hash stands in `line`.
pub open spec fn first_hash(line: Seq<char>) -> Option<int> {
    first_hash_from(line, 0)
}

/// `first_hash_from` is the least position from `from` on at which a hash
/// stands; it gives none exactly where no hash stands from there on.
pub proof fn lemma_first_hash_from(line: Seq<char>, from: int)
    requires
        0 <= from,
    ensures
        match first_hash_from(line, from) {
            Some(i) => from <= i && hash_at(line, i) && forall|j: int|
                from <= j < i ==> !hash_at(line, j),
            None => forall|j: int| from <= j ==> !hash_at(line, j),
        },
    decreases line.len() + 1 - from,
{
    if from + 41 <= line.len() && !hash_at(line, from) {
        lemma_first_hash_from(line, from + 1);
    }
}

/// `Regex::new` and `Regex::find` of the regex crate, for the pattern of
/// the commit hash alone: the line is cut in two where the first match
/// begins. The pattern matches forty characters of `0-9a-f` and the
/// character U+001F behind them, and the search gives the first match; so
/// the first part ends where the first hash stands, the two parts together
/// are the line, and there is no match exactly where no hash stands.
#[verifier::external_body]
fn split_at_match(pattern: &str, line: &str) -> (r: Option<(String, String)>)
    requires
        pattern@ == commit_pattern(),
    ensures
        match r {
            Some(parts) => first_hash(line@) == Some(parts.0@.len() as int) && parts.0@
                + parts.1@ == line@,
            None => first_hash(line@) is None,
        },
{
    let re = match regex::Regex::new(pattern) {
        Ok(re) => re,
        Err(_) => return None,
    };
    match re.find(line) {
        Some(m) => Some((line[..m.start()].to_string(), line[m.start()..].to_string())),
        None => None,
    }
}

// ---------------------------------------------------------------------------
// The decoder
// ---------------------------------------------------------------------------

/// The entry of a line of the graph alone: every field is empty but the
/// graph, which is the line as it stands.
pub open spec fn graph_entry(line: Seq<char>) -> CommitEntryView {
    CommitEntryView {
        hash: Seq::empty(),
        short_hash: Seq::empty(),
        message: Seq::empty(),
        author: Seq::empty(),
        date: Seq::empty(),
        date_iso: Seq::empty(),
        parents: Seq::empty(),
        refs: Seq::empty(),
        graph: line}
}

/// The entry of a commit line: `graph` stands before the hash, and `data`
/// holds the eight fields that unit separators part. A line of fewer
/// fields gives no entry.
pub open spec fn commit_entry(graph: Seq<char>, data: Seq<char>) -> Option<CommitEntryView> {
    let parts = split(data, '\x1f');
    if parts.len() < 8 {
        None
    } else {
        Some(
            CommitEntryView {
                hash: parts[0],
                short_hash: parts[1],
                message: parts[2],
                author: parts[3],
                date: parts[4],
                date_iso: parts[5],
                parents: words(parts[6]),
                refs: parts[7],
                graph},
        )
    }
}

/// The entry of a log line, given where its hash was found: `found` holds
/// the text before the hash and the text from the hash on. A line without
/// a hash is a line of the graph and gives an entry that holds it.
pub open spec fn log_line_entry(line: Seq<char>, found: Option<(Seq<char>, Seq<char>)>) -> Option<
    CommitEntryView,
> {
    match found {
        Some(parts) => commit_entry(parts.0, parts.1),
        None => Some(graph_entry(line)),
    }
}

/// Where the first hash stands in a log line: the text before it and the
/// text from it on.
pub open spec fn hash_split(line: Seq<char>) -> Option<(Seq<char>, Seq<char>)> {
    match first_hash(line) {
        Some(k) => Some((line.take(k), line.skip(k))),
        None => None}
}

/// The entries of the first `n` lines of a log.
pub open spec fn log_scan(lines: Seq<Seq<char>>, n: nat) -> Seq<CommitEntryView>
    decreases n,
{
    if n == 0 {
        Seq::empty()
    } else {
        let before = log_scan(lines, (n - 1) as nat);
        match log_line_entry(lines[n - 1], hash_split(lines[n - 1])) {
            Some(e) => before.push(e),
            None => before}
    }
}

/// The entries that the output of `git log --graph` describes.
pub open spec fn decode_log(output: Seq<char>) -> Seq<CommitEntryView> {
    log_scan(lines(output), lines(output).len())
}

/// The view of what `split_at_match` found.
pub open spec fn found_view(found: Option<(String, String)>) -> Option<(Seq<char>, Seq<char>)> {
    match found {
        Some(parts) => Some((parts.0@, parts.1@)),
        None => None}
}

fn strings_of_rows(v: &Vec<Vec<char>>) -> (r: Vec<String>)
    ensures
        r.deep_view() == rows(v@),
{
    let mut r: Vec<String> = Vec::new();
    let mut i: usize = 0;
    while i < v.len()
        invariant
            i <= v.len(),
            r.len() == i,
            forall|j: int| 0 <= j < i ==> r@[j]@ == v@[j]@,
        decreases v.len() - i,
    {
        r.push(string_of(&v[i]));
        i += 1;
    }
    assert(r.deep_view() =~= rows(v@));
    r
}

/// Reads one line of the log, given where its hash was found: `found`
/// holds the text before the hash and the text from the hash on, or
/// nothing where the line has no hash.
pub fn parse_log_line(line: &str, found: &Option<(String, String)>) -> (entry: Option<
    CommitEntry,
>)
    ensures
        entry.deep_view() == log_line_entry(line@, found_view(*found)),
{
    match found {
        Some(parts) => {
            let data = chars_of(parts.1.as_str());
            let fields = split_all(&data, '\x1f');
            if fields.len() < 8 {
                return None;
            }
            assert(forall|j: int| 0 <= j < 8 ==> rows(fields@)[j] == fields@[j]@);
            let parents = strings_of_rows(&split_words(&fields[6]));
            Some(
                CommitEntry {
                    hash: string_of(&fields[0]),
                    short_hash: string_of(&fields[1]),
                    message: string_of(&fields[2]),
                    author: string_of(&fields[3]),
                    date: string_of(&fields[4]),
                    date_iso: string_of(&fields[5]),
                    parents,
                    refs: string_of(&fields[7]),
                    graph: parts.0.clone()},
            )
        },
        None => {
            let none: Vec<String> = Vec::new();
            assert(none.deep_view() =~= Seq::<Seq<char>>::empty());
            Some(
                CommitEntry {
                    hash: String::new(),
                    short_hash: String::new(),
                    message: String::new(),
                    author: String::new(),
                    date: String::new(),
                    date_iso: String::new(),
                    parents: none,
                    refs: String::new(),
                    graph: String::from_str(line),
                },
            )
        },
    }
}

/// Decodes the output of `git log --graph` with the log format of this
/// crate into its entries, one for each commit and one for each line of
/// the graph alone.
pub fn parse_log_output(output: &str) -> (entries: Vec<CommitEntry>)
    ensures
        entries.deep_view() == decode_log(output@),
{
    let text = chars_of(output);
    let all = split_lines(&text);
    let mut entries: Vec<CommitEntry> = Vec::new();
    assert(entries.deep_view() =~= Seq::<CommitEntryView>::empty());
    let mut i: usize = 0;
    while i < all.len()
        invariant
            i <= all.len(),
            rows(all@) == lines(output@),
            entries.deep_view() == log_scan(rows(all@), i as nat),
        decreases all.len() - i,
    {
        assert(rows(all@)[i as int] == all@[i as int]@);
        let line = string_of(&all[i]);
        let found = split_at_match("([0-9a-f]{40})\\x1f", line.as_str());
        proof {
            let seen = found_view(found);
            match seen {
                Some((graph, data)) => {
                    assert(line@.take(graph.len() as int) =~= graph);
                    assert(line@.skip(graph.len() as int) =~= data);
                },
                None => {}}
            assert(seen == hash_split(line@));
        }
        let ghost before = entries.deep_view();
        match parse_log_line(line.as_str(), &found) {
            Some(e) => {
                entries.push(e);
                assert(entries.deep_view() =~= before.push(e@));
            },
            None => {}}
        i += 1;
    }
    entries
}

/// A line in which no hash stands gives an entry with an empty hash whose
/// graph is the line to the letter.
pub proof fn lemma_graph_line_kept(line: Seq<char>)
    requires
        forall|j: int| !hash_at(line, j),
    ensures
        log_line_entry(line, hash_split(line)) == Some(graph_entry(line)),
        graph_entry(line).hash.len() == 0,
        graph_entry(line).graph == line,
{
    lemma_first_hash_from(line, 0);
}

/// The entry of a line has an empty hash exactly where no hash stands in
/// the line: a commit's hash has forty digits.
pub proof fn lemma_hash_empty_for_graph_lines(line: Seq<char>)
    ensures
        match log_line_entry(line, hash_split(line)) {
            Some(e) => (e.hash.len() == 0 <==> first_hash(line) is None) && (first_hash(line)
                is Some ==> e.hash.len() == 40),
            None => first_hash(line) is Some,
        },
{
    lemma_first_hash_from(line, 0);
    match first_hash(line) {
        Some(k) => {
            let data = line.skip(k);
            assert(hash_at(line, k));
            crate::search::lemma_find_from(data, '\x1f', 0);
            let end = crate::search::find_from(data, '\x1f', 0);
            assert(data[40] == line[k + 40]);
            assert forall|j: int| 0 <= j < 40 implies data[j] != '\x1f' by {
                assert(data[j] == line[k + j]);
                assert(is_hash_digit(line[k + j]));
            }
            if end < 40 {
                assert(data[end] == '\x1f');
            }
            assert(end == 40);
            let parts = split(data, '\x1f');
            assert(parts[0] == data.subrange(0, 40));
        },
        None => {},
    }
}

/// Every line of a log gives at most one entry, in the order of the
/// lines, and a line without a hash always gives one.
pub proof fn lemma_log_grows_line_by_line(lines: Seq<Seq<char>>, n: nat)
    requires
        0 < n <= lines.len(),
    ensures
        hash_split(lines[n - 1]) is None ==> log_scan(lines, n) == log_scan(
            lines,
            (n - 1) as nat,
        ).push(graph_entry(lines[n - 1])),
        log_scan(lines, n).len() <= log_scan(lines, (n - 1) as nat).len() + 1,
        log_scan(lines, (n - 1) as nat).is_prefix_of(log_scan(lines, n)),
{
}

// ---------------------------------------------------------------------------
// The commands
// ---------------------------------------------------------------------------

/// The format in which the log is asked for: hash, short hash, subject,
/// author, date in words, date in ISO 8601, parents and refs, with the
/// unit separator between them.
pub open spec fn log_format() -> Seq<char> {
    "%H\x1f%h\x1f%s\x1f%an\x1f%ar\x1f%aI\x1f%P\x1f%D"@
}

/// The arguments of the log of `count` commits behind the first `skip`,
/// with the graph, of `branch` or of the current branch.
pub open spec fn log_args(count: nat, skip: nat, branch: Option<Seq<char>>) -> Seq<Seq<char>> {
    let fixed = seq![
        "log"@,
        "-"@ + decimal(count),
        "--skip="@ + decimal(skip),
        "--format="@ + log_format(),
        "--graph"@,
        "--color=never"@,
    ];
    match branch {
        Some(b) => fixed.push(b),
        None => fixed}
}

/// The arguments of the search for `query` in the messages of the
/// commits, whatever the case of the letters, with at most `count` results.
pub open spec fn search_args(query: Seq<char>, count: nat) -> Seq<Seq<char>> {
    seq![
        "log"@,
        "-"@ + decimal(count),
        "--format="@ + log_format(),
        "--grep="@ + query,
        "-i"@,
    ]
}

/// The command that prints `count` log entries behind the first `skip`,
/// with the graph.
pub fn get_log(count: usize, skip: usize, branch: Option<&str>) -> (c: GitCommand)
    ensures
        c@ == (GitCommandView {
            args: log_args(
                count as nat,
                skip as nat,
                match branch {
                    Some(b) => Some(b@),
                    None => None},
            ),
            stdin: None}),
{
    let mut args: Vec<String> = Vec::new();
    args.push(String::from_str("log"));
    args.push(numbered("-", count));
    args.push(numbered("--skip=", skip));
    args.push(prefixed("--format=", "%H\x1f%h\x1f%s\x1f%an\x1f%ar\x1f%aI\x1f%P\x1f%D"));
    args.push(String::from_str("--graph"));
    args.push(String::from_str("--color=never"));
    match branch {
        Some(b) => {
            args.push(String::from_str(b));
        },
        None => {}}
    assert(args.deep_view() =~= log_args(
        count as nat,
        skip as nat,
        match branch {
            Some(b) => Some(b@),
            None => None},
    ));
    GitCommand { args, stdin: None }
}

/// The command that prints the last `count` commits of the current branch.
pub fn get_recent_commits(count: usize) -> (c: GitCommand)
    ensures
        c@ == (GitCommandView { args: log_args(count as nat, 0, None), stdin: None }),
{
    get_log(count, 0, None)
}

/// The command that searches the messages of the commits for `query`.
pub fn search_commits(query: &str, count: usize) -> (c: GitCommand)
    ensures
        c@ == (GitCommandView { args: search_args(query@, count as nat), stdin: None }),
{
    let mut args: Vec<String> = Vec::new();
    args.push(String::from_str("log"));
    args.push(numbered("-", count));
    args.push(prefixed("--format=", "%H\x1f%h\x1f%s\x1f%an\x1f%ar\x1f%aI\x1f%P\x1f%D"));
    args.push(prefixed("--grep=", query));
    args.push(String::from_str("-i"));
    assert(args.deep_view() =~= search_args(query@, count as nat));
    GitCommand { args, stdin: None }
}

/// The number that `s` denotes, 0 where it denotes none.
pub open spec fn usize_or_zero(s: Seq<char>) -> usize {
    match parse_usize(s) {
        Some(n) => n,
        None => 0usize}
}

/// The number of commits that `git rev-list --count HEAD` printed: its
/// output without the white space at its ends, read as a number; 0 where
/// that is none.
pub fn commit_count(output: &str) -> (n: usize)
    ensures
        n == usize_or_zero(trim(output@)),
{
    match parse_usize_of(&trimmed(&chars_of(output))) {
        Some(n) => n,
        None => 0}
}

} // verus!
