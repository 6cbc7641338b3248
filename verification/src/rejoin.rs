//! From lines back to text: writing lines out with line feeds, and what
//! that has to do with the text that the lines were cut from.

use vstd::prelude::*;
use crate::search::{occurs_at, find_from, lemma_find_from};
use crate::split::{lines, lines_from, line_between};

verus! {

/// The text that holds each of `lines` followed by a line feed.
pub open spec fn joined_lines(lines: Seq<Seq<char>>) -> Seq<char>
    decreases lines.len(),
{
    if lines.len() == 0 {
        Seq::empty()
    } else {
        joined_lines(lines.drop_last()) + lines.last() + seq!['\n']
    }
}

/// The text that holds `lines` with a line feed between each two.
pub open spec fn joined_by_line_feeds(lines: Seq<Seq<char>>) -> Seq<char>
    decreases lines.len(),
{
    if lines.len() == 0 {
        Seq::empty()
    } else if lines.len() == 1 {
        lines[0]
    } else {
        joined_by_line_feeds(lines.drop_last()) + seq!['\n'] + lines.last()
    }
}

/// `s` ends in a line feed.
pub open spec fn ends_in_line_feed(s: Seq<char>) -> bool {
    s.len() > 0 && s.last() == '\n'
}

/// No line of `s` ends in a carriage return and a line feed.
pub open spec fn plain_line_endings(s: Seq<char>) -> bool {
    forall|i: int| 0 < i < s.len() && #[trigger] s[i] == '\n' ==> s[i - 1] != '\r'
}

/// `s` with a line feed at its end, added where `s` has text and does not
/// end in one.
pub open spec fn with_last_line_feed(s: Seq<char>) -> Seq<char> {
    if s.len() == 0 || s.last() == '\n' {
        s
    } else {
        s.push('\n')
    }
}

/// `part` stands somewhere in `whole`.
pub open spec fn stands_in(part: Seq<char>, whole: Seq<char>) -> bool {
    exists|i: int| occurs_at(whole, part, i)
}

/// Writing out two runs of lines one after the other writes out their
/// concatenation.
pub proof fn lemma_joined_lines_concat(a: Seq<Seq<char>>, b: Seq<Seq<char>>)
    ensures
        joined_lines(a + b) == joined_lines(a) + joined_lines(b),
    decreases b.len(),
{
    if b.len() == 0 {
        assert(a + b =~= a);
        assert(joined_lines(a) + joined_lines(b) =~= joined_lines(a));
    } else {
        lemma_joined_lines_concat(a, b.drop_last());
        assert((a + b).drop_last() =~= a + b.drop_last());
        assert((a + b).last() == b.last());
        assert(joined_lines(a + b) =~= joined_lines(a) + joined_lines(b));
    }
}

/// One line written out is the line and a line feed.
pub proof fn lemma_joined_one_line(line: Seq<char>)
    ensures
        joined_lines(seq![line]) == line + seq!['\n'],
{
    reveal_with_fuel(joined_lines, 2);
    assert(seq![line].drop_last().len() == 0);
    assert(seq![line].last() == line);
    assert(joined_lines(seq![line]) =~= line + seq!['\n']);
}

proof fn lemma_rejoin_from(s: Seq<char>, from: int)
    requires
        plain_line_endings(s),
        0 <= from <= s.len(),
        from == 0 || s[from - 1] == '\n',
    ensures
        joined_lines(lines_from(s, from)) == with_last_line_feed(s).skip(from),
    decreases s.len() - from,
{
    let whole = with_last_line_feed(s);
    if from >= s.len() {
        assert(joined_lines(lines_from(s, from)) =~= whole.skip(from));
    } else {
        lemma_find_from(s, '\n', from);
        let end = find_from(s, '\n', from);
        if end >= s.len() {
            let only = s.subrange(from, s.len() as int);
            lemma_joined_one_line(only);
            assert(s.last() != '\n');
            assert(only + seq!['\n'] =~= whole.skip(from));
        } else {
            let first = line_between(s, from, end);
            assert(first == s.subrange(from, end));
            lemma_rejoin_from(s, end + 1);
            let rest = lines_from(s, end + 1);
            lemma_joined_lines_concat(seq![first], rest);
            lemma_joined_one_line(first);
            assert(first + seq!['\n'] + whole.skip(end + 1) =~= whole.skip(from));
        }
    }
}

/// Writing out the lines of a text, each followed by a line feed, gives the
/// text back, completed by a last line feed.
pub proof fn lemma_rejoin_lines(s: Seq<char>)
    requires
        plain_line_endings(s),
    ensures
        joined_lines(lines(s)) == with_last_line_feed(s),
{
    lemma_rejoin_from(s, 0);
    assert(with_last_line_feed(s).skip(0) =~= with_last_line_feed(s));
}

/// A run of lines of a text, written out, stands in the text.
pub proof fn lemma_run_stands_in_text(s: Seq<char>, k: int, n: int)
    requires
        plain_line_endings(s),
        0 <= k,
        0 <= n,
        k + n <= lines(s).len(),
    ensures
        stands_in(joined_lines(lines(s).subrange(k, k + n)), with_last_line_feed(s)),
{
    let all = lines(s);
    let before = all.take(k);
    let run = all.subrange(k, k + n);
    let after = all.skip(k + n);
    assert(all =~= (before + run) + after);
    lemma_joined_lines_concat(before + run, after);
    lemma_joined_lines_concat(before, run);
    lemma_rejoin_lines(s);
    let whole = with_last_line_feed(s);
    let at = joined_lines(before).len() as int;
    assert(whole == joined_lines(before) + joined_lines(run) + joined_lines(after));
    assert(whole.subrange(at, at + joined_lines(run).len()) =~= joined_lines(run));
    assert(occurs_at(whole, joined_lines(run), at));
}

/// No line of `lines` holds a line feed.
pub open spec fn plain_lines(lines: Seq<Seq<char>>) -> bool {
    forall|i: int, j: int|
        0 <= i < lines.len() && 0 <= j < lines[i].len() ==> #[trigger] lines[i][j] != '\n'
}

proof fn lemma_lines_from_plain(s: Seq<char>, from: int)
    requires
        0 <= from <= s.len(),
    ensures
        plain_lines(lines_from(s, from)),
    decreases s.len() - from,
{
    if from < s.len() {
        lemma_find_from(s, '\n', from);
        let end = find_from(s, '\n', from);
        if end < s.len() {
            lemma_lines_from_plain(s, end + 1);
            let first = line_between(s, from, end);
            let rest = lines_from(s, end + 1);
            let all = lines_from(s, from);
            assert(all == seq![first] + rest);
            assert forall|i: int, j: int| 0 <= i < all.len() && 0 <= j < all[i].len() implies
                #[trigger] all[i][j] != '\n' by {
                if i == 0 {
                    assert(all[0] == first);
                    assert(first[j] == s[from + j]);
                } else {
                    assert(all[i] == rest[i - 1]);
                }
            }
        } else {
            let all = lines_from(s, from);
            assert forall|i: int, j: int| 0 <= i < all.len() && 0 <= j < all[i].len() implies
                #[trigger] all[i][j] != '\n' by {
                assert(all[0][j] == s[from + j]);
            }
        }
    }
}

/// No line of a text holds a line feed.
pub proof fn lemma_lines_plain(s: Seq<char>)
    ensures
        plain_lines(lines(s)),
{
    lemma_lines_from_plain(s, 0);
}

/// Lines joined by line feeds end as their last line ends, where that
/// line holds text.
pub proof fn lemma_joined_last(lines: Seq<Seq<char>>)
    requires
        lines.len() > 0,
        lines.last().len() > 0,
    ensures
        joined_by_line_feeds(lines).len() > 0,
        joined_by_line_feeds(lines).last() == lines.last().last(),
{
}

/// Lines joined by line feeds, with one more line feed at the end, are
/// the lines written out each with its line feed.
pub proof fn lemma_joined_both_ways(lines: Seq<Seq<char>>)
    requires
        lines.len() > 0,
    ensures
        joined_by_line_feeds(lines).push('\n') == joined_lines(lines),
    decreases lines.len(),
{
    if lines.len() == 1 {
        reveal_with_fuel(joined_lines, 2);
        assert(lines.drop_last().len() == 0);
        assert(lines.last() == lines[0]);
        assert(joined_by_line_feeds(lines).push('\n') =~= joined_lines(lines));
    } else {
        lemma_joined_both_ways(lines.drop_last());
        assert(joined_by_line_feeds(lines).push('\n') =~= joined_by_line_feeds(
            lines.drop_last(),
        ).push('\n') + lines.last() + seq!['\n']);
    }
}

} // verus!
