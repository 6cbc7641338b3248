//! Cutting a text into lines, fields and words.

use vstd::prelude::*;
use crate::text::{is_space, char_is_space, subvec, rows};
use crate::search::{find_from, find_char, lemma_find_from, ends_with, matches_at};

verus! {

// ---------------------------------------------------------------------------
// Lines
// ---------------------------------------------------------------------------

/// The line that runs from `from` to the line feed at `end` (or to the end
/// of the text): a carriage return just before the line feed is not part of
/// the line.
pub open spec fn line_between(s: Seq<char>, from: int, end: int) -> Seq<char> {
    if end < s.len() && from < end && s[end - 1] == '\r' {
        s.subrange(from, end - 1)
    } else {
        s.subrange(from, end)
    }
}

/// The lines of `s` from position `from` on.
pub open spec fn lines_from(s: Seq<char>, from: int) -> Seq<Seq<char>>
    decreases s.len() - from,
{
    if from < 0 || from >= s.len() {
        Seq::empty()
    } else {
        let end = find_from(s, '\n', from);
        if end < from || end >= s.len() {
            seq![s.subrange(from, s.len() as int)]
        } else {
            seq![line_between(s, from, end)] + lines_from(s, end + 1)
        }
    }
}

/// The lines of `s`: the pieces between line feeds, without the line
/// ending; a last line feed opens no further line.
pub open spec fn lines(s: Seq<char>) -> Seq<Seq<char>> {
    lines_from(s, 0)
}

/// The lines of `s`.
pub fn split_lines(s: &Vec<char>) -> (r: Vec<Vec<char>>)
    ensures
        rows(r@) == lines(s@),
{
    let mut r: Vec<Vec<char>> = Vec::new();
    let mut pos: usize = 0;
    assert(rows(r@) =~= Seq::<Seq<char>>::empty());
    while pos < s.len()
        invariant
            pos <= s.len(),
            lines(s@) == rows(r@) + lines_from(s@, pos as int),
        decreases s.len() - pos,
    {
        let end = find_char(s, '\n', pos);
        let ghost before = rows(r@);
        proof {
            lemma_find_from(s@, '\n', pos as int);
        }
        let stop: usize = if end < s.len() && pos < end && s[end - 1] == '\r' {
            end - 1
        } else {
            end
        };
        let line = subvec(s, pos, stop);
        r.push(line);
        proof {
            assert(line@ == line_between(s@, pos as int, end as int));
            assert(rows(r@) =~= before.push(line@));
            assert(before + (seq![line@] + lines_from(s@, end + 1)) =~= before.push(line@)
                + lines_from(s@, end + 1));
            assert(before + seq![line@] =~= before.push(line@));
        }
        if end == s.len() {
            assert(lines(s@) =~= rows(r@));
            return r;
        }
        pos = end + 1;
    }
    assert(lines_from(s@, pos as int) =~= Seq::<Seq<char>>::empty());
    assert(lines(s@) =~= rows(r@));
    r
}

// ---------------------------------------------------------------------------
// Fields between a separating character
// ---------------------------------------------------------------------------

/// The pieces of `s` from `from` on that the character `c` separates, at
/// most `n` of them: the last one holds the rest, separators included.
pub open spec fn splitn_from(s: Seq<char>, c: char, n: nat, from: int) -> Seq<Seq<char>>
    decreases n,
{
    if n == 0 {
        Seq::empty()
    } else {
        let end = find_from(s, c, from);
        if n == 1 || end >= s.len() {
            seq![s.subrange(from, s.len() as int)]
        } else {
            seq![s.subrange(from, end)] + splitn_from(s, c, (n - 1) as nat, end + 1)
        }
    }
}

/// The pieces of `s` that `c` separates, at most `n` of them.
pub open spec fn splitn(s: Seq<char>, c: char, n: nat) -> Seq<Seq<char>> {
    splitn_from(s, c, n, 0)
}

/// All the pieces of `s` from `from` on that the character `c` separates.
pub open spec fn split_from(s: Seq<char>, c: char, from: int) -> Seq<Seq<char>>
    decreases s.len() - from,
{
    let end = find_from(s, c, from);
    if from < 0 || end < from || end >= s.len() {
        seq![s.subrange(from, s.len() as int)]
    } else {
        seq![s.subrange(from, end)] + split_from(s, c, end + 1)
    }
}

/// All the pieces of `s` that `c` separates: one more than `s` holds
/// separators.
pub open spec fn split(s: Seq<char>, c: char) -> Seq<Seq<char>> {
    split_from(s, c, 0)
}

/// Cutting yields no more pieces than asked for, and at least one.
pub proof fn lemma_splitn_len(s: Seq<char>, c: char, n: nat, from: int)
    requires
        0 <= from <= s.len(),
        n >= 1,
    ensures
        1 <= splitn_from(s, c, n, from).len() <= n,
    decreases n,
{
    lemma_find_from(s, c, from);
    let end = find_from(s, c, from);
    if n > 1 && end < s.len() {
        lemma_splitn_len(s, c, (n - 1) as nat, end + 1);
    }
}

/// The pieces of `s` that `c` separates, at most `n` of them.
pub fn split_fields(s: &Vec<char>, c: char, n: usize) -> (r: Vec<Vec<char>>)
    ensures
        rows(r@) == splitn(s@, c, n as nat),
{
    let mut r: Vec<Vec<char>> = Vec::new();
    assert(rows(r@) =~= Seq::<Seq<char>>::empty());
    if n == 0 {
        return r;
    }
    let mut pos: usize = 0;
    let mut left: usize = n;
    loop
        invariant
            pos <= s.len(),
            left >= 1,
            splitn(s@, c, n as nat) == rows(r@) + splitn_from(s@, c, left as nat, pos as int),
        decreases left,
    {
        let end = find_char(s, c, pos);
        let ghost before = rows(r@);
        if left == 1 || end >= s.len() {
            let piece = subvec(s, pos, s.len());
            r.push(piece);
            assert(rows(r@) =~= before + seq![piece@]);
            return r;
        }
        let piece = subvec(s, pos, end);
        r.push(piece);
        proof {
            assert(rows(r@) =~= before.push(piece@));
            assert(before + (seq![piece@] + splitn_from(s@, c, (left - 1) as nat, end + 1))
                =~= before.push(piece@) + splitn_from(s@, c, (left - 1) as nat, end + 1));
        }
        pos = end + 1;
        left -= 1;
    }
}

/// All the pieces of `s` that `c` separates.
pub fn split_all(s: &Vec<char>, c: char) -> (r: Vec<Vec<char>>)
    ensures
        rows(r@) == split(s@, c),
        r.len() >= 1,
{
    let mut r: Vec<Vec<char>> = Vec::new();
    assert(rows(r@) =~= Seq::<Seq<char>>::empty());
    let mut pos: usize = 0;
    loop
        invariant
            pos <= s.len(),
            split(s@, c) == rows(r@) + split_from(s@, c, pos as int),
        decreases s.len() - pos,
    {
        let end = find_char(s, c, pos);
        let ghost before = rows(r@);
        if end >= s.len() {
            let piece = subvec(s, pos, s.len());
            r.push(piece);
            assert(rows(r@) =~= before + seq![piece@]);
            return r;
        }
        let piece = subvec(s, pos, end);
        r.push(piece);
        proof {
            assert(rows(r@) =~= before.push(piece@));
            assert(before + (seq![piece@] + split_from(s@, c, end + 1)) =~= before.push(piece@)
                + split_from(s@, c, end + 1));
        }
        pos = end + 1;
    }
}

// ---------------------------------------------------------------------------
// Words between white space
// ---------------------------------------------------------------------------

/// The first position at or after `from` that holds no white space.
pub open spec fn skip_spaces(s: Seq<char>, from: int) -> int
    decreases s.len() - from,
{
    if from >= s.len() {
        s.len() as int
    } else if !is_space(s[from]) {
        from
    } else {
        skip_spaces(s, from + 1)
    }
}

/// The first position at or after `from` that holds white space.
pub open spec fn skip_word(s: Seq<char>, from: int) -> int
    decreases s.len() - from,
{
    if from >= s.len() {
        s.len() as int
    } else if is_space(s[from]) {
        from
    } else {
        skip_word(s, from + 1)
    }
}

/// `skip_spaces` is the first position from `from` on without white space.
pub proof fn lemma_skip_spaces(s: Seq<char>, from: int)
    requires
        0 <= from <= s.len(),
    ensures
        from <= skip_spaces(s, from) <= s.len(),
        skip_spaces(s, from) < s.len() ==> !is_space(s[skip_spaces(s, from)]),
        forall|j: int| from <= j < skip_spaces(s, from) ==> is_space(s[j]),
    decreases s.len() - from,
{
    if from < s.len() && is_space(s[from]) {
        lemma_skip_spaces(s, from + 1);
    }
}

/// `skip_word` is the first position from `from` on with white space.
pub proof fn lemma_skip_word(s: Seq<char>, from: int)
    requires
        0 <= from <= s.len(),
    ensures
        from <= skip_word(s, from) <= s.len(),
        skip_word(s, from) < s.len() ==> is_space(s[skip_word(s, from)]),
        forall|j: int| from <= j < skip_word(s, from) ==> !is_space(s[j]),
    decreases s.len() - from,
{
    if from < s.len() && !is_space(s[from]) {
        lemma_skip_word(s, from + 1);
    }
}

/// The words of `s` from `from` on: the longest runs without white space.
pub open spec fn words_from(s: Seq<char>, from: int) -> Seq<Seq<char>>
    decreases s.len() - from,
{
    let a = skip_spaces(s, from);
    if from < 0 || a < from || a >= s.len() {
        Seq::empty()
    } else {
        let b = skip_word(s, a);
        if b <= a || b > s.len() {
            Seq::empty()
        } else {
            seq![s.subrange(a, b)] + words_from(s, b)
        }
    }
}

/// The words of `s`: the longest runs without white space, none empty.
pub open spec fn words(s: Seq<char>) -> Seq<Seq<char>> {
    words_from(s, 0)
}

/// The first position at or after `from` that holds no white space.
pub fn skip_spaces_at(s: &Vec<char>, from: usize) -> (r: usize)
    requires
        from <= s.len(),
    ensures
        r == skip_spaces(s@, from as int),
        from <= r <= s.len(),
{
    let mut i: usize = from;
    while i < s.len() && char_is_space(s[i])
        invariant
            from <= i <= s.len(),
            skip_spaces(s@, from as int) == skip_spaces(s@, i as int),
        decreases s.len() - i,
    {
        i += 1;
    }
    i
}

/// The first position at or after `from` that holds white space.
pub fn skip_word_at(s: &Vec<char>, from: usize) -> (r: usize)
    requires
        from <= s.len(),
    ensures
        r == skip_word(s@, from as int),
        from <= r <= s.len(),
{
    let mut i: usize = from;
    while i < s.len() && !char_is_space(s[i])
        invariant
            from <= i <= s.len(),
            skip_word(s@, from as int) == skip_word(s@, i as int),
        decreases s.len() - i,
    {
        i += 1;
    }
    i
}

/// The words of `s`.
pub fn split_words(s: &Vec<char>) -> (r: Vec<Vec<char>>)
    ensures
        rows(r@) == words(s@),
{
    let mut r: Vec<Vec<char>> = Vec::new();
    assert(rows(r@) =~= Seq::<Seq<char>>::empty());
    let mut pos: usize = 0;
    loop
        invariant
            pos <= s.len(),
            words(s@) == rows(r@) + words_from(s@, pos as int),
        decreases s.len() - pos,
    {
        let a = skip_spaces_at(s, pos);
        if a >= s.len() {
            assert(words(s@) =~= rows(r@));
            return r;
        }
        let b = skip_word_at(s, a);
        proof {
            lemma_skip_spaces(s@, pos as int);
            lemma_skip_word(s@, a as int);
        }
        assert(b > a);
        let ghost before = rows(r@);
        let word = subvec(s, a, b);
        r.push(word);
        proof {
            assert(rows(r@) =~= before.push(word@));
            assert(before + (seq![word@] + words_from(s@, b as int)) =~= before.push(word@)
                + words_from(s@, b as int));
        }
        pos = b;
    }
}

// ---------------------------------------------------------------------------
// Trimming
// ---------------------------------------------------------------------------

/// The length of `s[..to]` without the white space at its end.
pub open spec fn trimmed_end(s: Seq<char>, to: int) -> int
    decreases to,
{
    if to <= 0 {
        0
    } else if !is_space(s[to - 1]) {
        to
    } else {
        trimmed_end(s, to - 1)
    }
}

/// `trimmed_end` is where the white space at the end of `s[..to]` begins.
pub proof fn lemma_trimmed_end(s: Seq<char>, to: int)
    requires
        0 <= to <= s.len(),
    ensures
        0 <= trimmed_end(s, to) <= to,
        trimmed_end(s, to) > 0 ==> !is_space(s[trimmed_end(s, to) - 1]),
        forall|j: int| trimmed_end(s, to) <= j < to ==> is_space(s[j]),
    decreases to,
{
    if to > 0 && is_space(s[to - 1]) {
        lemma_trimmed_end(s, to - 1);
    }
}

/// `s` without the white space at its two ends.
pub open spec fn trim(s: Seq<char>) -> Seq<char> {
    let a = skip_spaces(s, 0);
    let b = trimmed_end(s, s.len() as int);
    if a >= b {
        Seq::empty()
    } else {
        s.subrange(a, b)
    }
}

/// The length of `s` without the white space at its end.
pub fn trimmed_end_at(s: &Vec<char>) -> (r: usize)
    ensures
        r == trimmed_end(s@, s.len() as int),
        r <= s.len(),
{
    let mut i: usize = s.len();
    while i > 0 && char_is_space(s[i - 1])
        invariant
            i <= s.len(),
            trimmed_end(s@, s.len() as int) == trimmed_end(s@, i as int),
        decreases i,
    {
        i -= 1;
    }
    i
}

/// `s` without the white space at its two ends.
pub fn trimmed(s: &Vec<char>) -> (r: Vec<char>)
    ensures
        r@ == trim(s@),
{
    let a = skip_spaces_at(s, 0);
    let b = trimmed_end_at(s);
    if a >= b {
        Vec::new()
    } else {
        subvec(s, a, b)
    }
}

/// The first position at or after `from` that does not hold `c`.
pub open spec fn skip_char(s: Seq<char>, c: char, from: int) -> int
    decreases s.len() - from,
{
    if from >= s.len() {
        s.len() as int
    } else if s[from] != c {
        from
    } else {
        skip_char(s, c, from + 1)
    }
}

/// `s` without the run of `c` at its start.
pub open spec fn trim_start_char(s: Seq<char>, c: char) -> Seq<char> {
    s.subrange(skip_char(s, c, 0), s.len() as int)
}

/// `s` without the run of `c` at its start.
pub fn trimmed_start_char(s: &Vec<char>, c: char) -> (r: Vec<char>)
    ensures
        r@ == trim_start_char(s@, c),
{
    let mut i: usize = 0;
    while i < s.len() && s[i] == c
        invariant
            i <= s.len(),
            skip_char(s@, c, 0) == skip_char(s@, c, i as int),
        decreases s.len() - i,
    {
        i += 1;
    }
    subvec(s, i, s.len())
}

/// `s` without every `p` at its end, one after the other.
pub open spec fn trim_end_str(s: Seq<char>, p: Seq<char>) -> Seq<char>
    decreases s.len(),
{
    if p.len() > 0 && ends_with(s, p) {
        trim_end_str(s.take(s.len() - p.len()), p)
    } else {
        s
    }
}

/// `s` without every `p` at its end.
pub fn trimmed_end_str(s: &Vec<char>, p: &Vec<char>) -> (r: Vec<char>)
    ensures
        r@ == trim_end_str(s@, p@),
{
    let mut end: usize = s.len();
    assert(s@.take(end as int) =~= s@);
    if p.len() == 0 {
        return subvec(s, 0, end);
    }
    while end >= p.len()
        invariant
            end <= s.len(),
            p.len() > 0,
            trim_end_str(s@, p@) == trim_end_str(s@.take(end as int), p@),
        decreases end,
    {
        let at = end - p.len();
        let ghost head = s@.take(end as int);
        let found = matches_at(s, p, at);
        proof {
            assert(head.subrange(at as int, at + p.len()) =~= s@.subrange(
                at as int,
                at + p.len(),
            ));
            assert(found == ends_with(head, p@));
            assert(head.take(head.len() - p.len()) =~= s@.take(at as int));
        }
        if !found {
            return subvec(s, 0, end);
        }
        end = at;
    }
    subvec(s, 0, end)
}

} // verus!
