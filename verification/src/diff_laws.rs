//! What holds of every decoded diff: the shape of its hunks, and that the
//! lines of a hunk are the lines of the input that it was read from.

use vstd::prelude::*;
use crate::search::starts_with;
use crate::split::lines;
use crate::rejoin::{joined_lines, plain_line_endings, with_last_line_feed, stands_in,
    lemma_run_stands_in_text};
use crate::diff::{DiffLineType, DiffLineView, HunkView, FileDiffView, DiffScan, classify_line,
    hunk_header_fields, diff_step, diff_scan, decode_diff_lines, closed_files, file_with_hunk,
    line_contents, opened_hunk, decode_diff, after_last, opened_file};

verus! {

/// The shape of a hunk: its first line is its header, which begins with
/// `@@` and gives the hunk's four numbers; every further line is context,
/// added or removed, as its first character says.
pub open spec fn hunk_shape(h: HunkView) -> bool {
    &&& h.lines.len() >= 1
    &&& h.lines[0] == (DiffLineView { line_type: DiffLineType::Header, content: h.header })
    &&& starts_with(h.header, "@@"@)
    &&& (h.old_start, h.old_count, h.new_start, h.new_count) == hunk_header_fields(h.header)
    &&& forall|i: int|
        1 <= i < h.lines.len() ==> (#[trigger] h.lines[i]).line_type == classify_line(
            h.lines[i].content,
        )
}

/// The lines of `h` are the lines of the input from line `k` on.
pub open spec fn hunk_run_at(lines: Seq<Seq<char>>, h: HunkView, k: int) -> bool {
    &&& 0 <= k
    &&& k + h.lines.len() <= lines.len()
    &&& line_contents(h.lines) == lines.subrange(k, k + h.lines.len())
}

/// The lines of `h` are a run of lines of the input.
pub open spec fn hunk_is_run(lines: Seq<Seq<char>>, h: HunkView) -> bool {
    exists|k: int| hunk_run_at(lines, h, k)
}

/// No line that begins with `rename from ` stands inside a hunk. The lines
/// that `git` prints inside a hunk begin with a blank, `+`, `-` or `\`.
pub open spec fn hunks_unbroken(lines: Seq<Seq<char>>) -> bool {
    forall|i: int|
        0 <= i < lines.len() && starts_with(#[trigger] lines[i], "rename from "@) ==> diff_scan(
            lines,
            i as nat,
        ).hunk is None
}

spec fn hunk_ok(lines: Seq<Seq<char>>, h: HunkView) -> bool {
    hunk_shape(h) && (hunks_unbroken(lines) ==> hunk_is_run(lines, h))
}

spec fn hunks_ok(lines: Seq<Seq<char>>, hunks: Seq<HunkView>) -> bool {
    forall|m: int| 0 <= m < hunks.len() ==> hunk_ok(lines, #[trigger] hunks[m])
}

spec fn files_ok(lines: Seq<Seq<char>>, files: Seq<FileDiffView>) -> bool {
    forall|j: int| 0 <= j < files.len() ==> hunks_ok(lines, (#[trigger] files[j]).hunks)
}

spec fn open_hunk_ok(lines: Seq<Seq<char>>, n: int, hunk: Option<HunkView>) -> bool {
    match hunk {
        Some(h) => hunk_shape(h) && (hunks_unbroken(lines) ==> hunk_run_at(
            lines,
            h,
            n - h.lines.len(),
        )),
        None => true,
    }
}

spec fn scan_ok(lines: Seq<Seq<char>>, n: int, st: DiffScan) -> bool {
    &&& files_ok(lines, st.files)
    &&& match st.file {
        Some(f) => hunks_ok(lines, f.hunks),
        None => true,
    }
    &&& open_hunk_ok(lines, n, st.hunk)
}

proof fn lemma_file_with_hunk_ok(
    lines: Seq<Seq<char>>,
    n: int,
    f: FileDiffView,
    hunk: Option<HunkView>,
)
    requires
        hunks_ok(lines, f.hunks),
        open_hunk_ok(lines, n, hunk),
    ensures
        hunks_ok(lines, file_with_hunk(f, hunk).hunks),
{
    match hunk {
        Some(h) => {
            if hunks_unbroken(lines) {
                assert(hunk_run_at(lines, h, n - h.lines.len()));
            }
            assert(hunk_ok(lines, h));
            let after = file_with_hunk(f, hunk).hunks;
            assert forall|m: int| 0 <= m < after.len() implies hunk_ok(
                lines,
                #[trigger] after[m],
            ) by {
                if m < f.hunks.len() {
                    assert(after[m] == f.hunks[m]);
                }
            }
        },
        None => {},
    }
}

proof fn lemma_closed_files_ok(lines: Seq<Seq<char>>, n: int, st: DiffScan)
    requires
        scan_ok(lines, n, st),
    ensures
        files_ok(lines, closed_files(st)),
{
    match st.file {
        Some(f) => {
            lemma_file_with_hunk_ok(lines, n, f, st.hunk);
            let after = closed_files(st);
            assert forall|j: int| 0 <= j < after.len() implies hunks_ok(
                lines,
                (#[trigger] after[j]).hunks,
            ) by {
                if j < st.files.len() {
                    assert(after[j] == st.files[j]);
                }
            }
        },
        None => {},
    }
}

proof fn lemma_opened_hunk_ok(lines: Seq<Seq<char>>, i: int)
    requires
        0 <= i < lines.len(),
        starts_with(lines[i], "@@"@),
    ensures
        open_hunk_ok(lines, i + 1, Some(opened_hunk(lines[i]))),
{
    let h = opened_hunk(lines[i]);
    assert(line_contents(h.lines) =~= lines.subrange(i, i + 1));
}

proof fn lemma_grown_hunk_ok(lines: Seq<Seq<char>>, i: int, h: HunkView)
    requires
        0 <= i < lines.len(),
        open_hunk_ok(lines, i, Some(h)),
    ensures
        open_hunk_ok(
            lines,
            i + 1,
            Some(
                HunkView {
                    lines: h.lines.push(
                        DiffLineView { line_type: classify_line(lines[i]), content: lines[i] },
                    ),
                    ..h
                },
            ),
        ),
{
    let entry = DiffLineView { line_type: classify_line(lines[i]), content: lines[i] };
    let g = HunkView { lines: h.lines.push(entry), ..h };
    assert(g.lines[0] == h.lines[0]);
    assert forall|j: int| 1 <= j < g.lines.len() implies (#[trigger] g.lines[j]).line_type
        == classify_line(g.lines[j].content) by {
        if j < h.lines.len() {
            assert(g.lines[j] == h.lines[j]);
        }
    }
    if hunks_unbroken(lines) {
        let k = i - h.lines.len();
        assert(line_contents(g.lines) =~= lines.subrange(k, k + g.lines.len()));
    }
}

proof fn lemma_scan_ok(lines: Seq<Seq<char>>, n: nat)
    requires
        n <= lines.len(),
    ensures
        scan_ok(lines, n as int, diff_scan(lines, n)),
    decreases n,
{
    if n > 0 {
        let i = (n - 1) as nat;
        lemma_scan_ok(lines, i);
        let st = diff_scan(lines, i);
        let line = lines[i as int];
        let next = diff_step(st, line);
        assert(diff_scan(lines, n) == next);
        if starts_with(line, "diff --git"@) {
            lemma_closed_files_ok(lines, i as int, st);
        } else if starts_with(line, "rename from "@) {
            if hunks_unbroken(lines) {
                assert(st.hunk is None);
            }
        } else if starts_with(line, "@@"@) {
            match st.file {
                Some(f) => {
                    lemma_file_with_hunk_ok(lines, i as int, f, st.hunk);
                },
                None => {},
            }
            lemma_opened_hunk_ok(lines, i as int);
        } else {
            match st.hunk {
                Some(h) => {
                    lemma_grown_hunk_ok(lines, i as int, h);
                },
                None => {},
            }
        }
    }
}

/// Every hunk of a decoded diff has the shape of a hunk: exactly one header
/// line, which opens it.
pub proof fn lemma_decoded_hunks_have_shape(lines: Seq<Seq<char>>)
    ensures
        forall|j: int, m: int|
            0 <= j < decode_diff_lines(lines).len() && 0 <= m < decode_diff_lines(
                lines,
            )[j].hunks.len() ==> hunk_shape(#[trigger] decode_diff_lines(lines)[j].hunks[m]),
{
    lemma_scan_ok(lines, lines.len());
    lemma_closed_files_ok(lines, lines.len() as int, diff_scan(lines, lines.len()));
    let files = decode_diff_lines(lines);
    assert forall|j: int, m: int| 0 <= j < files.len() && 0 <= m < files[j].hunks.len() implies
        hunk_shape(#[trigger] files[j].hunks[m]) by {
        assert(hunks_ok(lines, files[j].hunks));
        assert(hunk_ok(lines, files[j].hunks[m]));
    }
}

/// The lines of every hunk of a decoded diff are, unchanged and in order, a
/// run of lines of the input: writing them out again gives back the part of
/// the diff that the hunk was read from.
pub proof fn lemma_decoded_hunks_are_runs(lines: Seq<Seq<char>>)
    requires
        hunks_unbroken(lines),
    ensures
        forall|j: int, m: int|
            0 <= j < decode_diff_lines(lines).len() && 0 <= m < decode_diff_lines(
                lines,
            )[j].hunks.len() ==> hunk_is_run(
                lines,
                #[trigger] decode_diff_lines(lines)[j].hunks[m],
            ),
{
    lemma_scan_ok(lines, lines.len());
    lemma_closed_files_ok(lines, lines.len() as int, diff_scan(lines, lines.len()));
    let files = decode_diff_lines(lines);
    assert forall|j: int, m: int| 0 <= j < files.len() && 0 <= m < files[j].hunks.len() implies
        hunk_is_run(lines, #[trigger] files[j].hunks[m]) by {
        assert(hunks_ok(lines, files[j].hunks));
        assert(hunk_ok(lines, files[j].hunks[m]));
    }
}

// ---------------------------------------------------------------------------
// From lines back to text
// ---------------------------------------------------------------------------

/// The round trip: the lines of each hunk of a decoded diff, written out
/// again with a line feed after each, are to the letter a part of the text
/// that was decoded.
pub proof fn lemma_hunk_text_round_trip(output: Seq<char>)
    requires
        plain_line_endings(output),
        hunks_unbroken(lines(output)),
    ensures
        forall|j: int, m: int|
            0 <= j < decode_diff(output).len() && 0 <= m < decode_diff(output)[j].hunks.len()
                ==> stands_in(
                joined_lines(line_contents((#[trigger] decode_diff(output)[j].hunks[m]).lines)),
                with_last_line_feed(output),
            ),
{
    let all = lines(output);
    lemma_decoded_hunks_are_runs(all);
    let files = decode_diff(output);
    assert forall|j: int, m: int| 0 <= j < files.len() && 0 <= m < files[j].hunks.len() implies
        stands_in(
        joined_lines(line_contents((#[trigger] files[j].hunks[m]).lines)),
        with_last_line_feed(output),
    ) by {
        let h = files[j].hunks[m];
        assert(hunk_is_run(all, h));
        let k = choose|k: int| hunk_run_at(all, h, k);
        lemma_run_stands_in_text(output, k, h.lines.len() as int);
    }
}

// ---------------------------------------------------------------------------
// Nothing lost, nothing invented, everything in order
// ---------------------------------------------------------------------------

/// The line opens a file.
pub open spec fn is_file_line(line: Seq<char>) -> bool {
    starts_with(line, "diff --git"@)
}

/// The line opens a hunk.
pub open spec fn is_hunk_line(line: Seq<char>) -> bool {
    !starts_with(line, "diff --git"@) && !starts_with(line, "rename from "@) && starts_with(
        line,
        "@@"@,
    )
}

/// The paths that the file lines among the first `n` lines name, in order.
pub open spec fn named_paths(lines: Seq<Seq<char>>, n: nat) -> Seq<Seq<char>>
    decreases n,
{
    if n == 0 {
        Seq::empty()
    } else {
        let before = named_paths(lines, (n - 1) as nat);
        if is_file_line(lines[n - 1]) {
            before.push(after_last(lines[n - 1], " b/"@))
        } else {
            before
        }
    }
}

/// The hunk lines among the first `n` lines that stand under a file, in
/// order.
pub open spec fn kept_headers(lines: Seq<Seq<char>>, n: nat) -> Seq<Seq<char>>
    decreases n,
{
    if n == 0 {
        Seq::empty()
    } else {
        let before = kept_headers(lines, (n - 1) as nat);
        if is_hunk_line(lines[n - 1]) && diff_scan(lines, (n - 1) as nat).file is Some {
            before.push(lines[n - 1])
        } else {
            before
        }
    }
}

/// The paths of `files`, in order.
pub open spec fn file_paths(files: Seq<FileDiffView>) -> Seq<Seq<char>> {
    files.map_values(|f: FileDiffView| f.path)
}

/// The headers of `hunks`, in order.
pub open spec fn hunk_headers(hunks: Seq<HunkView>) -> Seq<Seq<char>> {
    hunks.map_values(|h: HunkView| h.header)
}

/// The headers of the hunks of the first `n` files, file by file.
pub open spec fn all_headers(files: Seq<FileDiffView>, n: nat) -> Seq<Seq<char>>
    decreases n,
{
    if n == 0 {
        Seq::empty()
    } else {
        all_headers(files, (n - 1) as nat) + hunk_headers(files[n - 1].hunks)
    }
}

proof fn lemma_all_headers_of_prefix(files: Seq<FileDiffView>, last: FileDiffView, n: nat)
    requires
        n <= files.len(),
    ensures
        all_headers(files.push(last), n) == all_headers(files, n),
    decreases n,
{
    if n > 0 {
        lemma_all_headers_of_prefix(files, last, (n - 1) as nat);
        assert(files.push(last)[n - 1] == files[n - 1]);
    }
}

spec fn open_headers(st: DiffScan) -> Seq<Seq<char>> {
    match st.file {
        Some(f) => hunk_headers(file_with_hunk(f, st.hunk).hunks),
        None => Seq::empty(),
    }
}

spec fn open_paths(st: DiffScan) -> Seq<Seq<char>> {
    match st.file {
        Some(f) => seq![f.path],
        None => Seq::empty(),
    }
}

proof fn lemma_closed_files_headers(st: DiffScan)
    ensures
        all_headers(closed_files(st), closed_files(st).len()) == all_headers(
            st.files,
            st.files.len(),
        ) + open_headers(st),
        file_paths(closed_files(st)) == file_paths(st.files) + open_paths(st),
{
    match st.file {
        Some(f) => {
            let last = file_with_hunk(f, st.hunk);
            lemma_all_headers_of_prefix(st.files, last, st.files.len());
            assert(st.files.push(last)[st.files.len() as int] == last);
            assert(file_paths(closed_files(st)) =~= file_paths(st.files) + seq![f.path]);
        },
        None => {
            assert(all_headers(st.files, st.files.len()) + Seq::<Seq<char>>::empty()
                =~= all_headers(st.files, st.files.len()));
            assert(file_paths(st.files) + Seq::<Seq<char>>::empty() =~= file_paths(st.files));
        },
    }
}

proof fn lemma_scan_in_order(lines: Seq<Seq<char>>, n: nat)
    requires
        n <= lines.len(),
    ensures
        all_headers(diff_scan(lines, n).files, diff_scan(lines, n).files.len()) + open_headers(
            diff_scan(lines, n),
        ) == kept_headers(lines, n),
        file_paths(diff_scan(lines, n).files) + open_paths(diff_scan(lines, n)) == named_paths(
            lines,
            n,
        ),
    decreases n,
{
    if n == 0 {
        let st = diff_scan(lines, 0);
        assert(all_headers(st.files, 0) + open_headers(st) =~= Seq::<Seq<char>>::empty());
        assert(file_paths(st.files) + open_paths(st) =~= Seq::<Seq<char>>::empty());
    } else {
        let i = (n - 1) as nat;
        lemma_scan_in_order(lines, i);
        let st = diff_scan(lines, i);
        let line = lines[i as int];
        let next = diff_step(st, line);
        assert(diff_scan(lines, n) == next);
        let done = all_headers(st.files, st.files.len());
        if starts_with(line, "diff --git"@) {
            lemma_closed_files_headers(st);
            assert(hunk_headers(opened_file(line).hunks) =~= Seq::<Seq<char>>::empty());
            assert(open_headers(next) =~= Seq::<Seq<char>>::empty());
            assert(done + open_headers(st) + Seq::<Seq<char>>::empty() =~= done + open_headers(
                st,
            ));
            assert(file_paths(st.files) + open_paths(st) + seq![opened_file(line).path]
                =~= named_paths(lines, i).push(after_last(line, " b/"@)));
        } else if starts_with(line, "rename from "@) {
            match st.file {
                Some(f) => {
                    assert(open_headers(next) == open_headers(st));
                    assert(open_paths(next) == open_paths(st));
                },
                None => {},
            }
        } else if starts_with(line, "@@"@) {
            match st.file {
                Some(f) => {
                    let flushed = file_with_hunk(f, st.hunk);
                    assert(open_headers(next) =~= open_headers(st).push(line));
                    assert(done + open_headers(st).push(line) =~= (done + open_headers(
                        st,
                    )).push(line));
                    assert(open_paths(next) == open_paths(st));
                },
                None => {},
            }
        } else {
            match st.hunk {
                Some(h) => {
                    assert(open_headers(next) =~= open_headers(st));
                    assert(open_paths(next) == open_paths(st));
                },
                None => {},
            }
        }
    }
}

/// A decoded diff holds one file for each file line of the input, under
/// the path that the line names, and one hunk for each hunk line that
/// stands under a file, both in the order of the input: nothing is lost,
/// nothing invented, nothing moved.
pub proof fn lemma_decoded_in_order(lines: Seq<Seq<char>>)
    ensures
        file_paths(decode_diff_lines(lines)) == named_paths(lines, lines.len()),
        all_headers(decode_diff_lines(lines), decode_diff_lines(lines).len()) == kept_headers(
            lines,
            lines.len(),
        ),
{
    lemma_scan_in_order(lines, lines.len());
    lemma_closed_files_headers(diff_scan(lines, lines.len()));
}

} // verus!
