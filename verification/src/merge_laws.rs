//! What holds of every decoded conflict region, and of a file in which one
//! region was resolved.

use vstd::prelude::*;
use crate::search::starts_with;
use crate::split::lines;
use crate::rejoin::{joined_lines, joined_by_line_feeds, ends_in_line_feed, plain_line_endings,
    with_last_line_feed, lemma_rejoin_lines, lemma_joined_lines_concat, lemma_lines_plain,
    lemma_joined_last, lemma_joined_both_ways};
use crate::merge::{ConflictRegionView, ConflictScan, OpenRegion, Section, conflict_scan,
    conflict_step, decode_conflict_lines, decode_conflicts, marker_label, resolved_lines,
    resolved_text};

verus! {

/// A line that begins with `marker` stands among the lines with the
/// indices `from` to `to - 1`.
pub open spec fn marker_between(lines: Seq<Seq<char>>, marker: Seq<char>, from: int, to: int)
    -> bool {
    exists|j: int| from <= j < to && starts_with(#[trigger] lines[j], marker)
}

/// The shape of a region read from `lines`: it runs from a `<<<<<<<` line
/// to a later `>>>>>>>` line, whose labels it has; it has an ancestor side
/// exactly where a `|||||||` line stands between the two; and its current
/// side is the run of lines right behind the `<<<<<<<` line.
pub open spec fn region_shape(lines: Seq<Seq<char>>, r: ConflictRegionView) -> bool {
    &&& 1 <= r.start_line < r.end_line <= lines.len()
    &&& starts_with(lines[r.start_line - 1], "<<<<<<<"@)
    &&& starts_with(lines[r.end_line - 1], ">>>>>>>"@)
    &&& r.current_label == marker_label(lines[r.start_line - 1], "<<<<<<< "@, "HEAD"@)
    &&& r.incoming_label == marker_label(lines[r.end_line - 1], ">>>>>>> "@, "incoming"@)
    &&& (r.ancestor is Some <==> marker_between(
        lines,
        "|||||||"@,
        r.start_line,
        r.end_line - 1,
    ))
    &&& r.start_line + r.current.len() < r.end_line
    &&& r.current == lines.subrange(r.start_line, r.start_line + r.current.len())
}

/// The regions come in the order of the file and do not overlap.
pub open spec fn regions_in_order(regions: Seq<ConflictRegionView>) -> bool {
    forall|a: int, b: int|
        0 <= a < b < regions.len() ==> (#[trigger] regions[a]).end_line < (
        #[trigger] regions[b]).start_line
}

spec fn open_ok(lines: Seq<Seq<char>>, n: int, r: OpenRegion) -> bool {
    &&& 1 <= r.start_line <= n
    &&& starts_with(lines[r.start_line - 1], "<<<<<<<"@)
    &&& r.current_label == marker_label(lines[r.start_line - 1], "<<<<<<< "@, "HEAD"@)
    &&& (r.ancestor is Some <==> marker_between(lines, "|||||||"@, r.start_line, n))
    &&& r.start_line + r.current.len() <= n
    &&& r.current == lines.subrange(r.start_line, r.start_line + r.current.len())
    &&& (r.section == Section::Current ==> r.start_line + r.current.len() == n)
}

spec fn scan_ok(lines: Seq<Seq<char>>, n: int, st: ConflictScan) -> bool {
    &&& forall|k: int| 0 <= k < st.regions.len() ==> region_shape(lines, #[trigger] st.regions[k])
    &&& regions_in_order(st.regions)
    &&& forall|k: int|
        0 <= k < st.regions.len() ==> (#[trigger] st.regions[k]).end_line <= match st.open {
            Some(r) => r.start_line - 1,
            None => n}
    &&& match st.open {
        Some(r) => open_ok(lines, n, r),
        None => true}
}

proof fn lemma_scan_ok(lines: Seq<Seq<char>>, n: nat)
    requires
        n <= lines.len(),
    ensures
        scan_ok(lines, n as int, conflict_scan(lines, n)),
    decreases n,
{
    if n > 0 {
        let i = (n - 1) as int;
        lemma_scan_ok(lines, i as nat);
        let st = conflict_scan(lines, i as nat);
        let line = lines[i];
        let next = conflict_step(st, line, i);
        assert(conflict_scan(lines, n) == next);
        match st.open {
            None => {
                if starts_with(line, "<<<<<<<"@) {
                    let r = next.open->0;
                    assert(!marker_between(lines, "|||||||"@, r.start_line, n as int));
                    assert(r.current =~= lines.subrange(r.start_line, r.start_line));
                }
            },
            Some(r) => {
                if starts_with(line, "|||||||"@) {
                    assert(marker_between(lines, "|||||||"@, r.start_line, n as int));
                } else {
                    assert(marker_between(lines, "|||||||"@, r.start_line, i)
                        == marker_between(lines, "|||||||"@, r.start_line, n as int)) by {
                        if marker_between(lines, "|||||||"@, r.start_line, n as int) {
                            let j = choose|j: int|
                                r.start_line <= j < n && starts_with(
                                    #[trigger] lines[j],
                                    "|||||||"@,
                                );
                            assert(j != i);
                            assert(r.start_line <= j < i && starts_with(lines[j], "|||||||"@));
                        }
                        if marker_between(lines, "|||||||"@, r.start_line, i) {
                            let j = choose|j: int|
                                r.start_line <= j < i && starts_with(
                                    #[trigger] lines[j],
                                    "|||||||"@,
                                );
                            assert(r.start_line <= j < n && starts_with(lines[j], "|||||||"@));
                        }
                    }
                    if starts_with(line, "======="@) {
                    } else if starts_with(line, ">>>>>>>"@) {
                        let done = next.regions.last();
                        assert forall|k: int| 0 <= k < next.regions.len() implies region_shape(
                            lines,
                            #[trigger] next.regions[k],
                        ) by {
                            if k < st.regions.len() {
                                assert(next.regions[k] == st.regions[k]);
                            }
                        }
                        assert forall|a: int, b: int| 0 <= a < b < next.regions.len() implies (
                        #[trigger] next.regions[a]).end_line < (
                        #[trigger] next.regions[b]).start_line by {
                            assert(next.regions[a] == st.regions[a]);
                            if b < st.regions.len() {
                                assert(next.regions[b] == st.regions[b]);
                            }
                        }
                        assert forall|k: int| 0 <= k < next.regions.len() implies (
                        #[trigger] next.regions[k]).end_line <= n by {
                            if k < st.regions.len() {
                                assert(next.regions[k] == st.regions[k]);
                            }
                        }
                    } else {
                        let grown = next.open->0;
                        if r.section == Section::Current {
                            assert(grown.current =~= lines.subrange(
                                r.start_line,
                                r.start_line + grown.current.len(),
                            ));
                        }
                    }
                }
            }}
    }
}

/// Every region of a file has the shape of a region, and the regions come
/// in the order of the file without overlapping. In particular a region
/// has an ancestor side exactly where a `|||||||` line stands between its
/// markers.
pub proof fn lemma_decoded_regions_have_shape(lines: Seq<Seq<char>>)
    ensures
        forall|k: int|
            0 <= k < decode_conflict_lines(lines).len() ==> region_shape(
                lines,
                #[trigger] decode_conflict_lines(lines)[k],
            ),
        regions_in_order(decode_conflict_lines(lines)),
{
    lemma_scan_ok(lines, lines.len());
}

/// Resolving a region of a file in favour of its current side leaves the
/// lines before the `<<<<<<<` marker and behind the `>>>>>>>` marker as
/// they are, and puts between them exactly the lines of the current side,
/// which are the lines that follow the `<<<<<<<` marker in the file.
pub proof fn lemma_resolve_current(content: Seq<char>, k: int)
    requires
        0 <= k < decode_conflicts(content).len(),
    ensures
        ({
            let all = lines(content);
            let r = decode_conflicts(content)[k];
            let kept = resolved_lines(all, r, "current"@);
            &&& kept == all.take(r.start_line - 1) + r.current + all.skip(r.end_line)
            &&& r.current == all.subrange(r.start_line, r.start_line + r.current.len())
            &&& kept.len() == all.len() - (r.end_line - r.start_line + 1) + r.current.len()
        }),
{
    let all = lines(content);
    lemma_decoded_regions_have_shape(all);
    let r = decode_conflicts(content)[k];
    assert(region_shape(all, r));
    if r.end_line == all.len() {
        assert(all.skip(r.end_line) =~= Seq::<Seq<char>>::empty());
    }
}

// ---------------------------------------------------------------------------
// The line feed at the end
// ---------------------------------------------------------------------------

/// A file that ends in a line feed still does after a region was resolved,
/// whatever was chosen.
pub proof fn lemma_resolve_keeps_line_feed(
    content: Seq<char>,
    region: ConflictRegionView,
    choice: Seq<char>,
)
    requires
        ends_in_line_feed(content),
    ensures
        ends_in_line_feed(resolved_text(content, region, choice)),
{
}

/// A file that does not end in a line feed does not end in one either
/// after a region of it was resolved in favour of its current side, where
/// the last line that is left holds text.
pub proof fn lemma_resolve_current_adds_no_line_feed(content: Seq<char>, k: int)
    requires
        0 <= k < decode_conflicts(content).len(),
        !ends_in_line_feed(content),
        resolved_lines(lines(content), decode_conflicts(content)[k], "current"@).len() > 0,
        resolved_lines(lines(content), decode_conflicts(content)[k], "current"@).last().len()
            > 0,
    ensures
        !ends_in_line_feed(resolved_text(content, decode_conflicts(content)[k], "current"@)),
{
    let all = lines(content);
    let r = decode_conflicts(content)[k];
    let kept = resolved_lines(all, r, "current"@);
    lemma_resolve_current(content, k);
    lemma_lines_plain(content);
    lemma_decoded_regions_have_shape(all);
    assert(region_shape(all, r));
    let last = kept.len() - 1;
    let before = all.take(r.start_line - 1);
    let behind = all.skip(r.end_line);
    assert(kept == before + r.current + behind);
    let end = kept.last().len() - 1;
    if behind.len() > 0 {
        assert(kept.last() == all[all.len() - 1]);
        assert(all[all.len() - 1][end] != '\n');
    } else if r.current.len() > 0 {
        assert(kept.last() == r.current.last());
        assert(r.current.last() == all[r.start_line + r.current.len() - 1]);
        assert(all[r.start_line + r.current.len() - 1][end] != '\n');
    } else {
        assert(kept.last() == all[r.start_line - 2]);
        assert(all[r.start_line - 2][end] != '\n');
    }
    lemma_joined_last(kept);
}

// ---------------------------------------------------------------------------
// The text of the resolved file
// ---------------------------------------------------------------------------

/// The round trip of a resolution, to the letter. A file that ends in a
/// line feed (and has no carriage returns before its line feeds) is the
/// text before the region, the region and the text behind it; resolved
/// in favour of the current side, it is the same text before, the lines
/// of the current side, and the same text behind. The file must keep at
/// least one line.
pub proof fn lemma_resolve_current_text(content: Seq<char>, k: int)
    requires
        0 <= k < decode_conflicts(content).len(),
        plain_line_endings(content),
        ends_in_line_feed(content),
        resolved_lines(lines(content), decode_conflicts(content)[k], "current"@).len() > 0,
    ensures
        ({
            let all = lines(content);
            let r = decode_conflicts(content)[k];
            let before = joined_lines(all.take(r.start_line - 1));
            let behind = joined_lines(all.skip(r.end_line));
            &&& content == before + joined_lines(all.subrange(r.start_line - 1, r.end_line))
                + behind
            &&& resolved_text(content, r, "current"@) == before + joined_lines(r.current)
                + behind
        }),
{
    let all = lines(content);
    let r = decode_conflicts(content)[k];
    lemma_decoded_regions_have_shape(all);
    assert(region_shape(all, r));
    lemma_resolve_current(content, k);
    let kept = resolved_lines(all, r, "current"@);
    let head = all.take(r.start_line - 1);
    let block = all.subrange(r.start_line - 1, r.end_line);
    let tail = all.skip(r.end_line);
    lemma_rejoin_lines(content);
    assert(with_last_line_feed(content) == content);
    assert(all =~= (head + block) + tail);
    lemma_joined_lines_concat(head + block, tail);
    lemma_joined_lines_concat(head, block);
    assert(kept == (head + r.current) + tail);
    lemma_joined_lines_concat(head + r.current, tail);
    lemma_joined_lines_concat(head, r.current);
    lemma_joined_both_ways(kept);
}

} // verus!
