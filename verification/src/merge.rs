//! Merge conflicts: the decoder of conflict markers, the rewriting of a
//! file with one region resolved, and the command that aborts or continues
//! the operation in progress.

use vstd::prelude::*;
use vstd::string::*;
use crate::text::{chars_of, string_of, string_of_range, rows, rows_of, extend_rows, is_literal};
use crate::search::{starts_with, has_prefix};
use crate::split::{lines, split_lines};
use crate::rejoin::{joined_by_line_feeds, ends_in_line_feed};

verus! {

// ---------------------------------------------------------------------------
// The model
// ---------------------------------------------------------------------------

/// The operation that is in progress.
#[derive(Debug, Clone, Copy, PartialEq, Eq, Structural)]
pub enum MergeType {
    Merge,
    Rebase,
    CherryPick,
}

/// The operation in progress in a repository.
#[derive(Debug, Clone)]
pub struct MergeState {
    pub merge_type: MergeType,
    pub head_name: String,
    pub merge_head: Option<String>,
}

/// One block `<<<<<<< ... >>>>>>>` of a file in conflict.
#[derive(Debug, Clone)]
pub struct ConflictRegion {
    /// The line of the `<<<<<<<` marker, counted from 1.
    pub start_line: usize,
    /// The line of the `>>>>>>>` marker, counted from 1.
    pub end_line: usize,
    /// The lines of the current branch.
    pub current: Vec<String>,
    /// The lines of the incoming branch.
    pub incoming: Vec<String>,
    /// The lines of the common ancestor, where the markers show them.
    pub ancestor: Option<Vec<String>>,
    /// The label behind the `<<<<<<<` marker.
    pub current_label: String,
    /// The label behind the `>>>>>>>` marker.
    pub incoming_label: String,
}

/// A file in conflict: its text and its regions.
#[derive(Debug, Clone)]
pub struct ConflictFile {
    pub path: String,
    pub raw_content: String,
    pub regions: Vec<ConflictRegion>,
    pub total_lines: usize,
}

/// The mathematical value of a `ConflictRegion`.
pub struct ConflictRegionView {
    pub start_line: int,
    pub end_line: int,
    pub current: Seq<Seq<char>>,
    pub incoming: Seq<Seq<char>>,
    pub ancestor: Option<Seq<Seq<char>>>,
    pub current_label: Seq<char>,
    pub incoming_label: Seq<char>,
}

/// The mathematical value of a `ConflictFile`.
pub struct ConflictFileView {
    pub path: Seq<char>,
    pub raw_content: Seq<char>,
    pub regions: Seq<ConflictRegionView>,
    pub total_lines: int,
}

impl View for ConflictRegion {
    type V = ConflictRegionView;

    open spec fn view(&self) -> ConflictRegionView {
        ConflictRegionView {
            start_line: self.start_line as int,
            end_line: self.end_line as int,
            current: self.current.deep_view(),
            incoming: self.incoming.deep_view(),
            ancestor: self.ancestor.deep_view(),
            current_label: self.current_label@,
            incoming_label: self.incoming_label@,
        }
    }
}

impl DeepView for ConflictRegion {
    type V = ConflictRegionView;

    open spec fn deep_view(&self) -> ConflictRegionView {
        self@
    }
}

impl View for ConflictFile {
    type V = ConflictFileView;

    open spec fn view(&self) -> ConflictFileView {
        ConflictFileView {
            path: self.path@,
            raw_content: self.raw_content@,
            regions: self.regions.deep_view(),
            total_lines: self.total_lines as int,
        }
    }
}

impl MergeType {
    /// The name of the operation as `git` spells it.
    pub open spec fn name(self) -> Seq<char> {
        match self {
            MergeType::Merge => "merge"@,
            MergeType::Rebase => "rebase"@,
            MergeType::CherryPick => "cherry-pick"@,
        }
    }

    /// The name of the operation as `git` spells it.
    pub fn to_string(&self) -> (s: String)
        ensures
            s@ == self.name(),
    {
        match self {
            MergeType::Merge => String::from_str("merge"),
            MergeType::Rebase => String::from_str("rebase"),
            MergeType::CherryPick => String::from_str("cherry-pick"),
        }
    }
}

// ---------------------------------------------------------------------------
// The decoder of conflict markers
// ---------------------------------------------------------------------------

/// The part of a region that the lines go to.
#[derive(Debug, Clone, Copy, PartialEq, Eq, Structural)]
pub enum Section {
    Current,
    Ancestor,
    Incoming,
}

/// A region whose closing marker has not come yet.
pub struct OpenRegion {
    pub start_line: int,
    pub current_label: Seq<char>,
    pub current: Seq<Seq<char>>,
    pub incoming: Seq<Seq<char>>,
    pub ancestor: Option<Seq<Seq<char>>>,
    pub section: Section,
}

/// Where the decoder stands between two lines.
pub struct ConflictScan {
    pub regions: Seq<ConflictRegionView>,
    pub open: Option<OpenRegion>,
}

/// The label of a marker line: the text behind the marker and one blank,
/// or `default` where the line has no such text.
pub open spec fn marker_label(line: Seq<char>, marker: Seq<char>, default: Seq<char>) -> Seq<
    char,
> {
    if starts_with(line, marker) {
        line.subrange(marker.len() as int, line.len() as int)
    } else {
        default
    }
}

/// The region that the marker line at index `i` opens.
pub open spec fn opened_region(line: Seq<char>, i: int) -> OpenRegion {
    OpenRegion {
        start_line: i + 1,
        current_label: marker_label(line, "<<<<<<< "@, "HEAD"@),
        current: Seq::empty(),
        incoming: Seq::empty(),
        ancestor: None,
        section: Section::Current,
    }
}

/// The region that the marker line at index `i` closes.
pub open spec fn closed_region(r: OpenRegion, line: Seq<char>, i: int) -> ConflictRegionView {
    ConflictRegionView {
        start_line: r.start_line,
        end_line: i + 1,
        current: r.current,
        incoming: r.incoming,
        ancestor: r.ancestor,
        current_label: r.current_label,
        incoming_label: marker_label(line, ">>>>>>> "@, "incoming"@),
    }
}

/// The open region with `line` added to the section that is being read.
pub open spec fn region_with_line(r: OpenRegion, line: Seq<char>) -> OpenRegion {
    match r.section {
        Section::Current => OpenRegion { current: r.current.push(line), ..r },
        Section::Incoming => OpenRegion { incoming: r.incoming.push(line), ..r },
        Section::Ancestor => match r.ancestor {
            Some(a) => OpenRegion { ancestor: Some(a.push(line)), ..r },
            None => r,
        },
    }
}

/// The decoder's step over the line at index `i`. Outside a region only
/// `<<<<<<<` is a marker; inside one, `|||||||` turns to the ancestor,
/// `=======` to the incoming side and `>>>>>>>` closes the region. Regions
/// do not nest.
pub open spec fn conflict_step(st: ConflictScan, line: Seq<char>, i: int) -> ConflictScan {
    match st.open {
        None => if starts_with(line, "<<<<<<<"@) {
            ConflictScan { open: Some(opened_region(line, i)), ..st }
        } else {
            st
        },
        Some(r) => if starts_with(line, "|||||||"@) {
            ConflictScan {
                open: Some(
                    OpenRegion { ancestor: Some(Seq::empty()), section: Section::Ancestor, ..r },
                ),
                ..st
            }
        } else if starts_with(line, "======="@) {
            ConflictScan { open: Some(OpenRegion { section: Section::Incoming, ..r }), ..st }
        } else if starts_with(line, ">>>>>>>"@) {
            ConflictScan { regions: st.regions.push(closed_region(r, line, i)), open: None }
        } else {
            ConflictScan { open: Some(region_with_line(r, line)), ..st }
        },
    }
}

/// Where the decoder stands after the first `n` lines.
pub open spec fn conflict_scan(lines: Seq<Seq<char>>, n: nat) -> ConflictScan
    decreases n,
{
    if n == 0 {
        ConflictScan { regions: Seq::empty(), open: None }
    } else {
        conflict_step(conflict_scan(lines, (n - 1) as nat), lines[n - 1], n - 1)
    }
}

/// The regions of the lines of a file, in the order in which they come. A
/// region that no `>>>>>>>` closes is none.
pub open spec fn decode_conflict_lines(lines: Seq<Seq<char>>) -> Seq<ConflictRegionView> {
    conflict_scan(lines, lines.len()).regions
}

/// The regions of a file's text.
pub open spec fn decode_conflicts(content: Seq<char>) -> Seq<ConflictRegionView> {
    decode_conflict_lines(lines(content))
}

struct Pending {
    start_line: usize,
    current_label: String,
    current: Vec<String>,
    incoming: Vec<String>,
    ancestor: Option<Vec<String>>,
    section: Section,
}

impl View for Pending {
    type V = OpenRegion;

    closed spec fn view(&self) -> OpenRegion {
        OpenRegion {
            start_line: self.start_line as int,
            current_label: self.current_label@,
            current: self.current.deep_view(),
            incoming: self.incoming.deep_view(),
            ancestor: self.ancestor.deep_view(),
            section: self.section,
        }
    }
}

spec fn pending_view(open: Option<Pending>) -> Option<OpenRegion> {
    match open {
        Some(r) => Some(r@),
        None => None,
    }
}

fn label_of(line: &Vec<char>, marker: &str, default: &str) -> (label: String)
    ensures
        label@ == marker_label(line@, marker@, default@),
{
    if has_prefix(line, marker) {
        let mark = chars_of(marker);
        string_of_range(line, mark.len(), line.len())
    } else {
        String::from_str(default)
    }
}

fn push_line(section: &mut Vec<String>, line: &Vec<char>)
    ensures
        final(section).deep_view() == old(section).deep_view().push(line@),
{
    section.push(string_of(line));
    assert(section.deep_view() =~= old(section).deep_view().push(line@));
}

fn add_line(r: &mut Pending, line: &Vec<char>)
    ensures
        final(r)@ == region_with_line(old(r)@, line@),
{
    match r.section {
        Section::Current => {
            push_line(&mut r.current, line);
        },
        Section::Incoming => {
            push_line(&mut r.incoming, line);
        },
        Section::Ancestor => {
            match &mut r.ancestor {
                Some(a) => {
                    push_line(a, line);
                },
                None => {},
            }
        },
    }
}

fn decode_regions(lines: &Vec<Vec<char>>) -> (regions: Vec<ConflictRegion>)
    ensures
        regions.deep_view() == decode_conflict_lines(rows(lines@)),
{
    let mut regions: Vec<ConflictRegion> = Vec::new();
    let mut open: Option<Pending> = None;
    let ghost all = rows(lines@);
    assert(regions.deep_view() =~= Seq::<ConflictRegionView>::empty());
    let mut i: usize = 0;
    while i < lines.len()
        invariant
            i <= lines.len(),
            all == rows(lines@),
            conflict_scan(all, i as nat) == (ConflictScan {
                regions: regions.deep_view(),
                open: pending_view(open),
            }),
        decreases lines.len() - i,
    {
        let line = &lines[i];
        assert(all[i as int] == line@);
        let ghost before = conflict_scan(all, i as nat);
        match open {
            None => {
                if has_prefix(line, "<<<<<<<") {
                    let r = Pending {
                        start_line: i + 1,
                        current_label: label_of(line, "<<<<<<< ", "HEAD"),
                        current: Vec::new(),
                        incoming: Vec::new(),
                        ancestor: None,
                        section: Section::Current,
                    };
                    assert(r@.current =~= Seq::<Seq<char>>::empty());
                    assert(r@.incoming =~= Seq::<Seq<char>>::empty());
                    open = Some(r);
                } else {
                    open = None;
                }
            },
            Some(mut r) => {
                if has_prefix(line, "|||||||") {
                    let fresh: Vec<String> = Vec::new();
                    assert(fresh.deep_view() =~= Seq::<Seq<char>>::empty());
                    r.ancestor = Some(fresh);
                    r.section = Section::Ancestor;
                    open = Some(r);
                } else if has_prefix(line, "=======") {
                    r.section = Section::Incoming;
                    open = Some(r);
                } else if has_prefix(line, ">>>>>>>") {
                    let ghost done = regions.deep_view();
                    let region = ConflictRegion {
                        start_line: r.start_line,
                        end_line: i + 1,
                        current: r.current,
                        incoming: r.incoming,
                        ancestor: r.ancestor,
                        current_label: r.current_label,
                        incoming_label: label_of(line, ">>>>>>> ", "incoming"),
                    };
                    regions.push(region);
                    assert(regions.deep_view() =~= done.push(region@));
                    open = None;
                } else {
                    add_line(&mut r, line);
                    open = Some(r);
                }
            },
        }
        i += 1;
        assert(conflict_scan(all, i as nat) == conflict_step(before, line@, i - 1));
    }
    regions
}

/// Reads the conflict markers of a file's text, in the standard and in the
/// diff3 style, into its regions.
pub fn parse_conflict_markers(content: &str) -> (regions: Vec<ConflictRegion>)
    ensures
        regions.deep_view() == decode_conflicts(content@),
{
    let text = chars_of(content);
    let all = split_lines(&text);
    decode_regions(&all)
}

// ---------------------------------------------------------------------------
// Resolving one region
// ---------------------------------------------------------------------------

/// The lines that take the place of a region: its current side for the
/// choice `current`, its incoming side for `incoming`, and for any other
/// choice the lines of the choice itself.
pub open spec fn replacement(region: ConflictRegionView, choice: Seq<char>) -> Seq<Seq<char>> {
    if choice == "current"@ {
        region.current
    } else if choice == "incoming"@ {
        region.incoming
    } else {
        lines(choice)
    }
}

/// The lines of a file behind the region's last line.
pub open spec fn lines_behind(lines: Seq<Seq<char>>, region: ConflictRegionView) -> Seq<
    Seq<char>,
> {
    if region.end_line < lines.len() {
        lines.skip(region.end_line)
    } else {
        Seq::empty()
    }
}

/// The lines of a file with `region` resolved: the lines before its first
/// line, the replacement, the lines behind its last line.
pub open spec fn resolved_lines(
    lines: Seq<Seq<char>>,
    region: ConflictRegionView,
    choice: Seq<char>,
) -> Seq<Seq<char>> {
    lines.take(region.start_line - 1) + replacement(region, choice) + lines_behind(lines, region)
}

/// The text of a file with `region` resolved. It ends in a line feed where
/// the file did.
pub open spec fn resolved_text(
    content: Seq<char>,
    region: ConflictRegionView,
    choice: Seq<char>,
) -> Seq<char> {
    let body = joined_by_line_feeds(resolved_lines(lines(content), region, choice));
    if ends_in_line_feed(content) {
        body.push('\n')
    } else {
        body
    }
}

fn join_lines(lines: &Vec<Vec<char>>) -> (text: String)
    ensures
        text@ == joined_by_line_feeds(rows(lines@)),
{
    let mut text = String::new();
    let ghost all = rows(lines@);
    let mut i: usize = 0;
    assert(all.take(0) =~= Seq::<Seq<char>>::empty());
    while i < lines.len()
        invariant
            i <= lines.len(),
            all == rows(lines@),
            text@ == joined_by_line_feeds(all.take(i as int)),
        decreases lines.len() - i,
    {
        if i > 0 {
            text.push('\n');
        }
        let ghost before = text@;
        let line = &lines[i];
        let mut k: usize = 0;
        while k < line.len()
            invariant
                k <= line.len(),
                text@ == before + line@.take(k as int),
            decreases line.len() - k,
        {
            text.push(line[k]);
            k += 1;
            assert(text@ =~= before + line@.take(k as int));
        }
        proof {
            let next = all.take(i + 1);
            assert(line@.take(line.len() as int) =~= line@);
            assert(next.drop_last() =~= all.take(i as int));
            assert(next.last() == line@);
            if i == 0 {
                assert(text@ =~= line@);
            }
        }
        i += 1;
    }
    assert(all.take(i as int) =~= all);
    text
}

/// Rewrites the text of a file with one region resolved: `choice` is
/// `current`, `incoming`, or the text to put in the region's place.
pub fn resolve_region(content: &str, region: &ConflictRegion, choice: &str) -> (text: String)
    requires
        1 <= region.start_line <= lines(content@).len() + 1,
        1 <= region.end_line,
    ensures
        text@ == resolved_text(content@, region@, choice@),
{
    let source = chars_of(content);
    let all = split_lines(&source);
    let picked = chars_of(choice);
    let mut result: Vec<Vec<char>> = Vec::new();
    assert(rows(result@) =~= Seq::<Seq<char>>::empty());
    extend_rows(&mut result, &all, 0, region.start_line - 1);
    let chosen: Vec<Vec<char>> = if is_literal(&picked, "current") {
        rows_of(&region.current)
    } else if is_literal(&picked, "incoming") {
        rows_of(&region.incoming)
    } else {
        split_lines(&picked)
    };
    extend_rows(&mut result, &chosen, 0, chosen.len());
    if region.end_line < all.len() {
        extend_rows(&mut result, &all, region.end_line, all.len());
    }
    proof {
        let ls = rows(all@);
        assert(ls.subrange(0, region.start_line - 1) =~= ls.take(region.start_line - 1));
        assert(rows(chosen@).subrange(0, chosen.len() as int) =~= rows(chosen@));
        if region.end_line < all.len() {
            assert(ls.subrange(region.end_line as int, all.len() as int) =~= ls.skip(
                region.end_line as int,
            ));
        }
        assert(rows(result@) =~= resolved_lines(ls, region@, choice@));
    }
    let mut resolved = join_lines(&result);
    if source.len() > 0 && source[source.len() - 1] == '\n' {
        resolved.push('\n');
    }
    resolved
}

/// The region lies in a file of `count` lines far enough for the file to
/// be rewritten: its first line is one of the file's lines, or the line
/// behind the last.
pub open spec fn region_fits(region: ConflictRegionView, count: int) -> bool {
    1 <= region.start_line <= count + 1 && 1 <= region.end_line
}

/// Rewrites the text of a file with one region resolved, where the region
/// fits the file; gives nothing where it does not.
pub fn resolve_region_in(content: &str, region: &ConflictRegion, choice: &str) -> (text: Option<
    String,
>)
    ensures
        text.deep_view() == if region_fits(region@, lines(content@).len() as int) {
            Some(resolved_text(content@, region@, choice@))
        } else {
            None
        },
{
    let all = split_lines(&chars_of(content));
    assert(rows(all@).len() == all.len());
    if 1 <= region.start_line && region.start_line - 1 <= all.len() && 1 <= region.end_line {
        Some(resolve_region(content, region, choice))
    } else {
        None
    }
}

/// The conflict data of the file at `file_path` whose text is `content`.
pub fn get_conflict_file(file_path: &str, content: &str) -> (file: ConflictFile)
    ensures
        file@ == (ConflictFileView {
            path: file_path@,
            raw_content: content@,
            regions: decode_conflicts(content@),
            total_lines: lines(content@).len() as int,
        }),
{
    let text = chars_of(content);
    let all = split_lines(&text);
    assert(rows(all@).len() == all.len());
    ConflictFile {
        path: String::from_str(file_path),
        raw_content: String::from_str(content),
        regions: decode_regions(&all),
        total_lines: all.len(),
    }
}

} // verus!
