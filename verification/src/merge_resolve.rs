//! The state of the view that resolves merge conflicts: the files in
//! conflict, the file that is shown and its regions.

use vstd::prelude::*;
use vstd::string::*;
use crate::status::{FileEntry, RepoStatus};
use crate::merge::{ConflictFile, ConflictRegion, MergeState};
use crate::app_state::FollowUpItem;
use crate::views::{clamped, clamp_selection};

verus! {

/// The state of the view that resolves merge conflicts.
#[derive(Debug, Clone)]
pub struct MergeResolveState {
    /// The files in conflict.
    pub conflicted_files: Vec<FileEntry>,
    /// The index of the file that is shown.
    pub selected_file: usize,
    /// The regions of the file that is shown.
    pub conflict_regions: Vec<ConflictRegion>,
    /// The index of the region that is shown.
    pub selected_region: usize,
    /// The text of the file that is shown, markers included.
    pub raw_conflict_content: Option<String>,
    /// The number of lines of the file that is shown.
    pub total_lines: usize,
    /// What the mentor answered.
    pub ai_suggestion: Option<String>,
    /// The side that the mentor recommends.
    pub ai_recommendation: Option<String>,
    /// The text that the mentor puts in the region's place.
    pub ai_resolved_content: Option<String>,
    /// The operation in progress.
    pub merge_state: Option<MergeState>,
    pub scroll_left: u16,
    pub scroll_right: u16,
    pub scroll_center: u16,
    /// The panel that has the focus: 0 the current side, 1 the mentor,
    /// 2 the incoming side.
    pub focused_panel: usize,
    /// What is offered to do next.
    pub follow_ups: Vec<FollowUpItem>,
    pub follow_up_selected: usize,
}

impl Default for MergeResolveState {
    fn default() -> (s: Self)
        ensures
            s.conflicted_files@.len() == 0,
            s.selected_file == 0,
            s.conflict_regions@.len() == 0,
            s.selected_region == 0,
            s.raw_conflict_content is None,
            s.total_lines == 0,
            s.ai_suggestion is None,
            s.ai_recommendation is None,
            s.ai_resolved_content is None,
            s.merge_state is None,
            s.scroll_left == 0,
            s.scroll_right == 0,
            s.scroll_center == 0,
            s.focused_panel == 0,
            s.follow_ups@.len() == 0,
            s.follow_up_selected == 0,
    {
        MergeResolveState {
            conflicted_files: Vec::new(),
            selected_file: 0,
            conflict_regions: Vec::new(),
            selected_region: 0,
            raw_conflict_content: None,
            total_lines: 0,
            ai_suggestion: None,
            ai_recommendation: None,
            ai_resolved_content: None,
            merge_state: None,
            scroll_left: 0,
            scroll_right: 0,
            scroll_center: 0,
            focused_panel: 0,
            follow_ups: Vec::new(),
            follow_up_selected: 0,
        }
    }
}

impl MergeResolveState {
    /// A file is selected: the selection points into the files in conflict.
    pub open spec fn has_selection(&self) -> bool {
        self.selected_file < self.conflicted_files@.len()
    }

    /// The file to show: the one that was read, where a file is selected.
    pub open spec fn file_to_show(&self, file: Option<ConflictFile>) -> Option<ConflictFile> {
        if self.has_selection() {
            file
        } else {
            None
        }
    }

    /// The path of the selected file, where one is selected.
    pub fn selected_path(&self) -> (path: Option<&str>)
        ensures
            match path {
                Some(p) => self.has_selection() && p@ == self.conflicted_files@[self.selected_file
                    as int].path@,
                None => !self.has_selection(),
            },
    {
        if self.selected_file < self.conflicted_files.len() {
            Some(self.conflicted_files[self.selected_file].path.as_str())
        } else {
            None
        }
    }

    /// Takes in the status and the operation in progress: the files in
    /// conflict are those of the status, and the selection stays inside
    /// them. The file that is shown is to be loaded afterwards.
    pub fn refresh(&mut self, status: RepoStatus, merge_state: Option<MergeState>)
        ensures
            final(self).conflicted_files == status.conflicts,
            final(self).merge_state == merge_state,
            final(self).selected_file == clamped(
                old(self).selected_file,
                status.conflicts@.len(),
            ),
            final(self).conflict_regions == old(self).conflict_regions,
            final(self).selected_region == old(self).selected_region,
            final(self).raw_conflict_content == old(self).raw_conflict_content,
            final(self).total_lines == old(self).total_lines,
            final(self).ai_suggestion == old(self).ai_suggestion,
            final(self).ai_recommendation == old(self).ai_recommendation,
            final(self).ai_resolved_content == old(self).ai_resolved_content,
            final(self).scroll_left == old(self).scroll_left,
            final(self).scroll_right == old(self).scroll_right,
            final(self).scroll_center == old(self).scroll_center,
            final(self).focused_panel == old(self).focused_panel,
            final(self).follow_ups == old(self).follow_ups,
            final(self).follow_up_selected == old(self).follow_up_selected,
    {
        self.conflicted_files = status.conflicts;
        self.merge_state = merge_state;
        self.selected_file = clamp_selection(self.selected_file, self.conflicted_files.len());
    }

    /// Shows the selected file: `file` is what was read of it, or nothing
    /// where it could not be read. The regions, the text and the number of
    /// lines are those of the file, or none without a file or a selection;
    /// the selected region, the scroll positions, the mentor's answer and
    /// the follow-ups start anew.
    pub fn load_selected_file(&mut self, file: Option<ConflictFile>)
        ensures
            final(self).conflict_regions@ == match old(self).file_to_show(file) {
                Some(f) => f.regions@,
                None => Seq::empty(),
            },
            final(self).raw_conflict_content == match old(self).file_to_show(file) {
                Some(f) => Some(f.raw_content),
                None => None,
            },
            final(self).total_lines == match old(self).file_to_show(file) {
                Some(f) => f.total_lines,
                None => 0usize,
            },
            final(self).selected_region == 0,
            final(self).scroll_left == 0,
            final(self).scroll_right == 0,
            final(self).scroll_center == 0,
            final(self).ai_suggestion is None,
            final(self).ai_recommendation is None,
            final(self).ai_resolved_content is None,
            final(self).follow_ups@.len() == 0,
            final(self).conflicted_files == old(self).conflicted_files,
            final(self).selected_file == old(self).selected_file,
            final(self).merge_state == old(self).merge_state,
            final(self).focused_panel == old(self).focused_panel,
            final(self).follow_up_selected == old(self).follow_up_selected,
    {
        self.conflict_regions = Vec::new();
        self.raw_conflict_content = None;
        self.total_lines = 0;
        self.selected_region = 0;
        self.scroll_left = 0;
        self.scroll_right = 0;
        self.scroll_center = 0;
        self.ai_suggestion = None;
        self.ai_recommendation = None;
        self.ai_resolved_content = None;
        self.follow_ups = Vec::new();
        if self.selected_file < self.conflicted_files.len() {
            match file {
                Some(f) => {
                    self.raw_conflict_content = Some(f.raw_content);
                    self.conflict_regions = f.regions;
                    self.total_lines = f.total_lines;
                },
                None => {},
            }
        }
    }
}

} // verus!
