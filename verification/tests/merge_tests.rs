use zit::merge::{get_conflict_file, parse_conflict_markers, resolve_region, resolve_region_in,
    ConflictRegion,
    MergeState, MergeType};
use zit::merge_ops::{abort_merge, check_merge_conflicts, continue_merge, get_merge_base,
    is_conflict_error,
    get_merge_preview_diff, get_merge_state, merge_trial, resolve_file, MergeError,
    OperationMarkers};
use zit::status::{FileEntry, FileStatus, RepoStatus};

#[test]
fn test_parse_conflict_markers_standard() {
    let content = "\
before conflict
<<<<<<< HEAD
current line 1
current line 2
=======
incoming line 1
>>>>>>> feature-branch
after conflict
";
    let regions = parse_conflict_markers(content);
    assert_eq!(regions.len(), 1);
    assert_eq!(regions[0].current, vec!["current line 1", "current line 2"]);
    assert_eq!(regions[0].incoming, vec!["incoming line 1"]);
    assert_eq!(regions[0].current_label, "HEAD");
    assert_eq!(regions[0].incoming_label, "feature-branch");
    assert!(regions[0].ancestor.is_none());
}

#[test]
fn test_parse_conflict_markers_diff3() {
    let content = "\
<<<<<<< HEAD
current
||||||| base
original
=======
incoming
>>>>>>> other
";
    let regions = parse_conflict_markers(content);
    assert_eq!(regions.len(), 1);
    assert_eq!(regions[0].current, vec!["current"]);
    assert_eq!(regions[0].incoming, vec!["incoming"]);
    assert!(regions[0].ancestor.is_some());
    assert_eq!(regions[0].ancestor.as_ref().unwrap(), &vec!["original"]);
}

#[test]
fn test_parse_conflict_markers_multiple() {
    let content = "\
<<<<<<< HEAD
a
=======
b
>>>>>>> branch1
middle
<<<<<<< HEAD
c
=======
d
>>>>>>> branch2
";
    let regions = parse_conflict_markers(content);
    assert_eq!(regions.len(), 2);
    assert_eq!(regions[0].current, vec!["a"]);
    assert_eq!(regions[0].incoming, vec!["b"]);
    assert_eq!(regions[1].current, vec!["c"]);
    assert_eq!(regions[1].incoming, vec!["d"]);
}

#[test]
fn test_parse_no_conflicts() {
    let content = "normal file content\nno conflicts here\n";
    let regions = parse_conflict_markers(content);
    assert!(regions.is_empty());
}

const STANDARD: &str = "before conflict\n<<<<<<< HEAD\ncurrent line 1\ncurrent line 2\n=======\nincoming line 1\n>>>>>>> feature-branch\nafter conflict\n";

#[test]
fn region_lines_count_from_one_and_include_the_markers() {
    let regions = parse_conflict_markers(STANDARD);
    assert_eq!(regions[0].start_line, 2);
    assert_eq!(regions[0].end_line, 7);
    let file = get_conflict_file("src/x.rs", STANDARD);
    assert_eq!(file.path, "src/x.rs");
    assert_eq!(file.raw_content, STANDARD);
    assert_eq!(file.total_lines, 8);
    assert_eq!(file.regions.len(), 1);
}

#[test]
fn resolving_for_current_keeps_everything_else() {
    let regions = parse_conflict_markers(STANDARD);
    let resolved = resolve_region(STANDARD, &regions[0], "current");
    assert_eq!(resolved, "before conflict\ncurrent line 1\ncurrent line 2\nafter conflict\n");
    let resolved = resolve_region(STANDARD, &regions[0], "incoming");
    assert_eq!(resolved, "before conflict\nincoming line 1\nafter conflict\n");
    let resolved = resolve_region(STANDARD, &regions[0], "both\nof them\n");
    assert_eq!(resolved, "before conflict\nboth\nof them\nafter conflict\n");
}

#[test]
fn resolving_keeps_the_missing_line_feed_at_the_end() {
    let content = "a\n<<<<<<< HEAD\nx\n=======\ny\n>>>>>>> b\nz";
    let regions = parse_conflict_markers(content);
    assert_eq!(resolve_region(content, &regions[0], "current"), "a\nx\nz");
    let content = "<<<<<<< HEAD\nx\n=======\ny\n>>>>>>> b";
    let regions = parse_conflict_markers(content);
    assert_eq!(resolve_region(content, &regions[0], "incoming"), "y");
    assert_eq!(resolve_region(content, &regions[0], ""), "");
}

#[test]
fn second_region_is_resolved_alone() {
    let content = "<<<<<<< HEAD\na\n=======\nb\n>>>>>>> branch1\nmiddle\n<<<<<<< HEAD\nc\n=======\nd\n>>>>>>> branch2\n";
    let regions = parse_conflict_markers(content);
    assert_eq!((regions[1].start_line, regions[1].end_line), (7, 11));
    assert_eq!(
        resolve_region(content, &regions[1], "incoming"),
        "<<<<<<< HEAD\na\n=======\nb\n>>>>>>> branch1\nmiddle\nd\n"
    );
}

#[test]
fn markers_without_labels_get_the_default_labels() {
    let regions = parse_conflict_markers("<<<<<<<\nx\n=======\n>>>>>>>\n");
    assert_eq!(regions[0].current_label, "HEAD");
    assert_eq!(regions[0].incoming_label, "incoming");
    assert_eq!(regions[0].current, vec!["x"]);
    assert!(regions[0].incoming.is_empty());
}

#[test]
fn region_that_is_not_closed_is_none() {
    assert!(parse_conflict_markers("<<<<<<< HEAD\na\n=======\nb\n").is_empty());
    assert!(parse_conflict_markers("=======\n>>>>>>> x\n").is_empty());
    let regions = parse_conflict_markers("<<<<<<< A\n<<<<<<< B\nx\n>>>>>>> C\n");
    assert_eq!(regions.len(), 1);
    assert_eq!(regions[0].current, vec!["<<<<<<< B", "x"]);
    assert_eq!(regions[0].current_label, "A");
}

#[test]
fn ancestor_is_there_exactly_with_the_diff3_marker() {
    let with = parse_conflict_markers("<<<<<<< HEAD\na\n||||||| base\n=======\nb\n>>>>>>> o\n");
    assert_eq!(with[0].ancestor, Some(vec![]));
    let without = parse_conflict_markers("<<<<<<< HEAD\na\n=======\nb\n>>>>>>> o\n");
    assert_eq!(without[0].ancestor, None);
}

fn markers() -> OperationMarkers {
    OperationMarkers {
        merge_head_exists: false,
        merge_head: None,
        rebase_merge_exists: false,
        rebase_apply_exists: false,
        cherry_pick_head_exists: false,
        cherry_pick_head: None,
    }
}

#[test]
fn merge_state_is_told_from_the_marker_files() {
    assert!(get_merge_state(Some("main\n"), &markers()).is_none());
    let mut m = markers();
    m.merge_head_exists = true;
    m.merge_head = Some("abc123\n".to_string());
    m.rebase_merge_exists = true;
    m.cherry_pick_head_exists = true;
    let state = get_merge_state(Some(" main\n"), &m).unwrap();
    assert_eq!(state.merge_type, MergeType::Merge);
    assert_eq!(state.head_name, "main");
    assert_eq!(state.merge_head, Some("abc123".to_string()));
    let mut m = markers();
    m.rebase_apply_exists = true;
    m.cherry_pick_head_exists = true;
    let state = get_merge_state(None, &m).unwrap();
    assert_eq!(state.merge_type, MergeType::Rebase);
    assert_eq!(state.head_name, "HEAD");
    assert_eq!(state.merge_head, None);
    let mut m = markers();
    m.cherry_pick_head_exists = true;
    let state = get_merge_state(Some("HEAD"), &m).unwrap();
    assert_eq!(state.merge_type, MergeType::CherryPick);
    assert_eq!(state.merge_head, None);
}

fn state_of(merge_type: MergeType) -> MergeState {
    MergeState { merge_type, head_name: "main".to_string(), merge_head: None }
}

#[test]
fn abort_and_continue_pick_the_subcommand() {
    assert_eq!(abort_merge(Some(&state_of(MergeType::Merge))).unwrap().args, vec!["merge", "--abort"]);
    assert_eq!(abort_merge(Some(&state_of(MergeType::Rebase))).unwrap().args, vec!["rebase", "--abort"]);
    assert_eq!(abort_merge(Some(&state_of(MergeType::CherryPick))).unwrap().args, vec!["cherry-pick", "--abort"]);
    assert_eq!(continue_merge(Some(&state_of(MergeType::Merge))).unwrap().args, vec!["commit", "--no-edit"]);
    assert_eq!(continue_merge(Some(&state_of(MergeType::Rebase))).unwrap().args, vec!["rebase", "--continue"]);
    assert_eq!(continue_merge(Some(&state_of(MergeType::CherryPick))).unwrap().args, vec!["cherry-pick", "--continue"]);
    assert!(abort_merge(Some(&state_of(MergeType::Merge))).unwrap().stdin.is_none());
}

#[test]
fn abort_and_continue_fail_without_an_operation() {
    assert_eq!(abort_merge(None).unwrap_err(), MergeError::NothingInProgress);
    assert_eq!(continue_merge(None).unwrap_err(), MergeError::NothingInProgress);
    assert_eq!(MergeError::NothingInProgress.message(), "No merge operation in progress");
}

#[test]
fn merge_type_is_spelt_as_git_does() {
    assert_eq!(MergeType::Merge.to_string(), "merge");
    assert_eq!(MergeType::Rebase.to_string(), "rebase");
    assert_eq!(MergeType::CherryPick.to_string(), "cherry-pick");
}

#[test]
fn merge_base_and_preview() {
    assert_eq!(get_merge_base("  abc123\n"), "abc123");
    assert_eq!(get_merge_preview_diff("abc123", "feature").args, vec!["diff", "--stat", "abc123", "feature"]);
}

#[test]
fn trial_merge_tells_the_conflicts() {
    let mut status = RepoStatus::default();
    status.conflicts.push(FileEntry { status: FileStatus::Conflicted, path: "a.rs".to_string(), original_path: None });
    status.conflicts.push(FileEntry { status: FileStatus::Conflicted, path: "b.rs".to_string(), original_path: None });
    assert_eq!(check_merge_conflicts(&Ok("Automatic merge went well".to_string()), &status), Ok(vec![]));
    assert_eq!(
        check_merge_conflicts(&Err("git merge failed: CONFLICT (content): Merge conflict in a.rs".to_string()), &status),
        Ok(vec!["a.rs".to_string(), "b.rs".to_string()])
    );
    assert_eq!(
        check_merge_conflicts(&Err("Automatic merge failed; fix conflicts".to_string()), &RepoStatus::default()),
        Ok(vec![])
    );
    assert_eq!(
        check_merge_conflicts(&Err("git merge failed: not something we can merge".to_string()), &status),
        Err("git merge failed: not something we can merge".to_string())
    );
}

#[test]
fn region_can_be_written_by_hand() {
    let region = ConflictRegion {
        start_line: 1,
        end_line: 2,
        current: vec!["mine".to_string()],
        incoming: vec![],
        ancestor: None,
        current_label: "HEAD".to_string(),
        incoming_label: "other".to_string(),
    };
    assert_eq!(resolve_region("x\ny\nz\n", &region, "current"), "mine\nz\n");
    assert_eq!(resolve_region("x\ny\nz\n", &region, "incoming"), "z\n");
}

#[test]
fn resolved_file_is_staged_and_a_merge_tried_out() {
    assert_eq!(resolve_file("src/a b.rs").args, vec!["add", "src/a b.rs"]);
    assert_eq!(merge_trial("feature").args, vec!["merge", "--no-commit", "--no-ff", "feature"]);
}

#[test]
fn region_outside_the_file_is_not_resolved() {
    let mut region = ConflictRegion {
        start_line: 4,
        end_line: 9,
        current: vec!["mine".to_string()],
        incoming: vec![],
        ancestor: None,
        current_label: "HEAD".to_string(),
        incoming_label: "other".to_string(),
    };
    assert_eq!(resolve_region_in("x\ny\nz\n", &region, "current"), Some("x\ny\nz\nmine\n".to_string()));
    region.start_line = 5;
    assert_eq!(resolve_region_in("x\ny\nz\n", &region, "current"), None);
    region.start_line = 0;
    assert_eq!(resolve_region_in("x\ny\nz\n", &region, "current"), None);
    region.start_line = 1;
    region.end_line = 0;
    assert_eq!(resolve_region_in("x\ny\nz\n", &region, "current"), None);
    region.end_line = 1;
    assert_eq!(resolve_region_in("x\ny\nz", &region, "incoming"), Some("y\nz".to_string()));
}

#[test]
fn conflict_errors_are_told_by_their_words() {
    assert!(is_conflict_error("CONFLICT (content): Merge conflict in a.rs"));
    assert!(is_conflict_error("x\nAutomatic merge failed; fix conflicts and then commit"));
    assert!(!is_conflict_error("conflict"));
    assert!(!is_conflict_error("fatal: refusing to merge unrelated histories"));
    assert!(!is_conflict_error(""));
}
