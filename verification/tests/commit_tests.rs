use zit::commit::{commit_done, do_commit, CommitRefusal, CommitState};
use zit::status::{FileEntry, FileStatus, RepoStatus};

fn validate_msg(msg: &str) -> Vec<String> {
    let mut state = CommitState::default();
    state.message = msg.to_string();
    state.validate();
    state.validation_warnings
}

#[test]
fn test_validate_empty_message_no_warnings() {
    assert!(validate_msg("").is_empty());
}

#[test]
fn test_validate_good_subject() {
    assert!(validate_msg("Fix login bug").is_empty());
}

#[test]
fn test_validate_subject_too_long() {
    let long = "a".repeat(73);
    let warnings = validate_msg(&long);
    assert_eq!(warnings.len(), 1);
    assert!(warnings[0].contains("73 chars"));
}

#[test]
fn test_validate_subject_ends_with_period() {
    let warnings = validate_msg("Fix the bug.");
    assert_eq!(warnings.len(), 1);
    assert!(warnings[0].contains("period"));
}

#[test]
fn test_validate_missing_blank_second_line() {
    let warnings = validate_msg("Subject\nBody starts immediately");
    assert_eq!(warnings.len(), 1);
    assert!(warnings[0].contains("Line 2 should be blank"));
}

#[test]
fn test_validate_correct_multiline() {
    let msg = "Subject line\n\nBody paragraph that explains\nthe change in detail.";
    assert!(validate_msg(msg).is_empty());
}

#[test]
fn test_validate_body_line_too_long() {
    let long_body = format!("Subject\n\n{}", "x".repeat(81));
    let warnings = validate_msg(&long_body);
    assert_eq!(warnings.len(), 1);
    assert!(warnings[0].contains("81 chars"));
}

#[test]
fn test_validate_multiple_warnings() {
    // Subject ends with period AND body line too long
    let msg = format!("Subject line.\n\n{}", "y".repeat(81));
    let warnings = validate_msg(&msg);
    assert_eq!(warnings.len(), 2);
}

#[test]
fn warnings_come_in_their_order_and_name_the_numbers() {
    let msg = format!("{}.\nsecond\n{}\nok", "s".repeat(72), "b".repeat(90));
    assert_eq!(
        validate_msg(&msg),
        vec![
            "Subject line is 73 chars (recommended: ≤72)",
            "Subject should not end with a period",
            "Line 3 is 90 chars (recommended: ≤80)",
            "Line 2 should be blank (separates subject from body)",
        ]
    );
    assert!(validate_msg(&"a".repeat(72)).is_empty());
    assert!(validate_msg(&format!("s\n\n{}", "x".repeat(80))).is_empty());
    assert_eq!(validate_msg(&"é".repeat(37)).len(), 1);
    assert_eq!(validate_msg(&format!("s\n{}", "x".repeat(81))).len(), 2);
    assert!(validate_msg("\n").is_empty());
}

#[test]
fn refresh_takes_over_what_could_be_had() {
    let mut state = CommitState::default();
    assert!(state.editing);
    state.message = "Subject.".to_string();
    let mut status = RepoStatus::default();
    status.staged.push(FileEntry { status: FileStatus::Added, path: "a.rs".to_string(), original_path: None });
    state.refresh(Some(status), Some(" 1 file changed".to_string()));
    assert_eq!(state.staged_files.len(), 1);
    assert_eq!(state.staged_files[0].path, "a.rs");
    assert_eq!(state.stat_output, " 1 file changed");
    assert_eq!(state.validation_warnings.len(), 1);
    state.message.clear();
    state.refresh(None, None);
    assert_eq!(state.staged_files.len(), 1);
    assert_eq!(state.stat_output, " 1 file changed");
    assert!(state.validation_warnings.is_empty());
}

fn staged(message: &str, files: usize) -> CommitState {
    let mut state = CommitState::default();
    state.message = message.to_string();
    for i in 0..files {
        state.staged_files.push(FileEntry { status: FileStatus::Modified, path: format!("f{}.rs", i), original_path: None });
    }
    state
}

#[test]
fn commit_is_refused_without_a_message_or_a_staged_file() {
    assert_eq!(do_commit(&staged("  \n ", 1)).unwrap_err(), CommitRefusal::EmptyMessage);
    assert_eq!(do_commit(&staged("", 0)).unwrap_err(), CommitRefusal::EmptyMessage);
    assert_eq!(do_commit(&staged("Fix it", 0)).unwrap_err(), CommitRefusal::NothingStaged);
    assert_eq!(CommitRefusal::EmptyMessage.message(), "Commit message cannot be empty");
    assert_eq!(CommitRefusal::NothingStaged.message(), "No files staged for commit");
    let command = do_commit(&staged("  Fix it\n\nBody \n", 2)).unwrap();
    assert_eq!(command.args, vec!["commit", "-m", "Fix it\n\nBody"]);
    assert!(command.stdin.is_none());
}

#[test]
fn commit_that_went_well_clears_the_message() {
    let mut state = staged("Fix it", 1);
    state.editing = false;
    let (status, done) = commit_done(&mut state, &Ok("[main abc1234] Fix it\n 1 file changed\n".to_string()));
    assert_eq!(status, "✓ [main abc1234] Fix it");
    assert!(done && state.editing);
    assert_eq!(state.message, "");
    assert_eq!(state.staged_files.len(), 1);
    let (status, _) = commit_done(&mut state, &Ok(String::new()));
    assert_eq!(status, "✓ Committed");

    let mut state = staged("Fix it", 1);
    state.editing = false;
    let (status, done) = commit_done(&mut state, &Err("git commit -m Fix it failed: nothing to commit".to_string()));
    assert_eq!(status, "Commit failed: git commit -m Fix it failed: nothing to commit");
    assert!(!done && !state.editing);
    assert_eq!(state.message, "Fix it");
}
