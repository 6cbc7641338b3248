use zit::runner::{check_git_version, is_git_repo, parse_git_version, poll_step, run_git,
    timeout_error, GitVersionError, PollAction, PollEvent, GIT_TIMEOUT_MS, POLL_INTERVAL_MS};

#[test]
fn test_run_git_version() {
    let result = run_git(&vec!["--version".to_string()], true, "git version 2.39.3\n", "");
    assert!(result.is_ok());
    assert!(result.unwrap().starts_with("git version"));
}

#[test]
fn test_parse_git_version_standard() {
    assert_eq!(parse_git_version("git version 2.39.3"), Some((2, 39, 3)));
}

#[test]
fn test_parse_git_version_apple() {
    assert_eq!(
        parse_git_version("git version 2.39.3 (Apple Git-146)"),
        Some((2, 39, 3))
    );
}

#[test]
fn test_parse_git_version_no_patch() {
    assert_eq!(parse_git_version("git version 2.13"), Some((2, 13, 0)));
}

#[test]
fn test_parse_git_version_garbage() {
    assert_eq!(parse_git_version("not a version"), None);
}

#[test]
fn test_check_git_version_passes() {
    // A git of today is >= 2.13.0
    assert!(check_git_version("git version 2.39.3\n").is_ok());
}

#[test]
fn failed_command_names_its_arguments_and_the_error() {
    let args = vec!["push".to_string(), "-u".to_string(), "origin".to_string()];
    assert_eq!(
        run_git(&args, false, "ignored", "  fatal: no remote\n\n"),
        Err("git push -u origin failed: fatal: no remote".to_string())
    );
    assert_eq!(run_git(&vec![], false, "", ""), Err("git  failed: ".to_string()));
    assert_eq!(run_git(&args, true, " out \n", "warning"), Ok(" out \n".to_string()));
}

#[test]
fn timeout_error_names_the_seconds() {
    let args = vec!["fetch".to_string(), "origin".to_string()];
    assert_eq!(timeout_error(&args, 30), "git fetch origin timed out after 30s");
    assert_eq!(timeout_error(&vec!["gc".to_string()], 0), "git gc timed out after 0s");
}

#[test]
fn polling_kills_only_past_the_time_allowed() {
    assert_eq!(GIT_TIMEOUT_MS, 30000);
    let allowed: u128 = 30_000_000_000;
    assert_eq!(poll_step(PollEvent::Running, allowed, allowed), PollAction::Sleep(POLL_INTERVAL_MS));
    assert_eq!(poll_step(PollEvent::Running, 0, allowed), PollAction::Sleep(50));
    assert_eq!(poll_step(PollEvent::Running, allowed + 1, allowed), PollAction::KillForTimeout);
    assert_eq!(poll_step(PollEvent::Exited, allowed * 3, allowed), PollAction::Collect);
    assert_eq!(poll_step(PollEvent::WaitFailed, 1, allowed), PollAction::FailWaiting);
}

#[test]
fn repository_is_there_where_the_probe_went_well() {
    assert!(is_git_repo(&Ok("true\n".to_string())));
    assert!(!is_git_repo(&Err("git rev-parse failed: not a git repository".to_string())));
}

#[test]
fn versions_of_other_shapes() {
    assert_eq!(parse_git_version("2.40.1.windows.1"), Some((2, 40, 1)));
    assert_eq!(parse_git_version("git version 3"), None);
    assert_eq!(parse_git_version(""), None);
    assert_eq!(parse_git_version("git version 2.99999999999.1"), None);
    assert_eq!(parse_git_version("git version 2.5.99999999999"), Some((2, 5, 0)));
    assert_eq!(parse_git_version("  v1-2  "), Some((1, 2, 0)));
}

#[test]
fn old_and_unreadable_versions_are_refused() {
    assert_eq!(check_git_version("git version 2.12.9\n"), Err(GitVersionError::TooOld(2, 12, 9)));
    assert_eq!(check_git_version("git version 1.99.0"), Err(GitVersionError::TooOld(1, 99, 0)));
    assert_eq!(check_git_version("git version 2.13.0"), Ok(()));
    assert_eq!(check_git_version("git version 3.0"), Ok(()));
    assert_eq!(check_git_version(" nonsense \n"), Err(GitVersionError::Unreadable("nonsense".to_string())));
    assert_eq!(GitVersionError::TooOld(2, 12, 9).message(), "Git version 2.12.9 is too old (minimum: 2.13.0)");
    assert_eq!(
        GitVersionError::Unreadable("nonsense".to_string()).message(),
        "Could not parse git version from: nonsense"
    );
}
