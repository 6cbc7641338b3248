use zit::log::parse_log_output;
use zit::status::{get_status, FileStatus};
use zit::views::{clamp_selection, staging_files, DashboardState};

const STATUS: &str = "# branch.head main\n# branch.upstream origin/main\n# branch.ab +1 -2\n\
1 MM N... 100644 100644 100644 a b both.rs\n\
1 A. N... 100644 100644 100644 a b added.rs\n\
1 .D N... 100644 100644 100644 a b gone.rs\n\
1 .M N... 100644 100644 100644 a b gone.rs\n\
? new.rs\n";

#[test]
fn dashboard_shows_the_numbers_of_the_status() {
    let mut d = DashboardState::default();
    assert!(d.is_clean && d.branch.is_empty() && d.error.is_none());
    let commits = parse_log_output("* abc123def456abc123def456abc123def456abc1\x1fabc\x1fm\x1fa\x1fd\x1fi\x1f\x1f\n");
    d.refresh(Ok(get_status(STATUS, Some("s1\ns2\ns3\n"))), Ok(commits));
    assert_eq!(d.branch, "main");
    assert_eq!(d.upstream, Some("origin/main".to_string()));
    assert_eq!((d.ahead, d.behind), (1, 2));
    assert_eq!((d.staged_count, d.unstaged_count, d.untracked_count, d.conflict_count), (2, 3, 1, 0));
    assert_eq!(d.stash_count, 3);
    assert!(!d.is_clean);
    assert_eq!(d.recent_commits.len(), 1);
    assert!(d.error.is_none());

    d.refresh(Err("git status failed: boom".to_string()), Err("no log".to_string()));
    assert_eq!(d.error, Some("git status failed: boom".to_string()));
    assert_eq!(d.branch, "main");
    assert_eq!(d.staged_count, 2);
    assert!(d.recent_commits.is_empty());

    d.refresh(Ok(get_status("", None)), Err("no log".to_string()));
    assert!(d.is_clean && d.error.is_none());
    assert_eq!(d.branch, "(unknown)");
}

#[test]
fn staging_list_holds_staged_unstaged_and_untracked_files() {
    let status = get_status(STATUS, None);
    let files = staging_files(Some(&status));
    let shown: Vec<(&str, FileStatus, bool)> =
        files.iter().map(|f| (f.path.as_str(), f.status, f.is_staged)).collect();
    assert_eq!(
        shown,
        vec![
            ("both.rs", FileStatus::Modified, true),
            ("added.rs", FileStatus::Added, true),
            ("both.rs", FileStatus::Modified, false),
            ("gone.rs", FileStatus::Deleted, false),
            ("new.rs", FileStatus::Untracked, false),
        ]
    );
    assert!(staging_files(None).is_empty());
}

#[test]
fn selection_stays_inside_the_list() {
    assert_eq!(clamp_selection(0, 0), 0);
    assert_eq!(clamp_selection(7, 0), 7);
    assert_eq!(clamp_selection(7, 3), 2);
    assert_eq!(clamp_selection(3, 3), 2);
    assert_eq!(clamp_selection(2, 3), 2);
}
