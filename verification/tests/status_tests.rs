use zit::status::{char_to_status, get_status, parse_ordinary_entry, parse_rename_entry, FileEntry,
    FileStatus, RepoStatus};

#[test]
fn test_parse_porcelain_v2() {
    let sample = "\
# branch.head main
# branch.upstream origin/main
# branch.ab +2 -1
1 M. N... 100644 100644 100644 abc123 def456 src/main.rs
1 .M N... 100644 100644 100644 abc123 def456 src/lib.rs
? untracked_file.txt
";
    let status = get_status(sample, None);
    let (branch, upstream, ahead, behind) =
        (status.branch, status.upstream, status.ahead, status.behind);
    let (staged, unstaged, untracked) = (status.staged, status.unstaged, status.untracked);

    assert_eq!(branch, "main");
    assert_eq!(upstream, Some("origin/main".to_string()));
    assert_eq!(ahead, 2);
    assert_eq!(behind, 1);
    assert_eq!(staged.len(), 1);
    assert_eq!(staged[0].path, "src/main.rs");
    assert_eq!(unstaged.len(), 1);
    assert_eq!(unstaged[0].path, "src/lib.rs");
    assert_eq!(untracked.len(), 1);
    assert_eq!(untracked[0].path, "untracked_file.txt");
}

#[test]
fn test_char_to_status_modified() {
    assert_eq!(char_to_status('M'), Some(FileStatus::Modified));
}

#[test]
fn test_char_to_status_added() {
    assert_eq!(char_to_status('A'), Some(FileStatus::Added));
}

#[test]
fn test_char_to_status_deleted() {
    assert_eq!(char_to_status('D'), Some(FileStatus::Deleted));
}

#[test]
fn test_char_to_status_renamed() {
    assert_eq!(char_to_status('R'), Some(FileStatus::Renamed));
}

#[test]
fn test_char_to_status_copied() {
    assert_eq!(char_to_status('C'), Some(FileStatus::Copied));
}

#[test]
fn test_char_to_status_conflicted() {
    assert_eq!(char_to_status('U'), Some(FileStatus::Conflicted));
}

#[test]
fn test_char_to_status_dot_is_none() {
    assert_eq!(char_to_status('.'), None);
}

#[test]
fn test_char_to_status_space_is_none() {
    assert_eq!(char_to_status(' '), None);
}

#[test]
fn test_char_to_status_unknown_is_none() {
    assert_eq!(char_to_status('Z'), None);
}

#[test]
fn test_repo_status_default_is_clean() {
    let s = RepoStatus::default();
    assert!(s.is_clean());
}

#[test]
fn test_repo_status_with_staged_not_clean() {
    let mut s = RepoStatus::default();
    s.staged.push(FileEntry {
        status: FileStatus::Modified,
        path: "test.rs".to_string(),
        original_path: None,
    });
    assert!(!s.is_clean());
}

#[test]
fn test_repo_status_with_untracked_not_clean() {
    let mut s = RepoStatus::default();
    s.untracked.push(FileEntry {
        status: FileStatus::Untracked,
        path: "new.rs".to_string(),
        original_path: None,
    });
    assert!(!s.is_clean());
}

#[test]
fn test_repo_status_with_conflicts_not_clean() {
    let mut s = RepoStatus::default();
    s.conflicts.push(FileEntry {
        status: FileStatus::Conflicted,
        path: "merge.rs".to_string(),
        original_path: None,
    });
    assert!(!s.is_clean());
}

#[test]
fn test_parse_ordinary_entry_both_staged_and_unstaged() {
    // XY=MM means both staged and unstaged modifications
    let line = "1 MM N... 100644 100644 100644 abc123 def456 both.rs";
    let mut staged = Vec::new();
    let mut unstaged = Vec::new();
    let mut conflicts = Vec::new();
    parse_ordinary_entry(line, &mut staged, &mut unstaged, &mut conflicts);
    assert_eq!(staged.len(), 1);
    assert_eq!(unstaged.len(), 1);
    assert_eq!(staged[0].path, "both.rs");
    assert_eq!(unstaged[0].path, "both.rs");
}

#[test]
fn test_parse_ordinary_entry_conflicted() {
    // XY=U. means conflicted in index
    let line = "1 U. N... 100644 100644 100644 abc123 def456 conflict.rs";
    let mut staged = Vec::new();
    let mut unstaged = Vec::new();
    let mut conflicts = Vec::new();
    parse_ordinary_entry(line, &mut staged, &mut unstaged, &mut conflicts);
    assert_eq!(conflicts.len(), 1);
    assert_eq!(conflicts[0].path, "conflict.rs");
}

#[test]
fn test_parse_rename_entry_basic() {
    let line = "2 R. N... 100644 100644 100644 abc123 def456 R100 new.rs\told.rs";
    let mut staged = Vec::new();
    let mut unstaged = Vec::new();
    parse_rename_entry(line, &mut staged, &mut unstaged);
    assert_eq!(staged.len(), 1);
    assert_eq!(staged[0].status, FileStatus::Renamed);
    assert_eq!(staged[0].path, "new.rs");
    assert_eq!(staged[0].original_path, Some("old.rs".to_string()));
}

#[test]
fn test_repo_status_default_branch() {
    let s = RepoStatus::default();
    assert_eq!(s.branch, "(unknown)");
    assert!(s.upstream.is_none());
    assert_eq!(s.ahead, 0);
    assert_eq!(s.behind, 0);
    assert_eq!(s.stash_count, 0);
}

#[test]
fn ordinary_entry_fills_one_bucket_for_each_letter() {
    for (xy, staged_n, conflicts_n, unstaged_n) in [
        ("MM", 1, 0, 1),
        ("AD", 1, 0, 1),
        ("UM", 0, 1, 1),
        ("RC", 1, 0, 1),
        ("M.", 1, 0, 0),
        (".M", 0, 0, 1),
        ("..", 0, 0, 0),
        ("M", 1, 0, 0),
        ("?!", 0, 0, 0),
    ] {
        let line = format!("1 {} N... 100644 100644 100644 abc123 def456 dir/a b.rs", xy);
        let mut staged = Vec::new();
        let mut unstaged = Vec::new();
        let mut conflicts = Vec::new();
        parse_ordinary_entry(&line, &mut staged, &mut unstaged, &mut conflicts);
        assert_eq!((staged.len(), conflicts.len(), unstaged.len()), (staged_n, conflicts_n, unstaged_n));
        for e in staged.iter().chain(unstaged.iter()).chain(conflicts.iter()) {
            assert_eq!(e.path, "dir/a b.rs");
            assert!(e.original_path.is_none());
        }
    }
}

#[test]
fn short_entry_lines_are_passed_over() {
    let mut staged = Vec::new();
    let mut unstaged = Vec::new();
    let mut conflicts = Vec::new();
    parse_ordinary_entry("1 MM N... 100644 100644 100644 abc123 def456", &mut staged, &mut unstaged, &mut conflicts);
    parse_rename_entry("2 R. N... 100644 100644 100644 abc123 def456 R100", &mut staged, &mut unstaged);
    assert!(staged.is_empty() && unstaged.is_empty() && conflicts.is_empty());
}

#[test]
fn rename_entry_with_worktree_change_and_copy() {
    let mut staged = Vec::new();
    let mut unstaged = Vec::new();
    parse_rename_entry("2 CM N... 100644 100644 100644 abc123 def456 C75 new name.rs\told name.rs", &mut staged, &mut unstaged);
    assert_eq!(staged.len(), 1);
    assert_eq!(staged[0].status, FileStatus::Copied);
    assert_eq!(staged[0].path, "new name.rs");
    assert_eq!(staged[0].original_path, Some("old name.rs".to_string()));
    assert_eq!(unstaged.len(), 1);
    assert_eq!(unstaged[0].status, FileStatus::Modified);
    assert_eq!(unstaged[0].path, "new name.rs");
    assert!(unstaged[0].original_path.is_none());
    let mut staged = Vec::new();
    let mut unstaged = Vec::new();
    parse_rename_entry("2 R. N... 100644 100644 100644 abc123 def456 R100 only.rs", &mut staged, &mut unstaged);
    assert_eq!(staged[0].path, "only.rs");
    assert!(staged[0].original_path.is_none());
    let mut staged = Vec::new();
    parse_rename_entry("2 M. N... 100644 100644 100644 abc123 def456 R100 a\tb", &mut staged, &mut unstaged);
    assert!(staged.is_empty());
}

#[test]
fn status_of_a_whole_output() {
    let sample = "# branch.oid 1234\n# branch.head feature/x\n# branch.ab +x -7\n\
1 MM N... 100644 100644 100644 abc def both.rs\n\
2 R. N... 100644 100644 100644 abc def R100 new.rs\told.rs\n\
u UU N... 100644 100644 100644 100644 abc def ghi my conflict.rs\n\
? new file.txt\n\
! ignored.txt\n\
something else\n";
    let status = get_status(sample, Some("stash@{0}: WIP on main\nstash@{1}: On dev: x\n"));
    assert_eq!(status.branch, "feature/x");
    assert!(status.upstream.is_none());
    assert_eq!((status.ahead, status.behind), (0, 7));
    assert_eq!(status.staged.len(), 2);
    assert_eq!(status.staged[0].path, "both.rs");
    assert_eq!(status.staged[1].status, FileStatus::Renamed);
    assert_eq!(status.staged[1].original_path, Some("old.rs".to_string()));
    assert_eq!(status.unstaged.len(), 1);
    assert_eq!(status.conflicts.len(), 1);
    assert_eq!(status.conflicts[0].status, FileStatus::Conflicted);
    assert_eq!(status.conflicts[0].path, "my conflict.rs");
    assert_eq!(status.untracked.len(), 1);
    assert_eq!(status.untracked[0].path, "new file.txt");
    assert_eq!(status.untracked[0].status, FileStatus::Untracked);
    assert_eq!(status.stash_count, 2);
    assert!(!status.is_clean());
}

#[test]
fn status_without_output_is_unknown_and_clean() {
    let status = get_status("", None);
    assert_eq!(status.branch, "(unknown)");
    assert_eq!(status.stash_count, 0);
    assert!(status.is_clean());
    let status = get_status("# branch.ab +3\n# branch.ab +4294967296 -+5\n", Some(""));
    assert_eq!((status.ahead, status.behind), (0, 5));
    let status = get_status("# branch.ab ++12 --x\n", Some(""));
    assert_eq!((status.ahead, status.behind), (12, 0));
    assert_eq!(status.stash_count, 0);
}

#[test]
fn status_is_asked_for_in_porcelain_v2() {
    assert_eq!(zit::status::status_command().args, vec!["status", "--porcelain=v2", "--branch"]);
    assert_eq!(zit::status::stash_count_command().args, vec!["stash", "list"]);
    assert_eq!(zit::stash::stash_list_command().args, vec!["stash", "list", "--format=%gd|%gs"]);
}

#[test]
fn whole_output_puts_each_path_once_where_its_letters_say() {
    let letters = ["MM", "AD", "UM", "RC", "DU", "CA"];
    let mut output = String::from("# branch.head main\n");
    for (i, xy) in letters.iter().enumerate() {
        output.push_str(&format!("1 {} N... 100644 100644 100644 abc def file {}.rs\n", xy, i));
        output.push_str(&format!("? other {}.txt\n", i));
    }
    let status = get_status(&output, None);
    for (i, xy) in letters.iter().enumerate() {
        let path = format!("file {}.rs", i);
        let count = |bucket: &Vec<FileEntry>| bucket.iter().filter(|e| e.path == path).count();
        let in_conflict = xy.starts_with('U');
        assert_eq!(count(&status.staged) + count(&status.conflicts), 1, "{}", xy);
        assert_eq!(count(&status.conflicts) == 1, in_conflict, "{}", xy);
        assert_eq!(count(&status.unstaged), 1, "{}", xy);
        assert_eq!(count(&status.untracked), 0, "{}", xy);
    }
    assert_eq!(status.untracked.len(), 6);
    let unstaged: Vec<&str> = status.unstaged.iter().map(|e| e.path.as_str()).collect();
    assert_eq!(unstaged, vec!["file 0.rs", "file 1.rs", "file 2.rs", "file 3.rs", "file 4.rs", "file 5.rs"]);
    let staged: Vec<&str> = status.staged.iter().map(|e| e.path.as_str()).collect();
    assert_eq!(staged, vec!["file 0.rs", "file 1.rs", "file 3.rs", "file 4.rs", "file 5.rs"]);
}
