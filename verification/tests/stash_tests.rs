use zit::stash::{extract_branch, list_stashes, stash_apply, stash_clear, stash_drop, stash_pop,
    stash_push, stash_show};

#[test]
fn test_extract_branch_wip() {
    assert_eq!(extract_branch("WIP on main: abc1234 some msg"), "main");
}

#[test]
fn test_extract_branch_on() {
    assert_eq!(
        extract_branch("On feature/foo: abc1234 some msg"),
        "feature/foo"
    );
}

#[test]
fn test_extract_branch_index() {
    assert_eq!(
        extract_branch("index on develop: abc1234 some msg"),
        "develop"
    );
}

#[test]
fn test_extract_branch_unknown_format() {
    assert_eq!(extract_branch("random stash message"), "");
}

#[test]
fn test_extract_branch_no_colon() {
    assert_eq!(extract_branch("WIP on main"), "");
}

#[test]
fn stash_list_is_read_line_by_line() {
    let output = "stash@{0}|WIP on main: abc1234 msg\n\n  stash@{1}|On feature/x: saved | twice  \nno separator here\n";
    let entries = list_stashes(output);
    assert_eq!(entries.len(), 3);
    assert_eq!((entries[0].index, entries[1].index, entries[2].index), (0, 2, 3));
    assert_eq!(entries[0].branch, "main");
    assert_eq!(entries[0].message, "WIP on main: abc1234 msg");
    assert_eq!(entries[1].branch, "feature/x");
    assert_eq!(entries[1].message, "On feature/x: saved | twice");
    assert_eq!(entries[2].branch, "");
    assert_eq!(entries[2].message, "no separator here");
    assert!(list_stashes("").is_empty());
}

#[test]
fn branch_is_taken_behind_the_first_prefix_with_a_colon() {
    assert_eq!(extract_branch("On : x"), "");
    assert_eq!(extract_branch("WIP on a:b: c"), "a");
    assert_eq!(extract_branch("wip on main: x"), "");
    assert_eq!(extract_branch(""), "");
}

#[test]
fn stash_commands() {
    assert_eq!(stash_push(Some("half done")).args, vec!["stash", "push", "-m", "half done"]);
    assert_eq!(stash_push(Some("")).args, vec!["stash", "push"]);
    assert_eq!(stash_push(None).args, vec!["stash", "push"]);
    assert_eq!(stash_pop(0).args, vec!["stash", "pop", "stash@{0}"]);
    assert_eq!(stash_apply(12).args, vec!["stash", "apply", "stash@{12}"]);
    assert_eq!(stash_drop(305).args, vec!["stash", "drop", "stash@{305}"]);
    assert_eq!(stash_show(7).args, vec!["stash", "show", "-p", "stash@{7}"]);
    assert_eq!(stash_clear().args, vec!["stash", "clear"]);
}
