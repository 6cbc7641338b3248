use zit::ai::{classify_http_error, parse_stat_line};

#[test]
fn test_parse_stat_line_full() {
    let stat = " 3 files changed, 45 insertions(+), 12 deletions(-)";
    let (f, i, d) = parse_stat_line(stat);
    assert_eq!(f, 3);
    assert_eq!(i, 45);
    assert_eq!(d, 12);
}

#[test]
fn test_parse_stat_line_insertions_only() {
    let stat = " 1 file changed, 10 insertions(+)";
    let (f, i, d) = parse_stat_line(stat);
    assert_eq!(f, 1);
    assert_eq!(i, 10);
    assert_eq!(d, 0);
}

#[test]
fn test_parse_stat_line_empty() {
    let (f, i, d) = parse_stat_line("");
    assert_eq!(f, 0);
    assert_eq!(i, 0);
    assert_eq!(d, 0);
}

#[test]
fn stat_line_of_other_shapes() {
    assert_eq!(parse_stat_line(" 2 files changed, 5 deletions(-)"), (2, 0, 5));
    assert_eq!(parse_stat_line("x files changed, insertion, 3 deletions"), (0, 0, 3));
    assert_eq!(parse_stat_line("1 file changed,2 insertions(+),3 deletions(-),4 files"), (4, 2, 3));
    assert_eq!(parse_stat_line(" a.rs | 3 ++-\n 1 file changed, 2 insertions(+), 1 deletion(-)\n"), (0, 2, 1));
}

#[test]
fn http_errors_in_words() {
    assert!(classify_http_error(401).starts_with("Invalid API key"));
    assert!(classify_http_error(403).starts_with("Access denied"));
    assert!(classify_http_error(429).starts_with("Rate limited"));
    assert_eq!(classify_http_error(500), "AI service internal error — try again in a moment");
    for status in [502, 503, 504] {
        assert_eq!(classify_http_error(status), "AI service temporarily unavailable — try again shortly");
    }
    assert_eq!(classify_http_error(501), "API error (HTTP 501)");
    assert_eq!(classify_http_error(505), "API error (HTTP 505)");
    assert_eq!(classify_http_error(0), "API error (HTTP 0)");
    assert_eq!(classify_http_error(65535), "API error (HTTP 65535)");
}

#[test]
fn context_holds_the_paths_and_the_staged_diff() {
    let status = zit::status::get_status(
        "1 M. N... 100644 100644 100644 a b staged.rs\n1 .M N... 100644 100644 100644 a b changed.rs\n? new.rs\n",
        None,
    );
    let diffs = zit::diff::parse_diff_output("diff --git a/staged.rs b/staged.rs\n@@ -1 +1 @@\n-a\n+b\n");
    let context = zit::ai::build_repo_context(
        true,
        Some("main".to_string()),
        &status,
        Some(" 1 file changed, 1 insertion(+), 1 deletion(-)"),
        Some(&diffs),
    );
    assert_eq!(context.branch, Some("main".to_string()));
    assert_eq!(context.staged_files, vec!["staged.rs"]);
    assert_eq!(context.unstaged_files, vec!["changed.rs", "new.rs"]);
    let stats = context.diff_stats.unwrap();
    assert_eq!((stats.files_changed, stats.insertions, stats.deletions), (1, 1, 1));
    assert_eq!(context.diff, Some("@@ -1 +1 @@\n-a\n+b\n".to_string()));

    let context = zit::ai::build_repo_context(false, None, &status, Some(" 1 file changed"), Some(&diffs));
    assert!(context.diff_stats.is_none() && context.diff.is_none() && context.branch.is_none());
    let context = zit::ai::build_repo_context(true, None, &status, None, None);
    assert!(context.diff_stats.is_none() && context.diff.is_none());
    let context = zit::ai::build_repo_context(true, None, &status, None, Some(&vec![]));
    assert!(context.diff.is_none());
    let nothing_staged = zit::status::get_status("? new.rs\n", None);
    let context = zit::ai::build_repo_context(true, None, &nothing_staged, Some(" 1 file changed"), Some(&diffs));
    assert!(context.diff_stats.is_none() && context.diff.is_none());
    assert_eq!(context.unstaged_files, vec!["new.rs"]);
}

#[test]
fn long_diff_is_cut_off_behind_the_line_that_passes_the_limit() {
    let status = zit::status::get_status("1 M. N... 100644 100644 100644 a b f\n", None);
    let line = format!("+{}", "x".repeat(999));
    let text = format!("diff --git a/f b/f\n@@ -0,0 +1,9 @@\n{l}\n{l}\n{l}\n{l}\n{l}\n{l}\n", l = line);
    let diffs = zit::diff::parse_diff_output(&text);
    let context = zit::ai::build_repo_context(true, None, &status, None, Some(&diffs));
    let diff = context.diff.unwrap();
    assert_eq!(diff, format!("@@ -0,0 +1,9 @@\n{l}\n{l}\n{l}\n{l}\n...(truncated)", l = line));
    assert_eq!(diff.len(), 16 + 4 * 1001 + 14);
    assert_eq!(zit::ai::DIFF_TRUNCATE_AT, 4000);
}
