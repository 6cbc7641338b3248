use zit::diff::{apply_patch, apply_patch_reverse, apply_result, get_commit_diff, get_staged_diff,
    get_staged_stat, get_unstaged_diff, build_hunk_patch, parse_diff_output, parse_hunk_header, stage_hunk, unstage_hunk,
    DiffLineType};

#[test]
fn test_parse_diff_output() {
    let sample = "\
diff --git a/src/main.rs b/src/main.rs
index abc123..def456 100644
--- a/src/main.rs
+++ b/src/main.rs
@@ -1,3 +1,4 @@
 fn main() {
-    println!(\"Hello\");
+    println!(\"Hello, world!\");
+    println!(\"Welcome\");
 }
";
    let files = parse_diff_output(sample);
    assert_eq!(files.len(), 1);
    assert_eq!(files[0].path, "src/main.rs");
    assert_eq!(files[0].hunks.len(), 1);
    // Header + 1 context + 1 removed + 2 added + 1 context = 6 lines
    assert_eq!(files[0].hunks[0].lines.len(), 6);
}

#[test]
fn test_parse_hunk_header() {
    let (os, oc, ns, nc) = parse_hunk_header("@@ -1,3 +1,4 @@ fn main()");
    assert_eq!(os, 1);
    assert_eq!(oc, 3);
    assert_eq!(ns, 1);
    assert_eq!(nc, 4);
}

#[test]
fn test_parse_hunk_header_single_line() {
    let (os, oc, ns, nc) = parse_hunk_header("@@ -10 +10 @@");
    assert_eq!(os, 10);
    assert_eq!(oc, 1); // default when no comma
    assert_eq!(ns, 10);
    assert_eq!(nc, 1);
}

#[test]
fn test_parse_empty_diff() {
    let files = parse_diff_output("");
    assert!(files.is_empty());
}

#[test]
fn test_parse_diff_multiple_files() {
    let sample = "\
diff --git a/file1.rs b/file1.rs
index abc..def 100644
--- a/file1.rs
+++ b/file1.rs
@@ -1,2 +1,2 @@
-old1
+new1
diff --git a/file2.rs b/file2.rs
index 111..222 100644
--- a/file2.rs
+++ b/file2.rs
@@ -1,2 +1,3 @@
 keep
-remove
+add1
+add2
";
    let files = parse_diff_output(sample);
    assert_eq!(files.len(), 2);
    assert_eq!(files[0].path, "file1.rs");
    assert_eq!(files[1].path, "file2.rs");
    assert_eq!(files[1].hunks.len(), 1);
}

#[test]
fn test_parse_diff_rename() {
    let sample = "\
diff --git a/old_name.rs b/new_name.rs
rename from old_name.rs
rename to new_name.rs
@@ -1,2 +1,2 @@
-old
+new
";
    let files = parse_diff_output(sample);
    assert_eq!(files.len(), 1);
    assert_eq!(files[0].path, "new_name.rs");
    assert_eq!(files[0].old_path, Some("old_name.rs".to_string()));
}

#[test]
fn test_diff_line_types_classified_correctly() {
    let sample = "\
diff --git a/t.rs b/t.rs
index abc..def 100644
--- a/t.rs
+++ b/t.rs
@@ -1,3 +1,3 @@
 context
-removed
+added
";
    let files = parse_diff_output(sample);
    let lines = &files[0].hunks[0].lines;
    assert_eq!(lines[0].line_type, DiffLineType::Header); // @@ header
    assert_eq!(lines[1].line_type, DiffLineType::Context); // " context"
    assert_eq!(lines[2].line_type, DiffLineType::Removed); // "-removed"
    assert_eq!(lines[3].line_type, DiffLineType::Added); // "+added"
}

#[test]
fn test_parse_diff_multiple_hunks() {
    let sample = "\
diff --git a/f.rs b/f.rs
index abc..def 100644
--- a/f.rs
+++ b/f.rs
@@ -1,2 +1,2 @@
-a
+b
@@ -10,2 +10,2 @@
-c
+d
";
    let files = parse_diff_output(sample);
    assert_eq!(files[0].hunks.len(), 2);
    assert_eq!(files[0].hunks[0].old_start, 1);
    assert_eq!(files[0].hunks[1].old_start, 10);
}

#[test]
fn hunk_header_fields_of_both_shapes() {
    assert_eq!(parse_hunk_header("@@ -10 +10 @@"), (10, 1, 10, 1));
    assert_eq!(parse_hunk_header("@@ -1,3 +1,4 @@"), (1, 3, 1, 4));
}

#[test]
fn hunk_header_of_another_shape_gives_defaults() {
    assert_eq!(parse_hunk_header("@@@ -1,2 -1,2 +1,3 @@@"), (0, 1, 0, 1));
    assert_eq!(parse_hunk_header("@@ only"), (0, 1, 0, 1));
    assert_eq!(parse_hunk_header("@@ -x,y +7,oops @@"), (0, 1, 7, 1));
    assert_eq!(parse_hunk_header("@@ -4294967296,2 +4294967295,0 @@"), (0, 2, 4294967295, 0));
    assert_eq!(parse_hunk_header("@@ -1,2,3 +4,5,6 @@"), (1, 2, 4, 5));
}

#[test]
fn second_hunk_alone_makes_a_patch_of_its_own() {
    let sample = "\
diff --git a/f.rs b/f.rs
index abc..def 100644
--- a/f.rs
+++ b/f.rs
@@ -1,2 +1,2 @@
-a
+b
@@ -10,2 +10,2 @@
-c
+d
";
    let files = parse_diff_output(sample);
    assert_eq!(files.len(), 1);
    assert_eq!(files[0].path, "f.rs");
    assert_eq!(files[0].hunks.len(), 2);
    assert_eq!(files[0].hunks[0].old_start, 1);
    assert_eq!(files[0].hunks[1].old_start, 10);
    let hunk = &files[0].hunks[1];
    assert_eq!(hunk.header, "@@ -10,2 +10,2 @@");
    assert_eq!((hunk.old_count, hunk.new_start, hunk.new_count), (2, 10, 2));
    let patch = build_hunk_patch("f.rs", hunk);
    assert_eq!(patch, "--- a/f.rs\n+++ b/f.rs\n@@ -10,2 +10,2 @@\n-c\n+d\n");
    let stage = stage_hunk("f.rs", hunk);
    assert_eq!(stage.args, vec!["apply", "--unidiff-zero", "--cached", "-"]);
    assert_eq!(stage.stdin, Some(patch.clone()));
    let unstage = unstage_hunk("f.rs", hunk);
    assert_eq!(unstage.args, vec!["apply", "--cached", "--reverse", "--unidiff-zero", "-"]);
    assert_eq!(unstage.stdin, Some(patch));
}

#[test]
fn hunk_lines_written_out_are_a_part_of_the_diff() {
    let sample = "diff --git a/x b/x\n@@ -1 +1 @@\n-old\n+new\n context\n@@ -9 +9 @@\n-p\n+q\n";
    let files = parse_diff_output(sample);
    for file in &files {
        for hunk in &file.hunks {
            let mut text = String::new();
            for line in &hunk.lines {
                text.push_str(&line.content);
                text.push('\n');
            }
            assert!(sample.contains(&text));
            assert_eq!(hunk.lines[0].line_type, DiffLineType::Header);
            assert_eq!(hunk.lines[0].content, hunk.header);
        }
    }
    assert_eq!(files[0].hunks[0].lines.len(), 4);
}

#[test]
fn path_is_taken_behind_the_last_b_slash() {
    let files = parse_diff_output("diff --git a/dir b/x b/dir b/x\n");
    assert_eq!(files[0].path, "x");
    let files = parse_diff_output("diff --git nothing\n");
    assert_eq!(files[0].path, "diff --git nothing");
}

#[test]
fn hunk_without_a_file_is_dropped() {
    let files = parse_diff_output("@@ -1 +1 @@\n-a\n+b\n");
    assert!(files.is_empty());
    let files = parse_diff_output("@@ -1 +1 @@\n-a\ndiff --git a/f b/f\n+b\n");
    assert_eq!(files.len(), 1);
    assert!(files[0].hunks.is_empty());
}

#[test]
fn carriage_returns_before_line_feeds_are_not_part_of_a_line() {
    let files = parse_diff_output("diff --git a/f b/f\r\n@@ -1 +1 @@\r\n+b\r\n");
    assert_eq!(files[0].path, "f");
    assert_eq!(files[0].hunks[0].lines[1].content, "+b");
}

#[test]
fn refused_patch_hands_on_what_git_wrote() {
    assert_eq!(apply_result(true, "warning: x"), Ok(()));
    assert_eq!(
        apply_result(false, "error: patch failed: f.rs:10\nerror: f.rs: patch does not apply\n"),
        Err("error: patch failed: f.rs:10\nerror: f.rs: patch does not apply\n".to_string())
    );
    assert_eq!(apply_result(false, "x\n"), Err("x\n".to_string()));
    assert_eq!(apply_result(false, "  no  "), Err("  no  ".to_string()));
    assert_eq!(apply_result(false, ""), Err(String::new()));
    assert_eq!(apply_patch("p".to_string(), false).args, vec!["apply", "--unidiff-zero", "-"]);
    assert_eq!(apply_patch("p".to_string(), true).args, vec!["apply", "--unidiff-zero", "--cached", "-"]);
    assert_eq!(apply_patch_reverse("p".to_string()).stdin, Some("p".to_string()));
}

#[test]
fn diff_commands() {
    assert_eq!(get_unstaged_diff().args, vec!["diff"]);
    assert_eq!(get_staged_diff().args, vec!["diff", "--cached"]);
    assert_eq!(get_commit_diff("abc123").args, vec!["diff", "abc123^..abc123"]);
    assert_eq!(get_staged_stat().args, vec!["diff", "--cached", "--stat"]);
    assert!(get_commit_diff("x").stdin.is_none());
}
