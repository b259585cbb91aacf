use exoskeleton_host::diff_tracker::DiffTracker;
use exoskeleton_host::types::{ArtifactId, CodeDiffContent, CodeDiffOperation};

fn sample_content(
    path: &str,
    operation: CodeDiffOperation,
    lines_added: i64,
    lines_removed: i64,
) -> CodeDiffContent {
    CodeDiffContent {
        file_path: path.into(),
        tool_name: "code.edit".into(),
        operation,
        diff_text: "--- a/file\n+++ b/file\n".into(),
        lines_added,
        lines_removed,
        before_sha256: None,
        after_sha256: None,
    }
}

fn id(digest: &str) -> ArtifactId {
    ArtifactId { digest: digest.into() }
}

#[test]
fn diff_tracker_empty_returns_none() {
    let tracker = DiffTracker::new(7);
    assert!(!tracker.has_diffs());
    assert!(tracker.is_empty());
    assert!(tracker.build_event_summary().is_none());
    assert!(tracker.finalize().is_none());
}

#[test]
fn diff_tracker_single_entry() {
    let mut tracker = DiffTracker::new(7);
    tracker.record(id("diff-a"), sample_content("src/main.rs", CodeDiffOperation::Edit, 3, 1));

    let summary = tracker.build_event_summary().unwrap();
    assert_eq!(summary.files_modified, 1);
    assert_eq!(summary.lines_added, 3);
    assert_eq!(summary.lines_removed, 1);
    assert_eq!(summary.net_delta, 2);
    assert_eq!(summary.files.len(), 1);
    assert_eq!(summary.files[0].path, "src/main.rs");
}

#[test]
fn diff_tracker_multiple_entries_aggregates() {
    let mut tracker = DiffTracker::new(8);
    tracker.record(id("diff-a"), sample_content("src/main.rs", CodeDiffOperation::Edit, 3, 1));
    tracker.record(id("diff-b"), sample_content("tests/main.rs", CodeDiffOperation::Create, 7, 0));

    let summary = tracker.build_event_summary().unwrap();
    assert_eq!(summary.files_modified, 2);
    assert_eq!(summary.lines_added, 10);
    assert_eq!(summary.lines_removed, 1);
    assert_eq!(summary.net_delta, 9);
    assert_eq!(summary.files.len(), 2);
}

#[test]
fn diff_tracker_finalize_stores_artifact() {
    let mut tracker = DiffTracker::new(9);
    tracker.record(id("diff-a"), sample_content("src/main.rs", CodeDiffOperation::Edit, 3, 1));

    let summary = tracker.finalize().unwrap();
    assert!(summary.is_summary);
    assert_eq!(summary.tick_number, 9);
    assert_eq!((summary.total_lines_added, summary.total_lines_removed), (3, 1));
    assert_eq!(summary.diff_artifact_ids, vec!["diff-a".to_string()]);
    assert_eq!(summary.files[0].path, "src/main.rs");
}

#[test]
fn diff_tracker_event_summary_fields() {
    let mut tracker = DiffTracker::new(10);
    tracker.record(id("diff-a"), sample_content("src/a.rs", CodeDiffOperation::Edit, 4, 2));
    tracker.record(id("diff-b"), sample_content("src/b.rs", CodeDiffOperation::Patch, 1, 3));

    let summary = tracker.build_event_summary().unwrap();
    assert_eq!(summary.files_modified, 2);
    assert_eq!(summary.lines_added, 5);
    assert_eq!(summary.lines_removed, 5);
    assert_eq!(summary.net_delta, 0);
    assert_eq!(summary.files.len(), 2);
}

#[test]
fn diff_tracker_format_for_reflect() {
    let mut tracker = DiffTracker::new(11);
    tracker.record(id("diff-a"), sample_content("src/main.rs", CodeDiffOperation::Edit, 3, 1));
    tracker.record(id("diff-b"), sample_content("tests/main.rs", CodeDiffOperation::Create, 7, 0));

    let rendered = tracker.format_for_reflect();
    assert!(rendered.contains("## File Changes This Tick"));
    assert!(rendered.contains("src/main.rs"));
    assert!(rendered.contains("tests/main.rs"));
    assert!(rendered.contains("Modified 2 file(s) (+10 lines, -1 lines)"));
    assert_eq!(tracker.len(), 2);
}

#[test]
fn diff_tracker_format_for_reflect_empty() {
    let tracker = DiffTracker::new(12);
    assert!(tracker.format_for_reflect().is_empty());
}
