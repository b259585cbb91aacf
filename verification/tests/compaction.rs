use exoskeleton_host::compaction::{
    compaction_result, group_consecutive, merge_summaries, plan_compaction, should_compact,
    sort_by_start, start_compaction, CompactionConfig, CompactionRequest, CompactionResult,
    EpisodicSummary,
};
use exoskeleton_host::types::{ArtifactId, ExoError};

fn make_summary(start: u64, end: u64, text: &str) -> EpisodicSummary {
    EpisodicSummary {
        id: ArtifactId { digest: format!("{start}-{end}") },
        start_tick: start,
        end_tick: end,
        summary: text.to_string(),
        key_events: vec![format!("event in ticks {start}-{end}")],
    }
}

#[test]
fn should_compact_when_sections_truncated() {
    let truncated = vec!["episodic_memory".to_string()];
    assert!(should_compact(&truncated, 10, Some(100)));
}

#[test]
fn should_compact_at_80_percent_capacity() {
    let truncated: Vec<String> = vec![];
    assert!(should_compact(&truncated, 85, Some(100)));
}

#[test]
fn should_not_compact_when_healthy() {
    let truncated: Vec<String> = vec![];
    assert!(!should_compact(&truncated, 50, Some(100)));
}

#[test]
fn should_not_compact_without_capacity() {
    let truncated: Vec<String> = vec![];
    assert!(!should_compact(&truncated, 100, None));
}

#[test]
fn compaction_starts_above_four_fifths() {
    let truncated: Vec<String> = vec![];
    assert!(!should_compact(&truncated, 80, Some(100)));
    assert!(should_compact(&truncated, 81, Some(100)));
    assert!(!should_compact(&truncated, 5, Some(0)));
    assert!(should_compact(&truncated, u64::MAX, Some(u64::MAX)));
}

#[test]
fn merge_adjacent_summaries() {
    let summaries = vec![
        make_summary(1, 3, "Explored codebase"),
        make_summary(4, 6, "Edited parser module"),
        make_summary(7, 9, "Ran tests and fixed failures"),
    ];
    let merged = merge_summaries(&summaries);
    assert_eq!(merged.start_tick, 1);
    assert_eq!(merged.end_tick, 9);
    assert!(merged.summary.contains("Explored codebase"));
    assert!(merged.summary.contains("Edited parser module"));
    assert!(merged.summary.contains("Ran tests"));
    assert_eq!(merged.key_events.len(), 3);
}

#[test]
fn merged_events_are_distinct_and_few() {
    let mut a = make_summary(1, 2, "a");
    a.key_events = (0..8).map(|i| format!("e{i}")).collect();
    let mut b = make_summary(3, 4, "b");
    b.key_events = (4..20).map(|i| format!("e{i}")).collect();
    let merged = merge_summaries(&vec![a, b]);
    assert_eq!(merged.key_events, (0..10).map(|i| format!("e{i}")).collect::<Vec<_>>());
}

#[test]
fn long_headlines_are_shortened() {
    let long = "x".repeat(101);
    let merged = merge_summaries(&vec![make_summary(1, 2, &long), make_summary(3, 4, "b\nsecond line")]);
    assert!(merged.summary.contains(&format!("{}...", "x".repeat(97))));
    assert!(!merged.summary.contains(&"x".repeat(98)));
    assert!(!merged.summary.contains("second line"));
}

#[test]
fn group_consecutive_summaries() {
    let summaries = vec![
        make_summary(1, 3, "first"),
        make_summary(4, 6, "second"),
        make_summary(10, 12, "third"),
        make_summary(13, 15, "fourth"),
    ];
    let groups = group_consecutive(summaries);
    assert_eq!(groups.len(), 2);
    assert_eq!(groups[0].len(), 2);
    assert_eq!(groups[1].len(), 2);
}

#[test]
fn group_single_items_not_grouped() {
    let summaries = vec![
        make_summary(1, 3, "first"),
        make_summary(10, 12, "second"),
        make_summary(20, 22, "third"),
    ];
    let groups = group_consecutive(summaries);
    assert_eq!(groups.len(), 3);
}

#[test]
fn groups_keep_every_summary_in_order() {
    let groups = group_consecutive(vec![
        make_summary(1, 3, "a"),
        make_summary(5, 6, "b"),
        make_summary(9, 9, "c"),
    ]);
    let all: Vec<u64> = groups.iter().flatten().map(|s| s.start_tick).collect();
    assert_eq!(all, vec![1, 5, 9]);
    assert!(group_consecutive(vec![]).is_empty());
}

#[test]
fn sorting_is_stable() {
    let sorted = sort_by_start(vec![
        make_summary(5, 6, "b"),
        make_summary(1, 2, "first"),
        make_summary(1, 3, "second"),
    ]);
    let texts: Vec<&str> = sorted.iter().map(|s| s.summary.as_str()).collect();
    assert_eq!(texts, vec!["first", "second", "b"]);
}

#[test]
fn compact_preserves_recent() {
    // The newest summary comes first.
    let all: Vec<EpisodicSummary> = (0..6u64)
        .rev()
        .map(|i| make_summary(i * 3 + 1, i * 3 + 3, &format!("session {i}")))
        .collect();
    assert_eq!(all.len(), 6);
    let merges = plan_compaction(all, &CompactionConfig { preserve_recent: 3 });
    let result = compaction_result(&merges);
    assert!(matches!(result, CompactionResult::Compacted { .. }));
    assert_eq!(
        result,
        CompactionResult::Compacted { entries_merged: 3, summaries_written: 1 }
    );
    let deleted: usize = merges.iter().map(|m| m.originals.len()).sum();
    assert_eq!(6 - deleted + merges.len(), 4);
    assert_eq!((merges[0].merged.start_tick, merges[0].merged.end_tick), (1, 9));
}

#[test]
fn compact_no_action_when_few_entries() {
    let merges = plan_compaction(
        vec![make_summary(1, 3, "only one")],
        &CompactionConfig { preserve_recent: 3 },
    );
    assert!(matches!(compaction_result(&merges), CompactionResult::NoAction));
    assert_eq!(CompactionConfig::default().preserve_recent, 3);
}

#[test]
fn large_capacities_are_compared_as_floats() {
    let full: Vec<String> = vec![];
    let counts = [
        400_000_000_000_000_000u64,
        400_000_000_000_000_001,
        400_000_000_000_000_100,
        9_007_199_254_740_993,
        u64::MAX,
    ];
    let capacities =
        [500_000_000_000_000_000u64, 11_258_999_068_426_241, 11_258_999_068_426_242, u64::MAX];
    for count in counts {
        for capacity in capacities {
            let wanted = count as f64 / capacity as f64 > 0.8;
            assert_eq!(should_compact(&full, count, Some(capacity)), wanted, "{count} {capacity}");
        }
    }
    assert!(!should_compact(&full, 400_000_000_000_000_001, Some(500_000_000_000_000_000)));
}

fn six() -> Vec<EpisodicSummary> {
    (0..6u64).rev().map(|i| make_summary(i * 3 + 1, i * 3 + 3, &format!("session {i}"))).collect()
}

#[test]
fn merged_summaries_are_written_first() {
    let merges = plan_compaction(six(), &CompactionConfig { preserve_recent: 4 });
    let (mut run, mut request) = start_compaction(merges);
    let mut seen = Vec::new();
    let result = loop {
        match request {
            CompactionRequest::Write { merge } => seen.push(format!("write {merge}")),
            CompactionRequest::Delete { merge, original } => {
                seen.push(run.merges[merge].originals[original].id.digest.clone())
            }
            CompactionRequest::Finish(result) => break result,
            CompactionRequest::Fail(e) => panic!("{e:?}"),
        }
        request = run.step(Ok(()));
    };
    assert_eq!(seen, vec!["write 0", "1-3", "4-6"]);
    assert_eq!(result, CompactionResult::Compacted { entries_merged: 2, summaries_written: 1 });
}

#[test]
fn a_failed_write_deletes_nothing() {
    let merges = plan_compaction(six(), &CompactionConfig { preserve_recent: 3 });
    let (mut run, request) = start_compaction(merges);
    assert!(matches!(request, CompactionRequest::Write { merge: 0 }));
    let request = run.step(Err(ExoError::Engine("full".into())));
    assert!(matches!(request, CompactionRequest::Fail(ExoError::Engine(m)) if m == "full"));
    let (_, request) = start_compaction(vec![]);
    assert!(matches!(request, CompactionRequest::Finish(CompactionResult::NoAction)));
}
