use exoskeleton_host::context_window::format_windowed_results;
use exoskeleton_host::json::parse_json;
use exoskeleton_host::types::{
    ActionExecution, ActionOutcome, ActionRecord, ContentBlock, PlannedAction,
};

fn execution(tool: &str, params: &str, result: Result<&str, &str>) -> ActionExecution {
    let success = result.is_ok();
    ActionExecution {
        action: PlannedAction {
            call_id: format!("call_{tool}"),
            tool_name: tool.into(),
            params: parse_json(params).unwrap(),
            rationale: "test".into(),
            plan_task_id: None,
            origin_exec_thread_id: None,
            proposal_id: None,
        },
        result: match result {
            Ok(text) => Ok(parse_json(text).unwrap()),
            Err(err) => Err(err.to_string()),
        },
        record: ActionRecord {
            action_type: tool.into(),
            target: "test-target".into(),
            receipt_ref: None,
            outcome: if success { ActionOutcome::Success } else { ActionOutcome::Failure },
            origin_exec_thread_id: None,
            proposal_id: None,
        },
        tool_result: ContentBlock::ToolResult {
            tool_use_id: format!("call_{tool}"),
            content: "{}".into(),
            is_error: !success,
        },
        pending_question: false,
        code_diff: None,
    }
}

#[test]
fn format_windowed_results_summarizes_older_steps() {
    let executions = vec![
        execution(
            "code.read",
            r#"{"file_path": "src/main.rs"}"#,
            Ok(r#"{"start_line": 1, "end_line": 50, "total_lines": 120}"#),
        ),
        execution(
            "code.grep",
            r#"{"pattern": "fn parse"}"#,
            Ok(r#"{"total_matches": 4, "files_searched": 2}"#),
        ),
        execution(
            "code.edit",
            r#"{"file_path": "src/lib.rs"}"#,
            Ok(r#"{"file_path": "src/lib.rs", "diff": {"lines_added": 3, "lines_removed": 1}}"#),
        ),
        execution("shell.exec", r#"{"command": "cargo test"}"#, Err("tests failed")),
    ];

    let formatted = format_windowed_results(&executions, 2).unwrap();
    assert!(formatted.contains("### Earlier Steps"));
    assert!(formatted.contains("Step 1: code.read src/main.rs:1-50 -> 50 lines (success)"));
    assert!(formatted.contains("Step 2: code.grep 'fn parse' -> 4 matches in 2 files (success)"));
    assert!(formatted.contains("### Step 3: code.edit [SUCCESS]"));
    assert!(formatted.contains("### Step 4: shell.exec [FAILED]"));
}

#[test]
fn format_windowed_results_truncates_full_output() {
    let long = "x".repeat(2500);
    let executions =
        vec![execution("code.read", "{}", Ok(&format!(r#"{{"content": "{long}"}}"#)))];
    let formatted = format_windowed_results(&executions, 3).unwrap();
    assert!(formatted.contains("Output: "));
    assert!(formatted.contains("..."));
}

#[test]
fn format_windowed_results_empty() {
    assert_eq!(format_windowed_results(&vec![], 3).unwrap(), "No tool results yet.");
}

#[test]
fn format_windowed_results_all_within_window_shows_full_output_only() {
    let executions = vec![
        execution(
            "code.read",
            r#"{"file_path": "src/main.rs"}"#,
            Ok(r#"{"content": "line 1", "start_line": 1, "end_line": 1, "total_lines": 10}"#),
        ),
        execution(
            "code.grep",
            r#"{"pattern": "main"}"#,
            Ok(r#"{"content": "src/main.rs:1:fn main()", "total_matches": 1, "files_searched": 1}"#),
        ),
    ];

    let formatted = format_windowed_results(&executions, 3).unwrap();

    assert!(!formatted.contains("### Earlier Steps"));
    assert!(formatted.contains("### Step 1: code.read [SUCCESS]"));
    assert!(formatted.contains("### Step 2: code.grep [SUCCESS]"));
    assert!(formatted.contains("\"content\":\"line 1\""));
    assert!(formatted.contains("\"content\":\"src/main.rs:1:fn main()\""));
}

#[test]
fn outputs_that_would_split_a_character_are_not_shown() {
    // The cut would fall into the middle of a character of two bytes.
    let long = format!("{}{}", "x".repeat(1984), "é".repeat(100));
    let executions =
        vec![execution("code.read", "{}", Ok(&format!(r#"{{"content": "{long}"}}"#)))];
    assert!(format_windowed_results(&executions, 3).is_none());
    let shifted = format!("{}{}", "x".repeat(1985), "é".repeat(100));
    let executions =
        vec![execution("code.read", "{}", Ok(&format!(r#"{{"content": "{shifted}"}}"#)))];
    assert!(format_windowed_results(&executions, 3).is_some());
}
