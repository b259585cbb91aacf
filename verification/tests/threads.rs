use exoskeleton_host::amend::ThreadSchedule;
use exoskeleton_host::llm::{collect_text, LlmBackend};
use exoskeleton_host::threads::{
    find_thread_by_name, gets_preamble, harvest_threads, in_grace_period,
    is_bootstrap_sensitive_thread, process_meta_cognition_output, runnable_threads, thread_output,
    thread_request, BuiltinThreads, CharterDraft, ThreadPriority, ThreadRun, ThreadSpec,
};
use exoskeleton_host::types::{ArtifactId, ExoError, ThreadId, TickId};

fn test_thread(name: &str, raw: u128) -> ThreadSpec {
    ThreadSpec {
        thread_id: ThreadId { raw },
        name: name.into(),
        charter: "Monitor for threats".into(),
        priority: ThreadPriority::Normal,
        token_budget: 4000,
        schedule: ThreadSchedule::EveryTick,
    }
}

fn builtin() -> BuiltinThreads {
    BuiltinThreads {
        threat_monitor: ThreadId { raw: 101 },
        self_critique: ThreadId { raw: 102 },
        meta_cognition: ThreadId { raw: 103 },
    }
}

fn output(text: &str) -> exoskeleton_host::threads::ThreadOutput {
    thread_output(ThreadId { raw: 1 }, TickId { raw: 2 }, ArtifactId { digest: "a".into() }, text)
}

#[test]
fn execute_produces_thread_output() {
    let o = output(r#"{"summary":"ok","recommendations":["do x"]}"#);
    assert_eq!(o.summary, "ok");
    assert_eq!(o.recommendations, vec!["do x"]);
    assert_eq!(o.thread_id, ThreadId { raw: 1 });
    assert_eq!(o.tick_id, TickId { raw: 2 });
}

#[test]
fn execute_fallback_on_invalid_json() {
    let o = output("not json lol");
    assert_eq!(o.summary, "not json lol");
    assert!(o.recommendations.is_empty());
    let o = output(r#"{"recommendations":["x"]}"#);
    assert_eq!(o.summary, r#"{"recommendations":["x"]}"#);
}

#[test]
fn execute_respects_cancellation() {
    let r = thread_request(&test_thread("CancelTest", 1), "p".into(), &None, LlmBackend::Local, true);
    assert_eq!(r.unwrap_err(), ExoError::Engine("thread execution cancelled".into()));
}

#[test]
fn execute_respects_token_budget() {
    let mut thread = test_thread("BudgetCheck", 1);
    thread.token_budget = 8000;
    let req = thread_request(&thread, "p".into(), &None, LlmBackend::Local, false).unwrap();
    assert_eq!(req.max_output_tokens, 2000);
    assert_eq!(req.system_prompt.as_deref(), Some("p"));
    assert_eq!(
        collect_text(&req.messages[0].content),
        "Analyze the current situation per your charter. Respond with JSON."
    );
    let req =
        thread_request(&thread, "p".into(), &Some("own".into()), LlmBackend::Frontier, false).unwrap();
    assert_eq!(collect_text(&req.messages[0].content), "own");
    assert_eq!(req.backend, Some(LlmBackend::Frontier));
}

fn run(name: &str, raw: u128, result: Result<&str, &str>) -> ThreadRun {
    ThreadRun {
        name: name.into(),
        thread_id: ThreadId { raw },
        result: match result {
            Ok(summary) => Ok(thread_output(
                ThreadId { raw },
                TickId { raw: 9 },
                ArtifactId { digest: name.into() },
                summary,
            )),
            Err(e) => Err(e.into()),
        },
    }
}

#[test]
fn all_threads_produce_outputs() {
    let runs =
        vec![run("Thread-A", 1, Ok("a")), run("Thread-B", 2, Ok("b")), run("Thread-C", 3, Ok("c"))];
    let h = harvest_threads(&runs, &builtin());
    assert_eq!(h.contributions.len(), 3, "all 3 threads should produce output");
    let order: Vec<&str> = h.contributions.iter().map(|c| c.summary.as_str()).collect();
    assert_eq!(order, vec!["a", "b", "c"]);
    assert_eq!(h.notes[0].event, "Thread 'Thread-A' produced: a");
    assert_eq!(h.notes[0].announcement.as_deref(), Some("Thread 'Thread-A' completed"));
}

#[test]
fn one_failure_does_not_block_others() {
    let runs = vec![run("A", 1, Ok("a")), run("B", 2, Err("boom")), run("C", 103, Ok("c"))];
    let h = harvest_threads(&runs, &builtin());
    assert_eq!(h.contributions.len(), 2);
    assert_eq!(h.notes[1].event, "Thread 'B' failed: boom");
    assert!(!h.notes[1].completed);
    assert!(h.notes[2].meta_cognition);
    assert!(!h.notes[0].meta_cognition);
}

#[test]
fn threads_beyond_the_budget_are_skipped() {
    let due = vec![test_thread("a", 1), test_thread("b", 2), test_thread("c", 3)];
    let run = runnable_threads(due, &vec![true, false, true]);
    let names: Vec<&str> = run.iter().map(|t| t.name.as_str()).collect();
    assert_eq!(names, vec!["a", "c"]);
}

#[test]
fn meta_cognition_proposes_charter() {
    let draft = |name: &str| CharterDraft {
        thread_name: name.into(),
        current_charter: "old".into(),
        proposed_charter: "new".into(),
        rationale: "r".repeat(100),
    };
    let threads = vec![test_thread("SelfCritique", 5)];
    let proposals = process_meta_cognition_output(
        &vec![draft("Unknown"), draft("SelfCritique")],
        &vec!["pattern".into()],
        &threads,
        12,
    );
    assert_eq!(proposals.len(), 1);
    let p = &proposals[0];
    assert_eq!(p.proposal.thread_id, ThreadId { raw: 5 });
    assert_eq!(p.proposal.proposed_charter, "new");
    assert_eq!(p.proposal.proposed_at_tick, 12);
    assert_eq!(p.proposal.detected_patterns, vec!["pattern".to_string()]);
    assert!(p.summary.starts_with("Charter proposal for 'SelfCritique': rrr"));
    assert_eq!(find_thread_by_name(&threads, "none"), None);
}

#[test]
fn new_vessels_are_judged_gently() {
    assert!(in_grace_period(5, 4));
    assert!(!in_grace_period(5, 5));
    assert!(!in_grace_period(0, 0));
    assert!(is_bootstrap_sensitive_thread(ThreadId { raw: 101 }, &builtin()));
    assert!(gets_preamble(ThreadId { raw: 102 }, &builtin(), 5, 1));
    assert!(!gets_preamble(ThreadId { raw: 103 }, &builtin(), 5, 1));
    assert!(!gets_preamble(ThreadId { raw: 102 }, &builtin(), 5, 9));
}
