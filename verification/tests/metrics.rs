use exoskeleton_host::metrics::{
    counters, durations, level, refused, render_outcome, ExoMetrics,
};
use exoskeleton_host::types::ExoError;

#[test]
fn new_succeeds_and_all_metrics_registered() {
    let m = ExoMetrics::new().unwrap();
    m.ticks_total.family.with_label_values(&["completed"]).inc();
    m.tick_duration_seconds.family.with_label_values(&["completed"]).observe(0.0);
    m.llm_calls_total.family.with_label_values(&["local"]).inc();
    m.llm_tokens_total.family.with_label_values(&["local", "input"]).inc();
    m.llm_cost_cents_total.family.with_label_values(&["local"]).inc();
    m.llm_latency_seconds.family.with_label_values(&["local"]).observe(0.0);
    m.thread_runs_total.family.with_label_values(&["test", "completed"]).inc();
    m.actions_total.family.with_label_values(&["delay", "success"]).inc();
    m.budget_remaining.family.with_label_values(&["local_tokens"]).set(0.0);
    m.relationship_entries_total.gauge.set(0);
    m.artifacts_total.family.with_label_values(&["snapshot"]).inc();
    m.current_tick_number.gauge.set(0);
    m.uptime_seconds.gauge.set(0.0);
    m.tool_active_flows.gauge.set(0);

    let families = m.registry.gather();
    assert!(
        families.len() >= 14,
        "expected >= 14 metric families, got {}",
        families.len()
    );
}

#[test]
fn counter_increment_and_read_back() {
    let m = ExoMetrics::new().unwrap();
    m.ticks_total.family.with_label_values(&["completed"]).inc();
    m.ticks_total.family.with_label_values(&["completed"]).inc();
    m.ticks_total.family.with_label_values(&["failed"]).inc();

    assert_eq!(m.ticks_total.family.with_label_values(&["completed"]).get(), 2);
    assert_eq!(m.ticks_total.family.with_label_values(&["failed"]).get(), 1);
    assert_eq!(m.ticks_total.family.with_label_values(&["suspended"]).get(), 0);
}

#[test]
fn histogram_observation_and_render() {
    let m = ExoMetrics::new().unwrap();
    m.tick_duration_seconds.family.with_label_values(&["completed"]).observe(1.5);
    m.tick_duration_seconds.family.with_label_values(&["completed"]).observe(0.3);

    let rendered = m.render().unwrap();
    assert!(
        rendered.contains("exo_tick_duration_seconds"),
        "rendered metrics should contain tick_duration_seconds"
    );
    assert!(rendered.contains(r#"le="0.1"} 0"#));
    assert!(rendered.contains(r#"le="0.5"} 1"#));
    assert!(rendered.contains(r#"le="2"} 2"#));
    assert!(rendered.contains(r#"le="120"} 2"#));
    assert!(!rendered.contains(r#"le="300"}"#));
}

#[test]
fn label_value_combinations_work() {
    let m = ExoMetrics::new().unwrap();
    m.llm_tokens_total.family.with_label_values(&["local", "input"]).inc_by(100);
    m.llm_tokens_total.family.with_label_values(&["local", "output"]).inc_by(50);
    m.llm_tokens_total.family.with_label_values(&["frontier", "input"]).inc_by(200);

    assert_eq!(m.llm_tokens_total.family.with_label_values(&["local", "input"]).get(), 100);
    assert_eq!(m.llm_tokens_total.family.with_label_values(&["local", "output"]).get(), 50);
    assert_eq!(m.llm_tokens_total.family.with_label_values(&["frontier", "input"]).get(), 200);
}

#[test]
fn two_registries_dont_interfere() {
    let m1 = ExoMetrics::new().unwrap();
    let m2 = ExoMetrics::new().unwrap();

    m1.ticks_total.family.with_label_values(&["completed"]).inc();
    m1.ticks_total.family.with_label_values(&["completed"]).inc();

    assert_eq!(m2.ticks_total.family.with_label_values(&["completed"]).get(), 0);
    assert_eq!(m1.ticks_total.family.with_label_values(&["completed"]).get(), 2);
}

#[test]
fn render_produces_valid_prometheus_text() {
    let m = ExoMetrics::new().unwrap();
    m.ticks_total.family.with_label_values(&["completed"]).inc();
    m.current_tick_number.gauge.set(42);

    let rendered = m.render().unwrap();
    assert!(rendered.contains("exo_ticks_total"));
    assert!(rendered.contains("exo_current_tick_number"));
    assert!(rendered.contains("42"));
}

#[test]
fn zero_value_metrics_render_correctly() {
    let m = ExoMetrics::new().unwrap();
    let rendered = m.render().unwrap();
    assert!(!rendered.contains("NaN"), "zero-value render should not contain NaN");
}

#[test]
fn gauge_set_and_read() {
    let m = ExoMetrics::new().unwrap();
    m.budget_remaining.family.with_label_values(&["local_tokens"]).set(1000.0);
    m.budget_remaining.family.with_label_values(&["frontier_tokens"]).set(500.0);

    assert_eq!(m.budget_remaining.family.with_label_values(&["local_tokens"]).get(), 1000.0);
    assert_eq!(m.budget_remaining.family.with_label_values(&["frontier_tokens"]).get(), 500.0);
}

fn message(e: ExoError) -> String {
    match e {
        ExoError::Config(m) => m,
        other => panic!("expected Config, got {other:?}"),
    }
}

#[test]
fn bad_metrics_are_refused() {
    let labels = |l: &[&str]| l.iter().map(|s| s.to_string()).collect::<Vec<_>>();
    assert_eq!(
        message(counters("f", "n", "", labels(&[])).err().unwrap()),
        "metrics: f: Error: empty help string"
    );
    assert_eq!(
        message(counters("f", "9n", "h", labels(&[])).err().unwrap()),
        "metrics: f: Error: '9n' is not a valid metric name"
    );
    assert_eq!(
        message(counters("f", "n", "h", labels(&["a:b"])).err().unwrap()),
        "metrics: f: Error: 'a:b' is not a valid label name"
    );
    assert_eq!(
        message(counters("f", "n", "h", labels(&["a", "a"])).err().unwrap()),
        "metrics: f: Error: duplicate variable label name a"
    );
    assert_eq!(
        message(level("f", "", "h").err().unwrap()),
        "metrics: f: Error: '' is not a valid metric name"
    );
    assert_eq!(
        message(durations("f", "a b", "h", vec![], vec![1, 25]).err().unwrap()),
        "metrics: f: Error: 'a b' is not a valid metric name"
    );
    assert!(counters("f", "a:b_9", "h", labels(&["x", "y"])).is_ok());
    assert_eq!(message(refused("f", "e")), "metrics: f: e");
}

#[test]
fn rendering_may_fail() {
    assert_eq!(render_outcome(Ok("text".into())).unwrap(), "text");
    assert_eq!(message(render_outcome(Err("e".into())).unwrap_err()), "metrics render: e");
}

#[test]
fn lone_gauges_are_always_shown() {
    let m = ExoMetrics::new().unwrap();
    m.tool_active_flows.gauge.set(7);
    let text = m.render().unwrap();
    assert!(text.contains(
        "# TYPE exo_relationship_entries_total gauge\nexo_relationship_entries_total 0\n"
    ));
    assert!(text.contains("# TYPE exo_current_tick_number gauge\nexo_current_tick_number 0\n"));
    assert!(text.contains("# TYPE exo_uptime_seconds gauge\nexo_uptime_seconds 0\n"));
    assert!(text.contains("# TYPE exo_tool_active_flows gauge\nexo_tool_active_flows 7\n"));
}

#[test]
fn every_metric_shows_what_it_counts() {
    let m = ExoMetrics::new().unwrap();
    m.ticks_total.family.with_label_values(&["completed"]).inc_by(11);
    m.tick_duration_seconds.family.with_label_values(&["completed"]).observe(0.3);
    m.llm_calls_total.family.with_label_values(&["local"]).inc_by(12);
    m.llm_tokens_total.family.with_label_values(&["local", "input"]).inc_by(13);
    m.llm_cost_cents_total.family.with_label_values(&["local"]).inc_by(14.0);
    m.llm_latency_seconds.family.with_label_values(&["local"]).observe(2.0);
    m.thread_runs_total.family.with_label_values(&["t", "completed"]).inc_by(15);
    m.actions_total.family.with_label_values(&["delay", "success"]).inc_by(16);
    m.budget_remaining.family.with_label_values(&["local_tokens"]).set(17.0);
    m.relationship_entries_total.gauge.set(18);
    m.artifacts_total.family.with_label_values(&["snapshot"]).inc_by(19);
    m.current_tick_number.gauge.set(20);
    m.uptime_seconds.gauge.set(21.0);
    m.tool_active_flows.gauge.set(22);
    let text = m.render().unwrap();
    for line in [
        "exo_ticks_total{outcome=\"completed\"} 11\n",
        "exo_tick_duration_seconds_count{outcome=\"completed\"} 1\n",
        "exo_llm_calls_total{backend=\"local\"} 12\n",
        "exo_llm_tokens_total{backend=\"local\",direction=\"input\"} 13\n",
        "exo_llm_cost_cents_total{backend=\"local\"} 14\n",
        "exo_llm_latency_seconds_sum{backend=\"local\"} 2\n",
        "exo_thread_runs_total{outcome=\"completed\",thread_name=\"t\"} 15\n",
        "exo_actions_total{connector=\"delay\",outcome=\"success\"} 16\n",
        "exo_budget_remaining{dimension=\"local_tokens\"} 17\n",
        "exo_relationship_entries_total 18\n",
        "exo_artifacts_total{kind=\"snapshot\"} 19\n",
        "exo_current_tick_number 20\n",
        "exo_uptime_seconds 21\n",
        "exo_tool_active_flows 22\n",
    ] {
        assert!(text.contains(line), "{line} is missing in:\n{text}");
    }
}
