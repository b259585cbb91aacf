//! The metrics of a vessel.
//!
//! Each vessel has a registry of its own, so that vessels do not get in each other's
//! way. The metrics are made and kept by the `prometheus` crate.

use vstd::prelude::*;
use vstd::string::*;

use crate::metric_ids::{descriptor_id, last_bytes};
use crate::text::{dec, dec_u64, has_text, texts};
use crate::types::ExoError;

verus! {

// ---------------------------------------------------------------------------
// Metrics of the outside crate
// ---------------------------------------------------------------------------

/// The kinds of metrics.
pub enum Kind {
    /// A family of counters.
    Counters,
    /// A family of histograms.
    Histograms,
    /// A family of gauges.
    Gauges,
    /// A gauge that stands alone.
    Gauge,
}

/// What a metric was made with.
pub struct Shape {
    pub kind: Kind,
    pub name: Seq<char>,
    pub help: Seq<char>,
    pub labels: Seq<Seq<char>>,
    /// The upper bounds of the buckets, as decimal numbers. Only histograms have any.
    pub buckets: Seq<Seq<char>>,
}

/// `prometheus::Registry`, which holds the metrics that are rendered.
#[verifier::external_type_specification]
#[verifier::external_body]
pub struct ExRegistry(prometheus::Registry);

/// A family of counters: `prometheus::IntCounterVec`, whose type cannot be declared
/// because the type of its builder has no public path.
#[verifier::external_body]
pub struct Counters {
    pub family: prometheus::IntCounterVec,
}

/// A family of amounts that only grow: `prometheus::CounterVec`.
#[verifier::external_body]
pub struct Amounts {
    pub family: prometheus::CounterVec,
}

/// A family of histograms: `prometheus::HistogramVec`.
#[verifier::external_body]
pub struct Durations {
    pub family: prometheus::HistogramVec,
}

/// A family of gauges: `prometheus::GaugeVec`.
#[verifier::external_body]
pub struct Gauges {
    pub family: prometheus::GaugeVec,
}

/// A gauge for whole numbers: `prometheus::IntGauge`.
#[verifier::external_body]
pub struct Level {
    pub gauge: prometheus::IntGauge,
}

/// A gauge: `prometheus::Gauge`.
#[verifier::external_body]
pub struct Reading {
    pub gauge: prometheus::Gauge,
}

/// What a family of counters was made with.
pub uninterp spec fn counters_shape(m: Counters) -> Shape;

/// What a family of amounts was made with.
pub uninterp spec fn amounts_shape(m: Amounts) -> Shape;

/// What a family of histograms was made with.
pub uninterp spec fn durations_shape(m: Durations) -> Shape;

/// What a family of gauges was made with.
pub uninterp spec fn gauges_shape(m: Gauges) -> Shape;

/// What a gauge for whole numbers was made with.
pub uninterp spec fn level_shape(m: Level) -> Shape;

/// What a gauge was made with.
pub uninterp spec fn reading_shape(m: Reading) -> Shape;

/// A metric of any kind.
pub enum Family {
    Counters(Counters),
    Amounts(Amounts),
    Durations(Durations),
    Gauges(Gauges),
    Level(Level),
    Reading(Reading),
}

/// What a metric was made with.
pub open spec fn shape_of(m: Family) -> Shape {
    match m {
        Family::Counters(m) => counters_shape(m),
        Family::Amounts(m) => amounts_shape(m),
        Family::Durations(m) => durations_shape(m),
        Family::Gauges(m) => gauges_shape(m),
        Family::Level(m) => level_shape(m),
        Family::Reading(m) => reading_shape(m),
    }
}

/// What metrics were made with.
pub open spec fn shapes_of(metrics: Seq<Family>) -> Seq<Shape> {
    Seq::new(metrics.len(), |i: int| shape_of(metrics[i]))
}

/// The metrics in a registry, in the order in which they came in. What is counted on one
/// of them shows when the registry is rendered. There is such a list only of a registry
/// that was made empty, without a prefix and common labels, and to which nothing was
/// added but these metrics, each made by a function of this module. None of them was
/// ever taken out again.
pub uninterp spec fn registered(r: prometheus::Registry) -> Option<Seq<Family>>;

/// The texts as which a registry may be rendered, whatever its metrics have counted by
/// that time.
pub uninterp spec fn renderings(r: prometheus::Registry) -> Set<Seq<char>>;

/// A metric in the list has this number.
pub open spec fn holds_id(held: Seq<Family>, id: u64) -> bool {
    exists|i: int| 0 <= i < held.len() && descriptor_id(shape_of(#[trigger] held[i]).name) == id
}

/// The line that announces a gauge that stands alone, and the beginning of the line with
/// its value.
pub open spec fn gauge_lines(name: Seq<char>) -> Seq<char> {
    "# TYPE "@ + name + " gauge\n"@ + name + " "@
}

/// A letter or an underscore, or else a colon where one is allowed.
pub open spec fn is_word_char(c: char, colon: bool) -> bool {
    ('a' <= c && c <= 'z') || ('A' <= c && c <= 'Z') || c == '_' || (colon && c == ':')
}

/// From `i` on there are only word characters and digits.
pub open spec fn is_word_from(s: Seq<char>, i: int, colon: bool) -> bool
    decreases s.len() - i,
{
    if i < 0 || i >= s.len() {
        true
    } else {
        (is_word_char(s[i], colon) || ('0' <= s[i] && s[i] <= '9')) && is_word_from(
            s,
            i + 1,
            colon,
        )
    }
}

/// A name: a word character, then word characters and digits.
pub open spec fn is_word(s: Seq<char>, colon: bool) -> bool {
    s.len() > 0 && is_word_char(s[0], colon) && is_word_from(s, 1, colon)
}

/// Why a list of labels is refused from `i` on, if it is: a label is no name, or stands
/// there twice.
pub open spec fn labels_refusal(labels: Seq<Seq<char>>, i: int) -> Option<Seq<char>>
    decreases labels.len() - i,
{
    if i < 0 || i >= labels.len() {
        None
    } else if !is_word(labels[i], false) {
        Some("Error: '"@ + labels[i] + "' is not a valid label name"@)
    } else if labels.subrange(0, i).contains(labels[i]) {
        Some("Error: duplicate variable label name "@ + labels[i])
    } else {
        labels_refusal(labels, i + 1)
    }
}

/// Why a metric is refused, if it is.
pub open spec fn refusal(s: Shape) -> Option<Seq<char>> {
    if s.help.len() == 0 {
        Some("Error: empty help string"@)
    } else if !is_word(s.name, true) {
        Some("Error: '"@ + s.name + "' is not a valid metric name"@)
    } else {
        labels_refusal(s.labels, 0)
    }
}

/// The shape of a metric without buckets.
pub open spec fn plain(kind: Kind, name: Seq<char>, help: Seq<char>, labels: Seq<Seq<char>>) -> Shape {
    Shape { kind, name, help, labels, buckets: Seq::empty() }
}

/// A number of tenths as a decimal number.
pub open spec fn tenths(n: nat) -> Seq<char> {
    dec(n / 10) + "."@ + dec(n % 10)
}

/// A text is a decimal number.
pub open spec fn is_decimal(t: Seq<char>) -> bool {
    exists|n: nat| t == #[trigger] tenths(n)
}

/// Calls `prometheus::IntCounterVec::new` with a name, a help text and labels.
///
/// It fails exactly if the help text is empty, the name or a label is not a valid one,
/// or a label stands there twice, and says which. Otherwise the family has what it was
/// made with.
#[verifier::external_body]
fn new_counters(name: &str, help: &str, labels: &Vec<String>) -> (r: Result<Counters, String>)
    ensures
        match (refusal(plain(Kind::Counters, name@, help@, texts(labels@))), r) {
            (Some(t), Err(e)) => e@ == t,
            (None, Ok(m)) => counters_shape(m) == plain(Kind::Counters, name@, help@, texts(labels@)),
            _ => false,
        },
{
    let labels: Vec<&str> = labels.iter().map(|l| l.as_str()).collect();
    match prometheus::IntCounterVec::new(prometheus::Opts::new(name, help), &labels) {
        Ok(family) => Ok(Counters { family }),
        Err(e) => Err(e.to_string()),
    }
}

/// Calls `prometheus::CounterVec::new` with a name, a help text and labels.
///
/// It fails exactly if the help text is empty, the name or a label is not a valid one,
/// or a label stands there twice, and says which. Otherwise the family has what it was
/// made with.
#[verifier::external_body]
fn new_amounts(name: &str, help: &str, labels: &Vec<String>) -> (r: Result<Amounts, String>)
    ensures
        match (refusal(plain(Kind::Counters, name@, help@, texts(labels@))), r) {
            (Some(t), Err(e)) => e@ == t,
            (None, Ok(m)) => amounts_shape(m) == plain(Kind::Counters, name@, help@, texts(labels@)),
            _ => false,
        },
{
    let labels: Vec<&str> = labels.iter().map(|l| l.as_str()).collect();
    match prometheus::CounterVec::new(prometheus::Opts::new(name, help), &labels) {
        Ok(family) => Ok(Amounts { family }),
        Err(e) => Err(e.to_string()),
    }
}

/// Calls `prometheus::GaugeVec::new` with a name, a help text and labels.
///
/// It fails exactly if the help text is empty, the name or a label is not a valid one,
/// or a label stands there twice, and says which. Otherwise the family has what it was
/// made with.
#[verifier::external_body]
fn new_gauges(name: &str, help: &str, labels: &Vec<String>) -> (r: Result<Gauges, String>)
    ensures
        match (refusal(plain(Kind::Gauges, name@, help@, texts(labels@))), r) {
            (Some(t), Err(e)) => e@ == t,
            (None, Ok(m)) => gauges_shape(m) == plain(Kind::Gauges, name@, help@, texts(labels@)),
            _ => false,
        },
{
    let labels: Vec<&str> = labels.iter().map(|l| l.as_str()).collect();
    match prometheus::GaugeVec::new(prometheus::Opts::new(name, help), &labels) {
        Ok(family) => Ok(Gauges { family }),
        Err(e) => Err(e.to_string()),
    }
}

/// Calls `prometheus::HistogramVec::new` with a name, a help text, the bounds of the
/// buckets and labels.
///
/// It fails exactly if the help text is empty, the name or a label is not a valid one,
/// or a label stands there twice, and says which. The bounds are not looked at.
/// Otherwise the family has what it was made with.
#[verifier::external_body]
fn new_durations(name: &str, help: &str, labels: &Vec<String>, bounds: &Vec<String>) -> (r: Result<
    Durations,
    String,
>)
    requires
        forall|i: int| 0 <= i < bounds@.len() ==> is_decimal(#[trigger] bounds@[i]@),
    ensures
        ({
            let shape = Shape {
                kind: Kind::Histograms,
                name: name@,
                help: help@,
                labels: texts(labels@),
                buckets: texts(bounds@),
            };
            match (refusal(shape), r) {
                (Some(t), Err(e)) => e@ == t,
                (None, Ok(m)) => durations_shape(m) == shape,
                _ => false,
            }
        }),
{
    let labels: Vec<&str> = labels.iter().map(|l| l.as_str()).collect();
    let bounds = bounds.iter().map(|b| b.parse().unwrap()).collect();
    let opts = prometheus::HistogramOpts::new(name, help).buckets(bounds);
    match prometheus::HistogramVec::new(opts, &labels) {
        Ok(family) => Ok(Durations { family }),
        Err(e) => Err(e.to_string()),
    }
}

/// Calls `prometheus::IntGauge::new` with a name and a help text.
///
/// It fails exactly if the help text is empty or the name is not a valid one, and says
/// which. Otherwise the gauge has what it was made with, and no labels.
#[verifier::external_body]
fn new_level(name: &str, help: &str) -> (r: Result<Level, String>)
    ensures
        match (refusal(plain(Kind::Gauge, name@, help@, Seq::empty())), r) {
            (Some(t), Err(e)) => e@ == t,
            (None, Ok(m)) => level_shape(m) == plain(Kind::Gauge, name@, help@, Seq::empty()),
            _ => false,
        },
{
    match prometheus::IntGauge::new(name, help) {
        Ok(gauge) => Ok(Level { gauge }),
        Err(e) => Err(e.to_string()),
    }
}

/// Calls `prometheus::Gauge::new` with a name and a help text.
///
/// It fails exactly if the help text is empty or the name is not a valid one, and says
/// which. Otherwise the gauge has what it was made with, and no labels.
#[verifier::external_body]
fn new_reading(name: &str, help: &str) -> (r: Result<Reading, String>)
    ensures
        match (refusal(plain(Kind::Gauge, name@, help@, Seq::empty())), r) {
            (Some(t), Err(e)) => e@ == t,
            (None, Ok(m)) => reading_shape(m) == plain(Kind::Gauge, name@, help@, Seq::empty()),
            _ => false,
        },
{
    match prometheus::Gauge::new(name, help) {
        Ok(gauge) => Ok(Reading { gauge }),
        Err(e) => Err(e.to_string()),
    }
}

/// A reference to a metric of any kind.
pub enum AnyMetric<'a> {
    Counters(&'a Counters),
    Amounts(&'a Amounts),
    Durations(&'a Durations),
    Gauges(&'a Gauges),
    Level(&'a Level),
    Reading(&'a Reading),
}

/// The metric that is referred to.
pub open spec fn family_of(m: AnyMetric) -> Family {
    match m {
        AnyMetric::Counters(m) => Family::Counters(*m),
        AnyMetric::Amounts(m) => Family::Amounts(*m),
        AnyMetric::Durations(m) => Family::Durations(*m),
        AnyMetric::Gauges(m) => Family::Gauges(*m),
        AnyMetric::Level(m) => Family::Level(*m),
        AnyMetric::Reading(m) => Family::Reading(*m),
    }
}

/// The metrics that are referred to.
pub open spec fn families_of(metrics: Seq<AnyMetric>) -> Seq<Family> {
    Seq::new(metrics.len(), |i: int| family_of(metrics[i]))
}

/// Calls `prometheus::Registry::new`, which makes an empty registry.
#[verifier::external_body]
fn new_registry() -> (r: prometheus::Registry)
    ensures
        registered(r) == Some(Seq::<Family>::empty()),
{
    prometheus::Registry::new()
}

/// Calls `prometheus::Registry::register` with a clone of a metric. A clone shares what is
/// counted, so the registry then holds the metric of the caller.
///
/// It fails exactly if the registry already has a metric with the same number, and then
/// changes nothing.
#[verifier::external_body]
fn register(registry: &mut prometheus::Registry, metric: &AnyMetric) -> (r: Result<(), String>)
    requires
        registered(*old(registry)) is Some,
    ensures
        ({
            let held = registered(*old(registry))->Some_0;
            let added = family_of(*metric);
            if holds_id(held, descriptor_id(shape_of(added).name)) {
                registered(*final(registry)) == Some(held) && (r matches Err(e) && e@
                    == "Duplicate metrics collector registration attempted"@)
            } else {
                registered(*final(registry)) == Some(held.push(added)) && r is Ok
            }
        }),
{
    let collector: Box<dyn prometheus::core::Collector> = match metric {
        AnyMetric::Counters(m) => Box::new(m.family.clone()),
        AnyMetric::Amounts(m) => Box::new(m.family.clone()),
        AnyMetric::Durations(m) => Box::new(m.family.clone()),
        AnyMetric::Gauges(m) => Box::new(m.family.clone()),
        AnyMetric::Level(m) => Box::new(m.gauge.clone()),
        AnyMetric::Reading(m) => Box::new(m.gauge.clone()),
    };
    registry.register(collector).map_err(|e| e.to_string())
}

/// Calls `prometheus::Registry::gather` and `prometheus::TextEncoder::encode_to_string`.
///
/// It succeeds on a registry with metrics of this module. The text is one of those as
/// which this registry may be rendered, and it shows each gauge that stands alone, with
/// its kind and in front of its value. The values, and which members of families are
/// shown, depend on what was counted so far; that is not stated.
#[verifier::external_body]
fn encode(registry: &prometheus::Registry) -> (r: Result<String, String>)
    requires
        registered(*registry) is Some,
    ensures
        ({
            let held = registered(*registry)->Some_0;
            r matches Ok(t) && renderings(*registry).contains(t@) && forall|i: int|
                0 <= i < held.len() && shape_of(#[trigger] held[i]).kind is Gauge ==> has_text(
                    t@,
                    gauge_lines(shape_of(held[i]).name),
                )
        }),
{
    prometheus::TextEncoder::new()
        .encode_to_string(&registry.gather())
        .map_err(|e| e.to_string())
}

// ---------------------------------------------------------------------------
// The metrics of a vessel
// ---------------------------------------------------------------------------

/// The metrics of a vessel.
pub struct ExoMetrics {
    /// The registry that holds the metrics of this vessel and no others.
    pub registry: prometheus::Registry,
    /// How many ticks were completed, by outcome.
    pub ticks_total: Counters,
    /// How long ticks took, by outcome.
    pub tick_duration_seconds: Durations,
    /// How many calls of a model were made, by backend.
    pub llm_calls_total: Counters,
    /// How many tokens were used, by backend and direction.
    pub llm_tokens_total: Counters,
    /// What the calls cost in cents, by backend.
    pub llm_cost_cents_total: Amounts,
    /// How long calls took, by backend.
    pub llm_latency_seconds: Durations,
    /// How often threads ran, by name and outcome.
    pub thread_runs_total: Counters,
    /// How many actions were executed, by connector and outcome.
    pub actions_total: Counters,
    /// What is left of the budget, by dimension.
    pub budget_remaining: Gauges,
    /// How many entries the relationship ledger has.
    pub relationship_entries_total: Level,
    /// How many artifacts were stored, by kind.
    pub artifacts_total: Counters,
    /// The number of the current tick.
    pub current_tick_number: Level,
    /// For how many seconds the vessel has been up.
    pub uptime_seconds: Reading,
    /// How many flows of tools are active.
    pub tool_active_flows: Level,
}

/// The bounds of the buckets for ticks, in tenths of a second.
pub open spec fn tick_bounds() -> Seq<nat> {
    seq![1, 5, 10, 20, 50, 100, 300, 600, 1200]
}

/// The bounds of the buckets for calls of a model, in tenths of a second. Calls may take
/// longer than ticks.
pub open spec fn llm_bounds() -> Seq<nat> {
    seq![1, 5, 10, 20, 50, 100, 300, 600, 1200, 3000]
}

/// Numbers of tenths as decimal numbers.
pub open spec fn all_tenths(bounds: Seq<nat>) -> Seq<Seq<char>> {
    Seq::new(bounds.len(), |i: int| tenths(bounds[i]))
}

/// What the metrics of a vessel are made with.
pub open spec fn shapes() -> Seq<Shape> {
    seq![
        plain(
            Kind::Counters,
            "exo_ticks_total"@,
            "Total ticks completed"@,
            seq!["outcome"@],
        ),
        Shape {
            kind: Kind::Histograms,
            name: "exo_tick_duration_seconds"@,
            help: "Tick duration in seconds"@,
            labels: seq!["outcome"@],
            buckets: all_tenths(tick_bounds()),
        },
        plain(
            Kind::Counters,
            "exo_llm_calls_total"@,
            "Total LLM calls"@,
            seq!["backend"@],
        ),
        plain(
            Kind::Counters,
            "exo_llm_tokens_total"@,
            "Total LLM tokens"@,
            seq!["backend"@, "direction"@],
        ),
        plain(
            Kind::Counters,
            "exo_llm_cost_cents_total"@,
            "Total LLM cost in cents"@,
            seq!["backend"@],
        ),
        Shape {
            kind: Kind::Histograms,
            name: "exo_llm_latency_seconds"@,
            help: "LLM call latency in seconds"@,
            labels: seq!["backend"@],
            buckets: all_tenths(llm_bounds()),
        },
        plain(
            Kind::Counters,
            "exo_thread_runs_total"@,
            "Total thread runs"@,
            seq!["thread_name"@, "outcome"@],
        ),
        plain(
            Kind::Counters,
            "exo_actions_total"@,
            "Total actions executed"@,
            seq!["connector"@, "outcome"@],
        ),
        plain(
            Kind::Gauges,
            "exo_budget_remaining"@,
            "Budget remaining by dimension"@,
            seq!["dimension"@],
        ),
        plain(
            Kind::Gauge,
            "exo_relationship_entries_total"@,
            "Total relationship ledger entries"@,
            Seq::empty(),
        ),
        plain(
            Kind::Counters,
            "exo_artifacts_total"@,
            "Total artifacts stored"@,
            seq!["kind"@],
        ),
        plain(
            Kind::Gauge,
            "exo_current_tick_number"@,
            "Current tick number"@,
            Seq::empty(),
        ),
        plain(
            Kind::Gauge,
            "exo_uptime_seconds"@,
            "Vessel uptime in seconds"@,
            Seq::empty(),
        ),
        plain(
            Kind::Gauge,
            "exo_tool_active_flows"@,
            "WI Host active flow count"@,
            Seq::empty(),
        ),
    ]
}

/// The metrics of a vessel, in the order in which they are registered.
pub open spec fn families_in(m: ExoMetrics) -> Seq<Family> {
    seq![
        Family::Counters(m.ticks_total),
        Family::Durations(m.tick_duration_seconds),
        Family::Counters(m.llm_calls_total),
        Family::Counters(m.llm_tokens_total),
        Family::Amounts(m.llm_cost_cents_total),
        Family::Durations(m.llm_latency_seconds),
        Family::Counters(m.thread_runs_total),
        Family::Counters(m.actions_total),
        Family::Gauges(m.budget_remaining),
        Family::Level(m.relationship_entries_total),
        Family::Counters(m.artifacts_total),
        Family::Level(m.current_tick_number),
        Family::Reading(m.uptime_seconds),
        Family::Level(m.tool_active_flows),
    ]
}

/// No two of the first `n` metrics have the same number.
pub open spec fn ids_differ(shapes: Seq<Shape>, n: int) -> bool {
    forall|i: int, j: int|
        0 <= i < j < n ==> descriptor_id((#[trigger] shapes[i]).name) != descriptor_id(
            (#[trigger] shapes[j]).name,
        )
}

/// The metrics of a vessel have different numbers, so that all of them can be
/// registered.
pub proof fn numbers_differ()
    ensures
        ids_differ(shapes(), shapes().len() as int),
{
    last_bytes();
}

/// The names of the metrics, their labels and their help texts are all accepted.
pub proof fn metrics_are_accepted()
    ensures
        forall|i: int| 0 <= i < shapes().len() ==> refusal(#[trigger] shapes()[i]) is None,
{
    labels_are_words();
    helps_are_there();
    names_are_words();
    reveal_with_fuel(labels_refusal, 3);
    assert forall|i: int| 0 <= i < shapes().len() implies refusal(#[trigger] shapes()[i]) is None by {
        let l = shapes()[i].labels;
        assert(l.len() <= 2);
        if l.len() > 0 {
            assert(l.subrange(0, 0) =~= Seq::<Seq<char>>::empty());
        }
        if l.len() > 1 {
            assert(l.subrange(0, 1) =~= seq![l[0]]);
            assert(l[0] != l[1]);
        }
    }
}

proof fn names_are_words()
    ensures
        is_word("exo_ticks_total"@, true),
        is_word("exo_tick_duration_seconds"@, true),
        is_word("exo_llm_calls_total"@, true),
        is_word("exo_llm_tokens_total"@, true),
        is_word("exo_llm_cost_cents_total"@, true),
        is_word("exo_llm_latency_seconds"@, true),
        is_word("exo_thread_runs_total"@, true),
        is_word("exo_actions_total"@, true),
        is_word("exo_budget_remaining"@, true),
        is_word("exo_relationship_entries_total"@, true),
        is_word("exo_artifacts_total"@, true),
        is_word("exo_current_tick_number"@, true),
        is_word("exo_uptime_seconds"@, true),
        is_word("exo_tool_active_flows"@, true),
{
    reveal_strlit("exo_ticks_total");
    reveal_strlit("exo_tick_duration_seconds");
    reveal_strlit("exo_llm_calls_total");
    reveal_strlit("exo_llm_tokens_total");
    reveal_strlit("exo_llm_cost_cents_total");
    reveal_strlit("exo_llm_latency_seconds");
    reveal_strlit("exo_thread_runs_total");
    reveal_strlit("exo_actions_total");
    reveal_strlit("exo_budget_remaining");
    reveal_strlit("exo_relationship_entries_total");
    reveal_strlit("exo_artifacts_total");
    reveal_strlit("exo_current_tick_number");
    reveal_strlit("exo_uptime_seconds");
    reveal_strlit("exo_tool_active_flows");
    reveal_with_fuel(is_word_from, 32);
    assert(is_word("exo_ticks_total"@, true));
    assert(is_word("exo_tick_duration_seconds"@, true));
    assert(is_word("exo_llm_calls_total"@, true));
    assert(is_word("exo_llm_tokens_total"@, true));
    assert(is_word("exo_llm_cost_cents_total"@, true));
    assert(is_word("exo_llm_latency_seconds"@, true));
    assert(is_word("exo_thread_runs_total"@, true));
    assert(is_word("exo_actions_total"@, true));
    assert(is_word("exo_budget_remaining"@, true));
    assert(is_word("exo_relationship_entries_total"@, true));
    assert(is_word("exo_artifacts_total"@, true));
    assert(is_word("exo_current_tick_number"@, true));
    assert(is_word("exo_uptime_seconds"@, true));
    assert(is_word("exo_tool_active_flows"@, true));
}

proof fn labels_are_words()
    ensures
        "backend"@ != "direction"@,
        "thread_name"@ != "outcome"@,
        "connector"@ != "outcome"@,
        is_word("backend"@, false),
        is_word("connector"@, false),
        is_word("dimension"@, false),
        is_word("direction"@, false),
        is_word("kind"@, false),
        is_word("outcome"@, false),
        is_word("thread_name"@, false),
{
    reveal_strlit("backend");
    reveal_strlit("connector");
    reveal_strlit("dimension");
    reveal_strlit("direction");
    reveal_strlit("kind");
    reveal_strlit("outcome");
    reveal_strlit("thread_name");
    assert("backend"@.len() == 7);
    assert("direction"@.len() == 9);
    assert("thread_name"@.len() == 11);
    assert("outcome"@.len() == 7);
    assert("connector"@.len() == 9);
    reveal_with_fuel(is_word_from, 13);
    assert(is_word("backend"@, false));
    assert(is_word("connector"@, false));
    assert(is_word("dimension"@, false));
    assert(is_word("direction"@, false));
    assert(is_word("kind"@, false));
    assert(is_word("outcome"@, false));
    assert(is_word("thread_name"@, false));
}

proof fn helps_are_there()
    ensures
        forall|i: int| 0 <= i < shapes().len() ==> (#[trigger] shapes()[i]).help.len() > 0,
{
    reveal_strlit("Total ticks completed");
    reveal_strlit("Tick duration in seconds");
    reveal_strlit("Total LLM calls");
    reveal_strlit("Total LLM tokens");
    reveal_strlit("Total LLM cost in cents");
    reveal_strlit("LLM call latency in seconds");
    reveal_strlit("Total thread runs");
    reveal_strlit("Total actions executed");
    reveal_strlit("Budget remaining by dimension");
    reveal_strlit("Total relationship ledger entries");
    reveal_strlit("Total artifacts stored");
    reveal_strlit("Current tick number");
    reveal_strlit("Vessel uptime in seconds");
    reveal_strlit("WI Host active flow count");
}

fn tenths_text(n: u64) -> (t: String)
    ensures
        t@ == tenths(n as nat),
{
    let mut t = dec_u64(n / 10);
    t.append(".");
    t.append(dec_u64(n % 10).as_str());
    t
}

fn tenths_texts(bounds: &Vec<u64>) -> (r: Vec<String>)
    ensures
        texts(r@) == all_tenths(Seq::new(bounds@.len(), |i: int| bounds@[i] as nat)),
        forall|i: int| 0 <= i < r@.len() ==> is_decimal(#[trigger] r@[i]@),
{
    let mut r: Vec<String> = Vec::new();
    let mut i: usize = 0;
    while i < bounds.len()
        invariant
            i <= bounds@.len(),
            r@.len() == i,
            forall|k: int| 0 <= k < i ==> (#[trigger] r@[k])@ == tenths(bounds@[k] as nat),
        decreases bounds@.len() - i,
    {
        r.push(tenths_text(bounds[i]));
        i = i + 1;
    }
    assert(texts(r@) =~= all_tenths(Seq::new(bounds@.len(), |i: int| bounds@[i] as nat)));
    r
}

/// The message on a metric that was refused.
pub open spec fn refused_text(field: Seq<char>, error: Seq<char>) -> Seq<char> {
    "metrics: "@ + field + ": "@ + error
}

/// The error on a metric that was refused.
pub fn refused(field: &str, error: &str) -> (e: ExoError)
    ensures
        e matches ExoError::Config(m) && m@ == refused_text(field@, error@),
{
    let mut m = "metrics: ".to_owned();
    m.append(field);
    m.append(": ");
    m.append(error);
    ExoError::Config(m)
}

/// Makes a metric for a field. A metric that is refused is an error.
pub fn counters(field: &str, name: &str, help: &str, labels: Vec<String>) -> (r: Result<Counters, ExoError>)
    ensures
        ({
            let shape = plain(Kind::Counters, name@, help@, texts(labels@));
            match refusal(shape) {
                None => r matches Ok(m) && counters_shape(m) == shape,
                Some(t) => r matches Err(ExoError::Config(m)) && m@ == refused_text(field@, t),
            }
        }),
{
    match new_counters(name, help, &labels) {
        Ok(m) => Ok(m),
        Err(e) => Err(refused(field, e.as_str())),
    }
}

/// Makes a metric for a field. A metric that is refused is an error.
pub fn amounts(field: &str, name: &str, help: &str, labels: Vec<String>) -> (r: Result<Amounts, ExoError>)
    ensures
        ({
            let shape = plain(Kind::Counters, name@, help@, texts(labels@));
            match refusal(shape) {
                None => r matches Ok(m) && amounts_shape(m) == shape,
                Some(t) => r matches Err(ExoError::Config(m)) && m@ == refused_text(field@, t),
            }
        }),
{
    match new_amounts(name, help, &labels) {
        Ok(m) => Ok(m),
        Err(e) => Err(refused(field, e.as_str())),
    }
}

/// Makes a metric for a field. A metric that is refused is an error.
pub fn durations(field: &str, name: &str, help: &str, labels: Vec<String>, bounds: Vec<u64>) -> (r: Result<Durations, ExoError>)
    ensures
        ({
            let shape = Shape {
                kind: Kind::Histograms,
                name: name@,
                help: help@,
                labels: texts(labels@),
                buckets: all_tenths(Seq::new(bounds@.len(), |i: int| bounds@[i] as nat)),
            };
            match refusal(shape) {
                None => r matches Ok(m) && durations_shape(m) == shape,
                Some(t) => r matches Err(ExoError::Config(m)) && m@ == refused_text(field@, t),
            }
        }),
{
    match new_durations(name, help, &labels, &tenths_texts(&bounds)) {
        Ok(m) => Ok(m),
        Err(e) => Err(refused(field, e.as_str())),
    }
}

/// Makes a metric for a field. A metric that is refused is an error.
pub fn gauges(field: &str, name: &str, help: &str, labels: Vec<String>) -> (r: Result<Gauges, ExoError>)
    ensures
        ({
            let shape = plain(Kind::Gauges, name@, help@, texts(labels@));
            match refusal(shape) {
                None => r matches Ok(m) && gauges_shape(m) == shape,
                Some(t) => r matches Err(ExoError::Config(m)) && m@ == refused_text(field@, t),
            }
        }),
{
    match new_gauges(name, help, &labels) {
        Ok(m) => Ok(m),
        Err(e) => Err(refused(field, e.as_str())),
    }
}

/// Makes a metric for a field. A metric that is refused is an error.
pub fn level(field: &str, name: &str, help: &str) -> (r: Result<Level, ExoError>)
    ensures
        ({
            let shape = plain(Kind::Gauge, name@, help@, Seq::empty());
            match refusal(shape) {
                None => r matches Ok(m) && level_shape(m) == shape,
                Some(t) => r matches Err(ExoError::Config(m)) && m@ == refused_text(field@, t),
            }
        }),
{
    match new_level(name, help) {
        Ok(m) => Ok(m),
        Err(e) => Err(refused(field, e.as_str())),
    }
}

/// Makes a metric for a field. A metric that is refused is an error.
pub fn reading(field: &str, name: &str, help: &str) -> (r: Result<Reading, ExoError>)
    ensures
        ({
            let shape = plain(Kind::Gauge, name@, help@, Seq::empty());
            match refusal(shape) {
                None => r matches Ok(m) && reading_shape(m) == shape,
                Some(t) => r matches Err(ExoError::Config(m)) && m@ == refused_text(field@, t),
            }
        }),
{
    match new_reading(name, help) {
        Ok(m) => Ok(m),
        Err(e) => Err(refused(field, e.as_str())),
    }
}

/// Registers metrics in turn. The first that cannot be registered is an error.
fn register_all(registry: &mut prometheus::Registry, metrics: &Vec<AnyMetric>) -> (r: Result<
    (),
    ExoError,
>)
    requires
        registered(*old(registry)) == Some(Seq::<Family>::empty()),
    ensures
        ({
            let families = families_of(metrics@);
            let shapes = shapes_of(families);
            match r {
                Ok(_) => ids_differ(shapes, shapes.len() as int) && registered(*final(registry))
                    == Some(families),
                Err(e) => !ids_differ(shapes, shapes.len() as int) && (e matches ExoError::Config(m)
                    && m@ == "metrics register: Duplicate metrics collector registration attempted"@),
            }
        }),
{
    let ghost families = families_of(metrics@);
    let ghost shapes = shapes_of(families);
    let mut i: usize = 0;
    assert(families.subrange(0, 0) =~= Seq::<Family>::empty());
    while i < metrics.len()
        invariant
            families == families_of(metrics@),
            shapes == shapes_of(families),
            i <= metrics@.len(),
            registered(*registry) == Some(families.subrange(0, i as int)),
            ids_differ(shapes, i as int),
        decreases metrics@.len() - i,
    {
        let ghost held = families.subrange(0, i as int);
        let ghost id = descriptor_id(shapes[i as int].name);
        assert(families[i as int] == family_of(metrics@[i as int]));
        assert(shapes[i as int] == shape_of(families[i as int]));
        match register(registry, &metrics[i]) {
            Ok(_) => {
                assert forall|k: int| 0 <= k < i implies descriptor_id((#[trigger] shapes[k]).name)
                    != id by {
                    assert(held[k] == families[k]);
                }
                assert(families.subrange(0, i + 1) =~= held.push(families[i as int]));
            },
            Err(e) => {
                let mut m = "metrics register: ".to_owned();
                m.append(e.as_str());
                proof {
                    let k = choose|k: int|
                        0 <= k < held.len() && descriptor_id(shape_of(#[trigger] held[k]).name)
                            == id;
                    assert(held[k] == families[k]);
                    assert(shapes[k] == shape_of(families[k]));
                    assert(0 <= k < i < shapes.len());
                    register_text();
                }
                return Err(ExoError::Config(m));
            },
        }
        i = i + 1;
    }
    assert(families.subrange(0, families.len() as int) =~= families);
    Ok(())
}

proof fn register_text()
    ensures
        "metrics register: "@ + "Duplicate metrics collector registration attempted"@
            == "metrics register: Duplicate metrics collector registration attempted"@,
{
    reveal_strlit("metrics register: ");
    reveal_strlit("Duplicate metrics collector registration attempted");
    reveal_strlit("metrics register: Duplicate metrics collector registration attempted");
    assert("metrics register: "@ + "Duplicate metrics collector registration attempted"@
        =~= "metrics register: Duplicate metrics collector registration attempted"@);
}

/// The message on metrics that could not be rendered.
pub fn render_outcome(r: Result<String, String>) -> (o: Result<String, ExoError>)
    ensures
        match r {
            Ok(t) => o matches Ok(text) && text == t,
            Err(e) => o matches Err(ExoError::Config(m)) && m@ == "metrics render: "@ + e@,
        },
{
    match r {
        Ok(t) => Ok(t),
        Err(e) => {
            let mut m = "metrics render: ".to_owned();
            m.append(e.as_str());
            Err(ExoError::Config(m))
        },
    }
}

impl ExoMetrics {
    /// The metrics are made as those of a vessel, and the registry holds these very
    /// metrics and no others.
    pub open spec fn wf(self) -> bool {
        shapes_of(families_in(self)) == shapes() && registered(self.registry) == Some(
            families_in(self),
        )
    }

    /// Makes the metrics of a vessel, with a registry of their own.
    pub fn new() -> (r: Result<ExoMetrics, ExoError>)
        ensures
            r matches Ok(m) && m.wf(),
    {
        proof {
            metrics_are_accepted();
        }
        let registry = new_registry();
        let ghost wanted = shapes();
        let labels = vec!["outcome".to_owned()];
        assert(texts(labels@) =~= wanted[0].labels);
        assert(refusal(wanted[0]) is None);
        let ticks_total = match counters("ticks_total", "exo_ticks_total", "Total ticks completed", labels) {
            Ok(m) => m,
            Err(e) => {
                return Err(e);
            },
        };
        let labels = vec!["outcome".to_owned()];
        assert(texts(labels@) =~= wanted[1].labels);
        let bounds: Vec<u64> = vec![1, 5, 10, 20, 50, 100, 300, 600, 1200];
        assert(Seq::new(bounds@.len(), |i: int| bounds@[i] as nat) =~= tick_bounds());
        assert(refusal(wanted[1]) is None);
        let tick_duration_seconds = match durations("tick_duration_seconds", "exo_tick_duration_seconds", "Tick duration in seconds", labels, bounds) {
            Ok(m) => m,
            Err(e) => {
                return Err(e);
            },
        };
        let labels = vec!["backend".to_owned()];
        assert(texts(labels@) =~= wanted[2].labels);
        assert(refusal(wanted[2]) is None);
        let llm_calls_total = match counters("llm_calls_total", "exo_llm_calls_total", "Total LLM calls", labels) {
            Ok(m) => m,
            Err(e) => {
                return Err(e);
            },
        };
        let labels = vec!["backend".to_owned(), "direction".to_owned()];
        assert(texts(labels@) =~= wanted[3].labels);
        assert(refusal(wanted[3]) is None);
        let llm_tokens_total = match counters("llm_tokens_total", "exo_llm_tokens_total", "Total LLM tokens", labels) {
            Ok(m) => m,
            Err(e) => {
                return Err(e);
            },
        };
        let labels = vec!["backend".to_owned()];
        assert(texts(labels@) =~= wanted[4].labels);
        assert(refusal(wanted[4]) is None);
        let llm_cost_cents_total = match amounts("llm_cost_cents_total", "exo_llm_cost_cents_total", "Total LLM cost in cents", labels) {
            Ok(m) => m,
            Err(e) => {
                return Err(e);
            },
        };
        let labels = vec!["backend".to_owned()];
        assert(texts(labels@) =~= wanted[5].labels);
        let bounds: Vec<u64> = vec![1, 5, 10, 20, 50, 100, 300, 600, 1200, 3000];
        assert(Seq::new(bounds@.len(), |i: int| bounds@[i] as nat) =~= llm_bounds());
        assert(refusal(wanted[5]) is None);
        let llm_latency_seconds = match durations("llm_latency_seconds", "exo_llm_latency_seconds", "LLM call latency in seconds", labels, bounds) {
            Ok(m) => m,
            Err(e) => {
                return Err(e);
            },
        };
        let labels = vec!["thread_name".to_owned(), "outcome".to_owned()];
        assert(texts(labels@) =~= wanted[6].labels);
        assert(refusal(wanted[6]) is None);
        let thread_runs_total = match counters("thread_runs_total", "exo_thread_runs_total", "Total thread runs", labels) {
            Ok(m) => m,
            Err(e) => {
                return Err(e);
            },
        };
        let labels = vec!["connector".to_owned(), "outcome".to_owned()];
        assert(texts(labels@) =~= wanted[7].labels);
        assert(refusal(wanted[7]) is None);
        let actions_total = match counters("actions_total", "exo_actions_total", "Total actions executed", labels) {
            Ok(m) => m,
            Err(e) => {
                return Err(e);
            },
        };
        let labels = vec!["dimension".to_owned()];
        assert(texts(labels@) =~= wanted[8].labels);
        assert(refusal(wanted[8]) is None);
        let budget_remaining = match gauges("budget_remaining", "exo_budget_remaining", "Budget remaining by dimension", labels) {
            Ok(m) => m,
            Err(e) => {
                return Err(e);
            },
        };
        assert(refusal(wanted[9]) is None);
        let relationship_entries_total = match level("relationship_entries_total", "exo_relationship_entries_total", "Total relationship ledger entries") {
            Ok(m) => m,
            Err(e) => {
                return Err(e);
            },
        };
        let labels = vec!["kind".to_owned()];
        assert(texts(labels@) =~= wanted[10].labels);
        assert(refusal(wanted[10]) is None);
        let artifacts_total = match counters("artifacts_total", "exo_artifacts_total", "Total artifacts stored", labels) {
            Ok(m) => m,
            Err(e) => {
                return Err(e);
            },
        };
        assert(refusal(wanted[11]) is None);
        let current_tick_number = match level("current_tick_number", "exo_current_tick_number", "Current tick number") {
            Ok(m) => m,
            Err(e) => {
                return Err(e);
            },
        };
        assert(refusal(wanted[12]) is None);
        let uptime_seconds = match reading("uptime_seconds", "exo_uptime_seconds", "Vessel uptime in seconds") {
            Ok(m) => m,
            Err(e) => {
                return Err(e);
            },
        };
        assert(refusal(wanted[13]) is None);
        let tool_active_flows = match level("tool_active_flows", "exo_tool_active_flows", "WI Host active flow count") {
            Ok(m) => m,
            Err(e) => {
                return Err(e);
            },
        };
        let made = ExoMetrics {
            registry,
            ticks_total,
            tick_duration_seconds,
            llm_calls_total,
            llm_tokens_total,
            llm_cost_cents_total,
            llm_latency_seconds,
            thread_runs_total,
            actions_total,
            budget_remaining,
            relationship_entries_total,
            artifacts_total,
            current_tick_number,
            uptime_seconds,
            tool_active_flows,
        };
        assert(shapes_of(families_in(made)) =~= shapes());
        made.register_own()
    }

    /// Registers the metrics in their registry.
    fn register_own(self) -> (r: Result<ExoMetrics, ExoError>)
        requires
            registered(self.registry) == Some(Seq::<Family>::empty()),
            shapes_of(families_in(self)) == shapes(),
        ensures
            r matches Ok(m) && m.wf() && families_in(m) == families_in(self),
    {
        let ExoMetrics {
            registry,
            ticks_total,
            tick_duration_seconds,
            llm_calls_total,
            llm_tokens_total,
            llm_cost_cents_total,
            llm_latency_seconds,
            thread_runs_total,
            actions_total,
            budget_remaining,
            relationship_entries_total,
            artifacts_total,
            current_tick_number,
            uptime_seconds,
            tool_active_flows,
        } = self;
        let mut registry = registry;
        let all = vec![
            AnyMetric::Counters(&ticks_total),
            AnyMetric::Durations(&tick_duration_seconds),
            AnyMetric::Counters(&llm_calls_total),
            AnyMetric::Counters(&llm_tokens_total),
            AnyMetric::Amounts(&llm_cost_cents_total),
            AnyMetric::Durations(&llm_latency_seconds),
            AnyMetric::Counters(&thread_runs_total),
            AnyMetric::Counters(&actions_total),
            AnyMetric::Gauges(&budget_remaining),
            AnyMetric::Level(&relationship_entries_total),
            AnyMetric::Counters(&artifacts_total),
            AnyMetric::Level(&current_tick_number),
            AnyMetric::Reading(&uptime_seconds),
            AnyMetric::Level(&tool_active_flows),
        ];
        assert(families_of(all@) =~= families_in(self));
        proof {
            numbers_differ();
        }
        match register_all(&mut registry, &all) {
            Ok(_) => {},
            Err(e) => {
                return Err(e);
            },
        }
        let m = ExoMetrics {
            registry,
            ticks_total,
            tick_duration_seconds,
            llm_calls_total,
            llm_tokens_total,
            llm_cost_cents_total,
            llm_latency_seconds,
            thread_runs_total,
            actions_total,
            budget_remaining,
            relationship_entries_total,
            artifacts_total,
            current_tick_number,
            uptime_seconds,
            tool_active_flows,
        };
        assert(families_in(m) =~= families_in(self));
        Ok(m)
    }

    /// Renders the metrics as text. The four gauges that stand alone are always shown.
    pub fn render(&self) -> (r: Result<String, ExoError>)
        requires
            self.wf(),
        ensures
            r matches Ok(t) && renderings(self.registry).contains(t@) && has_text(
                t@,
                gauge_lines("exo_relationship_entries_total"@),
            ) && has_text(t@, gauge_lines("exo_current_tick_number"@)) && has_text(
                t@,
                gauge_lines("exo_uptime_seconds"@),
            ) && has_text(t@, gauge_lines("exo_tool_active_flows"@)),
    {
        let ghost held = families_in(*self);
        assert(shape_of(held[9]) == shapes()[9]);
        assert(shape_of(held[11]) == shapes()[11]);
        assert(shape_of(held[12]) == shapes()[12]);
        assert(shape_of(held[13]) == shapes()[13]);
        render_outcome(encode(&self.registry))
    }
}

/// The bounds of the buckets increase, so that each value falls into one bucket first.
pub proof fn bounds_increase()
    ensures
        forall|i: int, j: int|
            0 <= i < j < tick_bounds().len() ==> tick_bounds()[i] < tick_bounds()[j],
        forall|i: int, j: int|
            0 <= i < j < llm_bounds().len() ==> llm_bounds()[i] < llm_bounds()[j],
{
}

/// All metrics have different names.
pub proof fn names_differ(i: int, j: int)
    requires
        0 <= i < j < shapes().len(),
    ensures
        shapes()[i].name != shapes()[j].name,
{
    reveal_strlit("exo_ticks_total");
    reveal_strlit("exo_tick_duration_seconds");
    reveal_strlit("exo_llm_calls_total");
    reveal_strlit("exo_llm_tokens_total");
    reveal_strlit("exo_llm_cost_cents_total");
    reveal_strlit("exo_llm_latency_seconds");
    reveal_strlit("exo_thread_runs_total");
    reveal_strlit("exo_actions_total");
    reveal_strlit("exo_budget_remaining");
    reveal_strlit("exo_relationship_entries_total");
    reveal_strlit("exo_artifacts_total");
    reveal_strlit("exo_current_tick_number");
    reveal_strlit("exo_uptime_seconds");
    reveal_strlit("exo_tool_active_flows");
    assert("exo_ticks_total"@.len() == 15);
    assert("exo_tick_duration_seconds"@.len() == 25);
    assert("exo_llm_calls_total"@.len() == 19);
    assert("exo_llm_tokens_total"@.len() == 20);
    assert("exo_llm_cost_cents_total"@.len() == 24);
    assert("exo_llm_latency_seconds"@.len() == 23);
    assert("exo_thread_runs_total"@.len() == 21);
    assert("exo_actions_total"@.len() == 17);
    assert("exo_budget_remaining"@.len() == 20);
    assert("exo_relationship_entries_total"@.len() == 30);
    assert("exo_artifacts_total"@.len() == 19);
    assert("exo_current_tick_number"@.len() == 23);
    assert("exo_uptime_seconds"@.len() == 18);
    assert("exo_tool_active_flows"@.len() == 21);
    assert("exo_llm_calls_total"@[4] != "exo_artifacts_total"@[4]);
    assert("exo_llm_tokens_total"@[4] != "exo_budget_remaining"@[4]);
    assert("exo_llm_latency_seconds"@[4] != "exo_current_tick_number"@[4]);
    assert("exo_thread_runs_total"@[5] != "exo_tool_active_flows"@[5]);
}

/// One of the metrics of a vessel has this kind, this name and these labels.
pub open spec fn measures(kind: Kind, name: Seq<char>, labels: Seq<Seq<char>>) -> bool {
    exists|i: int|
        0 <= i < shapes().len() && (#[trigger] shapes()[i]).kind == kind && shapes()[i].name
            == name && shapes()[i].labels == labels
}

/// A vessel counts its ticks, its calls of models with their tokens and costs, its threads,
/// its actions and its artifacts, and measures how long ticks and calls take.
pub proof fn vessel_is_measured()
    ensures
        measures(Kind::Counters, "exo_ticks_total"@, seq!["outcome"@]),
        measures(Kind::Histograms, "exo_tick_duration_seconds"@, seq!["outcome"@]),
        measures(Kind::Counters, "exo_llm_calls_total"@, seq!["backend"@]),
        measures(Kind::Counters, "exo_llm_tokens_total"@, seq!["backend"@, "direction"@]),
        measures(Kind::Counters, "exo_llm_cost_cents_total"@, seq!["backend"@]),
        measures(Kind::Histograms, "exo_llm_latency_seconds"@, seq!["backend"@]),
        measures(Kind::Counters, "exo_thread_runs_total"@, seq!["thread_name"@, "outcome"@]),
        measures(Kind::Counters, "exo_actions_total"@, seq!["connector"@, "outcome"@]),
        measures(Kind::Gauges, "exo_budget_remaining"@, seq!["dimension"@]),
        measures(Kind::Gauge, "exo_relationship_entries_total"@, Seq::empty()),
        measures(Kind::Counters, "exo_artifacts_total"@, seq!["kind"@]),
        measures(Kind::Gauge, "exo_current_tick_number"@, Seq::empty()),
        measures(Kind::Gauge, "exo_uptime_seconds"@, Seq::empty()),
        measures(Kind::Gauge, "exo_tool_active_flows"@, Seq::empty()),
{
    let s = shapes();
    assert(s[0].name == "exo_ticks_total"@);
    assert(s[1].name == "exo_tick_duration_seconds"@);
    assert(s[2].name == "exo_llm_calls_total"@);
    assert(s[3].name == "exo_llm_tokens_total"@);
    assert(s[4].name == "exo_llm_cost_cents_total"@);
    assert(s[5].name == "exo_llm_latency_seconds"@);
    assert(s[6].name == "exo_thread_runs_total"@);
    assert(s[7].name == "exo_actions_total"@);
    assert(s[8].name == "exo_budget_remaining"@);
    assert(s[9].name == "exo_relationship_entries_total"@);
    assert(s[10].name == "exo_artifacts_total"@);
    assert(s[11].name == "exo_current_tick_number"@);
    assert(s[12].name == "exo_uptime_seconds"@);
    assert(s[13].name == "exo_tool_active_flows"@);
}

} // verus!
