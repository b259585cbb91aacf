//! The tools that the kernel itself offers to the language model.

use vstd::prelude::*;
use vstd::string::*;

use crate::json::{member, member_views, Json, JsonView};
use crate::schema::{
    array_of, described, integer_from, limit_with, make_array_of, make_described,
    make_integer_from, make_limit_with, make_object_requiring, make_object_with, make_one_of,
    make_typed, object_requiring, object_with, one_of, typed,
};
use crate::text::{str_eq, texts};
use crate::virtual_tools::is_virtual;

verus! {

/// A tool that a language model can call.
#[derive(Debug)]
pub struct ToolDefinition {
    pub name: String,
    pub description: String,
    pub input_schema: Json,
}

/// The model of a tool definition.
pub struct ToolDefinitionView {
    pub name: Seq<char>,
    pub description: Seq<char>,
    pub input_schema: JsonView,
}

impl View for ToolDefinition {
    type V = ToolDefinitionView;

    open spec fn view(&self) -> ToolDefinitionView {
        ToolDefinitionView {
            name: self.name@,
            description: self.description@,
            input_schema: self.input_schema@,
        }
    }
}

/// The models of a list of tool definitions.
pub open spec fn definition_views(list: Seq<ToolDefinition>) -> Seq<ToolDefinitionView> {
    Seq::new(list.len(), |i: int| list[i]@)
}

/// The schema of a date and time.
pub open spec fn date_time() -> JsonView {
    JsonView::Object(
        seq![("type"@, JsonView::Str("string"@)), ("format"@, JsonView::Str("date-time"@))],
    )
}

fn make_date_time() -> (j: Json)
    ensures
        j@ == date_time(),
{
    let members = vec![
        member("type", Json::str("string")),
        member("format", Json::str("date-time")),
    ];
    assert(member_views(members@) =~= date_time()->Object_0);
    Json::object(members)
}

// ---------------------------------------------------------------------------
// The definitions
// ---------------------------------------------------------------------------

/// The tool `update_plan`.
pub open spec fn update_plan_tool() -> ToolDefinitionView {
    ToolDefinitionView {
        name: "update_plan"@,
        description: "Replace the current plan or patch it with incremental operations."@,
        input_schema: object_requiring(seq!["type"@], seq![
            ("type"@, one_of(seq!["replace"@, "patch"@])),
            ("plan"@, object_with(seq![
                ("objective"@, typed("string"@)),
                ("tasks"@, array_of(object_with(seq![
                    ("id"@, typed("string"@)),
                    ("description"@, typed("string"@)),
                    ("status"@, one_of(seq!["pending"@, "in_progress"@, "completed"@, "failed"@, "blocked"@, "skipped"@])),
                    ("depends_on"@, array_of(typed("string"@))),
                    ("tool_hint"@, typed("string"@)),
                ]))),
                ("updated_at"@, date_time()),
            ])),
            ("operations"@, array_of(object_with(seq![
                ("op"@, one_of(seq!["add_task"@, "update_status"@, "remove_task"@, "update_objective"@])),
                ("task_id"@, typed("string"@)),
                ("task"@, typed("object"@)),
                ("new_status"@, typed("string"@)),
                ("objective"@, typed("string"@)),
            ]))),
        ]),
    }
}

fn make_update_plan_tool() -> (t: ToolDefinition)
    ensures
        t@ == update_plan_tool(),
{
    let kinds = vec!["replace".to_owned(), "patch".to_owned()];
    assert(texts(kinds@) =~= seq!["replace"@, "patch"@]);
    let statuses = vec!["pending".to_owned(), "in_progress".to_owned(), "completed".to_owned(), "failed".to_owned(), "blocked".to_owned(), "skipped".to_owned()];
    assert(texts(statuses@) =~= seq!["pending"@, "in_progress"@, "completed"@, "failed"@, "blocked"@, "skipped"@]);
    let task = vec![
        member("id", make_typed("string")),
        member("description", make_typed("string")),
        member("status", make_one_of(statuses)),
        member("depends_on", make_array_of(make_typed("string"))),
        member("tool_hint", make_typed("string")),
    ];
    assert(member_views(task@) =~= seq![
        ("id"@, typed("string"@)),
        ("description"@, typed("string"@)),
        ("status"@, one_of(seq!["pending"@, "in_progress"@, "completed"@, "failed"@, "blocked"@, "skipped"@])),
        ("depends_on"@, array_of(typed("string"@))),
        ("tool_hint"@, typed("string"@)),
    ]);
    let plan = vec![
        member("objective", make_typed("string")),
        member("tasks", make_array_of(make_object_with(task))),
        member("updated_at", make_date_time()),
    ];
    assert(member_views(plan@) =~= seq![
        ("objective"@, typed("string"@)),
        ("tasks"@, array_of(object_with(seq![
            ("id"@, typed("string"@)),
            ("description"@, typed("string"@)),
            ("status"@, one_of(seq!["pending"@, "in_progress"@, "completed"@, "failed"@, "blocked"@, "skipped"@])),
            ("depends_on"@, array_of(typed("string"@))),
            ("tool_hint"@, typed("string"@)),
        ]))),
        ("updated_at"@, date_time()),
    ]);
    let changes = vec!["add_task".to_owned(), "update_status".to_owned(), "remove_task".to_owned(), "update_objective".to_owned()];
    assert(texts(changes@) =~= seq!["add_task"@, "update_status"@, "remove_task"@, "update_objective"@]);
    let operation = vec![
        member("op", make_one_of(changes)),
        member("task_id", make_typed("string")),
        member("task", make_typed("object")),
        member("new_status", make_typed("string")),
        member("objective", make_typed("string")),
    ];
    assert(member_views(operation@) =~= seq![
        ("op"@, one_of(seq!["add_task"@, "update_status"@, "remove_task"@, "update_objective"@])),
        ("task_id"@, typed("string"@)),
        ("task"@, typed("object"@)),
        ("new_status"@, typed("string"@)),
        ("objective"@, typed("string"@)),
    ]);
    let properties = vec![
        member("type", make_one_of(kinds)),
        member("plan", make_object_with(plan)),
        member("operations", make_array_of(make_object_with(operation))),
    ];
    assert(member_views(properties@) =~= seq![
        ("type"@, one_of(seq!["replace"@, "patch"@])),
        ("plan"@, object_with(seq![
            ("objective"@, typed("string"@)),
            ("tasks"@, array_of(object_with(seq![
                ("id"@, typed("string"@)),
                ("description"@, typed("string"@)),
                ("status"@, one_of(seq!["pending"@, "in_progress"@, "completed"@, "failed"@, "blocked"@, "skipped"@])),
                ("depends_on"@, array_of(typed("string"@))),
                ("tool_hint"@, typed("string"@)),
            ]))),
            ("updated_at"@, date_time()),
        ])),
        ("operations"@, array_of(object_with(seq![
            ("op"@, one_of(seq!["add_task"@, "update_status"@, "remove_task"@, "update_objective"@])),
            ("task_id"@, typed("string"@)),
            ("task"@, typed("object"@)),
            ("new_status"@, typed("string"@)),
            ("objective"@, typed("string"@)),
        ]))),
    ]);
    let required = vec!["type".to_owned()];
    assert(texts(required@) =~= seq!["type"@]);
    ToolDefinition {
        name: "update_plan".to_owned(),
        description: "Replace the current plan or patch it with incremental operations.".to_owned(),
        input_schema: make_object_requiring(required, properties),
    }
}

/// The tool `set_working_memory`.
pub open spec fn set_working_memory_tool() -> ToolDefinitionView {
    ToolDefinitionView {
        name: "set_working_memory"@,
        description: "Set or remove entries in working memory that persist across ticks."@,
        input_schema: object_requiring(seq!["ops"@], seq![
            ("ops"@, array_of(object_requiring(seq!["op"@, "key"@], seq![
                ("op"@, one_of(seq!["set"@, "remove"@])),
                ("key"@, typed("string"@)),
                ("value"@, typed("string"@)),
                ("ttl_ticks"@, integer_from(1)),
            ]))),
        ]),
    }
}

fn make_set_working_memory_tool() -> (t: ToolDefinition)
    ensures
        t@ == set_working_memory_tool(),
{
    let kinds = vec!["set".to_owned(), "remove".to_owned()];
    assert(texts(kinds@) =~= seq!["set"@, "remove"@]);
    let change = vec![
        member("op", make_one_of(kinds)),
        member("key", make_typed("string")),
        member("value", make_typed("string")),
        member("ttl_ticks", make_integer_from(1)),
    ];
    assert(member_views(change@) =~= seq![
        ("op"@, one_of(seq!["set"@, "remove"@])),
        ("key"@, typed("string"@)),
        ("value"@, typed("string"@)),
        ("ttl_ticks"@, integer_from(1)),
    ]);
    let change_required = vec!["op".to_owned(), "key".to_owned()];
    assert(texts(change_required@) =~= seq!["op"@, "key"@]);
    let properties = vec![
        member("ops", make_array_of(make_object_requiring(change_required, change))),
    ];
    assert(member_views(properties@) =~= seq![
        ("ops"@, array_of(object_requiring(seq!["op"@, "key"@], seq![
            ("op"@, one_of(seq!["set"@, "remove"@])),
            ("key"@, typed("string"@)),
            ("value"@, typed("string"@)),
            ("ttl_ticks"@, integer_from(1)),
        ]))),
    ]);
    let required = vec!["ops".to_owned()];
    assert(texts(required@) =~= seq!["ops"@]);
    ToolDefinition {
        name: "set_working_memory".to_owned(),
        description: "Set or remove entries in working memory that persist across ticks.".to_owned(),
        input_schema: make_object_requiring(required, properties),
    }
}

/// The tool `save_memory_note`.
pub open spec fn save_memory_note_tool() -> ToolDefinitionView {
    ToolDefinitionView {
        name: "save_memory_note"@,
        description: "Store an episodic memory note describing an observation worth keeping."@,
        input_schema: object_requiring(seq!["note"@], seq![
            ("note"@, typed("string"@)),
        ]),
    }
}

fn make_save_memory_note_tool() -> (t: ToolDefinition)
    ensures
        t@ == save_memory_note_tool(),
{
    let properties = vec![
        member("note", make_typed("string")),
    ];
    assert(member_views(properties@) =~= seq![
        ("note"@, typed("string"@)),
    ]);
    let required = vec!["note".to_owned()];
    assert(texts(required@) =~= seq!["note"@]);
    ToolDefinition {
        name: "save_memory_note".to_owned(),
        description: "Store an episodic memory note describing an observation worth keeping.".to_owned(),
        input_schema: make_object_requiring(required, properties),
    }
}

/// The tool `propose_watch`.
pub open spec fn propose_watch_tool() -> ToolDefinitionView {
    ToolDefinitionView {
        name: "propose_watch"@,
        description: "Propose a persistent watch that should be reviewed by Align."@,
        input_schema: object_requiring(seq!["name"@, "description"@, "watch_type"@, "schedule"@], seq![
            ("name"@, typed("string"@)),
            ("description"@, typed("string"@)),
            ("watch_type"@, described("object"@, "Tagged watch type (field \"type\" selects variant). Threshold example: {\"type\": \"threshold\", \"metric\": {\"metric\": \"budget_remaining\", \"dimension\": \"frontier_tokens\"}, \"condition\": {\"op\": \"below\", \"value\": 100}}. Poll example: {\"type\": \"poll\", \"connector\": \"http.request\", \"params\": {\"url\": \"https://example.com/health\"}, \"extract\": \"status\", \"condition\": {\"op\": \"above\", \"value\": 500}}. Metric variants: trust_level (principal_id), budget_remaining (dimension), consecutive_failures, tick_duration, event_count (event_type, lookback_ticks). Condition ops: above (value), below (value), changed."@)),
            ("schedule"@, described("object"@, "Tagged schedule (field \"type\" selects variant). Examples: {\"type\": \"every_n_ticks\", \"n\": 5} or {\"type\": \"once\"}."@)),
        ]),
    }
}

fn make_propose_watch_tool() -> (t: ToolDefinition)
    ensures
        t@ == propose_watch_tool(),
{
    let properties = vec![
        member("name", make_typed("string")),
        member("description", make_typed("string")),
        member("watch_type", make_described("object", "Tagged watch type (field \"type\" selects variant). Threshold example: {\"type\": \"threshold\", \"metric\": {\"metric\": \"budget_remaining\", \"dimension\": \"frontier_tokens\"}, \"condition\": {\"op\": \"below\", \"value\": 100}}. Poll example: {\"type\": \"poll\", \"connector\": \"http.request\", \"params\": {\"url\": \"https://example.com/health\"}, \"extract\": \"status\", \"condition\": {\"op\": \"above\", \"value\": 500}}. Metric variants: trust_level (principal_id), budget_remaining (dimension), consecutive_failures, tick_duration, event_count (event_type, lookback_ticks). Condition ops: above (value), below (value), changed.")),
        member("schedule", make_described("object", "Tagged schedule (field \"type\" selects variant). Examples: {\"type\": \"every_n_ticks\", \"n\": 5} or {\"type\": \"once\"}.")),
    ];
    assert(member_views(properties@) =~= seq![
        ("name"@, typed("string"@)),
        ("description"@, typed("string"@)),
        ("watch_type"@, described("object"@, "Tagged watch type (field \"type\" selects variant). Threshold example: {\"type\": \"threshold\", \"metric\": {\"metric\": \"budget_remaining\", \"dimension\": \"frontier_tokens\"}, \"condition\": {\"op\": \"below\", \"value\": 100}}. Poll example: {\"type\": \"poll\", \"connector\": \"http.request\", \"params\": {\"url\": \"https://example.com/health\"}, \"extract\": \"status\", \"condition\": {\"op\": \"above\", \"value\": 500}}. Metric variants: trust_level (principal_id), budget_remaining (dimension), consecutive_failures, tick_duration, event_count (event_type, lookback_ticks). Condition ops: above (value), below (value), changed."@)),
        ("schedule"@, described("object"@, "Tagged schedule (field \"type\" selects variant). Examples: {\"type\": \"every_n_ticks\", \"n\": 5} or {\"type\": \"once\"}."@)),
    ]);
    let required = vec!["name".to_owned(), "description".to_owned(), "watch_type".to_owned(), "schedule".to_owned()];
    assert(texts(required@) =~= seq!["name"@, "description"@, "watch_type"@, "schedule"@]);
    ToolDefinition {
        name: "propose_watch".to_owned(),
        description: "Propose a persistent watch that should be reviewed by Align.".to_owned(),
        input_schema: make_object_requiring(required, properties),
    }
}

/// The tool `request_vessel_mode`.
pub open spec fn request_vessel_mode_tool() -> ToolDefinitionView {
    ToolDefinitionView {
        name: "request_vessel_mode"@,
        description: "Request a vessel mode transition to planning, executing, or normal."@,
        input_schema: object_requiring(seq!["mode"@], seq![
            ("mode"@, one_of(seq!["planning"@, "executing"@, "normal"@])),
        ]),
    }
}

fn make_request_vessel_mode_tool() -> (t: ToolDefinition)
    ensures
        t@ == request_vessel_mode_tool(),
{
    let values = vec!["planning".to_owned(), "executing".to_owned(), "normal".to_owned()];
    assert(texts(values@) =~= seq!["planning"@, "executing"@, "normal"@]);
    let properties = vec![
        member("mode", make_one_of(values)),
    ];
    assert(member_views(properties@) =~= seq![
        ("mode"@, one_of(seq!["planning"@, "executing"@, "normal"@])),
    ]);
    let required = vec!["mode".to_owned()];
    assert(texts(required@) =~= seq!["mode"@]);
    ToolDefinition {
        name: "request_vessel_mode".to_owned(),
        description: "Request a vessel mode transition to planning, executing, or normal.".to_owned(),
        input_schema: make_object_requiring(required, properties),
    }
}

/// The tool `reply_to_user`.
pub open spec fn reply_to_user_tool() -> ToolDefinitionView {
    ToolDefinitionView {
        name: "reply_to_user"@,
        description: "Send a direct conversational reply to the user."@,
        input_schema: object_requiring(seq!["message"@], seq![
            ("message"@, typed("string"@)),
        ]),
    }
}

fn make_reply_to_user_tool() -> (t: ToolDefinition)
    ensures
        t@ == reply_to_user_tool(),
{
    let properties = vec![
        member("message", make_typed("string")),
    ];
    assert(member_views(properties@) =~= seq![
        ("message"@, typed("string"@)),
    ]);
    let required = vec!["message".to_owned()];
    assert(texts(required@) =~= seq!["message"@]);
    ToolDefinition {
        name: "reply_to_user".to_owned(),
        description: "Send a direct conversational reply to the user.".to_owned(),
        input_schema: make_object_requiring(required, properties),
    }
}

/// The tool `introspect_tick_history`.
pub open spec fn introspect_tick_history_tool() -> ToolDefinitionView {
    ToolDefinitionView {
        name: "introspect_tick_history"@,
        description: "Query recent ticks with action counts, success rates, and token usage."@,
        input_schema: object_with(seq![
            ("limit"@, limit_with(10)),
        ]),
    }
}

fn make_introspect_tick_history_tool() -> (t: ToolDefinition)
    ensures
        t@ == introspect_tick_history_tool(),
{
    let properties = vec![
        member("limit", make_limit_with(10)),
    ];
    assert(member_views(properties@) =~= seq![
        ("limit"@, limit_with(10)),
    ]);
    ToolDefinition {
        name: "introspect_tick_history".to_owned(),
        description: "Query recent ticks with action counts, success rates, and token usage.".to_owned(),
        input_schema: make_object_with(properties),
    }
}

/// The tool `introspect_budget_status`.
pub open spec fn introspect_budget_status_tool() -> ToolDefinitionView {
    ToolDefinitionView {
        name: "introspect_budget_status"@,
        description: "Query current cognitive budget consumption and remaining allowance."@,
        input_schema: object_with(Seq::empty()),
    }
}

fn make_introspect_budget_status_tool() -> (t: ToolDefinition)
    ensures
        t@ == introspect_budget_status_tool(),
{
    let properties: Vec<(String, Json)> = Vec::new();
    assert(member_views(properties@) =~= Seq::<(Seq<char>, JsonView)>::empty());
    ToolDefinition {
        name: "introspect_budget_status".to_owned(),
        description: "Query current cognitive budget consumption and remaining allowance.".to_owned(),
        input_schema: make_object_with(properties),
    }
}

/// The tool `introspect_thread_status`.
pub open spec fn introspect_thread_status_tool() -> ToolDefinitionView {
    ToolDefinitionView {
        name: "introspect_thread_status"@,
        description: "Query registered threads with their statuses and recent outputs."@,
        input_schema: object_with(Seq::empty()),
    }
}

fn make_introspect_thread_status_tool() -> (t: ToolDefinition)
    ensures
        t@ == introspect_thread_status_tool(),
{
    let properties: Vec<(String, Json)> = Vec::new();
    assert(member_views(properties@) =~= Seq::<(Seq<char>, JsonView)>::empty());
    ToolDefinition {
        name: "introspect_thread_status".to_owned(),
        description: "Query registered threads with their statuses and recent outputs.".to_owned(),
        input_schema: make_object_with(properties),
    }
}

/// The tool `introspect_memory_search`.
pub open spec fn introspect_memory_search_tool() -> ToolDefinitionView {
    ToolDefinitionView {
        name: "introspect_memory_search"@,
        description: "Search episodic memory by topic and optional tags."@,
        input_schema: object_with(seq![
            ("topic"@, typed("string"@)),
            ("tags"@, array_of(typed("string"@))),
        ]),
    }
}

fn make_introspect_memory_search_tool() -> (t: ToolDefinition)
    ensures
        t@ == introspect_memory_search_tool(),
{
    let properties = vec![
        member("topic", make_typed("string")),
        member("tags", make_array_of(make_typed("string"))),
    ];
    assert(member_views(properties@) =~= seq![
        ("topic"@, typed("string"@)),
        ("tags"@, array_of(typed("string"@))),
    ]);
    ToolDefinition {
        name: "introspect_memory_search".to_owned(),
        description: "Search episodic memory by topic and optional tags.".to_owned(),
        input_schema: make_object_with(properties),
    }
}

/// The tool `introspect_trust_scores`.
pub open spec fn introspect_trust_scores_tool() -> ToolDefinitionView {
    ToolDefinitionView {
        name: "introspect_trust_scores"@,
        description: "Query current trust levels for known principals."@,
        input_schema: object_with(Seq::empty()),
    }
}

fn make_introspect_trust_scores_tool() -> (t: ToolDefinition)
    ensures
        t@ == introspect_trust_scores_tool(),
{
    let properties: Vec<(String, Json)> = Vec::new();
    assert(member_views(properties@) =~= Seq::<(Seq<char>, JsonView)>::empty());
    ToolDefinition {
        name: "introspect_trust_scores".to_owned(),
        description: "Query current trust levels for known principals.".to_owned(),
        input_schema: make_object_with(properties),
    }
}

/// The tool `introspect_connector_details`.
pub open spec fn introspect_connector_details_tool() -> ToolDefinitionView {
    ToolDefinitionView {
        name: "introspect_connector_details"@,
        description: "Look up the full descriptor for a named connector."@,
        input_schema: object_requiring(seq!["name"@], seq![
            ("name"@, typed("string"@)),
        ]),
    }
}

fn make_introspect_connector_details_tool() -> (t: ToolDefinition)
    ensures
        t@ == introspect_connector_details_tool(),
{
    let properties = vec![
        member("name", make_typed("string")),
    ];
    assert(member_views(properties@) =~= seq![
        ("name"@, typed("string"@)),
    ]);
    let required = vec!["name".to_owned()];
    assert(texts(required@) =~= seq!["name"@]);
    ToolDefinition {
        name: "introspect_connector_details".to_owned(),
        description: "Look up the full descriptor for a named connector.".to_owned(),
        input_schema: make_object_requiring(required, properties),
    }
}

/// The tool `introspect_watch_list`.
pub open spec fn introspect_watch_list_tool() -> ToolDefinitionView {
    ToolDefinitionView {
        name: "introspect_watch_list"@,
        description: "List all active watches and their current status."@,
        input_schema: object_with(Seq::empty()),
    }
}

fn make_introspect_watch_list_tool() -> (t: ToolDefinition)
    ensures
        t@ == introspect_watch_list_tool(),
{
    let properties: Vec<(String, Json)> = Vec::new();
    assert(member_views(properties@) =~= Seq::<(Seq<char>, JsonView)>::empty());
    ToolDefinition {
        name: "introspect_watch_list".to_owned(),
        description: "List all active watches and their current status.".to_owned(),
        input_schema: make_object_with(properties),
    }
}

/// The tool `introspect_event_history`.
pub open spec fn introspect_event_history_tool() -> ToolDefinitionView {
    ToolDefinitionView {
        name: "introspect_event_history"@,
        description: "Query recent events, optionally filtered by event type."@,
        input_schema: object_with(seq![
            ("event_type"@, typed("string"@)),
            ("limit"@, limit_with(20)),
        ]),
    }
}

fn make_introspect_event_history_tool() -> (t: ToolDefinition)
    ensures
        t@ == introspect_event_history_tool(),
{
    let properties = vec![
        member("event_type", make_typed("string")),
        member("limit", make_limit_with(20)),
    ];
    assert(member_views(properties@) =~= seq![
        ("event_type"@, typed("string"@)),
        ("limit"@, limit_with(20)),
    ]);
    ToolDefinition {
        name: "introspect_event_history".to_owned(),
        description: "Query recent events, optionally filtered by event type.".to_owned(),
        input_schema: make_object_with(properties),
    }
}

/// The tools that change the mind of the vessel: they are carried out inside the kernel.
pub open spec fn cognitive_definitions() -> Seq<ToolDefinitionView> {
    seq![
        update_plan_tool(),
        set_working_memory_tool(),
        save_memory_note_tool(),
        propose_watch_tool(),
        request_vessel_mode_tool(),
        reply_to_user_tool(),
    ]
}

/// The tools that change the mind of the vessel: they are carried out inside the kernel.
pub fn cognitive_tool_definitions() -> (r: Vec<ToolDefinition>)
    ensures
        definition_views(r@) == cognitive_definitions(),
{
    let r = vec![
        make_update_plan_tool(),
        make_set_working_memory_tool(),
        make_save_memory_note_tool(),
        make_propose_watch_tool(),
        make_request_vessel_mode_tool(),
        make_reply_to_user_tool(),
    ];
    assert(definition_views(r@) =~= cognitive_definitions());
    r
}

/// The tools with which the vessel looks at itself.
pub open spec fn introspection_definitions() -> Seq<ToolDefinitionView> {
    seq![
        introspect_tick_history_tool(),
        introspect_budget_status_tool(),
        introspect_thread_status_tool(),
        introspect_memory_search_tool(),
        introspect_trust_scores_tool(),
        introspect_connector_details_tool(),
        introspect_watch_list_tool(),
        introspect_event_history_tool(),
    ]
}

/// The tools with which the vessel looks at itself.
pub fn introspection_tool_definitions() -> (r: Vec<ToolDefinition>)
    ensures
        definition_views(r@) == introspection_definitions(),
{
    let r = vec![
        make_introspect_tick_history_tool(),
        make_introspect_budget_status_tool(),
        make_introspect_thread_status_tool(),
        make_introspect_memory_search_tool(),
        make_introspect_trust_scores_tool(),
        make_introspect_connector_details_tool(),
        make_introspect_watch_list_tool(),
        make_introspect_event_history_tool(),
    ];
    assert(definition_views(r@) =~= introspection_definitions());
    r
}

// ---------------------------------------------------------------------------
// Names
// ---------------------------------------------------------------------------

/// `name` is the name of one of the definitions.
pub open spec fn names_one(list: Seq<ToolDefinitionView>, name: Seq<char>) -> bool {
    exists|i: int| 0 <= i < list.len() && (#[trigger] list[i]).name == name
}

/// The names of the cognitive tools.
pub open spec fn is_cognitive(name: Seq<char>) -> bool {
    name == "update_plan"@ || name == "set_working_memory"@ || name == "save_memory_note"@ || name
        == "propose_watch"@ || name == "request_vessel_mode"@ || name == "reply_to_user"@
}

/// Tells whether a tool is carried out inside the kernel.
pub fn is_cognitive_tool(name: &str) -> (r: bool)
    ensures
        r == is_cognitive(name@),
{
    str_eq(name, "update_plan") || str_eq(name, "set_working_memory") || str_eq(
        name,
        "save_memory_note",
    ) || str_eq(name, "propose_watch") || str_eq(name, "request_vessel_mode") || str_eq(
        name,
        "reply_to_user",
    )
}

/// The names of the introspection tools.
pub open spec fn is_introspective(name: Seq<char>) -> bool {
    name == "introspect_tick_history"@ || name == "introspect_budget_status"@ || name
        == "introspect_thread_status"@ || name == "introspect_memory_search"@ || name
        == "introspect_trust_scores"@ || name == "introspect_connector_details"@ || name
        == "introspect_watch_list"@ || name == "introspect_event_history"@
}

/// Tells whether the vessel looks at itself with a tool.
pub fn is_introspection_tool(name: &str) -> (r: bool)
    ensures
        r == is_introspective(name@),
{
    str_eq(name, "introspect_tick_history") || str_eq(name, "introspect_budget_status") || str_eq(
        name,
        "introspect_thread_status",
    ) || str_eq(name, "introspect_memory_search") || str_eq(name, "introspect_trust_scores")
        || str_eq(name, "introspect_connector_details") || str_eq(name, "introspect_watch_list")
        || str_eq(name, "introspect_event_history")
}

/// The cognitive tools are exactly those that are defined.
pub proof fn cognitive_tools_are_defined(name: Seq<char>)
    ensures
        is_cognitive(name) <==> names_one(cognitive_definitions(), name),
{
    let list = cognitive_definitions();
    if name == "update_plan"@ {
        assert(list[0].name == name);
    } else if name == "set_working_memory"@ {
        assert(list[1].name == name);
    } else if name == "save_memory_note"@ {
        assert(list[2].name == name);
    } else if name == "propose_watch"@ {
        assert(list[3].name == name);
    } else if name == "request_vessel_mode"@ {
        assert(list[4].name == name);
    } else if name == "reply_to_user"@ {
        assert(list[5].name == name);
    }
}

/// The introspection tools are exactly those that are defined.
pub proof fn introspection_tools_are_defined(name: Seq<char>)
    ensures
        is_introspective(name) <==> names_one(introspection_definitions(), name),
{
    let list = introspection_definitions();
    if name == "introspect_tick_history"@ {
        assert(list[0].name == name);
    } else if name == "introspect_budget_status"@ {
        assert(list[1].name == name);
    } else if name == "introspect_thread_status"@ {
        assert(list[2].name == name);
    } else if name == "introspect_memory_search"@ {
        assert(list[3].name == name);
    } else if name == "introspect_trust_scores"@ {
        assert(list[4].name == name);
    } else if name == "introspect_connector_details"@ {
        assert(list[5].name == name);
    } else if name == "introspect_watch_list"@ {
        assert(list[6].name == name);
    } else if name == "introspect_event_history"@ {
        assert(list[7].name == name);
    }
}

/// No tool belongs to two of the groups: the cognitive, the introspective and the virtual
/// tools.
pub proof fn tool_groups_are_apart(name: Seq<char>)
    ensures
        !(is_cognitive(name) && is_introspective(name)),
        !(is_cognitive(name) && is_virtual(name)),
        !(is_introspective(name) && is_virtual(name)),
{
    reveal_strlit("agent.ask_user");
    reveal_strlit("peer.resolve");
    reveal_strlit("update_plan");
    reveal_strlit("set_working_memory");
    reveal_strlit("save_memory_note");
    reveal_strlit("propose_watch");
    reveal_strlit("request_vessel_mode");
    reveal_strlit("reply_to_user");
    reveal_strlit("introspect_tick_history");
    reveal_strlit("introspect_budget_status");
    reveal_strlit("introspect_thread_status");
    reveal_strlit("introspect_memory_search");
    reveal_strlit("introspect_trust_scores");
    reveal_strlit("introspect_connector_details");
    reveal_strlit("introspect_watch_list");
    reveal_strlit("introspect_event_history");
    if is_introspective(name) {
        assert(name[0] == 'i');
    }
    if is_cognitive(name) {
        assert(name[0] == 'u' || name[0] == 's' || name[0] == 'p' || name[0] == 'r');
        assert(name[0] == 'p' ==> name[1] == 'r');
    }
    if is_virtual(name) {
        assert(name[0] == 'a' || (name[0] == 'p' && name[1] == 'e'));
    }
}

} // verus!
