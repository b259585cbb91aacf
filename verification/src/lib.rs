//! Verified core of an agent host: the tick kernel, its tools and policies, and
//! the wire formats of its language-model backends.

pub mod act;
pub mod align;
pub mod amend;
pub mod amend_run;
pub mod anthropic;
pub mod anthropic_stream;
pub mod chat;
pub mod client;
pub mod compaction;
pub mod context_laws;
pub mod context_window;
pub mod decide;
pub mod decision_json;
pub mod decode;
pub mod diff_tracker;
pub mod direct;
pub mod encode;
pub mod exec_threads;
pub mod git_context;
pub mod http;
pub mod inner_loop;
pub mod json;
pub mod llm;
pub mod memory;
pub mod metric_ids;
pub mod metrics;
pub mod mock;
pub mod ollama;
pub mod openai;
pub mod openai_stream;
pub mod orient;
pub mod perceive;
pub mod policy;
pub mod prompts;
pub mod proposals;
pub mod reading_laws;
pub mod reflect;
pub mod repo_analysis;
pub mod requests;
pub mod run_laws;
pub mod schema;
pub mod session;
pub mod settle;
pub mod step_laws;
pub mod stream_laws;
pub mod text;
pub mod text_laws;
pub mod threads;
pub mod tick;
pub mod tool_defs;
pub mod tool_laws;
pub mod tool_names;
pub mod tools;
pub mod types;
pub mod virtual_tools;
pub mod watches;
pub mod wire_laws;
pub mod work_laws;
