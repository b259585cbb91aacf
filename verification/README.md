# exoskeleton_host

The core of an agent host, verified with Verus.

A vessel runs in ticks. A tick perceives what came in, orients itself, decides with the
help of a language model, aligns its actions with its relationships, acts, reflects and
amends its state. The library holds what is decided and computed on the way, and the
wire formats of the language models. Stores, tools, HTTP and files stay outside.

- `src/` is the library. Every function states what it returns; properties of several
  functions together are public proof functions.
- `tests/` runs the library on concrete values.
- `app/` drives the library: it performs the requests of the state machines and hands
  the answers back.

The main modules:

| Modules | What they hold |
| --- | --- |
| `tick`, `session`, `act`, `amend_run`, `decide` | the state machines of a tick |
| `perceive`, `orient`, `align`, `settle`, `reflect`, `amend` | the steps of a tick |
| `threads`, `exec_threads`, `watches` | what runs beside the steps |
| `memory`, `compaction`, `diff_tracker`, `context_window` | what is remembered and shown |
| `tools`, `tool_defs`, `virtual_tools`, `policy` | the tools and the rules for them |
| `http`, `chat`, `openai`, `openai_stream`, `anthropic`, `anthropic_stream`, `ollama`, `tool_names` | the wire formats |
| `direct`, `client`, `requests`, `mock` | calls of a model |
| `metrics`, `metric_ids`, `prompts`, `git_context`, `repo_analysis` | the surroundings |
| `json`, `decode`, `encode`, `decision_json`, `proposals`, `schema`, `text`, `types`, `llm` | the ground |
