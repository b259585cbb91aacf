//! The requests that the steps of a tick make to a language model.

use vstd::prelude::*;
use vstd::string::*;

use crate::http::llm_error;
use crate::llm::{
    block_views, message_views, text_message, LlmBackend, LlmMessage, LlmRequest, LlmRole,
};
use crate::tool_defs::{definition_views, ToolDefinition};
use crate::types::{ContentBlock, ExoError};

verus! {

impl Clone for LlmMessage {
    fn clone(&self) -> (r: Self)
        ensures
            r@ == self@,
    {
        let mut content: Vec<ContentBlock> = Vec::new();
        let mut i: usize = 0;
        while i < self.content.len()
            invariant
                i <= self.content@.len(),
                content@.len() == i,
                forall|k: int| 0 <= k < i ==> (#[trigger] content@[k])@ == self.content@[k]@,
            decreases self.content@.len() - i,
        {
            content.push(self.content[i].clone());
            i = i + 1;
        }
        assert(block_views(content@) =~= block_views(self.content@));
        LlmMessage { role: self.role, content }
    }
}

impl Clone for ToolDefinition {
    fn clone(&self) -> (r: Self)
        ensures
            r@ == self@,
    {
        ToolDefinition {
            name: self.name.clone(),
            description: self.description.clone(),
            input_schema: self.input_schema.clone(),
        }
    }
}

/// Copies a list of messages.
pub fn clone_messages(messages: &Vec<LlmMessage>) -> (r: Vec<LlmMessage>)
    ensures
        message_views(r@) == message_views(messages@),
{
    let mut out: Vec<LlmMessage> = Vec::new();
    let mut i: usize = 0;
    while i < messages.len()
        invariant
            i <= messages@.len(),
            out@.len() == i,
            forall|k: int| 0 <= k < i ==> (#[trigger] out@[k])@ == messages@[k]@,
        decreases messages@.len() - i,
    {
        out.push(messages[i].clone());
        i = i + 1;
    }
    assert(message_views(out@) =~= message_views(messages@));
    out
}

/// Copies a list of tool definitions.
pub fn clone_tools(tools: &Vec<ToolDefinition>) -> (r: Vec<ToolDefinition>)
    ensures
        definition_views(r@) == definition_views(tools@),
{
    let mut out: Vec<ToolDefinition> = Vec::new();
    let mut i: usize = 0;
    while i < tools.len()
        invariant
            i <= tools@.len(),
            out@.len() == i,
            forall|k: int| 0 <= k < i ==> (#[trigger] out@[k])@ == tools@[k]@,
        decreases tools@.len() - i,
    {
        out.push(tools[i].clone());
        i = i + 1;
    }
    assert(definition_views(out@) =~= definition_views(tools@));
    out
}

/// Builds the request of a turn of the Decide step.
pub fn decide_request(
    system_prompt: &str,
    messages: &Vec<LlmMessage>,
    backend: LlmBackend,
    max_output_tokens: u64,
    tools: &Vec<ToolDefinition>,
) -> (q: LlmRequest)
    ensures
        q.backend == Some(backend),
        q.system_prompt matches Some(t) && t@ == system_prompt@,
        message_views(q.messages@) == message_views(messages@),
        q.max_output_tokens == max_output_tokens,
        q.temperature matches Some(t) && t@ == "0.7"@,
        q.stop_sequences@.len() == 0,
        q.stream,
        definition_views(q.tools@) == definition_views(tools@),
{
    LlmRequest {
        backend: Some(backend),
        system_prompt: Some(system_prompt.to_owned()),
        messages: clone_messages(messages),
        max_output_tokens,
        temperature: Some("0.7".to_owned()),
        stop_sequences: Vec::new(),
        stream: true,
        tools: clone_tools(tools),
    }
}

/// Builds the request of a further decision within a session. It goes to the default
/// backend.
pub fn decide_lite_request(
    system_prompt: String,
    messages: Vec<LlmMessage>,
    max_output_tokens: u64,
) -> (q: LlmRequest)
    ensures
        q.backend is None,
        q.system_prompt == Some(system_prompt),
        q.messages == messages,
        q.max_output_tokens == max_output_tokens,
        q.temperature matches Some(t) && t@ == "0.3"@,
        q.stop_sequences@.len() == 0,
        q.stream,
        q.tools@.len() == 0,
{
    LlmRequest {
        backend: None,
        system_prompt: Some(system_prompt),
        messages,
        max_output_tokens,
        temperature: Some("0.3".to_owned()),
        stop_sequences: Vec::new(),
        stream: true,
        tools: Vec::new(),
    }
}

/// What a coding thread is told if it has no system prompt of its own.
pub open spec fn default_coding_prompt() -> Seq<char> {
    "You are an executable coding thread. Maintain local work state and propose at most one next external action as JSON."@
}

/// Builds the request of a coding thread. It may use half of the tokens.
pub fn coding_request(
    system_prompt: Option<String>,
    prompt: &str,
    backend: LlmBackend,
    max_output_tokens: u64,
) -> (q: LlmRequest)
    ensures
        q.backend == Some(backend),
        q.system_prompt matches Some(t) && t@ == match system_prompt {
            Some(s) => s@,
            None => default_coding_prompt(),
        },
        message_views(q.messages@) == seq![text_message(LlmRole::User, prompt@)],
        q.max_output_tokens == max_output_tokens / 2,
        q.temperature matches Some(t) && t@ == "0.3"@,
        q.stop_sequences@.len() == 0,
        !q.stream,
        q.tools@.len() == 0,
{
    let system = match system_prompt {
        Some(s) => s,
        None => "You are an executable coding thread. Maintain local work state and propose at most one next external action as JSON.".to_owned(),
    };
    let messages = vec![LlmMessage::text(LlmRole::User, prompt)];
    assert(message_views(messages@) =~= seq![text_message(LlmRole::User, prompt@)]);
    LlmRequest {
        backend: Some(backend),
        system_prompt: Some(system),
        messages,
        max_output_tokens: max_output_tokens / 2,
        temperature: Some("0.3".to_owned()),
        stop_sequences: Vec::new(),
        stream: false,
        tools: Vec::new(),
    }
}

/// Builds the request of the Reflect step. It may use half of the tokens.
pub fn reflect_request(system_prompt: String, message: &str, max_output_tokens: u64) -> (q:
    LlmRequest)
    ensures
        q.backend is None,
        q.system_prompt == Some(system_prompt),
        message_views(q.messages@) == seq![text_message(LlmRole::User, message@)],
        q.max_output_tokens == max_output_tokens / 2,
        q.temperature matches Some(t) && t@ == "0.3"@,
        q.stop_sequences@.len() == 0,
        !q.stream,
        q.tools@.len() == 0,
{
    let messages = vec![LlmMessage::text(LlmRole::User, message)];
    assert(message_views(messages@) =~= seq![text_message(LlmRole::User, message@)]);
    LlmRequest {
        backend: None,
        system_prompt: Some(system_prompt),
        messages,
        max_output_tokens: max_output_tokens / 2,
        temperature: Some("0.3".to_owned()),
        stop_sequences: Vec::new(),
        stream: false,
        tools: Vec::new(),
    }
}

/// Chooses the backend of the Reflect step: the local one if there is one. There is no
/// escalation.
pub fn reflect_backend(has_local: bool, has_frontier: bool) -> (r: Result<LlmBackend, ExoError>)
    ensures
        match r {
            Ok(b) => b == if has_local {
                LlmBackend::Local
            } else {
                LlmBackend::Frontier
            } && (has_local || has_frontier),
            Err(ExoError::LlmInvocation(m)) => !has_local && !has_frontier && m@
                == "no LLM backend configured"@,
            Err(_) => false,
        },
{
    if has_local {
        Ok(LlmBackend::Local)
    } else if has_frontier {
        Ok(LlmBackend::Frontier)
    } else {
        Err(llm_error("no LLM backend configured"))
    }
}

} // verus!
