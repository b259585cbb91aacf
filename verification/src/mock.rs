//! Backends with prepared responses, which count their calls.

use vstd::prelude::*;
use vstd::string::*;

use crate::llm::{block_views, BlockView, LlmBackend, LlmRequest, LlmResponse, LlmResponseView, StopReason};
use crate::types::{ContentBlock, ExoError};

verus! {

/// A backend that always gives the same response, or always fails.
#[derive(Debug)]
pub struct MockLlmBackend {
    pub response: LlmResponse,
    pub calls: u64,
    pub should_fail: bool,
    pub failure_message: String,
}

/// The response of a backend for which none was prepared.
pub open spec fn default_view() -> LlmResponseView {
    LlmResponseView {
        content_blocks: seq![BlockView::Text { text: "Mock LLM response."@ }],
        model: "mock-model"@,
        tokens_in: 10,
        tokens_out: 5,
        latency_ms: 100,
        stop_reason: StopReason::EndTurn,
        cost_micros: None,
        backend: LlmBackend::Local,
    }
}

/// The response of a backend for which none was prepared.
pub fn default_mock_response() -> (r: LlmResponse)
    ensures
        r@ == default_view(),
{
    let content_blocks = vec![ContentBlock::Text { text: "Mock LLM response.".to_owned() }];
    assert(block_views(content_blocks@) =~= seq![BlockView::Text { text: "Mock LLM response."@ }]);
    LlmResponse {
        content_blocks,
        model: "mock-model".to_owned(),
        tokens_in: 10,
        tokens_out: 5,
        latency_ms: 100,
        stop_reason: StopReason::EndTurn,
        cost_micros: None,
        backend: LlmBackend::Local,
    }
}

/// The number of calls after one more. The counter starts again at zero when it is full.
pub open spec fn one_more(calls: u64) -> u64 {
    if calls == u64::MAX {
        0
    } else {
        (calls + 1) as u64
    }
}

fn count_call(calls: u64) -> (r: u64)
    ensures
        r == one_more(calls),
{
    if calls == u64::MAX {
        0
    } else {
        calls + 1
    }
}

impl MockLlmBackend {
    /// A backend that gives a response.
    pub fn new(response: LlmResponse) -> (b: MockLlmBackend)
        ensures
            b.response == response,
            b.calls == 0,
            !b.should_fail,
            b.failure_message@ == Seq::<char>::empty(),
    {
        MockLlmBackend { response, calls: 0, should_fail: false, failure_message: String::new() }
    }

    /// A backend that always fails with a message.
    pub fn failing(message: &str) -> (b: MockLlmBackend)
        ensures
            b.response@ == default_view(),
            b.calls == 0,
            b.should_fail,
            b.failure_message@ == message@,
    {
        MockLlmBackend {
            response: default_mock_response(),
            calls: 0,
            should_fail: true,
            failure_message: message.to_owned(),
        }
    }

    /// How often the backend was called.
    pub fn call_count(&self) -> (n: u64)
        ensures
            n == self.calls,
    {
        self.calls
    }

    /// Calls the backend. The request does not matter.
    pub fn call(&mut self, _request: &LlmRequest) -> (r: Result<LlmResponse, ExoError>)
        ensures
            match r {
                Ok(a) => !old(self).should_fail && a@ == old(self).response@,
                Err(e) => old(self).should_fail && e == ExoError::LlmInvocation(
                    old(self).failure_message,
                ),
            },
            *final(self) == (MockLlmBackend { calls: one_more(old(self).calls), ..*old(self) }),
    {
        self.calls = count_call(self.calls);
        if self.should_fail {
            Err(ExoError::LlmInvocation(self.failure_message.clone()))
        } else {
            Ok(self.response.clone())
        }
    }
}

/// A backend that gives its responses in turn, and then starts again.
#[derive(Debug)]
pub struct MockSequenceLlmBackend {
    pub responses: Vec<LlmResponse>,
    pub calls: u64,
}

impl MockSequenceLlmBackend {
    /// A backend that gives responses in turn.
    pub fn new(responses: Vec<LlmResponse>) -> (b: MockSequenceLlmBackend)
        requires
            responses@.len() > 0,
        ensures
            b.responses == responses,
            b.calls == 0,
    {
        MockSequenceLlmBackend { responses, calls: 0 }
    }

    /// How often the backend was called.
    pub fn call_count(&self) -> (n: u64)
        ensures
            n == self.calls,
    {
        self.calls
    }

    /// Calls the backend. The request does not matter.
    pub fn call(&mut self, _request: &LlmRequest) -> (r: Result<LlmResponse, ExoError>)
        requires
            old(self).responses@.len() > 0,
        ensures
            r matches Ok(a) && a@ == old(self).responses@[(old(self).calls as int) % (old(
                self,
            ).responses@.len() as int)]@,
            *final(self) == (MockSequenceLlmBackend {
                calls: one_more(old(self).calls),
                ..*old(self)
            }),
    {
        let n: u64 = self.responses.len() as u64;
        let index: usize = (self.calls % n) as usize;
        self.calls = count_call(self.calls);
        Ok(self.responses[index].clone())
    }
}

/// Calls that are a whole round apart get the same response.
pub proof fn responses_come_round(responses: Seq<LlmResponse>, calls: int)
    requires
        responses.len() > 0,
        calls >= 0,
    ensures
        responses[(calls + responses.len()) % (responses.len() as int)] == responses[calls % (
        responses.len() as int)],
{
    vstd::arithmetic::div_mod::lemma_mod_add_multiples_vanish(calls, responses.len() as int);
}

} // verus!
