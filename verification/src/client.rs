//! Calls of a language model through the queue of cognitive tasks.
//!
//! The queue is worked on outside. Here it is decided what the reports on a finished
//! task amount to.

use vstd::prelude::*;
use vstd::string::*;

use crate::direct::LlmConfig;
use crate::llm::{LlmBackend, LlmRequest};
use crate::types::ExoError;

verus! {

/// A client of the queue.
#[derive(Debug)]
pub struct LlmClient {
    pub default_backend: LlmBackend,
    pub max_output_tokens: u64,
}

impl LlmClient {
    /// A client with the settings of a configuration.
    pub fn new(config: &LlmConfig) -> (c: LlmClient)
        ensures
            c.default_backend == config.default_backend,
            c.max_output_tokens == config.max_output_tokens,
    {
        LlmClient {
            default_backend: config.default_backend,
            max_output_tokens: config.max_output_tokens,
        }
    }

    /// The backend that is used if none is asked for.
    pub fn default_backend(&self) -> (b: LlmBackend)
        ensures
            b == self.default_backend,
    {
        self.default_backend
    }

    /// How many tokens an answer may have if nothing is said of it.
    pub fn max_output_tokens(&self) -> (n: u64)
        ensures
            n == self.max_output_tokens,
    {
        self.max_output_tokens
    }

    /// The request for the default backend.
    pub fn for_default(&self, request: LlmRequest) -> (r: LlmRequest)
        ensures
            r == (LlmRequest { backend: Some(self.default_backend), ..request }),
    {
        LlmRequest { backend: Some(self.default_backend), ..request }
    }
}

/// How a run stands.
#[derive(Debug, PartialEq, Eq)]
pub enum RunStatus {
    Completed,
    Failed,
    /// Another state, by its name.
    Other(String),
}

/// What is known of an attempt.
#[derive(Debug)]
pub struct AttemptReport {
    pub error: Option<String>,
    pub output: Option<Vec<u8>>,
}

/// What is known of a run of a task.
#[derive(Debug)]
pub struct RunReport {
    pub status: RunStatus,
    /// The attempts, oldest first. Absent if no history is kept.
    pub attempts: Option<Vec<AttemptReport>>,
}

/// The error of the last attempt, if it is known.
pub open spec fn last_error(attempts: Option<Vec<AttemptReport>>) -> Option<Seq<char>> {
    match attempts {
        Some(list) => if list@.len() > 0 {
            crate::text::opt_text(list@.last().error)
        } else {
            None
        },
        None => None,
    }
}

/// The output of a run that was completed.
pub open spec fn completed_output(
    r: Result<Vec<u8>, ExoError>,
    attempts: Option<Vec<AttemptReport>>,
) -> bool {
    match attempts {
        None => r matches Err(ExoError::Engine(m)) && m@ == "no attempt history for run"@,
        Some(list) => if list@.len() == 0 {
            r matches Err(ExoError::Engine(m)) && m@ == "no attempts in history"@
        } else {
            match list@.last().output {
                None => r matches Err(ExoError::Engine(m)) && m@
                    == "task completed but no output"@,
                Some(bytes) => r matches Ok(b) && b@ == bytes@,
            }
        },
    }
}

/// What the reports on a task amount to: the last run counts. `runs` is absent if there
/// is no engine.
pub open spec fn task_output(
    r: Result<Vec<u8>, ExoError>,
    runs: Option<Vec<RunReport>>,
) -> bool {
    match runs {
        None => r matches Err(ExoError::Engine(m)) && m@ == "cognitive engine not available"@,
        Some(list) => if list@.len() == 0 {
            r matches Err(ExoError::Engine(m)) && m@ == "no runs found for task"@
        } else {
            match list@.last().status {
                RunStatus::Completed => completed_output(r, list@.last().attempts),
                RunStatus::Failed => r matches Err(ExoError::LlmInvocation(m)) && m@
                    == match last_error(list@.last().attempts) {
                    Some(e) => e,
                    None => "LLM task failed (check handler logs)"@,
                },
                RunStatus::Other(state) => r matches Err(ExoError::Engine(m)) && m@
                    == "unexpected run state: "@ + state@,
            }
        },
    }
}

fn take_output(attempts: Option<Vec<AttemptReport>>) -> (r: Result<Vec<u8>, ExoError>)
    ensures
        completed_output(r, attempts),
{
    let mut list = match attempts {
        Some(list) => list,
        None => {
            return Err(ExoError::Engine("no attempt history for run".to_owned()));
        },
    };
    match list.pop() {
        None => Err(ExoError::Engine("no attempts in history".to_owned())),
        Some(a) => match a.output {
            Some(bytes) => Ok(bytes),
            None => Err(ExoError::Engine("task completed but no output".to_owned())),
        },
    }
}

fn take_error(attempts: Option<Vec<AttemptReport>>) -> (r: Option<String>)
    ensures
        crate::text::opt_text(r) == last_error(attempts),
{
    match attempts {
        Some(list) => {
            let mut list = list;
            match list.pop() {
                Some(a) => a.error,
                None => None,
            }
        },
        None => None,
    }
}

/// Takes the output of a task from the reports on its runs, oldest first.
pub fn extract_response(runs: Option<Vec<RunReport>>) -> (r: Result<Vec<u8>, ExoError>)
    ensures
        task_output(r, runs),
{
    let mut list = match runs {
        Some(list) => list,
        None => {
            return Err(ExoError::Engine("cognitive engine not available".to_owned()));
        },
    };
    let run = match list.pop() {
        Some(run) => run,
        None => {
            return Err(ExoError::Engine("no runs found for task".to_owned()));
        },
    };
    match run.status {
        RunStatus::Completed => take_output(run.attempts),
        RunStatus::Failed => match take_error(run.attempts) {
            Some(e) => Err(ExoError::LlmInvocation(e)),
            None => Err(
                ExoError::LlmInvocation("LLM task failed (check handler logs)".to_owned()),
            ),
        },
        RunStatus::Other(state) => {
            let mut m = "unexpected run state: ".to_owned();
            m.append(state.as_str());
            Err(ExoError::Engine(m))
        },
    }
}

/// A task yields an output only if its last run was completed.
pub proof fn only_completed_runs_answer(output: Vec<u8>, runs: Vec<RunReport>)
    requires
        task_output(Ok(output), Some(runs)),
    ensures
        runs@.len() > 0,
        runs@.last().status is Completed,
{
}

} // verus!
