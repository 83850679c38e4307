//! Settings of one run.

use vstd::prelude::*;

use crate::duration::Duration;
use crate::ids::RunId;
use crate::message::SystemPrompt;
use crate::request::DEFAULT_MAX_TOKENS;

verus! {

/// Turns that a run may take unless set otherwise: a brake against endless loops, not a budget.
pub const DEFAULT_MAX_ITERATIONS: usize = 25;

/// Settings of one run.
#[derive(Debug)]
pub struct RunConfig {
    /// Instructions in front of the conversation.
    pub system_prompt: Option<SystemPrompt>,
    /// Number of turns after which the run is aborted.
    pub max_iterations: usize,
    /// Cap on the output tokens of each turn.
    pub max_tokens: u32,
    /// Id of the run; without one, a fresh id is made.
    pub run_id: Option<RunId>,
    /// Time that the whole run may take.
    pub timeout: Option<Duration>,
}

impl Default for RunConfig {
    fn default() -> (r: Self)
        ensures
            r == (RunConfig {
                system_prompt: None,
                max_iterations: DEFAULT_MAX_ITERATIONS,
                max_tokens: DEFAULT_MAX_TOKENS,
                run_id: None,
                timeout: None,
            }),
    {
        RunConfig {
            system_prompt: None,
            max_iterations: DEFAULT_MAX_ITERATIONS,
            max_tokens: DEFAULT_MAX_TOKENS,
            run_id: None,
            timeout: None,
        }
    }
}

impl RunConfig {
    /// The default settings with a number of turns.
    pub fn new(max_iterations: usize) -> (r: Self)
        ensures
            r == (RunConfig {
                system_prompt: None,
                max_iterations,
                max_tokens: DEFAULT_MAX_TOKENS,
                run_id: None,
                timeout: None,
            }),
    {
        RunConfig {
            system_prompt: None,
            max_iterations,
            max_tokens: DEFAULT_MAX_TOKENS,
            run_id: None,
            timeout: None,
        }
    }
}

} // verus!
