//! What observers of a run are told and what they decide.

use vstd::prelude::*;

use crate::ids::{RunId, StepId};
use crate::message::{UserBlock, UserBlockModel};

verus! {

/// Which tool call an observer is asked about.
#[derive(Debug, Clone, PartialEq, Eq)]
pub struct ToolCallInfo {
    pub run_id: RunId,
    pub step_id: StepId,
    /// Id that the model gave the call.
    pub call_id: String,
    /// Name of the tool.
    pub name: String,
}

impl ToolCallInfo {
    pub fn new(run_id: RunId, step_id: StepId, call_id: &str, name: &str) -> (r: Self)
        ensures
            r.run_id == run_id,
            r.step_id == step_id,
            r.call_id@ == call_id@,
            r.name@ == name@,
    {
        ToolCallInfo { run_id, step_id, call_id: call_id.to_owned(), name: name.to_owned() }
    }
}

/// Whether a run may start.
#[derive(Debug, Clone, PartialEq, Eq)]
pub enum HookAction {
    Continue,
    /// Abort the run.
    Terminate { reason: String },
}

/// Whether a tool call may go ahead.
#[derive(Debug, Clone, PartialEq, Eq)]
pub enum ToolDecision {
    Continue,
    /// Answer the call with an error in place of running the tool.
    Skip { reason: String },
    /// Abort the run.
    Terminate { reason: String },
}

/// Whether a run that has nothing left to do goes on.
#[derive(Debug, Clone)]
pub enum ContinueDecision {
    Stop,
    /// Go on with one more user turn.
    Continue { blocks: Vec<UserBlock> },
}

impl Default for ContinueDecision {
    fn default() -> (r: Self)
        ensures
            r is Stop,
    {
        ContinueDecision::Stop
    }
}

impl ContinueDecision {
    /// Goes on with a user turn of one text.
    pub fn continue_with(text: &str) -> (r: Self)
        ensures
            r matches ContinueDecision::Continue { blocks } && blocks@.map_values(
                |block: UserBlock| block@,
            ) == seq![UserBlockModel::Text { text: text@, cache_control: None }],
    {
        let mut blocks: Vec<UserBlock> = Vec::new();
        blocks.push(UserBlock::text(text));
        assert(blocks@.map_values(|block: UserBlock| block@) =~= seq![
            UserBlockModel::Text { text: text@, cache_control: None },
        ]);
        ContinueDecision::Continue { blocks }
    }
}

} // verus!
