//! Data of one round: trigger kind, session seed and run state, and the model-side product.

use vstd::prelude::*;

use crate::models::ToolCall;

verus! {

/// What started a round.
#[derive(Debug, Clone, Copy, PartialEq, Eq, Structural)]
pub enum RoundTriggerKind {
    User,
    ManualStep,
    Poller,
    AgentLoop,
}

/// Session seed: where role selection starts.
#[derive(Debug, Clone, PartialEq, Eq)]
pub enum SessionSeed {
    /// Global pool on the first round, then neighborhood of the anchor.
    Global,
    /// A neuron: system neurons follow their behavior, plain ones the default neighborhood.
    Neuron(String),
}

/// One tool execution result, paired with `ToolCall.id`.
#[derive(Debug, Clone, PartialEq, Eq)]
pub struct ToolResultItem {
    pub tool_call_id: String,
    pub tool_name: String,
    pub content: String,
}

/// Model-side product of one round (persisting it is the caller's job).
#[derive(Debug, Clone, PartialEq)]
pub struct RoundOutcome {
    /// Final text (tool results appended), returned to the user.
    pub response: String,
    /// Raw model output.
    pub model_output: Option<String>,
    /// Every tool call the model declared this round.
    pub tool_calls: Option<Vec<ToolCall>>,
    /// Every tool result of this round.
    pub tool_results: Vec<ToolResultItem>,
    /// Neuron selected for this round.
    pub selected_neuron_id: Option<String>,
}

} // verus!
