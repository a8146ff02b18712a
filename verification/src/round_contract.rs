//! Contract types of the round service: what a round is asked to do, in which mode, and
//! how it ended; plus the per-round defaults derived from the mode and the trigger.

use vstd::prelude::*;

use crate::models::{ThinkingConfig, ToolCall};
use crate::round_types::RoundTriggerKind;
use crate::text::owned;

verus! {

/// Conversation identifier: a newtype over the stored string id (its text is unchanged on
/// the wire and in storage).
#[derive(Debug, Clone, PartialEq, Eq, Hash)]
pub struct ConversationId(pub String);

impl View for ConversationId {
    type V = Seq<char>;

    open spec fn view(&self) -> Seq<char> {
        self.0@
    }
}

impl ConversationId {
    /// Wraps `id`.
    pub fn new(id: &str) -> (r: ConversationId)
        ensures
            r@ == id@,
    {
        ConversationId(owned(id))
    }

    /// The id text.
    pub fn as_str(&self) -> (r: &str)
        ensures
            r@ == self@,
    {
        self.0.as_str()
    }

    /// The id text, owned.
    pub fn into_string(self) -> (r: String)
        ensures
            r@ == self@,
    {
        self.0
    }

    /// The id text as a new string (its display form).
    pub fn to_string(&self) -> (r: String)
        ensures
            r@ == self@,
    {
        self.0.clone()
    }
}

impl From<String> for ConversationId {
    fn from(value: String) -> (r: ConversationId) {
        ConversationId(value)
    }
}

impl vstd::std_specs::convert::FromSpecImpl<String> for ConversationId {
    open spec fn obeys_from_spec() -> bool {
        true
    }

    open spec fn from_spec(v: String) -> ConversationId {
        ConversationId(v)
    }
}

impl<'a> From<&'a str> for ConversationId {
    /// Wraps a copy of `value`.
    fn from(value: &'a str) -> (r: ConversationId)
        ensures
            r@ == value@,
    {
        ConversationId(owned(value))
    }
}

/// The conversion from a string slice copies the text; no spec function can build that
/// `String` from the slice, so the trait-level form is not claimed and the impl's own
/// `ensures` (the view is kept) is what callers get.
impl<'a> vstd::std_specs::convert::FromSpecImpl<&'a str> for ConversationId {
    open spec fn obeys_from_spec() -> bool {
        false
    }

    open spec fn from_spec(v: &'a str) -> ConversationId {
        ConversationId(vstd::pervasive::arbitrary())
    }
}

/// How a round's input is recorded.
#[derive(Debug, Clone, PartialEq, Eq)]
pub enum InputRecord {
    /// User input: stored as a user message; the model input is the text.
    User(String),
    /// Poller push: the brief is built by a before hook, which also decides whether to store it.
    Nudge,
    /// Nothing stored, but the text drives the round (agent follow-up rounds).
    Continue(String),
    /// Nothing stored and no initial text (the brief is injected by a hook).
    Empty,
}

/// Business mode a round runs in.
#[derive(Debug, Clone, Copy, PartialEq, Eq, Structural)]
pub enum RoundMode {
    Chat,
    Agent,
    Assistant,
    Poller,
}

/// Final state of a round: completed, cancelled (preempted or stopped), or skipped (busy).
#[derive(Debug, Clone, Copy, PartialEq, Eq, Structural)]
pub enum RoundStatus {
    Completed,
    Cancelled,
    Skipped,
}

/// A round request: which session, with what input, in which mode.
#[derive(Debug, Clone, PartialEq, Eq)]
pub struct RoundRequest {
    pub session_id: ConversationId,
    pub input: InputRecord,
    pub mode: RoundMode,
}

/// In-place update of a streaming placeholder message.
#[derive(Debug, Clone, PartialEq)]
pub struct MessageTextUpdate {
    pub content: String,
    pub reasoning: Option<String>,
    pub tool_calls: Option<Vec<ToolCall>>,
}

/// Streaming delta of the running round (rendering only; `done` marks the end).
#[derive(Debug, Clone, PartialEq, Eq)]
pub struct StreamDelta {
    pub message_index: usize,
    /// Full accumulated content of the message so far.
    pub content: String,
    /// Full accumulated reasoning so far (empty = none).
    pub reasoning: String,
    pub done: bool,
}

/// Default tool authorisation of a round: an `Agent` round is authorised for the whole
/// catalog (`catalog_names`, the names of its definitions, in order); every other mode
/// falls back to the selected neuron's tools (`None`).
pub fn default_tool_override(mode: RoundMode, catalog_names: &Vec<String>) -> (r: Option<
    Vec<String>,
>)
    ensures
        mode == RoundMode::Agent ==> (r matches Some(v) && v@ == catalog_names@),
        mode != RoundMode::Agent ==> r is None,
{
    match mode {
        RoundMode::Agent => Some(catalog_names.clone()),
        RoundMode::Chat | RoundMode::Assistant | RoundMode::Poller => None,
    }
}

/// Default thinking configuration by trigger: user and agent-loop rounds follow the
/// session/model (`None`); manual steps and poller rounds explicitly disable thinking.
pub fn default_thinking(trigger: RoundTriggerKind) -> (r: Option<ThinkingConfig>)
    ensures
        (trigger == RoundTriggerKind::User || trigger == RoundTriggerKind::AgentLoop) ==> r is None,
        (trigger == RoundTriggerKind::ManualStep || trigger == RoundTriggerKind::Poller) ==> r
            == Some(ThinkingConfig { enabled: Some(false), effort: None }),
{
    match trigger {
        RoundTriggerKind::User | RoundTriggerKind::AgentLoop => None,
        RoundTriggerKind::ManualStep | RoundTriggerKind::Poller => Some(
            ThinkingConfig { enabled: Some(false), effort: None },
        ),
    }
}

} // verus!
