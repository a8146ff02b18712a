//! Poller step requests: what a poller tick asks the assistant session to do.

use vstd::prelude::*;

verus! {

/// Name under which the assistant's advance task is registered with the poller.
pub const ASSISTANT_POLL_TASK: &'static str = "assistant_advance";

/// A step request: for now only advancing every topic.
#[derive(Debug, Clone, Copy, PartialEq, Eq, Structural)]
pub enum AssistantStepRequest {
    PollAll,
}

/// The request a poller tick sends.
pub fn on_tick_request() -> (r: AssistantStepRequest)
    ensures
        r == AssistantStepRequest::PollAll,
{
    AssistantStepRequest::PollAll
}

} // verus!
