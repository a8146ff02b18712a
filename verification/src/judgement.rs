//! Judgement hooks: shared types, the active and legacy hook lists with their
//! structured-output contracts and neutral fallbacks, and lookups over them.
//!
//! A judgement hook is a rule: a `system_type`, a display label, the inject point it
//! mounts on, a structured-output contract and a neutral fallback used when judging fails.
//! Adding or retiring a hook moves it between the active and legacy lists.

use vstd::prelude::*;

use crate::hook_defs::InjectPointId;
use crate::models::TopicStatus;
use crate::text::{owned, str_eq};

verus! {

/// Structured-output contract carried by a hook.
#[derive(Debug, Clone, PartialEq, Eq)]
pub enum ResponseFormatSpec {
    /// Explicit JSON schema (`name` and schema text).
    JsonSchema { name: String, schema: String },
    /// Any JSON object.
    JsonObject,
}

/// Static definition of one judgement hook.
#[derive(Debug, Clone, PartialEq, Eq)]
pub struct HookDef {
    /// The hook's system type.
    pub system_type: String,
    /// Display label (i18n key).
    pub label: String,
    /// Inject point name it mounts on.
    pub inject_point: String,
    /// Structured-output contract (`None` = unconstrained).
    pub response_format: Option<ResponseFormatSpec>,
    /// Neutral fallback decision, as JSON text (used when judging fails).
    pub neutral_fallback: String,
}

/// Hook metadata for the panel.
#[derive(Debug, Clone, PartialEq, Eq)]
pub struct HookDefMeta {
    pub system_type: String,
    pub label: String,
}

/// Final judgement status.
#[derive(Debug, Clone, Copy, PartialEq, Eq, Structural)]
pub enum JudgementStatus {
    /// Parsed on the first attempt.
    Succeeded,
    /// Parsed after one retry with feedback.
    RetriedOk,
    /// Still failing after the retry; the neutral fallback was used.
    Downgraded,
}

impl JudgementStatus {
    /// Wire name.
    pub open spec fn spec_name(self) -> Seq<char> {
        match self {
            JudgementStatus::Succeeded => "ok"@,
            JudgementStatus::RetriedOk => "retried_ok"@,
            JudgementStatus::Downgraded => "downgraded"@,
        }
    }

    /// "ok" / "retried_ok" / "downgraded".
    pub fn as_str(&self) -> (r: &'static str)
        ensures
            r@ == self.spec_name(),
    {
        proof {
            reveal_strlit("ok");
            reveal_strlit("retried_ok");
            reveal_strlit("downgraded");
        }
        match self {
            JudgementStatus::Succeeded => "ok",
            JudgementStatus::RetriedOk => "retried_ok",
            JudgementStatus::Downgraded => "downgraded",
        }
    }
}

/// One attempt: raw output and its parse error (`None` when it parsed).
#[derive(Debug, Clone, PartialEq, Eq)]
pub struct AttemptRecord {
    /// 1 = first attempt, 2 = retry.
    pub attempt: u32,
    pub raw: String,
    pub error: Option<String>,
}

/// Where a judgement card is anchored.
#[derive(Debug, Clone, PartialEq, Eq)]
pub struct JudgementAnchor {
    pub conversation_id: String,
    /// Anchor message index; `None` when not bound to a message.
    pub anchor_message_index: Option<i64>,
}

/// Run entry kind: IP-1 hooks may rewrite the context, IP-5 hooks only read it.
#[derive(Debug, Clone, Copy, PartialEq, Eq, Structural)]
pub enum HookRun {
    /// Mounted after `load_context` (IP-1).
    Before,
    /// Mounted after `persist_outcome` (IP-5).
    After,
}

/// A hook instance: its definition and its run kind.
#[derive(Debug, Clone, PartialEq, Eq)]
pub struct HookInstance {
    pub def: HookDef,
    pub run: HookRun,
}

/// System type of the user-round judgement (scoring + topic routing).
pub const SYSTEM_TYPE_USER_ROUND_JUDGEMENT: &'static str = "assistant_user_round_judgement";
/// System type of the round review (scope revision + acceptance).
pub const SYSTEM_TYPE_ROUND_REVIEW: &'static str = "assistant_round_review";
/// System type of the retired score feedback hook.
pub const SYSTEM_TYPE_SCORE_FEEDBACK: &'static str = "assistant_score_feedback";
/// System type of the retired topic matching hook.
pub const SYSTEM_TYPE_MATCH_TOPIC: &'static str = "assistant_match_topic";
/// System type of the retired topic revision hook.
pub const SYSTEM_TYPE_REVISE_TOPIC: &'static str = "assistant_revise_topic";
/// System type of the retired scope completion hook.
pub const SYSTEM_TYPE_COMPLETE_SCOPE: &'static str = "assistant_complete_scope";

/// Structured-output schema of the `user_round_judgement` hook.
pub const USER_ROUND_JUDGEMENT_SCHEMA: &'static str = r#"{
  "type": "object",
  "properties": {
    "score": { "type": "integer" },
    "action": { "type": "string", "enum": ["switch", "create", "none"] },
    "topic_id": { "type": ["string", "null"] },
    "name": { "type": ["string", "null"] },
    "description": { "type": ["string", "null"] },
    "scope_in": {
      "type": ["array", "null"],
      "items": {
        "type": "object",
        "properties": {
          "goal": { "type": "string" },
          "done_contract": { "type": "string" }
        },
        "required": ["goal", "done_contract"],
        "additionalProperties": false
      }
    }
  },
  "required": ["score", "action", "topic_id", "name", "description", "scope_in"],
  "additionalProperties": false
}"#;

/// Structured-output schema of the `round_review` hook.
pub const ROUND_REVIEW_SCHEMA: &'static str = r#"{
  "type": "object",
  "properties": {
    "reason": { "type": "string" },
    "add_items": {
      "type": "array",
      "items": {
        "type": "object",
        "properties": {
          "goal": { "type": "string" },
          "done_contract": { "type": "string" }
        },
        "required": ["goal", "done_contract"],
        "additionalProperties": false
      }
    },
    "remove_item_ids": { "type": "array", "items": { "type": "string" } },
    "update_items": {
      "type": "array",
      "items": {
        "type": "object",
        "properties": {
          "id": { "type": "string" },
          "goal": { "type": "string" },
          "done_contract": { "type": "string" }
        },
        "required": ["id"],
        "additionalProperties": false
      }
    },
    "completed_item_ids": { "type": "array", "items": { "type": "string" } },
    "blocked_item_ids": { "type": "array", "items": { "type": "string" } },
    "blocked_reasons": { "type": "object", "additionalProperties": { "type": "string" } }
  },
  "required": ["reason", "add_items", "remove_item_ids", "update_items",
               "completed_item_ids", "blocked_item_ids", "blocked_reasons"],
  "additionalProperties": false
}"#;

/// Structured-output schema of the `score_feedback` hook.
pub const SCORE_FEEDBACK_SCHEMA: &'static str = r#"{
  "type": "object",
  "properties": {
    "score": { "type": "integer", "minimum": -5, "maximum": 5 }
  },
  "required": ["score"],
  "additionalProperties": false
}"#;

/// Structured-output schema of the `match_topic` hook.
pub const MATCH_TOPIC_SCHEMA: &'static str = r#"{
  "type": "object",
  "properties": {
    "action": { "type": "string", "enum": ["switch", "create", "none"] },
    "topic_id": { "type": ["string", "null"] },
    "name": { "type": ["string", "null"] },
    "description": { "type": ["string", "null"] },
    "scope_in": {
      "type": ["array", "null"],
      "items": {
        "type": "object",
        "properties": {
          "goal": { "type": "string" },
          "done_contract": { "type": "string" }
        },
        "required": ["goal", "done_contract"],
        "additionalProperties": false
      }
    }
  },
  "required": ["action", "topic_id", "name", "description", "scope_in"],
  "additionalProperties": false
}"#;

/// Structured-output schema of the `revise_topic` hook.
pub const REVISE_TOPIC_SCHEMA: &'static str = r#"{
  "type": "object",
  "properties": {
    "reason": { "type": "string" },
    "add_items": {
      "type": "array",
      "items": {
        "type": "object",
        "properties": {
          "goal": { "type": "string" },
          "done_contract": { "type": "string" }
        },
        "required": ["goal", "done_contract"],
        "additionalProperties": false
      }
    },
    "remove_item_ids": { "type": "array", "items": { "type": "string" } },
    "update_items": {
      "type": "array",
      "items": {
        "type": "object",
        "properties": {
          "id": { "type": "string" },
          "goal": { "type": "string" },
          "done_contract": { "type": "string" }
        },
        "required": ["id"],
        "additionalProperties": false
      }
    }
  },
  "required": ["reason", "add_items", "remove_item_ids", "update_items"],
  "additionalProperties": false
}"#;

/// Structured-output schema of the `complete_scope` hook.
pub const COMPLETE_SCOPE_SCHEMA: &'static str = r#"{
  "type": "object",
  "properties": {
    "completed_item_ids": { "type": "array", "items": { "type": "string" } },
    "blocked_item_ids": { "type": "array", "items": { "type": "string" } }
  },
  "required": ["completed_item_ids", "blocked_item_ids"],
  "additionalProperties": false
}"#;

/// Neutral fallback of the user-round judgement: no score, no routing.
pub const USER_ROUND_JUDGEMENT_FALLBACK: &'static str = r#"{"score":0,"action":"none","topic_id":null,"name":null,"description":null,"scope_in":null}"#;
/// Neutral fallback of the round review: empty diff, nothing accepted.
pub const ROUND_REVIEW_FALLBACK: &'static str = r#"{"reason":"","add_items":[],"remove_item_ids":[],"update_items":[],"completed_item_ids":[],"blocked_item_ids":[],"blocked_reasons":{}}"#;
/// Neutral fallback of the score feedback hook.
pub const SCORE_FEEDBACK_FALLBACK: &'static str = r#"{"score":0}"#;
/// Neutral fallback of the topic matching hook.
pub const MATCH_TOPIC_FALLBACK: &'static str = r#"{"action":"none"}"#;
/// Neutral fallback of the topic revision hook.
pub const REVISE_TOPIC_FALLBACK: &'static str = r#"{"reason":"","add_items":[],"remove_item_ids":[],"update_items":[]}"#;
/// Neutral fallback of the scope completion hook.
pub const COMPLETE_SCOPE_FALLBACK: &'static str = r#"{"completed_item_ids":[],"blocked_item_ids":[]}"#;

/// `h` is the instance `(system_type, label, point, schema name, schema, fallback, run)`.
pub open spec fn instance_is(
    h: HookInstance,
    system_type: Seq<char>,
    label: Seq<char>,
    point: InjectPointId,
    schema_name: Seq<char>,
    schema: Seq<char>,
    fallback: Seq<char>,
    run: HookRun,
) -> bool {
    &&& h.def.system_type@ == system_type
    &&& h.def.label@ == label
    &&& h.def.inject_point@ == point.spec_name()
    &&& h.def.response_format matches Some(ResponseFormatSpec::JsonSchema { name, schema: s })
        && name@ == schema_name && s@ == schema
    &&& h.def.neutral_fallback@ == fallback
    &&& h.run == run
}

fn instance(
    system_type: &str,
    label: &str,
    point: InjectPointId,
    schema_name: &str,
    schema: &str,
    fallback: &str,
    run: HookRun,
) -> (r: HookInstance)
    ensures
        instance_is(r, system_type@, label@, point, schema_name@, schema@, fallback@, run),
{
    HookInstance {
        def: HookDef {
            system_type: owned(system_type),
            label: owned(label),
            inject_point: owned(point.as_str()),
            response_format: Some(
                ResponseFormatSpec::JsonSchema { name: owned(schema_name), schema: owned(schema) },
            ),
            neutral_fallback: owned(fallback),
        },
        run,
    }
}

/// The user-round judgement instance (IP-1).
pub open spec fn is_user_round_judgement(h: HookInstance) -> bool {
    instance_is(
        h,
        SYSTEM_TYPE_USER_ROUND_JUDGEMENT@,
        "hook.userRoundJudgement"@,
        InjectPointId::AfterLoadContext,
        "user_round_judgement"@,
        USER_ROUND_JUDGEMENT_SCHEMA@,
        USER_ROUND_JUDGEMENT_FALLBACK@,
        HookRun::Before,
    )
}

/// The round review instance (IP-5).
pub open spec fn is_round_review(h: HookInstance) -> bool {
    instance_is(
        h,
        SYSTEM_TYPE_ROUND_REVIEW@,
        "hook.roundReview"@,
        InjectPointId::AfterPersistOutcome,
        "round_review"@,
        ROUND_REVIEW_SCHEMA@,
        ROUND_REVIEW_FALLBACK@,
        HookRun::After,
    )
}

/// The active hooks, in execution order: user-round judgement, then round review.
pub fn active_hooks() -> (r: Vec<HookInstance>)
    ensures
        r@.len() == 2,
        is_user_round_judgement(r@[0]),
        is_round_review(r@[1]),
        forall|i: int| 0 <= i < r@.len() ==> run_matches_point(#[trigger] r@[i]),
{
    proof {
        lemma_point_names_distinct();
    }
    let mut v: Vec<HookInstance> = Vec::new();
    v.push(
        instance(
            SYSTEM_TYPE_USER_ROUND_JUDGEMENT,
            "hook.userRoundJudgement",
            InjectPointId::AfterLoadContext,
            "user_round_judgement",
            USER_ROUND_JUDGEMENT_SCHEMA,
            USER_ROUND_JUDGEMENT_FALLBACK,
            HookRun::Before,
        ),
    );
    v.push(
        instance(
            SYSTEM_TYPE_ROUND_REVIEW,
            "hook.roundReview",
            InjectPointId::AfterPersistOutcome,
            "round_review",
            ROUND_REVIEW_SCHEMA,
            ROUND_REVIEW_FALLBACK,
            HookRun::After,
        ),
    );
    v
}

/// The retired hooks (kept, never run): score feedback, match topic, revise topic,
/// complete scope.
pub fn legacy_hooks() -> (r: Vec<HookInstance>)
    ensures
        r@.len() == 4,
        instance_is(
            r@[0],
            SYSTEM_TYPE_SCORE_FEEDBACK@,
            "hook.scoreFeedback"@,
            InjectPointId::AfterLoadContext,
            "score_feedback"@,
            SCORE_FEEDBACK_SCHEMA@,
            SCORE_FEEDBACK_FALLBACK@,
            HookRun::Before,
        ),
        instance_is(
            r@[1],
            SYSTEM_TYPE_MATCH_TOPIC@,
            "hook.matchTopic"@,
            InjectPointId::AfterLoadContext,
            "match_topic"@,
            MATCH_TOPIC_SCHEMA@,
            MATCH_TOPIC_FALLBACK@,
            HookRun::Before,
        ),
        instance_is(
            r@[2],
            SYSTEM_TYPE_REVISE_TOPIC@,
            "hook.reviseTopic"@,
            InjectPointId::AfterPersistOutcome,
            "revise_topic"@,
            REVISE_TOPIC_SCHEMA@,
            REVISE_TOPIC_FALLBACK@,
            HookRun::After,
        ),
        instance_is(
            r@[3],
            SYSTEM_TYPE_COMPLETE_SCOPE@,
            "hook.completeScope"@,
            InjectPointId::AfterPersistOutcome,
            "complete_scope"@,
            COMPLETE_SCOPE_SCHEMA@,
            COMPLETE_SCOPE_FALLBACK@,
            HookRun::After,
        ),
        forall|i: int| 0 <= i < r@.len() ==> run_matches_point(#[trigger] r@[i]),
{
    proof {
        lemma_point_names_distinct();
    }
    let mut v: Vec<HookInstance> = Vec::new();
    v.push(
        instance(
            SYSTEM_TYPE_SCORE_FEEDBACK,
            "hook.scoreFeedback",
            InjectPointId::AfterLoadContext,
            "score_feedback",
            SCORE_FEEDBACK_SCHEMA,
            SCORE_FEEDBACK_FALLBACK,
            HookRun::Before,
        ),
    );
    v.push(
        instance(
            SYSTEM_TYPE_MATCH_TOPIC,
            "hook.matchTopic",
            InjectPointId::AfterLoadContext,
            "match_topic",
            MATCH_TOPIC_SCHEMA,
            MATCH_TOPIC_FALLBACK,
            HookRun::Before,
        ),
    );
    v.push(
        instance(
            SYSTEM_TYPE_REVISE_TOPIC,
            "hook.reviseTopic",
            InjectPointId::AfterPersistOutcome,
            "revise_topic",
            REVISE_TOPIC_SCHEMA,
            REVISE_TOPIC_FALLBACK,
            HookRun::After,
        ),
    );
    v.push(
        instance(
            SYSTEM_TYPE_COMPLETE_SCOPE,
            "hook.completeScope",
            InjectPointId::AfterPersistOutcome,
            "complete_scope",
            COMPLETE_SCOPE_SCHEMA,
            COMPLETE_SCOPE_FALLBACK,
            HookRun::After,
        ),
    );
    v
}

/// The definition of the active hook with `system_type` (legacy hooks are not found).
pub fn hook_def(system_type: &str) -> (r: Option<HookDef>)
    ensures
        match r {
            Some(d) => (is_user_round_judgement(HookInstance { def: d, run: HookRun::Before })
                && system_type@ == SYSTEM_TYPE_USER_ROUND_JUDGEMENT@) || (is_round_review(
                HookInstance { def: d, run: HookRun::After },
            ) && system_type@ == SYSTEM_TYPE_ROUND_REVIEW@),
            None => system_type@ != SYSTEM_TYPE_USER_ROUND_JUDGEMENT@ && system_type@
                != SYSTEM_TYPE_ROUND_REVIEW@,
        },
{
    let mut hooks = active_hooks();
    let second = hooks.pop().unwrap();
    let first = hooks.pop().unwrap();
    if str_eq(first.def.system_type.as_str(), system_type) {
        Some(first.def)
    } else if str_eq(second.def.system_type.as_str(), system_type) {
        Some(second.def)
    } else {
        None
    }
}

/// Metadata of the active hooks, in order.
pub fn hook_defs_meta() -> (r: Vec<HookDefMeta>)
    ensures
        r@.len() == 2,
        r@[0].system_type@ == SYSTEM_TYPE_USER_ROUND_JUDGEMENT@,
        r@[0].label@ == "hook.userRoundJudgement"@,
        r@[1].system_type@ == SYSTEM_TYPE_ROUND_REVIEW@,
        r@[1].label@ == "hook.roundReview"@,
{
    let hooks = active_hooks();
    let mut out: Vec<HookDefMeta> = Vec::new();
    for i in 0..hooks.len()
        invariant
            hooks@.len() == 2,
            is_user_round_judgement(hooks@[0]),
            is_round_review(hooks@[1]),
            out@.len() == i,
            forall|j: int|
                0 <= j < i ==> (#[trigger] out@[j]).system_type@ == hooks@[j].def.system_type@
                    && out@[j].label@ == hooks@[j].def.label@,
    {
        out.push(
            HookDefMeta {
                system_type: hooks[i].def.system_type.clone(),
                label: hooks[i].def.label.clone(),
            },
        );
    }
    out
}

/// Active hooks mounted on `point`, in list order.
pub fn active_hooks_at(point: InjectPointId) -> (r: Vec<HookInstance>)
    ensures
        point == InjectPointId::AfterLoadContext ==> r@.len() == 1 && is_user_round_judgement(
            r@[0],
        ),
        point == InjectPointId::AfterPersistOutcome ==> r@.len() == 1 && is_round_review(r@[0]),
        point != InjectPointId::AfterLoadContext && point != InjectPointId::AfterPersistOutcome
            ==> r@.len() == 0,
{
    let mut hooks = active_hooks();
    let review = hooks.pop().unwrap();
    let judgement = hooks.pop().unwrap();
    let mut out: Vec<HookInstance> = Vec::new();
    match point {
        InjectPointId::AfterLoadContext => {
            out.push(judgement);
        },
        InjectPointId::AfterPersistOutcome => {
            out.push(review);
        },
        _ => {},
    }
    out
}

/// Law: system types are unique across the active and the legacy list.
pub proof fn law_system_types_unique()
    ensures
        ({
            let types = seq![
                SYSTEM_TYPE_USER_ROUND_JUDGEMENT@,
                SYSTEM_TYPE_ROUND_REVIEW@,
                SYSTEM_TYPE_SCORE_FEEDBACK@,
                SYSTEM_TYPE_MATCH_TOPIC@,
                SYSTEM_TYPE_REVISE_TOPIC@,
                SYSTEM_TYPE_COMPLETE_SCOPE@,
            ];
            forall|i: int, j: int| 0 <= i < j < 6 ==> types[i] != types[j]
        }),
{
    reveal_strlit("assistant_user_round_judgement");
    reveal_strlit("assistant_round_review");
    reveal_strlit("assistant_score_feedback");
    reveal_strlit("assistant_match_topic");
    reveal_strlit("assistant_revise_topic");
    reveal_strlit("assistant_complete_scope");
    let types = seq![
        SYSTEM_TYPE_USER_ROUND_JUDGEMENT@,
        SYSTEM_TYPE_ROUND_REVIEW@,
        SYSTEM_TYPE_SCORE_FEEDBACK@,
        SYSTEM_TYPE_MATCH_TOPIC@,
        SYSTEM_TYPE_REVISE_TOPIC@,
        SYSTEM_TYPE_COMPLETE_SCOPE@,
    ];
    assert forall|i: int, j: int| 0 <= i < j < 6 implies types[i] != types[j] by {
        if types[i] == types[j] {
            assert(types[i].len() == types[j].len());
            assert(types[i][10] == types[j][10]);
            assert(types[i][11] == types[j][11]);
        }
    }
}

/// A hook runs before the turn exactly when it mounts on IP-1, and after it exactly
/// when it mounts on IP-5.
pub open spec fn run_matches_point(h: HookInstance) -> bool {
    &&& (h.run == HookRun::Before <==> h.def.inject_point@
        == InjectPointId::AfterLoadContext.spec_name())
    &&& (h.run == HookRun::After <==> h.def.inject_point@
        == InjectPointId::AfterPersistOutcome.spec_name())
}

proof fn lemma_point_names_distinct()
    ensures
        InjectPointId::AfterLoadContext.spec_name() != InjectPointId::AfterPersistOutcome.spec_name(),
{
    reveal_strlit("after_load_context");
    reveal_strlit("after_persist_outcome");
    assert("after_load_context"@.len() != "after_persist_outcome"@.len());
}

/// How the user-round judgement routes the session.
#[derive(Debug, Clone, Copy, PartialEq, Eq, Structural)]
pub enum RoutingAction {
    /// Switch to the topic the decision names.
    Switch,
    /// Keep the current binding.
    Stay,
    /// Create a bound topic when the session is unbound.
    Create,
}

/// The routing action of a decision: `"switch"` → switch, a missing action or `"none"` →
/// stay, anything else → create.
pub open spec fn routing_spec(action: Option<Seq<char>>) -> RoutingAction {
    match action {
        None => RoutingAction::Stay,
        Some(a) => if a == "switch"@ {
            RoutingAction::Switch
        } else if a == "none"@ {
            RoutingAction::Stay
        } else {
            RoutingAction::Create
        },
    }
}

/// The routing action of a decision: `"switch"` → switch, a missing action or `"none"` →
/// stay, anything else → create.
pub fn routing_action(action: Option<&str>) -> (r: RoutingAction)
    ensures
        r == routing_spec(
            match action {
                Some(a) => Some(a@),
                None => None,
            },
        ),
{
    match action {
        None => RoutingAction::Stay,
        Some(a) => {
            if str_eq(a, "switch") {
                RoutingAction::Switch
            } else if str_eq(a, "none") {
                RoutingAction::Stay
            } else {
                RoutingAction::Create
            }
        },
    }
}

/// Whether a judgement score is applied: present, non-zero and within `-5..=5`.
pub fn score_applicable(score: Option<i64>) -> (r: bool)
    ensures
        r == (score matches Some(s) && s != 0 && -5 <= s <= 5),
{
    match score {
        Some(s) => s != 0 && -5 <= s && s <= 5,
        None => false,
    }
}

/// What the user-round judgement does with its score.
#[derive(Debug, Clone, Copy, PartialEq, Eq, Structural)]
pub enum ScoreStep {
    /// The session is bound to no topic: nothing is scored.
    NoTopic,
    /// Apply the score to the neurons stamped since the last user turn.
    Apply(i64),
    /// An applicable score, but no neuron was stamped in that interval.
    NoStampedNeuron,
    /// A zero or out-of-range score (the neutral fallback among them).
    NotApplicable,
    /// The decision carries no score.
    Missing,
}

/// The scoring step: only with a bound topic; an applicable score (see [`score_applicable`])
/// is applied when some neuron was stamped since the last user turn.
pub fn score_step(topic_bound: bool, score: Option<i64>, stamped_neurons: usize) -> (r: ScoreStep)
    ensures
        !topic_bound ==> r == ScoreStep::NoTopic,
        topic_bound ==> r == match score {
            None => ScoreStep::Missing,
            Some(s) => if s != 0 && -5 <= s <= 5 {
                if stamped_neurons == 0 {
                    ScoreStep::NoStampedNeuron
                } else {
                    ScoreStep::Apply(s)
                }
            } else {
                ScoreStep::NotApplicable
            },
        },
{
    if !topic_bound {
        return ScoreStep::NoTopic;
    }
    match score {
        None => ScoreStep::Missing,
        Some(s) => {
            if score_applicable(Some(s)) {
                if stamped_neurons == 0 {
                    ScoreStep::NoStampedNeuron
                } else {
                    ScoreStep::Apply(s)
                }
            } else {
                ScoreStep::NotApplicable
            }
        },
    }
}

/// What the user-round judgement does with its routing decision.
#[derive(Debug, Clone, PartialEq, Eq)]
pub enum RouteStep {
    /// Keep the current binding.
    Keep,
    /// Switch to topic `target` (it may no longer exist).
    Switch(String),
    /// Create a topic from the decision and bind the session to it.
    CreateBound,
}

/// The routing step: `switch` with a topic id switches (without one it keeps the binding);
/// a missing action or `none` keeps it; any other action creates a bound topic, but only for
/// a session bound to no topic.
pub fn route_step(action: Option<&str>, topic_id: Option<&str>, session_bound: bool) -> (r: RouteStep)
    ensures
        ({
            let a = routing_spec(
                match action {
                    Some(x) => Some(x@),
                    None => None,
                },
            );
            match a {
                RoutingAction::Switch => match topic_id {
                    Some(t) => r matches RouteStep::Switch(x) && x@ == t@,
                    None => r == RouteStep::Keep,
                },
                RoutingAction::Stay => r == RouteStep::Keep,
                RoutingAction::Create => if session_bound {
                    r == RouteStep::Keep
                } else {
                    r == RouteStep::CreateBound
                },
            }
        }),
{
    match routing_action(action) {
        RoutingAction::Switch => match topic_id {
            Some(t) => RouteStep::Switch(owned(t)),
            None => RouteStep::Keep,
        },
        RoutingAction::Stay => RouteStep::Keep,
        RoutingAction::Create => if session_bound {
            RouteStep::Keep
        } else {
            RouteStep::CreateBound
        },
    }
}

/// Where a switch to an existing topic leads.
#[derive(Debug, Clone, PartialEq, Eq)]
pub enum SwitchOutcome {
    /// The topic is bound to another session: continue there, bound to the topic.
    MoveToSession(String),
    /// The topic is bound to this session: bind the round to it.
    Bind,
    /// The topic is bound to no session: bind it to this session first.
    BindSessionFirst,
}

/// The outcome of switching to a topic bound to `topic_session` from `current_session`.
pub fn switch_outcome(topic_session: Option<&str>, current_session: &str) -> (r: SwitchOutcome)
    ensures
        match topic_session {
            Some(s) => if s@ != current_session@ {
                r matches SwitchOutcome::MoveToSession(x) && x@ == s@
            } else {
                r == SwitchOutcome::Bind
            },
            None => r == SwitchOutcome::BindSessionFirst,
        },
{
    match topic_session {
        Some(s) => if str_eq(s, current_session) {
            SwitchOutcome::Bind
        } else {
            SwitchOutcome::MoveToSession(owned(s))
        },
        None => SwitchOutcome::BindSessionFirst,
    }
}

/// What the round review does at the end of a round.
#[derive(Debug, Clone, Copy, PartialEq, Eq, Structural)]
pub enum ReviewStep {
    /// Nothing to review.
    Skip,
    /// Close the topic as done.
    CloseDone,
    /// Call the review model.
    Judge,
}

/// The topic as the round review sees it.
#[derive(Debug, Clone, Copy, PartialEq, Eq, Structural)]
pub struct ReviewTopic {
    pub status: TopicStatus,
    pub scope_empty: bool,
}

/// Whether the round review may act on a topic at all: paused topics and topics waiting for
/// the user are left alone.
pub open spec fn review_open(t: ReviewTopic) -> bool {
    t.status != TopicStatus::Paused && t.status != TopicStatus::WaitingUser
}

/// The round review's step. It closes the topic when its scope is empty, or when it is
/// wrapping up and the round ended without a tool result; it judges a settling round (no
/// tools declared or run) of a topic that is neither wrapping up nor empty; in every other
/// case (no topic, a paused or waiting topic, a wrap-up round still on tools, a round that
/// is not settling) it skips.
pub fn review_step(topic: Option<ReviewTopic>, last_is_tool: bool, settling: bool) -> (r: ReviewStep)
    ensures
        r == ReviewStep::CloseDone <==> (topic matches Some(t) && review_open(t)
            && (t.scope_empty || (t.status == TopicStatus::WrappingUp && !last_is_tool))),
        r == ReviewStep::Judge <==> (topic matches Some(t) && review_open(t) && !t.scope_empty
            && t.status != TopicStatus::WrappingUp && settling),
{
    match topic {
        None => ReviewStep::Skip,
        Some(t) => {
            if t.status == TopicStatus::Paused || t.status == TopicStatus::WaitingUser {
                ReviewStep::Skip
            } else if t.scope_empty {
                ReviewStep::CloseDone
            } else if t.status == TopicStatus::WrappingUp {
                if last_is_tool { ReviewStep::Skip } else { ReviewStep::CloseDone }
            } else if !settling {
                ReviewStep::Skip
            } else {
                ReviewStep::Judge
            }
        },
    }
}

/// The review's reason: the decision's, trimmed, else a placeholder.
pub fn review_reason(reason: Option<&str>) -> (r: String)
    ensures
        r@ == match reason {
            Some(x) => if crate::models::trim_seq(x@).len() > 0 {
                crate::models::trim_seq(x@)
            } else {
                "（无 reason）"@
            },
            None => "（无 reason）"@,
        },
{
    match reason {
        Some(x) => {
            let t = crate::models::trim_str(x);
            if t.unicode_len() > 0 {
                owned(t)
            } else {
                owned("（无 reason）")
            }
        },
        None => owned("（无 reason）"),
    }
}

/// Whether a review changed anything worth a revision log entry.
pub fn review_changed(
    added: usize,
    removed: usize,
    updated: usize,
    skipped: usize,
    completed: usize,
    blocked: usize,
) -> (r: bool)
    ensures
        r == (added > 0 || removed > 0 || updated > 0 || skipped > 0 || completed > 0 || blocked > 0),
{
    added > 0 || removed > 0 || updated > 0 || skipped > 0 || completed > 0 || blocked > 0
}

} // verus!

verus! {

/// A scope item the round review marks blocked, with the reason it gives (if any).
#[derive(Debug, Clone, PartialEq, Eq)]
pub struct BlockMark {
    pub item_id: String,
    pub reason: Option<String>,
}

/// The reason given for item `id`: the one named by it among `reasons`, trimmed.
pub open spec fn block_reason(reasons: Seq<crate::providers::NamedValue>, id: Seq<char>) -> Option<Seq<char>> {
    match crate::providers::named(reasons, id) {
        Some(v) => Some(crate::models::trim_seq(v)),
        None => None,
    }
}

/// The blocked marks of a review decision: one per blocked item id, in order, each with the
/// reason the decision's `blocked_reasons` gives for it, trimmed (none when it gives none).
pub fn blocked_marks(blocked_ids: &Vec<String>, reasons: &Vec<crate::providers::NamedValue>) -> (r: Vec<BlockMark>)
    ensures
        r@.len() == blocked_ids@.len(),
        forall|i: int| 0 <= i < r@.len() ==> {
            &&& (#[trigger] r@[i]).item_id@ == blocked_ids@[i]@
            &&& crate::providers::ostr(r@[i].reason) == block_reason(reasons@, blocked_ids@[i]@)
        },
{
    let mut out: Vec<BlockMark> = Vec::new();
    for i in 0..blocked_ids.len()
        invariant
            out@.len() == i,
            forall|k: int| 0 <= k < i ==> {
                &&& (#[trigger] out@[k]).item_id@ == blocked_ids@[k]@
                &&& crate::providers::ostr(out@[k].reason) == block_reason(reasons@, blocked_ids@[k]@)
            },
    {
        let id = &blocked_ids[i];
        let reason = match crate::providers::value_named(reasons, id.as_str()) {
            Some(v) => Some(owned(crate::models::trim_str(v))),
            None => None,
        };
        out.push(BlockMark { item_id: id.clone(), reason });
    }
    out
}

} // verus!
