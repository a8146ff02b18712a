use pulsar_core::error::AppError;
use pulsar_core::log_phase::{all_phases, PHASE_COUNT, PHASE_HOOK_USER_ROUND_JUDGEMENT, PHASE_TOOL_CONFIG};
use pulsar_core::models::{ThinkingConfig, ToolCall};
use pulsar_core::round_contract::{default_thinking, default_tool_override, ConversationId, RoundMode};
use pulsar_core::round_executor::{
    authorize_round_tools, compose_response, effective_thinking, filter_authorized_tool_ids, validate_authorized,
};
use pulsar_core::round_types::{RoundTriggerKind, ToolResultItem};

fn strs(list: &[&str]) -> Vec<String> {
    list.iter().map(|s| s.to_string()).collect()
}

fn call(name: &str) -> ToolCall {
    ToolCall { id: format!("id_{name}"), name: name.into(), arguments: serde_json::Value::Null }
}

#[test]
fn conversation_id_wraps_string_representation() {
    let id = ConversationId::new("conv-1");
    assert_eq!(id.as_str(), "conv-1");
    assert_eq!(id.to_string(), "conv-1");
    assert_eq!(ConversationId::from(String::from("a")), ConversationId::from("a"));
    assert_eq!(id.clone().into_string(), "conv-1");
}

#[test]
fn filter_drops_unknown_tool_ids() {
    let known = strs(&["echo"]);
    let out = filter_authorized_tool_ids(&known, &["echo".into(), "nope".into()]);
    assert_eq!(out, vec!["echo".to_string()]);
}

#[test]
fn authorization_puts_tag_tools_first_without_duplicates() {
    let tag_tools = strs(&["core_a", "core_b"]);
    let known = strs(&["core_a", "core_b", "x", "y"]);
    let neuron_tools = strs(&["y", "core_a", "ghost", "x", "y"]);
    let out = authorize_round_tools(None, Some(&neuron_tools), &tag_tools, &known);
    assert_eq!(out, strs(&["core_a", "core_b", "y", "x"]));
    let override_ids = strs(&["x"]);
    let out = authorize_round_tools(Some(&override_ids), Some(&neuron_tools), &tag_tools, &known);
    assert_eq!(out, strs(&["core_a", "core_b", "x"]), "the override wins over the neuron's tools");
    let none = authorize_round_tools(None, None, &vec![], &known);
    assert!(none.is_empty());
}

#[test]
fn unauthorized_call_is_rejected_with_its_name() {
    let authorized = strs(&["echo"]);
    assert_eq!(validate_authorized(None, &authorized), Ok(()));
    let ok_calls = vec![call("echo"), call("echo")];
    assert_eq!(validate_authorized(Some(&ok_calls), &authorized), Ok(()));
    let bad = vec![call("echo"), call("rm"), call("ls")];
    assert_eq!(
        validate_authorized(Some(&bad), &authorized),
        Err(AppError::InvalidInput("Tool 'rm' is not authorized for this round".into()))
    );
}

#[test]
fn tool_results_fold_into_response() {
    let results = vec![
        ToolResultItem { tool_call_id: "1".into(), tool_name: "a".into(), content: "r1".into() },
        ToolResultItem { tool_call_id: "2".into(), tool_name: "b".into(), content: "r2".into() },
    ];
    assert_eq!(compose_response("  ", &results), "r1\n\n[tool:b] r2");
    assert_eq!(compose_response("out", &results), "out\n\n[tool:a] r1\n\n[tool:b] r2");
    assert_eq!(compose_response("out", &vec![]), "out");
}

#[test]
fn round_defaults_follow_mode_and_trigger() {
    let catalog = strs(&["t1", "t2"]);
    assert_eq!(default_tool_override(RoundMode::Agent, &catalog), Some(catalog.clone()));
    assert_eq!(default_tool_override(RoundMode::Chat, &catalog), None);
    assert_eq!(default_tool_override(RoundMode::Assistant, &catalog), None);
    assert_eq!(default_tool_override(RoundMode::Poller, &catalog), None);
    let off = Some(ThinkingConfig { enabled: Some(false), effort: None });
    assert_eq!(default_thinking(RoundTriggerKind::User), None);
    assert_eq!(default_thinking(RoundTriggerKind::AgentLoop), None);
    assert_eq!(default_thinking(RoundTriggerKind::ManualStep), off);
    assert_eq!(default_thinking(RoundTriggerKind::Poller), off);
    assert_eq!(effective_thinking(off, None), off);
    assert_eq!(effective_thinking(None, off), off);
    assert_eq!(effective_thinking(None, None), None);
}

#[test]
fn all_phase_values_are_unique() {
    let phases = all_phases();
    let mut seen = std::collections::HashSet::new();
    for p in &phases {
        assert!(seen.insert(p.value), "duplicate phase: {}", p.value);
    }
}

#[test]
fn all_phases_has_nonempty_group_labels() {
    for p in all_phases() {
        assert!(!p.group.is_empty());
        assert!(!p.value.is_empty());
        assert!(!p.label.is_empty());
    }
}

#[test]
fn phase_table_order_and_size() {
    let phases = all_phases();
    assert_eq!(phases.len(), PHASE_COUNT);
    assert_eq!(phases[0].value, PHASE_HOOK_USER_ROUND_JUDGEMENT);
    assert_eq!(phases[0].group, "Hook 执行");
    assert_eq!(phases[PHASE_COUNT - 1].value, PHASE_TOOL_CONFIG);
}
