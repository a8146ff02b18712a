use pulsar_core::error::AppError;
use pulsar_core::models::{
    AssistantCandidateScope, Message, MessageBody, MessageRole, NeighborhoodPoolPolicy, SelectionPolicy,
    SessionBehavior, ToolPolicy,
};
use pulsar_core::round_resolver::{attach_role, join_contract, plan_resolve, scope_for_selection, RoleNeuron, RolePlan};
use pulsar_core::round_types::SessionSeed;

/// Contract text of the neuron's insert id in these tests.
const CONTRACT: &str = "【契约】只输出 JSON：{\"action\":...}";

fn neuron_with_insert(insert_id: Option<&str>) -> RoleNeuron {
    RoleNeuron {
        id: "n_test".into(),
        content: "ROLE CONTENT".into(),
        system_type: Some("assistant_test".into()),
        behavior: Some(SessionBehavior {
            selection: SelectionPolicy::NoPrompt,
            tools: ToolPolicy::NoTools,
            insert_id: insert_id.map(|s| s.to_string()),
        }),
    }
}

fn text(role: MessageRole, content: &str) -> Message {
    Message {
        role,
        body: MessageBody::Text { content: content.into(), reasoning: None, tool_calls: None },
        timestamp: 0,
        neuron_id: None,
    }
}

#[test]
fn attach_role_first_round_with_insert_merges_contract_into_system() {
    let out = attach_role(&[], Some(&neuron_with_insert(Some("assistant.match_topic"))), Some(CONTRACT), 7);
    assert_eq!(out.len(), 1);
    assert_eq!(out[0].role, MessageRole::System);
    assert_eq!(
        out[0].body,
        MessageBody::Text { content: format!("ROLE CONTENT\n\n{}", CONTRACT), reasoning: None, tool_calls: None }
    );
    assert_eq!(out[0].timestamp, 7);
}

#[test]
fn attach_role_first_round_without_insert_appends_single_system() {
    let out = attach_role(&[], Some(&neuron_with_insert(None)), Some(CONTRACT), 0);
    assert_eq!(out.len(), 1);
    assert_eq!(out[0].role, MessageRole::System);
    assert_eq!(out[0].body, MessageBody::Text { content: "ROLE CONTENT".into(), reasoning: None, tool_calls: None });
}

#[test]
fn attach_role_later_round_without_contract_in_history_merges_into_role_context() {
    let history = vec![text(MessageRole::User, "用户输入")];
    let out = attach_role(&history, Some(&neuron_with_insert(Some("assistant.match_topic"))), Some(CONTRACT), 0);
    assert_eq!(out.len(), 2);
    assert_eq!(out[1].role, MessageRole::User);
    assert_eq!(out[1].body, MessageBody::RoleContext { content: format!("[当前角色]\nROLE CONTENT\n\n{}", CONTRACT) });
    assert_eq!(out[1].neuron_id.as_deref(), Some("n_test"));
}

#[test]
fn attach_role_later_round_with_contract_in_history_skips_merge() {
    let history = vec![text(MessageRole::System, &format!("prev system\n\n{}", CONTRACT))];
    let out = attach_role(&history, Some(&neuron_with_insert(Some("assistant.match_topic"))), Some(CONTRACT), 0);
    assert_eq!(out.len(), 2);
    assert_eq!(out[1].body, MessageBody::RoleContext { content: "[当前角色]\nROLE CONTENT".into() });
}

#[test]
fn attach_role_unselected_returns_old_untouched() {
    let history = vec![text(MessageRole::User, "hi")];
    let out = attach_role(&history, None, None, 0);
    assert_eq!(out.len(), 1);
    assert_eq!(out[0].body, MessageBody::Text { content: "hi".into(), reasoning: None, tool_calls: None });
}

#[test]
fn attach_role_blank_content_returns_old_untouched() {
    let history = vec![text(MessageRole::User, "hi")];
    let mut n = neuron_with_insert(Some("x"));
    n.content = "  \n".into();
    let out = attach_role(&history, Some(&n), Some(CONTRACT), 0);
    assert_eq!(out, history);
}

#[test]
fn join_contract_cases() {
    assert_eq!(join_contract("R", Some("C"), false), "R\n\nC");
    assert_eq!(join_contract("R", Some("C"), true), "R");
    assert_eq!(join_contract("R", None, false), "R");
}

#[test]
fn scope_for_selection_rules() {
    let policy = NeighborhoodPoolPolicy::default_policy();
    assert_eq!(scope_for_selection(&SelectionPolicy::Fixed, "self", Some("last")), None);
    assert_eq!(scope_for_selection(&SelectionPolicy::NoPrompt, "self", None), None);
    assert_eq!(
        scope_for_selection(&SelectionPolicy::Neighborhood { policy }, "self", None),
        Some(AssistantCandidateScope::Neighborhood { self_id: "self".into(), policy })
    );
    assert_eq!(
        scope_for_selection(&SelectionPolicy::Neighborhood { policy }, "self", Some("last")),
        Some(AssistantCandidateScope::Neighborhood { self_id: "last".into(), policy })
    );
    assert_eq!(
        scope_for_selection(&SelectionPolicy::Global { limit: 7 }, "", None),
        Some(AssistantCandidateScope::Global { limit: 7 })
    );
    assert_eq!(
        scope_for_selection(&SelectionPolicy::Global { limit: 7 }, "", Some("last")),
        Some(AssistantCandidateScope::Neighborhood { self_id: "last".into(), policy })
    );
}

#[test]
fn plan_resolve_cases() {
    assert_eq!(plan_resolve(None, None, None, true), Ok(RolePlan::NoRole));
    assert_eq!(
        plan_resolve(Some(&SessionSeed::Global), None, Some("n1"), false),
        Ok(RolePlan::Pick {
            reuse: Some("n1".into()),
            scope: AssistantCandidateScope::Neighborhood { self_id: "n1".into(), policy: NeighborhoodPoolPolicy::default_policy() },
        })
    );
    assert_eq!(
        plan_resolve(Some(&SessionSeed::Global), None, None, true),
        Ok(RolePlan::Pick { reuse: None, scope: AssistantCandidateScope::Global { limit: 7 } })
    );
    let seed = SessionSeed::Neuron("ghost".into());
    assert_eq!(plan_resolve(Some(&seed), None, None, true), Err(AppError::NeuronNotFound("ghost".into())));

    let plain = RoleNeuron { id: "p".into(), content: "c".into(), system_type: None, behavior: None };
    let seed = SessionSeed::Neuron("p".into());
    assert_eq!(
        plan_resolve(Some(&seed), Some(&plain), None, false),
        Ok(RolePlan::Pick {
            reuse: None,
            scope: AssistantCandidateScope::Neighborhood { self_id: "p".into(), policy: NeighborhoodPoolPolicy::default_policy() },
        })
    );

    let mut sys = RoleNeuron { id: "s".into(), content: "c".into(), system_type: Some("session.x".into()), behavior: None };
    let seed = SessionSeed::Neuron("s".into());
    assert_eq!(
        plan_resolve(Some(&seed), Some(&sys), None, false),
        Err(AppError::InvalidInput("neuron s is a system neuron but has no behavior".into()))
    );
    sys.behavior = Some(SessionBehavior { selection: SelectionPolicy::Fixed, tools: ToolPolicy::NoTools, insert_id: None });
    assert_eq!(plan_resolve(Some(&seed), Some(&sys), None, false), Ok(RolePlan::Fixed));
    sys.behavior = Some(SessionBehavior { selection: SelectionPolicy::NoPrompt, tools: ToolPolicy::NoTools, insert_id: None });
    assert_eq!(plan_resolve(Some(&seed), Some(&sys), None, false), Ok(RolePlan::NoRole));
    sys.behavior = Some(SessionBehavior { selection: SelectionPolicy::Global { limit: 3 }, tools: ToolPolicy::NoTools, insert_id: None });
    assert_eq!(
        plan_resolve(Some(&seed), Some(&sys), Some("a"), true),
        Ok(RolePlan::Pick {
            reuse: None,
            scope: AssistantCandidateScope::Neighborhood { self_id: "a".into(), policy: NeighborhoodPoolPolicy::default_policy() },
        }),
        "Global falls back to the default neighborhood for system neurons"
    );
}
