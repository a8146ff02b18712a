use pulsar_core::cycle::{
    gate_check, gate_match, validate_value, CycleFacts, CycleField, CycleParamKind,
    CycleParamSpec, CycleParamUsage, CycleValue, CycleValues, RoundOrigin, RoundRef, RoundShape,
};
use pulsar_core::models::{ConversationMode, Message, MessageBody, MessageRole};
use pulsar_core::round_types::RoundTriggerKind;

fn msg(role: MessageRole) -> Message {
    Message {
        role,
        body: MessageBody::Text { content: String::new(), reasoning: None, tool_calls: None },
        timestamp: 0,
        neuron_id: None,
    }
}

fn derive(messages: Vec<Message>, trigger: RoundTriggerKind) -> CycleFacts {
    CycleFacts::derive(&messages, &ConversationMode::Assistant, trigger, None)
}

fn spec(key: &str, field: CycleField, kind: CycleParamKind, default: CycleValue) -> CycleParamSpec {
    CycleParamSpec {
        key: key.to_string(),
        label: "test".to_string(),
        field: Some(field),
        round_ref: RoundRef::Current,
        kind,
        default,
        usage: CycleParamUsage::CallGate,
    }
}

fn values(list: Vec<(&str, CycleValue)>) -> CycleValues {
    let mut v = CycleValues::new();
    for (k, val) in list {
        v.insert(k.to_string(), val);
    }
    v
}

fn strs(list: &[&str]) -> Vec<String> {
    list.iter().map(|s| s.to_string()).collect()
}

#[test]
fn derive_counts_and_origin() {
    let facts = derive(
        vec![
            msg(MessageRole::User),
            msg(MessageRole::Assistant),
            msg(MessageRole::User),
            msg(MessageRole::Assistant),
            msg(MessageRole::Assistant),
        ],
        RoundTriggerKind::Poller,
    );
    assert_eq!(facts.user_rounds, 2);
    assert_eq!(facts.round_index, 3);
    assert_eq!(facts.rounds_since_user, 2);
    assert_eq!(facts.round_origin, RoundOrigin::ScheduledRound);
    assert_eq!(facts.mode, "assistant");
    assert_eq!(facts.trigger, "poller");
    assert_eq!(facts.round_shape_current, None);
    assert_eq!(facts.round_shape_previous, RoundShape::SettlingRound);
}

#[test]
fn derive_without_any_user_message() {
    let facts = derive(vec![msg(MessageRole::Assistant), msg(MessageRole::Assistant)], RoundTriggerKind::Poller);
    assert_eq!(facts.user_rounds, 0);
    assert_eq!(facts.rounds_since_user, 2, "no user message: every round is a scheduled one");
}

#[test]
fn previous_shape_from_last_tool_message() {
    let facts = derive(vec![msg(MessageRole::Assistant), msg(MessageRole::Tool)], RoundTriggerKind::User);
    assert_eq!(facts.round_shape_previous, RoundShape::ToolRound);
    assert_eq!(facts.round_origin, RoundOrigin::UserRound);
}

#[test]
fn field_accessors() {
    let facts = derive(vec![msg(MessageRole::User), msg(MessageRole::Assistant)], RoundTriggerKind::User);
    assert_eq!(facts.field_str(CycleField::RoundOrigin, RoundRef::Current), Some("user_round".to_string()));
    assert_eq!(facts.field_num(CycleField::UserRounds), Some(1));
    assert_eq!(facts.field_num(CycleField::RoundIndex), Some(1));
    assert_eq!(facts.field_num(CycleField::Mode), None, "enum fields have no number");
    assert_eq!(facts.field_str(CycleField::RoundShape, RoundRef::Current), None);
    assert_eq!(facts.field_bool(CycleField::RoundShape, RoundRef::Previous), Some(true));
}

#[test]
fn gate_enum_multi_empty_means_unlimited() {
    let params = vec![spec(
        "mode",
        CycleField::Mode,
        CycleParamKind::Enum { values: strs(&["assistant", "system"]), multi: true },
        CycleValue::Strs(vec![]),
    )];
    let facts = derive(vec![], RoundTriggerKind::User);
    assert!(gate_match(&params, &values(vec![]), &facts), "empty selection = any");
    assert!(gate_match(&params, &values(vec![("mode", CycleValue::Strs(strs(&["assistant"])))]), &facts));
    assert!(!gate_match(&params, &values(vec![("mode", CycleValue::Strs(strs(&["chat"])))]), &facts));
}

#[test]
fn gate_number_is_modulo() {
    let params = vec![spec(
        "every",
        CycleField::UserRounds,
        CycleParamKind::Number { min: 1, max: 50 },
        CycleValue::Int(3),
    )];
    let mk = |user_rounds: usize| {
        let mut msgs = Vec::new();
        for _ in 0..user_rounds {
            msgs.push(msg(MessageRole::User));
        }
        derive(msgs, RoundTriggerKind::User)
    };
    assert!(gate_match(&params, &values(vec![]), &mk(0)), "0 % 3 == 0 covers the first round");
    assert!(gate_match(&params, &values(vec![]), &mk(3)));
    assert!(!gate_match(&params, &values(vec![]), &mk(1)));
    assert!(!gate_match(&params, &values(vec![]), &mk(2)));
}

#[test]
fn gate_shape_current_missing_fails_safe() {
    let params = vec![spec(
        "shape",
        CycleField::RoundShape,
        CycleParamKind::Enum { values: strs(&["tool_round", "settling_round"]), multi: false },
        CycleValue::Str("settling_round".into()),
    )];
    let facts = derive(vec![], RoundTriggerKind::User);
    assert!(!gate_match(&params, &values(vec![]), &facts));
}

#[test]
fn gate_internal_params_are_ignored() {
    let params = vec![CycleParamSpec {
        key: "brief_every".to_string(),
        label: "test".to_string(),
        field: None,
        round_ref: RoundRef::Current,
        kind: CycleParamKind::Number { min: 1, max: 50 },
        default: CycleValue::Int(3),
        usage: CycleParamUsage::Internal,
    }];
    let facts = derive(vec![], RoundTriggerKind::User);
    assert!(gate_match(&params, &values(vec![]), &facts));
}

#[test]
fn validate_value_rules() {
    let multi = spec(
        "mode",
        CycleField::Mode,
        CycleParamKind::Enum { values: strs(&["assistant", "system"]), multi: true },
        CycleValue::Strs(vec![]),
    );
    assert!(validate_value(&multi, &CycleValue::Strs(strs(&["assistant"]))).is_ok());
    assert!(validate_value(&multi, &CycleValue::Strs(strs(&["chat"]))).is_err());
    assert!(validate_value(&multi, &CycleValue::Int(1)).is_err());

    let num = spec("every", CycleField::UserRounds, CycleParamKind::Number { min: 1, max: 50 }, CycleValue::Int(3));
    assert!(validate_value(&num, &CycleValue::Int(1)).is_ok());
    assert!(validate_value(&num, &CycleValue::Int(51)).is_err());
    assert!(validate_value(&num, &CycleValue::Bool(true)).is_err());

    let single = spec(
        "shape",
        CycleField::RoundShape,
        CycleParamKind::Enum { values: strs(&["tool_round", "settling_round"]), multi: false },
        CycleValue::Str("settling_round".into()),
    );
    assert!(validate_value(&single, &CycleValue::Str("tool_round".into())).is_ok());
    assert!(validate_value(&single, &CycleValue::Str("nope".into())).is_err());

    let boolean = spec("switch", CycleField::RoundShape, CycleParamKind::Bool, CycleValue::Bool(true));
    assert!(validate_value(&boolean, &CycleValue::Bool(false)).is_ok());
    assert!(validate_value(&boolean, &CycleValue::Int(0)).is_err());
}

#[test]
fn gate_check_names_first_blocking_param() {
    let params = vec![
        spec("every", CycleField::UserRounds, CycleParamKind::Number { min: 1, max: 50 }, CycleValue::Int(1)),
        spec("every2", CycleField::UserRounds, CycleParamKind::Number { min: 1, max: 50 }, CycleValue::Int(2)),
    ];
    let facts = derive(vec![msg(MessageRole::User)], RoundTriggerKind::User);
    assert_eq!(gate_check(&params, &values(vec![]), &facts), Some("every2".to_string()));
    let facts2 = derive(vec![msg(MessageRole::User), msg(MessageRole::User)], RoundTriggerKind::User);
    assert_eq!(gate_check(&params, &values(vec![]), &facts2), None);
}

#[test]
fn nonpositive_step_gates_every_round() {
    let params = vec![spec("every", CycleField::UserRounds, CycleParamKind::Number { min: 0, max: 50 }, CycleValue::Int(0))];
    let facts = derive(vec![msg(MessageRole::User)], RoundTriggerKind::User);
    assert!(gate_match(&params, &values(vec![]), &facts));
}
