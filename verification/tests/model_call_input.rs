use pulsar_core::error::AppError;
use pulsar_core::model_call_input::{ModelAppendTemplate, ModelCallInput};
use pulsar_core::models::{Message, MessageBody, MessageRole, ModelMessage, ModelMessageRole, ToolCall};

fn msg(role: ModelMessageRole, content: &str) -> ModelMessage {
    ModelMessage { role, content: content.to_string(), tool_calls: None, tool_call_id: None, reasoning_content: None }
}

fn tool_msg(content: &str, tool_call_id: &str) -> ModelMessage {
    ModelMessage {
        role: ModelMessageRole::Tool,
        content: content.to_string(),
        tool_calls: None,
        tool_call_id: Some(tool_call_id.to_string()),
        reasoning_content: None,
    }
}

fn tool_call_msg(content: &str, ids: &[&str]) -> ModelMessage {
    ModelMessage {
        role: ModelMessageRole::Assistant,
        content: content.to_string(),
        tool_calls: Some(
            ids.iter()
                .map(|id| ToolCall {
                    id: id.to_string(),
                    name: "test_tool".to_string(),
                    arguments: serde_json::Value::Object(serde_json::Map::new()),
                })
                .collect(),
        ),
        tool_call_id: None,
        reasoning_content: None,
    }
}

#[test]
fn replace_system_on_empty_history_prepends() {
    let out = ModelCallInput::replace_system(&[], "S");
    assert_eq!(out, vec![msg(ModelMessageRole::System, "S")]);
}

#[test]
fn replace_system_when_no_system_prepends() {
    let history = vec![msg(ModelMessageRole::User, "u1"), msg(ModelMessageRole::Assistant, "a1")];
    let out = ModelCallInput::replace_system(&history, "S");
    assert_eq!(
        out,
        vec![
            msg(ModelMessageRole::System, "S"),
            msg(ModelMessageRole::User, "u1"),
            msg(ModelMessageRole::Assistant, "a1"),
        ]
    );
    assert_eq!(history.len(), 2);
}

#[test]
fn replace_system_replaces_first_system_only() {
    let history = vec![
        msg(ModelMessageRole::System, "old"),
        msg(ModelMessageRole::User, "u1"),
        msg(ModelMessageRole::System, "keep"),
    ];
    let out = ModelCallInput::replace_system(&history, "new");
    assert_eq!(
        out,
        vec![
            msg(ModelMessageRole::System, "new"),
            msg(ModelMessageRole::User, "u1"),
            msg(ModelMessageRole::System, "keep"),
        ]
    );
}

#[test]
fn replace_system_with_empty_prompt_never_inserts_empty_system() {
    let history = vec![msg(ModelMessageRole::User, "u1"), msg(ModelMessageRole::Assistant, "a1")];
    let out = ModelCallInput::replace_system(&history, "");
    assert_eq!(out, history);
}

#[test]
fn replace_system_with_empty_prompt_drops_empty_system_keeps_nonempty() {
    let history = vec![
        msg(ModelMessageRole::System, ""),
        msg(ModelMessageRole::User, "u1"),
        msg(ModelMessageRole::System, "[Previous conversation summary]: ..."),
    ];
    let out = ModelCallInput::replace_system(&history, "");
    assert_eq!(
        out,
        vec![msg(ModelMessageRole::User, "u1"), msg(ModelMessageRole::System, "[Previous conversation summary]: ...")]
    );
}

#[test]
fn append_adds_at_end() {
    let history = vec![msg(ModelMessageRole::User, "u1")];
    let out = ModelCallInput::append(&history, msg(ModelMessageRole::User, "u2"));
    assert_eq!(out, vec![msg(ModelMessageRole::User, "u1"), msg(ModelMessageRole::User, "u2")]);
}

#[test]
fn insert_at_truncates_tail() {
    let history = vec![
        msg(ModelMessageRole::System, "s"),
        msg(ModelMessageRole::User, "u1"),
        msg(ModelMessageRole::Assistant, "a1"),
    ];
    let out = ModelCallInput::insert_at(&history, 1, msg(ModelMessageRole::User, "cut")).unwrap();
    assert_eq!(out, vec![msg(ModelMessageRole::System, "s"), msg(ModelMessageRole::User, "cut")]);
}

#[test]
fn insert_at_end_is_append() {
    let history = vec![msg(ModelMessageRole::User, "u1")];
    let out = ModelCallInput::insert_at(&history, 1, msg(ModelMessageRole::User, "u2")).unwrap();
    assert_eq!(out, vec![msg(ModelMessageRole::User, "u1"), msg(ModelMessageRole::User, "u2")]);
}

#[test]
fn insert_at_out_of_range_errors() {
    let history = vec![msg(ModelMessageRole::User, "u1")];
    let err = ModelCallInput::insert_at(&history, 2, msg(ModelMessageRole::User, "x")).unwrap_err();
    assert!(matches!(err, AppError::InvalidInput(_)));
}

#[test]
fn sanitize_keeps_paired_tool_messages() {
    let history = vec![
        msg(ModelMessageRole::User, "u1"),
        tool_call_msg("thinking", &["call_1"]),
        tool_msg("result ok", "call_1"),
        msg(ModelMessageRole::Assistant, "done"),
    ];
    let out = ModelCallInput::sanitize_tool_pairs(&history);
    assert_eq!(out, history);
}

#[test]
fn sanitize_downgrades_orphan_with_text() {
    let history = vec![tool_call_msg("I will check", &["call_orphan"])];
    let out = ModelCallInput::sanitize_tool_pairs(&history);
    assert_eq!(out.len(), 1);
    assert_eq!(out[0].role, ModelMessageRole::Assistant);
    assert!(out[0].tool_calls.is_none());
    assert_eq!(out[0].content, "I will check");
}

#[test]
fn sanitize_drops_orphan_without_text() {
    let history = vec![tool_call_msg("", &["call_orphan"])];
    let out = ModelCallInput::sanitize_tool_pairs(&history);
    assert!(out.is_empty());
}

#[test]
fn sanitize_downgrades_partially_answered_calls_and_drops_orphan_tool() {
    let history = vec![tool_call_msg("two calls", &["call_1", "call_2"]), tool_msg("only one answered", "call_1")];
    let out = ModelCallInput::sanitize_tool_pairs(&history);
    assert_eq!(out.len(), 1);
    assert_eq!(out[0].role, ModelMessageRole::Assistant);
    assert!(out[0].tool_calls.is_none());
    assert_eq!(out[0].content, "two calls");
}

#[test]
fn sanitize_drops_tool_without_declaring_assistant() {
    let history = vec![msg(ModelMessageRole::User, "u1"), tool_msg("ghost result", "call_ghost")];
    let out = ModelCallInput::sanitize_tool_pairs(&history);
    assert_eq!(out, vec![msg(ModelMessageRole::User, "u1")]);
}

#[test]
fn sanitize_drops_all_when_parallel_calls_unanswered() {
    let history = vec![tool_call_msg("", &["call_1", "call_2"]), tool_msg("result for first", "call_1")];
    let out = ModelCallInput::sanitize_tool_pairs(&history);
    assert!(out.is_empty());
}

#[test]
fn with_user_input_neuron_structured_sections() {
    let out = ModelCallInput::with_user_input_for_append("你是检索助手", "查一下天气", ModelAppendTemplate::Neuron);
    assert!(out.contains("【神经元】"));
    assert!(out.contains("## 角色与能力\n\n你是检索助手"));
    assert!(out.contains("## 本轮输入\n\n查一下天气"));
}

#[test]
fn with_user_input_manual_structured_sections() {
    let out = ModelCallInput::with_user_input_for_append("只输出 JSON", "{\"a\":1}", ModelAppendTemplate::Manual);
    assert!(out.contains("【操作说明书】"));
    assert!(out.contains("## 操作说明书（工具与输出契约）\n\n只输出 JSON"));
    assert!(out.contains("## 待处理输入\n\n{\"a\":1}"));
}

#[test]
fn with_user_input_skips_empty_sides() {
    let neuron_only = ModelCallInput::with_user_input_for_append("hint", "", ModelAppendTemplate::Neuron);
    assert!(neuron_only.contains("## 角色与能力\n\nhint"));
    assert!(!neuron_only.contains("## 本轮输入"));

    let manual_only = ModelCallInput::with_user_input_for_append("", "hello", ModelAppendTemplate::Manual);
    assert!(manual_only.contains("## 待处理输入\n\nhello"));
    assert!(!manual_only.contains("## 操作说明书（工具与输出契约）"));

    assert_eq!(ModelCallInput::with_user_input_for_append("", "", ModelAppendTemplate::Neuron), "");
}

#[test]
fn assemble_empty_history_splits_system_and_user() {
    let out = ModelCallInput::assemble(&[], "role", "c", "u", ModelAppendTemplate::Neuron);
    assert_eq!(out.len(), 2);
    assert_eq!(out[0].role, ModelMessageRole::System);
    assert_eq!(out[0].content, "role");
    assert_eq!(out[1].role, ModelMessageRole::User);
    assert!(out[1].content.starts_with("【神经元】"));
    assert!(out[1].content.contains("## 角色与能力\n\nc"));
    assert!(out[1].content.contains("## 本轮输入\n\nu"));
    let out = ModelCallInput::assemble(&[], "", "c", "u", ModelAppendTemplate::Neuron);
    assert_eq!(out.len(), 1);
    assert_eq!(out[0].role, ModelMessageRole::User);
    let out = ModelCallInput::assemble(&[], "role", "", "", ModelAppendTemplate::Neuron);
    assert_eq!(out.len(), 1);
    assert_eq!(out[0].role, ModelMessageRole::System);
}

#[test]
fn assemble_nonempty_history_appends_user_body() {
    let history = vec![msg(ModelMessageRole::System, "old"), msg(ModelMessageRole::User, "u1")];
    let out = ModelCallInput::assemble(&history, "role", "manual", "payload", ModelAppendTemplate::Manual);
    assert_eq!(out[0], msg(ModelMessageRole::System, "role"));
    assert_eq!(out[1], msg(ModelMessageRole::User, "u1"));
    assert_eq!(out[2].role, ModelMessageRole::User);
    assert!(out[2].content.contains("## 操作说明书（工具与输出契约）\n\nmanual"));
    assert!(out[2].content.contains("## 待处理输入\n\npayload"));
}

#[test]
fn from_message_refills_nudge_and_role_context() {
    let nudge = Message { role: MessageRole::User, body: MessageBody::Nudge { content: "brief".into() }, timestamp: 0, neuron_id: None };
    let context = Message {
        role: MessageRole::User,
        body: MessageBody::RoleContext { content: "[当前角色]\nctx".into() },
        timestamp: 0,
        neuron_id: None,
    };
    let nudge_back = ModelCallInput::from_message(&nudge).expect("nudge refills");
    assert_eq!(nudge_back.role, ModelMessageRole::User);
    assert_eq!(nudge_back.content, "brief");
    let ctx_back = ModelCallInput::from_message(&context).expect("role context refills");
    assert_eq!(ctx_back.role, ModelMessageRole::User);
    assert_eq!(ctx_back.content, "[当前角色]\nctx");
}

#[test]
fn project_history_skips_empty_assistant_and_keeps_order() {
    let stored = vec![
        Message {
            role: MessageRole::User,
            body: MessageBody::Text { content: "hi".into(), reasoning: None, tool_calls: None },
            timestamp: 1,
            neuron_id: None,
        },
        Message {
            role: MessageRole::Assistant,
            body: MessageBody::Text { content: "  ".into(), reasoning: None, tool_calls: None },
            timestamp: 2,
            neuron_id: None,
        },
        Message {
            role: MessageRole::Assistant,
            body: MessageBody::Text { content: "hello".into(), reasoning: None, tool_calls: None },
            timestamp: 3,
            neuron_id: None,
        },
    ];
    let out = ModelCallInput::project_history(&stored);
    let contents: Vec<&str> = out.iter().map(|m| m.content.as_str()).collect();
    assert_eq!(contents, vec!["hi", "hello"]);
}

#[test]
fn insert_at_error_names_index_and_length() {
    let history = vec![msg(ModelMessageRole::User, "u1")];
    let err = ModelCallInput::insert_at(&history, 12, msg(ModelMessageRole::User, "x")).unwrap_err();
    assert_eq!(err, AppError::InvalidInput("insert_at index 12 exceeds history length 1".to_string()));
}

#[test]
fn text_carrying_tool_calls_goes_as_assistant() {
    let call = ToolCall { id: "c1".into(), name: "t".into(), arguments: serde_json::Value::Null };
    let stored = Message {
        role: MessageRole::User,
        body: MessageBody::Text { content: "x".into(), reasoning: None, tool_calls: Some(vec![call.clone()]) },
        timestamp: 0,
        neuron_id: None,
    };
    let m = ModelCallInput::from_message(&stored).unwrap();
    assert_eq!(m.role, ModelMessageRole::Assistant);
    assert_eq!(m.tool_calls, Some(vec![call]));
    let plain = Message {
        role: MessageRole::User,
        body: MessageBody::Text { content: "x".into(), reasoning: None, tool_calls: Some(vec![]) },
        timestamp: 0,
        neuron_id: None,
    };
    let back = ModelCallInput::from_message(&plain).unwrap();
    assert_eq!(back.role, ModelMessageRole::User);
    assert_eq!(back.tool_calls, None, "an empty call list is sent as no list");
    let projected = ModelCallInput::project_history(&[plain]);
    assert_eq!(projected.len(), 1);
    assert_eq!(projected[0].tool_calls, None);
    assert_eq!(projected[0].role, ModelMessageRole::User);
}

#[test]
fn sanitizing_twice_changes_nothing() {
    let history = vec![
        msg(ModelMessageRole::User, "u1"),
        tool_call_msg("thinking", &["a", "b"]),
        tool_msg("ra", "a"),
        tool_call_msg("", &["c"]),
        tool_msg("rc", "c"),
        tool_msg("stray", "zzz"),
        tool_call_msg("", &["d"]),
        msg(ModelMessageRole::Assistant, "done"),
    ];
    let once = ModelCallInput::sanitize_tool_pairs(&history);
    let twice = ModelCallInput::sanitize_tool_pairs(&once);
    assert_eq!(once, twice);
}
