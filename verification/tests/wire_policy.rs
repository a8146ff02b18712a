use pulsar_core::error::AppError;
use pulsar_core::models::{
    decode_selection_policy, ModelMessage, ModelMessageRole, NeighborhoodPoolPolicy, PolicyJson, PolicyMember,
    SelectionPolicy, ToolCall,
};
use pulsar_core::providers::{to_wire_message, WireMessage};
use pulsar_core::selection::{check_candidates, check_global_limit, missing_system_neuron};

fn msg(role: ModelMessageRole, content: &str) -> ModelMessage {
    ModelMessage { role, content: content.into(), tool_calls: None, tool_call_id: None, reasoning_content: None }
}

#[test]
fn wire_messages_follow_the_role() {
    match to_wire_message(&msg(ModelMessageRole::System, "sys")).unwrap() {
        WireMessage::System { content } => assert_eq!(content, "sys"),
        other => panic!("unexpected {other:?}"),
    }
    match to_wire_message(&msg(ModelMessageRole::User, "hi")).unwrap() {
        WireMessage::User { content } => assert_eq!(content, "hi"),
        other => panic!("unexpected {other:?}"),
    }
    let mut assistant = msg(ModelMessageRole::Assistant, "");
    assistant.tool_calls = Some(vec![ToolCall {
        id: "c1".into(),
        name: "get_neuron".into(),
        arguments: serde_json::Value::Object(serde_json::Map::new()),
    }]);
    match to_wire_message(&assistant).unwrap() {
        WireMessage::Assistant { content, tool_calls } => {
            assert_eq!(content, None);
            assert_eq!(tool_calls.unwrap()[0].id, "c1");
        }
        other => panic!("unexpected {other:?}"),
    }
    match to_wire_message(&msg(ModelMessageRole::Assistant, "answer")).unwrap() {
        WireMessage::Assistant { content, tool_calls } => {
            assert_eq!(content.as_deref(), Some("answer"));
            assert!(tool_calls.is_none());
        }
        other => panic!("unexpected {other:?}"),
    }
    let mut tool = msg(ModelMessageRole::Tool, "result");
    assert_eq!(
        to_wire_message(&tool).unwrap_err(),
        AppError::InvalidInput("Tool message missing tool_call_id".into())
    );
    tool.tool_call_id = Some("c1".into());
    match to_wire_message(&tool).unwrap() {
        WireMessage::Tool { tool_call_id, content } => {
            assert_eq!(tool_call_id, "c1");
            assert_eq!(content, "result");
        }
        other => panic!("unexpected {other:?}"),
    }
}

fn member(key: &str, limit: Option<u64>, policy: Option<NeighborhoodPoolPolicy>) -> PolicyMember {
    PolicyMember { key: key.into(), limit, policy }
}

#[test]
fn selection_policy_decodes_leniently() {
    assert_eq!(decode_selection_policy(&PolicyJson::Name("None".into())), Ok(SelectionPolicy::NoPrompt));
    assert_eq!(decode_selection_policy(&PolicyJson::Name("Fixed".into())), Ok(SelectionPolicy::Fixed));
    assert_eq!(
        decode_selection_policy(&PolicyJson::Name("Bogus".into())),
        Err("unknown SelectionPolicy variant: Bogus".to_string())
    );
    assert_eq!(
        decode_selection_policy(&PolicyJson::Other),
        Err("SelectionPolicy must be a string or an object".to_string())
    );
    // Older `Fixed { neuron_id }`: the payload is ignored.
    assert_eq!(
        decode_selection_policy(&PolicyJson::Members(vec![member("Fixed", None, None)])),
        Ok(SelectionPolicy::Fixed)
    );
    assert_eq!(
        decode_selection_policy(&PolicyJson::Members(vec![member("Global", None, None)])),
        Ok(SelectionPolicy::Global { limit: 7 })
    );
    assert_eq!(
        decode_selection_policy(&PolicyJson::Members(vec![member("x", None, None), member("Global", Some(3), None)])),
        Ok(SelectionPolicy::Global { limit: 3 })
    );
    assert_eq!(
        decode_selection_policy(&PolicyJson::Members(vec![member("Neighborhood", None, None)])),
        Ok(SelectionPolicy::Neighborhood { policy: NeighborhoodPoolPolicy::default_policy() })
    );
    assert_eq!(
        decode_selection_policy(&PolicyJson::Members(vec![member("x", None, None)])),
        Err("unknown SelectionPolicy variant".to_string())
    );
}

#[test]
fn selection_guards() {
    assert!(check_candidates(1).is_ok());
    assert_eq!(
        check_candidates(0),
        Err(AppError::InvalidInput("No neuron candidates available for selection".into()))
    );
    assert!(check_global_limit(7).is_ok());
    assert_eq!(
        check_global_limit(0),
        Err(AppError::InvalidInput("assistant global candidate limit must be >= 1".into()))
    );
    assert_eq!(
        missing_system_neuron("assistant_select_neuron"),
        AppError::InvalidInput("Missing system prompt neuron with system_type=assistant_select_neuron".into())
    );
}

use pulsar_core::models::NeuronKindFilter;
use pulsar_core::neuron_tools::{candidate_args, create_count, list_args, network_depth, required_text};

#[test]
fn tool_arguments_defaults_and_caps() {
    assert_eq!(required_text(Some("n1"), "id").unwrap(), "n1");
    assert_eq!(required_text(Some("  "), "id"), Err(AppError::InvalidInput("Missing: id".into())));
    assert_eq!(required_text(None, "purpose"), Err(AppError::InvalidInput("Missing: purpose".into())));

    let a = list_args(None, None, None, None);
    assert_eq!((a.page, a.page_size, a.search, a.kind), (0, 20, None, NeuronKindFilter::All));
    let a = list_args(Some(2), Some(50), Some("abc"), Some("System"));
    assert_eq!((a.page, a.page_size, a.search.as_deref(), a.kind), (2, 50, Some("abc"), NeuronKindFilter::System));

    assert_eq!(network_depth(None), 3);
    assert_eq!(network_depth(Some(2)), 2);
    assert_eq!(network_depth(Some(9)), 5);
    assert_eq!(create_count(None), 1);
    assert_eq!(create_count(Some(4)), 4);

    assert_eq!(candidate_args(None, None, None), Err(AppError::InvalidInput("Missing or invalid: n".into())));
    let q = candidate_args(Some(80), Some("src"), None).unwrap();
    assert_eq!((q.n, q.source_id.as_deref(), q.min_new), (50, Some("src"), 0));
    let q = candidate_args(Some(7), None, Some(2)).unwrap();
    assert_eq!((q.n, q.min_new), (7, 2));
}
