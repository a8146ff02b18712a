use pulsar_core::drafts::{
    check_model_output, parse_failure_message, read_plan_of, extract_json_array_text, extract_json_object_text, finish_drafts, json_shape, DraftParse,
    DraftRead, DraftRequest, GeneratedNeuronDraft, JsonKind,
};
use pulsar_core::error::AppError;

fn draft_from(value: &serde_json::Value) -> Result<GeneratedNeuronDraft, String> {
    let obj = value.as_object().ok_or_else(|| "expected a draft object".to_string())?;
    let text = |key: &str| -> Result<String, String> {
        obj.get(key).and_then(|v| v.as_str()).map(|s| s.to_string()).ok_or_else(|| format!("missing field `{key}`"))
    };
    let tool_ids = match obj.get("tool_ids") {
        Some(serde_json::Value::Array(items)) => items.iter().filter_map(|v| v.as_str().map(|s| s.to_string())).collect(),
        _ => Vec::new(),
    };
    Ok(GeneratedNeuronDraft { desc: text("desc")?, content: text("content")?, tool_ids })
}

/// Reads a text into drafts the way the caller of a draft parse does.
fn read(text: &str, how: DraftRead) -> Result<Vec<GeneratedNeuronDraft>, String> {
    let value: serde_json::Value = serde_json::from_str(text).map_err(|e| e.to_string())?;
    match how {
        DraftRead::List => value.as_array().ok_or("not a list")?.iter().map(draft_from).collect(),
        DraftRead::NeuronsList => {
            value["neurons"].as_array().ok_or("not a list")?.iter().map(draft_from).collect()
        }
        DraftRead::Single => Ok(vec![draft_from(&value)?]),
    }
}

fn parse(text: &str, expected: usize) -> Result<Vec<GeneratedNeuronDraft>, AppError> {
    let (mut p, mut req) = DraftParse::start(text, expected);
    loop {
        match req {
            DraftRequest::Done(r) => return r,
            DraftRequest::Read { text, read: how } => {
                let outcome = read(&text, how);
                req = p.absorb(outcome);
            }
        }
    }
}

fn draft(desc: &str, content: &str) -> GeneratedNeuronDraft {
    GeneratedNeuronDraft { desc: desc.into(), content: content.into(), tool_ids: vec![] }
}

#[test]
fn json_shape_reports_the_parse() {
    assert_eq!(json_shape("[1]"), JsonKind::Array);
    assert_eq!(json_shape("{\"neurons\": []}"), JsonKind::Object { neurons_list: true });
    assert_eq!(json_shape("{\"neurons\": 3}"), JsonKind::Object { neurons_list: false });
    assert_eq!(json_shape("\"x\""), JsonKind::Scalar);
    assert!(matches!(json_shape("{oops"), JsonKind::Invalid(_)));
}

#[test]
fn object_text_is_found_inside_prose() {
    assert_eq!(extract_json_object_text("  {\"a\": 1}  ").unwrap(), "{\"a\": 1}");
    assert_eq!(extract_json_object_text("Sure: {\"neuron_id\": \"n1\"} done").unwrap(), "{\"neuron_id\": \"n1\"}");
    assert_eq!(
        extract_json_object_text("no json here"),
        Err(AppError::InvalidInput("LLM response missing JSON object".into()))
    );
    assert_eq!(
        extract_json_object_text("only { open"),
        Err(AppError::InvalidInput("LLM response missing JSON object end".into()))
    );
    assert_eq!(
        extract_json_object_text("} then {"),
        Err(AppError::InvalidInput("LLM response has invalid JSON object bounds".into()))
    );
    match extract_json_object_text("x {oops} y") {
        Err(AppError::InvalidInput(m)) => assert!(m.starts_with("Failed to parse LLM JSON: ")),
        other => panic!("unexpected {other:?}"),
    }
}

#[test]
fn array_text_accepts_wrapped_lists() {
    let (t, how) = extract_json_array_text("[1, 2]").unwrap();
    assert_eq!((t.as_str(), how), ("[1, 2]", Some(DraftRead::List)));
    let (t, how) = extract_json_array_text("{\"neurons\": [1]}").unwrap();
    assert_eq!((t.as_str(), how), ("{\"neurons\": [1]}", Some(DraftRead::NeuronsList)));
    let (t, how) = extract_json_array_text("list: [{\"desc\": \"a\"}] end").unwrap();
    assert_eq!((t.as_str(), how), ("[{\"desc\": \"a\"}]", Some(DraftRead::List)));
    assert_eq!(
        extract_json_array_text("none"),
        Err(AppError::InvalidInput("LLM response missing JSON array".into()))
    );
}

#[test]
fn drafts_parse_from_lists_objects_and_prose() {
    let text = "[{\"desc\":\"a\",\"content\":\"A\"},{\"desc\":\"b\",\"content\":\"B\"}]";
    assert_eq!(parse(text, 2).unwrap(), vec![draft("a", "A"), draft("b", "B")]);
    // More than asked: the first ones are kept.
    assert_eq!(parse(text, 1).unwrap(), vec![draft("a", "A")]);

    let wrapped = "{\"neurons\":[{\"desc\":\"a\",\"content\":\"A\",\"tool_ids\":[\"t\"]}]}";
    let got = parse(wrapped, 1).unwrap();
    assert_eq!(got[0].tool_ids, vec!["t".to_string()]);

    let single = "Here you go: {\"desc\":\"a\",\"content\":\"A\",\"tool_ids\":[]} thanks";
    assert_eq!(parse(single, 1).unwrap(), vec![draft("a", "A")]);
}

#[test]
fn drafts_parse_failures() {
    assert_eq!(parse("[]", 0), Err(AppError::InvalidInput("expected draft count must be >= 1".into())));
    assert_eq!(parse("[]", 2), Err(AppError::NeuronBootstrapFailed("Generated neuron list was empty".into())));
    // One draft asked, no object anywhere: the object search answers.
    assert_eq!(parse("[]", 1), Err(AppError::InvalidInput("LLM response missing JSON object".into())));
    assert_eq!(
        parse("[{\"desc\":\"a\",\"content\":\"A\"}]", 2),
        Err(AppError::NeuronBootstrapFailed("Expected 2 generated neuron(s), got 1".into()))
    );
    assert_eq!(
        parse("[{\"desc\":\" \",\"content\":\"A\"}]", 1),
        Err(AppError::NeuronBootstrapFailed("Generated neuron must have non-empty desc/content".into()))
    );
    match parse("[{\"content\":\"A\"}]", 1) {
        Err(AppError::NeuronBootstrapFailed(m)) => {
            assert_eq!(m, "Invalid generated neuron list JSON: missing field `desc`")
        }
        other => panic!("unexpected {other:?}"),
    }
    match parse("{\"content\":\"A\"}", 1) {
        Err(AppError::NeuronBootstrapFailed(m)) => assert_eq!(m, "Invalid generated neuron JSON: missing field `desc`"),
        other => panic!("unexpected {other:?}"),
    }
}

#[test]
fn finish_keeps_the_first_drafts() {
    let got = finish_drafts(vec![draft("a", "A"), draft("b", "B"), draft("c", "C")], 2).unwrap();
    assert_eq!(got, vec![draft("a", "A"), draft("b", "B")]);
}

#[test]
fn blank_model_output_is_an_error() {
    assert!(check_model_output("ok").is_ok());
    assert_eq!(
        check_model_output("  \n"),
        Err(AppError::LlmRequestFailed("Neuron model returned an empty response".into()))
    );
}

#[test]
fn read_plan_by_shape() {
    assert_eq!(read_plan_of(&JsonKind::Array), Some(DraftRead::List));
    assert_eq!(read_plan_of(&JsonKind::Object { neurons_list: true }), Some(DraftRead::NeuronsList));
    assert_eq!(read_plan_of(&JsonKind::Object { neurons_list: false }), Some(DraftRead::Single));
    assert_eq!(read_plan_of(&JsonKind::Scalar), None);
    assert_eq!(read_plan_of(&JsonKind::Invalid("bad".into())), None);
}

#[test]
fn parse_failure_carries_the_parser_message() {
    assert_eq!(parse_failure_message("Failed to parse LLM JSON: ", &JsonKind::Invalid("eof".into())), "Failed to parse LLM JSON: eof");
    assert_eq!(parse_failure_message("Failed to parse LLM JSON array: ", &JsonKind::Scalar), "Failed to parse LLM JSON array: ");
}
