use pulsar_core::hook_store::{hook_judgement_id, list_query, new_hook_judgement_id, pending_record, HookJudgementFilter, SqlParam};
use pulsar_core::judgement::{
    review_changed, review_reason, review_step, route_step, routing_action, score_applicable, score_step, switch_outcome,
    ReviewStep, ReviewTopic, RouteStep, RoutingAction, ScoreStep, SwitchOutcome,
};
use pulsar_core::models::TopicStatus;
use pulsar_core::openai_compat::{
    endpoint, normalize_base_url, provider_error_message, sse_data, FunctionCallWire, StreamAggregator, StreamChoice,
    StreamChunk, StreamDelta, ToolCallWire, Usage,
};

fn filter(hook_type: Option<&str>, status: Option<&str>, conv: Option<&str>, limit: Option<i64>, offset: Option<i64>) -> HookJudgementFilter {
    HookJudgementFilter {
        hook_type: hook_type.map(|s| s.to_string()),
        status: status.map(|s| s.to_string()),
        conversation_id: conv.map(|s| s.to_string()),
        limit,
        offset,
    }
}

fn chunk(id: &str, content: Option<&str>, calls: Option<Vec<ToolCallWire>>, finish: Option<&str>) -> StreamChunk {
    StreamChunk {
        id: id.into(),
        object: "chat.completion.chunk".into(),
        created: 5,
        model: "m".into(),
        choices: vec![StreamChoice {
            index: 0,
            delta: StreamDelta { role: None, content: content.map(|s| s.to_string()), reasoning_content: None, tool_calls: calls },
            finish_reason: finish.map(|s| s.to_string()),
        }],
        usage: None,
    }
}

fn frag(id: &str, name: &str, args: &str) -> ToolCallWire {
    ToolCallWire { id: id.into(), kind: "function".into(), function: FunctionCallWire { name: name.into(), arguments: args.into() } }
}

#[test]
fn listing_sql_and_params() {
    let q = list_query(&filter(None, None, None, None, None));
    assert_eq!(q.count_sql, "SELECT COUNT(*) FROM hook_judgements");
    assert!(q.select_sql.ends_with("FROM hook_judgements ORDER BY created_at DESC"));
    assert!(q.count_params.is_empty() && q.select_params.is_empty());

    let q = list_query(&filter(Some("h"), None, Some("c"), Some(10), Some(20)));
    assert_eq!(q.count_sql, "SELECT COUNT(*) FROM hook_judgements WHERE hook_type = ? AND conversation_id = ?");
    assert!(q.select_sql.ends_with(" WHERE hook_type = ? AND conversation_id = ? ORDER BY created_at DESC LIMIT ? OFFSET ?"));
    assert_eq!(q.count_params, vec![SqlParam::Text("h".into()), SqlParam::Text("c".into())]);
    assert_eq!(
        q.select_params,
        vec![SqlParam::Text("h".into()), SqlParam::Text("c".into()), SqlParam::Int(10), SqlParam::Int(20)]
    );

    let q = list_query(&filter(None, Some("ok"), None, None, Some(3)));
    assert!(q.select_sql.ends_with(" WHERE status = ? ORDER BY created_at DESC LIMIT -1 OFFSET ?"));
    assert_eq!(q.select_params, vec![SqlParam::Text("ok".into()), SqlParam::Int(3)]);
    let q = list_query(&filter(None, None, None, Some(4), None));
    assert!(q.select_sql.ends_with(" ORDER BY created_at DESC LIMIT ?"));
}

#[test]
fn pending_record_fields() {
    let id = new_hook_judgement_id(0);
    assert!(id.starts_with("hj_") && id.ends_with("_0"));
    let r = pending_record(
        &id,
        "conv_1",
        Some("sess_1"),
        Some(3),
        "assistant_complete_scope",
        Some("after_persist_outcome"),
        "{\"topic_id\":\"t1\"}",
        Some("openai"),
        Some("gpt-4o"),
        1234,
    );
    assert_eq!(r.status, "pending");
    assert_eq!(r.conversation_id, "conv_1");
    assert_eq!(r.attempts, 0);
    assert_eq!(r.attempts_detail, "[]");
    assert_eq!(r.raw_response, "");
    assert_eq!(r.created_at, 1234);
    assert_eq!(r.updated_at, 1234);
    assert_eq!(r.inject_point.as_deref(), Some("after_persist_outcome"));
}

#[test]
fn judgement_ids_are_time_and_sequence() {
    assert_eq!(hook_judgement_id(1700000000000, 7), "hj_1700000000000_7");
    assert_eq!(hook_judgement_id(-5, 0), "hj_-5_0");
}

#[test]
fn judgement_consumption_rules() {
    assert!(score_applicable(Some(3)) && score_applicable(Some(-5)));
    assert!(!score_applicable(Some(0)) && !score_applicable(Some(6)) && !score_applicable(None));
    assert_eq!(score_step(false, Some(3), 2), ScoreStep::NoTopic);
    assert_eq!(score_step(true, Some(3), 2), ScoreStep::Apply(3));
    assert_eq!(score_step(true, Some(3), 0), ScoreStep::NoStampedNeuron);
    assert_eq!(score_step(true, Some(9), 2), ScoreStep::NotApplicable);
    assert_eq!(score_step(true, None, 2), ScoreStep::Missing);
    assert_eq!(routing_action(Some("switch")), RoutingAction::Switch);
    assert_eq!(routing_action(Some("none")), RoutingAction::Stay);
    assert_eq!(routing_action(None), RoutingAction::Stay);
    assert_eq!(routing_action(Some("create")), RoutingAction::Create);
    assert_eq!(route_step(Some("switch"), Some("t1"), true), RouteStep::Switch("t1".into()));
    assert_eq!(route_step(Some("switch"), None, false), RouteStep::Keep);
    assert_eq!(route_step(Some("create"), None, false), RouteStep::CreateBound);
    assert_eq!(route_step(Some("create"), None, true), RouteStep::Keep);
    assert_eq!(switch_outcome(Some("s2"), "s1"), SwitchOutcome::MoveToSession("s2".into()));
    assert_eq!(switch_outcome(Some("s1"), "s1"), SwitchOutcome::Bind);
    assert_eq!(switch_outcome(None, "s1"), SwitchOutcome::BindSessionFirst);
}

#[test]
fn round_review_gating() {
    let t = |status, scope_empty| Some(ReviewTopic { status, scope_empty });
    assert_eq!(review_step(None, false, true), ReviewStep::Skip);
    assert_eq!(review_step(t(TopicStatus::Paused, false), false, true), ReviewStep::Skip);
    assert_eq!(review_step(t(TopicStatus::WaitingUser, true), false, true), ReviewStep::Skip);
    assert_eq!(review_step(t(TopicStatus::InProgress, true), true, false), ReviewStep::CloseDone);
    assert_eq!(review_step(t(TopicStatus::WrappingUp, false), true, true), ReviewStep::Skip);
    assert_eq!(review_step(t(TopicStatus::WrappingUp, false), false, true), ReviewStep::CloseDone);
    assert_eq!(review_step(t(TopicStatus::InProgress, false), false, false), ReviewStep::Skip);
    assert_eq!(review_step(t(TopicStatus::Todo, false), false, true), ReviewStep::Judge);
    assert_eq!(review_reason(Some("  why ")), "why");
    assert_eq!(review_reason(Some("  ")), "（无 reason）");
    assert_eq!(review_reason(None), "（无 reason）");
    assert!(!review_changed(0, 0, 0, 0, 0, 0));
    assert!(review_changed(0, 0, 0, 0, 0, 1));
}

#[test]
fn event_stream_lines() {
    assert_eq!(sse_data("data: {\"a\":1}  "), Some("{\"a\":1}".to_string()));
    assert_eq!(sse_data("  data:x"), Some("x".to_string()));
    assert_eq!(sse_data("data: [DONE]"), None);
    assert_eq!(sse_data("data:   "), None);
    assert_eq!(sse_data(": keep-alive"), None);
    assert_eq!(sse_data("event: ping"), None);
}

#[test]
fn stream_chunks_aggregate() {
    let mut agg = StreamAggregator::new();
    agg.absorb(&chunk("c1", Some("Hel"), Some(vec![frag("call_1", "echo", "{\"a\"")]), None));
    agg.absorb(&chunk("c2", Some("lo"), Some(vec![frag("call_1", "", ":1}"), frag("call_2", "ls", "")]), None));
    let mut last = chunk("c3", None, Some(vec![frag("call_2", "", "")]), Some("tool_calls"));
    last.usage = Some(Usage { prompt_tokens: 1, completion_tokens: 2, total_tokens: 3, completion_tokens_details: None });
    agg.absorb(&last);
    let r = agg.finish();
    assert_eq!(r.id, "c1", "the first chunk's id is kept");
    assert_eq!(r.created, 5);
    assert_eq!(r.usage.map(|u| u.total_tokens), Some(3));
    assert_eq!(r.choices.len(), 1);
    let m = &r.choices[0].message;
    assert_eq!(m.content.as_deref(), Some("Hello"));
    let calls = m.tool_calls.as_ref().unwrap();
    assert_eq!(calls.len(), 2);
    assert_eq!(calls[0].function.arguments, "{\"a\":1}");
    assert_eq!(calls[1].function.name, "ls");
    assert_eq!(r.choices[0].finish_reason.as_deref(), Some("tool_calls"));
}

#[test]
fn client_urls_and_errors() {
    assert_eq!(normalize_base_url("https://x/v1//"), "https://x/v1");
    assert_eq!(endpoint("https://x/v1"), "https://x/v1/chat/completions");
    assert_eq!(
        provider_error_message("401 Unauthorized", "{}", Some("bad key"), None),
        "provider returned 401 Unauthorized: bad key"
    );
    assert_eq!(
        provider_error_message("500", "boom", Some(""), Some("E1")),
        "provider returned 500: E1: boom"
    );
    assert_eq!(provider_error_message("500", "boom", None, None), "provider returned 500: boom");
}
