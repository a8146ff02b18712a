//! The judgement ledger's statements run against SQLite.

use rusqlite::types::Value;
use rusqlite::{params_from_iter, Connection, OptionalExtension};

use pulsar_core::hook_store::{
    list_query, new_hook_judgement_id, pending_record, HookJudgementFilter, HookJudgementListResult,
    HookJudgementRecord, SqlParam, ADD_INJECT_POINT_SQL, FINISH_JUDGEMENT_SQL, HOOK_JUDGEMENTS_DDL,
    INSERT_JUDGEMENT_SQL, SELECT_COLUMNS,
};

struct Ledger {
    conn: Connection,
    seq: u64,
}

fn test_store(name: &str) -> Ledger {
    let _ = name;
    let conn = Connection::open_in_memory().unwrap();
    conn.execute_batch(HOOK_JUDGEMENTS_DDL).unwrap();
    // The column already exists in a fresh table: the database reports a duplicate.
    let again = conn.execute(ADD_INJECT_POINT_SQL, []);
    assert!(again.unwrap_err().to_string().contains("duplicate column name"));
    Ledger { conn, seq: 0 }
}

fn bind(params: &[SqlParam]) -> Vec<Value> {
    params
        .iter()
        .map(|p| match p {
            SqlParam::Text(s) => Value::Text(s.clone()),
            SqlParam::Int(i) => Value::Integer(*i),
        })
        .collect()
}

fn row_to_record(row: &rusqlite::Row) -> rusqlite::Result<HookJudgementRecord> {
    Ok(HookJudgementRecord {
        id: row.get(0)?,
        session_id: row.get(1)?,
        conversation_id: row.get(2)?,
        anchor_message_index: row.get(3)?,
        hook_type: row.get(4)?,
        status: row.get(5)?,
        attempts: row.get(6)?,
        attempts_detail: row.get(7)?,
        payload: row.get(8)?,
        raw_response: row.get(9)?,
        decision: row.get(10)?,
        error: row.get(11)?,
        duration_ms: row.get(12)?,
        model_provider: row.get(13)?,
        model_id: row.get(14)?,
        created_at: row.get(15)?,
        updated_at: row.get(16)?,
        inject_point: row.get(17)?,
    })
}

impl Ledger {
    fn next_id(&mut self) -> String {
        self.seq += 1;
        new_hook_judgement_id(self.seq)
    }

    #[allow(clippy::too_many_arguments)]
    fn insert_start(
        &self,
        id: &str,
        conversation_id: &str,
        session_id: Option<&str>,
        anchor_message_index: Option<i64>,
        hook_type: &str,
        inject_point: Option<&str>,
        payload: &str,
        model_provider: Option<&str>,
        model_id: Option<&str>,
    ) {
        let r = pending_record(
            id,
            conversation_id,
            session_id,
            anchor_message_index,
            hook_type,
            inject_point,
            payload,
            model_provider,
            model_id,
            1_000,
        );
        let text = |s: &Option<String>| match s {
            Some(v) => Value::Text(v.clone()),
            None => Value::Null,
        };
        let int = |n: Option<i64>| match n {
            Some(v) => Value::Integer(v),
            None => Value::Null,
        };
        let values = vec![
            Value::Text(r.id.clone()),
            text(&r.session_id),
            Value::Text(r.conversation_id.clone()),
            int(r.anchor_message_index),
            Value::Text(r.hook_type.clone()),
            text(&r.inject_point),
            Value::Text(r.status.clone()),
            Value::Integer(r.attempts),
            Value::Text(r.attempts_detail.clone()),
            Value::Text(r.payload.clone()),
            Value::Text(r.raw_response.clone()),
            text(&r.decision),
            text(&r.error),
            Value::Integer(r.duration_ms),
            text(&r.model_provider),
            text(&r.model_id),
            Value::Integer(r.created_at),
            Value::Integer(r.updated_at),
        ];
        self.conn
            .execute(INSERT_JUDGEMENT_SQL, params_from_iter(values.iter()))
            .unwrap();
    }

    #[allow(clippy::too_many_arguments)]
    fn finish(
        &self,
        id: &str,
        status: &str,
        attempts: i64,
        attempts_detail: &str,
        raw_response: &str,
        decision: Option<&str>,
        error: Option<&str>,
        duration_ms: i64,
    ) {
        self.conn
            .execute(
                FINISH_JUDGEMENT_SQL,
                (status, attempts, attempts_detail, raw_response, decision, error, duration_ms, 2_000i64, id),
            )
            .unwrap();
    }

    fn get(&self, id: &str) -> Option<HookJudgementRecord> {
        self.conn
            .query_row(&format!("{SELECT_COLUMNS} WHERE id = ?1"), [id], row_to_record)
            .optional()
            .unwrap()
    }

    fn list_with_total(&self, filter: &HookJudgementFilter) -> HookJudgementListResult {
        let q = list_query(filter);
        let total: i64 = self
            .conn
            .query_row(&q.count_sql, params_from_iter(bind(&q.count_params).iter()), |row| row.get(0))
            .unwrap();
        let mut stmt = self.conn.prepare(&q.select_sql).unwrap();
        let records = stmt
            .query_map(params_from_iter(bind(&q.select_params).iter()), row_to_record)
            .unwrap()
            .map(|r| r.unwrap())
            .collect();
        HookJudgementListResult { records, total }
    }

    fn list(&self, filter: &HookJudgementFilter) -> Vec<HookJudgementRecord> {
        self.list_with_total(filter).records
    }
}

fn filter(
    hook_type: Option<&str>,
    status: Option<&str>,
    conversation_id: Option<&str>,
    limit: Option<i64>,
    offset: Option<i64>,
) -> HookJudgementFilter {
    HookJudgementFilter {
        hook_type: hook_type.map(String::from),
        status: status.map(String::from),
        conversation_id: conversation_id.map(String::from),
        limit,
        offset,
    }
}

fn all() -> HookJudgementFilter {
    filter(None, None, None, None, None)
}

#[test]
fn test_insert_start_and_finish() {
    let mut store = test_store("insert_finish");
    let id = store.next_id();
    store.insert_start(
        &id,
        "conv_1",
        Some("sess_1"),
        Some(3),
        "assistant_complete_scope",
        Some("after_persist_outcome"),
        "{\"topic_id\":\"t1\"}",
        Some("openai"),
        Some("gpt-4o"),
    );

    let pending = store.get(&id).unwrap();
    assert_eq!(pending.status, "pending");
    assert_eq!(pending.conversation_id, "conv_1");
    assert_eq!(pending.anchor_message_index, Some(3));
    assert_eq!(pending.inject_point.as_deref(), Some("after_persist_outcome"));

    store.finish(
        &id,
        "ok",
        1,
        "[{\"attempt\":1,\"error\":null,\"raw\":\"{}\"}]",
        "{}",
        Some("{\"completed_item_ids\":[]}"),
        None,
        123,
    );
    let done = store.get(&id).unwrap();
    assert_eq!(done.status, "ok");
    assert_eq!(done.attempts, 1);
    assert_eq!(done.duration_ms, 123);
    assert!(done.decision.unwrap().contains("completed_item_ids"));
}

#[test]
fn test_finish_downgraded_keeps_raw() {
    let mut store = test_store("finish_downgraded");
    let id = store.next_id();
    store.insert_start(
        &id,
        "conv_1",
        None,
        None,
        "assistant_match_topic",
        Some("after_load_context"),
        "{\"user_input\":\"hi\"}",
        None,
        None,
    );
    let raw = "I think the answer is yes because...".to_string();
    let detail = format!(
        "[{{\"attempt\":1,\"error\":\"missing JSON object\",\"raw\":\"{raw}\"}},{{\"attempt\":2,\"error\":\"missing JSON object\",\"raw\":\"{raw}\"}}]"
    );
    store.finish(&id, "downgraded", 2, &detail, &raw, None, Some("LLM response missing JSON object"), 456);
    let done = store.get(&id).unwrap();
    assert_eq!(done.status, "downgraded");
    assert_eq!(done.raw_response, raw);
    assert_eq!(done.attempts, 2);
    assert!(done.error.unwrap().contains("missing JSON"));
}

#[test]
fn test_list_filters_and_order() {
    let mut store = test_store("list_filters");
    for i in 0..3i64 {
        let id = store.next_id();
        store.insert_start(
            &id,
            &format!("conv_{}", i % 2),
            None,
            Some(i),
            if i == 0 { "assistant_complete_scope" } else { "assistant_match_topic" },
            None,
            &format!("{{\"n\":{i}}}"),
            None,
            None,
        );
    }
    let everything = store.list(&all());
    assert_eq!(everything.len(), 3);

    let matched = store.list(&filter(Some("assistant_match_topic"), None, None, None, None));
    assert_eq!(matched.len(), 2);

    let conv0 = store.list(&filter(None, None, Some("conv_0"), None, None));
    assert_eq!(conv0.len(), 2);

    let limited = store.list(&filter(None, None, None, Some(1), None));
    assert_eq!(limited.len(), 1);

    let pending = store.list(&filter(None, Some("pending"), None, None, None));
    assert_eq!(pending.len(), 3);
}

#[test]
fn test_list_with_total_pagination() {
    let mut store = test_store("list_with_total");
    for i in 0..7i64 {
        let id = store.next_id();
        store.insert_start(
            &id,
            &format!("conv_{}", i % 2),
            None,
            Some(i),
            "assistant_match_topic",
            Some("after_load_context"),
            &format!("{{\"n\":{i}}}"),
            None,
            None,
        );
    }
    let first_two = store.list(&filter(None, None, None, Some(2), None));
    assert_eq!(first_two.len(), 2);
    for rec in &first_two {
        store.finish(&rec.id, "ok", 1, "[]", "{}", Some("{}"), None, 10);
    }

    let everything = store.list_with_total(&all());
    assert_eq!(everything.total, 7);
    assert_eq!(everything.records.len(), 7);

    let ok = store.list_with_total(&filter(None, Some("ok"), None, None, None));
    assert_eq!(ok.total, 2);
    assert_eq!(ok.records.len(), 2);

    let page = store.list_with_total(&filter(None, None, None, Some(2), Some(2)));
    assert_eq!(page.total, 7);
    assert_eq!(page.records.len(), 2);

    let filtered_page = store.list_with_total(&filter(Some("assistant_match_topic"), None, None, Some(3), None));
    assert_eq!(filtered_page.total, 7);
    assert_eq!(filtered_page.records.len(), 3);

    let past_end = store.list_with_total(&filter(None, None, None, None, Some(100)));
    assert_eq!(past_end.total, 7);
    assert!(past_end.records.is_empty());
}

#[test]
fn offset_alone_lists_to_the_end() {
    let mut store = test_store("offset_alone");
    for i in 0..4i64 {
        let id = store.next_id();
        store.insert_start(&id, "conv_0", None, Some(i), "assistant_round_review", None, "{}", None, None);
    }
    let rest = store.list_with_total(&filter(None, None, None, None, Some(1)));
    assert_eq!(rest.total, 4);
    assert_eq!(rest.records.len(), 3);
}
