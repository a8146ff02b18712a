//! The store's statements run against SQLite.

use rusqlite::{params_from_iter, Connection, OptionalExtension};

use pulsar_core::error::AppError;
use pulsar_core::models::NeuronKindFilter;
use pulsar_core::neuron_config::CREATOR_SYSTEM_TYPE;
use pulsar_core::neuron_graph::{neuron_page_query, page_has_more};
use pulsar_core::neuron_store::{
    check_ai_update, check_system_type_free, normalize_system_type, record_id, schema_upgrade, NEURON_TABLES_DDL,
};

fn upgrade(conn: &Connection) {
    conn.execute_batch(NEURON_TABLES_DDL).unwrap();
    let mut stmt = conn.prepare("PRAGMA table_info(neurons)").unwrap();
    let cols: Vec<String> = stmt.query_map([], |r| r.get::<_, String>(1)).unwrap().map(|c| c.unwrap()).collect();
    drop(stmt);
    for step in schema_upgrade(&cols) {
        conn.execute(&step.sql, []).unwrap();
    }
}

fn insert(conn: &Connection, seq: u64, desc: &str, system_type: Option<&str>) -> String {
    let id = record_id("n", 1000, seq);
    conn.execute(
        "INSERT INTO neurons (id, desc, content, weight, created_at, updated_at, system_type, tool_ids) VALUES (?1, ?2, 'c', 0.0, 1000, 1000, ?3, '[]')",
        (&id, desc, system_type),
    )
    .unwrap();
    id
}

struct Page {
    descs: Vec<String>,
    system_types: Vec<Option<String>>,
    total: usize,
    has_more: bool,
}

fn page(conn: &Connection, page: usize, size: usize, search: Option<&str>, kind: NeuronKindFilter) -> Page {
    let q = neuron_page_query(page, size, search, kind);
    let total: i64 = conn.query_row(&q.count_sql, params_from_iter(q.patterns.iter()), |r| r.get(0)).unwrap();
    let mut binds: Vec<rusqlite::types::Value> =
        q.patterns.iter().map(|p| rusqlite::types::Value::Text(p.clone())).collect();
    binds.push(rusqlite::types::Value::Integer(q.limit as i64));
    binds.push(rusqlite::types::Value::Integer(q.offset as i64));
    let mut stmt = conn.prepare(&q.select_sql).unwrap();
    let rows: Vec<(String, Option<String>)> = stmt
        .query_map(params_from_iter(binds.iter()), |r| Ok((r.get::<_, String>(1)?, r.get::<_, Option<String>>(4)?)))
        .unwrap()
        .map(|r| r.unwrap())
        .collect();
    let total = total as usize;
    Page {
        has_more: page_has_more(q.offset, rows.len(), total),
        descs: rows.iter().map(|r| r.0.clone()).collect(),
        system_types: rows.into_iter().map(|r| r.1).collect(),
        total,
    }
}

#[test]
fn test_migrates_legacy_neuron_table() {
    let conn = Connection::open_in_memory().unwrap();
    conn.execute_batch(
        "CREATE TABLE neurons (
            id TEXT PRIMARY KEY,
            desc TEXT NOT NULL DEFAULT '',
            content TEXT NOT NULL DEFAULT '',
            weight REAL NOT NULL DEFAULT 0.0,
            created_at INTEGER NOT NULL,
            updated_at INTEGER NOT NULL
        );",
    )
    .unwrap();
    upgrade(&conn);
    let id = insert(&conn, 0, "migrated", None);
    let (system_type, tool_ids): (Option<String>, String) = conn
        .query_row("SELECT system_type, tool_ids FROM neurons WHERE id = ?1", [&id], |r| Ok((r.get(0)?, r.get(1)?)))
        .unwrap();
    assert_eq!(system_type, None);
    assert_eq!(tool_ids, "[]");
    // Running the upgrade again changes nothing.
    upgrade(&conn);
}

#[test]
fn list_neurons_page_paging_search_kind() {
    let conn = Connection::open_in_memory().unwrap();
    upgrade(&conn);
    for i in 0..3 {
        insert(&conn, i, &format!("plain-{i}"), None);
    }
    for (i, st) in ["session.a", "session.b"].iter().enumerate() {
        insert(&conn, 10 + i as u64, &format!("sys-{i}"), Some(st));
    }

    let page0 = page(&conn, 0, 2, None, NeuronKindFilter::All);
    assert_eq!(page0.descs.len(), 2);
    assert!(page0.has_more);
    assert_eq!(page0.total, 5);
    let page2 = page(&conn, 2, 2, None, NeuronKindFilter::All);
    assert_eq!(page2.descs.len(), 1);
    assert!(!page2.has_more);

    let hit = page(&conn, 0, 10, Some("plain-1"), NeuronKindFilter::All);
    assert_eq!(hit.descs, vec!["plain-1".to_string()]);
    let miss = page(&conn, 0, 10, Some("不存在"), NeuronKindFilter::All);
    assert!(miss.descs.is_empty());
    // Wildcards in the search are literal.
    let literal = page(&conn, 0, 10, Some("plain_"), NeuronKindFilter::All);
    assert!(literal.descs.is_empty());

    let sys = page(&conn, 0, 10, None, NeuronKindFilter::System);
    assert_eq!(sys.descs.len(), 2);
    assert!(sys.system_types.iter().all(|t| t.is_some()));
    let normal = page(&conn, 0, 10, None, NeuronKindFilter::Normal);
    assert_eq!(normal.descs.len(), 3);
    assert!(normal.system_types.iter().all(|t| t.is_none()));
}

fn holder(conn: &Connection, system_type: &str) -> Option<String> {
    conn.query_row(
        "SELECT id FROM neurons WHERE system_type = ?1 AND deleted_at IS NULL",
        [system_type],
        |r| r.get::<_, String>(0),
    )
    .optional()
    .unwrap()
}

fn set_system_type(conn: &Connection, id: &str, system_type: Option<&str>) -> Result<Option<String>, AppError> {
    let normalized = normalize_system_type(system_type);
    if let Some(target) = &normalized {
        check_system_type_free(target, holder(conn, target).as_deref(), id)?;
    }
    conn.execute("UPDATE neurons SET system_type = ?1 WHERE id = ?2", (&normalized, id)).unwrap();
    Ok(normalized)
}

#[test]
fn set_system_type_for_admin_bind_switch_unbind() {
    let conn = Connection::open_in_memory().unwrap();
    upgrade(&conn);
    let n1 = insert(&conn, 1, "one", None);
    let n2 = insert(&conn, 2, "two", None);

    assert_eq!(set_system_type(&conn, &n1, Some("session.demo")).unwrap().as_deref(), Some("session.demo"));
    let err = set_system_type(&conn, &n2, Some("session.demo")).unwrap_err();
    assert!(matches!(err, AppError::InvalidInput(_)));
    assert_eq!(set_system_type(&conn, &n2, Some("session.other")).unwrap().as_deref(), Some("session.other"));
    assert_eq!(holder(&conn, "session.demo"), Some(n1.clone()));
    assert_eq!(set_system_type(&conn, &n1, Some("  ")).unwrap(), None);
}

#[test]
fn ai_update_rejects_system_neuron() {
    let result = check_ai_update(Some(CREATOR_SYSTEM_TYPE));
    assert!(result.is_err());
    assert!(check_ai_update(None).is_ok());
}
