//! Judgement ledger (`hook_judgements`): the record of every judgement call, written in two
//! phases (a pending record when the call starts, its final state when it ends), and the
//! filtered, paged listing of it.
//!
//! This module holds the record shapes, the pending record, record ids, and the SQL of the
//! listing with its parameters; the caller runs the statements against the database.

use vstd::prelude::*;

use crate::text::{decimal, join2, owned, push_str, signed_decimal, u64_to_decimal, i64_to_decimal};

verus! {

/// One judgement record (list and detail share it).
#[derive(Debug, Clone, PartialEq, Eq)]
pub struct HookJudgementRecord {
    pub id: String,
    pub session_id: Option<String>,
    pub conversation_id: String,
    /// Index of the anchor message (where the judgement card is shown), if bound.
    pub anchor_message_index: Option<i64>,
    /// The hook's system type.
    pub hook_type: String,
    /// Inject point it ran at (absent on old records).
    pub inject_point: Option<String>,
    /// `pending` / `ok` / `retried_ok` / `downgraded`.
    pub status: String,
    pub attempts: i64,
    /// JSON array of the attempts.
    pub attempts_detail: String,
    /// The judgement input (JSON).
    pub payload: String,
    /// Raw output of the last attempt.
    pub raw_response: String,
    /// Parsed decision (JSON), when parsing succeeded.
    pub decision: Option<String>,
    pub error: Option<String>,
    pub duration_ms: i64,
    pub model_provider: Option<String>,
    pub model_id: Option<String>,
    pub created_at: i64,
    pub updated_at: i64,
}

/// Listing filter (each present field must match).
#[derive(Debug, Clone, PartialEq, Eq)]
pub struct HookJudgementFilter {
    pub hook_type: Option<String>,
    pub status: Option<String>,
    pub conversation_id: Option<String>,
    pub limit: Option<i64>,
    pub offset: Option<i64>,
}

/// A page of the listing and the number of records matching the filter.
#[derive(Debug, Clone, PartialEq, Eq)]
pub struct HookJudgementListResult {
    pub records: Vec<HookJudgementRecord>,
    pub total: i64,
}

/// A statement parameter.
#[derive(Debug, Clone, PartialEq, Eq)]
pub enum SqlParam {
    Text(String),
    Int(i64),
}

/// Value view of a statement parameter.
pub enum SqlParamView {
    Text(Seq<char>),
    Int(i64),
}

impl View for SqlParam {
    type V = SqlParamView;

    open spec fn view(&self) -> SqlParamView {
        match self {
            SqlParam::Text(s) => SqlParamView::Text(s@),
            SqlParam::Int(i) => SqlParamView::Int(*i),
        }
    }
}

/// Views of statement parameters.
pub open spec fn param_views(s: Seq<SqlParam>) -> Seq<SqlParamView> {
    s.map_values(|p: SqlParam| p@)
}

/// The statements of one listing: the count over the filter, and the page.
#[derive(Debug, Clone, PartialEq, Eq)]
pub struct ListQuery {
    pub count_sql: String,
    pub count_params: Vec<SqlParam>,
    pub select_sql: String,
    pub select_params: Vec<SqlParam>,
}

/// Column list of a record, in the order the caller reads them.
pub const SELECT_COLUMNS: &'static str = "SELECT id, session_id, conversation_id, anchor_message_index, hook_type, status, attempts, attempts_detail, payload, raw_response, decision, error, duration_ms, model_provider, model_id, created_at, updated_at, inject_point FROM hook_judgements";

/// The ledger table and its indexes (anchor lookup, type and status, time).
pub const HOOK_JUDGEMENTS_DDL: &'static str = "CREATE TABLE IF NOT EXISTS hook_judgements (id TEXT PRIMARY KEY, session_id TEXT, conversation_id TEXT NOT NULL, anchor_message_index INTEGER, hook_type TEXT NOT NULL, inject_point TEXT, status TEXT NOT NULL DEFAULT 'pending', attempts INTEGER NOT NULL DEFAULT 0, attempts_detail TEXT NOT NULL DEFAULT '[]', payload TEXT NOT NULL DEFAULT '{}', raw_response TEXT NOT NULL DEFAULT '', decision TEXT, error TEXT, duration_ms INTEGER NOT NULL DEFAULT 0, model_provider TEXT, model_id TEXT, created_at INTEGER NOT NULL, updated_at INTEGER NOT NULL); CREATE INDEX IF NOT EXISTS idx_hook_judgements_anchor ON hook_judgements(conversation_id, anchor_message_index); CREATE INDEX IF NOT EXISTS idx_hook_judgements_hook_status ON hook_judgements(hook_type, status); CREATE INDEX IF NOT EXISTS idx_hook_judgements_created ON hook_judgements(created_at);";

/// Adds the inject point column to a table made before it existed (a duplicate column is
/// reported by the database and ignored by the caller).
pub const ADD_INJECT_POINT_SQL: &'static str = "ALTER TABLE hook_judgements ADD COLUMN inject_point TEXT";

/// Writes a whole record; its parameters are the fields in declaration order.
pub const INSERT_JUDGEMENT_SQL: &'static str = "INSERT INTO hook_judgements (id, session_id, conversation_id, anchor_message_index, hook_type, inject_point, status, attempts, attempts_detail, payload, raw_response, decision, error, duration_ms, model_provider, model_id, created_at, updated_at) VALUES (?1, ?2, ?3, ?4, ?5, ?6, ?7, ?8, ?9, ?10, ?11, ?12, ?13, ?14, ?15, ?16, ?17, ?18)";

/// Writes the final state of a call: status, attempts, their detail, raw response, decision,
/// error, duration, update time, then the id.
pub const FINISH_JUDGEMENT_SQL: &'static str = "UPDATE hook_judgements SET status = ?1, attempts = ?2, attempts_detail = ?3, raw_response = ?4, decision = ?5, error = ?6, duration_ms = ?7, updated_at = ?8 WHERE id = ?9";

/// Filter conditions and their parameters, in field order (hook type, status, conversation).
pub open spec fn where_spec(f: HookJudgementFilter) -> (Seq<Seq<char>>, Seq<SqlParamView>) {
    let c1: Seq<Seq<char>> = if f.hook_type is Some { seq!["hook_type = ?"@] } else { Seq::empty() };
    let p1: Seq<SqlParamView> = match f.hook_type {
        Some(h) => seq![SqlParamView::Text(h@)],
        None => Seq::empty(),
    };
    let c2: Seq<Seq<char>> = if f.status is Some { seq!["status = ?"@] } else { Seq::empty() };
    let p2: Seq<SqlParamView> = match f.status {
        Some(s) => seq![SqlParamView::Text(s@)],
        None => Seq::empty(),
    };
    let c3: Seq<Seq<char>> = if f.conversation_id is Some { seq!["conversation_id = ?"@] } else { Seq::empty() };
    let p3: Seq<SqlParamView> = match f.conversation_id {
        Some(c) => seq![SqlParamView::Text(c@)],
        None => Seq::empty(),
    };
    (c1 + c2 + c3, p1 + p2 + p3)
}

/// `parts` joined with ` AND `.
pub open spec fn join_and(parts: Seq<Seq<char>>) -> Seq<char>
    decreases parts.len(),
{
    if parts.len() == 0 {
        Seq::empty()
    } else if parts.len() == 1 {
        parts[0]
    } else {
        join_and(parts.drop_last()) + " AND "@ + parts.last()
    }
}

/// ` WHERE ` and the conditions, or nothing without conditions.
pub open spec fn where_clause(conds: Seq<Seq<char>>) -> Seq<char> {
    if conds.len() == 0 {
        Seq::empty()
    } else {
        " WHERE "@ + join_and(conds)
    }
}

/// Paging tail and its parameters: `LIMIT ? OFFSET ?`, `LIMIT ?`, or `LIMIT -1 OFFSET ?`
/// (no limit, only an offset).
pub open spec fn paging_spec(limit: Option<i64>, offset: Option<i64>) -> (Seq<char>, Seq<SqlParamView>) {
    match (limit, offset) {
        (Some(l), Some(o)) => (" LIMIT ? OFFSET ?"@, seq![SqlParamView::Int(l), SqlParamView::Int(o)]),
        (Some(l), None) => (" LIMIT ?"@, seq![SqlParamView::Int(l)]),
        (None, Some(o)) => (" LIMIT -1 OFFSET ?"@, seq![SqlParamView::Int(o)]),
        (None, None) => (Seq::empty(), Seq::empty()),
    }
}

fn push_condition(
    conds: &mut Vec<String>,
    params: &mut Vec<SqlParam>,
    cond: &str,
    value: &Option<String>,
)
    ensures
        match value {
            Some(v) => final(conds)@.map_values(|s: String| s@) == old(conds)@.map_values(|s: String| s@).push(cond@)
                && param_views(final(params)@) == param_views(old(params)@).push(SqlParamView::Text(v@)),
            None => final(conds)@ == old(conds)@ && final(params)@ == old(params)@,
        },
{
    if let Some(v) = value {
        let ghost c0 = conds@;
        let ghost p0 = params@;
        conds.push(owned(cond));
        params.push(SqlParam::Text(v.clone()));
        proof {
            assert(conds@.map_values(|s: String| s@) =~= c0.map_values(|s: String| s@).push(cond@));
            assert(param_views(params@) =~= param_views(p0).push(SqlParamView::Text(v@)));
        }
    }
}

fn copy_params(v: &Vec<SqlParam>) -> (r: Vec<SqlParam>)
    ensures
        param_views(r@) == param_views(v@),
{
    let mut out: Vec<SqlParam> = Vec::new();
    for i in 0..v.len()
        invariant
            out@.len() == i,
            forall|j: int| 0 <= j < i ==> (#[trigger] out@[j])@ == v@[j]@,
    {
        let p = match &v[i] {
            SqlParam::Text(t) => SqlParam::Text(t.clone()),
            SqlParam::Int(n) => SqlParam::Int(*n),
        };
        out.push(p);
    }
    assert(param_views(out@) =~= param_views(v@));
    out
}

fn joined_where(conds: &Vec<String>) -> (r: String)
    ensures
        r@ == where_clause(conds@.map_values(|s: String| s@)),
{
    let ghost cv = conds@.map_values(|s: String| s@);
    if conds.len() == 0 {
        return String::new();
    }
    let mut body = conds[0].clone();
    let mut i: usize = 1;
    proof {
        assert(cv.take(1) =~= seq![cv[0]]);
    }
    while i < conds.len()
        invariant
            cv == conds@.map_values(|s: String| s@),
            1 <= i <= conds@.len(),
            body@ == join_and(cv.take(i as int)),
        decreases conds@.len() - i,
    {
        push_str(&mut body, " AND ");
        push_str(&mut body, conds[i].as_str());
        proof {
            assert(cv.take(i + 1).drop_last() =~= cv.take(i as int));
        }
        i += 1;
    }
    proof {
        assert(cv.take(conds@.len() as int) =~= cv);
    }
    join2(" WHERE ", body.as_str())
}

/// The listing's statements (newest first): the count and the page share the filter's
/// conditions and parameters; the page adds the paging tail and its parameters.
pub fn list_query(filter: &HookJudgementFilter) -> (r: ListQuery)
    ensures
        ({
            let (conds, params) = where_spec(*filter);
            let (tail, tail_params) = paging_spec(filter.limit, filter.offset);
            &&& r.count_sql@ == "SELECT COUNT(*) FROM hook_judgements"@ + where_clause(conds)
            &&& param_views(r.count_params@) == params
            &&& r.select_sql@ == SELECT_COLUMNS@ + where_clause(conds) + " ORDER BY created_at DESC"@ + tail
            &&& param_views(r.select_params@) == params + tail_params
        }),
{
    let mut conds: Vec<String> = Vec::new();
    let mut params: Vec<SqlParam> = Vec::new();
    push_condition(&mut conds, &mut params, "hook_type = ?", &filter.hook_type);
    push_condition(&mut conds, &mut params, "status = ?", &filter.status);
    push_condition(&mut conds, &mut params, "conversation_id = ?", &filter.conversation_id);
    proof {
        let (cs, ps) = where_spec(*filter);
        assert(conds@.map_values(|s: String| s@) =~= cs);
        assert(param_views(params@) =~= ps);
    }
    let clause = joined_where(&conds);
    let mut count_sql = join2("SELECT COUNT(*) FROM hook_judgements", clause.as_str());
    let mut select_sql = join2(SELECT_COLUMNS, clause.as_str());
    push_str(&mut select_sql, " ORDER BY created_at DESC");
    let mut select_params: Vec<SqlParam> = copy_params(&params);
    let ghost base = select_params@;
    match (filter.limit, filter.offset) {
        (Some(limit), Some(offset)) => {
            push_str(&mut select_sql, " LIMIT ? OFFSET ?");
            select_params.push(SqlParam::Int(limit));
            select_params.push(SqlParam::Int(offset));
        },
        (Some(limit), None) => {
            push_str(&mut select_sql, " LIMIT ?");
            select_params.push(SqlParam::Int(limit));
        },
        (None, Some(offset)) => {
            push_str(&mut select_sql, " LIMIT -1 OFFSET ?");
            select_params.push(SqlParam::Int(offset));
        },
        (None, None) => {},
    }
    proof {
        let (tail, tail_params) = paging_spec(filter.limit, filter.offset);
        assert(param_views(select_params@) =~= param_views(base) + tail_params);
        reveal_strlit("");
    }
    ListQuery { count_sql, count_params: params, select_sql, select_params }
}

/// The record written when a judgement call starts: pending, no attempts yet, empty
/// outputs, created and updated at `now`.
pub fn pending_record(
    id: &str,
    conversation_id: &str,
    session_id: Option<&str>,
    anchor_message_index: Option<i64>,
    hook_type: &str,
    inject_point: Option<&str>,
    payload: &str,
    model_provider: Option<&str>,
    model_id: Option<&str>,
    now: i64,
) -> (r: HookJudgementRecord)
    ensures
        r.id@ == id@,
        r.conversation_id@ == conversation_id@,
        crate::providers::ostr(r.session_id) == crate::providers::ostr_ref(session_id),
        r.anchor_message_index == anchor_message_index,
        r.hook_type@ == hook_type@,
        crate::providers::ostr(r.inject_point) == crate::providers::ostr_ref(inject_point),
        r.status@ == "pending"@,
        r.attempts == 0,
        r.attempts_detail@ == "[]"@,
        r.payload@ == payload@,
        r.raw_response@.len() == 0,
        r.decision is None,
        r.error is None,
        r.duration_ms == 0,
        crate::providers::ostr(r.model_provider) == crate::providers::ostr_ref(model_provider),
        crate::providers::ostr(r.model_id) == crate::providers::ostr_ref(model_id),
        r.created_at == now,
        r.updated_at == now,
{
    proof {
        reveal_strlit("pending");
        reveal_strlit("[]");
    }
    HookJudgementRecord {
        id: owned(id),
        session_id: match session_id { Some(s) => Some(owned(s)), None => None },
        conversation_id: owned(conversation_id),
        anchor_message_index,
        hook_type: owned(hook_type),
        inject_point: match inject_point { Some(s) => Some(owned(s)), None => None },
        status: owned("pending"),
        attempts: 0,
        attempts_detail: owned("[]"),
        payload: owned(payload),
        raw_response: String::new(),
        decision: None,
        error: None,
        duration_ms: 0,
        model_provider: match model_provider { Some(s) => Some(owned(s)), None => None },
        model_id: match model_id { Some(s) => Some(owned(s)), None => None },
        created_at: now,
        updated_at: now,
    }
}

/// Text of a record id: `hj_<now>_<seq>`.
pub open spec fn judgement_id_spec(now: i64, seq: u64) -> Seq<char> {
    "hj_"@ + signed_decimal(now as int) + "_"@ + decimal(seq as nat)
}

/// The record id made from a time and a sequence number (see [`judgement_id_spec`]).
pub fn hook_judgement_id(now: i64, seq: u64) -> (r: String)
    ensures
        r@ == judgement_id_spec(now, seq),
{
    let t = i64_to_decimal(now);
    let mut out = join2("hj_", t.as_str());
    push_str(&mut out, "_");
    let s = u64_to_decimal(seq);
    push_str(&mut out, s.as_str());
    out
}

#[verifier::external_type_specification]
#[verifier::external_body]
pub struct ExSystemTime(std::time::SystemTime);

#[verifier::external_type_specification]
#[verifier::external_body]
pub struct ExSystemTimeError(std::time::SystemTimeError);

/// `std::time::SystemTime::now()`: the machine's clock, so nothing is stated of it.
#[verifier::external_body]
fn system_now() -> (r: std::time::SystemTime) {
    std::time::SystemTime::now()
}

/// `SystemTime::duration_since(UNIX_EPOCH)`: the time since the epoch, or an error for a
/// time before it. Nothing is stated of which (the value is the clock's).
#[verifier::external_body]
fn since_epoch(t: &std::time::SystemTime) -> (r: Result<std::time::Duration, std::time::SystemTimeError>) {
    t.duration_since(std::time::UNIX_EPOCH)
}

/// `Duration::as_millis`: whole milliseconds of a duration. The duration is opaque here,
/// so nothing is stated of the count.
#[verifier::external_body]
fn duration_millis(d: &std::time::Duration) -> (r: u128) {
    d.as_millis()
}

/// The machine's clock since the Unix epoch, in milliseconds (0 for a time before the
/// epoch). Nothing is stated of the value: it is the clock's.
pub fn now_ms() -> (r: i64) {
    let now = system_now();
    match since_epoch(&now) {
        Ok(d) => {
            let ms = duration_millis(&d);
            ms as i64
        },
        Err(_) => 0,
    }
}

/// A new record id: `hj_<now>_<seq>` with the current time; `seq` is the caller's
/// per-process counter, which keeps ids made in the same millisecond apart.
pub fn new_hook_judgement_id(seq: u64) -> (r: String)
    ensures
        exists|now: i64| r@ == judgement_id_spec(now, seq),
{
    let now = now_ms();
    hook_judgement_id(now, seq)
}

} // verus!
