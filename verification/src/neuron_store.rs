//! Rules of the neuron store: record ids, the schema and its upgrade, the statements of
//! partial updates and logical deletes, and the checks made before a write.
//!
//! The caller runs the statements against the database and reports back what it read.

use vstd::prelude::*;

use crate::error::AppError;
use crate::model_call_input::{contains_text, has_text};
use crate::models::{trim_seq, trim_str, NeuronUpdate};
use crate::text::{decimal, is_blank, join2, owned, push_str, str_eq, str_is_blank, str_is_empty, u64_to_decimal};

verus! {

/// Text of a record id: `<prefix>_<now>_<seq>` (`n` for neurons, `v` for versions).
pub open spec fn record_id_spec(prefix: Seq<char>, now: u64, seq: u64) -> Seq<char> {
    prefix + "_"@ + decimal(now as nat) + "_"@ + decimal(seq as nat)
}

/// The id made from a prefix, a time in milliseconds and a per-process sequence number.
pub fn record_id(prefix: &str, now: u64, seq: u64) -> (r: String)
    ensures
        r@ == record_id_spec(prefix@, now, seq),
{
    let mut out = join2(prefix, "_");
    push_str(&mut out, u64_to_decimal(now).as_str());
    push_str(&mut out, "_");
    push_str(&mut out, u64_to_decimal(seq).as_str());
    out
}

/// A system type, when present, must not be blank: `InvalidInput` otherwise.
pub fn check_system_type(system_type: Option<&str>) -> (r: Result<(), AppError>)
    ensures
        (system_type is Some && is_blank(system_type->0@)) ==> (r matches Err(AppError::InvalidInput(m))
            && m@ == "system_type cannot be empty"@),
        !(system_type is Some && is_blank(system_type->0@)) ==> r is Ok,
{
    match system_type {
        Some(t) => {
            if str_is_blank(t) {
                proof {
                    reveal_strlit("system_type cannot be empty");
                }
                Err(AppError::InvalidInput(owned("system_type cannot be empty")))
            } else {
                Ok(())
            }
        },
        None => Ok(()),
    }
}

/// The system type an admin asks for: trimmed, and none when blank.
pub fn normalize_system_type(system_type: Option<&str>) -> (r: Option<String>)
    ensures
        match system_type {
            Some(t) => if trim_seq(t@).len() > 0 {
                r is Some && r->0@ == trim_seq(t@)
            } else {
                r is None
            },
            None => r is None,
        },
{
    match system_type {
        Some(t) => {
            let trimmed = trim_str(t);
            if str_is_empty(trimmed) {
                None
            } else {
                Some(owned(trimmed))
            }
        },
        None => None,
    }
}

/// A system type may be bound to neuron `id` unless another neuron (`holder`) holds it:
/// `InvalidInput` then.
pub fn check_system_type_free(target: &str, holder: Option<&str>, id: &str) -> (r: Result<(), AppError>)
    ensures
        match holder {
            Some(h) => if h@ != id@ {
                r matches Err(AppError::InvalidInput(m))
                    && m@ == "system_type "@ + target@ + " is already bound to neuron "@ + h@
            } else {
                r is Ok
            },
            None => r is Ok,
        },
{
    match holder {
        Some(h) => {
            if str_eq(h, id) {
                Ok(())
            } else {
                let mut msg = join2("system_type ", target);
                push_str(&mut msg, " is already bound to neuron ");
                push_str(&mut msg, h);
                Err(AppError::InvalidInput(msg))
            }
        },
        None => Ok(()),
    }
}

/// AI tools may edit ordinary neurons only: `InvalidInput` for a system neuron.
pub fn check_ai_update(system_type: Option<&str>) -> (r: Result<(), AppError>)
    ensures
        system_type is Some ==> (r matches Err(AppError::InvalidInput(m)) && m@ == "AI tools cannot update system neurons"@),
        system_type is None ==> r is Ok,
{
    match system_type {
        Some(_) => {
            proof {
                reveal_strlit("AI tools cannot update system neurons");
            }
            Err(AppError::InvalidInput(owned("AI tools cannot update system neurons")))
        },
        None => Ok(()),
    }
}

/// A link needs both ends to be live neurons: the count of live neurons among the two ids
/// must be 2 (so a neuron cannot be linked to itself); `NeuronNotFound` otherwise.
pub fn check_link_endpoints(source: &str, target: &str, live_endpoints: u64) -> (r: Result<(), AppError>)
    ensures
        live_endpoints == 2 ==> r is Ok,
        live_endpoints != 2 ==> (r matches Err(AppError::NeuronNotFound(m))
            && m@ == "link endpoint missing or deleted: "@ + source@ + " -> "@ + target@),
{
    if live_endpoints == 2 {
        Ok(())
    } else {
        let mut msg = join2("link endpoint missing or deleted: ", source);
        push_str(&mut msg, " -> ");
        push_str(&mut msg, target);
        Err(AppError::NeuronNotFound(msg))
    }
}

/// The error for an edge that does not exist.
pub fn connection_not_found(source: &str, target: &str) -> (r: AppError)
    ensures
        r matches AppError::InvalidInput(m) && m@ == "Connection not found: "@ + source@ + " -> "@ + target@,
{
    let mut msg = join2("Connection not found: ", source);
    push_str(&mut msg, " -> ");
    push_str(&mut msg, target);
    AppError::InvalidInput(msg)
}

/// How many neurons to recycle: those above capacity (none when within it).
pub fn recycle_quota(active: usize, capacity: usize) -> (r: usize)
    ensures
        r == if active > capacity { (active - capacity) as usize } else { 0 },
{
    active.saturating_sub(capacity)
}

/// A write aimed at one live neuron that touched no row means the neuron is missing or
/// deleted: `NeuronNotFound` carrying its id.
pub fn check_row_touched(affected: usize, id: &str) -> (r: Result<(), AppError>)
    ensures
        affected > 0 ==> r is Ok,
        affected == 0 ==> (r matches Err(AppError::NeuronNotFound(m)) && m@ == id@),
{
    if affected == 0 {
        Err(AppError::NeuronNotFound(owned(id)))
    } else {
        Ok(())
    }
}

/// Whether a variant row is listed: when only active variants are asked for, those in the
/// `observing` state are left out (a row with no state counts as active).
pub fn variant_listed(active_only: bool, variant_state: Option<&str>) -> (r: bool)
    ensures
        r == !(active_only && variant_state is Some && variant_state->0@ == "observing"@),
{
    match variant_state {
        Some(s) => !(active_only && str_eq(s, "observing")),
        None => true,
    }
}

/// The `SET` list of a partial update: the fields present (description, content, tool ids,
/// in that order), then the use signal and the timestamps.
pub open spec fn update_set_list(has_desc: bool, has_content: bool, has_tools: bool) -> Seq<char> {
    let a: Seq<char> = if has_desc { "desc = ?, "@ } else { Seq::empty() };
    let b: Seq<char> = if has_content { "content = ?, "@ } else { Seq::empty() };
    let c: Seq<char> = if has_tools { "tool_ids = ?, "@ } else { Seq::empty() };
    a + b + c + "use_count = use_count + 1, last_used_at = ?, updated_at = ?"@
}

/// The statement of a partial update of a live neuron. Its parameters, in order: the
/// fields present (description, content, encoded tool ids), the time twice, the id. An
/// update with no field fails with `InvalidInput`.
pub fn update_neuron_sql(update: &NeuronUpdate) -> (r: Result<String, AppError>)
    ensures
        (update.desc is None && update.content is None && update.tool_ids is None) ==> (r matches Err(
            AppError::InvalidInput(m),
        ) && m@ == "update_neuron requires at least one field"@),
        !(update.desc is None && update.content is None && update.tool_ids is None) ==> (r matches Ok(s)
            && s@ == "UPDATE neurons SET "@ + update_set_list(
                update.desc is Some,
                update.content is Some,
                update.tool_ids is Some,
            ) + " WHERE id = ? AND deleted_at IS NULL"@),
{
    if update.desc.is_none() && update.content.is_none() && update.tool_ids.is_none() {
        proof {
            reveal_strlit("update_neuron requires at least one field");
        }
        return Err(AppError::InvalidInput(owned("update_neuron requires at least one field")));
    }
    let mut sql = owned("UPDATE neurons SET ");
    let ghost start = sql@;
    if update.desc.is_some() {
        push_str(&mut sql, "desc = ?, ");
    }
    if update.content.is_some() {
        push_str(&mut sql, "content = ?, ");
    }
    if update.tool_ids.is_some() {
        push_str(&mut sql, "tool_ids = ?, ");
    }
    push_str(&mut sql, "use_count = use_count + 1, last_used_at = ?, updated_at = ?");
    push_str(&mut sql, " WHERE id = ? AND deleted_at IS NULL");
    proof {
        let a: Seq<char> = if update.desc is Some { "desc = ?, "@ } else { Seq::empty() };
        let b: Seq<char> = if update.content is Some { "content = ?, "@ } else { Seq::empty() };
        let c: Seq<char> = if update.tool_ids is Some { "tool_ids = ?, "@ } else { Seq::empty() };
        assert(sql@ =~= start + (a + b + c + "use_count = use_count + 1, last_used_at = ?, updated_at = ?"@)
            + " WHERE id = ? AND deleted_at IS NULL"@);
    }
    Ok(sql)
}

/// `n` placeholders separated by `, `.
pub open spec fn placeholders(n: nat) -> Seq<char>
    decreases n,
{
    if n == 0 {
        Seq::empty()
    } else if n == 1 {
        "?"@
    } else {
        placeholders((n - 1) as nat) + ", ?"@
    }
}

/// The statement that marks `n` live neurons deleted (parameters: the time, then the `n`
/// ids); none when there is nothing to delete.
pub fn mark_deleted_sql(n: usize) -> (r: Option<String>)
    ensures
        n == 0 ==> r is None,
        n > 0 ==> (r matches Some(s) && s@ == "UPDATE neurons SET deleted_at = ?1, updated_at = ?1 WHERE id IN ("@
            + placeholders(n as nat) + ") AND deleted_at IS NULL"@),
{
    if n == 0 {
        return None;
    }
    let mut list = owned("?");
    let mut k: usize = 1;
    proof {
        reveal_strlit("?");
    }
    while k < n
        invariant
            1 <= k <= n,
            list@ == placeholders(k as nat),
        decreases n - k,
    {
        push_str(&mut list, ", ?");
        k += 1;
    }
    let mut sql = owned("UPDATE neurons SET deleted_at = ?1, updated_at = ?1 WHERE id IN (");
    push_str(&mut sql, list.as_str());
    push_str(&mut sql, ") AND deleted_at IS NULL");
    Some(sql)
}

} // verus!

verus! {

/// Tables the store needs, created when missing (existing tables are left alone).
pub const NEURON_TABLES_DDL: &'static str = "CREATE TABLE IF NOT EXISTS neurons (id TEXT PRIMARY KEY, desc TEXT NOT NULL DEFAULT '', content TEXT NOT NULL DEFAULT '', weight REAL NOT NULL DEFAULT 0.0, created_at INTEGER NOT NULL, updated_at INTEGER NOT NULL); CREATE TABLE IF NOT EXISTS connections (source TEXT NOT NULL REFERENCES neurons(id) ON DELETE CASCADE, target TEXT NOT NULL REFERENCES neurons(id) ON DELETE CASCADE, weight REAL NOT NULL DEFAULT 0.0, PRIMARY KEY (source, target)); PRAGMA foreign_keys = ON;";

/// Unique index on the system type (null system types do not collide).
pub const SYSTEM_TYPE_INDEX_DDL: &'static str = "CREATE UNIQUE INDEX IF NOT EXISTS idx_neurons_system_type_unique ON neurons(system_type) WHERE system_type IS NOT NULL";

/// Version history table.
pub const VERSIONS_TABLE_DDL: &'static str = "CREATE TABLE IF NOT EXISTS neuron_versions (id TEXT PRIMARY KEY, neuron_id TEXT NOT NULL REFERENCES neurons(id) ON DELETE CASCADE, content TEXT NOT NULL DEFAULT '', source TEXT NOT NULL, created_at INTEGER NOT NULL, prev_version_id TEXT)";

/// Index of the version history by neuron, newest first.
pub const VERSIONS_INDEX_DDL: &'static str = "CREATE INDEX IF NOT EXISTS idx_neuron_versions_neuron ON neuron_versions(neuron_id, created_at DESC)";

/// One statement of the schema upgrade, and the text its failure is reported with.
#[derive(Debug, Clone, PartialEq, Eq)]
pub struct SchemaStep {
    pub sql: String,
    pub failure: String,
}

/// Columns added to `neurons` after its first version (name, statement), in order.
pub open spec fn added_columns() -> Seq<(Seq<char>, Seq<char>)> {
    seq![
        ("system_type"@, "ALTER TABLE neurons ADD COLUMN system_type TEXT"@),
        ("tool_ids"@, "ALTER TABLE neurons ADD COLUMN tool_ids TEXT NOT NULL DEFAULT '[]'"@),
        ("lineage_parent_id"@, "ALTER TABLE neurons ADD COLUMN lineage_parent_id TEXT"@),
        ("use_count"@, "ALTER TABLE neurons ADD COLUMN use_count INTEGER NOT NULL DEFAULT 0"@),
        ("accumulated_delta"@, "ALTER TABLE neurons ADD COLUMN accumulated_delta REAL NOT NULL DEFAULT 0"@),
        ("last_used_at"@, "ALTER TABLE neurons ADD COLUMN last_used_at INTEGER"@),
        ("variant_state"@, "ALTER TABLE neurons ADD COLUMN variant_state TEXT"@),
        ("manual_edited"@, "ALTER TABLE neurons ADD COLUMN manual_edited INTEGER NOT NULL DEFAULT 0"@),
        ("deleted_at"@, "ALTER TABLE neurons ADD COLUMN deleted_at INTEGER"@),
        ("behavior"@, "ALTER TABLE neurons ADD COLUMN behavior TEXT"@),
    ]
}

/// Steps adding the columns `lo..hi` of [`added_columns`] that `existing` lacks, in order.
pub open spec fn column_steps(existing: Seq<String>, lo: int, hi: int) -> Seq<(Seq<char>, Seq<char>)>
    decreases hi - lo,
{
    if hi <= lo {
        Seq::empty()
    } else {
        let prev = column_steps(existing, lo, hi - 1);
        let col = added_columns()[hi - 1];
        if has_text(existing, col.0) {
            prev
        } else {
            prev.push((col.1, "Failed to add "@ + col.0))
        }
    }
}

/// The upgrade of a store whose `neurons` table has the columns `existing`: the missing
/// system type and tool id columns, the system type index, the other missing columns, then
/// the version table and its index.
pub open spec fn upgrade_steps(existing: Seq<String>) -> Seq<(Seq<char>, Seq<char>)> {
    column_steps(existing, 0, 2)
        + seq![(SYSTEM_TYPE_INDEX_DDL@, "Failed to index neuron system_type"@)]
        + column_steps(existing, 2, 10)
        + seq![
            (VERSIONS_TABLE_DDL@, "Failed to init neuron_versions"@),
            (VERSIONS_INDEX_DDL@, "Failed to index neuron_versions"@),
        ]
}

/// Views of schema steps.
pub open spec fn steps_view(s: Seq<SchemaStep>) -> Seq<(Seq<char>, Seq<char>)> {
    s.map_values(|t: SchemaStep| (t.sql@, t.failure@))
}

fn added_column_list() -> (r: Vec<(&'static str, &'static str)>)
    ensures
        r@.len() == 10,
        forall|i: int| 0 <= i < 10 ==> (#[trigger] r@[i]).0@ == added_columns()[i].0 && r@[i].1@ == added_columns()[i].1,
{
    let mut v: Vec<(&'static str, &'static str)> = Vec::new();
    v.push(("system_type", "ALTER TABLE neurons ADD COLUMN system_type TEXT"));
    v.push(("tool_ids", "ALTER TABLE neurons ADD COLUMN tool_ids TEXT NOT NULL DEFAULT '[]'"));
    v.push(("lineage_parent_id", "ALTER TABLE neurons ADD COLUMN lineage_parent_id TEXT"));
    v.push(("use_count", "ALTER TABLE neurons ADD COLUMN use_count INTEGER NOT NULL DEFAULT 0"));
    v.push(("accumulated_delta", "ALTER TABLE neurons ADD COLUMN accumulated_delta REAL NOT NULL DEFAULT 0"));
    v.push(("last_used_at", "ALTER TABLE neurons ADD COLUMN last_used_at INTEGER"));
    v.push(("variant_state", "ALTER TABLE neurons ADD COLUMN variant_state TEXT"));
    v.push(("manual_edited", "ALTER TABLE neurons ADD COLUMN manual_edited INTEGER NOT NULL DEFAULT 0"));
    v.push(("deleted_at", "ALTER TABLE neurons ADD COLUMN deleted_at INTEGER"));
    v.push(("behavior", "ALTER TABLE neurons ADD COLUMN behavior TEXT"));
    v
}

fn push_column_steps(
    out: &mut Vec<SchemaStep>,
    cols: &Vec<(&'static str, &'static str)>,
    existing: &Vec<String>,
    lo: usize,
    hi: usize,
)
    requires
        lo <= hi <= 10,
        cols@.len() == 10,
        forall|i: int| 0 <= i < 10 ==> (#[trigger] cols@[i]).0@ == added_columns()[i].0 && cols@[i].1@ == added_columns()[i].1,
    ensures
        steps_view(final(out)@) == steps_view(old(out)@) + column_steps(existing@, lo as int, hi as int),
{
    let ghost base = steps_view(out@);
    let mut k = lo;
    proof {
        assert(steps_view(out@) =~= base + column_steps(existing@, lo as int, lo as int));
    }
    while k < hi
        invariant
            lo <= k <= hi <= 10,
            cols@.len() == 10,
            forall|i: int| 0 <= i < 10 ==> (#[trigger] cols@[i]).0@ == added_columns()[i].0 && cols@[i].1@ == added_columns()[i].1,
            steps_view(out@) == base + column_steps(existing@, lo as int, k as int),
        decreases hi - k,
    {
        let name = owned(cols[k].0);
        let ghost before = out@;
        if !contains_text(existing, &name) {
            out.push(SchemaStep { sql: owned(cols[k].1), failure: join2("Failed to add ", cols[k].0) });
            proof {
                assert(steps_view(out@) =~= steps_view(before).push((cols@[k as int].1@, "Failed to add "@ + cols@[k as int].0@)));
            }
        }
        k += 1;
        proof {
            assert(steps_view(out@) =~= base + column_steps(existing@, lo as int, k as int));
        }
    }
}

/// The statements that bring a store whose `neurons` table has the columns `existing` up to
/// date (see [`upgrade_steps`]); run after [`NEURON_TABLES_DDL`].
pub fn schema_upgrade(existing: &Vec<String>) -> (r: Vec<SchemaStep>)
    ensures
        steps_view(r@) == upgrade_steps(existing@),
{
    let cols = added_column_list();
    let mut out: Vec<SchemaStep> = Vec::new();
    proof {
        assert(steps_view(out@) =~= Seq::<(Seq<char>, Seq<char>)>::empty());
    }
    push_column_steps(&mut out, &cols, existing, 0, 2);
    let ghost s1 = steps_view(out@);
    out.push(SchemaStep { sql: owned(SYSTEM_TYPE_INDEX_DDL), failure: owned("Failed to index neuron system_type") });
    proof {
        assert(steps_view(out@) =~= s1.push((SYSTEM_TYPE_INDEX_DDL@, "Failed to index neuron system_type"@)));
    }
    let ghost s2 = steps_view(out@);
    push_column_steps(&mut out, &cols, existing, 2, 10);
    let ghost s3 = steps_view(out@);
    out.push(SchemaStep { sql: owned(VERSIONS_TABLE_DDL), failure: owned("Failed to init neuron_versions") });
    proof {
        assert(steps_view(out@) =~= s3.push((VERSIONS_TABLE_DDL@, "Failed to init neuron_versions"@)));
    }
    let ghost s4 = steps_view(out@);
    out.push(SchemaStep { sql: owned(VERSIONS_INDEX_DDL), failure: owned("Failed to index neuron_versions") });
    proof {
        assert(steps_view(out@) =~= s4.push((VERSIONS_INDEX_DDL@, "Failed to index neuron_versions"@)));
        assert(steps_view(out@) =~= upgrade_steps(existing@));
    }
    out
}

} // verus!
