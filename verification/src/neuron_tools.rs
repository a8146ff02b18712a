//! Argument rules of the neuron tools the model may call: required texts, defaults and
//! caps. The caller reads each argument out of the call's JSON (absent when missing or of
//! another type) and hands it here.

use vstd::prelude::*;

use crate::error::AppError;
use crate::models::{CandidateQuery, NeuronKindFilter};
use crate::text::{is_blank, join2, owned, str_is_blank};

verus! {

/// Deepest network walk a tool call may ask for.
pub const MAX_TOOL_NETWORK_DEPTH: u64 = 5;

/// Largest candidate pool a tool call may ask for.
pub const MAX_TOOL_CANDIDATES: u64 = 50;

/// A required text argument: present and not blank, else `InvalidInput` naming the key.
pub fn required_text(value: Option<&str>, key: &str) -> (r: Result<String, AppError>)
    ensures
        match value {
            Some(v) => if is_blank(v@) {
                r matches Err(AppError::InvalidInput(m)) && m@ == "Missing: "@ + key@
            } else {
                r matches Ok(s) && s@ == v@
            },
            None => r matches Err(AppError::InvalidInput(m)) && m@ == "Missing: "@ + key@,
        },
{
    match value {
        Some(v) => {
            if str_is_blank(v) {
                Err(AppError::InvalidInput(join2("Missing: ", key)))
            } else {
                Ok(owned(v))
            }
        },
        None => Err(AppError::InvalidInput(join2("Missing: ", key))),
    }
}

/// Arguments of a listing call.
#[derive(Debug, Clone, PartialEq, Eq)]
pub struct ListArgs {
    pub page: u64,
    pub page_size: u64,
    pub search: Option<String>,
    pub kind: NeuronKindFilter,
}

/// A listing call: page 0 and 20 per page by default; the kind is parsed from its name
/// (`all` when missing).
pub fn list_args(page: Option<u64>, page_size: Option<u64>, search: Option<&str>, kind: Option<&str>) -> (r: ListArgs)
    ensures
        r.page == match page { Some(p) => p, None => 0 },
        r.page_size == match page_size { Some(s) => s, None => 20 },
        match search {
            Some(s) => r.search matches Some(x) && x@ == s@,
            None => r.search is None,
        },
        r.kind == match kind {
            Some(k) => NeuronKindFilter::spec_parse(k@),
            None => NeuronKindFilter::spec_parse("all"@),
        },
{
    ListArgs {
        page: match page { Some(p) => p, None => 0 },
        page_size: match page_size { Some(s) => s, None => 20 },
        search: match search { Some(s) => Some(owned(s)), None => None },
        kind: match kind {
            Some(k) => NeuronKindFilter::parse(k),
            None => NeuronKindFilter::parse("all"),
        },
    }
}

/// Depth of a network call: 3 by default, at most 5.
pub fn network_depth(max_depth: Option<u64>) -> (r: u64)
    ensures
        r == match max_depth {
            Some(d) => if d < MAX_TOOL_NETWORK_DEPTH { d } else { MAX_TOOL_NETWORK_DEPTH },
            None => 3,
        },
{
    match max_depth {
        Some(d) => if d < MAX_TOOL_NETWORK_DEPTH { d } else { MAX_TOOL_NETWORK_DEPTH },
        None => 3,
    }
}

/// Number of neurons a creation call asks for: 1 by default.
pub fn create_count(count: Option<u64>) -> (r: u64)
    ensures
        r == match count { Some(c) => c, None => 1 },
{
    match count {
        Some(c) => c,
        None => 1,
    }
}

/// A candidate call: `n` is required (`InvalidInput` otherwise) and capped at 50; no new
/// neurons are required by default.
pub fn candidate_args(n: Option<u64>, source_id: Option<&str>, min_new: Option<u64>) -> (r: Result<CandidateQuery, AppError>)
    ensures
        match n {
            None => r matches Err(AppError::InvalidInput(m)) && m@ == "Missing or invalid: n"@,
            Some(k) => r matches Ok(q) && q.n == (if k < MAX_TOOL_CANDIDATES { k } else { MAX_TOOL_CANDIDATES }) as usize
                && (match source_id {
                    Some(s) => q.source_id matches Some(x) && x@ == s@,
                    None => q.source_id is None,
                }) && q.min_new == (match min_new { Some(m) => m, None => 0 }) as usize,
        },
{
    let k = match n {
        Some(k) => k,
        None => {
            proof {
                reveal_strlit("Missing or invalid: n");
            }
            return Err(AppError::InvalidInput(owned("Missing or invalid: n")));
        },
    };
    let capped = if k < MAX_TOOL_CANDIDATES { k } else { MAX_TOOL_CANDIDATES };
    let m: u64 = match min_new { Some(m) => m, None => 0 };
    Ok(CandidateQuery {
        n: capped as usize,
        source_id: match source_id { Some(s) => Some(owned(s)), None => None },
        min_new: #[verifier::truncate] (m as usize),
    })
}

} // verus!
