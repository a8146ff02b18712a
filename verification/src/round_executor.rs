//! Step ③ rules: which tools a round is authorised for, whether the model kept to them,
//! and how tool results are folded into the round's response.
//!
//! Authorisation: the override list when given (agent rounds pass the whole catalog),
//! otherwise the selected neuron's `tool_ids`; unknown ids are dropped; the tools carrying
//! the mode's tags come first, then the remaining ids, without duplicates, in order.

use vstd::prelude::*;

use crate::error::AppError;
use crate::model_call_input::{contains_text, has_text};
use crate::models::{strs_view, ThinkingConfig, ToolCall};
use crate::round_types::ToolResultItem;
use crate::text::{is_blank, join2, owned, push_str, str_is_blank};

verus! {

proof fn lemma_has_text_view(v: Seq<String>, x: Seq<char>)
    ensures
        has_text(v, x) <==> strs_view(v).contains(x),
{
    if has_text(v, x) {
        let i = choose|i: int| 0 <= i < v.len() && (#[trigger] v[i])@ == x;
        assert(strs_view(v)[i] == x);
    }
    if strs_view(v).contains(x) {
        let i = choose|i: int| 0 <= i < strs_view(v).len() && strs_view(v)[i] == x;
        assert(v[i]@ == x);
    }
}

/// `ids` without the ones `known` lacks, in order.
pub open spec fn known_only(known: Seq<Seq<char>>, ids: Seq<Seq<char>>) -> Seq<Seq<char>>
    decreases ids.len(),
{
    if ids.len() == 0 {
        Seq::empty()
    } else {
        let rest = known_only(known, ids.drop_last());
        if known.contains(ids.last()) {
            rest.push(ids.last())
        } else {
            rest
        }
    }
}

/// Tool whitelist ∩ catalog: keeps the ids the catalog knows (`known`, its definition
/// names), in order.
pub fn filter_authorized_tool_ids(known: &Vec<String>, tool_ids: &[String]) -> (r: Vec<String>)
    ensures
        strs_view(r@) == known_only(strs_view(known@), strs_view(tool_ids@)),
{
    let mut out: Vec<String> = Vec::new();
    for i in 0..tool_ids.len()
        invariant
            strs_view(out@) == known_only(strs_view(known@), strs_view(tool_ids@.take(i as int))),
    {
        let hit = contains_text(known, &tool_ids[i]);
        proof {
            lemma_has_text_view(known@, tool_ids@[i as int]@);
            assert(strs_view(tool_ids@.take(i + 1)).drop_last() =~= strs_view(
                tool_ids@.take(i as int),
            ));
            assert(strs_view(tool_ids@.take(i + 1)).last() == tool_ids@[i as int]@);
        }
        if hit {
            let ghost before = out@;
            out.push(tool_ids[i].clone());
            proof {
                assert(strs_view(out@) =~= strs_view(before).push(tool_ids@[i as int]@));
            }
        }
    }
    assert(tool_ids@.take(tool_ids@.len() as int) =~= tool_ids@);
    out
}

/// `acc` followed by the ids of `ids` it does not hold yet, in order.
pub open spec fn merge_new(acc: Seq<Seq<char>>, ids: Seq<Seq<char>>) -> Seq<Seq<char>>
    decreases ids.len(),
{
    if ids.len() == 0 {
        acc
    } else {
        let prev = merge_new(acc, ids.drop_last());
        if prev.contains(ids.last()) {
            prev
        } else {
            prev.push(ids.last())
        }
    }
}

/// The ids a round is authorised for: the tag tools (`tag_tools`, the catalog's tools for
/// each of the mode's tags, in tag order), then the whitelist (`tool_override`, else the
/// neuron's `tool_ids`, else none) restricted to `known` and without ids already present.
pub open spec fn authorized_spec(
    tool_override: Option<Seq<Seq<char>>>,
    neuron_tool_ids: Option<Seq<Seq<char>>>,
    tag_tools: Seq<Seq<char>>,
    known: Seq<Seq<char>>,
) -> Seq<Seq<char>> {
    let whitelist = match tool_override {
        Some(ids) => ids,
        None => match neuron_tool_ids {
            Some(ids) => ids,
            None => Seq::empty(),
        },
    };
    merge_new(tag_tools, known_only(known, whitelist))
}

/// Optional view of a string list.
pub open spec fn opt_strs(o: Option<&Vec<String>>) -> Option<Seq<Seq<char>>> {
    match o {
        Some(v) => Some(strs_view(v@)),
        None => None,
    }
}

/// Tool authorisation of a round (see [`authorized_spec`]).
pub fn authorize_round_tools(
    tool_override: Option<&Vec<String>>,
    neuron_tool_ids: Option<&Vec<String>>,
    tag_tools: &Vec<String>,
    known: &Vec<String>,
) -> (r: Vec<String>)
    ensures
        strs_view(r@) == authorized_spec(
            opt_strs(tool_override),
            opt_strs(neuron_tool_ids),
            strs_view(tag_tools@),
            strs_view(known@),
        ),
{
    let empty: Vec<String> = Vec::new();
    let whitelist: &Vec<String> = match tool_override {
        Some(ids) => ids,
        None => match neuron_tool_ids {
            Some(ids) => ids,
            None => &empty,
        },
    };
    proof {
        assert(strs_view(empty@) =~= Seq::<Seq<char>>::empty());
    }
    let filtered = filter_authorized_tool_ids(known, whitelist.as_slice());
    let mut out: Vec<String> = tag_tools.clone();
    proof {
        assert(out@ == tag_tools@);
    }
    for i in 0..filtered.len()
        invariant
            strs_view(out@) == merge_new(strs_view(tag_tools@), strs_view(filtered@.take(i as int))),
    {
        let present = contains_text(&out, &filtered[i]);
        proof {
            lemma_has_text_view(out@, filtered@[i as int]@);
            assert(strs_view(filtered@.take(i + 1)).drop_last() =~= strs_view(
                filtered@.take(i as int),
            ));
            assert(strs_view(filtered@.take(i + 1)).last() == filtered@[i as int]@);
        }
        if !present {
            let ghost before = out@;
            out.push(filtered[i].clone());
            proof {
                assert(strs_view(out@) =~= strs_view(before).push(filtered@[i as int]@));
            }
        }
    }
    assert(filtered@.take(filtered@.len() as int) =~= filtered@);
    out
}

/// Index of the first call whose tool is not authorised (`calls.len()` when all are).
pub open spec fn first_unauthorized(calls: Seq<ToolCall>, authorized: Seq<Seq<char>>) -> int
    decreases calls.len(),
{
    if calls.len() == 0 {
        0
    } else if first_unauthorized(calls.drop_last(), authorized) < calls.len() - 1 {
        first_unauthorized(calls.drop_last(), authorized)
    } else if authorized.contains(calls.last().name@) {
        calls.len() as int
    } else {
        calls.len() - 1
    }
}

proof fn lemma_first_unauthorized(calls: Seq<ToolCall>, authorized: Seq<Seq<char>>)
    ensures
        0 <= first_unauthorized(calls, authorized) <= calls.len(),
        forall|j: int|
            0 <= j < first_unauthorized(calls, authorized) ==> authorized.contains(
                (#[trigger] calls[j]).name@,
            ),
        first_unauthorized(calls, authorized) < calls.len() ==> !authorized.contains(
            calls[first_unauthorized(calls, authorized)].name@,
        ),
    decreases calls.len(),
{
    if calls.len() > 0 {
        let prefix = calls.drop_last();
        lemma_first_unauthorized(prefix, authorized);
        assert forall|j: int| 0 <= j < calls.len() - 1 implies calls[j] == prefix[j] by {}
        let kp = first_unauthorized(prefix, authorized);
        if kp < calls.len() - 1 {
            assert(calls[kp] == prefix[kp]);
        }
    }
}

/// Message of a call to a tool the round was not authorised for.
pub open spec fn unauthorized_message(name: Seq<char>) -> Seq<char> {
    "Tool '"@ + name + "' is not authorized for this round"@
}

/// Checks that every declared call names an authorised tool; the first one that does not
/// gives `InvalidInput`.
pub fn validate_authorized(tool_calls: Option<&Vec<ToolCall>>, authorized: &Vec<String>) -> (r:
    Result<(), AppError>)
    ensures
        match tool_calls {
            None => r is Ok,
            Some(calls) => {
                let k = first_unauthorized(calls@, strs_view(authorized@));
                if k == calls@.len() {
                    r is Ok
                } else {
                    r matches Err(AppError::InvalidInput(m)) && m@ == unauthorized_message(
                        calls@[k].name@,
                    )
                }
            },
        },
{
    let calls = match tool_calls {
        None => {
            return Ok(());
        },
        Some(c) => c,
    };
    proof {
        lemma_first_unauthorized(calls@, strs_view(authorized@));
    }
    let n = calls.len();
    let mut i: usize = 0;
    while i < n
        invariant
            tool_calls == Some(calls),
            n == calls@.len(),
            i <= n,
            i <= first_unauthorized(calls@, strs_view(authorized@)),
            0 <= first_unauthorized(calls@, strs_view(authorized@)) <= calls@.len(),
            forall|j: int|
                0 <= j < first_unauthorized(calls@, strs_view(authorized@)) ==> strs_view(
                    authorized@,
                ).contains((#[trigger] calls@[j]).name@),
            first_unauthorized(calls@, strs_view(authorized@)) < calls@.len() ==> !strs_view(
                authorized@,
            ).contains(calls@[first_unauthorized(calls@, strs_view(authorized@))].name@),
        decreases n - i,
    {
        let ok = contains_text(authorized, &calls[i].name);
        proof {
            lemma_has_text_view(authorized@, calls@[i as int].name@);
        }
        if !ok {
            let mut msg = join2("Tool '", calls[i].name.as_str());
            push_str(&mut msg, "' is not authorized for this round");
            return Err(AppError::InvalidInput(msg));
        }
        i += 1;
    }
    Ok(())
}

/// `output` with one tool result folded in: the result alone when `output` is blank,
/// otherwise `output`, a blank line, `[tool:<name>] ` and the result.
pub open spec fn fold_one(output: Seq<char>, name: Seq<char>, result: Seq<char>) -> Seq<char> {
    if is_blank(output) {
        result
    } else {
        output + "\n\n[tool:"@ + name + "] "@ + result
    }
}

/// `output` with every tool result folded in, in order.
pub open spec fn fold_results(output: Seq<char>, results: Seq<ToolResultItem>) -> Seq<char>
    decreases results.len(),
{
    if results.len() == 0 {
        output
    } else {
        fold_one(
            fold_results(output, results.drop_last()),
            results.last().tool_name@,
            results.last().content@,
        )
    }
}

/// The round's response: the model output with each tool result folded in
/// (see [`fold_results`]).
pub fn compose_response(output: &str, results: &Vec<ToolResultItem>) -> (r: String)
    ensures
        r@ == fold_results(output@, results@),
{
    let mut out = owned(output);
    for i in 0..results.len()
        invariant
            out@ == fold_results(output@, results@.take(i as int)),
    {
        let item = &results[i];
        proof {
            assert(results@.take(i + 1).drop_last() =~= results@.take(i as int));
        }
        if str_is_blank(out.as_str()) {
            out = item.content.clone();
        } else {
            push_str(&mut out, "\n\n[tool:");
            push_str(&mut out, item.tool_name.as_str());
            push_str(&mut out, "] ");
            push_str(&mut out, item.content.as_str());
        }
    }
    assert(results@.take(results@.len() as int) =~= results@);
    out
}

/// The thinking configuration a request carries: the caller's override, else the
/// session/model setting.
pub fn effective_thinking(
    thinking_override: Option<ThinkingConfig>,
    model_thinking: Option<ThinkingConfig>,
) -> (r: Option<ThinkingConfig>)
    ensures
        r == (if thinking_override is Some {
            thinking_override
        } else {
            model_thinking
        }),
{
    match thinking_override {
        Some(t) => Some(t),
        None => model_thinking,
    }
}

} // verus!
