//! Neuron creation rules: batch sizes, whether a system neuron is reused or (re)created,
//! session spec types, and the prompts the creator is given.

use vstd::prelude::*;

use crate::error::AppError;
use crate::models::{trim_seq, SelectionPolicy, SessionBehavior, ToolPolicy};
use crate::neuron_config::{default_behavior_for_system_type, judgement_insert, MAX_CREATE_NEURON_COUNT};
use crate::text::{decimal, is_blank, join2, owned, push_str, str_is_blank, str_is_empty, u64_to_decimal};

verus! {

/// Message of a creation batch outside `1..=10`.
pub open spec fn create_count_message(count: nat) -> Seq<char> {
    "create_neuron count must be 1..=10, got "@ + decimal(count)
}

/// Checks the size of a creation request: between 1 and 10 neurons.
pub fn check_create_count(count: usize) -> (r: Result<(), AppError>)
    ensures
        1 <= count <= MAX_CREATE_NEURON_COUNT ==> r is Ok,
        !(1 <= count <= MAX_CREATE_NEURON_COUNT) ==> (r matches Err(AppError::InvalidInput(m)) && m@
            == create_count_message(count as nat)),
{
    if count == 0 || count > MAX_CREATE_NEURON_COUNT {
        let mut msg = owned("create_neuron count must be 1..=10, got ");
        push_str(&mut msg, u64_to_decimal(count as u64).as_str());
        return Err(AppError::InvalidInput(msg));
    }
    Ok(())
}

/// One step of ensuring a system neuron, run by the caller in order.
#[derive(Debug, Clone, PartialEq, Eq)]
pub enum EnsureStep {
    /// Remove every edge of the old neuron `0`.
    UnlinkEdges(String),
    /// Delete the old neuron `0`.
    Delete(String),
    /// Keep the existing neuron `0` as the system neuron.
    Keep(String),
    /// Create the system neuron from a draft the creator writes for the system type.
    CreateFromSeed,
    /// Store this behavior on the neuron just created.
    SetBehavior(SessionBehavior),
    /// Fill the kept or created neuron's own candidate pool.
    FillOwnPool,
}

/// `b` is the default behavior of a judgement with contract `insert`.
pub open spec fn judgement_behavior(b: SessionBehavior, insert: Seq<char>) -> bool {
    &&& b.selection == SelectionPolicy::Fixed
    &&& b.tools == ToolPolicy::NoTools
    &&& b.insert_id matches Some(id) && id@ == insert
}

/// The steps from `k` on of a creation for system type `t`: create from the seed, store
/// the judgement's default behavior when `t` is a judgement type, fill the own pool.
pub open spec fn creation_steps(steps: Seq<EnsureStep>, k: int, t: Seq<char>) -> bool {
    &&& steps[k] == EnsureStep::CreateFromSeed
    &&& match judgement_insert(t) {
        Some(i) => steps.len() == k + 3 && (steps[k + 1] matches EnsureStep::SetBehavior(b)
            && judgement_behavior(b, i)) && steps[k + 2] == EnsureStep::FillOwnPool,
        None => steps.len() == k + 2 && steps[k + 1] == EnsureStep::FillOwnPool,
    }
}

/// Plans ensuring the system neuron of `system_type` (trimmed; blank fails with
/// `InvalidInput`), given the id of the existing one, if any:
/// - an existing one, without reset, is kept and its own pool filled;
/// - on a reset, an existing one first loses its edges and is deleted;
/// - a neuron is then created from the seed, given its judgement's default behavior when
///   the type is a judgement, and its own pool filled.
pub fn plan_ensure_system(system_type: &str, reset: bool, existing: Option<&str>) -> (r: Result<
    (String, Vec<EnsureStep>),
    AppError,
>)
    ensures
        trim_seq(system_type@).len() == 0 ==> (r matches Err(AppError::InvalidInput(m)) && m@
            == "system_type cannot be empty"@),
        trim_seq(system_type@).len() > 0 ==> (r matches Ok((t, steps)) && t@ == trim_seq(system_type@)
            && match existing {
            Some(e) => if reset {
                (steps@[0] matches EnsureStep::UnlinkEdges(x) && x@ == e@)
                    && (steps@[1] matches EnsureStep::Delete(x) && x@ == e@)
                    && creation_steps(steps@, 2, t@)
            } else {
                steps@.len() == 2 && (steps@[0] matches EnsureStep::Keep(x) && x@ == e@)
                    && steps@[1] == EnsureStep::FillOwnPool
            },
            None => creation_steps(steps@, 0, t@),
        }),
{
    let t = crate::models::trim_str(system_type);
    if str_is_empty(t) {
        proof {
            reveal_strlit("system_type cannot be empty");
        }
        return Err(AppError::InvalidInput(owned("system_type cannot be empty")));
    }
    let mut steps: Vec<EnsureStep> = Vec::new();
    match existing {
        Some(e) => {
            if reset {
                steps.push(EnsureStep::UnlinkEdges(owned(e)));
                steps.push(EnsureStep::Delete(owned(e)));
            } else {
                steps.push(EnsureStep::Keep(owned(e)));
                steps.push(EnsureStep::FillOwnPool);
                return Ok((owned(t), steps));
            }
        },
        None => {},
    }
    let ghost k = steps@.len();
    steps.push(EnsureStep::CreateFromSeed);
    match default_behavior_for_system_type(t) {
        Some(b) => {
            steps.push(EnsureStep::SetBehavior(b));
        },
        None => {},
    }
    steps.push(EnsureStep::FillOwnPool);
    Ok((owned(t), steps))
}

/// The description of a system root created from a draft: the draft's, else the system type.
pub fn system_root_desc(draft_desc: &str, system_type: &str) -> (r: String)
    ensures
        r@ == if is_blank(draft_desc@) {
            system_type@
        } else {
            draft_desc@
        },
{
    if str_is_blank(draft_desc) {
        owned(system_type)
    } else {
        owned(draft_desc)
    }
}

/// Message of a session spec type without the `session.` prefix.
pub open spec fn session_type_message(t: Seq<char>) -> Seq<char> {
    "session spec system_type must start with 'session.': "@ + t
}

/// Checks a session spec type: trimmed, it must be non-empty and start with `session.`.
pub fn check_session_type(system_type: &str) -> (r: Result<String, AppError>)
    ensures
        ({
            let t = trim_seq(system_type@);
            if t.len() > 0 && t.len() >= 8 && t.subrange(0, 8) == "session."@ {
                r matches Ok(s) && s@ == t
            } else {
                r matches Err(AppError::InvalidInput(m)) && m@ == session_type_message(t)
            }
        }),
{
    proof {
        reveal_strlit("session.");
    }
    let t = crate::models::trim_str(system_type);
    let n = t.unicode_len();
    let ok = n >= 8 && crate::text::str_eq(t.substring_char(0, 8), "session.");
    if !ok {
        let msg = join2("session spec system_type must start with 'session.': ", t);
        return Err(AppError::InvalidInput(msg));
    }
    Ok(owned(t))
}

/// Whether creation fills the creator's own pool (new neurons descend from the creator).
pub fn fills_creator(link_to: Option<&str>, creator_id: &str) -> (r: bool)
    ensures
        r == (link_to is Some && link_to.unwrap()@ == creator_id@),
{
    match link_to {
        Some(l) => crate::text::str_eq(l, creator_id),
        None => false,
    }
}

/// A registered tool, as the creator's prompt lists it.
#[derive(Debug, Clone, PartialEq, Eq)]
pub struct ToolLine {
    pub name: String,
    pub description: String,
}

/// The lines after the header, each `\n- <name>: <description>`.
pub open spec fn tool_lines(tools: Seq<ToolLine>) -> Seq<char>
    decreases tools.len(),
{
    if tools.len() == 0 {
        Seq::empty()
    } else {
        tool_lines(tools.drop_last()) + "\n- "@ + tools.last().name@ + ": "@ + tools.last().description@
    }
}

/// Header of the tool list.
pub open spec fn tools_header() -> Seq<char> {
    "Available tools for `tool_ids` (pick only from this list; do not invent names):"@
}

/// The tools block of a creator prompt: the registered tools to pick `tool_ids` from, or a
/// note that there are none.
pub open spec fn tools_block_spec(tools: Seq<ToolLine>) -> Seq<char> {
    if tools.len() == 0 {
        "No tools are registered; `tool_ids` must be []."@
    } else {
        tools_header() + tool_lines(tools)
    }
}

/// The tools block of a creator prompt (see [`tools_block_spec`]).
pub fn available_tools_block(tools: &Vec<ToolLine>) -> (r: String)
    ensures
        r@ == tools_block_spec(tools@),
{
    if tools.len() == 0 {
        return owned("No tools are registered; `tool_ids` must be [].");
    }
    let mut out = owned("Available tools for `tool_ids` (pick only from this list; do not invent names):");
    for i in 0..tools.len()
        invariant
            out@ == tools_header() + tool_lines(tools@.take(i as int)),
    {
        proof {
            assert(tools@.take(i + 1).drop_last() =~= tools@.take(i as int));
        }
        push_str(&mut out, "\n- ");
        push_str(&mut out, tools[i].name.as_str());
        push_str(&mut out, ": ");
        push_str(&mut out, tools[i].description.as_str());
    }
    proof {
        assert(tools@.take(tools@.len() as int) =~= tools@);
    }
    out
}

/// The purpose of a fill batch: downstream neurons of a source, or neurons for the global pool.
pub open spec fn fill_purpose_spec(count: nat, source_id: Option<Seq<char>>) -> Seq<char> {
    match source_id {
        Some(s) => "Fill "@ + decimal(count) + " distinct single-responsibility downstream neurons under source_id "@ + s
            + ". Specialize useful child capabilities of the source; do not duplicate the parent wholesale."@,
        None => "Fill "@ + decimal(count) + " distinct single-responsibility neurons for a global candidate pool."@,
    }
}

/// The purpose of a fill batch (see [`fill_purpose_spec`]).
pub fn fill_purpose(count: usize, source_id: Option<&str>) -> (r: String)
    ensures
        r@ == fill_purpose_spec(
            count as nat,
            match source_id {
                Some(s) => Some(s@),
                None => None,
            },
        ),
{
    let mut out = join2("Fill ", u64_to_decimal(count as u64).as_str());
    match source_id {
        Some(s) => {
            push_str(&mut out, " distinct single-responsibility downstream neurons under source_id ");
            push_str(&mut out, s);
            push_str(&mut out, ". Specialize useful child capabilities of the source; do not duplicate the parent wholesale.");
        },
        None => {
            push_str(&mut out, " distinct single-responsibility neurons for a global candidate pool.");
        },
    }
    out
}

/// What a creation prompt asks for.
#[derive(Debug, Clone, PartialEq, Eq)]
pub enum PromptSubject {
    /// A stated purpose.
    Purpose(String),
    /// A conversation, as its JSON text.
    Context(String),
}

/// `exactly <count>`.
pub open spec fn count_word(count: nat) -> Seq<char> {
    "exactly "@ + decimal(count)
}

/// The output contract of a creation prompt for `count` neurons.
pub open spec fn list_contract(count: nat) -> Seq<char> {
    if count == 1 {
        "Return ONLY a JSON array with exactly 1 object: [{\"desc\",\"content\",\"tool_ids\"}] (weight optional/ignored). A single object is also accepted for count=1."@
    } else {
        "Return ONLY a JSON array with exactly "@ + decimal(count)
            + " objects: [{\"desc\",\"content\",\"tool_ids\"}, ...] (weight optional/ignored). Each neuron must be distinct and single-responsibility."@
    }
}

/// The note on where created neurons attach.
pub open spec fn link_note(link_to: Option<Seq<char>>) -> Seq<char> {
    match link_to {
        Some(id) => " These neurons will be direct downstream of "@ + id + "."@,
        None => Seq::empty(),
    }
}

/// Requirement lines shared by both kinds of creation prompt.
pub open spec fn shared_requirements() -> Seq<char> {
    "- Each neuron focuses on one job only; do not bundle unrelated skills.\n- `content` must be an executable prompt/knowledge block (role, when to use / not use, steps, output format, hard constraints).\n- Prefer 200–800 Chinese characters (or equivalent) in `content`; no slogans or placeholders.\n- Do not assign importance scores; system forces initial weight to 0.\n- `tool_ids`: only truly needed tools; else [].\n- "@
}

/// The creator's user prompt for `count` neurons about `subject`.
pub open spec fn user_prompt_spec(
    subject: PromptSubject,
    count: nat,
    link_to: Option<Seq<char>>,
    tools_note: Seq<char>,
) -> Seq<char> {
    match subject {
        PromptSubject::Purpose(p) => "Create "@ + count_word(count) + " single-responsibility neuron(s) for the purpose below."@
            + link_note(link_to) + "\nRequirements:\n"@ + shared_requirements() + tools_note + "\n- "@
            + list_contract(count) + "\nPurpose: "@ + p@,
        PromptSubject::Context(c) => "Create "@ + count_word(count)
            + " single-responsibility neuron(s) distilled from the conversation context below."@
            + link_note(link_to) + "\nRequirements:\n"@
            + "- Infer reusable capabilities the conversation needs; ignore one-off chatter.\n"@
            + shared_requirements() + tools_note + "\n- "@ + list_contract(count) + "\nContext: "@ + c@,
    }
}

fn list_contract_text(count: usize) -> (r: String)
    ensures
        r@ == list_contract(count as nat),
{
    if count == 1 {
        owned("Return ONLY a JSON array with exactly 1 object: [{\"desc\",\"content\",\"tool_ids\"}] (weight optional/ignored). A single object is also accepted for count=1.")
    } else {
        let mut out = join2("Return ONLY a JSON array with exactly ", u64_to_decimal(count as u64).as_str());
        push_str(&mut out, " objects: [{\"desc\",\"content\",\"tool_ids\"}, ...] (weight optional/ignored). Each neuron must be distinct and single-responsibility.");
        out
    }
}

fn link_note_text(link_to: Option<&str>) -> (r: String)
    ensures
        r@ == link_note(
            match link_to {
                Some(s) => Some(s@),
                None => None,
            },
        ),
{
    match link_to {
        Some(id) => {
            let mut out = join2(" These neurons will be direct downstream of ", id);
            push_str(&mut out, ".");
            out
        },
        None => String::new(),
    }
}

/// The creator's user prompt (see [`user_prompt_spec`]); `tools_note` is the tools block.
pub fn create_neuron_user_prompt(
    subject: &PromptSubject,
    count: usize,
    link_to: Option<&str>,
    tools_note: &str,
) -> (r: String)
    ensures
        r@ == user_prompt_spec(
            *subject,
            count as nat,
            match link_to {
                Some(s) => Some(s@),
                None => None,
            },
            tools_note@,
        ),
{
    let word = join2("exactly ", u64_to_decimal(count as u64).as_str());
    let note = link_note_text(link_to);
    let contract = list_contract_text(count);
    let mut out = join2("Create ", word.as_str());
    match subject {
        PromptSubject::Purpose(p) => {
            push_str(&mut out, " single-responsibility neuron(s) for the purpose below.");
            push_str(&mut out, note.as_str());
            push_str(&mut out, "\nRequirements:\n");
        },
        PromptSubject::Context(_) => {
            push_str(&mut out, " single-responsibility neuron(s) distilled from the conversation context below.");
            push_str(&mut out, note.as_str());
            push_str(&mut out, "\nRequirements:\n");
            push_str(&mut out, "- Infer reusable capabilities the conversation needs; ignore one-off chatter.\n");
        },
    }
    push_str(&mut out, "- Each neuron focuses on one job only; do not bundle unrelated skills.\n- `content` must be an executable prompt/knowledge block (role, when to use / not use, steps, output format, hard constraints).\n- Prefer 200–800 Chinese characters (or equivalent) in `content`; no slogans or placeholders.\n- Do not assign importance scores; system forces initial weight to 0.\n- `tool_ids`: only truly needed tools; else [].\n- ");
    push_str(&mut out, tools_note);
    push_str(&mut out, "\n- ");
    push_str(&mut out, contract.as_str());
    match subject {
        PromptSubject::Purpose(p) => {
            push_str(&mut out, "\nPurpose: ");
            push_str(&mut out, p.as_str());
        },
        PromptSubject::Context(c) => {
            push_str(&mut out, "\nContext: ");
            push_str(&mut out, c.as_str());
        },
    }
    out
}

/// The creator's prompt for the system neuron of `system_type`.
pub open spec fn system_prompt_request_spec(system_type: Seq<char>, tools_note: Seq<char>) -> Seq<char> {
    "Write a system prompt neuron with system_type="@ + system_type
        + ".\nRequirements:\n- `content` must be a full executable system prompt: role, decision criteria, steps, output contract, hard constraints.\n- Prefer 200–800 Chinese characters (or equivalent); no slogans or placeholders.\n- One responsibility aligned with system_type="@
        + system_type
        + ".\n- Do not assign importance scores; system forces initial weight to 0.\n- `tool_ids`: only truly needed tools; else [].\n- "@
        + tools_note + "\n- Return ONLY JSON with desc, content, and tool_ids (weight optional/ignored)."@
}

/// The creator's prompt for a system neuron (see [`system_prompt_request_spec`]).
pub fn system_prompt_request(system_type: &str, tools_note: &str) -> (r: String)
    ensures
        r@ == system_prompt_request_spec(system_type@, tools_note@),
{
    let mut out = join2("Write a system prompt neuron with system_type=", system_type);
    push_str(&mut out, ".\nRequirements:\n- `content` must be a full executable system prompt: role, decision criteria, steps, output contract, hard constraints.\n- Prefer 200–800 Chinese characters (or equivalent); no slogans or placeholders.\n- One responsibility aligned with system_type=");
    push_str(&mut out, system_type);
    push_str(&mut out, ".\n- Do not assign importance scores; system forces initial weight to 0.\n- `tool_ids`: only truly needed tools; else [].\n- ");
    push_str(&mut out, tools_note);
    push_str(&mut out, "\n- Return ONLY JSON with desc, content, and tool_ids (weight optional/ignored).");
    out
}

} // verus!
