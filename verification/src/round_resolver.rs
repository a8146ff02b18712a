//! Step ①: which role neuron a round uses, and how its context joins the history.
//!
//! Resolution decides from the session seed, the last selected neuron and the `reselect`
//! flag whether the round has no role, the seed's own fixed role, or a role picked from a
//! candidate pool (reusing the last selection on non-reselect rounds). Attaching the role
//! appends it to the stored history: as the system message on the first round, as a
//! `[当前角色]` role context on later rounds, with the neuron's contract section joined in
//! when the history does not already carry it.

use vstd::prelude::*;

use crate::error::AppError;
use crate::model_call_input::sviews;
use crate::models::{
    AssistantCandidateScope, Message, MessageBody, MessageBodyView, MessageRole, MessageView,
    NeighborhoodPoolPolicy, SelectionPolicy, SessionBehavior, DEFAULT_ASSISTANT_GLOBAL_LIMIT,
};
use crate::round_types::SessionSeed;
use crate::text::{
    is_blank, join2, owned, push_str, seq_contains, str_contains, str_is_blank,
};

verus! {

/// The fields of a neuron that role resolution reads.
#[derive(Debug, Clone, PartialEq, Eq)]
pub struct RoleNeuron {
    pub id: String,
    /// Role prompt.
    pub content: String,
    /// Present on system neurons.
    pub system_type: Option<String>,
    /// Behavior of a system neuron.
    pub behavior: Option<SessionBehavior>,
}

/// How a round obtains its role.
#[derive(Debug, Clone, PartialEq, Eq)]
pub enum RolePlan {
    /// No role: the history is used as it is.
    NoRole,
    /// The seed neuron itself is the role.
    Fixed,
    /// Reuse `reuse` when it still exists; otherwise select from `scope`.
    Pick { reuse: Option<String>, scope: AssistantCandidateScope },
}

/// Value view of an optional scope anchor.
pub open spec fn anchor(last_selected: Option<&str>) -> Option<Seq<char>> {
    match last_selected {
        Some(s) => Some(s@),
        None => None,
    }
}

/// `scope` is the neighborhood of `self_id` with `policy`.
pub open spec fn is_neighborhood(
    scope: AssistantCandidateScope,
    self_id: Seq<char>,
    policy: NeighborhoodPoolPolicy,
) -> bool {
    scope matches AssistantCandidateScope::Neighborhood { self_id: id, policy: p } && id@ == self_id
        && p == policy
}

/// The candidate scope of `selection`: none for `NoPrompt`/`Fixed`; a neighborhood anchored at
/// the last selection (else at `spec_neuron_id`) for `Neighborhood`; for `Global` the global
/// pool without history, else the default neighborhood of the last selection.
pub open spec fn scope_spec(
    selection: SelectionPolicy,
    spec_neuron_id: Seq<char>,
    last: Option<Seq<char>>,
    r: Option<AssistantCandidateScope>,
) -> bool {
    match selection {
        SelectionPolicy::NoPrompt | SelectionPolicy::Fixed => r is None,
        SelectionPolicy::Neighborhood { policy } => r matches Some(s) && is_neighborhood(
            s,
            match last {
                Some(l) => l,
                None => spec_neuron_id,
            },
            policy,
        ),
        SelectionPolicy::Global { limit } => r matches Some(s) && match last {
            Some(l) => is_neighborhood(s, l, NeighborhoodPoolPolicy::spec_default()),
            None => s == AssistantCandidateScope::Global { limit },
        },
    }
}

/// Candidate scope of a selection policy (see [`scope_spec`]).
pub fn scope_for_selection(
    selection: &SelectionPolicy,
    spec_neuron_id: &str,
    last_selected: Option<&str>,
) -> (r: Option<AssistantCandidateScope>)
    ensures
        scope_spec(*selection, spec_neuron_id@, anchor(last_selected), r),
{
    match selection {
        SelectionPolicy::NoPrompt | SelectionPolicy::Fixed => None,
        SelectionPolicy::Neighborhood { policy } => Some(
            match last_selected {
                Some(last) => AssistantCandidateScope::Neighborhood {
                    self_id: owned(last),
                    policy: *policy,
                },
                None => AssistantCandidateScope::Neighborhood {
                    self_id: owned(spec_neuron_id),
                    policy: *policy,
                },
            },
        ),
        SelectionPolicy::Global { limit } => Some(
            match last_selected {
                Some(last) => AssistantCandidateScope::Neighborhood {
                    self_id: owned(last),
                    policy: NeighborhoodPoolPolicy::default_policy(),
                },
                None => AssistantCandidateScope::Global { limit: *limit },
            },
        ),
    }
}

/// The neuron to reuse: the last selection on a non-reselect round.
pub open spec fn reuse_spec(last: Option<Seq<char>>, reselect: bool) -> Option<Seq<char>> {
    if reselect {
        None
    } else {
        last
    }
}

/// The plan for a pick round with `selection` anchored at `spec_neuron_id`.
pub open spec fn pick_spec(
    r: RolePlan,
    selection: SelectionPolicy,
    spec_neuron_id: Seq<char>,
    last: Option<Seq<char>>,
    reselect: bool,
) -> bool {
    &&& r matches RolePlan::Pick { reuse, scope }
    &&& reuse_spec(last, reselect) == match reuse {
        Some(id) => Some(id@),
        None => None,
    }
    &&& scope_spec(selection, spec_neuron_id, last, Some(scope))
}

/// Message of a system neuron seed that has no behavior.
pub open spec fn missing_behavior_message(id: Seq<char>) -> Seq<char> {
    "neuron "@ + id + " is a system neuron but has no behavior"@
}

/// The selection a system neuron's behavior runs with: `Global` is not allowed for system
/// neurons and falls back to the default neighborhood.
pub open spec fn system_selection(selection: SelectionPolicy) -> SelectionPolicy {
    match selection {
        SelectionPolicy::Global { .. } => SelectionPolicy::Neighborhood {
            policy: NeighborhoodPoolPolicy::spec_default(),
        },
        other => other,
    }
}

/// Which role a round uses.
///
/// - no seed: no role;
/// - `Global`: pick from the global pool of the default size (the last selection is reused on
///   non-reselect rounds; with history the pool is its neighborhood);
/// - `Neuron(id)` that does not exist (`seed_neuron` is `None`): `NeuronNotFound(id)`;
/// - a plain neuron: pick from its default neighborhood;
/// - a system neuron without behavior: `InvalidInput`;
/// - a system neuron: per its selection, no role, itself (`Fixed`), or a neighborhood pick.
pub fn plan_resolve(
    seed: Option<&SessionSeed>,
    seed_neuron: Option<&RoleNeuron>,
    last_selected: Option<&str>,
    reselect: bool,
) -> (r: Result<RolePlan, AppError>)
    requires
        seed matches Some(SessionSeed::Neuron(id)) ==> (seed_neuron matches Some(n) ==> n.id@
            == id@),
    ensures
        match seed {
            None => r == Ok::<RolePlan, AppError>(RolePlan::NoRole),
            Some(SessionSeed::Global) => r matches Ok(p) && pick_spec(
                p,
                SelectionPolicy::Global { limit: DEFAULT_ASSISTANT_GLOBAL_LIMIT },
                Seq::empty(),
                anchor(last_selected),
                reselect,
            ),
            Some(SessionSeed::Neuron(id)) => match seed_neuron {
                None => r matches Err(AppError::NeuronNotFound(m)) && m@ == id@,
                Some(n) => match n.system_type {
                    None => r matches Ok(p) && pick_spec(
                        p,
                        SelectionPolicy::Neighborhood {
                            policy: NeighborhoodPoolPolicy::spec_default(),
                        },
                        id@,
                        anchor(last_selected),
                        reselect,
                    ),
                    Some(_) => match n.behavior {
                        None => r matches Err(AppError::InvalidInput(m)) && m@
                            == missing_behavior_message(id@),
                        Some(b) => match system_selection(b.selection) {
                            SelectionPolicy::NoPrompt => r == Ok::<RolePlan, AppError>(
                                RolePlan::NoRole,
                            ),
                            SelectionPolicy::Fixed => r == Ok::<RolePlan, AppError>(
                                RolePlan::Fixed,
                            ),
                            sel => r matches Ok(p) && pick_spec(
                                p,
                                sel,
                                id@,
                                anchor(last_selected),
                                reselect,
                            ),
                        },
                    },
                },
            },
        },
{
    let seed = match seed {
        None => {
            return Ok(RolePlan::NoRole);
        },
        Some(s) => s,
    };
    let reuse: Option<String> = if reselect {
        None
    } else {
        match last_selected {
            Some(l) => Some(owned(l)),
            None => None,
        }
    };
    match seed {
        SessionSeed::Global => {
            let selection = SelectionPolicy::Global { limit: DEFAULT_ASSISTANT_GLOBAL_LIMIT };
            proof {
                reveal_strlit("");
            }
            match scope_for_selection(&selection, "", last_selected) {
                Some(scope) => Ok(RolePlan::Pick { reuse, scope }),
                None => Ok(RolePlan::NoRole),
            }
        },
        SessionSeed::Neuron(id) => {
            let n = match seed_neuron {
                None => {
                    return Err(AppError::NeuronNotFound(id.clone()));
                },
                Some(n) => n,
            };
            if n.system_type.is_none() {
                let selection = SelectionPolicy::Neighborhood {
                    policy: NeighborhoodPoolPolicy::default_policy(),
                };
                return match scope_for_selection(&selection, id.as_str(), last_selected) {
                    Some(scope) => Ok(RolePlan::Pick { reuse, scope }),
                    None => Ok(RolePlan::NoRole),
                };
            }
            let behavior = match &n.behavior {
                None => {
                    let mut msg = join2("neuron ", id.as_str());
                    push_str(&mut msg, " is a system neuron but has no behavior");
                    proof {
                        assert(msg@ == missing_behavior_message(id@));
                    }
                    return Err(AppError::InvalidInput(msg));
                },
                Some(b) => b,
            };
            let selection = match behavior.selection {
                SelectionPolicy::Global { .. } => SelectionPolicy::Neighborhood {
                    policy: NeighborhoodPoolPolicy::default_policy(),
                },
                other => other,
            };
            match selection {
                SelectionPolicy::NoPrompt => Ok(RolePlan::NoRole),
                SelectionPolicy::Fixed => Ok(RolePlan::Fixed),
                _ => match scope_for_selection(&selection, id.as_str(), last_selected) {
                    Some(scope) => Ok(RolePlan::Pick { reuse, scope }),
                    None => Ok(RolePlan::NoRole),
                },
            }
        },
    }
}

/// `m` is a text or role-context message whose content contains `contract`.
pub open spec fn mentions(m: Message, contract: Seq<char>) -> bool {
    match m.body {
        MessageBody::Text { content, .. } => seq_contains(content@, contract),
        MessageBody::RoleContext { content } => seq_contains(content@, contract),
        _ => false,
    }
}

/// Some message of `history` already carries `contract`.
pub open spec fn history_mentions(history: Seq<Message>, contract: Seq<char>) -> bool {
    exists|i: int| 0 <= i < history.len() && mentions(#[trigger] history[i], contract)
}

/// Whether some message of `history` already carries `contract`.
pub fn history_has_contract(history: &[Message], contract: &str) -> (r: bool)
    ensures
        r == history_mentions(history@, contract@),
{
    let n = history.len();
    let mut i: usize = 0;
    while i < n
        invariant
            n == history@.len(),
            i <= n,
            forall|j: int| 0 <= j < i ==> !mentions(#[trigger] history@[j], contract@),
        decreases n - i,
    {
        let hit = match &history[i].body {
            MessageBody::Text { content, .. } => str_contains(content.as_str(), contract),
            MessageBody::RoleContext { content } => str_contains(content.as_str(), contract),
            _ => false,
        };
        if hit {
            assert(mentions(history@[i as int], contract@));
            return true;
        }
        i += 1;
    }
    false
}

/// The contract's text occurs in `content` (at some position).
pub open spec fn text_has(content: Seq<char>, contract: Seq<char>) -> bool {
    exists|k: int| 0 <= k && k + contract.len() <= content.len() && #[trigger] content.subrange(k, k + contract.len()) == contract
}

/// A history carries a contract exactly when one of its text or role-context messages has
/// the contract's text somewhere in its content; and then a role joined with that contract
/// is the role alone (the contract is not repeated).
pub proof fn law_contract_carried_by_text_or_role_context(history: Seq<Message>, contract: Seq<char>, role: Seq<char>)
    ensures
        history_mentions(history, contract) <==> exists|i: int| 0 <= i < history.len() && ({
            ||| (#[trigger] history[i]).body matches MessageBody::Text { content, .. } && text_has(content@, contract)
            ||| history[i].body matches MessageBody::RoleContext { content } && text_has(content@, contract)
        }),
        history_mentions(history, contract) ==> join_contract_spec(role, Some(contract), history_mentions(history, contract)) == role,
{
    if history_mentions(history, contract) {
        let i = choose|i: int| 0 <= i < history.len() && mentions(#[trigger] history[i], contract);
        match history[i].body {
            MessageBody::Text { content, .. } => {
                let k = choose|k: int| crate::text::occurs_at(content@, contract, k);
                assert(content@.subrange(k, k + contract.len()) == contract);
                assert(text_has(content@, contract));
            },
            MessageBody::RoleContext { content } => {
                let k = choose|k: int| crate::text::occurs_at(content@, contract, k);
                assert(content@.subrange(k, k + contract.len()) == contract);
                assert(text_has(content@, contract));
            },
            _ => {},
        }
    }
    if exists|i: int| 0 <= i < history.len() && ({
        ||| (#[trigger] history[i]).body matches MessageBody::Text { content, .. } && text_has(content@, contract)
        ||| history[i].body matches MessageBody::RoleContext { content } && text_has(content@, contract)
    }) {
        let i = choose|i: int| 0 <= i < history.len() && ({
            ||| (#[trigger] history[i]).body matches MessageBody::Text { content, .. } && text_has(content@, contract)
            ||| history[i].body matches MessageBody::RoleContext { content } && text_has(content@, contract)
        });
        match history[i].body {
            MessageBody::Text { content, .. } => {
                let k = choose|k: int| 0 <= k && k + contract.len() <= content@.len() && #[trigger] content@.subrange(k, k + contract.len()) == contract;
                assert(crate::text::occurs_at(content@, contract, k));
            },
            MessageBody::RoleContext { content } => {
                let k = choose|k: int| 0 <= k && k + contract.len() <= content@.len() && #[trigger] content@.subrange(k, k + contract.len()) == contract;
                assert(crate::text::occurs_at(content@, contract, k));
            },
            _ => {},
        }
        assert(mentions(history[i], contract));
    }
}

/// `role`, followed by a blank line and `contract` when there is a contract the history
/// does not carry yet.
pub open spec fn join_contract_spec(
    role: Seq<char>,
    contract: Option<Seq<char>>,
    already_has: bool,
) -> Seq<char> {
    match contract {
        Some(c) => if already_has {
            role
        } else {
            role + "\n\n"@ + c
        },
        None => role,
    }
}

/// Joins the contract section into the role text (see [`join_contract_spec`]).
pub fn join_contract(role: &str, contract: Option<&str>, already_has: bool) -> (r: String)
    ensures
        r@ == join_contract_spec(role@, anchor(contract), already_has),
{
    match contract {
        Some(c) => {
            if already_has {
                owned(role)
            } else {
                let mut out = join2(role, "\n\n");
                push_str(&mut out, c);
                out
            }
        },
        None => owned(role),
    }
}

/// Prefix of a later-round role context.
pub open spec fn role_prefix() -> Seq<char> {
    "[当前角色]\n"@
}

/// The contract a neuron carries: `contract` (the catalog text of its `behavior.insert_id`)
/// when it has an insert id.
pub open spec fn contract_of(n: RoleNeuron, contract: Option<Seq<char>>) -> Option<Seq<char>> {
    match n.behavior {
        Some(b) => if b.insert_id is Some {
            contract
        } else {
            None
        },
        None => None,
    }
}

/// The message `attach_role` appends for `n` after `history`.
pub open spec fn role_message(
    history: Seq<Message>,
    n: RoleNeuron,
    contract: Option<Seq<char>>,
    timestamp: u128,
) -> MessageView {
    let c = contract_of(n, contract);
    let already = c matches Some(cc) && history_mentions(history, cc);
    if history.len() == 0 {
        MessageView {
            role: MessageRole::System,
            body: MessageBodyView::Text {
                content: join_contract_spec(n.content@, c, already),
                reasoning: None,
                tool_calls: None,
            },
            timestamp,
            neuron_id: None,
        }
    } else {
        MessageView {
            role: MessageRole::User,
            body: MessageBodyView::RoleContext {
                content: join_contract_spec(role_prefix() + n.content@, c, already),
            },
            timestamp,
            neuron_id: Some(n.id@),
        }
    }
}

fn copy_messages(s: &[Message]) -> (r: Vec<Message>)
    ensures
        sviews(r@) == sviews(s@),
{
    let mut out: Vec<Message> = Vec::new();
    for i in 0..s.len()
        invariant
            out@.len() == i,
            forall|j: int| 0 <= j < i ==> (#[trigger] out@[j])@ == s@[j]@,
    {
        out.push(s[i].copy());
    }
    assert(sviews(out@) =~= sviews(s@));
    out
}

/// Attaches the selected role to the stored history.
///
/// No neuron, or one with a blank role prompt: the history unchanged. Otherwise the history
/// followed by [`role_message`]: on the first round (empty history) a system message with
/// the role prompt; on later rounds a user-side role context `[当前角色]\n` + prompt, stamped
/// with the neuron's id. `contract` is the catalog text of the neuron's `behavior.insert_id`;
/// it is joined into the appended content unless some history message already carries it.
pub fn attach_role(
    old_messages: &[Message],
    neuron: Option<&RoleNeuron>,
    contract: Option<&str>,
    timestamp: u128,
) -> (r: Vec<Message>)
    ensures
        match neuron {
            Some(n) => if is_blank(n.content@) {
                sviews(r@) == sviews(old_messages@)
            } else {
                sviews(r@) == sviews(old_messages@).push(
                    role_message(old_messages@, *n, anchor(contract), timestamp),
                )
            },
            None => sviews(r@) == sviews(old_messages@),
        },
{
    let n = match neuron {
        None => {
            return copy_messages(old_messages);
        },
        Some(n) => n,
    };
    if str_is_blank(n.content.as_str()) {
        return copy_messages(old_messages);
    }
    let has_insert = match &n.behavior {
        Some(b) => b.insert_id.is_some(),
        None => false,
    };
    let c: Option<&str> = if has_insert {
        contract
    } else {
        None
    };
    let already = match c {
        Some(cc) => history_has_contract(old_messages, cc),
        None => false,
    };
    let mut out = copy_messages(old_messages);
    let ghost before = out@;
    if old_messages.len() == 0 {
        let content = join_contract(n.content.as_str(), c, already);
        out.push(
            Message {
                role: MessageRole::System,
                body: MessageBody::Text { content, reasoning: None, tool_calls: None },
                timestamp,
                neuron_id: None,
            },
        );
    } else {
        let role = join2("[当前角色]\n", n.content.as_str());
        let content = join_contract(role.as_str(), c, already);
        out.push(
            Message {
                role: MessageRole::User,
                body: MessageBody::RoleContext { content },
                timestamp,
                neuron_id: Some(n.id.clone()),
            },
        );
    }
    proof {
        let last = out@[before.len() as int];
        assert(out@ =~= before.push(last));
        assert(sviews(out@) =~= sviews(before).push(last@));
    }
    out
}

} // verus!
