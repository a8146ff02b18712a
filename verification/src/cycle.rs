//! Cycle contract: cycle facts derived from the round context, tunable parameter
//! declarations, value validation and the pre-call gate.
//!
//! A cycle is scheduling (when an action is called); its inputs are derived only from the
//! round context. Every tunable is a cycle parameter whose usage says whether gating
//! evaluates it before the call or the action reads it itself.

use vstd::prelude::*;

use crate::models::{strs_view, ConversationMode, Message, MessageRole};
use crate::round_types::{RoundOutcome, RoundTriggerKind};
use crate::text::{i64_to_decimal, join2, owned, push_str, signed_decimal};

verus! {

/// Cycle field: the only source of gate inputs.
#[derive(Debug, Clone, Copy, PartialEq, Eq, Structural)]
pub enum CycleField {
    /// The conversation mode.
    Mode,
    /// The round trigger.
    Trigger,
    /// Number of assistant messages.
    RoundIndex,
    /// Number of user messages.
    UserRounds,
    /// Assistant messages after the last user message.
    RoundsSinceUser,
    /// User round or scheduled round.
    RoundOrigin,
    /// Tool round or settling round.
    RoundShape,
}

/// Which round's shape a parameter reads.
#[derive(Debug, Clone, Copy, PartialEq, Eq, Structural)]
pub enum RoundRef {
    /// This round (known from IP-3 on).
    Current,
    /// The previous round (last message is a tool message).
    Previous,
}

impl Default for RoundRef {
    fn default() -> (r: RoundRef)
        ensures
            r == RoundRef::Current,
    {
        RoundRef::Current
    }
}

/// Round origin.
#[derive(Debug, Clone, Copy, PartialEq, Eq, Structural)]
pub enum RoundOrigin {
    UserRound,
    ScheduledRound,
}

/// Round shape.
#[derive(Debug, Clone, Copy, PartialEq, Eq, Structural)]
pub enum RoundShape {
    ToolRound,
    SettlingRound,
}

impl RoundOrigin {
    /// Wire name.
    pub open spec fn spec_name(self) -> Seq<char> {
        match self {
            RoundOrigin::UserRound => "user_round"@,
            RoundOrigin::ScheduledRound => "scheduled_round"@,
        }
    }

    /// "user_round" / "scheduled_round".
    pub fn as_str(&self) -> (r: &'static str)
        ensures
            r@ == self.spec_name(),
    {
        proof {
            reveal_strlit("user_round");
            reveal_strlit("scheduled_round");
        }
        match self {
            RoundOrigin::UserRound => "user_round",
            RoundOrigin::ScheduledRound => "scheduled_round",
        }
    }
}

impl RoundShape {
    /// Wire name.
    pub open spec fn spec_name(self) -> Seq<char> {
        match self {
            RoundShape::ToolRound => "tool_round"@,
            RoundShape::SettlingRound => "settling_round"@,
        }
    }

    /// "tool_round" / "settling_round".
    pub fn as_str(&self) -> (r: &'static str)
        ensures
            r@ == self.spec_name(),
    {
        proof {
            reveal_strlit("tool_round");
            reveal_strlit("settling_round");
        }
        match self {
            RoundShape::ToolRound => "tool_round",
            RoundShape::SettlingRound => "settling_round",
        }
    }
}

/// Cycle facts snapshot, derived before each inject point dispatch.
///
/// Counts exclude the current round; `round_shape_previous` is whether the last message is
/// a tool message.
#[derive(Debug, Clone, PartialEq, Eq)]
pub struct CycleFacts {
    pub mode: String,
    pub trigger: String,
    pub round_index: u64,
    pub user_rounds: u64,
    pub rounds_since_user: u64,
    pub round_origin: RoundOrigin,
    pub round_shape_current: Option<RoundShape>,
    pub round_shape_previous: RoundShape,
}

/// Roles of a message list.
pub open spec fn roles_of(s: Seq<Message>) -> Seq<MessageRole> {
    s.map_values(|m: Message| m.role)
}

/// Number of messages with role `r`.
pub open spec fn count_role(s: Seq<MessageRole>, r: MessageRole) -> nat
    decreases s.len(),
{
    if s.len() == 0 {
        0
    } else {
        count_role(s.drop_last(), r) + if s.last() == r {
            1nat
        } else {
            0nat
        }
    }
}

/// Assistant messages after the last user message (all of them when there is none).
pub open spec fn since_user(s: Seq<MessageRole>) -> nat
    decreases s.len(),
{
    if s.len() == 0 {
        0
    } else if s.last() == MessageRole::User {
        0
    } else if s.last() == MessageRole::Assistant {
        since_user(s.drop_last()) + 1
    } else {
        since_user(s.drop_last())
    }
}

/// Shape of the previous round: a trailing tool message means a tool round.
pub open spec fn shape_previous(s: Seq<MessageRole>) -> RoundShape {
    if s.len() > 0 && s.last() == MessageRole::Tool {
        RoundShape::ToolRound
    } else {
        RoundShape::SettlingRound
    }
}

/// Shape of a produced round: declared calls or executed tools make it a tool round.
pub open spec fn shape_of_outcome(o: RoundOutcome) -> RoundShape {
    if o.tool_calls is Some || o.tool_results@.len() > 0 {
        RoundShape::ToolRound
    } else {
        RoundShape::SettlingRound
    }
}

/// Wire name of a trigger.
pub open spec fn trigger_name(t: RoundTriggerKind) -> Seq<char> {
    match t {
        RoundTriggerKind::User => "user"@,
        RoundTriggerKind::ManualStep => "manual_step"@,
        RoundTriggerKind::Poller => "poller"@,
        RoundTriggerKind::AgentLoop => "agent_loop"@,
    }
}

/// Origin of a round started by `t`.
pub open spec fn origin_of(t: RoundTriggerKind) -> RoundOrigin {
    if t == RoundTriggerKind::User {
        RoundOrigin::UserRound
    } else {
        RoundOrigin::ScheduledRound
    }
}

/// Whether `f` are the facts of `messages`, `mode`, `trigger` and `outcome`.
pub open spec fn derived(
    f: CycleFacts,
    messages: Seq<Message>,
    mode: ConversationMode,
    trigger: RoundTriggerKind,
    outcome: Option<RoundOutcome>,
) -> bool {
    let roles = roles_of(messages);
    &&& f.mode@ == mode.spec_name()
    &&& f.trigger@ == trigger_name(trigger)
    &&& f.round_index == count_role(roles, MessageRole::Assistant)
    &&& f.user_rounds == count_role(roles, MessageRole::User)
    &&& f.rounds_since_user == since_user(roles)
    &&& f.round_origin == origin_of(trigger)
    &&& f.round_shape_current == match outcome {
        Some(o) => Some(shape_of_outcome(o)),
        None => None,
    }
    &&& f.round_shape_previous == shape_previous(roles)
}

proof fn lemma_counts_bounded(s: Seq<MessageRole>)
    ensures
        count_role(s, MessageRole::Assistant) + count_role(s, MessageRole::User) <= s.len(),
        since_user(s) <= count_role(s, MessageRole::Assistant),
    decreases s.len(),
{
    if s.len() > 0 {
        lemma_counts_bounded(s.drop_last());
    }
}

/// Wire name of a conversation mode (`"chat"` / `"agent"` / `"assistant"` / `"system"`).
pub fn mode_str(mode: &ConversationMode) -> (r: String)
    ensures
        r@ == mode.spec_name(),
{
    proof {
        reveal_strlit("chat");
        reveal_strlit("agent");
        reveal_strlit("assistant");
        reveal_strlit("system");
    }
    match mode {
        ConversationMode::Chat => owned("chat"),
        ConversationMode::Agent => owned("agent"),
        ConversationMode::Assistant => owned("assistant"),
        ConversationMode::System => owned("system"),
    }
}

/// Wire name of a trigger (`"user"` / `"manual_step"` / `"poller"` / `"agent_loop"`).
pub fn trigger_str(trigger: RoundTriggerKind) -> (r: String)
    ensures
        r@ == trigger_name(trigger),
{
    proof {
        reveal_strlit("user");
        reveal_strlit("manual_step");
        reveal_strlit("poller");
        reveal_strlit("agent_loop");
    }
    match trigger {
        RoundTriggerKind::User => owned("user"),
        RoundTriggerKind::ManualStep => owned("manual_step"),
        RoundTriggerKind::Poller => owned("poller"),
        RoundTriggerKind::AgentLoop => owned("agent_loop"),
    }
}

impl CycleFacts {
    /// Derives the facts from the round context by a pure scan of its messages.
    pub fn derive(
        messages: &[Message],
        mode: &ConversationMode,
        trigger: RoundTriggerKind,
        outcome: Option<&RoundOutcome>,
    ) -> (r: CycleFacts)
        ensures
            derived(
                r,
                messages@,
                *mode,
                trigger,
                match outcome {
                    Some(o) => Some(*o),
                    None => None,
                },
            ),
            r.round_index + r.user_rounds <= messages@.len(),
            r.rounds_since_user <= r.round_index,
    {
        let ghost roles = roles_of(messages@);
        let mut round_index: u64 = 0;
        let mut user_rounds: u64 = 0;
        let mut since: u64 = 0;
        let n = messages.len();
        for i in 0..n
            invariant
                n == messages@.len(),
                roles == roles_of(messages@),
                round_index == count_role(roles.take(i as int), MessageRole::Assistant),
                user_rounds == count_role(roles.take(i as int), MessageRole::User),
                since == since_user(roles.take(i as int)),
                round_index + user_rounds <= i,
        {
            proof {
                assert(roles.take(i + 1).drop_last() =~= roles.take(i as int));
                assert(roles.take(i + 1).last() == messages@[i as int].role);
                lemma_counts_bounded(roles.take(i as int));
            }
            match messages[i].role {
                MessageRole::User => {
                    user_rounds += 1;
                    since = 0;
                },
                MessageRole::Assistant => {
                    round_index += 1;
                    since += 1;
                },
                _ => {},
            }
        }
        proof {
            assert(roles.take(n as int) =~= roles);
            lemma_counts_bounded(roles);
        }
        let previous = if n > 0 && matches!(messages[n - 1].role, MessageRole::Tool) {
            RoundShape::ToolRound
        } else {
            RoundShape::SettlingRound
        };
        let current = match outcome {
            Some(p) => {
                if p.tool_calls.is_some() || p.tool_results.len() > 0 {
                    Some(RoundShape::ToolRound)
                } else {
                    Some(RoundShape::SettlingRound)
                }
            },
            None => None,
        };
        CycleFacts {
            mode: mode_str(mode),
            trigger: trigger_str(trigger),
            round_index,
            user_rounds,
            rounds_since_user: since,
            round_origin: match trigger {
                RoundTriggerKind::User => RoundOrigin::UserRound,
                _ => RoundOrigin::ScheduledRound,
            },
            round_shape_current: current,
            round_shape_previous: previous,
        }
    }

    /// Shape of the referenced round (`Current` may be unknown).
    pub open spec fn spec_shape(self, round_ref: RoundRef) -> Option<RoundShape> {
        match round_ref {
            RoundRef::Current => self.round_shape_current,
            RoundRef::Previous => Some(self.round_shape_previous),
        }
    }

    /// String value of an enumerated field.
    pub open spec fn spec_field_str(self, field: CycleField, round_ref: RoundRef) -> Option<
        Seq<char>,
    > {
        match field {
            CycleField::Mode => Some(self.mode@),
            CycleField::Trigger => Some(self.trigger@),
            CycleField::RoundOrigin => Some(self.round_origin.spec_name()),
            CycleField::RoundShape => match self.spec_shape(round_ref) {
                Some(s) => Some(s.spec_name()),
                None => None,
            },
            _ => None,
        }
    }

    /// Numeric value of a counting field.
    pub open spec fn spec_field_num(self, field: CycleField) -> Option<i64> {
        match field {
            CycleField::RoundIndex => Some(self.round_index as i64),
            CycleField::UserRounds => Some(self.user_rounds as i64),
            CycleField::RoundsSinceUser => Some(self.rounds_since_user as i64),
            _ => None,
        }
    }

    /// Boolean value of a boolean field: the shape is a settling round.
    pub open spec fn spec_field_bool(self, field: CycleField, round_ref: RoundRef) -> Option<bool> {
        match field {
            CycleField::RoundShape => match self.spec_shape(round_ref) {
                Some(s) => Some(s == RoundShape::SettlingRound),
                None => None,
            },
            _ => None,
        }
    }

    /// String value of an enumerated field (mode / trigger / origin / shape).
    pub fn field_str(&self, field: CycleField, round_ref: RoundRef) -> (r: Option<String>)
        ensures
            match r {
                Some(s) => self.spec_field_str(field, round_ref) == Some(s@),
                None => self.spec_field_str(field, round_ref) is None,
            },
    {
        match field {
            CycleField::Mode => Some(self.mode.clone()),
            CycleField::Trigger => Some(self.trigger.clone()),
            CycleField::RoundOrigin => Some(owned(self.round_origin.as_str())),
            CycleField::RoundShape => match self.shape(round_ref) {
                Some(s) => Some(owned(s.as_str())),
                None => None,
            },
            _ => None,
        }
    }

    /// Numeric value of a counting field (round index / user rounds / rounds since user).
    pub fn field_num(&self, field: CycleField) -> (r: Option<i64>)
        ensures
            r == self.spec_field_num(field),
    {
        match field {
            CycleField::RoundIndex => Some(self.round_index as i64),
            CycleField::UserRounds => Some(self.user_rounds as i64),
            CycleField::RoundsSinceUser => Some(self.rounds_since_user as i64),
            _ => None,
        }
    }

    /// Boolean value of the shape field: whether the referenced round is a settling round.
    pub fn field_bool(&self, field: CycleField, round_ref: RoundRef) -> (r: Option<bool>)
        ensures
            r == self.spec_field_bool(field, round_ref),
    {
        match field {
            CycleField::RoundShape => match self.shape(round_ref) {
                Some(s) => Some(matches!(s, RoundShape::SettlingRound)),
                None => None,
            },
            _ => None,
        }
    }

    /// Shape of the referenced round.
    pub fn shape(&self, round_ref: RoundRef) -> (r: Option<RoundShape>)
        ensures
            r == self.spec_shape(round_ref),
    {
        match round_ref {
            RoundRef::Current => self.round_shape_current,
            RoundRef::Previous => Some(self.round_shape_previous),
        }
    }
}

/// A tunable's value.
#[derive(Debug, Clone, PartialEq, Eq)]
pub enum CycleValue {
    Bool(bool),
    Int(i64),
    Str(String),
    Strs(Vec<String>),
}

/// Value view of a tunable's value.
pub enum CycleValueView {
    Bool(bool),
    Int(i64),
    Str(Seq<char>),
    Strs(Seq<Seq<char>>),
}

impl View for CycleValue {
    type V = CycleValueView;

    open spec fn view(&self) -> CycleValueView {
        match *self {
            CycleValue::Bool(b) => CycleValueView::Bool(b),
            CycleValue::Int(i) => CycleValueView::Int(i),
            CycleValue::Str(s) => CycleValueView::Str(s@),
            CycleValue::Strs(v) => CycleValueView::Strs(strs_view(v@)),
        }
    }
}

impl CycleValue {
    /// An identical copy.
    pub fn copy(&self) -> (r: CycleValue)
        ensures
            r@ == self@,
    {
        match self {
            CycleValue::Bool(b) => CycleValue::Bool(*b),
            CycleValue::Int(i) => CycleValue::Int(*i),
            CycleValue::Str(s) => CycleValue::Str(s.clone()),
            CycleValue::Strs(v) => {
                let c = crate::models::copy_strings(v);
                proof {
                    assert(strs_view(c@) =~= strs_view(v@));
                }
                CycleValue::Strs(c)
            },
        }
    }
}

/// Shape of a tunable: decides the panel control and the validation.
#[derive(Debug, Clone, PartialEq, Eq)]
pub enum CycleParamKind {
    /// Enumeration; `multi` → multi-select (an empty selection means "any").
    Enum { values: Vec<String>, multi: bool },
    Bool,
    /// Integer within `min..=max` (intervals and the like).
    Number { min: i64, max: i64 },
}

/// Use of a tunable: evaluated by gating before the call, or read by the action.
#[derive(Debug, Clone, Copy, PartialEq, Eq, Structural)]
pub enum CycleParamUsage {
    /// Evaluated before the call; the action is not called when it does not match.
    CallGate,
    /// Read by the action through `param_of`.
    Internal,
}

/// Tunable declaration (declared by the action provider).
#[derive(Debug, Clone, PartialEq, Eq)]
pub struct CycleParamSpec {
    pub key: String,
    pub label: String,
    /// Bound cycle field; only gate parameters need one.
    pub field: Option<CycleField>,
    /// Used when `field == Some(RoundShape)`.
    pub round_ref: RoundRef,
    pub kind: CycleParamKind,
    pub default: CycleValue,
    pub usage: CycleParamUsage,
}

/// `v` is one of `values`.
pub open spec fn listed(values: Seq<String>, v: Seq<char>) -> bool {
    exists|i: int| 0 <= i < values.len() && (#[trigger] values[i])@ == v
}

/// Index of the first selected value that is not listed (the length when all are).
pub open spec fn first_unlisted(values: Seq<String>, sel: Seq<Seq<char>>) -> int
    decreases sel.len(),
{
    if sel.len() == 0 {
        0
    } else if !listed(values, sel[0]) {
        0
    } else {
        1 + first_unlisted(values, sel.drop_first())
    }
}

/// Whether `value` fits the declaration (shape, candidates, range).
pub open spec fn value_valid(kind: CycleParamKind, value: CycleValueView) -> bool {
    match (kind, value) {
        (CycleParamKind::Bool, CycleValueView::Bool(_)) => true,
        (CycleParamKind::Number { min, max }, CycleValueView::Int(v)) => min <= v <= max,
        (CycleParamKind::Enum { values, multi }, CycleValueView::Strs(sel)) => multi
            && first_unlisted(values@, sel) == sel.len(),
        (CycleParamKind::Enum { values, multi }, CycleValueView::Str(v)) => !multi && listed(
            values@,
            v,
        ),
        _ => false,
    }
}

/// The detail of a validation error.
pub open spec fn invalid_detail(kind: CycleParamKind, value: CycleValueView) -> Seq<char> {
    match (kind, value) {
        (CycleParamKind::Bool, _) => "expect bool"@,
        (CycleParamKind::Number { min, max }, CycleValueView::Int(_)) => "out of range "@
            + signed_decimal(min as int) + "..="@ + signed_decimal(max as int),
        (CycleParamKind::Number { .. }, _) => "expect int"@,
        (CycleParamKind::Enum { values, multi }, CycleValueView::Strs(sel)) => if multi {
            "unknown value `"@ + sel[first_unlisted(values@, sel)] + "`"@
        } else {
            "expect string"@
        },
        (CycleParamKind::Enum { multi, .. }, CycleValueView::Str(v)) => if multi {
            "expect string list"@
        } else {
            "unknown value `"@ + v + "`"@
        },
        (CycleParamKind::Enum { multi, .. }, _) => if multi {
            "expect string list"@
        } else {
            "expect string"@
        },
    }
}

/// Full validation error message: "param `<key>`: <detail>".
pub open spec fn invalid_message(key: Seq<char>, kind: CycleParamKind, value: CycleValueView) -> Seq<
    char,
> {
    "param `"@ + key + "`: "@ + invalid_detail(kind, value)
}

/// Whether `v` is one of `values` (by characters).
pub fn is_listed(values: &Vec<String>, v: &String) -> (r: bool)
    ensures
        r == listed(values@, v@),
{
    let mut i: usize = 0;
    while i < values.len()
        invariant
            i <= values@.len(),
            forall|j: int| 0 <= j < i ==> (#[trigger] values@[j])@ != v@,
        decreases values@.len() - i,
    {
        if crate::models::same_text(&values[i], v) {
            return true;
        }
        i += 1;
    }
    false
}

proof fn lemma_first_unlisted(values: Seq<String>, sel: Seq<Seq<char>>, i: int)
    requires
        0 <= i <= sel.len(),
        forall|j: int| 0 <= j < i ==> listed(values, #[trigger] sel[j]),
        i < sel.len() ==> !listed(values, sel[i]),
    ensures
        first_unlisted(values, sel) == i,
    decreases i,
{
    if i > 0 {
        let t = sel.drop_first();
        assert forall|j: int| 0 <= j < i - 1 implies listed(values, #[trigger] t[j]) by {
            assert(t[j] == sel[j + 1]);
        }
        lemma_first_unlisted(values, t, i - 1);
    }
}

fn param_error(key: &String, detail: String) -> (r: String)
    ensures
        r@ == "param `"@ + key@ + "`: "@ + detail@,
{
    let mut s = owned("param `");
    push_str(&mut s, key.as_str());
    push_str(&mut s, "`: ");
    push_str(&mut s, detail.as_str());
    proof {
        reveal_strlit("param `");
        reveal_strlit("`: ");
        assert(s@ =~= "param `"@ + key@ + "`: "@ + detail@);
    }
    s
}

fn quoted_unknown(v: &String) -> (r: String)
    ensures
        r@ == "unknown value `"@ + v@ + "`"@,
{
    let mut s = owned("unknown value `");
    push_str(&mut s, v.as_str());
    push_str(&mut s, "`");
    proof {
        reveal_strlit("unknown value `");
        reveal_strlit("`");
    }
    s
}

/// Checks a value against its declaration (shape / candidates / range); the error names the
/// parameter and what was wrong.
pub fn validate_value(spec: &CycleParamSpec, value: &CycleValue) -> (r: Result<(), String>)
    ensures
        r is Ok <==> value_valid(spec.kind, value@),
        r matches Err(msg) ==> msg@ == invalid_message(spec.key@, spec.kind, value@),
{
    proof {
        reveal_strlit("expect bool");
        reveal_strlit("expect int");
        reveal_strlit("expect string list");
        reveal_strlit("expect string");
        reveal_strlit("out of range ");
        reveal_strlit("..=");
    }
    match (&spec.kind, value) {
        (CycleParamKind::Bool, CycleValue::Bool(_)) => Ok(()),
        (CycleParamKind::Bool, _) => Err(param_error(&spec.key, owned("expect bool"))),
        (CycleParamKind::Number { min, max }, CycleValue::Int(v)) => {
            if *v < *min || *v > *max {
                let mut d = owned("out of range ");
                push_str(&mut d, i64_to_decimal(*min).as_str());
                push_str(&mut d, "..=");
                push_str(&mut d, i64_to_decimal(*max).as_str());
                Err(param_error(&spec.key, d))
            } else {
                Ok(())
            }
        },
        (CycleParamKind::Number { .. }, _) => Err(param_error(&spec.key, owned("expect int"))),
        (CycleParamKind::Enum { values, multi }, CycleValue::Strs(selected)) => {
            if !*multi {
                return Err(param_error(&spec.key, owned("expect string")));
            }
            let ghost sel = strs_view(selected@);
            let mut i: usize = 0;
            while i < selected.len()
                invariant
                    sel == strs_view(selected@),
                    spec.kind == (CycleParamKind::Enum { values: *values, multi: *multi }),
                    *multi,
                    value@ == CycleValueView::Strs(sel),
                    i <= selected@.len(),
                    forall|j: int| 0 <= j < i ==> listed(values@, #[trigger] sel[j]),
                decreases selected@.len() - i,
            {
                if !is_listed(values, &selected[i]) {
                    proof {
                        assert(sel[i as int] == selected@[i as int]@);
                        lemma_first_unlisted(values@, sel, i as int);
                    }
                    return Err(param_error(&spec.key, quoted_unknown(&selected[i])));
                }
                i += 1;
            }
            proof {
                lemma_first_unlisted(values@, sel, sel.len() as int);
            }
            Ok(())
        },
        (CycleParamKind::Enum { values, multi }, CycleValue::Str(v)) => {
            if *multi {
                return Err(param_error(&spec.key, owned("expect string list")));
            }
            if is_listed(values, v) {
                Ok(())
            } else {
                Err(param_error(&spec.key, quoted_unknown(v)))
            }
        },
        (CycleParamKind::Enum { multi, .. }, _) => {
            if *multi {
                Err(param_error(&spec.key, owned("expect string list")))
            } else {
                Err(param_error(&spec.key, owned("expect string")))
            }
        },
    }
}

/// Effective values of an action's tunables, keyed by parameter key.
#[derive(Debug, Clone, PartialEq, Eq)]
pub struct CycleValues {
    pub entries: Vec<(String, CycleValue)>,
}

/// First value stored under `key` in `e`.
pub open spec fn lookup_in(e: Seq<(String, CycleValue)>, key: Seq<char>) -> Option<CycleValueView>
    decreases e.len(),
{
    if e.len() == 0 {
        None
    } else if e[0].0@ == key {
        Some(e[0].1@)
    } else {
        lookup_in(e.drop_first(), key)
    }
}

proof fn lemma_lookup_prefix(e: Seq<(String, CycleValue)>, key: Seq<char>, i: int)
    requires
        0 <= i <= e.len(),
        forall|j: int| 0 <= j < i ==> (#[trigger] e[j]).0@ != key,
    ensures
        lookup_in(e, key) == lookup_in(e.subrange(i, e.len() as int), key),
    decreases i,
{
    if i > 0 {
        let t = e.drop_first();
        assert forall|j: int| 0 <= j < i - 1 implies (#[trigger] t[j]).0@ != key by {
            assert(t[j] == e[j + 1]);
        }
        lemma_lookup_prefix(t, key, i - 1);
        assert(t.subrange(i - 1, t.len() as int) =~= e.subrange(i, e.len() as int));
    } else {
        assert(e.subrange(0, e.len() as int) =~= e);
    }
}

proof fn lemma_lookup_update(e: Seq<(String, CycleValue)>, i: int, k: String, v: CycleValue, key: Seq<char>)
    requires
        0 <= i < e.len(),
        e[i].0@ == k@,
        forall|j: int| 0 <= j < i ==> (#[trigger] e[j]).0@ != k@,
    ensures
        lookup_in(e.update(i, (k, v)), key) == if key == k@ {
            Some(v@)
        } else {
            lookup_in(e, key)
        },
    decreases i,
{
    if i == 0 {
        assert(e.update(0, (k, v)).drop_first() =~= e.drop_first());
    } else {
        let t = e.drop_first();
        assert forall|j: int| 0 <= j < i - 1 implies (#[trigger] t[j]).0@ != k@ by {
            assert(t[j] == e[j + 1]);
        }
        lemma_lookup_update(t, i - 1, k, v, key);
        assert(e.update(i, (k, v)).drop_first() =~= t.update(i - 1, (k, v)));
    }
}

proof fn lemma_lookup_push(e: Seq<(String, CycleValue)>, k: String, v: CycleValue, key: Seq<char>)
    requires
        forall|j: int| 0 <= j < e.len() ==> (#[trigger] e[j]).0@ != k@,
    ensures
        lookup_in(e.push((k, v)), key) == if key == k@ {
            Some(v@)
        } else {
            lookup_in(e, key)
        },
    decreases e.len(),
{
    if e.len() == 0 {
        assert(e.push((k, v)).drop_first() =~= e);
    } else {
        let t = e.drop_first();
        assert forall|j: int| 0 <= j < t.len() implies (#[trigger] t[j]).0@ != k@ by {
            assert(t[j] == e[j + 1]);
        }
        lemma_lookup_push(t, k, v, key);
        assert(e.push((k, v)).drop_first() =~= t.push((k, v)));
    }
}

impl CycleValues {
    /// The value stored under `key`.
    pub open spec fn lookup(self, key: Seq<char>) -> Option<CycleValueView> {
        lookup_in(self.entries@, key)
    }

    /// No values.
    pub fn new() -> (r: CycleValues)
        ensures
            forall|k: Seq<char>| r.lookup(k) is None,
    {
        CycleValues { entries: Vec::new() }
    }

    /// The value stored under `key`, if any.
    pub fn get(&self, key: &String) -> (r: Option<&CycleValue>)
        ensures
            match r {
                Some(v) => self.lookup(key@) == Some(v@),
                None => self.lookup(key@) is None,
            },
    {
        let mut i: usize = 0;
        while i < self.entries.len()
            invariant
                i <= self.entries@.len(),
                forall|j: int| 0 <= j < i ==> (#[trigger] self.entries@[j]).0@ != key@,
            decreases self.entries@.len() - i,
        {
            if crate::models::same_text(&self.entries[i].0, key) {
                proof {
                    lemma_lookup_prefix(self.entries@, key@, i as int);
                }
                return Some(&self.entries[i].1);
            }
            i += 1;
        }
        proof {
            lemma_lookup_prefix(self.entries@, key@, i as int);
        }
        None
    }

    /// Position of the first entry stored under `key`.
    fn position(&self, key: &String) -> (r: Option<usize>)
        ensures
            match r {
                Some(i) => i < self.entries@.len() && self.entries@[i as int].0@ == key@
                    && forall|j: int| 0 <= j < i ==> (#[trigger] self.entries@[j]).0@ != key@,
                None => forall|j: int|
                    0 <= j < self.entries@.len() ==> (#[trigger] self.entries@[j]).0@ != key@,
            },
    {
        let mut i: usize = 0;
        while i < self.entries.len()
            invariant
                i <= self.entries@.len(),
                forall|j: int| 0 <= j < i ==> (#[trigger] self.entries@[j]).0@ != key@,
            decreases self.entries@.len() - i,
        {
            if crate::models::same_text(&self.entries[i].0, key) {
                return Some(i);
            }
            i += 1;
        }
        None
    }

    /// Stores `value` under `key`, replacing any previous value.
    pub fn insert(&mut self, key: String, value: CycleValue)
        ensures
            forall|k: Seq<char>|
                #![trigger final(self).lookup(k)]
                final(self).lookup(k) == if k == key@ {
                    Some(value@)
                } else {
                    old(self).lookup(k)
                },
    {
        let ghost before = *self;
        let ghost k = key;
        let ghost v = value;
        match self.position(&key) {
            Some(i) => {
                self.entries.set(i, (key, value));
                proof {
                    assert forall|q: Seq<char>|
                        #![trigger self.lookup(q)]
                        self.lookup(q) == if q == k@ {
                            Some(v@)
                        } else {
                            before.lookup(q)
                        } by {
                        lemma_lookup_update(before.entries@, i as int, k, v, q);
                    }
                }
            },
            None => {
                self.entries.push((key, value));
                proof {
                    assert forall|q: Seq<char>|
                        #![trigger self.lookup(q)]
                        self.lookup(q) == if q == k@ {
                            Some(v@)
                        } else {
                            before.lookup(q)
                        } by {
                        lemma_lookup_push(before.entries@, k, v, q);
                    }
                }
            },
        }
    }
}

/// Magnitude of an `i64` as an integer.
pub open spec fn abs_int(a: i64) -> int {
    if a < 0 {
        -(a as int)
    } else {
        a as int
    }
}

/// Whether a gate value matches the facts.
pub open spec fn value_matches(
    kind: CycleParamKind,
    value: CycleValueView,
    field: CycleField,
    round_ref: RoundRef,
    facts: CycleFacts,
) -> bool {
    match (kind, value) {
        (CycleParamKind::Bool, CycleValueView::Bool(expected)) => facts.spec_field_bool(
            field,
            round_ref,
        ) == Some(expected),
        (CycleParamKind::Number { .. }, CycleValueView::Int(step)) => step <= 0 || (
        facts.spec_field_num(field) matches Some(actual) && abs_int(actual) % (step as int) == 0),
        (CycleParamKind::Enum { multi, .. }, CycleValueView::Strs(selected)) => multi && (
        selected.len() == 0 || (facts.spec_field_str(field, round_ref) matches Some(actual) && exists|
            i: int,
        | 0 <= i < selected.len() && selected[i] == actual)),
        (CycleParamKind::Enum { multi, .. }, CycleValueView::Str(expected)) => !multi && (
        facts.spec_field_str(field, round_ref) matches Some(actual) && actual == expected),
        _ => false,
    }
}

/// Whether one parameter lets the call through: only gate parameters bound to a field are
/// evaluated, against the configured value or else the declared default.
pub open spec fn param_passes(p: CycleParamSpec, values: CycleValues, facts: CycleFacts) -> bool {
    if p.usage != CycleParamUsage::CallGate || p.field is None {
        true
    } else {
        let v = match values.lookup(p.key@) {
            Some(v) => v,
            None => p.default@,
        };
        value_matches(p.kind, v, p.field->0, p.round_ref, facts)
    }
}

/// Index of the first parameter that blocks the call (the length when none does).
pub open spec fn first_blocking(params: Seq<CycleParamSpec>, values: CycleValues, facts: CycleFacts) -> int
    decreases params.len(),
{
    if params.len() == 0 {
        0
    } else if !param_passes(params[0], values, facts) {
        0
    } else {
        1 + first_blocking(params.drop_first(), values, facts)
    }
}

proof fn lemma_first_blocking(params: Seq<CycleParamSpec>, values: CycleValues, facts: CycleFacts, i: int)
    requires
        0 <= i <= params.len(),
        forall|j: int| 0 <= j < i ==> param_passes(#[trigger] params[j], values, facts),
        i < params.len() ==> !param_passes(params[i], values, facts),
    ensures
        first_blocking(params, values, facts) == i,
    decreases i,
{
    if i > 0 {
        let t = params.drop_first();
        assert forall|j: int| 0 <= j < i - 1 implies param_passes(#[trigger] t[j], values, facts) by {
            assert(t[j] == params[j + 1]);
        }
        lemma_first_blocking(t, values, facts, i - 1);
    }
}

fn abs_u64(a: i64) -> (r: u64)
    ensures
        r as int == abs_int(a),
{
    if a < 0 {
        if a == i64::MIN {
            9223372036854775808u64
        } else {
            (-a) as u64
        }
    } else {
        a as u64
    }
}

fn selected_contains(selected: &Vec<String>, actual: &String) -> (r: bool)
    ensures
        r == exists|i: int| 0 <= i < selected@.len() && strs_view(selected@)[i] == actual@,
{
    let r = is_listed(selected, actual);
    proof {
        if r {
            let i = choose|i: int| 0 <= i < selected@.len() && (#[trigger] selected@[i])@ == actual@;
            assert(strs_view(selected@)[i] == actual@);
        }
        if exists|i: int| 0 <= i < selected@.len() && strs_view(selected@)[i] == actual@ {
            let i = choose|i: int| 0 <= i < selected@.len() && strs_view(selected@)[i] == actual@;
            assert(selected@[i]@ == actual@);
        }
    }
    r
}

fn passes(p: &CycleParamSpec, values: &CycleValues, facts: &CycleFacts) -> (r: bool)
    ensures
        r == param_passes(*p, *values, *facts),
{
    if !matches!(p.usage, CycleParamUsage::CallGate) {
        return true;
    }
    let field = match p.field {
        Some(f) => f,
        None => {
            return true;
        },
    };
    let value = match values.get(&p.key) {
        Some(v) => v,
        None => &p.default,
    };
    match (&p.kind, value) {
        (CycleParamKind::Bool, CycleValue::Bool(expected)) => {
            match facts.field_bool(field, p.round_ref) {
                Some(b) => b == *expected,
                None => false,
            }
        },
        (CycleParamKind::Number { .. }, CycleValue::Int(step)) => {
            if *step <= 0 {
                true
            } else {
                match facts.field_num(field) {
                    Some(actual) => abs_u64(actual) % (*step as u64) == 0,
                    None => false,
                }
            }
        },
        (CycleParamKind::Enum { multi, .. }, CycleValue::Strs(selected)) => {
            if !*multi {
                false
            } else if selected.len() == 0 {
                true
            } else {
                match facts.field_str(field, p.round_ref) {
                    Some(actual) => selected_contains(selected, &actual),
                    None => false,
                }
            }
        },
        (CycleParamKind::Enum { multi, .. }, CycleValue::Str(expected)) => {
            if *multi {
                false
            } else {
                match facts.field_str(field, p.round_ref) {
                    Some(actual) => crate::models::same_text(&actual, expected),
                    None => false,
                }
            }
        },
        _ => false,
    }
}

/// Pre-call gate: whether every gate parameter matches (`None`), or else the key of the
/// first one that does not. Missing fields, missing values and shape mismatches never match.
pub fn gate_check(params: &[CycleParamSpec], values: &CycleValues, facts: &CycleFacts) -> (r:
    Option<String>)
    ensures
        ({
            let i = first_blocking(params@, *values, *facts);
            match r {
                None => i == params@.len(),
                Some(k) => i < params@.len() && k@ == params@[i].key@,
            }
        }),
{
    let mut i: usize = 0;
    while i < params.len()
        invariant
            i <= params@.len(),
            forall|j: int| 0 <= j < i ==> param_passes(#[trigger] params@[j], *values, *facts),
        decreases params@.len() - i,
    {
        if !passes(&params[i], values, facts) {
            proof {
                lemma_first_blocking(params@, *values, *facts, i as int);
            }
            return Some(params[i].key.clone());
        }
        i += 1;
    }
    proof {
        lemma_first_blocking(params@, *values, *facts, i as int);
    }
    None
}

/// Whether every gate parameter matches the facts.
pub fn gate_match(params: &[CycleParamSpec], values: &CycleValues, facts: &CycleFacts) -> (r: bool)
    ensures
        r == (first_blocking(params@, *values, *facts) == params@.len()),
{
    gate_check(params, values, facts).is_none()
}

/// Law: an empty multi-select means "any" — such a parameter never blocks.
pub proof fn law_empty_selection_is_unlimited(
    p: CycleParamSpec,
    values: CycleValues,
    facts: CycleFacts,
)
    requires
        p.kind matches CycleParamKind::Enum { multi, .. } && multi,
        values.lookup(p.key@) == Some(CycleValueView::Strs(seq![])),
    ensures
        param_passes(p, values, facts),
{
}

/// Law: a step of zero or below means "every round" — such a parameter never blocks.
pub proof fn law_nonpositive_step_is_every_round(
    p: CycleParamSpec,
    values: CycleValues,
    facts: CycleFacts,
    step: i64,
)
    requires
        p.kind is Number,
        values.lookup(p.key@) == Some(CycleValueView::Int(step)),
        step <= 0,
    ensures
        param_passes(p, values, facts),
{
}

/// Law (fail-safe): a gate parameter on the current round's shape never passes while the
/// current round has no product yet, unless it is an empty multi-select or a step of zero
/// or below (both mean "any round").
pub proof fn law_unknown_current_shape_blocks(
    p: CycleParamSpec,
    values: CycleValues,
    facts: CycleFacts,
)
    requires
        p.usage == CycleParamUsage::CallGate,
        p.field == Some(CycleField::RoundShape),
        p.round_ref == RoundRef::Current,
        facts.round_shape_current is None,
        !(match values.lookup(p.key@) {
            Some(v) => v,
            None => p.default@,
        } matches CycleValueView::Strs(s) && s.len() == 0),
        !(match values.lookup(p.key@) {
            Some(v) => v,
            None => p.default@,
        } matches CycleValueView::Int(step) && step <= 0),
    ensures
        !param_passes(p, values, facts),
{
}

/// Law: internal parameters never affect gating.
pub proof fn law_internal_params_ignored(p: CycleParamSpec, values: CycleValues, facts: CycleFacts)
    requires
        p.usage == CycleParamUsage::Internal,
    ensures
        param_passes(p, values, facts),
{
}

/// Law: a valid multi-select value lists only declared candidates.
pub proof fn law_valid_selection_is_declared(kind: CycleParamKind, sel: Seq<Seq<char>>, i: int)
    requires
        value_valid(kind, CycleValueView::Strs(sel)),
        0 <= i < sel.len(),
    ensures
        kind matches CycleParamKind::Enum { values, .. } && listed(values@, sel[i]),
    decreases i,
{
    if let CycleParamKind::Enum { values, multi } = kind {
        if i > 0 {
            assert(listed(values@, sel[0]));
            law_valid_selection_is_declared(kind, sel.drop_first(), i - 1);
        }
    }
}

} // verus!
