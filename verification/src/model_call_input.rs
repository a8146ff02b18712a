//! Model call input: message-list surgery (replace system / append / insert),
//! structured append templates, assembly, tool-pair sanitising and the projection
//! from stored messages to model-side history.

use vstd::prelude::*;

use crate::error::AppError;
use crate::models::{
    copy_opt_string, copy_opt_tool_calls, opt_calls, opt_str, Message, MessageBody,
    MessageBodyView, MessageRole, MessageView, ModelMessage, ModelMessageRole, ModelMessageView,
    ToolCall,
};
use crate::text::{is_blank, join2, owned, push_str, str_is_blank, str_is_empty};

verus! {

/// Built-in append templates.
#[derive(Debug, Clone, Copy, PartialEq, Eq, Structural)]
pub enum ModelAppendTemplate {
    /// Neuron: role / capability carrier; `content` = capability addendum, `user_input` = task.
    Neuron,
    /// Manual: tool manual / output contract; `content` = manual, `user_input` = payload.
    Manual,
}

/// Static helper for preparing model call message lists.
pub struct ModelCallInput;

/// Value views of a message list.
pub open spec fn mviews(s: Seq<ModelMessage>) -> Seq<ModelMessageView> {
    s.map_values(|m: ModelMessage| m@)
}

/// An empty-content system message.
pub open spec fn is_blank_system(m: ModelMessageView) -> bool {
    m.role == ModelMessageRole::System && is_blank(m.content)
}

/// Views of a pushed list.
pub proof fn lemma_mviews_push(s: Seq<ModelMessage>, m: ModelMessage)
    ensures
        mviews(s.push(m)) == mviews(s).push(m@),
{
    assert(mviews(s.push(m)) =~= mviews(s).push(m@));
}

/// `s` without its blank system messages, order kept.
pub open spec fn drop_blank_systems(s: Seq<ModelMessageView>) -> Seq<ModelMessageView>
    decreases s.len(),
{
    if s.len() == 0 {
        s
    } else {
        let rest = drop_blank_systems(s.drop_last());
        if is_blank_system(s.last()) {
            rest
        } else {
            rest.push(s.last())
        }
    }
}

/// Index of the first message with `role` (the length when there is none).
pub open spec fn first_with_role(s: Seq<ModelMessageView>, role: ModelMessageRole) -> int
    decreases s.len(),
{
    if s.len() == 0 {
        0
    } else if s[0].role == role {
        0
    } else {
        1 + first_with_role(s.drop_first(), role)
    }
}

/// `replace_system`: blank prompt → drop blank system messages; otherwise replace the
/// first system message, or prepend one when there is none.
pub open spec fn replace_system_spec(h: Seq<ModelMessageView>, prompt: Seq<char>) -> Seq<
    ModelMessageView,
> {
    if is_blank(prompt) {
        drop_blank_systems(h)
    } else {
        let i = first_with_role(h, ModelMessageRole::System);
        let sys = ModelMessage::spec_plain(ModelMessageRole::System, prompt);
        if i < h.len() {
            h.update(i, sys)
        } else {
            seq![sys] + h
        }
    }
}

/// Header line of the neuron template.
pub open spec fn neuron_header() -> Seq<char> {
    "【神经元】角色与能力载体：按身份边界完成本轮任务；勿编造未提供的工具结果或事实。"@
}

/// Header line of the manual template.
pub open spec fn manual_header() -> Seq<char> {
    "【操作说明书】输出契约优先：严格按说明书规定的结构作答；待处理输入只提供事实与上下文，不得用散文替代规定格式。"@
}

/// Section title of the content part.
pub open spec fn content_title(t: ModelAppendTemplate) -> Seq<char> {
    match t {
        ModelAppendTemplate::Neuron => "## 角色与能力\n\n"@,
        ModelAppendTemplate::Manual => "## 操作说明书（工具与输出契约）\n\n"@,
    }
}

/// Section title of the input part.
pub open spec fn input_title(t: ModelAppendTemplate) -> Seq<char> {
    match t {
        ModelAppendTemplate::Neuron => "## 本轮输入\n\n"@,
        ModelAppendTemplate::Manual => "## 待处理输入\n\n"@,
    }
}

/// Header line of a template.
pub open spec fn header_of(t: ModelAppendTemplate) -> Seq<char> {
    match t {
        ModelAppendTemplate::Neuron => neuron_header(),
        ModelAppendTemplate::Manual => manual_header(),
    }
}

/// The structured text: header, then each non-empty section, joined by blank lines;
/// empty when both sides are empty.
pub open spec fn render_spec(content: Seq<char>, input: Seq<char>, t: ModelAppendTemplate) -> Seq<
    char,
> {
    if content.len() == 0 && input.len() == 0 {
        seq![]
    } else {
        header_of(t) + (if content.len() > 0 {
            "\n\n"@ + content_title(t) + content
        } else {
            seq![]
        }) + (if input.len() > 0 {
            "\n\n"@ + input_title(t) + input
        } else {
            seq![]
        })
    }
}

/// `assemble`: empty history → optional System(role) then optional User(body);
/// otherwise `replace_system` with the role, then optional User(body).
pub open spec fn assemble_spec(
    h: Seq<ModelMessageView>,
    role_system: Seq<char>,
    body: Seq<char>,
) -> Seq<ModelMessageView> {
    let user = if body.len() > 0 {
        seq![ModelMessage::spec_plain(ModelMessageRole::User, body)]
    } else {
        seq![]
    };
    if h.len() == 0 {
        let sys = if !is_blank(role_system) {
            seq![ModelMessage::spec_plain(ModelMessageRole::System, role_system)]
        } else {
            seq![]
        };
        sys + user
    } else {
        replace_system_spec(h, role_system) + user
    }
}

/// Some `role = tool` message of `h` answers `id`.
pub open spec fn answers(h: Seq<ModelMessageView>, id: Seq<char>) -> bool {
    exists|k: int|
        0 <= k < h.len() && (#[trigger] h[k]).role == ModelMessageRole::Tool && h[k].tool_call_id
            == Some(id)
}

/// Every call of `calls` is answered in `h`.
pub open spec fn all_answered(h: Seq<ModelMessageView>, calls: Seq<ToolCall>) -> bool {
    forall|c: int| 0 <= c < calls.len() ==> answers(h, (#[trigger] calls[c]).id@)
}

/// An assistant message declaring tool calls that are not all answered.
pub open spec fn orphan_call(h: Seq<ModelMessageView>, m: ModelMessageView) -> bool {
    &&& m.role == ModelMessageRole::Assistant
    &&& m.tool_calls is Some
    &&& !all_answered(h, m.tool_calls->0)
}

/// An assistant message whose declared tool calls are all answered.
pub open spec fn complete_call(h: Seq<ModelMessageView>, m: ModelMessageView) -> bool {
    &&& m.role == ModelMessageRole::Assistant
    &&& m.tool_calls is Some
    &&& all_answered(h, m.tool_calls->0)
}

/// `calls` declares `id`.
pub open spec fn declares(calls: Seq<ToolCall>, id: Seq<char>) -> bool {
    exists|c: int| 0 <= c < calls.len() && (#[trigger] calls[c]).id@ == id
}

/// `id` is declared by a complete assistant message among the first `n` of `h`.
pub open spec fn live_upto(h: Seq<ModelMessageView>, n: int, id: Seq<char>) -> bool {
    exists|k: int|
        0 <= k < n && complete_call(h, #[trigger] h[k]) && declares(h[k].tool_calls->0, id)
}

/// `id` is declared by a complete assistant message of `h`.
pub open spec fn live(h: Seq<ModelMessageView>, id: Seq<char>) -> bool {
    live_upto(h, h.len() as int, id)
}

/// What sanitising keeps of one message `m` of history `h`.
pub open spec fn sanitize_one(h: Seq<ModelMessageView>, m: ModelMessageView) -> Seq<
    ModelMessageView,
> {
    if orphan_call(h, m) {
        if is_blank(m.content) {
            seq![]
        } else {
            seq![ModelMessageView { tool_calls: None, ..m }]
        }
    } else if m.role == ModelMessageRole::Tool && !(m.tool_call_id is Some && live(
        h,
        m.tool_call_id->0,
    )) {
        seq![]
    } else {
        seq![m]
    }
}

/// Sanitising of the messages `s` (a prefix of `h`), in order.
pub open spec fn sanitize_prefix(h: Seq<ModelMessageView>, s: Seq<ModelMessageView>) -> Seq<
    ModelMessageView,
>
    decreases s.len(),
{
    if s.len() == 0 {
        seq![]
    } else {
        sanitize_prefix(h, s.drop_last()) + sanitize_one(h, s.last())
    }
}

/// `sanitize_tool_pairs` of `h`.
pub open spec fn sanitize_spec(h: Seq<ModelMessageView>) -> Seq<ModelMessageView> {
    sanitize_prefix(h, h)
}

/// Model role a stored text message is sent with (`Compaction` has no text form).
pub open spec fn text_role(r: MessageRole) -> ModelMessageRole {
    match r {
        MessageRole::User => ModelMessageRole::User,
        MessageRole::System => ModelMessageRole::System,
        _ => ModelMessageRole::Assistant,
    }
}

/// Role of a text body on the wire: a body that carries tool calls is the assistant's
/// call message, whoever stored it; other text goes with its author's role.
pub open spec fn text_body_role(r: MessageRole, tool_calls: Option<Seq<ToolCall>>) -> ModelMessageRole {
    if tool_calls is Some && tool_calls->0.len() > 0 {
        ModelMessageRole::Assistant
    } else {
        text_role(r)
    }
}

/// The tool calls a text body carries on the wire: a present but empty list is no list.
pub open spec fn carried_calls(tool_calls: Option<Seq<ToolCall>>) -> Option<Seq<ToolCall>> {
    if tool_calls is Some && tool_calls->0.len() > 0 {
        tool_calls
    } else {
        None
    }
}

/// Prefix of a compaction summary sent to the model.
pub open spec fn summary_prefix() -> Seq<char> {
    "[Previous conversation summary]: "@
}

/// `from_message` on a message view.
pub open spec fn from_message_spec(m: MessageView) -> ModelMessageView {
    match m.body {
        MessageBodyView::Compaction { content, .. } => ModelMessage::spec_plain(
            ModelMessageRole::System,
            summary_prefix() + content,
        ),
        MessageBodyView::ToolResult { tool_call_id, content, .. } => ModelMessageView {
            role: ModelMessageRole::Tool,
            content,
            tool_calls: None,
            tool_call_id: Some(tool_call_id),
            reasoning_content: None,
        },
        MessageBodyView::Nudge { content } => ModelMessage::spec_plain(
            ModelMessageRole::User,
            content,
        ),
        MessageBodyView::RoleContext { content } => ModelMessage::spec_plain(
            ModelMessageRole::User,
            content,
        ),
        MessageBodyView::Text { content, reasoning, tool_calls } => ModelMessageView {
            role: text_body_role(m.role, tool_calls),
            content,
            tool_calls: carried_calls(tool_calls),
            tool_call_id: None,
            reasoning_content: reasoning,
        },
    }
}

/// A stored message that has a model-side form (a text body never has role `Compaction`).
pub open spec fn projectable(m: MessageView) -> bool {
    !(m.role == MessageRole::Compaction && m.body is Text)
}

/// A leftover empty assistant reply: no tool calls and blank text.
pub open spec fn empty_assistant(m: ModelMessageView) -> bool {
    &&& m.role == ModelMessageRole::Assistant
    &&& (m.tool_calls is None || m.tool_calls->0.len() == 0)
    &&& is_blank(m.content)
}

/// Projection of stored messages, dropping empty assistant leftovers.
pub open spec fn project_prefix(s: Seq<MessageView>) -> Seq<ModelMessageView>
    decreases s.len(),
{
    if s.len() == 0 {
        seq![]
    } else {
        let rest = project_prefix(s.drop_last());
        let m = from_message_spec(s.last());
        if empty_assistant(m) {
            rest
        } else {
            rest.push(m)
        }
    }
}

/// Value views of stored messages.
pub open spec fn sviews(s: Seq<Message>) -> Seq<MessageView> {
    s.map_values(|m: Message| m@)
}

/// `project_history`: projection, empty-assistant filter, then tool-pair sanitising.
pub open spec fn project_history_spec(s: Seq<MessageView>) -> Seq<ModelMessageView> {
    sanitize_spec(project_prefix(s))
}

proof fn lemma_first_with_role(s: Seq<ModelMessageView>, role: ModelMessageRole, i: int)
    requires
        0 <= i <= s.len(),
        forall|j: int| 0 <= j < i ==> (#[trigger] s[j]).role != role,
        i < s.len() ==> s[i].role == role,
    ensures
        first_with_role(s, role) == i,
    decreases i,
{
    if i > 0 {
        let t = s.drop_first();
        assert forall|j: int| 0 <= j < i - 1 implies (#[trigger] t[j]).role != role by {
            assert(t[j] == s[j + 1]);
        }
        lemma_first_with_role(t, role, i - 1);
    }
}

/// `v` holds a string whose characters are `x`.
pub open spec fn has_text(v: Seq<String>, x: Seq<char>) -> bool {
    exists|i: int| 0 <= i < v.len() && (#[trigger] v[i])@ == x
}

proof fn lemma_has_text_push(v: Seq<String>, s: String, x: Seq<char>)
    ensures
        has_text(v.push(s), x) <==> (has_text(v, x) || s@ == x),
{
    if has_text(v, x) {
        let i = choose|i: int| 0 <= i < v.len() && (#[trigger] v[i])@ == x;
        assert(v.push(s)[i] == v[i]);
    }
    if s@ == x {
        assert(v.push(s)[v.len() as int] == s);
    }
    if has_text(v.push(s), x) {
        let i = choose|i: int| 0 <= i < v.push(s).len() && (#[trigger] v.push(s)[i])@ == x;
        if i < v.len() {
            assert(v[i] == v.push(s)[i]);
        }
    }
}

proof fn lemma_answers_step(h: Seq<ModelMessageView>, i: int, x: Seq<char>)
    requires
        0 <= i < h.len(),
    ensures
        answers(h.take(i + 1), x) <==> (answers(h.take(i), x) || (h[i].role
            == ModelMessageRole::Tool && h[i].tool_call_id == Some(x))),
{
    if answers(h.take(i), x) {
        let k = choose|k: int|
            0 <= k < h.take(i).len() && (#[trigger] h.take(i)[k]).role == ModelMessageRole::Tool
                && h.take(i)[k].tool_call_id == Some(x);
        assert(h.take(i + 1)[k] == h.take(i)[k]);
    }
    if h[i].role == ModelMessageRole::Tool && h[i].tool_call_id == Some(x) {
        assert(h.take(i + 1)[i] == h[i]);
    }
    if answers(h.take(i + 1), x) {
        let k = choose|k: int|
            0 <= k < h.take(i + 1).len() && (#[trigger] h.take(i + 1)[k]).role
                == ModelMessageRole::Tool && h.take(i + 1)[k].tool_call_id == Some(x);
        if k < i {
            assert(h.take(i)[k] == h.take(i + 1)[k]);
        }
    }
}

proof fn lemma_live_step(h: Seq<ModelMessageView>, i: int, x: Seq<char>)
    requires
        0 <= i < h.len(),
    ensures
        live_upto(h, i + 1, x) <==> (live_upto(h, i, x) || (complete_call(h, h[i]) && declares(
            h[i].tool_calls->0,
            x,
        ))),
{
    if live_upto(h, i + 1, x) {
        let k = choose|k: int|
            0 <= k < i + 1 && complete_call(h, #[trigger] h[k]) && declares(h[k].tool_calls->0, x);
        if k < i {
            assert(live_upto(h, i, x));
        }
    }
}

/// Whether `v` holds a string whose characters are `s`.
pub fn contains_text(v: &Vec<String>, s: &String) -> (r: bool)
    ensures
        r == has_text(v@, s@),
{
    let mut i: usize = 0;
    while i < v.len()
        invariant
            i <= v@.len(),
            forall|j: int| 0 <= j < i ==> (#[trigger] v@[j])@ != s@,
        decreases v@.len() - i,
    {
        if crate::models::same_text(&v[i], s) {
            return true;
        }
        i += 1;
    }
    false
}

impl ModelCallInput {
    /// Replaces the first system prompt, or prepends one if absent; a blank prompt never
    /// inserts a system message and instead drops blank system messages. `history` is
    /// left untouched.
    pub fn replace_system(history: &[ModelMessage], system_prompt: &str) -> (r: Vec<ModelMessage>)
        ensures
            mviews(r@) == replace_system_spec(mviews(history@), system_prompt@),
    {
        let ghost h = mviews(history@);
        if str_is_blank(system_prompt) {
            let mut out: Vec<ModelMessage> = Vec::new();
            for i in 0..history.len()
                invariant
                    h == mviews(history@),
                    mviews(out@) == drop_blank_systems(h.take(i as int)),
            {
                let m = &history[i];
                let keep = !(m.role == ModelMessageRole::System && str_is_blank(m.content.as_str()));
                if keep {
                    out.push(m.copy());
                }
                proof {
                    assert(h.take(i + 1).drop_last() =~= h.take(i as int));
                    assert(mviews(out@) =~= drop_blank_systems(h.take(i + 1)));
                }
            }
            assert(h.take(history@.len() as int) =~= h);
            return out;
        }
        let mut out: Vec<ModelMessage> = Vec::new();
        let mut found: bool = false;
        let mut at: usize = 0;
        for i in 0..history.len()
            invariant
                h == mviews(history@),
                mviews(out@) == h.take(i as int),
                !found ==> forall|j: int| 0 <= j < i ==> (#[trigger] h[j]).role
                    != ModelMessageRole::System,
                found ==> at < history@.len() && h[at as int].role == ModelMessageRole::System
                    && forall|j: int| 0 <= j < at ==> (#[trigger] h[j]).role
                    != ModelMessageRole::System,
        {
            if !found && history[i].role == ModelMessageRole::System {
                found = true;
                at = i;
            }
            let ghost before = out@;
            out.push(history[i].copy());
            proof {
                lemma_mviews_push(before, out@.last());
                assert(h.take(i + 1) =~= h.take(i as int).push(h[i as int]));
            }
        }
        assert(h.take(history@.len() as int) =~= h);
        let system = ModelMessage::plain(ModelMessageRole::System, system_prompt);
        if found {
            proof {
                lemma_first_with_role(h, ModelMessageRole::System, at as int);
            }
            out.set(at, system);
            assert(mviews(out@) =~= replace_system_spec(h, system_prompt@));
        } else {
            proof {
                lemma_first_with_role(h, ModelMessageRole::System, h.len() as int);
            }
            out.insert(0, system);
            assert(mviews(out@) =~= replace_system_spec(h, system_prompt@));
        }
        out
    }

    /// Appends one message at the end; `history` is left untouched.
    pub fn append(history: &[ModelMessage], message: ModelMessage) -> (r: Vec<ModelMessage>)
        ensures
            mviews(r@) == mviews(history@).push(message@),
    {
        let mut out: Vec<ModelMessage> = Vec::new();
        for i in 0..history.len()
            invariant
                mviews(out@) == mviews(history@).take(i as int),
        {
            let ghost before = out@;
            out.push(history[i].copy());
            proof {
                lemma_mviews_push(before, out@.last());
                assert(mviews(history@).take(i + 1) =~= mviews(history@).take(i as int).push(
                    history@[i as int]@,
                ));
            }
        }
        assert(mviews(history@).take(history@.len() as int) =~= mviews(history@));
        out.push(message);
        assert(mviews(out@) =~= mviews(history@).push(message@));
        out
    }

    /// Inserts `message` at `index`, discarding the message there and everything after;
    /// `index == len` appends; `index > len` is an `InvalidInput` error.
    pub fn insert_at(history: &[ModelMessage], index: usize, message: ModelMessage) -> (r: Result<
        Vec<ModelMessage>,
        AppError,
    >)
        ensures
            index <= history@.len() ==> (r matches Ok(v) && mviews(v@) == mviews(history@).take(
                index as int,
            ).push(message@)),
            index > history@.len() ==> (r matches Err(AppError::InvalidInput(m))
                && m@ == insert_at_error_spec(index as nat, history@.len())),
    {
        if index > history.len() {
            return Err(AppError::InvalidInput(insert_at_error(index, history.len())));
        }
        let mut out: Vec<ModelMessage> = Vec::new();
        for i in 0..index
            invariant
                index <= history@.len(),
                mviews(out@) == mviews(history@).take(i as int),
        {
            let ghost before = out@;
            out.push(history[i].copy());
            proof {
                lemma_mviews_push(before, out@.last());
                assert(mviews(history@).take(i + 1) =~= mviews(history@).take(i as int).push(
                    history@[i as int]@,
                ));
            }
        }
        out.push(message);
        assert(mviews(out@) =~= mviews(history@).take(index as int).push(message@));
        Ok(out)
    }

    /// Joins `content` and `user_input` with the built-in structured template; empty sides
    /// omit their sections and two empty sides give the empty string.
    pub fn with_user_input_for_append(
        content: &str,
        user_input: &str,
        template: ModelAppendTemplate,
    ) -> (r: String)
        ensures
            r@ == render_spec(content@, user_input@, template),
    {
        match template {
            ModelAppendTemplate::Neuron => render_neuron_template(content, user_input),
            ModelAppendTemplate::Manual => render_manual_template(content, user_input),
        }
    }

    /// Assembles a full message list: empty history → System(role) + User(body), each
    /// only when non-empty; otherwise `replace_system` then User(body) when non-empty.
    pub fn assemble(
        history: &[ModelMessage],
        role_system: &str,
        content: &str,
        user_input: &str,
        template: ModelAppendTemplate,
    ) -> (r: Vec<ModelMessage>)
        ensures
            mviews(r@) == assemble_spec(
                mviews(history@),
                role_system@,
                render_spec(content@, user_input@, template),
            ),
    {
        let body = Self::with_user_input_for_append(content, user_input, template);
        if history.len() == 0 {
            let mut single: Vec<ModelMessage> = Vec::new();
            if !str_is_blank(role_system) {
                single.push(ModelMessage::plain(ModelMessageRole::System, role_system));
            }
            if !str_is_empty(body.as_str()) {
                single.push(ModelMessage::plain(ModelMessageRole::User, body.as_str()));
            }
            assert(mviews(single@) =~= assemble_spec(
                mviews(history@),
                role_system@,
                body@,
            ));
            single
        } else {
            let mut messages = Self::replace_system(history, role_system);
            let ghost before = mviews(messages@);
            if !str_is_empty(body.as_str()) {
                messages.push(ModelMessage::plain(ModelMessageRole::User, body.as_str()));
            }
            assert(mviews(messages@) =~= assemble_spec(mviews(history@), role_system@, body@));
            messages
        }
    }

    /// Normalises tool-call / tool-result pairing: fully answered assistant calls are kept;
    /// an unanswered call message loses its `tool_calls` (or is dropped when it has no
    /// text); a tool message is dropped unless a kept complete assistant declares its id.
    pub fn sanitize_tool_pairs(history: &[ModelMessage]) -> (r: Vec<ModelMessage>)
        ensures
            mviews(r@) == sanitize_spec(mviews(history@)),
    {
        let ghost h = mviews(history@);
        let n = history.len();
        // ids answered by tool messages
        let mut answered: Vec<String> = Vec::new();
        for i in 0..n
            invariant
                n == history@.len(),
                h == mviews(history@),
                forall|x: Seq<char>|
                    #![trigger has_text(answered@, x)]
                    has_text(answered@, x) <==> answers(h.take(i as int), x),
        {
            let m = &history[i];
            let ghost before = answered@;
            if m.role == ModelMessageRole::Tool {
                match &m.tool_call_id {
                    Some(id) => {
                        answered.push(id.clone());
                    },
                    None => {},
                }
            }
            proof {
                assert forall|x: Seq<char>|
                    #![trigger has_text(answered@, x)]
                    has_text(answered@, x) <==> answers(h.take(i + 1), x) by {
                    lemma_answers_step(h, i as int, x);
                    if answered@.len() > before.len() {
                        lemma_has_text_push(before, m.tool_call_id->0, x);
                    }
                }
            }
        }
        assert(h.take(n as int) =~= h);
        // ids declared by complete assistant messages
        let mut live_ids: Vec<String> = Vec::new();
        for i in 0..n
            invariant
                n == history@.len(),
                h == mviews(history@),
                forall|x: Seq<char>|
                    #![trigger has_text(answered@, x)]
                    has_text(answered@, x) <==> answers(h, x),
                forall|x: Seq<char>|
                    #![trigger has_text(live_ids@, x)]
                    has_text(live_ids@, x) <==> live_upto(h, i as int, x),
        {
            let m = &history[i];
            let ghost before = live_ids@;
            let mut complete = false;
            if m.role == ModelMessageRole::Assistant {
                match &m.tool_calls {
                    Some(calls) => {
                        complete = calls_all_answered(calls, &answered, Ghost(h));
                        if complete {
                            push_call_ids(&mut live_ids, calls);
                        }
                    },
                    None => {},
                }
            }
            proof {
                assert(h[i as int] == m@);
                assert(complete == complete_call(h, h[i as int]));
                assert forall|x: Seq<char>|
                    #![trigger has_text(live_ids@, x)]
                    has_text(live_ids@, x) <==> live_upto(h, i + 1, x) by {
                    lemma_live_step(h, i as int, x);
                }
            }
        }
        // keep / degrade / drop, in order
        let mut out: Vec<ModelMessage> = Vec::new();
        for i in 0..n
            invariant
                n == history@.len(),
                h == mviews(history@),
                forall|x: Seq<char>|
                    #![trigger has_text(answered@, x)]
                    has_text(answered@, x) <==> answers(h, x),
                forall|x: Seq<char>|
                    #![trigger has_text(live_ids@, x)]
                    has_text(live_ids@, x) <==> live(h, x),
                mviews(out@) == sanitize_prefix(h, h.take(i as int)),
        {
            let m = &history[i];
            let ghost mv = h[i as int];
            assert(mv == m@);
            let orphan = match &m.tool_calls {
                Some(calls) => m.role == ModelMessageRole::Assistant && !calls_all_answered(
                    calls,
                    &answered,
                    Ghost(h),
                ),
                None => false,
            };
            assert(orphan == orphan_call(h, mv));
            if orphan {
                if !str_is_blank(m.content.as_str()) {
                    out.push(
                        ModelMessage {
                            role: m.role,
                            content: m.content.clone(),
                            tool_calls: None,
                            tool_call_id: copy_opt_string(&m.tool_call_id),
                            reasoning_content: copy_opt_string(&m.reasoning_content),
                        },
                    );
                }
            } else {
                let drop_tool = if m.role == ModelMessageRole::Tool {
                    match &m.tool_call_id {
                        Some(id) => !contains_text(&live_ids, id),
                        None => true,
                    }
                } else {
                    false
                };
                if !drop_tool {
                    out.push(m.copy());
                }
            }
            proof {
                assert(h.take(i + 1).drop_last() =~= h.take(i as int));
                assert(h.take(i + 1).last() == mv);
                assert(mviews(out@) =~= sanitize_prefix(h, h.take(i + 1)));
            }
        }
        assert(h.take(n as int) =~= h);
        out
    }

    /// Stored messages → model-side history: per-message projection, removal of empty
    /// assistant leftovers, then `sanitize_tool_pairs`.
    pub fn project_history(messages: &[Message]) -> (r: Vec<ModelMessage>)
        requires
            forall|i: int| 0 <= i < messages@.len() ==> projectable((#[trigger] messages@[i])@),
        ensures
            mviews(r@) == project_history_spec(sviews(messages@)),
    {
        let ghost s = sviews(messages@);
        let mut projected: Vec<ModelMessage> = Vec::new();
        for i in 0..messages.len()
            invariant
                s == sviews(messages@),
                forall|j: int| 0 <= j < messages@.len() ==> projectable((#[trigger] messages@[j])@),
                mviews(projected@) == project_prefix(s.take(i as int)),
        {
            let m = Self::from_message(&messages[i]).unwrap();
            let empty = m.role == ModelMessageRole::Assistant && match &m.tool_calls {
                None => true,
                Some(c) => c.len() == 0,
            } && str_is_blank(m.content.as_str());
            if !empty {
                projected.push(m);
            }
            proof {
                assert(s.take(i + 1).drop_last() =~= s.take(i as int));
                assert(s.take(i + 1).last() == messages@[i as int]@);
                assert(mviews(projected@) =~= project_prefix(s.take(i + 1)));
            }
        }
        assert(s.take(messages@.len() as int) =~= s);
        Self::sanitize_tool_pairs(projected.as_slice())
    }

    /// `Message` → `ModelMessage`: compaction summaries go as System with a prefix, tool
    /// results as Tool with their call id, nudges and role contexts as User text; a text body
    /// that carries tool calls goes as Assistant with its calls, other text bodies (an empty
    /// call list counts as none) with their author's role (Tool → Assistant) and no calls;
    /// reasoning is carried along.
    pub fn from_message(message: &Message) -> (r: Option<ModelMessage>)
        requires
            projectable(message@),
        ensures
            r matches Some(m) && m@ == from_message_spec(message@),
    {
        match &message.body {
            MessageBody::Compaction { content, .. } => {
                let text = join2("[Previous conversation summary]: ", content.as_str());
                proof {
                    reveal_strlit("[Previous conversation summary]: ");
                }
                Some(ModelMessage::plain(ModelMessageRole::System, text.as_str()))
            },
            MessageBody::ToolResult { tool_call_id, content, .. } => Some(
                ModelMessage {
                    role: ModelMessageRole::Tool,
                    content: content.clone(),
                    tool_calls: None,
                    tool_call_id: Some(tool_call_id.clone()),
                    reasoning_content: None,
                },
            ),
            MessageBody::Nudge { content } => Some(
                ModelMessage::plain(ModelMessageRole::User, content.as_str()),
            ),
            MessageBody::RoleContext { content } => Some(
                ModelMessage::plain(ModelMessageRole::User, content.as_str()),
            ),
            MessageBody::Text { content, reasoning, tool_calls } => {
                let carries_calls = match tool_calls {
                    Some(calls) => calls.len() > 0,
                    None => false,
                };
                let calls = if carries_calls {
                    copy_opt_tool_calls(tool_calls)
                } else {
                    None
                };
                let role = if carries_calls {
                    ModelMessageRole::Assistant
                } else {
                    match message.role {
                        MessageRole::User => ModelMessageRole::User,
                        MessageRole::System => ModelMessageRole::System,
                        _ => ModelMessageRole::Assistant,
                    }
                };
                Some(
                    ModelMessage {
                        role,
                        content: content.clone(),
                        tool_calls: calls,
                        tool_call_id: None,
                        reasoning_content: copy_opt_string(reasoning),
                    },
                )
            },
        }
    }
}

/// Whether every call of `calls` is answered, given the answered-id list of `h`.
fn calls_all_answered(calls: &Vec<ToolCall>, answered: &Vec<String>, Ghost(h): Ghost<
    Seq<ModelMessageView>,
>) -> (r: bool)
    requires
        forall|x: Seq<char>|
            #![trigger has_text(answered@, x)]
            has_text(answered@, x) <==> answers(h, x),
    ensures
        r == all_answered(h, calls@),
{
    let mut i: usize = 0;
    while i < calls.len()
        invariant
            i <= calls@.len(),
            forall|x: Seq<char>|
                #![trigger has_text(answered@, x)]
                has_text(answered@, x) <==> answers(h, x),
            forall|c: int| 0 <= c < i ==> answers(h, (#[trigger] calls@[c]).id@),
        decreases calls@.len() - i,
    {
        if !contains_text(answered, &calls[i].id) {
            assert(!answers(h, calls@[i as int].id@));
            return false;
        }
        i += 1;
    }
    true
}

/// Appends the ids of `calls` to `ids`.
fn push_call_ids(ids: &mut Vec<String>, calls: &Vec<ToolCall>)
    ensures
        forall|x: Seq<char>|
            #![trigger has_text(final(ids)@, x)]
            has_text(final(ids)@, x) <==> (has_text(old(ids)@, x) || declares(calls@, x)),
{
    let ghost start = ids@;
    for i in 0..calls.len()
        invariant
            forall|x: Seq<char>|
                #![trigger has_text(ids@, x)]
                has_text(ids@, x) <==> (has_text(start, x) || declares(calls@.take(i as int), x)),
    {
        let ghost before = ids@;
        ids.push(calls[i].id.clone());
        proof {
            assert forall|x: Seq<char>|
                #![trigger has_text(ids@, x)]
                has_text(ids@, x) <==> (has_text(start, x) || declares(calls@.take(i + 1), x)) by {
                lemma_has_text_push(before, calls@[i as int].id, x);
                if declares(calls@.take(i + 1), x) {
                    let c = choose|c: int|
                        0 <= c < calls@.take(i + 1).len() && (#[trigger] calls@.take(i + 1)[c]).id@
                            == x;
                    if c < i {
                        assert(calls@.take(i as int)[c] == calls@.take(i + 1)[c]);
                    }
                }
                if declares(calls@.take(i as int), x) {
                    let c = choose|c: int|
                        0 <= c < calls@.take(i as int).len() && (#[trigger] calls@.take(
                            i as int,
                        )[c]).id@ == x;
                    assert(calls@.take(i as int)[c] == calls@.take(i + 1)[c]);
                }
                if calls@[i as int].id@ == x {
                    assert(calls@.take(i + 1)[i as int] == calls@[i as int]);
                }
            }
        }
    }
    assert(calls@.take(calls@.len() as int) =~= calls@);
}

/// Text of the error for an insertion index beyond the history.
pub open spec fn insert_at_error_spec(index: nat, len: nat) -> Seq<char> {
    "insert_at index "@ + crate::text::decimal(index) + " exceeds history length "@ + crate::text::decimal(len)
}

fn insert_at_error(index: usize, len: usize) -> (r: String)
    ensures
        r@ == insert_at_error_spec(index as nat, len as nat),
{
    let mut s = owned("insert_at index ");
    push_str(&mut s, crate::text::u64_to_decimal(index as u64).as_str());
    push_str(&mut s, " exceeds history length ");
    push_str(&mut s, crate::text::u64_to_decimal(len as u64).as_str());
    s
}

/// Neuron template: role / capability carrier; the input is the task to answer.
pub fn render_neuron_template(content: &str, user_input: &str) -> (r: String)
    ensures
        r@ == render_spec(content@, user_input@, ModelAppendTemplate::Neuron),
{
    render_template(
        content,
        user_input,
        "【神经元】角色与能力载体：按身份边界完成本轮任务；勿编造未提供的工具结果或事实。",
        "## 角色与能力\n\n",
        "## 本轮输入\n\n",
        Ghost(ModelAppendTemplate::Neuron),
    )
}

/// Manual template: tool duties and output contract; the input only provides facts.
pub fn render_manual_template(content: &str, user_input: &str) -> (r: String)
    ensures
        r@ == render_spec(content@, user_input@, ModelAppendTemplate::Manual),
{
    render_template(
        content,
        user_input,
        "【操作说明书】输出契约优先：严格按说明书规定的结构作答；待处理输入只提供事实与上下文，不得用散文替代规定格式。",
        "## 操作说明书（工具与输出契约）\n\n",
        "## 待处理输入\n\n",
        Ghost(ModelAppendTemplate::Manual),
    )
}

fn render_template(
    content: &str,
    user_input: &str,
    header: &str,
    content_heading: &str,
    input_heading: &str,
    Ghost(t): Ghost<ModelAppendTemplate>,
) -> (r: String)
    requires
        header@ == header_of(t),
        content_heading@ == content_title(t),
        input_heading@ == input_title(t),
    ensures
        r@ == render_spec(content@, user_input@, t),
{
    if str_is_empty(content) && str_is_empty(user_input) {
        return String::new();
    }
    let mut out = owned(header);
    let ghost first = out@;
    if !str_is_empty(content) {
        push_str(&mut out, "\n\n");
        push_str(&mut out, content_heading);
        push_str(&mut out, content);
    }
    let ghost second = out@;
    if !str_is_empty(user_input) {
        push_str(&mut out, "\n\n");
        push_str(&mut out, input_heading);
        push_str(&mut out, user_input);
    }
    proof {
        reveal_strlit("\n\n");
        assert(out@ =~= render_spec(content@, user_input@, t));
    }
    out
}

} // verus!

verus! {

/// Every message of the sanitised prefix comes from one message of the prefix, and every
/// message the prefix keeps is in the result.
proof fn lemma_sanitize_members(h: Seq<ModelMessageView>, s: Seq<ModelMessageView>)
    ensures
        forall|i: int| 0 <= i < sanitize_prefix(h, s).len() ==> exists|k: int|
            0 <= k < s.len() && sanitize_one(h, s[k]).len() == 1 && #[trigger] sanitize_prefix(h, s)[i]
                == sanitize_one(h, s[k])[0],
        forall|k: int| 0 <= k < s.len() && #[trigger] sanitize_one(h, s[k]).len() == 1 ==> sanitize_prefix(
            h,
            s,
        ).contains(sanitize_one(h, s[k])[0]),
    decreases s.len(),
{
    if s.len() > 0 {
        let t = s.drop_last();
        lemma_sanitize_members(h, t);
        let r = sanitize_prefix(h, s);
        let p = sanitize_prefix(h, t);
        let o = sanitize_one(h, s.last());
        assert(r == p + o);
        assert(o.len() <= 1);
        assert forall|i: int| 0 <= i < r.len() implies exists|k: int|
            0 <= k < s.len() && sanitize_one(h, s[k]).len() == 1 && #[trigger] r[i] == sanitize_one(h, s[k])[0] by {
            if i < p.len() {
                let k = choose|k: int| 0 <= k < t.len() && sanitize_one(h, t[k]).len() == 1 && #[trigger] p[i] == sanitize_one(h, t[k])[0];
                assert(t[k] == s[k]);
                assert(r[i] == p[i]);
            } else {
                assert(r[i] == o[0]);
                assert(s[s.len() - 1] == s.last());
            }
        }
        assert forall|k: int| 0 <= k < s.len() && #[trigger] sanitize_one(h, s[k]).len() == 1 implies r.contains(
            sanitize_one(h, s[k])[0],
        ) by {
            if k < t.len() {
                assert(t[k] == s[k]);
                assert(p.contains(sanitize_one(h, t[k])[0]));
                let j = choose|j: int| 0 <= j < p.len() && p[j] == sanitize_one(h, t[k])[0];
                assert(r[j] == p[j]);
            } else {
                assert(s[k] == s.last());
                assert(r[p.len() as int] == o[0]);
            }
        }
    }
}

/// After sanitising, tool calls and tool results pair up: every tool result answers a call
/// that a kept assistant message declares, and every assistant message that still declares
/// tool calls has all of them answered by kept tool results.
pub proof fn law_sanitized_pairs_match(h: Seq<ModelMessageView>)
    ensures
        forall|i: int| 0 <= i < sanitize_spec(h).len() && (#[trigger] sanitize_spec(h)[i]).role == ModelMessageRole::Tool
            ==> {
            let id = sanitize_spec(h)[i].tool_call_id;
            &&& id is Some
            &&& exists|j: int| 0 <= j < sanitize_spec(h).len() && (#[trigger] sanitize_spec(h)[j]).role
                == ModelMessageRole::Assistant && sanitize_spec(h)[j].tool_calls is Some && declares(
                sanitize_spec(h)[j].tool_calls->0,
                id->0,
            )
        },
        forall|i: int| 0 <= i < sanitize_spec(h).len() && (#[trigger] sanitize_spec(h)[i]).role == ModelMessageRole::Assistant
            && sanitize_spec(h)[i].tool_calls is Some ==> all_answered(sanitize_spec(h), sanitize_spec(h)[i].tool_calls->0),
{
    let r = sanitize_spec(h);
    lemma_sanitize_members(h, h);
    assert forall|i: int| 0 <= i < r.len() && (#[trigger] r[i]).role == ModelMessageRole::Tool implies {
        let id = r[i].tool_call_id;
        &&& id is Some
        &&& exists|j: int| 0 <= j < r.len() && (#[trigger] r[j]).role == ModelMessageRole::Assistant
            && r[j].tool_calls is Some && declares(r[j].tool_calls->0, id->0)
    } by {
        let k = choose|k: int| 0 <= k < h.len() && sanitize_one(h, h[k]).len() == 1 && #[trigger] r[i] == sanitize_one(h, h[k])[0];
        let m = h[k];
        // A tool result is kept as it is, and only when a complete call declares its id.
        assert(!orphan_call(h, m));
        assert(r[i] == m);
        let x = m.tool_call_id->0;
        assert(live(h, x));
        let a = choose|a: int| 0 <= a < h.len() && complete_call(h, #[trigger] h[a]) && declares(h[a].tool_calls->0, x);
        assert(sanitize_one(h, h[a]) == seq![h[a]]);
        assert(sanitize_one(h, h[a]).len() == 1);
        assert(r.contains(h[a]));
        let j = choose|j: int| 0 <= j < r.len() && r[j] == h[a];
        assert(r[j].role == ModelMessageRole::Assistant && r[j].tool_calls is Some && declares(r[j].tool_calls->0, x));
    }
    assert forall|i: int| 0 <= i < r.len() && (#[trigger] r[i]).role == ModelMessageRole::Assistant
        && r[i].tool_calls is Some implies all_answered(r, r[i].tool_calls->0) by {
        let k = choose|k: int| 0 <= k < h.len() && sanitize_one(h, h[k]).len() == 1 && #[trigger] r[i] == sanitize_one(h, h[k])[0];
        let m = h[k];
        assert(!orphan_call(h, m));
        assert(r[i] == m);
        assert(complete_call(h, m));
        let calls = m.tool_calls->0;
        assert forall|c: int| 0 <= c < calls.len() implies answers(r, (#[trigger] calls[c]).id@) by {
            let x = calls[c].id@;
            assert(answers(h, x));
            let t = choose|t: int| 0 <= t < h.len() && (#[trigger] h[t]).role == ModelMessageRole::Tool && h[t].tool_call_id == Some(x);
            assert(declares(calls, x));
            assert(live_upto(h, h.len() as int, x)) by {
                assert(complete_call(h, h[k]) && declares(h[k].tool_calls->0, x));
            }
            assert(sanitize_one(h, h[t]) == seq![h[t]]);
            assert(sanitize_one(h, h[t]).len() == 1);
            assert(r.contains(h[t]));
            let q = choose|q: int| 0 <= q < r.len() && r[q] == h[t];
            assert(r[q].role == ModelMessageRole::Tool && r[q].tool_call_id == Some(x));
        }
    }
}

/// Sanitising keeps every message of `s` when each one is kept on its own.
proof fn lemma_prefix_keeps_all(h: Seq<ModelMessageView>, s: Seq<ModelMessageView>)
    requires
        forall|i: int| 0 <= i < s.len() ==> sanitize_one(h, #[trigger] s[i]) == seq![s[i]],
    ensures
        sanitize_prefix(h, s) == s,
    decreases s.len(),
{
    if s.len() > 0 {
        let d = s.drop_last();
        assert forall|i: int| 0 <= i < d.len() implies sanitize_one(h, #[trigger] d[i]) == seq![d[i]] by {
            assert(d[i] == s[i]);
        }
        lemma_prefix_keeps_all(h, d);
        assert(sanitize_one(h, s[s.len() - 1]) == seq![s[s.len() - 1]]);
        assert(d + seq![s.last()] =~= s);
    }
}

/// Sanitising is idempotent: a sanitised history is left as it is by a second pass.
pub proof fn law_sanitize_idempotent(h: Seq<ModelMessageView>)
    ensures
        sanitize_spec(sanitize_spec(h)) == sanitize_spec(h),
{
    let r = sanitize_spec(h);
    law_sanitized_pairs_match(h);
    assert forall|i: int| 0 <= i < r.len() implies sanitize_one(r, #[trigger] r[i]) == seq![r[i]] by {
        let m = r[i];
        if m.role == ModelMessageRole::Assistant && m.tool_calls is Some {
            assert(all_answered(r, m.tool_calls->0));
            assert(!orphan_call(r, m));
        } else if m.role == ModelMessageRole::Tool {
            assert(!orphan_call(r, m));
            let x = m.tool_call_id->0;
            let j = choose|j: int| 0 <= j < r.len() && (#[trigger] r[j]).role == ModelMessageRole::Assistant
                && r[j].tool_calls is Some && declares(r[j].tool_calls->0, x);
            assert(all_answered(r, r[j].tool_calls->0));
            assert(complete_call(r, r[j]));
            assert(live_upto(r, r.len() as int, x));
        } else {
            assert(!orphan_call(r, m));
        }
    }
    lemma_prefix_keeps_all(r, r);
}

} // verus!

verus! {

proof fn lemma_no_blank_system(s: Seq<ModelMessageView>)
    ensures
        forall|i: int| 0 <= i < drop_blank_systems(s).len() ==> !is_blank_system(#[trigger] drop_blank_systems(s)[i]),
        drop_blank_systems(s).len() <= s.len(),
    decreases s.len(),
{
    if s.len() > 0 {
        lemma_no_blank_system(s.drop_last());
        let rest = drop_blank_systems(s.drop_last());
        assert forall|i: int| 0 <= i < drop_blank_systems(s).len() implies !is_blank_system(#[trigger] drop_blank_systems(s)[i]) by {
            if i < rest.len() {
                assert(drop_blank_systems(s)[i] == rest[i]);
            }
        }
    }
}

/// Replacing the system prompt never sends an empty system message: with a blank prompt
/// the blank system messages are dropped and nothing is inserted; with a non-blank prompt
/// the first system message (prepended when there is none) carries the prompt.
pub proof fn law_no_blank_system_prompt(h: Seq<ModelMessageView>, prompt: Seq<char>)
    ensures
        is_blank(prompt) ==> forall|i: int| 0 <= i < replace_system_spec(h, prompt).len()
            ==> !is_blank_system(#[trigger] replace_system_spec(h, prompt)[i]),
        !is_blank(prompt) ==> {
            let r = replace_system_spec(h, prompt);
            let i = first_with_role(r, ModelMessageRole::System);
            &&& i < r.len()
            &&& r[i].content == prompt
        },
{
    if is_blank(prompt) {
        lemma_no_blank_system(h);
    } else {
        let i = first_with_role(h, ModelMessageRole::System);
        lemma_first_role_bound(h, ModelMessageRole::System);
        let r = replace_system_spec(h, prompt);
        if i < h.len() {
            lemma_first_role_update(h, ModelMessageRole::System, i, r[i]);
        } else {
            assert(r[0].role == ModelMessageRole::System);
            assert(first_with_role(r, ModelMessageRole::System) == 0);
        }
    }
}

/// The first position with `role` is within bounds, and earlier messages have other roles.
proof fn lemma_first_role_bound(s: Seq<ModelMessageView>, role: ModelMessageRole)
    ensures
        0 <= first_with_role(s, role) <= s.len(),
        first_with_role(s, role) < s.len() ==> s[first_with_role(s, role)].role == role,
        forall|j: int| 0 <= j < first_with_role(s, role) ==> (#[trigger] s[j]).role != role,
    decreases s.len(),
{
    if s.len() > 0 && s[0].role != role {
        let t = s.drop_first();
        lemma_first_role_bound(t, role);
        assert forall|j: int| 0 <= j < first_with_role(s, role) implies (#[trigger] s[j]).role != role by {
            if j > 0 {
                assert(s[j] == t[j - 1]);
            }
        }
    }
}

/// Updating the first message with `role` by another message with that role keeps it first.
proof fn lemma_first_role_update(s: Seq<ModelMessageView>, role: ModelMessageRole, i: int, m: ModelMessageView)
    requires
        0 <= i < s.len(),
        i == first_with_role(s, role),
        m.role == role,
    ensures
        first_with_role(s.update(i, m), role) == i,
{
    lemma_first_role_bound(s, role);
    let u = s.update(i, m);
    assert forall|j: int| 0 <= j < i implies (#[trigger] u[j]).role != role by {
        assert(u[j] == s[j]);
    }
    lemma_first_with_role(u, role, i);
}

} // verus!
