//! Domain data shared by the round pipeline: messages (storage and model side),
//! tool calls, conversation modes, selection/tool policies and candidate scopes.

use vstd::prelude::*;

use crate::text::{is_ws, owned, str_eq};

verus! {

/// `serde_json::Value`, carried opaquely as tool-call arguments.
#[verifier::external_type_specification]
#[verifier::external_body]
pub struct ExJsonValue(serde_json::Value);

/// serde_json's `Value::clone` (derived): the copy is the same JSON value.
pub assume_specification[ <serde_json::Value as Clone>::clone ](v: &serde_json::Value) -> (r:
    serde_json::Value)
    ensures
        r == *v,
;

/// Author of a stored message.
#[derive(Debug, Clone, Copy, PartialEq, Eq, Structural)]
pub enum MessageRole {
    User,
    Assistant,
    System,
    Tool,
    Compaction,
}

/// A tool invocation declared by the model.
#[derive(Debug, Clone, PartialEq)]
pub struct ToolCall {
    pub id: String,
    pub name: String,
    pub arguments: serde_json::Value,
}

impl ToolCall {
    /// An identical copy.
    pub fn copy(&self) -> (r: ToolCall)
        ensures
            r == *self,
    {
        ToolCall { id: self.id.clone(), name: self.name.clone(), arguments: self.arguments.clone() }
    }
}

/// Character view of an optional string.
pub open spec fn opt_str(o: Option<String>) -> Option<Seq<char>> {
    match o {
        Some(s) => Some(s@),
        None => None,
    }
}

/// Character view of a string list.
pub open spec fn strs_view(v: Seq<String>) -> Seq<Seq<char>> {
    v.map_values(|s: String| s@)
}

/// Sequence view of an optional tool-call list.
pub open spec fn opt_calls(o: Option<Vec<ToolCall>>) -> Option<Seq<ToolCall>> {
    match o {
        Some(v) => Some(v@),
        None => None,
    }
}

/// Identical copy of an optional string.
pub fn copy_opt_string(s: &Option<String>) -> (r: Option<String>)
    ensures
        r == *s,
        opt_str(r) == opt_str(*s),
{
    match s {
        Some(v) => Some(v.clone()),
        None => None,
    }
}

/// Identical copy of a string list.
pub fn copy_strings(v: &Vec<String>) -> (r: Vec<String>)
    ensures
        r@ == v@,
{
    let mut out: Vec<String> = Vec::new();
    for i in 0..v.len()
        invariant
            out@ == v@.take(i as int),
    {
        out.push(v[i].clone());
        assert(out@ =~= v@.take(i + 1));
    }
    assert(v@.take(v.len() as int) =~= v@);
    out
}

/// Identical copy of a tool-call list.
pub fn copy_tool_calls(v: &Vec<ToolCall>) -> (r: Vec<ToolCall>)
    ensures
        r@ == v@,
{
    let mut out: Vec<ToolCall> = Vec::new();
    for i in 0..v.len()
        invariant
            out@ == v@.take(i as int),
    {
        out.push(v[i].copy());
        assert(out@ =~= v@.take(i + 1));
    }
    assert(v@.take(v.len() as int) =~= v@);
    out
}

/// Identical copy of an optional tool-call list.
pub fn copy_opt_tool_calls(v: &Option<Vec<ToolCall>>) -> (r: Option<Vec<ToolCall>>)
    ensures
        opt_calls(r) == opt_calls(*v),
{
    match v {
        Some(calls) => Some(copy_tool_calls(calls)),
        None => None,
    }
}

/// Content body of a stored message (author and content kind are orthogonal).
#[derive(Debug, Clone, PartialEq)]
pub enum MessageBody {
    /// Plain text, mirroring the wire response: content, reasoning, tool calls.
    Text { content: String, reasoning: Option<String>, tool_calls: Option<Vec<ToolCall>> },
    /// A tool result answering `tool_call_id`.
    ToolResult { tool_call_id: String, tool_name: String, content: String },
    /// A compaction summary covering the messages whose timestamps are listed.
    Compaction { summary_of: Vec<String>, content: String },
    /// A poller brief recorded as model input.
    Nudge { content: String },
    /// The role context injected when the selected role changes.
    RoleContext { content: String },
}

/// A stored conversation message.
#[derive(Debug, Clone, PartialEq)]
pub struct Message {
    pub role: MessageRole,
    pub body: MessageBody,
    pub timestamp: u128,
    pub neuron_id: Option<String>,
}

/// Value view of a message body.
pub enum MessageBodyView {
    Text { content: Seq<char>, reasoning: Option<Seq<char>>, tool_calls: Option<Seq<ToolCall>> },
    ToolResult { tool_call_id: Seq<char>, tool_name: Seq<char>, content: Seq<char> },
    Compaction { summary_of: Seq<Seq<char>>, content: Seq<char> },
    Nudge { content: Seq<char> },
    RoleContext { content: Seq<char> },
}

impl View for MessageBody {
    type V = MessageBodyView;

    open spec fn view(&self) -> MessageBodyView {
        match *self {
            MessageBody::Text { content, reasoning, tool_calls } => MessageBodyView::Text {
                content: content@,
                reasoning: opt_str(reasoning),
                tool_calls: opt_calls(tool_calls),
            },
            MessageBody::ToolResult { tool_call_id, tool_name, content } => MessageBodyView::ToolResult {
                tool_call_id: tool_call_id@,
                tool_name: tool_name@,
                content: content@,
            },
            MessageBody::Compaction { summary_of, content } => MessageBodyView::Compaction {
                summary_of: strs_view(summary_of@),
                content: content@,
            },
            MessageBody::Nudge { content } => MessageBodyView::Nudge { content: content@ },
            MessageBody::RoleContext { content } => MessageBodyView::RoleContext { content: content@ },
        }
    }
}

/// Value view of a stored message.
pub struct MessageView {
    pub role: MessageRole,
    pub body: MessageBodyView,
    pub timestamp: u128,
    pub neuron_id: Option<Seq<char>>,
}

impl View for Message {
    type V = MessageView;

    open spec fn view(&self) -> MessageView {
        MessageView {
            role: self.role,
            body: self.body@,
            timestamp: self.timestamp,
            neuron_id: opt_str(self.neuron_id),
        }
    }
}

impl MessageBody {
    /// The body's main text, common to every variant.
    pub open spec fn content_of(self) -> String {
        match self {
            MessageBody::Text { content, .. } => content,
            MessageBody::ToolResult { content, .. } => content,
            MessageBody::Compaction { content, .. } => content,
            MessageBody::Nudge { content } => content,
            MessageBody::RoleContext { content } => content,
        }
    }

    /// The same body with its main text replaced.
    pub open spec fn with_content(self, c: String) -> MessageBody {
        match self {
            MessageBody::Text { reasoning, tool_calls, .. } => MessageBody::Text {
                content: c,
                reasoning,
                tool_calls,
            },
            MessageBody::ToolResult { tool_call_id, tool_name, .. } => MessageBody::ToolResult {
                tool_call_id,
                tool_name,
                content: c,
            },
            MessageBody::Compaction { summary_of, .. } => MessageBody::Compaction {
                summary_of,
                content: c,
            },
            MessageBody::Nudge { .. } => MessageBody::Nudge { content: c },
            MessageBody::RoleContext { .. } => MessageBody::RoleContext { content: c },
        }
    }

    /// An identical copy.
    pub fn copy(&self) -> (r: MessageBody)
        ensures
            r@ == self@,
    {
        match self {
            MessageBody::Text { content, reasoning, tool_calls } => {
                let calls = match tool_calls {
                    Some(c) => Some(copy_tool_calls(c)),
                    None => None,
                };
                MessageBody::Text {
                    content: content.clone(),
                    reasoning: copy_opt_string(reasoning),
                    tool_calls: calls,
                }
            },
            MessageBody::ToolResult { tool_call_id, tool_name, content } => MessageBody::ToolResult {
                tool_call_id: tool_call_id.clone(),
                tool_name: tool_name.clone(),
                content: content.clone(),
            },
            MessageBody::Compaction { summary_of, content } => {
                let s = copy_strings(summary_of);
                proof {
                    assert(strs_view(s@) =~= strs_view(summary_of@));
                }
                MessageBody::Compaction { summary_of: s, content: content.clone() }
            },
            MessageBody::Nudge { content } => MessageBody::Nudge { content: content.clone() },
            MessageBody::RoleContext { content } => MessageBody::RoleContext {
                content: content.clone(),
            },
        }
    }
}

impl Message {
    /// An identical copy.
    pub fn copy(&self) -> (r: Message)
        ensures
            r@ == self@,
    {
        Message {
            role: self.role,
            body: self.body.copy(),
            timestamp: self.timestamp,
            neuron_id: copy_opt_string(&self.neuron_id),
        }
    }

    /// Tool-related message: a non-empty `tool_calls` list or a tool result.
    pub open spec fn spec_is_tool(self) -> bool {
        match self.body {
            MessageBody::Text { tool_calls: Some(calls), .. } => calls.len() > 0,
            MessageBody::ToolResult { .. } => true,
            _ => false,
        }
    }

    /// The message's main text (reasoning is process information and excluded).
    pub fn text(&self) -> (r: &String)
        ensures
            *r == self.body.content_of(),
    {
        match &self.body {
            MessageBody::Text { content, .. } => content,
            MessageBody::ToolResult { content, .. } => content,
            MessageBody::Compaction { content, .. } => content,
            MessageBody::Nudge { content } => content,
            MessageBody::RoleContext { content } => content,
        }
    }

    /// Replaces the main text, keeping every other field.
    pub fn set_content(&mut self, content: String)
        ensures
            final(self).role == old(self).role,
            final(self).timestamp == old(self).timestamp,
            final(self).neuron_id == old(self).neuron_id,
            final(self).body == old(self).body.with_content(content),
    {
        match &mut self.body {
            MessageBody::Text { content: c, .. } => {
                *c = content;
            },
            MessageBody::ToolResult { content: c, .. } => {
                *c = content;
            },
            MessageBody::Compaction { content: c, .. } => {
                *c = content;
            },
            MessageBody::Nudge { content: c } => {
                *c = content;
            },
            MessageBody::RoleContext { content: c } => {
                *c = content;
            },
        }
    }

    /// Whether this is a tool call (non-empty) or a tool result.
    pub fn is_tool(&self) -> (r: bool)
        ensures
            r == self.spec_is_tool(),
    {
        match &self.body {
            MessageBody::Text { tool_calls: Some(calls), .. } => calls.len() > 0,
            MessageBody::ToolResult { .. } => true,
            _ => false,
        }
    }

    /// Timestamps covered by a compaction summary.
    pub fn summary_of(&self) -> (r: Option<&Vec<String>>)
        ensures
            match self.body {
                MessageBody::Compaction { summary_of, .. } => r == Some(&summary_of),
                _ => r is None,
            },
    {
        match &self.body {
            MessageBody::Compaction { summary_of, .. } => Some(summary_of),
            _ => None,
        }
    }

    /// The tool calls declared by a text message.
    pub fn tool_calls(&self) -> (r: Option<&Vec<ToolCall>>)
        ensures
            match self.body {
                MessageBody::Text { tool_calls: Some(calls), .. } => r == Some(&calls),
                _ => r is None,
            },
    {
        match &self.body {
            MessageBody::Text { tool_calls: Some(calls), .. } => Some(calls),
            _ => None,
        }
    }

    /// The reasoning chain of a text message.
    pub fn reasoning(&self) -> (r: Option<&String>)
        ensures
            match self.body {
                MessageBody::Text { reasoning: Some(text), .. } => r == Some(&text),
                _ => r is None,
            },
    {
        match &self.body {
            MessageBody::Text { reasoning: Some(text), .. } => Some(text),
            _ => None,
        }
    }
}

/// Role of a model-side message.
#[derive(Debug, Clone, Copy, PartialEq, Eq, Structural)]
pub enum ModelMessageRole {
    System,
    User,
    Assistant,
    Tool,
}

/// A model-side message.
#[derive(Debug, Clone, PartialEq)]
pub struct ModelMessage {
    pub role: ModelMessageRole,
    pub content: String,
    pub tool_calls: Option<Vec<ToolCall>>,
    pub tool_call_id: Option<String>,
    pub reasoning_content: Option<String>,
}

/// Value view of a model-side message.
pub struct ModelMessageView {
    pub role: ModelMessageRole,
    pub content: Seq<char>,
    pub tool_calls: Option<Seq<ToolCall>>,
    pub tool_call_id: Option<Seq<char>>,
    pub reasoning_content: Option<Seq<char>>,
}

impl View for ModelMessage {
    type V = ModelMessageView;

    open spec fn view(&self) -> ModelMessageView {
        ModelMessageView {
            role: self.role,
            content: self.content@,
            tool_calls: opt_calls(self.tool_calls),
            tool_call_id: opt_str(self.tool_call_id),
            reasoning_content: opt_str(self.reasoning_content),
        }
    }
}

impl ModelMessage {
    /// An identical copy.
    pub fn copy(&self) -> (r: ModelMessage)
        ensures
            r@ == self@,
    {
        ModelMessage {
            role: self.role,
            content: self.content.clone(),
            tool_calls: copy_opt_tool_calls(&self.tool_calls),
            tool_call_id: copy_opt_string(&self.tool_call_id),
            reasoning_content: copy_opt_string(&self.reasoning_content),
        }
    }

    /// A plain message with only a role and content.
    pub open spec fn spec_plain(role: ModelMessageRole, content: Seq<char>) -> ModelMessageView {
        ModelMessageView {
            role,
            content,
            tool_calls: None,
            tool_call_id: None,
            reasoning_content: None,
        }
    }

    /// Builds a plain message with only a role and content.
    pub fn plain(role: ModelMessageRole, content: &str) -> (r: ModelMessage)
        ensures
            r@ == Self::spec_plain(role, content@),
    {
        ModelMessage {
            role,
            content: owned(content),
            tool_calls: None,
            tool_call_id: None,
            reasoning_content: None,
        }
    }
}

/// Conversation mode.
#[derive(Debug, Clone, Copy, PartialEq, Eq, Structural)]
pub enum ConversationMode {
    Chat,
    Agent,
    Assistant,
    /// Assistant mode with the system tools attached.
    System,
}

/// Where a tool comes from.
#[derive(Debug, Clone, Copy, PartialEq, Eq, Structural)]
pub enum ToolSource {
    Native,
    Config,
    Mcp,
}

/// Tool usage tag, orthogonal to its source.
#[derive(Debug, Clone, Copy, PartialEq, Eq, Structural)]
pub enum ToolTag {
    Normal,
    System,
    Core,
}

impl ConversationMode {
    /// The tags whose tools a mode attaches automatically.
    pub open spec fn spec_tool_tags(self) -> Seq<ToolTag> {
        match self {
            ConversationMode::Chat => seq![],
            ConversationMode::Agent => seq![ToolTag::Core],
            ConversationMode::Assistant => seq![ToolTag::Core],
            ConversationMode::System => seq![ToolTag::Core, ToolTag::System],
        }
    }

    /// Chat: none; Agent / Assistant: Core; System: Core + System.
    pub fn tool_tags(&self) -> (r: Vec<ToolTag>)
        ensures
            r@ == self.spec_tool_tags(),
    {
        let mut v: Vec<ToolTag> = Vec::new();
        match self {
            ConversationMode::Chat => {},
            ConversationMode::Agent | ConversationMode::Assistant => {
                v.push(ToolTag::Core);
            },
            ConversationMode::System => {
                v.push(ToolTag::Core);
                v.push(ToolTag::System);
            },
        }
        assert(v@ =~= self.spec_tool_tags());
        v
    }

    /// The mode's wire name.
    pub open spec fn spec_name(self) -> Seq<char> {
        match self {
            ConversationMode::Chat => "chat"@,
            ConversationMode::Agent => "agent"@,
            ConversationMode::Assistant => "assistant"@,
            ConversationMode::System => "system"@,
        }
    }
}

/// Type filter of the neuron admin list.
#[derive(Debug, Clone, Copy, PartialEq, Eq, Structural)]
pub enum NeuronKindFilter {
    All,
    System,
    Normal,
}

/// ASCII lower case of one character.
pub open spec fn lower_char(c: char) -> char {
    if 'A' <= c && c <= 'Z' {
        ((c as u32) + 32) as char
    } else {
        c
    }
}

/// Index of the first non-whitespace character (the length when blank).
pub open spec fn trim_start_idx(s: Seq<char>) -> int
    decreases s.len(),
{
    if s.len() == 0 || !is_ws(s[0]) {
        0
    } else {
        1 + trim_start_idx(s.drop_first())
    }
}

/// `s` with leading and trailing whitespace removed.
pub open spec fn trim_seq(s: Seq<char>) -> Seq<char>
    decreases s.len(),
{
    if s.len() == 0 {
        s
    } else if is_ws(s[0]) {
        trim_seq(s.drop_first())
    } else if is_ws(s.last()) {
        trim_seq(s.drop_last())
    } else {
        s
    }
}

/// `a` equals `b` when `a` is lower-cased character by character.
pub open spec fn eq_ignore_case(a: Seq<char>, b: Seq<char>) -> bool {
    &&& a.len() == b.len()
    &&& forall|i: int| 0 <= i < a.len() ==> lower_char(#[trigger] a[i]) == b[i]
}

impl NeuronKindFilter {
    /// The filter a raw command argument names.
    pub open spec fn spec_parse(raw: Seq<char>) -> NeuronKindFilter {
        if eq_ignore_case(trim_seq(raw), "system"@) {
            NeuronKindFilter::System
        } else if eq_ignore_case(trim_seq(raw), "normal"@) {
            NeuronKindFilter::Normal
        } else {
            NeuronKindFilter::All
        }
    }

    /// "system" / "normal" (trimmed, case-insensitive); anything else is `All`.
    pub fn parse(raw: &str) -> (r: NeuronKindFilter)
        ensures
            r == Self::spec_parse(raw@),
    {
        let cs = crate::text::chars_of(raw);
        let t = trimmed(&cs);
        if lower_equals(&t, "system") {
            NeuronKindFilter::System
        } else if lower_equals(&t, "normal") {
            NeuronKindFilter::Normal
        } else {
            NeuronKindFilter::All
        }
    }
}

/// `trim_seq` of a window `[lo, hi)` once its ends are not whitespace.
proof fn lemma_trim_window(s: Seq<char>, lo: int, hi: int)
    requires
        0 <= lo <= hi <= s.len(),
        forall|j: int| 0 <= j < lo ==> is_ws(#[trigger] s[j]),
        forall|j: int| hi <= j < s.len() ==> is_ws(#[trigger] s[j]),
        lo < hi ==> !is_ws(s[lo]) && !is_ws(s[hi - 1]),
    ensures
        trim_seq(s) == s.subrange(lo, hi),
    decreases s.len(),
{
    if s.len() == 0 {
        assert(s.subrange(lo, hi) =~= s);
    } else if is_ws(s[0]) {
        assert(lo > 0 || hi == 0);
        if lo > 0 {
            let t = s.drop_first();
            assert forall|j: int| 0 <= j < lo - 1 implies is_ws(#[trigger] t[j]) by {
                assert(t[j] == s[j + 1]);
            }
            assert forall|j: int| hi - 1 <= j < t.len() implies is_ws(#[trigger] t[j]) by {
                assert(t[j] == s[j + 1]);
            }
            lemma_trim_window(t, lo - 1, hi - 1);
            assert(t.subrange(lo - 1, hi - 1) =~= s.subrange(lo, hi));
        } else {
            let t = s.drop_first();
            assert forall|j: int| 0 <= j < t.len() implies is_ws(#[trigger] t[j]) by {
                assert(t[j] == s[j + 1]);
            }
            lemma_trim_window(t, 0, 0);
            assert(t.subrange(0, 0) =~= s.subrange(lo, hi));
        }
    } else if is_ws(s.last()) {
        assert(hi < s.len());
        let t = s.drop_last();
        assert forall|j: int| 0 <= j < lo implies is_ws(#[trigger] t[j]) by {
            assert(t[j] == s[j]);
        }
        assert forall|j: int| hi <= j < t.len() implies is_ws(#[trigger] t[j]) by {
            assert(t[j] == s[j]);
        }
        lemma_trim_window(t, lo, hi);
        assert(t.subrange(lo, hi) =~= s.subrange(lo, hi));
    } else {
        assert(lo == 0);
        assert(hi == s.len());
        assert(s.subrange(lo, hi) =~= s);
    }
}

/// Bounds `[lo, hi)` of `cs` without its leading and trailing whitespace.
pub fn trim_bounds(cs: &Vec<char>) -> (r: (usize, usize))
    ensures
        r.0 <= r.1 <= cs@.len(),
        cs@.subrange(r.0 as int, r.1 as int) == trim_seq(cs@),
{
    let n = cs.len();
    let mut lo: usize = 0;
    while lo < n && crate::text::char_is_ws(cs[lo])
        invariant
            n == cs@.len(),
            lo <= n,
            forall|j: int| 0 <= j < lo ==> is_ws(#[trigger] cs@[j]),
        decreases n - lo,
    {
        lo += 1;
    }
    let mut hi: usize = n;
    while hi > lo && crate::text::char_is_ws(cs[hi - 1])
        invariant
            n == cs@.len(),
            lo <= hi <= n,
            forall|j: int| hi <= j < n ==> is_ws(#[trigger] cs@[j]),
        decreases hi,
    {
        hi -= 1;
    }
    proof {
        lemma_trim_window(cs@, lo as int, hi as int);
    }
    (lo, hi)
}

/// The characters of `cs` without leading and trailing whitespace.
pub fn trimmed(cs: &Vec<char>) -> (r: Vec<char>)
    ensures
        r@ == trim_seq(cs@),
{
    let (lo, hi) = trim_bounds(cs);
    let mut out: Vec<char> = Vec::new();
    let mut k = lo;
    while k < hi
        invariant
            lo <= k <= hi <= cs@.len(),
            out@ == cs@.subrange(lo as int, k as int),
        decreases hi - k,
    {
        out.push(cs[k]);
        k += 1;
        assert(out@ =~= cs@.subrange(lo as int, k as int));
    }
    out
}

/// `s.trim()`.
pub fn trim_str(s: &str) -> (r: &str)
    ensures
        r@ == trim_seq(s@),
{
    let cs = crate::text::chars_of(s);
    let (lo, hi) = trim_bounds(&cs);
    s.substring_char(lo, hi)
}

fn lower_equals(t: &Vec<char>, target: &str) -> (r: bool)
    ensures
        r == eq_ignore_case(t@, target@),
{
    let tc = crate::text::chars_of(target);
    if t.len() != tc.len() {
        return false;
    }
    let n = t.len();
    let mut i: usize = 0;
    while i < n
        invariant
            n == t@.len(),
            n == tc@.len(),
            tc@ == target@,
            i <= n,
            forall|j: int| 0 <= j < i ==> lower_char(#[trigger] t@[j]) == tc@[j],
        decreases n - i,
    {
        let c = t[i];
        let l = if 'A' <= c && c <= 'Z' {
            ((c as u32) + 32) as u8 as char
        } else {
            c
        };
        assert(l == lower_char(c)) by {
            if 'A' <= c && c <= 'Z' {
                assert((c as u32) + 32 < 256);
            }
        }
        if l != tc[i] {
            return false;
        }
        i += 1;
    }
    true
}

/// How a system neuron obtains its role prompt.
#[derive(Debug, Clone, Copy, PartialEq, Eq, Structural)]
pub enum SelectionPolicy {
    /// No role prompt (serialized as `None`).
    NoPrompt,
    /// The system neuron's own content, never changing.
    Fixed,
    /// Neighborhood pool around the last selected neuron (first round: itself).
    Neighborhood { policy: NeighborhoodPoolPolicy },
    /// Global pool without history; neighborhood once an anchor exists.
    Global { limit: usize },
}

/// Tool authorisation policy of a system neuron.
#[derive(Debug, Clone, PartialEq, Eq)]
pub enum ToolPolicy {
    /// No tools (serialized as `None`).
    NoTools,
    /// The role neuron's `tool_ids` intersected with the registry.
    FromNeuron,
    /// An explicit allowlist intersected with the registry.
    Allowlist(Vec<String>),
}

/// Behavior of a `session.<id>` system neuron.
#[derive(Debug, Clone, PartialEq, Eq)]
pub struct SessionBehavior {
    pub selection: SelectionPolicy,
    pub tools: ToolPolicy,
    /// Contract source; present → manual contract section.
    pub insert_id: Option<String>,
}

impl SessionBehavior {
    /// The default behavior: no selection, no tools, no contract.
    pub fn default_behavior() -> (r: SessionBehavior)
        ensures
            r.selection == SelectionPolicy::NoPrompt,
            r.tools == ToolPolicy::NoTools,
            r.insert_id is None,
    {
        SessionBehavior { selection: SelectionPolicy::NoPrompt, tools: ToolPolicy::NoTools, insert_id: None }
    }
}

/// Default global pool size of the assistant.
pub const DEFAULT_ASSISTANT_GLOBAL_LIMIT: usize = 7;

/// Quotas of an assistant neighborhood candidate pool.
#[derive(Debug, Clone, Copy, PartialEq, Eq, Structural)]
pub struct NeighborhoodPoolPolicy {
    pub existing_downstream: usize,
    pub new_downstream: usize,
    pub fill_downstream_shortage: bool,
    pub siblings: usize,
    pub upstream_depth: usize,
    /// Global top-weight supplement (0 = none).
    pub global_top_weight: usize,
}

impl NeighborhoodPoolPolicy {
    /// The default quotas (4 existing, 2 new, fill shortage, 2 siblings, depth 3, top 5).
    pub open spec fn spec_default() -> NeighborhoodPoolPolicy {
        NeighborhoodPoolPolicy {
            existing_downstream: 4,
            new_downstream: 2,
            fill_downstream_shortage: true,
            siblings: 2,
            upstream_depth: 3,
            global_top_weight: 5,
        }
    }

    /// The default quotas.
    pub fn default_policy() -> (r: NeighborhoodPoolPolicy)
        ensures
            r == Self::spec_default(),
    {
        NeighborhoodPoolPolicy {
            existing_downstream: 4,
            new_downstream: 2,
            fill_downstream_shortage: true,
            siblings: 2,
            upstream_depth: 3,
            global_top_weight: 5,
        }
    }
}

/// Scope of the first phase of assistant neuron selection.
#[derive(Debug, Clone, PartialEq, Eq)]
pub enum AssistantCandidateScope {
    Global { limit: usize },
    Neighborhood { self_id: String, policy: NeighborhoodPoolPolicy },
}

impl AssistantCandidateScope {
    /// Global pool of the default size.
    pub fn global_default() -> (r: AssistantCandidateScope)
        ensures
            r == (AssistantCandidateScope::Global { limit: DEFAULT_ASSISTANT_GLOBAL_LIMIT }),
    {
        AssistantCandidateScope::Global { limit: DEFAULT_ASSISTANT_GLOBAL_LIMIT }
    }

    /// Neighborhood of `self_id` with the default quotas.
    pub fn neighborhood_default(self_id: &str) -> (r: AssistantCandidateScope)
        ensures
            r matches AssistantCandidateScope::Neighborhood { self_id: id, policy } && id@ == self_id@
                && policy == NeighborhoodPoolPolicy::spec_default(),
    {
        AssistantCandidateScope::Neighborhood {
            self_id: owned(self_id),
            policy: NeighborhoodPoolPolicy::default_policy(),
        }
    }
}

/// Candidate pool query.
#[derive(Debug, Clone, PartialEq, Eq)]
pub struct CandidateQuery {
    pub n: usize,
    pub source_id: Option<String>,
    pub min_new: usize,
}

/// Thinking effort level.
#[derive(Debug, Clone, Copy, PartialEq, Eq, Structural)]
pub enum ThinkingEffort {
    Low,
    High,
    Max,
}

/// Thinking configuration (`None` fields follow the model default).
#[derive(Debug, Clone, Copy, PartialEq, Eq, Structural)]
pub struct ThinkingConfig {
    pub enabled: Option<bool>,
    pub effort: Option<ThinkingEffort>,
}

/// Thinking capability of a model definition.
#[derive(Debug, Clone, Copy, PartialEq, Eq, Structural)]
pub struct ThinkingCapability {
    pub supported: bool,
    pub default_enabled: Option<bool>,
    pub default_effort: Option<ThinkingEffort>,
}

/// Wire protocol family of a provider.
#[derive(Debug, Clone, Copy, PartialEq, Eq, Structural)]
pub enum ProviderKind {
    OpenAi,
    OpenAiCompatible,
}

/// Public description of a model provider.
#[derive(Debug, Clone, PartialEq, Eq)]
pub struct ProviderInfo {
    pub id: String,
    pub display_name: String,
    pub api_base: Option<String>,
    pub auth_env: String,
    pub kind: ProviderKind,
}

impl ProviderInfo {
    /// An identical copy.
    pub fn copy(&self) -> (r: ProviderInfo)
        ensures
            r == *self,
    {
        ProviderInfo {
            id: self.id.clone(),
            display_name: self.display_name.clone(),
            api_base: copy_opt_string(&self.api_base),
            auth_env: self.auth_env.clone(),
            kind: self.kind,
        }
    }
}

/// Runtime status summary.
#[derive(Debug, Clone, PartialEq, Eq)]
pub struct RuntimeStatus {
    pub app_name: String,
    pub storage_path: String,
    pub current_conversation_id: String,
    pub skill_count: usize,
    pub conversation_count: usize,
}

/// A skill's name and description.
#[derive(Debug, Clone, PartialEq, Eq)]
pub struct SkillInfo {
    pub name: String,
    pub description: String,
}

/// Reply of a chat call.
#[derive(Debug, Clone, PartialEq, Eq)]
pub struct ChatResponse {
    pub conversation_id: String,
    pub response: String,
}

/// One scope item of a topic.
#[derive(Debug, Clone, PartialEq, Eq)]
pub struct ScopeInItem {
    pub id: String,
    pub goal: String,
    pub done_contract: String,
    pub status: String,
}

/// The status a scope item gets when none is given: "pending".
pub fn default_scope_in_status() -> (r: String)
    ensures
        r@ == "pending"@,
{
    owned("pending")
}

/// Topic status.
#[derive(Debug, Clone, Copy, PartialEq, Eq, Structural)]
pub enum TopicStatus {
    Todo,
    InProgress,
    Paused,
    Done,
    Cancelled,
    /// Every unfinished scope item waits for the user.
    WaitingUser,
    /// Scope complete but the last round ended with a tool call.
    WrappingUp,
}

/// Immutable version record of a neuron (`source` ∈ seed / evolve / rollback).
#[derive(Debug, Clone, PartialEq, Eq)]
pub struct NeuronVersion {
    pub id: String,
    pub neuron_id: String,
    pub content: String,
    pub source: String,
    pub created_at: u128,
    pub prev_version_id: Option<String>,
}

/// Partial neuron update.
#[derive(Debug, Clone, PartialEq, Eq)]
pub struct NeuronUpdate {
    pub desc: Option<String>,
    pub content: Option<String>,
    pub tool_ids: Option<Vec<String>>,
}

/// Options of `ensure_system_neuron`.
#[derive(Debug, Clone, Copy, PartialEq, Eq, Structural)]
pub struct EnsureSystemOpts {
    pub reset: bool,
}

/// Result of bootstrapping the seed neurons.
#[derive(Debug, Clone, PartialEq, Eq)]
pub struct BootstrapReport {
    pub create_neuron_id: String,
    pub select_neuron_id: String,
}

/// Admin view of one system prompt slot.
#[derive(Debug, Clone, PartialEq, Eq)]
pub struct SystemPromptStatus {
    pub system_type: String,
    pub neuron_id: Option<String>,
    pub behavior: Option<SessionBehavior>,
}

/// Whether two texts are equal by their characters.
pub fn same_text(a: &String, b: &String) -> (r: bool)
    ensures
        r == (a@ == b@),
{
    str_eq(a.as_str(), b.as_str())
}

/// Default number of most recent messages compaction keeps verbatim.
pub fn default_keep_last() -> (r: usize)
    ensures
        r == 10,
{
    10
}

/// Default token budget of one message (beyond it the wire truncates head and tail).
pub fn default_single_message_token_budget() -> (r: usize)
    ensures
        r == 32000,
{
    32000
}

/// Context window assumed for a model that declares none.
pub const FALLBACK_CONTEXT_WINDOW: u32 = 128000;

/// The context window compaction measures against: the model's, else the fallback.
pub fn context_window_or_fallback(declared: Option<u32>) -> (r: u32)
    ensures
        r == match declared {
            Some(w) => w,
            None => FALLBACK_CONTEXT_WINDOW,
        },
{
    match declared {
        Some(w) => w,
        None => FALLBACK_CONTEXT_WINDOW,
    }
}

} // verus!

verus! {

/// One member of a selection policy written as an object: its key, and what the decoding
/// reads under it (`limit` as an unsigned integer, `policy` as neighborhood quotas; each
/// absent when missing or not of that shape).
#[derive(Debug, Clone, PartialEq, Eq)]
pub struct PolicyMember {
    pub key: String,
    pub limit: Option<u64>,
    pub policy: Option<NeighborhoodPoolPolicy>,
}

/// A stored selection policy as JSON: a variant name, an object's members in order, or
/// anything else.
#[derive(Debug, Clone, PartialEq, Eq)]
pub enum PolicyJson {
    Name(String),
    Members(Vec<PolicyMember>),
    Other,
}

/// The key names a selection variant.
pub open spec fn is_policy_key(k: Seq<char>) -> bool {
    k == "None"@ || k == "Fixed"@ || k == "Global"@ || k == "Neighborhood"@
}

/// Policy a recognised member decodes to: `Global` with its limit (7 when missing),
/// `Neighborhood` with its quotas (the defaults when missing or malformed); the keys of
/// the older forms decode to the plain variants and their payloads are ignored.
pub open spec fn member_policy(m: PolicyMember) -> SelectionPolicy {
    if m.key@ == "None"@ {
        SelectionPolicy::NoPrompt
    } else if m.key@ == "Fixed"@ {
        SelectionPolicy::Fixed
    } else if m.key@ == "Global"@ {
        SelectionPolicy::Global {
            limit: match m.limit {
                Some(l) => l as usize,
                None => DEFAULT_ASSISTANT_GLOBAL_LIMIT,
            },
        }
    } else {
        SelectionPolicy::Neighborhood {
            policy: match m.policy {
                Some(p) => p,
                None => NeighborhoodPoolPolicy::spec_default(),
            },
        }
    }
}

/// Index of the first member with a recognised key, among the first `k`.
pub open spec fn first_policy_member(ms: Seq<PolicyMember>, k: int) -> Option<int>
    decreases k,
{
    if k <= 0 {
        None
    } else {
        match first_policy_member(ms, k - 1) {
            Some(i) => Some(i),
            None => if is_policy_key(ms[k - 1].key@) {
                Some(k - 1)
            } else {
                None
            },
        }
    }
}

/// Decodes a stored selection policy leniently: the names `None` and `Fixed`; an object is
/// read by its first member with a recognised key. Anything else is an error with the
/// reason.
pub fn decode_selection_policy(j: &PolicyJson) -> (r: Result<SelectionPolicy, String>)
    ensures
        match j {
            PolicyJson::Name(n) => if n@ == "None"@ {
                r == Ok::<SelectionPolicy, String>(SelectionPolicy::NoPrompt)
            } else if n@ == "Fixed"@ {
                r == Ok::<SelectionPolicy, String>(SelectionPolicy::Fixed)
            } else {
                r matches Err(m) && m@ == "unknown SelectionPolicy variant: "@ + n@
            },
            PolicyJson::Members(ms) => match first_policy_member(ms@, ms@.len() as int) {
                Some(i) => r == Ok::<SelectionPolicy, String>(member_policy(ms@[i])),
                None => r matches Err(m) && m@ == "unknown SelectionPolicy variant"@,
            },
            PolicyJson::Other => r matches Err(m) && m@ == "SelectionPolicy must be a string or an object"@,
        },
{
    match j {
        PolicyJson::Name(n) => {
            if str_eq(n.as_str(), "None") {
                Ok(SelectionPolicy::NoPrompt)
            } else if str_eq(n.as_str(), "Fixed") {
                Ok(SelectionPolicy::Fixed)
            } else {
                let mut m = owned("unknown SelectionPolicy variant: ");
                m.append(n.as_str());
                Err(m)
            }
        },
        PolicyJson::Members(ms) => decode_policy_members(ms),
        PolicyJson::Other => {
            proof {
                reveal_strlit("SelectionPolicy must be a string or an object");
            }
            Err(owned("SelectionPolicy must be a string or an object"))
        },
    }
}


/// The policy an object's members decode to (see [`decode_selection_policy`]).
fn decode_policy_members(ms: &Vec<PolicyMember>) -> (r: Result<SelectionPolicy, String>)
    ensures
        match first_policy_member(ms@, ms@.len() as int) {
            Some(i) => r == Ok::<SelectionPolicy, String>(member_policy(ms@[i])),
            None => r matches Err(m) && m@ == "unknown SelectionPolicy variant"@,
        },
{
    let n = ms.len();
    let mut i: usize = 0;
    while i < n
        invariant
            n == ms@.len(),
            i <= n,
            first_policy_member(ms@, i as int) is None,
        decreases n - i,
    {
        let key = ms[i].key.as_str();
        let none = str_eq(key, "None");
        let fixed = str_eq(key, "Fixed");
        let global = str_eq(key, "Global");
        let neighborhood = str_eq(key, "Neighborhood");
        if none || fixed || global || neighborhood {
            proof {
                assert(first_policy_member(ms@, i as int + 1) == Some(i as int));
                lemma_first_member_stays(ms@, i as int + 1, n as int);
            }
            let p = if none {
                SelectionPolicy::NoPrompt
            } else if fixed {
                SelectionPolicy::Fixed
            } else if global {
                SelectionPolicy::Global {
                    limit: match ms[i].limit {
                        Some(l) => #[verifier::truncate] (l as usize),
                        None => DEFAULT_ASSISTANT_GLOBAL_LIMIT,
                    },
                }
            } else {
                SelectionPolicy::Neighborhood {
                    policy: match ms[i].policy {
                        Some(p) => p,
                        None => NeighborhoodPoolPolicy::default_policy(),
                    },
                }
            };
            return Ok(p);
        }
        i += 1;
    }
    proof {
        reveal_strlit("unknown SelectionPolicy variant");
    }
    Err(owned("unknown SelectionPolicy variant"))
}

/// Once found, the first recognised member stays the first.
proof fn lemma_first_member_stays(ms: Seq<PolicyMember>, k: int, m: int)
    requires
        0 <= k <= m,
        first_policy_member(ms, k) is Some,
    ensures
        first_policy_member(ms, m) == first_policy_member(ms, k),
    decreases m - k,
{
    if m > k {
        lemma_first_member_stays(ms, k, m - 1);
    }
}

} // verus!
