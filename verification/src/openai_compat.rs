//! OpenAI-compatible chat wire: response shapes, the server-sent-event framing of a
//! streamed answer, and how streamed chunks add up to one answer.
//!
//! The HTTP exchange and JSON decoding are done by the caller; this module decides which
//! event lines carry data and folds each decoded chunk into the aggregate.

use vstd::prelude::*;

use crate::text::{join2, owned, push_str, str_eq, str_is_empty};

verus! {

/// The function part of a tool call on the wire.
#[derive(Debug, Clone, PartialEq, Eq)]
pub struct FunctionCallWire {
    pub name: String,
    /// Raw JSON arguments (streamed in fragments).
    pub arguments: String,
}

/// A tool call on the wire.
#[derive(Debug, Clone, PartialEq, Eq)]
pub struct ToolCallWire {
    pub id: String,
    pub kind: String,
    pub function: FunctionCallWire,
}

/// Value view of a wire tool call.
pub struct ToolCallWireView {
    pub id: Seq<char>,
    pub kind: Seq<char>,
    pub name: Seq<char>,
    pub arguments: Seq<char>,
}

impl View for ToolCallWire {
    type V = ToolCallWireView;

    open spec fn view(&self) -> ToolCallWireView {
        ToolCallWireView {
            id: self.id@,
            kind: self.kind@,
            name: self.function.name@,
            arguments: self.function.arguments@,
        }
    }
}

impl ToolCallWire {
    /// An identical copy.
    pub fn copy(&self) -> (r: ToolCallWire)
        ensures
            r@ == self@,
    {
        ToolCallWire {
            id: self.id.clone(),
            kind: self.kind.clone(),
            function: FunctionCallWire {
                name: self.function.name.clone(),
                arguments: self.function.arguments.clone(),
            },
        }
    }
}

/// Views of wire tool calls.
pub open spec fn call_views(s: Seq<ToolCallWire>) -> Seq<ToolCallWireView> {
    s.map_values(|c: ToolCallWire| c@)
}

/// Reasoning-token detail of the usage report.
#[derive(Debug, Clone, Copy, PartialEq, Eq, Structural)]
pub struct CompletionTokensDetails {
    pub reasoning_tokens: Option<u32>,
}

/// Token usage report.
#[derive(Debug, Clone, Copy, PartialEq, Eq, Structural)]
pub struct Usage {
    pub prompt_tokens: u32,
    pub completion_tokens: u32,
    pub total_tokens: u32,
    pub completion_tokens_details: Option<CompletionTokensDetails>,
}

/// The message of a (non-streamed or aggregated) answer.
#[derive(Debug, Clone, PartialEq, Eq)]
pub struct ResponseMessage {
    pub role: String,
    pub content: Option<String>,
    /// Chain of thought of reasoning models.
    pub reasoning_content: Option<String>,
    pub tool_calls: Option<Vec<ToolCallWire>>,
    pub refusal: Option<String>,
}

/// One choice of an answer.
#[derive(Debug, Clone, PartialEq, Eq)]
pub struct ResponseChoice {
    pub index: usize,
    pub message: ResponseMessage,
    pub finish_reason: Option<String>,
}

/// A complete answer (also the aggregate of a stream).
#[derive(Debug, Clone, PartialEq, Eq)]
pub struct ChatResponse {
    pub id: String,
    pub object: String,
    pub created: i64,
    pub model: String,
    pub system_fingerprint: Option<String>,
    pub choices: Vec<ResponseChoice>,
    pub usage: Option<Usage>,
}

/// The increment a streamed chunk carries for one choice.
#[derive(Debug, Clone, PartialEq, Eq)]
pub struct StreamDelta {
    pub role: Option<String>,
    pub content: Option<String>,
    pub reasoning_content: Option<String>,
    pub tool_calls: Option<Vec<ToolCallWire>>,
}

/// One choice of a streamed chunk.
#[derive(Debug, Clone, PartialEq, Eq)]
pub struct StreamChoice {
    pub index: usize,
    pub delta: StreamDelta,
    pub finish_reason: Option<String>,
}

/// One decoded chunk of a streamed answer.
#[derive(Debug, Clone, PartialEq, Eq)]
pub struct StreamChunk {
    pub id: String,
    pub object: String,
    pub created: i64,
    pub model: String,
    pub choices: Vec<StreamChoice>,
    pub usage: Option<Usage>,
}

/// The data of an event-stream line: the text after `data:` (both trimmed), unless the line
/// is not a data line, the data is empty, or it is the `[DONE]` marker.
pub open spec fn sse_data_spec(line: Seq<char>) -> Option<Seq<char>> {
    let t = crate::models::trim_seq(line);
    if t.len() < 5 || t.subrange(0, 5) != "data:"@ {
        None
    } else {
        let d = crate::models::trim_seq(t.subrange(5, t.len() as int));
        if d.len() == 0 || d == "[DONE]"@ {
            None
        } else {
            Some(d)
        }
    }
}

/// The data carried by an event-stream line, if any (see [`sse_data_spec`]).
pub fn sse_data(line: &str) -> (r: Option<String>)
    ensures
        match r {
            Some(d) => sse_data_spec(line@) == Some(d@),
            None => sse_data_spec(line@) is None,
        },
{
    proof {
        reveal_strlit("data:");
        reveal_strlit("[DONE]");
    }
    let t = crate::models::trim_str(line);
    let n = t.unicode_len();
    if n < 5 {
        return None;
    }
    let head = t.substring_char(0, 5);
    if !str_eq(head, "data:") {
        return None;
    }
    let rest = t.substring_char(5, n);
    let d = crate::models::trim_str(rest);
    if str_is_empty(d) || str_eq(d, "[DONE]") {
        return None;
    }
    Some(owned(d))
}

/// Index of the first call whose id is `id` (`calls.len()` when none).
pub open spec fn first_call(calls: Seq<ToolCallWireView>, id: Seq<char>) -> int
    decreases calls.len(),
{
    if calls.len() == 0 {
        0
    } else if first_call(calls.drop_last(), id) < calls.len() - 1 {
        first_call(calls.drop_last(), id)
    } else if calls.last().id == id {
        calls.len() - 1
    } else {
        calls.len() as int
    }
}

proof fn lemma_first_call(calls: Seq<ToolCallWireView>, id: Seq<char>)
    ensures
        0 <= first_call(calls, id) <= calls.len(),
        forall|j: int| 0 <= j < first_call(calls, id) ==> (#[trigger] calls[j]).id != id,
        first_call(calls, id) < calls.len() ==> calls[first_call(calls, id)].id == id,
    decreases calls.len(),
{
    if calls.len() > 0 {
        let prefix = calls.drop_last();
        lemma_first_call(prefix, id);
        assert forall|j: int| 0 <= j < calls.len() - 1 implies calls[j] == prefix[j] by {}
        let kp = first_call(prefix, id);
        if kp < calls.len() - 1 {
            assert(calls[kp] == prefix[kp]);
        }
    }
}

/// One streamed tool-call fragment folded into the calls so far: a fragment of a known call
/// (same id) appends its non-empty arguments to the first such call; a new id is added.
pub open spec fn merge_call(calls: Seq<ToolCallWireView>, tc: ToolCallWireView) -> Seq<
    ToolCallWireView,
> {
    let k = first_call(calls, tc.id);
    if k < calls.len() {
        if tc.arguments.len() > 0 {
            calls.update(
                k,
                ToolCallWireView { arguments: calls[k].arguments + tc.arguments, ..calls[k] },
            )
        } else {
            calls
        }
    } else {
        calls.push(tc)
    }
}

/// Merging a streamed tool-call fragment never changes the identity of a call already
/// known: every known call keeps its id, kind and function name; only the first call with
/// the fragment's id has its arguments extended, by the fragment's arguments. A fragment
/// with a new id is appended as it is.
pub proof fn law_merge_keeps_known_calls(calls: Seq<ToolCallWireView>, tc: ToolCallWireView)
    ensures
        ({
            let r = merge_call(calls, tc);
            &&& forall|j: int| 0 <= j < calls.len() ==> {
                &&& (#[trigger] r[j]).id == calls[j].id
                &&& r[j].kind == calls[j].kind
                &&& r[j].name == calls[j].name
                &&& r[j].arguments == if calls[j].id == tc.id && (forall|i: int| 0 <= i < j ==> calls[i].id != tc.id) {
                    calls[j].arguments + tc.arguments
                } else {
                    calls[j].arguments
                }
            }
            &&& (exists|j: int| 0 <= j < calls.len() && calls[j].id == tc.id) ==> r.len() == calls.len()
            &&& !(exists|j: int| 0 <= j < calls.len() && calls[j].id == tc.id) ==> r == calls.push(tc)
        }),
{
    lemma_first_call(calls, tc.id);
    let k = first_call(calls, tc.id);
    let r = merge_call(calls, tc);
    if k < calls.len() {
        assert forall|j: int| 0 <= j < calls.len() implies {
            &&& (#[trigger] r[j]).id == calls[j].id
            &&& r[j].kind == calls[j].kind
            &&& r[j].name == calls[j].name
            &&& r[j].arguments == if calls[j].id == tc.id && (forall|i: int| 0 <= i < j ==> calls[i].id != tc.id) {
                calls[j].arguments + tc.arguments
            } else {
                calls[j].arguments
            }
        } by {
            if j == k {
                if tc.arguments.len() == 0 {
                    assert(calls[j].arguments + tc.arguments =~= calls[j].arguments);
                }
            } else if j < k {
                assert(calls[j].id != tc.id);
            } else {
                assert(!(forall|i: int| 0 <= i < j ==> calls[i].id != tc.id)) by {
                    assert(calls[k].id == tc.id);
                }
            }
        }
    } else {
        assert(!(exists|j: int| 0 <= j < calls.len() && calls[j].id == tc.id));
        assert forall|j: int| 0 <= j < calls.len() implies (#[trigger] r[j]).arguments == calls[j].arguments by {}
    }
}

/// Every fragment folded in, in order.
pub open spec fn merge_calls(calls: Seq<ToolCallWireView>, tcs: Seq<ToolCallWireView>) -> Seq<
    ToolCallWireView,
>
    decreases tcs.len(),
{
    if tcs.len() == 0 {
        calls
    } else {
        merge_call(merge_calls(calls, tcs.drop_last()), tcs.last())
    }
}

fn merge_call_into(calls: &mut Vec<ToolCallWire>, tc: &ToolCallWire)
    ensures
        call_views(final(calls)@) == merge_call(call_views(old(calls)@), tc@),
{
    let ghost old_views = call_views(calls@);
    proof {
        lemma_first_call(old_views, tc.id@);
    }
    let n = calls.len();
    let mut i: usize = 0;
    while i < n
        invariant
            n == calls@.len(),
            calls@ == old(calls)@,
            old_views == call_views(calls@),
            i <= first_call(old_views, tc.id@),
            0 <= first_call(old_views, tc.id@) <= old_views.len(),
            forall|j: int| 0 <= j < first_call(old_views, tc.id@) ==> (#[trigger] old_views[j]).id != tc.id@,
            first_call(old_views, tc.id@) < old_views.len() ==> old_views[first_call(old_views, tc.id@)].id == tc.id@,
        decreases n - i,
    {
        assert(old_views[i as int] == calls@[i as int]@);
        if str_eq(calls[i].id.as_str(), tc.id.as_str()) {
            if !str_is_empty(tc.function.arguments.as_str()) {
                let mut c = calls[i].copy();
                push_str(&mut c.function.arguments, tc.function.arguments.as_str());
                calls.set(i, c);
                proof {
                    assert(call_views(calls@) =~= merge_call(old_views, tc@));
                }
            } else {
                assert(i == first_call(old_views, tc.id@));
            }
            return;
        }
        i += 1;
    }
    calls.push(tc.copy());
    proof {
        assert(call_views(calls@) =~= old_views.push(tc@));
    }
}

/// Value view of the aggregated choice.
pub struct ChoiceView {
    pub index: usize,
    /// The message's role (no delta sets it: it stays empty).
    pub role: Seq<char>,
    pub content: Option<Seq<char>>,
    pub reasoning: Option<Seq<char>>,
    pub tool_calls: Option<Seq<ToolCallWireView>>,
    pub finish_reason: Option<Seq<char>>,
    /// The message's refusal (no delta sets it: it stays absent).
    pub refusal: Option<Seq<char>>,
}

/// `base` with `more` appended (`more` alone when there was nothing yet).
pub open spec fn append_opt(base: Option<Seq<char>>, more: Seq<char>) -> Option<Seq<char>> {
    match base {
        Some(b) => Some(b + more),
        None => Some(more),
    }
}

/// Character view of an optional string.
pub open spec fn ostr(o: Option<String>) -> Option<Seq<char>> {
    match o {
        Some(s) => Some(s@),
        None => None,
    }
}

/// Views of an optional list of calls.
pub open spec fn ocalls(o: Option<Vec<ToolCallWire>>) -> Option<Seq<ToolCallWireView>> {
    match o {
        Some(v) => Some(call_views(v@)),
        None => None,
    }
}

/// The aggregated choice after folding in the first choice `c` of a chunk.
pub open spec fn absorb_choice(acc: Option<ChoiceView>, c: StreamChoice) -> ChoiceView {
    let a = match acc {
        Some(a) => a,
        None => ChoiceView {
            index: c.index,
            role: Seq::empty(),
            content: None,
            reasoning: None,
            tool_calls: None,
            finish_reason: None,
            refusal: None,
        },
    };
    ChoiceView {
        index: a.index,
        role: a.role,
        refusal: a.refusal,
        content: match c.delta.content {
            Some(more) => append_opt(a.content, more@),
            None => a.content,
        },
        reasoning: match c.delta.reasoning_content {
            Some(more) => append_opt(a.reasoning, more@),
            None => a.reasoning,
        },
        tool_calls: match c.delta.tool_calls {
            Some(tcs) => Some(
                merge_calls(
                    match a.tool_calls {
                        Some(v) => v,
                        None => Seq::empty(),
                    },
                    call_views(tcs@),
                ),
            ),
            None => a.tool_calls,
        },
        finish_reason: match c.finish_reason {
            Some(f) => Some(f@),
            None => a.finish_reason,
        },
    }
}

/// The running aggregate of a streamed answer.
#[derive(Debug)]
pub struct StreamAggregator {
    pub id: String,
    pub object: String,
    pub created: i64,
    pub model: String,
    pub usage: Option<Usage>,
    pub choice: Option<ResponseChoice>,
}

/// Value view of an aggregated choice.
pub open spec fn choice_view(c: Option<ResponseChoice>) -> Option<ChoiceView> {
    match c {
        Some(c) => Some(
            ChoiceView {
                index: c.index,
                role: c.message.role@,
                refusal: ostr(c.message.refusal),
                content: ostr(c.message.content),
                reasoning: ostr(c.message.reasoning_content),
                tool_calls: ocalls(c.message.tool_calls),
                finish_reason: ostr(c.finish_reason),
            },
        ),
        None => None,
    }
}

fn append_to(slot: &mut Option<String>, more: &String)
    ensures
        ostr(*final(slot)) == append_opt(ostr(*old(slot)), more@),
{
    match slot {
        Some(s) => {
            push_str(s, more.as_str());
        },
        None => {
            *slot = Some(more.clone());
        },
    }
}

impl StreamAggregator {
    /// An empty aggregate.
    pub fn new() -> (r: StreamAggregator)
        ensures
            r.id@.len() == 0,
            r.object@.len() == 0,
            r.created == 0,
            r.model@.len() == 0,
            r.usage is None,
            r.choice is None,
    {
        StreamAggregator {
            id: String::new(),
            object: String::new(),
            created: 0,
            model: String::new(),
            usage: None,
            choice: None,
        }
    }

    /// Folds in one decoded chunk: the first chunk's id, object, creation time and model are
    /// kept; a usage report replaces the previous one; the chunk's first choice extends the
    /// aggregated one (content and reasoning appended, tool-call fragments merged by id, a
    /// finish reason recorded; its role and refusal are never set by a delta: a new choice
    /// starts with an empty role and no refusal, and they are kept as they are). Other
    /// choices are ignored.
    pub fn absorb(&mut self, chunk: &StreamChunk)
        ensures
            old(self).id@.len() == 0 ==> final(self).id@ == chunk.id@ && final(self).object@
                == chunk.object@ && final(self).created == chunk.created && final(self).model@
                == chunk.model@,
            old(self).id@.len() != 0 ==> final(self).id@ == old(self).id@ && final(self).object@
                == old(self).object@ && final(self).created == old(self).created
                && final(self).model@ == old(self).model@,
            final(self).usage == if chunk.usage is Some {
                chunk.usage
            } else {
                old(self).usage
            },
            choice_view(final(self).choice) == if chunk.choices@.len() > 0 {
                Some(absorb_choice(choice_view(old(self).choice), chunk.choices@[0]))
            } else {
                choice_view(old(self).choice)
            },
    {
        if str_is_empty(self.id.as_str()) {
            self.id = chunk.id.clone();
            self.model = chunk.model.clone();
            self.created = chunk.created;
            self.object = chunk.object.clone();
        }
        if chunk.usage.is_some() {
            self.usage = chunk.usage;
        }
        if chunk.choices.len() == 0 {
            return;
        }
        let c = &chunk.choices[0];
        let ghost expected = absorb_choice(choice_view(old(self).choice), chunk.choices@[0]);
        let mut acc = match self.choice.take() {
            Some(a) => a,
            None => ResponseChoice {
                index: c.index,
                message: ResponseMessage {
                    role: String::new(),
                    content: None,
                    reasoning_content: None,
                    tool_calls: None,
                    refusal: None,
                },
                finish_reason: None,
            },
        };
        assert(acc.index == expected.index);
        if let Some(more) = &c.delta.content {
            append_to(&mut acc.message.content, more);
        }
        assert(ostr(acc.message.content) == expected.content);
        if let Some(more) = &c.delta.reasoning_content {
            append_to(&mut acc.message.reasoning_content, more);
        }
        assert(ostr(acc.message.reasoning_content) == expected.reasoning);
        if let Some(tcs) = &c.delta.tool_calls {
            let ghost prev = ocalls(acc.message.tool_calls);
            let mut calls = match acc.message.tool_calls.take() {
                Some(v) => v,
                None => Vec::new(),
            };
            let ghost start = call_views(calls@);
            assert(start =~= match prev {
                Some(v) => v,
                None => Seq::empty(),
            });
            for j in 0..tcs.len()
                invariant
                    call_views(calls@) == merge_calls(start, call_views(tcs@.take(j as int))),
            {
                proof {
                    assert(call_views(tcs@.take(j + 1)).drop_last() =~= call_views(
                        tcs@.take(j as int),
                    ));
                    assert(call_views(tcs@.take(j + 1)).last() == tcs@[j as int]@);
                }
                merge_call_into(&mut calls, &tcs[j]);
            }
            proof {
                assert(tcs@.take(tcs@.len() as int) =~= tcs@);
            }
            acc.message.tool_calls = Some(calls);
        }
        assert(ocalls(acc.message.tool_calls) == expected.tool_calls);
        if let Some(f) = &c.finish_reason {
            acc.finish_reason = Some(f.clone());
        }
        self.choice = Some(acc);
    }

    /// The aggregated answer (at most one choice).
    pub fn finish(self) -> (r: ChatResponse)
        ensures
            r.id@ == self.id@,
            r.object@ == self.object@,
            r.created == self.created,
            r.model@ == self.model@,
            r.system_fingerprint is None,
            r.usage == self.usage,
            r.choices@ == match self.choice {
                Some(c) => seq![c],
                None => Seq::empty(),
            },
    {
        let mut choices: Vec<ResponseChoice> = Vec::new();
        match self.choice {
            Some(c) => {
                choices.push(c);
            },
            None => {},
        }
        ChatResponse {
            id: self.id,
            object: self.object,
            created: self.created,
            model: self.model,
            system_fingerprint: None,
            choices,
            usage: self.usage,
        }
    }
}

/// `base` without trailing `/` characters.
pub open spec fn strip_trailing_slashes(base: Seq<char>) -> Seq<char>
    decreases base.len(),
{
    if base.len() > 0 && base.last() == '/' {
        strip_trailing_slashes(base.drop_last())
    } else {
        base
    }
}

/// The base URL a client keeps: without trailing `/`.
pub fn normalize_base_url(base: &str) -> (r: String)
    ensures
        r@ == strip_trailing_slashes(base@),
{
    let mut n = base.unicode_len();
    assert(base@.subrange(0, n as int) =~= base@);
    while n > 0 && base.get_char(n - 1) == '/'
        invariant
            n <= base@.len(),
            strip_trailing_slashes(base@) == strip_trailing_slashes(base@.subrange(0, n as int)),
        decreases n,
    {
        proof {
            assert(base@.subrange(0, n as int).drop_last() =~= base@.subrange(0, n - 1));
        }
        n -= 1;
    }
    proof {
        assert(base@.subrange(0, base@.len() as int) =~= base@);
    }
    owned(base.substring_char(0, n))
}

/// The chat-completions endpoint under a base URL.
pub fn endpoint(base_url: &str) -> (r: String)
    ensures
        r@ == base_url@ + "/chat/completions"@,
{
    join2(base_url, "/chat/completions")
}

/// The message of a failed call: the provider's error message when it gave a non-empty one,
/// else its error code and the raw body (`code: body`), else the raw body.
pub open spec fn provider_error_spec(
    status: Seq<char>,
    body: Seq<char>,
    message: Option<Seq<char>>,
    code: Option<Seq<char>>,
) -> Seq<char> {
    let detail = match message {
        Some(m) => if m.len() > 0 {
            m
        } else {
            match code {
                Some(c) => if c.len() > 0 { c + ": "@ + body } else { body },
                None => body,
            }
        },
        None => match code {
            Some(c) => if c.len() > 0 { c + ": "@ + body } else { body },
            None => body,
        },
    };
    "provider returned "@ + status + ": "@ + detail
}

/// Message of a non-success answer (see [`provider_error_spec`]); `status` is the status
/// line, `body` the raw body, `message` and `code` the structured error fields when the
/// body decodes as an error envelope.
pub fn provider_error_message(
    status: &str,
    body: &str,
    message: Option<&str>,
    code: Option<&str>,
) -> (r: String)
    ensures
        r@ == provider_error_spec(
            status@,
            body@,
            match message {
                Some(m) => Some(m@),
                None => None,
            },
            match code {
                Some(c) => Some(c@),
                None => None,
            },
        ),
{
    let use_message = match message {
        Some(m) => !str_is_empty(m),
        None => false,
    };
    let detail: String = if use_message {
        owned(message.unwrap())
    } else {
        match code {
            Some(c) => if str_is_empty(c) {
                owned(body)
            } else {
                let mut d = join2(c, ": ");
                push_str(&mut d, body);
                d
            },
            None => owned(body),
        }
    };
    let mut out = join2("provider returned ", status);
    push_str(&mut out, ": ");
    push_str(&mut out, detail.as_str());
    out
}

} // verus!
