//! Reading the model's JSON replies: finding the JSON object or array in a reply that may
//! wrap it in prose, and turning a reply into the list of neuron drafts it promises.
//!
//! Parsing JSON is serde_json's; this module decides which text is parsed, how it is read,
//! and what a reply that does not fit is answered with. The caller reads each text into
//! drafts when asked (see [`DraftParse`]).

use vstd::prelude::*;

use crate::error::AppError;
use crate::models::{trim_seq, trim_str};
use crate::text::{decimal, is_blank, join2, owned, push_str, str_is_blank, u64_to_decimal};

verus! {

/// Shape of a JSON text.
#[derive(Debug, Clone, PartialEq, Eq)]
pub enum JsonKind {
    /// Not JSON: the parser's message.
    Invalid(String),
    /// An object; `neurons_list` tells whether it has a member `neurons` that is an array.
    Object { neurons_list: bool },
    Array,
    /// A string, number, boolean or null.
    Scalar,
}

/// Value view of [`JsonKind`].
pub enum JsonKindView {
    Invalid(Seq<char>),
    Object { neurons_list: bool },
    Array,
    Scalar,
}

impl View for JsonKind {
    type V = JsonKindView;

    open spec fn view(&self) -> JsonKindView {
        match self {
            JsonKind::Invalid(m) => JsonKindView::Invalid(m@),
            JsonKind::Object { neurons_list } => JsonKindView::Object { neurons_list: *neurons_list },
            JsonKind::Array => JsonKindView::Array,
            JsonKind::Scalar => JsonKindView::Scalar,
        }
    }
}

/// Shape of one parsed JSON value, or the parser's message when the text is not JSON.
#[derive(Debug, Clone, PartialEq, Eq)]
pub enum ValueShape {
    Invalid(String),
    Object,
    Array,
    /// A string, number, boolean or null.
    Scalar,
}

/// Value view of [`ValueShape`].
pub enum ValueShapeView {
    Invalid(Seq<char>),
    Object,
    Array,
    Scalar,
}

impl View for ValueShape {
    type V = ValueShapeView;

    open spec fn view(&self) -> ValueShapeView {
        match self {
            ValueShape::Invalid(m) => ValueShapeView::Invalid(m@),
            ValueShape::Object => ValueShapeView::Object,
            ValueShape::Array => ValueShapeView::Array,
            ValueShape::Scalar => ValueShapeView::Scalar,
        }
    }
}

/// What `serde_json::from_str::<serde_json::Value>` makes of a text, by shape.
pub uninterp spec fn value_shape_of(text: Seq<char>) -> ValueShapeView;

/// The shape of the member `key` of the object a text parses to (none when the text is not
/// an object or has no such member).
pub uninterp spec fn member_shape_of(text: Seq<char>, key: Seq<char>) -> Option<ValueShapeView>;

/// `serde_json::from_str::<serde_json::Value>` on `text`, reduced to the shape of the
/// result (the error's message when it fails). The contract claims only that the shape
/// depends on the text alone.
#[verifier::external_body]
fn value_shape(text: &str) -> (r: ValueShape)
    ensures
        r@ == value_shape_of(text@),
{
    match serde_json::from_str::<serde_json::Value>(text) {
        Err(e) => ValueShape::Invalid(e.to_string()),
        Ok(serde_json::Value::Object(_)) => ValueShape::Object,
        Ok(serde_json::Value::Array(_)) => ValueShape::Array,
        Ok(_) => ValueShape::Scalar,
    }
}

/// `serde_json::from_str::<serde_json::Value>` on `text`, then `Map::get(key)` when it is
/// an object, reduced to the shape of the member found. The contract claims only that the
/// result depends on the text and the key alone.
#[verifier::external_body]
fn member_shape(text: &str, key: &str) -> (r: Option<ValueShape>)
    ensures
        match r {
            Some(v) => member_shape_of(text@, key@) == Some(v@),
            None => member_shape_of(text@, key@) is None,
        },
{
    match serde_json::from_str::<serde_json::Value>(text) {
        Ok(serde_json::Value::Object(map)) => match map.get(key) {
            Some(serde_json::Value::Object(_)) => Some(ValueShape::Object),
            Some(serde_json::Value::Array(_)) => Some(ValueShape::Array),
            Some(_) => Some(ValueShape::Scalar),
            None => None,
        },
        _ => None,
    }
}

/// The shape of a reply text as the drafts reader sees it: for an object, whether its
/// `neurons` member is an array.
pub open spec fn json_kind_of(text: Seq<char>) -> JsonKindView {
    match value_shape_of(text) {
        ValueShapeView::Invalid(m) => JsonKindView::Invalid(m),
        ValueShapeView::Object => JsonKindView::Object {
            neurons_list: member_shape_of(text, "neurons"@) matches Some(ValueShapeView::Array),
        },
        ValueShapeView::Array => JsonKindView::Array,
        ValueShapeView::Scalar => JsonKindView::Scalar,
    }
}

/// The shape of `text` as JSON (see [`json_kind_of`]).
pub fn json_shape(text: &str) -> (r: JsonKind)
    ensures
        r@ == json_kind_of(text@),
{
    match value_shape(text) {
        ValueShape::Invalid(m) => JsonKind::Invalid(m),
        ValueShape::Object => {
            let neurons_list = match member_shape(text, "neurons") {
                Some(ValueShape::Array) => true,
                _ => false,
            };
            JsonKind::Object { neurons_list }
        },
        ValueShape::Array => JsonKind::Array,
        ValueShape::Scalar => JsonKind::Scalar,
    }
}

/// `c` occurs in `s`.
pub open spec fn has_char(s: Seq<char>, c: char) -> bool {
    exists|i: int| 0 <= i < s.len() && s[i] == c
}

/// `i` is the first position of `c` in `s`.
pub open spec fn first_at(s: Seq<char>, c: char, i: int) -> bool {
    &&& 0 <= i < s.len()
    &&& s[i] == c
    &&& forall|j: int| 0 <= j < i ==> s[j] != c
}

/// `i` is the last position of `c` in `s`.
pub open spec fn last_at(s: Seq<char>, c: char, i: int) -> bool {
    &&& 0 <= i < s.len()
    &&& s[i] == c
    &&& forall|j: int| i < j < s.len() ==> s[j] != c
}

fn find_first(cs: &Vec<char>, c: char) -> (r: Option<usize>)
    ensures
        match r {
            Some(i) => first_at(cs@, c, i as int),
            None => !has_char(cs@, c),
        },
{
    let n = cs.len();
    let mut i: usize = 0;
    while i < n
        invariant
            n == cs@.len(),
            i <= n,
            forall|j: int| 0 <= j < i ==> cs@[j] != c,
        decreases n - i,
    {
        if cs[i] == c {
            return Some(i);
        }
        i += 1;
    }
    None
}

fn find_last(cs: &Vec<char>, c: char) -> (r: Option<usize>)
    ensures
        match r {
            Some(i) => last_at(cs@, c, i as int),
            None => !has_char(cs@, c),
        },
{
    let mut k: usize = cs.len();
    while k > 0
        invariant
            k <= cs@.len(),
            forall|j: int| k <= j < cs@.len() ==> cs@[j] != c,
        decreases k,
    {
        if cs[k - 1] == c {
            return Some(k - 1);
        }
        k -= 1;
    }
    None
}

/// First position of `c` in `s` (meaningful when `c` occurs).
pub open spec fn first_index(s: Seq<char>, c: char) -> int {
    choose|i: int| first_at(s, c, i)
}

/// Last position of `c` in `s` (meaningful when `c` occurs).
pub open spec fn last_index(s: Seq<char>, c: char) -> int {
    choose|i: int| last_at(s, c, i)
}

/// The part of `t` from the first `open` to the last `close`, both included; else the
/// message of the way it is missing.
pub open spec fn window(
    t: Seq<char>,
    open: char,
    close: char,
    missing: Seq<char>,
    missing_end: Seq<char>,
    bad_bounds: Seq<char>,
) -> Result<Seq<char>, Seq<char>> {
    if !has_char(t, open) {
        Err(missing)
    } else if !has_char(t, close) {
        Err(missing_end)
    } else if last_index(t, close) < first_index(t, open) {
        Err(bad_bounds)
    } else {
        Ok(t.subrange(first_index(t, open), last_index(t, close) + 1))
    }
}

/// The characters of `t` from the first `open` to the last `close`, both included.
fn json_window(t: &str, open: char, close: char, missing: &str, missing_end: &str, bad_bounds: &str) -> (r: Result<String, String>)
    ensures
        (match r { Ok(s) => Ok(s@), Err(m) => Err(m@) }) == window(t@, open, close, missing@, missing_end@, bad_bounds@),
{
    let cs = crate::text::chars_of(t);
    let start = match find_first(&cs, open) {
        Some(i) => i,
        None => {
            return Err(owned(missing));
        },
    };
    let end = match find_last(&cs, close) {
        Some(j) => j,
        None => {
            proof {
                assert(cs@[start as int] == open);
            }
            return Err(owned(missing_end));
        },
    };
    proof {
        assert(has_char(t@, open)) by {
            assert(t@[start as int] == open);
        }
        assert(has_char(t@, close)) by {
            assert(t@[end as int] == close);
        }
        let i = first_index(t@, open);
        let j = last_index(t@, close);
        assert(first_at(t@, open, i));
        assert(last_at(t@, close, j));
        if i < start {
            assert(cs@[i] != open);
        }
        if start < i {
            assert(t@[start as int] != open);
        }
        if j < end {
            assert(t@[end as int] != close);
        }
        if end < j {
            assert(cs@[j] != close);
        }
        assert(i == start && j == end);
    }
    if end < start {
        return Err(owned(bad_bounds));
    }
    let n = cs.len();
    assert(end < n);
    Ok(owned(t.substring_char(start, end + 1)))
}

/// Message of a JSON text that does not parse: `prefix` and the parser's message.
pub open spec fn parse_failure(prefix: Seq<char>, kind: JsonKindView) -> Seq<char> {
    match kind {
        JsonKindView::Invalid(m) => prefix + m,
        _ => prefix,
    }
}

/// The message of a text that did not parse as wanted: `prefix`, followed by the parser's
/// message when the text is not JSON (see [`parse_failure`]).
pub fn parse_failure_message(prefix: &str, kind: &JsonKind) -> (r: String)
    ensures
        r@ == parse_failure(prefix@, kind@),
{
    match kind {
        JsonKind::Invalid(m) => join2(prefix, m.as_str()),
        _ => owned(prefix),
    }
}

/// The JSON object text in a trimmed reply: the reply when it is an object; else its window
/// from the first `{` to the last `}`, when that parses; else the failure message.
pub open spec fn object_text(t: Seq<char>) -> Result<Seq<char>, Seq<char>> {
    if json_kind_of(t) is Object {
        Ok(t)
    } else {
        match window(
            t,
            '{',
            '}',
            "LLM response missing JSON object"@,
            "LLM response missing JSON object end"@,
            "LLM response has invalid JSON object bounds"@,
        ) {
            Err(m) => Err(m),
            Ok(s) => if json_kind_of(s) is Invalid {
                Err(parse_failure("Failed to parse LLM JSON: "@, json_kind_of(s)))
            } else {
                Ok(s)
            },
        }
    }
}

/// Result views of the text finders.
pub open spec fn text_result(r: Result<String, AppError>) -> Result<Seq<char>, Seq<char>> {
    match r {
        Ok(s) => Ok(s@),
        Err(AppError::InvalidInput(m)) => Err(m@),
        Err(_) => Err(Seq::empty()),
    }
}

fn object_text_of(t: &str) -> (r: Result<String, AppError>)
    ensures
        r is Err ==> r matches Err(AppError::InvalidInput(_)),
        text_result(r) == object_text(t@),
{
    let kind = json_shape(t);
    if let JsonKind::Object { .. } = kind {
        return Ok(owned(t));
    }
    let w = json_window(
        t,
        '{',
        '}',
        "LLM response missing JSON object",
        "LLM response missing JSON object end",
        "LLM response has invalid JSON object bounds",
    );
    match w {
        Err(m) => Err(AppError::InvalidInput(m)),
        Ok(s) => {
            let k = json_shape(s.as_str());
            match k {
                JsonKind::Invalid(_) => {
                    let msg = parse_failure_message("Failed to parse LLM JSON: ", &k);
                    Err(AppError::InvalidInput(msg))
                },
                _ => Ok(s),
            }
        },
    }
}

/// The JSON object text in a model reply (see [`object_text`], on the trimmed reply); every
/// failure is `InvalidInput`. Parsing the text gives the object the reply holds.
pub fn extract_json_object_text(text: &str) -> (r: Result<String, AppError>)
    ensures
        r is Err ==> r matches Err(AppError::InvalidInput(_)),
        text_result(r) == object_text(trim_seq(text@)),
{
    object_text_of(trim_str(text))
}

/// How the caller reads a JSON text into drafts.
#[derive(Debug, Clone, Copy, PartialEq, Eq, Structural)]
pub enum DraftRead {
    /// The text is an array of drafts.
    List,
    /// The text is an object whose `neurons` member is an array of drafts.
    NeuronsList,
    /// The text is one draft object.
    Single,
}

/// How a parsed value is read into drafts: an array as a list, an object as its `neurons`
/// array when it has one and as one draft otherwise; anything else holds no draft.
pub open spec fn read_plan(kind: JsonKindView) -> Option<DraftRead> {
    match kind {
        JsonKindView::Array => Some(DraftRead::List),
        JsonKindView::Object { neurons_list } => if neurons_list {
            Some(DraftRead::NeuronsList)
        } else {
            Some(DraftRead::Single)
        },
        _ => None,
    }
}

/// How a value of shape `kind` is read into drafts (see [`read_plan`]).
pub fn read_plan_of(kind: &JsonKind) -> (r: Option<DraftRead>)
    ensures
        r == read_plan(kind@),
{
    match kind {
        JsonKind::Array => Some(DraftRead::List),
        JsonKind::Object { neurons_list } => if *neurons_list {
            Some(DraftRead::NeuronsList)
        } else {
            Some(DraftRead::Single)
        },
        _ => None,
    }
}

/// The JSON array in a trimmed reply, as the text to read and how: the reply when it is an
/// array; the reply's `neurons` member when it is an object with an array there; else the
/// window from the first `[` to the last `]`, when that parses; else the failure message.
pub open spec fn array_text(t: Seq<char>) -> Result<(Seq<char>, Option<DraftRead>), Seq<char>> {
    match json_kind_of(t) {
        JsonKindView::Array => Ok((t, Some(DraftRead::List))),
        JsonKindView::Object { neurons_list: true } => Ok((t, Some(DraftRead::NeuronsList))),
        _ => match window(
            t,
            '[',
            ']',
            "LLM response missing JSON array"@,
            "LLM response missing JSON array end"@,
            "LLM response has invalid JSON array bounds"@,
        ) {
            Err(m) => Err(m),
            Ok(s) => if json_kind_of(s) is Invalid {
                Err(parse_failure("Failed to parse LLM JSON array: "@, json_kind_of(s)))
            } else {
                Ok((s, read_plan(json_kind_of(s))))
            },
        },
    }
}

/// Result view of the array finder.
pub open spec fn array_result(r: Result<(String, Option<DraftRead>), AppError>) -> Result<(Seq<char>, Option<DraftRead>), Seq<char>> {
    match r {
        Ok(p) => Ok((p.0@, p.1)),
        Err(AppError::InvalidInput(m)) => Err(m@),
        Err(_) => Err(Seq::empty()),
    }
}

fn array_text_of(t: &str) -> (r: Result<(String, Option<DraftRead>), AppError>)
    ensures
        r is Err ==> r matches Err(AppError::InvalidInput(_)),
        array_result(r) == array_text(t@),
{
    let kind = json_shape(t);
    match kind {
        JsonKind::Array => {
            return Ok((owned(t), Some(DraftRead::List)));
        },
        JsonKind::Object { neurons_list: true } => {
            return Ok((owned(t), Some(DraftRead::NeuronsList)));
        },
        _ => {},
    }
    let w = json_window(
        t,
        '[',
        ']',
        "LLM response missing JSON array",
        "LLM response missing JSON array end",
        "LLM response has invalid JSON array bounds",
    );
    match w {
        Err(m) => Err(AppError::InvalidInput(m)),
        Ok(s) => {
            let k = json_shape(s.as_str());
            match k {
                JsonKind::Invalid(_) => {
                    let msg = parse_failure_message("Failed to parse LLM JSON array: ", &k);
                    Err(AppError::InvalidInput(msg))
                },
                _ => {
                    let p = read_plan_of(&k);
                    Ok((s, p))
                },
            }
        },
    }
}

/// The JSON array in a model reply (see [`array_text`], on the trimmed reply): the text to
/// read and how it reads into drafts; every failure is `InvalidInput`.
pub fn extract_json_array_text(text: &str) -> (r: Result<(String, Option<DraftRead>), AppError>)
    ensures
        r is Err ==> r matches Err(AppError::InvalidInput(_)),
        array_result(r) == array_text(trim_seq(text@)),
{
    array_text_of(trim_str(text))
}

} // verus!

verus! {

/// A neuron the model drafted (its suggested weight is not kept: new neurons start at 0).
#[derive(Debug, Clone, PartialEq, Eq)]
pub struct GeneratedNeuronDraft {
    pub desc: String,
    pub content: String,
    pub tool_ids: Vec<String>,
}

/// Message when the model drafted another number of neurons than asked.
pub open spec fn count_mismatch_message(expected: nat, got: nat) -> Seq<char> {
    "Expected "@ + decimal(expected) + " generated neuron(s), got "@ + decimal(got)
}

/// The first `expected` drafts of a list.
pub open spec fn kept_drafts(drafts: Seq<GeneratedNeuronDraft>, expected: usize) -> Seq<GeneratedNeuronDraft> {
    if drafts.len() > expected {
        drafts.take(expected as int)
    } else {
        drafts
    }
}

/// Some draft of the list has a blank description or content.
pub open spec fn has_blank_draft(drafts: Seq<GeneratedNeuronDraft>) -> bool {
    exists|i: int| 0 <= i < drafts.len() && (is_blank((#[trigger] drafts[i]).desc@) || is_blank(drafts[i].content@))
}

/// The drafts to keep of a non-empty list: the first `expected`, which must be exactly
/// `expected` drafts with a non-blank description and content (`NeuronBootstrapFailed`
/// otherwise).
pub fn finish_drafts(drafts: Vec<GeneratedNeuronDraft>, expected: usize) -> (r: Result<Vec<GeneratedNeuronDraft>, AppError>)
    requires
        drafts@.len() > 0,
    ensures
        kept_drafts(drafts@, expected).len() != expected ==> (r matches Err(AppError::NeuronBootstrapFailed(m))
            && m@ == count_mismatch_message(expected as nat, kept_drafts(drafts@, expected).len())),
        kept_drafts(drafts@, expected).len() == expected && has_blank_draft(kept_drafts(drafts@, expected)) ==> (r matches Err(
            AppError::NeuronBootstrapFailed(m),
        ) && m@ == "Generated neuron must have non-empty desc/content"@),
        kept_drafts(drafts@, expected).len() == expected && !has_blank_draft(kept_drafts(drafts@, expected)) ==> (r matches Ok(v)
            && v@ == kept_drafts(drafts@, expected)),
{
    let ghost kept = kept_drafts(drafts@, expected);
    let mut list = drafts;
    if list.len() > expected {
        list.truncate(expected);
    }
    assert(list@ == kept);
    if list.len() != expected {
        let mut msg = owned("Expected ");
        push_str(&mut msg, u64_to_decimal(expected as u64).as_str());
        push_str(&mut msg, " generated neuron(s), got ");
        push_str(&mut msg, u64_to_decimal(list.len() as u64).as_str());
        return Err(AppError::NeuronBootstrapFailed(msg));
    }
    let n = list.len();
    let mut i: usize = 0;
    while i < n
        invariant
            n == list@.len(),
            list@ == kept,
            kept == kept_drafts(drafts@, expected),
            kept.len() == expected,
            i <= n,
            forall|j: int| 0 <= j < i ==> !is_blank((#[trigger] list@[j]).desc@) && !is_blank(list@[j].content@),
        decreases n - i,
    {
        if str_is_blank(list[i].desc.as_str()) || str_is_blank(list[i].content.as_str()) {
            proof {
                reveal_strlit("Generated neuron must have non-empty desc/content");
                assert(is_blank(kept[i as int].desc@) || is_blank(kept[i as int].content@));
                assert(has_blank_draft(kept));
            }
            return Err(AppError::NeuronBootstrapFailed(owned("Generated neuron must have non-empty desc/content")));
        }
        i += 1;
    }
    Ok(list)
}

} // verus!

verus! {

/// Where a draft reply is looked for, in order: the whole reply, the array in it, and (when
/// one draft is asked for) the object in it.
#[derive(Debug, Clone, Copy, PartialEq, Eq, Structural)]
pub enum DraftStage {
    Whole,
    ArrayWindow,
    ObjectWindow,
}

/// Order of a stage, counted from the last.
pub open spec fn stage_rank(s: DraftStage) -> nat {
    match s {
        DraftStage::Whole => 2,
        DraftStage::ArrayWindow => 1,
        DraftStage::ObjectWindow => 0,
    }
}

/// An error by kind and message.
pub enum ErrSpec {
    Invalid(Seq<char>),
    Bootstrap(Seq<char>),
}

/// `e` is the error `s` describes.
pub open spec fn err_is(e: AppError, s: ErrSpec) -> bool {
    match s {
        ErrSpec::Invalid(m) => e matches AppError::InvalidInput(x) && x@ == m,
        ErrSpec::Bootstrap(m) => e matches AppError::NeuronBootstrapFailed(x) && x@ == m,
    }
}

/// What a draft parse asks next.
pub enum DraftStepSpec {
    /// Read `text` into drafts as `read` (the stage that found it).
    Read { text: Seq<char>, read: DraftRead, stage: DraftStage },
    /// The parse fails.
    Fail(ErrSpec),
}

/// Message when the reply holds no draft.
pub open spec fn empty_list_message() -> Seq<char> {
    "Generated neuron list was empty"@
}

/// The next text to read, looking from `stage` on in the trimmed reply `t`: the whole reply
/// when it parses into something that holds drafts; the array in the reply, unless it
/// cannot be found; and, when one draft is asked for, the object in the reply (whose
/// absence is the failure). With nothing left to look at, the list is empty.
pub open spec fn draft_step(t: Seq<char>, expected: usize, stage: DraftStage) -> DraftStepSpec
    decreases stage_rank(stage),
{
    match stage {
        DraftStage::Whole => match read_plan(json_kind_of(t)) {
            Some(rd) => DraftStepSpec::Read { text: t, read: rd, stage: DraftStage::Whole },
            None => draft_step(t, expected, DraftStage::ArrayWindow),
        },
        DraftStage::ArrayWindow => match array_text(t) {
            Ok((s, Some(rd))) => DraftStepSpec::Read { text: s, read: rd, stage: DraftStage::ArrayWindow },
            _ => draft_step(t, expected, DraftStage::ObjectWindow),
        },
        DraftStage::ObjectWindow => if expected != 1 {
            DraftStepSpec::Fail(ErrSpec::Bootstrap(empty_list_message()))
        } else {
            match object_text(t) {
                Err(m) => DraftStepSpec::Fail(ErrSpec::Invalid(m)),
                Ok(s) => match read_plan(json_kind_of(s)) {
                    Some(rd) => DraftStepSpec::Read { text: s, read: rd, stage: DraftStage::ObjectWindow },
                    None => DraftStepSpec::Fail(ErrSpec::Bootstrap(empty_list_message())),
                },
            }
        },
    }
}

/// What the caller does for a draft parse.
#[derive(Debug)]
pub enum DraftRequest {
    /// Read `text` into drafts as `read`, and hand the outcome to `absorb` (the reader's
    /// error message when the text does not read).
    Read { text: String, read: DraftRead },
    /// The parse is over.
    Done(Result<Vec<GeneratedNeuronDraft>, AppError>),
}

/// `r` is the request `s` describes.
pub open spec fn request_is(r: DraftRequest, s: DraftStepSpec) -> bool {
    match s {
        DraftStepSpec::Read { text, read, .. } => r matches DraftRequest::Read { text: x, read: y } && x@ == text
            && y == read,
        DraftStepSpec::Fail(e) => r matches DraftRequest::Done(Err(x)) && err_is(x, e),
    }
}

/// What [`finish_drafts`] answers for a non-empty list.
pub open spec fn finish_is(drafts: Seq<GeneratedNeuronDraft>, expected: usize, r: Result<Vec<GeneratedNeuronDraft>, AppError>) -> bool {
    let kept = kept_drafts(drafts, expected);
    if kept.len() != expected {
        r matches Err(e) && err_is(e, ErrSpec::Bootstrap(count_mismatch_message(expected as nat, kept.len())))
    } else if has_blank_draft(kept) {
        r matches Err(e) && err_is(e, ErrSpec::Bootstrap("Generated neuron must have non-empty desc/content"@))
    } else {
        r matches Ok(v) && v@ == kept
    }
}

/// A parse that succeeds yields exactly the drafts asked for, each with a non-blank
/// description and content, taken in order from the front of what the reply held.
pub proof fn lemma_finished_drafts(drafts: Seq<GeneratedNeuronDraft>, expected: usize, r: Result<Vec<GeneratedNeuronDraft>, AppError>)
    requires
        finish_is(drafts, expected, r),
        r is Ok,
    ensures
        r->Ok_0@.len() == expected,
        forall|i: int| 0 <= i < expected ==> !is_blank((#[trigger] r->Ok_0@[i]).desc@) && !is_blank(r->Ok_0@[i].content@),
        forall|i: int| 0 <= i < expected ==> #[trigger] r->Ok_0@[i] == drafts[i],
{
    let kept = kept_drafts(drafts, expected);
    assert forall|i: int| 0 <= i < expected implies !is_blank((#[trigger] r->Ok_0@[i]).desc@) && !is_blank(r->Ok_0@[i].content@) by {
        if is_blank(kept[i].desc@) || is_blank(kept[i].content@) {
            assert(has_blank_draft(kept));
        }
    }
}

/// Prefix of the message when a text does not read as drafts.
pub open spec fn read_failure_prefix(read: DraftRead) -> Seq<char> {
    match read {
        DraftRead::Single => "Invalid generated neuron JSON: "@,
        _ => "Invalid generated neuron list JSON: "@,
    }
}

/// Turning a model reply into `expected` neuron drafts. The reply is looked at in stages
/// (see [`draft_step`]); at each, the caller reads the text found into drafts. The first
/// stage that yields drafts decides: the first `expected` are kept and checked
/// ([`finish_drafts`]). A text that does not read fails the parse.
pub struct DraftParse {
    trimmed: String,
    expected: usize,
    stage: DraftStage,
    read: DraftRead,
    waiting: bool,
}

impl DraftParse {
    /// The trimmed reply.
    pub closed spec fn spec_text(self) -> Seq<char> {
        self.trimmed@
    }

    /// Drafts asked for.
    pub closed spec fn spec_expected(self) -> usize {
        self.expected
    }

    /// Stage whose text the caller is reading.
    pub closed spec fn spec_stage(self) -> DraftStage {
        self.stage
    }

    /// How the caller is reading it.
    pub closed spec fn spec_read(self) -> DraftRead {
        self.read
    }

    /// Whether the parse waits for the caller's reading.
    pub closed spec fn spec_waiting(self) -> bool {
        self.waiting
    }

    fn step_from(&mut self, stage: DraftStage) -> (r: DraftRequest)
        ensures
            final(self).trimmed == old(self).trimmed,
            final(self).expected == old(self).expected,
            request_is(r, draft_step(old(self).trimmed@, old(self).expected, stage)),
            match draft_step(old(self).trimmed@, old(self).expected, stage) {
                DraftStepSpec::Read { read, stage: s, .. } => final(self).waiting && final(self).stage == s
                    && final(self).read == read,
                DraftStepSpec::Fail(_) => !final(self).waiting,
            },
        decreases stage_rank(stage),
    {
        match stage {
            DraftStage::Whole => {
                let kind = json_shape(self.trimmed.as_str());
                match read_plan_of(&kind) {
                    Some(rd) => {
                        self.stage = DraftStage::Whole;
                        self.read = rd;
                        self.waiting = true;
                        DraftRequest::Read { text: self.trimmed.clone(), read: rd }
                    },
                    None => self.step_from(DraftStage::ArrayWindow),
                }
            },
            DraftStage::ArrayWindow => {
                match array_text_of(self.trimmed.as_str()) {
                    Ok((s, Some(rd))) => {
                        self.stage = DraftStage::ArrayWindow;
                        self.read = rd;
                        self.waiting = true;
                        DraftRequest::Read { text: s, read: rd }
                    },
                    _ => self.step_from(DraftStage::ObjectWindow),
                }
            },
            DraftStage::ObjectWindow => {
                if self.expected != 1 {
                    self.waiting = false;
                    proof {
                        reveal_strlit("Generated neuron list was empty");
                    }
                    return DraftRequest::Done(Err(AppError::NeuronBootstrapFailed(owned("Generated neuron list was empty"))));
                }
                match object_text_of(self.trimmed.as_str()) {
                    Err(e) => {
                        self.waiting = false;
                        DraftRequest::Done(Err(e))
                    },
                    Ok(s) => {
                        let kind = json_shape(s.as_str());
                        match read_plan_of(&kind) {
                            Some(rd) => {
                                self.stage = DraftStage::ObjectWindow;
                                self.read = rd;
                                self.waiting = true;
                                DraftRequest::Read { text: s, read: rd }
                            },
                            None => {
                                self.waiting = false;
                                proof {
                                    reveal_strlit("Generated neuron list was empty");
                                }
                                DraftRequest::Done(Err(AppError::NeuronBootstrapFailed(owned("Generated neuron list was empty"))))
                            },
                        }
                    },
                }
            },
        }
    }

    /// Starts parsing a reply for `expected` drafts. Asking for none fails with
    /// `InvalidInput`; otherwise the first request looks at the whole trimmed reply on.
    pub fn start(text: &str, expected: usize) -> (r: (DraftParse, DraftRequest))
        ensures
            expected == 0 ==> (r.1 matches DraftRequest::Done(Err(e)) && err_is(e, ErrSpec::Invalid("expected draft count must be >= 1"@))
                && !r.0.spec_waiting()),
            expected > 0 ==> {
                &&& r.0.spec_text() == trim_seq(text@)
                &&& r.0.spec_expected() == expected
                &&& request_is(r.1, draft_step(trim_seq(text@), expected, DraftStage::Whole))
                &&& match draft_step(trim_seq(text@), expected, DraftStage::Whole) {
                    DraftStepSpec::Read { read, stage, .. } => r.0.spec_waiting() && r.0.spec_stage() == stage
                        && r.0.spec_read() == read,
                    DraftStepSpec::Fail(_) => !r.0.spec_waiting(),
                }
            },
    {
        let mut p = DraftParse {
            trimmed: owned(trim_str(text)),
            expected,
            stage: DraftStage::Whole,
            read: DraftRead::List,
            waiting: false,
        };
        if expected == 0 {
            proof {
                reveal_strlit("expected draft count must be >= 1");
            }
            return (p, DraftRequest::Done(Err(AppError::InvalidInput(owned("expected draft count must be >= 1")))));
        }
        let r = p.step_from(DraftStage::Whole);
        (p, r)
    }

    /// Takes the caller's reading of the requested text: its drafts, or the reader's error
    /// message. An error fails the parse (`NeuronBootstrapFailed`, with the reading's
    /// prefix); drafts finish it; no draft moves on to the next stage (after the last one,
    /// the list is empty).
    pub fn absorb(&mut self, outcome: Result<Vec<GeneratedNeuronDraft>, String>) -> (r: DraftRequest)
        requires
            old(self).spec_waiting(),
        ensures
            final(self).spec_text() == old(self).spec_text(),
            final(self).spec_expected() == old(self).spec_expected(),
            match outcome {
                Err(m) => r matches DraftRequest::Done(Err(e)) && err_is(
                    e,
                    ErrSpec::Bootstrap(read_failure_prefix(old(self).spec_read()) + m@),
                ) && !final(self).spec_waiting(),
                Ok(d) => if d@.len() > 0 {
                    (r matches DraftRequest::Done(x) && finish_is(d@, old(self).spec_expected(), x))
                        && !final(self).spec_waiting()
                } else {
                    match old(self).spec_stage() {
                        DraftStage::ObjectWindow => r matches DraftRequest::Done(Err(e)) && err_is(
                            e,
                            ErrSpec::Bootstrap(empty_list_message()),
                        ) && !final(self).spec_waiting(),
                        _ => {
                            let next = if old(self).spec_stage() == DraftStage::Whole {
                                DraftStage::ArrayWindow
                            } else {
                                DraftStage::ObjectWindow
                            };
                            &&& request_is(r, draft_step(old(self).spec_text(), old(self).spec_expected(), next))
                            &&& match draft_step(old(self).spec_text(), old(self).spec_expected(), next) {
                                DraftStepSpec::Read { read, stage, .. } => final(self).spec_waiting()
                                    && final(self).spec_stage() == stage && final(self).spec_read() == read,
                                DraftStepSpec::Fail(_) => !final(self).spec_waiting(),
                            }
                        },
                    }
                },
            },
    {
        match outcome {
            Err(m) => {
                self.waiting = false;
                let prefix = match self.read {
                    DraftRead::Single => "Invalid generated neuron JSON: ",
                    _ => "Invalid generated neuron list JSON: ",
                };
                DraftRequest::Done(Err(AppError::NeuronBootstrapFailed(join2(prefix, m.as_str()))))
            },
            Ok(d) => {
                if d.len() > 0 {
                    self.waiting = false;
                    let x = finish_drafts(d, self.expected);
                    DraftRequest::Done(x)
                } else {
                    match self.stage {
                        DraftStage::ObjectWindow => {
                            self.waiting = false;
                            proof {
                                reveal_strlit("Generated neuron list was empty");
                            }
                            DraftRequest::Done(Err(AppError::NeuronBootstrapFailed(owned("Generated neuron list was empty"))))
                        },
                        DraftStage::Whole => self.step_from(DraftStage::ArrayWindow),
                        DraftStage::ArrayWindow => self.step_from(DraftStage::ObjectWindow),
                    }
                }
            },
        }
    }
}

} // verus!

verus! {

/// A neuron model reply must say something: a blank reply fails with `LlmRequestFailed`.
pub fn check_model_output(output: &str) -> (r: Result<(), AppError>)
    ensures
        is_blank(output@) ==> (r matches Err(AppError::LlmRequestFailed(m)) && m@ == "Neuron model returned an empty response"@),
        !is_blank(output@) ==> r is Ok,
{
    if str_is_blank(output) {
        proof {
            reveal_strlit("Neuron model returned an empty response");
        }
        return Err(AppError::LlmRequestFailed(owned("Neuron model returned an empty response")));
    }
    Ok(())
}

} // verus!
