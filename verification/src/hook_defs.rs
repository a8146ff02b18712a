//! Inject point contract: `InjectPointId` cards, hook definitions and the hook registry
//! (registration, enabling, cycle values, panel snapshot and dispatch selection).
//!
//! Registration, enabling and cycle gating are separate steps: a hook is registered
//! disabled, enabled explicitly, and before each call its gate parameters are evaluated
//! against the cycle facts. Handlers are opaque to the registry (type parameter `H`).

use vstd::prelude::*;

use crate::cycle::{
    first_blocking, gate_check, invalid_message, validate_value, value_valid, CycleFacts,
    CycleParamKind, CycleParamSpec, CycleParamUsage, CycleValue, CycleValueView, CycleValues,
};
use crate::models::{copy_opt_string, copy_strings, opt_str, same_text, strs_view};
use crate::error::AppError;
use crate::text::{join2, owned, push_str};

verus! {

/// Inject point: named after the core step it follows (IP-1 … IP-5).
#[derive(Debug, Clone, Copy, PartialEq, Eq, Structural)]
pub enum InjectPointId {
    /// After step ① load_context (IP-1).
    AfterLoadContext,
    /// After step ② assemble + persist_input (IP-2).
    AfterPersistInput,
    /// After step ③ call_model (IP-3).
    AfterCallModel,
    /// After step ④ execute_tools (IP-4).
    AfterExecuteTools,
    /// After step ⑤ persist_outcome (IP-5).
    AfterPersistOutcome,
}

impl InjectPointId {
    /// Wire name.
    pub open spec fn spec_name(self) -> Seq<char> {
        match self {
            InjectPointId::AfterLoadContext => "after_load_context"@,
            InjectPointId::AfterPersistInput => "after_persist_input"@,
            InjectPointId::AfterCallModel => "after_call_model"@,
            InjectPointId::AfterExecuteTools => "after_execute_tools"@,
            InjectPointId::AfterPersistOutcome => "after_persist_outcome"@,
        }
    }

    /// "after_load_context" … "after_persist_outcome".
    pub fn as_str(&self) -> (r: &'static str)
        ensures
            r@ == self.spec_name(),
    {
        proof {
            reveal_strlit("after_load_context");
            reveal_strlit("after_persist_input");
            reveal_strlit("after_call_model");
            reveal_strlit("after_execute_tools");
            reveal_strlit("after_persist_outcome");
        }
        match self {
            InjectPointId::AfterLoadContext => "after_load_context",
            InjectPointId::AfterPersistInput => "after_persist_input",
            InjectPointId::AfterCallModel => "after_call_model",
            InjectPointId::AfterExecuteTools => "after_execute_tools",
            InjectPointId::AfterPersistOutcome => "after_persist_outcome",
        }
    }
}

/// A hook definition: identity, panel grouping, disable hint, cycle tunables and handler.
pub struct HookDef<H> {
    pub id: String,
    pub label: String,
    pub inject_point: InjectPointId,
    pub handler: H,
    /// Panel group (an open i18n key).
    pub group: String,
    /// Disable risk hint (i18n key); shown by the panel only, never enforced.
    pub disable_hint: Option<String>,
    /// Tunable declarations (defaults = current behavior).
    pub cycle_params: Vec<CycleParamSpec>,
}

/// Registration / enabling / value errors.
#[derive(Debug, Clone, PartialEq, Eq)]
pub enum RegisterError {
    /// The id is already registered.
    DuplicateId(String),
    /// The id is not registered.
    UnknownId(String),
    /// The parameter key is not declared by the hook (`"<id>.<key>"`).
    UnknownParam(String),
    /// The value does not fit the declaration.
    InvalidParam(String),
}

impl RegisterError {
    /// Human-readable message.
    pub open spec fn spec_message(self) -> Seq<char> {
        match self {
            RegisterError::DuplicateId(id) => "hook id already registered: "@ + id@,
            RegisterError::UnknownId(id) => "hook id not registered: "@ + id@,
            RegisterError::UnknownParam(key) => "hook param not declared: "@ + key@,
            RegisterError::InvalidParam(msg) => "invalid hook param: "@ + msg@,
        }
    }

    /// The error's message text.
    pub fn message(&self) -> (r: String)
        ensures
            r@ == self.spec_message(),
    {
        proof {
            reveal_strlit("hook id already registered: ");
            reveal_strlit("hook id not registered: ");
            reveal_strlit("hook param not declared: ");
            reveal_strlit("invalid hook param: ");
        }
        match self {
            RegisterError::DuplicateId(id) => join2("hook id already registered: ", id.as_str()),
            RegisterError::UnknownId(id) => join2("hook id not registered: ", id.as_str()),
            RegisterError::UnknownParam(key) => join2("hook param not declared: ", key.as_str()),
            RegisterError::InvalidParam(msg) => join2("invalid hook param: ", msg.as_str()),
        }
    }
}

/// Parameter shape, as shown by the panel.
#[derive(Debug, Clone, PartialEq, Eq)]
pub enum HookParamKindView {
    Enum { values: Vec<String>, multi: bool },
    Bool,
    Number { min: i64, max: i64 },
}

/// Parameter as shown by the panel: declaration and current value.
#[derive(Debug, Clone, PartialEq, Eq)]
pub struct HookParamView {
    pub key: String,
    pub label: String,
    /// `"call_gate"` or `"internal"`.
    pub usage: String,
    pub kind: HookParamKindView,
    pub default: CycleValue,
    pub value: CycleValue,
}

/// Panel entry, derived entirely from the definition and the effective values.
#[derive(Debug, Clone, PartialEq, Eq)]
pub struct HookEntry {
    pub id: String,
    pub label: String,
    pub group: String,
    pub inject_point: String,
    pub enabled: bool,
    /// Disable hint; `None` = no hint. Never blocks disabling.
    pub disable_hint: Option<String>,
    pub params: Vec<HookParamView>,
}

/// A registered hook: definition, enabled flag and effective values.
pub struct RegisteredHook<H> {
    pub def: HookDef<H>,
    pub enabled: bool,
    pub values: CycleValues,
}

/// A hook armed for dispatch: what the dispatcher needs outside the registry (its
/// registration index, id, handler and a copy of its values at snapshot time).
pub struct ArmedHook<H> {
    pub index: usize,
    pub id: String,
    pub inject_point: InjectPointId,
    pub handler: H,
    pub values: CycleValues,
}

/// Hook registry: hooks in registration order; within an inject point they run in
/// registration order.
pub struct HookRegistry<H> {
    hooks: Vec<RegisteredHook<H>>,
}

/// The defaults of `params`, in declaration order (later keys override earlier ones).
pub open spec fn defaults_lookup(params: Seq<CycleParamSpec>, key: Seq<char>) -> Option<
    CycleValueView,
>
    decreases params.len(),
{
    if params.len() == 0 {
        None
    } else if params.last().key@ == key {
        Some(params.last().default@)
    } else {
        defaults_lookup(params.drop_last(), key)
    }
}

/// Index of the first declaration with `key` (the length when there is none).
pub open spec fn param_index(params: Seq<CycleParamSpec>, key: Seq<char>) -> int
    decreases params.len(),
{
    if params.len() == 0 {
        0
    } else if params[0].key@ == key {
        0
    } else {
        1 + param_index(params.drop_first(), key)
    }
}

proof fn lemma_param_index(params: Seq<CycleParamSpec>, key: Seq<char>, i: int)
    requires
        0 <= i <= params.len(),
        forall|j: int| 0 <= j < i ==> (#[trigger] params[j]).key@ != key,
        i < params.len() ==> params[i].key@ == key,
    ensures
        param_index(params, key) == i,
    decreases i,
{
    if i > 0 {
        let t = params.drop_first();
        assert forall|j: int| 0 <= j < i - 1 implies (#[trigger] t[j]).key@ != key by {
            assert(t[j] == params[j + 1]);
        }
        lemma_param_index(t, key, i - 1);
    }
}

impl<H> HookRegistry<H> {
    /// The registered hooks, in registration order.
    pub closed spec fn spec_hooks(self) -> Seq<RegisteredHook<H>> {
        self.hooks@
    }

    /// Every registry keeps its ids distinct.
    #[verifier::type_invariant]
    spec fn inv(self) -> bool {
        self.wf()
    }

    /// Number of registered hooks.
    pub fn len(&self) -> (r: usize)
        ensures
            r == self.spec_hooks().len(),
    {
        self.hooks.len()
    }

    /// Registered ids are distinct.
    pub open spec fn wf(self) -> bool {
        forall|i: int, j: int|
            0 <= i < j < self.spec_hooks().len() ==> (#[trigger] self.spec_hooks()[i]).def.id@ != (
            #[trigger] self.spec_hooks()[j]).def.id@
    }

    /// Index of the hook registered under `id`, if any.
    pub open spec fn index_of(self, id: Seq<char>) -> Option<int> {
        if exists|i: int| 0 <= i < self.spec_hooks().len() && (#[trigger] self.spec_hooks()[i]).def.id@ == id {
            Some(choose|i: int| 0 <= i < self.spec_hooks().len() && (#[trigger] self.spec_hooks()[i]).def.id@ == id)
        } else {
            None
        }
    }

    /// Whether `id` is registered.
    pub open spec fn spec_registered(self, id: Seq<char>) -> bool {
        self.index_of(id) is Some
    }

    /// Whether `id` is registered and enabled.
    pub open spec fn spec_enabled(self, id: Seq<char>) -> bool {
        match self.index_of(id) {
            Some(i) => self.spec_hooks()[i].enabled,
            None => false,
        }
    }

    /// Effective value of parameter `key` of hook `id`.
    pub open spec fn spec_param(self, id: Seq<char>, key: Seq<char>) -> Option<CycleValueView> {
        match self.index_of(id) {
            Some(i) => self.spec_hooks()[i].values.lookup(key),
            None => None,
        }
    }

    /// An empty registry.
    pub fn new() -> (r: HookRegistry<H>)
        ensures
            r.wf(),
            r.spec_hooks().len() == 0,
    {
        HookRegistry { hooks: Vec::new() }
    }

    fn find(&self, id: &String) -> (r: Option<usize>)
        requires
            self.wf(),
        ensures
            match r {
                Some(i) => i < self.spec_hooks().len() && self.spec_hooks()[i as int].def.id@ == id@
                    && self.index_of(id@) == Some(i as int),
                None => self.index_of(id@) is None,
            },
    {
        let mut i: usize = 0;
        while i < self.hooks.len()
            invariant
                self.wf(),
                i <= self.spec_hooks().len(),
                forall|j: int| 0 <= j < i ==> (#[trigger] self.spec_hooks()[j]).def.id@ != id@,
            decreases self.spec_hooks().len() - i,
        {
            if same_text(&self.hooks[i].def.id, id) {
                proof {
                    let k = choose|k: int|
                        0 <= k < self.spec_hooks().len() && (#[trigger] self.spec_hooks()[k]).def.id@ == id@;
                    assert(k == i);
                }
                return Some(i);
            }
            i += 1;
        }
        None
    }

    /// Registers `def` disabled, at the end of its inject point's order, with every cycle
    /// value at its declared default; a duplicate id is refused.
    pub fn register(&mut self, def: HookDef<H>) -> (r: Result<(), RegisterError>)
        ensures
            final(self).wf(),
            old(self).spec_registered(def.id@) ==> (r matches Err(RegisterError::DuplicateId(id))
                && id@ == def.id@ && final(self).spec_hooks() == old(self).spec_hooks()),
            !old(self).spec_registered(def.id@) ==> {
                &&& r is Ok
                &&& final(self).spec_hooks().len() == old(self).spec_hooks().len() + 1
                &&& forall|i: int|
                    0 <= i < old(self).spec_hooks().len() ==> final(self).spec_hooks()[i] == old(self).spec_hooks()[i]
                &&& final(self).spec_hooks().last().def == def
                &&& !final(self).spec_hooks().last().enabled
                &&& forall|k: Seq<char>|
                    #![trigger final(self).spec_hooks().last().values.lookup(k)]
                    final(self).spec_hooks().last().values.lookup(k) == defaults_lookup(def.cycle_params@, k)
            },
    {
        proof {
            use_type_invariant(&*self);
        }
        if let Some(_) = self.find(&def.id) {
            return Err(RegisterError::DuplicateId(def.id.clone()));
        }
        let mut values = CycleValues::new();
        for i in 0..def.cycle_params.len()
            invariant
                forall|k: Seq<char>|
                    #![trigger values.lookup(k)]
                    values.lookup(k) == defaults_lookup(def.cycle_params@.take(i as int), k),
        {
            let spec = &def.cycle_params[i];
            values.insert(spec.key.clone(), spec.default.copy());
            proof {
                assert(def.cycle_params@.take(i + 1).drop_last() =~= def.cycle_params@.take(
                    i as int,
                ));
            }
        }
        proof {
            assert(def.cycle_params@.take(def.cycle_params@.len() as int) =~= def.cycle_params@);
        }
        let ghost before = self.spec_hooks();
        let mut hooks: Vec<RegisteredHook<H>> = Vec::new();
        std::mem::swap(&mut hooks, &mut self.hooks);
        hooks.push(RegisteredHook { def, enabled: false, values });
        proof {
            assert forall|i: int, j: int|
                0 <= i < j < hooks@.len() implies (#[trigger] hooks@[i]).def.id@ != (
                #[trigger] hooks@[j]).def.id@ by {
                if j == before.len() {
                    assert(hooks@[i] == before[i]);
                }
            }
        }
        self.hooks = hooks;
        Ok(())
    }

    /// Enables or disables a registered hook (no hook is protected); unknown ids are an error.
    pub fn set_enabled(&mut self, id: &String, on: bool) -> (r: Result<(), RegisterError>)
        ensures
            final(self).wf(),
            r is Ok <==> old(self).spec_registered(id@),
            r matches Err(e) ==> e matches RegisterError::UnknownId(u) && u@ == id@,
            r is Ok ==> final(self).spec_enabled(id@) == on,
            forall|other: Seq<char>|
                other != id@ ==> final(self).spec_enabled(other) == old(self).spec_enabled(other),
            forall|x: Seq<char>|
                #![trigger final(self).spec_registered(x)]
                final(self).spec_registered(x) == old(self).spec_registered(x),
            forall|x: Seq<char>, k: Seq<char>|
                #![trigger final(self).spec_param(x, k)]
                final(self).spec_param(x, k) == old(self).spec_param(x, k),
            final(self).spec_hooks().len() == old(self).spec_hooks().len(),
            forall|j: int| 0 <= j < old(self).spec_hooks().len() ==> (#[trigger] final(self).spec_hooks()[j]).def == old(self).spec_hooks()[j].def,
            r is Err ==> *final(self) == *old(self),
    {
        proof {
            use_type_invariant(&*self);
        }
        match self.find(id) {
            Some(i) => {
                let ghost before = *self;
                let mut hooks: Vec<RegisteredHook<H>> = Vec::new();
                std::mem::swap(&mut hooks, &mut self.hooks);
                let mut hook = hooks.remove(i);
                hook.enabled = on;
                hooks.insert(i, hook);
                proof {
                    let after = HookRegistry { hooks };
                    assert forall|j: int| 0 <= j < hooks@.len() implies (#[trigger] hooks@[j]).def.id@
                        == before.spec_hooks()[j].def.id@ by {}
                    lemma_same_ids(before, after);
                }
                self.hooks = hooks;
                proof {
                    assert forall|j: int| 0 <= j < self.spec_hooks().len() && j != i implies self.spec_hooks()[j]
                        == before.spec_hooks()[j] by {}
                    assert forall|j: int|
                        0 <= j < self.spec_hooks().len() implies (#[trigger] self.spec_hooks()[j]).def.id@
                        == before.spec_hooks()[j].def.id@ by {}
                    lemma_same_ids(before, *self);
                }
                Ok(())
            },
            None => Err(RegisterError::UnknownId(id.clone())),
        }
    }

    /// Whether `id` is registered and enabled (unregistered counts as disabled).
    pub fn is_enabled(&self, id: &String) -> (r: bool)
        ensures
            r == self.spec_enabled(id@),
    {
        proof {
            use_type_invariant(&*self);
        }
        match self.find(id) {
            Some(i) => self.hooks[i].enabled,
            None => false,
        }
    }

    /// Whether `id` is registered, enabled or not.
    pub fn is_registered(&self, id: &String) -> (r: bool)
        ensures
            r == self.spec_registered(id@),
    {
        proof {
            use_type_invariant(&*self);
        }
        self.find(id).is_some()
    }

    /// The effective value of parameter `key` of hook `id`.
    pub fn param_of(&self, id: &String, key: &String) -> (r: Option<CycleValue>)
        ensures
            match r {
                Some(v) => self.spec_param(id@, key@) == Some(v@),
                None => self.spec_param(id@, key@) is None,
            },
    {
        proof {
            use_type_invariant(&*self);
        }
        match self.find(id) {
            Some(i) => match self.hooks[i].values.get(key) {
                Some(v) => Some(v.copy()),
                None => None,
            },
            None => None,
        }
    }

    /// Sets a parameter value after checking it against the hook's declaration.
    pub fn set_value(&mut self, id: &String, key: &String, value: CycleValue) -> (r: Result<
        (),
        RegisterError,
    >)
        ensures
            final(self).wf(),
            !old(self).spec_registered(id@) ==> (r matches Err(RegisterError::UnknownId(u)) && u@
                == id@),
            old(self).spec_registered(id@) ==> ({
                let h = old(self).spec_hooks()[old(self).index_of(id@)->0];
                let params = h.def.cycle_params@;
                let pi = param_index(params, key@);
                if pi == params.len() {
                    r matches Err(RegisterError::UnknownParam(m)) && m@ == id@ + "."@ + key@
                } else if !value_valid(params[pi].kind, value@) {
                    r matches Err(RegisterError::InvalidParam(m)) && m@ == invalid_message(
                        params[pi].key@,
                        params[pi].kind,
                        value@,
                    )
                } else {
                    r is Ok
                }
            }),
            r is Ok ==> final(self).spec_param(id@, key@) == Some(value@),
            forall|x: Seq<char>, k: Seq<char>|
                #![trigger final(self).spec_param(x, k)]
                !(x == id@ && k == key@) ==> final(self).spec_param(x, k) == old(self).spec_param(
                    x,
                    k,
                ),
            forall|x: Seq<char>|
                #![trigger final(self).spec_enabled(x)]
                final(self).spec_enabled(x) == old(self).spec_enabled(x),
            forall|x: Seq<char>|
                #![trigger final(self).spec_registered(x)]
                final(self).spec_registered(x) == old(self).spec_registered(x),
            final(self).spec_hooks().len() == old(self).spec_hooks().len(),
            forall|j: int| 0 <= j < old(self).spec_hooks().len() ==> (#[trigger] final(self).spec_hooks()[j]).def == old(self).spec_hooks()[j].def,
            r is Err ==> *final(self) == *old(self),
    {
        proof {
            use_type_invariant(&*self);
        }
        let i = match self.find(id) {
            Some(i) => i,
            None => {
                return Err(RegisterError::UnknownId(id.clone()));
            },
        };
        let ghost params = self.spec_hooks()[i as int].def.cycle_params@;
        let p = find_param(&self.hooks[i].def.cycle_params, key);
        proof {
            reveal_strlit(".");
        }
        if p == self.hooks[i].def.cycle_params.len() {
            let mut m = id.clone();
            push_str(&mut m, ".");
            push_str(&mut m, key.as_str());
            return Err(RegisterError::UnknownParam(m));
        }
        match validate_value(&self.hooks[i].def.cycle_params[p], &value) {
            Err(msg) => {
                return Err(RegisterError::InvalidParam(msg));
            },
            Ok(()) => {},
        }
        let spec_key = self.hooks[i].def.cycle_params[p].key.clone();
        assert(spec_key@ == key@);
        let ghost before = *self;
        let mut hooks: Vec<RegisteredHook<H>> = Vec::new();
        std::mem::swap(&mut hooks, &mut self.hooks);
        let mut hook = hooks.remove(i);
        hook.values.insert(spec_key, value);
        hooks.insert(i, hook);
        proof {
            let after = HookRegistry { hooks };
            assert forall|j: int| 0 <= j < hooks@.len() implies (#[trigger] hooks@[j]).def.id@
                == before.spec_hooks()[j].def.id@ by {}
            lemma_same_ids(before, after);
        }
        self.hooks = hooks;
        proof {
            assert forall|j: int| 0 <= j < self.spec_hooks().len() && j != i implies self.spec_hooks()[j]
                == before.spec_hooks()[j] by {}
            assert forall|j: int|
                0 <= j < self.spec_hooks().len() implies (#[trigger] self.spec_hooks()[j]).def.id@
                == before.spec_hooks()[j].def.id@ by {}
            lemma_same_ids(before, *self);
            assert(self.index_of(id@) == Some(i as int));
        }
        Ok(())
    }

    /// Hooks of `point` that are enabled, in registration order, with copies of their values.
    pub fn snapshot(&self, point: InjectPointId) -> (r: Vec<ArmedHook<H>>)
        where
            H: Clone,
        ensures
            r@.len() == armed_count(self.spec_hooks(), point),
            forall|j: int|
                0 <= j < r@.len() ==> armed_entry(
                    #[trigger] r@[j],
                    self.spec_hooks()[armed_index(self.spec_hooks(), point, j)],
                ) && r@[j].index == armed_index(self.spec_hooks(), point, j),
    {
        let mut out: Vec<ArmedHook<H>> = Vec::new();
        for i in 0..self.hooks.len()
            invariant
                out@.len() == armed_count(self.spec_hooks().take(i as int), point),
                forall|j: int|
                    0 <= j < out@.len() ==> armed_entry(
                        #[trigger] out@[j],
                        self.spec_hooks()[armed_index(self.spec_hooks().take(i as int), point, j)],
                    ) && out@[j].index == armed_index(self.spec_hooks().take(i as int), point, j),
        {
            let h = &self.hooks[i];
            proof {
                lemma_armed_step(self.spec_hooks(), i as int, point);
                assert forall|j: int| 0 <= j < out@.len() implies #[trigger] armed_index(
                    self.spec_hooks().take(i + 1),
                    point,
                    j,
                ) == armed_index(self.spec_hooks().take(i as int), point, j) by {}
            }
            if h.enabled && h.def.inject_point == point {
                out.push(
                    ArmedHook {
                        index: i,
                        id: h.def.id.clone(),
                        inject_point: h.def.inject_point,
                        handler: h.def.handler.clone(),
                        values: clone_values(&h.values),
                    },
                );
            }
        }
        proof {
            assert(self.spec_hooks().take(self.spec_hooks().len() as int) =~= self.spec_hooks());
        }
        out
    }

    /// Panel snapshot: one entry per registered hook, ordered by id.
    pub fn snapshot_all(&self) -> (r: Vec<HookEntry>)
        ensures
            r@.len() == self.spec_hooks().len(),
            forall|a: int, b: int|
                0 <= a < b < r@.len() ==> text_lt((#[trigger] r@[a]).id@, (#[trigger] r@[b]).id@),
            forall|j: int| 0 <= j < r@.len() ==> entry_of_some(#[trigger] r@[j], self.spec_hooks()),
    {
        proof {
            use_type_invariant(&*self);
        }
        let mut out: Vec<HookEntry> = Vec::new();
        let ghost mut src: Seq<int> = seq![];
        for i in 0..self.hooks.len()
            invariant
                self.wf(),
                out@.len() == i,
                src.len() == i,
                forall|a: int, b: int|
                    0 <= a < b < out@.len() ==> text_lt(
                        (#[trigger] out@[a]).id@,
                        (#[trigger] out@[b]).id@,
                    ),
                forall|j: int|
                    0 <= j < out@.len() ==> 0 <= #[trigger] src[j] < i && entry_of(
                        out@[j],
                        self.spec_hooks()[src[j]],
                    ),
                forall|j: int| 0 <= j < out@.len() ==> #[trigger] src[j] < self.spec_hooks().len(),
        {
            let entry = entry_for(&self.hooks[i]);
            let mut pos: usize = 0;
            while pos < out.len() && text_less(&out[pos].id, &entry.id)
                invariant
                    pos <= out@.len(),
                    forall|a: int| 0 <= a < pos ==> text_lt((#[trigger] out@[a]).id@, entry.id@),
                decreases out@.len() - pos,
            {
                pos += 1;
            }
            proof {
                assert forall|a: int| pos <= a < out@.len() implies text_lt(
                    entry.id@,
                    (#[trigger] out@[a]).id@,
                ) by {
                    let k = src[a];
                    assert(entry_of(out@[a], self.spec_hooks()[k]));
                    assert(self.spec_hooks()[k].def.id@ != self.spec_hooks()[i as int].def.id@);
                    if a > pos {
                        let k0 = src[pos as int];
                        assert(entry_of(out@[pos as int], self.spec_hooks()[k0]));
                        assert(self.spec_hooks()[k0].def.id@ != self.spec_hooks()[i as int].def.id@);
                        assert(text_lt(out@[pos as int].id@, out@[a].id@));
                        lemma_text_lt_total(entry.id@, out@[pos as int].id@);
                        lemma_text_lt_trans(entry.id@, out@[pos as int].id@, out@[a].id@);
                    } else {
                        lemma_text_lt_total(entry.id@, out@[a].id@);
                    }
                }
            }
            let ghost before = out@;
            let ghost before_src = src;
            out.insert(pos, entry);
            proof {
                src = before_src.insert(pos as int, i as int);
                assert forall|a: int, b: int|
                    0 <= a < b < out@.len() implies text_lt(
                        (#[trigger] out@[a]).id@,
                        (#[trigger] out@[b]).id@,
                    ) by {
                    if a < pos && b < pos {
                        assert(out@[a] == before[a] && out@[b] == before[b]);
                    } else if a < pos && b == pos {
                        assert(out@[a] == before[a]);
                    } else if a < pos && b > pos {
                        assert(out@[a] == before[a] && out@[b] == before[b - 1]);
                        lemma_text_lt_trans(before[a].id@, entry.id@, before[b - 1].id@);
                    } else if a == pos {
                        assert(out@[b] == before[b - 1]);
                    } else {
                        assert(out@[a] == before[a - 1] && out@[b] == before[b - 1]);
                    }
                }
                assert forall|j: int| 0 <= j < out@.len() implies 0 <= #[trigger] src[j] < i + 1
                    && entry_of(out@[j], self.spec_hooks()[src[j]]) && src[j] < self.spec_hooks().len() by {
                    if j < pos {
                        assert(out@[j] == before[j] && src[j] == before_src[j]);
                    } else if j == pos {
                    } else {
                        assert(out@[j] == before[j - 1] && src[j] == before_src[j - 1]);
                    }
                }
            }
        }
        proof {
            assert forall|j: int| 0 <= j < out@.len() implies entry_of_some(
                #[trigger] out@[j],
                self.spec_hooks(),
            ) by {
                let k = src[j];
                assert(0 <= k < self.spec_hooks().len() && entry_of(out@[j], self.spec_hooks()[k]));
            }
        }
        out
    }
}

/// Position of the declaration with `key`.
fn find_param(params: &Vec<CycleParamSpec>, key: &String) -> (r: usize)
    ensures
        r <= params@.len(),
        r == param_index(params@, key@),
        r < params@.len() ==> params@[r as int].key@ == key@,
{
    let mut p: usize = 0;
    while p < params.len()
        invariant
            p <= params@.len(),
            forall|j: int| 0 <= j < p ==> (#[trigger] params@[j]).key@ != key@,
        decreases params@.len() - p,
    {
        if same_text(&params[p].key, key) {
            proof {
                lemma_param_index(params@, key@, p as int);
            }
            return p;
        }
        p += 1;
    }
    proof {
        lemma_param_index(params@, key@, p as int);
    }
    p
}

proof fn lemma_same_ids<H>(a: HookRegistry<H>, b: HookRegistry<H>)
    requires
        a.wf(),
        a.spec_hooks().len() == b.spec_hooks().len(),
        forall|j: int| 0 <= j < b.spec_hooks().len() ==> (#[trigger] b.spec_hooks()[j]).def.id@ == a.spec_hooks()[j].def.id@,
    ensures
        b.wf(),
        forall|x: Seq<char>| #![trigger b.index_of(x)] b.index_of(x) == a.index_of(x),
{
    assert forall|i: int, j: int|
        0 <= i < j < b.spec_hooks().len() implies (#[trigger] b.spec_hooks()[i]).def.id@ != (
        #[trigger] b.spec_hooks()[j]).def.id@ by {
        assert(a.spec_hooks()[i].def.id@ != a.spec_hooks()[j].def.id@);
    }
    assert forall|x: Seq<char>| #![trigger b.index_of(x)] b.index_of(x) == a.index_of(x) by {
        if exists|i: int| 0 <= i < a.spec_hooks().len() && (#[trigger] a.spec_hooks()[i]).def.id@ == x {
            let i = choose|i: int| 0 <= i < a.spec_hooks().len() && (#[trigger] a.spec_hooks()[i]).def.id@ == x;
            assert(b.spec_hooks()[i].def.id@ == x);
            let k = choose|k: int| 0 <= k < b.spec_hooks().len() && (#[trigger] b.spec_hooks()[k]).def.id@ == x;
            assert(a.spec_hooks()[k].def.id@ == x);
        }
        if exists|i: int| 0 <= i < b.spec_hooks().len() && (#[trigger] b.spec_hooks()[i]).def.id@ == x {
            let i = choose|i: int| 0 <= i < b.spec_hooks().len() && (#[trigger] b.spec_hooks()[i]).def.id@ == x;
            assert(a.spec_hooks()[i].def.id@ == x);
        }
    }
}

/// Whether hook `h` is armed at `point`.
pub open spec fn is_armed<H>(h: RegisteredHook<H>, point: InjectPointId) -> bool {
    h.enabled && h.def.inject_point == point
}

/// Number of hooks armed at `point`.
pub open spec fn armed_count<H>(hooks: Seq<RegisteredHook<H>>, point: InjectPointId) -> nat
    decreases hooks.len(),
{
    if hooks.len() == 0 {
        0
    } else {
        armed_count(hooks.drop_last(), point) + if is_armed(hooks.last(), point) {
            1nat
        } else {
            0nat
        }
    }
}

/// Index in `hooks` of the `j`-th hook armed at `point`.
pub open spec fn armed_index<H>(hooks: Seq<RegisteredHook<H>>, point: InjectPointId, j: int) -> int
    decreases hooks.len(),
{
    if hooks.len() == 0 {
        0
    } else if j == armed_count(hooks.drop_last(), point) && is_armed(hooks.last(), point) {
        hooks.len() - 1
    } else {
        armed_index(hooks.drop_last(), point, j)
    }
}

proof fn lemma_armed_index<H>(hooks: Seq<RegisteredHook<H>>, point: InjectPointId, j: int)
    requires
        0 <= j < armed_count(hooks, point),
    ensures
        0 <= armed_index(hooks, point, j) < hooks.len(),
        is_armed(hooks[armed_index(hooks, point, j)], point),
    decreases hooks.len(),
{
    if !(j == armed_count(hooks.drop_last(), point) && is_armed(hooks.last(), point)) {
        lemma_armed_index(hooks.drop_last(), point, j);
    }
}

proof fn lemma_armed_step<H>(hooks: Seq<RegisteredHook<H>>, i: int, point: InjectPointId)
    requires
        0 <= i < hooks.len(),
    ensures
        hooks.take(i + 1).drop_last() == hooks.take(i),
        hooks.take(i + 1).last() == hooks[i],
{
    assert(hooks.take(i + 1).drop_last() =~= hooks.take(i));
}

/// `a` is the armed copy of `h`.
pub open spec fn armed_entry<H>(a: ArmedHook<H>, h: RegisteredHook<H>) -> bool {
    &&& a.id@ == h.def.id@
    &&& a.inject_point == h.def.inject_point
    &&& forall|k: Seq<char>| #![trigger a.values.lookup(k)] a.values.lookup(k) == h.values.lookup(k)
}

proof fn lemma_lookup_views(e1: Seq<(String, CycleValue)>, e2: Seq<(String, CycleValue)>, k: Seq<char>)
    requires
        e1.len() == e2.len(),
        forall|i: int| 0 <= i < e1.len() ==> (#[trigger] e1[i]).0@ == e2[i].0@ && e1[i].1@ == e2[i].1@,
    ensures
        crate::cycle::lookup_in(e1, k) == crate::cycle::lookup_in(e2, k),
    decreases e1.len(),
{
    if e1.len() > 0 {
        let t1 = e1.drop_first();
        let t2 = e2.drop_first();
        assert forall|i: int| 0 <= i < t1.len() implies (#[trigger] t1[i]).0@ == t2[i].0@ && t1[i].1@
            == t2[i].1@ by {
            assert(t1[i] == e1[i + 1] && t2[i] == e2[i + 1]);
        }
        lemma_lookup_views(t1, t2, k);
    }
}

/// A copy of `v` with the same lookups.
pub fn clone_values(v: &CycleValues) -> (r: CycleValues)
    ensures
        forall|k: Seq<char>| #![trigger r.lookup(k)] r.lookup(k) == v.lookup(k),
{
    let mut entries: Vec<(String, CycleValue)> = Vec::new();
    for i in 0..v.entries.len()
        invariant
            entries@.len() == i,
            forall|j: int|
                0 <= j < i ==> (#[trigger] entries@[j]).0@ == v.entries@[j].0@ && entries@[j].1@
                    == v.entries@[j].1@,
    {
        entries.push((v.entries[i].0.clone(), v.entries[i].1.copy()));
    }
    let r = CycleValues { entries };
    proof {
        assert forall|k: Seq<char>| #![trigger r.lookup(k)] r.lookup(k) == v.lookup(k) by {
            lemma_lookup_views(r.entries@, v.entries@, k);
        }
    }
    r
}

/// `a` sorts strictly before `b`, comparing characters from position `k` on.
pub open spec fn lt_from(a: Seq<char>, b: Seq<char>, k: int) -> bool
    decreases a.len() - k,
{
    if k < 0 || k >= b.len() {
        false
    } else if k >= a.len() {
        true
    } else if (a[k] as u32) < (b[k] as u32) {
        true
    } else if (a[k] as u32) > (b[k] as u32) {
        false
    } else {
        lt_from(a, b, k + 1)
    }
}

/// Lexicographic order of texts by code point (the order of `String`'s `cmp`).
pub open spec fn text_lt(a: Seq<char>, b: Seq<char>) -> bool {
    lt_from(a, b, 0)
}

proof fn lemma_lt_from_trans(a: Seq<char>, b: Seq<char>, c: Seq<char>, k: int)
    requires
        0 <= k,
        lt_from(a, b, k),
        lt_from(b, c, k),
    ensures
        lt_from(a, c, k),
    decreases a.len() - k,
{
    if k < a.len() && (a[k] as u32) == (b[k] as u32) && (b[k] as u32) == (c[k] as u32) {
        lemma_lt_from_trans(a, b, c, k + 1);
    }
}

proof fn lemma_text_lt_trans(a: Seq<char>, b: Seq<char>, c: Seq<char>)
    requires
        text_lt(a, b),
        text_lt(b, c),
    ensures
        text_lt(a, c),
{
    lemma_lt_from_trans(a, b, c, 0);
}

proof fn lemma_char_u32_injective(x: char, y: char)
    requires
        x != y,
    ensures
        (x as u32) != (y as u32),
{
    vstd::utf8::char_u32_cast(x, x as u32);
    vstd::utf8::char_u32_cast(y, y as u32);
}

proof fn lemma_lt_from_total(a: Seq<char>, b: Seq<char>, k: int)
    requires
        0 <= k <= a.len(),
        k <= b.len(),
        !(a.len() == b.len() && forall|i: int| k <= i < a.len() ==> a[i] == b[i]),
    ensures
        lt_from(a, b, k) || lt_from(b, a, k),
    decreases a.len() + b.len() - 2 * k,
{
    if k < a.len() && k < b.len() && a[k] == b[k] {
        lemma_lt_from_total(a, b, k + 1);
    } else if k < a.len() && k < b.len() {
        lemma_char_u32_injective(a[k], b[k]);
    }
}

proof fn lemma_text_lt_total(a: Seq<char>, b: Seq<char>)
    requires
        a != b,
    ensures
        text_lt(a, b) || text_lt(b, a),
{
    if a.len() == b.len() && forall|i: int| 0 <= i < a.len() ==> a[i] == b[i] {
        assert(a =~= b);
    }
    lemma_lt_from_total(a, b, 0);
}

/// Whether `a` sorts strictly before `b` (by code point).
pub fn text_less(a: &String, b: &String) -> (r: bool)
    ensures
        r == text_lt(a@, b@),
{
    let ac = crate::text::chars_of(a.as_str());
    let bc = crate::text::chars_of(b.as_str());
    let mut k: usize = 0;
    while k < ac.len() && k < bc.len() && ac[k] == bc[k]
        invariant
            ac@ == a@,
            bc@ == b@,
            k <= ac@.len(),
            k <= bc@.len(),
            lt_from(a@, b@, 0) == lt_from(a@, b@, k as int),
        decreases ac@.len() - k,
    {
        k += 1;
    }
    if k >= bc.len() {
        false
    } else if k >= ac.len() {
        true
    } else {
        assert(ac@[k as int] != bc@[k as int]);
        proof {
            lemma_char_u32_injective(a@[k as int], b@[k as int]);
        }
        (ac[k] as u32) < (bc[k] as u32)
    }
}

/// Wire name of a parameter usage.
pub open spec fn usage_name(u: CycleParamUsage) -> Seq<char> {
    match u {
        CycleParamUsage::CallGate => "call_gate"@,
        CycleParamUsage::Internal => "internal"@,
    }
}

/// `k` is the panel form of `kind`.
pub open spec fn kind_view_of(k: HookParamKindView, kind: CycleParamKind) -> bool {
    match (k, kind) {
        (HookParamKindView::Enum { values: a, multi: m }, CycleParamKind::Enum { values: b, multi: n }) =>
            strs_view(a@) == strs_view(b@) && m == n,
        (HookParamKindView::Bool, CycleParamKind::Bool) => true,
        (HookParamKindView::Number { min: a, max: b }, CycleParamKind::Number { min: c, max: d }) =>
            a == c && b == d,
        _ => false,
    }
}

/// `pv` shows declaration `p` with the effective value from `values` (else the default).
pub open spec fn param_view_of(pv: HookParamView, p: CycleParamSpec, values: CycleValues) -> bool {
    &&& pv.key@ == p.key@
    &&& pv.label@ == p.label@
    &&& pv.usage@ == usage_name(p.usage)
    &&& kind_view_of(pv.kind, p.kind)
    &&& pv.default@ == p.default@
    &&& pv.value@ == match values.lookup(p.key@) {
        Some(v) => v,
        None => p.default@,
    }
}

/// `e` is the panel entry of one of `hooks`.
pub open spec fn entry_of_some<H>(e: HookEntry, hooks: Seq<RegisteredHook<H>>) -> bool {
    exists|i: int| 0 <= i < hooks.len() && entry_of(e, #[trigger] hooks[i])
}

/// `e` is the panel entry of hook `h`.
pub open spec fn entry_of<H>(e: HookEntry, h: RegisteredHook<H>) -> bool {
    &&& e.id@ == h.def.id@
    &&& e.label@ == h.def.label@
    &&& e.group@ == h.def.group@
    &&& e.inject_point@ == h.def.inject_point.spec_name()
    &&& e.enabled == h.enabled
    &&& opt_str(e.disable_hint) == opt_str(h.def.disable_hint)
    &&& e.params@.len() == h.def.cycle_params@.len()
    &&& forall|i: int|
        0 <= i < e.params@.len() ==> param_view_of(
            #[trigger] e.params@[i],
            h.def.cycle_params@[i],
            h.values,
        )
}

fn param_view(p: &CycleParamSpec, values: &CycleValues) -> (r: HookParamView)
    ensures
        param_view_of(r, *p, *values),
{
    proof {
        reveal_strlit("call_gate");
        reveal_strlit("internal");
    }
    let usage = match p.usage {
        CycleParamUsage::CallGate => owned("call_gate"),
        CycleParamUsage::Internal => owned("internal"),
    };
    let kind = match &p.kind {
        CycleParamKind::Enum { values, multi } => {
            let c = copy_strings(values);
            proof {
                assert(strs_view(c@) =~= strs_view(values@));
            }
            HookParamKindView::Enum { values: c, multi: *multi }
        },
        CycleParamKind::Bool => HookParamKindView::Bool,
        CycleParamKind::Number { min, max } => HookParamKindView::Number { min: *min, max: *max },
    };
    let value = match values.get(&p.key) {
        Some(v) => v.copy(),
        None => p.default.copy(),
    };
    HookParamView {
        key: p.key.clone(),
        label: p.label.clone(),
        usage,
        kind,
        default: p.default.copy(),
        value,
    }
}

fn entry_for<H>(h: &RegisteredHook<H>) -> (r: HookEntry)
    ensures
        entry_of(r, *h),
{
    let mut params: Vec<HookParamView> = Vec::new();
    for i in 0..h.def.cycle_params.len()
        invariant
            params@.len() == i,
            forall|j: int|
                0 <= j < i ==> param_view_of(#[trigger] params@[j], h.def.cycle_params@[j], h.values),
    {
        params.push(param_view(&h.def.cycle_params[i], &h.values));
    }
    HookEntry {
        id: h.def.id.clone(),
        label: h.def.label.clone(),
        group: h.def.group.clone(),
        inject_point: owned(h.def.inject_point.as_str()),
        enabled: h.enabled,
        disable_hint: copy_opt_string(&h.def.disable_hint),
        params,
    }
}

impl<H> HookRegistry<H> {
    /// Cycle gate of the hook registered at `index`, with the values copied at snapshot time.
    pub fn gate(&self, index: usize, values: &CycleValues, facts: &CycleFacts) -> (r: Option<String>)
        requires
            index < self.spec_hooks().len(),
        ensures
            ({
                let params = self.spec_hooks()[index as int].def.cycle_params@;
                let i = first_blocking(params, *values, *facts);
                match r {
                    None => i == params.len(),
                    Some(k) => i < params.len() && k@ == params[i].key@,
                }
            }),
    {
        gate_check(self.hooks[index].def.cycle_params.as_slice(), values, facts)
    }

    /// Whether the hook registered at `index` may be called now (every gate parameter matches).
    pub fn cycle_allows(&self, index: usize, values: &CycleValues, facts: &CycleFacts) -> (r: bool)
        requires
            index < self.spec_hooks().len(),
        ensures
            r == (first_blocking(self.spec_hooks()[index as int].def.cycle_params@, *values, *facts)
                == self.spec_hooks()[index as int].def.cycle_params@.len()),
    {
        self.gate(index, values, facts).is_none()
    }
}

} // verus!

verus! {

/// What the dispatcher does once a hook has run.
#[derive(Debug, PartialEq, Eq)]
pub enum AfterHook {
    /// Go on with the next hook.
    Continue,
    /// The hook switched the round to another session: reload it, then go on.
    ReloadSession,
    /// The round fails with the hook's error.
    Stop(AppError),
}

/// The dispatcher's answer to a hook at `point` that returned `outcome`, the round's session
/// being `session_now` where it was `session_before`. Only the hooks after loading the
/// context can fail the round or switch its session; at the other points a failure is
/// ignored and the round goes on with the value the hook was given.
pub fn after_hook(point: InjectPointId, outcome: Result<(), AppError>, session_before: &str, session_now: &str) -> (r: AfterHook)
    ensures
        match outcome {
            Err(e) => if point == InjectPointId::AfterLoadContext {
                r == AfterHook::Stop(e)
            } else {
                r == AfterHook::Continue
            },
            Ok(()) => if point == InjectPointId::AfterLoadContext && session_before@ != session_now@ {
                r == AfterHook::ReloadSession
            } else {
                r == AfterHook::Continue
            },
        },
{
    match outcome {
        Err(e) => {
            if point == InjectPointId::AfterLoadContext {
                AfterHook::Stop(e)
            } else {
                AfterHook::Continue
            }
        },
        Ok(()) => {
            if point == InjectPointId::AfterLoadContext && !crate::text::str_eq(session_before, session_now) {
                AfterHook::ReloadSession
            } else {
                AfterHook::Continue
            }
        },
    }
}

} // verus!
