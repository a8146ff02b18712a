//! Model provider registry: the built-in providers, custom providers from the config file,
//! which of them run, which models they offer, request validation, credential resolution,
//! and the rules an edited provider configuration must satisfy before it is saved.
//!
//! The configuration file is read and written by the caller; this module works on its
//! parsed content ([`AppConfig`]) and on the values of the environment variables it names.

use vstd::prelude::*;

use crate::error::AppError;
use crate::model_call_input::contains_text;
use crate::models::{copy_opt_string, copy_opt_tool_calls, opt_calls, trim_seq, ModelMessage, ModelMessageRole, ProviderInfo, ProviderKind, ToolCall};
use crate::text::{is_blank, join2, owned, push_str, str_eq, str_is_blank, str_is_empty};

verus! {

/// Placeholder shown instead of a configured API key; saving it back keeps the stored key.
pub const MASKED_API_KEY: &'static str = "sk-****";

/// A provider as the registry runs it.
#[derive(Debug, Clone, PartialEq, Eq)]
pub struct ProviderDefinition {
    pub info: ProviderInfo,
    /// Environment variable that overrides the API base.
    pub api_base_env: Option<String>,
    pub api_key_required: bool,
    /// Any model id is accepted (no configured list needed).
    pub allow_unlisted_models: bool,
    /// Defined in code (deleting it disables it instead).
    pub builtin: bool,
    pub enabled: bool,
}

/// Value view of a provider definition.
pub struct ProviderDefView {
    pub id: Seq<char>,
    pub display_name: Seq<char>,
    pub api_base: Option<Seq<char>>,
    pub auth_env: Seq<char>,
    pub kind: ProviderKind,
    pub api_base_env: Option<Seq<char>>,
    pub api_key_required: bool,
    pub allow_unlisted_models: bool,
    pub builtin: bool,
    pub enabled: bool,
}

/// Character view of an optional string.
pub open spec fn ostr(o: Option<String>) -> Option<Seq<char>> {
    match o {
        Some(s) => Some(s@),
        None => None,
    }
}

/// Character view of an optional string slice.
pub open spec fn ostr_ref(o: Option<&str>) -> Option<Seq<char>> {
    match o {
        Some(s) => Some(s@),
        None => None,
    }
}

impl View for ProviderDefinition {
    type V = ProviderDefView;

    open spec fn view(&self) -> ProviderDefView {
        ProviderDefView {
            id: self.info.id@,
            display_name: self.info.display_name@,
            api_base: ostr(self.info.api_base),
            auth_env: self.info.auth_env@,
            kind: self.info.kind,
            api_base_env: ostr(self.api_base_env),
            api_key_required: self.api_key_required,
            allow_unlisted_models: self.allow_unlisted_models,
            builtin: self.builtin,
            enabled: self.enabled,
        }
    }
}

impl ProviderDefinition {
    /// An identical copy.
    pub fn copy(&self) -> (r: ProviderDefinition)
        ensures
            r == *self,
    {
        ProviderDefinition {
            info: self.info.copy(),
            api_base_env: copy_opt_string(&self.api_base_env),
            api_key_required: self.api_key_required,
            allow_unlisted_models: self.allow_unlisted_models,
            builtin: self.builtin,
            enabled: self.enabled,
        }
    }
}

/// A model entry of a provider's configuration (the fields the registry reads).
#[derive(Debug, Clone, PartialEq, Eq)]
pub struct ConfiguredModel {
    pub id: String,
    pub display_name: Option<String>,
}

/// A provider's entry in the configuration file.
#[derive(Debug, Clone, PartialEq, Eq)]
pub struct ProviderConfig {
    pub api_key: Option<String>,
    pub api_base: Option<String>,
    pub display_name: Option<String>,
    pub auth_env: Option<String>,
    pub kind: Option<ProviderKind>,
    pub enabled: Option<bool>,
    pub models: Vec<ConfiguredModel>,
}

/// `providers.<id>` of the configuration file.
#[derive(Debug, Clone, PartialEq, Eq)]
pub struct ProviderEntry {
    pub id: String,
    pub config: ProviderConfig,
}

/// `defaults` of the configuration file.
#[derive(Debug, Clone, PartialEq, Eq)]
pub struct ConfigDefaults {
    pub provider: Option<String>,
    pub model: Option<String>,
}

/// Parsed configuration file (its `providers` map as entries with distinct ids).
#[derive(Debug, Clone, PartialEq, Eq)]
pub struct AppConfig {
    pub defaults: Option<ConfigDefaults>,
    pub providers: Vec<ProviderEntry>,
}

impl AppConfig {
    /// The configuration of a missing file: no defaults, no provider entries.
    pub fn empty() -> (r: AppConfig)
        ensures
            r.defaults is None,
            r.providers@.len() == 0,
    {
        AppConfig { defaults: None, providers: Vec::new() }
    }
}

/// The configuration entry of `id`, if any (the first one).
pub open spec fn lookup(entries: Seq<ProviderEntry>, id: Seq<char>) -> Option<ProviderConfig>
    decreases entries.len(),
{
    if entries.len() == 0 {
        None
    } else if entries[0].id@ == id {
        Some(entries[0].config)
    } else {
        lookup(entries.drop_first(), id)
    }
}

proof fn lemma_lookup_skip(entries: Seq<ProviderEntry>, id: Seq<char>, i: int)
    requires
        0 <= i < entries.len(),
        entries[i].id@ != id,
    ensures
        lookup(entries.subrange(i, entries.len() as int), id) == lookup(
            entries.subrange(i + 1, entries.len() as int),
            id,
        ),
{
    assert(entries.subrange(i, entries.len() as int).drop_first() =~= entries.subrange(
        i + 1,
        entries.len() as int,
    ));
}

/// The configuration entry of `id` in `config`, if any.
pub fn config_for<'a>(entries: &'a Vec<ProviderEntry>, id: &str) -> (r: Option<&'a ProviderConfig>)
    ensures
        match r {
            Some(c) => lookup(entries@, id@) == Some(*c),
            None => lookup(entries@, id@) is None,
        },
{
    let n = entries.len();
    let mut i: usize = 0;
    assert(entries@.subrange(0, n as int) =~= entries@);
    while i < n
        invariant
            n == entries@.len(),
            i <= n,
            lookup(entries@, id@) == lookup(entries@.subrange(i as int, n as int), id@),
        decreases n - i,
    {
        if str_eq(entries[i].id.as_str(), id) {
            return Some(&entries[i].config);
        }
        proof {
            lemma_lookup_skip(entries@, id@, i as int);
        }
        i += 1;
    }
    None
}

/// The view of a provider definition with the given fields.
pub open spec fn def_view(
    id: Seq<char>,
    display_name: Seq<char>,
    api_base: Option<Seq<char>>,
    auth_env: Seq<char>,
    api_base_env: Seq<char>,
    api_key_required: bool,
    allow_unlisted_models: bool,
    kind: ProviderKind,
) -> ProviderDefView {
    ProviderDefView {
        id,
        display_name,
        api_base,
        auth_env,
        kind,
        api_base_env: Some(api_base_env),
        api_key_required,
        allow_unlisted_models,
        builtin: true,
        enabled: true,
    }
}

/// A built-in provider definition.
pub fn provider(
    id: &str,
    display_name: &str,
    api_base: Option<&str>,
    auth_env: &'static str,
    api_base_env: &'static str,
    api_key_required: bool,
    allow_unlisted_models: bool,
    kind: ProviderKind,
) -> (r: ProviderDefinition)
    ensures
        r@ == def_view(
            id@,
            display_name@,
            ostr_ref(api_base),
            auth_env@,
            api_base_env@,
            api_key_required,
            allow_unlisted_models,
            kind,
        ),
{
    ProviderDefinition {
        info: ProviderInfo {
            id: owned(id),
            display_name: owned(display_name),
            api_base: match api_base {
                Some(b) => Some(owned(b)),
                None => None,
            },
            auth_env: owned(auth_env),
            kind,
        },
        api_base_env: Some(owned(api_base_env)),
        api_key_required,
        allow_unlisted_models,
        builtin: true,
        enabled: true,
    }
}

/// The built-in providers, in order: OpenAI, DeepSeek, Ollama, custom OpenAI-compatible.
pub open spec fn builtin_views() -> Seq<ProviderDefView> {
    seq![
        def_view("openai"@, "OpenAI"@, None, "OPENAI_API_KEY"@, "OPENAI_BASE_URL"@, true, false, ProviderKind::OpenAi),
        def_view("deepseek"@, "DeepSeek"@, Some("https://api.deepseek.com/v1"@), "DEEPSEEK_API_KEY"@, "DEEPSEEK_BASE_URL"@, true, false, ProviderKind::OpenAiCompatible),
        def_view("ollama"@, "Ollama OpenAI-compatible"@, Some("http://localhost:11434/v1"@), "OLLAMA_API_KEY"@, "OLLAMA_BASE_URL"@, false, true, ProviderKind::OpenAiCompatible),
        def_view("custom"@, "Custom OpenAI-compatible"@, None, "CUSTOM_OPENAI_API_KEY"@, "CUSTOM_OPENAI_BASE_URL"@, true, true, ProviderKind::OpenAiCompatible),
    ]
}

/// Views of a list of provider definitions.
pub open spec fn def_views(s: Seq<ProviderDefinition>) -> Seq<ProviderDefView> {
    s.map_values(|d: ProviderDefinition| d@)
}

/// The built-in providers (see [`builtin_views`]).
pub fn default_providers() -> (r: Vec<ProviderDefinition>)
    ensures
        def_views(r@) == builtin_views(),
{
    let mut v: Vec<ProviderDefinition> = Vec::new();
    v.push(provider("openai", "OpenAI", None, "OPENAI_API_KEY", "OPENAI_BASE_URL", true, false, ProviderKind::OpenAi));
    v.push(provider("deepseek", "DeepSeek", Some("https://api.deepseek.com/v1"), "DEEPSEEK_API_KEY", "DEEPSEEK_BASE_URL", true, false, ProviderKind::OpenAiCompatible));
    v.push(provider("ollama", "Ollama OpenAI-compatible", Some("http://localhost:11434/v1"), "OLLAMA_API_KEY", "OLLAMA_BASE_URL", false, true, ProviderKind::OpenAiCompatible));
    v.push(provider("custom", "Custom OpenAI-compatible", None, "CUSTOM_OPENAI_API_KEY", "CUSTOM_OPENAI_BASE_URL", true, true, ProviderKind::OpenAiCompatible));
    assert(def_views(v@) =~= builtin_views());
    v
}

/// Whether `id` is the id of a built-in provider.
pub open spec fn is_builtin_id(id: Seq<char>) -> bool {
    exists|i: int| 0 <= i < builtin_views().len() && (#[trigger] builtin_views()[i]).id == id
}

/// The definition of the custom provider `id` configured by `cfg`: display name defaulting
/// to the id, no base override variable, key required, any model accepted.
pub open spec fn custom_view(id: Seq<char>, cfg: ProviderConfig) -> ProviderDefView {
    ProviderDefView {
        id,
        display_name: match cfg.display_name {
            Some(d) => d@,
            None => id,
        },
        api_base: ostr(cfg.api_base),
        auth_env: match cfg.auth_env {
            Some(a) => a@,
            None => Seq::empty(),
        },
        kind: match cfg.kind {
            Some(k) => k,
            None => ProviderKind::OpenAiCompatible,
        },
        api_base_env: None,
        api_key_required: true,
        allow_unlisted_models: true,
        builtin: false,
        enabled: match cfg.enabled {
            Some(e) => e,
            None => true,
        },
    }
}

/// The definition of a custom provider from its configuration entry.
pub fn custom_definition(id: &str, cfg: &ProviderConfig) -> (r: ProviderDefinition)
    ensures
        r@ == custom_view(id@, *cfg),
{
    ProviderDefinition {
        info: ProviderInfo {
            id: owned(id),
            display_name: match &cfg.display_name {
                Some(d) => d.clone(),
                None => owned(id),
            },
            api_base: match &cfg.api_base {
                Some(b) => Some(b.clone()),
                None => None,
            },
            auth_env: match &cfg.auth_env {
                Some(a) => a.clone(),
                None => String::new(),
            },
            kind: match cfg.kind {
                Some(k) => k,
                None => ProviderKind::OpenAiCompatible,
            },
        },
        api_base_env: None,
        api_key_required: true,
        allow_unlisted_models: true,
        builtin: false,
        enabled: match cfg.enabled {
            Some(e) => e,
            None => true,
        },
    }
}

/// The configuration entry disables its provider (`enabled: false`).
pub open spec fn disabled_by(cfg: Option<ProviderConfig>) -> bool {
    cfg matches Some(c) && c.enabled == Some(false)
}

/// Built-in providers kept: those their configuration entry does not disable.
pub open spec fn kept_builtins(bs: Seq<ProviderDefView>, entries: Seq<ProviderEntry>) -> Seq<
    ProviderDefView,
>
    decreases bs.len(),
{
    if bs.len() == 0 {
        Seq::empty()
    } else {
        let rest = kept_builtins(bs.drop_last(), entries);
        if disabled_by(lookup(entries, bs.last().id)) {
            rest
        } else {
            rest.push(bs.last())
        }
    }
}

/// Custom providers kept: configuration entries that are neither built-in ids nor disabled.
pub open spec fn kept_customs(entries: Seq<ProviderEntry>) -> Seq<ProviderDefView>
    decreases entries.len(),
{
    if entries.len() == 0 {
        Seq::empty()
    } else {
        let rest = kept_customs(entries.drop_last());
        let e = entries.last();
        if is_builtin_id(e.id@) || e.config.enabled == Some(false) {
            rest
        } else {
            rest.push(custom_view(e.id@, e.config))
        }
    }
}

/// The providers the registry runs for `config`: the built-ins it does not disable, then
/// its custom providers that are not disabled, in entry order.
pub open spec fn assemble_spec(config: AppConfig) -> Seq<ProviderDefView> {
    kept_builtins(builtin_views(), config.providers@) + kept_customs(config.providers@)
}

/// The entry `i` of `entries` that provides custom provider `d`: not a built-in id, not
/// disabled, and `d` is the provider it configures.
pub open spec fn provided_by(entries: Seq<ProviderEntry>, i: int, d: ProviderDefView) -> bool {
    &&& 0 <= i < entries.len()
    &&& entries[i].id@ == d.id
    &&& !is_builtin_id(entries[i].id@)
    &&& entries[i].config.enabled != Some(false)
    &&& d == custom_view(entries[i].id@, entries[i].config)
}

proof fn lemma_kept_custom_at(entries: Seq<ProviderEntry>, j: int)
    requires
        0 <= j < kept_customs(entries).len(),
    ensures
        exists|i: int| #[trigger] provided_by(entries, i, kept_customs(entries)[j]),
    decreases entries.len(),
{
    let pre = entries.drop_last();
    let rest = kept_customs(pre);
    let kc = kept_customs(entries);
    let e = entries.last();
    if j < rest.len() {
        lemma_kept_custom_at(pre, j);
        assert(kc[j] == rest[j]);
        let i = choose|i: int| #[trigger] provided_by(pre, i, rest[j]);
        assert(entries[i] == pre[i]);
        assert(provided_by(entries, i, kc[j]));
    } else {
        let i = entries.len() - 1;
        assert(!(is_builtin_id(e.id@) || e.config.enabled == Some(false)));
        assert(kc == rest.push(custom_view(e.id@, e.config)));
        assert(entries[i] == e);
        assert(provided_by(entries, i, kc[j]));
    }
}

proof fn lemma_kept_builtins(bs: Seq<ProviderDefView>, entries: Seq<ProviderEntry>)
    ensures
        forall|j: int| #![trigger kept_builtins(bs, entries)[j]] 0 <= j < kept_builtins(bs, entries).len() ==> exists|i: int|
            0 <= i < bs.len() && #[trigger] bs[i] == kept_builtins(bs, entries)[j] && !disabled_by(lookup(entries, bs[i].id)),
    decreases bs.len(),
{
    if bs.len() > 0 {
        let pre = bs.drop_last();
        lemma_kept_builtins(pre, entries);
        let rest = kept_builtins(pre, entries);
        let kb = kept_builtins(bs, entries);
        assert forall|j: int| #![trigger kb[j]] 0 <= j < kb.len() implies exists|i: int|
            0 <= i < bs.len() && #[trigger] bs[i] == kb[j] && !disabled_by(lookup(entries, bs[i].id)) by {
            if j < rest.len() {
                assert(kb[j] == rest[j]);
                let i = choose|i: int| 0 <= i < pre.len() && #[trigger] pre[i] == rest[j] && !disabled_by(lookup(entries, pre[i].id));
                assert(bs[i] == pre[i]);
            } else {
                assert(bs[bs.len() - 1] == kb[j]);
            }
        }
    }
}

proof fn lemma_custom_kept(entries: Seq<ProviderEntry>, i: int)
    requires
        0 <= i < entries.len(),
        !is_builtin_id(entries[i].id@),
        entries[i].config.enabled != Some(false),
    ensures
        kept_customs(entries).contains(custom_view(entries[i].id@, entries[i].config)),
    decreases entries.len(),
{
    let pre = entries.drop_last();
    let rest = kept_customs(pre);
    let x = custom_view(entries[i].id@, entries[i].config);
    if i < entries.len() - 1 {
        assert(entries[i] == pre[i]);
        lemma_custom_kept(pre, i);
        let k = choose|k: int| 0 <= k < rest.len() && rest[k] == x;
        assert(kept_customs(entries)[k] == x);
    } else {
        assert(kept_customs(entries) == rest.push(x));
        assert(kept_customs(entries)[rest.len() as int] == x);
    }
}

/// Every configuration entry that names a custom provider and is not disabled is assembled.
pub proof fn law_enabled_customs_assembled(config: AppConfig, i: int)
    requires
        0 <= i < config.providers@.len(),
        !is_builtin_id(config.providers@[i].id@),
        config.providers@[i].config.enabled != Some(false),
    ensures
        assemble_spec(config).contains(custom_view(config.providers@[i].id@, config.providers@[i].config)),
{
    let entries = config.providers@;
    let kb = kept_builtins(builtin_views(), entries);
    let x = custom_view(entries[i].id@, entries[i].config);
    lemma_custom_kept(entries, i);
    let k = choose|k: int| 0 <= k < kept_customs(entries).len() && kept_customs(entries)[k] == x;
    assert(assemble_spec(config)[kb.len() + k] == x);
}

/// No assembled provider comes from a disabled configuration entry: each one is either a
/// built-in that its configuration entry does not disable, or the custom provider that a
/// configuration entry with a non-built-in id configures, where that entry is not disabled
/// (`enabled == Some(false)` means a deleted custom provider).
pub proof fn law_disabled_entries_not_assembled(config: AppConfig)
    ensures
        forall|j: int| 0 <= j < assemble_spec(config).len() ==> {
            ||| is_builtin_id((#[trigger] assemble_spec(config)[j]).id) && !disabled_by(lookup(config.providers@, assemble_spec(config)[j].id))
            ||| exists|i: int| provided_by(config.providers@, i, assemble_spec(config)[j])
        },
{
    let entries = config.providers@;
    let kb = kept_builtins(builtin_views(), entries);
    let kc = kept_customs(entries);
    let r = assemble_spec(config);
    lemma_kept_builtins(builtin_views(), entries);
    assert forall|j: int| 0 <= j < r.len() implies {
        ||| is_builtin_id((#[trigger] r[j]).id) && !disabled_by(lookup(entries, r[j].id))
        ||| exists|i: int| provided_by(entries, i, r[j])
    } by {
        if j < kb.len() {
            assert(r[j] == kb[j]);
            let i = choose|i: int| 0 <= i < builtin_views().len() && #[trigger] builtin_views()[i] == kb[j]
                && !disabled_by(lookup(entries, builtin_views()[i].id));
            assert(is_builtin_id(r[j].id));
        } else {
            assert(r[j] == kc[j - kb.len()]);
            lemma_kept_custom_at(entries, j - kb.len());
            let i = choose|i: int| #[trigger] provided_by(entries, i, kc[j - kb.len()]);
            assert(provided_by(entries, i, r[j]));
        }
    }
}

/// Whether `id` is a built-in id.
pub fn builtin_id(id: &str) -> (r: bool)
    ensures
        r == is_builtin_id(id@),
{
    let b = default_providers();
    let mut i: usize = 0;
    while i < b.len()
        invariant
            def_views(b@) == builtin_views(),
            i <= b@.len(),
            forall|j: int| 0 <= j < i ==> (#[trigger] builtin_views()[j]).id != id@,
        decreases b@.len() - i,
    {
        assert(def_views(b@)[i as int] == b@[i as int]@);
        if str_eq(b[i].info.id.as_str(), id) {
            assert(builtin_views()[i as int].id == id@);
            return true;
        }
        i += 1;
    }
    false
}

/// Assembles the providers to run for `config` (see [`assemble_spec`]).
pub fn assemble(config: &AppConfig) -> (r: Vec<ProviderDefinition>)
    ensures
        def_views(r@) == assemble_spec(*config),
{
    let builtins = default_providers();
    let mut out: Vec<ProviderDefinition> = Vec::new();
    for i in 0..builtins.len()
        invariant
            def_views(builtins@) == builtin_views(),
            def_views(out@) == kept_builtins(builtin_views().take(i as int), config.providers@),
    {
        let p = &builtins[i];
        proof {
            assert(builtin_views().take(i + 1).drop_last() =~= builtin_views().take(i as int));
            assert(def_views(builtins@)[i as int] == builtins@[i as int]@);
        }
        let cfg = config_for(&config.providers, p.info.id.as_str());
        let disabled = match cfg {
            Some(c) => c.enabled == Some(false),
            None => false,
        };
        if !disabled {
            let ghost before = out@;
            out.push(p.copy());
            proof {
                assert(def_views(out@) =~= def_views(before).push(builtins@[i as int]@));
            }
        }
    }
    proof {
        assert(builtin_views().take(builtin_views().len() as int) =~= builtin_views());
    }
    let ghost kept = out@;
    let entries = &config.providers;
    for i in 0..entries.len()
        invariant
            def_views(out@) == def_views(kept) + kept_customs(entries@.take(i as int)),
    {
        let e = &entries[i];
        proof {
            assert(entries@.take(i + 1).drop_last() =~= entries@.take(i as int));
        }
        let skip = builtin_id(e.id.as_str()) || e.config.enabled == Some(false);
        if !skip {
            let ghost before = out@;
            out.push(custom_definition(e.id.as_str(), &e.config));
            proof {
                assert(def_views(out@) =~= def_views(before).push(custom_view(e.id@, e.config)));
            }
        }
    }
    proof {
        assert(entries@.take(entries@.len() as int) =~= entries@);
    }
    out
}

/// Index of the first definition with `id` (`defs.len()` when none).
pub open spec fn first_with_id(defs: Seq<ProviderDefView>, id: Seq<char>) -> int
    decreases defs.len(),
{
    if defs.len() == 0 {
        0
    } else if first_with_id(defs.drop_last(), id) < defs.len() - 1 {
        first_with_id(defs.drop_last(), id)
    } else if defs.last().id == id {
        defs.len() - 1
    } else {
        defs.len() as int
    }
}

proof fn lemma_first_with_id(defs: Seq<ProviderDefView>, id: Seq<char>)
    ensures
        0 <= first_with_id(defs, id) <= defs.len(),
        forall|j: int| 0 <= j < first_with_id(defs, id) ==> (#[trigger] defs[j]).id != id,
        first_with_id(defs, id) < defs.len() ==> defs[first_with_id(defs, id)].id == id,
    decreases defs.len(),
{
    if defs.len() > 0 {
        let prefix = defs.drop_last();
        lemma_first_with_id(prefix, id);
        assert forall|j: int| 0 <= j < defs.len() - 1 implies defs[j] == prefix[j] by {}
        let kp = first_with_id(prefix, id);
        if kp < defs.len() - 1 {
            assert(defs[kp] == prefix[kp]);
        }
    }
}

/// A model a provider offers, with its position in the provider's configured list.
#[derive(Debug, Clone, PartialEq, Eq)]
pub struct ModelEntry {
    pub id: String,
    pub provider_id: String,
    /// Configured display name, else the id.
    pub display_name: String,
    /// Position of the model in the provider's configured `models`.
    pub config_index: usize,
}

/// Value view of a model entry.
pub struct ModelEntryView {
    pub id: Seq<char>,
    pub provider_id: Seq<char>,
    pub display_name: Seq<char>,
    pub config_index: int,
}

impl View for ModelEntry {
    type V = ModelEntryView;

    open spec fn view(&self) -> ModelEntryView {
        ModelEntryView {
            id: self.id@,
            provider_id: self.provider_id@,
            display_name: self.display_name@,
            config_index: self.config_index as int,
        }
    }
}

/// Views of model entries.
pub open spec fn entry_views(s: Seq<ModelEntry>) -> Seq<ModelEntryView> {
    s.map_values(|e: ModelEntry| e@)
}

/// The models of `provider_id` from its configured list: entries with a blank id are
/// skipped; the display name defaults to the id.
pub open spec fn models_from(provider_id: Seq<char>, models: Seq<ConfiguredModel>) -> Seq<
    ModelEntryView,
>
    decreases models.len(),
{
    if models.len() == 0 {
        Seq::empty()
    } else {
        let rest = models_from(provider_id, models.drop_last());
        let m = models.last();
        if is_blank(m.id@) {
            rest
        } else {
            rest.push(
                ModelEntryView {
                    id: m.id@,
                    provider_id,
                    display_name: match m.display_name {
                        Some(d) => d@,
                        None => m.id@,
                    },
                    config_index: models.len() - 1,
                },
            )
        }
    }
}

/// The models a provider offers under its configuration entry (none without one).
pub open spec fn configured_spec(provider_id: Seq<char>, cfg: Option<ProviderConfig>) -> Seq<
    ModelEntryView,
> {
    match cfg {
        Some(c) => models_from(provider_id, c.models@),
        None => Seq::empty(),
    }
}

/// The models `provider` offers under `cfg` (see [`configured_spec`]).
pub fn configured_models(provider: &ProviderDefinition, cfg: Option<&ProviderConfig>) -> (r: Vec<
    ModelEntry,
>)
    ensures
        entry_views(r@) == configured_spec(
            provider.info.id@,
            match cfg {
                Some(c) => Some(*c),
                None => None,
            },
        ),
{
    let mut out: Vec<ModelEntry> = Vec::new();
    let c = match cfg {
        None => {
            assert(entry_views(out@) =~= Seq::<ModelEntryView>::empty());
            return out;
        },
        Some(c) => c,
    };
    for i in 0..c.models.len()
        invariant
            entry_views(out@) == models_from(provider.info.id@, c.models@.take(i as int)),
    {
        let m = &c.models[i];
        proof {
            assert(c.models@.take(i + 1).drop_last() =~= c.models@.take(i as int));
        }
        if !str_is_blank(m.id.as_str()) {
            let ghost before = out@;
            let display_name = match &m.display_name {
                Some(d) => d.clone(),
                None => m.id.clone(),
            };
            out.push(
                ModelEntry {
                    id: m.id.clone(),
                    provider_id: provider.info.id.clone(),
                    display_name,
                    config_index: i,
                },
            );
            proof {
                assert(entry_views(out@) =~= entry_views(before).push(out@.last()@));
            }
        }
    }
    assert(c.models@.take(c.models@.len() as int) =~= c.models@);
    out
}

/// `model_id` is a non-blank model id listed under `cfg`.
pub open spec fn listed(cfg: Option<ProviderConfig>, model_id: Seq<char>) -> bool {
    cfg matches Some(c) && exists|j: int|
        0 <= j < c.models@.len() && !is_blank((#[trigger] c.models@[j]).id@) && c.models@[j].id@
            == model_id
}

/// A provider accepts `model_id` when it accepts any model or lists it.
pub open spec fn accepts_model(
    provider: ProviderDefView,
    cfg: Option<ProviderConfig>,
    model_id: Seq<char>,
) -> bool {
    provider.allow_unlisted_models || listed(cfg, model_id)
}

/// `Ok` when `provider` accepts `model_id`, else `ModelNotFound(model_id)`.
pub fn require_model_definition(
    provider: &ProviderDefinition,
    cfg: Option<&ProviderConfig>,
    model_id: &str,
) -> (r: Result<(), AppError>)
    ensures
        accepts_model(
            provider@,
            match cfg {
                Some(c) => Some(*c),
                None => None,
            },
            model_id@,
        ) ==> r is Ok,
        !accepts_model(
            provider@,
            match cfg {
                Some(c) => Some(*c),
                None => None,
            },
            model_id@,
        ) ==> (r matches Err(AppError::ModelNotFound(m)) && m@ == model_id@),
{
    if provider.allow_unlisted_models {
        return Ok(());
    }
    if let Some(c) = cfg {
        let n = c.models.len();
        let mut j: usize = 0;
        while j < n
            invariant
                cfg == Some(c),
                n == c.models@.len(),
                j <= n,
                forall|k: int|
                    0 <= k < j ==> is_blank((#[trigger] c.models@[k]).id@) || c.models@[k].id@
                        != model_id@,
            decreases n - j,
        {
            if !str_is_blank(c.models[j].id.as_str()) && str_eq(c.models[j].id.as_str(), model_id) {
                assert(listed(Some(*c), model_id@)) by {
                    assert(!is_blank(c.models@[j as int].id@));
                }
                return Ok(());
            }
            j += 1;
        }
    }
    Err(AppError::ModelNotFound(owned(model_id)))
}

/// The model a session uses by default: a provider id and a model id.
#[derive(Debug, Clone, PartialEq, Eq)]
pub struct ModelChoice {
    pub provider_id: String,
    pub model_id: String,
}

/// The registry of running providers.
#[derive(Debug, Clone)]
pub struct ProviderRegistry {
    providers: Vec<ProviderDefinition>,
}

impl View for ProviderRegistry {
    type V = Seq<ProviderDefView>;

    closed spec fn view(&self) -> Seq<ProviderDefView> {
        def_views(self.providers@)
    }
}

/// The public description of a provider matches its definition view.
pub open spec fn info_of(info: ProviderInfo, d: ProviderDefView) -> bool {
    &&& info.id@ == d.id
    &&& info.display_name@ == d.display_name
    &&& ostr(info.api_base) == d.api_base
    &&& info.auth_env@ == d.auth_env
    &&& info.kind == d.kind
}

/// Every provider's models, in provider order.
pub open spec fn all_models(defs: Seq<ProviderDefView>, entries: Seq<ProviderEntry>) -> Seq<
    ModelEntryView,
>
    decreases defs.len(),
{
    if defs.len() == 0 {
        Seq::empty()
    } else {
        all_models(defs.drop_last(), entries) + configured_spec(
            defs.last().id,
            lookup(entries, defs.last().id),
        )
    }
}

/// Message of half-configured defaults.
pub open spec fn defaults_pair_message() -> Seq<char> {
    "`defaults.provider` and `defaults.model` must be configured together"@
}

/// Optional view of a configuration entry reference.
pub open spec fn ocfg(c: Option<&ProviderConfig>) -> Option<ProviderConfig> {
    match c {
        Some(c) => Some(*c),
        None => None,
    }
}

impl ProviderRegistry {
    /// The registry running the providers `config` assembles to.
    pub fn new(config: &AppConfig) -> (r: ProviderRegistry)
        ensures
            r@ == assemble_spec(*config),
    {
        ProviderRegistry { providers: assemble(config) }
    }

    /// Reassembles the providers from a freshly read `config` (saving takes effect at once).
    pub fn reload(&mut self, config: &AppConfig)
        ensures
            final(self)@ == assemble_spec(*config),
    {
        self.providers = assemble(config);
    }

    /// Public descriptions of the running providers, in order.
    pub fn list_providers(&self) -> (r: Vec<ProviderInfo>)
        ensures
            r@.len() == self@.len(),
            forall|i: int| 0 <= i < r@.len() ==> info_of(#[trigger] r@[i], self@[i]),
    {
        let mut out: Vec<ProviderInfo> = Vec::new();
        for i in 0..self.providers.len()
            invariant
                out@.len() == i,
                forall|j: int| 0 <= j < i ==> info_of(#[trigger] out@[j], self@[j]),
        {
            proof {
                assert(self@[i as int] == self.providers@[i as int]@);
            }
            out.push(self.providers[i].info.copy());
        }
        out
    }

    fn find(&self, id: &str) -> (r: Option<usize>)
        ensures
            match r {
                Some(k) => k == first_with_id(self@, id@) && k < self@.len(),
                None => first_with_id(self@, id@) == self@.len(),
            },
    {
        proof {
            lemma_first_with_id(self@, id@);
        }
        let n = self.providers.len();
        let mut i: usize = 0;
        while i < n
            invariant
                n == self@.len(),
                n == self.providers@.len(),
                i <= n,
                forall|j: int| 0 <= j < i ==> (#[trigger] self@[j]).id != id@,
                0 <= first_with_id(self@, id@) <= self@.len(),
                forall|j: int| 0 <= j < first_with_id(self@, id@) ==> (#[trigger] self@[j]).id != id@,
                first_with_id(self@, id@) < self@.len() ==> self@[first_with_id(self@, id@)].id == id@,
            decreases n - i,
        {
            assert(self@[i as int] == self.providers@[i as int]@);
            if str_eq(self.providers[i].info.id.as_str(), id) {
                return Some(i);
            }
            i += 1;
        }
        None
    }

    /// The running provider `id` (the first with that id), else `ProviderNotFound(id)`.
    pub fn require_provider(&self, id: &str) -> (r: Result<ProviderDefinition, AppError>)
        ensures
            first_with_id(self@, id@) < self@.len() ==> (r matches Ok(d) && d@ == self@[first_with_id(self@, id@)]),
            first_with_id(self@, id@) == self@.len() ==> (r matches Err(AppError::ProviderNotFound(m)) && m@ == id@),
    {
        match self.find(id) {
            Some(k) => {
                proof {
                    assert(self@[k as int] == self.providers@[k as int]@);
                }
                Ok(self.providers[k].copy())
            },
            None => Err(AppError::ProviderNotFound(owned(id))),
        }
    }

    /// `Ok` when provider `provider_id` runs and accepts `model_id` under `config`;
    /// `ProviderNotFound` or `ModelNotFound` otherwise.
    pub fn require_model(&self, provider_id: &str, model_id: &str, config: &AppConfig) -> (r: Result<(), AppError>)
        ensures
            ({
                let k = first_with_id(self@, provider_id@);
                if k == self@.len() {
                    r matches Err(AppError::ProviderNotFound(m)) && m@ == provider_id@
                } else if accepts_model(self@[k], lookup(config.providers@, provider_id@), model_id@) {
                    r is Ok
                } else {
                    r matches Err(AppError::ModelNotFound(m)) && m@ == model_id@
                }
            }),
    {
        let provider = match self.require_provider(provider_id) {
            Ok(p) => p,
            Err(e) => {
                return Err(e);
            },
        };
        let cfg = config_for(&config.providers, provider_id);
        require_model_definition(&provider, cfg, model_id)
    }

    /// The models of provider `provider_id` (`ProviderNotFound` when it does not run), or of
    /// every running provider in order.
    pub fn list_models(&self, provider_id: Option<&str>, config: &AppConfig) -> (r: Result<Vec<ModelEntry>, AppError>)
        ensures
            match provider_id {
                Some(pid) => {
                    let k = first_with_id(self@, pid@);
                    if k == self@.len() {
                        r matches Err(AppError::ProviderNotFound(m)) && m@ == pid@
                    } else {
                        r matches Ok(v) && entry_views(v@) == configured_spec(pid@, lookup(config.providers@, pid@))
                    }
                },
                None => r matches Ok(v) && entry_views(v@) == all_models(self@, config.providers@),
            },
    {
        match provider_id {
            Some(pid) => {
                let provider = match self.require_provider(pid) {
                    Ok(p) => p,
                    Err(e) => {
                        return Err(e);
                    },
                };
                proof {
                    lemma_first_with_id(self@, pid@);
                }
                let cfg = config_for(&config.providers, pid);
                Ok(configured_models(&provider, cfg))
            },
            None => {
                let mut out: Vec<ModelEntry> = Vec::new();
                for i in 0..self.providers.len()
                    invariant
                        entry_views(out@) == all_models(self@.take(i as int), config.providers@),
                        self@.len() == self.providers@.len(),
                {
                    let p = &self.providers[i];
                    proof {
                        assert(self@.take(i + 1).drop_last() =~= self@.take(i as int));
                        assert(self@[i as int] == p@);
                    }
                    let cfg = config_for(&config.providers, p.info.id.as_str());
                    let models = configured_models(p, cfg);
                    let ghost before = out@;
                    let mut models = models;
                    let ghost added = models@;
                    out.append(&mut models);
                    proof {
                        assert(entry_views(out@) =~= entry_views(before) + entry_views(added));
                    }
                }
                proof {
                    assert(self@.take(self@.len() as int) =~= self@);
                }
                Ok(out)
            },
        }
    }

    /// The configured default model: none without `defaults` or with neither field;
    /// `InvalidInput` with only one field; otherwise the pair, once `require_model` accepts it.
    pub fn default_model_selection(&self, config: &AppConfig) -> (r: Result<Option<ModelChoice>, AppError>)
        ensures
            match config.defaults {
                None => r == Ok::<Option<ModelChoice>, AppError>(None),
                Some(d) => match (d.provider, d.model) {
                    (Some(p), Some(m)) => {
                        let k = first_with_id(self@, p@);
                        if k == self@.len() {
                            r matches Err(AppError::ProviderNotFound(e)) && e@ == p@
                        } else if accepts_model(self@[k], lookup(config.providers@, p@), m@) {
                            r matches Ok(Some(c)) && c.provider_id@ == p@ && c.model_id@ == m@
                        } else {
                            r matches Err(AppError::ModelNotFound(e)) && e@ == m@
                        }
                    },
                    (None, None) => r == Ok::<Option<ModelChoice>, AppError>(None),
                    _ => r matches Err(AppError::InvalidInput(e)) && e@ == defaults_pair_message(),
                },
            },
    {
        let d = match &config.defaults {
            None => {
                return Ok(None);
            },
            Some(d) => d,
        };
        match (&d.provider, &d.model) {
            (Some(p), Some(m)) => {
                match self.require_model(p.as_str(), m.as_str(), config) {
                    Ok(()) => Ok(Some(ModelChoice { provider_id: p.clone(), model_id: m.clone() })),
                    Err(e) => Err(e),
                }
            },
            (None, None) => Ok(None),
            _ => {
                proof {
                    reveal_strlit("`defaults.provider` and `defaults.model` must be configured together");
                }
                Err(AppError::InvalidInput(owned("`defaults.provider` and `defaults.model` must be configured together")))
            },
        }
    }
}

/// An assistant message that declares tool calls (its content may be empty).
pub open spec fn declares_calls(m: ModelMessage) -> bool {
    m.role == ModelMessageRole::Assistant && (m.tool_calls matches Some(calls) && calls@.len() > 0)
}

/// Some message other than a tool-call declaration has blank content.
pub open spec fn has_blank_message(messages: Seq<ModelMessage>) -> bool {
    exists|i: int|
        0 <= i < messages.len() && !declares_calls(#[trigger] messages[i]) && is_blank(
            messages[i].content@,
        )
}

/// The first problem of a model request, checked in order: blank provider id, blank model
/// id, no messages, a blank message that declares no tool calls.
pub open spec fn request_issue(
    provider_id: Seq<char>,
    model_id: Seq<char>,
    messages: Seq<ModelMessage>,
) -> Option<Seq<char>> {
    if is_blank(provider_id) {
        Some("Provider id cannot be empty"@)
    } else if is_blank(model_id) {
        Some("Model id cannot be empty"@)
    } else if messages.len() == 0 {
        Some("Messages cannot be empty"@)
    } else if has_blank_message(messages) {
        Some("Model message content cannot be empty"@)
    } else {
        None
    }
}

/// Checks a model request before any network call (see [`request_issue`]); a problem
/// gives `InvalidInput` with its message.
pub fn validate_request(provider_id: &str, model_id: &str, messages: &[ModelMessage]) -> (r: Result<
    (),
    AppError,
>)
    ensures
        match request_issue(provider_id@, model_id@, messages@) {
            None => r is Ok,
            Some(e) => r matches Err(AppError::InvalidInput(m)) && m@ == e,
        },
{
    proof {
        reveal_strlit("Provider id cannot be empty");
        reveal_strlit("Model id cannot be empty");
        reveal_strlit("Messages cannot be empty");
        reveal_strlit("Model message content cannot be empty");
    }
    if str_is_blank(provider_id) {
        return Err(AppError::InvalidInput(owned("Provider id cannot be empty")));
    }
    if str_is_blank(model_id) {
        return Err(AppError::InvalidInput(owned("Model id cannot be empty")));
    }
    if messages.len() == 0 {
        return Err(AppError::InvalidInput(owned("Messages cannot be empty")));
    }
    let n = messages.len();
    let mut i: usize = 0;
    while i < n
        invariant
            !is_blank(provider_id@),
            !is_blank(model_id@),
            n == messages@.len(),
            n > 0,
            i <= n,
            forall|j: int|
                0 <= j < i ==> declares_calls(#[trigger] messages@[j]) || !is_blank(
                    messages@[j].content@,
                ),
        decreases n - i,
    {
        let m = &messages[i];
        let is_tool_call = m.role == ModelMessageRole::Assistant && match &m.tool_calls {
            Some(calls) => calls.len() > 0,
            None => false,
        };
        if !is_tool_call && str_is_blank(m.content.as_str()) {
            assert(has_blank_message(messages@)) by {
                assert(!declares_calls(messages@[i as int]));
            }
            return Err(AppError::InvalidInput(owned("Model message content cannot be empty")));
        }
        i += 1;
    }
    Ok(())
}

/// Credentials a provider is called with.
#[derive(Debug, Clone, PartialEq, Eq)]
pub struct ResolvedProviderConfig {
    pub api_key: String,
    pub api_base: Option<String>,
}

/// The API key candidate: the `auth_env` variable's value when the provider names one and
/// it is set, otherwise the configured key.
pub open spec fn key_candidate(
    auth_env: Seq<char>,
    env_api_key: Option<Seq<char>>,
    cfg: Option<ProviderConfig>,
) -> Option<Seq<char>> {
    let from_env = if is_blank(auth_env) {
        None
    } else {
        env_api_key
    };
    match from_env {
        Some(v) => Some(v),
        None => match cfg {
            Some(c) => ostr(c.api_key),
            None => None,
        },
    }
}

/// The API base: the override variable's value (when the provider names one), else the
/// configured base, else the provider's own.
pub open spec fn base_spec(
    provider: ProviderDefView,
    env_api_base: Option<Seq<char>>,
    cfg: Option<ProviderConfig>,
) -> Option<Seq<char>> {
    let from_env = match provider.api_base_env {
        Some(name) => if is_blank(name) {
            None
        } else {
            env_api_base
        },
        None => None,
    };
    match from_env {
        Some(b) => Some(b),
        None => match (match cfg {
            Some(c) => ostr(c.api_base),
            None => None,
        }) {
            Some(b) => Some(b),
            None => provider.api_base,
        },
    }
}

/// Message of a provider that requires a key and has none.
pub open spec fn auth_missing_message(id: Seq<char>, auth_env: Seq<char>) -> Seq<char> {
    "Missing API key for provider `"@ + id + "`. Set "@ + auth_env + " or .pulsar/config.json."@
}

/// Resolves the credentials of `provider`. `env_api_key` is the value of the variable its
/// `auth_env` names and `env_api_base` that of its `api_base_env`, when set. A non-blank key
/// candidate is used; otherwise a provider that requires a key fails with
/// `ProviderAuthMissing`, and one that does not gets the placeholder `local-provider`.
pub fn resolve_provider_config(
    provider: &ProviderDefinition,
    cfg: Option<&ProviderConfig>,
    env_api_key: Option<&str>,
    env_api_base: Option<&str>,
) -> (r: Result<ResolvedProviderConfig, AppError>)
    ensures
        ({
            let key = key_candidate(provider@.auth_env, ostr_ref(env_api_key), ocfg(cfg));
            if key is Some && !is_blank(key.unwrap()) {
                r matches Ok(c) && c.api_key@ == key.unwrap() && ostr(c.api_base) == base_spec(provider@, ostr_ref(env_api_base), ocfg(cfg))
            } else if provider.api_key_required {
                r matches Err(AppError::ProviderAuthMissing(m)) && m@ == auth_missing_message(provider@.id, provider@.auth_env)
            } else {
                r matches Ok(c) && c.api_key@ == "local-provider"@ && ostr(c.api_base) == base_spec(provider@, ostr_ref(env_api_base), ocfg(cfg))
            }
        }),
{
    let from_env: Option<&str> = if str_is_blank(provider.info.auth_env.as_str()) {
        None
    } else {
        env_api_key
    };
    let candidate: Option<String> = match from_env {
        Some(v) => Some(owned(v)),
        None => match cfg {
            Some(c) => copy_opt_string(&c.api_key),
            None => None,
        },
    };
    let api_key = match candidate {
        Some(v) if !str_is_blank(v.as_str()) => v,
        _ => {
            if provider.api_key_required {
                let mut msg = join2("Missing API key for provider `", provider.info.id.as_str());
                push_str(&mut msg, "`. Set ");
                push_str(&mut msg, provider.info.auth_env.as_str());
                push_str(&mut msg, " or .pulsar/config.json.");
                return Err(AppError::ProviderAuthMissing(msg));
            }
            owned("local-provider")
        },
    };
    let base_from_env: Option<&str> = match &provider.api_base_env {
        Some(name) => if str_is_blank(name.as_str()) {
            None
        } else {
            env_api_base
        },
        None => None,
    };
    let api_base = match base_from_env {
        Some(b) => Some(owned(b)),
        None => {
            let from_cfg = match cfg {
                Some(c) => copy_opt_string(&c.api_base),
                None => None,
            };
            match from_cfg {
                Some(b) => Some(b),
                None => copy_opt_string(&provider.info.api_base),
            }
        },
    };
    Ok(ResolvedProviderConfig { api_key, api_base })
}

/// Whether a key is configured (a non-blank value of the `auth_env` variable, when the
/// provider names one, or a non-blank configured key).
pub open spec fn key_set(auth_env: Seq<char>, env_value: Option<Seq<char>>, cfg: Option<ProviderConfig>) -> bool {
    ||| (!is_blank(auth_env) && env_value is Some && !is_blank(env_value.unwrap()))
    ||| (cfg is Some && cfg.unwrap().api_key is Some && !is_blank(cfg.unwrap().api_key.unwrap()@))
}

/// Masked key state for the editor: `(set, Some("sk-****"))` when a key is configured,
/// `(false, None)` otherwise.
pub fn api_key_state(auth_env: &str, env_value: Option<&str>, cfg: Option<&ProviderConfig>) -> (r: (bool, Option<String>))
    ensures
        r.0 == key_set(auth_env@, ostr_ref(env_value), ocfg(cfg)),
        r.0 ==> (r.1 matches Some(m) && m@ == MASKED_API_KEY@),
        !r.0 ==> r.1 is None,
{
    let from_env = if str_is_blank(auth_env) {
        false
    } else {
        match env_value {
            Some(v) => !str_is_blank(v),
            None => false,
        }
    };
    let from_cfg = match cfg {
        Some(c) => match &c.api_key {
            Some(k) => !str_is_blank(k.as_str()),
            None => false,
        },
        None => false,
    };
    let set = from_env || from_cfg;
    (set, if set { Some(owned(MASKED_API_KEY)) } else { None })
}

/// Default model of the editor (both fields may be empty).
#[derive(Debug, Clone, PartialEq, Eq)]
pub struct ProviderDefaults {
    pub provider: String,
    pub model: String,
}

/// One provider in the configuration editor (the key is masked on display).
#[derive(Debug, Clone, PartialEq, Eq)]
pub struct ProviderEdit {
    pub id: String,
    pub display_name: Option<String>,
    pub kind: ProviderKind,
    pub api_base: Option<String>,
    pub api_key: Option<String>,
    /// A key is configured (display only).
    pub api_key_set: bool,
    pub auth_env: Option<String>,
    pub enabled: bool,
    pub builtin: bool,
    pub models: Vec<ConfiguredModel>,
}

/// The whole editable provider configuration.
#[derive(Debug, Clone, PartialEq, Eq)]
pub struct ProviderConfigEdit {
    pub defaults: Option<ProviderDefaults>,
    pub providers: Vec<ProviderEdit>,
}

/// Characters allowed in a provider id: ASCII letters and digits, `_` and `-`.
pub open spec fn id_char(c: char) -> bool {
    ('a' <= c && c <= 'z') || ('A' <= c && c <= 'Z') || ('0' <= c && c <= '9') || c == '_' || c
        == '-'
}

/// Every character of `s` is allowed in a provider id.
pub open spec fn valid_id_chars(s: Seq<char>) -> bool {
    forall|i: int| 0 <= i < s.len() ==> id_char(#[trigger] s[i])
}

/// The problem of provider `i` of the editor, if any: a blank id, a (trimmed) id with a
/// character other than ASCII letters, digits, `_` and `-`, an id already used by an
/// earlier provider, a model with a blank id.
pub open spec fn provider_issue(edits: Seq<ProviderEdit>, i: int) -> Option<Seq<char>> {
    let t = trim_seq(edits[i].id@);
    if t.len() == 0 {
        Some("Provider id cannot be empty"@)
    } else if !valid_id_chars(t) {
        Some("Provider id `"@ + t + "` contains invalid characters (allowed: a-z, 0-9, _, -)"@)
    } else if exists|j: int| 0 <= j < i && trim_seq((#[trigger] edits[j]).id@) == t {
        Some("Duplicate provider id: `"@ + t + "`"@)
    } else if exists|k: int|
        0 <= k < edits[i].models@.len() && is_blank((#[trigger] edits[i].models@[k]).id@) {
        Some("Provider `"@ + t + "` has a model with empty id"@)
    } else {
        None
    }
}

/// The first problem among the first `n` providers of the editor.
pub open spec fn first_provider_issue(edits: Seq<ProviderEdit>, n: int) -> Option<Seq<char>>
    decreases n,
{
    if n <= 0 {
        None
    } else {
        match first_provider_issue(edits, n - 1) {
            Some(e) => Some(e),
            None => provider_issue(edits, n - 1),
        }
    }
}

/// Index of the first enabled provider whose id is `id` (`edits.len()` when none).
pub open spec fn first_enabled(edits: Seq<ProviderEdit>, id: Seq<char>) -> int
    decreases edits.len(),
{
    if edits.len() == 0 {
        0
    } else if first_enabled(edits.drop_last(), id) < edits.len() - 1 {
        first_enabled(edits.drop_last(), id)
    } else if edits.last().id@ == id && edits.last().enabled {
        edits.len() - 1
    } else {
        edits.len() as int
    }
}

proof fn lemma_first_enabled(edits: Seq<ProviderEdit>, id: Seq<char>)
    ensures
        0 <= first_enabled(edits, id) <= edits.len(),
        forall|j: int|
            0 <= j < first_enabled(edits, id) ==> !((#[trigger] edits[j]).id@ == id
                && edits[j].enabled),
        first_enabled(edits, id) < edits.len() ==> edits[first_enabled(edits, id)].id@ == id
            && edits[first_enabled(edits, id)].enabled,
    decreases edits.len(),
{
    if edits.len() > 0 {
        let prefix = edits.drop_last();
        lemma_first_enabled(prefix, id);
        assert forall|j: int| 0 <= j < edits.len() - 1 implies edits[j] == prefix[j] by {}
        let kp = first_enabled(prefix, id);
        if kp < edits.len() - 1 {
            assert(edits[kp] == prefix[kp]);
        }
    }
}

/// The problem of the editor's defaults, if any: when either field is set, the provider
/// must be enabled in the editor and list the model.
pub open spec fn defaults_issue(edit: ProviderConfigEdit) -> Option<Seq<char>> {
    match edit.defaults {
        None => None,
        Some(d) => if d.provider@.len() == 0 && d.model@.len() == 0 {
            None
        } else {
            let k = first_enabled(edit.providers@, d.provider@);
            if k == edit.providers@.len() {
                Some("Default provider `"@ + d.provider@ + "` is missing or disabled"@)
            } else if !(exists|m: int|
                0 <= m < edit.providers@[k].models@.len()
                    && (#[trigger] edit.providers@[k].models@[m]).id@ == d.model@) {
                Some(
                    "Default model `"@ + d.model@ + "` is not configured under provider `"@
                        + d.provider@ + "`"@,
                )
            } else {
                None
            }
        },
    }
}

fn valid_id(cs: &Vec<char>) -> (r: bool)
    ensures
        r == valid_id_chars(cs@),
{
    let n = cs.len();
    let mut i: usize = 0;
    while i < n
        invariant
            n == cs@.len(),
            i <= n,
            forall|j: int| 0 <= j < i ==> id_char(#[trigger] cs@[j]),
        decreases n - i,
    {
        let c = cs[i];
        if !(('a' <= c && c <= 'z') || ('A' <= c && c <= 'Z') || ('0' <= c && c <= '9') || c
            == '_' || c == '-') {
            return false;
        }
        i += 1;
    }
    true
}

fn has_blank_model(models: &Vec<ConfiguredModel>) -> (r: bool)
    ensures
        r == exists|k: int| 0 <= k < models@.len() && is_blank((#[trigger] models@[k]).id@),
{
    let n = models.len();
    let mut k: usize = 0;
    while k < n
        invariant
            n == models@.len(),
            k <= n,
            forall|j: int| 0 <= j < k ==> !is_blank((#[trigger] models@[j]).id@),
        decreases n - k,
    {
        if str_is_blank(models[k].id.as_str()) {
            return true;
        }
        k += 1;
    }
    false
}

fn lists_model(models: &Vec<ConfiguredModel>, id: &str) -> (r: bool)
    ensures
        r == exists|m: int| 0 <= m < models@.len() && (#[trigger] models@[m]).id@ == id@,
{
    let n = models.len();
    let mut k: usize = 0;
    while k < n
        invariant
            n == models@.len(),
            k <= n,
            forall|j: int| 0 <= j < k ==> (#[trigger] models@[j]).id@ != id@,
        decreases n - k,
    {
        if str_eq(models[k].id.as_str(), id) {
            return true;
        }
        k += 1;
    }
    false
}

fn find_enabled(edits: &Vec<ProviderEdit>, id: &str) -> (r: usize)
    ensures
        r == first_enabled(edits@, id@),
        r < edits@.len() ==> edits@[r as int].id@ == id@ && edits@[r as int].enabled,
{
    proof {
        lemma_first_enabled(edits@, id@);
    }
    let n = edits.len();
    let mut k: usize = 0;
    while k < n
        invariant
            n == edits@.len(),
            k <= first_enabled(edits@, id@),
            0 <= first_enabled(edits@, id@) <= edits@.len(),
            forall|j: int|
                0 <= j < first_enabled(edits@, id@) ==> !((#[trigger] edits@[j]).id@ == id@
                    && edits@[j].enabled),
            first_enabled(edits@, id@) < edits@.len() ==> edits@[first_enabled(edits@, id@)].id@
                == id@ && edits@[first_enabled(edits@, id@)].enabled,
        decreases n - k,
    {
        if edits[k].enabled && str_eq(edits[k].id.as_str(), id) {
            return k;
        }
        k += 1;
    }
    k
}

proof fn lemma_first_issue_stable(edits: Seq<ProviderEdit>, a: int, b: int)
    requires
        0 <= a <= b,
        first_provider_issue(edits, a) is Some,
    ensures
        first_provider_issue(edits, b) == first_provider_issue(edits, a),
    decreases b - a,
{
    if a < b {
        lemma_first_issue_stable(edits, a, b - 1);
    }
}

fn provider_problem(edits: &Vec<ProviderEdit>, i: usize, seen: &Vec<String>) -> (r: Option<String>)
    requires
        i < edits@.len(),
        seen@.len() == i,
        forall|j: int| 0 <= j < i ==> (#[trigger] seen@[j])@ == trim_seq(edits@[j].id@),
    ensures
        match r {
            Some(m) => provider_issue(edits@, i as int) == Some(m@),
            None => provider_issue(edits@, i as int) is None,
        },
{
    let t = crate::models::trim_str(edits[i].id.as_str());
    if str_is_empty(t) {
        proof {
            reveal_strlit("Provider id cannot be empty");
        }
        return Some(owned("Provider id cannot be empty"));
    }
    let tc = crate::text::chars_of(t);
    if !valid_id(&tc) {
        let mut m = join2("Provider id `", t);
        push_str(&mut m, "` contains invalid characters (allowed: a-z, 0-9, _, -)");
        return Some(m);
    }
    let ts = owned(t);
    let dup = contains_text(seen, &ts);
    if dup {
        proof {
            let j = choose|j: int| 0 <= j < seen@.len() && (#[trigger] seen@[j])@ == ts@;
            assert(trim_seq(edits@[j].id@) == trim_seq(edits@[i as int].id@));
        }
        let mut m = join2("Duplicate provider id: `", t);
        push_str(&mut m, "`");
        return Some(m);
    }
    proof {
        assert forall|j: int| 0 <= j < i implies trim_seq((#[trigger] edits@[j]).id@) != trim_seq(
            edits@[i as int].id@,
        ) by {
            assert(seen@[j]@ == trim_seq(edits@[j].id@));
        }
    }
    if has_blank_model(&edits[i].models) {
        let mut m = join2("Provider `", t);
        push_str(&mut m, "` has a model with empty id");
        return Some(m);
    }
    None
}

/// Checks an edited provider configuration before it is saved: the first provider problem
/// (see [`provider_issue`]), else the defaults' problem (see [`defaults_issue`]), gives
/// `InvalidInput` with its message.
pub fn validate_provider_config(edit: &ProviderConfigEdit) -> (r: Result<(), AppError>)
    ensures
        match first_provider_issue(edit.providers@, edit.providers@.len() as int) {
            Some(e) => r matches Err(AppError::InvalidInput(m)) && m@ == e,
            None => match defaults_issue(*edit) {
                Some(e) => r matches Err(AppError::InvalidInput(m)) && m@ == e,
                None => r is Ok,
            },
        },
{
    let edits = &edit.providers;
    let mut seen: Vec<String> = Vec::new();
    let n = edits.len();
    let mut i: usize = 0;
    while i < n
        invariant
            edits@ == edit.providers@,
            n == edits@.len(),
            i <= n,
            seen@.len() == i,
            forall|j: int| 0 <= j < i ==> (#[trigger] seen@[j])@ == trim_seq(edits@[j].id@),
            first_provider_issue(edits@, i as int) is None,
        decreases n - i,
    {
        match provider_problem(edits, i, &seen) {
            Some(m) => {
                proof {
                    assert(first_provider_issue(edits@, i + 1) == Some(m@));
                    lemma_first_issue_stable(edits@, i + 1, n as int);
                }
                return Err(AppError::InvalidInput(m));
            },
            None => {},
        }
        let t = crate::models::trim_str(edits[i].id.as_str());
        seen.push(owned(t));
        i += 1;
    }
    match &edit.defaults {
        None => Ok(()),
        Some(d) => {
            if str_is_empty(d.provider.as_str()) && str_is_empty(d.model.as_str()) {
                return Ok(());
            }
            let k = find_enabled(edits, d.provider.as_str());
            if k == n {
                let mut m = join2("Default provider `", d.provider.as_str());
                push_str(&mut m, "` is missing or disabled");
                return Err(AppError::InvalidInput(m));
            }
            if !lists_model(&edits[k].models, d.model.as_str()) {
                let mut m = join2("Default model `", d.model.as_str());
                push_str(&mut m, "` is not configured under provider `");
                push_str(&mut m, d.provider.as_str());
                push_str(&mut m, "`");
                return Err(AppError::InvalidInput(m));
            }
            Ok(())
        },
    }
}

/// A named text value (an environment variable, a stored key).
#[derive(Debug, Clone, PartialEq, Eq)]
pub struct NamedValue {
    pub name: String,
    pub value: String,
}

/// The value named `name` in `values` (the first one), if any.
pub open spec fn named(values: Seq<NamedValue>, name: Seq<char>) -> Option<Seq<char>>
    decreases values.len(),
{
    if values.len() == 0 {
        None
    } else if values[0].name@ == name {
        Some(values[0].value@)
    } else {
        named(values.drop_first(), name)
    }
}

/// The value named `name` in `values`, if any.
pub fn value_named<'a>(values: &'a Vec<NamedValue>, name: &str) -> (r: Option<&'a str>)
    ensures
        ostr_ref(r) == named(values@, name@),
{
    let n = values.len();
    let mut i: usize = 0;
    assert(values@.subrange(0, n as int) =~= values@);
    while i < n
        invariant
            n == values@.len(),
            i <= n,
            named(values@, name@) == named(values@.subrange(i as int, n as int), name@),
        decreases n - i,
    {
        if str_eq(values[i].name.as_str(), name) {
            return Some(values[i].value.as_str());
        }
        assert(values@.subrange(i as int, n as int).drop_first() =~= values@.subrange(
            i + 1,
            n as int,
        ));
        i += 1;
    }
    None
}

fn copy_models(v: &Vec<ConfiguredModel>) -> (r: Vec<ConfiguredModel>)
    ensures
        r@ == v@,
{
    let mut out: Vec<ConfiguredModel> = Vec::new();
    for i in 0..v.len()
        invariant
            out@ == v@.take(i as int),
    {
        out.push(
            ConfiguredModel {
                id: v[i].id.clone(),
                display_name: copy_opt_string(&v[i].display_name),
            },
        );
        assert(out@ =~= v@.take(i + 1));
    }
    assert(v@.take(v@.len() as int) =~= v@);
    out
}

/// The editor entry of built-in provider `b` under its configuration entry `cfg`, with
/// the environment `env`.
pub open spec fn builtin_edit_is(
    e: ProviderEdit,
    b: ProviderDefView,
    cfg: Option<ProviderConfig>,
    env: Seq<NamedValue>,
) -> bool {
    let set = key_set(b.auth_env, named(env, b.auth_env), cfg);
    &&& e.id@ == b.id
    &&& ostr(e.display_name) == Some(
        match cfg {
            Some(c) => match c.display_name {
                Some(d) => d@,
                None => b.display_name,
            },
            None => b.display_name,
        },
    )
    &&& e.kind == b.kind
    &&& ostr(e.api_base) == match (match cfg {
        Some(c) => ostr(c.api_base),
        None => None,
    }) {
        Some(a) => Some(a),
        None => b.api_base,
    }
    &&& e.api_key_set == set
    &&& ostr(e.api_key) == (if set {
        Some(MASKED_API_KEY@)
    } else {
        None
    })
    &&& ostr(e.auth_env) == Some(b.auth_env)
    &&& e.enabled == match cfg {
        Some(c) => match c.enabled {
            Some(x) => x,
            None => true,
        },
        None => true,
    }
    &&& e.builtin
    &&& e.models@ == match cfg {
        Some(c) => c.models@,
        None => Seq::empty(),
    }
}

/// The editor entry of the custom provider configured by `entry`, with the environment `env`.
pub open spec fn custom_edit_is(e: ProviderEdit, entry: ProviderEntry, env: Seq<NamedValue>) -> bool {
    let c = entry.config;
    let auth = match c.auth_env {
        Some(a) => a@,
        None => Seq::empty(),
    };
    let set = key_set(auth, named(env, auth), Some(c));
    &&& e.id@ == entry.id@
    &&& e.display_name == c.display_name
    &&& e.kind == match c.kind {
        Some(k) => k,
        None => ProviderKind::OpenAiCompatible,
    }
    &&& e.api_base == c.api_base
    &&& e.api_key_set == set
    &&& ostr(e.api_key) == (if set {
        Some(MASKED_API_KEY@)
    } else {
        None
    })
    &&& e.auth_env == c.auth_env
    &&& e.enabled == match c.enabled {
        Some(x) => x,
        None => true,
    }
    &&& !e.builtin
    &&& e.models@ == c.models@
}

/// Configuration entries of custom providers (ids that are not built-in), in order.
pub open spec fn custom_entries(entries: Seq<ProviderEntry>) -> Seq<ProviderEntry>
    decreases entries.len(),
{
    if entries.len() == 0 {
        Seq::empty()
    } else {
        let rest = custom_entries(entries.drop_last());
        if is_builtin_id(entries.last().id@) {
            rest
        } else {
            rest.push(entries.last())
        }
    }
}

/// The editor's defaults for the configured `defaults` (missing fields become empty).
pub open spec fn defaults_edit_is(r: Option<ProviderDefaults>, d: Option<ConfigDefaults>) -> bool {
    match d {
        None => r is None,
        Some(d) => r matches Some(x) && x.provider@ == match d.provider {
            Some(p) => p@,
            None => Seq::empty(),
        } && x.model@ == match d.model {
            Some(m) => m@,
            None => Seq::empty(),
        },
    }
}

fn builtin_edit(b: &ProviderDefinition, cfg: Option<&ProviderConfig>, env: &Vec<NamedValue>) -> (r: ProviderEdit)
    ensures
        builtin_edit_is(r, b@, ocfg(cfg), env@),
{
    let env_value = value_named(env, b.info.auth_env.as_str());
    let (set, key) = api_key_state(b.info.auth_env.as_str(), env_value, cfg);
    let display_name = match cfg {
        Some(c) => match &c.display_name {
            Some(d) => d.clone(),
            None => b.info.display_name.clone(),
        },
        None => b.info.display_name.clone(),
    };
    let cfg_base = match cfg {
        Some(c) => copy_opt_string(&c.api_base),
        None => None,
    };
    let api_base = match cfg_base {
        Some(a) => Some(a),
        None => copy_opt_string(&b.info.api_base),
    };
    let enabled = match cfg {
        Some(c) => match c.enabled {
            Some(x) => x,
            None => true,
        },
        None => true,
    };
    let models = match cfg {
        Some(c) => copy_models(&c.models),
        None => Vec::new(),
    };
    ProviderEdit {
        id: b.info.id.clone(),
        display_name: Some(display_name),
        kind: b.info.kind,
        api_base,
        api_key: key,
        api_key_set: set,
        auth_env: Some(b.info.auth_env.clone()),
        enabled,
        builtin: true,
        models,
    }
}

fn custom_edit(entry: &ProviderEntry, env: &Vec<NamedValue>) -> (r: ProviderEdit)
    ensures
        custom_edit_is(r, *entry, env@),
{
    let c = &entry.config;
    let auth: &str = match &c.auth_env {
        Some(a) => a.as_str(),
        None => "",
    };
    proof {
        reveal_strlit("");
    }
    let env_value = value_named(env, auth);
    let (set, key) = api_key_state(auth, env_value, Some(c));
    ProviderEdit {
        id: entry.id.clone(),
        display_name: copy_opt_string(&c.display_name),
        kind: match c.kind {
            Some(k) => k,
            None => ProviderKind::OpenAiCompatible,
        },
        api_base: copy_opt_string(&c.api_base),
        api_key: key,
        api_key_set: set,
        auth_env: copy_opt_string(&c.auth_env),
        enabled: match c.enabled {
            Some(x) => x,
            None => true,
        },
        builtin: false,
        models: copy_models(&c.models),
    }
}

/// The editable configuration: every built-in provider (disabled ones too, so they can be
/// re-enabled) under its configuration entry, then the custom providers in entry order;
/// keys are masked. `env` holds the values of the environment variables the providers name.
pub fn config_view(config: &AppConfig, env: &Vec<NamedValue>) -> (r: ProviderConfigEdit)
    ensures
        r.providers@.len() == builtin_views().len() + custom_entries(config.providers@).len(),
        forall|i: int|
            0 <= i < builtin_views().len() ==> builtin_edit_is(
                #[trigger] r.providers@[i],
                builtin_views()[i],
                lookup(config.providers@, builtin_views()[i].id),
                env@,
            ),
        forall|j: int|
            0 <= j < custom_entries(config.providers@).len() ==> custom_edit_is(
                #[trigger] r.providers@[builtin_views().len() + j],
                custom_entries(config.providers@)[j],
                env@,
            ),
        defaults_edit_is(r.defaults, config.defaults),
{
    let builtins = default_providers();
    let mut out: Vec<ProviderEdit> = Vec::new();
    for i in 0..builtins.len()
        invariant
            def_views(builtins@) == builtin_views(),
            out@.len() == i,
            forall|k: int|
                0 <= k < i ==> builtin_edit_is(
                    #[trigger] out@[k],
                    builtin_views()[k],
                    lookup(config.providers@, builtin_views()[k].id),
                    env@,
                ),
    {
        proof {
            assert(def_views(builtins@)[i as int] == builtins@[i as int]@);
        }
        let cfg = config_for(&config.providers, builtins[i].info.id.as_str());
        out.push(builtin_edit(&builtins[i], cfg, env));
    }
    let nb = out.len();
    let entries = &config.providers;
    for j in 0..entries.len()
        invariant
            nb == builtin_views().len(),
            out@.len() == nb + custom_entries(entries@.take(j as int)).len(),
            forall|k: int|
                0 <= k < nb ==> builtin_edit_is(
                    #[trigger] out@[k],
                    builtin_views()[k],
                    lookup(config.providers@, builtin_views()[k].id),
                    env@,
                ),
            forall|k: int|
                0 <= k < custom_entries(entries@.take(j as int)).len() ==> custom_edit_is(
                    #[trigger] out@[nb + k],
                    custom_entries(entries@.take(j as int))[k],
                    env@,
                ),
    {
        proof {
            assert(entries@.take(j + 1).drop_last() =~= entries@.take(j as int));
        }
        if !builtin_id(entries[j].id.as_str()) {
            let e = custom_edit(&entries[j], env);
            let ghost before = out@;
            out.push(e);
            proof {
                let prev = custom_entries(entries@.take(j as int));
                assert(custom_entries(entries@.take(j + 1)) == prev.push(entries@[j as int]));
                assert forall|k: int| 0 <= k < nb implies out@[k] == before[k] by {}
                assert forall|k: int| 0 <= k < prev.len() + 1 implies custom_edit_is(
                    #[trigger] out@[nb + k],
                    prev.push(entries@[j as int])[k],
                    env@,
                ) by {
                    if k < prev.len() {
                        assert(out@[nb + k] == before[nb + k]);
                    }
                }
            }
        }
    }
    proof {
        assert(entries@.take(entries@.len() as int) =~= entries@);
    }
    let defaults = match &config.defaults {
        Some(d) => Some(
            ProviderDefaults {
                provider: match &d.provider {
                    Some(p) => p.clone(),
                    None => String::new(),
                },
                model: match &d.model {
                    Some(m) => m.clone(),
                    None => String::new(),
                },
            },
        ),
        None => None,
    };
    ProviderConfigEdit { defaults, providers: out }
}

/// What is written back for one provider of the editor.
#[derive(Debug, Clone, PartialEq, Eq)]
pub struct ProviderWrite {
    pub id: String,
    pub display_name: Option<String>,
    pub kind: ProviderKind,
    pub api_base: Option<String>,
    /// Written only when not blank.
    pub auth_env: Option<String>,
    /// A new key, else the stored one, else none.
    pub api_key: Option<String>,
    /// Written for built-in providers only.
    pub enabled: Option<bool>,
    /// Positions of the provider's models that are written (those with a non-blank id).
    pub model_indices: Vec<usize>,
}

/// The editor carries a new key: present, non-empty and not the mask.
pub open spec fn new_key(p: ProviderEdit) -> Option<Seq<char>> {
    match p.api_key {
        Some(k) => if k@.len() > 0 && k@ != MASKED_API_KEY@ {
            Some(k@)
        } else {
            None
        },
        None => None,
    }
}

/// Positions of the models with a non-blank id, in order.
pub open spec fn kept_model_indices(models: Seq<ConfiguredModel>) -> Seq<int>
    decreases models.len(),
{
    if models.len() == 0 {
        Seq::empty()
    } else {
        let rest = kept_model_indices(models.drop_last());
        if is_blank(models.last().id@) {
            rest
        } else {
            rest.push(models.len() - 1)
        }
    }
}

/// `w` is what provider `p` writes back, `stored` holding the keys already stored by id.
pub open spec fn write_is(w: ProviderWrite, p: ProviderEdit, stored: Seq<NamedValue>) -> bool {
    &&& w.id@ == p.id@
    &&& w.display_name == p.display_name
    &&& w.kind == p.kind
    &&& w.api_base == p.api_base
    &&& ostr(w.auth_env) == match p.auth_env {
        Some(a) => if is_blank(a@) {
            None
        } else {
            Some(a@)
        },
        None => None,
    }
    &&& ostr(w.api_key) == match new_key(p) {
        Some(k) => Some(k),
        None => named(stored, p.id@),
    }
    &&& w.enabled == if p.builtin {
        Some(p.enabled)
    } else {
        None
    }
    &&& w.model_indices@.map_values(|i: usize| i as int) == kept_model_indices(p.models@)
}

/// The providers of the editor that are written back: built-ins always (disabling keeps
/// the entry), custom ones only while enabled (disabling deletes them).
pub open spec fn written(edits: Seq<ProviderEdit>) -> Seq<ProviderEdit>
    decreases edits.len(),
{
    if edits.len() == 0 {
        Seq::empty()
    } else {
        let rest = written(edits.drop_last());
        if edits.last().builtin || edits.last().enabled {
            rest.push(edits.last())
        } else {
            rest
        }
    }
}

fn plan_one(p: &ProviderEdit, stored: &Vec<NamedValue>) -> (r: ProviderWrite)
    ensures
        write_is(r, *p, stored@),
{
    proof {
        reveal_strlit("sk-****");
    }
    let has_new = match &p.api_key {
        Some(k) => !str_is_empty(k.as_str()) && !str_eq(k.as_str(), MASKED_API_KEY),
        None => false,
    };
    let api_key = if has_new {
        copy_opt_string(&p.api_key)
    } else {
        match value_named(stored, p.id.as_str()) {
            Some(v) => Some(owned(v)),
            None => None,
        }
    };
    let auth_env = match &p.auth_env {
        Some(a) => if str_is_blank(a.as_str()) {
            None
        } else {
            Some(a.clone())
        },
        None => None,
    };
    let mut idx: Vec<usize> = Vec::new();
    for k in 0..p.models.len()
        invariant
            idx@.map_values(|i: usize| i as int) == kept_model_indices(p.models@.take(k as int)),
    {
        proof {
            assert(p.models@.take(k + 1).drop_last() =~= p.models@.take(k as int));
        }
        if !str_is_blank(p.models[k].id.as_str()) {
            let ghost before = idx@;
            idx.push(k);
            proof {
                assert(idx@.map_values(|i: usize| i as int) =~= before.map_values(|i: usize| i as int).push(k as int));
            }
        }
    }
    proof {
        assert(p.models@.take(p.models@.len() as int) =~= p.models@);
    }
    ProviderWrite {
        id: p.id.clone(),
        display_name: copy_opt_string(&p.display_name),
        kind: p.kind,
        api_base: copy_opt_string(&p.api_base),
        auth_env,
        api_key,
        enabled: if p.builtin { Some(p.enabled) } else { None },
        model_indices: idx,
    }
}

/// The `providers` section to write back for the editor (see [`written`] and
/// [`write_is`]); `stored` holds the keys the file already stores, by provider id, so a
/// masked or empty key keeps the stored one.
pub fn plan_providers_write(edit: &ProviderConfigEdit, stored: &Vec<NamedValue>) -> (r: Vec<ProviderWrite>)
    ensures
        r@.len() == written(edit.providers@).len(),
        forall|i: int| 0 <= i < r@.len() ==> write_is(#[trigger] r@[i], written(edit.providers@)[i], stored@),
{
    let edits = &edit.providers;
    let mut out: Vec<ProviderWrite> = Vec::new();
    for i in 0..edits.len()
        invariant
            edits@ == edit.providers@,
            out@.len() == written(edits@.take(i as int)).len(),
            forall|k: int| 0 <= k < out@.len() ==> write_is(#[trigger] out@[k], written(edits@.take(i as int))[k], stored@),
    {
        proof {
            assert(edits@.take(i + 1).drop_last() =~= edits@.take(i as int));
        }
        let p = &edits[i];
        if p.builtin || p.enabled {
            let w = plan_one(p, stored);
            let ghost before = out@;
            out.push(w);
            proof {
                let prev = written(edits@.take(i as int));
                assert(written(edits@.take(i + 1)) == prev.push(edits@[i as int]));
                assert forall|k: int| 0 <= k < out@.len() implies write_is(#[trigger] out@[k], prev.push(edits@[i as int])[k], stored@) by {
                    if k < before.len() {
                        assert(out@[k] == before[k]);
                    }
                }
            }
        }
    }
    proof {
        assert(edits@.take(edits@.len() as int) =~= edits@);
    }
    out
}

/// Why the model stopped, as the provider reports it.
#[derive(Debug, Clone, Copy, PartialEq, Eq, Structural)]
pub enum FinishKind {
    Stop,
    ToolCalls,
    Length,
    ContentFilter,
    FunctionCall,
}

/// Wire name of a finish reason (`stop` when none is reported).
pub open spec fn finish_name(f: Option<FinishKind>) -> Seq<char> {
    match f {
        Some(FinishKind::Stop) => "stop"@,
        Some(FinishKind::ToolCalls) => "tool_calls"@,
        Some(FinishKind::Length) => "length"@,
        Some(FinishKind::ContentFilter) => "content_filter"@,
        Some(FinishKind::FunctionCall) => "function_call"@,
        None => "stop"@,
    }
}

/// Wire name of a finish reason (see [`finish_name`]).
pub fn finish_reason_name(f: Option<FinishKind>) -> (r: String)
    ensures
        r@ == finish_name(f),
{
    proof {
        reveal_strlit("stop");
        reveal_strlit("tool_calls");
        reveal_strlit("length");
        reveal_strlit("content_filter");
        reveal_strlit("function_call");
    }
    owned(
        match f {
            Some(FinishKind::Stop) => "stop",
            Some(FinishKind::ToolCalls) => "tool_calls",
            Some(FinishKind::Length) => "length",
            Some(FinishKind::ContentFilter) => "content_filter",
            Some(FinishKind::FunctionCall) => "function_call",
            None => "stop",
        },
    )
}

/// Message of an empty model answer.
pub open spec fn empty_response_message() -> Seq<char> {
    "Provider returned empty response without tool_calls"@
}

/// Settles a model answer: the text (empty when absent) and the function calls (none when
/// the list is absent or empty). An answer with blank text and no calls is refused with
/// `LlmRequestFailed`, so an empty message never reaches the history.
pub fn settle_response(output: Option<String>, tool_calls: Option<Vec<crate::models::ToolCall>>) -> (r: Result<
    (String, Option<Vec<crate::models::ToolCall>>),
    AppError,
>)
    ensures
        ({
            let text = match output {
                Some(o) => o@,
                None => Seq::empty(),
            };
            let calls = match tool_calls {
                Some(v) => if v@.len() > 0 { Some(v@) } else { None },
                None => None,
            };
            if is_blank(text) && calls is None {
                r matches Err(AppError::LlmRequestFailed(m)) && m@ == empty_response_message()
            } else {
                r matches Ok((t, c)) && t@ == text && crate::models::opt_calls(c) == calls
            }
        }),
{
    let text = match output {
        Some(o) => o,
        None => String::new(),
    };
    let calls = match tool_calls {
        Some(v) => if v.len() > 0 { Some(v) } else { None },
        None => None,
    };
    if str_is_blank(text.as_str()) && calls.is_none() {
        proof {
            reveal_strlit("Provider returned empty response without tool_calls");
        }
        return Err(AppError::LlmRequestFailed(owned("Provider returned empty response without tool_calls")));
    }
    Ok((text, calls))
}

/// A model's settled answer, tagged with the provider and model that gave it.
#[derive(Debug)]
pub struct ModelCallResponse {
    pub provider_id: String,
    pub model_id: String,
    pub output: String,
    pub tool_calls: Option<Vec<ToolCall>>,
    pub finish_reason: String,
    /// The model's reasoning, when it sent any.
    pub reasoning: Option<String>,
}

/// The response of a call to `provider_id`/`model_id` that answered `output`, `tool_calls`,
/// `finish` and `reasoning`: the answer settled as [`settle_response`] does, the finish
/// reason by its wire name, and the provider and model echoed.
pub fn model_call_response(
    provider_id: &str,
    model_id: &str,
    output: Option<String>,
    tool_calls: Option<Vec<ToolCall>>,
    finish: Option<FinishKind>,
    reasoning: Option<String>,
) -> (r: Result<ModelCallResponse, AppError>)
    ensures
        ({
            let text = match output {
                Some(o) => o@,
                None => Seq::empty(),
            };
            let calls = match tool_calls {
                Some(v) => if v@.len() > 0 { Some(v@) } else { None },
                None => None,
            };
            if is_blank(text) && calls is None {
                r matches Err(AppError::LlmRequestFailed(m)) && m@ == empty_response_message()
            } else {
                r matches Ok(resp) && resp.provider_id@ == provider_id@ && resp.model_id@ == model_id@
                    && resp.output@ == text && opt_calls(resp.tool_calls) == calls
                    && resp.finish_reason@ == finish_name(finish) && ostr(resp.reasoning) == ostr(reasoning)
            }
        }),
{
    match settle_response(output, tool_calls) {
        Err(e) => Err(e),
        Ok((text, calls)) => Ok(
            ModelCallResponse {
                provider_id: owned(provider_id),
                model_id: owned(model_id),
                output: text,
                tool_calls: calls,
                finish_reason: finish_reason_name(finish),
                reasoning,
            },
        ),
    }
}

} // verus!

verus! {

/// A chat request message in the shape the provider client sends it.
#[derive(Debug)]
pub enum WireMessage {
    System { content: String },
    User { content: String },
    /// The content is sent only when not empty; the tool calls when the model declared some.
    Assistant { content: Option<String>, tool_calls: Option<Vec<ToolCall>> },
    Tool { tool_call_id: String, content: String },
}

/// The wire form of a model-side message. A tool result without the id of the call it
/// answers fails with `InvalidInput`.
pub fn to_wire_message(m: &ModelMessage) -> (r: Result<WireMessage, AppError>)
    ensures
        match m.role {
            ModelMessageRole::System => r matches Ok(WireMessage::System { content }) && content@ == m.content@,
            ModelMessageRole::User => r matches Ok(WireMessage::User { content }) && content@ == m.content@,
            ModelMessageRole::Assistant => r matches Ok(WireMessage::Assistant { content, tool_calls }) && (if m.content@.len()
                == 0 {
                content is None
            } else {
                content matches Some(c) && c@ == m.content@
            }) && opt_calls(tool_calls) == opt_calls(m.tool_calls),
            ModelMessageRole::Tool => match m.tool_call_id {
                Some(id) => r matches Ok(WireMessage::Tool { tool_call_id, content }) && tool_call_id@ == id@
                    && content@ == m.content@,
                None => r matches Err(AppError::InvalidInput(msg)) && msg@ == "Tool message missing tool_call_id"@,
            },
        },
{
    match m.role {
        ModelMessageRole::System => Ok(WireMessage::System { content: m.content.clone() }),
        ModelMessageRole::User => Ok(WireMessage::User { content: m.content.clone() }),
        ModelMessageRole::Assistant => {
            let content = if str_is_empty(m.content.as_str()) {
                None
            } else {
                Some(m.content.clone())
            };
            Ok(WireMessage::Assistant { content, tool_calls: copy_opt_tool_calls(&m.tool_calls) })
        },
        ModelMessageRole::Tool => match &m.tool_call_id {
            Some(id) => Ok(WireMessage::Tool { tool_call_id: id.clone(), content: m.content.clone() }),
            None => {
                proof {
                    reveal_strlit("Tool message missing tool_call_id");
                }
                Err(AppError::InvalidInput(owned("Tool message missing tool_call_id")))
            },
        },
    }
}

} // verus!
