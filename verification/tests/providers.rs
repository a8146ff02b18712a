use pulsar_core::error::AppError;
use pulsar_core::models::{ModelMessage, ModelMessageRole, ProviderKind};
use pulsar_core::providers::{
    model_call_response, FinishKind,
    api_key_state, config_view, plan_providers_write, resolve_provider_config, settle_response, validate_provider_config,
    validate_request, AppConfig, ConfigDefaults, ConfiguredModel, NamedValue, ProviderConfig, ProviderDefaults,
    ProviderEntry, ProviderRegistry, MASKED_API_KEY,
};

fn model(id: &str, name: Option<&str>) -> ConfiguredModel {
    ConfiguredModel { id: id.into(), display_name: name.map(|s| s.to_string()) }
}

fn cfg() -> ProviderConfig {
    ProviderConfig { api_key: None, api_base: None, display_name: None, auth_env: None, kind: None, enabled: None, models: vec![] }
}

fn entry(id: &str, config: ProviderConfig) -> ProviderEntry {
    ProviderEntry { id: id.into(), config }
}

fn config(defaults: Option<ConfigDefaults>, providers: Vec<ProviderEntry>) -> AppConfig {
    AppConfig { defaults, providers }
}

fn deepseek_config() -> ProviderConfig {
    ProviderConfig { models: vec![model("deepseek-v4-flash", Some("DeepSeek V4 Flash"))], ..cfg() }
}

fn my_llm(key: Option<&str>) -> ProviderConfig {
    ProviderConfig {
        display_name: Some("My LLM".into()),
        api_base: Some("https://api.my-llm.com/v1".into()),
        api_key: key.map(|s| s.to_string()),
        models: vec![model("my-model", Some("My Model"))],
        ..cfg()
    }
}

fn user_msg(text: &str) -> ModelMessage {
    ModelMessage { role: ModelMessageRole::User, content: text.into(), tool_calls: None, tool_call_id: None, reasoning_content: None }
}

#[test]
fn list_models_filters_by_provider() {
    let c = config(None, vec![entry("deepseek", deepseek_config())]);
    let registry = ProviderRegistry::new(&c);
    let models = registry.list_models(Some("deepseek"), &c).expect("provider should exist");
    assert!(models.iter().all(|m| m.provider_id == "deepseek"));
    assert!(models.iter().any(|m| m.id == "deepseek-v4-flash"));
}

#[test]
fn default_model_selection_reads_config() {
    let c = config(
        Some(ConfigDefaults { provider: Some("deepseek".into()), model: Some("deepseek-v4-flash".into()) }),
        vec![entry("deepseek", deepseek_config())],
    );
    let registry = ProviderRegistry::new(&c);
    let selection = registry.default_model_selection(&c).expect("defaults should load").expect("defaults configured");
    assert_eq!(selection.provider_id, "deepseek");
    assert_eq!(selection.model_id, "deepseek-v4-flash");
}

#[test]
fn unknown_provider_returns_error() {
    let c = AppConfig::empty();
    let registry = ProviderRegistry::new(&c);
    let error = registry.list_models(Some("missing"), &c).expect_err("provider should be rejected");
    assert_eq!(error.code(), "provider_not_found");
}

#[test]
fn call_model_rejects_unknown_model_before_network() {
    let c = AppConfig::empty();
    let registry = ProviderRegistry::new(&c);
    assert!(validate_request("openai", "missing-model", &[user_msg("hello")]).is_ok());
    let error = registry.require_model("openai", "missing-model", &c).expect_err("unknown model should be rejected");
    assert_eq!(error.code(), "model_not_found");
}

#[test]
fn disabled_builtin_is_filtered_from_list() {
    let c = config(None, vec![entry("ollama", ProviderConfig { enabled: Some(false), ..cfg() })]);
    let registry = ProviderRegistry::new(&c);
    let providers = registry.list_providers();
    assert!(providers.iter().any(|p| p.id == "openai"));
    assert!(!providers.iter().any(|p| p.id == "ollama"));
}

#[test]
fn custom_provider_roundtrip_and_mask_keeps_key() {
    let c = config(None, vec![entry("my-llm", my_llm(Some("real-secret-key")))]);
    let view = config_view(&c, &vec![]);
    let custom = view.providers.iter().find(|p| p.id == "my-llm").expect("custom provider present");
    assert!(custom.api_key_set);
    assert_eq!(custom.api_key.as_deref(), Some("sk-****"));
    assert!(!custom.builtin);
    assert!(validate_provider_config(&view).is_ok());
    let stored = vec![NamedValue { name: "my-llm".into(), value: "real-secret-key".into() }];
    let plan = plan_providers_write(&view, &stored);
    let w = plan.iter().find(|w| w.id == "my-llm").unwrap();
    assert_eq!(w.api_key.as_deref(), Some("real-secret-key"), "masked save must keep key");
}

#[test]
fn save_overwrites_api_key_when_new_value() {
    let c = config(None, vec![entry("my-llm", ProviderConfig { models: vec![], ..my_llm(Some("old-key")) })]);
    let mut view = config_view(&c, &vec![]);
    let custom = view.providers.iter_mut().find(|p| p.id == "my-llm").unwrap();
    custom.api_key = Some("new-key".to_string());
    assert!(validate_provider_config(&view).is_ok());
    let stored = vec![NamedValue { name: "my-llm".into(), value: "old-key".into() }];
    let plan = plan_providers_write(&view, &stored);
    let w = plan.iter().find(|w| w.id == "my-llm").unwrap();
    assert_eq!(w.api_key.as_deref(), Some("new-key"));
}

#[test]
fn save_rejects_invalid_id_and_dangling_defaults() {
    let c = AppConfig::empty();
    let mut view = config_view(&c, &vec![]);
    view.providers[0].id = "bad id!".to_string();
    assert_eq!(
        validate_provider_config(&view),
        Err(AppError::InvalidInput("Provider id `bad id!` contains invalid characters (allowed: a-z, 0-9, _, -)".into()))
    );
    let mut view = config_view(&c, &vec![]);
    view.defaults = Some(ProviderDefaults { provider: "ghost".into(), model: "m".into() });
    assert_eq!(
        validate_provider_config(&view),
        Err(AppError::InvalidInput("Default provider `ghost` is missing or disabled".into()))
    );
}

#[test]
fn custom_provider_delete_removes_from_disk() {
    let c = config(None, vec![entry("my-llm", ProviderConfig { models: vec![], ..my_llm(None) })]);
    let mut view = config_view(&c, &vec![]);
    let custom = view.providers.iter_mut().find(|p| p.id == "my-llm").unwrap();
    custom.enabled = false;
    let plan = plan_providers_write(&view, &vec![]);
    assert!(!plan.iter().any(|w| w.id == "my-llm"), "disabled custom provider is removed");
    assert_eq!(plan.len(), 4, "built-ins are always written");
}

#[test]
fn validation_errors_in_order() {
    let c = AppConfig::empty();
    let mut view = config_view(&c, &vec![]);
    view.providers[1].id = " openai ".into();
    assert_eq!(validate_provider_config(&view), Err(AppError::InvalidInput("Duplicate provider id: `openai`".into())));
    let mut view = config_view(&c, &vec![]);
    view.providers[2].id = "   ".into();
    assert_eq!(validate_provider_config(&view), Err(AppError::InvalidInput("Provider id cannot be empty".into())));
    let mut view = config_view(&c, &vec![]);
    view.providers[0].models = vec![model(" ", None)];
    assert_eq!(validate_provider_config(&view), Err(AppError::InvalidInput("Provider `openai` has a model with empty id".into())));
    let mut view = config_view(&c, &vec![]);
    view.defaults = Some(ProviderDefaults { provider: "openai".into(), model: "gpt".into() });
    assert_eq!(
        validate_provider_config(&view),
        Err(AppError::InvalidInput("Default model `gpt` is not configured under provider `openai`".into()))
    );
    view.providers[0].models = vec![model("gpt", None)];
    assert_eq!(validate_provider_config(&view), Ok(()));
    view.defaults = Some(ProviderDefaults { provider: String::new(), model: String::new() });
    assert_eq!(validate_provider_config(&view), Ok(()));
}

#[test]
fn assembled_registry_order_and_custom_defaults() {
    let c = config(None, vec![entry("zz", ProviderConfig { auth_env: Some("ZZ_KEY".into()), ..cfg() }), entry("openai", cfg())]);
    let registry = ProviderRegistry::new(&c);
    let ids: Vec<String> = registry.list_providers().into_iter().map(|p| p.id).collect();
    assert_eq!(ids, vec!["openai", "deepseek", "ollama", "custom", "zz"]);
    let zz = registry.require_provider("zz").unwrap();
    assert_eq!(zz.info.display_name, "zz");
    assert_eq!(zz.info.kind, ProviderKind::OpenAiCompatible);
    assert!(zz.allow_unlisted_models && zz.api_key_required && !zz.builtin);
    assert_eq!(registry.require_model("zz", "anything", &c), Ok(()));
    assert_eq!(registry.require_provider("nope").unwrap_err(), AppError::ProviderNotFound("nope".into()));
}

#[test]
fn half_configured_defaults_are_rejected() {
    let c = config(Some(ConfigDefaults { provider: Some("openai".into()), model: None }), vec![]);
    let registry = ProviderRegistry::new(&c);
    assert_eq!(
        registry.default_model_selection(&c),
        Err(AppError::InvalidInput("`defaults.provider` and `defaults.model` must be configured together".into()))
    );
    let c = config(Some(ConfigDefaults { provider: None, model: None }), vec![]);
    assert_eq!(registry.default_model_selection(&c), Ok(None));
}

#[test]
fn request_validation_messages() {
    assert_eq!(validate_request(" ", "m", &[user_msg("x")]), Err(AppError::InvalidInput("Provider id cannot be empty".into())));
    assert_eq!(validate_request("p", "", &[user_msg("x")]), Err(AppError::InvalidInput("Model id cannot be empty".into())));
    assert_eq!(validate_request("p", "m", &[]), Err(AppError::InvalidInput("Messages cannot be empty".into())));
    assert_eq!(
        validate_request("p", "m", &[user_msg(" ")]),
        Err(AppError::InvalidInput("Model message content cannot be empty".into()))
    );
    let tool_declaration = ModelMessage {
        role: ModelMessageRole::Assistant,
        content: String::new(),
        tool_calls: Some(vec![pulsar_core::models::ToolCall { id: "c".into(), name: "t".into(), arguments: serde_json::Value::Null }]),
        tool_call_id: None,
        reasoning_content: None,
    };
    assert_eq!(validate_request("p", "m", &[tool_declaration]), Ok(()));
}

#[test]
fn credentials_resolution() {
    let c = AppConfig::empty();
    let registry = ProviderRegistry::new(&c);
    let openai = registry.require_provider("openai").unwrap();
    assert_eq!(
        resolve_provider_config(&openai, None, None, None),
        Err(AppError::ProviderAuthMissing("Missing API key for provider `openai`. Set OPENAI_API_KEY or .pulsar/config.json.".into()))
    );
    let with_key = ProviderConfig { api_key: Some("cfg-key".into()), api_base: Some("http://cfg".into()), ..cfg() };
    let r = resolve_provider_config(&openai, Some(&with_key), Some("env-key"), None).unwrap();
    assert_eq!(r.api_key, "env-key");
    assert_eq!(r.api_base.as_deref(), Some("http://cfg"));
    let r = resolve_provider_config(&openai, Some(&with_key), None, Some("http://env")).unwrap();
    assert_eq!(r.api_key, "cfg-key");
    assert_eq!(r.api_base.as_deref(), Some("http://env"));
    let ollama = registry.require_provider("ollama").unwrap();
    let r = resolve_provider_config(&ollama, None, None, None).unwrap();
    assert_eq!(r.api_key, "local-provider");
    assert_eq!(r.api_base.as_deref(), Some("http://localhost:11434/v1"));
}

#[test]
fn key_state_is_masked() {
    assert_eq!(api_key_state("OPENAI_API_KEY", Some("x"), None), (true, Some(MASKED_API_KEY.to_string())));
    assert_eq!(api_key_state("", Some("x"), None), (false, None));
    let c = ProviderConfig { api_key: Some("  ".into()), ..cfg() };
    assert_eq!(api_key_state("K", Some(" "), Some(&c)), (false, None));
}

#[test]
fn empty_answer_is_refused() {
    assert_eq!(
        settle_response(Some("  ".into()), Some(vec![])),
        Err(AppError::LlmRequestFailed("Provider returned empty response without tool_calls".into()))
    );
    assert_eq!(settle_response(None, None).is_err(), true);
    assert_eq!(settle_response(Some("ok".into()), Some(vec![])), Ok(("ok".to_string(), None)));
    let calls = vec![pulsar_core::models::ToolCall { id: "c".into(), name: "t".into(), arguments: serde_json::Value::Null }];
    let (text, got) = settle_response(None, Some(calls.clone())).unwrap();
    assert_eq!(text, "");
    assert_eq!(got, Some(calls));
}

#[test]
fn model_response_echoes_provider_and_model() {
    let r = model_call_response("openai", "gpt-4o", Some("hi".into()), None, Some(FinishKind::Length), Some("why".into()))
        .unwrap();
    assert_eq!(r.provider_id, "openai");
    assert_eq!(r.model_id, "gpt-4o");
    assert_eq!(r.output, "hi");
    assert_eq!(r.tool_calls, None);
    assert_eq!(r.finish_reason, "length");
    assert_eq!(r.reasoning.as_deref(), Some("why"));
    let empty = model_call_response("openai", "gpt-4o", Some(" ".into()), Some(vec![]), None, None);
    assert!(matches!(empty, Err(AppError::LlmRequestFailed(m)) if m == "Provider returned empty response without tool_calls"));
    let stop = model_call_response("p", "m", Some("ok".into()), None, None, None).unwrap();
    assert_eq!(stop.finish_reason, "stop");
}
