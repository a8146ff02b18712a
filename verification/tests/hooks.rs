use pulsar_core::providers::NamedValue;
use pulsar_core::cycle::{CycleField, CycleParamKind, CycleParamSpec, CycleParamUsage, CycleValue, RoundRef};
use pulsar_core::hook_defs::{HookDef, HookParamKindView, HookRegistry, InjectPointId, RegisterError};
use pulsar_core::judgement::{
    blocked_marks, BlockMark, active_hooks, active_hooks_at, hook_def, hook_defs_meta, legacy_hooks, HookRun, JudgementStatus,
    ResponseFormatSpec, SYSTEM_TYPE_COMPLETE_SCOPE, SYSTEM_TYPE_MATCH_TOPIC, SYSTEM_TYPE_REVISE_TOPIC,
    SYSTEM_TYPE_ROUND_REVIEW, SYSTEM_TYPE_SCORE_FEEDBACK, SYSTEM_TYPE_USER_ROUND_JUDGEMENT,
};

fn every_n_param() -> CycleParamSpec {
    CycleParamSpec {
        key: "every".to_string(),
        label: "test.every".to_string(),
        field: Some(CycleField::UserRounds),
        round_ref: RoundRef::Current,
        kind: CycleParamKind::Number { min: 1, max: 50 },
        default: CycleValue::Int(3),
        usage: CycleParamUsage::CallGate,
    }
}

fn def(id: &str, label: &str, inject_point: InjectPointId, disable_hint: Option<&str>, params: Vec<CycleParamSpec>) -> HookDef<u32> {
    HookDef {
        id: id.to_string(),
        label: label.to_string(),
        inject_point,
        handler: 0u32,
        group: "test.group".to_string(),
        disable_hint: disable_hint.map(|s| s.to_string()),
        cycle_params: params,
    }
}

fn s(x: &str) -> String {
    x.to_string()
}

#[test]
fn duplicate_id_rejected() {
    let mut registry: HookRegistry<u32> = HookRegistry::new();
    let make = || def("dup", "dup", InjectPointId::AfterLoadContext, None, vec![]);
    assert!(registry.register(make()).is_ok());
    assert_eq!(registry.register(make()), Err(RegisterError::DuplicateId("dup".into())));
}

#[test]
fn set_enabled_unknown_id_errors() {
    let mut registry: HookRegistry<u32> = HookRegistry::new();
    assert_eq!(registry.set_enabled(&s("nope"), true), Err(RegisterError::UnknownId("nope".into())));
    assert!(!registry.is_enabled(&s("nope")));
    assert!(!registry.is_registered(&s("nope")));
}

#[test]
fn set_value_validates_and_param_of_reads() {
    let mut registry: HookRegistry<u32> = HookRegistry::new();
    registry
        .register(def("withparam", "withparam", InjectPointId::AfterPersistInput, None, vec![every_n_param()]))
        .unwrap();
    assert_eq!(registry.param_of(&s("withparam"), &s("every")), Some(CycleValue::Int(3)));
    assert!(registry.set_value(&s("withparam"), &s("every"), CycleValue::Int(10)).is_ok());
    assert_eq!(registry.param_of(&s("withparam"), &s("every")), Some(CycleValue::Int(10)));
    assert!(matches!(
        registry.set_value(&s("withparam"), &s("every"), CycleValue::Int(999)),
        Err(RegisterError::InvalidParam(_))
    ));
    assert!(matches!(
        registry.set_value(&s("withparam"), &s("every"), CycleValue::Bool(true)),
        Err(RegisterError::InvalidParam(_))
    ));
    assert!(matches!(
        registry.set_value(&s("withparam"), &s("nope"), CycleValue::Int(1)),
        Err(RegisterError::UnknownParam(_))
    ));
    assert!(matches!(
        registry.set_value(&s("ghost"), &s("every"), CycleValue::Int(1)),
        Err(RegisterError::UnknownId(_))
    ));
}

#[test]
fn refused_value_leaves_the_parameter_as_it_was() {
    let mut registry: HookRegistry<u32> = HookRegistry::new();
    registry
        .register(def("withparam", "withparam", InjectPointId::AfterPersistInput, None, vec![every_n_param()]))
        .unwrap();
    assert!(registry.set_value(&s("withparam"), &s("every"), CycleValue::Int(10)).is_ok());
    assert!(registry.set_value(&s("withparam"), &s("every"), CycleValue::Int(999)).is_err());
    assert_eq!(registry.param_of(&s("withparam"), &s("every")), Some(CycleValue::Int(10)));
    assert_eq!(registry.len(), 1);
}

#[test]
fn blocked_marks_carry_trimmed_reasons() {
    let reasons = vec![NamedValue { name: "i2".into(), value: "  waits on API  ".into() }];
    let marks = blocked_marks(&vec![s("i1"), s("i2")], &reasons);
    assert_eq!(
        marks,
        vec![
            BlockMark { item_id: s("i1"), reason: None },
            BlockMark { item_id: s("i2"), reason: Some(s("waits on API")) },
        ]
    );
}

#[test]
fn snapshot_all_is_spec_derived_and_stable() {
    let mut registry: HookRegistry<u32> = HookRegistry::new();
    registry
        .register(def("b-hook", "b.label", InjectPointId::AfterPersistInput, Some("test.hint"), vec![every_n_param()]))
        .unwrap();
    registry.register(def("a-hook", "a.label", InjectPointId::AfterLoadContext, None, vec![])).unwrap();
    let entries = registry.snapshot_all();
    assert_eq!(entries.len(), 2);
    assert_eq!(entries[0].id, "a-hook", "sorted by id, stable output");
    assert_eq!(entries[1].id, "b-hook");
    assert_eq!(entries[1].group, "test.group");
    assert_eq!(entries[1].disable_hint.as_deref(), Some("test.hint"));
    assert_eq!(entries[1].inject_point, "after_persist_input");
    assert_eq!(entries[1].enabled, false, "registered hooks start disabled");
    let param = &entries[1].params[0];
    assert_eq!(param.key, "every");
    assert_eq!(param.usage, "call_gate");
    assert_eq!(param.default, CycleValue::Int(3));
    assert_eq!(param.value, CycleValue::Int(3));
    assert!(matches!(param.kind, HookParamKindView::Number { min: 1, max: 50 }));
    assert!(entries[0].params.is_empty());
}

#[test]
fn any_hook_can_be_disabled_even_with_hint() {
    let mut registry: HookRegistry<u32> = HookRegistry::new();
    registry
        .register(def("hinted", "hinted", InjectPointId::AfterPersistInput, Some("test.hint"), vec![]))
        .unwrap();
    assert!(registry.set_enabled(&s("hinted"), false).is_ok(), "a hint never blocks disabling");
    assert!(!registry.is_enabled(&s("hinted")));
}

#[test]
fn enabled_hook_is_armed_in_registration_order() {
    let mut registry: HookRegistry<u32> = HookRegistry::new();
    registry.register(def("first", "first", InjectPointId::AfterCallModel, None, vec![])).unwrap();
    registry.register(def("second", "second", InjectPointId::AfterCallModel, None, vec![])).unwrap();
    registry.register(def("other", "other", InjectPointId::AfterLoadContext, None, vec![])).unwrap();
    assert!(registry.snapshot(InjectPointId::AfterCallModel).is_empty(), "nothing armed while disabled");
    registry.set_enabled(&s("second"), true).unwrap();
    registry.set_enabled(&s("first"), true).unwrap();
    registry.set_enabled(&s("other"), true).unwrap();
    let armed = registry.snapshot(InjectPointId::AfterCallModel);
    let ids: Vec<&str> = armed.iter().map(|a| a.id.as_str()).collect();
    assert_eq!(ids, vec!["first", "second"]);
    registry.set_enabled(&s("first"), false).unwrap();
    assert!(registry.is_registered(&s("first")), "disabling is not unregistering");
    assert_eq!(registry.snapshot(InjectPointId::AfterCallModel).len(), 1);
}

#[test]
fn register_error_messages() {
    assert_eq!(RegisterError::DuplicateId(s("x")).message(), "hook id already registered: x");
    assert_eq!(RegisterError::UnknownId(s("x")).message(), "hook id not registered: x");
    assert_eq!(RegisterError::UnknownParam(s("x.k")).message(), "hook param not declared: x.k");
    assert_eq!(RegisterError::InvalidParam(s("bad")).message(), "invalid hook param: bad");
}

#[test]
fn hook_def_finds_merged_two() {
    assert!(hook_def(SYSTEM_TYPE_USER_ROUND_JUDGEMENT).is_some());
    assert!(hook_def(SYSTEM_TYPE_ROUND_REVIEW).is_some());
    assert!(hook_def("assistant_match_topic").is_none());
    assert!(hook_def("assistant_complete_scope").is_none());
    assert!(hook_def("assistant_score_feedback").is_none());
    assert!(hook_def("assistant_revise_topic").is_none());
    assert!(hook_def("assistant_select_neuron").is_none());
    assert!(hook_def("unknown").is_none());
}

#[test]
fn fallback_values_are_neutral() {
    let user_round: serde_json::Value =
        serde_json::from_str(&hook_def(SYSTEM_TYPE_USER_ROUND_JUDGEMENT).unwrap().neutral_fallback).unwrap();
    assert_eq!(user_round["score"], serde_json::Value::from(0));
    assert_eq!(user_round["action"], serde_json::Value::from("none"));
    assert_eq!(user_round["topic_id"], serde_json::Value::Null);

    let review: serde_json::Value =
        serde_json::from_str(&hook_def(SYSTEM_TYPE_ROUND_REVIEW).unwrap().neutral_fallback).unwrap();
    let empty = serde_json::Value::Array(vec![]);
    assert_eq!(review["reason"], serde_json::Value::from(""));
    assert_eq!(review["add_items"], empty);
    assert_eq!(review["remove_item_ids"], empty);
    assert_eq!(review["update_items"], empty);
    assert_eq!(review["completed_item_ids"], empty);
    assert_eq!(review["blocked_item_ids"], empty);
}

#[test]
fn each_hook_carries_response_format_schema() {
    for h in active_hooks() {
        assert!(
            matches!(h.def.response_format, Some(ResponseFormatSpec::JsonSchema { .. })),
            "{} should carry a json_schema",
            h.def.system_type
        );
    }
}

#[test]
fn schemas_are_valid_strict_json_schema() {
    for h in active_hooks() {
        let Some(ResponseFormatSpec::JsonSchema { schema, .. }) = h.def.response_format.as_ref() else {
            panic!("hook carries schema")
        };
        let parsed: serde_json::Value = serde_json::from_str(schema).unwrap();
        assert_eq!(parsed["additionalProperties"], serde_json::Value::Bool(false));
    }
}

#[test]
fn hook_defs_meta_maps_label() {
    let metas = hook_defs_meta();
    assert_eq!(metas.len(), 2);
    assert!(metas.iter().any(|m| m.system_type == SYSTEM_TYPE_ROUND_REVIEW && m.label == "hook.roundReview"));
    assert!(metas.iter().any(|m| m.system_type == SYSTEM_TYPE_USER_ROUND_JUDGEMENT && m.label == "hook.userRoundJudgement"));
}

#[test]
fn judgement_status_serializes_snake_case() {
    assert_eq!(JudgementStatus::Succeeded.as_str(), "ok");
    assert_eq!(JudgementStatus::RetriedOk.as_str(), "retried_ok");
    assert_eq!(JudgementStatus::Downgraded.as_str(), "downgraded");
}

#[test]
fn active_hooks_exactly_merged_two() {
    let hooks = active_hooks();
    assert_eq!(hooks.len(), 2);
    assert_eq!(hooks[0].def.system_type, SYSTEM_TYPE_USER_ROUND_JUDGEMENT);
    assert_eq!(hooks[1].def.system_type, SYSTEM_TYPE_ROUND_REVIEW);
}

#[test]
fn legacy_hooks_exactly_old_four() {
    let hooks = legacy_hooks();
    assert_eq!(hooks.len(), 4);
    assert_eq!(hooks[0].def.system_type, SYSTEM_TYPE_SCORE_FEEDBACK);
    assert_eq!(hooks[1].def.system_type, SYSTEM_TYPE_MATCH_TOPIC);
    assert_eq!(hooks[2].def.system_type, SYSTEM_TYPE_REVISE_TOPIC);
    assert_eq!(hooks[3].def.system_type, SYSTEM_TYPE_COMPLETE_SCOPE);
}

#[test]
fn system_types_unique_across_lists() {
    let mut types: Vec<String> = active_hooks()
        .into_iter()
        .chain(legacy_hooks())
        .map(|h| h.def.system_type)
        .collect();
    let total = types.len();
    types.sort_unstable();
    types.dedup();
    assert_eq!(types.len(), total, "system_type must be unique across lists");
}

#[test]
fn active_hooks_at_filters_by_inject_point() {
    let ip1 = active_hooks_at(InjectPointId::AfterLoadContext);
    assert_eq!(ip1.len(), 1);
    assert_eq!(ip1[0].def.system_type, SYSTEM_TYPE_USER_ROUND_JUDGEMENT);
    let ip5 = active_hooks_at(InjectPointId::AfterPersistOutcome);
    assert_eq!(ip5.len(), 1);
    assert_eq!(ip5[0].def.system_type, SYSTEM_TYPE_ROUND_REVIEW);
    assert!(active_hooks_at(InjectPointId::AfterCallModel).is_empty());
}

#[test]
fn active_instance_finds_active_only() {
    assert!(active_hooks().iter().all(|h| h.def.system_type != SYSTEM_TYPE_COMPLETE_SCOPE));
}

#[test]
fn run_variant_matches_inject_point() {
    for h in active_hooks().into_iter().chain(legacy_hooks()) {
        match h.run {
            HookRun::Before => assert_eq!(h.def.inject_point, InjectPointId::AfterLoadContext.as_str()),
            HookRun::After => assert_eq!(h.def.inject_point, InjectPointId::AfterPersistOutcome.as_str()),
        }
    }
}

use pulsar_core::error::AppError;
use pulsar_core::hook_defs::{after_hook, AfterHook};

#[test]
fn only_load_context_failures_stop_the_round() {
    let boom = || Err(AppError::InvalidInput("boom".into()));
    assert_eq!(
        after_hook(InjectPointId::AfterLoadContext, boom(), "s1", "s1"),
        AfterHook::Stop(AppError::InvalidInput("boom".into()))
    );
    for point in [
        InjectPointId::AfterPersistInput,
        InjectPointId::AfterCallModel,
        InjectPointId::AfterExecuteTools,
        InjectPointId::AfterPersistOutcome,
    ] {
        assert_eq!(after_hook(point, boom(), "s1", "s1"), AfterHook::Continue);
        assert_eq!(after_hook(point, Ok(()), "s1", "s2"), AfterHook::Continue);
    }
    assert_eq!(after_hook(InjectPointId::AfterLoadContext, Ok(()), "s1", "s1"), AfterHook::Continue);
    assert_eq!(after_hook(InjectPointId::AfterLoadContext, Ok(()), "s1", "s2"), AfterHook::ReloadSession);
}
