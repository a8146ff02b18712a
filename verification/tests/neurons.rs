use pulsar_core::creation::{
    available_tools_block, check_create_count, check_session_type, create_neuron_user_prompt, fill_purpose, fills_creator,
    plan_ensure_system, system_prompt_request, system_root_desc, EnsureStep, PromptSubject, ToolLine,
};
use pulsar_core::error::AppError;
use pulsar_core::evolution::{evolution_action, rollback_outcome, EvolutionAction, RollbackOutcome, VariantFacts};
use pulsar_core::models::{NeighborhoodPoolPolicy, SelectionPolicy, SessionBehavior, ToolPolicy};
use pulsar_core::neuron_config::{
    default_behavior_for_system_type, rebootstrap_system_types, NeuronConfigReader, DEFAULT_CREATE_NEURON_PROMPT,
    SELECT_NEURON_SEED,
};
use pulsar_core::providers::NamedValue;
use pulsar_core::selection::{
    check_fill_count, needs_link_back, neighborhood_pool_bound, new_child_count, pick_named, CandidateAssembly, IdPool,
    PoolStep,
};

fn ids(list: &[&str]) -> Vec<String> {
    list.iter().map(|s| s.to_string()).collect()
}

fn variant(observing: bool, use_count: i64, negative: bool, deeply_negative: bool, strong_signal: bool) -> VariantFacts {
    VariantFacts { observing, use_count, manual_edited: false, negative, deeply_negative, strong_signal }
}

#[test]
fn pool_dedupes_by_id_keeping_first() {
    let mut pool = IdPool::new();
    assert!(pool.insert(&"a".to_string()));
    assert!(pool.insert(&"b".to_string()));
    assert!(!pool.insert(&"a".to_string()));
    assert_eq!(pool.members(), ids(&["a", "b"]));
    pool.truncate(1);
    assert_eq!(pool.members(), ids(&["a"]));
    assert!(pool.contains(&"b".to_string()), "truncating keeps what was seen");
}

#[test]
fn candidate_pool_fills_new_then_existing_then_shortage() {
    let (mut pool, step) = CandidateAssembly::start(4, 1, None);
    assert_eq!(step, PoolStep::Fill { count: 1 });
    let (mask, step) = pool.absorb(&ids(&["new1"]));
    assert_eq!(mask, vec![true]);
    assert_eq!(step, PoolStep::FetchExisting { limit: 3 });
    let (mask, step) = pool.absorb(&ids(&["old1"]));
    assert_eq!(mask, vec![true]);
    assert_eq!(step, PoolStep::Fill { count: 2 });
    let (mask, step) = pool.absorb(&ids(&["old1", "new2"]));
    assert_eq!(mask, vec![false, true]);
    assert_eq!(
        step,
        PoolStep::Failed(AppError::NeuronBootstrapFailed("select_candidates could not fill pool: need 4, got 3".into()))
    );
}

#[test]
fn candidate_pool_prefers_existing_and_completes() {
    let (mut pool, step) = CandidateAssembly::start(2, 0, None);
    assert_eq!(step, PoolStep::FetchExisting { limit: 2 });
    let (_, step) = pool.absorb(&ids(&["x", "y"]));
    assert_eq!(step, PoolStep::Done);
    assert_eq!(pool.members(), ids(&["x", "y"]));
    let (_, step) = CandidateAssembly::start(1, 2, None);
    assert_eq!(step, PoolStep::Failed(AppError::InvalidInput("min_new must be less than or equal to n".into())));
    let (_, step) = CandidateAssembly::start(0, 0, None);
    assert_eq!(step, PoolStep::Done);
}

#[test]
fn neighborhood_quotas() {
    let policy = NeighborhoodPoolPolicy::default_policy();
    assert_eq!(neighborhood_pool_bound(&policy), Ok(4 + 2 + 1 + 2 + 3 + 5));
    let huge = NeighborhoodPoolPolicy { existing_downstream: usize::MAX, ..policy };
    assert_eq!(neighborhood_pool_bound(&huge), Err(AppError::InvalidInput("assistant candidate quotas overflow usize".into())));
    assert_eq!(new_child_count(&policy, 4), Ok(2));
    assert_eq!(new_child_count(&policy, 1), Ok(5), "missing existing children are created too");
    let no_fill = NeighborhoodPoolPolicy { fill_downstream_shortage: false, ..policy };
    assert_eq!(new_child_count(&no_fill, 0), Ok(2));
    let many = NeighborhoodPoolPolicy { new_downstream: 11, ..policy };
    assert_eq!(
        new_child_count(&many, 4),
        Err(AppError::InvalidInput("assistant new downstream count must be <=10, got 11".into()))
    );
}

#[test]
fn fill_batch_and_pick_rules() {
    assert_eq!(check_fill_count(0), Ok(false));
    assert_eq!(check_fill_count(10), Ok(true));
    assert_eq!(check_fill_count(11), Err(AppError::InvalidInput("fill batch count must be 1..=10, got 11".into())));
    let c = ids(&["a", "b", "a"]);
    assert_eq!(pick_named(&c, Some("a")), Ok(0));
    assert_eq!(pick_named(&c, Some("b")), Ok(1));
    assert_eq!(pick_named(&c, None), Err(AppError::InvalidInput("select neuron response missing neuron_id".into())));
    assert_eq!(pick_named(&c, Some("z")), Err(AppError::InvalidInput("Selected neuron_id z is not in candidates".into())));
    assert!(needs_link_back(Some("s"), "t", false));
    assert!(!needs_link_back(Some("s"), "s", false));
    assert!(!needs_link_back(Some("s"), "t", true));
    assert!(!needs_link_back(None, "t", false));
}

#[test]
fn evolution_acts_on_one_variant_in_priority_order() {
    assert_eq!(evolution_action(&vec![]), EvolutionAction::Nothing);
    let vs = vec![variant(false, 20, true, true, true), variant(true, 0, true, false, false)];
    assert_eq!(evolution_action(&vs), EvolutionAction::RollBack(1), "observing slots come first");
    let vs = vec![variant(true, 1, false, false, false), variant(false, 20, true, true, true)];
    assert_eq!(evolution_action(&vs), EvolutionAction::Promote(0));
    let vs = vec![variant(true, 0, false, false, false), variant(false, 3, false, false, true), variant(false, 10, true, false, false)];
    assert_eq!(evolution_action(&vs), EvolutionAction::Eliminate(2), "elimination before rewrite");
    let vs = vec![variant(false, 3, false, false, true)];
    assert_eq!(evolution_action(&vs), EvolutionAction::Rewrite(0));
    let mut manual = variant(false, 30, true, true, true);
    manual.manual_edited = true;
    assert_eq!(evolution_action(&vec![manual]), EvolutionAction::Nothing, "hand-edited variants are locked");
    assert_eq!(rollback_outcome(true), RollbackOutcome::RestoreAndActivate);
    assert_eq!(rollback_outcome(false), RollbackOutcome::DemoteToObserving);
}

#[test]
fn creation_rules() {
    assert_eq!(check_create_count(1), Ok(()));
    assert_eq!(check_create_count(0), Err(AppError::InvalidInput("create_neuron count must be 1..=10, got 0".into())));
    assert_eq!(
        plan_ensure_system("  sys  ", false, None),
        Ok(("sys".to_string(), vec![EnsureStep::CreateFromSeed, EnsureStep::FillOwnPool]))
    );
    assert_eq!(
        plan_ensure_system("sys", false, Some("n1")),
        Ok(("sys".to_string(), vec![EnsureStep::Keep("n1".into()), EnsureStep::FillOwnPool]))
    );
    assert_eq!(
        plan_ensure_system("sys", true, Some("n1")),
        Ok((
            "sys".to_string(),
            vec![
                EnsureStep::UnlinkEdges("n1".into()),
                EnsureStep::Delete("n1".into()),
                EnsureStep::CreateFromSeed,
                EnsureStep::FillOwnPool
            ]
        ))
    );
    assert_eq!(
        plan_ensure_system("assistant_round_review", false, None),
        Ok((
            "assistant_round_review".to_string(),
            vec![
                EnsureStep::CreateFromSeed,
                EnsureStep::SetBehavior(SessionBehavior {
                    selection: SelectionPolicy::Fixed,
                    tools: ToolPolicy::NoTools,
                    insert_id: Some("assistant.round_review".into())
                }),
                EnsureStep::FillOwnPool
            ]
        ))
    );
    assert_eq!(plan_ensure_system(" ", true, None), Err(AppError::InvalidInput("system_type cannot be empty".into())));
    assert_eq!(system_root_desc(" ", "sys"), "sys");
    assert_eq!(system_root_desc("d", "sys"), "d");
    assert_eq!(check_session_type(" session.a "), Ok("session.a".to_string()));
    assert_eq!(
        check_session_type("other"),
        Err(AppError::InvalidInput("session spec system_type must start with 'session.': other".into()))
    );
    assert!(fills_creator(Some("c"), "c"));
    assert!(!fills_creator(None, "c"));
}

#[test]
fn creator_prompts() {
    assert_eq!(available_tools_block(&vec![]), "No tools are registered; `tool_ids` must be [].");
    let tools = vec![ToolLine { name: "echo".into(), description: "says".into() }];
    assert_eq!(
        available_tools_block(&tools),
        "Available tools for `tool_ids` (pick only from this list; do not invent names):\n- echo: says"
    );
    assert_eq!(fill_purpose(2, None), "Fill 2 distinct single-responsibility neurons for a global candidate pool.");
    assert!(fill_purpose(3, Some("src")).starts_with("Fill 3 distinct single-responsibility downstream neurons under source_id src. "));
    let p = create_neuron_user_prompt(&PromptSubject::Purpose("P".into()), 1, Some("n1"), "TOOLS");
    assert!(p.starts_with("Create exactly 1 single-responsibility neuron(s) for the purpose below. These neurons will be direct downstream of n1.\nRequirements:\n"));
    assert!(p.contains("\n- TOOLS\n- Return ONLY a JSON array with exactly 1 object:"));
    assert!(p.ends_with("\nPurpose: P"));
    let q = create_neuron_user_prompt(&PromptSubject::Context("[]".into()), 3, None, "T");
    assert!(q.contains("Return ONLY a JSON array with exactly 3 objects: [{\"desc\",\"content\",\"tool_ids\"}, ...]"));
    assert!(q.contains("- Infer reusable capabilities the conversation needs; ignore one-off chatter.\n"));
    assert!(q.ends_with("\nContext: []"));
    let s = system_prompt_request("x_type", "T");
    assert!(s.starts_with("Write a system prompt neuron with system_type=x_type.\n"));
    assert!(s.contains("One responsibility aligned with system_type=x_type."));
}

#[test]
fn neuron_config_defaults_and_overrides() {
    let reader = NeuronConfigReader::new(None, None, None, None);
    assert_eq!(reader.create_neuron_prompt(), DEFAULT_CREATE_NEURON_PROMPT);
    assert_eq!(reader.capacity(), 300);
    assert_eq!(reader.recycle_interval_ms(), 3_600_000);
    assert_eq!(reader.system_prompt_for("assistant_select_neuron"), Some(SELECT_NEURON_SEED.to_string()));
    assert_eq!(reader.system_prompt_for("assistant_round_review"), None);
    let overrides = vec![
        NamedValue { name: "assistant_select_neuron".into(), value: "mine".into() },
        NamedValue { name: "assistant_match_topic".into(), value: "  ".into() },
    ];
    let reader = NeuronConfigReader::new(Some(" ".into()), Some(overrides), Some(5), Some(9));
    assert_eq!(reader.create_neuron_prompt(), DEFAULT_CREATE_NEURON_PROMPT, "a blank prompt keeps the seed");
    assert_eq!(reader.system_prompt_for("assistant_select_neuron"), Some("mine".to_string()));
    assert!(reader.system_prompt_for("assistant_match_topic").unwrap().starts_with("你是课题匹配与创建判定器"));
    assert_eq!(reader.capacity(), 5);
    assert_eq!(reader.recycle_interval_ms(), 9);
}

#[test]
fn judgement_system_types_get_fixed_behavior() {
    let b = default_behavior_for_system_type("assistant_round_review").unwrap();
    assert_eq!(b.selection, SelectionPolicy::Fixed);
    assert_eq!(b.tools, ToolPolicy::NoTools);
    assert_eq!(b.insert_id.as_deref(), Some("assistant.round_review"));
    assert_eq!(
        default_behavior_for_system_type("assistant_revise_topic").unwrap().insert_id.as_deref(),
        Some("assistant.revise_topic")
    );
    assert!(default_behavior_for_system_type("assistant_select_neuron").is_none());
    assert!(default_behavior_for_system_type("create_neuron").is_none());
    assert_eq!(
        rebootstrap_system_types(),
        vec!["assistant_select_neuron", "assistant_user_round_judgement", "assistant_round_review"]
    );
}

#[test]
fn candidate_pool_checks_the_source_first() {
    let (mut pool, step) = CandidateAssembly::start(3, 1, Some("src"));
    assert_eq!(step, PoolStep::CheckSource { id: "src".to_string() });
    assert_eq!(pool.source_found(false), PoolStep::Failed(AppError::NeuronNotFound("src".to_string())));

    let (mut pool, _) = CandidateAssembly::start(3, 1, Some("src"));
    assert_eq!(pool.source_found(true), PoolStep::Fill { count: 1 });
    let (mut pool, _) = CandidateAssembly::start(3, 0, Some("src"));
    assert_eq!(pool.source_found(true), PoolStep::FetchExisting { limit: 3 });

    let (_, step) = CandidateAssembly::start(0, 0, Some("missing"));
    assert_eq!(step, PoolStep::Done, "an empty query never looks the source up");
    let (_, step) = CandidateAssembly::start(1, 2, Some("missing"));
    assert_eq!(step, PoolStep::Failed(AppError::InvalidInput("min_new must be less than or equal to n".into())));
}
