use distilllab::skills::{
    builtin_skill_registry, SkillDefinition, SkillRegistry, SkillRegistryError, SkillSelection,
};

#[test]
fn skill_selection_distinguishes_high_level_strategy_from_tool_call() {
    let selection = SkillSelection::new("compose_and_verify_skill")
        .with_reasoning("Need a reusable output strategy")
        .with_expected_outcome("Produce a checked draft");

    assert_eq!(selection.skill_key, "compose_and_verify_skill");
    assert_eq!(selection.reasoning_summary.as_deref(), Some("Need a reusable output strategy"));
    assert_eq!(selection.expected_outcome.as_deref(), Some("Produce a checked draft"));
}

#[test]
fn skill_registry_can_register_and_lookup_skills() {
    let mut registry = SkillRegistry::new();
    registry
        .register(SkillDefinition::new("skill_a", "Skill A", "desc"))
        .expect("skill registration should succeed");

    assert!(registry.contains("skill_a"));
    assert!(registry.get("skill_a").is_some());
}

#[test]
fn skill_registry_rejects_duplicate_keys() {
    let mut registry = SkillRegistry::new();
    registry
        .register(SkillDefinition::new("skill_a", "Skill A", "desc"))
        .expect("skill registration should succeed");

    let result = registry.register(SkillDefinition::new("skill_a", "Skill B", "desc"));
    assert!(matches!(result, Err(SkillRegistryError::SkillAlreadyRegistered(_))));
}

#[test]
fn builtin_skill_registry_contains_expected_high_level_strategies() {
    let registry = builtin_skill_registry();

    assert!(registry.contains("import_and_distill_skill"));
    assert!(registry.contains("deepen_asset_skill"));
    assert!(registry.contains("compose_and_verify_skill"));
}

#[test]
fn skill_definition_builders_keep_tools_and_run_types() {
    let definition = SkillDefinition::new("compose_and_verify_skill", "Compose", "desc")
        .with_allowed_tools(&["get_project"])
        .with_run_types(&["compose_and_verify"]);

    assert_eq!(definition.key, "compose_and_verify_skill");
    assert_eq!(definition.name, "Compose");
    assert_eq!(definition.allowed_tool_keys, vec!["get_project".to_string()]);
    assert_eq!(definition.may_create_run_types, vec!["compose_and_verify".to_string()]);
}

#[test]
fn refused_skill_registration_keeps_the_first_definition() {
    let mut registry = SkillRegistry::new();
    registry.register(SkillDefinition::new("skill_a", "Skill A", "desc")).unwrap();
    let error = registry
        .register(SkillDefinition::new("skill_a", "Skill B", "desc"))
        .expect_err("duplicate should fail");

    assert_eq!(error.to_string(), "skill already registered: skill_a");
    assert_eq!(registry.get("skill_a").expect("kept").name, "Skill A");
    assert!(!registry.contains("skill_b"));
    assert_eq!(SkillRegistryError::SkillNotFound("k".to_string()).to_string(), "skill not found: k");
}

#[test]
fn skill_selection_duplicate_is_equal() {
    let selection = SkillSelection::new("deepen_asset_skill").with_reasoning("why");
    assert_eq!(selection.duplicate(), selection);
}
