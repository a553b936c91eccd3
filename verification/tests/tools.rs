use distilllab::tools::{
    builtin_tool_registry, ToolDefinition, ToolExecutionResult, ToolInvocation, ToolRegistry,
    ToolRegistryError,
};

#[test]
fn tool_definition_can_be_created_as_read_only() {
    let tool = ToolDefinition::read_only("list_sources", "List all sources");

    assert_eq!(tool.name, "list_sources");
    assert!(tool.is_read_only);
    assert!(tool.is_concurrency_safe);
    assert!(!tool.needs_confirmation);
}

#[test]
fn tool_definition_can_be_created_with_side_effects() {
    let tool = ToolDefinition::with_side_effects("create_source", "Create a new source");

    assert_eq!(tool.name, "create_source");
    assert!(!tool.is_read_only);
    assert!(!tool.is_concurrency_safe);
    assert!(!tool.needs_confirmation);
}

#[test]
fn tool_definition_can_have_input_schema() {
    let tool = ToolDefinition::read_only("search_memory", "Search memory")
        .with_input_schema(r#"{"query": "string"}"#);

    assert_eq!(tool.input_schema_json, r#"{"query": "string"}"#);
}

#[test]
fn tool_definition_can_require_confirmation() {
    let tool = ToolDefinition::with_side_effects("delete_source", "Delete a source")
        .requiring_confirmation();

    assert!(tool.needs_confirmation);
}

#[test]
fn tool_invocation_can_be_created_with_name_only() {
    let invocation = ToolInvocation::new("list_sources");

    assert_eq!(invocation.tool_name, "list_sources");
    assert_eq!(invocation.arguments_json, "{}");
    assert!(invocation.reasoning_summary.is_none());
    assert!(invocation.expected_follow_up.is_none());
}

#[test]
fn tool_invocation_can_be_created_with_arguments() {
    let invocation = ToolInvocation::with_args("search_memory", r#"{"query": "session notes"}"#);

    assert_eq!(invocation.tool_name, "search_memory");
    assert_eq!(invocation.arguments_json, r#"{"query": "session notes"}"#);
}

#[test]
fn tool_invocation_can_include_reasoning_and_follow_up() {
    let invocation = ToolInvocation::new("list_sources")
        .with_reasoning("Need to see what sources are available")
        .with_expected_follow_up("Will select a source to distill");

    assert_eq!(
        invocation.reasoning_summary.as_deref(),
        Some("Need to see what sources are available")
    );
    assert_eq!(
        invocation.expected_follow_up.as_deref(),
        Some("Will select a source to distill")
    );
}

#[test]
fn tool_execution_result_success_has_expected_fields() {
    let result = ToolExecutionResult::success(
        "list_sources",
        r#"[{"id": "source-1", "name": "Notes"}]"#,
        "Found 1 source: Notes",
    );

    assert_eq!(result.tool_name, "list_sources");
    assert!(result.ok);
    assert!(result.output_json.is_some());
    assert!(result.rendered_summary.is_some());
    assert!(result.error_message.is_none());
    assert!(result.should_continue_planning);
}

#[test]
fn tool_execution_result_failure_has_expected_fields() {
    let result = ToolExecutionResult::failure("list_sources", "database connection failed");

    assert_eq!(result.tool_name, "list_sources");
    assert!(!result.ok);
    assert!(result.output_json.is_none());
    assert!(result.rendered_summary.is_none());
    assert_eq!(result.error_message.as_deref(), Some("database connection failed"));
    assert!(result.should_continue_planning);
}

#[test]
fn tool_execution_result_can_signal_stop_planning() {
    let success_stop = ToolExecutionResult::success_and_stop("final_action", "{}", "Action completed");
    let failure_stop = ToolExecutionResult::failure_and_stop("critical_action", "unrecoverable error");

    assert!(!success_stop.should_continue_planning);
    assert!(!failure_stop.should_continue_planning);
}

#[test]
fn tool_registry_can_register_and_lookup_tools() {
    let mut registry = ToolRegistry::new();
    let tool = ToolDefinition::read_only("list_sources", "List all sources");

    registry.register(tool).expect("should register");

    assert!(registry.contains("list_sources"));
    assert!(!registry.contains("unknown_tool"));

    let found = registry.get("list_sources").expect("should find tool");
    assert_eq!(found.name, "list_sources");
}

#[test]
fn tool_registry_prevents_duplicate_registration() {
    let mut registry = ToolRegistry::new();
    let tool1 = ToolDefinition::read_only("list_sources", "List all sources");
    let tool2 = ToolDefinition::read_only("list_sources", "Duplicate tool");

    registry.register(tool1).expect("first should succeed");
    let result = registry.register(tool2);

    assert!(matches!(result, Err(ToolRegistryError::ToolAlreadyRegistered(_))));
}

#[test]
fn tool_registry_returns_allowed_tools_for_agent() {
    let registry = builtin_tool_registry();
    let allowed_keys = vec![
        "list_sources".to_string(),
        "list_projects".to_string(),
        "nonexistent".to_string(),
    ];

    let allowed = registry.allowed_tools(&allowed_keys);

    assert_eq!(allowed.len(), 2);
    assert!(allowed.iter().any(|t| t.name == "list_sources"));
    assert!(allowed.iter().any(|t| t.name == "list_projects"));
}

#[test]
fn builtin_tool_registry_contains_session_agent_allowed_tools() {
    let registry = builtin_tool_registry();

    assert!(registry.contains("list_sources"));
    assert!(registry.contains("list_projects"));
    assert!(registry.contains("list_runs"));
    assert!(registry.contains("get_session"));
    assert!(registry.contains("get_project"));
    assert!(registry.contains("get_asset"));
    assert!(registry.contains("search_memory"));
}

#[test]
fn refused_registration_keeps_the_first_definition() {
    let mut registry = ToolRegistry::new();
    registry
        .register(ToolDefinition::read_only("list_sources", "List all sources"))
        .expect("first should succeed");
    let error = registry
        .register(ToolDefinition::with_side_effects("list_sources", "Other"))
        .expect_err("duplicate should fail");

    assert_eq!(error.to_string(), "tool already registered: list_sources");
    let kept = registry.get("list_sources").expect("tool stays registered");
    assert_eq!(kept.description, "List all sources");
    assert!(kept.is_read_only);
}

#[test]
fn registered_tool_names_and_allowed_order() {
    let mut registry = ToolRegistry::new();
    registry.register(ToolDefinition::read_only("a_tool", "A")).unwrap();
    registry.register(ToolDefinition::read_only("b_tool", "B")).unwrap();

    assert_eq!(registry.tool_names(), vec!["a_tool", "b_tool"]);
    let allowed = registry.allowed_tools(&["b_tool".to_string(), "a_tool".to_string()]);
    assert_eq!(allowed.iter().map(|t| t.name.as_str()).collect::<Vec<_>>(), vec!["b_tool", "a_tool"]);
    assert!(registry.get("c_tool").is_none());
}

#[test]
fn tool_not_found_error_text() {
    let error = ToolRegistryError::ToolNotFound("x".to_string());
    assert_eq!(error.to_string(), "tool not found: x");
}

#[test]
fn default_tool_registry_is_empty() {
    let registry = ToolRegistry::default();
    assert!(registry.tool_names().is_empty());
}

#[test]
fn invocation_read_fields_prefer_arguments_then_legacy_text() {
    let both = ToolInvocation::from_read_fields(
        "search_memory".to_string(),
        Some("{\"query\":\"new\"}".to_string()),
        Some("{\"query\":\"legacy\"}".to_string()),
        None,
        Some("reply".to_string()),
    );
    assert_eq!(both.arguments_json, "{\"query\":\"new\"}");
    assert_eq!(both.expected_follow_up.as_deref(), Some("reply"));
    let legacy =
        ToolInvocation::from_read_fields("search_memory".to_string(), None, Some("{\"query\":\"legacy\"}".to_string()), None, None);
    assert_eq!(legacy.arguments_json, "{\"query\":\"legacy\"}");
    let neither = ToolInvocation::from_read_fields("list_attachments".to_string(), None, None, None, None);
    assert_eq!(neither.arguments_json, "{}");
    assert_eq!(neither.tool_name, "list_attachments");
}
