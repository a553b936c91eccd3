use distilllab::session::{AttachmentRef, Session, SessionIntake, SessionMessage, SessionMessageRole, SessionStatus};
use distilllab::session_agent::{
    basic_decision, build_chat_messages, build_direct_reply_stream_messages, closing_chunk,
    decision_from_raw_output, decision_from_structured, fallback_clarification_decision,
    fallback_direct_reply_decision, few_shot_examples, final_reply_text, format_attachment_context,
    missing_assistant_content, needs_streamed_reply, parse_action_type, planner_request,
    reply_after_fallback, reply_after_stream, session_agent_definition, BasicSessionAgent,
    RunCreationRequest, SessionActionType, SessionAgentDecision, SessionAgentInput, SessionIntent,
    SessionNextAction, StructuredSessionAgentDecision, CLARIFICATION_REPLY,
};
use distilllab::skills::SkillSelection;
use distilllab::tools::ToolInvocation;
use distilllab::LlmProviderConfig;

fn session(title: &str, object_type: &str, object_id: &str, summary: &str, intent: &str) -> Session {
    Session {
        id: "session-1".to_string(),
        title: title.to_string(),
        manual_title: None,
        pinned: false,
        status: SessionStatus::Active,
        current_intent: intent.to_string(),
        current_object_type: object_type.to_string(),
        current_object_id: object_id.to_string(),
        summary: summary.to_string(),
        started_at: "2026-03-28T00:00:00Z".to_string(),
        updated_at: "2026-03-28T00:00:00Z".to_string(),
        last_user_message_at: "2026-03-28T00:00:00Z".to_string(),
        last_run_at: "2026-03-28T00:00:00Z".to_string(),
        last_compacted_at: "2026-03-28T00:00:00Z".to_string(),
        metadata_json: "{}".to_string(),
    }
}

fn intake(user_message: &str, attachments: Vec<AttachmentRef>) -> SessionIntake {
    SessionIntake {
        session_id: "session-1".to_string(),
        user_message: user_message.to_string(),
        attachments,
        current_object_type: None,
        current_object_id: None,
    }
}

fn attachment(kind: &str, name: &str, path: &str, size: u64) -> AttachmentRef {
    AttachmentRef {
        attachment_id: "attachment-1".to_string(),
        kind: kind.to_string(),
        name: name.to_string(),
        mime_type: "text/markdown".to_string(),
        path_or_locator: path.to_string(),
        size,
        metadata_json: "{}".to_string(),
    }
}

fn notes_attachment() -> AttachmentRef {
    attachment("file_copy", "notes.md", "/tmp/distilllab/attachments/session-1/notes.md", 128)
}

fn message(id: &str, kind: &str, role: SessionMessageRole, content: &str, at: &str) -> SessionMessage {
    SessionMessage {
        id: id.to_string(),
        session_id: "session-1".to_string(),
        run_id: None,
        message_type: kind.to_string(),
        role,
        content: content.to_string(),
        data_json: "{}".to_string(),
        created_at: at.to_string(),
    }
}

fn input(s: Session, recent: Vec<SessionMessage>, i: SessionIntake) -> SessionAgentInput {
    SessionAgentInput { session: s, recent_messages: recent, intake: i }
}

fn decide(i: SessionAgentInput) -> SessionAgentDecision {
    BasicSessionAgent.decide(i).expect("basic session agent should decide")
}

fn structured(intent: &str, action_type: &str, reply: &str) -> StructuredSessionAgentDecision {
    StructuredSessionAgentDecision {
        intent: intent.to_string(),
        action_type: action_type.to_string(),
        tool_call_key: None,
        tool_invocation: None,
        skill_selection: None,
        reply_text: reply.to_string(),
        primary_object_type: None,
        primary_object_id: None,
        suggested_run_type: None,
        session_summary: None,
        should_continue_planning: None,
        failure_hint: None,
    }
}

#[test]
fn session_agent_definition_exposes_expected_defaults() {
    let definition = session_agent_definition();

    assert_eq!(definition.key, "session_agent");
    assert_eq!(definition.kind, "session");
    assert_eq!(definition.default_model_profile, "reasoning_default");
    assert!(definition.can_create_run_types.contains(&"import_and_distill".to_string()));
}

#[test]
fn session_agent_definition_describes_session_level_planning_role() {
    let definition = session_agent_definition();

    assert!(definition.responsibility_summary.contains("next action"));
    assert!(definition.responsibility_summary.contains("after actions succeed or fail"));
    assert!(definition.system_prompt.contains("post-action follow-up"));
    assert!(definition.system_prompt.contains("failure handling"));
}

#[test]
fn session_agent_definition_exposes_allowed_skill_keys() {
    let definition = session_agent_definition();

    assert!(definition.allowed_skill_keys.contains(&"import_and_distill_skill".to_string()));
    assert!(definition.allowed_skill_keys.contains(&"deepen_asset_skill".to_string()));
    assert!(definition.allowed_skill_keys.contains(&"compose_and_verify_skill".to_string()));
}

#[test]
fn session_agent_definition_declares_tools_used_by_examples_and_skills() {
    let definition = session_agent_definition();

    assert!(definition.allowed_tool_keys.contains(&"search_memory".to_string()));
    assert!(definition.allowed_tool_keys.contains(&"get_project".to_string()));
    assert!(definition.allowed_tool_keys.contains(&"get_asset".to_string()));
}

#[test]
fn session_agent_prompt_explicitly_allows_follow_up_tool_calls_when_one_result_is_insufficient() {
    let definition = session_agent_definition();

    assert!(definition.system_prompt.contains("If one tool result is insufficient"));
}

#[test]
fn session_agent_decision_uses_structured_action_type() {
    let decision = SessionAgentDecision {
        intent: SessionIntent::DistillMaterial,
        primary_object_type: Some("source".to_string()),
        primary_object_id: None,
        action_type: SessionActionType::CreateRun,
        next_action: SessionNextAction::CreateRun(RunCreationRequest {
            run_type: "import_and_distill".to_string(),
            reasoning_summary: None,
        }),
        tool_invocation: None,
        skill_selection: None,
        run_creation: Some(RunCreationRequest {
            run_type: "import_and_distill".to_string(),
            reasoning_summary: None,
        }),
        reply_text: "I will start a distill run for this work material.".to_string(),
        suggested_run_type: Some("import_and_distill".to_string()),
        session_summary: Some("Preparing to distill work material".to_string()),
        should_continue_planning: true,
        failure_hint: Some("clarify_or_stop".to_string()),
    };

    assert_eq!(decision.action_type, SessionActionType::CreateRun);
    assert!(matches!(decision.next_action, SessionNextAction::CreateRun(_)));
    assert!(decision.should_continue_planning);
    assert_eq!(decision.failure_hint.as_deref(), Some("clarify_or_stop"));
}

#[test]
fn skill_selection_contract_stays_distinct_from_run_and_tool_contracts() {
    let selection = SkillSelection::new("compose_and_verify_skill")
        .with_reasoning("Need a reusable output strategy")
        .with_expected_outcome("Produce a checked draft");

    assert_eq!(selection.skill_key, "compose_and_verify_skill");
    assert_eq!(selection.reasoning_summary.as_deref(), Some("Need a reusable output strategy"));
    assert_eq!(selection.expected_outcome.as_deref(), Some("Produce a checked draft"));
}

#[test]
fn basic_session_agent_keeps_distill_material_on_create_run() {
    let decision = decide(input(
        session("Distill Session", "none", "none", "Distill something", "idle"),
        vec![],
        intake("Please distill these work notes into Distilllab", vec![]),
    ));

    assert_eq!(decision.intent, SessionIntent::DistillMaterial);
    assert_eq!(decision.action_type, SessionActionType::CreateRun);
    assert!(matches!(decision.next_action, SessionNextAction::CreateRun(_)));
    assert_eq!(
        decision.run_creation.as_ref().map(|value| value.run_type.as_str()),
        Some("import_and_distill")
    );
    assert!(decision.skill_selection.is_none());
}

#[test]
fn basic_session_agent_can_use_tool_call_for_attachment_content_questions() {
    let decision = decide(input(
        session("Attachment Session", "none", "none", "Attachment inspection session", "idle"),
        vec![],
        intake("What is inside attachment paths?", vec![notes_attachment()]),
    ));

    assert_eq!(decision.action_type, SessionActionType::ToolCall);
    assert!(matches!(decision.next_action, SessionNextAction::ToolCall(_)));
    assert_eq!(
        decision.tool_invocation.as_ref().map(|value| value.tool_name.as_str()),
        Some("read_attachment_excerpt")
    );
    assert!(decision.should_continue_planning);
}

#[test]
fn basic_session_agent_can_list_attachments_when_user_asks_what_is_available() {
    let decision = decide(input(
        session("Attachment Session", "none", "none", "Attachment inspection session", "idle"),
        vec![],
        intake("What attachments are available right now?", vec![notes_attachment()]),
    ));

    assert_eq!(decision.action_type, SessionActionType::ToolCall);
    assert_eq!(
        decision.tool_invocation.as_ref().map(|value| value.tool_name.as_str()),
        Some("list_attachments")
    );
}

#[test]
fn basic_session_agent_can_use_read_text_for_local_file_questions() {
    let decision = decide(input(
        session("Local File Session", "none", "none", "Local file inspection", "idle"),
        vec![],
        intake("Please read the current attachment text before answering.", vec![notes_attachment()]),
    ));

    assert_eq!(decision.action_type, SessionActionType::ToolCall);
    assert_eq!(
        decision.tool_invocation.as_ref().map(|value| value.tool_name.as_str()),
        Some("read_text")
    );
}

#[test]
fn basic_session_agent_can_use_web_fetch_for_url_questions() {
    let decision = decide(input(
        session("Web Session", "none", "none", "Web inspection", "idle"),
        vec![],
        intake("Please check what https://example.com says before answering.", vec![]),
    ));

    assert_eq!(decision.action_type, SessionActionType::ToolCall);
    assert_eq!(
        decision.tool_invocation.as_ref().map(|value| value.tool_name.as_str()),
        Some("web_fetch")
    );
    let arguments: serde_json::Value = serde_json::from_str(
        &decision.tool_invocation.as_ref().expect("tool invocation").arguments_json,
    )
    .expect("arguments are JSON");
    assert_eq!(arguments.get("url").and_then(|value| value.as_str()), Some("https://example.com"));
}

#[test]
fn basic_session_agent_keeps_distill_requests_ahead_of_web_fetch_heuristics() {
    let decision = decide(input(
        session("Distill URL Session", "none", "none", "Distill URL request", "idle"),
        vec![],
        intake("Please distill this URL https://example.com into Distilllab", vec![]),
    ));

    assert_eq!(decision.action_type, SessionActionType::CreateRun);
    assert_eq!(decision.suggested_run_type.as_deref(), Some("import_and_distill"));
}

#[test]
fn session_agent_input_preserves_structured_session_context() {
    let recent_messages = vec![message(
        "message-1",
        "user_message",
        SessionMessageRole::User,
        "Help me import my notes",
        "2026-03-28T00:00:00Z",
    )];

    let i = input(
        session("Test Session", "none", "none", "Testing session agent input", "idle"),
        recent_messages,
        intake("Import these notes", vec![]),
    );

    assert_eq!(i.session.id, "session-1");
    assert_eq!(i.recent_messages.len(), 1);
    assert_eq!(i.intake.user_message, "Import these notes");
}

#[test]
fn basic_session_agent_returns_structured_direct_reply_decision() {
    let decision = decide(input(
        session("Test Session", "none", "none", "Testing basic session agent", "idle"),
        vec![],
        intake("Hello Distilllab", vec![]),
    ));

    assert_eq!(decision.action_type, SessionActionType::DirectReply);
    assert_eq!(decision.intent, SessionIntent::GeneralReply);
    assert!(decision.tool_invocation.is_none());
    assert!(!decision.should_continue_planning);
    assert_eq!(decision.failure_hint, None);
    assert_eq!(decision.reply_text, "Hello! I am ready to help with your Distilllab session.");
}

#[test]
fn basic_session_agent_returns_create_run_for_import_requests() {
    let decision = decide(input(
        session("Import Session", "none", "none", "Testing import routing", "idle"),
        vec![],
        intake("Please distill these work notes into Distilllab", vec![]),
    ));

    assert_eq!(decision.action_type, SessionActionType::CreateRun);
    assert_eq!(decision.intent, SessionIntent::DistillMaterial);
    assert!(decision.tool_invocation.is_none());
    assert_eq!(decision.suggested_run_type, Some("import_and_distill".to_string()));
}

#[test]
fn basic_session_agent_treats_here_are_my_notes_as_distill_material_intake() {
    let decision = decide(input(
        session("Notes Intake Session", "none", "none", "Testing notes intake routing", "idle"),
        vec![],
        intake("Here are my notes, distill them", vec![]),
    ));

    assert_eq!(decision.intent, SessionIntent::DistillMaterial);
    assert_eq!(decision.action_type, SessionActionType::CreateRun);
    assert!(decision.tool_invocation.is_none());
    assert_eq!(decision.suggested_run_type.as_deref(), Some("import_and_distill"));
}

#[test]
fn basic_session_agent_treats_file_based_request_as_distill_material_intake() {
    let decision = decide(input(
        session("File Intake Session", "none", "none", "Testing file intake routing", "idle"),
        vec![],
        intake(
            "Use these files to create a distillation run",
            vec![attachment("file_path", "requirements.md", "/tmp/requirements.md", 256)],
        ),
    ));

    assert_eq!(decision.intent, SessionIntent::DistillMaterial);
    assert_eq!(decision.action_type, SessionActionType::CreateRun);
    assert!(decision.tool_invocation.is_none());
    assert_eq!(decision.suggested_run_type.as_deref(), Some("import_and_distill"));
}

#[test]
fn basic_session_agent_treats_attachment_only_input_as_distill_material_intake() {
    let decision = decide(input(
        session("Attachment Intake Session", "none", "none", "Testing attachment-driven intake routing", "idle"),
        vec![],
        intake(
            "请帮我提炼一下",
            vec![attachment("file_path", "requirements.md", "/tmp/requirements.md", 256)],
        ),
    ));

    assert_eq!(decision.intent, SessionIntent::DistillMaterial);
    assert_eq!(decision.action_type, SessionActionType::CreateRun);
    assert_eq!(decision.suggested_run_type.as_deref(), Some("import_and_distill"));
}

#[test]
fn basic_session_agent_routes_deepening_requests_to_deepening_run() {
    let mut i = intake("Please deepen this topic and ask follow-up questions", vec![]);
    i.current_object_type = Some("asset".to_string());
    i.current_object_id = Some("asset-1".to_string());
    let decision = decide(input(session("Deepening Session", "asset", "asset-1", "Testing deepening routing", "idle"), vec![], i));

    assert_eq!(decision.action_type, SessionActionType::CreateRun);
    assert_eq!(decision.intent, SessionIntent::DeepenUnderstanding);
    assert_eq!(decision.primary_object_type.as_deref(), Some("asset"));
    assert_eq!(decision.primary_object_id.as_deref(), Some("asset-1"));
    assert_eq!(decision.suggested_run_type.as_deref(), Some("deepening"));
}

#[test]
fn basic_session_agent_routes_composition_requests_to_compose_and_verify_run() {
    let mut i = intake("Write a summary article from these materials", vec![]);
    i.current_object_type = Some("project".to_string());
    i.current_object_id = Some("project-1".to_string());
    let decision = decide(input(session("Compose Session", "project", "project-1", "Testing composition routing", "idle"), vec![], i));

    assert_eq!(decision.action_type, SessionActionType::CreateRun);
    assert_eq!(decision.intent, SessionIntent::ComposeOutput);
    assert_eq!(decision.primary_object_type.as_deref(), Some("project"));
    assert_eq!(decision.primary_object_id.as_deref(), Some("project-1"));
    assert_eq!(
        decision.run_creation.as_ref().map(|value| value.run_type.as_str()),
        Some("compose_and_verify")
    );
    assert!(decision.skill_selection.is_none());
    assert_eq!(decision.suggested_run_type.as_deref(), Some("compose_and_verify"));
}

#[test]
fn llm_session_agent_builds_minimal_system_and_user_messages() {
    let messages = build_chat_messages(&input(
        session("LLM Session", "none", "none", "Testing llm session agent message assembly", "idle"),
        vec![],
        intake("Hello from the user", vec![]),
    ));

    assert!(messages.len() >= 4);
    assert_eq!(messages[0].role, "system");
    assert!(messages[0].content.contains("Respond with valid JSON only"));
    assert!(messages[0].content.contains("action_type"));
    assert!(messages[0].content.contains("create_run"));
    assert_eq!(messages.last().expect("user message should exist").role, "user");
    assert_eq!(messages.last().expect("user message should exist").content, "Hello from the user");
}

#[test]
fn llm_session_agent_includes_recent_messages_before_current_user_message() {
    let messages = build_chat_messages(&input(
        session("LLM Context Session", "none", "none", "Testing llm session agent context assembly", "idle"),
        vec![
            message("message-1", "user_message", SessionMessageRole::User, "Earlier user question", "2026-03-28T00:00:00Z"),
            message("message-2", "assistant_message", SessionMessageRole::Assistant, "Earlier assistant reply", "2026-03-28T00:00:01Z"),
        ],
        intake("Current user follow-up", vec![]),
    ));

    assert!(messages.len() >= 6);
    let recent_user_index = messages
        .iter()
        .position(|m| m.content == "Earlier user question")
        .expect("recent user message should exist");
    let recent_assistant_index = messages
        .iter()
        .position(|m| m.content == "Earlier assistant reply")
        .expect("recent assistant message should exist");
    let current_user_index = messages
        .iter()
        .position(|m| m.content == "Current user follow-up")
        .expect("current user message should exist");

    assert_eq!(messages[recent_user_index].role, "user");
    assert_eq!(messages[recent_assistant_index].role, "assistant");
    assert!(recent_user_index < recent_assistant_index);
    assert!(recent_assistant_index < current_user_index);
}

#[test]
fn llm_session_agent_includes_few_shot_examples_before_live_context() {
    let messages = build_chat_messages(&input(
        session("Few Shot Session", "none", "none", "Testing few-shot message assembly", "idle"),
        vec![],
        intake("Please distill these work notes", vec![]),
    ));

    assert!(messages.len() >= 4);
    assert_eq!(messages[1].role, "user");
    assert!(messages[1].content.contains("distill these work notes"));
    assert_eq!(messages[2].role, "assistant");
    assert!(messages[2].content.contains("\"action_type\":\"create_run\""));
    assert!(messages[2].content.contains("\"suggested_run_type\":\"import_and_distill\""));
}

#[test]
fn llm_session_agent_few_shot_examples_cover_deepening_and_tool_call_paths() {
    let examples = few_shot_examples();
    let joined = examples.iter().map(|m| m.content.as_str()).collect::<Vec<_>>().join("\n");

    assert!(joined.contains("\"intent\":\"deepen_understanding\""));
    assert!(joined.contains("\"action_type\":\"tool_call\""));
    assert!(joined.contains("\"tool_invocation\":"));
    assert!(joined.contains("list_attachments"));
    assert!(joined.contains("read_text"));
    assert!(joined.contains("web_fetch"));
}

#[test]
fn llm_session_agent_includes_current_session_object_clues_in_system_context() {
    let mut i = intake("Summarize the current source", vec![]);
    i.current_object_type = Some("source".to_string());
    i.current_object_id = Some("source-1".to_string());
    let messages = build_chat_messages(&input(
        session("Source Review Session", "source", "source-1", "The session is focused on one imported source", "review_source"),
        vec![],
        i,
    ));

    assert!(messages[0].content.contains("current_object_type: source"));
    assert!(messages[0].content.contains("current_object_id: source-1"));
    assert!(messages[0].content.contains("session_summary: The session is focused on one imported source"));
}

#[test]
fn llm_session_agent_includes_current_intake_attachments_in_system_context() {
    let messages = build_chat_messages(&input(
        session("Attachment Session", "none", "none", "Testing attachment context", "idle"),
        vec![],
        intake("What is inside Attachment Paths?", vec![notes_attachment()]),
    ));

    assert!(messages[0].content.contains("current_intake_attachments:"));
    assert!(messages[0].content.contains("attachment_id: attachment-1"));
    assert!(messages[0].content.contains("name: notes.md"));
    assert!(messages[0].content.contains("mime_type: text/markdown"));
    assert!(!messages[0].content.contains("locator:"));
}

#[test]
fn llm_session_agent_does_not_duplicate_current_turn_if_it_is_already_in_recent_messages() {
    let messages = build_chat_messages(&input(
        session("Duplicate Turn Session", "none", "none", "Testing duplicate current turn handling", "idle"),
        vec![message("message-current", "user_message", SessionMessageRole::User, "Current message", "2026-03-28T00:00:00Z")],
        intake("Current message", vec![]),
    ));
    let current_turn_count = messages.iter().filter(|m| m.content == "Current message").count();

    assert_eq!(current_turn_count, 1);
}

#[test]
fn llm_session_agent_rejects_create_run_without_valid_run_type() {
    let mut p = structured("compose_output", "create_run", "I will start a run.");
    p.primary_object_type = Some("project".to_string());
    p.primary_object_id = Some("project-1".to_string());
    p.session_summary = Some("Preparing to compose output".to_string());
    p.should_continue_planning = Some(true);
    p.failure_hint = Some("clarify_or_stop".to_string());

    assert!(decision_from_structured(p).is_none());
}

#[test]
fn llm_session_agent_rejects_tool_call_without_tool_invocation() {
    let mut p = structured("general_reply", "tool_call", "I will use a tool.");
    p.session_summary = Some("Preparing tool use".to_string());
    p.should_continue_planning = Some(true);
    p.failure_hint = Some("reply_or_clarify".to_string());

    assert!(decision_from_structured(p).is_none());
}

#[test]
fn llm_session_agent_rejects_non_tool_action_with_tool_invocation() {
    let mut p = structured("general_reply", "direct_reply", "Here is the answer.");
    p.session_summary = Some("Providing answer".to_string());
    p.tool_invocation = Some(ToolInvocation::new("search_memory"));
    p.should_continue_planning = Some(false);

    assert!(decision_from_structured(p).is_none());
}

#[test]
fn llm_session_agent_keeps_legacy_arguments_json_as_compatibility_path() {
    let mut p = structured("general_reply", "tool_call", "I will use search before replying.");
    p.session_summary = Some("Preparing memory lookup".to_string());
    p.tool_invocation = Some(ToolInvocation::with_args("search_memory", "{\"query\":\"legacy\"}"));
    p.should_continue_planning = Some(true);
    p.failure_hint = Some("reply_or_clarify".to_string());

    let decision = decision_from_structured(p).expect("legacy arguments_json should still parse");

    assert_eq!(decision.action_type, SessionActionType::ToolCall);
    let arguments: serde_json::Value =
        serde_json::from_str(&decision.tool_invocation.as_ref().expect("tool").arguments_json).expect("json");
    assert_eq!(arguments.get("query").and_then(|value| value.as_str()), Some("legacy"));
}

#[test]
fn llm_session_agent_defaults_follow_up_planning_for_legacy_tool_call_json() {
    let mut p = structured("general_reply", "tool_call", "I will look up related notes before replying.");
    p.session_summary = Some("Preparing a memory lookup before answering".to_string());
    p.tool_call_key = Some("search_memory".to_string());

    let decision = decision_from_structured(p).expect("legacy tool_call json should still parse");

    assert_eq!(decision.action_type, SessionActionType::ToolCall);
    assert!(decision.should_continue_planning);
    assert_eq!(
        decision.tool_invocation.as_ref().map(|value| value.tool_name.as_str()),
        Some("search_memory")
    );
}

#[test]
fn session_action_type_supports_tool_call_variant() {
    assert_eq!(SessionActionType::ToolCall.as_str(), "tool_call");
}

#[test]
fn session_agent_definition_system_prompt_requires_fixed_json_contract() {
    let definition = session_agent_definition();

    assert!(definition.system_prompt.contains("Respond with valid JSON only"));
    assert!(definition.system_prompt.contains("intent"));
    assert!(definition.system_prompt.contains("Intent must be one of"));
    assert!(definition.system_prompt.contains("general_reply"));
    assert!(definition.system_prompt.contains("distill_material"));
    assert!(definition.system_prompt.contains("deepen_understanding"));
    assert!(definition.system_prompt.contains("compose_output"));
    assert!(definition.system_prompt.contains("action_type"));
    assert!(definition.system_prompt.contains("reply_text"));
    assert!(definition.system_prompt.contains("suggested_run_type"));
    assert!(definition.system_prompt.contains("direct_reply"));
    assert!(definition.system_prompt.contains("request_clarification"));
    assert!(definition.system_prompt.contains("create_run"));
}

#[test]
fn intent_and_action_names_round_trip() {
    for intent in [
        SessionIntent::GeneralReply,
        SessionIntent::DistillMaterial,
        SessionIntent::DeepenUnderstanding,
        SessionIntent::ComposeOutput,
    ] {
        assert_eq!(SessionIntent::from_str(intent.as_str()), Some(intent));
    }
    for action in [
        SessionActionType::DirectReply,
        SessionActionType::RequestClarification,
        SessionActionType::ToolCall,
        SessionActionType::SkillCall,
        SessionActionType::CreateRun,
        SessionActionType::Stop,
    ] {
        assert_eq!(parse_action_type(action.as_str()), Some(action));
    }
    assert_eq!(SessionIntent::from_str("llm_direct_reply"), Some(SessionIntent::GeneralReply));
    assert_eq!(SessionIntent::from_str("unknown"), None);
    assert_eq!(parse_action_type("Tool_Call"), None);
}

#[test]
fn basic_decision_uses_the_exact_tool_arguments() {
    let d = decide(input(
        session("S", "none", "none", "s", "idle"),
        vec![],
        intake("What is inside attachment paths?", vec![notes_attachment()]),
    ));
    let t = d.tool_invocation.expect("tool");
    assert_eq!(t.arguments_json, "{\"attachment_id\":\"attachment-1\",\"attachment_index\":0,\"max_chars\":400}");
    assert_eq!(t.reasoning_summary.as_deref(), Some("The user is asking about the contents of the current attachment."));

    let read = decide(input(
        session("S", "none", "none", "s", "idle"),
        vec![],
        intake("Please read the current attachment text before answering.", vec![notes_attachment()]),
    ));
    assert_eq!(read.tool_invocation.expect("tool").arguments_json, "{\"attachment_index\":0,\"max_chars\":1200}");

    let web = decide(input(
        session("S", "none", "none", "s", "idle"),
        vec![],
        intake("See https://example.com/a?b=\"c\").", vec![]),
    ));
    assert_eq!(web.action_type, SessionActionType::ToolCall);
    assert_eq!(web.tool_invocation.expect("tool").arguments_json, "{\"max_chars\":4000,\"url\":\"https://example.com/a?b=\\\"c\"}");
}

#[test]
fn basic_decision_defaults_material_object_type_for_distill() {
    let d = decide(input(session("S", "none", "none", "s", "idle"), vec![], intake("IMPORT this", vec![])));
    assert_eq!(d.primary_object_type.as_deref(), Some("material"));
    assert_eq!(d.primary_object_id, None);
    let kept = decide(input(session("S", "source", "source-1", "s", "idle"), vec![], intake("upload", vec![])));
    assert_eq!(kept.primary_object_type.as_deref(), Some("source"));
    assert_eq!(kept.primary_object_id.as_deref(), Some("source-1"));
    let lower = basic_decision(&input(session("S", "none", "none", "s", "idle"), vec![], intake("x", vec![])), "please compose");
    assert_eq!(lower.intent, SessionIntent::ComposeOutput);
}

#[test]
fn attachment_questions_without_attachments_are_not_tool_calls() {
    let d = decide(input(session("S", "none", "none", "s", "idle"), vec![], intake("Which attachments are available?", vec![])));
    assert_eq!(d.action_type, SessionActionType::DirectReply);
}

#[test]
fn structured_decision_promotes_distill_direct_reply() {
    let mut p = structured("distill_material", "direct_reply", "I extracted requirement points for you.");
    p.primary_object_type = Some("material".to_string());
    p.session_summary = Some("User provided work content".to_string());
    let d = decision_from_structured(p).expect("accepted");
    assert_eq!(d.intent, SessionIntent::DistillMaterial);
    assert_eq!(d.action_type, SessionActionType::CreateRun);
    assert_eq!(d.suggested_run_type.as_deref(), Some("import_and_distill"));
    assert_eq!(d.failure_hint.as_deref(), Some("clarify_or_stop"));
    assert!(d.should_continue_planning);
    assert_eq!(d.session_summary.as_deref(), Some("User provided work content"));
    assert_eq!(d.reply_text, "I extracted requirement points for you.");
}

#[test]
fn structured_decision_accepts_known_create_run_and_rejects_extras() {
    let mut p = structured("distill_material", "create_run", "I will start a distill run for this work material.");
    p.suggested_run_type = Some("import_and_distill".to_string());
    let d = decision_from_structured(p.clone()).expect("accepted");
    assert_eq!(d.action_type, SessionActionType::CreateRun);
    assert_eq!(d.run_creation.as_ref().map(|r| r.run_type.as_str()), Some("import_and_distill"));
    assert!(d.should_continue_planning);

    p.skill_selection = Some(SkillSelection::new("compose_and_verify_skill"));
    assert!(decision_from_structured(p).is_none());

    let mut skill = structured("compose_output", "skill_call", "r");
    skill.skill_selection = Some(SkillSelection::new("compose_and_verify_skill"));
    let d = decision_from_structured(skill).expect("skill call");
    assert_eq!(d.action_type, SessionActionType::SkillCall);
    assert!(!d.should_continue_planning);

    assert!(decision_from_structured(structured("nonsense", "direct_reply", "r")).is_none());
    assert!(decision_from_structured(structured("general_reply", "jump", "r")).is_none());
    let stop = decision_from_structured(structured("general_reply", "stop", "bye")).expect("stop");
    assert_eq!(stop.next_action, SessionNextAction::Stop);
}

#[test]
fn raw_output_routes_plain_text_and_json() {
    let plain = decision_from_raw_output("Hello from fake llm", None);
    assert_eq!(plain.action_type, SessionActionType::DirectReply);
    assert_eq!(plain.intent, SessionIntent::GeneralReply);
    assert_eq!(plain.reply_text, "Hello from fake llm");

    let unreadable = decision_from_raw_output("  {not json", None);
    assert_eq!(unreadable.action_type, SessionActionType::RequestClarification);
    assert_eq!(unreadable.reply_text, CLARIFICATION_REPLY);
    assert!(!unreadable.reply_text.contains("\"intent\""));

    let mut p = structured("general_reply", "direct_reply", "Here is the answer.");
    p.session_summary = Some("Providing a direct answer".to_string());
    let parsed = decision_from_raw_output("{\"intent\":\"general_reply\"}", Some(p));
    assert_eq!(parsed.reply_text, "Here is the answer.");

    let rejected = decision_from_raw_output("{}", Some(structured("compose_output", "create_run", "x")));
    assert_eq!(rejected.action_type, SessionActionType::RequestClarification);
    assert_eq!(fallback_clarification_decision().failure_hint.as_deref(), Some("clarify_or_stop"));
    assert_eq!(fallback_direct_reply_decision("x").session_summary.as_deref(), Some("LLM replied to the current session message"));
    assert_eq!(missing_assistant_content().to_string(), "agent response error: llm response did not contain assistant content");
}

#[test]
fn streamed_reply_resolution() {
    let direct = fallback_direct_reply_decision("draft");
    assert!(needs_streamed_reply(&direct));
    assert!(!needs_streamed_reply(&fallback_clarification_decision()));

    assert_eq!(reply_after_stream(Some("Hello world".to_string()), "Hello"), Some("Hello world".to_string()));
    assert_eq!(reply_after_stream(Some("  ".to_string()), "Hel"), Some("Hel".to_string()));
    assert_eq!(reply_after_stream(None, "Hel"), None);
    assert_eq!(reply_after_fallback(Some("Fallback final reply".to_string()), ""), "Fallback final reply");
    assert_eq!(reply_after_fallback(None, "partial"), "partial");
    assert_eq!(final_reply_text(" ", "Draft planner reply"), "Draft planner reply");
    assert_eq!(final_reply_text("Hello world", "Draft"), "Hello world");

    assert_eq!(closing_chunk("Fallback final reply", "", false), Some("Fallback final reply".to_string()));
    assert_eq!(closing_chunk("  ", "", false), None);
    assert_eq!(closing_chunk("Hello world", "Hello world", true), None);
    assert_eq!(closing_chunk("Hello world", "Hello", true), Some(" world".to_string()));
    assert_eq!(closing_chunk("Other", "Hello", true), None);
}

#[test]
fn direct_reply_messages_skip_system_history_and_carry_the_draft() {
    let i = input(
        session("S", "none", "none", "sum", "idle"),
        vec![
            message("m1", "user_message", SessionMessageRole::User, "Q", "t1"),
            message("m2", "system_message", SessionMessageRole::System, "internal", "t2"),
            message("m3", "assistant_message", SessionMessageRole::Assistant, "A", "t3"),
        ],
        intake("Hello", vec![]),
    );
    let d = fallback_direct_reply_decision("Draft planner reply");
    let messages = build_direct_reply_stream_messages(&i, &d);
    assert_eq!(messages.len(), 4);
    assert!(messages[0].content.starts_with("You are the assistant for Distilllab."));
    assert!(messages[0].content.ends_with("Planner decision:\nintent: general_reply\naction_type: direct_reply\nreply_text_draft: Draft planner reply"));
    assert_eq!(messages[1].content, "Q");
    assert_eq!(messages[2].content, "A");
    assert_eq!(messages[3].content, "Hello");
    assert!(messages.iter().all(|m| m.content != "internal"));

    let planner = build_chat_messages(&i);
    assert_eq!(planner.len(), 1 + 16 + 3 + 1);
    assert_eq!(planner[18].role, "system");
}

#[test]
fn attachment_context_lists_each_attachment() {
    let mut second = notes_attachment();
    second.attachment_id = "attachment-2".to_string();
    second.name = "b.txt".to_string();
    second.size = 2048;
    let i = input(session("S", "none", "none", "s", "idle"), vec![], intake("x", vec![notes_attachment(), second]));
    assert_eq!(
        format_attachment_context(&i),
        "current_intake_attachments:\n- attachment_id: attachment-1 | name: notes.md | kind: file_copy | mime_type: text/markdown | size: 128\n- attachment_id: attachment-2 | name: b.txt | kind: file_copy | mime_type: text/markdown | size: 2048"
    );
    let none = input(session("S", "none", "none", "s", "idle"), vec![], intake("x", vec![]));
    assert_eq!(format_attachment_context(&none), "current_intake_attachments: none");
}

#[test]
fn planner_request_uses_the_model() {
    let config = LlmProviderConfig {
        provider_kind: "openai_compatible".to_string(),
        base_url: "http://localhost:11434/v1".to_string(),
        model: "qwen-test".to_string(),
        api_key: None,
    };
    let request = planner_request(&config, &input(session("S", "none", "none", "s", "idle"), vec![], intake("Hi", vec![])));
    assert_eq!(request.model, "qwen-test");
    assert_eq!(request.stream, None);
    assert_eq!(request.messages.last().expect("turn").content, "Hi");
}
