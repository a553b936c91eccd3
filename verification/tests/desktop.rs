use distilllab::desktop::{
    desktop_ui_config_from_preferences, desktop_ui_preferences_from_config, format_action_type,
    format_app_config_summary, format_intake_preview_text, format_llm_debug_comparison_text,
    format_optional_text, format_provider_test_text, format_session_agent_decision_text,
    format_session_selector_label, is_valid_desktop_locale, is_valid_desktop_theme,
    requested_max_agent_concurrency_to_config_value, validate_desktop_ui_preferences,
    AppConfigSummary, DesktopUiConfig, DesktopUiPreferences, DistillRunStepPreview,
    RunHandoffPreview, SessionIntakePreview,
};
use distilllab::session::{Session, SessionStatus};
use distilllab::session_agent::{
    RunCreationRequest, SessionActionType, SessionAgentDecision, SessionIntent, SessionNextAction,
};
use distilllab::tools::ToolInvocation;

fn distill_decision(object_type: Option<&str>, object_id: Option<&str>, reply: &str, summary: &str) -> SessionAgentDecision {
    SessionAgentDecision {
        intent: SessionIntent::DistillMaterial,
        primary_object_type: object_type.map(str::to_string),
        primary_object_id: object_id.map(str::to_string),
        action_type: SessionActionType::CreateRun,
        next_action: SessionNextAction::CreateRun(RunCreationRequest {
            run_type: "import_and_distill".to_string(),
            reasoning_summary: None,
        }),
        tool_invocation: None,
        skill_selection: None,
        run_creation: Some(RunCreationRequest {
            run_type: "import_and_distill".to_string(),
            reasoning_summary: None,
        }),
        reply_text: reply.to_string(),
        suggested_run_type: Some("import_and_distill".to_string()),
        session_summary: Some(summary.to_string()),
        should_continue_planning: true,
        failure_hint: Some("clarify_or_stop".to_string()),
    }
}

#[test]
fn formats_structured_session_agent_decision_as_plain_text() {
    let text = format_session_agent_decision_text(&SessionAgentDecision {
        intent: SessionIntent::GeneralReply,
        primary_object_type: None,
        primary_object_id: None,
        action_type: SessionActionType::DirectReply,
        next_action: SessionNextAction::DirectReply,
        tool_invocation: None,
        skill_selection: None,
        run_creation: None,
        reply_text: "Hello from debug panel".to_string(),
        suggested_run_type: None,
        session_summary: Some("LLM replied to the current session message".to_string()),
        should_continue_planning: false,
        failure_hint: None,
    });

    assert!(text.contains("intent: general_reply"));
    assert!(text.contains("action_type: direct_reply"));
    assert!(text.contains("reply_text: Hello from debug panel"));
    assert!(text.contains("suggested_run_type: none"));
    assert!(text.contains("session_summary: LLM replied to the current session message"));
}

#[test]
fn formats_create_run_decision_with_debug_readability() {
    let text = format_session_agent_decision_text(&distill_decision(
        Some("source"),
        Some("source-1"),
        "I will start a distill run for this work material.",
        "Preparing to import material",
    ));

    assert!(text.contains("intent: distill_material"));
    assert!(text.contains("action_type: create_run"));
    assert!(text.contains("primary_object_type: source"));
    assert!(text.contains("primary_object_id: source-1"));
    assert!(text.contains("suggested_run_type: import_and_distill"));
}

#[test]
fn formats_current_provider_test_result_as_readable_text() {
    let text = format_provider_test_text("ice", "gpt-5.4", "ok", "connected successfully");

    assert!(text.contains("provider: ice"));
    assert!(text.contains("model: gpt-5.4"));
    assert!(text.contains("status: ok"));
    assert!(text.contains("message: connected successfully"));
}

#[test]
fn formats_llm_debug_comparison_text_with_raw_and_parsed_sections() {
    let text = format_llm_debug_comparison_text(
        "{\"intent\":\"distill_material\"}",
        &distill_decision(
            None,
            None,
            "I will start a distill run for this work material.",
            "Preparing to import material",
        ),
    );

    assert!(text.contains("Raw LLM Output"));
    assert!(text.contains("Parsed Decision"));
    assert!(text.contains("distill_material"));
    assert!(text.contains("import_and_distill"));
}

#[test]
fn formats_session_selector_label_with_title_and_session_id() {
    let label = format_session_selector_label(&Session {
        id: "session-123".to_string(),
        title: "Attachment Tooling Debug".to_string(),
        manual_title: None,
        pinned: false,
        status: SessionStatus::Active,
        current_intent: "idle".to_string(),
        current_object_type: "none".to_string(),
        current_object_id: "none".to_string(),
        summary: "debugging attachment tools".to_string(),
        started_at: "2026-03-31T00:00:00Z".to_string(),
        updated_at: "2026-03-31T00:00:00Z".to_string(),
        last_user_message_at: "2026-03-31T00:00:00Z".to_string(),
        last_run_at: "2026-03-31T00:00:00Z".to_string(),
        last_compacted_at: "2026-03-31T00:00:00Z".to_string(),
        metadata_json: "{}".to_string(),
    });

    assert_eq!(label, "Attachment Tooling Debug (session-123)");
}

#[test]
fn formats_app_config_as_readable_text() {
    let text = format_app_config_summary(&AppConfigSummary {
        current_provider: Some("ice".to_string()),
        current_model: Some("gpt-5.4".to_string()),
        provider_ids: Some(vec!["copilot".to_string(), "ice".to_string(), "openai".to_string()]),
    });

    assert!(text.contains("current provider: ice"));
    assert!(text.contains("current model: gpt-5.4"));
    assert!(text.contains("providers: copilot, ice, openai"));
}

#[test]
fn app_config_summary_defaults_to_none() {
    let text = format_app_config_summary(&AppConfigSummary {
        current_provider: None,
        current_model: None,
        provider_ids: None,
    });
    assert_eq!(text, "current provider: none\ncurrent model: none\nproviders: none");
}

#[test]
fn formats_session_intake_preview_with_decision_and_handoff_sections() {
    let text = format_intake_preview_text(&SessionIntakePreview {
        decision: distill_decision(
            None,
            None,
            "I will start a distillation workflow for this work material.",
            "Preparing to distill work material",
        ),
        run_handoff_preview: Some(RunHandoffPreview {
            run_type: "import_and_distill".to_string(),
            primary_object_type: Some("material".to_string()),
            primary_object_id: None,
            summary: "Previewing the import-and-distill workflow for this work material.".to_string(),
            planned_steps: vec![
                DistillRunStepPreview {
                    step_key: "materialize_sources".to_string(),
                    summary: "Materialize the current work material into one or more sources.".to_string(),
                },
                DistillRunStepPreview {
                    step_key: "chunk_sources".to_string(),
                    summary: "Chunk the source material into retrieval and extraction units.".to_string(),
                },
            ],
        }),
    });

    assert!(text.contains("SessionAgent Decision"));
    assert!(text.contains("Run Handoff Preview"));
    assert!(text.contains("run_type: import_and_distill"));
    assert!(text.contains("- materialize_sources"));
    assert!(text.contains("- chunk_sources"));
}

#[test]
fn formats_session_intake_preview_with_attachment_hint() {
    let text = format_intake_preview_text(&SessionIntakePreview {
        decision: distill_decision(
            Some("material"),
            None,
            "I will start a distillation workflow for this work material.",
            "Preparing to distill work material",
        ),
        run_handoff_preview: Some(RunHandoffPreview {
            run_type: "import_and_distill".to_string(),
            primary_object_type: Some("material".to_string()),
            primary_object_id: None,
            summary: "Previewing the import-and-distill workflow for this work material.".to_string(),
            planned_steps: vec![DistillRunStepPreview {
                step_key: "materialize_sources".to_string(),
                summary: "Materialize the current work material into one or more sources.".to_string(),
            }],
        }),
    });

    assert!(text.contains("primary_object_type: material"));
    assert!(text.contains("materialize_sources"));
}

#[test]
fn decision_text_is_exact() {
    let mut d = distill_decision(None, None, "r", "s");
    d.tool_invocation = Some(ToolInvocation::new("web_fetch"));
    assert_eq!(
        format_session_agent_decision_text(&d),
        "intent: distill_material\naction_type: create_run\nprimary_object_type: none\nprimary_object_id: none\nreply_text: r\nsuggested_run_type: import_and_distill\nsession_summary: s\ntool_name: web_fetch\nshould_continue_planning: true\nfailure_hint: clarify_or_stop"
    );
    let preview = SessionIntakePreview { decision: d, run_handoff_preview: None };
    assert!(format_intake_preview_text(&preview).starts_with("SessionAgent Decision\nintent: distill_material"));
    assert!(!format_intake_preview_text(&preview).contains("Run Handoff Preview"));
}

#[test]
fn save_desktop_ui_preferences_command_rejects_invalid_theme_and_locale() {
    let bad_theme = DesktopUiPreferences { theme: "sepia".to_string(), locale: "en".to_string(), show_debug_panel: true };
    let error = validate_desktop_ui_preferences(&bad_theme).expect_err("invalid theme should be rejected");
    assert!(error.contains("theme must be one of"));
    assert!(error.contains("system"));

    let bad_locale = DesktopUiPreferences { theme: "dark".to_string(), locale: "fr".to_string(), show_debug_panel: true };
    let error = validate_desktop_ui_preferences(&bad_locale).expect_err("invalid locale should be rejected");
    assert!(error.contains("locale must be one of"));
}

#[test]
fn load_desktop_ui_preferences_command_returns_defaults_when_missing() {
    let preferences = desktop_ui_preferences_from_config(&None);
    assert_eq!(preferences.theme, "system");
    assert_eq!(preferences.locale, "en");
    assert!(preferences.show_debug_panel);
    let defaults = DesktopUiPreferences::default();
    assert_eq!(defaults.theme, "system");
}

#[test]
fn load_desktop_ui_preferences_command_falls_back_to_system_for_invalid_saved_theme() {
    let preferences = desktop_ui_preferences_from_config(&Some(DesktopUiConfig {
        theme: "sepia".to_string(),
        locale: "zh-CN".to_string(),
        show_debug_panel: false,
    }));
    assert_eq!(preferences.theme, "system");
    assert_eq!(preferences.locale, "zh-CN");
    assert_eq!(preferences.show_debug_panel, false);
}

#[test]
fn desktop_ui_preferences_round_trip_through_typed_config() {
    let preferences = DesktopUiPreferences { theme: "dark".to_string(), locale: "zh-CN".to_string(), show_debug_panel: false };
    let restored = desktop_ui_preferences_from_config(&Some(desktop_ui_config_from_preferences(&preferences)));
    assert_eq!(restored.theme, "dark");
    assert_eq!(restored.locale, "zh-CN");
    assert_eq!(restored.show_debug_panel, false);
}

#[test]
fn theme_and_locale_checks() {
    for t in ["system", "light", "dark"] {
        assert!(is_valid_desktop_theme(t));
    }
    assert!(!is_valid_desktop_theme("Dark"));
    assert!(is_valid_desktop_locale("zh-CN"));
    assert!(!is_valid_desktop_locale("zh-cn"));
    assert!(validate_desktop_ui_preferences(&DesktopUiPreferences::default()).is_ok());
}

#[test]
fn save_max_agent_concurrency_command_normalizes_negative_and_large_inputs() {
    assert_eq!(requested_max_agent_concurrency_to_config_value(-5), 0);
    assert_eq!(requested_max_agent_concurrency_to_config_value(999), 255);
    assert_eq!(requested_max_agent_concurrency_to_config_value(16), 16);
    assert_eq!(requested_max_agent_concurrency_to_config_value(i64::MIN), 0);
    assert_eq!(requested_max_agent_concurrency_to_config_value(i64::MAX), 255);
    assert_eq!(requested_max_agent_concurrency_to_config_value(255), 255);
    let once = requested_max_agent_concurrency_to_config_value(1000);
    assert_eq!(requested_max_agent_concurrency_to_config_value(once as i64), once);
}

#[test]
fn optional_text_and_action_names() {
    assert_eq!(format_optional_text(None), "none");
    assert_eq!(format_optional_text(Some("x")), "x");
    assert_eq!(format_action_type(&SessionActionType::RequestClarification), "request_clarification");
    assert_eq!(format_action_type(&SessionActionType::SkillCall), "skill_call");
}
