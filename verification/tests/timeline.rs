use distilllab::session::{SessionMessage, SessionMessageRole};
use distilllab::timeline::{
    desktop_message_from_session_message, desktop_run_cards_from_progress_messages,
    desktop_timeline_from_session_messages, format_session_messages_text, DesktopTimelineAttachment, MessageData,
    MessageWithData, RunProgressData,
};

fn session_message(
    id: &str,
    run_id: Option<&str>,
    message_type: &str,
    role: SessionMessageRole,
    content: &str,
    data_json: &str,
    created_at: &str,
) -> SessionMessage {
    SessionMessage {
        id: id.to_string(),
        session_id: "session-1".to_string(),
        run_id: run_id.map(str::to_string),
        message_type: message_type.to_string(),
        role,
        content: content.to_string(),
        data_json: data_json.to_string(),
        created_at: created_at.to_string(),
    }
}

fn plain(id: &str, message_type: &str, role: SessionMessageRole, content: &str, created_at: &str) -> MessageWithData {
    MessageWithData {
        message: session_message(id, None, message_type, role, content, "{}", created_at),
        data: MessageData::default(),
    }
}

fn tool_row(id: &str, content: &str, tool_name: &str, arguments: &str, status: Option<&str>, created_at: &str) -> MessageWithData {
    let data_json = match status {
        Some(s) => format!("{{\"arguments\":{},\"status\":\"{}\",\"tool_name\":\"{}\"}}", arguments, s, tool_name),
        None => format!("{{\"arguments\":{},\"tool_name\":\"{}\"}}", arguments, tool_name),
    };
    MessageWithData {
        message: session_message(
            id,
            None,
            "tool_result_message",
            SessionMessageRole::System,
            content,
            &data_json,
            created_at,
        ),
        data: MessageData {
            tool_name: Some(tool_name.to_string()),
            arguments: Some(arguments.to_string()),
            tool_status: status.map(str::to_string),
            ..MessageData::default()
        },
    }
}

struct Step<'a> {
    key: &'a str,
    summary: &'a str,
    status: &'a str,
    index: u64,
    total: u64,
}

fn progress(
    phase: &str,
    run_id: &str,
    run_state: &str,
    percent: u64,
    step: Option<Step>,
    detail_text: Option<&str>,
) -> RunProgressData {
    RunProgressData {
        run_id: Some(run_id.to_string()),
        phase: Some(phase.to_string()),
        run_type: Some("distill".to_string()),
        run_state: Some(run_state.to_string()),
        progress_percent: Some(percent),
        step_key: step.as_ref().map(|s| s.key.to_string()),
        step_summary: step.as_ref().map(|s| s.summary.to_string()),
        step_status: step.as_ref().map(|s| s.status.to_string()),
        step_index: step.as_ref().map(|s| s.index),
        steps_total: step.as_ref().map(|s| s.total),
        detail_text: detail_text.map(str::to_string),
    }
}

fn progress_row(id: &str, run_id: &str, content: &str, report: RunProgressData, created_at: &str) -> MessageWithData {
    let data_json = format!("{{\"statusText\":\"{}\"}}", content);
    MessageWithData {
        message: session_message(
            id,
            Some(run_id),
            "run_progress_message",
            SessionMessageRole::System,
            content,
            &data_json,
            created_at,
        ),
        data: MessageData { run_progress: Some(report), ..MessageData::default() },
    }
}

fn step<'a>(key: &'a str, summary: &'a str, status: &'a str, index: u64, total: u64) -> Option<Step<'a>> {
    Some(Step { key, summary, status, index, total })
}

fn created_row(id: &str, percent: u64, created_at: &str) -> MessageWithData {
    progress_row(
        id,
        "run-123",
        "run created: run-123 (distill)",
        progress("created", "run-123", "queued", percent, step("gather", "Gather material", "started", 1, 2), Some("Collecting sources")),
        created_at,
    )
}

#[test]
fn format_session_messages_text_preserves_user_attachment_metadata_for_reopen() {
    let message = MessageWithData {
        message: session_message(
            "message-user",
            None,
            "user_message",
            SessionMessageRole::User,
            "Please review the attached notes",
            "{\"attachments\":[{\"name\":\"notes.md\",\"size\":2048}]}",
            "2026-04-05T00:00:00Z",
        ),
        data: MessageData {
            attachments: vec![DesktopTimelineAttachment { name: "notes.md".to_string(), size: Some(2048) }],
            attachments_json: Some("[{\"name\":\"notes.md\",\"size\":2048}]".to_string()),
            ..MessageData::default()
        },
    };
    let timeline = format_session_messages_text(&vec![message]);

    assert!(timeline.contains("[User]"));
    assert!(timeline.contains("Please review the attached notes"));
    assert!(timeline.contains("\"attachments\""));
    assert!(timeline.contains("\"name\":\"notes.md\""));
}

#[test]
fn formats_session_messages_as_timeline_text() {
    let text = format_session_messages_text(&vec![
        plain("message-1", "user_message", SessionMessageRole::User, "Hello timeline", "2026-03-29T00:00:00Z"),
        plain("message-2", "assistant_message", SessionMessageRole::Assistant, "Hello back", "2026-03-29T00:00:01Z"),
    ]);

    assert!(text.contains("[User]\n  Hello timeline"));
    assert!(text.contains("[Assistant]\n  Hello back"));
}

#[test]
fn formats_tool_result_messages_with_tool_header_style() {
    let text = format_session_messages_text(&vec![tool_row(
        "message-1",
        "Attachment excerpt: hello",
        "read_attachment_excerpt",
        "{\"attachment_index\":0,\"max_chars\":400}",
        None,
        "2026-03-29T00:00:00Z",
    )]);

    assert!(text.contains("[Tool] read_attachment_excerpt({\"attachment_index\":0,\"max_chars\":400})"));
    assert!(text.contains("  Attachment excerpt: hello"));
}

#[test]
fn text_timeline_of_no_messages_says_so() {
    assert_eq!(format_session_messages_text(&vec![]), "no session messages found");
}

#[test]
fn text_timeline_joins_blocks_with_blank_line_and_shows_run_rows() {
    let text = format_session_messages_text(&vec![
        plain("m1", "user_message", SessionMessageRole::User, "line one\nline two", "t1"),
        created_row("p1", 10, "t2"),
        tool_row("t", "body", "read_file", "{}", None, "t3"),
    ]);
    assert_eq!(
        text,
        "[User]\n  line one\n  line two\n\n[Run] run-123 [gather] (created)\n  run created: run-123 (distill)\n  {\"statusText\":\"run created: run-123 (distill)\"}\n\n[Tool] read_file({})\n  body"
    );
}

#[test]
fn text_timeline_falls_back_to_unknown_headers() {
    let text = format_session_messages_text(&vec![
        MessageWithData {
            message: session_message("t", None, "tool_result_message", SessionMessageRole::System, "x", "oops", "t1"),
            data: MessageData::default(),
        },
        MessageWithData {
            message: session_message("p", Some("r"), "run_progress_message", SessionMessageRole::System, "y", "{}", "t2"),
            data: MessageData::default(),
        },
    ]);
    assert_eq!(text, "[Tool] unknown()\n  x\n\n[Run] unknown\n  y\n  {}");
}

#[test]
fn text_timeline_shows_attachments_alone_for_blank_user_content() {
    let message = MessageWithData {
        message: session_message("u", None, "user_message", SessionMessageRole::User, "  ", "{}", "t1"),
        data: MessageData { attachments_json: Some("[{\"name\":\"a\"}]".to_string()), ..MessageData::default() },
    };
    assert_eq!(format_session_messages_text(&vec![message]), "[User]\n  {\"attachments\":[{\"name\":\"a\"}]}");
}

#[test]
fn desktop_timeline_mapper_preserves_user_attachments() {
    let message = MessageWithData {
        message: session_message(
            "message-user",
            None,
            "user_message",
            SessionMessageRole::User,
            "Please review the attached notes",
            "{\"attachments\":[{\"mimeType\":\"text/markdown\",\"name\":\"notes.md\",\"size\":2048}]}",
            "2026-04-05T00:00:00Z",
        ),
        data: MessageData {
            attachments: vec![DesktopTimelineAttachment { name: "notes.md".to_string(), size: Some(2048) }],
            ..MessageData::default()
        },
    };
    let timeline = desktop_timeline_from_session_messages(&vec![message]);

    assert_eq!(timeline.len(), 1);
    assert_eq!(timeline[0].id, "message-user");
    assert_eq!(timeline[0].role, "user");
    assert_eq!(timeline[0].kind, "message");
    assert_eq!(timeline[0].source_message_type.as_deref(), Some("user_message"));
    assert_eq!(timeline[0].content, "Please review the attached notes");
    assert_eq!(timeline[0].attachments.len(), 1);
    assert_eq!(timeline[0].attachments[0].name, "notes.md");
    assert_eq!(timeline[0].attachments[0].size, Some(2048));
    assert_eq!(timeline[0].created_at, "2026-04-05T00:00:00Z");
}

#[test]
fn desktop_timeline_mapper_converts_tool_result_messages() {
    let timeline = desktop_timeline_from_session_messages(&vec![tool_row(
        "message-tool",
        "Attachment excerpt: hello",
        "read_attachment_excerpt",
        "{\"attachment_index\":0,\"max_chars\":400}",
        None,
        "2026-04-05T00:00:01Z",
    )]);

    assert_eq!(timeline.len(), 1);
    assert_eq!(timeline[0].id, "message-tool");
    assert_eq!(timeline[0].role, "system");
    assert_eq!(timeline[0].kind, "tool");
    assert_eq!(timeline[0].source_message_type.as_deref(), Some("tool_result_message"));
    assert_eq!(timeline[0].content, "Attachment excerpt: hello");
    let details = timeline[0].details.as_deref().expect("tool details");
    assert_eq!(timeline[0].summary.as_deref(), Some("read_attachment_excerpt · success"));
    assert!(details.contains("tool: read_attachment_excerpt"));
    assert!(details.contains("status: success"));
    assert!(details.contains("attachment_index"));
    assert!(details.contains("max_chars"));
    assert!(details.contains("Attachment excerpt: hello"));
    assert!(timeline[0].details.is_some());
    assert!(timeline[0].run_meta.is_none());
}

#[test]
fn desktop_timeline_mapper_aggregates_run_progress_into_one_run_card() {
    let timeline = desktop_timeline_from_session_messages(&vec![
        created_row("progress-1", 10, "2026-04-05T00:00:02Z"),
        progress_row(
            "progress-2",
            "run-123",
            "run step finished: run-123 [draft] (80%)",
            progress("step_finished", "run-123", "running", 80, step("draft", "Draft answer", "completed", 2, 2), Some("Draft complete")),
            "2026-04-05T00:00:03Z",
        ),
    ]);

    assert_eq!(timeline.len(), 1);
    assert_eq!(timeline[0].id, "run-card-run-123");
    assert_eq!(timeline[0].kind, "run");
    assert_eq!(timeline[0].role, "system");
    assert_eq!(timeline[0].source_message_type.as_deref(), Some("run_progress_message"));
    assert_eq!(timeline[0].created_at, "2026-04-05T00:00:02Z");

    let run_meta = timeline[0].run_meta.as_ref().expect("run card meta");
    assert_eq!(run_meta.run_id, "run-123");
    assert_eq!(run_meta.state, "running");
    assert_eq!(run_meta.progress_percent, 80);
    assert_eq!(run_meta.run_type.as_deref(), Some("distill"));
    assert_eq!(run_meta.current_step_key.as_deref(), Some("draft"));
    assert_eq!(run_meta.steps.len(), 2);
    assert_eq!(run_meta.steps[0].key, "gather");
    assert_eq!(run_meta.steps[1].key, "draft");
}

#[test]
fn desktop_timeline_mapper_places_run_card_at_earliest_run_progress_position() {
    let timeline = desktop_timeline_from_session_messages(&vec![
        plain("message-user", "user_message", SessionMessageRole::User, "Start the run", "2026-04-05T00:00:00Z"),
        progress_row(
            "progress-2",
            "run-123",
            "run step finished: run-123 [draft] (100%)",
            progress("step_finished", "run-123", "completed", 100, step("draft", "Draft answer", "completed", 2, 2), Some("Draft complete")),
            "2026-04-05T00:00:03Z",
        ),
        created_row("progress-1", 5, "2026-04-05T00:00:01Z"),
        plain("message-assistant", "assistant_message", SessionMessageRole::Assistant, "Run complete", "2026-04-05T00:00:02Z"),
    ]);

    assert_eq!(timeline.len(), 3);
    assert_eq!(timeline[0].id, "message-user");
    assert_eq!(timeline[1].id, "run-card-run-123");
    assert_eq!(timeline[2].id, "message-assistant");
    assert_eq!(timeline[1].created_at, "2026-04-05T00:00:01Z");
}

#[test]
fn desktop_timeline_mapper_preserves_user_handoff_run_and_completion_order() {
    let timeline = desktop_timeline_from_session_messages(&vec![
        plain("message-user", "user_message", SessionMessageRole::User, "Please generate the brief", "2026-04-05T00:00:00Z"),
        plain("message-handoff", "assistant_message", SessionMessageRole::Assistant, "I will start a distill run.", "2026-04-05T00:00:01Z"),
        created_row("progress-1", 10, "2026-04-05T00:00:02Z"),
        plain("message-complete", "assistant_message", SessionMessageRole::Assistant, "The brief is ready.", "2026-04-05T00:00:03Z"),
    ]);

    let ids = timeline.iter().map(|message| message.id.as_str()).collect::<Vec<_>>();
    assert_eq!(ids, vec!["message-user", "message-handoff", "run-card-run-123", "message-complete"]);
}

#[test]
fn desktop_timeline_mapper_keeps_run_card_when_one_progress_row_is_malformed() {
    let timeline = desktop_timeline_from_session_messages(&vec![
        plain("message-user", "user_message", SessionMessageRole::User, "Run it", "2026-04-05T00:00:00Z"),
        MessageWithData {
            message: session_message(
                "progress-bad",
                Some("run-123"),
                "run_progress_message",
                SessionMessageRole::System,
                "bad progress row",
                "{\"statusText\":\"bad progress row\"}",
                "2026-04-05T00:00:01Z",
            ),
            data: MessageData::default(),
        },
        progress_row(
            "progress-good",
            "run-123",
            "run state: run-123 running (40%)",
            progress("state_changed", "run-123", "running", 40, None, Some("Still working")),
            "2026-04-05T00:00:02Z",
        ),
    ]);

    assert_eq!(timeline.len(), 2);
    assert_eq!(timeline[0].id, "message-user");
    assert_eq!(timeline[1].id, "run-card-run-123");
    assert_eq!(timeline[1].kind, "run");
    assert_eq!(timeline[1].created_at, "2026-04-05T00:00:01Z");
    let run_meta = timeline[1].run_meta.as_ref().expect("run meta");
    assert_eq!(run_meta.run_id, "run-123");
    assert_eq!(run_meta.state, "running");
    assert_eq!(run_meta.progress_percent, 40);
}

fn draft_started(id: &str, created_at: &str) -> MessageWithData {
    progress_row(
        id,
        "run-123",
        "run step started: run-123 [draft] (20%)",
        progress("step_started", "run-123", "running", 20, step("draft", "Draft answer", "started", 1, 2), Some("Starting draft")),
        created_at,
    )
}

fn draft_finished(id: &str, created_at: &str) -> MessageWithData {
    progress_row(
        id,
        "run-123",
        "run step finished: run-123 [draft] (60%)",
        progress("step_finished", "run-123", "running", 60, step("draft", "Draft answer", "completed", 1, 2), Some("Draft done")),
        created_at,
    )
}

#[test]
fn desktop_timeline_mapper_keeps_one_evolving_step_per_step_key() {
    let timeline = desktop_timeline_from_session_messages(&vec![
        draft_started("progress-1", "2026-04-05T00:00:01Z"),
        draft_finished("progress-2", "2026-04-05T00:00:02Z"),
    ]);

    assert_eq!(timeline.len(), 1);
    let run_meta = timeline[0].run_meta.as_ref().expect("run meta");
    assert_eq!(run_meta.steps.len(), 1);
    assert_eq!(run_meta.steps[0].key, "draft");
    assert_eq!(run_meta.steps[0].status, "completed");
    assert_eq!(run_meta.steps[0].detail_text.as_deref(), Some("Draft done"));
}

#[test]
fn desktop_timeline_mapper_uses_latest_valid_step_row_by_persisted_chronology() {
    let timeline = desktop_timeline_from_session_messages(&vec![
        draft_finished("progress-late", "2026-04-05T00:00:02Z"),
        draft_started("progress-early", "2026-04-05T00:00:01Z"),
    ]);

    assert_eq!(timeline.len(), 1);
    let run_meta = timeline[0].run_meta.as_ref().expect("run meta");
    assert_eq!(run_meta.steps.len(), 1);
    assert_eq!(run_meta.steps[0].key, "draft");
    assert_eq!(run_meta.steps[0].status, "completed");
    assert_eq!(run_meta.steps[0].detail_text.as_deref(), Some("Draft done"));
}

#[test]
fn desktop_timeline_mapper_uses_latest_valid_progress_row_by_persisted_chronology() {
    let timeline = desktop_timeline_from_session_messages(&vec![
        progress_row(
            "progress-late",
            "run-123",
            "run step finished: run-123 [draft] (100%)",
            progress("step_finished", "run-123", "completed", 100, step("draft", "Draft answer", "completed", 2, 2), Some("Draft complete")),
            "2026-04-05T00:00:03Z",
        ),
        created_row("progress-early", 10, "2026-04-05T00:00:01Z"),
    ]);

    assert_eq!(timeline.len(), 1);
    assert_eq!(timeline[0].created_at, "2026-04-05T00:00:01Z");
    let run_meta = timeline[0].run_meta.as_ref().expect("run meta");
    assert_eq!(run_meta.state, "completed");
    assert_eq!(run_meta.progress_percent, 100);
    assert_eq!(run_meta.current_step_key.as_deref(), Some("draft"));
    assert_eq!(run_meta.step_summary.as_deref(), Some("Draft answer"));
}

#[test]
fn structured_timeline_command_payload_contains_messages_tools_and_runs() {
    let user = MessageWithData {
        message: session_message(
            "message-user",
            None,
            "user_message",
            SessionMessageRole::User,
            "Please summarize the attachment",
            "{\"attachments\":[{\"name\":\"notes.md\",\"size\":2048}]}",
            "2026-04-05T00:00:00Z",
        ),
        data: MessageData {
            attachments: vec![DesktopTimelineAttachment { name: "notes.md".to_string(), size: Some(2048) }],
            attachments_json: Some("[{\"name\":\"notes.md\",\"size\":2048}]".to_string()),
            ..MessageData::default()
        },
    };
    let timeline = desktop_timeline_from_session_messages(&vec![
        user,
        tool_row(
            "message-tool",
            "Attachment excerpt: hello",
            "read_attachment_excerpt",
            "{\"attachment_index\":0,\"max_chars\":400}",
            None,
            "2026-04-05T00:00:01Z",
        ),
        created_row("progress-1", 10, "2026-04-05T00:00:02Z"),
    ]);

    assert_eq!(timeline.len(), 3);
    assert_eq!(timeline[0].id, "message-user");
    assert_eq!(timeline[0].kind, "message");
    assert_eq!(timeline[0].attachments.len(), 1);
    assert_eq!(timeline[1].id, "message-tool");
    assert_eq!(timeline[1].kind, "tool");
    assert_eq!(timeline[1].summary.as_deref(), Some("read_attachment_excerpt · success"));
    assert!(timeline[1].details.as_deref().expect("structured tool details").contains("Attachment excerpt: hello"));
    assert_eq!(timeline[2].id, "run-card-run-123");
    assert_eq!(timeline[2].kind, "run");
    assert_eq!(timeline[2].run_meta.as_ref().and_then(|meta| meta.run_type.as_deref()), Some("distill"));
}

#[test]
fn structured_tool_card_contains_status_arguments_and_result_body() {
    let timeline = desktop_timeline_from_session_messages(&vec![tool_row(
        "message-tool-error",
        "Tool failed: file missing",
        "read_file",
        "{\"path\":\"missing.txt\"}",
        None,
        "2026-04-05T00:00:03Z",
    )]);

    assert_eq!(timeline.len(), 1);
    assert_eq!(timeline[0].content, "Tool failed: file missing");
    assert_eq!(timeline[0].summary.as_deref(), Some("read_file · failed"));
    let details = timeline[0].details.as_deref().expect("tool details");
    assert!(details.contains("tool: read_file"));
    assert!(details.contains("status: failed"));
    assert!(details.contains("missing.txt"));
    assert!(details.contains("Tool failed: file missing"));
}

#[test]
fn structured_run_card_uses_only_supported_run_states() {
    let timeline = desktop_timeline_from_session_messages(&vec![progress_row(
        "progress-unsupported-state",
        "run-unsupported-state",
        "run state changed",
        progress("state_changed", "run-unsupported-state", "created", 5, None, None),
        "2026-04-05T00:00:04Z",
    )]);

    let run_state = timeline[0].run_meta.as_ref().map(|meta| meta.state.as_str()).expect("run state");
    assert_eq!(run_state, "queued");
}

#[test]
fn structured_step_meta_uses_only_supported_step_statuses() {
    let timeline = desktop_timeline_from_session_messages(&vec![progress_row(
        "progress-step-status",
        "run-step-status",
        "run step finished",
        progress("step_finished", "run-step-status", "running", 80, step("draft", "Draft answer", "finished", 2, 3), Some("Draft complete")),
        "2026-04-05T00:00:05Z",
    )]);

    let run_meta = timeline[0].run_meta.as_ref().expect("run meta");
    assert_eq!(run_meta.step_status.as_deref(), Some("completed"));
    assert_eq!(run_meta.steps[0].status, "completed");
}

#[test]
fn live_and_structured_run_states_share_the_same_supported_values() {
    let mut report = progress("created", "run-queued", "queued", 10, step("gather", "Gather material", "started", 1, 2), None);
    report.detail_text = None;
    let timeline = desktop_timeline_from_session_messages(&vec![progress_row(
        "progress-queued",
        "run-queued",
        "run queued",
        report,
        "2026-04-05T00:00:06Z",
    )]);

    let run_meta = timeline[0].run_meta.as_ref().expect("run meta");
    assert!(matches!(run_meta.state.as_str(), "queued" | "pending" | "running" | "completed" | "failed"));
    assert!(matches!(
        run_meta.step_status.as_deref().expect("step status"),
        "started" | "pending" | "running" | "completed" | "failed"
    ));
    assert!(matches!(run_meta.steps[0].status.as_str(), "started" | "pending" | "running" | "completed" | "failed"));
}

#[test]
fn run_cards_from_progress_rows_are_one_per_run_ordered_by_earliest_row() {
    let cards = desktop_run_cards_from_progress_messages(&vec![
        progress_row("a1", "run-b", "b first", progress("created", "run-b", "queued", 0, None, None), "t2"),
        plain("u", "user_message", SessionMessageRole::User, "hi", "t0"),
        progress_row("a2", "run-a", "a first", progress("created", "run-a", "queued", 0, None, None), "t1"),
        progress_row("a3", "run-b", "b again", progress("state_changed", "run-b", "running", 50, None, None), "t3"),
    ]);
    let ids = cards.iter().map(|c| c.id.as_str()).collect::<Vec<_>>();
    assert_eq!(ids, vec!["run-card-run-a", "run-card-run-b"]);
    assert_eq!(cards[1].run_meta.as_ref().unwrap().progress_percent, 50);
    assert_eq!(cards[1].created_at, "t2");
}

#[test]
fn non_progress_message_maps_to_one_entry_and_progress_row_to_none() {
    let user = plain("u", "user_message", SessionMessageRole::User, "hi", "t0");
    let entry = desktop_message_from_session_message(&user).expect("entry");
    assert_eq!(entry.kind, "message");
    assert_eq!(entry.role, "user");
    assert!(entry.summary.is_none());
    let row = created_row("p", 10, "t1");
    assert!(desktop_message_from_session_message(&row).is_none());
}
