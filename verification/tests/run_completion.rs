use distilllab::run_completion_summarizer::{
    build_run_completion_summary_messages, run_completion_summary_missing_content,
    run_completion_summary_result, validate_run_completion_summary_output,
    RunCompletionResultContext, RunCompletionSummaryInput, RunCompletionSummaryOutput,
};

fn fixture_input() -> RunCompletionSummaryInput {
    RunCompletionSummaryInput {
        session_id: "session-1".to_string(),
        user_message: "Please distill these work notes into Distilllab".to_string(),
        run_result: RunCompletionResultContext {
            run_id: "run-1".to_string(),
            run_type: "import_and_distill".to_string(),
            status: "completed".to_string(),
            asset_count: 2,
            work_item_count: 1,
            primary_asset_title: Some("Prototype launch readiness".to_string()),
            asset_summaries: vec![
                "The launch is gated by scope finalization and clear coordination before next week."
                    .to_string(),
                "Scope clarity is the key stabilizer for this delivery cycle.".to_string(),
            ],
            execution_summary:
                "materialized sources, created 1 chunks, extracted 1 work item drafts, resolved project Prototype Program, created 2 assets"
                    .to_string(),
        },
    }
}

#[test]
fn run_completion_summary_messages_include_run_result_context() {
    let messages = build_run_completion_summary_messages(&fixture_input());

    assert_eq!(messages.len(), 2);
    assert!(messages[0].content.contains("RunCompletionSummarizer"));
    assert!(messages[1].content.contains("session_id: session-1"));
    assert!(messages[1].content.contains("asset_count: 2"));
    assert!(messages[1].content.contains("Prototype launch readiness"));
    assert!(messages[1].content.contains("Please distill these work notes into Distilllab"));
}

#[test]
fn validate_run_completion_summary_output_accepts_reply_with_optional_session_summary() {
    let output = RunCompletionSummaryOutput {
        reply_text: "The distill run completed and produced 2 insight assets.".to_string(),
        session_summary: Some("Distill run completed with reusable outputs.".to_string()),
    };

    let validated = validate_run_completion_summary_output(output.clone())
        .expect("valid summary output should pass");
    assert_eq!(validated, output);
}

#[test]
fn validate_run_completion_summary_output_rejects_empty_reply() {
    let output = RunCompletionSummaryOutput { reply_text: "   ".to_string(), session_summary: None };

    let error = validate_run_completion_summary_output(output).expect_err("empty reply should fail");
    assert!(error.to_string().contains("reply_text cannot be empty"));
}

#[test]
fn run_completion_user_message_is_exact() {
    let mut input = fixture_input();
    input.run_result.asset_count = 12;
    input.run_result.work_item_count = 0;
    input.run_result.primary_asset_title = None;
    input.run_result.asset_summaries = vec!["A".to_string(), "B".to_string()];
    let messages = build_run_completion_summary_messages(&input);
    assert_eq!(
        messages[1].content,
        "session_id: session-1\nuser_message: Please distill these work notes into Distilllab\n\nRun Result:\n- run_id: run-1\n- run_type: import_and_distill\n- status: completed\n- asset_count: 12\n- work_item_count: 0\n- primary_asset_title: none\n- execution_summary: materialized sources, created 1 chunks, extracted 1 work item drafts, resolved project Prototype Program, created 2 assets\n- asset_summaries:\n- A\n- B"
    );
}

#[test]
fn run_completion_result_and_missing_content() {
    assert_eq!(
        run_completion_summary_result(Err("x".to_string())).unwrap_err().to_string(),
        "agent response error: invalid run completion summary json: x"
    );
    assert_eq!(
        run_completion_summary_missing_content().to_string(),
        "agent response error: run completion summary response missing assistant content"
    );
    let ok = RunCompletionSummaryOutput { reply_text: "done".to_string(), session_summary: None };
    assert_eq!(run_completion_summary_result(Ok(ok.clone())).unwrap(), ok);
}
