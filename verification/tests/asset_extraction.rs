use distilllab::asset_extraction_agent::{
    asset_extraction_missing_content, asset_extraction_request, asset_extraction_result,
    build_asset_extraction_messages, validate_asset_extraction_output, AssetDraft,
    AssetExtractionChunkInput, AssetExtractionInput, AssetExtractionOutput,
    AssetExtractionWorkItemInput,
};
use distilllab::LlmProviderConfig;

fn fixture_input() -> AssetExtractionInput {
    AssetExtractionInput {
        run_id: "run-1".to_string(),
        distill_goal: "Distill these notes into reusable recap assets".to_string(),
        project_id: "project-1".to_string(),
        project_name: "Prototype Program".to_string(),
        project_summary: "Prototype planning, scope, and delivery work.".to_string(),
        chunks: vec![AssetExtractionChunkInput {
            chunk_id: "chunk-1".to_string(),
            title: "Prototype launch".to_string(),
            summary: "The prototype will ship next week.".to_string(),
            content: "Decision: ship next week. Action: finalize scope before launch.".to_string(),
        }],
        work_items: vec![AssetExtractionWorkItemInput {
            title: "Finalize scope".to_string(),
            summary: "Finalize the scope before launch.".to_string(),
        }],
    }
}

#[test]
fn asset_extraction_messages_include_project_chunks_and_work_items() {
    let messages = build_asset_extraction_messages(&fixture_input());

    assert_eq!(messages.len(), 2);
    assert!(messages[0].content.contains("AssetExtractionAgent"));
    assert!(messages[1].content.contains("project_name: Prototype Program"));
    assert!(messages[1].content.contains("Prototype launch"));
    assert!(messages[1].content.contains("Finalize scope"));
}

#[test]
fn validate_asset_extraction_output_accepts_non_empty_assets() {
    let output = AssetExtractionOutput {
        assets: vec![AssetDraft {
            title: "Prototype launch readiness".to_string(),
            summary: "The launch is gated by scope finalization and timeline coordination.".to_string(),
        }],
    };

    let validated = validate_asset_extraction_output(output.clone()).expect("asset output should validate");
    assert_eq!(validated, output);
}

#[test]
fn validate_asset_extraction_output_rejects_empty_title() {
    let output = AssetExtractionOutput {
        assets: vec![AssetDraft { title: "   ".to_string(), summary: "A valid summary.".to_string() }],
    };

    let error = validate_asset_extraction_output(output).expect_err("empty title should fail");
    assert!(error.to_string().contains("title cannot be empty"));
}

#[test]
fn validate_asset_extraction_output_rejects_empty_summary() {
    let output = AssetExtractionOutput {
        assets: vec![AssetDraft {
            title: "Prototype launch readiness".to_string(),
            summary: " ".to_string(),
        }],
    };

    let error = validate_asset_extraction_output(output).expect_err("empty summary should fail");
    assert!(error.to_string().contains("summary cannot be empty"));
}

#[test]
fn asset_validation_rejects_empty_output_and_renders_messages_exactly() {
    let error = validate_asset_extraction_output(AssetExtractionOutput { assets: vec![] })
        .expect_err("no assets should fail");
    assert_eq!(
        error.to_string(),
        "agent response error: asset extraction output must contain at least one asset"
    );

    let messages = build_asset_extraction_messages(&fixture_input());
    assert_eq!(messages[0].role, "system");
    assert_eq!(messages[1].role, "user");
    assert_eq!(
        messages[1].content,
        "run_id: run-1\ndistill_goal: Distill these notes into reusable recap assets\nproject_id: project-1\nproject_name: Prototype Program\nproject_summary: Prototype planning, scope, and delivery work.\n\nChunks:\n- chunk_id: chunk-1\n  title: Prototype launch\n  summary: The prototype will ship next week.\n  content: Decision: ship next week. Action: finalize scope before launch.\n\nWork Items:\n- title: Finalize scope\n  summary: Finalize the scope before launch."
    );
}

#[test]
fn asset_request_and_result() {
    let config = LlmProviderConfig {
        provider_kind: "openai_compatible".to_string(),
        base_url: "http://localhost".to_string(),
        model: "m-2".to_string(),
        api_key: Some("k".to_string()),
    };
    let request = asset_extraction_request(&config, &fixture_input());
    assert_eq!(request.model, "m-2");
    assert_eq!(request.messages.len(), 2);
    let err = asset_extraction_result(Err("eof".to_string())).unwrap_err();
    assert_eq!(err.to_string(), "agent response error: invalid asset extraction json: eof");
    let ok = asset_extraction_result(Ok(AssetExtractionOutput {
        assets: vec![AssetDraft { title: "t".to_string(), summary: "s".to_string() }],
    }))
    .expect("valid output passes");
    assert_eq!(ok.assets.len(), 1);
    assert_eq!(
        asset_extraction_missing_content().to_string(),
        "agent response error: asset extraction response missing assistant content"
    );
}
