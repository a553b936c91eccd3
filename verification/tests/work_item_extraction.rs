use distilllab::work_item_extraction_agent::{
    build_work_item_extraction_messages, validate_work_item_extraction_output,
    work_item_extraction_missing_content, work_item_extraction_result, WorkItemDraft,
    WorkItemExtractionChunkInput, WorkItemExtractionInput, WorkItemExtractionOutput,
};

fn fixture_input() -> WorkItemExtractionInput {
    WorkItemExtractionInput {
        run_id: "run-1".to_string(),
        distill_goal: "Extract durable work items from the chunks".to_string(),
        chunks: vec![WorkItemExtractionChunkInput {
            chunk_id: "chunk-1".to_string(),
            title: "Prototype launch decision".to_string(),
            summary: "The team decided to ship a prototype next week.".to_string(),
            content: "Decision: ship the first prototype next week. Action: finalize scope by Friday."
                .to_string(),
        }],
    }
}

fn item(title: &str, summary: &str, kind: &str) -> WorkItemDraft {
    WorkItemDraft {
        title: title.to_string(),
        summary: summary.to_string(),
        work_item_type: kind.to_string(),
    }
}

#[test]
fn work_item_extraction_messages_include_goal_and_chunks() {
    let messages = build_work_item_extraction_messages(&fixture_input());

    assert_eq!(messages.len(), 2);
    assert!(messages[0].content.contains("WorkItemExtractionAgent"));
    assert!(messages[1].content.contains("run_id: run-1"));
    assert!(messages[1].content.contains("Prototype launch decision"));
    assert!(messages[1].content.contains("ship the first prototype next week"));
}

#[test]
fn validate_work_item_extraction_output_accepts_note_items() {
    let output = WorkItemExtractionOutput {
        work_items: vec![item(
            "Finalize prototype scope",
            "Scope needs to be finalized before the prototype ships next week.",
            "note",
        )],
    };

    let validated = validate_work_item_extraction_output(output.clone()).expect("output should validate");
    assert_eq!(validated, output);
}

#[test]
fn validate_work_item_extraction_output_rejects_empty_title() {
    let output = WorkItemExtractionOutput { work_items: vec![item("   ", "A valid summary.", "note")] };

    let error = validate_work_item_extraction_output(output).expect_err("empty title should fail");
    assert!(error.to_string().contains("title cannot be empty"));
}

#[test]
fn validate_work_item_extraction_output_rejects_invalid_type() {
    let output = WorkItemExtractionOutput {
        work_items: vec![item("Finalize prototype scope", "A valid summary.", "task")],
    };

    let error = validate_work_item_extraction_output(output).expect_err("invalid work item type should fail");
    assert!(error.to_string().contains("work_item_type must be note"));
}

#[test]
fn validate_work_item_extraction_output_rejects_duplicate_items() {
    let output = WorkItemExtractionOutput {
        work_items: vec![
            item("Finalize prototype scope", "A valid summary.", "note"),
            item("Finalize prototype scope", "A valid summary.", "note"),
        ],
    };

    let error = validate_work_item_extraction_output(output).expect_err("duplicate work items should fail");
    assert!(error.to_string().contains("must be unique"));
}

#[test]
fn work_item_validation_edge_cases() {
    let empty = WorkItemExtractionOutput { work_items: vec![] };
    assert_eq!(validate_work_item_extraction_output(empty.clone()).expect("empty list is fine"), empty);
    let padded_type = WorkItemExtractionOutput { work_items: vec![item("t", "s", " note ")] };
    assert!(validate_work_item_extraction_output(padded_type).is_ok());
    let no_summary = WorkItemExtractionOutput { work_items: vec![item("t", " ", "note")] };
    assert_eq!(
        validate_work_item_extraction_output(no_summary).unwrap_err().to_string(),
        "agent response error: work item draft summary cannot be empty"
    );
    let trimmed_duplicate = WorkItemExtractionOutput {
        work_items: vec![item(" t ", "s", "note"), item("t", " s", "note")],
    };
    assert!(validate_work_item_extraction_output(trimmed_duplicate).is_err());
    let different = WorkItemExtractionOutput {
        work_items: vec![item("t", "s1", "note"), item("t", "s2", "note")],
    };
    assert!(validate_work_item_extraction_output(different).is_ok());
}

#[test]
fn work_item_result_and_messages() {
    let err = work_item_extraction_result(Err("bad".to_string())).unwrap_err();
    assert_eq!(err.to_string(), "agent response error: invalid work item extraction json: bad");
    let messages = build_work_item_extraction_messages(&fixture_input());
    assert_eq!(
        messages[1].content,
        "run_id: run-1\ndistill_goal: Extract durable work items from the chunks\n\nChunks:\n- chunk_id: chunk-1\n  title: Prototype launch decision\n  summary: The team decided to ship a prototype next week.\n  content: Decision: ship the first prototype next week. Action: finalize scope by Friday."
    );
    assert_eq!(
        work_item_extraction_missing_content().to_string(),
        "agent response error: work item extraction response missing assistant content"
    );
}
