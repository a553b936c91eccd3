//! The run completion summarizer: turns a finished run into a user-facing reply.

use vstd::prelude::*;
use crate::error::AgentError;
use crate::llm::{LlmProviderConfig, OpenAiCompatibleChatMessage, OpenAiCompatibleChatRequest, chat_message};
use crate::text::{
    chars_of, contains_text, copy_string, decimal, is_blank, is_blank_text, join, join_strings, owned, push_decimal,
    push_str, views, lemma_contains_extend_left, lemma_contains_extend_right, lemma_contains_in_prefix,
    lemma_contains_labeled, lemma_contains_self,
};

verus! {

broadcast use vstd::string::group_string_axioms;

/// What a completed run produced.
#[derive(Debug, Clone, PartialEq, Eq)]
pub struct RunCompletionResultContext {
    pub run_id: String,
    pub run_type: String,
    pub status: String,
    pub asset_count: usize,
    pub work_item_count: usize,
    pub primary_asset_title: Option<String>,
    pub asset_summaries: Vec<String>,
    pub execution_summary: String,
}

/// The session the run belongs to, the user's message and the run's result.
#[derive(Debug, Clone, PartialEq, Eq)]
pub struct RunCompletionSummaryInput {
    pub session_id: String,
    pub user_message: String,
    pub run_result: RunCompletionResultContext,
}

/// The reply proposed by the model.
#[derive(Debug, Clone, PartialEq, Eq)]
pub struct RunCompletionSummaryOutput {
    pub reply_text: String,
    pub session_summary: Option<String>,
}

/// The system prompt of the run completion summarizer.
pub const RUN_COMPLETION_SUMMARIZER_SYSTEM_PROMPT: &'static str = r#"You are RunCompletionSummarizer for Distilllab.

Your job is to turn a completed run result into a concise, user-facing assistant response.

Rules:
1. Return valid JSON only.
2. Do not include markdown fences.
3. Output must match this exact schema:

{
  "reply_text": "string",
  "session_summary": "string or null"
}

4. The reply must explain what completed, what outputs were produced, and what the user can do next.
5. Base the response only on the provided run result context.
6. Do not invent facts.
7. Keep the reply concise but informative.
8. `reply_text` must not be empty."#;

/// The system prompt of the run completion summarizer.
pub fn run_completion_summarizer_system_prompt() -> (r: &'static str)
    ensures
        r@ == RUN_COMPLETION_SUMMARIZER_SYSTEM_PROMPT@,
{
    RUN_COMPLETION_SUMMARIZER_SYSTEM_PROMPT
}

/// The primary asset's title, or `none` when there is none.
pub open spec fn primary_title_text(t: Option<String>) -> Seq<char> {
    match t {
        Some(s) => s@,
        None => "none"@,
    }
}

/// The user message: session, user message, then the run result listed field
/// by field, the asset summaries last, joined by `\n- `.
pub open spec fn run_completion_user_content(input: RunCompletionSummaryInput) -> Seq<char> {
    let r = input.run_result;
    "session_id: "@ + input.session_id@ + "\nuser_message: "@ + input.user_message@
        + "\n\nRun Result:\n- run_id: "@ + r.run_id@ + "\n- run_type: "@ + r.run_type@
        + "\n- status: "@ + r.status@ + "\n- asset_count: "@ + decimal(r.asset_count as nat)
        + "\n- work_item_count: "@ + decimal(r.work_item_count as nat)
        + "\n- primary_asset_title: "@ + primary_title_text(r.primary_asset_title)
        + "\n- execution_summary: "@ + r.execution_summary@ + "\n- asset_summaries:\n- "@
        + join(views(r.asset_summaries@), "\n- "@)
}

/// The user message names the session, repeats the user's message, and
/// gives the asset count, the primary asset's title (`none` without one)
/// and the asset summaries.
pub proof fn lemma_run_summary_user_content_lists_result(input: RunCompletionSummaryInput)
    ensures
        contains_text(run_completion_user_content(input), "session_id: "@ + input.session_id@),
        contains_text(run_completion_user_content(input), "user_message: "@ + input.user_message@),
        contains_text(
            run_completion_user_content(input),
            "- asset_count: "@ + decimal(input.run_result.asset_count as nat),
        ),
        contains_text(
            run_completion_user_content(input),
            "- primary_asset_title: "@ + primary_title_text(input.run_result.primary_asset_title),
        ),
        contains_text(run_completion_user_content(input), join(views(input.run_result.asset_summaries@), "\n- "@)),
{
    let r = input.run_result;
    let s = run_completion_user_content(input);
    reveal_strlit("\nuser_message: ");
    reveal_strlit("user_message: ");
    reveal_strlit("\n- asset_count: ");
    reveal_strlit("- asset_count: ");
    reveal_strlit("\n- primary_asset_title: ");
    reveal_strlit("- primary_asset_title: ");

    let t0 = "session_id: "@ + input.session_id@;
    lemma_contains_self(t0);
    assert(s.subrange(0, t0.len() as int) =~= t0);
    lemma_contains_in_prefix(s, t0, t0);

    let t1 = t0 + "\nuser_message: "@ + input.user_message@;
    assert("\nuser_message: "@ =~= seq!['\n'] + "user_message: "@);
    lemma_contains_labeled(t0, "\nuser_message: "@, "user_message: "@, input.user_message@);
    assert(s.subrange(0, t1.len() as int) =~= t1);
    lemma_contains_in_prefix(s, t1, "user_message: "@ + input.user_message@);

    let b2 = t1 + "\n\nRun Result:\n- run_id: "@ + r.run_id@ + "\n- run_type: "@ + r.run_type@ + "\n- status: "@
        + r.status@;
    let t2 = b2 + "\n- asset_count: "@ + decimal(r.asset_count as nat);
    assert("\n- asset_count: "@ =~= seq!['\n'] + "- asset_count: "@);
    lemma_contains_labeled(b2, "\n- asset_count: "@, "- asset_count: "@, decimal(r.asset_count as nat));
    assert(s.subrange(0, t2.len() as int) =~= t2);
    lemma_contains_in_prefix(s, t2, "- asset_count: "@ + decimal(r.asset_count as nat));

    let b3 = t2 + "\n- work_item_count: "@ + decimal(r.work_item_count as nat);
    let t3 = b3 + "\n- primary_asset_title: "@ + primary_title_text(r.primary_asset_title);
    assert("\n- primary_asset_title: "@ =~= seq!['\n'] + "- primary_asset_title: "@);
    lemma_contains_labeled(
        b3,
        "\n- primary_asset_title: "@,
        "- primary_asset_title: "@,
        primary_title_text(r.primary_asset_title),
    );
    assert(s.subrange(0, t3.len() as int) =~= t3);
    lemma_contains_in_prefix(s, t3, "- primary_asset_title: "@ + primary_title_text(r.primary_asset_title));

    let j = join(views(r.asset_summaries@), "\n- "@);
    let b4 = t3 + "\n- execution_summary: "@ + r.execution_summary@ + "\n- asset_summaries:\n- "@;
    assert(s =~= b4 + j);
    lemma_contains_self(j);
    lemma_contains_extend_left(b4, j, j);
}

/// The two messages sent to the model: the system prompt, then the run result.
pub fn build_run_completion_summary_messages(input: &RunCompletionSummaryInput) -> (r: Vec<
    OpenAiCompatibleChatMessage,
>)
    ensures
        r@.len() == 2,
        r@[0].role@ == "system"@,
        r@[0].content@ == RUN_COMPLETION_SUMMARIZER_SYSTEM_PROMPT@,
        r@[1].role@ == "user"@,
        r@[1].content@ == run_completion_user_content(*input),
{
    let rr = &input.run_result;
    let summaries = join_strings(&rr.asset_summaries, "\n- ");
    let mut content = owned("session_id: ");
    push_str(&mut content, input.session_id.as_str());
    push_str(&mut content, "\nuser_message: ");
    push_str(&mut content, input.user_message.as_str());
    push_str(&mut content, "\n\nRun Result:\n- run_id: ");
    push_str(&mut content, rr.run_id.as_str());
    push_str(&mut content, "\n- run_type: ");
    push_str(&mut content, rr.run_type.as_str());
    push_str(&mut content, "\n- status: ");
    push_str(&mut content, rr.status.as_str());
    push_str(&mut content, "\n- asset_count: ");
    push_decimal(&mut content, rr.asset_count as u64);
    push_str(&mut content, "\n- work_item_count: ");
    push_decimal(&mut content, rr.work_item_count as u64);
    push_str(&mut content, "\n- primary_asset_title: ");
    match &rr.primary_asset_title {
        Some(t) => push_str(&mut content, t.as_str()),
        None => push_str(&mut content, "none"),
    }
    push_str(&mut content, "\n- execution_summary: ");
    push_str(&mut content, rr.execution_summary.as_str());
    push_str(&mut content, "\n- asset_summaries:\n- ");
    push_str(&mut content, summaries.as_str());
    assert(content@ =~= run_completion_user_content(*input));
    let mut r = Vec::new();
    r.push(chat_message("system", owned(run_completion_summarizer_system_prompt())));
    r.push(chat_message("user", content));
    r
}

/// Accepts the output unchanged when its reply text is not blank; otherwise
/// reports `reply_text cannot be empty`.
pub fn validate_run_completion_summary_output(output: RunCompletionSummaryOutput) -> (r: Result<
    RunCompletionSummaryOutput,
    AgentError,
>)
    ensures
        !is_blank_text(output.reply_text@) ==> r == Ok::<RunCompletionSummaryOutput, AgentError>(
            output,
        ),
        is_blank_text(output.reply_text@) ==> (r matches Err(AgentError::Response(e)) && e@
            == "reply_text cannot be empty"@),
{
    let v = chars_of(output.reply_text.as_str());
    if is_blank(&v) {
        return Err(AgentError::Response(owned("reply_text cannot be empty")));
    }
    Ok(output)
}

/// The request sent to the model for this input.
pub fn run_completion_summary_request(config: &LlmProviderConfig, input: &RunCompletionSummaryInput) -> (r:
    OpenAiCompatibleChatRequest)
    ensures
        r.model@ == config.model@,
        r.stream is None,
        r.messages@.len() == 2,
        r.messages@[0].content@ == RUN_COMPLETION_SUMMARIZER_SYSTEM_PROMPT@,
        r.messages@[1].content@ == run_completion_user_content(*input),
{
    OpenAiCompatibleChatRequest {
        model: copy_string(&config.model),
        messages: build_run_completion_summary_messages(input),
        stream: None,
    }
}

/// The outcome of a summarizer call, given the model's reply decoded as an
/// output (or the decoder's error text).
pub fn run_completion_summary_result(decoded: Result<RunCompletionSummaryOutput, String>) -> (r: Result<
    RunCompletionSummaryOutput,
    AgentError,
>)
    ensures
        decoded matches Err(e) ==> (r matches Err(AgentError::Response(m)) && m@
            == "invalid run completion summary json: "@ + e@),
        decoded matches Ok(o) ==> (!is_blank_text(o.reply_text@) ==> r == Ok::<
            RunCompletionSummaryOutput,
            AgentError,
        >(o)),
        decoded matches Ok(o) ==> (is_blank_text(o.reply_text@) ==> (r matches Err(
            AgentError::Response(m),
        ) && m@ == "reply_text cannot be empty"@)),
{
    match decoded {
        Ok(o) => validate_run_completion_summary_output(o),
        Err(e) => {
            let mut m = owned("invalid run completion summary json: ");
            push_str(&mut m, e.as_str());
            Err(AgentError::Response(m))
        },
    }
}

/// The error when the model's reply has no assistant content.
pub fn run_completion_summary_missing_content() -> (r: AgentError)
    ensures
        r matches AgentError::Response(m) && m@ == "run completion summary response missing assistant content"@,
{
    AgentError::Response(owned("run completion summary response missing assistant content"))
}

} // verus!
