//! The asset extraction agent: turns distilled chunks and work items into
//! reusable recap assets.

use vstd::prelude::*;
use crate::error::AgentError;
use crate::llm::{LlmProviderConfig, OpenAiCompatibleChatMessage, OpenAiCompatibleChatRequest, chat_message};
use crate::text::{
    chars_of, contains_text, copy_string, is_blank, is_blank_text, join, join_strings, lemma_contains_extend_left,
    lemma_contains_extend_right, lemma_contains_in_prefix, lemma_contains_labeled, lemma_join_contains_part,
    lemma_views_push, owned, push_str, starts_with, views,
};

verus! {

broadcast use vstd::string::group_string_axioms;

/// One distilled chunk given to the agent.
#[derive(Debug, Clone, PartialEq, Eq)]
pub struct AssetExtractionChunkInput {
    pub chunk_id: String,
    pub title: String,
    pub summary: String,
    pub content: String,
}

/// One supporting work item given to the agent.
#[derive(Debug, Clone, PartialEq, Eq)]
pub struct AssetExtractionWorkItemInput {
    pub title: String,
    pub summary: String,
}

/// The run, its project and the evidence to turn into assets.
#[derive(Debug, Clone, PartialEq, Eq)]
pub struct AssetExtractionInput {
    pub run_id: String,
    pub distill_goal: String,
    pub project_id: String,
    pub project_name: String,
    pub project_summary: String,
    pub chunks: Vec<AssetExtractionChunkInput>,
    pub work_items: Vec<AssetExtractionWorkItemInput>,
}

/// One asset proposed by the model.
#[derive(Debug, Clone, PartialEq, Eq)]
pub struct AssetDraft {
    pub title: String,
    pub summary: String,
}

/// The assets proposed by the model.
#[derive(Debug, Clone, PartialEq, Eq)]
pub struct AssetExtractionOutput {
    pub assets: Vec<AssetDraft>,
}

/// The system prompt of the asset extraction agent.
pub const ASSET_EXTRACTION_SYSTEM_PROMPT: &'static str = r#"You are AssetExtractionAgent for Distilllab.

Your job is to convert distilled chunks and supporting work items into reusable recap assets.

Rules:
1. Return valid JSON only.
2. Do not include markdown fences.
3. Output must match this exact schema:

{
  "assets": [
    {
      "title": "string",
      "summary": "string"
    }
  ]
}

4. Assets should be durable recap artifacts, not raw notes or task lists.
5. Use chunks as the primary evidence.
6. Use work items as auxiliary context only.
7. Do not invent facts.
8. Prefer a small number of high-value assets.
9. Every asset must have a concise title and a clear summary.
10. The output will be stored as `AssetType::Insight`, so focus on insight-style outputs."#;

/// The system prompt of the asset extraction agent.
pub fn asset_extraction_system_prompt() -> (r: &'static str)
    ensures
        r@ == ASSET_EXTRACTION_SYSTEM_PROMPT@,
{
    ASSET_EXTRACTION_SYSTEM_PROMPT
}

/// How one chunk is listed in the user message.
pub open spec fn asset_chunk_line(c: AssetExtractionChunkInput) -> Seq<char> {
    "- chunk_id: "@ + c.chunk_id@ + "\n  title: "@ + c.title@ + "\n  summary: "@ + c.summary@
        + "\n  content: "@ + c.content@
}

/// How one work item is listed in the user message.
pub open spec fn asset_work_item_line(w: AssetExtractionWorkItemInput) -> Seq<char> {
    "- title: "@ + w.title@ + "\n  summary: "@ + w.summary@
}

/// The listed chunks, one entry per chunk, joined by newlines.
pub open spec fn asset_chunk_lines(chunks: Seq<AssetExtractionChunkInput>) -> Seq<char> {
    join(chunks.map_values(|c: AssetExtractionChunkInput| asset_chunk_line(c)), "\n"@)
}

/// The listed work items, one entry per item, joined by newlines.
pub open spec fn asset_work_item_lines(items: Seq<AssetExtractionWorkItemInput>) -> Seq<char> {
    join(items.map_values(|w: AssetExtractionWorkItemInput| asset_work_item_line(w)), "\n"@)
}

/// The user message: run, goal, project, chunks and work items.
pub open spec fn asset_extraction_user_content(input: AssetExtractionInput) -> Seq<char> {
    "run_id: "@ + input.run_id@ + "\ndistill_goal: "@ + input.distill_goal@ + "\nproject_id: "@
        + input.project_id@ + "\nproject_name: "@ + input.project_name@ + "\nproject_summary: "@
        + input.project_summary@ + "\n\nChunks:\n"@ + asset_chunk_lines(input.chunks@)
        + "\n\nWork Items:\n"@ + asset_work_item_lines(input.work_items@)
}

fn chunk_lines(chunks: &Vec<AssetExtractionChunkInput>) -> (r: String)
    ensures
        r@ == asset_chunk_lines(chunks@),
{
    let ghost all = chunks@.map_values(|c: AssetExtractionChunkInput| asset_chunk_line(c));
    let mut lines: Vec<String> = Vec::new();
    let n = chunks.len();
    let mut i: usize = 0;
    while i < n
        invariant
            n == chunks@.len(),
            all == chunks@.map_values(|c: AssetExtractionChunkInput| asset_chunk_line(c)),
            i <= n,
            views(lines@) == all.take(i as int),
        decreases n - i,
    {
        let c = &chunks[i];
        let mut line = owned("- chunk_id: ");
        push_str(&mut line, c.chunk_id.as_str());
        push_str(&mut line, "\n  title: ");
        push_str(&mut line, c.title.as_str());
        push_str(&mut line, "\n  summary: ");
        push_str(&mut line, c.summary.as_str());
        push_str(&mut line, "\n  content: ");
        push_str(&mut line, c.content.as_str());
        assert(line@ =~= asset_chunk_line(*c));
        let ghost before = lines@;
        lines.push(line);
        proof {
            lemma_views_push(before, line);
            assert(all[i as int] == asset_chunk_line(chunks@[i as int]));
            assert(all.take(i + 1) =~= all.take(i as int).push(all[i as int]));
        }
        i = i + 1;
    }
    assert(all.take(n as int) =~= all);
    join_strings(&lines, "\n")
}

fn work_item_lines(items: &Vec<AssetExtractionWorkItemInput>) -> (r: String)
    ensures
        r@ == asset_work_item_lines(items@),
{
    let ghost all = items@.map_values(|w: AssetExtractionWorkItemInput| asset_work_item_line(w));
    let mut lines: Vec<String> = Vec::new();
    let n = items.len();
    let mut i: usize = 0;
    while i < n
        invariant
            n == items@.len(),
            all == items@.map_values(|w: AssetExtractionWorkItemInput| asset_work_item_line(w)),
            i <= n,
            views(lines@) == all.take(i as int),
        decreases n - i,
    {
        let w = &items[i];
        let mut line = owned("- title: ");
        push_str(&mut line, w.title.as_str());
        push_str(&mut line, "\n  summary: ");
        push_str(&mut line, w.summary.as_str());
        assert(line@ =~= asset_work_item_line(*w));
        let ghost before = lines@;
        lines.push(line);
        proof {
            lemma_views_push(before, line);
            assert(all[i as int] == asset_work_item_line(items@[i as int]));
            assert(all.take(i + 1) =~= all.take(i as int).push(all[i as int]));
        }
        i = i + 1;
    }
    assert(all.take(n as int) =~= all);
    join_strings(&lines, "\n")
}

/// The two messages sent to the model: the system prompt, then the evidence.
pub fn build_asset_extraction_messages(input: &AssetExtractionInput) -> (r: Vec<
    OpenAiCompatibleChatMessage,
>)
    ensures
        r@.len() == 2,
        r@[0].role@ == "system"@,
        r@[0].content@ == ASSET_EXTRACTION_SYSTEM_PROMPT@,
        r@[1].role@ == "user"@,
        r@[1].content@ == asset_extraction_user_content(*input),
{
    let chunks = chunk_lines(&input.chunks);
    let items = work_item_lines(&input.work_items);
    let mut content = owned("run_id: ");
    push_str(&mut content, input.run_id.as_str());
    push_str(&mut content, "\ndistill_goal: ");
    push_str(&mut content, input.distill_goal.as_str());
    push_str(&mut content, "\nproject_id: ");
    push_str(&mut content, input.project_id.as_str());
    push_str(&mut content, "\nproject_name: ");
    push_str(&mut content, input.project_name.as_str());
    push_str(&mut content, "\nproject_summary: ");
    push_str(&mut content, input.project_summary.as_str());
    push_str(&mut content, "\n\nChunks:\n");
    push_str(&mut content, chunks.as_str());
    push_str(&mut content, "\n\nWork Items:\n");
    push_str(&mut content, items.as_str());
    assert(content@ =~= asset_extraction_user_content(*input));
    let mut r = Vec::new();
    r.push(chat_message("system", owned(asset_extraction_system_prompt())));
    r.push(chat_message("user", content));
    r
}

/// The user message names the project and lists every chunk and every work
/// item.
pub proof fn lemma_asset_user_content_lists_everything(input: AssetExtractionInput)
    ensures
        contains_text(asset_extraction_user_content(input), "project_name: "@ + input.project_name@),
        forall|k: int| 0 <= k < input.chunks@.len() ==> contains_text(
            asset_extraction_user_content(input),
            #[trigger] asset_chunk_line(input.chunks@[k]),
        ),
        forall|k: int| 0 <= k < input.work_items@.len() ==> contains_text(
            asset_extraction_user_content(input),
            #[trigger] asset_work_item_line(input.work_items@[k]),
        ),
{
    let s = asset_extraction_user_content(input);
    let before = "run_id: "@ + input.run_id@ + "\ndistill_goal: "@ + input.distill_goal@ + "\nproject_id: "@
        + input.project_id@;
    let t = before + "\nproject_name: "@ + input.project_name@;
    reveal_strlit("\nproject_name: ");
    reveal_strlit("project_name: ");
    assert("\nproject_name: "@ =~= seq!['\n'] + "project_name: "@);
    lemma_contains_labeled(before, "\nproject_name: "@, "project_name: "@, input.project_name@);
    assert(s.subrange(0, t.len() as int) =~= t);
    lemma_contains_in_prefix(s, t, "project_name: "@ + input.project_name@);

    let head = t + "\nproject_summary: "@ + input.project_summary@ + "\n\nChunks:\n"@;
    let cl = asset_chunk_lines(input.chunks@);
    let mid = "\n\nWork Items:\n"@;
    let wl = asset_work_item_lines(input.work_items@);
    assert(s =~= head + cl + mid + wl);
    assert forall|k: int| 0 <= k < input.chunks@.len() implies contains_text(
        s,
        #[trigger] asset_chunk_line(input.chunks@[k]),
    ) by {
        let parts = input.chunks@.map_values(|c: AssetExtractionChunkInput| asset_chunk_line(c));
        lemma_join_contains_part(parts, "\n"@, k);
        let n = asset_chunk_line(input.chunks@[k]);
        lemma_contains_extend_left(head, cl, n);
        lemma_contains_extend_right(head + cl, mid, n);
        lemma_contains_extend_right(head + cl + mid, wl, n);
    }
    assert forall|k: int| 0 <= k < input.work_items@.len() implies contains_text(
        s,
        #[trigger] asset_work_item_line(input.work_items@[k]),
    ) by {
        let parts = input.work_items@.map_values(|w: AssetExtractionWorkItemInput| asset_work_item_line(w));
        lemma_join_contains_part(parts, "\n"@, k);
        lemma_contains_extend_left(head + cl + mid, wl, asset_work_item_line(input.work_items@[k]));
    }
}

proof fn lemma_no_first_asset_problem_each(assets: Seq<AssetDraft>, i: int, k: int)
    requires
        0 <= i <= k < assets.len(),
        first_asset_problem(assets, i) is None,
    ensures
        asset_problem(assets[k]) is None,
    decreases k - i,
{
    if i < k {
        lemma_no_first_asset_problem_each(assets, i + 1, k);
    }
}

/// An accepted asset output is non-empty and every asset has a non-blank
/// title and summary; an asset with a blank title or summary gets the output
/// rejected.
pub proof fn lemma_accepted_assets_complete(output: AssetExtractionOutput)
    ensures
        asset_output_problem(output) is None ==> output.assets@.len() > 0,
        asset_output_problem(output) is None <==> (output.assets@.len() > 0 && forall|i: int|
            0 <= i < output.assets@.len() ==> !is_blank_text((#[trigger] output.assets@[i]).title@)
                && !is_blank_text(output.assets@[i].summary@)),
{
    let a = output.assets@;
    if asset_output_problem(output) is None {
        assert forall|i: int| 0 <= i < a.len() implies !is_blank_text((#[trigger] a[i]).title@)
            && !is_blank_text(a[i].summary@) by {
            lemma_no_first_asset_problem_each(a, 0, i);
        }
    } else if a.len() > 0 && forall|i: int|
        0 <= i < a.len() ==> !is_blank_text((#[trigger] a[i]).title@) && !is_blank_text(a[i].summary@) {
        lemma_first_problem_skip(a, a.len() as int);
    }
}

/// Why the asset at index `i` is rejected, if it is: a blank title or summary.
pub open spec fn asset_problem(a: AssetDraft) -> Option<Seq<char>> {
    if is_blank_text(a.title@) {
        Some("asset title cannot be empty"@)
    } else if is_blank_text(a.summary@) {
        Some("asset summary cannot be empty"@)
    } else {
        None
    }
}

/// The problem of the first rejected asset at or after `i`.
pub open spec fn first_asset_problem(assets: Seq<AssetDraft>, i: int) -> Option<Seq<char>>
    decreases assets.len() - i,
{
    if i < 0 || i >= assets.len() {
        None
    } else {
        match asset_problem(assets[i]) {
            Some(m) => Some(m),
            None => first_asset_problem(assets, i + 1),
        }
    }
}

/// Why an output is rejected, if it is: no assets, or the first rejected asset.
pub open spec fn asset_output_problem(output: AssetExtractionOutput) -> Option<Seq<char>> {
    if output.assets@.len() == 0 {
        Some("asset extraction output must contain at least one asset"@)
    } else {
        first_asset_problem(output.assets@, 0)
    }
}

proof fn lemma_first_problem_skip(assets: Seq<AssetDraft>, i: int)
    requires
        0 <= i <= assets.len(),
        forall|k: int| 0 <= k < i ==> asset_problem(#[trigger] assets[k]) is None,
    ensures
        first_asset_problem(assets, 0) == first_asset_problem(assets, i),
    decreases i,
{
    if i > 0 {
        lemma_first_problem_skip(assets, i - 1);
    }
}

/// Accepts the output unchanged when it has assets and none is rejected;
/// otherwise reports the problem as a response error.
pub fn validate_asset_extraction_output(output: AssetExtractionOutput) -> (r: Result<
    AssetExtractionOutput,
    AgentError,
>)
    ensures
        asset_output_problem(output) is None ==> r == Ok::<AssetExtractionOutput, AgentError>(output),
        asset_output_problem(output) matches Some(m) ==> (r matches Err(AgentError::Response(e)) && e@ == m),
{
    if output.assets.len() == 0 {
        return Err(AgentError::Response(owned("asset extraction output must contain at least one asset")));
    }
    let n = output.assets.len();
    let mut i: usize = 0;
    while i < n
        invariant
            n == output.assets@.len(),
            n > 0,
            i <= n,
            forall|k: int| 0 <= k < i ==> asset_problem(#[trigger] output.assets@[k]) is None,
        decreases n - i,
    {
        proof {
            lemma_first_problem_skip(output.assets@, i as int);
        }
        let asset = &output.assets[i];
        if is_blank(&chars_of(asset.title.as_str())) {
            return Err(AgentError::Response(owned("asset title cannot be empty")));
        }
        if is_blank(&chars_of(asset.summary.as_str())) {
            return Err(AgentError::Response(owned("asset summary cannot be empty")));
        }
        i = i + 1;
    }
    proof {
        lemma_first_problem_skip(output.assets@, n as int);
    }
    Ok(output)
}

/// The request sent to the model for this input.
pub fn asset_extraction_request(config: &LlmProviderConfig, input: &AssetExtractionInput) -> (r:
    OpenAiCompatibleChatRequest)
    ensures
        r.model@ == config.model@,
        r.stream is None,
        r.messages@.len() == 2,
        r.messages@[0].content@ == ASSET_EXTRACTION_SYSTEM_PROMPT@,
        r.messages@[1].content@ == asset_extraction_user_content(*input),
{
    OpenAiCompatibleChatRequest {
        model: copy_string(&config.model),
        messages: build_asset_extraction_messages(input),
        stream: None,
    }
}

/// The outcome of an asset extraction call, given the model's reply decoded
/// as an output (or the decoder's error text).
pub fn asset_extraction_result(decoded: Result<AssetExtractionOutput, String>) -> (r: Result<
    AssetExtractionOutput,
    AgentError,
>)
    ensures
        decoded matches Err(e) ==> (r matches Err(AgentError::Response(m)) && m@
            == "invalid asset extraction json: "@ + e@),
        decoded matches Ok(o) ==> (asset_output_problem(o) is None ==> r == Ok::<
            AssetExtractionOutput,
            AgentError,
        >(o)),
        decoded matches Ok(o) ==> (asset_output_problem(o) matches Some(p) ==> (r matches Err(
            AgentError::Response(m),
        ) && m@ == p)),
{
    match decoded {
        Ok(o) => validate_asset_extraction_output(o),
        Err(e) => {
            let mut m = owned("invalid asset extraction json: ");
            push_str(&mut m, e.as_str());
            Err(AgentError::Response(m))
        },
    }
}

/// The error when the model's reply has no assistant content.
pub fn asset_extraction_missing_content() -> (r: AgentError)
    ensures
        r matches AgentError::Response(m) && m@ == "asset extraction response missing assistant content"@,
{
    AgentError::Response(owned("asset extraction response missing assistant content"))
}

} // verus!
