//! The work item extraction agent: extracts durable work items from chunks.

use vstd::prelude::*;
use crate::error::AgentError;
use crate::llm::{LlmProviderConfig, OpenAiCompatibleChatMessage, OpenAiCompatibleChatRequest, chat_message};
use crate::text::{
    chars_of, chars_eq, copy_string, eq_str, is_blank, is_blank_text, join, join_strings, owned,
    push_chars, push_str, trim, trim_chars, views, lemma_views_push,
};

verus! {

broadcast use vstd::string::group_string_axioms;

/// One distilled chunk given to the agent.
#[derive(Debug, Clone, PartialEq, Eq)]
pub struct WorkItemExtractionChunkInput {
    pub chunk_id: String,
    pub title: String,
    pub summary: String,
    pub content: String,
}

/// The chunks of a run and the distill goal.
#[derive(Debug, Clone, PartialEq, Eq)]
pub struct WorkItemExtractionInput {
    pub run_id: String,
    pub distill_goal: String,
    pub chunks: Vec<WorkItemExtractionChunkInput>,
}

/// One work item proposed by the model.
#[derive(Debug, Clone, PartialEq, Eq)]
pub struct WorkItemDraft {
    pub title: String,
    pub summary: String,
    pub work_item_type: String,
}

/// The work items proposed by the model.
#[derive(Debug, Clone, PartialEq, Eq)]
pub struct WorkItemExtractionOutput {
    pub work_items: Vec<WorkItemDraft>,
}

/// The system prompt of the work item extraction agent.
pub const WORK_ITEM_EXTRACTION_SYSTEM_PROMPT: &'static str = r#"You are WorkItemExtractionAgent for Distilllab.

Your job is to extract structured work items from previously distilled chunks.

These work items are not project assignments and they are not final recap assets.
They are stable units of work context that can support later project resolution and asset extraction.

Rules:
1. Return valid JSON only.
2. Do not include markdown fences.
3. Output must match this exact schema:

{
  "work_items": [
    {
      "title": "string",
      "summary": "string",
      "work_item_type": "note"
    }
  ]
}

4. Only extract work items supported by the evidence in the chunks.
5. Do not invent facts.
6. Keep titles concise and summaries clear.
7. Every work item must use work_item_type = \"note\".
8. Prefer fewer, clearer work items over many overlapping ones.
9. Ignore chunks that provide no durable work-item value.
10. Extract only durable work-relevant items such as:
   - decisions
   - action directions
   - blockers
   - progress milestones
   - findings worth carrying forward"#;

/// The system prompt of the work item extraction agent.
pub fn work_item_extraction_system_prompt() -> (r: &'static str)
    ensures
        r@ == WORK_ITEM_EXTRACTION_SYSTEM_PROMPT@,
{
    WORK_ITEM_EXTRACTION_SYSTEM_PROMPT
}

/// How one chunk is listed in the user message.
pub open spec fn work_item_chunk_line(c: WorkItemExtractionChunkInput) -> Seq<char> {
    "- chunk_id: "@ + c.chunk_id@ + "\n  title: "@ + c.title@ + "\n  summary: "@ + c.summary@
        + "\n  content: "@ + c.content@
}

/// The user message: run id, distill goal and the listed chunks.
pub open spec fn work_item_extraction_user_content(input: WorkItemExtractionInput) -> Seq<char> {
    "run_id: "@ + input.run_id@ + "\ndistill_goal: "@ + input.distill_goal@ + "\n\nChunks:\n"@
        + join(input.chunks@.map_values(|c: WorkItemExtractionChunkInput| work_item_chunk_line(c)), "\n"@)
}

fn chunk_lines(chunks: &Vec<WorkItemExtractionChunkInput>) -> (r: String)
    ensures
        r@ == join(chunks@.map_values(|c: WorkItemExtractionChunkInput| work_item_chunk_line(c)), "\n"@),
{
    let ghost all = chunks@.map_values(|c: WorkItemExtractionChunkInput| work_item_chunk_line(c));
    let mut lines: Vec<String> = Vec::new();
    let n = chunks.len();
    let mut i: usize = 0;
    while i < n
        invariant
            n == chunks@.len(),
            all == chunks@.map_values(|c: WorkItemExtractionChunkInput| work_item_chunk_line(c)),
            i <= n,
            views(lines@) == all.take(i as int),
        decreases n - i,
    {
        let c = &chunks[i];
        let mut line = owned("- chunk_id: ");
        push_str(&mut line, c.chunk_id.as_str());
        push_str(&mut line, "\n  title: ");
        push_str(&mut line, c.title.as_str());
        push_str(&mut line, "\n  summary: ");
        push_str(&mut line, c.summary.as_str());
        push_str(&mut line, "\n  content: ");
        push_str(&mut line, c.content.as_str());
        assert(line@ =~= work_item_chunk_line(*c));
        let ghost before = lines@;
        lines.push(line);
        proof {
            assert(lines@ == before.push(line));
            lemma_views_push(before, line);
            assert(all[i as int] == work_item_chunk_line(chunks@[i as int]));
            assert(all.take(i + 1) =~= all.take(i as int).push(all[i as int]));
        }
        i = i + 1;
    }
    assert(all.take(n as int) =~= all);
    join_strings(&lines, "\n")
}

/// The two messages sent to the model: the system prompt, then the chunks.
pub fn build_work_item_extraction_messages(input: &WorkItemExtractionInput) -> (r: Vec<
    OpenAiCompatibleChatMessage,
>)
    ensures
        r@.len() == 2,
        r@[0].role@ == "system"@,
        r@[0].content@ == WORK_ITEM_EXTRACTION_SYSTEM_PROMPT@,
        r@[1].role@ == "user"@,
        r@[1].content@ == work_item_extraction_user_content(*input),
{
    let lines = chunk_lines(&input.chunks);
    let mut content = owned("run_id: ");
    push_str(&mut content, input.run_id.as_str());
    push_str(&mut content, "\ndistill_goal: ");
    push_str(&mut content, input.distill_goal.as_str());
    push_str(&mut content, "\n\nChunks:\n");
    push_str(&mut content, lines.as_str());
    assert(content@ =~= work_item_extraction_user_content(*input));
    let mut r = Vec::new();
    r.push(chat_message("system", owned(work_item_extraction_system_prompt())));
    r.push(chat_message("user", content));
    r
}

/// The key under which two work items count as the same: trimmed title,
/// `::`, trimmed summary.
pub open spec fn work_item_key(w: WorkItemDraft) -> Seq<char> {
    trim(w.title@) + "::"@ + trim(w.summary@)
}

/// Why the work item at index `i` is rejected, if it is: a blank title or
/// summary, a type other than `note` (after trimming), or the same key as an
/// earlier item.
pub open spec fn work_item_problem(items: Seq<WorkItemDraft>, i: int) -> Option<Seq<char>> {
    let w = items[i];
    if is_blank_text(w.title@) {
        Some("work item draft title cannot be empty"@)
    } else if is_blank_text(w.summary@) {
        Some("work item draft summary cannot be empty"@)
    } else if trim(w.work_item_type@) != "note"@ {
        Some("work_item_type must be note"@)
    } else if exists|j: int| 0 <= j < i && work_item_key(items[j]) == work_item_key(w) {
        Some("work item drafts must be unique"@)
    } else {
        None
    }
}

/// The problem of the first rejected work item at or after `i`.
pub open spec fn first_work_item_problem(items: Seq<WorkItemDraft>, i: int) -> Option<Seq<char>>
    decreases items.len() - i,
{
    if i < 0 || i >= items.len() {
        None
    } else {
        match work_item_problem(items, i) {
            Some(m) => Some(m),
            None => first_work_item_problem(items, i + 1),
        }
    }
}

proof fn lemma_first_problem_skip(items: Seq<WorkItemDraft>, i: int)
    requires
        0 <= i <= items.len(),
        forall|k: int| 0 <= k < i ==> work_item_problem(items, k) is None,
    ensures
        first_work_item_problem(items, 0) == first_work_item_problem(items, i),
    decreases i,
{
    if i > 0 {
        lemma_first_problem_skip(items, i - 1);
    }
}

proof fn lemma_no_first_problem_each(items: Seq<WorkItemDraft>, i: int, k: int)
    requires
        0 <= i <= k < items.len(),
        first_work_item_problem(items, i) is None,
    ensures
        work_item_problem(items, k) is None,
    decreases k - i,
{
    if i < k {
        lemma_no_first_problem_each(items, i + 1, k);
    }
}

/// An accepted work-item list has, for every item, a non-blank title and
/// summary and the type `note`, and no two items (at any two positions)
/// share a key; conversely, two items with the same key get the list
/// rejected.
pub proof fn lemma_accepted_work_items_distinct(items: Seq<WorkItemDraft>)
    ensures
        first_work_item_problem(items, 0) is None ==> forall|i: int, j: int|
            0 <= i < j < items.len() ==> work_item_key(#[trigger] items[i]) != work_item_key(#[trigger] items[j]),
        first_work_item_problem(items, 0) is None ==> forall|i: int|
            0 <= i < items.len() ==> !is_blank_text((#[trigger] items[i]).title@) && !is_blank_text(items[i].summary@)
                && trim(items[i].work_item_type@) == "note"@,
        (exists|i: int, j: int|
            0 <= i < j < items.len() && work_item_key(#[trigger] items[i]) == work_item_key(#[trigger] items[j]))
            ==> first_work_item_problem(items, 0) is Some,
{
    if first_work_item_problem(items, 0) is None {
        assert forall|i: int, j: int|
            0 <= i < j < items.len() implies work_item_key(#[trigger] items[i]) != work_item_key(#[trigger] items[j]) by {
            lemma_no_first_problem_each(items, 0, j);
            if work_item_key(items[i]) == work_item_key(items[j]) {
                assert(exists|j2: int| 0 <= j2 < j && work_item_key(items[j2]) == work_item_key(items[j]));
            }
        }
        assert forall|i: int| 0 <= i < items.len() implies !is_blank_text((#[trigger] items[i]).title@)
            && !is_blank_text(items[i].summary@) && trim(items[i].work_item_type@) == "note"@ by {
            lemma_no_first_problem_each(items, 0, i);
        }
    }
}

/// Accepts the output unchanged when no work item is rejected (an empty list
/// is accepted); otherwise reports the first problem as a response error.
pub fn validate_work_item_extraction_output(output: WorkItemExtractionOutput) -> (r: Result<
    WorkItemExtractionOutput,
    AgentError,
>)
    ensures
        first_work_item_problem(output.work_items@, 0) is None ==> r == Ok::<
            WorkItemExtractionOutput,
            AgentError,
        >(output),
        first_work_item_problem(output.work_items@, 0) matches Some(m) ==> (r matches Err(
            AgentError::Response(e),
        ) && e@ == m),
        r is Ok ==> forall|i: int, j: int|
            0 <= i < j < output.work_items@.len() ==> work_item_key(#[trigger] output.work_items@[i])
                != work_item_key(#[trigger] output.work_items@[j]),
{
    proof {
        lemma_accepted_work_items_distinct(output.work_items@);
    }
    let n = output.work_items.len();
    let mut seen: Vec<Vec<char>> = Vec::new();
    let mut i: usize = 0;
    while i < n
        invariant
            n == output.work_items@.len(),
            i <= n,
            seen@.len() == i,
            forall|k: int| 0 <= k < i ==> (#[trigger] seen@[k])@ == work_item_key(output.work_items@[k]),
            forall|k: int| 0 <= k < i ==> work_item_problem(output.work_items@, k) is None,
        decreases n - i,
    {
        proof {
            lemma_first_problem_skip(output.work_items@, i as int);
        }
        let item = &output.work_items[i];
        let title = chars_of(item.title.as_str());
        if is_blank(&title) {
            return Err(AgentError::Response(owned("work item draft title cannot be empty")));
        }
        let summary = chars_of(item.summary.as_str());
        if is_blank(&summary) {
            return Err(AgentError::Response(owned("work item draft summary cannot be empty")));
        }
        let kind = trim_chars(&chars_of(item.work_item_type.as_str()));
        if !eq_str(&kind, "note") {
            return Err(AgentError::Response(owned("work_item_type must be note")));
        }
        let mut key_text = String::new();
        let tt = trim_chars(&title);
        let ts = trim_chars(&summary);
        push_chars(&mut key_text, &tt);
        push_str(&mut key_text, "::");
        push_chars(&mut key_text, &ts);
        let key = chars_of(key_text.as_str());
        assert(key@ =~= work_item_key(*item));
        let mut j: usize = 0;
        while j < i
            invariant
                i < n,
                n == output.work_items@.len(),
                seen@.len() == i,
                j <= i,
                key@ == work_item_key(output.work_items@[i as int]),
                forall|k: int| 0 <= k < i ==> (#[trigger] seen@[k])@ == work_item_key(output.work_items@[k]),
                forall|k: int| 0 <= k < j ==> work_item_key(output.work_items@[k]) != key@,
                !is_blank_text(output.work_items@[i as int].title@),
                !is_blank_text(output.work_items@[i as int].summary@),
                trim(output.work_items@[i as int].work_item_type@) == "note"@,
                first_work_item_problem(output.work_items@, 0) == first_work_item_problem(output.work_items@, i as int),
            decreases i - j,
        {
            if chars_eq(&seen[j], &key) {
                assert(work_item_key(output.work_items@[j as int]) == work_item_key(output.work_items@[i as int]));
                return Err(AgentError::Response(owned("work item drafts must be unique")));
            }
            j = j + 1;
        }
        seen.push(key);
        i = i + 1;
    }
    proof {
        lemma_first_problem_skip(output.work_items@, n as int);
    }
    Ok(output)
}

/// The request sent to the model for these chunks.
pub fn work_item_extraction_request(config: &LlmProviderConfig, input: &WorkItemExtractionInput) -> (r:
    OpenAiCompatibleChatRequest)
    ensures
        r.model@ == config.model@,
        r.stream is None,
        r.messages@.len() == 2,
        r.messages@[0].content@ == WORK_ITEM_EXTRACTION_SYSTEM_PROMPT@,
        r.messages@[1].content@ == work_item_extraction_user_content(*input),
{
    OpenAiCompatibleChatRequest {
        model: copy_string(&config.model),
        messages: build_work_item_extraction_messages(input),
        stream: None,
    }
}

/// The outcome of a work item extraction call, given the model's reply
/// decoded as an output (or the decoder's error text).
pub fn work_item_extraction_result(decoded: Result<WorkItemExtractionOutput, String>) -> (r: Result<
    WorkItemExtractionOutput,
    AgentError,
>)
    ensures
        decoded matches Err(e) ==> (r matches Err(AgentError::Response(m)) && m@
            == "invalid work item extraction json: "@ + e@),
        decoded matches Ok(o) ==> (first_work_item_problem(o.work_items@, 0) is None ==> r == Ok::<
            WorkItemExtractionOutput,
            AgentError,
        >(o)),
        decoded matches Ok(o) ==> (first_work_item_problem(o.work_items@, 0) matches Some(p) ==> (r matches Err(
            AgentError::Response(m),
        ) && m@ == p)),
{
    match decoded {
        Ok(o) => validate_work_item_extraction_output(o),
        Err(e) => {
            let mut m = owned("invalid work item extraction json: ");
            push_str(&mut m, e.as_str());
            Err(AgentError::Response(m))
        },
    }
}

/// The error when the model's reply has no assistant content.
pub fn work_item_extraction_missing_content() -> (r: AgentError)
    ensures
        r matches AgentError::Response(m) && m@ == "work item extraction response missing assistant content"@,
{
    AgentError::Response(owned("work item extraction response missing assistant content"))
}

} // verus!
