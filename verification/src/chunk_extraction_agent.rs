//! The chunk extraction agent: turns one source document into semantic chunks.

use vstd::prelude::*;
use crate::error::AgentError;
use crate::llm::{LlmProviderConfig, OpenAiCompatibleChatMessage, OpenAiCompatibleChatRequest, chat_message};
use crate::text::{chars_of, chars_eq, copy_string, is_blank, is_blank_text, owned, push_str, trim, trim_chars};

verus! {

broadcast use vstd::string::group_string_axioms;

/// One source document to be chunked, with its run and the distill goal.
#[derive(Debug, Clone, PartialEq, Eq)]
pub struct ChunkExtractionInput {
    pub run_id: String,
    pub source_id: String,
    pub source_type: String,
    pub source_title: String,
    pub source_text: String,
    pub distill_goal: String,
}

/// One chunk proposed by the model.
#[derive(Debug, Clone, PartialEq, Eq)]
pub struct ChunkDraft {
    pub title: String,
    pub summary: String,
    pub content: String,
}

/// The chunks proposed by the model for one source.
#[derive(Debug, Clone, PartialEq, Eq)]
pub struct ChunkExtractionOutput {
    pub chunks: Vec<ChunkDraft>,
}

/// The system prompt of the chunk extraction agent.
pub const CHUNK_EXTRACTION_SYSTEM_PROMPT: &'static str = r#"You are ChunkExtractionAgent for Distilllab.

Your job is to transform one source document into a small set of high-quality semantic chunks for downstream distillation.

These chunks are not generic text splits.
They must be useful for:
- extracting structured work items
- extracting final recap assets
- preserving meaningful units of work, decisions, updates, blockers, and insights

Rules:
1. Return valid JSON only.
2. Do not include markdown fences.
3. Output must match this exact schema:

{
  \"chunks\": [
    {
      \"title\": \"string\",
      \"summary\": \"string\",
      \"content\": \"string\"
    }
  ]
}

4. Create chunks based on meaning, not arbitrary size.
5. Each chunk should represent one coherent unit of information.
6. Preserve important operational details:
   - decisions
   - action items
   - blockers
   - progress updates
   - findings
   - discussion themes
7. Do not invent facts that are not in the source.
8. Do not omit critical details just to shorten output.
9. Keep chunk titles concise and descriptive.
10. Keep summaries short, 1 sentence if possible.
11. Chunk content should be the cleaned, relevant source excerpt or rewrite of that unit, preserving the original meaning.
12. Prefer fewer, higher-quality chunks over many shallow chunks.
13. If the source is very short but meaningful, one chunk is acceptable.
14. If the source contains multiple distinct themes, split them into separate chunks.
15. You may discard source content that has no meaningful distillation value.
16. Distillation value means information that can contribute to:
   - decisions
   - work items
   - blockers
   - progress updates
   - findings
   - reusable recap assets
17. Do not preserve filler, repetition, or purely social text unless it changes the meaning of the work context.
18. The goal is not complete coverage. The goal is high-value semantic preservation for distillation."#;

/// The system prompt of the chunk extraction agent.
pub fn chunk_extraction_system_prompt() -> (r: &'static str)
    ensures
        r@ == CHUNK_EXTRACTION_SYSTEM_PROMPT@,
{
    CHUNK_EXTRACTION_SYSTEM_PROMPT
}

/// The user message: the distill goal, the source metadata and the source text.
pub open spec fn chunk_extraction_user_content(input: ChunkExtractionInput) -> Seq<char> {
    "Distill goal:\n"@ + input.distill_goal@ + "\n\nSource metadata:\n- run_id: "@ + input.run_id@
        + "\n- source_id: "@ + input.source_id@ + "\n- source_type: "@ + input.source_type@
        + "\n- source_title: "@ + input.source_title@ + "\n\nSource text:\n"@
        + input.source_text@
}

/// The two messages sent to the model: the system prompt, then the source.
pub fn build_chunk_extraction_messages(input: &ChunkExtractionInput) -> (r: Vec<
    OpenAiCompatibleChatMessage,
>)
    ensures
        r@.len() == 2,
        r@[0].role@ == "system"@,
        r@[0].content@ == CHUNK_EXTRACTION_SYSTEM_PROMPT@,
        r@[1].role@ == "user"@,
        r@[1].content@ == chunk_extraction_user_content(*input),
{
    let mut content = String::new();
    push_str(&mut content, "Distill goal:\n");
    push_str(&mut content, input.distill_goal.as_str());
    push_str(&mut content, "\n\nSource metadata:\n- run_id: ");
    push_str(&mut content, input.run_id.as_str());
    push_str(&mut content, "\n- source_id: ");
    push_str(&mut content, input.source_id.as_str());
    push_str(&mut content, "\n- source_type: ");
    push_str(&mut content, input.source_type.as_str());
    push_str(&mut content, "\n- source_title: ");
    push_str(&mut content, input.source_title.as_str());
    push_str(&mut content, "\n\nSource text:\n");
    push_str(&mut content, input.source_text.as_str());
    assert(content@ =~= chunk_extraction_user_content(*input));
    let mut r = Vec::new();
    r.push(chat_message("system", owned(chunk_extraction_system_prompt())));
    r.push(chat_message("user", content));
    r
}

/// Why the chunk at index `i` is rejected, if it is: a blank title, summary
/// or content, or content equal (after trimming) to that of an earlier chunk.
pub open spec fn chunk_problem(chunks: Seq<ChunkDraft>, i: int) -> Option<Seq<char>> {
    let c = chunks[i];
    if is_blank_text(c.title@) {
        Some("chunk draft title cannot be empty"@)
    } else if is_blank_text(c.summary@) {
        Some("chunk draft summary cannot be empty"@)
    } else if is_blank_text(c.content@) {
        Some("chunk draft content cannot be empty"@)
    } else if exists|j: int| 0 <= j < i && trim(chunks[j].content@) == trim(c.content@) {
        Some("chunk draft content must be unique per source"@)
    } else {
        None
    }
}

/// The problem of the first rejected chunk at or after `i`.
pub open spec fn first_chunk_problem(chunks: Seq<ChunkDraft>, i: int) -> Option<Seq<char>>
    decreases chunks.len() - i,
{
    if i < 0 || i >= chunks.len() {
        None
    } else {
        match chunk_problem(chunks, i) {
            Some(m) => Some(m),
            None => first_chunk_problem(chunks, i + 1),
        }
    }
}

/// Why an output is rejected, if it is: no chunks at all, or the first
/// rejected chunk.
pub open spec fn chunk_output_problem(output: ChunkExtractionOutput) -> Option<Seq<char>> {
    if output.chunks@.len() == 0 {
        Some("chunk agent returned no chunks"@)
    } else {
        first_chunk_problem(output.chunks@, 0)
    }
}

proof fn lemma_first_problem_skip(chunks: Seq<ChunkDraft>, i: int)
    requires
        0 <= i <= chunks.len(),
        forall|k: int| 0 <= k < i ==> chunk_problem(chunks, k) is None,
    ensures
        first_chunk_problem(chunks, 0) == first_chunk_problem(chunks, i),
    decreases i,
{
    if i > 0 {
        lemma_first_problem_skip(chunks, i - 1);
    }
}

proof fn lemma_no_first_chunk_problem_each(chunks: Seq<ChunkDraft>, i: int, k: int)
    requires
        0 <= i <= k < chunks.len(),
        first_chunk_problem(chunks, i) is None,
    ensures
        chunk_problem(chunks, k) is None,
    decreases k - i,
{
    if i < k {
        lemma_no_first_chunk_problem_each(chunks, i + 1, k);
    }
}

/// An accepted chunk output is non-empty, every chunk has a non-blank title,
/// summary and content, and no two chunks (at any two positions) have the
/// same trimmed content; conversely, two chunks with the same trimmed
/// content get the output rejected.
pub proof fn lemma_accepted_chunks_distinct(output: ChunkExtractionOutput)
    ensures
        chunk_output_problem(output) is None ==> output.chunks@.len() > 0,
        chunk_output_problem(output) is None ==> forall|i: int, j: int|
            0 <= i < j < output.chunks@.len() ==> trim((#[trigger] output.chunks@[i]).content@) != trim(
                (#[trigger] output.chunks@[j]).content@,
            ),
        chunk_output_problem(output) is None ==> forall|i: int|
            0 <= i < output.chunks@.len() ==> !is_blank_text((#[trigger] output.chunks@[i]).title@)
                && !is_blank_text(output.chunks@[i].summary@) && !is_blank_text(output.chunks@[i].content@),
        (exists|i: int, j: int|
            0 <= i < j < output.chunks@.len() && trim((#[trigger] output.chunks@[i]).content@) == trim(
                (#[trigger] output.chunks@[j]).content@,
            )) ==> chunk_output_problem(output) is Some,
{
    let c = output.chunks@;
    if chunk_output_problem(output) is None {
        assert forall|i: int, j: int|
            0 <= i < j < c.len() implies trim((#[trigger] c[i]).content@) != trim((#[trigger] c[j]).content@) by {
            lemma_no_first_chunk_problem_each(c, 0, j);
            if trim(c[i].content@) == trim(c[j].content@) {
                assert(exists|j2: int| 0 <= j2 < j && trim(c[j2].content@) == trim(c[j].content@));
            }
        }
        assert forall|i: int| 0 <= i < c.len() implies !is_blank_text((#[trigger] c[i]).title@)
            && !is_blank_text(c[i].summary@) && !is_blank_text(c[i].content@) by {
            lemma_no_first_chunk_problem_each(c, 0, i);
        }
    }
}

/// Accepts the output unchanged when it has chunks and none is rejected;
/// otherwise reports the problem as a response error.
pub fn validate_chunk_extraction_output(output: ChunkExtractionOutput) -> (r: Result<
    ChunkExtractionOutput,
    AgentError,
>)
    ensures
        chunk_output_problem(output) is None ==> r == Ok::<ChunkExtractionOutput, AgentError>(output),
        chunk_output_problem(output) matches Some(m) ==> (r matches Err(AgentError::Response(e)) && e@ == m),
        r is Ok ==> forall|i: int, j: int|
            0 <= i < j < output.chunks@.len() ==> trim((#[trigger] output.chunks@[i]).content@) != trim(
                (#[trigger] output.chunks@[j]).content@,
            ),
{
    proof {
        lemma_accepted_chunks_distinct(output);
    }
    if output.chunks.len() == 0 {
        return Err(AgentError::Response(owned("chunk agent returned no chunks")));
    }
    let n = output.chunks.len();
    let mut seen: Vec<Vec<char>> = Vec::new();
    let mut i: usize = 0;
    while i < n
        invariant
            n == output.chunks@.len(),
            i <= n,
            seen@.len() == i,
            forall|k: int| 0 <= k < i ==> (#[trigger] seen@[k])@ == trim(output.chunks@[k].content@),
            forall|k: int| 0 <= k < i ==> chunk_problem(output.chunks@, k) is None,
        decreases n - i,
    {
        proof {
            lemma_first_problem_skip(output.chunks@, i as int);
        }
        let chunk = &output.chunks[i];
        if is_blank(&chars_of(chunk.title.as_str())) {
            return Err(AgentError::Response(owned("chunk draft title cannot be empty")));
        }
        if is_blank(&chars_of(chunk.summary.as_str())) {
            return Err(AgentError::Response(owned("chunk draft summary cannot be empty")));
        }
        let content = chars_of(chunk.content.as_str());
        if is_blank(&content) {
            return Err(AgentError::Response(owned("chunk draft content cannot be empty")));
        }
        let trimmed = trim_chars(&content);
        let mut j: usize = 0;
        while j < i
            invariant
                i < n,
                n == output.chunks@.len(),
                seen@.len() == i,
                j <= i,
                trimmed@ == trim(output.chunks@[i as int].content@),
                forall|k: int| 0 <= k < i ==> (#[trigger] seen@[k])@ == trim(output.chunks@[k].content@),
                forall|k: int| 0 <= k < j ==> trim(output.chunks@[k].content@) != trimmed@,
                !is_blank_text(output.chunks@[i as int].title@),
                !is_blank_text(output.chunks@[i as int].summary@),
                !is_blank_text(output.chunks@[i as int].content@),
                first_chunk_problem(output.chunks@, 0) == first_chunk_problem(output.chunks@, i as int),
                output.chunks@.len() > 0,
            decreases i - j,
        {
            if chars_eq(&seen[j], &trimmed) {
                assert(trim(output.chunks@[j as int].content@) == trim(output.chunks@[i as int].content@));
                return Err(AgentError::Response(owned("chunk draft content must be unique per source")));
            }
            j = j + 1;
        }
        seen.push(trimmed);
        i = i + 1;
    }
    proof {
        lemma_first_problem_skip(output.chunks@, n as int);
    }
    Ok(output)
}

/// The request sent to the model for one source.
pub fn chunk_extraction_request(config: &LlmProviderConfig, input: &ChunkExtractionInput) -> (r:
    OpenAiCompatibleChatRequest)
    ensures
        r.model@ == config.model@,
        r.stream is None,
        r.messages@.len() == 2,
        r.messages@[0].content@ == CHUNK_EXTRACTION_SYSTEM_PROMPT@,
        r.messages@[1].content@ == chunk_extraction_user_content(*input),
{
    OpenAiCompatibleChatRequest {
        model: copy_string(&config.model),
        messages: build_chunk_extraction_messages(input),
        stream: None,
    }
}

/// The outcome of a chunk extraction call, given the model's reply decoded
/// as an output (or the decoder's error text): a decoding error becomes
/// `invalid chunk agent json: <error>`; a decoded output is validated.
pub fn chunk_extraction_result(decoded: Result<ChunkExtractionOutput, String>) -> (r: Result<
    ChunkExtractionOutput,
    AgentError,
>)
    ensures
        decoded matches Err(e) ==> (r matches Err(AgentError::Response(m)) && m@
            == "invalid chunk agent json: "@ + e@),
        decoded matches Ok(o) ==> (chunk_output_problem(o) is None ==> r == Ok::<
            ChunkExtractionOutput,
            AgentError,
        >(o)),
        decoded matches Ok(o) ==> (chunk_output_problem(o) matches Some(p) ==> (r matches Err(
            AgentError::Response(m),
        ) && m@ == p)),
{
    match decoded {
        Ok(o) => validate_chunk_extraction_output(o),
        Err(e) => {
            let mut m = owned("invalid chunk agent json: ");
            push_str(&mut m, e.as_str());
            Err(AgentError::Response(m))
        },
    }
}

/// The error when the model's reply has no assistant content.
pub fn chunk_extraction_missing_content() -> (r: AgentError)
    ensures
        r matches AgentError::Response(m) && m@ == "chunk agent response missing assistant content"@,
{
    AgentError::Response(owned("chunk agent response missing assistant content"))
}

} // verus!
