//! The project resolution agent: decides whether a run's outputs belong to an
//! existing project or call for a new one.

use vstd::prelude::*;
use crate::error::AgentError;
use crate::llm::{LlmProviderConfig, OpenAiCompatibleChatMessage, OpenAiCompatibleChatRequest, chat_message};
use crate::text::{
    chars_of, contains_text, copy_string, is_blank, is_blank_text, join, join_strings, owned, push_str, views,
    lemma_contains_extend_left, lemma_contains_extend_right, lemma_contains_in_prefix, lemma_contains_self,
    lemma_join_contains_part, lemma_views_push,
};

verus! {

broadcast use vstd::string::group_string_axioms;

/// An existing project the run may belong to.
#[derive(Debug, Clone, PartialEq, Eq)]
pub struct ProjectSummaryInput {
    pub project_id: String,
    pub name: String,
    pub summary: String,
}

/// A distilled chunk of the run.
#[derive(Debug, Clone, PartialEq, Eq)]
pub struct ProjectResolutionChunkInput {
    pub chunk_id: String,
    pub title: String,
    pub summary: String,
}

/// A work item extracted in the run.
#[derive(Debug, Clone, PartialEq, Eq)]
pub struct ProjectResolutionWorkItemInput {
    pub title: String,
    pub summary: String,
}

/// Everything the agent decides on.
#[derive(Debug, Clone, PartialEq, Eq)]
pub struct ProjectResolutionInput {
    pub run_id: String,
    pub distill_goal: String,
    pub chunks: Vec<ProjectResolutionChunkInput>,
    pub work_items: Vec<ProjectResolutionWorkItemInput>,
    pub existing_projects: Vec<ProjectSummaryInput>,
}

/// The model's decision.
#[derive(Debug, Clone, PartialEq, Eq)]
pub enum ProjectResolutionDecision {
    UseExistingProject { project_id: String, reasoning_summary: String },
    CreateNewProject { title: String, summary: String, reasoning_summary: String },
}

/// The system prompt of the project resolution agent.
pub const PROJECT_RESOLUTION_SYSTEM_PROMPT: &'static str = r#"You are ProjectResolutionAgent for Distilllab.

Your job is to decide whether the current distill outputs belong to an existing project or require a new project.

Rules:
1. Return valid JSON only.
2. Do not include markdown fences.
3. Output must match exactly one of these shapes:

For using an existing project:
{
  "decision": "use_existing_project",
  "project_id": "string",
  "reasoning_summary": "string"
}

For creating a new project:
{
  "decision": "create_new_project",
  "title": "string",
  "summary": "string",
  "reasoning_summary": "string"
}

4. Prefer an existing project only when the evidence clearly belongs to it.
5. Otherwise create a new project.
6. Do not invent project IDs that are not present in the provided project list.
7. Base the decision on chunks, work items, and the existing project summaries.
8. Keep reasoning concise and factual."#;

/// The system prompt of the project resolution agent.
pub fn project_resolution_system_prompt() -> (r: &'static str)
    ensures
        r@ == PROJECT_RESOLUTION_SYSTEM_PROMPT@,
{
    PROJECT_RESOLUTION_SYSTEM_PROMPT
}

/// How one chunk is listed in the user message.
pub open spec fn resolution_chunk_line(c: ProjectResolutionChunkInput) -> Seq<char> {
    "- chunk_id: "@ + c.chunk_id@ + "\n  title: "@ + c.title@ + "\n  summary: "@ + c.summary@
}

/// How one work item is listed in the user message.
pub open spec fn resolution_work_item_line(w: ProjectResolutionWorkItemInput) -> Seq<char> {
    "- title: "@ + w.title@ + "\n  summary: "@ + w.summary@
}

/// How one existing project is listed in the user message.
pub open spec fn resolution_project_line(p: ProjectSummaryInput) -> Seq<char> {
    "- project_id: "@ + p.project_id@ + "\n  name: "@ + p.name@ + "\n  summary: "@ + p.summary@
}

/// The user message: run id, goal, then the chunks, work items and existing
/// projects, one block each, lines joined by newlines.
pub open spec fn project_resolution_user_content(input: ProjectResolutionInput) -> Seq<char> {
    "run_id: "@ + input.run_id@ + "\ndistill_goal: "@ + input.distill_goal@ + "\n\nChunks:\n"@
        + join(input.chunks@.map_values(|c: ProjectResolutionChunkInput| resolution_chunk_line(c)), "\n"@)
        + "\n\nWork Items:\n"@
        + join(input.work_items@.map_values(|w: ProjectResolutionWorkItemInput| resolution_work_item_line(w)), "\n"@)
        + "\n\nExisting Projects:\n"@
        + join(input.existing_projects@.map_values(|p: ProjectSummaryInput| resolution_project_line(p)), "\n"@)
}

fn chunk_block(chunks: &Vec<ProjectResolutionChunkInput>) -> (r: String)
    ensures
        r@ == join(chunks@.map_values(|c: ProjectResolutionChunkInput| resolution_chunk_line(c)), "\n"@),
{
    let ghost all = chunks@.map_values(|c: ProjectResolutionChunkInput| resolution_chunk_line(c));
    let mut lines: Vec<String> = Vec::new();
    let n = chunks.len();
    let mut i: usize = 0;
    while i < n
        invariant
            n == chunks@.len(),
            all == chunks@.map_values(|c: ProjectResolutionChunkInput| resolution_chunk_line(c)),
            i <= n,
            views(lines@) == all.take(i as int),
        decreases n - i,
    {
        let c = &chunks[i];
        let mut line = owned("- chunk_id: ");
        push_str(&mut line, c.chunk_id.as_str());
        push_str(&mut line, "\n  title: ");
        push_str(&mut line, c.title.as_str());
        push_str(&mut line, "\n  summary: ");
        push_str(&mut line, c.summary.as_str());
        assert(line@ =~= resolution_chunk_line(*c));
        let ghost before = lines@;
        lines.push(line);
        proof {
            lemma_views_push(before, line);
            assert(all.take(i + 1) =~= all.take(i as int).push(all[i as int]));
        }
        i = i + 1;
    }
    assert(all.take(n as int) =~= all);
    join_strings(&lines, "\n")
}

fn work_item_block(items: &Vec<ProjectResolutionWorkItemInput>) -> (r: String)
    ensures
        r@ == join(items@.map_values(|w: ProjectResolutionWorkItemInput| resolution_work_item_line(w)), "\n"@),
{
    let ghost all = items@.map_values(|w: ProjectResolutionWorkItemInput| resolution_work_item_line(w));
    let mut lines: Vec<String> = Vec::new();
    let n = items.len();
    let mut i: usize = 0;
    while i < n
        invariant
            n == items@.len(),
            all == items@.map_values(|w: ProjectResolutionWorkItemInput| resolution_work_item_line(w)),
            i <= n,
            views(lines@) == all.take(i as int),
        decreases n - i,
    {
        let w = &items[i];
        let mut line = owned("- title: ");
        push_str(&mut line, w.title.as_str());
        push_str(&mut line, "\n  summary: ");
        push_str(&mut line, w.summary.as_str());
        assert(line@ =~= resolution_work_item_line(*w));
        let ghost before = lines@;
        lines.push(line);
        proof {
            lemma_views_push(before, line);
            assert(all.take(i + 1) =~= all.take(i as int).push(all[i as int]));
        }
        i = i + 1;
    }
    assert(all.take(n as int) =~= all);
    join_strings(&lines, "\n")
}

fn project_block(projects: &Vec<ProjectSummaryInput>) -> (r: String)
    ensures
        r@ == join(projects@.map_values(|p: ProjectSummaryInput| resolution_project_line(p)), "\n"@),
{
    let ghost all = projects@.map_values(|p: ProjectSummaryInput| resolution_project_line(p));
    let mut lines: Vec<String> = Vec::new();
    let n = projects.len();
    let mut i: usize = 0;
    while i < n
        invariant
            n == projects@.len(),
            all == projects@.map_values(|p: ProjectSummaryInput| resolution_project_line(p)),
            i <= n,
            views(lines@) == all.take(i as int),
        decreases n - i,
    {
        let p = &projects[i];
        let mut line = owned("- project_id: ");
        push_str(&mut line, p.project_id.as_str());
        push_str(&mut line, "\n  name: ");
        push_str(&mut line, p.name.as_str());
        push_str(&mut line, "\n  summary: ");
        push_str(&mut line, p.summary.as_str());
        assert(line@ =~= resolution_project_line(*p));
        let ghost before = lines@;
        lines.push(line);
        proof {
            lemma_views_push(before, line);
            assert(all.take(i + 1) =~= all.take(i as int).push(all[i as int]));
        }
        i = i + 1;
    }
    assert(all.take(n as int) =~= all);
    join_strings(&lines, "\n")
}

/// The two messages sent to the model: the system prompt, then the run's
/// chunks, work items and the existing projects.
pub fn build_project_resolution_messages(input: &ProjectResolutionInput) -> (r: Vec<
    OpenAiCompatibleChatMessage,
>)
    ensures
        r@.len() == 2,
        r@[0].role@ == "system"@,
        r@[0].content@ == PROJECT_RESOLUTION_SYSTEM_PROMPT@,
        r@[1].role@ == "user"@,
        r@[1].content@ == project_resolution_user_content(*input),
{
    let chunk_lines = chunk_block(&input.chunks);
    let work_item_lines = work_item_block(&input.work_items);
    let project_lines = project_block(&input.existing_projects);
    let mut content = owned("run_id: ");
    push_str(&mut content, input.run_id.as_str());
    push_str(&mut content, "\ndistill_goal: ");
    push_str(&mut content, input.distill_goal.as_str());
    push_str(&mut content, "\n\nChunks:\n");
    push_str(&mut content, chunk_lines.as_str());
    push_str(&mut content, "\n\nWork Items:\n");
    push_str(&mut content, work_item_lines.as_str());
    push_str(&mut content, "\n\nExisting Projects:\n");
    push_str(&mut content, project_lines.as_str());
    assert(content@ =~= project_resolution_user_content(*input));
    let mut r = Vec::new();
    r.push(chat_message("system", owned(project_resolution_system_prompt())));
    r.push(chat_message("user", content));
    r
}

/// The user message names the run and lists every chunk, every work item
/// and every existing project.
pub proof fn lemma_resolution_user_content_lists_everything(input: ProjectResolutionInput)
    ensures
        contains_text(project_resolution_user_content(input), "run_id: "@ + input.run_id@),
        forall|k: int| 0 <= k < input.chunks@.len() ==> contains_text(
            project_resolution_user_content(input),
            #[trigger] resolution_chunk_line(input.chunks@[k]),
        ),
        forall|k: int| 0 <= k < input.work_items@.len() ==> contains_text(
            project_resolution_user_content(input),
            #[trigger] resolution_work_item_line(input.work_items@[k]),
        ),
        forall|k: int| 0 <= k < input.existing_projects@.len() ==> contains_text(
            project_resolution_user_content(input),
            #[trigger] resolution_project_line(input.existing_projects@[k]),
        ),
{
    let s = project_resolution_user_content(input);
    let t = "run_id: "@ + input.run_id@;
    lemma_contains_self(t);
    assert(s.subrange(0, t.len() as int) =~= t);
    lemma_contains_in_prefix(s, t, t);

    let head = t + "\ndistill_goal: "@ + input.distill_goal@ + "\n\nChunks:\n"@;
    let cl = join(input.chunks@.map_values(|c: ProjectResolutionChunkInput| resolution_chunk_line(c)), "\n"@);
    let m1 = "\n\nWork Items:\n"@;
    let wl = join(input.work_items@.map_values(|w: ProjectResolutionWorkItemInput| resolution_work_item_line(w)), "\n"@);
    let m2 = "\n\nExisting Projects:\n"@;
    let pl = join(input.existing_projects@.map_values(|p: ProjectSummaryInput| resolution_project_line(p)), "\n"@);
    assert(s =~= head + cl + m1 + wl + m2 + pl);
    assert forall|k: int| 0 <= k < input.chunks@.len() implies contains_text(
        s,
        #[trigger] resolution_chunk_line(input.chunks@[k]),
    ) by {
        let n = resolution_chunk_line(input.chunks@[k]);
        lemma_join_contains_part(input.chunks@.map_values(|c: ProjectResolutionChunkInput| resolution_chunk_line(c)), "\n"@, k);
        lemma_contains_extend_left(head, cl, n);
        lemma_contains_extend_right(head + cl, m1, n);
        lemma_contains_extend_right(head + cl + m1, wl, n);
        lemma_contains_extend_right(head + cl + m1 + wl, m2, n);
        lemma_contains_extend_right(head + cl + m1 + wl + m2, pl, n);
    }
    assert forall|k: int| 0 <= k < input.work_items@.len() implies contains_text(
        s,
        #[trigger] resolution_work_item_line(input.work_items@[k]),
    ) by {
        let n = resolution_work_item_line(input.work_items@[k]);
        lemma_join_contains_part(input.work_items@.map_values(|w: ProjectResolutionWorkItemInput| resolution_work_item_line(w)), "\n"@, k);
        lemma_contains_extend_left(head + cl + m1, wl, n);
        lemma_contains_extend_right(head + cl + m1 + wl, m2, n);
        lemma_contains_extend_right(head + cl + m1 + wl + m2, pl, n);
    }
    assert forall|k: int| 0 <= k < input.existing_projects@.len() implies contains_text(
        s,
        #[trigger] resolution_project_line(input.existing_projects@[k]),
    ) by {
        let n = resolution_project_line(input.existing_projects@[k]);
        lemma_join_contains_part(input.existing_projects@.map_values(|p: ProjectSummaryInput| resolution_project_line(p)), "\n"@, k);
        lemma_contains_extend_left(head + cl + m1 + wl + m2, pl, n);
    }
}

/// Why a decision is rejected, if it is: the first of its text fields, in
/// declaration order, that is blank.
pub open spec fn decision_problem(d: ProjectResolutionDecision) -> Option<Seq<char>> {
    match d {
        ProjectResolutionDecision::UseExistingProject { project_id, reasoning_summary } => {
            if is_blank_text(project_id@) {
                Some("project_id cannot be empty"@)
            } else if is_blank_text(reasoning_summary@) {
                Some("reasoning_summary cannot be empty"@)
            } else {
                None
            }
        },
        ProjectResolutionDecision::CreateNewProject { title, summary, reasoning_summary } => {
            if is_blank_text(title@) {
                Some("title cannot be empty"@)
            } else if is_blank_text(summary@) {
                Some("summary cannot be empty"@)
            } else if is_blank_text(reasoning_summary@) {
                Some("reasoning_summary cannot be empty"@)
            } else {
                None
            }
        },
    }
}

fn blank(s: &String) -> (r: bool)
    ensures
        r == is_blank_text(s@),
{
    let v = chars_of(s.as_str());
    is_blank(&v)
}

/// Accepts the decision unchanged when none of its fields is blank; otherwise
/// reports the first blank field as a response error.
pub fn validate_project_resolution_decision(decision: ProjectResolutionDecision) -> (r: Result<
    ProjectResolutionDecision,
    AgentError,
>)
    ensures
        decision_problem(decision) is None ==> r == Ok::<ProjectResolutionDecision, AgentError>(
            decision,
        ),
        decision_problem(decision) matches Some(m) ==> (r matches Err(AgentError::Response(e))
            && e@ == m),
{
    match &decision {
        ProjectResolutionDecision::UseExistingProject { project_id, reasoning_summary } => {
            if blank(project_id) {
                return Err(AgentError::Response(owned("project_id cannot be empty")));
            }
            if blank(reasoning_summary) {
                return Err(AgentError::Response(owned("reasoning_summary cannot be empty")));
            }
        },
        ProjectResolutionDecision::CreateNewProject { title, summary, reasoning_summary } => {
            if blank(title) {
                return Err(AgentError::Response(owned("title cannot be empty")));
            }
            if blank(summary) {
                return Err(AgentError::Response(owned("summary cannot be empty")));
            }
            if blank(reasoning_summary) {
                return Err(AgentError::Response(owned("reasoning_summary cannot be empty")));
            }
        },
    }
    Ok(decision)
}

/// The request sent to the model for this input.
pub fn project_resolution_request(config: &LlmProviderConfig, input: &ProjectResolutionInput) -> (r:
    OpenAiCompatibleChatRequest)
    ensures
        r.model@ == config.model@,
        r.stream is None,
        r.messages@.len() == 2,
        r.messages@[0].content@ == PROJECT_RESOLUTION_SYSTEM_PROMPT@,
        r.messages@[1].content@ == project_resolution_user_content(*input),
{
    OpenAiCompatibleChatRequest {
        model: copy_string(&config.model),
        messages: build_project_resolution_messages(input),
        stream: None,
    }
}

/// The outcome of a project resolution call, given the model's reply decoded
/// as a decision (or the decoder's error text).
pub fn project_resolution_result(decoded: Result<ProjectResolutionDecision, String>) -> (r: Result<
    ProjectResolutionDecision,
    AgentError,
>)
    ensures
        decoded matches Err(e) ==> (r matches Err(AgentError::Response(m)) && m@
            == "invalid project resolution json: "@ + e@),
        decoded matches Ok(d) ==> (decision_problem(d) is None ==> r == Ok::<
            ProjectResolutionDecision,
            AgentError,
        >(d)),
        decoded matches Ok(d) ==> (decision_problem(d) matches Some(p) ==> (r matches Err(
            AgentError::Response(m),
        ) && m@ == p)),
{
    match decoded {
        Ok(d) => validate_project_resolution_decision(d),
        Err(e) => {
            let mut m = owned("invalid project resolution json: ");
            push_str(&mut m, e.as_str());
            Err(AgentError::Response(m))
        },
    }
}

/// The error when the model's reply has no assistant content.
pub fn project_resolution_missing_content() -> (r: AgentError)
    ensures
        r matches AgentError::Response(m) && m@ == "project resolution response missing assistant content"@,
{
    AgentError::Response(owned("project resolution response missing assistant content"))
}

} // verus!
