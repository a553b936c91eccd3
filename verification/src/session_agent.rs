//! The session agent: the session-level planner that reads the current turn
//! and decides the next action.

use vstd::prelude::*;
use crate::definition::AgentDefinition;
use crate::session::{AttachmentRef, Session, SessionIntake, SessionMessage, SessionMessageRole};
use crate::skills::SkillSelection;
use crate::error::AgentError;
use crate::llm::{LlmProviderConfig, OpenAiCompatibleChatMessage, OpenAiCompatibleChatRequest, chat_message};
use crate::text::{
    chars_of, contains_str, contains_text, copy_string, extract_first_url, first_url, json_quote,
    json_string_literal, lowercase, opt_view, owned, push_str, str_eq, to_lowercase, views, words,
    is_whitespace, is_ws, trim_start, lemma_trim_start_skip, is_blank, is_blank_text, starts_with,
    has_prefix, copy_range, string_from_chars, decimal, join, join_strings, lemma_views_push,
    push_decimal, occurs_at, is_ascii_text, ascii_lower,
};
use crate::tools::ToolInvocation;

verus! {

broadcast use vstd::string::group_string_axioms;

/// The system prompt of the session agent.
pub const SESSION_AGENT_SYSTEM_PROMPT: &'static str = "You are the Session Agent for Distilllab. Distilllab's primary goal is to distill work content and working process materials into reusable knowledge objects, not to act as a generic note organizer. You are the session-level planner for the current session: understand the current session state, identify user intent, decide the next high-level action, and consider post-action follow-up and failure handling at the session level. Respond with valid JSON only. Do not include markdown fences or extra explanation. The JSON object must contain these fields: intent, action_type, reply_text, primary_object_type, primary_object_id, suggested_run_type, session_summary, tool_invocation, skill_selection, should_continue_planning, failure_hint. Intent must be one of: general_reply, distill_material, deepen_understanding, compose_output. action_type must be one of: direct_reply, request_clarification, tool_call, skill_call, create_run, stop. If intent is distill_material, action_type must be create_run or request_clarification, and create_run should normally use suggested_run_type import_and_distill. Use tool_invocation only when action_type is tool_call. tool_invocation must contain tool_name, arguments, reasoning_summary, and expected_follow_up, where arguments is a JSON object. Prefer list_attachments when you need to discover which attachments are available. Prefer read_attachment_excerpt or read_text when the user asks what a current attachment contains. For read_attachment_excerpt and read_text, prefer arguments using attachment_index when current_intake_attachments are present; use attachment_id only when needed. Prefer web_fetch when the user asks about a URL or webpage and the answer requires reading remote content. If one tool result is insufficient to satisfy the request, you may return another tool_call on the next planning turn instead of answering prematurely. Use skill_selection only when action_type is skill_call. skill_selection must contain skill_key, reasoning_summary, and expected_outcome. Use suggested_run_type only when action_type is create_run. Set should_continue_planning to true when the session should expect a follow-up planning turn after the chosen action finishes, otherwise false. Use failure_hint to summarize what the planner should consider if the chosen action fails. Use null for optional fields when unknown.";

/// What the session agent is for.
pub const SESSION_AGENT_DESCRIPTION: &'static str = "Distilllab session-level planning agent that understands user intent and decides the next action for the current session.";

/// What the session agent is responsible for.
pub const SESSION_AGENT_RESPONSIBILITY: &'static str = "Reads the current session and recent timeline, identifies user intent and primary object, decides the next action, and can choose what to do after actions succeed or fail. It does not execute the workflow itself.";

/// The tools the session agent may call.
pub open spec fn session_agent_tool_keys() -> Seq<Seq<char>> {
    seq![
        "list_sources"@, "list_projects"@, "list_runs"@, "get_session"@, "get_project"@,
        "get_asset"@, "search_memory"@, "read_attachment_excerpt"@, "read_text"@,
        "list_attachments"@, "web_fetch"@,
    ]
}

/// The skills the session agent may select.
pub open spec fn session_agent_skill_keys() -> Seq<Seq<char>> {
    seq!["import_and_distill_skill"@, "deepen_asset_skill"@, "compose_and_verify_skill"@]
}

/// The object types the session agent reads.
pub open spec fn session_agent_input_types() -> Seq<Seq<char>> {
    seq!["session"@, "session_message"@, "source"@, "project"@, "asset"@, "run"@]
}

/// The object types the session agent produces.
pub open spec fn session_agent_output_types() -> Seq<Seq<char>> {
    seq!["session_message"@, "run"@]
}

/// The run types the session agent may start.
pub open spec fn session_agent_run_types() -> Seq<Seq<char>> {
    seq!["import_and_distill"@, "deepening"@, "compose_and_verify"@]
}

fn strings_of(items: &[&str]) -> (r: Vec<String>)
    ensures
        views(r@) == items@.map_values(|s: &str| s@),
{
    let mut r: Vec<String> = Vec::new();
    let mut i: usize = 0;
    while i < items.len()
        invariant
            i <= items@.len(),
            views(r@) == items@.take(i as int).map_values(|s: &str| s@),
        decreases items@.len() - i,
    {
        let ghost before = r@;
        r.push(owned(items[i]));
        assert(views(r@) =~= views(before).push(items@[i as int]@));
        assert(items@.take(i + 1).map_values(|s: &str| s@) =~= items@.take(i as int).map_values(
            |s: &str| s@,
        ).push(items@[i as int]@));
        i = i + 1;
    }
    assert(items@.take(items@.len() as int) =~= items@);
    r
}

/// The definition of the session agent.
pub fn session_agent_definition() -> (r: AgentDefinition)
    ensures
        r.id@ == "agent-session"@,
        r.key@ == "session_agent"@,
        r.name@ == "Session Agent"@,
        r.kind@ == "session"@,
        r.description@ == SESSION_AGENT_DESCRIPTION@,
        r.responsibility_summary@ == SESSION_AGENT_RESPONSIBILITY@,
        r.status@ == "active"@,
        r.system_prompt@ == SESSION_AGENT_SYSTEM_PROMPT@,
        r.default_model_profile@ == "reasoning_default"@,
        views(r.allowed_tool_keys@) == session_agent_tool_keys(),
        views(r.allowed_skill_keys@) == session_agent_skill_keys(),
        views(r.input_object_types@) == session_agent_input_types(),
        views(r.output_object_types@) == session_agent_output_types(),
        views(r.can_create_run_types@) == session_agent_run_types(),
{
    let tools = strings_of(
        &[
            "list_sources",
            "list_projects",
            "list_runs",
            "get_session",
            "get_project",
            "get_asset",
            "search_memory",
            "read_attachment_excerpt",
            "read_text",
            "list_attachments",
            "web_fetch",
        ],
    );
    let skills = strings_of(&["import_and_distill_skill", "deepen_asset_skill", "compose_and_verify_skill"]);
    let inputs = strings_of(&["session", "session_message", "source", "project", "asset", "run"]);
    let outputs = strings_of(&["session_message", "run"]);
    let runs = strings_of(&["import_and_distill", "deepening", "compose_and_verify"]);
    AgentDefinition {
        id: owned("agent-session"),
        key: owned("session_agent"),
        name: owned("Session Agent"),
        kind: owned("session"),
        description: owned(SESSION_AGENT_DESCRIPTION),
        responsibility_summary: owned(SESSION_AGENT_RESPONSIBILITY),
        status: owned("active"),
        system_prompt: owned(SESSION_AGENT_SYSTEM_PROMPT),
        default_model_profile: owned("reasoning_default"),
        allowed_tool_keys: tools,
        allowed_skill_keys: skills,
        input_object_types: inputs,
        output_object_types: outputs,
        can_create_run_types: runs,
    }
}

/// The kind of next action the planner chose.
#[derive(Debug, Clone, Copy, PartialEq, Eq, Structural)]
pub enum SessionActionType {
    DirectReply,
    RequestClarification,
    ToolCall,
    SkillCall,
    CreateRun,
    Stop,
}

/// The wire name of an action type.
pub open spec fn action_type_name(a: SessionActionType) -> Seq<char> {
    match a {
        SessionActionType::DirectReply => "direct_reply"@,
        SessionActionType::RequestClarification => "request_clarification"@,
        SessionActionType::ToolCall => "tool_call"@,
        SessionActionType::SkillCall => "skill_call"@,
        SessionActionType::CreateRun => "create_run"@,
        SessionActionType::Stop => "stop"@,
    }
}

/// The action type a wire name denotes, if any.
pub open spec fn action_type_of(name: Seq<char>) -> Option<SessionActionType> {
    if name == "direct_reply"@ {
        Some(SessionActionType::DirectReply)
    } else if name == "request_clarification"@ {
        Some(SessionActionType::RequestClarification)
    } else if name == "tool_call"@ {
        Some(SessionActionType::ToolCall)
    } else if name == "skill_call"@ {
        Some(SessionActionType::SkillCall)
    } else if name == "create_run"@ {
        Some(SessionActionType::CreateRun)
    } else if name == "stop"@ {
        Some(SessionActionType::Stop)
    } else {
        None
    }
}

impl SessionActionType {
    /// The wire name of this action type, e.g. `tool_call`.
    pub fn as_str(&self) -> (r: &'static str)
        ensures
            r@ == action_type_name(*self),
    {
        match self {
            SessionActionType::DirectReply => "direct_reply",
            SessionActionType::RequestClarification => "request_clarification",
            SessionActionType::ToolCall => "tool_call",
            SessionActionType::SkillCall => "skill_call",
            SessionActionType::CreateRun => "create_run",
            SessionActionType::Stop => "stop",
        }
    }
}

/// The action type a wire name denotes; `None` for any other text.
pub fn parse_action_type(action_type: &str) -> (r: Option<SessionActionType>)
    ensures
        r == action_type_of(action_type@),
{
    if str_eq(action_type, "direct_reply") {
        Some(SessionActionType::DirectReply)
    } else if str_eq(action_type, "request_clarification") {
        Some(SessionActionType::RequestClarification)
    } else if str_eq(action_type, "tool_call") {
        Some(SessionActionType::ToolCall)
    } else if str_eq(action_type, "skill_call") {
        Some(SessionActionType::SkillCall)
    } else if str_eq(action_type, "create_run") {
        Some(SessionActionType::CreateRun)
    } else if str_eq(action_type, "stop") {
        Some(SessionActionType::Stop)
    } else {
        None
    }
}

/// What the user wants from the session.
#[derive(Debug, Clone, Copy, PartialEq, Eq, Structural)]
pub enum SessionIntent {
    GeneralReply,
    DistillMaterial,
    DeepenUnderstanding,
    ComposeOutput,
}

/// The wire name of an intent.
pub open spec fn intent_name(i: SessionIntent) -> Seq<char> {
    match i {
        SessionIntent::GeneralReply => "general_reply"@,
        SessionIntent::DistillMaterial => "distill_material"@,
        SessionIntent::DeepenUnderstanding => "deepen_understanding"@,
        SessionIntent::ComposeOutput => "compose_output"@,
    }
}

/// The intent a wire name denotes, if any; `llm_direct_reply` is accepted as
/// an older name of `general_reply`.
pub open spec fn intent_of(name: Seq<char>) -> Option<SessionIntent> {
    if name == "general_reply"@ || name == "llm_direct_reply"@ {
        Some(SessionIntent::GeneralReply)
    } else if name == "distill_material"@ {
        Some(SessionIntent::DistillMaterial)
    } else if name == "deepen_understanding"@ {
        Some(SessionIntent::DeepenUnderstanding)
    } else if name == "compose_output"@ {
        Some(SessionIntent::ComposeOutput)
    } else {
        None
    }
}

impl SessionIntent {
    /// The wire name of this intent, e.g. `distill_material`.
    pub fn as_str(&self) -> (r: &'static str)
        ensures
            r@ == intent_name(*self),
    {
        match self {
            SessionIntent::GeneralReply => "general_reply",
            SessionIntent::DistillMaterial => "distill_material",
            SessionIntent::DeepenUnderstanding => "deepen_understanding",
            SessionIntent::ComposeOutput => "compose_output",
        }
    }

    /// The intent a wire name denotes; `None` for any other text.
    pub fn from_str(value: &str) -> (r: Option<Self>)
        ensures
            r == intent_of(value@),
    {
        if str_eq(value, "general_reply") || str_eq(value, "llm_direct_reply") {
            Some(SessionIntent::GeneralReply)
        } else if str_eq(value, "distill_material") {
            Some(SessionIntent::DistillMaterial)
        } else if str_eq(value, "deepen_understanding") {
            Some(SessionIntent::DeepenUnderstanding)
        } else if str_eq(value, "compose_output") {
            Some(SessionIntent::ComposeOutput)
        } else {
            None
        }
    }
}

/// Reading an action type's wire name gives the action type back.
pub proof fn lemma_action_type_round_trip(a: SessionActionType)
    ensures
        action_type_of(action_type_name(a)) == Some(a),
{
    reveal_strlit("direct_reply");
    reveal_strlit("request_clarification");
    reveal_strlit("tool_call");
    reveal_strlit("skill_call");
    reveal_strlit("create_run");
    reveal_strlit("stop");
    assert("request_clarification"@[0] != "direct_reply"@[0]);
    assert("tool_call"@.len() != "direct_reply"@.len());
    assert("tool_call"@.len() != "request_clarification"@.len());
    assert("skill_call"@.len() != "direct_reply"@.len());
    assert("skill_call"@.len() != "request_clarification"@.len());
    assert("skill_call"@[0] != "tool_call"@[0]);
    assert("create_run"@.len() != "direct_reply"@.len());
    assert("create_run"@.len() != "request_clarification"@.len());
    assert("create_run"@.len() != "tool_call"@.len());
    assert("create_run"@[0] != "skill_call"@[0]);
    assert("stop"@.len() != "direct_reply"@.len());
    assert("stop"@.len() != "request_clarification"@.len());
    assert("stop"@.len() != "tool_call"@.len());
    assert("stop"@.len() != "skill_call"@.len());
    assert("stop"@.len() != "create_run"@.len());
}

/// Reading an intent's wire name gives the intent back.
pub proof fn lemma_intent_round_trip(i: SessionIntent)
    ensures
        intent_of(intent_name(i)) == Some(i),
{
    reveal_strlit("general_reply");
    reveal_strlit("llm_direct_reply");
    reveal_strlit("distill_material");
    reveal_strlit("deepen_understanding");
    reveal_strlit("compose_output");
    assert("distill_material"@.len() != "general_reply"@.len());
    assert("distill_material"@[0] != "llm_direct_reply"@[0]);
    assert("deepen_understanding"@.len() != "general_reply"@.len());
    assert("deepen_understanding"@.len() != "llm_direct_reply"@.len());
    assert("deepen_understanding"@.len() != "distill_material"@.len());
    assert("compose_output"@.len() != "general_reply"@.len());
    assert("compose_output"@.len() != "llm_direct_reply"@.len());
    assert("compose_output"@.len() != "distill_material"@.len());
    assert("compose_output"@.len() != "deepen_understanding"@.len());
}

/// A name that reads as an action type is that action type's wire name.
pub proof fn lemma_action_type_names_exact(name: Seq<char>)
    ensures
        action_type_of(name) matches Some(a) ==> action_type_name(a) == name,
{
}

/// The request to start a run of the given type.
#[derive(Debug, Clone, PartialEq, Eq)]
pub struct RunCreationRequest {
    pub run_type: String,
    pub reasoning_summary: Option<String>,
}

/// The next action with what it needs.
#[derive(Debug, Clone, PartialEq, Eq)]
pub enum SessionNextAction {
    DirectReply,
    RequestClarification,
    ToolCall(ToolInvocation),
    SkillCall(SkillSelection),
    CreateRun(RunCreationRequest),
    Stop,
}

/// What the session agent decides on: the session, its recent timeline and
/// the current turn.
#[derive(Debug, Clone)]
pub struct SessionAgentInput {
    pub session: Session,
    pub recent_messages: Vec<SessionMessage>,
    pub intake: SessionIntake,
}

/// The planner's decision for the current turn.
#[derive(Debug, Clone)]
pub struct SessionAgentDecision {
    pub intent: SessionIntent,
    pub primary_object_type: Option<String>,
    pub primary_object_id: Option<String>,
    pub action_type: SessionActionType,
    pub next_action: SessionNextAction,
    pub tool_invocation: Option<ToolInvocation>,
    pub skill_selection: Option<SkillSelection>,
    pub run_creation: Option<RunCreationRequest>,
    pub reply_text: String,
    pub suggested_run_type: Option<String>,
    pub session_summary: Option<String>,
    pub should_continue_planning: bool,
    pub failure_hint: Option<String>,
}

/// The model's raw reply beside the decision read from it.
#[derive(Debug, Clone)]
pub struct LlmSessionAgentDebugResult {
    pub raw_output: String,
    pub decision: SessionAgentDecision,
}

/// Whether a run request has the given run type and reasoning.
pub open spec fn run_request_is(r: RunCreationRequest, run_type: Seq<char>, reasoning: Option<Seq<char>>) -> bool {
    r.run_type@ == run_type && opt_view(r.reasoning_summary) == reasoning
}

/// Whether a tool invocation has the given tool, arguments, reasoning and
/// expected follow-up.
pub open spec fn invocation_is(
    t: ToolInvocation,
    tool_name: Seq<char>,
    arguments_json: Seq<char>,
    reasoning: Seq<char>,
    follow_up: Seq<char>,
) -> bool {
    &&& t.tool_name@ == tool_name
    &&& t.arguments_json@ == arguments_json
    &&& opt_view(t.reasoning_summary) == Some(reasoning)
    &&& opt_view(t.expected_follow_up) == Some(follow_up)
}

/// A decision that starts a run of `run_type`, with every field as given.
pub open spec fn run_decision_is(
    d: SessionAgentDecision,
    intent: SessionIntent,
    run_type: Seq<char>,
    reasoning: Seq<char>,
    reply: Seq<char>,
    summary: Seq<char>,
    object_type: Option<Seq<char>>,
    object_id: Option<Seq<char>>,
) -> bool {
    &&& d.intent == intent
    &&& opt_view(d.primary_object_type) == object_type
    &&& opt_view(d.primary_object_id) == object_id
    &&& d.action_type == SessionActionType::CreateRun
    &&& (d.next_action matches SessionNextAction::CreateRun(r) && run_request_is(r, run_type, Some(reasoning)))
    &&& d.tool_invocation is None
    &&& d.skill_selection is None
    &&& (d.run_creation matches Some(r) && run_request_is(r, run_type, Some(reasoning)))
    &&& d.reply_text@ == reply
    &&& opt_view(d.suggested_run_type) == Some(run_type)
    &&& opt_view(d.session_summary) == Some(summary)
    &&& d.should_continue_planning
    &&& opt_view(d.failure_hint) == Some("clarify_or_stop"@)
}

/// A general-reply decision that calls one tool, with every field as given.
pub open spec fn tool_decision_is(
    d: SessionAgentDecision,
    tool_name: Seq<char>,
    arguments_json: Seq<char>,
    reasoning: Seq<char>,
    follow_up: Seq<char>,
    reply: Seq<char>,
    summary: Seq<char>,
    object_type: Option<Seq<char>>,
    object_id: Option<Seq<char>>,
) -> bool {
    &&& d.intent == SessionIntent::GeneralReply
    &&& opt_view(d.primary_object_type) == object_type
    &&& opt_view(d.primary_object_id) == object_id
    &&& d.action_type == SessionActionType::ToolCall
    &&& (d.next_action matches SessionNextAction::ToolCall(t) && invocation_is(
        t,
        tool_name,
        arguments_json,
        reasoning,
        follow_up,
    ))
    &&& (d.tool_invocation matches Some(t) && invocation_is(t, tool_name, arguments_json, reasoning, follow_up))
    &&& d.skill_selection is None
    &&& d.run_creation is None
    &&& d.reply_text@ == reply
    &&& d.suggested_run_type is None
    &&& opt_view(d.session_summary) == Some(summary)
    &&& d.should_continue_planning
    &&& opt_view(d.failure_hint) == Some("reply_or_clarify"@)
}

/// A plain general reply with nothing to do afterwards.
pub open spec fn reply_decision_is(
    d: SessionAgentDecision,
    reply: Seq<char>,
    summary: Seq<char>,
    object_type: Option<Seq<char>>,
    object_id: Option<Seq<char>>,
) -> bool {
    &&& d.intent == SessionIntent::GeneralReply
    &&& opt_view(d.primary_object_type) == object_type
    &&& opt_view(d.primary_object_id) == object_id
    &&& d.action_type == SessionActionType::DirectReply
    &&& d.next_action == SessionNextAction::DirectReply
    &&& d.tool_invocation is None
    &&& d.skill_selection is None
    &&& d.run_creation is None
    &&& d.reply_text@ == reply
    &&& d.suggested_run_type is None
    &&& opt_view(d.session_summary) == Some(summary)
    &&& !d.should_continue_planning
    &&& d.failure_hint is None
}

fn opt_owned(s: &str) -> (r: Option<String>)
    ensures
        opt_view(r) == Some(s@),
{
    Some(owned(s))
}

fn run_request(run_type: &str, reasoning: &str) -> (r: RunCreationRequest)
    ensures
        run_request_is(r, run_type@, Some(reasoning@)),
{
    RunCreationRequest { run_type: owned(run_type), reasoning_summary: opt_owned(reasoning) }
}

fn run_decision(
    intent: SessionIntent,
    run_type: &str,
    reasoning: &str,
    reply: &str,
    summary: &str,
    object_type: Option<String>,
    object_id: Option<String>,
) -> (d: SessionAgentDecision)
    ensures
        run_decision_is(d, intent, run_type@, reasoning@, reply@, summary@, opt_view(object_type), opt_view(object_id)),
{
    SessionAgentDecision {
        intent,
        primary_object_type: object_type,
        primary_object_id: object_id,
        action_type: SessionActionType::CreateRun,
        next_action: SessionNextAction::CreateRun(run_request(run_type, reasoning)),
        tool_invocation: None,
        skill_selection: None,
        run_creation: Some(run_request(run_type, reasoning)),
        reply_text: owned(reply),
        suggested_run_type: opt_owned(run_type),
        session_summary: opt_owned(summary),
        should_continue_planning: true,
        failure_hint: opt_owned("clarify_or_stop"),
    }
}

fn tool_decision(
    invocation: ToolInvocation,
    reply: &str,
    summary: &str,
    object_type: Option<String>,
    object_id: Option<String>,
) -> (d: SessionAgentDecision)
    ensures
        d.next_action == SessionNextAction::ToolCall(invocation),
        d.tool_invocation == Some(invocation),
        d.intent == SessionIntent::GeneralReply,
        opt_view(d.primary_object_type) == opt_view(object_type),
        opt_view(d.primary_object_id) == opt_view(object_id),
        d.action_type == SessionActionType::ToolCall,
        d.skill_selection is None,
        d.run_creation is None,
        d.reply_text@ == reply@,
        d.suggested_run_type is None,
        opt_view(d.session_summary) == Some(summary@),
        d.should_continue_planning,
        opt_view(d.failure_hint) == Some("reply_or_clarify"@),
{
    SessionAgentDecision {
        intent: SessionIntent::GeneralReply,
        primary_object_type: object_type,
        primary_object_id: object_id,
        action_type: SessionActionType::ToolCall,
        next_action: SessionNextAction::ToolCall(invocation.duplicate()),
        tool_invocation: Some(invocation),
        skill_selection: None,
        run_creation: None,
        reply_text: owned(reply),
        suggested_run_type: None,
        session_summary: opt_owned(summary),
        should_continue_planning: true,
        failure_hint: opt_owned("reply_or_clarify"),
    }
}

/// Which rule of the keyword planner applies to a turn.
#[derive(Debug, Clone, Copy, PartialEq, Eq, Structural)]
pub enum BasicRoute {
    Distill,
    ListAttachments,
    ReadText,
    ReadExcerpt,
    WebFetch,
    Deepen,
    Compose,
    Reply,
}

/// Whether the lowercased message `m` contains `word`.
pub open spec fn mentions(m: Seq<char>, word: Seq<char>) -> bool {
    contains_text(m, word)
}

/// The turn asks to bring material in and distill it.
pub open spec fn asks_to_distill(m: Seq<char>, has_attachments: bool, has_url: bool) -> bool {
    ||| mentions(m, "import"@)
    ||| mentions(m, "upload"@)
    ||| mentions(m, "bring in"@)
    ||| mentions(m, "load these"@)
    ||| mentions(m, "here are my notes"@)
    ||| mentions(m, "these files"@)
    ||| mentions(m, "distill them"@)
    ||| mentions(m, "distillation run"@)
    ||| (mentions(m, "distill"@) && mentions(m, "work notes"@))
    ||| (mentions(m, "distill"@) && has_url)
    ||| (has_attachments && (mentions(m, "distill"@) || mentions(m, "提炼"@) || mentions(m, "提取"@)))
}

/// The turn asks which attachments there are.
pub open spec fn asks_for_attachment_list(m: Seq<char>, has_attachments: bool) -> bool {
    &&& has_attachments
    &&& (mentions(m, "attachment"@) || mentions(m, "attachments"@) || mentions(m, "附件"@))
    &&& (mentions(m, "available"@) || mentions(m, "which"@) || mentions(m, "list"@) || mentions(
        m,
        "有哪些"@,
    ) || mentions(m, "哪些"@))
}

/// The turn asks to read an attachment's text.
pub open spec fn asks_to_read_attachment(m: Seq<char>, has_attachments: bool) -> bool {
    &&& has_attachments
    &&& (mentions(m, "read"@) || mentions(m, "open"@) || mentions(m, "text"@) || mentions(m, "内容"@)
        || mentions(m, "读取"@))
    &&& (mentions(m, "attachment"@) || mentions(m, "file"@) || mentions(m, "附件"@))
}

/// The turn asks what an attachment contains.
pub open spec fn asks_about_attachment(m: Seq<char>, has_attachments: bool) -> bool {
    &&& has_attachments
    &&& (mentions(m, "attachment"@) || mentions(m, "file"@) || mentions(m, "路径"@) || mentions(
        m,
        "附件"@,
    ))
    &&& (mentions(m, "inside"@) || mentions(m, "content"@) || mentions(m, "contains"@) || mentions(
        m,
        "what is"@,
    ) || mentions(m, "内容"@) || mentions(m, "里面"@) || mentions(m, "是什么"@))
}

/// The turn asks to deepen the current topic.
pub open spec fn asks_to_deepen(m: Seq<char>) -> bool {
    mentions(m, "deepen"@) || mentions(m, "follow-up"@) || mentions(m, "clarify"@) || mentions(
        m,
        "ask questions"@,
    )
}

/// The turn asks for a written output.
pub open spec fn asks_to_compose(m: Seq<char>) -> bool {
    mentions(m, "write"@) || mentions(m, "summary"@) || mentions(m, "article"@) || mentions(
        m,
        "report"@,
    ) || mentions(m, "compose"@)
}

/// The first URL in the user's message, as written.
pub open spec fn message_url(input: SessionAgentInput) -> Option<Seq<char>> {
    first_url(words(input.intake.user_message@))
}

/// The rule that applies to a turn whose lowercased message is `m`: the
/// first of distill, attachment list, attachment read, attachment content,
/// web fetch, deepen and compose that matches, else a plain reply.
pub open spec fn basic_route(input: SessionAgentInput, m: Seq<char>) -> BasicRoute {
    let att = input.intake.attachments@.len() > 0;
    let url = message_url(input) is Some;
    if asks_to_distill(m, att, url) {
        BasicRoute::Distill
    } else if asks_for_attachment_list(m, att) {
        BasicRoute::ListAttachments
    } else if asks_to_read_attachment(m, att) {
        BasicRoute::ReadText
    } else if asks_about_attachment(m, att) {
        BasicRoute::ReadExcerpt
    } else if url {
        BasicRoute::WebFetch
    } else if asks_to_deepen(m) {
        BasicRoute::Deepen
    } else if asks_to_compose(m) {
        BasicRoute::Compose
    } else {
        BasicRoute::Reply
    }
}

fn mentions_word(m: &Vec<char>, word: &str) -> (r: bool)
    ensures
        r == mentions(m@, word@),
{
    contains_str(m, word)
}

fn route_of(input: &SessionAgentInput, m: &Vec<char>, has_url: bool) -> (r: BasicRoute)
    requires
        has_url == (message_url(*input) is Some),
    ensures
        r == basic_route(*input, m@),
{
    let att = input.intake.attachments.len() > 0;
    let distill = mentions_word(m, "import") || mentions_word(m, "upload") || mentions_word(
        m,
        "bring in",
    ) || mentions_word(m, "load these") || mentions_word(m, "here are my notes")
        || mentions_word(m, "these files") || mentions_word(m, "distill them") || mentions_word(
        m,
        "distillation run",
    ) || (mentions_word(m, "distill") && mentions_word(m, "work notes")) || (mentions_word(
        m,
        "distill",
    ) && has_url) || (att && (mentions_word(m, "distill") || mentions_word(m, "提炼")
        || mentions_word(m, "提取")));
    if distill {
        return BasicRoute::Distill;
    }
    if att && (mentions_word(m, "attachment") || mentions_word(m, "attachments") || mentions_word(
        m,
        "附件",
    )) && (mentions_word(m, "available") || mentions_word(m, "which") || mentions_word(m, "list")
        || mentions_word(m, "有哪些") || mentions_word(m, "哪些")) {
        return BasicRoute::ListAttachments;
    }
    if att && (mentions_word(m, "read") || mentions_word(m, "open") || mentions_word(m, "text")
        || mentions_word(m, "内容") || mentions_word(m, "读取")) && (mentions_word(m, "attachment")
        || mentions_word(m, "file") || mentions_word(m, "附件")) {
        return BasicRoute::ReadText;
    }
    if att && (mentions_word(m, "attachment") || mentions_word(m, "file") || mentions_word(m, "路径")
        || mentions_word(m, "附件")) && (mentions_word(m, "inside") || mentions_word(m, "content")
        || mentions_word(m, "contains") || mentions_word(m, "what is") || mentions_word(m, "内容")
        || mentions_word(m, "里面") || mentions_word(m, "是什么")) {
        return BasicRoute::ReadExcerpt;
    }
    if has_url {
        return BasicRoute::WebFetch;
    }
    if mentions_word(m, "deepen") || mentions_word(m, "follow-up") || mentions_word(m, "clarify")
        || mentions_word(m, "ask questions") {
        return BasicRoute::Deepen;
    }
    if mentions_word(m, "write") || mentions_word(m, "summary") || mentions_word(m, "article")
        || mentions_word(m, "report") || mentions_word(m, "compose") {
        return BasicRoute::Compose;
    }
    BasicRoute::Reply
}

/// The arguments of the `read_text` call the keyword planner makes.
pub const READ_TEXT_ARGUMENTS: &'static str = "{\"attachment_index\":0,\"max_chars\":1200}";

/// The arguments of a `read_attachment_excerpt` call on the first attachment,
/// keys in `serde_json`'s sorted order.
pub open spec fn excerpt_arguments(attachment_id: Seq<char>) -> Seq<char> {
    "{\"attachment_id\":"@ + json_string_literal(attachment_id) + ",\"attachment_index\":0,\"max_chars\":400}"@
}

/// The arguments of a `web_fetch` call on `url`, keys in `serde_json`'s
/// sorted order.
pub open spec fn web_fetch_arguments(url: Seq<char>) -> Seq<char> {
    "{\"max_chars\":4000,\"url\":"@ + json_string_literal(url) + "}"@
}

/// A session's current object field, `none` meaning absent.
pub open spec fn object_field(s: Seq<char>) -> Option<Seq<char>> {
    if s == "none"@ {
        None
    } else {
        Some(s)
    }
}

/// The decision the keyword planner makes for a turn whose lowercased
/// message is `m`.
pub open spec fn basic_decision_is(d: SessionAgentDecision, input: SessionAgentInput, m: Seq<char>) -> bool {
    let ot = object_field(input.session.current_object_type@);
    let oi = object_field(input.session.current_object_id@);
    match basic_route(input, m) {
        BasicRoute::Distill => run_decision_is(
            d,
            SessionIntent::DistillMaterial,
            "import_and_distill"@,
            "Distill material should enter the import_and_distill workflow."@,
            "I will start a distill run for this work material."@,
            "Preparing to distill work material"@,
            if ot is None { Some("material"@) } else { ot },
            oi,
        ),
        BasicRoute::ListAttachments => tool_decision_is(
            d,
            "list_attachments"@,
            "{}"@,
            "Need to inspect the current attachment list before answering."@,
            "Summarize which attachments are available."@,
            "I will inspect the current attachments before answering."@,
            "Preparing an attachment lookup before answering"@,
            ot,
            oi,
        ),
        BasicRoute::ReadText => tool_decision_is(
            d,
            "read_text"@,
            READ_TEXT_ARGUMENTS@,
            "Need to read the current attachment text before answering."@,
            "Use the text content to answer directly."@,
            "I will read the current attachment before answering."@,
            "Preparing to read the current attachment before answering"@,
            ot,
            oi,
        ),
        BasicRoute::ReadExcerpt => tool_decision_is(
            d,
            "read_attachment_excerpt"@,
            excerpt_arguments(input.intake.attachments@[0].attachment_id@),
            "The user is asking about the contents of the current attachment."@,
            "Use the excerpt to answer what the attachment contains."@,
            "I will inspect the current attachment before answering."@,
            "Preparing to inspect the current attachment before answering"@,
            ot,
            oi,
        ),
        BasicRoute::WebFetch => tool_decision_is(
            d,
            "web_fetch"@,
            web_fetch_arguments(message_url(input).unwrap()),
            "Need to inspect the referenced webpage before answering."@,
            "Use the fetched page content to answer the user's question."@,
            "I will fetch the webpage before answering."@,
            "Preparing a web fetch before answering"@,
            ot,
            oi,
        ),
        BasicRoute::Deepen => run_decision_is(
            d,
            SessionIntent::DeepenUnderstanding,
            "deepening"@,
            "This request needs a deepening workflow."@,
            "I will start a deepening run to explore this topic further."@,
            "Preparing to deepen understanding"@,
            ot,
            oi,
        ),
        BasicRoute::Compose => run_decision_is(
            d,
            SessionIntent::ComposeOutput,
            "compose_and_verify"@,
            "This output request should enter the compose_and_verify workflow."@,
            "I will prepare a compose and verify run for this output request."@,
            "Preparing to compose an output"@,
            ot,
            oi,
        ),
        BasicRoute::Reply => reply_decision_is(
            d,
            "Hello! I am ready to help with your Distilllab session."@,
            "General session assistance"@,
            ot,
            oi,
        ),
    }
}

/// What the keyword planner does, rule by rule, in terms of the words the
/// lowercased message `m` mentions: the first matching rule decides, in the
/// order distill, attachment list, attachment read, attachment content, web
/// fetch (the message holds a URL), deepen, compose, and otherwise a plain
/// reply.
pub proof fn lemma_keyword_routes(input: SessionAgentInput, m: Seq<char>, d: SessionAgentDecision)
    requires
        basic_decision_is(d, input, m),
    ensures
        ((contains_text(m, "import"@) || contains_text(m, "upload"@) || contains_text(m, "bring in"@) || contains_text(m, "load these"@) || contains_text(m, "here are my notes"@) || contains_text(m, "these files"@) || contains_text(m, "distill them"@) || contains_text(m, "distillation run"@) || (contains_text(m, "distill"@) && contains_text(m, "work notes"@)) || (contains_text(m, "distill"@) && message_url(input) is Some) || (input.intake.attachments@.len() > 0 && (contains_text(m, "distill"@) || contains_text(m, "提炼"@) || contains_text(m, "提取"@))))) ==> (d.intent == SessionIntent::DistillMaterial && d.action_type == SessionActionType::CreateRun && opt_view(d.suggested_run_type) == Some("import_and_distill"@)),
        (!asks_to_distill(m, input.intake.attachments@.len() > 0, message_url(input) is Some) && input.intake.attachments@.len() > 0 && (contains_text(m, "attachment"@) || contains_text(m, "attachments"@) || contains_text(m, "附件"@)) && (contains_text(m, "available"@) || contains_text(m, "which"@) || contains_text(m, "list"@) || contains_text(m, "有哪些"@) || contains_text(m, "哪些"@))) ==> (d.intent == SessionIntent::GeneralReply && d.action_type == SessionActionType::ToolCall && (d.tool_invocation matches Some(t) && t.tool_name@ == "list_attachments"@)),
        (!asks_to_distill(m, input.intake.attachments@.len() > 0, message_url(input) is Some) && !asks_for_attachment_list(m, input.intake.attachments@.len() > 0) && input.intake.attachments@.len() > 0 && (contains_text(m, "read"@) || contains_text(m, "open"@) || contains_text(m, "text"@) || contains_text(m, "内容"@) || contains_text(m, "读取"@)) && (contains_text(m, "attachment"@) || contains_text(m, "file"@) || contains_text(m, "附件"@))) ==> (d.intent == SessionIntent::GeneralReply && d.action_type == SessionActionType::ToolCall && (d.tool_invocation matches Some(t) && t.tool_name@ == "read_text"@)),
        (!asks_to_distill(m, input.intake.attachments@.len() > 0, message_url(input) is Some) && !asks_for_attachment_list(m, input.intake.attachments@.len() > 0) && !asks_to_read_attachment(m, input.intake.attachments@.len() > 0) && input.intake.attachments@.len() > 0 && (contains_text(m, "attachment"@) || contains_text(m, "file"@) || contains_text(m, "路径"@) || contains_text(m, "附件"@)) && (contains_text(m, "inside"@) || contains_text(m, "content"@) || contains_text(m, "contains"@) || contains_text(m, "what is"@) || contains_text(m, "内容"@) || contains_text(m, "里面"@) || contains_text(m, "是什么"@))) ==> (d.intent == SessionIntent::GeneralReply && d.action_type == SessionActionType::ToolCall && (d.tool_invocation matches Some(t) && t.tool_name@ == "read_attachment_excerpt"@)),
        (!asks_to_distill(m, input.intake.attachments@.len() > 0, message_url(input) is Some) && !asks_for_attachment_list(m, input.intake.attachments@.len() > 0) && !asks_to_read_attachment(m, input.intake.attachments@.len() > 0) && !asks_about_attachment(m, input.intake.attachments@.len() > 0) && message_url(input) is Some) ==> (d.intent == SessionIntent::GeneralReply && d.action_type == SessionActionType::ToolCall && (d.tool_invocation matches Some(t) && t.tool_name@ == "web_fetch"@)),
        (!asks_to_distill(m, input.intake.attachments@.len() > 0, message_url(input) is Some) && !asks_for_attachment_list(m, input.intake.attachments@.len() > 0) && !asks_to_read_attachment(m, input.intake.attachments@.len() > 0) && !asks_about_attachment(m, input.intake.attachments@.len() > 0) && message_url(input) is None && (contains_text(m, "deepen"@) || contains_text(m, "follow-up"@) || contains_text(m, "clarify"@) || contains_text(m, "ask questions"@))) ==> (d.intent == SessionIntent::DeepenUnderstanding && d.action_type == SessionActionType::CreateRun && opt_view(d.suggested_run_type) == Some("deepening"@)),
        (!asks_to_distill(m, input.intake.attachments@.len() > 0, message_url(input) is Some) && !asks_for_attachment_list(m, input.intake.attachments@.len() > 0) && !asks_to_read_attachment(m, input.intake.attachments@.len() > 0) && !asks_about_attachment(m, input.intake.attachments@.len() > 0) && message_url(input) is None && !asks_to_deepen(m) && (contains_text(m, "write"@) || contains_text(m, "summary"@) || contains_text(m, "article"@) || contains_text(m, "report"@) || contains_text(m, "compose"@))) ==> (d.intent == SessionIntent::ComposeOutput && d.action_type == SessionActionType::CreateRun && opt_view(d.suggested_run_type) == Some("compose_and_verify"@)),
        (!asks_to_distill(m, input.intake.attachments@.len() > 0, message_url(input) is Some) && !asks_for_attachment_list(m, input.intake.attachments@.len() > 0) && !asks_to_read_attachment(m, input.intake.attachments@.len() > 0) && !asks_about_attachment(m, input.intake.attachments@.len() > 0) && message_url(input) is None && !asks_to_deepen(m) && !asks_to_compose(m)) ==> (d.intent == SessionIntent::GeneralReply && d.action_type == SessionActionType::DirectReply && d.run_creation is None && d.tool_invocation is None),
{
}

fn session_object_field(s: &String) -> (r: Option<String>)
    ensures
        opt_view(r) == object_field(s@),
{
    if str_eq(s.as_str(), "none") {
        None
    } else {
        Some(copy_string(s))
    }
}

/// The keyword planner's decision for a turn, given the user's message
/// already lowercased (`normalized_message`).
pub fn basic_decision(input: &SessionAgentInput, normalized_message: &str) -> (d: SessionAgentDecision)
    ensures
        basic_decision_is(d, *input, normalized_message@),
{
    let m = chars_of(normalized_message);
    let url = extract_first_url(input.intake.user_message.as_str());
    let route = route_of(input, &m, url.is_some());
    let object_type = session_object_field(&input.session.current_object_type);
    let object_id = session_object_field(&input.session.current_object_id);
    match route {
        BasicRoute::Distill => {
            let ghost field = object_field(input.session.current_object_type@);
            let ot = match object_type {
                Some(t) => Some(t),
                None => opt_owned("material"),
            };
            assert(opt_view(ot) == (if field is None { Some("material"@) } else { field }));
            let d = run_decision(
                SessionIntent::DistillMaterial,
                "import_and_distill",
                "Distill material should enter the import_and_distill workflow.",
                "I will start a distill run for this work material.",
                "Preparing to distill work material",
                ot,
                object_id,
            );
            d
        },
        BasicRoute::ListAttachments => {
            let t = ToolInvocation::new("list_attachments").with_reasoning(
                "Need to inspect the current attachment list before answering.",
            ).with_expected_follow_up("Summarize which attachments are available.");
            tool_decision(
                t,
                "I will inspect the current attachments before answering.",
                "Preparing an attachment lookup before answering",
                object_type,
                object_id,
            )
        },
        BasicRoute::ReadText => {
            let t = ToolInvocation::with_args("read_text", READ_TEXT_ARGUMENTS).with_reasoning(
                "Need to read the current attachment text before answering.",
            ).with_expected_follow_up("Use the text content to answer directly.");
            tool_decision(
                t,
                "I will read the current attachment before answering.",
                "Preparing to read the current attachment before answering",
                object_type,
                object_id,
            )
        },
        BasicRoute::ReadExcerpt => {
            let first = &input.intake.attachments[0];
            let mut args = owned("{\"attachment_id\":");
            let quoted = json_quote(first.attachment_id.as_str());
            push_str(&mut args, quoted.as_str());
            push_str(&mut args, ",\"attachment_index\":0,\"max_chars\":400}");
            assert(args@ =~= excerpt_arguments(first.attachment_id@));
            let t = ToolInvocation::with_args("read_attachment_excerpt", args.as_str()).with_reasoning(
                "The user is asking about the contents of the current attachment.",
            ).with_expected_follow_up("Use the excerpt to answer what the attachment contains.");
            tool_decision(
                t,
                "I will inspect the current attachment before answering.",
                "Preparing to inspect the current attachment before answering",
                object_type,
                object_id,
            )
        },
        BasicRoute::WebFetch => {
            let u = match url {
                Some(u) => u,
                None => String::new(),
            };
            let mut args = owned("{\"max_chars\":4000,\"url\":");
            let quoted = json_quote(u.as_str());
            push_str(&mut args, quoted.as_str());
            push_str(&mut args, "}");
            assert(args@ =~= web_fetch_arguments(u@));
            let t = ToolInvocation::with_args("web_fetch", args.as_str()).with_reasoning(
                "Need to inspect the referenced webpage before answering.",
            ).with_expected_follow_up("Use the fetched page content to answer the user's question.");
            tool_decision(
                t,
                "I will fetch the webpage before answering.",
                "Preparing a web fetch before answering",
                object_type,
                object_id,
            )
        },
        BasicRoute::Deepen => run_decision(
            SessionIntent::DeepenUnderstanding,
            "deepening",
            "This request needs a deepening workflow.",
            "I will start a deepening run to explore this topic further.",
            "Preparing to deepen understanding",
            object_type,
            object_id,
        ),
        BasicRoute::Compose => run_decision(
            SessionIntent::ComposeOutput,
            "compose_and_verify",
            "This output request should enter the compose_and_verify workflow.",
            "I will prepare a compose and verify run for this output request.",
            "Preparing to compose an output",
            object_type,
            object_id,
        ),
        BasicRoute::Reply => SessionAgentDecision {
            intent: SessionIntent::GeneralReply,
            primary_object_type: object_type,
            primary_object_id: object_id,
            action_type: SessionActionType::DirectReply,
            next_action: SessionNextAction::DirectReply,
            tool_invocation: None,
            skill_selection: None,
            run_creation: None,
            reply_text: owned("Hello! I am ready to help with your Distilllab session."),
            suggested_run_type: None,
            session_summary: opt_owned("General session assistance"),
            should_continue_planning: false,
            failure_hint: None,
        },
    }
}

/// The keyword-based session planner.
pub struct BasicSessionAgent;

impl BasicSessionAgent {
    /// Decides the next action for a turn by keyword rules over the user's
    /// message, lowercased with `str::to_lowercase`; it never fails.
    pub fn decide(&self, input: SessionAgentInput) -> (r: Result<SessionAgentDecision, AgentError>)
        ensures
            r matches Ok(d) && basic_decision_is(d, input, lowercase(input.intake.user_message@)),
            is_ascii_text(input.intake.user_message@) ==> (r matches Ok(d) && basic_decision_is(
                d,
                input,
                input.intake.user_message@.map_values(|c: char| ascii_lower(c)),
            )),
    {
        let normalized = to_lowercase(input.intake.user_message.as_str());
        Ok(basic_decision(&input, normalized.as_str()))
    }
}

/// The planner's reply as the model wrote it, field by field, before it is
/// checked.
#[derive(Debug, Clone)]
pub struct StructuredSessionAgentDecision {
    pub intent: String,
    pub action_type: String,
    pub tool_call_key: Option<String>,
    pub tool_invocation: Option<ToolInvocation>,
    pub skill_selection: Option<SkillSelection>,
    pub reply_text: String,
    pub primary_object_type: Option<String>,
    pub primary_object_id: Option<String>,
    pub suggested_run_type: Option<String>,
    pub session_summary: Option<String>,
    pub should_continue_planning: Option<bool>,
    pub failure_hint: Option<String>,
}

/// A tool invocation by the views of its fields.
pub open spec fn tool_view(t: ToolInvocation) -> (Seq<char>, Seq<char>, Option<Seq<char>>, Option<Seq<char>>) {
    (t.tool_name@, t.arguments_json@, opt_view(t.reasoning_summary), opt_view(t.expected_follow_up))
}

/// The tool a structured reply asks for: its `tool_invocation`, else its
/// older `tool_call_key` with the arguments `{}`.
pub open spec fn requested_tool(p: StructuredSessionAgentDecision) -> Option<
    (Seq<char>, Seq<char>, Option<Seq<char>>, Option<Seq<char>>),
> {
    match p.tool_invocation {
        Some(t) => Some(tool_view(t)),
        None => match p.tool_call_key {
            Some(k) => Some((k@, "{}"@, None, None)),
            None => None,
        },
    }
}

/// Whether an action type expects another planning turn by default.
pub open spec fn continues_by_default(a: SessionActionType) -> bool {
    a == SessionActionType::ToolCall || a == SessionActionType::CreateRun || a
        == SessionActionType::RequestClarification
}

/// Whether a run type is one the session may start.
pub open spec fn is_known_run_type(t: Seq<char>) -> bool {
    t == "import_and_distill"@ || t == "deepening"@ || t == "compose_and_verify"@
}

/// Whether a structured reply is accepted: both names are known, and the
/// action carries exactly what it needs (a tool for a tool call; a skill and
/// nothing else for a skill call; a known run type and nothing else for a
/// run; nothing for the other actions).
pub open spec fn structured_accepted(p: StructuredSessionAgentDecision) -> bool {
    let tool = requested_tool(p) is Some;
    let skill = p.skill_selection is Some;
    let run = p.suggested_run_type is Some;
    &&& intent_of(p.intent@) is Some
    &&& action_type_of(p.action_type@) is Some
    &&& match action_type_of(p.action_type@).unwrap() {
        SessionActionType::ToolCall => tool,
        SessionActionType::SkillCall => skill && !tool && !run,
        SessionActionType::CreateRun => run && !tool && !skill && is_known_run_type(
            p.suggested_run_type.unwrap()@,
        ),
        _ => !tool && !skill && !run,
    }
}

/// Whether a structured reply is a distill intent answered directly, which
/// the planner turns into an import-and-distill run.
pub open spec fn distill_reply_promoted(p: StructuredSessionAgentDecision) -> bool {
    intent_of(p.intent@) == Some(SessionIntent::DistillMaterial) && action_type_of(p.action_type@)
        == Some(SessionActionType::DirectReply)
}

/// When the model's reply leaves `should_continue_planning` out, the
/// decision asks for another planning turn exactly when it calls a tool,
/// creates a run or requests clarification; when the reply gives it, the
/// decision keeps it (unless a direct distill reply was turned into a run,
/// which always continues).
pub proof fn lemma_structured_planning_default(p: StructuredSessionAgentDecision, d: SessionAgentDecision)
    requires
        structured_accepted(p),
        structured_decision_is(d, p),
    ensures
        p.should_continue_planning is None ==> d.should_continue_planning == (d.action_type
            == SessionActionType::ToolCall || d.action_type == SessionActionType::CreateRun || d.action_type
            == SessionActionType::RequestClarification),
        p.should_continue_planning is Some && !distill_reply_promoted(p) ==> d.should_continue_planning
            == p.should_continue_planning.unwrap(),
        distill_reply_promoted(p) ==> d.should_continue_planning,
{
}

/// A reply that only answers, asks for clarification or stops, with a known
/// intent and no tool, skill or run, is accepted.
pub proof fn lemma_plain_structured_reply_accepted(p: StructuredSessionAgentDecision)
    requires
        intent_of(p.intent@) is Some,
        p.action_type@ == "direct_reply"@ || p.action_type@ == "request_clarification"@ || p.action_type@
            == "stop"@,
        p.tool_invocation is None,
        p.tool_call_key is None,
        p.skill_selection is None,
        p.suggested_run_type is None,
    ensures
        structured_accepted(p),
        action_type_of(p.action_type@) is Some,
{
    lemma_action_type_names_exact(p.action_type@);
    reveal_strlit("direct_reply");
    reveal_strlit("request_clarification");
    reveal_strlit("stop");
    reveal_strlit("tool_call");
    reveal_strlit("skill_call");
    reveal_strlit("create_run");
    assert(requested_tool(p) is None);
    if p.action_type@ == "direct_reply"@ {
        assert(action_type_of(p.action_type@) == Some(SessionActionType::DirectReply));
    } else if p.action_type@ == "request_clarification"@ {
        assert("request_clarification"@ != "direct_reply"@);
        assert(action_type_of(p.action_type@) == Some(SessionActionType::RequestClarification));
    } else {
        assert("stop"@.len() == 4);
        assert(action_type_of(p.action_type@) == Some(SessionActionType::Stop));
    }
}

/// The decision read from an accepted structured reply.
pub open spec fn structured_decision_is(d: SessionAgentDecision, p: StructuredSessionAgentDecision) -> bool {
    let a = action_type_of(p.action_type@).unwrap();
    let common = {
        &&& opt_view(d.primary_object_type) == opt_view(p.primary_object_type)
        &&& opt_view(d.primary_object_id) == opt_view(p.primary_object_id)
        &&& d.reply_text@ == p.reply_text@
        &&& opt_view(d.session_summary) == opt_view(p.session_summary)
    };
    if distill_reply_promoted(p) {
        &&& common
        &&& d.intent == SessionIntent::DistillMaterial
        &&& d.action_type == SessionActionType::CreateRun
        &&& (d.next_action matches SessionNextAction::CreateRun(r) && run_request_is(
            r,
            "import_and_distill"@,
            Some("Distill material should enter the import_and_distill workflow."@),
        ))
        &&& d.tool_invocation is None
        &&& d.skill_selection is None
        &&& (d.run_creation matches Some(r) && run_request_is(
            r,
            "import_and_distill"@,
            Some("Distill material should enter the import_and_distill workflow."@),
        ))
        &&& opt_view(d.suggested_run_type) == Some("import_and_distill"@)
        &&& d.should_continue_planning
        &&& opt_view(d.failure_hint) == Some("clarify_or_stop"@)
    } else {
        &&& common
        &&& Some(d.intent) == intent_of(p.intent@)
        &&& d.action_type == a
        &&& match d.tool_invocation {
            Some(t) => requested_tool(p) == Some(tool_view(t)),
            None => requested_tool(p) is None,
        }
        &&& d.skill_selection == p.skill_selection
        &&& match p.suggested_run_type {
            Some(t) => d.run_creation matches Some(r) && run_request_is(r, t@, None),
            None => d.run_creation is None,
        }
        &&& opt_view(d.suggested_run_type) == opt_view(p.suggested_run_type)
        &&& d.should_continue_planning == match p.should_continue_planning {
            Some(b) => b,
            None => continues_by_default(a),
        }
        &&& opt_view(d.failure_hint) == opt_view(p.failure_hint)
        &&& match a {
            SessionActionType::DirectReply => d.next_action == SessionNextAction::DirectReply,
            SessionActionType::RequestClarification => d.next_action
                == SessionNextAction::RequestClarification,
            SessionActionType::Stop => d.next_action == SessionNextAction::Stop,
            SessionActionType::ToolCall => d.next_action matches SessionNextAction::ToolCall(t)
                && requested_tool(p) == Some(tool_view(t)),
            SessionActionType::SkillCall => d.next_action matches SessionNextAction::SkillCall(s)
                && p.skill_selection == Some(s),
            SessionActionType::CreateRun => d.next_action matches SessionNextAction::CreateRun(r)
                && run_request_is(r, p.suggested_run_type.unwrap()@, None),
        }
    }
}

fn is_known_run(t: &Option<String>) -> (r: bool)
    ensures
        r == (t matches Some(s) && is_known_run_type(s@)),
{
    match t {
        Some(s) => str_eq(s.as_str(), "import_and_distill") || str_eq(s.as_str(), "deepening")
            || str_eq(s.as_str(), "compose_and_verify"),
        None => false,
    }
}

/// Reads a structured reply into a decision; `None` when the reply is not
/// accepted. A distill intent answered directly becomes an
/// import-and-distill run.
pub fn decision_from_structured(parsed: StructuredSessionAgentDecision) -> (r: Option<SessionAgentDecision>)
    ensures
        r is Some <==> structured_accepted(parsed),
        r matches Some(d) ==> structured_decision_is(d, parsed),
{
    let ghost p = parsed;
    let action_type = match parse_action_type(parsed.action_type.as_str()) {
        Some(a) => a,
        None => return None,
    };
    let intent = match SessionIntent::from_str(parsed.intent.as_str()) {
        Some(i) => i,
        None => return None,
    };
    let StructuredSessionAgentDecision {
        intent: _,
        action_type: _,
        tool_call_key,
        tool_invocation,
        skill_selection,
        reply_text,
        primary_object_type,
        primary_object_id,
        suggested_run_type,
        session_summary,
        should_continue_planning,
        failure_hint,
    } = parsed;
    let tool_invocation = match tool_invocation {
        Some(t) => Some(t),
        None => match tool_call_key {
            Some(k) => Some(ToolInvocation::new(k.as_str())),
            None => None,
        },
    };
    let has_tool = tool_invocation.is_some();
    let has_skill = skill_selection.is_some();
    let has_run = suggested_run_type.is_some();
    let next_action = match action_type {
        SessionActionType::DirectReply => SessionNextAction::DirectReply,
        SessionActionType::RequestClarification => SessionNextAction::RequestClarification,
        SessionActionType::Stop => SessionNextAction::Stop,
        SessionActionType::ToolCall => match &tool_invocation {
            Some(t) => SessionNextAction::ToolCall(t.duplicate()),
            None => return None,
        },
        SessionActionType::SkillCall => match &skill_selection {
            Some(s) => SessionNextAction::SkillCall(s.duplicate()),
            None => return None,
        },
        SessionActionType::CreateRun => match &suggested_run_type {
            Some(t) => SessionNextAction::CreateRun(
                RunCreationRequest { run_type: copy_string(t), reasoning_summary: None },
            ),
            None => return None,
        },
    };
    match action_type {
        SessionActionType::ToolCall => {},
        SessionActionType::SkillCall => {
            if has_tool || has_run {
                return None;
            }
        },
        SessionActionType::CreateRun => {
            if has_tool || has_skill {
                return None;
            }
        },
        _ => {
            if has_tool || has_skill || has_run {
                return None;
            }
        },
    }
    if intent == SessionIntent::DistillMaterial && action_type == SessionActionType::DirectReply {
        return Some(
            SessionAgentDecision {
                intent: SessionIntent::DistillMaterial,
                primary_object_type,
                primary_object_id,
                action_type: SessionActionType::CreateRun,
                next_action: SessionNextAction::CreateRun(
                    run_request(
                        "import_and_distill",
                        "Distill material should enter the import_and_distill workflow.",
                    ),
                ),
                tool_invocation: None,
                skill_selection: None,
                run_creation: Some(
                    run_request(
                        "import_and_distill",
                        "Distill material should enter the import_and_distill workflow.",
                    ),
                ),
                reply_text,
                suggested_run_type: opt_owned("import_and_distill"),
                session_summary,
                should_continue_planning: true,
                failure_hint: opt_owned("clarify_or_stop"),
            },
        );
    }
    if action_type == SessionActionType::CreateRun && !is_known_run(&suggested_run_type) {
        return None;
    }
    let run_creation = match &suggested_run_type {
        Some(t) => Some(RunCreationRequest { run_type: copy_string(t), reasoning_summary: None }),
        None => None,
    };
    let should_continue_planning = match should_continue_planning {
        Some(b) => b,
        None => action_type == SessionActionType::ToolCall || action_type
            == SessionActionType::CreateRun || action_type
            == SessionActionType::RequestClarification,
    };
    Some(
        SessionAgentDecision {
            intent,
            primary_object_type,
            primary_object_id,
            action_type,
            next_action,
            tool_invocation,
            skill_selection,
            run_creation,
            reply_text,
            suggested_run_type,
            session_summary,
            should_continue_planning,
            failure_hint,
        },
    )
}

/// The decision when the model answered in plain text: that text as a
/// direct reply.
pub fn fallback_direct_reply_decision(reply_text: &str) -> (d: SessionAgentDecision)
    ensures
        reply_decision_is(d, reply_text@, "LLM replied to the current session message"@, None, None),
{
    SessionAgentDecision {
        intent: SessionIntent::GeneralReply,
        primary_object_type: None,
        primary_object_id: None,
        action_type: SessionActionType::DirectReply,
        next_action: SessionNextAction::DirectReply,
        tool_invocation: None,
        skill_selection: None,
        run_creation: None,
        reply_text: owned(reply_text),
        suggested_run_type: None,
        session_summary: opt_owned("LLM replied to the current session message"),
        should_continue_planning: false,
        failure_hint: None,
    }
}

/// The reply of the clarification fallback.
pub const CLARIFICATION_REPLY: &'static str = "I need a bit more context before I can decide the next step for this session.";

/// The decision taken when the model's structured reply is not accepted.
pub open spec fn clarification_decision_is(d: SessionAgentDecision) -> bool {
    &&& d.intent == SessionIntent::GeneralReply
    &&& d.primary_object_type is None
    &&& d.primary_object_id is None
    &&& d.action_type == SessionActionType::RequestClarification
    &&& d.next_action == SessionNextAction::RequestClarification
    &&& d.tool_invocation is None
    &&& d.skill_selection is None
    &&& d.run_creation is None
    &&& d.reply_text@ == CLARIFICATION_REPLY@
    &&& d.suggested_run_type is None
    &&& opt_view(d.session_summary) == Some("Requesting clarification for the current session turn"@)
    &&& d.should_continue_planning
    &&& opt_view(d.failure_hint) == Some("clarify_or_stop"@)
}

/// The safe decision when the model's structured reply cannot be used: ask
/// the user for more context.
pub fn fallback_clarification_decision() -> (d: SessionAgentDecision)
    ensures
        clarification_decision_is(d),
{
    SessionAgentDecision {
        intent: SessionIntent::GeneralReply,
        primary_object_type: None,
        primary_object_id: None,
        action_type: SessionActionType::RequestClarification,
        next_action: SessionNextAction::RequestClarification,
        tool_invocation: None,
        skill_selection: None,
        run_creation: None,
        reply_text: owned(CLARIFICATION_REPLY),
        suggested_run_type: None,
        session_summary: opt_owned("Requesting clarification for the current session turn"),
        should_continue_planning: true,
        failure_hint: opt_owned("clarify_or_stop"),
    }
}

/// Whether a reply looks like a JSON object: its first non-whitespace
/// character is `{`.
pub open spec fn looks_structured(raw: Seq<char>) -> bool {
    trim_start(raw).len() > 0 && trim_start(raw)[0] == '{'
}

fn starts_with_brace(raw: &str) -> (r: bool)
    ensures
        r == looks_structured(raw@),
{
    let v = chars_of(raw);
    let n = v.len();
    let mut i: usize = 0;
    while i < n && is_whitespace(v[i])
        invariant
            n == v@.len(),
            v@ == raw@,
            i <= n,
            forall|k: int| 0 <= k < i ==> is_ws(#[trigger] v@[k]),
        decreases n - i,
    {
        i = i + 1;
    }
    proof {
        lemma_trim_start_skip(raw@, i as int);
        let rest = raw@.subrange(i as int, n as int);
        if i < n {
            assert(rest[0] == v@[i as int]);
        } else {
            assert(rest.len() == 0);
        }
    }
    i < n && v[i] == '{'
}

/// The planner's decision for the model's reply `raw_output`, given that
/// reply decoded as a structured reply (`None` when it does not decode): a
/// reply that looks like a JSON object is read as a structured decision, or
/// answered by the clarification fallback when that fails; any other reply
/// is used as a direct reply.
pub fn decision_from_raw_output(
    raw_output: &str,
    parsed: Option<StructuredSessionAgentDecision>,
) -> (d: SessionAgentDecision)
    ensures
        !looks_structured(raw_output@) ==> reply_decision_is(
            d,
            raw_output@,
            "LLM replied to the current session message"@,
            None,
            None,
        ),
        looks_structured(raw_output@) ==> match parsed {
            Some(p) => if structured_accepted(p) {
                structured_decision_is(d, p)
            } else {
                clarification_decision_is(d)
            },
            None => clarification_decision_is(d),
        },
{
    if starts_with_brace(raw_output) {
        match parsed {
            Some(p) => match decision_from_structured(p) {
                Some(d) => d,
                None => fallback_clarification_decision(),
            },
            None => fallback_clarification_decision(),
        }
    } else {
        fallback_direct_reply_decision(raw_output)
    }
}

/// The error when the model's reply has no assistant content.
pub fn missing_assistant_content() -> (e: AgentError)
    ensures
        e matches AgentError::Response(m) && m@ == "llm response did not contain assistant content"@,
{
    AgentError::Response(owned("llm response did not contain assistant content"))
}

/// Whether a decision's reply is written by a second, streamed model call:
/// only direct replies are.
pub fn needs_streamed_reply(decision: &SessionAgentDecision) -> (r: bool)
    ensures
        r == (decision.action_type == SessionActionType::DirectReply),
{
    decision.action_type == SessionActionType::DirectReply
}

fn blank_str(s: &str) -> (r: bool)
    ensures
        r == is_blank_text(s@),
{
    let v = chars_of(s);
    is_blank(&v)
}

/// The streamed reply once the stream has ended: the full text the stream
/// returned when it is not blank, else the chunks received; `None` when the
/// stream failed (`stream_result` is `None`), in which case a plain request
/// is made instead.
pub fn reply_after_stream(stream_result: Option<String>, chunks: &str) -> (r: Option<String>)
    ensures
        match stream_result {
            Some(full) => r matches Some(t) && t@ == (if is_blank_text(full@) {
                chunks@
            } else {
                full@
            }),
            None => r is None,
        },
{
    match stream_result {
        Some(full) => {
            if blank_str(full.as_str()) {
                Some(owned(chunks))
            } else {
                Some(full)
            }
        },
        None => None,
    }
}

/// The streamed reply after a failed stream: the plain request's content
/// when it returned one, else the chunks received before the failure.
pub fn reply_after_fallback(fallback_content: Option<String>, chunks: &str) -> (r: String)
    ensures
        r@ == match fallback_content {
            Some(c) => c@,
            None => chunks@,
        },
{
    match fallback_content {
        Some(c) => c,
        None => owned(chunks),
    }
}

/// The reply kept in the decision: the streamed reply, or the planner's
/// draft when the streamed reply is blank.
pub fn final_reply_text(streamed: &str, draft: &str) -> (r: String)
    ensures
        r@ == (if is_blank_text(streamed@) {
            draft@
        } else {
            streamed@
        }),
{
    if blank_str(streamed) {
        owned(draft)
    } else {
        owned(streamed)
    }
}

/// What is still owed to the listener once the reply is final: the whole
/// reply if no chunk was emitted (and it is not blank); if chunks were
/// emitted, the part of the reply after them when the reply extends them;
/// otherwise nothing.
pub open spec fn closing_chunk_text(final_reply: Seq<char>, chunks: Seq<char>, emitted_any: bool) -> Option<Seq<char>> {
    if !emitted_any {
        if is_blank_text(final_reply) {
            None
        } else {
            Some(final_reply)
        }
    } else if chunks.len() > 0 && starts_with(final_reply, chunks) && final_reply.len() > chunks.len() {
        Some(final_reply.subrange(chunks.len() as int, final_reply.len() as int))
    } else {
        None
    }
}

/// The last chunk to hand to the listener, if any.
pub fn closing_chunk(final_reply: &str, chunks: &str, emitted_any: bool) -> (r: Option<String>)
    ensures
        opt_view(r) == closing_chunk_text(final_reply@, chunks@, emitted_any),
{
    if !emitted_any {
        if blank_str(final_reply) {
            None
        } else {
            Some(owned(final_reply))
        }
    } else {
        let f = chars_of(final_reply);
        let c = chars_of(chunks);
        if c.len() > 0 && has_prefix(&f, chunks) && f.len() > c.len() {
            let rest = copy_range(&f, c.len(), f.len());
            Some(string_from_chars(&rest))
        } else {
            None
        }
    }
}

/// A chat message by the views of its role and content.
pub open spec fn message_view(m: OpenAiCompatibleChatMessage) -> (Seq<char>, Seq<char>) {
    (m.role@, m.content@)
}

/// Chat messages by the views of their roles and contents.
pub open spec fn message_views(ms: Seq<OpenAiCompatibleChatMessage>) -> Seq<(Seq<char>, Seq<char>)> {
    ms.map_values(|m: OpenAiCompatibleChatMessage| message_view(m))
}

proof fn lemma_message_views_push(ms: Seq<OpenAiCompatibleChatMessage>, m: OpenAiCompatibleChatMessage)
    ensures
        message_views(ms.push(m)) == message_views(ms).push(message_view(m)),
{
    assert(message_views(ms.push(m)) =~= message_views(ms).push(message_view(m)));
}

/// The request of the distill example.
pub const DISTILL_EXAMPLE_REQUEST: &'static str = "Please distill these work notes into Distilllab";
/// The planner's reply in the distill example.
pub const DISTILL_EXAMPLE_REPLY: &'static str = r#"{"intent":"distill_material","action_type":"create_run","reply_text":"I will start a distill run for this work material.","primary_object_type":null,"primary_object_id":null,"suggested_run_type":"import_and_distill","session_summary":"Preparing to distill work material","tool_invocation":null,"should_continue_planning":true,"failure_hint":"clarify_or_stop"}"#;
/// The request of the compose example.
pub const COMPOSE_EXAMPLE_REQUEST: &'static str = "Write a concise article from this project";
/// The planner's reply in the compose example.
pub const COMPOSE_EXAMPLE_REPLY: &'static str = r#"{"intent":"compose_output","action_type":"create_run","reply_text":"I will prepare a compose and verify run for this output request.","primary_object_type":"project","primary_object_id":"project-current","suggested_run_type":"compose_and_verify","session_summary":"Preparing to compose an output","tool_invocation":null,"skill_selection":null,"should_continue_planning":true,"failure_hint":"clarify_or_stop"}"#;
/// The request of the deepening example.
pub const DEEPEN_EXAMPLE_REQUEST: &'static str = "Please deepen this topic and ask follow-up questions";
/// The planner's reply in the deepening example.
pub const DEEPEN_EXAMPLE_REPLY: &'static str = r#"{"intent":"deepen_understanding","action_type":"create_run","reply_text":"I will start a deepening run to explore this topic further.","primary_object_type":"asset","primary_object_id":"asset-current","suggested_run_type":"deepening","session_summary":"Preparing to deepen understanding","tool_invocation":null,"should_continue_planning":true,"failure_hint":"clarify_or_stop"}"#;
/// The request of the memory search example.
pub const MEMORY_EXAMPLE_REQUEST: &'static str = "Search memory for related notes before answering";
/// The planner's reply in the memory search example.
pub const MEMORY_EXAMPLE_REPLY: &'static str = r#"{"intent":"general_reply","action_type":"tool_call","reply_text":"I will look up related notes before replying.","primary_object_type":null,"primary_object_id":null,"suggested_run_type":null,"session_summary":"Preparing a memory lookup before answering","tool_invocation":{"tool_name":"search_memory","arguments":{},"reasoning_summary":null,"expected_follow_up":null},"should_continue_planning":true,"failure_hint":"reply_or_clarify"}"#;
/// The request of the attachment list example.
pub const ATTACHMENTS_EXAMPLE_REQUEST: &'static str = "Show me which attachments are available in this turn";
/// The planner's reply in the attachment list example.
pub const ATTACHMENTS_EXAMPLE_REPLY: &'static str = r#"{"intent":"general_reply","action_type":"tool_call","reply_text":"I will inspect the current attachments before replying.","primary_object_type":null,"primary_object_id":null,"suggested_run_type":null,"session_summary":"Preparing an attachment lookup before answering","tool_invocation":{"tool_name":"list_attachments","arguments":{},"reasoning_summary":null,"expected_follow_up":null},"should_continue_planning":true,"failure_hint":"reply_or_clarify"}"#;
/// The request of the attachment read example.
pub const READ_EXAMPLE_REQUEST: &'static str = "Read the current attachment before answering";
/// The planner's reply in the attachment read example.
pub const READ_EXAMPLE_REPLY: &'static str = r#"{"intent":"general_reply","action_type":"tool_call","reply_text":"I will read the current attachment before replying.","primary_object_type":null,"primary_object_id":null,"suggested_run_type":null,"session_summary":"Preparing to read the current attachment before answering","tool_invocation":{"tool_name":"read_text","arguments":{"attachment_index":0,"max_chars":400},"reasoning_summary":null,"expected_follow_up":null},"should_continue_planning":true,"failure_hint":"reply_or_clarify"}"#;
/// The request of the web fetch example.
pub const WEB_EXAMPLE_REQUEST: &'static str = "Please check what this URL says before answering";
/// The planner's reply in the web fetch example.
pub const WEB_EXAMPLE_REPLY: &'static str = r#"{"intent":"general_reply","action_type":"tool_call","reply_text":"I will fetch the webpage before replying.","primary_object_type":null,"primary_object_id":null,"suggested_run_type":null,"session_summary":"Preparing a web fetch before answering","tool_invocation":{"tool_name":"web_fetch","arguments":{"url":"https://example.com"},"reasoning_summary":null,"expected_follow_up":null},"should_continue_planning":true,"failure_hint":"reply_or_clarify"}"#;
/// The request of the session summary example.
pub const SUMMARY_EXAMPLE_REQUEST: &'static str = "What did we do so far?";
/// The planner's reply in the session summary example.
pub const SUMMARY_EXAMPLE_REPLY: &'static str = r#"{"intent":"general_reply","action_type":"direct_reply","reply_text":"Here is a concise summary of the current session.","primary_object_type":null,"primary_object_id":null,"suggested_run_type":null,"session_summary":"Providing a direct session summary","tool_invocation":null,"should_continue_planning":false,"failure_hint":null}"#;

/// The worked examples shown to the planner, as (role, content) pairs: a
/// user request followed by the planner's JSON reply, eight times.
pub open spec fn few_shot_views() -> Seq<(Seq<char>, Seq<char>)> {
    seq![
        ("user"@, DISTILL_EXAMPLE_REQUEST@),
        ("assistant"@, DISTILL_EXAMPLE_REPLY@),
        ("user"@, COMPOSE_EXAMPLE_REQUEST@),
        ("assistant"@, COMPOSE_EXAMPLE_REPLY@),
        ("user"@, DEEPEN_EXAMPLE_REQUEST@),
        ("assistant"@, DEEPEN_EXAMPLE_REPLY@),
        ("user"@, MEMORY_EXAMPLE_REQUEST@),
        ("assistant"@, MEMORY_EXAMPLE_REPLY@),
        ("user"@, ATTACHMENTS_EXAMPLE_REQUEST@),
        ("assistant"@, ATTACHMENTS_EXAMPLE_REPLY@),
        ("user"@, READ_EXAMPLE_REQUEST@),
        ("assistant"@, READ_EXAMPLE_REPLY@),
        ("user"@, WEB_EXAMPLE_REQUEST@),
        ("assistant"@, WEB_EXAMPLE_REPLY@),
        ("user"@, SUMMARY_EXAMPLE_REQUEST@),
        ("assistant"@, SUMMARY_EXAMPLE_REPLY@),
    ]
}

/// The worked examples shown to the planner before the live conversation.
pub fn few_shot_examples() -> (r: Vec<OpenAiCompatibleChatMessage>)
    ensures
        message_views(r@) == few_shot_views(),
{
    let mut r: Vec<OpenAiCompatibleChatMessage> = Vec::new();
    r.push(chat_message("user", owned(DISTILL_EXAMPLE_REQUEST)));
    r.push(chat_message("assistant", owned(DISTILL_EXAMPLE_REPLY)));
    r.push(chat_message("user", owned(COMPOSE_EXAMPLE_REQUEST)));
    r.push(chat_message("assistant", owned(COMPOSE_EXAMPLE_REPLY)));
    r.push(chat_message("user", owned(DEEPEN_EXAMPLE_REQUEST)));
    r.push(chat_message("assistant", owned(DEEPEN_EXAMPLE_REPLY)));
    r.push(chat_message("user", owned(MEMORY_EXAMPLE_REQUEST)));
    r.push(chat_message("assistant", owned(MEMORY_EXAMPLE_REPLY)));
    r.push(chat_message("user", owned(ATTACHMENTS_EXAMPLE_REQUEST)));
    r.push(chat_message("assistant", owned(ATTACHMENTS_EXAMPLE_REPLY)));
    r.push(chat_message("user", owned(READ_EXAMPLE_REQUEST)));
    r.push(chat_message("assistant", owned(READ_EXAMPLE_REPLY)));
    r.push(chat_message("user", owned(WEB_EXAMPLE_REQUEST)));
    r.push(chat_message("assistant", owned(WEB_EXAMPLE_REPLY)));
    r.push(chat_message("user", owned(SUMMARY_EXAMPLE_REQUEST)));
    r.push(chat_message("assistant", owned(SUMMARY_EXAMPLE_REPLY)));
    assert(message_views(r@) =~= few_shot_views());
    r
}

proof fn lemma_brace_first(raw: Seq<char>)
    requires
        raw.len() > 0,
        raw[0] == '{',
    ensures
        looks_structured(raw),
{
    assert(!is_ws(raw[0]));
    assert(trim_start(raw) == raw);
}

/// The worked examples alternate a user request (even positions) and the
/// planner's reply (odd positions); every reply is a JSON object, so it is
/// read as a structured decision; and between them they show the deepening
/// intent, a tool call with its invocation, and the `list_attachments`,
/// `read_text` and `web_fetch` tools.
pub proof fn lemma_few_shot_examples_shape()
    ensures
        few_shot_views().len() == 16,
        forall|i: int| 0 <= i < 16 && i % 2 == 0 ==> (#[trigger] few_shot_views()[i]).0 == "user"@,
        forall|i: int| 0 <= i < 16 && i % 2 == 1 ==> (#[trigger] few_shot_views()[i]).0 == "assistant"@,
        forall|i: int| 0 <= i < 16 && i % 2 == 1 ==> looks_structured((#[trigger] few_shot_views()[i]).1),
        contains_text(DEEPEN_EXAMPLE_REPLY@, "\"intent\":\"deepen_understanding\""@),
        contains_text(MEMORY_EXAMPLE_REPLY@, "\"action_type\":\"tool_call\""@),
        contains_text(MEMORY_EXAMPLE_REPLY@, "\"tool_invocation\":"@),
        contains_text(ATTACHMENTS_EXAMPLE_REPLY@, "list_attachments"@),
        contains_text(READ_EXAMPLE_REPLY@, "read_text"@),
        contains_text(WEB_EXAMPLE_REPLY@, "web_fetch"@),
{
    reveal_strlit(r#"{"intent":"distill_material","action_type":"create_run","reply_text":"I will start a distill run for this work material.","primary_object_type":null,"primary_object_id":null,"suggested_run_type":"import_and_distill","session_summary":"Preparing to distill work material","tool_invocation":null,"should_continue_planning":true,"failure_hint":"clarify_or_stop"}"#);
    reveal_strlit(r#"{"intent":"compose_output","action_type":"create_run","reply_text":"I will prepare a compose and verify run for this output request.","primary_object_type":"project","primary_object_id":"project-current","suggested_run_type":"compose_and_verify","session_summary":"Preparing to compose an output","tool_invocation":null,"skill_selection":null,"should_continue_planning":true,"failure_hint":"clarify_or_stop"}"#);
    reveal_strlit(r#"{"intent":"deepen_understanding","action_type":"create_run","reply_text":"I will start a deepening run to explore this topic further.","primary_object_type":"asset","primary_object_id":"asset-current","suggested_run_type":"deepening","session_summary":"Preparing to deepen understanding","tool_invocation":null,"should_continue_planning":true,"failure_hint":"clarify_or_stop"}"#);
    reveal_strlit(r#"{"intent":"general_reply","action_type":"tool_call","reply_text":"I will look up related notes before replying.","primary_object_type":null,"primary_object_id":null,"suggested_run_type":null,"session_summary":"Preparing a memory lookup before answering","tool_invocation":{"tool_name":"search_memory","arguments":{},"reasoning_summary":null,"expected_follow_up":null},"should_continue_planning":true,"failure_hint":"reply_or_clarify"}"#);
    reveal_strlit(r#"{"intent":"general_reply","action_type":"tool_call","reply_text":"I will inspect the current attachments before replying.","primary_object_type":null,"primary_object_id":null,"suggested_run_type":null,"session_summary":"Preparing an attachment lookup before answering","tool_invocation":{"tool_name":"list_attachments","arguments":{},"reasoning_summary":null,"expected_follow_up":null},"should_continue_planning":true,"failure_hint":"reply_or_clarify"}"#);
    reveal_strlit(r#"{"intent":"general_reply","action_type":"tool_call","reply_text":"I will read the current attachment before replying.","primary_object_type":null,"primary_object_id":null,"suggested_run_type":null,"session_summary":"Preparing to read the current attachment before answering","tool_invocation":{"tool_name":"read_text","arguments":{"attachment_index":0,"max_chars":400},"reasoning_summary":null,"expected_follow_up":null},"should_continue_planning":true,"failure_hint":"reply_or_clarify"}"#);
    reveal_strlit(r#"{"intent":"general_reply","action_type":"tool_call","reply_text":"I will fetch the webpage before replying.","primary_object_type":null,"primary_object_id":null,"suggested_run_type":null,"session_summary":"Preparing a web fetch before answering","tool_invocation":{"tool_name":"web_fetch","arguments":{"url":"https://example.com"},"reasoning_summary":null,"expected_follow_up":null},"should_continue_planning":true,"failure_hint":"reply_or_clarify"}"#);
    reveal_strlit(r#"{"intent":"general_reply","action_type":"direct_reply","reply_text":"Here is a concise summary of the current session.","primary_object_type":null,"primary_object_id":null,"suggested_run_type":null,"session_summary":"Providing a direct session summary","tool_invocation":null,"should_continue_planning":false,"failure_hint":null}"#);
    lemma_brace_first(DISTILL_EXAMPLE_REPLY@);
    lemma_brace_first(COMPOSE_EXAMPLE_REPLY@);
    lemma_brace_first(DEEPEN_EXAMPLE_REPLY@);
    lemma_brace_first(MEMORY_EXAMPLE_REPLY@);
    lemma_brace_first(ATTACHMENTS_EXAMPLE_REPLY@);
    lemma_brace_first(READ_EXAMPLE_REPLY@);
    lemma_brace_first(WEB_EXAMPLE_REPLY@);
    lemma_brace_first(SUMMARY_EXAMPLE_REPLY@);
    let v = few_shot_views();
    assert forall|i: int| 0 <= i < 16 && i % 2 == 1 implies looks_structured((#[trigger] v[i]).1) by {
        assert(i == 1 || i == 3 || i == 5 || i == 7 || i == 9 || i == 11 || i == 13 || i == 15);
    }
    assert forall|i: int| 0 <= i < 16 && i % 2 == 0 implies (#[trigger] v[i]).0 == "user"@ by {
        assert(i == 0 || i == 2 || i == 4 || i == 6 || i == 8 || i == 10 || i == 12 || i == 14);
    }
    assert forall|i: int| 0 <= i < 16 && i % 2 == 1 implies (#[trigger] v[i]).0 == "assistant"@ by {
        assert(i == 1 || i == 3 || i == 5 || i == 7 || i == 9 || i == 11 || i == 13 || i == 15);
    }
    reveal_strlit("\"intent\":\"deepen_understanding\"");
    reveal_strlit("\"action_type\":\"tool_call\"");
    reveal_strlit("\"tool_invocation\":");
    reveal_strlit("list_attachments");
    reveal_strlit("read_text");
    reveal_strlit("web_fetch");
    assert(DEEPEN_EXAMPLE_REPLY@.subrange(1int, 32int) =~= "\"intent\":\"deepen_understanding\""@);
    assert(occurs_at(DEEPEN_EXAMPLE_REPLY@, "\"intent\":\"deepen_understanding\""@, 1int));
    assert(MEMORY_EXAMPLE_REPLY@.subrange(26int, 51int) =~= "\"action_type\":\"tool_call\""@);
    assert(occurs_at(MEMORY_EXAMPLE_REPLY@, "\"action_type\":\"tool_call\""@, 26int));
    assert(MEMORY_EXAMPLE_REPLY@.subrange(254int, 272int) =~= "\"tool_invocation\":"@);
    assert(occurs_at(MEMORY_EXAMPLE_REPLY@, "\"tool_invocation\":"@, 254int));
    assert(ATTACHMENTS_EXAMPLE_REPLY@.subrange(301int, 317int) =~= "list_attachments"@);
    assert(occurs_at(ATTACHMENTS_EXAMPLE_REPLY@, "list_attachments"@, 301int));
    assert(READ_EXAMPLE_REPLY@.subrange(307int, 316int) =~= "read_text"@);
    assert(occurs_at(READ_EXAMPLE_REPLY@, "read_text"@, 307int));
    assert(WEB_EXAMPLE_REPLY@.subrange(278int, 287int) =~= "web_fetch"@);
    assert(occurs_at(WEB_EXAMPLE_REPLY@, "web_fetch"@, 278int));
}

/// How one attachment of the current turn is described to the model (its
/// locator is left out).
pub open spec fn attachment_line(a: AttachmentRef) -> Seq<char> {
    "- attachment_id: "@ + a.attachment_id@ + " | name: "@ + a.name@ + " | kind: "@ + a.kind@
        + " | mime_type: "@ + a.mime_type@ + " | size: "@ + decimal(a.size as nat)
}

/// The attachments of the current turn as described to the model.
pub open spec fn attachment_context(input: SessionAgentInput) -> Seq<char> {
    let atts = input.intake.attachments@;
    if atts.len() == 0 {
        "current_intake_attachments: none"@
    } else {
        "current_intake_attachments:\n"@ + join(
            atts.map_values(|a: AttachmentRef| attachment_line(a)),
            "\n"@,
        )
    }
}

/// The description of the current turn's attachments given to the model.
pub fn format_attachment_context(input: &SessionAgentInput) -> (r: String)
    ensures
        r@ == attachment_context(*input),
{
    let atts = &input.intake.attachments;
    if atts.len() == 0 {
        return owned("current_intake_attachments: none");
    }
    let ghost all = atts@.map_values(|a: AttachmentRef| attachment_line(a));
    let mut lines: Vec<String> = Vec::new();
    let n = atts.len();
    let mut i: usize = 0;
    while i < n
        invariant
            n == atts@.len(),
            all == atts@.map_values(|a: AttachmentRef| attachment_line(a)),
            i <= n,
            views(lines@) == all.take(i as int),
        decreases n - i,
    {
        let a = &atts[i];
        let mut line = owned("- attachment_id: ");
        push_str(&mut line, a.attachment_id.as_str());
        push_str(&mut line, " | name: ");
        push_str(&mut line, a.name.as_str());
        push_str(&mut line, " | kind: ");
        push_str(&mut line, a.kind.as_str());
        push_str(&mut line, " | mime_type: ");
        push_str(&mut line, a.mime_type.as_str());
        push_str(&mut line, " | size: ");
        push_decimal(&mut line, a.size);
        assert(line@ =~= attachment_line(*a));
        let ghost before = lines@;
        lines.push(line);
        proof {
            lemma_views_push(before, line);
            assert(all.take(i + 1) =~= all.take(i as int).push(all[i as int]));
        }
        i = i + 1;
    }
    assert(all.take(n as int) =~= all);
    let body = join_strings(&lines, "\n");
    let mut r = owned("current_intake_attachments:\n");
    push_str(&mut r, body.as_str());
    r
}

/// The session's state and the turn's attachments, as given to the model.
pub open spec fn session_context_block(input: SessionAgentInput) -> Seq<char> {
    let s = input.session;
    "\nCurrent session context:\nsession_id: "@ + s.id@ + "\nsession_title: "@ + s.title@
        + "\ncurrent_intent: "@ + s.current_intent@ + "\ncurrent_object_type: "@
        + s.current_object_type@ + "\ncurrent_object_id: "@ + s.current_object_id@
        + "\nsession_summary: "@ + s.summary@ + "\n"@ + attachment_context(input)
}

fn push_session_context(out: &mut String, input: &SessionAgentInput)
    ensures
        final(out)@ == old(out)@ + session_context_block(*input),
{
    let attachments = format_attachment_context(input);
    let s = &input.session;
    push_str(out, "\nCurrent session context:\nsession_id: ");
    push_str(out, s.id.as_str());
    push_str(out, "\nsession_title: ");
    push_str(out, s.title.as_str());
    push_str(out, "\ncurrent_intent: ");
    push_str(out, s.current_intent.as_str());
    push_str(out, "\ncurrent_object_type: ");
    push_str(out, s.current_object_type.as_str());
    push_str(out, "\ncurrent_object_id: ");
    push_str(out, s.current_object_id.as_str());
    push_str(out, "\nsession_summary: ");
    push_str(out, s.summary.as_str());
    push_str(out, "\n");
    push_str(out, attachments.as_str());
    assert(out@ =~= old(out)@ + session_context_block(*input));
}

/// The chat role a session message is replayed with.
pub open spec fn role_name(r: SessionMessageRole) -> Seq<char> {
    match r {
        SessionMessageRole::User => "user"@,
        SessionMessageRole::Assistant => "assistant"@,
        SessionMessageRole::System => "system"@,
    }
}

fn role_str(r: SessionMessageRole) -> (s: &'static str)
    ensures
        s@ == role_name(r),
{
    match r {
        SessionMessageRole::User => "user",
        SessionMessageRole::Assistant => "assistant",
        SessionMessageRole::System => "system",
    }
}

/// The recent timeline replayed as chat messages.
pub open spec fn history_views(ms: Seq<SessionMessage>) -> Seq<(Seq<char>, Seq<char>)> {
    ms.map_values(|m: SessionMessage| (role_name(m.role), m.content@))
}

/// The recent timeline replayed as chat messages, system messages left out.
pub open spec fn dialogue_views(ms: Seq<SessionMessage>) -> Seq<(Seq<char>, Seq<char>)>
    decreases ms.len(),
{
    if ms.len() == 0 {
        Seq::empty()
    } else if ms.last().role == SessionMessageRole::System {
        dialogue_views(ms.drop_last())
    } else {
        dialogue_views(ms.drop_last()).push((role_name(ms.last().role), ms.last().content@))
    }
}

/// Whether the timeline already holds the current turn: a user message with
/// the same text.
pub open spec fn current_turn_present(input: SessionAgentInput) -> bool {
    exists|j: int|
        0 <= j < input.recent_messages@.len() && (#[trigger] input.recent_messages@[j]).role
            == SessionMessageRole::User && input.recent_messages@[j].content@
            == input.intake.user_message@
}

/// The current turn, unless the timeline already holds it.
pub open spec fn current_turn_views(input: SessionAgentInput) -> Seq<(Seq<char>, Seq<char>)> {
    if current_turn_present(input) {
        Seq::empty()
    } else {
        seq![("user"@, input.intake.user_message@)]
    }
}

/// The planner's system message: its prompt and the session context.
pub open spec fn planner_system_context(input: SessionAgentInput) -> Seq<char> {
    SESSION_AGENT_SYSTEM_PROMPT@ + session_context_block(input)
}

/// The planner's conversation: the system message, the worked examples, the
/// recent timeline and the current turn.
pub open spec fn planner_message_views(input: SessionAgentInput) -> Seq<(Seq<char>, Seq<char>)> {
    seq![("system"@, planner_system_context(input))] + few_shot_views() + history_views(
        input.recent_messages@,
    ) + current_turn_views(input)
}

fn turn_present(input: &SessionAgentInput) -> (r: bool)
    ensures
        r == current_turn_present(*input),
{
    let ms = &input.recent_messages;
    let n = ms.len();
    let mut i: usize = 0;
    while i < n
        invariant
            n == ms@.len(),
            ms@ == input.recent_messages@,
            i <= n,
            forall|j: int|
                0 <= j < i ==> !((#[trigger] ms@[j]).role == SessionMessageRole::User && ms@[j].content@
                    == input.intake.user_message@),
        decreases n - i,
    {
        if ms[i].role == SessionMessageRole::User && str_eq(
            ms[i].content.as_str(),
            input.intake.user_message.as_str(),
        ) {
            assert(input.recent_messages@[i as int].role == SessionMessageRole::User);
            return true;
        }
        i = i + 1;
    }
    false
}

fn push_current_turn(r: &mut Vec<OpenAiCompatibleChatMessage>, input: &SessionAgentInput)
    ensures
        message_views(final(r)@) == message_views(old(r)@) + current_turn_views(*input),
{
    if !turn_present(input) {
        let ghost before = r@;
        r.push(chat_message("user", copy_string(&input.intake.user_message)));
        proof {
            lemma_message_views_push(before, r@.last());
        }
    }
    assert(message_views(r@) =~= message_views(old(r)@) + current_turn_views(*input));
}

/// The planner's conversation for a turn: the system message with the
/// session context, the worked examples, the recent timeline and, unless the
/// timeline already holds it, the current user message.
pub fn build_chat_messages(input: &SessionAgentInput) -> (r: Vec<OpenAiCompatibleChatMessage>)
    ensures
        message_views(r@) == planner_message_views(*input),
{
    let mut system = owned(SESSION_AGENT_SYSTEM_PROMPT);
    push_session_context(&mut system, input);
    let mut r: Vec<OpenAiCompatibleChatMessage> = Vec::new();
    r.push(chat_message("system", system));
    let mut examples = few_shot_examples();
    let ghost head = r@;
    r.append(&mut examples);
    assert(message_views(r@) =~= message_views(head) + few_shot_views());
    let ghost start = r@;
    let ms = &input.recent_messages;
    let n = ms.len();
    let mut i: usize = 0;
    while i < n
        invariant
            n == ms@.len(),
            i <= n,
            message_views(r@) == message_views(start) + history_views(ms@.take(i as int)),
        decreases n - i,
    {
        let ghost before = r@;
        r.push(chat_message(role_str(ms[i].role), copy_string(&ms[i].content)));
        proof {
            lemma_message_views_push(before, r@.last());
            assert(history_views(ms@.take(i + 1)) =~= history_views(ms@.take(i as int)).push(
                (role_name(ms@[i as int].role), ms@[i as int].content@),
            ));
        }
        i = i + 1;
    }
    assert(ms@.take(n as int) =~= ms@);
    push_current_turn(&mut r, input);
    assert(message_views(r@) =~= planner_message_views(*input));
    r
}

/// The prompt of the second, plain-text call that writes a direct reply.
pub const DIRECT_REPLY_PROMPT: &'static str = "You are the assistant for Distilllab. You are writing the final user-facing reply for an already-selected direct_reply action. Respond with plain text only. Do not output JSON, metadata fields, or markdown fences.";

/// The system message of the direct-reply call: its prompt, the session
/// context and the planner's decision.
pub open spec fn direct_reply_system_context(input: SessionAgentInput, d: SessionAgentDecision) -> Seq<char> {
    DIRECT_REPLY_PROMPT@ + session_context_block(input) + "\nPlanner decision:\nintent: "@
        + intent_name(d.intent) + "\naction_type: "@ + action_type_name(d.action_type)
        + "\nreply_text_draft: "@ + d.reply_text@
}

/// The conversation of the direct-reply call: the system message, the
/// recent user and assistant messages and the current turn.
pub open spec fn direct_reply_message_views(input: SessionAgentInput, d: SessionAgentDecision) -> Seq<
    (Seq<char>, Seq<char>),
> {
    seq![("system"@, direct_reply_system_context(input, d))] + dialogue_views(input.recent_messages@)
        + current_turn_views(input)
}

/// The conversation of the plain-text call that writes the final reply of a
/// direct-reply decision; system messages of the timeline are left out.
pub fn build_direct_reply_stream_messages(input: &SessionAgentInput, decision: &SessionAgentDecision) -> (r: Vec<
    OpenAiCompatibleChatMessage,
>)
    ensures
        message_views(r@) == direct_reply_message_views(*input, *decision),
{
    let mut system = owned(DIRECT_REPLY_PROMPT);
    push_session_context(&mut system, input);
    push_str(&mut system, "\nPlanner decision:\nintent: ");
    push_str(&mut system, decision.intent.as_str());
    push_str(&mut system, "\naction_type: ");
    push_str(&mut system, decision.action_type.as_str());
    push_str(&mut system, "\nreply_text_draft: ");
    push_str(&mut system, decision.reply_text.as_str());
    assert(system@ =~= direct_reply_system_context(*input, *decision));
    let mut r: Vec<OpenAiCompatibleChatMessage> = Vec::new();
    r.push(chat_message("system", system));
    let ghost start = r@;
    let ms = &input.recent_messages;
    let n = ms.len();
    let mut i: usize = 0;
    while i < n
        invariant
            n == ms@.len(),
            i <= n,
            message_views(r@) == message_views(start) + dialogue_views(ms@.take(i as int)),
        decreases n - i,
    {
        assert(ms@.take(i + 1).drop_last() =~= ms@.take(i as int));
        if ms[i].role != SessionMessageRole::System {
            let ghost before = r@;
            r.push(chat_message(role_str(ms[i].role), copy_string(&ms[i].content)));
            proof {
                lemma_message_views_push(before, r@.last());
            }
        }
        i = i + 1;
    }
    assert(ms@.take(n as int) =~= ms@);
    push_current_turn(&mut r, input);
    assert(message_views(r@) =~= direct_reply_message_views(*input, *decision));
    r
}

/// Whether a decision is self-consistent: the next action is of the chosen
/// action type and carries what it needs, the decision carries nothing that
/// action does not use (a tool call may still name a run type), a run is of
/// a known type, and a distill intent is never answered directly.
pub open spec fn decision_coherent(d: SessionAgentDecision) -> bool {
    &&& match d.action_type {
        SessionActionType::DirectReply => d.next_action == SessionNextAction::DirectReply,
        SessionActionType::RequestClarification => d.next_action
            == SessionNextAction::RequestClarification,
        SessionActionType::Stop => d.next_action == SessionNextAction::Stop,
        SessionActionType::ToolCall => d.next_action matches SessionNextAction::ToolCall(t)
            && d.tool_invocation matches Some(u) && tool_view(u) == tool_view(t),
        SessionActionType::SkillCall => d.next_action matches SessionNextAction::SkillCall(s)
            && d.skill_selection == Some(s),
        SessionActionType::CreateRun => d.next_action matches SessionNextAction::CreateRun(r)
            && d.run_creation matches Some(q) && r.run_type@ == q.run_type@,
    }
    &&& (d.tool_invocation is Some ==> d.action_type == SessionActionType::ToolCall)
    &&& (d.skill_selection is Some ==> d.action_type == SessionActionType::SkillCall
        || d.action_type == SessionActionType::ToolCall)
    &&& (d.run_creation is Some ==> d.action_type == SessionActionType::CreateRun || d.action_type
        == SessionActionType::ToolCall)
    &&& (d.action_type == SessionActionType::CreateRun ==> (d.suggested_run_type matches Some(t)
        && is_known_run_type(t@) && (d.run_creation matches Some(q) && q.run_type@ == t@)))
    &&& (d.intent == SessionIntent::DistillMaterial ==> d.action_type
        != SessionActionType::DirectReply)
}

/// Every decision of the keyword planner is self-consistent.
pub proof fn lemma_basic_decision_coherent(d: SessionAgentDecision, input: SessionAgentInput, m: Seq<char>)
    requires
        basic_decision_is(d, input, m),
    ensures
        decision_coherent(d),
{
}

/// Every decision read from an accepted structured reply is self-consistent.
pub proof fn lemma_structured_decision_coherent(d: SessionAgentDecision, p: StructuredSessionAgentDecision)
    requires
        structured_accepted(p),
        structured_decision_is(d, p),
    ensures
        decision_coherent(d),
{
}

/// Both fallback decisions are self-consistent.
pub proof fn lemma_fallback_decisions_coherent(d: SessionAgentDecision, e: SessionAgentDecision, reply: Seq<char>)
    requires
        reply_decision_is(d, reply, "LLM replied to the current session message"@, None, None),
        clarification_decision_is(e),
    ensures
        decision_coherent(d),
        decision_coherent(e),
{
}

/// Whatever the model replies, the planner's decision is self-consistent.
pub proof fn lemma_raw_output_decision_coherent(
    d: SessionAgentDecision,
    raw: Seq<char>,
    parsed: Option<StructuredSessionAgentDecision>,
)
    requires
        !looks_structured(raw) ==> reply_decision_is(
            d,
            raw,
            "LLM replied to the current session message"@,
            None,
            None,
        ),
        looks_structured(raw) ==> match parsed {
            Some(p) => if structured_accepted(p) {
                structured_decision_is(d, p)
            } else {
                clarification_decision_is(d)
            },
            None => clarification_decision_is(d),
        },
    ensures
        decision_coherent(d),
{
    if looks_structured(raw) {
        if let Some(p) = parsed {
            if structured_accepted(p) {
                lemma_structured_decision_coherent(d, p);
            }
        }
    }
}

/// A distill request is never routed to a web fetch or any other rule: the
/// distill rule is checked first.
pub proof fn lemma_distill_takes_priority(input: SessionAgentInput, m: Seq<char>)
    requires
        asks_to_distill(m, input.intake.attachments@.len() > 0, message_url(input) is Some),
    ensures
        basic_route(input, m) == BasicRoute::Distill,
{
}

/// Without attachments, no attachment tool is ever called.
pub proof fn lemma_attachment_tools_need_attachments(input: SessionAgentInput, m: Seq<char>)
    requires
        input.intake.attachments@.len() == 0,
    ensures
        basic_route(input, m) != BasicRoute::ListAttachments,
        basic_route(input, m) != BasicRoute::ReadText,
        basic_route(input, m) != BasicRoute::ReadExcerpt,
{
}

/// The planner request for a turn.
pub fn planner_request(config: &LlmProviderConfig, input: &SessionAgentInput) -> (r: OpenAiCompatibleChatRequest)
    ensures
        r.model@ == config.model@,
        r.stream is None,
        message_views(r.messages@) == planner_message_views(*input),
{
    OpenAiCompatibleChatRequest {
        model: copy_string(&config.model),
        messages: build_chat_messages(input),
        stream: None,
    }
}

/// The request that writes a direct reply: streamed (`stream` is
/// `Some(true)`) or, after a failed stream, plain (`None`).
pub fn direct_reply_request(
    config: &LlmProviderConfig,
    input: &SessionAgentInput,
    decision: &SessionAgentDecision,
    streamed: bool,
) -> (r: OpenAiCompatibleChatRequest)
    ensures
        r.model@ == config.model@,
        r.stream == (if streamed { Some(true) } else { None::<bool> }),
        message_views(r.messages@) == direct_reply_message_views(*input, *decision),
{
    OpenAiCompatibleChatRequest {
        model: copy_string(&config.model),
        messages: build_direct_reply_stream_messages(input, decision),
        stream: if streamed { Some(true) } else { None },
    }
}

} // verus!
