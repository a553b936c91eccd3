//! How tool calls and runs are presented while they happen and afterwards:
//! status names, normalization of stored states, and the summary and details
//! texts of tool and run cards.

use vstd::prelude::*;
use crate::text::{
    is_ws, trim_start,
    chars_of, copy_string, decimal, is_blank, is_blank_text, lowercase, opt_view, owned, push_decimal,
    push_str, str_eq, string_from_chars, to_lowercase, trim, trim_chars, contains_str, contains_text,
    is_ascii_text, ascii_lower,
};

verus! {

broadcast use vstd::string::group_string_axioms;

/// Where a tool call stands.
#[derive(Debug, Clone, Copy, PartialEq, Eq, Structural)]
pub enum LiveToolStatus {
    Started,
    Succeeded,
    Failed,
}

/// Where a run stands.
#[derive(Debug, Clone, Copy, PartialEq, Eq, Structural)]
pub enum LiveRunState {
    Queued,
    Pending,
    Running,
    Completed,
    Failed,
}

/// Where one step of a run stands.
#[derive(Debug, Clone, Copy, PartialEq, Eq, Structural)]
pub enum LiveRunStepStatus {
    Started,
    Pending,
    Running,
    Completed,
    Failed,
}

/// What a run progress report announces.
#[derive(Debug, Clone, Copy, PartialEq, Eq, Structural)]
pub enum RunProgressPhase {
    Created,
    StateChanged,
    StepStarted,
    StepFinished,
}

/// The display name of a tool status.
pub open spec fn tool_status_label(s: LiveToolStatus) -> Seq<char> {
    match s {
        LiveToolStatus::Started => "started"@,
        LiveToolStatus::Succeeded => "success"@,
        LiveToolStatus::Failed => "failed"@,
    }
}

/// The display name of a tool status.
pub fn live_tool_status_label(status: &LiveToolStatus) -> (r: &'static str)
    ensures
        r@ == tool_status_label(*status),
{
    match status {
        LiveToolStatus::Started => "started",
        LiveToolStatus::Succeeded => "success",
        LiveToolStatus::Failed => "failed",
    }
}

/// The name of a run state.
pub open spec fn run_state_label(s: LiveRunState) -> Seq<char> {
    match s {
        LiveRunState::Queued => "queued"@,
        LiveRunState::Pending => "pending"@,
        LiveRunState::Running => "running"@,
        LiveRunState::Completed => "completed"@,
        LiveRunState::Failed => "failed"@,
    }
}

/// The name of a run state.
pub fn live_run_state_label(value: &LiveRunState) -> (r: &'static str)
    ensures
        r@ == run_state_label(*value),
{
    match value {
        LiveRunState::Queued => "queued",
        LiveRunState::Pending => "pending",
        LiveRunState::Running => "running",
        LiveRunState::Completed => "completed",
        LiveRunState::Failed => "failed",
    }
}

/// The name of a step status.
pub open spec fn step_status_label(s: LiveRunStepStatus) -> Seq<char> {
    match s {
        LiveRunStepStatus::Started => "started"@,
        LiveRunStepStatus::Pending => "pending"@,
        LiveRunStepStatus::Running => "running"@,
        LiveRunStepStatus::Completed => "completed"@,
        LiveRunStepStatus::Failed => "failed"@,
    }
}

/// The name of a step status.
pub fn live_run_step_status_label(value: &LiveRunStepStatus) -> (r: &'static str)
    ensures
        r@ == step_status_label(*value),
{
    match value {
        LiveRunStepStatus::Started => "started",
        LiveRunStepStatus::Pending => "pending",
        LiveRunStepStatus::Running => "running",
        LiveRunStepStatus::Completed => "completed",
        LiveRunStepStatus::Failed => "failed",
    }
}

/// The run state a normalized name stands for; `created`, `finished` and
/// `error` are older names, anything unknown is pending.
pub open spec fn run_state_named(t: Seq<char>) -> LiveRunState {
    if t == "queued"@ || t == "created"@ {
        LiveRunState::Queued
    } else if t == "running"@ {
        LiveRunState::Running
    } else if t == "completed"@ || t == "finished"@ {
        LiveRunState::Completed
    } else if t == "failed"@ || t == "error"@ {
        LiveRunState::Failed
    } else {
        LiveRunState::Pending
    }
}

/// The step status a normalized name stands for; `finished` and `error`
/// are older names, anything unknown is pending.
pub open spec fn step_status_named(t: Seq<char>) -> LiveRunStepStatus {
    if t == "started"@ {
        LiveRunStepStatus::Started
    } else if t == "running"@ {
        LiveRunStepStatus::Running
    } else if t == "completed"@ || t == "finished"@ {
        LiveRunStepStatus::Completed
    } else if t == "failed"@ || t == "error"@ {
        LiveRunStepStatus::Failed
    } else {
        LiveRunStepStatus::Pending
    }
}

/// A stored status text as compared: trimmed, then lowercased; absent text
/// counts as empty.
pub open spec fn normalized_text(value: Option<Seq<char>>) -> Seq<char> {
    lowercase(
        trim(
            match value {
                Some(v) => v,
                None => Seq::empty(),
            },
        ),
    )
}

/// The view of an optional string slice.
pub open spec fn opt_str_view(value: Option<&str>) -> Option<Seq<char>> {
    match value {
        Some(v) => Some(v@),
        None => None,
    }
}

fn normalize_text(value: Option<&str>) -> (r: String)
    ensures
        r@ == normalized_text(opt_str_view(value)),
        value matches Some(v) ==> (plain_name(trim(v@)) ==> r@ == trim(v@)),
{
    let v = match value {
        Some(v) => chars_of(v),
        None => Vec::new(),
    };
    let t = string_from_chars(&trim_chars(&v));
    to_lowercase(t.as_str())
}

/// The run state a normalized status text stands for.
pub fn run_state_from_normalized(text: &str) -> (r: LiveRunState)
    ensures
        r == run_state_named(text@),
{
    if str_eq(text, "queued") || str_eq(text, "created") {
        LiveRunState::Queued
    } else if str_eq(text, "running") {
        LiveRunState::Running
    } else if str_eq(text, "completed") || str_eq(text, "finished") {
        LiveRunState::Completed
    } else if str_eq(text, "failed") || str_eq(text, "error") {
        LiveRunState::Failed
    } else {
        LiveRunState::Pending
    }
}

/// The step status a normalized status text stands for.
pub fn step_status_from_normalized(text: &str) -> (r: LiveRunStepStatus)
    ensures
        r == step_status_named(text@),
{
    if str_eq(text, "started") {
        LiveRunStepStatus::Started
    } else if str_eq(text, "running") {
        LiveRunStepStatus::Running
    } else if str_eq(text, "completed") || str_eq(text, "finished") {
        LiveRunStepStatus::Completed
    } else if str_eq(text, "failed") || str_eq(text, "error") {
        LiveRunStepStatus::Failed
    } else {
        LiveRunStepStatus::Pending
    }
}

/// The run state a stored status text stands for.
pub fn normalize_live_run_state(value: Option<&str>) -> (r: LiveRunState)
    ensures
        r == run_state_named(normalized_text(opt_str_view(value))),
        value matches Some(v) ==> (plain_name(trim(v@)) ==> r == run_state_named(trim(v@))),
{
    let t = normalize_text(value);
    run_state_from_normalized(t.as_str())
}

/// The step status a stored status text stands for; `None` stays `None`.
pub fn normalize_live_run_step_status(value: Option<&str>) -> (r: Option<LiveRunStepStatus>)
    ensures
        r == match value {
            Some(v) => Some(step_status_named(normalized_text(Some(v@)))),
            None => None,
        },
        value matches Some(v) ==> (plain_name(trim(v@)) ==> r == Some(step_status_named(trim(v@)))),
{
    match value {
        Some(v) => {
            let t = normalize_text(Some(v));
            Some(step_status_from_normalized(t.as_str()))
        },
        None => None,
    }
}

/// The run state name a stored status text stands for, one of `queued`,
/// `pending`, `running`, `completed` and `failed`.
pub fn normalize_structured_run_state(value: Option<&str>) -> (r: String)
    ensures
        r@ == run_state_label(run_state_named(normalized_text(opt_str_view(value)))),
{
    let s = normalize_live_run_state(value);
    owned(live_run_state_label(&s))
}

/// The step status name a stored status text stands for, one of `started`,
/// `pending`, `running`, `completed` and `failed`; `None` stays `None`.
pub fn normalize_structured_step_status(value: Option<&str>) -> (r: Option<String>)
    ensures
        opt_view(r) == match value {
            Some(v) => Some(step_status_label(step_status_named(normalized_text(Some(v@))))),
            None => None,
        },
{
    match normalize_live_run_step_status(value) {
        Some(s) => Some(owned(live_run_step_status_label(&s))),
        None => None,
    }
}

/// Structured run states are always one of the five supported names.
pub proof fn lemma_structured_run_state_supported(t: Seq<char>)
    ensures
        ({
            let l = run_state_label(run_state_named(t));
            l == "queued"@ || l == "pending"@ || l == "running"@ || l == "completed"@ || l
                == "failed"@
        }),
{
}

/// The tool status a stored tool result stands for, given its stored
/// status (normalized) and its content (lowercased): a known status name
/// decides; otherwise content that mentions an error or a failure means the
/// tool failed.
pub open spec fn tool_status_for(status: Option<Seq<char>>, lowered_content: Seq<char>) -> LiveToolStatus {
    let by_content = if contains_text(lowered_content, "error"@) || contains_text(
        lowered_content,
        "failed"@,
    ) || contains_text(lowered_content, "failure"@) {
        LiveToolStatus::Failed
    } else {
        LiveToolStatus::Succeeded
    };
    match status {
        Some(s) => if s == "started"@ || s == "running"@ {
            LiveToolStatus::Started
        } else if s == "failed"@ || s == "error"@ {
            LiveToolStatus::Failed
        } else if s == "succeeded"@ || s == "success"@ || s == "completed"@ || s == "finished"@ {
            LiveToolStatus::Succeeded
        } else {
            by_content
        },
        None => by_content,
    }
}

/// The tool status for a normalized stored status and lowercased content.
pub fn tool_status_from_texts(normalized_status: Option<&str>, lowered_content: &str) -> (r: LiveToolStatus)
    ensures
        r == tool_status_for(opt_str_view(normalized_status), lowered_content@),
{
    let c = chars_of(lowered_content);
    let by_content = if contains_str(&c, "error") || contains_str(&c, "failed") || contains_str(
        &c,
        "failure",
    ) {
        LiveToolStatus::Failed
    } else {
        LiveToolStatus::Succeeded
    };
    match normalized_status {
        Some(s) => if str_eq(s, "started") || str_eq(s, "running") {
            LiveToolStatus::Started
        } else if str_eq(s, "failed") || str_eq(s, "error") {
            LiveToolStatus::Failed
        } else if str_eq(s, "succeeded") || str_eq(s, "success") || str_eq(s, "completed")
            || str_eq(s, "finished") {
            LiveToolStatus::Succeeded
        } else {
            by_content
        },
        None => by_content,
    }
}

/// The status of a stored tool result, from its stored `status` (trimmed
/// and lowercased) or, when that says nothing, from its content.
pub fn persisted_tool_status_from_message_data(status: Option<&str>, content: &str) -> (r: LiveToolStatus)
    ensures
        r == tool_status_for(
            match status {
                Some(v) => Some(normalized_text(Some(v@))),
                None => None,
            },
            lowercase(content@),
        ),
{
    let lowered = to_lowercase(content);
    match status {
        Some(v) => {
            let t = normalize_text(Some(v));
            tool_status_from_texts(Some(t.as_str()), lowered.as_str())
        },
        None => tool_status_from_texts(None, lowered.as_str()),
    }
}

/// The texts of a tool card.
#[derive(Debug, Clone, PartialEq, Eq)]
pub struct ToolPresentation {
    pub content: String,
    pub summary: String,
    pub details: String,
}

/// The text shown for a tool call without a result.
pub const TOOL_RESULT_UNAVAILABLE: &'static str = "Tool result unavailable.";

/// The content of a tool card: its result, or a note that there is none.
pub open spec fn tool_card_content(result_text: Option<Seq<char>>) -> Seq<char> {
    match result_text {
        Some(t) => t,
        None => TOOL_RESULT_UNAVAILABLE@,
    }
}

/// The details of a tool card: tool, status, arguments (`{}` when unknown)
/// and the result.
pub open spec fn tool_card_details(
    tool_name: Seq<char>,
    status: LiveToolStatus,
    arguments_text: Option<Seq<char>>,
    result_text: Option<Seq<char>>,
) -> Seq<char> {
    "tool: "@ + tool_name + "\nstatus: "@ + tool_status_label(status) + "\narguments: "@ + match arguments_text {
        Some(a) => a,
        None => "{}"@,
    } + "\n\nresult:\n"@ + tool_card_content(result_text)
}

/// The texts of a tool card for a tool call.
pub fn build_tool_presentation(
    tool_name: &str,
    status: LiveToolStatus,
    arguments_text: Option<&str>,
    result_text: Option<&str>,
) -> (r: ToolPresentation)
    ensures
        r.content@ == tool_card_content(opt_str_view(result_text)),
        r.summary@ == tool_name@ + " · "@ + tool_status_label(status),
        r.details@ == tool_card_details(tool_name@, status, opt_str_view(arguments_text), opt_str_view(result_text)),
{
    let label = live_tool_status_label(&status);
    let content = match result_text {
        Some(t) => owned(t),
        None => owned(TOOL_RESULT_UNAVAILABLE),
    };
    let mut summary = owned(tool_name);
    push_str(&mut summary, " · ");
    push_str(&mut summary, label);
    let mut details = owned("tool: ");
    push_str(&mut details, tool_name);
    push_str(&mut details, "\nstatus: ");
    push_str(&mut details, label);
    push_str(&mut details, "\narguments: ");
    match arguments_text {
        Some(a) => push_str(&mut details, a),
        None => push_str(&mut details, "{}"),
    }
    push_str(&mut details, "\n\nresult:\n");
    push_str(&mut details, content.as_str());
    assert(details@ =~= tool_card_details(tool_name@, status, opt_str_view(arguments_text), opt_str_view(result_text)));
    ToolPresentation { content, summary, details }
}

/// The texts of a run card.
#[derive(Debug, Clone, PartialEq, Eq)]
pub struct RunPresentation {
    pub content: String,
    pub summary: String,
    pub details: String,
}

/// The display name of a progress phase on a run card.
pub open spec fn phase_text(p: RunProgressPhase) -> Seq<char> {
    match p {
        RunProgressPhase::Created => "progress updated"@,
        RunProgressPhase::StateChanged => "progress updated"@,
        RunProgressPhase::StepStarted => "step started"@,
        RunProgressPhase::StepFinished => "step finished"@,
    }
}

/// The display name of a progress phase on a run card.
pub fn run_step_status_text(phase: &RunProgressPhase) -> (r: &'static str)
    ensures
        r@ == phase_text(*phase),
{
    match phase {
        RunProgressPhase::Created => "progress updated",
        RunProgressPhase::StateChanged => "progress updated",
        RunProgressPhase::StepStarted => "step started",
        RunProgressPhase::StepFinished => "step finished",
    }
}

/// An optional text that is present and not blank.
pub open spec fn filled(o: Option<Seq<char>>) -> bool {
    o matches Some(t) && !is_blank_text(t)
}

/// A detail line (`prefix` then the text) when the text is filled, else
/// nothing.
pub open spec fn filled_line(prefix: Seq<char>, o: Option<Seq<char>>) -> Seq<char> {
    if filled(o) {
        prefix + o.unwrap()
    } else {
        Seq::empty()
    }
}

/// The summary of a run card: the step summary, else the run type, else
/// `run <id>`.
pub open spec fn run_card_summary(run_id: Seq<char>, run_type: Option<Seq<char>>, step_summary: Option<Seq<char>>) -> Seq<char> {
    if filled(step_summary) {
        step_summary.unwrap()
    } else if filled(run_type) {
        run_type.unwrap()
    } else {
        "run "@ + run_id
    }
}

/// The content of a run card: the status text, else the detail text, else
/// the run type (or `run <id>`) with the state.
pub open spec fn run_card_content(
    run_id: Seq<char>,
    run_type: Option<Seq<char>>,
    state: LiveRunState,
    detail_text: Option<Seq<char>>,
    status_text: Option<Seq<char>>,
) -> Seq<char> {
    if filled(status_text) {
        status_text.unwrap()
    } else if filled(detail_text) {
        detail_text.unwrap()
    } else if filled(run_type) {
        run_type.unwrap() + " · "@ + run_state_label(state)
    } else {
        "run "@ + run_id + " "@ + run_state_label(state)
    }
}

/// The details of a run card, one `name: value` line per known fact.
pub open spec fn run_card_details(
    run_id: Seq<char>,
    run_type: Option<Seq<char>>,
    state: LiveRunState,
    progress_percent: Option<u8>,
    detail_text: Option<Seq<char>>,
    phase: Option<RunProgressPhase>,
    step_key: Option<Seq<char>>,
    step_summary: Option<Seq<char>>,
    status_text: Option<Seq<char>>,
) -> Seq<char> {
    "run: "@ + run_id + "\nstate: "@ + run_state_label(state) + filled_line("\ntype: "@, run_type)
        + match progress_percent {
        Some(p) => "\nprogress: "@ + decimal(p as nat) + "%"@,
        None => Seq::empty(),
    } + match phase {
        Some(p) => "\nphase: "@ + phase_text(p),
        None => Seq::empty(),
    } + filled_line("\nstepKey: "@, step_key) + filled_line("\nstepSummary: "@, step_summary)
        + filled_line("\ndetail: "@, detail_text) + filled_line("\nstatusText: "@, status_text)
}

fn is_filled(o: Option<&str>) -> (r: bool)
    ensures
        r == filled(opt_str_view(o)),
{
    match o {
        Some(t) => {
            let v = chars_of(t);
            !is_blank(&v)
        },
        None => false,
    }
}

fn push_filled_line(out: &mut String, prefix: &str, o: Option<&str>)
    ensures
        final(out)@ == old(out)@ + filled_line(prefix@, opt_str_view(o)),
{
    if is_filled(o) {
        push_str(out, prefix);
        match o {
            Some(t) => push_str(out, t),
            None => {},
        }
    }
    assert(out@ =~= old(out)@ + filled_line(prefix@, opt_str_view(o)));
}

fn run_summary_text(run_id: &str, run_type: Option<&str>, step_summary: Option<&str>) -> (r: String)
    ensures
        r@ == run_card_summary(run_id@, opt_str_view(run_type), opt_str_view(step_summary)),
{
    if is_filled(step_summary) {
        owned(step_summary.unwrap())
    } else if is_filled(run_type) {
        owned(run_type.unwrap())
    } else {
        let mut t = owned("run ");
        push_str(&mut t, run_id);
        t
    }
}

fn run_content_text(
    run_id: &str,
    run_type: Option<&str>,
    state: &LiveRunState,
    detail_text: Option<&str>,
    status_text: Option<&str>,
) -> (r: String)
    ensures
        r@ == run_card_content(
            run_id@,
            opt_str_view(run_type),
            *state,
            opt_str_view(detail_text),
            opt_str_view(status_text),
        ),
{
    let label = live_run_state_label(state);
    if is_filled(status_text) {
        owned(status_text.unwrap())
    } else if is_filled(detail_text) {
        owned(detail_text.unwrap())
    } else if is_filled(run_type) {
        let mut t = owned(run_type.unwrap());
        push_str(&mut t, " · ");
        push_str(&mut t, label);
        t
    } else {
        let mut t = owned("run ");
        push_str(&mut t, run_id);
        push_str(&mut t, " ");
        push_str(&mut t, label);
        t
    }
}

fn run_details_text(
    run_id: &str,
    run_type: Option<&str>,
    state: &LiveRunState,
    progress_percent: Option<u8>,
    detail_text: Option<&str>,
    phase: Option<&RunProgressPhase>,
    step_key: Option<&str>,
    step_summary: Option<&str>,
    status_text: Option<&str>,
) -> (r: String)
    ensures
        r@ == run_card_details(
            run_id@,
            opt_str_view(run_type),
            *state,
            progress_percent,
            opt_str_view(detail_text),
            match phase {
                Some(p) => Some(*p),
                None => None,
            },
            opt_str_view(step_key),
            opt_str_view(step_summary),
            opt_str_view(status_text),
        ),
{
    let mut details = owned("run: ");
    push_str(&mut details, run_id);
    push_str(&mut details, "\nstate: ");
    push_str(&mut details, live_run_state_label(state));
    push_filled_line(&mut details, "\ntype: ", run_type);
    let ghost a = details@;
    match progress_percent {
        Some(p) => {
            push_str(&mut details, "\nprogress: ");
            push_decimal(&mut details, p as u64);
            push_str(&mut details, "%");
        },
        None => {},
    }
    let ghost b = details@;
    match phase {
        Some(p) => {
            push_str(&mut details, "\nphase: ");
            push_str(&mut details, run_step_status_text(p));
        },
        None => {},
    }
    let ghost c = details@;
    push_filled_line(&mut details, "\nstepKey: ", step_key);
    push_filled_line(&mut details, "\nstepSummary: ", step_summary);
    push_filled_line(&mut details, "\ndetail: ", detail_text);
    push_filled_line(&mut details, "\nstatusText: ", status_text);
    proof {
        let pp = match progress_percent {
            Some(p) => "\nprogress: "@ + decimal(p as nat) + "%"@,
            None => Seq::empty(),
        };
        let ph = match phase {
            Some(p) => "\nphase: "@ + phase_text(*p),
            None => Seq::empty(),
        };
        assert(b =~= a + pp);
        assert(c =~= b + ph);
    }
    assert(details@ =~= run_card_details(
        run_id@,
        opt_str_view(run_type),
        *state,
        progress_percent,
        opt_str_view(detail_text),
        match phase {
            Some(p) => Some(*p),
            None => None,
        },
        opt_str_view(step_key),
        opt_str_view(step_summary),
        opt_str_view(status_text),
    ));
    details
}

/// The texts of a run card for a run's latest known state.
pub fn build_run_presentation(
    run_id: &str,
    run_type: Option<&str>,
    state: &LiveRunState,
    progress_percent: Option<u8>,
    detail_text: Option<&str>,
    phase: Option<&RunProgressPhase>,
    step_key: Option<&str>,
    step_summary: Option<&str>,
    status_text: Option<&str>,
) -> (r: RunPresentation)
    ensures
        r.summary@ == run_card_summary(run_id@, opt_str_view(run_type), opt_str_view(step_summary)),
        r.content@ == run_card_content(
            run_id@,
            opt_str_view(run_type),
            *state,
            opt_str_view(detail_text),
            opt_str_view(status_text),
        ),
        r.details@ == run_card_details(
            run_id@,
            opt_str_view(run_type),
            *state,
            progress_percent,
            opt_str_view(detail_text),
            match phase {
                Some(p) => Some(*p),
                None => None,
            },
            opt_str_view(step_key),
            opt_str_view(step_summary),
            opt_str_view(status_text),
        ),
{
    RunPresentation {
        content: run_content_text(run_id, run_type, state, detail_text, status_text),
        summary: run_summary_text(run_id, run_type, step_summary),
        details: run_details_text(
            run_id,
            run_type,
            state,
            progress_percent,
            detail_text,
            phase,
            step_key,
            step_summary,
            status_text,
        ),
    }
}

/// A tool call as streamed to the desktop.
#[derive(Debug, Clone, PartialEq, Eq)]
pub struct LiveToolEvent {
    pub tool_call_id: String,
    pub tool_name: String,
    pub status: LiveToolStatus,
    pub content: String,
    pub arguments_text: Option<String>,
    pub result_text: Option<String>,
    pub summary: String,
    pub details: String,
}

/// A run as streamed to the desktop.
#[derive(Debug, Clone, PartialEq, Eq)]
pub struct LiveRunEvent {
    pub run_id: String,
    pub run_type: Option<String>,
    pub state: LiveRunState,
    pub progress_percent: Option<u8>,
    pub detail_text: Option<String>,
    pub content: String,
    pub summary: String,
    pub details: String,
}

fn as_str_opt(o: &Option<String>) -> (r: Option<&str>)
    ensures
        opt_str_view(r) == opt_view(*o),
{
    match o {
        Some(s) => Some(s.as_str()),
        None => None,
    }
}

/// A tool call event for the given call, with its card texts.
pub open spec fn live_tool_event_is(
    e: LiveToolEvent,
    tool_call_id: Seq<char>,
    tool_name: Seq<char>,
    status: LiveToolStatus,
    arguments_text: Option<Seq<char>>,
    result_text: Option<Seq<char>>,
) -> bool {
    &&& e.tool_call_id@ == tool_call_id
    &&& e.tool_name@ == tool_name
    &&& e.status == status
    &&& opt_view(e.arguments_text) == arguments_text
    &&& opt_view(e.result_text) == result_text
    &&& e.content@ == tool_card_content(result_text)
    &&& e.summary@ == tool_name + " · "@ + tool_status_label(status)
    &&& e.details@ == tool_card_details(tool_name, status, arguments_text, result_text)
}

/// A tool call event with its card texts.
pub fn build_live_tool_event(
    tool_call_id: &str,
    tool_name: &str,
    status: LiveToolStatus,
    arguments_text: Option<String>,
    result_text: Option<String>,
) -> (r: LiveToolEvent)
    ensures
        live_tool_event_is(r, tool_call_id@, tool_name@, status, opt_view(arguments_text), opt_view(result_text)),
        r.arguments_text == arguments_text,
        r.result_text == result_text,
{
    let p = build_tool_presentation(tool_name, status, as_str_opt(&arguments_text), as_str_opt(&result_text));
    LiveToolEvent {
        tool_call_id: owned(tool_call_id),
        tool_name: owned(tool_name),
        status,
        content: p.content,
        arguments_text,
        result_text,
        summary: p.summary,
        details: p.details,
    }
}

/// A run event for the given report, with its card texts.
pub open spec fn live_run_event_is(
    e: LiveRunEvent,
    run_id: Seq<char>,
    run_type: Option<Seq<char>>,
    state: LiveRunState,
    progress_percent: Option<u8>,
    detail_text: Option<Seq<char>>,
    phase: Option<RunProgressPhase>,
    step_key: Option<Seq<char>>,
    step_summary: Option<Seq<char>>,
    status_text: Option<Seq<char>>,
) -> bool {
    &&& e.run_id@ == run_id
    &&& opt_view(e.run_type) == run_type
    &&& e.state == state
    &&& e.progress_percent == progress_percent
    &&& opt_view(e.detail_text) == detail_text
    &&& e.summary@ == run_card_summary(run_id, run_type, step_summary)
    &&& e.content@ == run_card_content(run_id, run_type, state, detail_text, status_text)
    &&& e.details@ == run_card_details(
        run_id,
        run_type,
        state,
        progress_percent,
        detail_text,
        phase,
        step_key,
        step_summary,
        status_text,
    )
}

/// A run event with its card texts.
pub fn build_live_run_event(
    run_id: &str,
    run_type: Option<String>,
    state: LiveRunState,
    progress_percent: Option<u8>,
    detail_text: Option<String>,
    phase: Option<RunProgressPhase>,
    step_key: Option<String>,
    step_summary: Option<String>,
    status_text: Option<String>,
) -> (r: LiveRunEvent)
    ensures
        live_run_event_is(
            r,
            run_id@,
            opt_view(run_type),
            state,
            progress_percent,
            opt_view(detail_text),
            phase,
            opt_view(step_key),
            opt_view(step_summary),
            opt_view(status_text),
        ),
        r.run_type == run_type,
        r.detail_text == detail_text,
{
    let p = build_run_presentation(
        run_id,
        as_str_opt(&run_type),
        &state,
        progress_percent,
        as_str_opt(&detail_text),
        match &phase {
            Some(x) => Some(x),
            None => None,
        },
        as_str_opt(&step_key),
        as_str_opt(&step_summary),
        as_str_opt(&status_text),
    );
    LiveRunEvent {
        run_id: owned(run_id),
        run_type,
        state,
        progress_percent,
        detail_text,
        content: p.content,
        summary: p.summary,
        details: p.details,
    }
}

/// A progress report of a run.
#[derive(Debug, Clone, PartialEq, Eq)]
pub struct RunProgressUpdate {
    pub phase: RunProgressPhase,
    pub run_id: String,
    pub run_type: String,
    pub run_state: LiveRunState,
    pub progress_percent: Option<u8>,
    pub step_key: Option<String>,
    pub step_summary: Option<String>,
    pub step_status: Option<LiveRunStepStatus>,
    pub step_index: Option<u32>,
    pub steps_total: Option<u32>,
    pub detail_text: Option<String>,
}

/// The percentage of a report, e.g. `40%`, or `n/a`.
pub open spec fn percent_text(p: Option<u8>) -> Seq<char> {
    match p {
        Some(v) => decimal(v as nat) + "%"@,
        None => "n/a"@,
    }
}

/// ` - detail` when there is a non-empty detail text.
pub open spec fn detail_suffix(d: Option<Seq<char>>) -> Seq<char> {
    match d {
        Some(t) => if t.len() == 0 { Seq::empty() } else { " - "@ + t },
        None => Seq::empty(),
    }
}

/// The one-line status text of a progress report.
pub open spec fn progress_text(u: RunProgressUpdate) -> Seq<char> {
    let step = match u.step_key {
        Some(k) => k@,
        None => "run"@,
    };
    match u.phase {
        RunProgressPhase::Created => "run created: "@ + u.run_id@ + " ("@ + u.run_type@ + ")"@,
        RunProgressPhase::StateChanged => "run state: "@ + u.run_id@ + " "@ + run_state_label(u.run_state)
            + " ("@ + percent_text(u.progress_percent) + ")"@ + detail_suffix(opt_view(u.detail_text)),
        RunProgressPhase::StepStarted => "run step started: "@ + u.run_id@ + " ["@ + step + "]"@
            + " ("@ + percent_text(u.progress_percent) + ")"@ + detail_suffix(opt_view(u.detail_text)),
        RunProgressPhase::StepFinished => "run step finished: "@ + u.run_id@ + " ["@ + step + "]"@
            + " ("@ + percent_text(u.progress_percent) + ")"@ + detail_suffix(opt_view(u.detail_text)),
    }
}

fn push_percent_and_detail(out: &mut String, update: &RunProgressUpdate)
    ensures
        final(out)@ == old(out)@ + " ("@ + percent_text(update.progress_percent) + ")"@ + detail_suffix(
            opt_view(update.detail_text),
        ),
{
    push_str(out, " (");
    match update.progress_percent {
        Some(v) => {
            push_decimal(out, v as u64);
            push_str(out, "%");
        },
        None => push_str(out, "n/a"),
    }
    push_str(out, ")");
    match &update.detail_text {
        Some(t) => {
            if chars_of(t.as_str()).len() > 0 {
                push_str(out, " - ");
                push_str(out, t.as_str());
            }
        },
        None => {},
    }
    assert(out@ =~= old(out)@ + " ("@ + percent_text(update.progress_percent) + ")"@ + detail_suffix(
        opt_view(update.detail_text),
    ));
}

/// The one-line status text of a progress report, e.g.
/// `run step finished: run-1 [draft] (80%) - Draft complete`.
pub fn progress_status_text(update: &RunProgressUpdate) -> (r: String)
    ensures
        r@ == progress_text(*update),
{
    let mut r = String::new();
    match update.phase {
        RunProgressPhase::Created => {
            push_str(&mut r, "run created: ");
            push_str(&mut r, update.run_id.as_str());
            push_str(&mut r, " (");
            push_str(&mut r, update.run_type.as_str());
            push_str(&mut r, ")");
            assert(r@ =~= progress_text(*update));
        },
        RunProgressPhase::StateChanged => {
            push_str(&mut r, "run state: ");
            push_str(&mut r, update.run_id.as_str());
            push_str(&mut r, " ");
            push_str(&mut r, live_run_state_label(&update.run_state));
            push_percent_and_detail(&mut r, update);
            assert(r@ =~= progress_text(*update));
        },
        RunProgressPhase::StepStarted => {
            push_str(&mut r, "run step started: ");
            push_str(&mut r, update.run_id.as_str());
            push_str(&mut r, " [");
            let ghost before_step = r@;
            match &update.step_key {
                Some(k) => push_str(&mut r, k.as_str()),
                None => push_str(&mut r, "run"),
            }
            assert(r@ == before_step + match update.step_key {
                Some(k) => k@,
                None => "run"@,
            });
            push_str(&mut r, "]");
            push_percent_and_detail(&mut r, update);
            assert(r@ =~= progress_text(*update));
        },
        RunProgressPhase::StepFinished => {
            push_str(&mut r, "run step finished: ");
            push_str(&mut r, update.run_id.as_str());
            push_str(&mut r, " [");
            let ghost before_step = r@;
            match &update.step_key {
                Some(k) => push_str(&mut r, k.as_str()),
                None => push_str(&mut r, "run"),
            }
            assert(r@ == before_step + match update.step_key {
                Some(k) => k@,
                None => "run"@,
            });
            push_str(&mut r, "]");
            push_percent_and_detail(&mut r, update);
            assert(r@ =~= progress_text(*update));
        },
    }
    r
}

/// The stage of a streamed chat turn.
#[derive(Debug, Clone, Copy, PartialEq, Eq, Structural)]
pub enum ChatStreamPhase {
    Started,
    DecisionReady,
    AssistantStarted,
    AssistantChunk,
    ToolStarted,
    ToolFinished,
    RunCreated,
    RunStarted,
    RunProgress,
    RunStepStarted,
    RunStepFinished,
    RunFinished,
    Completed,
    Stopped,
    Error,
}

/// One event of a streamed chat turn.
#[derive(Debug, Clone, PartialEq, Eq)]
pub struct ChatStreamEvent {
    pub request_id: String,
    pub session_id: String,
    pub phase: ChatStreamPhase,
    pub action_type: Option<String>,
    pub intent: Option<String>,
    pub chunk_text: Option<String>,
    pub status_text: Option<String>,
    pub assistant_text: Option<String>,
    pub timeline_text: Option<String>,
    pub error_text: Option<String>,
    pub created_run_id: Option<String>,
    pub tool_event: Option<LiveToolEvent>,
    pub run_event: Option<LiveRunEvent>,
    pub run_progress: Option<RunProgressUpdate>,
}

/// A chat stream event without a progress report.
pub fn build_chat_stream_event(
    request_id: &str,
    session_id: &str,
    phase: ChatStreamPhase,
    action_type: Option<String>,
    intent: Option<String>,
    chunk_text: Option<String>,
    status_text: Option<String>,
    assistant_text: Option<String>,
    timeline_text: Option<String>,
    error_text: Option<String>,
    created_run_id: Option<String>,
    tool_event: Option<LiveToolEvent>,
    run_event: Option<LiveRunEvent>,
) -> (r: ChatStreamEvent)
    ensures
        r.request_id@ == request_id@,
        r.session_id@ == session_id@,
        r.phase == phase,
        r.action_type == action_type,
        r.intent == intent,
        r.chunk_text == chunk_text,
        r.status_text == status_text,
        r.assistant_text == assistant_text,
        r.timeline_text == timeline_text,
        r.error_text == error_text,
        r.created_run_id == created_run_id,
        r.tool_event == tool_event,
        r.run_event == run_event,
        r.run_progress is None,
{
    ChatStreamEvent {
        request_id: owned(request_id),
        session_id: owned(session_id),
        phase,
        action_type,
        intent,
        chunk_text,
        status_text,
        assistant_text,
        timeline_text,
        error_text,
        created_run_id,
        tool_event,
        run_event,
        run_progress: None,
    }
}

/// An event of a streamed turn that carries only its stage and the given
/// texts.
pub open spec fn bare_event_is(
    e: ChatStreamEvent,
    request_id: Seq<char>,
    session_id: Seq<char>,
    phase: ChatStreamPhase,
    chunk_text: Option<Seq<char>>,
    status_text: Option<Seq<char>>,
    error_text: Option<Seq<char>>,
) -> bool {
    &&& e.request_id@ == request_id
    &&& e.session_id@ == session_id
    &&& e.phase == phase
    &&& e.action_type is None
    &&& e.intent is None
    &&& opt_view(e.chunk_text) == chunk_text
    &&& opt_view(e.status_text) == status_text
    &&& e.assistant_text is None
    &&& e.timeline_text is None
    &&& opt_view(e.error_text) == error_text
    &&& e.created_run_id is None
    &&& e.tool_event is None
    &&& e.run_event is None
    &&& e.run_progress is None
}

/// The status line that opens a streamed turn.
pub open spec fn send_started_text(first_message: bool) -> Seq<char> {
    if first_message {
        "first message send started"@
    } else {
        "message send started"@
    }
}

/// The first event of a streamed turn: sending has started (for the first
/// message of a new session, or a later one).
pub fn send_started_event(request_id: &str, session_id: &str, first_message: bool) -> (r: ChatStreamEvent)
    ensures
        bare_event_is(r, request_id@, session_id@, ChatStreamPhase::Started, None, Some(send_started_text(first_message)), None),
{
    let status = if first_message {
        owned("first message send started")
    } else {
        owned("message send started")
    };
    build_chat_stream_event(
        request_id,
        session_id,
        ChatStreamPhase::Started,
        None,
        None,
        None,
        Some(status),
        None,
        None,
        None,
        None,
        None,
        None,
    )
}

/// The events for one chunk of the assistant's reply: the chunk, preceded
/// by an `AssistantStarted` event when no chunk came before it.
pub fn assistant_chunk_events(request_id: &str, session_id: &str, chunk: &str, started: bool) -> (r: Vec<
    ChatStreamEvent,
>)
    ensures
        r@.len() == (if started { 1int } else { 2int }),
        !started ==> bare_event_is(
            r@[0],
            request_id@,
            session_id@,
            ChatStreamPhase::AssistantStarted,
            None,
            Some("assistant response started"@),
            None,
        ),
        bare_event_is(
            r@.last(),
            request_id@,
            session_id@,
            ChatStreamPhase::AssistantChunk,
            Some(chunk@),
            None,
            None,
        ),
{
    let mut r: Vec<ChatStreamEvent> = Vec::new();
    if !started {
        r.push(
            build_chat_stream_event(
                request_id,
                session_id,
                ChatStreamPhase::AssistantStarted,
                None,
                None,
                None,
                Some(owned("assistant response started")),
                None,
                None,
                None,
                None,
                None,
                None,
            ),
        );
    }
    r.push(
        build_chat_stream_event(
            request_id,
            session_id,
            ChatStreamPhase::AssistantChunk,
            None,
            None,
            Some(owned(chunk)),
            None,
            None,
            None,
            None,
            None,
            None,
            None,
        ),
    );
    r
}

/// The event that reports a failed turn.
pub fn stream_error_event(request_id: &str, session_id: &str, error_text: &str) -> (r: ChatStreamEvent)
    ensures
        bare_event_is(r, request_id@, session_id@, ChatStreamPhase::Error, None, None, Some(error_text@)),
{
    build_chat_stream_event(
        request_id,
        session_id,
        ChatStreamPhase::Error,
        None,
        None,
        None,
        None,
        None,
        None,
        Some(owned(error_text)),
        None,
        None,
        None,
    )
}

/// The stream stage a progress report announces.
pub open spec fn stream_phase_for(p: RunProgressPhase) -> ChatStreamPhase {
    match p {
        RunProgressPhase::Created => ChatStreamPhase::RunCreated,
        RunProgressPhase::StateChanged => ChatStreamPhase::RunProgress,
        RunProgressPhase::StepStarted => ChatStreamPhase::RunStepStarted,
        RunProgressPhase::StepFinished => ChatStreamPhase::RunStepFinished,
    }
}

/// The stream stage a progress report announces.
pub fn stream_phase_from_progress(update: &RunProgressUpdate) -> (r: ChatStreamPhase)
    ensures
        r == stream_phase_for(update.phase),
{
    match update.phase {
        RunProgressPhase::Created => ChatStreamPhase::RunCreated,
        RunProgressPhase::StateChanged => ChatStreamPhase::RunProgress,
        RunProgressPhase::StepStarted => ChatStreamPhase::RunStepStarted,
        RunProgressPhase::StepFinished => ChatStreamPhase::RunStepFinished,
    }
}

/// Text that is ASCII, already lowercase and without surrounding
/// whitespace: what a normalized name can be compared with directly.
pub open spec fn plain_name(t: Seq<char>) -> bool {
    &&& is_ascii_text(t)
    &&& t.map_values(|c: char| ascii_lower(c)) == t
    &&& trim(t) == t
}

proof fn lemma_plain_name(t: Seq<char>)
    requires
        t.len() > 0,
        forall|i: int| 0 <= i < t.len() ==> 'a' <= #[trigger] t[i] <= 'z' || t[i] == '_',
    ensures
        plain_name(t),
{
    assert(t.map_values(|c: char| ascii_lower(c)) =~= t);
    assert(!is_ws(t[0]));
    assert(!is_ws(t.last()));
    assert(trim_start(t) == t);
}

/// The state and status names are plain names.
pub proof fn lemma_labels_plain(s: LiveRunState, st: LiveRunStepStatus)
    ensures
        plain_name(run_state_label(s)),
        plain_name(step_status_label(st)),
{
    reveal_strlit("queued");
    reveal_strlit("pending");
    reveal_strlit("running");
    reveal_strlit("completed");
    reveal_strlit("failed");
    reveal_strlit("started");
    lemma_plain_name(run_state_label(s));
    lemma_plain_name(step_status_label(st));
}

/// A progress report with its run state and step status read back from
/// their names, as the desktop streams it.
pub fn normalize_live_run_progress_update(update: &RunProgressUpdate) -> (r: RunProgressUpdate)
    ensures
        r.phase == update.phase,
        r.run_id@ == update.run_id@,
        r.run_type@ == update.run_type@,
        r.run_state == run_state_named(normalized_text(Some(run_state_label(update.run_state)))),
        r.progress_percent == update.progress_percent,
        opt_view(r.step_key) == opt_view(update.step_key),
        opt_view(r.step_summary) == opt_view(update.step_summary),
        r.step_status == match update.step_status {
            Some(s) => Some(step_status_named(normalized_text(Some(step_status_label(s))))),
            None => None,
        },
        r.step_index == update.step_index,
        r.steps_total == update.steps_total,
        opt_view(r.detail_text) == opt_view(update.detail_text),
        r.run_state == update.run_state,
        r.step_status == update.step_status,
{
    proof {
        match update.step_status {
            Some(st) => lemma_normalized_names_round_trip(update.run_state, st),
            None => lemma_normalized_names_round_trip(update.run_state, LiveRunStepStatus::Pending),
        }
    }
    let state_label = live_run_state_label(&update.run_state);
    let step_label = match &update.step_status {
        Some(s) => Some(live_run_step_status_label(s)),
        None => None,
    };
    RunProgressUpdate {
        phase: update.phase,
        run_id: copy_string(&update.run_id),
        run_type: copy_string(&update.run_type),
        run_state: normalize_live_run_state(Some(state_label)),
        progress_percent: update.progress_percent,
        step_key: copy_opt(&update.step_key),
        step_summary: copy_opt(&update.step_summary),
        step_status: normalize_live_run_step_status(step_label),
        step_index: update.step_index,
        steps_total: update.steps_total,
        detail_text: copy_opt(&update.detail_text),
    }
}

fn copy_opt(o: &Option<String>) -> (r: Option<String>)
    ensures
        opt_view(r) == opt_view(*o),
{
    match o {
        Some(s) => Some(copy_string(s)),
        None => None,
    }
}

/// Reading a state's or a status's name back gives it unchanged: a
/// normalized report keeps its run state and step status.
pub proof fn lemma_normalized_names_round_trip(s: LiveRunState, st: LiveRunStepStatus)
    ensures
        plain_name(run_state_label(s)) && run_state_named(trim(run_state_label(s))) == s,
        plain_name(step_status_label(st)) && step_status_named(trim(step_status_label(st))) == st,
{
    lemma_labels_plain(s, st);
    reveal_strlit("queued");
    reveal_strlit("created");
    reveal_strlit("pending");
    reveal_strlit("running");
    reveal_strlit("completed");
    reveal_strlit("finished");
    reveal_strlit("failed");
    reveal_strlit("error");
    reveal_strlit("started");
    assert("queued"@[0] != "created"@[0]);
    assert("queued"@[0] != "pending"@[0]);
    assert("queued"@[0] != "running"@[0]);
    assert("queued"@[0] != "completed"@[0]);
    assert("queued"@[0] != "finished"@[0]);
    assert("queued"@[0] != "failed"@[0]);
    assert("queued"@[0] != "error"@[0]);
    assert("queued"@[0] != "started"@[0]);
    assert("created"@[0] != "pending"@[0]);
    assert("created"@[0] != "running"@[0]);
    assert("created"@.len() != "completed"@.len());
    assert("created"@[0] != "finished"@[0]);
    assert("created"@[0] != "failed"@[0]);
    assert("created"@[0] != "error"@[0]);
    assert("created"@[0] != "started"@[0]);
    assert("pending"@[0] != "running"@[0]);
    assert("pending"@[0] != "completed"@[0]);
    assert("pending"@[0] != "finished"@[0]);
    assert("pending"@[0] != "failed"@[0]);
    assert("pending"@[0] != "error"@[0]);
    assert("pending"@[0] != "started"@[0]);
    assert("running"@[0] != "completed"@[0]);
    assert("running"@[0] != "finished"@[0]);
    assert("running"@[0] != "failed"@[0]);
    assert("running"@[0] != "error"@[0]);
    assert("running"@[0] != "started"@[0]);
    assert("completed"@[0] != "finished"@[0]);
    assert("completed"@[0] != "failed"@[0]);
    assert("completed"@[0] != "error"@[0]);
    assert("completed"@[0] != "started"@[0]);
    assert("finished"@.len() != "failed"@.len());
    assert("finished"@[0] != "error"@[0]);
    assert("finished"@[0] != "started"@[0]);
    assert("failed"@[0] != "error"@[0]);
    assert("failed"@[0] != "started"@[0]);
    assert("error"@[0] != "started"@[0]);
}

/// A chat stream event that carries a progress report; its run event is
/// built from the report, which is authoritative for the run.
pub fn build_chat_stream_event_with_run_progress(
    request_id: &str,
    session_id: &str,
    phase: ChatStreamPhase,
    action_type: Option<String>,
    intent: Option<String>,
    chunk_text: Option<String>,
    status_text: Option<String>,
    assistant_text: Option<String>,
    timeline_text: Option<String>,
    error_text: Option<String>,
    created_run_id: Option<String>,
    tool_event: Option<LiveToolEvent>,
    run_progress: RunProgressUpdate,
) -> (r: ChatStreamEvent)
    ensures
        r.request_id@ == request_id@,
        r.session_id@ == session_id@,
        r.phase == phase,
        r.action_type == action_type,
        r.intent == intent,
        r.chunk_text == chunk_text,
        opt_view(r.status_text) == opt_view(status_text),
        r.assistant_text == assistant_text,
        r.timeline_text == timeline_text,
        r.error_text == error_text,
        r.created_run_id == created_run_id,
        r.tool_event == tool_event,
        r.run_progress == Some(run_progress),
        r.run_event matches Some(e) && live_run_event_is(
            e,
            run_progress.run_id@,
            Some(run_progress.run_type@),
            run_progress.run_state,
            run_progress.progress_percent,
            opt_view(run_progress.detail_text),
            Some(run_progress.phase),
            opt_view(run_progress.step_key),
            opt_view(run_progress.step_summary),
            opt_view(status_text),
        ),
{
    let run_event = build_live_run_event(
        run_progress.run_id.as_str(),
        Some(copy_string(&run_progress.run_type)),
        run_progress.run_state,
        run_progress.progress_percent,
        copy_opt(&run_progress.detail_text),
        Some(run_progress.phase),
        copy_opt(&run_progress.step_key),
        copy_opt(&run_progress.step_summary),
        copy_opt(&status_text),
    );
    ChatStreamEvent {
        request_id: owned(request_id),
        session_id: owned(session_id),
        phase,
        action_type,
        intent,
        chunk_text,
        status_text,
        assistant_text,
        timeline_text,
        error_text,
        created_run_id,
        tool_event,
        run_event: Some(run_event),
        run_progress: Some(run_progress),
    }
}

/// The stream event for a progress report: the report normalized, the stage
/// it announces, its status line, and the run it belongs to.
pub fn run_progress_event(request_id: &str, session_id: &str, update: &RunProgressUpdate) -> (r: ChatStreamEvent)
    ensures
        r.request_id@ == request_id@,
        r.session_id@ == session_id@,
        r.phase == stream_phase_for(update.phase),
        r.action_type is None,
        r.intent is None,
        r.chunk_text is None,
        opt_view(r.status_text) == Some(progress_text(*update)),
        r.assistant_text is None,
        r.timeline_text is None,
        r.error_text is None,
        opt_view(r.created_run_id) == Some(update.run_id@),
        r.tool_event is None,
        r.run_progress matches Some(p) && p.run_state == update.run_state && p.step_status
            == update.step_status && p.run_id@ == update.run_id@ && p.phase == update.phase,
        r.run_event matches Some(e) && e.run_id@ == update.run_id@ && e.state == update.run_state
            && e.content@ == run_card_content(
            update.run_id@,
            Some(update.run_type@),
            update.run_state,
            opt_view(update.detail_text),
            Some(progress_text(*update)),
        ),
{
    let normalized = normalize_live_run_progress_update(update);
    let phase = stream_phase_from_progress(&normalized);
    let status_text = progress_status_text(&normalized);
    assert(status_text@ =~= progress_text(*update));
    let run_id = copy_string(&normalized.run_id);
    build_chat_stream_event_with_run_progress(
        request_id,
        session_id,
        phase,
        None,
        None,
        None,
        Some(status_text),
        None,
        None,
        None,
        Some(run_id),
        None,
        normalized,
    )
}

/// What handling one session message produced, as reported to the desktop.
#[derive(Debug, Clone)]
pub struct SessionMessageExecutionResult {
    pub session_id: String,
    pub action_type: String,
    pub intent: String,
    pub assistant_text: String,
    pub timeline_text: String,
    pub created_run_id: Option<String>,
    pub tool_name: Option<String>,
    pub tool_ok: Option<bool>,
    pub tool_summary: Option<String>,
    pub run_status: Option<String>,
}

/// The fields every event about a handled message shares.
pub open spec fn execution_event_base(e: ChatStreamEvent, request_id: Seq<char>, res: SessionMessageExecutionResult) -> bool {
    &&& e.request_id@ == request_id
    &&& e.session_id@ == res.session_id@
    &&& opt_view(e.action_type) == Some(res.action_type@)
    &&& opt_view(e.intent) == Some(res.intent@)
    &&& e.chunk_text is None
    &&& e.error_text is None
    &&& opt_view(e.created_run_id) == opt_view(res.created_run_id)
    &&& e.run_progress is None
}

/// The first event: the decision, with the run it created if any; the
/// assistant's text is attached when the decision created a run.
pub open spec fn decision_event_is(e: ChatStreamEvent, request_id: Seq<char>, res: SessionMessageExecutionResult) -> bool {
    &&& execution_event_base(e, request_id, res)
    &&& e.phase == ChatStreamPhase::DecisionReady
    &&& opt_view(e.status_text) == Some(
        "decision: intent="@ + res.intent@ + " action="@ + res.action_type@ + match res.created_run_id {
            Some(id) => " run="@ + id@,
            None => Seq::empty(),
        },
    )
    &&& opt_view(e.assistant_text) == (if res.action_type@ == "create_run"@ {
        Some(res.assistant_text@)
    } else {
        None
    })
    &&& e.timeline_text is None
    &&& e.tool_event is None
    &&& e.run_event is None
}

/// The id under which a request's tool call is streamed.
pub open spec fn tool_call_id_for(request_id: Seq<char>) -> Seq<char> {
    "tool-call-"@ + request_id
}

/// The status a tool call ended with, as far as the result says.
pub open spec fn finished_tool_status(ok: Option<bool>) -> LiveToolStatus {
    match ok {
        Some(true) => LiveToolStatus::Succeeded,
        Some(false) => LiveToolStatus::Failed,
        None => LiveToolStatus::Started,
    }
}

/// The status line of a finished tool call.
pub open spec fn tool_finished_text(name: Seq<char>, ok: Option<bool>, summary: Option<Seq<char>>) -> Seq<char> {
    let s = match summary {
        Some(t) => t,
        None => name,
    };
    match ok {
        Some(true) => "tool succeeded: "@ + s,
        Some(false) => "tool failed: "@ + s,
        None => "tool finished: "@ + name,
    }
}

/// The two events of a tool call: started, then finished with its summary.
pub open spec fn tool_events_are(
    started: ChatStreamEvent,
    finished: ChatStreamEvent,
    request_id: Seq<char>,
    res: SessionMessageExecutionResult,
    name: Seq<char>,
) -> bool {
    &&& execution_event_base(started, request_id, res)
    &&& started.phase == ChatStreamPhase::ToolStarted
    &&& opt_view(started.status_text) == Some("tool started: "@ + name)
    &&& started.assistant_text is None && started.timeline_text is None && started.run_event is None
    &&& (started.tool_event matches Some(t) && live_tool_event_is(
        t,
        tool_call_id_for(request_id),
        name,
        LiveToolStatus::Started,
        None,
        None,
    ))
    &&& execution_event_base(finished, request_id, res)
    &&& finished.phase == ChatStreamPhase::ToolFinished
    &&& opt_view(finished.status_text) == Some(
        tool_finished_text(name, res.tool_ok, opt_view(res.tool_summary)),
    )
    &&& finished.assistant_text is None && finished.timeline_text is None && finished.run_event is None
    &&& (finished.tool_event matches Some(t) && live_tool_event_is(
        t,
        tool_call_id_for(request_id),
        name,
        finished_tool_status(res.tool_ok),
        None,
        opt_view(res.tool_summary),
    ))
}

/// The status line of a finished run.
pub open spec fn run_finished_text(run_id: Seq<char>, status: Option<Seq<char>>) -> Seq<char> {
    match status {
        Some(s) => "run "@ + run_id + " status: "@ + s,
        None => "run "@ + run_id + " finished"@,
    }
}

/// The state a run ended in, as far as the result says.
pub open spec fn finished_run_state(status: Option<Seq<char>>) -> LiveRunState {
    match status {
        Some(s) => run_state_named(normalized_text(Some(s))),
        None => LiveRunState::Completed,
    }
}

/// The two events of a created run: queued, then finished with its status.
pub open spec fn run_events_are(
    started: ChatStreamEvent,
    finished: ChatStreamEvent,
    request_id: Seq<char>,
    res: SessionMessageExecutionResult,
    run_id: Seq<char>,
) -> bool {
    &&& execution_event_base(started, request_id, res)
    &&& started.phase == ChatStreamPhase::RunStarted
    &&& opt_view(started.status_text) == Some("run started: "@ + run_id)
    &&& started.assistant_text is None && started.timeline_text is None && started.tool_event is None
    &&& (started.run_event matches Some(e) && live_run_event_is(
        e,
        run_id,
        None,
        LiveRunState::Queued,
        None,
        None,
        Some(RunProgressPhase::Created),
        None,
        None,
        Some("run started: "@ + run_id),
    ))
    &&& execution_event_base(finished, request_id, res)
    &&& finished.phase == ChatStreamPhase::RunFinished
    &&& opt_view(finished.status_text) == Some(run_finished_text(run_id, opt_view(res.run_status)))
    &&& finished.assistant_text is None && finished.timeline_text is None && finished.tool_event is None
    &&& (finished.run_event matches Some(e) && live_run_event_is(
        e,
        run_id,
        None,
        finished_run_state(opt_view(res.run_status)),
        None,
        opt_view(res.run_status),
        Some(RunProgressPhase::StateChanged),
        None,
        None,
        Some(run_finished_text(run_id, opt_view(res.run_status))),
    ))
}

/// The last event: the assistant's text and the refreshed timeline.
pub open spec fn completed_event_is(e: ChatStreamEvent, request_id: Seq<char>, res: SessionMessageExecutionResult) -> bool {
    &&& execution_event_base(e, request_id, res)
    &&& e.phase == ChatStreamPhase::Completed
    &&& e.status_text is None
    &&& opt_view(e.assistant_text) == Some(res.assistant_text@)
    &&& opt_view(e.timeline_text) == Some(res.timeline_text@)
    &&& e.tool_event is None
    &&& e.run_event is None
}

/// The events streamed for a handled message, in order: the decision; the
/// tool call's start and finish, if a tool was called; the run's start and
/// finish, if a run was created; and completion.
pub open spec fn execution_events_are(es: Seq<ChatStreamEvent>, request_id: Seq<char>, res: SessionMessageExecutionResult) -> bool {
    let t: int = if res.tool_name is Some { 2 } else { 0 };
    let k: int = if res.created_run_id is Some { 2 } else { 0 };
    &&& es.len() == 2 + t + k
    &&& decision_event_is(es[0], request_id, res)
    &&& (res.tool_name matches Some(name) ==> tool_events_are(es[1], es[2], request_id, res, name@))
    &&& (res.created_run_id matches Some(id) ==> run_events_are(
        es[1 + t],
        es[2 + t],
        request_id,
        res,
        id@,
    ))
    &&& completed_event_is(es[1 + t + k], request_id, res)
}

fn event_base(
    request_id: &str,
    res: &SessionMessageExecutionResult,
    phase: ChatStreamPhase,
    status_text: Option<String>,
    assistant_text: Option<String>,
    timeline_text: Option<String>,
    tool_event: Option<LiveToolEvent>,
    run_event: Option<LiveRunEvent>,
) -> (r: ChatStreamEvent)
    ensures
        execution_event_base(r, request_id@, *res),
        r.phase == phase,
        r.status_text == status_text,
        r.assistant_text == assistant_text,
        r.timeline_text == timeline_text,
        r.tool_event == tool_event,
        r.run_event == run_event,
{
    build_chat_stream_event(
        request_id,
        res.session_id.as_str(),
        phase,
        Some(copy_string(&res.action_type)),
        Some(copy_string(&res.intent)),
        None,
        status_text,
        assistant_text,
        timeline_text,
        None,
        copy_opt(&res.created_run_id),
        tool_event,
        run_event,
    )
}

/// The events to stream for a handled message (see
/// `execution_events_are`).
pub fn execution_result_events(request_id: &str, result: &SessionMessageExecutionResult) -> (r: Vec<
    ChatStreamEvent,
>)
    ensures
        execution_events_are(r@, request_id@, *result),
{
    let mut r: Vec<ChatStreamEvent> = Vec::new();
    let mut decision_text = owned("decision: intent=");
    push_str(&mut decision_text, result.intent.as_str());
    push_str(&mut decision_text, " action=");
    push_str(&mut decision_text, result.action_type.as_str());
    let ghost head = decision_text@;
    match &result.created_run_id {
        Some(id) => {
            push_str(&mut decision_text, " run=");
            push_str(&mut decision_text, id.as_str());
        },
        None => {},
    }
    assert(decision_text@ =~= head + match result.created_run_id {
        Some(id) => " run="@ + id@,
        None => Seq::empty(),
    });
    let assistant = if str_eq(result.action_type.as_str(), "create_run") {
        Some(copy_string(&result.assistant_text))
    } else {
        None
    };
    r.push(event_base(request_id, result, ChatStreamPhase::DecisionReady, Some(decision_text), assistant, None, None, None));
    assert(decision_event_is(r@[0], request_id@, *result));
    let mut call_id = owned("tool-call-");
    push_str(&mut call_id, request_id);
    match &result.tool_name {
        Some(name) => {
            let started_tool = build_live_tool_event(call_id.as_str(), name.as_str(), LiveToolStatus::Started, None, None);
            let mut started_text = owned("tool started: ");
            push_str(&mut started_text, name.as_str());
            r.push(event_base(request_id, result, ChatStreamPhase::ToolStarted, Some(started_text), None, None, Some(started_tool), None));
            let status = match result.tool_ok {
                Some(true) => LiveToolStatus::Succeeded,
                Some(false) => LiveToolStatus::Failed,
                None => LiveToolStatus::Started,
            };
            let finished_tool = build_live_tool_event(call_id.as_str(), name.as_str(), status, None, copy_opt(&result.tool_summary));
            let shown = match &result.tool_summary {
                Some(t) => copy_string(t),
                None => copy_string(name),
            };
            let finished_text = match result.tool_ok {
                Some(true) => {
                    let mut t = owned("tool succeeded: ");
                    push_str(&mut t, shown.as_str());
                    t
                },
                Some(false) => {
                    let mut t = owned("tool failed: ");
                    push_str(&mut t, shown.as_str());
                    t
                },
                None => {
                    let mut t = owned("tool finished: ");
                    push_str(&mut t, name.as_str());
                    t
                },
            };
            r.push(event_base(request_id, result, ChatStreamPhase::ToolFinished, Some(finished_text), None, None, Some(finished_tool), None));
            assert(tool_events_are(r@[1], r@[2], request_id@, *result, name@));
        },
        None => {},
    }
    let ghost t: int = if result.tool_name is Some { 2 } else { 0 };
    assert(r@.len() == 1 + t);
    match &result.created_run_id {
        Some(id) => {
            let mut started_text = owned("run started: ");
            push_str(&mut started_text, id.as_str());
            let started_run = build_live_run_event(
                id.as_str(),
                None,
                LiveRunState::Queued,
                None,
                None,
                Some(RunProgressPhase::Created),
                None,
                None,
                Some(copy_string(&started_text)),
            );
            r.push(event_base(request_id, result, ChatStreamPhase::RunStarted, Some(started_text), None, None, None, Some(started_run)));
            let state = match &result.run_status {
                Some(st) => normalize_live_run_state(Some(st.as_str())),
                None => LiveRunState::Completed,
            };
            let mut finished_text = owned("run ");
            push_str(&mut finished_text, id.as_str());
            match &result.run_status {
                Some(st) => {
                    push_str(&mut finished_text, " status: ");
                    push_str(&mut finished_text, st.as_str());
                },
                None => push_str(&mut finished_text, " finished"),
            }
            let finished_run = build_live_run_event(
                id.as_str(),
                None,
                state,
                None,
                copy_opt(&result.run_status),
                Some(RunProgressPhase::StateChanged),
                None,
                None,
                Some(copy_string(&finished_text)),
            );
            r.push(event_base(request_id, result, ChatStreamPhase::RunFinished, Some(finished_text), None, None, None, Some(finished_run)));
            assert(run_events_are(r@[1 + t], r@[2 + t], request_id@, *result, id@));
        },
        None => {},
    }
    r.push(event_base(
        request_id,
        result,
        ChatStreamPhase::Completed,
        None,
        Some(copy_string(&result.assistant_text)),
        Some(copy_string(&result.timeline_text)),
        None,
        None,
    ));
    r
}

} // verus!
