//! The session timeline as the desktop shows it: as plain text, and as
//! structured entries with one card per run.

use vstd::prelude::*;
use crate::order::{
    lemma_pair_lt_order, lemma_text_lt_asymmetric, lemma_text_lt_total, lemma_text_lt_transitive, pair_less, pair_lt, text_less,
    text_lt,
};
use crate::session::{SessionMessage, SessionMessageRole, role_text};
use crate::presentation::{
    LiveToolEvent, LiveToolStatus, live_tool_event_is, LiveRunEvent, live_run_event_is, LiveRunState, RunProgressPhase, build_run_presentation, normalize_live_run_state,
    normalize_structured_run_state, opt_str_view, run_card_content, run_card_details, run_card_summary,
    run_state_label, run_state_named, normalize_structured_step_status, step_status_label, step_status_named, build_tool_presentation, normalized_text, persisted_tool_status_from_message_data, tool_card_content,
    tool_card_details, tool_status_for, tool_status_label,
};
use crate::text::{
    chars_of, copy_string, indent_block, indent_lines, is_blank, is_blank_text, join, join_strings,
    lemma_views_push, lowercase, opt_view, owned, push_str, str_eq, views, starts_with, contains_text,
};

verus! {

broadcast use vstd::string::group_string_axioms;

/// What the desktop reads of a run progress report stored with a message
/// (its `runProgress` object); a field is `None` when the report does not
/// hold it with the expected JSON type.
#[derive(Debug, Clone, Default)]
pub struct RunProgressData {
    pub run_id: Option<String>,
    pub phase: Option<String>,
    pub run_type: Option<String>,
    pub run_state: Option<String>,
    pub progress_percent: Option<u64>,
    pub step_key: Option<String>,
    pub step_summary: Option<String>,
    pub step_status: Option<String>,
    pub step_index: Option<u64>,
    pub steps_total: Option<u64>,
    pub detail_text: Option<String>,
}

/// An attachment of a user message as the timeline shows it.
#[derive(Debug, Clone, PartialEq, Eq)]
pub struct DesktopTimelineAttachment {
    pub name: String,
    pub size: Option<u64>,
}

/// What the desktop reads from a message's JSON data; a field is `None` (or
/// empty) when the data does not hold it, or is not JSON.
#[derive(Debug, Clone, Default)]
pub struct MessageData {
    /// `tool_name`, when it is a string.
    pub tool_name: Option<String>,
    /// `arguments`, written back as compact JSON, when present.
    pub arguments: Option<String>,
    /// `status`, when it is a string.
    pub tool_status: Option<String>,
    /// `attachments`, each with its `name` (empty when missing) and `size`.
    pub attachments: Vec<DesktopTimelineAttachment>,
    /// `attachments` written back as compact JSON, when it is a non-empty
    /// array.
    pub attachments_json: Option<String>,
    /// `runProgress`, when present.
    pub run_progress: Option<RunProgressData>,
}

/// A timeline message with what was read from its data.
#[derive(Debug, Clone)]
pub struct MessageWithData {
    pub message: SessionMessage,
    pub data: MessageData,
}

/// The header of a tool result in the text timeline.
pub open spec fn tool_header(f: MessageData) -> Seq<char> {
    match (f.tool_name, f.arguments) {
        (Some(n), Some(a)) => "[Tool] "@ + n@ + "("@ + a@ + ")"@,
        _ => "[Tool] unknown()"@,
    }
}

/// The header of a run progress row in the text timeline; the phase
/// defaults to `state_changed`.
pub open spec fn run_header(f: MessageData) -> Seq<char> {
    match f.run_progress {
        Some(p) => {
            let phase = match p.phase {
                Some(x) => x@,
                None => "state_changed"@,
            };
            match p.run_id {
                Some(id) => match p.step_key {
                    Some(k) => "[Run] "@ + id@ + " ["@ + k@ + "] ("@ + phase + ")"@,
                    None => "[Run] "@ + id@ + " ("@ + phase + ")"@,
                },
                None => "[Run] unknown"@,
            }
        },
        None => "[Run] unknown"@,
    }
}

/// The header of a conversation message in the text timeline.
pub open spec fn role_header(r: SessionMessageRole) -> Seq<char> {
    match r {
        SessionMessageRole::User => "[User]"@,
        SessionMessageRole::Assistant => "[Assistant]"@,
        SessionMessageRole::System => "[System]"@,
    }
}

/// One message of the text timeline: a header line, then the indented
/// content (for a run progress row, the content and the raw data).
pub open spec fn message_block(e: MessageWithData) -> Seq<char> {
    let m = e.message;
    if m.message_type@ == "tool_result_message"@ {
        tool_header(e.data) + "\n"@ + indent_lines(m.content@)
    } else if m.message_type@ == "run_progress_message"@ {
        run_header(e.data) + "\n"@ + indent_lines(m.content@ + "\n"@ + m.data_json@)
    } else {
        role_header(m.role) + "\n"@ + indent_lines(conversation_body(e))
    }
}

/// The body of a conversation message in the text timeline: a user message
/// with attachments keeps them as a JSON line after its content.
pub open spec fn conversation_body(e: MessageWithData) -> Seq<char> {
    let m = e.message;
    if m.message_type@ == "user_message"@ {
        match e.data.attachments_json {
            Some(j) => {
                let json = "{\"attachments\":"@ + j@ + "}"@;
                if is_blank_text(m.content@) {
                    json
                } else {
                    m.content@ + "\n"@ + json
                }
            },
            None => m.content@,
        }
    } else {
        m.content@
    }
}

/// The text timeline: the message blocks separated by blank lines.
pub open spec fn messages_text(es: Seq<MessageWithData>) -> Seq<char> {
    if es.len() == 0 {
        "no session messages found"@
    } else {
        join(es.map_values(|e: MessageWithData| message_block(e)), "\n\n"@)
    }
}

fn format_message_block(e: &MessageWithData) -> (r: String)
    ensures
        r@ == message_block(*e),
{
    let m = &e.message;
    let f = &e.data;
    if str_eq(m.message_type.as_str(), "tool_result_message") {
        let mut r = String::new();
        match (&f.tool_name, &f.arguments) {
            (Some(n), Some(a)) => {
                push_str(&mut r, "[Tool] ");
                push_str(&mut r, n.as_str());
                push_str(&mut r, "(");
                push_str(&mut r, a.as_str());
                push_str(&mut r, ")");
            },
            _ => push_str(&mut r, "[Tool] unknown()"),
        }
        push_str(&mut r, "\n");
        let body = indent_block(m.content.as_str());
        push_str(&mut r, body.as_str());
        r
    } else if str_eq(m.message_type.as_str(), "run_progress_message") {
        let mut r = String::new();
        match &f.run_progress {
            Some(p) => match &p.run_id {
                Some(id) => {
                    push_str(&mut r, "[Run] ");
                    push_str(&mut r, id.as_str());
                    match &p.step_key {
                        Some(k) => {
                            push_str(&mut r, " [");
                            push_str(&mut r, k.as_str());
                            push_str(&mut r, "] (");
                        },
                        None => push_str(&mut r, " ("),
                    }
                    match &p.phase {
                        Some(x) => push_str(&mut r, x.as_str()),
                        None => push_str(&mut r, "state_changed"),
                    }
                    push_str(&mut r, ")");
                },
                None => push_str(&mut r, "[Run] unknown"),
            },
            None => push_str(&mut r, "[Run] unknown"),
        }
        push_str(&mut r, "\n");
        let mut run_body = owned(m.content.as_str());
        push_str(&mut run_body, "\n");
        push_str(&mut run_body, m.data_json.as_str());
        let body = indent_block(run_body.as_str());
        push_str(&mut r, body.as_str());
        r
    } else {
        let mut r = match m.role {
            SessionMessageRole::User => owned("[User]"),
            SessionMessageRole::Assistant => owned("[Assistant]"),
            SessionMessageRole::System => owned("[System]"),
        };
        push_str(&mut r, "\n");
        let text = conversation_text(e);
        let body = indent_block(text.as_str());
        push_str(&mut r, body.as_str());
        r
    }
}

fn conversation_text(e: &MessageWithData) -> (r: String)
    ensures
        r@ == conversation_body(*e),
{
    let m = &e.message;
    if str_eq(m.message_type.as_str(), "user_message") {
        match &e.data.attachments_json {
            Some(j) => {
                let mut json = owned("{\"attachments\":");
                push_str(&mut json, j.as_str());
                push_str(&mut json, "}");
                let content = chars_of(m.content.as_str());
                if is_blank(&content) {
                    json
                } else {
                    let mut r = owned(m.content.as_str());
                    push_str(&mut r, "\n");
                    push_str(&mut r, json.as_str());
                    r
                }
            },
            None => owned(m.content.as_str()),
        }
    } else {
        owned(m.content.as_str())
    }
}

/// The session timeline as plain text.
pub fn format_session_messages_text(messages: &Vec<MessageWithData>) -> (r: String)
    ensures
        r@ == messages_text(messages@),
{
    if messages.len() == 0 {
        return owned("no session messages found");
    }
    let ghost all = messages@.map_values(|e: MessageWithData| message_block(e));
    let mut blocks: Vec<String> = Vec::new();
    let n = messages.len();
    let mut i: usize = 0;
    while i < n
        invariant
            n == messages@.len(),
            all == messages@.map_values(|e: MessageWithData| message_block(e)),
            i <= n,
            views(blocks@) == all.take(i as int),
        decreases n - i,
    {
        let b = format_message_block(&messages[i]);
        let ghost before = blocks@;
        blocks.push(b);
        proof {
            lemma_views_push(before, b);
            assert(all.take(i + 1) =~= all.take(i as int).push(all[i as int]));
        }
        i = i + 1;
    }
    assert(all.take(n as int) =~= all);
    join_strings(&blocks, "\n\n")
}

/// One step of a run as shown on its card.
#[derive(Debug, Clone, PartialEq, Eq)]
pub struct DesktopRunStepMeta {
    pub key: String,
    pub summary: String,
    pub status: String,
    pub index: Option<u32>,
    pub total: Option<u32>,
    pub detail_text: Option<String>,
}

/// The structured facts of a run card.
#[derive(Debug, Clone, PartialEq, Eq)]
pub struct DesktopRunCardMeta {
    pub run_id: String,
    pub state: String,
    pub progress_percent: u8,
    pub run_type: Option<String>,
    pub step_key: Option<String>,
    pub step_summary: Option<String>,
    pub step_status: Option<String>,
    pub step_index: Option<u32>,
    pub steps_total: Option<u32>,
    pub detail_text: Option<String>,
    pub current_step_key: Option<String>,
    pub steps: Vec<DesktopRunStepMeta>,
}

/// One entry of the structured timeline: a message, a tool card or a run
/// card.
#[derive(Debug, Clone, PartialEq, Eq)]
pub struct DesktopTimelineMessage {
    pub id: String,
    pub role: String,
    pub kind: String,
    pub source_message_type: Option<String>,
    pub content: String,
    pub summary: Option<String>,
    pub details: Option<String>,
    pub attachments: Vec<DesktopTimelineAttachment>,
    pub run_meta: Option<DesktopRunCardMeta>,
    pub created_at: String,
}

/// The name a tool card shows: the stored tool name when it is not blank,
/// else `unknown_tool`.
pub open spec fn shown_tool_name(f: MessageData) -> Seq<char> {
    match f.tool_name {
        Some(n) => if is_blank_text(n@) { "unknown_tool"@ } else { n@ },
        None => "unknown_tool"@,
    }
}

/// The tool card of a stored tool result; its texts are those of a live
/// tool event for the same call.
pub open spec fn tool_entry_is(t: DesktopTimelineMessage, m: SessionMessage, f: MessageData) -> bool {
    let name = shown_tool_name(f);
    let status = tool_status_for(
        match f.tool_status {
            Some(v) => Some(normalized_text(Some(v@))),
            None => None,
        },
        lowercase(m.content@),
    );
    let args = Some(
        match f.arguments {
            Some(a) => a@,
            None => "{}"@,
        },
    );
    let result = if m.content@.len() == 0 { None } else { Some(m.content@) };
    &&& t.id@ == m.id@
    &&& t.role@ == role_text(m.role)
    &&& t.kind@ == "tool"@
    &&& opt_view(t.source_message_type) == Some(m.message_type@)
    &&& t.content@ == tool_card_content(result)
    &&& opt_view(t.summary) == Some(name + " · "@ + tool_status_label(status))
    &&& opt_view(t.details) == Some(tool_card_details(name, status, args, result))
    &&& t.attachments@.len() == 0
    &&& t.run_meta is None
    &&& t.created_at@ == m.created_at@
}

/// The timeline entry of a conversation message; only user messages carry
/// their attachments.
pub open spec fn message_entry_is(t: DesktopTimelineMessage, m: SessionMessage, f: MessageData) -> bool {
    &&& t.id@ == m.id@
    &&& t.role@ == role_text(m.role)
    &&& t.kind@ == "message"@
    &&& opt_view(t.source_message_type) == Some(m.message_type@)
    &&& t.content@ == m.content@
    &&& t.summary is None
    &&& t.details is None
    &&& t.attachments@ == (if m.message_type@ == "user_message"@ {
        f.attachments@
    } else {
        Seq::empty()
    })
    &&& t.run_meta is None
    &&& t.created_at@ == m.created_at@
}

/// The timeline entry of a stored tool result.
pub fn desktop_tool_message_from_session_message(e: &MessageWithData) -> (t: DesktopTimelineMessage)
    ensures
        tool_entry_is(t, e.message, e.data),
{
    let m = &e.message;
    let f = &e.data;
    let name: &str = match &f.tool_name {
        Some(n) => {
            let v = chars_of(n.as_str());
            if is_blank(&v) {
                "unknown_tool"
            } else {
                n.as_str()
            }
        },
        None => "unknown_tool",
    };
    let args: &str = match &f.arguments {
        Some(a) => a.as_str(),
        None => "{}",
    };
    let status = persisted_tool_status_from_message_data(
        match &f.tool_status {
            Some(v) => Some(v.as_str()),
            None => None,
        },
        m.content.as_str(),
    );
    let has_content = chars_of(m.content.as_str()).len() > 0;
    let result: Option<&str> = if has_content {
        Some(m.content.as_str())
    } else {
        None
    };
    let p = build_tool_presentation(name, status, Some(args), result);
    DesktopTimelineMessage {
        id: copy_string(&m.id),
        role: owned(m.role.as_str()),
        kind: owned("tool"),
        source_message_type: Some(copy_string(&m.message_type)),
        content: p.content,
        summary: Some(p.summary),
        details: Some(p.details),
        attachments: Vec::new(),
        run_meta: None,
        created_at: copy_string(&m.created_at),
    }
}

fn copy_attachments(v: &Vec<DesktopTimelineAttachment>) -> (r: Vec<DesktopTimelineAttachment>)
    ensures
        r@ == v@,
{
    let mut r: Vec<DesktopTimelineAttachment> = Vec::new();
    let mut i: usize = 0;
    while i < v.len()
        invariant
            i <= v@.len(),
            r@ == v@.take(i as int),
        decreases v@.len() - i,
    {
        let a = &v[i];
        r.push(DesktopTimelineAttachment { name: a.name.clone(), size: a.size });
        assert(v@.take(i + 1) =~= v@.take(i as int).push(v@[i as int]));
        i = i + 1;
    }
    assert(v@.take(v@.len() as int) =~= v@);
    r
}

/// The timeline entry of a message that is not a run progress row: a tool
/// card for a tool result, else the message itself; `None` for run progress
/// rows, which are shown through their run's card.
pub fn desktop_message_from_session_message(e: &MessageWithData) -> (r: Option<DesktopTimelineMessage>)
    ensures
        e.message.message_type@ == "run_progress_message"@ ==> r is None,
        e.message.message_type@ == "tool_result_message"@ ==> (r matches Some(t) && tool_entry_is(
            t,
            e.message,
            e.data,
        )),
        e.message.message_type@ != "run_progress_message"@ && e.message.message_type@
            != "tool_result_message"@ ==> (r matches Some(t) && message_entry_is(t, e.message, e.data)),
{
    let m = &e.message;
    if str_eq(m.message_type.as_str(), "run_progress_message") {
        proof {
            reveal_strlit("run_progress_message");
            reveal_strlit("tool_result_message");
            assert("run_progress_message"@[0] != "tool_result_message"@[0]);
        }
        return None;
    }
    if str_eq(m.message_type.as_str(), "tool_result_message") {
        return Some(desktop_tool_message_from_session_message(e));
    }
    let attachments = if str_eq(m.message_type.as_str(), "user_message") {
        copy_attachments(&e.data.attachments)
    } else {
        Vec::new()
    };
    Some(
        DesktopTimelineMessage {
            id: copy_string(&m.id),
            role: owned(m.role.as_str()),
            kind: owned("message"),
            source_message_type: Some(copy_string(&m.message_type)),
            content: copy_string(&m.content),
            summary: None,
            details: None,
            attachments,
            run_meta: None,
            created_at: copy_string(&m.created_at),
        },
    )
}

/// Whether a timeline message is a progress row of run `r`.
pub open spec fn is_progress_of(e: MessageWithData, r: Seq<char>) -> bool {
    e.message.message_type@ == "run_progress_message"@ && opt_view(e.message.run_id) == Some(r)
}

/// Whether `a` was stored before `b`: by creation time, then by id.
pub open spec fn stored_before(a: MessageWithData, b: MessageWithData) -> bool {
    pair_lt(a.message.created_at@, a.message.id@, b.message.created_at@, b.message.id@)
}

/// Among the first `n` messages, the earliest stored progress row of run
/// `r` (the first one on a tie): the row the run's card takes the place of.
pub open spec fn anchor_upto(ms: Seq<MessageWithData>, r: Seq<char>, n: int) -> Option<int>
    decreases n,
{
    if n <= 0 {
        None
    } else {
        let prev = anchor_upto(ms, r, n - 1);
        if is_progress_of(ms[n - 1], r) && (prev is None || stored_before(ms[n - 1], ms[prev.unwrap()])) {
            Some(n - 1)
        } else {
            prev
        }
    }
}

/// Among the first `n` messages, the latest stored progress row of run `r`
/// that carries a progress report (the first one on a tie).
pub open spec fn latest_report_upto(ms: Seq<MessageWithData>, r: Seq<char>, n: int) -> Option<int>
    decreases n,
{
    if n <= 0 {
        None
    } else {
        let prev = latest_report_upto(ms, r, n - 1);
        if is_progress_of(ms[n - 1], r) && ms[n - 1].data.run_progress is Some && (prev is None
            || stored_before(ms[prev.unwrap()], ms[n - 1])) {
            Some(n - 1)
        } else {
            prev
        }
    }
}

/// Among the first `n` messages, the latest stored progress row of run `r`,
/// with or without a report (the last one on a tie): its content is the
/// run's latest status line.
pub open spec fn latest_row_upto(ms: Seq<MessageWithData>, r: Seq<char>, n: int) -> Option<int>
    decreases n,
{
    if n <= 0 {
        None
    } else {
        let prev = latest_row_upto(ms, r, n - 1);
        if is_progress_of(ms[n - 1], r) && (prev is None || !stored_before(ms[n - 1], ms[prev.unwrap()])) {
            Some(n - 1)
        } else {
            prev
        }
    }
}

proof fn lemma_fold_bounds(ms: Seq<MessageWithData>, r: Seq<char>, n: int)
    requires
        0 <= n <= ms.len(),
    ensures
        anchor_upto(ms, r, n) matches Some(i) ==> 0 <= i < n && is_progress_of(ms[i], r),
        latest_report_upto(ms, r, n) matches Some(i) ==> 0 <= i < n && is_progress_of(ms[i], r)
            && ms[i].data.run_progress is Some,
        latest_row_upto(ms, r, n) matches Some(i) ==> 0 <= i < n && is_progress_of(ms[i], r),
        latest_report_upto(ms, r, n) is Some ==> anchor_upto(ms, r, n) is Some && latest_row_upto(
            ms,
            r,
            n,
        ) is Some,
    decreases n,
{
    if n > 0 {
        lemma_fold_bounds(ms, r, n - 1);
    }
}

proof fn lemma_anchor_exists(ms: Seq<MessageWithData>, r: Seq<char>, n: int, i: int)
    requires
        0 <= i < n <= ms.len(),
        is_progress_of(ms[i], r),
    ensures
        anchor_upto(ms, r, n) is Some,
    decreases n,
{
    if i < n - 1 {
        lemma_anchor_exists(ms, r, n - 1, i);
    }
}

/// The positions of run `r`'s anchor row, latest report and latest row.
pub struct RunRows {
    pub anchor: Option<usize>,
    pub latest_report: Option<usize>,
    pub latest_row: Option<usize>,
}

fn stored_before_at(ms: &Vec<MessageWithData>, a: usize, b: usize) -> (r: bool)
    requires
        a < ms@.len(),
        b < ms@.len(),
    ensures
        r == stored_before(ms@[a as int], ms@[b as int]),
{
    pair_less(
        ms[a].message.created_at.as_str(),
        ms[a].message.id.as_str(),
        ms[b].message.created_at.as_str(),
        ms[b].message.id.as_str(),
    )
}

fn progress_of(e: &MessageWithData, r: &str) -> (b: bool)
    ensures
        b == is_progress_of(*e, r@),
{
    str_eq(e.message.message_type.as_str(), "run_progress_message") && match &e.message.run_id {
        Some(id) => str_eq(id.as_str(), r),
        None => false,
    }
}

/// Finds run `r`'s anchor row, latest report and latest row.
pub fn run_rows(ms: &Vec<MessageWithData>, r: &str) -> (rows: RunRows)
    ensures
        match rows.anchor {
            Some(i) => anchor_upto(ms@, r@, ms@.len() as int) == Some(i as int),
            None => anchor_upto(ms@, r@, ms@.len() as int) is None,
        },
        match rows.latest_report {
            Some(i) => latest_report_upto(ms@, r@, ms@.len() as int) == Some(i as int),
            None => latest_report_upto(ms@, r@, ms@.len() as int) is None,
        },
        match rows.latest_row {
            Some(i) => latest_row_upto(ms@, r@, ms@.len() as int) == Some(i as int),
            None => latest_row_upto(ms@, r@, ms@.len() as int) is None,
        },
{
    let n = ms.len();
    let mut anchor: Option<usize> = None;
    let mut report: Option<usize> = None;
    let mut row: Option<usize> = None;
    let mut i: usize = 0;
    while i < n
        invariant
            n == ms@.len(),
            i <= n,
            match anchor {
                Some(k) => anchor_upto(ms@, r@, i as int) == Some(k as int),
                None => anchor_upto(ms@, r@, i as int) is None,
            },
            match report {
                Some(k) => latest_report_upto(ms@, r@, i as int) == Some(k as int),
                None => latest_report_upto(ms@, r@, i as int) is None,
            },
            match row {
                Some(k) => latest_row_upto(ms@, r@, i as int) == Some(k as int),
                None => latest_row_upto(ms@, r@, i as int) is None,
            },
        decreases n - i,
    {
        proof {
            lemma_fold_bounds(ms@, r@, i as int);
        }
        if progress_of(&ms[i], r) {
            anchor = match anchor {
                None => Some(i),
                Some(k) => if stored_before_at(ms, i, k) {
                    Some(i)
                } else {
                    Some(k)
                },
            };
            if ms[i].data.run_progress.is_some() {
                report = match report {
                    None => Some(i),
                    Some(k) => if stored_before_at(ms, k, i) {
                        Some(i)
                    } else {
                        Some(k)
                    },
                };
            }
            row = match row {
                None => Some(i),
                Some(k) => if stored_before_at(ms, i, k) {
                    Some(k)
                } else {
                    Some(i)
                },
            };
        }
        i = i + 1;
    }
    RunRows { anchor, latest_report: report, latest_row: row }
}

/// The step a progress row reports on, if any.
pub open spec fn step_key_of(e: MessageWithData) -> Option<Seq<char>> {
    match e.data.run_progress {
        Some(p) => opt_view(p.step_key),
        None => None,
    }
}

/// Among the first `n` messages, the latest stored progress row of run `r`
/// about step `k` (the first one on a tie).
pub open spec fn latest_step_upto(ms: Seq<MessageWithData>, r: Seq<char>, k: Seq<char>, n: int) -> Option<int>
    decreases n,
{
    if n <= 0 {
        None
    } else {
        let prev = latest_step_upto(ms, r, k, n - 1);
        if is_progress_of(ms[n - 1], r) && step_key_of(ms[n - 1]) == Some(k) && (prev is None
            || stored_before(ms[prev.unwrap()], ms[n - 1])) {
            Some(n - 1)
        } else {
            prev
        }
    }
}

proof fn lemma_latest_step_bounds(ms: Seq<MessageWithData>, r: Seq<char>, k: Seq<char>, n: int)
    requires
        0 <= n <= ms.len(),
    ensures
        latest_step_upto(ms, r, k, n) matches Some(i) ==> 0 <= i < n && is_progress_of(ms[i], r)
            && step_key_of(ms[i]) == Some(k),
    decreases n,
{
    if n > 0 {
        lemma_latest_step_bounds(ms, r, k, n - 1);
    }
}

/// A number that fits in 32 bits, as `u32::try_from` keeps it.
pub open spec fn u32_of(o: Option<u64>) -> Option<u32> {
    match o {
        Some(v) => if v <= 0xffff_ffff { Some(v as u32) } else { None },
        None => None,
    }
}

/// A number that fits in 8 bits, as `u8::try_from` keeps it.
pub open spec fn u8_of(o: Option<u64>) -> Option<u8> {
    match o {
        Some(v) => if v <= 0xff { Some(v as u8) } else { None },
        None => None,
    }
}

/// The status name a step shows: its stored status normalized, or
/// `pending` when it has none.
pub open spec fn shown_step_status(o: Option<String>) -> Seq<char> {
    match o {
        Some(v) => step_status_label(step_status_named(normalized_text(Some(v@)))),
        None => "pending"@,
    }
}

/// The step of a card built from a progress report about step `k`.
pub open spec fn step_meta_is(s: DesktopRunStepMeta, p: RunProgressData, k: Seq<char>) -> bool {
    &&& s.key@ == k
    &&& s.summary@ == match p.step_summary {
        Some(x) => x@,
        None => Seq::empty(),
    }
    &&& s.status@ == shown_step_status(p.step_status)
    &&& s.index == u32_of(p.step_index)
    &&& s.total == u32_of(p.steps_total)
    &&& opt_view(s.detail_text) == opt_view(p.detail_text)
}

/// Steps come in the order of their index (unknown first), then of their
/// key.
pub open spec fn index_lt(a: Option<u32>, b: Option<u32>) -> bool {
    match (a, b) {
        (None, Some(_)) => true,
        (Some(x), Some(y)) => x < y,
        _ => false,
    }
}

/// Whether step `x` is listed before step `y`.
pub open spec fn step_before(x: DesktopRunStepMeta, y: DesktopRunStepMeta) -> bool {
    index_lt(x.index, y.index) || (x.index == y.index && text_lt(x.key@, y.key@))
}

proof fn lemma_step_before_order(x: DesktopRunStepMeta, y: DesktopRunStepMeta, z: DesktopRunStepMeta)
    ensures
        step_before(x, y) ==> !step_before(y, x),
        step_before(x, y) && step_before(y, z) ==> step_before(x, z),
        x.key@ != y.key@ ==> step_before(x, y) || step_before(y, x),
{
    lemma_text_lt_asymmetric(x.key@, y.key@);
    if text_lt(x.key@, y.key@) && text_lt(y.key@, z.key@) {
        lemma_text_lt_transitive(x.key@, y.key@, z.key@);
    }
    if x.key@ != y.key@ {
        lemma_text_lt_total(x.key@, y.key@);
    }
}

/// The steps of run `r`'s card: one per step the run reported on, from its
/// latest report about that step, in step order.
pub open spec fn steps_are(steps: Seq<DesktopRunStepMeta>, ms: Seq<MessageWithData>, r: Seq<char>) -> bool {
    &&& forall|a: int, b: int|
        0 <= a < b < steps.len() ==> step_before(#[trigger] steps[a], #[trigger] steps[b])
    &&& forall|a: int|
        0 <= a < steps.len() ==> (latest_step_upto(ms, r, (#[trigger] steps[a]).key@, ms.len() as int) matches Some(
            i,
        ) && step_meta_is(steps[a], ms[i].data.run_progress.unwrap(), steps[a].key@))
    &&& forall|k: Seq<char>|
        #![trigger latest_step_upto(ms, r, k, ms.len() as int)]
        latest_step_upto(ms, r, k, ms.len() as int) is Some ==> exists|a: int|
            0 <= a < steps.len() && (#[trigger] steps[a]).key@ == k
}

fn latest_step_rows(ms: &Vec<MessageWithData>, r: &str) -> (found: Vec<(String, usize)>)
    ensures
        forall|j: int|
            0 <= j < found@.len() ==> latest_step_upto(ms@, r@, (#[trigger] found@[j]).0@, ms@.len() as int)
                == Some(found@[j].1 as int),
        forall|j1: int, j2: int|
            0 <= j1 < j2 < found@.len() ==> (#[trigger] found@[j1]).0@ != (#[trigger] found@[j2]).0@,
        forall|k: Seq<char>|
            #![trigger latest_step_upto(ms@, r@, k, ms@.len() as int)]
            latest_step_upto(ms@, r@, k, ms@.len() as int) is Some ==> exists|j: int|
                0 <= j < found@.len() && (#[trigger] found@[j]).0@ == k,
{
    let n = ms.len();
    let mut found: Vec<(String, usize)> = Vec::new();
    let mut i: usize = 0;
    while i < n
        invariant
            n == ms@.len(),
            i <= n,
            forall|j: int|
                0 <= j < found@.len() ==> latest_step_upto(ms@, r@, (#[trigger] found@[j]).0@, i as int)
                    == Some(found@[j].1 as int),
            forall|j1: int, j2: int|
                0 <= j1 < j2 < found@.len() ==> (#[trigger] found@[j1]).0@ != (#[trigger] found@[j2]).0@,
            forall|k: Seq<char>|
                #![trigger latest_step_upto(ms@, r@, k, i as int)]
                latest_step_upto(ms@, r@, k, i as int) is Some ==> exists|j: int|
                    0 <= j < found@.len() && (#[trigger] found@[j]).0@ == k,
        decreases n - i,
    {
        let key: Option<&str> = if progress_of(&ms[i], r) {
            match &ms[i].data.run_progress {
                Some(p) => match &p.step_key {
                    Some(k) => Some(k.as_str()),
                    None => None,
                },
                None => None,
            }
        } else {
            None
        };
        match key {
            None => {
                assert forall|k: Seq<char>| #![trigger latest_step_upto(ms@, r@, k, i + 1)]
                    latest_step_upto(ms@, r@, k, i + 1) == latest_step_upto(ms@, r@, k, i as int) by {}
            },
            Some(k) => {
                let mut j: usize = 0;
                while j < found.len() && !str_eq(found[j].0.as_str(), k)
                    invariant
                        j <= found@.len(),
                        forall|q: int| 0 <= q < j ==> (#[trigger] found@[q]).0@ != k@,
                    decreases found@.len() - j,
                {
                    j = j + 1;
                }
                let ghost old_found = found@;
                if j < found.len() {
                    let prev = found[j].1;
                    proof {
                        lemma_latest_step_bounds(ms@, r@, k@, i as int);
                    }
                    if stored_before_at(ms, prev, i) {
                        let name = copy_string(&found[j].0);
                        found.set(j, (name, i));
                    }
                } else {
                    proof {
                        assert(latest_step_upto(ms@, r@, k@, i as int) is None);
                    }
                    found.push((owned(k), i));
                }
                proof {
                    assert forall|kk: Seq<char>| kk != k@ implies #[trigger] latest_step_upto(ms@, r@, kk, i + 1)
                        == latest_step_upto(ms@, r@, kk, i as int) by {}
                    assert forall|q: int| 0 <= q < found@.len() implies latest_step_upto(
                        ms@,
                        r@,
                        (#[trigger] found@[q]).0@,
                        i + 1,
                    ) == Some(found@[q].1 as int) by {
                        if q != j {
                            assert(found@[q] == old_found[q]);
                            assert(old_found[q].0@ != k@);
                        }
                    }
                    assert forall|kk: Seq<char>| #![trigger latest_step_upto(ms@, r@, kk, i + 1)]
                        latest_step_upto(ms@, r@, kk, i + 1) is Some implies exists|q: int|
                        0 <= q < found@.len() && (#[trigger] found@[q]).0@ == kk by {
                        if kk == k@ {
                            assert(found@[j as int].0@ == kk);
                        } else {
                            assert(latest_step_upto(ms@, r@, kk, i as int) is Some);
                            let q = choose|q: int| 0 <= q < old_found.len() && (#[trigger] old_found[q]).0@ == kk;
                            assert(found@[q].0@ == kk);
                        }
                    }
                }
            },
        }
        i = i + 1;
    }
    found
}

fn u32_opt(o: Option<u64>) -> (r: Option<u32>)
    ensures
        r == u32_of(o),
{
    match o {
        Some(v) => if v <= 0xffff_ffff {
            Some(v as u32)
        } else {
            None
        },
        None => None,
    }
}

fn u8_opt(o: Option<u64>) -> (r: Option<u8>)
    ensures
        r == u8_of(o),
{
    match o {
        Some(v) => if v <= 0xff {
            Some(v as u8)
        } else {
            None
        },
        None => None,
    }
}

fn opt_copy(o: &Option<String>) -> (r: Option<String>)
    ensures
        opt_view(r) == opt_view(*o),
{
    match o {
        Some(s) => Some(copy_string(s)),
        None => None,
    }
}

fn opt_str(o: &Option<String>) -> (r: Option<&str>)
    ensures
        opt_str_view(r) == opt_view(*o),
{
    match o {
        Some(s) => Some(s.as_str()),
        None => None,
    }
}

fn step_meta(p: &RunProgressData, key: &str) -> (s: DesktopRunStepMeta)
    ensures
        step_meta_is(s, *p, key@),
{
    DesktopRunStepMeta {
        key: owned(key),
        summary: match &p.step_summary {
            Some(x) => copy_string(x),
            None => String::new(),
        },
        status: match normalize_structured_step_status(opt_str(&p.step_status)) {
            Some(x) => x,
            None => owned("pending"),
        },
        index: u32_opt(p.step_index),
        total: u32_opt(p.steps_total),
        detail_text: opt_copy(&p.detail_text),
    }
}

fn step_less(x: &DesktopRunStepMeta, y: &DesktopRunStepMeta) -> (r: bool)
    ensures
        r == step_before(*x, *y),
{
    match (x.index, y.index) {
        (None, Some(_)) => true,
        (Some(a), Some(b)) => if a < b {
            true
        } else if a == b {
            text_less(x.key.as_str(), y.key.as_str())
        } else {
            false
        },
        (None, None) => text_less(x.key.as_str(), y.key.as_str()),
        (Some(_), None) => false,
    }
}

/// Whether steps are strictly in step order.
pub open spec fn steps_sorted(v: Seq<DesktopRunStepMeta>) -> bool {
    forall|a: int, b: int| 0 <= a < b < v.len() ==> step_before(#[trigger] v[a], #[trigger] v[b])
}

fn insert_step(v: &mut Vec<DesktopRunStepMeta>, meta: DesktopRunStepMeta) -> (pos: usize)
    requires
        steps_sorted(old(v)@),
        forall|a: int| 0 <= a < old(v)@.len() ==> (#[trigger] old(v)@[a]).key@ != meta.key@,
    ensures
        pos <= old(v)@.len(),
        final(v)@ == old(v)@.insert(pos as int, meta),
        steps_sorted(final(v)@),
{
    let mut pos: usize = 0;
    while pos < v.len() && !step_less(&meta, &v[pos])
        invariant
            pos <= v@.len(),
            v@ == old(v)@,
            forall|a: int| 0 <= a < pos ==> step_before(#[trigger] v@[a], meta),
            forall|a: int| 0 <= a < v@.len() ==> (#[trigger] v@[a]).key@ != meta.key@,
        decreases v@.len() - pos,
    {
        proof {
            lemma_step_before_order(v@[pos as int], meta, meta);
        }
        pos = pos + 1;
    }
    let ghost before = v@;
    proof {
        assert forall|a: int| pos <= a < before.len() implies step_before(meta, #[trigger] before[a]) by {
            if a > pos {
                lemma_step_before_order(meta, before[pos as int], before[a]);
            }
        }
    }
    v.insert(pos, meta);
    proof {
        assert forall|a: int, b: int| 0 <= a < b < v@.len() implies step_before(
            #[trigger] v@[a],
            #[trigger] v@[b],
        ) by {
            if a < pos && b == pos {
            } else if a < pos && b > pos {
                assert(v@[b] == before[b - 1]);
                lemma_step_before_order(before[a], meta, before[b - 1]);
            } else if a == pos {
                assert(v@[b] == before[b - 1]);
            } else if a > pos {
                assert(v@[a] == before[a - 1]);
                assert(v@[b] == before[b - 1]);
            } else {
                assert(v@[a] == before[a]);
                assert(v@[b] == before[b]);
            }
        }
    }
    pos
}

/// The steps of run `r`'s card, in step order.
#[verifier::rlimit(50)]
pub fn run_steps(ms: &Vec<MessageWithData>, r: &str) -> (steps: Vec<DesktopRunStepMeta>)
    ensures
        steps_are(steps@, ms@, r@),
{
    let found = latest_step_rows(ms, r);
    let mut sorted: Vec<DesktopRunStepMeta> = Vec::new();
    let mut j: usize = 0;
    while j < found.len()
        invariant
            j <= found@.len(),
            forall|q: int|
                0 <= q < found@.len() ==> latest_step_upto(ms@, r@, (#[trigger] found@[q]).0@, ms@.len() as int)
                    == Some(found@[q].1 as int),
            forall|j1: int, j2: int|
                0 <= j1 < j2 < found@.len() ==> (#[trigger] found@[j1]).0@ != (#[trigger] found@[j2]).0@,
            steps_sorted(sorted@),
            forall|a: int|
                0 <= a < sorted@.len() ==> (latest_step_upto(ms@, r@, (#[trigger] sorted@[a]).key@, ms@.len() as int) matches Some(
                    i,
                ) && step_meta_is(sorted@[a], ms@[i].data.run_progress.unwrap(), sorted@[a].key@)),
            forall|a: int| 0 <= a < sorted@.len() ==> exists|q: int| 0 <= q < j && (#[trigger] found@[q]).0@ == (#[trigger] sorted@[a]).key@,
            forall|q: int| 0 <= q < j ==> exists|a: int| 0 <= a < sorted@.len() && (#[trigger] sorted@[a]).key@ == (#[trigger] found@[q]).0@,
        decreases found@.len() - j,
    {
        let key = &found[j].0;
        let row = found[j].1;
        proof {
            lemma_latest_step_bounds(ms@, r@, key@, ms@.len() as int);
        }
        let meta = step_meta(ms[row].data.run_progress.as_ref().unwrap(), key.as_str());
        proof {
            assert forall|a: int| 0 <= a < sorted@.len() implies (#[trigger] sorted@[a]).key@ != meta.key@ by {
                let q = choose|q: int| 0 <= q < j && (#[trigger] found@[q]).0@ == sorted@[a].key@;
                assert(found@[q].0@ != found@[j as int].0@);
            }
        }
        let ghost before = sorted@;
        let pos = insert_step(&mut sorted, meta);
        proof {
            assert forall|a: int| 0 <= a < sorted@.len() implies (latest_step_upto(
                ms@,
                r@,
                (#[trigger] sorted@[a]).key@,
                ms@.len() as int,
            ) matches Some(i) && step_meta_is(sorted@[a], ms@[i].data.run_progress.unwrap(), sorted@[a].key@)) by {
                if a < pos {
                    assert(sorted@[a] == before[a]);
                } else if a > pos {
                    assert(sorted@[a] == before[a - 1]);
                }
            }
            assert forall|a: int| 0 <= a < sorted@.len() implies exists|q: int|
                0 <= q < j + 1 && (#[trigger] found@[q]).0@ == (#[trigger] sorted@[a]).key@ by {
                if a == pos {
                    assert(found@[j as int].0@ == sorted@[a].key@);
                } else if a < pos {
                    assert(sorted@[a] == before[a]);
                } else {
                    assert(sorted@[a] == before[a - 1]);
                }
            }
            assert forall|q: int| 0 <= q < j + 1 implies exists|a: int|
                0 <= a < sorted@.len() && (#[trigger] sorted@[a]).key@ == (#[trigger] found@[q]).0@ by {
                if q == j {
                    assert(sorted@[pos as int].key@ == found@[q].0@);
                } else {
                    let a = choose|a: int| 0 <= a < before.len() && (#[trigger] before[a]).key@ == found@[q].0@;
                    if a < pos {
                        assert(sorted@[a] == before[a]);
                    } else {
                        assert(sorted@[a + 1] == before[a]);
                    }
                }
            }
        }
        j = j + 1;
    }
    proof {
        assert forall|k: Seq<char>| #![trigger latest_step_upto(ms@, r@, k, ms@.len() as int)]
            latest_step_upto(ms@, r@, k, ms@.len() as int) is Some implies exists|a: int|
            0 <= a < sorted@.len() && (#[trigger] sorted@[a]).key@ == k by {
            let q = choose|q: int| 0 <= q < found@.len() && (#[trigger] found@[q]).0@ == k;
            let a = choose|a: int| 0 <= a < sorted@.len() && (#[trigger] sorted@[a]).key@ == found@[q].0@;
        }
    }
    sorted
}

/// The progress phase a stored phase name stands for; unknown names count
/// as a state change.
pub open spec fn phase_named(t: Seq<char>) -> RunProgressPhase {
    if t == "created"@ {
        RunProgressPhase::Created
    } else if t == "state_changed"@ {
        RunProgressPhase::StateChanged
    } else if t == "step_started"@ {
        RunProgressPhase::StepStarted
    } else if t == "step_finished"@ {
        RunProgressPhase::StepFinished
    } else {
        RunProgressPhase::StateChanged
    }
}

/// The phase of a stored report, if it names one.
pub open spec fn report_phase(p: RunProgressData) -> Option<RunProgressPhase> {
    match p.phase {
        Some(t) => Some(phase_named(t@)),
        None => None,
    }
}

/// The run state of a stored report.
pub open spec fn report_state(p: RunProgressData) -> LiveRunState {
    run_state_named(normalized_text(opt_view(p.run_state)))
}

/// The structured facts of run `r`'s card, from its latest report `p`.
pub open spec fn run_meta_is(m: DesktopRunCardMeta, p: RunProgressData, ms: Seq<MessageWithData>, r: Seq<char>) -> bool {
    &&& m.run_id@ == r
    &&& m.state@ == run_state_label(report_state(p))
    &&& m.progress_percent == match u8_of(p.progress_percent) {
        Some(v) => v,
        None => 0,
    }
    &&& opt_view(m.run_type) == opt_view(p.run_type)
    &&& opt_view(m.step_key) == opt_view(p.step_key)
    &&& opt_view(m.step_summary) == opt_view(p.step_summary)
    &&& opt_view(m.step_status) == match p.step_status {
        Some(v) => Some(step_status_label(step_status_named(normalized_text(Some(v@))))),
        None => None,
    }
    &&& m.step_index == u32_of(p.step_index)
    &&& m.steps_total == u32_of(p.steps_total)
    &&& opt_view(m.detail_text) == opt_view(p.detail_text)
    &&& opt_view(m.current_step_key) == opt_view(p.step_key)
    &&& steps_are(m.steps@, ms, r)
}

/// Run `r`'s card: built from its latest report, with its latest status line
/// as content, placed at its anchor row's time.
pub open spec fn run_card_is(c: DesktopTimelineMessage, ms: Seq<MessageWithData>, r: Seq<char>) -> bool {
    let n = ms.len() as int;
    let p = ms[latest_report_upto(ms, r, n).unwrap()].data.run_progress.unwrap();
    let status = ms[latest_row_upto(ms, r, n).unwrap()].message.content@;
    let anchor = ms[anchor_upto(ms, r, n).unwrap()].message;
    let state = report_state(p);
    &&& c.id@ == "run-card-"@ + r
    &&& c.role@ == "system"@
    &&& c.kind@ == "run"@
    &&& opt_view(c.source_message_type) == Some("run_progress_message"@)
    &&& c.content@ == run_card_content(r, opt_view(p.run_type), state, opt_view(p.detail_text), Some(status))
    &&& opt_view(c.summary) == Some(run_card_summary(r, opt_view(p.run_type), opt_view(p.step_summary)))
    &&& opt_view(c.details) == Some(
        run_card_details(
            r,
            opt_view(p.run_type),
            state,
            u8_of(p.progress_percent),
            opt_view(p.detail_text),
            report_phase(p),
            opt_view(p.step_key),
            opt_view(p.step_summary),
            Some(status),
        ),
    )
    &&& c.attachments@.len() == 0
    &&& c.created_at@ == anchor.created_at@
    &&& (c.run_meta matches Some(m) && run_meta_is(m, p, ms, r))
}

fn phase_of(t: &str) -> (p: RunProgressPhase)
    ensures
        p == phase_named(t@),
{
    if str_eq(t, "created") {
        RunProgressPhase::Created
    } else if str_eq(t, "state_changed") {
        RunProgressPhase::StateChanged
    } else if str_eq(t, "step_started") {
        RunProgressPhase::StepStarted
    } else if str_eq(t, "step_finished") {
        RunProgressPhase::StepFinished
    } else {
        RunProgressPhase::StateChanged
    }
}

fn card_meta(ms: &Vec<MessageWithData>, r: &str, p: &RunProgressData) -> (m: DesktopRunCardMeta)
    ensures
        run_meta_is(m, *p, ms@, r@),
{
    DesktopRunCardMeta {
        run_id: owned(r),
        state: normalize_structured_run_state(opt_str(&p.run_state)),
        progress_percent: match u8_opt(p.progress_percent) {
            Some(v) => v,
            None => 0,
        },
        run_type: opt_copy(&p.run_type),
        step_key: opt_copy(&p.step_key),
        step_summary: opt_copy(&p.step_summary),
        step_status: normalize_structured_step_status(opt_str(&p.step_status)),
        step_index: u32_opt(p.step_index),
        steps_total: u32_opt(p.steps_total),
        detail_text: opt_copy(&p.detail_text),
        current_step_key: opt_copy(&p.step_key),
        steps: run_steps(ms, r),
    }
}

/// Run `r`'s card; `None` when none of its rows carries a report.
pub fn run_card_for(ms: &Vec<MessageWithData>, r: &str) -> (c: Option<DesktopTimelineMessage>)
    ensures
        c is None <==> latest_report_upto(ms@, r@, ms@.len() as int) is None,
        c matches Some(card) ==> run_card_is(card, ms@, r@),
{
    let rows = run_rows(ms, r);
    proof {
        lemma_fold_bounds(ms@, r@, ms@.len() as int);
    }
    let report = match rows.latest_report {
        Some(i) => i,
        None => return None,
    };
    let p = ms[report].data.run_progress.as_ref().unwrap();
    let status = &ms[rows.latest_row.unwrap()].message.content;
    let anchor = &ms[rows.anchor.unwrap()].message;
    let state = normalize_live_run_state(opt_str(&p.run_state));
    let phase = match &p.phase {
        Some(t) => Some(phase_of(t.as_str())),
        None => None,
    };
    let presentation = build_run_presentation(
        r,
        opt_str(&p.run_type),
        &state,
        u8_opt(p.progress_percent),
        opt_str(&p.detail_text),
        match &phase {
            Some(x) => Some(x),
            None => None,
        },
        opt_str(&p.step_key),
        opt_str(&p.step_summary),
        Some(status.as_str()),
    );
    let mut id = owned("run-card-");
    push_str(&mut id, r);
    Some(
        DesktopTimelineMessage {
            id,
            role: owned(SessionMessageRole::System.as_str()),
            kind: owned("run"),
            source_message_type: Some(owned("run_progress_message")),
            content: presentation.content,
            summary: Some(presentation.summary),
            details: Some(presentation.details),
            attachments: Vec::new(),
            run_meta: Some(card_meta(ms, r, p)),
            created_at: copy_string(&anchor.created_at),
        },
    )
}

/// Whether run `r` gets a card: one of its rows carries a report.
pub open spec fn card_exists(ms: Seq<MessageWithData>, r: Seq<char>) -> bool {
    latest_report_upto(ms, r, ms.len() as int) is Some
}

/// The id of run `r`'s anchor row.
pub open spec fn anchor_id(ms: Seq<MessageWithData>, r: Seq<char>) -> Seq<char> {
    ms[anchor_upto(ms, r, ms.len() as int).unwrap()].message.id@
}

/// Whether one of the first `i` messages is a progress row of run `r` with
/// its anchor's id.
pub open spec fn anchor_seen(ms: Seq<MessageWithData>, r: Seq<char>, i: int) -> bool {
    exists|j: int| 0 <= j < i && #[trigger] is_progress_of(ms[j], r) && ms[j].message.id@ == anchor_id(ms, r)
}

/// Whether the timeline shows run `r`'s card in place of message `i`: the
/// first progress row of the run that has its anchor's id, when the run has
/// a card.
pub open spec fn card_shown_at(ms: Seq<MessageWithData>, i: int) -> bool {
    let m = ms[i].message;
    &&& m.message_type@ == "run_progress_message"@
    &&& (m.run_id matches Some(r) && card_exists(ms, r@) && m.id@ == anchor_id(ms, r@) && !anchor_seen(
        ms,
        r@,
        i,
    ))
}

/// Whether message `i` has an entry in the timeline: every message but the
/// progress rows does; a progress row does when its run's card is shown there.
pub open spec fn kept_at(ms: Seq<MessageWithData>, i: int) -> bool {
    ms[i].message.message_type@ != "run_progress_message"@ || card_shown_at(ms, i)
}

/// The messages among the first `n` that have a timeline entry, in order.
pub open spec fn kept_upto(ms: Seq<MessageWithData>, n: int) -> Seq<int>
    decreases n,
{
    if n <= 0 {
        Seq::empty()
    } else if kept_at(ms, n - 1) {
        kept_upto(ms, n - 1).push(n - 1)
    } else {
        kept_upto(ms, n - 1)
    }
}

/// The timeline entry for message `i`.
pub open spec fn entry_for(t: DesktopTimelineMessage, ms: Seq<MessageWithData>, i: int) -> bool {
    let m = ms[i].message;
    if m.message_type@ == "run_progress_message"@ {
        run_card_is(t, ms, m.run_id.unwrap()@)
    } else if m.message_type@ == "tool_result_message"@ {
        tool_entry_is(t, m, ms[i].data)
    } else {
        message_entry_is(t, m, ms[i].data)
    }
}

/// The structured timeline of a session: one entry per kept message, in
/// order.
pub open spec fn timeline_is(out: Seq<DesktopTimelineMessage>, ms: Seq<MessageWithData>) -> bool {
    let kept = kept_upto(ms, ms.len() as int);
    &&& out.len() == kept.len()
    &&& forall|j: int| 0 <= j < out.len() ==> entry_for(#[trigger] out[j], ms, kept[j])
}

fn contains_text_item(v: &Vec<String>, r: &str) -> (b: bool)
    ensures
        b == views(v@).contains(r@),
{
    let mut i: usize = 0;
    while i < v.len()
        invariant
            i <= v@.len(),
            forall|q: int| 0 <= q < i ==> (#[trigger] v@[q])@ != r@,
        decreases v@.len() - i,
    {
        if str_eq(v[i].as_str(), r) {
            assert(views(v@)[i as int] == r@);
            return true;
        }
        i = i + 1;
    }
    assert forall|q: int| 0 <= q < views(v@).len() implies views(v@)[q] != r@ by {
        assert(views(v@)[q] == v@[q]@);
    }
    false
}

/// The session's structured timeline: messages and tool cards in order,
/// each run's progress rows replaced by one run card at the run's earliest
/// row.
pub fn desktop_timeline_from_session_messages(ms: &Vec<MessageWithData>) -> (out: Vec<DesktopTimelineMessage>)
    ensures
        timeline_is(out@, ms@),
{
    let n = ms.len();
    let mut out: Vec<DesktopTimelineMessage> = Vec::new();
    let mut inserted: Vec<String> = Vec::new();
    let mut i: usize = 0;
    while i < n
        invariant
            n == ms@.len(),
            i <= n,
            out@.len() == kept_upto(ms@, i as int).len(),
            forall|j: int| 0 <= j < out@.len() ==> entry_for(#[trigger] out@[j], ms@, kept_upto(ms@, i as int)[j]),
            forall|r: Seq<char>|
                #![trigger views(inserted@).contains(r)]
                views(inserted@).contains(r) <==> card_exists(ms@, r) && anchor_seen(ms@, r, i as int),
        decreases n - i,
    {
        let m = &ms[i].message;
        let ghost before_out = out@;
        let ghost before_ins = inserted@;
        if !str_eq(m.message_type.as_str(), "run_progress_message") {
            let entry = desktop_message_from_session_message(&ms[i]);
            match entry {
                Some(t) => out.push(t),
                None => {},
            }
            proof {
                assert forall|r: Seq<char>| anchor_seen(ms@, r, i + 1) == anchor_seen(ms@, r, i as int) by {
                    if anchor_seen(ms@, r, i + 1) {
                        let j = choose|j: int| 0 <= j < i + 1 && #[trigger] is_progress_of(ms@[j], r)
                            && ms@[j].message.id@ == anchor_id(ms@, r);
                        assert(j != i);
                    }
                }
                assert(kept_upto(ms@, i + 1) == kept_upto(ms@, i as int).push(i as int));
                assert forall|j: int| 0 <= j < out@.len() implies entry_for(
                    #[trigger] out@[j],
                    ms@,
                    kept_upto(ms@, i + 1)[j],
                ) by {
                    if j < before_out.len() {
                        assert(out@[j] == before_out[j]);
                    }
                }
            }
        } else {
            match &m.run_id {
                None => {
                    proof {
                        assert forall|r: Seq<char>| anchor_seen(ms@, r, i + 1) == anchor_seen(ms@, r, i as int) by {
                            if anchor_seen(ms@, r, i + 1) {
                                let j = choose|j: int| 0 <= j < i + 1 && #[trigger] is_progress_of(ms@[j], r)
                                    && ms@[j].message.id@ == anchor_id(ms@, r);
                                assert(j != i);
                            }
                        }
                        assert(kept_upto(ms@, i + 1) == kept_upto(ms@, i as int));
                    }
                },
                Some(run_id) => {
                    let r = run_id.as_str();
                    let rows = run_rows(ms, r);
                    proof {
                        lemma_fold_bounds(ms@, r@, ms@.len() as int);
                        assert(is_progress_of(ms@[i as int], r@));
                        assert(opt_view(ms@[i as int].message.run_id) == Some(r@));
                        lemma_anchor_exists(ms@, r@, ms@.len() as int, i as int);
                        assert forall|rr: Seq<char>| rr != r@ implies anchor_seen(ms@, rr, i + 1)
                            == anchor_seen(ms@, rr, i as int) by {
                            if anchor_seen(ms@, rr, i + 1) {
                                let j = choose|j: int| 0 <= j < i + 1 && #[trigger] is_progress_of(ms@[j], rr)
                                    && ms@[j].message.id@ == anchor_id(ms@, rr);
                                assert(j != i);
                            }
                        }
                    }
                    let already = contains_text_item(&inserted, r);
                    let at_anchor = match rows.anchor {
                        Some(a) => str_eq(ms[a].message.id.as_str(), m.id.as_str()),
                        None => false,
                    };
                    proof {
                        if at_anchor {
                            assert(anchor_seen(ms@, r@, i + 1));
                        } else {
                            assert(anchor_seen(ms@, r@, i + 1) == anchor_seen(ms@, r@, i as int)) by {
                                if anchor_seen(ms@, r@, i + 1) {
                                    let j = choose|j: int| 0 <= j < i + 1 && #[trigger] is_progress_of(ms@[j], r@)
                                        && ms@[j].message.id@ == anchor_id(ms@, r@);
                                    assert(j != i);
                                }
                            }
                        }
                        if anchor_seen(ms@, r@, i as int) {
                            assert(anchor_seen(ms@, r@, i + 1));
                        }
                    }
                    if !already && at_anchor {
                        match run_card_for(ms, r) {
                            Some(card) => {
                                out.push(card);
                                inserted.push(owned(r));
                                proof {
                                    lemma_views_push(before_ins, inserted@.last());
                                    assert(kept_upto(ms@, i + 1) == kept_upto(ms@, i as int).push(i as int));
                                    assert forall|j: int| 0 <= j < out@.len() implies entry_for(
                                        #[trigger] out@[j],
                                        ms@,
                                        kept_upto(ms@, i + 1)[j],
                                    ) by {
                                        if j < before_out.len() {
                                            assert(out@[j] == before_out[j]);
                                        }
                                    }
                                    assert forall|rr: Seq<char>| #![trigger views(inserted@).contains(rr)]
                                        views(inserted@).contains(rr) <==> card_exists(ms@, rr) && anchor_seen(
                                        ms@,
                                        rr,
                                        i + 1,
                                    ) by {
                                        if rr != r@ {
                                            if views(inserted@).contains(rr) {
                                                let q = choose|q: int| 0 <= q < views(inserted@).len() && views(inserted@)[q] == rr;
                                                assert(q < before_ins.len());
                                                assert(views(before_ins)[q] == rr);
                                            }
                                            if views(before_ins).contains(rr) {
                                                let q = choose|q: int| 0 <= q < views(before_ins).len() && views(before_ins)[q] == rr;
                                                assert(views(inserted@)[q] == rr);
                                            }
                                        } else {
                                            assert(views(inserted@)[views(inserted@).len() - 1] == rr);
                                        }
                                    }
                                }
                            },
                            None => {
                                proof {
                                    assert(kept_upto(ms@, i + 1) == kept_upto(ms@, i as int));
                                }
                            },
                        }
                    } else {
                        proof {
                            assert(kept_upto(ms@, i + 1) == kept_upto(ms@, i as int));
                        }
                    }
                },
            }
        }
        i = i + 1;
    }
    out
}

/// Whether card `x` is listed before card `y`: by creation time, then id.
pub open spec fn card_before(x: DesktopTimelineMessage, y: DesktopTimelineMessage) -> bool {
    pair_lt(x.created_at@, x.id@, y.created_at@, y.id@)
}

/// Whether cards are strictly in card order.
pub open spec fn cards_sorted(v: Seq<DesktopTimelineMessage>) -> bool {
    forall|a: int, b: int| 0 <= a < b < v.len() ==> card_before(#[trigger] v[a], #[trigger] v[b])
}

/// Whether `c` is the card of some run that has one.
pub open spec fn card_of_a_run(c: DesktopTimelineMessage, ms: Seq<MessageWithData>) -> bool {
    exists|r: Seq<char>| card_exists(ms, r) && #[trigger] run_card_is(c, ms, r)
}

/// The run cards of a session: one per run with a card, in card order.
pub open spec fn run_cards_are(cards: Seq<DesktopTimelineMessage>, ms: Seq<MessageWithData>) -> bool {
    &&& cards_sorted(cards)
    &&& forall|a: int| 0 <= a < cards.len() ==> card_of_a_run(#[trigger] cards[a], ms)
    &&& forall|r: Seq<char>|
        #![trigger card_exists(ms, r)]
        card_exists(ms, r) ==> exists|a: int|
            0 <= a < cards.len() && (#[trigger] cards[a]).id@ == "run-card-"@ + r
}

proof fn lemma_card_order(x: DesktopTimelineMessage, y: DesktopTimelineMessage, z: DesktopTimelineMessage)
    ensures
        card_before(x, y) ==> !card_before(y, x),
        card_before(x, y) && card_before(y, z) ==> card_before(x, z),
        x.id@ != y.id@ ==> card_before(x, y) || card_before(y, x),
{
    lemma_pair_lt_order(x.created_at@, x.id@, y.created_at@, y.id@, z.created_at@, z.id@);
}

proof fn lemma_card_ids_distinct(r1: Seq<char>, r2: Seq<char>)
    requires
        r1 != r2,
    ensures
        "run-card-"@ + r1 != "run-card-"@ + r2,
{
    let p = "run-card-"@;
    if p + r1 == p + r2 {
        assert(r1 =~= (p + r1).skip(p.len() as int));
        assert(r2 =~= (p + r2).skip(p.len() as int));
    }
}

fn insert_card(v: &mut Vec<DesktopTimelineMessage>, card: DesktopTimelineMessage) -> (pos: usize)
    requires
        cards_sorted(old(v)@),
        forall|a: int| 0 <= a < old(v)@.len() ==> (#[trigger] old(v)@[a]).id@ != card.id@,
    ensures
        pos <= old(v)@.len(),
        final(v)@ == old(v)@.insert(pos as int, card),
        cards_sorted(final(v)@),
{
    let mut pos: usize = 0;
    while pos < v.len() && !pair_less(
        card.created_at.as_str(),
        card.id.as_str(),
        v[pos].created_at.as_str(),
        v[pos].id.as_str(),
    )
        invariant
            pos <= v@.len(),
            v@ == old(v)@,
            forall|a: int| 0 <= a < pos ==> card_before(#[trigger] v@[a], card),
            forall|a: int| 0 <= a < v@.len() ==> (#[trigger] v@[a]).id@ != card.id@,
        decreases v@.len() - pos,
    {
        proof {
            lemma_card_order(v@[pos as int], card, card);
        }
        pos = pos + 1;
    }
    let ghost before = v@;
    proof {
        assert forall|a: int| pos <= a < before.len() implies card_before(card, #[trigger] before[a]) by {
            if a > pos {
                lemma_card_order(card, before[pos as int], before[a]);
            }
        }
    }
    v.insert(pos, card);
    proof {
        assert forall|a: int, b: int| 0 <= a < b < v@.len() implies card_before(
            #[trigger] v@[a],
            #[trigger] v@[b],
        ) by {
            if a < pos && b == pos {
            } else if a < pos && b > pos {
                assert(v@[b] == before[b - 1]);
                lemma_card_order(before[a], card, before[b - 1]);
            } else if a == pos {
                assert(v@[b] == before[b - 1]);
            } else if a > pos {
                assert(v@[a] == before[a - 1]);
                assert(v@[b] == before[b - 1]);
            } else {
                assert(v@[a] == before[a]);
                assert(v@[b] == before[b]);
            }
        }
    }
    pos
}

/// Whether a run has a progress row among the first `i` messages.
pub open spec fn run_seen(ms: Seq<MessageWithData>, r: Seq<char>, i: int) -> bool {
    exists|j: int| 0 <= j < i && #[trigger] is_progress_of(ms[j], r)
}

fn run_ids(ms: &Vec<MessageWithData>) -> (ids: Vec<String>)
    ensures
        forall|a: int, b: int| 0 <= a < b < ids@.len() ==> (#[trigger] ids@[a])@ != (#[trigger] ids@[b])@,
        forall|r: Seq<char>|
            #![trigger run_seen(ms@, r, ms@.len() as int)]
            run_seen(ms@, r, ms@.len() as int) <==> views(ids@).contains(r),
{
    let n = ms.len();
    let mut ids: Vec<String> = Vec::new();
    let mut i: usize = 0;
    while i < n
        invariant
            n == ms@.len(),
            i <= n,
            forall|a: int, b: int| 0 <= a < b < ids@.len() ==> (#[trigger] ids@[a])@ != (#[trigger] ids@[b])@,
            forall|r: Seq<char>| #![trigger run_seen(ms@, r, i as int)] run_seen(ms@, r, i as int) <==> views(ids@).contains(r),
        decreases n - i,
    {
        let ghost before = ids@;
        let is_row = str_eq(ms[i].message.message_type.as_str(), "run_progress_message");
        match &ms[i].message.run_id {
            Some(id) => {
                if is_row {
                    if !contains_text_item(&ids, id.as_str()) {
                        ids.push(copy_string(id));
                        proof {
                            lemma_views_push(before, ids@.last());
                            assert forall|a: int, b: int| 0 <= a < b < ids@.len() implies (#[trigger] ids@[a])@
                                != (#[trigger] ids@[b])@ by {
                                if b == ids@.len() - 1 {
                                    assert(views(before)[a] == before[a]@);
                                }
                            }
                        }
                    }
                }
            },
            None => {},
        }
        proof {
            assert forall|r: Seq<char>| #![trigger run_seen(ms@, r, i + 1)]
                run_seen(ms@, r, i + 1) <==> views(ids@).contains(r) by {
                if run_seen(ms@, r, i + 1) && !run_seen(ms@, r, i as int) {
                    assert(is_progress_of(ms@[i as int], r));
                    if !views(before).contains(r) {
                        assert(views(ids@)[ids@.len() - 1] == r);
                    }
                }
                if views(ids@).contains(r) && !views(before).contains(r) {
                    assert(is_progress_of(ms@[i as int], r));
                }
                if views(before).contains(r) {
                    let q = choose|q: int| 0 <= q < views(before).len() && views(before)[q] == r;
                    assert(views(ids@)[q] == r);
                }
                if views(ids@).contains(r) && ids@.len() == before.len() {
                    let q = choose|q: int| 0 <= q < views(ids@).len() && views(ids@)[q] == r;
                    assert(views(before)[q] == r);
                }
                if run_seen(ms@, r, i as int) {
                    let j = choose|j: int| 0 <= j < i && #[trigger] is_progress_of(ms@[j], r);
                    assert(0 <= j < i + 1 && is_progress_of(ms@[j], r));
                }
                if run_seen(ms@, r, i + 1) && !is_progress_of(ms@[i as int], r) {
                    let j = choose|j: int| 0 <= j < i + 1 && #[trigger] is_progress_of(ms@[j], r);
                    assert(j != i);
                }
            }
        }
        i = i + 1;
    }
    ids
}

/// The run cards of a session, in card order.
#[verifier::rlimit(50)]
pub fn desktop_run_cards_from_progress_messages(ms: &Vec<MessageWithData>) -> (cards: Vec<DesktopTimelineMessage>)
    ensures
        run_cards_are(cards@, ms@),
{
    let ids = run_ids(ms);
    let mut cards: Vec<DesktopTimelineMessage> = Vec::new();
    let ghost mut runs: Seq<Seq<char>> = Seq::empty();
    let mut j: usize = 0;
    while j < ids.len()
        invariant
            j <= ids@.len(),
            forall|a: int, b: int| 0 <= a < b < ids@.len() ==> (#[trigger] ids@[a])@ != (#[trigger] ids@[b])@,
            forall|r: Seq<char>|
                #![trigger run_seen(ms@, r, ms@.len() as int)]
                run_seen(ms@, r, ms@.len() as int) <==> views(ids@).contains(r),
            cards_sorted(cards@),
            runs.len() == cards@.len(),
            forall|a: int|
                #![trigger runs[a]]
                0 <= a < runs.len() ==> card_exists(ms@, runs[a]) && run_card_is(cards@[a], ms@, runs[a])
                    && cards@[a].id@ == "run-card-"@ + runs[a] && exists|q: int| 0 <= q < j && (#[trigger] ids@[q])@ == runs[a],
            forall|q: int|
                0 <= q < j && card_exists(ms@, (#[trigger] ids@[q])@) ==> exists|a: int|
                    0 <= a < runs.len() && runs[a] == ids@[q]@,
        decreases ids@.len() - j,
    {
        let r = ids[j].as_str();
        match run_card_for(ms, r) {
            Some(card) => {
                proof {
                    assert forall|a: int| 0 <= a < cards@.len() implies (#[trigger] cards@[a]).id@ != card.id@ by {
                        assert(runs[a] == runs[a]);
                        let q = choose|q: int| 0 <= q < j && (#[trigger] ids@[q])@ == runs[a];
                        lemma_card_ids_distinct(ids@[q]@, ids@[j as int]@);
                    }
                }
                let ghost before = cards@;
                let ghost before_runs = runs;
                let pos = insert_card(&mut cards, card);
                proof {
                    runs = before_runs.insert(pos as int, r@);
                    assert forall|a: int| #![trigger runs[a]] 0 <= a < runs.len() implies card_exists(ms@, runs[a])
                        && run_card_is(cards@[a], ms@, runs[a]) && cards@[a].id@ == "run-card-"@ + runs[a]
                        && exists|q: int| 0 <= q < j + 1 && (#[trigger] ids@[q])@ == runs[a] by {
                        if a == pos {
                            assert(ids@[j as int]@ == runs[a]);
                        } else if a < pos {
                            assert(cards@[a] == before[a]);
                            assert(runs[a] == before_runs[a]);
                            let q = choose|q: int| 0 <= q < j && (#[trigger] ids@[q])@ == before_runs[a];
                        } else {
                            assert(cards@[a] == before[a - 1]);
                            assert(runs[a] == before_runs[a - 1]);
                            let q = choose|q: int| 0 <= q < j && (#[trigger] ids@[q])@ == before_runs[a - 1];
                        }
                    }
                    assert forall|q: int| 0 <= q < j + 1 && card_exists(ms@, (#[trigger] ids@[q])@) implies exists|a: int|
                        0 <= a < runs.len() && runs[a] == ids@[q]@ by {
                        if q == j {
                            assert(runs[pos as int] == ids@[q]@);
                        } else {
                            let a = choose|a: int| 0 <= a < before_runs.len() && before_runs[a] == ids@[q]@;
                            if a < pos {
                                assert(runs[a] == before_runs[a]);
                            } else {
                                assert(runs[a + 1] == before_runs[a]);
                            }
                        }
                    }
                }
            },
            None => {},
        }
        j = j + 1;
    }
    proof {
        assert forall|a: int| 0 <= a < cards@.len() implies card_of_a_run(#[trigger] cards@[a], ms@) by {
            assert(runs[a] == runs[a]);
            assert(card_exists(ms@, runs[a]) && run_card_is(cards@[a], ms@, runs[a]));
        }
        assert forall|r: Seq<char>| #![trigger card_exists(ms@, r)] card_exists(ms@, r) implies exists|a: int|
            0 <= a < cards@.len() && (#[trigger] cards@[a]).id@ == "run-card-"@ + r by {
            lemma_fold_bounds(ms@, r, ms@.len() as int);
            let i = latest_report_upto(ms@, r, ms@.len() as int).unwrap();
            assert(run_seen(ms@, r, ms@.len() as int));
            let q = choose|q: int| 0 <= q < views(ids@).len() && views(ids@)[q] == r;
            assert(ids@[q]@ == r);
            let a = choose|a: int| 0 <= a < runs.len() && runs[a] == ids@[q]@;
            assert(runs[a] == runs[a]);
        }
    }
    cards
}

proof fn lemma_kept_upto(ms: Seq<MessageWithData>, n: int)
    requires
        0 <= n <= ms.len(),
    ensures
        forall|j: int| 0 <= j < kept_upto(ms, n).len() ==> 0 <= #[trigger] kept_upto(ms, n)[j] < n
            && kept_at(ms, kept_upto(ms, n)[j]),
        forall|j1: int, j2: int|
            0 <= j1 < j2 < kept_upto(ms, n).len() ==> #[trigger] kept_upto(ms, n)[j1]
                < #[trigger] kept_upto(ms, n)[j2],
    decreases n,
{
    if n > 0 {
        lemma_kept_upto(ms, n - 1);
        let prev = kept_upto(ms, n - 1);
        let cur = kept_upto(ms, n);
        if kept_at(ms, n - 1) {
            assert(cur == prev.push(n - 1));
            assert forall|j: int| 0 <= j < cur.len() implies 0 <= #[trigger] cur[j] < n && kept_at(ms, cur[j]) by {
                if j < prev.len() {
                    assert(cur[j] == prev[j]);
                }
            }
            assert forall|j1: int, j2: int| 0 <= j1 < j2 < cur.len() implies #[trigger] cur[j1] < #[trigger] cur[j2] by {
                assert(cur[j1] == prev[j1]);
                if j2 < prev.len() {
                    assert(cur[j2] == prev[j2]);
                }
            }
        } else {
            assert(cur == prev);
        }
    }
}

/// The timeline shows each run at most once: no two of its entries are
/// progress rows of the same run.
pub proof fn lemma_one_card_per_run(ms: Seq<MessageWithData>, j1: int, j2: int, r: Seq<char>)
    requires
        0 <= j1 < j2 < kept_upto(ms, ms.len() as int).len(),
    ensures
        !(is_progress_of(ms[kept_upto(ms, ms.len() as int)[j1]], r) && is_progress_of(
            ms[kept_upto(ms, ms.len() as int)[j2]],
            r,
        )),
{
    lemma_kept_upto(ms, ms.len() as int);
    let kept = kept_upto(ms, ms.len() as int);
    let i1 = kept[j1];
    let i2 = kept[j2];
    if is_progress_of(ms[i1], r) && is_progress_of(ms[i2], r) {
        assert(kept_at(ms, i1) && kept_at(ms, i2));
        assert(card_shown_at(ms, i1));
        assert(card_shown_at(ms, i2));
        assert(ms[i1].message.id@ == anchor_id(ms, r));
        assert(anchor_seen(ms, r, i2));
    }
}

/// A run card's state is always one of the five supported run states.
pub proof fn lemma_run_card_state_supported(c: DesktopTimelineMessage, ms: Seq<MessageWithData>, r: Seq<char>)
    requires
        card_exists(ms, r),
        run_card_is(c, ms, r),
    ensures
        c.run_meta matches Some(m) && (m.state@ == "queued"@ || m.state@ == "pending"@ || m.state@
            == "running"@ || m.state@ == "completed"@ || m.state@ == "failed"@),
{
}

/// A stored tool result and the live event for the same call (same tool,
/// status, arguments and result) show the same texts.
pub proof fn lemma_persisted_tool_card_matches_live(
    t: DesktopTimelineMessage,
    m: SessionMessage,
    f: MessageData,
    e: LiveToolEvent,
    call_id: Seq<char>,
)
    requires
        tool_entry_is(t, m, f),
        live_tool_event_is(
            e,
            call_id,
            shown_tool_name(f),
            tool_status_for(
                match f.tool_status {
                    Some(v) => Some(normalized_text(Some(v@))),
                    None => None,
                },
                lowercase(m.content@),
            ),
            Some(
                match f.arguments {
                    Some(a) => a@,
                    None => "{}"@,
                },
            ),
            if m.content@.len() == 0 {
                None
            } else {
                Some(m.content@)
            },
        ),
    ensures
        opt_view(t.summary) == Some(e.summary@),
        opt_view(t.details) == Some(e.details@),
        t.content@ == e.content@,
{
}

/// The report a run's card is built from: its latest stored report.
pub open spec fn latest_report(ms: Seq<MessageWithData>, r: Seq<char>) -> RunProgressData {
    ms[latest_report_upto(ms, r, ms.len() as int).unwrap()].data.run_progress.unwrap()
}

/// The status line a run's card shows: the content of its latest row.
pub open spec fn latest_status_line(ms: Seq<MessageWithData>, r: Seq<char>) -> Seq<char> {
    ms[latest_row_upto(ms, r, ms.len() as int).unwrap()].message.content@
}

/// A run's card and the live event for the run's latest report and status
/// line show the same texts.
pub proof fn lemma_persisted_run_card_matches_live(
    c: DesktopTimelineMessage,
    ms: Seq<MessageWithData>,
    r: Seq<char>,
    e: LiveRunEvent,
)
    requires
        card_exists(ms, r),
        run_card_is(c, ms, r),
        live_run_event_is(
            e,
            r,
            opt_view(latest_report(ms, r).run_type),
            report_state(latest_report(ms, r)),
            u8_of(latest_report(ms, r).progress_percent),
            opt_view(latest_report(ms, r).detail_text),
            report_phase(latest_report(ms, r)),
            opt_view(latest_report(ms, r).step_key),
            opt_view(latest_report(ms, r).step_summary),
            Some(latest_status_line(ms, r)),
        ),
    ensures
        c.content@ == e.content@,
        opt_view(c.summary) == Some(e.summary@),
        opt_view(c.details) == Some(e.details@),
{
}

/// `s` with its first letter made upper case (ASCII letters only).
pub open spec fn capitalized(s: Seq<char>) -> Seq<char> {
    if s.len() > 0 && 'a' <= s[0] && s[0] <= 'z' {
        s.update(0, ((s[0] as u32 - 32) as u32) as char)
    } else {
        s
    }
}

/// A conversation message's block in the text timeline opens with its own
/// role's name, capitalized, in square brackets, on a line of its own; so
/// the three roles open their blocks differently, and a one-message
/// timeline is that block.
pub proof fn lemma_conversation_block_names_role(e: MessageWithData)
    requires
        e.message.message_type@ != "tool_result_message"@,
        e.message.message_type@ != "run_progress_message"@,
    ensures
        starts_with(
            message_block(e),
            seq!['['] + capitalized(role_text(e.message.role)) + seq![']', '\n'],
        ),
        forall|a: SessionMessageRole, b: SessionMessageRole| role_header(a) == role_header(b) ==> a == b,
        messages_text(seq![e]) == message_block(e),
{
    reveal_strlit("user");
    reveal_strlit("assistant");
    reveal_strlit("system");
    reveal_strlit("[User]");
    reveal_strlit("[Assistant]");
    reveal_strlit("[System]");
    reveal_strlit("\n");
    let h = seq!['['] + capitalized(role_text(e.message.role)) + seq![']'];
    assert(role_header(e.message.role) =~= h);
    let b = message_block(e);
    assert(b =~= role_header(e.message.role) + "\n"@ + indent_lines(conversation_body(e)));
    assert(b.subrange(0, (h + seq!['\n']).len() as int) =~= h + seq!['\n']);
    assert(h + seq!['\n'] =~= seq!['['] + capitalized(role_text(e.message.role)) + seq![']', '\n']);
    assert forall|a: SessionMessageRole, c: SessionMessageRole| role_header(a) == role_header(c) implies a == c by {
        if a != c {
            assert(role_header(a).len() != role_header(c).len() || role_header(a)[1] != role_header(c)[1]);
        }
    }
    let parts = seq![e].map_values(|x: MessageWithData| message_block(x));
    assert(parts.len() == 1);
    assert(parts[0] == message_block(e));
}


/// Whether lowercased text reports a failure: it mentions `error`,
/// `failed` or `failure`.
pub open spec fn reports_failure(lowered: Seq<char>) -> bool {
    contains_text(lowered, "error"@) || contains_text(lowered, "failed"@) || contains_text(lowered, "failure"@)
}

/// A stored tool result's card: a stored status naming a known state
/// decides (`started`/`running` started, `failed`/`error` failed,
/// `succeeded`/`success`/`completed`/`finished` succeeded); without one, the
/// card shows the call as failed exactly when the lowercased content reports
/// a failure, and as succeeded otherwise.
pub proof fn lemma_stored_tool_status(t: DesktopTimelineMessage, m: SessionMessage, f: MessageData)
    requires
        tool_entry_is(t, m, f),
    ensures
        f.tool_status is None && reports_failure(lowercase(m.content@)) ==> opt_view(t.summary) == Some(
            shown_tool_name(f) + " · failed"@,
        ),
        f.tool_status is None && !reports_failure(lowercase(m.content@)) ==> opt_view(t.summary) == Some(
            shown_tool_name(f) + " · success"@,
        ),
        f.tool_status matches Some(v) && (normalized_text(Some(v@)) == "failed"@ || normalized_text(Some(v@))
            == "error"@) ==> opt_view(t.summary) == Some(shown_tool_name(f) + " · failed"@),
        f.tool_status matches Some(v) && (normalized_text(Some(v@)) == "started"@ || normalized_text(Some(v@))
            == "running"@) ==> opt_view(t.summary) == Some(shown_tool_name(f) + " · started"@),
        f.tool_status matches Some(v) && (normalized_text(Some(v@)) == "succeeded"@ || normalized_text(Some(v@))
            == "success"@ || normalized_text(Some(v@)) == "completed"@ || normalized_text(Some(v@))
            == "finished"@) ==> opt_view(t.summary) == Some(shown_tool_name(f) + " · success"@),
{
    reveal_strlit("started");
    reveal_strlit("running");
    reveal_strlit("failed");
    reveal_strlit("error");
    reveal_strlit("succeeded");
    reveal_strlit("success");
    reveal_strlit("completed");
    reveal_strlit("finished");
    reveal_strlit(" · ");
    reveal_strlit(" · failed");
    reveal_strlit(" · success");
    reveal_strlit(" · started");
    let name = shown_tool_name(f);
    assert(name + " · "@ + "failed"@ =~= name + " · failed"@);
    assert(name + " · "@ + "success"@ =~= name + " · success"@);
    assert(name + " · "@ + "started"@ =~= name + " · started"@);
    if let Some(v) = f.tool_status {
        let ns = normalized_text(Some(v@));
        assert("started"@.len() == 7 && "running"@.len() == 7 && "failed"@.len() == 6 && "error"@.len() == 5);
        assert("succeeded"@.len() == 9 && "success"@.len() == 7 && "completed"@.len() == 9);
        assert("finished"@.len() == 8);
        if ns == "success"@ {
            assert("success"@[1] != "started"@[1]);
            assert("success"@[0] != "running"@[0]);
        }
        if ns == "failed"@ || ns == "error"@ {
            assert(tool_status_for(Some(ns), lowercase(m.content@)) == LiveToolStatus::Failed);
        }
        if ns == "succeeded"@ || ns == "success"@ || ns == "completed"@ || ns == "finished"@ {
            assert(tool_status_for(Some(ns), lowercase(m.content@)) == LiveToolStatus::Succeeded);
        }
    }
}


/// A stored tool result's block in the text timeline opens with
/// `[Tool] name(arguments)` when its data names the tool and holds its
/// arguments, and with `[Tool] unknown()` otherwise; a run progress row's
/// block opens with `[Run] ` and its run id when its report names the run,
/// and with `[Run] unknown` otherwise.
pub proof fn lemma_tool_and_run_blocks_open_with_their_header(e: MessageWithData)
    ensures
        e.message.message_type@ == "tool_result_message"@ ==> match (e.data.tool_name, e.data.arguments) {
            (Some(n), Some(a)) => starts_with(message_block(e), "[Tool] "@ + n@ + seq!['('] + a@ + seq![')', '\n']),
            _ => starts_with(message_block(e), "[Tool] unknown()\n"@),
        },
        e.message.message_type@ == "run_progress_message"@ ==> match e.data.run_progress {
            Some(p) => match p.run_id {
                Some(id) => starts_with(message_block(e), "[Run] "@ + id@),
                None => starts_with(message_block(e), "[Run] unknown\n"@),
            },
            None => starts_with(message_block(e), "[Run] unknown\n"@),
        },
{
    reveal_strlit("tool_result_message");
    reveal_strlit("run_progress_message");
    reveal_strlit("(");
    reveal_strlit(")");
    reveal_strlit("\n");
    reveal_strlit("[Tool] unknown()");
    reveal_strlit("[Tool] unknown()\n");
    reveal_strlit("[Run] unknown");
    reveal_strlit("[Run] unknown\n");
    let b = message_block(e);
    assert("tool_result_message"@.len() != "run_progress_message"@.len());
    if e.message.message_type@ == "tool_result_message"@ {
        let h = tool_header(e.data) + "\n"@;
        assert(b =~= h + indent_lines(e.message.content@));
        assert(b.subrange(0, h.len() as int) =~= h);
        match (e.data.tool_name, e.data.arguments) {
            (Some(n), Some(a)) => {
                assert(h =~= "[Tool] "@ + n@ + seq!['('] + a@ + seq![')', '\n']);
            },
            _ => {
                assert(h =~= "[Tool] unknown()\n"@);
            },
        }
    } else if e.message.message_type@ == "run_progress_message"@ {
        let h = run_header(e.data) + "\n"@;
        assert(b =~= h + indent_lines(e.message.content@ + "\n"@ + e.message.data_json@));
        match e.data.run_progress {
            Some(p) => match p.run_id {
                Some(id) => {
                    let t = "[Run] "@ + id@;
                    let phase = match p.phase {
                        Some(x) => x@,
                        None => "state_changed"@,
                    };
                    let rh = run_header(e.data);
                    match p.step_key {
                        Some(k) => {
                            assert(rh =~= t + (" ["@ + k@ + "] ("@ + phase + ")"@));
                        },
                        None => {
                            assert(rh =~= t + (" ("@ + phase + ")"@));
                        },
                    }
                    assert(rh.subrange(0, t.len() as int) =~= t);
                    assert(h.subrange(0, t.len() as int) =~= t);
                    assert(b.subrange(0, t.len() as int) =~= t);
                },
                None => {
                    assert(h =~= "[Run] unknown\n"@);
                    assert(b.subrange(0, h.len() as int) =~= h);
                },
            },
            None => {
                assert(h =~= "[Run] unknown\n"@);
                assert(b.subrange(0, h.len() as int) =~= h);
            },
        }
    }
}


} // verus!
