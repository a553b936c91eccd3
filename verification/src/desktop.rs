//! The desktop shell's own rules: user interface preferences, the agent
//! concurrency setting, and the plain-text views of decisions and previews.

use vstd::prelude::*;
use crate::session::Session;
use crate::session_agent::{SessionActionType, SessionAgentDecision, action_type_name, intent_name};
use crate::text::{bool_text, copy_string, join, join_strings, opt_view, owned, push_bool, push_str, str_eq, views};
use crate::tools::ToolInvocation;

verus! {

broadcast use vstd::string::group_string_axioms;

/// The desktop's user interface preferences.
#[derive(Debug, Clone)]
pub struct DesktopUiPreferences {
    pub theme: String,
    pub locale: String,
    pub show_debug_panel: bool,
}

impl Default for DesktopUiPreferences {
    /// The system theme, English, and the debug panel shown.
    fn default() -> (r: Self)
        ensures
            r.theme@ == "system"@,
            r.locale@ == "en"@,
            r.show_debug_panel,
    {
        DesktopUiPreferences { theme: owned("system"), locale: owned("en"), show_debug_panel: true }
    }
}

/// The themes the desktop knows.
pub open spec fn is_known_theme(t: Seq<char>) -> bool {
    t == "system"@ || t == "light"@ || t == "dark"@
}

/// The locales the desktop knows.
pub open spec fn is_known_locale(l: Seq<char>) -> bool {
    l == "en"@ || l == "zh-CN"@
}

/// Whether `value` is one of `system`, `light` and `dark`.
pub fn is_valid_desktop_theme(value: &str) -> (r: bool)
    ensures
        r == is_known_theme(value@),
{
    str_eq(value, "system") || str_eq(value, "light") || str_eq(value, "dark")
}

/// Whether `value` is one of `en` and `zh-CN`.
pub fn is_valid_desktop_locale(value: &str) -> (r: bool)
    ensures
        r == is_known_locale(value@),
{
    str_eq(value, "en") || str_eq(value, "zh-CN")
}

/// Accepts preferences with a known theme and locale; otherwise names the
/// first field that is wrong.
pub fn validate_desktop_ui_preferences(preferences: &DesktopUiPreferences) -> (r: Result<(), String>)
    ensures
        r is Ok <==> is_known_theme(preferences.theme@) && is_known_locale(preferences.locale@),
        !is_known_theme(preferences.theme@) ==> (r matches Err(e) && e@
            == "theme must be one of: system, light, dark"@),
        is_known_theme(preferences.theme@) && !is_known_locale(preferences.locale@) ==> (r matches Err(
            e,
        ) && e@ == "locale must be one of: en, zh-CN"@),
{
    if !is_valid_desktop_theme(preferences.theme.as_str()) {
        return Err(owned("theme must be one of: system, light, dark"));
    }
    if !is_valid_desktop_locale(preferences.locale.as_str()) {
        return Err(owned("locale must be one of: en, zh-CN"));
    }
    Ok(())
}

/// The user interface section of the saved application configuration.
#[derive(Debug, Clone)]
pub struct DesktopUiConfig {
    pub theme: String,
    pub locale: String,
    pub show_debug_panel: bool,
}

/// Preferences (or their saved section) by the views of theme, locale and
/// the debug panel flag.
pub open spec fn preferences_view(p: DesktopUiPreferences) -> (Seq<char>, Seq<char>, bool) {
    (p.theme@, p.locale@, p.show_debug_panel)
}

/// A saved user interface section by its views.
pub open spec fn ui_config_view(c: DesktopUiConfig) -> (Seq<char>, Seq<char>, bool) {
    (c.theme@, c.locale@, c.show_debug_panel)
}

/// The preferences in effect for a saved section: the saved ones, an unknown
/// theme or locale replaced by its default; the defaults when nothing is
/// saved.
pub open spec fn effective_preferences(saved: Option<(Seq<char>, Seq<char>, bool)>) -> (Seq<char>, Seq<char>, bool) {
    match saved {
        Some((t, l, d)) => (
            if is_known_theme(t) { t } else { "system"@ },
            if is_known_locale(l) { l } else { "en"@ },
            d,
        ),
        None => ("system"@, "en"@, true),
    }
}

/// The preferences in effect for the saved configuration.
pub fn desktop_ui_preferences_from_config(saved: &Option<DesktopUiConfig>) -> (r: DesktopUiPreferences)
    ensures
        preferences_view(r) == effective_preferences(
            match saved {
                Some(c) => Some(ui_config_view(*c)),
                None => None,
            },
        ),
{
    let defaults = DesktopUiPreferences::default();
    match saved {
        Some(c) => DesktopUiPreferences {
            theme: if is_valid_desktop_theme(c.theme.as_str()) {
                copy_string(&c.theme)
            } else {
                defaults.theme
            },
            locale: if is_valid_desktop_locale(c.locale.as_str()) {
                copy_string(&c.locale)
            } else {
                defaults.locale
            },
            show_debug_panel: c.show_debug_panel,
        },
        None => defaults,
    }
}

/// Loaded preferences always pass validation, whatever was saved.
pub proof fn lemma_effective_preferences_valid(saved: Option<(Seq<char>, Seq<char>, bool)>)
    ensures
        is_known_theme(effective_preferences(saved).0),
        is_known_locale(effective_preferences(saved).1),
{
}

/// Preferences that pass validation survive being saved and loaded again
/// unchanged.
pub proof fn lemma_preferences_round_trip(p: (Seq<char>, Seq<char>, bool))
    requires
        is_known_theme(p.0),
        is_known_locale(p.1),
    ensures
        effective_preferences(Some(p)) == p,
{
}

/// The configuration section that stores these preferences.
pub fn desktop_ui_config_from_preferences(preferences: &DesktopUiPreferences) -> (r: DesktopUiConfig)
    ensures
        r.theme@ == preferences.theme@,
        r.locale@ == preferences.locale@,
        r.show_debug_panel == preferences.show_debug_panel,
{
    DesktopUiConfig {
        theme: copy_string(&preferences.theme),
        locale: copy_string(&preferences.locale),
        show_debug_panel: preferences.show_debug_panel,
    }
}

/// The requested agent concurrency clamped to what the configuration can
/// store, `0` to `255`.
pub open spec fn clamped_concurrency(requested: int) -> int {
    if requested < 0 {
        0
    } else if requested > 255 {
        255
    } else {
        requested
    }
}

/// The requested agent concurrency clamped to `0..=255`.
pub fn requested_max_agent_concurrency_to_config_value(requested_value: i64) -> (r: u8)
    ensures
        r == clamped_concurrency(requested_value as int),
{
    if requested_value < 0 {
        0
    } else if requested_value > 255 {
        255
    } else {
        requested_value as u8
    }
}

/// Clamping keeps values that are already in range and is idempotent.
pub proof fn lemma_clamped_concurrency(requested: int)
    ensures
        0 <= clamped_concurrency(requested) <= 255,
        clamped_concurrency(clamped_concurrency(requested)) == clamped_concurrency(requested),
        0 <= requested <= 255 ==> clamped_concurrency(requested) == requested,
{
}

/// The wire name of an action type, e.g. `create_run`.
pub fn format_action_type(action_type: &SessionActionType) -> (r: &'static str)
    ensures
        r@ == action_type_name(*action_type),
{
    match action_type {
        SessionActionType::DirectReply => "direct_reply",
        SessionActionType::RequestClarification => "request_clarification",
        SessionActionType::ToolCall => "tool_call",
        SessionActionType::SkillCall => "skill_call",
        SessionActionType::CreateRun => "create_run",
        SessionActionType::Stop => "stop",
    }
}

/// An optional text, or `none`.
pub open spec fn text_or_none(value: Option<Seq<char>>) -> Seq<char> {
    match value {
        Some(v) => v,
        None => "none"@,
    }
}

/// The text, or `none` when there is none.
pub fn format_optional_text<'a>(value: Option<&'a str>) -> (r: &'a str)
    ensures
        r@ == text_or_none(match value {
            Some(v) => Some(v@),
            None => None,
        }),
{
    match value {
        Some(v) => v,
        None => "none",
    }
}

fn push_optional(out: &mut String, value: &Option<String>)
    ensures
        final(out)@ == old(out)@ + text_or_none(opt_view(*value)),
{
    match value {
        Some(v) => push_str(out, v.as_str()),
        None => push_str(out, "none"),
    }
}

/// A session as listed in the session selector: its title and, in
/// brackets, its id.
pub fn format_session_selector_label(session: &Session) -> (r: String)
    ensures
        r@ == session.title@ + " ("@ + session.id@ + ")"@,
{
    let mut r = copy_string(&session.title);
    push_str(&mut r, " (");
    push_str(&mut r, session.id.as_str());
    push_str(&mut r, ")");
    r
}

/// The name of a decision's tool, if it calls one.
pub open spec fn decision_tool_name(d: SessionAgentDecision) -> Option<Seq<char>> {
    match d.tool_invocation {
        Some(t) => Some(t.tool_name@),
        None => None,
    }
}

/// A decision as plain text: one `field: value` line per field, `none` for
/// absent values.
pub open spec fn decision_text(d: SessionAgentDecision) -> Seq<char> {
    "intent: "@ + intent_name(d.intent) + "\naction_type: "@ + action_type_name(d.action_type)
        + "\nprimary_object_type: "@ + text_or_none(opt_view(d.primary_object_type))
        + "\nprimary_object_id: "@ + text_or_none(opt_view(d.primary_object_id))
        + "\nreply_text: "@ + d.reply_text@ + "\nsuggested_run_type: "@ + text_or_none(
        opt_view(d.suggested_run_type),
    ) + "\nsession_summary: "@ + text_or_none(opt_view(d.session_summary)) + "\ntool_name: "@
        + text_or_none(decision_tool_name(d)) + "\nshould_continue_planning: "@ + bool_text(
        d.should_continue_planning,
    ) + "\nfailure_hint: "@ + text_or_none(opt_view(d.failure_hint))
}

/// A decision as plain text, one field per line.
pub fn format_session_agent_decision_text(decision: &SessionAgentDecision) -> (r: String)
    ensures
        r@ == decision_text(*decision),
{
    let mut r = owned("intent: ");
    push_str(&mut r, decision.intent.as_str());
    push_str(&mut r, "\naction_type: ");
    push_str(&mut r, format_action_type(&decision.action_type));
    push_str(&mut r, "\nprimary_object_type: ");
    push_optional(&mut r, &decision.primary_object_type);
    push_str(&mut r, "\nprimary_object_id: ");
    push_optional(&mut r, &decision.primary_object_id);
    push_str(&mut r, "\nreply_text: ");
    push_str(&mut r, decision.reply_text.as_str());
    push_str(&mut r, "\nsuggested_run_type: ");
    push_optional(&mut r, &decision.suggested_run_type);
    push_str(&mut r, "\nsession_summary: ");
    push_optional(&mut r, &decision.session_summary);
    push_str(&mut r, "\ntool_name: ");
    match &decision.tool_invocation {
        Some(t) => push_str(&mut r, t.tool_name.as_str()),
        None => push_str(&mut r, "none"),
    }
    push_str(&mut r, "\nshould_continue_planning: ");
    push_bool(&mut r, decision.should_continue_planning);
    push_str(&mut r, "\nfailure_hint: ");
    push_optional(&mut r, &decision.failure_hint);
    assert(r@ =~= decision_text(*decision));
    r
}

/// The result of a provider connection test as plain text.
pub fn format_provider_test_text(provider_id: &str, model_id: &str, status: &str, message: &str) -> (r: String)
    ensures
        r@ == "provider: "@ + provider_id@ + "\nmodel: "@ + model_id@ + "\nstatus: "@ + status@
            + "\nmessage: "@ + message@,
{
    let mut r = owned("provider: ");
    push_str(&mut r, provider_id);
    push_str(&mut r, "\nmodel: ");
    push_str(&mut r, model_id);
    push_str(&mut r, "\nstatus: ");
    push_str(&mut r, status);
    push_str(&mut r, "\nmessage: ");
    push_str(&mut r, message);
    r
}

/// The model's raw reply beside the decision read from it, as plain text.
pub fn format_llm_debug_comparison_text(raw_output: &str, decision: &SessionAgentDecision) -> (r: String)
    ensures
        r@ == "Raw LLM Output\n"@ + raw_output@ + "\n\nParsed Decision\n"@ + decision_text(*decision),
{
    let mut r = owned("Raw LLM Output\n");
    push_str(&mut r, raw_output);
    push_str(&mut r, "\n\nParsed Decision\n");
    let d = format_session_agent_decision_text(decision);
    push_str(&mut r, d.as_str());
    r
}

/// One planned step of a run preview.
#[derive(Debug, Clone)]
pub struct DistillRunStepPreview {
    pub step_key: String,
    pub summary: String,
}

/// The run a decision would hand off to, as previewed before it starts.
#[derive(Debug, Clone)]
pub struct RunHandoffPreview {
    pub run_type: String,
    pub primary_object_type: Option<String>,
    pub primary_object_id: Option<String>,
    pub summary: String,
    pub planned_steps: Vec<DistillRunStepPreview>,
}

/// The planner's decision for a turn and, when it starts a run, the preview
/// of that run.
#[derive(Debug, Clone)]
pub struct SessionIntakePreview {
    pub decision: SessionAgentDecision,
    pub run_handoff_preview: Option<RunHandoffPreview>,
}

/// The planned steps, each as a `- key` line and an indented summary line.
pub open spec fn planned_steps_text(steps: Seq<DistillRunStepPreview>) -> Seq<char>
    decreases steps.len(),
{
    if steps.len() == 0 {
        Seq::empty()
    } else {
        planned_steps_text(steps.drop_last()) + "\n- "@ + steps.last().step_key@ + "\n  "@
            + steps.last().summary@
    }
}

/// A run preview as plain text.
pub open spec fn handoff_text(h: RunHandoffPreview) -> Seq<char> {
    "\n\nRun Handoff Preview\nrun_type: "@ + h.run_type@ + "\nprimary_object_type: "@
        + text_or_none(opt_view(h.primary_object_type)) + "\nprimary_object_id: "@ + text_or_none(
        opt_view(h.primary_object_id),
    ) + "\nsummary: "@ + h.summary@ + "\nplanned_steps:"@ + planned_steps_text(h.planned_steps@)
}

/// An intake preview as plain text: the decision section, then the run
/// section when there is one.
pub open spec fn intake_preview_text(p: SessionIntakePreview) -> Seq<char> {
    "SessionAgent Decision\n"@ + decision_text(p.decision) + match p.run_handoff_preview {
        Some(h) => handoff_text(h),
        None => Seq::empty(),
    }
}

/// An intake preview as plain text.
pub fn format_intake_preview_text(preview: &SessionIntakePreview) -> (r: String)
    ensures
        r@ == intake_preview_text(*preview),
{
    let mut r = owned("SessionAgent Decision\n");
    let d = format_session_agent_decision_text(&preview.decision);
    push_str(&mut r, d.as_str());
    match &preview.run_handoff_preview {
        Some(h) => {
            let ghost head = r@;
            push_str(&mut r, "\n\nRun Handoff Preview\nrun_type: ");
            push_str(&mut r, h.run_type.as_str());
            push_str(&mut r, "\nprimary_object_type: ");
            push_optional(&mut r, &h.primary_object_type);
            push_str(&mut r, "\nprimary_object_id: ");
            push_optional(&mut r, &h.primary_object_id);
            push_str(&mut r, "\nsummary: ");
            push_str(&mut r, h.summary.as_str());
            push_str(&mut r, "\nplanned_steps:");
            let ghost before_steps = r@;
            let steps = &h.planned_steps;
            let n = steps.len();
            let mut i: usize = 0;
            while i < n
                invariant
                    n == steps@.len(),
                    i <= n,
                    r@ == before_steps + planned_steps_text(steps@.take(i as int)),
                decreases n - i,
            {
                push_str(&mut r, "\n- ");
                push_str(&mut r, steps[i].step_key.as_str());
                push_str(&mut r, "\n  ");
                push_str(&mut r, steps[i].summary.as_str());
                assert(steps@.take(i + 1).drop_last() =~= steps@.take(i as int));
                i = i + 1;
            }
            assert(steps@.take(n as int) =~= steps@);
            assert(r@ =~= head + handoff_text(*h));
        },
        None => {},
    }
    assert(r@ =~= intake_preview_text(*preview));
    r
}

/// What the desktop shows of the application configuration: the current
/// provider and model, and the configured providers' ids in the
/// configuration's key order (`None` when there is no provider section).
#[derive(Debug, Clone)]
pub struct AppConfigSummary {
    pub current_provider: Option<String>,
    pub current_model: Option<String>,
    pub provider_ids: Option<Vec<String>>,
}

/// The configuration summary as plain text.
pub open spec fn app_config_text(c: AppConfigSummary) -> Seq<char> {
    "current provider: "@ + text_or_none(opt_view(c.current_provider)) + "\ncurrent model: "@
        + text_or_none(opt_view(c.current_model)) + "\nproviders: "@ + match c.provider_ids {
        Some(ids) => join(views(ids@), ", "@),
        None => "none"@,
    }
}

/// The configuration summary as plain text, `none` for what is missing.
pub fn format_app_config_summary(summary: &AppConfigSummary) -> (r: String)
    ensures
        r@ == app_config_text(*summary),
{
    let mut r = owned("current provider: ");
    push_optional(&mut r, &summary.current_provider);
    push_str(&mut r, "\ncurrent model: ");
    push_optional(&mut r, &summary.current_model);
    push_str(&mut r, "\nproviders: ");
    match &summary.provider_ids {
        Some(ids) => {
            let joined = join_strings(ids, ", ");
            push_str(&mut r, joined.as_str());
        },
        None => push_str(&mut r, "none"),
    }
    r
}

} // verus!
