//! Tool definitions, invocations, execution results and the tool registry.
//!
//! One planner turn emits one tool call; the runtime executes it and the
//! next planner turn consumes the result.

use vstd::prelude::*;
use crate::text::{owned, str_eq};

verus! {

broadcast use vstd::string::group_string_axioms;

/// A callable capability that agents can use: its name, description, input
/// schema and execution policy.
#[derive(Debug, Clone, PartialEq, Eq)]
pub struct ToolDefinition {
    /// Unique tool name used for invocation lookup.
    pub name: String,
    /// Human-readable description of what the tool does.
    pub description: String,
    /// JSON schema describing the expected input arguments.
    pub input_schema_json: String,
    /// Whether the tool only reads data and has no side effects.
    pub is_read_only: bool,
    /// Whether the tool is safe to run concurrently with other tools.
    pub is_concurrency_safe: bool,
    /// Whether the tool requires user confirmation before execution.
    pub needs_confirmation: bool,
}

impl ToolDefinition {
    /// A read-only, concurrency-safe tool without confirmation and with the
    /// input schema `{}`.
    pub fn read_only(name: &str, description: &str) -> (r: Self)
        ensures
            r.name@ == name@,
            r.description@ == description@,
            r.input_schema_json@ == "{}"@,
            r.is_read_only,
            r.is_concurrency_safe,
            !r.needs_confirmation,
    {
        ToolDefinition {
            name: owned(name),
            description: owned(description),
            input_schema_json: owned("{}"),
            is_read_only: true,
            is_concurrency_safe: true,
            needs_confirmation: false,
        }
    }

    /// A tool that may have side effects: neither read-only nor
    /// concurrency-safe, without confirmation, with the input schema `{}`.
    pub fn with_side_effects(name: &str, description: &str) -> (r: Self)
        ensures
            r.name@ == name@,
            r.description@ == description@,
            r.input_schema_json@ == "{}"@,
            !r.is_read_only,
            !r.is_concurrency_safe,
            !r.needs_confirmation,
    {
        ToolDefinition {
            name: owned(name),
            description: owned(description),
            input_schema_json: owned("{}"),
            is_read_only: false,
            is_concurrency_safe: false,
            needs_confirmation: false,
        }
    }

    /// The same definition with the given input schema.
    pub fn with_input_schema(self, schema_json: &str) -> (r: Self)
        ensures
            r.input_schema_json@ == schema_json@,
            r.name == self.name,
            r.description == self.description,
            r.is_read_only == self.is_read_only,
            r.is_concurrency_safe == self.is_concurrency_safe,
            r.needs_confirmation == self.needs_confirmation,
    {
        let mut r = self;
        r.input_schema_json = owned(schema_json);
        r
    }

    /// The same definition, requiring user confirmation.
    pub fn requiring_confirmation(self) -> (r: Self)
        ensures
            r.needs_confirmation,
            r.name == self.name,
            r.description == self.description,
            r.input_schema_json == self.input_schema_json,
            r.is_read_only == self.is_read_only,
            r.is_concurrency_safe == self.is_concurrency_safe,
    {
        let mut r = self;
        r.needs_confirmation = true;
        r
    }
}

/// A request to execute a specific tool.
#[derive(Debug, Clone, PartialEq, Eq)]
pub struct ToolInvocation {
    /// The name of the tool to invoke.
    pub tool_name: String,
    /// JSON-encoded arguments to pass to the tool.
    pub arguments_json: String,
    /// Why this tool is being called.
    pub reasoning_summary: Option<String>,
    /// What the planner expects to do with the result.
    pub expected_follow_up: Option<String>,
}

impl ToolInvocation {
    /// An invocation of `tool_name` with the arguments `{}`.
    pub fn new(tool_name: &str) -> (r: Self)
        ensures
            r.tool_name@ == tool_name@,
            r.arguments_json@ == "{}"@,
            r.reasoning_summary is None,
            r.expected_follow_up is None,
    {
        ToolInvocation {
            tool_name: owned(tool_name),
            arguments_json: owned("{}"),
            reasoning_summary: None,
            expected_follow_up: None,
        }
    }

    /// An invocation of `tool_name` with the given JSON arguments.
    pub fn with_args(tool_name: &str, arguments_json: &str) -> (r: Self)
        ensures
            r.tool_name@ == tool_name@,
            r.arguments_json@ == arguments_json@,
            r.reasoning_summary is None,
            r.expected_follow_up is None,
    {
        ToolInvocation {
            tool_name: owned(tool_name),
            arguments_json: owned(arguments_json),
            reasoning_summary: None,
            expected_follow_up: None,
        }
    }

    /// An invocation as read from a model reply or a stored record, where
    /// the arguments come either as the JSON text of an `arguments` value
    /// or, in older records, as `arguments_json` text; the first present
    /// wins, and `{}` stands in when neither is.
    pub fn from_read_fields(
        tool_name: String,
        arguments: Option<String>,
        arguments_json: Option<String>,
        reasoning_summary: Option<String>,
        expected_follow_up: Option<String>,
    ) -> (r: Self)
        ensures
            r.tool_name == tool_name,
            r.arguments_json@ == match arguments {
                Some(a) => a@,
                None => match arguments_json {
                    Some(t) => t@,
                    None => "{}"@,
                },
            },
            r.reasoning_summary == reasoning_summary,
            r.expected_follow_up == expected_follow_up,
    {
        let chosen = match arguments {
            Some(a) => a,
            None => match arguments_json {
                Some(t) => t,
                None => owned("{}"),
            },
        };
        ToolInvocation { tool_name, arguments_json: chosen, reasoning_summary, expected_follow_up }
    }

    /// The same invocation with a reasoning summary.
    pub fn with_reasoning(self, reasoning: &str) -> (r: Self)
        ensures
            r.reasoning_summary matches Some(s) && s@ == reasoning@,
            r.tool_name == self.tool_name,
            r.arguments_json == self.arguments_json,
            r.expected_follow_up == self.expected_follow_up,
    {
        let mut r = self;
        r.reasoning_summary = Some(owned(reasoning));
        r
    }

    /// The same invocation with an expected follow-up hint.
    pub fn with_expected_follow_up(self, follow_up: &str) -> (r: Self)
        ensures
            r.expected_follow_up matches Some(s) && s@ == follow_up@,
            r.tool_name == self.tool_name,
            r.arguments_json == self.arguments_json,
            r.reasoning_summary == self.reasoning_summary,
    {
        let mut r = self;
        r.expected_follow_up = Some(owned(follow_up));
        r
    }

    /// A copy of this invocation.
    pub fn duplicate(&self) -> (r: Self)
        ensures
            r == *self,
    {
        ToolInvocation {
            tool_name: self.tool_name.clone(),
            arguments_json: self.arguments_json.clone(),
            reasoning_summary: match &self.reasoning_summary {
                Some(s) => Some(s.clone()),
                None => None,
            },
            expected_follow_up: match &self.expected_follow_up {
                Some(s) => Some(s.clone()),
                None => None,
            },
        }
    }
}

/// The result of executing a tool invocation.
#[derive(Debug, Clone, PartialEq, Eq)]
pub struct ToolExecutionResult {
    /// The name of the tool that was executed.
    pub tool_name: String,
    /// Whether the tool execution succeeded.
    pub ok: bool,
    /// JSON-encoded output from the tool (if successful).
    pub output_json: Option<String>,
    /// Human-readable summary of the result for the planner.
    pub rendered_summary: Option<String>,
    /// Error message if the tool execution failed.
    pub error_message: Option<String>,
    /// Whether the planner should continue planning after this result.
    pub should_continue_planning: bool,
}

impl ToolExecutionResult {
    /// A successful result after which planning continues.
    pub fn success(tool_name: &str, output_json: &str, rendered_summary: &str) -> (r: Self)
        ensures
            r.tool_name@ == tool_name@,
            r.ok,
            r.output_json matches Some(o) && o@ == output_json@,
            r.rendered_summary matches Some(s) && s@ == rendered_summary@,
            r.error_message is None,
            r.should_continue_planning,
    {
        ToolExecutionResult {
            tool_name: owned(tool_name),
            ok: true,
            output_json: Some(owned(output_json)),
            rendered_summary: Some(owned(rendered_summary)),
            error_message: None,
            should_continue_planning: true,
        }
    }

    /// A failed result after which planning continues.
    pub fn failure(tool_name: &str, error_message: &str) -> (r: Self)
        ensures
            r.tool_name@ == tool_name@,
            !r.ok,
            r.output_json is None,
            r.rendered_summary is None,
            r.error_message matches Some(e) && e@ == error_message@,
            r.should_continue_planning,
    {
        ToolExecutionResult {
            tool_name: owned(tool_name),
            ok: false,
            output_json: None,
            rendered_summary: None,
            error_message: Some(owned(error_message)),
            should_continue_planning: true,
        }
    }

    /// A successful result after which the planner stops.
    pub fn success_and_stop(tool_name: &str, output_json: &str, rendered_summary: &str) -> (r:
        Self)
        ensures
            r.tool_name@ == tool_name@,
            r.ok,
            r.output_json matches Some(o) && o@ == output_json@,
            r.rendered_summary matches Some(s) && s@ == rendered_summary@,
            r.error_message is None,
            !r.should_continue_planning,
    {
        ToolExecutionResult {
            tool_name: owned(tool_name),
            ok: true,
            output_json: Some(owned(output_json)),
            rendered_summary: Some(owned(rendered_summary)),
            error_message: None,
            should_continue_planning: false,
        }
    }

    /// A failed result after which the planner stops.
    pub fn failure_and_stop(tool_name: &str, error_message: &str) -> (r: Self)
        ensures
            r.tool_name@ == tool_name@,
            !r.ok,
            r.output_json is None,
            r.rendered_summary is None,
            r.error_message matches Some(e) && e@ == error_message@,
            !r.should_continue_planning,
    {
        ToolExecutionResult {
            tool_name: owned(tool_name),
            ok: false,
            output_json: None,
            rendered_summary: None,
            error_message: Some(owned(error_message)),
            should_continue_planning: false,
        }
    }
}

/// Errors of the tool registry.
#[derive(Debug, Clone, PartialEq, Eq)]
pub enum ToolRegistryError {
    /// The requested tool was not found in the registry.
    ToolNotFound(String),
    /// The tool is already registered.
    ToolAlreadyRegistered(String),
}

impl ToolRegistryError {
    /// The human-readable text of the error.
    pub open spec fn text(&self) -> Seq<char> {
        match self {
            ToolRegistryError::ToolNotFound(n) => "tool not found: "@ + n@,
            ToolRegistryError::ToolAlreadyRegistered(n) => "tool already registered: "@ + n@,
        }
    }

    /// The human-readable text of the error, e.g. `tool not found: <name>`.
    pub fn to_string(&self) -> (r: String)
        ensures
            r@ == self.text(),
    {
        let mut r = String::new();
        match self {
            ToolRegistryError::ToolNotFound(n) => {
                r.append("tool not found: ");
                r.append(n.as_str());
            },
            ToolRegistryError::ToolAlreadyRegistered(n) => {
                r.append("tool already registered: ");
                r.append(n.as_str());
            },
        }
        r
    }
}

/// The definitions of a sequence keyed by name; a later entry wins.
pub open spec fn tool_map(s: Seq<ToolDefinition>) -> Map<Seq<char>, ToolDefinition>
    decreases s.len(),
{
    if s.len() == 0 {
        Map::empty()
    } else {
        tool_map(s.drop_last()).insert(s.last().name@, s.last())
    }
}

/// No two definitions share a name.
pub open spec fn distinct_tool_names(s: Seq<ToolDefinition>) -> bool {
    forall|i: int, j: int| 0 <= i < s.len() && 0 <= j < s.len() && i != j ==> s[i].name@ != s[j].name@
}

pub proof fn lemma_tool_map(s: Seq<ToolDefinition>)
    requires
        distinct_tool_names(s),
    ensures
        forall|k: Seq<char>| #[trigger] tool_map(s).contains_key(k) <==> exists|i: int| 0 <= i < s.len() && s[i].name@ == k,
        forall|i: int| 0 <= i < s.len() ==> #[trigger] tool_map(s)[s[i].name@] == s[i],
        tool_map(s).dom().len() == s.len(),
        tool_map(s).dom().finite(),
    decreases s.len(),
{
    if s.len() > 0 {
        let p = s.drop_last();
        assert(distinct_tool_names(p));
        lemma_tool_map(p);
        assert(!tool_map(p).contains_key(s.last().name@)) by {
            if tool_map(p).contains_key(s.last().name@) {
                let i = choose|i: int| 0 <= i < p.len() && p[i].name@ == s.last().name@;
                assert(s[i].name@ == s[s.len() - 1].name@);
            }
        }
        assert forall|k: Seq<char>| #[trigger] tool_map(s).contains_key(k) <==> exists|i: int| 0 <= i < s.len() && s[i].name@ == k by {
            if tool_map(s).contains_key(k) && k != s.last().name@ {
                let i = choose|i: int| 0 <= i < p.len() && p[i].name@ == k;
                assert(s[i].name@ == k);
            }
            if exists|i: int| 0 <= i < s.len() && s[i].name@ == k {
                let i = choose|i: int| 0 <= i < s.len() && s[i].name@ == k;
                if i < s.len() - 1 {
                    assert(p[i].name@ == k);
                }
            }
        }
        assert forall|i: int| 0 <= i < s.len() implies #[trigger] tool_map(s)[s[i].name@] == s[i] by {
            if i < s.len() - 1 {
                assert(p[i] == s[i]);
                assert(s[i].name@ != s[s.len() - 1].name@);
            }
        }
    }
}

/// The definitions among `keys` that `m` holds, in the order of `keys`.
pub open spec fn allowed_in<T>(m: Map<Seq<char>, T>, keys: Seq<Seq<char>>) -> Seq<T>
    decreases keys.len(),
{
    if keys.len() == 0 {
        Seq::empty()
    } else if m.contains_key(keys.last()) {
        allowed_in(m, keys.drop_last()).push(m[keys.last()])
    } else {
        allowed_in(m, keys.drop_last())
    }
}

/// A registry of tool definitions keyed by tool name.
#[derive(Debug)]
pub struct ToolRegistry {
    tools: Vec<ToolDefinition>,
}

impl View for ToolRegistry {
    type V = Map<Seq<char>, ToolDefinition>;

    closed spec fn view(&self) -> Map<Seq<char>, ToolDefinition> {
        tool_map(self.tools@)
    }
}

impl ToolRegistry {
    #[verifier::type_invariant]
    spec fn names_are_distinct(self) -> bool {
        distinct_tool_names(self.tools@)
    }

    /// An empty registry.
    pub fn new() -> (r: Self)
        ensures
            r@ == Map::<Seq<char>, ToolDefinition>::empty(),
    {
        ToolRegistry { tools: Vec::new() }
    }

    /// Registers a definition under its name; refuses a name already taken,
    /// leaving the registry as it was.
    pub fn register(&mut self, definition: ToolDefinition) -> (r: Result<(), ToolRegistryError>)
        ensures
            old(self)@.contains_key(definition.name@) ==> (r matches Err(
                ToolRegistryError::ToolAlreadyRegistered(n),
            ) && n@ == definition.name@ && final(self)@ == old(self)@),
            !old(self)@.contains_key(definition.name@) ==> (r is Ok && final(self)@ == old(
                self,
            )@.insert(definition.name@, definition)),
    {
        proof {
            use_type_invariant(&*self);
            lemma_tool_map(self.tools@);
        }
        if self.contains(definition.name.as_str()) {
            let name = definition.name.as_str().to_owned();
            return Err(ToolRegistryError::ToolAlreadyRegistered(name));
        }
        let ghost old_tools = self.tools@;
        let mut tools = Vec::new();
        std::mem::swap(&mut tools, &mut self.tools);
        tools.push(definition);
        proof {
            assert(tools@.drop_last() =~= old_tools);
            assert forall|i: int, j: int|
                0 <= i < tools@.len() && 0 <= j < tools@.len() && i != j implies tools@[i].name@
                != tools@[j].name@ by {
                if i == tools@.len() - 1 && j < old_tools.len() {
                    assert(tool_map(old_tools).contains_key(old_tools[j].name@));
                }
                if j == tools@.len() - 1 && i < old_tools.len() {
                    assert(tool_map(old_tools).contains_key(old_tools[i].name@));
                }
            }
        }
        self.tools = tools;
        Ok(())
    }

    /// Index of the definition named `name`, if any.
    fn position(&self, name: &str) -> (r: Option<usize>)
        ensures
            match r {
                Some(i) => i < self.tools@.len() && self.tools@[i as int].name@ == name@,
                None => forall|i: int| 0 <= i < self.tools@.len() ==> self.tools@[i].name@ != name@,
            },
    {
        let n = self.tools.len();
        let mut i: usize = 0;
        while i < n
            invariant
                n == self.tools@.len(),
                i <= n,
                forall|k: int| 0 <= k < i ==> self.tools@[k].name@ != name@,
            decreases n - i,
        {
            if str_eq(self.tools[i].name.as_str(), name) {
                return Some(i);
            }
            i = i + 1;
        }
        None
    }

    /// The definition registered under `name`, if any.
    pub fn get(&self, name: &str) -> (r: Option<&ToolDefinition>)
        ensures
            self@.contains_key(name@) ==> r == Some(&self@[name@]),
            !self@.contains_key(name@) ==> r is None,
    {
        proof {
            use_type_invariant(self);
            lemma_tool_map(self.tools@);
        }
        match self.position(name) {
            Some(i) => Some(&self.tools[i]),
            None => None,
        }
    }

    /// Whether a tool named `name` is registered.
    pub fn contains(&self, name: &str) -> (r: bool)
        ensures
            r == self@.contains_key(name@),
    {
        proof {
            use_type_invariant(self);
            lemma_tool_map(self.tools@);
        }
        self.position(name).is_some()
    }

    /// The names of all registered tools, each once.
    pub fn tool_names(&self) -> (r: Vec<&str>)
        ensures
            r@.len() == self@.dom().len(),
            forall|i: int| 0 <= i < r@.len() ==> self@.contains_key(#[trigger] r@[i]@),
            forall|k: Seq<char>| #[trigger] self@.contains_key(k) ==> exists|i: int| 0 <= i < r@.len() && r@[i]@ == k,
            forall|i: int, j: int| 0 <= i < r@.len() && 0 <= j < r@.len() && i != j ==> r@[i]@ != r@[j]@,
    {
        proof {
            use_type_invariant(self);
            lemma_tool_map(self.tools@);
        }
        let n = self.tools.len();
        let mut r: Vec<&str> = Vec::new();
        let mut i: usize = 0;
        while i < n
            invariant
                n == self.tools@.len(),
                i <= n,
                r@.len() == i,
                forall|k: int| 0 <= k < i ==> (#[trigger] r@[k])@ == self.tools@[k].name@,
            decreases n - i,
        {
            r.push(self.tools[i].name.as_str());
            i = i + 1;
        }
        proof {
            assert forall|k: Seq<char>| #[trigger] self@.contains_key(k) implies exists|i: int| 0 <= i < r@.len() && r@[i]@ == k by {
                let i = choose|i: int| 0 <= i < self.tools@.len() && self.tools@[i].name@ == k;
                assert(r@[i]@ == k);
            }
            assert forall|i: int| 0 <= i < r@.len() implies self@.contains_key(#[trigger] r@[i]@) by {
                assert(r@[i]@ == self.tools@[i].name@);
            }
        }
        r
    }

    /// The registered definitions whose names are among `allowed_keys`, in the
    /// order of `allowed_keys`; unknown keys are skipped.
    pub fn allowed_tools(&self, allowed_keys: &[String]) -> (r: Vec<&ToolDefinition>)
        ensures
            r@.map_values(|d: &ToolDefinition| *d) == allowed_in(
                self@,
                allowed_keys@.map_values(|k: String| k@),
            ),
    {
        let n = allowed_keys.len();
        let ghost keys = allowed_keys@.map_values(|k: String| k@);
        let mut r: Vec<&ToolDefinition> = Vec::new();
        let mut i: usize = 0;
        while i < n
            invariant
                n == allowed_keys@.len(),
                keys == allowed_keys@.map_values(|k: String| k@),
                i <= n,
                r@.map_values(|d: &ToolDefinition| *d) == allowed_in(self@, keys.take(i as int)),
            decreases n - i,
        {
            let found = self.get(allowed_keys[i].as_str());
            proof {
                assert(keys.take(i + 1).drop_last() =~= keys.take(i as int));
                assert(keys.take(i + 1).last() == allowed_keys@[i as int]@);
            }
            match found {
                Some(d) => {
                    r.push(d);
                    assert(r@.map_values(|d: &ToolDefinition| *d) =~= allowed_in(self@, keys.take(i as int)).push(*d));
                },
                None => {},
            }
            i = i + 1;
        }
        assert(keys.take(n as int) =~= keys);
        r
    }
}

impl Default for ToolRegistry {
    fn default() -> (r: Self)
        ensures
            r@ == Map::<Seq<char>, ToolDefinition>::empty(),
    {
        ToolRegistry::new()
    }
}


/// `m` maps `name` to a read-only, concurrency-safe tool without
/// confirmation, with this description and input schema.
pub open spec fn has_read_only_tool(
    m: Map<Seq<char>, ToolDefinition>,
    name: Seq<char>,
    description: Seq<char>,
    schema: Seq<char>,
) -> bool {
    &&& m.contains_key(name)
    &&& m[name].name@ == name
    &&& m[name].description@ == description
    &&& m[name].input_schema_json@ == schema
    &&& m[name].is_read_only
    &&& m[name].is_concurrency_safe
    &&& !m[name].needs_confirmation
}

/// The tools the session agent may use by default: seven read-only lookups.
pub fn builtin_tool_registry() -> (r: ToolRegistry)
    ensures
        r@.dom() == set![
            "list_sources"@,
            "list_projects"@,
            "list_runs"@,
            "get_session"@,
            "get_project"@,
            "get_asset"@,
            "search_memory"@,
        ],
        has_read_only_tool(r@, "list_sources"@, "List all sources in the current session or project"@, "{}"@),
        has_read_only_tool(r@, "list_projects"@, "List all projects in the workspace"@, "{}"@),
        has_read_only_tool(r@, "list_runs"@, "List recent runs in the current session"@, "{}"@),
        has_read_only_tool(r@, "get_session"@, "Get details about the current session"@, "{}"@),
        has_read_only_tool(r@, "get_project"@, "Get details about a specific project"@, "{}"@),
        has_read_only_tool(r@, "get_asset"@, "Get details about a specific asset"@, "{}"@),
        has_read_only_tool(
            r@,
            "search_memory"@,
            "Search the knowledge base for related notes and assets"@,
            "{\"query\": \"string\", \"limit\": \"number?\"}"@,
        ),
{
    proof {
        reveal_strlit("list_sources");
        reveal_strlit("list_projects");
        reveal_strlit("list_runs");
        reveal_strlit("get_session");
        reveal_strlit("get_project");
        reveal_strlit("get_asset");
        reveal_strlit("search_memory");
        assert("list_projects"@.len() != "list_runs"@.len());
        assert("list_projects"@.len() != "get_session"@.len());
        assert("list_projects"@.len() != "get_project"@.len());
        assert("list_projects"@.len() != "get_asset"@.len());
        assert("list_projects"@[0] != "search_memory"@[0]);
        assert("list_runs"@.len() != "get_session"@.len());
        assert("list_runs"@.len() != "get_project"@.len());
        assert("list_runs"@[0] != "get_asset"@[0]);
        assert("list_runs"@.len() != "search_memory"@.len());
        assert("list_sources"@.len() != "list_projects"@.len());
        assert("list_sources"@.len() != "list_runs"@.len());
        assert("list_sources"@[0] != "get_session"@[0]);
        assert("list_sources"@[0] != "get_project"@[0]);
        assert("list_sources"@[0] != "get_asset"@[0]);
        assert("list_sources"@[0] != "search_memory"@[0]);
        assert("get_session"@[4] != "get_project"@[4]);
        assert("get_session"@.len() != "get_asset"@.len());
        assert("get_session"@.len() != "search_memory"@.len());
        assert("get_project"@.len() != "get_asset"@.len());
        assert("get_project"@.len() != "search_memory"@.len());
        assert("get_asset"@.len() != "search_memory"@.len());
    }
    let mut registry = ToolRegistry::new();
    let _ = registry.register(
        ToolDefinition::read_only("list_sources", "List all sources in the current session or project"),
    );
    let _ = registry.register(
        ToolDefinition::read_only("list_projects", "List all projects in the workspace"),
    );
    let _ = registry.register(
        ToolDefinition::read_only("list_runs", "List recent runs in the current session"),
    );
    let _ = registry.register(
        ToolDefinition::read_only("get_session", "Get details about the current session"),
    );
    let _ = registry.register(
        ToolDefinition::read_only("get_project", "Get details about a specific project"),
    );
    let _ = registry.register(
        ToolDefinition::read_only("get_asset", "Get details about a specific asset"),
    );
    let _ = registry.register(
        ToolDefinition::read_only(
            "search_memory",
            "Search the knowledge base for related notes and assets",
        ).with_input_schema("{\"query\": \"string\", \"limit\": \"number?\"}"),
    );
    assert(registry@.dom() =~= set![
        "list_sources"@,
        "list_projects"@,
        "list_runs"@,
        "get_session"@,
        "get_project"@,
        "get_asset"@,
        "search_memory"@,
    ]);
    registry
}

/// After a successful registration the new tool is found under its
/// name, and every other name is found exactly as before.
pub proof fn lemma_registered_tool_is_found(
    before: Map<Seq<char>, ToolDefinition>,
    after: Map<Seq<char>, ToolDefinition>,
    d: ToolDefinition,
    other: Seq<char>,
)
    requires
        after == before.insert(d.name@, d),
    ensures
        after.contains_key(d.name@),
        after[d.name@] == d,
        other != d.name@ ==> (after.contains_key(other) == before.contains_key(other)),
        other != d.name@ && before.contains_key(other) ==> after[other] == before[other],
{
}

} // verus!

