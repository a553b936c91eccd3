//! Skills: high-level strategies an agent may select, and their registry.

use vstd::prelude::*;
use crate::text::{owned, str_eq};
use crate::tools::allowed_in;

verus! {

broadcast use vstd::string::group_string_axioms;

/// A high-level strategy: which tools it may use and which runs it may create.
#[derive(Debug, Clone)]
pub struct SkillDefinition {
    pub key: String,
    pub name: String,
    pub description: String,
    pub allowed_tool_keys: Vec<String>,
    pub may_create_run_types: Vec<String>,
}

/// The views of a slice of string slices.
pub open spec fn str_views(v: Seq<&str>) -> Seq<Seq<char>> {
    v.map_values(|s: &str| s@)
}

/// The views of a sequence of strings.
pub open spec fn string_views(v: Seq<String>) -> Seq<Seq<char>> {
    v.map_values(|s: String| s@)
}

/// Owned copies of string slices.
pub fn owned_all(values: &[&str]) -> (r: Vec<String>)
    ensures
        string_views(r@) == str_views(values@),
{
    let n = values.len();
    let mut r: Vec<String> = Vec::new();
    let mut i: usize = 0;
    while i < n
        invariant
            n == values@.len(),
            i <= n,
            string_views(r@) == str_views(values@).take(i as int),
        decreases n - i,
    {
        let ghost before = r@;
        let v = owned(values[i]);
        r.push(v);
        proof {
            assert(r@ == before.push(v));
            assert(str_views(values@).take(i + 1) =~= str_views(values@).take(i as int).push(values@[i as int]@));
            assert(string_views(r@) =~= str_views(values@).take(i + 1));
        }
        i = i + 1;
    }
    assert(str_views(values@).take(n as int) =~= str_views(values@));
    r
}

impl SkillDefinition {
    /// A skill with no allowed tools and no run types.
    pub fn new(key: &str, name: &str, description: &str) -> (r: Self)
        ensures
            r.key@ == key@,
            r.name@ == name@,
            r.description@ == description@,
            r.allowed_tool_keys@.len() == 0,
            r.may_create_run_types@.len() == 0,
    {
        SkillDefinition {
            key: owned(key),
            name: owned(name),
            description: owned(description),
            allowed_tool_keys: Vec::new(),
            may_create_run_types: Vec::new(),
        }
    }

    /// The same skill with the given allowed tool keys.
    pub fn with_allowed_tools(self, tool_keys: &[&str]) -> (r: Self)
        ensures
            string_views(r.allowed_tool_keys@) == str_views(tool_keys@),
            r.key == self.key,
            r.name == self.name,
            r.description == self.description,
            r.may_create_run_types == self.may_create_run_types,
    {
        let mut r = self;
        r.allowed_tool_keys = owned_all(tool_keys);
        r
    }

    /// The same skill with the given run types.
    pub fn with_run_types(self, run_types: &[&str]) -> (r: Self)
        ensures
            string_views(r.may_create_run_types@) == str_views(run_types@),
            r.key == self.key,
            r.name == self.name,
            r.description == self.description,
            r.allowed_tool_keys == self.allowed_tool_keys,
    {
        let mut r = self;
        r.may_create_run_types = owned_all(run_types);
        r
    }
}

/// The choice of a skill, with optional reasoning and expected outcome.
#[derive(Debug, Clone, PartialEq, Eq)]
pub struct SkillSelection {
    pub skill_key: String,
    pub reasoning_summary: Option<String>,
    pub expected_outcome: Option<String>,
}

impl SkillSelection {
    /// A selection of `skill_key` without reasoning or expected outcome.
    pub fn new(skill_key: &str) -> (r: Self)
        ensures
            r.skill_key@ == skill_key@,
            r.reasoning_summary is None,
            r.expected_outcome is None,
    {
        SkillSelection { skill_key: owned(skill_key), reasoning_summary: None, expected_outcome: None }
    }

    /// The same selection with a reasoning summary.
    pub fn with_reasoning(self, reasoning_summary: &str) -> (r: Self)
        ensures
            r.reasoning_summary matches Some(s) && s@ == reasoning_summary@,
            r.skill_key == self.skill_key,
            r.expected_outcome == self.expected_outcome,
    {
        let mut r = self;
        r.reasoning_summary = Some(owned(reasoning_summary));
        r
    }

    /// The same selection with an expected outcome.
    pub fn with_expected_outcome(self, expected_outcome: &str) -> (r: Self)
        ensures
            r.expected_outcome matches Some(s) && s@ == expected_outcome@,
            r.skill_key == self.skill_key,
            r.reasoning_summary == self.reasoning_summary,
    {
        let mut r = self;
        r.expected_outcome = Some(owned(expected_outcome));
        r
    }

    /// A copy of this selection.
    pub fn duplicate(&self) -> (r: Self)
        ensures
            r == *self,
    {
        SkillSelection {
            skill_key: self.skill_key.clone(),
            reasoning_summary: match &self.reasoning_summary {
                Some(s) => Some(s.clone()),
                None => None,
            },
            expected_outcome: match &self.expected_outcome {
                Some(s) => Some(s.clone()),
                None => None,
            },
        }
    }
}

/// Errors of the skill registry.
#[derive(Debug, Clone, PartialEq, Eq)]
pub enum SkillRegistryError {
    SkillNotFound(String),
    SkillAlreadyRegistered(String),
}

impl SkillRegistryError {
    /// The human-readable text of the error.
    pub open spec fn text(&self) -> Seq<char> {
        match self {
            SkillRegistryError::SkillNotFound(k) => "skill not found: "@ + k@,
            SkillRegistryError::SkillAlreadyRegistered(k) => "skill already registered: "@ + k@,
        }
    }

    /// The human-readable text of the error, e.g. `skill not found: <key>`.
    pub fn to_string(&self) -> (r: String)
        ensures
            r@ == self.text(),
    {
        let mut r = String::new();
        match self {
            SkillRegistryError::SkillNotFound(k) => {
                r.append("skill not found: ");
                r.append(k.as_str());
            },
            SkillRegistryError::SkillAlreadyRegistered(k) => {
                r.append("skill already registered: ");
                r.append(k.as_str());
            },
        }
        r
    }
}

/// The skills of a sequence keyed by key; a later entry wins.
pub open spec fn skill_map(s: Seq<SkillDefinition>) -> Map<Seq<char>, SkillDefinition>
    decreases s.len(),
{
    if s.len() == 0 {
        Map::empty()
    } else {
        skill_map(s.drop_last()).insert(s.last().key@, s.last())
    }
}

/// No two skills share a key.
pub open spec fn distinct_skill_keys(s: Seq<SkillDefinition>) -> bool {
    forall|i: int, j: int| 0 <= i < s.len() && 0 <= j < s.len() && i != j ==> s[i].key@ != s[j].key@
}

pub proof fn lemma_skill_map(s: Seq<SkillDefinition>)
    requires
        distinct_skill_keys(s),
    ensures
        forall|k: Seq<char>| #[trigger] skill_map(s).contains_key(k) <==> exists|i: int| 0 <= i < s.len() && s[i].key@ == k,
        forall|i: int| 0 <= i < s.len() ==> #[trigger] skill_map(s)[s[i].key@] == s[i],
        skill_map(s).dom().len() == s.len(),
        skill_map(s).dom().finite(),
    decreases s.len(),
{
    if s.len() > 0 {
        let p = s.drop_last();
        assert(distinct_skill_keys(p));
        lemma_skill_map(p);
        assert(!skill_map(p).contains_key(s.last().key@)) by {
            if skill_map(p).contains_key(s.last().key@) {
                let i = choose|i: int| 0 <= i < p.len() && p[i].key@ == s.last().key@;
                assert(s[i].key@ == s[s.len() - 1].key@);
            }
        }
        assert forall|k: Seq<char>| #[trigger] skill_map(s).contains_key(k) <==> exists|i: int| 0 <= i < s.len() && s[i].key@ == k by {
            if skill_map(s).contains_key(k) && k != s.last().key@ {
                let i = choose|i: int| 0 <= i < p.len() && p[i].key@ == k;
                assert(s[i].key@ == k);
            }
            if exists|i: int| 0 <= i < s.len() && s[i].key@ == k {
                let i = choose|i: int| 0 <= i < s.len() && s[i].key@ == k;
                if i < s.len() - 1 {
                    assert(p[i].key@ == k);
                }
            }
        }
        assert forall|i: int| 0 <= i < s.len() implies #[trigger] skill_map(s)[s[i].key@] == s[i] by {
            if i < s.len() - 1 {
                assert(p[i] == s[i]);
                assert(s[i].key@ != s[s.len() - 1].key@);
            }
        }
    }
}

/// A registry of skills keyed by skill key.
#[derive(Debug)]
pub struct SkillRegistry {
    skills: Vec<SkillDefinition>,
}

impl View for SkillRegistry {
    type V = Map<Seq<char>, SkillDefinition>;

    closed spec fn view(&self) -> Map<Seq<char>, SkillDefinition> {
        skill_map(self.skills@)
    }
}

impl SkillRegistry {
    #[verifier::type_invariant]
    spec fn keys_are_distinct(self) -> bool {
        distinct_skill_keys(self.skills@)
    }

    /// An empty registry.
    pub fn new() -> (r: Self)
        ensures
            r@ == Map::<Seq<char>, SkillDefinition>::empty(),
    {
        SkillRegistry { skills: Vec::new() }
    }

    /// Registers a skill under its key; refuses a key already taken, leaving
    /// the registry as it was.
    pub fn register(&mut self, definition: SkillDefinition) -> (r: Result<(), SkillRegistryError>)
        ensures
            old(self)@.contains_key(definition.key@) ==> (r matches Err(
                SkillRegistryError::SkillAlreadyRegistered(k),
            ) && k@ == definition.key@ && final(self)@ == old(self)@),
            !old(self)@.contains_key(definition.key@) ==> (r is Ok && final(self)@ == old(
                self,
            )@.insert(definition.key@, definition)),
    {
        proof {
            use_type_invariant(&*self);
            lemma_skill_map(self.skills@);
        }
        if self.contains(definition.key.as_str()) {
            let key = definition.key.as_str().to_owned();
            return Err(SkillRegistryError::SkillAlreadyRegistered(key));
        }
        let ghost old_skills = self.skills@;
        let mut skills = Vec::new();
        std::mem::swap(&mut skills, &mut self.skills);
        skills.push(definition);
        proof {
            assert(skills@.drop_last() =~= old_skills);
            assert forall|i: int, j: int|
                0 <= i < skills@.len() && 0 <= j < skills@.len() && i != j implies skills@[i].key@
                != skills@[j].key@ by {
                if i == skills@.len() - 1 && j < old_skills.len() {
                    assert(skill_map(old_skills).contains_key(old_skills[j].key@));
                }
                if j == skills@.len() - 1 && i < old_skills.len() {
                    assert(skill_map(old_skills).contains_key(old_skills[i].key@));
                }
            }
        }
        self.skills = skills;
        Ok(())
    }

    fn position(&self, key: &str) -> (r: Option<usize>)
        ensures
            match r {
                Some(i) => i < self.skills@.len() && self.skills@[i as int].key@ == key@,
                None => forall|i: int| 0 <= i < self.skills@.len() ==> self.skills@[i].key@ != key@,
            },
    {
        let n = self.skills.len();
        let mut i: usize = 0;
        while i < n
            invariant
                n == self.skills@.len(),
                i <= n,
                forall|k: int| 0 <= k < i ==> self.skills@[k].key@ != key@,
            decreases n - i,
        {
            if str_eq(self.skills[i].key.as_str(), key) {
                return Some(i);
            }
            i = i + 1;
        }
        None
    }

    /// The skill registered under `key`, if any.
    pub fn get(&self, key: &str) -> (r: Option<&SkillDefinition>)
        ensures
            self@.contains_key(key@) ==> r == Some(&self@[key@]),
            !self@.contains_key(key@) ==> r is None,
    {
        proof {
            use_type_invariant(self);
            lemma_skill_map(self.skills@);
        }
        match self.position(key) {
            Some(i) => Some(&self.skills[i]),
            None => None,
        }
    }

    /// Whether a skill with this key is registered.
    pub fn contains(&self, key: &str) -> (r: bool)
        ensures
            r == self@.contains_key(key@),
    {
        proof {
            use_type_invariant(self);
            lemma_skill_map(self.skills@);
        }
        self.position(key).is_some()
    }

    /// The registered skills whose keys are among `allowed_keys`, in the
    /// order of `allowed_keys`; unknown keys are skipped.
    pub fn allowed_skills(&self, allowed_keys: &[String]) -> (r: Vec<&SkillDefinition>)
        ensures
            r@.map_values(|d: &SkillDefinition| *d) == allowed_in(
                self@,
                allowed_keys@.map_values(|k: String| k@),
            ),
    {
        let n = allowed_keys.len();
        let ghost keys = allowed_keys@.map_values(|k: String| k@);
        let mut r: Vec<&SkillDefinition> = Vec::new();
        let mut i: usize = 0;
        while i < n
            invariant
                n == allowed_keys@.len(),
                keys == allowed_keys@.map_values(|k: String| k@),
                i <= n,
                r@.map_values(|d: &SkillDefinition| *d) == allowed_in(self@, keys.take(i as int)),
            decreases n - i,
        {
            let found = self.get(allowed_keys[i].as_str());
            proof {
                assert(keys.take(i + 1).drop_last() =~= keys.take(i as int));
                assert(keys.take(i + 1).last() == allowed_keys@[i as int]@);
            }
            match found {
                Some(d) => {
                    r.push(d);
                    assert(r@.map_values(|d: &SkillDefinition| *d) =~= allowed_in(self@, keys.take(i as int)).push(*d));
                },
                None => {},
            }
            i = i + 1;
        }
        assert(keys.take(n as int) =~= keys);
        r
    }
}

impl Default for SkillRegistry {
    fn default() -> (r: Self)
        ensures
            r@ == Map::<Seq<char>, SkillDefinition>::empty(),
    {
        SkillRegistry::new()
    }
}


/// `m` maps `key` to a skill with this name and description, the two given
/// allowed tools and the one given run type.
pub open spec fn has_skill(
    m: Map<Seq<char>, SkillDefinition>,
    key: Seq<char>,
    name: Seq<char>,
    description: Seq<char>,
    tools: Seq<Seq<char>>,
    run_types: Seq<Seq<char>>,
) -> bool {
    &&& m.contains_key(key)
    &&& m[key].key@ == key
    &&& m[key].name@ == name
    &&& m[key].description@ == description
    &&& string_views(m[key].allowed_tool_keys@) == tools
    &&& string_views(m[key].may_create_run_types@) == run_types
}

/// The three built-in high-level strategies.
pub fn builtin_skill_registry() -> (r: SkillRegistry)
    ensures
        r@.dom() == set!["import_and_distill_skill"@, "deepen_asset_skill"@, "compose_and_verify_skill"@],
        has_skill(
            r@,
            "import_and_distill_skill"@,
            "Import And Distill"@,
            "High-level strategy for importing and distilling raw material into reusable knowledge objects."@,
            seq!["list_sources"@, "search_memory"@],
            seq!["import_and_distill"@],
        ),
        has_skill(
            r@,
            "deepen_asset_skill"@,
            "Deepen Asset"@,
            "High-level strategy for deepening understanding around an existing asset or topic."@,
            seq!["get_asset"@, "search_memory"@],
            seq!["deepening"@],
        ),
        has_skill(
            r@,
            "compose_and_verify_skill"@,
            "Compose And Verify"@,
            "High-level strategy for composing an output and checking it against the current project context."@,
            seq!["get_project"@, "search_memory"@],
            seq!["compose_and_verify"@],
        ),
{
    proof {
        reveal_strlit("import_and_distill_skill");
        reveal_strlit("deepen_asset_skill");
        reveal_strlit("compose_and_verify_skill");
        assert("import_and_distill_skill"@[0] != "deepen_asset_skill"@[0]);
        assert("import_and_distill_skill"@[0] != "compose_and_verify_skill"@[0]);
        assert("deepen_asset_skill"@[0] != "compose_and_verify_skill"@[0]);
    }
    let import = SkillDefinition::new(
        "import_and_distill_skill",
        "Import And Distill",
        "High-level strategy for importing and distilling raw material into reusable knowledge objects.",
    ).with_allowed_tools(&["list_sources", "search_memory"]).with_run_types(&["import_and_distill"]);
    assert(string_views(import.allowed_tool_keys@) =~= seq!["list_sources"@, "search_memory"@]);
    assert(string_views(import.may_create_run_types@) =~= seq!["import_and_distill"@]);
    let deepen = SkillDefinition::new(
        "deepen_asset_skill",
        "Deepen Asset",
        "High-level strategy for deepening understanding around an existing asset or topic.",
    ).with_allowed_tools(&["get_asset", "search_memory"]).with_run_types(&["deepening"]);
    assert(string_views(deepen.allowed_tool_keys@) =~= seq!["get_asset"@, "search_memory"@]);
    assert(string_views(deepen.may_create_run_types@) =~= seq!["deepening"@]);
    let compose = SkillDefinition::new(
        "compose_and_verify_skill",
        "Compose And Verify",
        "High-level strategy for composing an output and checking it against the current project context.",
    ).with_allowed_tools(&["get_project", "search_memory"]).with_run_types(&["compose_and_verify"]);
    assert(string_views(compose.allowed_tool_keys@) =~= seq!["get_project"@, "search_memory"@]);
    assert(string_views(compose.may_create_run_types@) =~= seq!["compose_and_verify"@]);
    let mut registry = SkillRegistry::new();
    let _ = registry.register(import);
    let _ = registry.register(deepen);
    let _ = registry.register(compose);
    assert(registry@.dom() =~= set![
        "import_and_distill_skill"@,
        "deepen_asset_skill"@,
        "compose_and_verify_skill"@,
    ]);
    registry
}

/// After a successful registration the new skill is found under its
/// key, and every other key is found exactly as before.
pub proof fn lemma_registered_skill_is_found(
    before: Map<Seq<char>, SkillDefinition>,
    after: Map<Seq<char>, SkillDefinition>,
    d: SkillDefinition,
    other: Seq<char>,
)
    requires
        after == before.insert(d.key@, d),
    ensures
        after.contains_key(d.key@),
        after[d.key@] == d,
        other != d.key@ ==> (after.contains_key(other) == before.contains_key(other)),
        other != d.key@ && before.contains_key(other) ==> after[other] == before[other],
{
}

} // verus!

