//! Skill pack tools: the local skill index, `load_skill`, ClawHub search and
//! explore, importing a ClawHub package into the shared store, and removing
//! one from it. Directory listing, file reads and downloads are left to the
//! caller; the rules of each step are here.

use vstd::prelude::*;
use vstd::string::*;
use crate::clawhub::{ClawHubRegistry, DEFAULT_REGISTRY_URL, strip_trailing_slashes, MIN_TIMEOUT_MS};
use crate::config::{ClawHubConfig, Config};
use crate::entity::{find_by_id, EntityPool, CEO_ENTITY_ID};
use crate::paths::{join_path, parent_path, path_join, path_parent};
use crate::order::{sort_strings, text_order};
use crate::json::{Json, JsonValue};
use crate::schema::{
    described, described_field, members, new_members, object_schema, object_schema_value,
    push_member, str_views,
};
use vstd::relations::sorted_by;
use crate::text::{
    concat3, concat5, has_sub, join, join_strings, opt_view, str_contains, str_contains_char,
    str_eq, str_trim, strings_contain, to_owned_string, trim, views,
};
use crate::tool_result::{fail_view, ok_view, ToolResult, ToolResultView};

verus! {

/// The error text when ClawHub tools are used while disabled.
pub const CLAWHUB_DISABLED: &'static str = "ClawHub is disabled; set [skills.clawhub] enabled = true";

/// The registry base URL configured for ClawHub, else the default one.
pub open spec fn registry_base(c: ClawHubConfig) -> Seq<char> {
    match c.registry_url {
        Some(u) => u@,
        None => DEFAULT_REGISTRY_URL@,
    }
}

/// The registry client that ClawHub settings describe.
pub fn registry_from(c: &ClawHubConfig) -> (r: ClawHubRegistry)
    ensures
        r.base_url_spec() == strip_trailing_slashes(registry_base(*c)),
        r.timeout_spec() == if c.timeout_ms < MIN_TIMEOUT_MS {
            MIN_TIMEOUT_MS
        } else {
            c.timeout_ms
        },
        r.token_spec() == opt_view(c.token),
{
    let base = match &c.registry_url {
        Some(u) => u.clone(),
        None => to_owned_string(DEFAULT_REGISTRY_URL),
    };
    ClawHubRegistry::new(base, c.timeout_ms, crate::text::copy_opt(&c.token))
}

/// The registry client that `[skills.clawhub]` describes.
pub fn registry_client(config: &Config) -> (r: ClawHubRegistry)
    ensures
        r.base_url_spec() == strip_trailing_slashes(registry_base(config.skills.clawhub)),
        r.timeout_spec() == if config.skills.clawhub.timeout_ms < MIN_TIMEOUT_MS {
            MIN_TIMEOUT_MS
        } else {
            config.skills.clawhub.timeout_ms
        },
        r.token_spec() == opt_view(config.skills.clawhub.token),
{
    registry_from(&config.skills.clawhub)
}

/// `load_skill` may read package `slug` for entity `entity_id`: the entity
/// is in the pool and either lists the package, or is the CEO with an empty
/// package list (the CEO may then read any package).
pub open spec fn load_allowed_spec(entity_id: Seq<char>, slug: Seq<char>, pool: Option<Seq<crate::entity::EntityRuntimeView>>) -> bool {
    match pool {
        None => false,
        Some(p) => match find_by_id(p, entity_id) {
            None => false,
            Some(e) => (entity_id == CEO_ENTITY_ID@ && e.skill_allowlist.len() == 0)
                || e.skill_allowlist.contains(slug),
        },
    }
}

pub open spec fn pool_view(pool: Option<&EntityPool>) -> Option<Seq<crate::entity::EntityRuntimeView>> {
    match pool {
        Some(p) => Some(p@),
        None => None,
    }
}

/// Whether entity `entity_id` may load skill package `slug`.
pub fn load_skill_allowed(entity_id: &str, slug: &str, pool: Option<&EntityPool>) -> (r: bool)
    ensures
        r == load_allowed_spec(entity_id@, slug@, pool_view(pool)),
{
    let pool = match pool {
        Some(p) => p,
        None => return false,
    };
    let e = match pool.get(entity_id) {
        Some(e) => e,
        None => return false,
    };
    if str_eq(entity_id, CEO_ENTITY_ID) && e.skill_allowlist.len() == 0 {
        return true;
    }
    strings_contain(&e.skill_allowlist, slug)
}

/// A package name that may be looked up on disk: non-empty after trimming,
/// without `..` and without `/`.
pub open spec fn package_name_ok(name: Seq<char>) -> bool {
    let n = trim(name);
    n.len() > 0 && !has_sub(n, ".."@) && !n.contains('/')
}

/// Where a skill package `name` may live, in lookup order: the instance
/// workspace `skills/<name>`, then the shared store `<shared>/<name>`.
/// `None` for a name that cannot be a package id.
pub fn skill_root_candidates(workspace_dir: &str, shared_root: &str, name: &str) -> (r: Option<
    Vec<String>,
>)
    ensures
        package_name_ok(name@) ==> (r matches Some(v) && views(v@) == seq![
            path_join(path_join(workspace_dir@, "skills"@), trim(name@)),
            path_join(shared_root@, trim(name@)),
        ]),
        !package_name_ok(name@) ==> r is None,
{
    let n = str_trim(name);
    if n.is_empty() || str_contains(n, "..") || str_contains_char(n, '/') {
        return None;
    }
    let skills = join_path(workspace_dir, "skills");
    let w = join_path(skills.as_str(), n);
    let s = join_path(shared_root, n);
    let mut v: Vec<String> = Vec::new();
    v.push(w);
    v.push(s);
    assert(views(v@) =~= seq![
        path_join(path_join(workspace_dir@, "skills"@), trim(name@)),
        path_join(shared_root@, trim(name@)),
    ]);
    Some(v)
}

/// The manifest files of a package directory, in preference order:
/// `SKILL.md`, then `SKILL.toml`.
pub fn skill_manifest_paths(root: &str) -> (r: (String, String))
    ensures
        r.0@ == path_join(root@, "SKILL.md"@),
        r.1@ == path_join(root@, "SKILL.toml"@),
{
    (join_path(root, "SKILL.md"), join_path(root, "SKILL.toml"))
}

/// The first candidate directory that holds a manifest.
pub open spec fn first_with_manifest(candidates: Seq<Seq<char>>, has_manifest: Seq<bool>) -> Option<Seq<char>>
    decreases candidates.len(),
{
    if candidates.len() == 0 || has_manifest.len() == 0 {
        None
    } else if has_manifest[0] {
        Some(candidates[0])
    } else {
        first_with_manifest(candidates.drop_first(), has_manifest.drop_first())
    }
}

/// The package root: the first candidate whose directory holds a manifest.
pub fn pick_skill_root(candidates: &Vec<String>, has_manifest: &Vec<bool>) -> (r: Option<String>)
    ensures
        opt_view(r) == first_with_manifest(views(candidates@), has_manifest@),
{
    let ghost c = views(candidates@);
    let ghost h = has_manifest@;
    let mut i: usize = 0;
    assert(c.subrange(0, c.len() as int) =~= c);
    assert(h.subrange(0, h.len() as int) =~= h);
    while i < candidates.len() && i < has_manifest.len()
        invariant
            c == views(candidates@),
            h == has_manifest@,
            i <= c.len(),
            i <= h.len(),
            first_with_manifest(c, h) == first_with_manifest(
                c.subrange(i as int, c.len() as int),
                h.subrange(i as int, h.len() as int),
            ),
        decreases candidates.len() - i,
    {
        assert(c.subrange(i as int, c.len() as int)[0] == candidates@[i as int]@);
        assert(h.subrange(i as int, h.len() as int)[0] == has_manifest@[i as int]);
        if has_manifest[i] {
            return Some(candidates[i].clone());
        }
        assert(c.subrange(i as int, c.len() as int).drop_first() =~= c.subrange(
            i + 1,
            c.len() as int,
        ));
        assert(h.subrange(i as int, h.len() as int).drop_first() =~= h.subrange(
            i + 1,
            h.len() as int,
        ));
        i = i + 1;
    }
    None
}

/// Lists skill packages under the instance workspace and the shared store.
#[derive(Debug, Clone)]
pub struct SkillIndexTool {
    workspace_dir: String,
    shared_skills_dir: String,
}

/// One line of the skill index: `<name> (<source>)`.
pub open spec fn index_line(name: Seq<char>, source: Seq<char>) -> Seq<char> {
    name + " ("@ + source + ")"@
}

/// The index lines of the packages `names` of one source, in order.
pub open spec fn index_lines(names: Seq<Seq<char>>, source: Seq<char>) -> Seq<Seq<char>> {
    Seq::new(names.len(), |i: int| index_line(names[i], source))
}

/// The text shown when no package exists anywhere.
pub const NO_SKILL_PACKAGES: &'static str = "No skill packages found under workspace/skills or shared skills dir.";

/// The arguments of `skill_index`: none.
pub open spec fn skill_index_schema() -> Json {
    object_schema(Seq::empty(), Seq::empty())
}

impl SkillIndexTool {
    /// The JSON Schema of the arguments.
    pub fn parameters_schema(&self) -> (r: JsonValue)
        ensures
            r@ == skill_index_schema(),
    {
        let p = new_members();
        let ghost props = members(p@);
        let required: [&str; 0] = [];
        let r = object_schema_value(p, &required);
        proof {
            assert(props =~= skill_index_schema()->Object_0[1].1->Object_0);
            assert(str_views(required@) =~= Seq::<Seq<char>>::empty());
        }
        r
    }

    pub fn new(workspace_dir: String, shared_skills_dir: String) -> (r: Self)
        ensures
            r.workspace_spec() == workspace_dir@,
            r.shared_spec() == shared_skills_dir@,
    {
        SkillIndexTool { workspace_dir, shared_skills_dir }
    }

    pub closed spec fn workspace_spec(&self) -> Seq<char> {
        self.workspace_dir@
    }

    pub closed spec fn shared_spec(&self) -> Seq<char> {
        self.shared_skills_dir@
    }

    pub fn name(&self) -> (r: &'static str)
        ensures
            r@ == "skill_index"@,
    {
        "skill_index"
    }

    pub fn description(&self) -> (r: &'static str)
        ensures
            r@ == "List skill packages available locally: instance workspace skills/ and cluster shared skills/ (before querying ClawHub)."@,
    {
        "List skill packages available locally: instance workspace skills/ and cluster shared skills/ (before querying ClawHub)."
    }

    /// The two directories listed, in order: `<workspace>/skills` (source
    /// `instance`) and the shared store (source `shared`).
    pub fn sources(&self) -> (r: Vec<(String, &'static str)>)
        ensures
            r@.len() == 2,
            r@[0].0@ == path_join(self.workspace_spec(), "skills"@),
            r@[0].1@ == "instance"@,
            r@[1].0@ == self.shared_spec(),
            r@[1].1@ == "shared"@,
    {
        let mut r: Vec<(String, &'static str)> = Vec::new();
        r.push((join_path(self.workspace_dir.as_str(), "skills"), "instance"));
        r.push((self.shared_skills_dir.clone(), "shared"));
        r
    }

    /// The index lines of one source, sorted: `<name> (<source>)` for each
    /// package directory found (the caller keeps only directories with a
    /// manifest).
    pub fn list_dir_skills(names: &Vec<String>, source_label: &str) -> (r: Vec<String>)
        ensures
            sorted_by(views(r@), text_order()),
            views(r@).to_multiset() == index_lines(views(names@), source_label@).to_multiset(),
    {
        let mut lines: Vec<String> = Vec::new();
        let mut i: usize = 0;
        while i < names.len()
            invariant
                i <= names@.len(),
                views(lines@) == index_lines(views(names@), source_label@).take(i as int),
            decreases names.len() - i,
        {
            let mut line = names[i].clone();
            line.append(" (");
            line.append(source_label);
            line.append(")");
            let ghost before = views(lines@);
            let ghost lv = line@;
            assert(lv == index_line(views(names@)[i as int], source_label@));
            lines.push(line);
            assert(views(lines@) =~= before.push(lv));
            assert(views(lines@) =~= index_lines(views(names@), source_label@).take(i + 1));
            i = i + 1;
        }
        assert(index_lines(views(names@), source_label@).take(names@.len() as int) =~= index_lines(
            views(names@),
            source_label@,
        ));
        sort_strings(lines)
    }

    /// The tool output for the index lines of both sources.
    pub fn execute(&self, lines: &Vec<String>) -> (r: ToolResult)
        ensures
            lines@.len() == 0 ==> r@ == ok_view(NO_SKILL_PACKAGES@),
            lines@.len() > 0 ==> r@ == ok_view(join(views(lines@), "\n"@)),
    {
        if lines.len() == 0 {
            ToolResult::ok(to_owned_string(NO_SKILL_PACKAGES))
        } else {
            ToolResult::ok(join_strings(lines, "\n"))
        }
    }
}

/// Reads a skill package's manifest when the entity's allowlist permits.
#[derive(Debug, Clone)]
pub struct LoadSkillTool {
    workspace_dir: String,
    shared_skills_dir: String,
    target_entity_id: Option<String>,
}

/// What `load_skill` answers before looking on disk: the trimmed package
/// name to load, or the refusal.
pub open spec fn load_check_spec(
    name: Seq<char>,
    target: Option<Seq<char>>,
    pool: Option<Seq<crate::entity::EntityRuntimeView>>,
) -> Result<Seq<char>, ToolResultView> {
    let n = trim(name);
    if n.len() == 0 {
        Err(fail_view("name is required"@))
    } else {
        match target {
            None => Err(fail_view("load_skill requires a target entity context"@)),
            Some(eid) => if !load_allowed_spec(eid, n, pool) {
                Err(fail_view("skill package '"@ + n + "' is not allowed for entity '"@ + eid
                    + "' (skill_allowlist / CEO policy)"@))
            } else {
                Ok(n)
            },
        }
    }
}

/// The arguments of `load_skill`: the package name.
pub open spec fn load_skill_schema() -> Json {
    object_schema(
        seq![
            ("name"@, described("string"@, "Skill package id (directory name)"@))
        ],
        seq!["name"@],
    )
}

impl LoadSkillTool {
    /// The JSON Schema of the arguments.
    pub fn parameters_schema(&self) -> (r: JsonValue)
        ensures
            r@ == load_skill_schema(),
    {
        let mut p = new_members();
        push_member(&mut p, "name", described_field("string", "Skill package id (directory name)"));
        let ghost props = members(p@);
        let required: [&str; 1] = ["name"];
        let r = object_schema_value(p, &required);
        proof {
            assert(props =~= load_skill_schema()->Object_0[1].1->Object_0);
            assert(str_views(required@) =~= seq!["name"@]);
        }
        r
    }

    pub fn new(workspace_dir: String, shared_skills_dir: String, target_entity_id: Option<String>) -> (r: Self)
        ensures
            r.workspace_spec() == workspace_dir@,
            r.shared_spec() == shared_skills_dir@,
            r.target_spec() == opt_view(target_entity_id),
    {
        LoadSkillTool { workspace_dir, shared_skills_dir, target_entity_id }
    }

    pub closed spec fn workspace_spec(&self) -> Seq<char> {
        self.workspace_dir@
    }

    pub closed spec fn shared_spec(&self) -> Seq<char> {
        self.shared_skills_dir@
    }

    pub closed spec fn target_spec(&self) -> Option<Seq<char>> {
        opt_view(self.target_entity_id)
    }

    pub fn name(&self) -> (r: &'static str)
        ensures
            r@ == "load_skill"@,
    {
        "load_skill"
    }

    pub fn description(&self) -> (r: &'static str)
        ensures
            r@ == "Load skill package text (SKILL.md or SKILL.toml) by package id when allowed by entity skill_allowlist."@,
    {
        "Load skill package text (SKILL.md or SKILL.toml) by package id when allowed by entity skill_allowlist."
    }

    /// The package to load, or why loading is refused: an empty name, no
    /// target entity, or a package the entity may not read.
    pub fn check(&self, name: &str, pool: Option<&EntityPool>) -> (r: Result<String, ToolResult>)
        ensures
            match load_check_spec(name@, self.target_spec(), pool_view(pool)) {
                Ok(n) => r matches Ok(s) && s@ == n,
                Err(v) => r matches Err(t) && t@ == v,
            },
    {
        let n = str_trim(name);
        if n.is_empty() {
            return Err(ToolResult::fail(to_owned_string("name is required")));
        }
        let eid = match &self.target_entity_id {
            Some(e) => e,
            None => return Err(
                ToolResult::fail(to_owned_string("load_skill requires a target entity context")),
            ),
        };
        if !load_skill_allowed(eid.as_str(), n, pool) {
            let mut m = to_owned_string("skill package '");
            m.append(n);
            m.append("' is not allowed for entity '");
            m.append(eid.as_str());
            m.append("' (skill_allowlist / CEO policy)");
            return Err(ToolResult::fail(m));
        }
        Ok(n.to_owned())
    }

    /// Where package `name` may live, in lookup order.
    pub fn candidates(&self, name: &str) -> (r: Option<Vec<String>>)
        ensures
            package_name_ok(name@) ==> (r matches Some(v) && views(v@) == seq![
                path_join(path_join(self.workspace_spec(), "skills"@), trim(name@)),
                path_join(self.shared_spec(), trim(name@)),
            ]),
            !package_name_ok(name@) ==> r is None,
    {
        skill_root_candidates(self.workspace_dir.as_str(), self.shared_skills_dir.as_str(), name)
    }

    /// The answer when no candidate directory holds a manifest.
    pub fn unknown_package(name: &str) -> (r: ToolResult)
        ensures
            r@ == fail_view("unknown skill package '"@ + name@ + "' on disk"@),
    {
        ToolResult::fail(concat3("unknown skill package '", name, "' on disk"))
    }

    /// The answer once the manifest was read (or could not be).
    pub fn loaded(text: Result<String, String>) -> (r: ToolResult)
        ensures
            match text {
                Ok(t) => r@ == ok_view(t@),
                Err(e) => r@ == fail_view(e@),
            },
    {
        match text {
            Ok(t) => ToolResult::ok(t),
            Err(e) => ToolResult::fail(e),
        }
    }
}

/// The answer of a ClawHub query: its text, or the error.
pub fn query_outcome(outcome: Result<String, String>) -> (r: ToolResult)
    ensures
        match outcome {
            Ok(t) => r@ == ok_view(t@),
            Err(e) => r@ == fail_view(e@),
        },
{
    match outcome {
        Ok(t) => ToolResult::ok(t),
        Err(e) => ToolResult::fail(e),
    }
}

/// Searches the ClawHub registry.
#[derive(Debug, Clone)]
pub struct ClawhubSearchTool {
    clawhub: ClawHubConfig,
}

/// The arguments of `clawhub_search`: the query.
pub open spec fn clawhub_search_schema() -> Json {
    object_schema(
        seq![
            ("query"@, described("string"@, "Search query"@))
        ],
        seq!["query"@],
    )
}

impl ClawhubSearchTool {
    /// The JSON Schema of the arguments.
    pub fn parameters_schema(&self) -> (r: JsonValue)
        ensures
            r@ == clawhub_search_schema(),
    {
        let mut p = new_members();
        push_member(&mut p, "query", described_field("string", "Search query"));
        let ghost props = members(p@);
        let required: [&str; 1] = ["query"];
        let r = object_schema_value(p, &required);
        proof {
            assert(props =~= clawhub_search_schema()->Object_0[1].1->Object_0);
            assert(str_views(required@) =~= seq!["query"@]);
        }
        r
    }

    pub fn new(config: Config) -> (r: Self)
        ensures
            r.clawhub_spec() == config.skills.clawhub,
    {
        ClawhubSearchTool { clawhub: config.skills.clawhub }
    }

    pub closed spec fn clawhub_spec(&self) -> ClawHubConfig {
        self.clawhub
    }

    pub fn name(&self) -> (r: &'static str)
        ensures
            r@ == "clawhub_search"@,
    {
        "clawhub_search"
    }

    pub fn description(&self) -> (r: &'static str)
        ensures
            r@ == "Search the ClawHub public registry (GET /api/v1/search). Requires [skills.clawhub] enabled."@,
    {
        "Search the ClawHub public registry (GET /api/v1/search). Requires [skills.clawhub] enabled."
    }

    /// The registry to query, or the refusal when ClawHub is disabled.
    pub fn registry(&self) -> (r: Result<ClawHubRegistry, ToolResult>)
        ensures
            !self.clawhub_spec().enabled ==> (r matches Err(t) && t@ == fail_view(
                CLAWHUB_DISABLED@,
            )),
            self.clawhub_spec().enabled ==> (r matches Ok(reg) && reg.base_url_spec()
                == strip_trailing_slashes(registry_base(self.clawhub_spec()))),
    {
        if !self.clawhub.enabled {
            return Err(ToolResult::fail(to_owned_string(CLAWHUB_DISABLED)));
        }
        Ok(registry_from(&self.clawhub))
    }
}

/// Browses recent ClawHub skills.
#[derive(Debug, Clone)]
pub struct ClawhubExploreTool {
    clawhub: ClawHubConfig,
}

/// The `limit` argument: given value (truncated to 32 bits), else 25.
pub open spec fn explore_arg_spec(limit: Option<u64>) -> u32 {
    match limit {
        Some(l) => l as u32,
        None => 25,
    }
}

/// The arguments of `clawhub_explore`: an optional `limit` (default 25).
pub open spec fn clawhub_explore_schema() -> Json {
    object_schema(
        seq![
            (
                "limit"@,
                Json::Object(
                    seq![
                        ("type"@, Json::Str("integer"@)),
                        ("description"@, Json::Str("Max items (1-200)"@)),
                        ("default"@, Json::Number("25"@)),
                    ],
                ),
            ),
        ],
        Seq::empty(),
    )
}

impl ClawhubExploreTool {
    /// The JSON Schema of the arguments.
    pub fn parameters_schema(&self) -> (r: JsonValue)
        ensures
            r@ == clawhub_explore_schema(),
    {
        let mut limit = new_members();
        push_member(&mut limit, "type", crate::json::json_str("integer"));
        push_member(&mut limit, "description", crate::json::json_str("Max items (1-200)"));
        push_member(&mut limit, "default", JsonValue::Number(to_owned_string("25")));
        assert(members(limit@) =~= clawhub_explore_schema()->Object_0[1].1->Object_0[0].1->Object_0);
        let mut p = new_members();
        push_member(&mut p, "limit", crate::schema::object(limit));
        let ghost props = members(p@);
        let required: [&str; 0] = [];
        let r = object_schema_value(p, &required);
        proof {
            assert(props =~= clawhub_explore_schema()->Object_0[1].1->Object_0);
            assert(str_views(required@) =~= Seq::<Seq<char>>::empty());
        }
        r
    }

    pub fn new(config: Config) -> (r: Self)
        ensures
            r.clawhub_spec() == config.skills.clawhub,
    {
        ClawhubExploreTool { clawhub: config.skills.clawhub }
    }

    pub closed spec fn clawhub_spec(&self) -> ClawHubConfig {
        self.clawhub
    }

    pub fn name(&self) -> (r: &'static str)
        ensures
            r@ == "clawhub_explore"@,
    {
        "clawhub_explore"
    }

    pub fn description(&self) -> (r: &'static str)
        ensures
            r@ == "Browse recent skills on ClawHub (GET /api/v1/skills). Requires [skills.clawhub] enabled."@,
    {
        "Browse recent skills on ClawHub (GET /api/v1/skills). Requires [skills.clawhub] enabled."
    }

    /// The registry to query, or the refusal when ClawHub is disabled.
    pub fn registry(&self) -> (r: Result<ClawHubRegistry, ToolResult>)
        ensures
            !self.clawhub_spec().enabled ==> (r matches Err(t) && t@ == fail_view(
                CLAWHUB_DISABLED@,
            )),
            self.clawhub_spec().enabled ==> (r matches Ok(reg) && reg.base_url_spec()
                == strip_trailing_slashes(registry_base(self.clawhub_spec()))),
    {
        if !self.clawhub.enabled {
            return Err(ToolResult::fail(to_owned_string(CLAWHUB_DISABLED)));
        }
        Ok(registry_from(&self.clawhub))
    }

    /// The `limit` to request, from the optional integer argument.
    pub fn limit_arg(limit: Option<u64>) -> (r: u32)
        ensures
            r == explore_arg_spec(limit),
    {
        match limit {
            Some(l) => l as u32,
            None => 25,
        }
    }
}

/// A ClawHub slug accepted for import or removal: trimmed, non-empty, no
/// `..`, no `/`.
pub open spec fn store_slug_ok(slug: Seq<char>) -> bool {
    let s = trim(slug);
    s.len() > 0 && !has_sub(s, ".."@) && !s.contains('/')
}

fn check_store_slug(slug: &str) -> (r: Option<&str>)
    ensures
        store_slug_ok(slug@) ==> (r matches Some(s) && s@ == trim(slug@)),
        !store_slug_ok(slug@) ==> r is None,
{
    let s = str_trim(slug);
    if s.is_empty() || str_contains(s, "..") || str_contains_char(s, '/') {
        None
    } else {
        Some(s)
    }
}

/// What extracting one archive entry under `dest` does.
#[derive(Debug)]
pub enum ZipEntryAction {
    /// The entry's name would leave `dest` (or is not a path): skip it.
    Skip,
    /// Create this directory.
    CreateDir(String),
    /// Create the parent directory (when there is one), then write the
    /// entry's bytes to the path.
    WriteFile(Option<String>, String),
}

/// Extracting an entry: an entry without an enclosed name is skipped; a
/// name ending in `/` is a directory created at `dest` joined with the
/// enclosed name; any other entry is a file written there.
pub open spec fn zip_entry_ok(dest: Seq<char>, name: Seq<char>, enclosed: Option<Seq<char>>, r: ZipEntryAction) -> bool {
    match enclosed {
        None => r is Skip,
        Some(e) => {
            let p = path_join(dest, e);
            if crate::text::ends_with(name, "/"@) {
                r matches ZipEntryAction::CreateDir(d) && d@ == p
            } else {
                r matches ZipEntryAction::WriteFile(parent, f) && f@ == p && opt_view(parent) == path_parent(p)
            }
        },
    }
}

/// The step for one archive entry named `name`, whose enclosed name (the
/// name as a path that stays inside the target) is `enclosed`.
pub fn zip_entry_action(dest: &str, name: &str, enclosed: Option<&str>) -> (r: ZipEntryAction)
    ensures
        zip_entry_ok(dest@, name@, crate::text::opt_str(enclosed), r),
{
    match enclosed {
        None => ZipEntryAction::Skip,
        Some(e) => {
            let p = join_path(dest, e);
            if crate::text::str_ends_with(name, "/") {
                ZipEntryAction::CreateDir(p)
            } else {
                let parent = parent_path(p.as_str());
                ZipEntryAction::WriteFile(parent, p)
            }
        },
    }
}

/// Downloads a ClawHub package, audits it and installs it into the shared
/// skills store.
#[derive(Debug, Clone)]
pub struct ClawhubImportGlobalTool {
    clawhub: ClawHubConfig,
}

/// The arguments of `clawhub_import_global`: the slug.
pub open spec fn clawhub_import_schema() -> Json {
    object_schema(
        seq![
            ("slug"@, described("string"@, "ClawHub skill slug"@))
        ],
        seq!["slug"@],
    )
}

impl ClawhubImportGlobalTool {
    /// The JSON Schema of the arguments.
    pub fn parameters_schema(&self) -> (r: JsonValue)
        ensures
            r@ == clawhub_import_schema(),
    {
        let mut p = new_members();
        push_member(&mut p, "slug", described_field("string", "ClawHub skill slug"));
        let ghost props = members(p@);
        let required: [&str; 1] = ["slug"];
        let r = object_schema_value(p, &required);
        proof {
            assert(props =~= clawhub_import_schema()->Object_0[1].1->Object_0);
            assert(str_views(required@) =~= seq!["slug"@]);
        }
        r
    }

    pub fn new(config: Config) -> (r: Self)
        ensures
            r.clawhub_spec() == config.skills.clawhub,
    {
        ClawhubImportGlobalTool { clawhub: config.skills.clawhub }
    }

    pub closed spec fn clawhub_spec(&self) -> ClawHubConfig {
        self.clawhub
    }

    pub fn name(&self) -> (r: &'static str)
        ensures
            r@ == "clawhub_import_global"@,
    {
        "clawhub_import_global"
    }

    pub fn description(&self) -> (r: &'static str)
        ensures
            r@ == "Download a skill from ClawHub, run security audit, and install under the shared skills directory (global store)."@,
    {
        "Download a skill from ClawHub, run security audit, and install under the shared skills directory (global store)."
    }

    /// The slug to import and the registry to download it from, or the
    /// refusal: ClawHub disabled, or an invalid slug.
    pub fn prepare(&self, slug: &str) -> (r: Result<(String, ClawHubRegistry), ToolResult>)
        ensures
            !self.clawhub_spec().enabled ==> (r matches Err(t) && t@ == fail_view(
                CLAWHUB_DISABLED@,
            )),
            self.clawhub_spec().enabled && !store_slug_ok(slug@) ==> (r matches Err(
                t,
            ) && t@ == fail_view("invalid slug"@)),
            self.clawhub_spec().enabled && store_slug_ok(slug@) ==> (r matches Ok(p)
                && p.0@ == trim(slug@) && p.1.base_url_spec() == strip_trailing_slashes(
                registry_base(self.clawhub_spec()),
            )),
    {
        if !self.clawhub.enabled {
            return Err(ToolResult::fail(to_owned_string(CLAWHUB_DISABLED)));
        }
        let s = match check_store_slug(slug) {
            Some(s) => s,
            None => return Err(ToolResult::fail(to_owned_string("invalid slug"))),
        };
        Ok((s.to_owned(), registry_from(&self.clawhub)))
    }

    /// The refusal when the arguments do not parse.
    pub fn invalid_arguments(detail: &str) -> (r: ToolResult)
        ensures
            r@ == fail_view("invalid arguments: "@ + detail@),
    {
        let mut m = to_owned_string("invalid arguments: ");
        m.append(detail);
        ToolResult::fail(m)
    }

    /// The refusal when the audit could not run.
    pub fn audit_error(detail: &str) -> (r: ToolResult)
        ensures
            r@ == fail_view("audit error: "@ + detail@),
    {
        let mut m = to_owned_string("audit error: ");
        m.append(detail);
        ToolResult::fail(m)
    }

    /// The refusal when the audit found problems.
    pub fn audit_failed(summary: &str) -> (r: ToolResult)
        ensures
            r@ == fail_view("security audit failed: "@ + summary@),
    {
        let mut m = to_owned_string("security audit failed: ");
        m.append(summary);
        ToolResult::fail(m)
    }

    /// Where the package goes: `<shared>/<slug>`.
    pub fn destination(shared_dir: &str, slug: &str) -> (r: String)
        ensures
            r@ == path_join(shared_dir@, slug@),
    {
        join_path(shared_dir, slug)
    }

    /// The refusal when the destination exists already.
    pub fn already_installed(slug: &str, dest: &str) -> (r: ToolResult)
        ensures
            r@ == fail_view("skill '"@ + slug@ + "' already exists at "@ + dest@),
    {
        let mut m = to_owned_string("skill '");
        m.append(slug);
        m.append("' already exists at ");
        m.append(dest);
        ToolResult::fail(m)
    }

    /// The answer once the package is installed.
    pub fn installed(slug: &str, dest: &str) -> (r: ToolResult)
        ensures
            r@ == ok_view("Installed skill '"@ + slug@ + "' to "@ + dest@ + " (audit passed)."@),
    {
        ToolResult::ok(concat5("Installed skill '", slug, "' to ", dest, " (audit passed)."))
    }
}

/// Removes a package from the shared skills store.
#[derive(Debug, Clone)]
pub struct AdminSkillRemoveTool {
    clawhub: ClawHubConfig,
}

/// A removal was refused because the slug is invalid.
#[derive(Debug, Clone, PartialEq, Eq)]
pub struct InvalidSlug;

/// The arguments of `admin_skill_remove`: the slug.
pub open spec fn admin_skill_remove_schema() -> Json {
    object_schema(
        seq![
            ("slug"@, described("string"@, "Package directory name under shared skills"@))
        ],
        seq!["slug"@],
    )
}

impl AdminSkillRemoveTool {
    /// The JSON Schema of the arguments.
    pub fn parameters_schema(&self) -> (r: JsonValue)
        ensures
            r@ == admin_skill_remove_schema(),
    {
        let mut p = new_members();
        push_member(&mut p, "slug", described_field("string", "Package directory name under shared skills"));
        let ghost props = members(p@);
        let required: [&str; 1] = ["slug"];
        let r = object_schema_value(p, &required);
        proof {
            assert(props =~= admin_skill_remove_schema()->Object_0[1].1->Object_0);
            assert(str_views(required@) =~= seq!["slug"@]);
        }
        r
    }

    pub fn new(config: Config) -> (r: Self)
        ensures
            r.clawhub_spec() == config.skills.clawhub,
    {
        AdminSkillRemoveTool { clawhub: config.skills.clawhub }
    }

    pub closed spec fn clawhub_spec(&self) -> ClawHubConfig {
        self.clawhub
    }

    pub fn name(&self) -> (r: &'static str)
        ensures
            r@ == "admin_skill_remove"@,
    {
        "admin_skill_remove"
    }

    pub fn description(&self) -> (r: &'static str)
        ensures
            r@ == "Remove a skill package directory from the local shared skills store (does not delete from ClawHub registry)."@,
    {
        "Remove a skill package directory from the local shared skills store (does not delete from ClawHub registry)."
    }

    /// The directory to remove: `<shared>/<slug>` for a valid slug.
    pub fn target(shared_dir: &str, slug: &str) -> (r: Result<String, InvalidSlug>)
        ensures
            store_slug_ok(slug@) ==> (r matches Ok(p) && p@ == path_join(shared_dir@, trim(slug@))),
            !store_slug_ok(slug@) ==> r is Err,
    {
        match check_store_slug(slug) {
            Some(s) => Ok(join_path(shared_dir, s)),
            None => Err(InvalidSlug),
        }
    }

    /// The answer when nothing is installed there.
    pub fn missing(path: &str) -> (r: ToolResult)
        ensures
            r@ == fail_view("no shared skill at "@ + path@),
    {
        let mut m = to_owned_string("no shared skill at ");
        m.append(path);
        ToolResult::fail(m)
    }

    /// The answer once the directory is removed.
    pub fn removed(path: &str) -> (r: ToolResult)
        ensures
            r@ == ok_view("Removed "@ + path@),
    {
        let mut m = to_owned_string("Removed ");
        m.append(path);
        ToolResult::ok(m)
    }
}

/// Law: `load_skill` reads a package for an entity only when the entity is
/// in the pool; an entity other than the CEO may read exactly the packages
/// it lists; the CEO may read any package while it lists none, and only the
/// listed ones once it lists some.
pub proof fn law_load_access(entity_id: Seq<char>, slug: Seq<char>, pool: Option<Seq<crate::entity::EntityRuntimeView>>)
    ensures
        pool is None ==> !load_allowed_spec(entity_id, slug, pool),
        pool matches Some(p) ==> {
            &&& find_by_id(p, entity_id) is None ==> !load_allowed_spec(entity_id, slug, pool)
            &&& find_by_id(p, entity_id) matches Some(e) ==> {
                &&& entity_id != CEO_ENTITY_ID@ ==> (load_allowed_spec(entity_id, slug, pool)
                    <==> e.skill_allowlist.contains(slug))
                &&& entity_id == CEO_ENTITY_ID@ && e.skill_allowlist.len() == 0 ==> load_allowed_spec(
                    entity_id,
                    slug,
                    pool,
                )
                &&& entity_id == CEO_ENTITY_ID@ && e.skill_allowlist.len() > 0 ==> (load_allowed_spec(
                    entity_id,
                    slug,
                    pool,
                ) <==> e.skill_allowlist.contains(slug))
            }
        },
{
}

/// Law: once `ceo_skill_grant` has granted package `skill` to an entity of
/// the pool, `load_skill` lets that entity read it, and every package the
/// entity listed before it can still read. (A CEO that listed nothing could
/// read any package; after its first grant it reads the listed ones.)
pub proof fn law_grant_then_load(
    pool: Seq<crate::entity::EntityRuntimeView>,
    entity_id: Seq<char>,
    skill: Seq<char>,
    other: Seq<char>,
)
    requires
        find_by_id(pool, entity_id) is Some,
    ensures
        load_allowed_spec(entity_id, skill, Some(crate::entity::granted_pool(pool, entity_id, skill))),
        find_by_id(pool, entity_id)->Some_0.skill_allowlist.contains(other) ==> load_allowed_spec(
            entity_id,
            other,
            Some(crate::entity::granted_pool(pool, entity_id, skill)),
        ),
{
    crate::entity::law_grant_keeps_earlier_grants(pool, entity_id, skill, entity_id);
    let before_e = find_by_id(pool, entity_id)->Some_0;
    let after_e = find_by_id(crate::entity::granted_pool(pool, entity_id, skill), entity_id)->Some_0;
    if !before_e.skill_allowlist.contains(skill) {
        assert(after_e.skill_allowlist[before_e.skill_allowlist.len() as int] == skill);
    }
    if before_e.skill_allowlist.contains(other) && !before_e.skill_allowlist.contains(skill) {
        let j = choose|j: int| 0 <= j < before_e.skill_allowlist.len() && before_e.skill_allowlist[j] == other;
        assert(after_e.skill_allowlist[j] == other);
    }
}

} // verus!
