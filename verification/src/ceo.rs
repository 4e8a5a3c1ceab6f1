//! CEO-only tools of a multi-entity instance: instance_status,
//! create_entity, create_team, assign_task, ceo_skill_grant, plus the shared
//! skills store tools (import from ClawHub, remove).
//!
//! `create_entity` and `create_team` persist to the instance configuration
//! and create workspace directories; loading and saving the configuration,
//! and creating directories and files, are left to the caller. The decisions
//! of each step are here.

use vstd::prelude::*;
use crate::text::opt_str;
use vstd::string::*;
use crate::config::{Config, EntityConfig, EntityConfigView, InstanceConfig, InstanceConfigView, TeamConfig, TeamConfigView, entity_views, team_views};
use crate::entity::{
    ceo_enabled_spec, created_runtime, entity_dir_spec, entity_workspace_dir, find_by_id, ids,
    team_dir_spec, team_workspace_dir, EntityPool, EntityPoolError, EntityRuntimeView,
    CEO_ENTITY_ID,
};
use crate::entity_skills::{
    normalize_entity_tool_allowlist_for_entity, normalize_spec, elevated_role,
    role_pack_or_minimal, result_view, SkillListError,
};
use crate::paths::{join_path, path_join};
use crate::scaffold::{file_views, PersonaFile};
use crate::json::{Json, JsonValue};
use crate::schema::{
    described, described_field, members, new_members, object_schema, object_schema_value,
    push_member, str_views, string_list, string_list_field,
};
use crate::skill_pack::{AdminSkillRemoveTool, ClawhubImportGlobalTool, pool_view};
use crate::text::{
    concat3, concat5, copy_opt, copy_strings, decimal, has_sub, join, join_strings, opt_view,
    opt_views, push_str, str_contains, str_contains_char, str_eq, str_trim, strings_contain,
    to_owned_string, trim, u64_to_string, views,
};
use crate::tool_result::{fail_view, ok_view, ToolResult, ToolResultView};

verus! {

/// Team assigned to an entity created without one.
pub const DEFAULT_TEAM_ID: &'static str = "unassigned";

/// Lists the entities and teams of the instance (CEO only).
#[derive(Debug, Clone)]
pub struct InstanceStatusTool {
    config_path: Option<String>,
}

/// `entities: <ids joined by ", ">` (or `none`), then `teams: <ids>` on a
/// second line when the configuration lists teams.
pub open spec fn status_text(entity_ids: Seq<Seq<char>>, team_ids: Option<Seq<Seq<char>>>) -> Seq<char> {
    let first = "entities: "@ + if entity_ids.len() == 0 {
        "none"@
    } else {
        join(entity_ids, ", "@)
    };
    match team_ids {
        Some(t) => if t.len() > 0 {
            first + "\n"@ + "teams: "@ + join(t, ", "@)
        } else {
            first
        },
        None => first,
    }
}

/// The arguments of `instance_status`: none.
pub open spec fn instance_status_schema() -> Json {
    object_schema(Seq::empty(), Seq::empty())
}

impl InstanceStatusTool {
    /// The JSON Schema of the arguments.
    pub fn parameters_schema(&self) -> (r: JsonValue)
        ensures
            r@ == instance_status_schema(),
    {
        let p = new_members();
        let ghost props = members(p@);
        let required: [&str; 0] = [];
        let r = object_schema_value(p, &required);
        proof {
            assert(props =~= instance_status_schema()->Object_0[1].1->Object_0);
            assert(str_views(required@) =~= Seq::<Seq<char>>::empty());
        }
        r
    }

    pub fn new(config_path: Option<String>) -> (r: Self)
        ensures
            r.config_path_spec() == opt_view(config_path),
    {
        InstanceStatusTool { config_path }
    }

    pub closed spec fn config_path_spec(&self) -> Option<Seq<char>> {
        opt_view(self.config_path)
    }

    /// The configuration to read teams from, if any.
    pub fn config_path(&self) -> (r: Option<&String>)
        ensures
            match r {
                Some(p) => self.config_path_spec() == Some(p@),
                None => self.config_path_spec() is None,
            },
    {
        self.config_path.as_ref()
    }

    pub fn name(&self) -> (r: &'static str)
        ensures
            r@ == "instance_status"@,
    {
        "instance_status"
    }

    pub fn description(&self) -> (r: &'static str)
        ensures
            r@ == "List all entities and teams in this instance (CEO only). Use to see current members and teams before create_team/create_entity or assign_task."@,
    {
        "List all entities and teams in this instance (CEO only). Use to see current members and teams before create_team/create_entity or assign_task."
    }

    /// The status listing: the pool's entity ids and, when the configuration
    /// could be read, its team ids. Without a pool, multi-entity mode is off.
    pub fn execute(&self, pool: Option<&EntityPool>, team_ids: Option<Vec<String>>) -> (r: ToolResult)
        ensures
            match pool {
                None => r@ == fail_view("multi-entity mode not enabled (no instance config)"@),
                Some(p) => r@ == ok_view(status_text(ids(p@), opt_views(team_ids))),
            },
    {
        let pool = match pool {
            Some(p) => p,
            None => return ToolResult::fail(
                to_owned_string("multi-entity mode not enabled (no instance config)"),
            ),
        };
        let entity_ids = pool.list();
        let mut out = to_owned_string("entities: ");
        if entity_ids.len() == 0 {
            out.append("none");
        } else {
            let joined = join_strings(&entity_ids, ", ");
            out.append(joined.as_str());
        }
        if let Some(t) = &team_ids {
            if t.len() > 0 {
                out.append("\n");
                out.append("teams: ");
                let joined = join_strings(t, ", ");
                out.append(joined.as_str());
            }
        }
        ToolResult::ok(out)
    }
}

/// The arguments of `create_entity`.
#[derive(Debug, Clone)]
pub struct CreateEntityArgs {
    pub id: String,
    pub provider: Option<String>,
    pub model: Option<String>,
    pub team_id: Option<String>,
    pub role: Option<String>,
    pub tool_allowlist: Option<Vec<String>>,
    pub skill_allowlist: Option<Vec<String>>,
    pub identity_md: Option<String>,
    pub soul_md: Option<String>,
    pub agents_md: Option<String>,
}

/// Creates an entity (CEO only): persists it to `[[instance.entities]]`,
/// creates `workspace/entities/<id>/` and adds it to the pool.
#[derive(Debug, Clone)]
pub struct CreateEntityTool {
    agent_max: Option<u32>,
    config_path: String,
    workspace_dir: String,
}

/// The id check of `create_entity`: pool required, id trimmed, non-empty,
/// not the CEO id.
pub open spec fn entity_id_check(pool_present: bool, raw_id: Seq<char>) -> Result<Seq<char>, ToolResultView> {
    if !pool_present {
        Err(fail_view("multi-entity mode not enabled"@))
    } else if trim(raw_id).len() == 0 {
        Err(fail_view("entity id cannot be empty"@))
    } else if trim(raw_id) == CEO_ENTITY_ID@ {
        Err(fail_view("entity id 'ceo' is reserved"@))
    } else {
        Ok(trim(raw_id))
    }
}

/// Entities counted against `agent_max`: the configured ones, plus the CEO
/// when enabled.
pub open spec fn counted_entities(inst: InstanceConfigView) -> int {
    inst.entities.len() + if ceo_enabled_spec(inst) {
        1int
    } else {
        0int
    }
}

/// The team of a new entity: the given one unless blank, else `unassigned`.
pub open spec fn team_or_default(team_id: Option<Seq<char>>) -> Seq<char> {
    match team_id {
        Some(t) => if trim(t).len() > 0 {
            t
        } else {
            DEFAULT_TEAM_ID@
        },
        None => DEFAULT_TEAM_ID@,
    }
}

pub open spec fn id_exists_in(entities: Seq<EntityConfigView>, id: Seq<char>) -> bool {
    exists|i: int| 0 <= i < entities.len() && entities[i].id == id
}

/// The tool list a new entity gets: the given one, else its role pack.
pub open spec fn entity_tools_spec(tools: Option<Seq<Seq<char>>>, role: Option<Seq<char>>) -> Result<Seq<Seq<char>>, crate::entity_skills::SkillListErrorView> {
    normalize_spec(
        match tools {
            Some(v) => v,
            None => role_pack_or_minimal(role),
        },
        elevated_role(role),
    )
}

/// The arguments of `create_entity`: a required `id` and optional overrides, tool and skill lists and persona documents.
pub open spec fn create_entity_schema() -> Json {
    object_schema(
        seq![
            ("id"@, described("string"@, "Unique entity id"@)),
            ("provider"@, described("string"@, "Optional provider override"@)),
            ("model"@, described("string"@, "Optional model override"@)),
            ("team_id"@, described("string"@, "Optional team id"@)),
            ("role"@, described("string"@, "Optional role"@)),
            ("tool_allowlist"@, string_list(Some("Optional per-entity executable tool names. Call tool_inventory first; elevated_dev_only tools (e.g. shell) require a dev/engineering-like role."@))),
            ("skill_allowlist"@, string_list(Some("Optional skill package ids for load_skill."@))),
            ("identity_md"@, described("string"@, "Optional explicit IDENTITY.md content for the new entity"@)),
            ("soul_md"@, described("string"@, "Optional explicit SOUL.md content for the new entity"@)),
            ("agents_md"@, described("string"@, "Optional explicit AGENTS.md content for the new entity"@))
        ],
        seq!["id"@],
    )
}

impl CreateEntityTool {
    /// The JSON Schema of the arguments.
    pub fn parameters_schema(&self) -> (r: JsonValue)
        ensures
            r@ == create_entity_schema(),
    {
        let mut p = new_members();
        push_member(&mut p, "id", described_field("string", "Unique entity id"));
        push_member(&mut p, "provider", described_field("string", "Optional provider override"));
        push_member(&mut p, "model", described_field("string", "Optional model override"));
        push_member(&mut p, "team_id", described_field("string", "Optional team id"));
        push_member(&mut p, "role", described_field("string", "Optional role"));
        push_member(&mut p, "tool_allowlist", string_list_field(Some("Optional per-entity executable tool names. Call tool_inventory first; elevated_dev_only tools (e.g. shell) require a dev/engineering-like role.")));
        push_member(&mut p, "skill_allowlist", string_list_field(Some("Optional skill package ids for load_skill.")));
        push_member(&mut p, "identity_md", described_field("string", "Optional explicit IDENTITY.md content for the new entity"));
        push_member(&mut p, "soul_md", described_field("string", "Optional explicit SOUL.md content for the new entity"));
        push_member(&mut p, "agents_md", described_field("string", "Optional explicit AGENTS.md content for the new entity"));
        let ghost props = members(p@);
        let required: [&str; 1] = ["id"];
        let r = object_schema_value(p, &required);
        proof {
            assert(props =~= create_entity_schema()->Object_0[1].1->Object_0);
            assert(str_views(required@) =~= seq!["id"@]);
        }
        r
    }

    pub fn new(agent_max: Option<u32>, config_path: String, workspace_dir: String) -> (r: Self)
        ensures
            r.agent_max_spec() == agent_max,
            r.config_path_spec() == config_path@,
            r.workspace_spec() == workspace_dir@,
    {
        CreateEntityTool { agent_max, config_path, workspace_dir }
    }

    pub closed spec fn agent_max_spec(&self) -> Option<u32> {
        self.agent_max
    }

    pub closed spec fn config_path_spec(&self) -> Seq<char> {
        self.config_path@
    }

    pub closed spec fn workspace_spec(&self) -> Seq<char> {
        self.workspace_dir@
    }

    /// The configuration file to load and save.
    pub fn config_path(&self) -> (r: &str)
        ensures
            r@ == self.config_path_spec(),
    {
        self.config_path.as_str()
    }

    /// The instance workspace that holds the entities' directories.
    pub fn workspace_dir(&self) -> (r: &str)
        ensures
            r@ == self.workspace_spec(),
    {
        self.workspace_dir.as_str()
    }

    pub fn name(&self) -> (r: &'static str)
        ensures
            r@ == "create_entity"@,
    {
        "create_entity"
    }

    pub fn description(&self) -> (r: &'static str)
        ensures
            r@ == "Create a new entity in this instance (CEO only). Persists to config [[instance.entities]], creates workspace/entities/<id>/, and optionally writes identity_md/soul_md/agents_md directly in one call. Subject to agent_max limit."@,
    {
        "Create a new entity in this instance (CEO only). Persists to config [[instance.entities]], creates workspace/entities/<id>/, and optionally writes identity_md/soul_md/agents_md directly in one call. Subject to agent_max limit."
    }

    /// The id to create, or the refusal: no pool, an empty id, or `ceo`.
    pub fn check_id(&self, pool_present: bool, raw_id: &str) -> (r: Result<String, ToolResult>)
        ensures
            match entity_id_check(pool_present, raw_id@) {
                Ok(id) => r matches Ok(s) && s@ == id,
                Err(v) => r matches Err(t) && t@ == v,
            },
    {
        if !pool_present {
            return Err(ToolResult::fail(to_owned_string("multi-entity mode not enabled")));
        }
        let id = str_trim(raw_id);
        if id.is_empty() {
            return Err(ToolResult::fail(to_owned_string("entity id cannot be empty")));
        }
        if str_eq(id, CEO_ENTITY_ID) {
            return Err(ToolResult::fail(to_owned_string("entity id 'ceo' is reserved")));
        }
        Ok(id.to_owned())
    }

    /// Record entity `id` in the instance configuration: refused when the
    /// instance holds `agent_max` entities (CEO included) or more, when the id
    /// is configured already, or when its tool list is refused; otherwise the
    /// entity is appended with its team (default `unassigned`) and normalized
    /// tools, and returned.
    #[verifier::loop_isolation(false)]
    pub fn register(&self, id: &str, args: CreateEntityArgs, instance: &mut InstanceConfig) -> (r: Result<
        EntityConfig,
        ToolResult,
    >)
        requires
            old(instance).entities@.len() < u32::MAX,
        ensures
            ({
                let inst = old(instance)@;
                let limit: int = match self.agent_max_spec() {
                    Some(m) => m as int,
                    None => u32::MAX as int,
                };
                let tools = entity_tools_spec(opt_views(args.tool_allowlist), opt_view(args.role));
                if counted_entities(inst) >= limit {
                    &&& r matches Err(t)
                    &&& t@ == fail_view("entity limit reached (agent_max = "@ + decimal(limit as nat)
                        + "); cannot create entity '"@ + id@ + "'"@)
                    &&& final(instance)@ == inst
                } else if id_exists_in(inst.entities, id@) {
                    &&& r matches Err(t)
                    &&& t@ == fail_view("entity '"@ + id@ + "' already exists"@)
                    &&& final(instance)@ == inst
                } else if tools is Err {
                    &&& r matches Err(t)
                    &&& t@ == fail_view(crate::entity_skills::error_message(tools->Err_0))
                    &&& final(instance)@ == inst
                } else {
                    &&& r matches Ok(cfg)
                    &&& cfg@ == (EntityConfigView {
                        id: id@,
                        provider: opt_view(args.provider),
                        model: opt_view(args.model),
                        team_id: Some(team_or_default(opt_view(args.team_id))),
                        role: opt_view(args.role),
                        skills: Some(tools->Ok_0),
                        skill_allowlist: opt_views(args.skill_allowlist),
                    })
                    &&& final(instance)@ == InstanceConfigView {
                        entities: inst.entities.push(cfg@),
                        ..inst
                    }
                }
            }),
    {
        let limit: u32 = match self.agent_max {
            Some(m) => m,
            None => u32::MAX,
        };
        let n = instance.entities.len() as u32;
        let current_count: u32 = if crate::entity::EntityPool::ceo_enabled(instance) {
            n + 1
        } else {
            n
        };
        if current_count >= limit {
            let digits = u64_to_string(limit as u64);
            let m = concat5(
                "entity limit reached (agent_max = ",
                digits.as_str(),
                "); cannot create entity '",
                id,
                "'",
            );
            return Err(ToolResult::fail(m));
        }
        let mut i: usize = 0;
        while i < instance.entities.len()
            invariant
                i <= instance.entities@.len(),
                forall|k: int| 0 <= k < i ==> instance@.entities[k].id != id@,
            decreases instance.entities.len() - i,
        {
            if str_eq(instance.entities[i].id.as_str(), id) {
                assert(instance@.entities[i as int].id == id@);
                return Err(ToolResult::fail(concat3("entity '", id, "' already exists")));
            }
            i = i + 1;
        }
        let team_id = match &args.team_id {
            Some(t) => if !str_trim(t.as_str()).is_empty() {
                t.clone()
            } else {
                to_owned_string(DEFAULT_TEAM_ID)
            },
            None => to_owned_string(DEFAULT_TEAM_ID),
        };
        let role_ref: Option<&str> = match &args.role {
            Some(r) => Some(r.as_str()),
            None => None,
        };
        let tools = match normalize_entity_tool_allowlist_for_entity(args.tool_allowlist, role_ref) {
            Ok(v) => v,
            Err(e) => return Err(ToolResult::fail(e.message())),
        };
        let entity_config = EntityConfig {
            id: id.to_owned(),
            provider: args.provider,
            model: args.model,
            team_id: Some(team_id),
            role: args.role,
            skills: Some(tools),
            skill_allowlist: args.skill_allowlist,
        };
        let copy = entity_config.duplicate();
        let ghost before = instance.entities@;
        instance.entities.push(entity_config);
        assert(entity_views(instance.entities@) =~= entity_views(before).push(copy@));
        Ok(copy)
    }

    /// The workspace of entity `id`.
    pub fn entity_dir(&self, id: &str) -> (r: String)
        ensures
            r@ == entity_dir_spec(self.workspace_spec(), id@),
    {
        entity_workspace_dir(self.workspace_dir.as_str(), id)
    }

    /// The persona documents given inline, in the order IDENTITY.md, SOUL.md,
    /// AGENTS.md; they replace the scaffolded ones.
    pub fn persona_overrides(entity_dir: &str, args: &CreateEntityArgs) -> (r: Vec<PersonaFile>)
        ensures
            file_views(r@) == persona_override_spec(
                entity_dir@,
                opt_view(args.identity_md),
                opt_view(args.soul_md),
                opt_view(args.agents_md),
            ),
    {
        let mut files: Vec<PersonaFile> = Vec::new();
        let ghost f0 = file_views(files@);
        if let Some(md) = &args.identity_md {
            files.push(PersonaFile { path: join_path(entity_dir, "IDENTITY.md"), content: md.clone() });
        }
        let ghost f1 = file_views(files@);
        assert(f1 =~= opt_file(path_join(entity_dir@, "IDENTITY.md"@), opt_view(args.identity_md)));
        if let Some(md) = &args.soul_md {
            files.push(PersonaFile { path: join_path(entity_dir, "SOUL.md"), content: md.clone() });
        }
        let ghost f2 = file_views(files@);
        assert(f2 =~= f1 + opt_file(path_join(entity_dir@, "SOUL.md"@), opt_view(args.soul_md)));
        if let Some(md) = &args.agents_md {
            files.push(PersonaFile { path: join_path(entity_dir, "AGENTS.md"), content: md.clone() });
        }
        assert(file_views(files@) =~= f2 + opt_file(
            path_join(entity_dir@, "AGENTS.md"@),
            opt_view(args.agents_md),
        ));
        files
    }

    /// Add the configured entity to the pool: the answer names the entity and
    /// its workspace, or carries the pool's refusal.
    pub fn finish(&self, pool: &mut EntityPool, entity_config: EntityConfig, entity_dir: &str) -> (r:
        ToolResult)
        ensures
            ({
                let limit: u32 = match self.agent_max_spec() {
                    Some(m) => m,
                    None => u32::MAX,
                };
                if (old(pool)@.len() as u32) >= limit {
                    &&& r@ == fail_view(crate::entity::limit_message(limit, entity_config@.id))
                    &&& final(pool)@ == old(pool)@
                } else if ids(old(pool)@).contains(entity_config@.id) {
                    &&& r@ == fail_view(crate::entity::exists_message(entity_config@.id))
                    &&& final(pool)@ == old(pool)@
                } else {
                    &&& r@ == ok_view("entity '"@ + entity_config@.id
                        + "' created, persisted to config, workspace at "@ + entity_dir@ + "."@)
                    &&& final(pool)@ == old(pool)@.push(created_runtime(entity_config@))
                }
            }),
    {
        match pool.create_entity(entity_config, self.agent_max) {
            Ok(runtime) => ToolResult::ok(
                concat5(
                    "entity '",
                    runtime.id.as_str(),
                    "' created, persisted to config, workspace at ",
                    entity_dir,
                    ".",
                ),
            ),
            Err(e) => ToolResult::fail(e.message()),
        }
    }
}

/// A file entry when the document is given.
pub open spec fn opt_file(path: Seq<char>, content: Option<Seq<char>>) -> Seq<(Seq<char>, Seq<char>)> {
    match content {
        Some(c) => seq![(path, c)],
        None => Seq::empty(),
    }
}

/// The inline persona documents of `create_entity`.
pub open spec fn persona_override_spec(
    dir: Seq<char>,
    identity: Option<Seq<char>>,
    soul: Option<Seq<char>>,
    agents: Option<Seq<char>>,
) -> Seq<(Seq<char>, Seq<char>)> {
    opt_file(path_join(dir, "IDENTITY.md"@), identity) + opt_file(path_join(dir, "SOUL.md"@), soul)
        + opt_file(path_join(dir, "AGENTS.md"@), agents)
}

/// The state directories of an entity workspace, in order: `memory`,
/// `state`, `sessions`.
pub fn entity_subdirs(entity_dir: &str) -> (r: Vec<String>)
    ensures
        views(r@) == seq![
            path_join(entity_dir@, "memory"@),
            path_join(entity_dir@, "state"@),
            path_join(entity_dir@, "sessions"@),
        ],
{
    let mut r: Vec<String> = Vec::new();
    r.push(join_path(entity_dir, "memory"));
    r.push(join_path(entity_dir, "state"));
    r.push(join_path(entity_dir, "sessions"));
    assert(views(r@) =~= seq![
        path_join(entity_dir@, "memory"@),
        path_join(entity_dir@, "state"@),
        path_join(entity_dir@, "sessions"@),
    ]);
    r
}

/// Creates a team (CEO only): persists it to `[[instance.teams]]` and
/// creates `workspace/teams/<id>/`.
#[derive(Debug, Clone)]
pub struct CreateTeamTool {
    config_path: String,
    workspace_dir: String,
}

/// The id check of `create_team`: trimmed, non-empty, not the CEO id.
pub open spec fn team_id_check(raw_id: Seq<char>) -> Result<Seq<char>, ToolResultView> {
    if trim(raw_id).len() == 0 {
        Err(fail_view("team id cannot be empty"@))
    } else if trim(raw_id) == CEO_ENTITY_ID@ {
        Err(fail_view("team id 'ceo' is reserved"@))
    } else {
        Ok(trim(raw_id))
    }
}

pub open spec fn team_exists_in(teams: Seq<TeamConfigView>, id: Seq<char>) -> bool {
    exists|i: int| 0 <= i < teams.len() && teams[i].id == id
}

/// A team name is kept unless blank.
pub open spec fn name_unless_blank(name: Option<Seq<char>>) -> Option<Seq<char>> {
    match name {
        Some(n) => if trim(n).len() > 0 {
            Some(n)
        } else {
            None
        },
        None => None,
    }
}

/// The arguments of `create_team`: a required `id` and an optional `name`.
pub open spec fn create_team_schema() -> Json {
    object_schema(
        seq![
            ("id"@, described("string"@, "Team id"@)),
            ("name"@, described("string"@, "Optional display name"@)),
        ],
        seq!["id"@],
    )
}

impl CreateTeamTool {
    /// The JSON Schema of the arguments.
    pub fn parameters_schema(&self) -> (r: JsonValue)
        ensures
            r@ == create_team_schema(),
    {
        let mut p = new_members();
        push_member(&mut p, "id", described_field("string", "Team id"));
        push_member(&mut p, "name", described_field("string", "Optional display name"));
        let ghost props = members(p@);
        let required: [&str; 1] = ["id"];
        let r = object_schema_value(p, &required);
        proof {
            assert(props =~= create_team_schema()->Object_0[1].1->Object_0);
            assert(str_views(required@) =~= seq!["id"@]);
        }
        r
    }

    pub fn new(config_path: String, workspace_dir: String) -> (r: Self)
        ensures
            r.config_path_spec() == config_path@,
            r.workspace_spec() == workspace_dir@,
    {
        CreateTeamTool { config_path, workspace_dir }
    }

    pub closed spec fn config_path_spec(&self) -> Seq<char> {
        self.config_path@
    }

    pub closed spec fn workspace_spec(&self) -> Seq<char> {
        self.workspace_dir@
    }

    /// The configuration file to load and save.
    pub fn config_path(&self) -> (r: &str)
        ensures
            r@ == self.config_path_spec(),
    {
        self.config_path.as_str()
    }

    pub fn name(&self) -> (r: &'static str)
        ensures
            r@ == "create_team"@,
    {
        "create_team"
    }

    pub fn description(&self) -> (r: &'static str)
        ensures
            r@ == "Create a team in this instance (CEO only). Persists to config [instance.teams] and creates workspace/teams/<id>/."@,
    {
        "Create a team in this instance (CEO only). Persists to config [instance.teams] and creates workspace/teams/<id>/."
    }

    /// The team id to create, or the refusal.
    pub fn check_id(raw_id: &str) -> (r: Result<String, ToolResult>)
        ensures
            match team_id_check(raw_id@) {
                Ok(id) => r matches Ok(s) && s@ == id,
                Err(v) => r matches Err(t) && t@ == v,
            },
    {
        let id = str_trim(raw_id);
        if id.is_empty() {
            return Err(ToolResult::fail(to_owned_string("team id cannot be empty")));
        }
        if str_eq(id, CEO_ENTITY_ID) {
            return Err(ToolResult::fail(to_owned_string("team id 'ceo' is reserved")));
        }
        Ok(id.to_owned())
    }

    /// Record team `id` in the instance configuration; refused when the id
    /// is configured already.
    pub fn register(id: &str, name: Option<String>, instance: &mut InstanceConfig) -> (r: Result<
        (),
        ToolResult,
    >)
        ensures
            team_exists_in(old(instance)@.teams, id@) ==> (r matches Err(t) && t@ == fail_view(
                "team '"@ + id@ + "' already exists"@,
            ) && final(instance)@ == old(instance)@),
            !team_exists_in(old(instance)@.teams, id@) ==> (r is Ok && final(instance)@
                == InstanceConfigView {
                teams: old(instance)@.teams.push(
                    TeamConfigView { id: id@, name: name_unless_blank(opt_view(name)) },
                ),
                ..old(instance)@
            }),
    {
        let mut i: usize = 0;
        while i < instance.teams.len()
            invariant
                i <= instance.teams@.len(),
                forall|k: int| 0 <= k < i ==> instance@.teams[k].id != id@,
            decreases instance.teams.len() - i,
        {
            if str_eq(instance.teams[i].id.as_str(), id) {
                assert(instance@.teams[i as int].id == id@);
                return Err(ToolResult::fail(concat3("team '", id, "' already exists")));
            }
            i = i + 1;
        }
        let name = match name {
            Some(n) => if !str_trim(n.as_str()).is_empty() {
                Some(n)
            } else {
                None
            },
            None => None,
        };
        let team = TeamConfig { id: id.to_owned(), name };
        let ghost tv = team@;
        let ghost before = instance.teams@;
        instance.teams.push(team);
        assert(team_views(instance.teams@) =~= team_views(before).push(tv));
        Ok(())
    }

    /// The workspace of team `id`.
    pub fn team_dir(&self, id: &str) -> (r: String)
        ensures
            r@ == team_dir_spec(self.workspace_spec(), id@),
    {
        team_workspace_dir(self.workspace_dir.as_str(), id)
    }

    /// The answer once the team is persisted and its workspace exists.
    pub fn created(id: &str, team_dir: &str) -> (r: ToolResult)
        ensures
            r@ == ok_view("team '"@ + id@ + "' created and persisted to config; workspace at "@
                + team_dir@),
    {
        let mut m = concat3("team '", id, "' created and persisted to config; workspace at ");
        m.append(team_dir);
        ToolResult::ok(m)
    }
}

/// Assigns a task to an entity (CEO only); delivery is not implemented yet.
#[derive(Debug, Clone)]
pub struct AssignTaskTool;

/// The answer of `assign_task`.
pub const ASSIGN_TASK_PENDING: &'static str = "assign_task: task delivery will be implemented with MessageBus in phase 3.";

/// The arguments of `assign_task`: the target entity and the task.
pub open spec fn assign_task_schema() -> Json {
    object_schema(
        seq![
            ("entity_id"@, described("string"@, "Target entity id"@)),
            ("task"@, described("string"@, "Task description or message"@))
        ],
        seq!["entity_id"@, "task"@],
    )
}

impl AssignTaskTool {
    /// The JSON Schema of the arguments.
    pub fn parameters_schema(&self) -> (r: JsonValue)
        ensures
            r@ == assign_task_schema(),
    {
        let mut p = new_members();
        push_member(&mut p, "entity_id", described_field("string", "Target entity id"));
        push_member(&mut p, "task", described_field("string", "Task description or message"));
        let ghost props = members(p@);
        let required: [&str; 2] = ["entity_id", "task"];
        let r = object_schema_value(p, &required);
        proof {
            assert(props =~= assign_task_schema()->Object_0[1].1->Object_0);
            assert(str_views(required@) =~= seq!["entity_id"@, "task"@]);
        }
        r
    }

    pub fn new() -> (r: Self) {
        AssignTaskTool
    }

    pub fn name(&self) -> (r: &'static str)
        ensures
            r@ == "assign_task"@,
    {
        "assign_task"
    }

    pub fn description(&self) -> (r: &'static str)
        ensures
            r@ == "Assign a task to an entity (CEO only). Phase 2: task delivery will be implemented with MessageBus in phase 3."@,
    {
        "Assign a task to an entity (CEO only). Phase 2: task delivery will be implemented with MessageBus in phase 3."
    }

    /// Acknowledges the call; task delivery is not implemented yet.
    pub fn execute(&self) -> (r: ToolResult)
        ensures
            r@ == ok_view(ASSIGN_TASK_PENDING@),
    {
        ToolResult::ok(to_owned_string(ASSIGN_TASK_PENDING))
    }
}

/// Grants a skill package id to an entity's skill allowlist (CEO only),
/// in the configuration and in the pool.
#[derive(Debug, Clone)]
pub struct CeoSkillGrantTool {
    config_path: String,
}

/// The argument check of `ceo_skill_grant`.
pub open spec fn grant_check(
    pool: Option<Seq<EntityRuntimeView>>,
    entity_id: Seq<char>,
    skill_id: Seq<char>,
) -> Result<(Seq<char>, Seq<char>), ToolResultView> {
    let e = trim(entity_id);
    let s = trim(skill_id);
    match pool {
        None => Err(fail_view("multi-entity mode not enabled"@)),
        Some(p) => if e.len() == 0 || s.len() == 0 {
            Err(fail_view("entity_id and skill_id are required"@))
        } else if has_sub(s, ".."@) || s.contains('/') || s.contains('\\') {
            Err(fail_view("skill_id must be a single package id (no path separators)"@))
        } else if find_by_id(p, e) is None {
            Err(fail_view("unknown entity '"@ + e + "'"@))
        } else {
            Ok((e, s))
        },
    }
}

/// Why the configuration could not take the grant.
#[derive(Debug, Clone, PartialEq, Eq)]
pub enum GrantConfigError {
    /// The configuration has no `[instance]`.
    InstanceMissing,
    /// No configured entity has the id.
    EntityMissing,
}

impl GrantConfigError {
    /// The error text.
    pub fn message(&self) -> (r: &'static str)
        ensures
            r@ == match self {
                GrantConfigError::InstanceMissing => "instance config missing"@,
                GrantConfigError::EntityMissing => "entity not found in config"@,
            },
    {
        match self {
            GrantConfigError::InstanceMissing => "instance config missing",
            GrantConfigError::EntityMissing => "entity not found in config",
        }
    }
}

/// The position of the first configured entity with id `id`.
pub open spec fn config_index(s: Seq<EntityConfigView>, id: Seq<char>) -> Option<int>
    decreases s.len(),
{
    if s.len() == 0 {
        None
    } else if s[0].id == id {
        Some(0)
    } else {
        match config_index(s.drop_first(), id) {
            Some(k) => Some(k + 1),
            None => None,
        }
    }
}

proof fn lemma_config_index_first(s: Seq<EntityConfigView>, id: Seq<char>, k: int)
    requires
        0 <= k < s.len(),
        s[k].id == id,
        forall|j: int| 0 <= j < k ==> s[j].id != id,
    ensures
        config_index(s, id) == Some(k),
    decreases s.len(),
{
    if k > 0 {
        assert forall|j: int| 0 <= j < k - 1 implies s.drop_first()[j].id != id by {
            assert(s.drop_first()[j] == s[j + 1]);
        }
        lemma_config_index_first(s.drop_first(), id, k - 1);
    }
}

proof fn lemma_config_index_none(s: Seq<EntityConfigView>, id: Seq<char>)
    requires
        forall|j: int| 0 <= j < s.len() ==> s[j].id != id,
    ensures
        config_index(s, id) is None,
    decreases s.len(),
{
    if s.len() > 0 {
        assert forall|j: int| 0 <= j < s.len() - 1 implies s.drop_first()[j].id != id by {
            assert(s.drop_first()[j] == s[j + 1]);
        }
        lemma_config_index_none(s.drop_first(), id);
    }
}

/// `list` with `x` appended unless it holds it already.
pub open spec fn add_once(list: Seq<Seq<char>>, x: Seq<char>) -> Seq<Seq<char>> {
    if list.contains(x) {
        list
    } else {
        list.push(x)
    }
}

/// The arguments of `ceo_skill_grant`: the entity and the skill package.
pub open spec fn ceo_skill_grant_schema() -> Json {
    object_schema(
        seq![
            ("entity_id"@, described("string"@, "Target entity id (not reserved id misuse)"@)),
            ("skill_id"@, described("string"@, "Skill package id / slug (single path segment)"@))
        ],
        seq!["entity_id"@, "skill_id"@],
    )
}

impl CeoSkillGrantTool {
    /// The JSON Schema of the arguments.
    pub fn parameters_schema(&self) -> (r: JsonValue)
        ensures
            r@ == ceo_skill_grant_schema(),
    {
        let mut p = new_members();
        push_member(&mut p, "entity_id", described_field("string", "Target entity id (not reserved id misuse)"));
        push_member(&mut p, "skill_id", described_field("string", "Skill package id / slug (single path segment)"));
        let ghost props = members(p@);
        let required: [&str; 2] = ["entity_id", "skill_id"];
        let r = object_schema_value(p, &required);
        proof {
            assert(props =~= ceo_skill_grant_schema()->Object_0[1].1->Object_0);
            assert(str_views(required@) =~= seq!["entity_id"@, "skill_id"@]);
        }
        r
    }

    pub fn new(config_path: String) -> (r: Self)
        ensures
            r.config_path_spec() == config_path@,
    {
        CeoSkillGrantTool { config_path }
    }

    pub closed spec fn config_path_spec(&self) -> Seq<char> {
        self.config_path@
    }

    /// The configuration file to load and save.
    pub fn config_path(&self) -> (r: &str)
        ensures
            r@ == self.config_path_spec(),
    {
        self.config_path.as_str()
    }

    pub fn name(&self) -> (r: &'static str)
        ensures
            r@ == "ceo_skill_grant"@,
    {
        "ceo_skill_grant"
    }

    pub fn description(&self) -> (r: &'static str)
        ensures
            r@ == "Grant a skill package id (directory name) to an entity's skill_allowlist so load_skill can read it. CEO only; persists to [[instance.entities]]."@,
    {
        "Grant a skill package id (directory name) to an entity's skill_allowlist so load_skill can read it. CEO only; persists to [[instance.entities]]."
    }

    /// The trimmed entity and skill ids, or the refusal.
    pub fn check(pool: Option<&EntityPool>, entity_id: &str, skill_id: &str) -> (r: Result<
        (String, String),
        ToolResult,
    >)
        ensures
            match grant_check(pool_view(pool), entity_id@, skill_id@) {
                Ok(p) => r matches Ok(q) && q.0@ == p.0 && q.1@ == p.1,
                Err(v) => r matches Err(t) && t@ == v,
            },
    {
        let pool = match pool {
            Some(p) => p,
            None => return Err(ToolResult::fail(to_owned_string("multi-entity mode not enabled"))),
        };
        let e = str_trim(entity_id);
        let s = str_trim(skill_id);
        if e.is_empty() || s.is_empty() {
            return Err(ToolResult::fail(to_owned_string("entity_id and skill_id are required")));
        }
        if str_contains(s, "..") || str_contains_char(s, '/') || str_contains_char(s, '\\') {
            return Err(
                ToolResult::fail(
                    to_owned_string("skill_id must be a single package id (no path separators)"),
                ),
            );
        }
        if pool.get(e).is_none() {
            return Err(ToolResult::fail(concat3("unknown entity '", e, "'")));
        }
        Ok((e.to_owned(), s.to_owned()))
    }

    /// Add the skill to the first configured entity with the id, once.
    #[verifier::loop_isolation(false)]
    pub fn grant_in_config(instance: &mut Option<InstanceConfig>, entity_id: &str, skill_id: &str) -> (r:
        Result<(), GrantConfigError>)
        ensures
            match *old(instance) {
                None => r == Err::<(), GrantConfigError>(GrantConfigError::InstanceMissing)
                    && *final(instance) is None,
                Some(inst) => match config_index(inst@.entities, entity_id@) {
                    None => r == Err::<(), GrantConfigError>(GrantConfigError::EntityMissing)
                        && (*final(instance) matches Some(f) && f@ == inst@),
                    Some(k) => r is Ok && (*final(instance) matches Some(f) && f@ == InstanceConfigView {
                        entities: inst@.entities.update(
                            k,
                            EntityConfigView {
                                skill_allowlist: Some(
                                    add_once(
                                        match inst@.entities[k].skill_allowlist {
                                            Some(l) => l,
                                            None => Seq::empty(),
                                        },
                                        skill_id@,
                                    ),
                                ),
                                ..inst@.entities[k]
                            },
                        ),
                        ..inst@
                    }),
                },
            },
    {
        let mut inst = match instance.take() {
            Some(i) => i,
            None => return Err(GrantConfigError::InstanceMissing),
        };
        let ghost orig = inst@;
        let mut i: usize = 0;
        while i < inst.entities.len()
            invariant
                inst@ == orig,
                i <= inst.entities@.len(),
                forall|k: int| 0 <= k < i ==> inst@.entities[k].id != entity_id@,
            decreases inst.entities.len() - i,
        {
            if str_eq(inst.entities[i].id.as_str(), entity_id) {
                proof {
                    lemma_config_index_first(inst@.entities, entity_id@, i as int);
                }
                let mut cfg = inst.entities[i].duplicate();
                let mut list = match cfg.skill_allowlist {
                    Some(l) => l,
                    None => Vec::new(),
                };
                let ghost start = views(list@);
                assert(start =~= match inst@.entities[i as int].skill_allowlist {
                    Some(l) => l,
                    None => Seq::<Seq<char>>::empty(),
                });
                if !strings_contain(&list, skill_id) {
                    push_str(&mut list, skill_id);
                }
                cfg.skill_allowlist = Some(list);
                let ghost before = inst.entities@;
                let ghost cv = cfg@;
                inst.entities.set(i, cfg);
                assert(entity_views(inst.entities@) =~= entity_views(before).update(i as int, cv));
                *instance = Some(inst);
                return Ok(());
            }
            i = i + 1;
        }
        proof {
            lemma_config_index_none(inst@.entities, entity_id@);
        }
        *instance = Some(inst);
        Err(GrantConfigError::EntityMissing)
    }

    /// Grant the skill in the pool: the answer confirms it, or carries the
    /// pool's refusal.
    pub fn finish(pool: &mut EntityPool, entity_id: &str, skill_id: &str) -> (r: ToolResult)
        ensures
            find_by_id(old(pool)@, entity_id@) is Some ==> r@ == ok_view(
                "Granted skill '"@ + skill_id@ + "' to entity '"@ + entity_id@
                    + "' (skill_allowlist updated)."@,
            ) && final(pool)@ == crate::entity::granted_pool(old(pool)@, entity_id@, skill_id@),
            find_by_id(old(pool)@, entity_id@) is None ==> r@ == fail_view(
                crate::entity::unknown_message(entity_id@),
            ) && final(pool)@ == old(pool)@,
    {
        let mut skills: Vec<String> = Vec::new();
        skills.push(skill_id.to_owned());
        assert(views(skills@) =~= seq![skill_id@]);
        proof {
            crate::entity::lemma_find_index_agree(old(pool)@, entity_id@);
        }
        match pool.merge_skill_allowlist(entity_id, &skills) {
            Ok(()) => {
                ToolResult::ok(
                    concat5(
                        "Granted skill '",
                        skill_id,
                        "' to entity '",
                        entity_id,
                        "' (skill_allowlist updated).",
                    ),
                )
            },
            Err(e) => ToolResult::fail(e.message()),
        }
    }
}

/// One of the CEO tools.
#[derive(Debug, Clone)]
pub enum CeoTool {
    InstanceStatus(InstanceStatusTool),
    CreateEntity(CreateEntityTool),
    CreateTeam(CreateTeamTool),
    AssignTask(AssignTaskTool),
    CeoSkillGrant(CeoSkillGrantTool),
    ClawhubImportGlobal(ClawhubImportGlobalTool),
    AdminSkillRemove(AdminSkillRemoveTool),
}

impl CeoTool {
    pub open spec fn name_spec(&self) -> Seq<char> {
        match self {
            CeoTool::InstanceStatus(_) => "instance_status"@,
            CeoTool::CreateEntity(_) => "create_entity"@,
            CeoTool::CreateTeam(_) => "create_team"@,
            CeoTool::AssignTask(_) => "assign_task"@,
            CeoTool::CeoSkillGrant(_) => "ceo_skill_grant"@,
            CeoTool::ClawhubImportGlobal(_) => "clawhub_import_global"@,
            CeoTool::AdminSkillRemove(_) => "admin_skill_remove"@,
        }
    }

    /// The tool name.
    pub fn name(&self) -> (r: &'static str)
        ensures
            r@ == self.name_spec(),
    {
        match self {
            CeoTool::InstanceStatus(_) => "instance_status",
            CeoTool::CreateEntity(_) => "create_entity",
            CeoTool::CreateTeam(_) => "create_team",
            CeoTool::AssignTask(_) => "assign_task",
            CeoTool::CeoSkillGrant(_) => "ceo_skill_grant",
            CeoTool::ClawhubImportGlobal(_) => "clawhub_import_global",
            CeoTool::AdminSkillRemove(_) => "admin_skill_remove",
        }
    }
}

/// The CEO tool set, in order: instance_status, create_entity, create_team,
/// assign_task, ceo_skill_grant, clawhub_import_global, admin_skill_remove.
/// The configuration path and workspace are those of the instance.
pub fn ceo_tools(agent_max: Option<u32>, config_path: String, workspace_dir: String, config: Config) -> (r:
    Vec<CeoTool>)
    ensures
        r@.len() == 7,
        r@[0] matches CeoTool::InstanceStatus(t) && t.config_path_spec() == Some(config_path@),
        r@[1] matches CeoTool::CreateEntity(t) && t.agent_max_spec() == agent_max
            && t.config_path_spec() == config_path@ && t.workspace_spec() == workspace_dir@,
        r@[2] matches CeoTool::CreateTeam(t) && t.config_path_spec() == config_path@
            && t.workspace_spec() == workspace_dir@,
        r@[3] is AssignTask,
        r@[4] matches CeoTool::CeoSkillGrant(t) && t.config_path_spec() == config_path@,
        r@[5] matches CeoTool::ClawhubImportGlobal(t) && t.clawhub_spec() == config.skills.clawhub,
        r@[6] matches CeoTool::AdminSkillRemove(t) && t.clawhub_spec() == config.skills.clawhub,
{
    let mut r: Vec<CeoTool> = Vec::new();
    r.push(CeoTool::InstanceStatus(InstanceStatusTool::new(Some(config_path.clone()))));
    r.push(
        CeoTool::CreateEntity(
            CreateEntityTool::new(agent_max, config_path.clone(), workspace_dir.clone()),
        ),
    );
    r.push(CeoTool::CreateTeam(CreateTeamTool::new(config_path.clone(), workspace_dir)));
    r.push(CeoTool::AssignTask(AssignTaskTool::new()));
    r.push(CeoTool::CeoSkillGrant(CeoSkillGrantTool::new(config_path)));
    r.push(CeoTool::ClawhubImportGlobal(ClawhubImportGlobalTool::new(config.skills_only())));
    r.push(CeoTool::AdminSkillRemove(AdminSkillRemoveTool::new(config)));
    r
}

/// Law: the id checks of `create_entity` and `create_team` refuse an id that
/// is blank after trimming or is the CEO's, and otherwise give the trimmed
/// id; `create_entity` also refuses without an entity pool.
pub proof fn law_id_checks(pool_present: bool, raw_id: Seq<char>)
    ensures
        !pool_present ==> entity_id_check(pool_present, raw_id) is Err,
        trim(raw_id).len() == 0 ==> entity_id_check(pool_present, raw_id) is Err && team_id_check(
            raw_id,
        ) is Err,
        trim(raw_id) == CEO_ENTITY_ID@ ==> entity_id_check(pool_present, raw_id) is Err
            && team_id_check(raw_id) is Err,
        pool_present && trim(raw_id).len() > 0 && trim(raw_id) != CEO_ENTITY_ID@ ==> entity_id_check(
            pool_present,
            raw_id,
        ) == Ok::<Seq<char>, ToolResultView>(trim(raw_id)),
        trim(raw_id).len() > 0 && trim(raw_id) != CEO_ENTITY_ID@ ==> team_id_check(raw_id) == Ok::<
            Seq<char>,
            ToolResultView,
        >(trim(raw_id)),
{
}

/// Law: a new entity's team is the given one unless it is absent or blank,
/// when it is `unassigned`; a team name is kept unless blank; and the CEO,
/// when enabled, counts as one entity against `agent_max`.
pub proof fn law_entity_defaults(team_id: Option<Seq<char>>, name: Option<Seq<char>>, inst: InstanceConfigView)
    ensures
        team_id matches Some(t) ==> (trim(t).len() > 0 ==> team_or_default(team_id) == t),
        !(team_id matches Some(t) && trim(t).len() > 0) ==> team_or_default(team_id) == "unassigned"@,
        name matches Some(n) ==> (trim(n).len() > 0 ==> name_unless_blank(name) == Some(n)),
        !(name matches Some(n) && trim(n).len() > 0) ==> name_unless_blank(name) is None,
        ceo_enabled_spec(inst) ==> counted_entities(inst) == inst.entities.len() + 1,
        !ceo_enabled_spec(inst) ==> counted_entities(inst) == inst.entities.len(),
        inst.ceo matches Some(e) && e == Some(false) <==> !ceo_enabled_spec(inst),
{
    reveal_strlit("unassigned");
    assert(DEFAULT_TEAM_ID@ == "unassigned"@);
}

/// Law: granting a skill package in the config adds it at the end exactly
/// when the entity lacks it, so a second grant of the same package changes
/// nothing and earlier grants are kept in order.
pub proof fn law_add_once(list: Seq<Seq<char>>, x: Seq<char>)
    ensures
        add_once(list, x).contains(x),
        list.contains(x) ==> add_once(list, x) == list,
        !list.contains(x) ==> add_once(list, x) == list.push(x),
        add_once(add_once(list, x), x) == add_once(list, x),
        list.no_duplicates() ==> add_once(list, x).no_duplicates(),
{
    let r = add_once(list, x);
    if !list.contains(x) {
        assert(r[list.len() as int] == x);
        assert(r.contains(x));
        if list.no_duplicates() {
            assert forall|i: int, j: int| 0 <= i < r.len() && 0 <= j < r.len() && i != j implies r[i]
                != r[j] by {
                if i == list.len() as int {
                    assert(list[j] == r[j]);
                } else if j == list.len() as int {
                    assert(list[i] == r[i]);
                }
            }
        }
    }
}

} // verus!
