//! Admin tool `create_company`: a draft / confirm / apply workflow for
//! creating a cluster instance (company) with its CEO and entity personas.
//!
//! Reading and writing the draft file, creating the instance and writing
//! persona files are left to the caller; the rules of each step are here.

use vstd::prelude::*;
use crate::text::opt_str;
use vstd::string::*;
use crate::config::{
    CeoConfig, EntityConfig, EntityConfigView, InstanceConfig, InstanceConfigView, entity_views,
};
use crate::entity::{entity_dir_spec, entity_workspace_dir, CEO_ENTITY_ID};
use crate::instance_manager::{
    is_admin_instance, admin_config_path, admin_config_path_with, ADMIN_INSTANCE_ID,
};
use crate::instance_registry::{
    entry_views, index_of, InstanceConstraints, InstanceEntryView, InstanceRegistry,
};
use crate::paths::{join_path, parent_path, path_join, path_parent};
use crate::text::{
    concat3, concat5, copy_opt, copy_opt_strings, decimal, eq_ignore_ascii_case, has_sub, lower,
    opt_view, opt_views, str_contains, str_contains_char, str_eq, str_trim, to_owned_string, trim,
    u64_to_string, views,
};
use crate::tool_result::{fail_view, ok_view, ToolResult, ToolResultView};
use crate::json::{json_str, Json, JsonValue};
use crate::schema::{
    described, described_field, members, new_members, object, object_schema, object_schema_value,
    push_member, str_views, string_array, string_list, string_list_field, strs, typed, typed_field,
};

verus! {

/// The three steps of the workflow.
#[derive(Debug, Clone, Copy, PartialEq, Eq, Structural)]
pub enum CreateCompanyAction {
    Draft,
    Confirm,
    Apply,
}

/// One entity of a company draft.
#[derive(Debug, Clone)]
pub struct EntityDraft {
    pub id: String,
    pub role: Option<String>,
    pub team_id: Option<String>,
    pub provider: Option<String>,
    pub model: Option<String>,
    pub skills: Option<Vec<String>>,
    pub identity_md: Option<String>,
    pub soul_md: Option<String>,
    pub agents_md: Option<String>,
}

pub struct EntityDraftView {
    pub id: Seq<char>,
    pub role: Option<Seq<char>>,
    pub team_id: Option<Seq<char>>,
    pub provider: Option<Seq<char>>,
    pub model: Option<Seq<char>>,
    pub skills: Option<Seq<Seq<char>>>,
    pub identity_md: Option<Seq<char>>,
    pub soul_md: Option<Seq<char>>,
    pub agents_md: Option<Seq<char>>,
}

impl View for EntityDraft {
    type V = EntityDraftView;

    open spec fn view(&self) -> EntityDraftView {
        EntityDraftView {
            id: self.id@,
            role: opt_view(self.role),
            team_id: opt_view(self.team_id),
            provider: opt_view(self.provider),
            model: opt_view(self.model),
            skills: opt_views(self.skills),
            identity_md: opt_view(self.identity_md),
            soul_md: opt_view(self.soul_md),
            agents_md: opt_view(self.agents_md),
        }
    }
}

pub open spec fn draft_views(v: Seq<EntityDraft>) -> Seq<EntityDraftView> {
    Seq::new(v.len(), |i: int| v[i]@)
}

impl EntityDraft {
    /// A draft entity with only an id and a role.
    pub fn with_role(id: &str, role: &str) -> (r: Self)
        ensures
            r@ == bare_draft(id@, role@),
    {
        EntityDraft {
            id: id.to_owned(),
            role: Some(role.to_owned()),
            team_id: None,
            provider: None,
            model: None,
            skills: None,
            identity_md: None,
            soul_md: None,
            agents_md: None,
        }
    }

    /// A copy with the same view.
    pub fn duplicate(&self) -> (r: Self)
        ensures
            r@ == self@,
    {
        EntityDraft {
            id: self.id.clone(),
            role: copy_opt(&self.role),
            team_id: copy_opt(&self.team_id),
            provider: copy_opt(&self.provider),
            model: copy_opt(&self.model),
            skills: copy_opt_strings(&self.skills),
            identity_md: copy_opt(&self.identity_md),
            soul_md: copy_opt(&self.soul_md),
            agents_md: copy_opt(&self.agents_md),
        }
    }
}

/// A draft entity with only an id and a role.
pub open spec fn bare_draft(id: Seq<char>, role: Seq<char>) -> EntityDraftView {
    EntityDraftView {
        id,
        role: Some(role),
        team_id: None,
        provider: None,
        model: None,
        skills: None,
        identity_md: None,
        soul_md: None,
        agents_md: None,
    }
}

/// The default entities of a preset: for `startup` (any ASCII case)
/// operations, growth and design, plus content planning when the business
/// domain mentions new media or content; none otherwise.
pub open spec fn default_entities_spec(preset: Option<Seq<char>>, domain: Option<Seq<char>>) -> Seq<EntityDraftView> {
    let p = lower(match preset {
        Some(x) => x,
        None => Seq::empty(),
    });
    let d = match domain {
        Some(x) => x,
        None => Seq::empty(),
    };
    if p == "startup"@ {
        let base = seq![
            bare_draft("ops"@, "运营"@),
            bare_draft("growth"@, "增长"@),
            bare_draft("design"@, "设计"@),
        ];
        if has_sub(d, "新媒体"@) || has_sub(d, "内容"@) {
            base.push(bare_draft("content"@, "内容策划"@))
        } else {
            base
        }
    } else {
        Seq::empty()
    }
}

/// Default entities when a draft lists none.
pub fn default_entities_for(preset: Option<&str>, business_domain: Option<&str>) -> (r: Vec<EntityDraft>)
    ensures
        draft_views(r@) == default_entities_spec(opt_str(preset), opt_str(business_domain)),
{
    let p = match preset {
        Some(x) => x,
        None => "",
    };
    let domain = match business_domain {
        Some(x) => x,
        None => "",
    };
    proof {
        reveal_strlit("");
    }
    let lowered = crate::text::lower_vec(&crate::text::chars_of(p));
    let startup = crate::text::chars_of("startup");
    assert(p@ == (match opt_str(preset) { Some(x) => x, None => Seq::<char>::empty() }));
    assert(domain@ == (match opt_str(business_domain) { Some(x) => x, None => Seq::<char>::empty() }));
    if crate::text::seq_eq(&lowered, &startup) {
        let mut base: Vec<EntityDraft> = Vec::new();
        base.push(EntityDraft::with_role("ops", "运营"));
        base.push(EntityDraft::with_role("growth", "增长"));
        base.push(EntityDraft::with_role("design", "设计"));
        let ghost three = draft_views(base@);
        assert(three =~= seq![
            bare_draft("ops"@, "运营"@),
            bare_draft("growth"@, "增长"@),
            bare_draft("design"@, "设计"@),
        ]);
        if str_contains(domain, "新媒体") || str_contains(domain, "内容") {
            base.push(EntityDraft::with_role("content", "内容策划"));
            assert(draft_views(base@) =~= three.push(bare_draft("content"@, "内容策划"@)));
        }
        assert(three =~= seq![
            bare_draft("ops"@, "运营"@),
            bare_draft("growth"@, "增长"@),
            bare_draft("design"@, "设计"@),
        ]);
        return base;
    }
    let r: Vec<EntityDraft> = Vec::new();
    assert(draft_views(r@) =~= Seq::<EntityDraftView>::empty());
    r
}

/// The arguments of `create_company`.
#[derive(Debug, Clone)]
pub struct CreateCompanyArgs {
    pub action: CreateCompanyAction,
    pub company_id: String,
    pub preset: Option<String>,
    pub business_domain: Option<String>,
    pub agent_max: Option<u32>,
    pub instance_identity_md: Option<String>,
    pub instance_soul_md: Option<String>,
    pub instance_agents_md: Option<String>,
    pub ceo_identity_md: Option<String>,
    pub ceo_soul_md: Option<String>,
    pub ceo_agents_md: Option<String>,
    pub entities: Vec<EntityDraft>,
}

/// The draft file of a company, kept under the admin workspace.
#[derive(Debug, Clone)]
pub struct CompanyDraftFile {
    pub version: u32,
    pub company_id: String,
    pub preset: Option<String>,
    pub business_domain: Option<String>,
    pub agent_max: Option<u32>,
    pub instance_identity_md: Option<String>,
    pub instance_soul_md: Option<String>,
    pub instance_agents_md: Option<String>,
    pub ceo_identity_md: Option<String>,
    pub ceo_soul_md: Option<String>,
    pub ceo_agents_md: Option<String>,
    pub entities: Vec<EntityDraft>,
    pub confirmed: bool,
    pub created_at: String,
    pub confirmed_at: Option<String>,
}

/// The format version of a draft file.
pub const DRAFT_VERSION: u32 = 1;

fn copy_drafts(v: &Vec<EntityDraft>) -> (r: Vec<EntityDraft>)
    ensures
        draft_views(r@) == draft_views(v@),
{
    let mut r: Vec<EntityDraft> = Vec::new();
    let mut i: usize = 0;
    while i < v.len()
        invariant
            i <= v@.len(),
            r@.len() == i,
            forall|k: int| 0 <= k < i ==> #[trigger] r@[k]@ == v@[k]@,
        decreases v.len() - i,
    {
        r.push(v[i].duplicate());
        i = i + 1;
    }
    assert(draft_views(r@) =~= draft_views(v@));
    r
}

impl CompanyDraftFile {
    /// A new, unconfirmed draft from the arguments, created now; without
    /// entities it takes the preset's default entities.
    pub fn from_args(args: &CreateCompanyArgs) -> (r: Self)
        ensures
            r.version == DRAFT_VERSION,
            r.company_id@ == args.company_id@,
            opt_view(r.preset) == opt_view(args.preset),
            opt_view(r.business_domain) == opt_view(args.business_domain),
            r.agent_max == args.agent_max,
            opt_view(r.instance_identity_md) == opt_view(args.instance_identity_md),
            opt_view(r.instance_soul_md) == opt_view(args.instance_soul_md),
            opt_view(r.instance_agents_md) == opt_view(args.instance_agents_md),
            opt_view(r.ceo_identity_md) == opt_view(args.ceo_identity_md),
            opt_view(r.ceo_soul_md) == opt_view(args.ceo_soul_md),
            opt_view(r.ceo_agents_md) == opt_view(args.ceo_agents_md),
            draft_views(r.entities@) == if args.entities@.len() == 0 {
                default_entities_spec(opt_view(args.preset), opt_view(args.business_domain))
            } else {
                draft_views(args.entities@)
            },
            !r.confirmed,
            r.confirmed_at is None,
    {
        Self::from_args_at(args, crate::clock::now_rfc3339())
    }

    /// A new, unconfirmed draft from the arguments, created at `created_at`;
    /// without entities it takes the preset's default entities.
    pub fn from_args_at(args: &CreateCompanyArgs, created_at: String) -> (r: Self)
        ensures
            r.version == DRAFT_VERSION,
            r.company_id@ == args.company_id@,
            opt_view(r.preset) == opt_view(args.preset),
            opt_view(r.business_domain) == opt_view(args.business_domain),
            r.agent_max == args.agent_max,
            opt_view(r.instance_identity_md) == opt_view(args.instance_identity_md),
            opt_view(r.instance_soul_md) == opt_view(args.instance_soul_md),
            opt_view(r.instance_agents_md) == opt_view(args.instance_agents_md),
            opt_view(r.ceo_identity_md) == opt_view(args.ceo_identity_md),
            opt_view(r.ceo_soul_md) == opt_view(args.ceo_soul_md),
            opt_view(r.ceo_agents_md) == opt_view(args.ceo_agents_md),
            draft_views(r.entities@) == if args.entities@.len() == 0 {
                default_entities_spec(opt_view(args.preset), opt_view(args.business_domain))
            } else {
                draft_views(args.entities@)
            },
            !r.confirmed,
            r.created_at@ == created_at@,
            r.confirmed_at is None,
    {
        let entities = if args.entities.len() == 0 {
            let preset: Option<&str> = match &args.preset {
                Some(p) => Some(p.as_str()),
                None => None,
            };
            let domain: Option<&str> = match &args.business_domain {
                Some(d) => Some(d.as_str()),
                None => None,
            };
            default_entities_for(preset, domain)
        } else {
            copy_drafts(&args.entities)
        };
        CompanyDraftFile {
            version: DRAFT_VERSION,
            company_id: args.company_id.clone(),
            preset: copy_opt(&args.preset),
            business_domain: copy_opt(&args.business_domain),
            agent_max: args.agent_max,
            instance_identity_md: copy_opt(&args.instance_identity_md),
            instance_soul_md: copy_opt(&args.instance_soul_md),
            instance_agents_md: copy_opt(&args.instance_agents_md),
            ceo_identity_md: copy_opt(&args.ceo_identity_md),
            ceo_soul_md: copy_opt(&args.ceo_soul_md),
            ceo_agents_md: copy_opt(&args.ceo_agents_md),
            entities,
            confirmed: false,
            created_at,
            confirmed_at: None,
        }
    }

    /// Mark the draft confirmed now.
    pub fn confirm_now(&mut self)
        ensures
            final(self).confirmed_at is Some,
            *final(self) == (CompanyDraftFile {
                confirmed: true,
                confirmed_at: final(self).confirmed_at,
                ..*old(self)
            }),
    {
        self.confirm(crate::clock::now_rfc3339());
    }

    /// Mark the draft confirmed at `confirmed_at`.
    pub fn confirm(&mut self, confirmed_at: String)
        ensures
            *final(self) == (CompanyDraftFile {
                confirmed: true,
                confirmed_at: Some(confirmed_at),
                ..*old(self)
            }),
    {
        self.confirmed = true;
        self.confirmed_at = Some(confirmed_at);
    }
}

/// Why `create_company` failed (as an error, not a tool answer).
#[derive(Debug, Clone, PartialEq, Eq)]
pub enum CompanyError {
    EmptyId,
    ReservedId,
    PathSeparator,
    ClusterRootUnresolved,
    DraftNotFound(String),
    NotConfirmed(String),
}

impl CompanyError {
    pub open spec fn message_spec(&self) -> Seq<char> {
        match self {
            CompanyError::EmptyId => "company_id must be non-empty"@,
            CompanyError::ReservedId => "company_id 'admin' is reserved"@,
            CompanyError::PathSeparator => "company_id must not contain path separators"@,
            CompanyError::ClusterRootUnresolved => "Could not resolve cluster root from config path"@,
            CompanyError::DraftNotFound(id) => "Draft not found for company '"@ + id@
                + "'. Create it first with action=draft."@,
            CompanyError::NotConfirmed(id) => "Draft for company '"@ + id@
                + "' is not confirmed yet. Call action=confirm first."@,
        }
    }

    /// The error text.
    pub fn message(&self) -> (r: String)
        ensures
            r@ == self.message_spec(),
    {
        match self {
            CompanyError::EmptyId => to_owned_string("company_id must be non-empty"),
            CompanyError::ReservedId => to_owned_string("company_id 'admin' is reserved"),
            CompanyError::PathSeparator => to_owned_string(
                "company_id must not contain path separators",
            ),
            CompanyError::ClusterRootUnresolved => to_owned_string(
                "Could not resolve cluster root from config path",
            ),
            CompanyError::DraftNotFound(id) => concat3(
                "Draft not found for company '",
                id.as_str(),
                "'. Create it first with action=draft.",
            ),
            CompanyError::NotConfirmed(id) => concat3(
                "Draft for company '",
                id.as_str(),
                "' is not confirmed yet. Call action=confirm first.",
            ),
        }
    }
}

/// A company id: trimmed, non-empty, not `admin` in any ASCII case, without
/// path separators.
pub fn sanitize_company_id(raw: &str) -> (r: Result<String, CompanyError>)
    ensures
        trim(raw@).len() == 0 ==> r == Err::<String, CompanyError>(CompanyError::EmptyId),
        trim(raw@).len() > 0 && lower(trim(raw@)) == lower(ADMIN_INSTANCE_ID@) ==> r == Err::<
            String,
            CompanyError,
        >(CompanyError::ReservedId),
        trim(raw@).len() > 0 && lower(trim(raw@)) != lower(ADMIN_INSTANCE_ID@) && trim(
            raw@,
        ).contains('/') ==> r == Err::<String, CompanyError>(CompanyError::PathSeparator),
        r matches Ok(s) ==> s@ == trim(raw@) && s@.len() > 0 && !s@.contains('/') && lower(s@)
            != lower(ADMIN_INSTANCE_ID@),
        trim(raw@).len() > 0 && lower(trim(raw@)) != lower(ADMIN_INSTANCE_ID@) && !trim(
            raw@,
        ).contains('/') && !trim(raw@).contains('\\') ==> r is Ok,
{
    let id = str_trim(raw);
    if id.is_empty() {
        return Err(CompanyError::EmptyId);
    }
    if eq_ignore_ascii_case(id, ADMIN_INSTANCE_ID) {
        return Err(CompanyError::ReservedId);
    }
    if str_contains_char(id, crate::paths::main_separator()) || str_contains_char(id, '/') {
        return Err(CompanyError::PathSeparator);
    }
    Ok(id.to_owned())
}

/// The grand-grandparent of `.../<cluster_root>/instances/<id>/config.toml`.
pub open spec fn cluster_root_spec(config_path: Seq<char>) -> Option<Seq<char>> {
    match path_parent(config_path) {
        Some(a) => match path_parent(a) {
            Some(b) => path_parent(b),
            None => None,
        },
        None => None,
    }
}

/// The cluster root of an instance config path
/// (`<cluster_root>/instances/<id>/config.toml`).
pub fn cluster_root_from_config_path(config_path: &str) -> (r: Result<String, CompanyError>)
    ensures
        match cluster_root_spec(config_path@) {
            Some(root) => r matches Ok(s) && s@ == root,
            None => r == Err::<String, CompanyError>(CompanyError::ClusterRootUnresolved),
        },
{
    let a = match parent_path(config_path) {
        Some(a) => a,
        None => return Err(CompanyError::ClusterRootUnresolved),
    };
    let b = match parent_path(a.as_str()) {
        Some(b) => b,
        None => return Err(CompanyError::ClusterRootUnresolved),
    };
    match parent_path(b.as_str()) {
        Some(c) => Ok(c),
        None => Err(CompanyError::ClusterRootUnresolved),
    }
}

/// `<root>/instances/admin/workspace/state/company_drafts`.
pub open spec fn drafts_dir_spec(root: Seq<char>) -> Seq<char> {
    path_join(
        path_join(
            path_join(path_join(path_join(root, "instances"@), ADMIN_INSTANCE_ID@), "workspace"@),
            "state"@,
        ),
        "company_drafts"@,
    )
}

/// The directory of company drafts under the admin workspace.
pub fn admin_drafts_dir(cluster_root: &str) -> (r: String)
    ensures
        r@ == drafts_dir_spec(cluster_root@),
{
    let a = join_path(cluster_root, "instances");
    let b = join_path(a.as_str(), ADMIN_INSTANCE_ID);
    let c = join_path(b.as_str(), "workspace");
    let d = join_path(c.as_str(), "state");
    join_path(d.as_str(), "company_drafts")
}

/// `<drafts dir>/<company_id>.json`.
pub fn draft_path_for(cluster_root: &str, company_id: &str) -> (r: String)
    ensures
        r@ == path_join(drafts_dir_spec(cluster_root@), company_id@ + ".json"@),
{
    let dir = admin_drafts_dir(cluster_root);
    let mut file = company_id.to_owned();
    file.append(".json");
    join_path(dir.as_str(), file.as_str())
}

/// Where a company's files go: its sanitized id, the cluster root and the
/// draft path.
pub struct CompanyLocation {
    pub company_id: String,
    pub cluster_root: String,
    pub draft_path: String,
}

/// Whether a step of the workflow may proceed.
pub enum DraftGate {
    Pass,
    NotFound,
    NotConfirmed,
}

/// The saved draft as the workflow sees it: absent, or whether confirmed.
pub open spec fn draft_state(draft: Option<&CompanyDraftFile>) -> Option<bool> {
    match draft {
        Some(d) => Some(d.confirmed),
        None => None,
    }
}

/// Drafting always proceeds; confirming needs a saved draft; applying
/// needs a saved, confirmed draft.
pub open spec fn draft_gate(action: CreateCompanyAction, saved: Option<bool>) -> DraftGate {
    if action == CreateCompanyAction::Draft {
        DraftGate::Pass
    } else {
        match saved {
            None => DraftGate::NotFound,
            Some(confirmed) => if action == CreateCompanyAction::Apply && !confirmed {
                DraftGate::NotConfirmed
            } else {
                DraftGate::Pass
            },
        }
    }
}

/// The workflow is draft, then confirm, then apply: a new draft
/// (unconfirmed) cannot be applied, it can be confirmed, and once
/// confirmed it can be applied; without a saved draft neither confirming
/// nor applying proceeds.
pub proof fn law_draft_confirm_apply()
    ensures
        draft_gate(CreateCompanyAction::Apply, Some(false)) is NotConfirmed,
        draft_gate(CreateCompanyAction::Confirm, Some(false)) is Pass,
        draft_gate(CreateCompanyAction::Apply, Some(true)) is Pass,
        draft_gate(CreateCompanyAction::Confirm, None) is NotFound,
        draft_gate(CreateCompanyAction::Apply, None) is NotFound,
        forall|saved: Option<bool>| draft_gate(CreateCompanyAction::Draft, saved) is Pass,
{
}

/// Creates companies (cluster instances); admin only.
#[derive(Debug, Clone)]
pub struct CreateCompanyTool {
    config_path: String,
}

/// The schema of one draft entity: a required `id`, and optional text
/// fields and tool list.
pub open spec fn draft_entity_schema() -> Json {
    object_schema(
        seq![
            ("id"@, typed("string"@)),
            ("role"@, typed("string"@)),
            ("team_id"@, typed("string"@)),
            ("provider"@, typed("string"@)),
            ("model"@, typed("string"@)),
            ("skills"@, string_list(None)),
            ("identity_md"@, typed("string"@)),
            ("soul_md"@, typed("string"@)),
            ("agents_md"@, typed("string"@)),
        ],
        seq!["id"@],
    )
}

/// The arguments of `create_company`: the action and the company id, and
/// the optional preset, domain, agent limit, persona documents and
/// entities.
pub open spec fn create_company_schema() -> Json {
    object_schema(
        seq![
            ("action"@, Json::Object(seq![("type"@, Json::Str("string"@)), ("enum"@, strs(seq!["draft"@, "confirm"@, "apply"@]))])),
            ("company_id"@, described("string"@, "Instance id (directory name) under cluster_root/instances/<id>."@)),
            ("preset"@, described("string"@, "Optional instance preset (startup/enterprise/brainstorm/freeform/project/...)."@)),
            ("business_domain"@, described("string"@, "Optional business domain hint (e.g. 新媒体运营). When entities are omitted, preset role packs may be auto-filled."@)),
            ("agent_max"@, Json::Object(seq![("type"@, Json::Str("integer"@)), ("minimum"@, Json::Number("1"@)), ("description"@, Json::Str("Optional maximum number of entities allowed in this instance (constraints.agent_max)."@))])),
            ("instance_identity_md"@, described("string"@, "Optional instance-level IDENTITY.md content to write on apply."@)),
            ("instance_soul_md"@, described("string"@, "Optional instance-level SOUL.md content to write on apply."@)),
            ("instance_agents_md"@, described("string"@, "Optional instance-level AGENTS.md content to write on apply."@)),
            ("ceo_identity_md"@, described("string"@, "Optional CEO entity IDENTITY.md content to write on apply."@)),
            ("ceo_soul_md"@, described("string"@, "Optional CEO entity SOUL.md content to write on apply."@)),
            ("ceo_agents_md"@, described("string"@, "Optional CEO entity AGENTS.md content to write on apply."@)),
            ("entities"@, Json::Object(seq![("type"@, Json::Str("array"@)), ("items"@, draft_entity_schema())])),
        ],
        seq!["action"@, "company_id"@],
    )
}

impl CreateCompanyTool {
    /// The JSON Schema of the arguments.
    pub fn parameters_schema(&self) -> (r: JsonValue)
        ensures
            r@ == create_company_schema(),
    {
        let actions: [&str; 3] = ["draft", "confirm", "apply"];
        let mut action = new_members();
        push_member(&mut action, "type", json_str("string"));
        push_member(&mut action, "enum", string_array(&actions));
        assert(str_views(actions@) =~= seq!["draft"@, "confirm"@, "apply"@]);
        assert(members(action@) =~= create_company_schema()->Object_0[1].1->Object_0[0].1->Object_0);
        let mut agent_max = new_members();
        push_member(&mut agent_max, "type", json_str("integer"));
        push_member(&mut agent_max, "minimum", JsonValue::Number(to_owned_string("1")));
        push_member(&mut agent_max, "description", json_str("Optional maximum number of entities allowed in this instance (constraints.agent_max)."));
        assert(members(agent_max@) =~= create_company_schema()->Object_0[1].1->Object_0[4].1->Object_0);
        let mut item = new_members();
        push_member(&mut item, "id", typed_field("string"));
        push_member(&mut item, "role", typed_field("string"));
        push_member(&mut item, "team_id", typed_field("string"));
        push_member(&mut item, "provider", typed_field("string"));
        push_member(&mut item, "model", typed_field("string"));
        push_member(&mut item, "skills", string_list_field(None));
        push_member(&mut item, "identity_md", typed_field("string"));
        push_member(&mut item, "soul_md", typed_field("string"));
        push_member(&mut item, "agents_md", typed_field("string"));
        let ghost item_props = members(item@);
        let item_required: [&str; 1] = ["id"];
        let item_schema = object_schema_value(item, &item_required);
        proof {
            assert(item_props =~= draft_entity_schema()->Object_0[1].1->Object_0);
            assert(str_views(item_required@) =~= seq!["id"@]);
        }
        let mut entities = new_members();
        push_member(&mut entities, "type", json_str("array"));
        push_member(&mut entities, "items", item_schema);
        assert(members(entities@) =~= create_company_schema()->Object_0[1].1->Object_0[11].1->Object_0);
        let mut p = new_members();
        push_member(&mut p, "action", object(action));
        push_member(&mut p, "company_id", described_field("string", "Instance id (directory name) under cluster_root/instances/<id>."));
        push_member(&mut p, "preset", described_field("string", "Optional instance preset (startup/enterprise/brainstorm/freeform/project/...)."));
        push_member(&mut p, "business_domain", described_field("string", "Optional business domain hint (e.g. 新媒体运营). When entities are omitted, preset role packs may be auto-filled."));
        push_member(&mut p, "agent_max", object(agent_max));
        push_member(&mut p, "instance_identity_md", described_field("string", "Optional instance-level IDENTITY.md content to write on apply."));
        push_member(&mut p, "instance_soul_md", described_field("string", "Optional instance-level SOUL.md content to write on apply."));
        push_member(&mut p, "instance_agents_md", described_field("string", "Optional instance-level AGENTS.md content to write on apply."));
        push_member(&mut p, "ceo_identity_md", described_field("string", "Optional CEO entity IDENTITY.md content to write on apply."));
        push_member(&mut p, "ceo_soul_md", described_field("string", "Optional CEO entity SOUL.md content to write on apply."));
        push_member(&mut p, "ceo_agents_md", described_field("string", "Optional CEO entity AGENTS.md content to write on apply."));
        push_member(&mut p, "entities", object(entities));
        let ghost props = members(p@);
        let required: [&str; 2] = ["action", "company_id"];
        let r = object_schema_value(p, &required);
        proof {
            assert(props =~= create_company_schema()->Object_0[1].1->Object_0);
            assert(str_views(required@) =~= seq!["action"@, "company_id"@]);
        }
        r
    }

    pub fn new(config_path: String) -> (r: Self)
        ensures
            r.config_path_spec() == config_path@,
    {
        CreateCompanyTool { config_path }
    }

    pub closed spec fn config_path_spec(&self) -> Seq<char> {
        self.config_path@
    }

    pub fn name(&self) -> (r: &'static str)
        ensures
            r@ == "create_company"@,
    {
        "create_company"
    }

    pub fn description(&self) -> (r: &'static str)
        ensures
            r@ == "Create a company (cluster instance) using a strict workflow: draft -> confirm -> apply. Admin-only. Draft persists detailed company/CEO/entity descriptions and constraints; apply creates the instance, writes persona files, and sets constraints like agent_max."@,
    {
        "Create a company (cluster instance) using a strict workflow: draft -> confirm -> apply. Admin-only. Draft persists detailed company/CEO/entity descriptions and constraints; apply creates the instance, writes persona files, and sets constraints like agent_max."
    }

    /// The refusal when the tool does not run in the admin instance: none
    /// for `<root>/instances/admin/config.toml`, the admin-only failure for
    /// every path that is not the admin config under either separator.
    pub fn check_admin(&self) -> (r: Option<ToolResult>)
        ensures
            admin_config_path_with(self.config_path_spec(), '/') ==> r is None,
            r is None ==> admin_config_path(self.config_path_spec()),
            !admin_config_path(self.config_path_spec()) ==> (r matches Some(t) && t@ == fail_view(
                "create_company is admin-only (run with --instance admin)"@,
            )),
    {
        if !is_admin_instance(self.config_path.as_str()) {
            return Some(
                ToolResult::fail(
                    to_owned_string("create_company is admin-only (run with --instance admin)"),
                ),
            );
        }
        None
    }

    /// The company id, cluster root and draft path of a request.
    pub fn locate(&self, company_id: &str) -> (r: Result<CompanyLocation, CompanyError>)
        ensures
            r matches Ok(loc) ==> loc.company_id@ == trim(company_id@) && cluster_root_spec(
                self.config_path_spec(),
            ) == Some(loc.cluster_root@) && loc.draft_path@ == path_join(
                drafts_dir_spec(loc.cluster_root@),
                loc.company_id@ + ".json"@,
            ),
            trim(company_id@).len() == 0 ==> r == Err::<CompanyLocation, CompanyError>(
                CompanyError::EmptyId,
            ),
            trim(company_id@).len() > 0 && lower(trim(company_id@)) == lower(ADMIN_INSTANCE_ID@)
                ==> r == Err::<CompanyLocation, CompanyError>(CompanyError::ReservedId),
            trim(company_id@).len() > 0 && lower(trim(company_id@)) != lower(ADMIN_INSTANCE_ID@)
                && trim(company_id@).contains('/') ==> r == Err::<CompanyLocation, CompanyError>(
                CompanyError::PathSeparator,
            ),
            trim(company_id@).len() > 0 && !trim(company_id@).contains('/') && !trim(
                company_id@,
            ).contains('\\') && lower(trim(company_id@)) != lower(ADMIN_INSTANCE_ID@) ==> (
            match cluster_root_spec(self.config_path_spec()) {
                None => r == Err::<CompanyLocation, CompanyError>(
                    CompanyError::ClusterRootUnresolved,
                ),
                Some(_) => r is Ok,
            }),
    {
        let id = match sanitize_company_id(company_id) {
            Ok(id) => id,
            Err(e) => return Err(e),
        };
        let root = match cluster_root_from_config_path(self.config_path.as_str()) {
            Ok(root) => root,
            Err(e) => return Err(e),
        };
        let draft_path = draft_path_for(root.as_str(), id.as_str());
        Ok(CompanyLocation { company_id: id, cluster_root: root, draft_path })
    }

    /// The answer once the draft is saved.
    pub fn draft_created(company_id: &str, draft_path: &str) -> (r: ToolResult)
        ensures
            r@ == ok_view("Draft created for company '"@ + company_id@ + "' at "@ + draft_path@
                + ". Next: call create_company with action=confirm, then action=apply."@),
    {
        ToolResult::ok(
            concat5(
                "Draft created for company '",
                company_id,
                "' at ",
                draft_path,
                ". Next: call create_company with action=confirm, then action=apply.",
            ),
        )
    }

    /// The answer once the draft is confirmed.
    pub fn draft_confirmed(company_id: &str) -> (r: ToolResult)
        ensures
            r@ == ok_view("Draft confirmed for company '"@ + company_id@
                + "'. Next: call create_company with action=apply."@),
    {
        ToolResult::ok(
            concat3(
                "Draft confirmed for company '",
                company_id,
                "'. Next: call create_company with action=apply.",
            ),
        )
    }

    /// Confirming or applying needs a saved draft; applying needs it
    /// confirmed.
    pub fn check_draft(
        action: CreateCompanyAction,
        company_id: &str,
        draft: Option<&CompanyDraftFile>,
    ) -> (r: Result<(), CompanyError>)
        ensures
            (match draft_gate(action, draft_state(draft)) {
                DraftGate::Pass => r is Ok,
                DraftGate::NotFound => r matches Err(CompanyError::DraftNotFound(x)) && x@ == company_id@,
                DraftGate::NotConfirmed => r matches Err(CompanyError::NotConfirmed(x)) && x@
                    == company_id@,
            }),
    {
        if action == CreateCompanyAction::Draft {
            return Ok(());
        }
        match draft {
            None => Err(CompanyError::DraftNotFound(company_id.to_owned())),
            Some(d) => if action == CreateCompanyAction::Apply && !d.confirmed {
                Err(CompanyError::NotConfirmed(company_id.to_owned()))
            } else {
                Ok(())
            },
        }
    }

    /// The answer once the company exists.
    pub fn applied(company_id: &str, port: u16, workspace_dir: &str, draft_path: &str) -> (r:
        ToolResult)
        ensures
            r@ == ok_view("Company '"@ + company_id@ + "' created (port "@ + decimal(port as nat)
                + "). Workspace: "@ + workspace_dir@ + ". Draft: "@ + draft_path@),
    {
        let digits = u64_to_string(port as u64);
        let mut m = concat5("Company '", company_id, "' created (port ", digits.as_str(), "). Workspace: ");
        m.append(workspace_dir);
        m.append(". Draft: ");
        m.append(draft_path);
        ToolResult::ok(m)
    }
}

/// A draft entity becomes an instance entity unless its trimmed id is empty
/// or the CEO id (any ASCII case).
pub open spec fn draft_entity_kept(id: Seq<char>) -> bool {
    trim(id).len() > 0 && lower(trim(id)) != lower(CEO_ENTITY_ID@)
}

/// The trimmed id of a draft entity that gets a workspace; `None` for an
/// empty id or the CEO's.
pub fn draft_entity_id(id: &str) -> (r: Option<&str>)
    ensures
        draft_entity_kept(id@) ==> (r matches Some(s) && s@ == trim(id@)),
        !draft_entity_kept(id@) ==> r is None,
{
    let t = str_trim(id);
    if t.is_empty() || eq_ignore_ascii_case(t, CEO_ENTITY_ID) {
        None
    } else {
        Some(t)
    }
}

/// The ids of the draft entities that get workspaces, in order.
pub open spec fn kept_ids(drafts: Seq<EntityDraftView>) -> Seq<Seq<char>>
    decreases drafts.len(),
{
    if drafts.len() == 0 {
        Seq::empty()
    } else {
        let prev = kept_ids(drafts.drop_last());
        if draft_entity_kept(drafts.last().id) {
            prev.push(trim(drafts.last().id))
        } else {
            prev
        }
    }
}

/// The trimmed ids of the draft entities that get a workspace.
pub fn draft_entity_ids(draft: &CompanyDraftFile) -> (r: Vec<String>)
    ensures
        views(r@) == kept_ids(draft_views(draft.entities@)),
{
    let ghost d = draft_views(draft.entities@);
    let mut r: Vec<String> = Vec::new();
    let mut i: usize = 0;
    while i < draft.entities.len()
        invariant
            d == draft_views(draft.entities@),
            i <= d.len(),
            views(r@) == kept_ids(d.take(i as int)),
        decreases draft.entities.len() - i,
    {
        assert(d.take(i + 1).drop_last() =~= d.take(i as int));
        assert(d.take(i + 1).last() == draft.entities@[i as int]@);
        if let Some(id) = draft_entity_id(draft.entities[i].id.as_str()) {
            crate::text::push_str(&mut r, id);
        }
        i = i + 1;
    }
    assert(d.take(d.len() as int) =~= d);
    r
}

/// The instance entities after merging the draft: each kept draft entity
/// whose id is not configured yet is appended, in order, with its provider,
/// model, team, role and tools as drafted.
pub open spec fn merged_entities(existing: Seq<EntityConfigView>, drafts: Seq<EntityDraftView>) -> Seq<EntityConfigView>
    decreases drafts.len(),
{
    if drafts.len() == 0 {
        existing
    } else {
        let prev = merged_entities(existing, drafts.drop_last());
        let d = drafts.last();
        let id = trim(d.id);
        if !draft_entity_kept(d.id) || (exists|k: int| 0 <= k < prev.len() && prev[k].id == id) {
            prev
        } else {
            prev.push(
                EntityConfigView {
                    id,
                    provider: d.provider,
                    model: d.model,
                    team_id: d.team_id,
                    role: d.role,
                    skills: d.skills,
                    skill_allowlist: None,
                },
            )
        }
    }
}

/// Merging a draft keeps the configured entities first and unchanged, appends
/// only kept draft entities (under their trimmed ids) with ids configured
/// nowhere before them, and leaves every kept draft id configured: appending
/// never duplicates an id.
pub proof fn law_merge_appends_kept_ids_once(existing: Seq<EntityConfigView>, drafts: Seq<EntityDraftView>)
    ensures
        ({
            let m = merged_entities(existing, drafts);
            &&& existing.len() <= m.len()
            &&& m.take(existing.len() as int) == existing
            &&& forall|i: int|
                existing.len() <= i < m.len() ==> {
                    &&& draft_entity_kept(m[i].id)
                    &&& trim(m[i].id) == m[i].id
                    &&& forall|j: int| 0 <= j < i ==> m[j].id != #[trigger] m[i].id
                }
            &&& forall|k: int|
                0 <= k < drafts.len() && draft_entity_kept(#[trigger] drafts[k].id) ==> exists|j: int|
                    0 <= j < m.len() && m[j].id == trim(drafts[k].id)
        }),
    decreases drafts.len(),
{
    if drafts.len() > 0 {
        law_merge_appends_kept_ids_once(existing, drafts.drop_last());
        let prev = merged_entities(existing, drafts.drop_last());
        let m = merged_entities(existing, drafts);
        let d = drafts.last();
        let id = trim(d.id);
        if draft_entity_kept(d.id) && !(exists|k: int| 0 <= k < prev.len() && prev[k].id == id) {
            assert(m == prev.push(m[prev.len() as int]));
            crate::text::lemma_trim_idempotent(d.id);
            assert(m.take(existing.len() as int) =~= prev.take(existing.len() as int));
            assert(trim(id).len() == id.len());
            assert(draft_entity_kept(id));
            assert forall|i: int| existing.len() <= i < m.len() implies {
                &&& draft_entity_kept(m[i].id)
                &&& trim(m[i].id) == m[i].id
                &&& forall|j: int| 0 <= j < i ==> m[j].id != #[trigger] m[i].id
            } by {
                if i < prev.len() {
                    assert(m[i] == prev[i]);
                    assert forall|j: int| 0 <= j < i implies m[j].id != #[trigger] m[i].id by {
                        assert(m[j] == prev[j]);
                    }
                } else {
                    assert forall|j: int| 0 <= j < i implies m[j].id != #[trigger] m[i].id by {
                        assert(m[j] == prev[j]);
                    }
                }
            }
            assert forall|k: int|
                0 <= k < drafts.len() && draft_entity_kept(#[trigger] drafts[k].id) implies exists|j: int|
                    0 <= j < m.len() && m[j].id == trim(drafts[k].id) by {
                if k < drafts.len() - 1 {
                    assert(drafts.drop_last()[k] == drafts[k]);
                    let j = choose|j: int| 0 <= j < prev.len() && prev[j].id == trim(drafts[k].id);
                    assert(m[j] == prev[j]);
                } else {
                    assert(m[prev.len() as int].id == trim(drafts[k].id));
                }
            }
        } else {
            assert forall|k: int|
                0 <= k < drafts.len() && draft_entity_kept(#[trigger] drafts[k].id) implies exists|j: int|
                    0 <= j < m.len() && m[j].id == trim(drafts[k].id) by {
                if k < drafts.len() - 1 {
                    assert(drafts.drop_last()[k] == drafts[k]);
                }
            }
        }
    } else {
        assert(existing.take(existing.len() as int) =~= existing);
    }
}

/// `e` is the entity made from draft `k`: the first kept draft entity with
/// its (trimmed) id, with the draft's provider, model, team, role and tool
/// list as drafted, and no skill-package allowlist.
pub open spec fn made_from_draft(drafts: Seq<EntityDraftView>, e: EntityConfigView, k: int) -> bool {
    &&& 0 <= k < drafts.len()
    &&& draft_entity_kept(drafts[k].id)
    &&& e == (EntityConfigView {
        id: trim(drafts[k].id),
        provider: drafts[k].provider,
        model: drafts[k].model,
        team_id: drafts[k].team_id,
        role: drafts[k].role,
        skills: drafts[k].skills,
        skill_allowlist: None,
    })
    &&& forall|j: int| 0 <= j < k ==> !(draft_entity_kept(drafts[j].id) && trim(drafts[j].id) == e.id)
}

/// Law: each entity a merge appends (at position `i`, past the configured
/// ones) is made from a draft entity: the first kept one with its (trimmed)
/// id, carrying that draft's provider, model, team, role and tool list as
/// drafted, and no skill-package allowlist.
pub proof fn law_merge_carries_draft_fields(existing: Seq<EntityConfigView>, drafts: Seq<EntityDraftView>, i: int)
    requires
        existing.len() <= i < merged_entities(existing, drafts).len(),
    ensures
        exists|k: int| #[trigger] made_from_draft(drafts, merged_entities(existing, drafts)[i], k),
    decreases drafts.len(),
{
    let front = drafts.drop_last();
    let prev = merged_entities(existing, front);
    let m = merged_entities(existing, drafts);
    let n = drafts.len() - 1;
    if i < prev.len() {
        law_merge_carries_draft_fields(existing, front, i);
        let k = choose|k: int| #[trigger] made_from_draft(front, prev[i], k);
        law_merge_appends_kept_ids_once(existing, front);
        assert(m[i] == prev[i]);
        assert(front[k] == drafts[k]);
        assert forall|j: int| 0 <= j < k implies !(draft_entity_kept(drafts[j].id) && trim(drafts[j].id)
            == m[i].id) by {
            assert(front[j] == drafts[j]);
        }
        assert(made_from_draft(drafts, m[i], k));
    } else {
        law_merge_appends_kept_ids_once(existing, front);
        assert(m != prev);
        assert(drafts.last() == drafts[n]);
        assert(i == prev.len());
        assert forall|j: int| 0 <= j < n implies !(draft_entity_kept(drafts[j].id) && trim(drafts[j].id)
            == m[i].id) by {
            assert(front[j] == drafts[j]);
            if draft_entity_kept(front[j].id) {
                let q = choose|q: int| 0 <= q < prev.len() && prev[q].id == trim(front[j].id);
            }
        }
        assert(made_from_draft(drafts, m[i], n));
    }
}

/// The `[instance.ceo]` after applying: enabled unless it says otherwise.
pub open spec fn applied_ceo(ceo: Option<Option<bool>>) -> Option<Option<bool>> {
    match ceo {
        None => Some(Some(true)),
        Some(e) => match e {
            None => Some(Some(true)),
            Some(b) => Some(Some(b)),
        },
    }
}

/// Law: after applying a draft the CEO is enabled, unless the instance had
/// it disabled explicitly (`enabled = false`), which stays.
pub proof fn law_apply_enables_ceo(ceo: Option<Option<bool>>)
    ensures
        ceo == Some(Some(false)) ==> applied_ceo(ceo) == Some(Some(false)),
        ceo != Some(Some(false)) ==> applied_ceo(ceo) == Some(Some(true)),
{
}

/// Merge a confirmed draft into the new instance's `[instance]` table: the
/// draft preset (else `preset`), the CEO enabled unless it was disabled, and
/// the draft entities.
pub fn merge_draft_into_instance(draft: &CompanyDraftFile, preset: Option<&str>, inst: &mut InstanceConfig)
    ensures
        final(inst)@.preset == match opt_view(draft.preset) {
            Some(p) => Some(p),
            None => opt_str(preset),
        },
        final(inst)@.ceo == applied_ceo(old(inst)@.ceo),
        final(inst)@.entities == merged_entities(old(inst)@.entities, draft_views(draft.entities@)),
        final(inst)@.teams == old(inst)@.teams,
        final(inst)@.default_provider == old(inst)@.default_provider,
        final(inst)@.default_model == old(inst)@.default_model,
{
    inst.preset = match &draft.preset {
        Some(p) => Some(p.clone()),
        None => match preset {
            Some(p) => Some(p.to_owned()),
            None => None,
        },
    };
    let enabled = match &inst.ceo {
        None => true,
        Some(c) => match c.enabled {
            None => true,
            Some(b) => b,
        },
    };
    inst.ceo = Some(CeoConfig { enabled: Some(enabled) });
    let ghost existing = inst@.entities;
    let ghost d = draft_views(draft.entities@);
    let mut i: usize = 0;
    while i < draft.entities.len()
        invariant
            d == draft_views(draft.entities@),
            i <= d.len(),
            inst@.entities == merged_entities(existing, d.take(i as int)),
            inst@.teams == old(inst)@.teams,
            inst@.default_provider == old(inst)@.default_provider,
            inst@.default_model == old(inst)@.default_model,
            inst@.ceo == applied_ceo(old(inst)@.ceo),
            inst@.preset == match opt_view(draft.preset) {
                Some(p) => Some(p),
                None => opt_str(preset),
            },
        decreases draft.entities.len() - i,
    {
        assert(d.take(i + 1).drop_last() =~= d.take(i as int));
        let ed = &draft.entities[i];
        assert(d.take(i + 1).last() == ed@);
        if let Some(id) = draft_entity_id(ed.id.as_str()) {
            let mut found = false;
            let mut k: usize = 0;
            while k < inst.entities.len()
                invariant
                    k <= inst.entities@.len(),
                    inst@.entities.len() == inst.entities@.len(),
                    forall|j: int| 0 <= j < inst.entities@.len() ==> #[trigger] inst@.entities[j].id == inst.entities@[j].id@,
                    found == exists|j: int| 0 <= j < k && inst@.entities[j].id == id@,
                decreases inst.entities.len() - k,
            {
                let same = str_eq(inst.entities[k].id.as_str(), id);
                assert(same == (inst@.entities[k as int].id == id@));
                if same {
                    found = true;
                }
                k = k + 1;
            }
            if !found {
                let cfg = EntityConfig {
                    id: id.to_owned(),
                    provider: copy_opt(&ed.provider),
                    model: copy_opt(&ed.model),
                    team_id: copy_opt(&ed.team_id),
                    role: copy_opt(&ed.role),
                    skills: copy_opt_strings(&ed.skills),
                    skill_allowlist: None,
                };
                let ghost cv = cfg@;
                let ghost before = inst.entities@;
                inst.entities.push(cfg);
                assert(entity_views(inst.entities@) =~= entity_views(before).push(cv));
            }
        }
        i = i + 1;
    }
    assert(d.take(d.len() as int) =~= d);
}

/// Record the draft's `agent_max`, when it has one, in the constraints of
/// the first registry entry with id `company_id` (other constraints kept,
/// missing ones default); without one the registry is left as it is.
pub fn set_agent_max(reg: &mut InstanceRegistry, company_id: &str, agent_max: Option<u32>)
    ensures
        match index_of(old(reg)@, company_id@) {
            Some(k) if agent_max is Some => final(reg)@ == old(reg)@.update(
                k,
                InstanceEntryView {
                    constraints: Some(
                        match old(reg)@[k].constraints {
                            Some(c) => InstanceConstraints { agent_max, ..c },
                            None => InstanceConstraints {
                                agent_max,
                                call_quota: None,
                                cost_per_day_cents: None,
                            },
                        },
                    ),
                    ..old(reg)@[k]
                },
            ),
            _ => final(reg)@ == old(reg)@,
        },
        final(reg).version == old(reg).version,
{
    if agent_max.is_none() {
        return;
    }
    match reg.position(company_id) {
        Some(k) => {
            let ghost before = reg.instances@;
            let mut e = reg.instances[k].duplicate();
            let mut constraints = match e.constraints {
                Some(c) => c,
                None => InstanceConstraints::default(),
            };
            constraints.agent_max = agent_max;
            e.constraints = Some(constraints);
            let ghost ev = e@;
            reg.instances.set(k, e);
            assert(entry_views(reg.instances@) =~= entry_views(before).update(k as int, ev));
        },
        None => {},
    }
}

/// The persona documents that applying writes over the scaffold, for one
/// directory: IDENTITY.md, SOUL.md, AGENTS.md where given.
pub fn persona_writes(
    dir: &str,
    identity: &Option<String>,
    soul: &Option<String>,
    agents: &Option<String>,
) -> (r: Vec<crate::scaffold::PersonaFile>)
    ensures
        crate::scaffold::file_views(r@) == crate::ceo::persona_override_spec(
            dir@,
            opt_view(*identity),
            opt_view(*soul),
            opt_view(*agents),
        ),
{
    let args = crate::ceo::CreateEntityArgs {
        id: String::new(),
        provider: None,
        model: None,
        team_id: None,
        role: None,
        tool_allowlist: None,
        skill_allowlist: None,
        identity_md: copy_opt(identity),
        soul_md: copy_opt(soul),
        agents_md: copy_opt(agents),
    };
    crate::ceo::CreateEntityTool::persona_overrides(dir, &args)
}

} // verus!
