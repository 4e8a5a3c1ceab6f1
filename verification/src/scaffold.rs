//! What scaffolding a workspace writes: the persona files of an entity, of
//! an instance, and of the admin workspace, and the skill files of the CEO
//! and of the admin. Files are only written where none exists yet (a skill
//! file's directory is created first); writing is left to the caller.

use vstd::prelude::*;
use crate::text::opt_str;
use vstd::string::*;
use crate::entity::{entity_dir_spec, entity_workspace_dir, CEO_ENTITY_ID};
use crate::paths::{join_path, path_join};
use crate::persona::{
    ceo_agents_text, ceo_identity_text, detailed_ceo_agents, detailed_ceo_identity,
    detailed_entity_agents, detailed_entity_identity, entity_agents_text, entity_identity_text,
    entity_soul, entity_soul_text, instance_agents, instance_agents_text, instance_identity,
    instance_identity_text, instance_soul, instance_soul_text, role_desc,
    ADMIN_AGENTS, ADMIN_IDENTITY, ADMIN_SOUL,
};
use crate::skill_assets::{ADMIN_DESIGNER_CEO_AGENTS_TEMPLATE, ADMIN_DESIGNER_SKILL, CEO_DESIGNER_SKILL};
use crate::text::{eq_ignore_ascii_case, has_sub, lower, str_contains, to_owned_string};

verus! {

/// One file a scaffold writes when it does not exist yet.
#[derive(Debug, Clone)]
pub struct PersonaFile {
    pub path: String,
    pub content: String,
}

impl View for PersonaFile {
    type V = (Seq<char>, Seq<char>);

    open spec fn view(&self) -> (Seq<char>, Seq<char>) {
        (self.path@, self.content@)
    }
}

pub open spec fn file_views(v: Seq<PersonaFile>) -> Seq<(Seq<char>, Seq<char>)> {
    Seq::new(v.len(), |i: int| v[i]@)
}

/// The lower-case mapping of `str::to_lowercase` (full Unicode case
/// mapping).
pub uninterp spec fn unicode_lowercase(s: Seq<char>) -> Seq<char>;

/// `str::to_lowercase`. Its result depends on the text alone.
#[verifier::external_body]
fn to_lowercase(s: &str) -> (r: String)
    ensures
        r@ == unicode_lowercase(s@),
{
    s.to_lowercase()
}

/// An entity gets the CEO persona when its id is `ceo` (any ASCII case) or
/// its role, lower-cased, mentions `ceo`.
pub open spec fn is_ceo_persona(entity_id: Seq<char>, role: Option<Seq<char>>) -> bool {
    ||| lower(entity_id) == lower(CEO_ENTITY_ID@)
    ||| (role matches Some(r) && has_sub(unicode_lowercase(r), "ceo"@))
}

/// The name an entity persona uses: its role, else its id.
pub open spec fn display_name(entity_id: Seq<char>, role: Option<Seq<char>>) -> Seq<char> {
    match role {
        Some(r) => r,
        None => entity_id,
    }
}

/// The persona files of an entity, in the order IDENTITY.md, SOUL.md,
/// AGENTS.md, each under the entity directory.
pub open spec fn entity_files_spec(dir: Seq<char>, entity_id: Seq<char>, role: Option<Seq<char>>) -> Seq<
    (Seq<char>, Seq<char>),
> {
    let name = display_name(entity_id, role);
    let ceo = is_ceo_persona(entity_id, role);
    let identity = if ceo {
        ceo_identity_text(name, entity_id)
    } else {
        entity_identity_text(name, entity_id, role_desc(role))
    };
    let agents = if ceo {
        ceo_agents_text(name)
    } else {
        entity_agents_text(name, role_desc(role))
    };
    seq![
        (path_join(dir, "IDENTITY.md"@), identity),
        (path_join(dir, "SOUL.md"@), entity_soul_text(name, entity_id)),
        (path_join(dir, "AGENTS.md"@), agents),
    ]
}

/// What scaffolding an entity workspace does.
pub struct EntityScaffoldPlan {
    /// `workspace/entities/<id>`, created first.
    pub entity_dir: String,
    /// Persona files, each written only if it does not exist.
    pub files: Vec<PersonaFile>,
    /// Skill files under the entity directory (the CEO's
    /// `skills/ceo_entity_designer/`), each written only if it does not
    /// exist, after its directory is created.
    pub skill_files: Vec<PersonaFile>,
}

/// The skill files a CEO entity gets under its directory `dir`.
pub open spec fn ceo_skill_files_spec(dir: Seq<char>) -> Seq<(Seq<char>, Seq<char>)> {
    seq![(path_join(dir, "skills/ceo_entity_designer/SKILL.md"@), CEO_DESIGNER_SKILL@)]
}

/// The skill files of an entity: the CEO's, or none.
pub open spec fn entity_skill_files_spec(dir: Seq<char>, entity_id: Seq<char>, role: Option<Seq<char>>) -> Seq<
    (Seq<char>, Seq<char>),
> {
    if is_ceo_persona(entity_id, role) {
        ceo_skill_files_spec(dir)
    } else {
        seq![]
    }
}

fn persona_file(dir: &str, name: &str, content: String) -> (r: PersonaFile)
    ensures
        r@ == (path_join(dir@, name@), content@),
{
    PersonaFile { path: join_path(dir, name), content }
}

/// Plan the scaffold of an entity workspace: persona files with detailed
/// content (CEO persona for the CEO), plus the CEO skill files for the CEO.
pub fn entity_scaffold_plan(workspace_dir: &str, entity_id: &str, role: Option<&str>) -> (r:
    EntityScaffoldPlan)
    ensures
        r.entity_dir@ == entity_dir_spec(workspace_dir@, entity_id@),
        file_views(r.files@) == entity_files_spec(r.entity_dir@, entity_id@, opt_str(role)),
        file_views(r.skill_files@) == entity_skill_files_spec(r.entity_dir@, entity_id@, opt_str(role)),
{
    let entity_dir = entity_workspace_dir(workspace_dir, entity_id);
    let display_name = match role {
        Some(r) => r,
        None => entity_id,
    };
    let role_mentions_ceo = match role {
        Some(r) => {
            let lowered = to_lowercase(r);
            str_contains(lowered.as_str(), "ceo")
        },
        None => false,
    };
    let is_ceo = eq_ignore_ascii_case(entity_id, CEO_ENTITY_ID) || role_mentions_ceo;
    let identity = if is_ceo {
        detailed_ceo_identity(display_name, entity_id)
    } else {
        detailed_entity_identity(display_name, entity_id, role)
    };
    let agents = if is_ceo {
        detailed_ceo_agents(display_name)
    } else {
        detailed_entity_agents(display_name, entity_id, role)
    };
    let soul = entity_soul(display_name, entity_id);
    let mut files: Vec<PersonaFile> = Vec::new();
    files.push(persona_file(entity_dir.as_str(), "IDENTITY.md", identity));
    files.push(persona_file(entity_dir.as_str(), "SOUL.md", soul));
    files.push(persona_file(entity_dir.as_str(), "AGENTS.md", agents));
    assert(file_views(files@) =~= entity_files_spec(entity_dir@, entity_id@, opt_str(role)));
    let mut skill_files: Vec<PersonaFile> = Vec::new();
    if is_ceo {
        skill_files.push(
            persona_file(
                entity_dir.as_str(),
                "skills/ceo_entity_designer/SKILL.md",
                to_owned_string(CEO_DESIGNER_SKILL),
            ),
        );
    }
    assert(file_views(skill_files@) =~= entity_skill_files_spec(
        entity_dir@,
        entity_id@,
        opt_str(role),
    ));
    EntityScaffoldPlan { entity_dir, files, skill_files }
}

/// The persona files of an instance workspace root.
pub open spec fn instance_files_spec(ws: Seq<char>, instance_id: Seq<char>) -> Seq<(Seq<char>, Seq<char>)> {
    seq![
        (path_join(ws, "IDENTITY.md"@), instance_identity_text(instance_id)),
        (path_join(ws, "SOUL.md"@), instance_soul_text(instance_id)),
        (path_join(ws, "AGENTS.md"@), instance_agents_text(instance_id)),
    ]
}

/// Plan the scaffold of an instance workspace: instance-level persona files
/// at the workspace root.
pub fn instance_scaffold_plan(workspace_dir: &str, instance_id: &str) -> (r: Vec<PersonaFile>)
    ensures
        file_views(r@) == instance_files_spec(workspace_dir@, instance_id@),
{
    let mut files: Vec<PersonaFile> = Vec::new();
    files.push(persona_file(workspace_dir, "IDENTITY.md", instance_identity(instance_id)));
    files.push(persona_file(workspace_dir, "SOUL.md", instance_soul(instance_id)));
    files.push(persona_file(workspace_dir, "AGENTS.md", instance_agents(instance_id)));
    assert(file_views(files@) =~= instance_files_spec(workspace_dir@, instance_id@));
    files
}

/// The files of the admin workspace, in writing order: the persona files
/// IDENTITY.md, SOUL.md, AGENTS.md at the root, then the skill files under
/// `skills/admin_company_designer/`.
pub open spec fn admin_files_spec(ws: Seq<char>) -> Seq<(Seq<char>, Seq<char>)> {
    seq![
        (path_join(ws, "IDENTITY.md"@), ADMIN_IDENTITY@),
        (path_join(ws, "SOUL.md"@), ADMIN_SOUL@),
        (path_join(ws, "AGENTS.md"@), ADMIN_AGENTS@),
        (path_join(ws, "skills/admin_company_designer/SKILL.md"@), ADMIN_DESIGNER_SKILL@),
        (
            path_join(ws, "skills/admin_company_designer/ceo_agents_template.md"@),
            ADMIN_DESIGNER_CEO_AGENTS_TEMPLATE@,
        ),
    ]
}

/// Plan the scaffold of the admin (chairman) workspace: its persona files,
/// then the `admin_company_designer` skill files.
pub fn admin_scaffold_plan(workspace_dir: &str) -> (r: Vec<PersonaFile>)
    ensures
        file_views(r@) == admin_files_spec(workspace_dir@),
{
    let mut files: Vec<PersonaFile> = Vec::new();
    files.push(persona_file(workspace_dir, "IDENTITY.md", to_owned_string(ADMIN_IDENTITY)));
    files.push(persona_file(workspace_dir, "SOUL.md", to_owned_string(ADMIN_SOUL)));
    files.push(persona_file(workspace_dir, "AGENTS.md", to_owned_string(ADMIN_AGENTS)));
    files.push(
        persona_file(
            workspace_dir,
            "skills/admin_company_designer/SKILL.md",
            to_owned_string(ADMIN_DESIGNER_SKILL),
        ),
    );
    files.push(
        persona_file(
            workspace_dir,
            "skills/admin_company_designer/ceo_agents_template.md",
            to_owned_string(ADMIN_DESIGNER_CEO_AGENTS_TEMPLATE),
        ),
    );
    assert(file_views(files@) =~= admin_files_spec(workspace_dir@));
    files
}

} // verus!
