//! Entity tool allowlist policy shared by `create_company` and
//! `create_entity`: the assignable tool catalog, tiers, role-based default
//! packs and normalization.
//!
//! Tiers: `Standard` tools may be granted to any entity; `ElevatedDevOnly`
//! tools (e.g. `shell`) only when the role reads as development work.

use vstd::prelude::*;
use crate::text::opt_str;
use vstd::string::*;
use crate::json::{json_str, Json, JsonValue};
use crate::text::{
    chars_of, has_sub, lower, lower_vec, push_str, str_eq, str_trim, to_owned_string, trim,
    vec_has_sub, views,
};

verus! {

/// Risk tier of an assignable tool.
#[derive(Debug, Clone, Copy, PartialEq, Eq, Structural)]
pub enum EntitySkillTier {
    /// Safe defaults for most roles.
    Standard,
    /// High-risk; only for dev-like roles (see `role_allows_elevated_skills`).
    ElevatedDevOnly,
}

/// One tool an entity may be granted.
#[derive(Debug, Clone)]
pub struct AssignableSkillEntry {
    pub name: &'static str,
    pub description: &'static str,
    pub tier: EntitySkillTier,
    pub policy_note: &'static str,
}

pub struct AssignableSkillEntryView {
    pub name: Seq<char>,
    pub description: Seq<char>,
    pub tier: EntitySkillTier,
    pub policy_note: Seq<char>,
}

impl View for AssignableSkillEntry {
    type V = AssignableSkillEntryView;

    open spec fn view(&self) -> AssignableSkillEntryView {
        AssignableSkillEntryView {
            name: self.name@,
            description: self.description@,
            tier: self.tier,
            policy_note: self.policy_note@,
        }
    }
}

/// One tool that is not an entity skill.
#[derive(Debug, Clone)]
pub struct NonAssignableToolEntry {
    pub name: &'static str,
    pub description: &'static str,
    pub audience: &'static str,
}

pub struct NonAssignableToolEntryView {
    pub name: Seq<char>,
    pub description: Seq<char>,
    pub audience: Seq<char>,
}

impl View for NonAssignableToolEntry {
    type V = NonAssignableToolEntryView;

    open spec fn view(&self) -> NonAssignableToolEntryView {
        NonAssignableToolEntryView {
            name: self.name@,
            description: self.description@,
            audience: self.audience@,
        }
    }
}

pub open spec fn assignable_entry_views(v: Seq<AssignableSkillEntry>) -> Seq<AssignableSkillEntryView> {
    Seq::new(v.len(), |i: int| v[i]@)
}

pub open spec fn non_assignable_entry_views(v: Seq<NonAssignableToolEntry>) -> Seq<NonAssignableToolEntryView> {
    Seq::new(v.len(), |i: int| v[i]@)
}

/// The assignable tool catalog, as data.
pub open spec fn assignable_catalog_spec() -> Seq<AssignableSkillEntryView> {
    seq![
        AssignableSkillEntryView { name: "file_read"@, description: "Read files within workspace/policy."@, tier: EntitySkillTier::Standard, policy_note: "Typical for all roles."@ },
        AssignableSkillEntryView { name: "file_write"@, description: "Write/create files within workspace/policy."@, tier: EntitySkillTier::Standard, policy_note: "Typical for all roles."@ },
        AssignableSkillEntryView { name: "file_edit"@, description: "Search/replace style edits in files."@, tier: EntitySkillTier::Standard, policy_note: "Typical for all roles."@ },
        AssignableSkillEntryView { name: "glob_search"@, description: "Search file paths by glob patterns."@, tier: EntitySkillTier::Standard, policy_note: "Typical for all roles."@ },
        AssignableSkillEntryView { name: "content_search"@, description: "Search file contents (ripgrep-style)."@, tier: EntitySkillTier::Standard, policy_note: "Typical for all roles."@ },
        AssignableSkillEntryView { name: "memory_store"@, description: "Store entries in the configured memory backend."@, tier: EntitySkillTier::Standard, policy_note: "Typical for all roles."@ },
        AssignableSkillEntryView { name: "memory_recall"@, description: "Recall from memory."@, tier: EntitySkillTier::Standard, policy_note: "Typical for all roles."@ },
        AssignableSkillEntryView { name: "memory_forget"@, description: "Remove or redact memory entries."@, tier: EntitySkillTier::Standard, policy_note: "Typical for all roles."@ },
        AssignableSkillEntryView { name: "schedule"@, description: "Schedule reminders / timed tasks."@, tier: EntitySkillTier::Standard, policy_note: "Typical for all roles."@ },
        AssignableSkillEntryView { name: "web_search_tool"@, description: "Web search (when enabled in config)."@, tier: EntitySkillTier::Standard, policy_note: "Runtime may omit if disabled."@ },
        AssignableSkillEntryView { name: "web_fetch"@, description: "Fetch remote URLs (allowlist policy)."@, tier: EntitySkillTier::Standard, policy_note: "Runtime may omit if disabled."@ },
        AssignableSkillEntryView { name: "http_request"@, description: "HTTP client (allowlist policy)."@, tier: EntitySkillTier::Standard, policy_note: "Runtime may omit if disabled."@ },
        AssignableSkillEntryView { name: "image_info"@, description: "Image metadata / vision helper."@, tier: EntitySkillTier::Standard, policy_note: "Typical for all roles."@ },
        AssignableSkillEntryView { name: "pdf_read"@, description: "Read text from PDFs."@, tier: EntitySkillTier::Standard, policy_note: "Typical for all roles."@ },
        AssignableSkillEntryView { name: "shell"@, description: "Execute shell commands (policy-gated at runtime)."@, tier: EntitySkillTier::ElevatedDevOnly, policy_note: "Only for development/engineering-like roles; assign via Admin (create_company) or CEO (create_entity). Not for generic business roles."@ },
        AssignableSkillEntryView { name: "skill_index"@, description: "List skill packages under workspace/skills and the shared skills directory."@, tier: EntitySkillTier::Standard, policy_note: "Typical when using skill packs."@ },
        AssignableSkillEntryView { name: "load_skill"@, description: "Read SKILL.md / SKILL.toml for an allowed skill package id."@, tier: EntitySkillTier::Standard, policy_note: "Requires skill_id in entities[].skill_allowlist (or CEO policy for ceo)."@ },
        AssignableSkillEntryView { name: "clawhub_search"@, description: "Search ClawHub registry (requires [skills.clawhub] enabled)."@, tier: EntitySkillTier::Standard, policy_note: "Omitted at runtime when ClawHub is disabled."@ },
        AssignableSkillEntryView { name: "clawhub_explore"@, description: "Browse recent skills on ClawHub (requires [skills.clawhub] enabled)."@, tier: EntitySkillTier::Standard, policy_note: "Omitted at runtime when ClawHub is disabled."@ },
    ]
}

/// Static catalog of the tools an entity may be granted (the names match
/// the runtime tool names).
pub fn assignable_skill_catalog() -> (r: Vec<AssignableSkillEntry>)
    ensures
        assignable_entry_views(r@) == assignable_catalog_spec(),
{
    let mut r: Vec<AssignableSkillEntry> = Vec::new();
    r.push(AssignableSkillEntry { name: "file_read", description: "Read files within workspace/policy.", tier: EntitySkillTier::Standard, policy_note: "Typical for all roles." });
    r.push(AssignableSkillEntry { name: "file_write", description: "Write/create files within workspace/policy.", tier: EntitySkillTier::Standard, policy_note: "Typical for all roles." });
    r.push(AssignableSkillEntry { name: "file_edit", description: "Search/replace style edits in files.", tier: EntitySkillTier::Standard, policy_note: "Typical for all roles." });
    r.push(AssignableSkillEntry { name: "glob_search", description: "Search file paths by glob patterns.", tier: EntitySkillTier::Standard, policy_note: "Typical for all roles." });
    r.push(AssignableSkillEntry { name: "content_search", description: "Search file contents (ripgrep-style).", tier: EntitySkillTier::Standard, policy_note: "Typical for all roles." });
    r.push(AssignableSkillEntry { name: "memory_store", description: "Store entries in the configured memory backend.", tier: EntitySkillTier::Standard, policy_note: "Typical for all roles." });
    r.push(AssignableSkillEntry { name: "memory_recall", description: "Recall from memory.", tier: EntitySkillTier::Standard, policy_note: "Typical for all roles." });
    r.push(AssignableSkillEntry { name: "memory_forget", description: "Remove or redact memory entries.", tier: EntitySkillTier::Standard, policy_note: "Typical for all roles." });
    r.push(AssignableSkillEntry { name: "schedule", description: "Schedule reminders / timed tasks.", tier: EntitySkillTier::Standard, policy_note: "Typical for all roles." });
    r.push(AssignableSkillEntry { name: "web_search_tool", description: "Web search (when enabled in config).", tier: EntitySkillTier::Standard, policy_note: "Runtime may omit if disabled." });
    r.push(AssignableSkillEntry { name: "web_fetch", description: "Fetch remote URLs (allowlist policy).", tier: EntitySkillTier::Standard, policy_note: "Runtime may omit if disabled." });
    r.push(AssignableSkillEntry { name: "http_request", description: "HTTP client (allowlist policy).", tier: EntitySkillTier::Standard, policy_note: "Runtime may omit if disabled." });
    r.push(AssignableSkillEntry { name: "image_info", description: "Image metadata / vision helper.", tier: EntitySkillTier::Standard, policy_note: "Typical for all roles." });
    r.push(AssignableSkillEntry { name: "pdf_read", description: "Read text from PDFs.", tier: EntitySkillTier::Standard, policy_note: "Typical for all roles." });
    r.push(AssignableSkillEntry { name: "shell", description: "Execute shell commands (policy-gated at runtime).", tier: EntitySkillTier::ElevatedDevOnly, policy_note: "Only for development/engineering-like roles; assign via Admin (create_company) or CEO (create_entity). Not for generic business roles." });
    r.push(AssignableSkillEntry { name: "skill_index", description: "List skill packages under workspace/skills and the shared skills directory.", tier: EntitySkillTier::Standard, policy_note: "Typical when using skill packs." });
    r.push(AssignableSkillEntry { name: "load_skill", description: "Read SKILL.md / SKILL.toml for an allowed skill package id.", tier: EntitySkillTier::Standard, policy_note: "Requires skill_id in entities[].skill_allowlist (or CEO policy for ceo)." });
    r.push(AssignableSkillEntry { name: "clawhub_search", description: "Search ClawHub registry (requires [skills.clawhub] enabled).", tier: EntitySkillTier::Standard, policy_note: "Omitted at runtime when ClawHub is disabled." });
    r.push(AssignableSkillEntry { name: "clawhub_explore", description: "Browse recent skills on ClawHub (requires [skills.clawhub] enabled).", tier: EntitySkillTier::Standard, policy_note: "Omitted at runtime when ClawHub is disabled." });
    assert(assignable_entry_views(r@) =~= assignable_catalog_spec());
    r
}

/// The catalog of tools that are not entity skills, as data.
pub open spec fn non_assignable_catalog_spec() -> Seq<NonAssignableToolEntryView> {
    seq![
        NonAssignableToolEntryView { name: "create_company"@, description: "Create cluster company/instance (admin)."@, audience: "admin_instance_only"@ },
        NonAssignableToolEntryView { name: "instance_status"@, description: "List entities/teams in this instance."@, audience: "ceo_only"@ },
        NonAssignableToolEntryView { name: "create_entity"@, description: "Add an entity under this instance."@, audience: "ceo_only"@ },
        NonAssignableToolEntryView { name: "create_team"@, description: "Add a team under this instance."@, audience: "ceo_only"@ },
        NonAssignableToolEntryView { name: "assign_task"@, description: "Assign work to an entity."@, audience: "ceo_only"@ },
        NonAssignableToolEntryView { name: "ceo_skill_grant"@, description: "Grant a skill package id to an entity skill_allowlist."@, audience: "ceo_only"@ },
        NonAssignableToolEntryView { name: "clawhub_import_global"@, description: "Download and audit a skill from ClawHub into the shared skills store."@, audience: "ceo_only"@ },
        NonAssignableToolEntryView { name: "admin_skill_remove"@, description: "Remove a skill from the shared skills directory."@, audience: "ceo_only"@ },
        NonAssignableToolEntryView { name: "delegate"@, description: "Delegate to sub-agents."@, audience: "not_entity_skill"@ },
        NonAssignableToolEntryView { name: "tool_inventory"@, description: "This catalog query tool."@, audience: "meta_not_entity_skill"@ },
    ]
}

/// Tools that are not valid in an entity's tool allowlist (instance- or
/// role-bound tools).
pub fn non_assignable_tool_catalog() -> (r: Vec<NonAssignableToolEntry>)
    ensures
        non_assignable_entry_views(r@) == non_assignable_catalog_spec(),
{
    let mut r: Vec<NonAssignableToolEntry> = Vec::new();
    r.push(NonAssignableToolEntry { name: "create_company", description: "Create cluster company/instance (admin).", audience: "admin_instance_only" });
    r.push(NonAssignableToolEntry { name: "instance_status", description: "List entities/teams in this instance.", audience: "ceo_only" });
    r.push(NonAssignableToolEntry { name: "create_entity", description: "Add an entity under this instance.", audience: "ceo_only" });
    r.push(NonAssignableToolEntry { name: "create_team", description: "Add a team under this instance.", audience: "ceo_only" });
    r.push(NonAssignableToolEntry { name: "assign_task", description: "Assign work to an entity.", audience: "ceo_only" });
    r.push(NonAssignableToolEntry { name: "ceo_skill_grant", description: "Grant a skill package id to an entity skill_allowlist.", audience: "ceo_only" });
    r.push(NonAssignableToolEntry { name: "clawhub_import_global", description: "Download and audit a skill from ClawHub into the shared skills store.", audience: "ceo_only" });
    r.push(NonAssignableToolEntry { name: "admin_skill_remove", description: "Remove a skill from the shared skills directory.", audience: "ceo_only" });
    r.push(NonAssignableToolEntry { name: "delegate", description: "Delegate to sub-agents.", audience: "not_entity_skill" });
    r.push(NonAssignableToolEntry { name: "tool_inventory", description: "This catalog query tool.", audience: "meta_not_entity_skill" });
    assert(non_assignable_entry_views(r@) =~= non_assignable_catalog_spec());
    r
}

/// The names of the assignable tools, in catalog order.
pub open spec fn assignable_names() -> Seq<Seq<char>> {
    Seq::new(assignable_catalog_spec().len(), |i: int| assignable_catalog_spec()[i].name)
}

/// The names of the assignable tools.
pub fn assignable_names_set() -> (r: Vec<&'static str>)
    ensures
        r@.len() == assignable_names().len(),
        forall|i: int| 0 <= i < r@.len() ==> #[trigger] r@[i]@ == assignable_names()[i],
{
    let catalog = assignable_skill_catalog();
    let mut r: Vec<&'static str> = Vec::new();
    let mut i: usize = 0;
    while i < catalog.len()
        invariant
            assignable_entry_views(catalog@) == assignable_catalog_spec(),
            i <= catalog@.len(),
            r@.len() == i,
            forall|k: int| 0 <= k < i ==> #[trigger] r@[k]@ == assignable_names()[k],
        decreases catalog.len() - i,
    {
        assert(assignable_entry_views(catalog@)[i as int] == catalog@[i as int]@);
        r.push(catalog[i].name);
        i = i + 1;
    }
    r
}

/// The tier of the first catalog entry named `name`, if any.
pub open spec fn find_tier(cat: Seq<AssignableSkillEntryView>, name: Seq<char>) -> Option<EntitySkillTier>
    decreases cat.len(),
{
    if cat.len() == 0 {
        None
    } else if cat[0].name == name {
        Some(cat[0].tier)
    } else {
        find_tier(cat.drop_first(), name)
    }
}

/// The tier of an assignable tool; `None` for a name outside the catalog.
pub open spec fn catalog_tier(name: Seq<char>) -> Option<EntitySkillTier> {
    find_tier(assignable_catalog_spec(), name)
}

/// The tier of the tool named `name`, `None` when it is not assignable.
pub fn tier_for_skill(name: &str) -> (r: Option<EntitySkillTier>)
    ensures
        r == catalog_tier(name@),
{
    let catalog = assignable_skill_catalog();
    let ghost cat = assignable_catalog_spec();
    let mut i: usize = 0;
    assert(cat.subrange(0, cat.len() as int) =~= cat);
    while i < catalog.len()
        invariant
            assignable_entry_views(catalog@) == cat,
            cat == assignable_catalog_spec(),
            cat.len() == catalog@.len(),
            i <= cat.len(),
            find_tier(cat, name@) == find_tier(cat.subrange(i as int, cat.len() as int), name@),
        decreases catalog.len() - i,
    {
        let e = &catalog[i];
        assert(cat[i as int] == e@);
        assert(cat.subrange(i as int, cat.len() as int)[0] == e@);
        if str_eq(e.name, name) {
            return Some(e.tier);
        }
        assert(cat.subrange(i as int, cat.len() as int).drop_first() =~= cat.subrange(
            i + 1,
            cat.len() as int,
        ));
        i = i + 1;
    }
    None
}

/// The role text, or the empty text when there is none.
pub open spec fn role_text(role: Option<Seq<char>>) -> Seq<char> {
    match role {
        Some(r) => r,
        None => Seq::empty(),
    }
}

/// The role reads as development / automation / build work, which may be
/// granted `Elevated` tools such as `shell`.
pub open spec fn elevated_role(role: Option<Seq<char>>) -> bool {
    let r = lower(role_text(role));
    ||| has_sub(r, "开发"@)
    ||| has_sub(r, "dev"@)
    ||| has_sub(r, "engineer"@)
    ||| has_sub(r, "工程师"@)
    ||| has_sub(r, "sre"@)
    ||| has_sub(r, "backend"@)
    ||| has_sub(r, "frontend"@)
    ||| has_sub(r, "fullstack"@)
    ||| has_sub(r, "构建"@)
    ||| has_sub(r, "自动化"@)
    ||| has_sub(r, "脚本"@)
}

fn lowered_role(role: Option<&str>) -> (r: Vec<char>)
    ensures
        r@ == lower(role_text(opt_str(role))),
{
    let text = match role {
        Some(x) => x,
        None => "",
    };
    proof {
        reveal_strlit("");
    }
    assert(text@ == role_text(opt_str(role)));
    lower_vec(&chars_of(text))
}

fn has_keyword(r: &Vec<char>, keyword: &str) -> (b: bool)
    ensures
        b == has_sub(r@, keyword@),
{
    vec_has_sub(r, &chars_of(keyword))
}

/// Heuristic: the role suggests development / automation / build work
/// suitable for `shell`.
pub fn role_allows_elevated_skills(role: Option<&str>) -> (b: bool)
    ensures
        b == elevated_role(opt_str(role)),
{
    let r = lowered_role(role);
    has_keyword(&r, "开发") || has_keyword(&r, "dev") || has_keyword(&r, "engineer") || has_keyword(
        &r,
        "工程师",
    ) || has_keyword(&r, "sre") || has_keyword(&r, "backend") || has_keyword(&r, "frontend")
        || has_keyword(&r, "fullstack") || has_keyword(&r, "构建") || has_keyword(&r, "自动化")
        || has_keyword(&r, "脚本")
}

pub open spec fn growth_pack() -> Seq<Seq<char>> {
    seq![
        "memory_recall"@,
        "memory_store"@,
        "file_read"@,
        "file_write"@,
        "web_search_tool"@,
        "content_search"@,
    ]
}

pub open spec fn design_pack() -> Seq<Seq<char>> {
    seq!["file_read"@, "file_write"@, "file_edit"@, "image_info"@, "memory_recall"@, "memory_store"@]
}

pub open spec fn content_pack() -> Seq<Seq<char>> {
    seq![
        "file_read"@,
        "file_write"@,
        "file_edit"@,
        "memory_recall"@,
        "memory_store"@,
        "web_search_tool"@,
    ]
}

pub open spec fn ops_pack() -> Seq<Seq<char>> {
    seq!["memory_recall"@, "memory_store"@, "file_read"@, "file_write"@, "schedule"@]
}

/// The minimal pack: read/write files and recall memory.
pub open spec fn minimal_pack() -> Seq<Seq<char>> {
    seq!["file_read"@, "file_write"@, "memory_recall"@]
}

/// Default tool pack by role keyword, checked in the order growth, design,
/// content, operations.
pub open spec fn role_pack(role: Option<Seq<char>>) -> Option<Seq<Seq<char>>> {
    let r = lower(role_text(role));
    if has_sub(r, "增长"@) || has_sub(r, "growth"@) {
        Some(growth_pack())
    } else if has_sub(r, "设计"@) || has_sub(r, "design"@) {
        Some(design_pack())
    } else if has_sub(r, "内容"@) || has_sub(r, "content"@) {
        Some(content_pack())
    } else if has_sub(r, "运营"@) || has_sub(r, "ops"@) {
        Some(ops_pack())
    } else {
        None
    }
}

fn strings_of(items: &[&str]) -> (r: Vec<String>)
    ensures
        r@.len() == items@.len(),
        forall|i: int| 0 <= i < items@.len() ==> #[trigger] r@[i]@ == items@[i]@,
{
    let mut r: Vec<String> = Vec::new();
    let mut i: usize = 0;
    while i < items.len()
        invariant
            i <= items@.len(),
            r@.len() == i,
            forall|k: int| 0 <= k < i ==> #[trigger] r@[k]@ == items@[k]@,
        decreases items.len() - i,
    {
        r.push(items[i].to_owned());
        i = i + 1;
    }
    r
}

/// Default tool pack by role keyword, when the caller gave no tool list.
pub fn role_based_default_skills(role: Option<&str>) -> (r: Option<Vec<String>>)
    ensures
        match r {
            Some(v) => role_pack(opt_str(role)) == Some(views(v@)),
            None => role_pack(opt_str(role)) is None,
        },
{
    let r = lowered_role(role);
    if has_keyword(&r, "增长") || has_keyword(&r, "growth") {
        let v = strings_of(
            &[
                "memory_recall",
                "memory_store",
                "file_read",
                "file_write",
                "web_search_tool",
                "content_search",
            ],
        );
        assert(views(v@) =~= growth_pack());
        return Some(v);
    }
    if has_keyword(&r, "设计") || has_keyword(&r, "design") {
        let v = strings_of(
            &["file_read", "file_write", "file_edit", "image_info", "memory_recall", "memory_store"],
        );
        assert(views(v@) =~= design_pack());
        return Some(v);
    }
    if has_keyword(&r, "内容") || has_keyword(&r, "content") {
        let v = strings_of(
            &[
                "file_read",
                "file_write",
                "file_edit",
                "memory_recall",
                "memory_store",
                "web_search_tool",
            ],
        );
        assert(views(v@) =~= content_pack());
        return Some(v);
    }
    if has_keyword(&r, "运营") || has_keyword(&r, "ops") {
        let v = strings_of(&["memory_recall", "memory_store", "file_read", "file_write", "schedule"]);
        assert(views(v@) =~= ops_pack());
        return Some(v);
    }
    None
}

fn default_skills_minimal() -> (r: Vec<String>)
    ensures
        views(r@) == minimal_pack(),
{
    let v = strings_of(&["file_read", "file_write", "memory_recall"]);
    assert(views(v@) =~= minimal_pack());
    v
}

/// The role pack, else the minimal pack.
pub open spec fn role_pack_or_minimal(role: Option<Seq<char>>) -> Seq<Seq<char>> {
    match role_pack(role) {
        Some(p) => p,
        None => minimal_pack(),
    }
}

/// Default pack when no tool list was given: the role pack, else the
/// minimal pack (never empty).
pub fn role_based_default_skills_or_minimal(role: Option<&str>) -> (r: Vec<String>)
    ensures
        views(r@) == role_pack_or_minimal(opt_str(role)),
{
    match role_based_default_skills(role) {
        Some(v) => v,
        None => default_skills_minimal(),
    }
}

/// Why a tool list was refused.
#[derive(Debug, Clone, PartialEq, Eq)]
pub enum SkillListError {
    /// The name is not in the assignable catalog.
    NotAssignable(String),
    /// The tool is elevated and the role does not read as development work.
    ElevatedRequiresDevRole(String),
}

pub enum SkillListErrorView {
    NotAssignable(Seq<char>),
    ElevatedRequiresDevRole(Seq<char>),
}

impl View for SkillListError {
    type V = SkillListErrorView;

    open spec fn view(&self) -> SkillListErrorView {
        match self {
            SkillListError::NotAssignable(s) => SkillListErrorView::NotAssignable(s@),
            SkillListError::ElevatedRequiresDevRole(s) => SkillListErrorView::ElevatedRequiresDevRole(
                s@,
            ),
        }
    }
}

pub open spec fn not_assignable_message(skill: Seq<char>) -> Seq<char> {
    "invalid entity tool '"@ + skill
        + "': use only assignable tool names from tool_inventory (Standard/Elevated tiers); business labels are not allowed"@
}

pub open spec fn elevated_message(skill: Seq<char>) -> Seq<char> {
    "entity tool '"@ + skill
        + "' is elevated (high-risk): assign only to development/engineering-like roles (clear role text, e.g. 开发/工程师/dev). Others: omit this tool."@
}

/// The text of a refusal.
pub open spec fn error_message(e: SkillListErrorView) -> Seq<char> {
    match e {
        SkillListErrorView::NotAssignable(s) => not_assignable_message(s),
        SkillListErrorView::ElevatedRequiresDevRole(s) => elevated_message(s),
    }
}

impl SkillListError {
    pub open spec fn message_spec(&self) -> Seq<char> {
        error_message(self@)
    }

    /// The error text.
    pub fn message(&self) -> (r: String)
        ensures
            r@ == self.message_spec(),
    {
        match self {
            SkillListError::NotAssignable(s) => {
                let mut r = to_owned_string("invalid entity tool '");
                r.append(s.as_str());
                r.append(
                    "': use only assignable tool names from tool_inventory (Standard/Elevated tiers); business labels are not allowed",
                );
                r
            },
            SkillListError::ElevatedRequiresDevRole(s) => {
                let mut r = to_owned_string("entity tool '");
                r.append(s.as_str());
                r.append(
                    "' is elevated (high-risk): assign only to development/engineering-like roles (clear role text, e.g. 开发/工程师/dev). Others: omit this tool.",
                );
                r
            },
        }
    }
}

/// `acc` prepended to a successful result; errors pass through.
pub open spec fn prepend(acc: Seq<Seq<char>>, r: Result<Seq<Seq<char>>, SkillListErrorView>) -> Result<
    Seq<Seq<char>>,
    SkillListErrorView,
> {
    match r {
        Ok(v) => Ok(acc + v),
        Err(e) => Err(e),
    }
}

/// Normalization of a tool list: each name is trimmed; empty names are
/// dropped; the first name outside the catalog, or the first elevated name
/// when the role does not allow it, refuses the whole list.
pub open spec fn normalize_spec(src: Seq<Seq<char>>, role_ok: bool) -> Result<
    Seq<Seq<char>>,
    SkillListErrorView,
>
    decreases src.len(),
{
    if src.len() == 0 {
        Ok(Seq::empty())
    } else {
        let t = trim(src[0]);
        let rest = normalize_spec(src.drop_first(), role_ok);
        if t.len() == 0 {
            rest
        } else {
            match catalog_tier(t) {
                None => Err(SkillListErrorView::NotAssignable(t)),
                Some(tier) => {
                    if tier == EntitySkillTier::ElevatedDevOnly && !role_ok {
                        Err(SkillListErrorView::ElevatedRequiresDevRole(t))
                    } else {
                        prepend(seq![t], rest)
                    }
                },
            }
        }
    }
}

/// A normalized tool list names only assignable tools, and names no
/// elevated tool unless the role allows it.
pub proof fn law_normalized_tools_assignable(src: Seq<Seq<char>>, role_ok: bool)
    ensures
        normalize_spec(src, role_ok) matches Ok(v) ==> forall|i: int| 0 <= i < v.len() ==> {
            &&& #[trigger] catalog_tier(v[i]) is Some
            &&& !role_ok ==> catalog_tier(v[i]) == Some(EntitySkillTier::Standard)
        },
    decreases src.len(),
{
    if src.len() > 0 {
        law_normalized_tools_assignable(src.drop_first(), role_ok);
        let t = trim(src[0]);
        if let Ok(v) = normalize_spec(src, role_ok) {
            if t.len() > 0 {
                let rest = normalize_spec(src.drop_first(), role_ok)->Ok_0;
                assert(v =~= seq![t] + rest);
                assert forall|i: int| 0 <= i < v.len() implies {
                    &&& #[trigger] catalog_tier(v[i]) is Some
                    &&& !role_ok ==> catalog_tier(v[i]) == Some(EntitySkillTier::Standard)
                } by {
                    if i > 0 {
                        assert(v[i] == rest[i - 1]);
                    } else {
                        let tier = catalog_tier(t)->Some_0;
                        if tier == EntitySkillTier::ElevatedDevOnly {
                            assert(role_ok);
                        }
                    }
                }
            }
        }
    }
}

/// Normalizing a normalized tool list gives it back unchanged.
pub proof fn law_normalize_idempotent(src: Seq<Seq<char>>, role_ok: bool)
    ensures
        normalize_spec(src, role_ok) matches Ok(v) ==> normalize_spec(v, role_ok) == Ok::<
            Seq<Seq<char>>,
            SkillListErrorView,
        >(v),
    decreases src.len(),
{
    if src.len() > 0 {
        law_normalize_idempotent(src.drop_first(), role_ok);
        let t = trim(src[0]);
        if let Ok(v) = normalize_spec(src, role_ok) {
            if t.len() > 0 {
                let rest = normalize_spec(src.drop_first(), role_ok)->Ok_0;
                assert(v =~= seq![t] + rest);
                crate::text::lemma_trim_idempotent(src[0]);
                assert(v[0] == t);
                assert(v.drop_first() =~= rest);
                assert(trim(v[0]) == t);
            }
        }
    } else {
        assert(normalize_spec(Seq::<Seq<char>>::empty(), role_ok) == Ok::<
            Seq<Seq<char>>,
            SkillListErrorView,
        >(Seq::empty()));
    }
}

/// A name that normalization keeps as it is: non-empty, without surrounding
/// white space, and a standard tool of the catalog.
pub open spec fn standard_tool_name(name: Seq<char>) -> bool {
    &&& name.len() > 0
    &&& trim(name) == name
    &&& catalog_tier(name) == Some(EntitySkillTier::Standard)
}

proof fn lemma_standard_names_normalize(src: Seq<Seq<char>>, role_ok: bool)
    requires
        forall|i: int| 0 <= i < src.len() ==> #[trigger] standard_tool_name(src[i]),
    ensures
        normalize_spec(src, role_ok) == Ok::<Seq<Seq<char>>, SkillListErrorView>(src),
    decreases src.len(),
{
    if src.len() > 0 {
        assert(standard_tool_name(src[0]));
        assert forall|i: int| 0 <= i < src.drop_first().len() implies #[trigger] standard_tool_name(
            src.drop_first()[i],
        ) by {
            assert(standard_tool_name(src[i + 1]));
        }
        lemma_standard_names_normalize(src.drop_first(), role_ok);
        assert(seq![src[0]] + src.drop_first() =~= src);
    } else {
        assert(src =~= Seq::<Seq<char>>::empty());
    }
}

proof fn lemma_pack_names_standard()
    ensures
        standard_tool_name("memory_recall"@),
        standard_tool_name("memory_store"@),
        standard_tool_name("file_read"@),
        standard_tool_name("file_write"@),
        standard_tool_name("file_edit"@),
        standard_tool_name("web_search_tool"@),
        standard_tool_name("content_search"@),
        standard_tool_name("image_info"@),
        standard_tool_name("schedule"@),
{
    reveal_strlit("file_read");
    reveal_strlit("file_write");
    reveal_strlit("file_edit");
    reveal_strlit("glob_search");
    reveal_strlit("content_search");
    reveal_strlit("memory_store");
    reveal_strlit("memory_recall");
    reveal_strlit("memory_forget");
    reveal_strlit("schedule");
    reveal_strlit("web_search_tool");
    reveal_strlit("web_fetch");
    reveal_strlit("http_request");
    reveal_strlit("image_info");
    reveal_with_fuel(find_tier, 14);
}

/// Law: the default tools of a role follow its keywords, looked up in the
/// lower-cased role text in this order: growth (`增长`, `growth`), design
/// (`设计`, `design`), content (`内容`, `content`), operations (`运营`,
/// `ops`); a role with none of them (or no role) gets the minimal tools.
pub proof fn law_role_keywords_pick_default_tools(role: Option<Seq<char>>)
    ensures
        ({
            let r = lower(role_text(role));
            let growth = has_sub(r, "增长"@) || has_sub(r, "growth"@);
            let design = has_sub(r, "设计"@) || has_sub(r, "design"@);
            let content = has_sub(r, "内容"@) || has_sub(r, "content"@);
            let ops = has_sub(r, "运营"@) || has_sub(r, "ops"@);
            &&& growth ==> role_pack(role) == Some(
                seq![
                    "memory_recall"@,
                    "memory_store"@,
                    "file_read"@,
                    "file_write"@,
                    "web_search_tool"@,
                    "content_search"@,
                ],
            )
            &&& !growth && design ==> role_pack(role) == Some(
                seq![
                    "file_read"@,
                    "file_write"@,
                    "file_edit"@,
                    "image_info"@,
                    "memory_recall"@,
                    "memory_store"@,
                ],
            )
            &&& !growth && !design && content ==> role_pack(role) == Some(
                seq![
                    "file_read"@,
                    "file_write"@,
                    "file_edit"@,
                    "memory_recall"@,
                    "memory_store"@,
                    "web_search_tool"@,
                ],
            )
            &&& !growth && !design && !content && ops ==> role_pack(role) == Some(
                seq!["memory_recall"@, "memory_store"@, "file_read"@, "file_write"@, "schedule"@],
            )
            &&& (growth || design || content || ops) ==> role_pack_or_minimal(role)
                == role_pack(role)->Some_0
            &&& !growth && !design && !content && !ops ==> role_pack(role) is None
                && role_pack_or_minimal(role) == seq!["file_read"@, "file_write"@, "memory_recall"@]
        }),
{
}

/// Every role's default tool pack (its role pack, else the minimal pack)
/// passes normalization unchanged, whether or not the role may hold
/// elevated tools: the defaults name only standard catalog tools.
pub proof fn law_role_pack_normalizes_unchanged(role: Option<Seq<char>>, role_ok: bool)
    ensures
        normalize_spec(role_pack_or_minimal(role), role_ok) == Ok::<
            Seq<Seq<char>>,
            SkillListErrorView,
        >(role_pack_or_minimal(role)),
{
    lemma_pack_names_standard();
    let p = role_pack_or_minimal(role);
    assert forall|i: int| 0 <= i < p.len() implies #[trigger] standard_tool_name(p[i]) by {}
    lemma_standard_names_normalize(p, role_ok);
}

/// The result of normalizing, by views.
pub open spec fn result_view(r: Result<Vec<String>, SkillListError>) -> Result<
    Seq<Seq<char>>,
    SkillListErrorView,
> {
    match r {
        Ok(v) => Ok(views(v@)),
        Err(e) => Err(e@),
    }
}

fn normalize_skill_list(source: Vec<String>, role: Option<&str>) -> (r: Result<Vec<String>, SkillListError>)
    ensures
        result_view(r) == normalize_spec(views(source@), elevated_role(opt_str(role))),
{
    let role_ok = role_allows_elevated_skills(role);
    let ghost src = views(source@);
    let mut normalized: Vec<String> = Vec::new();
    let mut i: usize = 0;
    assert(src.subrange(0, src.len() as int) =~= src);
    assert(views(normalized@) =~= Seq::<Seq<char>>::empty());
    while i < source.len()
        invariant
            src == views(source@),
            i <= source@.len(),
            role_ok == elevated_role(opt_str(role)),
            normalize_spec(src, role_ok) == prepend(
                views(normalized@),
                normalize_spec(src.subrange(i as int, src.len() as int), role_ok),
            ),
        decreases source.len() - i,
    {
        let ghost sub = src.subrange(i as int, src.len() as int);
        assert(sub.drop_first() =~= src.subrange(i + 1, src.len() as int));
        assert(sub[0] == source@[i as int]@);
        let skill = str_trim(source[i].as_str());
        if skill.is_empty() {
            i = i + 1;
            continue;
        }
        match tier_for_skill(skill) {
            None => {
                return Err(SkillListError::NotAssignable(skill.to_owned()));
            },
            Some(tier) => {
                if tier == EntitySkillTier::ElevatedDevOnly && !role_ok {
                    return Err(SkillListError::ElevatedRequiresDevRole(skill.to_owned()));
                }
            },
        }
        let ghost before = views(normalized@);
        push_str(&mut normalized, skill);
        assert(before + (seq![skill@] + normalize_spec(src.subrange(i + 1, src.len() as int), role_ok)->Ok_0) =~= views(normalized@) + normalize_spec(src.subrange(i + 1, src.len() as int), role_ok)->Ok_0);
        i = i + 1;
    }
    assert(normalize_spec(src.subrange(i as int, src.len() as int), role_ok) == Ok::<
        Seq<Seq<char>>,
        SkillListErrorView,
    >(Seq::empty()));
    assert(views(normalized@) + Seq::<Seq<char>>::empty() =~= views(normalized@));
    Ok(normalized)
}

/// Tool list of a company draft entity: the given list, else the role pack,
/// else the minimal pack; then normalized.
pub fn normalize_entity_tool_allowlist_for_company(
    tool_allowlist: Option<Vec<String>>,
    role: Option<&str>,
) -> (r: Result<Vec<String>, SkillListError>)
    ensures
        result_view(r) == normalize_spec(
            match tool_allowlist {
                Some(v) => views(v@),
                None => role_pack_or_minimal(opt_str(role)),
            },
            elevated_role(opt_str(role)),
        ),
{
    let source = match tool_allowlist {
        Some(v) => v,
        None => match role_based_default_skills(role) {
            Some(v) => v,
            None => default_skills_minimal(),
        },
    };
    normalize_skill_list(source, role)
}

/// Tool list of an entity created by the CEO: the given list, else the role
/// pack or minimal pack; then normalized.
pub fn normalize_entity_tool_allowlist_for_entity(
    tool_allowlist: Option<Vec<String>>,
    role: Option<&str>,
) -> (r: Result<Vec<String>, SkillListError>)
    ensures
        result_view(r) == normalize_spec(
            match tool_allowlist {
                Some(v) => views(v@),
                None => role_pack_or_minimal(opt_str(role)),
            },
            elevated_role(opt_str(role)),
        ),
{
    let source = match tool_allowlist {
        Some(v) => v,
        None => role_based_default_skills_or_minimal(role),
    };
    normalize_skill_list(source, role)
}

/// Which part of the tool catalog the inventory shows.
#[derive(Debug, Clone, Copy, PartialEq, Eq, Structural)]
pub enum ToolInventoryScope {
    /// The tools valid in an entity's tool allowlist.
    Assignable,
    /// Those, the tools that are not entity skills, and the policy notes.
    Full,
}

/// The name of a tier in documents.
pub open spec fn tier_name(t: EntitySkillTier) -> Seq<char> {
    match t {
        EntitySkillTier::Standard => "standard"@,
        EntitySkillTier::ElevatedDevOnly => "elevated_dev_only"@,
    }
}

/// An assignable entry as a JSON object.
pub open spec fn assignable_entry_json(e: AssignableSkillEntryView) -> Json {
    Json::Object(
        seq![
            ("name"@, Json::Str(e.name)),
            ("description"@, Json::Str(e.description)),
            ("tier"@, Json::Str(tier_name(e.tier))),
            ("policy_note"@, Json::Str(e.policy_note)),
        ],
    )
}

/// A non-assignable entry as a JSON object.
pub open spec fn non_assignable_entry_json(e: NonAssignableToolEntryView) -> Json {
    Json::Object(
        seq![
            ("name"@, Json::Str(e.name)),
            ("description"@, Json::Str(e.description)),
            ("audience"@, Json::Str(e.audience)),
        ],
    )
}

pub const POLICY_STANDARD: &'static str = "May appear in entities[].tool_allowlist for any role.";

pub const POLICY_ELEVATED: &'static str = "e.g. shell — only when role indicates dev/engineering work; assigned by Admin (create_company) or CEO (create_entity).";

pub const POLICY_ADMIN_TOOLS: &'static str = "create_company and other cluster-admin capabilities are not entity skills.";

pub const POLICY_CEO_TOOLS: &'static str = "create_entity, create_team, assign_task, instance_status, ceo_skill_grant, clawhub_import_global, admin_skill_remove are CEO-only (not entity tool_allowlist entries).";

/// The tool inventory document of a scope: the scope's name and the
/// assignable catalog; for `Full` also the catalog of tools that are not
/// entity skills and the policy notes.
pub open spec fn inventory_spec(scope: ToolInventoryScope) -> Json {
    let assignable = Json::Array(
        Seq::new(
            assignable_catalog_spec().len(),
            |i: int| assignable_entry_json(assignable_catalog_spec()[i]),
        ),
    );
    match scope {
        ToolInventoryScope::Assignable => Json::Object(
            seq![("scope"@, Json::Str("assignable"@)), ("entity_assignable_skills"@, assignable)],
        ),
        ToolInventoryScope::Full => Json::Object(
            seq![
                ("scope"@, Json::Str("full"@)),
                ("entity_assignable_skills"@, assignable),
                (
                    "not_assignable_to_entities"@,
                    Json::Array(
                        Seq::new(
                            non_assignable_catalog_spec().len(),
                            |i: int| non_assignable_entry_json(non_assignable_catalog_spec()[i]),
                        ),
                    ),
                ),
                (
                    "policy"@,
                    Json::Object(
                        seq![
                            ("standard"@, Json::Str(POLICY_STANDARD@)),
                            ("elevated_dev_only"@, Json::Str(POLICY_ELEVATED@)),
                            ("admin_tools"@, Json::Str(POLICY_ADMIN_TOOLS@)),
                            ("ceo_tools"@, Json::Str(POLICY_CEO_TOOLS@)),
                        ],
                    ),
                ),
            ],
        ),
    }
}

fn tier_json(t: EntitySkillTier) -> (r: JsonValue)
    ensures
        r@ == Json::Str(tier_name(t)),
{
    match t {
        EntitySkillTier::Standard => json_str("standard"),
        EntitySkillTier::ElevatedDevOnly => json_str("elevated_dev_only"),
    }
}

impl AssignableSkillEntry {
    /// This entry as a JSON object.
    pub fn to_json(&self) -> (r: JsonValue)
        ensures
            r@ == assignable_entry_json(self@),
    {
        let mut m: Vec<(String, JsonValue)> = Vec::new();
        m.push((to_owned_string("name"), json_str(self.name)));
        m.push((to_owned_string("description"), json_str(self.description)));
        m.push((to_owned_string("tier"), tier_json(self.tier)));
        m.push((to_owned_string("policy_note"), json_str(self.policy_note)));
        let r = JsonValue::Object(m);
        proof {
            assert(r@->Object_0 =~= assignable_entry_json(self@)->Object_0);
        }
        r
    }
}

impl NonAssignableToolEntry {
    /// This entry as a JSON object.
    pub fn to_json(&self) -> (r: JsonValue)
        ensures
            r@ == non_assignable_entry_json(self@),
    {
        let mut m: Vec<(String, JsonValue)> = Vec::new();
        m.push((to_owned_string("name"), json_str(self.name)));
        m.push((to_owned_string("description"), json_str(self.description)));
        m.push((to_owned_string("audience"), json_str(self.audience)));
        let r = JsonValue::Object(m);
        proof {
            assert(r@->Object_0 =~= non_assignable_entry_json(self@)->Object_0);
        }
        r
    }
}

fn assignable_json() -> (r: JsonValue)
    ensures
        r@ == inventory_spec(ToolInventoryScope::Assignable)->Object_0[1].1,
{
    let catalog = assignable_skill_catalog();
    let mut out: Vec<JsonValue> = Vec::new();
    let mut i: usize = 0;
    while i < catalog.len()
        invariant
            assignable_entry_views(catalog@) == assignable_catalog_spec(),
            i <= catalog@.len(),
            out@.len() == i,
            forall|k: int| 0 <= k < i ==> #[trigger] crate::json::json_view(out@[k])
                == assignable_entry_json(assignable_catalog_spec()[k]),
        decreases catalog.len() - i,
    {
        assert(catalog@[i as int]@ == assignable_catalog_spec()[i as int]);
        out.push(catalog[i].to_json());
        i = i + 1;
    }
    let r = JsonValue::Array(out);
    proof {
        assert(out@.len() == assignable_catalog_spec().len());
        assert forall|k: int| 0 <= k < out@.len() implies #[trigger] r@->Array_0[k] == inventory_spec(
            ToolInventoryScope::Assignable,
        )->Object_0[1].1->Array_0[k] by {
            assert(r@->Array_0[k] == crate::json::json_view(out@[k]));
        }
        assert(r@->Array_0 =~= inventory_spec(ToolInventoryScope::Assignable)->Object_0[1].1->Array_0);
    }
    r
}

fn non_assignable_json() -> (r: JsonValue)
    ensures
        r@ == inventory_spec(ToolInventoryScope::Full)->Object_0[2].1,
{
    let catalog = non_assignable_tool_catalog();
    let mut out: Vec<JsonValue> = Vec::new();
    let mut i: usize = 0;
    while i < catalog.len()
        invariant
            non_assignable_entry_views(catalog@) == non_assignable_catalog_spec(),
            i <= catalog@.len(),
            out@.len() == i,
            forall|k: int| 0 <= k < i ==> #[trigger] crate::json::json_view(out@[k])
                == non_assignable_entry_json(non_assignable_catalog_spec()[k]),
        decreases catalog.len() - i,
    {
        assert(catalog@[i as int]@ == non_assignable_catalog_spec()[i as int]);
        out.push(catalog[i].to_json());
        i = i + 1;
    }
    let r = JsonValue::Array(out);
    proof {
        assert(out@.len() == non_assignable_catalog_spec().len());
        assert forall|k: int| 0 <= k < out@.len() implies #[trigger] r@->Array_0[k] == inventory_spec(
            ToolInventoryScope::Full,
        )->Object_0[2].1->Array_0[k] by {
            assert(r@->Array_0[k] == crate::json::json_view(out@[k]));
        }
        assert(r@->Array_0 =~= inventory_spec(ToolInventoryScope::Full)->Object_0[2].1->Array_0);
    }
    r
}

/// The document that the tool inventory shows for a scope.
pub fn tool_inventory_document(scope: ToolInventoryScope) -> (r: JsonValue)
    ensures
        r@ == inventory_spec(scope),
{
    let mut m: Vec<(String, JsonValue)> = Vec::new();
    match scope {
        ToolInventoryScope::Assignable => {
            m.push((to_owned_string("scope"), json_str("assignable")));
            m.push((to_owned_string("entity_assignable_skills"), assignable_json()));
        },
        ToolInventoryScope::Full => {
            m.push((to_owned_string("scope"), json_str("full")));
            m.push((to_owned_string("entity_assignable_skills"), assignable_json()));
            m.push((to_owned_string("not_assignable_to_entities"), non_assignable_json()));
            let mut p: Vec<(String, JsonValue)> = Vec::new();
            p.push((to_owned_string("standard"), json_str(POLICY_STANDARD)));
            p.push((to_owned_string("elevated_dev_only"), json_str(POLICY_ELEVATED)));
            p.push((to_owned_string("admin_tools"), json_str(POLICY_ADMIN_TOOLS)));
            p.push((to_owned_string("ceo_tools"), json_str(POLICY_CEO_TOOLS)));
            let policy = JsonValue::Object(p);
            proof {
                assert(policy@->Object_0 =~= inventory_spec(ToolInventoryScope::Full)->Object_0[3].1->Object_0);
            }
            m.push((to_owned_string("policy"), policy));
        },
    }
    let r = JsonValue::Object(m);
    proof {
        assert(r@->Object_0 =~= inventory_spec(scope)->Object_0);
    }
    r
}

} // verus!
