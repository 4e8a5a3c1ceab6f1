use multiclaw::ceo::{
    entity_subdirs, AssignTaskTool, CeoSkillGrantTool, CreateEntityArgs, CreateEntityTool,
    CreateTeamTool, GrantConfigError, InstanceStatusTool, DEFAULT_TEAM_ID,
};
use multiclaw::config::{CeoConfig, Config, EntityConfig, InstanceConfig};
use multiclaw::create_company::{
    default_entities_for, draft_entity_id, draft_entity_ids, merge_draft_into_instance, sanitize_company_id,
    set_agent_max, CompanyDraftFile, CompanyError, CreateCompanyAction, CreateCompanyArgs,
    CreateCompanyTool, EntityDraft,
};
use multiclaw::entity::EntityPool;
use multiclaw::instance_registry::{InstanceEntry, InstanceRegistry, InstanceRole, InstanceStatus};

fn startup_instance(entities: Vec<EntityConfig>) -> InstanceConfig {
    InstanceConfig {
        preset: Some("startup".to_string()),
        default_provider: None,
        default_model: None,
        ceo: Some(CeoConfig { enabled: Some(true) }),
        entities,
        teams: vec![],
    }
}

fn bare_entity(id: &str) -> EntityConfig {
    EntityConfig {
        id: id.to_string(),
        provider: None,
        model: None,
        team_id: None,
        role: None,
        skills: None,
        skill_allowlist: None,
    }
}

fn args(id: &str) -> CreateEntityArgs {
    CreateEntityArgs {
        id: id.to_string(),
        provider: None,
        model: None,
        team_id: None,
        role: None,
        tool_allowlist: None,
        skill_allowlist: None,
        identity_md: None,
        soul_md: None,
        agents_md: None,
    }
}

fn pool_of(inst: InstanceConfig) -> EntityPool {
    EntityPool::from_config(&Config { instance: Some(inst), ..Config::default() }).unwrap()
}

#[test]
fn instance_status_returns_error_when_no_pool() {
    let tool = InstanceStatusTool::new(None);
    let r = tool.execute(None, None);
    assert!(!r.success);
    assert!(r.error.unwrap_or_default().contains("multi-entity"));
}

#[test]
fn instance_status_lists_entities() {
    let pool = pool_of(startup_instance(vec![bare_entity("writer")]));
    let tool = InstanceStatusTool::new(None);
    let r = tool.execute(Some(&pool), None);
    assert!(r.success);
    assert!(r.output.contains("ceo"));
    assert!(r.output.contains("writer"));
    assert_eq!(r.output, "entities: ceo, writer");
    let with_teams = tool.execute(Some(&pool), Some(vec!["t1".to_string(), "t2".to_string()]));
    assert_eq!(with_teams.output, "entities: ceo, writer\nteams: t1, t2");
}

#[test]
fn create_entity_rejects_reserved_ceo_id() {
    let tool = CreateEntityTool::new(
        Some(10),
        "/nonexistent/config.toml".to_string(),
        "/nonexistent/workspace".to_string(),
    );
    let r = tool.check_id(true, "ceo").unwrap_err();
    assert!(!r.success);
    assert!(r.error.unwrap_or_default().contains("reserved"));
    assert_eq!(tool.check_id(true, "  a ").unwrap(), "a");
    assert_eq!(
        tool.check_id(false, "a").unwrap_err().error.as_deref(),
        Some("multi-entity mode not enabled")
    );
    assert_eq!(
        tool.check_id(true, "  ").unwrap_err().error.as_deref(),
        Some("entity id cannot be empty")
    );
}

#[test]
fn create_entity_respects_agent_max() {
    let tool = CreateEntityTool::new(Some(2), "/c/config.toml".to_string(), "/w".to_string());
    let mut inst = startup_instance(vec![]);
    let cfg = tool.register("a", args("a"), &mut inst).unwrap();
    assert_eq!(cfg.team_id.as_deref(), Some(DEFAULT_TEAM_ID));
    assert_eq!(
        cfg.skills,
        Some(vec!["file_read".to_string(), "file_write".to_string(), "memory_recall".to_string()])
    );
    assert_eq!(inst.entities.len(), 1);
    let err = tool.register("b", args("b"), &mut inst).unwrap_err();
    assert!(err.error.clone().unwrap_or_default().contains("limit"));
    assert_eq!(
        err.error.as_deref(),
        Some("entity limit reached (agent_max = 2); cannot create entity 'b'")
    );
    assert_eq!(inst.entities.len(), 1);
}

#[test]
fn register_refuses_duplicates_and_bad_tools() {
    let tool = CreateEntityTool::new(None, "/c/config.toml".to_string(), "/w".to_string());
    let mut inst = startup_instance(vec![bare_entity("a")]);
    let dup = tool.register("a", args("a"), &mut inst).unwrap_err();
    assert_eq!(dup.error.as_deref(), Some("entity 'a' already exists"));
    let mut bad = args("b");
    bad.tool_allowlist = Some(vec!["shell".to_string()]);
    bad.role = Some("运营".to_string());
    let e = tool.register("b", bad, &mut inst).unwrap_err();
    assert!(e.error.unwrap().starts_with("entity tool 'shell' is elevated"));
    assert_eq!(inst.entities.len(), 1);
}

#[test]
fn finish_adds_to_pool_or_reports() {
    let tool = CreateEntityTool::new(Some(3), "/c/config.toml".to_string(), "/w".to_string());
    let mut pool = pool_of(startup_instance(vec![]));
    let r = tool.finish(&mut pool, bare_entity("a"), "/w/entities/a");
    assert!(r.success);
    assert_eq!(r.output, "entity 'a' created, persisted to config, workspace at /w/entities/a.");
    let again = tool.finish(&mut pool, bare_entity("a"), "/w/entities/a");
    assert_eq!(again.error.as_deref(), Some("entity 'a' already exists"));
    assert_eq!(pool.list(), vec!["ceo", "a"]);
    assert_eq!(tool.entity_dir("a"), "/w/entities/a");
    assert_eq!(
        entity_subdirs("/w/entities/a"),
        vec!["/w/entities/a/memory", "/w/entities/a/state", "/w/entities/a/sessions"]
    );
}

#[test]
fn create_entity_writes_inline_persona_files() {
    let tool = CreateEntityTool::new(Some(10), "/c/config.toml".to_string(), "/w".to_string());
    let mut inst = startup_instance(vec![]);
    let mut a = args("product_manager");
    a.role = Some("商业产品经理".to_string());
    a.identity_md = Some("# IDENTITY.md\n自定义身份".to_string());
    a.soul_md = Some("# SOUL.md\n自定义灵魂".to_string());
    a.agents_md = Some("# AGENTS.md\n自定义规范".to_string());
    let dir = tool.entity_dir("product_manager");
    let files = CreateEntityTool::persona_overrides(&dir, &a);
    assert!(tool.register("product_manager", a, &mut inst).is_ok());
    assert_eq!(files.len(), 3);
    assert_eq!(files[0].path, "/w/entities/product_manager/IDENTITY.md");
    assert!(files[0].content.contains("自定义身份"));
    assert_eq!(files[1].path, "/w/entities/product_manager/SOUL.md");
    assert!(files[1].content.contains("自定义灵魂"));
    assert_eq!(files[2].path, "/w/entities/product_manager/AGENTS.md");
    assert!(files[2].content.contains("自定义规范"));
}

#[test]
fn persona_overrides_only_given_documents() {
    let mut a = args("pm");
    a.identity_md = Some("# IDENTITY.md\n自定义身份".to_string());
    a.agents_md = Some("# AGENTS.md\n自定义规范".to_string());
    let files = CreateEntityTool::persona_overrides("/w/entities/pm", &a);
    assert_eq!(files.len(), 2);
    assert_eq!(files[0].path, "/w/entities/pm/IDENTITY.md");
    assert!(files[0].content.contains("自定义身份"));
    assert_eq!(files[1].path, "/w/entities/pm/AGENTS.md");
}

#[test]
fn teams_are_unique() {
    let mut inst = startup_instance(vec![]);
    assert_eq!(CreateTeamTool::check_id(" t1 ").unwrap(), "t1");
    assert!(CreateTeamTool::check_id("ceo").is_err());
    assert!(CreateTeamTool::register("t1", Some("Team".to_string()), &mut inst).is_ok());
    let dup = CreateTeamTool::register("t1", None, &mut inst).unwrap_err();
    assert_eq!(dup.error.as_deref(), Some("team 't1' already exists"));
    assert_eq!(inst.teams.len(), 1);
}

#[test]
fn assign_task_is_pending() {
    let r = AssignTaskTool::new().execute();
    assert!(r.success);
    assert!(r.output.contains("phase 3"));
}

#[test]
fn grant_skill_in_config_once() {
    let mut inst = Some(startup_instance(vec![bare_entity("a")]));
    assert!(CeoSkillGrantTool::grant_in_config(&mut inst, "a", "pdf_tools").is_ok());
    assert!(CeoSkillGrantTool::grant_in_config(&mut inst, "a", "pdf_tools").is_ok());
    assert_eq!(
        inst.as_ref().unwrap().entities[0].skill_allowlist,
        Some(vec!["pdf_tools".to_string()])
    );
    assert_eq!(
        CeoSkillGrantTool::grant_in_config(&mut inst, "zz", "x"),
        Err(GrantConfigError::EntityMissing)
    );
    let mut none: Option<InstanceConfig> = None;
    assert_eq!(
        CeoSkillGrantTool::grant_in_config(&mut none, "a", "x"),
        Err(GrantConfigError::InstanceMissing)
    );
    let mut pool = pool_of(startup_instance(vec![bare_entity("a")]));
    let ok = CeoSkillGrantTool::finish(&mut pool, "a", "pdf_tools");
    assert_eq!(ok.output, "Granted skill 'pdf_tools' to entity 'a' (skill_allowlist updated).");
    assert_eq!(pool.get("a").unwrap().skill_allowlist, vec!["pdf_tools".to_string()]);
    let missing = CeoSkillGrantTool::finish(&mut pool, "zz", "x");
    assert_eq!(missing.error.as_deref(), Some("unknown entity 'zz'"));
}

#[test]
fn company_id_rules() {
    assert_eq!(sanitize_company_id("  newmedia "), Ok("newmedia".to_string()));
    assert_eq!(sanitize_company_id("   "), Err(CompanyError::EmptyId));
    assert_eq!(sanitize_company_id("Admin"), Err(CompanyError::ReservedId));
    assert_eq!(sanitize_company_id("a/b"), Err(CompanyError::PathSeparator));
    assert_eq!(CompanyError::ReservedId.message(), "company_id 'admin' is reserved");
}

#[test]
fn startup_preset_default_entities() {
    let base = default_entities_for(Some("StartUp"), Some("电商"));
    let ids: Vec<&str> = base.iter().map(|e| e.id.as_str()).collect();
    assert_eq!(ids, vec!["ops", "growth", "design"]);
    assert_eq!(base[0].role.as_deref(), Some("运营"));
    let media = default_entities_for(Some("startup"), Some("新媒体运营"));
    assert_eq!(media.len(), 4);
    assert_eq!(media[3].id, "content");
    assert_eq!(media[3].role.as_deref(), Some("内容策划"));
    assert!(default_entities_for(Some("enterprise"), Some("内容")).is_empty());
    assert!(default_entities_for(None, None).is_empty());
}

fn company_args(entities: Vec<EntityDraft>) -> CreateCompanyArgs {
    CreateCompanyArgs {
        action: CreateCompanyAction::Draft,
        company_id: "newmedia".to_string(),
        preset: Some("startup".to_string()),
        business_domain: Some("新媒体".to_string()),
        agent_max: Some(10),
        instance_identity_md: Some("# IDENTITY\nnewmedia".to_string()),
        instance_soul_md: None,
        instance_agents_md: None,
        ceo_identity_md: Some("# CEO\n".to_string()),
        ceo_soul_md: None,
        ceo_agents_md: None,
        entities,
    }
}

#[test]
fn draft_confirm_apply_decisions() {
    let mut draft = CompanyDraftFile::from_args_at(&company_args(vec![]), "t0".to_string());
    assert!(!draft.confirmed);
    assert_eq!(draft.entities.len(), 4);
    let tool = CreateCompanyTool::new("/c/instances/admin/config.toml".to_string());
    assert!(tool.check_admin().is_none());
    assert!(CreateCompanyTool::new("/c/instances/x/config.toml".to_string())
        .check_admin()
        .is_some());
    let loc = tool.locate(" newmedia ").unwrap();
    assert_eq!(loc.company_id, "newmedia");
    assert_eq!(loc.cluster_root, "/c");
    assert_eq!(
        loc.draft_path,
        "/c/instances/admin/workspace/state/company_drafts/newmedia.json"
    );
    assert_eq!(tool.locate("admin").err(), Some(CompanyError::ReservedId));
    assert_eq!(
        CreateCompanyTool::check_draft(CreateCompanyAction::Confirm, "newmedia", None),
        Err(CompanyError::DraftNotFound("newmedia".to_string()))
    );
    assert_eq!(
        CreateCompanyTool::check_draft(CreateCompanyAction::Apply, "newmedia", Some(&draft)),
        Err(CompanyError::NotConfirmed("newmedia".to_string()))
    );
    draft.confirm("t1".to_string());
    assert!(draft.confirmed);
    assert_eq!(draft.confirmed_at.as_deref(), Some("t1"));
    assert_eq!(
        CreateCompanyTool::check_draft(CreateCompanyAction::Apply, "newmedia", Some(&draft)),
        Ok(())
    );
    assert_eq!(
        CreateCompanyTool::check_draft(CreateCompanyAction::Draft, "newmedia", None),
        Ok(())
    );
    let applied = CreateCompanyTool::applied("newmedia", 42619, "/ws", "/d.json");
    assert_eq!(
        applied.output,
        "Company 'newmedia' created (port 42619). Workspace: /ws. Draft: /d.json"
    );
}

#[test]
fn merge_draft_entities_skips_ceo_and_existing() {
    let entities = vec![
        EntityDraft::with_role("ops", "运营"),
        EntityDraft::with_role(" CEO ", "boss"),
        EntityDraft::with_role("writer", "写作"),
        EntityDraft::with_role("  ", "none"),
    ];
    let draft = CompanyDraftFile::from_args_at(&company_args(entities), "t0".to_string());
    assert_eq!(draft_entity_ids(&draft), vec!["ops", "writer"]);
    let mut inst = InstanceConfig {
        preset: None,
        default_provider: None,
        default_model: None,
        ceo: Some(CeoConfig { enabled: Some(false) }),
        entities: vec![bare_entity("writer")],
        teams: vec![],
    };
    merge_draft_into_instance(&draft, None, &mut inst);
    assert_eq!(inst.preset.as_deref(), Some("startup"));
    assert_eq!(inst.ceo.unwrap().enabled, Some(false));
    let ids: Vec<&str> = inst.entities.iter().map(|e| e.id.as_str()).collect();
    assert_eq!(ids, vec!["writer", "ops"]);
    assert_eq!(inst.entities[1].role.as_deref(), Some("运营"));
}

#[test]
fn agent_max_recorded_in_registry() {
    let mut reg = InstanceRegistry::default();
    reg.add(InstanceEntry {
        id: "newmedia".to_string(),
        role: InstanceRole::Normal,
        status: InstanceStatus::Created,
        config_path: None,
        workspace_path: None,
        gateway_port: Some(42619),
        created_at: None,
        constraints: None,
        preset: None,
    });
    set_agent_max(&mut reg, "newmedia", Some(10));
    let c = reg.get("newmedia").unwrap().constraints.unwrap();
    assert_eq!(c.agent_max, Some(10));
    assert_eq!(c.call_quota, None);
    set_agent_max(&mut reg, "newmedia", None);
    assert_eq!(reg.get("newmedia").unwrap().constraints.unwrap().agent_max, Some(10));
    set_agent_max(&mut reg, "other", Some(3));
    assert_eq!(reg.instances.len(), 1);
}

#[test]
fn draft_stamped_now_and_confirmed_now() {
    let mut draft = CompanyDraftFile::from_args(&company_args(vec![]));
    assert!(!draft.confirmed);
    assert!(draft.created_at.contains('T'));
    assert_eq!(draft.version, 1);
    draft.confirm_now();
    assert!(draft.confirmed);
    assert!(draft.confirmed_at.is_some());
}

#[test]
fn cluster_root_needs_three_levels() {
    let tool = CreateCompanyTool::new("config.toml".to_string());
    assert_eq!(tool.locate("acme").err(), Some(CompanyError::ClusterRootUnresolved));
    assert_eq!(
        CompanyError::ClusterRootUnresolved.message(),
        "Could not resolve cluster root from config path"
    );
    assert_eq!(GrantConfigError::InstanceMissing.message(), "instance config missing");
    assert_eq!(GrantConfigError::EntityMissing.message(), "entity not found in config");
}

#[test]
fn draft_entity_id_trims_and_drops_ceo() {
    assert_eq!(draft_entity_id("  analyst "), Some("analyst"));
    assert_eq!(draft_entity_id("CEO"), None);
    assert_eq!(draft_entity_id("   "), None);
}

#[test]
fn merge_appends_each_kept_id_once() {
    let entities = vec![
        EntityDraft::with_role(" designer ", "设计"),
        EntityDraft::with_role("lead", "运营"),
        EntityDraft::with_role("designer", "内容"),
        EntityDraft::with_role("ceo", "boss"),
    ];
    let draft = CompanyDraftFile::from_args_at(&company_args(entities), "t0".to_string());
    let mut inst = InstanceConfig {
        preset: None,
        default_provider: None,
        default_model: None,
        ceo: None,
        entities: vec![bare_entity("lead")],
        teams: vec![],
    };
    merge_draft_into_instance(&draft, None, &mut inst);
    let ids: Vec<&str> = inst.entities.iter().map(|e| e.id.as_str()).collect();
    assert_eq!(ids, vec!["lead", "designer"]);
    assert_eq!(inst.entities[1].role.as_deref(), Some("设计"));
    assert_eq!(inst.ceo.unwrap().enabled, Some(true));
}
