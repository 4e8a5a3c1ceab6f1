use multiclaw::clawhub::{response_outcome, ClawHubError, ClawHubRegistry, DEFAULT_REGISTRY_URL};
use multiclaw::config::Config;
use multiclaw::scaffold::{admin_scaffold_plan, entity_scaffold_plan, instance_scaffold_plan};
use multiclaw::skill_pack::{
    pick_skill_root, registry_from, skill_manifest_paths, skill_root_candidates,
    zip_entry_action, AdminSkillRemoveTool, ClawhubExploreTool, ClawhubImportGlobalTool,
    ZipEntryAction,
};

#[test]
fn registry_normalizes_base_and_timeout() {
    let r = ClawHubRegistry::new("https://hub.example//".to_string(), 10, Some("  tok ".to_string()));
    assert_eq!(r.base_url(), "https://hub.example");
    assert_eq!(r.timeout_ms(), 1000);
    assert_eq!(r.auth_header().as_deref(), Some("Bearer tok"));
    assert_eq!(r.search_url(), "https://hub.example/api/v1/search");
    assert_eq!(r.explore_url(), "https://hub.example/api/v1/skills");
    assert_eq!(r.download_url(), "https://hub.example/api/v1/download");
    let blank = ClawHubRegistry::new(DEFAULT_REGISTRY_URL.to_string(), 5000, Some("   ".to_string()));
    assert_eq!(blank.auth_header(), None);
    assert_eq!(blank.timeout_ms(), 5000);
}

#[test]
fn skill_json_url_checks_slug() {
    let r = ClawHubRegistry::new("https://clawhub.ai".to_string(), 15000, None);
    assert_eq!(
        r.skill_json_url("  /pdf-tools ").unwrap(),
        "https://clawhub.ai/api/v1/skills/pdf-tools"
    );
    assert!(matches!(r.skill_json_url("../etc"), Err(ClawHubError::InvalidSlug)));
    assert!(matches!(r.skill_json_url("a/b"), Err(ClawHubError::InvalidSlug)));
    assert!(matches!(r.skill_json_url("   "), Err(ClawHubError::InvalidSlug)));
    assert_eq!(ClawHubRegistry::explore_limit(0), 1);
    assert_eq!(ClawHubRegistry::explore_limit(500), 200);
    assert_eq!(ClawHubRegistry::explore_limit(25), 25);
}

#[test]
fn response_outcome_by_status() {
    assert_eq!(response_outcome("search", true, "200 OK", "body".to_string()).unwrap(), "body");
    match response_outcome("search", false, "404 Not Found", "nope".to_string()) {
        Err(e) => assert_eq!(e.message(), "clawhub search HTTP 404 Not Found: nope"),
        Ok(_) => panic!("expected an error"),
    }
}

#[test]
fn registry_from_config_defaults() {
    let c = Config::default().skills.clawhub;
    let r = registry_from(&c);
    assert_eq!(r.base_url(), DEFAULT_REGISTRY_URL);
    assert_eq!(r.timeout_ms(), 15000);
}

#[test]
fn skill_roots_and_manifests() {
    let c = skill_root_candidates("/ws", "/shared", " pdf ").unwrap();
    assert_eq!(c, vec!["/ws/skills/pdf", "/shared/pdf"]);
    assert!(skill_root_candidates("/ws", "/shared", "../x").is_none());
    assert!(skill_root_candidates("/ws", "/shared", "a/b").is_none());
    let (md, toml) = skill_manifest_paths("/shared/pdf");
    assert_eq!(md, "/shared/pdf/SKILL.md");
    assert_eq!(toml, "/shared/pdf/SKILL.toml");
    assert_eq!(pick_skill_root(&c, &vec![false, true]).as_deref(), Some("/shared/pdf"));
    assert_eq!(pick_skill_root(&c, &vec![true, true]).as_deref(), Some("/ws/skills/pdf"));
    assert_eq!(pick_skill_root(&c, &vec![false, false]), None);
}

#[test]
fn zip_entries_stay_inside_destination() {
    assert!(matches!(zip_entry_action("/tmp/x", "../evil", None), ZipEntryAction::Skip));
    match zip_entry_action("/tmp/x", "pkg/", Some("pkg")) {
        ZipEntryAction::CreateDir(d) => assert_eq!(d, "/tmp/x/pkg"),
        _ => panic!("expected a directory"),
    }
    match zip_entry_action("/tmp/x", "pkg/SKILL.md", Some("pkg/SKILL.md")) {
        ZipEntryAction::WriteFile(parent, path) => {
            assert_eq!(path, "/tmp/x/pkg/SKILL.md");
            assert_eq!(parent.as_deref(), Some("/tmp/x/pkg"));
        }
        _ => panic!("expected a file"),
    }
}

#[test]
fn import_and_remove_decisions() {
    let disabled = ClawhubImportGlobalTool::new(Config::default());
    let r = disabled.prepare("pdf").unwrap_err();
    assert!(!r.success);
    let mut cfg = Config::default();
    cfg.skills.clawhub.enabled = true;
    let tool = ClawhubImportGlobalTool::new(cfg);
    assert_eq!(tool.prepare("a/b").unwrap_err().error.as_deref(), Some("invalid slug"));
    let (slug, reg) = tool.prepare(" pdf ").unwrap();
    assert_eq!(slug, "pdf");
    assert_eq!(reg.base_url(), DEFAULT_REGISTRY_URL);
    assert_eq!(ClawhubImportGlobalTool::destination("/shared", "pdf"), "/shared/pdf");
    assert_eq!(
        ClawhubImportGlobalTool::installed("pdf", "/shared/pdf").output,
        "Installed skill 'pdf' to /shared/pdf (audit passed)."
    );
    assert_eq!(AdminSkillRemoveTool::target("/shared", " pdf ").unwrap(), "/shared/pdf");
    assert!(AdminSkillRemoveTool::target("/shared", "..").is_err());
    assert_eq!(ClawhubExploreTool::limit_arg(None), 25);
    assert_eq!(ClawhubExploreTool::limit_arg(Some(7)), 7);
}

#[test]
fn scaffold_entity_workspace_creates_identity_soul_agents() {
    let plan = entity_scaffold_plan("/ws", "analyst", Some("市场分析"));
    assert_eq!(plan.entity_dir, "/ws/entities/analyst");
    assert_eq!(plan.files.len(), 3);
    assert_eq!(plan.files[0].path, "/ws/entities/analyst/IDENTITY.md");
    assert!(plan.files[0].content.contains("市场分析"));
    assert!(plan.files[0].content.contains("analyst"));
    assert!(plan.files[1].content.contains("市场分析"));
    assert!(plan.files[1].content.contains("analyst"));
    assert!(plan.files[2].content.contains("市场分析"));
    assert!(plan.skill_files.is_empty());
}

#[test]
fn ceo_persona_by_id_or_role() {
    assert_eq!(entity_scaffold_plan("/ws", "CEO", None).skill_files.len(), 1);
    assert_eq!(entity_scaffold_plan("/ws", "boss", Some("CEO Office")).skill_files.len(), 1);
    assert!(entity_scaffold_plan("/ws", "boss", Some("manager")).skill_files.is_empty());
}

#[test]
fn scaffold_ceo_workspace_creates_ceo_skill_assets() {
    let plan = entity_scaffold_plan("/ws", "ceo", Some("CEO"));
    assert_eq!(plan.skill_files.len(), 1);
    let skill = &plan.skill_files[0];
    assert_eq!(skill.path, "/ws/entities/ceo/skills/ceo_entity_designer/SKILL.md");
    assert!(skill.content.starts_with("---\nname: ceo_entity_designer"));
}

#[test]
fn scaffold_admin_workspace_creates_chairman_identity_soul_agents() {
    let admin = admin_scaffold_plan("/admin/ws");
    assert_eq!(admin[0].path, "/admin/ws/IDENTITY.md");
    let identity = &admin[0].content;
    assert!(identity.contains("董事长") && identity.contains("Admin"));
    assert!(identity.contains("create_company"));
    assert!(identity.contains("action=apply"));
    assert!(identity.contains("admin_company_designer"));
    assert!(identity.contains("admin-message"));
    assert!(admin[1].content.contains("董事长") && admin[1].content.contains("Admin"));
    assert!(admin[2].content.contains("董事长"));
    assert!(admin[2].content.contains("create_company"));
    assert!(
        admin[2].content.contains("action=`apply`") || admin[2].content.contains("action=\"apply\"")
    );
    assert_eq!(admin.len(), 5);
    assert_eq!(admin[3].path, "/admin/ws/skills/admin_company_designer/SKILL.md");
    assert!(admin[3].content.starts_with("---\nname: admin_company_designer"));
    assert_eq!(admin[4].path, "/admin/ws/skills/admin_company_designer/ceo_agents_template.md");
    assert!(!admin[4].content.is_empty());
}

#[test]
fn instance_plan_content() {
    let inst = instance_scaffold_plan("/i/ws", "worker1");
    assert_eq!(inst.len(), 3);
    assert!(inst[0].content.contains("worker1"));
    assert_eq!(inst[2].path, "/i/ws/AGENTS.md");
}
