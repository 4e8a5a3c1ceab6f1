use multiclaw::instance_manager::{
    allocate_port, apply_instance_delete, instance_status_entry, is_admin_instance,
    minimal_instance_config, plan_instance_create, plan_instance_create_at, scaffolds_ceo, validate_instance_id,
    InstanceError, PORT_POOL_START,
};
use multiclaw::instance_registry::{
    InstanceConstraints, InstanceEntry, InstanceRegistry, InstanceRole, InstanceStatus,
};

fn entry(id: &str, port: Option<u16>) -> InstanceEntry {
    InstanceEntry {
        id: id.to_string(),
        role: InstanceRole::Normal,
        status: InstanceStatus::Created,
        config_path: None,
        workspace_path: None,
        gateway_port: port,
        created_at: None,
        constraints: None,
        preset: None,
    }
}

#[test]
fn instance_registry_get_returns_entry_by_id() {
    let mut reg = InstanceRegistry::default();
    reg.add(InstanceEntry {
        id: "alpha".to_string(),
        role: InstanceRole::Normal,
        status: InstanceStatus::Created,
        config_path: None,
        workspace_path: None,
        gateway_port: Some(42618),
        created_at: None,
        constraints: None,
        preset: None,
    });
    assert!(reg.get("alpha").is_some());
    assert!(reg.get("beta").is_none());
}

#[test]
fn instance_registry_add_and_update_status() {
    let mut reg = InstanceRegistry::default();
    reg.add(InstanceEntry {
        id: "x".to_string(),
        role: InstanceRole::Normal,
        status: InstanceStatus::Created,
        config_path: None,
        workspace_path: None,
        gateway_port: None,
        created_at: None,
        constraints: None,
        preset: None,
    });
    assert!(reg.update_status("x", InstanceStatus::Running));
    assert_eq!(reg.get("x").unwrap().status, InstanceStatus::Running);
    assert!(!reg.update_status("y", InstanceStatus::Running));
}

#[test]
fn default_registry_is_version_one_and_empty() {
    let reg = InstanceRegistry::default();
    assert_eq!(reg.version, 1);
    assert!(reg.instances.is_empty());
}

#[test]
fn add_then_get_finds_new_entry_and_keeps_first_match() {
    let mut reg = InstanceRegistry::default();
    reg.add(entry("a", Some(1)));
    reg.add(entry("b", Some(2)));
    reg.add(entry("a", Some(3)));
    assert_eq!(reg.get("b").unwrap().gateway_port, Some(2));
    assert_eq!(reg.get("a").unwrap().gateway_port, Some(1));
    assert_eq!(reg.position("a"), Some(0));
    assert_eq!(reg.position("zzz"), None);
}

#[test]
fn get_mut_changes_only_that_entry() {
    let mut reg = InstanceRegistry::default();
    reg.add(entry("a", Some(1)));
    reg.add(entry("b", Some(2)));
    reg.get_mut("b").unwrap().gateway_port = Some(9);
    assert_eq!(reg.get("b").unwrap().gateway_port, Some(9));
    assert_eq!(reg.get("a").unwrap().gateway_port, Some(1));
    assert!(reg.get_mut("c").is_none());
}

#[test]
fn allocated_ports_in_entry_order() {
    let mut reg = InstanceRegistry::default();
    reg.add(entry("a", Some(42620)));
    reg.add(entry("b", None));
    reg.add(entry("c", Some(42618)));
    assert_eq!(reg.allocated_ports(), vec![42620, 42618]);
}

#[test]
fn registry_path_joins_file_name() {
    let p = InstanceRegistry::path_for_cluster_root("/data/cluster");
    assert_eq!(p, "/data/cluster/instances.json");
}

#[test]
fn allocate_port_takes_lowest_free_port() {
    let mut reg = InstanceRegistry::default();
    assert_eq!(allocate_port(&reg), PORT_POOL_START);
    reg.add(entry("a", Some(42618)));
    reg.add(entry("b", Some(42620)));
    assert_eq!(allocate_port(&reg), 42619);
    reg.add(entry("c", Some(42619)));
    assert_eq!(allocate_port(&reg), 42621);
}

#[test]
fn validate_instance_id_errors() {
    assert_eq!(validate_instance_id("admin"), Err(InstanceError::ReservedId));
    assert_eq!(validate_instance_id("   "), Err(InstanceError::EmptyId));
    assert_eq!(validate_instance_id("a/b"), Err(InstanceError::PathSeparator));
    assert_eq!(validate_instance_id("  worker1 ").unwrap(), "worker1");
    assert_eq!(
        InstanceError::ReservedId.message(),
        "Instance id 'admin' is reserved"
    );
    assert_eq!(
        InstanceError::NotFound("q".to_string()).message(),
        "Instance 'q' not found"
    );
}

#[test]
fn plan_instance_create_layout_and_entry() {
    let mut reg = InstanceRegistry::default();
    reg.add(entry("a", Some(42618)));
    let plan = plan_instance_create_at(
        &reg,
        "/root",
        "worker1",
        InstanceRole::Normal,
        None,
        "2026-01-01T00:00:00Z".to_string(),
    )
    .unwrap();
    assert_eq!(plan.instance_dir, "/root/instances/worker1");
    assert_eq!(plan.workspace_dir, "/root/instances/worker1/workspace");
    assert_eq!(plan.config_path, "/root/instances/worker1/config.toml");
    assert_eq!(plan.entry.gateway_port, Some(42619));
    assert_eq!(plan.entry.status, InstanceStatus::Created);
    assert_eq!(plan.entry.id, "worker1");
    assert!(!plan.scaffold_ceo);
    assert!(plan.config_text.contains("port = 42619"));
    let again = plan_instance_create_at(
        &reg,
        "/root",
        "a",
        InstanceRole::Normal,
        None,
        "t".to_string(),
    );
    assert!(matches!(again, Err(InstanceError::AlreadyExists(ref x)) if x == "a"));
}

#[test]
fn minimal_config_for_presets() {
    let plain = minimal_instance_config(42618, None);
    assert!(plain.starts_with("default_temperature = 0.7\n\n[gateway]\nport = 42618\n"));
    assert!(!plain.contains("[instance]"));
    let ceo = minimal_instance_config(42700, Some("Startup"));
    assert!(ceo.contains("port = 42700"));
    assert!(ceo.ends_with("[instance]\npreset = \"Startup\"\n\n[instance.ceo]\n"));
    assert!(scaffolds_ceo(Some("ENTERPRISE")));
    assert!(!scaffolds_ceo(Some("freeform")));
    assert!(!scaffolds_ceo(None));
}

#[test]
fn delete_marks_deleted_and_hides_status() {
    let mut reg = InstanceRegistry::default();
    reg.add(entry("x", Some(42618)));
    assert!(instance_status_entry(&reg, "x").is_some());
    assert_eq!(apply_instance_delete(&mut reg, "x"), Ok(()));
    assert_eq!(reg.get("x").unwrap().status, InstanceStatus::Deleted);
    assert_eq!(reg.instances.len(), 1);
    assert!(instance_status_entry(&reg, "x").is_none());
    assert_eq!(
        apply_instance_delete(&mut reg, "admin"),
        Err(InstanceError::CannotDeleteAdmin)
    );
    assert_eq!(
        apply_instance_delete(&mut reg, "nope"),
        Err(InstanceError::NotFound("nope".to_string()))
    );
}

#[test]
fn admin_instance_config_path() {
    assert!(is_admin_instance("/c/instances/admin/config.toml"));
    assert!(!is_admin_instance("/c/instances/worker/config.toml"));
    assert!(!is_admin_instance("/c/instances/admin/other.toml"));
}

#[test]
fn admin_check_refuses_other_instances_named_like_admin() {
    assert!(!is_admin_instance("/c/instances/badminton/config.toml"));
    assert!(!is_admin_instance("/c/instances/xadmin/config.toml"));
    assert!(!is_admin_instance("/c/myinstances/admin/config.toml"));
    assert!(!is_admin_instance("/c/admin/instances/w/config.toml"));
    assert!(is_admin_instance("instances/admin/config.toml"));
    assert!(is_admin_instance("/srv/cluster/instances/admin/config.toml"));
}

#[test]
fn constraints_default_is_empty() {
    let c = InstanceConstraints::default();
    assert_eq!(c.agent_max, None);
    assert_eq!(c.call_quota, None);
    assert_eq!(c.cost_per_day_cents, None);
}

#[test]
fn plan_instance_create_validates_and_stamps_time() {
    let mut reg = InstanceRegistry::default();
    reg.add(entry("taken", Some(42618)));
    assert!(matches!(
        plan_instance_create(&reg, "/root", "admin", InstanceRole::Normal, None),
        Err(InstanceError::ReservedId)
    ));
    assert!(matches!(
        plan_instance_create(&reg, "/root", "  ", InstanceRole::Normal, None),
        Err(InstanceError::EmptyId)
    ));
    assert!(matches!(
        plan_instance_create(&reg, "/root", "x/y", InstanceRole::Normal, None),
        Err(InstanceError::PathSeparator)
    ));
    assert!(matches!(
        plan_instance_create(&reg, "/root", " taken ", InstanceRole::Normal, None),
        Err(InstanceError::AlreadyExists(ref x)) if x == "taken"
    ));
    let plan = plan_instance_create(&reg, "/root", " b ", InstanceRole::Normal, Some("startup")).unwrap();
    assert_eq!(plan.entry.id, "b");
    assert!(plan.scaffold_ceo);
    assert_eq!(plan.entry.preset.as_deref(), Some("startup"));
    let stamp = plan.entry.created_at.unwrap();
    assert!(stamp.len() >= 20 && stamp.contains('T'));
}

#[test]
fn admin_id_is_reserved_after_trimming() {
    assert_eq!(validate_instance_id(" admin "), Err(InstanceError::ReservedId));
    assert_eq!(validate_instance_id("\tadmin\n"), Err(InstanceError::ReservedId));
    assert_eq!(validate_instance_id(" Admin ").unwrap(), "Admin");
    let reg = InstanceRegistry::default();
    assert_eq!(
        plan_instance_create(&reg, "/c", " admin ", InstanceRole::Normal, None).err(),
        Some(InstanceError::ReservedId)
    );
}

#[test]
fn delete_of_unknown_id_leaves_registry_as_is() {
    let mut reg = InstanceRegistry::default();
    let version = reg.version;
    assert_eq!(
        apply_instance_delete(&mut reg, "ghost"),
        Err(InstanceError::NotFound("ghost".to_string()))
    );
    assert_eq!(reg.version, version);
    assert!(reg.instances.is_empty());
}
