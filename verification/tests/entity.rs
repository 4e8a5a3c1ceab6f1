use multiclaw::config::{CeoConfig, Config, EntityConfig, InstanceConfig};
use multiclaw::entity::{EntityPool, EntityRuntime, CEO_ENTITY_ID};

fn instance_config_with_ceo_and_entities() -> InstanceConfig {
    InstanceConfig {
        preset: Some("enterprise".to_string()),
        default_provider: Some("openai".to_string()),
        default_model: Some("gpt-4".to_string()),
        ceo: Some(CeoConfig { enabled: Some(true) }),
        entities: vec![
            EntityConfig {
                id: "writer".to_string(),
                provider: Some("openai".to_string()),
                model: Some("gpt-4".to_string()),
                team_id: Some("content".to_string()),
                role: Some("writer".to_string()),
                skills: Some(vec!["file".to_string(), "web".to_string()]),
                skill_allowlist: None,
            },
            EntityConfig {
                id: "editor".to_string(),
                provider: None,
                model: None,
                team_id: Some("content".to_string()),
                role: None,
                skills: None,
                skill_allowlist: None,
            },
        ],
        teams: vec![],
    }
}

#[test]
fn entity_runtime_from_config_builds_ceo_and_entities() {
    let instance = instance_config_with_ceo_and_entities();
    let config = Config {
        instance: Some(instance),
        ..Config::default()
    };
    let pool = EntityPool::from_config(&config).expect("pool should be built");
    let ceo = pool.get_ceo().expect("ceo should exist");
    assert_eq!(ceo.id, CEO_ENTITY_ID);
    assert_eq!(ceo.provider_override.as_deref(), Some("openai"));
    let writer = pool.get("writer").expect("writer should exist");
    assert_eq!(writer.skills_allowlist, &["file", "web"]);
    let editor = pool.get("editor").expect("editor should exist");
    assert_eq!(editor.provider_override.as_deref(), Some("openai"));
    let ids = pool.list();
    assert_eq!(ids, vec!["ceo", "writer", "editor"]);
}

#[test]
fn entity_runtime_skills_allowlist_respected() {
    let instance = instance_config_with_ceo_and_entities();
    let config = Config {
        instance: Some(instance),
        ..Config::default()
    };
    let pool = EntityPool::from_config(&config).unwrap();
    let writer = pool.get("writer").unwrap();
    assert_eq!(writer.skills_allowlist, ["file", "web"]);
    let editor = pool.get("editor").unwrap();
    assert!(editor.skills_allowlist.is_empty());
}

#[test]
fn entity_pool_get_returns_entity_by_id() {
    let instance = instance_config_with_ceo_and_entities();
    let config = Config {
        instance: Some(instance),
        ..Config::default()
    };
    let pool = EntityPool::from_config(&config).unwrap();
    assert!(pool.get("writer").is_some());
    assert!(pool.get("nonexistent").is_none());
}

#[test]
fn entity_pool_get_ceo_returns_ceo_entity() {
    let instance = instance_config_with_ceo_and_entities();
    let config = Config {
        instance: Some(instance),
        ..Config::default()
    };
    let pool = EntityPool::from_config(&config).unwrap();
    let ceo = pool.get_ceo().unwrap();
    assert_eq!(ceo.id, CEO_ENTITY_ID);
}

#[test]
fn entity_pool_create_entity_respects_agent_max() {
    let mut pool = EntityPool::from_entities(vec![EntityRuntime {
        id: "a".to_string(),
        provider_override: None,
        model_override: None,
        skills_allowlist: vec![],
        skill_allowlist: vec![],
    }]);
    let config_b = EntityConfig {
        id: "b".to_string(),
        provider: None,
        model: None,
        team_id: None,
        role: None,
        skills: None,
        skill_allowlist: None,
    };
    // agent_max = 2: can add one more
    let r = pool.create_entity(config_b.clone(), Some(2));
    assert!(r.is_ok());
    assert_eq!(pool.list().len(), 2);
    // agent_max = 2: cannot add another
    let config_c = EntityConfig {
        id: "c".to_string(),
        provider: None,
        model: None,
        team_id: None,
        role: None,
        skills: None,
        skill_allowlist: None,
    };
    let r2 = pool.create_entity(config_c, Some(2));
    assert!(r2.is_err());
    assert_eq!(pool.list().len(), 2);
}

#[test]
fn entity_pool_from_config_none_when_no_instance() {
    let config = Config::default();
    assert!(EntityPool::from_config(&config).is_none());
}

#[test]
fn entity_pool_ceo_disabled_when_ceo_enabled_false() {
    let mut instance = instance_config_with_ceo_and_entities();
    instance.ceo = Some(CeoConfig {
        enabled: Some(false),
    });
    let config = Config {
        instance: Some(instance),
        ..Config::default()
    };
    let pool = EntityPool::from_config(&config).unwrap();
    assert!(pool.get_ceo().is_none());
    let ids = pool.list();
    assert_eq!(ids, vec!["writer", "editor"]);
}
