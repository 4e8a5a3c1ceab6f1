use multiclaw::entity_skills::{
    normalize_entity_tool_allowlist_for_company, role_based_default_skills_or_minimal,
};

#[test]
fn shell_rejected_without_dev_role() {
    let err = normalize_entity_tool_allowlist_for_company(
        Some(vec!["shell".into()]),
        Some("社交媒体运营"),
    )
    .unwrap_err();
    assert!(err.message().contains("elevated") || err.message().contains("shell"));
}

#[test]
fn shell_ok_for_dev_role() {
    let v = normalize_entity_tool_allowlist_for_company(
        Some(vec!["shell".into(), "file_read".into()]),
        Some("后端开发工程师"),
    )
    .unwrap();
    assert!(v.contains(&"shell".into()));
}

#[test]
fn every_default_pack_passes_the_company_check_unchanged() {
    for role in [
        Some("Growth Lead"),
        Some("UI 设计"),
        Some("内容编辑"),
        Some("运营"),
        Some("律师"),
        None,
    ] {
        let pack = role_based_default_skills_or_minimal(role);
        assert_eq!(normalize_entity_tool_allowlist_for_company(None, role).unwrap(), pack);
        assert_eq!(
            normalize_entity_tool_allowlist_for_company(Some(pack.clone()), role).unwrap(),
            pack
        );
    }
}
