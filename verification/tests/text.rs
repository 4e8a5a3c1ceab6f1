use multiclaw::entity_skills::{
    normalize_entity_tool_allowlist_for_company, normalize_entity_tool_allowlist_for_entity,
    role_allows_elevated_skills, role_based_default_skills, role_based_default_skills_or_minimal,
    tier_for_skill, EntitySkillTier, SkillListError,
};
use multiclaw::text::str_trim;

#[test]
fn trim_removes_unicode_white_space() {
    assert_eq!(str_trim("\u{3000} a b \u{2003}\n"), "a b");
    assert_eq!(str_trim("\u{200b}x"), "\u{200b}x");
    assert_eq!(str_trim("   "), "");
    assert_eq!(str_trim(str_trim("  \tq  ")), str_trim("  \tq  "));
}

#[test]
fn normalized_lists_are_stable() {
    let first = normalize_entity_tool_allowlist_for_company(
        Some(vec!["  file_read ".into(), "".into(), "shell".into()]),
        Some("DevOps"),
    )
    .unwrap();
    assert_eq!(first, vec!["file_read".to_string(), "shell".to_string()]);
    let again = normalize_entity_tool_allowlist_for_company(Some(first.clone()), Some("DevOps")).unwrap();
    assert_eq!(again, first);
}

#[test]
fn normalize_errors_name_the_tool() {
    let e = normalize_entity_tool_allowlist_for_entity(Some(vec!["增长黑客".into()]), None).unwrap_err();
    assert_eq!(e, SkillListError::NotAssignable("增长黑客".to_string()));
    assert!(e.message().starts_with("invalid entity tool '增长黑客'"));
    let e2 = normalize_entity_tool_allowlist_for_entity(Some(vec!["shell".into()]), Some("设计")).unwrap_err();
    assert_eq!(e2, SkillListError::ElevatedRequiresDevRole("shell".to_string()));
}

#[test]
fn role_packs_and_defaults() {
    assert_eq!(
        role_based_default_skills(Some("Growth Lead")).unwrap(),
        vec!["memory_recall", "memory_store", "file_read", "file_write", "web_search_tool", "content_search"]
    );
    assert_eq!(role_based_default_skills(Some("律师")), None);
    assert_eq!(
        role_based_default_skills_or_minimal(Some("律师")),
        vec!["file_read", "file_write", "memory_recall"]
    );
    assert_eq!(
        normalize_entity_tool_allowlist_for_entity(None, Some("运营")).unwrap(),
        vec!["memory_recall", "memory_store", "file_read", "file_write", "schedule"]
    );
    assert!(role_allows_elevated_skills(Some("SRE")));
    assert!(role_allows_elevated_skills(Some("前端开发")));
    assert!(!role_allows_elevated_skills(Some("运营")));
    assert!(!role_allows_elevated_skills(None));
    assert_eq!(tier_for_skill("shell"), Some(EntitySkillTier::ElevatedDevOnly));
    assert_eq!(tier_for_skill("pdf_read"), Some(EntitySkillTier::Standard));
    assert_eq!(tier_for_skill("nope"), None);
}
