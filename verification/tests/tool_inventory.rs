use multiclaw::entity_skills::{
    assignable_skill_catalog, non_assignable_tool_catalog, tool_inventory_document,
    ToolInventoryScope,
};
use multiclaw::json::JsonValue;
use multiclaw::tool_inventory::ToolInventoryTool;

fn members(v: &JsonValue) -> &Vec<(String, JsonValue)> {
    match v {
        JsonValue::Object(m) => m,
        _ => panic!("not an object"),
    }
}

fn items(v: &JsonValue) -> &Vec<JsonValue> {
    match v {
        JsonValue::Array(a) => a,
        _ => panic!("not an array"),
    }
}

#[test]
fn assignable_document_lists_catalog() {
    let doc = tool_inventory_document(ToolInventoryScope::Assignable);
    let m = members(&doc);
    assert_eq!(m.len(), 2);
    assert_eq!(m[0].0, "scope");
    assert_eq!(doc.get_str("scope"), Some("assignable"));
    assert_eq!(m[1].0, "entity_assignable_skills");
    let list = items(&m[1].1);
    assert_eq!(list.len(), assignable_skill_catalog().len());
    assert_eq!(list[0].get_str("name"), Some("file_read"));
    assert_eq!(list[0].get_str("tier"), Some("standard"));
    let shell = list.iter().find(|e| e.get_str("name") == Some("shell")).unwrap();
    assert_eq!(shell.get_str("tier"), Some("elevated_dev_only"));
}

#[test]
fn full_document_adds_non_assignable_and_policy() {
    let doc = ToolInventoryTool::new().execute(None);
    let m = members(&doc);
    assert_eq!(doc.get_str("scope"), Some("full"));
    assert_eq!(m.len(), 4);
    assert_eq!(m[2].0, "not_assignable_to_entities");
    let na = items(&m[2].1);
    assert_eq!(na.len(), non_assignable_tool_catalog().len());
    assert_eq!(na[0].get_str("name"), Some("create_company"));
    assert_eq!(na[0].get_str("audience"), Some("admin_instance_only"));
    assert_eq!(m[3].0, "policy");
    assert_eq!(
        m[3].1.get_str("standard"),
        Some("May appear in entities[].tool_allowlist for any role.")
    );
    let only = ToolInventoryTool::new().execute(Some(ToolInventoryScope::Assignable));
    assert_eq!(only.get_str("scope"), Some("assignable"));
}

#[test]
fn inventory_answers() {
    let tool = ToolInventoryTool::new();
    assert_eq!(tool.name(), "tool_inventory");
    let bad = ToolInventoryTool::invalid_arguments("unknown variant `x`");
    assert!(!bad.success);
    assert_eq!(bad.output, "");
    assert_eq!(
        bad.error.as_deref(),
        Some("invalid tool_inventory arguments: unknown variant `x`")
    );
    let ok = ToolInventoryTool::answer("{}".to_string());
    assert!(ok.success);
    assert_eq!(ok.output, "{}");
}
