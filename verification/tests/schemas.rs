use multiclaw::ceo::{AssignTaskTool, CeoSkillGrantTool, CreateEntityTool, CreateTeamTool, InstanceStatusTool};
use multiclaw::config::Config;
use multiclaw::create_company::CreateCompanyTool;
use multiclaw::json::JsonValue;
use multiclaw::skill_pack::{
    AdminSkillRemoveTool, ClawhubExploreTool, ClawhubImportGlobalTool, ClawhubSearchTool,
    LoadSkillTool, SkillIndexTool,
};
use multiclaw::tool_inventory::ToolInventoryTool;
use serde_json::Value;

fn to_serde(v: &JsonValue) -> Value {
    match v {
        JsonValue::Null => Value::Null,
        JsonValue::Bool(b) => Value::Bool(*b),
        JsonValue::Number(n) => serde_json::from_str(n).unwrap(),
        JsonValue::Str(s) => Value::String(s.clone()),
        JsonValue::Array(a) => Value::Array(a.iter().map(to_serde).collect()),
        JsonValue::Object(m) => {
            let mut out = serde_json::Map::new();
            for (k, v) in m {
                out.insert(k.clone(), to_serde(v));
            }
            Value::Object(out)
        }
    }
}

fn expect(v: &JsonValue, text: &str) {
    let want: Value = serde_json::from_str(text).unwrap();
    assert_eq!(to_serde(v), want);
}

#[test]
fn empty_argument_schemas() {
    let empty = r#"{"type":"object","properties":{},"additionalProperties":false}"#;
    expect(&InstanceStatusTool::new(None).parameters_schema(), empty);
    expect(&SkillIndexTool::new("/w".into(), "/s".into()).parameters_schema(), empty);
}

#[test]
fn ceo_tool_schemas() {
    expect(
        &CreateTeamTool::new("/c".into(), "/w".into()).parameters_schema(),
        r#"{"type":"object","properties":{"id":{"type":"string","description":"Team id"},"name":{"type":"string","description":"Optional display name"}},"required":["id"],"additionalProperties":false}"#,
    );
    expect(
        &AssignTaskTool::new().parameters_schema(),
        r#"{"type":"object","properties":{"entity_id":{"type":"string","description":"Target entity id"},"task":{"type":"string","description":"Task description or message"}},"required":["entity_id","task"],"additionalProperties":false}"#,
    );
    expect(
        &CeoSkillGrantTool::new("/c".into()).parameters_schema(),
        r#"{"type":"object","properties":{"entity_id":{"type":"string","description":"Target entity id (not reserved id misuse)"},"skill_id":{"type":"string","description":"Skill package id / slug (single path segment)"}},"required":["entity_id","skill_id"],"additionalProperties":false}"#,
    );
    let ce = CreateEntityTool::new(None, "/c".into(), "/w".into()).parameters_schema();
    let v = to_serde(&ce);
    assert_eq!(v["required"], serde_json::from_str::<Value>(r#"["id"]"#).unwrap());
    assert_eq!(v["properties"]["tool_allowlist"]["items"]["type"], "string");
    assert_eq!(v["properties"]["skill_allowlist"]["description"], "Optional skill package ids for load_skill.");
    assert_eq!(v["properties"].as_object().unwrap().len(), 10);
}

#[test]
fn skill_tool_schemas() {
    let cfg = Config::default();
    expect(
        &LoadSkillTool::new("/w".into(), "/s".into(), None).parameters_schema(),
        r#"{"type":"object","properties":{"name":{"type":"string","description":"Skill package id (directory name)"}},"required":["name"],"additionalProperties":false}"#,
    );
    expect(
        &ClawhubSearchTool::new(cfg.clone()).parameters_schema(),
        r#"{"type":"object","properties":{"query":{"type":"string","description":"Search query"}},"required":["query"],"additionalProperties":false}"#,
    );
    expect(
        &ClawhubExploreTool::new(cfg.clone()).parameters_schema(),
        r#"{"type":"object","properties":{"limit":{"type":"integer","description":"Max items (1-200)","default":25}},"additionalProperties":false}"#,
    );
    expect(
        &ClawhubImportGlobalTool::new(cfg.clone()).parameters_schema(),
        r#"{"type":"object","properties":{"slug":{"type":"string","description":"ClawHub skill slug"}},"required":["slug"],"additionalProperties":false}"#,
    );
    expect(
        &AdminSkillRemoveTool::new(cfg).parameters_schema(),
        r#"{"type":"object","properties":{"slug":{"type":"string","description":"Package directory name under shared skills"}},"required":["slug"],"additionalProperties":false}"#,
    );
    expect(
        &ToolInventoryTool::new().parameters_schema(),
        r#"{"type":"object","properties":{"scope":{"type":"string","enum":["assignable","full"],"description":"assignable: tools valid in entities[].tool_allowlist. full: also lists admin/CEO-only tools and policy notes."}},"additionalProperties":false}"#,
    );
}

#[test]
fn create_company_schema() {
    let v = to_serde(&CreateCompanyTool::new("/c".into()).parameters_schema());
    assert_eq!(v["required"], serde_json::from_str::<Value>(r#"["action","company_id"]"#).unwrap());
    assert_eq!(
        v["properties"]["action"],
        serde_json::from_str::<Value>(r#"{"type":"string","enum":["draft","confirm","apply"]}"#).unwrap()
    );
    assert_eq!(v["properties"]["agent_max"]["minimum"], 1);
    assert_eq!(v["properties"].as_object().unwrap().len(), 12);
    assert_eq!(
        v["properties"]["entities"]["items"]["properties"]["skills"],
        serde_json::from_str::<Value>(r#"{"type":"array","items":{"type":"string"}}"#).unwrap()
    );
    assert_eq!(v["properties"]["entities"]["items"]["required"][0], "id");
    assert_eq!(v["additionalProperties"], false);
}
