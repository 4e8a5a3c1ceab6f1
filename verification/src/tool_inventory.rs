//! Read-only catalog of tools for entity tool assignment and governance.

use vstd::prelude::*;
use crate::entity_skills::{inventory_spec, tool_inventory_document, ToolInventoryScope};
use crate::json::{json_str, Json, JsonValue};
use crate::schema::{members, new_members, object, object_schema, object_schema_value, push_member, str_views, string_array, strs};
use vstd::string::*;
use crate::text::to_owned_string;
use crate::tool_result::{fail_view, ok_view, ToolResult};

verus! {

/// Lists tool names, descriptions, and assignment policy for entity tool
/// allowlists.
pub struct ToolInventoryTool;

/// The scope of an inventory request: full unless the arguments ask for
/// the assignable tools only.
pub open spec fn requested_scope(arg: Option<ToolInventoryScope>) -> ToolInventoryScope {
    match arg {
        Some(s) => s,
        None => ToolInventoryScope::Full,
    }
}

/// The arguments of `tool_inventory`: an optional `scope`, `assignable`
/// or `full`.
pub open spec fn tool_inventory_schema() -> Json {
    object_schema(
        seq![
            (
                "scope"@,
                Json::Object(
                    seq![
                        ("type"@, Json::Str("string"@)),
                        ("enum"@, strs(seq!["assignable"@, "full"@])),
                        ("description"@, Json::Str(SCOPE_DESCRIPTION@)),
                    ],
                ),
            ),
        ],
        Seq::empty(),
    )
}

pub const SCOPE_DESCRIPTION: &'static str = "assignable: tools valid in entities[].tool_allowlist. full: also lists admin/CEO-only tools and policy notes.";

impl ToolInventoryTool {
    /// The JSON Schema of the arguments.
    pub fn parameters_schema(&self) -> (r: JsonValue)
        ensures
            r@ == tool_inventory_schema(),
    {
        let choices: [&str; 2] = ["assignable", "full"];
        let mut scope = new_members();
        push_member(&mut scope, "type", json_str("string"));
        push_member(&mut scope, "enum", string_array(&choices));
        push_member(&mut scope, "description", json_str(SCOPE_DESCRIPTION));
        assert(str_views(choices@) =~= seq!["assignable"@, "full"@]);
        assert(members(scope@) =~= tool_inventory_schema()->Object_0[1].1->Object_0[0].1->Object_0);
        let mut p = new_members();
        push_member(&mut p, "scope", object(scope));
        let ghost props = members(p@);
        let required: [&str; 0] = [];
        let r = object_schema_value(p, &required);
        proof {
            assert(props =~= tool_inventory_schema()->Object_0[1].1->Object_0);
            assert(str_views(required@) =~= Seq::<Seq<char>>::empty());
        }
        r
    }

    pub fn new() -> Self {
        ToolInventoryTool
    }

    pub fn name(&self) -> (r: &'static str)
        ensures
            r@ == "tool_inventory"@,
    {
        "tool_inventory"
    }

    pub fn description(&self) -> (r: &'static str)
        ensures
            r@ == "Query MultiClaw tool catalog for entity tool assignment: names, descriptions, tiers (standard vs elevated), and which tools are admin-only or CEO-only (not assignable in entities[].tool_allowlist). Call before create_company or create_entity when configuring tool_allowlist / skill_allowlist."@,
    {
        "Query MultiClaw tool catalog for entity tool assignment: names, descriptions, tiers (standard vs elevated), and which tools are admin-only or CEO-only (not assignable in entities[].tool_allowlist). Call before create_company or create_entity when configuring tool_allowlist / skill_allowlist."
    }

    /// The document for the requested scope (full when none was given).
    pub fn execute(&self, scope: Option<ToolInventoryScope>) -> (r: JsonValue)
        ensures
            r@ == inventory_spec(requested_scope(scope)),
    {
        let s = match scope {
            Some(s) => s,
            None => ToolInventoryScope::Full,
        };
        tool_inventory_document(s)
    }

    /// The answer to arguments that do not parse.
    pub fn invalid_arguments(reason: &str) -> (r: ToolResult)
        ensures
            r@ == fail_view("invalid tool_inventory arguments: "@ + reason@),
    {
        let mut m = to_owned_string("invalid tool_inventory arguments: ");
        m.append(reason);
        ToolResult::fail(m)
    }

    /// The answer carrying the rendered document.
    pub fn answer(rendered: String) -> (r: ToolResult)
        ensures
            r@ == ok_view(rendered@),
    {
        ToolResult::ok(rendered)
    }
}

} // verus!
