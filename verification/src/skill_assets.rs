//! The texts of the skills that scaffolding installs in a workspace.

use vstd::prelude::*;

verus! {

/// The `admin_company_designer` skill: how the admin drafts a company, its CEO and its entities.
pub const ADMIN_DESIGNER_SKILL: &'static str = "---\nname: admin_company_designer\ndescription: >-\n  Generates structured company creation drafts for admin, including\n  instance/CEO/entity persona markdown and role-specific configuration.\n  Use when creating a new company/instance or refining company draft content\n  before calling create_company.\n---\n# Admin Company Designer\n\nUse this skill when admin handles \"create company/instance\" requests.\n\n## When To Use\n- User asks to create a new company or instance.\n- Existing draft lacks role-specific detail and must be refined.\n- Admin needs consistent markdown structure for instance/CEO/entities.\n\n## Inputs Required\n- `company_id`\n- `business_domain`\n- company goal, scope, constraints, and compliance boundaries\n- initial entity roles and target `agent_max`\n\n## Required Workflow\n1. Clarify requirements with the user (goal, scope, constraints, teams).\n2. Generate markdown content using template files in this folder.\n3. Present draft and request explicit user confirmation.\n4. After confirmation, call `create_company` once with `action=\"apply\"` and full payload.\n\n## Detailed Company-Creation Procedure (authoritative)\n1. **Clarify before any tool call**\n   - Confirm: `company_id`, business goal, in-scope/out-of-scope, compliance constraints.\n   - Confirm: initial org design (CEO + employee entities), `team_id`, role boundaries.\n   - Confirm: resource constraint and expected `agent_max`.\n2. **Load templates and assemble full draft**\n   - Build instance-level markdown: `instance_identity_md`, `instance_soul_md`, `instance_agents_md`.\n   - Build CEO-level markdown: `ceo_identity_md`, `ceo_soul_md`, `ceo_agents_md`.\n   - Build employee entities only: each item must include `id`, `role`, `team_id` (or `unassigned`), `skills`, `identity_md`, `soul_md`, `agents_md`.\n3. **Draft review with user**\n   - Present the full draft in structured form.\n   - Require explicit confirmation (`确认`) or explicit modifications (`修改: ...`).\n4. **Single apply execution**\n   - After explicit confirmation, call `create_company` exactly once with `action=\"apply\"`.\n   - Include the complete payload in that single call (instance + ceo + entities + constraints).\n5. **Result report**\n   - On success: report created company id, paths, and created entity list.\n   - On failure: report tool error verbatim and ask user whether to revise payload.\n\n## Template Files (same folder)\n- `instance_identity_template.md`\n- `instance_soul_template.md`\n- `instance_agents_template.md`\n- `ceo_identity_template.md`\n- `ceo_soul_template.md`\n- `ceo_agents_template.md`\n- `entity_identity_template.md`\n- `entity_soul_template.md`\n- `entity_agents_template.md`\n\n## Hard Rules\n- Never call `create_company` before explicit user confirmation.\n- Never use `create_company` for draft simulation; this skill does drafting in-chat.\n- Never bypass this workflow by switching to ad-hoc shell/handwritten file creation.\n- `entities[]` includes employee entities only; never place CEO in `entities[]`.\n- CEO content must use: `ceo_identity_md`, `ceo_soul_md`, `ceo_agents_md`.\n- For every employee entity, generate all fields:\n  - `identity_md`\n  - `soul_md`\n  - `agents_md`\n- `team_id` should be explicit for every entity; if unknown, use `unassigned`.\n- `skills` must contain tool allowlist names (e.g. `file_read`, `memory_recall`), not business capability labels.\n- Role descriptions must be materially different (not name-only variations).\n- Do not call shell commands for company creation flow.\n\n## Output Checklist Before Apply\n- Instance layer: `instance_identity_md`, `instance_soul_md`, `instance_agents_md`\n- CEO layer: `ceo_identity_md`, `ceo_soul_md`, `ceo_agents_md`\n- Entity layer: each entity has `id`, `role`, optional `team_id`, optional `skills`, and three markdown fields\n- Resource layer: `agent_max` plus rationale\n- Confirmation: user explicitly confirmed the draft\n";

/// The CEO AGENTS.md template of the `admin_company_designer` skill.
pub const ADMIN_DESIGNER_CEO_AGENTS_TEMPLATE: &'static str = "# AGENTS.md — CEO 运行规范\n\n## 每会话必做\n1. 读取 `IDENTITY.md` 与 `SOUL.md`，确认本轮目标、资源约束与风险边界。\n2. 调用 `instance_status` 检查当前团队结构、负载与缺口。\n3. 调用 `memory_recall` 回顾上轮决策、阻塞、待审批事项。\n4. 创建团队/实体前，先读取 `skills/ceo_entity_designer/SKILL.md`。\n\n## 统一执行规范\n- 每个任务必须明确 owner、截止时间、输出格式与验收标准。\n- 输出必须可审计：结论、依据、路径、风险、下一步。\n- 预算/范围冲突必须升级到 admin，不可静默扩大执行范围。\n\n## 创建流程规则（强约束）\n- 创建团队/实体前必须先读取并严格遵循 `skills/ceo_entity_designer/SKILL.md`；不得自行改写流程。\n- 禁止绕过 skill 流程直接执行随意工具调用；仅允许按 skill 中确认门与执行顺序落盘。\n";

/// The `ceo_entity_designer` skill: how a CEO designs teams and entities.
pub const CEO_DESIGNER_SKILL: &'static str = "---\nname: ceo_entity_designer\ndescription: >-\n  Standardizes CEO team/entity creation workflow. Converts hiring intent into\n  structured team/entity payloads and uses one-shot create_entity with inline\n  persona markdown to reduce extra file_write calls.\n---\n# CEO Entity Designer\n\nUse this skill when CEO handles \"create role/member/team\" requests.\n\n## When To Use\n- User asks to create a role/employee/member/hiring request.\n- User asks to create a team/group/department.\n- Existing entity draft lacks clear persona structure and needs refinement.\n\n## Inputs Required\n- Target type: `entity` or `team`\n- Entity minimum fields: `id`, `role`, optional `team_id`, optional `skills`\n- Team minimum fields: `id`, optional `name`\n- Business goal, collaboration boundaries, and output expectations\n\n## Intent Normalization\n- \"角色/岗位/员工/成员/招人\" => treat as entity creation intent.\n- \"团队/小组/部门\" => treat as team creation intent.\n- If ambiguous, ask one clarification question before any tool call.\n\n## Required Workflow\n1. Clarify minimum required fields with the user.\n2. **Before choosing `skills`**: call `tool_inventory` (`scope: \"full\"` recommended) and use only names from `entity_assignable_skills` with correct `tier` (standard vs `elevated_dev_only`). Do not invent tool names.\n3. Generate draft content using template files in this folder.\n4. Present draft and request explicit confirmation (`确认` / `修改: ...`).\n5. Execute tools:\n   - If team is missing, call `create_team` first.\n   - Call `create_entity` once with `identity_md`, `soul_md`, `agents_md`.\n6. Report created ids and workspace paths.\n\n## Detailed Team/Entity Procedure (authoritative)\n1. **Intent normalization**\n   - \"角色/岗位/员工/成员/招人\" => entity creation.\n   - \"团队/小组/部门\" => team creation.\n   - If ambiguous, ask one clarification question before any tool call.\n2. **Collect minimal fields**\n   - Team: `id`, optional `name`.\n   - Entity: `id`, `role`, optional `team_id` (default `unassigned`), optional `skills`.\n3. **Prepare markdown before execution**\n   - Use folder templates to generate `identity_md`, `soul_md`, `agents_md`.\n   - Map `skills` from `tool_inventory` only; elevated tools (e.g. `shell`) only for dev/engineering-like `role` text.\n   - Keep role duties concrete and distinct; avoid copy-only variants.\n4. **Confirmation gate**\n   - Show draft and require explicit confirmation before `create_team`/`create_entity`.\n5. **Execute in strict order**\n   - If target team does not exist, call `create_team` first.\n   - Then call `create_entity` once with inline persona markdown.\n6. **Report and close**\n   - Return created ids and workspace paths.\n   - If tool fails, correct payload and retry; do not degrade to random multi-file writes.\n\n## Template Files (same folder)\n- `entity_identity_template.md`\n- `entity_soul_template.md`\n- `entity_agents_template.md`\n- `team_template.md`\n\n## Hard Rules\n- Never call `create_entity` without prepared persona markdown unless user explicitly requests minimal scaffold.\n- Never skip confirmation when creation payload is materially changed.\n- Never bypass this workflow with shell commands.\n- Prefer one-shot `create_entity` with inline persona fields.\n- Do not use `shell` for team/entity creation.\n- Do not use absolute paths in file operations.\n- `team_id` should be explicit; if unknown use `unassigned`.\n- `skills` must be assignable tool names from `tool_inventory` (`entity_assignable_skills`), not business labels. CEO-only tools (`create_entity`, `instance_status`, …) are listed under `not_assignable_to_entities` and must not be put in `skills`.\n- If tool call fails, fix payload and retry; do not degrade into ad-hoc multi-file writes unless explicitly requested.\n\n## Output Checklist\n- `tool_inventory` consulted for `skills` tier and names\n- Team created (if needed): `id`, optional `name`\n- Entity created: `id`, `role`, optional `team_id`, optional `skills`\n- Persona written: `identity_md`, `soul_md`, `agents_md`\n- User confirmation captured before creation\n";

} // verus!
