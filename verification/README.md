# multiclaw

The core of a multi-instance agent runtime, verified with Verus: the
instance registry and port pool, the per-instance entity pool, the entity
tool policy (catalog, tiers, role packs, normalization), the CEO and admin
tools' decisions (`create_entity`, `create_team`, `ceo_skill_grant`,
`create_company`'s draft → confirm → apply), skill packages (index,
`load_skill`, ClawHub URLs, archive extraction plans), the tool inventory
and argument schemas, and the WebSocket chat's decisions (frames, turn
events, approvals, argument scrubbing).

Layout:

- `src/` — the verified library. Each module states its model with spec
  functions and views and proves every public function against it; laws
  that relate several calls are public proof functions.
- `tests/` — tests of the library on concrete values.
- `app/` — the runtime around the library: files, HTTP (ClawHub), the
  axum WebSocket endpoint, and serde forms of the library types.
