//! Instance management decisions: id validation, gateway port allocation,
//! the minimal config of a new instance, and what creating, deleting and
//! querying an instance does to the registry. The admin instance uses the
//! first gateway port; the pool for other instances starts right above it.

use vstd::prelude::*;
use crate::text::opt_str;
use vstd::string::*;
use crate::instance_registry::{
    index_of, lookup, ports_of, InstanceEntry, InstanceEntryView, InstanceRegistry, InstanceRole,
    InstanceStatus,
};
use crate::paths::{join_path, path_join};
use crate::text::{
    decimal, eq_ignore_ascii_case, has_sub, ends_with, lower, str_contains, str_contains_char,
    str_ends_with, str_trim, to_owned_string, trim, u64_to_string,
};

verus! {

/// First gateway port handed to a new (non-admin) instance.
pub const PORT_POOL_START: u16 = 42618;

/// Directory under the cluster root holding one directory per instance.
pub const INSTANCES_DIR: &'static str = "instances";

/// Reserved id of the admin instance.
pub const ADMIN_INSTANCE_ID: &'static str = "admin";

pub const BASE_CONFIG_HEAD: &'static str = "default_temperature = 0.7\n\n[gateway]\nport = ";

pub const BASE_CONFIG_TAIL: &'static str = "\nhost = \"127.0.0.1\"\nrequire_pairing = false\n\n[secrets]\nencrypt = false\n\n[channels_config]\ncli = true\n";

pub const CEO_SECTION_HEAD: &'static str = "[instance]\npreset = \"";

pub const CEO_SECTION_TAIL: &'static str = "\"\n\n[instance.ceo]\n";

/// The presets that enable the CEO entity: startup and enterprise, in any
/// ASCII case.
pub open spec fn preset_scaffolds_ceo(preset: Option<Seq<char>>) -> bool {
    match preset {
        Some(p) => lower(p) == lower("startup"@) || lower(p) == lower("enterprise"@),
        None => false,
    }
}

/// Whether the preset enables the CEO entity.
pub fn scaffolds_ceo(preset: Option<&str>) -> (r: bool)
    ensures
        r == preset_scaffolds_ceo(opt_str(preset)),
{
    match preset {
        Some(p) => eq_ignore_ascii_case(p, "startup") || eq_ignore_ascii_case(p, "enterprise"),
        None => false,
    }
}

/// The minimal `config.toml` of a new instance: the gateway on `port`, and
/// for a CEO preset an `[instance]` table with that preset and
/// `[instance.ceo]`.
pub open spec fn minimal_config_text(port: u16, preset: Option<Seq<char>>) -> Seq<char> {
    let base = BASE_CONFIG_HEAD@ + decimal(port as nat) + BASE_CONFIG_TAIL@;
    if preset_scaffolds_ceo(preset) {
        base + CEO_SECTION_HEAD@ + preset->Some_0 + CEO_SECTION_TAIL@
    } else {
        base
    }
}

/// Minimal `config.toml` for a new normal instance.
pub fn minimal_instance_config(port: u16, preset: Option<&str>) -> (r: String)
    ensures
        r@ == minimal_config_text(port, opt_str(preset)),
{
    let mut base = to_owned_string(BASE_CONFIG_HEAD);
    let digits = u64_to_string(port as u64);
    base.append(digits.as_str());
    base.append(BASE_CONFIG_TAIL);
    if scaffolds_ceo(preset) {
        let preset_val = match preset {
            Some(p) => p,
            None => "startup",
        };
        base.append(CEO_SECTION_HEAD);
        base.append(preset_val);
        base.append(CEO_SECTION_TAIL);
    }
    base
}

/// The port `allocate_port` picks when `used` holds the allocated ports:
/// the lowest free port of the pool, else the pool start.
pub open spec fn port_choice_ok(used: Seq<u16>, p: u16) -> bool {
    ||| (PORT_POOL_START <= p && !used.contains(p) && forall|q: u16|
        PORT_POOL_START <= q < p ==> used.contains(q))
    ||| (p == PORT_POOL_START && forall|q: u16| PORT_POOL_START <= q ==> used.contains(q))
}

/// While some port of the pool is free, the port chosen is one that no
/// instance holds.
pub proof fn law_allocated_port_is_free(used: Seq<u16>, p: u16)
    requires
        port_choice_ok(used, p),
        exists|q: u16| PORT_POOL_START <= q && !used.contains(q),
    ensures
        !used.contains(p),
        PORT_POOL_START <= p,
{
}

fn contains_port(used: &Vec<u16>, p: u16) -> (r: bool)
    ensures
        r == used@.contains(p),
{
    let mut i: usize = 0;
    while i < used.len()
        invariant
            i <= used@.len(),
            forall|k: int| 0 <= k < i ==> used@[k] != p,
        decreases used.len() - i,
    {
        if used[i] == p {
            assert(used@[i as int] == p);
            return true;
        }
        i = i + 1;
    }
    false
}

/// The lowest port at or above the pool start that no registered instance
/// holds; the pool start when every such port is taken.
pub fn allocate_port(reg: &InstanceRegistry) -> (r: u16)
    ensures
        port_choice_ok(ports_of(reg@), r),
{
    let used = reg.allocated_ports();
    let mut p: u16 = PORT_POOL_START;
    loop
        invariant
            used@ == ports_of(reg@),
            PORT_POOL_START <= p,
            forall|q: u16| PORT_POOL_START <= q < p ==> used@.contains(q),
        decreases u16::MAX - p,
    {
        if !contains_port(&used, p) {
            return p;
        }
        if p == u16::MAX {
            assert forall|q: u16| PORT_POOL_START <= q implies used@.contains(q) by {
                if q < p {
                } else {
                    assert(q == p);
                }
            }
            return PORT_POOL_START;
        }
        p = p + 1;
    }
}

/// The last three components of the admin instance's config path, joined
/// by the separator `sep`: `instances<sep>admin<sep>config.toml`.
pub open spec fn admin_config_tail(sep: char) -> Seq<char> {
    INSTANCES_DIR@ + seq![sep] + ADMIN_INSTANCE_ID@ + seq![sep] + "config.toml"@
}

/// `p` is `<root><sep>instances<sep>admin<sep>config.toml` for some root
/// (or the tail alone, for an empty root): the config of the instance whose
/// id is `admin`, and of no other instance.
pub open spec fn admin_config_path_with(p: Seq<char>, sep: char) -> bool {
    let t = admin_config_tail(sep);
    ends_with(p, t) && (p.len() == t.len() || p[p.len() - t.len() - 1] == sep)
}

/// The admin config path with `/` or with the platform separator.
pub open spec fn admin_config_path(p: Seq<char>) -> bool {
    admin_config_path_with(p, '/') || admin_config_path_with(p, '\\')
}

/// Whether `p` is the admin config path with the separator `sep`.
fn admin_config_path_sep(p: &str, sep: char) -> (r: bool)
    ensures
        r == admin_config_path_with(p@, sep),
{
    let x = crate::text::chars_of(p);
    let mut t = crate::text::chars_of(INSTANCES_DIR);
    t.push(sep);
    let mut a = crate::text::chars_of(ADMIN_INSTANCE_ID);
    t.append(&mut a);
    t.push(sep);
    let mut c = crate::text::chars_of("config.toml");
    t.append(&mut c);
    assert(t@ == admin_config_tail(sep));
    if t.len() > x.len() {
        return false;
    }
    let start = x.len() - t.len();
    if !crate::text::occurs_at_exec(&x, &t, start) {
        assert(x@.subrange(start as int, x@.len() as int) != t@);
        return false;
    }
    start == 0 || x[start - 1] == sep
}

/// Whether the current config path is the admin instance's own config,
/// `<root>/instances/admin/config.toml` (permission check). Paths written
/// with the platform separator pass too; a path with `\\` passes only where
/// that is the platform separator.
pub fn is_admin_instance(config_path: &str) -> (r: bool)
    ensures
        admin_config_path_with(config_path@, '/') ==> r,
        r ==> admin_config_path(config_path@),
{
    if admin_config_path_sep(config_path, '/') {
        return true;
    }
    let sep = crate::paths::main_separator();
    sep != '/' && admin_config_path_sep(config_path, sep)
}

/// Why an instance operation was refused.
#[derive(Debug, Clone, PartialEq, Eq)]
pub enum InstanceError {
    /// `admin` cannot be created.
    ReservedId,
    /// The id is empty after trimming.
    EmptyId,
    /// The id holds a path separator.
    PathSeparator,
    /// An instance with this id is already registered.
    AlreadyExists(String),
    /// `admin` cannot be deleted.
    CannotDeleteAdmin,
    /// No instance with this id is registered.
    NotFound(String),
}

impl InstanceError {
    pub open spec fn message_spec(&self) -> Seq<char> {
        match self {
            InstanceError::ReservedId => "Instance id 'admin' is reserved"@,
            InstanceError::EmptyId => "Instance id must be non-empty"@,
            InstanceError::PathSeparator => "Instance id must not contain path separators"@,
            InstanceError::AlreadyExists(id) => "Instance '"@ + id@ + "' already exists"@,
            InstanceError::CannotDeleteAdmin => "Cannot delete reserved instance 'admin'"@,
            InstanceError::NotFound(id) => "Instance '"@ + id@ + "' not found"@,
        }
    }

    /// The error text.
    pub fn message(&self) -> (r: String)
        ensures
            r@ == self.message_spec(),
    {
        match self {
            InstanceError::ReservedId => to_owned_string("Instance id 'admin' is reserved"),
            InstanceError::EmptyId => to_owned_string("Instance id must be non-empty"),
            InstanceError::PathSeparator => to_owned_string(
                "Instance id must not contain path separators",
            ),
            InstanceError::AlreadyExists(id) => {
                let mut r = to_owned_string("Instance '");
                r.append(id.as_str());
                r.append("' already exists");
                r
            },
            InstanceError::CannotDeleteAdmin => to_owned_string(
                "Cannot delete reserved instance 'admin'",
            ),
            InstanceError::NotFound(id) => {
                let mut r = to_owned_string("Instance '");
                r.append(id.as_str());
                r.append("' not found");
                r
            },
        }
    }
}

/// The id a new instance may take: the id is trimmed; `admin` (the admin
/// instance's id, reserved) is refused, and the id must be non-empty
/// without path separators.
pub fn validate_instance_id(id: &str) -> (r: Result<String, InstanceError>)
    ensures
        trim(id@) == ADMIN_INSTANCE_ID@ ==> r == Err::<String, InstanceError>(InstanceError::ReservedId),
        trim(id@) != ADMIN_INSTANCE_ID@ && trim(id@).len() == 0 ==> r == Err::<String, InstanceError>(
            InstanceError::EmptyId,
        ),
        trim(id@) != ADMIN_INSTANCE_ID@ && trim(id@).len() > 0 && trim(id@).contains('/') ==> r == Err::<
            String,
            InstanceError,
        >(InstanceError::PathSeparator),
        trim(id@) != ADMIN_INSTANCE_ID@ && trim(id@).len() > 0 && !trim(id@).contains('/') && !trim(
            id@,
        ).contains('\\') ==> (r matches Ok(s) && s@ == trim(id@)),
        r matches Ok(s) ==> s@ == trim(id@) && s@.len() > 0 && !s@.contains('/') && s@
            != ADMIN_INSTANCE_ID@,
{
    let id_clean = str_trim(id);
    if crate::text::str_eq(id_clean, ADMIN_INSTANCE_ID) {
        return Err(InstanceError::ReservedId);
    }
    if id_clean.is_empty() {
        return Err(InstanceError::EmptyId);
    }
    if str_contains_char(id_clean, crate::paths::main_separator()) || str_contains_char(id_clean, '/') {
        return Err(InstanceError::PathSeparator);
    }
    Ok(id_clean.to_owned())
}

/// What creating an instance does: where its directory, workspace and
/// config go, the config text, whether a CEO workspace is scaffolded, and
/// the registry entry.
pub struct InstanceCreatePlan {
    pub instance_dir: String,
    pub workspace_dir: String,
    pub config_path: String,
    pub config_text: String,
    pub scaffold_ceo: bool,
    pub entry: InstanceEntry,
}

/// `<root>/instances/<id>`.
pub open spec fn instance_dir_spec(cluster_root: Seq<char>, id: Seq<char>) -> Seq<char> {
    path_join(path_join(cluster_root, INSTANCES_DIR@), id)
}

/// The plan for instance `id` under `cluster_root`: the lowest free port,
/// the layout `instances/<id>/{config.toml,workspace}`, the config text,
/// and an entry with status `Created` (its creation time aside).
pub open spec fn plan_matches(
    reg: Seq<InstanceEntryView>,
    cluster_root: Seq<char>,
    id: Seq<char>,
    role: InstanceRole,
    preset: Option<Seq<char>>,
    plan: InstanceCreatePlan,
) -> bool {
    let port = plan.entry.gateway_port->Some_0;
    let dir = instance_dir_spec(cluster_root, id);
    &&& plan.entry.gateway_port is Some
    &&& port_choice_ok(ports_of(reg), port)
    &&& plan.instance_dir@ == dir
    &&& plan.workspace_dir@ == path_join(dir, "workspace"@)
    &&& plan.config_path@ == path_join(dir, "config.toml"@)
    &&& plan.config_text@ == minimal_config_text(port, preset)
    &&& plan.scaffold_ceo == preset_scaffolds_ceo(preset)
    &&& plan.entry@ == InstanceEntryView {
        id: id,
        role,
        status: InstanceStatus::Created,
        config_path: Some(plan.config_path@),
        workspace_path: Some(plan.workspace_dir@),
        gateway_port: Some(port),
        created_at: plan.entry@.created_at,
        constraints: None,
        preset: preset,
    }
}

/// Plan the creation of instance `id`, given raw, under `cluster_root`,
/// stamped with the current time: the id is validated as
/// `validate_instance_id` does, refused when registered (deleted entries
/// included), and otherwise planned as `plan_matches` says.
pub fn plan_instance_create(
    reg: &InstanceRegistry,
    cluster_root: &str,
    id: &str,
    role: InstanceRole,
    preset: Option<&str>,
) -> (r: Result<InstanceCreatePlan, InstanceError>)
    ensures
        trim(id@) == ADMIN_INSTANCE_ID@ ==> r == Err::<InstanceCreatePlan, InstanceError>(
            InstanceError::ReservedId,
        ),
        trim(id@) != ADMIN_INSTANCE_ID@ && trim(id@).len() == 0 ==> r == Err::<
            InstanceCreatePlan,
            InstanceError,
        >(InstanceError::EmptyId),
        trim(id@) != ADMIN_INSTANCE_ID@ && trim(id@).len() > 0 && trim(id@).contains('/') ==> r == Err::<
            InstanceCreatePlan,
            InstanceError,
        >(InstanceError::PathSeparator),
        trim(id@) != ADMIN_INSTANCE_ID@ && trim(id@).len() > 0 && !trim(id@).contains('/') && !trim(
            id@,
        ).contains('\\') ==> match index_of(reg@, trim(id@)) {
            Some(_) => r matches Err(InstanceError::AlreadyExists(x)) && x@ == trim(id@),
            None => r is Ok,
        },
        r matches Ok(plan) ==> trim(id@) != ADMIN_INSTANCE_ID@ && index_of(reg@, trim(id@)) is None
            && plan_matches(
            reg@,
            cluster_root@,
            trim(id@),
            role,
            opt_str(preset),
            plan,
        ) && plan.entry.created_at is Some,
{
    let clean = match validate_instance_id(id) {
        Ok(c) => c,
        Err(e) => return Err(e),
    };
    plan_instance_create_at(reg, cluster_root, clean.as_str(), role, preset, crate::clock::now_rfc3339())
}

/// Plan the creation of instance `id` (already validated) under
/// `cluster_root`, created at `created_at`: refused when the id is
/// registered; otherwise as `plan_matches` says.
pub fn plan_instance_create_at(
    reg: &InstanceRegistry,
    cluster_root: &str,
    id: &str,
    role: InstanceRole,
    preset: Option<&str>,
    created_at: String,
) -> (r: Result<InstanceCreatePlan, InstanceError>)
    ensures
        index_of(reg@, id@) is Some ==> (r matches Err(InstanceError::AlreadyExists(x)) && x@ == id@),
        index_of(reg@, id@) is None ==> (r matches Ok(plan) && plan_matches(
            reg@,
            cluster_root@,
            id@,
            role,
            opt_str(preset),
            plan,
        ) && plan.entry@.created_at == Some(created_at@)),
{
    if reg.position(id).is_some() {
        return Err(InstanceError::AlreadyExists(id.to_owned()));
    }
    let port = allocate_port(reg);
    let instances = join_path(cluster_root, INSTANCES_DIR);
    let instance_dir = join_path(instances.as_str(), id);
    let workspace_dir = join_path(instance_dir.as_str(), "workspace");
    let config_path = join_path(instance_dir.as_str(), "config.toml");
    let config_text = minimal_instance_config(port, preset);
    let scaffold_ceo = scaffolds_ceo(preset);
    let entry = InstanceEntry {
        id: id.to_owned(),
        role,
        status: InstanceStatus::Created,
        config_path: Some(config_path.clone()),
        workspace_path: Some(workspace_dir.clone()),
        gateway_port: Some(port),
        created_at: Some(created_at),
        constraints: None,
        preset: match preset {
            Some(p) => Some(p.to_owned()),
            None => None,
        },
    };
    Ok(InstanceCreatePlan { instance_dir, workspace_dir, config_path, config_text, scaffold_ceo, entry })
}

/// Soft-delete: mark instance `id` as `Deleted` (directories stay).
/// `admin` cannot be deleted; an unknown id is refused.
pub fn apply_instance_delete(reg: &mut InstanceRegistry, id: &str) -> (r: Result<(), InstanceError>)
    ensures
        id@ == ADMIN_INSTANCE_ID@ ==> r == Err::<(), InstanceError>(InstanceError::CannotDeleteAdmin)
            && *final(reg) == *old(reg),
        id@ != ADMIN_INSTANCE_ID@ ==> match index_of(old(reg)@, id@) {
            Some(k) => r is Ok && final(reg)@ == old(reg)@.update(
                k,
                InstanceEntryView { status: InstanceStatus::Deleted, ..old(reg)@[k] },
            ) && final(reg).version == old(reg).version,
            None => (r matches Err(InstanceError::NotFound(x)) && x@ == id@) && final(reg)@ == old(
                reg,
            )@ && final(reg).version == old(reg).version,
        },
{
    if crate::text::str_eq(id, ADMIN_INSTANCE_ID) {
        return Err(InstanceError::CannotDeleteAdmin);
    }
    if !reg.update_status(id, InstanceStatus::Deleted) {
        return Err(InstanceError::NotFound(id.to_owned()));
    }
    Ok(())
}

/// The entry of instance `id` unless it is missing or deleted.
pub open spec fn visible_entry(s: Seq<InstanceEntryView>, id: Seq<char>) -> Option<InstanceEntryView> {
    match lookup(s, id) {
        Some(e) => if e.status != InstanceStatus::Deleted {
            Some(e)
        } else {
            None
        },
        None => None,
    }
}

/// The entry of instance `id` if it exists and is not deleted.
pub fn instance_status_entry(reg: &InstanceRegistry, id: &str) -> (r: Option<InstanceEntry>)
    ensures
        match r {
            Some(e) => visible_entry(reg@, id@) == Some(e@),
            None => visible_entry(reg@, id@) is None,
        },
{
    match reg.get(id) {
        Some(e) => {
            if e.status != InstanceStatus::Deleted {
                Some(e.duplicate())
            } else {
                None
            }
        },
        None => None,
    }
}

} // verus!
