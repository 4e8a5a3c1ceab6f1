//! Instance registry: the content of `instances.json` at the cluster root.
//!
//! Used in cluster mode for the multi-instance layout. A single-instance
//! setup has no `instances.json` and no `instances/` directory.

use vstd::prelude::*;
use crate::paths::{join_path, path_join};
use crate::text::{copy_opt, opt_view, str_eq};

verus! {

/// Current format version of `instances.json`.
pub const REGISTRY_VERSION: u32 = 1;

/// File name of the registry under the cluster root.
pub const INSTANCES_FILENAME: &'static str = "instances.json";

/// Role of an instance in the cluster.
#[derive(Debug, Clone, Copy, PartialEq, Eq, Structural)]
pub enum InstanceRole {
    Admin,
    Normal,
}

/// Runtime status of an instance.
#[derive(Debug, Clone, Copy, PartialEq, Eq, Structural)]
pub enum InstanceStatus {
    Created,
    Running,
    Stopped,
    Deleted,
}

/// Optional limits of an instance.
#[derive(Debug, Clone, Copy, PartialEq, Eq, Structural)]
pub struct InstanceConstraints {
    /// Maximum number of entities (agents) in this instance.
    pub agent_max: Option<u32>,
    /// Call quota per period.
    pub call_quota: Option<u64>,
    /// Cost limit per day, in cents.
    pub cost_per_day_cents: Option<u64>,
}

impl Default for InstanceConstraints {
    fn default() -> (r: Self)
        ensures
            r.agent_max is None,
            r.call_quota is None,
            r.cost_per_day_cents is None,
    {
        InstanceConstraints { agent_max: None, call_quota: None, cost_per_day_cents: None }
    }
}

/// One entry of the registry.
#[derive(Debug, Clone)]
pub struct InstanceEntry {
    pub id: String,
    pub role: InstanceRole,
    pub status: InstanceStatus,
    pub config_path: Option<String>,
    pub workspace_path: Option<String>,
    pub gateway_port: Option<u16>,
    pub created_at: Option<String>,
    pub constraints: Option<InstanceConstraints>,
    pub preset: Option<String>,
}

pub struct InstanceEntryView {
    pub id: Seq<char>,
    pub role: InstanceRole,
    pub status: InstanceStatus,
    pub config_path: Option<Seq<char>>,
    pub workspace_path: Option<Seq<char>>,
    pub gateway_port: Option<u16>,
    pub created_at: Option<Seq<char>>,
    pub constraints: Option<InstanceConstraints>,
    pub preset: Option<Seq<char>>,
}

impl View for InstanceEntry {
    type V = InstanceEntryView;

    open spec fn view(&self) -> InstanceEntryView {
        InstanceEntryView {
            id: self.id@,
            role: self.role,
            status: self.status,
            config_path: opt_view(self.config_path),
            workspace_path: opt_view(self.workspace_path),
            gateway_port: self.gateway_port,
            created_at: opt_view(self.created_at),
            constraints: self.constraints,
            preset: opt_view(self.preset),
        }
    }
}

impl InstanceEntry {
    /// A copy with the same view.
    pub fn duplicate(&self) -> (r: Self)
        ensures
            r@ == self@,
    {
        InstanceEntry {
            id: self.id.clone(),
            role: self.role,
            status: self.status,
            config_path: copy_opt(&self.config_path),
            workspace_path: copy_opt(&self.workspace_path),
            gateway_port: self.gateway_port,
            created_at: copy_opt(&self.created_at),
            constraints: self.constraints,
            preset: copy_opt(&self.preset),
        }
    }
}

/// The registry: a format version and the instance entries, in the order
/// they were added.
#[derive(Debug, Clone)]
pub struct InstanceRegistry {
    pub version: u32,
    pub instances: Vec<InstanceEntry>,
}

pub open spec fn entry_views(v: Seq<InstanceEntry>) -> Seq<InstanceEntryView> {
    Seq::new(v.len(), |i: int| v[i]@)
}

/// The position of the first entry of `s` with id `id`.
pub open spec fn index_of(s: Seq<InstanceEntryView>, id: Seq<char>) -> Option<int>
    decreases s.len(),
{
    if s.len() == 0 {
        None
    } else if s[0].id == id {
        Some(0)
    } else {
        match index_of(s.drop_first(), id) {
            Some(k) => Some(k + 1),
            None => None,
        }
    }
}

/// The first entry of `s` with id `id`.
pub open spec fn lookup(s: Seq<InstanceEntryView>, id: Seq<char>) -> Option<InstanceEntryView> {
    match index_of(s, id) {
        Some(k) => Some(s[k]),
        None => None,
    }
}

/// The gateway ports that the entries of `s` hold, in order.
pub open spec fn ports_of(s: Seq<InstanceEntryView>) -> Seq<u16>
    decreases s.len(),
{
    if s.len() == 0 {
        Seq::empty()
    } else {
        let prev = ports_of(s.drop_last());
        match s.last().gateway_port {
            Some(p) => prev.push(p),
            None => prev,
        }
    }
}

/// `index_of` finds an entry with the id, at a position inside `s`, and no
/// earlier entry has the id.
pub proof fn lemma_index_of(s: Seq<InstanceEntryView>, id: Seq<char>)
    ensures
        match index_of(s, id) {
            Some(k) => 0 <= k < s.len() && s[k].id == id && forall|j: int|
                0 <= j < k ==> s[j].id != id,
            None => forall|j: int| 0 <= j < s.len() ==> s[j].id != id,
        },
    decreases s.len(),
{
    if s.len() > 0 {
        lemma_index_of(s.drop_first(), id);
        if s[0].id != id {
            match index_of(s.drop_first(), id) {
                Some(k) => {
                    assert forall|j: int| 0 <= j < k + 1 implies s[j].id != id by {
                        if j > 0 {
                            assert(s[j] == s.drop_first()[j - 1]);
                        }
                    }
                },
                None => {
                    assert forall|j: int| 0 <= j < s.len() implies s[j].id != id by {
                        if j > 0 {
                            assert(s[j] == s.drop_first()[j - 1]);
                        }
                    }
                },
            }
        }
    }
}

/// After appending an entry whose id was not registered, looking the id up
/// finds that entry, and every id registered before finds what it found.
pub proof fn law_add_then_get(s: Seq<InstanceEntryView>, e: InstanceEntryView, other: Seq<char>)
    ensures
        index_of(s, e.id) is None ==> lookup(s.push(e), e.id) == Some(e),
        lookup(s, other) is Some ==> lookup(s.push(e), other) == lookup(s, other),
{
    lemma_index_of(s, e.id);
    lemma_index_of(s, other);
    lemma_index_of(s.push(e), e.id);
    lemma_index_of(s.push(e), other);
    if index_of(s, e.id) is None {
        lemma_index_of_first(s.push(e), e.id, s.len() as int);
    }
    if let Some(k) = index_of(s, other) {
        lemma_index_of_first(s.push(e), other, k);
    }
}

/// The position found by scanning: the first entry with the id.
proof fn lemma_index_of_first(s: Seq<InstanceEntryView>, id: Seq<char>, k: int)
    requires
        0 <= k < s.len(),
        s[k].id == id,
        forall|j: int| 0 <= j < k ==> s[j].id != id,
    ensures
        index_of(s, id) == Some(k),
    decreases s.len(),
{
    if k > 0 {
        assert forall|j: int| 0 <= j < k - 1 implies s.drop_first()[j].id != id by {
            assert(s.drop_first()[j] == s[j + 1]);
        }
        lemma_index_of_first(s.drop_first(), id, k - 1);
    }
}

impl View for InstanceRegistry {
    type V = Seq<InstanceEntryView>;

    open spec fn view(&self) -> Seq<InstanceEntryView> {
        entry_views(self.instances@)
    }
}

impl Default for InstanceRegistry {
    fn default() -> (r: Self)
        ensures
            r.version == REGISTRY_VERSION,
            r@.len() == 0,
    {
        let r = InstanceRegistry { version: REGISTRY_VERSION, instances: Vec::new() };
        assert(r@ =~= Seq::<InstanceEntryView>::empty());
        r
    }
}

/// `<cluster_root>/instances.json`.
pub open spec fn registry_path_spec(cluster_root: Seq<char>) -> Seq<char> {
    path_join(cluster_root, INSTANCES_FILENAME@)
}

impl InstanceRegistry {
    /// Path of `instances.json` under the given cluster root.
    pub fn path_for_cluster_root(cluster_root: &str) -> (r: String)
        ensures
            r@ == registry_path_spec(cluster_root@),
    {
        join_path(cluster_root, INSTANCES_FILENAME)
    }

    /// The position of the first entry with id `id`.
    pub fn position(&self, id: &str) -> (r: Option<usize>)
        ensures
            match r {
                Some(k) => index_of(self@, id@) == Some(k as int) && k < self.instances@.len(),
                None => index_of(self@, id@) is None,
            },
    {
        let mut i: usize = 0;
        while i < self.instances.len()
            invariant
                i <= self.instances@.len(),
                forall|j: int| 0 <= j < i ==> self@[j].id != id@,
            decreases self.instances.len() - i,
        {
            if str_eq(self.instances[i].id.as_str(), id) {
                proof {
                    lemma_index_of_first(self@, id@, i as int);
                }
                return Some(i);
            }
            i = i + 1;
        }
        proof {
            lemma_index_of(self@, id@);
            if index_of(self@, id@) is Some {
                let k = index_of(self@, id@)->Some_0;
                assert(self@[k].id == id@);
            }
        }
        None
    }

    /// The first entry with id `id`.
    pub fn get(&self, id: &str) -> (r: Option<&InstanceEntry>)
        ensures
            match r {
                Some(e) => lookup(self@, id@) == Some(e@),
                None => lookup(self@, id@) is None,
            },
    {
        match self.position(id) {
            Some(k) => Some(&self.instances[k]),
            None => None,
        }
    }

    /// The first entry with id `id`, for update.
    pub fn get_mut(&mut self, id: &str) -> (r: Option<&mut InstanceEntry>)
        ensures
            match index_of(old(self)@, id@) {
                Some(k) => r matches Some(e) && *e == old(self).instances@[k]
                    && final(self).instances@ == old(self).instances@.update(k, *final(e))
                    && final(self).version == old(self).version,
                None => r is None && *final(self) == *old(self),
            },
    {
        match self.position(id) {
            Some(k) => Some(&mut self.instances[k]),
            None => None,
        }
    }

    /// Append an entry. Does not check for a duplicate id.
    pub fn add(&mut self, entry: InstanceEntry)
        ensures
            final(self)@ == old(self)@.push(entry@),
            final(self).version == old(self).version,
    {
        let ghost before = self.instances@;
        self.instances.push(entry);
        assert(entry_views(self.instances@) =~= entry_views(before).push(entry@));
    }

    /// Set the status of the first entry with id `id`. Returns whether such
    /// an entry exists.
    pub fn update_status(&mut self, id: &str, status: InstanceStatus) -> (found: bool)
        ensures
            found == (index_of(old(self)@, id@) is Some),
            final(self).version == old(self).version,
            match index_of(old(self)@, id@) {
                Some(k) => final(self)@ == old(self)@.update(
                    k,
                    InstanceEntryView { status, ..old(self)@[k] },
                ),
                None => final(self)@ == old(self)@,
            },
    {
        match self.position(id) {
            Some(k) => {
                let ghost before = self.instances@;
                let mut e = self.instances[k].duplicate();
                e.status = status;
                let ghost ev = e@;
                self.instances.set(k, e);
                assert(entry_views(self.instances@) =~= entry_views(before).update(k as int, ev));
                true
            },
            None => false,
        }
    }

    /// The gateway ports already allocated, in entry order.
    pub fn allocated_ports(&self) -> (r: Vec<u16>)
        ensures
            r@ == ports_of(self@),
    {
        let mut r: Vec<u16> = Vec::new();
        let mut i: usize = 0;
        while i < self.instances.len()
            invariant
                i <= self.instances@.len(),
                r@ == ports_of(self@.take(i as int)),
            decreases self.instances.len() - i,
        {
            assert(self@.take(i + 1).drop_last() =~= self@.take(i as int));
            assert(self@.take(i + 1).last() == self.instances@[i as int]@);
            if let Some(p) = self.instances[i].gateway_port {
                r.push(p);
            }
            i = i + 1;
        }
        assert(self@.take(self@.len() as int) =~= self@);
        r
    }
}

} // verus!
