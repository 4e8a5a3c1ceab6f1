//! Single-instance multi-entity runtime: `EntityRuntime` and `EntityPool`,
//! built from `[instance]`, plus the layout of entity and team workspaces.

use vstd::prelude::*;
use vstd::string::*;
use crate::config::{Config, EntityConfig, EntityConfigView, InstanceConfig, InstanceConfigView};
use crate::paths::{join_path, path_join};
use crate::text::{
    copy_opt, copy_opt_strings, copy_strings, opt_view, strings_contain, str_eq,
    to_owned_string, u64_to_string, views, decimal,
};

verus! {

/// Directory name under an instance workspace for per-entity workspaces.
pub const ENTITIES_DIR: &'static str = "entities";

/// Directory name under an instance workspace for per-team workspaces.
pub const TEAMS_DIR: &'static str = "teams";

/// Fixed entity id of the CEO entity.
pub const CEO_ENTITY_ID: &'static str = "ceo";

/// `workspace/entities/<entity_id>`.
pub open spec fn entity_dir_spec(workspace_dir: Seq<char>, entity_id: Seq<char>) -> Seq<char> {
    path_join(path_join(workspace_dir, ENTITIES_DIR@), entity_id)
}

/// `workspace/teams/<team_id>`.
pub open spec fn team_dir_spec(workspace_dir: Seq<char>, team_id: Seq<char>) -> Seq<char> {
    path_join(path_join(workspace_dir, TEAMS_DIR@), team_id)
}

/// The workspace root of an entity: `workspace/entities/<entity_id>/`.
pub fn entity_workspace_dir(workspace_dir: &str, entity_id: &str) -> (r: String)
    ensures
        r@ == entity_dir_spec(workspace_dir@, entity_id@),
{
    let base = join_path(workspace_dir, ENTITIES_DIR);
    join_path(base.as_str(), entity_id)
}

/// The workspace root of a team: `workspace/teams/<team_id>/`.
pub fn team_workspace_dir(workspace_dir: &str, team_id: &str) -> (r: String)
    ensures
        r@ == team_dir_spec(workspace_dir@, team_id@),
{
    let base = join_path(workspace_dir, TEAMS_DIR);
    join_path(base.as_str(), team_id)
}

/// Runtime view of one entity: id, provider/model overrides, tool allowlist
/// and skill-package allowlist.
#[derive(Debug, Clone)]
pub struct EntityRuntime {
    pub id: String,
    pub provider_override: Option<String>,
    pub model_override: Option<String>,
    /// Executable tools this entity may use (empty: no per-entity filter).
    pub skills_allowlist: Vec<String>,
    /// Skill package ids `load_skill` may read for this entity.
    pub skill_allowlist: Vec<String>,
}

pub struct EntityRuntimeView {
    pub id: Seq<char>,
    pub provider_override: Option<Seq<char>>,
    pub model_override: Option<Seq<char>>,
    pub skills_allowlist: Seq<Seq<char>>,
    pub skill_allowlist: Seq<Seq<char>>,
}

impl View for EntityRuntime {
    type V = EntityRuntimeView;

    open spec fn view(&self) -> EntityRuntimeView {
        EntityRuntimeView {
            id: self.id@,
            provider_override: opt_view(self.provider_override),
            model_override: opt_view(self.model_override),
            skills_allowlist: views(self.skills_allowlist@),
            skill_allowlist: views(self.skill_allowlist@),
        }
    }
}

impl EntityRuntime {
    /// A copy with the same view.
    pub fn duplicate(&self) -> (r: Self)
        ensures
            r@ == self@,
    {
        EntityRuntime {
            id: self.id.clone(),
            provider_override: copy_opt(&self.provider_override),
            model_override: copy_opt(&self.model_override),
            skills_allowlist: copy_strings(&self.skills_allowlist),
            skill_allowlist: copy_strings(&self.skill_allowlist),
        }
    }
}

/// `a.or(b)` on optional values.
pub open spec fn or_else<A>(a: Option<A>, b: Option<A>) -> Option<A> {
    match a {
        Some(x) => Some(x),
        None => b,
    }
}

/// `o.unwrap_or_default()` on an optional list.
pub open spec fn or_empty(o: Option<Seq<Seq<char>>>) -> Seq<Seq<char>> {
    match o {
        Some(v) => v,
        None => Seq::empty(),
    }
}

/// The CEO is enabled unless `[instance.ceo] enabled = false`.
pub open spec fn ceo_enabled_spec(inst: InstanceConfigView) -> bool {
    match inst.ceo {
        None => true,
        Some(e) => match e {
            Some(b) => b,
            None => true,
        },
    }
}

/// The runtime of the CEO entity: the instance defaults, no allowlists.
pub open spec fn ceo_runtime(inst: InstanceConfigView) -> EntityRuntimeView {
    EntityRuntimeView {
        id: CEO_ENTITY_ID@,
        provider_override: inst.default_provider,
        model_override: inst.default_model,
        skills_allowlist: Seq::empty(),
        skill_allowlist: Seq::empty(),
    }
}

/// The runtime of a configured entity: its own provider/model, else the
/// instance defaults.
pub open spec fn configured_runtime(e: EntityConfigView, inst: InstanceConfigView) -> EntityRuntimeView {
    EntityRuntimeView {
        id: e.id,
        provider_override: or_else(e.provider, inst.default_provider),
        model_override: or_else(e.model, inst.default_model),
        skills_allowlist: or_empty(e.skills),
        skill_allowlist: or_empty(e.skill_allowlist),
    }
}

/// The entities a pool built from `inst` holds: the CEO (when enabled)
/// followed by the configured entities, in order.
pub open spec fn pool_entities(inst: InstanceConfigView) -> Seq<EntityRuntimeView> {
    let ceo = if ceo_enabled_spec(inst) {
        seq![ceo_runtime(inst)]
    } else {
        Seq::empty()
    };
    ceo + Seq::new(inst.entities.len(), |i: int| configured_runtime(inst.entities[i], inst))
}

/// The first entity of `s` with id `id`.
pub open spec fn find_by_id(s: Seq<EntityRuntimeView>, id: Seq<char>) -> Option<EntityRuntimeView>
    decreases s.len(),
{
    if s.len() == 0 {
        None
    } else if s[0].id == id {
        Some(s[0])
    } else {
        find_by_id(s.drop_first(), id)
    }
}

/// The ids of `s`, in order.
pub open spec fn ids(s: Seq<EntityRuntimeView>) -> Seq<Seq<char>> {
    Seq::new(s.len(), |i: int| s[i].id)
}

/// The runtime `create_entity` makes from an entity config.
pub open spec fn created_runtime(c: EntityConfigView) -> EntityRuntimeView {
    EntityRuntimeView {
        id: c.id,
        provider_override: c.provider,
        model_override: c.model,
        skills_allowlist: or_empty(c.skills),
        skill_allowlist: or_empty(c.skill_allowlist),
    }
}

/// `s` with the skill ids of `add` that it lacks appended, in order.
pub open spec fn merge_ids(s: Seq<Seq<char>>, add: Seq<Seq<char>>) -> Seq<Seq<char>>
    decreases add.len(),
{
    if add.len() == 0 {
        s
    } else {
        let prev = merge_ids(s, add.drop_last());
        if prev.contains(add.last()) {
            prev
        } else {
            prev.push(add.last())
        }
    }
}

/// Why `create_entity` or `merge_skill_allowlist` refused.
#[derive(Debug, Clone)]
pub enum EntityPoolError {
    /// The pool already holds `agent_max` entities or more.
    LimitReached { limit: u32, id: String },
    /// An entity with this id is already in the pool.
    AlreadyExists { id: String },
    /// No entity with this id is in the pool.
    UnknownEntity { id: String },
}

pub open spec fn limit_message(limit: u32, id: Seq<char>) -> Seq<char> {
    "entity limit reached (agent_max = "@ + decimal(limit as nat) + "); cannot create entity '"@ + id
        + "'"@
}

pub open spec fn exists_message(id: Seq<char>) -> Seq<char> {
    "entity '"@ + id + "' already exists"@
}

pub open spec fn unknown_message(id: Seq<char>) -> Seq<char> {
    "unknown entity '"@ + id + "'"@
}

impl EntityPoolError {
    pub open spec fn message_spec(&self) -> Seq<char> {
        match self {
            EntityPoolError::LimitReached { limit, id } => limit_message(*limit, id@),
            EntityPoolError::AlreadyExists { id } => exists_message(id@),
            EntityPoolError::UnknownEntity { id } => unknown_message(id@),
        }
    }

    /// The error text.
    pub fn message(&self) -> (r: String)
        ensures
            r@ == self.message_spec(),
    {
        match self {
            EntityPoolError::LimitReached { limit, id } => {
                let mut r = to_owned_string("entity limit reached (agent_max = ");
                let n = u64_to_string(*limit as u64);
                r.append(n.as_str());
                r.append("); cannot create entity '");
                r.append(id.as_str());
                r.append("'");
                r
            },
            EntityPoolError::AlreadyExists { id } => {
                let mut r = to_owned_string("entity '");
                r.append(id.as_str());
                r.append("' already exists");
                r
            },
            EntityPoolError::UnknownEntity { id } => {
                let mut r = to_owned_string("unknown entity '");
                r.append(id.as_str());
                r.append("'");
                r
            },
        }
    }
}

/// The entities (CEO and configured ones) of one instance.
#[derive(Debug)]
pub struct EntityPool {
    entities: Vec<EntityRuntime>,
}

pub open spec fn runtime_views(v: Seq<EntityRuntime>) -> Seq<EntityRuntimeView> {
    Seq::new(v.len(), |i: int| v[i]@)
}

impl View for EntityPool {
    type V = Seq<EntityRuntimeView>;

    closed spec fn view(&self) -> Seq<EntityRuntimeView> {
        runtime_views(self.entities@)
    }
}

impl Default for EntityPool {
    fn default() -> (r: Self)
        ensures
            r@.len() == 0,
    {
        let r = EntityPool { entities: Vec::new() };
        assert(r@ =~= Seq::<EntityRuntimeView>::empty());
        r
    }
}

impl EntityPool {
    /// A pool holding exactly `entities`, in order.
    pub fn from_entities(entities: Vec<EntityRuntime>) -> (r: Self)
        ensures
            r@ == runtime_views(entities@),
    {
        EntityPool { entities }
    }

    /// The CEO counts as an entity unless `[instance.ceo] enabled = false`.
    pub fn ceo_enabled(instance: &InstanceConfig) -> (r: bool)
        ensures
            r == ceo_enabled_spec(instance@),
    {
        match &instance.ceo {
            None => true,
            Some(c) => match c.enabled {
                Some(b) => b,
                None => true,
            },
        }
    }

    /// Build the pool of an instance. `None` when `config.instance` is absent
    /// or the pool would be empty.
    pub fn from_config(config: &Config) -> (r: Option<EntityPool>)
        ensures
            match config.instance {
                None => r is None,
                Some(inst) => {
                    if pool_entities(inst@).len() == 0 {
                        r is None
                    } else {
                        r matches Some(p) && p@ == pool_entities(inst@)
                    }
                },
            },
    {
        let instance = match &config.instance {
            Some(i) => i,
            None => return None,
        };
        let ghost inst = instance@;
        let mut entities: Vec<EntityRuntime> = Vec::new();
        let ghost head: Seq<EntityRuntimeView> = if ceo_enabled_spec(inst) {
            seq![ceo_runtime(inst)]
        } else {
            Seq::empty()
        };
        if Self::ceo_enabled(instance) {
            let rt = EntityRuntime {
                id: to_owned_string(CEO_ENTITY_ID),
                provider_override: copy_opt(&instance.default_provider),
                model_override: copy_opt(&instance.default_model),
                skills_allowlist: Vec::new(),
                skill_allowlist: Vec::new(),
            };
            assert(rt@.skills_allowlist =~= Seq::<Seq<char>>::empty());
            assert(rt@.skill_allowlist =~= Seq::<Seq<char>>::empty());
            assert(rt@ == ceo_runtime(inst));
            entities.push(rt);
            assert(runtime_views(entities@) =~= head);
        } else {
            assert(runtime_views(entities@) =~= head);
        }
        let mut i: usize = 0;
        while i < instance.entities.len()
            invariant
                inst == instance@,
                i <= instance.entities@.len(),
                runtime_views(entities@) == head + Seq::new(
                    i as nat,
                    |k: int| configured_runtime(inst.entities[k], inst),
                ),
            decreases instance.entities.len() - i,
        {
            let e = &instance.entities[i];
            assert(inst.entities[i as int] == e@);
            let provider = match &e.provider {
                Some(p) => Some(p.clone()),
                None => copy_opt(&instance.default_provider),
            };
            let model = match &e.model {
                Some(m) => Some(m.clone()),
                None => copy_opt(&instance.default_model),
            };
            let skills = match &e.skills {
                Some(v) => copy_strings(v),
                None => Vec::new(),
            };
            let packages = match &e.skill_allowlist {
                Some(v) => copy_strings(v),
                None => Vec::new(),
            };
            let rt = EntityRuntime {
                id: e.id.clone(),
                provider_override: provider,
                model_override: model,
                skills_allowlist: skills,
                skill_allowlist: packages,
            };
            assert(rt@.skills_allowlist =~= or_empty(e@.skills));
            assert(rt@.skill_allowlist =~= or_empty(e@.skill_allowlist));
            assert(rt@ == configured_runtime(inst.entities[i as int], inst));
            let ghost prev = entities@;
            let ghost rv = rt@;
            entities.push(rt);
            assert(runtime_views(entities@) =~= runtime_views(prev).push(rv));
            i = i + 1;
            assert(runtime_views(entities@) =~= head + Seq::new(
                i as nat,
                |k: int| configured_runtime(inst.entities[k], inst),
            ));
        }
        assert(pool_entities(inst) =~= runtime_views(entities@));
        if entities.len() == 0 {
            return None;
        }
        Some(EntityPool { entities })
    }

    /// The first entity with id `id`, copied.
    pub fn get(&self, id: &str) -> (r: Option<EntityRuntime>)
        ensures
            match r {
                Some(e) => find_by_id(self@, id@) == Some(e@),
                None => find_by_id(self@, id@) is None,
            },
    {
        let ghost s = self@;
        let mut i: usize = 0;
        assert(s.subrange(0, s.len() as int) =~= s);
        while i < self.entities.len()
            invariant
                s == self@,
                s.len() == self.entities@.len(),
                i <= s.len(),
                find_by_id(s, id@) == find_by_id(s.subrange(i as int, s.len() as int), id@),
            decreases self.entities.len() - i,
        {
            let e = &self.entities[i];
            assert(s[i as int] == e@);
            assert(s.subrange(i as int, s.len() as int)[0] == e@);
            if str_eq(e.id.as_str(), id) {
                return Some(e.duplicate());
            }
            assert(s.subrange(i as int, s.len() as int).drop_first() =~= s.subrange(
                i + 1,
                s.len() as int,
            ));
            i = i + 1;
        }
        None
    }

    /// The CEO entity, if present.
    pub fn get_ceo(&self) -> (r: Option<EntityRuntime>)
        ensures
            match r {
                Some(e) => find_by_id(self@, CEO_ENTITY_ID@) == Some(e@),
                None => find_by_id(self@, CEO_ENTITY_ID@) is None,
            },
    {
        self.get(CEO_ENTITY_ID)
    }

    /// All entity ids, in order.
    pub fn list(&self) -> (r: Vec<String>)
        ensures
            views(r@) == ids(self@),
    {
        let mut r: Vec<String> = Vec::new();
        let mut i: usize = 0;
        while i < self.entities.len()
            invariant
                i <= self.entities@.len(),
                r@.len() == i,
                forall|k: int| 0 <= k < i ==> #[trigger] r@[k]@ == self.entities@[k].id@,
            decreases self.entities.len() - i,
        {
            r.push(self.entities[i].id.clone());
            i = i + 1;
        }
        assert(views(r@) =~= ids(self@));
        r
    }

    /// The number of entities.
    pub fn len(&self) -> (r: usize)
        ensures
            r == self@.len(),
    {
        self.entities.len()
    }

    fn has_id(&self, id: &str) -> (r: bool)
        ensures
            r == ids(self@).contains(id@),
    {
        let mut i: usize = 0;
        while i < self.entities.len()
            invariant
                i <= self.entities@.len(),
                forall|k: int| 0 <= k < i ==> self.entities@[k].id@ != id@,
            decreases self.entities.len() - i,
        {
            if str_eq(self.entities[i].id.as_str(), id) {
                assert(ids(self@)[i as int] == id@);
                return true;
            }
            i = i + 1;
        }
        assert(!ids(self@).contains(id@)) by {
            if ids(self@).contains(id@) {
                let k = choose|k: int| 0 <= k < ids(self@).len() && ids(self@)[k] == id@;
                assert(self.entities@[k].id@ == id@);
            }
        }
        false
    }

    /// Add an entity at runtime. Refused when the pool already holds
    /// `agent_max` (default `u32::MAX`) entities, or the id is taken.
    pub fn create_entity(&mut self, config: EntityConfig, agent_max: Option<u32>) -> (r: Result<
        EntityRuntime,
        EntityPoolError,
    >)
        ensures
            ({
                let limit: u32 = match agent_max {
                    Some(m) => m,
                    None => u32::MAX,
                };
                if (old(self)@.len() as u32) >= limit {
                    &&& r matches Err(EntityPoolError::LimitReached { limit: l, id })
                    &&& l == limit
                    &&& id@ == config@.id
                    &&& final(self)@ == old(self)@
                } else if ids(old(self)@).contains(config@.id) {
                    &&& r matches Err(EntityPoolError::AlreadyExists { id })
                    &&& id@ == config@.id
                    &&& final(self)@ == old(self)@
                } else {
                    &&& r matches Ok(rt)
                    &&& rt@ == created_runtime(config@)
                    &&& final(self)@ == old(self)@.push(created_runtime(config@))
                }
            }),
    {
        let limit: u32 = match agent_max {
            Some(m) => m,
            None => u32::MAX,
        };
        let n = self.entities.len();
        if (n as u32) >= limit {
            return Err(EntityPoolError::LimitReached { limit, id: config.id });
        }
        if self.has_id(config.id.as_str()) {
            return Err(EntityPoolError::AlreadyExists { id: config.id });
        }
        let ghost cv = config@;
        let skills = match config.skills {
            Some(v) => v,
            None => Vec::new(),
        };
        let packages = match config.skill_allowlist {
            Some(v) => v,
            None => Vec::new(),
        };
        let runtime = EntityRuntime {
            id: config.id,
            provider_override: config.provider,
            model_override: config.model,
            skills_allowlist: skills,
            skill_allowlist: packages,
        };
        assert(runtime@.skills_allowlist =~= or_empty(cv.skills));
        assert(runtime@.skill_allowlist =~= or_empty(cv.skill_allowlist));
        let copy = runtime.duplicate();
        let ghost before = self.entities@;
        self.entities.push(runtime);
        assert(runtime_views(self.entities@) =~= runtime_views(before).push(created_runtime(cv)));
        Ok(copy)
    }

    /// Add skill package ids to the skill allowlist of the first entity with
    /// id `entity_id`, skipping ids it already has. Refused for an unknown
    /// entity.
    pub fn merge_skill_allowlist(&mut self, entity_id: &str, skills: &Vec<String>) -> (r: Result<
        (),
        EntityPoolError,
    >)
        ensures
            match index_of_id(old(self)@, entity_id@) {
                None => (r matches Err(EntityPoolError::UnknownEntity { id }) && id@ == entity_id@)
                    && final(self)@ == old(self)@,
                Some(k) => r is Ok && final(self)@ == old(self)@.update(
                    k,
                    EntityRuntimeView {
                        skill_allowlist: merge_ids(old(self)@[k].skill_allowlist, views(skills@)),
                        ..old(self)@[k]
                    },
                ),
            },
    {
        let k = match self.position(entity_id) {
            Some(k) => k,
            None => return Err(EntityPoolError::UnknownEntity { id: entity_id.to_owned() }),
        };
        let mut e = self.entities[k].duplicate();
        let ghost orig = e@;
        let ghost add = views(skills@);
        let mut i: usize = 0;
        while i < skills.len()
            invariant
                add == views(skills@),
                i <= skills@.len(),
                e@ == (EntityRuntimeView {
                    skill_allowlist: merge_ids(orig.skill_allowlist, add.take(i as int)),
                    ..orig
                }),
            decreases skills.len() - i,
        {
            assert(add.take(i + 1).drop_last() =~= add.take(i as int));
            assert(add.take(i + 1).last() == skills@[i as int]@);
            if !strings_contain(&e.skill_allowlist, skills[i].as_str()) {
                let ghost before = e@;
                crate::text::push_str(&mut e.skill_allowlist, skills[i].as_str());
            }
            i = i + 1;
        }
        assert(add.take(skills@.len() as int) =~= add);
        let ghost before = self.entities@;
        let ghost ev = e@;
        self.entities.set(k, e);
        assert(runtime_views(self.entities@) =~= runtime_views(before).update(k as int, ev));
        Ok(())
    }

    /// The position of the first entity with id `id`.
    fn position(&self, id: &str) -> (r: Option<usize>)
        ensures
            match r {
                Some(k) => index_of_id(self@, id@) == Some(k as int) && k < self@.len(),
                None => index_of_id(self@, id@) is None,
            },
    {
        let mut i: usize = 0;
        while i < self.entities.len()
            invariant
                i <= self.entities@.len(),
                forall|j: int| 0 <= j < i ==> self@[j].id != id@,
            decreases self.entities.len() - i,
        {
            if str_eq(self.entities[i].id.as_str(), id) {
                proof {
                    lemma_index_of_id_first(self@, id@, i as int);
                }
                return Some(i);
            }
            i = i + 1;
        }
        proof {
            lemma_index_of_id(self@, id@);
            if index_of_id(self@, id@) is Some {
                let k = index_of_id(self@, id@)->Some_0;
                assert(self@[k].id == id@);
            }
        }
        None
    }
}

/// The position of the first entity of `s` with id `id`.
pub open spec fn index_of_id(s: Seq<EntityRuntimeView>, id: Seq<char>) -> Option<int>
    decreases s.len(),
{
    if s.len() == 0 {
        None
    } else if s[0].id == id {
        Some(0)
    } else {
        match index_of_id(s.drop_first(), id) {
            Some(k) => Some(k + 1),
            None => None,
        }
    }
}

proof fn lemma_index_of_id(s: Seq<EntityRuntimeView>, id: Seq<char>)
    ensures
        match index_of_id(s, id) {
            Some(k) => 0 <= k < s.len() && s[k].id == id,
            None => forall|j: int| 0 <= j < s.len() ==> s[j].id != id,
        },
    decreases s.len(),
{
    if s.len() > 0 {
        lemma_index_of_id(s.drop_first(), id);
        if s[0].id != id {
            if index_of_id(s.drop_first(), id) is None {
                assert forall|j: int| 0 <= j < s.len() implies s[j].id != id by {
                    if j > 0 {
                        assert(s[j] == s.drop_first()[j - 1]);
                    }
                }
            }
        }
    }
}

proof fn lemma_index_of_id_first(s: Seq<EntityRuntimeView>, id: Seq<char>, k: int)
    requires
        0 <= k < s.len(),
        s[k].id == id,
        forall|j: int| 0 <= j < k ==> s[j].id != id,
    ensures
        index_of_id(s, id) == Some(k),
    decreases s.len(),
{
    if k > 0 {
        assert forall|j: int| 0 <= j < k - 1 implies s.drop_first()[j].id != id by {
            assert(s.drop_first()[j] == s[j + 1]);
        }
        lemma_index_of_id_first(s.drop_first(), id, k - 1);
    }
}

/// `find_by_id` finds nothing exactly when no entity has the id.
proof fn lemma_find_by_id_none(s: Seq<EntityRuntimeView>, id: Seq<char>)
    ensures
        (find_by_id(s, id) is None) == !ids(s).contains(id),
    decreases s.len(),
{
    if s.len() > 0 {
        lemma_find_by_id_none(s.drop_first(), id);
        assert(ids(s.drop_first()) =~= ids(s).drop_first());
        if s[0].id != id {
            if ids(s).contains(id) {
                let j = choose|j: int| 0 <= j < ids(s).len() && ids(s)[j] == id;
                assert(j > 0);
                assert(ids(s.drop_first())[j - 1] == id);
            }
        } else {
            assert(ids(s)[0] == id);
        }
    } else {
        assert(!ids(s).contains(id));
    }
}

/// `find_by_id` and `index_of_id` agree on whether an entity has the id.
pub proof fn lemma_find_index_agree(s: Seq<EntityRuntimeView>, id: Seq<char>)
    ensures
        (find_by_id(s, id) is Some) == (index_of_id(s, id) is Some),
    decreases s.len(),
{
    if s.len() > 0 {
        lemma_find_index_agree(s.drop_first(), id);
    }
}

/// Law: after `create_entity` adds `rt` (its id was not in the pool),
/// looking its id up gives `rt`, and every other id gives what it gave
/// before.
pub proof fn create_then_get(pool: Seq<EntityRuntimeView>, rt: EntityRuntimeView, other: Seq<char>)
    requires
        !ids(pool).contains(rt.id),
    ensures
        find_by_id(pool.push(rt), rt.id) == Some(rt),
        other != rt.id ==> find_by_id(pool.push(rt), other) == find_by_id(pool, other),
    decreases pool.len(),
{
    if pool.len() > 0 {
        assert(pool.push(rt).drop_first() =~= pool.drop_first().push(rt));
        assert(ids(pool.drop_first()) =~= ids(pool).drop_first());
        assert(ids(pool)[0] == pool[0].id);
        assert(pool.push(rt)[0] == pool[0]);
        create_then_get(pool.drop_first(), rt, other);
    } else {
        assert(pool.push(rt).drop_first() =~= Seq::<EntityRuntimeView>::empty());
        assert(pool.push(rt)[0] == rt);
        reveal_with_fuel(find_by_id, 2);
    }
}

/// Law: a pool built from an instance's config holds the CEO first (when
/// enabled) with the instance defaults and no allowlists, then each
/// configured entity in order. A configured entity keeps its own provider
/// and model; the instance defaults fill only a missing one. Its tool and
/// skill-package allowlists are the configured lists (empty when absent).
pub proof fn law_pool_holds_configured_entities(inst: InstanceConfigView)
    ensures
        ({
            let p = pool_entities(inst);
            let off: int = if ceo_enabled_spec(inst) { 1 } else { 0 };
            &&& p.len() == off + inst.entities.len()
            &&& ceo_enabled_spec(inst) ==> {
                &&& p[0].id == CEO_ENTITY_ID@
                &&& p[0].provider_override == inst.default_provider
                &&& p[0].model_override == inst.default_model
                &&& p[0].skills_allowlist.len() == 0
                &&& p[0].skill_allowlist.len() == 0
            }
            &&& forall|k: int|
                0 <= k < inst.entities.len() ==> {
                    let e = #[trigger] inst.entities[k];
                    let rt = p[off + k];
                    &&& rt.id == e.id
                    &&& (e.provider matches Some(x) ==> rt.provider_override == Some(x))
                    &&& (e.provider is None ==> rt.provider_override == inst.default_provider)
                    &&& (e.model matches Some(x) ==> rt.model_override == Some(x))
                    &&& (e.model is None ==> rt.model_override == inst.default_model)
                    &&& (e.skills matches Some(v) ==> rt.skills_allowlist == v)
                    &&& (e.skills is None ==> rt.skills_allowlist.len() == 0)
                    &&& (e.skill_allowlist matches Some(v) ==> rt.skill_allowlist == v)
                    &&& (e.skill_allowlist is None ==> rt.skill_allowlist.len() == 0)
                }
        }),
{
    let p = pool_entities(inst);
    let off: int = if ceo_enabled_spec(inst) { 1 } else { 0 };
    assert forall|k: int| 0 <= k < inst.entities.len() implies p[off + k] == configured_runtime(
        #[trigger] inst.entities[k],
        inst,
    ) by {}
}

/// Law: once `create_entity` has added the runtime it makes from config
/// `c` (an id not yet in the pool), looking `c.id` up gives an entity with
/// that id, the configured provider and model as given (no defaults), and
/// as allowlists exactly the configured tool and skill-package lists
/// (empty only when absent).
pub proof fn law_created_entity_keeps_config(pool: Seq<EntityRuntimeView>, c: EntityConfigView)
    requires
        !ids(pool).contains(c.id),
    ensures
        find_by_id(pool.push(created_runtime(c)), c.id) matches Some(rt) && {
            &&& rt.id == c.id
            &&& rt.provider_override == c.provider
            &&& rt.model_override == c.model
            &&& (c.skills matches Some(v) ==> rt.skills_allowlist == v)
            &&& (c.skills is None ==> rt.skills_allowlist.len() == 0)
            &&& (c.skill_allowlist matches Some(v) ==> rt.skill_allowlist == v)
            &&& (c.skill_allowlist is None ==> rt.skill_allowlist.len() == 0)
        },
{
    create_then_get(pool, created_runtime(c), c.id);
}

/// The pool after granting skill package `skill` to the first entity with
/// id `entity_id`: that entity's skill allowlist gains the id unless it has
/// it already.
pub open spec fn granted_pool(pool: Seq<EntityRuntimeView>, entity_id: Seq<char>, skill: Seq<char>) -> Seq<
    EntityRuntimeView,
> {
    match index_of_id(pool, entity_id) {
        None => pool,
        Some(k) => pool.update(
            k,
            EntityRuntimeView {
                skill_allowlist: merge_ids(pool[k].skill_allowlist, seq![skill]),
                ..pool[k]
            },
        ),
    }
}

/// Law: granting a skill package to an entity of the pool keeps the pool's
/// entities, ids and order; looking the entity up gives it with every
/// package it had, in the same order, followed by `skill` when it lacked
/// it (so a grant never duplicates a package); every other id looks up as
/// before.
pub proof fn law_grant_keeps_earlier_grants(
    pool: Seq<EntityRuntimeView>,
    entity_id: Seq<char>,
    skill: Seq<char>,
    other: Seq<char>,
)
    requires
        find_by_id(pool, entity_id) is Some,
    ensures
        ({
            let after = granted_pool(pool, entity_id, skill);
            let before_e = find_by_id(pool, entity_id)->Some_0;
            &&& ids(after) == ids(pool)
            &&& find_by_id(after, entity_id) matches Some(e) && {
                &&& e.id == before_e.id
                &&& e.provider_override == before_e.provider_override
                &&& e.model_override == before_e.model_override
                &&& e.skills_allowlist == before_e.skills_allowlist
                &&& before_e.skill_allowlist.contains(skill) ==> e.skill_allowlist
                    == before_e.skill_allowlist
                &&& !before_e.skill_allowlist.contains(skill) ==> e.skill_allowlist
                    == before_e.skill_allowlist.push(skill)
            }
            &&& other != entity_id ==> find_by_id(after, other) == find_by_id(pool, other)
        }),
{
    lemma_find_index_agree(pool, entity_id);
    let k = index_of_id(pool, entity_id)->Some_0;
    lemma_grant_lookup(pool, entity_id, skill, other);
    let add = seq![skill];
    let before_e = find_by_id(pool, entity_id)->Some_0;
    assert(add.drop_last() =~= Seq::<Seq<char>>::empty());
    assert(add.last() == skill);
    assert(merge_ids(before_e.skill_allowlist, add.drop_last()) == before_e.skill_allowlist);
    let after = granted_pool(pool, entity_id, skill);
    assert(ids(after) =~= ids(pool)) by {
        lemma_index_of_id(pool, entity_id);
    }
}

proof fn lemma_grant_lookup(
    pool: Seq<EntityRuntimeView>,
    entity_id: Seq<char>,
    skill: Seq<char>,
    other: Seq<char>,
)
    requires
        find_by_id(pool, entity_id) is Some,
    ensures
        ({
            let after = granted_pool(pool, entity_id, skill);
            let before_e = find_by_id(pool, entity_id)->Some_0;
            &&& find_by_id(after, entity_id) == Some(
                EntityRuntimeView {
                    skill_allowlist: merge_ids(before_e.skill_allowlist, seq![skill]),
                    ..before_e
                },
            )
            &&& other != entity_id ==> find_by_id(after, other) == find_by_id(pool, other)
        }),
    decreases pool.len(),
{
    lemma_find_index_agree(pool, entity_id);
    if pool[0].id == entity_id {
        let after = granted_pool(pool, entity_id, skill);
        assert(after.drop_first() =~= pool.drop_first());
    } else {
        let rest = pool.drop_first();
        lemma_grant_lookup(rest, entity_id, skill, other);
        let after = granted_pool(pool, entity_id, skill);
        let k = index_of_id(rest, entity_id)->Some_0;
        lemma_find_index_agree(rest, entity_id);
        lemma_index_of_id(rest, entity_id);
        assert(index_of_id(pool, entity_id) == Some(k + 1));
        assert(after.drop_first() =~= granted_pool(rest, entity_id, skill));
        assert(after[0] == pool[0]);
    }
}

/// No id occurs twice.
pub open spec fn unique_ids(s: Seq<EntityRuntimeView>) -> bool {
    forall|i: int, j: int| 0 <= i < j < s.len() ==> s[i].id != s[j].id
}

/// Law: `create_entity` keeps entity ids unique: a pool whose ids are
/// unique still has unique ids after the entity is added (the call refuses
/// a taken id).
pub proof fn create_keeps_ids_unique(pool: Seq<EntityRuntimeView>, rt: EntityRuntimeView)
    requires
        unique_ids(pool),
        !ids(pool).contains(rt.id),
    ensures
        unique_ids(pool.push(rt)),
{
    assert forall|i: int, j: int| 0 <= i < j < pool.push(rt).len() implies pool.push(rt)[i].id
        != pool.push(rt)[j].id by {
        if j == pool.len() {
            assert(ids(pool)[i] == pool[i].id);
        }
    }
}

/// Law: merging skill ids keeps every id already granted and grants every
/// merged id, each once: the merged list is the old list followed by the
/// new ids it lacked.
pub proof fn merge_grants_all(s: Seq<Seq<char>>, add: Seq<Seq<char>>)
    ensures
        forall|x: Seq<char>| s.contains(x) ==> merge_ids(s, add).contains(x),
        forall|x: Seq<char>| add.contains(x) ==> merge_ids(s, add).contains(x),
        forall|x: Seq<char>| merge_ids(s, add).contains(x) ==> s.contains(x) || add.contains(x),
        merge_ids(s, add).len() >= s.len(),
        merge_ids(s, add).subrange(0, s.len() as int) == s,
        s.no_duplicates() ==> merge_ids(s, add).no_duplicates(),
    decreases add.len(),
{
    if add.len() > 0 {
        let prev = merge_ids(s, add.drop_last());
        let cur = merge_ids(s, add);
        let last = add.last();
        merge_grants_all(s, add.drop_last());
        assert forall|x: Seq<char>| prev.contains(x) implies cur.contains(x) by {
            let j = choose|j: int| 0 <= j < prev.len() && prev[j] == x;
            if !prev.contains(last) {
                assert(cur[j] == x);
            }
        }
        assert(cur.contains(last)) by {
            if !prev.contains(last) {
                assert(cur[prev.len() as int] == last);
            }
        }
        assert forall|x: Seq<char>| add.contains(x) implies cur.contains(x) by {
            let j = choose|j: int| 0 <= j < add.len() && add[j] == x;
            if j < add.len() - 1 {
                assert(add.drop_last()[j] == x);
                assert(add.drop_last().contains(x));
                assert(prev.contains(x));
            }
        }
        assert forall|x: Seq<char>| cur.contains(x) implies s.contains(x) || add.contains(x) by {
            if prev.contains(x) {
                if add.drop_last().contains(x) {
                    let j = choose|j: int| 0 <= j < add.drop_last().len() && add.drop_last()[j] == x;
                    assert(add[j] == x);
                }
            } else {
                let j = choose|j: int| 0 <= j < cur.len() && cur[j] == x;
                assert(j == prev.len());
                assert(add[add.len() - 1] == x);
            }
        }
        if !prev.contains(last) {
            assert(cur.subrange(0, s.len() as int) =~= prev.subrange(0, s.len() as int));
            if s.no_duplicates() {
                assert forall|i: int, j: int| 0 <= i < cur.len() && 0 <= j < cur.len() && i != j implies cur[i] != cur[j] by {
                    if i == prev.len() as int {
                        assert(!prev.contains(cur[i]));
                        assert(prev[j] == cur[j]);
                    } else if j == prev.len() as int {
                        assert(prev[i] == cur[i]);
                    }
                }
            }
        }
    } else {
        assert(s.subrange(0, s.len() as int) =~= s);
    }
}

} // verus!
