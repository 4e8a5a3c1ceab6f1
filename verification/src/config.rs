//! The parts of the runtime configuration that instance, entity and skill
//! logic reads: `[instance]`, its CEO switch, entities and teams, and the
//! ClawHub registry settings.

use vstd::prelude::*;
use crate::text::{copy_opt, copy_opt_strings, opt_view, opt_views};

verus! {

/// `[instance.ceo]`.
#[derive(Clone, Debug)]
pub struct CeoConfig {
    /// `None` means enabled.
    pub enabled: Option<bool>,
}

/// One `[[instance.entities]]` entry.
#[derive(Clone, Debug)]
pub struct EntityConfig {
    pub id: String,
    pub provider: Option<String>,
    pub model: Option<String>,
    pub team_id: Option<String>,
    pub role: Option<String>,
    /// Executable tool allowlist (names from the assignable tool catalog).
    pub skills: Option<Vec<String>>,
    /// Skill package ids that `load_skill` may read.
    pub skill_allowlist: Option<Vec<String>>,
}

pub struct EntityConfigView {
    pub id: Seq<char>,
    pub provider: Option<Seq<char>>,
    pub model: Option<Seq<char>>,
    pub team_id: Option<Seq<char>>,
    pub role: Option<Seq<char>>,
    pub skills: Option<Seq<Seq<char>>>,
    pub skill_allowlist: Option<Seq<Seq<char>>>,
}

impl View for EntityConfig {
    type V = EntityConfigView;

    open spec fn view(&self) -> EntityConfigView {
        EntityConfigView {
            id: self.id@,
            provider: opt_view(self.provider),
            model: opt_view(self.model),
            team_id: opt_view(self.team_id),
            role: opt_view(self.role),
            skills: opt_views(self.skills),
            skill_allowlist: opt_views(self.skill_allowlist),
        }
    }
}

impl EntityConfig {
    /// A copy with the same view.
    pub fn duplicate(&self) -> (r: Self)
        ensures
            r@ == self@,
    {
        EntityConfig {
            id: self.id.clone(),
            provider: copy_opt(&self.provider),
            model: copy_opt(&self.model),
            team_id: copy_opt(&self.team_id),
            role: copy_opt(&self.role),
            skills: copy_opt_strings(&self.skills),
            skill_allowlist: copy_opt_strings(&self.skill_allowlist),
        }
    }
}

/// One `[[instance.teams]]` entry.
#[derive(Clone, Debug)]
pub struct TeamConfig {
    pub id: String,
    pub name: Option<String>,
}

pub struct TeamConfigView {
    pub id: Seq<char>,
    pub name: Option<Seq<char>>,
}

impl View for TeamConfig {
    type V = TeamConfigView;

    open spec fn view(&self) -> TeamConfigView {
        TeamConfigView { id: self.id@, name: opt_view(self.name) }
    }
}

/// `[instance]`: multi-entity settings of one instance.
#[derive(Clone, Debug)]
pub struct InstanceConfig {
    pub preset: Option<String>,
    pub default_provider: Option<String>,
    pub default_model: Option<String>,
    pub ceo: Option<CeoConfig>,
    pub entities: Vec<EntityConfig>,
    pub teams: Vec<TeamConfig>,
}

pub struct InstanceConfigView {
    pub preset: Option<Seq<char>>,
    pub default_provider: Option<Seq<char>>,
    pub default_model: Option<Seq<char>>,
    /// `None`: no `[instance.ceo]`; `Some(e)`: its `enabled` field.
    pub ceo: Option<Option<bool>>,
    pub entities: Seq<EntityConfigView>,
    pub teams: Seq<TeamConfigView>,
}

pub open spec fn entity_views(v: Seq<EntityConfig>) -> Seq<EntityConfigView> {
    Seq::new(v.len(), |i: int| v[i]@)
}

pub open spec fn team_views(v: Seq<TeamConfig>) -> Seq<TeamConfigView> {
    Seq::new(v.len(), |i: int| v[i]@)
}

impl View for InstanceConfig {
    type V = InstanceConfigView;

    open spec fn view(&self) -> InstanceConfigView {
        InstanceConfigView {
            preset: opt_view(self.preset),
            default_provider: opt_view(self.default_provider),
            default_model: opt_view(self.default_model),
            ceo: match self.ceo {
                Some(c) => Some(c.enabled),
                None => None,
            },
            entities: entity_views(self.entities@),
            teams: team_views(self.teams@),
        }
    }
}

impl InstanceConfig {
    /// The empty `[instance]` table.
    pub fn empty() -> (r: Self)
        ensures
            r@.preset is None,
            r@.default_provider is None,
            r@.default_model is None,
            r@.ceo is None,
            r@.entities.len() == 0,
            r@.teams.len() == 0,
    {
        let r = InstanceConfig {
            preset: None,
            default_provider: None,
            default_model: None,
            ceo: None,
            entities: Vec::new(),
            teams: Vec::new(),
        };
        assert(r@.entities =~= Seq::<EntityConfigView>::empty());
        r
    }
}

impl Default for InstanceConfig {
    fn default() -> (r: Self)
        ensures
            r@.preset is None,
            r@.default_provider is None,
            r@.default_model is None,
            r@.ceo is None,
            r@.entities.len() == 0,
            r@.teams.len() == 0,
    {
        InstanceConfig::empty()
    }
}

/// `[skills.clawhub]`.
#[derive(Clone, Debug)]
pub struct ClawHubConfig {
    pub enabled: bool,
    pub registry_url: Option<String>,
    pub timeout_ms: u64,
    pub token: Option<String>,
}

/// `[skills]`.
#[derive(Clone, Debug)]
pub struct SkillsConfig {
    pub clawhub: ClawHubConfig,
}

/// The runtime configuration of one instance.
#[derive(Clone, Debug)]
pub struct Config {
    pub default_provider: Option<String>,
    pub default_model: Option<String>,
    pub instance: Option<InstanceConfig>,
    pub skills: SkillsConfig,
}

fn same_opt(o: &Option<String>) -> (r: Option<String>)
    ensures
        r == *o,
{
    match o {
        Some(s) => Some(s.clone()),
        None => None,
    }
}

impl ClawHubConfig {
    /// An equal copy.
    pub fn duplicate(&self) -> (r: Self)
        ensures
            r == *self,
    {
        ClawHubConfig {
            enabled: self.enabled,
            registry_url: same_opt(&self.registry_url),
            timeout_ms: self.timeout_ms,
            token: same_opt(&self.token),
        }
    }
}

impl Config {
    /// A configuration holding the same defaults and skill settings, without
    /// an `[instance]` table.
    pub fn skills_only(&self) -> (r: Self)
        ensures
            r.skills == self.skills,
            r.default_provider == self.default_provider,
            r.default_model == self.default_model,
            r.instance is None,
    {
        Config {
            default_provider: same_opt(&self.default_provider),
            default_model: same_opt(&self.default_model),
            instance: None,
            skills: SkillsConfig { clawhub: self.skills.clawhub.duplicate() },
        }
    }
}

/// ClawHub request timeout used when none is configured.
pub const DEFAULT_CLAWHUB_TIMEOUT_MS: u64 = 15000;

impl Default for Config {
    fn default() -> (r: Self)
        ensures
            r.default_provider is None,
            r.default_model is None,
            r.instance is None,
            !r.skills.clawhub.enabled,
            r.skills.clawhub.registry_url is None,
            r.skills.clawhub.timeout_ms == DEFAULT_CLAWHUB_TIMEOUT_MS,
            r.skills.clawhub.token is None,
    {
        Config {
            default_provider: None,
            default_model: None,
            instance: None,
            skills: SkillsConfig {
                clawhub: ClawHubConfig {
                    enabled: false,
                    registry_url: None,
                    timeout_ms: DEFAULT_CLAWHUB_TIMEOUT_MS,
                    token: None,
                },
            },
        }
    }
}

} // verus!
