//! Multi-instance runtime core: instance registry, entity pool, entity tool
//! policy, CEO / admin tool decisions, skill packages, and the decisions of
//! the WebSocket chat.

pub mod text;
pub mod order;
pub mod paths;
pub mod clock;
pub mod json;
pub mod schema;
pub mod config;
pub mod persona;
pub mod skill_assets;
pub mod tool_result;
pub mod entity;
pub mod entity_skills;
pub mod tool_inventory;
pub mod instance_registry;
pub mod instance_manager;
pub mod scaffold;
pub mod clawhub;
pub mod skill_pack;
pub mod zip_extract;
pub mod ceo;
pub mod create_company;
pub mod ws;
