//! Core domain logic of the local platform: projects, agent definitions,
//! their validation, the way updates are applied, and the way records are
//! turned into database rows and back.

pub mod text;
pub mod error;
pub mod project;
pub mod ids;
pub mod time;
pub mod agent_definition;
pub mod persistence;
pub mod commands;
