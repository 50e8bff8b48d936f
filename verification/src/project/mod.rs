//! Projects: the unit that agents, working directories and settings belong to.

pub mod model;
pub mod service;
pub mod validation;
