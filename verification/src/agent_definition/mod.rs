//! Agent definitions: the agents that live inside a project, with their
//! model, tools and policies.

pub mod model;
pub mod service;
