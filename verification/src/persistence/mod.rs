//! The rows in which projects and agent definitions are stored, and how
//! records are written into them and read back.

pub mod agent_row;
pub mod project_row;
