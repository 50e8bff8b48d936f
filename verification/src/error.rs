//! The errors of the platform.

use vstd::prelude::*;

verus! {

/// Every way an operation of the platform can fail. Each variant carries
/// the text that explains the failure.
#[derive(Debug)]
pub enum PlatformError {
    Database(String),
    ProjectNotFound(String),
    AgentNotFound(String),
    InvalidProject(String),
    InvalidAgent(String),
    InvalidWorkingDirectory(String),
    Serialization(String),
    Io(String),
    Internal(String),
}

/// The fixed prefix that the display of each variant puts before its detail.
pub open spec fn error_prefix(e: PlatformError) -> Seq<char> {
    match e {
        PlatformError::Database(_) => "Database error: "@,
        PlatformError::ProjectNotFound(_) => "Project not found: "@,
        PlatformError::AgentNotFound(_) => "Agent not found: "@,
        PlatformError::InvalidProject(_) => "Invalid project data: "@,
        PlatformError::InvalidAgent(_) => "Invalid agent definition: "@,
        PlatformError::InvalidWorkingDirectory(_) => "Working directory error: "@,
        PlatformError::Serialization(_) => "Serialization error: "@,
        PlatformError::Io(_) => "IO error: "@,
        PlatformError::Internal(_) => "Internal error: "@,
    }
}

/// The detail text that a variant carries.
pub open spec fn error_detail(e: PlatformError) -> Seq<char> {
    match e {
        PlatformError::Database(m) => m@,
        PlatformError::ProjectNotFound(m) => m@,
        PlatformError::AgentNotFound(m) => m@,
        PlatformError::InvalidProject(m) => m@,
        PlatformError::InvalidAgent(m) => m@,
        PlatformError::InvalidWorkingDirectory(m) => m@,
        PlatformError::Serialization(m) => m@,
        PlatformError::Io(m) => m@,
        PlatformError::Internal(m) => m@,
    }
}

impl PlatformError {
    /// The human-readable text of the error: its prefix followed by its detail.
    pub fn to_string(&self) -> (r: String)
        ensures
            r@ == error_prefix(*self) + error_detail(*self),
    {
        let (prefix, detail) = match self {
            PlatformError::Database(m) => ("Database error: ", m),
            PlatformError::ProjectNotFound(m) => ("Project not found: ", m),
            PlatformError::AgentNotFound(m) => ("Agent not found: ", m),
            PlatformError::InvalidProject(m) => ("Invalid project data: ", m),
            PlatformError::InvalidAgent(m) => ("Invalid agent definition: ", m),
            PlatformError::InvalidWorkingDirectory(m) => ("Working directory error: ", m),
            PlatformError::Serialization(m) => ("Serialization error: ", m),
            PlatformError::Io(m) => ("IO error: ", m),
            PlatformError::Internal(m) => ("Internal error: ", m),
        };
        let mut r = String::from_str(prefix);
        r.append(detail.as_str());
        r
    }
}

} // verus!
