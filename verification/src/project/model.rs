//! The data of a project and of the requests that create and change one.

use crate::text::{ascii_lower, lemma_ascii_lower_idempotent, text_eq, to_ascii_lowercase};
use crate::time::Timestamp;
use vstd::prelude::*;

verus! {

/// The life-cycle state of a project.
#[derive(Debug, Clone, Copy, PartialEq, Eq, Structural)]
pub enum ProjectStatus {
    Active,
    Archived,
    Suspended,
}

/// The text under which a project status is shown and stored.
pub open spec fn project_status_text(s: ProjectStatus) -> Seq<char> {
    match s {
        ProjectStatus::Active => "active"@,
        ProjectStatus::Archived => "archived"@,
        ProjectStatus::Suspended => "suspended"@,
    }
}

/// The status that a text names, compared without regard to ASCII case.
pub open spec fn project_status_named(t: Seq<char>) -> Option<ProjectStatus> {
    let l = ascii_lower(t);
    if l == "active"@ {
        Some(ProjectStatus::Active)
    } else if l == "archived"@ {
        Some(ProjectStatus::Archived)
    } else if l == "suspended"@ {
        Some(ProjectStatus::Suspended)
    } else {
        None
    }
}

impl Default for ProjectStatus {
    /// A project starts out active.
    fn default() -> (r: Self)
        ensures
            r == ProjectStatus::Active,
    {
        ProjectStatus::Active
    }
}

impl ProjectStatus {
    /// The text of the status: `active`, `archived` or `suspended`.
    pub fn to_string(&self) -> (r: String)
        ensures
            r@ == project_status_text(*self),
    {
        match self {
            ProjectStatus::Active => String::from_str("active"),
            ProjectStatus::Archived => String::from_str("archived"),
            ProjectStatus::Suspended => String::from_str("suspended"),
        }
    }

    /// Reads a status from its text in any ASCII case. An unknown text is
    /// refused with a message that quotes it in lower case.
    pub fn from_str(s: &str) -> (r: Result<ProjectStatus, String>)
        ensures
            match project_status_named(s@) {
                Some(st) => r == Ok::<ProjectStatus, String>(st),
                None => r matches Err(m) && m@ == "Unknown project status: "@ + ascii_lower(s@),
            },
    {
        let lower = to_ascii_lowercase(s);
        if text_eq(lower.as_str(), "active") {
            Ok(ProjectStatus::Active)
        } else if text_eq(lower.as_str(), "archived") {
            Ok(ProjectStatus::Archived)
        } else if text_eq(lower.as_str(), "suspended") {
            Ok(ProjectStatus::Suspended)
        } else {
            let mut m = String::from_str("Unknown project status: ");
            m.append(lower.as_str());
            Err(m)
        }
    }
}

/// Reading back the text of a status gives the same status.
pub proof fn lemma_project_status_text_round_trip(s: ProjectStatus)
    ensures
        project_status_named(project_status_text(s)) == Some(s),
{
    reveal_strlit("active");
    reveal_strlit("archived");
    reveal_strlit("suspended");
    assert(ascii_lower("active"@) =~= "active"@);
    assert(ascii_lower("archived"@) =~= "archived"@);
    assert(ascii_lower("suspended"@) =~= "suspended"@);
}

/// Reading a status does not depend on ASCII case: a text and its lower-case
/// form name the same status, and a named status is written as that
/// lower-case form.
pub proof fn lemma_project_status_ignores_case(t: Seq<char>)
    ensures
        project_status_named(t) == project_status_named(ascii_lower(t)),
        project_status_named(t) matches Some(s) ==> project_status_text(s) == ascii_lower(t),
{
    lemma_ascii_lower_idempotent(t);
}

/// Defaults that the agents of a project start from.
#[derive(Debug)]
pub struct ProjectSettings {
    pub default_provider: Option<String>,
    pub default_model: Option<String>,
    pub allowed_tools: Vec<String>,
    pub custom_instructions: Option<String>,
}

/// Settings with nothing set.
pub open spec fn is_default_project_settings(s: ProjectSettings) -> bool {
    &&& s.default_provider is None
    &&& s.default_model is None
    &&& s.allowed_tools@.len() == 0
    &&& s.custom_instructions is None
}

impl Default for ProjectSettings {
    fn default() -> (r: Self)
        ensures
            is_default_project_settings(r),
    {
        ProjectSettings {
            default_provider: None,
            default_model: None,
            allowed_tools: Vec::new(),
            custom_instructions: None,
        }
    }
}

/// A project as it is kept: its identity, its text fields, the canonical
/// working directory, its status and settings, and when it was created,
/// last changed and archived.
#[derive(Debug)]
pub struct Project {
    pub id: String,
    pub name: String,
    pub description: Option<String>,
    pub working_directory: String,
    pub status: ProjectStatus,
    pub settings: ProjectSettings,
    pub created_at: Timestamp,
    pub updated_at: Timestamp,
    pub archived_at: Option<Timestamp>,
}

/// A project is archived exactly when it carries the time of its archiving.
pub open spec fn archive_consistent(p: Project) -> bool {
    (p.status == ProjectStatus::Archived) <==> (p.archived_at is Some)
}

/// A request to create a project.
#[derive(Debug)]
pub struct CreateProjectInput {
    pub name: String,
    pub working_directory: String,
    pub description: Option<String>,
    pub settings: Option<ProjectSettings>,
}

/// A request to change a project; every field that is `None` is left as it
/// is. `description: Some(None)` removes the description.
#[derive(Debug)]
pub struct UpdateProjectInput {
    pub name: Option<String>,
    pub description: Option<Option<String>>,
    pub working_directory: Option<String>,
    pub status: Option<ProjectStatus>,
    pub settings: Option<ProjectSettings>,
}

/// A request that changes nothing.
pub open spec fn is_empty_project_update(u: UpdateProjectInput) -> bool {
    &&& u.name is None
    &&& u.description is None
    &&& u.working_directory is None
    &&& u.status is None
    &&& u.settings is None
}

impl Default for UpdateProjectInput {
    fn default() -> (r: Self)
        ensures
            is_empty_project_update(r),
    {
        UpdateProjectInput {
            name: None,
            description: None,
            working_directory: None,
            status: None,
            settings: None,
        }
    }
}

} // verus!
