//! The stored form of a project.

use crate::project::model::{
    is_default_project_settings, project_status_named, project_status_text,
    lemma_project_status_text_round_trip, Project, ProjectSettings, ProjectStatus,
};
use crate::time::{is_normal_utc_text, utc_rfc3339_of, Timestamp};
use crate::text::opt_text;
use vstd::prelude::*;

verus! {

/// The columns of a stored project, except its settings, which are stored
/// as JSON text by the caller.
#[derive(Debug)]
pub struct ProjectRow {
    pub id: String,
    pub name: String,
    pub description: Option<String>,
    pub working_directory: String,
    pub status: String,
    pub created_at: String,
    pub updated_at: String,
    pub archived_at: Option<String>,
}

/// A copy of an optional string.
pub fn copy_optional_text(o: &Option<String>) -> (r: Option<String>)
    ensures
        r == *o,
{
    match o {
        Some(s) => Some(s.clone()),
        None => None,
    }
}

/// The text of an optional point in time.
pub open spec fn opt_time(o: Option<Timestamp>) -> Option<Seq<char>> {
    match o {
        Some(t) => Some(t@),
        None => None,
    }
}

/// `row` holds the fields of `p` as they are stored.
pub open spec fn is_project_row_of(row: ProjectRow, p: Project) -> bool {
    &&& row.id == p.id
    &&& row.name == p.name
    &&& row.description == p.description
    &&& row.working_directory == p.working_directory
    &&& row.status@ == project_status_text(p.status)
    &&& row.created_at@ == p.created_at@
    &&& row.updated_at@ == p.updated_at@
    &&& opt_text(row.archived_at) == opt_time(p.archived_at)
}

/// The row in which a project is stored.
pub fn project_to_row(p: &Project) -> (row: ProjectRow)
    ensures
        is_project_row_of(row, *p),
{
    let archived_at = match &p.archived_at {
        Some(t) => Some(t.to_rfc3339()),
        None => None,
    };
    ProjectRow {
        id: p.id.clone(),
        name: p.name.clone(),
        description: copy_optional_text(&p.description),
        working_directory: p.working_directory.clone(),
        status: p.status.to_string(),
        created_at: p.created_at.to_rfc3339(),
        updated_at: p.updated_at.to_rfc3339(),
        archived_at,
    }
}

/// `p` is the project read, at the time `now`, from `row` and from the
/// settings that were read from their JSON text (`None` when that text could
/// not be read). An unknown status reads as active, unreadable settings as
/// the default ones, an unreadable archiving time as none, and an unreadable
/// creation or change time as `now`.
pub open spec fn is_project_read_at(
    p: Project,
    row: ProjectRow,
    settings: Option<ProjectSettings>,
    now: Seq<char>,
) -> bool {
    &&& p.id == row.id
    &&& p.name == row.name
    &&& p.description == row.description
    &&& p.working_directory == row.working_directory
    &&& p.status == match project_status_named(row.status@) {
        Some(s) => s,
        None => ProjectStatus::Active,
    }
    &&& match settings {
        Some(s) => p.settings == s,
        None => is_default_project_settings(p.settings),
    }
    &&& p.created_at@ == match utc_rfc3339_of(row.created_at@) {
        Some(t) => t,
        None => now,
    }
    &&& p.updated_at@ == match utc_rfc3339_of(row.updated_at@) {
        Some(t) => t,
        None => now,
    }
    &&& opt_time(p.archived_at) == match row.archived_at {
        Some(a) => utc_rfc3339_of(a@),
        None => None,
    }
}

/// `p` is the project read from `row` and `settings` at some current time,
/// written in normal UTC form.
pub open spec fn is_project_read_from(p: Project, row: ProjectRow, settings: Option<ProjectSettings>) -> bool {
    exists|now: Seq<char>| is_normal_utc_text(now) && is_project_read_at(p, row, settings, now)
}

/// Reads a project back from its row and its settings, at the time `now`.
pub fn project_from_row_at(row: ProjectRow, settings: Option<ProjectSettings>, now: Timestamp) -> (p:
    Project)
    ensures
        is_project_read_at(p, row, settings, now@),
        utc_rfc3339_of(row.created_at@) is None ==> p.created_at == now,
        utc_rfc3339_of(row.updated_at@) is None ==> p.updated_at == now,
        utc_rfc3339_of(row.created_at@) is Some ==> !p.created_at.is_clock_reading(),
        utc_rfc3339_of(row.updated_at@) is Some ==> !p.updated_at.is_clock_reading(),
{
    let status = match ProjectStatus::from_str(row.status.as_str()) {
        Ok(s) => s,
        Err(_) => ProjectStatus::Active,
    };
    let settings = match settings {
        Some(s) => s,
        None => ProjectSettings::default(),
    };
    let created_at = Timestamp::parse_or(row.created_at.as_str(), now.clone());
    let updated_at = Timestamp::parse_or(row.updated_at.as_str(), now);
    let archived_at = match &row.archived_at {
        Some(a) => Timestamp::parse_rfc3339(a.as_str()),
        None => None,
    };
    Project {
        id: row.id,
        name: row.name,
        description: row.description,
        working_directory: row.working_directory,
        status,
        settings,
        created_at,
        updated_at,
        archived_at,
    }
}

/// Reads a project back from its row and its settings; an unreadable
/// creation or change time is replaced by the current time.
pub fn project_from_row(row: ProjectRow, settings: Option<ProjectSettings>) -> (p: Project)
    ensures
        is_project_read_from(p, row, settings),
        utc_rfc3339_of(row.created_at@) is None <==> p.created_at.is_clock_reading(),
        utc_rfc3339_of(row.updated_at@) is None <==> p.updated_at.is_clock_reading(),
{
    let now = Timestamp::now();
    let ghost n = now@;
    let p = project_from_row_at(row, settings, now);
    assert(is_normal_utc_text(n) && is_project_read_at(p, row, settings, n));
    p
}

/// Writing a project into its row and reading it back gives the same
/// project: identity, texts, working directory, status and settings
/// always, and each point in time whenever its text is already in the
/// normal form in which it is read.
pub proof fn lemma_project_row_round_trip(
    p: Project,
    row: ProjectRow,
    settings: ProjectSettings,
    now: Seq<char>,
    q: Project,
)
    requires
        is_project_row_of(row, p),
        settings == p.settings,
        is_project_read_at(q, row, Some(settings), now),
    ensures
        q.id == p.id,
        q.name == p.name,
        q.description == p.description,
        q.working_directory == p.working_directory,
        q.status == p.status,
        q.settings == p.settings,
        utc_rfc3339_of(p.created_at@) == Some(p.created_at@) ==> q.created_at@ == p.created_at@,
        utc_rfc3339_of(p.updated_at@) == Some(p.updated_at@) ==> q.updated_at@ == p.updated_at@,
        (forall|t: Timestamp|
            p.archived_at == Some(t) ==> utc_rfc3339_of(t@) == Some(t@)) ==> opt_time(q.archived_at)
            == opt_time(p.archived_at),
{
    lemma_project_status_text_round_trip(p.status);
}

} // verus!
