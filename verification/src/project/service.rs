//! How projects are created and changed. The reads and writes of the store
//! happen around these steps; every decision between them is made here.

use crate::error::PlatformError;
use crate::ids::{is_random_uuid_text, new_id};
use crate::project::model::{
    archive_consistent, is_default_project_settings, is_empty_project_update, CreateProjectInput,
    Project, ProjectSettings, ProjectStatus, UpdateProjectInput,
};
use crate::project::validation::{project_name_problem, valid_project_name, validate_project_name};
use crate::text::{
    lemma_trim_idempotent, normalize_optional_text, normalized_optional_text, opt_text, trim, trimmed,
};
use crate::time::{is_normal_utc_text, Timestamp};
use vstd::prelude::*;

verus! {

/// `p` is the project that a creation request yields before it is given
/// an identifier and a time: trimmed name, normalized description, the
/// resolved working directory, active, never archived, and the requested
/// settings or the default ones.
pub open spec fn is_project_created_from(
    p: Project,
    input: CreateProjectInput,
    working_directory: Seq<char>,
) -> bool {
    &&& p.name@ == trim(input.name@)
    &&& opt_text(p.description) == normalized_optional_text(opt_text(input.description))
    &&& p.working_directory@ == working_directory
    &&& p.status == ProjectStatus::Active
    &&& p.archived_at is None
    &&& match input.settings {
        Some(s) => p.settings == s,
        None => is_default_project_settings(p.settings),
    }
}

/// Builds a new project from a creation request, the canonical working
/// directory, an identifier and the creation time.
pub fn assemble_project(
    input: CreateProjectInput,
    id: String,
    working_directory: String,
    now: Timestamp,
) -> (p: Project)
    ensures
        is_project_created_from(p, input, working_directory@),
        p.id == id,
        p.created_at@ == now@,
        p.updated_at@ == now@,
        p.created_at == now,
        p.updated_at == now,
{
    let name = trimmed(input.name.as_str());
    let description = normalize_optional_text(input.description);
    let settings = match input.settings {
        Some(s) => s,
        None => ProjectSettings::default(),
    };
    let updated_at = now.clone();
    Project {
        id,
        name,
        description,
        working_directory,
        status: ProjectStatus::Active,
        settings,
        created_at: now,
        updated_at,
        archived_at: None,
    }
}

/// Builds a new project from a creation request whose name was accepted
/// and from the canonical working directory, with a fresh random
/// identifier and, as creation and change time, one reading of the clock
/// taken during the call.
pub fn prepare_new_project(input: CreateProjectInput, working_directory: String) -> (p: Project)
    ensures
        is_project_created_from(p, input, working_directory@),
        is_random_uuid_text(p.id@),
        p.created_at@ == p.updated_at@,
        is_normal_utc_text(p.created_at@),
        p.created_at.is_clock_reading(),
        p.updated_at.is_clock_reading(),
{
    let id = new_id();
    let now = Timestamp::now();
    assemble_project(input, id, working_directory, now)
}

/// The first step of a change: the project must exist, and a new name must
/// be valid. Fails with `ProjectNotFound` when the project is absent and
/// with `InvalidProject` when the new name is refused; otherwise hands the
/// project back.
pub fn check_project_update(current: Option<Project>, id: &str, input: &UpdateProjectInput) -> (r:
    Result<Project, PlatformError>)
    ensures
        match current {
            None => r matches Err(PlatformError::ProjectNotFound(m)) && m@ == id@,
            Some(p) => match input.name {
                Some(n) => match project_name_problem(n@) {
                    Some(reason) => r matches Err(PlatformError::InvalidProject(m)) && m@
                        == reason,
                    None => r == Ok::<Project, PlatformError>(p),
                },
                None => r == Ok::<Project, PlatformError>(p),
            },
        },
{
    match current {
        None => Err(PlatformError::ProjectNotFound(String::from_str(id))),
        Some(p) => {
            match &input.name {
                Some(n) => {
                    match validate_project_name(n.as_str()) {
                        Ok(()) => Ok(p),
                        Err(e) => Err(e),
                    }
                },
                None => Ok(p),
            }
        },
    }
}

/// `new` is `old` after the change `input`, where `input.working_directory`
/// already holds the canonical directory, `archived_time` is the time of an
/// archiving and `now` the time of the change.
pub open spec fn is_project_update(
    old: Project,
    input: UpdateProjectInput,
    archived_time: Seq<char>,
    now: Seq<char>,
    new: Project,
) -> bool {
    &&& new.id == old.id
    &&& new.created_at == old.created_at
    &&& match input.name {
        Some(n) => new.name@ == trim(n@),
        None => new.name == old.name,
    }
    &&& match input.description {
        Some(d) => opt_text(new.description) == normalized_optional_text(opt_text(d)),
        None => new.description == old.description,
    }
    &&& match input.working_directory {
        Some(d) => new.working_directory == d,
        None => new.working_directory == old.working_directory,
    }
    &&& match input.status {
        Some(s) => new.status == s,
        None => new.status == old.status,
    }
    &&& match input.status {
        Some(ProjectStatus::Archived) => if old.status == ProjectStatus::Archived {
            new.archived_at == old.archived_at
        } else {
            new.archived_at matches Some(t) && t@ == archived_time
        },
        Some(_) => new.archived_at is None,
        None => new.archived_at == old.archived_at,
    }
    &&& match input.settings {
        Some(s) => new.settings == s,
        None => new.settings == old.settings,
    }
    &&& new.updated_at@ == now
}

/// Applies a change to a project. A new name is trimmed, a new description
/// normalized; archiving a project that is not archived records
/// `archived_time`, any other status clears the archiving time; the change
/// time becomes `now`.
pub fn apply_project_update_at(
    project: Project,
    input: UpdateProjectInput,
    archived_time: Timestamp,
    now: Timestamp,
) -> (p: Project)
    ensures
        is_project_update(project, input, archived_time@, now@, p),
        p.updated_at == now,
        input.status == Some(ProjectStatus::Archived) && project.status != ProjectStatus::Archived
            ==> p.archived_at == Some(archived_time),
{
    let mut project = project;
    let UpdateProjectInput { name, description, working_directory, status, settings } = input;
    if let Some(new_name) = name {
        project.name = trimmed(new_name.as_str());
    }
    if let Some(desc_opt) = description {
        project.description = normalize_optional_text(desc_opt);
    }
    if let Some(new_dir) = working_directory {
        project.working_directory = new_dir;
    }
    if let Some(new_status) = status {
        if new_status == ProjectStatus::Archived && project.status != ProjectStatus::Archived {
            project.archived_at = Some(archived_time);
        } else if new_status != ProjectStatus::Archived {
            project.archived_at = None;
        }
        project.status = new_status;
    }
    if let Some(new_settings) = settings {
        project.settings = new_settings;
    }
    project.updated_at = now;
    project
}

/// Applies a change to a project at the current time (see
/// [`apply_project_update_at`]): the change time, and the archiving time
/// when the change archives the project, are readings of the clock taken
/// during the call.
pub fn apply_project_update(project: Project, input: UpdateProjectInput) -> (p: Project)
    ensures
        exists|archived_time: Seq<char>, now: Seq<char>|
            is_normal_utc_text(archived_time) && is_normal_utc_text(now) && is_project_update(
                project,
                input,
                archived_time,
                now,
                p,
            ),
        p.updated_at.is_clock_reading(),
        input.status == Some(ProjectStatus::Archived) && project.status != ProjectStatus::Archived
            ==> (p.archived_at matches Some(t) && t.is_clock_reading()),
{
    let archived_time = Timestamp::now();
    let now = Timestamp::now();
    apply_project_update_at(project, input, archived_time, now)
}

/// The request that archives a project and changes nothing else.
pub fn archive_request() -> (u: UpdateProjectInput)
    ensures
        u.name is None,
        u.description is None,
        u.working_directory is None,
        u.status == Some(ProjectStatus::Archived),
        u.settings is None,
{
    UpdateProjectInput { status: Some(ProjectStatus::Archived), ..UpdateProjectInput::default() }
}

/// Interprets the number of rows that an update of a stored project
/// touched: none means the project is gone.
pub fn project_write_outcome(rows_affected: u64, id: &str) -> (r: Result<(), PlatformError>)
    ensures
        rows_affected == 0 ==> (r matches Err(PlatformError::ProjectNotFound(m)) && m@ == id@),
        rows_affected != 0 ==> r is Ok,
{
    if rows_affected == 0 {
        Err(PlatformError::ProjectNotFound(String::from_str(id)))
    } else {
        Ok(())
    }
}

/// A newly created project is active, not archived, and so archive-consistent.
pub proof fn lemma_new_project_is_archive_consistent(
    p: Project,
    input: CreateProjectInput,
    working_directory: Seq<char>,
)
    requires
        is_project_created_from(p, input, working_directory),
    ensures
        archive_consistent(p),
        p.status == ProjectStatus::Active,
{
}

/// Every change keeps a project archive-consistent: the archiving time is
/// present exactly while the project is archived.
pub proof fn lemma_update_keeps_archive_consistency(
    old: Project,
    input: UpdateProjectInput,
    archived_time: Seq<char>,
    now: Seq<char>,
    new: Project,
)
    requires
        archive_consistent(old),
        is_project_update(old, input, archived_time, now, new),
    ensures
        archive_consistent(new),
{
}

/// Archiving a project that is already archived keeps its archiving time.
pub proof fn lemma_archiving_twice_keeps_archive_time(
    old: Project,
    input: UpdateProjectInput,
    archived_time: Seq<char>,
    now: Seq<char>,
    new: Project,
)
    requires
        old.status == ProjectStatus::Archived,
        input.status == Some(ProjectStatus::Archived),
        is_project_update(old, input, archived_time, now, new),
    ensures
        new.status == ProjectStatus::Archived,
        new.archived_at == old.archived_at,
{
}

/// A change that asks for nothing alters only the change time.
pub proof fn lemma_empty_update_changes_only_time(
    old: Project,
    input: UpdateProjectInput,
    archived_time: Seq<char>,
    now: Seq<char>,
    new: Project,
)
    requires
        is_empty_project_update(input),
        is_project_update(old, input, archived_time, now, new),
    ensures
        new.id == old.id,
        new.name == old.name,
        new.description == old.description,
        new.working_directory == old.working_directory,
        new.status == old.status,
        new.settings == old.settings,
        new.created_at == old.created_at,
        new.archived_at == old.archived_at,
        new.updated_at@ == now,
{
}

/// A change never alters the identity or the creation time of a project.
pub proof fn lemma_update_keeps_identity(
    old: Project,
    input: UpdateProjectInput,
    archived_time: Seq<char>,
    now: Seq<char>,
    new: Project,
)
    requires
        is_project_update(old, input, archived_time, now, new),
    ensures
        new.id == old.id,
        new.created_at == old.created_at,
{
}


/// The name under which a project is created from an accepted name is
/// itself accepted, and already trimmed.
pub proof fn lemma_created_project_name_is_valid(
    p: Project,
    input: CreateProjectInput,
    working_directory: Seq<char>,
)
    requires
        valid_project_name(input.name@),
        is_project_created_from(p, input, working_directory),
    ensures
        valid_project_name(p.name@),
        trim(p.name@) == p.name@,
{
    lemma_trim_idempotent(input.name@);
}

/// Renaming a project with an accepted name leaves it under a name that is
/// itself accepted, and already trimmed.
pub proof fn lemma_renamed_project_name_is_valid(
    old: Project,
    input: UpdateProjectInput,
    archived_time: Seq<char>,
    now: Seq<char>,
    new: Project,
)
    requires
        input.name matches Some(n) && valid_project_name(n@),
        is_project_update(old, input, archived_time, now, new),
    ensures
        valid_project_name(new.name@),
        trim(new.name@) == new.name@,
{
    lemma_trim_idempotent(input.name->0@);
}

/// A stored description is never blank and is already trimmed.
pub proof fn lemma_normalized_description_is_trimmed(d: Option<Seq<char>>)
    ensures
        normalized_optional_text(d) matches Some(t) ==> t.len() > 0 && trim(t) == t,
{
    if let Some(x) = d {
        lemma_trim_idempotent(x);
    }
}

} // verus!
