//! Validation of project names and of the text of working-directory paths.

use crate::error::PlatformError;
use crate::text::{
    ascii_upper, has_control_char, is_prefix, trim, contains_control_char, text_eq, text_starts_with,
    to_ascii_uppercase, trim_str,
};
use vstd::prelude::*;
use vstd::utf8::encode_utf8;

verus! {

/// The longest project name, counted in UTF-8 bytes after trimming.
pub const MAX_PROJECT_NAME_BYTES: usize = 100;

/// Why a project name is refused, or `None` when it is accepted.
pub open spec fn project_name_problem(name: Seq<char>) -> Option<Seq<char>> {
    let t = trim(name);
    if t.len() == 0 {
        Some("Project name cannot be empty"@)
    } else if encode_utf8(t).len() > MAX_PROJECT_NAME_BYTES {
        Some("Project name cannot exceed 100 characters"@)
    } else if has_control_char(t) {
        Some("Project name cannot contain control characters"@)
    } else {
        None
    }
}

/// A project name is valid when its trimmed form is non-empty, at most
/// 100 bytes long and free of control characters.
pub open spec fn valid_project_name(name: Seq<char>) -> bool {
    project_name_problem(name) is None
}

/// Checks a project name. Fails with `InvalidProject` exactly when the name is
/// refused, carrying the reason.
pub fn validate_project_name(name: &str) -> (r: Result<(), PlatformError>)
    ensures
        match project_name_problem(name@) {
            None => r is Ok,
            Some(m) => r matches Err(PlatformError::InvalidProject(msg)) && msg@ == m,
        },
{
    let trimmed = trim_str(name);
    if trimmed.unicode_len() == 0 {
        return Err(PlatformError::InvalidProject(String::from_str("Project name cannot be empty")));
    }
    if trimmed.as_bytes().len() > MAX_PROJECT_NAME_BYTES {
        return Err(
            PlatformError::InvalidProject(
                String::from_str("Project name cannot exceed 100 characters"),
            ),
        );
    }
    if contains_control_char(trimmed) {
        return Err(
            PlatformError::InvalidProject(
                String::from_str("Project name cannot contain control characters"),
            ),
        );
    }
    Ok(())
}

/// The text is one of the system roots that cannot hold a project.
pub open spec fn is_system_root(p: Seq<char>) -> bool {
    p == "/"@ || p == "\\"@ || p == "C:\\"@ || p == "C:/"@
}

/// The text names the Windows system directory (compared without regard to
/// ASCII case).
pub open spec fn is_windows_system_dir(p: Seq<char>) -> bool {
    is_prefix("C:\\WINDOWS"@, ascii_upper(p)) || is_prefix("C:/WINDOWS"@, ascii_upper(p))
}

/// Why the text of a working-directory path is refused before the file
/// system is consulted, or `None` when it may be resolved.
pub open spec fn working_dir_text_problem(p: Seq<char>) -> Option<Seq<char>> {
    if p.len() == 0 {
        Some("Working directory cannot be empty"@)
    } else if is_system_root(p) {
        Some("System root cannot be used as a project working directory"@)
    } else if is_windows_system_dir(p) {
        Some("System directory cannot be used as a project working directory"@)
    } else {
        None
    }
}

/// Checks the text of a working-directory path: it must not be empty, a
/// system root, or inside the Windows system directory. Fails with
/// `InvalidWorkingDirectory` exactly when the text is refused.
pub fn validate_working_dir_text(path: &str) -> (r: Result<(), PlatformError>)
    ensures
        match working_dir_text_problem(path@) {
            None => r is Ok,
            Some(m) => r matches Err(PlatformError::InvalidWorkingDirectory(msg)) && msg@ == m,
        },
{
    if path.unicode_len() == 0 {
        return Err(
            PlatformError::InvalidWorkingDirectory(
                String::from_str("Working directory cannot be empty"),
            ),
        );
    }
    if text_eq(path, "/") || text_eq(path, "\\") || text_eq(path, "C:\\") || text_eq(path, "C:/") {
        return Err(
            PlatformError::InvalidWorkingDirectory(
                String::from_str("System root cannot be used as a project working directory"),
            ),
        );
    }
    let upper = to_ascii_uppercase(path);
    if text_starts_with(upper.as_str(), "C:\\WINDOWS") || text_starts_with(
        upper.as_str(),
        "C:/WINDOWS",
    ) {
        return Err(
            PlatformError::InvalidWorkingDirectory(
                String::from_str("System directory cannot be used as a project working directory"),
            ),
        );
    }
    Ok(())
}

/// What the file system holds at a resolved working-directory path.
#[derive(Debug, Clone, Copy, PartialEq, Eq, Structural)]
pub enum WorkingDirState {
    Missing,
    Directory,
    NotDirectory,
}

/// What to do with a resolved working-directory path before canonicalizing it.
#[derive(Debug, Clone, Copy, PartialEq, Eq, Structural)]
pub enum WorkingDirAction {
    /// Create the directory and its parents.
    Create,
    /// Use the directory that is already there.
    UseExisting,
}

/// Decides, from what the file system holds at the resolved path, whether
/// the directory is created, used as it is, or refused. `shown` is the path
/// as it is displayed in the error.
pub fn plan_working_dir(state: WorkingDirState, shown: &str) -> (r: Result<
    WorkingDirAction,
    PlatformError,
>)
    ensures
        state == WorkingDirState::Missing ==> r == Ok::<WorkingDirAction, PlatformError>(
            WorkingDirAction::Create,
        ),
        state == WorkingDirState::Directory ==> r == Ok::<WorkingDirAction, PlatformError>(
            WorkingDirAction::UseExisting,
        ),
        state == WorkingDirState::NotDirectory ==> (r matches Err(
            PlatformError::InvalidWorkingDirectory(msg),
        ) && msg@ == "Path exists but is not a directory: '"@ + shown@ + "'"@),
{
    match state {
        WorkingDirState::Missing => Ok(WorkingDirAction::Create),
        WorkingDirState::Directory => Ok(WorkingDirAction::UseExisting),
        WorkingDirState::NotDirectory => {
            let mut msg = String::from_str("Path exists but is not a directory: '");
            msg.append(shown);
            msg.append("'");
            Err(PlatformError::InvalidWorkingDirectory(msg))
        },
    }
}

} // verus!
