use platform_core::error::PlatformError;
use platform_core::project::validation::{
    plan_working_dir, validate_project_name, validate_working_dir_text, WorkingDirAction,
    WorkingDirState,
};

fn invalid_project_message(r: Result<(), PlatformError>) -> String {
    match r {
        Err(PlatformError::InvalidProject(m)) => m,
        other => panic!("expected InvalidProject, got {other:?}"),
    }
}

fn invalid_dir_message(r: Result<(), PlatformError>) -> String {
    match r {
        Err(PlatformError::InvalidWorkingDirectory(m)) => m,
        other => panic!("expected InvalidWorkingDirectory, got {other:?}"),
    }
}

#[test]
fn valid_project_names_are_accepted() {
    assert!(validate_project_name("Test Research Project").is_ok());
    assert!(validate_project_name("  padded  ").is_ok());
    assert!(validate_project_name(&"x".repeat(100)).is_ok());
    assert!(validate_project_name(&format!("  {}  ", "y".repeat(100))).is_ok());
}

#[test]
fn blank_project_names_are_refused() {
    assert_eq!(invalid_project_message(validate_project_name("")), "Project name cannot be empty");
    assert_eq!(invalid_project_message(validate_project_name(" \t\n ")), "Project name cannot be empty");
}

#[test]
fn long_project_names_are_refused_by_bytes() {
    assert_eq!(
        invalid_project_message(validate_project_name(&"x".repeat(101))),
        "Project name cannot exceed 100 characters"
    );
    // 51 two-byte characters are 102 bytes.
    assert_eq!(
        invalid_project_message(validate_project_name(&"é".repeat(51))),
        "Project name cannot exceed 100 characters"
    );
    assert!(validate_project_name(&"é".repeat(50)).is_ok());
}

#[test]
fn control_characters_in_names_are_refused() {
    assert_eq!(
        invalid_project_message(validate_project_name("bad\u{1}name")),
        "Project name cannot contain control characters"
    );
}

#[test]
fn test_invalid_working_directories() {
    assert!(matches!(validate_working_dir_text(""), Err(PlatformError::InvalidWorkingDirectory(_))));
    assert!(matches!(validate_working_dir_text("C:\\"), Err(PlatformError::InvalidWorkingDirectory(_))));
    assert!(matches!(
        validate_working_dir_text("C:\\Windows"),
        Err(PlatformError::InvalidWorkingDirectory(_))
    ));
}

#[test]
fn working_dir_text_messages() {
    assert_eq!(invalid_dir_message(validate_working_dir_text("")), "Working directory cannot be empty");
    for root in ["/", "\\", "C:\\", "C:/"] {
        assert_eq!(
            invalid_dir_message(validate_working_dir_text(root)),
            "System root cannot be used as a project working directory"
        );
    }
    for sys in ["c:\\windows\\system32", "C:/Windows", "C:\\WINDOWS"] {
        assert_eq!(
            invalid_dir_message(validate_working_dir_text(sys)),
            "System directory cannot be used as a project working directory"
        );
    }
    assert!(validate_working_dir_text("/home/user/project").is_ok());
    assert!(validate_working_dir_text("relative/dir").is_ok());
    assert!(validate_working_dir_text("D:\\Windows").is_ok());
}

#[test]
fn working_dir_plan_follows_file_system_state() {
    assert!(matches!(plan_working_dir(WorkingDirState::Missing, "/tmp/x"), Ok(WorkingDirAction::Create)));
    assert!(matches!(plan_working_dir(WorkingDirState::Directory, "/tmp/x"), Ok(WorkingDirAction::UseExisting)));
    match plan_working_dir(WorkingDirState::NotDirectory, "/tmp/file.txt") {
        Err(PlatformError::InvalidWorkingDirectory(m)) => {
            assert_eq!(m, "Path exists but is not a directory: '/tmp/file.txt'")
        }
        other => panic!("unexpected {other:?}"),
    }
}

#[test]
fn error_text_has_prefix_and_detail() {
    assert_eq!(PlatformError::ProjectNotFound("abc".to_string()).to_string(), "Project not found: abc");
    assert_eq!(PlatformError::InvalidAgent("x".to_string()).to_string(), "Invalid agent definition: x");
    assert_eq!(PlatformError::Database("locked".to_string()).to_string(), "Database error: locked");
    assert_eq!(PlatformError::Io("gone".to_string()).to_string(), "IO error: gone");
    assert_eq!(PlatformError::Serialization("bad".to_string()).to_string(), "Serialization error: bad");
    assert_eq!(PlatformError::Internal("oops".to_string()).to_string(), "Internal error: oops");
    assert_eq!(PlatformError::AgentNotFound("a".to_string()).to_string(), "Agent not found: a");
    assert_eq!(PlatformError::InvalidProject("p".to_string()).to_string(), "Invalid project data: p");
    assert_eq!(
        PlatformError::InvalidWorkingDirectory("w".to_string()).to_string(),
        "Working directory error: w"
    );
}
