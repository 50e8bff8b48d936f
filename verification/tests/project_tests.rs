use platform_core::error::PlatformError;
use platform_core::project::model::{
    CreateProjectInput, Project, ProjectSettings, ProjectStatus, UpdateProjectInput,
};
use platform_core::project::service::{
    apply_project_update, apply_project_update_at, archive_request, assemble_project,
    check_project_update, prepare_new_project, project_write_outcome,
};
use platform_core::time::Timestamp;

fn ts(text: &str) -> Timestamp {
    Timestamp::parse_rfc3339(text).expect("valid time")
}

fn research_input() -> CreateProjectInput {
    CreateProjectInput {
        name: "Test Research Project".to_string(),
        working_directory: "/tmp/my-project".to_string(),
        description: Some("Deep market analysis".to_string()),
        settings: Some(ProjectSettings {
            default_provider: Some("anthropic".to_string()),
            default_model: Some("sonnet-3-7".to_string()),
            allowed_tools: vec!["web_search".to_string(), "pdf_reader".to_string()],
            custom_instructions: Some("Always cite sources".to_string()),
        }),
    }
}

fn created() -> Project {
    assemble_project(
        research_input(),
        "id-1".to_string(),
        "/tmp/my-project".to_string(),
        ts("2024-01-01T00:00:00Z"),
    )
}

#[test]
fn status_text_and_parsing() {
    assert_eq!(ProjectStatus::Active.to_string(), "active");
    assert_eq!(ProjectStatus::Archived.to_string(), "archived");
    assert_eq!(ProjectStatus::Suspended.to_string(), "suspended");
    for s in [ProjectStatus::Active, ProjectStatus::Archived, ProjectStatus::Suspended] {
        assert_eq!(ProjectStatus::from_str(&s.to_string()), Ok(s));
    }
    assert_eq!(ProjectStatus::from_str("ARCHIVED"), Ok(ProjectStatus::Archived));
    assert_eq!(ProjectStatus::from_str("SusPended"), Ok(ProjectStatus::Suspended));
    assert_eq!(
        ProjectStatus::from_str("Frozen"),
        Err("Unknown project status: frozen".to_string())
    );
    assert_eq!(ProjectStatus::default(), ProjectStatus::Active);
}

#[test]
fn assembled_project_follows_the_request() {
    let p = created();
    assert_eq!(p.id, "id-1");
    assert_eq!(p.name, "Test Research Project");
    assert_eq!(p.description.as_deref(), Some("Deep market analysis"));
    assert_eq!(p.working_directory, "/tmp/my-project");
    assert_eq!(p.status, ProjectStatus::Active);
    assert_eq!(p.settings.default_provider.as_deref(), Some("anthropic"));
    assert_eq!(p.settings.allowed_tools, vec!["web_search".to_string(), "pdf_reader".to_string()]);
    assert_eq!(p.created_at.as_str(), "2024-01-01T00:00:00+00:00");
    assert_eq!(p.updated_at.as_str(), "2024-01-01T00:00:00+00:00");
    assert!(p.archived_at.is_none());
}

#[test]
fn new_project_trims_and_defaults() {
    let p = prepare_new_project(
        CreateProjectInput {
            name: "  Spaced Name \t".to_string(),
            working_directory: "/srv/p".to_string(),
            description: Some("   ".to_string()),
            settings: None,
        },
        "/srv/p".to_string(),
    );
    assert_eq!(p.name, "Spaced Name");
    assert!(p.description.is_none());
    assert!(p.settings.default_provider.is_none());
    assert!(p.settings.default_model.is_none());
    assert!(p.settings.allowed_tools.is_empty());
    assert!(p.settings.custom_instructions.is_none());
    assert_eq!(p.created_at.as_str(), p.updated_at.as_str());
    assert_eq!(p.id.len(), 36);
    assert_eq!(&p.id[14..15], "4");
    assert!(p.id.chars().enumerate().all(|(i, c)| if [8, 13, 18, 23].contains(&i) {
        c == '-'
    } else {
        c.is_ascii_hexdigit() && !c.is_ascii_uppercase()
    }));
    let other = prepare_new_project(
        CreateProjectInput {
            name: "Other".to_string(),
            working_directory: "/srv/q".to_string(),
            description: None,
            settings: None,
        },
        "/srv/q".to_string(),
    );
    assert_ne!(p.id, other.id);
}

#[test]
fn update_checks_existence_then_name() {
    let input = UpdateProjectInput { name: Some("ok".to_string()), ..Default::default() };
    match check_project_update(None, "missing-id", &input) {
        Err(PlatformError::ProjectNotFound(id)) => assert_eq!(id, "missing-id"),
        other => panic!("unexpected {other:?}"),
    }
    let bad = UpdateProjectInput { name: Some("   ".to_string()), ..Default::default() };
    match check_project_update(Some(created()), "id-1", &bad) {
        Err(PlatformError::InvalidProject(m)) => assert_eq!(m, "Project name cannot be empty"),
        other => panic!("unexpected {other:?}"),
    }
    let p = check_project_update(Some(created()), "id-1", &input).expect("found");
    assert_eq!(p.id, "id-1");
}

#[test]
fn project_create_rename_archive_steps() {
    let p = created();
    let updated = apply_project_update_at(
        p,
        UpdateProjectInput {
            name: Some("Renamed Research Project".to_string()),
            description: Some(Some("Updated description".to_string())),
            ..Default::default()
        },
        ts("2024-01-02T00:00:00Z"),
        ts("2024-01-03T00:00:00Z"),
    );
    assert_eq!(updated.name, "Renamed Research Project");
    assert_eq!(updated.description.as_deref(), Some("Updated description"));
    assert_eq!(updated.created_at.as_str(), "2024-01-01T00:00:00+00:00");
    assert_eq!(updated.updated_at.as_str(), "2024-01-03T00:00:00+00:00");
    assert!(updated.archived_at.is_none());

    let archived = apply_project_update_at(
        updated,
        archive_request(),
        ts("2024-01-04T00:00:00Z"),
        ts("2024-01-05T00:00:00Z"),
    );
    assert_eq!(archived.status, ProjectStatus::Archived);
    assert_eq!(archived.archived_at.as_ref().map(|t| t.as_str()), Some("2024-01-04T00:00:00+00:00"));
    assert_eq!(archived.name, "Renamed Research Project");
}

#[test]
fn archiving_twice_keeps_the_first_archive_time() {
    let once = apply_project_update_at(created(), archive_request(), ts("2024-02-01T00:00:00Z"), ts("2024-02-01T00:00:01Z"));
    let twice = apply_project_update_at(once, archive_request(), ts("2024-03-01T00:00:00Z"), ts("2024-03-01T00:00:01Z"));
    assert_eq!(twice.status, ProjectStatus::Archived);
    assert_eq!(twice.archived_at.as_ref().map(|t| t.as_str()), Some("2024-02-01T00:00:00+00:00"));
    assert_eq!(twice.updated_at.as_str(), "2024-03-01T00:00:01+00:00");
}

#[test]
fn leaving_archived_status_clears_archive_time() {
    let archived = apply_project_update_at(created(), archive_request(), ts("2024-02-01T00:00:00Z"), ts("2024-02-01T00:00:01Z"));
    let suspended = apply_project_update_at(
        archived,
        UpdateProjectInput { status: Some(ProjectStatus::Suspended), ..Default::default() },
        ts("2024-02-02T00:00:00Z"),
        ts("2024-02-02T00:00:01Z"),
    );
    assert_eq!(suspended.status, ProjectStatus::Suspended);
    assert!(suspended.archived_at.is_none());
}

#[test]
fn update_sets_directory_settings_and_clears_description() {
    let p = apply_project_update(
        created(),
        UpdateProjectInput {
            description: Some(None),
            working_directory: Some("/srv/new".to_string()),
            settings: Some(ProjectSettings::default()),
            ..Default::default()
        },
    );
    assert!(p.description.is_none());
    assert_eq!(p.working_directory, "/srv/new");
    assert!(p.settings.allowed_tools.is_empty());
    assert_eq!(p.name, "Test Research Project");
    assert_eq!(p.status, ProjectStatus::Active);
}

#[test]
fn empty_update_changes_only_the_time() {
    let p = apply_project_update_at(created(), UpdateProjectInput::default(), ts("2030-01-01T00:00:00Z"), ts("2030-01-01T00:00:00Z"));
    assert_eq!(p.id, "id-1");
    assert_eq!(p.name, "Test Research Project");
    assert_eq!(p.description.as_deref(), Some("Deep market analysis"));
    assert_eq!(p.status, ProjectStatus::Active);
    assert!(p.archived_at.is_none());
    assert_eq!(p.updated_at.as_str(), "2030-01-01T00:00:00+00:00");
}

#[test]
fn write_outcome_reports_missing_rows() {
    assert!(project_write_outcome(1, "x").is_ok());
    match project_write_outcome(0, "gone-id") {
        Err(PlatformError::ProjectNotFound(id)) => assert_eq!(id, "gone-id"),
        other => panic!("unexpected {other:?}"),
    }
}
