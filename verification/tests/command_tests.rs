use platform_core::agent_definition::model::AgentStatus;
use platform_core::commands::{
    column_label, deletion_aborted_message, plan_agent_command, plan_project_command,
    AgentAction, AgentCommand, CommandRefusal, ProjectAction, ProjectCommand,
};
use platform_core::project::model::ProjectStatus;

#[test]
fn project_create_command_has_no_settings() {
    match plan_project_command(ProjectCommand::Create {
        name: "P".to_string(),
        working_dir: "/w".to_string(),
        description: Some("d".to_string()),
        json: true,
    }) {
        Ok(ProjectAction::Create { input, json }) => {
            assert!(json);
            assert_eq!(input.name, "P");
            assert_eq!(input.working_directory, "/w");
            assert_eq!(input.description.as_deref(), Some("d"));
            assert!(input.settings.is_none());
        }
        other => panic!("unexpected {other:?}"),
    }
}

#[test]
fn project_update_command_parses_status_and_sets_description() {
    match plan_project_command(ProjectCommand::Update {
        id: "i".to_string(),
        name: None,
        description: Some("new".to_string()),
        working_dir: None,
        status: Some("Archived".to_string()),
        json: false,
    }) {
        Ok(ProjectAction::Update { id, input, json }) => {
            assert_eq!(id, "i");
            assert!(!json);
            assert_eq!(input.status, Some(ProjectStatus::Archived));
            assert_eq!(input.description, Some(Some("new".to_string())));
            assert!(input.name.is_none());
        }
        other => panic!("unexpected {other:?}"),
    }
    match plan_project_command(ProjectCommand::Update {
        id: "i".to_string(),
        name: None,
        description: None,
        working_dir: None,
        status: Some("Gone".to_string()),
        json: false,
    }) {
        Err(CommandRefusal::UnknownStatus(m)) => assert_eq!(m, "Unknown project status: gone"),
        other => panic!("unexpected {other:?}"),
    }
}

#[test]
fn deletion_needs_force() {
    match plan_project_command(ProjectCommand::Delete { id: "p1".to_string(), force: false, json: false }) {
        Err(CommandRefusal::DeletionNotConfirmed(id)) => assert_eq!(id, "p1"),
        other => panic!("unexpected {other:?}"),
    }
    assert!(matches!(
        plan_project_command(ProjectCommand::Delete { id: "p1".to_string(), force: true, json: true }),
        Ok(ProjectAction::Delete { json: true, .. })
    ));
    assert!(matches!(
        plan_agent_command(AgentCommand::Delete { id: "a1".to_string(), force: false, json: true }),
        Err(CommandRefusal::DeletionNotConfirmed(_))
    ));
    assert_eq!(deletion_aborted_message(), "Deletion aborted without --force flag");
}

#[test]
fn agent_create_command_gets_default_model_settings() {
    match plan_agent_command(AgentCommand::Create {
        project_id: "p".to_string(),
        name: "n".to_string(),
        role: "r".to_string(),
        provider: "openai".to_string(),
        model: "gpt-4o".to_string(),
        description: None,
        system_instructions: None,
        max_turns: Some(5),
        tools: Some(vec!["a".to_string(), "b".to_string()]),
        json: false,
    }) {
        Ok(AgentAction::Create { input, .. }) => {
            let s = input.model_settings.expect("settings");
            assert!(s.temperature_bits.is_none() && s.max_tokens.is_none());
            assert_eq!(input.enabled_tools, Some(vec!["a".to_string(), "b".to_string()]));
            assert_eq!(input.max_turns, Some(5));
            assert!(input.permission_policy.is_none());
        }
        other => panic!("unexpected {other:?}"),
    }
}

#[test]
fn agent_update_command_parses_status() {
    match plan_agent_command(AgentCommand::Update {
        id: "a".to_string(),
        name: Some("n".to_string()),
        role: None,
        provider: None,
        model: None,
        description: None,
        system_instructions: None,
        status: Some("DISABLED".to_string()),
        json: false,
    }) {
        Ok(AgentAction::Update { input, .. }) => {
            assert_eq!(input.status, Some(AgentStatus::Disabled));
            assert_eq!(input.name.as_deref(), Some("n"));
            assert!(input.description.is_none());
        }
        other => panic!("unexpected {other:?}"),
    }
    assert!(matches!(
        plan_agent_command(AgentCommand::Update {
            id: "a".to_string(),
            name: None,
            role: None,
            provider: None,
            model: None,
            description: None,
            system_instructions: None,
            status: Some("x".to_string()),
            json: false,
        }),
        Err(CommandRefusal::UnknownStatus(_))
    ));
}

#[test]
fn column_labels_are_shortened_by_bytes() {
    assert_eq!(column_label("Alpha Researcher", 20), "Alpha Researcher");
    assert_eq!(column_label("Lead Alpha Researcher Extra", 20), "Lead Alpha Resear...");
    assert_eq!(column_label("exactly twenty chars", 20), "exactly twenty chars");
    assert_eq!(column_label("A very long project name indeed", 25), "A very long project na...");
}
