use platform_core::agent_definition::model::{
    AgentDefinition, AgentStatus, CreateAgentInput, DelegationPolicy, ModelSettings,
    PermissionPolicyConfig, UpdateAgentInput,
};
use platform_core::agent_definition::service::{
    agent_archive_request, agent_write_outcome, apply_agent_update, apply_agent_update_at,
    assemble_agent, prepare_new_agent,
};
use platform_core::error::PlatformError;
use platform_core::project::model::CreateProjectInput;
use platform_core::project::service::prepare_new_project;
use platform_core::time::Timestamp;

fn ts(text: &str) -> Timestamp {
    Timestamp::parse_rfc3339(text).expect("valid time")
}

fn bare_input(project_id: &str, name: &str, role: &str, provider: &str, model: &str) -> CreateAgentInput {
    CreateAgentInput {
        project_id: project_id.to_string(),
        name: name.to_string(),
        role: role.to_string(),
        provider: provider.to_string(),
        model: model.to_string(),
        description: None,
        system_instructions: None,
        model_settings: None,
        enabled_tools: None,
        mcp_config: None,
        permission_policy: None,
        max_turns: None,
        delegation_policy: None,
        approval_policy: None,
    }
}

fn alpha_input(project_id: &str) -> CreateAgentInput {
    CreateAgentInput {
        description: Some("Alpha investigator".to_string()),
        system_instructions: Some("Strict academic tone".to_string()),
        model_settings: Some(ModelSettings {
            temperature_bits: Some(0.2f32.to_bits()),
            top_p_bits: Some(0.9f32.to_bits()),
            max_tokens: Some(4096),
            reasoning_effort: Some("high".to_string()),
        }),
        enabled_tools: Some(vec!["fetch_paper".to_string()]),
        max_turns: Some(30),
        delegation_policy: Some(DelegationPolicy {
            can_delegate: true,
            allowed_roles: vec!["Analyst".to_string()],
        }),
        ..bare_input(project_id, "Alpha Researcher", "Principal Investigator", "anthropic", "sonnet-3-7")
    }
}

fn alpha_agent() -> AgentDefinition {
    assemble_agent(true, alpha_input("proj-a"), "agent-a".to_string(), ts("2024-05-01T10:00:00Z"))
        .expect("create agent in alpha")
}

#[test]
fn agent_status_text_and_parsing() {
    for s in [AgentStatus::Active, AgentStatus::Archived, AgentStatus::Disabled] {
        assert_eq!(AgentStatus::from_str(&s.to_string()), Ok(s));
    }
    assert_eq!(AgentStatus::Disabled.to_string(), "disabled");
    assert_eq!(AgentStatus::from_str("DISABLED"), Ok(AgentStatus::Disabled));
    assert_eq!(AgentStatus::from_str("Paused"), Err("Unknown agent status: paused".to_string()));
    assert_eq!(AgentStatus::default(), AgentStatus::Active);
}

#[test]
fn default_permission_policy_prompts() {
    let p = PermissionPolicyConfig::default();
    assert_eq!(p.default_action, "prompt");
    assert!(p.tool_rules.is_empty());
}

#[test]
fn test_cannot_create_agent_for_nonexistent_project() {
    let res = prepare_new_agent(
        &None,
        bare_input("non-existent-uuid", "Orphan Agent", "Worker", "openai", "gpt-4o"),
    );
    assert!(matches!(res, Err(PlatformError::ProjectNotFound(_))));
    match res {
        Err(PlatformError::ProjectNotFound(id)) => assert_eq!(id, "non-existent-uuid"),
        _ => unreachable!(),
    }
}

#[test]
fn missing_project_is_reported_before_blank_fields() {
    let res = assemble_agent(false, bare_input("p", "", "", "", ""), "id".to_string(), ts("2024-01-01T00:00:00Z"));
    assert!(matches!(res, Err(PlatformError::ProjectNotFound(_))));
}

#[test]
fn blank_required_fields_are_refused_in_order() {
    let cases = [
        (bare_input("p", " ", "r", "x", "m"), "Agent name cannot be empty"),
        (bare_input("p", "n", "\t", "", ""), "Agent role cannot be empty"),
        (bare_input("p", "n", "r", "  ", ""), "Agent provider cannot be empty"),
        (bare_input("p", "n", "r", "x", "\n"), "Agent model cannot be empty"),
    ];
    for (input, expected) in cases {
        match assemble_agent(true, input, "id".to_string(), ts("2024-01-01T00:00:00Z")) {
            Err(PlatformError::InvalidAgent(m)) => assert_eq!(m, expected),
            other => panic!("unexpected {other:?}"),
        }
    }
}

#[test]
fn new_agent_takes_defaults_for_omitted_parts() {
    let a = assemble_agent(
        true,
        CreateAgentInput {
            description: Some("  ".to_string()),
            ..bare_input("p", "  Beta Writer ", " Copywriter", "ollama ", " llama3.3:70b ")
        },
        "id-b".to_string(),
        ts("2024-01-01T00:00:00Z"),
    )
    .expect("created");
    assert_eq!(a.name, "Beta Writer");
    assert_eq!(a.role, "Copywriter");
    assert_eq!(a.provider, "ollama");
    assert_eq!(a.model, "llama3.3:70b");
    assert!(a.description.is_none());
    assert_eq!(a.system_instructions, "");
    assert!(a.model_settings.temperature_bits.is_none());
    assert!(a.enabled_tools.is_empty());
    assert!(a.mcp_config.is_empty());
    assert_eq!(a.permission_policy.default_action, "prompt");
    assert!(!a.delegation_policy.can_delegate);
    assert!(!a.approval_policy.require_approval_for_destructive_tools);
    assert_eq!(a.status, AgentStatus::Active);
    assert_eq!(a.project_id, "p");
}

#[test]
fn agent_steps_keep_each_agent_in_its_project() {
    let proj_a = prepare_new_project(
        CreateProjectInput {
            name: "Project Alpha".to_string(),
            working_directory: "/tmp/alpha".to_string(),
            description: None,
            settings: None,
        },
        "/tmp/alpha".to_string(),
    );
    let proj_b = prepare_new_project(
        CreateProjectInput {
            name: "Project Beta".to_string(),
            working_directory: "/tmp/beta".to_string(),
            description: None,
            settings: None,
        },
        "/tmp/beta".to_string(),
    );
    let agent_a = prepare_new_agent(&Some(proj_a), alpha_input("placeholder"));
    let agent_a = agent_a.expect("create agent in alpha");
    let agent_b = prepare_new_agent(
        &Some(proj_b),
        CreateAgentInput {
            description: Some("Beta writer".to_string()),
            system_instructions: Some("Creative tone".to_string()),
            max_turns: Some(15),
            ..bare_input("beta-id", "Beta Writer", "Copywriter", "ollama", "llama3.3:70b")
        },
    )
    .expect("create agent in beta");
    assert_eq!(agent_a.name, "Alpha Researcher");
    assert_eq!(agent_a.max_turns, Some(30));
    assert_eq!(agent_a.model_settings.max_tokens, Some(4096));
    assert_eq!(agent_a.model_settings.temperature_bits.map(f32::from_bits), Some(0.2));
    assert_eq!(agent_b.name, "Beta Writer");
    assert_eq!(agent_b.max_turns, Some(15));
    assert_eq!(agent_b.project_id, "beta-id");
    assert_ne!(agent_a.id, agent_b.id);

    let updated = apply_agent_update(
        Some(agent_a),
        "agent-a",
        UpdateAgentInput {
            name: Some("Lead Alpha Researcher".to_string()),
            model: Some("opus-3-7".to_string()),
            ..Default::default()
        },
    )
    .expect("update agent");
    assert_eq!(updated.name, "Lead Alpha Researcher");
    assert_eq!(updated.model, "opus-3-7");
    assert_eq!(updated.project_id, "placeholder");

    let archived = apply_agent_update(Some(updated), "agent-a", agent_archive_request()).expect("archive agent");
    assert_eq!(archived.status, AgentStatus::Archived);
    assert_eq!(archived.name, "Lead Alpha Researcher");
}

#[test]
fn update_reports_missing_agent_and_blank_fields() {
    match apply_agent_update(None, "ghost", UpdateAgentInput::default()) {
        Err(PlatformError::AgentNotFound(id)) => assert_eq!(id, "ghost"),
        other => panic!("unexpected {other:?}"),
    }
    match apply_agent_update(
        Some(alpha_agent()),
        "agent-a",
        UpdateAgentInput { role: Some(" ".to_string()), provider: Some("".to_string()), ..Default::default() },
    ) {
        Err(PlatformError::InvalidAgent(m)) => assert_eq!(m, "Agent role cannot be empty"),
        other => panic!("unexpected {other:?}"),
    }
}

#[test]
fn update_sets_every_given_field() {
    let a = apply_agent_update_at(
        Some(alpha_agent()),
        "agent-a",
        UpdateAgentInput {
            description: Some(None),
            system_instructions: Some("  kept verbatim  ".to_string()),
            max_turns: Some(None),
            enabled_tools: Some(vec![]),
            status: Some(AgentStatus::Disabled),
            ..Default::default()
        },
        ts("2024-06-01T00:00:00+02:00"),
    )
    .expect("updated");
    assert!(a.description.is_none());
    assert_eq!(a.system_instructions, "  kept verbatim  ");
    assert_eq!(a.max_turns, None);
    assert!(a.enabled_tools.is_empty());
    assert_eq!(a.status, AgentStatus::Disabled);
    assert_eq!(a.updated_at.as_str(), "2024-05-31T22:00:00+00:00");
    assert_eq!(a.created_at.as_str(), "2024-05-01T10:00:00+00:00");
    assert_eq!(a.id, "agent-a");
    assert_eq!(a.project_id, "proj-a");
    assert!(a.delegation_policy.can_delegate);
}

#[test]
fn empty_agent_update_changes_only_the_time() {
    let a = apply_agent_update_at(Some(alpha_agent()), "agent-a", UpdateAgentInput::default(), ts("2025-01-01T00:00:00Z"))
        .expect("updated");
    assert_eq!(a.name, "Alpha Researcher");
    assert_eq!(a.role, "Principal Investigator");
    assert_eq!(a.max_turns, Some(30));
    assert_eq!(a.status, AgentStatus::Active);
    assert_eq!(a.updated_at.as_str(), "2025-01-01T00:00:00+00:00");
}

#[test]
fn agent_write_outcome_reports_missing_rows() {
    assert!(agent_write_outcome(3, "a").is_ok());
    assert!(matches!(agent_write_outcome(0, "a"), Err(PlatformError::AgentNotFound(_))));
}
