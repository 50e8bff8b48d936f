//! The command-line requests for projects and agent definitions, and the
//! decisions that turn each of them into the operation to perform.

use crate::agent_definition::model::{
    agent_status_named, is_default_model_settings, AgentStatus, CreateAgentInput, ModelSettings,
    UpdateAgentInput,
};
use crate::project::model::{
    project_status_named, CreateProjectInput, ProjectStatus, UpdateProjectInput,
};
use crate::text::ascii_lower;
use vstd::prelude::*;
use vstd::utf8::{encode_utf8, is_char_boundary};

verus! {

/// A project request as given on the command line.
#[derive(Debug)]
pub enum ProjectCommand {
    Create { name: String, working_dir: String, description: Option<String>, json: bool },
    List { include_archived: bool, json: bool },
    Show { id: String, json: bool },
    Update {
        id: String,
        name: Option<String>,
        description: Option<String>,
        working_dir: Option<String>,
        status: Option<String>,
        json: bool,
    },
    Archive { id: String, json: bool },
    Delete { id: String, force: bool, json: bool },
}

/// An agent request as given on the command line.
#[derive(Debug)]
pub enum AgentCommand {
    Create {
        project_id: String,
        name: String,
        role: String,
        provider: String,
        model: String,
        description: Option<String>,
        system_instructions: Option<String>,
        max_turns: Option<u32>,
        tools: Option<Vec<String>>,
        json: bool,
    },
    List { project_id: String, include_archived: bool, json: bool },
    Show { id: String, json: bool },
    Update {
        id: String,
        name: Option<String>,
        role: Option<String>,
        provider: Option<String>,
        model: Option<String>,
        description: Option<String>,
        system_instructions: Option<String>,
        status: Option<String>,
        json: bool,
    },
    Archive { id: String, json: bool },
    Delete { id: String, force: bool, json: bool },
}

/// The project operation that a command asks for.
#[derive(Debug)]
pub enum ProjectAction {
    Create { input: CreateProjectInput, json: bool },
    List { include_archived: bool, json: bool },
    Show { id: String, json: bool },
    Update { id: String, input: UpdateProjectInput, json: bool },
    Archive { id: String, json: bool },
    Delete { id: String, json: bool },
}

/// The agent operation that a command asks for.
#[derive(Debug)]
pub enum AgentAction {
    Create { input: CreateAgentInput, json: bool },
    List { project_id: String, include_archived: bool, json: bool },
    Show { id: String, json: bool },
    Update { id: String, input: UpdateAgentInput, json: bool },
    Archive { id: String, json: bool },
    Delete { id: String, json: bool },
}

/// Why a command is refused before anything is done.
#[derive(Debug)]
pub enum CommandRefusal {
    /// The status text names no status; the message says which text.
    UnknownStatus(String),
    /// A deletion was asked for without `--force`; holds the identifier.
    DeletionNotConfirmed(String),
}

/// The message with which an unconfirmed deletion is aborted.
pub fn deletion_aborted_message() -> (r: String)
    ensures
        r@ == "Deletion aborted without --force flag"@,
{
    String::from_str("Deletion aborted without --force flag")
}

/// The project status that an optional status text asks for.
pub open spec fn requested_project_status(s: Option<String>) -> Option<Option<ProjectStatus>> {
    match s {
        None => Some(None),
        Some(t) => match project_status_named(t@) {
            Some(st) => Some(Some(st)),
            None => None,
        },
    }
}

/// The agent status that an optional status text asks for.
pub open spec fn requested_agent_status(s: Option<String>) -> Option<Option<AgentStatus>> {
    match s {
        None => Some(None),
        Some(t) => match agent_status_named(t@) {
            Some(st) => Some(Some(st)),
            None => None,
        },
    }
}

/// The optional description of a command as a change: given means set.
pub open spec fn description_change(d: Option<String>) -> Option<Option<String>> {
    match d {
        Some(s) => Some(Some(s)),
        None => None,
    }
}

/// `a` is what the project command `c` asks for, when its status text (if
/// any) names a status and a deletion is confirmed.
pub open spec fn is_project_action_for(c: ProjectCommand, a: ProjectAction) -> bool {
    match c {
        ProjectCommand::Create { name, working_dir, description, json } => a == ProjectAction::Create {
            input: CreateProjectInput {
                name,
                working_directory: working_dir,
                description,
                settings: None,
            },
            json,
        },
        ProjectCommand::List { include_archived, json } => a == ProjectAction::List {
            include_archived,
            json,
        },
        ProjectCommand::Show { id, json } => a == ProjectAction::Show { id, json },
        ProjectCommand::Update { id, name, description, working_dir, status, json } => a
            == ProjectAction::Update {
            id,
            input: UpdateProjectInput {
                name,
                description: description_change(description),
                working_directory: working_dir,
                status: requested_project_status(status)->0,
                settings: None,
            },
            json,
        },
        ProjectCommand::Archive { id, json } => a == ProjectAction::Archive { id, json },
        ProjectCommand::Delete { id, force, json } => a == ProjectAction::Delete { id, json },
    }
}

/// Refuses a status text that names no status, quoting the refusal.
fn parse_project_status_arg(s: Option<String>) -> (r: Result<Option<ProjectStatus>, CommandRefusal>)
    ensures
        match requested_project_status(s) {
            Some(st) => r == Ok::<Option<ProjectStatus>, CommandRefusal>(st),
            None => r matches Err(CommandRefusal::UnknownStatus(m)) && m@
                == "Unknown project status: "@ + ascii_lower(s->0@),
        },
{
    match s {
        None => Ok(None),
        Some(t) => match ProjectStatus::from_str(t.as_str()) {
            Ok(st) => Ok(Some(st)),
            Err(m) => Err(CommandRefusal::UnknownStatus(m)),
        },
    }
}

/// Refuses a status text that names no status, quoting the refusal.
fn parse_agent_status_arg(s: Option<String>) -> (r: Result<Option<AgentStatus>, CommandRefusal>)
    ensures
        match requested_agent_status(s) {
            Some(st) => r == Ok::<Option<AgentStatus>, CommandRefusal>(st),
            None => r matches Err(CommandRefusal::UnknownStatus(m)) && m@
                == "Unknown agent status: "@ + ascii_lower(s->0@),
        },
{
    match s {
        None => Ok(None),
        Some(t) => match AgentStatus::from_str(t.as_str()) {
            Ok(st) => Ok(Some(st)),
            Err(m) => Err(CommandRefusal::UnknownStatus(m)),
        },
    }
}

/// Decides what a project command asks for. An update whose status text
/// names no status is refused with `UnknownStatus`, a deletion without
/// `--force` with `DeletionNotConfirmed`; every other command becomes its
/// operation, a new project without settings and a given description as a
/// new description.
pub fn plan_project_command(c: ProjectCommand) -> (r: Result<ProjectAction, CommandRefusal>)
    ensures
        match c {
            ProjectCommand::Delete { id, force, json } => if force {
                r matches Ok(a) && is_project_action_for(c, a)
            } else {
                r matches Err(CommandRefusal::DeletionNotConfirmed(i)) && i == id
            },
            ProjectCommand::Update { status, .. } => match requested_project_status(status) {
                Some(_) => r matches Ok(a) && is_project_action_for(c, a),
                None => r matches Err(CommandRefusal::UnknownStatus(m)) && m@
                    == "Unknown project status: "@ + ascii_lower(status->0@),
            },
            _ => r matches Ok(a) && is_project_action_for(c, a),
        },
{
    match c {
        ProjectCommand::Create { name, working_dir, description, json } => Ok(
            ProjectAction::Create {
                input: CreateProjectInput {
                    name,
                    working_directory: working_dir,
                    description,
                    settings: None,
                },
                json,
            },
        ),
        ProjectCommand::List { include_archived, json } => Ok(
            ProjectAction::List { include_archived, json },
        ),
        ProjectCommand::Show { id, json } => Ok(ProjectAction::Show { id, json }),
        ProjectCommand::Update { id, name, description, working_dir, status, json } => {
            let status = match parse_project_status_arg(status) {
                Ok(s) => s,
                Err(e) => return Err(e),
            };
            let description = match description {
                Some(d) => Some(Some(d)),
                None => None,
            };
            Ok(
                ProjectAction::Update {
                    id,
                    input: UpdateProjectInput {
                        name,
                        description,
                        working_directory: working_dir,
                        status,
                        settings: None,
                    },
                    json,
                },
            )
        },
        ProjectCommand::Archive { id, json } => Ok(ProjectAction::Archive { id, json }),
        ProjectCommand::Delete { id, force, json } => {
            if force {
                Ok(ProjectAction::Delete { id, json })
            } else {
                Err(CommandRefusal::DeletionNotConfirmed(id))
            }
        },
    }
}

/// `a` is what the agent command `c` asks for, when its status text (if
/// any) names a status and a deletion is confirmed.
pub open spec fn is_agent_action_for(c: AgentCommand, a: AgentAction) -> bool {
    match c {
        AgentCommand::Create {
            project_id,
            name,
            role,
            provider,
            model,
            description,
            system_instructions,
            max_turns,
            tools,
            json,
        } => a matches AgentAction::Create { input, json: j } && j == json && input.project_id
            == project_id && input.name == name && input.role == role && input.provider
            == provider && input.model == model && input.description == description
            && input.system_instructions == system_instructions && (input.model_settings matches Some(
            s,
        ) && is_default_model_settings(s)) && input.enabled_tools == tools && input.mcp_config is None
            && input.permission_policy is None && input.max_turns == max_turns
            && input.delegation_policy is None && input.approval_policy is None,
        AgentCommand::List { project_id, include_archived, json } => a == AgentAction::List {
            project_id,
            include_archived,
            json,
        },
        AgentCommand::Show { id, json } => a == AgentAction::Show { id, json },
        AgentCommand::Update {
            id,
            name,
            role,
            provider,
            model,
            description,
            system_instructions,
            status,
            json,
        } => a == AgentAction::Update {
            id,
            input: UpdateAgentInput {
                name,
                description: description_change(description),
                role,
                system_instructions,
                provider,
                model,
                model_settings: None,
                enabled_tools: None,
                mcp_config: None,
                permission_policy: None,
                max_turns: None,
                delegation_policy: None,
                approval_policy: None,
                status: requested_agent_status(status)->0,
            },
            json,
        },
        AgentCommand::Archive { id, json } => a == AgentAction::Archive { id, json },
        AgentCommand::Delete { id, force, json } => a == AgentAction::Delete { id, json },
    }
}

/// Decides what an agent command asks for. An update whose status text
/// names no status is refused with `UnknownStatus`, a deletion without
/// `--force` with `DeletionNotConfirmed`; every other command becomes its
/// operation. A new agent gets default model settings and the listed tools.
pub fn plan_agent_command(c: AgentCommand) -> (r: Result<AgentAction, CommandRefusal>)
    ensures
        match c {
            AgentCommand::Delete { id, force, json } => if force {
                r matches Ok(a) && is_agent_action_for(c, a)
            } else {
                r matches Err(CommandRefusal::DeletionNotConfirmed(i)) && i == id
            },
            AgentCommand::Update { status, .. } => match requested_agent_status(status) {
                Some(_) => r matches Ok(a) && is_agent_action_for(c, a),
                None => r matches Err(CommandRefusal::UnknownStatus(m)) && m@
                    == "Unknown agent status: "@ + ascii_lower(status->0@),
            },
            _ => r matches Ok(a) && is_agent_action_for(c, a),
        },
{
    match c {
        AgentCommand::Create {
            project_id,
            name,
            role,
            provider,
            model,
            description,
            system_instructions,
            max_turns,
            tools,
            json,
        } => Ok(
            AgentAction::Create {
                input: CreateAgentInput {
                    project_id,
                    name,
                    role,
                    provider,
                    model,
                    description,
                    system_instructions,
                    model_settings: Some(ModelSettings::default()),
                    enabled_tools: tools,
                    mcp_config: None,
                    permission_policy: None,
                    max_turns,
                    delegation_policy: None,
                    approval_policy: None,
                },
                json,
            },
        ),
        AgentCommand::List { project_id, include_archived, json } => Ok(
            AgentAction::List { project_id, include_archived, json },
        ),
        AgentCommand::Show { id, json } => Ok(AgentAction::Show { id, json }),
        AgentCommand::Update {
            id,
            name,
            role,
            provider,
            model,
            description,
            system_instructions,
            status,
            json,
        } => {
            let status = match parse_agent_status_arg(status) {
                Ok(s) => s,
                Err(e) => return Err(e),
            };
            let description = match description {
                Some(d) => Some(Some(d)),
                None => None,
            };
            Ok(
                AgentAction::Update {
                    id,
                    input: UpdateAgentInput {
                        name,
                        description,
                        role,
                        system_instructions,
                        provider,
                        model,
                        model_settings: None,
                        enabled_tools: None,
                        mcp_config: None,
                        permission_policy: None,
                        max_turns: None,
                        delegation_policy: None,
                        approval_policy: None,
                        status,
                    },
                    json,
                },
            )
        },
        AgentCommand::Archive { id, json } => Ok(AgentAction::Archive { id, json }),
        AgentCommand::Delete { id, force, json } => {
            if force {
                Ok(AgentAction::Delete { id, json })
            } else {
                Err(CommandRefusal::DeletionNotConfirmed(id))
            }
        },
    }
}

/// A label may be shortened to `width` bytes without panicking: either it
/// fits, or the byte `width - 3` falls on a character boundary.
pub open spec fn can_shorten_label(s: Seq<char>, width: usize) -> bool {
    encode_utf8(s).len() <= width || (width >= 3 && is_char_boundary(
        encode_utf8(s),
        width - 3,
    ))
}

/// A label for a table column: the text itself when it takes at most
/// `width` bytes, otherwise its first `width - 3` bytes followed by `...`.
pub fn column_label(s: &str, width: usize) -> (r: String)
    requires
        can_shorten_label(s@, width),
    ensures
        encode_utf8(s@).len() <= width ==> r@ == s@,
        encode_utf8(s@).len() > width ==> exists|head: Seq<char>|
            r@ == head + "..."@ && encode_utf8(head) == encode_utf8(s@).subrange(
                0,
                width - 3,
            ),
{
    if s.as_bytes().len() <= width {
        String::from_str(s)
    } else {
        let (head, _) = s.split_at(width - 3);
        let mut r = String::from_str(head);
        r.append("...");
        assert(r@ == head@ + "..."@);
        r
    }
}

} // verus!
