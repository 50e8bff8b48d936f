//! How agent definitions are created and changed. The reads and writes of
//! the store happen around these steps; every decision between them is made
//! here.

use crate::agent_definition::model::{
    is_default_approval_policy, is_default_delegation_policy, is_default_model_settings,
    is_default_permission_policy, is_empty_agent_update, AgentDefinition, AgentStatus,
    ApprovalPolicy, CreateAgentInput, DelegationPolicy, ModelSettings, PermissionPolicyConfig,
    UpdateAgentInput,
};
use crate::error::PlatformError;
use crate::ids::{is_random_uuid_text, new_id};
use crate::project::model::Project;
use crate::text::{
    is_blank, lemma_trim_idempotent, normalize_optional_text, normalized_optional_text, opt_text,
    trim, trimmed,
};
use crate::time::{is_normal_utc_text, Timestamp};
use vstd::prelude::*;

verus! {

/// The first of the required text fields of an agent that is blank, as the
/// message that refuses it; `None` when name, role, provider and model all
/// hold more than whitespace. `None` arguments are fields that are not being
/// set.
pub open spec fn agent_fields_problem(
    name: Option<Seq<char>>,
    role: Option<Seq<char>>,
    provider: Option<Seq<char>>,
    model: Option<Seq<char>>,
) -> Option<Seq<char>> {
    if name matches Some(n) && trim(n).len() == 0 {
        Some("Agent name cannot be empty"@)
    } else if role matches Some(r) && trim(r).len() == 0 {
        Some("Agent role cannot be empty"@)
    } else if provider matches Some(p) && trim(p).len() == 0 {
        Some("Agent provider cannot be empty"@)
    } else if model matches Some(m) && trim(m).len() == 0 {
        Some("Agent model cannot be empty"@)
    } else {
        None
    }
}

/// `a` is the agent definition that a creation request yields before it is
/// given an identifier and a time: it belongs to the requested project, its
/// required text fields are trimmed, the description normalized, every
/// omitted part takes its default, and it is active.
pub open spec fn is_agent_created_from(a: AgentDefinition, input: CreateAgentInput) -> bool {
    &&& a.project_id == input.project_id
    &&& a.name@ == trim(input.name@)
    &&& a.role@ == trim(input.role@)
    &&& a.provider@ == trim(input.provider@)
    &&& a.model@ == trim(input.model@)
    &&& opt_text(a.description) == normalized_optional_text(opt_text(input.description))
    &&& match input.system_instructions {
        Some(s) => a.system_instructions == s,
        None => a.system_instructions@.len() == 0,
    }
    &&& match input.model_settings {
        Some(s) => a.model_settings == s,
        None => is_default_model_settings(a.model_settings),
    }
    &&& match input.enabled_tools {
        Some(t) => a.enabled_tools == t,
        None => a.enabled_tools@.len() == 0,
    }
    &&& match input.mcp_config {
        Some(c) => a.mcp_config == c,
        None => a.mcp_config@.len() == 0,
    }
    &&& match input.permission_policy {
        Some(p) => a.permission_policy == p,
        None => is_default_permission_policy(a.permission_policy),
    }
    &&& a.max_turns == input.max_turns
    &&& match input.delegation_policy {
        Some(p) => a.delegation_policy == p,
        None => is_default_delegation_policy(a.delegation_policy),
    }
    &&& match input.approval_policy {
        Some(p) => a.approval_policy == p,
        None => is_default_approval_policy(a.approval_policy),
    }
    &&& a.status == AgentStatus::Active
}

/// Trims a required text field and refuses it when it is blank.
fn required_field(value: &str, problem: &str) -> (r: Result<String, PlatformError>)
    ensures
        trim(value@).len() != 0 ==> (r matches Ok(s) && s@ == trim(value@)),
        trim(value@).len() == 0 ==> (r matches Err(PlatformError::InvalidAgent(m)) && m@
            == problem@),
{
    let t = trimmed(value);
    if t.as_str().unicode_len() == 0 {
        Err(PlatformError::InvalidAgent(String::from_str(problem)))
    } else {
        Ok(t)
    }
}

/// Builds a new agent definition from a creation request, given whether
/// the parent project exists, an identifier and the creation time. Fails
/// with `ProjectNotFound` when there is no parent project, then with
/// `InvalidAgent` for the first blank one of name, role, provider and model.
pub fn assemble_agent(parent_exists: bool, input: CreateAgentInput, id: String, now: Timestamp) -> (r:
    Result<AgentDefinition, PlatformError>)
    ensures
        !parent_exists ==> (r matches Err(PlatformError::ProjectNotFound(m)) && m
            == input.project_id),
        parent_exists ==> match agent_fields_problem(
            Some(input.name@),
            Some(input.role@),
            Some(input.provider@),
            Some(input.model@),
        ) {
            Some(reason) => r matches Err(PlatformError::InvalidAgent(m)) && m@ == reason,
            None => r matches Ok(a) && is_agent_created_from(a, input) && a.id == id
                && a.created_at@ == now@ && a.updated_at@ == now@ && a.created_at == now
                && a.updated_at == now,
        },
{
    if !parent_exists {
        return Err(PlatformError::ProjectNotFound(input.project_id));
    }
    let name = match required_field(input.name.as_str(), "Agent name cannot be empty") {
        Ok(s) => s,
        Err(e) => return Err(e),
    };
    let role = match required_field(input.role.as_str(), "Agent role cannot be empty") {
        Ok(s) => s,
        Err(e) => return Err(e),
    };
    let provider = match required_field(input.provider.as_str(), "Agent provider cannot be empty") {
        Ok(s) => s,
        Err(e) => return Err(e),
    };
    let model = match required_field(input.model.as_str(), "Agent model cannot be empty") {
        Ok(s) => s,
        Err(e) => return Err(e),
    };
    let system_instructions = match input.system_instructions {
        Some(s) => s,
        None => String::new(),
    };
    let model_settings = match input.model_settings {
        Some(s) => s,
        None => ModelSettings::default(),
    };
    let enabled_tools = match input.enabled_tools {
        Some(t) => t,
        None => Vec::new(),
    };
    let mcp_config = match input.mcp_config {
        Some(c) => c,
        None => Vec::new(),
    };
    let permission_policy = match input.permission_policy {
        Some(p) => p,
        None => PermissionPolicyConfig::default(),
    };
    let delegation_policy = match input.delegation_policy {
        Some(p) => p,
        None => DelegationPolicy::default(),
    };
    let approval_policy = match input.approval_policy {
        Some(p) => p,
        None => ApprovalPolicy::default(),
    };
    let updated_at = now.clone();
    Ok(
        AgentDefinition {
            id,
            project_id: input.project_id,
            name,
            description: normalize_optional_text(input.description),
            role,
            system_instructions,
            provider,
            model,
            model_settings,
            enabled_tools,
            mcp_config,
            permission_policy,
            max_turns: input.max_turns,
            delegation_policy,
            approval_policy,
            status: AgentStatus::Active,
            created_at: now,
            updated_at,
        },
    )
}

/// Builds a new agent definition from a creation request and the parent
/// project as it was looked up, with a fresh random identifier and, as
/// creation and change time, one reading of the clock taken during the call. Fails as [`assemble_agent`] does.
pub fn prepare_new_agent(parent: &Option<Project>, input: CreateAgentInput) -> (r: Result<
    AgentDefinition,
    PlatformError,
>)
    ensures
        parent is None ==> (r matches Err(PlatformError::ProjectNotFound(m)) && m
            == input.project_id),
        parent is Some ==> match agent_fields_problem(
            Some(input.name@),
            Some(input.role@),
            Some(input.provider@),
            Some(input.model@),
        ) {
            Some(reason) => r matches Err(PlatformError::InvalidAgent(m)) && m@ == reason,
            None => r matches Ok(a) && is_agent_created_from(a, input) && is_random_uuid_text(
                a.id@,
            ) && a.created_at@ == a.updated_at@ && is_normal_utc_text(a.created_at@)
                && a.created_at.is_clock_reading() && a.updated_at.is_clock_reading(),
        },
{
    let id = new_id();
    let now = Timestamp::now();
    assemble_agent(parent.is_some(), input, id, now)
}

/// `new` is `old` after the change `input` made at time `now`.
pub open spec fn is_agent_update(
    old: AgentDefinition,
    input: UpdateAgentInput,
    now: Seq<char>,
    new: AgentDefinition,
) -> bool {
    &&& new.id == old.id
    &&& new.project_id == old.project_id
    &&& new.created_at == old.created_at
    &&& match input.name {
        Some(n) => new.name@ == trim(n@),
        None => new.name == old.name,
    }
    &&& match input.description {
        Some(d) => opt_text(new.description) == normalized_optional_text(opt_text(d)),
        None => new.description == old.description,
    }
    &&& match input.role {
        Some(x) => new.role@ == trim(x@),
        None => new.role == old.role,
    }
    &&& match input.system_instructions {
        Some(x) => new.system_instructions == x,
        None => new.system_instructions == old.system_instructions,
    }
    &&& match input.provider {
        Some(x) => new.provider@ == trim(x@),
        None => new.provider == old.provider,
    }
    &&& match input.model {
        Some(x) => new.model@ == trim(x@),
        None => new.model == old.model,
    }
    &&& match input.model_settings {
        Some(x) => new.model_settings == x,
        None => new.model_settings == old.model_settings,
    }
    &&& match input.enabled_tools {
        Some(x) => new.enabled_tools == x,
        None => new.enabled_tools == old.enabled_tools,
    }
    &&& match input.mcp_config {
        Some(x) => new.mcp_config == x,
        None => new.mcp_config == old.mcp_config,
    }
    &&& match input.permission_policy {
        Some(x) => new.permission_policy == x,
        None => new.permission_policy == old.permission_policy,
    }
    &&& match input.max_turns {
        Some(x) => new.max_turns == x,
        None => new.max_turns == old.max_turns,
    }
    &&& match input.delegation_policy {
        Some(x) => new.delegation_policy == x,
        None => new.delegation_policy == old.delegation_policy,
    }
    &&& match input.approval_policy {
        Some(x) => new.approval_policy == x,
        None => new.approval_policy == old.approval_policy,
    }
    &&& match input.status {
        Some(x) => new.status == x,
        None => new.status == old.status,
    }
    &&& new.updated_at@ == now
}

/// A change request that sets nothing but, possibly, the status.
pub open spec fn changes_only_status(u: UpdateAgentInput) -> bool {
    is_empty_agent_update(UpdateAgentInput { status: None, ..u })
}

/// `new` equals `old` in every field but the change time and, when
/// `status_may_differ`, the status.
pub open spec fn same_agent_apart_from(
    old: AgentDefinition,
    new: AgentDefinition,
    status_may_differ: bool,
) -> bool {
    if status_may_differ {
        AgentDefinition { updated_at: old.updated_at, status: old.status, ..new } == old
    } else {
        AgentDefinition { updated_at: old.updated_at, ..new } == old
    }
}

/// The new value when one is given, the old one otherwise.
fn or_keep<T>(new: Option<T>, old: T) -> (r: T)
    ensures
        r == match new {
            Some(v) => v,
            None => old,
        },
{
    match new {
        Some(v) => v,
        None => old,
    }
}

/// `t` is the trimmed form of `o` when `o` is given, and absent otherwise.
pub open spec fn is_trimmed_field(t: Option<String>, o: Option<String>) -> bool {
    match o {
        Some(s) => t matches Some(x) && x@ == trim(s@),
        None => t is None,
    }
}

/// Checks the new required text fields of a change: each one that is given
/// is trimmed, and the first blank one is refused with `InvalidAgent`.
fn checked_agent_fields(
    name: Option<String>,
    role: Option<String>,
    provider: Option<String>,
    model: Option<String>,
) -> (r: Result<
    (Option<String>, Option<String>, Option<String>, Option<String>),
    PlatformError,
>)
    ensures
        match agent_fields_problem(opt_text(name), opt_text(role), opt_text(provider), opt_text(model)) {
            Some(reason) => r matches Err(PlatformError::InvalidAgent(m)) && m@ == reason,
            None => r matches Ok((n, ro, p, m)) && is_trimmed_field(n, name) && is_trimmed_field(
                ro,
                role,
            ) && is_trimmed_field(p, provider) && is_trimmed_field(m, model),
        },
{
    let name = match name {
        Some(v) => match required_field(v.as_str(), "Agent name cannot be empty") {
            Ok(s) => Some(s),
            Err(e) => return Err(e),
        },
        None => None,
    };
    let role = match role {
        Some(v) => match required_field(v.as_str(), "Agent role cannot be empty") {
            Ok(s) => Some(s),
            Err(e) => return Err(e),
        },
        None => None,
    };
    let provider = match provider {
        Some(v) => match required_field(v.as_str(), "Agent provider cannot be empty") {
            Ok(s) => Some(s),
            Err(e) => return Err(e),
        },
        None => None,
    };
    let model = match model {
        Some(v) => match required_field(v.as_str(), "Agent model cannot be empty") {
            Ok(s) => Some(s),
            Err(e) => return Err(e),
        },
        None => None,
    };
    Ok((name, role, provider, model))
}

/// Applies a change, made at time `now`, to the agent definition as it was
/// looked up. Fails with `AgentNotFound` when there is none, then with
/// `InvalidAgent` for the first blank one of a new name, role, provider and
/// model; otherwise every given field is set, the required text fields
/// trimmed and the description normalized.
pub fn apply_agent_update_at(
    current: Option<AgentDefinition>,
    id: &str,
    input: UpdateAgentInput,
    now: Timestamp,
) -> (r: Result<AgentDefinition, PlatformError>)
    ensures
        current is None ==> (r matches Err(PlatformError::AgentNotFound(m)) && m@ == id@),
        current matches Some(old) ==> match agent_fields_problem(
            opt_text(input.name),
            opt_text(input.role),
            opt_text(input.provider),
            opt_text(input.model),
        ) {
            Some(reason) => r matches Err(PlatformError::InvalidAgent(m)) && m@ == reason,
            None => r matches Ok(a) && is_agent_update(old, input, now@, a) && a.updated_at == now,
        },
{
    let agent = match current {
        Some(a) => a,
        None => return Err(PlatformError::AgentNotFound(String::from_str(id))),
    };
    let UpdateAgentInput {
        name,
        description,
        role,
        system_instructions,
        provider,
        model,
        model_settings,
        enabled_tools,
        mcp_config,
        permission_policy,
        max_turns,
        delegation_policy,
        approval_policy,
        status,
    } = input;
    let (name, role, provider, model) = match checked_agent_fields(name, role, provider, model) {
        Ok(fields) => fields,
        Err(e) => return Err(e),
    };
    let AgentDefinition {
        id: old_id,
        project_id: old_project_id,
        name: old_name,
        description: old_description,
        role: old_role,
        system_instructions: old_system_instructions,
        provider: old_provider,
        model: old_model,
        model_settings: old_model_settings,
        enabled_tools: old_enabled_tools,
        mcp_config: old_mcp_config,
        permission_policy: old_permission_policy,
        max_turns: old_max_turns,
        delegation_policy: old_delegation_policy,
        approval_policy: old_approval_policy,
        status: old_status,
        created_at: old_created_at,
        updated_at: _,
    } = agent;
    let description = match description {
        Some(d) => normalize_optional_text(d),
        None => old_description,
    };
    Ok(
        AgentDefinition {
            id: old_id,
            project_id: old_project_id,
            name: or_keep(name, old_name),
            description,
            role: or_keep(role, old_role),
            system_instructions: or_keep(system_instructions, old_system_instructions),
            provider: or_keep(provider, old_provider),
            model: or_keep(model, old_model),
            model_settings: or_keep(model_settings, old_model_settings),
            enabled_tools: or_keep(enabled_tools, old_enabled_tools),
            mcp_config: or_keep(mcp_config, old_mcp_config),
            permission_policy: or_keep(permission_policy, old_permission_policy),
            max_turns: or_keep(max_turns, old_max_turns),
            delegation_policy: or_keep(delegation_policy, old_delegation_policy),
            approval_policy: or_keep(approval_policy, old_approval_policy),
            status: or_keep(status, old_status),
            created_at: old_created_at,
            updated_at: now,
        },
    )
}

/// Applies a change to the agent definition as it was looked up; the
/// change time is a reading of the clock taken during the call. Fails as [`apply_agent_update_at`] does.
pub fn apply_agent_update(current: Option<AgentDefinition>, id: &str, input: UpdateAgentInput) -> (r:
    Result<AgentDefinition, PlatformError>)
    ensures
        current is None ==> (r matches Err(PlatformError::AgentNotFound(m)) && m@ == id@),
        current matches Some(old) ==> match agent_fields_problem(
            opt_text(input.name),
            opt_text(input.role),
            opt_text(input.provider),
            opt_text(input.model),
        ) {
            Some(reason) => r matches Err(PlatformError::InvalidAgent(m)) && m@ == reason,
            None => r matches Ok(a) && (exists|now: Seq<char>|
                is_normal_utc_text(now) && is_agent_update(old, input, now, a))
                && a.updated_at.is_clock_reading(),
        },
{
    let now = Timestamp::now();
    apply_agent_update_at(current, id, input, now)
}

/// The request that archives an agent definition and changes nothing else.
pub fn agent_archive_request() -> (u: UpdateAgentInput)
    ensures
        u.status == Some(AgentStatus::Archived),
        changes_only_status(u),
{
    UpdateAgentInput { status: Some(AgentStatus::Archived), ..UpdateAgentInput::default() }
}

/// Interprets the number of rows that an update of a stored agent
/// definition touched: none means the definition is gone.
pub fn agent_write_outcome(rows_affected: u64, id: &str) -> (r: Result<(), PlatformError>)
    ensures
        rows_affected == 0 ==> (r matches Err(PlatformError::AgentNotFound(m)) && m@ == id@),
        rows_affected != 0 ==> r is Ok,
{
    if rows_affected == 0 {
        Err(PlatformError::AgentNotFound(String::from_str(id)))
    } else {
        Ok(())
    }
}

/// An agent definition never leaves its project: no change alters the
/// project it belongs to, its identity or its creation time.
pub proof fn lemma_agent_update_keeps_project(
    old: AgentDefinition,
    input: UpdateAgentInput,
    now: Seq<char>,
    new: AgentDefinition,
)
    requires
        is_agent_update(old, input, now, new),
    ensures
        new.project_id == old.project_id,
        new.id == old.id,
        new.created_at == old.created_at,
{
}

/// A new agent definition belongs to the project it was requested for and
/// is active.
pub proof fn lemma_new_agent_in_requested_project(a: AgentDefinition, input: CreateAgentInput)
    requires
        is_agent_created_from(a, input),
    ensures
        a.project_id == input.project_id,
        a.status == AgentStatus::Active,
{
}

/// A change that asks for nothing alters only the change time.
pub proof fn lemma_empty_agent_update_changes_only_time(
    old: AgentDefinition,
    input: UpdateAgentInput,
    now: Seq<char>,
    new: AgentDefinition,
)
    requires
        is_empty_agent_update(input),
        is_agent_update(old, input, now, new),
    ensures
        agent_fields_problem(
            opt_text(input.name),
            opt_text(input.role),
            opt_text(input.provider),
            opt_text(input.model),
        ) is None,
        same_agent_apart_from(old, new, false),
        new.updated_at@ == now,
{
}

/// Archiving changes only the status and the change time.
pub proof fn lemma_archiving_agent_changes_only_status(
    old: AgentDefinition,
    input: UpdateAgentInput,
    now: Seq<char>,
    new: AgentDefinition,
)
    requires
        input.status == Some(AgentStatus::Archived),
        changes_only_status(input),
        is_agent_update(old, input, now, new),
    ensures
        new.status == AgentStatus::Archived,
        same_agent_apart_from(old, new, true),
{
}


/// A new agent definition that was accepted has a name, role, provider and
/// model that are neither blank nor padded with whitespace.
pub proof fn lemma_new_agent_fields_not_blank(a: AgentDefinition, input: CreateAgentInput)
    requires
        agent_fields_problem(
            Some(input.name@),
            Some(input.role@),
            Some(input.provider@),
            Some(input.model@),
        ) is None,
        is_agent_created_from(a, input),
    ensures
        !is_blank(a.name@) && trim(a.name@) == a.name@,
        !is_blank(a.role@) && trim(a.role@) == a.role@,
        !is_blank(a.provider@) && trim(a.provider@) == a.provider@,
        !is_blank(a.model@) && trim(a.model@) == a.model@,
{
    lemma_trim_idempotent(input.name@);
    lemma_trim_idempotent(input.role@);
    lemma_trim_idempotent(input.provider@);
    lemma_trim_idempotent(input.model@);
}

/// A change that was accepted never leaves a blank name, role, provider or
/// model on a definition that had none.
pub proof fn lemma_agent_update_keeps_fields_not_blank(
    old: AgentDefinition,
    input: UpdateAgentInput,
    now: Seq<char>,
    new: AgentDefinition,
)
    requires
        !is_blank(old.name@) && !is_blank(old.role@) && !is_blank(old.provider@) && !is_blank(
            old.model@,
        ),
        agent_fields_problem(
            opt_text(input.name),
            opt_text(input.role),
            opt_text(input.provider),
            opt_text(input.model),
        ) is None,
        is_agent_update(old, input, now, new),
    ensures
        !is_blank(new.name@),
        !is_blank(new.role@),
        !is_blank(new.provider@),
        !is_blank(new.model@),
{
    if let Some(x) = input.name {
        lemma_trim_idempotent(x@);
    }
    if let Some(x) = input.role {
        lemma_trim_idempotent(x@);
    }
    if let Some(x) = input.provider {
        lemma_trim_idempotent(x@);
    }
    if let Some(x) = input.model {
        lemma_trim_idempotent(x@);
    }
}

} // verus!
