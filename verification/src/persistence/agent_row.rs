//! The stored form of an agent definition.

use crate::agent_definition::model::{
    agent_status_named, agent_status_text, is_default_approval_policy,
    is_default_delegation_policy, is_default_model_settings, is_default_permission_policy,
    lemma_agent_status_text_round_trip, AgentDefinition, AgentStatus, ApprovalPolicy,
    DelegationPolicy, McpServerReference, ModelSettings, PermissionPolicyConfig,
};
use crate::persistence::project_row::copy_optional_text;
use crate::time::{is_normal_utc_text, utc_rfc3339_of, Timestamp};
use vstd::prelude::*;

verus! {

/// The columns of a stored agent definition, except the six structured
/// ones (model settings, tools, tool servers and the three policies),
/// which are stored as JSON text by the caller.
#[derive(Debug)]
pub struct AgentRow {
    pub id: String,
    pub project_id: String,
    pub name: String,
    pub description: Option<String>,
    pub role: String,
    pub system_instructions: String,
    pub provider: String,
    pub model: String,
    pub max_turns: Option<i64>,
    pub status: String,
    pub created_at: String,
    pub updated_at: String,
}

/// The turn limit as it is stored: a 64-bit integer.
pub open spec fn stored_max_turns(m: Option<u32>) -> Option<i64> {
    match m {
        Some(n) => Some(n as i64),
        None => None,
    }
}

/// The turn limit as it is read: the stored integer cut to its low 32 bits.
pub open spec fn read_max_turns(m: Option<i64>) -> Option<u32> {
    match m {
        Some(n) => Some(n as u32),
        None => None,
    }
}

/// The stored form of a turn limit.
pub fn max_turns_to_column(m: Option<u32>) -> (r: Option<i64>)
    ensures
        r == stored_max_turns(m),
{
    match m {
        Some(n) => Some(n as i64),
        None => None,
    }
}

/// The turn limit read from its stored form.
pub fn max_turns_from_column(m: Option<i64>) -> (r: Option<u32>)
    ensures
        r == read_max_turns(m),
{
    match m {
        Some(n) => Some(n as u32),
        None => None,
    }
}

/// `row` holds the fields of `a` as they are stored.
pub open spec fn is_agent_row_of(row: AgentRow, a: AgentDefinition) -> bool {
    &&& row.id == a.id
    &&& row.project_id == a.project_id
    &&& row.name == a.name
    &&& row.description == a.description
    &&& row.role == a.role
    &&& row.system_instructions == a.system_instructions
    &&& row.provider == a.provider
    &&& row.model == a.model
    &&& row.max_turns == stored_max_turns(a.max_turns)
    &&& row.status@ == agent_status_text(a.status)
    &&& row.created_at@ == a.created_at@
    &&& row.updated_at@ == a.updated_at@
}

/// The row in which an agent definition is stored.
pub fn agent_to_row(a: &AgentDefinition) -> (row: AgentRow)
    ensures
        is_agent_row_of(row, *a),
{
    AgentRow {
        id: a.id.clone(),
        project_id: a.project_id.clone(),
        name: a.name.clone(),
        description: copy_optional_text(&a.description),
        role: a.role.clone(),
        system_instructions: a.system_instructions.clone(),
        provider: a.provider.clone(),
        model: a.model.clone(),
        max_turns: max_turns_to_column(a.max_turns),
        status: a.status.to_string(),
        created_at: a.created_at.to_rfc3339(),
        updated_at: a.updated_at.to_rfc3339(),
    }
}

/// The structured parts of an agent definition as they were read from
/// their JSON text; each is `None` when its text could not be read.
pub struct AgentRowParts {
    pub model_settings: Option<ModelSettings>,
    pub enabled_tools: Option<Vec<String>>,
    pub mcp_config: Option<Vec<McpServerReference>>,
    pub permission_policy: Option<PermissionPolicyConfig>,
    pub delegation_policy: Option<DelegationPolicy>,
    pub approval_policy: Option<ApprovalPolicy>,
}

/// `a` is the agent definition read, at the time `now`, from `row` and
/// `parts`. An unknown status reads as active, each unreadable structured
/// part as its default, the turn limit as its low 32 bits, and an unreadable
/// creation or change time as `now`.
pub open spec fn is_agent_read_at(
    a: AgentDefinition,
    row: AgentRow,
    parts: AgentRowParts,
    now: Seq<char>,
) -> bool {
    &&& a.id == row.id
    &&& a.project_id == row.project_id
    &&& a.name == row.name
    &&& a.description == row.description
    &&& a.role == row.role
    &&& a.system_instructions == row.system_instructions
    &&& a.provider == row.provider
    &&& a.model == row.model
    &&& a.max_turns == read_max_turns(row.max_turns)
    &&& a.status == match agent_status_named(row.status@) {
        Some(s) => s,
        None => AgentStatus::Active,
    }
    &&& match parts.model_settings {
        Some(s) => a.model_settings == s,
        None => is_default_model_settings(a.model_settings),
    }
    &&& match parts.enabled_tools {
        Some(t) => a.enabled_tools == t,
        None => a.enabled_tools@.len() == 0,
    }
    &&& match parts.mcp_config {
        Some(c) => a.mcp_config == c,
        None => a.mcp_config@.len() == 0,
    }
    &&& match parts.permission_policy {
        Some(p) => a.permission_policy == p,
        None => is_default_permission_policy(a.permission_policy),
    }
    &&& match parts.delegation_policy {
        Some(p) => a.delegation_policy == p,
        None => is_default_delegation_policy(a.delegation_policy),
    }
    &&& match parts.approval_policy {
        Some(p) => a.approval_policy == p,
        None => is_default_approval_policy(a.approval_policy),
    }
    &&& a.created_at@ == match utc_rfc3339_of(row.created_at@) {
        Some(t) => t,
        None => now,
    }
    &&& a.updated_at@ == match utc_rfc3339_of(row.updated_at@) {
        Some(t) => t,
        None => now,
    }
}

/// `a` is the agent definition read from `row` and `parts` at some current
/// time, written in normal UTC form.
pub open spec fn is_agent_read_from(a: AgentDefinition, row: AgentRow, parts: AgentRowParts) -> bool {
    exists|now: Seq<char>| is_normal_utc_text(now) && is_agent_read_at(a, row, parts, now)
}

/// Reads an agent definition back from its row and its structured parts;
/// an unreadable creation or change time is replaced by the current time.
pub fn agent_from_row(row: AgentRow, parts: AgentRowParts) -> (a: AgentDefinition)
    ensures
        is_agent_read_from(a, row, parts),
        utc_rfc3339_of(row.created_at@) is None <==> a.created_at.is_clock_reading(),
        utc_rfc3339_of(row.updated_at@) is None <==> a.updated_at.is_clock_reading(),
{
    let now = Timestamp::now();
    let ghost n = now@;
    let a = agent_from_row_at(row, parts, now);
    assert(is_normal_utc_text(n) && is_agent_read_at(a, row, parts, n));
    a
}

/// Reads an agent definition back from its row and its structured parts,
/// at the time `now`.
pub fn agent_from_row_at(row: AgentRow, parts: AgentRowParts, now: Timestamp) -> (a: AgentDefinition)
    ensures
        is_agent_read_at(a, row, parts, now@),
        utc_rfc3339_of(row.created_at@) is None ==> a.created_at == now,
        utc_rfc3339_of(row.updated_at@) is None ==> a.updated_at == now,
        utc_rfc3339_of(row.created_at@) is Some ==> !a.created_at.is_clock_reading(),
        utc_rfc3339_of(row.updated_at@) is Some ==> !a.updated_at.is_clock_reading(),
{
    let status = match AgentStatus::from_str(row.status.as_str()) {
        Ok(s) => s,
        Err(_) => AgentStatus::Active,
    };
    let created_at = Timestamp::parse_or(row.created_at.as_str(), now.clone());
    let updated_at = Timestamp::parse_or(row.updated_at.as_str(), now);
    let AgentRowParts {
        model_settings,
        enabled_tools,
        mcp_config,
        permission_policy,
        delegation_policy,
        approval_policy,
    } = parts;
    let model_settings = match model_settings {
        Some(s) => s,
        None => ModelSettings::default(),
    };
    let enabled_tools = match enabled_tools {
        Some(t) => t,
        None => Vec::new(),
    };
    let mcp_config = match mcp_config {
        Some(c) => c,
        None => Vec::new(),
    };
    let permission_policy = match permission_policy {
        Some(p) => p,
        None => PermissionPolicyConfig::default(),
    };
    let delegation_policy = match delegation_policy {
        Some(p) => p,
        None => DelegationPolicy::default(),
    };
    let approval_policy = match approval_policy {
        Some(p) => p,
        None => ApprovalPolicy::default(),
    };
    AgentDefinition {
        id: row.id,
        project_id: row.project_id,
        name: row.name,
        description: row.description,
        role: row.role,
        system_instructions: row.system_instructions,
        provider: row.provider,
        model: row.model,
        model_settings,
        enabled_tools,
        mcp_config,
        permission_policy,
        max_turns: max_turns_from_column(row.max_turns),
        delegation_policy,
        approval_policy,
        status,
        created_at,
        updated_at,
    }
}

/// A turn limit reads back as it was stored.
pub proof fn lemma_max_turns_round_trip(m: Option<u32>)
    ensures
        read_max_turns(stored_max_turns(m)) == m,
{
    match m {
        Some(n) => {
            let w = n as i64;
            assert(w as u32 == n) by (bit_vector)
                requires
                    w == n as i64,
            ;
        },
        None => {},
    }
}

/// Writing an agent definition into its row and reading it back, with its
/// structured parts read back as they were, gives the same definition:
/// identity, project, texts, turn limit, status and structured parts
/// always, and each point in time whenever its text is already in the
/// normal form in which it is read.
pub proof fn lemma_agent_row_round_trip(
    a: AgentDefinition,
    row: AgentRow,
    parts: AgentRowParts,
    now: Seq<char>,
    b: AgentDefinition,
)
    requires
        is_agent_row_of(row, a),
        parts.model_settings == Some(a.model_settings),
        parts.enabled_tools == Some(a.enabled_tools),
        parts.mcp_config == Some(a.mcp_config),
        parts.permission_policy == Some(a.permission_policy),
        parts.delegation_policy == Some(a.delegation_policy),
        parts.approval_policy == Some(a.approval_policy),
        is_agent_read_at(b, row, parts, now),
    ensures
        b.id == a.id,
        b.project_id == a.project_id,
        b.name == a.name,
        b.description == a.description,
        b.role == a.role,
        b.system_instructions == a.system_instructions,
        b.provider == a.provider,
        b.model == a.model,
        b.max_turns == a.max_turns,
        b.status == a.status,
        b.model_settings == a.model_settings,
        b.enabled_tools == a.enabled_tools,
        b.mcp_config == a.mcp_config,
        b.permission_policy == a.permission_policy,
        b.delegation_policy == a.delegation_policy,
        b.approval_policy == a.approval_policy,
        utc_rfc3339_of(a.created_at@) == Some(a.created_at@) ==> b.created_at@ == a.created_at@,
        utc_rfc3339_of(a.updated_at@) == Some(a.updated_at@) ==> b.updated_at@ == a.updated_at@,
{
    lemma_agent_status_text_round_trip(a.status);
    lemma_max_turns_round_trip(a.max_turns);
}

} // verus!
