//! The data of an agent definition and of the requests that create and change one.

use crate::text::{ascii_lower, lemma_ascii_lower_idempotent, text_eq, to_ascii_lowercase};
use crate::time::Timestamp;
use std::collections::HashMap;
use vstd::prelude::*;

verus! {

/// The life-cycle state of an agent definition.
#[derive(Debug, Clone, Copy, PartialEq, Eq, Structural)]
pub enum AgentStatus {
    Active,
    Archived,
    Disabled,
}

/// The text under which an agent status is shown and stored.
pub open spec fn agent_status_text(s: AgentStatus) -> Seq<char> {
    match s {
        AgentStatus::Active => "active"@,
        AgentStatus::Archived => "archived"@,
        AgentStatus::Disabled => "disabled"@,
    }
}

/// The status that a text names, compared without regard to ASCII case.
pub open spec fn agent_status_named(t: Seq<char>) -> Option<AgentStatus> {
    let l = ascii_lower(t);
    if l == "active"@ {
        Some(AgentStatus::Active)
    } else if l == "archived"@ {
        Some(AgentStatus::Archived)
    } else if l == "disabled"@ {
        Some(AgentStatus::Disabled)
    } else {
        None
    }
}

impl Default for AgentStatus {
    /// An agent starts out active.
    fn default() -> (r: Self)
        ensures
            r == AgentStatus::Active,
    {
        AgentStatus::Active
    }
}

impl AgentStatus {
    /// The text of the status: `active`, `archived` or `disabled`.
    pub fn to_string(&self) -> (r: String)
        ensures
            r@ == agent_status_text(*self),
    {
        match self {
            AgentStatus::Active => String::from_str("active"),
            AgentStatus::Archived => String::from_str("archived"),
            AgentStatus::Disabled => String::from_str("disabled"),
        }
    }

    /// Reads a status from its text in any ASCII case. An unknown text is
    /// refused with a message that quotes it in lower case.
    pub fn from_str(s: &str) -> (r: Result<AgentStatus, String>)
        ensures
            match agent_status_named(s@) {
                Some(st) => r == Ok::<AgentStatus, String>(st),
                None => r matches Err(m) && m@ == "Unknown agent status: "@ + ascii_lower(s@),
            },
    {
        let lower = to_ascii_lowercase(s);
        if text_eq(lower.as_str(), "active") {
            Ok(AgentStatus::Active)
        } else if text_eq(lower.as_str(), "archived") {
            Ok(AgentStatus::Archived)
        } else if text_eq(lower.as_str(), "disabled") {
            Ok(AgentStatus::Disabled)
        } else {
            let mut m = String::from_str("Unknown agent status: ");
            m.append(lower.as_str());
            Err(m)
        }
    }
}

/// Reading back the text of a status gives the same status.
pub proof fn lemma_agent_status_text_round_trip(s: AgentStatus)
    ensures
        agent_status_named(agent_status_text(s)) == Some(s),
{
    reveal_strlit("active");
    reveal_strlit("archived");
    reveal_strlit("disabled");
    assert(ascii_lower("active"@) =~= "active"@);
    assert(ascii_lower("archived"@) =~= "archived"@);
    assert(ascii_lower("disabled"@) =~= "disabled"@);
    assert("archived"@[0] != "disabled"@[0]);
}

/// Reading a status does not depend on ASCII case.
pub proof fn lemma_agent_status_ignores_case(t: Seq<char>)
    ensures
        agent_status_named(t) == agent_status_named(ascii_lower(t)),
        agent_status_named(t) matches Some(s) ==> agent_status_text(s) == ascii_lower(t),
{
    lemma_ascii_lower_idempotent(t);
}

/// Sampling settings of the model. The two real-valued settings are kept as
/// the bits of their IEEE 754 single-precision value.
#[derive(Debug)]
pub struct ModelSettings {
    pub temperature_bits: Option<u32>,
    pub top_p_bits: Option<u32>,
    pub max_tokens: Option<u32>,
    pub reasoning_effort: Option<String>,
}

/// Model settings with nothing set.
pub open spec fn is_default_model_settings(s: ModelSettings) -> bool {
    &&& s.temperature_bits is None
    &&& s.top_p_bits is None
    &&& s.max_tokens is None
    &&& s.reasoning_effort is None
}

impl Default for ModelSettings {
    fn default() -> (r: Self)
        ensures
            is_default_model_settings(r),
    {
        ModelSettings { temperature_bits: None, top_p_bits: None, max_tokens: None, reasoning_effort: None }
    }
}

/// A tool server that the agent may use, and which of its tools.
#[derive(Debug)]
pub struct McpServerReference {
    pub server_name: String,
    pub tools: Vec<String>,
}

impl Default for McpServerReference {
    fn default() -> (r: Self)
        ensures
            r.server_name@.len() == 0,
            r.tools@.len() == 0,
    {
        McpServerReference { server_name: String::new(), tools: Vec::new() }
    }
}

/// What the agent may do with tools: a default action and per-tool rules.
#[derive(Debug)]
pub struct PermissionPolicyConfig {
    pub default_action: String,
    pub tool_rules: HashMap<String, String>,
}

/// The permission policy of an agent for which none was given: ask first,
/// with no per-tool rules.
pub open spec fn is_default_permission_policy(p: PermissionPolicyConfig) -> bool {
    &&& p.default_action@ == "prompt"@
    &&& p.tool_rules@ == Map::<String, String>::empty()
}

impl Default for PermissionPolicyConfig {
    fn default() -> (r: Self)
        ensures
            is_default_permission_policy(r),
    {
        PermissionPolicyConfig { default_action: String::from_str("prompt"), tool_rules: HashMap::new() }
    }
}

/// Whether the agent may hand work to others, and to which roles.
#[derive(Debug)]
pub struct DelegationPolicy {
    pub can_delegate: bool,
    pub allowed_roles: Vec<String>,
}

/// No delegation.
pub open spec fn is_default_delegation_policy(p: DelegationPolicy) -> bool {
    !p.can_delegate && p.allowed_roles@.len() == 0
}

impl Default for DelegationPolicy {
    fn default() -> (r: Self)
        ensures
            is_default_delegation_policy(r),
    {
        DelegationPolicy { can_delegate: false, allowed_roles: Vec::new() }
    }
}

/// Which tool calls need a human's approval.
#[derive(Debug)]
pub struct ApprovalPolicy {
    pub require_approval_for_destructive_tools: bool,
    pub auto_approved_tools: Vec<String>,
}

/// No approval demanded and no tool approved in advance.
pub open spec fn is_default_approval_policy(p: ApprovalPolicy) -> bool {
    !p.require_approval_for_destructive_tools && p.auto_approved_tools@.len() == 0
}

impl Default for ApprovalPolicy {
    fn default() -> (r: Self)
        ensures
            is_default_approval_policy(r),
    {
        ApprovalPolicy { require_approval_for_destructive_tools: false, auto_approved_tools: Vec::new() }
    }
}

/// An agent definition as it is kept.
#[derive(Debug)]
pub struct AgentDefinition {
    pub id: String,
    pub project_id: String,
    pub name: String,
    pub description: Option<String>,
    pub role: String,
    pub system_instructions: String,
    pub provider: String,
    pub model: String,
    pub model_settings: ModelSettings,
    pub enabled_tools: Vec<String>,
    pub mcp_config: Vec<McpServerReference>,
    pub permission_policy: PermissionPolicyConfig,
    pub max_turns: Option<u32>,
    pub delegation_policy: DelegationPolicy,
    pub approval_policy: ApprovalPolicy,
    pub status: AgentStatus,
    pub created_at: Timestamp,
    pub updated_at: Timestamp,
}

/// A request to create an agent definition inside a project.
#[derive(Debug)]
pub struct CreateAgentInput {
    pub project_id: String,
    pub name: String,
    pub role: String,
    pub provider: String,
    pub model: String,
    pub description: Option<String>,
    pub system_instructions: Option<String>,
    pub model_settings: Option<ModelSettings>,
    pub enabled_tools: Option<Vec<String>>,
    pub mcp_config: Option<Vec<McpServerReference>>,
    pub permission_policy: Option<PermissionPolicyConfig>,
    pub max_turns: Option<u32>,
    pub delegation_policy: Option<DelegationPolicy>,
    pub approval_policy: Option<ApprovalPolicy>,
}

/// A request to change an agent definition; every field that is `None` is
/// left as it is. `description: Some(None)` removes the description and
/// `max_turns: Some(None)` removes the turn limit.
#[derive(Debug)]
pub struct UpdateAgentInput {
    pub name: Option<String>,
    pub description: Option<Option<String>>,
    pub role: Option<String>,
    pub system_instructions: Option<String>,
    pub provider: Option<String>,
    pub model: Option<String>,
    pub model_settings: Option<ModelSettings>,
    pub enabled_tools: Option<Vec<String>>,
    pub mcp_config: Option<Vec<McpServerReference>>,
    pub permission_policy: Option<PermissionPolicyConfig>,
    pub max_turns: Option<Option<u32>>,
    pub delegation_policy: Option<DelegationPolicy>,
    pub approval_policy: Option<ApprovalPolicy>,
    pub status: Option<AgentStatus>,
}

/// A request that changes nothing.
pub open spec fn is_empty_agent_update(u: UpdateAgentInput) -> bool {
    &&& u.name is None
    &&& u.description is None
    &&& u.role is None
    &&& u.system_instructions is None
    &&& u.provider is None
    &&& u.model is None
    &&& u.model_settings is None
    &&& u.enabled_tools is None
    &&& u.mcp_config is None
    &&& u.permission_policy is None
    &&& u.max_turns is None
    &&& u.delegation_policy is None
    &&& u.approval_policy is None
    &&& u.status is None
}

impl Default for UpdateAgentInput {
    fn default() -> (r: Self)
        ensures
            is_empty_agent_update(r),
    {
        UpdateAgentInput {
            name: None,
            description: None,
            role: None,
            system_instructions: None,
            provider: None,
            model: None,
            model_settings: None,
            enabled_tools: None,
            mcp_config: None,
            permission_policy: None,
            max_turns: None,
            delegation_policy: None,
            approval_policy: None,
            status: None,
        }
    }
}

} // verus!
