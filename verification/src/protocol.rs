//! The control protocol between an agent process and its supervisor: modes,
//! requests, responses, and the clients that decide on tool use by rule.

use vstd::prelude::*;
use crate::approvals::{matches_any, matches_rule};
use crate::model::Model;
use crate::workspace::new_uuid_text;

verus! {

/// How an agent is allowed to act.
#[derive(Clone, Copy, PartialEq, Eq, Structural, Debug)]
pub enum PermissionMode {
    Allow,
    Deny,
    Auto,
}

impl Default for PermissionMode {
    fn default() -> (r: Self)
        ensures
            r == PermissionMode::Auto,
    {
        PermissionMode::Auto
    }
}

impl PermissionMode {
    /// The name of the mode.
    pub open spec fn name(self) -> Seq<char> {
        match self {
            PermissionMode::Allow => "allow"@,
            PermissionMode::Deny => "deny"@,
            PermissionMode::Auto => "auto"@,
        }
    }

    /// The name of the mode.
    pub fn as_str(&self) -> (r: &'static str)
        ensures
            r@ == self.name(),
    {
        match self {
            PermissionMode::Allow => "allow",
            PermissionMode::Deny => "deny",
            PermissionMode::Auto => "auto",
        }
    }
}

/// What an agent asks of its supervisor. Inputs are JSON texts.
#[derive(Clone, Debug, PartialEq, Eq)]
pub enum ControlRequestType {
    CanUseTool { tool_name: String, tool_input: String, tool_use_id: String },
    HookCallback { hook_name: String, hook_input: String },
    PermissionModeChange { requested_mode: PermissionMode },
    WaitingForApproval { tool_name: String, tool_use_id: String },
}

/// A request of an agent, with the identifier it is answered by.
#[derive(Clone, Debug, PartialEq, Eq)]
pub struct SDKControlRequest {
    pub request_id: String,
    pub request_type: ControlRequestType,
}

impl SDKControlRequest {
    /// The request with a fresh identifier of 36 characters.
    pub fn new(request_type: ControlRequestType) -> (r: Self)
        ensures
            r.request_type == request_type,
            r.request_id@.len() == 36,
    {
        SDKControlRequest { request_id: new_uuid_text(), request_type }
    }
}

/// The answer of the supervisor to a request.
#[derive(Clone, Debug, PartialEq, Eq)]
pub enum ControlResponseType {
    Allow { request_id: Option<String> },
    Deny { request_id: Option<String>, reason: Option<String> },
    Pending { request_id: String },
    Ack { request_id: Option<String> },
}

pub enum ControlResponseTypeModel {
    Allow { request_id: Option<Seq<char>> },
    Deny { request_id: Option<Seq<char>>, reason: Option<Seq<char>> },
    Pending { request_id: Seq<char> },
    Ack { request_id: Option<Seq<char>> },
}

impl Model for ControlResponseType {
    type M = ControlResponseTypeModel;

    open spec fn model(&self) -> ControlResponseTypeModel {
        match self {
            ControlResponseType::Allow { request_id } => ControlResponseTypeModel::Allow {
                request_id: request_id.model(),
            },
            ControlResponseType::Deny { request_id, reason } => ControlResponseTypeModel::Deny {
                request_id: request_id.model(),
                reason: reason.model(),
            },
            ControlResponseType::Pending { request_id } => ControlResponseTypeModel::Pending {
                request_id: request_id@,
            },
            ControlResponseType::Ack { request_id } => ControlResponseTypeModel::Ack {
                request_id: request_id.model(),
            },
        }
    }
}

/// A message of the supervisor to an agent.
#[derive(Clone, Debug, PartialEq, Eq)]
pub enum CLIMessage {
    ControlResponse { request_id: String, response: ControlResponseType },
    PermissionModeChanged { mode: PermissionMode },
    Interrupt { reason: Option<String> },
    Heartbeat { timestamp: i64 },
    Initialize {
        session_id: String,
        permission_mode: PermissionMode,
        allowed_tools: Option<Vec<String>>,
        denied_tools: Option<Vec<String>>,
    },
    CanUseToolQuery { tool_name: String },
}

/// A rule for one tool.
#[derive(Clone, Debug, PartialEq, Eq)]
pub struct ToolPermission {
    pub tool_name: String,
    pub allowed: bool,
    pub description: Option<String>,
}

/// The permissions of an agent.
#[derive(Clone, Debug, PartialEq, Eq)]
pub struct AgentPermissions {
    pub enable_file_read: bool,
    pub enable_file_write: bool,
    pub enable_network: bool,
    pub tools: Vec<String>,
    pub denied_tools: Vec<String>,
    pub tool_permissions: Vec<ToolPermission>,
}

impl Default for AgentPermissions {
    fn default() -> (r: Self)
        ensures
            r.enable_file_read,
            r.enable_file_write,
            r.enable_network,
            r.tools@.len() == 0,
            r.denied_tools@.len() == 0,
            r.tool_permissions@.len() == 0,
    {
        AgentPermissions {
            enable_file_read: true,
            enable_file_write: true,
            enable_network: true,
            tools: Vec::new(),
            denied_tools: Vec::new(),
            tool_permissions: Vec::new(),
        }
    }
}

/// What became of a request for approval.
#[derive(Clone, Copy, PartialEq, Eq, Structural, Debug)]
pub enum ApprovalStatus {
    Approved,
    Denied,
    Pending,
    Timeout,
}

impl ApprovalStatus {
    /// The response that tells the agent of this status.
    pub open spec fn response(self, request_id: Seq<char>) -> ControlResponseTypeModel {
        match self {
            ApprovalStatus::Approved => ControlResponseTypeModel::Allow {
                request_id: Some(request_id),
            },
            ApprovalStatus::Denied => ControlResponseTypeModel::Deny {
                request_id: Some(request_id),
                reason: Some("Denied by approval policy"@),
            },
            ApprovalStatus::Pending => ControlResponseTypeModel::Pending { request_id },
            ApprovalStatus::Timeout => ControlResponseTypeModel::Deny {
                request_id: Some(request_id),
                reason: Some("Approval timeout"@),
            },
        }
    }

    /// The response that tells the agent of this status.
    pub fn to_response_type(&self, request_id: &str) -> (r: ControlResponseType)
        ensures
            r.model() == self.response(request_id@),
    {
        match self {
            ApprovalStatus::Approved => ControlResponseType::Allow {
                request_id: Some(request_id.to_owned()),
            },
            ApprovalStatus::Denied => ControlResponseType::Deny {
                request_id: Some(request_id.to_owned()),
                reason: Some("Denied by approval policy".to_owned()),
            },
            ApprovalStatus::Pending => ControlResponseType::Pending {
                request_id: request_id.to_owned(),
            },
            ApprovalStatus::Timeout => ControlResponseType::Deny {
                request_id: Some(request_id.to_owned()),
                reason: Some("Approval timeout".to_owned()),
            },
        }
    }
}

/// The client that denies every request.
#[derive(Clone, Copy, Debug)]
pub struct DenyAllApprovalClient;

impl DenyAllApprovalClient {
    pub fn request_tool_approval(&self, request: &SDKControlRequest) -> (r: ApprovalStatus)
        ensures
            r == ApprovalStatus::Denied,
    {
        ApprovalStatus::Denied
    }
}

/// The client that approves every request.
#[derive(Clone, Copy, Debug)]
pub struct AllowAllApprovalClient;

impl AllowAllApprovalClient {
    pub fn request_tool_approval(&self, request: &SDKControlRequest) -> (r: ApprovalStatus)
        ensures
            r == ApprovalStatus::Approved,
    {
        ApprovalStatus::Approved
    }
}

/// The client that decides by two lists of tool names.
#[derive(Clone, Debug, PartialEq, Eq)]
pub struct RuleBasedApprovalClient {
    auto_approve_tools: Vec<String>,
    deny_tools: Vec<String>,
}

/// What the rules say of a request: a request to use a tool is approved
/// where the tool begins with an approved name and with no denied one;
/// everything else is denied.
pub open spec fn rule_decision(
    approve: Seq<Seq<char>>,
    deny: Seq<Seq<char>>,
    request: ControlRequestType,
) -> ApprovalStatus {
    match request {
        ControlRequestType::CanUseTool { tool_name, tool_input, tool_use_id } => if !matches_any(
            deny,
            tool_name@,
        ) && matches_any(approve, tool_name@) {
            ApprovalStatus::Approved
        } else {
            ApprovalStatus::Denied
        },
        _ => ApprovalStatus::Denied,
    }
}

impl RuleBasedApprovalClient {
    /// The names that are approved.
    pub closed spec fn approved(&self) -> Seq<Seq<char>> {
        self.auto_approve_tools.model()
    }

    /// The names that are denied.
    pub closed spec fn denied(&self) -> Seq<Seq<char>> {
        self.deny_tools.model()
    }

    pub fn new(auto_approve_tools: Vec<String>, deny_tools: Vec<String>) -> (r: Self)
        ensures
            r.approved() == auto_approve_tools.model(),
            r.denied() == deny_tools.model(),
    {
        RuleBasedApprovalClient { auto_approve_tools, deny_tools }
    }

    /// Decides on a request by the rules.
    pub fn request_tool_approval(&self, request: &SDKControlRequest) -> (r: ApprovalStatus)
        ensures
            r == rule_decision(self.approved(), self.denied(), request.request_type),
    {
        match &request.request_type {
            ControlRequestType::CanUseTool { tool_name, .. } => {
                if matches_rule(&self.deny_tools, tool_name.as_str()) {
                    return ApprovalStatus::Denied;
                }
                if matches_rule(&self.auto_approve_tools, tool_name.as_str()) {
                    return ApprovalStatus::Approved;
                }
                ApprovalStatus::Denied
            },
            _ => ApprovalStatus::Denied,
        }
    }
}

} // verus!
