//! Approval of tool use: modes, the permissions of an agent, and the
//! services that always allow or always deny.

use vstd::prelude::*;
use crate::model::Model;
use crate::protocol::ApprovalStatus;
use crate::text::{has_prefix, join2, same_text, starts_with, text_of, to_chars};

verus! {

/// A failure of an approval service.
#[derive(Debug, PartialEq, Eq)]
pub enum ExecutorApprovalError {
    ServiceUnavailable,
    RequestFailed(String),
    Timeout,
    AgentNotFound(String),
}

pub enum ExecutorApprovalErrorModel {
    ServiceUnavailable,
    RequestFailed(Seq<char>),
    Timeout,
    AgentNotFound(Seq<char>),
}

impl Model for ExecutorApprovalError {
    type M = ExecutorApprovalErrorModel;

    open spec fn model(&self) -> ExecutorApprovalErrorModel {
        match self {
            ExecutorApprovalError::ServiceUnavailable => ExecutorApprovalErrorModel::ServiceUnavailable,
            ExecutorApprovalError::RequestFailed(s) => ExecutorApprovalErrorModel::RequestFailed(s@),
            ExecutorApprovalError::Timeout => ExecutorApprovalErrorModel::Timeout,
            ExecutorApprovalError::AgentNotFound(s) => ExecutorApprovalErrorModel::AgentNotFound(s@),
        }
    }
}

impl ExecutorApprovalErrorModel {
    /// The text the error is reported by.
    pub open spec fn message(self) -> Seq<char> {
        match self {
            ExecutorApprovalErrorModel::ServiceUnavailable => "Approval service not available"@,
            ExecutorApprovalErrorModel::RequestFailed(s) => "Approval request failed: "@ + s,
            ExecutorApprovalErrorModel::Timeout => "Timeout waiting for approval"@,
            ExecutorApprovalErrorModel::AgentNotFound(s) => "Agent not found: "@ + s,
        }
    }
}

impl ExecutorApprovalError {
    /// The text the error is reported by.
    pub fn message(&self) -> (r: String)
        ensures
            r@ == self.model().message(),
    {
        match self {
            ExecutorApprovalError::ServiceUnavailable => "Approval service not available".to_owned(),
            ExecutorApprovalError::RequestFailed(s) => join2(
                "Approval request failed: ",
                s.as_str(),
            ),
            ExecutorApprovalError::Timeout => "Timeout waiting for approval".to_owned(),
            ExecutorApprovalError::AgentNotFound(s) => join2("Agent not found: ", s.as_str()),
        }
    }
}

/// How the tool use of an agent is approved.
#[derive(Clone, Copy, PartialEq, Eq, Structural, Debug)]
pub enum ApprovalMode {
    /// Everything is allowed without asking.
    Allow,
    /// Everything is denied.
    Deny,
    /// The rules decide.
    Auto,
    /// A person decides.
    Manual,
}

impl Default for ApprovalMode {
    fn default() -> (r: Self)
        ensures
            r == ApprovalMode::Auto,
    {
        ApprovalMode::Auto
    }
}

impl ApprovalMode {
    /// The name of the mode.
    pub open spec fn name(self) -> Seq<char> {
        match self {
            ApprovalMode::Allow => "allow"@,
            ApprovalMode::Deny => "deny"@,
            ApprovalMode::Auto => "auto"@,
            ApprovalMode::Manual => "manual"@,
        }
    }

    /// The name of the mode.
    pub fn as_str(&self) -> (r: &'static str)
        ensures
            r@ == self.name(),
    {
        match self {
            ApprovalMode::Allow => "allow",
            ApprovalMode::Deny => "deny",
            ApprovalMode::Auto => "auto",
            ApprovalMode::Manual => "manual",
        }
    }
}

/// What an agent may do, as its configuration says.
#[derive(Clone, Debug, PartialEq, Eq)]
pub struct AgentPermissionConfig {
    pub agent_id: String,
    pub enable_file_read: bool,
    pub enable_file_write: bool,
    pub enable_network: bool,
    /// The tools that are allowed; all of them where the list is empty.
    pub tools: Vec<String>,
    /// The tools that are denied, whatever is allowed.
    pub denied_tools: Vec<String>,
}

impl Default for AgentPermissionConfig {
    fn default() -> (r: Self)
        ensures
            r.agent_id@.len() == 0,
            r.enable_file_read,
            r.enable_file_write,
            r.enable_network,
            r.tools@.len() == 0,
            r.denied_tools@.len() == 0,
    {
        AgentPermissionConfig {
            agent_id: String::new(),
            enable_file_read: true,
            enable_file_write: true,
            enable_network: true,
            tools: Vec::new(),
            denied_tools: Vec::new(),
        }
    }
}

/// Whether `tool` begins with one of `rules`.
pub open spec fn matches_any(rules: Seq<Seq<char>>, tool: Seq<char>) -> bool {
    exists|i: int| 0 <= i < rules.len() && has_prefix(tool, #[trigger] rules[i])
}

/// Whether a tool is allowed: it begins with none of the denied names, and
/// the list of allowed names is empty or it begins with one of them.
pub open spec fn tool_allowed(tools: Seq<Seq<char>>, denied: Seq<Seq<char>>, tool: Seq<char>) -> bool {
    !matches_any(denied, tool) && (tools.len() == 0 || matches_any(tools, tool))
}

/// Whether `tool_name` begins with one of `rules`.
pub fn matches_rule(rules: &Vec<String>, tool_name: &str) -> (r: bool)
    ensures
        r == matches_any(rules.model(), tool_name@),
{
    let mut i: usize = 0;
    while i < rules.len()
        invariant
            i <= rules.len(),
            forall|k: int| 0 <= k < i ==> !has_prefix(tool_name@, #[trigger] rules.model()[k]),
        decreases rules.len() - i,
    {
        assert(rules.model()[i as int] == rules@[i as int]@);
        if starts_with(tool_name, rules[i].as_str()) {
            return true;
        }
        i += 1;
    }
    false
}

/// Whether the configuration allows the tool.
pub fn check_tool_allowed(config: &AgentPermissionConfig, tool_name: &str) -> (r: bool)
    ensures
        r == tool_allowed(config.tools.model(), config.denied_tools.model(), tool_name@),
{
    if matches_rule(&config.denied_tools, tool_name) {
        return false;
    }
    if config.tools.len() == 0 {
        return true;
    }
    matches_rule(&config.tools, tool_name)
}

/// The approval service that denies everything.
#[derive(Clone, Copy, Debug)]
pub struct DenyAllApprovalService;

impl DenyAllApprovalService {
    /// Denies the tool use.
    pub fn request_tool_approval(&self, agent_id: &str, tool_name: &str) -> (r: Result<
        ApprovalStatus,
        ExecutorApprovalError,
    >)
        ensures
            r matches Ok(ApprovalStatus::Denied),
    {
        Ok(ApprovalStatus::Denied)
    }

    pub fn is_tool_auto_approved(&self, agent_id: &str, tool_name: &str) -> (r: bool)
        ensures
            !r,
    {
        false
    }

    pub fn get_approval_mode(&self, agent_id: &str) -> (r: ApprovalMode)
        ensures
            r == ApprovalMode::Deny,
    {
        ApprovalMode::Deny
    }
}

/// The approval service that allows everything.
#[derive(Clone, Copy, Debug)]
pub struct AllowAllApprovalService;

impl AllowAllApprovalService {
    /// Approves the tool use.
    pub fn request_tool_approval(&self, agent_id: &str, tool_name: &str) -> (r: Result<
        ApprovalStatus,
        ExecutorApprovalError,
    >)
        ensures
            r matches Ok(ApprovalStatus::Approved),
    {
        Ok(ApprovalStatus::Approved)
    }

    pub fn is_tool_auto_approved(&self, agent_id: &str, tool_name: &str) -> (r: bool)
        ensures
            r,
    {
        true
    }

    pub fn get_approval_mode(&self, agent_id: &str) -> (r: ApprovalMode)
        ensures
            r == ApprovalMode::Allow,
    {
        ApprovalMode::Allow
    }
}

/// Whether `::` stands at place `j` of a tool name.
pub open spec fn scope_here(tool: Seq<char>, j: int) -> bool {
    0 <= j && j + 1 < tool.len() && tool[j] == ':' && tool[j + 1] == ':'
}

/// The place of the first `::` in a tool name, or its length where it has none.
pub open spec fn scope_at(tool: Seq<char>) -> int
    decreases tool.len(),
{
    if tool.len() < 2 {
        tool.len() as int
    } else if scope_here(tool, 0) {
        0
    } else {
        1 + scope_at(tool.drop_first())
    }
}

/// The category of a tool: what stands before the first `::` of its name,
/// or the whole name.
pub open spec fn tool_category(tool: Seq<char>) -> Seq<char> {
    tool.take(scope_at(tool))
}

/// Where the first `::` stands: at `k` where none stands before it and one
/// stands there; at the end where none stands anywhere.
pub proof fn lemma_scope_at(tool: Seq<char>, k: int)
    requires
        0 <= k <= tool.len(),
        forall|j: int| 0 <= j < k ==> !#[trigger] scope_here(tool, j),
        scope_here(tool, k) || k + 1 >= tool.len(),
    ensures
        scope_at(tool) == (if scope_here(tool, k) {
            k
        } else {
            tool.len() as int
        }),
    decreases tool.len(),
{
    if tool.len() >= 2 && !scope_here(tool, 0) {
        let rest = tool.drop_first();
        assert forall|j: int| 0 <= j < k - 1 implies !#[trigger] scope_here(rest, j) by {
            assert(!scope_here(tool, j + 1));
            if j + 1 < rest.len() {
                assert(rest[j] == tool[j + 1] && rest[j + 1] == tool[j + 2]);
            }
        }
        if k >= 1 {
            if scope_here(tool, k) {
                assert(rest[k - 1] == tool[k] && rest[k] == tool[k + 1]);
                assert(scope_here(rest, k - 1));
            } else {
                if k < rest.len() {
                    assert(rest[k - 1] == tool[k]);
                }
                assert(!scope_here(rest, k - 1));
            }
            lemma_scope_at(rest, k - 1);
        } else {
            assert(k == 0);
            assert(k + 1 >= tool.len());
        }
    }
}

/// The category of a tool.
pub fn category_of(tool_name: &str) -> (r: String)
    ensures
        r@ == tool_category(tool_name@),
{
    let v = to_chars(tool_name);
    let mut k: usize = 0;
    while k < v.len() && k + 1 < v.len() && !(v[k] == ':' && v[k + 1] == ':')
        invariant
            k <= v.len(),
            forall|j: int| 0 <= j < k ==> !#[trigger] scope_here(v@, j),
        decreases v.len() - k,
    {
        k += 1;
    }
    if k < v.len() && k + 1 < v.len() {
        proof {
            assert(scope_here(v@, k as int));
            lemma_scope_at(v@, k as int);
        }
        let r = crate::text::from_chars(&v, 0, k);
        assert(v@.subrange(0, k as int) =~= v@.take(k as int));
        r
    } else {
        proof {
            assert(!scope_here(v@, k as int));
            lemma_scope_at(v@, k as int);
            assert(v@.take(v@.len() as int) =~= v@);
        }
        text_of(&v)
    }
}

/// Whether the permissions of an agent cover a category of tools: reading
/// files, writing files, or reaching out.
pub open spec fn category_allowed(
    category: Seq<char>,
    enable_file_read: bool,
    enable_file_write: bool,
    enable_network: bool,
) -> bool {
    if category == "Read"@ || category == "Glob"@ || category == "Grep"@ || category
        == "SearchFiles"@ {
        enable_file_read
    } else if category == "Write"@ || category == "Edit"@ || category == "Create"@ || category
        == "Delete"@ {
        enable_file_write
    } else if category == "Bash"@ || category == "Tool"@ || category == "WebFetch"@ || category
        == "WebSearch"@ {
        enable_network
    } else {
        false
    }
}

/// What the rules say of a tool: approved where the configuration allows
/// the tool by name or its category by permission, else denied.
pub open spec fn auto_decision(
    tools: Seq<Seq<char>>,
    denied: Seq<Seq<char>>,
    enable_file_read: bool,
    enable_file_write: bool,
    enable_network: bool,
    tool: Seq<char>,
) -> ApprovalStatus {
    if tool_allowed(tools, denied, tool) || category_allowed(
        tool_category(tool),
        enable_file_read,
        enable_file_write,
        enable_network,
    ) {
        ApprovalStatus::Approved
    } else {
        ApprovalStatus::Denied
    }
}

fn is_one_of(word: &str, a: &str, b: &str, c: &str, d: &str) -> (r: bool)
    ensures
        r == (word@ == a@ || word@ == b@ || word@ == c@ || word@ == d@),
{
    same_text(word, a) || same_text(word, b) || same_text(word, c) || same_text(word, d)
}

/// What the rules say of a tool.
pub fn auto_approval(config: &AgentPermissionConfig, tool_name: &str) -> (r: ApprovalStatus)
    ensures
        r == auto_decision(
            config.tools.model(),
            config.denied_tools.model(),
            config.enable_file_read,
            config.enable_file_write,
            config.enable_network,
            tool_name@,
        ),
{
    if check_tool_allowed(config, tool_name) {
        return ApprovalStatus::Approved;
    }
    let category = category_of(tool_name);
    let c = category.as_str();
    let covered = if is_one_of(c, "Read", "Glob", "Grep", "SearchFiles") {
        config.enable_file_read
    } else if is_one_of(c, "Write", "Edit", "Create", "Delete") {
        config.enable_file_write
    } else if is_one_of(c, "Bash", "Tool", "WebFetch", "WebSearch") {
        config.enable_network
    } else {
        false
    };
    if covered {
        ApprovalStatus::Approved
    } else {
        ApprovalStatus::Denied
    }
}

/// The answer to a request for approval, given the mode of the agent and,
/// for the automatic mode, its configuration or why that could not be
/// loaded. In the manual mode the answer is pending: a person is asked.
pub fn decide_approval(
    mode: ApprovalMode,
    config: Result<AgentPermissionConfig, ExecutorApprovalError>,
    tool_name: &str,
) -> (r: Result<ApprovalStatus, ExecutorApprovalError>)
    ensures
        mode == ApprovalMode::Allow ==> r matches Ok(ApprovalStatus::Approved),
        mode == ApprovalMode::Deny ==> r matches Ok(ApprovalStatus::Denied),
        mode == ApprovalMode::Manual ==> r matches Ok(ApprovalStatus::Pending),
        mode == ApprovalMode::Auto ==> match config {
            Ok(c) => r == Ok::<ApprovalStatus, ExecutorApprovalError>(
                auto_decision(
                    c.tools.model(),
                    c.denied_tools.model(),
                    c.enable_file_read,
                    c.enable_file_write,
                    c.enable_network,
                    tool_name@,
                ),
            ),
            Err(e) => r == Err::<ApprovalStatus, ExecutorApprovalError>(e),
        },
{
    match mode {
        ApprovalMode::Allow => Ok(ApprovalStatus::Approved),
        ApprovalMode::Deny => Ok(ApprovalStatus::Denied),
        ApprovalMode::Auto => match config {
            Ok(c) => Ok(auto_approval(&c, tool_name)),
            Err(e) => Err(e),
        },
        ApprovalMode::Manual => Ok(ApprovalStatus::Pending),
    }
}

} // verus!
