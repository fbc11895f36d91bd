//! Planning, parsing and decision logic for a git worktree and workspace
//! manager, kept free of input and output: every operation is a function from
//! the answers received so far to the next request or to its result.

pub mod agents;
pub mod approvals;
pub mod branch_ops;
pub mod branches;
pub mod conflict_ops;
pub mod diff;
pub mod diff_ops;
pub mod effects;
pub mod errors;
pub mod file_stats;
pub mod git_cli;
pub mod git_service;
pub mod locks;
pub mod merge_ops;
pub mod messages;
pub mod model;
pub mod names;
pub mod paths;
pub mod porcelain;
pub mod protocol;
pub mod remote_ops;
pub mod text;
pub mod types;
pub mod workspace;
pub mod workspace_types;
pub mod worktree;
pub mod worktree_life;
pub mod worktree_ops;
