//! Session lifecycle engine for a multi-terminal desktop tool: id allocation,
//! the session registry, the termination protocol and the decisions of the
//! output pipeline, each with a verified contract.

pub mod error;
pub mod geometry;
pub mod git;
pub mod git_parse;
pub mod manager;
pub mod pipeline;
pub mod session_manager;
pub mod spawn;
pub mod termination;
pub mod text;
pub mod worktree;
