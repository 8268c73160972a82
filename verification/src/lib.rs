//! Bulk synchronisation of the git repositories of a hosting account.
//!
//! The library decides; its user acts. For an action and a catalog of
//! repositories, `dispatch` hands out one unit of work for each repository
//! that the namespace filter selects. A unit announces itself and, once its
//! user has looked whether the local copy is there, begins a chain of git
//! commands. The user runs the command that the chain hands out and reports
//! how it ended, until the chain has its outcome: success, or the first
//! failure. The outcomes of all units make the report.
//!
//! Units share nothing, so they can be worked off in any order or all at
//! once. A failure in one of them stays in its own outcome.
//!
//! The catalog itself is gathered from what a provider lists, page by page,
//! with each name kept once.

pub mod action;
pub mod actions;
pub mod catalog;
pub mod chain;
pub mod command;
pub mod config;
pub mod dispatch;
pub mod github_impl;
pub mod gitlab_impl;
pub mod plan;
pub mod repo;
pub mod report;
pub mod text;
