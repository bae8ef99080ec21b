//! Turning a local directory into a GitHub-hosted repository, and the everyday
//! actions around it (push, branches, issues, pull requests, scaffold files),
//! as verified orchestration logic.
//!
//! Each orchestrator is a state machine: a step function from the current
//! state and the event that answers the last action to the next state, and a
//! function giving the action to perform in a state. A thin unverified shell
//! performs the actions (running the version-control binary, HTTP calls,
//! prompts, file reads and writes) and feeds the outcomes back in as events.
//! The sequencing itself, which failures abort a run and which are merely
//! reported, and every piece of text handed to the outside (command
//! arguments, request bodies, scaffold file contents) are verified here.

pub mod api;
pub mod branch;
pub mod command;
pub mod data;
pub mod effects;
pub mod gitignore;
pub mod identity;
pub mod init;
pub mod issue;
pub mod json;
pub mod pr;
pub mod resolve;
pub mod scaffold;
pub mod sync;
pub mod text;
pub mod trace;
