//! Backend logic of a desktop issue-drafting tool: sandboxed script execution
//! (request validation, scratch-file naming, launch planning, result building
//! and the per-request session state machine), plus the pure parts of the
//! issue-tracker and text-analysis clients.
pub mod ai;
pub mod artifact;
pub mod jira;
pub mod json;
pub mod launch;
pub mod logs;
pub mod outcome;
pub mod request;
pub mod session;
pub mod text;
