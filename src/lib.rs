//! Developer-workflow library: issue keys, the active-issue pointer, request
//! composition for the issue tracker and the time tracker, and worklog time
//! arithmetic.
pub mod active_issue;
pub mod config;
pub mod error;
pub mod issue_key;
pub mod jira;
pub mod tempo;
pub mod time_of_day;
pub mod workflow;
