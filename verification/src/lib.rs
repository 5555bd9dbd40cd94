//! Verified core of the OpenTalk GitLab tooling: merge request selection for
//! changelog entries, merge request references, discussion and todo handling.

pub mod args;
pub mod cliff;
pub mod config;
pub mod decimal;
pub mod discussion;
pub mod input;
pub mod merge_request;
pub mod project;
pub mod text;
pub mod todo;
pub mod user;
