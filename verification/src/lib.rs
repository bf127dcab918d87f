//! Verified core logic of the Codewen command-line tools: access-token
//! classification, desktop-app launch decisions, request parameter
//! resolution, patch-approval elicitation and version parsing.

pub mod text;
pub mod dedup;
pub mod access_token;
pub mod urlencoded;
pub mod desktop_app;
pub mod desktop_launch;
pub mod environments;
pub mod patch_approval;
pub mod managed_install;
pub mod rollout_config;
pub mod metrics;
