//! Verified decision logic of the Kodex agent runtime: access-token classification,
//! service identity checks, Windows sandbox selection, API error mapping, context
//! merging, tool trust decisions, environment selection and assorted request rules.

pub mod access_token;
pub mod text;
pub mod json;
pub mod headers;
pub mod rate_limits;
pub mod config_value;
pub mod error;
pub mod api_bridge;
pub mod windows_sandbox;
pub mod additional_context;
pub mod trusted_tools;
pub mod service_identity;
pub mod event_stream_auth;
pub mod session_errors;
pub mod agent_control;
pub mod memories;
pub mod history_notes;
pub mod workspace_roots;
pub mod sandbox_selection;
pub mod test_support;
pub mod shell_snapshot;
pub mod message_board;
pub mod collaboration;
pub mod runtime_paths;
pub mod cloud_config;
