//! A personal terminal assistant's verified core: the security rules for commands,
//! tools and APIs in normal and strict mode, the activity log, command execution
//! planning, the tool registry, the API client's decisions, AI provider settings, the
//! full-screen terminal's state, and the command line's decisions.
use vstd::prelude::*;

pub mod ai_config;
pub mod api;
pub mod cli;
pub mod config;
pub mod executor;
pub mod mcp;
pub mod monitor;
pub mod pattern;
pub mod security;
pub mod text;
pub mod tui;

pub use cli::{parse_mode, parse_provider_type};
pub use config::AppConfig;
pub use executor::CommandExecutor;
pub use mcp::McpToolRegistry;
pub use monitor::ActivityMonitor;
pub use security::{ExecutionMode, SecurityManager};

verus! {

} // verus!
