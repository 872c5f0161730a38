use vstd::prelude::*;

pub mod agent;
pub mod agent_laws;
pub mod agent_lifecycle;
pub mod args;
pub mod args_laws;
pub mod calendar;
pub mod debug_laws;
pub mod display_laws;
pub mod executor_laws;
pub mod file_laws;
pub mod file_ops;
pub mod file_requests;
pub mod git;
pub mod git_laws;
pub mod history;
pub mod history_laws;
pub mod json;
pub mod json_laws;
pub mod lifecycle_laws;
pub mod live;
pub mod live_laws;
pub mod mcp;
pub mod mcp_laws;
pub mod messages;
pub mod output;
pub mod permission_laws;
pub mod permissions;
pub mod progress;
pub mod progress_laws;
pub mod prompt;
pub mod prompt_laws;
pub mod provider;
pub mod provider_laws;
pub mod repl;
pub mod repl_laws;
pub mod report_laws;
pub mod reports;
pub mod resume;
pub mod resume_laws;
pub mod session_laws;
pub mod sessions;
pub mod slash;
pub mod slash_laws;
pub mod stream;
pub mod stream_debug;
pub mod stream_laws;
pub mod text;
pub mod text_laws;
pub mod tool_display;
pub mod tool_executor;
pub mod tool_inputs;
pub mod turn_laws;
pub mod turn_report;
pub mod web_laws;
pub mod web_ops;

verus! {

} // verus!
