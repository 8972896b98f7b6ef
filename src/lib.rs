//! Recovering filesystem instructions from free-form model output, and the
//! decisions of the loop that executes them.
use vstd::prelude::*;

pub mod agent;
pub mod config;
pub mod executor;
pub mod interp;
pub mod json;
pub mod laws;
pub mod markdown;
pub mod parser;
pub mod policy;
pub mod provider;
pub mod scan;
pub mod text;
pub mod tools;

pub use agent::{AgentLoop, Step, build_user_message, result_to_json, serialize_results, MAX_ROUNDS};
pub use config::{Config, needs_repo_context, provider_for_model};
pub use executor::{FsOutcome, FsRequest, is_within, plan_tool, report_tool, tool_path};
pub use interp::tool_response_from_value;
pub use json::JsonValue;
pub use markdown::extract_filename;
pub use parser::{interpret, parse_tool_response};
pub use policy::{contains_any, is_rust_path, should_block_tool_for_prompt};
pub use provider::{read_gemini_reply, read_groq_reply, read_ollama_reply, ReplyError};
pub use scan::extract_json_candidates;
pub use tools::{ToolCall, ToolResponse, ToolResult, is_supported_action};

verus! {

} // verus!
