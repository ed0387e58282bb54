//! The MCP server: what `tools/list` and `tools/call` answer.
//!
//! A call is a sequence of steps. The server says what outside work the next step
//! waits for (`ToolCall`), and takes in what came of it (`CallEvent`):
//!
//! 1. The message that carries the call is built from `arguments` (body) and the
//!    `_meta` entries that the tool declares (headers).
//! 2. For a component-backed tool the message is mapped to an invocation, the function
//!    is invoked, and its value is mapped to a reply message. For a channel-backed tool
//!    the message is published and the reply message awaited.
//! 3. The reply message becomes the result: its body the content, and the headers that
//!    the tool declares the `_meta` entries, also where the result is an error.

pub mod laws;
pub mod model;
pub mod rules;
mod call;
mod reply;
pub mod span;

pub use call::{admit_call, McpServer, McpServerView};
pub use model::{
    CallEvent, CallEventView, Headers, HeadersView, Message, MessageDraft, MessageDraftView, MessageView, ReplyStep,
    ReplyStepView, ResolvedTool, ResolvedToolTarget, ResolvedToolTargetView, ResolvedToolView, ToolCall, ToolCallView,
};
pub use reply::{
    apply_meta, build_mcp_result_from_message, build_message_from_mcp_call, conclude_mcp_result, draft_from_body,
    finish_mcp_result, propagated_headers, result_from_value, skipped_request_meta,
};
