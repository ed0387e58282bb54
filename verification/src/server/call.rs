//! The server's tools, and the steps of a call to one of them.

use vstd::prelude::*;

use crate::json::{outcome, Json, JsonObject, JsonView};
use crate::mcp::{CallToolResult, Meta, Tool};
use crate::pairs::{collect, collected, collected_keys_are_distinct, distinct_keys, find, lookup};
use crate::schema::{may_find, violation};
use crate::server::model::{
    CallEvent, CallEventView, Headers, Message, MessageDraft, ReplyStep, ResolvedTool, ResolvedToolTarget,
    ResolvedToolView, ToolCall, ToolCallView,
};
use crate::server::reply::{
    build_mcp_result_from_message, build_message_from_mcp_call, finish_mcp_result, propagated_headers,
};
use crate::server::rules::{
    admitted, after_reply, coerced_result, dispatch_step, event_may_have, instructions_text, is_first_step,
    is_next_step, listed_tools, next_step, output_may_have, reply_step, tool_draft,
};
use crate::text::{cat2, cat3, cat4, decimal};

verus! {

/// A server: its tools by name, whether it can publish messages, and the names of the
/// headers that a reply carries on.
pub struct McpServer {
    tools: Vec<(String, ResolvedTool)>,
    can_publish: bool,
    propagated: Vec<String>,
}

/// What an `McpServer` stands for.
pub struct McpServerView {
    pub tools: Seq<(Seq<char>, ResolvedToolView)>,
    pub can_publish: bool,
    pub propagated: Seq<Seq<char>>,
}

impl View for McpServer {
    type V = McpServerView;

    closed spec fn view(&self) -> McpServerView {
        McpServerView {
            tools: self.tools.deep_view(),
            can_publish: self.can_publish,
            propagated: self.propagated.deep_view(),
        }
    }
}

impl McpServer {
    #[verifier::type_invariant]
    spec fn well_formed(self) -> bool {
        distinct_keys(self.tools.deep_view())
    }

    /// A server with these tools; of two under one name the later stays.
    pub fn new(tools: Vec<(String, ResolvedTool)>, can_publish: bool, propagated: Vec<String>) -> (r: McpServer)
        ensures
            r@ == (McpServerView {
                tools: collected(tools.deep_view()),
                can_publish,
                propagated: propagated.deep_view(),
            }),
    {
        proof {
            collected_keys_are_distinct(tools.deep_view());
        }
        McpServer { tools: collect(tools), can_publish, propagated }
    }

    /// The tool with a name.
    pub fn tool(&self, name: &str) -> (r: Option<&ResolvedTool>)
        ensures
            r.deep_view() == lookup(self@.tools, name@),
    {
        find(&self.tools, name)
    }

    /// Starts a call.
    pub fn begin_call(&self, tool_name: &str, arguments: &JsonObject, meta: Option<&Meta>) -> (r: ToolCall)
        ensures
            is_first_step(
                r.deep_view(),
                tool_name@,
                lookup(self@.tools, tool_name@),
                arguments@,
                meta.deep_view(),
            ),
    {
        match self.tool(tool_name) {
            None => ToolCall::Done(CallToolResult::failure(cat2("Tool not found: ", tool_name))),
            Some(resolved) => {
                let value = Json::Object(arguments.duplicate());
                let fault = resolved.input_validator.check(&value);
                let draft = build_message_from_mcp_call(arguments, meta, &resolved.propagate_request_meta);
                proof {
                    assert(may_find(resolved.deep_view().input_validator, JsonView::Object(arguments@), fault.deep_view()));
                    assert(outcome(draft) == tool_draft(resolved.deep_view(), arguments@, meta.deep_view()));
                }
                admit_call(tool_name, fault, draft)
            },
        }
    }

    /// Takes in what came of the outside work that a call to a tool of this server
    /// waited for.
    pub fn advance_call(&self, resolved: &ResolvedTool, call: ToolCall, event: CallEvent) -> (r: ToolCall)
        ensures
            is_next_step(
                r.deep_view(),
                call.deep_view(),
                event.deep_view(),
                resolved.deep_view(),
                self@.can_publish,
                self@.propagated,
            ),
    {
        let ghost before = call.deep_view();
        let ghost came = event.deep_view();
        let ghost tool = resolved.deep_view();
        match (call, event) {
            (ToolCall::Coerce { value, schema, meta }, CallEvent::Coerced(r)) => {
                let ghost coerced = outcome(r);
                let result = finish_mcp_result(r, &resolved.output_validator, meta);
                proof {
                    let fault = choose|fault: Option<Seq<char>>|
                        output_may_have(tool.output_validator, coerced, fault) && result.deep_view()
                            == #[trigger] coerced_result(coerced, fault, meta.deep_view());
                    assert(event_may_have(tool, came, fault));
                    assert(ToolCallView::Done(result.deep_view()) == next_step(
                        before,
                        came,
                        tool,
                        self@.can_publish,
                        self@.propagated,
                        fault,
                    ));
                }
                ToolCall::Done(result)
            },
            (call, event) => {
                let next = self.step(resolved, call, event);
                proof {
                    let fault = possible_fault(tool, came);
                    assert(event_may_have(tool, came, fault));
                    assert(next.deep_view() == next_step(before, came, tool, self@.can_publish, self@.propagated, fault));
                }
                next
            },
        }
    }

    /// The step that follows where no coerced value is to be checked.
    fn step(&self, resolved: &ResolvedTool, call: ToolCall, event: CallEvent) -> (r: ToolCall)
        ensures
            !(call is Coerce && event is Coerced) ==> forall|fault: Option<Seq<char>>|
                r.deep_view() == #[trigger] next_step(
                    call.deep_view(),
                    event.deep_view(),
                    resolved.deep_view(),
                    self@.can_publish,
                    self@.propagated,
                    fault,
                ),
    {
        match (call, event) {
            (ToolCall::Build(_), CallEvent::Built(headers)) => self.dispatch(&resolved.target, headers),
            (ToolCall::MapRequest { component_name, headers }, CallEvent::RequestMapped(r)) => match r {
                Ok(_) => ToolCall::Invoke { component_name, headers },
                Err(e) => ToolCall::Done(CallToolResult::failure(e)),
            },
            (ToolCall::Invoke { component_name, headers }, CallEvent::Invoked(r)) => match r {
                Ok(value) => {
                    let value = match value {
                        Some(v) => v,
                        None => Json::Null,
                    };
                    ToolCall::MapReply { value, propagated: propagated_headers(&headers, &self.propagated) }
                },
                Err(e) => ToolCall::Done(CallToolResult::failure(e)),
            },
            (ToolCall::Publish { channel }, CallEvent::Published(r)) => match r {
                Ok(_) => ToolCall::AwaitReply { channel },
                Err(e) => {
                    let text = cat4("Failed to publish to channel '", channel.as_str(), "': ", e.as_str());
                    ToolCall::Done(CallToolResult::failure(text))
                },
            },
            (ToolCall::MapReply { value, propagated }, CallEvent::Replied(r)) => match r {
                Ok(reply) => take_reply(resolved, &reply),
                Err(e) => ToolCall::Done(CallToolResult::failure(e)),
            },
            (ToolCall::AwaitReply { channel }, CallEvent::Replied(r)) => match r {
                Ok(reply) => take_reply(resolved, &reply),
                Err(e) => {
                    let text = cat4(
                        "Failed to receive reply for request to channel '",
                        channel.as_str(),
                        "': ",
                        e.as_str(),
                    );
                    ToolCall::Done(CallToolResult::failure(text))
                },
            },
            (call, _) => call,
        }
    }

    /// The step that follows once the message is built.
    fn dispatch(&self, target: &ResolvedToolTarget, headers: Headers) -> (r: ToolCall)
        ensures
            r.deep_view() == dispatch_step(target.deep_view(), self@.can_publish, headers.deep_view()),
    {
        match target {
            ResolvedToolTarget::Component { component_name } => ToolCall::MapRequest {
                component_name: component_name.clone(),
                headers,
            },
            ResolvedToolTarget::Channel { channel } => {
                if self.can_publish {
                    ToolCall::Publish { channel: channel.clone() }
                } else {
                    let text = "Channel-backed tools require messaging support".to_owned();
                    ToolCall::Done(CallToolResult::failure(text))
                }
            },
        }
    }

    /// The tools that `tools/list` answers with, each under a name of its own.
    pub fn list_tools(&self) -> (r: Vec<Tool>)
        ensures
            r.deep_view() == listed_tools(self@.tools),
            r@.len() == self@.tools.len(),
            forall|i: int| 0 <= i < r@.len() ==> (#[trigger] r@[i]).deep_view() == self@.tools[i].1.tool,
            distinct_keys(self@.tools),
    {
        proof {
            use_type_invariant(self);
        }
        let ghost all = self.tools.deep_view();
        let mut out: Vec<Tool> = Vec::new();
        let mut i: usize = 0;
        while i < self.tools.len()
            invariant
                i <= self.tools.len(),
                all == self.tools.deep_view(),
                out.len() == i,
                forall|k: int| 0 <= k < i ==> (#[trigger] out.deep_view()[k]) == all[k].1.tool,
            decreases self.tools.len() - i,
        {
            let ghost before = out.deep_view();
            out.push(self.tools[i].1.tool.duplicate());
            proof {
                assert(all[i as int].1 == self.tools@[i as int].1.deep_view());
                assert(out.deep_view() =~= before.push(all[i as int].1.tool));
            }
            i += 1;
        }
        assert forall|k: int| 0 <= k < out@.len() implies (#[trigger] out@[k]).deep_view() == all[k].1.tool by {
            assert(out.deep_view()[k] == out@[k].deep_view());
        }
        assert(out.deep_view() =~= listed_tools(all));
        out
    }

    /// The instructions that the server gives its clients.
    pub fn instructions(&self) -> (r: String)
        ensures
            r@ == instructions_text(self@.tools.len()),
    {
        let count = decimal(self.tools.len());
        cat3(
            "This server provides ",
            count.as_str(),
            " tools. Each tool has typed inputs and outputs described by its schema. Call tools with their required parameters.",
        )
    }
}

/// A fault, or none, that the check may give that an event leads to.
spec fn possible_fault(tool: ResolvedToolView, event: CallEventView) -> Option<Seq<char>> {
    match event {
        CallEventView::Coerced(Ok(value)) => match tool.output_validator {
            Some(schema) => violation(schema, value),
            None => None,
        },
        _ => None,
    }
}

/// What a call starts with, once its arguments are checked and its message drafted.
pub fn admit_call(tool_name: &str, fault: Option<String>, draft: Result<MessageDraft, String>) -> (r: ToolCall)
    ensures
        r.deep_view() == admitted(tool_name@, fault.deep_view(), outcome(draft)),
{
    match fault {
        Some(e) => {
            let text = cat4("Invalid arguments for tool '", tool_name, "': ", e.as_str());
            ToolCall::Done(CallToolResult::failure(text))
        },
        None => match draft {
            Err(e) => ToolCall::Done(CallToolResult::failure(e)),
            Ok(draft) => ToolCall::Build(draft),
        },
    }
}

/// The step that follows a reply.
fn take_reply(resolved: &ResolvedTool, reply: &Message) -> (r: ToolCall)
    ensures
        r.deep_view() == after_reply(
            reply_step(
                reply.deep_view(),
                resolved.deep_view().tool,
                resolved.deep_view().propagate_result_meta,
            ),
        ),
{
    match build_mcp_result_from_message(reply, &resolved.tool, &resolved.propagate_result_meta) {
        ReplyStep::Done(result) => ToolCall::Done(result),
        ReplyStep::Coerce { value, schema, meta } => ToolCall::Coerce { value, schema, meta },
    }
}

} // verus!
