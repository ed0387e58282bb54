//! How a call goes from step to step.

use vstd::prelude::*;

use crate::json::{written_bytes, Fields, JsonView};
use crate::mcp::CallToolResultView;
use crate::pairs::lookup;
use crate::schema::{is_plain, may_find, violation};
use crate::server::laws::propagated_headers_are_those_named;
use crate::server::laws::results::says;
use crate::server::model::{
    CallEventView, HeadersView, MessageDraftView, MessageView, ReplyStepView, ResolvedToolTargetView, ResolvedToolView,
    ToolCallView,
};
use crate::server::rules::{
    admitted, event_may_have, is_coerced_result, is_first_step, is_next_step, next_step, reply_step, tool_draft,
};

verus! {

/// Whether a call ended in an error that says just this, without `_meta`.
pub open spec fn ends_with(call: ToolCallView, text: Seq<char>) -> bool {
    call matches ToolCallView::Done(result) && says(result, text) && result.meta is None
}

/// A call of a tool that there is not ends with an error that names it.
pub proof fn unknown_tools_are_not_found(call: ToolCallView, name: Seq<char>, arguments: Fields, meta: Option<Fields>)
    requires
        is_first_step(call, name, None, arguments, meta),
    ensures
        ends_with(call, "Tool not found: "@ + name),
{
}

/// A call with arguments that its tool's schema does not admit ends with an error that names
/// the tool and the fault; any other goes on with a message that holds just the arguments, as
/// JSON.
pub proof fn calls_start_with_their_arguments(
    call: ToolCallView,
    name: Seq<char>,
    tool: ResolvedToolView,
    arguments: Fields,
    meta: Option<Fields>,
)
    requires
        is_first_step(call, name, Some(tool), arguments, meta),
        is_plain(JsonView::Object(arguments)),
    ensures
        match (
            violation(tool.input_validator, JsonView::Object(arguments)),
            written_bytes(JsonView::Object(arguments)),
        ) {
            (Some(e), _) => ends_with(call, "Invalid arguments for tool '"@ + name + "': "@ + e),
            (None, Err(e)) => ends_with(call, "failed to serialize MCP arguments: "@ + e),
            (None, Ok(body)) => call matches ToolCallView::Build(draft) && draft.body == body && draft.content_type
                == "application/json"@ && (meta is None ==> draft.headers.len() == 0),
        },
{
}

/// A built message goes to the component or the channel that backs the tool, with its
/// headers; to a channel only where the server can publish.
pub proof fn built_messages_go_to_the_target(
    next: ToolCallView,
    call: ToolCallView,
    headers: HeadersView,
    tool: ResolvedToolView,
    can_publish: bool,
    propagated: Seq<Seq<char>>,
)
    requires
        call is Build,
        is_next_step(next, call, CallEventView::Built(headers), tool, can_publish, propagated),
    ensures
        match tool.target {
            ResolvedToolTargetView::Component { component_name } => next == (ToolCallView::MapRequest {
                component_name,
                headers,
            }),
            ResolvedToolTargetView::Channel { channel } => if can_publish {
                next == (ToolCallView::Publish { channel })
            } else {
                ends_with(next, "Channel-backed tools require messaging support"@)
            },
        },
{
}

/// A mapped request is invoked on the same component, with the same headers; one that cannot
/// be mapped ends the call with the words of that failure.
pub proof fn mapped_requests_are_invoked(
    next: ToolCallView,
    component_name: Seq<char>,
    headers: HeadersView,
    mapped: Result<(), Seq<char>>,
    tool: ResolvedToolView,
    can_publish: bool,
    propagated: Seq<Seq<char>>,
)
    requires
        is_next_step(
            next,
            ToolCallView::MapRequest { component_name, headers },
            CallEventView::RequestMapped(mapped),
            tool,
            can_publish,
            propagated,
        ),
    ensures
        match mapped {
            Ok(_) => next == (ToolCallView::Invoke { component_name, headers }),
            Err(e) => ends_with(next, e),
        },
{
}

/// What a function returned, or null, is mapped to a reply that carries the named headers of
/// the request and no others; a failed function ends the call with the words of that failure.
pub proof fn returned_values_are_mapped(
    next: ToolCallView,
    component_name: Seq<char>,
    headers: HeadersView,
    returned: Result<Option<JsonView>, Seq<char>>,
    tool: ResolvedToolView,
    can_publish: bool,
    propagated: Seq<Seq<char>>,
    name: Seq<char>,
)
    requires
        is_next_step(
            next,
            ToolCallView::Invoke { component_name, headers },
            CallEventView::Invoked(returned),
            tool,
            can_publish,
            propagated,
        ),
    ensures
        match returned {
            Ok(returned) => next matches ToolCallView::MapReply { value, propagated: carried } && {
                &&& returned is Some ==> value == returned->0
                &&& returned is None ==> value is Null
                &&& lookup(carried, name) == (if propagated.contains(name) {
                    lookup(headers, name)
                } else {
                    None
                })
            },
            Err(e) => ends_with(next, e),
        },
{
    propagated_headers_are_those_named(headers, propagated, name);
}

/// A published request waits for its reply on the same channel; a failure to publish ends the
/// call with the channel's name and the words of that failure.
pub proof fn published_requests_wait_for_the_reply(
    next: ToolCallView,
    channel: Seq<char>,
    published: Result<(), Seq<char>>,
    tool: ResolvedToolView,
    can_publish: bool,
    propagated: Seq<Seq<char>>,
)
    requires
        is_next_step(
            next,
            ToolCallView::Publish { channel },
            CallEventView::Published(published),
            tool,
            can_publish,
            propagated,
        ),
    ensures
        match published {
            Ok(_) => next == (ToolCallView::AwaitReply { channel }),
            Err(e) => ends_with(next, "Failed to publish to channel '"@ + channel + "': "@ + e),
        },
{
}

/// A reply, mapped or received, is read for the tool and the headers that it declares; where
/// none comes the call ends with the words of that failure, and the channel's name.
pub proof fn replies_are_read(
    next: ToolCallView,
    call: ToolCallView,
    reply: Result<MessageView, Seq<char>>,
    tool: ResolvedToolView,
    can_publish: bool,
    propagated: Seq<Seq<char>>,
)
    requires
        call is MapReply || call is AwaitReply,
        is_next_step(next, call, CallEventView::Replied(reply), tool, can_publish, propagated),
    ensures
        match reply {
            Ok(message) => match reply_step(message, tool.tool, tool.propagate_result_meta) {
                ReplyStepView::Done(result) => next == ToolCallView::Done(result),
                ReplyStepView::Coerce { value, schema, meta } => next == (ToolCallView::Coerce { value, schema, meta }),
            },
            Err(e) => match call {
                ToolCallView::AwaitReply { channel } => ends_with(
                    next,
                    "Failed to receive reply for request to channel '"@ + channel + "': "@ + e,
                ),
                _ => ends_with(next, e),
            },
        },
{
}

/// A coerced value ends the call with the result that the tool's output validator and the
/// reply's `_meta` give.
pub proof fn coerced_values_end_the_call(
    next: ToolCallView,
    value: JsonView,
    schema: Fields,
    meta: Option<Fields>,
    coerced: Result<JsonView, Seq<char>>,
    tool: ResolvedToolView,
    can_publish: bool,
    propagated: Seq<Seq<char>>,
)
    requires
        is_next_step(
            next,
            ToolCallView::Coerce { value, schema, meta },
            CallEventView::Coerced(coerced),
            tool,
            can_publish,
            propagated,
        ),
    ensures
        next matches ToolCallView::Done(result) && is_coerced_result(result, coerced, tool.output_validator, meta),
{
    let call = ToolCallView::Coerce { value, schema, meta };
    let event = CallEventView::Coerced(coerced);
    let fault = choose|fault: Option<Seq<char>>|
        event_may_have(tool, event, fault) && next == #[trigger] next_step(
            call,
            event,
            tool,
            can_publish,
            propagated,
            fault,
        );
    assert(next == next_step(call, event, tool, can_publish, propagated, fault));
}

/// A call that is over stays as it is, whatever comes.
pub proof fn finished_calls_stay(
    next: ToolCallView,
    result: CallToolResultView,
    event: CallEventView,
    tool: ResolvedToolView,
    can_publish: bool,
    propagated: Seq<Seq<char>>,
)
    requires
        is_next_step(next, ToolCallView::Done(result), event, tool, can_publish, propagated),
    ensures
        next == ToolCallView::Done(result),
{
}

/// Whatever the check of the arguments gave: with a fault the call ends with an error that
/// names the tool and the fault, without one it ends with the words of a draft that could not
/// be made, or goes on with the draft.
pub proof fn checked_calls_go_on_without_a_fault(
    name: Seq<char>,
    fault: Option<Seq<char>>,
    draft: Result<MessageDraftView, Seq<char>>,
)
    ensures
        match (fault, draft) {
            (Some(e), _) => ends_with(
                admitted(name, fault, draft),
                "Invalid arguments for tool '"@ + name + "': "@ + e,
            ),
            (None, Err(e)) => ends_with(admitted(name, fault, draft), e),
            (None, Ok(draft)) => admitted(name, fault, Ok(draft)) == ToolCallView::Build(draft),
        },
{
}

/// The message of a call holds the arguments as JSON, whatever they are, and says so.
pub proof fn messages_hold_the_arguments(
    call: ToolCallView,
    name: Seq<char>,
    tool: ResolvedToolView,
    arguments: Fields,
    meta: Option<Fields>,
)
    requires
        is_first_step(call, name, Some(tool), arguments, meta),
    ensures
        call matches ToolCallView::Build(draft) ==> written_bytes(JsonView::Object(arguments)) == Ok::<
            Seq<u8>,
            Seq<char>,
        >(draft.body) && draft.content_type == "application/json"@,
{
    let fault = choose|fault: Option<Seq<char>>|
        may_find(tool.input_validator, JsonView::Object(arguments), fault) && call == #[trigger] admitted(
            name,
            fault,
            tool_draft(tool, arguments, meta),
        );
    assert(call == admitted(name, fault, tool_draft(tool, arguments, meta)));
}

} // verus!
