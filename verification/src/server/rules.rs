//! What the server does with a call, a reply and a span.

use vstd::prelude::*;

use crate::config::model::PropagatedHeaderView;
use crate::json::{parsed_bytes, pretty_text, with_member, written_bytes, Fields, JsonView};
use crate::mcp::{content_result, error_result, structured_result, text_content, CallToolResultView, ToolView};
use crate::pairs::{lookup, with_pair};
use crate::schema::may_find;
use crate::server::model::{
    CallEventView, HeadersView, MessageDraftView, MessageView, ReplyStepView, ResolvedToolTargetView, ResolvedToolView,
    ToolCallView,
};
use crate::text::decimal_text;

verus! {

/// The headers that carry `_meta` entries: for each entry whose source key has a
/// text value, that text under the entry's target name. Other values are skipped.
pub open spec fn lifted_meta(meta: Fields, entries: Seq<PropagatedHeaderView>) -> HeadersView
    decreases entries.len(),
{
    if entries.len() == 0 {
        Seq::empty()
    } else {
        let rest = lifted_meta(meta, entries.drop_first());
        match lookup(meta, entries[0].source) {
            Some(JsonView::Str(s)) => seq![(entries[0].target, s)] + rest,
            _ => rest,
        }
    }
}

/// The `_meta` entries that are declared but skipped: for each entry whose source key has a
/// value that is no text, the key and that value.
pub open spec fn skipped_meta(meta: Fields, entries: Seq<PropagatedHeaderView>) -> Fields
    decreases entries.len(),
{
    if entries.len() == 0 {
        Seq::empty()
    } else {
        let rest = skipped_meta(meta, entries.drop_first());
        match lookup(meta, entries[0].source) {
            None | Some(JsonView::Str(_)) => rest,
            Some(value) => seq![(entries[0].source, value)] + rest,
        }
    }
}

/// The draft of the message that carries a call: its arguments as a JSON body, and
/// the declared `_meta` entries as headers.
pub open spec fn request_draft(
    body: Result<Seq<u8>, Seq<char>>,
    meta: Option<Fields>,
    entries: Seq<PropagatedHeaderView>,
) -> Result<MessageDraftView, Seq<char>> {
    match body {
        Err(e) => Err("failed to serialize MCP arguments: "@ + e),
        Ok(body) => Ok(
            MessageDraftView {
                body,
                content_type: "application/json"@,
                headers: match meta {
                    Some(meta) => lifted_meta(meta, entries),
                    None => Seq::empty(),
                },
            },
        ),
    }
}

/// The headers with the given names, in the order of the names.
pub open spec fn selected_headers(headers: HeadersView, names: Seq<Seq<char>>) -> HeadersView
    decreases names.len(),
{
    if names.len() == 0 {
        Seq::empty()
    } else {
        let front = selected_headers(headers, names.drop_last());
        match lookup(headers, names.last()) {
            Some(value) => with_pair(front, names.last(), value),
            None => front,
        }
    }
}

/// The members that headers become: for each entry whose source header is there,
/// its value under the entry's target name; of two entries with one target the
/// later stays.
pub open spec fn lowered_meta(headers: HeadersView, entries: Seq<PropagatedHeaderView>) -> Fields
    decreases entries.len(),
{
    if entries.len() == 0 {
        Seq::empty()
    } else {
        let front = lowered_meta(headers, entries.drop_last());
        match lookup(headers, entries.last().source) {
            Some(value) => with_member(front, entries.last().target, JsonView::Str(value)),
            None => front,
        }
    }
}

/// The `_meta` of a result: none rather than an empty one.
pub open spec fn result_meta(headers: HeadersView, entries: Seq<PropagatedHeaderView>) -> Option<Fields> {
    let members = lowered_meta(headers, entries);
    if members.len() == 0 {
        None
    } else {
        Some(members)
    }
}

/// A result with `_meta`, where there is any.
pub open spec fn with_meta(result: CallToolResultView, meta: Option<Fields>) -> CallToolResultView {
    match meta {
        Some(_) => CallToolResultView { meta, ..result },
        None => result,
    }
}

/// A member of a value: none of a value that is no object.
pub open spec fn member(value: JsonView, key: Seq<char>) -> Option<JsonView> {
    match value {
        JsonView::Object(fields) => lookup(fields, key),
        _ => None,
    }
}

/// The property that a bare value is wrapped under: the only one of the schema, where
/// it is array-typed or has `oneOf`.
pub open spec fn wrapping_property(schema: Fields) -> Option<Seq<char>> {
    match lookup(schema, "properties"@) {
        Some(JsonView::Object(properties)) => if properties.len() == 1 && (member(properties[0].1, "type"@) == Some(
            JsonView::Str("array"@),
        ) || member(properties[0].1, "oneOf"@) is Some) {
            Some(properties[0].0)
        } else {
            None
        },
        _ => None,
    }
}

/// A value in the shape that the schema advertises.
pub open spec fn wrapped(schema: Fields, value: JsonView) -> JsonView {
    match wrapping_property(schema) {
        Some(name) => JsonView::Object(seq![(name, value)]),
        None => value,
    }
}

/// The text of a value: that of a string is the string itself.
pub open spec fn value_text(value: JsonView) -> Seq<char> {
    match value {
        JsonView::Str(s) => s,
        other => pretty_text(other),
    }
}

/// What a reply body holds: nothing stands for null.
pub open spec fn body_value(body: Seq<u8>) -> Result<JsonView, Seq<char>> {
    if body.len() == 0 {
        Ok(JsonView::Null)
    } else {
        parsed_bytes(body)
    }
}

/// What follows once a reply body is read.
pub open spec fn read_reply(
    value: Result<JsonView, Seq<char>>,
    output_schema: Option<Fields>,
    meta: Option<Fields>,
) -> ReplyStepView {
    match value {
        Err(e) => ReplyStepView::Done(with_meta(error_result("reply body is not valid JSON: "@ + e), meta)),
        Ok(value) => match output_schema {
            None => ReplyStepView::Done(with_meta(content_result(seq![text_content(value_text(value))], false), meta)),
            Some(schema) => ReplyStepView::Coerce { value: wrapped(schema, value), schema, meta },
        },
    }
}

/// What a reply message leads to.
pub open spec fn reply_step(message: MessageView, tool: ToolView, entries: Seq<PropagatedHeaderView>) -> ReplyStepView {
    read_reply(body_value(message.body), tool.output_schema, result_meta(message.headers, entries))
}

/// The result for a value that was checked against the output schema.
pub open spec fn checked_result(value: JsonView, fault: Option<Seq<char>>, meta: Option<Fields>) -> CallToolResultView {
    match fault {
        Some(e) => with_meta(error_result("reply body does not conform to output-schema: "@ + e), meta),
        None => with_meta(structured_result(value, false), meta),
    }
}

/// Whether the check of a coerced value against the output schema may give this fault, or
/// none. Without a value or a schema there is nothing to check.
pub open spec fn output_may_have(
    output_validator: Option<JsonView>,
    coerced: Result<JsonView, Seq<char>>,
    fault: Option<Seq<char>>,
) -> bool {
    match (output_validator, coerced) {
        (Some(schema), Ok(value)) => may_find(schema, value, fault),
        _ => fault is None,
    }
}

/// The result once the value is coerced, and checked with this fault or none.
pub open spec fn coerced_result(
    coerced: Result<JsonView, Seq<char>>,
    fault: Option<Seq<char>>,
    meta: Option<Fields>,
) -> CallToolResultView {
    match coerced {
        Err(e) => with_meta(error_result("failed to coerce reply body to output-schema: "@ + e), meta),
        Ok(value) => checked_result(value, fault, meta),
    }
}

/// Whether a result is what follows once the value is coerced.
pub open spec fn is_coerced_result(
    result: CallToolResultView,
    coerced: Result<JsonView, Seq<char>>,
    output_validator: Option<JsonView>,
    meta: Option<Fields>,
) -> bool {
    exists|fault: Option<Seq<char>>|
        output_may_have(output_validator, coerced, fault) && result == #[trigger] coerced_result(coerced, fault, meta)
}

/// A call that ended in an error.
pub open spec fn failed(text: Seq<char>) -> ToolCallView {
    ToolCallView::Done(error_result(text))
}

/// What a call starts with, once its arguments are checked.
pub open spec fn admitted(
    name: Seq<char>,
    fault: Option<Seq<char>>,
    draft: Result<MessageDraftView, Seq<char>>,
) -> ToolCallView {
    match fault {
        Some(e) => failed("Invalid arguments for tool '"@ + name + "': "@ + e),
        None => match draft {
            Err(e) => failed(e),
            Ok(draft) => ToolCallView::Build(draft),
        },
    }
}

/// The draft of the message that carries a call of a tool.
pub open spec fn tool_draft(tool: ResolvedToolView, arguments: Fields, meta: Option<Fields>) -> Result<
    MessageDraftView,
    Seq<char>,
> {
    request_draft(written_bytes(JsonView::Object(arguments)), meta, tool.propagate_request_meta)
}

/// Whether a call starts with a step.
pub open spec fn is_first_step(
    call: ToolCallView,
    name: Seq<char>,
    tool: Option<ResolvedToolView>,
    arguments: Fields,
    meta: Option<Fields>,
) -> bool {
    match tool {
        None => call == failed("Tool not found: "@ + name),
        Some(tool) => exists|fault: Option<Seq<char>>|
            may_find(tool.input_validator, JsonView::Object(arguments), fault) && call == #[trigger] admitted(
                name,
                fault,
                tool_draft(tool, arguments, meta),
            ),
    }
}

/// The step that follows once the message is built.
pub open spec fn dispatch_step(target: ResolvedToolTargetView, can_publish: bool, headers: HeadersView) -> ToolCallView {
    match target {
        ResolvedToolTargetView::Component { component_name } => ToolCallView::MapRequest { component_name, headers },
        ResolvedToolTargetView::Channel { channel } => if can_publish {
            ToolCallView::Publish { channel }
        } else {
            failed("Channel-backed tools require messaging support"@)
        },
    }
}

/// The step that follows a reply.
pub open spec fn after_reply(step: ReplyStepView) -> ToolCallView {
    match step {
        ReplyStepView::Done(result) => ToolCallView::Done(result),
        ReplyStepView::Coerce { value, schema, meta } => ToolCallView::Coerce { value, schema, meta },
    }
}

/// Whether the check that an event leads to may give this fault, or none.
pub open spec fn event_may_have(tool: ResolvedToolView, event: CallEventView, fault: Option<Seq<char>>) -> bool {
    match event {
        CallEventView::Coerced(coerced) => output_may_have(tool.output_validator, coerced, fault),
        _ => fault is None,
    }
}

/// The step that follows, for each step of a call and what came of it; `fault` is what the
/// check of a coerced value gave. An event that the step did not wait for changes nothing.
pub open spec fn next_step(
    call: ToolCallView,
    event: CallEventView,
    tool: ResolvedToolView,
    can_publish: bool,
    propagated: Seq<Seq<char>>,
    fault: Option<Seq<char>>,
) -> ToolCallView {
    match (call, event) {
        (ToolCallView::Build(_), CallEventView::Built(headers)) => dispatch_step(tool.target, can_publish, headers),
        (ToolCallView::MapRequest { component_name, headers }, CallEventView::RequestMapped(r)) => match r {
            Ok(_) => ToolCallView::Invoke { component_name, headers },
            Err(e) => failed(e),
        },
        (ToolCallView::Invoke { component_name, headers }, CallEventView::Invoked(r)) => match r {
            Ok(value) => ToolCallView::MapReply {
                value: match value {
                    Some(v) => v,
                    None => JsonView::Null,
                },
                propagated: selected_headers(headers, propagated),
            },
            Err(e) => failed(e),
        },
        (ToolCallView::Publish { channel }, CallEventView::Published(r)) => match r {
            Ok(_) => ToolCallView::AwaitReply { channel },
            Err(e) => failed("Failed to publish to channel '"@ + channel + "': "@ + e),
        },
        (ToolCallView::MapReply { .. }, CallEventView::Replied(r)) => match r {
            Ok(reply) => after_reply(reply_step(reply, tool.tool, tool.propagate_result_meta)),
            Err(e) => failed(e),
        },
        (ToolCallView::AwaitReply { channel }, CallEventView::Replied(r)) => match r {
            Ok(reply) => after_reply(reply_step(reply, tool.tool, tool.propagate_result_meta)),
            Err(e) => failed("Failed to receive reply for request to channel '"@ + channel + "': "@ + e),
        },
        (ToolCallView::Coerce { meta, .. }, CallEventView::Coerced(r)) => ToolCallView::Done(
            coerced_result(r, fault, meta),
        ),
        (call, _) => call,
    }
}

/// Whether a step follows another and what came of it.
pub open spec fn is_next_step(
    next: ToolCallView,
    call: ToolCallView,
    event: CallEventView,
    tool: ResolvedToolView,
    can_publish: bool,
    propagated: Seq<Seq<char>>,
) -> bool {
    exists|fault: Option<Seq<char>>|
        event_may_have(tool, event, fault) && next == #[trigger] next_step(
            call,
            event,
            tool,
            can_publish,
            propagated,
            fault,
        )
}

/// The tools of a server, as they are listed.
pub open spec fn listed_tools(tools: Seq<(Seq<char>, ResolvedToolView)>) -> Seq<ToolView> {
    Seq::new(tools.len(), |i: int| tools[i].1.tool)
}

/// The instructions of a server with so many tools.
pub open spec fn instructions_text(count: nat) -> Seq<char> {
    "This server provides "@ + decimal_text(count)
        + " tools. Each tool has typed inputs and outputs described by its schema. Call tools with their required parameters."@
}

} // verus!
