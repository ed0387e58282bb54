//! What messages, resolved tools and steps stand for: each of their fields, and nothing else.

use vstd::prelude::*;

use crate::json::{Fields, JsonObject};
use crate::mcp::laws::stands_for;
use crate::server::model::{
    CallEvent, CallEventView, Headers, HeadersView, Message, MessageDraft, ReplyStep, ReplyStepView, ResolvedTool,
    ResolvedToolTarget, ResolvedToolTargetView, ToolCall, ToolCallView,
};
use crate::server::span::{AttributeValue, AttributeValueView, RequestOrigin, SpanPlan};

verus! {

/// Whether headers stand for others, pair by pair.
pub open spec fn headers_stand_for(headers: Headers, shown: HeadersView) -> bool {
    headers@.len() == shown.len() && forall|i: int|
        0 <= i < shown.len() ==> (#[trigger] shown[i]).0 == headers@[i].0@ && shown[i].1 == headers@[i].1@
}

/// Whether metadata that there may be stand for others.
pub open spec fn meta_stands_for(meta: Option<JsonObject>, shown: Option<Fields>) -> bool {
    match (meta, shown) {
        (Some(m), Some(s)) => m@ == s,
        (None, None) => true,
        _ => false,
    }
}

/// A message shows its body and its headers, and a draft its content type too.
pub proof fn messages_show_every_field(message: Message, draft: MessageDraft)
    ensures
        message.deep_view().body == message.body@,
        headers_stand_for(message.headers, message.deep_view().headers),
        draft.deep_view().body == draft.body@,
        draft.deep_view().content_type == draft.content_type@,
        headers_stand_for(draft.headers, draft.deep_view().headers),
{
}

/// A resolved tool shows what is listed of it, its schemas, its target and its declared
/// `_meta`.
pub proof fn resolved_tools_show_every_field(tool: ResolvedTool)
    ensures
        ({
            let shown = tool.deep_view();
            &&& shown.tool == tool.tool.deep_view()
            &&& shown.input_validator == tool.input_validator@
            &&& match (tool.output_validator, shown.output_validator) {
                (Some(v), Some(s)) => v@ == s,
                (None, None) => true,
                _ => false,
            }
            &&& match (tool.target, shown.target) {
                (
                    ResolvedToolTarget::Component { component_name },
                    ResolvedToolTargetView::Component { component_name: s },
                ) => component_name@ == s,
                (ResolvedToolTarget::Channel { channel }, ResolvedToolTargetView::Channel { channel: s }) => channel@ == s,
                _ => false,
            }
            &&& shown.propagate_request_meta.len() == tool.propagate_request_meta@.len()
            &&& forall|i: int|
                0 <= i < shown.propagate_request_meta.len() ==> (#[trigger] shown.propagate_request_meta[i])
                    == tool.propagate_request_meta@[i].deep_view()
            &&& shown.propagate_result_meta.len() == tool.propagate_result_meta@.len()
            &&& forall|i: int|
                0 <= i < shown.propagate_result_meta.len() ==> (#[trigger] shown.propagate_result_meta[i])
                    == tool.propagate_result_meta@[i].deep_view()
        }),
{
}

/// A step of a reply shows its result, or what is to be coerced to what.
pub proof fn reply_steps_show_every_field(step: ReplyStep)
    ensures
        match (step, step.deep_view()) {
            (ReplyStep::Done(r), ReplyStepView::Done(s)) => r.deep_view() == s,
            (
                ReplyStep::Coerce { value, schema, meta },
                ReplyStepView::Coerce { value: v, schema: s, meta: m },
            ) => value@ == v && schema@ == s && meta_stands_for(meta, m),
            _ => false,
        },
{
}

/// A step of a call shows what it waits for.
pub proof fn calls_show_every_field(call: ToolCall)
    ensures
        match (call, call.deep_view()) {
            (ToolCall::Build(d), ToolCallView::Build(s)) => d.deep_view() == s,
            (
                ToolCall::MapRequest { component_name, headers },
                ToolCallView::MapRequest { component_name: c, headers: h },
            ) => component_name@ == c && headers_stand_for(headers, h),
            (
                ToolCall::Invoke { component_name, headers },
                ToolCallView::Invoke { component_name: c, headers: h },
            ) => component_name@ == c && headers_stand_for(headers, h),
            (
                ToolCall::MapReply { value, propagated },
                ToolCallView::MapReply { value: v, propagated: h },
            ) => value@ == v && headers_stand_for(propagated, h),
            (ToolCall::Publish { channel }, ToolCallView::Publish { channel: c }) => channel@ == c,
            (ToolCall::AwaitReply { channel }, ToolCallView::AwaitReply { channel: c }) => channel@ == c,
            (
                ToolCall::Coerce { value, schema, meta },
                ToolCallView::Coerce { value: v, schema: s, meta: m },
            ) => value@ == v && schema@ == s && meta_stands_for(meta, m),
            (ToolCall::Done(r), ToolCallView::Done(s)) => r.deep_view() == s,
            _ => false,
        },
{
}

/// An event shows what came of the work.
pub proof fn events_show_every_field(event: CallEvent)
    ensures
        match (event, event.deep_view()) {
            (CallEvent::Built(headers), CallEventView::Built(h)) => headers_stand_for(headers, h),
            (CallEvent::RequestMapped(Ok(_)), CallEventView::RequestMapped(Ok(_))) => true,
            (CallEvent::RequestMapped(Err(e)), CallEventView::RequestMapped(Err(s))) => e@ == s,
            (CallEvent::Invoked(Ok(Some(v))), CallEventView::Invoked(Ok(Some(s)))) => v@ == s,
            (CallEvent::Invoked(Ok(None)), CallEventView::Invoked(Ok(None))) => true,
            (CallEvent::Invoked(Err(e)), CallEventView::Invoked(Err(s))) => e@ == s,
            (CallEvent::Published(Ok(_)), CallEventView::Published(Ok(_))) => true,
            (CallEvent::Published(Err(e)), CallEventView::Published(Err(s))) => e@ == s,
            (CallEvent::Replied(Ok(m)), CallEventView::Replied(Ok(s))) => m.deep_view() == s,
            (CallEvent::Replied(Err(e)), CallEventView::Replied(Err(s))) => e@ == s,
            (CallEvent::Coerced(Ok(v)), CallEventView::Coerced(Ok(s))) => v@ == s,
            (CallEvent::Coerced(Err(e)), CallEventView::Coerced(Err(s))) => e@ == s,
            _ => false,
        },
{
}

/// Where a request came from shows its session, its protocol version and its client.
pub proof fn origins_show_every_field(origin: RequestOrigin)
    ensures
        stands_for(origin.session_id, origin.deep_view().session_id),
        stands_for(origin.protocol_version, origin.deep_view().protocol_version),
        match (origin.client, origin.deep_view().client) {
            (Some((address, port)), Some((a, p))) => address@ == a && port == p,
            (None, None) => true,
            _ => false,
        },
{
}

/// An attribute's value shows its kind and what it is.
pub proof fn attribute_values_show_what_they_are(value: AttributeValue)
    ensures
        match (value, value.deep_view()) {
            (AttributeValue::Text(s), AttributeValueView::Text(t)) => s@ == t,
            (AttributeValue::Int(n), AttributeValueView::Int(i)) => n == i,
            _ => false,
        },
{
}

/// The plan of a span shows its name, its attributes, its context and whether it continues a
/// trace.
pub proof fn span_plans_show_every_field(plan: SpanPlan)
    ensures
        ({
            let shown = plan.deep_view();
            &&& shown.name == plan.name@
            &&& shown.attributes.len() == plan.attributes@.len()
            &&& forall|i: int|
                0 <= i < shown.attributes.len() ==> (#[trigger] shown.attributes[i]).0 == plan.attributes@[i].0@
                    && shown.attributes[i].1 == plan.attributes@[i].1.deep_view()
            &&& headers_stand_for(plan.context, shown.context)
            &&& shown.has_parent == plan.has_parent
        }),
{
}

} // verus!
