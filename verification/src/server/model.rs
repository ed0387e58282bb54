//! Messages, resolved tools, and the steps of a tool call.

use vstd::prelude::*;

use crate::config::model::{PropagatedHeader, PropagatedHeaderView};
use crate::json::{Fields, Json, JsonObject, JsonView};
use crate::mcp::{CallToolResult, CallToolResultView, Meta, Tool, ToolView};
use crate::schema::SchemaValidator;

verus! {

/// Name and value pairs, as headers and propagation contexts hold them.
pub type Headers = Vec<(String, String)>;

/// What `Headers` stand for.
pub type HeadersView = Seq<(Seq<char>, Seq<char>)>;

/// A message as it was built: its body and all its text headers.
pub struct Message {
    pub body: Vec<u8>,
    pub headers: Headers,
}

/// What a `Message` stands for.
pub struct MessageView {
    pub body: Seq<u8>,
    pub headers: HeadersView,
}

impl DeepView for Message {
    type V = MessageView;

    open spec fn deep_view(&self) -> MessageView {
        MessageView { body: self.body@, headers: self.headers.deep_view() }
    }
}

/// What a message is to be built from: the body, its content type, and the headers
/// to write after the content type, in order.
pub struct MessageDraft {
    pub body: Vec<u8>,
    pub content_type: String,
    pub headers: Headers,
}

/// What a `MessageDraft` stands for.
pub struct MessageDraftView {
    pub body: Seq<u8>,
    pub content_type: Seq<char>,
    pub headers: HeadersView,
}

impl DeepView for MessageDraft {
    type V = MessageDraftView;

    open spec fn deep_view(&self) -> MessageDraftView {
        MessageDraftView {
            body: self.body@,
            content_type: self.content_type@,
            headers: self.headers.deep_view(),
        }
    }
}

/// Where the calls of a tool go.
pub enum ResolvedToolTarget {
    Component { component_name: String },
    Channel { channel: String },
}

/// What a `ResolvedToolTarget` stands for.
pub enum ResolvedToolTargetView {
    Component { component_name: Seq<char> },
    Channel { channel: Seq<char> },
}

impl DeepView for ResolvedToolTarget {
    type V = ResolvedToolTargetView;

    open spec fn deep_view(&self) -> ResolvedToolTargetView {
        match *self {
            ResolvedToolTarget::Component { component_name } => ResolvedToolTargetView::Component {
                component_name: component_name@,
            },
            ResolvedToolTarget::Channel { channel } => ResolvedToolTargetView::Channel { channel: channel@ },
        }
    }
}

/// A tool that is ready to be called.
pub struct ResolvedTool {
    pub tool: Tool,
    pub input_validator: SchemaValidator,
    pub output_validator: Option<SchemaValidator>,
    pub target: ResolvedToolTarget,
    pub propagate_request_meta: Vec<PropagatedHeader>,
    pub propagate_result_meta: Vec<PropagatedHeader>,
}

/// What a `ResolvedTool` stands for; a validator stands for its schema.
pub struct ResolvedToolView {
    pub tool: ToolView,
    pub input_validator: JsonView,
    pub output_validator: Option<JsonView>,
    pub target: ResolvedToolTargetView,
    pub propagate_request_meta: Seq<PropagatedHeaderView>,
    pub propagate_result_meta: Seq<PropagatedHeaderView>,
}

impl DeepView for ResolvedTool {
    type V = ResolvedToolView;

    open spec fn deep_view(&self) -> ResolvedToolView {
        ResolvedToolView {
            tool: self.tool.deep_view(),
            input_validator: self.input_validator@,
            output_validator: self.output_validator.deep_view(),
            target: self.target.deep_view(),
            propagate_request_meta: self.propagate_request_meta.deep_view(),
            propagate_result_meta: self.propagate_result_meta.deep_view(),
        }
    }
}

/// Where the reading of a reply stands.
pub enum ReplyStep {
    /// The result is known.
    Done(CallToolResult),
    /// The value is to be coerced to the output schema.
    Coerce { value: Json, schema: JsonObject, meta: Option<Meta> },
}

/// What a `ReplyStep` stands for.
pub enum ReplyStepView {
    Done(CallToolResultView),
    Coerce { value: JsonView, schema: Fields, meta: Option<Fields> },
}

impl DeepView for ReplyStep {
    type V = ReplyStepView;

    open spec fn deep_view(&self) -> ReplyStepView {
        match *self {
            ReplyStep::Done(result) => ReplyStepView::Done(result.deep_view()),
            ReplyStep::Coerce { value, schema, meta } => ReplyStepView::Coerce {
                value: value@,
                schema: schema@,
                meta: meta.deep_view(),
            },
        }
    }
}

/// The outside work that a tool call waits for, or its result.
#[allow(inconsistent_fields)]
pub enum ToolCall {
    /// Build a message from the draft, within the propagation context of the call.
    Build(MessageDraft),
    /// Map the message to an invocation of the tool's function.
    MapRequest { component_name: String, headers: Headers },
    /// Invoke the function that the request was mapped to.
    Invoke { component_name: String, headers: Headers },
    /// Map the value that the function returned to a reply message, which carries
    /// the propagated headers.
    MapReply { value: Json, propagated: Headers },
    /// Publish the message to the channel as a request.
    Publish { channel: String },
    /// Wait for the reply to the request.
    AwaitReply { channel: String },
    /// Coerce the value to the output schema.
    Coerce { value: Json, schema: JsonObject, meta: Option<Meta> },
    /// The call is over.
    Done(CallToolResult),
}

/// What a `ToolCall` stands for.
#[allow(inconsistent_fields)]
pub enum ToolCallView {
    Build(MessageDraftView),
    MapRequest { component_name: Seq<char>, headers: HeadersView },
    Invoke { component_name: Seq<char>, headers: HeadersView },
    MapReply { value: JsonView, propagated: HeadersView },
    Publish { channel: Seq<char> },
    AwaitReply { channel: Seq<char> },
    Coerce { value: JsonView, schema: Fields, meta: Option<Fields> },
    Done(CallToolResultView),
}

impl DeepView for ToolCall {
    type V = ToolCallView;

    open spec fn deep_view(&self) -> ToolCallView {
        match *self {
            ToolCall::Build(draft) => ToolCallView::Build(draft.deep_view()),
            ToolCall::MapRequest { component_name, headers } => ToolCallView::MapRequest {
                component_name: component_name@,
                headers: headers.deep_view(),
            },
            ToolCall::Invoke { component_name, headers } => ToolCallView::Invoke {
                component_name: component_name@,
                headers: headers.deep_view(),
            },
            ToolCall::MapReply { value, propagated } => ToolCallView::MapReply {
                value: value@,
                propagated: propagated.deep_view(),
            },
            ToolCall::Publish { channel } => ToolCallView::Publish { channel: channel@ },
            ToolCall::AwaitReply { channel } => ToolCallView::AwaitReply { channel: channel@ },
            ToolCall::Coerce { value, schema, meta } => ToolCallView::Coerce {
                value: value@,
                schema: schema@,
                meta: meta.deep_view(),
            },
            ToolCall::Done(result) => ToolCallView::Done(result.deep_view()),
        }
    }
}

/// What came of the outside work that a tool call waited for.
pub enum CallEvent {
    /// The headers of the message that was built.
    Built(Headers),
    RequestMapped(Result<(), String>),
    /// The value that the function returned, if it returns one.
    Invoked(Result<Option<Json>, String>),
    Published(Result<(), String>),
    /// The reply message: mapped from a value, or received.
    Replied(Result<Message, String>),
    Coerced(Result<Json, String>),
}

/// What a `CallEvent` stands for.
pub enum CallEventView {
    Built(HeadersView),
    RequestMapped(Result<(), Seq<char>>),
    Invoked(Result<Option<JsonView>, Seq<char>>),
    Published(Result<(), Seq<char>>),
    Replied(Result<MessageView, Seq<char>>),
    Coerced(Result<JsonView, Seq<char>>),
}

impl DeepView for CallEvent {
    type V = CallEventView;

    open spec fn deep_view(&self) -> CallEventView {
        match *self {
            CallEvent::Built(headers) => CallEventView::Built(headers.deep_view()),
            CallEvent::RequestMapped(r) => CallEventView::RequestMapped(
                match r {
                    Ok(_) => Ok(()),
                    Err(e) => Err(e@),
                },
            ),
            CallEvent::Invoked(r) => CallEventView::Invoked(
                match r {
                    Ok(v) => Ok(v.deep_view()),
                    Err(e) => Err(e@),
                },
            ),
            CallEvent::Published(r) => CallEventView::Published(
                match r {
                    Ok(_) => Ok(()),
                    Err(e) => Err(e@),
                },
            ),
            CallEvent::Replied(r) => CallEventView::Replied(
                match r {
                    Ok(m) => Ok(m.deep_view()),
                    Err(e) => Err(e@),
                },
            ),
            CallEvent::Coerced(r) => CallEventView::Coerced(
                match r {
                    Ok(v) => Ok(v.deep_view()),
                    Err(e) => Err(e@),
                },
            ),
        }
    }
}

} // verus!
