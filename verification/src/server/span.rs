//! Spans after the gen_ai semantic conventions, and the trace context that goes with
//! them.

use vstd::prelude::*;

use crate::json::{Fields, Json, JsonView};
use crate::mcp::{CallToolResult, CallToolResultView, Meta};
use crate::pairs::{find, lookup, set_pair, with_pair};
use crate::server::model::{Headers, HeadersView};
use crate::text::{cat3, cat5, hex, hex_text, same};

verus! {

/// The value of a span attribute.
pub enum AttributeValue {
    Text(String),
    Int(i64),
}

/// What an `AttributeValue` stands for.
pub enum AttributeValueView {
    Text(Seq<char>),
    Int(int),
}

impl DeepView for AttributeValue {
    type V = AttributeValueView;

    open spec fn deep_view(&self) -> AttributeValueView {
        match *self {
            AttributeValue::Text(s) => AttributeValueView::Text(s@),
            AttributeValue::Int(n) => AttributeValueView::Int(n as int),
        }
    }
}

/// Span attributes: names and values, in order.
pub type Attributes = Vec<(String, AttributeValue)>;

/// What `Attributes` stand for.
pub type AttributesView = Seq<(Seq<char>, AttributeValueView)>;

/// An attribute with a text value.
pub open spec fn text_attribute(name: Seq<char>, value: Seq<char>) -> (Seq<char>, AttributeValueView) {
    (name, AttributeValueView::Text(value))
}

/// An attribute with a text value.
fn attribute(name: &str, value: &str) -> (r: (String, AttributeValue))
    ensures
        r.deep_view() == text_attribute(name@, value@),
{
    (name.to_owned(), AttributeValue::Text(value.to_owned()))
}

/// Where an HTTP request came from, as far as it tells.
pub struct RequestOrigin {
    pub session_id: Option<String>,
    pub protocol_version: Option<String>,
    /// The client's address and port.
    pub client: Option<(String, u16)>,
}

/// What a `RequestOrigin` stands for.
pub struct RequestOriginView {
    pub session_id: Option<Seq<char>>,
    pub protocol_version: Option<Seq<char>>,
    pub client: Option<(Seq<char>, u16)>,
}

impl DeepView for RequestOrigin {
    type V = RequestOriginView;

    open spec fn deep_view(&self) -> RequestOriginView {
        RequestOriginView {
            session_id: self.session_id.deep_view(),
            protocol_version: self.protocol_version.deep_view(),
            client: self.client.deep_view(),
        }
    }
}

/// The attribute for a value that may be missing.
pub open spec fn optional_attribute(name: Seq<char>, value: Option<Seq<char>>) -> AttributesView {
    match value {
        Some(v) => seq![text_attribute(name, v)],
        None => Seq::empty(),
    }
}

/// The attributes for a client's address.
pub open spec fn client_attributes(client: Option<(Seq<char>, u16)>) -> AttributesView {
    match client {
        Some((address, port)) => seq![
            text_attribute("client.address"@, address),
            ("client.port"@, AttributeValueView::Int(port as int)),
        ],
        None => Seq::empty(),
    }
}

/// The attributes of any request.
pub open spec fn request_attribute_list(id: Seq<char>, origin: Option<RequestOriginView>) -> AttributesView {
    let common = seq![
        text_attribute("jsonrpc.request.id"@, id),
        text_attribute("network.transport"@, "tcp"@),
        text_attribute("network.protocol.name"@, "http"@),
    ];
    match origin {
        None => common,
        Some(origin) => common + optional_attribute("mcp.session.id"@, origin.session_id) + optional_attribute(
            "mcp.protocol.version"@,
            origin.protocol_version,
        ) + client_attributes(origin.client),
    }
}

/// The attributes of any request, in gen_ai terms.
pub fn request_attributes(id: &str, origin: &Option<RequestOrigin>) -> (r: Attributes)
    ensures
        r.deep_view() == request_attribute_list(id@, origin.deep_view()),
{
    let mut attrs: Attributes = vec![
        attribute("jsonrpc.request.id", id),
        attribute("network.transport", "tcp"),
        attribute("network.protocol.name", "http"),
    ];
    let ghost common = seq![
        text_attribute("jsonrpc.request.id"@, id@),
        text_attribute("network.transport"@, "tcp"@),
        text_attribute("network.protocol.name"@, "http"@),
    ];
    assert(attrs.deep_view() =~= common);
    if let Some(origin) = origin {
        if let Some(session_id) = &origin.session_id {
            attrs.push(attribute("mcp.session.id", session_id.as_str()));
        }
        let ghost second = common + optional_attribute("mcp.session.id"@, origin.session_id.deep_view());
        assert(attrs.deep_view() =~= second);
        if let Some(version) = &origin.protocol_version {
            attrs.push(attribute("mcp.protocol.version", version.as_str()));
        }
        let ghost third = second + optional_attribute("mcp.protocol.version"@, origin.protocol_version.deep_view());
        assert(attrs.deep_view() =~= third);
        if let Some((address, port)) = &origin.client {
            attrs.push(attribute("client.address", address.as_str()));
            attrs.push(("client.port".to_owned(), AttributeValue::Int(*port as i64)));
        }
        assert(attrs.deep_view() =~= third + client_attributes(origin.client.deep_view()));
    }
    attrs
}

/// The attributes of a tool call: those of the tool, then those of the request.
pub open spec fn call_attribute_list(tool_name: Seq<char>, request: AttributesView) -> AttributesView {
    seq![
        text_attribute("gen_ai.operation.name"@, "execute_tool"@),
        text_attribute("gen_ai.tool.name"@, tool_name),
    ] + request
}

/// The attributes of a tool call: those of the tool, then those of the request.
pub fn call_attributes(tool_name: &str, request: Attributes) -> (r: Attributes)
    ensures
        r.deep_view() == seq![
            text_attribute("gen_ai.operation.name"@, "execute_tool"@),
            text_attribute("gen_ai.tool.name"@, tool_name@),
        ] + request.deep_view(),
        r.deep_view() == call_attribute_list(tool_name@, request.deep_view()),
{
    let ghost added = request.deep_view();
    let mut attrs: Attributes = vec![
        attribute("gen_ai.operation.name", "execute_tool"),
        attribute("gen_ai.tool.name", tool_name),
    ];
    let ghost tool = seq![
        text_attribute("gen_ai.operation.name"@, "execute_tool"@),
        text_attribute("gen_ai.tool.name"@, tool_name@),
    ];
    assert(attrs.deep_view() =~= tool);
    let mut request = request;
    attrs.append(&mut request);
    assert(attrs.deep_view() =~= tool + added);
    attrs
}

/// The `_meta` of a request: none rather than an empty one.
pub open spec fn meta_of_request(meta: Fields) -> Option<Fields> {
    if meta.len() == 0 {
        None
    } else {
        Some(meta)
    }
}

/// The `_meta` of a request: none rather than an empty one.
pub fn request_meta(meta: &Meta) -> (r: Option<&Meta>)
    ensures
        r.deep_view() == (if meta@.len() == 0 {
            None
        } else {
            Some(meta@)
        }),
        r.deep_view() == meta_of_request(meta@),
{
    if meta.len() == 0 {
        None
    } else {
        Some(meta)
    }
}

/// The name of a span.
pub open spec fn span_name(method: Seq<char>, target: Option<Seq<char>>) -> Seq<char> {
    match target {
        Some(target) => method + " "@ + target,
        None => method,
    }
}

/// The trace context that `_meta` holds: the text values under the given names.
pub open spec fn meta_context(meta: Option<Fields>, names: Seq<Seq<char>>) -> HeadersView
    decreases names.len(),
{
    if meta is None || names.len() == 0 {
        Seq::empty()
    } else {
        let front = meta_context(meta, names.drop_last());
        match lookup(meta->0, names.last()) {
            Some(JsonView::Str(value)) => with_pair(front, names.last(), value),
            _ => front,
        }
    }
}

/// The trace context that `_meta` holds.
fn context_from_meta(meta: Option<&Meta>, names: &Vec<String>) -> (r: Headers)
    ensures
        r.deep_view() == meta_context(meta.deep_view(), names.deep_view()),
{
    let ghost all = names.deep_view();
    let mut out: Headers = Vec::new();
    assert(out.deep_view() =~= Seq::empty());
    let meta = match meta {
        None => {
            return out;
        },
        Some(m) => m,
    };
    let mut i: usize = 0;
    assert(all.take(0) =~= Seq::empty());
    while i < names.len()
        invariant
            i <= names.len(),
            all == names.deep_view(),
            out.deep_view() == meta_context(Some(meta@), all.take(i as int)),
        decreases names.len() - i,
    {
        assert(all.take(i + 1).drop_last() =~= all.take(i as int));
        assert(all.take(i + 1).last() == names@[i as int]@);
        match meta.get(names[i].as_str()) {
            Some(Json::Str(value)) => {
                out = set_pair(out, names[i].clone(), value.clone());
            },
            _ => {},
        }
        i += 1;
    }
    assert(all.take(i as int) =~= all);
    out
}

/// What a span is started with.
pub struct SpanPlan {
    pub name: String,
    pub attributes: Attributes,
    /// The trace context of the request.
    pub context: Headers,
    /// Whether that context names a parent span.
    pub has_parent: bool,
}

/// What a `SpanPlan` stands for.
pub struct SpanPlanView {
    pub name: Seq<char>,
    pub attributes: AttributesView,
    pub context: HeadersView,
    pub has_parent: bool,
}

impl DeepView for SpanPlan {
    type V = SpanPlanView;

    open spec fn deep_view(&self) -> SpanPlanView {
        SpanPlanView {
            name: self.name@,
            attributes: self.attributes.deep_view(),
            context: self.context.deep_view(),
            has_parent: self.has_parent,
        }
    }
}

/// What the span of a request is started with.
pub open spec fn span_plan(
    method: Seq<char>,
    target: Option<Seq<char>>,
    attributes: AttributesView,
    meta: Option<Fields>,
    names: Seq<Seq<char>>,
) -> SpanPlanView {
    let context = meta_context(meta, names);
    SpanPlanView {
        name: span_name(method, target),
        attributes: attributes.push(text_attribute("mcp.method.name"@, method)),
        context,
        has_parent: lookup(context, "traceparent"@) is Some,
    }
}

/// Plans the span of a request. `names` are those of the well-known tracing keys.
pub fn plan_mcp_span(
    method: &str,
    target: Option<&str>,
    attributes: Attributes,
    meta: Option<&Meta>,
    names: &Vec<String>,
) -> (r: SpanPlan)
    ensures
        r.deep_view() == span_plan(
            method@,
            target.deep_view(),
            attributes.deep_view(),
            meta.deep_view(),
            names.deep_view(),
        ),
{
    let name = match target {
        Some(t) => cat3(method, " ", t),
        None => method.to_owned(),
    };
    let context = context_from_meta(meta, names);
    let has_parent = find(&context, "traceparent").is_some();
    let ghost before = attributes.deep_view();
    let mut attributes = attributes;
    attributes.push(attribute("mcp.method.name", method));
    assert(attributes.deep_view() =~= before.push(text_attribute("mcp.method.name"@, method@)));
    SpanPlan { name, attributes, context, has_parent }
}

/// The `traceparent` of a span: version, trace, span and flags, in hexadecimal.
pub open spec fn traceparent_text(trace_id: nat, span_id: nat, flags: nat) -> Seq<char> {
    "00-"@ + hex_text(trace_id, 32) + "-"@ + hex_text(span_id, 16) + "-"@ + hex_text(flags, 2)
}

/// The `traceparent` of a span.
pub fn traceparent(trace_id: u128, span_id: u64, flags: u8) -> (r: String)
    ensures
        r@ == traceparent_text(trace_id as nat, span_id as nat, flags as nat),
{
    let trace = hex(trace_id, 32);
    let span = hex(span_id as u128, 16);
    let flags = hex(flags as u128, 2);
    let text = cat5("00-", trace.as_str(), "-", span.as_str(), "-");
    let mut text = text;
    text.append(flags.as_str());
    text
}

/// The propagation context of a started span: that of the request, with the span as
/// the parent of what follows.
pub fn span_context(context: Headers, trace_id: u128, span_id: u64, flags: u8) -> (r: Headers)
    ensures
        r.deep_view() == with_pair(
            context.deep_view(),
            "traceparent"@,
            traceparent_text(trace_id as nat, span_id as nat, flags as nat),
        ),
{
    set_pair(context, "traceparent".to_owned(), traceparent(trace_id, span_id, flags))
}

/// Whether the span of a call ends with an error status.
pub open spec fn marks_span(result: CallToolResultView) -> bool {
    result.is_error == Some(true)
}

/// Whether the span of a call ends with an error status.
pub fn is_span_error(result: &CallToolResult) -> (r: bool)
    ensures
        r == marks_span(result.deep_view()),
        r <==> result.is_error == Some(true),
{
    match result.is_error {
        Some(failed) => failed,
        None => false,
    }
}

/// How spans are exported.
#[derive(Clone, Copy, Debug, PartialEq, Eq, Structural)]
pub enum OtlpTransport {
    Http,
    Grpc,
}

/// How a protocol's name has spans exported.
pub open spec fn transport_of(protocol: Seq<char>) -> OtlpTransport {
    if protocol == "http/protobuf"@ {
        OtlpTransport::Http
    } else {
        OtlpTransport::Grpc
    }
}

/// How a protocol's name has spans exported, and whether the name is a known one.
pub fn otlp_transport(protocol: &str) -> (r: (OtlpTransport, bool))
    ensures
        r.0 == transport_of(protocol@),
        r.0 == OtlpTransport::Http <==> protocol@ == "http/protobuf"@,
        r.1 == (protocol@ == "http/protobuf"@ || protocol@ == "grpc"@),
{
    if same(protocol, "http/protobuf") {
        (OtlpTransport::Http, true)
    } else {
        (OtlpTransport::Grpc, same(protocol, "grpc"))
    }
}

} // verus!
