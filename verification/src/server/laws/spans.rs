//! What spans are started and ended with.

use vstd::prelude::*;

use crate::json::{Fields, JsonView};
use crate::mcp::CallToolResultView;
use crate::pairs::lookup;
use crate::server::laws::trace_context_comes_from_meta;
use crate::server::span::{
    call_attribute_list, client_attributes, marks_span, meta_of_request, optional_attribute, request_attribute_list,
    span_plan, text_attribute, traceparent_text, transport_of, AttributeValueView, AttributesView, OtlpTransport,
    RequestOriginView,
};
use crate::text::hex_text;
use crate::text::laws::{hex_digits_stand_for_numbers, hex_range, is_numeral, numeral_value};

verus! {

/// The names of the attributes of a request are all different.
proof fn attribute_names_differ()
    ensures
        "jsonrpc.request.id"@ != "network.transport"@,
        "jsonrpc.request.id"@ != "network.protocol.name"@,
        "jsonrpc.request.id"@ != "mcp.session.id"@,
        "jsonrpc.request.id"@ != "mcp.protocol.version"@,
        "jsonrpc.request.id"@ != "client.address"@,
        "jsonrpc.request.id"@ != "client.port"@,
        "network.transport"@ != "network.protocol.name"@,
        "network.transport"@ != "mcp.session.id"@,
        "network.transport"@ != "mcp.protocol.version"@,
        "network.transport"@ != "client.address"@,
        "network.transport"@ != "client.port"@,
        "network.protocol.name"@ != "mcp.session.id"@,
        "network.protocol.name"@ != "mcp.protocol.version"@,
        "network.protocol.name"@ != "client.address"@,
        "network.protocol.name"@ != "client.port"@,
        "mcp.session.id"@ != "mcp.protocol.version"@,
        "mcp.session.id"@ != "client.address"@,
        "mcp.session.id"@ != "client.port"@,
        "mcp.protocol.version"@ != "client.address"@,
        "mcp.protocol.version"@ != "client.port"@,
        "client.address"@ != "client.port"@,
{
    reveal_strlit("jsonrpc.request.id");
    reveal_strlit("network.transport");
    reveal_strlit("network.protocol.name");
    reveal_strlit("mcp.session.id");
    reveal_strlit("mcp.protocol.version");
    reveal_strlit("client.address");
    reveal_strlit("client.port");
    assert("jsonrpc.request.id"@.len() == 18);
    assert("network.transport"@.len() == 17);
    assert("network.protocol.name"@.len() == 21);
    assert("mcp.session.id"@.len() == 14 && "mcp.session.id"@[0] == 'm');
    assert("mcp.protocol.version"@.len() == 20);
    assert("client.address"@.len() == 14 && "client.address"@[0] == 'c');
    assert("client.port"@.len() == 11);
}

/// Whether a text is an attribute, or there is neither.
pub open spec fn is_text_attribute(attributes: AttributesView, name: Seq<char>, text: Option<Seq<char>>) -> bool {
    match text {
        Some(s) => lookup(attributes, name) == Some(AttributeValueView::Text(s)),
        None => lookup(attributes, name) is None,
    }
}

/// Looking past a first attribute with another name.
proof fn lookup_past_the_first(attributes: AttributesView, name: Seq<char>)
    requires
        attributes.len() > 0,
    ensures
        lookup(attributes, name) == (if attributes[0].0 == name {
            Some(attributes[0].1)
        } else {
            lookup(attributes.drop_first(), name)
        }),
{
}

/// What is found in two lists of attributes, one after the other.
proof fn lookup_in_either(front: AttributesView, back: AttributesView, name: Seq<char>)
    ensures
        lookup(front + back, name) == (if lookup(front, name) is Some {
            lookup(front, name)
        } else {
            lookup(back, name)
        }),
    decreases front.len(),
{
    if front.len() == 0 {
        assert(front + back =~= back);
    } else {
        assert((front + back).drop_first() =~= front.drop_first() + back);
        lookup_in_either(front.drop_first(), back, name);
    }
}

/// The attributes of a request tell its id, that it came over HTTP and TCP, and of its session,
/// protocol version and client what is known, and no more.
pub proof fn requests_are_told_by_their_attributes(id: Seq<char>, origin: Option<RequestOriginView>)
    ensures
        ({
            let attributes = request_attribute_list(id, origin);
            let known = |text: Option<Seq<char>>| if origin is Some { text } else { None };
            &&& lookup(attributes, "jsonrpc.request.id"@) == Some(AttributeValueView::Text(id))
            &&& lookup(attributes, "network.transport"@) == Some(AttributeValueView::Text("tcp"@))
            &&& lookup(attributes, "network.protocol.name"@) == Some(AttributeValueView::Text("http"@))
            &&& is_text_attribute(attributes, "mcp.session.id"@, known(origin->0.session_id))
            &&& is_text_attribute(attributes, "mcp.protocol.version"@, known(origin->0.protocol_version))
            &&& match origin {
                Some(RequestOriginView { client: Some((address, port)), .. }) => {
                    &&& lookup(attributes, "client.address"@) == Some(AttributeValueView::Text(address))
                    &&& lookup(attributes, "client.port"@) == Some(AttributeValueView::Int(port as int))
                },
                _ => lookup(attributes, "client.address"@) is None && lookup(attributes, "client.port"@) is None,
            }
            &&& attributes.len() == 3 + (if known(origin->0.session_id) is Some { 1int } else { 0 }) + (if known(
                origin->0.protocol_version,
            ) is Some { 1int } else { 0 }) + (if origin is Some && origin->0.client is Some { 2int } else { 0 })
        }),
{
    attribute_names_differ();
    let common = seq![
        text_attribute("jsonrpc.request.id"@, id),
        text_attribute("network.transport"@, "tcp"@),
        text_attribute("network.protocol.name"@, "http"@),
    ];
    let attributes = request_attribute_list(id, origin);
    assert forall|name: Seq<char>| #[trigger] lookup(common, name) == (if name == "jsonrpc.request.id"@ {
        Some(AttributeValueView::Text(id))
    } else if name == "network.transport"@ {
        Some(AttributeValueView::Text("tcp"@))
    } else if name == "network.protocol.name"@ {
        Some(AttributeValueView::Text("http"@))
    } else {
        None
    }) by {
        lookup_past_the_first(common, name);
        lookup_past_the_first(common.drop_first(), name);
        lookup_past_the_first(common.drop_first().drop_first(), name);
        assert(common.drop_first().drop_first().drop_first() =~= Seq::empty());
        assert(lookup(Seq::<(Seq<char>, AttributeValueView)>::empty(), name) is None);
    }
    if let Some(o) = origin {
        let session = optional_attribute("mcp.session.id"@, o.session_id);
        let version = optional_attribute("mcp.protocol.version"@, o.protocol_version);
        let client = client_attributes(o.client);
        assert(attributes == common + session + version + client);
        assert forall|name: Seq<char>| #[trigger] lookup(session, name) == (if name == "mcp.session.id"@
            && o.session_id is Some {
            Some(AttributeValueView::Text(o.session_id->0))
        } else {
            None
        }) by {
            if o.session_id is Some {
                lookup_past_the_first(session, name);
                assert(session.drop_first() =~= Seq::empty());
            }
            assert(lookup(Seq::<(Seq<char>, AttributeValueView)>::empty(), name) is None);
        }
        assert forall|name: Seq<char>| #[trigger] lookup(version, name) == (if name == "mcp.protocol.version"@
            && o.protocol_version is Some {
            Some(AttributeValueView::Text(o.protocol_version->0))
        } else {
            None
        }) by {
            if o.protocol_version is Some {
                lookup_past_the_first(version, name);
                assert(version.drop_first() =~= Seq::empty());
            }
            assert(lookup(Seq::<(Seq<char>, AttributeValueView)>::empty(), name) is None);
        }
        assert forall|name: Seq<char>| #[trigger] lookup(client, name) == (if name == "client.address"@
            && o.client is Some {
            Some(AttributeValueView::Text((o.client->0).0))
        } else if name == "client.port"@ && o.client is Some {
            Some(AttributeValueView::Int((o.client->0).1 as int))
        } else {
            None
        }) by {
            if o.client is Some {
                lookup_past_the_first(client, name);
                lookup_past_the_first(client.drop_first(), name);
                assert(client.drop_first().drop_first() =~= Seq::empty());
            }
            assert(lookup(Seq::<(Seq<char>, AttributeValueView)>::empty(), name) is None);
        }
        assert forall|name: Seq<char>| #[trigger] lookup(attributes, name) == (if lookup(common, name) is Some {
            lookup(common, name)
        } else if lookup(session, name) is Some {
            lookup(session, name)
        } else if lookup(version, name) is Some {
            lookup(version, name)
        } else {
            lookup(client, name)
        }) by {
            lookup_in_either(common + session + version, client, name);
            lookup_in_either(common + session, version, name);
            lookup_in_either(common, session, name);
        }
    }
}

/// The attributes of a call tell that a tool is executed, and which, and then all that is told
/// of the request, in order.
pub proof fn calls_are_told_by_their_attributes(tool_name: Seq<char>, request: AttributesView)
    ensures
        ({
            let attributes = call_attribute_list(tool_name, request);
            &&& lookup(attributes, "gen_ai.operation.name"@) == Some(AttributeValueView::Text("execute_tool"@))
            &&& lookup(attributes, "gen_ai.tool.name"@) == Some(AttributeValueView::Text(tool_name))
            &&& attributes.len() == request.len() + 2
            &&& attributes.skip(2) == request
        }),
{
    reveal_strlit("gen_ai.operation.name");
    reveal_strlit("gen_ai.tool.name");
    assert("gen_ai.operation.name"@.len() != "gen_ai.tool.name"@.len());
    let attributes = call_attribute_list(tool_name, request);
    lookup_past_the_first(attributes, "gen_ai.operation.name"@);
    lookup_past_the_first(attributes, "gen_ai.tool.name"@);
    lookup_past_the_first(attributes.drop_first(), "gen_ai.tool.name"@);
    assert(attributes.skip(2) =~= request);
}

/// A request has its `_meta`, unchanged, if and only if there is anything in it.
pub proof fn requests_have_meta_with_anything_in_it(meta: Fields, key: Seq<char>)
    ensures
        lookup(meta, key) is Some ==> meta_of_request(meta) is Some,
        meta_of_request(meta) is None ==> lookup(meta, key) is None,
        meta_of_request(meta) matches Some(m) ==> m == meta && meta.len() > 0,
{
}

/// A span is named after the method and its target, has the given attributes and then the
/// method, and continues a trace if and only if the request's `_meta` has a text under
/// `traceparent` and that is one of the tracing keys.
pub proof fn spans_are_planned_from_the_request(
    method: Seq<char>,
    target: Option<Seq<char>>,
    attributes: AttributesView,
    meta: Option<Fields>,
    names: Seq<Seq<char>>,
    key: Seq<char>,
)
    ensures
        ({
            let plan = span_plan(method, target, attributes, meta, names);
            &&& target matches Some(t) ==> plan.name == method + " "@ + t
            &&& target is None ==> plan.name == method
            &&& plan.attributes.len() == attributes.len() + 1
            &&& forall|i: int| 0 <= i < attributes.len() ==> plan.attributes[i] == #[trigger] attributes[i]
            &&& plan.attributes.last() == ("mcp.method.name"@, AttributeValueView::Text(method))
            &&& lookup(plan.context, key) == (match meta {
                Some(m) => match lookup(m, key) {
                    Some(JsonView::Str(value)) if names.contains(key) => Some(value),
                    _ => None,
                },
                None => None,
            })
            &&& plan.has_parent <==> meta is Some && names.contains("traceparent"@) && (lookup(
                meta->0,
                "traceparent"@,
            ) matches Some(JsonView::Str(_)))
        }),
{
    if let Some(m) = meta {
        trace_context_comes_from_meta(m, names, key);
        trace_context_comes_from_meta(m, names, "traceparent"@);
    } else {
        assert(lookup(Seq::<(Seq<char>, Seq<char>)>::empty(), key) is None);
        assert(lookup(Seq::<(Seq<char>, Seq<char>)>::empty(), "traceparent"@) is None);
    }
}

/// A span ends with an error status if and only if the result is marked as an error.
pub proof fn spans_are_marked_for_errors(result: CallToolResultView)
    ensures
        marks_span(result) <==> (result.is_error is Some && result.is_error->0),
{
}

/// Spans are exported over HTTP if and only if the protocol is named `http/protobuf`.
pub proof fn http_is_used_where_it_is_named(protocol: Seq<char>)
    ensures
        transport_of(protocol) == OtlpTransport::Http <==> protocol == "http/protobuf"@,
{
}

/// A `traceparent` is that of version 00, and holds the ids and the flags in hexadecimal
/// digits: 32 of the trace, then 16 of the span, then two of the flags.
pub proof fn traceparents_hold_the_ids(trace_id: u128, span_id: u64, flags: u8)
    ensures
        ({
            let text = traceparent_text(trace_id as nat, span_id as nat, flags as nat);
            &&& text.len() == 55
            &&& text.take(3) == "00-"@
            &&& is_numeral(text.subrange(3, 35), 16) && numeral_value(text.subrange(3, 35), 16) == trace_id
            &&& is_numeral(text.subrange(36, 52), 16) && numeral_value(text.subrange(36, 52), 16) == span_id
            &&& is_numeral(text.subrange(53, 55), 16) && numeral_value(text.subrange(53, 55), 16) == flags
        }),
{
    reveal_strlit("00-");
    reveal_strlit("-");
    reveal_with_fuel(hex_range, 33);
    hex_digits_stand_for_numbers(trace_id as nat, 32);
    hex_digits_stand_for_numbers(span_id as nat, 16);
    hex_digits_stand_for_numbers(flags as nat, 2);
    let text = traceparent_text(trace_id as nat, span_id as nat, flags as nat);
    assert(text.take(3) =~= "00-"@);
    assert(text.subrange(3, 35) =~= hex_text(trace_id as nat, 32));
    assert(text.subrange(36, 52) =~= hex_text(span_id as nat, 16));
    assert(text.subrange(53, 55) =~= hex_text(flags as nat, 2));
}

} // verus!
