//! What a definition says: for each property the value that it stands for, or
//! what is wrong with it.

use vstd::prelude::*;

use crate::config::model::{
    AnswersView, HaltView, MappingConfigView, McpServerConfigView, PropagatedHeaderView, PropagationDirection,
    QuestionView, ReadingView, ToolConfigView, ToolTargetView,
};
use crate::json::{written, Fields, JsonView, NumberView};
use crate::meta_key::key_verdict;
use crate::pairs::lookup;

verus! {

/// How a message about a server begins.
pub open spec fn server_context(server: Seq<char>) -> Seq<char> {
    "Server '"@ + server + "':"@
}

/// How a message about a tool begins.
pub open spec fn tool_context(server: Seq<char>, tool: Seq<char>) -> Seq<char> {
    "Server '"@ + server + "': tool '"@ + tool + "'"@
}

/// That a property is of the wrong kind, with the text of what it is.
pub open spec fn wrong_kind_text(context: Seq<char>, key: Seq<char>, kind: Seq<char>, got: Seq<char>) -> Seq<char> {
    context + " '"@ + key + "' must be "@ + kind + ", got "@ + got
}

/// That a property is of the wrong kind.
pub open spec fn wrong_kind(context: Seq<char>, key: Seq<char>, kind: Seq<char>, got: JsonView) -> Seq<char> {
    wrong_kind_text(context, key, kind, written(got))
}

/// An optional property that holds text.
pub open spec fn text_property(context: Seq<char>, props: Fields, key: Seq<char>) -> Result<
    Option<Seq<char>>,
    Seq<char>,
> {
    match lookup(props, key) {
        None => Ok(None),
        Some(JsonView::Str(s)) => Ok(Some(s)),
        Some(got) => Err(wrong_kind(context, key, "a string"@, got)),
    }
}

/// An optional property that holds an object.
pub open spec fn block_property(context: Seq<char>, props: Fields, key: Seq<char>) -> Result<
    Option<Fields>,
    Seq<char>,
> {
    match lookup(props, key) {
        None => Ok(None),
        Some(JsonView::Object(fields)) => Ok(Some(fields)),
        Some(got) => Err(wrong_kind(context, key, "an object"@, got)),
    }
}

/// The port, which is required.
pub open spec fn port_property(server: Seq<char>, props: Fields) -> Result<u16, Seq<char>> {
    match lookup(props, "port"@) {
        None => Err("Server '"@ + server + "' missing required 'port' field"@),
        Some(JsonView::Number(NumberView::PosInt(n))) if n <= u16::MAX => Ok(n as u16),
        Some(JsonView::Number(_)) => Err(server_context(server) + " 'port' must be a valid port number"@),
        Some(got) => Err(wrong_kind(server_context(server), "port"@, "a number"@, got)),
    }
}

/// Items that have to be texts; `complaint` is what is said of the first that is
/// not.
pub open spec fn texts_of(complaint: Seq<char>, items: Seq<JsonView>) -> Result<Seq<Seq<char>>, Seq<char>>
    decreases items.len(),
{
    if items.len() == 0 {
        Ok(Seq::empty())
    } else {
        match items[0] {
            JsonView::Str(s) => match texts_of(complaint, items.drop_first()) {
                Ok(rest) => Ok(seq![s] + rest),
                Err(e) => Err(e),
            },
            got => Err(complaint + written(got)),
        }
    }
}

/// The allowed origins: a list, or `*` for any.
pub open spec fn origins_property(server: Seq<char>, props: Fields) -> Result<Option<Seq<Seq<char>>>, Seq<char>> {
    match lookup(props, "allowed-origins"@) {
        None => Ok(None),
        Some(JsonView::Array(items)) => match texts_of(
            server_context(server) + " 'allowed-origins' items must be strings, got "@,
            items,
        ) {
            Ok(origins) => Ok(Some(origins)),
            Err(e) => Err(e),
        },
        Some(JsonView::Str(s)) if s == "*"@ => Ok(Some(seq!["*"@])),
        Some(got) => Err(wrong_kind(server_context(server), "allowed-origins"@, "an array or '*'"@, got)),
    }
}

/// The component selector, once the runtime has accepted it.
pub open spec fn selector_property(server: Seq<char>, props: Fields, answers: AnswersView) -> Result<
    Option<Seq<char>>,
    HaltView,
> {
    match text_property(server_context(server), props, "component-selector"@) {
        Err(e) => Err(HaltView::Error(e)),
        Ok(None) => Ok(None),
        Ok(Some(s)) => match lookup(answers.selectors, s) {
            None => Err(HaltView::Ask(QuestionView::Selector { expression: s })),
            Some(None) => Ok(Some(s)),
            Some(Some(e)) => Err(
                HaltView::Error(server_context(server) + " invalid component-selector '"@ + s + "': "@ + e),
            ),
        },
    }
}

/// A mapping block that the runtime has to accept. `given` holds its answers by
/// tool, and `question` is what to ask it.
pub open spec fn accepted_block(
    context: Seq<char>,
    tool: Seq<char>,
    props: Fields,
    key: Seq<char>,
    given: Seq<(Seq<char>, Option<Seq<char>>)>,
    question: spec_fn(Fields) -> QuestionView,
) -> Result<Option<Fields>, HaltView> {
    match block_property(context, props, key) {
        Err(e) => Err(HaltView::Error(e)),
        Ok(None) => Ok(None),
        Ok(Some(block)) => match lookup(given, tool) {
            None => Err(HaltView::Ask(question(block))),
            Some(None) => Ok(Some(block)),
            Some(Some(e)) => Err(HaltView::Error(context + " '"@ + key + "': "@ + e)),
        },
    }
}

/// The parameter encoding, once the runtime has accepted it.
pub open spec fn encoding_property(context: Seq<char>, tool: Seq<char>, props: Fields, answers: AnswersView) -> Result<
    Option<Fields>,
    HaltView,
> {
    accepted_block(
        context,
        tool,
        props,
        "param-encoding"@,
        answers.param_encodings,
        |block: Fields| QuestionView::ParamEncoding { tool, block },
    )
}

/// The result decoding, once the runtime has accepted it.
pub open spec fn decoding_property(context: Seq<char>, tool: Seq<char>, props: Fields, answers: AnswersView) -> Result<
    Option<Fields>,
    HaltView,
> {
    accepted_block(
        context,
        tool,
        props,
        "result-decoding"@,
        answers.result_decodings,
        |block: Fields| QuestionView::ResultDecoding { tool, block },
    )
}

/// The four mapping blocks of a tool.
pub open spec fn mapping_properties(context: Seq<char>, tool: Seq<char>, props: Fields, answers: AnswersView) -> Result<
    MappingConfigView,
    HaltView,
> {
    match block_property(context, props, "param-mapping"@) {
        Err(e) => Err(HaltView::Error(e)),
        Ok(param_mapping) => match encoding_property(context, tool, props, answers) {
            Err(h) => Err(h),
            Ok(param_encoding) => match decoding_property(context, tool, props, answers) {
                Err(h) => Err(h),
                Ok(result_decoding) => Ok(
                    MappingConfigView {
                        param_mapping,
                        param_encoding,
                        result_decoding,
                        result_mapping: lookup(props, "result-mapping"@),
                    },
                ),
            },
        },
    }
}

/// Whether none of the mapping blocks is there.
pub open spec fn no_mapping(mapping: MappingConfigView) -> bool {
    &&& mapping.param_mapping is None
    &&& mapping.param_encoding is None
    &&& mapping.result_decoding is None
    &&& mapping.result_mapping is None
}

/// What backs a tool: a component's function or a channel, never both.
pub open spec fn target_of(
    server: Seq<char>,
    tool: Seq<char>,
    component: Option<Seq<char>>,
    function: Option<Seq<char>>,
    channel: Option<Seq<char>>,
    mapping: MappingConfigView,
    input_schema: Option<JsonView>,
    output_schema: Option<JsonView>,
) -> Result<ToolTargetView, Seq<char>> {
    let context = tool_context(server, tool);
    match (component, function, channel) {
        (Some(component), Some(function), None) => Ok(
            ToolTargetView::Component { component, function, mapping, input_schema, output_schema },
        ),
        (None, None, Some(channel)) => if !no_mapping(mapping) {
            Err(
                context
                    + " has 'param-mapping', 'param-encoding', 'result-decoding', or 'result-mapping' but those apply to component-backed tools only; for channel-backed tools, subscriptions own any mappings"@,
            )
        } else {
            match input_schema {
                Some(input_schema) => Ok(ToolTargetView::Channel { channel, input_schema, output_schema }),
                None => Err("Server '"@ + server + "': channel-backed tool '"@ + tool + "' requires 'input-schema'"@),
            }
        },
        (_, _, Some(_)) => Err(context + " cannot have both 'component'/'function' and 'channel'"@),
        (Some(_), None, None) => Err(context + " has 'component' but missing 'function'"@),
        (None, Some(_), None) => Err(context + " has 'function' but missing 'component'"@),
        (None, None, None) => Err(context + " must have either 'component'/'function' or 'channel'"@),
    }
}

/// The side of a propagation entry that is an MCP `_meta` key.
pub open spec fn meta_side(direction: PropagationDirection, header: PropagatedHeaderView) -> Seq<char> {
    match direction {
        PropagationDirection::Inbound => header.source,
        PropagationDirection::Outbound => header.target,
    }
}

/// What one propagation entry names, once the runtime has read it and its `_meta`
/// side is a `_meta` key.
pub open spec fn propagation_entry(
    context: Seq<char>,
    key: Seq<char>,
    direction: PropagationDirection,
    entry: Seq<char>,
    answers: AnswersView,
) -> Result<PropagatedHeaderView, HaltView> {
    match lookup(answers.propagations, entry) {
        None => Err(HaltView::Ask(QuestionView::Propagation { entry })),
        Some(ReadingView::Refused(e)) => Err(
            HaltView::Error(context + " '"@ + key + "' entry '"@ + entry + "': "@ + e),
        ),
        Some(ReadingView::Header(header)) => match key_verdict(meta_side(direction, header)) {
            Ok(_) => Ok(header),
            Err(e) => Err(
                HaltView::Error(
                    context + " '"@ + key + "' entry '"@ + entry + "': '"@ + meta_side(direction, header)
                        + "' is not a valid MCP _meta key: "@ + e,
                ),
            ),
        },
    }
}

/// What a list of propagation entries names, up to the first that stops the
/// reading.
pub open spec fn propagation_entries(
    context: Seq<char>,
    key: Seq<char>,
    direction: PropagationDirection,
    entries: Seq<Seq<char>>,
    answers: AnswersView,
) -> Result<Seq<PropagatedHeaderView>, HaltView>
    decreases entries.len(),
{
    if entries.len() == 0 {
        Ok(Seq::empty())
    } else {
        match propagation_entry(context, key, direction, entries[0], answers) {
            Err(h) => Err(h),
            Ok(header) => match propagation_entries(context, key, direction, entries.drop_first(), answers) {
                Err(h) => Err(h),
                Ok(rest) => Ok(seq![header] + rest),
            },
        }
    }
}

/// A property that lists propagation entries.
pub open spec fn propagation_property(
    context: Seq<char>,
    key: Seq<char>,
    direction: PropagationDirection,
    props: Fields,
    answers: AnswersView,
) -> Result<Seq<PropagatedHeaderView>, HaltView> {
    match lookup(props, key) {
        None => Ok(Seq::empty()),
        Some(JsonView::Array(items)) => match texts_of(
            context + " '"@ + key + "' entries must be strings, got "@,
            items,
        ) {
            Err(e) => Err(HaltView::Error(e)),
            Ok(entries) => propagation_entries(context, key, direction, entries, answers),
        },
        Some(got) => Err(HaltView::Error(wrong_kind(context, key, "an array of strings"@, got))),
    }
}

/// The headers that a tool's result mapping writes.
pub open spec fn mapped_headers(target: ToolTargetView) -> Fields {
    match target {
        ToolTargetView::Component {
            mapping: MappingConfigView { result_mapping: Some(JsonView::Object(mapping)), .. },
            ..
        } => match lookup(mapping, "headers"@) {
            Some(JsonView::Object(headers)) => headers,
            _ => Seq::empty(),
        },
        _ => Seq::empty(),
    }
}

/// Whether a propagation entry writes over a mapped header from another source.
pub open spec fn overrides(headers: Fields, entry: PropagatedHeaderView) -> bool {
    lookup(headers, entry.target) is Some && entry.source != entry.target
}

/// The first of the entries that writes over a mapped header.
pub open spec fn first_override(headers: Fields, entries: Seq<PropagatedHeaderView>) -> Option<PropagatedHeaderView>
    decreases entries.len(),
{
    if entries.len() == 0 {
        None
    } else if overrides(headers, entries[0]) {
        Some(entries[0])
    } else {
        first_override(headers, entries.drop_first())
    }
}

/// The keys of the members that are not in a list.
pub open spec fn unknown_keys(fields: Fields, known: Seq<Seq<char>>) -> Seq<Seq<char>>
    decreases fields.len(),
{
    if fields.len() == 0 {
        Seq::empty()
    } else if known.contains(fields[0].0) {
        unknown_keys(fields.drop_first(), known)
    } else {
        seq![fields[0].0] + unknown_keys(fields.drop_first(), known)
    }
}

/// The properties that a tool may have.
pub open spec fn tool_keys() -> Seq<Seq<char>> {
    seq![
        "component"@,
        "function"@,
        "channel"@,
        "input-schema"@,
        "output-schema"@,
        "param-mapping"@,
        "param-encoding"@,
        "result-decoding"@,
        "result-mapping"@,
        "description"@,
        "propagate-request-meta"@,
        "propagate-result-meta"@,
    ]
}

/// The properties that a server may have.
pub open spec fn server_keys() -> Seq<Seq<char>> {
    seq![
        "type"@,
        "host"@,
        "port"@,
        "allowed-origins"@,
        "component-selector"@,
        "otlp-endpoint"@,
        "otlp-protocol"@,
        "tool"@,
    ]
}

/// A text as Rust's `Debug` writes it: in quotes, with escapes.
pub uninterp spec fn quoted(text: Seq<char>) -> Seq<char>;

/// Texts, separated by commas.
pub open spec fn comma_separated(texts: Seq<Seq<char>>) -> Seq<char>
    decreases texts.len(),
{
    if texts.len() == 0 {
        Seq::empty()
    } else if texts.len() == 1 {
        texts[0]
    } else {
        comma_separated(texts.drop_last()) + ", "@ + texts.last()
    }
}

/// A list of texts, in brackets.
pub open spec fn bracketed(texts: Seq<Seq<char>>) -> Seq<char> {
    "["@ + comma_separated(texts) + "]"@
}

/// A list of texts as Rust's `Debug` writes it.
pub open spec fn quoted_list(texts: Seq<Seq<char>>) -> Seq<char> {
    bracketed(Seq::new(texts.len(), |i: int| quoted(texts[i])))
}

/// What backs a tool, from its properties.
pub open spec fn target_properties(server: Seq<char>, tool: Seq<char>, props: Fields, answers: AnswersView) -> Result<
    ToolTargetView,
    HaltView,
> {
    let context = tool_context(server, tool);
    match text_property(context, props, "component"@) {
        Err(e) => Err(HaltView::Error(e)),
        Ok(component) => match text_property(context, props, "function"@) {
            Err(e) => Err(HaltView::Error(e)),
            Ok(function) => match text_property(context, props, "channel"@) {
                Err(e) => Err(HaltView::Error(e)),
                Ok(channel) => match mapping_properties(context, tool, props, answers) {
                    Err(h) => Err(h),
                    Ok(mapping) => match target_of(
                        server,
                        tool,
                        component,
                        function,
                        channel,
                        mapping,
                        lookup(props, "input-schema"@),
                        lookup(props, "output-schema"@),
                    ) {
                        Err(e) => Err(HaltView::Error(e)),
                        Ok(target) => Ok(target),
                    },
                },
            },
        },
    }
}

/// A tool whose parts have been read, if they go together and no property is
/// left over.
pub open spec fn assembled_tool(server: Seq<char>, tool: ToolConfigView, props: Fields) -> Result<
    ToolConfigView,
    Seq<char>,
> {
    let context = tool_context(server, tool.name);
    match first_override(mapped_headers(tool.target), tool.propagate_result_meta) {
        Some(entry) => Err(
            context + ": '"@ + entry.target
                + "' is written by 'result-mapping.headers' but overridden by 'propagate-result-meta' entry '"@
                + entry.source + " as "@ + entry.target + "'"@,
        ),
        None => if unknown_keys(props, tool_keys()).len() > 0 {
            Err(context + " has unknown properties: "@ + quoted_list(unknown_keys(props, tool_keys())))
        } else {
            Ok(tool)
        },
    }
}

/// A tool, from its properties.
pub open spec fn tool_properties(server: Seq<char>, tool: Seq<char>, props: Fields, answers: AnswersView) -> Result<
    ToolConfigView,
    HaltView,
> {
    let context = tool_context(server, tool);
    match target_properties(server, tool, props, answers) {
        Err(h) => Err(h),
        Ok(target) => match text_property(context, props, "description"@) {
            Err(e) => Err(HaltView::Error(e)),
            Ok(description) => match propagation_property(
                context,
                "propagate-request-meta"@,
                PropagationDirection::Inbound,
                props,
                answers,
            ) {
                Err(h) => Err(h),
                Ok(propagate_request_meta) => match propagation_property(
                    context,
                    "propagate-result-meta"@,
                    PropagationDirection::Outbound,
                    props,
                    answers,
                ) {
                    Err(h) => Err(h),
                    Ok(propagate_result_meta) => match assembled_tool(
                        server,
                        ToolConfigView { name: tool, target, description, propagate_request_meta, propagate_result_meta },
                        props,
                    ) {
                        Err(e) => Err(HaltView::Error(e)),
                        Ok(t) => Ok(t),
                    },
                },
            },
        },
    }
}

/// A tool, from its name and value in the table of tools.
pub open spec fn tool_entry(server: Seq<char>, entry: (Seq<char>, JsonView), answers: AnswersView) -> Result<
    ToolConfigView,
    HaltView,
> {
    match entry.1 {
        JsonView::Object(props) => tool_properties(server, entry.0, props, answers),
        got => Err(HaltView::Error(tool_context(server, entry.0) + " must be a table, got "@ + written(got))),
    }
}

/// The tools of a table, up to the first that stops the reading.
pub open spec fn tool_table(server: Seq<char>, table: Fields, answers: AnswersView) -> Result<
    Seq<ToolConfigView>,
    HaltView,
>
    decreases table.len(),
{
    if table.len() == 0 {
        Ok(Seq::empty())
    } else {
        match tool_entry(server, table[0], answers) {
            Err(h) => Err(h),
            Ok(tool) => match tool_table(server, table.drop_first(), answers) {
                Err(h) => Err(h),
                Ok(rest) => Ok(seq![tool] + rest),
            },
        }
    }
}

/// The tools of a server.
pub open spec fn tools_property(server: Seq<char>, props: Fields, answers: AnswersView) -> Result<
    Seq<ToolConfigView>,
    HaltView,
> {
    match lookup(props, "tool"@) {
        None => Ok(Seq::empty()),
        Some(JsonView::Object(table)) => tool_table(server, table, answers),
        Some(got) => Err(HaltView::Error(wrong_kind(server_context(server), "tool"@, "a table"@, got))),
    }
}

/// A value, or the one to take where there is none.
pub open spec fn or_default(value: Option<Seq<char>>, default: Seq<char>) -> Seq<char> {
    match value {
        Some(v) => v,
        None => default,
    }
}

/// A server whose parts have been read, if it exposes anything and no property is
/// left over.
pub open spec fn assembled_server(server: McpServerConfigView, props: Fields) -> Result<McpServerConfigView, Seq<char>> {
    if server.component_selector is None && server.tools.len() == 0 {
        Err(
            "Server '"@ + server.name
                + "' has no tools and no component-selector. At least one must be specified."@,
        )
    } else if unknown_keys(props, server_keys()).len() > 0 {
        Err("Server '"@ + server.name + "' has unknown properties: "@ + quoted_list(unknown_keys(props, server_keys())))
    } else {
        Ok(server)
    }
}

/// A server, from its properties.
pub open spec fn server_properties(name: Seq<char>, props: Fields, answers: AnswersView) -> Result<
    McpServerConfigView,
    HaltView,
> {
    let context = server_context(name);
    match port_property(name, props) {
        Err(e) => Err(HaltView::Error(e)),
        Ok(port) => match text_property(context, props, "host"@) {
            Err(e) => Err(HaltView::Error(e)),
            Ok(host) => match origins_property(name, props) {
                Err(e) => Err(HaltView::Error(e)),
                Ok(allowed_origins) => match selector_property(name, props, answers) {
                    Err(h) => Err(h),
                    Ok(component_selector) => match text_property(context, props, "otlp-endpoint"@) {
                        Err(e) => Err(HaltView::Error(e)),
                        Ok(otlp_endpoint) => match text_property(context, props, "otlp-protocol"@) {
                            Err(e) => Err(HaltView::Error(e)),
                            Ok(otlp_protocol) => match tools_property(name, props, answers) {
                                Err(h) => Err(h),
                                Ok(tools) => match assembled_server(
                                    McpServerConfigView {
                                        name,
                                        host: or_default(host, "127.0.0.1"@),
                                        port,
                                        allowed_origins,
                                        component_selector,
                                        tools,
                                        otlp_endpoint,
                                        otlp_protocol: or_default(otlp_protocol, "grpc"@),
                                    },
                                    props,
                                ) {
                                    Err(e) => Err(HaltView::Error(e)),
                                    Ok(server) => Ok(server),
                                },
                            },
                        },
                    },
                },
            },
        },
    }
}

/// What a definition in a category stands for: a server, or why it is none.
pub open spec fn definition(category: Seq<char>, name: Seq<char>, props: Fields, answers: AnswersView) -> Result<
    McpServerConfigView,
    HaltView,
> {
    if category == "server"@ {
        server_properties(name, props, answers)
    } else {
        Err(HaltView::Error("McpServerConfigHandler received unexpected category '"@ + category + "'"@))
    }
}

} // verus!
