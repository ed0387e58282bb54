//! Reading a definition.

use vstd::prelude::*;

use crate::config::model::{
    Answers, Halt, HaltView, MappingConfig, McpServerConfig, PropagatedHeader, PropagatedHeaderView,
    PropagationDirection, Question, Reading, ToolConfig, ToolConfigView, ToolTarget,
};
use crate::config::rules::{
    assembled_server, assembled_tool, block_property, bracketed, comma_separated, decoding_property, definition,
    encoding_property, first_override, mapped_headers, mapping_properties, or_default, origins_property, port_property,
    propagation_entries, propagation_entry, propagation_property, quoted, quoted_list, selector_property,
    server_context, server_keys, server_properties, target_of, target_properties, text_property, texts_of, tool_context,
    tool_keys, tool_properties, tool_table, tools_property, unknown_keys, wrong_kind, wrong_kind_text,
};
use crate::json::{array_view, number_as_u64, outcome, Json, JsonObject};
use crate::lists::pushed_item_comes_first;
use crate::meta_key::validate_mcp_meta_key;
use crate::pairs::{find, is_listed, lookup};
use crate::text::{cat2, cat3, cat4, cat5, same};

verus! {

/// `Debug` of `str`, as `format!` writes it: the text that `quoted` names.
#[verifier::external_body]
fn quote(text: &str) -> (r: String)
    ensures
        r@ == quoted(text@),
{
    format!("{:?}", text)
}

/// How a message about a server begins.
fn about_server(server: &str) -> (r: String)
    ensures
        r@ == server_context(server@),
{
    cat3("Server '", server, "':")
}

/// How a message about a tool begins.
fn about_tool(server: &str, tool: &str) -> (r: String)
    ensures
        r@ == tool_context(server@, tool@),
{
    cat5("Server '", server, "': tool '", tool, "'")
}

/// That a property is of the wrong kind, with the text of what it is.
pub fn kind_complaint(context: &str, key: &str, kind: &str, got: &str) -> (r: String)
    ensures
        r@ == wrong_kind_text(context@, key@, kind@, got@),
{
    let front = cat5(context, " '", key, "' must be ", kind);
    cat3(front.as_str(), ", got ", got)
}

/// That a property is of the wrong kind.
fn not_a(context: &str, key: &str, kind: &str, got: &Json) -> (r: String)
    ensures
        r@ == wrong_kind(context@, key@, kind@, got@),
{
    kind_complaint(context, key, kind, got.to_text().as_str())
}

/// Reads an optional property that holds text.
fn read_text(context: &str, props: &JsonObject, key: &str) -> (r: Result<Option<String>, String>)
    ensures
        outcome(r) == text_property(context@, props@, key@),
{
    match props.get(key) {
        None => Ok(None),
        Some(Json::Str(s)) => Ok(Some(s.clone())),
        Some(got) => Err(not_a(context, key, "a string", got)),
    }
}

/// Reads an optional property that holds an object.
fn read_block<'a>(context: &str, props: &'a JsonObject, key: &str) -> (r: Result<Option<&'a JsonObject>, String>)
    ensures
        outcome(r) == block_property(context@, props@, key@),
{
    match props.get(key) {
        None => Ok(None),
        Some(Json::Object(block)) => Ok(Some(block)),
        Some(got) => Err(not_a(context, key, "an object", got)),
    }
}

/// Reads an optional property that holds any value.
fn read_any(props: &JsonObject, key: &str) -> (r: Option<Json>)
    ensures
        r.deep_view() == lookup(props@, key@),
{
    match props.get(key) {
        None => None,
        Some(j) => Some(j.duplicate()),
    }
}

/// Reads the port.
fn read_port(server: &str, props: &JsonObject) -> (r: Result<u16, String>)
    ensures
        outcome(r) == port_property(server@, props@),
{
    match props.get("port") {
        None => Err(cat3("Server '", server, "' missing required 'port' field")),
        Some(Json::Number(n)) => match number_as_u64(n) {
            Some(p) if p <= u16::MAX as u64 => Ok(p as u16),
            _ => Err(cat2(about_server(server).as_str(), " 'port' must be a valid port number")),
        },
        Some(got) => Err(not_a(about_server(server).as_str(), "port", "a number", got)),
    }
}

/// Reads items that have to be texts.
fn read_texts(complaint: &str, items: &Vec<Json>) -> (r: Result<Vec<String>, String>)
    ensures
        outcome(r) == texts_of(complaint@, items.deep_view()),
{
    let ghost all = items.deep_view();
    let mut out: Vec<String> = Vec::new();
    let mut i: usize = 0;
    assert(all.skip(0) == all);
    assert(out.deep_view() == Seq::<Seq<char>>::empty());
    while i < items.len()
        invariant
            i <= items.len(),
            all == items.deep_view(),
            match texts_of(complaint@, all.skip(i as int)) {
                Ok(rest) => texts_of(complaint@, all) == Ok::<Seq<Seq<char>>, Seq<char>>(out.deep_view() + rest),
                Err(e) => texts_of(complaint@, all) == Err::<Seq<Seq<char>>, Seq<char>>(e),
            },
        decreases items.len() - i,
    {
        let ghost rest = all.skip(i as int);
        assert(rest[0] == items@[i as int]@);
        assert(rest.drop_first() == all.skip(i + 1));
        match &items[i] {
            Json::Str(s) => {
                let ghost before = out.deep_view();
                out.push(s.clone());
                proof {
                    assert(out.deep_view() =~= before.push(s@));
                    pushed_item_comes_first(before, s@);
                }
            }
            got => {
                return Err(cat2(complaint, got.to_text().as_str()));
            }
        }
        i += 1;
    }
    assert(out.deep_view() + Seq::<Seq<char>>::empty() =~= out.deep_view());
    Ok(out)
}

/// Reads the allowed origins.
fn read_origins(server: &str, props: &JsonObject) -> (r: Result<Option<Vec<String>>, String>)
    ensures
        outcome(r) == origins_property(server@, props@),
{
    match props.get("allowed-origins") {
        None => Ok(None),
        Some(Json::Array(items)) => {
            let complaint = cat2(
                about_server(server).as_str(),
                " 'allowed-origins' items must be strings, got ",
            );
            proof {
                array_view(*items);
            }
            match read_texts(complaint.as_str(), items) {
                Ok(origins) => Ok(Some(origins)),
                Err(e) => Err(e),
            }
        }
        Some(Json::Str(s)) if same(s.as_str(), "*") => {
            let mut any: Vec<String> = Vec::new();
            any.push("*".to_owned());
            assert(any.deep_view() =~= seq!["*"@]);
            Ok(Some(any))
        }
        Some(got) => Err(not_a(about_server(server).as_str(), "allowed-origins", "an array or '*'", got)),
    }
}

/// Reads the component selector.
fn read_selector(server: &str, props: &JsonObject, answers: &Answers) -> (r: Result<Option<String>, Halt>)
    ensures
        outcome(r) == selector_property(server@, props@, answers.deep_view()),
{
    let context = about_server(server);
    match read_text(context.as_str(), props, "component-selector") {
        Err(e) => Err(Halt::Error(e)),
        Ok(None) => Ok(None),
        Ok(Some(s)) => match find(&answers.selectors, s.as_str()) {
            None => Err(Halt::Ask(Question::Selector { expression: s })),
            Some(None) => Ok(Some(s)),
            Some(Some(e)) => Err(
                Halt::Error(
                    cat5(context.as_str(), " invalid component-selector '", s.as_str(), "': ", e.as_str()),
                ),
            ),
        },
    }
}

/// Reads the parameter encoding.
fn read_encoding(context: &str, tool: &str, props: &JsonObject, answers: &Answers) -> (r: Result<
    Option<JsonObject>,
    Halt,
>)
    ensures
        outcome(r) == encoding_property(context@, tool@, props@, answers.deep_view()),
{
    match read_block(context, props, "param-encoding") {
        Err(e) => Err(Halt::Error(e)),
        Ok(None) => Ok(None),
        Ok(Some(block)) => match find(&answers.param_encodings, tool) {
            None => Err(Halt::Ask(Question::ParamEncoding { tool: tool.to_owned(), block: block.duplicate() })),
            Some(None) => Ok(Some(block.duplicate())),
            Some(Some(e)) => Err(Halt::Error(cat5(context, " '", "param-encoding", "': ", e.as_str()))),
        },
    }
}

/// Reads the result decoding.
fn read_decoding(context: &str, tool: &str, props: &JsonObject, answers: &Answers) -> (r: Result<
    Option<JsonObject>,
    Halt,
>)
    ensures
        outcome(r) == decoding_property(context@, tool@, props@, answers.deep_view()),
{
    match read_block(context, props, "result-decoding") {
        Err(e) => Err(Halt::Error(e)),
        Ok(None) => Ok(None),
        Ok(Some(block)) => match find(&answers.result_decodings, tool) {
            None => Err(Halt::Ask(Question::ResultDecoding { tool: tool.to_owned(), block: block.duplicate() })),
            Some(None) => Ok(Some(block.duplicate())),
            Some(Some(e)) => Err(Halt::Error(cat5(context, " '", "result-decoding", "': ", e.as_str()))),
        },
    }
}

/// Reads the four mapping blocks.
fn read_mapping(context: &str, tool: &str, props: &JsonObject, answers: &Answers) -> (r: Result<MappingConfig, Halt>)
    ensures
        outcome(r) == mapping_properties(context@, tool@, props@, answers.deep_view()),
{
    let param_mapping = match read_block(context, props, "param-mapping") {
        Err(e) => {
            return Err(Halt::Error(e));
        }
        Ok(None) => None,
        Ok(Some(block)) => Some(block.duplicate()),
    };
    let param_encoding = match read_encoding(context, tool, props, answers) {
        Err(h) => {
            return Err(h);
        }
        Ok(block) => block,
    };
    let result_decoding = match read_decoding(context, tool, props, answers) {
        Err(h) => {
            return Err(h);
        }
        Ok(block) => block,
    };
    let result_mapping = read_any(props, "result-mapping");
    Ok(MappingConfig { param_mapping, param_encoding, result_decoding, result_mapping })
}

/// Decides what backs a tool.
fn choose_target(
    server: &str,
    tool: &str,
    component: Option<String>,
    function: Option<String>,
    channel: Option<String>,
    mapping: MappingConfig,
    input_schema: Option<Json>,
    output_schema: Option<Json>,
) -> (r: Result<ToolTarget, String>)
    ensures
        outcome(r) == target_of(
            server@,
            tool@,
            component.deep_view(),
            function.deep_view(),
            channel.deep_view(),
            mapping.deep_view(),
            input_schema.deep_view(),
            output_schema.deep_view(),
        ),
{
    let context = about_tool(server, tool);
    match (component, function, channel) {
        (Some(component), Some(function), None) => Ok(
            ToolTarget::Component { component, function, mapping, input_schema, output_schema },
        ),
        (None, None, Some(channel)) => {
            if mapping.param_mapping.is_some() || mapping.param_encoding.is_some() || mapping.result_decoding.is_some()
                || mapping.result_mapping.is_some() {
                return Err(
                    cat2(
                        context.as_str(),
                        " has 'param-mapping', 'param-encoding', 'result-decoding', or 'result-mapping' but those apply to component-backed tools only; for channel-backed tools, subscriptions own any mappings",
                    ),
                );
            }
            match input_schema {
                Some(input_schema) => Ok(ToolTarget::Channel { channel, input_schema, output_schema }),
                None => Err(
                    cat5("Server '", server, "': channel-backed tool '", tool, "' requires 'input-schema'"),
                ),
            }
        }
        (_, _, Some(_)) => Err(cat2(context.as_str(), " cannot have both 'component'/'function' and 'channel'")),
        (Some(_), None, None) => Err(cat2(context.as_str(), " has 'component' but missing 'function'")),
        (None, Some(_), None) => Err(cat2(context.as_str(), " has 'function' but missing 'component'")),
        (None, None, None) => Err(
            cat2(context.as_str(), " must have either 'component'/'function' or 'channel'"),
        ),
    }
}

/// Reads what backs a tool.
fn read_target(server: &str, tool: &str, props: &JsonObject, answers: &Answers) -> (r: Result<ToolTarget, Halt>)
    ensures
        outcome(r) == target_properties(server@, tool@, props@, answers.deep_view()),
{
    let context = about_tool(server, tool);
    let component = match read_text(context.as_str(), props, "component") {
        Err(e) => {
            return Err(Halt::Error(e));
        }
        Ok(v) => v,
    };
    let function = match read_text(context.as_str(), props, "function") {
        Err(e) => {
            return Err(Halt::Error(e));
        }
        Ok(v) => v,
    };
    let channel = match read_text(context.as_str(), props, "channel") {
        Err(e) => {
            return Err(Halt::Error(e));
        }
        Ok(v) => v,
    };
    let mapping = match read_mapping(context.as_str(), tool, props, answers) {
        Err(h) => {
            return Err(h);
        }
        Ok(v) => v,
    };
    let input_schema = read_any(props, "input-schema");
    let output_schema = read_any(props, "output-schema");
    match choose_target(server, tool, component, function, channel, mapping, input_schema, output_schema) {
        Err(e) => Err(Halt::Error(e)),
        Ok(target) => Ok(target),
    }
}

/// Reads one propagation entry.
fn read_propagation(
    context: &str,
    key: &str,
    direction: PropagationDirection,
    entry: &str,
    answers: &Answers,
) -> (r: Result<PropagatedHeader, Halt>)
    ensures
        outcome(r) == propagation_entry(context@, key@, direction, entry@, answers.deep_view()),
{
    match find(&answers.propagations, entry) {
        None => Err(Halt::Ask(Question::Propagation { entry: entry.to_owned() })),
        Some(Reading::Refused(e)) => {
            let front = cat5(context, " '", key, "' entry '", entry);
            Err(Halt::Error(cat3(front.as_str(), "': ", e.as_str())))
        }
        Some(Reading::Header(header)) => {
            let side = match direction {
                PropagationDirection::Inbound => header.source.as_str(),
                PropagationDirection::Outbound => header.target.as_str(),
            };
            match validate_mcp_meta_key(side) {
                Ok(_) => Ok(PropagatedHeader { source: header.source.clone(), target: header.target.clone() }),
                Err(e) => {
                    let front = cat5(context, " '", key, "' entry '", entry);
                    Err(
                        Halt::Error(
                            cat5(front.as_str(), "': '", side, "' is not a valid MCP _meta key: ", e.as_str()),
                        ),
                    )
                }
            }
        }
    }
}

/// Reads a `propagate-request-meta` or `propagate-result-meta` list. Each entry is
/// a text of the form `"source"` or `"source as target"`, and `direction` tells
/// which of the two has to be an MCP `_meta` key.
pub fn parse_propagated_meta_list(
    tool_props: &JsonObject,
    key: &str,
    direction: PropagationDirection,
    server_name: &str,
    tool_name: &str,
    answers: &Answers,
) -> (r: Result<Vec<PropagatedHeader>, Halt>)
    ensures
        outcome(r) == propagation_property(
            tool_context(server_name@, tool_name@),
            key@,
            direction,
            tool_props@,
            answers.deep_view(),
        ),
{
    let context = about_tool(server_name, tool_name);
    let entries = match tool_props.get(key) {
        None => {
            let none: Vec<PropagatedHeader> = Vec::new();
            assert(none.deep_view() =~= Seq::empty());
            return Ok(none);
        }
        Some(Json::Array(items)) => {
            proof {
                array_view(*items);
            }
            let complaint = cat4(context.as_str(), " '", key, "' entries must be strings, got ");
            match read_texts(complaint.as_str(), items) {
                Err(e) => {
                    return Err(Halt::Error(e));
                }
                Ok(v) => v,
            }
        }
        Some(got) => {
            return Err(Halt::Error(not_a(context.as_str(), key, "an array of strings", got)));
        }
    };
    let ghost all = entries.deep_view();
    let ghost given = answers.deep_view();
    let mut out: Vec<PropagatedHeader> = Vec::new();
    let mut i: usize = 0;
    assert(all.skip(0) == all);
    assert(out.deep_view() == Seq::<PropagatedHeaderView>::empty());
    while i < entries.len()
        invariant
            i <= entries.len(),
            all == entries.deep_view(),
            given == answers.deep_view(),
            context@ == tool_context(server_name@, tool_name@),
            match propagation_entries(context@, key@, direction, all.skip(i as int), given) {
                Ok(rest) => propagation_entries(context@, key@, direction, all, given) == Ok::<
                    Seq<PropagatedHeaderView>,
                    HaltView,
                >(out.deep_view() + rest),
                Err(h) => propagation_entries(context@, key@, direction, all, given) == Err::<
                    Seq<PropagatedHeaderView>,
                    HaltView,
                >(h),
            },
            propagation_property(context@, key@, direction, tool_props@, given) == propagation_entries(
                context@,
                key@,
                direction,
                all,
                given,
            ),
        decreases entries.len() - i,
    {
        let ghost rest = all.skip(i as int);
        assert(rest[0] == entries@[i as int]@);
        assert(rest.drop_first() == all.skip(i + 1));
        match read_propagation(context.as_str(), key, direction, entries[i].as_str(), answers) {
            Err(h) => {
                return Err(h);
            }
            Ok(header) => {
                let ghost before = out.deep_view();
                let ghost last = header.deep_view();
                out.push(header);
                proof {
                    assert(out.deep_view() =~= before.push(last));
                    pushed_item_comes_first(before, last);
                }
            }
        }
        i += 1;
    }
    assert(out.deep_view() + Seq::<PropagatedHeaderView>::empty() =~= out.deep_view());
    Ok(out)
}

/// The headers that a tool's result mapping writes.
fn headers_written(target: &ToolTarget) -> (r: Option<&JsonObject>)
    ensures
        match r {
            Some(headers) => headers@ == mapped_headers(target.deep_view()),
            None => mapped_headers(target.deep_view()).len() == 0,
        },
{
    match target {
        ToolTarget::Component { mapping, .. } => match &mapping.result_mapping {
            Some(Json::Object(mapping)) => match mapping.get("headers") {
                Some(Json::Object(headers)) => Some(headers),
                _ => None,
            },
            _ => None,
        },
        ToolTarget::Channel { .. } => None,
    }
}

/// Finds the first entry that writes over a mapped header from another source.
fn find_override<'a>(headers: &JsonObject, entries: &'a Vec<PropagatedHeader>) -> (r: Option<&'a PropagatedHeader>)
    ensures
        r.deep_view() == first_override(headers@, entries.deep_view()),
{
    let ghost all = entries.deep_view();
    let mut i: usize = 0;
    assert(all.skip(0) == all);
    while i < entries.len()
        invariant
            i <= entries.len(),
            all == entries.deep_view(),
            first_override(headers@, all) == first_override(headers@, all.skip(i as int)),
        decreases entries.len() - i,
    {
        let ghost rest = all.skip(i as int);
        assert(rest[0] == entries@[i as int].deep_view());
        assert(rest.drop_first() == all.skip(i + 1));
        let entry = &entries[i];
        if headers.get(entry.target.as_str()).is_some() && !same(entry.source.as_str(), entry.target.as_str()) {
            return Some(entry);
        }
        i += 1;
    }
    None
}

/// Without headers there is nothing to write over.
proof fn nothing_to_override(entries: Seq<PropagatedHeaderView>)
    ensures
        first_override(Seq::empty(), entries) is None,
    decreases entries.len(),
{
    if entries.len() > 0 {
        nothing_to_override(entries.drop_first());
    }
}

/// Finds the keys that are not in a list.
fn find_unknown<'a>(props: &'a JsonObject, known: &Vec<&str>) -> (r: Vec<&'a str>)
    ensures
        r.deep_view() == unknown_keys(props@, known.deep_view()),
{
    let ghost all = props@;
    let ghost list = known.deep_view();
    let mut out: Vec<&str> = Vec::new();
    let mut i: usize = 0;
    assert(all.skip(0) == all);
    assert(out.deep_view() + unknown_keys(all, list) =~= unknown_keys(all, list));
    while i < props.len()
        invariant
            i <= props@.len(),
            all == props@,
            list == known.deep_view(),
            unknown_keys(all, list) == out.deep_view() + unknown_keys(all.skip(i as int), list),
        decreases props@.len() - i,
    {
        let ghost rest = all.skip(i as int);
        assert(rest[0] == all[i as int]);
        assert(rest.drop_first() == all.skip(i + 1));
        let key = props.key(i);
        if !is_listed(known, key) {
            let ghost before = out.deep_view();
            out.push(key);
            assert(out.deep_view() =~= before.push(key@));
            assert(before + (seq![key@] + unknown_keys(all.skip(i + 1), list)) =~= out.deep_view() + unknown_keys(
                all.skip(i + 1),
                list,
            ));
        }
        i += 1;
    }
    assert(out.deep_view() + Seq::<Seq<char>>::empty() =~= out.deep_view());
    out
}

/// A list of texts, in brackets.
pub fn bracket(texts: &Vec<String>) -> (r: String)
    ensures
        r@ == bracketed(texts.deep_view()),
{
    let ghost all = texts.deep_view();
    let mut items = String::new();
    let mut i: usize = 0;
    assert(all.take(0) == Seq::<Seq<char>>::empty());
    while i < texts.len()
        invariant
            i <= texts.len(),
            all == texts.deep_view(),
            items@ == comma_separated(all.take(i as int)),
        decreases texts.len() - i,
    {
        let ghost done = all.take(i + 1);
        assert(done.drop_last() == all.take(i as int));
        assert(done.last() == texts@[i as int]@);
        if i == 0 {
            items = texts[i].clone();
        } else {
            items = cat3(items.as_str(), ", ", texts[i].as_str());
        }
        i += 1;
    }
    assert(all.take(all.len() as int) == all);
    cat3("[", items.as_str(), "]")
}

/// A list of texts as Rust's `Debug` writes it.
fn quote_list(texts: &Vec<&str>) -> (r: String)
    ensures
        r@ == quoted_list(texts.deep_view()),
{
    let mut out: Vec<String> = Vec::new();
    let mut i: usize = 0;
    while i < texts.len()
        invariant
            i <= texts.len(),
            out.len() == i,
            forall|k: int| 0 <= k < i ==> (#[trigger] out@[k])@ == quoted(texts@[k]@),
        decreases texts.len() - i,
    {
        out.push(quote(texts[i]));
        i += 1;
    }
    assert(out.deep_view() =~= Seq::new(texts.deep_view().len(), |k: int| quoted(texts.deep_view()[k])));
    bracket(&out)
}

/// The properties that a tool may have.
fn known_tool_keys() -> (r: Vec<&'static str>)
    ensures
        r.deep_view() == tool_keys(),
{
    let r = vec![
        "component",
        "function",
        "channel",
        "input-schema",
        "output-schema",
        "param-mapping",
        "param-encoding",
        "result-decoding",
        "result-mapping",
        "description",
        "propagate-request-meta",
        "propagate-result-meta",
    ];
    assert(r.deep_view() =~= tool_keys());
    r
}

/// The properties that a server may have.
pub(crate) fn known_server_keys() -> (r: Vec<&'static str>)
    ensures
        r.deep_view() == server_keys(),
{
    let r = vec![
        "type",
        "host",
        "port",
        "allowed-origins",
        "component-selector",
        "otlp-endpoint",
        "otlp-protocol",
        "tool",
    ];
    assert(r.deep_view() =~= server_keys());
    r
}

/// Checks that the parts of a tool go together and that no property is left over.
fn assemble_tool(server: &str, tool: ToolConfig, props: &JsonObject) -> (r: Result<ToolConfig, String>)
    ensures
        outcome(r) == assembled_tool(server@, tool.deep_view(), props@),
{
    let context = about_tool(server, tool.name.as_str());
    match headers_written(&tool.target) {
        Some(headers) => match find_override(headers, &tool.propagate_result_meta) {
            Some(entry) => {
                let front = cat4(
                    context.as_str(),
                    ": '",
                    entry.target.as_str(),
                    "' is written by 'result-mapping.headers' but overridden by 'propagate-result-meta' entry '",
                );
                return Err(
                    cat5(front.as_str(), entry.source.as_str(), " as ", entry.target.as_str(), "'"),
                );
            }
            None => {}
        },
        None => {
            proof {
                assert(mapped_headers(tool.target.deep_view()) =~= Seq::empty());
                nothing_to_override(tool.propagate_result_meta.deep_view());
            }
        }
    }
    let unknown = find_unknown(props, &known_tool_keys());
    if unknown.len() > 0 {
        return Err(cat3(context.as_str(), " has unknown properties: ", quote_list(&unknown).as_str()));
    }
    Ok(tool)
}

/// Reads a tool.
fn read_tool(server: &str, name: &str, props: &JsonObject, answers: &Answers) -> (r: Result<ToolConfig, Halt>)
    ensures
        outcome(r) == tool_properties(server@, name@, props@, answers.deep_view()),
{
    let target = match read_target(server, name, props, answers) {
        Err(h) => {
            return Err(h);
        }
        Ok(v) => v,
    };
    let context = about_tool(server, name);
    let description = match read_text(context.as_str(), props, "description") {
        Err(e) => {
            return Err(Halt::Error(e));
        }
        Ok(v) => v,
    };
    let propagate_request_meta = match parse_propagated_meta_list(
        props,
        "propagate-request-meta",
        PropagationDirection::Inbound,
        server,
        name,
        answers,
    ) {
        Err(h) => {
            return Err(h);
        }
        Ok(v) => v,
    };
    let propagate_result_meta = match parse_propagated_meta_list(
        props,
        "propagate-result-meta",
        PropagationDirection::Outbound,
        server,
        name,
        answers,
    ) {
        Err(h) => {
            return Err(h);
        }
        Ok(v) => v,
    };
    let tool = ToolConfig {
        name: name.to_owned(),
        target,
        description,
        propagate_request_meta,
        propagate_result_meta,
    };
    match assemble_tool(server, tool, props) {
        Err(e) => Err(Halt::Error(e)),
        Ok(tool) => Ok(tool),
    }
}

/// Reads the tools of a server.
pub fn parse_tools(server_name: &str, properties: &JsonObject, answers: &Answers) -> (r: Result<Vec<ToolConfig>, Halt>)
    ensures
        outcome(r) == tools_property(server_name@, properties@, answers.deep_view()),
{
    let mut out: Vec<ToolConfig> = Vec::new();
    assert(out.deep_view() =~= Seq::<ToolConfigView>::empty());
    let table = match properties.get("tool") {
        None => {
            return Ok(out);
        }
        Some(Json::Object(table)) => table,
        Some(got) => {
            return Err(Halt::Error(not_a(about_server(server_name).as_str(), "tool", "a table", got)));
        }
    };
    let ghost all = table@;
    let ghost given = answers.deep_view();
    let mut i: usize = 0;
    assert(all.skip(0) == all);
    while i < table.len()
        invariant
            i <= table@.len(),
            all == table@,
            given == answers.deep_view(),
            match tool_table(server_name@, all.skip(i as int), given) {
                Ok(rest) => tool_table(server_name@, all, given) == Ok::<Seq<ToolConfigView>, HaltView>(
                    out.deep_view() + rest,
                ),
                Err(h) => tool_table(server_name@, all, given) == Err::<Seq<ToolConfigView>, HaltView>(h),
            },
            tools_property(server_name@, properties@, given) == tool_table(server_name@, all, given),
        decreases table@.len() - i,
    {
        let ghost rest = all.skip(i as int);
        assert(rest[0] == all[i as int]);
        assert(rest.drop_first() == all.skip(i + 1));
        let name = table.key(i);
        let tool = match table.value(i) {
            Json::Object(props) => match read_tool(server_name, name, props, answers) {
                Err(h) => {
                    return Err(h);
                }
                Ok(tool) => tool,
            },
            got => {
                let context = about_tool(server_name, name);
                return Err(
                    Halt::Error(cat3(context.as_str(), " must be a table, got ", got.to_text().as_str())),
                );
            }
        };
        let ghost before = out.deep_view();
        let ghost last = tool.deep_view();
        out.push(tool);
        proof {
            assert(out.deep_view() =~= before.push(last));
            pushed_item_comes_first(before, last);
        }
        i += 1;
    }
    assert(out.deep_view() + Seq::<ToolConfigView>::empty() =~= out.deep_view());
    Ok(out)
}

/// A value, or the one to take where there is none.
fn or_else(value: Option<String>, default: &str) -> (r: String)
    ensures
        r@ == or_default(value.deep_view(), default@),
{
    match value {
        Some(v) => v,
        None => default.to_owned(),
    }
}

/// Checks that a server exposes anything and that no property is left over.
fn assemble_server(server: McpServerConfig, props: &JsonObject) -> (r: Result<McpServerConfig, String>)
    ensures
        outcome(r) == assembled_server(server.deep_view(), props@),
{
    if server.component_selector.is_none() && server.tools.len() == 0 {
        return Err(
            cat3(
                "Server '",
                server.name.as_str(),
                "' has no tools and no component-selector. At least one must be specified.",
            ),
        );
    }
    let unknown = find_unknown(props, &known_server_keys());
    if unknown.len() > 0 {
        return Err(
            cat4(
                "Server '",
                server.name.as_str(),
                "' has unknown properties: ",
                quote_list(&unknown).as_str(),
            ),
        );
    }
    Ok(server)
}

/// Reads a server.
fn read_server(name: &str, props: &JsonObject, answers: &Answers) -> (r: Result<McpServerConfig, Halt>)
    ensures
        outcome(r) == server_properties(name@, props@, answers.deep_view()),
{
    let context = about_server(name);
    let port = match read_port(name, props) {
        Err(e) => {
            return Err(Halt::Error(e));
        }
        Ok(v) => v,
    };
    let host = match read_text(context.as_str(), props, "host") {
        Err(e) => {
            return Err(Halt::Error(e));
        }
        Ok(v) => v,
    };
    let allowed_origins = match read_origins(name, props) {
        Err(e) => {
            return Err(Halt::Error(e));
        }
        Ok(v) => v,
    };
    let component_selector = match read_selector(name, props, answers) {
        Err(h) => {
            return Err(h);
        }
        Ok(v) => v,
    };
    let otlp_endpoint = match read_text(context.as_str(), props, "otlp-endpoint") {
        Err(e) => {
            return Err(Halt::Error(e));
        }
        Ok(v) => v,
    };
    let otlp_protocol = match read_text(context.as_str(), props, "otlp-protocol") {
        Err(e) => {
            return Err(Halt::Error(e));
        }
        Ok(v) => v,
    };
    let tools = match parse_tools(name, props, answers) {
        Err(h) => {
            return Err(h);
        }
        Ok(v) => v,
    };
    let server = McpServerConfig {
        name: name.to_owned(),
        host: or_else(host, "127.0.0.1"),
        port,
        allowed_origins,
        component_selector,
        tools,
        otlp_endpoint,
        otlp_protocol: or_else(otlp_protocol, "grpc"),
    };
    match assemble_server(server, props) {
        Err(e) => Err(Halt::Error(e)),
        Ok(server) => Ok(server),
    }
}

/// Reads a definition in a category.
pub(crate) fn read_definition(category: &str, name: &str, props: &JsonObject, answers: &Answers) -> (r: Result<
    McpServerConfig,
    Halt,
>)
    ensures
        outcome(r) == definition(category@, name@, props@, answers.deep_view()),
{
    if same(category, "server") {
        read_server(name, props, answers)
    } else {
        Err(
            Halt::Error(
                cat3("McpServerConfigHandler received unexpected category '", category, "'"),
            ),
        )
    }
}

} // verus!
