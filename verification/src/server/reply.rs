//! The message that carries a call, and the result that a reply message becomes.

use vstd::prelude::*;

use crate::config::PropagatedHeader;
use crate::json::{
    is_readable, is_stable, outcome, parsed_bytes, reads_alike, reads_as, written_bytes, Json, JsonObject, JsonView,
};
use crate::mcp::{text_content, CallToolResult, Content, Meta, Tool};
use crate::lists::pushed_item_comes_first;
use crate::pairs::{find, set_pair};
use crate::schema::SchemaValidator;
use crate::server::model::{Headers, Message, MessageDraft, ReplyStep};
use crate::server::rules::{
    checked_result, coerced_result, is_coerced_result, lifted_meta, lowered_meta, member, output_may_have, read_reply,
    reply_step, request_draft, result_meta, selected_headers, skipped_meta, value_text, with_meta, wrapped,
};
use crate::text::{cat2, same};

verus! {

/// The headers that carry `_meta` entries.
fn lift_meta(meta: &Meta, entries: &Vec<PropagatedHeader>) -> (r: Headers)
    ensures
        r.deep_view() == lifted_meta(meta@, entries.deep_view()),
{
    let ghost all = entries.deep_view();
    let mut out: Headers = Vec::new();
    let mut i: usize = 0;
    assert(all.skip(0) =~= all);
    assert(out.deep_view() + lifted_meta(meta@, all) =~= lifted_meta(meta@, all));
    while i < entries.len()
        invariant
            i <= entries.len(),
            all == entries.deep_view(),
            lifted_meta(meta@, all) == out.deep_view() + lifted_meta(meta@, all.skip(i as int)),
        decreases entries.len() - i,
    {
        let ghost before = out.deep_view();
        let ghost rest = all.skip(i as int);
        assert(rest[0] == entries@[i as int].deep_view());
        assert(rest.drop_first() =~= all.skip(i + 1));
        match meta.get(entries[i].source.as_str()) {
            Some(Json::Str(s)) => {
                out.push((entries[i].target.clone(), s.clone()));
                proof {
                    let last = (rest[0].target, s@);
                    assert(out.deep_view() =~= before.push(last));
                    pushed_item_comes_first(before, last);
                }
            },
            _ => {},
        }
        i += 1;
    }
    assert(all.skip(i as int) =~= Seq::empty());
    assert(out.deep_view() + Seq::empty() =~= out.deep_view());
    out
}

/// The declared `_meta` entries that the message of a call leaves out, since their values
/// are no text: each by its source key and its value, in the order in which they are declared.
pub fn skipped_request_meta(meta: Option<&Meta>, propagate_request_meta: &Vec<PropagatedHeader>) -> (r: Vec<
    (String, Json),
>)
    ensures
        r.deep_view() == (match meta.deep_view() {
            Some(meta) => skipped_meta(meta, propagate_request_meta.deep_view()),
            None => Seq::empty(),
        }),
{
    let ghost all = propagate_request_meta.deep_view();
    let mut out: Vec<(String, Json)> = Vec::new();
    assert(out.deep_view() =~= Seq::empty());
    let meta = match meta {
        None => {
            return out;
        },
        Some(meta) => meta,
    };
    let mut i: usize = 0;
    assert(all.skip(0) =~= all);
    assert(out.deep_view() + skipped_meta(meta@, all) =~= skipped_meta(meta@, all));
    while i < propagate_request_meta.len()
        invariant
            i <= propagate_request_meta.len(),
            all == propagate_request_meta.deep_view(),
            skipped_meta(meta@, all) == out.deep_view() + skipped_meta(meta@, all.skip(i as int)),
        decreases propagate_request_meta.len() - i,
    {
        let ghost before = out.deep_view();
        let ghost rest = all.skip(i as int);
        let source = &propagate_request_meta[i].source;
        assert(rest[0] == propagate_request_meta@[i as int].deep_view());
        assert(rest.drop_first() =~= all.skip(i + 1));
        match meta.get(source.as_str()) {
            None | Some(Json::Str(_)) => {},
            Some(value) => {
                out.push((source.clone(), value.duplicate()));
                proof {
                    let last = (source@, value@);
                    assert(out.deep_view() =~= before.push(last));
                    pushed_item_comes_first(before, last);
                }
            },
        }
        i += 1;
    }
    assert(all.skip(i as int) =~= Seq::empty());
    assert(out.deep_view() + Seq::empty() =~= out.deep_view());
    out
}

/// Builds the draft of the message that carries a call.
///
/// - Body: `arguments` as JSON, with content type `application/json`.
/// - Headers: for each entry, the text value of the source `_meta` key under the
///   entry's target name. Values that are no text are skipped (`skipped_request_meta`).
///
/// Where `serde_json` reads what it wrote, the body is read as the arguments: as those
/// very ones where they have no floating-point number, else with one where they have one.
///
/// The well-known tracing keys are no part of the draft: they come from the propagation
/// context in which the message is built.
pub fn build_message_from_mcp_call(
    arguments: &JsonObject,
    meta: Option<&Meta>,
    propagate_request_meta: &Vec<PropagatedHeader>,
) -> (r: Result<MessageDraft, String>)
    ensures
        outcome(r) == request_draft(
            written_bytes(JsonView::Object(arguments@)),
            meta.deep_view(),
            propagate_request_meta.deep_view(),
        ),
        r is Ok,
        is_readable(JsonView::Object(arguments@)) ==> reads_alike(
            parsed_bytes(r->Ok_0.body@),
            JsonView::Object(arguments@),
        ),
        is_stable(JsonView::Object(arguments@)) ==> reads_as(
            parsed_bytes(r->Ok_0.body@),
            JsonView::Object(arguments@),
        ),
{
    let body = Json::Object(arguments.duplicate()).to_bytes();
    assert(body matches Ok(b) ==> b.deep_view() =~= b@);
    draft_from_body(body, meta, propagate_request_meta)
}

/// The draft of the message that carries a call, once its arguments are written.
pub fn draft_from_body(
    body: Result<Vec<u8>, String>,
    meta: Option<&Meta>,
    propagate_request_meta: &Vec<PropagatedHeader>,
) -> (r: Result<MessageDraft, String>)
    ensures
        outcome(r) == request_draft(outcome(body), meta.deep_view(), propagate_request_meta.deep_view()),
{
    match body {
        Err(e) => Err(cat2("failed to serialize MCP arguments: ", e.as_str())),
        Ok(body) => {
            assert(body.deep_view() =~= body@);
            let headers = match meta {
                Some(m) => lift_meta(m, propagate_request_meta),
                None => Vec::new(),
            };
            proof {
                if meta is None {
                    assert(headers.deep_view() =~= Seq::empty());
                }
            }
            Ok(MessageDraft { body, content_type: "application/json".to_owned(), headers })
        },
    }
}

/// The headers of a message that a reply carries on: those with the given names.
pub fn propagated_headers(headers: &Headers, names: &Vec<String>) -> (r: Headers)
    ensures
        r.deep_view() == selected_headers(headers.deep_view(), names.deep_view()),
{
    let ghost all = names.deep_view();
    let mut out: Headers = Vec::new();
    let mut i: usize = 0;
    assert(all.take(0) =~= Seq::empty());
    assert(out.deep_view() =~= Seq::empty());
    while i < names.len()
        invariant
            i <= names.len(),
            all == names.deep_view(),
            out.deep_view() == selected_headers(headers.deep_view(), all.take(i as int)),
        decreases names.len() - i,
    {
        assert(all.take(i + 1).drop_last() =~= all.take(i as int));
        assert(all.take(i + 1).last() == names@[i as int]@);
        match find(headers, names[i].as_str()) {
            Some(value) => {
                out = set_pair(out, names[i].clone(), value.clone());
            },
            None => {},
        }
        i += 1;
    }
    assert(all.take(i as int) =~= all);
    out
}

/// The `_meta` entries that headers become.
fn lower_meta(headers: &Headers, entries: &Vec<PropagatedHeader>) -> (r: Option<Meta>)
    ensures
        r.deep_view() == result_meta(headers.deep_view(), entries.deep_view()),
{
    let ghost all = entries.deep_view();
    let mut out = JsonObject::empty();
    let mut i: usize = 0;
    assert(all.take(0) =~= Seq::empty());
    while i < entries.len()
        invariant
            i <= entries.len(),
            all == entries.deep_view(),
            out@ == lowered_meta(headers.deep_view(), all.take(i as int)),
        decreases entries.len() - i,
    {
        assert(all.take(i + 1).drop_last() =~= all.take(i as int));
        assert(all.take(i + 1).last() == entries@[i as int].deep_view());
        match find(headers, entries[i].source.as_str()) {
            Some(value) => {
                out = out.insert(entries[i].target.clone(), Json::Str(value.clone()));
            },
            None => {},
        }
        i += 1;
    }
    assert(all.take(i as int) =~= all);
    if out.len() == 0 {
        None
    } else {
        Some(out)
    }
}

/// Attaches `_meta` to a result, where there is any.
pub fn apply_meta(result: CallToolResult, meta: Option<Meta>) -> (r: CallToolResult)
    ensures
        r.deep_view() == with_meta(result.deep_view(), meta.deep_view()),
{
    match meta {
        Some(m) => CallToolResult {
            content: result.content,
            structured_content: result.structured_content,
            is_error: result.is_error,
            meta: Some(m),
        },
        None => result,
    }
}

/// A member of a value, where the value is an object.
fn get_member<'a>(value: &'a Json, key: &str) -> (r: Option<&'a Json>)
    ensures
        r.deep_view() == member(value@, key@),
{
    match value {
        Json::Object(fields) => fields.get(key),
        _ => None,
    }
}

/// Whether a property's value is wrapped under the property's name: whether it is
/// array-typed or has `oneOf`.
fn wraps(property: &Json) -> (r: bool)
    ensures
        r == (member(property@, "type"@) == Some(JsonView::Str("array"@)) || member(property@, "oneOf"@) is Some),
{
    let array = match get_member(property, "type") {
        Some(Json::Str(s)) => same(s.as_str(), "array"),
        _ => false,
    };
    array || get_member(property, "oneOf").is_some()
}

/// Wraps a value as the schema advertises it.
fn wrap(schema: &JsonObject, value: Json) -> (r: Json)
    ensures
        r@ == wrapped(schema@, value@),
{
    match schema.get("properties") {
        Some(Json::Object(properties)) => {
            if properties.len() == 1 && wraps(properties.value(0)) {
                let object = JsonObject::empty().insert(properties.key(0).to_owned(), value);
                proof {
                    assert(object@ =~= seq![(properties@[0].0, value@)]);
                }
                Json::Object(object)
            } else {
                value
            }
        },
        _ => value,
    }
}

/// Reads a reply message as the result of a tool.
///
/// The body is expected to be JSON; an empty one stands for null.
/// - A tool without an output schema gives text: that of the string where the body is
///   one, else the pretty-printed JSON.
/// - A tool with an output schema gives structured content: the value, wrapped under the
///   schema's only property where that is array-typed or has `oneOf`, is coerced to the
///   schema and then checked against it (`finish_mcp_result`).
pub fn build_mcp_result_from_message(msg: &Message, tool: &Tool, propagate_result_meta: &Vec<PropagatedHeader>) -> (r:
    ReplyStep)
    ensures
        r.deep_view() == reply_step(msg.deep_view(), tool.deep_view(), propagate_result_meta.deep_view()),
{
    let meta = lower_meta(&msg.headers, propagate_result_meta);
    let value = if msg.body.len() == 0 {
        Ok(Json::Null)
    } else {
        Json::parse_bytes(msg.body.as_slice())
    };
    result_from_value(value, tool, meta)
}

/// What follows once a reply body is read.
pub fn result_from_value(value: Result<Json, String>, tool: &Tool, meta: Option<Meta>) -> (r: ReplyStep)
    ensures
        r.deep_view() == read_reply(outcome(value), tool.deep_view().output_schema, meta.deep_view()),
{
    let value = match value {
        Err(e) => {
            let text = cat2("reply body is not valid JSON: ", e.as_str());
            return ReplyStep::Done(apply_meta(CallToolResult::failure(text), meta));
        },
        Ok(v) => v,
    };
    match &tool.output_schema {
        None => {
            let text = match &value {
                Json::Str(s) => s.clone(),
                other => other.to_pretty_text(),
            };
            let content = vec![Content::text(text)];
            assert(content.deep_view() =~= seq![text_content(value_text(value@))]);
            ReplyStep::Done(apply_meta(CallToolResult::success(content), meta))
        },
        Some(schema) => ReplyStep::Coerce { value: wrap(schema, value), schema: schema.duplicate(), meta },
    }
}

/// The result of a tool with an output schema, once the value is coerced.
pub fn finish_mcp_result(
    coerced: Result<Json, String>,
    output_validator: &Option<SchemaValidator>,
    meta: Option<Meta>,
) -> (r: CallToolResult)
    ensures
        is_coerced_result(r.deep_view(), outcome(coerced), output_validator.deep_view(), meta.deep_view()),
{
    let ghost given = outcome(coerced);
    let ghost schema = output_validator.deep_view();
    match coerced {
        Err(e) => {
            let text = cat2("failed to coerce reply body to output-schema: ", e.as_str());
            let result = apply_meta(CallToolResult::failure(text), meta);
            assert(output_may_have(schema, given, None));
            assert(result.deep_view() == coerced_result(given, None, meta.deep_view()));
            result
        },
        Ok(value) => {
            let fault = match output_validator {
                Some(validator) => validator.check(&value),
                None => None,
            };
            let result = conclude_mcp_result(value, fault, meta);
            assert(output_may_have(schema, given, fault.deep_view()));
            assert(result.deep_view() == coerced_result(given, fault.deep_view(), meta.deep_view()));
            result
        },
    }
}

/// The result of a tool with an output schema, once the value is checked.
pub fn conclude_mcp_result(value: Json, fault: Option<String>, meta: Option<Meta>) -> (r: CallToolResult)
    ensures
        r.deep_view() == checked_result(value@, fault.deep_view(), meta.deep_view()),
{
    match fault {
        Some(e) => {
            let text = cat2("reply body does not conform to output-schema: ", e.as_str());
            apply_meta(CallToolResult::failure(text), meta)
        },
        None => apply_meta(CallToolResult::structured(value), meta),
    }
}

} // verus!
