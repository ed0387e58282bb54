//! Conversion of `composable:tools` values into the MCP model, for components
//! that export `composable:tools/tool`. The component's `metadata()` reports its
//! input and output schemas, and `call()` invokes a function and returns a
//! result.

use vstd::prelude::*;

use crate::json::{
    array_view, number_as_float_bits, number_as_i64, number_as_u64, number_value, outcome, Json, JsonObject, JsonView,
    NumberView, MINUS_ZERO_BITS,
};
use crate::lists::pushed_item_comes_first;
use crate::mcp::{
    Annotations, CallToolResult, Content, ContentView, Meta, RawAudioContent, RawContent, RawEmbeddedResource,
    RawImageContent, RawResource, RawTextContent, ResourceContents, Role, Timestamp, Tool, ToolAnnotations,
};
use crate::text::{begins_with, cat2, cat3, cat4, decimal, same, strip_prefix};
use crate::tools::rules::{
    annotations_field, annotations_of, audience_field, audio_case, audio_meta_dropped, audio_with_meta_in,
    content_field, content_of, contents_of, contribute_a_tool, embedded_case, entries_value, float_text, hint,
    image_case, in_unit_range, input_schema_field, is_audio_with_meta, kind_of, last_modified_field, last_modified_from, link_case,
    meta_entries_over, meta_entry, meta_of, object_of, object_schema, optional_schema_field, optional_text,
    optional_value, present, priority_field, raw_content_of, required_flag, required_text, resource_case,
    resource_contents_of, result_of, role_of, roles_of, schema_field, schema_from, text_case, timestamp_parsed,
    tool_annotations_field, tool_annotations_of, tool_of, value_from, variant_of, ONE_BITS,
};

pub mod laws;
pub mod rules;

verus! {

/// The interface a component exports to be hosted as a tool. Matching includes
/// the version separator, since `tool` is a prefix of `toolset`.
pub const TOOL_EXPORT: &'static str = "composable:tools/tool@";

/// The function key for `metadata` on that interface.
pub const METADATA_FUNCTION: &'static str = "tool.metadata";

/// The function key for `call`.
pub const CALL_FUNCTION: &'static str = "tool.call";

/// `chrono`'s reading of a text as a `DateTime<Utc>`, by the seconds and
/// nanoseconds of that point in time, or the words of its error: what
/// `timestamp_parsed` names.
#[verifier::external_body]
fn parse_timestamp(text: &str) -> (r: Result<Timestamp, String>)
    ensures
        outcome(r) == timestamp_parsed(text@),
{
    match text.parse::<chrono::DateTime<chrono::Utc>>() {
        Ok(t) => Ok(Timestamp { seconds: t.timestamp(), nanoseconds: t.timestamp_subsec_nanos() }),
        Err(e) => Err(e.to_string()),
    }
}

/// `serde_json::Number::as_f64` and `Display` of what it gives: the text that
/// `float_text` names. `as_f64` always gives a number.
#[verifier::external_body]
fn write_float(n: &serde_json::Number) -> (r: Option<String>)
    ensures
        r.deep_view() == Some(float_text(number_value(*n))),
{
    n.as_f64().map(|x| x.to_string())
}

/// What kind of value a value is.
fn type_of(value: &Json) -> (r: &'static str)
    ensures
        r@ == kind_of(value@),
{
    match value {
        Json::Null => "null",
        Json::Bool(_) => "a boolean",
        Json::Number(_) => "a number",
        Json::Str(_) => "a string",
        Json::Array(_) => "a list",
        Json::Object(_) => "an object",
    }
}

/// Reads a value that has to be an object.
fn as_object<'a>(value: &'a Json, what: &str) -> (r: Result<&'a JsonObject, String>)
    ensures
        outcome(r) == object_of(value@, what@),
{
    match value {
        Json::Object(o) => Ok(o),
        _ => Err(cat3(what, " must be an object, got ", type_of(value))),
    }
}

/// Finds a field that is neither absent nor null.
fn given<'a>(object: &'a JsonObject, field: &str) -> (r: Option<&'a Json>)
    ensures
        r.deep_view() == present(object@, field@),
{
    match object.get(field) {
        None | Some(Json::Null) => None,
        Some(v) => Some(v),
    }
}

/// Reads a field that holds text if it is there.
fn optional_string(object: &JsonObject, field: &str) -> (r: Result<Option<String>, String>)
    ensures
        outcome(r) == optional_text(object@, field@),
{
    match given(object, field) {
        None => Ok(None),
        Some(Json::Str(s)) => Ok(Some(s.clone())),
        Some(other) => Err(cat4("'", field, "' must be a string, got ", type_of(other))),
    }
}

/// Reads a field that holds text.
fn required_string(object: &JsonObject, field: &str) -> (r: Result<String, String>)
    ensures
        outcome(r) == required_text(object@, field@),
{
    match object.get(field) {
        Some(Json::Str(s)) => Ok(s.clone()),
        _ => Err(cat3("'", field, "' must be a string")),
    }
}

/// Reads a field that holds a truth value.
fn required_bool(object: &JsonObject, field: &str) -> (r: Result<bool, String>)
    ensures
        outcome(r) == required_flag(object@, field@),
{
    match object.get(field) {
        Some(Json::Bool(b)) => Ok(*b),
        _ => Err(cat3("'", field, "' must be a boolean")),
    }
}

/// Reads a field that holds a truth value, or else counts for nothing.
fn read_hint(object: &JsonObject, field: &str) -> (r: Option<bool>)
    ensures
        r == hint(object@, field@),
{
    match object.get(field) {
        Some(Json::Bool(b)) => Some(*b),
        _ => None,
    }
}

/// Takes the value of a field's JSON text from what parsing it gave.
pub fn json_from_parsed(field: &str, parsed: Result<Json, String>) -> (r: Result<Option<Json>, String>)
    ensures
        outcome(r) == value_from(field@, outcome(parsed)),
{
    match parsed {
        Ok(v) => Ok(Some(v)),
        Err(e) => Err(cat4("'", field, "' is not valid JSON: ", e.as_str())),
    }
}

/// Reads a field that holds JSON text if it is there.
fn optional_json(object: &JsonObject, field: &str) -> (r: Result<Option<Json>, String>)
    ensures
        outcome(r) == optional_value(object@, field@),
{
    match given(object, field) {
        None => Ok(None),
        Some(Json::Str(text)) => json_from_parsed(field, Json::parse(text.as_str())),
        Some(other) => Err(cat4("'", field, "' must be a JSON string, got ", type_of(other))),
    }
}

/// Takes the JSON Schema that a field's text holds from what parsing it gave.
pub fn schema_from_parsed(field: &str, parsed: Result<Json, String>) -> (r: Result<JsonObject, String>)
    ensures
        outcome(r) == schema_from(field@, outcome(parsed)),
{
    match parsed {
        Ok(Json::Object(o)) => Ok(o),
        Ok(other) => Err(cat4("'", field, "' must be a JSON Schema object, got ", type_of(&other))),
        Err(e) => Err(cat4("'", field, "' is not valid JSON: ", e.as_str())),
    }
}

/// Reads a field whose text is a JSON Schema.
fn schema(object: &JsonObject, field: &str) -> (r: Result<JsonObject, String>)
    ensures
        outcome(r) == schema_field(object@, field@),
{
    match object.get(field) {
        Some(Json::Str(text)) => schema_from_parsed(field, Json::parse(text.as_str())),
        _ => Err(cat3("'", field, "' must be a JSON string")),
    }
}

/// Checks that a schema describes an object.
pub fn input_schema_from(field: &str, schema: JsonObject) -> (r: Result<JsonObject, String>)
    ensures
        outcome(r) == object_schema(field@, schema@),
{
    match schema.get("type") {
        Some(Json::Str(s)) => {
            if !same(s.as_str(), "object") {
                return Err(cat4("'", field, "' must be of type object, got ", s.as_str()));
            }
        }
        _ => {
            return Err(cat3("'", field, "' must declare type object"));
        }
    }
    Ok(schema)
}

/// Reads a field that holds the schema of an object.
fn input_schema(object: &JsonObject, field: &str) -> (r: Result<JsonObject, String>)
    ensures
        outcome(r) == input_schema_field(object@, field@),
{
    match schema(object, field) {
        Err(e) => Err(e),
        Ok(schema) => input_schema_from(field, schema),
    }
}

/// Reads a schema, if the field is there.
fn optional_schema(object: &JsonObject, field: &str) -> (r: Result<Option<JsonObject>, String>)
    ensures
        outcome(r) == optional_schema_field(object@, field@),
{
    match given(object, field) {
        None => Ok(None),
        Some(_) => match schema(object, field) {
            Ok(o) => Ok(Some(o)),
            Err(e) => Err(e),
        },
    }
}

/// Reads a `_meta` entry.
fn read_meta_entry(item: &Json) -> (r: Result<(String, String), String>)
    ensures
        outcome(r) == meta_entry(item@),
{
    match item {
        Json::Array(pair) => {
            proof {
                array_view(*pair);
            }
            if pair.len() != 2 {
                return Err(
                    cat2("meta entry must hold exactly two elements, got ", decimal(pair.len()).as_str()),
                );
            }
            let ghost elements = pair.deep_view();
            assert(elements[0] == pair@[0]@ && elements[1] == pair@[1]@);
            let key = match &pair[0] {
                Json::Str(s) => s,
                other => {
                    return Err(cat2("meta key must be a string, got ", type_of(other)));
                }
            };
            match &pair[1] {
                Json::Str(s) => Ok((key.clone(), s.clone())),
                other => Err(cat2("meta value must be a string, got ", type_of(other))),
            }
        }
        other => Err(cat2("meta entry must be a pair, got ", type_of(other))),
    }
}

/// Reads a list of `_meta` entries: a list of two-element arrays of texts.
pub fn meta(value: Option<&Json>) -> (r: Result<Option<Meta>, String>)
    ensures
        outcome(r) == meta_of(value.deep_view()),
{
    let items = match value {
        None | Some(Json::Null) => {
            return Ok(None);
        }
        Some(Json::Array(items)) => items,
        Some(other) => {
            return Err(cat2("meta must be a list, got ", type_of(other)));
        }
    };
    proof {
        array_view(*items);
    }
    if items.len() == 0 {
        return Ok(None);
    }
    let ghost all = items.deep_view();
    let mut out = JsonObject::empty();
    let mut i: usize = 0;
    assert(all.skip(0) == all);
    while i < items.len()
        invariant
            i <= items.len(),
            all == items.deep_view(),
            all.len() > 0,
            value.deep_view() == Some(JsonView::Array(all)),
            meta_entries_over(Seq::empty(), all) == meta_entries_over(out@, all.skip(i as int)),
        decreases items.len() - i,
    {
        let ghost rest = all.skip(i as int);
        assert(rest[0] == items@[i as int]@);
        assert(rest.drop_first() == all.skip(i + 1));
        match read_meta_entry(&items[i]) {
            Err(e) => {
                return Err(e);
            }
            Ok((key, value)) => {
                out = out.insert(key, Json::Str(value));
            }
        }
        i += 1;
    }
    Ok(Some(out))
}

/// Reads hints on what a tool does.
fn tool_annotations(value: &Json) -> (r: Result<ToolAnnotations, String>)
    ensures
        outcome(r) == tool_annotations_of(value@),
{
    let object = match as_object(value, "tool-annotations") {
        Err(e) => {
            return Err(e);
        }
        Ok(o) => o,
    };
    let title = match optional_string(object, "title") {
        Err(e) => {
            return Err(e);
        }
        Ok(t) => t,
    };
    Ok(
        ToolAnnotations {
            title,
            read_only_hint: read_hint(object, "read-only-hint"),
            destructive_hint: read_hint(object, "destructive-hint"),
            idempotent_hint: read_hint(object, "idempotent-hint"),
            open_world_hint: read_hint(object, "open-world-hint"),
        },
    )
}

/// Reads hints on what a tool does, if the field is there.
fn optional_tool_annotations(object: &JsonObject) -> (r: Result<Option<ToolAnnotations>, String>)
    ensures
        outcome(r) == tool_annotations_field(object@),
{
    match given(object, "annotations") {
        None => Ok(None),
        Some(value) => match tool_annotations(value) {
            Ok(a) => Ok(Some(a)),
            Err(e) => Err(e),
        },
    }
}

/// Builds a tool from `tool.metadata()`, under a given name.
pub fn tool_from_metadata(value: &Json, name: &str) -> (r: Result<Tool, String>)
    ensures
        outcome(r) == tool_of(value@, name@),
{
    let object = match as_object(value, "tool-metadata") {
        Err(e) => {
            return Err(e);
        }
        Ok(o) => o,
    };
    let description = match optional_string(object, "description") {
        Err(e) => {
            return Err(e);
        }
        Ok(v) => v,
    };
    let input_schema = match input_schema(object, "input-schema") {
        Err(e) => {
            return Err(e);
        }
        Ok(v) => v,
    };
    let title = match optional_string(object, "title") {
        Err(e) => {
            return Err(e);
        }
        Ok(v) => v,
    };
    let output_schema = match optional_schema(object, "output-schema") {
        Err(e) => {
            return Err(e);
        }
        Ok(v) => v,
    };
    let annotations = match optional_tool_annotations(object) {
        Err(e) => {
            return Err(e);
        }
        Ok(v) => v,
    };
    let meta = match meta(object.get("meta")) {
        Err(e) => {
            return Err(e);
        }
        Ok(v) => v,
    };
    Ok(Tool { name: name.to_owned(), title, description, input_schema, output_schema, annotations, meta })
}

/// Reads who content is meant for.
fn role(value: &Json) -> (r: Result<Role, String>)
    ensures
        outcome(r) == role_of(value@),
{
    match value {
        Json::Str(s) => if same(s.as_str(), "user") {
            Ok(Role::User)
        } else if same(s.as_str(), "assistant") {
            Ok(Role::Assistant)
        } else {
            Err(cat3("unknown role '", s.as_str(), "'"))
        },
        other => Err(cat2("role must be a string, got ", type_of(other))),
    }
}

/// Reads whom content is meant for.
fn roles(items: &Vec<Json>) -> (r: Result<Vec<Role>, String>)
    ensures
        outcome(r) == roles_of(items.deep_view()),
{
    let ghost all = items.deep_view();
    let mut out: Vec<Role> = Vec::new();
    let mut i: usize = 0;
    assert(all.skip(0) == all);
    assert(out.deep_view() == Seq::<Role>::empty());
    while i < items.len()
        invariant
            i <= items.len(),
            all == items.deep_view(),
            match roles_of(all.skip(i as int)) {
                Ok(rest) => roles_of(all) == Ok::<Seq<Role>, Seq<char>>(out.deep_view() + rest),
                Err(e) => roles_of(all) == Err::<Seq<Role>, Seq<char>>(e),
            },
        decreases items.len() - i,
    {
        let ghost rest = all.skip(i as int);
        assert(rest[0] == items@[i as int]@);
        assert(rest.drop_first() == all.skip(i + 1));
        match role(&items[i]) {
            Err(e) => {
                return Err(e);
            }
            Ok(role) => {
                let ghost before = out.deep_view();
                out.push(role);
                proof {
                    assert(out.deep_view() =~= before.push(role));
                    pushed_item_comes_first(before, role);
                }
            }
        }
        i += 1;
    }
    assert(out.deep_view() + Seq::<Role>::empty() =~= out.deep_view());
    Ok(out)
}

/// Reads whom content is meant for, if the field is there.
fn audience(object: &JsonObject) -> (r: Result<Option<Vec<Role>>, String>)
    ensures
        outcome(r) == audience_field(object@),
{
    match given(object, "audience") {
        None => Ok(None),
        Some(Json::Array(items)) => {
            proof {
                array_view(*items);
            }
            match roles(items) {
                Ok(v) => Ok(Some(v)),
                Err(e) => Err(e),
            }
        }
        Some(other) => Err(cat2("audience must be a list, got ", type_of(other))),
    }
}

/// Takes when content was last modified from what reading the text gave.
pub fn last_modified_from_parsed(parsed: Result<Timestamp, String>) -> (r: Result<Option<Timestamp>, String>)
    ensures
        outcome(r) == last_modified_from(outcome(parsed)),
{
    match parsed {
        Ok(t) => Ok(Some(t)),
        Err(e) => Err(cat2("'last-modified' is not an ISO 8601 timestamp: ", e.as_str())),
    }
}

/// Reads when content was last modified, if the field is there.
fn last_modified(object: &JsonObject) -> (r: Result<Option<Timestamp>, String>)
    ensures
        outcome(r) == last_modified_field(object@),
{
    match optional_string(object, "last-modified") {
        Err(e) => Err(e),
        Ok(None) => Ok(None),
        Ok(Some(text)) => last_modified_from_parsed(parse_timestamp(text.as_str())),
    }
}

/// Whether a number is at least 0 and at most 1.
fn is_in_unit_range(n: &serde_json::Number) -> (r: bool)
    ensures
        r == in_unit_range(number_value(*n)),
{
    match number_as_u64(n) {
        Some(u) => u <= 1,
        None => match number_as_i64(n) {
            Some(_) => false,
            None => match number_as_float_bits(n) {
                Some(bits) => bits <= ONE_BITS || bits == MINUS_ZERO_BITS,
                None => false,
            },
        },
    }
}

/// Reads how important content is, if the field holds a number.
fn priority(object: &JsonObject) -> (r: Result<Option<serde_json::Number>, String>)
    ensures
        match r {
            Ok(Some(n)) => priority_field(object@) == Ok::<_, Seq<char>>(Some(number_value(n))),
            Ok(None) => priority_field(object@) == Ok::<Option<NumberView>, Seq<char>>(None),
            Err(e) => priority_field(object@) == Err::<Option<NumberView>, _>(e@),
        },
{
    match object.get("priority") {
        Some(Json::Number(n)) => if is_in_unit_range(n) {
            Ok(Some(n.clone()))
        } else {
            match write_float(n) {
                Some(t) => Err(cat2("'priority' must be between 0 and 1, got ", t.as_str())),
                None => Ok(None),
            }
        },
        _ => Ok(None),
    }
}

/// Reads hints on the use of content.
fn annotations(value: &Json) -> (r: Result<Annotations, String>)
    ensures
        outcome(r) == annotations_of(value@),
{
    let object = match as_object(value, "annotations") {
        Err(e) => {
            return Err(e);
        }
        Ok(v) => v,
    };
    let audience = match audience(object) {
        Err(e) => {
            return Err(e);
        }
        Ok(v) => v,
    };
    let last_modified = match last_modified(object) {
        Err(e) => {
            return Err(e);
        }
        Ok(v) => v,
    };
    let priority = match priority(object) {
        Err(e) => {
            return Err(e);
        }
        Ok(v) => v,
    };
    Ok(Annotations { audience, priority, last_modified })
}

/// Reads hints on the use of content, if the field is there.
fn optional_annotations(object: &JsonObject) -> (r: Result<Option<Annotations>, String>)
    ensures
        outcome(r) == annotations_field(object@),
{
    match given(object, "annotations") {
        None => Ok(None),
        Some(value) => match annotations(value) {
            Ok(a) => Ok(Some(a)),
            Err(e) => Err(e),
        },
    }
}

/// Reads the name of a variant's case, and its payload.
fn variant<'a>(object: &'a JsonObject, what: &str) -> (r: Result<(&'a str, &'a Json), String>)
    ensures
        outcome(r) == variant_of(object@, what@),
{
    match object.get("type") {
        Some(Json::Str(case)) => match object.get("value") {
            Some(payload) => Ok((case.as_str(), payload)),
            None => Err(cat4(what, " case '", case.as_str(), "' needs a \"value\"")),
        },
        _ => Err(cat2(what, " needs a \"type\" naming its case")),
    }
}

/// Reads what a resource holds, from the payload of its case.
fn read_resource_case(case: &str, payload: &JsonObject) -> (r: Result<ResourceContents, String>)
    ensures
        outcome(r) == resource_case(case@, payload@),
{
    let is_text = same(case, "text");
    if !is_text && !same(case, "blob") {
        return Err(cat3("unknown resource-contents case '", case, "'"));
    }
    let uri = match required_string(payload, "uri") {
        Err(e) => {
            return Err(e);
        }
        Ok(v) => v,
    };
    let mime_type = match optional_string(payload, "mime-type") {
        Err(e) => {
            return Err(e);
        }
        Ok(v) => v,
    };
    let data = match required_string(payload, case) {
        Err(e) => {
            return Err(e);
        }
        Ok(v) => v,
    };
    let meta = match meta(payload.get("meta")) {
        Err(e) => {
            return Err(e);
        }
        Ok(v) => v,
    };
    if is_text {
        Ok(ResourceContents::Text { uri, mime_type, text: data, meta })
    } else {
        Ok(ResourceContents::Blob { uri, mime_type, blob: data, meta })
    }
}

/// Reads what a resource holds.
fn resource_contents(value: Option<&Json>) -> (r: Result<ResourceContents, String>)
    ensures
        outcome(r) == resource_contents_of(value.deep_view()),
{
    let value = match value {
        None => {
            return Err("embedded-resource needs \"resource-data\"".to_owned());
        }
        Some(v) => v,
    };
    let object = match as_object(value, "resource-contents") {
        Err(e) => {
            return Err(e);
        }
        Ok(v) => v,
    };
    let (case, payload) = match variant(object, "resource-contents") {
        Err(e) => {
            return Err(e);
        }
        Ok(v) => v,
    };
    let payload = match as_object(payload, "resource-contents payload") {
        Err(e) => {
            return Err(e);
        }
        Ok(v) => v,
    };
    read_resource_case(case, payload)
}

/// Reads text content.
fn read_text(payload: &JsonObject) -> (r: Result<RawContent, String>)
    ensures
        outcome(r) == text_case(payload@),
{
    let text = match required_string(payload, "text") {
        Err(e) => {
            return Err(e);
        }
        Ok(v) => v,
    };
    let meta = match meta(payload.get("meta")) {
        Err(e) => {
            return Err(e);
        }
        Ok(v) => v,
    };
    Ok(RawContent::Text(RawTextContent { text, meta }))
}

/// Reads image content.
fn read_image(payload: &JsonObject) -> (r: Result<RawContent, String>)
    ensures
        outcome(r) == image_case(payload@),
{
    let data = match required_string(payload, "data") {
        Err(e) => {
            return Err(e);
        }
        Ok(v) => v,
    };
    let mime_type = match required_string(payload, "mime-type") {
        Err(e) => {
            return Err(e);
        }
        Ok(v) => v,
    };
    let meta = match meta(payload.get("meta")) {
        Err(e) => {
            return Err(e);
        }
        Ok(v) => v,
    };
    Ok(RawContent::Image(RawImageContent { data, mime_type, meta }))
}

/// Reads audio content. Its metadata are read, and left out.
fn read_audio(payload: &JsonObject) -> (r: Result<RawContent, String>)
    ensures
        outcome(r) == audio_case(payload@),
{
    match meta(payload.get("meta")) {
        Err(e) => {
            return Err(e);
        }
        Ok(_) => {}
    }
    let data = match required_string(payload, "data") {
        Err(e) => {
            return Err(e);
        }
        Ok(v) => v,
    };
    let mime_type = match required_string(payload, "mime-type") {
        Err(e) => {
            return Err(e);
        }
        Ok(v) => v,
    };
    Ok(RawContent::Audio(RawAudioContent { data, mime_type }))
}

/// Reads a link to a resource.
fn read_link(payload: &JsonObject) -> (r: Result<RawContent, String>)
    ensures
        outcome(r) == link_case(payload@),
{
    let uri = match required_string(payload, "uri") {
        Err(e) => {
            return Err(e);
        }
        Ok(v) => v,
    };
    let name = match optional_string(payload, "name") {
        Err(e) => {
            return Err(e);
        }
        Ok(v) => v,
    };
    let description = match optional_string(payload, "description") {
        Err(e) => {
            return Err(e);
        }
        Ok(v) => v,
    };
    let mime_type = match optional_string(payload, "mime-type") {
        Err(e) => {
            return Err(e);
        }
        Ok(v) => v,
    };
    let meta = match meta(payload.get("meta")) {
        Err(e) => {
            return Err(e);
        }
        Ok(v) => v,
    };
    let name = match name {
        Some(n) => n,
        None => String::new(),
    };
    Ok(RawContent::ResourceLink(RawResource { uri, name, description, mime_type, meta }))
}

/// Reads a resource within content.
fn read_embedded(payload: &JsonObject) -> (r: Result<RawContent, String>)
    ensures
        outcome(r) == embedded_case(payload@),
{
    let resource = match resource_contents(payload.get("resource-data")) {
        Err(e) => {
            return Err(e);
        }
        Ok(v) => v,
    };
    let meta = match meta(payload.get("meta")) {
        Err(e) => {
            return Err(e);
        }
        Ok(v) => v,
    };
    Ok(RawContent::Resource(RawEmbeddedResource { resource, meta }))
}

/// Reads content without annotations.
fn raw_content(case: &str, payload: &Json) -> (r: Result<RawContent, String>)
    ensures
        outcome(r) == raw_content_of(case@, payload@),
{
    if same(case, "text") {
        match as_object(payload, "text-content") {
            Err(e) => Err(e),
            Ok(payload) => read_text(payload),
        }
    } else if same(case, "image") {
        match as_object(payload, "image-content") {
            Err(e) => Err(e),
            Ok(payload) => read_image(payload),
        }
    } else if same(case, "audio") {
        match as_object(payload, "audio-content") {
            Err(e) => Err(e),
            Ok(payload) => read_audio(payload),
        }
    } else if same(case, "resource-link") {
        match as_object(payload, "resource-link") {
            Err(e) => Err(e),
            Ok(payload) => read_link(payload),
        }
    } else if same(case, "resource") {
        match as_object(payload, "embedded-resource") {
            Err(e) => Err(e),
            Ok(payload) => read_embedded(payload),
        }
    } else {
        Err(cat3("unknown content-block case '", case, "'"))
    }
}

/// Reads a block of content.
fn content_block(value: &Json) -> (r: Result<Content, String>)
    ensures
        outcome(r) == content_of(value@),
{
    let object = match as_object(value, "content-block") {
        Err(e) => {
            return Err(e);
        }
        Ok(v) => v,
    };
    let (case, payload) = match variant(object, "content-block") {
        Err(e) => {
            return Err(e);
        }
        Ok(v) => v,
    };
    let raw = match raw_content(case, payload) {
        Err(e) => {
            return Err(e);
        }
        Ok(v) => v,
    };
    let payload = match as_object(payload, "content-block payload") {
        Err(e) => {
            return Err(e);
        }
        Ok(v) => v,
    };
    let annotations = match optional_annotations(payload) {
        Err(e) => {
            return Err(e);
        }
        Ok(v) => v,
    };
    Ok(Content { raw, annotations })
}

/// Reads blocks of content.
fn content_blocks(items: &Vec<Json>) -> (r: Result<Vec<Content>, String>)
    ensures
        outcome(r) == contents_of(items.deep_view()),
{
    let ghost all = items.deep_view();
    let mut out: Vec<Content> = Vec::new();
    let mut i: usize = 0;
    assert(all.skip(0) == all);
    assert(out.deep_view() == Seq::<ContentView>::empty());
    while i < items.len()
        invariant
            i <= items.len(),
            all == items.deep_view(),
            match contents_of(all.skip(i as int)) {
                Ok(rest) => contents_of(all) == Ok::<Seq<ContentView>, Seq<char>>(out.deep_view() + rest),
                Err(e) => contents_of(all) == Err::<Seq<ContentView>, Seq<char>>(e),
            },
        decreases items.len() - i,
    {
        let ghost rest = all.skip(i as int);
        assert(rest[0] == items@[i as int]@);
        assert(rest.drop_first() == all.skip(i + 1));
        match content_block(&items[i]) {
            Err(e) => {
                return Err(e);
            }
            Ok(content) => {
                let ghost before = out.deep_view();
                let ghost last = content.deep_view();
                out.push(content);
                proof {
                    assert(out.deep_view() =~= before.push(last));
                    pushed_item_comes_first(before, last);
                }
            }
        }
        i += 1;
    }
    assert(out.deep_view() + Seq::<ContentView>::empty() =~= out.deep_view());
    Ok(out)
}

/// Whether a block of content is audio with metadata.
fn has_audio_meta(value: &Json) -> (r: bool)
    ensures
        r == is_audio_with_meta(value@),
{
    let object = match value {
        Json::Object(object) => object,
        _ => {
            return false;
        }
    };
    match variant(object, "content-block") {
        Ok((case, Json::Object(payload))) => {
            if !same(case, "audio") {
                return false;
            }
            match meta(payload.get("meta")) {
                Ok(Some(_)) => true,
                _ => false,
            }
        }
        _ => false,
    }
}

/// Reads the content of a result.
fn read_content(object: &JsonObject) -> (r: Result<Vec<Content>, String>)
    ensures
        outcome(r) == content_field(object@),
{
    match given(object, "content") {
        None => {
            let none: Vec<Content> = Vec::new();
            assert(none.deep_view() =~= Seq::<ContentView>::empty());
            Ok(none)
        }
        Some(Json::Array(items)) => {
            proof {
                array_view(*items);
            }
            content_blocks(items)
        }
        Some(other) => Err(cat2("content must be a list, got ", type_of(other))),
    }
}

/// How often `call_tool_result` leaves out the metadata of audio, which content of that kind
/// cannot hold.
pub fn dropped_audio_meta(value: &Json) -> (r: usize)
    ensures
        r == audio_meta_dropped(value@),
{
    let object = match value {
        Json::Object(object) => object,
        _ => {
            return 0;
        }
    };
    let items = match given(object, "content") {
        Some(Json::Array(items)) => items,
        _ => {
            return 0;
        }
    };
    proof {
        array_view(*items);
    }
    let ghost all = items.deep_view();
    let mut count: usize = 0;
    let mut i: usize = 0;
    assert(all.skip(0) == all);
    while i < items.len()
        invariant
            count <= i <= items.len(),
            all == items.deep_view(),
            audio_meta_dropped(value@) == audio_with_meta_in(all),
            audio_with_meta_in(all) == count + audio_with_meta_in(all.skip(i as int)),
        decreases items.len() - i,
    {
        let ghost rest = all.skip(i as int);
        assert(rest[0] == items@[i as int]@);
        assert(rest.drop_first() == all.skip(i + 1));
        if has_audio_meta(&items[i]) {
            count += 1;
        }
        if content_block(&items[i]).is_err() {
            return count;
        }
        i += 1;
    }
    count
}

/// Builds a `CallToolResult` from what `tool.call()` returns. Metadata of audio are left
/// out (`dropped_audio_meta`).
pub fn call_tool_result(value: &Json) -> (r: Result<CallToolResult, String>)
    ensures
        outcome(r) == result_of(value@),
{
    let object = match as_object(value, "call-tool-result") {
        Err(e) => {
            return Err(e);
        }
        Ok(v) => v,
    };
    let content = match read_content(object) {
        Err(e) => {
            return Err(e);
        }
        Ok(v) => v,
    };
    let is_error = match required_bool(object, "is-error") {
        Err(e) => {
            return Err(e);
        }
        Ok(v) => v,
    };
    let structured = match optional_json(object, "structured-content") {
        Err(e) => {
            return Err(e);
        }
        Ok(v) => v,
    };
    let mut result = match structured {
        Some(value) => if is_error {
            CallToolResult::structured_error(value)
        } else {
            CallToolResult::structured(value)
        },
        None => if is_error {
            CallToolResult::error(content)
        } else {
            CallToolResult::success(content)
        },
    };
    let meta = match meta(object.get("meta")) {
        Err(e) => {
            return Err(e);
        }
        Ok(v) => v,
    };
    result.meta = meta;
    Ok(result)
}

/// The `_meta` entries to send a tool, as an array of `[key, value]` pairs.
pub fn meta_entries(entries: Vec<(String, String)>) -> (r: Json)
    ensures
        r@ == entries_value(entries.deep_view()),
{
    let ghost all = entries.deep_view();
    let ghost pairs = entries_value(all)->Array_0;
    let mut out: Vec<Json> = Vec::new();
    let mut i: usize = 0;
    while i < entries.len()
        invariant
            i <= entries.len(),
            all == entries.deep_view(),
            pairs == entries_value(all)->Array_0,
            out@.len() == i,
            forall|k: int| 0 <= k < i ==> #[trigger] out@[k]@ == pairs[k],
        decreases entries.len() - i,
    {
        let pair = vec![Json::Str(entries[i].0.clone()), Json::Str(entries[i].1.clone())];
        proof {
            array_view(pair);
            assert(pair.deep_view() =~= seq![JsonView::Str(all[i as int].0), JsonView::Str(all[i as int].1)]);
        }
        out.push(Json::Array(pair));
        i += 1;
    }
    proof {
        array_view(out);
        assert forall|k: int| 0 <= k < out@.len() implies out.deep_view()[k] == pairs[k] by {
            assert(out@[k]@ == pairs[k]);
        }
        assert(out.deep_view() =~= pairs);
    }
    Json::Array(out)
}

/// Whether a component with these exports contributes a tool through
/// `composable:tools/tool`.
pub fn exports_tool(exports: &Vec<String>) -> (r: bool)
    ensures
        r == (exists|i: int| 0 <= i < exports@.len() && begins_with(#[trigger] exports@[i]@, TOOL_EXPORT@)),
        r == contribute_a_tool(exports.deep_view()),
{
    let mut i: usize = 0;
    while i < exports.len()
        invariant
            i <= exports.len(),
            forall|k: int| 0 <= k < i ==> !begins_with(#[trigger] exports@[k]@, TOOL_EXPORT@),
        decreases exports.len() - i,
    {
        if strip_prefix(exports[i].as_str(), TOOL_EXPORT).is_some() {
            assert(begins_with(exports.deep_view()[i as int], TOOL_EXPORT@));
            return true;
        }
        i += 1;
    }
    assert forall|k: int| 0 <= k < exports@.len() implies !begins_with(
        #[trigger] exports.deep_view()[k],
        TOOL_EXPORT@,
    ) by {
        assert(!begins_with(exports@[k]@, TOOL_EXPORT@));
    }
    false
}

} // verus!
