//! What the values of `composable:tools` stand for in the MCP model, or what is
//! wrong with them.

use vstd::prelude::*;

use crate::json::{parsed, with_member, Fields, JsonView, NumberView, MINUS_ZERO_BITS};
use crate::mcp::{
    content_result, structured_result, AnnotationsView, CallToolResultView, ContentView, RawContentView,
    ResourceContentsView, Role, Timestamp, ToolAnnotationsView, ToolView,
};
use crate::pairs::lookup;
use crate::text::{begins_with, decimal_text};
use crate::tools::TOOL_EXPORT;

verus! {

/// What kind of value a value is.
pub open spec fn kind_of(value: JsonView) -> Seq<char> {
    match value {
        JsonView::Null => "null"@,
        JsonView::Bool(_) => "a boolean"@,
        JsonView::Number(_) => "a number"@,
        JsonView::Str(_) => "a string"@,
        JsonView::Array(_) => "a list"@,
        JsonView::Object(_) => "an object"@,
    }
}

/// A value that has to be an object.
pub open spec fn object_of(value: JsonView, what: Seq<char>) -> Result<Fields, Seq<char>> {
    match value {
        JsonView::Object(fields) => Ok(fields),
        _ => Err(what + " must be an object, got "@ + kind_of(value)),
    }
}

/// A field that is there: neither absent nor null.
pub open spec fn present(object: Fields, field: Seq<char>) -> Option<JsonView> {
    match lookup(object, field) {
        None | Some(JsonView::Null) => None,
        Some(value) => Some(value),
    }
}

/// A field that holds text if it is there.
pub open spec fn optional_text(object: Fields, field: Seq<char>) -> Result<Option<Seq<char>>, Seq<char>> {
    match present(object, field) {
        None => Ok(None),
        Some(JsonView::Str(s)) => Ok(Some(s)),
        Some(other) => Err("'"@ + field + "' must be a string, got "@ + kind_of(other)),
    }
}

/// A field that holds text.
pub open spec fn required_text(object: Fields, field: Seq<char>) -> Result<Seq<char>, Seq<char>> {
    match lookup(object, field) {
        Some(JsonView::Str(s)) => Ok(s),
        _ => Err("'"@ + field + "' must be a string"@),
    }
}

/// A field that holds a truth value.
pub open spec fn required_flag(object: Fields, field: Seq<char>) -> Result<bool, Seq<char>> {
    match lookup(object, field) {
        Some(JsonView::Bool(b)) => Ok(b),
        _ => Err("'"@ + field + "' must be a boolean"@),
    }
}

/// A field that holds a truth value, or else counts for nothing.
pub open spec fn hint(object: Fields, field: Seq<char>) -> Option<bool> {
    match lookup(object, field) {
        Some(JsonView::Bool(b)) => Some(b),
        _ => None,
    }
}

/// The value of a field's JSON text, from what parsing it gave.
pub open spec fn value_from(field: Seq<char>, result: Result<JsonView, Seq<char>>) -> Result<
    Option<JsonView>,
    Seq<char>,
> {
    match result {
        Ok(value) => Ok(Some(value)),
        Err(e) => Err("'"@ + field + "' is not valid JSON: "@ + e),
    }
}

/// A field that holds JSON text if it is there.
pub open spec fn optional_value(object: Fields, field: Seq<char>) -> Result<Option<JsonView>, Seq<char>> {
    match present(object, field) {
        None => Ok(None),
        Some(JsonView::Str(text)) => value_from(field, parsed(text)),
        Some(other) => Err("'"@ + field + "' must be a JSON string, got "@ + kind_of(other)),
    }
}

/// The JSON Schema that a field's text holds, from what parsing it gave.
pub open spec fn schema_from(field: Seq<char>, result: Result<JsonView, Seq<char>>) -> Result<Fields, Seq<char>> {
    match result {
        Ok(JsonView::Object(schema)) => Ok(schema),
        Ok(other) => Err("'"@ + field + "' must be a JSON Schema object, got "@ + kind_of(other)),
        Err(e) => Err("'"@ + field + "' is not valid JSON: "@ + e),
    }
}

/// A field whose text, once parsed, is a JSON Schema.
pub open spec fn schema_field(object: Fields, field: Seq<char>) -> Result<Fields, Seq<char>> {
    match lookup(object, field) {
        Some(JsonView::Str(text)) => schema_from(field, parsed(text)),
        _ => Err("'"@ + field + "' must be a JSON string"@),
    }
}

/// A schema, if it describes an object.
pub open spec fn object_schema(field: Seq<char>, schema: Fields) -> Result<Fields, Seq<char>> {
    match lookup(schema, "type"@) {
        Some(JsonView::Str(s)) => if s == "object"@ {
            Ok(schema)
        } else {
            Err("'"@ + field + "' must be of type object, got "@ + s)
        },
        _ => Err("'"@ + field + "' must declare type object"@),
    }
}

/// A field that holds the schema of an object.
pub open spec fn input_schema_field(object: Fields, field: Seq<char>) -> Result<Fields, Seq<char>> {
    match schema_field(object, field) {
        Err(e) => Err(e),
        Ok(schema) => object_schema(field, schema),
    }
}

/// A schema, if the field is there.
pub open spec fn optional_schema_field(object: Fields, field: Seq<char>) -> Result<Option<Fields>, Seq<char>> {
    match present(object, field) {
        None => Ok(None),
        Some(_) => match schema_field(object, field) {
            Ok(schema) => Ok(Some(schema)),
            Err(e) => Err(e),
        },
    }
}

/// A `_meta` entry: a pair of texts.
pub open spec fn meta_entry(item: JsonView) -> Result<(Seq<char>, Seq<char>), Seq<char>> {
    match item {
        JsonView::Array(pair) => if pair.len() != 2 {
            Err("meta entry must hold exactly two elements, got "@ + decimal_text(pair.len()))
        } else {
            match pair[0] {
                JsonView::Str(key) => match pair[1] {
                    JsonView::Str(value) => Ok((key, value)),
                    other => Err("meta value must be a string, got "@ + kind_of(other)),
                },
                other => Err("meta key must be a string, got "@ + kind_of(other)),
            }
        },
        other => Err("meta entry must be a pair, got "@ + kind_of(other)),
    }
}

/// The `_meta` object that entries make when they are written, in order, over
/// what is there already.
pub open spec fn meta_entries_over(there: Fields, items: Seq<JsonView>) -> Result<Fields, Seq<char>>
    decreases items.len(),
{
    if items.len() == 0 {
        Ok(there)
    } else {
        match meta_entry(items[0]) {
            Err(e) => Err(e),
            Ok((key, value)) => meta_entries_over(
                with_member(there, key, JsonView::Str(value)),
                items.drop_first(),
            ),
        }
    }
}

/// The `_meta` object that a list of entries makes; none, if there is no entry.
pub open spec fn meta_of(value: Option<JsonView>) -> Result<Option<Fields>, Seq<char>> {
    match value {
        None | Some(JsonView::Null) => Ok(None),
        Some(JsonView::Array(items)) => if items.len() == 0 {
            Ok(None)
        } else {
            match meta_entries_over(Seq::empty(), items) {
                Ok(fields) => Ok(Some(fields)),
                Err(e) => Err(e),
            }
        },
        Some(other) => Err("meta must be a list, got "@ + kind_of(other)),
    }
}

/// Hints on what a tool does.
pub open spec fn tool_annotations_of(value: JsonView) -> Result<ToolAnnotationsView, Seq<char>> {
    match object_of(value, "tool-annotations"@) {
        Err(e) => Err(e),
        Ok(object) => match optional_text(object, "title"@) {
            Err(e) => Err(e),
            Ok(title) => Ok(
                ToolAnnotationsView {
                    title,
                    read_only_hint: hint(object, "read-only-hint"@),
                    destructive_hint: hint(object, "destructive-hint"@),
                    idempotent_hint: hint(object, "idempotent-hint"@),
                    open_world_hint: hint(object, "open-world-hint"@),
                },
            ),
        },
    }
}

/// Hints on what a tool does, if the field is there.
pub open spec fn tool_annotations_field(object: Fields) -> Result<Option<ToolAnnotationsView>, Seq<char>> {
    match present(object, "annotations"@) {
        None => Ok(None),
        Some(value) => match tool_annotations_of(value) {
            Ok(a) => Ok(Some(a)),
            Err(e) => Err(e),
        },
    }
}

/// A tool, from its metadata. Its name is given, whatever the metadata say.
pub open spec fn tool_of(value: JsonView, name: Seq<char>) -> Result<ToolView, Seq<char>> {
    match object_of(value, "tool-metadata"@) {
        Err(e) => Err(e),
        Ok(object) => match optional_text(object, "description"@) {
            Err(e) => Err(e),
            Ok(description) => match input_schema_field(object, "input-schema"@) {
                Err(e) => Err(e),
                Ok(input_schema) => match optional_text(object, "title"@) {
                    Err(e) => Err(e),
                    Ok(title) => match optional_schema_field(object, "output-schema"@) {
                        Err(e) => Err(e),
                        Ok(output_schema) => match tool_annotations_field(object) {
                            Err(e) => Err(e),
                            Ok(annotations) => match meta_of(lookup(object, "meta"@)) {
                                Err(e) => Err(e),
                                Ok(meta) => Ok(
                                    ToolView { name, title, description, input_schema, output_schema, annotations, meta },
                                ),
                            },
                        },
                    },
                },
            },
        },
    }
}

/// Who content is meant for.
pub open spec fn role_of(value: JsonView) -> Result<Role, Seq<char>> {
    match value {
        JsonView::Str(s) => if s == "user"@ {
            Ok(Role::User)
        } else if s == "assistant"@ {
            Ok(Role::Assistant)
        } else {
            Err("unknown role '"@ + s + "'"@)
        },
        other => Err("role must be a string, got "@ + kind_of(other)),
    }
}

/// Whom content is meant for, up to the first value that is no role.
pub open spec fn roles_of(items: Seq<JsonView>) -> Result<Seq<Role>, Seq<char>>
    decreases items.len(),
{
    if items.len() == 0 {
        Ok(Seq::empty())
    } else {
        match role_of(items[0]) {
            Err(e) => Err(e),
            Ok(role) => match roles_of(items.drop_first()) {
                Err(e) => Err(e),
                Ok(rest) => Ok(seq![role] + rest),
            },
        }
    }
}

/// Whom content is meant for, if the field is there.
pub open spec fn audience_field(object: Fields) -> Result<Option<Seq<Role>>, Seq<char>> {
    match present(object, "audience"@) {
        None => Ok(None),
        Some(JsonView::Array(items)) => match roles_of(items) {
            Ok(roles) => Ok(Some(roles)),
            Err(e) => Err(e),
        },
        Some(other) => Err("audience must be a list, got "@ + kind_of(other)),
    }
}

/// What `chrono` makes of a text as a point in time: seconds and nanoseconds
/// since the epoch, or the words of its error.
pub uninterp spec fn timestamp_parsed(text: Seq<char>) -> Result<Timestamp, Seq<char>>;

/// When content was last modified, from what reading the text gave.
pub open spec fn last_modified_from(result: Result<Timestamp, Seq<char>>) -> Result<Option<Timestamp>, Seq<char>> {
    match result {
        Ok(t) => Ok(Some(t)),
        Err(e) => Err("'last-modified' is not an ISO 8601 timestamp: "@ + e),
    }
}

/// When content was last modified, if the field is there.
pub open spec fn last_modified_field(object: Fields) -> Result<Option<Timestamp>, Seq<char>> {
    match optional_text(object, "last-modified"@) {
        Err(e) => Err(e),
        Ok(None) => Ok(None),
        Ok(Some(text)) => last_modified_from(timestamp_parsed(text)),
    }
}

/// The bits of the double-precision number 1.
pub const ONE_BITS: u64 = 0x3ff0_0000_0000_0000;

/// Whether a number is at least 0 and at most 1. Double-precision numbers that
/// are not negative are in the order of their bits.
pub open spec fn in_unit_range(n: NumberView) -> bool {
    match n {
        NumberView::PosInt(u) => u <= 1,
        NumberView::NegInt(_) => false,
        NumberView::Float(bits) => bits <= ONE_BITS || bits == MINUS_ZERO_BITS,
    }
}

/// A number as Rust writes it once it is a double-precision number.
pub uninterp spec fn float_text(n: NumberView) -> Seq<char>;

/// How important content is, if the field holds a number.
pub open spec fn priority_field(object: Fields) -> Result<Option<NumberView>, Seq<char>> {
    match lookup(object, "priority"@) {
        Some(JsonView::Number(n)) => if in_unit_range(n) {
            Ok(Some(n))
        } else {
            Err("'priority' must be between 0 and 1, got "@ + float_text(n))
        },
        _ => Ok(None),
    }
}

/// Hints on the use of content.
pub open spec fn annotations_of(value: JsonView) -> Result<AnnotationsView, Seq<char>> {
    match object_of(value, "annotations"@) {
        Err(e) => Err(e),
        Ok(object) => match audience_field(object) {
            Err(e) => Err(e),
            Ok(audience) => match last_modified_field(object) {
                Err(e) => Err(e),
                Ok(last_modified) => match priority_field(object) {
                    Err(e) => Err(e),
                    Ok(priority) => Ok(AnnotationsView { audience, priority, last_modified }),
                },
            },
        },
    }
}

/// Hints on the use of content, if the field is there.
pub open spec fn annotations_field(object: Fields) -> Result<Option<AnnotationsView>, Seq<char>> {
    match present(object, "annotations"@) {
        None => Ok(None),
        Some(value) => match annotations_of(value) {
            Ok(a) => Ok(Some(a)),
            Err(e) => Err(e),
        },
    }
}

/// A variant in JSON: the name of its case, and its payload.
pub open spec fn variant_of(object: Fields, what: Seq<char>) -> Result<(Seq<char>, JsonView), Seq<char>> {
    match lookup(object, "type"@) {
        Some(JsonView::Str(case)) => match lookup(object, "value"@) {
            Some(payload) => Ok((case, payload)),
            None => Err(what + " case '"@ + case + "' needs a \"value\""@),
        },
        _ => Err(what + " needs a \"type\" naming its case"@),
    }
}

/// What a resource holds, from the payload of its case.
pub open spec fn resource_case(case: Seq<char>, payload: Fields) -> Result<ResourceContentsView, Seq<char>> {
    if case == "text"@ || case == "blob"@ {
        match required_text(payload, "uri"@) {
            Err(e) => Err(e),
            Ok(uri) => match optional_text(payload, "mime-type"@) {
                Err(e) => Err(e),
                Ok(mime_type) => match required_text(payload, case) {
                    Err(e) => Err(e),
                    Ok(data) => match meta_of(lookup(payload, "meta"@)) {
                        Err(e) => Err(e),
                        Ok(meta) => Ok(
                            if case == "text"@ {
                                ResourceContentsView::Text { uri, mime_type, text: data, meta }
                            } else {
                                ResourceContentsView::Blob { uri, mime_type, blob: data, meta }
                            },
                        ),
                    },
                },
            },
        }
    } else {
        Err("unknown resource-contents case '"@ + case + "'"@)
    }
}

/// What a resource holds.
pub open spec fn resource_contents_of(value: Option<JsonView>) -> Result<ResourceContentsView, Seq<char>> {
    match value {
        None => Err("embedded-resource needs \"resource-data\""@),
        Some(value) => match object_of(value, "resource-contents"@) {
            Err(e) => Err(e),
            Ok(object) => match variant_of(object, "resource-contents"@) {
                Err(e) => Err(e),
                Ok((case, payload)) => match object_of(payload, "resource-contents payload"@) {
                    Err(e) => Err(e),
                    Ok(payload) => resource_case(case, payload),
                },
            },
        },
    }
}

/// Text content, from its payload.
pub open spec fn text_case(payload: Fields) -> Result<RawContentView, Seq<char>> {
    match required_text(payload, "text"@) {
        Err(e) => Err(e),
        Ok(text) => match meta_of(lookup(payload, "meta"@)) {
            Err(e) => Err(e),
            Ok(meta) => Ok(RawContentView::Text { text, meta }),
        },
    }
}

/// Image content, from its payload.
pub open spec fn image_case(payload: Fields) -> Result<RawContentView, Seq<char>> {
    match required_text(payload, "data"@) {
        Err(e) => Err(e),
        Ok(data) => match required_text(payload, "mime-type"@) {
            Err(e) => Err(e),
            Ok(mime_type) => match meta_of(lookup(payload, "meta"@)) {
                Err(e) => Err(e),
                Ok(meta) => Ok(RawContentView::Image { data, mime_type, meta }),
            },
        },
    }
}

/// Audio content, from its payload. Its metadata are read, and left out.
pub open spec fn audio_case(payload: Fields) -> Result<RawContentView, Seq<char>> {
    match meta_of(lookup(payload, "meta"@)) {
        Err(e) => Err(e),
        Ok(_) => match required_text(payload, "data"@) {
            Err(e) => Err(e),
            Ok(data) => match required_text(payload, "mime-type"@) {
                Err(e) => Err(e),
                Ok(mime_type) => Ok(RawContentView::Audio { data, mime_type }),
            },
        },
    }
}

/// A link to a resource, from its payload. A link without a name has an empty one.
pub open spec fn link_case(payload: Fields) -> Result<RawContentView, Seq<char>> {
    match required_text(payload, "uri"@) {
        Err(e) => Err(e),
        Ok(uri) => match optional_text(payload, "name"@) {
            Err(e) => Err(e),
            Ok(name) => match optional_text(payload, "description"@) {
                Err(e) => Err(e),
                Ok(description) => match optional_text(payload, "mime-type"@) {
                    Err(e) => Err(e),
                    Ok(mime_type) => match meta_of(lookup(payload, "meta"@)) {
                        Err(e) => Err(e),
                        Ok(meta) => Ok(
                            RawContentView::ResourceLink {
                                uri,
                                name: match name {
                                    Some(n) => n,
                                    None => Seq::empty(),
                                },
                                description,
                                mime_type,
                                meta,
                            },
                        ),
                    },
                },
            },
        },
    }
}

/// A resource within content, from its payload.
pub open spec fn embedded_case(payload: Fields) -> Result<RawContentView, Seq<char>> {
    match resource_contents_of(lookup(payload, "resource-data"@)) {
        Err(e) => Err(e),
        Ok(resource) => match meta_of(lookup(payload, "meta"@)) {
            Err(e) => Err(e),
            Ok(meta) => Ok(RawContentView::Resource { resource, meta }),
        },
    }
}

/// Content without annotations, from the name of its case and its payload.
pub open spec fn raw_content_of(case: Seq<char>, payload: JsonView) -> Result<RawContentView, Seq<char>> {
    if case == "text"@ {
        match object_of(payload, "text-content"@) {
            Err(e) => Err(e),
            Ok(payload) => text_case(payload),
        }
    } else if case == "image"@ {
        match object_of(payload, "image-content"@) {
            Err(e) => Err(e),
            Ok(payload) => image_case(payload),
        }
    } else if case == "audio"@ {
        match object_of(payload, "audio-content"@) {
            Err(e) => Err(e),
            Ok(payload) => audio_case(payload),
        }
    } else if case == "resource-link"@ {
        match object_of(payload, "resource-link"@) {
            Err(e) => Err(e),
            Ok(payload) => link_case(payload),
        }
    } else if case == "resource"@ {
        match object_of(payload, "embedded-resource"@) {
            Err(e) => Err(e),
            Ok(payload) => embedded_case(payload),
        }
    } else {
        Err("unknown content-block case '"@ + case + "'"@)
    }
}

/// A block of content.
pub open spec fn content_of(value: JsonView) -> Result<ContentView, Seq<char>> {
    match object_of(value, "content-block"@) {
        Err(e) => Err(e),
        Ok(object) => match variant_of(object, "content-block"@) {
            Err(e) => Err(e),
            Ok((case, payload)) => match raw_content_of(case, payload) {
                Err(e) => Err(e),
                Ok(raw) => match object_of(payload, "content-block payload"@) {
                    Err(e) => Err(e),
                    Ok(payload) => match annotations_field(payload) {
                        Err(e) => Err(e),
                        Ok(annotations) => Ok(ContentView { raw, annotations }),
                    },
                },
            },
        },
    }
}

/// Blocks of content, up to the first value that is none.
pub open spec fn contents_of(items: Seq<JsonView>) -> Result<Seq<ContentView>, Seq<char>>
    decreases items.len(),
{
    if items.len() == 0 {
        Ok(Seq::empty())
    } else {
        match content_of(items[0]) {
            Err(e) => Err(e),
            Ok(content) => match contents_of(items.drop_first()) {
                Err(e) => Err(e),
                Ok(rest) => Ok(seq![content] + rest),
            },
        }
    }
}

/// Whether a block of content is audio with metadata.
pub open spec fn is_audio_with_meta(value: JsonView) -> bool {
    match value {
        JsonView::Object(object) => match variant_of(object, "content-block"@) {
            Ok((case, JsonView::Object(payload))) => case == "audio"@ && (meta_of(lookup(payload, "meta"@)) matches Ok(
                Some(_),
            )),
            _ => false,
        },
        _ => false,
    }
}

/// How many of the blocks that are read are audio with metadata. Nothing is read after the
/// first value that is refused.
pub open spec fn audio_with_meta_in(items: Seq<JsonView>) -> nat
    decreases items.len(),
{
    if items.len() == 0 {
        0
    } else {
        let first: nat = if is_audio_with_meta(items[0]) {
            1
        } else {
            0
        };
        match content_of(items[0]) {
            Err(_) => first,
            Ok(_) => first + audio_with_meta_in(items.drop_first()),
        }
    }
}

/// How often the metadata of audio are left out when a result is read.
pub open spec fn audio_meta_dropped(value: JsonView) -> nat {
    match value {
        JsonView::Object(object) => match present(object, "content"@) {
            Some(JsonView::Array(items)) => audio_with_meta_in(items),
            _ => 0,
        },
        _ => 0,
    }
}

/// The content of a result; none, if the field is not there.
pub open spec fn content_field(object: Fields) -> Result<Seq<ContentView>, Seq<char>> {
    match present(object, "content"@) {
        None => Ok(Seq::empty()),
        Some(JsonView::Array(items)) => contents_of(items),
        Some(other) => Err("content must be a list, got "@ + kind_of(other)),
    }
}

/// A result without metadata. Where there is a structured value, its text takes
/// the place of the content.
pub open spec fn bare_result(content: Seq<ContentView>, structured: Option<JsonView>, is_error: bool) -> CallToolResultView {
    match structured {
        Some(value) => structured_result(value, is_error),
        None => content_result(content, is_error),
    }
}

/// The result of a tool call.
pub open spec fn result_of(value: JsonView) -> Result<CallToolResultView, Seq<char>> {
    match object_of(value, "call-tool-result"@) {
        Err(e) => Err(e),
        Ok(object) => match content_field(object) {
            Err(e) => Err(e),
            Ok(content) => match required_flag(object, "is-error"@) {
                Err(e) => Err(e),
                Ok(is_error) => match optional_value(object, "structured-content"@) {
                    Err(e) => Err(e),
                    Ok(structured) => match meta_of(lookup(object, "meta"@)) {
                        Err(e) => Err(e),
                        Ok(meta) => Ok(
                            CallToolResultView { meta, ..bare_result(content, structured, is_error) },
                        ),
                    },
                },
            },
        },
    }
}

/// Whether exports contribute a tool: whether one of them is the interface of one, in some
/// version.
pub open spec fn contribute_a_tool(exports: Seq<Seq<char>>) -> bool {
    exists|i: int| 0 <= i < exports.len() && begins_with(#[trigger] exports[i], TOOL_EXPORT@)
}

/// The `_meta` entries to send a tool: pairs of texts.
pub open spec fn entries_value(entries: Seq<(Seq<char>, Seq<char>)>) -> JsonView {
    JsonView::Array(
        Seq::new(
            entries.len(),
            |i: int| JsonView::Array(seq![JsonView::Str(entries[i].0), JsonView::Str(entries[i].1)]),
        ),
    )
}

} // verus!
