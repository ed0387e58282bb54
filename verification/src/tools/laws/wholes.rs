//! What results and tools hold, field by field.

use vstd::prelude::*;

use crate::json::{parsed, written, Fields, JsonView};
use crate::mcp::{ContentView, RawContentView, ToolAnnotationsView};
use crate::pairs::lookup;
use crate::text::begins_with;
use crate::text::laws::prefixes_are_completed;
use crate::tools::laws::blocks::{is_block, is_missing, is_optional_text_of, is_text};
use crate::tools::laws::content_is_read_block_by_block;
use crate::tools::rules::{
    audio_meta_dropped, audio_with_meta_in, content_of, contents_of, contribute_a_tool, entries_value,
    is_audio_with_meta, meta_of, result_of, tool_annotations_field, tool_of,
};
use crate::tools::TOOL_EXPORT;

verus! {

/// Whether content is that of a field, block by block; none where the field is missing.
pub open spec fn is_content_of(content: Seq<ContentView>, object: Fields) -> bool {
    if is_missing(object, "content"@) {
        content.len() == 0
    } else {
        lookup(object, "content"@) matches Some(JsonView::Array(items)) && content.len() == items.len() && forall|i: int|
            0 <= i < items.len() ==> content_of(#[trigger] items[i]) == Ok::<ContentView, Seq<char>>(content[i])
    }
}

/// Whether the content of an object can be read.
pub open spec fn has_readable_content(object: Fields) -> bool {
    is_missing(object, "content"@) || (lookup(object, "content"@) matches Some(JsonView::Array(items)) && forall|i: int|
        0 <= i < items.len() ==> content_of(#[trigger] items[i]) is Ok)
}

/// Whether a field holds a JSON text, or is missing.
pub open spec fn has_readable_json(object: Fields, field: Seq<char>) -> bool {
    is_missing(object, field) || (lookup(object, field) matches Some(JsonView::Str(text)) && parsed(text) is Ok)
}

/// A result is an error if and only if the object says so, and has its metadata. Structured
/// content is the value of the JSON text that the object holds, and shows as its JSON; without
/// it the content is that of the object, block by block. A result is read if and only if each
/// of these can be.
pub proof fn results_hold_their_fields(object: Fields)
    ensures
        match result_of(JsonView::Object(object)) {
            Ok(result) => {
                &&& result.is_error is Some
                &&& lookup(object, "is-error"@) == Some(JsonView::Bool(result.is_error->0))
                &&& meta_of(lookup(object, "meta"@)) == Ok::<Option<Fields>, Seq<char>>(result.meta)
                &&& match result.structured_content {
                    Some(value) => {
                        &&& lookup(object, "structured-content"@) matches Some(JsonView::Str(text)) && parsed(text)
                            == Ok::<JsonView, Seq<char>>(value)
                        &&& result.content.len() == 1
                        &&& result.content[0].raw == (RawContentView::Text { text: written(value), meta: None })
                        &&& result.content[0].annotations is None
                    },
                    None => is_missing(object, "structured-content"@) && is_content_of(result.content, object),
                }
                &&& has_readable_content(object)
            },
            Err(_) => !has_readable_content(object) || !(lookup(object, "is-error"@) matches Some(JsonView::Bool(_)))
                || !has_readable_json(object, "structured-content"@) || meta_of(lookup(object, "meta"@)) is Err,
        },
{
    if let Some(JsonView::Array(items)) = lookup(object, "content"@) {
        content_is_read_block_by_block(items);
        if contents_of(items) is Ok {
            assert forall|i: int| 0 <= i < items.len() implies content_of(#[trigger] items[i]) is Ok by {}
        }
    }
}

/// What is no object is neither a result nor the metadata of a tool.
pub proof fn only_objects_are_read(value: JsonView, name: Seq<char>)
    requires
        !(value is Object),
    ensures
        result_of(value) is Err,
        tool_of(value, name) is Err,
{
}

/// Whether a schema is the one whose JSON text a field holds.
pub open spec fn is_schema_of(schema: Fields, object: Fields, field: Seq<char>) -> bool {
    lookup(object, field) matches Some(JsonView::Str(text)) && parsed(text) == Ok::<JsonView, Seq<char>>(
        JsonView::Object(schema),
    )
}

/// Whether a schema describes an object.
pub open spec fn is_typed_object(schema: Fields) -> bool {
    lookup(schema, "type"@) == Some(JsonView::Str("object"@))
}

/// Whether a hint is the truth value that a field holds, or there is none.
pub open spec fn is_hint_of(hint: Option<bool>, object: Fields, field: Seq<char>) -> bool {
    match hint {
        Some(b) => lookup(object, field) == Some(JsonView::Bool(b)),
        None => !(lookup(object, field) matches Some(JsonView::Bool(_))),
    }
}

/// The hints on what a tool does are those of the object's field, each as it stands there,
/// and there are none where the field is missing.
pub proof fn tool_annotations_hold_their_fields(object: Fields)
    ensures
        match tool_annotations_field(object) {
            Ok(None) => is_missing(object, "annotations"@),
            Ok(Some(a)) => lookup(object, "annotations"@) matches Some(JsonView::Object(hints)) && {
                &&& is_optional_text_of(a.title, hints, "title"@)
                &&& is_hint_of(a.read_only_hint, hints, "read-only-hint"@)
                &&& is_hint_of(a.destructive_hint, hints, "destructive-hint"@)
                &&& is_hint_of(a.idempotent_hint, hints, "idempotent-hint"@)
                &&& is_hint_of(a.open_world_hint, hints, "open-world-hint"@)
            },
            Err(_) => !is_missing(object, "annotations"@) && (lookup(object, "annotations"@) matches Some(
                JsonView::Object(hints),
            ) ==> !is_missing(hints, "title"@) && !is_text(hints, "title"@)),
        },
{
}

/// A tool has the name it is given, and the title, description, schemas, hints and metadata
/// of the object, each as it stands there; its input schema describes an object. It is read
/// if and only if each of these can be.
pub proof fn tools_hold_their_fields(object: Fields, name: Seq<char>)
    ensures
        match tool_of(JsonView::Object(object), name) {
            Ok(tool) => {
                &&& tool.name == name
                &&& is_optional_text_of(tool.title, object, "title"@)
                &&& is_optional_text_of(tool.description, object, "description"@)
                &&& is_schema_of(tool.input_schema, object, "input-schema"@)
                &&& is_typed_object(tool.input_schema)
                &&& match tool.output_schema {
                    Some(schema) => is_schema_of(schema, object, "output-schema"@),
                    None => is_missing(object, "output-schema"@),
                }
                &&& tool_annotations_field(object) == Ok::<Option<ToolAnnotationsView>, Seq<char>>(tool.annotations)
                &&& meta_of(lookup(object, "meta"@)) == Ok::<Option<Fields>, Seq<char>>(tool.meta)
            },
            Err(_) => {
                ||| !is_missing(object, "title"@) && !is_text(object, "title"@)
                ||| !is_missing(object, "description"@) && !is_text(object, "description"@)
                ||| forall|schema: Fields|
                    #[trigger] is_schema_of(schema, object, "input-schema"@) ==> !is_typed_object(schema)
                ||| !is_missing(object, "output-schema"@) && forall|schema: Fields|
                    !is_schema_of(schema, object, "output-schema"@)
                ||| tool_annotations_field(object) is Err
                ||| meta_of(lookup(object, "meta"@)) is Err
            },
        },
{
    if let Some(JsonView::Str(text)) = lookup(object, "input-schema"@) {
        if let Ok(JsonView::Object(schema)) = parsed(text) {
            assert(is_schema_of(schema, object, "input-schema"@));
        }
    }
    if let Some(JsonView::Str(text)) = lookup(object, "output-schema"@) {
        if let Ok(JsonView::Object(schema)) = parsed(text) {
            assert(is_schema_of(schema, object, "output-schema"@));
        }
    }
}

/// A component contributes a tool if and only if one of its exports is
/// `composable:tools/tool@` and a version; a `toolset` is none.
pub proof fn tools_are_told_by_their_export(exports: Seq<Seq<char>>)
    ensures
        contribute_a_tool(exports) <==> exists|i: int, version: Seq<char>|
            0 <= i < exports.len() && #[trigger] is_tool_export(exports[i], version),
{
    if contribute_a_tool(exports) {
        let i = choose|i: int| 0 <= i < exports.len() && begins_with(#[trigger] exports[i], TOOL_EXPORT@);
        prefixes_are_completed(exports[i], TOOL_EXPORT@);
        let version = choose|version: Seq<char>| exports[i] == #[trigger] (TOOL_EXPORT@ + version);
        assert(is_tool_export(exports[i], version));
    }
    if exists|i: int, version: Seq<char>| 0 <= i < exports.len() && #[trigger] is_tool_export(exports[i], version) {
        let (i, version) = choose|i: int, version: Seq<char>|
            0 <= i < exports.len() && #[trigger] is_tool_export(exports[i], version);
        assert(exports[i] == TOOL_EXPORT@ + version);
        prefixes_are_completed(exports[i], TOOL_EXPORT@);
    }
}

/// Whether an export is the interface of a tool, in a version.
pub open spec fn is_tool_export(export: Seq<char>, version: Seq<char>) -> bool {
    export == "composable:tools/tool@"@ + version
}

/// Entries are sent as a list of pairs, in their order: the key, then the value.
pub proof fn entries_are_sent_as_pairs(entries: Seq<(Seq<char>, Seq<char>)>)
    ensures
        entries_value(entries) matches JsonView::Array(items) && items.len() == entries.len() && forall|i: int|
            0 <= i < items.len() ==> (#[trigger] items[i]) == JsonView::Array(
                seq![JsonView::Str(entries[i].0), JsonView::Str(entries[i].1)],
            ),
{
}

/// A block is audio with metadata if and only if its case is audio and its payload has
/// entries of metadata that can be read.
pub proof fn audio_with_metadata_is_told_by_its_block(object: Fields, payload: Fields)
    requires
        lookup(object, "value"@) == Some(JsonView::Object(payload)),
    ensures
        is_audio_with_meta(JsonView::Object(object)) <==> is_block(object, "audio"@, payload) && (meta_of(
            lookup(payload, "meta"@),
        ) matches Ok(Some(_))),
{
}

/// Dropped metadata are counted block by block, over all blocks in turn, up to the first
/// that is refused.
pub proof fn dropped_audio_meta_add_up(items: Seq<JsonView>, item: JsonView)
    ensures
        audio_with_meta_in(items.push(item)) == audio_with_meta_in(items) + (if contents_of(items) is Ok
            && is_audio_with_meta(item) {
            1nat
        } else {
            0nat
        }),
        audio_with_meta_in(Seq::empty()) == 0,
    decreases items.len(),
{
    let all = items.push(item);
    if items.len() > 0 {
        let rest = items.drop_first();
        dropped_audio_meta_add_up(rest, item);
        assert(all.drop_first() =~= rest.push(item));
    } else {
        assert(all.drop_first() =~= Seq::empty());
        assert(audio_with_meta_in(Seq::empty()) == 0);
    }
}

/// Dropped metadata are those of the blocks of a result's content; a value without such
/// blocks drops none.
pub proof fn dropped_audio_meta_are_those_of_the_content(value: JsonView)
    ensures
        match value {
            JsonView::Object(object) => match lookup(object, "content"@) {
                Some(JsonView::Array(items)) => audio_meta_dropped(value) == audio_with_meta_in(items),
                _ => audio_meta_dropped(value) == 0,
            },
            _ => audio_meta_dropped(value) == 0,
        },
{
}

} // verus!
