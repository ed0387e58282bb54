//! What is said of values that are refused.

use vstd::prelude::*;

use crate::json::{parsed, with_member, Fields, JsonView};
use crate::mcp::{CallToolResultView, ContentView, Role, ToolView};
use crate::pairs::lookup;
use crate::text::decimal_text;
use crate::tools::laws::blocks::{is_between_zero_and_one, is_missing, is_text, names_role};
use crate::tools::laws::content_is_read_block_by_block;
use crate::tools::laws::wholes::{has_readable_content, has_readable_json};
use crate::tools::rules::{
    annotations_of, content_of, contents_of, float_text, kind_of, last_modified_from, meta_entries_over, meta_entry,
    meta_of, optional_text, priority_field, raw_content_of, required_flag, required_text, resource_case,
    resource_contents_of, result_of, roles_of, schema_from, tool_annotations_field,
    tool_annotations_of, tool_of, value_from, variant_of,
};

verus! {

/// Each kind of value has its words.
pub proof fn kinds_have_their_words(value: JsonView)
    ensures
        kind_of(value) == (match value {
            JsonView::Null => "null"@,
            JsonView::Bool(_) => "a boolean"@,
            JsonView::Number(_) => "a number"@,
            JsonView::Str(_) => "a string"@,
            JsonView::Array(_) => "a list"@,
            JsonView::Object(_) => "an object"@,
        }),
{
}

/// A text that is not there where it has to be, or is something else, is told by its field;
/// so is one that need not be there but is something else, with what it is.
pub proof fn wrong_texts_are_told(object: Fields, field: Seq<char>)
    ensures
        !is_text(object, field) ==> required_text(object, field) == Err::<Seq<char>, Seq<char>>(
            "'"@ + field + "' must be a string"@,
        ),
        !is_text(object, field) && !is_missing(object, field) ==> optional_text(object, field) == Err::<
            Option<Seq<char>>,
            Seq<char>,
        >("'"@ + field + "' must be a string, got "@ + kind_of(lookup(object, field)->0)),
        !(lookup(object, field) matches Some(JsonView::Bool(_))) ==> required_flag(object, field) == Err::<
            bool,
            Seq<char>,
        >("'"@ + field + "' must be a boolean"@),
{
}

/// Text that is no JSON is told by its field, with what is wrong; so is a schema that is no
/// object.
pub proof fn wrong_json_is_told(field: Seq<char>, e: Seq<char>, value: JsonView)
    ensures
        value_from(field, Err(e)) == Err::<Option<JsonView>, Seq<char>>("'"@ + field + "' is not valid JSON: "@ + e),
        value_from(field, Ok(value)) == Ok::<Option<JsonView>, Seq<char>>(Some(value)),
        schema_from(field, Err(e)) == Err::<Fields, Seq<char>>("'"@ + field + "' is not valid JSON: "@ + e),
        match value {
            JsonView::Object(schema) => schema_from(field, Ok(value)) == Ok::<Fields, Seq<char>>(schema),
            _ => schema_from(field, Ok(value)) == Err::<Fields, Seq<char>>(
                "'"@ + field + "' must be a JSON Schema object, got "@ + kind_of(value),
            ),
        },
{
}

/// An entry of metadata that is no pair of texts is told why.
pub proof fn wrong_entries_are_told(item: JsonView)
    ensures
        match item {
            JsonView::Array(pair) if pair.len() != 2 => meta_entry(item) == Err::<(Seq<char>, Seq<char>), Seq<char>>(
                "meta entry must hold exactly two elements, got "@ + decimal_text(pair.len()),
            ),
            JsonView::Array(pair) if !(pair[0] is Str) => meta_entry(item) == Err::<(Seq<char>, Seq<char>), Seq<char>>(
                "meta key must be a string, got "@ + kind_of(pair[0]),
            ),
            JsonView::Array(pair) if !(pair[1] is Str) => meta_entry(item) == Err::<(Seq<char>, Seq<char>), Seq<char>>(
                "meta value must be a string, got "@ + kind_of(pair[1]),
            ),
            JsonView::Array(pair) => meta_entry(item) == Ok::<(Seq<char>, Seq<char>), Seq<char>>(
                (pair[0]->Str_0, pair[1]->Str_0),
            ),
            _ => meta_entry(item) == Err::<(Seq<char>, Seq<char>), Seq<char>>(
                "meta entry must be a pair, got "@ + kind_of(item),
            ),
        },
{
}

/// Of entries the first that is refused is told.
proof fn first_entry_refused(there: Fields, items: Seq<JsonView>, i: int)
    requires
        0 <= i < items.len(),
        meta_entry(items[i]) is Err,
        forall|j: int| 0 <= j < i ==> meta_entry(#[trigger] items[j]) is Ok,
    ensures
        meta_entries_over(there, items) == Err::<Fields, Seq<char>>(meta_entry(items[i])->Err_0),
    decreases items.len(),
{
    if i > 0 {
        let rest = items.drop_first();
        assert(meta_entry(items[0]) is Ok);
        assert(rest[i - 1] == items[i]);
        assert forall|j: int| 0 <= j < i - 1 implies meta_entry(#[trigger] rest[j]) is Ok by {
            assert(rest[j] == items[j + 1]);
        }
        let (key, value) = meta_entry(items[0])->Ok_0;
        first_entry_refused(with_member(there, key, JsonView::Str(value)), rest, i - 1);
    }
}

/// Metadata that are no list are told so; of a list the first entry that is refused is told.
pub proof fn wrong_metadata_are_told(value: JsonView, i: int)
    requires
        !(value is Null),
        value matches JsonView::Array(items) ==> 0 <= i < items.len() && meta_entry(items[i]) is Err && forall|j: int|
            0 <= j < i ==> meta_entry(#[trigger] items[j]) is Ok,
    ensures
        meta_of(Some(value)) == Err::<Option<Fields>, Seq<char>>(
            match value {
                JsonView::Array(items) => meta_entry(items[i])->Err_0,
                _ => "meta must be a list, got "@ + kind_of(value),
            },
        ),
{
    if let JsonView::Array(items) = value {
        first_entry_refused(Seq::empty(), items, i);
    }
}

/// A variant without the name of its case, or without a payload, is told so.
pub proof fn wrong_variants_are_told(object: Fields, what: Seq<char>)
    ensures
        match lookup(object, "type"@) {
            Some(JsonView::Str(case)) => match lookup(object, "value"@) {
                Some(payload) => variant_of(object, what) == Ok::<(Seq<char>, JsonView), Seq<char>>((case, payload)),
                None => variant_of(object, what) == Err::<(Seq<char>, JsonView), Seq<char>>(
                    what + " case '"@ + case + "' needs a \"value\""@,
                ),
            },
            _ => variant_of(object, what) == Err::<(Seq<char>, JsonView), Seq<char>>(
                what + " needs a \"type\" naming its case"@,
            ),
        },
{
}

/// A block that is no object, or no variant, is told so; so is one of another case.
pub proof fn wrong_blocks_are_told(value: JsonView)
    ensures
        match value {
            JsonView::Object(object) => match variant_of(object, "content-block"@) {
                Err(e) => content_of(value) == Err::<ContentView, Seq<char>>(e),
                Ok((case, payload)) => {
                    &&& raw_content_of(case, payload) matches Err(e) ==> content_of(value) == Err::<
                        ContentView,
                        Seq<char>,
                    >(e)
                    &&& case != "text"@ && case != "image"@ && case != "audio"@ && case != "resource-link"@ && case
                        != "resource"@ ==> content_of(value) == Err::<ContentView, Seq<char>>(
                        "unknown content-block case '"@ + case + "'"@,
                    )
                },
            },
            _ => content_of(value) == Err::<ContentView, Seq<char>>(
                "content-block"@ + " must be an object, got "@ + kind_of(value),
            ),
        },
{
}

/// A payload that is no object is told by its case.
pub proof fn wrong_payloads_are_told(payload: JsonView)
    requires
        !(payload is Object),
    ensures
        raw_content_of("text"@, payload) matches Err(e) && e == "text-content"@ + " must be an object, got "@ + kind_of(
            payload,
        ),
        raw_content_of("image"@, payload) matches Err(e) && e == "image-content"@ + " must be an object, got "@ + kind_of(
            payload,
        ),
        raw_content_of("audio"@, payload) matches Err(e) && e == "audio-content"@ + " must be an object, got "@ + kind_of(
            payload,
        ),
        raw_content_of("resource-link"@, payload) matches Err(e) && e == "resource-link"@ + " must be an object, got "@
            + kind_of(payload),
        raw_content_of("resource"@, payload) matches Err(e) && e == "embedded-resource"@ + " must be an object, got "@
            + kind_of(payload),
{
    reveal_strlit("text");
    reveal_strlit("image");
    reveal_strlit("audio");
    reveal_strlit("resource-link");
    reveal_strlit("resource");
    assert("image"@[0] != "audio"@[0]);
    assert("text"@.len() == 4 && "image"@.len() == 5 && "audio"@.len() == 5);
    assert("resource-link"@.len() == 13 && "resource"@.len() == 8);
}

/// A resource that is not there, is no object or no variant, or is of another case, is told
/// so.
pub proof fn wrong_resources_are_told(value: JsonView, case: Seq<char>, payload: Fields)
    ensures
        resource_contents_of(None) matches Err(e) && e == "embedded-resource needs \"resource-data\""@,
        !(value is Object) ==> (resource_contents_of(Some(value)) matches Err(e) && e
            == "resource-contents must be an object, got "@ + kind_of(value)),
        case != "text"@ && case != "blob"@ ==> (resource_case(case, payload) matches Err(e) && e
            == "unknown resource-contents case '"@ + case + "'"@),
{
    reveal_strlit("resource-contents");
    reveal_strlit(" must be an object, got ");
    reveal_strlit("resource-contents must be an object, got ");
    assert("resource-contents"@ + " must be an object, got "@ =~= "resource-contents must be an object, got "@);
}

/// Of roles the first item that names none is told.
pub proof fn wrong_roles_are_told(items: Seq<JsonView>, i: int)
    requires
        0 <= i < items.len(),
        !names_role(items[i]),
        forall|j: int| 0 <= j < i ==> names_role(#[trigger] items[j]),
    ensures
        roles_of(items) == Err::<Seq<Role>, Seq<char>>(
            match items[i] {
                JsonView::Str(s) => "unknown role '"@ + s + "'"@,
                other => "role must be a string, got "@ + kind_of(other),
            },
        ),
    decreases items.len(),
{
    if i > 0 {
        let rest = items.drop_first();
        assert(names_role(items[0]));
        assert(rest[i - 1] == items[i]);
        assert forall|j: int| 0 <= j < i - 1 implies names_role(#[trigger] rest[j]) by {
            assert(rest[j] == items[j + 1]);
        }
        wrong_roles_are_told(rest, i - 1);
    }
}

/// A priority out of range is told; so is a time that is none, and annotations that are no
/// object, or whose audience is no list.
pub proof fn wrong_annotations_are_told(object: Fields, value: JsonView, e: Seq<char>)
    ensures
        lookup(object, "priority"@) matches Some(JsonView::Number(n)) ==> !is_between_zero_and_one(n) ==> (
        priority_field(object) matches Err(words) && words == "'priority' must be between 0 and 1, got "@ + float_text(
            n,
        )),
        last_modified_from(Err(e)) matches Err(words) && words == "'last-modified' is not an ISO 8601 timestamp: "@ + e,
        !(value is Object) ==> (annotations_of(value) matches Err(words) && words == "annotations"@
            + " must be an object, got "@ + kind_of(value)),
        !is_missing(object, "audience"@) && !(lookup(object, "audience"@)->0 is Array) ==> (annotations_of(
            JsonView::Object(object),
        ) matches Err(words) && words == "audience must be a list, got "@ + kind_of(lookup(object, "audience"@)->0)),
        !(value is Object) ==> (tool_annotations_of(value) matches Err(words) && words == "tool-annotations"@
            + " must be an object, got "@ + kind_of(value)),
{
}

/// Of blocks the first that is refused is told.
proof fn first_block_refused(items: Seq<JsonView>, i: int)
    requires
        0 <= i < items.len(),
        content_of(items[i]) is Err,
        forall|j: int| 0 <= j < i ==> content_of(#[trigger] items[j]) is Ok,
    ensures
        contents_of(items) == Err::<Seq<ContentView>, Seq<char>>(content_of(items[i])->Err_0),
    decreases items.len(),
{
    if i > 0 {
        let rest = items.drop_first();
        assert(content_of(items[0]) is Ok);
        assert(rest[i - 1] == items[i]);
        assert forall|j: int| 0 <= j < i - 1 implies content_of(#[trigger] rest[j]) is Ok by {
            assert(rest[j] == items[j + 1]);
        }
        first_block_refused(rest, i - 1);
    }
}

/// A result that is no object is told so. Of its content the first block that is refused is
/// told.
pub proof fn wrong_content_is_told(object: Fields, value: JsonView, i: int)
    requires
        lookup(object, "content"@) matches Some(JsonView::Array(items)) ==> 0 <= i < items.len() && content_of(
            items[i],
        ) is Err && forall|j: int| 0 <= j < i ==> content_of(#[trigger] items[j]) is Ok,
    ensures
        !(value is Object) ==> (result_of(value) matches Err(e) && e == "call-tool-result"@ + " must be an object, got "@
            + kind_of(value)),
        !is_missing(object, "content"@) ==> result_of(JsonView::Object(object)) == Err::<CallToolResultView, Seq<char>>(
            match lookup(object, "content"@)->0 {
                JsonView::Array(items) => content_of(items[i])->Err_0,
                other => "content must be a list, got "@ + kind_of(other),
            },
        ),
{
    if let Some(JsonView::Array(items)) = lookup(object, "content"@) {
        first_block_refused(items, i);
    }
}

/// A result whose content can be read is told what else is wrong, in turn: whether it is an
/// error, its structured content, its metadata.
pub proof fn wrong_results_are_told(object: Fields)
    requires
        has_readable_content(object),
    ensures
        ({
            let read = result_of(JsonView::Object(object));
            let flag = lookup(object, "is-error"@) matches Some(JsonView::Bool(_));
            let structured = has_readable_json(object, "structured-content"@);
            &&& !flag ==> (read matches Err(e) && e == "'"@ + "is-error"@ + "' must be a boolean"@)
            &&& flag && !structured ==> (read matches Err(e) && e == (match lookup(object, "structured-content"@)->0 {
                JsonView::Str(text) => "'"@ + "structured-content"@ + "' is not valid JSON: "@ + parsed(text)->Err_0,
                other => "'"@ + "structured-content"@ + "' must be a JSON string, got "@ + kind_of(other),
            }))
            &&& flag && structured && meta_of(lookup(object, "meta"@)) is Err ==> (read matches Err(e) && e == meta_of(
                lookup(object, "meta"@),
            )->Err_0)
        }),
{
    if let Some(JsonView::Array(items)) = lookup(object, "content"@) {
        content_is_read_block_by_block(items);
    }
}

/// Whether a field holds the text of a schema that describes an object.
pub open spec fn holds_object_schema(object: Fields, field: Seq<char>) -> bool {
    lookup(object, field) matches Some(JsonView::Str(text)) && (parsed(text) matches Ok(JsonView::Object(schema))
        && lookup(schema, "type"@) == Some(JsonView::Str("object"@)))
}

/// The metadata of a tool that are no object are told so. A tool without a good input schema
/// is told what is wrong with it, once its description can be read.
pub proof fn wrong_input_schemas_are_told(object: Fields, name: Seq<char>, value: JsonView)
    requires
        is_missing(object, "description"@) || is_text(object, "description"@),
        !holds_object_schema(object, "input-schema"@),
    ensures
        !(value is Object) ==> (tool_of(value, name) matches Err(e) && e == "tool-metadata"@ + " must be an object, got "@
            + kind_of(value)),
        tool_of(JsonView::Object(object), name) == Err::<ToolView, Seq<char>>(
            match lookup(object, "input-schema"@) {
                Some(JsonView::Str(text)) => match parsed(text) {
                    Ok(JsonView::Object(schema)) => match lookup(schema, "type"@) {
                        Some(JsonView::Str(s)) => "'"@ + "input-schema"@ + "' must be of type object, got "@ + s,
                        _ => "'"@ + "input-schema"@ + "' must declare type object"@,
                    },
                    Ok(other) => "'"@ + "input-schema"@ + "' must be a JSON Schema object, got "@ + kind_of(other),
                    Err(e) => "'"@ + "input-schema"@ + "' is not valid JSON: "@ + e,
                },
                _ => "'"@ + "input-schema"@ + "' must be a JSON string"@,
            },
        ),
{
}

/// Whether a field is missing, or holds the text of a schema.
pub open spec fn may_hold_schema(object: Fields, field: Seq<char>) -> bool {
    is_missing(object, field) || (lookup(object, field) matches Some(JsonView::Str(text)) && (parsed(
        text,
    ) matches Ok(JsonView::Object(_))))
}

/// A tool is told what is wrong, in turn: its description, and, once its input schema can be
/// read, its title, its output schema, its hints and its metadata.
pub proof fn wrong_tools_are_told(object: Fields, name: Seq<char>)
    ensures
        ({
            let read = tool_of(JsonView::Object(object), name);
            let described = is_missing(object, "description"@) || is_text(object, "description"@);
            let titled = is_missing(object, "title"@) || is_text(object, "title"@);
            let started = described && holds_object_schema(object, "input-schema"@);
            let annotated = tool_annotations_field(object);
            &&& !described ==> (read matches Err(e) && e == "'"@ + "description"@ + "' must be a string, got "@ + kind_of(
                lookup(object, "description"@)->0,
            ))
            &&& started && !titled ==> (read matches Err(e) && e == "'"@ + "title"@ + "' must be a string, got "@ + kind_of(
                lookup(object, "title"@)->0,
            ))
            &&& started && titled && !may_hold_schema(object, "output-schema"@) ==> (read matches Err(e) && e == (
            match lookup(object, "output-schema"@)->0 {
                JsonView::Str(text) => match parsed(text) {
                    Err(e) => "'"@ + "output-schema"@ + "' is not valid JSON: "@ + e,
                    Ok(other) => "'"@ + "output-schema"@ + "' must be a JSON Schema object, got "@ + kind_of(other),
                },
                _ => "'"@ + "output-schema"@ + "' must be a JSON string"@,
            }))
            &&& started && titled && may_hold_schema(object, "output-schema"@) && annotated is Err ==> (read matches Err(
                e,
            ) && e == annotated->Err_0)
            &&& started && titled && may_hold_schema(object, "output-schema"@) && annotated is Ok && meta_of(
                lookup(object, "meta"@),
            ) is Err ==> (read matches Err(e) && e == meta_of(lookup(object, "meta"@))->Err_0)
        }),
{
}

} // verus!
