//! What a reply message becomes.

use vstd::prelude::*;

use crate::config::model::PropagatedHeaderView;
use crate::json::{parsed_bytes, written, written_pretty, Fields, JsonView};
use crate::mcp::{CallToolResultView, RawContentView, ToolView};
use crate::pairs::lookup;
use crate::schema::{is_plain, violation};
use crate::server::model::{MessageView, ReplyStepView};
use crate::server::rules::{checked_result, coerced_result, is_coerced_result, output_may_have, reply_step, with_meta};

verus! {

/// Whether a result has one block of content, which is this text.
pub open spec fn shows(result: CallToolResultView, text: Seq<char>) -> bool {
    &&& result.content.len() == 1
    &&& result.content[0].raw == (RawContentView::Text { text, meta: None })
    &&& result.content[0].annotations is None
}

/// Whether a result is an error that says just this.
pub open spec fn says(result: CallToolResultView, text: Seq<char>) -> bool {
    &&& result.is_error == Some(true)
    &&& result.structured_content is None
    &&& shows(result, text)
}

/// Whether a message's body holds a value: its JSON, or null where it is empty.
pub open spec fn carries(message: MessageView, value: JsonView) -> bool {
    if message.body.len() == 0 {
        value is Null
    } else {
        parsed_bytes(message.body) == Ok::<JsonView, Seq<char>>(value)
    }
}

/// Whether a schema has one property and no other, with this name, and that property is
/// array-typed or has `oneOf`.
pub open spec fn wraps_under(schema: Fields, name: Seq<char>) -> bool {
    lookup(schema, "properties"@) matches Some(JsonView::Object(properties)) && properties.len() == 1 && properties[0].0
        == name && (properties[0].1 matches JsonView::Object(property) && (lookup(property, "type"@) == Some(
        JsonView::Str("array"@),
    ) || lookup(property, "oneOf"@) is Some))
}

/// The value of a reply goes on to the tool's output schema: as it is, or, where the only
/// property of that schema is array-typed or has `oneOf`, as the object with just that
/// property.
pub proof fn replies_are_wrapped_under_a_single_property(
    message: MessageView,
    tool: ToolView,
    entries: Seq<PropagatedHeaderView>,
    value: JsonView,
    schema: Fields,
)
    requires
        carries(message, value),
        tool.output_schema == Some(schema),
    ensures
        match reply_step(message, tool, entries) {
            ReplyStepView::Coerce { value: given, schema: to, .. } => {
                &&& to == schema
                &&& forall|name: Seq<char>|
                    #[trigger] wraps_under(schema, name) ==> given == JsonView::Object(seq![(name, value)])
                &&& given == value || exists|name: Seq<char>| #[trigger] wraps_under(schema, name)
            },
            ReplyStepView::Done(_) => false,
        },
{
    if let Some(JsonView::Object(properties)) = lookup(schema, "properties"@) {
        if properties.len() == 1 && !wraps_under(schema, properties[0].0) {
            assert forall|name: Seq<char>| !wraps_under(schema, name) by {}
        }
    }
}

/// A single property wraps by what it is: a list does, and whatever has `oneOf`; without
/// `oneOf` a truth value, a text, a number or an object does not, nor does a property of no
/// type.
pub proof fn single_properties_wrap_by_their_type(
    message: MessageView,
    tool: ToolView,
    entries: Seq<PropagatedHeaderView>,
    value: JsonView,
    schema: Fields,
    name: Seq<char>,
    property: Fields,
)
    requires
        carries(message, value),
        tool.output_schema == Some(schema),
        lookup(schema, "properties"@) == Some(JsonView::Object(seq![(name, JsonView::Object(property))])),
    ensures
        match reply_step(message, tool, entries) {
            ReplyStepView::Coerce { value: given, .. } => {
                let kind = lookup(property, "type"@);
                let inside = JsonView::Object(seq![(name, value)]);
                &&& kind == Some(JsonView::Str("array"@)) ==> given == inside
                &&& lookup(property, "oneOf"@) is Some ==> given == inside
                &&& lookup(property, "oneOf"@) is None ==> {
                    &&& kind == Some(JsonView::Str("boolean"@)) ==> given == value
                    &&& kind == Some(JsonView::Str("string"@)) ==> given == value
                    &&& kind == Some(JsonView::Str("integer"@)) ==> given == value
                    &&& kind == Some(JsonView::Str("number"@)) ==> given == value
                    &&& kind == Some(JsonView::Str("object"@)) ==> given == value
                    &&& kind is None ==> given == value
                    &&& kind != Some(JsonView::Str("array"@)) ==> given == value
                }
            },
            ReplyStepView::Done(_) => false,
        },
{
    reveal_strlit("array");
    reveal_strlit("boolean");
    reveal_strlit("string");
    reveal_strlit("integer");
    reveal_strlit("number");
    reveal_strlit("object");
    assert("array"@.len() == 5);
}

/// A schema with no property, or with more than one, wraps nothing.
pub proof fn other_schemas_wrap_nothing(
    message: MessageView,
    tool: ToolView,
    entries: Seq<PropagatedHeaderView>,
    value: JsonView,
    schema: Fields,
)
    requires
        carries(message, value),
        tool.output_schema == Some(schema),
        lookup(schema, "properties"@) matches Some(JsonView::Object(properties)) ==> properties.len() != 1,
    ensures
        reply_step(message, tool, entries) matches ReplyStepView::Coerce { value: given, .. } && given == value,
{
}

/// A reply to a tool without an output schema is its text, and no error: that of a string is
/// the string itself, that of any other value its JSON, indented where it can be.
pub proof fn replies_without_a_schema_are_text(
    message: MessageView,
    tool: ToolView,
    entries: Seq<PropagatedHeaderView>,
    value: JsonView,
)
    requires
        carries(message, value),
        tool.output_schema is None,
    ensures
        match reply_step(message, tool, entries) {
            ReplyStepView::Done(result) => {
                &&& result.is_error == Some(false)
                &&& result.structured_content is None
                &&& value matches JsonView::Str(s) ==> shows(result, s)
                &&& !(value is Str) ==> shows(
                    result,
                    if written_pretty(value) is Some {
                        written_pretty(value)->0
                    } else {
                        written(value)
                    },
                )
            },
            ReplyStepView::Coerce { .. } => false,
        },
{
}

/// A reply whose body is no JSON is an error that tells what is wrong with it.
pub proof fn replies_that_are_no_json_are_errors(
    message: MessageView,
    tool: ToolView,
    entries: Seq<PropagatedHeaderView>,
    e: Seq<char>,
)
    requires
        message.body.len() > 0,
        parsed_bytes(message.body) == Err::<JsonView, Seq<char>>(e),
    ensures
        reply_step(message, tool, entries) matches ReplyStepView::Done(result) && says(
            result,
            "reply body is not valid JSON: "@ + e,
        ),
{
}

/// A value that could not be coerced is an error that tells why, whatever the validator.
pub proof fn values_that_cannot_be_coerced_are_errors(
    result: CallToolResultView,
    e: Seq<char>,
    output_validator: Option<JsonView>,
    meta: Option<Fields>,
)
    requires
        is_coerced_result(result, Err(e), output_validator, meta),
    ensures
        says(result, "failed to coerce reply body to output-schema: "@ + e),
        result.meta == meta,
{
    let coerced = Err::<JsonView, Seq<char>>(e);
    let fault = choose|fault: Option<Seq<char>>|
        output_may_have(output_validator, coerced, fault) && result == #[trigger] coerced_result(coerced, fault, meta);
    assert(result == coerced_result(coerced, fault, meta));
}

/// A coerced value that the output schema admits, or that no validator checks, is the
/// structured content of a result that is no error and shows its JSON; one with a fault is
/// an error that tells the fault, and has no structured content.
pub proof fn coerced_values_are_structured_where_they_conform(
    result: CallToolResultView,
    value: JsonView,
    output_validator: Option<JsonView>,
    meta: Option<Fields>,
)
    requires
        is_coerced_result(result, Ok(value), output_validator, meta),
        output_validator is Some ==> is_plain(value),
    ensures
        result.meta == meta,
        match output_validator {
            Some(schema) if violation(schema, value) is Some => says(
                result,
                "reply body does not conform to output-schema: "@ + violation(schema, value)->0,
            ),
            _ => {
                &&& result.is_error == Some(false)
                &&& result.structured_content == Some(value)
                &&& shows(result, written(value))
            },
        },
{
    let coerced = Ok::<JsonView, Seq<char>>(value);
    let fault = choose|fault: Option<Seq<char>>|
        output_may_have(output_validator, coerced, fault) && result == #[trigger] coerced_result(coerced, fault, meta);
    assert(result == coerced_result(coerced, fault, meta));
}

/// A checked value is structured content, and shows as its JSON, where no fault was found;
/// else the result is an error that tells the fault.
pub proof fn checked_values_are_structured_without_a_fault(
    value: JsonView,
    fault: Option<Seq<char>>,
    meta: Option<Fields>,
)
    ensures
        ({
            let result = checked_result(value, fault, meta);
            &&& result.meta == meta
            &&& match fault {
                Some(e) => says(result, "reply body does not conform to output-schema: "@ + e),
                None => result.is_error == Some(false) && result.structured_content == Some(value) && shows(
                    result,
                    written(value),
                ),
            }
        }),
{
}

/// Metadata that are attached to a result take the place of its own, and change nothing else;
/// without any the result stays as it is.
pub proof fn attached_meta_changes_nothing_else(result: CallToolResultView, meta: Option<Fields>)
    ensures
        ({
            let after = with_meta(result, meta);
            &&& after.content == result.content
            &&& after.structured_content == result.structured_content
            &&& after.is_error == result.is_error
            &&& after.meta == (if meta is Some {
                meta
            } else {
                result.meta
            })
        }),
{
}

} // verus!
