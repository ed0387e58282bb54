//! JSON Schema validation through `jsonschema`.

use vstd::prelude::*;

use crate::json::{items_without_minus_zero, json_value, without_minus_zero, Fields, Json, JsonView};

verus! {

/// `jsonschema::Validator`, compiled from the schema that `compiled_schema` names.
#[verifier::external_type_specification]
#[verifier::external_body]
pub struct ExValidator(jsonschema::Validator);

/// The schema that a validator was compiled from.
pub uninterp spec fn compiled_schema(validator: jsonschema::Validator) -> JsonView;

/// Whether `jsonschema::validator_for` refuses a schema.
pub uninterp spec fn refused(schema: JsonView) -> bool;

/// The first reason that `jsonschema` gives why a value does not conform to a
/// schema, if it does not.
pub uninterp spec fn violation(schema: JsonView, value: JsonView) -> Option<Seq<char>>;

/// How long a list is at most in which `jsonschema` looks for repetitions by comparing any
/// two items. The items of a longer one it hashes first.
pub const COMPARED_ITEMS: usize = 15;

/// Whether the number -0 stands nowhere within a list that `jsonschema` hashes the items of.
/// There, -0 counts as 0 or not by how the two happen to be hashed.
pub open spec fn is_plain(value: JsonView) -> bool
    decreases value,
{
    match value {
        JsonView::Array(items) => (items.len() > COMPARED_ITEMS ==> items_without_minus_zero(items))
            && are_plain_items(items),
        JsonView::Object(fields) => are_plain_fields(fields),
        _ => true,
    }
}

/// Whether that is so of every item.
pub open spec fn are_plain_items(items: Seq<JsonView>) -> bool
    decreases items,
{
    forall|i: int| 0 <= i < items.len() ==> is_plain(#[trigger] items[i])
}

/// Whether that is so of every member's value.
pub open spec fn are_plain_fields(fields: Fields) -> bool
    decreases fields,
{
    forall|i: int| 0 <= i < fields.len() ==> is_plain((#[trigger] fields[i]).1)
}

/// A value is plain if and only if what it is made of is plain and, where it is a list of
/// more than 15 items, none of these holds -0.
pub proof fn plain_values_are_made_of_plain_values(value: JsonView)
    ensures
        is_plain(value) <==> match value {
            JsonView::Array(items) => (forall|i: int| 0 <= i < items.len() ==> is_plain(#[trigger] items[i])) && (
            items.len() > 15 ==> forall|i: int| 0 <= i < items.len() ==> without_minus_zero(#[trigger] items[i])),
            JsonView::Object(fields) => forall|i: int| 0 <= i < fields.len() ==> is_plain((#[trigger] fields[i]).1),
            _ => true,
        },
{
}

/// A value without -0 is plain, however long its lists are.
pub proof fn values_without_minus_zero_are_plain(value: JsonView)
    requires
        without_minus_zero(value),
    ensures
        is_plain(value),
    decreases value,
{
    match value {
        JsonView::Array(items) => {
            assert forall|i: int| 0 <= i < items.len() implies is_plain(#[trigger] items[i]) by {
                values_without_minus_zero_are_plain(items[i]);
            }
        },
        JsonView::Object(fields) => {
            assert forall|i: int| 0 <= i < fields.len() implies is_plain((#[trigger] fields[i]).1) by {
                values_without_minus_zero_are_plain(fields[i].1);
            }
        },
        _ => {},
    }
}

/// `jsonschema::validator_for`: a validator compiled from the schema, or an error where
/// `refused` says so. The words of the error are left open: where a schema refers to
/// several others that cannot be had, they name any of those. Of a schema with the number
/// -0 within a list of more than 15 items, it is not said whether it is refused: such a list
/// may or may not count as one without repetitions.
#[verifier::external_body]
fn compile_schema(schema: &serde_json::Value) -> (r: Result<jsonschema::Validator, String>)
    ensures
        match r {
            Ok(v) => compiled_schema(v) == json_value(*schema) && (is_plain(json_value(*schema)) ==> !refused(
                json_value(*schema),
            )),
            Err(_) => is_plain(json_value(*schema)) ==> refused(json_value(*schema)),
        },
{
    jsonschema::validator_for(schema).map_err(|e| e.to_string())
}

/// Whether a check of a value may find this fault, or none: the one that `violation`
/// names. Of a value with the number -0 within a list of more than 15 items nothing is said,
/// since `jsonschema` may or may not tell it from 0 where it looks for repetitions there.
pub open spec fn may_find(schema: JsonView, value: JsonView, fault: Option<Seq<char>>) -> bool {
    is_plain(value) ==> fault == violation(schema, value)
}

/// `jsonschema::Validator::validate`: nothing, or the words of the error that
/// `violation` names. Of a value with the number -0 within a list of more than 15 items
/// nothing is said: the outcome may rest on how the items of that list are hashed.
#[verifier::external_body]
fn check_value(validator: &jsonschema::Validator, value: &serde_json::Value) -> (r: Result<(), String>)
    ensures
        match r {
            Ok(_) => is_plain(json_value(*value)) ==> violation(compiled_schema(*validator), json_value(*value)) is None,
            Err(e) => is_plain(json_value(*value)) ==> violation(compiled_schema(*validator), json_value(*value)) == Some(
                e@,
            ),
        },
{
    validator.validate(value).map_err(|e| e.to_string())
}

/// A compiled JSON Schema.
pub struct SchemaValidator {
    validator: jsonschema::Validator,
}

impl View for SchemaValidator {
    type V = JsonView;

    closed spec fn view(&self) -> JsonView {
        compiled_schema(self.validator)
    }
}

impl DeepView for SchemaValidator {
    type V = JsonView;

    open spec fn deep_view(&self) -> JsonView {
        self@
    }
}

impl SchemaValidator {
    /// Compiles a schema, or gives the words of an error where it is refused. Which words
    /// is left open.
    pub fn compile(schema: &Json) -> (r: Result<SchemaValidator, String>)
        ensures
            match r {
                Ok(v) => v@ == schema@ && (is_plain(schema@) ==> !refused(schema@)),
                Err(_) => is_plain(schema@) ==> refused(schema@),
            },
    {
        match compile_schema(&schema.to_value()) {
            Ok(validator) => Ok(SchemaValidator { validator }),
            Err(e) => Err(e),
        }
    }

    /// The first reason why a value does not conform to the schema, if it does not.
    pub fn check(&self, value: &Json) -> (r: Option<String>)
        ensures
            may_find(self@, value@, r.deep_view()),
    {
        match check_value(&self.validator, &value.to_value()) {
            Ok(_) => None,
            Err(e) => Some(e),
        }
    }
}

} // verus!
