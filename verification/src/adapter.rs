//! Presents a function as a tool.
//!
//! The function provides name, description, and both schemas. Config adds a title,
//! annotations, and optional overrides for the name and description.

use vstd::prelude::*;

use crate::adapter::laws::pruned_text_keeps_the_type;
use crate::json::{
    array_view, is_readable, outcome, parsed, reads_alike, with_member, without_members, written, Fields, Json,
    JsonObject, JsonView,
};
use crate::lists::pushed_item_comes_first;
use crate::mcp::{Annotations, AnnotationsView, ToolAnnotations, ToolAnnotationsView};
use crate::pairs::{collect, collected, find, is_listed, lookup};
use crate::text::{begins_with, is_before, precedes, same, strip_prefix};

pub mod laws;

verus! {

/// Names and values, as configuration and `_meta` entries hold them.
pub type Entries = Vec<(String, String)>;

/// What `Entries` stand for.
pub type EntriesView = Seq<(Seq<char>, Seq<char>)>;

/// What the component's configuration store answers.
pub struct Config {
    /// The values that single keys are set to.
    pub values: Entries,
    /// All entries, as far as the store lists them.
    pub listing: Entries,
}

/// What a `Config` stands for.
pub struct ConfigView {
    pub values: EntriesView,
    pub listing: EntriesView,
}

impl DeepView for Config {
    type V = ConfigView;

    open spec fn deep_view(&self) -> ConfigView {
        ConfigView { values: self.values.deep_view(), listing: self.listing.deep_view() }
    }
}

/// A config value, or `None` when unset.
pub fn config(store: &Config, key: &str) -> (r: Option<String>)
    ensures
        r.deep_view() == lookup(store.deep_view().values, key@),
{
    match find(&store.values, key) {
        Some(v) => Some(v.clone()),
        None => None,
    }
}

/// The truth value that a text is.
pub open spec fn flag_value(text: Seq<char>) -> Option<bool> {
    if text == "true"@ {
        Some(true)
    } else if text == "false"@ {
        Some(false)
    } else {
        None
    }
}

/// A config value as a truth value.
pub open spec fn flag(config: ConfigView, key: Seq<char>) -> Option<bool> {
    match lookup(config.values, key) {
        Some(text) => flag_value(text),
        None => None,
    }
}

/// A config value parsed as a bool, for the annotation hints.
pub fn config_flag(store: &Config, key: &str) -> (r: Option<bool>)
    ensures
        r == flag(store.deep_view(), key@),
{
    match find(&store.values, key) {
        Some(v) => {
            if same(v.as_str(), "true") {
                Some(true)
            } else if same(v.as_str(), "false") {
                Some(false)
            } else {
                None
            }
        },
        None => None,
    }
}

/// The entries under a prefix, without the prefix.
pub open spec fn under_prefix(entries: EntriesView, prefix: Seq<char>) -> EntriesView
    decreases entries.len(),
{
    if entries.len() == 0 {
        Seq::empty()
    } else {
        let rest = under_prefix(entries.drop_first(), prefix);
        let (key, value) = entries[0];
        if begins_with(key, prefix) {
            seq![(key.skip(prefix.len() as int), value)] + rest
        } else {
            rest
        }
    }
}

/// The `dest = source` pairs under a config prefix.
pub fn mapping_config(store: &Config, prefix: &str) -> (r: Entries)
    ensures
        r.deep_view() == collected(under_prefix(store.deep_view().listing, prefix@)),
{
    let ghost all = store.listing.deep_view();
    let mut out: Entries = Vec::new();
    let mut i: usize = 0;
    assert(all.skip(0) =~= all);
    assert(out.deep_view() + under_prefix(all, prefix@) =~= under_prefix(all, prefix@));
    while i < store.listing.len()
        invariant
            i <= store.listing.len(),
            all == store.listing.deep_view(),
            under_prefix(all, prefix@) == out.deep_view() + under_prefix(all.skip(i as int), prefix@),
        decreases store.listing.len() - i,
    {
        let ghost before = out.deep_view();
        let ghost rest = all.skip(i as int);
        assert(rest[0] == (store.listing@[i as int].0@, store.listing@[i as int].1@));
        assert(rest.drop_first() =~= all.skip(i + 1));
        match strip_prefix(store.listing[i].0.as_str(), prefix) {
            Some(dest) => {
                out.push((dest.to_owned(), store.listing[i].1.clone()));
                proof {
                    let last = (dest@, rest[0].1);
                    assert(out.deep_view() =~= before.push(last));
                    pushed_item_comes_first(before, last);
                }
            },
            None => {},
        }
        i += 1;
    }
    assert(all.skip(i as int) =~= Seq::empty());
    assert(out.deep_view() + Seq::empty() =~= out.deep_view());
    collect(out)
}

/// Which params come from `_meta`, and which result fields go there.
pub struct HeaderMapping {
    /// Param names, each with the `_meta` key that it is read from.
    pub request_headers: Entries,
    /// `_meta` keys, each with the result field that it is read from.
    pub response_headers: Entries,
}

/// What a `HeaderMapping` stands for.
pub struct HeaderMappingView {
    pub request_headers: EntriesView,
    pub response_headers: EntriesView,
}

impl DeepView for HeaderMapping {
    type V = HeaderMappingView;

    open spec fn deep_view(&self) -> HeaderMappingView {
        HeaderMappingView {
            request_headers: self.request_headers.deep_view(),
            response_headers: self.response_headers.deep_view(),
        }
    }
}

/// The mapping that config holds.
pub open spec fn configured_mapping(config: ConfigView) -> HeaderMappingView {
    HeaderMappingView {
        request_headers: collected(under_prefix(config.listing, "request-meta."@)),
        response_headers: collected(under_prefix(config.listing, "response-meta."@)),
    }
}

/// The mapping that config holds.
pub fn header_mapping(store: &Config) -> (r: HeaderMapping)
    ensures
        r.deep_view() == configured_mapping(store.deep_view()),
{
    HeaderMapping {
        request_headers: mapping_config(store, "request-meta."),
        response_headers: mapping_config(store, "response-meta."),
    }
}

/// Whether an item is the text of a name.
pub open spec fn names_item(names: Seq<Seq<char>>, item: JsonView) -> bool {
    item matches JsonView::Str(s) && names.contains(s)
}

/// The items that are none of the names.
pub open spec fn without_items(items: Seq<JsonView>, names: Seq<Seq<char>>) -> Seq<JsonView>
    decreases items.len(),
{
    if items.len() == 0 {
        Seq::empty()
    } else {
        let rest = without_items(items.drop_first(), names);
        if names_item(names, items[0]) {
            rest
        } else {
            seq![items[0]] + rest
        }
    }
}

/// A copy of the items that are none of the names.
fn keep_items(items: &Vec<Json>, names: &Vec<&str>) -> (r: Vec<Json>)
    ensures
        r.deep_view() == without_items(items.deep_view(), names.deep_view()),
{
    let ghost all = items.deep_view();
    let ghost left_out = names.deep_view();
    let mut out: Vec<Json> = Vec::new();
    let mut i: usize = 0;
    assert(all.skip(0) =~= all);
    assert(out.deep_view() + without_items(all, left_out) =~= without_items(all, left_out));
    while i < items.len()
        invariant
            i <= items.len(),
            all == items.deep_view(),
            left_out == names.deep_view(),
            without_items(all, left_out) == out.deep_view() + without_items(all.skip(i as int), left_out),
        decreases items.len() - i,
    {
        let ghost before = out.deep_view();
        let ghost rest = all.skip(i as int);
        assert(rest[0] == items@[i as int]@);
        assert(rest.drop_first() =~= all.skip(i + 1));
        let named = match &items[i] {
            Json::Str(s) => is_listed(names, s.as_str()),
            _ => false,
        };
        if !named {
            out.push(items[i].duplicate());
            proof {
                assert(out.deep_view() =~= before.push(rest[0]));
                pushed_item_comes_first(before, rest[0]);
            }
        }
        i += 1;
    }
    assert(all.skip(i as int) =~= Seq::empty());
    assert(out.deep_view() + Seq::empty() =~= out.deep_view());
    out
}

/// The members of a schema without the named properties: neither described nor
/// required.
pub open spec fn pruned(schema: Fields, names: Seq<Seq<char>>) -> Fields {
    let described = match lookup(schema, "properties"@) {
        Some(JsonView::Object(properties)) => with_member(
            schema,
            "properties"@,
            JsonView::Object(without_members(properties, names)),
        ),
        _ => schema,
    };
    match lookup(described, "required"@) {
        Some(JsonView::Array(required)) => with_member(
            described,
            "required"@,
            JsonView::Array(without_items(required, names)),
        ),
        _ => described,
    }
}

/// The text of a schema without the named properties, given what it parses to.
pub open spec fn pruned_text(
    schema: Seq<char>,
    root: Result<JsonView, Seq<char>>,
    names: Seq<Seq<char>>,
) -> Seq<char> {
    if names.len() == 0 {
        schema
    } else {
        match root {
            Ok(JsonView::Object(base)) => written(JsonView::Object(pruned(base, names))),
            _ => schema,
        }
    }
}

/// A schema without the named properties.
pub fn prune_schema(schema: JsonObject, names: &Vec<&str>) -> (r: JsonObject)
    ensures
        r@ == pruned(schema@, names.deep_view()),
{
    let properties = match schema.get("properties") {
        Some(Json::Object(properties)) => Some(properties.without(names)),
        _ => None,
    };
    let described = match properties {
        Some(kept) => schema.insert("properties".to_owned(), Json::Object(kept)),
        None => schema,
    };
    let required = match described.get("required") {
        Some(Json::Array(required)) => {
            proof {
                array_view(*required);
            }
            Some(keep_items(required, names))
        },
        _ => None,
    };
    match required {
        Some(kept) => {
            proof {
                array_view(kept);
            }
            described.insert("required".to_owned(), Json::Array(kept))
        },
        None => described,
    }
}

/// What pruning makes of a schema, given what it parses to: only an object, and only where
/// there are names, is pruned.
pub open spec fn pruned_root(root: Result<JsonView, Seq<char>>, names: Seq<Seq<char>>) -> Option<JsonView> {
    match root {
        Ok(JsonView::Object(base)) => if names.len() > 0 {
            Some(JsonView::Object(pruned(base, names)))
        } else {
            None
        },
        _ => None,
    }
}

/// Whether the pruned schema, if any, is one that `serde_json` reads once it is written.
pub open spec fn prunes_readably(root: Result<JsonView, Seq<char>>, names: Seq<Seq<char>>) -> bool {
    pruned_root(root, names) matches Some(value) ==> is_readable(value)
}

/// Whether the text of the pruned schema, if any, is read as that schema, floating-point
/// numbers aside.
pub open spec fn pruned_reads_alike(root: Result<JsonView, Seq<char>>, names: Seq<Seq<char>>) -> bool {
    pruned_root(root, names) matches Some(value) ==> reads_alike(parsed(written(value)), value)
}

/// The text of a schema without the named properties, given what it parses to. Where
/// `serde_json` reads what it wrote, that text is read as the pruned schema.
pub fn prune_parsed(schema: String, root: Result<Json, String>, names: &Vec<&str>) -> (r: String)
    ensures
        r@ == pruned_text(schema@, outcome(root), names.deep_view()),
        prunes_readably(outcome(root), names.deep_view()) ==> pruned_reads_alike(outcome(root), names.deep_view()),
{
    if names.len() == 0 {
        return schema;
    }
    match root {
        Ok(Json::Object(base)) => Json::Object(prune_schema(base, names)).to_text(),
        _ => schema,
    }
}

/// A schema without the named properties. Only an object has any.
pub fn without_properties(schema: String, names: &Vec<&str>) -> (r: String)
    ensures
        r@ == pruned_text(schema@, parsed(schema@), names.deep_view()),
        prunes_readably(parsed(schema@), names.deep_view()) ==> pruned_reads_alike(
            parsed(schema@),
            names.deep_view(),
        ),
{
    let root = Json::parse(schema.as_str());
    prune_parsed(schema, root, names)
}

/// The first parts of entries.
pub open spec fn keys_of(entries: EntriesView) -> Seq<Seq<char>> {
    Seq::new(entries.len(), |i: int| entries[i].0)
}

/// The second parts of entries.
pub open spec fn values_of(entries: EntriesView) -> Seq<Seq<char>> {
    Seq::new(entries.len(), |i: int| entries[i].1)
}

/// The first parts of entries.
fn keys(entries: &Entries) -> (r: Vec<&str>)
    ensures
        r.deep_view() == keys_of(entries.deep_view()),
{
    let mut out: Vec<&str> = Vec::new();
    let mut i: usize = 0;
    while i < entries.len()
        invariant
            i <= entries.len(),
            out.len() == i,
            forall|k: int| 0 <= k < i ==> (#[trigger] out@[k])@ == entries@[k].0@,
        decreases entries.len() - i,
    {
        out.push(entries[i].0.as_str());
        i += 1;
    }
    assert(out.deep_view() =~= keys_of(entries.deep_view()));
    out
}

/// The second parts of entries.
fn values(entries: &Entries) -> (r: Vec<&str>)
    ensures
        r.deep_view() == values_of(entries.deep_view()),
{
    let mut out: Vec<&str> = Vec::new();
    let mut i: usize = 0;
    while i < entries.len()
        invariant
            i <= entries.len(),
            out.len() == i,
            forall|k: int| 0 <= k < i ==> (#[trigger] out@[k])@ == entries@[k].1@,
        decreases entries.len() - i,
    {
        out.push(entries[i].1.as_str());
        i += 1;
    }
    assert(out.deep_view() =~= values_of(entries.deep_view()));
    out
}

/// The input schema that a tool reports.
pub open spec fn filtered_input(schema: Seq<char>, mapping: HeaderMappingView) -> Seq<char> {
    pruned_text(schema, parsed(schema), keys_of(mapping.request_headers))
}

/// The output schema that a tool may report.
pub open spec fn filtered_output(schema: Seq<char>, mapping: HeaderMappingView) -> Seq<char> {
    pruned_text(schema, parsed(schema), values_of(mapping.response_headers))
}

/// The function's input schema, excluding any params supplied from `_meta`.
pub fn filtered_input_schema(schema: String, mapping: &HeaderMapping) -> (r: String)
    ensures
        r@ == filtered_input(schema@, mapping.deep_view()),
{
    without_properties(schema, &keys(&mapping.request_headers))
}

/// The function's output schema, excluding any fields extracted into `_meta`. A schema of
/// an object stays one, and any other stays another.
pub fn filtered_output_schema(schema: String, mapping: &HeaderMapping) -> (r: String)
    ensures
        r@ == filtered_output(schema@, mapping.deep_view()),
        prunes_readably(parsed(schema@), values_of(mapping.deep_view().response_headers)) ==> pruned_reads_alike(
            parsed(schema@),
            values_of(mapping.deep_view().response_headers),
        ) && describes_object(parsed(r@)) == describes_object(parsed(schema@)),
{
    let names = values(&mapping.response_headers);
    let ghost before = schema@;
    let r = without_properties(schema, &names);
    proof {
        if pruned_reads_alike(parsed(before), names.deep_view()) {
            pruned_text_keeps_the_type(before, names.deep_view());
        }
    }
    r
}

/// The spec version of a tool whose config names none.
pub const DEFAULT_SPEC_VERSION: &'static str = "2025-06-18";

/// The first spec version whose `structuredContent` admits any JSON value.
pub const ANY_STRUCTURED_CONTENT: &'static str = "2026-07-28";

/// Whether a spec version admits any JSON value as structured content. Versions are
/// dates, so the order of their texts is that of time.
pub open spec fn admits_any_json(version: Seq<char>) -> bool {
    !precedes(version, ANY_STRUCTURED_CONTENT@)
}

/// Whether a tool may report a non-object result as structured content.
pub open spec fn structures_any(config: ConfigView) -> bool {
    admits_any_json(
        match lookup(config.values, "spec-version"@) {
            Some(version) => version,
            None => DEFAULT_SPEC_VERSION@,
        },
    )
}

/// Whether this tool may report a non-object result as structured content.
pub fn structures_any_json(store: &Config) -> (r: bool)
    ensures
        r == structures_any(store.deep_view()),
{
    match find(&store.values, "spec-version") {
        Some(version) => !is_before(version.as_str(), ANY_STRUCTURED_CONTENT),
        None => !is_before(DEFAULT_SPEC_VERSION, ANY_STRUCTURED_CONTENT),
    }
}

/// Whether a schema's root is typed as an object.
pub open spec fn describes_object(root: Result<JsonView, Seq<char>>) -> bool {
    root matches Ok(JsonView::Object(fields)) && lookup(fields, "type"@) == Some(JsonView::Str("object"@))
}

/// Whether a tool may report an output schema, given what it parses to.
pub open spec fn reportable(any_json: bool, root: Result<JsonView, Seq<char>>) -> bool {
    any_json || describes_object(root)
}

/// The output schema, if a tool may report it.
pub open spec fn reported_schema(config: ConfigView, schema: Seq<char>) -> Option<Seq<char>> {
    if reportable(structures_any(config), parsed(schema)) {
        Some(schema)
    } else {
        None
    }
}

/// Whether a schema's root is typed as an object, given what the schema parses to.
pub fn is_object_schema(root: &Result<Json, String>) -> (r: bool)
    ensures
        r == describes_object(outcome(*root)),
{
    match root {
        Ok(Json::Object(fields)) => match fields.get("type") {
            Some(Json::Str(s)) => same(s.as_str(), "object"),
            _ => false,
        },
        _ => false,
    }
}

/// The function's output schema, if this tool may report it. A function always
/// declares one, but for a tool it depends on the spec. Before the 2026-07-28 version,
/// output schema was only to be included for a result value having `type: "object"`.
/// For recent spec versions, it will always be included.
pub fn reportable_output_schema(store: &Config, schema: String) -> (r: Option<String>)
    ensures
        r.deep_view() == reported_schema(store.deep_view(), schema@),
{
    if structures_any_json(store) || is_object_schema(&Json::parse(schema.as_str())) {
        Some(schema)
    } else {
        None
    }
}

/// The annotations that config sets.
pub open spec fn configured_annotations(config: ConfigView) -> ToolAnnotationsView {
    ToolAnnotationsView {
        title: lookup(config.values, "title"@),
        read_only_hint: flag(config, "read-only-hint"@),
        destructive_hint: flag(config, "destructive-hint"@),
        idempotent_hint: flag(config, "idempotent-hint"@),
        open_world_hint: flag(config, "open-world-hint"@),
    }
}

/// Annotations of which none is set.
pub open spec fn no_annotations() -> ToolAnnotationsView {
    ToolAnnotationsView {
        title: None,
        read_only_hint: None,
        destructive_hint: None,
        idempotent_hint: None,
        open_world_hint: None,
    }
}

/// The annotations of a tool: none where config sets none of them.
pub open spec fn reported_annotations(config: ConfigView) -> Option<ToolAnnotationsView> {
    if configured_annotations(config) == no_annotations() {
        None
    } else {
        Some(configured_annotations(config))
    }
}

/// The annotations, or `None` when config sets none of them.
pub fn annotations(store: &Config) -> (r: Option<ToolAnnotations>)
    ensures
        r.deep_view() == reported_annotations(store.deep_view()),
{
    let annotations = ToolAnnotations {
        title: config(store, "title"),
        read_only_hint: config_flag(store, "read-only-hint"),
        destructive_hint: config_flag(store, "destructive-hint"),
        idempotent_hint: config_flag(store, "idempotent-hint"),
        open_world_hint: config_flag(store, "open-world-hint"),
    };
    let empty = annotations.title.is_none() && annotations.read_only_hint.is_none()
        && annotations.destructive_hint.is_none() && annotations.idempotent_hint.is_none()
        && annotations.open_world_hint.is_none();
    if empty {
        None
    } else {
        Some(annotations)
    }
}

/// What a function says of itself.
pub struct FunctionMetadata {
    pub name: String,
    pub description: Option<String>,
    pub input_schema: String,
    pub output_schema: String,
}

/// What a `FunctionMetadata` stands for.
pub struct FunctionMetadataView {
    pub name: Seq<char>,
    pub description: Option<Seq<char>>,
    pub input_schema: Seq<char>,
    pub output_schema: Seq<char>,
}

impl DeepView for FunctionMetadata {
    type V = FunctionMetadataView;

    open spec fn deep_view(&self) -> FunctionMetadataView {
        FunctionMetadataView {
            name: self.name@,
            description: self.description.deep_view(),
            input_schema: self.input_schema@,
            output_schema: self.output_schema@,
        }
    }
}

/// What a tool says of itself; schemas are JSON texts.
pub struct ToolMetadata {
    pub name: String,
    pub title: Option<String>,
    pub description: Option<String>,
    pub input_schema: String,
    pub output_schema: Option<String>,
    pub annotations: Option<ToolAnnotations>,
    pub meta: Entries,
}

/// What a `ToolMetadata` stands for.
pub struct ToolMetadataView {
    pub name: Seq<char>,
    pub title: Option<Seq<char>>,
    pub description: Option<Seq<char>>,
    pub input_schema: Seq<char>,
    pub output_schema: Option<Seq<char>>,
    pub annotations: Option<ToolAnnotationsView>,
    pub meta: EntriesView,
}

impl DeepView for ToolMetadata {
    type V = ToolMetadataView;

    open spec fn deep_view(&self) -> ToolMetadataView {
        ToolMetadataView {
            name: self.name@,
            title: self.title.deep_view(),
            description: self.description.deep_view(),
            input_schema: self.input_schema@,
            output_schema: self.output_schema.deep_view(),
            annotations: self.annotations.deep_view(),
            meta: self.meta.deep_view(),
        }
    }
}

/// The metadata of a function's tool.
pub open spec fn adapted(config: ConfigView, function: FunctionMetadataView) -> ToolMetadataView {
    let mapping = configured_mapping(config);
    let description = lookup(config.values, "description"@);
    ToolMetadataView {
        name: match lookup(config.values, "name"@) {
            Some(name) => name,
            None => function.name,
        },
        title: lookup(config.values, "title"@),
        description: if description is Some {
            description
        } else {
            function.description
        },
        input_schema: filtered_input(function.input_schema, mapping),
        output_schema: reported_schema(config, filtered_output(function.output_schema, mapping)),
        annotations: reported_annotations(config),
        meta: Seq::empty(),
    }
}

/// The metadata of a function's tool, or the words of the function's failure.
pub open spec fn adapted_outcome(config: ConfigView, function: Result<FunctionMetadataView, Seq<char>>) -> Result<
    ToolMetadataView,
    Seq<char>,
> {
    match function {
        Ok(function) => Ok(adapted(config, function)),
        Err(e) => Err(e),
    }
}

/// The result fields that config has go into `_meta`.
pub open spec fn left_out(config: ConfigView) -> Seq<Seq<char>> {
    values_of(configured_mapping(config).response_headers)
}

/// The metadata of a function's tool. They report an output schema if and only if the
/// results of calls are structured content; that is not so of a schema that is pruned and
/// that `serde_json` then does not read.
pub fn metadata(store: &Config, function: Result<FunctionMetadata, String>) -> (r: Result<ToolMetadata, String>)
    ensures
        outcome(r) == adapted_outcome(store.deep_view(), outcome(function)),
        match (outcome(function), outcome(r)) {
            (Ok(f), Ok(tool)) => {
                &&& prunes_readably(parsed(f.output_schema), left_out(store.deep_view())) ==> pruned_reads_alike(
                    parsed(f.output_schema),
                    left_out(store.deep_view()),
                )
                &&& structures_any(store.deep_view()) || prunes_readably(
                    parsed(f.output_schema),
                    left_out(store.deep_view()),
                ) ==> (tool.output_schema is Some <==> structures_result(store.deep_view(), outcome(function)))
            },
            _ => true,
        },
{
    let function = match function {
        Ok(f) => f,
        Err(e) => {
            return Err(e);
        },
    };
    let mapping = header_mapping(store);
    let output_schema = filtered_output_schema(function.output_schema, &mapping);
    let tool = ToolMetadata {
        name: match config(store, "name") {
            Some(name) => name,
            None => function.name,
        },
        title: config(store, "title"),
        description: match config(store, "description") {
            Some(description) => Some(description),
            None => function.description,
        },
        input_schema: filtered_input_schema(function.input_schema, &mapping),
        output_schema: reportable_output_schema(store, output_schema),
        annotations: annotations(store),
        meta: Vec::new(),
    };
    assert(tool.meta.deep_view() =~= Seq::empty());
    Ok(tool)
}

/// Whether a call's result is structured content too: whether the function's output
/// schema may be reported.
pub open spec fn structures_result(config: ConfigView, function: Result<FunctionMetadataView, Seq<char>>) -> bool {
    function matches Ok(function) && reported_schema(config, function.output_schema) is Some
}

/// Whether a call's result is structured content too.
pub fn is_structured(store: &Config, function: Result<FunctionMetadata, String>) -> (r: bool)
    ensures
        r == structures_result(store.deep_view(), outcome(function)),
{
    match function {
        Ok(function) => reportable_output_schema(store, function.output_schema).is_some(),
        Err(_) => false,
    }
}

/// What a function answered: its JSON body, and headers.
pub struct Response {
    pub body: String,
    pub headers: Entries,
}

/// What a `Response` stands for.
pub struct ResponseView {
    pub body: Seq<char>,
    pub headers: EntriesView,
}

impl DeepView for Response {
    type V = ResponseView;

    open spec fn deep_view(&self) -> ResponseView {
        ResponseView { body: self.body@, headers: self.headers.deep_view() }
    }
}

/// Why an invocation gave no response, with its words.
pub enum InvokeError {
    /// The function failed.
    FailedCall(String),
    /// What the function returned is no response.
    InvalidResponse(String),
    /// The function was not reached.
    Other(String),
}

/// What an `InvokeError` stands for.
pub enum InvokeErrorView {
    FailedCall(Seq<char>),
    InvalidResponse(Seq<char>),
    Other(Seq<char>),
}

impl DeepView for InvokeError {
    type V = InvokeErrorView;

    open spec fn deep_view(&self) -> InvokeErrorView {
        match *self {
            InvokeError::FailedCall(e) => InvokeErrorView::FailedCall(e@),
            InvokeError::InvalidResponse(e) => InvokeErrorView::InvalidResponse(e@),
            InvokeError::Other(e) => InvokeErrorView::Other(e@),
        }
    }
}

/// A block of text.
pub struct TextBlock {
    pub text: String,
    pub annotations: Option<Annotations>,
    pub meta: Entries,
}

/// What a `TextBlock` stands for.
pub struct TextBlockView {
    pub text: Seq<char>,
    pub annotations: Option<AnnotationsView>,
    pub meta: EntriesView,
}

impl DeepView for TextBlock {
    type V = TextBlockView;

    open spec fn deep_view(&self) -> TextBlockView {
        TextBlockView { text: self.text@, annotations: self.annotations.deep_view(), meta: self.meta.deep_view() }
    }
}

/// Plain text.
pub open spec fn plain_text(text: Seq<char>) -> TextBlockView {
    TextBlockView { text, annotations: None, meta: Seq::empty() }
}

/// Plain text.
pub fn text(content: String) -> (r: TextBlock)
    ensures
        r.deep_view() == plain_text(content@),
{
    let block = TextBlock { text: content, annotations: None, meta: Vec::new() };
    assert(block.meta.deep_view() =~= Seq::empty());
    block
}

/// What a tool component answers a call with.
pub struct ToolResponse {
    pub content: Vec<TextBlock>,
    pub is_error: bool,
    pub structured_content: Option<String>,
    pub meta: Entries,
}

/// What a `ToolResponse` stands for.
pub struct ToolResponseView {
    pub content: Seq<TextBlockView>,
    pub is_error: bool,
    pub structured_content: Option<Seq<char>>,
    pub meta: EntriesView,
}

impl DeepView for ToolResponse {
    type V = ToolResponseView;

    open spec fn deep_view(&self) -> ToolResponseView {
        ToolResponseView {
            content: self.content.deep_view(),
            is_error: self.is_error,
            structured_content: self.structured_content.deep_view(),
            meta: self.meta.deep_view(),
        }
    }
}

/// The JSON-RPC code of a failure that no server reported.
pub const SERVER_ERROR: i32 = -32000;

/// Why a call gave no result.
pub struct ToolError {
    pub code: i32,
    pub message: String,
    pub data: Option<String>,
}

/// What a `ToolError` stands for.
pub struct ToolErrorView {
    pub code: i32,
    pub message: Seq<char>,
    pub data: Option<Seq<char>>,
}

impl DeepView for ToolError {
    type V = ToolErrorView;

    open spec fn deep_view(&self) -> ToolErrorView {
        ToolErrorView { code: self.code, message: self.message@, data: self.data.deep_view() }
    }
}

/// A failure that no server reported.
pub open spec fn local_error(message: Seq<char>) -> ToolErrorView {
    ToolErrorView { code: SERVER_ERROR, message, data: None }
}

/// An error that is reported as a result.
pub open spec fn in_band_error(message: Seq<char>) -> ToolResponseView {
    ToolResponseView {
        content: seq![plain_text(message)],
        is_error: true,
        structured_content: None,
        meta: Seq::empty(),
    }
}

/// What a call of a function's tool answers: the body as text, and as structured content
/// where it may be. Failures of the function are reported in-band; others are not.
pub open spec fn call_outcome(structured: bool, invoked: Result<ResponseView, InvokeErrorView>) -> Result<
    ToolResponseView,
    ToolErrorView,
> {
    match invoked {
        Ok(response) => Ok(
            ToolResponseView {
                content: seq![plain_text(response.body)],
                is_error: false,
                structured_content: if structured {
                    Some(response.body)
                } else {
                    None
                },
                meta: response.headers,
            },
        ),
        Err(InvokeErrorView::FailedCall(e)) => Ok(in_band_error(e)),
        Err(InvokeErrorView::InvalidResponse(e)) => Ok(in_band_error(e)),
        Err(InvokeErrorView::Other(e)) => Err(local_error(e)),
    }
}

/// An error that is reported as a result.
fn report_in_band(message: String) -> (r: ToolResponse)
    ensures
        r.deep_view() == in_band_error(message@),
{
    let response = ToolResponse {
        content: vec![text(message)],
        is_error: true,
        structured_content: None,
        meta: Vec::new(),
    };
    assert(response.content.deep_view() =~= seq![plain_text(message@)]);
    assert(response.meta.deep_view() =~= Seq::empty());
    response
}

/// What a call of a function's tool answers.
pub fn call(structured: bool, invoked: Result<Response, InvokeError>) -> (r: Result<ToolResponse, ToolError>)
    ensures
        outcome(r) == call_outcome(structured, outcome(invoked)),
{
    match invoked {
        Ok(response) => {
            let content = vec![text(response.body.clone())];
            assert(content.deep_view() =~= seq![plain_text(response.body@)]);
            let structured_content = if structured {
                Some(response.body)
            } else {
                None
            };
            Ok(ToolResponse { content, is_error: false, structured_content, meta: response.headers })
        },
        Err(InvokeError::FailedCall(e)) => Ok(report_in_band(e)),
        Err(InvokeError::InvalidResponse(e)) => Ok(report_in_band(e)),
        Err(InvokeError::Other(e)) => Err(ToolError { code: SERVER_ERROR, message: e, data: None }),
    }
}

} // verus!
