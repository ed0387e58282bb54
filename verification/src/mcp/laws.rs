//! What the values of the model stand for: each of their fields, and nothing else.

use vstd::prelude::*;

use crate::json::{number_value, written, JsonView};
use crate::mcp::{
    content_result, error_result, structured_result, Annotations, CallToolResult, Content, ContentView, RawContent,
    RawContentView, ResourceContents, ResourceContentsView, Tool, ToolAnnotations,
};

verus! {

/// Whether a text that there may be stands for another.
pub open spec fn stands_for(text: Option<String>, shown: Option<Seq<char>>) -> bool {
    match (text, shown) {
        (Some(s), Some(t)) => s@ == t,
        (None, None) => true,
        _ => false,
    }
}

/// Annotations show their audience, priority and time.
pub proof fn annotations_show_every_field(a: Annotations)
    ensures
        ({
            let shown = a.deep_view();
            &&& match (a.audience, shown.audience) {
                (Some(roles), Some(seen)) => roles@.len() == seen.len() && forall|i: int|
                    0 <= i < seen.len() ==> roles@[i] == #[trigger] seen[i],
                (None, None) => true,
                _ => false,
            }
            &&& match (a.priority, shown.priority) {
                (Some(n), Some(seen)) => number_value(n) == seen,
                (None, None) => true,
                _ => false,
            }
            &&& shown.last_modified == a.last_modified
        }),
{
}

/// A resource shows its case and all that it holds.
pub proof fn resources_show_every_field(r: ResourceContents)
    ensures
        match (r, r.deep_view()) {
            (
                ResourceContents::Text { uri, mime_type, text, meta },
                ResourceContentsView::Text { uri: u, mime_type: t, text: s, meta: m },
            ) => uri@ == u && stands_for(mime_type, t) && text@ == s && meta.deep_view() == m,
            (
                ResourceContents::Blob { uri, mime_type, blob, meta },
                ResourceContentsView::Blob { uri: u, mime_type: t, blob: s, meta: m },
            ) => uri@ == u && stands_for(mime_type, t) && blob@ == s && meta.deep_view() == m,
            _ => false,
        },
{
}

/// Content shows its case and all that it holds, and its annotations.
pub proof fn content_shows_every_field(c: Content)
    ensures
        c.deep_view().annotations == c.annotations.deep_view(),
        match (c.raw, c.deep_view().raw) {
            (RawContent::Text(c), RawContentView::Text { text, meta }) => c.text@ == text && c.meta.deep_view() == meta,
            (RawContent::Image(c), RawContentView::Image { data, mime_type, meta }) => c.data@ == data && c.mime_type@
                == mime_type && c.meta.deep_view() == meta,
            (RawContent::Audio(c), RawContentView::Audio { data, mime_type }) => c.data@ == data && c.mime_type@
                == mime_type,
            (
                RawContent::ResourceLink(c),
                RawContentView::ResourceLink { uri, name, description, mime_type, meta },
            ) => c.uri@ == uri && c.name@ == name && stands_for(c.description, description) && stands_for(
                c.mime_type,
                mime_type,
            ) && c.meta.deep_view() == meta,
            (RawContent::Resource(c), RawContentView::Resource { resource, meta }) => c.resource.deep_view() == resource
                && c.meta.deep_view() == meta,
            _ => false,
        },
{
}

/// Hints on what a tool does show every one of them.
pub proof fn tool_annotations_show_every_field(a: ToolAnnotations)
    ensures
        stands_for(a.title, a.deep_view().title),
        a.deep_view().read_only_hint == a.read_only_hint,
        a.deep_view().destructive_hint == a.destructive_hint,
        a.deep_view().idempotent_hint == a.idempotent_hint,
        a.deep_view().open_world_hint == a.open_world_hint,
{
}

/// A tool shows its name, title, description, schemas, hints and metadata.
pub proof fn tools_show_every_field(tool: Tool)
    ensures
        ({
            let shown = tool.deep_view();
            &&& shown.name == tool.name@
            &&& stands_for(tool.title, shown.title)
            &&& stands_for(tool.description, shown.description)
            &&& shown.input_schema == tool.input_schema@
            &&& match (tool.output_schema, shown.output_schema) {
                (Some(schema), Some(seen)) => schema@ == seen,
                (None, None) => true,
                _ => false,
            }
            &&& match (tool.annotations, shown.annotations) {
                (Some(a), Some(seen)) => a.deep_view() == seen,
                (None, None) => true,
                _ => false,
            }
            &&& match (tool.meta, shown.meta) {
                (Some(meta), Some(seen)) => meta@ == seen,
                (None, None) => true,
                _ => false,
            }
        }),
{
}

/// A result shows its content, block by block, its structured content, whether it is an
/// error, and its metadata.
pub proof fn results_show_every_field(result: CallToolResult)
    ensures
        ({
            let shown = result.deep_view();
            &&& shown.content.len() == result.content@.len()
            &&& forall|i: int|
                0 <= i < shown.content.len() ==> (#[trigger] shown.content[i]) == result.content@[i].deep_view()
            &&& match (result.structured_content, shown.structured_content) {
                (Some(value), Some(seen)) => value@ == seen,
                (None, None) => true,
                _ => false,
            }
            &&& shown.is_error == result.is_error
            &&& match (result.meta, shown.meta) {
                (Some(meta), Some(seen)) => meta@ == seen,
                (None, None) => true,
                _ => false,
            }
        }),
{
}

/// A result that holds content holds just that; one that holds a value shows its JSON too;
/// and an error of one line says just that line. None has metadata.
pub proof fn results_are_made_of_what_they_hold(
    content: Seq<ContentView>,
    value: JsonView,
    text: Seq<char>,
    failed: bool,
)
    ensures
        ({
            let r = content_result(content, failed);
            r.content == content && r.structured_content is None && r.is_error == Some(failed) && r.meta is None
        }),
        ({
            let r = structured_result(value, failed);
            &&& r.structured_content == Some(value) && r.is_error == Some(failed) && r.meta is None
            &&& r.content.len() == 1 && r.content[0].annotations is None
            &&& r.content[0].raw == (RawContentView::Text { text: written(value), meta: None })
        }),
        ({
            let r = error_result(text);
            &&& r.structured_content is None && r.is_error == Some(true) && r.meta is None
            &&& r.content.len() == 1 && r.content[0].annotations is None
            &&& r.content[0].raw == (RawContentView::Text { text, meta: None })
        }),
{
}

} // verus!
