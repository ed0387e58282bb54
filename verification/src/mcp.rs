//! The parts of the MCP model that tools use: tools, results and their content.

use vstd::prelude::*;

use crate::json::{number_value, written, Fields, Json, JsonObject, JsonView, NumberView};

pub mod laws;

verus! {

/// Protocol-level metadata: the members of a `_meta` object.
pub type Meta = JsonObject;

/// Who content is meant for.
#[derive(Clone, Copy, Debug, PartialEq, Eq, Structural)]
pub enum Role {
    User,
    Assistant,
}

impl DeepView for Role {
    type V = Role;

    open spec fn deep_view(&self) -> Role {
        *self
    }
}

/// A point in time: whole seconds since 1970-01-01T00:00:00Z, and nanoseconds.
#[derive(Clone, Copy, Debug, PartialEq, Eq, Structural)]
pub struct Timestamp {
    pub seconds: i64,
    pub nanoseconds: u32,
}

impl DeepView for Timestamp {
    type V = Timestamp;

    open spec fn deep_view(&self) -> Timestamp {
        *self
    }
}

/// Hints on the use of content.
pub struct Annotations {
    pub audience: Option<Vec<Role>>,
    pub priority: Option<serde_json::Number>,
    pub last_modified: Option<Timestamp>,
}

/// What `Annotations` stand for.
pub struct AnnotationsView {
    pub audience: Option<Seq<Role>>,
    pub priority: Option<NumberView>,
    pub last_modified: Option<Timestamp>,
}

impl DeepView for Annotations {
    type V = AnnotationsView;

    open spec fn deep_view(&self) -> AnnotationsView {
        AnnotationsView {
            audience: self.audience.deep_view(),
            priority: match self.priority {
                Some(n) => Some(number_value(n)),
                None => None,
            },
            last_modified: self.last_modified,
        }
    }
}

/// Text.
pub struct RawTextContent {
    pub text: String,
    pub meta: Option<Meta>,
}

/// An image, in base64.
pub struct RawImageContent {
    pub data: String,
    pub mime_type: String,
    pub meta: Option<Meta>,
}

/// Audio, in base64.
pub struct RawAudioContent {
    pub data: String,
    pub mime_type: String,
}

/// A link to a resource.
pub struct RawResource {
    pub uri: String,
    pub name: String,
    pub description: Option<String>,
    pub mime_type: Option<String>,
    pub meta: Option<Meta>,
}

/// What a resource holds.
pub enum ResourceContents {
    Text { uri: String, mime_type: Option<String>, text: String, meta: Option<Meta> },
    Blob { uri: String, mime_type: Option<String>, blob: String, meta: Option<Meta> },
}

/// A resource within content.
pub struct RawEmbeddedResource {
    pub resource: ResourceContents,
    pub meta: Option<Meta>,
}

/// Content without annotations.
pub enum RawContent {
    Text(RawTextContent),
    Image(RawImageContent),
    Audio(RawAudioContent),
    ResourceLink(RawResource),
    Resource(RawEmbeddedResource),
}

/// What `ResourceContents` stand for.
pub enum ResourceContentsView {
    Text { uri: Seq<char>, mime_type: Option<Seq<char>>, text: Seq<char>, meta: Option<Fields> },
    Blob { uri: Seq<char>, mime_type: Option<Seq<char>>, blob: Seq<char>, meta: Option<Fields> },
}

impl DeepView for ResourceContents {
    type V = ResourceContentsView;

    open spec fn deep_view(&self) -> ResourceContentsView {
        match *self {
            ResourceContents::Text { uri, mime_type, text, meta } => ResourceContentsView::Text {
                uri: uri@,
                mime_type: mime_type.deep_view(),
                text: text@,
                meta: meta.deep_view(),
            },
            ResourceContents::Blob { uri, mime_type, blob, meta } => ResourceContentsView::Blob {
                uri: uri@,
                mime_type: mime_type.deep_view(),
                blob: blob@,
                meta: meta.deep_view(),
            },
        }
    }
}

/// What `RawContent` stands for.
#[allow(inconsistent_fields)]
pub enum RawContentView {
    Text { text: Seq<char>, meta: Option<Fields> },
    Image { data: Seq<char>, mime_type: Seq<char>, meta: Option<Fields> },
    Audio { data: Seq<char>, mime_type: Seq<char> },
    ResourceLink {
        uri: Seq<char>,
        name: Seq<char>,
        description: Option<Seq<char>>,
        mime_type: Option<Seq<char>>,
        meta: Option<Fields>,
    },
    Resource { resource: ResourceContentsView, meta: Option<Fields> },
}

impl DeepView for RawContent {
    type V = RawContentView;

    open spec fn deep_view(&self) -> RawContentView {
        match *self {
            RawContent::Text(c) => RawContentView::Text { text: c.text@, meta: c.meta.deep_view() },
            RawContent::Image(c) => RawContentView::Image {
                data: c.data@,
                mime_type: c.mime_type@,
                meta: c.meta.deep_view(),
            },
            RawContent::Audio(c) => RawContentView::Audio { data: c.data@, mime_type: c.mime_type@ },
            RawContent::ResourceLink(c) => RawContentView::ResourceLink {
                uri: c.uri@,
                name: c.name@,
                description: c.description.deep_view(),
                mime_type: c.mime_type.deep_view(),
                meta: c.meta.deep_view(),
            },
            RawContent::Resource(c) => RawContentView::Resource {
                resource: c.resource.deep_view(),
                meta: c.meta.deep_view(),
            },
        }
    }
}

/// A block of content.
pub struct Content {
    pub raw: RawContent,
    pub annotations: Option<Annotations>,
}

/// What `Content` stands for.
pub struct ContentView {
    pub raw: RawContentView,
    pub annotations: Option<AnnotationsView>,
}

impl DeepView for Content {
    type V = ContentView;

    open spec fn deep_view(&self) -> ContentView {
        ContentView { raw: self.raw.deep_view(), annotations: self.annotations.deep_view() }
    }
}

/// Plain text content.
pub open spec fn text_content(text: Seq<char>) -> ContentView {
    ContentView { raw: RawContentView::Text { text, meta: None }, annotations: None }
}

impl Content {
    /// Plain text content.
    pub fn text(text: String) -> (r: Content)
        ensures
            r.deep_view() == text_content(text@),
    {
        Content { raw: RawContent::Text(RawTextContent { text, meta: None }), annotations: None }
    }
}

/// Hints on what a tool does.
pub struct ToolAnnotations {
    pub title: Option<String>,
    pub read_only_hint: Option<bool>,
    pub destructive_hint: Option<bool>,
    pub idempotent_hint: Option<bool>,
    pub open_world_hint: Option<bool>,
}

/// What `ToolAnnotations` stand for.
pub struct ToolAnnotationsView {
    pub title: Option<Seq<char>>,
    pub read_only_hint: Option<bool>,
    pub destructive_hint: Option<bool>,
    pub idempotent_hint: Option<bool>,
    pub open_world_hint: Option<bool>,
}

impl DeepView for ToolAnnotations {
    type V = ToolAnnotationsView;

    open spec fn deep_view(&self) -> ToolAnnotationsView {
        ToolAnnotationsView {
            title: self.title.deep_view(),
            read_only_hint: self.read_only_hint,
            destructive_hint: self.destructive_hint,
            idempotent_hint: self.idempotent_hint,
            open_world_hint: self.open_world_hint,
        }
    }
}

/// A tool as MCP lists it.
pub struct Tool {
    pub name: String,
    pub title: Option<String>,
    pub description: Option<String>,
    pub input_schema: JsonObject,
    pub output_schema: Option<JsonObject>,
    pub annotations: Option<ToolAnnotations>,
    pub meta: Option<Meta>,
}

/// What a `Tool` stands for.
pub struct ToolView {
    pub name: Seq<char>,
    pub title: Option<Seq<char>>,
    pub description: Option<Seq<char>>,
    pub input_schema: Fields,
    pub output_schema: Option<Fields>,
    pub annotations: Option<ToolAnnotationsView>,
    pub meta: Option<Fields>,
}

impl DeepView for Tool {
    type V = ToolView;

    open spec fn deep_view(&self) -> ToolView {
        ToolView {
            name: self.name@,
            title: self.title.deep_view(),
            description: self.description.deep_view(),
            input_schema: self.input_schema@,
            output_schema: self.output_schema.deep_view(),
            annotations: self.annotations.deep_view(),
            meta: self.meta.deep_view(),
        }
    }
}

impl ToolAnnotations {
    /// A copy.
    pub fn duplicate(&self) -> (r: ToolAnnotations)
        ensures
            r.deep_view() == self.deep_view(),
    {
        ToolAnnotations {
            title: self.title.clone(),
            read_only_hint: self.read_only_hint,
            destructive_hint: self.destructive_hint,
            idempotent_hint: self.idempotent_hint,
            open_world_hint: self.open_world_hint,
        }
    }
}

/// A copy of an object, if there is one.
fn duplicate_object(object: &Option<JsonObject>) -> (r: Option<JsonObject>)
    ensures
        r.deep_view() == object.deep_view(),
{
    match object {
        Some(o) => Some(o.duplicate()),
        None => None,
    }
}

impl Tool {
    /// A copy.
    pub fn duplicate(&self) -> (r: Tool)
        ensures
            r.deep_view() == self.deep_view(),
    {
        Tool {
            name: self.name.clone(),
            title: self.title.clone(),
            description: self.description.clone(),
            input_schema: self.input_schema.duplicate(),
            output_schema: duplicate_object(&self.output_schema),
            annotations: match &self.annotations {
                Some(a) => Some(a.duplicate()),
                None => None,
            },
            meta: duplicate_object(&self.meta),
        }
    }
}

/// What a tool call gave.
pub struct CallToolResult {
    pub content: Vec<Content>,
    pub structured_content: Option<Json>,
    pub is_error: Option<bool>,
    pub meta: Option<Meta>,
}

/// What a `CallToolResult` stands for.
pub struct CallToolResultView {
    pub content: Seq<ContentView>,
    pub structured_content: Option<JsonView>,
    pub is_error: Option<bool>,
    pub meta: Option<Fields>,
}

impl DeepView for CallToolResult {
    type V = CallToolResultView;

    open spec fn deep_view(&self) -> CallToolResultView {
        CallToolResultView {
            content: self.content.deep_view(),
            structured_content: self.structured_content.deep_view(),
            is_error: self.is_error,
            meta: self.meta.deep_view(),
        }
    }
}

/// A result that holds content.
pub open spec fn content_result(content: Seq<ContentView>, is_error: bool) -> CallToolResultView {
    CallToolResultView { content, structured_content: None, is_error: Some(is_error), meta: None }
}

/// A result that holds a value, with its JSON text as content.
pub open spec fn structured_result(value: JsonView, is_error: bool) -> CallToolResultView {
    CallToolResultView {
        content: seq![text_content(written(value))],
        structured_content: Some(value),
        is_error: Some(is_error),
        meta: None,
    }
}

/// An error result with one line of text.
pub open spec fn error_result(text: Seq<char>) -> CallToolResultView {
    content_result(seq![text_content(text)], true)
}

impl CallToolResult {
    /// A successful result with content.
    pub fn success(content: Vec<Content>) -> (r: CallToolResult)
        ensures
            r.deep_view() == content_result(content.deep_view(), false),
    {
        CallToolResult { content, structured_content: None, is_error: Some(false), meta: None }
    }

    /// An error result with content.
    pub fn error(content: Vec<Content>) -> (r: CallToolResult)
        ensures
            r.deep_view() == content_result(content.deep_view(), true),
    {
        CallToolResult { content, structured_content: None, is_error: Some(true), meta: None }
    }

    /// A successful result with a value.
    pub fn structured(value: Json) -> (r: CallToolResult)
        ensures
            r.deep_view() == structured_result(value@, false),
    {
        let content = vec![Content::text(value.to_text())];
        assert(content.deep_view() =~= seq![text_content(written(value@))]);
        CallToolResult { content, structured_content: Some(value), is_error: Some(false), meta: None }
    }

    /// An error result with a value.
    pub fn structured_error(value: Json) -> (r: CallToolResult)
        ensures
            r.deep_view() == structured_result(value@, true),
    {
        let content = vec![Content::text(value.to_text())];
        assert(content.deep_view() =~= seq![text_content(written(value@))]);
        CallToolResult { content, structured_content: Some(value), is_error: Some(true), meta: None }
    }

    /// An error result with one line of text.
    pub fn failure(text: String) -> (r: CallToolResult)
        ensures
            r.deep_view() == error_result(text@),
    {
        let content = vec![Content::text(text)];
        assert(content.deep_view() =~= seq![text_content(text@)]);
        CallToolResult::error(content)
    }
}

} // verus!
